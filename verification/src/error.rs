//! Errors of dataset construction and mutation.

use vstd::prelude::*;

verus! {

/// A count that crosses into the engine, where it has to be a 32-bit signed
/// integer.
#[derive(Debug, Clone, Copy, PartialEq, Eq, Structural)]
pub enum Count {
    /// Number of rows of a feature matrix.
    Rows,
    /// Number of columns of a feature matrix.
    Columns,
    /// Length of a label vector.
    Label,
    /// Length of a weight vector.
    Weights,
}

/// Why an operation on a dataset failed.
#[derive(Debug, PartialEq, Eq)]
pub enum Error {
    /// The buffer length is not a multiple of the declared row count.
    Shape { n_rows: usize },
    /// A count is larger than the engine's integers can hold.
    Range(Count),
    /// A string holds a NUL byte and cannot be handed to the engine.
    Encoding,
    /// The engine reported a failure; this is its message, unchanged.
    Native(String),
    /// A per-row field was given with a length other than the row count.
    LengthMismatch { got: usize, expected: usize },
    /// The engine reported a count below zero.
    Negative(Count),
    /// A frame has no column of the requested name.
    ColumnNotFound,
}

} // verus!
