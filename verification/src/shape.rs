//! Shapes of dense row-major matrices, and the engine's integer width.

use vstd::prelude::*;

verus! {

/// A flat buffer of `len` values can be cut into `rows` rows of equal length.
///
/// With no rows only the empty buffer qualifies.
pub open spec fn divisible(len: nat, rows: nat) -> bool {
    if rows == 0 {
        len == 0
    } else {
        len % rows == 0
    }
}

/// Number of columns of a flat buffer of `len` values cut into `rows` rows.
pub open spec fn column_count(len: nat, rows: nat) -> nat {
    if rows == 0 {
        0
    } else {
        len / rows
    }
}

/// The count can be handed to the engine as a 32-bit signed integer.
pub open spec fn fits_native(n: nat) -> bool {
    n <= i32::MAX
}

/// Narrows a count to the engine's integer width.
pub fn narrow(n: usize) -> (r: Option<i32>)
    ensures
        r is Some <==> fits_native(n as nat),
        r matches Some(v) ==> v == n,
{
    if n > i32::MAX as usize {
        None
    } else {
        Some(n as i32)
    }
}

/// Number of columns of a flat buffer of `len` values that is declared to
/// hold `rows` rows, or `None` where the buffer cannot be cut that way.
pub fn columns_of(len: usize, rows: usize) -> (r: Option<usize>)
    ensures
        r is Some <==> divisible(len as nat, rows as nat),
        r matches Some(c) ==> c == column_count(len as nat, rows as nat),
{
    if rows == 0 {
        if len == 0 {
            Some(0)
        } else {
            None
        }
    } else if len % rows != 0 {
        None
    } else {
        Some(len / rows)
    }
}

} // verus!
