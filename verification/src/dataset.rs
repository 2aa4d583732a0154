//! The dataset resource and the steps of its construction.

use vstd::prelude::*;
use vstd::string::StringSliceAdditionalSpecFns;

use crate::error::{Count, Error};
use crate::native::{has_nul, ElementType, Field, NativeString, Reply, Request};
use crate::shape::{column_count, columns_of, divisible, fits_native, narrow};

verus! {

/// An owned dataset of the engine.
///
/// A value of this type stands for exactly one resource that the engine
/// allocated. It cannot be copied, and only a construction that the engine
/// reported as successful produces one.
#[derive(Debug, PartialEq, Eq)]
pub struct Dataset {
    handle: usize,
}

/// Where a construction stands while the host makes a call.
#[derive(Debug, PartialEq, Eq)]
pub enum Ingest {
    /// Nothing is allocated yet: the creation call is under way. A label of
    /// `label_len` values is to be attached afterwards, if there is one.
    Creating { label_len: Option<i32> },
    /// The resource exists and is owned: the label is being attached.
    Labelling { dataset: Dataset },
}

/// What a construction asks of the host next.
#[derive(Debug, PartialEq, Eq)]
pub enum Step {
    /// Make this call, then hand its reply to [`Ingest::resume`].
    Call(Ingest, Request),
    /// The dataset is ready.
    Done(Dataset),
    /// The construction failed. A dataset under `release` was allocated
    /// before the failure and has to be released.
    Failed { error: Error, release: Option<Dataset> },
}

/// First step of a construction from a flat buffer of `len` values declared
/// to hold `n_rows` rows, with a label of `label_len` values.
///
/// The shape is judged first, then the three counts in the order rows,
/// columns, label. Only when all of it is in order is the engine asked for
/// anything.
pub open spec fn mat_step(len: nat, n_rows: usize, label_len: nat) -> Step {
    if !divisible(len, n_rows as nat) {
        Step::Failed { error: Error::Shape { n_rows }, release: None }
    } else if !fits_native(n_rows as nat) {
        Step::Failed { error: Error::Range(Count::Rows), release: None }
    } else if !fits_native(column_count(len, n_rows as nat)) {
        Step::Failed { error: Error::Range(Count::Columns), release: None }
    } else if !fits_native(label_len) {
        Step::Failed { error: Error::Range(Count::Label), release: None }
    } else {
        Step::Call(
            Ingest::Creating { label_len: Some(label_len as i32) },
            Request::CreateFromMat {
                n_rows: n_rows as i32,
                n_cols: column_count(len, n_rows as nat) as i32,
                element: ElementType::Float64,
                row_major: true,
                reference: None,
            },
        )
    }
}

/// The call that attaches `len` weights to the dataset `handle`, decided
/// from the reply to a query for its row count.
///
/// The weights are handed on only if there is exactly one for each row. No
/// range check can fail after that: the row count came from the engine and
/// fits its integers.
pub open spec fn weights_request(handle: usize, len: usize, rows: Reply) -> Result<
    Request,
    Error,
> {
    match rows.reported(Count::Rows) {
        Err(error) => Err(error),
        Ok(n_rows) => if n_rows != len {
            Err(Error::LengthMismatch { got: len, expected: n_rows })
        } else {
            Ok(
                Request::SetField {
                    handle,
                    field: Field::Weight,
                    len: len as i32,
                    element: ElementType::Float32,
                },
            )
        },
    }
}

impl Dataset {
    /// The handle of the resource that this dataset owns.
    pub closed spec fn spec_handle(&self) -> usize {
        self.handle
    }

    fn new(handle: usize) -> (dataset: Dataset)
        ensures
            dataset.spec_handle() == handle,
    {
        Dataset { handle }
    }

    /// The handle of the resource that this dataset owns, for the calls that
    /// the host makes on it.
    #[verifier::when_used_as_spec(spec_handle)]
    pub fn handle(&self) -> (handle: usize)
        ensures
            handle == self.spec_handle(),
    {
        self.handle
    }

    /// Starts the construction of a dataset from a dense matrix: `data` holds
    /// `n_rows` rows of equal length one after the other, and `label` one
    /// value for each row.
    pub fn from_mat<D, L>(data: &[D], n_rows: usize, label: &[L]) -> (step: Step)
        ensures
            step == mat_step(data@.len(), n_rows, label@.len()),
    {
        let n_cols = match columns_of(data.len(), n_rows) {
            Some(n_cols) => n_cols,
            None => {
                return Step::Failed { error: Error::Shape { n_rows }, release: None };
            },
        };
        let nrow = match narrow(n_rows) {
            Some(nrow) => nrow,
            None => {
                return Step::Failed { error: Error::Range(Count::Rows), release: None };
            },
        };
        let ncol = match narrow(n_cols) {
            Some(ncol) => ncol,
            None => {
                return Step::Failed { error: Error::Range(Count::Columns), release: None };
            },
        };
        let label_len = match narrow(label.len()) {
            Some(label_len) => label_len,
            None => {
                return Step::Failed { error: Error::Range(Count::Label), release: None };
            },
        };
        Step::Call(
            Ingest::Creating { label_len: Some(label_len) },
            Request::CreateFromMat {
                n_rows: nrow,
                n_cols: ncol,
                element: ElementType::Float64,
                row_major: true,
                reference: None,
            },
        )
    }

    /// Starts the construction of a dataset from the delimited text file at
    /// `file_path`. The engine reads the file; the label is its first column,
    /// so nothing is attached afterwards.
    pub fn from_file(file_path: &str) -> (step: Step)
        ensures
            has_nul(file_path.spec_bytes()) ==> step == (Step::Failed {
                error: Error::Encoding,
                release: None,
            }),
            !has_nul(file_path.spec_bytes()) ==> (step matches Step::Call(
                Ingest::Creating { label_len: None },
                Request::CreateFromFile { path, reference: None },
            ) && path@ == file_path.spec_bytes()),
    {
        match NativeString::new(file_path) {
            Err(error) => Step::Failed { error, release: None },
            Ok(path) => Step::Call(
                Ingest::Creating { label_len: None },
                Request::CreateFromFile { path, reference: None },
            ),
        }
    }

    /// The number of rows, read from the engine's reply to a query for it.
    pub fn n_rows(&self, reply: Reply) -> (r: Result<usize, Error>)
        ensures
            r == reply.reported(Count::Rows),
    {
        reply.into_count(Count::Rows)
    }

    /// The number of features, read from the engine's reply to a query for
    /// it.
    pub fn n_features(&self, reply: Reply) -> (r: Result<usize, Error>)
        ensures
            r == reply.reported(Count::Columns),
    {
        reply.into_count(Count::Columns)
    }

    /// Decides whether `weights` can be attached to the dataset, given the
    /// engine's reply `rows` to a query for its row count. On `Ok` the host
    /// makes the call returned; on `Err` the engine is not asked to set
    /// anything. The dataset itself stays as it is.
    ///
    /// The length is narrowed to the engine's integers with a check of its
    /// own, like every count that crosses over; as the contract shows, that
    /// check cannot fail once the length has matched the row count.
    pub fn set_weights<W>(&mut self, weights: &[W], rows: Reply) -> (r: Result<Request, Error>)
        ensures
            *final(self) == *old(self),
            r == weights_request(old(self).spec_handle(), weights@.len() as usize, rows),
    {
        let n_rows = self.n_rows(rows)?;
        if n_rows != weights.len() {
            return Err(Error::LengthMismatch { got: weights.len(), expected: n_rows });
        }
        let len = match narrow(weights.len()) {
            Some(len) => len,
            None => {
                return Err(Error::Range(Count::Weights));
            },
        };
        Ok(
            Request::SetField {
                handle: self.handle,
                field: Field::Weight,
                len,
                element: ElementType::Float32,
            },
        )
    }

    /// Gives the resource up: the handle that the host has to free, once.
    pub fn release(self) -> (handle: usize)
        ensures
            handle == self.spec_handle(),
    {
        self.handle
    }
}

impl Ingest {
    /// Takes the construction one step further with the engine's reply to
    /// the call that was under way.
    ///
    /// A handle that the engine returned is owned from the moment the reply
    /// is read: whatever fails afterwards, the dataset comes back to the host,
    /// ready or to be released.
    pub fn resume(self, reply: Reply) -> (step: Step)
        ensures
            match self {
                Ingest::Creating { label_len } => if reply.code != 0 {
                    step == (Step::Failed { error: Error::Native(reply.message), release: None })
                } else {
                    match label_len {
                        None => step matches Step::Done(dataset) && dataset.spec_handle()
                            == reply.handle,
                        Some(len) => step matches Step::Call(
                            Ingest::Labelling { dataset },
                            request,
                        ) && dataset.spec_handle() == reply.handle && request
                            == (Request::SetField {
                            handle: reply.handle,
                            field: Field::Label,
                            len,
                            element: ElementType::Float32,
                        }),
                    }
                },
                Ingest::Labelling { dataset } => if reply.code != 0 {
                    step == (Step::Failed {
                        error: Error::Native(reply.message),
                        release: Some(dataset),
                    })
                } else {
                    step == Step::Done(dataset)
                },
            },
    {
        match self {
            Ingest::Creating { label_len } => {
                let handle = reply.handle;
                match reply.check() {
                    Err(error) => Step::Failed { error, release: None },
                    Ok(()) => {
                        let dataset = Dataset::new(handle);
                        match label_len {
                            None => Step::Done(dataset),
                            Some(len) => Step::Call(
                                Ingest::Labelling { dataset },
                                Request::SetField {
                                    handle,
                                    field: Field::Label,
                                    len,
                                    element: ElementType::Float32,
                                },
                            ),
                        }
                    },
                }
            },
            Ingest::Labelling { dataset } => match reply.check() {
                Err(error) => Step::Failed { error, release: Some(dataset) },
                Ok(()) => Step::Done(dataset),
            },
        }
    }
}

/// A buffer of `n_rows * n_cols` values that is declared to hold `n_rows`
/// rows is put to the engine as a matrix of exactly `n_rows` rows and
/// `n_cols` columns, provided the three counts fit the engine's integers.
/// Without rows there are no columns either: the empty buffer with no rows
/// is the empty matrix.
pub proof fn lemma_product_shape(n_rows: usize, n_cols: nat, label_len: nat)
    requires
        n_rows > 0 || n_cols == 0,
        fits_native(n_rows as nat),
        fits_native(n_cols),
        fits_native(label_len),
    ensures
        mat_step((n_rows * n_cols) as nat, n_rows, label_len) == Step::Call(
            Ingest::Creating { label_len: Some(label_len as i32) },
            Request::CreateFromMat {
                n_rows: n_rows as i32,
                n_cols: n_cols as i32,
                element: ElementType::Float64,
                row_major: true,
                reference: None,
            },
        ),
{
    if n_rows > 0 {
        vstd::arithmetic::div_mod::lemma_fundamental_div_mod_converse(
            n_rows * n_cols,
            n_rows as int,
            n_cols as int,
            0,
        );
        assert(n_rows * n_cols == n_cols * n_rows) by (nonlinear_arith);
    }
}

/// A buffer whose length is no multiple of a row count other than zero is
/// refused for its shape, whatever else is given, and nothing is allocated.
pub proof fn lemma_ragged_is_shape_error(len: nat, n_rows: usize, label_len: nat)
    requires
        n_rows != 0,
        len % (n_rows as nat) != 0,
    ensures
        mat_step(len, n_rows, label_len) == (Step::Failed {
            error: Error::Shape { n_rows },
            release: None,
        }),
{
}

/// The library does not hold the length of the label against the row count:
/// two labels that fit the engine's integers are put to it with the same
/// creation call, or refused alike. Whether a label is too short or too long
/// for the matrix is the engine's to say, in its reply to the attachment.
pub proof fn lemma_label_length_is_not_judged(len: nat, n_rows: usize, a: nat, b: nat)
    requires
        fits_native(a),
        fits_native(b),
    ensures
        mat_step(len, n_rows, a) matches Step::Call(_, request) ==> mat_step(len, n_rows, b)
            == Step::Call(Ingest::Creating { label_len: Some(b as i32) }, request),
        mat_step(len, n_rows, a) is Failed ==> mat_step(len, n_rows, b) == mat_step(
            len,
            n_rows,
            a,
        ),
{
}

/// On a dataset whose engine reports `rows.count` rows, weights are handed
/// on exactly when there are as many of them. Any other number, one more or
/// one less included, is a length mismatch, and the engine is asked nothing.
pub proof fn lemma_weights_match_rows(handle: usize, len: usize, rows: Reply)
    requires
        rows.code == 0,
        rows.count >= 0,
    ensures
        len == rows.count ==> weights_request(handle, len, rows) == Ok::<Request, Error>(
            Request::SetField {
                handle,
                field: Field::Weight,
                len: rows.count,
                element: ElementType::Float32,
            },
        ),
        len != rows.count ==> weights_request(handle, len, rows) == Err::<Request, Error>(
            Error::LengthMismatch { got: len, expected: rows.count as usize },
        ),
{
}

} // verus!
