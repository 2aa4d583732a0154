//! Tabular frames and their conversion into a dense row-major matrix.
//!
//! A frame is a table of named columns of equal height whose cells may be
//! missing. The cell type is left open: the library moves cells around and
//! never looks into one.

use vstd::prelude::*;
use vstd::arithmetic::div_mod::lemma_fundamental_div_mod_converse;

use crate::dataset::{lemma_product_shape, mat_step, Dataset, Ingest, Step};
use crate::error::Error;
use crate::native::{ElementType, Request};
use crate::shape::fits_native;

verus! {

/// A named column of a frame. A cell that is `None` is a missing value.
#[derive(Debug, PartialEq, Eq)]
pub struct Column<T> {
    pub name: String,
    pub cells: Vec<Option<T>>,
}

/// A table of named columns, each with one cell for every row.
#[derive(Debug, PartialEq, Eq)]
pub struct Frame<T> {
    height: usize,
    columns: Vec<Column<T>>,
}

/// No cell of the column is missing.
pub open spec fn complete<T>(cells: Seq<Option<T>>) -> bool {
    forall|i: int| 0 <= i < cells.len() ==> (#[trigger] cells[i]) is Some
}

/// No cell of any column is missing.
pub open spec fn whole<T>(columns: Seq<Column<T>>) -> bool {
    forall|j: int| 0 <= j < columns.len() ==> complete((#[trigger] columns[j]).cells@)
}

/// The values of a column, in row order.
pub open spec fn dense<T>(cells: Seq<Option<T>>) -> Seq<T> {
    Seq::new(cells.len(), |i: int| cells[i]->Some_0)
}

/// The values of each column, in column order.
pub open spec fn dense_columns<T>(columns: Seq<Column<T>>) -> Seq<Seq<T>> {
    Seq::new(columns.len(), |j: int| dense(columns[j].cells@))
}

/// Some column bears the name.
pub open spec fn has_column<T>(columns: Seq<Column<T>>, name: Seq<char>) -> bool {
    exists|j: int| 0 <= j < columns.len() && (#[trigger] columns[j]).name@ == name
}

/// Column `p` is the first one that bears the name.
pub open spec fn first_named<T>(columns: Seq<Column<T>>, name: Seq<char>, p: int) -> bool {
    &&& 0 <= p < columns.len()
    &&& columns[p].name@ == name
    &&& forall|j: int| 0 <= j < p ==> (#[trigger] columns[j]).name@ != name
}

/// The row-major matrix with `height` rows whose column `j` is `columns[j]`:
/// row after row, and within a row the columns in their order.
pub open spec fn row_major<T>(columns: Seq<Seq<T>>, height: nat) -> Seq<T> {
    Seq::new(
        height * columns.len(),
        |k: int| columns[k % (columns.len() as int)][k / (columns.len() as int)],
    )
}

/// In the row-major matrix the value of row `i` and column `j` stands at
/// `i * width + j`, and it is the value that column `j` has in row `i`.
pub proof fn lemma_row_major_cell<T>(columns: Seq<Seq<T>>, height: nat, i: int, j: int)
    requires
        0 <= i < height,
        0 <= j < columns.len(),
    ensures
        0 <= i * columns.len() + j < row_major(columns, height).len(),
        row_major(columns, height)[i * columns.len() + j] == columns[j][i],
{
    let width = columns.len() as int;
    let k = i * width + j;
    lemma_fundamental_div_mod_converse(k, width, i, j);
    assert(0 <= k < height * width) by (nonlinear_arith)
        requires
            k == i * width + j,
            0 <= j < width,
            0 <= i < height,
    ;
}

/// A frame of `height` rows, transposed and put to the engine, is asked for
/// as a matrix of `height` rows with one column for each feature column,
/// provided the counts fit the engine's integers. A frame without rows gives
/// the empty matrix, whatever columns it has.
pub proof fn lemma_tabular_shape<T>(columns: Seq<Seq<T>>, height: usize, label_len: nat)
    requires
        fits_native(height as nat),
        fits_native(columns.len()),
        fits_native(label_len),
    ensures
        mat_step(row_major(columns, height as nat).len(), height, label_len) == Step::Call(
            Ingest::Creating { label_len: Some(label_len as i32) },
            Request::CreateFromMat {
                n_rows: height as i32,
                n_cols: if height == 0 {
                    0i32
                } else {
                    columns.len() as i32
                },
                element: ElementType::Float64,
                row_major: true,
                reference: None,
            },
        ),
{
    if height == 0 {
        assert(height * columns.len() == 0) by (nonlinear_arith)
            requires
                height == 0,
        ;
        lemma_product_shape(height, 0, label_len);
    } else {
        lemma_product_shape(height, columns.len(), label_len);
    }
}

/// Where a frame lacks a value that a dataset needs.
#[derive(Debug, Clone, Copy, PartialEq, Eq, Structural)]
pub enum Missing {
    /// In the label column.
    Label,
    /// In a column other than the label column.
    Feature,
}

/// What a frame lacks for a dataset with the label column `name`, if
/// anything. A frame without such a column is not judged.
pub open spec fn missing_in<T>(columns: Seq<Column<T>>, name: Seq<char>) -> Option<Missing> {
    if !has_column(columns, name) || whole(columns) {
        None
    } else if exists|p: int| first_named(columns, name, p) && !complete(columns[p].cells@) {
        Some(Missing::Label)
    } else {
        Some(Missing::Feature)
    }
}

/// A frame taken apart for the engine: its features as a row-major matrix,
/// its label, and the first step of the construction of a dataset from them.
#[derive(Debug, PartialEq, Eq)]
pub struct Tabular<T> {
    /// The feature columns, transposed into one row-major buffer.
    pub data: Vec<T>,
    /// The label column, one value for each row.
    pub label: Vec<T>,
    /// What [`Dataset::from_mat`] says of `data`, the frame's height and
    /// `label`.
    pub step: Step,
}

/// The values of a column without missing cells.
fn values<T: Copy>(cells: &Vec<Option<T>>) -> (out: Vec<T>)
    requires
        complete(cells@),
    ensures
        out@ == dense(cells@),
{
    let mut out: Vec<T> = Vec::new();
    let mut i: usize = 0;
    while i < cells.len()
        invariant
            i <= cells@.len(),
            complete(cells@),
            out@.len() == i,
            forall|k: int| 0 <= k < i ==> out@[k] == (#[trigger] cells@[k])->Some_0,
        decreases cells@.len() - i,
    {
        let cell = cells[i];
        out.push(cell.unwrap());
        i = i + 1;
    }
    assert(out@ =~= dense(cells@));
    out
}

/// Writes columns of equal height, none with a missing cell, into one
/// row-major buffer.
fn transpose<T: Copy>(columns: &Vec<Column<T>>, height: usize) -> (data: Vec<T>)
    requires
        whole(columns@),
        forall|j: int|
            0 <= j < columns@.len() ==> (#[trigger] columns@[j]).cells@.len() == height,
    ensures
        data@ == row_major(dense_columns(columns@), height as nat),
{
    let width = columns.len();
    let ghost target = row_major(dense_columns(columns@), height as nat);
    let mut data: Vec<T> = Vec::new();
    let mut i: usize = 0;
    while i < height
        invariant
            i <= height,
            width == columns@.len(),
            whole(columns@),
            forall|j: int|
                0 <= j < columns@.len() ==> (#[trigger] columns@[j]).cells@.len() == height,
            target == row_major(dense_columns(columns@), height as nat),
            data@.len() == i * width,
            forall|k: int| 0 <= k < data@.len() ==> data@[k] == target[k],
        decreases height - i,
    {
        let mut j: usize = 0;
        while j < width
            invariant
                i < height,
                j <= width,
                width == columns@.len(),
                whole(columns@),
                forall|j: int|
                    0 <= j < columns@.len() ==> (#[trigger] columns@[j]).cells@.len() == height,
                target == row_major(dense_columns(columns@), height as nat),
                data@.len() == i * width + j,
                forall|k: int| 0 <= k < data@.len() ==> data@[k] == target[k],
            decreases width - j,
        {
            let cell = columns[j].cells[i];
            proof {
                lemma_row_major_cell(
                    dense_columns(columns@),
                    height as nat,
                    i as int,
                    j as int,
                );
                assert(columns@[j as int].cells@[i as int] is Some);
            }
            data.push(cell.unwrap());
            j = j + 1;
        }
        assert((i + 1) * width == i * width + width) by (nonlinear_arith);
        i = i + 1;
    }
    assert(data@ =~= target);
    data
}

impl<T> Frame<T> {
    #[verifier::type_invariant]
    spec fn rectangular(&self) -> bool {
        forall|j: int|
            0 <= j < self.columns@.len() ==> (#[trigger] self.columns@[j]).cells@.len()
                == self.height
    }

    /// The number of rows.
    pub closed spec fn spec_height(&self) -> usize {
        self.height
    }

    /// The columns, in their order.
    pub closed spec fn spec_columns(&self) -> Seq<Column<T>> {
        self.columns@
    }

    /// A frame of `height` rows with the given columns, or `None` where a
    /// column does not have `height` cells.
    pub fn new(height: usize, columns: Vec<Column<T>>) -> (r: Option<Frame<T>>)
        ensures
            r is Some <==> forall|j: int|
                0 <= j < columns@.len() ==> (#[trigger] columns@[j]).cells@.len() == height,
            r matches Some(frame) ==> frame.spec_height() == height && frame.spec_columns()
                == columns@,
    {
        let mut j: usize = 0;
        while j < columns.len()
            invariant
                j <= columns@.len(),
                forall|k: int| 0 <= k < j ==> (#[trigger] columns@[k]).cells@.len() == height,
            decreases columns@.len() - j,
        {
            if columns[j].cells.len() != height {
                return None;
            }
            j = j + 1;
        }
        Some(Frame { height, columns })
    }

    /// The index of the first column that bears the name, if there is one.
    pub fn position(&self, name: &String) -> (r: Option<usize>)
        ensures
            r is Some <==> has_column(self.spec_columns(), name@),
            r matches Some(p) ==> first_named(self.spec_columns(), name@, p as int),
    {
        let mut j: usize = 0;
        while j < self.columns.len()
            invariant
                j <= self.columns@.len(),
                forall|k: int| 0 <= k < j ==> (#[trigger] self.columns@[k]).name@ != name@,
            decreases self.columns@.len() - j,
        {
            if self.columns[j].name == *name {
                return Some(j);
            }
            j = j + 1;
        }
        None
    }

    /// Tells what the frame lacks for a dataset with the label column
    /// `label_column`: a host asks this before [`Dataset::from_dataframe`],
    /// which takes no frame that lacks anything.
    pub fn missing(&self, label_column: &String) -> (r: Option<Missing>)
        ensures
            r == missing_in(self.spec_columns(), label_column@),
    {
        let p = match self.position(label_column) {
            Some(p) => p,
            None => {
                return None;
            },
        };
        if !is_complete(&self.columns[p].cells) {
            return Some(Missing::Label);
        }
        let mut j: usize = 0;
        while j < self.columns.len()
            invariant
                j <= self.columns@.len(),
                first_named(self.spec_columns(), label_column@, p as int),
                complete(self.columns@[p as int].cells@),
                forall|k: int| 0 <= k < j ==> complete((#[trigger] self.columns@[k]).cells@),
            decreases self.columns@.len() - j,
        {
            if !is_complete(&self.columns[j].cells) {
                assert forall|q: int|
                    first_named(self.spec_columns(), label_column@, q) implies complete(
                    self.spec_columns()[q].cells@,
                ) by {
                    assert(q == p);
                }
                return Some(Missing::Feature);
            }
            j = j + 1;
        }
        None
    }
}

/// Tells whether no cell of the column is missing.
fn is_complete<T>(cells: &Vec<Option<T>>) -> (r: bool)
    ensures
        r == complete(cells@),
{
    let mut i: usize = 0;
    while i < cells.len()
        invariant
            i <= cells@.len(),
            forall|k: int| 0 <= k < i ==> (#[trigger] cells@[k]) is Some,
        decreases cells@.len() - i,
    {
        if cells[i].is_none() {
            return false;
        }
        i = i + 1;
    }
    true
}

impl Dataset {
    /// Starts the construction of a dataset from a frame: the column named
    /// `label_column` is the label, the others are the features, in their
    /// order.
    ///
    /// A frame that has the label column must not lack a value anywhere;
    /// [`Frame::missing`] tells.
    pub fn from_dataframe<T: Copy>(frame: Frame<T>, label_column: String) -> (r: Result<
        Tabular<T>,
        Error,
    >)
        requires
            missing_in(frame.spec_columns(), label_column@) is None,
        ensures
            !has_column(frame.spec_columns(), label_column@) ==> r == Err::<Tabular<T>, Error>(
                Error::ColumnNotFound,
            ),
            forall|p: int| #[trigger]
                first_named(frame.spec_columns(), label_column@, p) ==> {
                    &&& r matches Ok(tabular)
                    &&& tabular.label@ == dense(frame.spec_columns()[p].cells@)
                    &&& tabular.data@ == row_major(
                        dense_columns(frame.spec_columns().remove(p)),
                        frame.spec_height() as nat,
                    )
                    &&& tabular.step == mat_step(
                        tabular.data@.len(),
                        frame.spec_height(),
                        tabular.label@.len(),
                    )
                },
    {
        proof {
            use_type_invariant(&frame);
        }
        let p = match frame.position(&label_column) {
            Some(p) => p,
            None => {
                return Err(Error::ColumnNotFound);
            },
        };
        let ghost before = frame.spec_columns();
        let Frame { height, mut columns } = frame;
        let label_cells = columns.remove(p).cells;
        proof {
            assert(whole(before));
            assert(forall|q: int| first_named(before, label_column@, q) ==> q == p);
            assert(label_cells@ == before[p as int].cells@);
            assert(columns@ == before.remove(p as int));
            assert forall|j: int| 0 <= j < columns@.len() implies complete(
                (#[trigger] columns@[j]).cells@,
            ) && columns@[j].cells@.len() == height by {
                if j < p {
                    assert(columns@[j] == before[j]);
                } else {
                    assert(columns@[j] == before[j + 1]);
                }
            }
        }
        let label = values(&label_cells);
        let data = transpose(&columns, height);
        let step = Dataset::from_mat(data.as_slice(), height, label.as_slice());
        Ok(Tabular { data, label, step })
    }
}

} // verus!
