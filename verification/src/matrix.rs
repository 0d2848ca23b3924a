//! The read-only matrix capability that every composable matrix offers.

use vstd::prelude::*;
use crate::row::RowIter;
use crate::row::RowSlice;

verus! {

/// Every row of `rows` holds exactly `width` elements.
pub open spec fn is_grid<T>(rows: Seq<Seq<T>>, width: nat) -> bool {
    forall|r: int| 0 <= r < rows.len() ==> (#[trigger] rows[r]).len() == width
}

/// A rectangular, read-only matrix of `T`.
///
/// The mathematical model of a matrix is its list of rows, top to bottom
/// (`view`), together with its width (`spec_width`), which is also defined
/// when there are no rows. `wf` is the implementor's validity condition; every
/// operation asks for it.
pub trait Matrix<T: Send + Sync> {
    /// The validity condition of this matrix.
    spec fn wf(&self) -> bool;

    /// The rows, top to bottom.
    spec fn view(&self) -> Seq<Seq<T>>;

    /// The number of columns.
    spec fn spec_width(&self) -> nat;

    /// A valid matrix is rectangular.
    proof fn lemma_rectangular(&self)
        requires
            self.wf(),
        ensures
            is_grid(self@, self.spec_width()),
    ;

    /// The number of columns.
    fn width(&self) -> (w: usize)
        requires
            self.wf(),
        ensures
            w == self.spec_width(),
    ;

    /// The number of rows.
    fn height(&self) -> (h: usize)
        requires
            self.wf(),
        ensures
            h == self@.len(),
    ;

    /// The element in row `r`, column `c`.
    fn get(&self, r: usize, c: usize) -> (t: T)
        requires
            self.wf(),
            r < self@.len(),
            c < self.spec_width(),
        ensures
            t == self@[r as int][c as int],
    ;
}

/// Lazy access to the rows of a matrix borrowed for `'a`.
pub trait MatrixRows<'a, T: Send + Sync>: Matrix<T> {
    /// The lazy representation of one row.
    type Row: RowIter<Item = T>;

    /// A fresh, unread producer of the elements of row `r`, left to right.
    fn row(&'a self, r: usize) -> (row: Self::Row)
        requires
            self.wf(),
            r < self@.len(),
        ensures
            row.remaining() == self@[r as int],
            row.remaining().len() == self.spec_width(),
    ;
}

/// Contiguous access to the rows of a matrix borrowed for `'a`, offered only
/// by matrices that hold each row in one piece.
pub trait MatrixRowSlices<'a, T: Send + Sync>: MatrixRows<'a, T> {
    /// The contiguous representation of one row.
    type RowSlice: RowSlice<Item = T>;

    /// Row `r` as a contiguous view, holding what `row(r)` yields.
    fn row_slice(&'a self, r: usize) -> (slice: Self::RowSlice)
        requires
            self.wf(),
            r < self@.len(),
        ensures
            slice@ == self@[r as int],
            slice@.len() == self.spec_width(),
    ;
}

/// In every matrix, `get(r, c)` is the element that `row(r)` yields in
/// position `c`.
pub proof fn lemma_get_agrees_with_row<'a, T: Send + Sync, M: MatrixRows<'a, T>>(
    m: &'a M,
    r: usize,
    c: usize,
    t: T,
    row: M::Row,
)
    requires
        m.wf(),
        r < m@.len(),
        c < m.spec_width(),
        call_ensures(M::get, (m, r, c), t),
        call_ensures(M::row, (m, r), row),
    ensures
        c < row.remaining().len(),
        row.remaining()[c as int] == t,
{
}

/// Wherever a matrix offers both, `row(r)` and `row_slice(r)` hold the same
/// elements in the same order.
pub proof fn lemma_row_slice_agrees_with_row<'a, T: Send + Sync, M: MatrixRowSlices<'a, T>>(
    m: &'a M,
    r: usize,
    row: M::Row,
    slice: M::RowSlice,
)
    requires
        m.wf(),
        r < m@.len(),
        call_ensures(M::row, (m, r), row),
        call_ensures(M::row_slice, (m, r), slice),
    ensures
        row.remaining() == slice@,
{
}

} // verus!
