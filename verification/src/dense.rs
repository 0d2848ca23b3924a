//! A dense matrix held in one buffer, row after row.

use vstd::prelude::*;
use vstd::slice::slice_subrange;
use crate::matrix::Matrix;
use crate::matrix::MatrixRows;
use crate::matrix::MatrixRowSlices;
use crate::row::SliceRow;

verus! {

/// Whether a buffer of `len` elements can be cut into rows of `width`
/// elements with nothing left over. A width of zero admits only the empty
/// buffer.
pub open spec fn fits_rows(len: nat, width: nat) -> bool {
    if width == 0 {
        len == 0
    } else {
        len % width == 0
    }
}

/// The number of rows of `width` elements in a buffer of `len` elements.
pub open spec fn row_count(len: nat, width: nat) -> nat {
    if width == 0 {
        0
    } else {
        len / width
    }
}

/// In a buffer that holds `row_count` full rows, row `r` lies inside the
/// buffer, and so does each of its columns.
pub proof fn lemma_row_bounds(len: nat, width: nat, r: nat)
    requires
        fits_rows(len, width),
        r < row_count(len, width),
    ensures
        0 < width,
        len == row_count(len, width) * width,
        r * width + width <= len,
{
    let h = row_count(len, width);
    assert(len == width * (len / width) + len % width) by {
        vstd::arithmetic::div_mod::lemma_fundamental_div_mod(len as int, width as int);
    }
    assert(len == h * width) by (nonlinear_arith)
        requires
            len == width * h,
    ;
    assert(r * width + width <= h * width) by (nonlinear_arith)
        requires
            r < h,
    ;
}

/// A dense matrix stored in row-major order: the buffer `values` holds the
/// first row, then the second, and so on, each `width` elements long.
#[derive(Clone, Debug)]
pub struct RowMajorMatrix<T> {
    pub values: Vec<T>,
    pub width: usize,
}

impl<T: Copy + Send + Sync> RowMajorMatrix<T> {
    /// A matrix of rows of `width` elements over `values`, or `None` when
    /// `values` cannot be cut into such rows.
    pub fn new(values: Vec<T>, width: usize) -> (m: Option<Self>)
        ensures
            m is Some <==> fits_rows(values@.len(), width as nat),
            m matches Some(d) ==> d.values == values && d.width == width && d.wf(),
    {
        let whole = if width == 0 {
            values.len() == 0
        } else {
            values.len() % width == 0
        };
        if whole {
            Some(RowMajorMatrix { values, width })
        } else {
            None
        }
    }
}

impl<T: Copy + Send + Sync> Matrix<T> for RowMajorMatrix<T> {
    open spec fn wf(&self) -> bool {
        fits_rows(self.values@.len(), self.width as nat)
    }

    open spec fn view(&self) -> Seq<Seq<T>> {
        Seq::new(
            row_count(self.values@.len(), self.width as nat),
            |r: int| self.values@.subrange(r * self.width, r * self.width + self.width),
        )
    }

    open spec fn spec_width(&self) -> nat {
        self.width as nat
    }

    proof fn lemma_rectangular(&self) {
        assert forall|r: int| 0 <= r < self@.len() implies (#[trigger] self@[r]).len()
            == self.spec_width() by {
            lemma_row_bounds(self.values@.len(), self.width as nat, r as nat);
        }
    }

    fn width(&self) -> (w: usize) {
        self.width
    }

    fn height(&self) -> (h: usize) {
        if self.width == 0 {
            0
        } else {
            self.values.len() / self.width
        }
    }

    fn get(&self, r: usize, c: usize) -> (t: T) {
        proof {
            lemma_row_bounds(self.values.len() as nat, self.width as nat, r as nat);
        }
        self.values[r * self.width + c]
    }
}

impl<'a, T: Copy + Send + Sync + 'a> MatrixRows<'a, T> for RowMajorMatrix<T> {
    type Row = SliceRow<'a, T>;

    fn row(&'a self, r: usize) -> (row: Self::Row) {
        SliceRow::new(self.row_slice(r))
    }
}

impl<'a, T: Copy + Send + Sync + 'a> MatrixRowSlices<'a, T> for RowMajorMatrix<T> {
    type RowSlice = &'a [T];

    fn row_slice(&'a self, r: usize) -> (slice: Self::RowSlice) {
        proof {
            lemma_row_bounds(self.values.len() as nat, self.width as nat, r as nat);
        }
        let start = r * self.width;
        slice_subrange(self.values.as_slice(), start, start + self.width)
    }
}

} // verus!
