//! Two matrices joined into one logical matrix, without copying either.

use vstd::prelude::*;
use crate::matrix::Matrix;
use crate::matrix::MatrixRows;
use crate::matrix::MatrixRowSlices;
use crate::row::ChainRow;
use crate::row::EitherRow;
use crate::row::RowIter;
use crate::row::RowSlice;

verus! {

/// A combination of two matrices, stacked together vertically: the rows of
/// `first`, then the rows of `second`.
#[derive(Copy, Clone, Debug)]
pub struct VerticalPair<First, Second> {
    pub first: First,
    pub second: Second,
}

/// A combination of two matrices, stacked together horizontally: each row of
/// `first` followed by the same row of `second`.
///
/// A row of the pair lies in two buffers, so the pair offers its rows as lazy
/// sequences only, never as one contiguous view.
#[derive(Copy, Clone, Debug)]
pub struct HorizontalPair<First, Second> {
    pub first: First,
    pub second: Second,
}

impl<First, Second> VerticalPair<First, Second> {
    /// Stacks `second` below `first`. The two must have the same width.
    ///
    /// The pair is valid exactly when its height fits in `usize`.
    pub fn new<T>(first: First, second: Second) -> (pair: Self) where
        T: Send + Sync,
        First: Matrix<T>,
        Second: Matrix<T>,

        requires
            first.wf(),
            second.wf(),
            first.spec_width() == second.spec_width(),
        ensures
            pair.first == first,
            pair.second == second,
            pair@ == first@ + second@,
            pair.spec_width() == first.spec_width(),
            pair.wf() <==> first@.len() + second@.len() <= usize::MAX,
    {
        Self { first, second }
    }

    /// Stacks `second` below `first` if their widths agree, and refuses
    /// otherwise.
    pub fn try_new<T>(first: First, second: Second) -> (pair: Option<Self>) where
        T: Send + Sync,
        First: Matrix<T>,
        Second: Matrix<T>,

        requires
            first.wf(),
            second.wf(),
        ensures
            pair is Some <==> first.spec_width() == second.spec_width(),
            pair matches Some(p) ==> p.first == first && p.second == second,
    {
        if first.width() == second.width() {
            Some(Self::new::<T>(first, second))
        } else {
            None
        }
    }
}

impl<First, Second> HorizontalPair<First, Second> {
    /// Puts `second` to the right of `first`. The two must have the same
    /// height.
    ///
    /// The pair is valid exactly when its width fits in `usize`.
    pub fn new<T>(first: First, second: Second) -> (pair: Self) where
        T: Send + Sync,
        First: Matrix<T>,
        Second: Matrix<T>,

        requires
            first.wf(),
            second.wf(),
            first@.len() == second@.len(),
        ensures
            pair.first == first,
            pair.second == second,
            pair@ == join_rows(first@, second@),
            pair.spec_width() == first.spec_width() + second.spec_width(),
            pair.wf() <==> first.spec_width() + second.spec_width() <= usize::MAX,
    {
        Self { first, second }
    }

    /// Puts `second` to the right of `first` if their heights agree, and
    /// refuses otherwise.
    pub fn try_new<T>(first: First, second: Second) -> (pair: Option<Self>) where
        T: Send + Sync,
        First: Matrix<T>,
        Second: Matrix<T>,

        requires
            first.wf(),
            second.wf(),
        ensures
            pair is Some <==> first@.len() == second@.len(),
            pair matches Some(p) ==> p.first == first && p.second == second,
    {
        if first.height() == second.height() {
            Some(Self::new::<T>(first, second))
        } else {
            None
        }
    }
}

/// Row by row, the row of `left` followed by the row of `right`. There are as
/// many rows as `left` has.
pub open spec fn join_rows<T>(left: Seq<Seq<T>>, right: Seq<Seq<T>>) -> Seq<Seq<T>> {
    Seq::new(left.len(), |r: int| left[r] + right[r])
}

impl<T: Send + Sync, First: Matrix<T>, Second: Matrix<T>> Matrix<T> for VerticalPair<
    First,
    Second,
> {
    open spec fn wf(&self) -> bool {
        &&& self.first.wf()
        &&& self.second.wf()
        &&& self.first.spec_width() == self.second.spec_width()
        &&& self.first@.len() + self.second@.len() <= usize::MAX
    }

    open spec fn view(&self) -> Seq<Seq<T>> {
        self.first@ + self.second@
    }

    open spec fn spec_width(&self) -> nat {
        self.first.spec_width()
    }

    proof fn lemma_rectangular(&self) {
        self.first.lemma_rectangular();
        self.second.lemma_rectangular();
    }

    fn width(&self) -> (w: usize)
        ensures
            w == self.first.spec_width(),
    {
        self.first.width()
    }

    fn height(&self) -> (h: usize)
        ensures
            h == self.first@.len() + self.second@.len(),
    {
        self.first.height() + self.second.height()
    }

    fn get(&self, r: usize, c: usize) -> (t: T)
        ensures
            r < self.first@.len() ==> t == self.first@[r as int][c as int],
            r >= self.first@.len() ==> t == self.second@[r - self.first@.len()][c as int],
    {
        if r < self.first.height() {
            self.first.get(r, c)
        } else {
            self.second.get(r - self.first.height(), c)
        }
    }
}

impl<'a, T: Send + Sync, First: MatrixRows<'a, T>, Second: MatrixRows<'a, T>> MatrixRows<
    'a,
    T,
> for VerticalPair<First, Second> {
    type Row = EitherRow<First::Row, Second::Row>;

    fn row(&'a self, r: usize) -> (row: Self::Row)
        ensures
            row is Left <==> r < self.first@.len(),
            r < self.first@.len() ==> row.remaining() == self.first@[r as int],
            r >= self.first@.len() ==> row.remaining() == self.second@[r - self.first@.len()],
    {
        if r < self.first.height() {
            EitherRow::Left(self.first.row(r))
        } else {
            EitherRow::Right(self.second.row(r - self.first.height()))
        }
    }
}

impl<
    'a,
    T: Send + Sync,
    First: MatrixRowSlices<'a, T>,
    Second: MatrixRowSlices<'a, T>,
> MatrixRowSlices<'a, T> for VerticalPair<First, Second> {
    type RowSlice = EitherRow<First::RowSlice, Second::RowSlice>;

    fn row_slice(&'a self, r: usize) -> (slice: Self::RowSlice)
        ensures
            slice is Left <==> r < self.first@.len(),
            r < self.first@.len() ==> slice@ == self.first@[r as int],
            r >= self.first@.len() ==> slice@ == self.second@[r - self.first@.len()],
    {
        if r < self.first.height() {
            EitherRow::Left(self.first.row_slice(r))
        } else {
            EitherRow::Right(self.second.row_slice(r - self.first.height()))
        }
    }
}

impl<T: Send + Sync, First: Matrix<T>, Second: Matrix<T>> Matrix<T> for HorizontalPair<
    First,
    Second,
> {
    open spec fn wf(&self) -> bool {
        &&& self.first.wf()
        &&& self.second.wf()
        &&& self.first@.len() == self.second@.len()
        &&& self.first.spec_width() + self.second.spec_width() <= usize::MAX
    }

    open spec fn view(&self) -> Seq<Seq<T>> {
        join_rows(self.first@, self.second@)
    }

    open spec fn spec_width(&self) -> nat {
        self.first.spec_width() + self.second.spec_width()
    }

    proof fn lemma_rectangular(&self) {
        self.first.lemma_rectangular();
        self.second.lemma_rectangular();
    }

    fn width(&self) -> (w: usize)
        ensures
            w == self.first.spec_width() + self.second.spec_width(),
    {
        self.first.width() + self.second.width()
    }

    fn height(&self) -> (h: usize)
        ensures
            h == self.first@.len(),
    {
        self.first.height()
    }

    fn get(&self, r: usize, c: usize) -> (t: T)
        ensures
            c < self.first.spec_width() ==> t == self.first@[r as int][c as int],
            c >= self.first.spec_width() ==> t == self.second@[r as int][c
                - self.first.spec_width()],
    {
        proof {
            self.first.lemma_rectangular();
            self.second.lemma_rectangular();
        }
        if c < self.first.width() {
            self.first.get(r, c)
        } else {
            self.second.get(r, c - self.first.width())
        }
    }
}

impl<'a, T: Send + Sync, First: MatrixRows<'a, T>, Second: MatrixRows<'a, T>> MatrixRows<
    'a,
    T,
> for HorizontalPair<First, Second> {
    type Row = ChainRow<First::Row, Second::Row>;

    fn row(&'a self, r: usize) -> (row: Self::Row)
        ensures
            row.remaining() == self.first@[r as int] + self.second@[r as int],
    {
        ChainRow::new(self.first.row(r), self.second.row(r))
    }
}

/// Stacking vertically adds the heights; an element in one of the top rows is
/// the element of `first` at the same place, and an element further down is
/// the element of `second` that many rows below the top of `second`.
pub proof fn lemma_vertical_stack<T: Send + Sync, First: Matrix<T>, Second: Matrix<T>>(
    first: First,
    second: Second,
    r: int,
    c: int,
)
    requires
        first.wf(),
        second.wf(),
        first.spec_width() == second.spec_width(),
        0 <= r < first@.len() + second@.len(),
        0 <= c < first.spec_width(),
    ensures
        ({
            let pair = (VerticalPair { first, second });
            &&& pair.spec_width() == first.spec_width()
            &&& pair@.len() == first@.len() + second@.len()
            &&& pair@[r].len() == pair.spec_width()
            &&& r < first@.len() ==> pair@[r][c] == first@[r][c]
            &&& r >= first@.len() ==> pair@[r][c] == second@[r - first@.len()][c]
        }),
{
    first.lemma_rectangular();
    second.lemma_rectangular();
}

/// Stacking horizontally adds the widths and keeps the height; each row is
/// the row of `first` followed by the same row of `second`.
pub proof fn lemma_horizontal_stack<T: Send + Sync, First: Matrix<T>, Second: Matrix<T>>(
    first: First,
    second: Second,
    r: int,
)
    requires
        first.wf(),
        second.wf(),
        first@.len() == second@.len(),
        0 <= r < first@.len(),
    ensures
        ({
            let pair = (HorizontalPair { first, second });
            &&& pair.spec_width() == first.spec_width() + second.spec_width()
            &&& pair@.len() == first@.len()
            &&& pair@[r] == first@[r] + second@[r]
            &&& pair@[r].len() == pair.spec_width()
        }),
{
    first.lemma_rectangular();
    second.lemma_rectangular();
}

/// Two matrices of different widths never form a valid vertical pair, so no
/// read of such a pair is admitted.
pub proof fn lemma_vertical_mismatch_is_invalid<
    T: Send + Sync,
    First: Matrix<T>,
    Second: Matrix<T>,
>(first: First, second: Second)
    requires
        first.spec_width() != second.spec_width(),
    ensures
        !(VerticalPair { first, second }).wf(),
{
}

/// Two matrices of different heights never form a valid horizontal pair, so
/// no read of such a pair is admitted.
pub proof fn lemma_horizontal_mismatch_is_invalid<
    T: Send + Sync,
    First: Matrix<T>,
    Second: Matrix<T>,
>(first: First, second: Second)
    requires
        first@.len() != second@.len(),
    ensures
        !(HorizontalPair { first, second }).wf(),
{
}

} // verus!
