//! Row representations: lazy element sequences, contiguous views, and the
//! adaptors that join two of them.

use vstd::prelude::*;

verus! {

/// A lazy, finite, forward-only producer of one row's elements.
///
/// `remaining` is the sequence of elements that have not been yielded yet.
/// A producer is single-use: once an element has been yielded it is gone, and
/// an exhausted producer stays exhausted.
pub trait RowIter {
    type Item;

    /// The elements still to be yielded, in order.
    spec fn remaining(&self) -> Seq<Self::Item>;

    /// Yields the next element, or `None` once the row is exhausted.
    fn next(&mut self) -> (item: Option<Self::Item>)
        ensures
            old(self).remaining().len() > 0 ==> {
                &&& item == Some(old(self).remaining()[0])
                &&& final(self).remaining() == old(self).remaining().drop_first()
            },
            old(self).remaining().len() == 0 ==> {
                &&& item is None
                &&& final(self).remaining() == old(self).remaining()
            },
    ;
}

/// A contiguous, read-only view of one row's elements.
pub trait RowSlice {
    type Item;

    /// The elements of the row, in order.
    spec fn view(&self) -> Seq<Self::Item>;

    /// Borrows the row as a slice, without copying.
    fn deref(&self) -> (slice: &[Self::Item])
        ensures
            slice@ == self@,
    ;
}

impl<'a, T> RowSlice for &'a [T] {
    type Item = T;

    open spec fn view(&self) -> Seq<T> {
        (**self)@
    }

    fn deref(&self) -> (slice: &[T]) {
        *self
    }
}

/// One of two row representations, tagged by the side that produced it.
#[derive(Debug)]
pub enum EitherRow<L, R> {
    Left(L),
    Right(R),
}

impl<T, L, R> RowIter for EitherRow<L, R> where L: RowIter<Item = T>, R: RowIter<Item = T> {
    type Item = T;

    open spec fn remaining(&self) -> Seq<T> {
        match self {
            EitherRow::Left(l) => l.remaining(),
            EitherRow::Right(r) => r.remaining(),
        }
    }

    fn next(&mut self) -> (item: Option<T>) {
        match self {
            EitherRow::Left(l) => l.next(),
            EitherRow::Right(r) => r.next(),
        }
    }
}

impl<T, L, R> RowSlice for EitherRow<L, R> where L: RowSlice<Item = T>, R: RowSlice<Item = T> {
    type Item = T;

    open spec fn view(&self) -> Seq<T> {
        match self {
            EitherRow::Left(l) => l@,
            EitherRow::Right(r) => r@,
        }
    }

    fn deref(&self) -> (slice: &[T]) {
        match self {
            EitherRow::Left(l) => l.deref(),
            EitherRow::Right(r) => r.deref(),
        }
    }
}

/// Two row segments read one after the other: every element of the first,
/// then every element of the second.
#[derive(Debug)]
pub struct ChainRow<A, B> {
    first: A,
    second: B,
}

impl<A: RowIter, B: RowIter<Item = A::Item>> ChainRow<A, B> {
    /// Joins `first` and `second` into one row; nothing is read yet.
    pub fn new(first: A, second: B) -> (row: Self)
        ensures
            row.remaining() == first.remaining() + second.remaining(),
    {
        ChainRow { first, second }
    }
}

impl<A: RowIter, B: RowIter<Item = A::Item>> RowIter for ChainRow<A, B> {
    type Item = A::Item;

    closed spec fn remaining(&self) -> Seq<A::Item> {
        self.first.remaining() + self.second.remaining()
    }

    fn next(&mut self) -> (item: Option<A::Item>) {
        let ghost before = self.first.remaining() + self.second.remaining();
        match self.first.next() {
            Some(x) => {
                assert(self.first.remaining() + self.second.remaining() =~= before.drop_first());
                Some(x)
            },
            None => {
                let item = self.second.next();
                assert(self.first.remaining() + self.second.remaining() =~= if before.len() > 0 {
                    before.drop_first()
                } else {
                    before
                });
                item
            },
        }
    }
}

/// A lazy reader over a borrowed slice of copyable elements.
#[derive(Debug)]
pub struct SliceRow<'a, T> {
    data: &'a [T],
    pos: usize,
}

impl<'a, T: Copy> SliceRow<'a, T> {
    /// A reader positioned at the start of `data`.
    pub fn new(data: &'a [T]) -> (row: Self)
        ensures
            row.remaining() == data@,
    {
        SliceRow { data, pos: 0 }
    }
}

impl<'a, T: Copy> RowIter for SliceRow<'a, T> {
    type Item = T;

    closed spec fn remaining(&self) -> Seq<T> {
        if self.pos <= self.data@.len() {
            self.data@.skip(self.pos as int)
        } else {
            Seq::empty()
        }
    }

    fn next(&mut self) -> (item: Option<T>) {
        if self.pos < self.data.len() {
            let x = self.data[self.pos];
            self.pos = self.pos + 1;
            Some(x)
        } else {
            None
        }
    }
}

} // verus!
