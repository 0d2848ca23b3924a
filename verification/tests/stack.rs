use matrix_stack::dense::RowMajorMatrix;
use matrix_stack::matrix::Matrix;
use matrix_stack::matrix::MatrixRowSlices;
use matrix_stack::matrix::MatrixRows;
use matrix_stack::row::EitherRow;
use matrix_stack::row::RowIter;
use matrix_stack::row::RowSlice;
use matrix_stack::stack::HorizontalPair;
use matrix_stack::stack::VerticalPair;

fn dense(values: Vec<u64>, width: usize) -> RowMajorMatrix<u64> {
    RowMajorMatrix::new(values, width).expect("the buffer holds whole rows")
}

fn drain<I: RowIter>(mut row: I) -> Vec<I::Item> {
    let mut out = Vec::new();
    while let Some(x) = row.next() {
        out.push(x);
    }
    out
}

fn all_rows<'a, M: MatrixRows<'a, u64>>(m: &'a M) -> Vec<Vec<u64>> {
    let mut out = Vec::new();
    for r in 0..m.height() {
        out.push(drain(m.row(r)));
    }
    out
}

fn all_cells<M: Matrix<u64>>(m: &M) -> Vec<Vec<u64>> {
    let mut out = Vec::new();
    for r in 0..m.height() {
        let mut row = Vec::new();
        for c in 0..m.width() {
            row.push(m.get(r, c));
        }
        out.push(row);
    }
    out
}

#[test]
fn vertical_pair_of_two_by_three_and_one_by_three() {
    let a = dense(vec![1, 2, 3, 4, 5, 6], 3);
    let b = dense(vec![7, 8, 9], 3);
    let pair = VerticalPair::new::<u64>(a, b);
    assert_eq!(pair.height(), 3);
    assert_eq!(pair.width(), 3);
    assert_eq!(drain(pair.row(2)), vec![7, 8, 9]);
    assert_eq!(pair.get(2, 1), 8);
}

#[test]
fn horizontal_pair_of_two_by_two_and_two_by_three() {
    let a = dense(vec![1, 2, 3, 4], 2);
    let b = dense(vec![5, 6, 7, 8, 9, 10], 3);
    let pair = HorizontalPair::new::<u64>(a, b);
    assert_eq!(pair.width(), 5);
    assert_eq!(pair.height(), 2);
    assert_eq!(drain(pair.row(0)), vec![1, 2, 5, 6, 7]);
    assert_eq!(pair.get(1, 4), 10);
}

#[test]
fn vertical_pair_of_widths_three_and_four_is_refused() {
    let a = dense(vec![1, 2, 3], 3);
    let b = dense(vec![1, 2, 3, 4], 4);
    assert!(VerticalPair::try_new::<u64>(a, b).is_none());
}

#[test]
fn horizontal_pair_of_heights_two_and_one_is_refused() {
    let a = dense(vec![1, 2, 3, 4], 2);
    let b = dense(vec![5, 6, 7], 3);
    assert!(HorizontalPair::try_new::<u64>(a, b).is_none());
}

#[test]
fn try_new_keeps_both_parts_when_dimensions_agree() {
    let a = dense(vec![1, 2, 3, 4, 5, 6], 3);
    let b = dense(vec![7, 8, 9], 3);
    let pair = VerticalPair::try_new::<u64>(a, b).expect("equal widths");
    assert_eq!(pair.first.values, vec![1, 2, 3, 4, 5, 6]);
    assert_eq!(pair.first.width, 3);
    assert_eq!(pair.second.values, vec![7, 8, 9]);
    assert_eq!(pair.second.width, 3);

    let a = dense(vec![1, 2, 3, 4], 2);
    let b = dense(vec![5, 6, 7, 8, 9, 10], 3);
    let pair = HorizontalPair::try_new::<u64>(a, b).expect("equal heights");
    assert_eq!(pair.first.values, vec![1, 2, 3, 4]);
    assert_eq!(pair.second.values, vec![5, 6, 7, 8, 9, 10]);
}

#[test]
fn new_keeps_both_parts() {
    let a = dense(vec![1, 2], 1);
    let b = dense(vec![3], 1);
    let pair = VerticalPair::new::<u64>(a, b);
    assert_eq!(pair.first.values, vec![1, 2]);
    assert_eq!(pair.second.values, vec![3]);

    let a = dense(vec![1, 2], 1);
    let b = dense(vec![3, 4, 5, 6], 2);
    let pair = HorizontalPair::new::<u64>(a, b);
    assert_eq!(pair.first.values, vec![1, 2]);
    assert_eq!(pair.second.values, vec![3, 4, 5, 6]);
}

#[test]
fn vertical_get_delegates_to_the_part_that_holds_the_row() {
    let a = dense(vec![1, 2, 3, 4, 5, 6], 3);
    let b = dense(vec![7, 8, 9, 10, 11, 12, 13, 14, 15], 3);
    let pair = VerticalPair::new::<u64>(a.clone(), b.clone());
    assert_eq!(pair.height(), a.height() + b.height());
    for r in 0..pair.height() {
        for c in 0..pair.width() {
            if r < a.height() {
                assert_eq!(pair.get(r, c), a.get(r, c));
            } else {
                assert_eq!(pair.get(r, c), b.get(r - a.height(), c));
            }
        }
    }
    assert_eq!(
        all_cells(&pair),
        vec![vec![1, 2, 3], vec![4, 5, 6], vec![7, 8, 9], vec![10, 11, 12], vec![13, 14, 15]]
    );
}

#[test]
fn horizontal_row_is_first_row_then_second_row() {
    let a = dense(vec![1, 2, 3, 4, 5, 6], 2);
    let b = dense(vec![7, 8, 9, 10, 11, 12, 13, 14, 15], 3);
    let pair = HorizontalPair::new::<u64>(a.clone(), b.clone());
    assert_eq!(pair.width(), a.width() + b.width());
    assert_eq!(pair.height(), 3);
    for r in 0..pair.height() {
        let mut joined = drain(a.row(r));
        joined.extend(drain(b.row(r)));
        assert_eq!(drain(pair.row(r)), joined);
    }
    assert_eq!(
        all_rows(&pair),
        vec![vec![1, 2, 7, 8, 9], vec![3, 4, 10, 11, 12], vec![5, 6, 13, 14, 15]]
    );
}

#[test]
fn horizontal_get_delegates_to_the_part_that_holds_the_column() {
    let a = dense(vec![1, 2, 3, 4], 2);
    let b = dense(vec![5, 6, 7, 8, 9, 10], 3);
    let pair = HorizontalPair::new::<u64>(a.clone(), b.clone());
    for r in 0..2 {
        for c in 0..5 {
            if c < 2 {
                assert_eq!(pair.get(r, c), a.get(r, c));
            } else {
                assert_eq!(pair.get(r, c), b.get(r, c - 2));
            }
        }
    }
    assert_eq!(all_cells(&pair), vec![vec![1, 2, 5, 6, 7], vec![3, 4, 8, 9, 10]]);
}

#[test]
fn get_and_row_agree_on_both_composites() {
    let v = VerticalPair::new::<u64>(dense(vec![1, 2, 3, 4], 2), dense(vec![5, 6], 2));
    assert_eq!(all_rows(&v), all_cells(&v));
    let h = HorizontalPair::new::<u64>(dense(vec![1, 2, 3, 4], 2), dense(vec![5, 6], 1));
    assert_eq!(all_rows(&h), all_cells(&h));
}

#[test]
fn vertical_row_slice_holds_what_row_yields() {
    let pair = VerticalPair::new::<u64>(
        dense(vec![1, 2, 3, 4, 5, 6], 3),
        dense(vec![7, 8, 9], 3),
    );
    for r in 0..pair.height() {
        let slice = pair.row_slice(r);
        assert_eq!(slice.deref().to_vec(), drain(pair.row(r)));
    }
    assert_eq!(pair.row_slice(0).deref(), &[1, 2, 3]);
    assert_eq!(pair.row_slice(1).deref(), &[4, 5, 6]);
    assert_eq!(pair.row_slice(2).deref(), &[7, 8, 9]);
}

#[test]
fn vertical_row_is_tagged_by_the_part_it_comes_from() {
    let pair = VerticalPair::new::<u64>(
        dense(vec![1, 2, 3, 4, 5, 6], 3),
        dense(vec![7, 8, 9], 3),
    );
    assert!(matches!(pair.row(0), EitherRow::Left(_)));
    assert!(matches!(pair.row(1), EitherRow::Left(_)));
    assert!(matches!(pair.row(2), EitherRow::Right(_)));
    assert!(matches!(pair.row_slice(1), EitherRow::Left(_)));
    assert!(matches!(pair.row_slice(2), EitherRow::Right(_)));
}

#[test]
fn vertical_row_slice_borrows_the_buffer_of_its_part() {
    let pair = VerticalPair::new::<u64>(
        dense(vec![1, 2, 3, 4, 5, 6], 3),
        dense(vec![7, 8, 9], 3),
    );
    let top = pair.row_slice(1);
    let bottom = pair.row_slice(2);
    assert!(std::ptr::eq(top.deref().as_ptr(), pair.first.values[3..].as_ptr()));
    assert!(std::ptr::eq(bottom.deref().as_ptr(), pair.second.values.as_ptr()));
}

#[test]
fn a_row_is_read_once_and_a_new_call_reads_it_again() {
    let pair = HorizontalPair::new::<u64>(dense(vec![1, 2], 2), dense(vec![3], 1));
    let mut row = pair.row(0);
    assert_eq!(row.next(), Some(1));
    assert_eq!(row.next(), Some(2));
    assert_eq!(row.next(), Some(3));
    assert_eq!(row.next(), None);
    assert_eq!(row.next(), None);
    assert_eq!(drain(pair.row(0)), vec![1, 2, 3]);
}

#[test]
fn composites_nest() {
    let top = HorizontalPair::new::<u64>(dense(vec![1, 2, 5, 6], 2), dense(vec![3, 7], 1));
    let bottom = HorizontalPair::new::<u64>(dense(vec![9, 13], 1), dense(vec![10, 11, 14, 15], 2));
    let all = VerticalPair::new::<u64>(top, bottom);
    assert_eq!(all.height(), 4);
    assert_eq!(all.width(), 3);
    assert_eq!(
        all_rows(&all),
        vec![vec![1, 2, 3], vec![5, 6, 7], vec![9, 10, 11], vec![13, 14, 15]]
    );
    assert_eq!(all_cells(&all), all_rows(&all));
    assert_eq!(all.get(2, 1), 10);

    let left = VerticalPair::new::<u64>(dense(vec![1, 2], 2), dense(vec![5, 6], 2));
    let right = VerticalPair::new::<u64>(dense(vec![3], 1), dense(vec![7], 1));
    let wide = HorizontalPair::new::<u64>(left, right);
    assert_eq!(wide.height(), 2);
    assert_eq!(wide.width(), 3);
    assert_eq!(all_rows(&wide), vec![vec![1, 2, 3], vec![5, 6, 7]]);
}

#[test]
fn nested_vertical_pairs_offer_row_slices() {
    let inner = VerticalPair::new::<u64>(dense(vec![1, 2], 2), dense(vec![3, 4], 2));
    let outer = VerticalPair::new::<u64>(inner, dense(vec![5, 6], 2));
    assert_eq!(outer.height(), 3);
    assert_eq!(outer.row_slice(0).deref(), &[1, 2]);
    assert_eq!(outer.row_slice(1).deref(), &[3, 4]);
    assert_eq!(outer.row_slice(2).deref(), &[5, 6]);
}

#[test]
fn empty_parts_are_accepted() {
    let none = dense(vec![], 3);
    let some = dense(vec![1, 2, 3], 3);
    let pair = VerticalPair::new::<u64>(none.clone(), some.clone());
    assert_eq!(pair.height(), 1);
    assert_eq!(drain(pair.row(0)), vec![1, 2, 3]);
    assert!(matches!(pair.row(0), EitherRow::Right(_)));
    let pair = VerticalPair::new::<u64>(some, none.clone());
    assert_eq!(pair.height(), 1);
    assert_eq!(pair.get(0, 2), 3);
    let pair = VerticalPair::new::<u64>(none.clone(), none);
    assert_eq!(pair.height(), 0);
    assert_eq!(pair.width(), 3);

    let narrow = dense(vec![], 0);
    let wide = dense(vec![], 2);
    let pair = HorizontalPair::new::<u64>(narrow, wide);
    assert_eq!(pair.height(), 0);
    assert_eq!(pair.width(), 2);
}

#[derive(Clone, Copy, Debug)]
struct Unit;

#[test]
fn pairs_of_copyable_parts_are_copyable() {
    let pair = VerticalPair { first: Unit, second: Unit };
    let copy = pair;
    let _ = (pair, copy);
    let pair = HorizontalPair { first: Unit, second: Unit };
    let copy = pair;
    let _ = (pair, copy);
}
