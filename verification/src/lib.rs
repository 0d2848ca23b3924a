//! Zero-copy composition of two read-only matrices into one logical matrix,
//! stacked along either axis, behind a uniform row-access interface.

pub mod dense;
pub mod hash;
pub mod matrix;
pub mod row;
pub mod stack;

pub use crate::hash::AlgebraicHash;
pub use crate::matrix::Matrix;
pub use crate::matrix::MatrixRowSlices;
pub use crate::matrix::MatrixRows;
pub use crate::row::EitherRow;
pub use crate::stack::HorizontalPair;
pub use crate::stack::VerticalPair;
