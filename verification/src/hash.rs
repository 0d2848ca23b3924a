//! The interface of a hash function over algebraic elements.

use vstd::prelude::*;

verus! {

/// A hash function over algebraic elements of type `F`: it takes an ordered
/// sequence of elements of any length and produces exactly `OUT_WIDTH`
/// elements.
pub trait AlgebraicHash<F, const OUT_WIDTH: usize> {
    /// Hashes `input` down to `OUT_WIDTH` elements.
    fn hash(&self, input: Vec<F>) -> (out: [F; OUT_WIDTH])
        ensures
            out@.len() == OUT_WIDTH,
    ;
}

} // verus!
