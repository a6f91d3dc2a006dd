//! The closed set of elementary integer transformations that the harness
//! can time: doubling, scaled squaring, and zeroing. Each is pure, total
//! and deterministic; overflow wraps modulo the width of `usize`.

use vstd::prelude::*;
use vstd::wrapping::usize_specs;

verus! {

/// One elementary transformation over a single integer.
///
/// Every implementation is stateless: `work` depends on nothing but its
/// argument, as `work_spec` records.
pub trait Mapper {
    type Item;
    type Res;

    /// The mathematical function this mapper computes.
    spec fn work_spec(&self, item: Self::Item) -> Self::Res;

    /// Apply the transformation to one element.
    fn work(&self, item: Self::Item) -> (r: Self::Res)
        ensures
            r == self.work_spec(item),
    ;
}

/// Doubles its input, wrapping on overflow.
#[derive(PartialEq, Eq, Structural, Clone, Copy, Debug)]
#[verifier::ext_equal]
pub struct Mul2Mapper();

impl Mapper for Mul2Mapper {
    type Item = usize;

    type Res = usize;

    open spec fn work_spec(&self, item: usize) -> usize {
        usize_specs::wrapping_add(item, item)
    }

    fn work(&self, item: usize) -> (r: usize)
        ensures
            r == self.work_spec(item),
    {
        item.wrapping_add(item)
    }
}

/// Maps every input to zero.
#[derive(PartialEq, Eq, Structural, Clone, Copy, Debug)]
#[verifier::ext_equal]
pub struct RetZeroMapper();

impl Mapper for RetZeroMapper {
    type Item = usize;

    type Res = usize;

    open spec fn work_spec(&self, item: usize) -> usize {
        0
    }

    fn work(&self, item: usize) -> (r: usize)
        ensures
            r == self.work_spec(item),
    {
        0
    }
}

/// Squares its input (wrapping on overflow), then divides by 100,
/// truncating toward zero.
#[derive(PartialEq, Eq, Structural, Clone, Copy, Debug)]
#[verifier::ext_equal]
pub struct Pow2Mapper();

impl Mapper for Pow2Mapper {
    type Item = usize;

    type Res = usize;

    open spec fn work_spec(&self, item: usize) -> usize {
        (usize_specs::wrapping_mul(item, item) / 100) as usize
    }

    fn work(&self, item: usize) -> (r: usize)
        ensures
            r == self.work_spec(item),
            item * item <= usize::MAX ==> r == item * item / 100,
    {
        proof {
            if item * item <= usize::MAX {
                vstd::arithmetic::div_mod::lemma_small_mod(
                    (item * item) as nat,
                    (usize::MAX as nat + 1),
                );
            }
        }
        item.wrapping_mul(item) / 100
    }
}

} // verus!
