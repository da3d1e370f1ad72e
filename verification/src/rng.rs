use vstd::prelude::*;

use rand::distributions::{Distribution, WeightedIndex};
use rand::rngs::StdRng;
use rand::seq::SliceRandom;
use rand::{Rng, RngCore};

use crate::good::Good;

verus! {

/// rand's standard random number generator, carried through the game state.
#[verifier::external_type_specification]
#[verifier::external_body]
pub struct ExStdRng(StdRng);

/// rand's `RngCore::next_u32`: any number; nothing is promised of it.
#[verifier::external_body]
pub(crate) fn next_u32(rng: &mut StdRng) -> u32 {
    rng.next_u32()
}

/// rand's `Rng::gen_range` on `low..high`, which panics on an empty range:
/// a number at least `low` and below `high`.
#[verifier::external_body]
pub(crate) fn gen_range_u32(rng: &mut StdRng, low: u32, high: u32) -> (r: u32)
    requires
        low < high,
    ensures
        low <= r < high,
{
    rng.gen_range(low..high)
}

/// rand's `Rng::gen_range` on `low..=high`: a number from `low` to `high`.
#[verifier::external_body]
pub(crate) fn gen_range_inclusive_u8(rng: &mut StdRng, low: u8, high: u8) -> (r: u8)
    requires
        low <= high,
    ensures
        low <= r <= high,
{
    rng.gen_range(low..=high)
}

/// rand's `Rng::gen_range` on `0..len`, which panics on an empty range: an index below `len`.
#[verifier::external_body]
pub(crate) fn gen_index(rng: &mut StdRng, len: usize) -> (r: usize)
    requires
        len > 0,
    ensures
        r < len,
{
    rng.gen_range(0..len)
}

/// The sum of a sequence of weights.
pub open spec fn weight_sum(w: Seq<u8>) -> int
    decreases w.len(),
{
    if w.len() == 0 {
        0
    } else {
        weight_sum(w.drop_last()) + w.last()
    }
}

/// The sum of a sequence of weights.
pub open spec fn weight_sum_usize(w: Seq<usize>) -> int
    decreases w.len(),
{
    if w.len() == 0 {
        0
    } else {
        weight_sum_usize(w.drop_last()) + w.last()
    }
}

/// Samples rand's `WeightedIndex` built from `weights`: an index whose weight
/// is not zero. `WeightedIndex::new` fails on an empty list or a zero total
/// (the caller would panic), and sums the weights in their own type, which
/// panics on overflow.
#[verifier::external_body]
pub(crate) fn weighted_index_u8(rng: &mut StdRng, weights: &[u8]) -> (r: usize)
    requires
        weights@.len() > 0,
        0 < weight_sum(weights@) <= u8::MAX,
    ensures
        r < weights@.len(),
        weights@[r as int] > 0,
{
    WeightedIndex::new(weights).unwrap().sample(rng)
}

/// Samples rand's `WeightedIndex` built from `weights`: an index whose weight is not zero.
#[verifier::external_body]
pub(crate) fn weighted_index_usize(rng: &mut StdRng, weights: &[usize]) -> (r: usize)
    requires
        weights@.len() > 0,
        0 < weight_sum_usize(weights@) <= usize::MAX,
    ensures
        r < weights@.len(),
        weights@[r as int] > 0,
{
    WeightedIndex::new(weights).unwrap().sample(rng)
}

/// rand's `SliceRandom::shuffle`: the same goods in some order.
#[verifier::external_body]
pub(crate) fn shuffle_goods(rng: &mut StdRng, goods: &mut Vec<Good>)
    ensures
        final(goods)@.to_multiset() == old(goods)@.to_multiset(),
        final(goods)@.len() == old(goods)@.len(),
{
    goods.shuffle(rng);
}

} // verus!
