//! The calls into `rand`. What the library believes of them is stated here and
//! proved nowhere.

use rand::distributions::{Distribution, WeightedError, WeightedIndex};
use rand::rngs::ThreadRng;
use rand::seq::SliceRandom;
use rand::Rng;
use vstd::prelude::*;

verus! {

/// `rand::rngs::ThreadRng`, the generator that each thread keeps for itself.
#[verifier::external_type_specification]
#[verifier::external_body]
pub struct ExThreadRng(ThreadRng);

/// A `rand::distributions::WeightedIndex<i32>`, a distribution over the
/// positions of a list of weights. The type is bound by a trait of `rand`, so
/// it is kept behind this struct, which Verus does not look into.
#[verifier::external_body]
pub struct WeightedDraw {
    index: WeightedIndex<i32>,
}

/// `rand::distributions::WeightedError`, the reasons for which a list of
/// weights makes no distribution.
#[verifier::external_type_specification]
#[verifier::external_body]
pub struct ExWeightedError(WeightedError);

/// The weights that a `WeightedDraw` was made from, in their order.
pub uninterp spec fn weights_of(draw: WeightedDraw) -> Seq<i32>;

/// The sum of a list of weights.
pub open spec fn total_weight(weights: Seq<i32>) -> int
    decreases weights.len(),
{
    if weights.len() == 0 {
        0
    } else {
        total_weight(weights.drop_last()) + weights.last()
    }
}

/// `rand::thread_rng`: the generator of the calling thread. Nothing is claimed
/// of the generator.
#[verifier::external_body]
pub(crate) fn thread_rng() -> (rng: ThreadRng) {
    rand::thread_rng()
}

/// `WeightedIndex::new` on a slice of `i32` weights, none of them negative and
/// their sum within `i32`. It makes a distribution unless the weights sum to
/// zero (as those of an empty list do), and the distribution is over the
/// weights handed in.
#[verifier::external_body]
pub(crate) fn weighted_index(weights: &[i32]) -> (made: Result<WeightedDraw, WeightedError>)
    requires
        forall|i: int| 0 <= i < weights@.len() ==> weights@[i] >= 0,
        total_weight(weights@) <= i32::MAX,
    ensures
        made is Ok <==> total_weight(weights@) > 0,
        made matches Ok(draw) ==> weights_of(draw) == weights@,
{
    match WeightedIndex::new(weights) {
        Ok(index) => Ok(WeightedDraw { index }),
        Err(error) => Err(error),
    }
}

/// `Distribution::sample` of a `WeightedIndex<i32>`: the position of one of
/// the weights, and never of a weight that is zero.
#[verifier::external_body]
pub(crate) fn sample_index(draw: &WeightedDraw, rng: &mut ThreadRng) -> (drawn: usize)
    ensures
        drawn < weights_of(*draw).len(),
        weights_of(*draw)[drawn as int] > 0,
{
    draw.index.sample(rng)
}

/// `SliceRandom::choose` on a slice of `usize`: one of the items, or nothing
/// where the slice is empty.
#[verifier::external_body]
pub(crate) fn choose_item(items: &[usize], rng: &mut ThreadRng) -> (chosen: Option<usize>)
    ensures
        chosen is None <==> items@.len() == 0,
        chosen matches Some(item) ==> items@.contains(item),
{
    items.choose(rng).copied()
}

/// `Rng::gen_range` on `0..bound`, which panics where the range is empty: a
/// number below `bound`.
#[verifier::external_body]
pub(crate) fn gen_below(rng: &mut ThreadRng, bound: usize) -> (drawn: usize)
    requires
        bound > 0,
    ensures
        drawn < bound,
{
    rng.gen_range(0..bound)
}

} // verus!
