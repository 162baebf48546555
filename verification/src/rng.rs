//! The boundary to the `rand` crate.
//!
//! Randomness cannot be reasoned about, so each wrapper states only what
//! holds of every outcome; all logic that consumes a sample is verified
//! for every value the contract admits.

use vstd::prelude::*;

verus! {

#[verifier::external_type_specification]
#[verifier::external_body]
pub struct ExSmallRng(rand::rngs::SmallRng);

/// Relies on rand::SeedableRng::from_entropy: a small generator freshly
/// seeded from system entropy.  Nothing is assumed of its output.
#[verifier::external_body]
pub(crate) fn fresh_rng() -> rand::rngs::SmallRng {
    <rand::rngs::SmallRng as rand::SeedableRng>::from_entropy()
}

/// Relies on rand::Rng::gen_range over `lo..hi`: a sample from the
/// half-open range; it panics only when the range is empty.
#[verifier::external_body]
pub(crate) fn gen_range_i64(rng: &mut rand::rngs::SmallRng, lo: i64, hi: i64) -> (r: i64)
    requires
        lo < hi,
    ensures
        lo <= r < hi,
{
    rand::Rng::gen_range(rng, lo..hi)
}

/// Relies on rand::distributions::WeightedIndex: `new` fails only on an
/// empty list, a weight sum of zero, or an overflowing sum (excluded
/// here by the small bounds), and `sample` returns the index of an
/// entry with positive weight.
#[verifier::external_body]
pub(crate) fn sample_weighted(rng: &mut rand::rngs::SmallRng, weights: &Vec<u32>) -> (r: usize)
    requires
        0 < weights@.len() <= 1000,
        forall|i: int| 0 <= i < weights@.len() ==> #[trigger] weights@[i] <= 1000,
        exists|i: int| 0 <= i < weights@.len() && weights@[i] > 0,
    ensures
        r < weights@.len(),
        weights@[r as int] > 0,
{
    let dist = rand::distributions::WeightedIndex::new(weights.iter().cloned()).unwrap();
    rand::Rng::sample(rng, dist)
}

} // verus!
