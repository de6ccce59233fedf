//! The randomness the scene builder draws on: a seeded generator from the
//! `rand` crate, behind contracts that state only what holds of every sample.

use vstd::prelude::*;

verus! {

#[verifier::external_type_specification]
#[verifier::external_body]
pub struct ExStdRng(rand::rngs::StdRng);

/// Relies on rand's `SeedableRng::seed_from_u64` for `StdRng`: builds a
/// generator from the given seed. Nothing is assumed of the values it will
/// yield.
#[verifier::external_body]
pub(crate) fn rng_from_seed(seed: u64) -> rand::rngs::StdRng {
    rand::SeedableRng::seed_from_u64(seed)
}

/// Relies on rand's `Rng::gen_range` on a half-open `u32` range: the sample
/// lies in `[lo, hi)`. The call panics on an empty range, which the
/// precondition rules out.
#[verifier::external_body]
pub(crate) fn gen_range_u32(rng: &mut rand::rngs::StdRng, lo: u32, hi: u32) -> (r: u32)
    requires
        lo < hi,
    ensures
        lo <= r < hi,
{
    rand::Rng::gen_range(rng, lo..hi)
}

} // verus!
