//! Trusted window onto the `rand` crate: a seedable generator and a
//! bounded uniform draw. Nothing is assumed of the values beyond their
//! range; every consumer is verified for all values the range admits.

use vstd::prelude::*;

verus! {

#[verifier::external_type_specification]
#[verifier::external_body]
pub struct ExStdRng(rand::rngs::StdRng);

/// Relies on rand::SeedableRng::seed_from_u64: builds a generator whose
/// draw sequence is determined by the seed.
#[verifier::external_body]
pub fn rng_from_seed(seed: u64) -> rand::rngs::StdRng {
    <rand::rngs::StdRng as rand::SeedableRng>::seed_from_u64(seed)
}

/// Relies on rand::Rng::gen_range over a `u64` half-open range: returns a
/// uniform draw in `[lo, hi)` and panics on an empty range, which the
/// precondition rules out.
#[verifier::external_body]
pub fn rng_range(rng: &mut rand::rngs::StdRng, lo: u64, hi: u64) -> (r: u64)
    requires
        lo < hi,
    ensures
        lo <= r < hi,
{
    rand::Rng::gen_range(rng, lo..hi)
}

} // verus!
