//! The process-lifetime random number generator behind the random
//! animation effect, carried by the render manager and seeded once at
//! startup.

use vstd::prelude::*;

use rand::rngs::SmallRng;
use rand::Rng;
use rand::SeedableRng;

verus! {

#[verifier::external_type_specification]
#[verifier::external_body]
pub struct ExSmallRng(SmallRng);

/// Relies on rand's `SmallRng::seed_from_u64`: builds the small
/// non-cryptographic generator from a seed.
#[verifier::external_body]
pub fn rng_from_seed(seed: u64) -> (rng: SmallRng) {
    SmallRng::seed_from_u64(seed)
}

/// Relies on rand's `Rng::gen_range` over the half-open range `0..n`:
/// the drawn value is always below `n`. Nothing more is assumed of it.
#[verifier::external_body]
pub fn rng_below(rng: &mut SmallRng, n: usize) -> (r: usize)
    requires
        n > 0,
    ensures
        r < n,
{
    rng.gen_range(0..n)
}

} // verus!
