//! Trusted boundary to the pseudo-random generator of the `rand` crate.
//!
//! The game draws its code symbols from `rand`'s small PRNG. Verus sees the
//! generator as an opaque value; the wrappers below state only what `rand`'s
//! documentation promises of each call.

use vstd::prelude::*;
use rand::rngs::SmallRng;
use rand::Rng;
use rand::SeedableRng;

verus! {

/// Declares `rand::rngs::SmallRng` so that it can stand in signatures and
/// fields. Verus sees nothing of its inner state.
#[verifier::external_type_specification]
#[verifier::external_body]
pub struct ExSmallRng(SmallRng);

/// Relies on `SeedableRng::seed_from_u64` for `SmallRng`: constructs a
/// generator from one 64-bit seed; it never panics. Which generator comes
/// back is stated nowhere: every caller must hold for any outcome.
#[verifier::external_body]
pub(crate) fn rng_from_seed(seed: u64) -> (rng: SmallRng) {
    SmallRng::seed_from_u64(seed)
}

/// Relies on `Rng::gen_range` over the half-open range `0..4`: the sample
/// lies strictly below 4, and the range is non-empty, so the call never
/// panics. Which sample comes back is stated nowhere.
#[verifier::external_body]
pub(crate) fn gen_symbol(rng: &mut SmallRng) -> (symbol: u8)
    ensures
        symbol < 4,
{
    rng.gen_range(0..4u8)
}

} // verus!
