//! Derivation of the generator seed from one raw noise sample.
//!
//! The startup sequence takes a single analog reading and mixes it into a
//! 64-bit seed as `noise^noise - noise + 1`. That formula overflows 64 bits
//! for samples of 16 and above, so it is computed here in wrapping 64-bit
//! arithmetic throughout, which keeps the seed the same on every build.

use vstd::prelude::*;
use vstd::arithmetic::power::pow;
use vstd::arithmetic::div_mod::lemma_add_mod_noop_right;
use vstd::arithmetic::div_mod::lemma_mod_bound;
use vstd::arithmetic::div_mod::lemma_mod_multiples_vanish;
use vstd::arithmetic::div_mod::lemma_mul_mod_noop_left;
use vstd::arithmetic::mul::lemma_mul_upper_bound;

verus! {

/// The modulus of wrapping 64-bit arithmetic.
pub open spec fn two_to_64() -> int {
    0x1_0000_0000_0000_0000
}

/// `base` to the power `exp`, reduced modulo 2^64: what repeated wrapping
/// 64-bit multiplication computes.
pub open spec fn pow_mod64(base: u64, exp: u32) -> u64 {
    (pow(base as int, exp as nat) % two_to_64()) as u64
}

/// The seed derived from one raw noise sample: `noise^noise - noise + 1`,
/// with the exponent truncated to 32 bits as the power operation takes it,
/// the whole in wrapping 64-bit arithmetic.
pub open spec fn seed_of(noise: u64) -> u64 {
    ((pow(noise as int, (noise as u32) as nat) - noise + 1) % two_to_64()) as u64
}

/// `base` to the power `exp` in wrapping 64-bit multiplication.
fn wrapping_pow64(base: u64, exp: u32) -> (result: u64)
    ensures
        result == pow_mod64(base, exp),
{
    let mut acc: u64 = 1;
    let mut i: u32 = 0;
    proof {
        assert(pow(base as int, 0) == 1) by {
            reveal(pow);
        }
        lemma_mod_bound(1, two_to_64());
    }
    while i < exp
        invariant
            i <= exp,
            acc == pow(base as int, i as nat) % two_to_64(),
        decreases exp - i,
    {
        proof {
            lemma_mul_upper_bound(acc as int, 0xffff_ffff_ffff_ffff, base as int, 0xffff_ffff_ffff_ffff);
        }
        let wide: u128 = (acc as u128) * (base as u128);
        proof {
            lemma_mod_bound(wide as int, two_to_64());
            lemma_mul_mod_noop_left(pow(base as int, i as nat), base as int, two_to_64());
            assert(pow(base as int, (i + 1) as nat) == base * pow(base as int, i as nat)) by {
                reveal(pow);
            }
        }
        acc = (wide % 0x1_0000_0000_0000_0000u128) as u64;
        i = i + 1;
    }
    acc
}

/// Derives the startup seed from one raw noise sample, in wrapping 64-bit
/// arithmetic.
pub fn derive_seed(noise: u64) -> (seed: u64)
    ensures
        seed == seed_of(noise),
{
    let p: u64 = wrapping_pow64(noise, noise as u32);
    let wide: u128 = p as u128 + 0x1_0000_0000_0000_0000u128 - noise as u128 + 1;
    proof {
        let pw = pow(noise as int, (noise as u32) as nat);
        lemma_mod_bound(pw, two_to_64());
        lemma_mod_bound(wide as int, two_to_64());
        lemma_mod_multiples_vanish(1, (pw % two_to_64()) - noise + 1, two_to_64());
        lemma_add_mod_noop_right(1 - noise, pw, two_to_64());
    }
    (wide % 0x1_0000_0000_0000_0000u128) as u64
}

} // verus!
