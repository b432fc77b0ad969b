//! The seeded random source. The library draws only raw 64-bit values from
//! it; everything done with them afterwards is verified integer logic.

use vstd::prelude::*;

verus! {

/// `rand`'s standard seeded generator, carried opaquely.
#[verifier::external_type_specification]
#[verifier::external_body]
pub struct ExStdRng(rand::rngs::StdRng);

/// Relies on rand's `SeedableRng::seed_from_u64` for `StdRng`: constructs a
/// generator from the seed. Nothing is assumed of the values it will yield.
#[verifier::external_body]
pub fn create_rng(seed: u64) -> rand::rngs::StdRng {
    <rand::rngs::StdRng as rand::SeedableRng>::seed_from_u64(seed)
}

/// Relies on rand's `RngCore::next_u64` for `StdRng`: yields some 64-bit
/// value. Nothing is assumed of its distribution.
#[verifier::external_body]
fn next_random(rng: &mut rand::rngs::StdRng) -> u64 {
    rand::RngCore::next_u64(rng)
}

/// Two raw draws glued into a 128-bit value.
fn draw_u128(rng: &mut rand::rngs::StdRng) -> u128 {
    let hi = next_random(rng);
    let lo = next_random(rng);
    ((hi as u128) << 64) | (lo as u128)
}

/// A draw reduced into `[0, n)`. Patterns from the tail segment that does
/// not divide evenly into `n` are rejected and redrawn a bounded number of
/// times, so the residual bias of the final reduction is negligible for the
/// weight totals in use.
pub fn draw_range(rng: &mut rand::rngs::StdRng, n: u128) -> (r: u128)
    requires
        n > 0,
    ensures
        r < n,
{
    let m: u128 = ((u128::MAX % n) + 1) % n;
    let mut x: u128 = draw_u128(rng);
    let mut tries: usize = 0;
    while tries < 16 && m != 0 && x > u128::MAX - m
        invariant
            tries <= 16,
        decreases 16 - tries,
    {
        x = draw_u128(rng);
        tries = tries + 1;
    }
    x % n
}

} // verus!
