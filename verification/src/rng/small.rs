//! The small fast generator of the `rand` crate, wrapped for verified use.

use vstd::prelude::*;
use rand::SeedableRng;
use rand::RngCore;

verus! {

use crate::math::fixed::ONE;
use rand::rngs::SmallRng;

#[verifier::external_type_specification]
#[verifier::external_body]
pub struct ExSmallRng(SmallRng);

/// Relies on rand's `SeedableRng::from_entropy` for `SmallRng`: a
/// generator seeded from system entropy.
#[verifier::external_body]
pub fn get_small() -> (r: SmallRng) {
    SmallRng::from_entropy()
}

/// Relies on rand's `SeedableRng::seed_from_u64` for `SmallRng`: a
/// generator with a seed derived from the given word.
#[verifier::external_body]
pub fn small_seeded(seed: u64) -> (r: SmallRng) {
    SmallRng::seed_from_u64(seed)
}

/// Relies on rand's `RngCore::next_u64` for `SmallRng`: one pseudo-random
/// machine word.  Nothing is promised of the value.
#[verifier::external_body]
fn small_next(rng: &mut SmallRng) -> (r: u64) {
    rng.next_u64()
}

/// A pseudo-random fixed-point value in `[0, 1)`.
pub fn gen_small(rng: &mut SmallRng) -> (r: i64)
    ensures
        0 <= r < ONE,
{
    let w = small_next(rng);
    (w % 65536) as i64
}

/// A pseudo-random fixed-point value in `[0, 1)` from a freshly
/// entropy-seeded generator.
pub fn gen_small_once() -> (r: i64)
    ensures
        0 <= r < ONE,
{
    let mut rng = get_small();
    gen_small(&mut rng)
}

} // verus!
