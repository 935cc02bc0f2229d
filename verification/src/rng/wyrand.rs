//! The wyrand generator of the `nanorand` crate, wrapped for verified use.

use vstd::prelude::*;
use nanorand::RNG;

verus! {

use crate::math::fixed::{ONE, tdiv, lemma_mul_bound};
use nanorand::rand::WyRand;

#[verifier::external_type_specification]
#[verifier::external_body]
pub struct ExWyRand(WyRand);

/// Relies on nanorand's `WyRand::new`: a generator seeded from system
/// entropy.  Nothing is assumed of the seed.
#[verifier::external_body]
pub fn get_wyrand() -> (r: WyRand) {
    WyRand::new()
}

/// Relies on nanorand's `WyRand::new_seed`: a generator with the given
/// seed.  Nothing is assumed of the stream it produces.
#[verifier::external_body]
pub fn wyrand_seeded(seed: u64) -> (r: WyRand) {
    WyRand::new_seed(seed)
}

/// Relies on nanorand's `RNG::rand` for `WyRand`: eight pseudo-random
/// bytes, converted to one machine word.  Nothing is promised of the value.
#[verifier::external_body]
fn wyrand_next(rng: &mut WyRand) -> (r: u64) {
    u64::from_ne_bytes(rng.rand())
}

/// A pseudo-random fixed-point value in `[0, 1)`.
pub fn gen_wyrand(rng: &mut WyRand) -> (r: i64)
    ensures
        0 <= r < ONE,
{
    let w = wyrand_next(rng);
    (w % 65536) as i64
}

/// A pseudo-random fixed-point value in `[0, 1)` from a freshly
/// entropy-seeded generator.
pub fn gen_wyrand_once() -> (r: i64)
    ensures
        0 <= r < ONE,
{
    let mut rng = get_wyrand();
    gen_wyrand(&mut rng)
}

/// A pseudo-random fixed-point value in `[min, max)` (or exactly `min`
/// when the range is empty).
pub fn gen_range_wyrand(rng: &mut WyRand, min: i64, max: i64) -> (r: i64)
    requires
        -0x100_0000_0000 <= min <= max <= 0x100_0000_0000,
    ensures
        min <= r,
        min < max ==> r < max,
        min == max ==> r == min,
{
    let u = gen_wyrand(rng);
    let width = max - min;
    proof {
        lemma_mul_bound(u as int, width as int, ONE as int, 0x200_0000_0000);
        assert(0 <= (u * width) / (ONE as int) && (width >= 1 ==> (u * width) / (ONE as int)
            <= width - 1) && (width == 0 ==> (u * width) / (ONE as int) == 0))
            by (nonlinear_arith)
            requires
                0 <= u < ONE,
                0 <= width,
        ;
    }
    let off = ((u as u64 * width as u64) / 65536) as i64;
    proof {
        assert(u as u64 * width as u64 == u * width);
    }
    min + off
}

} // verus!
