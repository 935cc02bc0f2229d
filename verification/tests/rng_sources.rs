//! The pseudo-random sources honor their ranges.

use in_one_weekend::math::fixed::ONE;
use in_one_weekend::rng::small::{gen_small, get_small, small_seeded};
use in_one_weekend::rng::wyrand::{gen_range_wyrand, gen_wyrand, get_wyrand, wyrand_seeded};

#[test]
fn wyrand_unit_samples_stay_in_range() {
    let mut rng = wyrand_seeded(123);
    let mut seen_nonzero = false;
    for _ in 0..1000 {
        let u = gen_wyrand(&mut rng);
        assert!((0..ONE).contains(&u));
        if u != 0 {
            seen_nonzero = true;
        }
    }
    assert!(seen_nonzero, "a thousand samples cannot all be zero");
    let mut entropy_rng = get_wyrand();
    let u = gen_wyrand(&mut entropy_rng);
    assert!((0..ONE).contains(&u));
}

#[test]
fn wyrand_ranged_samples_stay_in_range() {
    let mut rng = wyrand_seeded(456);
    for _ in 0..1000 {
        let v = gen_range_wyrand(&mut rng, -3 * ONE, 5 * ONE);
        assert!((-3 * ONE..5 * ONE).contains(&v));
    }
    assert_eq!(gen_range_wyrand(&mut rng, 7, 7), 7, "an empty range collapses");
}

#[test]
fn small_rng_unit_samples_stay_in_range() {
    let mut rng = small_seeded(789);
    for _ in 0..1000 {
        let u = gen_small(&mut rng);
        assert!((0..ONE).contains(&u));
    }
    let mut entropy_rng = get_small();
    let u = gen_small(&mut entropy_rng);
    assert!((0..ONE).contains(&u));
}
