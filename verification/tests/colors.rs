//! Fixed-point color arithmetic on exact values.

use in_one_weekend::math::fixed::{HALF, ONE, QUARTER};
use in_one_weekend::math::space::Vec3;
use in_one_weekend::math::color::{Color, LUM_B, LUM_G, LUM_R};

#[test]
fn componentwise_arithmetic_is_exact() {
    let a = Color(ONE, 2 * ONE, -HALF);
    let b = Color(HALF, ONE, QUARTER);
    assert_eq!(a.add(b), Color(ONE + HALF, 3 * ONE, -QUARTER));
    assert_eq!(a.sub(b), Color(HALF, ONE, -HALF - QUARTER));
    assert_eq!(a.mul(b), Color(HALF, 2 * ONE, -HALF / 4));
    assert_eq!(a.scale(HALF), Color(HALF, ONE, -QUARTER));
    assert_eq!(a.div(Color(2 * ONE, 2 * ONE, 2 * ONE)), Color(HALF, ONE, -QUARTER));
    assert_eq!(Color::splat(7), Color(7, 7, 7));
    assert_eq!(Color::default(), Color(0, 0, 0));
}

#[test]
fn lerp_interpolates_linearly() {
    let a = Color(0, 0, 0);
    let b = Color(4 * ONE, 2 * ONE, ONE);
    assert_eq!(a.lerp(&b, 0), a);
    assert_eq!(a.lerp(&b, ONE), b);
    assert_eq!(a.lerp(&b, HALF), Color(2 * ONE, ONE, HALF));
    let mut c = a;
    c.lerp_mut(&b, QUARTER);
    assert_eq!(c, Color(ONE, HALF, QUARTER));
}

#[test]
fn powi_and_luminance_match_their_formulas() {
    let c = Color(HALF, ONE, 2 * ONE);
    assert_eq!(c.powi(0), Color(ONE, ONE, ONE));
    assert_eq!(c.powi(1), c);
    assert_eq!(c.powi(2), Color(QUARTER, ONE, 4 * ONE));
    assert_eq!(Color(ONE, ONE, ONE).luminance(), LUM_R + LUM_G + LUM_B);
    assert_eq!(Color(2 * ONE, 0, 0).luminance(), 2 * LUM_R);
    assert_eq!(Color(0, 0, 0).luminance(), 0);
}

#[test]
fn from_vec_maps_axes_into_the_color_cube() {
    // +x maps to (1, 0.5, 0.5), -x to (0, 0.5, 0.5).
    let px = Color::from_vec(&Vec3 { x: 3 * ONE, y: 0, z: 0 });
    assert_eq!(px, Color(ONE, HALF, HALF));
    let nx = Color::from_vec(&Vec3 { x: -3 * ONE, y: 0, z: 0 });
    assert_eq!(nx, Color(0, HALF, HALF));
    let py = Color::from_vec(&Vec3 { x: 0, y: 5 * ONE, z: 0 });
    assert_eq!(py, Color(HALF, ONE, HALF));
}

#[test]
fn division_by_zero_saturates_with_the_dividend_sign() {
    let c = Color(ONE, -ONE, 0);
    let d = c.div(Color(0, 0, 0));
    assert!(d.0 > 0 && d.1 < 0 && d.2 == 0);
}
