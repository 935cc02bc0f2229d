//! The progressive accumulator: exactness and convergence.

use in_one_weekend::math::fixed::ONE;
use in_one_weekend::math::space::Vec3;
use in_one_weekend::math::color::Color;
use in_one_weekend::progressive::ProgressiveBuffer;
use in_one_weekend::rng::wyrand::{gen_range_wyrand, wyrand_seeded};

fn constant_frame(n: usize, v: (Color, Color, Vec3)) -> Vec<(Color, Color, Vec3)> {
    let mut frame = Vec::new();
    for _ in 0..n {
        frame.push(v);
    }
    frame
}

#[test]
fn merging_the_same_frame_repeatedly_does_not_drift() {
    let v = (
        Color(12345, -678, 3 * ONE + 1),
        Color(ONE, ONE / 3, 77),
        Vec3 { x: ONE, y: -ONE / 2, z: 999 },
    );
    let mut buffer = ProgressiveBuffer::new(4, 3);
    assert_eq!(buffer.spp(), 0);
    let frame = constant_frame(12, v);
    for k in 1..=7u64 {
        buffer.update(&frame);
        assert_eq!(buffer.spp(), k);
        let mean = buffer.averaged();
        assert_eq!(mean.len(), 12);
        for pixel in &mean {
            assert_eq!(pixel.0, v.0, "color mean must be exact after {k} merges");
            assert_eq!(pixel.1, v.1, "albedo mean must be exact after {k} merges");
            assert_eq!(pixel.2, v.2, "normal mean must be exact after {k} merges");
        }
    }
}

#[test]
fn alternating_jitter_cancels_exactly() {
    let v = Color(1000, 2000, 3000);
    let delta: i64 = 250;
    let up = constant_frame(1, (Color(v.0 + delta, v.1 + delta, v.2 + delta), Color(0, 0, 0), Vec3 { x: 0, y: 0, z: 0 }));
    let down = constant_frame(1, (Color(v.0 - delta, v.1 - delta, v.2 - delta), Color(0, 0, 0), Vec3 { x: 0, y: 0, z: 0 }));
    let mut buffer = ProgressiveBuffer::new(1, 1);
    for _ in 0..50 {
        buffer.update(&up);
        buffer.update(&down);
    }
    assert_eq!(buffer.spp(), 100);
    let mean = buffer.averaged();
    assert_eq!(mean[0].0, v);
}

#[test]
fn random_jitter_converges_toward_the_true_value() {
    // frames sampled with independent uniform jitter around a true value:
    // the running mean approaches it as samples accumulate.
    let v = Color(5 * ONE, 3 * ONE, ONE);
    let delta: i64 = ONE;
    let mut rng = wyrand_seeded(42);
    let mut buffer = ProgressiveBuffer::new(1, 1);
    let mut last_err: i64 = 0;
    for n in 1..=4000u64 {
        let jr = gen_range_wyrand(&mut rng, -delta, delta);
        let jg = gen_range_wyrand(&mut rng, -delta, delta);
        let jb = gen_range_wyrand(&mut rng, -delta, delta);
        let frame = constant_frame(
            1,
            (Color(v.0 + jr, v.1 + jg, v.2 + jb), Color(0, 0, 0), Vec3 { x: 0, y: 0, z: 0 }),
        );
        buffer.update(&frame);
        if n == 4000 {
            let mean = buffer.averaged();
            let m = mean[0].0;
            last_err = (m.0 - v.0).abs().max((m.1 - v.1).abs()).max((m.2 - v.2).abs());
        }
    }
    assert_eq!(buffer.spp(), 4000);
    // a jitter of one unit over 4000 samples: the standard error is about
    // delta / sqrt(3 * 4000) ~ 0.01 units; allow a generous multiple,
    // plus the jitter's own half-unit sampling bias.
    let tolerance = delta / 16 + delta / 2;
    assert!(
        last_err <= tolerance,
        "mean must converge: error {last_err} exceeds tolerance {tolerance}"
    );
}
