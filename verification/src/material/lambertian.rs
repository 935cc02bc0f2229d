//! Diffuse (Lambertian) reflection.

use vstd::prelude::*;

verus! {

use crate::material::albedo::Albedo;
use crate::material::albedo::solid::Solid;
use crate::math::color::Color;
use crate::math::space::Vec3;
use crate::math::ray::Ray;
use crate::math::hit::HitResult;
use crate::scene::TestScene;
use crate::math::fixed::{ONE, iabs};
use crate::rng::wyrand::gen_range_wyrand;
use nanorand::rand::WyRand;

/// A diffusely reflecting material around a base-color provider.
pub struct Lambertian(pub Albedo);

impl Lambertian {
    pub fn solid(color: Color) -> (r: Lambertian)
        ensures
            r == Lambertian(Albedo::Solid(Solid(color))),
    {
        Lambertian(Albedo::Solid(Solid(color)))
    }

    /// A pseudo-random vector of length at most one (and exactly one up to
    /// fixed-point rounding whenever a non-zero candidate is drawn), used
    /// to scatter rays.  Candidate points are drawn uniformly from the cube
    /// and rejected until one falls inside the unit ball; a bounded number
    /// of draws is attempted, with a fixed axis as the final fallback.
    pub fn random_vec(rng: &mut WyRand) -> (r: Vec3)
        ensures
            r.wf(),
            iabs(r.x as int) <= ONE && iabs(r.y as int) <= ONE && iabs(r.z as int) <= ONE,
    {
        let mut tries: u32 = 0;
        while tries < 32
            invariant
                true,
            decreases 32 - tries,
        {
            let x = gen_range_wyrand(rng, -ONE, ONE);
            let y = gen_range_wyrand(rng, -ONE, ONE);
            let z = gen_range_wyrand(rng, -ONE, ONE);
            let v = Vec3::new(x, y, z);
            let msq = v.mag_sq();
            if 0 < msq && msq <= ONE * ONE {
                let n = v.normalized();
                return n;
            }
            tries = tries + 1;
        }
        Vec3::new(0, 0, ONE)
    }

    /// Diffuse transport at a hit: scatter a new ray of the remaining
    /// physical length from the hit point (offset one epsilon along the
    /// outward normal, in a direction biased around it), and evaluate the
    /// scene along it with one bounce consumed.  The caller multiplies by
    /// its own albedo.  With one bounce left the scattered ray's gather is
    /// the bounce-0 case: exactly black, whatever the draws.
    pub fn color(scene: &TestScene, result: HitResult, reflections: u8, rng: &mut WyRand) -> (c:
        Color)
        requires
            scene.wf_s(),
            result.wf(),
            reflections >= 1,
        ensures
            reflections == 1 ==> c == Color(0, 0, 0),
        decreases reflections, 1nat, 0nat,
    {
        let len = result.ray.length();
        proof {
            crate::math::fixed::lemma_mul_bound(
                result.ray.dir.x as int,
                result.ray.dir.x as int,
                crate::math::fixed::VB as int,
                crate::math::fixed::VB as int,
            );
            crate::math::fixed::lemma_mul_bound(
                result.ray.dir.y as int,
                result.ray.dir.y as int,
                crate::math::fixed::VB as int,
                crate::math::fixed::VB as int,
            );
            crate::math::fixed::lemma_mul_bound(
                result.ray.dir.z as int,
                result.ray.dir.z as int,
                crate::math::fixed::VB as int,
                crate::math::fixed::VB as int,
            );
            assert(len < 0x8000_0000) by (nonlinear_arith)
                requires
                    (len as int) * (len as int) <= 0x3000_0000_0000_0000,
                    len >= 0,
            ;
            crate::math::fixed::lemma_mul_bound(
                len as int,
                ONE - result.t,
                0x8000_0000,
                ONE as int,
            );
        }
        let prod: i128 = len as i128 * (ONE - result.t) as i128;
        let remaining_length: i64 = crate::math::fixed::tdiv_i128(prod, 65536) as i64;
        proof {
            crate::math::fixed::lemma_tdiv_bound(prod as int, 65536);
        }
        let normal = result.normal_abs();
        let origin = result.pos().add(normal.scale(crate::math::fixed::EPS));
        let direction = normal.add(Lambertian::random_vec(rng)).normalized().scale(
            remaining_length,
        );
        let bounce = Ray::new(origin, direction);
        let traced = scene.ray_trace(&bounce, rng);
        HitResult::get_color(traced, scene, reflections - 1, rng)
    }

    pub fn albedo(&self, result: HitResult) -> (c: Color)
        requires
            result.normal.wf(),
        ensures
            c == self.0.albedo_s(result.normal),
    {
        self.0.albedo(result)
    }
}

} // verus!
