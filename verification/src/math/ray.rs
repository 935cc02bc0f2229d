//! Rays whose direction encodes the maximum travel distance.
//!
//! A ray is valid for parameter `t` in `[0, ONE)`; `t` is the fixed-point
//! fraction of the direction vector traveled, not an absolute distance.

use vstd::prelude::*;

verus! {

use crate::math::fixed::{ONE, EPS, VB, iabs, tdiv, clip, isqrt_s, lemma_mul_bound,
    lemma_i64_product, tdiv_i128, clip_i128};
use crate::math::space::{Vec3, add_s, sub_s, neg_s, scale_s, dot3, norm_s};
use nanorand::rand::WyRand;

#[derive(Clone, Copy, Debug, PartialEq, Eq, Structural)]
pub struct Ray {
    pub pos: Vec3,
    pub dir: Vec3,
}

/// The point reached after traveling the fraction `t` of the direction.
pub open spec fn at_s(ray: Ray, t: int) -> Vec3 {
    add_s(ray.pos, scale_s(ray.dir, t))
}

/// The sub-ray that starts at parameter `t` and keeps the remaining travel
/// distance: origin moves to `at(t)`, direction scales by `1 - t`.
pub open spec fn from_s(ray: Ray, t: int) -> Ray {
    Ray { pos: at_s(ray, t), dir: scale_s(ray.dir, (ONE as int) - t) }
}

/// The parameter at which the ray passes closest to `point`, as the
/// projection of `point - pos` onto the direction; 0 for a zero direction.
pub open spec fn t_for_s(ray: Ray, point: Vec3) -> int {
    let msq = dot3(ray.dir, ray.dir);
    if msq == 0 {
        0
    } else {
        let num = (point.x - ray.pos.x) * ray.dir.x + (point.y - ray.pos.y) * ray.dir.y + (point.z
            - ray.pos.z) * ray.dir.z;
        clip(tdiv(num * (ONE as int), msq), VB as int)
    }
}

/// The sub-ray from `t`, with the component of its direction along the
/// (outward) `normal` removed twice if it points into the surface, then
/// advanced one epsilon to leave the reflection point behind.
pub open spec fn reflect_s(ray: Ray, t: int, normal: Vec3) -> Ray {
    let sub = from_s(ray, t);
    let d = dot3(sub.dir, normal);
    let f = if 2 * d < 0 {
        2 * d
    } else {
        0
    };
    let delta = Vec3 {
        x: clip(tdiv(normal.x * f, (ONE as int) * (ONE as int)), VB as int) as i64,
        y: clip(tdiv(normal.y * f, (ONE as int) * (ONE as int)), VB as int) as i64,
        z: clip(tdiv(normal.z * f, (ONE as int) * (ONE as int)), VB as int) as i64,
    };
    from_s(Ray { pos: sub.pos, dir: sub_s(sub.dir, delta) }, EPS as int)
}

impl Ray {
    pub open spec fn wf(self) -> bool {
        self.pos.wf() && self.dir.wf()
    }

    pub fn new(origin: Vec3, direction: Vec3) -> (r: Ray)
        ensures
            r == (Ray { pos: origin, dir: direction }),
    {
        Ray { pos: origin, dir: direction }
    }

    pub fn length_squared(&self) -> (r: i64)
        requires
            self.wf(),
        ensures
            r == dot3(self.dir, self.dir),
            0 <= r <= 0x3000_0000_0000_0000,
    {
        self.dir.mag_sq()
    }

    pub fn length(&self) -> (r: i64)
        requires
            self.wf(),
        ensures
            r == isqrt_s(dot3(self.dir, self.dir)),
            r >= 0,
            r * r <= dot3(self.dir, self.dir) < (r + 1) * (r + 1),
    {
        self.dir.mag()
    }

    pub fn at(&self, t: i64) -> (r: Vec3)
        ensures
            r == at_s(*self, t as int),
            r.wf(),
    {
        self.pos.add(self.dir.scale(t))
    }

    pub fn from(&self, t: i64) -> (r: Ray)
        requires
            -0x1_0000_0000 <= t <= 0x1_0000_0000,
        ensures
            r == from_s(*self, t as int),
            r.pos.wf() && r.dir.wf(),
    {
        Ray { pos: self.at(t), dir: self.dir.scale(ONE - t) }
    }

    pub fn t_for(&self, point: Vec3) -> (r: i64)
        requires
            self.wf(),
            point.wf(),
        ensures
            r == t_for_s(*self, point),
            iabs(r as int) <= VB,
    {
        let msq = self.length_squared();
        if msq == 0 {
            0
        } else {
            proof {
                lemma_mul_bound(
                    point.x - self.pos.x,
                    self.dir.x as int,
                    2 * VB as int,
                    VB as int,
                );
                lemma_mul_bound(
                    point.y - self.pos.y,
                    self.dir.y as int,
                    2 * VB as int,
                    VB as int,
                );
                lemma_mul_bound(
                    point.z - self.pos.z,
                    self.dir.z as int,
                    2 * VB as int,
                    VB as int,
                );
            }
            let px: i128 = (point.x as i128 - self.pos.x as i128) * self.dir.x as i128;
            let py: i128 = (point.y as i128 - self.pos.y as i128) * self.dir.y as i128;
            let pz: i128 = (point.z as i128 - self.pos.z as i128) * self.dir.z as i128;
            proof {
                assert(iabs(px as int) <= 0x2000_0000_0000_0000);
                assert(iabs(py as int) <= 0x2000_0000_0000_0000);
                assert(iabs(pz as int) <= 0x2000_0000_0000_0000);
            }
            let num: i128 = px + py + pz;
            clip_i128(tdiv_i128(num * 65536, msq as i128), VB)
        }
    }

    pub fn reflect(&self, t: i64, normal: Vec3) -> (r: Ray)
        requires
            self.wf(),
            normal.wf(),
            0 <= t <= ONE,
        ensures
            r == reflect_s(*self, t as int, normal),
            r.pos.wf() && r.dir.wf(),
    {
        let sub = self.from(t);
        let d = sub.dir.dot(normal);
        let f: i128 = if d < 0 {
            2 * d as i128
        } else {
            0
        };
        proof {
            lemma_mul_bound(normal.x as int, f as int, VB as int, 0x6000_0000_0000_0000);
            lemma_mul_bound(normal.y as int, f as int, VB as int, 0x6000_0000_0000_0000);
            lemma_mul_bound(normal.z as int, f as int, VB as int, 0x6000_0000_0000_0000);
        }
        let delta = Vec3 {
            x: clip_i128(tdiv_i128(normal.x as i128 * f, ONE as i128 * ONE as i128), VB),
            y: clip_i128(tdiv_i128(normal.y as i128 * f, ONE as i128 * ONE as i128), VB),
            z: clip_i128(tdiv_i128(normal.z as i128 * f, ONE as i128 * ONE as i128), VB),
        };
        let reflected = Ray { pos: sub.pos, dir: sub.dir.sub(delta) };
        reflected.from(EPS)
    }

    /// The same origin with the direction perturbed by a random vector
    /// scaled by `amount`, then normalized.
    pub fn wobbled(&self, amount: i64, rng: &mut WyRand) -> (r: Ray)
        ensures
            r.pos == self.pos,
            r.dir.wf(),
    {
        let rv = crate::material::lambertian::Lambertian::random_vec(rng);
        Ray { pos: self.pos, dir: self.dir.add(rv.scale(amount)).normalized() }
    }
}

impl Default for Ray {
    /// The degenerate ray at the origin with no travel distance.
    fn default() -> (r: Ray)
        ensures
            r == (Ray { pos: Vec3 { x: 0, y: 0, z: 0 }, dir: Vec3 { x: 0, y: 0, z: 0 } }),
    {
        Ray { pos: Vec3 { x: 0, y: 0, z: 0 }, dir: Vec3 { x: 0, y: 0, z: 0 } }
    }
}

} // verus!
