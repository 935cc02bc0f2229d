//! Spheres, intersected by the quadratic formula.

use vstd::prelude::*;

verus! {

use crate::math::fixed::{ONE, VB, iabs, tdiv, clip, isqrt_s, lemma_isqrt_s, lemma_mul_bound,
    tdiv_i128, clip_i128, isqrt_u128};
use crate::math::space::{Vec3, vclip, dot3};
use crate::math::ray::{Ray, at_s};
use crate::math::hit::{HitResult, SpecHit, osh};
use crate::material::{Material, mat_wf};

pub struct Sphere {
    pub center: Vec3,
    pub radius: i64,
    pub material: Material,
}

/// A point is inside the sphere exactly when its squared distance from the
/// center is below the squared radius.
pub open spec fn sphere_inside_s(s: Sphere, p: Vec3) -> bool {
    let dx = p.x - s.center.x;
    let dy = p.y - s.center.y;
    let dz = p.z - s.center.z;
    dx * dx + dy * dy + dz * dz < s.radius * s.radius
}

/// The outward normal at the point reached at parameter `t`: the offset
/// from the center, divided by the radius (unit length up to fixed-point
/// rounding for points on the surface).
pub open spec fn sphere_normal_s(s: Sphere, ray: Ray, t: int) -> Vec3 {
    let p = at_s(ray, t);
    vclip(
        tdiv((p.x - s.center.x) * (ONE as int), s.radius as int),
        tdiv((p.y - s.center.y) * (ONE as int), s.radius as int),
        tdiv((p.z - s.center.z) * (ONE as int), s.radius as int),
    )
}

/// Quadratic-root sphere intersection.  The early rejection (origin outside
/// and moving away) is an optimization the arithmetic below would reach on
/// its own; the smaller non-negative root is preferred, then the larger,
/// and a root is accepted only in the ray's own domain `[0, 1)`.
pub open spec fn sphere_trace_s(s: Sphere, ray: Ray) -> Option<SpecHit> {
    let dx = ray.pos.x - s.center.x;
    let dy = ray.pos.y - s.center.y;
    let dz = ray.pos.z - s.center.z;
    let diff_sq = dx * dx + dy * dy + dz * dz;
    let rr = (s.radius as int) * (s.radius as int);
    let hb = dx * ray.dir.x + dy * ray.dir.y + dz * ray.dir.z;
    let a = dot3(ray.dir, ray.dir);
    if diff_sq > rr && hb >= 0 {
        None
    } else if a == 0 {
        None
    } else {
        let c = diff_sq - rr;
        let disc = hb * hb - a * c;
        if disc < 0 {
            None
        } else {
            let root = isqrt_s(disc);
            let t1 = tdiv((-hb - root) * (ONE as int), a);
            let t2 = tdiv((-hb + root) * (ONE as int), a);
            let t = if t1 >= 0 {
                t1
            } else {
                t2
            };
            if t < 0 || t >= ONE {
                None
            } else {
                Some(
                    SpecHit {
                        ray,
                        t: t as i64,
                        normal: sphere_normal_s(s, ray, t),
                        material: s.material,
                    },
                )
            }
        }
    }
}

impl Sphere {
    pub open spec fn wf_s(self) -> bool {
        self.center.wf() && 0 < self.radius <= VB && mat_wf(self.material)
    }

    pub fn ray_trace<'a>(&'a self, ray: &Ray) -> (r: Option<HitResult<'a>>)
        requires
            self.wf_s(),
            ray.wf(),
        ensures
            osh(r) == sphere_trace_s(*self, *ray),
            match r {
                Some(h) => h.wf() && h.ray == *ray,
                None => true,
            },
    {
        proof {
            lemma_mul_bound(
                ray.pos.x - self.center.x,
                ray.pos.x - self.center.x,
                2 * VB as int,
                2 * VB as int,
            );
            lemma_mul_bound(
                ray.pos.y - self.center.y,
                ray.pos.y - self.center.y,
                2 * VB as int,
                2 * VB as int,
            );
            lemma_mul_bound(
                ray.pos.z - self.center.z,
                ray.pos.z - self.center.z,
                2 * VB as int,
                2 * VB as int,
            );
            lemma_mul_bound(self.radius as int, self.radius as int, VB as int, VB as int);
            lemma_mul_bound(ray.pos.x - self.center.x, ray.dir.x as int, 2 * VB as int, VB as int);
            lemma_mul_bound(ray.pos.y - self.center.y, ray.dir.y as int, 2 * VB as int, VB as int);
            lemma_mul_bound(ray.pos.z - self.center.z, ray.dir.z as int, 2 * VB as int, VB as int);
        }
        let dx: i128 = ray.pos.x as i128 - self.center.x as i128;
        let dy: i128 = ray.pos.y as i128 - self.center.y as i128;
        let dz: i128 = ray.pos.z as i128 - self.center.z as i128;
        let diff_sq: i128 = dx * dx + dy * dy + dz * dz;
        let rr: i128 = self.radius as i128 * self.radius as i128;
        let hb: i128 = dx * ray.dir.x as i128 + dy * ray.dir.y as i128 + dz * ray.dir.z as i128;
        if diff_sq > rr && hb >= 0 {
            return None;
        }
        let a = ray.length_squared();
        if a == 0 {
            return None;
        }
        let c: i128 = diff_sq - rr;
        proof {
            lemma_mul_bound(hb as int, hb as int, 0x6000_0000_0000_0000, 0x6000_0000_0000_0000);
            lemma_mul_bound(a as int, c as int, 0x3000_0000_0000_0000, 0xD000_0000_0000_0000);
        }
        let disc: i128 = hb * hb - a as i128 * c;
        if disc < 0 {
            return None;
        }
        let root: i128 = isqrt_u128(disc as u128) as i128;
        proof {
            lemma_isqrt_s(disc as int);
            assert(root < 0x1_0000_0000_0000_0000);
        }
        let t1: i128 = tdiv_i128((-hb - root) * 65536, a as i128);
        let t2: i128 = tdiv_i128((-hb + root) * 65536, a as i128);
        let t: i128 = if t1 >= 0 {
            t1
        } else {
            t2
        };
        if t < 0 || t >= ONE as i128 {
            return None;
        }
        let ti: i64 = t as i64;
        let p = ray.at(ti);
        proof {
            lemma_mul_bound(p.x - self.center.x, ONE as int, 2 * VB as int, ONE as int);
            lemma_mul_bound(p.y - self.center.y, ONE as int, 2 * VB as int, ONE as int);
            lemma_mul_bound(p.z - self.center.z, ONE as int, 2 * VB as int, ONE as int);
        }
        let normal = Vec3 {
            x: clip_i128(
                tdiv_i128((p.x as i128 - self.center.x as i128) * 65536, self.radius as i128),
                VB,
            ),
            y: clip_i128(
                tdiv_i128((p.y as i128 - self.center.y as i128) * 65536, self.radius as i128),
                VB,
            ),
            z: clip_i128(
                tdiv_i128((p.z as i128 - self.center.z as i128) * 65536, self.radius as i128),
                VB,
            ),
        };
        Some(HitResult { ray: *ray, t: ti, normal, material: &self.material })
    }

    pub fn is_inside(&self, point: Vec3) -> (r: bool)
        requires
            self.wf_s(),
            point.wf(),
        ensures
            r == sphere_inside_s(*self, point),
    {
        proof {
            lemma_mul_bound(
                point.x - self.center.x,
                point.x - self.center.x,
                2 * VB as int,
                2 * VB as int,
            );
            lemma_mul_bound(
                point.y - self.center.y,
                point.y - self.center.y,
                2 * VB as int,
                2 * VB as int,
            );
            lemma_mul_bound(
                point.z - self.center.z,
                point.z - self.center.z,
                2 * VB as int,
                2 * VB as int,
            );
            lemma_mul_bound(self.radius as int, self.radius as int, VB as int, VB as int);
        }
        let dx: i128 = point.x as i128 - self.center.x as i128;
        let dy: i128 = point.y as i128 - self.center.y as i128;
        let dz: i128 = point.z as i128 - self.center.z as i128;
        dx * dx + dy * dy + dz * dz < self.radius as i128 * self.radius as i128
    }
}

} // verus!
