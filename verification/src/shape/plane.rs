//! Infinite planes and finite rectangular patches.

use vstd::prelude::*;

verus! {

use crate::math::fixed::{ONE, VB, iabs, tdiv, clip, isqrt_s, lemma_mul_bound, tdiv_i128,
    clip_i128};
use crate::math::space::{Vec3, Pos, dot3, norm_s, rot_s, inv_transform_s};
use crate::math::ray::{Ray, at_s};
use crate::math::hit::{HitResult, SpecHit, osh};
use crate::material::{Material, mat_wf};

pub struct Plane {
    pub center: Vec3,
    pub normal: Vec3,
    pub material: Material,
}

/// Solve the plane equation for the world-space distance along the ray:
/// the normal-projected offset of the plane's center from the ray origin,
/// over the normal-projected unit direction.  `None` for a parallel (or
/// zero) direction, a negative distance, or a distance at or beyond the
/// ray's travel length; otherwise the distance as a fraction of the
/// ray's length.
pub open spec fn plane_intersect_s(center: Vec3, normal: Vec3, ray: Ray) -> Option<int> {
    let denom = dot3(normal, norm_s(ray.dir));
    if denom == 0 {
        None
    } else {
        let num = (center.x - ray.pos.x) * normal.x + (center.y - ray.pos.y) * normal.y + (center.z
            - ray.pos.z) * normal.z;
        let dist = tdiv(num * (ONE as int), denom);
        let msq = dot3(ray.dir, ray.dir);
        if dist < 0 || dist * dist >= msq {
            None
        } else {
            let t = tdiv(dist * (ONE as int), isqrt_s(msq));
            if t >= ONE {
                None
            } else {
                Some(t)
            }
        }
    }
}

pub open spec fn plane_trace_s(p: Plane, ray: Ray) -> Option<SpecHit> {
    match plane_intersect_s(p.center, p.normal, ray) {
        Some(t) => Some(SpecHit { ray, t: t as i64, normal: p.normal, material: p.material }),
        None => None,
    }
}

/// A point is inside the half-space on the normal's negative side.
pub open spec fn plane_inside_s(p: Plane, point: Vec3) -> bool {
    (point.x - p.center.x) * p.normal.x + (point.y - p.center.y) * p.normal.y + (point.z
        - p.center.z) * p.normal.z < 0
}

/// The world-space distance `dist` at which `ray` crosses the plane
/// through `center` with the given `normal`, as `Some(t)` in the ray's
/// own parametrization.
pub fn plane_intersect(center: Vec3, normal: Vec3, ray: &Ray) -> (r: Option<i64>)
    requires
        center.wf(),
        normal.wf(),
        ray.wf(),
    ensures
        match r {
            Some(t) => plane_intersect_s(center, normal, *ray) == Some(t as int) && 0 <= t < ONE,
            None => plane_intersect_s(center, normal, *ray) is None,
        },
{
    let nd = ray.dir.normalized();
    let denom = normal.dot(nd);
    if denom == 0 {
        return None;
    }
    proof {
        lemma_mul_bound(center.x - ray.pos.x, normal.x as int, 2 * VB as int, VB as int);
        lemma_mul_bound(center.y - ray.pos.y, normal.y as int, 2 * VB as int, VB as int);
        lemma_mul_bound(center.z - ray.pos.z, normal.z as int, 2 * VB as int, VB as int);
    }
    let num: i128 = (center.x as i128 - ray.pos.x as i128) * normal.x as i128 + (center.y as i128
        - ray.pos.y as i128) * normal.y as i128 + (center.z as i128 - ray.pos.z as i128)
        * normal.z as i128;
    let dist: i128 = tdiv_i128(num * 65536, denom as i128);
    let msq = ray.length_squared();
    proof {
        crate::math::fixed::lemma_tdiv_bound(num * 65536, denom as int);
    }
    if dist < 0 {
        return None;
    }
    let big: bool = dist >= 0x200_0000_0000;
    proof {
        if dist >= 0x200_0000_0000 {
            assert(dist * dist >= 0x200_0000_0000i128 * 0x200_0000_0000i128) by (nonlinear_arith)
                requires
                    dist >= 0x200_0000_0000,
            ;
        } else {
            lemma_mul_bound(dist as int, dist as int, 0x200_0000_0000, 0x200_0000_0000);
        }
    }
    if big || dist * dist >= msq as i128 {
        return None;
    }
    let len = ray.length();
    proof {
        assert(len >= 1) by {
            if len == 0 {
                assert((len + 1) * (len + 1) == 1) by (nonlinear_arith)
                    requires
                        len == 0i64,
                ;
            }
        };
        assert(dist <= len) by (nonlinear_arith)
            requires
                0 <= dist,
                dist * dist < msq,
                msq < (len + 1) * (len + 1),
                len >= 0,
        ;
        assert(0 <= tdiv(dist as int * (ONE as int), len as int) <= ONE) by (nonlinear_arith)
            requires
                0 <= dist,
                dist <= len,
                1 <= len,
        ;
    }
    let t: i128 = tdiv_i128(dist * 65536, len as i128);
    if t >= ONE as i128 {
        None
    } else {
        Some(t as i64)
    }
}

impl Plane {
    pub open spec fn wf_s(self) -> bool {
        self.center.wf() && self.normal.wf() && mat_wf(self.material)
    }

    pub fn ray_trace<'a>(&'a self, ray: &Ray) -> (r: Option<HitResult<'a>>)
        requires
            self.wf_s(),
            ray.wf(),
        ensures
            osh(r) == plane_trace_s(*self, *ray),
            match r {
                Some(h) => h.wf() && h.ray == *ray,
                None => true,
            },
    {
        match plane_intersect(self.center, self.normal, ray) {
            Some(t) => Some(
                HitResult { ray: *ray, t, normal: self.normal, material: &self.material },
            ),
            None => None,
        }
    }

    pub fn is_inside(&self, point: Vec3) -> (r: bool)
        requires
            self.wf_s(),
            point.wf(),
        ensures
            r == plane_inside_s(*self, point),
    {
        proof {
            lemma_mul_bound(point.x - self.center.x, self.normal.x as int, 2 * VB as int, VB as int);
            lemma_mul_bound(point.y - self.center.y, self.normal.y as int, 2 * VB as int, VB as int);
            lemma_mul_bound(point.z - self.center.z, self.normal.z as int, 2 * VB as int, VB as int);
        }
        let d: i128 = (point.x as i128 - self.center.x as i128) * self.normal.x as i128 + (
        point.y as i128 - self.center.y as i128) * self.normal.y as i128 + (point.z as i128
            - self.center.z as i128) * self.normal.z as i128;
        d < 0
    }
}

pub struct FinitePlane {
    pub pos: Pos,
    pub size: (i64, i64),
    pub material: Material,
}

/// The patch's plane normal: its local up axis carried into world space.
pub open spec fn fplane_normal_s(p: FinitePlane) -> Vec3 {
    rot_s(p.pos.rotation, Vec3 { x: 0, y: ONE as i64, z: 0 })
}

/// Intersect the patch's infinite plane, then keep the hit only if its
/// local coordinates lie within the half-extents on both local axes.
pub open spec fn fplane_trace_s(p: FinitePlane, ray: Ray) -> Option<SpecHit> {
    let normal = fplane_normal_s(p);
    match plane_intersect_s(p.pos.translation, normal, ray) {
        Some(t) => {
            let local = inv_transform_s(p.pos, at_s(ray, t));
            if 2 * iabs(local.x as int) > p.size.0 || 2 * iabs(local.z as int) > p.size.1 {
                None
            } else {
                Some(SpecHit { ray, t: t as i64, normal, material: p.material })
            }
        },
        None => None,
    }
}

/// A point is inside the patch's open box: below the plane and within the
/// half-extents on both local axes.
pub open spec fn fplane_inside_s(p: FinitePlane, point: Vec3) -> bool {
    let rel = inv_transform_s(p.pos, point);
    rel.y < 0 && 2 * iabs(rel.x as int) < p.size.0 && 2 * iabs(rel.z as int) < p.size.1
}

fn abs2_i64(v: i64) -> (r: i128)
    requires
        iabs(v as int) <= VB,
    ensures
        r == 2 * iabs(v as int),
{
    if v < 0 {
        2 * (-(v as i128))
    } else {
        2 * (v as i128)
    }
}

impl FinitePlane {
    pub open spec fn wf_s(self) -> bool {
        self.pos.wf() && 0 <= self.size.0 <= VB && 0 <= self.size.1 <= VB && mat_wf(self.material)
    }

    pub fn ray_trace<'a>(&'a self, ray: &Ray) -> (r: Option<HitResult<'a>>)
        requires
            self.wf_s(),
            ray.wf(),
        ensures
            osh(r) == fplane_trace_s(*self, *ray),
            match r {
                Some(h) => h.wf() && h.ray == *ray,
                None => true,
            },
    {
        let normal = self.pos.rotation.rotate(Vec3::new(0, ONE, 0));
        match plane_intersect(self.pos.translation, normal, ray) {
            Some(t) => {
                let local = self.pos.inv_transform(ray.at(t));
                if abs2_i64(local.x) > self.size.0 as i128 || abs2_i64(local.z)
                    > self.size.1 as i128 {
                    None
                } else {
                    Some(HitResult { ray: *ray, t, normal, material: &self.material })
                }
            },
            None => None,
        }
    }

    pub fn is_inside(&self, point: Vec3) -> (r: bool)
        requires
            self.wf_s(),
            point.wf(),
        ensures
            r == fplane_inside_s(*self, point),
    {
        let rel = self.pos.inv_transform(point);
        rel.y < 0 && abs2_i64(rel.x) < self.size.0 as i128 && abs2_i64(rel.z) < self.size.1 as i128
    }
}

} // verus!
