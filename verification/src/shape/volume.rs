//! A stochastic participating medium filling a solid surface.

use vstd::prelude::*;

verus! {

use crate::hittable::{Shape, shape_wf, vol_free, inside_s, trace_s, sh_h};
use crate::math::space::{Vec3, dot3};
use crate::math::ray::{Ray, at_s, from_s, t_for_s};
use crate::math::hit::HitResult;
use crate::math::fixed::{ONE, EPS, VB, lemma_mul_bound, tdiv_i128, clip_i128};
use crate::material::mat_wf;
use crate::material::lambertian::Lambertian;
use crate::rng::wyrand::{gen_wyrand, gen_range_wyrand};
use nanorand::rand::WyRand;

/// A surface wrapped as a foggy medium: the second field is the mean free
/// path length (world units, fixed point) at which a traversal is certain
/// to scatter.
pub struct Volume(pub Box<Shape>, pub i64);

/// Clamp a traversed segment into the ray's domain; an empty (or
/// inverted) segment means the ray does not traverse the interior.
pub open spec fn seg_clamp(start: i64, end0: i64) -> Option<(i64, i64)> {
    let end = if end0 >= ONE {
        (ONE - 1) as i64
    } else {
        end0
    };
    if end <= start {
        None
    } else {
        Some((start, end))
    }
}

/// The segment of `ray` that traverses the wrapped (volume-free) solid's
/// interior: from 0 to the first boundary when the origin is inside,
/// otherwise from the entry to the exit found by re-querying just past
/// the entry and projecting back onto `ray`.  `None` when the solid is
/// not traversed at all.
pub open spec fn volume_segment_s(inner: Shape, ray: Ray) -> Option<(i64, i64)> {
    match trace_s(inner, ray) {
        None => None,
        Some(h) => if inside_s(inner, ray.pos) {
            seg_clamp(0, h.t)
        } else {
            match trace_s(inner, from_s(ray, h.t + EPS)) {
                None => None,
                Some(h2) => seg_clamp(h.t, t_for_s(ray, at_s(h2.ray, h2.t as int)) as i64),
            }
        },
    }
}

impl Volume {
    /// Find the ray segment traversing the interior (re-querying past the
    /// entry when the ray starts outside), then scatter within it with
    /// probability proportional to the segment's length over the mean free
    /// path: the scattering parameter is drawn uniformly from the segment
    /// and the normal is a random direction facing against the ray.
    ///
    /// Every returned hit has its parameter in `[0, 1)`, a normal not
    /// facing away from the ray, and — stated exactly when the wrapped
    /// shape is volume-free — a parameter inside the traversed segment
    /// and the wrapped surface's entry-hit material; if the wrapped shape
    /// is not met at all there is no scatter.
    pub fn ray_trace<'a>(&'a self, ray: &Ray, rng: &mut WyRand) -> (r: Option<HitResult<'a>>)
        requires
            shape_wf(*self.0),
            0 < self.1 <= VB,
            ray.wf(),
        ensures
            match r {
                Some(h) => h.wf() && h.ray == *ray && dot3(h.normal, ray.dir) <= 0,
                None => true,
            },
            vol_free(*self.0) && trace_s(*self.0, *ray) is None ==> r is None,
            vol_free(*self.0) ==> match r {
                Some(h) => (match volume_segment_s(*self.0, *ray) {
                    Some(seg) => seg.0 <= h.t < seg.1,
                    None => false,
                }) && (match trace_s(*self.0, *ray) {
                    Some(eh) => *h.material == eh.material,
                    None => false,
                }),
                None => true,
            },
        decreases sh_h(*self.0), 3nat, 0nat,
    {
        let first = self.0.ray_trace(ray, rng);
        let hit = match first {
            Some(h) => h,
            None => {
                return None;
            },
        };
        let start_t: i64;
        let end_t0: i64;
        if self.0.is_inside(ray.pos) {
            start_t = 0;
            end_t0 = hit.t;
        } else {
            start_t = hit.t;
            let second = match self.0.ray_trace(&ray.from(start_t + EPS), rng) {
                Some(h) => h,
                None => {
                    return None;
                },
            };
            end_t0 = second.map_onto_super(ray).t;
        }
        let end_t: i64 = if end_t0 >= ONE {
            ONE - 1
        } else {
            end_t0
        };
        if end_t <= start_t {
            return None;
        }
        proof {
            if vol_free(*self.0) {
                assert(volume_segment_s(*self.0, *ray) == Some((start_t, end_t)));
            }
        }
        let len = ray.length();
        if len == 0 {
            return None;
        }
        let guaranteed_t: i64 = clip_i128(tdiv_i128(self.1 as i128 * 65536, len as i128), VB);
        let dist_t: i64 = end_t - start_t;
        let u = gen_wyrand(rng);
        proof {
            lemma_mul_bound(u as int, guaranteed_t as int, ONE as int, VB as int);
        }
        if (u as i128) * (guaranteed_t as i128) < (dist_t as i128) * 65536 {
            let t = gen_range_wyrand(rng, start_t, end_t);
            let mut normal = Lambertian::random_vec(rng);
            if normal.dot(ray.dir) > 0 {
                let ghost oldn = normal;
                normal = normal.neg();
                proof {
                    assert((-oldn.x) * ray.dir.x + (-oldn.y) * ray.dir.y + (-oldn.z) * ray.dir.z
                        == -(oldn.x * ray.dir.x + oldn.y * ray.dir.y + oldn.z * ray.dir.z))
                        by (nonlinear_arith);
                    assert(dot3(normal, ray.dir) <= 0);
                }
            }
            Some(HitResult { ray: *ray, t, normal, material: hit.material })
        } else {
            None
        }
    }
}

} // verus!
