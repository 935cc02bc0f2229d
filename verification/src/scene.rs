//! Scene aggregates: an ordered collection of surfaces, and the pair used
//! by the boolean combinators.

use vstd::prelude::*;

verus! {

use crate::hittable::{Shape, shape_wf, vol_free, inside_s, trace_s, sh_h};
use crate::math::space::Vec3;
use crate::math::ray::Ray;
use crate::math::hit::{HitResult, SpecHit, osh};
use nanorand::rand::WyRand;

/// A linear scan over an ordered collection of surfaces, keeping the
/// strictly closest hit; on ties the earlier surface wins.
pub open spec fn scan_s(objects: Seq<Shape>, ray: Ray) -> Option<SpecHit>
    decreases objects.len(),
{
    if objects.len() == 0 {
        None
    } else {
        let rest = scan_s(objects.drop_last(), ray);
        match trace_s(objects.last(), ray) {
            Some(th) => match rest {
                Some(cur) => if th.t < cur.t {
                    Some(th)
                } else {
                    Some(cur)
                },
                None => Some(th),
            },
            None => rest,
        }
    }
}

/// A point is inside the aggregate when it is inside any member.
pub open spec fn scene_inside_s(objects: Seq<Shape>, p: Vec3) -> bool {
    exists|i: int| 0 <= i < objects.len() && inside_s(objects[i], p)
}

/// The top-level scene: an ordered collection of surfaces, itself
/// answering the surface queries.
pub struct TestScene {
    pub objects: Vec<Shape>,
}

impl TestScene {
    pub open spec fn wf_s(self) -> bool {
        forall|i: int| 0 <= i < self.objects@.len() ==> shape_wf(#[trigger] self.objects@[i])
    }

    pub open spec fn vol_free_s(self) -> bool {
        forall|i: int| 0 <= i < self.objects@.len() ==> vol_free(#[trigger] self.objects@[i])
    }

    pub fn new() -> (r: TestScene)
        ensures
            r.objects@.len() == 0,
            r.wf_s(),
    {
        TestScene { objects: Vec::new() }
    }

    /// The nearest valid forward hit over all surfaces, scanned in order.
    pub fn ray_trace<'a>(&'a self, ray: &Ray, rng: &mut WyRand) -> (r: Option<HitResult<'a>>)
        requires
            self.wf_s(),
            ray.wf(),
        ensures
            match r {
                Some(h) => h.wf(),
                None => true,
            },
            self.vol_free_s() ==> osh(r) == scan_s(self.objects@, *ray),
    {
        let mut hit: Option<HitResult<'a>> = None;
        let mut i: usize = 0;
        while i < self.objects.len()
            invariant
                self.wf_s(),
                ray.wf(),
                i <= self.objects@.len(),
                match hit {
                    Some(h) => h.wf(),
                    None => true,
                },
                self.vol_free_s() ==> osh(hit) == scan_s(self.objects@.take(i as int), *ray),
            decreases self.objects@.len() - i,
        {
            let this_hit = self.objects[i].ray_trace(ray, rng);
            match this_hit {
                Some(th) => {
                    match &hit {
                        Some(cur) => {
                            if th.t < cur.t {
                                hit = Some(th);
                            }
                        },
                        None => {
                            hit = Some(th);
                        },
                    }
                },
                None => {},
            }
            proof {
                assert(self.objects@.take(i + 1).drop_last() =~= self.objects@.take(i as int));
                assert(self.objects@.take(i + 1).last() == self.objects@[i as int]);
            }
            i = i + 1;
        }
        proof {
            assert(self.objects@.take(self.objects@.len() as int) =~= self.objects@);
        }
        hit
    }

    pub fn is_inside(&self, point: Vec3) -> (r: bool)
        requires
            self.wf_s(),
            point.wf(),
        ensures
            r == scene_inside_s(self.objects@, point),
    {
        let mut i: usize = 0;
        while i < self.objects.len()
            invariant
                self.wf_s(),
                point.wf(),
                i <= self.objects@.len(),
                !scene_inside_s(self.objects@.take(i as int), point),
            decreases self.objects@.len() - i,
        {
            if self.objects[i].is_inside(point) {
                proof {
                    assert(inside_s(self.objects@[i as int], point));
                }
                return true;
            }
            proof {
                assert forall|j: int| 0 <= j < i + 1 implies !inside_s(
                    #[trigger] self.objects@.take(i + 1)[j],
                    point,
                ) by {
                    if j < i {
                        assert(self.objects@.take(i as int)[j] == self.objects@.take(i + 1)[j]);
                        assert(!inside_s(self.objects@.take(i as int)[j], point));
                    }
                };
            }
            i = i + 1;
        }
        proof {
            assert(self.objects@.take(self.objects@.len() as int) =~= self.objects@);
        }
        false
    }
}

/// What the pair query returns: the closer of the two hits, tagged with
/// whether it came from the second surface (ties favor the first).
pub open spec fn couple_tagged_s(a: Shape, b: Shape, ray: Ray) -> Option<(SpecHit, bool)>
    decreases vstd::math::max(sh_h(a) as int, sh_h(b) as int) as nat, 2nat, 1nat,
{
    match (trace_s(a, ray), trace_s(b, ray)) {
        (Some(h1), Some(h2)) => Some(
            (
                if h2.t < h1.t {
                    h2
                } else {
                    h1
                },
                h2.t >= h1.t,
            ),
        ),
        (Some(h1), None) => Some((h1, false)),
        (None, Some(h2)) => Some((h2, true)),
        (None, None) => None,
    }
}

pub open spec fn couple_s(a: Shape, b: Shape, ray: Ray) -> Option<SpecHit>
    decreases vstd::math::max(sh_h(a) as int, sh_h(b) as int) as nat, 2nat, 2nat,
{
    match couple_tagged_s(a, b, ray) {
        Some((h, _)) => Some(h),
        None => None,
    }
}

/// A tagged optional hit seen as a value.
pub open spec fn osh_t(o: Option<(HitResult, bool)>) -> Option<(SpecHit, bool)> {
    match o {
        Some((h, tag)) => Some((h.sh(), tag)),
        None => None,
    }
}

/// A borrowed pair of surfaces, queried together.
pub struct Couple<'a>(pub &'a Shape, pub &'a Shape);

impl<'a> Couple<'a> {
    pub fn new(a: &'a Shape, b: &'a Shape) -> (r: Couple<'a>)
        ensures
            r.0 == a && r.1 == b,
    {
        Couple(a, b)
    }

    /// The closer hit of the two surfaces, tagged with whether it came
    /// from the second.
    pub fn ray_trace_tagged(&self, ray: &Ray, rng: &mut WyRand) -> (r: Option<
        (HitResult<'a>, bool),
    >)
        requires
            shape_wf(*self.0),
            shape_wf(*self.1),
            ray.wf(),
        ensures
            match r {
                Some((h, _)) => h.wf(),
                None => true,
            },
            vol_free(*self.0) && vol_free(*self.1) ==> osh_t(r) == couple_tagged_s(
                *self.0,
                *self.1,
                *ray,
            ),
        decreases vstd::math::max(sh_h(*self.0) as int, sh_h(*self.1) as int) as nat, 2nat, 1nat,
    {
        let o1 = self.0.ray_trace(ray, rng);
        let o2 = self.1.ray_trace(ray, rng);
        match o1 {
            Some(h1) => match o2 {
                Some(h2) => {
                    let tag = h2.t >= h1.t;
                    Some((h1.closer(h2), tag))
                },
                None => Some((h1, false)),
            },
            None => match o2 {
                Some(h2) => Some((h2, true)),
                None => None,
            },
        }
    }

    pub fn ray_trace(&self, ray: &Ray, rng: &mut WyRand) -> (r: Option<HitResult<'a>>)
        requires
            shape_wf(*self.0),
            shape_wf(*self.1),
            ray.wf(),
        ensures
            match r {
                Some(h) => h.wf(),
                None => true,
            },
            vol_free(*self.0) && vol_free(*self.1) ==> osh(r) == couple_s(*self.0, *self.1, *ray),
        decreases vstd::math::max(sh_h(*self.0) as int, sh_h(*self.1) as int) as nat, 2nat, 2nat,
    {
        match self.ray_trace_tagged(ray, rng) {
            Some((h, _)) => Some(h),
            None => None,
        }
    }

    pub fn is_inside(&self, point: Vec3) -> (r: bool)
        requires
            shape_wf(*self.0),
            shape_wf(*self.1),
            point.wf(),
        ensures
            r == (inside_s(*self.0, point) || inside_s(*self.1, point)),
    {
        self.0.is_inside(point) || self.1.is_inside(point)
    }
}

} // verus!
