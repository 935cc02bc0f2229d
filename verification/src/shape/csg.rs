//! Constructive solid geometry: boolean union and subtraction of two
//! arbitrary surfaces, with exact boundary tracking through overlap.

use vstd::prelude::*;

verus! {

use crate::hittable::{Shape, shape_wf, vol_free, inside_s, trace_s, sh_h};
use crate::scene::{Couple, couple_s};
use crate::math::space::{Vec3, neg_s, dot3};
use crate::math::ray::{Ray, at_s, from_s, t_for_s};
use crate::math::hit::{HitResult, SpecHit, osh};
use crate::math::fixed::{ONE, EPS, VB, iabs};
use nanorand::rand::WyRand;

/// Defensive cap on the boundary-skipping iterations of the combinators:
/// each iteration advances the ray past a contained hit, so the cap is
/// reached only by pathological tangent or coincident geometry, for which
/// the combinators then report no hit.
pub const CSG_FUEL: u32 = 64;

/// The ray leaves rather than enters the surface at this hit.
pub open spec fn back_s(h: SpecHit) -> bool {
    dot3(h.ray.dir, h.normal) > 0
}

/// The world position of a hit value.
pub open spec fn pos_s(h: SpecHit) -> Vec3 {
    at_s(h.ray, h.t as int)
}

/// Force a hit's parameter into the valid domain `[0, 1)`; identity for
/// hits already valid.
pub open spec fn clamp_hit_s(h: SpecHit) -> SpecHit {
    SpecHit {
        t: if h.t < 0 {
            0
        } else if h.t >= ONE {
            (ONE - 1) as i64
        } else {
            h.t
        },
        ..h
    }
}

/// Re-express a hit found on a sub-ray as a hit on `ray`, if any
/// advancement happened.
pub open spec fn remap_s(o: Option<SpecHit>, advanced: bool, ray: Ray) -> Option<SpecHit> {
    if !advanced {
        o
    } else {
        match o {
            Some(h) => Some(SpecHit { ray, t: t_for_s(ray, pos_s(h)) as i64, ..h }),
            None => None,
        }
    }
}

fn clamp_hit<'a>(h: HitResult<'a>) -> (r: HitResult<'a>)
    ensures
        r.sh() == clamp_hit_s(h.sh()),
        0 <= r.t < ONE,
{
    if h.t < 0 {
        HitResult { t: 0, ..h }
    } else if h.t >= ONE {
        HitResult { t: ONE - 1, ..h }
    } else {
        h
    }
}

/// Union: query the pair, and while the returned boundary point is still
/// inside either operand, restart just past it; the surviving hit lies on
/// the exterior boundary.
pub open spec fn union_loop_s(a: Shape, b: Shape, portion: Ray, hit: SpecHit, fuel: nat) -> Option<
    SpecHit,
>
    decreases 1 + vstd::math::max(sh_h(a) as int, sh_h(b) as int) as nat, 1nat, fuel,
{
    if !(inside_s(a, portion.pos) || inside_s(b, portion.pos)) {
        Some(hit)
    } else if fuel == 0 {
        None
    } else {
        match couple_s(a, b, portion) {
            Some(h2) => union_loop_s(
                a,
                b,
                from_s(h2.ray, h2.t + EPS),
                h2,
                (fuel - 1) as nat,
            ),
            None => None,
        }
    }
}

pub open spec fn union_trace_s(a: Shape, b: Shape, ray: Ray) -> Option<SpecHit>
    decreases 1 + vstd::math::max(sh_h(a) as int, sh_h(b) as int) as nat, 1nat, (CSG_FUEL + 1) as nat,
{
    match couple_s(a, b, ray) {
        Some(h) => union_loop_s(a, b, ray, h, CSG_FUEL as nat),
        None => None,
    }
}

/// The boolean union operation.
pub struct Union;

impl Union {
    pub fn ray_trace<'a>(ray: &Ray, s1: &'a Shape, s2: &'a Shape, rng: &mut WyRand) -> (r: Option<
        HitResult<'a>,
    >)
        requires
            shape_wf(*s1),
            shape_wf(*s2),
            ray.wf(),
        ensures
            match r {
                Some(h) => h.wf(),
                None => true,
            },
            vol_free(*s1) && vol_free(*s2) ==> osh(r) == union_trace_s(*s1, *s2, *ray),
        decreases 1 + vstd::math::max(sh_h(*s1) as int, sh_h(*s2) as int) as nat, 1nat, (CSG_FUEL
            + 1) as nat,
    {
        let couple = Couple::new(s1, s2);
        let first = couple.ray_trace(ray, rng);
        let mut hit = match first {
            Some(h) => h,
            None => {
                return None;
            },
        };
        let mut portion: Ray = *ray;
        let mut fuel: u32 = CSG_FUEL;
        while couple.is_inside(portion.pos)
            invariant
                shape_wf(*s1),
                shape_wf(*s2),
                couple.0 == s1 && couple.1 == s2,
                portion.wf(),
                hit.wf(),
                fuel <= CSG_FUEL,
                vol_free(*s1) && vol_free(*s2) ==> union_loop_s(
                    *s1,
                    *s2,
                    portion,
                    hit.sh(),
                    fuel as nat,
                ) == union_trace_s(*s1, *s2, *ray),
            decreases fuel,
        {
            if fuel == 0 {
                return None;
            }
            fuel = fuel - 1;
            hit = match couple.ray_trace(&portion, rng) {
                Some(h) => h,
                None => {
                    return None;
                },
            };
            portion = hit.after_t();
        }
        Some(hit)
    }

    pub fn is_inside(point: Vec3, s1: &Shape, s2: &Shape) -> (r: bool)
        requires
            shape_wf(*s1),
            shape_wf(*s2),
            point.wf(),
        ensures
            r == (inside_s(*s1, point) || inside_s(*s2, point)),
    {
        s1.is_inside(point) || s2.is_inside(point)
    }
}

/// Any hit the union's skipping loop returns lies on the exterior
/// boundary in this sense: either no skipping was needed — the query
/// origin was already outside both operands and the hit is the pair's
/// first — or the point one epsilon past the hit is outside both
/// operands.  (With rounded positions this is the exact form of "the
/// union never returns a hit inside either operand": the boundary point
/// itself rounds to either side, the point just past it does not.)
pub proof fn lemma_union_loop_exterior(a: Shape, b: Shape, portion: Ray, hit: SpecHit, fuel: nat)
    ensures
        (match union_loop_s(a, b, portion, hit, fuel) {
            Some(h) => (!inside_s(a, portion.pos) && !inside_s(b, portion.pos) && h == hit) || {
                let past = from_s(h.ray, h.t + EPS).pos;
                !inside_s(a, past) && !inside_s(b, past)
            },
            None => true,
        }),
    decreases fuel,
{
    if inside_s(a, portion.pos) || inside_s(b, portion.pos) {
        if fuel > 0 {
            match couple_s(a, b, portion) {
                Some(h2) => {
                    lemma_union_loop_exterior(
                        a,
                        b,
                        from_s(h2.ray, h2.t + EPS),
                        h2,
                        (fuel - 1) as nat,
                    );
                },
                None => {},
            }
        }
    }
}

/// The loop-exit guarantee at the union's entry point: a returned hit is
/// either the pair's first hit seen from an origin outside both
/// operands, or a hit whose immediate continuation point is outside both.
pub proof fn lemma_union_exterior(a: Shape, b: Shape, ray: Ray)
    ensures
        (match union_trace_s(a, b, ray) {
            Some(h) => (!inside_s(a, ray.pos) && !inside_s(b, ray.pos) && Some(h) == couple_s(
                a,
                b,
                ray,
            )) || {
                let past = from_s(h.ray, h.t + EPS).pos;
                !inside_s(a, past) && !inside_s(b, past)
            },
            None => true,
        }),
{
    match couple_s(a, b, ray) {
        Some(h0) => {
            lemma_union_loop_exterior(a, b, ray, h0, CSG_FUEL as nat);
        },
        None => {},
    }
}

/// Subtraction, once the first operand's hit is known to lie outside the
/// cut: decide whether the cut's (flipped) boundary or the first operand's
/// own boundary is the visible surface.
pub open spec fn sub_final_s(
    a: Shape,
    b: Shape,
    ray: Ray,
    o1: Option<SpecHit>,
    o2: Option<SpecHit>,
) -> Option<SpecHit>
    decreases 1 + vstd::math::max(sh_h(a) as int, sh_h(b) as int) as nat, 0nat, 0nat,
{
    match o1 {
        None => None,
        Some(h1) => match o2 {
            None => Some(clamp_hit_s(h1)),
            Some(h2) => {
                let h2f = SpecHit { normal: neg_s(h2.normal), ..h2 };
                if h2.t < h1.t {
                    if back_s(h2) {
                        if inside_s(a, pos_s(h2)) {
                            Some(clamp_hit_s(h2f))
                        } else {
                            Some(clamp_hit_s(h1))
                        }
                    } else {
                        if back_s(h1) {
                            Some(clamp_hit_s(h2f))
                        } else {
                            if inside_s(b, pos_s(h1)) {
                                match trace_s(b, from_s(ray, h1.t + EPS)) {
                                    Some(h) => {
                                        let m = SpecHit {
                                            ray,
                                            t: t_for_s(ray, pos_s(h)) as i64,
                                            normal: neg_s(h.normal),
                                            material: h.material,
                                        };
                                        if inside_s(a, pos_s(m)) {
                                            Some(clamp_hit_s(m))
                                        } else {
                                            None
                                        }
                                    },
                                    None => None,
                                }
                            } else {
                                Some(clamp_hit_s(h1))
                            }
                        }
                    }
                } else {
                    if back_s(h2) {
                        if inside_s(a, pos_s(h2)) {
                            Some(clamp_hit_s(h2f))
                        } else {
                            None
                        }
                    } else {
                        Some(clamp_hit_s(h1))
                    }
                }
            },
        },
    }
}

/// Subtraction's skip phase: while the first operand's hit is cut away
/// (inside the second operand), restart both queries just past it.
pub open spec fn sub_loop_s(
    a: Shape,
    b: Shape,
    ray: Ray,
    o1: Option<SpecHit>,
    o2: Option<SpecHit>,
    advanced: bool,
    fuel: nat,
) -> Option<SpecHit>
    decreases 1 + vstd::math::max(sh_h(a) as int, sh_h(b) as int) as nat, 1nat, fuel,
{
    match o1 {
        Some(h1) => {
            if inside_s(b, pos_s(h1)) {
                if fuel == 0 {
                    None
                } else {
                    let nray = from_s(h1.ray, h1.t + EPS);
                    sub_loop_s(a, b, ray, trace_s(a, nray), trace_s(b, nray), true, (fuel - 1) as nat)
                }
            } else {
                sub_final_s(a, b, ray, remap_s(o1, advanced, ray), remap_s(o2, advanced, ray))
            }
        },
        None => sub_final_s(a, b, ray, remap_s(o1, advanced, ray), remap_s(o2, advanced, ray)),
    }
}

pub open spec fn subtract_trace_s(a: Shape, b: Shape, ray: Ray) -> Option<SpecHit>
    decreases 1 + vstd::math::max(sh_h(a) as int, sh_h(b) as int) as nat, 1nat, (CSG_FUEL
        + 1) as nat,
{
    sub_loop_s(a, b, ray, trace_s(a, ray), trace_s(b, ray), false, CSG_FUEL as nat)
}

/// The boolean subtraction operation (cut the second operand out of the
/// first).
pub struct Subtract;

/// Hits handed to the decision phase: the parameter may have left `[0, 1)`
/// through remapping, but geometry and material are still bounded.
pub open spec fn loose_wf(h: HitResult) -> bool {
    h.ray.wf() && h.normal.wf() && crate::material::mat_wf(*h.material) && iabs(h.t as int) <= VB
}

fn subtract_final<'a>(
    s1: &'a Shape,
    s2: &'a Shape,
    ray: &Ray,
    o1: Option<HitResult<'a>>,
    o2: Option<HitResult<'a>>,
    rng: &mut WyRand,
) -> (r: Option<HitResult<'a>>)
    requires
        shape_wf(*s1),
        shape_wf(*s2),
        ray.wf(),
        match o1 {
            Some(h) => loose_wf(h),
            None => true,
        },
        match o2 {
            Some(h) => loose_wf(h),
            None => true,
        },
    ensures
        match r {
            Some(h) => h.wf(),
            None => true,
        },
        vol_free(*s1) && vol_free(*s2) ==> osh(r) == sub_final_s(*s1, *s2, *ray, osh(o1), osh(o2)),
    decreases 1 + vstd::math::max(sh_h(*s1) as int, sh_h(*s2) as int) as nat, 0nat, 0nat,
{
    let h1 = match o1 {
        Some(h) => h,
        None => {
            return None;
        },
    };
    let h2 = match o2 {
        Some(h) => h,
        None => {
            return Some(clamp_hit(h1));
        },
    };
    let h2flipped = h2.flip();
    if h2.t < h1.t {
        if h2.is_back() {
            if s1.is_inside(h2.pos()) {
                Some(clamp_hit(h2flipped))
            } else {
                Some(clamp_hit(h1))
            }
        } else {
            if h1.is_back() {
                Some(clamp_hit(h2flipped))
            } else {
                if s2.is_inside(h1.pos()) {
                    match s2.ray_trace(&ray.from(h1.t + EPS), rng) {
                        Some(h) => {
                            let m = h.map_onto_super(ray).flip();
                            if s1.is_inside(m.pos()) {
                                Some(clamp_hit(m))
                            } else {
                                None
                            }
                        },
                        None => None,
                    }
                } else {
                    Some(clamp_hit(h1))
                }
            }
        }
    } else {
        if h2.is_back() {
            if s1.is_inside(h2.pos()) {
                Some(clamp_hit(h2flipped))
            } else {
                None
            }
        } else {
            Some(clamp_hit(h1))
        }
    }
}

fn subtract_skip<'a>(
    s1: &'a Shape,
    s2: &'a Shape,
    ray: &Ray,
    o1_in: Option<HitResult<'a>>,
    o2_in: Option<HitResult<'a>>,
    advanced: bool,
    fuel: u32,
    rng: &mut WyRand,
) -> (r: Option<HitResult<'a>>)
    requires
        shape_wf(*s1),
        shape_wf(*s2),
        ray.wf(),
        match o1_in {
            Some(h) => h.wf(),
            None => true,
        },
        match o2_in {
            Some(h) => h.wf(),
            None => true,
        },
    ensures
        match r {
            Some(h) => h.wf(),
            None => true,
        },
        vol_free(*s1) && vol_free(*s2) ==> osh(r) == sub_loop_s(
            *s1,
            *s2,
            *ray,
            osh(o1_in),
            osh(o2_in),
            advanced,
            fuel as nat,
        ),
    decreases 1 + vstd::math::max(sh_h(*s1) as int, sh_h(*s2) as int) as nat, 1nat, fuel,
{
    let h1 = match &o1_in {
        Some(h) => *h,
        None => {
            let r1 = remap_opt(o1_in, advanced, ray);
            let r2 = remap_opt(o2_in, advanced, ray);
            return subtract_final(s1, s2, ray, r1, r2, rng);
        },
    };
    if s2.is_inside(h1.pos()) {
        if fuel == 0 {
            return None;
        }
        let nray = h1.after_t();
        let n1 = s1.ray_trace(&nray, rng);
        let n2 = s2.ray_trace(&nray, rng);
        subtract_skip(s1, s2, ray, n1, n2, true, fuel - 1, rng)
    } else {
        let r1 = remap_opt(o1_in, advanced, ray);
        let r2 = remap_opt(o2_in, advanced, ray);
        subtract_final(s1, s2, ray, r1, r2, rng)
    }
}

fn remap_opt<'a>(o: Option<HitResult<'a>>, advanced: bool, ray: &Ray) -> (r: Option<HitResult<'a>>)
    requires
        ray.wf(),
        match o {
            Some(h) => h.wf(),
            None => true,
        },
    ensures
        osh(r) == remap_s(osh(o), advanced, *ray),
        match r {
            Some(h) => loose_wf(h),
            None => true,
        },
{
    if !advanced {
        match o {
            Some(h) => Some(h),
            None => None,
        }
    } else {
        match o {
            Some(h) => Some(h.map_onto_super(ray)),
            None => None,
        }
    }
}

impl Subtract {
    pub fn ray_trace<'a>(ray: &Ray, s1: &'a Shape, s2: &'a Shape, rng: &mut WyRand) -> (r: Option<
        HitResult<'a>,
    >)
        requires
            shape_wf(*s1),
            shape_wf(*s2),
            ray.wf(),
        ensures
            match r {
                Some(h) => h.wf(),
                None => true,
            },
            vol_free(*s1) && vol_free(*s2) ==> osh(r) == subtract_trace_s(*s1, *s2, *ray),
        decreases 1 + vstd::math::max(sh_h(*s1) as int, sh_h(*s2) as int) as nat, 1nat, (CSG_FUEL
            + 2) as nat,
    {
        let o1 = s1.ray_trace(ray, rng);
        let o2 = s2.ray_trace(ray, rng);
        subtract_skip(s1, s2, ray, o1, o2, false, CSG_FUEL, rng)
    }

    pub fn is_inside(point: Vec3, s1: &Shape, s2: &Shape) -> (r: bool)
        requires
            shape_wf(*s1),
            shape_wf(*s2),
            point.wf(),
        ensures
            r == (inside_s(*s1, point) && !inside_s(*s2, point)),
    {
        s1.is_inside(point) && !s2.is_inside(point)
    }
}

/// For a ray whose origin lies outside both operands, the union's hit is
/// exactly the pair query's: whichever operand's hit is closer (ties
/// favoring the first), the one that hits if only one does, and none if
/// neither does.
pub proof fn lemma_union_closest(a: Shape, b: Shape, ray: Ray)
    requires
        !inside_s(a, ray.pos),
        !inside_s(b, ray.pos),
    ensures
        union_trace_s(a, b, ray) == couple_s(a, b, ray),
        (match (trace_s(a, ray), trace_s(b, ray)) {
            (Some(h1), Some(h2)) => union_trace_s(a, b, ray) == Some(
                if h2.t < h1.t {
                    h2
                } else {
                    h1
                },
            ),
            (Some(h1), None) => union_trace_s(a, b, ray) == Some(h1),
            (None, Some(h2)) => union_trace_s(a, b, ray) == Some(h2),
            (None, None) => union_trace_s(a, b, ray) is None,
        }),
{
    match couple_s(a, b, ray) {
        Some(h) => {
            assert(union_loop_s(a, b, ray, h, CSG_FUEL as nat) == Some(h));
        },
        None => {},
    }
}

/// Union does not depend on operand order for the hit distance: for a ray
/// whose origin lies outside both operands, the two orders hit at the
/// same parameter, or both miss.
pub proof fn lemma_union_commutes(a: Shape, b: Shape, ray: Ray)
    requires
        !inside_s(a, ray.pos),
        !inside_s(b, ray.pos),
    ensures
        (match (union_trace_s(a, b, ray), union_trace_s(b, a, ray)) {
            (Some(ha), Some(hb)) => ha.t == hb.t,
            (None, None) => true,
            _ => false,
        }),
{
    lemma_union_closest(a, b, ray);
    lemma_union_closest(b, a, ray);
}

/// Subtracting a cut the ray does not meaningfully meet changes nothing:
/// when the first operand misses, so does the subtraction; and when its
/// hit lies outside the cut, with the cut either missed entirely or
/// entered (front face) no closer than that hit — as a non-overlapping
/// cut is — the subtraction's hit is exactly the first operand's.
pub proof fn lemma_subtract_untouched(a: Shape, b: Shape, ray: Ray)
    requires
        (match trace_s(a, ray) {
            Some(h1) => 0 <= h1.t < ONE && !inside_s(b, pos_s(h1)) && (match trace_s(b, ray) {
                Some(h2) => h2.t >= h1.t && !back_s(h2),
                None => true,
            }),
            None => true,
        }),
    ensures
        subtract_trace_s(a, b, ray) == trace_s(a, ray),
{
    let o2 = trace_s(b, ray);
    match trace_s(a, ray) {
        Some(h1) => {
            assert(clamp_hit_s(h1) == h1);
            assert(subtract_trace_s(a, b, ray) == sub_final_s(a, b, ray, Some(h1), o2));
            assert(sub_final_s(a, b, ray, Some(h1), o2) == Some(h1));
        },
        None => {
            assert(subtract_trace_s(a, b, ray) == sub_final_s(a, b, ray, None, o2));
            assert(sub_final_s(a, b, ray, None, o2) is None);
        },
    }
}

/// The decision that reveals the cut's inner wall: when the first
/// operand's hit is a back face outside the cut and the cut's boundary
/// is entered (front face) before it, subtraction returns the cut's
/// boundary with its normal flipped to point into the cavity — the
/// second crossing of a ray traversing a shell carved by a contained
/// cut.
pub proof fn lemma_subtract_reveals_cavity(a: Shape, b: Shape, ray: Ray, h1: SpecHit, h2: SpecHit)
    requires
        trace_s(a, ray) == Some(h1),
        trace_s(b, ray) == Some(h2),
        0 <= h2.t < ONE,
        !inside_s(b, pos_s(h1)),
        h2.t < h1.t,
        !back_s(h2),
        back_s(h1),
    ensures
        subtract_trace_s(a, b, ray) == Some(SpecHit { normal: neg_s(h2.normal), ..h2 }),
{
    let h2f = SpecHit { normal: neg_s(h2.normal), ..h2 };
    assert(clamp_hit_s(h2f) == h2f);
    assert(subtract_trace_s(a, b, ray) == sub_final_s(a, b, ray, Some(h1), Some(h2)));
    assert(sub_final_s(a, b, ray, Some(h1), Some(h2)) == Some(h2f));
}

} // verus!
