//! Materials: how a surface turns incoming light into outgoing radiance.
//!
//! The material set is closed, so it is modeled as a tagged sum
//! ([`Material`]) with one dispatching evaluator per capability; composite
//! materials own their children, forming a tree.

use vstd::prelude::*;

pub mod albedo;
pub mod lambertian;
pub mod portal;
pub mod metal;
pub mod glossy;
pub mod mapper;
pub mod emissive;
pub mod composite;

verus! {

use crate::material::albedo::Albedo;
use crate::material::lambertian::Lambertian;
use crate::material::metal::Metal;
use crate::material::glossy::Glossy;
use crate::material::emissive::Emissive;
use crate::material::portal::Portal;
use crate::material::mapper::Mapper;
use crate::material::composite::Composite;
use crate::math::color::Color;
use crate::math::space::Vec3;
use crate::math::ray::Ray;
use crate::math::hit::HitResult;
use crate::math::fixed::ONE;
use crate::scene::TestScene;
use nanorand::rand::WyRand;

/// Every material the tracer knows, as one closed sum.
pub enum Material {
    Lambertian(Lambertian),
    Metal(Metal),
    Glossy(Glossy),
    Emissive(Emissive),
    Portal(Portal),
    Mapper(Mapper),
    Composite(Composite),
}

/// Height of the material tree: composite nodes recurse into their children.
pub open spec fn mat_h(m: Material) -> nat
    decreases m,
{
    match m {
        Material::Composite(c) => 1 + composite_h(c),
        _ => 0,
    }
}

pub open spec fn composite_h(c: Composite) -> nat
    decreases c,
{
    match c {
        Composite::Add(a, b) => 1 + vstd::math::max(mat_h(*a) as int, mat_h(*b) as int) as nat,
        Composite::Sub(a, b) => 1 + vstd::math::max(mat_h(*a) as int, mat_h(*b) as int) as nat,
        Composite::Div(a, b) => 1 + vstd::math::max(mat_h(*a) as int, mat_h(*b) as int) as nat,
        Composite::Mul(a, b) => 1 + vstd::math::max(mat_h(*a) as int, mat_h(*b) as int) as nat,
        Composite::Lerp(a, b, _) => 1 + vstd::math::max(mat_h(*a) as int, mat_h(*b) as int) as nat,
    }
}

/// Well-formedness of a material: placements carry bounded vectors and
/// interpolation weights lie in `[0, 1]`.
pub open spec fn mat_wf(m: Material) -> bool
    decreases m,
{
    match m {
        Material::Portal(p) => p.0.wf(),
        Material::Composite(c) => composite_wf(c),
        _ => true,
    }
}

pub open spec fn composite_wf(c: Composite) -> bool
    decreases c,
{
    match c {
        Composite::Add(a, b) => mat_wf(*a) && mat_wf(*b),
        Composite::Sub(a, b) => mat_wf(*a) && mat_wf(*b),
        Composite::Div(a, b) => mat_wf(*a) && mat_wf(*b),
        Composite::Mul(a, b) => mat_wf(*a) && mat_wf(*b),
        Composite::Lerp(a, b, t) => mat_wf(*a) && mat_wf(*b) && 0 <= t <= ONE,
    }
}

/// What the radiance evaluator returns with exactly one bounce left in
/// the budget, whatever the random draws: every recursive gather then
/// lands on the bounce-0 black case, so only the materials' own terms
/// remain — black for the purely transporting materials, the emission
/// term for an emissive one, and the combined children for a composite.
pub open spec fn base1_s(m: Material, normal: Vec3) -> Color
    decreases m,
{
    match m {
        Material::Emissive(e) => crate::math::color::cadd(
            Color(0, 0, 0),
            crate::math::color::cscale(e.0.albedo_s(normal), e.1 as int),
        ),
        Material::Composite(c) => match c {
            Composite::Add(a, b) => crate::material::composite::combine_s(
                c,
                base1_s(*a, normal),
                base1_s(*b, normal),
            ),
            Composite::Sub(a, b) => crate::material::composite::combine_s(
                c,
                base1_s(*a, normal),
                base1_s(*b, normal),
            ),
            Composite::Div(a, b) => crate::material::composite::combine_s(
                c,
                base1_s(*a, normal),
                base1_s(*b, normal),
            ),
            Composite::Mul(a, b) => crate::material::composite::combine_s(
                c,
                base1_s(*a, normal),
                base1_s(*b, normal),
            ),
            Composite::Lerp(a, b, _) => crate::material::composite::combine_s(
                c,
                base1_s(*a, normal),
                base1_s(*b, normal),
            ),
        },
        _ => Color(0, 0, 0),
    }
}

impl Material {
    /// The base reflected color of the material at a hit, before any light
    /// transport.
    pub open spec fn albedo_s(self, normal: Vec3) -> Color {
        match self {
            Material::Lambertian(m) => m.0.albedo_s(normal),
            Material::Metal(m) => m.0.albedo_s(normal),
            Material::Glossy(m) => m.0.albedo_s(normal),
            Material::Emissive(m) => m.0.albedo_s(normal),
            Material::Portal(_) => Color(ONE as i64, ONE as i64, ONE as i64),
            Material::Mapper(_) => Color(ONE as i64, ONE as i64, ONE as i64),
            Material::Composite(_) => Color(ONE as i64, ONE as i64, ONE as i64),
        }
    }

    pub fn albedo(&self, result: HitResult) -> (c: Color)
        requires
            result.normal.wf(),
        ensures
            c == self.albedo_s(result.normal),
    {
        match self {
            Material::Lambertian(m) => m.albedo(result),
            Material::Metal(m) => m.albedo(result),
            Material::Glossy(m) => m.albedo(result),
            Material::Emissive(m) => m.albedo(result),
            Material::Portal(m) => m.albedo(result),
            Material::Mapper(m) => m.albedo(result),
            Material::Composite(_) => Color::splat(ONE),
        }
    }

    /// The outgoing radiance at a hit of this material, with
    /// `reflections` light-transport events left in the budget.  Every
    /// recursive ray — the portal's back-face pass-through included —
    /// consumes exactly one unit of the budget, upholding the invariant
    /// that material recursion strictly decreases the remaining-bounce
    /// counter (which is also what bounds this recursion).  An emissive
    /// material returns its transported (diffuse) light plus its own
    /// emission: the two terms are additive.  With one bounce left the
    /// result is fully determined whatever the random draws: exactly
    /// `base1_s`.
    pub fn color(&self, scene: &TestScene, result: HitResult, reflections: u8, rng: &mut WyRand)
        -> (c: Color)
        requires
            scene.wf_s(),
            result.wf(),
            mat_wf(*self),
            reflections >= 1,
        ensures
            (match *self {
                Material::Emissive(e) => exists|d: Color|
                    c == crate::math::color::cadd(
                        d,
                        crate::math::color::cscale(e.0.albedo_s(result.normal), e.1 as int),
                    ),
                _ => true,
            }),
            reflections == 1 ==> c == base1_s(*self, result.normal),
        decreases reflections, 2nat, mat_h(*self),
    {
        match self {
            Material::Lambertian(m) => {
                let albedo = m.albedo(result);
                let c = Lambertian::color(scene, result, reflections, rng).mul(albedo);
                proof {
                    if reflections == 1 {
                        crate::math::color::lemma_cmul_black(albedo);
                    }
                }
                c
            },
            Material::Metal(m) => {
                let albedo = m.albedo(result);
                let perturbed = result.normal.add(Lambertian::random_vec(rng).scale(m.1));
                let res2 = HitResult { normal: perturbed.normalized(), ..result };
                let traced = scene.ray_trace(&res2.reflected(), rng);
                let c = HitResult::get_color(traced, scene, reflections - 1, rng).mul(albedo);
                proof {
                    if reflections == 1 {
                        crate::math::color::lemma_cmul_black(albedo);
                    }
                }
                c
            },
            Material::Glossy(m) => {
                let albedo = m.albedo(result);
                if Lambertian::random_vec(rng).y > -crate::math::fixed::HALF {
                    let c = Lambertian::color(scene, result, reflections, rng).mul(albedo);
                    proof {
                        if reflections == 1 {
                            crate::math::color::lemma_cmul_black(albedo);
                        }
                    }
                    c
                } else {
                    let traced = scene.ray_trace(&result.reflected(), rng);
                    HitResult::get_color(traced, scene, reflections - 1, rng)
                }
            },
            Material::Emissive(e) => {
                let diffuse = Lambertian::color(scene, result, reflections, rng);
                let albedo = e.albedo(result);
                let c = crate::material::emissive::combine_emissive(diffuse, albedo, e.1);
                proof {
                    assert(c == crate::math::color::cadd(
                        diffuse,
                        crate::math::color::cscale(e.0.albedo_s(result.normal), e.1 as int),
                    ));
                }
                c
            },
            Material::Portal(p) => {
                let cut = result.ray.from(result.t + crate::math::fixed::EPS);
                if result.is_back() {
                    // The back-face pass-through continues the ray unchanged
                    // in the same scene, but still consumes one bounce: the
                    // invariant that every material recursion strictly
                    // decreases the remaining-bounce counter wins over a
                    // free pass-through, which could recurse forever between
                    // facing portals.
                    let traced = scene.ray_trace(&cut, rng);
                    HitResult::get_color(traced, scene, reflections - 1, rng)
                } else {
                    let warped = Ray::new(p.0.transform(cut.pos), p.0.rotation.rotate(cut.dir));
                    let traced = scene.ray_trace(&warped, rng);
                    HitResult::get_color(traced, scene, reflections - 1, rng)
                }
            },
            Material::Mapper(_) => {
                let normal = result.normal;
                let refl = result.reflected();
                let rl = refl.length();
                let emit = Ray::new(
                    result.pos().add(normal.scale(crate::math::fixed::EPS)),
                    normal.scale(rl),
                );
                let traced = scene.ray_trace(&emit, rng);
                HitResult::get_color(traced, scene, reflections - 1, rng)
            },
            Material::Composite(comp) => {
                let (a, b) = match comp {
                    Composite::Add(a, b) => (a, b),
                    Composite::Sub(a, b) => (a, b),
                    Composite::Div(a, b) => (a, b),
                    Composite::Mul(a, b) => (a, b),
                    Composite::Lerp(a, b, _) => (a, b),
                };
                let color_a = a.color(scene, result, reflections, rng);
                let color_b = b.color(scene, result, reflections, rng);
                crate::material::composite::combine_composite(comp, color_a, color_b)
            },
        }
    }
}

} // verus!
