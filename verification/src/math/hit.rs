//! Hit records: the result of a successful intersection query.

use vstd::prelude::*;

verus! {

use crate::math::ray::{Ray, at_s, from_s, t_for_s, reflect_s};
use crate::math::space::{Vec3, dot3, neg_s};
use crate::math::color::Color;
use crate::math::fixed::{ONE, EPS};
use crate::material::{Material, mat_wf};
use crate::scene::TestScene;
use nanorand::rand::WyRand;

/// The mathematical content of a hit record: the material is held by value.
pub struct SpecHit {
    pub ray: Ray,
    pub t: i64,
    pub normal: Vec3,
    pub material: Material,
}

/// A transient hit record: the ray that produced it, the fixed-point
/// parameter `t` at which it occurred, the surface normal there (not
/// guaranteed to face the ray), and the material at that point, borrowed
/// from the owning surface for the query's lifetime.
#[derive(Clone, Copy)]
pub struct HitResult<'a> {
    pub ray: Ray,
    pub t: i64,
    pub normal: Vec3,
    pub material: &'a Material,
}

impl<'a> HitResult<'a> {
    /// The radiance integrator's entry point: dispatch the hit (if any)
    /// to its material.  With an exhausted bounce budget, or no hit, the
    /// result is exactly black; this is the only termination condition.
    /// With exactly one bounce left the result is fully determined
    /// whatever the random draws: the hit material's own base term.
    pub fn get_color(
        result: Option<HitResult>,
        scene: &TestScene,
        reflections: u8,
        rng: &mut WyRand,
    ) -> (c: Color)
        requires
            scene.wf_s(),
            match result {
                Some(h) => h.wf(),
                None => true,
            },
        ensures
            reflections == 0 ==> c == Color(0, 0, 0),
            result is None ==> c == Color(0, 0, 0),
            reflections == 1 ==> c == (match result {
                Some(h) => crate::material::base1_s(*h.material, h.normal),
                None => Color(0, 0, 0),
            }),
        decreases reflections, 3nat, 0nat,
    {
        if reflections == 0 {
            Color::default()
        } else {
            match result {
                Some(res) => res.material.color(scene, res, reflections, rng),
                None => Color::default(),
            }
        }
    }

    /// The hit seen as a value.
    pub open spec fn sh(self) -> SpecHit {
        SpecHit { ray: self.ray, t: self.t, normal: self.normal, material: *self.material }
    }

    /// Valid hits: parameter in the ray's own domain, bounded geometry,
    /// well-formed material.
    pub open spec fn wf(self) -> bool {
        0 <= self.t < ONE && self.ray.wf() && self.normal.wf() && mat_wf(*self.material)
    }

    /// The ray leaves rather than enters the surface: direction and normal
    /// point the same general way.
    pub open spec fn is_back_s(self) -> bool {
        dot3(self.ray.dir, self.normal) > 0
    }

    pub fn is_back(&self) -> (r: bool)
        requires
            self.ray.wf(),
            self.normal.wf(),
        ensures
            r == self.is_back_s(),
    {
        self.ray.dir.dot(self.normal) > 0
    }

    /// The normal flipped, if needed, to face against the ray.
    pub open spec fn normal_abs_s(self) -> Vec3 {
        if self.is_back_s() {
            neg_s(self.normal)
        } else {
            self.normal
        }
    }

    pub fn normal_abs(&self) -> (r: Vec3)
        requires
            self.ray.wf(),
            self.normal.wf(),
        ensures
            r == self.normal_abs_s(),
            r.wf(),
    {
        if self.is_back() {
            self.normal.neg()
        } else {
            self.normal
        }
    }

    /// The sub-ray reflected at the hit about the outward normal.
    pub fn reflected(&self) -> (r: Ray)
        requires
            self.ray.wf(),
            self.normal.wf(),
            0 <= self.t < ONE,
        ensures
            r == reflect_s(self.ray, self.t as int, self.normal_abs_s()),
            r.wf(),
    {
        self.ray.reflect(self.t, self.normal_abs())
    }

    /// Whichever of the two hits has the smaller parameter; ties keep
    /// `self`.
    pub fn closer(self, other: HitResult<'a>) -> (r: HitResult<'a>)
        ensures
            r == (if other.t < self.t {
                other
            } else {
                self
            }),
    {
        if other.t < self.t {
            other
        } else {
            self
        }
    }

    /// Whichever of the two hits has the larger parameter; ties keep
    /// `self`.
    pub fn farther(self, other: HitResult<'a>) -> (r: HitResult<'a>)
        ensures
            r == (if other.t > self.t {
                other
            } else {
                self
            }),
    {
        if other.t > self.t {
            other
        } else {
            self
        }
    }

    /// Re-express a hit found on a sub-ray as a hit on the enclosing ray,
    /// recovering the parameter by projecting the hit position.
    pub fn map_onto_super(self, ray: &Ray) -> (r: HitResult<'a>)
        requires
            ray.wf(),
        ensures
            r == (HitResult {
                ray: *ray,
                t: t_for_s(*ray, at_s(self.ray, self.t as int)) as i64,
                ..self
            }),
    {
        let t = ray.t_for(self.pos());
        HitResult { ray: *ray, t, ..self }
    }

    /// The world position of the hit.
    pub fn pos(&self) -> (r: Vec3)
        ensures
            r == at_s(self.ray, self.t as int),
            r.wf(),
    {
        self.ray.at(self.t)
    }

    /// The same hit with its normal reversed.
    pub fn flip(&self) -> (r: HitResult<'a>)
        ensures
            r == (HitResult { normal: neg_s(self.normal), ..*self }),
    {
        HitResult { normal: self.normal.neg(), ..*self }
    }

    /// The same hit with its ray's direction randomly perturbed.
    pub fn wobbled(&self, amount: i64, rng: &mut WyRand) -> (r: HitResult<'a>)
        ensures
            r.ray.pos == self.ray.pos,
            r.ray.dir.wf(),
            r.t == self.t && r.normal == self.normal && r.material == self.material,
    {
        HitResult { ray: self.ray.wobbled(amount, rng), ..*self }
    }

    /// The sub-ray that restarts just past the hit.
    pub fn after_t(&self) -> (r: Ray)
        requires
            0 <= self.t < ONE,
        ensures
            r == from_s(self.ray, self.t + EPS),
            self.ray.wf() ==> r.wf(),
    {
        self.ray.from(self.t + EPS)
    }
}

/// An optional hit seen as a value.
pub open spec fn osh(o: Option<HitResult>) -> Option<SpecHit> {
    match o {
        Some(h) => Some(h.sh()),
        None => None,
    }
}

} // verus!
