//! The closed set of intersectable surfaces, and the shared query
//! capability every surface answers: nearest valid forward intersection
//! and point containment.

use vstd::prelude::*;

verus! {

use crate::math::space::Vec3;
use crate::math::ray::Ray;
use crate::math::hit::{HitResult, SpecHit, osh};
use crate::shape::sphere::{Sphere, sphere_trace_s, sphere_inside_s};
use crate::shape::plane::{Plane, FinitePlane, plane_trace_s, plane_inside_s, fplane_trace_s,
    fplane_inside_s};
use crate::shape::volume::Volume;
use crate::shape::csg::{Union, Subtract, union_trace_s, subtract_trace_s};
use nanorand::rand::WyRand;

/// Every surface the tracer knows, as one closed sum; boolean combinations
/// own their operands, forming a tree.
pub enum Shape {
    Sphere(Sphere),
    Plane(Plane),
    FinitePlane(FinitePlane),
    Volume(Volume),
    Union(Box<Shape>, Box<Shape>),
    Subtract(Box<Shape>, Box<Shape>),
}

/// Height of the surface tree.
pub open spec fn sh_h(s: Shape) -> nat
    decreases s,
{
    match s {
        Shape::Volume(v) => 1 + sh_h(*v.0),
        Shape::Union(a, b) => 1 + vstd::math::max(sh_h(*a) as int, sh_h(*b) as int) as nat,
        Shape::Subtract(a, b) => 1 + vstd::math::max(sh_h(*a) as int, sh_h(*b) as int) as nat,
        _ => 0,
    }
}

/// Well-formed geometry: bounded coordinates, positive extents,
/// well-formed materials, recursively.
pub open spec fn shape_wf(s: Shape) -> bool
    decreases s,
{
    match s {
        Shape::Sphere(sp) => sp.wf_s(),
        Shape::Plane(p) => p.wf_s(),
        Shape::FinitePlane(p) => p.wf_s(),
        Shape::Volume(v) => shape_wf(*v.0) && 0 < v.1 <= crate::math::fixed::VB,
        Shape::Union(a, b) => shape_wf(*a) && shape_wf(*b),
        Shape::Subtract(a, b) => shape_wf(*a) && shape_wf(*b),
    }
}

/// No stochastic participating volume anywhere in the tree: intersection
/// is then a deterministic function of shape and ray.
pub open spec fn vol_free(s: Shape) -> bool
    decreases s,
{
    match s {
        Shape::Volume(_) => false,
        Shape::Union(a, b) => vol_free(*a) && vol_free(*b),
        Shape::Subtract(a, b) => vol_free(*a) && vol_free(*b),
        _ => true,
    }
}

/// Point containment: a pure geometric predicate, independent of any ray.
/// Union is the logical or of its operands, subtraction keeps the first
/// operand's interior outside the second.
pub open spec fn inside_s(s: Shape, p: Vec3) -> bool
    decreases s,
{
    match s {
        Shape::Sphere(sp) => sphere_inside_s(sp, p),
        Shape::Plane(pl) => plane_inside_s(pl, p),
        Shape::FinitePlane(pl) => fplane_inside_s(pl, p),
        Shape::Volume(v) => inside_s(*v.0, p),
        Shape::Union(a, b) => inside_s(*a, p) || inside_s(*b, p),
        Shape::Subtract(a, b) => inside_s(*a, p) && !inside_s(*b, p),
    }
}

/// The nearest valid forward intersection of a volume-free surface: the
/// deterministic mathematical twin of `Shape::ray_trace`.  (A stochastic
/// volume has no such function; this twin maps it to `None`, and the
/// executable contract claims agreement only on volume-free trees.)
pub open spec fn trace_s(s: Shape, ray: Ray) -> Option<SpecHit>
    decreases sh_h(s), 2nat, 0nat,
{
    match s {
        Shape::Sphere(sp) => sphere_trace_s(sp, ray),
        Shape::Plane(p) => plane_trace_s(p, ray),
        Shape::FinitePlane(p) => fplane_trace_s(p, ray),
        Shape::Volume(_) => None,
        Shape::Union(a, b) => union_trace_s(*a, *b, ray),
        Shape::Subtract(a, b) => subtract_trace_s(*a, *b, ray),
    }
}

impl Shape {
    pub open spec fn wf_s(self) -> bool {
        shape_wf(self)
    }

    /// Boolean union of two surfaces.
    pub fn union(shape1: Shape, shape2: Shape) -> (r: Shape)
        ensures
            r == Shape::Union(Box::new(shape1), Box::new(shape2)),
    {
        Shape::Union(Box::new(shape1), Box::new(shape2))
    }

    /// Boolean subtraction: cut `cut` out of `shape`.
    pub fn subtract(shape: Shape, cut: Shape) -> (r: Shape)
        ensures
            r == Shape::Subtract(Box::new(shape), Box::new(cut)),
    {
        Shape::Subtract(Box::new(shape), Box::new(cut))
    }

    /// The nearest valid forward intersection, or `None`.  On volume-free
    /// trees the result is exactly `trace_s`; a hit's parameter always
    /// lies in its own ray's domain `[0, 1)` (that ray is a sub-ray of
    /// `ray` when a boolean combination advanced past interior hits).
    pub fn ray_trace<'a>(&'a self, ray: &Ray, rng: &mut WyRand) -> (r: Option<HitResult<'a>>)
        requires
            self.wf_s(),
            ray.wf(),
        ensures
            match r {
                Some(h) => h.wf(),
                None => true,
            },
            vol_free(*self) ==> osh(r) == trace_s(*self, *ray),
        decreases sh_h(*self), 2nat, 0nat,
    {
        match self {
            Shape::Sphere(s) => s.ray_trace(ray),
            Shape::Plane(p) => p.ray_trace(ray),
            Shape::FinitePlane(p) => p.ray_trace(ray),
            Shape::Volume(v) => v.ray_trace(ray, rng),
            Shape::Union(a, b) => Union::ray_trace(ray, a, b, rng),
            Shape::Subtract(a, b) => Subtract::ray_trace(ray, a, b, rng),
        }
    }

    pub fn is_inside(&self, point: Vec3) -> (r: bool)
        requires
            self.wf_s(),
            point.wf(),
        ensures
            r == inside_s(*self, point),
        decreases sh_h(*self),
    {
        match self {
            Shape::Sphere(s) => s.is_inside(point),
            Shape::Plane(p) => p.is_inside(point),
            Shape::FinitePlane(p) => p.is_inside(point),
            Shape::Volume(v) => v.0.is_inside(point),
            Shape::Union(a, b) => a.is_inside(point) || b.is_inside(point),
            Shape::Subtract(a, b) => a.is_inside(point) && !b.is_inside(point),
        }
    }
}

} // verus!
