//! Mirror-like reflection with a roughness parameter.

use vstd::prelude::*;

verus! {

use crate::material::albedo::Albedo;
use crate::material::albedo::solid::Solid;
use crate::math::color::Color;
use crate::math::fixed::ONE;
use crate::math::hit::HitResult;

/// A reflecting material: a base-color provider plus a fixed-point
/// roughness that perturbs the normal before reflecting.
pub struct Metal(pub Albedo, pub i64);

impl Metal {
    pub fn new(roughness: i64) -> (r: Metal)
        ensures
            r == Metal(Albedo::Solid(Solid(Color(ONE as i64, ONE as i64, ONE as i64))), roughness),
    {
        Self::colored(Color(ONE, ONE, ONE), roughness)
    }

    pub fn colored(color: Color, roughness: i64) -> (r: Metal)
        ensures
            r == Metal(Albedo::Solid(Solid(color)), roughness),
    {
        Metal(Albedo::Solid(Solid(color)), roughness)
    }

    pub fn albedo(&self, result: HitResult) -> (c: Color)
        requires
            result.normal.wf(),
        ensures
            c == self.0.albedo_s(result.normal),
    {
        self.0.albedo(result)
    }
}

} // verus!
