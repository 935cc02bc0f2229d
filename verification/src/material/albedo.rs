//! Base-color providers for materials.

use vstd::prelude::*;

pub mod solid;
pub mod normals;

verus! {

use crate::material::albedo::solid::Solid;
use crate::material::albedo::normals::Normals;
use crate::math::color::Color;
use crate::math::space::Vec3;
use crate::math::hit::HitResult;

/// The closed set of base-color providers.
pub enum Albedo {
    Solid(Solid),
    Normals(Normals),
}

impl Albedo {
    pub open spec fn albedo_s(self, normal: Vec3) -> Color {
        match self {
            Albedo::Solid(s) => s.0,
            Albedo::Normals(_) => crate::math::color::powi_s(
                crate::math::color::from_vec_s(normal),
                2,
            ),
        }
    }

    pub fn albedo(&self, result: HitResult) -> (c: Color)
        requires
            result.normal.wf(),
        ensures
            c == self.albedo_s(result.normal),
    {
        match self {
            Albedo::Solid(s) => s.albedo(result),
            Albedo::Normals(n) => n.albedo(result),
        }
    }
}

} // verus!
