//! Self-luminous materials: they both reflect and emit.

use vstd::prelude::*;

verus! {

use crate::material::albedo::Albedo;
use crate::material::albedo::solid::Solid;
use crate::math::color::{Color, cadd, cscale, cdiv1};
use crate::math::fixed::ONE;
use crate::math::hit::HitResult;

/// An emissive material: a base-color provider plus a fixed-point emission
/// intensity.
pub struct Emissive(pub Albedo, pub i64);

impl Emissive {
    /// Split a radiance triple into a unit-range color and an intensity:
    /// the intensity is the largest channel (at least one), the stored
    /// color is the input divided by it.
    pub fn solid(color: Color) -> (r: Emissive)
        ensures
            r.1 == max4(color.0 as int, color.1 as int, color.2 as int, ONE as int),
            r.0 == Albedo::Solid(
                Solid(
                    Color(
                        cdiv1(color.0 as int, r.1 as int) as i64,
                        cdiv1(color.1 as int, r.1 as int) as i64,
                        cdiv1(color.2 as int, r.1 as int) as i64,
                    ),
                ),
            ),
            r.1 >= ONE,
    {
        let mut m: i64 = ONE;
        if color.0 > m {
            m = color.0;
        }
        if color.1 > m {
            m = color.1;
        }
        if color.2 > m {
            m = color.2;
        }
        let scaled = color.div(Color(m, m, m));
        Emissive(Albedo::Solid(Solid(scaled)), m)
    }

    pub fn albedo(&self, result: HitResult) -> (c: Color)
        requires
            result.normal.wf(),
        ensures
            c == self.0.albedo_s(result.normal),
    {
        self.0.albedo(result)
    }
}

pub open spec fn max4(a: int, b: int, c: int, d: int) -> int {
    vstd::math::max(vstd::math::max(a, b), vstd::math::max(c, d))
}

/// Combine the diffusely transported light with the material's own
/// emission: the two terms are additive, the emission being the albedo
/// scaled by the intensity.
pub fn combine_emissive(diffuse: Color, albedo: Color, intensity: i64) -> (r: Color)
    ensures
        r == cadd(diffuse, cscale(albedo, intensity as int)),
{
    diffuse.add(albedo.scale(intensity))
}

} // verus!
