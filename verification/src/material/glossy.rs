//! A material that randomly mixes diffuse and mirror bounces.

use vstd::prelude::*;

verus! {

use crate::material::albedo::Albedo;
use crate::math::color::Color;
use crate::math::hit::HitResult;

/// A glossy material: per sample it follows either a diffuse bounce or a
/// mirror bounce, chosen by a random draw against a fixed threshold.
pub struct Glossy(pub Albedo);

impl Glossy {
    pub fn albedo(&self, result: HitResult) -> (c: Color)
        requires
            result.normal.wf(),
        ensures
            c == self.0.albedo_s(result.normal),
    {
        self.0.albedo(result)
    }
}

} // verus!
