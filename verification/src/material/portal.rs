//! A ray-warping material: front-face hits teleport the ray into a target
//! placement's frame; back-face hits let the ray pass through.

use vstd::prelude::*;

verus! {

use crate::math::space::Pos;
use crate::math::color::Color;
use crate::math::fixed::ONE;
use crate::math::hit::HitResult;

pub struct Portal(pub Pos);

impl Portal {
    pub fn albedo(&self, _result: HitResult) -> (c: Color)
        ensures
            c == Color(ONE as i64, ONE as i64, ONE as i64),
    {
        Color::splat(ONE)
    }
}

} // verus!
