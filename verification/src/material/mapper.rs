//! A debugging material that re-emits the ray along the surface normal.

use vstd::prelude::*;

verus! {

use crate::math::color::Color;
use crate::math::fixed::ONE;
use crate::math::hit::HitResult;

pub struct Mapper;

impl Mapper {
    pub fn albedo(&self, _result: HitResult) -> (c: Color)
        ensures
            c == Color(ONE as i64, ONE as i64, ONE as i64),
    {
        Color::splat(ONE)
    }
}

} // verus!
