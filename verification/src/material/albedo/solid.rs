//! A constant base color.

use vstd::prelude::*;

verus! {

use crate::math::color::Color;
use crate::math::hit::HitResult;

#[derive(Clone, Copy, Debug, PartialEq, Eq, Structural)]
pub struct Solid(pub Color);

impl Solid {
    pub fn albedo(&self, _result: HitResult) -> (c: Color)
        ensures
            c == self.0,
    {
        self.0
    }
}

} // verus!
