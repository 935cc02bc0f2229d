//! A debugging base color derived from the surface normal.

use vstd::prelude::*;

verus! {

use crate::math::color::{Color, from_vec_s, powi_s};
use crate::math::hit::HitResult;

#[derive(Clone, Copy, Debug, PartialEq, Eq, Structural)]
pub struct Normals();

impl Normals {
    /// The normal mapped into the unit color cube, squared per channel.
    pub fn albedo(&self, result: HitResult) -> (c: Color)
        requires
            result.normal.wf(),
        ensures
            c == powi_s(from_vec_s(result.normal), 2),
    {
        Color::from_vec(&result.normal).powi(2)
    }
}

} // verus!
