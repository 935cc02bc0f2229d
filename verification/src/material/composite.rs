//! Algebraic combination of two materials.

use vstd::prelude::*;

verus! {

use crate::material::Material;
use crate::math::color::{Color, cadd, csub, cdiv, cmul, clerp};
use crate::math::fixed::ONE;

/// Two child materials whose evaluated colors are combined per channel;
/// `Lerp` carries a fixed per-instance weight in `[0, 1]`.
pub enum Composite {
    Add(Box<Material>, Box<Material>),
    Sub(Box<Material>, Box<Material>),
    Div(Box<Material>, Box<Material>),
    Mul(Box<Material>, Box<Material>),
    Lerp(Box<Material>, Box<Material>, i64),
}

/// What a composite's combination does to the two child colors.
pub open spec fn combine_s(c: Composite, color_a: Color, color_b: Color) -> Color {
    match c {
        Composite::Add(_, _) => cadd(color_a, color_b),
        Composite::Sub(_, _) => csub(color_a, color_b),
        Composite::Div(_, _) => cdiv(color_a, color_b),
        Composite::Mul(_, _) => cmul(color_a, color_b),
        Composite::Lerp(_, _, t) => clerp(color_a, color_b, t as int),
    }
}

/// Combine the two child colors as the composite's operation dictates.
pub fn combine_composite(c: &Composite, color_a: Color, color_b: Color) -> (r: Color)
    requires
        crate::material::composite_wf(*c),
    ensures
        r == combine_s(*c, color_a, color_b),
{
    match c {
        Composite::Add(_, _) => color_a.add(color_b),
        Composite::Sub(_, _) => color_a.sub(color_b),
        Composite::Div(_, _) => color_a.div(color_b),
        Composite::Mul(_, _) => color_a.mul(color_b),
        Composite::Lerp(_, _, t) => color_a.lerp(&color_b, *t),
    }
}

} // verus!
