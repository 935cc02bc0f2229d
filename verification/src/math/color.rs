//! Linear RGB radiance triples over fixed-point scalars.

use vstd::prelude::*;

verus! {

use crate::math::fixed::{ONE, iabs, tdiv, clip};
use crate::math::space::{Vec3, dot3, norm_s};
use crate::math::fixed::{tdiv_i128, clip_i128, lemma_i64_product, lemma_mul_bound};

/// Bound on each stored channel of a color produced by the arithmetic here
/// (about 17 million in real units; radiance in any plausible scene is far
/// below it, so in practice the operations are exact).
pub const CB: i64 = 0x100_0000_0000;

/// A linear (non-gamma) RGB triple.  Channel arithmetic is component-wise
/// fixed-point arithmetic, each result clamped into `[-CB, CB]`.
#[derive(Clone, Copy, Debug, PartialEq, Eq, Structural)]
pub struct Color(pub i64, pub i64, pub i64);

pub open spec fn cclip(r: int, g: int, b: int) -> Color {
    Color(clip(r, CB as int) as i64, clip(g, CB as int) as i64, clip(b, CB as int) as i64)
}

pub open spec fn cadd(a: Color, b: Color) -> Color {
    cclip(a.0 + b.0, a.1 + b.1, a.2 + b.2)
}

pub open spec fn csub(a: Color, b: Color) -> Color {
    cclip(a.0 - b.0, a.1 - b.1, a.2 - b.2)
}

pub open spec fn cmul(a: Color, b: Color) -> Color {
    cclip(tdiv(a.0 * b.0, ONE as int), tdiv(a.1 * b.1, ONE as int), tdiv(a.2 * b.2, ONE as int))
}

/// Component-wise fixed-point division.  A zero divisor channel yields the
/// saturation bound with the dividend's sign (the original arithmetic ran
/// to infinity there).
pub open spec fn cdiv1(a: int, b: int) -> int {
    if b == 0 {
        if a > 0 {
            CB as int
        } else if a < 0 {
            -(CB as int)
        } else {
            0
        }
    } else {
        clip(tdiv(a * (ONE as int), b), CB as int)
    }
}

pub open spec fn cdiv(a: Color, b: Color) -> Color {
    Color(
        cdiv1(a.0 as int, b.0 as int) as i64,
        cdiv1(a.1 as int, b.1 as int) as i64,
        cdiv1(a.2 as int, b.2 as int) as i64,
    )
}

/// Scale every channel by the fixed-point factor `s`.
pub open spec fn cscale(a: Color, s: int) -> Color {
    cclip(tdiv(a.0 * s, ONE as int), tdiv(a.1 * s, ONE as int), tdiv(a.2 * s, ONE as int))
}

/// Linear interpolation `a * (1 - t) + b * t`, computed per channel on the
/// unscaled sum and truncated once.
pub open spec fn clerp(a: Color, b: Color, t: int) -> Color {
    cclip(
        tdiv(a.0 * (ONE - t) + b.0 * t, ONE as int),
        tdiv(a.1 * (ONE - t) + b.1 * t, ONE as int),
        tdiv(a.2 * (ONE - t) + b.2 * t, ONE as int),
    )
}

/// Perceptual luminance weights (Rec. 709), in fixed point.
pub const LUM_R: i64 = 13933;

pub const LUM_G: i64 = 46875;

pub const LUM_B: i64 = 4732;

pub open spec fn luminance_s(a: Color) -> int {
    clip(tdiv(a.0 * LUM_R + a.1 * LUM_G + a.2 * LUM_B, ONE as int), CB as int)
}

/// Map a direction to a displayable color: normalize, then move each
/// component from `[-1, 1]` into `[0, 1]`.
pub open spec fn from_vec_s(v: Vec3) -> Color {
    let n = norm_s(v);
    cclip(
        tdiv(n.x + ONE, 2),
        tdiv(n.y + ONE, 2),
        tdiv(n.z + ONE, 2),
    )
}

/// Multiplying black by any color yields black exactly.
pub proof fn lemma_cmul_black(a: Color)
    ensures
        cmul(Color(0, 0, 0), a) == Color(0, 0, 0),
{
    assert(0 * a.0 == 0 && 0 * a.1 == 0 && 0 * a.2 == 0) by (nonlinear_arith);
}

fn cop1_div(a: i64, b: i64) -> (r: i64)
    ensures
        r == cdiv1(a as int, b as int),
{
    if b == 0 {
        if a > 0 {
            CB
        } else if a < 0 {
            -CB
        } else {
            0
        }
    } else {
        proof {
            lemma_i64_product(a as int, ONE as int);
        }
        clip_i128(tdiv_i128(a as i128 * ONE as i128, b as i128), CB)
    }
}

impl Color {
    pub fn add(self, rhs: Color) -> (r: Color)
        ensures
            r == cadd(self, rhs),
    {
        Color(
            clip_i128(self.0 as i128 + rhs.0 as i128, CB),
            clip_i128(self.1 as i128 + rhs.1 as i128, CB),
            clip_i128(self.2 as i128 + rhs.2 as i128, CB),
        )
    }

    pub fn sub(self, rhs: Color) -> (r: Color)
        ensures
            r == csub(self, rhs),
    {
        Color(
            clip_i128(self.0 as i128 - rhs.0 as i128, CB),
            clip_i128(self.1 as i128 - rhs.1 as i128, CB),
            clip_i128(self.2 as i128 - rhs.2 as i128, CB),
        )
    }

    pub fn mul(self, rhs: Color) -> (r: Color)
        ensures
            r == cmul(self, rhs),
    {
        proof {
            lemma_i64_product(self.0 as int, rhs.0 as int);
            lemma_i64_product(self.1 as int, rhs.1 as int);
            lemma_i64_product(self.2 as int, rhs.2 as int);
        }
        Color(
            clip_i128(tdiv_i128(self.0 as i128 * rhs.0 as i128, ONE as i128), CB),
            clip_i128(tdiv_i128(self.1 as i128 * rhs.1 as i128, ONE as i128), CB),
            clip_i128(tdiv_i128(self.2 as i128 * rhs.2 as i128, ONE as i128), CB),
        )
    }

    pub fn div(self, rhs: Color) -> (r: Color)
        ensures
            r == cdiv(self, rhs),
    {
        Color(cop1_div(self.0, rhs.0), cop1_div(self.1, rhs.1), cop1_div(self.2, rhs.2))
    }

    pub fn scale(self, s: i64) -> (r: Color)
        ensures
            r == cscale(self, s as int),
    {
        proof {
            lemma_i64_product(self.0 as int, s as int);
            lemma_i64_product(self.1 as int, s as int);
            lemma_i64_product(self.2 as int, s as int);
        }
        Color(
            clip_i128(tdiv_i128(self.0 as i128 * s as i128, ONE as i128), CB),
            clip_i128(tdiv_i128(self.1 as i128 * s as i128, ONE as i128), CB),
            clip_i128(tdiv_i128(self.2 as i128 * s as i128, ONE as i128), CB),
        )
    }

    pub fn splat(n: i64) -> (r: Color)
        ensures
            r == Color(n, n, n),
    {
        Color(n, n, n)
    }

    pub fn from_vec(vec: &Vec3) -> (r: Color)
        requires
            vec.wf(),
        ensures
            r == from_vec_s(*vec),
    {
        let normalized = vec.normalized();
        Color(
            clip_i128(tdiv_i128(normalized.x as i128 + ONE as i128, 2), CB),
            clip_i128(tdiv_i128(normalized.y as i128 + ONE as i128, 2), CB),
            clip_i128(tdiv_i128(normalized.z as i128 + ONE as i128, 2), CB),
        )
    }

    pub fn lerp(&self, other: &Color, t: i64) -> (r: Color)
        requires
            0 <= t <= ONE,
        ensures
            r == clerp(*self, *other, t as int),
    {
        proof {
            lemma_mul_bound(self.0 as int, ONE - t, 0x8000_0000_0000_0000, ONE as int);
            lemma_mul_bound(self.1 as int, ONE - t, 0x8000_0000_0000_0000, ONE as int);
            lemma_mul_bound(self.2 as int, ONE - t, 0x8000_0000_0000_0000, ONE as int);
            lemma_mul_bound(other.0 as int, t as int, 0x8000_0000_0000_0000, ONE as int);
            lemma_mul_bound(other.1 as int, t as int, 0x8000_0000_0000_0000, ONE as int);
            lemma_mul_bound(other.2 as int, t as int, 0x8000_0000_0000_0000, ONE as int);
        }
        Color(
            clip_i128(
                tdiv_i128(
                    self.0 as i128 * (ONE as i128 - t as i128) + other.0 as i128 * t as i128,
                    ONE as i128,
                ),
                CB,
            ),
            clip_i128(
                tdiv_i128(
                    self.1 as i128 * (ONE as i128 - t as i128) + other.1 as i128 * t as i128,
                    ONE as i128,
                ),
                CB,
            ),
            clip_i128(
                tdiv_i128(
                    self.2 as i128 * (ONE as i128 - t as i128) + other.2 as i128 * t as i128,
                    ONE as i128,
                ),
                CB,
            ),
        )
    }

    pub fn lerp_mut(&mut self, other: &Color, t: i64)
        requires
            0 <= t <= ONE,
        ensures
            *final(self) == clerp(*old(self), *other, t as int),
    {
        let r = self.lerp(other, t);
        self.0 = r.0;
        self.1 = r.1;
        self.2 = r.2;
    }

    /// Raise each channel to the `pow`-th power (fixed-point product,
    /// truncated at each step).
    pub fn powi(&self, pow: u32) -> (r: Color)
        ensures
            r == powi_s(*self, pow as nat),
        decreases pow,
    {
        if pow == 0 {
            Color(ONE, ONE, ONE)
        } else {
            let rest = self.powi(pow - 1);
            rest.mul(*self)
        }
    }

    pub fn luminance(&self) -> (r: i64)
        ensures
            r == luminance_s(*self),
    {
        proof {
            lemma_mul_bound(self.0 as int, LUM_R as int, 0x8000_0000_0000_0000, LUM_R as int);
            lemma_mul_bound(self.1 as int, LUM_G as int, 0x8000_0000_0000_0000, LUM_G as int);
            lemma_mul_bound(self.2 as int, LUM_B as int, 0x8000_0000_0000_0000, LUM_B as int);
        }
        clip_i128(
            tdiv_i128(
                self.0 as i128 * LUM_R as i128 + self.1 as i128 * LUM_G as i128 + self.2 as i128
                    * LUM_B as i128,
                ONE as i128,
            ),
            CB,
        )
    }
}

pub open spec fn powi_s(c: Color, pow: nat) -> Color
    decreases pow,
{
    if pow == 0 {
        Color(ONE as i64, ONE as i64, ONE as i64)
    } else {
        cmul(powi_s(c, (pow - 1) as nat), c)
    }
}

impl Default for Color {
    /// Black: the zero radiance triple.
    fn default() -> (r: Color)
        ensures
            r == Color(0, 0, 0),
    {
        Color(0, 0, 0)
    }
}

} // verus!
