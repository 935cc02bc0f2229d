//! Vectors, rotations and rigid placements over fixed-point scalars.

use vstd::prelude::*;

verus! {

use crate::math::fixed::{ONE, VB, iabs, tdiv, clip, isqrt_s, is_isqrt, lemma_isqrt_s,
    lemma_isqrt_unique, lemma_mul_bound, lemma_i64_product, tdiv_i128, clip_i128, isqrt_u128};

/// A 3-component fixed-point vector.  Every operation clamps its result
/// into `[-VB, VB]` per component; a vector within those bounds is
/// well-formed (`wf`), and on well-formed operands whose exact result is
/// itself in bounds the operations are exact.
#[derive(Clone, Copy, Debug, PartialEq, Eq, Structural)]
pub struct Vec3 {
    pub x: i64,
    pub y: i64,
    pub z: i64,
}

/// Component-wise clamp into the well-formed range.
pub open spec fn vclip(x: int, y: int, z: int) -> Vec3 {
    Vec3 { x: clip(x, VB as int) as i64, y: clip(y, VB as int) as i64, z: clip(z, VB as int) as i64 }
}

pub open spec fn add_s(a: Vec3, b: Vec3) -> Vec3 {
    vclip(a.x + b.x, a.y + b.y, a.z + b.z)
}

pub open spec fn sub_s(a: Vec3, b: Vec3) -> Vec3 {
    vclip(a.x - b.x, a.y - b.y, a.z - b.z)
}

pub open spec fn neg_s(a: Vec3) -> Vec3 {
    vclip(-a.x, -a.y, -a.z)
}

/// Fixed-point scaling: each component becomes `c * s / ONE`, truncated.
pub open spec fn scale_s(a: Vec3, s: int) -> Vec3 {
    vclip(tdiv(a.x * s, ONE as int), tdiv(a.y * s, ONE as int), tdiv(a.z * s, ONE as int))
}

/// The exact (unclamped, unscaled) dot product of the stored integers.
pub open spec fn dot3(a: Vec3, b: Vec3) -> int {
    a.x * b.x + a.y * b.y + a.z * b.z
}

/// Fixed-point normalization: divide by the integer square root of the
/// squared magnitude; the zero vector is left unchanged.
pub open spec fn norm_s(a: Vec3) -> Vec3 {
    let m = isqrt_s(dot3(a, a));
    if m == 0 {
        a
    } else {
        vclip(tdiv(a.x * (ONE as int), m), tdiv(a.y * (ONE as int), m), tdiv(a.z * (ONE as int), m))
    }
}

impl Vec3 {
    /// All components within `[-VB, VB]`.
    pub open spec fn wf(self) -> bool {
        iabs(self.x as int) <= VB && iabs(self.y as int) <= VB && iabs(self.z as int) <= VB
    }

    pub fn new(x: i64, y: i64, z: i64) -> (r: Vec3)
        requires
            iabs(x as int) <= VB,
            iabs(y as int) <= VB,
            iabs(z as int) <= VB,
        ensures
            r == (Vec3 { x, y, z }),
            r.wf(),
    {
        Vec3 { x, y, z }
    }

    pub fn add(self, o: Vec3) -> (r: Vec3)
        ensures
            r == add_s(self, o),
            r.wf(),
    {
        Vec3 {
            x: clip_i128(self.x as i128 + o.x as i128, VB),
            y: clip_i128(self.y as i128 + o.y as i128, VB),
            z: clip_i128(self.z as i128 + o.z as i128, VB),
        }
    }

    pub fn sub(self, o: Vec3) -> (r: Vec3)
        ensures
            r == sub_s(self, o),
            r.wf(),
    {
        Vec3 {
            x: clip_i128(self.x as i128 - o.x as i128, VB),
            y: clip_i128(self.y as i128 - o.y as i128, VB),
            z: clip_i128(self.z as i128 - o.z as i128, VB),
        }
    }

    pub fn neg(self) -> (r: Vec3)
        ensures
            r == neg_s(self),
            r.wf(),
    {
        Vec3 {
            x: clip_i128(-(self.x as i128), VB),
            y: clip_i128(-(self.y as i128), VB),
            z: clip_i128(-(self.z as i128), VB),
        }
    }

    pub fn scale(self, s: i64) -> (r: Vec3)
        ensures
            r == scale_s(self, s as int),
            r.wf(),
    {
        proof {
            lemma_i64_product(self.x as int, s as int);
            lemma_i64_product(self.y as int, s as int);
            lemma_i64_product(self.z as int, s as int);
        }
        Vec3 {
            x: clip_i128(tdiv_i128(self.x as i128 * s as i128, ONE as i128), VB),
            y: clip_i128(tdiv_i128(self.y as i128 * s as i128, ONE as i128), VB),
            z: clip_i128(tdiv_i128(self.z as i128 * s as i128, ONE as i128), VB),
        }
    }

    pub fn dot(self, o: Vec3) -> (r: i64)
        requires
            self.wf(),
            o.wf(),
        ensures
            r == dot3(self, o),
            iabs(r as int) <= 0x3000_0000_0000_0000,
    {
        proof {
            lemma_mul_bound(self.x as int, o.x as int, VB as int, VB as int);
            lemma_mul_bound(self.y as int, o.y as int, VB as int, VB as int);
            lemma_mul_bound(self.z as int, o.z as int, VB as int, VB as int);
        }
        self.x * o.x + self.y * o.y + self.z * o.z
    }

    pub fn mag_sq(self) -> (r: i64)
        requires
            self.wf(),
        ensures
            r == dot3(self, self),
            0 <= r <= 0x3000_0000_0000_0000,
    {
        proof {
            lemma_mul_bound(self.x as int, self.x as int, VB as int, VB as int);
            lemma_mul_bound(self.y as int, self.y as int, VB as int, VB as int);
            lemma_mul_bound(self.z as int, self.z as int, VB as int, VB as int);
            assert(self.x * self.x >= 0) by (nonlinear_arith);
            assert(self.y * self.y >= 0) by (nonlinear_arith);
            assert(self.z * self.z >= 0) by (nonlinear_arith);
        }
        self.x * self.x + self.y * self.y + self.z * self.z
    }

    /// The integer square root of the squared magnitude; exactly the stored
    /// fixed-point length of the vector, up to the truncation `isqrt_s` states.
    pub fn mag(self) -> (r: i64)
        requires
            self.wf(),
        ensures
            r == isqrt_s(dot3(self, self)),
            r >= 0,
            r * r <= dot3(self, self) < (r + 1) * (r + 1),
    {
        let m = self.mag_sq();
        let r = isqrt_u128(m as u128);
        proof {
            lemma_isqrt_s(m as int);
            assert(r < 0x8000_0000) by (nonlinear_arith)
                requires
                    r * r <= m as int,
                    m <= 0x3000_0000_0000_0000,
                    r >= 0,
            ;
        }
        r as i64
    }

    /// Apply a rotation's rows to this vector.
    pub fn rotated_by(self, m: &Mat3) -> (r: Vec3)
        requires
            self.wf(),
            m.wf(),
        ensures
            r == rot_s(*m, self),
            r.wf(),
    {
        m.rotate(self)
    }

    pub fn normalized(self) -> (r: Vec3)
        requires
            self.wf(),
        ensures
            r == norm_s(self),
            r.wf(),
            dot3(self, self) > 0 ==> iabs(r.x as int) <= ONE && iabs(r.y as int) <= ONE && iabs(
                r.z as int,
            ) <= ONE,
    {
        let m = self.mag();
        if m == 0 {
            proof {
                assert((m + 1) * (m + 1) == 1) by (nonlinear_arith)
                    requires
                        m == 0i64,
                ;
                assert(m * m == 0) by (nonlinear_arith)
                    requires
                        m == 0i64,
                ;
                assert(dot3(self, self) == 0);
            }
            self
        } else {
            proof {
                lemma_component_le_mag(self, m as int);
                lemma_i64_product(self.x as int, ONE as int);
                lemma_i64_product(self.y as int, ONE as int);
                lemma_i64_product(self.z as int, ONE as int);
            }
            let r = Vec3 {
                x: clip_i128(tdiv_i128(self.x as i128 * ONE as i128, m as i128), VB),
                y: clip_i128(tdiv_i128(self.y as i128 * ONE as i128, m as i128), VB),
                z: clip_i128(tdiv_i128(self.z as i128 * ONE as i128, m as i128), VB),
            };
            proof {
                lemma_norm_component(self.x as int, m as int);
                lemma_norm_component(self.y as int, m as int);
                lemma_norm_component(self.z as int, m as int);
                assert(iabs(r.x as int) <= ONE);
                assert(iabs(r.y as int) <= ONE);
                assert(iabs(r.z as int) <= ONE);
            }
            r
        }
    }
}

/// If `m` is the integer square root of `|v|^2` then each component of `v`
/// is at most `m` in magnitude.
proof fn lemma_component_le_mag(v: Vec3, m: int)
    requires
        is_isqrt(dot3(v, v), m),
    ensures
        iabs(v.x as int) <= m,
        iabs(v.y as int) <= m,
        iabs(v.z as int) <= m,
{
    assert(v.x * v.x <= dot3(v, v) && v.y * v.y <= dot3(v, v) && v.z * v.z <= dot3(v, v))
        by (nonlinear_arith);
    assert forall|c: int| c * c <= dot3(v, v) implies iabs(c) <= m by {
        if iabs(c) > m {
            assert((m + 1) * (m + 1) <= iabs(c) * iabs(c)) by (nonlinear_arith)
                requires
                    0 <= m,
                    m + 1 <= iabs(c),
            ;
            assert(iabs(c) * iabs(c) == c * c) by (nonlinear_arith);
        }
    };
}

/// A component of magnitude at most `m > 0` divided by `m` in fixed point
/// is at most `ONE` in magnitude.
proof fn lemma_norm_component(c: int, m: int)
    requires
        m > 0,
        iabs(c) <= m,
    ensures
        iabs(tdiv(c * (ONE as int), m)) <= ONE,
{
    assert(iabs(c * (ONE as int)) == iabs(c) * (ONE as int)) by (nonlinear_arith);
    assert((iabs(c) * (ONE as int)) / m <= ONE) by (nonlinear_arith)
        requires
            m > 0,
            iabs(c) <= m,
    ;
}

/// A rotation (or any linear map) as three fixed-point rows.
#[derive(Clone, Copy, Debug, PartialEq, Eq, Structural)]
pub struct Mat3 {
    pub rx: Vec3,
    pub ry: Vec3,
    pub rz: Vec3,
}

/// Apply the rows to `v`, in fixed point: component `i` is `row_i . v / ONE`.
pub open spec fn rot_s(m: Mat3, v: Vec3) -> Vec3 {
    vclip(
        tdiv(dot3(m.rx, v), ONE as int),
        tdiv(dot3(m.ry, v), ONE as int),
        tdiv(dot3(m.rz, v), ONE as int),
    )
}

pub open spec fn transpose_s(m: Mat3) -> Mat3 {
    Mat3 {
        rx: Vec3 { x: m.rx.x, y: m.ry.x, z: m.rz.x },
        ry: Vec3 { x: m.rx.y, y: m.ry.y, z: m.rz.y },
        rz: Vec3 { x: m.rx.z, y: m.ry.z, z: m.rz.z },
    }
}

impl Mat3 {
    pub open spec fn wf(self) -> bool {
        self.rx.wf() && self.ry.wf() && self.rz.wf()
    }

    pub fn new(rx: Vec3, ry: Vec3, rz: Vec3) -> (r: Mat3)
        ensures
            r == (Mat3 { rx, ry, rz }),
    {
        Mat3 { rx, ry, rz }
    }

    /// The identity rotation.
    pub fn identity() -> (r: Mat3)
        ensures
            r == identity_s(),
            r.wf(),
    {
        Mat3 {
            rx: Vec3 { x: ONE, y: 0, z: 0 },
            ry: Vec3 { x: 0, y: ONE, z: 0 },
            rz: Vec3 { x: 0, y: 0, z: ONE },
        }
    }

    pub fn rotate(&self, v: Vec3) -> (r: Vec3)
        requires
            self.wf(),
            v.wf(),
        ensures
            r == rot_s(*self, v),
            r.wf(),
    {
        Vec3 {
            x: clip_i128(tdiv_i128(dot_i128(self.rx, v), ONE as i128), VB),
            y: clip_i128(tdiv_i128(dot_i128(self.ry, v), ONE as i128), VB),
            z: clip_i128(tdiv_i128(dot_i128(self.rz, v), ONE as i128), VB),
        }
    }

    /// The transpose; for an orthonormal rotation this is its inverse.
    pub fn transpose(&self) -> (r: Mat3)
        ensures
            r == transpose_s(*self),
            self.wf() ==> r.wf(),
    {
        Mat3 {
            rx: Vec3 { x: self.rx.x, y: self.ry.x, z: self.rz.x },
            ry: Vec3 { x: self.rx.y, y: self.ry.y, z: self.rz.y },
            rz: Vec3 { x: self.rx.z, y: self.ry.z, z: self.rz.z },
        }
    }
}

pub open spec fn identity_s() -> Mat3 {
    Mat3 {
        rx: Vec3 { x: ONE as i64, y: 0, z: 0 },
        ry: Vec3 { x: 0, y: ONE as i64, z: 0 },
        rz: Vec3 { x: 0, y: 0, z: ONE as i64 },
    }
}

/// Exact dot product in `i128`, for operands whose components may sum past
/// the well-formed range (never overflows: three products of `i64` values).
fn dot_i128(a: Vec3, b: Vec3) -> (r: i128)
    requires
        a.wf(),
        b.wf(),
    ensures
        r == dot3(a, b),
        iabs(r as int) <= 0x3000_0000_0000_0000,
{
    proof {
        lemma_mul_bound(a.x as int, b.x as int, VB as int, VB as int);
        lemma_mul_bound(a.y as int, b.y as int, VB as int, VB as int);
        lemma_mul_bound(a.z as int, b.z as int, VB as int, VB as int);
    }
    a.x as i128 * b.x as i128 + a.y as i128 * b.y as i128 + a.z as i128 * b.z as i128
}

/// A rigid placement: a rotation followed by a translation.
#[derive(Clone, Copy, Debug, PartialEq, Eq, Structural)]
pub struct Pos {
    pub translation: Vec3,
    pub rotation: Mat3,
}

/// Carry `v` from the placement's local frame into the world frame.
pub open spec fn transform_s(p: Pos, v: Vec3) -> Vec3 {
    add_s(rot_s(p.rotation, v), p.translation)
}

/// Carry a world-frame point into the placement's local frame, via the
/// transposed rotation.
pub open spec fn inv_transform_s(p: Pos, v: Vec3) -> Vec3 {
    rot_s(transpose_s(p.rotation), sub_s(v, p.translation))
}

impl Pos {
    pub open spec fn wf(self) -> bool {
        self.translation.wf() && self.rotation.wf()
    }

    pub fn new(translation: Vec3, rotation: Mat3) -> (r: Pos)
        ensures
            r == (Pos { translation, rotation }),
    {
        Pos { translation, rotation }
    }

    pub fn transform(&self, v: Vec3) -> (r: Vec3)
        requires
            self.wf(),
            v.wf(),
        ensures
            r == transform_s(*self, v),
            r.wf(),
    {
        self.rotation.rotate(v).add(self.translation)
    }

    pub fn inv_transform(&self, v: Vec3) -> (r: Vec3)
        requires
            self.wf(),
            v.wf(),
        ensures
            r == inv_transform_s(*self, v),
            r.wf(),
    {
        self.rotation.transpose().rotate(v.sub(self.translation))
    }
}

} // verus!
