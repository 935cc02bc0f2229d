//! Signed 16.16 fixed-point scalars.
//!
//! A stored `i64` value `x` denotes the real number `x / ONE`.  All
//! arithmetic on scalars is exact integer arithmetic; rounding happens only
//! in division (truncation toward zero, like hardware float rounding toward
//! zero) and is stated exactly by the spec functions here.

use vstd::prelude::*;

verus! {

/// The fixed-point unit: the stored value denoting the real number 1.
pub const ONE: i64 = 65536;

/// The stored value denoting 1/4.
pub const QUARTER: i64 = 16384;

/// The stored value denoting 1/2.
pub const HALF: i64 = 32768;

/// Bound on the components of a well-formed vector (about 16384 world units).
pub const VB: i64 = 0x4000_0000;

/// Offset (about a quarter of a thousandth of a unit) used to restart a
/// ray just past a hit, standing in for an infinitesimal epsilon.
pub const EPS: i64 = 16;

/// Absolute value over mathematical integers.
pub open spec fn iabs(n: int) -> int {
    if n < 0 {
        -n
    } else {
        n
    }
}

/// Truncating (toward zero) integer division, the rounding that the
/// executable arithmetic performs.
pub open spec fn tdiv(n: int, d: int) -> int
    recommends
        d != 0,
{
    if (n < 0) != (d < 0) {
        -(iabs(n) / iabs(d))
    } else {
        iabs(n) / iabs(d)
    }
}

/// Clamp `x` into `[-b, b]`.
pub open spec fn clip(x: int, b: int) -> int
    recommends
        b > 0,
{
    if x > b {
        b
    } else if x < -b {
        -b
    } else {
        x
    }
}

/// The integer square root (floor of the real square root) of `n`,
/// or 0 for negative `n`.
pub open spec fn isqrt_s(n: int) -> int
    decreases n,
{
    if n <= 0 {
        0
    } else {
        let p = isqrt_s(n - 1);
        if (p + 1) * (p + 1) <= n {
            p + 1
        } else {
            p
        }
    }
}

/// `r` is the integer square root of `n`.
pub open spec fn is_isqrt(n: int, r: int) -> bool {
    0 <= r && r * r <= n && n < (r + 1) * (r + 1)
}

pub proof fn lemma_isqrt_s(n: int)
    requires
        n >= 0,
    ensures
        is_isqrt(n, isqrt_s(n)),
    decreases n,
{
    if n > 0 {
        lemma_isqrt_s(n - 1);
        let p = isqrt_s(n - 1);
        if (p + 1) * (p + 1) <= n {
            assert((p + 1 + 1) * (p + 1 + 1) > (p + 1) * (p + 1)) by (nonlinear_arith)
                requires
                    p >= 0,
            ;
        }
    }
}

pub proof fn lemma_isqrt_unique(n: int, a: int, b: int)
    requires
        is_isqrt(n, a),
        is_isqrt(n, b),
    ensures
        a == b,
{
    if a < b {
        assert((a + 1) * (a + 1) <= b * b) by (nonlinear_arith)
            requires
                0 <= a,
                a + 1 <= b,
        ;
    }
    if b < a {
        assert((b + 1) * (b + 1) <= a * a) by (nonlinear_arith)
            requires
                0 <= b,
                b + 1 <= a,
        ;
    }
}

/// |a * b| <= A * B when |a| <= A and |b| <= B.
pub proof fn lemma_mul_bound(a: int, b: int, cap_a: int, cap_b: int)
    requires
        iabs(a) <= cap_a,
        iabs(b) <= cap_b,
    ensures
        iabs(a * b) <= cap_a * cap_b,
{
    assert(iabs(a * b) <= cap_a * cap_b) by (nonlinear_arith)
        requires
            iabs(a) <= cap_a,
            iabs(b) <= cap_b,
    ;
}

/// |tdiv(n, d)| <= |n| for d with |d| >= 1.
pub proof fn lemma_tdiv_bound(n: int, d: int)
    requires
        d != 0,
    ensures
        iabs(tdiv(n, d)) <= iabs(n),
        iabs(n) < iabs(d) ==> tdiv(n, d) == 0,
{
    let q = iabs(n) / iabs(d);
    assert(0 <= q <= iabs(n) && (iabs(n) < iabs(d) ==> q == 0)) by (nonlinear_arith)
        requires
            iabs(d) >= 1,
            iabs(n) >= 0,
            q == iabs(n) / iabs(d),
    ;
}

/// Truncating division of `k * x` by `k` recovers `x` exactly: the algebraic
/// heart of the progressive accumulator's freedom from drift.
pub proof fn lemma_tdiv_cancel(x: int, k: int)
    requires
        k >= 1,
    ensures
        tdiv(k * x, k) == x,
{
    assert(iabs(k * x) == k * iabs(x)) by (nonlinear_arith)
        requires
            k >= 1,
    ;
    assert((k * x < 0) <==> (x < 0)) by (nonlinear_arith)
        requires
            k >= 1,
    ;
    assert((k * iabs(x)) / k == iabs(x)) by (nonlinear_arith)
        requires
            k >= 1,
            iabs(x) >= 0,
    ;
}

/// The product of two values from the `i64` range stays well inside the
/// `i128` range.
pub proof fn lemma_i64_product(a: int, b: int)
    requires
        iabs(a) <= 0x8000_0000_0000_0000,
        iabs(b) <= 0x8000_0000_0000_0000,
    ensures
        iabs(a * b) <= 0x4000_0000_0000_0000_0000_0000_0000_0000,
{
    lemma_mul_bound(a, b, 0x8000_0000_0000_0000, 0x8000_0000_0000_0000);
}

/// Truncating division, computed through unsigned division (whose executable
/// and mathematical meanings agree on non-negative operands).
pub fn tdiv_i128(n: i128, d: i128) -> (r: i128)
    requires
        d != 0,
        n > i128::MIN,
        d > i128::MIN,
    ensures
        r == tdiv(n as int, d as int),
{
    let nn: u128 = if n >= 0 {
        n as u128
    } else {
        (-n) as u128
    };
    let dd: u128 = if d >= 0 {
        d as u128
    } else {
        (-d) as u128
    };
    let q: u128 = nn / dd;
    proof {
        assert(nn == iabs(n as int));
        assert(dd == iabs(d as int));
        assert(q <= nn) by (nonlinear_arith)
            requires
                dd >= 1,
                q == nn / dd,
        ;
    }
    if (n < 0) != (d < 0) {
        -(q as i128)
    } else {
        q as i128
    }
}

/// Clamp an `i128` into `[-b, b]`.
pub fn clip_i128(x: i128, b: i64) -> (r: i64)
    requires
        b > 0,
    ensures
        r == clip(x as int, b as int),
{
    if x > b as i128 {
        b
    } else if x < -(b as i128) {
        -b
    } else {
        x as i64
    }
}

/// Saturate an `i128` into the full `i64` range.
pub fn sat_i64(x: i128) -> (r: i64)
    ensures
        r == clip(x as int, i64::MAX as int),
{
    if x > i64::MAX as i128 {
        i64::MAX
    } else if x < -(i64::MAX as i128) {
        -i64::MAX
    } else {
        x as i64
    }
}

/// Binary-search integer square root over `u128`, narrowing a power-of-two
/// window.
pub fn isqrt_u128(n: u128) -> (r: u128)
    ensures
        r == isqrt_s(n as int),
        r < 0x1_0000_0000_0000_0000,
{
    let mut r: u128 = 0;
    let mut w: u128 = 0x1_0000_0000_0000_0000;
    let ghost mut e: nat = 64;
    proof {
        vstd::arithmetic::power2::lemma2_to64();
        assert((n as int) < (r + w) * (r + w)) by (nonlinear_arith)
            requires
                r == 0,
                w == 0x1_0000_0000_0000_0000u128,
                n <= u128::MAX,
        ;
    }
    while w > 1
        invariant
            w == vstd::arithmetic::power2::pow2(e),
            1 <= w <= 0x1_0000_0000_0000_0000,
            r * r <= n,
            (n as int) < (r + w) * (r + w),
            r + w <= 0x1_0000_0000_0000_0000,
        decreases w,
    {
        proof {
            vstd::arithmetic::power2::lemma2_to64();
            assert(e != 0);
            vstd::arithmetic::power2::lemma_pow2_unfold(e);
            e = (e - 1) as nat;
        }
        let step: u128 = w / 2;
        let cand: u128 = r + step;
        proof {
            assert(cand * cand < 0x1_0000_0000_0000_0000u128 * 0x1_0000_0000_0000_0000u128)
                by (nonlinear_arith)
                requires
                    cand < 0x1_0000_0000_0000_0000u128,
            ;
        }
        if cand * cand <= n {
            proof {
                assert((cand + step) * (cand + step) == (r + w) * (r + w)) by (nonlinear_arith)
                    requires
                        cand == r + step,
                        w == 2 * step,
                ;
            }
            r = cand;
        }
        w = step;
    }
    proof {
        lemma_isqrt_s(n as int);
        lemma_isqrt_unique(n as int, r as int, isqrt_s(n as int));
    }
    r
}

} // verus!
