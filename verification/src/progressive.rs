//! The progressive accumulator: an incremental running mean of
//! independently rendered full frames.
//!
//! Internally the buffer stores exact per-pixel running sums and a sample
//! count, and divides on read; the reported mean is therefore the exact
//! integer mean of everything merged, and merging the same frame any
//! number of times reproduces that frame without drift (see
//! [`lemma_no_drift`]).

use vstd::prelude::*;

verus! {

use crate::math::color::{Color, cadd, CB};
use crate::math::space::Vec3;
use crate::math::fixed::{VB, iabs, tdiv, clip, tdiv_i128, clip_i128, lemma_tdiv_cancel,
    lemma_tdiv_bound};

/// One pixel's running sums: sample color, albedo, and normal (the normal
/// summed channel-wise with the same saturating color arithmetic).
pub open spec fn triple_add_s(
    acc: (Color, Color, Color),
    sample: (Color, Color, Vec3),
) -> (Color, Color, Color) {
    (
        cadd(acc.0, sample.0),
        cadd(acc.1, sample.1),
        cadd(acc.2, Color(sample.2.x, sample.2.y, sample.2.z)),
    )
}

/// One channel of the reported mean: the sum divided by the sample count,
/// truncated.
pub open spec fn mean1(sum: int, n: int) -> int
    recommends
        n >= 1,
{
    tdiv(sum, n)
}

/// The reported per-pixel mean: each color channel divided by the count;
/// the normal additionally clamped into vector bounds.
pub open spec fn triple_mean_s(acc: (Color, Color, Color), n: int) -> (Color, Color, Vec3) {
    (
        Color(mean1(acc.0.0 as int, n) as i64, mean1(acc.0.1 as int, n) as i64, mean1(acc.0.2 as int, n) as i64),
        Color(mean1(acc.1.0 as int, n) as i64, mean1(acc.1.1 as int, n) as i64, mean1(acc.1.2 as int, n) as i64),
        Vec3 {
            x: clip(mean1(acc.2.0 as int, n), VB as int) as i64,
            y: clip(mean1(acc.2.1 as int, n), VB as int) as i64,
            z: clip(mean1(acc.2.2 as int, n), VB as int) as i64,
        },
    )
}

/// The `k`-fold saturating sum of one constant sample, starting from zero.
pub open spec fn summed(c: Color, k: nat) -> Color
    decreases k,
{
    if k == 0 {
        Color(0, 0, 0)
    } else {
        cadd(summed(c, (k - 1) as nat), c)
    }
}

/// Merging the same constant value `k` times and reading the mean gives
/// back exactly that value: the accumulator does not drift.  The channel
/// bound keeps the running sum below the saturation bound.
pub proof fn lemma_no_drift(c: Color, k: nat)
    requires
        1 <= k,
        k * iabs(c.0 as int) <= CB,
        k * iabs(c.1 as int) <= CB,
        k * iabs(c.2 as int) <= CB,
    ensures
        summed(c, k) == Color((k * c.0) as i64, (k * c.1) as i64, (k * c.2) as i64),
        mean1(summed(c, k).0 as int, k as int) == c.0,
        mean1(summed(c, k).1 as int, k as int) == c.1,
        mean1(summed(c, k).2 as int, k as int) == c.2,
    decreases k,
{
    lemma_summed_linear(c, k);
    lemma_chan(c.0 as int, k as int);
    lemma_chan(c.1 as int, k as int);
    lemma_chan(c.2 as int, k as int);
    assert(summed(c, k).0 as int == k * c.0);
    assert(summed(c, k).1 as int == k * c.1);
    assert(summed(c, k).2 as int == k * c.2);
    lemma_tdiv_cancel(c.0 as int, k as int);
    lemma_tdiv_cancel(c.1 as int, k as int);
    lemma_tdiv_cancel(c.2 as int, k as int);
}

/// Arithmetic facts for one channel of one merge step.
proof fn lemma_chan(x: int, k: int)
    requires
        k >= 1,
        k * iabs(x) <= CB,
    ensures
        (k - 1) * iabs(x) <= CB,
        iabs((k - 1) * x) <= CB,
        iabs(k * x) <= CB,
        (k - 1) * x + x == k * x,
{
    assert((k - 1) * iabs(x) <= CB && iabs((k - 1) * x) <= CB && iabs(k * x) <= CB && (k - 1) * x
        + x == k * x) by (nonlinear_arith)
        requires
            k >= 1,
            k * iabs(x) <= CB,
    ;
}

/// Below the saturation bound, the `k`-fold sum of a constant is the
/// plain product.
proof fn lemma_summed_linear(c: Color, k: nat)
    requires
        k * iabs(c.0 as int) <= CB,
        k * iabs(c.1 as int) <= CB,
        k * iabs(c.2 as int) <= CB,
    ensures
        summed(c, k) == Color((k * c.0) as i64, (k * c.1) as i64, (k * c.2) as i64),
    decreases k,
{
    if k == 0 {
    } else {
        lemma_chan(c.0 as int, k as int);
        lemma_chan(c.1 as int, k as int);
        lemma_chan(c.2 as int, k as int);
        lemma_summed_linear(c, (k - 1) as nat);
        let prev = summed(c, (k - 1) as nat);
        assert(prev.0 as int == (k - 1) * c.0);
        assert(prev.1 as int == (k - 1) * c.1);
        assert(prev.2 as int == (k - 1) * c.2);
        assert(summed(c, k) == cadd(prev, c));
        assert(summed(c, k).0 as int == clip((k - 1) * c.0 + c.0, CB as int));
        assert(summed(c, k).0 as int == k * c.0);
        assert(summed(c, k).1 as int == k * c.1);
        assert(summed(c, k).2 as int == k * c.2);
    }
}

/// A per-pixel array of running (color, albedo, normal) sums plus the
/// global sample count, mutated only by merging whole frames.
pub struct ProgressiveBuffer {
    sums: Vec<(Color, Color, Color)>,
    spp: u64,
}

impl ProgressiveBuffer {
    /// The per-pixel running sums.
    pub closed spec fn sums_s(self) -> Seq<(Color, Color, Color)> {
        self.sums@
    }

    /// How many frames have been merged.
    pub closed spec fn spp_s(self) -> u64 {
        self.spp
    }

    /// A zeroed buffer for a `width` by `height` image.
    pub fn new(width: usize, height: usize) -> (r: ProgressiveBuffer)
        requires
            width <= 4096,
            height <= 4096,
        ensures
            r.spp_s() == 0,
            r.sums_s().len() == width * height,
            forall|i: int|
                0 <= i < r.sums_s().len() ==> #[trigger] r.sums_s()[i] == (
                Color(0, 0, 0),
                Color(0, 0, 0),
                Color(0, 0, 0),
                ),
    {
        proof {
            assert(width * height <= 0x100_0000) by (nonlinear_arith)
                requires
                    width <= 4096,
                    height <= 4096,
            ;
        }
        let n: usize = width * height;
        let mut sums: Vec<(Color, Color, Color)> = Vec::new();
        let mut i: usize = 0;
        while i < n
            invariant
                i <= n,
                sums@.len() == i,
                forall|j: int|
                    0 <= j < i ==> #[trigger] sums@[j] == (
                    Color(0, 0, 0),
                    Color(0, 0, 0),
                    Color(0, 0, 0),
                    ),
            decreases n - i,
        {
            sums.push((Color(0, 0, 0), Color(0, 0, 0), Color(0, 0, 0)));
            i = i + 1;
        }
        ProgressiveBuffer { sums, spp: 0 }
    }

    /// Merge one full frame: count it and add it, pixel by pixel, into
    /// the running sums.  The frame must match the buffer's resolution.
    pub fn update(&mut self, update: &Vec<(Color, Color, Vec3)>)
        requires
            update@.len() == old(self).sums_s().len(),
            old(self).spp_s() < u64::MAX,
        ensures
            final(self).spp_s() == old(self).spp_s() + 1,
            final(self).sums_s().len() == old(self).sums_s().len(),
            forall|i: int|
                0 <= i < final(self).sums_s().len() ==> #[trigger] final(self).sums_s()[i]
                    == triple_add_s(old(self).sums_s()[i], update@[i]),
    {
        self.spp = self.spp + 1;
        let n = self.sums.len();
        let mut i: usize = 0;
        while i < n
            invariant
                n == self.sums@.len(),
                update@.len() == n,
                i <= n,
                self.spp == old(self).spp + 1,
                old(self).sums@.len() == n,
                forall|j: int|
                    i <= j < n ==> #[trigger] self.sums@[j] == old(self).sums_s()[j],
                forall|j: int|
                    0 <= j < i ==> #[trigger] self.sums@[j] == triple_add_s(
                        old(self).sums_s()[j],
                        update@[j],
                    ),
            decreases n - i,
        {
            let (c, a, nv) = update[i];
            let cur = self.sums[i];
            let merged = (
                cur.0.add(c),
                cur.1.add(a),
                cur.2.add(Color(nv.x, nv.y, nv.z)),
            );
            self.sums.set(i, merged);
            i = i + 1;
        }
    }

    /// The number of merged frames.
    pub fn spp(&self) -> (r: u64)
        ensures
            r == self.spp_s(),
    {
        self.spp
    }

    /// The exact integer mean of everything merged so far, pixel by
    /// pixel.
    pub fn averaged(&self) -> (r: Vec<(Color, Color, Vec3)>)
        requires
            self.spp_s() >= 1,
        ensures
            r@.len() == self.sums_s().len(),
            forall|i: int|
                0 <= i < r@.len() ==> #[trigger] r@[i] == triple_mean_s(
                    self.sums_s()[i],
                    self.spp_s() as int,
                ),
    {
        let n = self.sums.len();
        let mut out: Vec<(Color, Color, Vec3)> = Vec::new();
        let mut i: usize = 0;
        while i < n
            invariant
                n == self.sums@.len(),
                self.spp >= 1,
                i <= n,
                out@.len() == i,
                forall|j: int|
                    0 <= j < i ==> #[trigger] out@[j] == triple_mean_s(
                        self.sums_s()[j],
                        self.spp_s() as int,
                    ),
            decreases n - i,
        {
            let (sc, sa, sn) = self.sums[i];
            let k = self.spp as i128;
            let mean = (
                Color(
                    tdiv_i128(sc.0 as i128, k) as i64,
                    tdiv_i128(sc.1 as i128, k) as i64,
                    tdiv_i128(sc.2 as i128, k) as i64,
                ),
                Color(
                    tdiv_i128(sa.0 as i128, k) as i64,
                    tdiv_i128(sa.1 as i128, k) as i64,
                    tdiv_i128(sa.2 as i128, k) as i64,
                ),
                Vec3 {
                    x: clip_i128(tdiv_i128(sn.0 as i128, k), VB),
                    y: clip_i128(tdiv_i128(sn.1 as i128, k), VB),
                    z: clip_i128(tdiv_i128(sn.2 as i128, k), VB),
                },
            );
            proof {
                lemma_tdiv_bound(sc.0 as int, k as int);
                lemma_tdiv_bound(sc.1 as int, k as int);
                lemma_tdiv_bound(sc.2 as int, k as int);
                lemma_tdiv_bound(sa.0 as int, k as int);
                lemma_tdiv_bound(sa.1 as int, k as int);
                lemma_tdiv_bound(sa.2 as int, k as int);
            }
            out.push(mean);
            i = i + 1;
        }
        out
    }
}

} // verus!
