//! A recursive Monte-Carlo ray tracer core over exact fixed-point arithmetic.
//!
//! Geometry, colors and ray parameters are signed 16.16 fixed-point numbers
//! (see [`math::fixed`]), so every intersection, shading and accumulation
//! step has an exact mathematical description that its contract states.
//! Randomness (pixel jitter, diffuse scattering, participating media) is
//! drawn from a caller-supplied generator handle.

use vstd::prelude::*;

pub mod math;
pub mod material;
pub mod rng;
pub mod hittable;
pub mod camera;
pub mod progressive;
pub mod shape;
pub mod scene;

verus! {

use crate::math::color::Color;
use crate::math::fixed::QUARTER;

/// The pixel of the gradient image at flat index `k` (row-major, rows
/// emitted top to bottom): red is the column's fraction of the width,
/// green is the bottom-up row's fraction of the height, blue is 1/4.
pub open spec fn pattern_at(width: int, height: int, k: int) -> Color
    recommends
        width >= 2,
        height >= 2,
{
    let row = k / width;
    let x = k % width;
    Color(
        ((x * 65536) / (width - 1)) as i64,
        (((height - 1 - row) * 65536) / (height - 1)) as i64,
        QUARTER as i64,
    )
}

/// A simple gradient image: red grows with `x`, green with `y` (rows are
/// emitted top to bottom), blue is constant.
pub fn test_pattern(width: usize, height: usize) -> (arr: Vec<Color>)
    requires
        2 <= width <= 0x10000,
        2 <= height <= 0x10000,
    ensures
        arr@.len() == width * height,
        forall|k: int|
            0 <= k < arr@.len() ==> #[trigger] arr@[k] == pattern_at(
                width as int,
                height as int,
                k,
            ),
{
    let mut arr: Vec<Color> = Vec::new();

    let mut yi: usize = 0;
    while yi < height
        invariant
            2 <= width <= 0x10000,
            2 <= height <= 0x10000,
            yi <= height,
            arr@.len() == yi * width,
            forall|k: int|
                0 <= k < arr@.len() ==> #[trigger] arr@[k] == pattern_at(
                    width as int,
                    height as int,
                    k,
                ),
        decreases height - yi,
    {
        let y: usize = height - 1 - yi;
        let mut x: usize = 0;
        while x < width
            invariant
                2 <= width <= 0x10000,
                2 <= height <= 0x10000,
                yi < height,
                y == height - 1 - yi,
                x <= width,
                arr@.len() == yi * width + x,
                forall|k: int|
                    0 <= k < arr@.len() ==> #[trigger] arr@[k] == pattern_at(
                        width as int,
                        height as int,
                        k,
                    ),
            decreases width - x,
        {
            let r: i64 = ((x as u64) * 65536 / ((width - 1) as u64)) as i64;
            let g: i64 = ((y as u64) * 65536 / ((height - 1) as u64)) as i64;
            let b: i64 = QUARTER;
            proof {
                lemma_pattern_channel(x as int, width as int);
                lemma_pattern_channel(y as int, height as int);
            }
            arr.push(Color(r, g, b));
            proof {
                let k = arr@.len() - 1;
                vstd::arithmetic::div_mod::lemma_fundamental_div_mod_converse(
                    k,
                    width as int,
                    yi as int,
                    x as int,
                );
                assert(arr@[k] == pattern_at(width as int, height as int, k));
            }
            x = x + 1;
        }
        proof {
            assert((yi + 1) * width == yi * width + width) by (nonlinear_arith);
        }
        yi = yi + 1;
    }

    proof {
        assert(height * width == width * height) by (nonlinear_arith);
    }
    arr
}

/// One gradient channel stays in the fixed-point unit range.
proof fn lemma_pattern_channel(i: int, extent: int)
    requires
        0 <= i < extent,
        2 <= extent <= 0x10000,
    ensures
        0 <= (i * 65536) / (extent - 1) <= 0x10_0000_0000,
{
    assert(0 <= (i * 65536) / (extent - 1) <= i * 65536) by (nonlinear_arith)
        requires
            0 <= i,
            extent >= 2,
    ;
    assert(i * 65536 <= 0x10_0000_0000) by (nonlinear_arith)
        requires
            0 <= i < 0x10_0000,
    ;
}

} // verus!
