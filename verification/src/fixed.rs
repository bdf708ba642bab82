//! The units of time and of level, and fixed-point arithmetic in millionths,
//! saturating at the range of `i64`.

use vstd::prelude::*;

verus! {

/// The fixed-point representation of 1.0.
pub const ONE: i64 = 1_000_000;

/// Ticks per second: the rate at which samples are produced.
pub const SAMPLE_RATE: u32 = 48_000;

/// `x` brought into the range of `i64`.
pub open spec fn clip(x: int) -> int {
    if x > i64::MAX {
        i64::MAX as int
    } else if x < i64::MIN {
        i64::MIN as int
    } else {
        x
    }
}

/// `x` divided by `ONE`, rounded toward zero.
pub open spec fn scale_down(x: int) -> int {
    if x >= 0 {
        x / (ONE as int)
    } else {
        -((-x) / (ONE as int))
    }
}

/// The fixed-point product of `a` and `b`: the exact product, brought back to
/// millionths by rounding toward zero, then clipped.
pub open spec fn fx_mul(a: int, b: int) -> int {
    clip(scale_down(a * b))
}

/// The product of two `i64` values lies within `i128`.
pub proof fn lemma_product_bounds(a: i64, b: i64)
    ensures
        -0x4000_0000_0000_0000_0000_0000_0000_0000 <= a * b
            <= 0x4000_0000_0000_0000_0000_0000_0000_0000,
{
    assert(-0x4000_0000_0000_0000_0000_0000_0000_0000 <= a * b
        <= 0x4000_0000_0000_0000_0000_0000_0000_0000) by (nonlinear_arith)
        requires
            -0x8000_0000_0000_0000 <= a <= 0x7fff_ffff_ffff_ffff,
            -0x8000_0000_0000_0000 <= b <= 0x7fff_ffff_ffff_ffff,
    ;
}

/// Clips a wide value to `i64`.
pub fn saturate(x: i128) -> (r: i64)
    ensures
        r == clip(x as int),
{
    if x > i64::MAX as i128 {
        i64::MAX
    } else if x < i64::MIN as i128 {
        i64::MIN
    } else {
        x as i64
    }
}

/// Multiplies two fixed-point values.
pub fn times(a: i64, b: i64) -> (r: i64)
    ensures
        r == fx_mul(a as int, b as int),
{
    proof {
        lemma_product_bounds(a, b);
    }
    let wide: i128 = (a as i128) * (b as i128);
    let scaled: i128 = wide / (ONE as i128);
    saturate(scaled)
}

} // verus!
