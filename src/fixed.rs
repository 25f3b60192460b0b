use vstd::prelude::*;

verus! {

/// `x` saturated to the range of `i64`.
pub open spec fn sat_i64(x: int) -> int {
    if x > i64::MAX {
        i64::MAX as int
    } else if x < i64::MIN {
        i64::MIN as int
    } else {
        x
    }
}

/// `x` limited to the closed range `[lo, hi]`.
pub open spec fn clamp(x: int, lo: int, hi: int) -> int {
    if x <= lo {
        lo
    } else if x >= hi {
        hi
    } else {
        x
    }
}

/// `x` divided by `d`, rounded toward zero.
pub open spec fn div_trunc(x: int, d: int) -> int {
    if x >= 0 {
        x / d
    } else {
        -((-x) / d)
    }
}

/// Saturates a wide intermediate result to `i64`.
pub fn saturate_i64(x: i128) -> (r: i64)
    ensures
        r == sat_i64(x as int),
{
    if x > i64::MAX as i128 {
        i64::MAX
    } else if x < i64::MIN as i128 {
        i64::MIN
    } else {
        x as i64
    }
}

/// The exact product of a signed rate and a time step.
pub fn mul_rate(a: i64, b: u32) -> (r: i128)
    ensures
        r == a as int * b as int,
        -0x8000_0000_0000_0000 * 0x1_0000_0000 <= r <= 0x8000_0000_0000_0000 * 0x1_0000_0000,
{
    let wa = a as i128;
    let wb = b as i128;
    proof {
        assert(-0x8000_0000_0000_0000 * 0x1_0000_0000 <= wa * wb <= 0x8000_0000_0000_0000 * 0x1_0000_0000)
            by (nonlinear_arith)
            requires
                -0x8000_0000_0000_0000 <= wa <= 0x8000_0000_0000_0000,
                0 <= wb <= 0x1_0000_0000,
        ;
    }
    wa * wb
}

/// `x` divided by `d` and rounded toward zero, for a positive `d`.
pub fn div_toward_zero(x: i64, d: i64) -> (r: i128)
    requires
        d > 0,
    ensures
        r == div_trunc(x as int, d as int),
{
    let wx = x as i128;
    let wd = d as i128;
    if wx >= 0 {
        wx / wd
    } else {
        let n: i128 = -wx;
        -(n / wd)
    }
}

/// `a + b`, or `u64::MAX` where the sum does not fit.
pub fn add_ticks(a: u64, b: u64) -> (r: u64)
    ensures
        r == if a as int + b as int > u64::MAX { u64::MAX as int } else { a as int + b as int },
{
    if a > u64::MAX - b {
        u64::MAX
    } else {
        a + b
    }
}

} // verus!

verus! {

/// `n` pixels in sub-pixels, for a pixel count within 2^32 either way.
pub fn subpixels(n: i128) -> (r: i128)
    requires
        -0x1_0000_0000 <= n <= 0x1_0000_0000,
    ensures
        r == crate::geometry::px(n as int),
{
    proof {
        assert(-0x1_0000_0000 * 1_000_000_000_000 <= n * 1_000_000_000_000 <= 0x1_0000_0000 * 1_000_000_000_000)
            by (nonlinear_arith)
            requires
                -0x1_0000_0000 <= n <= 0x1_0000_0000,
        ;
    }
    n * 1_000_000_000_000
}

} // verus!
