//! Fixed-point arithmetic.
//!
//! Every length, velocity and duration of the simulation is an `i64` that
//! counts millionths: of a world unit, of a world unit per second, of a
//! second. Products are taken exactly, brought back to millionths by a
//! division that rounds toward zero, and only a value that is stored is cut
//! to the range of `i64`.

use vstd::prelude::*;

verus! {

/// The number of steps in one world unit, and in one second.
pub const SCALE: i64 = 1_000_000;

/// The quotient `p / d`, rounded toward zero, for a positive `d`.
pub open spec fn trunc_div(p: int, d: int) -> int {
    if p >= 0 {
        p / d
    } else {
        -((-p) / d)
    }
}

/// The product of two fixed-point numbers, as a fixed-point number.
pub open spec fn scaled(a: int, b: int) -> int {
    trunc_div(a * b, SCALE as int)
}

/// The value of `i64` that lies nearest to `v`.
pub open spec fn saturated(v: int) -> int {
    if v < i64::MIN {
        i64::MIN as int
    } else if v > i64::MAX {
        i64::MAX as int
    } else {
        v
    }
}

/// The distance between two coordinates.
pub open spec fn distance(a: int, b: int) -> int {
    if a >= b {
        a - b
    } else {
        b - a
    }
}

/// A product is bounded by the product of the bounds of its factors.
pub proof fn lemma_product_bound(a: int, b: int, m: int, n: int)
    by (nonlinear_arith)
    requires
        -m <= a <= m,
        -n <= b <= n,
    ensures
        -(m * n) <= a * b <= m * n,
{
}

/// Rounding toward zero never moves a quotient away from zero, and keeps
/// its sign.
pub proof fn lemma_trunc_div_bound(p: int, d: int, m: int)
    by (nonlinear_arith)
    requires
        d >= 1,
        m >= 0,
        -m <= p <= m,
    ensures
        -m <= trunc_div(p, d) <= m,
        p >= 0 ==> trunc_div(p, d) >= 0,
        p <= 0 ==> trunc_div(p, d) <= 0,
        p >= d ==> trunc_div(p, d) >= 1,
        p <= -d ==> trunc_div(p, d) <= -1,
        -d < p < d ==> trunc_div(p, d) == 0,
{
}

/// Divides by a positive number, rounding toward zero.
pub(crate) fn div_toward_zero(p: i128, d: i128) -> (r: i128)
    requires
        d >= 1,
        p > i128::MIN,
    ensures
        r == trunc_div(p as int, d as int),
{
    proof {
        lemma_trunc_div_bound(p as int, d as int, i128::MAX as int);
    }
    if p >= 0 {
        p / d
    } else {
        -((-p) / d)
    }
}

/// Multiplies two fixed-point numbers. The result is exact but for the
/// rounding toward zero, and may lie outside `i64`.
pub fn mul_scaled(a: i64, b: i64) -> (r: i128)
    ensures
        r == scaled(a as int, b as int),
        -0x4000_0000_0000_0000_0000_0000_0000_0000 <= r <= 0x4000_0000_0000_0000_0000_0000_0000_0000,
{
    proof {
        lemma_product_bound(a as int, b as int, 0x8000_0000_0000_0000, 0x8000_0000_0000_0000);
        lemma_trunc_div_bound(a * b, SCALE as int, 0x4000_0000_0000_0000_0000_0000_0000_0000);
    }
    let p: i128 = (a as i128) * (b as i128);
    div_toward_zero(p, SCALE as i128)
}

/// Cuts a wide value to the range of `i64`.
pub fn saturate(v: i128) -> (r: i64)
    ensures
        r == saturated(v as int),
{
    if v < i64::MIN as i128 {
        i64::MIN
    } else if v > i64::MAX as i128 {
        i64::MAX
    } else {
        v as i64
    }
}

/// Adds a wide displacement to a stored coordinate, and stores the sum.
pub(crate) fn offset_by(base: i64, step: i128) -> (r: i64)
    requires
        -0x4000_0000_0000_0000_0000_0000_0000_0000 <= step <= 0x4000_0000_0000_0000_0000_0000_0000_0000,
    ensures
        r == saturated(base + step),
{
    saturate(base as i128 + step)
}

} // verus!
