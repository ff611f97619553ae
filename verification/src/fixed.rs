//! Fixed-point scalars.
//!
//! A scalar is an `i64` holding a real quantity times `FP_ONE`. One device
//! pixel of length, and a scale factor of one, are both `FP_ONE` units.

use vstd::prelude::*;

verus! {

/// Units per device pixel (and per 1.0 of a scale factor).
pub const FP_ONE: i64 = 1000;

/// Largest magnitude a coordinate may have, in fixed-point units
/// (one million device pixels: far beyond any real surface).
pub const COORD_LIMIT: i64 = 1_000_000_000;

/// Largest magnitude a scale factor may have, in fixed-point units
/// (a thousandfold device-pixel ratio).
pub const SCALE_LIMIT: i64 = 1_000_000;

/// A value clamped into `[-bound, bound]`.
pub open spec fn clamp_spec(v: int, bound: int) -> int {
    if v < -bound {
        -bound
    } else if v > bound {
        bound
    } else {
        v
    }
}

/// Clamp `v` into `[-bound, bound]`.
pub fn clamp_mag(v: i64, bound: i64) -> (r: i64)
    requires
        0 <= bound,
    ensures
        r == clamp_spec(v as int, bound as int),
{
    if v < -bound {
        -bound
    } else if v > bound {
        bound
    } else {
        v
    }
}

/// Truncating division of `v` by `FP_ONE` (rounds toward zero, as the
/// host platforms do when they narrow a product of fixed-point values).
pub open spec fn div_fp_spec(v: int) -> int {
    if v >= 0 {
        v / (FP_ONE as int)
    } else {
        -((-v) / (FP_ONE as int))
    }
}

/// The product of two fixed-point scalars, still in fixed-point units,
/// rounded toward zero.
pub open spec fn fp_mul_spec(a: int, b: int) -> int {
    div_fp_spec(a * b)
}

/// Multiply two fixed-point scalars exactly in a wide intermediate, then
/// scale back down, saturating at `bound`.
pub fn fp_mul_clamped(a: i64, b: i64, bound: i64) -> (r: i64)
    requires
        0 <= bound,
    ensures
        r == clamp_spec(fp_mul_spec(a as int, b as int), bound as int),
{
    proof {
        let m: int = 0x8000_0000_0000_0000;
        assert(-(m * m) <= (a as int) * (b as int) <= m * m) by (nonlinear_arith)
            requires
                -m <= a as int <= m,
                -m <= b as int <= m,
        ;
    }
    let p: i128 = (a as i128) * (b as i128);
    let q: i128 = if p >= 0 {
        p / (FP_ONE as i128)
    } else {
        -((-p) / (FP_ONE as i128))
    };
    let lo: i128 = -(bound as i128);
    let hi: i128 = bound as i128;
    if q < lo {
        -bound
    } else if q > hi {
        bound
    } else {
        q as i64
    }
}

} // verus!
