//! Fixed-point sine and cosine.
//!
//! Angles are in fixed-point radians (`FP_ONE` units per radian). The
//! angle is reduced into one period, folded into the first quadrant, and
//! evaluated there by a truncated Taylor polynomial — all in exact integer
//! arithmetic, so the library's rotation semantics are deterministic on
//! every host. Results are clamped into `[-FP_ONE, FP_ONE]`.

use vstd::prelude::*;
use crate::fixed::{clamp_mag, clamp_spec, FP_ONE};

verus! {

/// Pi in fixed-point units (rounded).
pub const PI_FP: i64 = 3142;

/// Two pi in fixed-point units (rounded).
pub const TWO_PI_FP: i64 = 6283;

/// Half pi in fixed-point units (rounded down).
pub const HALF_PI_FP: i64 = 1571;

/// Largest angle magnitude taken seriously; anything beyond is clamped
/// before reduction (about a thousand radians).
pub const ANGLE_LIMIT: i64 = 1_000_000;

/// `TWO_PI_FP * 160`: a period multiple above `ANGLE_LIMIT`, used to make
/// the operand of the reducing remainder nonnegative.
pub const PERIOD_SHIFT: i64 = 1_005_280;

/// The angle clamped, then brought into `(-TWO_PI_FP/2, TWO_PI_FP/2]`
/// by a remainder: the representative of the same rotation within one
/// period, between `-3141` and `3141`.
pub open spec fn reduce_angle_spec(a: int) -> int {
    let c = clamp_spec(a, ANGLE_LIMIT as int);
    let m = (c + PERIOD_SHIFT as int) % (TWO_PI_FP as int);
    if m > 3141 {
        m - TWO_PI_FP as int
    } else {
        m
    }
}

/// Taylor cosine on the first quadrant (`0 <= x <= HALF_PI_FP`), in
/// fixed-point units: `1 - x^2/2 + x^4/24 - x^6/720`.
pub open spec fn cos_core_spec(x: int) -> int {
    let x2 = x * x;
    let x4 = x2 * x2;
    let x6 = x4 * x2;
    1000 - x2 / 2000 + x4 / 24_000_000_000 - x6 / 720_000_000_000_000_000
}

/// Taylor sine on the first quadrant, in fixed-point units:
/// `x - x^3/6 + x^5/120 - x^7/5040`.
pub open spec fn sin_core_spec(x: int) -> int {
    let x2 = x * x;
    let x3 = x2 * x;
    let x5 = x3 * x2;
    let x7 = x5 * x2;
    x - x3 / 6_000_000 + x5 / 120_000_000_000_000 - x7 / 5_040_000_000_000_000_000_000
}

/// The fixed-point cosine of an angle: reduced, folded (cosine is even;
/// past the quadrant, `cos x = -cos(pi - x)`), evaluated, clamped.
pub open spec fn cos_fp_spec(a: int) -> int {
    let r = reduce_angle_spec(a);
    let b = if r < 0 {
        -r
    } else {
        r
    };
    let c = if b <= HALF_PI_FP as int {
        cos_core_spec(b)
    } else {
        -cos_core_spec(PI_FP as int - b)
    };
    clamp_spec(c, FP_ONE as int)
}

/// The fixed-point sine of an angle: reduced, folded (sine is odd; past
/// the quadrant, `sin x = sin(pi - x)`), evaluated, clamped.
pub open spec fn sin_fp_spec(a: int) -> int {
    let r = reduce_angle_spec(a);
    let b = if r < 0 {
        -r
    } else {
        r
    };
    let s0 = if b <= HALF_PI_FP as int {
        sin_core_spec(b)
    } else {
        sin_core_spec(PI_FP as int - b)
    };
    let s = if r < 0 {
        -s0
    } else {
        s0
    };
    clamp_spec(s, FP_ONE as int)
}

/// Reduce an angle into one period.
fn reduce_angle(a: i64) -> (r: i64)
    ensures
        r == reduce_angle_spec(a as int),
        -3141 <= r <= 3141,
{
    let c: i64 = clamp_mag(a, ANGLE_LIMIT);
    let shifted: u64 = (c + PERIOD_SHIFT) as u64;
    let m: u64 = shifted % (TWO_PI_FP as u64);
    proof {
        vstd::arithmetic::div_mod::lemma_mod_multiples_vanish(
            160,
            c as int,
            TWO_PI_FP as int,
        );
        assert((TWO_PI_FP as int) * 160 + c as int == c as int + PERIOD_SHIFT as int);
        vstd::arithmetic::div_mod::lemma_mod_bound(
            c as int + PERIOD_SHIFT as int,
            TWO_PI_FP as int,
        );
    }
    if m > 3141 {
        (m as i64) - TWO_PI_FP
    } else {
        m as i64
    }
}

/// Taylor cosine on the first quadrant.
fn cos_core(x: i64) -> (r: i64)
    requires
        0 <= x <= HALF_PI_FP,
    ensures
        r == cos_core_spec(x as int),
        -2000 <= r <= 2000,
{
    proof {
        assert(0 <= x * x <= 2_468_041) by (nonlinear_arith)
            requires
                0 <= x as int <= 1571,
        ;
    }
    let x2: i64 = x * x;
    proof {
        assert(0 <= (x2 as int) * (x2 as int) <= 2_468_041 * 2_468_041) by (nonlinear_arith)
            requires
                0 <= x2 as int <= 2_468_041,
        ;
    }
    let x4: i64 = x2 * x2;
    proof {
        assert(0 <= (x4 as int) * (x2 as int) <= (2_468_041 * 2_468_041) * 2_468_041)
            by (nonlinear_arith)
            requires
                0 <= x4 as int <= 2_468_041 * 2_468_041,
                0 <= x2 as int <= 2_468_041,
        ;
    }
    let x6: i128 = (x4 as i128) * (x2 as i128);
    proof {
        vstd::arithmetic::div_mod::lemma_div_is_ordered(0, x6 as int, 720_000_000_000_000_000);
        vstd::arithmetic::div_mod::lemma_div_is_ordered(
            x6 as int,
            (2_468_041int * 2_468_041) * 2_468_041,
            720_000_000_000_000_000,
        );
        vstd::arithmetic::div_mod::lemma_div_is_ordered(0, x2 as int, 2000);
        vstd::arithmetic::div_mod::lemma_div_is_ordered(x2 as int, 2_468_041int, 2000);
        vstd::arithmetic::div_mod::lemma_div_is_ordered(0, x4 as int, 24_000_000_000);
        vstd::arithmetic::div_mod::lemma_div_is_ordered(
            x4 as int,
            2_468_041int * 2_468_041,
            24_000_000_000,
        );
    }
    let t6: i64 = (x6 / 720_000_000_000_000_000) as i64;
    1000 - x2 / 2000 + x4 / 24_000_000_000 - t6
}

/// Taylor sine on the first quadrant.
fn sin_core(x: i64) -> (r: i64)
    requires
        0 <= x <= HALF_PI_FP,
    ensures
        r == sin_core_spec(x as int),
        -2000 <= r <= 2000,
{
    proof {
        assert(0 <= x * x <= 2_468_041) by (nonlinear_arith)
            requires
                0 <= x as int <= 1571,
        ;
    }
    let x2: i64 = x * x;
    proof {
        assert(0 <= (x2 as int) * (x as int) <= 2_468_041 * 1571) by (nonlinear_arith)
            requires
                0 <= x2 as int <= 2_468_041,
                0 <= x as int <= 1571,
        ;
    }
    let x3: i64 = x2 * x;
    proof {
        assert(0 <= (x3 as int) * (x2 as int) <= (2_468_041 * 1571) * 2_468_041)
            by (nonlinear_arith)
            requires
                0 <= x3 as int <= 2_468_041 * 1571,
                0 <= x2 as int <= 2_468_041,
        ;
    }
    let x5: i64 = x3 * x2;
    proof {
        assert(0 <= (x5 as int) * (x2 as int) <= ((2_468_041 * 1571) * 2_468_041) * 2_468_041)
            by (nonlinear_arith)
            requires
                0 <= x5 as int <= (2_468_041 * 1571) * 2_468_041,
                0 <= x2 as int <= 2_468_041,
        ;
    }
    let x7: i128 = (x5 as i128) * (x2 as i128);
    proof {
        vstd::arithmetic::div_mod::lemma_div_is_ordered(
            0,
            x7 as int,
            5_040_000_000_000_000_000_000,
        );
        vstd::arithmetic::div_mod::lemma_div_is_ordered(
            x7 as int,
            ((2_468_041int * 1571) * 2_468_041) * 2_468_041,
            5_040_000_000_000_000_000_000,
        );
        vstd::arithmetic::div_mod::lemma_div_is_ordered(0, x3 as int, 6_000_000);
        vstd::arithmetic::div_mod::lemma_div_is_ordered(x3 as int, 2_468_041int * 1571, 6_000_000);
        vstd::arithmetic::div_mod::lemma_div_is_ordered(0, x5 as int, 120_000_000_000_000);
        vstd::arithmetic::div_mod::lemma_div_is_ordered(
            x5 as int,
            (2_468_041int * 1571) * 2_468_041,
            120_000_000_000_000,
        );
    }
    let t7: i64 = (x7 / 5_040_000_000_000_000_000_000i128) as i64;
    x - x3 / 6_000_000 + x5 / 120_000_000_000_000 - t7
}

/// The cosine and sine of an angle in fixed-point radians, as a unit
/// direction for `Transform2D::rotate_by`. Both components are within
/// `[-FP_ONE, FP_ONE]`.
pub fn cos_sin(angle: i64) -> (r: (i64, i64))
    ensures
        r.0 == cos_fp_spec(angle as int),
        r.1 == sin_fp_spec(angle as int),
        -FP_ONE <= r.0 <= FP_ONE,
        -FP_ONE <= r.1 <= FP_ONE,
{
    let red: i64 = reduce_angle(angle);
    let b: i64 = if red < 0 {
        -red
    } else {
        red
    };
    let (c0, s0): (i64, i64) = if b <= HALF_PI_FP {
        (cos_core(b), sin_core(b))
    } else {
        (-cos_core(PI_FP - b), sin_core(PI_FP - b))
    };
    let s1: i64 = if red < 0 {
        -s0
    } else {
        s0
    };
    (clamp_mag(c0, FP_ONE), clamp_mag(s1, FP_ONE))
}

} // verus!
