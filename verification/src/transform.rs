//! The affine 2D camera transform, in fixed-point arithmetic.
//!
//! A transform maps a drawing-space point `p` to `M * p + t`, where `M` is
//! a 2x2 fixed-point matrix and `t` a fixed-point translation. Builder
//! operations compose a new step *after* the existing transform, so
//! `t.translate(-pivot); t.scale_by(k); t.translate(pivot);` scales around
//! `pivot`, and repeated pivoted operations accumulate correctly. Every
//! operation is total: results are clamped into fixed bounds, so no input
//! can produce an unrepresentable transform.

use vstd::prelude::*;
use crate::fixed::{clamp_spec, fp_mul_clamped, fp_mul_spec, FP_ONE, COORD_LIMIT};
use crate::geom::Point;

verus! {

/// Largest magnitude of any transform entry (matrix or translation).
pub const MAT_LIMIT: i64 = 1_000_000_000;

/// Saturation bound wide enough that products of in-range entries are
/// never clamped: it only guards the arithmetic itself.
pub const PROD_LIMIT: i64 = 2_000_000_000_000_000_000;

/// A fixed-point product of values bounded by `m` and `n` is bounded by
/// `m * n` (the scaling division only shrinks magnitudes).
pub proof fn lemma_fp_mul_bound(a: int, b: int, m: int, n: int)
    requires
        -m <= a <= m,
        -n <= b <= n,
        0 <= m,
        0 <= n,
    ensures
        -(m * n) <= fp_mul_spec(a, b) <= m * n,
{
    assert(-(m * n) <= a * b <= m * n) by (nonlinear_arith)
        requires
            -m <= a <= m,
            -n <= b <= n,
            0 <= m,
            0 <= n,
    ;
    let p = a * b;
    if p >= 0 {
        vstd::arithmetic::div_mod::lemma_div_is_ordered(p, m * n, FP_ONE as int);
        vstd::arithmetic::div_mod::lemma_div_is_ordered(0, p, FP_ONE as int);
        assert((m * n) / (FP_ONE as int) <= m * n) by (nonlinear_arith)
            requires
                0 <= m * n,
        ;
    } else {
        vstd::arithmetic::div_mod::lemma_div_is_ordered(-p, m * n, FP_ONE as int);
        vstd::arithmetic::div_mod::lemma_div_is_ordered(0, -p, FP_ONE as int);
        assert((m * n) / (FP_ONE as int) <= m * n) by (nonlinear_arith)
            requires
                0 <= m * n,
        ;
    }
}

/// An affine 2D transform: translation, scale and rotation combined.
/// Applied as `(x, y) -> (m11 x + m12 y + tx, m21 x + m22 y + ty)`.
#[derive(Clone, Copy, Debug, PartialEq, Eq, Structural)]
pub struct Transform2D {
    pub m11: i64,
    pub m12: i64,
    pub m21: i64,
    pub m22: i64,
    pub tx: i64,
    pub ty: i64,
}

/// What `translate` does: shift the translation column by `v`.
pub open spec fn translate_spec(t: Transform2D, v: Point) -> Transform2D {
    Transform2D {
        tx: clamp_spec(t.tx + v.x, MAT_LIMIT as int) as i64,
        ty: clamp_spec(t.ty + v.y, MAT_LIMIT as int) as i64,
        ..t
    }
}

/// What `scale_by` does: every entry multiplied by the fixed-point
/// factor `k`.
pub open spec fn scale_spec(t: Transform2D, k: int) -> Transform2D {
    Transform2D {
        m11: clamp_spec(fp_mul_spec(t.m11 as int, k), MAT_LIMIT as int) as i64,
        m12: clamp_spec(fp_mul_spec(t.m12 as int, k), MAT_LIMIT as int) as i64,
        m21: clamp_spec(fp_mul_spec(t.m21 as int, k), MAT_LIMIT as int) as i64,
        m22: clamp_spec(fp_mul_spec(t.m22 as int, k), MAT_LIMIT as int) as i64,
        tx: clamp_spec(fp_mul_spec(t.tx as int, k), MAT_LIMIT as int) as i64,
        ty: clamp_spec(fp_mul_spec(t.ty as int, k), MAT_LIMIT as int) as i64,
    }
}

/// One row of a rotation composition: `cos * a - sin * b`.
pub open spec fn rot_x_spec(c: int, s: int, a: int, b: int) -> int {
    clamp_spec(fp_mul_spec(c, a) - fp_mul_spec(s, b), MAT_LIMIT as int)
}

/// The other row of a rotation composition: `sin * a + cos * b`.
pub open spec fn rot_y_spec(c: int, s: int, a: int, b: int) -> int {
    clamp_spec(fp_mul_spec(s, a) + fp_mul_spec(c, b), MAT_LIMIT as int)
}

/// What `rotate_by` does: the rotation matrix for the unit direction
/// `(cos, sin)` multiplied onto the left of the whole transform.
pub open spec fn rotate_spec(t: Transform2D, c: int, s: int) -> Transform2D {
    Transform2D {
        m11: rot_x_spec(c, s, t.m11 as int, t.m21 as int) as i64,
        m12: rot_x_spec(c, s, t.m12 as int, t.m22 as int) as i64,
        m21: rot_y_spec(c, s, t.m11 as int, t.m21 as int) as i64,
        m22: rot_y_spec(c, s, t.m12 as int, t.m22 as int) as i64,
        tx: rot_x_spec(c, s, t.tx as int, t.ty as int) as i64,
        ty: rot_y_spec(c, s, t.tx as int, t.ty as int) as i64,
    }
}

/// A pivoted scale: `translate(pivot) . scale(k) . translate(-pivot)`,
/// composed onto the existing transform.
pub open spec fn pivoted_scale_spec(t: Transform2D, pivot: Point, k: int) -> Transform2D {
    translate_spec(scale_spec(translate_spec(t, neg_spec(pivot)), k), pivot)
}

/// A pivoted rotation: `translate(pivot) . rotate(c, s) . translate(-pivot)`,
/// composed onto the existing transform.
pub open spec fn pivoted_rotate_spec(t: Transform2D, pivot: Point, c: int, s: int) -> Transform2D {
    translate_spec(rotate_spec(translate_spec(t, neg_spec(pivot)), c, s), pivot)
}

/// A point mirrored through the origin.
pub open spec fn neg_spec(p: Point) -> Point {
    Point { x: -p.x as i64, y: -p.y as i64 }
}

/// Where the transform sends a point.
pub open spec fn apply_spec(t: Transform2D, p: Point) -> Point {
    Point {
        x: clamp_spec(
            fp_mul_spec(t.m11 as int, p.x as int) + fp_mul_spec(t.m12 as int, p.y as int)
                + t.tx as int,
            COORD_LIMIT as int,
        ) as i64,
        y: clamp_spec(
            fp_mul_spec(t.m21 as int, p.x as int) + fp_mul_spec(t.m22 as int, p.y as int)
                + t.ty as int,
            COORD_LIMIT as int,
        ) as i64,
    }
}

impl Transform2D {
    /// Every entry within the representable bound.
    pub open spec fn wf(self) -> bool {
        &&& -MAT_LIMIT <= self.m11 <= MAT_LIMIT
        &&& -MAT_LIMIT <= self.m12 <= MAT_LIMIT
        &&& -MAT_LIMIT <= self.m21 <= MAT_LIMIT
        &&& -MAT_LIMIT <= self.m22 <= MAT_LIMIT
        &&& -MAT_LIMIT <= self.tx <= MAT_LIMIT
        &&& -MAT_LIMIT <= self.ty <= MAT_LIMIT
    }

    /// The identity transform.
    pub open spec fn identity_spec() -> Transform2D {
        Transform2D { m11: FP_ONE, m12: 0, m21: 0, m22: FP_ONE, tx: 0, ty: 0 }
    }

    /// The no-op transform: what "zoom to actual size" resets to.
    pub fn identity() -> (r: Transform2D)
        ensures
            r == Transform2D::identity_spec(),
            r.wf(),
    {
        Transform2D { m11: FP_ONE, m12: 0, m21: 0, m22: FP_ONE, tx: 0, ty: 0 }
    }

    /// Compose a translation by `v` after this transform.
    pub fn translate(&mut self, v: Point)
        requires
            old(self).wf(),
            v.wf(),
        ensures
            *final(self) == translate_spec(*old(self), v),
            final(self).wf(),
    {
        let tx: i64 = self.tx + v.x;
        let ty: i64 = self.ty + v.y;
        self.tx = crate::fixed::clamp_mag(tx, MAT_LIMIT);
        self.ty = crate::fixed::clamp_mag(ty, MAT_LIMIT);
    }

    /// Compose a uniform scale by the fixed-point factor `k` after this
    /// transform.
    pub fn scale_by(&mut self, k: i64)
        requires
            old(self).wf(),
        ensures
            *final(self) == scale_spec(*old(self), k as int),
            final(self).wf(),
    {
        self.m11 = fp_mul_clamped(self.m11, k, MAT_LIMIT);
        self.m12 = fp_mul_clamped(self.m12, k, MAT_LIMIT);
        self.m21 = fp_mul_clamped(self.m21, k, MAT_LIMIT);
        self.m22 = fp_mul_clamped(self.m22, k, MAT_LIMIT);
        self.tx = fp_mul_clamped(self.tx, k, MAT_LIMIT);
        self.ty = fp_mul_clamped(self.ty, k, MAT_LIMIT);
    }

    /// Compose a rotation by the unit direction `(c, s)` — the cosine and
    /// sine of the angle, in fixed-point units — after this transform.
    pub fn rotate_by(&mut self, c: i64, s: i64)
        requires
            old(self).wf(),
            -FP_ONE <= c <= FP_ONE,
            -FP_ONE <= s <= FP_ONE,
        ensures
            *final(self) == rotate_spec(*old(self), c as int, s as int),
            final(self).wf(),
    {
        proof {
            lemma_fp_mul_bound(c as int, old(self).m11 as int, FP_ONE as int, MAT_LIMIT as int);
            lemma_fp_mul_bound(c as int, old(self).m12 as int, FP_ONE as int, MAT_LIMIT as int);
            lemma_fp_mul_bound(c as int, old(self).m21 as int, FP_ONE as int, MAT_LIMIT as int);
            lemma_fp_mul_bound(c as int, old(self).m22 as int, FP_ONE as int, MAT_LIMIT as int);
            lemma_fp_mul_bound(c as int, old(self).tx as int, FP_ONE as int, MAT_LIMIT as int);
            lemma_fp_mul_bound(c as int, old(self).ty as int, FP_ONE as int, MAT_LIMIT as int);
            lemma_fp_mul_bound(s as int, old(self).m11 as int, FP_ONE as int, MAT_LIMIT as int);
            lemma_fp_mul_bound(s as int, old(self).m12 as int, FP_ONE as int, MAT_LIMIT as int);
            lemma_fp_mul_bound(s as int, old(self).m21 as int, FP_ONE as int, MAT_LIMIT as int);
            lemma_fp_mul_bound(s as int, old(self).m22 as int, FP_ONE as int, MAT_LIMIT as int);
            lemma_fp_mul_bound(s as int, old(self).tx as int, FP_ONE as int, MAT_LIMIT as int);
            lemma_fp_mul_bound(s as int, old(self).ty as int, FP_ONE as int, MAT_LIMIT as int);
        }
        let ca: i64 = fp_mul_clamped(c, self.m11, PROD_LIMIT);
        let cb: i64 = fp_mul_clamped(c, self.m12, PROD_LIMIT);
        let cc: i64 = fp_mul_clamped(c, self.m21, PROD_LIMIT);
        let cd: i64 = fp_mul_clamped(c, self.m22, PROD_LIMIT);
        let ce: i64 = fp_mul_clamped(c, self.tx, PROD_LIMIT);
        let cf: i64 = fp_mul_clamped(c, self.ty, PROD_LIMIT);
        let sa: i64 = fp_mul_clamped(s, self.m11, PROD_LIMIT);
        let sb: i64 = fp_mul_clamped(s, self.m12, PROD_LIMIT);
        let sc: i64 = fp_mul_clamped(s, self.m21, PROD_LIMIT);
        let sd: i64 = fp_mul_clamped(s, self.m22, PROD_LIMIT);
        let se: i64 = fp_mul_clamped(s, self.tx, PROD_LIMIT);
        let sf: i64 = fp_mul_clamped(s, self.ty, PROD_LIMIT);
        self.m11 = crate::fixed::clamp_mag(ca - sc, MAT_LIMIT);
        self.m12 = crate::fixed::clamp_mag(cb - sd, MAT_LIMIT);
        self.m21 = crate::fixed::clamp_mag(sa + cc, MAT_LIMIT);
        self.m22 = crate::fixed::clamp_mag(sb + cd, MAT_LIMIT);
        self.tx = crate::fixed::clamp_mag(ce - sf, MAT_LIMIT);
        self.ty = crate::fixed::clamp_mag(se + cf, MAT_LIMIT);
    }

    /// Scale by `k` around `pivot`: translate the pivot to the origin,
    /// scale, translate back — composed onto the existing transform, so
    /// repeated pivoted operations accumulate.
    pub fn pivoted_scale(&mut self, pivot: Point, k: i64)
        requires
            old(self).wf(),
            pivot.wf(),
        ensures
            *final(self) == pivoted_scale_spec(*old(self), pivot, k as int),
            final(self).wf(),
    {
        let neg = Point { x: -pivot.x, y: -pivot.y };
        self.translate(neg);
        self.scale_by(k);
        self.translate(pivot);
    }

    /// Rotate by the unit direction `(c, s)` around `pivot`, composed onto
    /// the existing transform.
    pub fn pivoted_rotate(&mut self, pivot: Point, c: i64, s: i64)
        requires
            old(self).wf(),
            pivot.wf(),
            -FP_ONE <= c <= FP_ONE,
            -FP_ONE <= s <= FP_ONE,
        ensures
            *final(self) == pivoted_rotate_spec(*old(self), pivot, c as int, s as int),
            final(self).wf(),
    {
        let neg = Point { x: -pivot.x, y: -pivot.y };
        self.translate(neg);
        self.rotate_by(c, s);
        self.translate(pivot);
    }

    /// Map a drawing-space point to viewport pixels.
    pub fn apply(&self, p: Point) -> (r: Point)
        requires
            self.wf(),
            p.wf(),
        ensures
            r == apply_spec(*self, p),
            r.wf(),
    {
        proof {
            lemma_fp_mul_bound(self.m11 as int, p.x as int, MAT_LIMIT as int, COORD_LIMIT as int);
            lemma_fp_mul_bound(self.m12 as int, p.y as int, MAT_LIMIT as int, COORD_LIMIT as int);
            lemma_fp_mul_bound(self.m21 as int, p.x as int, MAT_LIMIT as int, COORD_LIMIT as int);
            lemma_fp_mul_bound(self.m22 as int, p.y as int, MAT_LIMIT as int, COORD_LIMIT as int);
        }
        let xa: i64 = fp_mul_clamped(self.m11, p.x, PROD_LIMIT);
        let xb: i64 = fp_mul_clamped(self.m12, p.y, PROD_LIMIT);
        let ya: i64 = fp_mul_clamped(self.m21, p.x, PROD_LIMIT);
        let yb: i64 = fp_mul_clamped(self.m22, p.y, PROD_LIMIT);
        Point {
            x: crate::fixed::clamp_mag(xa + xb + self.tx, COORD_LIMIT),
            y: crate::fixed::clamp_mag(ya + yb + self.ty, COORD_LIMIT),
        }
    }
}

} // verus!
