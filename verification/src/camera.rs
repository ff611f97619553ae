//! The camera controller: owns the viewport transform and mutates it in
//! response to pan / zoom / rotate actions, all composed onto the existing
//! transform with pivoted operators, so repeated actions accumulate.

use vstd::prelude::*;
use crate::fixed::{clamp_mag, clamp_spec, COORD_LIMIT, FP_ONE};
use crate::geom::Point;
use crate::transform::{pivoted_rotate_spec, pivoted_scale_spec, translate_spec, Transform2D};
use crate::trig::{cos_fp_spec, cos_sin, sin_fp_spec, ANGLE_LIMIT};

verus! {

/// The fixed-point scale step of one zoom-in click: `1 + 0.1`.
pub const ZOOM_IN_FACTOR: i64 = 1100;

/// The fixed-point scale step of one zoom-out click: `1 - 0.1`.
pub const ZOOM_OUT_FACTOR: i64 = 900;

/// How much the scale changes per unit of gesture distance when zooming
/// at a point (pinch or scroll).
pub const ZOOM_GESTURE_SPEED: i64 = 6;

/// The fixed-point scale factor of a zoom gesture that moved by `d`:
/// `1 + d * ZOOM_GESTURE_SPEED`, with `d` held to the coordinate range.
pub open spec fn zoom_gesture_factor_spec(d: int) -> int {
    FP_ONE as int + (ZOOM_GESTURE_SPEED as int) * clamp_spec(d, COORD_LIMIT as int)
}

/// What a rotate action does to the camera: the target angle is held to
/// the angle range, and the transform turns by the difference from the
/// current rotation around `center`.
pub open spec fn rotate_model(cam: Camera, target_angle: int, center: Point) -> Camera {
    let target = clamp_spec(target_angle, ANGLE_LIMIT as int);
    let delta = target - cam.rotation;
    Camera {
        transform: pivoted_rotate_spec(
            cam.transform,
            center,
            cos_fp_spec(delta),
            sin_fp_spec(delta),
        ),
        rotation: target as i64,
    }
}

/// Holds one camera transform, mutated only here and read by the render
/// scheduler. All operations are total: no input leaves the camera in an
/// unrepresentable state.
#[derive(Clone, Copy, Debug, PartialEq, Eq, Structural)]
pub struct Camera {
    /// The affine viewport transform.
    pub transform: Transform2D,
    /// The current absolute rotation angle, in fixed-point radians, so
    /// that `rotate` can set an absolute angle rather than a relative one.
    pub rotation: i64,
}

impl Camera {
    /// Transform in range, rotation within the clamped angle range.
    pub open spec fn wf(self) -> bool {
        &&& self.transform.wf()
        &&& -ANGLE_LIMIT <= self.rotation <= ANGLE_LIMIT
    }

    /// A fresh camera: the identity transform, no rotation.
    pub fn new() -> (r: Camera)
        ensures
            r.transform == Transform2D::identity_spec(),
            r.rotation == 0,
            r.wf(),
    {
        Camera { transform: Transform2D::identity(), rotation: 0 }
    }

    /// Pan by `delta`: translate the view.
    pub fn pan(&mut self, delta: Point)
        requires
            old(self).wf(),
            delta.wf(),
        ensures
            final(self).transform == translate_spec(old(self).transform, delta),
            final(self).rotation == old(self).rotation,
            final(self).wf(),
    {
        self.transform.translate(delta);
    }

    /// Zoom in one step: a pivoted scale by `1.1` around `center` (the
    /// viewport center).
    pub fn zoom_in(&mut self, center: Point)
        requires
            old(self).wf(),
            center.wf(),
        ensures
            final(self).transform == pivoted_scale_spec(
                old(self).transform,
                center,
                ZOOM_IN_FACTOR as int,
            ),
            final(self).rotation == old(self).rotation,
            final(self).wf(),
    {
        self.transform.pivoted_scale(center, ZOOM_IN_FACTOR);
    }

    /// Zoom out one step: a pivoted scale by `0.9` around `center`.
    pub fn zoom_out(&mut self, center: Point)
        requires
            old(self).wf(),
            center.wf(),
        ensures
            final(self).transform == pivoted_scale_spec(
                old(self).transform,
                center,
                ZOOM_OUT_FACTOR as int,
            ),
            final(self).rotation == old(self).rotation,
            final(self).wf(),
    {
        self.transform.pivoted_scale(center, ZOOM_OUT_FACTOR);
    }

    /// Reset to actual size: whatever sequence of pan, zoom and rotate
    /// calls came before, the transform is exactly the identity after
    /// this.
    pub fn zoom_actual_size(&mut self)
        ensures
            final(self).transform == Transform2D::identity_spec(),
            final(self).rotation == 0,
            final(self).wf(),
    {
        self.transform = Transform2D::identity();
        self.rotation = 0;
    }

    /// Set the absolute rotation to `target_angle` (fixed-point radians,
    /// held to the angle range): a pivoted rotation around `center` by the
    /// difference from the current rotation, so repeated calls set an
    /// absolute angle, not a relative one.
    pub fn rotate(&mut self, target_angle: i64, center: Point)
        requires
            old(self).wf(),
            center.wf(),
        ensures
            *final(self) == rotate_model(*old(self), target_angle as int, center),
            final(self).wf(),
    {
        let target: i64 = clamp_mag(target_angle, ANGLE_LIMIT);
        let delta: i64 = target - self.rotation;
        let (c, s): (i64, i64) = cos_sin(delta);
        self.transform.pivoted_rotate(center, c, s);
        self.rotation = target;
    }

    /// Zoom anchored at `point` (cursor or pinch center): a pivoted scale
    /// by `1 + delta_distance * ZOOM_GESTURE_SPEED` around it.
    pub fn zoom_at_point(&mut self, point: Point, delta_distance: i64)
        requires
            old(self).wf(),
            point.wf(),
        ensures
            final(self).transform == pivoted_scale_spec(
                old(self).transform,
                point,
                zoom_gesture_factor_spec(delta_distance as int),
            ),
            final(self).rotation == old(self).rotation,
            final(self).wf(),
    {
        let d: i64 = clamp_mag(delta_distance, COORD_LIMIT);
        let factor: i64 = FP_ONE + ZOOM_GESTURE_SPEED * d;
        self.transform.pivoted_scale(point, factor);
    }
}

} // verus!
