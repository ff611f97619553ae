//! The drawing surface's size and device-pixel ratio.

use vstd::prelude::*;
use crate::fixed::{clamp_spec, COORD_LIMIT, SCALE_LIMIT};
use crate::geom::Point;

verus! {

/// Largest logical extent a surface may report, in whole logical pixels.
pub const LOGICAL_LIMIT: i64 = 1_000_000;

/// Logical size and backing scale factor of the surface. The derived
/// device-pixel size is `logical_size * scale_factor`. Mutated only on
/// resize events.
#[derive(Clone, Copy, Debug, PartialEq, Eq, Structural)]
pub struct Viewport {
    /// Width in whole logical pixels, at least 1.
    pub logical_width: i64,
    /// Height in whole logical pixels, at least 1.
    pub logical_height: i64,
    /// Device pixels per logical pixel, in fixed-point units, at least 1.
    pub scale_factor: i64,
}

/// A positive extent clamped into `[1, bound]`: degenerate (zero or
/// negative) sizes are clamped to 1 before any math that divides by them.
pub open spec fn clamp_pos_spec(v: int, bound: int) -> int {
    if v < 1 {
        1
    } else if v > bound {
        bound
    } else {
        v
    }
}

/// Clamp `v` into `[1, bound]`.
pub fn clamp_pos(v: i64, bound: i64) -> (r: i64)
    requires
        1 <= bound,
    ensures
        r == clamp_pos_spec(v as int, bound as int),
{
    if v < 1 {
        1
    } else if v > bound {
        bound
    } else {
        v
    }
}

/// One side of the device-pixel size: the logical extent times the scale
/// factor, held within the coordinate range.
pub open spec fn device_extent_spec(logical: int, scale_factor: int) -> int {
    clamp_spec(logical * scale_factor, COORD_LIMIT as int)
}

impl Viewport {
    /// Extents and scale factor within their clamping ranges.
    pub open spec fn wf(self) -> bool {
        &&& 1 <= self.logical_width <= LOGICAL_LIMIT
        &&& 1 <= self.logical_height <= LOGICAL_LIMIT
        &&& 1 <= self.scale_factor <= SCALE_LIMIT
    }

    /// Build a viewport, clamping a degenerate or oversized extent and
    /// scale factor into range.
    pub fn new(logical_width: i64, logical_height: i64, scale_factor: i64) -> (r: Viewport)
        ensures
            r.wf(),
            r.logical_width == clamp_pos_spec(logical_width as int, LOGICAL_LIMIT as int),
            r.logical_height == clamp_pos_spec(logical_height as int, LOGICAL_LIMIT as int),
            r.scale_factor == clamp_pos_spec(scale_factor as int, SCALE_LIMIT as int),
    {
        Viewport {
            logical_width: clamp_pos(logical_width, LOGICAL_LIMIT),
            logical_height: clamp_pos(logical_height, LOGICAL_LIMIT),
            scale_factor: clamp_pos(scale_factor, SCALE_LIMIT),
        }
    }

    /// Width in device pixels (fixed-point units).
    pub fn device_width(&self) -> (r: i64)
        requires
            self.wf(),
        ensures
            r == device_extent_spec(self.logical_width as int, self.scale_factor as int),
    {
        proof {
            assert(0 <= self.logical_width * self.scale_factor
                <= (LOGICAL_LIMIT as int) * (SCALE_LIMIT as int)) by (nonlinear_arith)
                requires
                    1 <= self.logical_width <= LOGICAL_LIMIT,
                    1 <= self.scale_factor <= SCALE_LIMIT,
            ;
        }
        let d: i64 = self.logical_width * self.scale_factor;
        if d > COORD_LIMIT {
            COORD_LIMIT
        } else {
            d
        }
    }

    /// Height in device pixels (fixed-point units).
    pub fn device_height(&self) -> (r: i64)
        requires
            self.wf(),
        ensures
            r == device_extent_spec(self.logical_height as int, self.scale_factor as int),
    {
        proof {
            assert(0 <= self.logical_height * self.scale_factor
                <= (LOGICAL_LIMIT as int) * (SCALE_LIMIT as int)) by (nonlinear_arith)
                requires
                    1 <= self.logical_height <= LOGICAL_LIMIT,
                    1 <= self.scale_factor <= SCALE_LIMIT,
            ;
        }
        let d: i64 = self.logical_height * self.scale_factor;
        if d > COORD_LIMIT {
            COORD_LIMIT
        } else {
            d
        }
    }

    /// The center of the surface in device pixels.
    pub open spec fn center_spec(self) -> Point {
        Point {
            x: (device_extent_spec(self.logical_width as int, self.scale_factor as int) / 2) as i64,
            y: (device_extent_spec(self.logical_height as int, self.scale_factor as int)
                / 2) as i64,
        }
    }

    /// The center of the surface in device pixels: the pivot for the
    /// camera's zoom and rotate actions.
    pub fn center(&self) -> (r: Point)
        requires
            self.wf(),
        ensures
            r == self.center_spec(),
            r.wf(),
    {
        Point { x: self.device_width() / 2, y: self.device_height() / 2 }
    }
}

} // verus!
