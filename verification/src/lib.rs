//! Core of a freehand drawing surface: input normalization, stroke capture,
//! point decimation, a 2D camera transform, and a dirty-flag-gated render
//! scheduler with epoch-tagged transient messages.
//!
//! Coordinates are carried in fixed-point device pixels: one device pixel is
//! `FP_ONE` units, so a thousandth of a pixel is representable exactly and
//! every distance comparison the library makes is exact integer arithmetic.
//! Hosts convert their platform's floating-point positions to these units at
//! the boundary and hand the library plain values.

pub mod camera;
pub mod decimate;
pub mod fixed;
pub mod geom;
pub mod normalize;
pub mod options;
pub mod scheduler;
pub mod session;
pub mod stroke;
pub mod transform;
pub mod trig;
pub mod ui;
pub mod viewport;
