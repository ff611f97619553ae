//! The input event normalizer.
//!
//! Heterogeneous platform events — mouse and touch, window bookkeeping,
//! keys — are mapped one at a time onto a small canonical event set with
//! positions in device pixels. Touch and mouse are two surfaces of one
//! input model: the touch family lands on the same PointerDown / Move /
//! Up / Cancel events as the mouse family. The normalizer holds no state
//! except the last known pointer position and the button-down flag, both
//! needed to synthesize a PointerMove-while-down as a drag.

use vstd::prelude::*;
use crate::fixed::{clamp_mag, clamp_spec, fp_mul_clamped, fp_mul_spec, COORD_LIMIT, SCALE_LIMIT};
use crate::geom::Point;
use crate::viewport::Viewport;

verus! {

/// A raw position as the platform reports it, in fixed-point logical
/// pixels (client coordinates for mouse events; page coordinates, already
/// reconciled with the element offset by the host, for touch events).
#[derive(Clone, Copy, Debug, PartialEq, Eq, Structural)]
pub struct RawPos {
    pub x: i64,
    pub y: i64,
}

/// A key as the platform reports it, after the host reads its keycode.
/// `Letter` carries the key's ASCII letter.
#[derive(Clone, Copy, Debug, PartialEq, Eq, Structural)]
pub enum RawKey {
    Escape,
    Tab,
    Letter(u8),
    Other,
}

/// The canonical key set: a deliberate, narrow allow-list, not a full
/// keyboard model. Everything else is dropped.
#[derive(Clone, Copy, Debug, PartialEq, Eq, Structural)]
pub enum Keycode {
    Alphanumeric(u8),
    Escape,
    Tab,
}

/// One raw platform event. Button events of a desktop surface carry no
/// position (the pointer position arrives in move events); browser-style
/// surfaces report one on the button event itself.
#[derive(Clone, Copy, Debug, PartialEq, Eq, Structural)]
pub enum RawEvent {
    ButtonPressed(Option<RawPos>),
    ButtonReleased(Option<RawPos>),
    PointerMoved(RawPos),
    TouchStarted(RawPos),
    TouchMoved(RawPos),
    TouchEnded(RawPos),
    TouchCancelled,
    CursorEntered,
    CursorLeft,
    FocusChanged(bool),
    SurfaceDestroyed,
    KeyPressed(RawKey),
    Resized { logical_width: i64, logical_height: i64, scale_factor: i64 },
}

/// One canonical event. Positions are in device pixels.
#[derive(Clone, Copy, Debug, PartialEq, Eq, Structural)]
pub enum CanonicalEvent {
    PointerDown(Point),
    PointerMove(Point),
    PointerUp(Point),
    PointerCancel,
    FocusChanged(bool),
    ViewportResized(Viewport),
    Key(Keycode),
}

/// One coordinate mapped from raw logical pixels to device pixels:
/// `(raw - origin) * scale_factor`, clamped into the coordinate range.
pub open spec fn norm_coord_spec(raw: int, origin: int, scale_factor: int) -> int {
    clamp_spec(
        fp_mul_spec(
            clamp_spec(raw, COORD_LIMIT as int) - clamp_spec(origin, COORD_LIMIT as int),
            scale_factor,
        ),
        COORD_LIMIT as int,
    )
}

/// A raw position mapped to device pixels against the surface origin.
pub open spec fn norm_pos_spec(raw: RawPos, origin: RawPos, scale_factor: int) -> Point {
    Point {
        x: norm_coord_spec(raw.x as int, origin.x as int, scale_factor) as i64,
        y: norm_coord_spec(raw.y as int, origin.y as int, scale_factor) as i64,
    }
}

/// Map a raw position to device pixels: subtract the surface origin, then
/// scale by the device-pixel ratio.
pub fn norm_pos(raw: RawPos, origin: RawPos, scale_factor: i64) -> (r: Point)
    requires
        1 <= scale_factor <= SCALE_LIMIT,
    ensures
        r == norm_pos_spec(raw, origin, scale_factor as int),
        r.wf(),
{
    let rx: i64 = clamp_mag(raw.x, COORD_LIMIT);
    let ry: i64 = clamp_mag(raw.y, COORD_LIMIT);
    let ox: i64 = clamp_mag(origin.x, COORD_LIMIT);
    let oy: i64 = clamp_mag(origin.y, COORD_LIMIT);
    Point {
        x: fp_mul_clamped(rx - ox, scale_factor, COORD_LIMIT),
        y: fp_mul_clamped(ry - oy, scale_factor, COORD_LIMIT),
    }
}

/// Which keys are forwarded: Escape, Tab, and the letters A through Z
/// (either case, reported upper-cased). All other keys are dropped, not
/// forwarded.
pub open spec fn key_allow_spec(key: RawKey) -> Option<Keycode> {
    match key {
        RawKey::Escape => Option::Some(Keycode::Escape),
        RawKey::Tab => Option::Some(Keycode::Tab),
        RawKey::Letter(c) => if 65 <= c <= 90 {
            Option::Some(Keycode::Alphanumeric(c))
        } else if 97 <= c <= 122 {
            Option::Some(Keycode::Alphanumeric((c - 32) as u8))
        } else {
            Option::None
        },
        RawKey::Other => Option::None,
    }
}

/// Apply the key allow-list.
pub fn key_allow(key: RawKey) -> (r: Option<Keycode>)
    ensures
        r == key_allow_spec(key),
{
    match key {
        RawKey::Escape => Option::Some(Keycode::Escape),
        RawKey::Tab => Option::Some(Keycode::Tab),
        RawKey::Letter(c) => if 65 <= c && c <= 90 {
            Option::Some(Keycode::Alphanumeric(c))
        } else if 97 <= c && c <= 122 {
            Option::Some(Keycode::Alphanumeric(c - 32))
        } else {
            Option::None
        },
        RawKey::Other => Option::None,
    }
}

/// The normalizer's whole state.
#[derive(Clone, Copy, Debug, PartialEq, Eq, Structural)]
pub struct Normalizer {
    /// Last known raw pointer position, in logical pixels.
    pub last_pos: RawPos,
    /// Whether the primary button (or a touch contact) is down.
    pub button_down: bool,
}

/// What one raw event does to the normalizer and which canonical event
/// it produces, if any.
pub open spec fn normalize_spec(
    st: Normalizer,
    ev: RawEvent,
    origin: RawPos,
    scale_factor: int,
) -> (Normalizer, Option<CanonicalEvent>) {
    match ev {
        RawEvent::ButtonPressed(opt) => {
            let pos = match opt {
                Option::Some(p) => p,
                Option::None => st.last_pos,
            };
            (
                Normalizer { last_pos: pos, button_down: true },
                Option::Some(CanonicalEvent::PointerDown(norm_pos_spec(pos, origin, scale_factor))),
            )
        },
        RawEvent::TouchStarted(p) => (
            Normalizer { last_pos: p, button_down: true },
            Option::Some(CanonicalEvent::PointerDown(norm_pos_spec(p, origin, scale_factor))),
        ),
        RawEvent::ButtonReleased(opt) => {
            let pos = match opt {
                Option::Some(p) => p,
                Option::None => st.last_pos,
            };
            (
                Normalizer { last_pos: pos, button_down: false },
                Option::Some(CanonicalEvent::PointerUp(norm_pos_spec(pos, origin, scale_factor))),
            )
        },
        RawEvent::TouchEnded(p) => (
            Normalizer { last_pos: p, button_down: false },
            Option::Some(CanonicalEvent::PointerUp(norm_pos_spec(p, origin, scale_factor))),
        ),
        RawEvent::PointerMoved(p) => (
            Normalizer { last_pos: p, ..st },
            if st.button_down {
                Option::Some(CanonicalEvent::PointerMove(norm_pos_spec(p, origin, scale_factor)))
            } else {
                Option::None
            },
        ),
        RawEvent::TouchMoved(p) => (
            Normalizer { last_pos: p, ..st },
            if st.button_down {
                Option::Some(CanonicalEvent::PointerMove(norm_pos_spec(p, origin, scale_factor)))
            } else {
                Option::None
            },
        ),
        RawEvent::TouchCancelled => (
            Normalizer { button_down: false, ..st },
            Option::Some(CanonicalEvent::PointerCancel),
        ),
        RawEvent::CursorLeft => (
            Normalizer { button_down: false, ..st },
            Option::Some(CanonicalEvent::PointerCancel),
        ),
        RawEvent::SurfaceDestroyed => (
            Normalizer { button_down: false, ..st },
            Option::Some(CanonicalEvent::PointerCancel),
        ),
        RawEvent::CursorEntered => (st, Option::None),
        RawEvent::FocusChanged(f) => (st, Option::Some(CanonicalEvent::FocusChanged(f))),
        RawEvent::KeyPressed(k) => (
            st,
            match key_allow_spec(k) {
                Option::Some(code) => Option::Some(CanonicalEvent::Key(code)),
                Option::None => Option::None,
            },
        ),
        RawEvent::Resized { logical_width, logical_height, scale_factor: sf } => (
            st,
            Option::Some(CanonicalEvent::ViewportResized(
                Viewport {
                    logical_width: crate::viewport::clamp_pos_spec(
                        logical_width as int,
                        crate::viewport::LOGICAL_LIMIT as int,
                    ) as i64,
                    logical_height: crate::viewport::clamp_pos_spec(
                        logical_height as int,
                        crate::viewport::LOGICAL_LIMIT as int,
                    ) as i64,
                    scale_factor: crate::viewport::clamp_pos_spec(
                        sf as int,
                        SCALE_LIMIT as int,
                    ) as i64,
                },
            )),
        ),
    }
}

impl Normalizer {
    /// A fresh normalizer: pointer at the origin, button up.
    pub fn new() -> (r: Normalizer)
        ensures
            r.last_pos == (RawPos { x: 0, y: 0 }),
            !r.button_down,
    {
        Normalizer { last_pos: RawPos { x: 0, y: 0 }, button_down: false }
    }

    /// Consume one raw platform event and produce zero or one canonical
    /// event, with positions mapped to device pixels against `origin` and
    /// `scale_factor`. Unrecognized or disallowed events produce nothing
    /// and are silently ignored, not errors.
    pub fn normalize(&mut self, ev: RawEvent, origin: RawPos, scale_factor: i64) -> (r: Option<
        CanonicalEvent,
    >)
        requires
            1 <= scale_factor <= SCALE_LIMIT,
        ensures
            (*final(self), r) == normalize_spec(*old(self), ev, origin, scale_factor as int),
    {
        match ev {
            RawEvent::ButtonPressed(opt) => {
                let pos = match opt {
                    Option::Some(p) => p,
                    Option::None => self.last_pos,
                };
                self.last_pos = pos;
                self.button_down = true;
                Option::Some(CanonicalEvent::PointerDown(norm_pos(pos, origin, scale_factor)))
            },
            RawEvent::TouchStarted(p) => {
                self.last_pos = p;
                self.button_down = true;
                Option::Some(CanonicalEvent::PointerDown(norm_pos(p, origin, scale_factor)))
            },
            RawEvent::ButtonReleased(opt) => {
                let pos = match opt {
                    Option::Some(p) => p,
                    Option::None => self.last_pos,
                };
                self.last_pos = pos;
                self.button_down = false;
                Option::Some(CanonicalEvent::PointerUp(norm_pos(pos, origin, scale_factor)))
            },
            RawEvent::TouchEnded(p) => {
                self.last_pos = p;
                self.button_down = false;
                Option::Some(CanonicalEvent::PointerUp(norm_pos(p, origin, scale_factor)))
            },
            RawEvent::PointerMoved(p) => {
                let was_down = self.button_down;
                self.last_pos = p;
                if was_down {
                    Option::Some(CanonicalEvent::PointerMove(norm_pos(p, origin, scale_factor)))
                } else {
                    Option::None
                }
            },
            RawEvent::TouchMoved(p) => {
                let was_down = self.button_down;
                self.last_pos = p;
                if was_down {
                    Option::Some(CanonicalEvent::PointerMove(norm_pos(p, origin, scale_factor)))
                } else {
                    Option::None
                }
            },
            RawEvent::TouchCancelled => {
                self.button_down = false;
                Option::Some(CanonicalEvent::PointerCancel)
            },
            RawEvent::CursorLeft => {
                self.button_down = false;
                Option::Some(CanonicalEvent::PointerCancel)
            },
            RawEvent::SurfaceDestroyed => {
                self.button_down = false;
                Option::Some(CanonicalEvent::PointerCancel)
            },
            RawEvent::CursorEntered => Option::None,
            RawEvent::FocusChanged(f) => Option::Some(CanonicalEvent::FocusChanged(f)),
            RawEvent::KeyPressed(k) => {
                match key_allow(k) {
                    Option::Some(code) => Option::Some(CanonicalEvent::Key(code)),
                    Option::None => Option::None,
                }
            },
            RawEvent::Resized { logical_width, logical_height, scale_factor: sf } => {
                Option::Some(CanonicalEvent::ViewportResized(
                    Viewport::new(logical_width, logical_height, sf),
                ))
            },
        }
    }
}

} // verus!
