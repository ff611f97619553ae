//! One drawing session: the cooperative core a host loop drives.
//!
//! The host hands every raw platform event to `handle_platform_event`;
//! the normalizer maps it to at most one canonical event, which is then
//! applied whole — no handler ever observes a partially updated drawing
//! or camera. The host calls `tick` once per frame and performs the
//! returned draw list; camera actions and transient messages come in
//! through their own entry points. The delayed-message timer is the
//! host's: it only ever hands the token back to `expire_message`, where
//! the epoch check decides whether the message is still current.

use vstd::prelude::*;
use crate::camera::Camera;
use crate::decimate::{keep_threshold, should_keep, should_keep_spec};
use crate::geom::Point;
use crate::normalize::{CanonicalEvent, Keycode, Normalizer, RawEvent, RawPos, normalize_spec};
use crate::options::Options;
use crate::scheduler::{
    drawing_markers_spec, drawing_segments_spec, expire_message_model, show_message_model,
    MessageToken, RenderCommand, RenderScheduler, SchedulerView,
};
use crate::stroke::{down_model, last_point_spec, press_step_model, Drawing, PointerPress};
use crate::ui::{cycled_spec, DemoUIModel, ScreenshotInfo, UIAction};
use crate::viewport::Viewport;

verus! {

/// The whole state of one drawing surface.
pub struct Session {
    /// Raw-event state: last pointer position and button flag.
    pub normalizer: Normalizer,
    /// Surface size and device-pixel ratio.
    pub viewport: Viewport,
    /// The surface's origin in raw logical pixels (the element's bounding
    /// box on a browser surface; zero on a desktop window).
    pub origin: RawPos,
    /// The strokes drawn so far.
    pub drawing: Drawing,
    /// The viewport transform.
    pub camera: Camera,
    /// Dirty flag, message epoch and the current message.
    pub scheduler: RenderScheduler,
    /// What the host's UI panels read.
    pub ui_model: DemoUIModel,
    /// The start-up options; Tab cycles the UI visibility in here.
    pub options: Options,
    /// A screenshot request waiting for the host to take it.
    pub pending_screenshot: Option<ScreenshotInfo>,
    /// Set when the user asked to leave (Escape).
    pub should_exit: bool,
    /// A pointer-down was seen and no up or cancel since.
    pub pointer_engaged: bool,
    /// The surface has focus. Losing focus seals the active stroke.
    pub focused: bool,
}

/// The fields no canonical pointer event touches.
pub open spec fn same_surroundings(pre: Session, post: Session) -> bool {
    &&& post.normalizer == pre.normalizer
    &&& post.viewport == pre.viewport
    &&& post.origin == pre.origin
    &&& post.camera == pre.camera
    &&& post.ui_model == pre.ui_model
    &&& post.options == pre.options
    &&& post.pending_screenshot == pre.pending_screenshot
    &&& post.should_exit == pre.should_exit
}

/// Whether a pointer move at `p` lands in the drawing: the pointer must
/// be engaged, the surface focused, a stroke open, and the point must
/// survive decimation against the last kept point at the current scale
/// factor.
pub open spec fn move_applies(pre: Session, p: Point) -> bool {
    &&& pre.pointer_engaged
    &&& pre.focused
    &&& pre.drawing.active
    &&& should_keep_spec(
        p,
        last_point_spec(pre.drawing.strokes_seq()),
        keep_threshold(pre.viewport.scale_factor as int),
    )
}

/// A canonical event's payload is in range.
pub open spec fn event_wf(ev: CanonicalEvent) -> bool {
    match ev {
        CanonicalEvent::PointerDown(p) => p.wf(),
        CanonicalEvent::PointerMove(p) => p.wf(),
        CanonicalEvent::PointerUp(p) => p.wf(),
        CanonicalEvent::ViewportResized(vp) => vp.wf(),
        _ => true,
    }
}

/// What one canonical event does to the session. This is the state
/// machine of the drawing surface: down seals, begins and stores the
/// position; a move appends only through the decimation filter and only
/// while engaged, focused and drawing; up, cancel and focus loss seal;
/// a resize swaps the viewport; Escape asks to leave and Tab cycles the
/// UI. Every mutation of drawing, camera or viewport marks the
/// scheduler dirty.
pub open spec fn canonical_step(pre: Session, post: Session, ev: CanonicalEvent) -> bool {
    match ev {
        CanonicalEvent::PointerDown(p) => {
            &&& same_surroundings(pre, post)
            &&& post.focused == pre.focused
            &&& post.drawing.strokes_seq() == down_model(pre.drawing.strokes_seq(), p)
            &&& post.drawing.active
            &&& post.pointer_engaged
            &&& post.scheduler@ == (SchedulerView { dirty: true, ..pre.scheduler@ })
        },
        CanonicalEvent::PointerMove(p) => {
            if move_applies(pre, p) {
                &&& same_surroundings(pre, post)
                &&& post.focused == pre.focused
                &&& post.pointer_engaged == pre.pointer_engaged
                &&& post.drawing.strokes_seq() == crate::stroke::append_model(
                    pre.drawing.strokes_seq(),
                    p,
                )
                &&& post.drawing.active == pre.drawing.active
                &&& post.scheduler@ == (SchedulerView { dirty: true, ..pre.scheduler@ })
            } else {
                post == pre
            }
        },
        CanonicalEvent::PointerUp(_) => {
            &&& same_surroundings(pre, post)
            &&& post.focused == pre.focused
            &&& post.drawing.strokes_seq() == pre.drawing.strokes_seq()
            &&& !post.drawing.active
            &&& !post.pointer_engaged
            &&& post.scheduler@ == (SchedulerView { dirty: true, ..pre.scheduler@ })
        },
        CanonicalEvent::PointerCancel => {
            &&& same_surroundings(pre, post)
            &&& post.focused == pre.focused
            &&& post.drawing.strokes_seq() == pre.drawing.strokes_seq()
            &&& !post.drawing.active
            &&& !post.pointer_engaged
            &&& post.scheduler == pre.scheduler
        },
        CanonicalEvent::FocusChanged(f) => {
            &&& same_surroundings(pre, post)
            &&& post.focused == f
            &&& post.pointer_engaged == pre.pointer_engaged
            &&& post.drawing.strokes_seq() == pre.drawing.strokes_seq()
            &&& (!f ==> !post.drawing.active)
            &&& (f ==> post.drawing.active == pre.drawing.active)
            &&& post.scheduler == pre.scheduler
        },
        CanonicalEvent::ViewportResized(vp) => {
            &&& post.normalizer == pre.normalizer
            &&& post.origin == pre.origin
            &&& post.camera == pre.camera
            &&& post.ui_model == pre.ui_model
            &&& post.options == pre.options
            &&& post.pending_screenshot == pre.pending_screenshot
            &&& post.should_exit == pre.should_exit
            &&& post.viewport == vp
            &&& post.drawing == pre.drawing
            &&& post.focused == pre.focused
            &&& post.pointer_engaged == pre.pointer_engaged
            &&& post.scheduler@ == (SchedulerView { dirty: true, ..pre.scheduler@ })
        },
        CanonicalEvent::Key(code) => {
            match code {
                Keycode::Escape => {
                    &&& post.normalizer == pre.normalizer
                    &&& post.viewport == pre.viewport
                    &&& post.origin == pre.origin
                    &&& post.camera == pre.camera
                    &&& post.ui_model == pre.ui_model
                    &&& post.options == pre.options
                    &&& post.pending_screenshot == pre.pending_screenshot
                    &&& post.should_exit
                    &&& post.drawing == pre.drawing
                    &&& post.focused == pre.focused
                    &&& post.pointer_engaged == pre.pointer_engaged
                    &&& post.scheduler@ == (SchedulerView { dirty: true, ..pre.scheduler@ })
                },
                Keycode::Tab => {
                    &&& post.normalizer == pre.normalizer
                    &&& post.viewport == pre.viewport
                    &&& post.origin == pre.origin
                    &&& post.camera == pre.camera
                    &&& post.ui_model == pre.ui_model
                    &&& post.options.ui == cycled_spec(pre.options.ui)
                    &&& post.options.jobs == pre.options.jobs
                    &&& post.options.input_path == pre.options.input_path
                    &&& post.options.background_color == pre.options.background_color
                    &&& post.options.high_performance_gpu == pre.options.high_performance_gpu
                    &&& post.pending_screenshot == pre.pending_screenshot
                    &&& post.should_exit == pre.should_exit
                    &&& post.drawing == pre.drawing
                    &&& post.focused == pre.focused
                    &&& post.pointer_engaged == pre.pointer_engaged
                    &&& post.scheduler == pre.scheduler
                },
                Keycode::Alphanumeric(_) => post == pre,
            }
        },
    }
}

/// The fields no camera action or UI action touches, with the redraw
/// marked due: everything but the camera, the pending screenshot and
/// the scheduler stays, and the scheduler only gains the dirty flag.
pub open spec fn dirty_action_frame(pre: Session, post: Session) -> bool {
    &&& post.normalizer == pre.normalizer
    &&& post.viewport == pre.viewport
    &&& post.origin == pre.origin
    &&& post.drawing == pre.drawing
    &&& post.ui_model == pre.ui_model
    &&& post.options == pre.options
    &&& post.should_exit == pre.should_exit
    &&& post.pointer_engaged == pre.pointer_engaged
    &&& post.focused == pre.focused
    &&& post.scheduler@ == (SchedulerView { dirty: true, ..pre.scheduler@ })
}

/// What one UI action does to the session: nothing for an idle action; a
/// model or effects change only schedules a redraw; a screenshot request
/// is parked for the host; the zoom and rotate actions drive the camera
/// around the viewport center.
pub open spec fn ui_action_step(pre: Session, post: Session, action: UIAction) -> bool {
    match action {
        UIAction::Idle => post == pre,
        UIAction::ModelChanged => {
            &&& dirty_action_frame(pre, post)
            &&& post.camera == pre.camera
            &&& post.pending_screenshot == pre.pending_screenshot
        },
        UIAction::EffectsChanged => {
            &&& dirty_action_frame(pre, post)
            &&& post.camera == pre.camera
            &&& post.pending_screenshot == pre.pending_screenshot
        },
        UIAction::TakeScreenshot(info) => {
            &&& dirty_action_frame(pre, post)
            &&& post.camera == pre.camera
            &&& post.pending_screenshot == Option::Some(info)
        },
        UIAction::ZoomIn => {
            &&& dirty_action_frame(pre, post)
            &&& post.pending_screenshot == pre.pending_screenshot
            &&& post.camera.transform == crate::transform::pivoted_scale_spec(
                pre.camera.transform,
                pre.viewport.center_spec(),
                crate::camera::ZOOM_IN_FACTOR as int,
            )
            &&& post.camera.rotation == pre.camera.rotation
        },
        UIAction::ZoomOut => {
            &&& dirty_action_frame(pre, post)
            &&& post.pending_screenshot == pre.pending_screenshot
            &&& post.camera.transform == crate::transform::pivoted_scale_spec(
                pre.camera.transform,
                pre.viewport.center_spec(),
                crate::camera::ZOOM_OUT_FACTOR as int,
            )
            &&& post.camera.rotation == pre.camera.rotation
        },
        UIAction::ZoomActualSize => {
            &&& dirty_action_frame(pre, post)
            &&& post.pending_screenshot == pre.pending_screenshot
            &&& post.camera.transform == crate::transform::Transform2D::identity_spec()
            &&& post.camera.rotation == 0
        },
        UIAction::Rotate(angle) => {
            &&& dirty_action_frame(pre, post)
            &&& post.pending_screenshot == pre.pending_screenshot
            &&& post.camera == crate::camera::rotate_model(
                pre.camera,
                angle as int,
                pre.viewport.center_spec(),
            )
        },
    }
}


/// The stroke boundary law reaches the session: a canonical pointer down
/// or up steps the stored strokes exactly as the press model of
/// `crate::stroke::lemma_stroke_boundary` does, so that law holds of any
/// session driven by pointer events.
pub proof fn lemma_pointer_steps_match_press_model(pre: Session, post: Session, press: PointerPress)
    requires
        match press {
            PointerPress::Down(p) => canonical_step(pre, post, CanonicalEvent::PointerDown(p)),
            PointerPress::Up => exists|q: Point|
                canonical_step(pre, post, CanonicalEvent::PointerUp(q)),
        },
    ensures
        post.drawing.strokes_seq() == press_step_model(pre.drawing.strokes_seq(), press),
{
}

impl Session {
    /// The session invariant: every component in range.
    pub open spec fn wf(self) -> bool {
        &&& self.drawing.wf()
        &&& self.camera.wf()
        &&& self.viewport.wf()
    }

    /// A fresh session over a surface: empty drawing, identity camera,
    /// first frame due. The surface starts focused — focus events only
    /// arrive when focus changes.
    pub fn new(options: Options, viewport: Viewport, origin: RawPos) -> (r: Session)
        requires
            viewport.wf(),
        ensures
            r.wf(),
            r.viewport == viewport,
            r.origin == origin,
            r.options == options,
            r.drawing.strokes_seq() == Seq::<Seq<Point>>::empty(),
            !r.drawing.active,
            r.camera.transform == crate::transform::Transform2D::identity_spec(),
            r.camera.rotation == 0,
            r.scheduler@.dirty,
            r.scheduler@.message_epoch == 0,
            r.scheduler@.message == Seq::<char>::empty(),
            r.ui_model.background_color == options.background_color,
            r.pending_screenshot is None,
            !r.should_exit,
            !r.pointer_engaged,
            r.focused,
            !r.normalizer.button_down,
    {
        let ui_model = DemoUIModel::new(&options);
        Session {
            normalizer: Normalizer::new(),
            viewport,
            origin,
            drawing: Drawing::new(),
            camera: Camera::new(),
            scheduler: RenderScheduler::new(),
            ui_model,
            options,
            pending_screenshot: Option::None,
            should_exit: false,
            pointer_engaged: false,
            focused: true,
        }
    }

    /// Apply one canonical event whole.
    pub fn apply_canonical(&mut self, ev: CanonicalEvent)
        requires
            old(self).wf(),
            event_wf(ev),
        ensures
            final(self).wf(),
            canonical_step(*old(self), *final(self), ev),
    {
        match ev {
            CanonicalEvent::PointerDown(p) => {
                self.drawing.seal_active();
                self.drawing.begin_stroke();
                let _ = self.drawing.append_point(p);
                self.pointer_engaged = true;
                self.scheduler.mark_dirty();
            },
            CanonicalEvent::PointerMove(p) => {
                if self.pointer_engaged && self.focused && self.drawing.active {
                    let last = self.drawing.last_point();
                    proof {
                        let ss = self.drawing.strokes_seq();
                        if ss.len() > 0 && ss[ss.len() - 1].len() > 0 {
                            assert(ss[ss.len() - 1] == self.drawing.strokes@[ss.len()
                                - 1].points@);
                        }
                    }
                    if should_keep(p, last, self.viewport.scale_factor) {
                        let _ = self.drawing.append_point(p);
                        self.scheduler.mark_dirty();
                    }
                }
            },
            CanonicalEvent::PointerUp(_) => {
                self.drawing.seal_active();
                self.pointer_engaged = false;
                self.scheduler.mark_dirty();
            },
            CanonicalEvent::PointerCancel => {
                self.drawing.seal_active();
                self.pointer_engaged = false;
            },
            CanonicalEvent::FocusChanged(f) => {
                self.focused = f;
                if !f {
                    self.drawing.seal_active();
                }
            },
            CanonicalEvent::ViewportResized(vp) => {
                self.viewport = vp;
                self.scheduler.mark_dirty();
            },
            CanonicalEvent::Key(code) => {
                match code {
                    Keycode::Escape => {
                        self.should_exit = true;
                        self.scheduler.mark_dirty();
                    },
                    Keycode::Tab => {
                        self.options.ui = self.options.ui.cycled();
                    },
                    Keycode::Alphanumeric(_) => {},
                }
            },
        }
    }

    /// Feed one raw platform event through the normalizer and apply what
    /// comes out, if anything. Unrecognized events change nothing but the
    /// normalizer's own pointer state.
    pub fn handle_platform_event(&mut self, raw: RawEvent)
        requires
            old(self).wf(),
        ensures
            final(self).wf(),
            ({
                let (n2, produced) = normalize_spec(
                    old(self).normalizer,
                    raw,
                    old(self).origin,
                    old(self).viewport.scale_factor as int,
                );
                match produced {
                    Option::Some(ev) => canonical_step(
                        Session { normalizer: n2, ..*old(self) },
                        *final(self),
                        ev,
                    ),
                    Option::None => *final(self) == (Session { normalizer: n2, ..*old(self) }),
                }
            }),
    {
        let origin = self.origin;
        let scale_factor = self.viewport.scale_factor;
        let produced = self.normalizer.normalize(raw, origin, scale_factor);
        match produced {
            Option::Some(ev) => {
                self.apply_canonical(ev);
            },
            Option::None => {},
        }
    }

    /// The per-frame entry point: nothing happens unless some event or
    /// action marked the state dirty; then the styled draw list for the
    /// whole drawing is emitted once.
    pub fn tick(&mut self) -> (r: Option<RenderCommand>)
        requires
            old(self).wf(),
        ensures
            final(self).wf(),
            final(self).drawing == old(self).drawing,
            final(self).camera == old(self).camera,
            final(self).viewport == old(self).viewport,
            !old(self).scheduler@.dirty ==> r is None && *final(self) == *old(self),
            old(self).scheduler@.dirty ==> {
                &&& final(self).scheduler@ == (SchedulerView {
                    dirty: false,
                    ..old(self).scheduler@
                })
                &&& (r matches Option::Some(cmd) && cmd.segments@ == drawing_segments_spec(
                    old(self).drawing.strokes_seq(),
                ) && cmd.markers@ == drawing_markers_spec(old(self).drawing.strokes_seq()))
            },
    {
        self.scheduler.tick(&self.drawing)
    }

    /// The windowing collaborator's resize callback: swap the viewport
    /// and mark the state dirty. Nothing here touches surface resources;
    /// those stay the host's.
    pub fn on_viewport_resized(&mut self, viewport: Viewport)
        requires
            old(self).wf(),
            viewport.wf(),
        ensures
            final(self).wf(),
            *final(self) == (Session {
                viewport,
                scheduler: final(self).scheduler,
                ..*old(self)
            }),
            final(self).scheduler@ == (SchedulerView { dirty: true, ..old(self).scheduler@ }),
    {
        self.viewport = viewport;
        self.scheduler.mark_dirty();
    }

    /// Pan the camera by `delta` device pixels.
    pub fn pan(&mut self, delta: Point)
        requires
            old(self).wf(),
            delta.wf(),
        ensures
            final(self).wf(),
            final(self).camera.transform == crate::transform::translate_spec(
                old(self).camera.transform,
                delta,
            ),
            final(self).camera.rotation == old(self).camera.rotation,
            dirty_action_frame(*old(self), *final(self)),
            final(self).pending_screenshot == old(self).pending_screenshot,
    {
        self.camera.pan(delta);
        self.scheduler.mark_dirty();
    }

    /// Zoom in one step around the viewport center.
    pub fn zoom_in(&mut self)
        requires
            old(self).wf(),
        ensures
            final(self).wf(),
            final(self).camera.transform == crate::transform::pivoted_scale_spec(
                old(self).camera.transform,
                old(self).viewport.center_spec(),
                crate::camera::ZOOM_IN_FACTOR as int,
            ),
            final(self).camera.rotation == old(self).camera.rotation,
            dirty_action_frame(*old(self), *final(self)),
            final(self).pending_screenshot == old(self).pending_screenshot,
    {
        let center = self.viewport.center();
        self.camera.zoom_in(center);
        self.scheduler.mark_dirty();
    }

    /// Zoom out one step around the viewport center.
    pub fn zoom_out(&mut self)
        requires
            old(self).wf(),
        ensures
            final(self).wf(),
            final(self).camera.transform == crate::transform::pivoted_scale_spec(
                old(self).camera.transform,
                old(self).viewport.center_spec(),
                crate::camera::ZOOM_OUT_FACTOR as int,
            ),
            final(self).camera.rotation == old(self).camera.rotation,
            dirty_action_frame(*old(self), *final(self)),
            final(self).pending_screenshot == old(self).pending_screenshot,
    {
        let center = self.viewport.center();
        self.camera.zoom_out(center);
        self.scheduler.mark_dirty();
    }

    /// Reset the camera to actual size: the transform is the identity
    /// afterwards, whatever came before.
    pub fn zoom_actual_size(&mut self)
        requires
            old(self).wf(),
        ensures
            final(self).wf(),
            final(self).camera.transform == crate::transform::Transform2D::identity_spec(),
            final(self).camera.rotation == 0,
            dirty_action_frame(*old(self), *final(self)),
            final(self).pending_screenshot == old(self).pending_screenshot,
    {
        self.camera.zoom_actual_size();
        self.scheduler.mark_dirty();
    }

    /// Set the absolute camera rotation, pivoting around the viewport
    /// center.
    pub fn rotate(&mut self, target_angle: i64)
        requires
            old(self).wf(),
        ensures
            final(self).wf(),
            final(self).camera == crate::camera::rotate_model(
                old(self).camera,
                target_angle as int,
                old(self).viewport.center_spec(),
            ),
            dirty_action_frame(*old(self), *final(self)),
            final(self).pending_screenshot == old(self).pending_screenshot,
    {
        let center = self.viewport.center();
        self.camera.rotate(target_angle, center);
        self.scheduler.mark_dirty();
    }

    /// Zoom anchored at a point (cursor or pinch center).
    pub fn zoom_at_point(&mut self, point: Point, delta_distance: i64)
        requires
            old(self).wf(),
            point.wf(),
        ensures
            final(self).wf(),
            final(self).camera.transform == crate::transform::pivoted_scale_spec(
                old(self).camera.transform,
                point,
                crate::camera::zoom_gesture_factor_spec(delta_distance as int),
            ),
            final(self).camera.rotation == old(self).camera.rotation,
            dirty_action_frame(*old(self), *final(self)),
            final(self).pending_screenshot == old(self).pending_screenshot,
    {
        self.camera.zoom_at_point(point, delta_distance);
        self.scheduler.mark_dirty();
    }

    /// One action from the UI dispatcher.
    pub fn handle_ui_action(&mut self, action: UIAction)
        requires
            old(self).wf(),
        ensures
            final(self).wf(),
            ui_action_step(*old(self), *final(self), action),
    {
        match action {
            UIAction::Idle => {},
            UIAction::ModelChanged => {
                self.scheduler.mark_dirty();
            },
            UIAction::EffectsChanged => {
                self.scheduler.mark_dirty();
            },
            UIAction::TakeScreenshot(info) => {
                self.pending_screenshot = Option::Some(info);
                self.scheduler.mark_dirty();
            },
            UIAction::ZoomIn => {
                self.zoom_in();
            },
            UIAction::ZoomOut => {
                self.zoom_out();
            },
            UIAction::ZoomActualSize => {
                self.zoom_actual_size();
            },
            UIAction::Rotate(angle) => {
                self.rotate(angle);
            },
        }
    }

    /// Show a transient status message; the returned token must be
    /// delivered back to `expire_message` after its time to live. The
    /// UI model's message mirrors the scheduler's.
    pub fn show_message(&mut self, text: String, ttl_millis: u64) -> (t: Option<MessageToken>)
        requires
            old(self).wf(),
            old(self).scheduler@.message_epoch < u32::MAX,
        ensures
            final(self).wf(),
            final(self).scheduler@ == show_message_model(old(self).scheduler@, text@),
            final(self).ui_model.message@ == final(self).scheduler@.message,
            text@.len() == 0 ==> t is None,
            text@.len() > 0 ==> (t matches Option::Some(tok) && tok.epoch
                == final(self).scheduler@.message_epoch && tok.ttl_millis == ttl_millis),
            final(self).drawing == old(self).drawing,
            final(self).camera == old(self).camera,
    {
        let t = self.scheduler.show_message(text, ttl_millis);
        self.ui_model.message = self.scheduler.message.clone();
        t
    }

    /// Deliver a delayed message token from the host's timer. A stale
    /// epoch leaves the current message untouched.
    pub fn expire_message(&mut self, token: MessageToken)
        requires
            old(self).wf(),
        ensures
            final(self).wf(),
            final(self).scheduler@ == expire_message_model(old(self).scheduler@, token.epoch),
            final(self).ui_model.message@ == final(self).scheduler@.message,
            final(self).drawing == old(self).drawing,
            final(self).camera == old(self).camera,
    {
        self.scheduler.expire_message(token);
        self.ui_model.message = self.scheduler.message.clone();
    }
}

} // verus!
