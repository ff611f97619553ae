//! End-to-end sessions: raw platform events through the normalizer into
//! the stroke store, camera and scheduler.

use freehand::geom::Point;
use freehand::normalize::{RawEvent, RawKey, RawPos};
use freehand::options::Options;
use freehand::session::Session;
use freehand::ui::{ScreenshotInfo, ScreenshotType, UIAction, UIVisibility};
use freehand::viewport::Viewport;

fn pt(x: i64, y: i64) -> Point {
    Point::new(x, y)
}

fn raw(x: i64, y: i64) -> RawPos {
    RawPos { x, y }
}

fn new_session(scale_factor: i64) -> Session {
    Session::new(
        Options::default(),
        Viewport::new(800, 600, scale_factor),
        raw(0, 0),
    )
}

fn press(x: i64, y: i64) -> RawEvent {
    RawEvent::ButtonPressed(Some(raw(x, y)))
}

fn release(x: i64, y: i64) -> RawEvent {
    RawEvent::ButtonReleased(Some(raw(x, y)))
}

fn moved(x: i64, y: i64) -> RawEvent {
    RawEvent::PointerMoved(raw(x, y))
}

#[test]
fn end_to_end_one_decimated_stroke() {
    // Down (10,10); move to (11,11), distance ~1.41 below the threshold,
    // dropped; move to (13,13), distance ~4.24 from (10,10), kept;
    // up at (13,13). One sealed stroke with exactly the two points.
    let mut s = new_session(1000);
    s.handle_platform_event(press(10_000, 10_000));
    s.handle_platform_event(moved(11_000, 11_000));
    s.handle_platform_event(moved(13_000, 13_000));
    s.handle_platform_event(release(13_000, 13_000));
    assert_eq!(s.drawing.strokes.len(), 1);
    assert!(!s.drawing.active);
    assert_eq!(s.drawing.strokes[0].points, vec![pt(10_000, 10_000), pt(13_000, 13_000)]);
}

#[test]
fn resize_mid_stroke_scales_only_later_points() {
    // Down at (5,5) under scale factor 1; resize to scale factor 2;
    // move to raw (7,7). The first point stays (5,5); the second is
    // computed with the new scale factor, not retroactively rescaled.
    let mut s = new_session(1000);
    s.handle_platform_event(press(5_000, 5_000));
    s.handle_platform_event(RawEvent::Resized {
        logical_width: 800,
        logical_height: 600,
        scale_factor: 2000,
    });
    s.handle_platform_event(moved(7_000, 7_000));
    assert_eq!(s.drawing.strokes.len(), 1);
    assert_eq!(s.drawing.strokes[0].points, vec![pt(5_000, 5_000), pt(14_000, 14_000)]);
    assert_eq!(s.viewport.scale_factor, 2000);
}

#[test]
fn stroke_count_equals_down_count() {
    let mut s = new_session(1000);
    s.handle_platform_event(press(0, 0));
    s.handle_platform_event(release(0, 0));
    s.handle_platform_event(press(100_000, 0));
    s.handle_platform_event(release(100_000, 0));
    s.handle_platform_event(press(200_000, 0));
    s.handle_platform_event(release(200_000, 0));
    assert_eq!(s.drawing.strokes.len(), 3);
    for w in s.drawing.strokes.windows(2) {
        assert!(!(w[0].points.is_empty() && w[1].points.is_empty()));
    }
}

#[test]
fn click_without_movement_makes_a_one_point_stroke() {
    let mut s = new_session(1000);
    s.handle_platform_event(press(40_000, 50_000));
    s.handle_platform_event(release(40_000, 50_000));
    assert_eq!(s.drawing.strokes.len(), 1);
    assert_eq!(s.drawing.strokes[0].points, vec![pt(40_000, 50_000)]);
    assert!(!s.drawing.active);
}

#[test]
fn down_while_drawing_seals_and_begins() {
    // A second physical press without a release: one interpretation per
    // press, so the first stroke is sealed and a second begun.
    let mut s = new_session(1000);
    s.handle_platform_event(press(0, 0));
    s.handle_platform_event(press(500_000, 0));
    assert_eq!(s.drawing.strokes.len(), 2);
    assert!(s.drawing.active);
}

#[test]
fn moves_without_a_press_are_not_drags() {
    let mut s = new_session(1000);
    s.handle_platform_event(moved(10_000, 10_000));
    s.handle_platform_event(moved(20_000, 20_000));
    assert_eq!(s.drawing.strokes.len(), 0);
}

#[test]
fn touch_events_draw_like_mouse_events() {
    let mut s = new_session(1000);
    s.handle_platform_event(RawEvent::TouchStarted(raw(10_000, 10_000)));
    s.handle_platform_event(RawEvent::TouchMoved(raw(20_000, 20_000)));
    s.handle_platform_event(RawEvent::TouchEnded(raw(20_000, 20_000)));
    assert_eq!(s.drawing.strokes.len(), 1);
    assert_eq!(s.drawing.strokes[0].points, vec![pt(10_000, 10_000), pt(20_000, 20_000)]);
}

#[test]
fn touch_cancel_seals_the_stroke() {
    let mut s = new_session(1000);
    s.handle_platform_event(RawEvent::TouchStarted(raw(10_000, 10_000)));
    s.handle_platform_event(RawEvent::TouchCancelled);
    assert!(!s.drawing.active);
    s.handle_platform_event(RawEvent::TouchMoved(raw(90_000, 90_000)));
    assert_eq!(s.drawing.strokes[0].points.len(), 1);
}

#[test]
fn cursor_leaving_seals_the_stroke() {
    let mut s = new_session(1000);
    s.handle_platform_event(press(10_000, 10_000));
    s.handle_platform_event(RawEvent::CursorLeft);
    assert!(!s.drawing.active);
}

#[test]
fn focus_loss_seals_and_moves_stop_appending() {
    let mut s = new_session(1000);
    s.handle_platform_event(press(10_000, 10_000));
    s.handle_platform_event(RawEvent::FocusChanged(false));
    assert!(!s.drawing.active);
    s.handle_platform_event(RawEvent::FocusChanged(true));
    s.handle_platform_event(moved(90_000, 90_000));
    assert_eq!(s.drawing.strokes[0].points, vec![pt(10_000, 10_000)]);
}

#[test]
fn the_surface_origin_is_subtracted_before_scaling() {
    // A browser-style surface whose element sits at (100, 50) logical
    // pixels, with a device-pixel ratio of 2.
    let mut s = Session::new(
        Options::default(),
        Viewport::new(800, 600, 2000),
        raw(100_000, 50_000),
    );
    s.handle_platform_event(press(110_000, 60_000));
    assert_eq!(s.drawing.strokes[0].points, vec![pt(20_000, 20_000)]);
}

#[test]
fn desktop_press_without_position_uses_the_last_known_one() {
    let mut s = new_session(1000);
    s.handle_platform_event(moved(33_000, 44_000));
    s.handle_platform_event(RawEvent::ButtonPressed(None));
    assert_eq!(s.drawing.strokes[0].points, vec![pt(33_000, 44_000)]);
}

#[test]
fn escape_asks_to_exit() {
    let mut s = new_session(1000);
    assert!(!s.should_exit);
    s.handle_platform_event(RawEvent::KeyPressed(RawKey::Escape));
    assert!(s.should_exit);
}

#[test]
fn tab_cycles_the_ui_visibility() {
    let mut s = new_session(1000);
    assert_eq!(s.options.ui, UIVisibility::All);
    s.handle_platform_event(RawEvent::KeyPressed(RawKey::Tab));
    assert_eq!(s.options.ui, UIVisibility::Hidden);
    s.handle_platform_event(RawEvent::KeyPressed(RawKey::Tab));
    assert_eq!(s.options.ui, UIVisibility::Stats);
    s.handle_platform_event(RawEvent::KeyPressed(RawKey::Tab));
    assert_eq!(s.options.ui, UIVisibility::All);
}

#[test]
fn disallowed_keys_are_dropped() {
    let mut s = new_session(1000);
    s.handle_platform_event(RawEvent::KeyPressed(RawKey::Letter(b'!')));
    s.handle_platform_event(RawEvent::KeyPressed(RawKey::Other));
    assert!(!s.should_exit);
    assert_eq!(s.options.ui, UIVisibility::All);
}

#[test]
fn events_mark_the_frame_dirty_and_tick_clears_it() {
    let mut s = new_session(1000);
    // The session owes its first frame.
    assert!(s.tick().is_some());
    assert!(s.tick().is_none());
    s.handle_platform_event(press(10_000, 10_000));
    let cmd = s.tick().unwrap();
    assert_eq!(cmd.markers, vec![pt(10_000, 10_000)]);
    assert!(s.tick().is_none());
}

#[test]
fn camera_actions_mark_dirty_and_reset_is_exact() {
    let mut s = new_session(1000);
    let _ = s.tick();
    s.pan(pt(1000, 2000));
    assert!(s.tick().is_some());
    s.zoom_in();
    s.rotate(500);
    s.zoom_at_point(pt(3000, 3000), 50);
    s.zoom_actual_size();
    assert_eq!(s.camera.transform.m11, 1000);
    assert_eq!(s.camera.transform.m12, 0);
    assert_eq!(s.camera.transform.m21, 0);
    assert_eq!(s.camera.transform.m22, 1000);
    assert_eq!(s.camera.transform.tx, 0);
    assert_eq!(s.camera.transform.ty, 0);
    assert_eq!(s.camera.rotation, 0);
    assert!(s.tick().is_some());
}

#[test]
fn ui_actions_drive_camera_and_screenshots() {
    let mut s = new_session(1000);
    let _ = s.tick();
    s.handle_ui_action(UIAction::Idle);
    assert!(s.tick().is_none());
    s.handle_ui_action(UIAction::ModelChanged);
    assert!(s.tick().is_some());
    s.handle_ui_action(UIAction::ZoomIn);
    assert_eq!(s.camera.transform.m11, 1100);
    s.handle_ui_action(UIAction::ZoomActualSize);
    assert_eq!(s.camera.transform.m11, 1000);
    assert_eq!(s.camera.transform.tx, 0);
    let info = ScreenshotInfo { kind: ScreenshotType::SVG, path: "out.svg".to_string() };
    s.handle_ui_action(UIAction::TakeScreenshot(info.clone()));
    assert_eq!(s.pending_screenshot, Some(info));
    s.handle_ui_action(UIAction::Rotate(1571));
    assert_eq!(s.camera.rotation, 1571);
}

#[test]
fn session_messages_follow_the_epoch_pattern() {
    let mut s = new_session(1000);
    let token_a = s.show_message("A".to_string(), 100).unwrap();
    let _token_b = s.show_message("B".to_string(), 100).unwrap();
    s.expire_message(token_a);
    assert_eq!(s.ui_model.message, "B");
    assert_eq!(s.scheduler.message, "B");
}

#[test]
fn viewport_resize_entry_point_marks_dirty() {
    let mut s = new_session(1000);
    let _ = s.tick();
    s.on_viewport_resized(Viewport::new(1024, 768, 1000));
    assert_eq!(s.viewport.logical_width, 1024);
    assert!(s.tick().is_some());
}
