//! The render scheduler: style boundary, dirty gating, and the
//! epoch-tagged message cancellation.

use freehand::geom::Point;
use freehand::scheduler::{style_for_pair, RenderScheduler, Style};
use freehand::stroke::Drawing;

fn pt(x: i64, y: i64) -> Point {
    Point::new(x, y)
}

#[test]
fn style_boundary_at_thirty_pixels() {
    // Exactly 30.0 device pixels: default style.
    assert_eq!(style_for_pair(pt(0, 0), pt(30_000, 0)), Style::Default);
    // 29.999 pixels: highlighted.
    assert_eq!(style_for_pair(pt(0, 0), pt(29_999, 0)), Style::Highlighted);
}

#[test]
fn style_uses_euclidean_distance() {
    // (18, 24) has length 30 exactly.
    assert_eq!(style_for_pair(pt(0, 0), pt(18_000, 24_000)), Style::Default);
    assert_eq!(style_for_pair(pt(0, 0), pt(18_000, 23_999)), Style::Highlighted);
}

#[test]
fn tick_is_gated_by_the_dirty_flag() {
    let mut s = RenderScheduler::new();
    let d = Drawing::new();
    // A fresh scheduler owes the first frame.
    assert!(s.tick(&d).is_some());
    // Nothing changed since: no work.
    assert!(s.tick(&d).is_none());
    s.mark_dirty();
    assert!(s.tick(&d).is_some());
    assert!(s.tick(&d).is_none());
}

#[test]
fn tick_emits_styled_segments_and_markers() {
    let mut d = Drawing::new();
    d.begin_stroke();
    d.append_point(pt(0, 0)).unwrap();
    d.append_point(pt(50_000, 0)).unwrap();
    d.append_point(pt(60_000, 0)).unwrap();
    d.seal_active();
    d.begin_stroke();
    d.append_point(pt(1000, 1000)).unwrap();
    let mut s = RenderScheduler::new();
    let cmd = s.tick(&d).unwrap();
    assert_eq!(cmd.segments.len(), 2);
    assert_eq!(cmd.segments[0].from, pt(0, 0));
    assert_eq!(cmd.segments[0].to, pt(50_000, 0));
    assert_eq!(cmd.segments[0].style, Style::Default);
    assert_eq!(cmd.segments[1].from, pt(50_000, 0));
    assert_eq!(cmd.segments[1].to, pt(60_000, 0));
    assert_eq!(cmd.segments[1].style, Style::Highlighted);
    assert_eq!(
        cmd.markers,
        vec![pt(0, 0), pt(50_000, 0), pt(60_000, 0), pt(1000, 1000)]
    );
}

#[test]
fn single_point_stroke_has_a_marker_but_no_segment() {
    let mut d = Drawing::new();
    d.begin_stroke();
    d.append_point(pt(7, 7)).unwrap();
    let mut s = RenderScheduler::new();
    let cmd = s.tick(&d).unwrap();
    assert!(cmd.segments.is_empty());
    assert_eq!(cmd.markers, vec![pt(7, 7)]);
}

#[test]
fn show_message_advances_the_epoch() {
    let mut s = RenderScheduler::new();
    let t1 = s.show_message("first".to_string(), 5000).unwrap();
    assert_eq!(t1.epoch, 1);
    assert_eq!(t1.ttl_millis, 5000);
    assert_eq!(s.message, "first");
    let t2 = s.show_message("second".to_string(), 1000).unwrap();
    assert_eq!(t2.epoch, 2);
    assert_eq!(s.message, "second");
}

#[test]
fn empty_message_is_ignored() {
    let mut s = RenderScheduler::new();
    assert!(s.show_message(String::new(), 5000).is_none());
    assert_eq!(s.message_epoch, 0);
    assert_eq!(s.message, "");
}

#[test]
fn current_token_clears_the_message() {
    let mut s = RenderScheduler::new();
    let t = s.show_message("hello".to_string(), 5000).unwrap();
    s.expire_message(t);
    assert_eq!(s.message, "");
}

#[test]
fn stale_token_is_silently_discarded() {
    // The epoch cancellation pattern: show "A", then "B" before A's
    // timeout elapses; A's callback must not clear B.
    let mut s = RenderScheduler::new();
    let token_a = s.show_message("A".to_string(), 5000).unwrap();
    let _token_b = s.show_message("B".to_string(), 7000).unwrap();
    s.expire_message(token_a);
    assert_eq!(s.message, "B");
    // B's own token still works.
    s.expire_message(_token_b);
    assert_eq!(s.message, "");
}
