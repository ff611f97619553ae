//! The stroke store: begin / append / seal and the drawing invariant.

use freehand::geom::Point;
use freehand::stroke::{Drawing, InvariantViolation};

fn pt(x: i64, y: i64) -> Point {
    Point::new(x, y)
}

#[test]
fn empty_drawing_has_no_strokes() {
    let d = Drawing::new();
    assert_eq!(d.strokes.len(), 0);
    assert!(!d.active);
}

#[test]
fn begin_stroke_opens_one_stroke() {
    let mut d = Drawing::new();
    d.begin_stroke();
    assert_eq!(d.strokes.len(), 1);
    assert!(d.active);
    assert_eq!(d.strokes[0].points.len(), 0);
}

#[test]
fn begin_stroke_twice_is_idempotent() {
    let mut d = Drawing::new();
    d.begin_stroke();
    d.begin_stroke();
    assert_eq!(d.strokes.len(), 1);
    assert!(d.active);
}

#[test]
fn begin_after_points_pushes_new_stroke() {
    let mut d = Drawing::new();
    d.begin_stroke();
    d.append_point(pt(1, 2)).unwrap();
    d.begin_stroke();
    assert_eq!(d.strokes.len(), 2);
    assert_eq!(d.strokes[0].points.len(), 1);
    assert_eq!(d.strokes[1].points.len(), 0);
}

#[test]
fn append_without_begin_is_invariant_violation() {
    let mut d = Drawing::new();
    assert_eq!(d.append_point(pt(1, 1)), Err(InvariantViolation));
    assert_eq!(d.strokes.len(), 0);
}

#[test]
fn append_after_seal_is_invariant_violation() {
    let mut d = Drawing::new();
    d.begin_stroke();
    d.append_point(pt(1, 1)).unwrap();
    d.seal_active();
    assert_eq!(d.append_point(pt(2, 2)), Err(InvariantViolation));
    assert_eq!(d.strokes[0].points.len(), 1);
}

#[test]
fn seal_keeps_strokes() {
    let mut d = Drawing::new();
    d.begin_stroke();
    d.append_point(pt(3, 4)).unwrap();
    d.seal_active();
    assert!(!d.active);
    assert_eq!(d.strokes.len(), 1);
    assert_eq!(d.strokes[0].points[0], pt(3, 4));
}

#[test]
fn begin_reuses_empty_placeholder_after_seal() {
    let mut d = Drawing::new();
    d.begin_stroke();
    d.seal_active();
    // The sealed stroke is still empty: beginning again reuses it
    // instead of stacking a second empty placeholder.
    d.begin_stroke();
    assert_eq!(d.strokes.len(), 1);
    assert!(d.active);
}

#[test]
fn no_two_consecutive_empty_strokes() {
    let mut d = Drawing::new();
    for _ in 0..5 {
        d.begin_stroke();
        d.seal_active();
    }
    let empties = d.strokes.iter().filter(|s| s.points.is_empty()).count();
    assert!(empties <= 1);
    for w in d.strokes.windows(2) {
        assert!(!(w[0].points.is_empty() && w[1].points.is_empty()));
    }
}

#[test]
fn last_point_tracks_the_active_stroke() {
    let mut d = Drawing::new();
    assert_eq!(d.last_point(), None);
    d.begin_stroke();
    assert_eq!(d.last_point(), None);
    d.append_point(pt(7, 8)).unwrap();
    assert_eq!(d.last_point(), Some(pt(7, 8)));
    d.append_point(pt(9, 10)).unwrap();
    assert_eq!(d.last_point(), Some(pt(9, 10)));
}

#[test]
fn point_new_clamps_into_coordinate_range() {
    let p = Point::new(i64::MAX, i64::MIN);
    assert_eq!(p.x, 1_000_000_000);
    assert_eq!(p.y, -1_000_000_000);
}
