//! The decimation filter: threshold boundary and idempotence.

use freehand::decimate::{decimate_points, should_keep};
use freehand::geom::Point;

fn pt(x: i64, y: i64) -> Point {
    Point::new(x, y)
}

#[test]
fn first_point_is_always_kept() {
    assert!(should_keep(pt(5, 5), None, 1000));
}

#[test]
fn threshold_boundary_is_inclusive_on_keep() {
    // Scale factor 1.0: the threshold is two device pixels.
    let last = Some(pt(0, 0));
    // Distance 1.9 pixels: dropped.
    assert!(!should_keep(pt(1900, 0), last, 1000));
    // Distance 2.0 pixels exactly: kept.
    assert!(should_keep(pt(2000, 0), last, 1000));
    // Just above: kept.
    assert!(should_keep(pt(2001, 0), last, 1000));
}

#[test]
fn threshold_scales_with_device_pixel_ratio() {
    let last = Some(pt(0, 0));
    // Scale factor 2.0: the threshold is four device pixels.
    assert!(!should_keep(pt(3999, 0), last, 2000));
    assert!(should_keep(pt(4000, 0), last, 2000));
}

#[test]
fn diagonal_distance_is_euclidean() {
    let last = Some(pt(0, 0));
    // (1.2, 1.6) has length 2.0 exactly.
    assert!(should_keep(pt(1200, 1600), last, 1000));
    // (1.1, 1.6) is shorter than 2.0.
    assert!(!should_keep(pt(1100, 1600), last, 1000));
}

#[test]
fn zero_distance_is_dropped() {
    assert!(!should_keep(pt(42, 42), Some(pt(42, 42)), 1000));
}

#[test]
fn filter_compares_against_last_kept_not_last_seen() {
    // Three points each 1.5 px apart: the middle ones accumulate until a
    // point is 2 px from the last *kept* one.
    let points = vec![pt(0, 0), pt(1500, 0), pt(3000, 0), pt(4000, 0)];
    let kept = decimate_points(&points, 1000);
    // 1500 is under 2000 from 0 -> dropped; 3000 is 3000 from 0 -> kept;
    // 4000 is 1000 from 3000 -> dropped.
    assert_eq!(kept, vec![pt(0, 0), pt(3000, 0)]);
}

#[test]
fn filter_is_idempotent_on_its_own_output() {
    let points = vec![
        pt(0, 0),
        pt(500, 500),
        pt(2100, 0),
        pt(2200, 100),
        pt(4100, 300),
        pt(4100, 2500),
    ];
    let once = decimate_points(&points, 1000);
    let twice = decimate_points(&once, 1000);
    assert_eq!(once, twice);
}

#[test]
fn empty_input_stays_empty() {
    let points: Vec<Point> = Vec::new();
    assert_eq!(decimate_points(&points, 1000), Vec::new());
}

#[test]
fn spaced_input_passes_through_whole() {
    let points = vec![pt(0, 0), pt(5000, 0), pt(10000, 0)];
    assert_eq!(decimate_points(&points, 1000), points);
}
