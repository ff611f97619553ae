//! The camera controller and the fixed-point transform underneath it.

use freehand::camera::Camera;
use freehand::geom::Point;
use freehand::transform::Transform2D;
use freehand::trig::cos_sin;

fn pt(x: i64, y: i64) -> Point {
    Point::new(x, y)
}

fn identity() -> Transform2D {
    Transform2D { m11: 1000, m12: 0, m21: 0, m22: 1000, tx: 0, ty: 0 }
}

#[test]
fn fresh_camera_is_identity() {
    let c = Camera::new();
    assert_eq!(c.transform, identity());
    assert_eq!(c.rotation, 0);
}

#[test]
fn pan_translates() {
    let mut c = Camera::new();
    c.pan(pt(5000, -3000));
    assert_eq!(c.transform.tx, 5000);
    assert_eq!(c.transform.ty, -3000);
    assert_eq!(c.transform.m11, 1000);
    c.pan(pt(1000, 1000));
    assert_eq!(c.transform.tx, 6000);
    assert_eq!(c.transform.ty, -2000);
}

#[test]
fn zoom_in_scales_around_the_pivot() {
    let mut c = Camera::new();
    c.zoom_in(pt(400_000, 300_000));
    assert_eq!(c.transform.m11, 1100);
    assert_eq!(c.transform.m22, 1100);
    assert_eq!(c.transform.m12, 0);
    assert_eq!(c.transform.m21, 0);
    // k * (t - pivot) + pivot with t = 0.
    assert_eq!(c.transform.tx, -40_000);
    assert_eq!(c.transform.ty, -30_000);
}

#[test]
fn zoom_out_scales_down() {
    let mut c = Camera::new();
    c.zoom_out(pt(0, 0));
    assert_eq!(c.transform.m11, 900);
    assert_eq!(c.transform.m22, 900);
}

#[test]
fn pivoted_zooms_accumulate() {
    let mut c = Camera::new();
    c.zoom_in(pt(0, 0));
    c.zoom_in(pt(0, 0));
    // 1.1 * 1.1 = 1.21 exactly in thousandths.
    assert_eq!(c.transform.m11, 1210);
}

#[test]
fn camera_reset_yields_identity_exactly() {
    let mut c = Camera::new();
    c.pan(pt(12345, -678));
    c.zoom_in(pt(400_000, 300_000));
    c.rotate(1234, pt(400_000, 300_000));
    c.zoom_at_point(pt(10_000, 20_000), 70);
    c.zoom_out(pt(1, 1));
    c.zoom_actual_size();
    assert_eq!(c.transform, identity());
    assert_eq!(c.rotation, 0);
}

#[test]
fn rotate_sets_absolute_rotation() {
    let mut c = Camera::new();
    c.rotate(3142, pt(0, 0));
    assert_eq!(c.rotation, 3142);
    let after_first = c.transform;
    // A second call with the same target angle rotates by zero: the
    // transform must not move again.
    c.rotate(3142, pt(0, 0));
    assert_eq!(c.transform, after_first);
    assert_eq!(c.rotation, 3142);
}

#[test]
fn rotate_by_zero_keeps_the_transform() {
    let mut c = Camera::new();
    c.rotate(0, pt(123_000, 456_000));
    assert_eq!(c.transform, identity());
}

#[test]
fn rotate_half_turn_flips_axes() {
    let mut c = Camera::new();
    c.rotate(3142, pt(0, 0));
    // cos(pi) = -1, sin(pi) ~ 0 in thousandths.
    assert_eq!(c.transform.m11, -1000);
    assert_eq!(c.transform.m22, -1000);
    assert!(c.transform.m12.abs() <= 2);
    assert!(c.transform.m21.abs() <= 2);
}

#[test]
fn zoom_at_point_uses_the_gesture_speed() {
    let mut c = Camera::new();
    // 1 + 0.1 * 6 = 1.6.
    c.zoom_at_point(pt(0, 0), 100);
    assert_eq!(c.transform.m11, 1600);
}

#[test]
fn cos_sin_exact_at_zero() {
    assert_eq!(cos_sin(0), (1000, 0));
}

#[test]
fn cos_sin_near_half_pi() {
    let (c, s) = cos_sin(1571);
    assert!(c.abs() <= 2, "cos(pi/2) was {c}");
    assert!((998..=1000).contains(&s), "sin(pi/2) was {s}");
}

#[test]
fn cos_sin_is_periodic_in_fixed_units() {
    assert_eq!(cos_sin(100), cos_sin(100 + 6283));
    assert_eq!(cos_sin(-100), cos_sin(-100 + 6283));
}

#[test]
fn cos_is_even_and_sin_is_odd() {
    let (c_pos, s_pos) = cos_sin(700);
    let (c_neg, s_neg) = cos_sin(-700);
    assert_eq!(c_pos, c_neg);
    assert_eq!(s_pos, -s_neg);
}

#[test]
fn transform_applies_to_points() {
    let t = Transform2D { m11: 2000, m12: 0, m21: 0, m22: 2000, tx: 100, ty: -100 };
    let p = t.apply(pt(5000, 7000));
    assert_eq!(p, pt(10_100, 13_900));
}
