//! The UI model, option values and viewport bookkeeping.

use freehand::normalize::{norm_pos, RawPos};
use freehand::options::{DataPath, Options};
use freehand::ui::{
    BackgroundColor, Color, DemoUIModel, ScreenshotInfo, ScreenshotType, UIVisibility,
};
use freehand::viewport::Viewport;

#[test]
fn options_defaults_match_the_demo() {
    let o = Options::default();
    assert_eq!(o.jobs, None);
    assert_eq!(o.input_path, DataPath::Default);
    assert_eq!(o.ui, UIVisibility::All);
    assert_eq!(o.background_color, BackgroundColor::Light);
    assert!(!o.high_performance_gpu);
}

#[test]
fn ui_visibility_from_arg_values() {
    assert_eq!(UIVisibility::from_arg("none"), UIVisibility::Hidden);
    assert_eq!(UIVisibility::from_arg("stats"), UIVisibility::Stats);
    assert_eq!(UIVisibility::from_arg("all"), UIVisibility::All);
    assert_eq!(UIVisibility::from_arg("anything"), UIVisibility::All);
}

#[test]
fn background_from_arg_values() {
    assert_eq!(BackgroundColor::from_arg("light"), BackgroundColor::Light);
    assert_eq!(BackgroundColor::from_arg("dark"), BackgroundColor::Dark);
    assert_eq!(BackgroundColor::from_arg("transparent"), BackgroundColor::Transparent);
    assert_eq!(BackgroundColor::from_arg("x"), BackgroundColor::Transparent);
}

#[test]
fn background_colors_are_the_demo_palette() {
    let mut o = Options::default();
    let m = DemoUIModel::new(&o);
    assert_eq!(m.background_color(), Color { r: 248, g: 248, b: 248, a: 255 });
    assert_eq!(m.foreground_color(), Color { r: 0, g: 0, b: 0, a: 255 });
    o.background_color = BackgroundColor::Dark;
    let m = DemoUIModel::new(&o);
    assert_eq!(m.background_color(), Color { r: 32, g: 32, b: 32, a: 255 });
    assert_eq!(m.foreground_color(), Color { r: 255, g: 255, b: 255, a: 255 });
    o.background_color = BackgroundColor::Transparent;
    let m = DemoUIModel::new(&o);
    assert_eq!(m.background_color(), Color { r: 0, g: 0, b: 0, a: 0 });
    assert_eq!(m.foreground_color(), Color { r: 0, g: 0, b: 0, a: 255 });
}

#[test]
fn fresh_ui_model_is_centered_and_quiet() {
    let m = DemoUIModel::new(&Options::default());
    assert_eq!(m.rotation, 180);
    assert_eq!(m.message, "");
    assert!(!m.gamma_correction_effect_enabled);
    assert!(!m.stem_darkening_effect_enabled);
    assert!(!m.subpixel_aa_effect_enabled);
}

#[test]
fn slider_angle_sweeps_minus_pi_to_pi() {
    let mut m = DemoUIModel::new(&Options::default());
    assert_eq!(m.rotation_angle(), 0);
    m.rotation = 0;
    assert_eq!(m.rotation_angle(), -3142);
    m.rotation = 360;
    assert_eq!(m.rotation_angle(), 3142);
    m.rotation = 270;
    assert_eq!(m.rotation_angle(), 1571);
}

#[test]
fn screenshot_kinds_name_their_files() {
    assert_eq!(ScreenshotType::PNG.extension(), "png");
    assert_eq!(ScreenshotType::SVG.extension(), "svg");
    assert_eq!(ScreenshotType::PNG.as_str(), "PNG");
    assert_eq!(ScreenshotType::SVG.as_str(), "SVG");
    let info = ScreenshotInfo { kind: ScreenshotType::PNG, path: "shot.png".to_string() };
    assert_eq!(info.kind, ScreenshotType::PNG);
}

#[test]
fn viewport_derives_device_size() {
    let v = Viewport::new(800, 600, 2000);
    assert_eq!(v.device_width(), 1_600_000);
    assert_eq!(v.device_height(), 1_200_000);
    let c = v.center();
    assert_eq!(c.x, 800_000);
    assert_eq!(c.y, 600_000);
}

#[test]
fn degenerate_viewport_extents_clamp_to_one() {
    let v = Viewport::new(0, -5, 0);
    assert_eq!(v.logical_width, 1);
    assert_eq!(v.logical_height, 1);
    assert_eq!(v.scale_factor, 1);
}

#[test]
fn positions_subtract_origin_then_scale() {
    let p = norm_pos(RawPos { x: 10_000, y: 20_000 }, RawPos { x: 4_000, y: 4_000 }, 1500);
    assert_eq!(p.x, 9_000);
    assert_eq!(p.y, 24_000);
}
