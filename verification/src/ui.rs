//! The UI model: visibility, background colors, the rotation slider and
//! the transient message text, plus the screenshot descriptors of the
//! option surface.

use vstd::prelude::*;
use crate::trig::PI_FP;

verus! {

/// How much UI the host shows.
#[derive(Clone, Copy, Debug, PartialEq, Eq, Structural)]
pub enum UIVisibility {
    Hidden,
    Stats,
    All,
}

/// The visibility each command-line value names: `none`, `stats`, or
/// anything else for all.
pub open spec fn from_visibility_arg_spec(s: Seq<char>) -> UIVisibility {
    if s == "none"@ {
        UIVisibility::Hidden
    } else if s == "stats"@ {
        UIVisibility::Stats
    } else {
        UIVisibility::All
    }
}

/// The background each command-line value names: `light`, `dark`, or
/// anything else for transparent.
pub open spec fn from_background_arg_spec(s: Seq<char>) -> BackgroundColor {
    if s == "light"@ {
        BackgroundColor::Light
    } else if s == "dark"@ {
        BackgroundColor::Dark
    } else {
        BackgroundColor::Transparent
    }
}

/// What the Tab key does: cycle through the visibility states.
pub open spec fn cycled_spec(v: UIVisibility) -> UIVisibility {
    match v {
        UIVisibility::Hidden => UIVisibility::Stats,
        UIVisibility::Stats => UIVisibility::All,
        UIVisibility::All => UIVisibility::Hidden,
    }
}

impl UIVisibility {
    /// The next visibility state in the Tab cycle.
    pub fn cycled(self) -> (r: UIVisibility)
        ensures
            r == cycled_spec(self),
    {
        match self {
            UIVisibility::Hidden => UIVisibility::Stats,
            UIVisibility::Stats => UIVisibility::All,
            UIVisibility::All => UIVisibility::Hidden,
        }
    }

    /// The visibility named by a command-line value: `none`, `stats`, or
    /// anything else for all.
    pub fn from_arg(s: &str) -> (r: UIVisibility)
        ensures
            r == from_visibility_arg_spec(s@),
    {
        let owned: String = s.to_owned();
        if owned == "none".to_owned() {
            UIVisibility::Hidden
        } else if owned == "stats".to_owned() {
            UIVisibility::Stats
        } else {
            UIVisibility::All
        }
    }
}

/// The background the scene is composited over.
#[derive(Clone, Copy, Debug, PartialEq, Eq, Structural)]
pub enum BackgroundColor {
    Light,
    Dark,
    Transparent,
}

impl BackgroundColor {
    /// The background named by a command-line value: `light`, `dark`, or
    /// anything else for transparent.
    pub fn from_arg(s: &str) -> (r: BackgroundColor)
        ensures
            r == from_background_arg_spec(s@),
    {
        let owned: String = s.to_owned();
        if owned == "light".to_owned() {
            BackgroundColor::Light
        } else if owned == "dark".to_owned() {
            BackgroundColor::Dark
        } else {
            BackgroundColor::Transparent
        }
    }
}

/// An RGBA color, eight bits per channel.
#[derive(Clone, Copy, Debug, PartialEq, Eq, Structural)]
pub struct Color {
    pub r: u8,
    pub g: u8,
    pub b: u8,
    pub a: u8,
}

/// The concrete background color of each `BackgroundColor` choice.
pub open spec fn background_color_spec(c: BackgroundColor) -> Color {
    match c {
        BackgroundColor::Light => Color { r: 248, g: 248, b: 248, a: 255 },
        BackgroundColor::Dark => Color { r: 32, g: 32, b: 32, a: 255 },
        BackgroundColor::Transparent => Color { r: 0, g: 0, b: 0, a: 0 },
    }
}

/// The monochrome foreground paired with each background: black on light
/// or transparent, white on dark.
pub open spec fn foreground_color_spec(c: BackgroundColor) -> Color {
    match c {
        BackgroundColor::Light => Color { r: 0, g: 0, b: 0, a: 255 },
        BackgroundColor::Transparent => Color { r: 0, g: 0, b: 0, a: 255 },
        BackgroundColor::Dark => Color { r: 255, g: 255, b: 255, a: 255 },
    }
}

/// Width of the rotation slider, in UI units; also the range of the
/// stored slider position.
pub const SLIDER_WIDTH: i32 = 360;

/// The UI model the render scheduler and the option surface read.
#[derive(Clone, Debug)]
pub struct DemoUIModel {
    pub background_color: BackgroundColor,
    pub gamma_correction_effect_enabled: bool,
    pub stem_darkening_effect_enabled: bool,
    pub subpixel_aa_effect_enabled: bool,
    /// Rotation slider position, `0..=SLIDER_WIDTH`; the middle is no
    /// rotation.
    pub rotation: i32,
    /// The transient status message currently showing, empty for none.
    pub message: String,
}

/// The angle a slider position stands for, in fixed-point radians:
/// the slider sweeps from `-pi` at the left edge to `pi` at the right,
/// with zero in the middle.
pub open spec fn slider_angle_spec(rotation: int) -> int {
    let clamped = if rotation < 0 {
        0
    } else if rotation > SLIDER_WIDTH as int {
        SLIDER_WIDTH as int
    } else {
        rotation
    };
    let numerator = (2 * clamped - SLIDER_WIDTH as int) * (PI_FP as int);
    if numerator >= 0 {
        numerator / (SLIDER_WIDTH as int)
    } else {
        -((-numerator) / (SLIDER_WIDTH as int))
    }
}

impl DemoUIModel {
    /// The model in its start state: the configured background, effects
    /// off, the rotation slider centered, no message.
    pub fn new(options: &crate::options::Options) -> (r: DemoUIModel)
        ensures
            r.background_color == options.background_color,
            !r.gamma_correction_effect_enabled,
            !r.stem_darkening_effect_enabled,
            !r.subpixel_aa_effect_enabled,
            r.rotation == SLIDER_WIDTH / 2,
            r.message@ == Seq::<char>::empty(),
    {
        let r = DemoUIModel {
            background_color: options.background_color,
            gamma_correction_effect_enabled: false,
            stem_darkening_effect_enabled: false,
            subpixel_aa_effect_enabled: false,
            rotation: SLIDER_WIDTH / 2,
            message: String::new(),
        };
        proof {
            assert(r.message@ =~= Seq::<char>::empty());
        }
        r
    }

    /// The absolute rotation angle the slider stands for, in fixed-point
    /// radians.
    pub fn rotation_angle(&self) -> (r: i64)
        ensures
            r == slider_angle_spec(self.rotation as int),
            -PI_FP <= r <= PI_FP,
    {
        let clamped: i64 = if self.rotation < 0 {
            0
        } else if self.rotation > SLIDER_WIDTH {
            SLIDER_WIDTH as i64
        } else {
            self.rotation as i64
        };
        let numerator: i64 = (2 * clamped - SLIDER_WIDTH as i64) * PI_FP;
        proof {
            if numerator >= 0 {
                vstd::arithmetic::div_mod::lemma_div_is_ordered(0, numerator as int, 360);
                vstd::arithmetic::div_mod::lemma_div_is_ordered(
                    numerator as int,
                    360 * (PI_FP as int),
                    360,
                );
            } else {
                vstd::arithmetic::div_mod::lemma_div_is_ordered(0, -(numerator as int), 360);
                vstd::arithmetic::div_mod::lemma_div_is_ordered(
                    -(numerator as int),
                    360 * (PI_FP as int),
                    360,
                );
            }
            assert((360 * (PI_FP as int)) / 360 == PI_FP as int) by (nonlinear_arith);
        }
        if numerator >= 0 {
            numerator / (SLIDER_WIDTH as i64)
        } else {
            -((-numerator) / (SLIDER_WIDTH as i64))
        }
    }

    /// The monochrome foreground color for the current background.
    pub fn foreground_color(&self) -> (r: Color)
        ensures
            r == foreground_color_spec(self.background_color),
    {
        match self.background_color {
            BackgroundColor::Light => Color { r: 0, g: 0, b: 0, a: 255 },
            BackgroundColor::Transparent => Color { r: 0, g: 0, b: 0, a: 255 },
            BackgroundColor::Dark => Color { r: 255, g: 255, b: 255, a: 255 },
        }
    }

    /// The concrete background color.
    pub fn background_color(&self) -> (r: Color)
        ensures
            r == background_color_spec(self.background_color),
    {
        match self.background_color {
            BackgroundColor::Light => Color { r: 248, g: 248, b: 248, a: 255 },
            BackgroundColor::Dark => Color { r: 32, g: 32, b: 32, a: 255 },
            BackgroundColor::Transparent => Color { r: 0, g: 0, b: 0, a: 0 },
        }
    }
}

/// What a screenshot is saved as.
#[derive(Clone, Copy, Debug, PartialEq, Eq, Structural)]
pub enum ScreenshotType {
    PNG,
    SVG,
}

impl ScreenshotType {
    /// The file extension of this screenshot kind.
    pub fn extension(&self) -> (r: &'static str)
        ensures
            *self == ScreenshotType::PNG ==> r@ == "png"@,
            *self == ScreenshotType::SVG ==> r@ == "svg"@,
    {
        match *self {
            ScreenshotType::PNG => "png",
            ScreenshotType::SVG => "svg",
        }
    }

    /// The display name of this screenshot kind.
    pub fn as_str(&self) -> (r: &'static str)
        ensures
            *self == ScreenshotType::PNG ==> r@ == "PNG"@,
            *self == ScreenshotType::SVG ==> r@ == "SVG"@,
    {
        match *self {
            ScreenshotType::PNG => "PNG",
            ScreenshotType::SVG => "SVG",
        }
    }
}

/// A pending screenshot request: what kind, and where to save it.
#[derive(Clone, Debug, PartialEq, Eq)]
pub struct ScreenshotInfo {
    pub kind: ScreenshotType,
    pub path: String,
}

/// One action of the UI-action dispatcher. The rotation carries the
/// target angle in fixed-point radians.
#[derive(Clone, Debug, PartialEq, Eq)]
pub enum UIAction {
    Idle,
    ModelChanged,
    EffectsChanged,
    TakeScreenshot(ScreenshotInfo),
    ZoomIn,
    ZoomActualSize,
    ZoomOut,
    Rotate(i64),
}

} // verus!
