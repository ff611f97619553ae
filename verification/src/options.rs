//! Start-up options. The host's argument parsing stays outside the
//! library; it hands the parsed values in here.

use vstd::prelude::*;
use crate::ui::{BackgroundColor, UIVisibility};

verus! {

/// Where the initial scene data comes from.
#[derive(Clone, Debug, PartialEq, Eq)]
pub enum DataPath {
    Default,
    Resource(String),
    Path(String),
}

/// The options the host resolves before the session starts.
#[derive(Clone, Debug)]
pub struct Options {
    /// Worker threads for the rendering backend, if overridden.
    pub jobs: Option<usize>,
    /// The initial scene data.
    pub input_path: DataPath,
    /// How much UI to show.
    pub ui: UIVisibility,
    /// The background color to composite over.
    pub background_color: BackgroundColor,
    /// Prefer the discrete GPU, where the host has one.
    pub high_performance_gpu: bool,
}

impl Default for Options {
    /// The defaults: no job override, the default scene, all UI, a light
    /// background, the low-power GPU.
    fn default() -> (r: Options)
        ensures
            r.jobs is None,
            r.input_path == DataPath::Default,
            r.ui == UIVisibility::All,
            r.background_color == BackgroundColor::Light,
            !r.high_performance_gpu,
    {
        Options {
            jobs: Option::None,
            input_path: DataPath::Default,
            ui: UIVisibility::All,
            background_color: BackgroundColor::Light,
            high_performance_gpu: false,
        }
    }
}

} // verus!
