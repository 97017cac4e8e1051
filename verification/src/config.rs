//! Run configuration: the target port, the optional interface and custom
//! filter, the verbosity flag and the colorization mode. Immutable after
//! startup.

use vstd::prelude::*;

verus! {

/// How report lines are colorized: one color per address-and-port pair, one
/// color per address, or no color at all.
#[derive(Clone, Copy, PartialEq, Eq, Structural, Debug)]
pub enum ColorOption {
    IPAndPort,
    OnlyIP,
    NoColor,
}

impl ColorOption {
    /// Whether this mode colorizes at all.
    pub open spec fn spec_color_enabled(self) -> bool {
        self != ColorOption::NoColor
    }

    /// Whether this mode colorizes at all.
    pub fn color_enabled(&self) -> (r: bool)
        ensures
            r == self.spec_color_enabled(),
    {
        match self {
            ColorOption::NoColor => false,
            _ => true,
        }
    }
}

/// Everything the per-frame pipeline needs to know about the run.
pub struct CaptureConfig {
    /// Name of the interface to capture on; the system default when absent.
    pub interface: Option<String>,
    /// The UDP port the target protocol is expected on.
    pub port: u16,
    /// A custom capture filter expression, overriding the synthesized one.
    pub custom_bpf: Option<String>,
    /// Whether per-frame decode failures are reported.
    pub verbose: bool,
    /// How report lines are colorized.
    pub color_option: ColorOption,
}

} // verus!
