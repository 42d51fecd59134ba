//! Kind descriptors: tagged values that select a compute kernel and carry
//! its typed configuration for one frame.

use vstd::prelude::*;

verus! {

/// Which generator kernel produces the frame's base image.
#[derive(Debug, Clone, Copy, PartialEq, Eq, Structural)]
pub enum GeneratorKind {
    Mandelbrot,
    Julia,
    BurningShip,
    NoiseField,
}

/// Fixed color-map palettes.
#[derive(Debug, Clone, Copy, PartialEq, Eq, Structural)]
pub enum ColorScheme {
    Classic,
    Fire,
    Ocean,
    Psychedelic,
}

/// Which effect kernel runs a pass, with its resolved configuration.
/// Scalar fields are micro-units.
#[derive(Debug, Clone, Copy, PartialEq, Eq, Structural)]
pub enum EffectKind {
    ColorMap { scheme: ColorScheme },
    Ripple { frequency: i64, amplitude: i64, speed: i64 },
    Echo { layers: u32, offset: i64, decay: i64 },
    HueShift { amount: i64 },
    BrightnessContrast { brightness: i64, contrast: i64 },
    MotionBlur { opacity: i64 },
}

/// The palette's index in the compute kernel's parameter block.
pub open spec fn spec_color_scheme_index(scheme: ColorScheme) -> u32 {
    match scheme {
        ColorScheme::Classic => 0,
        ColorScheme::Fire => 1,
        ColorScheme::Ocean => 2,
        ColorScheme::Psychedelic => 3,
    }
}

pub fn color_scheme_index(scheme: ColorScheme) -> (r: u32)
    ensures
        r == spec_color_scheme_index(scheme),
{
    match scheme {
        ColorScheme::Classic => 0,
        ColorScheme::Fire => 1,
        ColorScheme::Ocean => 2,
        ColorScheme::Psychedelic => 3,
    }
}

} // verus!
