//! Verified core of a parametric fractal animation engine.
//!
//! The engine composes a pixel-generating pass with an ordered chain of
//! post-processing passes on a compute device, while a set of modulators
//! perturbs the numeric parameters that drive both.  This crate holds the
//! parts with interesting invariants: the parameter store, the modulation
//! engine, the patch (generator + effects + modulators + parameters) with
//! its staleness cache, the double-buffered dispatch protocol, the preset
//! factory, and the input rules.  Window management and the compute kernels
//! themselves are external collaborators.
//!
//! All scalar values are exact fixed-point numbers in micro-units (see
//! [`scalar`]), so every numeric contract in this crate is exact.

pub mod chain;
pub mod effect;
pub mod generator;
pub mod input;
pub mod kind;
pub mod modulator;
pub mod params;
pub mod patch;
pub mod presets;
pub mod scalar;
pub mod session;
