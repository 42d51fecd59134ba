//! The preset factory: five fully-configured patches, each choosing a
//! generator, an effect chain, modulators and initial parameter values
//! together.
//!
//! `spec_built` pins down exactly what each preset builds, so building a
//! preset twice provably yields patches with identical state.

use vstd::prelude::*;
use crate::effect::{BrightnessContrastEffect, ColorMapEffect, EchoEffect, Effect, HueShiftEffect,
    MotionBlurEffect, RippleEffect};
use crate::kind::{ColorScheme, GeneratorKind};
use crate::modulator::{Lfo, ModMatrix, Modulator, Route, Waveform};
use crate::params::{default_model, Params, StoreModel};
use crate::patch::Patch;
use crate::scalar::{HALF, UNIT};

verus! {

/// One full turn (2 pi) in micro-units.
pub const TAU: i64 = 6_283_185;

/// The external constant of the parametrized escape-time preset.
pub const JULIA_CX: i64 = -700_000;

pub const JULIA_CY: i64 = 270_150;

/// Initial and maximum brightness of the noise-field preset (20/255 and
/// 40/255 in micro-units).
pub const NOISE_BRIGHTNESS: i64 = 78_431;

pub const NOISE_BRIGHTNESS_MAX: i64 = 156_863;

/// The built-in presets.
#[derive(Debug, Clone, Copy, PartialEq, Eq, Structural)]
pub enum Preset {
    ClassicMandelbrot,
    PsychedelicJulia,
    TrippyMandelbrot,
    BurningShipTrails,
    NoiseField,
}

/// A one-route matrix driving `target` with a sine oscillator of the
/// given frequency, rescaled into `[min, max]`.
pub open spec fn spec_is_sine_matrix(m: Modulator, target: Seq<char>, freq: i64, min: i64, max: i64) -> bool {
    &&& m matches Modulator::Matrix(x)
    &&& x.routes@.len() == 1
    &&& x.routes@[0].target@ == target
    &&& x.routes@[0].min == min
    &&& x.routes@[0].max == max
    &&& *x.routes@[0].modulator matches Modulator::Lfo(l)
    &&& l.target@ == target
    &&& l.waveform == Waveform::Sine
    &&& l.frequency == freq
    &&& l.amplitude == UNIT
    &&& l.offset == 0
}

/// Exactly the patch each preset builds.
pub open spec fn spec_built(preset: Preset, p: Patch) -> bool {
    &&& p.last_gen_params is None
    &&& match preset {
        Preset::ClassicMandelbrot => {
            &&& p.generator == GeneratorKind::Mandelbrot
            &&& p.params@ == default_model()
            &&& p.effects@.len() == 1
            &&& p.effects@[0] matches Effect::ColorMap(ColorMapEffect(ColorScheme::Classic))
            &&& p.modulators@.len() == 0
        },
        Preset::PsychedelicJulia => {
            &&& p.generator == GeneratorKind::Julia
            &&& p.params@ == (StoreModel {
                fields: default_model().fields.insert("julia_cx"@, JULIA_CX).insert(
                    "julia_cy"@,
                    JULIA_CY,
                ).insert("hue_shift_amount"@, 0),
                center_x: 0,
                ..default_model()
            })
            &&& p.effects@.len() == 2
            &&& p.effects@[0] matches Effect::ColorMap(ColorMapEffect(ColorScheme::Psychedelic))
            &&& (p.effects@[1] matches Effect::HueShift(h) && h.0@ == "hue_shift_amount"@)
            &&& p.modulators@.len() == 1
            &&& spec_is_sine_matrix(p.modulators@[0], "hue_shift_amount"@, HALF, 0, TAU)
        },
        Preset::TrippyMandelbrot => {
            &&& p.generator == GeneratorKind::Mandelbrot
            &&& p.params@ == (StoreModel {
                fields: default_model().fields.insert("ripple_amplitude"@, (10 * UNIT) as i64),
                ..default_model()
            })
            &&& p.effects@.len() == 3
            &&& p.effects@[0] matches Effect::ColorMap(ColorMapEffect(ColorScheme::Ocean))
            &&& (p.effects@[1] matches Effect::Ripple(r) && r.frequency == 50_000
                && r.amplitude_key@ == "ripple_amplitude"@ && r.speed == 2 * UNIT)
            &&& (p.effects@[2] matches Effect::Echo(e) && e.layers == 3 && e.offset == 5 * UNIT
                && e.decay == 2 * UNIT)
            &&& p.modulators@.len() == 1
            &&& spec_is_sine_matrix(
                p.modulators@[0],
                "ripple_amplitude"@,
                300_000,
                (5 * UNIT) as i64,
                (15 * UNIT) as i64,
            )
        },
        Preset::BurningShipTrails => {
            &&& p.generator == GeneratorKind::BurningShip
            &&& p.params@ == (StoreModel { center_y: (-HALF) as i64, ..default_model() })
            &&& p.effects@.len() == 2
            &&& p.effects@[0] matches Effect::ColorMap(ColorMapEffect(ColorScheme::Fire))
            &&& (p.effects@[1] matches Effect::MotionBlur(b) && b.0 == 150_000)
            &&& p.modulators@.len() == 0
        },
        Preset::NoiseField => {
            &&& p.generator == GeneratorKind::NoiseField
            &&& p.params@ == (StoreModel {
                fields: default_model().fields.insert("brightness_amount"@, NOISE_BRIGHTNESS),
                ..default_model()
            })
            &&& p.effects@.len() == 2
            &&& p.effects@[0] matches Effect::ColorMap(ColorMapEffect(ColorScheme::Psychedelic))
            &&& (p.effects@[1] matches Effect::BrightnessContrast(b)
                && b.brightness_key@ == "brightness_amount"@ && b.contrast == 1_500_000)
            &&& p.modulators@.len() == 1
            &&& spec_is_sine_matrix(
                p.modulators@[0],
                "brightness_amount"@,
                200_000,
                0,
                NOISE_BRIGHTNESS_MAX,
            )
        },
    }
}

impl Preset {
    /// Every preset, in selection order.
    pub fn all() -> (v: Vec<Preset>)
        ensures
            v@ =~= seq![
                Preset::ClassicMandelbrot,
                Preset::PsychedelicJulia,
                Preset::TrippyMandelbrot,
                Preset::BurningShipTrails,
                Preset::NoiseField,
            ],
    {
        let mut v: Vec<Preset> = Vec::new();
        v.push(Preset::ClassicMandelbrot);
        v.push(Preset::PsychedelicJulia);
        v.push(Preset::TrippyMandelbrot);
        v.push(Preset::BurningShipTrails);
        v.push(Preset::NoiseField);
        v
    }

    /// The preset's display name.
    pub open spec fn spec_name(self) -> Seq<char> {
        match self {
            Preset::ClassicMandelbrot => "Classic Mandelbrot"@,
            Preset::PsychedelicJulia => "Psychedelic Julia"@,
            Preset::TrippyMandelbrot => "Trippy Mandelbrot"@,
            Preset::BurningShipTrails => "Burning Ship Trails"@,
            Preset::NoiseField => "Noise Field"@,
        }
    }

    pub fn name(self) -> (r: &'static str)
        ensures
            r@ == self.spec_name(),
    {
        match self {
            Preset::ClassicMandelbrot => "Classic Mandelbrot",
            Preset::PsychedelicJulia => "Psychedelic Julia",
            Preset::TrippyMandelbrot => "Trippy Mandelbrot",
            Preset::BurningShipTrails => "Burning Ship Trails",
            Preset::NoiseField => "Noise Field",
        }
    }

    /// Construct the fully-configured patch for this preset.
    pub fn build(self) -> (p: Patch)
        ensures
            spec_built(self, p),
    {
        match self {
            Preset::ClassicMandelbrot => {
                let params = Params::default();
                Patch::new(GeneratorKind::Mandelbrot, params).add_effect(
                    Effect::ColorMap(ColorMapEffect(ColorScheme::Classic)),
                )
            },
            Preset::PsychedelicJulia => {
                let mut params = Params::default();
                params.center_x = 0;
                params.set("julia_cx", JULIA_CX);
                params.set("julia_cy", JULIA_CY);
                params.set("hue_shift_amount", 0);
                Patch::new(GeneratorKind::Julia, params).add_effect(
                    Effect::ColorMap(ColorMapEffect(ColorScheme::Psychedelic)),
                ).add_effect(
                    Effect::HueShift(HueShiftEffect("hue_shift_amount".to_owned())),
                ).add_modulator(sine_matrix("hue_shift_amount", HALF, 0, TAU))
            },
            Preset::TrippyMandelbrot => {
                let mut params = Params::default();
                params.set("ripple_amplitude", 10 * UNIT);
                Patch::new(GeneratorKind::Mandelbrot, params).add_effect(
                    Effect::ColorMap(ColorMapEffect(ColorScheme::Ocean)),
                ).add_effect(
                    Effect::Ripple(
                        RippleEffect {
                            frequency: 50_000,
                            amplitude_key: "ripple_amplitude".to_owned(),
                            speed: 2 * UNIT,
                        },
                    ),
                ).add_effect(
                    Effect::Echo(EchoEffect { layers: 3, offset: 5 * UNIT, decay: 2 * UNIT }),
                ).add_modulator(sine_matrix("ripple_amplitude", 300_000, 5 * UNIT, 15 * UNIT))
            },
            Preset::BurningShipTrails => {
                let mut params = Params::default();
                params.center_y = -HALF;
                Patch::new(GeneratorKind::BurningShip, params).add_effect(
                    Effect::ColorMap(ColorMapEffect(ColorScheme::Fire)),
                ).add_effect(Effect::MotionBlur(MotionBlurEffect(150_000)))
            },
            Preset::NoiseField => {
                let mut params = Params::default();
                params.set("brightness_amount", NOISE_BRIGHTNESS);
                Patch::new(GeneratorKind::NoiseField, params).add_effect(
                    Effect::ColorMap(ColorMapEffect(ColorScheme::Psychedelic)),
                ).add_effect(
                    Effect::BrightnessContrast(
                        BrightnessContrastEffect {
                            brightness_key: "brightness_amount".to_owned(),
                            contrast: 1_500_000,
                        },
                    ),
                ).add_modulator(sine_matrix("brightness_amount", 200_000, 0, NOISE_BRIGHTNESS_MAX))
            },
        }
    }
}

/// Build the one-route sine matrix that `spec_is_sine_matrix` describes.
fn sine_matrix(target: &str, freq: i64, min: i64, max: i64) -> (m: Modulator)
    ensures
        spec_is_sine_matrix(m, target@, freq, min, max),
{
    let mut routes: Vec<Route> = Vec::new();
    routes.push(
        Route {
            modulator: Box::new(
                Modulator::Lfo(
                    Lfo {
                        target: target.to_owned(),
                        waveform: Waveform::Sine,
                        frequency: freq,
                        amplitude: UNIT,
                        offset: 0,
                    },
                ),
            ),
            target: target.to_owned(),
            min,
            max,
        },
    );
    Modulator::Matrix(ModMatrix { routes })
}

/// Building the same preset twice yields patches with the same generator,
/// the same initial parameter state, equally many effects and modulators,
/// and an empty staleness cache; mutation of one cannot affect the other,
/// since patches share no state.
pub proof fn lemma_build_deterministic(preset: Preset, p1: Patch, p2: Patch)
    requires
        spec_built(preset, p1),
        spec_built(preset, p2),
    ensures
        p1.generator == p2.generator,
        p1.params@ == p2.params@,
        p1.effects@.len() == p2.effects@.len(),
        p1.modulators@.len() == p2.modulators@.len(),
        p1.last_gen_params is None,
        p2.last_gen_params is None,
{
}

/// Two patches built from the same preset behave alike ever after: against
/// any store state their effect chains resolve to the same kinds, and
/// their modulators produce the same store state.
pub proof fn lemma_built_patches_behave_alike(preset: Preset, p1: Patch, p2: Patch, s: StoreModel)
    requires
        spec_built(preset, p1),
        spec_built(preset, p2),
    ensures
        crate::effect::spec_resolve_effects(p1.effects@, s) == crate::effect::spec_resolve_effects(
            p2.effects@,
            s,
        ),
        crate::patch::spec_run_modulators(p1.modulators@, 0, s)
            == crate::patch::spec_run_modulators(p2.modulators@, 0, s),
{
    assert forall|i: int| 0 <= i < p1.effects@.len() implies p1.effects@[i].spec_kind(s)
        == p2.effects@[i].spec_kind(s) by {}
    assert(crate::effect::spec_resolve_effects(p1.effects@, s)
        =~= crate::effect::spec_resolve_effects(p2.effects@, s));
    reveal_with_fuel(crate::patch::spec_run_modulators, 3);
    if p1.modulators@.len() == 1 {
        lemma_sine_matrix_determined(p1.modulators@[0], p2.modulators@[0], s);
    }
}

/// Two sine matrices with the same configuration act identically on any
/// store state.
proof fn lemma_sine_matrix_determined(m1: Modulator, m2: Modulator, s: StoreModel)
    requires
        exists|target: Seq<char>, freq: i64, min: i64, max: i64|
            spec_is_sine_matrix(m1, target, freq, min, max) && spec_is_sine_matrix(
                m2,
                target,
                freq,
                min,
                max,
            ),
    ensures
        crate::modulator::spec_modulate(m1, s) == crate::modulator::spec_modulate(m2, s),
{
    reveal_with_fuel(crate::modulator::spec_modulate, 2);
    reveal_with_fuel(crate::modulator::spec_run_routes, 3);
    let (target, freq, min, max) = choose|target: Seq<char>, freq: i64, min: i64, max: i64|
        spec_is_sine_matrix(m1, target, freq, min, max) && spec_is_sine_matrix(
            m2,
            target,
            freq,
            min,
            max,
        );
    let x1 = m1->Matrix_0;
    let x2 = m2->Matrix_0;
    let l1 = (*x1.routes@[0].modulator)->Lfo_0;
    let l2 = (*x2.routes@[0].modulator)->Lfo_0;
    assert(crate::modulator::spec_lfo_out(l1, s.time) == crate::modulator::spec_lfo_out(
        l2,
        s.time,
    ));
}

} // verus!
