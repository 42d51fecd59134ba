//! Tests for the preset factory.

use fractal_core::kind::{ColorScheme, EffectKind, GeneratorKind};
use fractal_core::presets::Preset;

fn micro(x: f64) -> i64 {
    (x * 1_000_000.0).round() as i64
}

fn val(v: i64) -> f64 {
    v as f64 / 1_000_000.0
}

const TAU: f64 = std::f64::consts::TAU;

// Helper: the EffectKind list for a built patch at its initial params.
fn effect_kinds(preset: Preset) -> Vec<EffectKind> {
    let patch = preset.build();
    patch
        .effects
        .iter()
        .map(|e| e.kind(&patch.params))
        .collect()
}

// --- Enum basics ------------------------------------------------------------

#[test]
fn all_contains_five_presets() {
    assert_eq!(Preset::all().len(), 5);
}

#[test]
fn all_names_are_nonempty() {
    for p in Preset::all() {
        assert!(!p.name().is_empty(), "{p:?} has empty name");
    }
}

#[test]
fn all_names_are_unique() {
    let names: Vec<_> = Preset::all().iter().map(|p| p.name()).collect();
    let mut seen = std::collections::HashSet::new();
    for name in &names {
        assert!(seen.insert(*name), "duplicate preset name: {name}");
    }
}

#[test]
fn preset_eq() {
    assert_eq!(Preset::ClassicMandelbrot, Preset::ClassicMandelbrot);
    assert_ne!(Preset::ClassicMandelbrot, Preset::NoiseField);
}

#[test]
fn preset_names_match_expected() {
    assert_eq!(Preset::ClassicMandelbrot.name(), "Classic Mandelbrot");
    assert_eq!(Preset::PsychedelicJulia.name(), "Psychedelic Julia");
    assert_eq!(Preset::TrippyMandelbrot.name(), "Trippy Mandelbrot");
    assert_eq!(Preset::BurningShipTrails.name(), "Burning Ship Trails");
    assert_eq!(Preset::NoiseField.name(), "Noise Field");
}

// --- ClassicMandelbrot -------------------------------------------------------

#[test]
fn classic_mandelbrot_generator() {
    let patch = Preset::ClassicMandelbrot.build();
    assert_eq!(patch.generator, GeneratorKind::Mandelbrot);
}

#[test]
fn classic_mandelbrot_effects() {
    let kinds = effect_kinds(Preset::ClassicMandelbrot);
    assert_eq!(kinds.len(), 1);
    assert!(matches!(
        kinds[0],
        EffectKind::ColorMap {
            scheme: ColorScheme::Classic
        }
    ));
}

#[test]
fn classic_mandelbrot_no_modulators() {
    assert_eq!(Preset::ClassicMandelbrot.build().modulators.len(), 0);
}

#[test]
fn classic_mandelbrot_params() {
    let p = Preset::ClassicMandelbrot.build().params;
    assert!((val(p.center_x) - (-0.5)).abs() < 1e-6);
    assert!(val(p.center_y).abs() < 1e-6);
    assert!((val(p.zoom) - 1.0).abs() < 1e-6);
    assert_eq!(p.max_iter, 100);
}

// --- PsychedelicJulia --------------------------------------------------------

#[test]
fn psychedelic_julia_generator() {
    let patch = Preset::PsychedelicJulia.build();
    assert_eq!(patch.generator, GeneratorKind::Julia);
}

#[test]
fn psychedelic_julia_gen_param_keys_include_julia_c() {
    let patch = Preset::PsychedelicJulia.build();
    let keys = fractal_core::generator::gen_param_keys_of(patch.generator);
    assert!(keys.iter().any(|k| k == "julia_cx"), "missing julia_cx");
    assert!(keys.iter().any(|k| k == "julia_cy"), "missing julia_cy");
}

#[test]
fn psychedelic_julia_c_values() {
    let p = Preset::PsychedelicJulia.build().params;
    assert!((val(p.get("julia_cx")) - (-0.7)).abs() < 1e-5);
    assert!((val(p.get("julia_cy")) - 0.27015).abs() < 1e-5);
}

#[test]
fn psychedelic_julia_effects() {
    let kinds = effect_kinds(Preset::PsychedelicJulia);
    assert_eq!(kinds.len(), 2);
    assert!(matches!(
        kinds[0],
        EffectKind::ColorMap {
            scheme: ColorScheme::Psychedelic
        }
    ));
    assert!(matches!(kinds[1], EffectKind::HueShift { .. }));
}

#[test]
fn psychedelic_julia_has_one_modulator() {
    assert_eq!(Preset::PsychedelicJulia.build().modulators.len(), 1);
}

#[test]
fn psychedelic_julia_hue_shift_driven_by_lfo() {
    // After one tick the oscillator should move hue_shift_amount away
    // from 0; half a second at 0.5 Hz is a quarter period, the sine peak.
    let mut patch = Preset::PsychedelicJulia.build();
    let before = val(patch.params.get("hue_shift_amount"));
    patch.tick(micro(0.5));
    let after = val(patch.params.get("hue_shift_amount"));
    assert!(
        (after - before).abs() > 1e-3,
        "hue_shift_amount did not change after tick"
    );
    // Value must be within the [0, TAU] range.
    assert!((0.0..=TAU + 1e-4).contains(&after), "out of range: {after}");
}

// --- TrippyMandelbrot --------------------------------------------------------

#[test]
fn trippy_mandelbrot_generator() {
    let patch = Preset::TrippyMandelbrot.build();
    assert_eq!(patch.generator, GeneratorKind::Mandelbrot);
}

#[test]
fn trippy_mandelbrot_effects() {
    let kinds = effect_kinds(Preset::TrippyMandelbrot);
    assert_eq!(kinds.len(), 3);
    assert!(matches!(
        kinds[0],
        EffectKind::ColorMap {
            scheme: ColorScheme::Ocean
        }
    ));
    assert!(matches!(kinds[1], EffectKind::Ripple { .. }));
    assert!(matches!(kinds[2], EffectKind::Echo { .. }));
}

#[test]
fn trippy_mandelbrot_ripple_initial_amplitude() {
    let kinds = effect_kinds(Preset::TrippyMandelbrot);
    if let EffectKind::Ripple {
        frequency,
        amplitude,
        speed,
    } = kinds[1]
    {
        assert!((val(frequency) - 0.05).abs() < 1e-6);
        assert!((val(amplitude) - 10.0).abs() < 1e-6);
        assert!((val(speed) - 2.0).abs() < 1e-6);
    } else {
        panic!("expected Ripple");
    }
}

#[test]
fn trippy_mandelbrot_echo_params() {
    let kinds = effect_kinds(Preset::TrippyMandelbrot);
    if let EffectKind::Echo {
        layers,
        offset,
        decay,
    } = kinds[2]
    {
        assert_eq!(layers, 3);
        assert!((val(offset) - 5.0).abs() < 1e-6);
        assert!((val(decay) - 2.0).abs() < 1e-6);
    } else {
        panic!("expected Echo");
    }
}

#[test]
fn trippy_mandelbrot_ripple_driven_by_lfo() {
    let mut patch = Preset::TrippyMandelbrot.build();
    let before = val(patch.params.get("ripple_amplitude"));
    patch.tick(micro(1.0));
    let after = val(patch.params.get("ripple_amplitude"));
    assert!(
        (after - before).abs() > 1e-3,
        "ripple_amplitude did not change"
    );
    assert!(
        (5.0 - 1e-4..=15.0 + 1e-4).contains(&after),
        "ripple_amplitude out of [5, 15]: {after}"
    );
}

#[test]
fn trippy_mandelbrot_has_one_modulator() {
    assert_eq!(Preset::TrippyMandelbrot.build().modulators.len(), 1);
}

// --- BurningShipTrails -------------------------------------------------------

#[test]
fn burning_ship_trails_generator() {
    let patch = Preset::BurningShipTrails.build();
    assert_eq!(patch.generator, GeneratorKind::BurningShip);
}

#[test]
fn burning_ship_trails_effects() {
    let kinds = effect_kinds(Preset::BurningShipTrails);
    assert_eq!(kinds.len(), 2);
    assert!(matches!(
        kinds[0],
        EffectKind::ColorMap {
            scheme: ColorScheme::Fire
        }
    ));
    assert!(
        matches!(kinds[1], EffectKind::MotionBlur { opacity } if (val(opacity) - 0.15).abs() < 1e-6)
    );
}

#[test]
fn burning_ship_trails_no_modulators() {
    assert_eq!(Preset::BurningShipTrails.build().modulators.len(), 0);
}

#[test]
fn burning_ship_trails_center() {
    let p = Preset::BurningShipTrails.build().params;
    assert!((val(p.center_x) - (-0.5)).abs() < 1e-6);
    assert!((val(p.center_y) - (-0.5)).abs() < 1e-6);
}

// --- NoiseField --------------------------------------------------------------

#[test]
fn noise_field_generator() {
    let patch = Preset::NoiseField.build();
    assert_eq!(patch.generator, GeneratorKind::NoiseField);
}

#[test]
fn noise_field_effects() {
    let kinds = effect_kinds(Preset::NoiseField);
    assert_eq!(kinds.len(), 2);
    assert!(matches!(
        kinds[0],
        EffectKind::ColorMap {
            scheme: ColorScheme::Psychedelic
        }
    ));
    assert!(matches!(kinds[1], EffectKind::BrightnessContrast { .. }));
}

#[test]
fn noise_field_brightness_contrast_params() {
    let kinds = effect_kinds(Preset::NoiseField);
    if let EffectKind::BrightnessContrast {
        brightness,
        contrast,
    } = kinds[1]
    {
        // Initial brightness ≈ 20/255 ≈ 0.078
        assert!((0.0..=40.0 / 255.0 + 1e-4).contains(&val(brightness)));
        assert!((val(contrast) - 1.5).abs() < 1e-6);
    } else {
        panic!("expected BrightnessContrast");
    }
}

#[test]
fn noise_field_brightness_driven_by_lfo() {
    let mut patch = Preset::NoiseField.build();
    let before = val(patch.params.get("brightness_amount"));
    patch.tick(micro(1.25)); // a quarter period at 0.2 Hz
    let after = val(patch.params.get("brightness_amount"));
    assert!(
        (after - before).abs() > 1e-4,
        "brightness_amount did not change"
    );
    assert!(
        (-1e-4..=40.0 / 255.0 + 1e-4).contains(&after),
        "brightness_amount out of range: {after}"
    );
}

#[test]
fn noise_field_has_one_modulator() {
    assert_eq!(Preset::NoiseField.build().modulators.len(), 1);
}

// --- build() is idempotent (returns a fresh Patch each call) ----------------

#[test]
fn build_returns_independent_patches() {
    let mut p1 = Preset::ClassicMandelbrot.build();
    let p2 = Preset::ClassicMandelbrot.build();
    p1.params.zoom = micro(99.0);
    // p2 must be unaffected
    assert!((val(p2.params.zoom) - 1.0).abs() < 1e-6);
}

#[test]
fn build_twice_yields_equal_initial_state() {
    for preset in Preset::all() {
        let p1 = preset.build();
        let p2 = preset.build();
        assert_eq!(p1.generator, p2.generator);
        assert_eq!(p1.params.fields, p2.params.fields);
        assert_eq!(p1.params.zoom, p2.params.zoom);
        assert_eq!(p1.params.center_x, p2.params.center_x);
        assert_eq!(p1.params.center_y, p2.params.center_y);
        assert_eq!(p1.params.max_iter, p2.params.max_iter);
        assert_eq!(p1.effects.len(), p2.effects.len());
        assert_eq!(p1.modulators.len(), p2.modulators.len());
    }
}
