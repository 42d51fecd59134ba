//! Tests for the patch: tick and the generator staleness cache.

use fractal_core::effect::{Effect, HueShiftEffect};
use fractal_core::kind::GeneratorKind;
use fractal_core::modulator::{Lfo, Modulator, Waveform};
use fractal_core::params::Params;
use fractal_core::patch::Patch;

fn micro(x: f64) -> i64 {
    (x * 1_000_000.0).round() as i64
}

fn val(v: i64) -> f64 {
    v as f64 / 1_000_000.0
}

/// A modulator that writes a constant: an oscillator with zero amplitude
/// writes exactly its offset.
fn const_writer(key: &str, value: f64) -> Modulator {
    Modulator::Lfo(Lfo {
        target: key.to_string(),
        waveform: Waveform::Sine,
        frequency: 0,
        amplitude: 0,
        offset: micro(value),
    })
}

fn make_patch() -> Patch {
    Patch::new(GeneratorKind::Mandelbrot, Params::default())
}

// --- tick -----------------------------------------------------------------

#[test]
fn tick_advances_time_and_frame() {
    let mut patch = make_patch();
    patch.tick(micro(0.016));
    assert!((val(patch.params.time) - 0.016).abs() < 1e-6);
    assert_eq!(patch.params.frame, 1);
}

#[test]
fn tick_accumulates_time() {
    let mut patch = make_patch();
    patch.tick(micro(0.1));
    patch.tick(micro(0.1));
    patch.tick(micro(0.1));
    assert!((val(patch.params.time) - 0.3).abs() < 1e-5);
    assert_eq!(patch.params.frame, 3);
}

#[test]
fn tick_runs_modulators() {
    let mut patch = make_patch().add_modulator(const_writer("val", 99.0));
    patch.tick(micro(0.016));
    assert_eq!(val(patch.params.get("val")), 99.0);
}

#[test]
fn tick_runs_modulators_in_order() {
    // Two writers to one key: the later one wins.
    let mut patch = make_patch()
        .add_modulator(const_writer("k", 1.0))
        .add_modulator(const_writer("k", 2.0));
    patch.tick(micro(0.016));
    assert_eq!(val(patch.params.get("k")), 2.0);
}

// --- generator_dirty --------------------------------------------------------

#[test]
fn generator_dirty_true_on_first_call() {
    let mut patch = make_patch();
    assert!(patch.generator_dirty());
}

#[test]
fn generator_dirty_false_after_snapshot() {
    let mut patch = make_patch();
    patch.generator_dirty(); // take initial snapshot
    assert!(!patch.generator_dirty());
}

#[test]
fn generator_dirty_after_zoom_change() {
    let mut patch = make_patch();
    patch.generator_dirty();
    patch.params.zoom = micro(3.5);
    assert!(patch.generator_dirty());
}

#[test]
fn generator_dirty_after_center_change() {
    let mut patch = make_patch();
    patch.generator_dirty();
    patch.params.center_x = micro(0.25);
    assert!(patch.generator_dirty());
}

#[test]
fn generator_dirty_after_max_iter_change() {
    let mut patch = make_patch();
    patch.generator_dirty();
    patch.params.max_iter = 500;
    assert!(patch.generator_dirty());
}

#[test]
fn generator_dirty_ignores_time_change() {
    // Time is not a structural value — only zoom / center / max_iter are,
    // plus the generator's declared keys.  The Mandelbrot generator
    // declares none, so time must not trigger staleness.
    let mut patch = make_patch();
    patch.generator_dirty();
    patch.params.time += micro(1.0);
    assert!(!patch.generator_dirty());
}

#[test]
fn generator_dirty_tracks_custom_gen_key() {
    // The parametrized escape-time generator declares its external
    // constant's keys, so changing one makes it stale.
    let mut patch = Patch::new(GeneratorKind::Julia, Params::default());
    patch.generator_dirty();
    patch.params.set("julia_cx", micro(0.42));
    assert!(patch.generator_dirty());
}

#[test]
fn generator_dirty_ignores_undeclared_key() {
    let mut patch = make_patch();
    patch.generator_dirty();
    patch.params.set("hue_shift_amount", micro(0.9));
    assert!(!patch.generator_dirty());
}

// --- add_effect / add_modulator ---------------------------------------------

#[test]
fn add_effect_appends() {
    let patch = make_patch()
        .add_effect(Effect::HueShift(HueShiftEffect("h".to_string())))
        .add_effect(Effect::HueShift(HueShiftEffect("h".to_string())));
    assert_eq!(patch.effects.len(), 2);
}

#[test]
fn add_modulator_appends() {
    let patch = make_patch()
        .add_modulator(const_writer("a", 0.0))
        .add_modulator(const_writer("b", 0.0));
    assert_eq!(patch.modulators.len(), 2);
}

#[test]
fn generator_dirty_settles_after_change() {
    // The cache is replaced on every call, so one changed value yields
    // exactly one dirty frame.
    let mut patch = make_patch();
    patch.generator_dirty();
    patch.params.zoom = micro(2.0);
    assert!(patch.generator_dirty());
    assert!(!patch.generator_dirty());
}
