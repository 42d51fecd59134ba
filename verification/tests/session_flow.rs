//! Tests for the session controller and the scalar arithmetic edges.

use fractal_core::input::{set_pointer, InputAction};
use fractal_core::kind::GeneratorKind;
use fractal_core::params::Params;
use fractal_core::presets::Preset;
use fractal_core::scalar::{frac, mul_unit, sat_add, sat_sub, UNIT};
use fractal_core::session::Session;

fn micro(x: f64) -> i64 {
    (x * 1_000_000.0).round() as i64
}

fn val(v: i64) -> f64 {
    v as f64 / 1_000_000.0
}

// --- Session actions ---------------------------------------------------------

#[test]
fn session_starts_on_first_preset() {
    let s = Session::new();
    assert_eq!(s.preset_index, 0);
    assert_eq!(s.patch.generator, GeneratorKind::Mandelbrot);
}

#[test]
fn load_preset_switches_patch_and_index() {
    let mut s = Session::new();
    let quit = s.handle_action(InputAction::LoadPreset(Preset::NoiseField), micro(1.0));
    assert!(!quit);
    assert_eq!(s.preset_index, 4);
    assert_eq!(s.patch.generator, GeneratorKind::NoiseField);
}

#[test]
fn cycle_preset_wraps_around() {
    let mut s = Session::new();
    let expected = [
        GeneratorKind::Julia,
        GeneratorKind::Mandelbrot,
        GeneratorKind::BurningShip,
        GeneratorKind::NoiseField,
        GeneratorKind::Mandelbrot,
    ];
    for (step, gen) in expected.iter().enumerate() {
        s.handle_action(InputAction::CycleNextPreset, micro(1.0));
        assert_eq!(s.preset_index, (step + 1) % 5);
        assert_eq!(s.patch.generator, *gen, "wrong generator after step {step}");
    }
}

#[test]
fn iterations_step_up_and_clamp() {
    let mut s = Session::new();
    assert_eq!(s.patch.params.max_iter, 100);
    s.handle_action(InputAction::IterationsUp, micro(1.0));
    assert_eq!(s.patch.params.max_iter, 110);
    for _ in 0..50 {
        s.handle_action(InputAction::IterationsUp, micro(1.0));
    }
    assert_eq!(s.patch.params.max_iter, 500);
}

#[test]
fn iterations_step_down_and_clamp() {
    let mut s = Session::new();
    s.handle_action(InputAction::IterationsDown, micro(1.0));
    assert_eq!(s.patch.params.max_iter, 90);
    for _ in 0..20 {
        s.handle_action(InputAction::IterationsDown, micro(1.0));
    }
    assert_eq!(s.patch.params.max_iter, 20);
}

#[test]
fn reset_rebuilds_current_preset() {
    let mut s = Session::new();
    s.handle_action(InputAction::LoadPreset(Preset::PsychedelicJulia), micro(1.0));
    s.patch.params.zoom = micro(64.0);
    s.handle_action(InputAction::Reset, micro(1.0));
    assert_eq!(s.preset_index, 1);
    assert_eq!(val(s.patch.params.zoom), 1.0);
    assert_eq!(s.patch.generator, GeneratorKind::Julia);
}

#[test]
fn mouse_zoom_action_updates_view() {
    let mut s = Session::new();
    let quit = s.handle_action(
        InputAction::MouseZoom {
            norm_x: micro(0.5),
            norm_y: micro(0.5),
        },
        micro(4.0 / 3.0),
    );
    assert!(!quit);
    assert_eq!(val(s.patch.params.zoom), 2.0);
    assert_eq!(val(s.patch.params.center_x), -0.5);
    assert_eq!(val(s.patch.params.center_y), 0.0);
}

#[test]
fn quit_action_requests_exit() {
    let mut s = Session::new();
    assert!(s.handle_action(InputAction::Quit, micro(1.0)));
    assert_eq!(s.preset_index, 0);
}

// --- Pointer normalization ----------------------------------------------------

#[test]
fn pointer_position_is_normalized() {
    let mut p = Params::default();
    set_pointer(&mut p, 400, 150, 800, 600);
    assert_eq!(val(p.mouse_x), 0.5);
    assert_eq!(val(p.mouse_y), 0.25);
}

#[test]
fn pointer_at_origin_is_zero() {
    let mut p = Params::default();
    set_pointer(&mut p, 0, 0, 800, 600);
    assert_eq!(p.mouse_x, 0);
    assert_eq!(p.mouse_y, 0);
}

// --- Scalar arithmetic edges ---------------------------------------------------

#[test]
fn scalar_addition_saturates() {
    assert_eq!(sat_add(i64::MAX, 1), i64::MAX);
    assert_eq!(sat_sub(i64::MIN, 1), i64::MIN);
    assert_eq!(sat_add(1, 2), 3);
}

#[test]
fn scalar_multiplication_is_exact_fixed_point() {
    assert_eq!(mul_unit(micro(1.5), micro(2.0)), micro(3.0));
    assert_eq!(mul_unit(micro(-1.5), micro(2.0)), micro(-3.0));
    assert_eq!(mul_unit(micro(0.5), micro(0.5)), micro(0.25));
    assert_eq!(mul_unit(i64::MAX, i64::MAX), i64::MAX);
}

#[test]
fn scalar_frac_wraps_into_unit_interval() {
    assert_eq!(frac(micro(2.25)), micro(0.25));
    assert_eq!(frac(micro(-0.25)), micro(0.75));
    assert_eq!(frac(0), 0);
    assert!(frac(i64::MIN) >= 0 && frac(i64::MIN) < UNIT);
}
