//! Tests for the dispatch-chain protocol and the per-frame uniforms.

use fractal_core::chain::{build_uniforms, final_image, plan_chain, ImageSlot, PingPong};
use fractal_core::kind::{ColorScheme, EffectKind};
use fractal_core::params::Params;

fn micro(x: f64) -> i64 {
    (x * 1_000_000.0).round() as i64
}

#[test]
fn dispatch_chain_empty_leaves_ping_pong_unchanged() {
    // A zero-effect chain records no passes and never swaps; the caller
    // must present the generator image directly.
    let effects: Vec<EffectKind> = vec![];
    let mut pp = PingPong::new();
    let plan = plan_chain(&effects, &mut pp);
    assert!(plan.is_empty(), "zero-effect chain skips all dispatches");
    assert!(!pp.current);
    assert_eq!(final_image(0, &pp), ImageSlot::Generator);
}

#[test]
fn ping_pong_swap_alternates_roles() {
    let mut pp = PingPong::new();
    assert!(!pp.current);
    let read_before = pp.read_slot();
    let write_before = pp.write_slot();
    pp.swap();
    assert!(pp.current);
    // After swap, what was the write target is now the read target.
    assert_eq!(pp.read_slot(), write_before);
    assert_eq!(pp.write_slot(), read_before);
}

#[test]
fn chain_first_pass_reads_generator_image() {
    let effects = vec![
        EffectKind::HueShift { amount: micro(0.5) },
        EffectKind::BrightnessContrast {
            brightness: micro(0.1),
            contrast: micro(1.2),
        },
    ];
    let mut pp = PingPong::new();
    let plan = plan_chain(&effects, &mut pp);
    assert_eq!(plan.len(), 2);
    assert_eq!(plan[0].read, ImageSlot::Generator);
    assert_eq!(plan[0].kind, effects[0]);
    assert_eq!(plan[1].kind, effects[1]);
}

#[test]
fn chain_passes_form_a_pipeline() {
    // Every later pass reads exactly what the previous pass wrote, and no
    // pass reads its own write image.
    let effects = vec![
        EffectKind::ColorMap { scheme: ColorScheme::Ocean },
        EffectKind::HueShift { amount: 0 },
        EffectKind::MotionBlur { opacity: micro(0.2) },
    ];
    let mut pp = PingPong::new();
    let plan = plan_chain(&effects, &mut pp);
    for i in 1..plan.len() {
        assert_eq!(plan[i].read, plan[i - 1].write, "pass {i} breaks the pipeline");
    }
    for (i, pass) in plan.iter().enumerate() {
        assert_ne!(pass.read, pass.write, "pass {i} reads its own write image");
        assert_ne!(pass.write, ImageSlot::Generator, "pass {i} overwrites the generator");
    }
}

#[test]
fn dispatch_chain_swaps_once_per_effect() {
    // Two effects → two swaps → `current` toggles back to its initial
    // state, and the final image is the last pass's write image.
    let effects = vec![
        EffectKind::HueShift { amount: micro(0.5) },
        EffectKind::BrightnessContrast {
            brightness: micro(0.1),
            contrast: micro(1.2),
        },
    ];
    let mut pp = PingPong::new();
    let plan = plan_chain(&effects, &mut pp);
    assert!(!pp.current, "even number of effects leaves current=false");
    assert_eq!(final_image(effects.len(), &pp), plan[1].write);
}

#[test]
fn odd_chain_flips_roles() {
    let effects = vec![EffectKind::HueShift { amount: 0 }];
    let mut pp = PingPong::new();
    let plan = plan_chain(&effects, &mut pp);
    assert!(pp.current);
    assert_eq!(plan[0].write, ImageSlot::PingB);
    assert_eq!(final_image(1, &pp), ImageSlot::PingB);
}

#[test]
fn uniforms_carry_view_and_constants() {
    let mut p = Params::default();
    p.zoom = micro(2.0);
    p.center_x = micro(-0.75);
    p.center_y = micro(0.1);
    p.time = micro(3.5);
    p.max_iter = 250;
    p.set("julia_cx", micro(-0.7));
    p.set("julia_cy", micro(0.27015));
    let u = build_uniforms(&p, 800, 600);
    assert_eq!(u.resolution_x, 800);
    assert_eq!(u.resolution_y, 600);
    assert_eq!(u.zoom, micro(2.0));
    assert_eq!(u.center_x, micro(-0.75));
    assert_eq!(u.center_y, micro(0.1));
    assert_eq!(u.time, micro(3.5));
    assert_eq!(u.max_iter, 250);
    assert_eq!(u.julia_cx, micro(-0.7));
    assert_eq!(u.julia_cy, micro(0.27015));
}

#[test]
fn uniforms_default_external_constant_is_zero() {
    let p = Params::default();
    let u = build_uniforms(&p, 64, 64);
    assert_eq!(u.julia_cx, 0);
    assert_eq!(u.julia_cy, 0);
}
