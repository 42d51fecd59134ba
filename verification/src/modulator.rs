//! Modulators: units that read and write the parameter store once per
//! tick, animating parameters over time.
//!
//! Waveforms are exact piecewise-polynomial functions of the phase
//! fraction with period 1: sine rises through +1 at a quarter period and
//! falls through -1 at three quarters, exactly.  A modulator's effect is a
//! pure function of the current store state (plus its own configuration),
//! never of call order beyond the store itself.

use vstd::prelude::*;
use crate::params::{Params, StoreModel};
use crate::scalar::{clamp, frac, frac_spec, mul_unit, mul_unit_spec, sat_add, sat_add_spec,
    sat_sub, sat_sub_spec, trunc_div, HALF, QUARTER, UNIT};

verus! {

/// Oscillator shapes, all with period 1 in the phase fraction and range
/// [-1, +1].
#[derive(Debug, Clone, Copy, PartialEq, Eq, Structural)]
pub enum Waveform {
    Sine,
    Triangle,
    Square,
    Saw,
}

/// The smooth rise of the sine shape over half a period: a parabola that
/// is 0 at both ends and exactly 1 at the quarter point.
pub open spec fn spec_sine_arch(y: int) -> int {
    16 * y * (HALF - y) / (UNIT as int)
}

/// A waveform's raw value at phase fraction `x` (micro-units, `0 <= x <
/// UNIT`).
pub open spec fn spec_waveform(w: Waveform, x: int) -> int {
    match w {
        Waveform::Sine => if x < HALF {
            spec_sine_arch(x)
        } else {
            -spec_sine_arch(x - HALF)
        },
        Waveform::Triangle => if x < HALF {
            4 * x - UNIT
        } else {
            4 * (UNIT - x) - UNIT
        },
        Waveform::Square => if x <= HALF {
            UNIT as int
        } else {
            -(UNIT as int)
        },
        Waveform::Saw => 2 * x - UNIT,
    }
}

/// Evaluate the sine arch on `[0, HALF]`.
fn sine_arch(y: i64) -> (r: i64)
    requires
        0 <= y <= HALF,
    ensures
        r == spec_sine_arch(y as int),
        0 <= r <= UNIT,
{
    proof {
        assert(0 <= 16 * (y as int) * (HALF - y) <= 1_000_000_000_000) by (nonlinear_arith)
            requires
                0 <= y <= HALF,
                HALF == 500_000,
        ;
    }
    let p: i64 = 16 * y * (HALF - y);
    ((p as u64) / 1_000_000) as i64
}

/// Evaluate a waveform at phase fraction `x`.
pub fn waveform_value(w: Waveform, x: i64) -> (r: i64)
    requires
        0 <= x < UNIT,
    ensures
        r == spec_waveform(w, x as int),
        -UNIT <= r <= UNIT,
{
    match w {
        Waveform::Sine => {
            if x < HALF {
                sine_arch(x)
            } else {
                -sine_arch(x - HALF)
            }
        },
        Waveform::Triangle => {
            if x < HALF {
                4 * x - UNIT
            } else {
                4 * (UNIT - x) - UNIT
            }
        },
        Waveform::Square => {
            if x <= HALF {
                UNIT
            } else {
                -UNIT
            }
        },
        Waveform::Saw => 2 * x - UNIT,
    }
}

// ---------------------------------------------------------------------
// Lfo
// ---------------------------------------------------------------------

/// Periodic oscillator: writes `offset + amplitude * waveform(time *
/// frequency)` to its target key every tick.
pub struct Lfo {
    pub target: String,
    pub waveform: Waveform,
    /// Cycles per second, micro-units.
    pub frequency: i64,
    pub amplitude: i64,
    pub offset: i64,
}

/// The oscillator's phase fraction at `time`.
pub open spec fn spec_lfo_phase(l: Lfo, time: i64) -> int {
    frac_spec(mul_unit_spec(time as int, l.frequency as int))
}

/// The raw waveform value the oscillator samples at `time`.
pub open spec fn spec_lfo_raw(l: Lfo, time: i64) -> int {
    spec_waveform(l.waveform, spec_lfo_phase(l, time))
}

/// The value the oscillator writes at `time`.
pub open spec fn spec_lfo_out(l: Lfo, time: i64) -> int {
    sat_add_spec(l.offset as int, mul_unit_spec(spec_lfo_raw(l, time), l.amplitude as int))
}

// ---------------------------------------------------------------------
// RandomWalk
// ---------------------------------------------------------------------

/// Phase rate of the drift placeholder (0.37 in micro-units).
pub const DRIFT_RATE: i64 = 370_000;

/// Constant phase offset of the drift placeholder (cycles, micro-units).
pub const DRIFT_PHASE: i64 = 257_513;

/// Smoothed drift: a deterministic placeholder for a bounded random walk.
/// Writes a slow sinusoid of `time * speed`, always in [-1/2, +1/2].
pub struct RandomWalk {
    pub target: String,
    pub speed: i64,
}

/// The value the drift writes at `time`.
pub open spec fn spec_drift_out(w: RandomWalk, time: i64) -> int {
    mul_unit_spec(
        HALF as int,
        spec_waveform(
            Waveform::Sine,
            frac_spec(
                sat_add_spec(
                    mul_unit_spec(mul_unit_spec(time as int, w.speed as int), DRIFT_RATE as int),
                    DRIFT_PHASE as int,
                ),
            ),
        ),
    )
}

// ---------------------------------------------------------------------
// MouseModulator
// ---------------------------------------------------------------------

/// Pointer-tracking mapper: writes the normalized pointer position,
/// remapped from [0, 1] to [-1, +1], to its configured targets.  A target
/// left unset is skipped.
pub struct MouseModulator {
    pub target_x: Option<String>,
    pub target_y: Option<String>,
}

/// `[0, 1]` remapped to `[-1, +1]`: `v * 2 - 1`, saturating.
pub open spec fn spec_pointer_value(v: i64) -> int {
    sat_sub_spec(sat_add_spec(v as int, v as int), UNIT as int)
}

/// The store after the pointer mapper runs: x target written first, then
/// y target.
pub open spec fn spec_mouse_apply(m: MouseModulator, s: StoreModel) -> StoreModel {
    let s1 = match m.target_x {
        Some(k) => StoreModel {
            fields: s.fields.insert(k@, spec_pointer_value(s.mouse_x) as i64),
            ..s
        },
        None => s,
    };
    match m.target_y {
        Some(k) => StoreModel {
            fields: s1.fields.insert(k@, spec_pointer_value(s.mouse_y) as i64),
            ..s1
        },
        None => s1,
    }
}

// ---------------------------------------------------------------------
// ModMatrix
// ---------------------------------------------------------------------

/// One routing-matrix entry: an inner modulator whose raw output (read at
/// `target` from an isolated store copy) is rescaled into `[min, max]`
/// and written to `target` in the real store.
pub struct Route {
    pub modulator: Box<Modulator>,
    pub target: String,
    pub min: i64,
    pub max: i64,
}

/// Routing matrix: applies each route in order.
pub struct ModMatrix {
    pub routes: Vec<Route>,
}

/// Rescale a raw modulator output (clamped into [-1, +1]) affinely into
/// `[min, max]`: `min + (raw/2 + 1/2) * (max - min)`.
pub open spec fn spec_route_scale(raw: i64, min: i64, max: i64) -> int {
    let c: int = if raw < -(UNIT as int) {
        -(UNIT as int)
    } else if raw > UNIT {
        UNIT as int
    } else {
        raw as int
    };
    let h: int = (c + UNIT) / 2;
    sat_add_spec(min as int, mul_unit_spec(h, sat_sub_spec(max as int, min as int)))
}

// ---------------------------------------------------------------------
// Modulator
// ---------------------------------------------------------------------

/// Any modulator a patch can hold.
pub enum Modulator {
    Lfo(Lfo),
    RandomWalk(RandomWalk),
    Mouse(MouseModulator),
    Matrix(ModMatrix),
}

/// The store state after modulator `m` runs against store state `s`.
pub open spec fn spec_modulate(m: Modulator, s: StoreModel) -> StoreModel
    decreases m, 0int,
{
    match m {
        Modulator::Lfo(l) => StoreModel {
            fields: s.fields.insert(l.target@, spec_lfo_out(l, s.time) as i64),
            ..s
        },
        Modulator::RandomWalk(w) => StoreModel {
            fields: s.fields.insert(w.target@, spec_drift_out(w, s.time) as i64),
            ..s
        },
        Modulator::Mouse(mm) => spec_mouse_apply(mm, s),
        Modulator::Matrix(x) => spec_run_routes(x.routes, 0, s),
    }
}

/// The store state after routes `i..` of a matrix run against `s`.  Each
/// route probes its inner modulator against the incoming state, then
/// writes the rescaled result; later routes see earlier routes' writes.
pub open spec fn spec_run_routes(routes: Vec<Route>, i: int, s: StoreModel) -> StoreModel
    decreases routes, routes@.len() - i,
{
    if i < 0 || i >= routes@.len() {
        s
    } else {
        let raw = spec_modulate(*routes@[i].modulator, s).fields[routes@[i].target@];
        let written = spec_route_scale(raw, routes@[i].min, routes@[i].max) as i64;
        spec_run_routes(
            routes,
            i + 1,
            StoreModel { fields: s.fields.insert(routes@[i].target@, written), ..s },
        )
    }
}

impl Modulator {
    /// Run this modulator against the live store.
    pub fn modulate(&self, params: &mut Params)
        ensures
            final(params)@ == spec_modulate(*self, old(params)@),
        decreases *self, 0int,
    {
        match self {
            Modulator::Lfo(l) => {
                let cycles = mul_unit(params.time, l.frequency);
                let phase = frac(cycles);
                let raw = waveform_value(l.waveform, phase);
                let out = sat_add(l.offset, mul_unit(raw, l.amplitude));
                params.set(l.target.as_str(), out);
            },
            Modulator::RandomWalk(w) => {
                let cycles = sat_add(
                    mul_unit(mul_unit(params.time, w.speed), DRIFT_RATE),
                    DRIFT_PHASE,
                );
                let raw = waveform_value(Waveform::Sine, frac(cycles));
                let out = mul_unit(HALF, raw);
                params.set(w.target.as_str(), out);
            },
            Modulator::Mouse(mm) => {
                if let Some(k) = &mm.target_x {
                    let v = sat_sub(sat_add(params.mouse_x, params.mouse_x), UNIT);
                    params.set(k.as_str(), v);
                }
                if let Some(k) = &mm.target_y {
                    let v = sat_sub(sat_add(params.mouse_y, params.mouse_y), UNIT);
                    params.set(k.as_str(), v);
                }
            },
            Modulator::Matrix(x) => {
                apply_routes(&x.routes, 0, params);
            },
        }
    }
}

/// Scaling by one (or minus one) in fixed point is exact.
proof fn lemma_mul_unit_one(a: int)
    requires
        i64::MIN <= a <= i64::MAX,
    ensures
        mul_unit_spec(UNIT as int, a) == a,
        a > i64::MIN ==> mul_unit_spec(-(UNIT as int), a) == -a,
{
    let u = UNIT as int;
    if a >= 0 {
        vstd::arithmetic::div_mod::lemma_div_multiples_vanish(a, u);
        if a > 0 {
            assert(trunc_div(-u * a, u) == -(u * a / u));
        }
    } else {
        vstd::arithmetic::div_mod::lemma_div_multiples_vanish(-a, u);
        assert(-(u * a) == u * (-a)) by (nonlinear_arith);
        assert(trunc_div(u * a, u) == -((u * (-a)) / u));
        assert(-u * a == u * (-a)) by (nonlinear_arith);
    }
}

/// Oscillator determinism at the peaks: whenever the phase fraction is
/// exactly a quarter period, a sine oscillator writes exactly `offset +
/// amplitude` to its target; at three quarters, exactly `offset -
/// amplitude`.  (The preconditions keep the sum inside the scalar range,
/// where no saturation occurs.)
pub proof fn lemma_oscillator_peaks(l: Lfo, s: StoreModel)
    requires
        l.waveform == Waveform::Sine,
        i64::MIN <= l.offset + l.amplitude <= i64::MAX,
        i64::MIN <= l.offset - l.amplitude <= i64::MAX,
        l.amplitude > i64::MIN,
    ensures
        spec_lfo_phase(l, s.time) == QUARTER ==> spec_modulate(Modulator::Lfo(l), s)
            .fields[l.target@] == l.offset + l.amplitude,
        spec_lfo_phase(l, s.time) == 3 * QUARTER ==> spec_modulate(Modulator::Lfo(l), s)
            .fields[l.target@] == l.offset - l.amplitude,
{
    lemma_mul_unit_one(l.amplitude as int);
    if spec_lfo_phase(l, s.time) == QUARTER {
        assert(spec_waveform(Waveform::Sine, QUARTER as int) == UNIT);
    }
    if spec_lfo_phase(l, s.time) == 3 * QUARTER {
        assert(spec_waveform(Waveform::Sine, 3 * (QUARTER as int)) == -(UNIT as int));
    }
}

/// Matrix rescaling at the endpoints: when a route's inner modulator
/// produces raw +1 at the target key, the matrix writes exactly `max`;
/// raw -1 maps to exactly `min`, for any `[min, max]` whose difference
/// fits the scalar range.
pub proof fn lemma_matrix_full_scale(x: ModMatrix, s: StoreModel)
    requires
        x.routes@.len() == 1,
        i64::MIN < x.routes@[0].max - x.routes@[0].min <= i64::MAX,
    ensures
        ({
            let r = x.routes@[0];
            let raw = spec_modulate(*r.modulator, s).fields[r.target@];
            &&& raw == UNIT ==> spec_modulate(Modulator::Matrix(x), s).fields[r.target@] == r.max
            &&& raw == -(UNIT as int) ==> spec_modulate(Modulator::Matrix(x), s).fields[r.target@]
                == r.min
        }),
{
    reveal_with_fuel(spec_run_routes, 3);
    reveal_with_fuel(spec_modulate, 2);
    let r = x.routes@[0];
    let raw = spec_modulate(*r.modulator, s).fields[r.target@];
    let diff = r.max - r.min;
    lemma_mul_unit_one(diff);
    if raw == UNIT {
        assert(((UNIT + UNIT) as int) / 2 == UNIT as int);
        assert(spec_route_scale(raw, r.min, r.max) == r.max as int);
    }
    if raw == -(UNIT as int) {
        assert(((-(UNIT as int)) + UNIT) / 2 == 0);
        assert(trunc_div(0 * diff, UNIT as int) == 0) by {
            vstd::arithmetic::div_mod::lemma_div_of0(UNIT as int);
        }
        assert(spec_route_scale(raw, r.min, r.max) == r.min as int);
    }
}

/// Every waveform stays in [-1, +1] over its whole period.
pub proof fn lemma_waveform_in_range(w: Waveform, x: int)
    requires
        0 <= x < UNIT,
    ensures
        -(UNIT as int) <= spec_waveform(w, x) <= UNIT,
{
    assert forall|y: int| 0 <= y <= HALF implies 0 <= #[trigger] spec_sine_arch(y) <= UNIT by {
        assert(0 <= 16 * y * (HALF - y) <= 1_000_000_000_000) by (nonlinear_arith)
            requires
                0 <= y <= HALF,
                HALF == 500_000,
        ;
        assert(16 * y * (HALF - y) / (UNIT as int) <= UNIT) by {
            vstd::arithmetic::div_mod::lemma_div_is_ordered(
                16 * y * (HALF - y),
                1_000_000_000_000,
                UNIT as int,
            );
        }
        vstd::arithmetic::div_mod::lemma_div_pos_is_pos(16 * y * (HALF - y), UNIT as int);
    }
}

/// The drift placeholder stays in [-1/2, +1/2], as a smoothed random
/// walk must.
pub proof fn lemma_drift_in_range(w: RandomWalk, time: i64)
    ensures
        -(HALF as int) <= spec_drift_out(w, time) <= HALF,
{
    let u = UNIT as int;
    let phase = frac_spec(
        sat_add_spec(
            mul_unit_spec(mul_unit_spec(time as int, w.speed as int), DRIFT_RATE as int),
            DRIFT_PHASE as int,
        ),
    );
    lemma_waveform_in_range(Waveform::Sine, phase);
    let v = spec_waveform(Waveform::Sine, phase);
    assert(-u <= v <= u);
    if v >= 0 {
        assert((HALF as int) * v <= (HALF as int) * u) by (nonlinear_arith)
            requires
                v <= u,
                HALF > 0,
        ;
        vstd::arithmetic::div_mod::lemma_div_is_ordered((HALF as int) * v, (HALF as int) * u, u);
        vstd::arithmetic::div_mod::lemma_div_multiples_vanish(HALF as int, u);
        assert((HALF as int) * u == u * (HALF as int)) by (nonlinear_arith);
        vstd::arithmetic::div_mod::lemma_div_pos_is_pos((HALF as int) * v, u);
    } else {
        assert((HALF as int) * (-v) <= (HALF as int) * u) by (nonlinear_arith)
            requires
                -v <= u,
                HALF > 0,
        ;
        assert(-((HALF as int) * v) == (HALF as int) * (-v)) by (nonlinear_arith);
        vstd::arithmetic::div_mod::lemma_div_is_ordered(
            (HALF as int) * (-v),
            (HALF as int) * u,
            u,
        );
        vstd::arithmetic::div_mod::lemma_div_multiples_vanish(HALF as int, u);
        assert((HALF as int) * u == u * (HALF as int)) by (nonlinear_arith);
        vstd::arithmetic::div_mod::lemma_div_pos_is_pos((HALF as int) * (-v), u);
    }
}

/// Apply routes `i..` of a matrix to the live store.
fn apply_routes(routes: &Vec<Route>, i: usize, params: &mut Params)
    ensures
        final(params)@ == spec_run_routes(*routes, i as int, old(params)@),
    decreases *routes, routes@.len() - i,
{
    if i < routes.len() {
        let route = &routes[i];
        // Probe the inner modulator against an isolated copy, so the
        // probe's own writes never reach the real store.
        let mut probe = params.duplicate();
        route.modulator.modulate(&mut probe);
        let raw = probe.get(route.target.as_str());
        let clamped = clamp(raw, -UNIT, UNIT);
        let h = (((clamped + UNIT) as u64) / 2) as i64;
        let written = sat_add(route.min, mul_unit(h, sat_sub(route.max, route.min)));
        params.set(route.target.as_str(), written);
        apply_routes(routes, i + 1, params);
    }
}

} // verus!
