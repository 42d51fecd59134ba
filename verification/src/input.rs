//! Input rules: key-to-action translation, the point-zoom formula, the
//! iteration-bound clamp, and pointer normalization.

use vstd::prelude::*;
use crate::params::{Params, StoreModel};
use crate::presets::Preset;
use crate::scalar::{div_unit, div_unit_spec, mul_unit, mul_unit_spec, sat_add, sat_add_spec,
    sat_sub, sat_sub_spec, HALF, UNIT};

verus! {

/// A keyboard key, independent of any windowing library.
#[derive(Debug, Clone, Copy, PartialEq, Eq, Structural)]
pub enum Key {
    Digit1,
    Digit2,
    Digit3,
    Digit4,
    Digit5,
    Space,
    /// The = / + physical key; shift state is ignored.
    Equal,
    /// The - / _ physical key; shift state is ignored.
    Minus,
    R,
    Q,
    Escape,
}

/// High-level action produced by a key press or mouse click.
#[derive(Debug, Clone, Copy, PartialEq, Eq, Structural)]
pub enum InputAction {
    LoadPreset(Preset),
    CycleNextPreset,
    IterationsUp,
    IterationsDown,
    Reset,
    Quit,
    /// Zoom in 2x centred on a normalized screen position, micro-units in
    /// [0, UNIT] (0 = left/top, UNIT = right/bottom).
    MouseZoom { norm_x: i64, norm_y: i64 },
}

/// Translates device input into actions.
pub struct InputState;

/// The fixed key map: digits load presets, space cycles, = / - step the
/// iteration bound, R resets, Q and Escape quit.
pub open spec fn spec_on_key(key: Key) -> Option<InputAction> {
    match key {
        Key::Digit1 => Some(InputAction::LoadPreset(Preset::ClassicMandelbrot)),
        Key::Digit2 => Some(InputAction::LoadPreset(Preset::PsychedelicJulia)),
        Key::Digit3 => Some(InputAction::LoadPreset(Preset::TrippyMandelbrot)),
        Key::Digit4 => Some(InputAction::LoadPreset(Preset::BurningShipTrails)),
        Key::Digit5 => Some(InputAction::LoadPreset(Preset::NoiseField)),
        Key::Space => Some(InputAction::CycleNextPreset),
        Key::Equal => Some(InputAction::IterationsUp),
        Key::Minus => Some(InputAction::IterationsDown),
        Key::R => Some(InputAction::Reset),
        Key::Q => Some(InputAction::Quit),
        Key::Escape => Some(InputAction::Quit),
    }
}

impl InputState {
    pub fn new() -> (s: InputState)
    {
        InputState
    }

    /// Translate a key press into an action, if the key is mapped.
    pub fn on_key(&self, key: Key) -> (r: Option<InputAction>)
        ensures
            r == spec_on_key(key),
    {
        match key {
            Key::Digit1 => Some(InputAction::LoadPreset(Preset::ClassicMandelbrot)),
            Key::Digit2 => Some(InputAction::LoadPreset(Preset::PsychedelicJulia)),
            Key::Digit3 => Some(InputAction::LoadPreset(Preset::TrippyMandelbrot)),
            Key::Digit4 => Some(InputAction::LoadPreset(Preset::BurningShipTrails)),
            Key::Digit5 => Some(InputAction::LoadPreset(Preset::NoiseField)),
            Key::Space => Some(InputAction::CycleNextPreset),
            Key::Equal => Some(InputAction::IterationsUp),
            Key::Minus => Some(InputAction::IterationsDown),
            Key::R => Some(InputAction::Reset),
            Key::Q | Key::Escape => Some(InputAction::Quit),
        }
    }

    /// Produce a zoom action from a normalized click position.
    pub fn on_mouse_click(&self, norm_x: i64, norm_y: i64) -> (r: InputAction)
        ensures
            r == (InputAction::MouseZoom { norm_x, norm_y }),
    {
        InputAction::MouseZoom { norm_x, norm_y }
    }
}

/// The view scale: 4 units of the complex plane divided by the zoom.
pub const VIEW_SPAN: i64 = 4_000_000;

/// The view after a 2x point zoom at normalized position `(norm_x,
/// norm_y)`:
/// ```text
/// scale    = 4 / zoom
/// new_cx   = cx + (norm_x - 1/2) * scale * aspect
/// new_cy   = cy + (norm_y - 1/2) * scale
/// new_zoom = zoom * 2
/// ```
/// A non-positive zoom is a degenerate view: the action is rejected and
/// the view returned unchanged.
pub open spec fn spec_apply_zoom(
    cx: i64,
    cy: i64,
    zoom: i64,
    norm_x: i64,
    norm_y: i64,
    aspect: i64,
) -> (i64, i64, i64) {
    if zoom <= 0 {
        (cx, cy, zoom)
    } else {
        let scale = div_unit_spec(VIEW_SPAN as int, zoom as int);
        let nx = sat_add_spec(
            cx as int,
            mul_unit_spec(mul_unit_spec(sat_sub_spec(norm_x as int, HALF as int), scale), aspect as int),
        );
        let ny = sat_add_spec(
            cy as int,
            mul_unit_spec(sat_sub_spec(norm_y as int, HALF as int), scale),
        );
        (nx as i64, ny as i64, sat_add_spec(zoom as int, zoom as int) as i64)
    }
}

/// Apply a 2x point zoom to the current view, returning the new center
/// and zoom.  `aspect` is width/height in micro-units.
pub fn apply_zoom(cx: i64, cy: i64, zoom: i64, norm_x: i64, norm_y: i64, aspect: i64) -> (r: (
    i64,
    i64,
    i64,
))
    ensures
        r == spec_apply_zoom(cx, cy, zoom, norm_x, norm_y, aspect),
{
    if zoom <= 0 {
        return (cx, cy, zoom);
    }
    let scale = div_unit(VIEW_SPAN, zoom);
    let nx = sat_add(cx, mul_unit(mul_unit(sat_sub(norm_x, HALF), scale), aspect));
    let ny = sat_add(cy, mul_unit(sat_sub(norm_y, HALF), scale));
    (nx, ny, sat_add(zoom, zoom))
}

/// The iteration bound, clamped into its valid range [20, 500].
pub open spec fn spec_clamp_iterations(iter: u32) -> u32 {
    if iter < 20 {
        20
    } else if iter > 500 {
        500
    } else {
        iter
    }
}

pub fn clamp_iterations(iter: u32) -> (r: u32)
    ensures
        r == spec_clamp_iterations(iter),
        20 <= r <= 500,
{
    if iter < 20 {
        20
    } else if iter > 500 {
        500
    } else {
        iter
    }
}

/// A pixel position normalized against an extent: `px / size` in
/// micro-units, truncated.
pub open spec fn spec_normalize_pixel(px: u32, size: u32) -> int {
    (px * UNIT) as int / size as int
}

/// Record the pointer position in the store, normalized to [0, UNIT]
/// for a pointer inside the surface.
pub fn set_pointer(params: &mut Params, px: u32, py: u32, width: u32, height: u32)
    requires
        width > 0,
        height > 0,
    ensures
        final(params)@ == (StoreModel {
            mouse_x: spec_normalize_pixel(px, width) as i64,
            mouse_y: spec_normalize_pixel(py, height) as i64,
            ..old(params)@
        }),
{
    let mx = ((px as u64 * UNIT as u64) / width as u64) as i64;
    let my = ((py as u64 * UNIT as u64) / height as u64) as i64;
    proof {
        assert(px as int * UNIT as int / width as int <= px as int * UNIT as int) by (nonlinear_arith)
            requires
                width >= 1,
                px >= 0,
                UNIT > 0,
        ;
        assert(py as int * UNIT as int / height as int <= py as int * UNIT as int) by (nonlinear_arith)
            requires
                height >= 1,
                py >= 0,
                UNIT > 0,
        ;
    }
    params.mouse_x = mx;
    params.mouse_y = my;
}

/// Clicking the exact screen center does not pan: the center stays put
/// and the zoom exactly doubles, so repeated center clicks compound the
/// zoom multiplicatively (2x, 4x, 8x, ...).
pub proof fn lemma_center_zoom_doubles(cx: i64, cy: i64, zoom: i64, aspect: i64)
    requires
        0 < zoom <= i64::MAX / 2,
    ensures
        spec_apply_zoom(cx, cy, zoom, HALF, HALF, aspect) == (cx, cy, (2 * zoom) as i64),
{
    let scale = div_unit_spec(VIEW_SPAN as int, zoom as int);
    assert(mul_unit_spec(0, scale) == 0);
    assert(mul_unit_spec(0, aspect as int) == 0);
}

/// Two center clicks in a row exactly quadruple the zoom.
pub proof fn lemma_center_zoom_compounds(cx: i64, cy: i64, zoom: i64, aspect: i64)
    requires
        0 < zoom <= i64::MAX / 4,
    ensures
        ({
            let r1 = spec_apply_zoom(cx, cy, zoom, HALF, HALF, aspect);
            spec_apply_zoom(r1.0, r1.1, r1.2, HALF, HALF, aspect) == (cx, cy, (4 * zoom) as i64)
        }),
{
    lemma_center_zoom_doubles(cx, cy, zoom, aspect);
    lemma_center_zoom_doubles(cx, cy, (2 * zoom) as i64, aspect);
}

} // verus!
