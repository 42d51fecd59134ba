//! The session: the live patch plus the selected preset, and the rules
//! that map input actions onto them.
//!
//! Everything here is pure state manipulation; performing the resulting
//! render, and quitting, are the caller's business.

use vstd::prelude::*;
use crate::input::{clamp_iterations, spec_clamp_iterations, apply_zoom, spec_apply_zoom, InputAction};
use crate::params::StoreModel;
use crate::patch::Patch;
use crate::presets::{spec_built, Preset};

verus! {

/// How many presets exist.
pub const PRESET_COUNT: usize = 5;

/// The preset at a selection index.
pub open spec fn spec_preset_at(i: int) -> Preset {
    if i == 0 {
        Preset::ClassicMandelbrot
    } else if i == 1 {
        Preset::PsychedelicJulia
    } else if i == 2 {
        Preset::TrippyMandelbrot
    } else if i == 3 {
        Preset::BurningShipTrails
    } else {
        Preset::NoiseField
    }
}

/// A preset's selection index.
pub open spec fn spec_index_of(p: Preset) -> int {
    match p {
        Preset::ClassicMandelbrot => 0,
        Preset::PsychedelicJulia => 1,
        Preset::TrippyMandelbrot => 2,
        Preset::BurningShipTrails => 3,
        Preset::NoiseField => 4,
    }
}

fn preset_at(i: usize) -> (p: Preset)
    requires
        i < PRESET_COUNT,
    ensures
        p == spec_preset_at(i as int),
{
    if i == 0 {
        Preset::ClassicMandelbrot
    } else if i == 1 {
        Preset::PsychedelicJulia
    } else if i == 2 {
        Preset::TrippyMandelbrot
    } else if i == 3 {
        Preset::BurningShipTrails
    } else {
        Preset::NoiseField
    }
}

/// The iteration bound after one step of `delta`, saturating, then
/// clamped into the valid range.
pub open spec fn spec_step_iterations(iter: u32, up: bool) -> u32 {
    if up {
        spec_clamp_iterations(if iter + 10 > u32::MAX { u32::MAX } else { (iter + 10) as u32 })
    } else {
        spec_clamp_iterations(if iter < 10 { 0 } else { (iter - 10) as u32 })
    }
}

/// The live patch and which preset it came from.
pub struct Session {
    pub patch: Patch,
    pub preset_index: usize,
}

impl Session {
    /// Every session starts on the first preset.
    pub fn new() -> (s: Session)
        ensures
            s.preset_index == 0,
            spec_built(Preset::ClassicMandelbrot, s.patch),
    {
        Session { patch: Preset::ClassicMandelbrot.build(), preset_index: 0 }
    }

    /// Apply one input action.  Returns true when the caller should quit.
    /// Preset switches rebuild the patch wholesale; iteration steps
    /// saturate into [20, 500]; a zoom click applies the point-zoom
    /// formula to the view; everything else in the patch is untouched.
    pub fn handle_action(&mut self, action: InputAction, aspect: i64) -> (quit: bool)
        requires
            old(self).preset_index < PRESET_COUNT,
        ensures
            final(self).preset_index < PRESET_COUNT,
            match action {
                InputAction::LoadPreset(p) => {
                    &&& !quit
                    &&& final(self).preset_index == spec_index_of(p)
                    &&& spec_built(p, final(self).patch)
                },
                InputAction::CycleNextPreset => {
                    &&& !quit
                    &&& final(self).preset_index == (old(self).preset_index + 1) % (
                    PRESET_COUNT as int)
                    &&& spec_built(
                        spec_preset_at(final(self).preset_index as int),
                        final(self).patch,
                    )
                },
                InputAction::IterationsUp => {
                    &&& !quit
                    &&& final(self).preset_index == old(self).preset_index
                    &&& final(self).patch.params@ == (StoreModel {
                        max_iter: spec_step_iterations(old(self).patch.params.max_iter, true),
                        ..old(self).patch.params@
                    })
                    &&& final(self).patch.generator == old(self).patch.generator
                    &&& final(self).patch.effects == old(self).patch.effects
                    &&& final(self).patch.modulators == old(self).patch.modulators
                    &&& final(self).patch.last_gen_params == old(self).patch.last_gen_params
                },
                InputAction::IterationsDown => {
                    &&& !quit
                    &&& final(self).preset_index == old(self).preset_index
                    &&& final(self).patch.params@ == (StoreModel {
                        max_iter: spec_step_iterations(old(self).patch.params.max_iter, false),
                        ..old(self).patch.params@
                    })
                    &&& final(self).patch.generator == old(self).patch.generator
                    &&& final(self).patch.effects == old(self).patch.effects
                    &&& final(self).patch.modulators == old(self).patch.modulators
                    &&& final(self).patch.last_gen_params == old(self).patch.last_gen_params
                },
                InputAction::Reset => {
                    &&& !quit
                    &&& final(self).preset_index == old(self).preset_index
                    &&& spec_built(
                        spec_preset_at(old(self).preset_index as int),
                        final(self).patch,
                    )
                },
                InputAction::MouseZoom { norm_x, norm_y } => {
                    &&& !quit
                    &&& final(self).preset_index == old(self).preset_index
                    &&& ({
                        let view = spec_apply_zoom(
                            old(self).patch.params.center_x,
                            old(self).patch.params.center_y,
                            old(self).patch.params.zoom,
                            norm_x,
                            norm_y,
                            aspect,
                        );
                        final(self).patch.params@ == (StoreModel {
                            center_x: view.0,
                            center_y: view.1,
                            zoom: view.2,
                            ..old(self).patch.params@
                        })
                    })
                    &&& final(self).patch.generator == old(self).patch.generator
                    &&& final(self).patch.effects == old(self).patch.effects
                    &&& final(self).patch.modulators == old(self).patch.modulators
                    &&& final(self).patch.last_gen_params == old(self).patch.last_gen_params
                },
                InputAction::Quit => {
                    &&& quit
                    &&& *final(self) == *old(self)
                },
            },
    {
        match action {
            InputAction::LoadPreset(p) => {
                self.preset_index = match p {
                    Preset::ClassicMandelbrot => 0,
                    Preset::PsychedelicJulia => 1,
                    Preset::TrippyMandelbrot => 2,
                    Preset::BurningShipTrails => 3,
                    Preset::NoiseField => 4,
                };
                self.patch = p.build();
                false
            },
            InputAction::CycleNextPreset => {
                self.preset_index = (self.preset_index + 1) % PRESET_COUNT;
                self.patch = preset_at(self.preset_index).build();
                false
            },
            InputAction::IterationsUp => {
                let stepped = match self.patch.params.max_iter.checked_add(10) {
                    Some(v) => v,
                    None => u32::MAX,
                };
                self.patch.params.max_iter = clamp_iterations(stepped);
                false
            },
            InputAction::IterationsDown => {
                let stepped = if self.patch.params.max_iter < 10 {
                    0
                } else {
                    self.patch.params.max_iter - 10
                };
                self.patch.params.max_iter = clamp_iterations(stepped);
                false
            },
            InputAction::Reset => {
                self.patch = preset_at(self.preset_index).build();
                false
            },
            InputAction::MouseZoom { norm_x, norm_y } => {
                let view = apply_zoom(
                    self.patch.params.center_x,
                    self.patch.params.center_y,
                    self.patch.params.zoom,
                    norm_x,
                    norm_y,
                    aspect,
                );
                self.patch.params.center_x = view.0;
                self.patch.params.center_y = view.1;
                self.patch.params.zoom = view.2;
                false
            },
            InputAction::Quit => true,
        }
    }
}

} // verus!
