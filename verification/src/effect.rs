//! Effects: stateless selectors that map an input image plus a parameter
//! snapshot to an output image (via an opaque compute kernel chosen by
//! kind).
//!
//! Some configuration values are constants baked at patch-build time;
//! others are read live from the parameter store each frame, so a
//! modulator can animate them.

use vstd::prelude::*;
use crate::kind::{ColorScheme, EffectKind};
use crate::params::{Params, StoreModel};

verus! {

/// Apply a fixed color-map palette to the escape-time value.
pub struct ColorMapEffect(pub ColorScheme);

impl ColorMapEffect {
    pub open spec fn spec_kind(&self, s: StoreModel) -> EffectKind {
        EffectKind::ColorMap { scheme: self.0 }
    }

    pub fn kind(&self, params: &Params) -> (k: EffectKind)
        ensures
            k == self.spec_kind(params@),
    {
        EffectKind::ColorMap { scheme: self.0 }
    }
}

/// Rotate hue by an amount read from a store key each frame, enabling
/// modulator-driven hue animation.
pub struct HueShiftEffect(pub String);

impl HueShiftEffect {
    pub open spec fn spec_kind(&self, s: StoreModel) -> EffectKind {
        EffectKind::HueShift { amount: s.fields[self.0@] }
    }

    pub fn kind(&self, params: &Params) -> (k: EffectKind)
        ensures
            k == self.spec_kind(params@),
    {
        EffectKind::HueShift { amount: params.get(self.0.as_str()) }
    }
}

/// UV-warp ripple distortion whose amplitude is read from a store key
/// each frame, enabling modulator-driven pulsing.
pub struct RippleEffect {
    pub frequency: i64,
    pub amplitude_key: String,
    pub speed: i64,
}

impl RippleEffect {
    pub open spec fn spec_kind(&self, s: StoreModel) -> EffectKind {
        EffectKind::Ripple {
            frequency: self.frequency,
            amplitude: s.fields[self.amplitude_key@],
            speed: self.speed,
        }
    }

    pub fn kind(&self, params: &Params) -> (k: EffectKind)
        ensures
            k == self.spec_kind(params@),
    {
        EffectKind::Ripple {
            frequency: self.frequency,
            amplitude: params.get(self.amplitude_key.as_str()),
            speed: self.speed,
        }
    }
}

/// Multi-layer echo / smear with fixed parameters.
pub struct EchoEffect {
    pub layers: u32,
    pub offset: i64,
    pub decay: i64,
}

impl EchoEffect {
    pub open spec fn spec_kind(&self, s: StoreModel) -> EffectKind {
        EffectKind::Echo { layers: self.layers, offset: self.offset, decay: self.decay }
    }

    pub fn kind(&self, params: &Params) -> (k: EffectKind)
        ensures
            k == self.spec_kind(params@),
    {
        EffectKind::Echo { layers: self.layers, offset: self.offset, decay: self.decay }
    }
}

/// Brightness + contrast where brightness is read from a store key each
/// frame, enabling modulator-driven brightness animation.
pub struct BrightnessContrastEffect {
    pub brightness_key: String,
    pub contrast: i64,
}

impl BrightnessContrastEffect {
    pub open spec fn spec_kind(&self, s: StoreModel) -> EffectKind {
        EffectKind::BrightnessContrast {
            brightness: s.fields[self.brightness_key@],
            contrast: self.contrast,
        }
    }

    pub fn kind(&self, params: &Params) -> (k: EffectKind)
        ensures
            k == self.spec_kind(params@),
    {
        EffectKind::BrightnessContrast {
            brightness: params.get(self.brightness_key.as_str()),
            contrast: self.contrast,
        }
    }
}

/// Motion-blur trail with a fixed opacity.
pub struct MotionBlurEffect(pub i64);

impl MotionBlurEffect {
    pub open spec fn spec_kind(&self, s: StoreModel) -> EffectKind {
        EffectKind::MotionBlur { opacity: self.0 }
    }

    pub fn kind(&self, params: &Params) -> (k: EffectKind)
        ensures
            k == self.spec_kind(params@),
    {
        EffectKind::MotionBlur { opacity: self.0 }
    }
}

/// Any effect a patch can hold, as a closed sum over the effect types.
pub enum Effect {
    ColorMap(ColorMapEffect),
    Ripple(RippleEffect),
    Echo(EchoEffect),
    HueShift(HueShiftEffect),
    BrightnessContrast(BrightnessContrastEffect),
    MotionBlur(MotionBlurEffect),
}

impl Effect {
    /// The kind this effect resolves to against store state `s`.
    pub open spec fn spec_kind(&self, s: StoreModel) -> EffectKind {
        match self {
            Effect::ColorMap(e) => e.spec_kind(s),
            Effect::Ripple(e) => e.spec_kind(s),
            Effect::Echo(e) => e.spec_kind(s),
            Effect::HueShift(e) => e.spec_kind(s),
            Effect::BrightnessContrast(e) => e.spec_kind(s),
            Effect::MotionBlur(e) => e.spec_kind(s),
        }
    }

    /// Resolve the kernel-ready descriptor for this effect, reading any
    /// live configuration values from `params`.
    pub fn kind(&self, params: &Params) -> (k: EffectKind)
        ensures
            k == self.spec_kind(params@),
    {
        match self {
            Effect::ColorMap(e) => e.kind(params),
            Effect::Ripple(e) => e.kind(params),
            Effect::Echo(e) => e.kind(params),
            Effect::HueShift(e) => e.kind(params),
            Effect::BrightnessContrast(e) => e.kind(params),
            Effect::MotionBlur(e) => e.kind(params),
        }
    }
}

/// The kinds a whole effect list resolves to, in order.
pub open spec fn spec_resolve_effects(effects: Seq<Effect>, s: StoreModel) -> Seq<EffectKind> {
    Seq::new(effects.len(), |i: int| effects[i].spec_kind(s))
}

/// Resolve every effect in order against the current store state.
/// Effects with live configuration must be re-resolved every frame.
pub fn resolve_effects(effects: &Vec<Effect>, params: &Params) -> (kinds: Vec<EffectKind>)
    ensures
        kinds@ == spec_resolve_effects(effects@, params@),
{
    let mut kinds: Vec<EffectKind> = Vec::new();
    let n = effects.len();
    let mut i: usize = 0;
    while i < n
        invariant
            0 <= i <= n,
            n == effects.len(),
            kinds@.len() == i,
            forall|j: int| 0 <= j < i ==> kinds@[j] == effects@[j].spec_kind(params@),
        decreases n - i,
    {
        let k = effects[i].kind(params);
        kinds.push(k);
        i += 1;
    }
    proof {
        assert(kinds@ =~= spec_resolve_effects(effects@, params@));
    }
    kinds
}

} // verus!
