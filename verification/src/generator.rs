//! Generators: stateless selectors that map a parameter snapshot to a
//! full-frame image (via an opaque compute kernel chosen by kind).
//!
//! Each generator declares which named parameters affect its output; the
//! patch uses that list for staleness detection.  The structural view
//! fields (zoom, center, iteration bound) affect every generator and are
//! tracked separately.

use vstd::prelude::*;
use crate::kind::GeneratorKind;

verus! {

/// The named parameter keys whose values affect a generator's image.
pub open spec fn spec_gen_param_keys(kind: GeneratorKind) -> Seq<Seq<char>> {
    match kind {
        GeneratorKind::Mandelbrot => seq![],
        GeneratorKind::Julia => seq!["julia_cx"@, "julia_cy"@],
        GeneratorKind::BurningShip => seq![],
        GeneratorKind::NoiseField => seq![],
    }
}

/// The key list for `kind`, as owned strings.
pub fn gen_param_keys_of(kind: GeneratorKind) -> (keys: Vec<String>)
    ensures
        keys@.len() == spec_gen_param_keys(kind).len(),
        forall|i: int|
            0 <= i < keys@.len() ==> keys@[i]@ == spec_gen_param_keys(kind)[i],
{
    let mut keys: Vec<String> = Vec::new();
    match kind {
        GeneratorKind::Mandelbrot => {},
        GeneratorKind::Julia => {
            keys.push("julia_cx".to_owned());
            keys.push("julia_cy".to_owned());
        },
        GeneratorKind::BurningShip => {},
        GeneratorKind::NoiseField => {},
    }
    keys
}

/// A generator: a kind tag plus the parameter keys it depends on.
pub trait Generator {
    /// The kind this generator resolves to.
    spec fn spec_kind(&self) -> GeneratorKind;

    /// The kind tag selecting the compute kernel.
    fn kind(&self) -> (k: GeneratorKind)
        ensures
            k == self.spec_kind(),
    ;

    /// Which named parameters affect the generator output (used for cache
    /// invalidation).
    fn gen_param_keys(&self) -> (keys: Vec<String>)
        ensures
            keys@.len() == spec_gen_param_keys(self.spec_kind()).len(),
            forall|i: int|
                0 <= i < keys@.len() ==> keys@[i]@ == spec_gen_param_keys(self.spec_kind())[i],
    ;
}

/// Classic escape-time map: z := z^2 + c from z = 0.
pub struct MandelbrotGen;

impl Generator for MandelbrotGen {
    open spec fn spec_kind(&self) -> GeneratorKind {
        GeneratorKind::Mandelbrot
    }

    fn kind(&self) -> GeneratorKind {
        GeneratorKind::Mandelbrot
    }

    fn gen_param_keys(&self) -> Vec<String> {
        gen_param_keys_of(GeneratorKind::Mandelbrot)
    }
}

/// Escape-time map with an external constant: z := z^2 + c from z = pixel.
///
/// The constant c is stored under the `julia_cx` / `julia_cy` keys so the
/// compute layer can read it into the per-frame uniform snapshot.
pub struct JuliaGen;

impl Generator for JuliaGen {
    open spec fn spec_kind(&self) -> GeneratorKind {
        GeneratorKind::Julia
    }

    fn kind(&self) -> GeneratorKind {
        GeneratorKind::Julia
    }

    fn gen_param_keys(&self) -> Vec<String> {
        gen_param_keys_of(GeneratorKind::Julia)
    }
}

/// Variant iteration rule: the escape-time map over |re| and |im|.
pub struct BurningShipGen;

impl Generator for BurningShipGen {
    open spec fn spec_kind(&self) -> GeneratorKind {
        GeneratorKind::BurningShip
    }

    fn kind(&self) -> GeneratorKind {
        GeneratorKind::BurningShip
    }

    fn gen_param_keys(&self) -> Vec<String> {
        gen_param_keys_of(GeneratorKind::BurningShip)
    }
}

/// Animated noise field.
pub struct NoiseFieldGen;

impl Generator for NoiseFieldGen {
    open spec fn spec_kind(&self) -> GeneratorKind {
        GeneratorKind::NoiseField
    }

    fn kind(&self) -> GeneratorKind {
        GeneratorKind::NoiseField
    }

    fn gen_param_keys(&self) -> Vec<String> {
        gen_param_keys_of(GeneratorKind::NoiseField)
    }
}

} // verus!
