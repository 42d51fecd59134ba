//! A patch: one generator, an ordered effect chain, a modulator list, the
//! parameter store, and a cached snapshot of the last-seen
//! generator-relevant values.
//!
//! `tick` advances time and runs every modulator in declared order.
//! `generator_dirty` decides whether the expensive generator pass must be
//! re-dispatched: it snapshots the generator-relevant values (declared
//! keys plus the structural view fields) and compares them, exactly,
//! against the previous snapshot.

use vstd::prelude::*;
use crate::effect::Effect;
use crate::generator::{gen_param_keys_of, spec_gen_param_keys};
use crate::kind::GeneratorKind;
use crate::modulator::{spec_modulate, Modulator};
use crate::params::{Params, StoreModel};
use crate::scalar::{sat_add, sat_add_spec};

verus! {

/// The generator-relevant values seen at one `generator_dirty` call: the
/// value of each declared key, in declaration order, plus the structural
/// view fields that affect every generator.
pub struct Snapshot {
    pub values: Vec<i64>,
    pub zoom: i64,
    pub center_x: i64,
    pub center_y: i64,
    pub max_iter: u32,
}

/// Mathematical model of a snapshot.
pub struct SnapModel {
    pub values: Seq<i64>,
    pub zoom: i64,
    pub center_x: i64,
    pub center_y: i64,
    pub max_iter: u32,
}

impl View for Snapshot {
    type V = SnapModel;

    open spec fn view(&self) -> SnapModel {
        SnapModel {
            values: self.values@,
            zoom: self.zoom,
            center_x: self.center_x,
            center_y: self.center_y,
            max_iter: self.max_iter,
        }
    }
}

/// The snapshot a store state yields for a generator kind.  The elapsed
/// time and the pointer are deliberately absent: they never make a
/// generator stale unless declared as keys.
pub open spec fn spec_snapshot(kind: GeneratorKind, s: StoreModel) -> SnapModel {
    SnapModel {
        values: Seq::new(
            spec_gen_param_keys(kind).len(),
            |i: int| s.fields[spec_gen_param_keys(kind)[i]],
        ),
        zoom: s.zoom,
        center_x: s.center_x,
        center_y: s.center_y,
        max_iter: s.max_iter,
    }
}

/// The store state after modulators `i..` run in order against `s`.
pub open spec fn spec_run_modulators(mods: Seq<Modulator>, i: int, s: StoreModel) -> StoreModel
    decreases mods.len() - i,
{
    if i < 0 || i >= mods.len() {
        s
    } else {
        spec_run_modulators(mods, i + 1, spec_modulate(mods[i], s))
    }
}

/// Exact equality of two snapshots.
fn snapshot_eq(a: &Snapshot, b: &Snapshot) -> (r: bool)
    ensures
        r == (a@ == b@),
{
    if a.zoom != b.zoom || a.center_x != b.center_x || a.center_y != b.center_y || a.max_iter
        != b.max_iter {
        return false;
    }
    let n = a.values.len();
    if n != b.values.len() {
        return false;
    }
    let mut i: usize = 0;
    while i < n
        invariant
            0 <= i <= n,
            n == a.values.len(),
            n == b.values.len(),
            forall|j: int| 0 <= j < i ==> a.values@[j] == b.values@[j],
        decreases n - i,
    {
        if a.values[i] != b.values[i] {
            return false;
        }
        i += 1;
    }
    proof {
        assert(a.values@ =~= b.values@);
    }
    true
}

/// One generator, its effect chain, its modulators, the live store, and
/// the staleness cache.
pub struct Patch {
    pub generator: GeneratorKind,
    pub effects: Vec<Effect>,
    pub modulators: Vec<Modulator>,
    pub params: Params,
    /// Snapshot of generator-relevant values from the last
    /// `generator_dirty` call; `None` until the first call.
    pub last_gen_params: Option<Snapshot>,
}

/// The staleness cache as a model value.
pub open spec fn spec_cache(p: Patch) -> Option<SnapModel> {
    match p.last_gen_params {
        Some(s) => Some(s@),
        None => None,
    }
}

impl Patch {
    /// A patch with no effects and no modulators.
    pub fn new(generator: GeneratorKind, params: Params) -> (p: Patch)
        ensures
            p.generator == generator,
            p.params == params,
            p.effects@.len() == 0,
            p.modulators@.len() == 0,
            p.last_gen_params is None,
    {
        Patch { generator, effects: Vec::new(), modulators: Vec::new(), params, last_gen_params: None }
    }

    /// Append an effect; effect order is significant and fixed.
    pub fn add_effect(self, effect: Effect) -> (p: Patch)
        ensures
            p.effects@ == self.effects@.push(effect),
            p.generator == self.generator,
            p.modulators == self.modulators,
            p.params == self.params,
            p.last_gen_params == self.last_gen_params,
    {
        let mut p = self;
        p.effects.push(effect);
        p
    }

    /// Append a modulator; modulators run in the order added.
    pub fn add_modulator(self, modulator: Modulator) -> (p: Patch)
        ensures
            p.modulators@ == self.modulators@.push(modulator),
            p.generator == self.generator,
            p.effects == self.effects,
            p.params == self.params,
            p.last_gen_params == self.last_gen_params,
    {
        let mut p = self;
        p.modulators.push(modulator);
        p
    }

    /// Advance one frame: add `dt` to the elapsed time, bump the frame
    /// counter, then run every modulator in declared order against the
    /// live store.
    pub fn tick(&mut self, dt: i64)
        requires
            dt >= 0,
            old(self).params.frame < u64::MAX,
        ensures
            final(self).generator == old(self).generator,
            final(self).effects == old(self).effects,
            final(self).modulators == old(self).modulators,
            final(self).last_gen_params == old(self).last_gen_params,
            final(self).params@ == spec_run_modulators(
                old(self).modulators@,
                0,
                StoreModel {
                    time: sat_add_spec(old(self).params.time as int, dt as int) as i64,
                    frame: (old(self).params.frame + 1) as u64,
                    ..old(self).params@
                },
            ),
    {
        self.params.time = sat_add(self.params.time, dt);
        self.params.frame = self.params.frame + 1;
        let ghost s0 = self.params@;
        let ghost mods = self.modulators@;
        let n = self.modulators.len();
        let mut i: usize = 0;
        while i < n
            invariant
                0 <= i <= n,
                n == self.modulators.len(),
                self.modulators == old(self).modulators,
                self.modulators@ == mods,
                self.generator == old(self).generator,
                self.effects == old(self).effects,
                self.last_gen_params == old(self).last_gen_params,
                spec_run_modulators(mods, i as int, self.params@) == spec_run_modulators(
                    mods,
                    0,
                    s0,
                ),
            decreases n - i,
        {
            let m = &self.modulators[i];
            // Split borrow: the modulator list is read-only here while the
            // store is mutated.
            crate::modulator::Modulator::modulate(m, &mut self.params);
            i += 1;
        }
    }

    /// Snapshot the generator-relevant values and report whether they
    /// differ from the previous snapshot (true on the very first call).
    /// The cache is replaced with the new snapshot unconditionally.
    pub fn generator_dirty(&mut self) -> (dirty: bool)
        ensures
            final(self).generator == old(self).generator,
            final(self).effects == old(self).effects,
            final(self).modulators == old(self).modulators,
            final(self).params == old(self).params,
            dirty == (spec_cache(*old(self)) != Some(
                spec_snapshot(old(self).generator, old(self).params@),
            )),
            spec_cache(*final(self)) == Some(
                spec_snapshot(old(self).generator, old(self).params@),
            ),
    {
        let keys = gen_param_keys_of(self.generator);
        let mut values: Vec<i64> = Vec::new();
        let n = keys.len();
        let mut i: usize = 0;
        while i < n
            invariant
                0 <= i <= n,
                n == keys.len(),
                keys@.len() == spec_gen_param_keys(self.generator).len(),
                forall|j: int|
                    0 <= j < keys@.len() ==> keys@[j]@ == spec_gen_param_keys(self.generator)[j],
                values@.len() == i,
                forall|j: int|
                    0 <= j < i ==> values@[j] == self.params@.fields[spec_gen_param_keys(
                        self.generator,
                    )[j]],
            decreases n - i,
        {
            let v = self.params.get(keys[i].as_str());
            values.push(v);
            i += 1;
        }
        let current = Snapshot {
            values,
            zoom: self.params.zoom,
            center_x: self.params.center_x,
            center_y: self.params.center_y,
            max_iter: self.params.max_iter,
        };
        proof {
            assert(current@.values =~= spec_snapshot(self.generator, self.params@).values);
        }
        let dirty = match &self.last_gen_params {
            None => true,
            Some(prev) => !snapshot_eq(prev, &current),
        };
        self.last_gen_params = Some(current);
        dirty
    }
}

/// Staleness ignores time: two store states that differ only in the
/// elapsed time, the frame counter, or the pointer yield the same
/// snapshot, so a patch whose relevant values are unchanged stays clean
/// while time advances.
pub proof fn lemma_snapshot_ignores_time(kind: GeneratorKind, s1: StoreModel, s2: StoreModel)
    requires
        s1.fields == s2.fields,
        s1.zoom == s2.zoom,
        s1.center_x == s2.center_x,
        s1.center_y == s2.center_y,
        s1.max_iter == s2.max_iter,
    ensures
        spec_snapshot(kind, s1) == spec_snapshot(kind, s2),
{
    assert(spec_snapshot(kind, s1).values =~= spec_snapshot(kind, s2).values);
}

/// Staleness tracks every relevant change: any structural field change,
/// and any change to a declared generator key's value, yields a different
/// snapshot — so the next `generator_dirty` call reports true.
pub proof fn lemma_snapshot_tracks_relevant_changes(
    kind: GeneratorKind,
    s1: StoreModel,
    s2: StoreModel,
)
    ensures
        s1.zoom != s2.zoom ==> spec_snapshot(kind, s1) != spec_snapshot(kind, s2),
        s1.center_x != s2.center_x ==> spec_snapshot(kind, s1) != spec_snapshot(kind, s2),
        s1.center_y != s2.center_y ==> spec_snapshot(kind, s1) != spec_snapshot(kind, s2),
        s1.max_iter != s2.max_iter ==> spec_snapshot(kind, s1) != spec_snapshot(kind, s2),
        forall|i: int|
            0 <= i < spec_gen_param_keys(kind).len() && s1.fields[spec_gen_param_keys(kind)[i]]
                != s2.fields[spec_gen_param_keys(kind)[i]] ==> spec_snapshot(kind, s1)
                != spec_snapshot(kind, s2),
{
    assert forall|i: int|
        0 <= i < spec_gen_param_keys(kind).len() && s1.fields[spec_gen_param_keys(kind)[i]]
            != s2.fields[spec_gen_param_keys(kind)[i]] implies spec_snapshot(kind, s1)
        != spec_snapshot(kind, s2) by {
        assert(spec_snapshot(kind, s1).values[i] != spec_snapshot(kind, s2).values[i]);
    }
}

} // verus!
