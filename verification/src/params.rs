//! The parameter store: named scalar values plus the fixed per-frame fields.
//!
//! Reading an absent key is never an error: it yields 0.  Writing
//! overwrites (last write wins).  The store supports deep duplication so a
//! routing matrix can probe an inner modulator without touching the real
//! store.

use vstd::prelude::*;
use crate::scalar::{HALF, UNIT};

verus! {

/// Shared mutable state threaded through the pipeline every frame.
pub struct Params {
    /// Named scalar values, in micro-units.  An association list searched
    /// front to back; `set` overwrites the live entry, so the first match
    /// is the current value.
    pub fields: Vec<(String, i64)>,
    /// Elapsed time in micro-seconds.
    pub time: i64,
    /// Monotonically increasing frame counter.
    pub frame: u64,
    /// Zoom factor in micro-units (UNIT = no zoom).
    pub zoom: i64,
    /// View center, micro-units.
    pub center_x: i64,
    pub center_y: i64,
    /// Iteration bound for escape-time generators.
    pub max_iter: u32,
    /// Normalized pointer position, micro-units in [0, UNIT].
    pub mouse_x: i64,
    pub mouse_y: i64,
}

/// The value an association list holds for `key`: the first matching
/// entry, or 0 when no entry matches.
pub open spec fn lookup(fields: Seq<(String, i64)>, key: Seq<char>) -> i64
    decreases fields.len(),
{
    if fields.len() == 0 {
        0
    } else if fields[0].0@ == key {
        fields[0].1
    } else {
        lookup(fields.subrange(1, fields.len() as int), key)
    }
}

/// Mathematical model of a store: a total map from key to value (absent
/// keys map to 0) plus the fixed fields.
pub struct StoreModel {
    pub fields: Map<Seq<char>, i64>,
    pub time: i64,
    pub frame: u64,
    pub zoom: i64,
    pub center_x: i64,
    pub center_y: i64,
    pub max_iter: u32,
    pub mouse_x: i64,
    pub mouse_y: i64,
}

impl View for Params {
    type V = StoreModel;

    open spec fn view(&self) -> StoreModel {
        StoreModel {
            fields: Map::new(|k: Seq<char>| true, |k: Seq<char>| lookup(self.fields@, k)),
            time: self.time,
            frame: self.frame,
            zoom: self.zoom,
            center_x: self.center_x,
            center_y: self.center_y,
            max_iter: self.max_iter,
            mouse_x: self.mouse_x,
            mouse_y: self.mouse_y,
        }
    }
}

/// The store every patch starts from: empty key table, zoom 1, center
/// (-1/2, 0), 100 iterations.
pub open spec fn default_model() -> StoreModel {
    StoreModel {
        fields: Map::new(|k: Seq<char>| true, |k: Seq<char>| 0),
        time: 0,
        frame: 0,
        zoom: UNIT,
        center_x: (-HALF) as i64,
        center_y: 0,
        max_iter: 100,
        mouse_x: 0,
        mouse_y: 0,
    }
}

/// Skipping a prefix of entries none of which match `key` does not change
/// the lookup result.
proof fn lemma_lookup_skip_prefix(fields: Seq<(String, i64)>, key: Seq<char>, i: int)
    requires
        0 <= i <= fields.len(),
        forall|j: int| 0 <= j < i ==> fields[j].0@ != key,
    ensures
        lookup(fields, key) == lookup(fields.subrange(i, fields.len() as int), key),
    decreases i,
{
    if i == 0 {
        assert(fields.subrange(0, fields.len() as int) =~= fields);
    } else {
        assert(fields.subrange(1, fields.len() as int).subrange(i - 1, fields.len() - 1)
            =~= fields.subrange(i, fields.len() as int));
        lemma_lookup_skip_prefix(fields.subrange(1, fields.len() as int), key, i - 1);
    }
}

/// Updating the first entry that matches `key` changes that key's value
/// and no other.
proof fn lemma_lookup_update(
    fields: Seq<(String, i64)>,
    i: int,
    entry: (String, i64),
    key: Seq<char>,
    probe: Seq<char>,
)
    requires
        0 <= i < fields.len(),
        forall|j: int| 0 <= j < i ==> fields[j].0@ != key,
        fields[i].0@ == key,
        entry.0@ == key,
    ensures
        lookup(fields.update(i, entry), probe) == if probe == key {
            entry.1
        } else {
            lookup(fields, probe)
        },
    decreases i,
{
    let updated = fields.update(i, entry);
    if i == 0 {
        if probe != key {
            assert(updated.subrange(1, updated.len() as int)
                =~= fields.subrange(1, fields.len() as int));
        }
    } else {
        assert(updated.subrange(1, updated.len() as int)
            =~= fields.subrange(1, fields.len() as int).update(i - 1, entry));
        lemma_lookup_update(fields.subrange(1, fields.len() as int), i - 1, entry, key, probe);
    }
}

/// Appending an entry for a key no existing entry matches changes that
/// key's value and no other.
proof fn lemma_lookup_push(
    fields: Seq<(String, i64)>,
    entry: (String, i64),
    key: Seq<char>,
    probe: Seq<char>,
)
    requires
        forall|j: int| 0 <= j < fields.len() ==> fields[j].0@ != key,
        entry.0@ == key,
    ensures
        lookup(fields.push(entry), probe) == if probe == key {
            entry.1
        } else {
            lookup(fields, probe)
        },
    decreases fields.len(),
{
    reveal_with_fuel(lookup, 2);
    let pushed = fields.push(entry);
    if fields.len() == 0 {
        assert(pushed[0] == entry);
        if probe != key {
            assert(pushed.subrange(1, pushed.len() as int) =~= Seq::<(String, i64)>::empty());
        }
    } else {
        assert(pushed[0] == fields[0]);
        assert(pushed.subrange(1, pushed.len() as int)
            =~= fields.subrange(1, fields.len() as int).push(entry));
        lemma_lookup_push(fields.subrange(1, fields.len() as int), entry, key, probe);
    }
}

impl Params {
    /// The value stored for `key`, 0 when the key is unset.
    pub fn get(&self, key: &str) -> (r: i64)
        ensures
            r == self@.fields[key@],
    {
        let owned: String = key.to_owned();
        let n = self.fields.len();
        let mut i: usize = 0;
        while i < n
            invariant
                0 <= i <= n,
                n == self.fields.len(),
                owned@ == key@,
                forall|j: int| 0 <= j < i ==> self.fields@[j].0@ != key@,
            decreases n - i,
        {
            if self.fields[i].0 == owned {
                proof {
                    lemma_lookup_skip_prefix(self.fields@, key@, i as int);
                }
                return self.fields[i].1;
            }
            i += 1;
        }
        proof {
            lemma_lookup_skip_prefix(self.fields@, key@, n as int);
        }
        0
    }

    /// Write `value` under `key`, overwriting any earlier value.
    pub fn set(&mut self, key: &str, value: i64)
        ensures
            final(self)@ == (StoreModel {
                fields: old(self)@.fields.insert(key@, value),
                ..old(self)@
            }),
    {
        let owned: String = key.to_owned();
        let n = self.fields.len();
        let mut i: usize = 0;
        while i < n
            invariant
                0 <= i <= n,
                n == self.fields.len(),
                owned@ == key@,
                self.fields@ == old(self).fields@,
                self.time == old(self).time,
                self.frame == old(self).frame,
                self.zoom == old(self).zoom,
                self.center_x == old(self).center_x,
                self.center_y == old(self).center_y,
                self.max_iter == old(self).max_iter,
                self.mouse_x == old(self).mouse_x,
                self.mouse_y == old(self).mouse_y,
                forall|j: int| 0 <= j < i ==> self.fields@[j].0@ != key@,
            decreases n - i,
        {
            if self.fields[i].0 == owned {
                let ghost fields0 = self.fields@;
                let ghost entry = (owned, value);
                self.fields.set(i, (owned, value));
                proof {
                    assert forall|probe: Seq<char>|
                        lookup(self.fields@, probe) == if probe == key@ {
                            value
                        } else {
                            lookup(fields0, probe)
                        } by {
                        assert(self.fields@ == fields0.update(i as int, entry));
                        lemma_lookup_update(fields0, i as int, entry, key@, probe);
                    }
                    assert(self@.fields =~= old(self)@.fields.insert(key@, value));
                }
                return;
            }
            i += 1;
        }
        let ghost fields0 = self.fields@;
        let ghost entry = (owned, value);
        self.fields.push((owned, value));
        proof {
            assert forall|probe: Seq<char>|
                lookup(self.fields@, probe) == if probe == key@ {
                    value
                } else {
                    lookup(fields0, probe)
                } by {
                assert(self.fields@ == fields0.push(entry));
                lemma_lookup_push(fields0, entry, key@, probe);
            }
            assert(self@.fields =~= old(self)@.fields.insert(key@, value));
        }
    }

    /// An independent deep copy: mutating either store afterwards cannot
    /// affect the other.
    pub fn duplicate(&self) -> (r: Params)
        ensures
            r@ == self@,
    {
        let mut fields: Vec<(String, i64)> = Vec::new();
        let n = self.fields.len();
        let mut i: usize = 0;
        while i < n
            invariant
                0 <= i <= n,
                n == self.fields.len(),
                fields@ =~= self.fields@.subrange(0, i as int),
            decreases n - i,
        {
            let entry = (self.fields[i].0.clone(), self.fields[i].1);
            fields.push(entry);
            i += 1;
        }
        proof {
            assert(fields@ =~= self.fields@);
        }
        let r = Params {
            fields,
            time: self.time,
            frame: self.frame,
            zoom: self.zoom,
            center_x: self.center_x,
            center_y: self.center_y,
            max_iter: self.max_iter,
            mouse_x: self.mouse_x,
            mouse_y: self.mouse_y,
        };
        proof {
            assert(r@.fields =~= self@.fields);
        }
        r
    }
}

impl Default for Params {
    /// A fresh store with no named values and the engine's starting view.
    fn default() -> (r: Params)
        ensures
            r@ == default_model(),
    {
        let r = Params {
            fields: Vec::new(),
            time: 0,
            frame: 0,
            zoom: UNIT,
            center_x: -HALF,
            center_y: 0,
            max_iter: 100,
            mouse_x: 0,
            mouse_y: 0,
        };
        proof {
            assert(r@.fields =~= default_model().fields);
        }
        r
    }
}

} // verus!
