//! The dispatch protocol: one generator pass into a fresh image, then
//! each effect pass reading the previous stage's output and writing into
//! a double-buffered pair, alternating roles each pass.
//!
//! The plan produced here fixes, for every pass, which image it reads and
//! which it writes; the back-end executes the passes in plan order.  The
//! read/write swap creates the data dependency that forces effect pass
//! i to precede pass i + 1.

use vstd::prelude::*;
use crate::kind::EffectKind;
use crate::params::Params;

verus! {

/// The images a pass can read or write.
#[derive(Debug, Clone, Copy, PartialEq, Eq, Structural)]
pub enum ImageSlot {
    /// The image the generator pass writes.
    Generator,
    /// Intermediate image A of the double-buffered pair.
    PingA,
    /// Intermediate image B of the double-buffered pair.
    PingB,
}

/// Role tracker for the double-buffered intermediate pair.
/// `current == false` means A is the read image and B the write image.
pub struct PingPong {
    pub current: bool,
}

/// The buffer roles after `k` swaps starting from `c`.
pub open spec fn spec_flipped(c: bool, k: int) -> bool {
    if k % 2 == 0 {
        c
    } else {
        !c
    }
}

impl PingPong {
    pub open spec fn spec_read(&self) -> ImageSlot {
        if self.current {
            ImageSlot::PingB
        } else {
            ImageSlot::PingA
        }
    }

    pub open spec fn spec_write(&self) -> ImageSlot {
        if self.current {
            ImageSlot::PingA
        } else {
            ImageSlot::PingB
        }
    }

    /// A fresh pair: A reads, B writes.
    pub fn new() -> (pp: PingPong)
        ensures
            pp.current == false,
    {
        PingPong { current: false }
    }

    /// The image the next pass should read.
    pub fn read_slot(&self) -> (r: ImageSlot)
        ensures
            r == self.spec_read(),
    {
        if self.current {
            ImageSlot::PingB
        } else {
            ImageSlot::PingA
        }
    }

    /// The image the next pass should write.
    pub fn write_slot(&self) -> (r: ImageSlot)
        ensures
            r == self.spec_write(),
    {
        if self.current {
            ImageSlot::PingA
        } else {
            ImageSlot::PingB
        }
    }

    /// Swap roles, so the image just written becomes the next read image.
    pub fn swap(&mut self)
        ensures
            final(self).current == !old(self).current,
    {
        self.current = !self.current;
    }
}

/// One planned effect pass: its resolved kind, the image it reads, and
/// the image it writes.
#[derive(Debug, Clone, Copy, PartialEq, Eq, Structural)]
pub struct EffectDispatch {
    pub kind: EffectKind,
    pub read: ImageSlot,
    pub write: ImageSlot,
}

/// Plan the effect chain for one frame.  The first pass reads the
/// generator image; every later pass reads exactly what the previous pass
/// wrote; no pass reads the image it writes, and no pass overwrites the
/// generator image.  After an even number of passes the buffer roles are
/// back where they started.
#[verifier::rlimit(60)]
pub fn plan_chain(kinds: &Vec<EffectKind>, pp: &mut PingPong) -> (plan: Vec<EffectDispatch>)
    ensures
        plan@.len() == kinds@.len(),
        forall|i: int| 0 <= i < plan@.len() ==> plan@[i].kind == kinds@[i],
        forall|i: int|
            0 <= i < plan@.len() ==> plan@[i].write == (PingPong {
                current: spec_flipped(old(pp).current, i),
            }).spec_write(),
        plan@.len() > 0 ==> plan@[0].read == ImageSlot::Generator,
        forall|i: int| 0 < i < plan@.len() ==> plan@[i].read == plan@[i - 1].write,
        forall|i: int| 0 <= i < plan@.len() ==> plan@[i].read != plan@[i].write,
        forall|i: int| 0 <= i < plan@.len() ==> plan@[i].write != ImageSlot::Generator,
        final(pp).current == spec_flipped(old(pp).current, kinds@.len() as int),
        plan@.len() > 0 ==> plan@[plan@.len() - 1].write == final(pp).spec_read(),
{
    let mut plan: Vec<EffectDispatch> = Vec::new();
    let n = kinds.len();
    let mut i: usize = 0;
    while i < n
        invariant
            0 <= i <= n,
            n == kinds.len(),
            plan@.len() == i,
            pp.current == spec_flipped(old(pp).current, i as int),
            forall|j: int| 0 <= j < i ==> plan@[j].kind == kinds@[j],
            forall|j: int|
                0 <= j < i ==> plan@[j].write == (PingPong {
                    current: spec_flipped(old(pp).current, j),
                }).spec_write(),
            i > 0 ==> plan@[0].read == ImageSlot::Generator,
            forall|j: int| 0 < j < i ==> plan@[j].read == plan@[j - 1].write,
            forall|j: int| 0 <= j < i ==> plan@[j].read != plan@[j].write,
            forall|j: int| 0 <= j < i ==> plan@[j].write != ImageSlot::Generator,
        decreases n - i,
    {
        let read = if i == 0 {
            ImageSlot::Generator
        } else {
            pp.read_slot()
        };
        let write = pp.write_slot();
        plan.push(EffectDispatch { kind: kinds[i], read, write });
        pp.swap();
        i += 1;
    }
    plan
}

/// The image holding the finished frame: the generator image when the
/// chain is empty, otherwise the image the last effect pass wrote (which
/// the final swap turned into the read image).
pub fn final_image(n_effects: usize, pp: &PingPong) -> (r: ImageSlot)
    ensures
        r == if n_effects == 0 {
            ImageSlot::Generator
        } else {
            pp.spec_read()
        },
{
    if n_effects == 0 {
        ImageSlot::Generator
    } else {
        pp.read_slot()
    }
}

/// An effect chain of even length leaves the buffer roles exactly where
/// they started, so a zero-effect chain presents the generator's image
/// and the "current" flag returns to its initial state after any even
/// number of passes.
pub proof fn lemma_even_chain_restores_roles(c: bool, n: int)
    requires
        n >= 0,
        n % 2 == 0,
    ensures
        spec_flipped(c, n) == c,
{
}

/// All per-frame values handed to the compute passes as one uniform
/// block.  `julia_cx` / `julia_cy` carry the external constant for the
/// parametrized escape-time generator; other generators ignore them.
#[derive(Debug, Clone, Copy, PartialEq, Eq, Structural)]
pub struct Uniforms {
    pub resolution_x: u32,
    pub resolution_y: u32,
    pub center_x: i64,
    pub center_y: i64,
    pub zoom: i64,
    pub time: i64,
    pub max_iter: u32,
    pub julia_cx: i64,
    pub julia_cy: i64,
}

/// Assemble the per-frame uniform snapshot from the store.
pub fn build_uniforms(params: &Params, width: u32, height: u32) -> (u: Uniforms)
    ensures
        u.resolution_x == width,
        u.resolution_y == height,
        u.center_x == params@.center_x,
        u.center_y == params@.center_y,
        u.zoom == params@.zoom,
        u.time == params@.time,
        u.max_iter == params@.max_iter,
        u.julia_cx == params@.fields["julia_cx"@],
        u.julia_cy == params@.fields["julia_cy"@],
{
    Uniforms {
        resolution_x: width,
        resolution_y: height,
        center_x: params.center_x,
        center_y: params.center_y,
        zoom: params.zoom,
        time: params.time,
        max_iter: params.max_iter,
        julia_cx: params.get("julia_cx"),
        julia_cy: params.get("julia_cy"),
    }
}

} // verus!
