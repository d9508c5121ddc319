//! Frame selection: a current index cycling through a fixed number of frames.

use vstd::prelude::*;
use vstd::arithmetic::div_mod::{
    lemma_add_mod_noop,
    lemma_mod_bound,
    lemma_mod_self_0,
    lemma_small_mod,
};

verus! {

/// Pure frame-selection state: `current` is the index of the frame to draw,
/// `count` the number of frames loaded. `count` is fixed after construction.
pub struct FrameSelector {
    current: usize,
    count: usize,
}

impl FrameSelector {
    /// Index of the frame to bind for the next draw.
    pub closed spec fn spec_current(self) -> usize {
        self.current
    }

    /// Number of frames in the loaded sequence.
    pub closed spec fn spec_count(self) -> usize {
        self.count
    }

    /// The stored index always lies in `[0, count)`; with no frames it is
    /// pinned at 0.
    pub open spec fn wf(self) -> bool {
        if self.spec_count() > 0 {
            self.spec_current() < self.spec_count()
        } else {
            self.spec_current() == 0
        }
    }

    pub fn new(count: usize) -> (r: FrameSelector)
        ensures
            r.wf(),
            r.spec_count() == count,
            r.spec_current() == 0,
    {
        FrameSelector { current: 0, count }
    }

    pub fn current(&self) -> (r: usize)
        ensures
            r == self.spec_current(),
    {
        self.current
    }

    pub fn count(&self) -> (r: usize)
        ensures
            r == self.spec_count(),
    {
        self.count
    }

    /// Step to the next frame, wrapping at the end of the sequence; a no-op
    /// when no frames are loaded.
    pub fn advance(&mut self)
        requires
            old(self).wf(),
        ensures
            final(self).wf(),
            final(self).spec_count() == old(self).spec_count(),
            old(self).spec_count() > 0 ==> final(self).spec_current()
                == (old(self).spec_current() + 1) % (old(self).spec_count() as int),
            old(self).spec_count() == 0 ==> *final(self) == *old(self),
    {
        if self.count > 0 {
            self.current = (self.current + 1) % self.count;
        }
    }

    /// Bind an arbitrary index, wrapped into `[0, count)` by modulo, so
    /// callers never need a bounds check; a no-op when no frames are loaded.
    pub fn select(&mut self, index: usize)
        requires
            old(self).wf(),
        ensures
            final(self).wf(),
            final(self).spec_count() == old(self).spec_count(),
            old(self).spec_count() > 0 ==> final(self).spec_current()
                == index % old(self).spec_count(),
            old(self).spec_count() == 0 ==> *final(self) == *old(self),
    {
        if self.count > 0 {
            self.current = index % self.count;
        }
    }
}

/// The index reached after `steps` calls of `advance` starting from `start`,
/// among `count` frames. Mirrors the step that `advance` promises.
pub open spec fn index_after(start: nat, steps: nat, count: nat) -> nat
    recommends
        count > 0,
        start < count,
    decreases steps,
{
    if steps == 0 {
        start
    } else {
        (index_after(start, (steps - 1) as nat, count) + 1) % count
    }
}

/// Law: for any positive frame count, any run of advances keeps the index in
/// `[0, count)`, the index after `steps` advances is `(start + steps) mod
/// count`, and the cycle is periodic: `count` further advances always return
/// to the same index, so a run from index 0 is back at 0 exactly when the
/// number of advances is a multiple of `count`.
pub proof fn lemma_advance_periodic(start: nat, steps: nat, count: nat)
    requires
        count > 0,
        start < count,
    ensures
        index_after(start, steps, count) == ((start + steps) as int) % (count as int),
        index_after(start, steps, count) < count,
        index_after(start, steps + count, count) == index_after(start, steps, count),
        index_after(0, steps, count) == 0 <==> steps % count == 0,
{
    lemma_advance_unfolds(start, steps, count);
    lemma_mod_bound((start + steps) as int, count as int);
    lemma_advance_unfolds(start, (steps + count) as nat, count);
    lemma_add_mod_noop((start + steps) as int, count as int, count as int);
    lemma_mod_self_0(count as int);
    lemma_small_mod((((start + steps) as int) % (count as int)) as nat, count);
    lemma_advance_unfolds(0, steps, count);
}

/// Unfolds `index_after` along `(start + steps) mod count` for one proof
/// step above.
proof fn lemma_advance_unfolds(start: nat, steps: nat, count: nat)
    requires
        count > 0,
        start < count,
    ensures
        index_after(start, steps, count) == ((start + steps) as int) % (count as int),
    decreases steps,
{
    if steps == 0 {
        lemma_small_mod(start, count);
    } else {
        let prev = (steps - 1) as nat;
        lemma_advance_unfolds(start, prev, count);
        lemma_add_mod_noop((start + prev) as int, 1, count as int);
        lemma_one_mod(count);
    }
}

/// `1 mod count` is 1 for `count > 1` and 0 for `count == 1`; packaged so the
/// induction above can add one step under the modulus either way.
proof fn lemma_one_mod(count: nat)
    requires
        count > 0,
    ensures
        count == 1 ==> 1int % (count as int) == 0,
        count > 1 ==> 1int % (count as int) == 1,
{
    if count > 1 {
        lemma_small_mod(1, count);
    }
}

} // verus!
