use vstd::prelude::*;

verus! {

/// Decides, for one guest store, whether its linear memory may grow, and
/// remembers whether a growth was ever denied.
///
/// A request is granted exactly when the size it asks for is at most the cap;
/// each denied request bumps the refusal count, which is never reset.
pub struct CrucibleResourceLimiter {
    memory_cap_bytes: usize,
    memory_grow_refusals: u32,
}

impl CrucibleResourceLimiter {
    /// The largest memory size, in bytes, that a request may ask for.
    pub closed spec fn cap(&self) -> nat {
        self.memory_cap_bytes as nat
    }

    /// How many growth requests have been denied so far.
    pub closed spec fn refusals(&self) -> nat {
        self.memory_grow_refusals as nat
    }

    /// How one growth request for `desired` bytes takes a limiter from
    /// `before` to `after`: the cap stays, and a denied request (one above the
    /// cap) bumps the refusal count, which stops at `u32::MAX`.
    pub open spec fn grow_step(before: Self, after: Self, desired: usize) -> bool {
        &&& after.cap() == before.cap()
        &&& after.refusals() == if desired <= before.cap() {
            before.refusals()
        } else if before.refusals() < u32::MAX {
            before.refusals() + 1
        } else {
            before.refusals()
        }
    }

    /// A limiter with the given cap that has denied nothing yet.
    pub fn new(memory_cap_bytes: usize) -> (r: Self)
        ensures
            r.cap() == memory_cap_bytes,
            r.refusals() == 0,
    {
        Self { memory_cap_bytes, memory_grow_refusals: 0 }
    }

    /// Whether any memory.grow request was denied during this call.
    pub fn refused_memory_growth(&self) -> (r: bool)
        ensures
            r == (self.refusals() > 0),
    {
        self.memory_grow_refusals > 0
    }

    /// Decides a request to grow linear memory from `current` to `desired`
    /// bytes: granted exactly when `desired` is at most the cap. A denial is
    /// counted (the count stops at `u32::MAX`, where it stays set); the guest
    /// then sees `memory.grow` return -1.
    pub fn decide_memory_growth(&mut self, current: usize, desired: usize, maximum: Option<usize>) -> (r: bool)
        ensures
            r == (desired <= old(self).cap()),
            Self::grow_step(*old(self), *final(self), desired),
    {
        if desired > self.memory_cap_bytes {
            self.memory_grow_refusals = self.memory_grow_refusals.saturating_add(1);
            false
        } else {
            true
        }
    }

    /// Decides a request to grow a table: tables may always grow.
    pub fn decide_table_growth(&mut self, current: usize, desired: usize, maximum: Option<usize>) -> (r: bool)
        ensures
            r,
            *final(self) == *old(self),
    {
        true
    }

    /// The number of instances a store may hold: one.
    pub fn instances(&self) -> (r: usize)
        ensures
            r == 1,
    {
        1
    }

    /// The number of tables a store may hold: one.
    pub fn tables(&self) -> (r: usize)
        ensures
            r == 1,
    {
        1
    }

    /// The number of memories a store may hold: one.
    pub fn memories(&self) -> (r: usize)
        ensures
            r == 1,
    {
        1
    }

    /// The refusal flag of a call tells exactly whether a request was
    /// denied: when a fresh limiter (`states[0]`) has decided the requests
    /// `requests[0]`, `requests[1]`, ... in turn, each taking it from
    /// `states[i]` to `states[i + 1]`, it reports a refused growth exactly
    /// when one of the requests asked for more than its cap.
    pub proof fn lemma_refused_iff_some_request_above_cap(states: Seq<Self>, requests: Seq<usize>)
        requires
            states.len() == requests.len() + 1,
            states[0].refusals() == 0,
            forall|i: int| 0 <= i < requests.len() ==> #[trigger] Self::grow_step(states[i], states[i + 1], requests[i]),
        ensures
            states.last().cap() == states[0].cap(),
            (states.last().refusals() > 0) <==> exists|i: int|
                0 <= i < requests.len() && #[trigger] requests[i] > states[0].cap(),
        decreases requests.len(),
    {
        if requests.len() > 0 {
            let n = requests.len() - 1;
            let s0 = states.drop_last();
            let r0 = requests.drop_last();
            assert forall|i: int| 0 <= i < r0.len() implies #[trigger] Self::grow_step(s0[i], s0[i + 1], r0[i]) by {
                assert(Self::grow_step(states[i], states[i + 1], requests[i]));
            }
            Self::lemma_refused_iff_some_request_above_cap(s0, r0);
            assert(Self::grow_step(states[n], states[n + 1], requests[n]));
            assert(s0.last() == states[n]);
            if exists|i: int| 0 <= i < r0.len() && #[trigger] r0[i] > s0[0].cap() {
                let i = choose|i: int| 0 <= i < r0.len() && #[trigger] r0[i] > s0[0].cap();
                assert(requests[i] == r0[i]);
            }
            assert forall|i: int| 0 <= i < requests.len() && #[trigger] requests[i] > states[0].cap() implies states.last().refusals() > 0 by {
                if i < n {
                    assert(r0[i] == requests[i]);
                }
            }
        }
    }
}

} // verus!
