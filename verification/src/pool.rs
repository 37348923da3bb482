//! Bounded pool of loaded model slots with exclusive, non-blocking
//! checkout.
//!
//! Each slot stands for one independently loaded model instance; a slot
//! is either free or checked out to exactly one in-flight completion.
//! Checkout never waits: when no slot is free the caller gets an
//! immediate refusal. The loaded instances themselves are opaque to this
//! core and live with the embedding application, keyed by slot index.

use vstd::pervasive::VecAdditionalExecFns;
use vstd::prelude::*;

verus! {

/// Number of free (`true`) entries in a sequence of slot states.
pub open spec fn count_free_slots(s: Seq<bool>) -> int
    decreases s.len(),
{
    if s.len() == 0 {
        0
    } else {
        count_free_slots(s.drop_last()) + if s.last() {
            1int
        } else {
            0int
        }
    }
}

/// The free count of any slot sequence lies between zero and its length.
pub proof fn lemma_count_free_slots_bounds(s: Seq<bool>)
    ensures
        0 <= count_free_slots(s) <= s.len(),
    decreases s.len(),
{
    if s.len() > 0 {
        lemma_count_free_slots_bounds(s.drop_last());
    }
}

/// Updating one slot changes the free count by exactly the difference at
/// that slot.
pub proof fn lemma_count_free_slots_update(s: Seq<bool>, i: int, v: bool)
    requires
        0 <= i < s.len(),
    ensures
        count_free_slots(s.update(i, v)) == count_free_slots(s) - (if s[i] {
            1int
        } else {
            0int
        }) + (if v {
            1int
        } else {
            0int
        }),
    decreases s.len(),
{
    let t = s.update(i, v);
    if i == s.len() - 1 {
        assert(t.drop_last() =~= s.drop_last());
    } else {
        assert(t.drop_last() =~= s.drop_last().update(i, v));
        lemma_count_free_slots_update(s.drop_last(), i, v);
    }
}

/// In a sequence of only free slots the free count is the length.
pub proof fn lemma_count_free_slots_full(s: Seq<bool>)
    requires
        forall|i: int| 0 <= i < s.len() ==> s[i],
    ensures
        count_free_slots(s) == s.len(),
    decreases s.len(),
{
    if s.len() > 0 {
        lemma_count_free_slots_full(s.drop_last());
    }
}

/// Why constructing the pool failed.
#[derive(Clone, Copy, PartialEq, Eq, Structural, Debug)]
pub enum LoadError {
    /// At least one model instance failed to load; the pool is not
    /// constructed at all rather than left partially usable.
    InstanceFailed,
}

/// Fixed-size set of model slots, created at load time and never
/// resized. `true` marks a free slot, `false` one checked out to an
/// in-flight completion.
pub struct ModelPool {
    pub slots: Vec<bool>,
}

impl ModelPool {
    /// Number of slots, fixed at construction.
    pub open spec fn capacity(self) -> nat {
        self.slots@.len()
    }

    /// Slot `i` is free.
    pub open spec fn slot_free(self, i: int) -> bool {
        self.slots@[i]
    }

    /// Some slot is free.
    pub open spec fn has_free(self) -> bool {
        exists|i: int| 0 <= i < self.slots@.len() && self.slots@[i]
    }

    /// How many slots are free.
    pub open spec fn free_count(self) -> int {
        count_free_slots(self.slots@)
    }

    /// How many completions hold a slot right now.
    pub open spec fn busy_count(self) -> int {
        self.capacity() - self.free_count()
    }

    /// True before any pool has been constructed with instances.
    pub fn is_empty(&self) -> (r: bool)
        ensures
            r == (self.capacity() == 0),
    {
        self.slots.len() == 0
    }

    /// The fixed number of slots.
    pub fn capacity_exec(&self) -> (n: usize)
        ensures
            n == self.capacity(),
    {
        self.slots.len()
    }

    /// Whether slot `i` is currently free.
    pub fn slot_is_free(&self, i: usize) -> (r: bool)
        requires
            i < self.capacity(),
        ensures
            r == self.slot_free(i as int),
    {
        self.slots[i]
    }

    /// Exclusive, non-blocking checkout: the lowest free slot is taken
    /// and marked busy, or the request is refused at once — exactly when
    /// no slot is free — with the pool untouched. No queueing, no wait.
    #[verifier::loop_isolation(false)]
    pub fn try_checkout(&mut self) -> (r: Option<usize>)
        ensures
            final(self).capacity() == old(self).capacity(),
            (r is Some) <==> old(self).has_free(),
            r is None ==> *final(self) == *old(self),
            r matches Some(i) ==> i < old(self).capacity() && old(self).slot_free(i as int)
                && !final(self).slot_free(i as int)
                && final(self).slots@ == old(self).slots@.update(i as int, false)
                && (forall|j: int| 0 <= j < i ==> !old(self).slot_free(j))
                && final(self).free_count() == old(self).free_count() - 1,
    {
        let n = self.slots.len();
        let mut i: usize = 0;
        while i < n
            invariant
                *self == *old(self),
                i <= n,
                n == self.slots@.len(),
                forall|j: int| 0 <= j < i ==> !self.slots@[j],
            decreases n - i,
        {
            if self.slots[i] {
                proof {
                    assert(old(self).slot_free(i as int));
                }
                self.slots.set(i, false);
                proof {
                    lemma_count_free_slots_update(old(self).slots@, i as int, false);
                }
                return Some(i);
            }
            i = i + 1;
        }
        proof {
            assert(!old(self).has_free());
        }
        None
    }

    /// Return slot `i` to the pool once its worker has fully terminated.
    /// The slot is free again and the rest of the pool is untouched, so a
    /// later checkout is owed success.
    pub fn release(&mut self, i: usize)
        requires
            i < old(self).capacity(),
            !old(self).slot_free(i as int),
        ensures
            final(self).slots@ == old(self).slots@.update(i as int, true),
            final(self).capacity() == old(self).capacity(),
            final(self).slot_free(i as int),
            final(self).has_free(),
            final(self).free_count() == old(self).free_count() + 1,
    {
        self.slots.set(i, true);
        proof {
            lemma_count_free_slots_update(old(self).slots@, i as int, true);
            assert(self.slots@[i as int]);
        }
    }
}

/// Construct the pool from the per-instance load outcomes of the
/// external model loader. Construction is atomic: if any single instance
/// failed, the whole pool fails to construct — never a partially usable
/// pool. On success every slot is free and the capacity is the number of
/// instances.
#[verifier::loop_isolation(false)]
pub fn load_model(instance_results: &Vec<bool>) -> (r: Result<ModelPool, LoadError>)
    ensures
        (r is Ok) <==> (forall|i: int| 0 <= i < instance_results@.len() ==> instance_results@[i]),
        r matches Ok(p) ==> p.capacity() == instance_results@.len() && (forall|i: int|
            0 <= i < p.capacity() ==> p.slot_free(i)) && p.free_count() == p.capacity(),
        r is Err ==> r == Err::<ModelPool, LoadError>(LoadError::InstanceFailed),
{
    let n = instance_results.len();
    let mut i: usize = 0;
    while i < n
        invariant
            i <= n,
            forall|j: int| 0 <= j < i ==> instance_results@[j],
        decreases n - i,
    {
        if !instance_results[i] {
            return Err(LoadError::InstanceFailed);
        }
        i = i + 1;
    }
    let mut slots: Vec<bool> = Vec::new();
    let mut k: usize = 0;
    while k < n
        invariant
            k <= n,
            slots@.len() == k,
            forall|j: int| 0 <= j < k ==> slots@[j],
        decreases n - k,
    {
        slots.push(true);
        k = k + 1;
    }
    proof {
        lemma_count_free_slots_full(slots@);
    }
    Ok(ModelPool { slots })
}

/// At most `capacity` completions can be generating concurrently: the
/// number of checked-out slots never exceeds the pool's fixed size.
pub proof fn lemma_concurrency_bounded(p: ModelPool)
    ensures
        0 <= p.busy_count() <= p.capacity(),
{
    lemma_count_free_slots_bounds(p.slots@);
}

/// A released slot makes the pool available again: once some slot is
/// free, the next checkout is owed success.
pub proof fn lemma_released_slot_reusable(p: ModelPool, i: int)
    requires
        0 <= i < p.capacity(),
        p.slot_free(i),
    ensures
        p.has_free(),
{
}

} // verus!
