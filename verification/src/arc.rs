//! Ownership bridge between manual native reference counting and automatic
//! lifetime management.
//!
//! The native side keeps one retain count per object. This module models that
//! ledger as a [`Pool`] of counts, together with the three kinds of handle a
//! binding hands out for a foreign object:
//!
//! - [`Owned`]: the holder is responsible for ending the object's lifetime by
//!   exactly one release;
//! - [`Autoreleased`]: valid only until the enclosing autorelease scope is
//!   drained, unless explicitly retained before that;
//! - [`Unowned`]: never released by the holder (a global constant object).
//!
//! [`Rar`] is the value-level face of an autoreleased result: a factory whose
//! name marks an autoreleasing convention returns `Rar<T>`, and the caller
//! must retain it to obtain the owned value.

use vstd::prelude::*;

verus! {

/// An owned handle: accounts for exactly one retain in the pool, which its
/// holder must give back through [`Pool::release`].
pub struct Owned {
    /// The object's slot in the pool.
    pub slot: usize,
}

/// An autoreleased handle: its retain is owed to the autorelease scope and
/// will be taken back by [`Pool::drain`]; the holder keeps the object alive
/// past the drain only by [`Pool::retain_autoreleased`].
pub struct Autoreleased {
    /// The object's slot in the pool.
    pub slot: usize,
}

/// An unowned reference: confers no release right or duty; it is valid
/// exactly as long as other holders keep the object live.
pub struct Unowned {
    /// The object's slot in the pool.
    pub slot: usize,
}

/// The retain-count ledger of the native side. Slot indices are never
/// reused: a deallocated object leaves a dead slot behind, so a stale
/// handle can be told apart from a fresh one.
pub struct Pool {
    counts: Vec<u64>,
    pending: Vec<u64>,
}

impl Pool {
    /// The retain count currently recorded for a slot.
    pub closed spec fn count(self, s: int) -> u64 {
        self.counts@[s]
    }

    /// The part of a slot's count owed to the autorelease scope.
    pub closed spec fn pending(self, s: int) -> u64 {
        self.pending@[s]
    }

    /// The number of slots ever allocated.
    pub closed spec fn len(self) -> nat {
        self.counts@.len()
    }

    /// A slot holds a live object while its retain count is positive.
    pub open spec fn live(self, s: int) -> bool {
        0 <= s < self.len() && self.count(s) > 0
    }

    /// The ledger is well formed: the autorelease scope never holds more
    /// retains on a slot than the slot has in total.
    pub closed spec fn wf(self) -> bool {
        &&& self.pending@.len() == self.counts@.len()
        &&& forall|i: int|
            0 <= i < self.counts@.len() ==> self.pending@[i] <= #[trigger] self.counts@[i]
    }

    /// The counts that a drain of the autorelease scope leaves behind.
    pub open spec fn drained_count(self, s: int) -> int {
        self.count(s) - self.pending(s)
    }

    /// The number of slots ever allocated, observed.
    pub fn slot_len(&self) -> (n: usize)
        ensures
            n == self.len(),
    {
        self.counts.len()
    }

    /// A slot's retain count, observed.
    pub fn retain_count(&self, slot: usize) -> (r: u64)
        requires
            slot < self.len(),
        ensures
            r == self.count(slot as int),
    {
        self.counts[slot]
    }

    /// Whether a slot holds a live object, observed.
    pub fn is_live(&self, slot: usize) -> (r: bool)
        requires
            slot < self.len(),
        ensures
            r == self.live(slot as int),
    {
        self.counts[slot] > 0
    }

    /// An empty ledger.
    pub fn new() -> (p: Pool)
        ensures
            p.wf(),
            p.len() == 0,
    {
        Pool { counts: Vec::new(), pending: Vec::new() }
    }

    /// A factory call whose name signals transfer of ownership: the fresh
    /// object starts with exactly one retain, held by the returned handle.
    pub fn allocate(&mut self) -> (h: Owned)
        requires
            old(self).wf(),
        ensures
            final(self).wf(),
            h.slot == old(self).len(),
            final(self).len() == old(self).len() + 1,
            final(self).live(h.slot as int),
            final(self).count(h.slot as int) == 1,
            final(self).pending(h.slot as int) == 0,
            forall|i: int|
                0 <= i < old(self).len() ==> final(self).count(i) == old(self).count(i)
                    && final(self).pending(i) == old(self).pending(i),
    {
        let h = Owned { slot: self.counts.len() };
        self.counts.push(1);
        self.pending.push(0);
        h
    }

    /// A factory call with an autoreleasing convention: the fresh object's
    /// single retain is owed to the autorelease scope.
    pub fn allocate_autoreleased(&mut self) -> (h: Autoreleased)
        requires
            old(self).wf(),
        ensures
            final(self).wf(),
            h.slot == old(self).len(),
            final(self).len() == old(self).len() + 1,
            final(self).live(h.slot as int),
            final(self).count(h.slot as int) == 1,
            final(self).pending(h.slot as int) == 1,
            forall|i: int|
                0 <= i < old(self).len() ==> final(self).count(i) == old(self).count(i)
                    && final(self).pending(i) == old(self).pending(i),
    {
        let h = Autoreleased { slot: self.counts.len() };
        self.counts.push(1);
        self.pending.push(1);
        h
    }

    /// Sharing: a second owner of the same object adds one retain; both
    /// owners then release independently.
    pub fn retain(&mut self, h: &Owned) -> (h2: Owned)
        requires
            old(self).wf(),
            old(self).live(h.slot as int),
            old(self).count(h.slot as int) < u64::MAX,
        ensures
            final(self).wf(),
            h2.slot == h.slot,
            final(self).len() == old(self).len(),
            final(self).count(h.slot as int) == old(self).count(h.slot as int) + 1,
            forall|i: int|
                0 <= i < old(self).len() && i != h.slot ==> final(self).count(i) == old(self).count(i),
            forall|i: int| 0 <= i < old(self).len() ==> final(self).pending(i) == old(self).pending(i),
    {
        let c = self.counts[h.slot];
        self.counts.set(h.slot, c + 1);
        Owned { slot: h.slot }
    }

    /// Retaining an autoreleased handle before the scope drains: the caller
    /// gains a retain of its own, independent of the one owed to the scope.
    pub fn retain_autoreleased(&mut self, h: &Autoreleased) -> (h2: Owned)
        requires
            old(self).wf(),
            old(self).live(h.slot as int),
            old(self).count(h.slot as int) < u64::MAX,
        ensures
            final(self).wf(),
            h2.slot == h.slot,
            final(self).len() == old(self).len(),
            final(self).count(h.slot as int) == old(self).count(h.slot as int) + 1,
            final(self).drained_count(h.slot as int) == old(self).drained_count(h.slot as int) + 1,
            forall|i: int|
                0 <= i < old(self).len() && i != h.slot ==> final(self).count(i) == old(self).count(i),
            forall|i: int| 0 <= i < old(self).len() ==> final(self).pending(i) == old(self).pending(i),
    {
        let c = self.counts[h.slot];
        self.counts.set(h.slot, c + 1);
        Owned { slot: h.slot }
    }

    /// An unowned reference to an object some owner keeps live; it carries
    /// no retain, so nothing is owed for it.
    pub fn borrow_unowned(&self, h: &Owned) -> (u: Unowned)
        requires
            self.live(h.slot as int),
        ensures
            u.slot == h.slot,
    {
        Unowned { slot: h.slot }
    }

    /// Ending an owned handle's lifetime gives back exactly its one retain;
    /// the last release deallocates the object. The handle is consumed, so a
    /// verified caller can neither release it twice nor keep using it.
    pub fn release(&mut self, h: Owned)
        requires
            old(self).wf(),
            old(self).live(h.slot as int),
            old(self).pending(h.slot as int) < old(self).count(h.slot as int),
        ensures
            final(self).wf(),
            final(self).len() == old(self).len(),
            final(self).count(h.slot as int) == old(self).count(h.slot as int) - 1,
            forall|i: int|
                0 <= i < old(self).len() && i != h.slot ==> final(self).count(i) == old(self).count(i),
            forall|i: int| 0 <= i < old(self).len() ==> final(self).pending(i) == old(self).pending(i),
    {
        let c = self.counts[h.slot];
        self.counts.set(h.slot, c - 1);
    }

    /// Draining the autorelease scope takes back every retain owed to it;
    /// an autoreleased object nobody retained is deallocated here.
    pub fn drain(&mut self)
        requires
            old(self).wf(),
        ensures
            final(self).wf(),
            final(self).len() == old(self).len(),
            forall|i: int|
                0 <= i < old(self).len() ==> final(self).count(i) == old(self).drained_count(i),
            forall|i: int| 0 <= i < old(self).len() ==> final(self).pending(i) == 0,
    {
        let n = self.counts.len();
        let mut i: usize = 0;
        while i < n
            invariant
                self.counts@.len() == n,
                self.pending@.len() == n,
                i <= n,
                forall|j: int|
                    0 <= j < n ==> old(self).pending@[j] <= #[trigger] old(self).counts@[j],
                forall|j: int|
                    0 <= j < i ==> self.counts@[j] == old(self).counts@[j]
                        - old(self).pending@[j],
                forall|j: int| 0 <= j < i ==> self.pending@[j] == 0,
                forall|j: int|
                    i <= j < n ==> self.counts@[j] == #[trigger] old(self).counts@[j],
                forall|j: int|
                    i <= j < n ==> self.pending@[j] == #[trigger] old(self).pending@[j],
            decreases n - i,
        {
            let c = self.counts[i];
            let p = self.pending[i];
            assert(c == old(self).counts@[i as int] && p == old(self).pending@[i as int]);
            assert(p <= c);
            self.counts.set(i, c - p);
            self.pending.set(i, 0);
            i = i + 1;
        }
    }
}

/// Releasing one of two independent owners leaves the object live for the
/// other: the count each owner contributed keeps it at one or more.
pub proof fn lemma_shared_object_survives_release(pre: Pool, post: Pool, a: Owned, b: Owned)
    requires
        pre.wf(),
        a.slot == b.slot,
        pre.live(a.slot as int),
        pre.count(a.slot as int) >= 2,
        post.len() == pre.len(),
        post.count(a.slot as int) == pre.count(a.slot as int) - 1,
    ensures
        post.live(b.slot as int),
{
}

/// An autoreleased object retained before the drain survives it: the
/// holder's own retain is not owed to the scope, so the drained count
/// stays positive.
pub proof fn lemma_retained_survives_drain(pre: Pool, post: Pool, h: Owned)
    requires
        pre.wf(),
        0 <= h.slot < pre.len(),
        pre.pending(h.slot as int) < pre.count(h.slot as int),
        post.len() == pre.len(),
        post.count(h.slot as int) == pre.drained_count(h.slot as int),
    ensures
        post.live(h.slot as int),
{
}

/// An autoreleased object nobody retained does not survive the drain: its
/// whole count was owed to the scope.
pub proof fn lemma_unretained_dies_at_drain(pre: Pool, post: Pool, h: Autoreleased)
    requires
        pre.wf(),
        0 <= h.slot < pre.len(),
        pre.pending(h.slot as int) == pre.count(h.slot as int),
        post.len() == pre.len(),
        post.count(h.slot as int) == pre.drained_count(h.slot as int),
    ensures
        !post.live(h.slot as int),
{
}

/// The value-level face of an autoreleased factory result: the wrapped
/// object is only borrowed from the autorelease scope until the caller
/// retains it.
pub struct Rar<T> {
    /// The wrapped object.
    pub obj: T,
}

impl<T> Rar<T> {
    /// Wraps a factory result that came back under the autoreleasing
    /// convention.
    pub fn autoreleased(obj: T) -> (r: Rar<T>)
        ensures
            r.obj == obj,
    {
        Rar { obj }
    }

    /// Issues the explicit retain that lets the object escape the current
    /// autorelease scope, yielding the owned value.
    pub fn retain(self) -> (r: T)
        ensures
            r == self.obj,
    {
        self.obj
    }

    /// Retains an optional autoreleased result, preserving absence: a null
    /// handle stays an absence value and never becomes an owned handle.
    pub fn option_retain(x: Option<Rar<T>>) -> (r: Option<T>)
        ensures
            match x {
                Some(h) => r == Some(h.obj),
                None => r is None,
            },
    {
        match x {
            Some(h) => Some(h.retain()),
            None => None,
        }
    }
}

} // verus!
