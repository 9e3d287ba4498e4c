//! Per-handle borrow bookkeeping for a shared slot.
//!
//! A [`BorrowTracker`] records, for every handle registered with a slot,
//! whether that handle currently holds a read borrow into the slot, and
//! keeps a slot-wide count of handles whose flag is set.  The invariant
//! that the count equals the number of set flags is what lets `clean`
//! conclude, from a zero count, that no handle can still observe a
//! retired value.

use vstd::prelude::*;

verus! {

/// How many entries of `flags` are set.
pub open spec fn count_marked(flags: Seq<bool>) -> int
    decreases flags.len(),
{
    if flags.len() == 0 {
        0
    } else {
        count_marked(flags.drop_last()) + if flags.last() {
            1int
        } else {
            0int
        }
    }
}

pub proof fn lemma_count_marked_bounds(flags: Seq<bool>)
    ensures
        0 <= count_marked(flags) <= flags.len(),
    decreases flags.len(),
{
    if flags.len() > 0 {
        lemma_count_marked_bounds(flags.drop_last());
    }
}

pub proof fn lemma_count_marked_push(flags: Seq<bool>, b: bool)
    ensures
        count_marked(flags.push(b)) == count_marked(flags) + if b {
            1int
        } else {
            0int
        },
{
    assert(flags.push(b).drop_last() =~= flags);
    assert(flags.push(b).last() == b);
}

/// Setting entry `i` changes the count by the difference of the new and
/// the old flag.
pub proof fn lemma_count_marked_update(flags: Seq<bool>, i: int, b: bool)
    requires
        0 <= i < flags.len(),
    ensures
        count_marked(flags.update(i, b)) == count_marked(flags) + (if b {
            1int
        } else {
            0int
        }) - (if flags[i] {
            1int
        } else {
            0int
        }),
    decreases flags.len(),
{
    let updated = flags.update(i, b);
    if i == flags.len() - 1 {
        assert(updated.drop_last() =~= flags.drop_last());
        assert(updated.last() == b);
        assert(flags.last() == flags[i]);
    } else {
        assert(updated.drop_last() =~= flags.drop_last().update(i, b));
        assert(updated.last() == flags.last());
        lemma_count_marked_update(flags.drop_last(), i, b);
    }
}

/// A set flag contributes to the count, so the count is then positive.
pub proof fn lemma_count_marked_at_least_one(flags: Seq<bool>, i: int)
    requires
        0 <= i < flags.len(),
        flags[i],
    ensures
        count_marked(flags) >= 1,
    decreases flags.len(),
{
    lemma_count_marked_bounds(flags.drop_last());
    if i < flags.len() - 1 {
        lemma_count_marked_at_least_one(flags.drop_last(), i);
    }
}

/// One owner of a shared slot.
///
/// A handle is nothing but the index under which the slot's
/// [`BorrowTracker`] keeps this owner's borrow flag.  Handles are only
/// created by registering with a tracker, so distinct handles of one slot
/// carry distinct indices.
pub struct Handle {
    index: usize,
}

impl Handle {
    /// The index of this handle's flag in the tracker it was registered
    /// with.
    pub closed spec fn id(&self) -> int {
        self.index as int
    }
}

/// Borrow flags of every registered handle, and the count of set flags.
pub struct BorrowTracker {
    flags: Vec<bool>,
    active: usize,
}

impl BorrowTracker {
    /// The per-handle borrow flags, in registration order.
    pub closed spec fn flags(&self) -> Seq<bool> {
        self.flags@
    }

    /// Whether the handle with index `i` currently holds a borrow.
    pub open spec fn is_marked(&self, i: int) -> bool {
        0 <= i < self.flags().len() && self.flags()[i]
    }

    /// How many handles have been registered.
    pub open spec fn handle_count(&self) -> int {
        self.flags().len() as int
    }

    /// The slot-wide active borrow count agrees with the flags.
    pub closed spec fn wf(&self) -> bool {
        self.active == count_marked(self.flags@)
    }

    /// A tracker with no handles registered yet.
    pub fn new() -> (t: Self)
        ensures
            t.wf(),
            t.flags() =~= Seq::<bool>::empty(),
    {
        BorrowTracker { flags: Vec::new(), active: 0 }
    }

    /// Register a new handle; its borrow flag starts cleared.
    pub fn register(&mut self) -> (h: Handle)
        requires
            old(self).wf(),
        ensures
            final(self).wf(),
            h.id() == old(self).handle_count(),
            final(self).flags() =~= old(self).flags().push(false),
    {
        let h = Handle { index: self.flags.len() };
        self.flags.push(false);
        proof {
            lemma_count_marked_push(old(self).flags@, false);
        }
        h
    }

    /// Set the handle's borrow flag; the count grows only on the first
    /// marking since the flag was last cleared.
    pub fn mark(&mut self, h: &Handle)
        requires
            old(self).wf(),
            0 <= h.id() < old(self).handle_count(),
        ensures
            final(self).wf(),
            final(self).flags() =~= old(self).flags().update(h.id(), true),
    {
        proof {
            lemma_count_marked_update(self.flags@, h.id(), true);
            lemma_count_marked_bounds(self.flags@.update(h.id(), true));
        }
        let n: usize = self.flags.len();
        assert(self.flags@.update(h.id(), true).len() == n);
        if !self.flags[h.index] {
            self.flags.set(h.index, true);
            self.active = self.active + 1;
        } else {
            proof {
                assert(self.flags@.update(h.id(), true) =~= self.flags@);
            }
        }
    }

    /// Clear the handle's borrow flag; the count shrinks only if the flag
    /// was set.
    pub fn release(&mut self, h: &Handle)
        requires
            old(self).wf(),
            0 <= h.id() < old(self).handle_count(),
        ensures
            final(self).wf(),
            final(self).flags() =~= old(self).flags().update(h.id(), false),
    {
        proof {
            lemma_count_marked_update(self.flags@, h.id(), false);
        }
        if self.flags[h.index] {
            proof {
                lemma_count_marked_at_least_one(self.flags@, h.id());
            }
            self.flags.set(h.index, false);
            self.active = self.active - 1;
        } else {
            proof {
                assert(self.flags@.update(h.id(), false) =~= self.flags@);
            }
        }
    }

    /// The slot-wide count of handles currently holding a borrow.
    pub fn active_count(&self) -> (n: usize)
        requires
            self.wf(),
        ensures
            n == count_marked(self.flags()),
    {
        self.active
    }

    /// Whether the handle currently holds a borrow.
    pub fn holds_borrow(&self, h: &Handle) -> (b: bool)
        requires
            0 <= h.id() < self.handle_count(),
        ensures
            b == self.is_marked(h.id()),
    {
        self.flags[h.index]
    }
}

} // verus!
