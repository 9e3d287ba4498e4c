//! Shared-ownership composition of a value slot with borrow tracking.
//!
//! A shared container is one slot aliased by many owners.  Each owner is
//! a [`Handle`] registered with the slot's [`BorrowTracker`]; a read
//! marks the reading handle's borrow flag, and reclamation is gated on
//! the slot-wide count of marked handles reaching zero.  Two engines are
//! built this way: [`SharedEager`] retires displaced values into an
//! eager retirement list, and [`SharedChain`] publishes versions onto a
//! forward chain that reclamation collapses.  The single-thread and
//! multi-thread containers differ only in how the embedding application
//! may move them between threads; the bookkeeping verified here is the
//! same, with every operation serialized by the exclusive reference it
//! takes.

use vstd::prelude::*;

use crate::chain::VersionSlot;
use crate::guard::Guard;
use crate::slot::ValueSlot;
use crate::tracker::BorrowTracker;
use crate::tracker::Handle;
use crate::tracker::count_marked;

verus! {

/// A shared slot with an eager retirement list.
pub struct SharedEager<T> {
    slot: ValueSlot<T>,
    tracker: BorrowTracker,
}

impl<T> SharedEager<T> {
    /// The borrow count agrees with the per-handle flags.
    pub closed spec fn wf(&self) -> bool {
        self.tracker.wf()
    }

    /// The value a reader observes.
    pub closed spec fn current_value(&self) -> T {
        self.slot.current_value()
    }

    /// The displaced values still held, oldest first.
    pub closed spec fn retired_values(&self) -> Seq<T> {
        self.slot.retired_values()
    }

    /// The per-handle borrow flags.
    pub closed spec fn flags(&self) -> Seq<bool> {
        self.tracker.flags()
    }

    /// How many handles share this slot.
    pub open spec fn handle_count(&self) -> int {
        self.flags().len() as int
    }

    /// Whether `h` was registered with this slot.
    pub open spec fn valid_handle(&self, h: Handle) -> bool {
        0 <= h.id() < self.handle_count()
    }

    /// How many handles currently hold a borrow.
    pub open spec fn active_borrow_count(&self) -> int {
        count_marked(self.flags())
    }

    /// A fresh container holding `value`, with one registered handle and
    /// nothing retired.
    pub fn new(value: T) -> (r: (Self, Handle))
        ensures
            r.0.wf(),
            r.0.current_value() == value,
            r.0.retired_values() =~= Seq::<T>::empty(),
            r.0.flags() =~= seq![false],
            r.0.valid_handle(r.1),
            r.1.id() == 0,
    {
        let mut tracker = BorrowTracker::new();
        let h = tracker.register();
        (SharedEager { slot: ValueSlot::new(value), tracker }, h)
    }

    /// Register another owner of the same slot, with a fresh, cleared
    /// borrow flag.  The slot's value and retirement store are untouched.
    pub fn clone_handle(&mut self) -> (h: Handle)
        requires
            old(self).wf(),
        ensures
            final(self).wf(),
            final(self).current_value() == old(self).current_value(),
            final(self).retired_values() =~= old(self).retired_values(),
            final(self).flags() =~= old(self).flags().push(false),
            h.id() == old(self).handle_count(),
            final(self).valid_handle(h),
    {
        self.tracker.register()
    }

    /// Read the current value through `h`, marking the handle's borrow
    /// flag: the handle now counts as possibly observing this slot's
    /// values until its next `clean`.
    pub fn read(&mut self, h: &Handle) -> (r: &T)
        requires
            old(self).wf(),
            old(self).valid_handle(*h),
        ensures
            final(self).wf(),
            *r == old(self).current_value(),
            final(self).current_value() == old(self).current_value(),
            final(self).retired_values() =~= old(self).retired_values(),
            final(self).flags() =~= old(self).flags().update(h.id(), true),
    {
        self.tracker.mark(h);
        self.slot.read()
    }
}

impl<T: Clone> SharedEager<T> {
    /// Begin a mutation through `h`: clone the current value into a
    /// guard.  Reading the value to clone marks the handle's borrow
    /// flag, and the published value stays in place until the guard is
    /// handed to `publish`.
    pub fn update(&mut self, h: &Handle) -> (g: Guard<T>)
        requires
            old(self).wf(),
            old(self).valid_handle(*h),
        ensures
            final(self).wf(),
            cloned::<T>(old(self).current_value(), g.value()),
            final(self).current_value() == old(self).current_value(),
            final(self).retired_values() =~= old(self).retired_values(),
            final(self).flags() =~= old(self).flags().update(h.id(), true),
    {
        self.tracker.mark(h);
        let pending = self.slot.read().clone();
        Guard::hold(pending)
    }
}

impl<T> SharedEager<T> {
    /// Publish the guard's value as the new current value; the displaced
    /// value joins the retirement store.  When two guards of this slot
    /// are published in turn, the later one wins, and both displaced
    /// values are retired, not leaked.
    pub fn publish(&mut self, g: Guard<T>)
        requires
            old(self).wf(),
        ensures
            final(self).wf(),
            final(self).current_value() == g.value(),
            final(self).retired_values() =~= old(self).retired_values().push(
                old(self).current_value(),
            ),
            final(self).flags() =~= old(self).flags(),
    {
        self.slot.publish(g.into_value());
    }

    /// Release `h`'s borrow; if no handle then holds a borrow, drop every
    /// retired value.  The current value is never touched, and with
    /// outstanding borrows the retirement store is left as it is.
    pub fn clean(&mut self, h: &Handle)
        requires
            old(self).wf(),
            old(self).valid_handle(*h),
        ensures
            final(self).wf(),
            final(self).current_value() == old(self).current_value(),
            final(self).flags() =~= old(self).flags().update(h.id(), false),
            count_marked(old(self).flags().update(h.id(), false)) == 0 ==> final(self).retired_values() =~= Seq::<T>::empty(),
            count_marked(old(self).flags().update(h.id(), false)) != 0 ==> final(self).retired_values() =~= old(self).retired_values(),
    {
        self.tracker.release(h);
        if self.tracker.active_count() == 0 {
            self.slot.clear_retired();
        }
    }

    /// How many displaced values are still held.
    pub fn retired_count(&self) -> (n: usize)
        ensures
            n == self.retired_values().len(),
    {
        self.slot.retired_count()
    }

    /// How many handles currently hold a borrow.
    pub fn active_borrows(&self) -> (n: usize)
        requires
            self.wf(),
        ensures
            n == self.active_borrow_count(),
    {
        self.tracker.active_count()
    }
}

/// A shared slot whose versions form a forward chain, with a
/// single-writer discipline on mutation.
pub struct SharedChain<T> {
    slot: VersionSlot<T>,
    tracker: BorrowTracker,
    updating: bool,
}

impl<T> SharedChain<T> {
    /// The borrow count agrees with the per-handle flags.
    pub closed spec fn wf(&self) -> bool {
        self.tracker.wf()
    }

    /// The value in the head position.
    pub closed spec fn head_value(&self) -> T {
        self.slot.head_value()
    }

    /// The versions superseding the head, newest first.
    pub closed spec fn chain_values(&self) -> Seq<T> {
        self.slot.chain_values()
    }

    /// No chain: readers take the head directly.
    pub open spec fn is_compact(&self) -> bool {
        self.chain_values().len() == 0
    }

    /// The value a reader observes: the newest chained version if one
    /// exists, else the head.
    pub open spec fn current_value(&self) -> T {
        if self.is_compact() {
            self.head_value()
        } else {
            self.chain_values()[0]
        }
    }

    /// Whether a mutation guard of this slot is outstanding.
    pub closed spec fn is_updating(&self) -> bool {
        self.updating
    }

    /// The per-handle borrow flags.
    pub closed spec fn flags(&self) -> Seq<bool> {
        self.tracker.flags()
    }

    /// How many handles share this slot.
    pub open spec fn handle_count(&self) -> int {
        self.flags().len() as int
    }

    /// Whether `h` was registered with this slot.
    pub open spec fn valid_handle(&self, h: Handle) -> bool {
        0 <= h.id() < self.handle_count()
    }

    /// How many handles currently hold a borrow.
    pub open spec fn active_borrow_count(&self) -> int {
        count_marked(self.flags())
    }

    /// A fresh compact container holding `value`, with one registered
    /// handle and no mutation outstanding.
    pub fn new(value: T) -> (r: (Self, Handle))
        ensures
            r.0.wf(),
            r.0.is_compact(),
            r.0.head_value() == value,
            r.0.current_value() == value,
            !r.0.is_updating(),
            r.0.flags() =~= seq![false],
            r.0.valid_handle(r.1),
            r.1.id() == 0,
    {
        let mut tracker = BorrowTracker::new();
        let h = tracker.register();
        (SharedChain { slot: VersionSlot::new(value), tracker, updating: false }, h)
    }

    /// Register another owner of the same slot, with a fresh, cleared
    /// borrow flag.
    pub fn clone_handle(&mut self) -> (h: Handle)
        requires
            old(self).wf(),
        ensures
            final(self).wf(),
            final(self).head_value() == old(self).head_value(),
            final(self).chain_values() =~= old(self).chain_values(),
            final(self).current_value() == old(self).current_value(),
            final(self).is_updating() == old(self).is_updating(),
            final(self).flags() =~= old(self).flags().push(false),
            h.id() == old(self).handle_count(),
            final(self).valid_handle(h),
    {
        self.tracker.register()
    }

    /// Read the newest published value through `h`, following the chain
    /// when one exists and marking the handle's borrow flag.
    pub fn read(&mut self, h: &Handle) -> (r: &T)
        requires
            old(self).wf(),
            old(self).valid_handle(*h),
        ensures
            final(self).wf(),
            *r == old(self).current_value(),
            final(self).head_value() == old(self).head_value(),
            final(self).chain_values() =~= old(self).chain_values(),
            final(self).current_value() == old(self).current_value(),
            final(self).is_updating() == old(self).is_updating(),
            final(self).flags() =~= old(self).flags().update(h.id(), true),
    {
        self.tracker.mark(h);
        self.slot.read()
    }
}

impl<T: Clone> SharedChain<T> {
    /// Begin a mutation through `h`: clone the newest value into a
    /// guard.  This strategy requires exclusive in-flight mutation, so a
    /// second `update` before the guard is published is ruled out.
    /// Reading the value to clone marks the handle's borrow flag.
    pub fn update(&mut self, h: &Handle) -> (g: Guard<T>)
        requires
            old(self).wf(),
            old(self).valid_handle(*h),
            !old(self).is_updating(),
        ensures
            final(self).wf(),
            cloned::<T>(old(self).current_value(), g.value()),
            final(self).head_value() == old(self).head_value(),
            final(self).chain_values() =~= old(self).chain_values(),
            final(self).current_value() == old(self).current_value(),
            final(self).is_updating(),
            final(self).flags() =~= old(self).flags().update(h.id(), true),
    {
        self.updating = true;
        self.tracker.mark(h);
        let pending = self.slot.read().clone();
        Guard::hold(pending)
    }
}

impl<T> SharedChain<T> {
    /// Publish the guard's value as the newest version on the chain and
    /// end the mutation.  The head stays in place; readers now follow
    /// the chain to the published value.
    pub fn publish(&mut self, g: Guard<T>)
        requires
            old(self).wf(),
            old(self).is_updating(),
        ensures
            final(self).wf(),
            !final(self).is_updating(),
            final(self).current_value() == g.value(),
            final(self).head_value() == old(self).head_value(),
            final(self).chain_values() =~= seq![g.value()] + old(self).chain_values(),
            final(self).flags() =~= old(self).flags(),
    {
        self.slot.publish(g.into_value());
        self.updating = false;
    }

    /// Release `h`'s borrow; if no handle then holds a borrow, collapse
    /// the chain: the newest version moves into the head position and
    /// the superseded versions are dropped.  Readers observe the same
    /// value before and after, and with outstanding borrows the chain is
    /// left as it is.
    pub fn clean(&mut self, h: &Handle)
        requires
            old(self).wf(),
            old(self).valid_handle(*h),
        ensures
            final(self).wf(),
            final(self).current_value() == old(self).current_value(),
            final(self).is_updating() == old(self).is_updating(),
            final(self).flags() =~= old(self).flags().update(h.id(), false),
            count_marked(old(self).flags().update(h.id(), false)) == 0 ==> final(self).is_compact()
                && final(self).head_value() == old(self).current_value(),
            count_marked(old(self).flags().update(h.id(), false)) != 0 ==> final(self).chain_values() =~= old(self).chain_values() && final(self).head_value() == old(self).head_value(),
    {
        self.tracker.release(h);
        if self.tracker.active_count() == 0 {
            self.slot.collapse();
        }
    }

    /// How many superseded versions the chain still holds.
    pub fn chain_count(&self) -> (n: usize)
        ensures
            n == self.chain_values().len(),
    {
        self.slot.chain_count()
    }

    /// How many handles currently hold a borrow.
    pub fn active_borrows(&self) -> (n: usize)
        requires
            self.wf(),
        ensures
            n == self.active_borrow_count(),
    {
        self.tracker.active_count()
    }
}

/// Reads through aliasing handles agree: after cloning a handle, a
/// read through the original and a read through the clone return equal
/// values, namely the slot's one current value.  `s0` is the slot
/// after the clone, `s1` the slot after the first read (through `h1`,
/// returning `r1`), and `r2` what a read through `h2` then returns, as
/// `read` ensures.
pub proof fn lemma_clone_reads_agree<T>(
    s0: SharedEager<T>,
    s1: SharedEager<T>,
    h1: Handle,
    h2: Handle,
    r1: T,
    r2: T,
)
    requires
        r1 == s0.current_value(),
        s1.current_value() == s0.current_value(),
        s1.flags() =~= s0.flags().update(h1.id(), true),
        r2 == s1.current_value(),
    ensures
        r1 == r2,
        r1 == s0.current_value(),
{
}

/// A mutation published through one handle is visible through every
/// handle: whatever handle makes the next read, it returns the guard's
/// published value.  `s1` is the slot after `publish(g)`, related as
/// `publish` ensures, and `r` what a read through any handle returns.
pub proof fn lemma_publish_visible_to_all<T>(s1: SharedEager<T>, g: Guard<T>, r: T)
    requires
        s1.current_value() == g.value(),
        r == s1.current_value(),
    ensures
        r == g.value(),
{
}

/// Reads through aliasing handles of a chained slot agree, exactly as
/// for the eager slot: both return the slot's one current value.
pub proof fn lemma_chain_clone_reads_agree<T>(
    s0: SharedChain<T>,
    s1: SharedChain<T>,
    h1: Handle,
    h2: Handle,
    r1: T,
    r2: T,
)
    requires
        r1 == s0.current_value(),
        s1.current_value() == s0.current_value(),
        s1.flags() =~= s0.flags().update(h1.id(), true),
        r2 == s1.current_value(),
    ensures
        r1 == r2,
        r1 == s0.current_value(),
{
}

/// Guard scoping: while a mutation guard is outstanding, reads keep
/// observing the value that was published before the update began; as
/// soon as the guard is published, reads observe the guard's value.
/// `s0`, `s1` and `s2` are the slot before `update(h)`, after it, and
/// after `publish(g)`, related as those operations ensure; `r_held`
/// and `r_after` are what reads return in between.
pub proof fn lemma_guard_scoping<T>(
    s0: SharedChain<T>,
    s1: SharedChain<T>,
    s2: SharedChain<T>,
    g: Guard<T>,
    r_held: T,
    r_after: T,
)
    requires
        s1.current_value() == s0.current_value(),
        r_held == s1.current_value(),
        s2.current_value() == g.value(),
        r_after == s2.current_value(),
    ensures
        r_held == s0.current_value(),
        r_after == g.value(),
{
}

/// `clean` through one handle is idempotent: a second call through the
/// same handle changes nothing further — the current value, the flags
/// and the retirement store stay as the first call left them.  `s0`,
/// `s1` and `s2` are the slot before the first `clean(h)`, after it,
/// and after the second, related as `clean` ensures.
pub proof fn lemma_clean_idempotent<T>(
    s0: SharedEager<T>,
    s1: SharedEager<T>,
    s2: SharedEager<T>,
    h: Handle,
)
    requires
        0 <= h.id() < s0.flags().len(),
        s1.current_value() == s0.current_value(),
        s1.flags() =~= s0.flags().update(h.id(), false),
        count_marked(s0.flags().update(h.id(), false)) == 0 ==> s1.retired_values() =~= Seq::<
            T,
        >::empty(),
        count_marked(s0.flags().update(h.id(), false)) != 0 ==> s1.retired_values() =~= s0.retired_values(),
        s2.current_value() == s1.current_value(),
        s2.flags() =~= s1.flags().update(h.id(), false),
        count_marked(s1.flags().update(h.id(), false)) == 0 ==> s2.retired_values() =~= Seq::<
            T,
        >::empty(),
        count_marked(s1.flags().update(h.id(), false)) != 0 ==> s2.retired_values() =~= s1.retired_values(),
    ensures
        s2.current_value() == s0.current_value(),
        s2.flags() =~= s1.flags(),
        s2.retired_values() =~= s1.retired_values(),
{
    assert(s1.flags().update(h.id(), false) =~= s1.flags());
    assert(count_marked(s1.flags().update(h.id(), false)) == count_marked(
        s0.flags().update(h.id(), false),
    ));
}

} // verus!
