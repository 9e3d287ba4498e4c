//! A shared multi-thread container over a version chain.

use vstd::prelude::*;

use crate::guard::Guard;
use crate::shared::SharedChain;
use crate::tracker::Handle;
use crate::tracker::count_marked;

verus! {

/// A read-copy-update container with chained versions, tuned for many
/// readers on many threads.
///
/// An `ArcRcu` plays the role of an `Arc<RwLock<T>>` whose readers
/// never take the lock: a published value goes onto a forward chain,
/// and readers follow the chain to its newest version.  In a
/// pointer-based realization that publication is a single
/// release-ordered write paired with readers' acquire loads; here
/// every operation takes the container exclusively, which subsumes
/// that ordering and lets the bookkeeping be verified.  Many owners
/// alias one slot through [`Handle`] values; a read marks the reading
/// handle's borrow flag.  Because `clean` physically moves the newest
/// value back into the head position, it collapses the chain only once
/// the slot-wide borrow count is zero.  At most one mutation guard of
/// the slot may be outstanding at a time.
pub struct ArcRcu<T> {
    core: SharedChain<T>,
}

impl<T> ArcRcu<T> {
    /// The borrow count agrees with the per-handle flags.
    pub closed spec fn wf(&self) -> bool {
        self.core.wf()
    }

    /// The value in the head position.
    pub closed spec fn head_value(&self) -> T {
        self.core.head_value()
    }

    /// The versions superseding the head, newest first.
    pub closed spec fn chain_values(&self) -> Seq<T> {
        self.core.chain_values()
    }

    /// No chain: readers take the head directly.
    pub open spec fn is_compact(&self) -> bool {
        self.chain_values().len() == 0
    }

    /// The value a reader observes.
    pub open spec fn current_value(&self) -> T {
        if self.is_compact() {
            self.head_value()
        } else {
            self.chain_values()[0]
        }
    }

    /// Whether a mutation guard of this slot is outstanding.
    pub closed spec fn is_updating(&self) -> bool {
        self.core.is_updating()
    }

    /// The per-handle borrow flags.
    pub closed spec fn flags(&self) -> Seq<bool> {
        self.core.flags()
    }

    /// How many handles share this slot.
    pub open spec fn handle_count(&self) -> int {
        self.flags().len() as int
    }

    /// Whether `h` was registered with this container.
    pub open spec fn valid_handle(&self, h: Handle) -> bool {
        0 <= h.id() < self.handle_count()
    }

    /// How many handles currently hold a borrow.
    pub open spec fn active_borrow_count(&self) -> int {
        count_marked(self.flags())
    }

    /// Allocate a new compact container holding `value`, returning it
    /// with its first handle.
    pub fn new(value: T) -> (r: (Self, Handle))
        ensures
            r.0.wf(),
            r.0.is_compact(),
            r.0.head_value() == value,
            r.0.current_value() == value,
            !r.0.is_updating(),
            r.0.flags() =~= seq![false],
            r.0.valid_handle(r.1),
    {
        let (core, h) = SharedChain::new(value);
        (ArcRcu { core }, h)
    }

    /// Register another owner of the same slot, with a fresh, cleared
    /// borrow flag.
    pub fn clone_handle(&mut self) -> (h: Handle)
        requires
            old(self).wf(),
        ensures
            final(self).wf(),
            final(self).head_value() == old(self).head_value(),
            final(self).chain_values() =~= old(self).chain_values(),
            final(self).current_value() == old(self).current_value(),
            final(self).is_updating() == old(self).is_updating(),
            final(self).flags() =~= old(self).flags().push(false),
            h.id() == old(self).handle_count(),
            final(self).valid_handle(h),
    {
        self.core.clone_handle()
    }

    /// Read the newest published value through `h`, marking the
    /// handle's borrow flag until its next `clean`.
    pub fn read(&mut self, h: &Handle) -> (r: &T)
        requires
            old(self).wf(),
            old(self).valid_handle(*h),
        ensures
            final(self).wf(),
            *r == old(self).current_value(),
            final(self).head_value() == old(self).head_value(),
            final(self).chain_values() =~= old(self).chain_values(),
            final(self).current_value() == old(self).current_value(),
            final(self).is_updating() == old(self).is_updating(),
            final(self).flags() =~= old(self).flags().update(h.id(), true),
    {
        self.core.read(h)
    }

    /// How many superseded versions the chain still holds.
    pub fn chain_count(&self) -> (n: usize)
        ensures
            n == self.chain_values().len(),
    {
        self.core.chain_count()
    }

    /// How many handles currently hold a borrow.
    pub fn active_borrows(&self) -> (n: usize)
        requires
            self.wf(),
        ensures
            n == self.active_borrow_count(),
    {
        self.core.active_borrows()
    }
}

impl<T: Clone> ArcRcu<T> {
    /// Begin a mutation through `h`: clone the newest value into a
    /// guard, marking the handle's borrow flag.  This strategy requires
    /// exclusive in-flight mutation, so a second `update` before the
    /// guard is published is ruled out.
    pub fn update(&mut self, h: &Handle) -> (g: Guard<T>)
        requires
            old(self).wf(),
            old(self).valid_handle(*h),
            !old(self).is_updating(),
        ensures
            final(self).wf(),
            cloned::<T>(old(self).current_value(), g.value()),
            final(self).head_value() == old(self).head_value(),
            final(self).chain_values() =~= old(self).chain_values(),
            final(self).current_value() == old(self).current_value(),
            final(self).is_updating(),
            final(self).flags() =~= old(self).flags().update(h.id(), true),
    {
        self.core.update(h)
    }

    /// Publish the guard's value as the newest version on the chain and
    /// end the mutation.  The head stays in place; readers now follow
    /// the chain to the published value.
    pub fn publish(&mut self, g: Guard<T>)
        requires
            old(self).wf(),
            old(self).is_updating(),
        ensures
            final(self).wf(),
            !final(self).is_updating(),
            final(self).current_value() == g.value(),
            final(self).head_value() == old(self).head_value(),
            final(self).chain_values() =~= seq![g.value()] + old(self).chain_values(),
            final(self).flags() =~= old(self).flags(),
    {
        self.core.publish(g)
    }

    /// Release `h`'s borrow; if no handle then holds a borrow, collapse
    /// the chain and drop the superseded versions.  Readers observe the
    /// same value before and after, and with outstanding borrows the
    /// chain is left as it is.
    pub fn clean(&mut self, h: &Handle)
        requires
            old(self).wf(),
            old(self).valid_handle(*h),
        ensures
            final(self).wf(),
            final(self).current_value() == old(self).current_value(),
            final(self).is_updating() == old(self).is_updating(),
            final(self).flags() =~= old(self).flags().update(h.id(), false),
            count_marked(old(self).flags().update(h.id(), false)) == 0 ==> final(self).is_compact()
                && final(self).head_value() == old(self).current_value(),
            count_marked(old(self).flags().update(h.id(), false)) != 0 ==> final(self).chain_values() =~= old(self).chain_values() && final(self).head_value() == old(self).head_value(),
    {
        self.core.clean(h)
    }
}

} // verus!
