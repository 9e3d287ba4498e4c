//! An owned container over a version chain.

use vstd::prelude::*;

use crate::chain::VersionSlot;
use crate::guard::Guard;

verus! {

/// An owned read-copy-update container whose versions form a chain.
///
/// Unlike [`BoxCell`](crate::boxcell::BoxCell), a `BoxRcu` never
/// overwrites the slot a reader first observed: publishing pushes the
/// new value onto a forward chain, and readers follow the chain to its
/// newest version, paying one extra indirection only while the chain is
/// non-empty.  `clean` collapses the chain back into the head position
/// once exclusive access proves that safe, dropping every superseded
/// version.
pub struct BoxRcu<T> {
    slot: VersionSlot<T>,
}

impl<T> BoxRcu<T> {
    /// The value stored in the head position.
    pub closed spec fn head_value(&self) -> T {
        self.slot.head_value()
    }

    /// The versions superseding the head, newest first.
    pub closed spec fn chain_values(&self) -> Seq<T> {
        self.slot.chain_values()
    }

    /// No chain: readers take the head directly.
    pub open spec fn is_compact(&self) -> bool {
        self.chain_values().len() == 0
    }

    /// The value a reader observes.
    pub open spec fn current_value(&self) -> T {
        if self.is_compact() {
            self.head_value()
        } else {
            self.chain_values()[0]
        }
    }

    /// Allocate a new compact container holding `value`.
    pub fn new(value: T) -> (c: Self)
        ensures
            c.is_compact(),
            c.head_value() == value,
            c.current_value() == value,
    {
        BoxRcu { slot: VersionSlot::new(value) }
    }

    /// A reference to the newest published value.
    pub fn read(&self) -> (r: &T)
        ensures
            *r == self.current_value(),
    {
        self.slot.read()
    }

    /// How many superseded versions the chain still holds.
    pub fn chain_count(&self) -> (n: usize)
        ensures
            n == self.chain_values().len(),
    {
        self.slot.chain_count()
    }
}

impl<T: Clone> BoxRcu<T> {
    /// Begin a mutation: clone the newest value into a guard.  The
    /// published value stays in place until the guard is handed to
    /// `publish`, so readers keep observing it meanwhile.
    pub fn update(&self) -> (g: Guard<T>)
        ensures
            cloned::<T>(self.current_value(), g.value()),
    {
        Guard::hold(self.slot.read().clone())
    }

    /// Publish the guard's value as the newest version on the chain; the
    /// superseded versions are retained, not dropped.
    pub fn publish(&mut self, g: Guard<T>)
        ensures
            !final(self).is_compact(),
            final(self).current_value() == g.value(),
            final(self).head_value() == old(self).head_value(),
            final(self).chain_values() =~= seq![g.value()] + old(self).chain_values(),
    {
        self.slot.publish(g.into_value());
    }

    /// Collapse the chain: the newest version moves into the head
    /// position and every superseded version is dropped.  Exclusive
    /// access proves no reader can be mid-operation.  Readers observe
    /// the same value before and after; on a compact container this is
    /// a no-op.
    pub fn clean(&mut self)
        ensures
            final(self).is_compact(),
            final(self).head_value() == old(self).current_value(),
            final(self).current_value() == old(self).current_value(),
    {
        self.slot.collapse();
    }
}

} // verus!
