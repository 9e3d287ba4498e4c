//! The version-chain value slot.
//!
//! A [`VersionSlot`] keeps a head value in place and publishes newer
//! versions onto a forward chain instead of overwriting the head.  While
//! the chain is non-empty the slot is *chained*: readers follow the
//! chain to the newest version.  Collapsing moves the newest version
//! back into the head position and drops the chain, returning the slot
//! to its *compact* state; the dropped chain carries the head's old
//! value and every superseded version, so their drop handlers run then.

use vstd::prelude::*;

verus! {

/// A head value plus the chain of versions published over it, newest
/// first; the last chain entry is the oldest superseded version.
pub struct VersionSlot<T> {
    head: T,
    chain: Vec<T>,
}

impl<T> VersionSlot<T> {
    /// The value stored in the head position.
    pub closed spec fn head_value(&self) -> T {
        self.head
    }

    /// The published versions that supersede the head, newest first.
    pub closed spec fn chain_values(&self) -> Seq<T> {
        self.chain@
    }

    /// No chain: readers take the head directly.
    pub open spec fn is_compact(&self) -> bool {
        self.chain_values().len() == 0
    }

    /// The value a reader observes: the newest chained version if one
    /// exists, else the head.
    pub open spec fn current_value(&self) -> T {
        if self.is_compact() {
            self.head_value()
        } else {
            self.chain_values()[0]
        }
    }

    /// A fresh compact slot holding `value`.
    pub fn new(value: T) -> (s: Self)
        ensures
            s.head_value() == value,
            s.is_compact(),
            s.current_value() == value,
    {
        VersionSlot { head: value, chain: Vec::new() }
    }

    /// A reference to the value a reader observes, following the chain
    /// to its newest version when one exists.
    pub fn read(&self) -> (r: &T)
        ensures
            *r == self.current_value(),
    {
        if self.chain.len() > 0 {
            &self.chain[0]
        } else {
            &self.head
        }
    }

    /// Publish `pending` as the newest version.  The head stays in
    /// place; the previously newest version (or the head, when the slot
    /// was compact) is superseded but retained on the chain.
    pub fn publish(&mut self, pending: T)
        ensures
            !final(self).is_compact(),
            final(self).current_value() == pending,
            final(self).head_value() == old(self).head_value(),
            final(self).chain_values() =~= seq![pending] + old(self).chain_values(),
    {
        self.chain.insert(0, pending);
    }

    /// Collapse the chain: move the newest version into the head
    /// position and drop the chain, with the displaced head value and
    /// every superseded version on it.  On a compact slot this is a
    /// no-op.  Either way the slot ends compact, holding the value
    /// readers were observing.
    pub fn collapse(&mut self)
        ensures
            final(self).is_compact(),
            final(self).head_value() == old(self).current_value(),
            final(self).current_value() == old(self).current_value(),
    {
        if self.chain.len() > 0 {
            let mut newest = self.chain.remove(0);
            core::mem::swap(&mut self.head, &mut newest);
            self.chain.push(newest);
            self.chain.clear();
        }
    }

    /// How many superseded versions the chain still holds.
    pub fn chain_count(&self) -> (n: usize)
        ensures
            n == self.chain_values().len(),
    {
        self.chain.len()
    }
}

/// Round trip of the version chain: publishing `pending` and then
/// collapsing returns the slot to the compact state, holding exactly
/// the published value — indistinguishable from a freshly constructed
/// slot of that value.  `s0`, `s1` and `s2` are the slot before
/// `publish(pending)`, after it, and after the following `collapse`,
/// related as those operations ensure.
pub proof fn lemma_publish_collapse_round_trip<T>(
    s0: VersionSlot<T>,
    s1: VersionSlot<T>,
    s2: VersionSlot<T>,
    pending: T,
)
    requires
        s1.head_value() == s0.head_value(),
        s1.chain_values() =~= seq![pending] + s0.chain_values(),
        s2.is_compact(),
        s2.head_value() == s1.current_value(),
    ensures
        s2.is_compact(),
        s2.head_value() == pending,
        s2.current_value() == pending,
{
    assert(s1.chain_values()[0] == pending);
}

} // verus!
