//! The eager-retire value slot.
//!
//! A [`ValueSlot`] owns exactly one live value and the values it has
//! displaced.  Publishing swaps the current value for a new one and
//! appends the displaced value to the retirement store; the store is
//! cleared only by an explicit reclamation step, never implicitly, and
//! the current value is never part of it.

use vstd::prelude::*;

verus! {

/// One live value plus the retired-but-not-yet-freed prior values.
pub struct ValueSlot<T> {
    current: T,
    retired: Vec<T>,
}

impl<T> ValueSlot<T> {
    /// The value a reader observes.
    pub closed spec fn current_value(&self) -> T {
        self.current
    }

    /// The displaced values still held, oldest first.
    pub closed spec fn retired_values(&self) -> Seq<T> {
        self.retired@
    }

    /// A fresh slot holding `value`, with nothing retired.
    pub fn new(value: T) -> (s: Self)
        ensures
            s.current_value() == value,
            s.retired_values() =~= Seq::<T>::empty(),
    {
        ValueSlot { current: value, retired: Vec::new() }
    }

    /// A reference to the current value.
    pub fn read(&self) -> (r: &T)
        ensures
            *r == self.current_value(),
    {
        &self.current
    }

    /// Make `pending` the current value; the displaced value joins the
    /// retirement store rather than being dropped.
    pub fn publish(&mut self, pending: T)
        ensures
            final(self).current_value() == pending,
            final(self).retired_values() =~= old(self).retired_values().push(
                old(self).current_value(),
            ),
    {
        let mut displaced = pending;
        core::mem::swap(&mut self.current, &mut displaced);
        self.retired.push(displaced);
    }

    /// Drop every retired value; the current value is untouched.
    pub fn clear_retired(&mut self)
        ensures
            final(self).current_value() == old(self).current_value(),
            final(self).retired_values() =~= Seq::<T>::empty(),
    {
        self.retired.clear();
    }

    /// Mutable access to the current value itself, bypassing the
    /// read-copy-update protocol.  Sound only because `&mut self` proves
    /// no reader holds a reference into the slot.
    pub fn current_mut(&mut self) -> (r: &mut T)
        ensures
            *r == old(self).current_value(),
            final(self).current_value() == *final(r),
            final(self).retired_values() =~= old(self).retired_values(),
    {
        &mut self.current
    }

    /// How many displaced values are still held.
    pub fn retired_count(&self) -> (n: usize)
        ensures
            n == self.retired_values().len(),
    {
        self.retired.len()
    }
}

/// Publishing makes a read observe exactly the published value, while
/// the displaced pre-update value is retained in the retirement store
/// rather than dropped: a reader that obtained it before the update
/// still finds it intact until a cleanup.  `pre` and `post` are the
/// slot before and after `publish(pending)`, related as `publish`
/// ensures.
pub proof fn lemma_publish_retains_displaced<T>(pre: ValueSlot<T>, post: ValueSlot<T>, pending: T)
    requires
        post.current_value() == pending,
        post.retired_values() =~= pre.retired_values().push(pre.current_value()),
    ensures
        post.retired_values().contains(pre.current_value()),
        post.retired_values().len() == pre.retired_values().len() + 1,
{
    assert(post.retired_values()[post.retired_values().len() - 1] == pre.current_value());
}

} // verus!
