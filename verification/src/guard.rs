//! The mutation guard of the read-copy-update protocol.
//!
//! `update` on a container clones the current value into a [`Guard`].
//! The caller edits the clone through the guard, while every reader of
//! the container keeps seeing the old published value.  Handing the
//! guard back to the container's `publish` makes the clone the new
//! current value and retires the displaced one.

use vstd::prelude::*;

verus! {

/// A private clone of a container's current value, being mutated.
pub struct Guard<T> {
    pending: T,
}

impl<T> Guard<T> {
    /// The value the guard will publish.
    pub closed spec fn value(&self) -> T {
        self.pending
    }

    /// Wrap a pending value in a guard.
    pub fn hold(pending: T) -> (g: Self)
        ensures
            g.value() == pending,
    {
        Guard { pending }
    }

    /// Read the pending value.
    pub fn read(&self) -> (r: &T)
        ensures
            *r == self.value(),
    {
        &self.pending
    }

    /// Replace the pending value outright.
    pub fn set(&mut self, v: T)
        ensures
            final(self).value() == v,
    {
        self.pending = v;
    }

    /// Mutate the pending value in place.
    pub fn value_mut(&mut self) -> (r: &mut T)
        ensures
            *r == old(self).value(),
            final(self).value() == *final(r),
    {
        &mut self.pending
    }

    /// Surrender the pending value.
    pub fn into_value(self) -> (v: T)
        ensures
            v == self.value(),
    {
        self.pending
    }
}

} // verus!
