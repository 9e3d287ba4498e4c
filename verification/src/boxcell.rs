//! An owned container with an eager retirement list.

use vstd::prelude::*;

use crate::guard::Guard;
use crate::slot::ValueSlot;

verus! {

/// An owned read-copy-update container for a single thread.
///
/// A `BoxCell` plays the role of a `Box` whose contents can be replaced
/// while read references are logically outstanding: a mutation clones
/// the current value into a [`Guard`], and publishing the guard swaps
/// the clone in and retires the displaced value.  Because a `BoxCell`
/// has exactly one owner and never crosses a thread, no borrow tracking
/// is needed: holding `&mut self` already proves that no reader can be
/// mid-operation, so `clean` may always drop the retired values.
pub struct BoxCell<T> {
    slot: ValueSlot<T>,
}

impl<T> BoxCell<T> {
    /// The value a reader observes.
    pub closed spec fn current_value(&self) -> T {
        self.slot.current_value()
    }

    /// The displaced values still held, oldest first.
    pub closed spec fn retired_values(&self) -> Seq<T> {
        self.slot.retired_values()
    }

    /// Allocate a new container holding `value`.
    pub fn new(value: T) -> (c: Self)
        ensures
            c.current_value() == value,
            c.retired_values() =~= Seq::<T>::empty(),
    {
        BoxCell { slot: ValueSlot::new(value) }
    }

    /// A reference to the current value.
    pub fn read(&self) -> (r: &T)
        ensures
            *r == self.current_value(),
    {
        self.slot.read()
    }

    /// How many displaced values are still held.
    pub fn retired_count(&self) -> (n: usize)
        ensures
            n == self.retired_values().len(),
    {
        self.slot.retired_count()
    }
}

impl<T: Clone> BoxCell<T> {
    /// Begin a mutation: clone the current value into a guard.  The
    /// published value stays in place until the guard is handed to
    /// `publish`, so readers keep observing it meanwhile.
    pub fn update(&self) -> (g: Guard<T>)
        ensures
            cloned::<T>(self.current_value(), g.value()),
    {
        Guard::hold(self.slot.read().clone())
    }

    /// Publish the guard's value as the new current value; the displaced
    /// value is retired, not dropped.
    pub fn publish(&mut self, g: Guard<T>)
        ensures
            final(self).current_value() == g.value(),
            final(self).retired_values() =~= old(self).retired_values().push(
                old(self).current_value(),
            ),
    {
        self.slot.publish(g.into_value());
    }

    /// Drop every retired value.  Exclusive access proves no reader can
    /// still observe them; the current value is never touched.
    pub fn clean(&mut self)
        ensures
            final(self).current_value() == old(self).current_value(),
            final(self).retired_values() =~= Seq::<T>::empty(),
    {
        self.slot.clear_retired();
    }

    /// Mutate the current value directly, without the clone-and-publish
    /// protocol.  Exclusive access proves there are no other references,
    /// so the retired values are dropped first and no copy is needed.
    pub fn get_mut(&mut self) -> (r: &mut T)
        ensures
            *r == old(self).current_value(),
            final(self).current_value() == *final(r),
            final(self).retired_values() =~= Seq::<T>::empty(),
    {
        self.slot.clear_retired();
        self.slot.current_mut()
    }
}

} // verus!
