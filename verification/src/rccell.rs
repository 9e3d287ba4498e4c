//! A shared single-thread container with an eager retirement list.

use vstd::prelude::*;

use crate::guard::Guard;
use crate::shared::SharedEager;
use crate::tracker::Handle;
use crate::tracker::count_marked;

verus! {

/// A reference-counted read-copy-update container for a single thread.
///
/// An `RcCell` plays the role of an `Rc` whose contents can be replaced
/// while read references are logically outstanding.  Many owners alias
/// one slot; each owner is a [`Handle`], and a read marks the reading
/// handle's borrow flag.  `clean` releases the calling handle's borrow
/// and drops the retired values only once the slot-wide borrow count
/// reaches zero, since until then another handle may still observe a
/// displaced value.
pub struct RcCell<T> {
    core: SharedEager<T>,
}

impl<T> RcCell<T> {
    /// The borrow count agrees with the per-handle flags.
    pub closed spec fn wf(&self) -> bool {
        self.core.wf()
    }

    /// The value a reader observes.
    pub closed spec fn current_value(&self) -> T {
        self.core.current_value()
    }

    /// The displaced values still held, oldest first.
    pub closed spec fn retired_values(&self) -> Seq<T> {
        self.core.retired_values()
    }

    /// The per-handle borrow flags.
    pub closed spec fn flags(&self) -> Seq<bool> {
        self.core.flags()
    }

    /// How many handles share this slot.
    pub open spec fn handle_count(&self) -> int {
        self.flags().len() as int
    }

    /// Whether `h` was registered with this container.
    pub open spec fn valid_handle(&self, h: Handle) -> bool {
        0 <= h.id() < self.handle_count()
    }

    /// How many handles currently hold a borrow.
    pub open spec fn active_borrow_count(&self) -> int {
        count_marked(self.flags())
    }

    /// Allocate a new container holding `value`, returning it with its
    /// first handle.
    pub fn new(value: T) -> (r: (Self, Handle))
        ensures
            r.0.wf(),
            r.0.current_value() == value,
            r.0.retired_values() =~= Seq::<T>::empty(),
            r.0.flags() =~= seq![false],
            r.0.valid_handle(r.1),
    {
        let (core, h) = SharedEager::new(value);
        (RcCell { core }, h)
    }

    /// Register another owner of the same slot, with a fresh, cleared
    /// borrow flag.
    pub fn clone_handle(&mut self) -> (h: Handle)
        requires
            old(self).wf(),
        ensures
            final(self).wf(),
            final(self).current_value() == old(self).current_value(),
            final(self).retired_values() =~= old(self).retired_values(),
            final(self).flags() =~= old(self).flags().push(false),
            h.id() == old(self).handle_count(),
            final(self).valid_handle(h),
    {
        self.core.clone_handle()
    }

    /// Read the current value through `h`, marking the handle's borrow
    /// flag until its next `clean`.
    pub fn read(&mut self, h: &Handle) -> (r: &T)
        requires
            old(self).wf(),
            old(self).valid_handle(*h),
        ensures
            final(self).wf(),
            *r == old(self).current_value(),
            final(self).current_value() == old(self).current_value(),
            final(self).retired_values() =~= old(self).retired_values(),
            final(self).flags() =~= old(self).flags().update(h.id(), true),
    {
        self.core.read(h)
    }

    /// How many displaced values are still held.
    pub fn retired_count(&self) -> (n: usize)
        ensures
            n == self.retired_values().len(),
    {
        self.core.retired_count()
    }

    /// How many handles currently hold a borrow.
    pub fn active_borrows(&self) -> (n: usize)
        requires
            self.wf(),
        ensures
            n == self.active_borrow_count(),
    {
        self.core.active_borrows()
    }
}

impl<T: Clone> RcCell<T> {
    /// Begin a mutation through `h`: clone the current value into a
    /// guard, marking the handle's borrow flag.  The published value
    /// stays in place until the guard is handed to `publish`.
    pub fn update(&mut self, h: &Handle) -> (g: Guard<T>)
        requires
            old(self).wf(),
            old(self).valid_handle(*h),
        ensures
            final(self).wf(),
            cloned::<T>(old(self).current_value(), g.value()),
            final(self).current_value() == old(self).current_value(),
            final(self).retired_values() =~= old(self).retired_values(),
            final(self).flags() =~= old(self).flags().update(h.id(), true),
    {
        self.core.update(h)
    }

    /// Publish the guard's value; the displaced value is retired.  Of
    /// two guards published in turn the later wins, and both displaced
    /// values are retired, not leaked.
    pub fn publish(&mut self, g: Guard<T>)
        requires
            old(self).wf(),
        ensures
            final(self).wf(),
            final(self).current_value() == g.value(),
            final(self).retired_values() =~= old(self).retired_values().push(
                old(self).current_value(),
            ),
            final(self).flags() =~= old(self).flags(),
    {
        self.core.publish(g)
    }

    /// Release `h`'s borrow; if no handle then holds a borrow, drop the
    /// retired values.  The current value is never touched, and with
    /// outstanding borrows the retirement store is left as it is.
    pub fn clean(&mut self, h: &Handle)
        requires
            old(self).wf(),
            old(self).valid_handle(*h),
        ensures
            final(self).wf(),
            final(self).current_value() == old(self).current_value(),
            final(self).flags() =~= old(self).flags().update(h.id(), false),
            count_marked(old(self).flags().update(h.id(), false)) == 0 ==> final(self).retired_values() =~= Seq::<T>::empty(),
            count_marked(old(self).flags().update(h.id(), false)) != 0 ==> final(self).retired_values() =~= old(self).retired_values(),
    {
        self.core.clean(h)
    }
}

} // verus!
