use std::cell::RefCell;
use std::rc::Rc;

use rcu_clean::BorrowTracker;
use rcu_clean::Guard;
use rcu_clean::RcRcu;
use rcu_clean::ValueSlot;
use rcu_clean::VersionSlot;

#[test]
fn tracker_counts_marked_handles() {
    let mut t = BorrowTracker::new();
    let h1 = t.register();
    let h2 = t.register();
    assert_eq!(t.active_count(), 0);
    t.mark(&h1);
    t.mark(&h1);
    assert_eq!(t.active_count(), 1);
    t.mark(&h2);
    assert_eq!(t.active_count(), 2);
    assert!(t.holds_borrow(&h1));
    t.release(&h1);
    assert_eq!(t.active_count(), 1);
    assert!(!t.holds_borrow(&h1));
    t.release(&h1);
    assert_eq!(t.active_count(), 1);
    t.release(&h2);
    assert_eq!(t.active_count(), 0);
}

#[test]
fn value_slot_retires_displaced_values() {
    let mut s = ValueSlot::new(1usize);
    s.publish(2);
    s.publish(3);
    assert_eq!(*s.read(), 3);
    assert_eq!(s.retired_count(), 2);
    s.clear_retired();
    assert_eq!(s.retired_count(), 0);
    assert_eq!(*s.read(), 3);
    *s.current_mut() = 7;
    assert_eq!(*s.read(), 7);
    assert_eq!(s.retired_count(), 0);
}

#[test]
fn version_slot_follows_chain_and_collapses() {
    let mut s = VersionSlot::new(1usize);
    assert_eq!(*s.read(), 1);
    s.publish(2);
    assert_eq!(*s.read(), 2);
    s.publish(3);
    assert_eq!(*s.read(), 3);
    assert_eq!(s.chain_count(), 2);
    s.collapse();
    assert_eq!(*s.read(), 3);
    assert_eq!(s.chain_count(), 0);
    s.collapse();
    assert_eq!(*s.read(), 3);
}

#[test]
fn guard_edits_pending_value() {
    let mut g = Guard::hold((1usize, 2usize));
    assert_eq!(*g.read(), (1, 2));
    g.value_mut().0 = 9;
    assert_eq!(*g.read(), (9, 2));
    g.set((3, 4));
    assert_eq!(g.into_value(), (3, 4));
}

/// A value whose drop is recorded, to observe when superseded versions
/// are actually reclaimed.
#[derive(Clone)]
struct Probe {
    id: usize,
    log: Rc<RefCell<Vec<usize>>>,
}

impl Drop for Probe {
    fn drop(&mut self) {
        self.log.borrow_mut().push(self.id);
    }
}

#[test]
fn version_chain_round_trip_drops_displaced() {
    let log: Rc<RefCell<Vec<usize>>> = Rc::new(RefCell::new(Vec::new()));
    let (mut c, h) = RcRcu::new(Probe { id: 1, log: Rc::clone(&log) });
    let mut g = c.update(&h);
    g.value_mut().id = 2;
    c.publish(g);
    // The clone made by `update` was consumed by publishing; the
    // original version 1 still sits in the head position.
    assert_eq!(log.borrow().len(), 0);
    assert_eq!(c.read(&h).id, 2);
    c.clean(&h);
    // Collapsed back to compact: the displaced version 1 has been
    // dropped, and the container behaves like a fresh one holding 2.
    assert_eq!(*log.borrow(), vec![1]);
    assert_eq!(c.chain_count(), 0);
    assert_eq!(c.read(&h).id, 2);
    let mut g = c.update(&h);
    g.value_mut().id = 5;
    c.publish(g);
    assert_eq!(c.read(&h).id, 5);
}
