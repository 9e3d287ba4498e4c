use std::cell::RefCell;
use std::rc::Rc;

use rcu_clean::Grace;
use rcu_clean::GraceSource;
use rcu_clean::Rcu;

/// A value whose drop is recorded, to observe when retired values are
/// actually reclaimed.
struct Probe {
    id: usize,
    log: Rc<RefCell<Vec<usize>>>,
}

impl Drop for Probe {
    fn drop(&mut self) {
        self.log.borrow_mut().push(self.id);
    }
}

fn probe(id: usize, log: &Rc<RefCell<Vec<usize>>>) -> Probe {
    Probe { id, log: Rc::clone(log) }
}

#[test]
fn read_sees_current_value() {
    let mut src: GraceSource<usize> = GraceSource::new();
    let p = Rcu::new(41usize);
    let t = Grace::new(&mut src);
    assert_eq!(*p.read(&t).get(), 41);
    src.release(t);
}

#[test]
fn update_advances_generations() {
    let mut src: GraceSource<usize> = GraceSource::new();
    let mut p = Rcu::new(1usize);
    assert_eq!(src.generations(), 1);
    p.update(&mut src, 2);
    assert_eq!(src.generations(), 2);
    p.update(&mut src, 3);
    assert_eq!(src.generations(), 3);
    let t = Grace::new(&mut src);
    assert_eq!(*p.read(&t).get(), 3);
    src.release(t);
}

#[test]
fn token_delays_reclamation_until_release() {
    let log: Rc<RefCell<Vec<usize>>> = Rc::new(RefCell::new(Vec::new()));
    let mut src: GraceSource<Probe> = GraceSource::new();
    let mut p = Rcu::new(probe(1, &log));
    let t = Grace::new(&mut src);
    assert_eq!(p.read(&t).get().id, 1);
    p.update(&mut src, probe(2, &log));
    p.update(&mut src, probe(3, &log));
    // The token pins the generation it was acquired on, so neither
    // displaced value may be reclaimed yet.
    assert_eq!(log.borrow().len(), 0);
    assert_eq!(src.reclaimed_below(), 0);
    src.release(t);
    // Both displaced values are reclaimed now, in creation order.
    assert_eq!(*log.borrow(), vec![1, 2]);
    assert_eq!(src.reclaimed_below(), 2);
    assert_eq!(src.generations(), 3);
}

#[test]
fn later_token_does_not_unpin_earlier_one() {
    let log: Rc<RefCell<Vec<usize>>> = Rc::new(RefCell::new(Vec::new()));
    let mut src: GraceSource<Probe> = GraceSource::new();
    let mut p = Rcu::new(probe(1, &log));
    let t1 = Grace::new(&mut src);
    p.update(&mut src, probe(2, &log));
    let t2 = Grace::new(&mut src);
    p.update(&mut src, probe(3, &log));
    // Releasing the later token frees nothing: the earlier token still
    // pins its generation and everything after it.
    src.release(t2);
    assert_eq!(log.borrow().len(), 0);
    assert_eq!(src.reclaimed_below(), 0);
    src.release(t1);
    assert_eq!(*log.borrow(), vec![1, 2]);
    assert_eq!(src.reclaimed_below(), 2);
}

#[test]
fn two_tokens_on_one_generation() {
    let mut src: GraceSource<usize> = GraceSource::new();
    let mut p = Rcu::new(1usize);
    let t1 = Grace::new(&mut src);
    let t2 = Grace::new(&mut src);
    assert_eq!(src.token_count(0), 2);
    p.update(&mut src, 2);
    src.release(t1);
    assert_eq!(src.reclaimed_below(), 0);
    assert_eq!(src.retired_len(0), 1);
    src.release(t2);
    assert_eq!(src.reclaimed_below(), 1);
    assert_eq!(src.retired_len(0), 0);
}

#[test]
fn unpinned_updates_reclaim_immediately() {
    let log: Rc<RefCell<Vec<usize>>> = Rc::new(RefCell::new(Vec::new()));
    let mut src: GraceSource<Probe> = GraceSource::new();
    let mut p = Rcu::new(probe(1, &log));
    // With no token held, each update may reclaim the generation it
    // seals at once.
    p.update(&mut src, probe(2, &log));
    assert_eq!(*log.borrow(), vec![1]);
    p.update(&mut src, probe(3, &log));
    assert_eq!(*log.borrow(), vec![1, 2]);
    assert_eq!(src.reclaimed_below(), 2);
    let t = Grace::new(&mut src);
    assert_eq!(p.read(&t).get().id, 3);
    src.release(t);
}
