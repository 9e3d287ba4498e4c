use rcu_clean::ArcCell;
use rcu_clean::ArcNew;
use rcu_clean::ArcRcu;
use rcu_clean::BoxCell;
use rcu_clean::BoxCellSync;
use rcu_clean::BoxNew;
use rcu_clean::BoxRcu;
use rcu_clean::RcCell;
use rcu_clean::RcNew;
use rcu_clean::RcRcu;

#[test]
fn boxcell_update_publish_read() {
    let mut x = BoxCell::new((4usize, 4usize));
    assert_eq!(x.read().0, x.read().1);
    assert_eq!(x.read().0, 4);
    let mut g = x.update();
    g.set((5, 5));
    assert_eq!(x.read().0, 4);
    x.publish(g);
    assert_eq!(*x.read(), (5, 5));
    assert_eq!(x.retired_count(), 1);
}

#[test]
fn boxcell_nested_update_scope() {
    let mut x = BoxCell::new((4usize, 4usize));
    let mut g = x.update();
    g.set((5, 5));
    x.publish(g);
    {
        let mut bar = x.update();
        assert_eq!(x.read().0, 5);
        assert_eq!(bar.read().0, 5);
        bar.value_mut().0 = 7;
        bar.value_mut().1 = 7;
        assert_eq!(x.read().0, 5);
        assert_eq!(bar.read().0, 7);
        x.publish(bar);
    }
    assert_eq!(*x.read(), (7, 7));
}

#[test]
fn boxcell_clean_never_frees_current() {
    let mut x = BoxCell::new(10usize);
    let g = x.update();
    x.publish(g);
    assert_eq!(x.retired_count(), 1);
    x.clean();
    assert_eq!(x.retired_count(), 0);
    assert_eq!(*x.read(), 10);
    x.clean();
    x.clean();
    assert_eq!(x.retired_count(), 0);
    assert_eq!(*x.read(), 10);
}

#[test]
fn boxcell_get_mut_drops_retired_and_edits_in_place() {
    let mut x = BoxCell::new(1usize);
    let g = x.update();
    x.publish(g);
    assert_eq!(x.retired_count(), 1);
    *x.get_mut() = 9;
    assert_eq!(x.retired_count(), 0);
    assert_eq!(*x.read(), 9);
}

#[test]
fn boxcellsync_update_publish_read() {
    let mut x = BoxCellSync::new((4usize, 4usize));
    let mut g = x.update();
    g.set((5, 5));
    x.publish(g);
    assert_eq!(*x.read(), (5, 5));
    x.clean();
    assert_eq!(x.retired_count(), 0);
    assert_eq!(*x.read(), (5, 5));
}

#[test]
fn boxrcu_chain_and_collapse() {
    let mut x = BoxRcu::new((4usize, 4usize));
    assert!(x.chain_count() == 0);
    let mut g = x.update();
    g.set((5, 5));
    x.publish(g);
    assert_eq!(*x.read(), (5, 5));
    assert_eq!(x.chain_count(), 1);
    let mut g2 = x.update();
    g2.set((7, 7));
    assert_eq!(x.read().0, 5);
    x.publish(g2);
    assert_eq!(*x.read(), (7, 7));
    assert_eq!(x.chain_count(), 2);
    x.clean();
    assert_eq!(x.chain_count(), 0);
    assert_eq!(*x.read(), (7, 7));
}

#[test]
fn boxnew_update_publish_clean() {
    let mut x = BoxNew::new(3usize);
    let mut g = x.update();
    g.set(7);
    x.publish(g);
    assert_eq!(*x.read(), 7);
    x.clean();
    assert_eq!(*x.read(), 7);
    assert_eq!(x.chain_count(), 0);
}

#[test]
fn rccell_clone_handles_see_updates() {
    let (mut c, h1) = RcCell::new((4usize, 4usize));
    let h2 = c.clone_handle();
    let a: (usize, usize) = *c.read(&h1);
    let b: (usize, usize) = *c.read(&h2);
    assert_eq!(a, b);
    let mut g = c.update(&h1);
    g.set((5, 5));
    c.publish(g);
    assert_eq!(*c.read(&h1), (5, 5));
    assert_eq!(*c.read(&h2), (5, 5));
}

#[test]
fn rccell_repeated_reads_count_once() {
    let (mut c, h) = RcCell::new(1usize);
    assert_eq!(c.active_borrows(), 0);
    c.read(&h);
    c.read(&h);
    c.read(&h);
    assert_eq!(c.active_borrows(), 1);
    c.clean(&h);
    assert_eq!(c.active_borrows(), 0);
}

#[test]
fn rccell_clean_gated_on_borrows() {
    let (mut c, h1) = RcCell::new(1usize);
    let h2 = c.clone_handle();
    c.read(&h1);
    c.read(&h2);
    let g = c.update(&h1);
    c.publish(g);
    let g = c.update(&h1);
    c.publish(g);
    assert_eq!(c.retired_count(), 2);
    c.clean(&h1);
    assert_eq!(c.retired_count(), 2);
    c.clean(&h1);
    assert_eq!(c.retired_count(), 2);
    assert_eq!(c.active_borrows(), 1);
    c.clean(&h2);
    assert_eq!(c.retired_count(), 0);
    assert_eq!(c.active_borrows(), 0);
    assert_eq!(*c.read(&h1), 1);
    c.clean(&h1);
    c.clean(&h2);
    assert_eq!(c.retired_count(), 0);
    assert_eq!(*c.read(&h2), 1);
}

#[test]
fn rcnew_clone_handles_see_updates() {
    let (mut c, h1) = RcNew::new((4usize, 4usize));
    let h2 = c.clone_handle();
    let a: (usize, usize) = *c.read(&h1);
    let b: (usize, usize) = *c.read(&h2);
    assert_eq!(a, b);
    let mut g = c.update(&h2);
    g.set((5, 5));
    c.publish(g);
    assert_eq!(*c.read(&h1), (5, 5));
    assert_eq!(*c.read(&h2), (5, 5));
    c.clean(&h1);
    c.clean(&h2);
    assert_eq!(c.retired_count(), 0);
}

#[test]
fn arccell_clone_handles_see_updates() {
    let (mut c, h1) = ArcCell::new((4usize, 4usize));
    let h2 = c.clone_handle();
    let mut g = c.update(&h1);
    g.set((5, 5));
    c.publish(g);
    assert_eq!(*c.read(&h1), (5, 5));
    assert_eq!(*c.read(&h2), (5, 5));
    c.clean(&h1);
    assert_eq!(c.retired_count(), 1);
    c.clean(&h2);
    assert_eq!(c.retired_count(), 0);
}

#[test]
fn rcrcu_nested_update_scope() {
    let (mut c, h) = RcRcu::new((4usize, 4usize));
    let foo = c.clone_handle();
    let mut g = c.update(&h);
    g.set((5, 5));
    c.publish(g);
    assert_eq!(c.read(&h).0, 5);
    assert_eq!(c.read(&foo).0, 5);
    {
        let mut bar = c.update(&h);
        assert_eq!(c.read(&h).0, 5);
        assert_eq!(c.read(&foo).0, 5);
        assert_eq!(bar.read().0, 5);
        bar.set((7, 7));
        assert_eq!(c.read(&h).0, 5);
        assert_eq!(c.read(&foo).0, 5);
        assert_eq!(bar.read().0, 7);
        c.publish(bar);
    }
    assert_eq!(c.read(&h).0, 7);
    assert_eq!(c.read(&foo).0, 7);
}

#[test]
fn rcrcu_clean_collapses_when_unborrowed() {
    let (mut c, h) = RcRcu::new(1usize);
    let g = c.update(&h);
    c.publish(g);
    let mut g = c.update(&h);
    g.set(2);
    c.publish(g);
    assert_eq!(c.chain_count(), 2);
    c.clean(&h);
    assert_eq!(c.chain_count(), 0);
    assert_eq!(*c.read(&h), 2);
}

#[test]
fn arcnew_clone_handles_see_updates() {
    let (mut c, h1) = ArcNew::new((4usize, 4usize));
    let h2 = c.clone_handle();
    let mut g = c.update(&h1);
    g.set((5, 5));
    c.publish(g);
    assert_eq!(*c.read(&h1), (5, 5));
    assert_eq!(*c.read(&h2), (5, 5));
    c.clean(&h1);
    assert_eq!(c.chain_count(), 1);
    c.clean(&h2);
    assert_eq!(c.chain_count(), 0);
    assert_eq!(*c.read(&h1), (5, 5));
}

#[test]
fn arcrcu_update_and_collapse() {
    let (mut c, h) = ArcRcu::new(3usize);
    let mut g = c.update(&h);
    g.set(7);
    c.publish(g);
    assert_eq!(*c.read(&h), 7);
    assert_eq!(c.active_borrows(), 1);
    c.clean(&h);
    assert_eq!(c.active_borrows(), 0);
    assert_eq!(*c.read(&h), 7);
    assert_eq!(c.chain_count(), 0);
}
