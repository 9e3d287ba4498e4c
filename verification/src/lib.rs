//! Read-copy-update smart containers.
//!
//! Each container holds one current value of type `T` and lets callers
//! mutate it by the read-copy-update discipline: a mutation clones the
//! current value into a private [`Guard`](guard::Guard), the caller edits
//! the clone, and publishing the guard atomically makes the clone the new
//! current value.  The displaced value is not dropped at once: it moves
//! into a retirement store, because earlier readers may still be looking
//! at it.  An explicit `clean` call reclaims retired values once the
//! per-handle borrow bookkeeping proves that no reader can still observe
//! them.
//!
//! Three reclamation strategies appear, in increasing sophistication:
//! an eager retirement list ([`ValueSlot`](slot::ValueSlot)), a version
//! chain that defers replacing the head value
//! ([`VersionSlot`](chain::VersionSlot)), and grace-period generation
//! chaining ([`graceful`]).  Orthogonally, three ownership models: an
//! exclusive single owner (the `Box*` containers), shared owners on one
//! thread (the `Rc*` containers) and shared owners across threads (the
//! `Arc*` containers).  Aliasing of one slot by many owners is expressed
//! by explicit [`Handle`](tracker::Handle) values registered with the
//! slot's [`BorrowTracker`](tracker::BorrowTracker), so that every claim
//! about borrow counts and reclamation is stated and machine-checked.

pub mod arccell;
pub mod arcnew;
pub mod arcrcu;
pub mod boxcell;
pub mod boxcellsync;
pub mod boxnew;
pub mod boxrcu;
pub mod chain;
pub mod graceful;
pub mod guard;
pub mod rccell;
pub mod rcnew;
pub mod rcrcu;
pub mod shared;
pub mod slot;
pub mod tracker;

pub use crate::arccell::ArcCell;
pub use crate::arcnew::ArcNew;
pub use crate::arcrcu::ArcRcu;
pub use crate::boxcell::BoxCell;
pub use crate::boxcellsync::BoxCellSync;
pub use crate::boxnew::BoxNew;
pub use crate::boxrcu::BoxRcu;
pub use crate::chain::VersionSlot;
pub use crate::graceful::Grace;
pub use crate::graceful::GraceSource;
pub use crate::graceful::Rcu;
pub use crate::graceful::RcuGuard;
pub use crate::guard::Guard;
pub use crate::rccell::RcCell;
pub use crate::rcnew::RcNew;
pub use crate::rcrcu::RcRcu;
pub use crate::shared::SharedChain;
pub use crate::shared::SharedEager;
pub use crate::slot::ValueSlot;
pub use crate::tracker::BorrowTracker;
pub use crate::tracker::Handle;
