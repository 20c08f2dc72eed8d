//! The sequential semantics of the swappable cell, and its laws.
//!
//! The writer mutex makes every write a single atomic step against the shared
//! state, and every read is one atomic load, so the observable behaviour of
//! [`crate::ArcSwapLayer`] and [`crate::ArcSwapHandle`] is that of a state
//! machine over three pieces of shared data: the currently published value,
//! whether the writer mutex is poisoned, and whether any strong owner of the
//! cell is left. The spec functions below give each operation's step on that
//! state; the proof functions state the laws the steps obey. Duplicated
//! layers and handles have no identity of their own here: they all act on the
//! one shared state, which is exactly what sharing the cell means.

use vstd::prelude::*;

use crate::error::ErrorKind;

verus! {

/// The shared state one cell-and-mutex pair is in at some instant.
pub struct CellState<L> {
    /// The value most recently published, observed by every load.
    pub current: L,
    /// Whether a writer panicked while holding the writer mutex.
    pub poisoned: bool,
    /// Whether any strong owner (the layer or one of its clones) is left.
    pub owner_alive: bool,
}

/// What a lock-free load observes: the published value, always whole.
pub open spec fn load_step<L>(s: CellState<L>) -> L {
    s.current
}

/// The step of [`crate::ArcSwapHandle::reload`]: publish `v`, or fail
/// without changing anything.
pub open spec fn reload_step<L>(s: CellState<L>, v: L) -> (CellState<L>, Result<
    (),
    ErrorKind,
>) {
    if !s.owner_alive {
        (s, Err(ErrorKind::SubscriberGone))
    } else if s.poisoned {
        (s, Err(ErrorKind::Poisoned))
    } else {
        (CellState { current: v, ..s }, Ok(()))
    }
}

/// The step of [`crate::ArcSwapHandle::modify`]: publish the update applied
/// to a duplicate of the current value, or fail without changing anything.
pub open spec fn modify_step<L>(s: CellState<L>, f: spec_fn(L) -> L) -> (CellState<L>, Result<
    (),
    ErrorKind,
>) {
    if !s.owner_alive {
        (s, Err(ErrorKind::SubscriberGone))
    } else if s.poisoned {
        (s, Err(ErrorKind::Poisoned))
    } else {
        (CellState { current: f(s.current), ..s }, Ok(()))
    }
}

/// The step of [`crate::ArcSwapHandle::with_current`]: observe the current
/// value without touching the writer mutex or the state.
pub open spec fn with_current_step<L>(s: CellState<L>) -> (CellState<L>, Result<L, ErrorKind>) {
    if !s.owner_alive {
        (s, Err(ErrorKind::SubscriberGone))
    } else {
        (s, Ok(s.current))
    }
}

/// The step of [`crate::ArcSwapHandle::clone_current`]: a best-effort
/// duplicate, absent once the owner is gone.
pub open spec fn clone_current_step<L>(s: CellState<L>) -> Option<L> {
    if s.owner_alive {
        Some(s.current)
    } else {
        None
    }
}

/// Loads do not disturb the state, so any number of loads with no
/// interleaved store all observe the same, whole value.
pub proof fn lemma_loads_agree<L>(s: CellState<L>)
    ensures
        with_current_step(s).0 == s,
        with_current_step(with_current_step(s).0).1 == with_current_step(s).1,
        with_current_step(s).1 matches Ok(v) ==> v == load_step(s),
{
}

/// After a successful reload of `v`, a load — through any duplicate of the
/// layer or any handle, since all share the one state — yields exactly `v`.
pub proof fn lemma_reload_publishes<L>(s: CellState<L>, v: L)
    requires
        reload_step(s, v).1 is Ok,
    ensures
        load_step(reload_step(s, v).0) == v,
{
}

/// A successful modify publishes the update applied to the value that was
/// current when the step ran: a pure read-duplicate-mutate-publish, never a
/// merge with another writer's work.
pub proof fn lemma_modify_applies<L>(s: CellState<L>, f: spec_fn(L) -> L)
    requires
        modify_step(s, f).1 is Ok,
    ensures
        load_step(modify_step(s, f).0) == f(load_step(s)),
{
}

/// Writers are serialized: two reloads run whole, one after the other, and
/// the published value is the later writer's input — one of the two, never a
/// mixture of both.
pub proof fn lemma_reloads_serialize<L>(s: CellState<L>, a: L, b: L)
    requires
        reload_step(s, a).1 is Ok,
    ensures
        load_step(reload_step(reload_step(s, a).0, b).0) == b,
        load_step(reload_step(reload_step(s, a).0, b).0) == a || load_step(
            reload_step(reload_step(s, a).0, b).0,
        ) == b,
{
}

/// Once every strong owner is gone, reload, modify and with_current all
/// report the owner-gone error and leave the state alone, and clone_current
/// reports absence rather than an error.
pub proof fn lemma_owner_gone<L>(s: CellState<L>, v: L, f: spec_fn(L) -> L)
    requires
        !s.owner_alive,
    ensures
        reload_step(s, v) == (s, Err::<(), ErrorKind>(ErrorKind::SubscriberGone)),
        modify_step(s, f) == (s, Err::<(), ErrorKind>(ErrorKind::SubscriberGone)),
        with_current_step(s) == (s, Err::<L, ErrorKind>(ErrorKind::SubscriberGone)),
        clone_current_step(s) is None,
{
}

/// Poisoning blocks further writes, not reads: a poisoned cell refuses
/// reload and modify with the poisoned error, while loads still observe the
/// last successfully published value.
pub proof fn lemma_poisoned_blocks_writes_only<L>(s: CellState<L>, v: L, f: spec_fn(L) -> L)
    requires
        s.owner_alive,
        s.poisoned,
    ensures
        reload_step(s, v) == (s, Err::<(), ErrorKind>(ErrorKind::Poisoned)),
        modify_step(s, f) == (s, Err::<(), ErrorKind>(ErrorKind::Poisoned)),
        with_current_step(s).1 == Ok::<L, ErrorKind>(s.current),
{
}

} // verus!
