//! Trusted boundary around the shared storage.
//!
//! The swappable cell is `arc_swap::ArcSwap`, whose strategy type
//! (`DefaultStrategy`, an alias for a crate-private struct) cannot be named
//! from outside `arc_swap`, so the cell cannot be declared as an external
//! type; it is held inside opaque structs instead. The same structs carry the
//! `std::sync` reference counting (`Arc`/`Weak`) and the update mutex, which
//! `vstd` gives no specification.
//!
//! Every function here makes one call into that storage. The results of
//! `upgrade` and `lock` depend on what other owners and writers have done, so
//! no contract pins them; the verified callers in `reload` state what holds
//! of every outcome.

use vstd::prelude::*;

verus! {

/// A strong reference to the swappable cell holding the current value.
///
/// Holds an `std::sync::Arc<arc_swap::ArcSwap<L>>`.
#[verifier::external_body]
#[verifier::reject_recursive_types(L)]
pub(crate) struct Cell<L> {
    inner: std::sync::Arc<arc_swap::ArcSwap<L>>,
}

/// A weak reference to the swappable cell; upgrading fails once every strong
/// owner is gone.
///
/// Holds an `std::sync::Weak<arc_swap::ArcSwap<L>>`.
#[verifier::external_body]
#[verifier::reject_recursive_types(L)]
pub(crate) struct CellWeak<L> {
    inner: std::sync::Weak<arc_swap::ArcSwap<L>>,
}

/// A strong reference to the mutex that serializes writers.
///
/// Holds an `std::sync::Arc<std::sync::Mutex<()>>`.
#[verifier::external_body]
pub(crate) struct Serializer {
    lock: std::sync::Arc<std::sync::Mutex<()>>,
}

/// A weak reference to the writer mutex.
///
/// Holds an `std::sync::Weak<std::sync::Mutex<()>>`.
#[verifier::external_body]
pub(crate) struct SerializerWeak {
    lock: std::sync::Weak<std::sync::Mutex<()>>,
}

/// A held writer lock; releasing it (by drop) lets the next writer in, and a
/// panic while it is held poisons the mutex.
///
/// Holds an `std::sync::MutexGuard<'a, ()>`.
#[verifier::external_body]
pub(crate) struct WriteGuard<'a> {
    guard: std::sync::MutexGuard<'a, ()>,
}

/// Relies on `arc_swap::ArcSwap::from_pointee` and `std::sync::Arc::new`:
/// builds a cell whose current value is `value`.
#[verifier::external_body]
pub(crate) fn cell_new<L>(value: L) -> Cell<L> {
    Cell { inner: std::sync::Arc::new(arc_swap::ArcSwap::from_pointee(value)) }
}

/// Relies on `std::sync::Arc::clone`: another strong reference to the same
/// cell.
#[verifier::external_body]
pub(crate) fn cell_share<L>(cell: &Cell<L>) -> Cell<L> {
    Cell { inner: std::sync::Arc::clone(&cell.inner) }
}

/// Relies on `std::sync::Arc::downgrade`: a weak reference to the same cell.
#[verifier::external_body]
pub(crate) fn cell_downgrade<L>(cell: &Cell<L>) -> CellWeak<L> {
    CellWeak { inner: std::sync::Arc::downgrade(&cell.inner) }
}

/// Relies on `std::sync::Weak::clone`: another weak reference to the same
/// cell.
#[verifier::external_body]
pub(crate) fn cell_weak_share<L>(cell: &CellWeak<L>) -> CellWeak<L> {
    CellWeak { inner: cell.inner.clone() }
}

/// Relies on `std::sync::Weak::upgrade`: `Some` strong reference to the same
/// cell while at least one strong owner exists, `None` once they are all
/// gone. Which of the two comes back depends on the other owners, so nothing
/// more is promised.
#[verifier::external_body]
pub(crate) fn cell_upgrade<L>(cell: &CellWeak<L>) -> Option<Cell<L>> {
    match cell.inner.upgrade() {
        Some(inner) => Some(Cell { inner }),
        None => None,
    }
}

/// Relies on `arc_swap::ArcSwapAny::load_full`: an owned snapshot of the
/// value most recently published in the cell. Which value is current depends
/// on concurrent writers, so nothing is promised of it.
#[verifier::external_body]
pub(crate) fn cell_load<L>(cell: &Cell<L>) -> std::sync::Arc<L> {
    cell.inner.load_full()
}

/// Relies on `arc_swap::ArcSwapAny::store` and `std::sync::Arc::new`:
/// publishes `value` as the cell's current value; loads that start after this
/// call returns see it until a later store replaces it. Callers must hold the
/// writer lock, as the store itself orders concurrent stores but does not
/// serialize read-modify-store sequences.
#[verifier::external_body]
pub(crate) fn cell_store<L>(cell: &Cell<L>, value: L) {
    cell.inner.store(std::sync::Arc::new(value));
}

/// Relies on `std::sync::Mutex::new` and `std::sync::Arc::new`: a fresh,
/// unpoisoned writer mutex.
#[verifier::external_body]
pub(crate) fn serializer_new() -> Serializer {
    Serializer { lock: std::sync::Arc::new(std::sync::Mutex::new(())) }
}

/// Relies on `std::sync::Arc::clone`: another strong reference to the same
/// mutex.
#[verifier::external_body]
pub(crate) fn serializer_share(serializer: &Serializer) -> Serializer {
    Serializer { lock: std::sync::Arc::clone(&serializer.lock) }
}

/// Relies on `std::sync::Arc::downgrade`: a weak reference to the same mutex.
#[verifier::external_body]
pub(crate) fn serializer_downgrade(serializer: &Serializer) -> SerializerWeak {
    SerializerWeak { lock: std::sync::Arc::downgrade(&serializer.lock) }
}

/// Relies on `std::sync::Weak::clone`: another weak reference to the same
/// mutex.
#[verifier::external_body]
pub(crate) fn serializer_weak_share(serializer: &SerializerWeak) -> SerializerWeak {
    SerializerWeak { lock: serializer.lock.clone() }
}

/// Relies on `std::sync::Weak::upgrade`: `Some` strong reference to the same
/// mutex while at least one strong owner exists, `None` once they are all
/// gone.
#[verifier::external_body]
pub(crate) fn serializer_upgrade(serializer: &SerializerWeak) -> Option<Serializer> {
    match serializer.lock.upgrade() {
        Some(lock) => Some(Serializer { lock }),
        None => None,
    }
}

/// Relies on `std::sync::Mutex::lock`: blocks until no other writer holds the
/// lock, then returns `Some` guard; returns `None` exactly when the mutex is
/// poisoned, which `std` documents as a panic by a thread that held the lock.
#[verifier::external_body]
pub(crate) fn serializer_acquire<'a>(serializer: &'a Serializer) -> Option<WriteGuard<'a>> {
    match serializer.lock.lock() {
        Ok(guard) => Some(WriteGuard { guard }),
        Err(_) => None,
    }
}

/// Relies on `tracing_core::callsite::rebuild_interest_cache`: asks every
/// registered dispatcher to recompute its cached callsite interest, so
/// enablement decisions taken before a reload are discarded.
#[verifier::external_body]
pub(crate) fn rebuild_interest_cache() {
    tracing_core::callsite::rebuild_interest_cache();
}

/// Relies on `tracing_log::log::set_max_level`,
/// `tracing_subscriber::filter::LevelFilter::current` and
/// `tracing_log::AsLog::as_log`: copies the current effective maximum level
/// into the legacy logging facade's global threshold.
#[verifier::external_body]
pub(crate) fn sync_log_max_level() {
    tracing_log::log::set_max_level(tracing_log::AsLog::as_log(
        &tracing_subscriber::filter::LevelFilter::current(),
    ));
}

} // verus!
