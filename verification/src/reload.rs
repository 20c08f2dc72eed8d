//! The swappable layer and its reload handle.

use vstd::prelude::*;

use crate::error::Error;
use crate::error::ErrorKind;
use crate::shared::Cell;
use crate::shared::CellWeak;
use crate::shared::Serializer;
use crate::shared::SerializerWeak;
use crate::shared::cell_downgrade;
use crate::shared::cell_load;
use crate::shared::cell_new;
use crate::shared::cell_share;
use crate::shared::cell_store;
use crate::shared::cell_upgrade;
use crate::shared::cell_weak_share;
use crate::shared::rebuild_interest_cache;
use crate::shared::serializer_acquire;
use crate::shared::serializer_downgrade;
use crate::shared::serializer_new;
use crate::shared::serializer_share;
use crate::shared::serializer_upgrade;
use crate::shared::serializer_weak_share;
use crate::shared::sync_log_max_level;

verus! {

/// Wraps a layer or per-layer filter in an atomically swappable cell, so the
/// wrapped value can be replaced at runtime while reads stay lock-free.
///
/// The layer owns the cell and the writer mutex strongly; clones share the
/// same underlying cell, so a reload through any clone or handle is seen by
/// all of them.
#[verifier::reject_recursive_types(L)]
pub struct ArcSwapLayer<L, S> {
    inner: Cell<L>,
    modify_lock: Serializer,
    _s: core::marker::PhantomData<S>,
}

/// Allows reloading the state of an associated [`ArcSwapLayer`].
///
/// The handle holds only weak references; once the layer and all its clones
/// are dropped, every operation reports [`ErrorKind::SubscriberGone`].
#[verifier::reject_recursive_types(L)]
pub struct ArcSwapHandle<L, S> {
    inner: CellWeak<L>,
    modify_lock: SerializerWeak,
    _s: core::marker::PhantomData<S>,
}

impl<L, S> Clone for ArcSwapLayer<L, S> {
    /// Another view onto the same swappable cell, not an independent copy.
    fn clone(&self) -> Self {
        Self {
            inner: cell_share(&self.inner),
            modify_lock: serializer_share(&self.modify_lock),
            _s: core::marker::PhantomData,
        }
    }
}

impl<L, S> Clone for ArcSwapHandle<L, S> {
    /// Another weak handle to the same swappable cell.
    fn clone(&self) -> Self {
        Self {
            inner: cell_weak_share(&self.inner),
            modify_lock: serializer_weak_share(&self.modify_lock),
            _s: core::marker::PhantomData,
        }
    }
}

impl<L, S> ArcSwapLayer<L, S> {
    /// Wraps the given value, returning the layer and a handle that allows it
    /// to be replaced at runtime.
    pub fn new(inner: L) -> (Self, ArcSwapHandle<L, S>) {
        let this = Self {
            inner: cell_new(inner),
            modify_lock: serializer_new(),
            _s: core::marker::PhantomData,
        };
        let handle = this.handle();
        (this, handle)
    }

    /// Returns a handle that can be used to reload the wrapped value.
    ///
    /// Handles can be cloned cheaply and hold no ownership weight.
    pub fn handle(&self) -> ArcSwapHandle<L, S> {
        ArcSwapHandle {
            inner: cell_downgrade(&self.inner),
            modify_lock: serializer_downgrade(&self.modify_lock),
            _s: core::marker::PhantomData,
        }
    }

    /// Runs `f` against the currently published value and returns its result.
    ///
    /// This is the lock-free read path every delegated span/event call goes
    /// through: it loads a snapshot without blocking and forwards to it.
    pub fn with_inner<T, F: FnOnce(&L) -> T>(&self, f: F) -> (r: T)
        requires
            forall|l: &L| #[trigger] call_requires(f, (l,)),
        ensures
            exists|l: &L| #[trigger] call_ensures(f, (l,), r),
    {
        let current = cell_load(&self.inner);
        f(&*current)
    }

    /// Replaces the current value with `f` applied to a duplicate of it,
    /// holding the writer lock for the whole read-duplicate-mutate-publish
    /// sequence.
    ///
    /// This mirrors [`ArcSwapHandle::modify`] for callers that hold the layer
    /// itself (the registration callback needs it); unlike `modify` it does
    /// not rebuild the interest cache, since registration runs before any
    /// interest is cached. The only failure is [`ErrorKind::Poisoned`]: the
    /// layer exists, so the owner cannot be gone.
    pub fn update_inner<F: FnOnce(&mut L) -> ()>(&self, f: F) -> (r: Result<(), Error>)
        where
            L: Clone,
        requires
            forall|l: &mut L| #[trigger] call_requires(f, (l,)),
        ensures
            r is Ok ==> exists|l: &mut L| #[trigger] call_ensures(f, (l,), ()),
            r matches Err(e) ==> e.spec_kind() == ErrorKind::Poisoned,
    {
        let guard = serializer_acquire(&self.modify_lock);
        match guard {
            None => Err(Error::poisoned()),
            Some(held) => {
                let current = cell_load(&self.inner);
                let mut next = (*current).clone();
                f(&mut next);
                cell_store(&self.inner, next);
                let _ = held;
                Ok(())
            },
        }
    }
}

/// Loads the cell's current value and applies `f` to it: the shared read
/// path of [`ArcSwapLayer::with_inner`] and [`ArcSwapHandle::with_current`].
fn read_current<L, T, F: FnOnce(&L) -> T>(cell: &Cell<L>, f: F) -> (r: T)
    requires
        forall|l: &L| #[trigger] call_requires(f, (l,)),
    ensures
        exists|l: &L| #[trigger] call_ensures(f, (l,), r),
{
    let current = cell_load(cell);
    f(&*current)
}

impl<L, S> ArcSwapHandle<L, S> {
    /// Atomically replaces the current value with `new_value`.
    ///
    /// On success the store happened under the writer lock, the global
    /// callsite interest cache was rebuilt, and the legacy logging facade's
    /// maximum level was synchronized. An error is reported exactly as
    /// [`ErrorKind::SubscriberGone`] when the layer has been dropped, and as
    /// [`ErrorKind::Poisoned`] when a previous writer panicked while holding
    /// the lock; on error nothing is published.
    pub fn reload<N: Into<L>>(&self, new_value: N) -> (r: Result<(), Error>)
        ensures
            r matches Err(e) ==> (e.spec_kind() == ErrorKind::SubscriberGone || e.spec_kind()
                == ErrorKind::Poisoned),
    {
        let cell = match cell_upgrade(&self.inner) {
            Some(cell) => cell,
            None => {
                return Err(Error::subscriber_gone());
            },
        };
        let serializer = match serializer_upgrade(&self.modify_lock) {
            Some(serializer) => serializer,
            None => {
                return Err(Error::subscriber_gone());
            },
        };
        let guard = match serializer_acquire(&serializer) {
            Some(guard) => guard,
            None => {
                return Err(Error::poisoned());
            },
        };
        cell_store(&cell, new_value.into());
        rebuild_interest_cache();
        sync_log_max_level();
        // The writer lock is released only here, so no other writer can
        // interleave its own store or cache rebuild with this sequence.
        let _ = guard;
        Ok(())
    }

    /// Applies an update by duplicating the current value, mutating the
    /// duplicate with `f`, and publishing the duplicate, all under the writer
    /// lock.
    ///
    /// Readers never see the duplicate until it is published whole. On
    /// success the interest cache was rebuilt and the legacy logging level
    /// synchronized, as for [`ArcSwapHandle::reload`]; the failures are the
    /// same two kinds.
    pub fn modify<F: FnOnce(&mut L) -> ()>(&self, f: F) -> (r: Result<(), Error>)
        where
            L: Clone,
        requires
            forall|l: &mut L| #[trigger] call_requires(f, (l,)),
        ensures
            r is Ok ==> exists|l: &mut L| #[trigger] call_ensures(f, (l,), ()),
            r matches Err(e) ==> (e.spec_kind() == ErrorKind::SubscriberGone || e.spec_kind()
                == ErrorKind::Poisoned),
    {
        let cell = match cell_upgrade(&self.inner) {
            Some(cell) => cell,
            None => {
                return Err(Error::subscriber_gone());
            },
        };
        let serializer = match serializer_upgrade(&self.modify_lock) {
            Some(serializer) => serializer,
            None => {
                return Err(Error::subscriber_gone());
            },
        };
        let guard = match serializer_acquire(&serializer) {
            Some(guard) => guard,
            None => {
                return Err(Error::poisoned());
            },
        };
        let current = cell_load(&cell);
        let mut next = (*current).clone();
        f(&mut next);
        cell_store(&cell, next);
        rebuild_interest_cache();
        sync_log_max_level();
        // The writer lock is released only here, so the whole
        // read-duplicate-mutate-publish sequence is one critical section.
        let _ = guard;
        Ok(())
    }

    /// Returns a duplicate of the current value, or `None` if the associated
    /// layer has been dropped.
    ///
    /// This is a best-effort query: absence of the owner is reported as
    /// `None`, never as an error.
    pub fn clone_current(&self) -> (r: Option<L>)
        where
            L: Clone,
    {
        let loaded = self.with_current(|l: &L| -> L { l.clone() });
        match loaded {
            Ok(value) => Some(value),
            Err(_) => None,
        }
    }

    /// Runs `f` against the current value, without duplicating it.
    ///
    /// The only failure is [`ErrorKind::SubscriberGone`]: reads never touch
    /// the writer lock, so poisoning cannot be observed here.
    pub fn with_current<T, F: FnOnce(&L) -> T>(&self, f: F) -> (r: Result<T, Error>)
        requires
            forall|l: &L| #[trigger] call_requires(f, (l,)),
        ensures
            r matches Ok(v) ==> exists|l: &L| #[trigger] call_ensures(f, (l,), v),
            r matches Err(e) ==> e.spec_kind() == ErrorKind::SubscriberGone,
    {
        let cell = match cell_upgrade(&self.inner) {
            Some(cell) => cell,
            None => {
                return Err(Error::subscriber_gone());
            },
        };
        let out = read_current(&cell, f);
        let r: Result<T, Error> = Ok(out);
        proof {
            let l0 = choose|l: &L| call_ensures(f, (l,), out);
            assert(call_ensures(f, (l0,), r->Ok_0));
        }
        r
    }
}

} // verus!
