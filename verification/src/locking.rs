//! The shared shell around a registry's state: a `parking_lot` mutex inside a
//! reference-counted allocation, reached weakly from handles. Verification
//! stops at these walls. Each locked wrapper below performs exactly one
//! verified `Entries` transition while holding the lock, and promises no more
//! than that the transition was applied to some state: what the state was at
//! that moment no thread can know beforehand.

use vstd::prelude::*;

use crate::entries::Entries;
use std::sync::Arc;
use std::sync::Weak;

verus! {

/// `parking_lot`'s mutex (`lock_api::Mutex` over `parking_lot`'s raw lock),
/// opaque to verification: the registries rely on it for mutual exclusion
/// only, never for knowledge of the value it protects.
#[verifier::external_type_specification]
#[verifier::external_body]
#[verifier::reject_recursive_types(R)]
#[verifier::reject_recursive_types(T)]
pub struct ExMutex<R, T: ?Sized>(parking_lot::lock_api::Mutex<R, T>);

/// `parking_lot`'s raw lock, the `R` of its `lock_api::Mutex`; the wrappers
/// below never touch it directly.
#[verifier::external_type_specification]
#[verifier::external_body]
pub struct ExRawMutex(parking_lot::RawMutex);

/// A non-owning reference to a shared registry — `std::sync::Weak`, held
/// opaquely because its declaration needs the unstable allocator parameter.
/// A handle reaches its registry through this without keeping it alive.
#[verifier::external_body]
#[verifier::reject_recursive_types(F)]
pub(crate) struct WeakRegistry<F> {
    weak: Weak<parking_lot::Mutex<Entries<F>>>,
}

/// Relies on `std::sync::Arc::clone`: the clone is the same shared value.
#[verifier::external_body]
pub(crate) fn arc_clone<T: ?Sized>(arc: &Arc<T>) -> (res: Arc<T>)
    ensures
        res == arc,
{
    Arc::clone(arc)
}

/// Relies on `parking_lot::Mutex::new`: wraps a value for lock-protected
/// sharing.
#[verifier::external_body]
pub(crate) fn mutex_new<T>(value: T) -> parking_lot::Mutex<T> {
    parking_lot::Mutex::new(value)
}

/// Relies on `std::sync::Arc::downgrade`: yields a non-owning reference to
/// the same allocation, which never keeps the registry alive by itself.
#[verifier::external_body]
pub(crate) fn registry_downgrade<F>(
    registry: &Arc<parking_lot::Mutex<Entries<F>>>,
) -> WeakRegistry<F> {
    WeakRegistry { weak: Arc::downgrade(registry) }
}

/// Relies on `std::sync::Weak::upgrade`: yields the shared registry while a
/// strong reference to it is still alive, and `None` once the registry has
/// been destroyed.
#[verifier::external_body]
pub(crate) fn weak_upgrade<F>(weak: &WeakRegistry<F>) -> Option<
    Arc<parking_lot::Mutex<Entries<F>>>,
>
    opens_invariants none
    no_unwind
{
    weak.weak.upgrade()
}

/// Relies on `parking_lot::Mutex::lock`: applies `Entries::insert` to the
/// protected state while holding the lock, so no other thread observes the
/// registration half-made.
#[verifier::external_body]
pub(crate) fn locked_insert<F>(
    registry: &Arc<parking_lot::Mutex<Entries<F>>>,
    handler: F,
) -> (key: usize)
    ensures
        exists|e0: Entries<F>, e1: Entries<F>| #[trigger] Entries::<F>::insert.ensures(
            (e0, handler),
            (e1, key),
        ),
{
    let mut guard = registry.lock();
    let entries = core::mem::replace(&mut *guard, Entries::new());
    let (entries, key) = entries.insert(handler);
    *guard = entries;
    key
}

/// Relies on `parking_lot::Mutex::lock`: applies `Entries::remove` to the
/// protected state while holding the lock. Removal of a key that is already
/// gone is a no-op by `Entries::remove`'s contract.
#[verifier::external_body]
pub(crate) fn locked_remove<F>(registry: &Arc<parking_lot::Mutex<Entries<F>>>, key: usize)
    opens_invariants none
    no_unwind
{
    let mut guard = registry.lock();
    let entries = core::mem::replace(&mut *guard, Entries::new());
    *guard = entries.remove(key);
}

/// Relies on `parking_lot::Mutex::lock`: applies `Entries::drain` to the
/// protected state while holding the lock — one atomic swap of the whole
/// handler set — and releases the lock before anything is invoked.
#[verifier::external_body]
pub(crate) fn locked_drain<F>(registry: &Arc<parking_lot::Mutex<Entries<F>>>) -> (out: Vec<F>)
    ensures
        exists|e0: Entries<F>, e1: Entries<F>| #[trigger] Entries::<F>::drain.ensures(
            (e0,),
            (e1, out),
        ),
{
    let mut guard = registry.lock();
    let entries = core::mem::replace(&mut *guard, Entries::new());
    let (entries, out) = entries.drain();
    *guard = entries;
    out
}

/// Relies on `parking_lot::Mutex::lock`: applies `Entries::snapshot` to the
/// protected state while holding the lock, cloning the handler set so that
/// the lock is released before anything is invoked.
#[verifier::external_body]
pub(crate) fn locked_snapshot<T>(
    registry: &Arc<parking_lot::Mutex<Entries<Arc<T>>>>,
) -> (out: Vec<Arc<T>>)
    ensures
        exists|e: Entries<Arc<T>>| #[trigger] Entries::<Arc<T>>::snapshot.ensures((&e,), out),
{
    let guard = registry.lock();
    guard.snapshot()
}

} // verus!
