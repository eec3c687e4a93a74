//! The RAII token returned by a registration. Dropping it removes the
//! registration it stands for; `detach` disarms that removal for good. The
//! token owns its removal action alone, so the action runs at most once.

use vstd::prelude::*;

use crate::locking::{locked_remove, weak_upgrade, WeakRegistry};

verus! {

/// What a handle can do to its deferred removal short of running it:
/// disarm it for good.
pub(crate) trait RemoveOnDrop: Send {
    fn disarm(&mut self);
}

/// The deferred removal of one registration: the registry, held weakly so
/// that a kept handle never keeps a registry alive, and the key under which
/// the handler sits. Dropping this value performs the removal — unless the
/// registry reference was already taken out by `disarm`.
#[verifier::reject_recursive_types(F)]
pub(crate) struct RegistryRemoval<F: Send + 'static> {
    pub(crate) registry: Option<WeakRegistry<F>>,
    pub(crate) key: usize,
}

impl<F: Send + 'static> RemoveOnDrop for RegistryRemoval<F> {
    fn disarm(&mut self) {
        let mut taken: Option<WeakRegistry<F>> = None;
        core::mem::swap(&mut taken, &mut self.registry);
    }
}

impl<F: Send + 'static> Drop for RegistryRemoval<F> {
    /// Removes the registration, if the removal is still armed and the
    /// registry still alive; a registry that is already gone makes this a
    /// no-op. Ownership makes the removal run at most once.
    fn drop(&mut self)
        opens_invariants none
        no_unwind
    {
        let mut taken: Option<WeakRegistry<F>> = None;
        core::mem::swap(&mut taken, &mut self.registry);
        if let Some(weak) = taken {
            if let Some(registry) = weak_upgrade(&weak) {
                locked_remove(&registry, self.key);
            }
        }
    }
}

/// Handler ID keeps an event handler in place; once dropped, the handler is
/// removed from its registry automatically.
///
/// [`HandlerId::detach()`] can be used if it is not desirable for the handler
/// to be removed automatically. The token is the single owner of its removal
/// action — it moves rather than clones — so the removal runs at most once,
/// and never after a `detach`.
#[must_use]
pub struct HandlerId {
    action: Option<Box<dyn RemoveOnDrop>>,
}

impl HandlerId {
    /// Whether dropping this handle still reaches back into its registry.
    pub closed spec fn is_armed(&self) -> bool {
        self.action is Some
    }

    /// Arms a handle that removes the registration under `key` from
    /// `registry` when dropped.
    pub(crate) fn new<F: Send + 'static>(registry: WeakRegistry<F>, key: usize) -> (r: HandlerId)
        ensures
            r.is_armed(),
    {
        let action: Box<dyn RemoveOnDrop> = Box::new(
            RegistryRemoval { registry: Some(registry), key },
        );
        HandlerId { action: Some(action) }
    }

    /// Consumes the deferred removal and prevents the handler from being
    /// removed automatically: after `detach`, dropping the handle leaves the
    /// handler registered. Idempotent: detaching twice adds nothing.
    pub fn detach(&mut self)
        ensures
            !final(self).is_armed(),
    {
        let mut taken: Option<Box<dyn RemoveOnDrop>> = None;
        core::mem::swap(&mut taken, &mut self.action);
        if let Some(mut action) = taken {
            // Disarm before the action goes out of scope, so that its drop
            // removes nothing.
            action.disarm();
        }
    }
}

} // verus!
