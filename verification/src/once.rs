//! The single-shot registry: handlers fire at most once. One invocation
//! atomically drains the whole handler set — a single swap under the lock,
//! never a per-entry removal — and consumes each drained handler by value, so
//! a second invocation right after the first finds nothing left to fire.

use vstd::prelude::*;

use crate::entries::Entries;
use crate::handler_id::HandlerId;
use crate::locking::{arc_clone, locked_drain, locked_insert, mutex_new, registry_downgrade};
use std::marker::PhantomData;
use std::sync::Arc;

verus! {

/// Internal type unreachable externally.
///
/// Deliberately unsized, so that the argument-taking `call_simple` impls,
/// whose argument slots must be sized, never overlap with the argument-less
/// one that this type stands in for.
pub struct Private([()]);

/// Data structure that holds `FnOnce()` event handlers.
#[verifier::reject_recursive_types(F)]
pub struct BagOnce<
    F: Send + 'static,
    A1: ?Sized = Private,
    A2: ?Sized = Private,
    A3: ?Sized = Private,
    A4: ?Sized = Private,
    A5: ?Sized = Private,
> {
    inner: Arc<parking_lot::Mutex<Entries<F>>>,
    a1: PhantomData<A1>,
    a2: PhantomData<A2>,
    a3: PhantomData<A3>,
    a4: PhantomData<A4>,
    a5: PhantomData<A5>,
}

impl<F, A1, A2, A3, A4, A5> Clone for BagOnce<F, A1, A2, A3, A4, A5> where
    F: Send + 'static,
    A1: ?Sized,
    A2: ?Sized,
    A3: ?Sized,
    A4: ?Sized,
    A5: ?Sized,
 {
    /// The clone observes the same shared handler set as the original.
    fn clone(&self) -> (r: Self)
        ensures
            r.shares_storage_with(self),
    {
        Self {
            inner: arc_clone(&self.inner),
            a1: PhantomData,
            a2: PhantomData,
            a3: PhantomData,
            a4: PhantomData,
            a5: PhantomData,
        }
    }
}

impl<F, A1, A2, A3, A4, A5> Default for BagOnce<F, A1, A2, A3, A4, A5> where
    F: Send + 'static,
    A1: ?Sized,
    A2: ?Sized,
    A3: ?Sized,
    A4: ?Sized,
    A5: ?Sized,
 {
    /// An empty registry: no handlers, keys starting at zero.
    fn default() -> Self {
        Self {
            inner: Arc::new(mutex_new(Entries::new())),
            a1: PhantomData,
            a2: PhantomData,
            a3: PhantomData,
            a4: PhantomData,
            a5: PhantomData,
        }
    }
}

impl<F, A1, A2, A3, A4, A5> BagOnce<F, A1, A2, A3, A4, A5> where
    F: Send + 'static,
    A1: ?Sized,
    A2: ?Sized,
    A3: ?Sized,
    A4: ?Sized,
    A5: ?Sized,
 {
    /// Whether two bags observe one and the same shared handler set.
    pub closed spec fn shares_storage_with(self, other: &Self) -> bool {
        self.inner == other.inner
    }

    /// Add new event handler to a bag.
    ///
    /// The handler was inserted into the shared state under a fresh key; the
    /// returned handle is armed: dropping it removes the handler, if it has
    /// not fired by then, so it can be cancelled before it ever fires.
    pub fn add(&self, callback: F) -> (r: HandlerId)
        ensures
            r.is_armed(),
            exists|e0: Entries<F>, e1: Entries<F>, k: usize| #[trigger] Entries::<
                F,
            >::insert.ensures((e0, callback), (e1, k)),
    {
        let key = locked_insert(&self.inner, callback);
        HandlerId::new(registry_downgrade(&self.inner), key)
    }

    /// Call applicator with each handler and remove handlers from the bag.
    ///
    /// The whole handler set is drained in one swap under the lock; the lock
    /// is released before the first handler runs, so a handler may add to,
    /// remove from, or invoke this same registry freely.
    pub fn call<A: Fn(F)>(&self, applicator: A)
        requires
            forall|h: F| call_requires(applicator, (h,)),
    {
        let mut handlers = locked_drain(&self.inner);
        loop
            invariant
                forall|h: F| call_requires(applicator, (h,)),
            decreases handlers@.len(),
        {
            if let Some(handler) = handlers.pop() {
                applicator(handler);
            } else {
                break ;
            }
        }
    }
}

impl<F: FnOnce() + Send + 'static> BagOnce<F> {
    /// Call each handler without arguments and remove handlers from the bag.
    pub fn call_simple(&self)
        requires
            forall|h: F| call_requires(h, ()),
    {
        let apply = |handler: F|
            requires
                call_requires(handler, ()),
            { handler() };
        self.call(apply)
    }
}

impl<A1, F> BagOnce<F, A1> where A1: Sized, F: FnOnce(&A1) + Send + 'static {
    /// Call each handler with the given argument and remove handlers from
    /// the bag. Every handler of the round receives the same argument.
    pub fn call_simple(&self, a1: &A1)
        requires
            forall|h: F| call_requires(h, (a1,)),
    {
        let apply = |handler: F|
            requires
                call_requires(handler, (a1,)),
            { handler(a1) };
        self.call(apply)
    }
}

impl<A1, A2, F> BagOnce<F, A1, A2> where
    A1: Sized,
    A2: Sized,
    F: FnOnce(&A1, &A2) + Send + 'static,
 {
    /// Call each handler with the given arguments and remove handlers from
    /// the bag. Every handler of the round receives the same arguments.
    pub fn call_simple(&self, a1: &A1, a2: &A2)
        requires
            forall|h: F| call_requires(h, (a1, a2)),
    {
        let apply = |handler: F|
            requires
                call_requires(handler, (a1, a2)),
            { handler(a1, a2) };
        self.call(apply)
    }
}

impl<A1, A2, A3, F> BagOnce<F, A1, A2, A3> where
    A1: Sized,
    A2: Sized,
    A3: Sized,
    F: FnOnce(&A1, &A2, &A3) + Send + 'static,
 {
    /// Call each handler with the given arguments and remove handlers from
    /// the bag. Every handler of the round receives the same arguments.
    pub fn call_simple(&self, a1: &A1, a2: &A2, a3: &A3)
        requires
            forall|h: F| call_requires(h, (a1, a2, a3)),
    {
        let apply = |handler: F|
            requires
                call_requires(handler, (a1, a2, a3)),
            { handler(a1, a2, a3) };
        self.call(apply)
    }
}

impl<A1, A2, A3, A4, F> BagOnce<F, A1, A2, A3, A4> where
    A1: Sized,
    A2: Sized,
    A3: Sized,
    A4: Sized,
    F: FnOnce(&A1, &A2, &A3, &A4) + Send + 'static,
 {
    /// Call each handler with the given arguments and remove handlers from
    /// the bag. Every handler of the round receives the same arguments.
    pub fn call_simple(&self, a1: &A1, a2: &A2, a3: &A3, a4: &A4)
        requires
            forall|h: F| call_requires(h, (a1, a2, a3, a4)),
    {
        let apply = |handler: F|
            requires
                call_requires(handler, (a1, a2, a3, a4)),
            { handler(a1, a2, a3, a4) };
        self.call(apply)
    }
}

impl<A1, A2, A3, A4, A5, F> BagOnce<F, A1, A2, A3, A4, A5> where
    A1: Sized,
    A2: Sized,
    A3: Sized,
    A4: Sized,
    A5: Sized,
    F: FnOnce(&A1, &A2, &A3, &A4, &A5) + Send + 'static,
 {
    /// Call each handler with the given arguments and remove handlers from
    /// the bag. Every handler of the round receives the same arguments.
    pub fn call_simple(&self, a1: &A1, a2: &A2, a3: &A3, a4: &A4, a5: &A5)
        requires
            forall|h: F| call_requires(h, (a1, a2, a3, a4, a5)),
    {
        let apply = |handler: F|
            requires
                call_requires(handler, (a1, a2, a3, a4, a5)),
            { handler(a1, a2, a3, a4, a5) };
        self.call(apply)
    }
}

} // verus!
