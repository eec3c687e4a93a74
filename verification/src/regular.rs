//! The repeating registry: handlers stay registered across invocations until
//! each is removed by its own handle. One invocation snapshots the handler
//! set under the lock — a reference-counted clone of every handler — and
//! releases the lock before anything runs, so a handler may add to, remove
//! from, or invoke this same registry freely.

use vstd::prelude::*;

use crate::entries::Entries;
use crate::handler_id::HandlerId;
use crate::locking::{arc_clone, locked_insert, locked_snapshot, mutex_new, registry_downgrade};
use crate::once::Private;
use std::marker::PhantomData;
use std::sync::Arc;

verus! {

/// Data structure that holds `Fn()` event handlers.
#[verifier::reject_recursive_types(F)]
pub struct Bag<
    F: Send + Sync + 'static,
    A1: ?Sized = Private,
    A2: ?Sized = Private,
    A3: ?Sized = Private,
    A4: ?Sized = Private,
    A5: ?Sized = Private,
> {
    inner: Arc<parking_lot::Mutex<Entries<Arc<Box<F>>>>>,
    a1: PhantomData<A1>,
    a2: PhantomData<A2>,
    a3: PhantomData<A3>,
    a4: PhantomData<A4>,
    a5: PhantomData<A5>,
}

impl<F, A1, A2, A3, A4, A5> Clone for Bag<F, A1, A2, A3, A4, A5> where
    F: Send + Sync + 'static,
    A1: ?Sized,
    A2: ?Sized,
    A3: ?Sized,
    A4: ?Sized,
    A5: ?Sized,
 {
    /// The clone observes the same shared handler set as the original.
    fn clone(&self) -> (r: Self)
        ensures
            r.shares_storage_with(self),
    {
        Self {
            inner: arc_clone(&self.inner),
            a1: PhantomData,
            a2: PhantomData,
            a3: PhantomData,
            a4: PhantomData,
            a5: PhantomData,
        }
    }
}

impl<F, A1, A2, A3, A4, A5> Default for Bag<F, A1, A2, A3, A4, A5> where
    F: Send + Sync + 'static,
    A1: ?Sized,
    A2: ?Sized,
    A3: ?Sized,
    A4: ?Sized,
    A5: ?Sized,
 {
    /// An empty registry: no handlers, keys starting at zero.
    fn default() -> Self {
        Self {
            inner: Arc::new(mutex_new(Entries::new())),
            a1: PhantomData,
            a2: PhantomData,
            a3: PhantomData,
            a4: PhantomData,
            a5: PhantomData,
        }
    }
}

impl<F, A1, A2, A3, A4, A5> Bag<F, A1, A2, A3, A4, A5> where
    F: Send + Sync + 'static,
    A1: ?Sized,
    A2: ?Sized,
    A3: ?Sized,
    A4: ?Sized,
    A5: ?Sized,
 {
    /// Whether two bags observe one and the same shared handler set.
    pub closed spec fn shares_storage_with(self, other: &Self) -> bool {
        self.inner == other.inner
    }

    /// Add new event handler to a bag.
    ///
    /// The handler was inserted into the shared state under a fresh key; the
    /// returned handle is armed: dropping it removes the handler again, and
    /// that handle is the only sanctioned removal path.
    pub fn add(&self, callback: F) -> (r: HandlerId)
        ensures
            r.is_armed(),
            exists|e0: Entries<Arc<Box<F>>>, e1: Entries<Arc<Box<F>>>, k: usize| #[trigger] Entries::<
                Arc<Box<F>>,
            >::insert.ensures((e0, Arc::new(Box::new(callback))), (e1, k)),
    {
        self.add_boxed_arc(Arc::new(Box::new(callback)))
    }

    /// Add new event handler to a bag that is already `Arc<Box<Fn()>>`,
    /// avoiding a re-wrap of a handler that is shared across registries.
    ///
    /// The handler was inserted into the shared state under a fresh key; the
    /// returned handle is armed and removes exactly that key when dropped.
    pub fn add_boxed_arc(&self, callback: Arc<Box<F>>) -> (r: HandlerId)
        ensures
            r.is_armed(),
            exists|e0: Entries<Arc<Box<F>>>, e1: Entries<Arc<Box<F>>>, k: usize| #[trigger] Entries::<
                Arc<Box<F>>,
            >::insert.ensures((e0, callback), (e1, k)),
    {
        let key = locked_insert(&self.inner, callback);
        HandlerId::new(registry_downgrade(&self.inner), key)
    }

    /// Call applicator with each handler and keep handlers in the bag.
    ///
    /// The handler set is snapshotted under the lock and the lock released
    /// before the first handler runs; handlers added or removed while a round
    /// is in flight may or may not be seen by that same round.
    pub fn call<A: Fn(&Box<F>)>(&self, applicator: A)
        requires
            forall|h: Box<F>| call_requires(applicator, (&h,)),
    {
        let handlers = locked_snapshot(&self.inner);
        let n = handlers.len();
        let mut i: usize = 0;
        while i < n
            invariant
                n == handlers@.len(),
                forall|h: Box<F>| call_requires(applicator, (&h,)),
            decreases n - i,
        {
            applicator(&*handlers[i]);
            i += 1;
        }
    }
}

impl<F: Fn() + Send + Sync + 'static> Bag<F> {
    /// Call each handler without arguments and keep handlers in the bag.
    pub fn call_simple(&self)
        requires
            forall|h: F| call_requires(h, ()),
    {
        let apply = |handler: &Box<F>|
            requires
                call_requires(**handler, ()),
            { (**handler)() };
        self.call(apply)
    }
}

impl<A1, F> Bag<F, A1> where A1: Sized, F: Fn(&A1) + Send + Sync + 'static {
    /// Call each handler with the given argument and keep handlers in the
    /// bag. Every handler of the round receives the same argument.
    pub fn call_simple(&self, a1: &A1)
        requires
            forall|h: F| call_requires(h, (a1,)),
    {
        let apply = |handler: &Box<F>|
            requires
                call_requires(**handler, (a1,)),
            { (**handler)(a1) };
        self.call(apply)
    }
}

impl<A1, A2, F> Bag<F, A1, A2> where
    A1: Sized,
    A2: Sized,
    F: Fn(&A1, &A2) + Send + Sync + 'static,
 {
    /// Call each handler with the given arguments and keep handlers in the
    /// bag. Every handler of the round receives the same arguments.
    pub fn call_simple(&self, a1: &A1, a2: &A2)
        requires
            forall|h: F| call_requires(h, (a1, a2)),
    {
        let apply = |handler: &Box<F>|
            requires
                call_requires(**handler, (a1, a2)),
            { (**handler)(a1, a2) };
        self.call(apply)
    }
}

impl<A1, A2, A3, F> Bag<F, A1, A2, A3> where
    A1: Sized,
    A2: Sized,
    A3: Sized,
    F: Fn(&A1, &A2, &A3) + Send + Sync + 'static,
 {
    /// Call each handler with the given arguments and keep handlers in the
    /// bag. Every handler of the round receives the same arguments.
    pub fn call_simple(&self, a1: &A1, a2: &A2, a3: &A3)
        requires
            forall|h: F| call_requires(h, (a1, a2, a3)),
    {
        let apply = |handler: &Box<F>|
            requires
                call_requires(**handler, (a1, a2, a3)),
            { (**handler)(a1, a2, a3) };
        self.call(apply)
    }
}

impl<A1, A2, A3, A4, F> Bag<F, A1, A2, A3, A4> where
    A1: Sized,
    A2: Sized,
    A3: Sized,
    A4: Sized,
    F: Fn(&A1, &A2, &A3, &A4) + Send + Sync + 'static,
 {
    /// Call each handler with the given arguments and keep handlers in the
    /// bag. Every handler of the round receives the same arguments.
    pub fn call_simple(&self, a1: &A1, a2: &A2, a3: &A3, a4: &A4)
        requires
            forall|h: F| call_requires(h, (a1, a2, a3, a4)),
    {
        let apply = |handler: &Box<F>|
            requires
                call_requires(**handler, (a1, a2, a3, a4)),
            { (**handler)(a1, a2, a3, a4) };
        self.call(apply)
    }
}

impl<A1, A2, A3, A4, A5, F> Bag<F, A1, A2, A3, A4, A5> where
    A1: Sized,
    A2: Sized,
    A3: Sized,
    A4: Sized,
    A5: Sized,
    F: Fn(&A1, &A2, &A3, &A4, &A5) + Send + Sync + 'static,
 {
    /// Call each handler with the given arguments and keep handlers in the
    /// bag. Every handler of the round receives the same arguments.
    pub fn call_simple(&self, a1: &A1, a2: &A2, a3: &A3, a4: &A4, a5: &A5)
        requires
            forall|h: F| call_requires(h, (a1, a2, a3, a4, a5)),
    {
        let apply = |handler: &Box<F>|
            requires
                call_requires(**handler, (a1, a2, a3, a4, a5)),
            { (**handler)(a1, a2, a3, a4, a5) };
        self.call(apply)
    }
}

} // verus!
