use event_listener_primitives::{Bag, BagOnce, Entries};
use std::sync::atomic::{AtomicUsize, Ordering};
use std::sync::Arc;

#[test]
fn dropped_handle_is_never_invoked() {
    let bag = Bag::<Box<dyn Fn() + Send + Sync + 'static>>::default();
    let calls = Arc::new(AtomicUsize::new(0));

    let handler_id = {
        let calls = Arc::clone(&calls);
        bag.add(Box::new(move || {
            calls.fetch_add(1, Ordering::SeqCst);
        }))
    };
    drop(handler_id);

    bag.call_simple();
    assert_eq!(calls.load(Ordering::SeqCst), 0);
}

#[test]
fn released_handle_is_invoked() {
    let bag = Bag::<Box<dyn Fn() + Send + Sync + 'static>>::default();
    let calls = Arc::new(AtomicUsize::new(0));

    let mut handler_id = {
        let calls = Arc::clone(&calls);
        bag.add(Box::new(move || {
            calls.fetch_add(1, Ordering::SeqCst);
        }))
    };
    handler_id.detach();
    // Detaching is idempotent: a second detach adds nothing.
    handler_id.detach();
    drop(handler_id);

    bag.call_simple();
    assert_eq!(calls.load(Ordering::SeqCst), 1);
}

#[test]
fn single_shot_second_round_is_empty() {
    let bag = BagOnce::<Box<dyn FnOnce() + Send + Sync + 'static>>::default();
    let calls = Arc::new(AtomicUsize::new(0));

    {
        let calls = Arc::clone(&calls);
        bag.add(Box::new(move || {
            calls.fetch_add(1, Ordering::SeqCst);
        }))
        .detach();
    }
    bag.call_simple();
    assert_eq!(calls.load(Ordering::SeqCst), 1);

    bag.call_simple();
    assert_eq!(calls.load(Ordering::SeqCst), 1);
}

#[test]
fn removing_one_handler_keeps_another() {
    let bag = Bag::<Box<dyn Fn() + Send + Sync + 'static>>::default();
    let calls_a = Arc::new(AtomicUsize::new(0));
    let calls_b = Arc::new(AtomicUsize::new(0));

    {
        let calls_a = Arc::clone(&calls_a);
        bag.add(Box::new(move || {
            calls_a.fetch_add(1, Ordering::SeqCst);
        }))
        .detach();
    }
    let handler_b = {
        let calls_b = Arc::clone(&calls_b);
        bag.add(Box::new(move || {
            calls_b.fetch_add(1, Ordering::SeqCst);
        }))
    };

    bag.call_simple();
    assert_eq!(calls_a.load(Ordering::SeqCst), 1);
    assert_eq!(calls_b.load(Ordering::SeqCst), 1);

    drop(handler_b);

    // Handlers persist and keep firing until individually removed; removing
    // one never affects another.
    bag.call_simple();
    bag.call_simple();
    assert_eq!(calls_a.load(Ordering::SeqCst), 3);
    assert_eq!(calls_b.load(Ordering::SeqCst), 1);
}

#[test]
fn arguments_reach_every_handler() {
    let bag = Bag::<Box<dyn Fn(&i32, &i32) + Send + Sync + 'static>, i32, i32>::default();
    let seen = Arc::new(AtomicUsize::new(0));

    for _ in 0..2 {
        let seen = Arc::clone(&seen);
        bag.add(Box::new(move |a1, a2| {
            seen.fetch_add((*a1 * 10 + *a2) as usize, Ordering::SeqCst);
        }))
        .detach();
    }

    bag.call_simple(&3, &4);
    // Both handlers saw exactly (3, 4) in one round.
    assert_eq!(seen.load(Ordering::SeqCst), 68);
}

#[test]
fn single_shot_arguments_reach_every_handler() {
    let bag = BagOnce::<Box<dyn FnOnce(&i32, &i32) + Send + 'static>, i32, i32>::default();
    let seen = Arc::new(AtomicUsize::new(0));

    for _ in 0..2 {
        let seen = Arc::clone(&seen);
        bag.add(Box::new(move |a1, a2| {
            seen.fetch_add((*a1 * 10 + *a2) as usize, Ordering::SeqCst);
        }))
        .detach();
    }

    bag.call_simple(&3, &4);
    assert_eq!(seen.load(Ordering::SeqCst), 68);
}

#[test]
fn auto_removed_and_released_pair() {
    let bag = Bag::<Box<dyn Fn() + Send + Sync + 'static>>::default();
    let calls = Arc::new(AtomicUsize::new(0));

    let handler_one = {
        let calls = Arc::clone(&calls);
        bag.add(Box::new(move || {
            calls.fetch_add(1, Ordering::SeqCst);
        }))
    };
    let mut handler_two = {
        let calls = Arc::clone(&calls);
        bag.add(Box::new(move || {
            calls.fetch_add(1, Ordering::SeqCst);
        }))
    };
    handler_two.detach();
    drop(handler_one);
    drop(handler_two);

    // Only the released handler's effect is observed: one increment, not two.
    bag.call_simple();
    assert_eq!(calls.load(Ordering::SeqCst), 1);
}

#[test]
fn single_shot_fires_each_exactly_once() {
    let bag = BagOnce::<Box<dyn FnOnce() + Send + Sync + 'static>>::default();
    let calls = Arc::new(AtomicUsize::new(0));

    for _ in 0..2 {
        let calls = Arc::clone(&calls);
        bag.add(Box::new(move || {
            calls.fetch_add(1, Ordering::SeqCst);
        }))
        .detach();
    }

    bag.call_simple();
    assert_eq!(calls.load(Ordering::SeqCst), 2);

    bag.call_simple();
    assert_eq!(calls.load(Ordering::SeqCst), 2);
}

#[test]
fn empty_registries_invoke_nothing() {
    let bag = Bag::<Box<dyn Fn() + Send + Sync + 'static>>::default();
    bag.call_simple();

    let once = BagOnce::<Box<dyn FnOnce() + Send + Sync + 'static>>::default();
    once.call_simple();
}

#[test]
fn clones_share_one_handler_set() {
    let bag = Bag::<Box<dyn Fn() + Send + Sync + 'static>>::default();
    let clone = bag.clone();
    let calls = Arc::new(AtomicUsize::new(0));

    {
        let calls = Arc::clone(&calls);
        clone
            .add(Box::new(move || {
                calls.fetch_add(1, Ordering::SeqCst);
            }))
            .detach();
    }

    // A handler added through the clone fires through the original.
    bag.call_simple();
    assert_eq!(calls.load(Ordering::SeqCst), 1);

    let once = BagOnce::<Box<dyn FnOnce() + Send + Sync + 'static>>::default();
    let once_clone = once.clone();
    {
        let calls = Arc::clone(&calls);
        once_clone
            .add(Box::new(move || {
                calls.fetch_add(1, Ordering::SeqCst);
            }))
            .detach();
    }
    once.call_simple();
    assert_eq!(calls.load(Ordering::SeqCst), 2);
}

#[test]
fn handle_outliving_registry_is_a_no_op() {
    let bag = Bag::<Box<dyn Fn() + Send + Sync + 'static>>::default();
    let handler_id = bag.add(Box::new(|| {}));
    drop(bag);
    // The handle holds its registry only weakly; dropping it after the
    // registry is gone removes nothing and must not fail.
    drop(handler_id);
}

#[test]
fn entries_transitions() {
    let entries = Entries::<u8>::new();
    let (entries, key_one) = entries.insert(7);
    assert_eq!(key_one, 0);
    let (entries, key_two) = entries.insert(9);
    assert_eq!(key_two, 1);

    // Removing one entry keeps the other; removing an absent key is a no-op.
    let entries = entries.remove(key_one);
    let entries = entries.remove(key_one);

    let (entries, drained) = entries.drain();
    assert_eq!(drained, vec![9]);

    // Keys are never reissued by a drain.
    let (entries, key_three) = entries.insert(11);
    assert_eq!(key_three, 2);

    // The drained registry was empty, so a second drain yields nothing more
    // than what was inserted since.
    let (_, drained) = entries.drain();
    assert_eq!(drained, vec![11]);
}

#[test]
fn entries_snapshot_leaves_entries_in_place() {
    let entries = Entries::<Arc<u8>>::new();
    let (entries, _) = entries.insert(Arc::new(5));
    let (entries, _) = entries.insert(Arc::new(6));

    let snapshot = entries.snapshot();
    assert_eq!(snapshot.len(), 2);
    assert_eq!(*snapshot[0], 5);
    assert_eq!(*snapshot[1], 6);

    // The snapshot cloned, it did not drain.
    let again = entries.snapshot();
    assert_eq!(again.len(), 2);
}
