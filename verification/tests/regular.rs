use event_listener_primitives::Bag;
use std::sync::atomic::{AtomicUsize, Ordering};
use std::sync::Arc;

#[test]
fn trivial() {
    let bag = Bag::default();
    let calls = Arc::new(AtomicUsize::new(0));

    let handler_id = {
        let calls = Arc::clone(&calls);
        bag.add(move || {
            calls.fetch_add(1, Ordering::SeqCst);
        })
    };

    bag.call_simple();

    assert_eq!(calls.load(Ordering::SeqCst), 1);

    drop(handler_id);
}

#[test]
fn regular() {
    let bag = Bag::<Box<dyn Fn() + Send + Sync + 'static>>::default();
    let calls = Arc::new(AtomicUsize::new(0));

    {
        let calls = Arc::clone(&calls);
        bag.add(Box::new(move || {
            calls.fetch_add(1, Ordering::SeqCst);
        }))
        .detach();
    }
    {
        let calls = Arc::clone(&calls);
        drop(bag.add(Box::new(move || {
            calls.fetch_add(1, Ordering::SeqCst);
        })))
    }
    bag.call(|callback| {
        callback();
    });

    assert_eq!(calls.load(Ordering::SeqCst), 1);

    bag.call_simple();

    assert_eq!(calls.load(Ordering::SeqCst), 2);
}

#[test]
fn regular_with_arguments() {
    {
        let bag = Bag::<Box<dyn Fn(&i32) + Send + Sync + 'static>, i32>::default();
        let calls = Arc::new(AtomicUsize::new(0));

        {
            let calls = Arc::clone(&calls);
            bag.add(Box::new(move |_p| {
                calls.fetch_add(1, Ordering::SeqCst);
            }))
            .detach();
        };

        bag.call(|handler| {
            handler(&1);
        });

        assert_eq!(calls.load(Ordering::SeqCst), 1);

        bag.call_simple(&1);

        assert_eq!(calls.load(Ordering::SeqCst), 2);
    }
    {
        let bag = Bag::<
            Box<dyn Fn(&i32, &i32, &i32, &i32, &i32) + Send + Sync + 'static>,
            i32,
            i32,
            i32,
            i32,
            i32,
        >::default();
        let calls = Arc::new(AtomicUsize::new(0));

        {
            let calls = Arc::clone(&calls);
            bag.add(Box::new(move |_a1, _a2, _a3, _a4, _a5| {
                calls.fetch_add(1, Ordering::SeqCst);
            }))
            .detach();
        };

        bag.call(|handler| {
            handler(&1, &2, &3, &4, &5);
        });

        assert_eq!(calls.load(Ordering::SeqCst), 1);

        bag.call_simple(&1, &2, &3, &4, &5);

        assert_eq!(calls.load(Ordering::SeqCst), 2);
    }
}
