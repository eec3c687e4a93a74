//! The state of one registry: handlers keyed by a monotonically growing
//! counter. Both registry flavors protect a value of this type with a lock;
//! everything the registries do to their shared state is one of the
//! transitions below.

use std::sync::Arc;
use vstd::prelude::*;

verus! {

/// Reads a key/handler sequence as a map, later entries winning.
spec fn map_of<F>(s: Seq<(usize, F)>) -> Map<usize, F>
    decreases s.len(),
{
    if s.len() == 0 {
        Map::empty()
    } else {
        map_of(s.drop_last()).insert(s.last().0, s.last().1)
    }
}

/// The handlers of one registry, each under the key it was registered with,
/// together with the key the next registration will take. Keys grow strictly,
/// so a key never refers to two registrations over the registry's lifetime.
pub struct Entries<F> {
    handlers: Vec<(usize, F)>,
    next_index: usize,
}

impl<F> View for Entries<F> {
    type V = Map<usize, F>;

    closed spec fn view(&self) -> Map<usize, F> {
        map_of(self.handlers@)
    }
}

impl<F> Entries<F> {
    /// The key the next registration will receive.
    pub closed spec fn next_key(self) -> usize {
        self.next_index
    }

    /// The stored handlers, in registration order: exactly what one
    /// invocation round works through.
    pub closed spec fn values(self) -> Seq<F> {
        self.handlers@.map_values(|p: (usize, F)| p.1)
    }

    #[verifier::type_invariant]
    closed spec fn wf(self) -> bool {
        &&& forall|i: int, j: int|
            0 <= i < j < self.handlers@.len() ==> (#[trigger] self.handlers@[i]).0 < (
            #[trigger] self.handlers@[j]).0
        &&& forall|i: int|
            0 <= i < self.handlers@.len() ==> ((#[trigger] self.handlers@[i]).0 < self.next_index
                || self.next_index == usize::MAX)
    }

    /// Creates an empty registry state.
    pub fn new() -> (r: Self)
        ensures
            r@ == Map::<usize, F>::empty(),
            r.values() == Seq::<F>::empty(),
            r.next_key() == 0,
    {
        let r = Entries { handlers: Vec::new(), next_index: 0 };
        proof {
            assert(r.values() =~= Seq::<F>::empty());
        }
        r
    }

    /// Stores `handler` under a fresh key and advances the key counter.
    ///
    /// The counter is assumed never to run out while any older key is still
    /// referenced; should it reach the top of the key space nonetheless, the
    /// top key is reused and its previous entry replaced, so that no key ever
    /// names two live registrations at once.
    pub fn insert(self, handler: F) -> (r: (Self, usize))
        ensures
            r.0@ == self@.insert(r.1, handler),
            r.1 == self.next_key(),
            self.next_key() < usize::MAX ==> !self@.contains_key(r.1),
            r.0.next_key() == if self.next_key() < usize::MAX {
                (self.next_key() + 1) as usize
            } else {
                usize::MAX
            },
            self.next_key() < usize::MAX ==> r.0.values() == self.values().push(handler),
    {
        proof {
            use_type_invariant(&self);
        }
        let Entries { mut handlers, next_index } = self;
        let key = next_index;
        if next_index < usize::MAX {
            let ghost s = handlers@;
            handlers.push((key, handler));
            proof {
                lemma_map_of_no_index_no_key(s, key);
                lemma_map_of_push(s, key, handler);
                assert(handlers@.map_values(|p: (usize, F)| p.1) =~= s.map_values(
                    |p: (usize, F)| p.1,
                ).push(handler));
            }
            (Entries { handlers, next_index: next_index + 1 }, key)
        } else {
            // The key space is exhausted: only the last entry can already
            // hold the top key; replace it.
            let len = handlers.len();
            if len > 0 && handlers[len - 1].0 == usize::MAX {
                let ghost s = handlers@;
                let _ = handlers.pop();
                handlers.push((key, handler));
                proof {
                    assert(handlers@ == s.drop_last().push((key, handler)));
                    lemma_map_of_push(s.drop_last(), key, handler);
                    assert(map_of(s) == map_of(s.drop_last()).insert(s.last().0, s.last().1));
                    assert(map_of(s.drop_last()).insert(usize::MAX, handler) =~= map_of(
                        s,
                    ).insert(usize::MAX, handler));
                }
            } else {
                let ghost s = handlers@;
                handlers.push((key, handler));
                proof {
                    lemma_map_of_push(s, key, handler);
                    if s.len() > 0 {
                        assert(forall|i: int|
                            0 <= i < s.len() ==> (#[trigger] s[i]).0 <= s[s.len() - 1].0);
                    }
                }
            }
            (Entries { handlers, next_index }, key)
        }
    }

    /// Removes the registration under `key`. Removing a key that is absent —
    /// already removed, already drained, or never issued — changes nothing.
    pub fn remove(self, key: usize) -> (r: Self)
        ensures
            r@ == self@.remove(key),
            r.next_key() == self.next_key(),
            !self@.contains_key(key) ==> r.values() == self.values(),
            self@.contains_key(key) ==> exists|i: int|
                0 <= i < self.values().len() && self.values()[i] == self@[key] && r.values() == (
                #[trigger] self.values().remove(i)),
    {
        proof {
            use_type_invariant(&self);
        }
        let Entries { mut handlers, next_index } = self;
        let ghost s0 = handlers@;
        let mut i: usize = 0;
        while i < handlers.len()
            invariant
                0 <= i <= s0.len(),
                handlers@ == s0,
                self.handlers@ == s0,
                self.next_key() == next_index,
                forall|j: int| 0 <= j < i ==> (#[trigger] s0[j]).0 != key,
                forall|a: int, b: int|
                    0 <= a < b < s0.len() ==> (#[trigger] s0[a]).0 < (#[trigger] s0[b]).0,
                forall|a: int|
                    0 <= a < s0.len() ==> ((#[trigger] s0[a]).0 < next_index || next_index
                        == usize::MAX),
            decreases s0.len() - i,
        {
            if handlers[i].0 == key {
                let _ = handlers.remove(i);
                let r = Entries { handlers, next_index };
                proof {
                    lemma_map_of_remove_index(s0, i as int);
                    lemma_map_of_index_value(s0, i as int);
                    s0.remove_ensures(i as int);
                    assert(forall|a: int|
                        0 <= a < handlers@.len() ==> #[trigger] handlers@[a] == (if a < i {
                            s0[a]
                        } else {
                            s0[a + 1]
                        }));
                    self.values().remove_ensures(i as int);
                    assert(r.values() =~= self.values().remove(i as int));
                    assert(self.values()[i as int] == map_of(s0)[key]);
                }
                return r;
            }
            i += 1;
        }
        proof {
            lemma_map_of_no_index_no_key(s0, key);
            assert(map_of(s0).remove(key) =~= map_of(s0));
        }
        Entries { handlers, next_index }
    }

    /// Takes every registration out at once, in registration order, keeping
    /// the key counter where it was: keys are never reissued by a drain.
    pub fn drain(self) -> (r: (Self, Vec<F>))
        ensures
            r.0@ == Map::<usize, F>::empty(),
            r.0.values() == Seq::<F>::empty(),
            r.0.next_key() == self.next_key(),
            r.1@ == self.values(),
    {
        proof {
            use_type_invariant(&self);
        }
        let Entries { mut handlers, next_index } = self;
        let ghost s0 = handlers@;
        let mut out: Vec<F> = Vec::new();
        while handlers.len() > 0
            invariant
                handlers@ == s0.skip(out@.len() as int),
                out@.len() <= s0.len(),
                out@ == s0.map_values(|p: (usize, F)| p.1).take(out@.len() as int),
            decreases handlers@.len(),
        {
            let ghost taken = out@.len() as int;
            let p = handlers.remove(0);
            out.push(p.1);
            proof {
                assert(handlers@ =~= s0.skip(taken + 1));
                assert(out@ =~= s0.map_values(|p: (usize, F)| p.1).take(taken + 1));
            }
        }
        let r = Entries { handlers, next_index };
        proof {
            assert(out@ =~= s0.map_values(|p: (usize, F)| p.1));
            assert(r.values() =~= Seq::<F>::empty());
        }
        (r, out)
    }
}

impl<T> Entries<Arc<T>> {
    /// Clones every stored handler, in registration order. The registry
    /// itself is untouched: handlers persist across invocation rounds.
    pub fn snapshot(&self) -> (out: Vec<Arc<T>>)
        ensures
            out@ == self.values(),
    {
        let ghost s0 = self.handlers@;
        let mut out: Vec<Arc<T>> = Vec::new();
        let mut i: usize = 0;
        while i < self.handlers.len()
            invariant
                0 <= i <= s0.len(),
                self.handlers@ == s0,
                out@ =~= s0.map_values(|p: (usize, Arc<T>)| p.1).take(i as int),
            decreases s0.len() - i,
        {
            out.push(self.handlers[i].1.clone());
            proof {
                assert(out@ =~= s0.map_values(|p: (usize, Arc<T>)| p.1).take(i + 1));
            }
            i += 1;
        }
        proof {
            assert(out@ =~= self.values());
        }
        out
    }
}

/// Appending an entry inserts exactly its key.
proof fn lemma_map_of_push<F>(s: Seq<(usize, F)>, key: usize, handler: F)
    ensures
        map_of(s.push((key, handler))) == map_of(s).insert(key, handler),
{
    let s1 = s.push((key, handler));
    assert(s1.drop_last() =~= s);
    assert(s1.last() == (key, handler));
}

/// In a sequence without `key`, the map holds no entry for `key`.
proof fn lemma_map_of_no_index_no_key<F>(s: Seq<(usize, F)>, key: usize)
    requires
        forall|i: int| 0 <= i < s.len() ==> (#[trigger] s[i]).0 != key,
    ensures
        !map_of(s).contains_key(key),
    decreases s.len(),
{
    if s.len() > 0 {
        assert(s.last() == s[s.len() - 1]);
        lemma_map_of_no_index_no_key(s.drop_last(), key);
    }
}

/// Removing the entry at one index removes exactly that key from the map,
/// provided keys grow strictly along the sequence.
proof fn lemma_map_of_remove_index<F>(s: Seq<(usize, F)>, i: int)
    requires
        0 <= i < s.len(),
        forall|a: int, b: int| 0 <= a < b < s.len() ==> (#[trigger] s[a]).0 < (#[trigger] s[b]).0,
    ensures
        map_of(s.remove(i)) == map_of(s).remove(s[i].0),
    decreases s.len(),
{
    let key = s[i].0;
    if i == s.len() - 1 {
        assert(s.remove(i) =~= s.drop_last());
        lemma_map_of_no_index_no_key(s.drop_last(), key);
        assert(map_of(s.drop_last()).insert(key, s[i].1).remove(key) =~= map_of(s.drop_last()));
    } else {
        let t = s.drop_last();
        lemma_map_of_remove_index(t, i);
        assert(s.remove(i).drop_last() =~= t.remove(i));
        assert(s.remove(i).last() == s.last());
        assert(map_of(t.remove(i)).insert(s.last().0, s.last().1) =~= map_of(t).insert(
            s.last().0,
            s.last().1,
        ).remove(key));
    }
}

/// Under strictly growing keys, the entry at an index is what the map yields
/// for that entry's key.
proof fn lemma_map_of_index_value<F>(s: Seq<(usize, F)>, i: int)
    requires
        0 <= i < s.len(),
        forall|a: int, b: int| 0 <= a < b < s.len() ==> (#[trigger] s[a]).0 < (#[trigger] s[b]).0,
    ensures
        map_of(s).contains_key(s[i].0),
        map_of(s)[s[i].0] == s[i].1,
    decreases s.len(),
{
    if i < s.len() - 1 {
        lemma_map_of_index_value(s.drop_last(), i);
    }
}

/// Every value the map yields is among the stored handlers: what a key
/// denotes is something an invocation round will reach.
proof fn lemma_map_of_value_in_values<F>(s: Seq<(usize, F)>, key: usize)
    requires
        map_of(s).contains_key(key),
    ensures
        s.map_values(|p: (usize, F)| p.1).contains(map_of(s)[key]),
    decreases s.len(),
{
    let vals = s.map_values(|p: (usize, F)| p.1);
    if s.last().0 == key {
        assert(vals[s.len() - 1] == s.last().1);
    } else {
        lemma_map_of_value_in_values(s.drop_last(), key);
        let tvals = s.drop_last().map_values(|p: (usize, F)| p.1);
        let w = choose|j: int| 0 <= j < tvals.len() && tvals[j] == map_of(s.drop_last())[key];
        assert(vals[w] == tvals[w]);
    }
}

/// A registered handler is among the handlers an invocation round sees:
/// whatever key it sits under, its value is listed by `values`.
pub proof fn lemma_registered_value_is_stored<F>(e: Entries<F>, key: usize)
    requires
        e@.contains_key(key),
    ensures
        e.values().contains(e@[key]),
{
    lemma_map_of_value_in_values(e.handlers@, key);
}

/// Registering a handler and then dropping its handle without a release —
/// which removes the handler's key — leaves the registry exactly as it was:
/// no later invocation round reaches that registration.
///
/// The key counter is assumed not to be exhausted, as keys are assumed never
/// to repeat for the registry's practical lifetime.
pub proof fn law_dropped_handle_never_fires<F>(
    e0: Entries<F>,
    h: F,
    e1: Entries<F>,
    k: usize,
    e2: Entries<F>,
)
    requires
        e0.next_key() < usize::MAX,
        Entries::<F>::insert.ensures((e0, h), (e1, k)),
        Entries::<F>::remove.ensures((e1, k), e2),
    ensures
        e2@ == e0@,
        !e2@.contains_key(k),
        e2.values().to_multiset() == e0.values().to_multiset(),
{
    broadcast use vstd::seq_lib::group_to_multiset_ensures;

    assert(e2@ =~= e0@);
    assert(e1@.contains_key(k));
    let i = choose|i: int|
        0 <= i < e1.values().len() && e1.values()[i] == e1@[k] && e2.values() == (
        #[trigger] e1.values().remove(i));
    assert(e1.values().remove(i).to_multiset() =~= e1.values().to_multiset().remove(h));
    assert(e1.values().to_multiset() =~= e0.values().to_multiset().insert(h));
    assert(e0.values().to_multiset().insert(h).remove(h) =~= e0.values().to_multiset());
}

/// Registering a handler and releasing its handle — which removes nothing —
/// leaves the handler registered under its key, and a later invocation round
/// lists it among the handlers it works through.
pub proof fn law_released_handle_fires<F>(e0: Entries<F>, h: F, e1: Entries<F>, k: usize)
    requires
        Entries::<F>::insert.ensures((e0, h), (e1, k)),
    ensures
        e1@.contains_key(k),
        e1@[k] == h,
        e1.values().contains(h),
{
    lemma_registered_value_is_stored(e1, k);
}

/// A drain consumes every handler: a second drain right after the first
/// yields no handlers at all, and the registry stays empty.
pub proof fn law_second_drain_is_empty<F>(
    e0: Entries<F>,
    e1: Entries<F>,
    out1: Vec<F>,
    e2: Entries<F>,
    out2: Vec<F>,
)
    requires
        Entries::<F>::drain.ensures((e0,), (e1, out1)),
        Entries::<F>::drain.ensures((e1,), (e2, out2)),
    ensures
        out2@ == Seq::<F>::empty(),
        e2@ == Map::<usize, F>::empty(),
{
}

/// Removing one handler never disturbs another: after registering `ha` and
/// then `hb`, removing `hb`'s key leaves `ha` registered under its own key,
/// still among the handlers a later invocation round works through.
///
/// The key counter is assumed not to be exhausted, as keys are assumed never
/// to repeat for the registry's practical lifetime.
pub proof fn law_removal_is_independent<F>(
    e0: Entries<F>,
    ha: F,
    e1: Entries<F>,
    ka: usize,
    hb: F,
    e2: Entries<F>,
    kb: usize,
    e3: Entries<F>,
)
    requires
        e0.next_key() < usize::MAX - 1,
        Entries::<F>::insert.ensures((e0, ha), (e1, ka)),
        Entries::<F>::insert.ensures((e1, hb), (e2, kb)),
        Entries::<F>::remove.ensures((e2, kb), e3),
    ensures
        ka != kb,
        e3@ == e0@.insert(ka, ha),
        e3@[ka] == ha,
        e3.values().contains(ha),
{
    assert(e3@ =~= e0@.insert(ka, ha));
    lemma_registered_value_is_stored(e3, ka);
}

} // verus!
