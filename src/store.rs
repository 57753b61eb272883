//! The override store: for each callable identity, a FIFO queue of overrides.
use std::collections::HashMap;
use std::collections::VecDeque;
use vstd::prelude::*;
use vstd::std_specs::hash::obeys_key_model;

verus! {

broadcast use vstd::std_specs::hash::group_hash_axioms;

/// An override entry: a type-erased behaviour and how many uses remain.
///
/// `Some(n)` allows `n` more uses; `None` allows any number of uses.
pub struct MockReturn<B>(pub B, pub Option<usize>);

impl<B> MockReturn<B> {
    /// What is put back at the tail of the queue after one use of `self`:
    /// a finite entry with uses left loses one, an unlimited one comes back
    /// unchanged, and a spent one is dropped.
    pub open spec fn after_use(self) -> Option<MockReturn<B>> {
        match self.1 {
            None => Some(self),
            Some(n) => if n > 1 {
                Some(MockReturn(self.0, Some((n - 1) as usize)))
            } else {
                None
            },
        }
    }
}

/// The abstract state of a store: the queue of every identity, empty for an
/// identity that has none.
pub type Queues<K, B> = Map<K, Seq<MockReturn<B>>>;

/// A store that holds no override for any identity.
pub open spec fn no_overrides<K, B>() -> Queues<K, B> {
    Map::new(|k: K| true, |k: K| Seq::<MockReturn<B>>::empty())
}

/// `q` with `e` appended at the tail of the queue of `id`.
pub open spec fn added<K, B>(q: Queues<K, B>, id: K, e: MockReturn<B>) -> Queues<K, B> {
    q.insert(id, q[id].push(e))
}

/// The entry at the head of the queue of `id`, if any.
pub open spec fn head<K, B>(q: Queues<K, B>, id: K) -> Option<MockReturn<B>> {
    if q[id].len() == 0 {
        None
    } else {
        Some(q[id][0])
    }
}

/// `q` without the head of the queue of `id`.
pub open spec fn consumed<K, B>(q: Queues<K, B>, id: K) -> Queues<K, B> {
    if q[id].len() == 0 {
        q
    } else {
        q.insert(id, q[id].drop_first())
    }
}

/// `q` with the queue of `id` emptied.
pub open spec fn removed<K, B>(q: Queues<K, B>, id: K) -> Queues<K, B> {
    q.insert(id, Seq::empty())
}

/// `q` after `e`, just used for `id`, is put back as far as its count allows.
pub open spec fn requeued<K, B>(q: Queues<K, B>, id: K, e: MockReturn<B>) -> Queues<K, B> {
    match e.after_use() {
        Some(next) => added(q, id, next),
        None => q,
    }
}

/// Queues of overrides, keyed by callable identity.
pub struct MockStore<K, B> {
    mocks: HashMap<K, VecDeque<MockReturn<B>>>,
}

impl<K, B> View for MockStore<K, B> {
    type V = Queues<K, B>;

    closed spec fn view(&self) -> Queues<K, B> {
        Map::new(
            |k: K| true,
            |k: K|
                if self.mocks@.contains_key(k) {
                    self.mocks@[k]@
                } else {
                    Seq::empty()
                },
        )
    }
}

impl<K, B> MockStore<K, B> {
    /// Well-formed: identities hash and compare consistently, so that the
    /// table finds the queue of each identity.
    pub closed spec fn wf(&self) -> bool {
        obeys_key_model::<K>()
    }
}

impl<K: Copy + Eq + std::hash::Hash, B> MockStore<K, B> {
    /// An empty store. The identity type must hash and compare consistently.
    pub fn new() -> (r: Self)
        requires
            obeys_key_model::<K>(),
        ensures
            r.wf(),
            r@ == no_overrides::<K, B>(),
    {
        let r = MockStore { mocks: HashMap::new() };
        assert(r@ =~= no_overrides::<K, B>());
        r
    }

    /// Appends `value` to the queue of `id`, creating the queue if needed.
    pub fn add(&mut self, id: K, value: MockReturn<B>)
        requires
            old(self).wf(),
        ensures
            final(self).wf(),
            final(self)@ == added(old(self)@, id, value),
    {
        let ghost before = self@;
        let queue = self.mocks.remove(&id);
        match queue {
            Some(mut entries) => {
                entries.push_back(value);
                self.mocks.insert(id, entries);
            },
            None => {
                let mut entries: VecDeque<MockReturn<B>> = VecDeque::new();
                entries.push_back(value);
                self.mocks.insert(id, entries);
            },
        }
        assert(self@ =~= added(before, id, value));
    }

    /// Whether the queue of `id` holds at least one override.
    pub fn mock_exists(&self, id: K) -> (r: bool)
        requires
            self.wf(),
        ensures
            r == (self@[id].len() > 0),
    {
        match self.mocks.get(&id) {
            Some(entries) => entries.len() > 0,
            None => false,
        }
    }

    /// Takes the override at the head of the queue of `id`, if there is one.
    pub fn get(&mut self, id: K) -> (r: Option<MockReturn<B>>)
        requires
            old(self).wf(),
        ensures
            final(self).wf(),
            r == head(old(self)@, id),
            final(self)@ == consumed(old(self)@, id),
    {
        let ghost before = self@;
        let queue = self.mocks.remove(&id);
        match queue {
            Some(mut entries) => {
                let r = entries.pop_front();
                self.mocks.insert(id, entries);
                assert(self@ =~= consumed(before, id));
                r
            },
            None => {
                assert(self@ =~= consumed(before, id));
                None
            },
        }
    }

    /// Drops the whole queue of `id`.
    pub fn remove(&mut self, id: K)
        requires
            old(self).wf(),
        ensures
            final(self).wf(),
            final(self)@ == removed(old(self)@, id),
    {
        let ghost before = self@;
        self.mocks.remove(&id);
        assert(self@ =~= removed(before, id));
    }

    /// Drops every queue.
    pub fn clear(&mut self)
        requires
            old(self).wf(),
        ensures
            final(self).wf(),
            final(self)@ == no_overrides::<K, B>(),
    {
        self.mocks.clear();
        assert(self@ =~= no_overrides::<K, B>());
    }

    /// Puts `value`, which was just used for `id`, back at the tail of the
    /// queue of `id` if it has uses left, with one use less when it is finite.
    pub fn requeue(&mut self, id: K, value: MockReturn<B>)
        requires
            old(self).wf(),
        ensures
            final(self).wf(),
            final(self)@ == requeued(old(self)@, id, value),
    {
        let MockReturn(with, repeat) = value;
        match repeat {
            Some(n) => {
                if n > 1 {
                    self.add(id, MockReturn(with, Some(n - 1)));
                }
            },
            None => {
                self.add(id, MockReturn(with, None));
            },
        }
    }
}

} // verus!
