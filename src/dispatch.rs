//! What one call of an instrumented callable does to the store, and the
//! laws that follow for sequences of calls.
//!
//! A call takes the head of its identity's queue with `MockStore::get`, runs
//! the detached behaviour, and hands the entry back with
//! `MockStore::requeue`. With an empty queue the real body runs and the
//! store is left alone.
use crate::store::{added, consumed, head, no_overrides, removed, requeued, MockReturn, Queues};
use vstd::prelude::*;

verus! {

/// One call for `id` whose override does not touch the store while it runs:
/// the store afterwards, and the behaviour used (`None` when the real
/// body ran).
pub open spec fn call<K, B>(q: Queues<K, B>, id: K) -> (Queues<K, B>, Option<B>) {
    match head(q, id) {
        None => (q, None),
        Some(e) => (requeued(consumed(q, id), id, e), Some(e.0)),
    }
}

/// The store after `k` such calls for `id`.
pub open spec fn calls<K, B>(q: Queues<K, B>, id: K, k: nat) -> Queues<K, B>
    decreases k,
{
    if k == 0 {
        q
    } else {
        call(calls(q, id, (k - 1) as nat), id).0
    }
}

/// The behaviour used by the call after `k` earlier calls for `id`.
pub open spec fn used<K, B>(q: Queues<K, B>, id: K, k: nat) -> Option<B> {
    call(calls(q, id, k), id).1
}

/// One call for `id` whose override, while it runs, queues `b` once more for
/// its own identity.
pub open spec fn refilling_call<K, B>(q: Queues<K, B>, id: K, b: B) -> (Queues<K, B>, Option<B>) {
    match head(q, id) {
        None => (q, None),
        Some(e) => (
            requeued(added(consumed(q, id), id, MockReturn(b, Some(1))), id, e),
            Some(e.0),
        ),
    }
}

/// The store after `k` such self-refilling calls for `id`.
pub open spec fn refilling_calls<K, B>(q: Queues<K, B>, id: K, b: B, k: nat) -> Queues<K, B>
    decreases k,
{
    if k == 0 {
        q
    } else {
        refilling_call(refilling_calls(q, id, b, (k - 1) as nat), id, b).0
    }
}

/// `q` after each behaviour of `bs`, in order, is queued once for `id`.
pub open spec fn added_once<K, B>(q: Queues<K, B>, id: K, bs: Seq<B>) -> Queues<K, B>
    decreases bs.len(),
{
    if bs.len() == 0 {
        q
    } else {
        added(added_once(q, id, bs.drop_last()), id, MockReturn(bs.last(), Some(1)))
    }
}

/// Entries that allow one use each, one per behaviour of `bs`.
pub open spec fn once_entries<B>(bs: Seq<B>) -> Seq<MockReturn<B>> {
    bs.map_values(|b: B| MockReturn(b, Some(1)))
}

proof fn lemma_added_once<K, B>(q: Queues<K, B>, id: K, bs: Seq<B>)
    ensures
        added_once(q, id, bs)[id] == q[id] + once_entries(bs),
    decreases bs.len(),
{
    if bs.len() > 0 {
        lemma_added_once(q, id, bs.drop_last());
        assert(q[id] + once_entries(bs) =~= (q[id] + once_entries(bs.drop_last())).push(
            MockReturn(bs.last(), Some(1)),
        ));
    }
}

proof fn lemma_once_calls<K, B>(q: Queues<K, B>, id: K, bs: Seq<B>, k: nat)
    requires
        q[id] == once_entries(bs),
        k <= bs.len(),
    ensures
        calls(q, id, k)[id] == once_entries(bs).skip(k as int),
    decreases k,
{
    if k > 0 {
        lemma_once_calls(q, id, bs, (k - 1) as nat);
        let before = calls(q, id, (k - 1) as nat);
        assert(once_entries(bs).skip((k - 1) as int).drop_first() =~= once_entries(bs).skip(
            k as int,
        ));
        assert(before[id][0] == MockReturn(bs[k - 1], Some(1)));
    }
}

/// Overrides queued once each are used in the order they were added, one
/// per call; once they are all used the real body runs again and the
/// queue is empty.
pub proof fn fifo_order<K, B>(q: Queues<K, B>, id: K, bs: Seq<B>)
    requires
        q[id].len() == 0,
    ensures
        forall|k: nat| k < bs.len() ==> #[trigger] used(added_once(q, id, bs), id, k) == Some(bs[k as int]),
        used(added_once(q, id, bs), id, bs.len()) == None::<B>,
        calls(added_once(q, id, bs), id, bs.len())[id].len() == 0,
{
    let s = added_once(q, id, bs);
    lemma_added_once(q, id, bs);
    assert(s[id] =~= once_entries(bs));
    assert forall|k: nat| k < bs.len() implies #[trigger] used(s, id, k) == Some(bs[k as int]) by {
        lemma_once_calls(s, id, bs, k);
    }
    lemma_once_calls(s, id, bs, bs.len());
}

proof fn lemma_finite_calls<K, B>(q: Queues<K, B>, id: K, b: B, n: usize, k: nat)
    requires
        q[id] == seq![MockReturn(b, Some(n))],
        k < n,
    ensures
        calls(q, id, k)[id] == seq![MockReturn(b, Some((n - k) as usize))],
    decreases k,
{
    if k > 0 {
        lemma_finite_calls(q, id, b, n, (k - 1) as nat);
        let before = calls(q, id, (k - 1) as nat);
        assert(consumed(before, id)[id] =~= Seq::<MockReturn<B>>::empty());
        assert(calls(q, id, k)[id] =~= seq![MockReturn(b, Some((n - k) as usize))]);
    }
}

/// An override queued for `n` uses serves exactly the next `n` calls; the
/// call after them runs the real body, and the queue is then empty.
pub proof fn finite_repeat<K, B>(q: Queues<K, B>, id: K, b: B, n: usize)
    requires
        q[id].len() == 0,
        n >= 1,
    ensures
        forall|k: nat| k < n ==> #[trigger] used(added(q, id, MockReturn(b, Some(n))), id, k) == Some(b),
        used(added(q, id, MockReturn(b, Some(n))), id, n as nat) == None::<B>,
        calls(added(q, id, MockReturn(b, Some(n))), id, n as nat)[id].len() == 0,
{
    let s = added(q, id, MockReturn(b, Some(n)));
    assert(s[id] =~= seq![MockReturn(b, Some(n))]);
    assert forall|k: nat| k < n implies #[trigger] used(s, id, k) == Some(b) by {
        lemma_finite_calls(s, id, b, n, k);
    }
    lemma_finite_calls(s, id, b, n, (n - 1) as nat);
    let last = calls(s, id, (n - 1) as nat);
    assert(consumed(last, id)[id] =~= Seq::<MockReturn<B>>::empty());
}

proof fn lemma_unlimited_calls<K, B>(q: Queues<K, B>, id: K, b: B, k: nat)
    requires
        q[id] == seq![MockReturn(b, None)],
    ensures
        calls(q, id, k)[id] == seq![MockReturn(b, None)],
    decreases k,
{
    if k > 0 {
        lemma_unlimited_calls(q, id, b, (k - 1) as nat);
        let before = calls(q, id, (k - 1) as nat);
        assert(consumed(before, id)[id] =~= Seq::<MockReturn<B>>::empty());
        assert(calls(q, id, k)[id] =~= seq![MockReturn(b, None)]);
    }
}

/// An override queued without a limit serves every call, however many,
/// until the queue of its identity is removed; the next call then runs the
/// real body.
pub proof fn unlimited_persistence<K, B>(q: Queues<K, B>, id: K, b: B, k: nat)
    requires
        q[id].len() == 0,
    ensures
        used(added(q, id, MockReturn(b, None)), id, k) == Some(b),
        call(removed(calls(added(q, id, MockReturn(b, None)), id, k), id), id).1 == None::<B>,
{
    let s = added(q, id, MockReturn(b, None));
    assert(s[id] =~= seq![MockReturn(b, None)]);
    lemma_unlimited_calls(s, id, b, k);
}

proof fn lemma_refilling_calls<K, B>(q: Queues<K, B>, id: K, b: B, k: nat)
    requires
        q[id] == seq![MockReturn(b, Some(1))],
    ensures
        refilling_calls(q, id, b, k)[id] == seq![MockReturn(b, Some(1))],
    decreases k,
{
    if k > 0 {
        lemma_refilling_calls(q, id, b, (k - 1) as nat);
        let before = refilling_calls(q, id, b, (k - 1) as nat);
        assert(consumed(before, id)[id] =~= Seq::<MockReturn<B>>::empty());
        assert(refilling_calls(q, id, b, k)[id] =~= seq![MockReturn(b, Some(1))]);
    }
}

/// An override queued once that queues itself once more each time it runs
/// serves every call until the queue of its identity is removed; the next
/// call then runs the real body.
pub proof fn self_refilling<K, B>(q: Queues<K, B>, id: K, b: B, k: nat)
    requires
        q[id].len() == 0,
    ensures
        refilling_call(refilling_calls(added(q, id, MockReturn(b, Some(1))), id, b, k), id, b).1
            == Some(b),
        refilling_call(
            removed(refilling_calls(added(q, id, MockReturn(b, Some(1))), id, b, k), id),
            id,
            b,
        ).1 == None::<B>,
{
    let s = added(q, id, MockReturn(b, Some(1)));
    assert(s[id] =~= seq![MockReturn(b, Some(1))]);
    lemma_refilling_calls(s, id, b, k);
}

/// Adding, taking, removing or putting back an override for one identity,
/// and a call for it, leave the queue of every other identity as it was.
pub proof fn isolation<K, B>(q: Queues<K, B>, id: K, other: K, e: MockReturn<B>)
    requires
        id != other,
    ensures
        added(q, id, e)[other] == q[other],
        consumed(q, id)[other] == q[other],
        removed(q, id)[other] == q[other],
        requeued(q, id, e)[other] == q[other],
        call(q, id).0[other] == q[other],
{
}

/// With no override ever registered, every call runs the real body and
/// the store stays empty.
pub proof fn fallback_without_overrides<K, B>(id: K, k: nat)
    ensures
        calls(no_overrides::<K, B>(), id, k) == no_overrides::<K, B>(),
        used(no_overrides::<K, B>(), id, k) == None::<B>,
    decreases k,
{
    if k > 0 {
        fallback_without_overrides::<K, B>(id, (k - 1) as nat);
    }
}

} // verus!
