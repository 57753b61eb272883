//! Replace the behaviour of a function or method at its call sites, for tests.
//!
//! An instrumented callable starts with a short prologue that asks the
//! override store whether an override is queued for its identity. If one is,
//! the override is taken from the head of its queue, run in place of the
//! real body, and put back at the tail while uses remain.
use vstd::prelude::*;

pub mod dispatch;
pub mod instrument;
pub mod store;

pub use store::{MockReturn, MockStore};

verus! {

/// Marker type for overrides of callables that return their value directly
/// rather than through a future.
pub struct NotFuture;

/// Drops every queued override of every callable from `store`.
pub fn clear_mocks<K: Copy + Eq + std::hash::Hash, B>(store: &mut MockStore<K, B>)
    requires
        old(store).wf(),
    ensures
        final(store).wf(),
        final(store)@ == store::no_overrides::<K, B>(),
{
    store.clear();
}

} // verus!
