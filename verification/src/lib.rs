//! Concurrent keyed state backend for a rate limiter: one small mutable cell
//! per key, an atomic measure-and-replace protocol over a concurrent key→cell
//! map, and a retention sweep that reclaims cells older than a cutoff.

pub mod clock;
pub mod keyed;
pub mod nanos;
pub mod scc_store;
pub mod state;

use vstd::prelude::*;

use crate::clock::Clock;
use crate::keyed::{swept, ShrinkableKeyedStateStore};
use crate::nanos::Nanos;
use crate::scc_store::SccHashMapStateStore;
use crate::state::{measure_and_replace_post, StateStore};

verus! {

/// External configuration for a rate limiter: the burst it allows and how
/// fast permits replenish. Opaque to the store; only the caller's decision
/// function interprets it.
#[derive(Clone, Copy, PartialEq, Eq, Hash, Debug, Structural)]
pub struct Quota {
    pub max_burst: u32,
    pub replenish_interval_ns: u64,
}

/// The rate-limiter facade over a keyed state store: it owns the store, a
/// quota and a clock, forwards each rate check to the store's atomic
/// measure-and-replace protocol, and sweeps aged keys on demand.
pub struct RateLimiter<S: StateStore, C: Clock> {
    pub quota: Quota,
    pub state: S,
    pub clock: C,
}

impl<S: StateStore, C: Clock> RateLimiter<S, C> {
    /// Wire a quota and a clock to an existing store.
    pub fn new(quota: Quota, state: S, clock: &C) -> (r: Self)
        ensures
            r.quota == quota,
            r.state == state,
            r.clock == *clock,
    {
        RateLimiter { quota, state, clock: clock.clone_clock() }
    }

    /// One rate check: apply the caller's decision function to `key`'s
    /// state through the store's atomic measure-and-replace protocol.
    pub fn measure_and_replace<T, E, F: Fn(Option<Nanos>) -> Result<(T, Nanos), E>>(
        &mut self,
        key: u64,
        f: &F,
    ) -> (r: Result<T, E>)
        requires
            forall|p: Option<Nanos>| #[trigger] call_requires(f, (p,)),
        ensures
            measure_and_replace_post(
                f,
                old(self).state.contents(),
                key,
                final(self).state.contents(),
                r,
            ),
            final(self).quota == old(self).quota,
            final(self).clock == old(self).clock,
    {
        self.state.measure_and_replace(key, f)
    }
}

impl<S: ShrinkableKeyedStateStore, C: Clock> RateLimiter<S, C> {
    /// Reclaim every key whose stored marker is strictly older than
    /// `drop_below`.
    pub fn retain_recent(&mut self, drop_below: Nanos)
        ensures
            final(self).state.contents() == swept(old(self).state.contents(), drop_below.0),
            final(self).quota == old(self).quota,
            final(self).clock == old(self).clock,
    {
        self.state.retain_recent(drop_below);
    }

    /// The approximate number of keys tracked: it may overcount under
    /// churn, but it never undercounts the keys present, and it reports
    /// zero exactly when no key is tracked.
    pub fn len(&self) -> (r: usize)
        ensures
            self.state.contents().dom().finite() ==> r >= self.state.contents().dom().len(),
            ((r == 0) == (self.state.contents() == Map::<u64, Option<u64>>::empty())),
    {
        self.state.len()
    }

    /// Whether no key is tracked at all.
    pub fn is_empty(&self) -> (r: bool)
        ensures
            r == (self.state.contents() == Map::<u64, Option<u64>>::empty()),
    {
        self.state.is_empty()
    }
}

impl<C: Clock> RateLimiter<SccHashMapStateStore, C> {
    /// A rate limiter over a fresh, empty scc-backed store.
    pub fn scchashmap_with_clock(quota: Quota, clock: &C) -> (r: Self)
        ensures
            (r.state.contents() == Map::<u64, Option<u64>>::empty()),
            r.quota == quota,
            r.clock == *clock,
    {
        let state: SccHashMapStateStore = SccHashMapStateStore::default();
        RateLimiter::new(quota, state, clock)
    }
}

} // verus!
