use vstd::prelude::*;

use crate::keyed::{swept, ShrinkableKeyedStateStore};
use crate::nanos::Nanos;
use crate::state::{cell_step_post, value_at, InMemoryState, StateStore};
use std::collections::hash_map::RandomState;
use std::hash::BuildHasher;

verus! {

#[verifier::external_type_specification]
#[verifier::external_body]
#[verifier::reject_recursive_types(K)]
#[verifier::reject_recursive_types(V)]
#[verifier::reject_recursive_types(H)]
pub struct ExSccHashMap<K, V, H>(scc::HashMap<K, V, H>) where H: BuildHasher;

/// What the backing scc map holds: the recorded marker for each present key.
pub uninterp spec fn scc_contents(m: scc::HashMap<u64, InMemoryState, RandomState>) -> Map<
    u64,
    Option<u64>,
>;

/// A concurrent, thread-safe keyed state store backed by [`scc::HashMap`]:
/// the map gives every call exclusive in-place access to one key's cell
/// without a global lock, which is exactly the per-key atomicity the
/// measure-and-replace protocol needs.
///
/// The mutating methods take `&mut self` so that each contract can relate
/// the contents before and after the call; the backing map itself works
/// through shared references and per-entry locks, and stays safe under
/// concurrent callers.
pub struct SccHashMapStateStore {
    map: scc::HashMap<u64, InMemoryState, RandomState>,
}

impl View for SccHashMapStateStore {
    type V = Map<u64, Option<u64>>;

    closed spec fn view(&self) -> Map<u64, Option<u64>> {
        scc_contents(self.map)
    }
}

impl SccHashMapStateStore {
    /// Relies on `scc::HashMap::new`: the new map has no entries.
    #[verifier::external_body]
    fn empty_map() -> (store: SccHashMapStateStore)
        ensures
            (scc_contents(store.map) == Map::<u64, Option<u64>>::empty()),
    {
        SccHashMapStateStore { map: scc::HashMap::new() }
    }

    /// Relies on `scc::HashMap::update_sync`: when `key` is present it runs
    /// the closure on the key's cell under the entry's exclusive lock and
    /// returns `Some` of the closure's result; when `key` is absent it
    /// touches nothing and returns `None`. The closure only calls the
    /// verified `InMemoryState::measure_and_replace_one`.
    #[verifier::external_body]
    fn update_existing<T, E, F: Fn(Option<Nanos>) -> Result<(T, Nanos), E>>(
        &mut self,
        key: u64,
        f: &F,
    ) -> (r: Option<Result<T, E>>)
        requires
            forall|p: Option<Nanos>| #[trigger] call_requires(f, (p,)),
        ensures
            r is None ==> final(self)@ == old(self)@ && !old(self)@.contains_key(key),
            r matches Some(res) ==> old(self)@.contains_key(key) && cell_step_post(
                f,
                old(self)@[key],
                value_at(final(self)@, key),
                res,
            ) && final(self)@ == old(self)@.insert(key, value_at(final(self)@, key)),
    {
        self.map.update_sync(&key, |_, cell| cell.measure_and_replace_one(f))
    }

    /// Relies on `scc::HashMap::entry_sync` and `Entry::or_default`: they
    /// take the entry for `key` under its exclusive lock and, when the key
    /// is absent, insert the cell that the library's verified `Default`
    /// yields — one that never recorded a state. An existing cell is left
    /// untouched.
    #[verifier::external_body]
    fn ensure_entry(&mut self, key: u64)
        ensures
            final(self)@ == old(self)@.insert(key, value_at(old(self)@, key)),
    {
        self.map.entry_sync(key).or_default();
    }

    /// Relies on `scc::HashMap::retain_sync`: it visits every entry under
    /// its lock and keeps exactly those for which the predicate returns
    /// true. The closure only calls the verified `InMemoryState::outlasts`.
    #[verifier::external_body]
    fn retain_outlasting(&mut self, drop_below: Nanos)
        ensures
            final(self)@ == swept(old(self)@, drop_below.0),
    {
        self.map.retain_sync(|_, cell| cell.outlasts(drop_below));
    }

    /// Relies on `scc::HashMap::len`: it counts the entries by scanning the
    /// bucket metadata; the scan may overcount while an old bucket array
    /// lingers, but it counts every entry present at least once and counts
    /// nothing on a map with no entry.
    #[verifier::external_body]
    fn approximate_len(&self) -> (r: usize)
        ensures
            self@.dom().finite() ==> r >= self@.dom().len(),
            ((r == 0) == (self@ == Map::<u64, Option<u64>>::empty())),
    {
        self.map.len()
    }

    /// Relies on `scc::HashMap::is_empty`: true exactly when the map holds
    /// no entry.
    #[verifier::external_body]
    fn no_entries(&self) -> (r: bool)
        ensures
            r == (self@ == Map::<u64, Option<u64>>::empty()),
    {
        self.map.is_empty()
    }
}

impl Default for SccHashMapStateStore {
    /// An empty store.
    fn default() -> (r: Self)
        ensures
            r@ == Map::<u64, Option<u64>>::empty(),
    {
        SccHashMapStateStore::empty_map()
    }
}

impl StateStore for SccHashMapStateStore {
    open spec fn contents(&self) -> Map<u64, Option<u64>> {
        self@
    }

    fn measure_and_replace<T, E, F: Fn(Option<Nanos>) -> Result<(T, Nanos), E>>(
        &mut self,
        key: u64,
        f: &F,
    ) -> (r: Result<T, E>) {
        let ghost m0 = self@;
        match self.update_existing(key, f) {
            Some(res) => res,
            None => {
                self.ensure_entry(key);
                let second = self.update_existing(key, f);
                proof {
                    assert(self@ =~= m0.insert(key, value_at(self@, key)));
                }
                second.unwrap()
            },
        }
    }
}

impl ShrinkableKeyedStateStore for SccHashMapStateStore {
    fn retain_recent(&mut self, drop_below: Nanos) {
        self.retain_outlasting(drop_below);
    }

    fn len(&self) -> (r: usize) {
        self.approximate_len()
    }

    fn is_empty(&self) -> (r: bool) {
        self.no_entries()
    }
}

} // verus!
