use vstd::prelude::*;

use crate::nanos::Nanos;
use crate::state::{value_older_than, StateStore};

verus! {

/// The contents after a retention sweep with cutoff `c`: exactly the entries
/// whose marker is not strictly older than `c` survive, unchanged. A cell
/// that never recorded a state is not older than any cutoff, so it survives
/// every sweep.
pub open spec fn swept(m: Map<u64, Option<u64>>, c: u64) -> Map<u64, Option<u64>> {
    Map::<u64, Option<u64>>::new(
        |k: u64| m.contains_key(k) && !value_older_than(m[k], c),
        |k: u64| m[k],
    )
}

/// The store-facade extension for reclaiming memory: sweep out aged keys and
/// report the (approximate) size.
pub trait ShrinkableKeyedStateStore: StateStore {
    /// Remove every key whose stored marker is strictly older than
    /// `drop_below`. Best-effort maintenance: it never fails.
    fn retain_recent(&mut self, drop_below: Nanos)
        ensures
            final(self).contents() == swept(old(self).contents(), drop_below.0),
    ;

    /// The number of keys currently stored. Approximate: under concurrent
    /// mutation, and transiently after internal resizes, it may overcount,
    /// but it never undercounts the keys present, and it reports zero
    /// exactly on a store with no key.
    fn len(&self) -> (r: usize)
        ensures
            self.contents().dom().finite() ==> r >= self.contents().dom().len(),
            ((r == 0) == (self.contents() == Map::<u64, Option<u64>>::empty())),
    ;

    /// Whether the store holds no key at all.
    fn is_empty(&self) -> (r: bool)
        ensures
            r == (self.contents() == Map::<u64, Option<u64>>::empty()),
    ;
}

/// Retention correctness: after a sweep with cutoff `c`, every key whose
/// marker was strictly older than `c` is gone, and every other key — one
/// with a younger-or-equal marker, or one that never recorded a state — is
/// still present, its marker untouched.
pub proof fn lemma_retention_correctness(m: Map<u64, Option<u64>>, c: u64)
    ensures
        forall|k: u64|
            #[trigger] swept(m, c).contains_key(k) <==> (m.contains_key(k) && !value_older_than(
                m[k],
                c,
            )),
        forall|k: u64| #[trigger] swept(m, c).contains_key(k) ==> swept(m, c)[k] == m[k],
{
}

/// Retention/update race, serialized either way: once an update has
/// installed marker `n` for a key, a sweep can only leave the key absent
/// (exactly when `n` itself is older than the cutoff) or present with `n` —
/// never present with a stale, pre-update marker.
pub proof fn lemma_update_then_sweep(m: Map<u64, Option<u64>>, key: u64, n: u64, c: u64)
    ensures
        ({
            let after = swept(m.insert(key, Some(n)), c);
            &&& after.contains_key(key) <==> n >= c
            &&& after.contains_key(key) ==> after[key] == Some(n)
        }),
{
}

/// A sweep only removes keys: the surviving key set is a subset of the one
/// before the sweep, and stays finite.
pub proof fn lemma_swept_subset(m: Map<u64, Option<u64>>, c: u64)
    requires
        m.dom().finite(),
    ensures
        swept(m, c).dom().finite(),
        swept(m, c).dom().subset_of(m.dom()),
        swept(m, c).dom().len() <= m.dom().len(),
{
    assert(swept(m, c).dom().subset_of(m.dom()));
    vstd::set_lib::lemma_len_subset(swept(m, c).dom(), m.dom());
}

} // verus!
