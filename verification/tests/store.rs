use scc_state_store::nanos::Nanos;
use scc_state_store::scc_store::SccHashMapStateStore;
use scc_state_store::state::{InMemoryState, StateStore};
use scc_state_store::keyed::ShrinkableKeyedStateStore;

/// A decision function that adds `step` to the previous marker (0 for a
/// fresh key) and reports the marker it saw.
fn add_step(prev: Option<Nanos>, step: u64) -> Result<(Option<u64>, Nanos), ()> {
    let seen = prev.map(|n| n.0);
    Ok((seen, Nanos(seen.unwrap_or(0) + step)))
}

/// A decision function that refuses, reporting the marker it saw.
fn refuse(prev: Option<Nanos>) -> Result<((), Nanos), Option<u64>> {
    Err(prev.map(|n| n.0))
}

#[test]
fn fresh_key_sees_none() {
    let mut st = SccHashMapStateStore::default();
    let r = st.measure_and_replace(1, &|prev: Option<Nanos>| add_step(prev, 100));
    assert_eq!(r, Ok(None));
}

#[test]
fn existing_key_sees_stored_marker() {
    let mut st = SccHashMapStateStore::default();
    let r1 = st.measure_and_replace(1, &|prev: Option<Nanos>| add_step(prev, 100));
    assert_eq!(r1, Ok(None));
    let r2 = st.measure_and_replace(1, &|prev: Option<Nanos>| add_step(prev, 100));
    assert_eq!(r2, Ok(Some(100)));
}

#[test]
fn failure_leaves_marker_unchanged() {
    let mut st = SccHashMapStateStore::default();
    let r1 = st.measure_and_replace(1, &|prev: Option<Nanos>| add_step(prev, 100));
    assert_eq!(r1, Ok(None));
    let r2 = st.measure_and_replace(1, &refuse);
    assert_eq!(r2, Err(Some(100)));
    let r3 = st.measure_and_replace(1, &refuse);
    assert_eq!(r3, Err(Some(100)));
}

#[test]
fn failure_on_fresh_key_keeps_cell_empty() {
    let mut st = SccHashMapStateStore::default();
    let r1 = st.measure_and_replace(1, &refuse);
    assert_eq!(r1, Err(None));
    let r2 = st.measure_and_replace(1, &refuse);
    assert_eq!(r2, Err(None));
    assert_eq!(st.len(), 1);
}

#[test]
fn sequential_updates_compose() {
    let mut st = SccHashMapStateStore::default();
    for i in 0..5u64 {
        let r = st.measure_and_replace(1, &|prev: Option<Nanos>| add_step(prev, 100));
        assert_eq!(r, Ok(if i == 0 { None } else { Some(i * 100) }));
    }
    let r = st.measure_and_replace(1, &refuse);
    assert_eq!(r, Err(Some(500)));
}

#[test]
fn independent_keys_do_not_interfere() {
    let mut st = SccHashMapStateStore::default();
    let r1 = st.measure_and_replace(1, &|prev: Option<Nanos>| add_step(prev, 100));
    let r2 = st.measure_and_replace(2, &|prev: Option<Nanos>| add_step(prev, 7));
    assert_eq!(r1, Ok(None));
    assert_eq!(r2, Ok(None));
    assert_eq!(st.measure_and_replace(1, &refuse), Err(Some(100)));
    assert_eq!(st.measure_and_replace(2, &refuse), Err(Some(7)));
}

#[test]
fn retention_drops_only_strictly_older_markers() {
    let mut st = SccHashMapStateStore::default();
    st.measure_and_replace(1, &|prev: Option<Nanos>| add_step(prev, 100))
        .unwrap();
    st.measure_and_replace(2, &|prev: Option<Nanos>| add_step(prev, 200))
        .unwrap();
    st.measure_and_replace(3, &|prev: Option<Nanos>| add_step(prev, 150))
        .unwrap();
    st.retain_recent(Nanos(150));
    // 100 < 150 is swept; 150 and 200 survive.
    assert_eq!(st.len(), 2);
    assert_eq!(st.measure_and_replace(2, &refuse), Err(Some(200)));
    assert_eq!(st.measure_and_replace(3, &refuse), Err(Some(150)));
    // Key 1 is gone: a new call sees a fresh key.
    assert_eq!(
        st.measure_and_replace(1, &|prev: Option<Nanos>| add_step(prev, 100)),
        Ok(None)
    );
}

#[test]
fn retention_keeps_cells_that_never_recorded_a_state() {
    let mut st = SccHashMapStateStore::default();
    assert_eq!(st.measure_and_replace(1, &refuse), Err(None));
    assert_eq!(st.len(), 1);
    st.retain_recent(Nanos(u64::MAX));
    assert_eq!(st.len(), 1);
    assert!(!st.is_empty());
}

#[test]
fn len_counts_inserted_keys() {
    let mut st = SccHashMapStateStore::default();
    assert!(st.is_empty());
    assert_eq!(st.len(), 0);
    for key in 0..3u64 {
        st.measure_and_replace(key, &|prev: Option<Nanos>| add_step(prev, 1))
            .unwrap();
    }
    assert!(st.len() >= 3);
    assert!(!st.is_empty());
}

#[test]
fn retention_can_empty_the_store() {
    let mut st = SccHashMapStateStore::default();
    st.measure_and_replace(1, &|prev: Option<Nanos>| add_step(prev, 100))
        .unwrap();
    assert!(!st.is_empty());
    st.retain_recent(Nanos(101));
    assert!(st.is_empty());
    assert_eq!(st.len(), 0);
}

#[test]
fn cell_applies_decision_in_place() {
    let mut cell = InMemoryState::default();
    let r1 = cell.measure_and_replace_one(&|prev: Option<Nanos>| add_step(prev, 100));
    assert_eq!(r1, Ok(None));
    let r2 = cell.measure_and_replace_one(&|prev: Option<Nanos>| add_step(prev, 100));
    assert_eq!(r2, Ok(Some(100)));
    let r3 = cell.measure_and_replace_one(&refuse);
    assert_eq!(r3, Err(Some(200)));
}

#[test]
fn cell_age_comparison_is_strict() {
    let mut cell = InMemoryState::default();
    assert!(!cell.is_older_than(Nanos(u64::MAX)));
    assert!(cell.outlasts(Nanos(u64::MAX)));
    cell.measure_and_replace_one(&|prev: Option<Nanos>| add_step(prev, 100))
        .unwrap();
    assert!(!cell.is_older_than(Nanos(100)));
    assert!(cell.is_older_than(Nanos(101)));
    assert!(cell.outlasts(Nanos(100)));
    assert!(!cell.outlasts(Nanos(101)));
}
