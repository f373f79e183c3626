use versioned_store::state::State;

#[test]
fn insert_makes_history() {
    let mut state = State::new();
    state.insert("a".to_string(), 1);
    assert_eq!(state.hist_len(), 1);
    state.insert("a".to_string(), 2);
    assert_eq!(state.hist_len(), 2);
    state.insert("a".to_string(), 3);
    assert_eq!(state.hist_len(), 3);
}

#[test]
fn remove_makes_history() {
    let mut state = State::new();
    state.insert("a".to_string(), 1);
    state.insert("b".to_string(), 2);
    state.insert("c".to_string(), 3);
    state.remove("a");
    assert_eq!(state.hist_len(), 4);
    state.remove("b");
    assert_eq!(state.hist_len(), 5);
    state.remove("c");
    assert_eq!(state.hist_len(), 6);
}

#[test]
fn insert_binds_and_overwrites() {
    let mut state = State::default();
    assert_eq!(state.len(), 0);
    state.insert("a".to_string(), 1);
    assert_eq!(state.get("a"), Some(1));
    assert_eq!(state.len(), 1);
    state.insert("a".to_string(), 7);
    assert_eq!(state.get("a"), Some(7));
    assert_eq!(state.len(), 1);
    assert_eq!(state.get("b"), None);
}

#[test]
fn remove_drops_only_that_key() {
    let mut state = State::new();
    state.insert("a".to_string(), 1);
    state.insert("b".to_string(), 2);
    state.remove("a");
    assert_eq!(state.get("a"), None);
    assert_eq!(state.get("b"), Some(2));
    assert_eq!(state.len(), 1);
    state.remove("missing");
    assert_eq!(state.len(), 1);
    assert_eq!(state.hist_len(), 4);
}

#[test]
fn insert_leaves_other_keys_and_the_old_version() {
    let mut state = State::new();
    state.insert("t1".to_string(), 1);
    state.insert("t2".to_string(), 2);
    let before = state.reader().clone();
    state.insert("t1".to_string(), 5);
    assert_eq!(state.get("t2"), Some(2));
    assert_eq!(state.get("t1"), Some(5));
    assert_eq!(before.get("t1"), Some(&1));
    assert_eq!(before.get("t2"), Some(&2));
    assert_eq!(before.len(), 2);
    let newest_kept = state.history().last().unwrap();
    assert_eq!(newest_kept.get("t1"), Some(&1));
}

#[test]
fn reader_snapshot_survives_writes() {
    let mut state = State::new();
    state.insert("t1".to_string(), 1);
    let snapshot = state.clone();
    state.insert("t1a".to_string(), 5);
    state.remove("t1");
    assert_eq!(snapshot.get("t1"), Some(1));
    assert_eq!(snapshot.get("t1a"), None);
    assert_eq!(snapshot.hist_len(), 1);
    assert_eq!(state.reader().get("t1a"), Some(&5));
}

#[test]
fn from_parts_keeps_both_parts() {
    let mut state = State::new();
    state.insert("k".to_string(), 3);
    let rebuilt = State::from_parts(state.history(), state.reader());
    assert_eq!(rebuilt.get("k"), Some(3));
    assert_eq!(rebuilt.hist_len(), 1);
}

#[test]
fn len_counts_distinct_keys() {
    let mut state = State::new();
    state.insert("a".to_string(), 1);
    state.insert("b".to_string(), 2);
    state.insert("a".to_string(), 3);
    assert_eq!(state.len(), 2);
    state.remove("a");
    assert_eq!(state.len(), 1);
    state.remove("a");
    assert_eq!(state.len(), 1);
    assert_eq!(state.get("b"), Some(2));
}
