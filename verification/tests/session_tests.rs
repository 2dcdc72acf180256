use copilot_proxy::session::{SessionState, SessionTable};

fn ids(removed: &[SessionState<u32>]) -> Vec<&str> {
    removed.iter().map(|s| s.id.as_str()).collect()
}

#[test]
fn inserted_session_is_found_until_it_expires() {
    let mut t: SessionTable<u32> = SessionTable::new(10, 100);
    assert!(t.insert("a".into(), "conv-a".into(), 5, 1).is_empty());
    assert_eq!(t.get("a", 5), Some(&1));
    assert_eq!(t.get("a", 104), Some(&1));
    assert_eq!(t.get("a", 105), None);
    assert_eq!(t.get("b", 5), None);
    assert_eq!(t.len(), 1);
}

#[test]
fn same_id_replaces_the_session() {
    let mut t: SessionTable<u32> = SessionTable::new(10, 100);
    t.insert("a".into(), "c1".into(), 0, 1);
    let removed = t.insert("a".into(), "c2".into(), 50, 2);
    assert_eq!(ids(&removed), vec!["a"]);
    assert_eq!(removed[0].conversation_id, "c1");
    assert_eq!(removed[0].handle, 1);
    assert_eq!(t.get("a", 120), Some(&2));
    assert_eq!(t.len(), 1);
}

#[test]
fn oldest_sessions_are_evicted_beyond_capacity() {
    let mut t: SessionTable<u32> = SessionTable::new(2, 1000);
    t.insert("a".into(), "c".into(), 10, 1);
    t.insert("b".into(), "c".into(), 5, 2);
    let removed = t.insert("c".into(), "c".into(), 20, 3);
    assert_eq!(ids(&removed), vec!["b"]);
    assert_eq!(t.len(), 2);
    assert_eq!(t.get("a", 20), Some(&1));
    assert_eq!(t.get("b", 20), None);
    assert_eq!(t.get("c", 20), Some(&3));
}

#[test]
fn capacity_zero_keeps_nothing() {
    let mut t: SessionTable<u32> = SessionTable::new(0, 1000);
    let removed = t.insert("a".into(), "c".into(), 0, 1);
    assert_eq!(ids(&removed), vec!["a"]);
    assert_eq!(removed[0].handle, 1);
    assert_eq!(removed[0].expires_at, 1000);
    assert_eq!(t.len(), 0);
    assert_eq!(t.get("a", 0), None);
    let removed = t.insert("b".into(), "c".into(), 1, 2);
    assert_eq!(ids(&removed), vec!["b"]);
    assert_eq!(t.len(), 0);
}

#[test]
fn removing_a_session() {
    let mut t: SessionTable<u32> = SessionTable::new(10, 100);
    t.insert("a".into(), "ca".into(), 0, 1);
    t.insert("b".into(), "cb".into(), 0, 2);
    let s = t.remove("a").unwrap();
    assert_eq!((s.id.as_str(), s.conversation_id.as_str(), s.handle), ("a", "ca", 1));
    assert!(t.remove("a").is_none());
    assert_eq!(t.get("a", 0), None);
    assert_eq!(t.get("b", 0), Some(&2));
}

#[test]
fn cleanup_closes_exactly_the_expired_sessions() {
    let mut t: SessionTable<u32> = SessionTable::new(10, 100);
    t.insert("a".into(), "c".into(), 0, 1);
    t.insert("b".into(), "c".into(), 50, 2);
    t.insert("c".into(), "c".into(), 10, 3);
    let removed = t.remove_expired(110);
    let mut gone = ids(&removed);
    gone.sort();
    assert_eq!(gone, vec!["a", "c"]);
    assert_eq!(t.len(), 1);
    assert_eq!(t.get("b", 110), Some(&2));
    assert!(t.remove_expired(110).is_empty());
}

#[test]
fn expiry_does_not_overflow() {
    let mut t: SessionTable<u32> = SessionTable::new(10, u64::MAX);
    t.insert("a".into(), "c".into(), 10, 1);
    assert_eq!(t.get("a", u64::MAX - 1), Some(&1));
    assert_eq!(t.get("a", u64::MAX), Some(&1));
    let removed = t.insert("b".into(), "c".into(), u64::MAX, 2);
    assert!(removed.is_empty());
    assert_eq!(t.get("b", u64::MAX), Some(&2));
    let s = SessionState { id: "x".into(), conversation_id: "c".into(), created_at: 0, expires_at: 5, handle: 0u32 };
    assert!(!s.is_expired(4));
    assert!(s.is_expired(5));
}
