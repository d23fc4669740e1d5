use threadstat::source_table::SourceTable;

#[test]
fn keys_are_fresh_and_fds_come_back() {
    let mut t = SourceTable::new();
    assert!(t.is_empty());
    let a = t.register(7);
    let b = t.register(9);
    assert_ne!(a, b);
    assert_eq!(t.len(), 2);
    assert_eq!(t.deregister(a), Some(7));
    assert_eq!(t.len(), 1);
    assert!(!t.is_empty());
}

#[test]
fn deregister_is_idempotent() {
    let mut t = SourceTable::new();
    let a = t.register(3);
    assert_eq!(t.deregister(a), Some(3));
    assert_eq!(t.deregister(a), None);
    assert!(t.is_empty());
    assert_eq!(t.deregister(12345), None);
}

#[test]
fn released_keys_are_reused_without_clashing() {
    let mut t = SourceTable::new();
    let a = t.register(1);
    let b = t.register(2);
    t.deregister(a);
    let c = t.register(3);
    assert_ne!(c, b);
    assert_eq!(t.deregister(b), Some(2));
    assert_eq!(t.deregister(c), Some(3));
}
