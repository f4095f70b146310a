use gustavio::table::Table;

#[test]
fn new_table_is_empty() {
    let t: Table<u64> = Table::new();
    assert_eq!(t.len(), 0);
    assert!(!t.contains_key("a"));
    assert_eq!(t.get("a"), None);
}

#[test]
fn insert_then_get() {
    let mut t: Table<u64> = Table::new();
    assert_eq!(t.insert("a".to_string(), 1), None);
    assert_eq!(t.insert("b".to_string(), 2), None);
    assert_eq!(t.len(), 2);
    assert_eq!(t.get("a"), Some(&1));
    assert_eq!(t.get("b"), Some(&2));
    assert_eq!(t.get("c"), None);
    assert!(t.contains_key("b"));
}

#[test]
fn insert_replaces_and_returns_the_old_value() {
    let mut t: Table<u64> = Table::new();
    t.insert("a".to_string(), 1);
    t.insert("b".to_string(), 2);
    assert_eq!(t.insert("a".to_string(), 7), Some(1));
    assert_eq!(t.len(), 2);
    assert_eq!(t.get("a"), Some(&7));
    assert_eq!(t.get("b"), Some(&2));
    assert_eq!(t.key_at(0), "a");
    assert_eq!(t.key_at(1), "b");
    assert_eq!(*t.value_at(0), 7);
    assert_eq!(*t.value_at(1), 2);
}

#[test]
fn remove_takes_one_entry_and_keeps_the_order() {
    let mut t: Table<u64> = Table::new();
    t.insert("a".to_string(), 1);
    t.insert("b".to_string(), 2);
    t.insert("c".to_string(), 3);
    assert_eq!(t.remove("b"), Some(2));
    assert_eq!(t.len(), 2);
    assert_eq!(t.key_at(0), "a");
    assert_eq!(t.key_at(1), "c");
    assert_eq!(*t.value_at(1), 3);
    assert_eq!(t.remove("b"), None);
    assert_eq!(t.len(), 2);
    assert_eq!(t.remove("a"), Some(1));
    assert_eq!(t.remove("c"), Some(3));
    assert_eq!(t.len(), 0);
}

#[test]
fn keys_are_compared_by_their_text() {
    let mut t: Table<u64> = Table::new();
    t.insert("peer".to_string(), 1);
    t.insert("Peer".to_string(), 2);
    t.insert("peer ".to_string(), 3);
    t.insert("".to_string(), 4);
    assert_eq!(t.len(), 4);
    assert_eq!(t.get("peer"), Some(&1));
    assert_eq!(t.get("Peer"), Some(&2));
    assert_eq!(t.get("peer "), Some(&3));
    assert_eq!(t.get(""), Some(&4));
}
