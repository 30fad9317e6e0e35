use trosyn::SecureStorage;

#[test]
fn set_get_remove() {
    let mut s = SecureStorage::new();
    assert_eq!(s.get("k"), None);
    s.set("k".to_string(), "v1".to_string());
    s.set("other".to_string(), "o".to_string());
    assert_eq!(s.get("k"), Some("v1".to_string()));
    s.set("k".to_string(), "v2".to_string());
    assert_eq!(s.get("k"), Some("v2".to_string()));
    assert_eq!(s.entries().len(), 2);
    s.remove("k");
    assert_eq!(s.get("k"), None);
    assert_eq!(s.get("other"), Some("o".to_string()));
    s.remove("missing");
    assert_eq!(s.entries().len(), 1);
}

#[test]
fn later_entries_override_earlier_ones() {
    let s = SecureStorage::from_entries(vec![
        ("a".to_string(), "1".to_string()),
        ("a".to_string(), "2".to_string()),
    ]);
    assert_eq!(s.get("a"), Some("2".to_string()));
}
