use flowy_sync::registry::Registry;

#[test]
fn an_empty_registry_finds_nothing() {
    let r: Registry<u32> = Registry::new();
    assert!(r.get("a").is_none());
}

#[test]
fn a_value_is_found_under_its_key_only() {
    let mut r = Registry::new();
    assert_eq!(r.insert("a".to_string(), 1), None);
    assert_eq!(r.insert("b".to_string(), 2), None);
    assert_eq!(r.insert("\u{e9}".to_string(), 3), None);
    assert_eq!(r.get("a"), Some(&1));
    assert_eq!(r.get("b"), Some(&2));
    assert_eq!(r.get("\u{e9}"), Some(&3));
    assert_eq!(r.get("c"), None);
    assert_eq!(r.get(""), None);
}

#[test]
fn a_second_value_displaces_the_first() {
    let mut r = Registry::new();
    r.insert("a".to_string(), 1);
    r.insert("b".to_string(), 2);
    r.insert("c".to_string(), 3);
    assert_eq!(r.insert("a".to_string(), 10), Some(1));
    assert_eq!(r.insert("a".to_string(), 100), Some(10));
    assert_eq!(r.get("a"), Some(&100));
    assert_eq!(r.get("b"), Some(&2));
    assert_eq!(r.get("c"), Some(&3));
}

#[test]
fn many_keys_keep_apart() {
    let mut r = Registry::new();
    for i in 0..500u32 {
        assert_eq!(r.insert(format!("k{}", i), i), None);
    }
    for i in 0..500u32 {
        assert_eq!(r.insert(format!("k{}", i), i + 1000), Some(i));
    }
    for i in 0..500u32 {
        assert_eq!(r.get(&format!("k{}", i)), Some(&(i + 1000)));
    }
}
