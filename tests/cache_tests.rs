use devdocs_mcp::cache::DocCache;

#[test]
fn test_doc_cache() {
    let mut cache = DocCache::new();

    let result = cache.get("test_key");
    assert_eq!(result, None);

    cache.set("test_key".to_string(), "test_value".to_string());
    let result = cache.get("test_key");
    assert_eq!(result, Some("test_value".to_string()));

    cache.set("test_key".to_string(), "updated_value".to_string());
    let result = cache.get("test_key");
    assert_eq!(result, Some("updated_value".to_string()));
}

#[test]
fn test_cache_concurrent_access() {
    // The two writers' sets are interleaved one by one, as a shared lock would
    // serialise them.
    let mut cache = DocCache::new();
    for i in 0..10 {
        cache.set(format!("key{}", i), format!("value{}", i));
        cache.set(format!("key{}", i + 10), format!("value{}", i + 10));
    }
    for i in 0..20 {
        let result = cache.get(&format!("key{}", i));
        assert_eq!(result, Some(format!("value{}", i)));
    }
}

#[test]
fn test_cache_expiration() {
    let mut cache = DocCache::new();
    cache.set("expiration_test".to_string(), "test_value".to_string());
    let result = cache.get("expiration_test");
    assert_eq!(result, Some("test_value".to_string()));
}

#[test]
fn test_cache_consistency_during_concurrent_access() {
    let mut cache = DocCache::new();
    let test_key = "concurrent_test".to_string();
    cache.set(test_key.clone(), "Initial value".to_string());
    let read = cache.get(&test_key);
    assert!(read.is_some());
    cache.set(test_key.clone(), "Updated value".to_string());
    let result = cache.get(&test_key);
    assert!(
        result == Some("Initial value".to_string()) || result == Some("Updated value".to_string()),
        "Unexpected value: {:?}",
        result
    );
    assert_eq!(read, Some("Initial value".to_string()));
}

#[test]
fn disjoint_writes_in_either_order_are_both_visible() {
    let mut a = DocCache::new();
    a.set("k1".to_string(), "v1".to_string());
    a.set("k2".to_string(), "v2".to_string());
    let mut b = DocCache::new();
    b.set("k2".to_string(), "v2".to_string());
    b.set("k1".to_string(), "v1".to_string());
    for c in [&a, &b] {
        assert_eq!(c.get("k1"), Some("v1".to_string()));
        assert_eq!(c.get("k2"), Some("v2".to_string()));
        assert_eq!(c.get("k3"), None);
    }
}

#[test]
fn empty_key_and_value_are_kept() {
    let mut cache = DocCache::new();
    cache.set(String::new(), String::new());
    assert_eq!(cache.get(""), Some(String::new()));
}
