use reaper_core::pid_cache::PidCache;

#[test]
fn test_cache_keeps_latest_value() {
    let mut cache: PidCache<&str> = PidCache::new(3);
    assert_eq!(cache.len(), 0);
    assert_eq!(cache.get(1), None);
    cache.insert(1, "a");
    cache.insert(2, "b");
    cache.insert(1, "c");
    assert_eq!(cache.len(), 2);
    assert_eq!(cache.get(1), Some(&"c"));
    assert_eq!(cache.get(2), Some(&"b"));
    assert!(cache.contains(2));
    assert!(!cache.contains(3));
}

#[test]
fn test_cache_is_bounded() {
    let mut cache: PidCache<u32> = PidCache::new(2);
    cache.insert(1, 10);
    cache.insert(2, 20);
    // Writing process 1 again makes process 2 the one written longest ago.
    cache.insert(1, 11);
    cache.insert(3, 30);
    assert_eq!(cache.len(), 2);
    assert_eq!(cache.get(2), None);
    assert_eq!(cache.get(1), Some(&11));
    assert_eq!(cache.get(3), Some(&30));
    cache.insert(4, 40);
    assert_eq!(cache.get(1), None);
    assert_eq!(cache.len(), 2);
}

#[test]
fn test_cache_eviction() {
    let mut cache: PidCache<u32> = PidCache::new(4);
    cache.insert(1, 10);
    cache.insert(2, 20);
    assert_eq!(cache.remove(1), Some(10));
    assert_eq!(cache.remove(1), None);
    assert_eq!(cache.len(), 1);
    assert_eq!(cache.get(2), Some(&20));
}

#[test]
fn test_cache_has_room_for_one_at_least() {
    let mut cache: PidCache<u32> = PidCache::new(0);
    cache.insert(1, 10);
    assert_eq!(cache.get(1), Some(&10));
    cache.insert(2, 20);
    assert_eq!(cache.get(1), None);
    assert_eq!(cache.get(2), Some(&20));
    assert_eq!(cache.len(), 1);
}
