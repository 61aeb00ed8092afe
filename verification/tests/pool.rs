use lisca::pool::{ModelPool, PoolConfig};

#[test]
fn insert_evicts_least_recently_used() {
    let mut pool: ModelPool<u32> = ModelPool::new(2, None);
    assert!(pool.insert("a".to_string(), 1, 10).is_empty());
    assert!(pool.insert("b".to_string(), 2, 20).is_empty());
    assert!(pool.touch("a", 30));
    let evicted = pool.insert("c".to_string(), 3, 40);
    assert_eq!(evicted, vec!["b".to_string()]);
    assert_eq!(pool.keys(), vec!["a".to_string(), "c".to_string()]);
    assert_eq!(pool.len(), 2);
    assert_eq!(pool.get("b"), None);
    assert_eq!(pool.get("c"), Some(&3));
}

#[test]
fn insert_same_key_replaces() {
    let mut pool: ModelPool<u32> = ModelPool::new(2, None);
    pool.insert("a".to_string(), 1, 10);
    pool.insert("b".to_string(), 2, 20);
    assert!(pool.insert("a".to_string(), 5, 30).is_empty());
    assert_eq!(pool.keys(), vec!["b".to_string(), "a".to_string()]);
    assert_eq!(pool.get("a"), Some(&5));
}

#[test]
fn touch_missing_key_is_a_miss() {
    let mut pool: ModelPool<u32> = ModelPool::new(1, None);
    assert!(!pool.touch("x", 5));
    assert_eq!(pool.len(), 0);
}

#[test]
fn make_room_frees_one_slot() {
    let mut pool: ModelPool<u32> = ModelPool::new(2, None);
    pool.insert("a".to_string(), 1, 0);
    pool.insert("b".to_string(), 2, 0);
    assert_eq!(pool.make_room(), vec!["a".to_string()]);
    assert_eq!(pool.len(), 1);
    assert!(pool.make_room().is_empty());
}

#[test]
fn evict_expired_keeps_recent_models() {
    let mut pool: ModelPool<u32> = ModelPool::new(3, Some(1000));
    pool.insert("old".to_string(), 1, 0);
    pool.insert("new".to_string(), 2, 1500);
    let evicted = pool.evict_expired(2000);
    assert_eq!(evicted, vec!["old".to_string()]);
    assert_eq!(pool.keys(), vec!["new".to_string()]);
}

#[test]
fn no_timeout_never_evicts() {
    let mut pool: ModelPool<u32> = ModelPool::new(3, None);
    pool.insert("a".to_string(), 1, 0);
    assert!(pool.evict_expired(u64::MAX).is_empty());
    assert_eq!(pool.len(), 1);
    assert_eq!(pool.idle_timeout_secs(), 0);
}

#[test]
fn config_in_seconds() {
    assert_eq!(PoolConfig::default_config().idle_timeout_secs, 300);
    let pool: ModelPool<u32> = ModelPool::new(2, None)
        .with_config(PoolConfig { idle_timeout_secs: 60 }, "pool.json".to_string());
    assert_eq!(pool.idle_timeout_secs(), 60);
    assert_eq!(pool.config_path(), Some(&"pool.json".to_string()));
    assert_eq!(pool.max_size(), 2);
    let mut pool = pool;
    assert_eq!(pool.set_idle_timeout(Some(120_500)), PoolConfig { idle_timeout_secs: 120 });
    assert_eq!(pool.set_idle_timeout(None), PoolConfig { idle_timeout_secs: 0 });
}
