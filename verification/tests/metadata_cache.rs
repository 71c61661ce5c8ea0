//! The cache of file metadata.

use goosefs_sdk::clock::Duration;
use goosefs_sdk::error::Error;
use goosefs_sdk::file_info_cache::FileInfoCache;
use goosefs_sdk::proto::FileInfo;
use std::sync::Arc;

fn info_of_length(len: i64) -> FileInfo {
    FileInfo {
        length: Some(len),
        ..Default::default()
    }
}

#[test]
fn maybe_new_returns_none_when_disabled() {
    assert!(FileInfoCache::maybe_new(Duration::from_secs(0), 1024).is_none());
}

#[test]
fn maybe_new_clamps_capacity_to_one() {
    let mut cache = FileInfoCache::maybe_new(Duration::from_secs(1), 0)
        .expect("cache should be enabled with non-zero ttl");
    cache.insert("/a", info_of_length(1));
    cache.insert("/b", info_of_length(2)); // evicts /a (LRU cap = 1).
    assert!(cache.get("/a").is_none(), "LRU cap = 1 must evict older");
    assert!(cache.get("/b").is_some());
}

#[test]
fn hit_and_miss_counters_and_lookup_work() {
    let mut cache = FileInfoCache::maybe_new(Duration::from_secs(60), 128).unwrap();
    assert!(cache.get("/x").is_none()); // miss
    cache.insert("/x", info_of_length(42));
    let got = cache.get("/x").unwrap(); // hit
    assert_eq!(got.length, Some(42));

    let s = cache.stats();
    assert_eq!(s.hits, 1);
    assert_eq!(s.misses, 1);
    assert_eq!(s.expired, 0);
}

#[test]
fn invalidate_removes_entry_and_counts() {
    let mut cache = FileInfoCache::maybe_new(Duration::from_secs(60), 128).unwrap();
    cache.insert("/i", info_of_length(1));
    assert_eq!(cache.len(), 1);
    cache.invalidate("/i");
    assert_eq!(cache.len(), 0);
    assert_eq!(cache.stats().invalidations, 1);

    cache.invalidate("/i");
    assert_eq!(cache.stats().invalidations, 1);
}

#[test]
fn clear_drops_all_and_counts_as_invalidations() {
    let mut cache = FileInfoCache::maybe_new(Duration::from_secs(60), 128).unwrap();
    for i in 0..5 {
        cache.insert(&format!("/k{}", i), info_of_length(i as i64));
    }
    assert_eq!(cache.len(), 5);
    cache.clear();
    assert_eq!(cache.len(), 0);
    assert_eq!(cache.stats().invalidations, 5);
}

#[test]
fn get_updates_lru_recency() {
    let mut cache = FileInfoCache::maybe_new(Duration::from_secs(60), 2).unwrap();
    cache.insert("/a", info_of_length(1));
    cache.insert("/b", info_of_length(2));
    assert!(cache.get("/a").is_some(), "warm /a to bump recency");
    cache.insert("/c", info_of_length(3));
    assert!(cache.get("/a").is_some(), "/a must survive as MRU");
    assert!(cache.get("/b").is_none(), "/b must be evicted as LRU");
    assert!(cache.get("/c").is_some());
}

#[test]
fn insert_arc_shares_arc_identity_with_get() {
    let mut cache = FileInfoCache::maybe_new(Duration::from_secs(60), 128).unwrap();
    let original = Arc::new(info_of_length(99));
    cache.insert_arc("/shared", Arc::clone(&original));

    let got = cache.get("/shared").expect("hit");
    assert!(
        Arc::ptr_eq(&original, &got),
        "get must return the same Arc inserted via insert_arc"
    );
    assert_eq!(got.length, Some(99));
}

#[test]
fn ttl_expiry_evicts_and_counts() {
    let mut cache = FileInfoCache::maybe_new(Duration::from_millis(1), 128).unwrap();
    cache.insert_at("/e", Arc::new(info_of_length(7)), Duration::from_millis(10));
    assert!(
        cache.get_at("/e", Duration::from_millis(15)).is_none(),
        "expired entry must not be served"
    );
    let s = cache.stats();
    assert_eq!(s.expired, 1);
    assert_eq!(s.misses, 1);
    assert_eq!(cache.len(), 0, "expired entry must be evicted lazily");
}

#[test]
fn entry_counts_until_its_lifetime_is_over() {
    let mut cache = FileInfoCache::maybe_new(Duration::from_millis(10), 4).unwrap();
    cache.insert_at("/a", Arc::new(info_of_length(1)), Duration::from_millis(100));
    assert!(cache.get_at("/a", Duration::from_millis(109)).is_some());
    assert!(cache.get_at("/a", Duration::from_millis(111)).is_none());
    assert_eq!(cache.ttl(), Duration::from_millis(10));
}

#[test]
fn inserting_again_replaces_the_entry() {
    let mut cache = FileInfoCache::maybe_new(Duration::from_secs(60), 2).unwrap();
    cache.insert("/a", info_of_length(1));
    cache.insert("/a", info_of_length(2));
    assert_eq!(cache.len(), 1);
    assert_eq!(cache.get("/a").unwrap().length, Some(2));
}

#[test]
fn cache_never_holds_more_than_its_capacity() {
    let mut cache = FileInfoCache::maybe_new(Duration::from_secs(60), 3).unwrap();
    for i in 0..10 {
        cache.insert(&format!("/f{}", i), info_of_length(i));
        assert!(cache.len() <= 3);
    }
    assert!(cache.get("/f9").is_some());
    assert!(cache.get("/f6").is_none());
}

#[test]
fn deleted_and_renamed_paths_are_dropped() {
    let mut cache = FileInfoCache::maybe_new(Duration::from_secs(60), 8).unwrap();
    for path in ["/a", "/b", "/c", "/d"] {
        cache.insert(path, FileInfo::default());
    }
    assert!(cache.delete_done("/a", Ok(())).is_ok());
    assert!(cache.get("/a").is_none());
    let refused = Err(Error::NotFound {
        path: "/b".to_string(),
    });
    assert!(cache.delete_done("/b", refused).is_err());
    assert!(cache.get("/b").is_some());
    assert!(cache.rename_done("/b", "/c", Ok(())).is_ok());
    assert!(cache.get("/b").is_none());
    assert!(cache.get("/c").is_none());
    assert!(cache.get("/d").is_some());
    assert_eq!(cache.stats().invalidations, 3);
}
