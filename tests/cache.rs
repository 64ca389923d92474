use what_snap::cache::{Cache, CacheError};
use what_snap::report::snap_line;

#[test]
fn unavailable_cache_finds_nothing() {
    let cache = Cache::unavailable();
    assert!(!cache.is_available());
    assert!(cache.find_entry_for_key(&"abc123".to_string()).is_none());
}

#[test]
fn unavailable_cache_refuses_to_store() {
    let cache = Cache::unavailable();
    let r = cache.place_entry_for_key(&"abc123".to_string());
    assert!(matches!(r, Err(CacheError::Unavailable)));
    assert_eq!(r.err().unwrap().message(), "No Cache Available");
}

#[test]
fn io_error_message_is_kept() {
    assert_eq!(CacheError::Io("disk full".to_string()).message(), "disk full");
}

#[test]
fn cache_is_available_exactly_when_lookup_succeeded() {
    assert!(!Cache::from_base_directories(None).is_available());
    let dirs = xdg::BaseDirectories::with_prefix("what-snap-tests").ok();
    let found = dirs.is_some();
    assert_eq!(Cache::from_base_directories(dirs).is_available(), found);
}

#[test]
fn snap_line_joins_id_and_name() {
    assert_eq!(snap_line("abc123", "hello-world"), "abc123: hello-world");
    assert_eq!(snap_line("", ""), ": ");
}
