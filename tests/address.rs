use what_snap::address::get_url_for_snap_id;

#[test]
fn production_url_for_snap_id() {
    let l = get_url_for_snap_id(false, &"abc123".to_string()).ok().unwrap();
    assert_eq!(l.as_str(), "https://assertions.ubuntu.com/v1/assertions/snap-declaration/16/abc123");
    assert_eq!(l.url().as_str(), l.as_str());
}

#[test]
fn staging_url_for_snap_id() {
    let l = get_url_for_snap_id(true, &"abc123".to_string()).ok().unwrap();
    assert_eq!(l.as_str(), "https://assertions.staging.ubuntu.com/v1/assertions/snap-declaration/16/abc123");
}

#[test]
fn empty_snap_id_gives_declarations_address() {
    let l = get_url_for_snap_id(false, &String::new()).ok().unwrap();
    assert_eq!(l.as_str(), "https://assertions.ubuntu.com/v1/assertions/snap-declaration/16/");
}

#[test]
fn snap_id_follows_the_declarations_path() {
    let l = get_url_for_snap_id(false, &"a/b".to_string()).ok().unwrap();
    assert_eq!(l.as_str(), "https://assertions.ubuntu.com/v1/assertions/snap-declaration/16/a/b");
}

#[test]
fn staging_and_production_share_the_path() {
    let a = get_url_for_snap_id(true, &"Xy_9-z".to_string()).ok().unwrap();
    let b = get_url_for_snap_id(false, &"Xy_9-z".to_string()).ok().unwrap();
    assert_eq!(a.url().path(), b.url().path());
    assert_eq!(a.url().host_str(), Some("assertions.staging.ubuntu.com"));
    assert_eq!(b.url().host_str(), Some("assertions.ubuntu.com"));
    assert_eq!(a.url().scheme(), "https");
    assert_eq!(b.url().scheme(), "https");
}
