use fsevent_watch::error::{Error, ErrorKind};
use fsevent_watch::path::{reports, same_text};
use fsevent_watch::registry::PathRegistry;

fn sorted(mut v: Vec<String>) -> Vec<String> {
    v.sort();
    v
}

#[test]
fn same_text_is_equality() {
    assert!(same_text("", ""));
    assert!(same_text("/a/b", "/a/b"));
    assert!(!same_text("/a/b", "/a/c"));
    assert!(!same_text("/a/b", "/a/b/"));
    assert!(!same_text("/a", ""));
    assert!(same_text("/d\u{e9}p\u{f4}t", "/d\u{e9}p\u{f4}t"));
    assert!(!same_text("/d\u{e9}p\u{f4}t", "/depot"));
}

#[test]
fn recursive_watch_reports_the_subtree() {
    assert!(reports("/a/b", "/a/b", true));
    assert!(reports("/a/b", "/a/b/c", true));
    assert!(reports("/a/b", "/a/b/c/d/e", true));
    assert!(reports("/", "/a/b", true));
    assert!(reports("/a/", "/a/b/c", true));
    assert!(!reports("/a/b", "/a/bc", true));
    assert!(!reports("/a/b", "/a", true));
    assert!(!reports("/a/b", "/x/b/c", true));
    assert!(!reports("/a/b", "", true));
}

#[test]
fn flat_watch_reports_root_and_children() {
    assert!(reports("/a/b", "/a/b", false));
    assert!(reports("/a/b", "/a/b/c", false));
    assert!(reports("/a/b", "/a/b/", false));
    assert!(reports("/", "/a", false));
    assert!(reports("/a/", "/a/b", false));
    assert!(!reports("/a/b", "/a/b/c/d", false));
    assert!(!reports("/a/b", "/a/b/c/", false));
    assert!(!reports("/", "/a/b", false));
    assert!(!reports("/a/b", "/a/bc", false));
    assert!(!reports("/a/b", "/a", false));
}

#[test]
fn new_registry_is_empty() {
    let r = PathRegistry::new();
    assert_eq!(r.count(), 0);
    assert!(r.is_empty());
    assert_eq!(r.get("/a"), None);
    assert!(r.paths().is_empty());
    assert!(!r.covers("/a"));
    assert!(r.snapshot().is_empty());
}

#[test]
fn add_stores_the_canonical_path() {
    let mut r = PathRegistry::new();
    assert_eq!(r.add("a/../b", Some("/cwd/b".to_string()), true), Ok(()));
    assert_eq!(r.count(), 1);
    assert!(!r.is_empty());
    assert_eq!(r.get("/cwd/b"), Some(true));
    assert_eq!(r.get("a/../b"), None);
    assert_eq!(r.paths(), vec!["/cwd/b".to_string()]);
}

#[test]
fn add_of_a_missing_path_is_refused() {
    let mut r = PathRegistry::new();
    r.add("/a", Some("/a".to_string()), false).unwrap();
    let e = r.add("/nowhere", None, true).unwrap_err();
    assert_eq!(e, Error::path_not_found().add_path("/nowhere".to_string()));
    assert_eq!(e.kind, ErrorKind::PathNotFound);
    assert_eq!(e.paths, vec!["/nowhere".to_string()]);
    assert_eq!(r.count(), 1);
    assert_eq!(r.get("/a"), Some(false));
    assert_eq!(r.get("/nowhere"), None);
}

#[test]
fn add_twice_keeps_one_entry_and_the_last_depth() {
    let mut r = PathRegistry::new();
    r.add("/a", Some("/a".to_string()), true).unwrap();
    r.add("/b", Some("/b".to_string()), true).unwrap();
    r.add("/a", Some("/a".to_string()), false).unwrap();
    assert_eq!(r.count(), 2);
    assert_eq!(r.get("/a"), Some(false));
    assert_eq!(r.get("/b"), Some(true));
    assert_eq!(sorted(r.paths()), vec!["/a".to_string(), "/b".to_string()]);

    let mut once = PathRegistry::new();
    once.add("/b", Some("/b".to_string()), true).unwrap();
    once.add("/a", Some("/a".to_string()), false).unwrap();
    assert_eq!(sorted(once.paths()), sorted(r.paths()));
    assert_eq!(once.get("/a"), r.get("/a"));
    assert_eq!(once.get("/b"), r.get("/b"));
}

#[test]
fn registry_holds_exactly_what_was_added() {
    let names = ["/x", "/y/z", "/y", "/x", "/w"];
    let mut r = PathRegistry::new();
    for n in names {
        r.add(n, Some(n.to_string()), true).unwrap();
    }
    assert_eq!(r.count(), 4);
    assert_eq!(
        sorted(r.snapshot().paths()),
        vec!["/w".to_string(), "/x".to_string(), "/y".to_string(), "/y/z".to_string()]
    );
}

#[test]
fn remove_forgets_one_path() {
    let mut r = PathRegistry::new();
    r.add("/a", Some("/a".to_string()), true).unwrap();
    r.add("/b", Some("/b".to_string()), false).unwrap();
    r.add("/c", Some("/c".to_string()), true).unwrap();
    assert_eq!(r.remove("/b"), Ok(()));
    assert_eq!(r.count(), 2);
    assert_eq!(r.get("/b"), None);
    assert_eq!(r.get("/a"), Some(true));
    assert_eq!(r.get("/c"), Some(true));
    assert_eq!(r.remove("/a"), Ok(()));
    assert_eq!(r.remove("/c"), Ok(()));
    assert!(r.is_empty());
}

#[test]
fn remove_of_an_unknown_path_is_refused() {
    let mut r = PathRegistry::new();
    r.add("/a", Some("/a".to_string()), true).unwrap();
    let e = r.remove("/b").unwrap_err();
    assert_eq!(e.kind, ErrorKind::WatchNotFound);
    assert_eq!(e.paths, vec!["/b".to_string()]);
    assert_eq!(r.count(), 1);
    let e = r.remove("/a/").unwrap_err();
    assert_eq!(e, Error::watch_not_found().add_path("/a/".to_string()));
    assert_eq!(r.get("/a"), Some(true));
}

#[test]
fn snapshot_is_a_copy() {
    let mut r = PathRegistry::new();
    r.add("/a", Some("/a".to_string()), true).unwrap();
    r.add("/b", Some("/b".to_string()), false).unwrap();
    let s = r.snapshot();
    r.remove("/a").unwrap();
    r.add("/c", Some("/c".to_string()), true).unwrap();
    assert_eq!(s.count(), 2);
    assert_eq!(s.get("/a"), Some(true));
    assert_eq!(s.get("/b"), Some(false));
    assert_eq!(s.get("/c"), None);
}

#[test]
fn covers_goes_by_the_depth_of_each_root() {
    let mut r = PathRegistry::new();
    r.add("/deep", Some("/deep".to_string()), true).unwrap();
    r.add("/flat", Some("/flat".to_string()), false).unwrap();
    assert!(r.covers("/deep"));
    assert!(r.covers("/deep/a/b/c"));
    assert!(r.covers("/flat"));
    assert!(r.covers("/flat/a"));
    assert!(!r.covers("/flat/a/b"));
    assert!(!r.covers("/deeper"));
    assert!(!r.covers("/"));
    assert!(!r.covers("/other/deep"));
}

#[test]
fn error_builders() {
    assert_eq!(Error::new(ErrorKind::MaxFilesWatch).kind, ErrorKind::MaxFilesWatch);
    assert_eq!(Error::generic("no stream").kind, ErrorKind::Generic("no stream".to_string()));
    assert_eq!(Error::io("denied").kind, ErrorKind::Io("denied".to_string()));
    assert_eq!(Error::invalid_config().kind, ErrorKind::InvalidConfig);
    assert!(Error::generic("x").paths.is_empty());
    let e = Error::watch_not_found().add_path("/a".to_string()).add_path("/b".to_string());
    assert_eq!(e.paths, vec!["/a".to_string(), "/b".to_string()]);
    let e = e.set_paths(vec!["/c".to_string()]);
    assert_eq!(e.kind, ErrorKind::WatchNotFound);
    assert_eq!(e.paths, vec!["/c".to_string()]);
}
