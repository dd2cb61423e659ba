use flash::store::{PackageStore, RemoveOutcome};

#[test]
fn installed_then_removed_is_absent() {
    let mut store = PackageStore::new();
    store.add("tool".to_string());
    assert!(store.contains(&"tool".to_string()));
    let r = store.remove(&"tool".to_string());
    assert_eq!(r, RemoveOutcome::Removed);
    assert!(!store.contains(&"tool".to_string()));
    assert_eq!(store.count(), 0);
    assert!(store.names().is_empty());
}

#[test]
fn removing_an_absent_package_is_reported_not_fatal() {
    let mut store = PackageStore::new();
    store.add("other".to_string());
    let r = store.remove(&"tool".to_string());
    assert_eq!(r, RemoveOutcome::NotInstalled);
    assert!(store.contains(&"other".to_string()));
    assert_eq!(store.count(), 1);
}

#[test]
fn removing_leaves_the_other_packages() {
    let mut store = PackageStore::new();
    store.add("a".to_string());
    store.add("b".to_string());
    store.add("c".to_string());
    let r = store.remove(&"b".to_string());
    assert_eq!(r, RemoveOutcome::Removed);
    assert!(store.contains(&"a".to_string()));
    assert!(!store.contains(&"b".to_string()));
    assert!(store.contains(&"c".to_string()));
}

#[test]
fn from_names_reads_a_listing() {
    let names = vec!["a".to_string(), "b".to_string(), "a".to_string()];
    let store = PackageStore::from_names(&names);
    assert!(store.contains(&"a".to_string()));
    assert!(store.contains(&"b".to_string()));
    assert!(!store.contains(&"c".to_string()));
    assert_eq!(store.count(), 2);
}

#[test]
fn an_empty_listing_is_an_empty_store() {
    let store = PackageStore::from_names(&Vec::new());
    assert_eq!(store.count(), 0);
    assert!(!store.contains(&"tool".to_string()));
}
