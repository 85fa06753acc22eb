use transmission_rss::store::{seen, SeenStore, StoreError};

fn fresh_store() -> SeenStore {
    SeenStore::new(sled::Config::new().temporary(true).open().unwrap())
}

#[test]
fn test_sled() {
    let db = sled::Config::new().temporary(true).open().unwrap();
    db.insert("d70db7716583224da1684de8fa324822461917aa", b"").unwrap();
    let store = SeenStore::new(db);
    assert!(store.contains("d70db7716583224da1684de8fa324822461917aa"));
    assert!(!store.contains("0000000000000000000000000000000000000000"));
}

#[test]
fn new_store_is_empty_and_not_recovered() {
    let store = fresh_store();
    assert!(!store.was_recovered());
    assert!(!store.contains("abc"));
    assert_eq!(store.lookup("abc"), Ok(false));
}

#[test]
fn inserted_fingerprint_is_contained() {
    let mut store = fresh_store();
    assert_eq!(store.insert("abc"), Ok(true));
    assert!(store.contains("abc"));
    assert_eq!(store.lookup("abc"), Ok(true));
    assert!(!store.contains("ab"));
    assert!(!store.contains("abcd"));
    assert!(!store.contains("ABC"));
}

#[test]
fn insert_is_idempotent() {
    let mut store = fresh_store();
    assert_eq!(store.insert("abc"), Ok(true));
    assert_eq!(store.insert("abc"), Ok(false));
    assert_eq!(store.insert("abc"), Ok(false));
    assert!(store.contains("abc"));
    assert_eq!(store.insert("def"), Ok(true));
    assert!(store.contains("abc"));
    assert!(store.contains("def"));
}

#[test]
fn flush_succeeds_and_keeps_the_set() {
    let mut store = fresh_store();
    store.insert("abc").unwrap();
    assert_eq!(store.flush(), Ok(()));
    assert!(store.contains("abc"));
}

#[test]
fn store_outlasts_its_handle() {
    let path = "/tmp/transmission_rss_seen_store_test";
    drop(sled::Config::new().path(path).temporary(true).open().unwrap());
    {
        let mut store = SeenStore::new(sled::Config::new().path(path).open().unwrap());
        assert!(!store.was_recovered());
        store.insert("abc").unwrap();
        store.flush().unwrap();
    }
    {
        let db = sled::Config::new().path(path).temporary(true).open().unwrap();
        let store = SeenStore::new(db);
        assert!(store.was_recovered());
        assert!(store.contains("abc"));
        assert!(!store.contains("def"));
    }
}

#[test]
fn failed_lookup_counts_as_absent() {
    assert!(seen(&Ok(true)));
    assert!(!seen(&Ok(false)));
    assert!(!seen(&Err(StoreError { message: "io".to_string() })));
}

#[test]
fn empty_and_long_fingerprints_are_kept_too() {
    let mut store = fresh_store();
    assert_eq!(store.lookup(""), Ok(false));
    assert_eq!(store.insert(""), Ok(true));
    assert_eq!(store.insert(""), Ok(false));
    assert!(store.contains(""));
    let long = "f".repeat(100_000);
    assert_eq!(store.insert(&long), Ok(true));
    assert!(store.contains(&long));
    assert!(!store.contains(&long[1..]));
    assert_eq!(store.insert("日本語"), Ok(true));
    assert!(store.contains("日本語"));
    assert_eq!(store.flush(), Ok(()));
}

#[test]
fn many_fingerprints_are_kept() {
    let mut store = fresh_store();
    for n in 0..2000 {
        assert_eq!(store.insert(&format!("{:040x}", n * 7919)), Ok(true));
    }
    for n in 0..2000 {
        assert!(store.contains(&format!("{:040x}", n * 7919)));
        assert_eq!(store.insert(&format!("{:040x}", n * 7919)), Ok(false));
    }
    assert!(!store.contains(&format!("{:040x}", 1)));
}
