use phishvault::logger::{LogEntry, LogStore};

#[test]
fn entry_new_sets_fields() {
    let e = LogEntry::new("INFO", "hello");
    assert_eq!(e.level, "INFO");
    assert_eq!(e.message, "hello");
}

#[test]
fn entry_duplicate_copies_fields() {
    let e = LogEntry::new("WARN", "w");
    let d = e.duplicate();
    assert_eq!(d.level, "WARN");
    assert_eq!(d.message, "w");
}

#[test]
fn new_store_is_empty() {
    let store = LogStore::new();
    assert_eq!(store.len(), 0);
    assert!(store.visible(10).is_empty());
}

#[test]
fn visible_returns_last_min_entries_in_order() {
    let mut store = LogStore::new();
    for i in 0..5 {
        store.append(LogEntry::new("INFO", &format!("m{}", i)));
    }
    let v = store.visible(3);
    assert_eq!(v.len(), 3);
    assert_eq!(v[0].message, "m2");
    assert_eq!(v[1].message, "m3");
    assert_eq!(v[2].message, "m4");
}

#[test]
fn visible_with_large_n_returns_everything() {
    let mut store = LogStore::new();
    store.append(LogEntry::new("A", "first"));
    store.append(LogEntry::new("B", "second"));
    let v = store.visible(10);
    assert_eq!(v.len(), 2);
    assert_eq!(v[0].level, "A");
    assert_eq!(v[1].level, "B");
}

#[test]
fn visible_zero_is_empty() {
    let mut store = LogStore::new();
    store.append(LogEntry::new("A", "x"));
    assert!(store.visible(0).is_empty());
}

#[test]
fn display_window_truncates_to_ten() {
    let mut store = LogStore::new();
    for i in 0..25 {
        store.append(LogEntry::new("INFO", &format!("line{}", i)));
    }
    assert_eq!(store.len(), 25);
    let v = store.visible(10);
    assert_eq!(v.len(), 10);
    assert_eq!(v[0].message, "line15");
    assert_eq!(v[9].message, "line24");
}
