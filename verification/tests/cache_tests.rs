use ttl_cache::cache::Cache;

#[test]
fn ttl_returns_payload_while_live() {
    let mut c = Cache::new();
    c.set("k".to_string(), b"payload".to_vec(), 50, 100);
    assert_eq!(c.get("k", 100), Some(b"payload".to_vec()));
    assert_eq!(c.get("k", 149), Some(b"payload".to_vec()));
}

#[test]
fn ttl_absent_after_expiry() {
    let mut c = Cache::new();
    c.set("k".to_string(), b"payload".to_vec(), 50, 100);
    assert_eq!(c.get("k", 150), None);
    assert_eq!(c.get("k", 151), None);
}

#[test]
fn zero_ttl_is_expired_at_creation() {
    let mut c = Cache::new();
    c.set("k".to_string(), b"payload".to_vec(), 0, 100);
    assert_eq!(c.get("k", 100), None);
    assert_eq!(c.len(), 0);
}

#[test]
fn overwrite_replaces_payload_and_expiry() {
    let mut c = Cache::new();
    c.set("k".to_string(), b"first".to_vec(), 100, 0);
    c.set("k".to_string(), b"second".to_vec(), 30, 0);
    assert_eq!(c.get("k", 10), Some(b"second".to_vec()));
    // the expiry is governed by the second write: at tick 50 the first
    // time-to-live would still be running, but the entry is gone
    assert_eq!(c.get("k", 50), None);
}

#[test]
fn lazy_deletion_removes_expired_entry_on_read() {
    let mut c = Cache::new();
    c.set("k".to_string(), b"payload".to_vec(), 10, 0);
    assert_eq!(c.len(), 1);
    assert_eq!(c.get("k", 10), None);
    assert_eq!(c.len(), 0);
}

#[test]
fn get_leaves_live_entry_in_place() {
    let mut c = Cache::new();
    c.set("k".to_string(), b"payload".to_vec(), 10, 0);
    assert_eq!(c.get("k", 5), Some(b"payload".to_vec()));
    assert_eq!(c.len(), 1);
}

#[test]
fn delete_absent_key_is_silent() {
    let mut c = Cache::new();
    c.set("other".to_string(), b"x".to_vec(), 10, 0);
    c.remove("k");
    assert_eq!(c.len(), 1);
    assert_eq!(c.get("other", 5), Some(b"x".to_vec()));
}

#[test]
fn delete_removes_live_entry() {
    let mut c = Cache::new();
    c.set("k".to_string(), b"payload".to_vec(), 10, 0);
    c.remove("k");
    assert_eq!(c.get("k", 0), None);
    assert_eq!(c.len(), 0);
}

#[test]
fn sweep_removes_exactly_expired_entries() {
    let mut c = Cache::new();
    c.set("live_a".to_string(), b"a".to_vec(), 100, 0);
    c.set("dead_b".to_string(), b"b".to_vec(), 10, 0);
    c.set("dead_c".to_string(), b"c".to_vec(), 50, 0);
    c.set("live_d".to_string(), b"d".to_vec(), 60, 0);
    c.sweep(50);
    assert_eq!(c.len(), 2);
    assert_eq!(c.get("live_a", 50), Some(b"a".to_vec()));
    assert_eq!(c.get("live_d", 50), Some(b"d".to_vec()));
    assert_eq!(c.get("dead_b", 50), None);
    assert_eq!(c.get("dead_c", 50), None);
}

#[test]
fn sweep_result_independent_of_insert_order() {
    let mut c = Cache::new();
    c.set("live_d".to_string(), b"d".to_vec(), 60, 0);
    c.set("dead_c".to_string(), b"c".to_vec(), 50, 0);
    c.set("dead_b".to_string(), b"b".to_vec(), 10, 0);
    c.set("live_a".to_string(), b"a".to_vec(), 100, 0);
    c.sweep(50);
    assert_eq!(c.len(), 2);
    assert_eq!(c.get("live_a", 50), Some(b"a".to_vec()));
    assert_eq!(c.get("live_d", 50), Some(b"d".to_vec()));
}

#[test]
fn sweep_at_exact_expiry_removes_entry() {
    let mut c = Cache::new();
    c.set("k".to_string(), b"payload".to_vec(), 10, 0);
    c.sweep(10);
    assert_eq!(c.len(), 0);
}

#[test]
fn operations_on_distinct_keys_are_independent() {
    let mut c = Cache::new();
    c.set("a".to_string(), b"pa".to_vec(), 100, 0);
    c.set("b".to_string(), b"pb".to_vec(), 100, 0);
    c.set("c".to_string(), b"pc".to_vec(), 5, 0);
    c.remove("b");
    assert_eq!(c.get("c", 50), None); // lazily removed, expired
    c.set("a".to_string(), b"pa2".to_vec(), 100, 50);
    assert_eq!(c.get("a", 60), Some(b"pa2".to_vec()));
    assert_eq!(c.get("b", 60), None);
    assert_eq!(c.len(), 1);
}

#[test]
fn end_to_end_scenario() {
    // ticks are milliseconds here: store "hello" for two seconds, read it
    // back, advance the clock three seconds, find it gone, then delete.
    let mut c = Cache::new();
    let t0: u64 = 0;
    c.set("a".to_string(), b"hello".to_vec(), 2000, t0);
    assert_eq!(c.get("a", t0), Some(b"hello".to_vec()));
    let t1 = t0 + 3000;
    assert_eq!(c.get("a", t1), None);
    c.remove("a");
    assert_eq!(c.len(), 0);
    assert_eq!(c.get("a", t1), None);
}

#[test]
fn empty_payload_and_empty_key_are_stored() {
    let mut c = Cache::new();
    c.set(String::new(), Vec::new(), 10, 0);
    assert_eq!(c.get("", 5), Some(Vec::new()));
    c.set("k".to_string(), Vec::new(), 10, 0);
    assert_eq!(c.get("k", 5), Some(Vec::new()));
}

#[test]
fn largest_clock_values_are_handled() {
    let mut c = Cache::new();
    let now = u64::MAX - 10;
    c.set("k".to_string(), b"p".to_vec(), 10, now);
    assert_eq!(c.get("k", now), Some(b"p".to_vec()));
    assert_eq!(c.get("k", u64::MAX), None);
}
