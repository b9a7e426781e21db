use duckex::Cache;

#[test]
fn capacity_is_a_hard_ceiling() {
    let mut cache: Cache<String> = Cache::with_capacity(2);
    let a = cache.store("a".to_string()).expect("first store fits");
    let b = cache.store("b".to_string()).expect("second store fits");
    assert_ne!(a, b);
    assert_eq!(cache.store("c".to_string()), None);
    cache.remove(a);
    assert!(cache.store("d".to_string()).is_some());
    assert_eq!(cache.store("e".to_string()), None);
}

#[test]
fn store_picks_lowest_free_index() {
    let mut cache: Cache<u8> = Cache::with_capacity(3);
    assert_eq!(cache.store(10), Some(0));
    assert_eq!(cache.store(20), Some(1));
    assert_eq!(cache.store(30), Some(2));
    cache.remove(1);
    assert_eq!(cache.store(40), Some(1));
}

#[test]
fn removed_handle_reports_not_found_and_may_be_reused() {
    let mut cache: Cache<String> = Cache::with_capacity(2);
    let h = cache.store("a".to_string()).unwrap();
    assert_eq!(cache.get_ref(h), Some(&"a".to_string()));
    cache.remove(h);
    assert_eq!(cache.get_ref(h), None);
    let again = cache.store("b".to_string()).unwrap();
    assert_eq!(again, h);
    assert_eq!(cache.get_ref(h), Some(&"b".to_string()));
}

#[test]
fn remove_out_of_range_is_a_no_op() {
    let mut cache: Cache<String> = Cache::with_capacity(1);
    cache.remove(17);
    assert_eq!(cache.get_ref(17), None);
    assert_eq!(cache.store("a".to_string()), Some(0));
}

#[test]
fn get_ref_on_never_allocated_slot_is_none() {
    let cache: Cache<String> = Cache::with_capacity(4);
    assert_eq!(cache.capacity(), 4);
    assert_eq!(cache.get_ref(0), None);
    assert_eq!(cache.get_ref(3), None);
}
