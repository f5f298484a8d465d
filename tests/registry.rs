use single_flight::registry::{segment_index, WaiterSegment};

#[test]
fn segment_index_spreads_by_hash() {
    assert_eq!(segment_index(0, 64), 0);
    assert_eq!(segment_index(65, 64), 1);
    assert_eq!(segment_index(u64::MAX, 64), 63);
    assert_eq!(segment_index(12345, 1), 0);
}

#[test]
fn first_registration_wins() {
    let mut seg: WaiterSegment<(u64, u8), String> = WaiterSegment::new();
    assert_eq!(seg.insert_if_not_present((1, 0), "first".to_string()), None);
    assert_eq!(
        seg.insert_if_not_present((1, 0), "second".to_string()),
        Some("first".to_string())
    );
    // Still the first one after a losing attempt.
    assert_eq!(
        seg.insert_if_not_present((1, 0), "third".to_string()),
        Some("first".to_string())
    );
}

#[test]
fn call_shapes_do_not_share_slots() {
    let mut seg: WaiterSegment<(u64, u8), String> = WaiterSegment::new();
    assert_eq!(seg.insert_if_not_present((1, 0), "plain".to_string()), None);
    assert_eq!(seg.insert_if_not_present((1, 1), "fallible".to_string()), None);
    assert_eq!(
        seg.insert_if_not_present((1, 1), "x".to_string()),
        Some("fallible".to_string())
    );
}

#[test]
fn removal_lets_the_next_caller_own() {
    let mut seg: WaiterSegment<(u64, u8), String> = WaiterSegment::new();
    assert_eq!(seg.insert_if_not_present((7, 2), "owner".to_string()), None);
    seg.remove(&(7, 2));
    assert_eq!(seg.insert_if_not_present((7, 2), "next".to_string()), None);
    seg.remove(&(7, 2));
    seg.remove(&(7, 2));
    assert_eq!(seg.insert_if_not_present((7, 2), "again".to_string()), None);
}
