use party_screen::pool::SlotTable;

#[test]
fn pool_new_table_is_empty() {
    let t = SlotTable::new(4);
    assert_eq!(t.capacity_usize(), 4);
    assert_eq!(t.live_count(), 0);
    for i in 0..4 {
        assert!(!t.is_claimed(i));
    }
}

#[test]
fn pool_claim_hands_out_lowest_free_slot() {
    let mut t = SlotTable::new(4);
    assert_eq!(t.claim(), Some(0));
    assert_eq!(t.claim(), Some(1));
    t.release(0);
    assert_eq!(t.claim(), Some(0));
    assert_eq!(t.claim(), Some(2));
    assert_eq!(t.live_count(), 3);
}

#[test]
fn pool_exhausting_a_two_slot_table_rejects_the_third_claim() {
    let mut t = SlotTable::new(2);
    assert_eq!(t.claim(), Some(0));
    assert_eq!(t.claim(), Some(1));
    assert_eq!(t.live_count(), 2);
    assert_eq!(t.claim(), None);
    assert_eq!(t.live_count(), 2);
    t.release(1);
    assert_eq!(t.claim(), Some(1));
    assert_eq!(t.claim(), None);
}

#[test]
fn pool_live_count_never_exceeds_capacity() {
    let mut t = SlotTable::new(3);
    for _ in 0..10 {
        t.claim();
    }
    assert_eq!(t.live_count(), 3);
    assert!(t.live_count() <= t.capacity_usize());
}

#[test]
fn pool_claim_at_rejects_a_claimed_slot() {
    let mut t = SlotTable::new(8);
    assert!(t.claim_at(5));
    assert!(!t.claim_at(5));
    assert!(t.is_claimed(5));
    t.release(5);
    assert!(!t.is_claimed(5));
    assert!(t.claim_at(5));
}
