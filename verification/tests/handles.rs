use sommelier::object::{Handle, HandleTable, HANDLE_STRIDE};

#[test]
fn alloc_returns_smallest_slot() {
    let mut t = HandleTable::new();
    let h0 = t.allocate(10);
    let h1 = t.allocate(11);
    let h2 = t.allocate(12);
    assert_eq!(h0.0, 4);
    assert_eq!(h1.0, 8);
    assert_eq!(h2.0, 12);
    // the freed middle slot is the smallest free one, so it is reused
    t.free(&Handle(8));
    let h = t.allocate(13);
    assert_eq!(h.0, 8);
    // with no gap left the next slot up is handed out
    let h = t.allocate(14);
    assert_eq!(h.0, 16);
}

#[test]
fn alloc_after_freeing_everything_starts_over() {
    let mut t = HandleTable::new();
    let first = t.allocate(1);
    let _ = t.allocate(2);
    let _ = t.allocate(3);
    t.free(&Handle(8));
    t.free(&Handle(4));
    t.free(&Handle(12));
    // the table is empty again: the next allocation returns the value
    // the very first one returned
    let h = t.allocate(4);
    assert_eq!(h.0, first.0);
    assert_eq!(h.0, HANDLE_STRIDE);
}

#[test]
fn interleaved_density() {
    let mut t = HandleTable::new();
    for i in 0..6usize {
        let h = t.allocate(i);
        assert_eq!(h.0, 4 * (i as u32 + 1));
    }
    t.free(&Handle(4));
    t.free(&Handle(20));
    t.free(&Handle(12));
    assert_eq!(t.allocate(90).0, 4);
    assert_eq!(t.allocate(91).0, 12);
    assert_eq!(t.allocate(92).0, 20);
    assert_eq!(t.allocate(93).0, 28);
}

#[test]
fn get_follows_slots() {
    let mut t = HandleTable::new();
    let h = t.allocate(77);
    assert_eq!(t.get(&h), Some(77));
    assert_eq!(t.get(&Handle(8)), None);
    t.free(&h);
    assert_eq!(t.get(&h), None);
}

#[test]
fn get_rejects_off_stride_values() {
    let mut t = HandleTable::new();
    let _ = t.allocate(5);
    // below the stride, zero, and off-stride values name no slot
    assert_eq!(t.get(&Handle(0)), None);
    assert_eq!(t.get(&Handle(1)), None);
    assert_eq!(t.get(&Handle(3)), None);
    assert_eq!(t.get(&Handle(5)), None);
    assert_eq!(t.get(&Handle(4)), Some(5));
}

#[test]
fn count_tracks_allocations() {
    let mut t = HandleTable::new();
    assert_eq!(t.count(), 0);
    let a = t.allocate(1);
    let _b = t.allocate(2);
    assert_eq!(t.count(), 2);
    t.free(&a);
    assert_eq!(t.count(), 1);
}
