use sommelier::thread::{Tid, TidPool, TID_STRIDE};

#[test]
fn pool_hands_out_stride_multiples_from_zero() {
    let mut pool = TidPool::new();
    assert_eq!(pool.allocate().0, 0);
    assert_eq!(pool.allocate().0, 4);
    assert_eq!(pool.allocate().0, 8);
    assert_eq!(pool.allocate().0, 12);
    assert_eq!(TID_STRIDE, 4);
}

#[test]
fn pool_compacts_from_the_top() {
    let mut pool = TidPool::new();
    let _id0 = pool.allocate();
    let id4 = pool.allocate();
    let id8 = pool.allocate();
    let id12 = pool.allocate();
    assert_eq!((id4.0, id8.0, id12.0), (4, 8, 12));

    // freeing below the top parks the ids in the free list
    pool.free(&Tid(4));
    pool.free(&Tid(8));
    assert_eq!(pool.high_water(), 4);
    assert_eq!(pool.free_count(), 2);

    // freeing the topmost id compacts the whole contiguous run away
    pool.free(&Tid(12));
    assert_eq!(pool.high_water(), 1);
    assert_eq!(pool.free_count(), 0);

    // freeing the last id restores the exact pre-allocation state
    pool.free(&Tid(0));
    assert_eq!(pool.high_water(), 0);
    assert_eq!(pool.free_count(), 0);

    // and the next allocation starts from zero again
    assert_eq!(pool.allocate().0, 0);
}

#[test]
fn pool_reuses_lowest_free_id() {
    let mut pool = TidPool::new();
    let _ = pool.allocate();
    let _ = pool.allocate();
    let _ = pool.allocate();
    pool.free(&Tid(0));
    assert_eq!(pool.allocate().0, 0);
    pool.free(&Tid(4));
    pool.free(&Tid(0));
    assert_eq!(pool.allocate().0, 0);
    assert_eq!(pool.allocate().0, 4);
    assert_eq!(pool.allocate().0, 12);
}
