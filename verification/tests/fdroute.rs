use sommelier::fd::{FdPair, PendingFds};

fn pair(n: i32) -> FdPair {
    FdPair { client: n, server: 100 + n }
}

#[test]
fn fd_tag_routing_burst() {
    // a burst tagged [0, 2, 0, 2, 2]: the consumer of each tag gets
    // exactly its descriptors, in the order they were sent
    let mut q = PendingFds::new();
    q.push(0, pair(1));
    q.push(2, pair(2));
    q.push(0, pair(3));
    q.push(2, pair(4));
    q.push(2, pair(5));

    assert_eq!(q.take(2), Some(pair(2)));
    assert_eq!(q.take(2), Some(pair(4)));
    assert_eq!(q.take(2), Some(pair(5)));
    assert_eq!(q.take(2), None);

    assert_eq!(q.take(0), Some(pair(1)));
    assert_eq!(q.take(0), Some(pair(3)));
    assert_eq!(q.take(0), None);
}

#[test]
fn route_delivers_tag_zero_immediately() {
    let mut q = PendingFds::new();
    assert_eq!(q.route(5, 0, pair(9)), Some(pair(9)));
    // nothing was queued along the way
    assert_eq!(q.take(0), None);
    assert_eq!(q.take(5), None);
}

#[test]
fn route_queues_other_tags() {
    let mut q = PendingFds::new();
    assert_eq!(q.route(5, 9, pair(1)), None);
    assert_eq!(q.route(5, 9, pair(2)), None);
    assert_eq!(q.take(9), Some(pair(1)));
    assert_eq!(q.take(9), Some(pair(2)));
    assert_eq!(q.take(9), None);
}

#[test]
fn route_own_tag_drains_oldest_first() {
    let mut q = PendingFds::new();
    q.push(5, pair(1));
    // the arrival completes a pair for the waiting tag, but the older
    // queued descriptor is handed out first
    assert_eq!(q.route(5, 5, pair(2)), Some(pair(1)));
    assert_eq!(q.take(5), Some(pair(2)));
    assert_eq!(q.take(5), None);
}

#[test]
fn interleaved_tags_stay_independent() {
    let mut q = PendingFds::new();
    for i in 0..4 {
        q.push(1, pair(10 + i));
        q.push(3, pair(30 + i));
    }
    for i in 0..4 {
        assert_eq!(q.take(3), Some(pair(30 + i)));
        assert_eq!(q.take(1), Some(pair(10 + i)));
    }
    assert_eq!(q.take(1), None);
    assert_eq!(q.take(3), None);
}
