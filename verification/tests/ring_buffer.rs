use stop_clock::models::RingBuffer;

#[test]
fn test_ringbuffer_init() {
    let rbuf = RingBuffer::new(5, 123456789);
    assert_eq!(rbuf.len(), 1);
    assert_eq!(rbuf.get(0).id, 0);
    assert_eq!(rbuf.get(0).last_stop_ts, 123456789);
}

#[test]
fn test_ringbuffer_push() {
    let mut rbuf = RingBuffer::new(5, 123456789);
    assert_eq!(rbuf.len(), 1);
    assert_eq!(rbuf.get(0).id, 0);
    assert_eq!(rbuf.get(0).last_stop_ts, 123456789);
    rbuf.push(987654321);
    assert_eq!(rbuf.len(), 2);
    assert_eq!(rbuf.get(0).id, 0);
    assert_eq!(rbuf.get(0).last_stop_ts, 123456789);
    assert_eq!(rbuf.get(1).id, 1);
    assert_eq!(rbuf.get(1).last_stop_ts, 987654321);
}

#[test]
fn test_ringbuffer_last_item() {
    let rbuf = RingBuffer::new(5, 123456789);
    let last = rbuf.last_item();

    assert_eq!(rbuf.len(), 1);
    assert_eq!(last.id, 0);
    assert_eq!(last.last_stop_ts, 123456789);
}

#[test]
fn test_ringbuffer_deref() {
    let rbuf = RingBuffer::new(5, 123456789);
    let res = rbuf.snapshot();
    assert_eq!(res.len(), 1);
    assert_eq!(res[0].last_stop_ts, 123456789);
}

#[test]
fn test_ringbuffer_max_capacity() {
    let mut init_int: u64 = 987654321;
    let mut rbuf = RingBuffer::new(5, 123456789);
    for _i in 1..5 {
        rbuf.push(init_int);
        init_int += 1;
    }
    assert_eq!(rbuf.len(), 5);
    assert_eq!(rbuf.get(0).last_stop_ts, 123456789);
    assert_eq!(rbuf.get(1).last_stop_ts, 987654321);
    assert_eq!(rbuf.get(2).last_stop_ts, 987654322);
    assert_eq!(rbuf.get(3).last_stop_ts, 987654323);
    assert_eq!(rbuf.get(4).last_stop_ts, 987654324);
    rbuf.push(init_int);
    assert_eq!(rbuf.len(), 5);
    assert_eq!(rbuf.get(0).last_stop_ts, 987654321);
    assert_eq!(rbuf.get(1).last_stop_ts, 987654322);
    assert_eq!(rbuf.get(2).last_stop_ts, 987654323);
    assert_eq!(rbuf.get(3).last_stop_ts, 987654324);
    assert_eq!(rbuf.get(4).last_stop_ts, 987654325);

    init_int += 1;
    rbuf.push(init_int);
    init_int += 1;
    rbuf.push(init_int);
    assert_eq!(rbuf.len(), 5);
    assert_eq!(rbuf.get(0).last_stop_ts, 987654323);
    assert_eq!(rbuf.get(1).last_stop_ts, 987654324);
    assert_eq!(rbuf.get(2).last_stop_ts, 987654325);
    assert_eq!(rbuf.get(3).last_stop_ts, 987654326);
    assert_eq!(rbuf.get(4).last_stop_ts, 987654327);
}

#[test]
fn test_ringbuffer_seed_scenario() {
    let rbuf = RingBuffer::new(5, 123456789);
    let snap = rbuf.snapshot();
    assert_eq!(snap.len(), 1);
    assert_eq!(snap[0].id, 0);
    assert_eq!(snap[0].last_stop_ts, 123456789);
    let last = rbuf.last_item();
    assert_eq!(last.id, 0);
    assert_eq!(last.last_stop_ts, 123456789);
}

#[test]
fn test_ringbuffer_eviction_scenario() {
    let mut rbuf = RingBuffer::new(5, 123456789);
    rbuf.push(987654321);
    let snap = rbuf.snapshot();
    assert_eq!(snap.len(), 2);
    assert_eq!(snap[1].id, 1);
    assert_eq!(snap[1].last_stop_ts, 987654321);

    rbuf.push(987654322);
    rbuf.push(987654323);
    rbuf.push(987654324);
    let full = rbuf.snapshot();
    assert_eq!(full.len(), 5);
    for i in 0..5u64 {
        assert_eq!(full[i as usize].id, i);
    }
    assert_eq!(full[0].last_stop_ts, 123456789);

    rbuf.push(987654325);
    let evicted = rbuf.snapshot();
    assert_eq!(evicted.len(), 5);
    for i in 0..5u64 {
        assert_eq!(evicted[i as usize].id, i + 1);
        assert_eq!(evicted[i as usize].last_stop_ts, 987654321 + i);
    }
    assert_eq!(rbuf.last_item().id, 5);
    assert_eq!(rbuf.last_item().last_stop_ts, 987654325);
}

#[test]
fn test_ringbuffer_capacity_one() {
    let mut rbuf = RingBuffer::new(1, 11);
    assert_eq!(rbuf.len(), 1);
    rbuf.push(22);
    assert_eq!(rbuf.len(), 1);
    assert_eq!(rbuf.get(0).id, 1);
    assert_eq!(rbuf.get(0).last_stop_ts, 22);
    assert_eq!(rbuf.last_item().id, 1);
}
