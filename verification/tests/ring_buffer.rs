use ultra_sniper::ring_buffer::RingBuffer;

// ── capacity and overwrite ───────────────────────────────────────────────────

#[test]
fn push_within_capacity() {
    let mut rb: RingBuffer<i32, 3> = RingBuffer::new();
    rb.push(1);
    rb.push(2);
    rb.push(3);
    assert_eq!(rb.len(), 3);
    assert!(rb.is_full());
}

#[test]
fn fourth_push_overwrites_oldest() {
    let mut rb: RingBuffer<i32, 3> = RingBuffer::new();
    rb.push(1);
    rb.push(2);
    rb.push(3);
    rb.push(4); // 1 is overwritten
    assert_eq!(rb.len(), 3);
    assert_eq!(rb.get(0), Some(2)); // oldest is now 2
    assert_eq!(rb.get(1), Some(3));
    assert_eq!(rb.get(2), Some(4));
}

#[test]
fn latest_returns_most_recent() {
    let mut rb: RingBuffer<i32, 5> = RingBuffer::new();
    rb.push(10);
    rb.push(20);
    rb.push(30);
    assert_eq!(rb.latest(), Some(30));
}

#[test]
fn latest_on_empty_buffer_is_none() {
    let rb: RingBuffer<i32, 4> = RingBuffer::new();
    assert_eq!(rb.latest(), Option::<i32>::None);
}

#[test]
fn wrap_around_index_correctness() {
    let mut rb: RingBuffer<i32, 3> = RingBuffer::new();
    for i in 1..=6 {
        rb.push(i);
    }
    // After pushing 1..6 with size 3, buffer holds [4,5,6]
    assert_eq!(rb.get(0), Some(4));
    assert_eq!(rb.get(1), Some(5));
    assert_eq!(rb.get(2), Some(6));
}

#[test]
fn iter_order_oldest_to_newest() {
    let mut rb: RingBuffer<i32, 3> = RingBuffer::new();
    rb.push(7);
    rb.push(8);
    rb.push(9);
    rb.push(10); // overwrites 7
    let collected: Vec<i32> = rb.iter().into_iter().collect();
    assert_eq!(collected, vec![8, 9, 10]);
}

#[test]
fn push_and_len() {
    let mut rb: RingBuffer<i32, 3> = RingBuffer::new();
    rb.push(1); rb.push(2); rb.push(3);
    assert_eq!(rb.len(), 3);
    assert!(rb.is_full());
}

#[test]
fn overwrite_oldest() {
    let mut rb: RingBuffer<i32, 3> = RingBuffer::new();
    rb.push(1); rb.push(2); rb.push(3); rb.push(4);
    assert_eq!(rb.get(0), Some(2));
    assert_eq!(rb.get(1), Some(3));
    assert_eq!(rb.get(2), Some(4));
}

#[test]
fn latest_value() {
    let mut rb: RingBuffer<i32, 5> = RingBuffer::new();
    rb.push(10); rb.push(20); rb.push(30);
    assert_eq!(rb.latest(), Some(30));
}

#[test]
fn empty_latest_is_none() {
    let rb: RingBuffer<i32, 4> = RingBuffer::new();
    assert_eq!(rb.latest(), Option::<i32>::None);
}

#[test]
fn wrap_around_correctness() {
    let mut rb: RingBuffer<i32, 3> = RingBuffer::new();
    for i in 1..=6 { rb.push(i); }
    assert_eq!(rb.get(0), Some(4));
    assert_eq!(rb.get(1), Some(5));
    assert_eq!(rb.get(2), Some(6));
}

#[test]
fn iter_oldest_to_newest() {
    let mut rb: RingBuffer<i32, 3> = RingBuffer::new();
    rb.push(7); rb.push(8); rb.push(9); rb.push(10);
    let v: Vec<_> = rb.iter().into_iter().collect();
    assert_eq!(v, vec![8, 9, 10]);
}

// ── further cases ────────────────────────────────────────────────────────────

#[test]
fn new_buffer_is_empty_and_not_full() {
    let rb: RingBuffer<u64, 2> = RingBuffer::new();
    assert!(rb.is_empty());
    assert!(!rb.is_full());
    assert_eq!(rb.len(), 0);
    assert_eq!(rb.get(0), None);
    assert!(rb.iter().is_empty());
}

#[test]
fn get_past_len_is_none() {
    let mut rb: RingBuffer<i32, 4> = RingBuffer::new();
    rb.push(5);
    rb.push(6);
    assert_eq!(rb.get(1), Some(6));
    assert_eq!(rb.get(2), None);
    assert_eq!(rb.get(100), None);
}

#[test]
fn length_never_exceeds_capacity() {
    // Law: the buffer keeps at most N elements, the last N pushed.
    let mut rb: RingBuffer<usize, 50> = RingBuffer::new();
    for i in 0..10_000 {
        rb.push(i);
        assert!(rb.len() <= 50);
        assert_eq!(rb.latest(), Some(i));
    }
    assert_eq!(rb.len(), 50);
    let kept = rb.iter();
    assert_eq!(kept, (9_950..10_000).collect::<Vec<usize>>());
}

#[test]
fn capacity_one_keeps_only_latest() {
    let mut rb: RingBuffer<i32, 1> = RingBuffer::new();
    rb.push(1);
    rb.push(2);
    rb.push(3);
    assert_eq!(rb.len(), 1);
    assert!(rb.is_full());
    assert_eq!(rb.get(0), Some(3));
    assert_eq!(rb.latest(), Some(3));
}

#[test]
fn partially_filled_iter_in_push_order() {
    let mut rb: RingBuffer<char, 5> = RingBuffer::new();
    rb.push('a');
    rb.push('b');
    assert!(!rb.is_full());
    assert!(!rb.is_empty());
    assert_eq!(rb.iter(), vec!['a', 'b']);
    assert_eq!(rb.latest(), Some('b'));
}
