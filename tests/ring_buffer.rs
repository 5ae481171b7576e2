use tock_core::ring_buffer::RingBuffer;

#[test]
fn fifo_order_and_length() {
    let mut q = RingBuffer::new(vec![0u32; 4]);
    assert!(q.enqueue(1));
    assert!(q.enqueue(2));
    assert!(q.enqueue(3));
    assert_eq!(q.len(), 3);
    assert_eq!(q.dequeue(), Some(1));
    assert_eq!(q.len(), 2);
    assert!(q.enqueue(4));
    assert!(q.enqueue(5));
    assert_eq!(q.len(), 4);
    assert_eq!(q.dequeue(), Some(2));
    assert_eq!(q.dequeue(), Some(3));
    assert_eq!(q.dequeue(), Some(4));
    assert_eq!(q.dequeue(), Some(5));
    assert_eq!(q.dequeue(), None);
    assert_eq!(q.len(), 0);
}

#[test]
fn duplicates_are_kept() {
    let mut q = RingBuffer::new(vec![0u8; 3]);
    assert!(q.enqueue(7));
    assert!(q.enqueue(7));
    assert_eq!(q.dequeue(), Some(7));
    assert_eq!(q.dequeue(), Some(7));
    assert_eq!(q.dequeue(), None);
}

#[test]
fn full_queue_drops_new_element() {
    let mut q = RingBuffer::new(vec![0u8; 2]);
    assert!(q.enqueue(1));
    assert!(q.enqueue(2));
    assert!(q.is_full());
    assert!(!q.enqueue(3));
    assert_eq!(q.len(), 2);
    assert_eq!(q.get_capacity(), 2);
    assert_eq!(q.dequeue(), Some(1));
    assert_eq!(q.dequeue(), Some(2));
    assert_eq!(q.dequeue(), None);
}

#[test]
fn wraps_around_many_times() {
    let mut q = RingBuffer::new(vec![0u32; 3]);
    let mut next_in = 0u32;
    let mut next_out = 0u32;
    for round in 0..50u32 {
        let k = round % 3 + 1;
        for _ in 0..k {
            assert!(q.enqueue(next_in));
            next_in += 1;
        }
        for _ in 0..k {
            assert_eq!(q.dequeue(), Some(next_out));
            next_out += 1;
        }
        assert!(!q.has_elements());
    }
}

#[test]
fn has_elements_iff_nonempty() {
    let mut q = RingBuffer::new(vec![0u8; 1]);
    assert!(!q.has_elements());
    assert!(q.enqueue(9));
    assert!(q.has_elements());
    assert_eq!(q.dequeue(), Some(9));
    assert!(!q.has_elements());
}
