use lib::ring_buffer::{ByteRingBuffer, RING_BUFFER_CAPACITY};

#[test]
fn new_buffer_is_empty() {
    let mut b = ByteRingBuffer::new();
    assert!(b.is_empty());
    assert!(!b.is_full());
    assert_eq!(b.len(), 0);
    assert_eq!(b.dequeue_byte(), None);
    assert_eq!(b.pop_byte(), None);
}

#[test]
fn bytes_come_out_first_in_first_out() {
    let mut b = ByteRingBuffer::new();
    b.enqueue_byte(1);
    b.enqueue_byte(2);
    b.enqueue_byte(3);
    assert_eq!(b.len(), 3);
    assert_eq!(b.dequeue_byte(), Some(1));
    assert_eq!(b.dequeue_byte(), Some(2));
    assert_eq!(b.dequeue_byte(), Some(3));
    assert_eq!(b.dequeue_byte(), None);
}

#[test]
fn pop_takes_back_the_last_byte() {
    let mut b = ByteRingBuffer::new();
    b.enqueue_byte(7);
    b.enqueue_byte(8);
    assert_eq!(b.pop_byte(), Some(8));
    assert_eq!(b.len(), 1);
    assert_eq!(b.dequeue_byte(), Some(7));
    assert!(b.is_empty());
}

#[test]
fn full_buffer_refuses_bytes() {
    let mut b = ByteRingBuffer::new();
    for i in 0..RING_BUFFER_CAPACITY {
        b.enqueue_byte((i % 251) as u8);
    }
    assert!(b.is_full());
    b.enqueue_byte(255);
    assert_eq!(b.len(), RING_BUFFER_CAPACITY);
    assert_eq!(b.pop_byte(), Some(((RING_BUFFER_CAPACITY - 1) % 251) as u8));
    assert_eq!(b.dequeue_byte(), Some(0));
}

#[test]
fn order_survives_wrap_around() {
    let mut b = ByteRingBuffer::new();
    for round in 0..3 * RING_BUFFER_CAPACITY {
        b.enqueue_byte((round % 256) as u8);
        b.enqueue_byte(((round + 1) % 256) as u8);
        assert_eq!(b.dequeue_byte(), Some((round % 256) as u8));
        assert_eq!(b.dequeue_byte(), Some(((round + 1) % 256) as u8));
    }
    assert!(b.is_empty());
    b.enqueue_byte(9);
    b.enqueue_byte(10);
    assert_eq!(b.pop_byte(), Some(10));
    assert_eq!(b.pop_byte(), Some(9));
}

#[test]
fn clear_empties() {
    let mut b = ByteRingBuffer::new();
    b.enqueue_byte(1);
    b.clear();
    assert!(b.is_empty());
    assert_eq!(b.dequeue_byte(), None);
}
