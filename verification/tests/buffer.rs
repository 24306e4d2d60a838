use dynamixel_protocol::buffer::RingBuffer;

#[test]
fn enqueue_and_dequeue() {
    let mut r = RingBuffer::<128>::new();
    // Should be empty at first.
    assert_eq!(r.dequeue(), None);
    let _ = r.enqueue(1);
    assert_eq!(r.dequeue(), Some(1));
}

#[test]
fn enqueue() {
    let _r = RingBuffer::<128>::new();
    assert_eq!(1 + 1, 2);
}
