use starblazers::ringbuffer::RingBuffer;

#[test]
fn test_ring_buffer_new() {
    let ring_buffer: RingBuffer<usize, 5> = RingBuffer::new();
    assert_eq!(ring_buffer.start, 0);
    assert_eq!(ring_buffer.end, 0);
    for elem in ring_buffer.buffer.iter() {
        assert!(elem.is_none());
    }
}

#[test]
fn test_ring_buffer_push() {
    let mut ring_buffer: RingBuffer<usize, 3> = RingBuffer::new();
    ring_buffer.push(1);
    assert_eq!(ring_buffer.buffer[0], Some(1));
    assert_eq!(ring_buffer.end, 1);
    assert_eq!(ring_buffer.start, 0);

    ring_buffer.push(2);
    assert_eq!(ring_buffer.buffer[1], Some(2));
    assert_eq!(ring_buffer.end, 2);
    assert_eq!(ring_buffer.start, 0);

    ring_buffer.push(3);
    assert_eq!(ring_buffer.buffer[2], Some(3));
    assert_eq!(ring_buffer.end, 0);
    assert_eq!(ring_buffer.start, 0);

    // Pushing another element should overwrite the oldest element
    ring_buffer.push(4);
    assert_eq!(ring_buffer.buffer[0], Some(4));
    assert_eq!(ring_buffer.end, 1);
    assert_eq!(ring_buffer.start, 1);

    ring_buffer.push(5);
    assert_eq!(ring_buffer.buffer[1], Some(5));
    assert_eq!(ring_buffer.end, 2);
    assert_eq!(ring_buffer.start, 2);

    ring_buffer.push(6);
    assert_eq!(ring_buffer.buffer[2], Some(6));
    assert_eq!(ring_buffer.end, 0);
    assert_eq!(ring_buffer.start, 0);
}

#[test]
fn test_ring_buffer_get_buffer() {
    let mut ring_buffer: RingBuffer<usize, 3> = RingBuffer::new();
    ring_buffer.push(1);
    ring_buffer.push(2);
    ring_buffer.push(3);

    let buffer = ring_buffer.get_buffer();
    assert_eq!(buffer, &vec![Some(1), Some(2), Some(3)]);

    ring_buffer.push(4);
    let buffer = ring_buffer.get_buffer();
    assert_eq!(buffer, &vec![Some(4), Some(2), Some(3)]);

    ring_buffer.push(5);
    let buffer = ring_buffer.get_buffer();
    assert_eq!(buffer, &vec![Some(4), Some(5), Some(3)]);

    ring_buffer.push(6);
    let buffer = ring_buffer.get_buffer();
    assert_eq!(buffer, &vec![Some(4), Some(5), Some(6)]);
}

#[test]
fn ringbuffer_test_ring_buffer_new() {
    let ring_buffer: RingBuffer<usize, 5> = RingBuffer::new();
    assert_eq!(ring_buffer.start, 0);
    assert_eq!(ring_buffer.end, 0);
    for elem in ring_buffer.buffer.iter() {
        assert!(elem.is_none());
    }
}

#[test]
fn ringbuffer_test_ring_buffer_push() {
    let mut ring_buffer: RingBuffer<usize, 3> = RingBuffer::new();
    ring_buffer.push(1);
    assert_eq!(ring_buffer.buffer[0], Some(1));
    assert_eq!(ring_buffer.end, 1);
    assert_eq!(ring_buffer.start, 0);

    ring_buffer.push(2);
    assert_eq!(ring_buffer.buffer[1], Some(2));
    assert_eq!(ring_buffer.end, 2);
    assert_eq!(ring_buffer.start, 0);

    ring_buffer.push(3);
    assert_eq!(ring_buffer.buffer[2], Some(3));
    assert_eq!(ring_buffer.end, 0);
    assert_eq!(ring_buffer.start, 0);

    // Pushing another element should overwrite the oldest element
    ring_buffer.push(4);
    assert_eq!(ring_buffer.buffer[0], Some(4));
    assert_eq!(ring_buffer.end, 1);
    assert_eq!(ring_buffer.start, 1);

    ring_buffer.push(5);
    assert_eq!(ring_buffer.buffer[1], Some(5));
    assert_eq!(ring_buffer.end, 2);
    assert_eq!(ring_buffer.start, 2);

    ring_buffer.push(6);
    assert_eq!(ring_buffer.buffer[2], Some(6));
    assert_eq!(ring_buffer.end, 0);
    assert_eq!(ring_buffer.start, 0);
}

#[test]
fn ring_buffer_is_full_from_capacity_onward() {
    let mut ring_buffer: RingBuffer<usize, 3> = RingBuffer::new();
    assert!(!ring_buffer.is_full());
    ring_buffer.push(1);
    assert!(!ring_buffer.is_full());
    ring_buffer.push(2);
    assert!(!ring_buffer.is_full());
    ring_buffer.push(3);
    assert!(ring_buffer.is_full());
    ring_buffer.push(4);
    assert!(ring_buffer.is_full());
}
