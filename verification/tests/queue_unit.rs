use promisqs::ShmemQueue;

#[test]
fn test_push_and_pop() {
    let mut q: ShmemQueue<u32> = ShmemQueue::create("push_and_pop.map", 10).unwrap();
    assert!(q.push(&69).is_ok());
    assert_eq!(q.header().end, 1);
    assert_eq!(q.header().head, 0);
    assert_eq!(q.pop(), Some(69));
    assert_eq!(q.header().head, 1);
}

#[test]
fn test_pop_emtpy() {
    let mut q: ShmemQueue<u32> = ShmemQueue::create("pop_empty.map", 10).unwrap();
    assert!(q.pop().is_none());

    // Push an element and pop it and then try to pop the empty queue again.
    assert!(q.push(&69).is_ok());
    assert_eq!(q.pop(), Some(69));
    assert!(q.pop().is_none());
}

#[test]
fn test_push_full() {
    let mut q: ShmemQueue<u32> = ShmemQueue::create("push_full.map", 10).unwrap();
    for item in 0..10 {
        assert!(q.push(&item).is_ok());
    }
    assert!(q.push(&69).is_err());
}

// Test that the values are read back correctly when the write and read
// pointer wrap around to the start of the buffer
#[test]
fn test_buffer_wrapping() {
    let capacity = 10;
    let mut q = ShmemQueue::create("buffer_wrapping.map", capacity).unwrap();
    let v1 = [255_u8; 1024];
    for _ in 0..capacity {
        q.push(&v1).unwrap();
    }
    assert!(q.pop().is_some());
    let v2 = [133_u8; 1024];
    assert!(q.push(&v2).is_ok());
    for _ in 0..(capacity - 1) {
        assert_eq!(v1, q.pop().unwrap());
    }
    assert_eq!(v2, q.pop().unwrap());
}

#[test]
fn test_peek() {
    let capacity = 10;
    let mut q = ShmemQueue::create("peek.map", capacity).unwrap();
    let v1 = [255_u8; 1024];
    assert!(q.peek().is_none());
    q.push(&v1).unwrap();
    assert_eq!(q.header().head, 0);
    assert_eq!(q.peek(), Some(v1));
    assert_eq!(q.header().head, 0);
    assert_eq!(q.peek(), q.pop());
}
