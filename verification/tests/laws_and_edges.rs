use std::collections::VecDeque;

use promisqs::{PromisqsError, QueueElement, QueueHeader, ShmemQueue};
use promisqs::header::{must_retry, slot_offset, PopStep, PushStep};

#[test]
fn fifo_order_is_kept() {
    let mut q: ShmemQueue<u64> = ShmemQueue::create("fifo.map", 5).unwrap();
    for x in [10u64, 20, 30, 40, 50] {
        q.push(&x).unwrap();
    }
    let mut out = Vec::new();
    while let Some(x) = q.pop() {
        out.push(x);
    }
    assert_eq!(out, vec![10, 20, 30, 40, 50]);
}

#[test]
fn push_then_pop_on_empty_gives_the_element_back() {
    let mut q: ShmemQueue<u16> = ShmemQueue::create("roundtrip.map", 3).unwrap();
    q.push(&0xBEEF).unwrap();
    assert_eq!(q.peek(), Some(0xBEEF));
    assert_eq!(q.pop(), Some(0xBEEF));
    assert!(q.is_empty());
    assert_eq!(q.header().head, 1);
    assert_eq!(q.header().end, 1);
}

#[test]
fn push_and_pop_commute_on_a_partial_queue() {
    let mut a: ShmemQueue<u8> = ShmemQueue::create("a.map", 4).unwrap();
    let mut b: ShmemQueue<u8> = ShmemQueue::create("b.map", 4).unwrap();
    for x in [1u8, 2] {
        a.push(&x).unwrap();
        b.push(&x).unwrap();
    }
    a.push(&3).unwrap();
    let fa = a.pop();
    let fb = b.pop();
    b.push(&3).unwrap();
    assert_eq!(fa, Some(1));
    assert_eq!(fa, fb);
    let mut ra = Vec::new();
    while let Some(x) = a.pop() {
        ra.push(x);
    }
    let mut rb = Vec::new();
    while let Some(x) = b.pop() {
        rb.push(x);
    }
    assert_eq!(ra, vec![2, 3]);
    assert_eq!(ra, rb);
}

#[test]
fn many_wraps_agree_with_a_deque() {
    let cap = 7usize;
    let mut q: ShmemQueue<u32> = ShmemQueue::create("wraps.map", cap).unwrap();
    let mut model: VecDeque<u32> = VecDeque::new();
    let mut next = 0u32;
    for round in 0..200u32 {
        let pushes = (round % 5) as usize;
        for _ in 0..pushes {
            let r = q.push(&next);
            if model.len() == cap {
                assert_eq!(r, Err(PromisqsError::QueueFull));
            } else {
                assert_eq!(r, Ok(()));
                model.push_back(next);
            }
            next += 1;
        }
        let pops = (round % 3) as usize;
        for _ in 0..pops {
            assert_eq!(q.peek(), model.front().copied());
            assert_eq!(q.pop(), model.pop_front());
        }
        assert_eq!(q.len(), model.len());
        assert!(q.len() <= q.capacity());
    }
}

#[test]
fn len_capacity_full_and_empty() {
    let mut q: ShmemQueue<u32> = ShmemQueue::create("len.map", 2).unwrap();
    assert_eq!(q.len(), 0);
    assert_eq!(q.capacity(), 2);
    assert!(q.is_empty());
    assert!(!q.is_full());
    q.push(&1).unwrap();
    assert_eq!(q.len(), 1);
    assert!(!q.is_empty());
    assert!(!q.is_full());
    q.push(&2).unwrap();
    assert!(q.is_full());
    assert_eq!(q.push(&3), Err(PromisqsError::QueueFull));
    assert_eq!(q.len(), 2);
}

#[test]
fn zero_capacity_queue_is_always_full_and_empty() {
    let mut q: ShmemQueue<u32> = ShmemQueue::create("zero.map", 0).unwrap();
    assert!(q.is_full());
    assert!(q.is_empty());
    assert_eq!(q.try_push(&1), Err(PromisqsError::QueueFull));
    assert_eq!(q.try_pop(), Ok(None));
    assert_eq!(q.try_peek(), Ok(None));
}

#[test]
fn non_blocking_operations() {
    let mut q: ShmemQueue<u32> = ShmemQueue::create("try.map", 1).unwrap();
    assert_eq!(q.try_peek(), Ok(None));
    assert_eq!(q.try_push(&7), Ok(()));
    assert_eq!(q.try_push(&8), Err(PromisqsError::QueueFull));
    assert_eq!(q.try_peek(), Ok(Some(7)));
    assert_eq!(q.try_pop(), Ok(Some(7)));
    assert_eq!(q.try_pop(), Ok(None));
    assert!(!q.header().lock);
}

#[test]
fn next_pops_in_order() {
    let mut q: ShmemQueue<u8> = ShmemQueue::create("next.map", 3).unwrap();
    q.push(&4).unwrap();
    q.push(&5).unwrap();
    assert_eq!(q.next(), Some(4));
    assert_eq!(q.next(), Some(5));
    assert_eq!(q.next(), None);
}

#[test]
fn create_records_name_and_header() {
    let q: ShmemQueue<[u8; 16]> = ShmemQueue::create("named.map", 4).unwrap();
    assert_eq!(q.flink(), "named.map");
    let h = q.header();
    assert!(h.is_init);
    assert!(!h.lock);
    assert_eq!(h.ref_cnt, 1);
    assert_eq!(h.element_size, 16);
    assert_eq!(h.capacity, 4);
    assert_eq!((h.head, h.end), (0, 0));
}

#[test]
fn element_codecs() {
    assert_eq!(u8::size(), 1);
    assert_eq!(0xABu8.to_bytes(), vec![0xAB]);
    assert_eq!(u8::from_bytes(&[0x12]), 0x12);
    assert_eq!(u16::size(), 2);
    assert_eq!(0x1234u16.to_bytes(), 0x1234u16.to_ne_bytes().to_vec());
    assert_eq!(u16::from_bytes(&0x1234u16.to_ne_bytes()), 0x1234);
    assert_eq!(u32::size(), 4);
    assert_eq!(0x0102_0304u32.to_bytes(), 0x0102_0304u32.to_ne_bytes().to_vec());
    assert_eq!(u32::from_bytes(&0x0102_0304u32.to_ne_bytes()), 0x0102_0304);
    assert_eq!(u64::size(), 8);
    let big = 0x0102_0304_0506_0708u64;
    assert_eq!(big.to_bytes(), big.to_ne_bytes().to_vec());
    assert_eq!(u64::from_bytes(&big.to_ne_bytes()), big);
    assert_eq!(<[u8; 3]>::size(), 3);
    assert_eq!([9u8, 8, 7].to_bytes(), vec![9, 8, 7]);
    assert_eq!(<[u8; 3]>::from_bytes(&[1, 2, 3]), [1, 2, 3]);
    for x in [0u32, 1, 0xFFFF_FFFF, 0x8000_0001] {
        assert_eq!(u32::from_bytes(&x.to_bytes()), x);
    }
}

fn header(is_init: bool, ref_cnt: u64, element_size: usize) -> QueueHeader {
    QueueHeader { is_init, lock: false, ref_cnt, element_size, capacity: 10, head: 0, end: 0 }
}

#[test]
fn attach_refuses_an_uninitialized_segment() {
    let mut h = header(false, 0, 4);
    assert_eq!(h.attach(4), Err(PromisqsError::BufferNotInitialized));
    assert_eq!(h, header(false, 0, 4));
}

#[test]
fn attach_refuses_another_element_size_without_counting() {
    let mut h = header(true, 1, 4);
    assert_eq!(h.attach(8), Err(PromisqsError::ElementSizeMismatch));
    assert_eq!(h, header(true, 1, 4));
}

#[test]
fn attach_then_release_restores_the_count() {
    let mut h = header(true, 1, 4);
    assert_eq!(h.attach(4), Ok(()));
    assert_eq!(h.ref_cnt, 2);
    assert!(!h.release());
    assert_eq!(h, header(true, 1, 4));
    assert!(h.release());
    assert_eq!(h.ref_cnt, 0);
}

#[test]
fn reference_count_wraps() {
    let mut h = header(true, u64::MAX, 4);
    h.retain();
    assert_eq!(h.ref_cnt, 0);
    assert!(!h.release());
    assert_eq!(h.ref_cnt, u64::MAX);
}

#[test]
fn lock_is_exclusive() {
    let mut h = QueueHeader::new(4, 10);
    assert_eq!(h.try_lock(), Ok(()));
    assert!(h.lock);
    assert_eq!(h.try_lock(), Err(PromisqsError::WouldBlock));
    h.unlock();
    assert_eq!(h, QueueHeader::new(4, 10));
}

#[test]
fn steps_wrap_around_the_capacity() {
    let mut h = QueueHeader::new(4, 10);
    h.head = 8;
    h.end = 13;
    assert_eq!(h.len(), 5);
    assert_eq!(h.push_step(true), PushStep::Write { offset: 12, end: 14 });
    assert_eq!(h.pop_step(true), PopStep::Read { offset: 32, head: 9 });
    assert_eq!(h.push_step(false), PushStep::Blocked);
    assert_eq!(h.pop_step(false), PopStep::Blocked);
    h.end = 18;
    assert!(h.is_full());
    assert_eq!(h.push_step(true), PushStep::Full);
    h.head = 18;
    assert!(h.is_empty());
    assert_eq!(h.pop_step(true), PopStep::Empty);
    assert_eq!(slot_offset(3, 1024), 3072);
}

#[test]
fn step_outcomes_and_retries() {
    assert_eq!(PushStep::Blocked.outcome(), Err(PromisqsError::WouldBlock));
    assert_eq!(PushStep::Full.outcome(), Err(PromisqsError::QueueFull));
    assert_eq!(PushStep::Write { offset: 0, end: 1 }.outcome(), Ok(()));
    assert!(must_retry(PromisqsError::WouldBlock));
    assert!(!must_retry(PromisqsError::QueueFull));
    assert!(!must_retry(PromisqsError::ElementSizeMismatch));
}

#[test]
fn create_counts_one_live_handle() {
    let q: ShmemQueue<u32> = ShmemQueue::create("one_handle.map", 10).unwrap();
    assert_eq!(q.header().ref_cnt, 1);
    assert_eq!(q.capacity(), 10);
    assert_eq!(q.len(), 0);
    assert!(q.is_empty());
    assert_eq!(q.header().element_size, 4);
}

#[test]
fn more_element_codecs() {
    assert_eq!((-2i8).to_bytes(), vec![0xFE]);
    assert_eq!(i8::from_bytes(&[0x80]), i8::MIN);
    assert_eq!((-2i16).to_bytes(), (-2i16).to_ne_bytes().to_vec());
    assert_eq!(i16::from_bytes(&(-300i16).to_ne_bytes()), -300);
    assert_eq!((-2i32).to_bytes(), (-2i32).to_ne_bytes().to_vec());
    assert_eq!(i32::from_bytes(&i32::MIN.to_ne_bytes()), i32::MIN);
    assert_eq!((-2i64).to_bytes(), (-2i64).to_ne_bytes().to_vec());
    assert_eq!(i64::from_bytes(&(-5i64).to_ne_bytes()), -5);
    assert_eq!(i128::size(), 16);
    assert_eq!((-2i128).to_bytes(), (-2i128).to_ne_bytes().to_vec());
    assert_eq!(i128::from_bytes(&(-7i128).to_ne_bytes()), -7);
    assert_eq!(u128::size(), 16);
    assert_eq!(u128::MAX.to_bytes(), u128::MAX.to_ne_bytes().to_vec());
    assert_eq!(u128::from_bytes(&12345u128.to_ne_bytes()), 12345);
    assert_eq!(usize::size(), std::mem::size_of::<usize>());
    assert_eq!(77usize.to_bytes(), 77usize.to_ne_bytes().to_vec());
    assert_eq!(usize::from_bytes(&usize::MAX.to_ne_bytes()), usize::MAX);
    assert_eq!(isize::size(), std::mem::size_of::<isize>());
    assert_eq!((-9isize).to_bytes(), (-9isize).to_ne_bytes().to_vec());
    assert_eq!(isize::from_bytes(&isize::MIN.to_ne_bytes()), isize::MIN);
    let mut q: ShmemQueue<i64> = ShmemQueue::create("signed.map", 2).unwrap();
    q.push(&-1).unwrap();
    q.push(&i64::MIN).unwrap();
    assert_eq!(q.pop(), Some(-1));
    assert_eq!(q.pop(), Some(i64::MIN));
}
