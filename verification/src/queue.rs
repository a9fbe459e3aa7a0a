use vstd::prelude::*;
use vstd::slice::slice_subrange;
use crate::element::QueueElement;
use crate::error::{PromisqsError, PromisqsResult};
use crate::header::{must_retry, PopStep, PushStep, QueueHeader};
use crate::ring::{lemma_mod_distinct, lemma_slot_in_region, lemma_write_slot, slot_bytes, written};

verus! {

/// What a queue holds, as a mathematical value.
///
/// `head` is the number of elements popped so far, `items` the queued
/// elements from oldest to newest, and `capacity` the number of slots.
pub struct QueueState<T> {
    pub head: nat,
    pub items: Seq<T>,
    pub capacity: nat,
}

impl<T> QueueState<T> {
    /// A queue with `capacity` slots that never held an element.
    pub open spec fn empty(capacity: nat) -> QueueState<T> {
        QueueState { head: 0, items: Seq::empty(), capacity }
    }

    /// The number of elements pushed so far.
    pub open spec fn pushed(self) -> nat {
        self.head + self.items.len()
    }

    /// The number of queued elements.
    pub open spec fn len(self) -> nat {
        self.items.len()
    }

    /// Whether every slot holds an element.
    pub open spec fn is_full(self) -> bool {
        self.items.len() == self.capacity
    }

    /// Whether no element is queued.
    pub open spec fn is_empty(self) -> bool {
        self.items.len() == 0
    }

    /// The queue after a push of `x`: `x` joins the back unless the queue is full.
    pub open spec fn push(self, x: T) -> QueueState<T> {
        if self.is_full() {
            self
        } else {
            QueueState { items: self.items.push(x), ..self }
        }
    }

    /// The oldest element, if any.
    pub open spec fn front(self) -> Option<T> {
        if self.is_empty() {
            None
        } else {
            Some(self.items[0])
        }
    }

    /// The queue after a pop: the oldest element leaves unless the queue is empty.
    pub open spec fn pop(self) -> QueueState<T> {
        if self.is_empty() {
            self
        } else {
            QueueState { head: self.head + 1, items: self.items.drop_first(), capacity: self.capacity }
        }
    }
}

/// A queue of `T` over a segment laid out as a shared memory queue: a
/// [`QueueHeader`] and a data region of `capacity` slots of `T::size()` bytes.
///
/// The segment is held by the queue itself; `flink` names the segment.
pub struct ShmemQueue<T: QueueElement> {
    marker: core::marker::PhantomData<T>,
    flink: String,
    data_size: u64,
    header: QueueHeader,
    data: Vec<u8>,
    element_size: usize,
}

impl<T: QueueElement> View for ShmemQueue<T> {
    type V = QueueState<T>;

    closed spec fn view(&self) -> QueueState<T> {
        QueueState {
            head: self.header.head as nat,
            items: Seq::new(
                (self.header.end - self.header.head) as nat,
                |i: int|
                    T::decode(
                        slot_bytes(
                            self.data@,
                            (self.header.head + i) % (self.header.capacity as int),
                            self.element_size as int,
                        ),
                    ),
            ),
            capacity: self.header.capacity as nat,
        }
    }
}

impl<T: QueueElement> ShmemQueue<T> {
    /// The queue's segment is consistent: the header is initialized and
    /// unlocked, its counters describe at most `capacity` elements, and the
    /// data region holds `capacity` slots of the element size.
    pub closed spec fn wf(&self) -> bool {
        &&& self.layout_ok()
        &&& !self.header.lock
    }

    /// The segment's layout is consistent, whatever the state of the lock.
    closed spec fn layout_ok(&self) -> bool {
        &&& self.header.is_init
        &&& self.header.wf()
        &&& self.header.element_size == self.element_size
        &&& self.element_size == T::byte_len()
        &&& self.data@.len() == self.header.capacity * self.element_size
        &&& self.header.capacity * self.element_size <= usize::MAX
        &&& self.data_size == self.data@.len()
    }

    /// The name of the segment.
    pub closed spec fn spec_flink(&self) -> Seq<char> {
        self.flink@
    }

    /// The number of handles the segment's header counts.
    pub closed spec fn live_handles(&self) -> u64 {
        self.header.ref_cnt
    }

    /// Creates a queue with `capacity` slots for elements of type `T`,
    /// named `flink`.
    pub fn create(flink: &str, capacity: usize) -> (r: PromisqsResult<Self>)
        requires
            T::byte_len() * capacity <= usize::MAX,
        ensures
            r matches Ok(q) && q.wf() && q@ == QueueState::<T>::empty(capacity as nat)
                && q.spec_flink() == flink@ && q.live_handles() == 1,
    {
        let element_size = T::size();
        let data_size = element_size * capacity;
        let data: Vec<u8> = vec![0u8; data_size];
        proof {
            vstd::arithmetic::mul::lemma_mul_is_commutative(element_size as int, capacity as int);
        }
        let header = QueueHeader::new(element_size, capacity);
        let q = ShmemQueue {
            marker: core::marker::PhantomData,
            flink: flink.to_owned(),
            data_size: data_size as u64,
            header,
            data,
            element_size,
        };
        proof {
            assert(q@.items =~= Seq::<T>::empty());
        }
        Ok(q)
    }

    /// The name of the segment.
    pub fn flink(&self) -> (s: &str)
        ensures
            s@ == self.spec_flink(),
    {
        self.flink.as_str()
    }

    /// The segment's header as other handles see it.
    pub fn header(&self) -> (h: &QueueHeader)
        requires
            self.wf(),
        ensures
            h.is_init,
            !h.lock,
            h.element_size == T::byte_len(),
            h.capacity == self@.capacity,
            h.head == self@.head,
            h.end == self@.pushed(),
            h.ref_cnt == self.live_handles(),
    {
        &self.header
    }

    /// A consistent queue never holds more elements than it has slots.
    pub proof fn lemma_bounded(&self)
        requires
            self.wf(),
        ensures
            self@.len() <= self@.capacity,
    {
    }

    /// The number of elements currently in the queue.
    pub fn len(&self) -> (n: usize)
        requires
            self.wf(),
        ensures
            n == self@.len(),
    {
        self.header.len()
    }

    /// The number of elements the queue can hold; fixed at creation.
    pub fn capacity(&self) -> (n: usize)
        requires
            self.wf(),
        ensures
            n == self@.capacity,
    {
        self.header.capacity
    }

    /// Whether the queue is full.
    pub fn is_full(&self) -> (b: bool)
        requires
            self.wf(),
        ensures
            b == self@.is_full(),
    {
        self.len() == self.capacity()
    }

    /// Whether the queue is empty.
    pub fn is_empty(&self) -> (b: bool)
        requires
            self.wf(),
        ensures
            b == self@.is_empty(),
    {
        self.len() == 0
    }

    /// Copies `bytes` into the data region at byte offset `off`.
    fn write_bytes(&mut self, off: usize, bytes: &Vec<u8>)
        requires
            off + bytes@.len() <= old(self).data@.len(),
        ensures
            final(self).data@ == written(old(self).data@, off as int, bytes@),
            final(self).header == old(self).header,
            final(self).element_size == old(self).element_size,
            final(self).data_size == old(self).data_size,
            final(self).flink == old(self).flink,
    {
        let n = self.data.len();
        let mut j: usize = 0;
        while j < bytes.len()
            invariant
                n == self.data@.len(),
                off + bytes@.len() <= self.data@.len(),
                j <= bytes@.len(),
                self.data@.len() == old(self).data@.len(),
                forall|i: int|
                    0 <= i < self.data@.len() ==> self.data@[i] == (if off <= i < off + j {
                        bytes@[i - off]
                    } else {
                        old(self).data@[i]
                    }),
                self.header == old(self).header,
                self.element_size == old(self).element_size,
                self.data_size == old(self).data_size,
                self.flink == old(self).flink,
            decreases bytes@.len() - j,
        {
            self.data.set(off + j, bytes[j]);
            j = j + 1;
        }
        proof {
            assert(self.data@ =~= written(old(self).data@, off as int, bytes@));
        }
    }

    /// The element stored at byte offset `off` of the data region.
    fn read_at(&self, off: usize) -> (x: T)
        requires
            self.layout_ok(),
            off + self.element_size <= self.data@.len(),
        ensures
            x == T::decode(self.data@.subrange(off as int, off + self.element_size)),
    {
        let s = slice_subrange(self.data.as_slice(), off, off + self.element_size);
        T::from_bytes(s)
    }

    /// Pushes `t` to the back of the queue without waiting for the write
    /// lock; fails with `WouldBlock` if another handle holds it, and with
    /// `QueueFull` if the queue is full.
    pub fn try_push(&mut self, t: &T) -> (r: PromisqsResult<()>)
        requires
            old(self).wf(),
            !old(self)@.is_full() ==> old(self)@.pushed() < usize::MAX,
        ensures
            final(self).wf(),
            final(self)@ == old(self)@.push(*t),
            final(self).spec_flink() == old(self).spec_flink(),
            final(self).live_handles() == old(self).live_handles(),
            r == (if old(self)@.is_full() {
                Err::<(), PromisqsError>(PromisqsError::QueueFull)
            } else {
                Ok(())
            }),
    {
        let acquired = self.header.try_lock().is_ok();
        let step = self.header.push_step(acquired);
        let (off, end) = match step {
            PushStep::Write { offset, end } => (offset, end),
            _ => {
                if acquired {
                    self.header.unlock();
                }
                return step.outcome();
            },
        };
        let ghost old_data = self.data@;
        let ghost cap = self.header.capacity as int;
        let ghost es = self.element_size as int;
        let ghost slot = self.header.end % self.header.capacity;
        proof {
            lemma_slot_in_region(slot as int, cap, es);
            T::lemma_codec(*t);
        }
        let bytes = t.to_bytes();
        self.write_bytes(off, &bytes);
        self.header.end = end;
        self.header.unlock();
        proof {
            let old_q = old(self)@;
            let new_q = self@;
            let head = self.header.head as int;
            let len = old_q.items.len() as int;
            assert forall|i: int| 0 <= i < len implies new_q.items[i] == old_q.items[i] by {
                let s = (head + i) % cap;
                lemma_mod_distinct(head + i, head + len, cap);
                lemma_write_slot(old_data, slot as int, s, cap, es, bytes@);
            }
            lemma_write_slot(old_data, slot as int, slot as int, cap, es, bytes@);
            assert(new_q.items[len] == *t);
            assert(new_q.items =~= old_q.items.push(*t));
        }
        step.outcome()
    }

    /// Pushes `t` to the back of the queue, waiting for the write lock;
    /// fails with `QueueFull` if the queue is full.
    pub fn push(&mut self, t: &T) -> (r: PromisqsResult<()>)
        requires
            old(self).wf(),
            !old(self)@.is_full() ==> old(self)@.pushed() < usize::MAX,
        ensures
            final(self).wf(),
            final(self)@ == old(self)@.push(*t),
            final(self).spec_flink() == old(self).spec_flink(),
            final(self).live_handles() == old(self).live_handles(),
            r == (if old(self)@.is_full() {
                Err::<(), PromisqsError>(PromisqsError::QueueFull)
            } else {
                Ok(())
            }),
    {
        loop
            invariant
                self.wf(),
                *self == *old(self),
                !self@.is_full() ==> self@.pushed() < usize::MAX,
            decreases 0nat,
        {
            match self.try_push(t) {
                Ok(()) => {
                    return Ok(());
                },
                Err(e) => {
                    if must_retry(e) {
                        continue ;
                    }
                    return Err(e);
                },
            }
        }
    }

    /// Pops the oldest element without waiting for the read lock; gives
    /// `Ok(None)` when the queue is empty, and fails only with `WouldBlock`.
    pub fn try_pop(&mut self) -> (r: PromisqsResult<Option<T>>)
        requires
            old(self).wf(),
        ensures
            final(self).wf(),
            final(self)@ == old(self)@.pop(),
            final(self).spec_flink() == old(self).spec_flink(),
            final(self).live_handles() == old(self).live_handles(),
            r == Ok::<Option<T>, PromisqsError>(old(self)@.front()),
    {
        let acquired = self.header.try_lock().is_ok();
        match self.header.pop_step(acquired) {
            PopStep::Blocked => Err(PromisqsError::WouldBlock),
            PopStep::Empty => {
                self.header.unlock();
                Ok(None)
            },
            PopStep::Read { offset, head } => {
                proof {
                    lemma_slot_in_region(
                        (self.header.head % self.header.capacity) as int,
                        self.header.capacity as int,
                        self.element_size as int,
                    );
                }
                let t = self.read_at(offset);
                self.header.head = head;
                self.header.unlock();
                proof {
                    assert(self@.items =~= old(self)@.items.drop_first());
                }
                Ok(Some(t))
            },
        }
    }

    /// Pops the oldest element, waiting for the lock; `None` when the queue
    /// is empty.
    pub fn pop(&mut self) -> (r: Option<T>)
        requires
            old(self).wf(),
        ensures
            final(self).wf(),
            final(self)@ == old(self)@.pop(),
            final(self).spec_flink() == old(self).spec_flink(),
            final(self).live_handles() == old(self).live_handles(),
            r == old(self)@.front(),
    {
        loop
            invariant
                self.wf(),
                *self == *old(self),
            decreases 0nat,
        {
            match self.try_pop() {
                Ok(v) => {
                    return v;
                },
                Err(_) => {
                    continue ;
                },
            }
        }
    }

    /// Reads the oldest element without removing it and without waiting for
    /// the lock; `Ok(None)` when the queue is empty.
    pub fn try_peek(&self) -> (r: PromisqsResult<Option<T>>)
        requires
            self.wf(),
        ensures
            r == Ok::<Option<T>, PromisqsError>(self@.front()),
    {
        match self.header.pop_step(!self.header.lock) {
            PopStep::Blocked => Err(PromisqsError::WouldBlock),
            PopStep::Empty => Ok(None),
            PopStep::Read { offset, .. } => {
                proof {
                    lemma_slot_in_region(
                        (self.header.head % self.header.capacity) as int,
                        self.header.capacity as int,
                        self.element_size as int,
                    );
                }
                Ok(Some(self.read_at(offset)))
            },
        }
    }

    /// Reads the oldest element without removing it, waiting for the lock;
    /// `None` when the queue is empty.
    pub fn peek(&self) -> (r: Option<T>)
        requires
            self.wf(),
        ensures
            r == self@.front(),
    {
        loop
            invariant
                self.wf(),
            decreases 0nat,
        {
            match self.try_peek() {
                Ok(v) => {
                    return v;
                },
                Err(_) => {
                    continue ;
                },
            }
        }
    }

    /// Pops the oldest element, as an iterator over the queue would.
    pub fn next(&mut self) -> (r: Option<T>)
        requires
            old(self).wf(),
        ensures
            final(self).wf(),
            final(self)@ == old(self)@.pop(),
            final(self).spec_flink() == old(self).spec_flink(),
            final(self).live_handles() == old(self).live_handles(),
            r == old(self)@.front(),
    {
        self.pop()
    }
}

} // verus!
