use vstd::prelude::*;
use crate::error::{PromisqsError, PromisqsResult};
use crate::ring::{lemma_mod_distinct, lemma_slot_in_region};

verus! {

/// The plain values at the start of a queue segment.
///
/// `head` counts the elements ever popped and `end` the elements ever pushed;
/// the queue holds the elements numbered `head..end`, and element number `i`
/// lives in slot `i % capacity`.
#[derive(Debug, Clone, Copy, PartialEq, Eq, Structural)]
pub struct QueueHeader {
    /// Set once the creating handle has written the header.
    pub is_init: bool,
    /// The write lock.
    pub lock: bool,
    /// The number of handles attached to the segment.
    pub ref_cnt: u64,
    /// The size of each element in bytes.
    pub element_size: usize,
    /// The number of element slots.
    pub capacity: usize,
    /// The number of the next element to read.
    pub head: usize,
    /// The number of the next element to write.
    pub end: usize,
}

/// The reference count after one more handle attaches (the counter wraps).
pub open spec fn ref_inc(n: u64) -> u64 {
    if n == u64::MAX { 0 } else { (n + 1) as u64 }
}

/// The reference count after one handle detaches (the counter wraps).
pub open spec fn ref_dec(n: u64) -> u64 {
    if n == 0 { u64::MAX } else { (n - 1) as u64 }
}

impl QueueHeader {
    /// The counters describe at most `capacity` queued elements.
    pub open spec fn wf(self) -> bool {
        &&& self.head <= self.end
        &&& self.end - self.head <= self.capacity
    }

    /// The number of queued elements.
    pub open spec fn spec_len(self) -> int {
        self.end - self.head
    }

    /// The header with one more attached handle.
    pub open spec fn retained(self) -> QueueHeader {
        QueueHeader { ref_cnt: ref_inc(self.ref_cnt), ..self }
    }

    /// The header with one handle fewer.
    pub open spec fn released(self) -> QueueHeader {
        QueueHeader { ref_cnt: ref_dec(self.ref_cnt), ..self }
    }

    /// What a push does next, given whether it took the lock: give up if it
    /// did not; refuse if `capacity` elements are queued; otherwise write
    /// slot `end % capacity` and advance `end` by one.
    pub open spec fn push_action(self, acquired: bool) -> PushStep {
        if !acquired {
            PushStep::Blocked
        } else if self.end - self.head == self.capacity {
            PushStep::Full
        } else {
            PushStep::Write {
                offset: ((self.end % self.capacity) * self.element_size) as usize,
                end: (self.end + 1) as usize,
            }
        }
    }

    /// What a pop or peek does next, given whether it took the lock: give up
    /// if it did not; report an empty queue if `head == end`; otherwise read
    /// slot `head % capacity` and (for a pop) advance `head` by one.
    pub open spec fn pop_action(self, acquired: bool) -> PopStep {
        if !acquired {
            PopStep::Blocked
        } else if self.end == self.head {
            PopStep::Empty
        } else {
            PopStep::Read {
                offset: ((self.head % self.capacity) * self.element_size) as usize,
                head: (self.head + 1) as usize,
            }
        }
    }

    /// The header with the lock set to `lock`.
    pub open spec fn with_lock(self, lock: bool) -> QueueHeader {
        QueueHeader { lock, ..self }
    }

    /// The header of a freshly created segment: initialized, unlocked, one
    /// handle attached, no element queued.
    pub fn new(element_size: usize, capacity: usize) -> (h: QueueHeader)
        ensures
            h == (QueueHeader {
                is_init: true,
                lock: false,
                ref_cnt: 1,
                element_size,
                capacity,
                head: 0,
                end: 0,
            }),
    {
        QueueHeader { is_init: true, lock: false, ref_cnt: 1, element_size, capacity, head: 0, end: 0 }
    }

    /// Attaches a handle whose elements have `element_size` bytes.
    ///
    /// An uninitialized segment is refused, and so is a handle whose element
    /// size differs from the segment's; a refused handle leaves the header
    /// as it was. An accepted handle is counted.
    pub fn attach(&mut self, element_size: usize) -> (r: PromisqsResult<()>)
        ensures
            r == (if !old(self).is_init {
                Err::<(), PromisqsError>(PromisqsError::BufferNotInitialized)
            } else if old(self).element_size != element_size {
                Err(PromisqsError::ElementSizeMismatch)
            } else {
                Ok(())
            }),
            r is Ok ==> *final(self) == old(self).retained(),
            r is Ok ==> final(self).ref_cnt as int == (old(self).ref_cnt + 1) % 0x1_0000_0000_0000_0000,
            r is Err ==> *final(self) == *old(self),
    {
        if !self.is_init {
            return Err(PromisqsError::BufferNotInitialized);
        }
        if element_size != self.element_size {
            return Err(PromisqsError::ElementSizeMismatch);
        }
        self.retain();
        Ok(())
    }

    /// Counts one more attached handle.
    pub fn retain(&mut self)
        ensures
            *final(self) == old(self).retained(),
            final(self).ref_cnt as int == (old(self).ref_cnt + 1) % 0x1_0000_0000_0000_0000,
    {
        self.ref_cnt = self.ref_cnt.wrapping_add(1);
    }

    /// Counts one handle fewer; returns whether it was the last one.
    pub fn release(&mut self) -> (last: bool)
        ensures
            *final(self) == old(self).released(),
            final(self).ref_cnt as int == (old(self).ref_cnt + 0xFFFF_FFFF_FFFF_FFFF) % 0x1_0000_0000_0000_0000,
            last == (old(self).ref_cnt == 1),
    {
        let n = self.ref_cnt;
        self.ref_cnt = self.ref_cnt.wrapping_sub(1);
        n == 1
    }

    /// Takes the write lock if it is free.
    pub fn try_lock(&mut self) -> (r: PromisqsResult<()>)
        ensures
            old(self).lock ==> r == Err::<(), PromisqsError>(PromisqsError::WouldBlock)
                && *final(self) == *old(self),
            !old(self).lock ==> r == Ok::<(), PromisqsError>(())
                && *final(self) == old(self).with_lock(true),
    {
        if self.lock {
            Err(PromisqsError::WouldBlock)
        } else {
            self.lock = true;
            Ok(())
        }
    }

    /// Releases the write lock.
    pub fn unlock(&mut self)
        ensures
            *final(self) == old(self).with_lock(false),
    {
        self.lock = false;
    }

    /// The number of queued elements.
    pub fn len(&self) -> (n: usize)
        requires
            self.head <= self.end,
        ensures
            n == self.end - self.head,
            n == self.spec_len(),
    {
        self.end - self.head
    }

    /// Whether every slot holds an element.
    pub fn is_full(&self) -> (b: bool)
        requires
            self.head <= self.end,
        ensures
            b == (self.end - self.head == self.capacity),
            b == (self.spec_len() == self.capacity),
    {
        self.len() == self.capacity
    }

    /// Whether no element is queued.
    pub fn is_empty(&self) -> (b: bool)
        requires
            self.head <= self.end,
        ensures
            b == (self.end == self.head),
            b == (self.spec_len() == 0),
    {
        self.len() == 0
    }

    /// What a handle that tried to take the lock (`acquired` tells whether
    /// it got it) does next to push an element.
    pub fn push_step(&self, acquired: bool) -> (s: PushStep)
        requires
            self.wf(),
            self.capacity * self.element_size <= usize::MAX,
            self.end - self.head < self.capacity ==> self.end < usize::MAX,
        ensures
            s == self.push_action(acquired),
            s == (if !acquired {
                PushStep::Blocked
            } else if self.end - self.head == self.capacity {
                PushStep::Full
            } else {
                PushStep::Write {
                    offset: ((self.end % self.capacity) * self.element_size) as usize,
                    end: (self.end + 1) as usize,
                }
            }),
    {
        if !acquired {
            return PushStep::Blocked;
        }
        if self.len() == self.capacity {
            return PushStep::Full;
        }
        let slot = self.end % self.capacity;
        proof {
            lemma_slot_in_region(slot as int, self.capacity as int, self.element_size as int);
        }
        PushStep::Write { offset: slot_offset(slot, self.element_size), end: self.end + 1 }
    }

    /// What a handle that tried to take the lock (`acquired` tells whether
    /// it got it) does next to pop or peek at an element.
    pub fn pop_step(&self, acquired: bool) -> (s: PopStep)
        requires
            self.wf(),
            self.capacity * self.element_size <= usize::MAX,
        ensures
            s == self.pop_action(acquired),
            s == (if !acquired {
                PopStep::Blocked
            } else if self.end == self.head {
                PopStep::Empty
            } else {
                PopStep::Read {
                    offset: ((self.head % self.capacity) * self.element_size) as usize,
                    head: (self.head + 1) as usize,
                }
            }),
    {
        if !acquired {
            return PopStep::Blocked;
        }
        if self.head == self.end {
            return PopStep::Empty;
        }
        let slot = self.head % self.capacity;
        proof {
            lemma_slot_in_region(slot as int, self.capacity as int, self.element_size as int);
        }
        PopStep::Read { offset: slot_offset(slot, self.element_size), head: self.head + 1 }
    }
}

/// The next action of a push.
#[derive(Debug, Clone, Copy, PartialEq, Eq, Structural)]
pub enum PushStep {
    /// The lock was held by another handle: the push fails with
    /// `WouldBlock`, and a blocking push tries again.
    Blocked,
    /// The queue is full: release the lock; the push fails with `QueueFull`.
    Full,
    /// Copy the element's bytes to `offset` in the data region, set the end
    /// counter to `end`, release the lock; the push succeeds.
    Write { offset: usize, end: usize },
}

/// The next action of a pop or a peek.
#[derive(Debug, Clone, Copy, PartialEq, Eq, Structural)]
pub enum PopStep {
    /// The lock was held by another handle: the operation fails with
    /// `WouldBlock`, and a blocking one tries again.
    Blocked,
    /// No element is queued: release the lock; the result is `None`.
    Empty,
    /// Read the element at `offset` in the data region; a pop then sets the
    /// head counter to `head`. Release the lock; the result is the element.
    Read { offset: usize, head: usize },
}

impl PushStep {
    /// What the push returns after taking this step.
    pub fn outcome(&self) -> (r: PromisqsResult<()>)
        ensures
            r == (match *self {
                PushStep::Blocked => Err::<(), PromisqsError>(PromisqsError::WouldBlock),
                PushStep::Full => Err(PromisqsError::QueueFull),
                PushStep::Write { .. } => Ok(()),
            }),
    {
        match self {
            PushStep::Blocked => Err(PromisqsError::WouldBlock),
            PushStep::Full => Err(PromisqsError::QueueFull),
            PushStep::Write { .. } => Ok(()),
        }
    }
}

/// Whether a blocking operation that got `e` from its non-blocking form
/// tries again: only when the lock was held by another handle.
pub fn must_retry(e: PromisqsError) -> (b: bool)
    ensures
        b == (e == PromisqsError::WouldBlock),
{
    match e {
        PromisqsError::WouldBlock => true,
        _ => false,
    }
}

/// The byte offset of `slot` in the data region.
pub fn slot_offset(slot: usize, element_size: usize) -> (off: usize)
    requires
        slot * element_size <= usize::MAX,
    ensures
        off == slot * element_size,
{
    slot * element_size
}

/// Attaching and then releasing a handle leaves the header as it was, and
/// the released handle is not the last one when another was attached before.
pub proof fn law_retain_release(h: QueueHeader)
    ensures
        h.retained().released() == h,
        h.ref_cnt >= 1 && h.ref_cnt < u64::MAX ==> h.retained().ref_cnt != 1,
{
}

/// Taking a free lock and releasing it leaves the header as it was.
pub proof fn law_lock_unlock(h: QueueHeader)
    requires
        !h.lock,
    ensures
        h.with_lock(true).with_lock(false) == h,
{
}

/// The length of a header is the number of elements pushed and not yet
/// popped: `end - head`. Hence a consistent header is full exactly when
/// `end - head == capacity` and empty exactly when `head == end`.
pub proof fn law_len(h: QueueHeader)
    ensures
        h.spec_len() == h.end - h.head,
        h.wf() ==> (h.spec_len() == h.capacity <==> h.end - h.head == h.capacity),
        h.wf() ==> (h.spec_len() == 0 <==> h.head == h.end),
        h.wf() ==> 0 <= h.spec_len() <= h.capacity,
{
}

/// Attaching a handle adds one to the count, and detaching one takes one
/// away, both modulo 2^64 as the shared counter wraps; the two undo each other.
pub proof fn law_ref_count(n: u64)
    ensures
        ref_inc(n) as int == (n + 1) % 0x1_0000_0000_0000_0000,
        ref_dec(n) as int == (n + 0xFFFF_FFFF_FFFF_FFFF) % 0x1_0000_0000_0000_0000,
        ref_dec(ref_inc(n)) == n,
        ref_inc(ref_dec(n)) == n,
        n < u64::MAX ==> ref_inc(n) == n + 1,
        n > 0 ==> ref_dec(n) == n - 1,
{
}

/// A push is refused exactly when `capacity` elements are queued. Otherwise
/// it writes the slot of element number `end`, `end % capacity`, which lies
/// in the data region and is none of the slots of the queued elements
/// `head..end`, and it counts exactly one more element. Without the lock it
/// does nothing.
pub proof fn law_push_action(h: QueueHeader)
    requires
        h.wf(),
        h.capacity * h.element_size <= usize::MAX,
        h.end - h.head < h.capacity ==> h.end < usize::MAX,
    ensures
        h.push_action(false) == PushStep::Blocked,
        (h.push_action(true) == PushStep::Full) <==> h.end - h.head == h.capacity,
        h.end - h.head < h.capacity ==> h.capacity > 0 && (h.push_action(true) matches PushStep::Write {
            offset,
            end,
        } && end == h.end + 1 && offset == (h.end % h.capacity) * h.element_size
            && offset + h.element_size <= h.capacity * h.element_size
            && (forall|i: int|
            #![trigger (h.head + i) % (h.capacity as int)]
            0 <= i < h.end - h.head ==> (h.head + i) % (h.capacity as int) != (h.end as int) % (h.capacity as int))),
{
    if h.end - h.head < h.capacity {
        let slot = h.end % h.capacity;
        lemma_slot_in_region(slot as int, h.capacity as int, h.element_size as int);
        assert forall|i: int|
            #![trigger (h.head + i) % (h.capacity as int)]
            0 <= i < h.end - h.head implies (h.head + i) % (h.capacity as int) != (h.end as int) % (h.capacity as int) by {
            lemma_mod_distinct(h.head + i, h.end as int, h.capacity as int);
        }
    }
}

/// A pop finds the queue empty exactly when `head == end`. Otherwise it reads
/// the slot of element number `head`, `head % capacity`, which lies in the
/// data region, and counts exactly one more element popped. Without the lock
/// it does nothing.
pub proof fn law_pop_action(h: QueueHeader)
    requires
        h.wf(),
        h.capacity * h.element_size <= usize::MAX,
    ensures
        h.pop_action(false) == PopStep::Blocked,
        (h.pop_action(true) == PopStep::Empty) <==> h.head == h.end,
        h.head < h.end ==> h.capacity > 0 && (h.pop_action(true) matches PopStep::Read { offset, head }
            && head == h.head + 1 && offset == (h.head % h.capacity) * h.element_size
            && offset + h.element_size <= h.capacity * h.element_size),
{
    if h.head < h.end {
        lemma_slot_in_region((h.head % h.capacity) as int, h.capacity as int, h.element_size as int);
    }
}

} // verus!
