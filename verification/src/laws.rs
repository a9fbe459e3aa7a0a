use vstd::prelude::*;
use crate::queue::QueueState;

verus! {

/// The queue after pushing each of `xs` in turn.
pub open spec fn push_all<T>(q: QueueState<T>, xs: Seq<T>) -> QueueState<T>
    decreases xs.len(),
{
    if xs.len() == 0 {
        q
    } else {
        push_all(q.push(xs[0]), xs.drop_first())
    }
}

/// The elements that `n` successive pops give back.
pub open spec fn pop_n<T>(q: QueueState<T>, n: nat) -> Seq<T>
    decreases n,
{
    if n == 0 || q.is_empty() {
        Seq::empty()
    } else {
        seq![q.items[0]] + pop_n(q.pop(), (n - 1) as nat)
    }
}

/// Pushing elements that fit appends them behind the queued ones.
proof fn lemma_push_all<T>(q: QueueState<T>, xs: Seq<T>)
    requires
        q.items.len() + xs.len() <= q.capacity,
    ensures
        push_all(q, xs).items == q.items + xs,
        push_all(q, xs).head == q.head,
        push_all(q, xs).capacity == q.capacity,
    decreases xs.len(),
{
    if xs.len() > 0 {
        lemma_push_all(q.push(xs[0]), xs.drop_first());
        assert(q.items.push(xs[0]) + xs.drop_first() =~= q.items + xs);
    } else {
        assert(q.items + xs =~= q.items);
    }
}

/// Successive pops give the queued elements from the oldest on.
proof fn lemma_pop_n<T>(q: QueueState<T>, n: nat)
    requires
        n <= q.items.len(),
    ensures
        pop_n(q, n) == q.items.take(n as int),
    decreases n,
{
    if n > 0 {
        lemma_pop_n(q.pop(), (n - 1) as nat);
        assert(seq![q.items[0]] + q.items.drop_first().take(n - 1) =~= q.items.take(n as int));
    } else {
        assert(q.items.take(0) =~= Seq::<T>::empty());
    }
}

/// First in, first out: after elements that fit are pushed, popping gives
/// back the elements that were queued before, then the pushed ones, in the
/// order they were pushed.
pub proof fn law_fifo<T>(q: QueueState<T>, xs: Seq<T>)
    requires
        q.items.len() + xs.len() <= q.capacity,
    ensures
        pop_n(push_all(q, xs), q.items.len() + xs.len()) == q.items + xs,
{
    lemma_push_all(q, xs);
    lemma_pop_n(push_all(q, xs), q.items.len() + xs.len());
    assert((q.items + xs).take((q.items.len() + xs.len()) as int) =~= q.items + xs);
}

/// What a pop gives back of a push into an empty queue is the pushed
/// element, and the queue is empty again afterwards.
pub proof fn law_push_then_pop<T>(q: QueueState<T>, x: T)
    requires
        q.is_empty(),
        q.capacity > 0,
    ensures
        q.push(x).front() == Some(x),
        q.push(x).pop().is_empty(),
        q.push(x).pop().head == q.head + 1,
{
    assert(q.push(x).pop().items =~= Seq::<T>::empty());
}

/// On a queue that is neither empty nor full, a push does not change which
/// element comes out next, and pushing then popping equals popping then
/// pushing.
pub proof fn law_push_pop_commute<T>(q: QueueState<T>, x: T)
    requires
        !q.is_empty(),
        !q.is_full(),
        q.items.len() <= q.capacity,
    ensures
        q.push(x).front() == q.front(),
        q.push(x).pop() == q.pop().push(x),
{
    assert(q.push(x).pop().items =~= q.pop().push(x).items);
}

/// A full queue refuses a push and stays as it was; an empty queue gives
/// nothing on a pop and stays as it was.
pub proof fn law_bounds<T>(q: QueueState<T>, x: T)
    ensures
        q.is_full() ==> q.push(x) == q,
        q.is_empty() ==> q.pop() == q && q.front() is None,
{
}

/// Pushes and pops keep the queue within its capacity, never change the
/// capacity, and only ever increase the counts of pushed and popped elements.
pub proof fn law_counters<T>(q: QueueState<T>, x: T)
    requires
        q.items.len() <= q.capacity,
    ensures
        q.push(x).items.len() <= q.capacity,
        q.pop().items.len() <= q.capacity,
        q.push(x).capacity == q.capacity,
        q.pop().capacity == q.capacity,
        q.push(x).head == q.head,
        q.push(x).pushed() >= q.pushed(),
        q.pop().head >= q.head,
        q.pop().pushed() == q.pushed(),
{
}

/// One operation on a queue, as far as its contents are concerned.
pub enum QueueOp<T> {
    Push(T),
    Pop,
}

/// The queue after one operation.
pub open spec fn apply<T>(q: QueueState<T>, op: QueueOp<T>) -> QueueState<T> {
    match op {
        QueueOp::Push(x) => q.push(x),
        QueueOp::Pop => q.pop(),
    }
}

/// The queue after the operations `ops`, in order.
pub open spec fn run<T>(q: QueueState<T>, ops: Seq<QueueOp<T>>) -> QueueState<T>
    decreases ops.len(),
{
    if ops.len() == 0 {
        q
    } else {
        run(apply(q, ops[0]), ops.drop_first())
    }
}

/// The queue after `n` pops.
pub open spec fn pop_times<T>(q: QueueState<T>, n: nat) -> QueueState<T>
    decreases n,
{
    if n == 0 {
        q
    } else {
        pop_times(q.pop(), (n - 1) as nat)
    }
}

/// Over any sequence of pushes and pops, the capacity stays what it was,
/// the queue never holds more elements than its capacity, and the counts
/// of pushed and popped elements never go down.
pub proof fn law_run<T>(q: QueueState<T>, ops: Seq<QueueOp<T>>)
    requires
        q.items.len() <= q.capacity,
    ensures
        run(q, ops).capacity == q.capacity,
        run(q, ops).items.len() <= q.capacity,
        run(q, ops).head >= q.head,
        run(q, ops).pushed() >= q.pushed(),
    decreases ops.len(),
{
    if ops.len() > 0 {
        match ops[0] {
            QueueOp::Push(x) => law_counters(q, x),
            QueueOp::Pop => {},
        }
        law_run(apply(q, ops[0]), ops.drop_first());
    }
}

/// Popping `n` times from a queue of `n` elements empties it.
proof fn lemma_pop_times<T>(q: QueueState<T>, n: nat)
    requires
        n == q.items.len(),
    ensures
        pop_times(q, n).is_empty(),
        pop_times(q, n).capacity == q.capacity,
    decreases n,
{
    if n > 0 {
        lemma_pop_times(q.pop(), (n - 1) as nat);
    }
}

/// Whatever the queue's position in its slots, elements pushed into an
/// empty queue, as many as fit, come back from the same number of pops in
/// the order they were pushed, and the pop after them finds the queue empty.
pub proof fn law_fifo_drain<T>(q: QueueState<T>, xs: Seq<T>)
    requires
        q.is_empty(),
        xs.len() <= q.capacity,
    ensures
        pop_n(push_all(q, xs), xs.len()) == xs,
        pop_times(push_all(q, xs), xs.len()).front() is None,
{
    law_fifo(q, xs);
    lemma_push_all(q, xs);
    assert(q.items + xs =~= xs);
    lemma_pop_times(push_all(q, xs), xs.len());
}

} // verus!
