# promisqs

A bounded multi-producer, multi-consumer FIFO queue laid out for shared
memory: a header of plain counters (`is_init`, `lock`, `ref_cnt`,
`element_size`, `capacity`, `head`, `end`) followed by `capacity` slots of
fixed-size elements. Element number `i` lives in slot `i % capacity`.

- `src/` is the verified library.
  - `header.rs`: the header and its rules (creating, attaching and releasing
    handles, the lock, and `push_step` / `pop_step`: given the header and
    whether the lock was taken, the next action of a push, pop or peek and
    what it returns).
  - `queue.rs`: `ShmemQueue`, the queue over a segment held in memory, with
    contracts over its abstract state `QueueState` (popped count, queued
    items, capacity).
  - `ring.rs`: slot arithmetic and the proof that writing one slot leaves the
    others alone.
  - `element.rs`: `QueueElement`, the byte encoding of queue elements
    (through `zerocopy`).
  - `laws.rs`: first-in-first-out and the other laws of the abstract queue,
    also over any sequence of pushes and pops.
- `app/` maps the segment into operating-system shared memory
  (`shared_memory`), takes the lock with an atomic compare-and-swap, copies
  element bytes in and out and runs the retry loops; which action follows,
  what an operation returns and whether to retry come from the library's
  step functions and `must_retry`. Its `main` measures throughput.
- `tests/` runs the library.
