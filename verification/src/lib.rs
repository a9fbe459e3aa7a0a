//! A bounded, multi-producer, multi-consumer FIFO queue whose state is laid
//! out as a shared memory segment: a header of plain counters followed by a
//! data region of `capacity` fixed-size element slots.
//!
//! The header's rules (initialization, attaching and releasing handles, the
//! write lock, the head and end counters and how they map to slots) live in
//! [`header`]; the queue over a segment held in memory lives in [`queue`];
//! the byte encoding of queue elements lives in [`element`].
pub mod element;
pub mod error;
pub mod header;
pub mod laws;
pub mod queue;
pub mod ring;

pub use element::QueueElement;
pub use error::{PromisqsError, PromisqsResult};
pub use header::QueueHeader;
pub use queue::{QueueState, ShmemQueue};
