use vstd::prelude::*;

verus! {

/// The ways an operation on a queue can fail.
#[derive(Debug, Clone, Copy, PartialEq, Eq, Structural)]
pub enum PromisqsError {
    /// The segment has not been initialized by the handle that created it.
    BufferNotInitialized,
    /// The element size recorded in the segment differs from the element type's size.
    ElementSizeMismatch,
    /// A push found the queue full.
    QueueFull,
    /// The queue holds no element.
    QueueEmpty,
    /// The write lock was held by another handle; the non-blocking operation gave up.
    WouldBlock,
}

/// The result of a queue operation.
pub type PromisqsResult<T> = Result<T, PromisqsError>;

} // verus!
