use vstd::prelude::*;

verus! {

/// The recoverable conditions of the hand-off ring.
///
/// Both are expected under backpressure: a caller retries (spins, yields or
/// backs off) rather than treating them as failures.
#[derive(Debug, Clone, Copy, PartialEq, Eq, Structural)]
pub enum CoreError {
    /// A push found the ring at capacity.
    RingFull,
    /// A pop found the ring with no elements.
    RingEmpty,
}

impl CoreError {
    /// Human-readable message for the condition.
    pub fn message(&self) -> (r: &'static str)
        ensures
            r@ == (match self {
                CoreError::RingFull => "ring buffer is full"@,
                CoreError::RingEmpty => "ring buffer is empty"@,
            }),
    {
        match self {
            CoreError::RingFull => "ring buffer is full",
            CoreError::RingEmpty => "ring buffer is empty",
        }
    }
}

} // verus!
