use vstd::prelude::*;

verus! {

/// The single terminal error of one evaluation.
#[derive(Debug, Clone, PartialEq, Eq)]
pub enum ComputeError {
    /// No usable device; never raised by the sequential reference backend.
    NoDeviceFound,
    /// The kernel program did not compile; `log` is the compiler's build log.
    BuildFailure { log: String },
    /// A buffer could not be created (zero length, or flags the device rejects).
    AllocationFailure,
    /// A kernel argument could not be bound.
    ArgumentBindingFailure,
    /// A write, launch or read could not be enqueued.
    EnqueueFailure,
    /// Waiting on an event failed, or what the awaited read delivered is not
    /// an iteration array of the evaluation's viewport.
    EventWaitFailure,
    /// The request itself is inconsistent: zero resolution, non-positive
    /// iteration bound, a grid too large to address, or a work size that is
    /// not the grid length.
    ConfigurationError,
}

} // verus!
