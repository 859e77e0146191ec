use vstd::prelude::*;

verus! {

/// Failures reported by the profiling layer.
#[derive(Clone, Copy, Debug, PartialEq, Eq, Structural)]
#[non_exhaustive]
pub enum GpuError {
    /// Mapping a readback buffer for reading failed.
    BufferAsyncError,
    /// The device offers no query set of the requested kind.
    QueryNone,
    /// A frame already holds as many sections as a query set has slots.
    TooManySections,
}

} // verus!
