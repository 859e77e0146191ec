use vstd::prelude::*;

verus! {

/// How a new buffer is first filled.
pub enum BufferInitContent<'a> {
    /// The buffer will be initialized with the given data
    Data(&'a [u8]),
    /// The buffer will be initialized with the given size
    Size(u64),
}

} // verus!
