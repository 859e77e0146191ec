use vstd::prelude::*;

verus! {

/// Number of slots in every query set the profiler creates; wgpu accepts no
/// larger query set.
pub const MAX_QUERIES: u32 = 8192;

/// Size in bytes of a readback buffer that holds one 64-bit word per slot.
pub const MAX_BUFFER_SIZE: u64 = 65536;

/// What a query set measures.
#[derive(Clone, Copy, Debug, PartialEq, Eq, Structural)]
pub enum QueryKind {
    /// One GPU clock value per query.
    Timestamp,
    /// One counter per statistic whose bit is set in the mask.
    PipelineStatistics(u8),
}

/// Number of bits set in `n`.
pub open spec fn bits_set(n: u8) -> nat
    decreases n,
{
    if n == 0 {
        0
    } else {
        (n % 2) as nat + bits_set((n / 2) as u8)
    }
}

/// Number of 64-bit words that one query of the given kind produces.
pub open spec fn words_per_query(kind: QueryKind) -> nat {
    match kind {
        QueryKind::Timestamp => 1,
        QueryKind::PipelineStatistics(mask) => bits_set(mask),
    }
}

proof fn lemma_bits_set_bound(n: u8)
    ensures
        bits_set(n) <= n,
    decreases n,
{
    if n != 0 {
        lemma_bits_set_bound((n / 2) as u8);
    }
}

/// Counts the bits set in `n`.
pub fn num_bits_set(n: u8) -> (r: u32)
    ensures
        r == bits_set(n),
{
    let mut rest: u8 = n;
    let mut count: u32 = 0;
    proof {
        lemma_bits_set_bound(n);
    }
    while rest != 0
        invariant
            count + bits_set(rest) == bits_set(n),
            bits_set(n) <= 255,
        decreases rest,
    {
        count = count + (rest % 2) as u32;
        rest = rest / 2;
    }
    count
}

/// The size, in 64-bit words, of a single query result of the given kind.
pub fn query_ty_size(kind: QueryKind) -> (r: u32)
    ensures
        r == words_per_query(kind),
{
    match kind {
        QueryKind::PipelineStatistics(mask) => num_bits_set(mask),
        QueryKind::Timestamp => 1,
    }
}

} // verus!
