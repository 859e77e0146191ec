use vstd::prelude::*;

use crate::commands::{GpuCommandEncoder, QueryCommand};
use crate::driver::{
    all_statistics_bits, create_query_set, create_readback_buffer, read_back, resolve_query_set,
    QueryFeatures,
};
use crate::error::GpuError;
use crate::query::{bits_set, query_ty_size, words_per_query, QueryKind, MAX_QUERIES};
use crate::readback::{decode_words, words_of};

verus! {

/// The statistics mask with every pipeline statistic wgpu offers.
pub open spec fn all_statistics() -> u8 {
    0x1f
}

/// A full statistics mask selects five statistics, so each statistics query
/// result is five words wide.
pub proof fn lemma_full_statistics_size()
    ensures
        bits_set(all_statistics()) == 5,
        words_per_query(QueryKind::PipelineStatistics(all_statistics())) == 5,
{
    reveal_with_fuel(bits_set, 6);
}

/// A fixed-capacity hardware query set together with the host-readable buffer
/// that its results are resolved into.
pub struct GpuQuerySet {
    pub(crate) inner: wgpu::QuerySet,
    pub(crate) buffer: wgpu::Buffer,
    pub(crate) kind: QueryKind,
    pub(crate) capacity: u32,
    pub(crate) device: Ghost<wgpu::Device>,
    pub(crate) mapping_failed: bool,
}

impl GpuQuerySet {
    /// What each query of the set measures.
    pub closed spec fn kind(&self) -> QueryKind {
        self.kind
    }

    /// Number of query slots.
    pub closed spec fn capacity(&self) -> nat {
        self.capacity as nat
    }

    /// The device that made the set.
    pub closed spec fn device(&self) -> wgpu::Device {
        self.device@
    }

    /// Whether a readback of the set failed; such a set is not mapped again.
    pub closed spec fn mapping_failed(&self) -> bool {
        self.mapping_failed
    }

    /// Size in bytes of the readback buffer: one 64-bit word per result word of
    /// every slot.
    pub open spec fn buffer_size(&self) -> nat {
        8 * words_per_query(self.kind()) * self.capacity()
    }

    /// The set has at least one slot and at most as many as wgpu allows, and
    /// each result is between one and eight words wide.
    pub open spec fn wf(&self) -> bool {
        &&& 0 < self.capacity() <= MAX_QUERIES
        &&& 1 <= words_per_query(self.kind()) <= 8
        &&& self.kind() matches QueryKind::PipelineStatistics(bits) ==> bits <= all_statistics()
    }

    /// Creates a set of `count` timestamp queries.
    pub(crate) fn new_timestamp(features: &QueryFeatures, count: u32) -> (r: Self)
        requires
            0 < count <= MAX_QUERIES,
            features.timestamps(),
        ensures
            r.wf(),
            r.kind() == QueryKind::Timestamp,
            r.capacity() == count,
            r.device() == features.device(),
            !r.mapping_failed(),
    {
        Self::new_impl(features, QueryKind::Timestamp, "Timestamp QuerySet", count)
    }

    /// Creates a set of `count` pipeline-statistics queries that each count
    /// every statistic wgpu offers.
    pub(crate) fn new_stats(features: &QueryFeatures, count: u32) -> (r: Self)
        requires
            0 < count <= MAX_QUERIES,
            features.statistics(),
        ensures
            r.wf(),
            r.kind() == QueryKind::PipelineStatistics(all_statistics()),
            r.capacity() == count,
            words_per_query(r.kind()) == 5,
            r.device() == features.device(),
            !r.mapping_failed(),
    {
        let all = all_statistics_bits();
        proof {
            lemma_full_statistics_size();
        }
        Self::new_impl(
            features,
            QueryKind::PipelineStatistics(all),
            "PipelineStatistics QuerySet",
            count,
        )
    }

    fn new_impl(features: &QueryFeatures, kind: QueryKind, label: &str, count: u32) -> (r: Self)
        requires
            0 < count <= MAX_QUERIES,
            1 <= words_per_query(kind) <= 8,
            kind matches QueryKind::PipelineStatistics(bits) ==> bits <= all_statistics(),
            kind is Timestamp ==> features.timestamps(),
            kind is PipelineStatistics ==> features.statistics(),
        ensures
            r.wf(),
            r.kind() == kind,
            r.capacity() == count,
            r.device() == features.device(),
            !r.mapping_failed(),
    {
        let query_size = query_ty_size(kind);
        assert(query_size as u64 * count as u64 <= 8 * 8192) by (nonlinear_arith)
            requires
                query_size <= 8,
                count <= 8192,
        ;
        let buffer_size: u64 = 8 * (query_size as u64 * count as u64);
        let inner = create_query_set(features, kind, label, count);
        let device = features.device_ref();
        let buffer = create_readback_buffer(device, label, buffer_size);
        GpuQuerySet {
            inner,
            buffer,
            kind,
            capacity: count,
            device: Ghost(*device),
            mapping_failed: false,
        }
    }

    /// Number of 64-bit words in one query result.
    pub fn query_size(&self) -> (r: u32)
        ensures
            r == words_per_query(self.kind()),
    {
        query_ty_size(self.kind)
    }

    /// Records into `encoder` a copy of the results of the first `count`
    /// queries into the readback buffer, filling its first
    /// `count * query_size` words.
    pub fn resolve(&self, count: u32, encoder: &mut GpuCommandEncoder)
        requires
            self.wf(),
            count <= self.capacity(),
        ensures
            final(encoder).recorded() == old(encoder).recorded().push(
                QueryCommand::Resolve { kind: self.kind(), count },
            ),
    {
        resolve_query_set(encoder, self, count);
    }

    /// Reads back the results of the first `count` queries, `query_size` words
    /// each, from the set's readback buffer; `resolve` for them must have been
    /// submitted first. With `count` 0 nothing is mapped and the result is
    /// empty. Blocks until `device`, the one that made the set, has mapped the
    /// buffer. Once a readback failed, the set answers every later one with
    /// the same error without mapping again.
    pub fn get(&mut self, device: &wgpu::Device, count: u32) -> (r: Result<Vec<u64>, GpuError>)
        requires
            old(self).wf(),
            *device == old(self).device(),
            count <= old(self).capacity(),
        ensures
            final(self).wf(),
            final(self).kind() == old(self).kind(),
            final(self).capacity() == old(self).capacity(),
            final(self).device() == old(self).device(),
            final(self).mapping_failed() == (old(self).mapping_failed() || r is Err),
            count == 0 ==> (r matches Ok(words) && words@.len() == 0),
            old(self).mapping_failed() && count > 0 ==> r == Err::<Vec<u64>, GpuError>(
                GpuError::BufferAsyncError,
            ),
            r matches Ok(words) ==> {
                &&& words@.len() == count * words_per_query(old(self).kind())
                &&& exists|bytes: Seq<u8>|
                    bytes.len() == 8 * count * words_per_query(old(self).kind())
                        && #[trigger] words_of(bytes) == words@
            },
            r matches Err(e) ==> e == GpuError::BufferAsyncError && count > 0,
    {
        if count == 0 {
            assert(words_of(Seq::<u8>::empty()) =~= Seq::<u64>::empty());
            return Ok(Vec::new());
        }
        if self.mapping_failed {
            return Err(GpuError::BufferAsyncError);
        }
        let query_size = query_ty_size(self.kind);
        assert(0 < count as u64 * query_size as u64 <= 8192 * 8) by (nonlinear_arith)
            requires
                1 <= query_size <= 8,
                0 < count <= 8192,
        ;
        let size: u64 = 8 * (count as u64 * query_size as u64);
        assert(size <= self.buffer_size()) by (nonlinear_arith)
            requires
                size == 8 * (count * query_size),
                count <= self.capacity(),
                self.buffer_size() == 8 * query_size * self.capacity(),
        ;
        match read_back(device, self, size) {
            Err(_) => {
                self.mapping_failed = true;
                Err(GpuError::BufferAsyncError)
            },
            Ok(bytes) => {
                let words = decode_words(bytes.as_slice());
                assert(words@.len() == count * query_size) by (nonlinear_arith)
                    requires
                        words@.len() == bytes@.len() / 8,
                        bytes@.len() == 8 * (count * query_size),
                ;
                assert(bytes@.len() == 8 * count * words_per_query(self.kind())) by (nonlinear_arith)
                    requires
                        bytes@.len() == 8 * (count * query_size),
                        query_size == words_per_query(self.kind()),
                ;
                assert(words_of(bytes@) == words@);
                Ok(words)
            },
        }
    }
}

} // verus!
