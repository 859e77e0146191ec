//! The calls into wgpu that the profiler makes, each behind a small trusted
//! item. wgpu reports a failed validation to the device's error handler, which
//! panics unless the application installed another one; the `requires` of each
//! item keep its arguments inside what wgpu validates.
use vstd::prelude::*;

use crate::commands::{GpuCommandEncoder, GpuRenderPass, QueryCommand};
use crate::query::{QueryKind, MAX_QUERIES};
use crate::queryset::GpuQuerySet;

verus! {

/// A device together with the query features it was created with. Only
/// `read_query_features` makes one, so its flags are those of its device.
pub struct QueryFeatures<'a> {
    device: &'a wgpu::Device,
    timestamps: bool,
    statistics: bool,
}

impl<'a> QueryFeatures<'a> {
    /// The device the flags were read from.
    pub closed spec fn device(&self) -> wgpu::Device {
        *self.device
    }

    /// Whether the device offers timestamp queries.
    pub closed spec fn timestamps(&self) -> bool {
        self.timestamps
    }

    /// Whether the device offers pipeline-statistics queries.
    pub closed spec fn statistics(&self) -> bool {
        self.statistics
    }

    /// Reads the query features of `device`.
    pub fn of(device: &'a wgpu::Device) -> (r: Self)
        ensures
            r.device() == *device,
    {
        read_query_features(device)
    }

    /// The device the flags were read from.
    pub fn device_ref(&self) -> (r: &'a wgpu::Device)
        ensures
            *r == self.device(),
    {
        self.device
    }

    /// Whether the device offers timestamp queries.
    pub fn timestamps_supported(&self) -> (r: bool)
        ensures
            r == self.timestamps(),
    {
        self.timestamps
    }

    /// Whether the device offers pipeline-statistics queries.
    pub fn statistics_supported(&self) -> (r: bool)
        ensures
            r == self.statistics(),
    {
        self.statistics
    }
}

/// Relies on wgpu::Device::features: the TIMESTAMP_QUERY and
/// PIPELINE_STATISTICS_QUERY flags of the features the device was created with.
#[verifier::external_body]
pub(crate) fn read_query_features<'a>(device: &'a wgpu::Device) -> (r: QueryFeatures<'a>)
    ensures
        r.device() == *device,
{
    let features = device.features();
    QueryFeatures {
        device,
        timestamps: features.contains(wgpu::Features::TIMESTAMP_QUERY),
        statistics: features.contains(wgpu::Features::PIPELINE_STATISTICS_QUERY),
    }
}

/// Relies on wgpu::PipelineStatisticsTypes::all: its five flags are the bits
/// 1 << 0 to 1 << 4 of a u8.
#[verifier::external_body]
pub(crate) fn all_statistics_bits() -> (r: u8)
    ensures
        r == 0x1f,
{
    wgpu::PipelineStatisticsTypes::all().bits()
}

/// Relies on wgpu::Device::create_query_set, which rejects a count of 0 or
/// above QUERY_SET_MAX_QUERIES (8192), and a kind whose device feature is
/// missing. Statistics masks hold only the five bits wgpu defines, at least
/// one of them.
#[verifier::external_body]
pub(crate) fn create_query_set(
    features: &QueryFeatures,
    kind: QueryKind,
    label: &str,
    count: u32,
) -> wgpu::QuerySet
    requires
        0 < count <= MAX_QUERIES,
        kind matches QueryKind::PipelineStatistics(bits) ==> 0 < bits <= 0x1f,
        kind is Timestamp ==> features.timestamps(),
        kind is PipelineStatistics ==> features.statistics(),
{
    let ty = match kind {
        QueryKind::Timestamp => wgpu::QueryType::Timestamp,
        QueryKind::PipelineStatistics(bits) => wgpu::QueryType::PipelineStatistics(
            wgpu::PipelineStatisticsTypes::from_bits_truncate(bits),
        ),
    };
    features.device.create_query_set(&wgpu::QuerySetDescriptor { label: Some(label), ty, count })
}

/// Relies on wgpu::Device::create_buffer: an unmapped buffer of `size` bytes
/// that can be mapped for reading and be the destination of a copy. The size
/// stays within eight words for each of `MAX_QUERIES` slots.
#[verifier::external_body]
pub(crate) fn create_readback_buffer(device: &wgpu::Device, label: &str, size: u64) -> wgpu::Buffer
    requires
        size <= 64 * MAX_QUERIES,
{
    device.create_buffer(
        &wgpu::BufferDescriptor {
            label: Some(label),
            size,
            usage: wgpu::BufferUsages::MAP_READ | wgpu::BufferUsages::COPY_DST,
            mapped_at_creation: false,
        },
    )
}

/// Relies on wgpu::Device::create_command_encoder.
#[verifier::external_body]
pub(crate) fn create_command_encoder(device: &wgpu::Device, label: &str) -> wgpu::CommandEncoder {
    device.create_command_encoder(&wgpu::CommandEncoderDescriptor { label: Some(label) })
}

/// Relies on wgpu::CommandEncoder::finish.
#[verifier::external_body]
pub(crate) fn finish_encoder(encoder: wgpu::CommandEncoder) -> wgpu::CommandBuffer {
    encoder.finish()
}

/// Relies on wgpu::CommandEncoder::write_timestamp: records a write of the GPU
/// clock into slot `slot`, which wgpu checks against the set's count.
#[verifier::external_body]
pub(crate) fn write_timestamp(encoder: &mut GpuCommandEncoder, set: &GpuQuerySet, slot: u32)
    requires
        set.wf(),
        set.kind() == QueryKind::Timestamp,
        slot < set.capacity(),
    ensures
        final(encoder).recorded() == old(encoder).recorded().push(
            QueryCommand::WriteTimestamp { slot },
        ),
{
    encoder.inner.write_timestamp(&set.inner, slot)
}

/// Relies on wgpu::CommandEncoder::resolve_query_set: records a copy of the
/// results of queries `0..count` to offset 0 of the set's readback buffer,
/// which holds `8 * words_per_query * capacity` bytes.
#[verifier::external_body]
pub(crate) fn resolve_query_set(encoder: &mut GpuCommandEncoder, set: &GpuQuerySet, count: u32)
    requires
        set.wf(),
        count <= set.capacity(),
    ensures
        final(encoder).recorded() == old(encoder).recorded().push(
            QueryCommand::Resolve { kind: set.kind(), count },
        ),
{
    encoder.inner.resolve_query_set(&set.inner, 0..count, &set.buffer, 0)
}

/// Relies on wgpu::RenderPass::begin_pipeline_statistics_query, which refuses
/// a nested query and a slot used twice in one pass; afterwards a query is
/// open in the pass.
#[verifier::external_body]
pub(crate) fn begin_statistics(pass: &mut GpuRenderPass, set: &GpuQuerySet, slot: u32)
    requires
        set.wf(),
        set.kind() is PipelineStatistics,
        slot < set.capacity(),
        !old(pass).statistics_open(),
        !old(pass).recorded().contains(QueryCommand::BeginStatistics { slot }),
    ensures
        final(pass).statistics_open(),
        final(pass).recorded() == old(pass).recorded().push(QueryCommand::BeginStatistics { slot }),
{
    pass.inner.begin_pipeline_statistics_query(&set.inner, slot)
}

/// Relies on wgpu::RenderPass::end_pipeline_statistics_query, which refuses to
/// end a query that is not open; afterwards none is open.
#[verifier::external_body]
pub(crate) fn end_statistics(pass: &mut GpuRenderPass)
    requires
        old(pass).statistics_open(),
    ensures
        !final(pass).statistics_open(),
        final(pass).recorded() == old(pass).recorded().push(QueryCommand::EndStatistics),
{
    pass.inner.end_pipeline_statistics_query()
}

/// Relies on wgpu::BufferSlice::map_async over the first `size` bytes of the
/// set's readback buffer, wgpu::Device::poll(Maintain::Wait) on the device
/// that made the buffer and futures::executor::block_on to wait for the
/// mapping, then wgpu::BufferSlice::get_mapped_range (exactly those bytes,
/// copied out) and wgpu::Buffer::unmap. wgpu asserts that the buffer is not
/// mapped already: a mapping that failed leaves that assertion armed, so a
/// set whose mapping failed is not mapped again.
#[verifier::external_body]
pub(crate) fn read_back(device: &wgpu::Device, set: &GpuQuerySet, size: u64) -> (r: Result<
    Vec<u8>,
    wgpu::BufferAsyncError,
>)
    requires
        set.wf(),
        !set.mapping_failed(),
        *device == set.device(),
        0 < size <= set.buffer_size(),
        size % 8 == 0,
    ensures
        r matches Ok(bytes) ==> bytes@.len() == size,
{
    let slice = set.buffer.slice(..size);
    let mapping = slice.map_async(wgpu::MapMode::Read);
    device.poll(wgpu::Maintain::Wait);
    futures::executor::block_on(mapping)?;
    let bytes = slice.get_mapped_range().to_vec();
    set.buffer.unmap();
    Ok(bytes)
}

} // verus!
