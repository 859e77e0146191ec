//! GPU timing and pipeline-statistics profiling over wgpu query sets.
//!
//! A [`Profiler`] keeps the ordered labels of the sections begun in the current
//! frame; the label at position `i` owns query slot `i` of every query set the
//! device supports. Query results are copied into a host-readable buffer,
//! decoded from little-endian bytes into 64-bit words, and paired with the
//! section labels to produce a per-section timing report.

pub mod buffer;
pub mod clip;
pub mod commands;
mod driver;
pub mod error;
mod gpu_types;
pub mod pipeline;
pub mod profiler;
pub mod query;
pub mod queryset;
pub mod readback;

pub use buffer::BufferInitContent;
pub use clip::{render_region, ClipRect};
pub use commands::{GpuCommandEncoder, QueryCommand, GpuRenderPass};
pub use driver::QueryFeatures;
pub use error::GpuError;
pub use pipeline::Renderer;
pub use profiler::{
    report_from_readback, section_durations, sum_statistics, Profiler, Section, PIPELINE_STATISTICS_LABELS,
};
pub use queryset::GpuQuerySet;
pub use readback::decode_words;
pub use query::{num_bits_set, query_ty_size, QueryKind, MAX_BUFFER_SIZE, MAX_QUERIES};
