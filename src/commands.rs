use vstd::prelude::*;

use crate::driver::{create_command_encoder, finish_encoder};
use crate::query::QueryKind;

verus! {

/// A query command recorded into a command stream by this library.
#[derive(Clone, Copy, Debug, PartialEq, Eq, Structural)]
pub enum QueryCommand {
    /// Write the GPU clock into a timestamp slot.
    WriteTimestamp { slot: u32 },
    /// Copy the results of the first `count` queries of a set into its readback buffer.
    Resolve { kind: QueryKind, count: u32 },
    /// Start counting pipeline statistics into a slot.
    BeginStatistics { slot: u32 },
    /// Stop the pipeline statistics query that is open.
    EndStatistics,
}

/// A command encoder that remembers which query commands it was given.
pub struct GpuCommandEncoder {
    pub(crate) inner: wgpu::CommandEncoder,
    pub(crate) recorded: Ghost<Seq<QueryCommand>>,
}

impl GpuCommandEncoder {
    /// The query commands recorded so far, oldest first.
    pub closed spec fn recorded(&self) -> Seq<QueryCommand> {
        self.recorded@
    }

    /// Starts a new command stream on `device`.
    pub fn new(device: &wgpu::Device, label: &str) -> (r: Self)
        ensures
            r.recorded() == Seq::<QueryCommand>::empty(),
    {
        GpuCommandEncoder { inner: create_command_encoder(device, label), recorded: Ghost(Seq::empty()) }
    }

    /// The wgpu encoder, for recording other work such as render passes. The
    /// query commands remembered so far stay as they are.
    pub fn raw_mut(&mut self) -> (r: &mut wgpu::CommandEncoder)
        ensures
            final(self).recorded() == old(self).recorded(),
    {
        &mut self.inner
    }

    /// Closes the stream, ready to be submitted to a queue.
    pub fn finish(self) -> wgpu::CommandBuffer {
        finish_encoder(self.inner)
    }
}

/// A render pass that remembers its pipeline-statistics queries and whether one
/// is open.
pub struct GpuRenderPass<'a> {
    pub(crate) inner: wgpu::RenderPass<'a>,
    pub(crate) statistics_open: Ghost<bool>,
    pub(crate) recorded: Ghost<Seq<QueryCommand>>,
}

impl<'a> GpuRenderPass<'a> {
    /// The query commands recorded into this pass so far, oldest first.
    pub closed spec fn recorded(&self) -> Seq<QueryCommand> {
        self.recorded@
    }

    /// Whether a pipeline-statistics query was begun and not yet ended.
    pub closed spec fn statistics_open(&self) -> bool {
        self.statistics_open@
    }

    /// Wraps a freshly begun render pass, one in which no query was begun yet:
    /// the pass is taken to have no statistics query open and none recorded.
    pub fn new(inner: wgpu::RenderPass<'a>) -> (r: Self)
        ensures
            r.recorded() == Seq::<QueryCommand>::empty(),
            !r.statistics_open(),
    {
        GpuRenderPass { inner, statistics_open: Ghost(false), recorded: Ghost(Seq::empty()) }
    }

    /// Gives back the wrapped pass; dropping it ends the pass.
    pub fn into_inner(self) -> wgpu::RenderPass<'a> {
        self.inner
    }
}

} // verus!
