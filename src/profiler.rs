use vstd::prelude::*;

use crate::commands::{GpuCommandEncoder, GpuRenderPass, QueryCommand};
use crate::driver::{begin_statistics, end_statistics, write_timestamp, QueryFeatures};
use crate::error::GpuError;
use crate::query::{QueryKind, MAX_QUERIES};
use crate::queryset::{all_statistics, lemma_full_statistics_size, GpuQuerySet};

verus! {

/// Names of the five pipeline statistics, in the order of their result words.
pub const PIPELINE_STATISTICS_LABELS: [&'static str; 5] = [
    "Vertex shader invocations",
    "Clipper invokations",
    "Clipper primitives out",
    "Fragment shader invocations",
    "Compute shader invocations",
];

/// Clock ticks from `start` to `end`, modulo 2^64.
pub open spec fn tick_span(start: u64, end: u64) -> u64 {
    if start <= end {
        (end - start) as u64
    } else {
        (end - start + 0x1_0000_0000_0000_0000) as u64
    }
}

/// The timing report for the given section labels and the timestamps of their
/// slots: for each label after the first, that label with the ticks elapsed
/// since the timestamp of the slot before it.
pub open spec fn report_of(labels: Seq<Seq<char>>, ticks: Seq<u64>) -> Seq<(Seq<char>, u64)> {
    Seq::new(
        if labels.len() == 0 {
            0
        } else {
            (labels.len() - 1) as nat
        },
        |i: int| (labels[i + 1], tick_span(ticks[i], ticks[i + 1])),
    )
}

/// A report entry as text and ticks.
pub open spec fn entry_view(e: (String, u64)) -> (Seq<char>, u64) {
    (e.0@, e.1)
}

/// Sum of the words at positions `k`, `k + 5`, `k + 10`, ... of `words`.
pub open spec fn column_sum(words: Seq<u64>, k: int) -> int
    decreases words.len(),
{
    if words.len() == 0 {
        0
    } else {
        column_sum(words.drop_last(), k) + if (words.len() - 1) % 5 == k {
            words.last() as int
        } else {
            0
        }
    }
}

/// Per-statistic totals of a run of statistics results, modulo 2^64.
pub open spec fn statistics_totals(words: Seq<u64>) -> Seq<u64> {
    Seq::new(5, |k: int| (column_sum(words, k) % 0x1_0000_0000_0000_0000) as u64)
}

/// Pairs each section after the first with the ticks elapsed since the
/// timestamp of the section before it.
pub fn section_durations(labels: &Vec<String>, ticks: &Vec<u64>) -> (r: Vec<(String, u64)>)
    requires
        ticks@.len() >= labels@.len(),
    ensures
        r@.map_values(|e: (String, u64)| entry_view(e)) == report_of(
            labels@.map_values(|s: String| s@),
            ticks@,
        ),
{
    let ghost names = labels@.map_values(|s: String| s@);
    let mut out: Vec<(String, u64)> = Vec::new();
    let mut i: usize = 1;
    while i < labels.len()
        invariant
            1 <= i,
            i <= labels@.len() || (labels@.len() == 0 && i == 1),
            ticks@.len() >= labels@.len(),
            names == labels@.map_values(|s: String| s@),
            out@.len() == i - 1,
            forall|j: int|
                0 <= j < out@.len() ==> #[trigger] entry_view(out@[j]) == report_of(names, ticks@)[j],
        decreases labels@.len() - i,
    {
        let span = ticks[i].wrapping_sub(ticks[i - 1]);
        out.push((labels[i].clone(), span));
        i = i + 1;
    }
    let ghost view = out@.map_values(|e: (String, u64)| entry_view(e));
    assert(view.len() == report_of(names, ticks@).len());
    assert forall|j: int| 0 <= j < view.len() implies view[j] == report_of(names, ticks@)[j] by {
        assert(entry_view(out@[j]) == report_of(names, ticks@)[j]);
    }
    assert(view =~= report_of(names, ticks@));
    out
}

proof fn lemma_column_sum_step(words: Seq<u64>, i: int, k: int)
    requires
        0 <= i < words.len(),
    ensures
        column_sum(words.take(i + 1), k) == column_sum(words.take(i), k) + if i % 5 == k {
            words[i] as int
        } else {
            0
        },
{
    assert(words.take(i + 1).drop_last() =~= words.take(i));
}

/// Adds up a run of statistics results, five words per query, into one total
/// per statistic; each total wraps around modulo 2^64.
pub fn sum_statistics(words: &Vec<u64>) -> (r: [u64; 5])
    ensures
        r@ == statistics_totals(words@),
{
    let mut totals: [u64; 5] = [0, 0, 0, 0, 0];
    let mut i: usize = 0;
    while i < words.len()
        invariant
            i <= words@.len(),
            forall|k: int|
                0 <= k < 5 ==> #[trigger] totals@[k] == (column_sum(words@.take(i as int), k)
                    % 0x1_0000_0000_0000_0000) as u64,
        decreases words@.len() - i,
    {
        let k: usize = i % 5;
        let ghost old_totals = totals;
        totals[k] = totals[k].wrapping_add(words[i]);
        proof {
            assert forall|c: int| 0 <= c < 5 implies #[trigger] totals@[c] == (column_sum(
                words@.take(i + 1),
                c,
            ) % 0x1_0000_0000_0000_0000) as u64 by {
                lemma_column_sum_step(words@, i as int, c);
                let prev = column_sum(words@.take(i as int), c);
                if c == k {
                    vstd::arithmetic::div_mod::lemma_add_mod_noop(
                        prev,
                        words@[i as int] as int,
                        0x1_0000_0000_0000_0000,
                    );
                    vstd::arithmetic::div_mod::lemma_small_mod(
                        words@[i as int] as nat,
                        0x1_0000_0000_0000_0000,
                    );
                    vstd::arithmetic::div_mod::lemma_mod_bound(prev, 0x1_0000_0000_0000_0000);
                    assert(old_totals@[c] == (prev % 0x1_0000_0000_0000_0000) as u64);
                    if old_totals@[c] + words@[i as int] > u64::MAX {
                        vstd::arithmetic::div_mod::lemma_mod_sub_multiples_vanish(
                            old_totals@[c] + words@[i as int],
                            0x1_0000_0000_0000_0000,
                        );
                    } else {
                        vstd::arithmetic::div_mod::lemma_small_mod(
                            (old_totals@[c] + words@[i as int]) as nat,
                            0x1_0000_0000_0000_0000,
                        );
                    }
                }
            }
        }
        i = i + 1;
    }
    assert(words@.take(words@.len() as int) =~= words@);
    assert(totals@ =~= statistics_totals(words@));
    totals
}

/// The timing report for a timestamp readback: empty when the readback
/// failed, else each section after the first with the ticks elapsed since the
/// section before it.
pub fn report_from_readback(labels: &Vec<String>, got: Result<Vec<u64>, GpuError>) -> (r: Vec<(
    String,
    u64,
)>)
    requires
        got matches Ok(ticks) ==> ticks@.len() >= labels@.len(),
    ensures
        got is Err ==> r@.len() == 0,
        got matches Ok(ticks) ==> r@.map_values(|e: (String, u64)| entry_view(e)) == report_of(
            labels@.map_values(|s: String| s@),
            ticks@,
        ),
{
    match got {
        Ok(ticks) => section_durations(labels, &ticks),
        Err(_) => Vec::new(),
    }
}

/// Timing and pipeline-statistics profiler for one GPU context.
///
/// Section labels are kept in the order the sections began; the section at
/// position `i` owns query slot `i` of each query set the device supports.
pub struct Profiler {
    timestamp: Option<GpuQuerySet>,
    stats: Option<GpuQuerySet>,
    markers: Vec<String>,
    resolved: bool,
}

impl Profiler {
    /// The labels of the sections begun since the last `clear`, oldest first.
    pub closed spec fn labels(&self) -> Seq<Seq<char>> {
        self.markers@.map_values(|s: String| s@)
    }

    /// Whether the profiler holds a timestamp query set.
    pub closed spec fn has_timestamps(&self) -> bool {
        self.timestamp is Some
    }

    /// Whether the profiler holds a pipeline-statistics query set.
    pub closed spec fn has_statistics(&self) -> bool {
        self.stats is Some
    }

    /// Every query set the profiler holds was made by `device`.
    pub closed spec fn device_is(&self, device: wgpu::Device) -> bool {
        &&& self.timestamp matches Some(q) ==> q.device() == device
        &&& self.stats matches Some(q) ==> q.device() == device
    }

    /// At most one section per query slot, and each query set present is a
    /// well-formed set of its kind with `MAX_QUERIES` slots.
    pub closed spec fn wf(&self) -> bool {
        &&& self.markers@.len() <= MAX_QUERIES
        &&& self.timestamp matches Some(q) ==> {
            &&& q.wf()
            &&& q.kind() == QueryKind::Timestamp
            &&& q.capacity() == MAX_QUERIES
        }
        &&& self.stats matches Some(q) ==> {
            &&& q.wf()
            &&& q.kind() == QueryKind::PipelineStatistics(all_statistics())
            &&& q.capacity() == MAX_QUERIES
        }
    }

    /// Creates the profiler for `device`, with a timestamp query set if the
    /// device supports timestamp queries and a statistics query set if it
    /// supports pipeline-statistics queries.
    pub fn new(device: &wgpu::Device) -> (r: Self)
        ensures
            r.wf(),
            r.labels().len() == 0,
            r.device_is(*device),
    {
        let features = QueryFeatures::of(device);
        let timestamps = features.timestamps_supported();
        let statistics = features.statistics_supported();
        Self::with_features(&features, timestamps, statistics)
    }

    /// Creates a profiler on the device of `features`, with a timestamp query
    /// set exactly when `timestamps` holds and a statistics query set exactly
    /// when `statistics` holds; each needs the matching device feature.
    pub fn with_features(features: &QueryFeatures, timestamps: bool, statistics: bool) -> (r: Self)
        requires
            timestamps ==> features.timestamps(),
            statistics ==> features.statistics(),
        ensures
            r.wf(),
            r.labels().len() == 0,
            r.has_timestamps() == timestamps,
            r.has_statistics() == statistics,
            r.device_is(features.device()),
    {
        let timestamp = if timestamps {
            Some(GpuQuerySet::new_timestamp(features, MAX_QUERIES))
        } else {
            None
        };
        let stats = if statistics {
            Some(GpuQuerySet::new_stats(features, MAX_QUERIES))
        } else {
            None
        };
        Self::with_query_sets(timestamp, stats)
    }

    /// Creates a profiler over the given query sets; `None` turns the
    /// corresponding kind of profiling off.
    pub fn with_query_sets(timestamp: Option<GpuQuerySet>, stats: Option<GpuQuerySet>) -> (r: Self)
        requires
            timestamp matches Some(q) ==> {
                &&& q.wf()
                &&& q.kind() == QueryKind::Timestamp
                &&& q.capacity() == MAX_QUERIES
            },
            stats matches Some(q) ==> {
                &&& q.wf()
                &&& q.kind() == QueryKind::PipelineStatistics(all_statistics())
                &&& q.capacity() == MAX_QUERIES
            },
        ensures
            r.wf(),
            r.labels().len() == 0,
            r.has_timestamps() == timestamp is Some,
            r.has_statistics() == stats is Some,
            forall|d: wgpu::Device|
                #[trigger] r.device_is(d) == ((timestamp matches Some(q) ==> q.device() == d) && (
                stats matches Some(q) ==> q.device() == d)),
    {
        let r = Profiler { timestamp, stats, markers: Vec::new(), resolved: false };
        assert(r.labels() =~= Seq::<Seq<char>>::empty());
        r
    }

    /// Whether the profiler records timestamps.
    pub fn timestamps_enabled(&self) -> (r: bool)
        ensures
            r == self.has_timestamps(),
    {
        self.timestamp.is_some()
    }

    /// Whether the profiler records pipeline statistics.
    pub fn statistics_enabled(&self) -> (r: bool)
        ensures
            r == self.has_statistics(),
    {
        self.stats.is_some()
    }

    /// The labels of this frame's sections, oldest first.
    pub fn section_labels(&self) -> (r: &Vec<String>)
        ensures
            r@.map_values(|s: String| s@) == self.labels(),
    {
        &self.markers
    }

    /// Number of sections begun this frame, which is also the number of query
    /// slots in use.
    pub fn query_count(&self) -> (r: u32)
        requires
            self.wf(),
        ensures
            r == self.labels().len(),
    {
        self.markers.len() as u32
    }

    /// The query slot of the most recently begun section.
    pub fn query_index(&self) -> (r: u32)
        requires
            self.wf(),
            self.labels().len() > 0,
        ensures
            r == self.labels().len() - 1,
    {
        self.query_count() - 1
    }

    /// Begins a section named `label`; it owns the next query slot. Fails,
    /// changing nothing, when every slot of the frame is already taken.
    pub fn begin_section(&mut self, label: &str) -> (r: Result<(), GpuError>)
        requires
            old(self).wf(),
        ensures
            final(self).wf(),
            final(self).has_timestamps() == old(self).has_timestamps(),
            final(self).has_statistics() == old(self).has_statistics(),
            forall|d: wgpu::Device| #[trigger] final(self).device_is(d) == old(self).device_is(d),
            old(self).labels().len() < MAX_QUERIES ==> r is Ok && final(self).labels() == old(
                self,
            ).labels().push(label@),
            old(self).labels().len() >= MAX_QUERIES ==> r == Err::<(), GpuError>(
                GpuError::TooManySections,
            ) && final(self).labels() == old(self).labels(),
    {
        if self.markers.len() >= MAX_QUERIES as usize {
            return Err(GpuError::TooManySections);
        }
        let ghost before = self.markers@;
        self.markers.push(label.to_string());
        assert(self.markers@.map_values(|s: String| s@) =~= before.map_values(|s: String| s@).push(
            label@,
        ));
        Ok(())
    }

    /// Records a timestamp write into the slot of the most recently begun
    /// section. Does nothing without a timestamp query set. The label is the
    /// one already given to `begin_section`.
    pub fn timestamp(&self, label: &str, encoder: &mut GpuCommandEncoder)
        requires
            self.wf(),
            self.has_timestamps() ==> self.labels().len() > 0,
        ensures
            final(encoder).recorded() == if self.has_timestamps() {
                old(encoder).recorded().push(
                    QueryCommand::WriteTimestamp { slot: (self.labels().len() - 1) as u32 },
                )
            } else {
                old(encoder).recorded()
            },
    {
        if let Some(ts_qs) = &self.timestamp {
            let slot = self.query_index();
            write_timestamp(encoder, ts_qs, slot);
        }
    }

    /// Begins a section named `label` and records a timestamp into its slot.
    pub fn begin_profiler_section(&mut self, label: &str, encoder: &mut GpuCommandEncoder) -> (r:
        Result<(), GpuError>)
        requires
            old(self).wf(),
        ensures
            final(self).wf(),
            final(self).has_timestamps() == old(self).has_timestamps(),
            final(self).has_statistics() == old(self).has_statistics(),
            forall|d: wgpu::Device| #[trigger] final(self).device_is(d) == old(self).device_is(d),
            old(self).labels().len() < MAX_QUERIES ==> {
                &&& r is Ok
                &&& final(self).labels() == old(self).labels().push(label@)
                &&& final(encoder).recorded() == if old(self).has_timestamps() {
                    old(encoder).recorded().push(
                        QueryCommand::WriteTimestamp { slot: old(self).labels().len() as u32 },
                    )
                } else {
                    old(encoder).recorded()
                }
            },
            old(self).labels().len() >= MAX_QUERIES ==> {
                &&& r == Err::<(), GpuError>(GpuError::TooManySections)
                &&& final(self).labels() == old(self).labels()
                &&& final(encoder).recorded() == old(encoder).recorded()
            },
    {
        let r = self.begin_section(label);
        if r.is_ok() {
            self.timestamp(label, encoder);
        }
        r
    }

    /// Begins a pipeline-statistics query in `pass` for the slot of the most
    /// recently begun section. Does nothing without a statistics query set.
    pub fn begin_stats(&self, pass: &mut GpuRenderPass)
        requires
            self.wf(),
            self.has_statistics() ==> {
                &&& self.labels().len() > 0
                &&& !old(pass).statistics_open()
                &&& !old(pass).recorded().contains(
                    QueryCommand::BeginStatistics { slot: (self.labels().len() - 1) as u32 },
                )
            },
        ensures
            self.has_statistics() ==> {
                &&& final(pass).statistics_open()
                &&& final(pass).recorded() == old(pass).recorded().push(
                    QueryCommand::BeginStatistics { slot: (self.labels().len() - 1) as u32 },
                )
            },
            !self.has_statistics() ==> {
                &&& final(pass).statistics_open() == old(pass).statistics_open()
                &&& final(pass).recorded() == old(pass).recorded()
            },
    {
        if let Some(stats_qs) = &self.stats {
            let slot = self.query_index();
            begin_statistics(pass, stats_qs, slot);
        }
    }

    /// Ends the pipeline-statistics query open in `pass`. Does nothing without
    /// a statistics query set.
    pub fn end_stats(&self, pass: &mut GpuRenderPass)
        requires
            self.has_statistics() ==> old(pass).statistics_open(),
        ensures
            self.has_statistics() ==> {
                &&& !final(pass).statistics_open()
                &&& final(pass).recorded() == old(pass).recorded().push(QueryCommand::EndStatistics)
            },
            !self.has_statistics() ==> {
                &&& final(pass).statistics_open() == old(pass).statistics_open()
                &&& final(pass).recorded() == old(pass).recorded()
            },
    {
        if self.stats.is_some() {
            end_statistics(pass);
        }
    }

    /// Records the resolve of the statistics query set for every section of
    /// the frame. Does nothing without a statistics query set.
    pub fn resolve(&self, encoder: &mut GpuCommandEncoder)
        requires
            self.wf(),
        ensures
            final(encoder).recorded() == if self.has_statistics() {
                old(encoder).recorded().push(
                    QueryCommand::Resolve {
                        kind: QueryKind::PipelineStatistics(all_statistics()),
                        count: self.labels().len() as u32,
                    },
                )
            } else {
                old(encoder).recorded()
            },
    {
        if let Some(stats_qs) = &self.stats {
            stats_qs.resolve(self.query_count(), encoder);
        }
    }

    /// Records the resolve of every query set the profiler holds, timestamps
    /// first, for every section of the frame.
    pub fn resolve_all(&self, encoder: &mut GpuCommandEncoder)
        requires
            self.wf(),
        ensures
            final(encoder).recorded() == old(encoder).recorded() + (if self.has_timestamps() {
                seq![
                    QueryCommand::Resolve {
                        kind: QueryKind::Timestamp,
                        count: self.labels().len() as u32,
                    },
                ]
            } else {
                Seq::<QueryCommand>::empty()
            }) + (if self.has_statistics() {
                seq![
                    QueryCommand::Resolve {
                        kind: QueryKind::PipelineStatistics(all_statistics()),
                        count: self.labels().len() as u32,
                    },
                ]
            } else {
                Seq::<QueryCommand>::empty()
            }),
    {
        let ghost start = encoder.recorded();
        if let Some(ts_qs) = &self.timestamp {
            ts_qs.resolve(self.query_count(), encoder);
        }
        self.resolve(encoder);
        assert(encoder.recorded() =~= start + (if self.has_timestamps() {
            seq![QueryCommand::Resolve { kind: QueryKind::Timestamp, count: self.labels().len() as u32 }]
        } else {
            Seq::<QueryCommand>::empty()
        }) + (if self.has_statistics() {
            seq![
                QueryCommand::Resolve {
                    kind: QueryKind::PipelineStatistics(all_statistics()),
                    count: self.labels().len() as u32,
                },
            ]
        } else {
            Seq::<QueryCommand>::empty()
        }));
    }

    /// Reads back the timestamps of this frame's sections and pairs each
    /// section after the first with the ticks elapsed since the section
    /// before it. Empty without a timestamp query set, and when the readback
    /// fails. `device` is the one that made the query sets.
    pub fn tick_report(&mut self, device: &wgpu::Device) -> (r: Vec<(String, u64)>)
        requires
            old(self).wf(),
            old(self).device_is(*device),
        ensures
            final(self).wf(),
            final(self).labels() == old(self).labels(),
            final(self).has_timestamps() == old(self).has_timestamps(),
            final(self).has_statistics() == old(self).has_statistics(),
            forall|d: wgpu::Device| #[trigger] final(self).device_is(d) == old(self).device_is(d),
            !old(self).has_timestamps() ==> r@.len() == 0,
            r@.len() == 0 || exists|ticks: Seq<u64>|
                ticks.len() == old(self).labels().len() && #[trigger] report_of(
                    old(self).labels(),
                    ticks,
                ) == r@.map_values(|e: (String, u64)| entry_view(e)),
    {
        let count = self.query_count();
        let got = match &mut self.timestamp {
            None => {
                return Vec::new();
            },
            Some(timestamp) => timestamp.get(device, count),
        };
        report_from_readback(&self.markers, got)
    }

    /// Reads back this frame's pipeline statistics and totals each statistic
    /// over all sections, in the order of `PIPELINE_STATISTICS_LABELS`.
    /// `device` is the one that made the query sets.
    pub fn total_statistics(&mut self, device: &wgpu::Device) -> (r: Result<[u64; 5], GpuError>)
        requires
            old(self).wf(),
            old(self).device_is(*device),
        ensures
            final(self).wf(),
            final(self).labels() == old(self).labels(),
            final(self).has_timestamps() == old(self).has_timestamps(),
            final(self).has_statistics() == old(self).has_statistics(),
            forall|d: wgpu::Device| #[trigger] final(self).device_is(d) == old(self).device_is(d),
            !old(self).has_statistics() ==> r == Err::<[u64; 5], GpuError>(GpuError::QueryNone),
            r matches Ok(totals) ==> exists|words: Seq<u64>|
                words.len() == 5 * old(self).labels().len() && #[trigger] statistics_totals(words)
                    == totals@,
            r matches Err(e) ==> (e == GpuError::QueryNone && !old(self).has_statistics()) || (e
                == GpuError::BufferAsyncError && old(self).has_statistics() && old(
                self,
            ).labels().len() > 0),
    {
        let count = self.query_count();
        proof {
            lemma_full_statistics_size();
        }
        match &mut self.stats {
            None => Err(GpuError::QueryNone),
            Some(stats) => match stats.get(device, count) {
                Ok(words) => Ok(sum_statistics(&words)),
                Err(e) => Err(e),
            },
        }
    }

    /// Forgets this frame's sections, so that the next section begun takes
    /// query slot 0 again.
    pub fn clear(&mut self)
        requires
            old(self).wf(),
        ensures
            final(self).wf(),
            final(self).labels().len() == 0,
            final(self).has_timestamps() == old(self).has_timestamps(),
            final(self).has_statistics() == old(self).has_statistics(),
            forall|d: wgpu::Device| #[trigger] final(self).device_is(d) == old(self).device_is(d),
    {
        self.markers.clear();
        self.resolved = false;
        assert(self.labels() =~= Seq::<Seq<char>>::empty());
    }
}

/// Once `clear` has emptied a profiler's labels, the next section begun is the
/// only one and owns query slot 0.
pub proof fn lemma_clear_resets_index(cleared: Profiler, next: Profiler, label: Seq<char>)
    requires
        cleared.labels().len() == 0,
        next.labels() == cleared.labels().push(label),
    ensures
        next.labels().len() - 1 == 0,
        next.labels() == seq![label],
{
    assert(next.labels() =~= seq![label]);
}

/// A named profiler section.
pub struct Section<'a> {
    pub(crate) profiler: &'a Profiler,
    pub(crate) label: String,
}

impl<'a> Section<'a> {
    /// The section's name.
    pub closed spec fn name(&self) -> Seq<char> {
        self.label@
    }

    /// Names a section of `profiler`.
    pub fn new(profiler: &'a Profiler, label: &'a str) -> (r: Section<'a>)
        ensures
            r.name() == label@,
    {
        let label = label.to_string();
        Section { profiler, label }
    }

    /// The section's name.
    pub fn label(&self) -> (r: &str)
        ensures
            r@ == self.name(),
    {
        self.label.as_str()
    }
}

} // verus!
