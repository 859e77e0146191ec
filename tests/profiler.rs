use agpu::{
    decode_words, report_from_readback, num_bits_set, query_ty_size, section_durations, sum_statistics, GpuError,
    Profiler, QueryKind, Section, MAX_BUFFER_SIZE, MAX_QUERIES, PIPELINE_STATISTICS_LABELS,
};

fn labels_of(profiler: &Profiler) -> Vec<String> {
    profiler.section_labels().clone()
}

#[test]
fn full_statistics_query_is_five_words() {
    assert_eq!(query_ty_size(QueryKind::PipelineStatistics(0x1f)), 5);
    assert_eq!(
        query_ty_size(QueryKind::PipelineStatistics(wgpu::PipelineStatisticsTypes::all().bits())),
        5
    );
    assert_eq!(query_ty_size(QueryKind::Timestamp), 1);
    assert_eq!(query_ty_size(QueryKind::PipelineStatistics(0b0000_0101)), 2);
}

#[test]
fn counts_set_bits() {
    assert_eq!(num_bits_set(0), 0);
    assert_eq!(num_bits_set(0b1011_0001), 4);
    assert_eq!(num_bits_set(u8::MAX), 8);
    assert_eq!(num_bits_set(0x80), 1);
}

#[test]
fn limits_match_wgpu() {
    assert_eq!(MAX_QUERIES, wgpu::QUERY_SET_MAX_QUERIES);
    assert_eq!(MAX_BUFFER_SIZE, MAX_QUERIES as u64 * 8);
    assert_eq!(PIPELINE_STATISTICS_LABELS.len(), 5);
    assert_eq!(PIPELINE_STATISTICS_LABELS[0], "Vertex shader invocations");
    assert_eq!(PIPELINE_STATISTICS_LABELS[4], "Compute shader invocations");
}

#[test]
fn second_section_takes_slot_one() {
    let mut profiler = Profiler::with_query_sets(None, None);
    assert_eq!(profiler.begin_section("A"), Ok(()));
    assert_eq!(profiler.begin_section("B"), Ok(()));
    assert_eq!(profiler.query_index(), 1);
    assert_eq!(profiler.query_count(), 2);
    assert_eq!(labels_of(&profiler), vec!["A".to_string(), "B".to_string()]);
}

#[test]
fn clear_resets_query_index() {
    let mut profiler = Profiler::with_query_sets(None, None);
    profiler.begin_section("Frame start").unwrap();
    profiler.begin_section("Render pass").unwrap();
    profiler.begin_section("UI").unwrap();
    assert_eq!(profiler.query_index(), 2);
    profiler.clear();
    assert_eq!(profiler.query_count(), 0);
    profiler.begin_section("Frame start").unwrap();
    assert_eq!(profiler.query_index(), 0);
    assert_eq!(labels_of(&profiler), vec!["Frame start".to_string()]);
}

#[test]
fn profiler_without_query_sets_is_inert() {
    let mut profiler = Profiler::with_query_sets(None, None);
    assert!(!profiler.timestamps_enabled());
    assert!(!profiler.statistics_enabled());
    assert_eq!(profiler.query_count(), 0);
    assert_eq!(profiler.begin_section("Frame start"), Ok(()));
    assert_eq!(profiler.query_index(), 0);
    profiler.clear();
    assert_eq!(profiler.query_count(), 0);
    assert!(labels_of(&profiler).is_empty());
}

#[test]
fn sections_beyond_the_query_set_are_refused() {
    let mut profiler = Profiler::with_query_sets(None, None);
    for _ in 0..MAX_QUERIES {
        assert_eq!(profiler.begin_section("s"), Ok(()));
    }
    assert_eq!(profiler.query_count(), MAX_QUERIES);
    assert_eq!(profiler.begin_section("one too many"), Err(GpuError::TooManySections));
    assert_eq!(profiler.query_count(), MAX_QUERIES);
    assert_eq!(profiler.query_index(), MAX_QUERIES - 1);
    assert_eq!(profiler.section_labels().last().unwrap(), "s");
}

#[test]
fn report_pairs_each_span_with_the_section_that_ends_it() {
    let labels = vec!["start".to_string(), "mid".to_string(), "end".to_string()];
    let ticks = vec![1000_u64, 1500, 2700];
    let report = section_durations(&labels, &ticks);
    assert_eq!(report, vec![("mid".to_string(), 500), ("end".to_string(), 1200)]);

    // With one millisecond per tick (1_000_000 ns), the spans are 500 ms and 1200 ms.
    let period_ns: f32 = 1_000_000.0;
    let millis: Vec<f32> = report
        .iter()
        .map(|(_, ticks)| *ticks as f32 * period_ns / 1_000_000.0)
        .collect();
    assert_eq!(millis, vec![500.0, 1200.0]);
}

#[test]
fn report_of_one_or_no_section_is_empty() {
    assert!(section_durations(&vec!["only".to_string()], &vec![42]).is_empty());
    assert!(section_durations(&vec![], &vec![]).is_empty());
    assert!(section_durations(&vec![], &vec![1, 2, 3]).is_empty());
}

#[test]
fn report_span_wraps_when_the_clock_wraps() {
    let labels = vec!["a".to_string(), "b".to_string()];
    let report = section_durations(&labels, &vec![u64::MAX - 1, 3]);
    assert_eq!(report, vec![("b".to_string(), 5)]);
}

#[test]
fn decoding_returns_the_written_pattern() {
    let pattern = vec![0x0123_4567_89ab_cdef_u64, u64::MAX, 0, 1, 0x8000_0000_0000_0000];
    let mut bytes = Vec::new();
    for w in &pattern {
        bytes.extend_from_slice(&w.to_le_bytes());
    }
    assert_eq!(decode_words(&bytes), pattern);
}

#[test]
fn decoding_reads_least_significant_byte_first() {
    let bytes = [1_u8, 0, 0, 0, 0, 0, 0, 0, 0, 1, 0, 0, 0, 0, 0, 0];
    assert_eq!(decode_words(&bytes), vec![1, 256]);
}

#[test]
fn decoding_ignores_a_partial_word() {
    let bytes = [0xff_u8, 0, 0, 0, 0, 0, 0, 0, 7, 7, 7];
    assert_eq!(decode_words(&bytes), vec![0xff]);
    assert!(decode_words(&[]).is_empty());
    assert!(decode_words(&[1, 2, 3]).is_empty());
}

#[test]
fn statistics_are_totalled_per_kind() {
    let words: Vec<u64> = (1..=10).collect();
    assert_eq!(sum_statistics(&words), [1 + 6, 2 + 7, 3 + 8, 4 + 9, 5 + 10]);
    assert_eq!(sum_statistics(&vec![]), [0; 5]);
    assert_eq!(sum_statistics(&vec![9, 8]), [9, 8, 0, 0, 0]);
}

#[test]
fn statistics_totals_wrap() {
    let words = vec![u64::MAX, 0, 0, 0, 0, 2, 0, 0, 0, 0];
    assert_eq!(sum_statistics(&words), [1, 0, 0, 0, 0]);
}

#[test]
fn section_keeps_its_label() {
    let profiler = Profiler::with_query_sets(None, None);
    let section = Section::new(&profiler, "shadow pass");
    assert_eq!(section.label(), "shadow pass");
    assert_eq!(profiler.query_count(), 0);
}

#[test]
fn failed_readback_gives_an_empty_report() {
    let labels = vec!["start".to_string(), "mid".to_string()];
    assert!(report_from_readback(&labels, Err(GpuError::BufferAsyncError)).is_empty());
    assert_eq!(
        report_from_readback(&labels, Ok(vec![10, 25])),
        vec![("mid".to_string(), 15)]
    );
}
