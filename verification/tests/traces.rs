use rusqlite::Connection;
use timeless_tools::blobs::{log_batch, metrics_v0, require_outputs, FixtureKind};
use timeless_tools::fixture_build::{
    accept_event, build_fixture, compressed_blocks, keeps_part, process_memory, rss_hwm_kib,
    FixtureAction, FixtureEvent, FixtureFault, ProbeFault, ProbePart, RichProbe,
};
use timeless_tools::frames::{
    aggregate_agrees, bitmap_ok, decode_aggregate, decode_latest, decode_rollup, latest_agrees,
    read_i64s, read_u32, Aggregate, FrameValue,
};
use timeless_tools::json::Json;
use timeless_tools::probes::{conflict_fails_closed, proc_memory};
use timeless_tools::ranks::{floor_percentile, latency_summary, percentile, sorted_percentiles};
use timeless_tools::rich_logs::{flat_batch, rich_batch, rich_entries};
use timeless_tools::rich_traces::{
    contract_fixture, percentile_cases, percentile_contract, percentile_span, rich_span,
};
use timeless_tools::spans::{batch, fixed_be, hex};
use timeless_tools::stats::{
    growth_is_representable, prefix_numeric_delta, select_fields, stat, stat_delta, stat_i64,
    work_delta, StatError,
};
use timeless_tools::trace_duration::{
    check_bounded_work, check_initial, check_legacy_work, check_measurement, check_optimized,
    is_wal, miss_query, optimize_command, total_bytes, validate_table, EvidenceError, TableError,
};
use timeless_tools::trace_fixture::{
    fixture_duration, fixture_extent, fixture_span, fixture_spans, BASE_NS, BATCH_SPANS,
};
use timeless_tools::trace_plan::{
    attribute_case, binary_identity, build_of, check_cardinality, check_run, check_sql,
    current_branch, extension_identity, git_commit, git_line, http_shape, names_commit, one_size,
    posting_expectation, posting_window_stop, require_bucket_spans, require_clean_tracked_worktree,
    require_jaeger_cardinality, require_posting_work, run_sql, trace_summary_prefix,
    trace_summary_sql, trace_summary_two_scan_sql, AttributeShape, BucketRow, IdentityError,
    PostingShape, RunError, SearchError,
};
use timeless_tools::values::SqlValue;

#[test]
fn nearest_rank_percentiles_are_stable() {
    let values = [40, 10, 30, 20];
    assert_eq!(percentile(&values, 50), 20);
    assert_eq!(percentile(&values, 95), 40);
    assert_eq!(percentile(&values, 99), 40);
}

#[test]
fn fixed_width_big_endian_identity_preserves_low_bits() {
    assert_eq!(fixed_be::<8>(0x0102), [0, 0, 0, 0, 0, 0, 1, 2]);
    assert_eq!(&fixed_be::<16>(1)[8..], &[0, 0, 0, 0, 0, 0, 0, 1]);
}

#[test]
fn every_authoritative_batch_has_the_pinned_duration_quantiles() {
    let mut durations = (0..BATCH_SPANS).map(fixture_duration).collect::<Vec<_>>();
    durations.sort_unstable();
    assert_eq!(durations[4_095], 100_000);
    assert_eq!(durations[7_782], 900_000);
    assert_eq!(durations[8_109], 900_000);
}

#[test]
fn attribute_evidence_binds_each_query_shape_exactly() {
    let connection = Connection::open_in_memory().unwrap();
    connection
        .execute_batch(
            "CREATE TABLE traces(\
                   trace_id BLOB,span_id BLOB,start_ts INTEGER,attributes TEXT,\
                   attribute_filter TEXT\
                 )",
        )
        .unwrap();
    assert_eq!(
        connection
            .prepare(AttributeShape::ExactCount.control_sql())
            .unwrap()
            .parameter_count(),
        3
    );
    assert_eq!(
        connection
            .prepare(AttributeShape::BooleanTrue.control_sql())
            .unwrap()
            .parameter_count(),
        2
    );
    for shape in [AttributeShape::ExactCount, AttributeShape::BooleanTrue] {
        assert_eq!(
            connection.prepare(shape.candidate_sql()).unwrap().parameter_count(),
            3
        );
    }
}

#[test]
fn floor_ranks_and_summaries_are_exact() {
    assert_eq!(floor_percentile(&[1, 2, 3, 4], 50), 2);
    assert_eq!(floor_percentile(&[1, 2, 3, 4], 99), 3);
    assert_eq!(floor_percentile(&[7], 400), 7);
    let summary = latency_summary(&[5, 1, 4, 2, 3]);
    assert_eq!((summary.min, summary.p50, summary.p95, summary.max), (1, 3, 5, 5));
    assert_eq!(sorted_percentiles(&[7, 7, 7, 11]), (7, 11, 11));
    assert_eq!(percentile(&[], 50), 0);
}

#[test]
fn identities_are_read_from_hexadecimal() {
    assert_eq!(hex::<4>("00ff10aB"), [0, 255, 16, 171]);
    assert_eq!(fixed_be::<2>(0x01_02_03), [2, 3]);
}

#[test]
fn span_batches_have_their_columns() {
    let spans = contract_fixture();
    let rich = batch(&spans, 2);
    let plain = batch(&spans, 1);
    assert_eq!(&rich[..8], &[2, 0, 0, 0, 2, 0, 0, 0]);
    assert_eq!(&rich[8..12], &[0x00, 0x11, 0x22, 0x33]);
    assert!(plain.len() < rich.len());
    assert_eq!(&plain[8..], &rich[8..plain.len()]);
    assert_eq!(rich_span(4, Some(9)).start_ts, 9);
    assert_eq!(rich_span(4, None).parent_span_id, Some([0, 0, 0, 0, 0, 0, 0, 3]));
    assert_eq!(rich_span(3, None).duration_ns, 303);
}

#[test]
fn percentile_cases_are_judged_exactly() {
    let cases = percentile_cases();
    assert_eq!(cases.iter().map(|case| case.values.len()).collect::<Vec<_>>(), [1, 129, 257, 257, 8192]);
    assert!(percentile_contract(&cases[2].values, (257, 128, 244, 254)));
    assert!(!percentile_contract(&cases[2].values, (257, 128, 244, 255)));
    for service in ["large-random", "a \"b\" \\ c", "\u{1}\u{8}\t\n\u{c}\r\u{1f}\u{7f}/é空"] {
        let span = percentile_span(7, service, 3, 9);
        assert_eq!(
            span.attributes,
            format!("{{\"service.name\":{}}}", serde_json::to_string(service).unwrap())
        );
    }
}

#[test]
fn log_batches_have_their_columns() {
    let flat = flat_batch(5);
    assert_eq!(&flat[..8], &[1, 0, 0, 0, 1, 0, 0, 0]);
    assert_eq!(flat[16], 1);
    let rich = rich_batch(&rich_entries());
    assert_eq!(&rich[..8], &[2, 0, 0, 0, 3, 0, 0, 0]);
    let cycle = log_batch(256, 2, 1);
    assert_eq!(&cycle[8..16], &256i64.to_le_bytes());
    assert_eq!(&cycle[16..24], &257i64.to_le_bytes());
    assert!(!metrics_v0().is_empty());
}

#[test]
fn fixtures_need_their_output_paths() {
    assert!(require_outputs(1, 1, FixtureKind::MetricsV0).is_ok());
    let error = require_outputs(1, 2, FixtureKind::LogsTracesV0).unwrap_err();
    assert_eq!(error.message(), "fixture LogsTracesV0 needs 2 output path(s), received 1");
    assert_eq!(timeless_tools::blobs::write(FixtureKind::LogsTracesV0, 2).unwrap().len(), 2);
    let whole = timeless_tools::blobs::write(FixtureKind::MetricsV0, 1).unwrap();
    let cut = timeless_tools::blobs::write(FixtureKind::MetricsV0Truncated, 1).unwrap();
    assert!(cut[0].len() < whole[0].len());
}

#[test]
fn frames_are_decoded_and_compared() {
    assert_eq!(read_u32(&[1, 2, 0, 0], 0), Ok(513));
    assert!(read_u32(&[1, 2, 0], 0).is_err());
    assert_eq!(read_i64s(&[255; 8], 0, 1), Ok(vec![-1]));
    assert!(bitmap_ok(&[0b11], 2));
    assert!(!bitmap_ok(&[0b111], 2));
    let mut frame = b"TAF1".to_vec();
    frame.extend([0, 0, 0, 0]);
    frame.extend(2u32.to_le_bytes());
    frame.extend(7i64.to_le_bytes());
    frame.extend(5i64.to_le_bytes());
    frame.push(0b01);
    frame.extend(1.5f64.to_bits().to_le_bytes());
    frame.extend(0u64.to_le_bytes());
    let (kind, rows) = decode_aggregate(&frame).unwrap();
    assert_eq!(kind, 0);
    assert!(matches!(rows[0], (7, FrameValue::Real(bits)) if bits == 1.5f64.to_bits()));
    assert!(matches!(rows[1], (5, FrameValue::Absent)));
    let expected = vec![
        vec![SqlValue::Integer(5), SqlValue::Null],
        vec![SqlValue::Integer(7), SqlValue::Real(1.5f64.to_bits())],
    ];
    assert!(aggregate_agrees(&rows, &expected));
    frame.pop();
    assert!(decode_aggregate(&frame).is_err());
    let mut latest = b"TLF1".to_vec();
    latest.extend(1u32.to_le_bytes());
    latest.extend(1i64.to_le_bytes());
    latest.extend(10i64.to_le_bytes());
    latest.push(1);
    latest.extend(2.0f64.to_bits().to_le_bytes());
    let rows = decode_latest(&latest).unwrap();
    assert_eq!(rows, [(1, 10, Some(2.0f64.to_bits()))]);
    assert!(latest_agrees(&rows, &rows));
    assert!(decode_rollup(b"TRB1\0\0\0\0").is_ok());
    assert!(decode_rollup(b"TRB2\0\0\0\0").is_err());
    assert_eq!(Aggregate::Last.name(), "last");
}

fn pairs(list: &[(&str, i64)]) -> Vec<(String, i64)> {
    list.iter().map(|(key, value)| ((*key).to_owned(), *value)).collect()
}

fn numbers(list: &[(&str, u64)]) -> Json {
    Json::Object(list.iter().map(|(key, value)| ((*key).to_owned(), Json::Unsigned(*value))).collect())
}

#[test]
fn counters_are_subtracted() {
    let before = pairs(&[("query_count", 1), ("other", 5)]);
    let after = pairs(&[("query_count", 4), ("query_new", 9), ("other", 6)]);
    assert_eq!(stat(&after, "other"), Ok(6));
    assert_eq!(stat(&after, "none"), Err(StatError::Omitted("none".to_owned())));
    assert_eq!(stat_delta(&before, &after, "query_count"), Ok(3));
    assert_eq!(stat_delta(&before, &after, "query_new"), Err(StatError::OmittedBefore("query_new".to_owned())));
    assert_eq!(stat_delta(&before, &pairs(&[]), "other"), Err(StatError::OmittedAfter("other".to_owned())));
    assert_eq!(work_delta(&before, &after), pairs(&[("query_count", 3)]));
    let first = numbers(&[("query_a", 1), ("b", 1)]);
    let second = numbers(&[("query_a", 5), ("b", 2)]);
    assert_eq!(stat_i64(&second, "query_a"), Some(5));
    assert!(growth_is_representable(&first, &second, "query_"));
    let growth = prefix_numeric_delta(&first, &second, "query_");
    assert_eq!(growth.len(), 1);
    assert!(matches!(&growth[0], (key, Json::Unsigned(4)) if key == "query_a"));
    assert_eq!(select_fields(&second, &["b", "c"]).len(), 2);
}

#[test]
fn duration_evidence_is_held_to_its_counters() {
    assert_eq!(validate_table("spans_1"), Ok(()));
    assert_eq!(validate_table(""), Err(TableError::Empty));
    assert_eq!(validate_table("a\"b"), Err(TableError::Characters));
    assert!(miss_query("spans").contains("FROM \"spans\" WHERE service=?1 AND duration_ns>=?2"));
    assert_eq!(optimize_command("spans"), "INSERT INTO \"spans\"(\"spans\") VALUES('optimize')");
    assert!(is_wal("WAL") && is_wal("wal") && !is_wal("delete"));
    assert_eq!(
        check_initial(&pairs(&[("total_spans", 0)])),
        Err(EvidenceError::EmptyFixture)
    );
    assert_eq!(
        check_initial(&pairs(&[("total_spans", 1), ("duration_unknown_blocks", 0)])),
        Err(EvidenceError::NoLegacyBlocks)
    );
    assert_eq!(check_initial(&pairs(&[])), Err(EvidenceError::Omitted("total_spans")));
    assert_eq!(
        check_initial(&pairs(&[("total_spans", 1), ("duration_unknown_blocks", 2)])),
        Ok(())
    );
    let optimized = |unknown, bounded| {
        pairs(&[
            ("duration_unknown_blocks", unknown),
            ("duration_bounded_blocks", bounded),
            ("blocks", 3),
        ])
    };
    assert_eq!(check_optimized(&optimized(0, 3)), Ok(()));
    assert_eq!(check_optimized(&optimized(1, 3)), Err(EvidenceError::LegacyBlocksLeft));
    assert_eq!(check_optimized(&optimized(0, 2)), Err(EvidenceError::UnboundedBlocks));
    let work = |a, b| pairs(&[("query_candidate_blocks", a), ("query_decoded_spans", b)]);
    assert_eq!(check_legacy_work(&work(0, 0), &work(1, 1)), Ok(()));
    assert_eq!(
        check_legacy_work(&work(0, 0), &work(1, 0)),
        Err(EvidenceError::LegacyDidNotDecode)
    );
    assert_eq!(check_bounded_work(&work(1, 1), &work(1, 1)), Ok(()));
    assert_eq!(
        check_bounded_work(&work(1, 1), &work(1, 2)),
        Err(EvidenceError::BoundedDecoded)
    );
    assert_eq!(check_measurement(0, 0), Err(EvidenceError::Iterations));
    assert_eq!(check_measurement(1, 2), Err(EvidenceError::Matched(2)));
    assert_eq!(check_measurement(1, 0), Ok(()));
    assert_eq!(total_bytes(1, 2, 3), 6);
    assert_eq!(total_bytes(u64::MAX, 2, 3), u64::MAX);
}

#[test]
fn fixtures_are_built_batch_by_batch() {
    let mut inserts = 0;
    let mut step = 0;
    while let Some(action) = build_fixture(3, true, step) {
        if matches!(action, FixtureAction::Insert(_)) {
            inserts += 1;
        }
        step += 1;
    }
    assert_eq!(inserts, 3);
    assert_eq!(fixture_spans(0).len(), BATCH_SPANS);
    assert_eq!(fixture_span(0, 0).start_ts, BASE_NS);
    assert_eq!(fixture_extent(2).0, 2 * BATCH_SPANS);
    assert_eq!(fixture_extent(2).1, BASE_NS + 3_600_000_000_000 + 8_191_000);
    assert_eq!(fixture_extent(2_089_826).0, 2_089_826 * BATCH_SPANS);
    assert_eq!(
        process_memory("VmHWM:\t 20 kB\nVmRSS:\t 10 kB\n").map(|m| (m.rss_kib, m.hwm_kib)),
        Some((Some(10), Some(20)))
    );
    assert_eq!(rss_hwm_kib("VmHWM:\t 20 kB\n"), Some(20));
    assert!(compressed_blocks(&Json::Null).is_none());
}

#[test]
fn baselines_are_planned() {
    assert_eq!(check_run(1, 0), Err(RunError::TooFewBatches));
    assert!(check_run(2, 0).is_err());
    assert!(check_sql(0, 1).is_err());
    assert_eq!(check_sql(1, 1), Ok(()));
    let shape = http_shape(0).unwrap();
    assert!(shape.path.starts_with('/'));
    assert!(AttributeShape::ExactCount.candidate_filter(7).contains('7'));
    let case = attribute_case(AttributeShape::ExactCount, false, BASE_NS, BASE_NS + 10, 8_192);
    assert!(case.lower <= case.upper);
    let mut shapes = 0;
    while let Some(shape) = PostingShape::at(shapes) {
        let expected = posting_expectation(shape, 1);
        assert_eq!(
            expected.rows,
            (0..BATCH_SPANS).filter(|global| shape.matches(*global)).count(),
            "{}",
            shape.name()
        );
        shapes += 1;
    }
    assert_eq!(shapes, 4);
    assert!(posting_window_stop(BASE_NS, 1) > BASE_NS);
    assert_eq!(
        posting_window_stop(i64::MIN, 2_000_001),
        i64::MIN + 2_000_000 * 3_600_000_000_000 + (BATCH_SPANS as i64 - 1) * 1_000
    );
    assert!(require_posting_work(&Json::Null, posting_expectation(PostingShape::Service, 1), 1).is_some());
    assert!(trace_summary_sql(true, false).starts_with(&trace_summary_prefix(true)));
    assert_eq!(trace_summary_sql(false, false), trace_summary_two_scan_sql(false));
    assert!(run_sql(0, BASE_NS, BASE_NS + 10, 8_192).is_some());
    assert!(one_size(&[3, 3]) && !one_size(&[3, 4]));
    assert_eq!(git_commit(), ["rev-parse", "HEAD"]);
    assert_eq!(current_branch()[0], "branch");
    assert_eq!(git_line(true, " c0ffee\n"), Some("c0ffee".to_owned()));
    assert_eq!(git_line(false, "c0ffee"), None);
    assert!(require_clean_tracked_worktree(true, "").is_ok());
    assert!(require_clean_tracked_worktree(true, " M a").is_err());
}

#[test]
fn builds_name_their_commits() {
    let identity = binary_identity(b"{\"commit\":\"c0ffee\",\"dirty\":false}\n", "c0ffee").unwrap();
    assert!(matches!(identity, Json::Object(members) if members.len() == 2));
    assert_eq!(binary_identity(b"{}", "c0ffee").unwrap_err(), IdentityError::OtherCommit);
    assert_eq!(binary_identity(b"c0ffee", "c0ffee").unwrap_err(), IdentityError::Document);
    assert!(!names_commit(&Json::Null, "c0ffee"));
    let build = extension_identity("{\"build\":{\"commit\":\"c0ffee\"}}", "c0ffee").unwrap();
    assert!(names_commit(&build, "c0ffee"));
    assert_eq!(extension_identity("{}", "c0ffee").unwrap_err(), IdentityError::NoBuild);
    assert_eq!(
        extension_identity("{\"build\":{\"commit\":1}}", "c0ffee").unwrap_err(),
        IdentityError::OtherCommit
    );
    assert_eq!(extension_identity("", "c0ffee").unwrap_err(), IdentityError::Document);
    assert_eq!(build_of(&Json::Null, "c0ffee").unwrap_err(), IdentityError::NoBuild);
}

#[test]
fn searches_return_so_many_traces_and_spans() {
    let body = b"{\"data\":[{\"spans\":[1,2]},{\"spans\":[3]},{}]}";
    assert_eq!(require_jaeger_cardinality(body, 3, 3), Ok(()));
    assert_eq!(require_jaeger_cardinality(body, 3, 2), Err(SearchError::Cardinality));
    assert_eq!(require_jaeger_cardinality(body, 2, 3), Err(SearchError::Cardinality));
    assert_eq!(require_jaeger_cardinality(b"{\"data\":{}}", 0, 0), Err(SearchError::NoData));
    assert_eq!(require_jaeger_cardinality(b"{\"data\":[]", 0, 0), Err(SearchError::Document));
    assert_eq!(check_cardinality(&Json::Null, 1, 1), Some(SearchError::NoData));
}

fn probe() -> RichProbe {
    RichProbe {
        service: "bench".to_owned(),
        attributes: "{\"nested\":{\"unicode\":\"空🔥\"}}".to_owned(),
        events: "[{\"name\":\"exception\"}]".to_owned(),
        resource: "{\"deployment.environment\":\"baseline\"}".to_owned(),
        scope: "{\"attributes\":{\"debug\":false},\"name\":\"trace-baseline\"}".to_owned(),
        links: "[{\"attributes\":{\"reason\":\"baseline\"}}]".to_owned(),
        trace_state: "bench=root".to_owned(),
        trace_flags: i64::from(u32::MAX),
        dropped_attributes: 1,
        dropped_events: 2,
        dropped_links: 3,
        resource_schema_url: "https://example.test/resource/1".to_owned(),
        scope_schema_url: "https://example.test/scope/2".to_owned(),
        resource_dropped_attributes: 4,
        scope_dropped_attributes: 5,
    }
}

#[test]
fn the_first_span_comes_back_whole() {
    assert_eq!(probe().check(), None);
    let mut own = probe();
    let span = fixture_span(0, 0);
    own.attributes = span.attributes.clone();
    own.events = span.events.clone();
    own.links = span.links.clone();
    assert_eq!(own.check(), None);
    own.service = "other".to_owned();
    assert_eq!(own.check(), Some(ProbeFault::Service));
    let mut own = probe();
    own.events = "[]".to_owned();
    assert_eq!(own.check(), Some(ProbeFault::Changed(ProbePart::Events)));
    own.attributes = "{".to_owned();
    assert_eq!(own.check(), Some(ProbeFault::Unreadable(ProbePart::Attributes)));
    let mut own = probe();
    own.scope = "{\"name\":\"trace-baseline\"}".to_owned();
    assert_eq!(own.check(), Some(ProbeFault::Changed(ProbePart::Scope)));
    let mut own = probe();
    own.trace_flags = 1;
    assert_eq!(own.check(), Some(ProbeFault::State));
    let mut own = probe();
    own.dropped_links = 0;
    assert_eq!(own.check(), Some(ProbeFault::Dropped));
    let mut own = probe();
    own.resource_schema_url.clear();
    assert_eq!(own.check(), Some(ProbeFault::ResourceSchema));
    let mut own = probe();
    own.scope_schema_url.clear();
    assert_eq!(own.check(), Some(ProbeFault::ScopeSchema));
    let mut own = probe();
    own.scope_dropped_attributes = 4;
    assert_eq!(own.check(), Some(ProbeFault::OuterDropped));
    assert!(!keeps_part(ProbePart::Resource, &Json::Null));
    let event = FixtureEvent::Probed(own);
    assert_eq!(
        accept_event(16, 27, &event),
        Err(FixtureFault::Probe(ProbeFault::OuterDropped))
    );
}

#[test]
fn buckets_must_hold_every_span() {
    let row = |spans| BucketRow {
        bucket_ts: 0,
        service: "api".to_owned(),
        spans,
        errors: 0,
        dur_sum: 1,
        dur_min: 1,
        dur_max: 1,
        dur_p50: 1,
        dur_p95: 1,
        dur_p99: 1,
    };
    assert!(require_bucket_spans(&vec![row(2), row(3)], 6).is_err());
    assert!(require_bucket_spans(&vec![], 1).is_err());
}

#[test]
fn probes_read_what_processes_say() {
    assert_eq!(
        proc_memory("Name: x\nVmRSS:\t 10 kB\nVmHWM:\t none\nVmHWM:\t 12 kB\n"),
        (Some(10), Some(12))
    );
    assert_eq!(proc_memory(""), (None, None));
    assert!(conflict_fails_closed(false, "could not BIND to address"));
    assert!(!conflict_fails_closed(true, "bind"));
    assert!(!conflict_fails_closed(false, "panic"));
}
