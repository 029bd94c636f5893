use timeless_tools::floats::{cut_to_unsigned, less, not_positive, numeric_u64, percentile};
use timeless_tools::json::Json;
use timeless_tools::production::{
    base_milliseconds, base_nanoseconds, base_seconds, signal, Config, ConfigError, Mode, Request,
    RssLimits, Signal,
};
use timeless_tools::production_bodies::{fits, ingest_body, logs_body, metrics_body, traces_body};
use timeless_tools::production_queries::{
    accepts_logs_sentinel, answer_rows, check_trace_sentinel, decode_ndjson, has_data, logs_query,
    metrics_query, read_stats, result_rows, row_count, semantic_oracle, sentinel_path, traces_query,
    validate_ndjson, Count, RowsFault, SentinelFault, TraceFault,
};
use timeless_tools::soak::{
    run_gate, schedule, DiskEnd, DiskEvent, DiskProbe, DiskStep, Fault, GateAction, Soak, Tick,
};
use timeless_tools::workload::{
    aggregate_counter, backup_was_kept, counter_field, drained, durable_barrier, enforce_gates,
    failure_message, restart_kept_all, snapshot_count, storage_bytes, BarrierFault, Failure, Limits,
    QuerySummary, SignalResult, Workload,
};

const BASE: u64 = 1_785_628_800;

fn bits(values: &[f64]) -> Vec<u64> {
    values.iter().map(|value| value.to_bits()).collect()
}

#[test]
fn percentile_matches_the_existing_floor_rank_contract() {
    assert_eq!(percentile(&[], 95), 0.0f64.to_bits());
    let values = bits(&[4.0, 1.0, 3.0, 2.0]);
    assert_eq!(percentile(&values, 50), 2.0f64.to_bits());
    assert_eq!(percentile(&values, 95), 3.0f64.to_bits());
    assert_eq!(percentile(&values, 99), 3.0f64.to_bits());
}

#[test]
fn floats_are_ordered_by_their_bits() {
    assert!(less((-1.0f64).to_bits(), 0.5f64.to_bits()));
    assert!(!less(2.0f64.to_bits(), 0.5f64.to_bits()));
    assert!(not_positive(0.0f64.to_bits()));
    assert!(!not_positive(0.1f64.to_bits()));
    assert_eq!(cut_to_unsigned(2.9f64.to_bits()), 2);
    assert_eq!(cut_to_unsigned((-2.9f64).to_bits()), 0);
    assert_eq!(cut_to_unsigned(1e30f64.to_bits()), u64::MAX);
    let value = Json::Object(vec![("a".to_owned(), Json::Float(3.7f64.to_bits(), "3.7".to_owned()))]);
    assert_eq!(numeric_u64(&value, "a"), Some(3));
    assert_eq!(numeric_u64(&value, "b"), None);
}

#[test]
fn fixtures_preserve_batch_counts_and_sentinels() {
    let metrics = metrics_body(BASE, 0, 64);
    assert_eq!(metrics.lines().count(), 4);
    assert!(metrics.contains("release_gate_metric"));
    assert!(metrics.contains("1785628800000"));

    let logs = logs_body(BASE, 0, 64);
    assert_eq!(logs.lines().count(), 64);
    assert!(logs.contains("release-gate-0"));
    assert!(logs.contains("\"nested\":{\"worker\":0}"));

    let traces: serde_json::Value = serde_json::from_str(&traces_body(BASE, 0, 64)).unwrap();
    let spans = traces
        .pointer("/resourceSpans/0/scopeSpans/0/spans")
        .and_then(serde_json::Value::as_array)
        .unwrap();
    assert_eq!(spans.len(), 64);
    assert_eq!(spans[0]["traceId"], serde_json::Value::String(format!("{:032x}", 1)));
    assert_eq!(spans[1]["parentSpanId"], spans[0]["spanId"]);
}

#[test]
fn far_ordinals_are_printed_as_floats() {
    let last = u64::MAX / 1_000 - 5;
    let mut starts = vec![0, 1, (1 << 52) - 50, (1 << 53) - 50, (1 << 54) - 50, last - 100];
    starts.extend([9_999_999_999_999_950, 10_000_000_000_000_000, 18_014_398_509_482_000]);
    for start in starts {
        for line in metrics_body(0, start, 100).lines() {
            let value: serde_json::Value = serde_json::from_str(line).unwrap();
            let host: u64 = value["metric"]["host"].as_str().unwrap()[5..].parse().unwrap();
            let ordinals: Vec<_> = (start..start + 100).filter(|n| n % 4 == host).collect();
            let times: Vec<_> = ordinals.iter().map(|n| n * 1_000 / 256).collect();
            let values: Vec<_> = ordinals.iter().map(|n| *n as f64 + 0.5).collect();
            let printed = format!(
                "\"timestamps\":{},\"values\":{}}}",
                serde_json::to_string(&times).unwrap(),
                serde_json::to_string(&values).unwrap()
            );
            assert!(line.ends_with(&printed), "{line} {printed}");
        }
    }
}

#[test]
fn batches_fit_up_to_the_last_number() {
    assert!(fits(Signal::Logs, u64::MAX, 0, 256));
    assert!(!fits(Signal::Logs, u64::MAX, 0, 257));
    assert!(!fits(Signal::Logs, 0, u64::MAX, 1));
    assert!(fits(Signal::Logs, 0, u64::MAX, 0));
    assert!(fits(Signal::Metrics, 0, u64::MAX / 1_000, 1));
    assert!(!fits(Signal::Metrics, 0, u64::MAX / 1_000, 2));
    assert!(fits(Signal::Traces, 18_446_744_073, 0, 1));
    assert!(!fits(Signal::Traces, 18_446_744_074, 0, 1));
    assert_eq!(logs_body(u64::MAX, 0, 1).matches("18446744073709551615").count(), 1);
}

#[test]
fn log_batches_join_to_one() {
    let whole = logs_body(BASE, 0, 4);
    let parts = format!("{}{}", logs_body(BASE, 0, 2), logs_body(BASE, 2, 2));
    assert_eq!(whole, parts);
    assert_eq!(ingest_body(Signal::Logs, BASE, 0, 4), whole);
    for line in whole.lines() {
        assert!(serde_json::from_str::<serde_json::Value>(line).is_ok());
    }
}

#[test]
fn metrics_export_series_are_not_mistaken_for_point_rows() {
    let body = br#"{"metric":{"__name__":"release_gate_metric"},"values":[0.5],"timestamps":[1785628800000]}
"#;
    assert_eq!(decode_ndjson(body).unwrap().len(), 1);
    assert!(validate_ndjson(body, Some("16")).is_err());
}

#[test]
fn declared_rows_are_held_to_the_body() {
    let body = b"{}\n\n[1]\n";
    assert_eq!(validate_ndjson(body, Some("2")).unwrap().len(), 2);
    assert_eq!(validate_ndjson(body, None).unwrap().len(), 2);
    assert_eq!(validate_ndjson(body, Some("x")).unwrap_err(), RowsFault::Unreadable);
    assert_eq!(validate_ndjson(body, Some("16")).unwrap_err(), RowsFault::Declared(16, 2));
    assert_eq!(validate_ndjson(b"{}\n{", Some("x")).unwrap_err(), RowsFault::Partial);
    assert_eq!(decode_ndjson(b"{}\n{").unwrap_err(), RowsFault::Partial);
    assert_eq!(decode_ndjson(b"\n\n").unwrap().len(), 0);
    assert_eq!(result_rows(None), Ok(0));
    assert_eq!(result_rows(Some("7")), Ok(7));
    assert_eq!(result_rows(Some("x")), Err(RowsFault::Unreadable));
}

#[test]
fn the_rows_of_an_answer_are_counted_by_its_shape() {
    assert_eq!(row_count(Signal::Metrics, "discovery"), Count::Whole);
    assert_eq!(row_count(Signal::Logs, "discovery"), Count::Whole);
    assert_eq!(row_count(Signal::Logs, "exact"), Count::Lines);
    assert_eq!(row_count(Signal::Traces, "services"), Count::Data);
    assert_eq!(answer_rows(Signal::Metrics, "exact_latest", b"{}", Some("4")), Ok(4));
    assert_eq!(answer_rows(Signal::Metrics, "exact_latest", b"{", Some("4")), Err(RowsFault::Partial));
    assert_eq!(answer_rows(Signal::Logs, "discovery", b"{\n}", None), Ok(0));
    assert_eq!(answer_rows(Signal::Logs, "exact", b"{\n}", None), Err(RowsFault::Partial));
    assert_eq!(answer_rows(Signal::Logs, "exact", b"{}\n{}", None), Ok(2));
    assert_eq!(answer_rows(Signal::Logs, "exact", b"{}\n{}", Some("3")), Err(RowsFault::Declared(3, 2)));
    assert_eq!(answer_rows(Signal::Traces, "services", b"{\"data\":null}", Some("1")), Ok(1));
    assert_eq!(answer_rows(Signal::Traces, "services", b"{}", Some("1")), Err(RowsFault::Shape));
    assert!(read_stats(b"{\"rows\":1}").is_ok());
    assert_eq!(read_stats(b"[]").unwrap_err(), RowsFault::Shape);
    assert_eq!(read_stats(b"").unwrap_err(), RowsFault::Partial);
}

#[test]
fn signals_have_their_names() {
    let mut names = Vec::new();
    while let Some(signal) = signal(names.len()) {
        names.push(signal.name());
    }
    assert_eq!(names, ["metrics", "logs", "traces"]);
    assert_eq!(Signal::Metrics.expected_ingest_status(), 204);
    assert!(Signal::Logs.stats_path().starts_with('/'));
    assert!(Signal::Traces.binary().contains("traces"));
    assert_eq!(Signal::Logs.query_shapes().len(), 5);
    assert_eq!(Signal::Logs.shape_of_turn(5), Signal::Logs.query_shapes()[0]);
    assert!(!Signal::Metrics.count_field().is_empty());
    assert!(!Signal::Traces.environment(true).is_empty());
    assert_eq!(Mode::Short.name(), "short");
    assert_eq!(Mode::Release.name(), "release");
}

#[test]
fn every_shape_has_a_query() {
    for shape in Signal::Metrics.query_shapes() {
        assert!(metrics_query(shape, BASE, 64).is_some(), "{shape}");
    }
    for shape in Signal::Logs.query_shapes() {
        assert!(logs_query(shape, BASE, 64).is_some(), "{shape}");
    }
    for shape in Signal::Traces.query_shapes() {
        assert!(traces_query(shape).is_some(), "{shape}");
    }
    assert!(metrics_query("other", BASE, 64).is_none());
    assert!(sentinel_path(Signal::Metrics, BASE).starts_with('/'));
}

#[test]
fn sentinels_are_looked_for() {
    assert!(!accepts_logs_sentinel(&vec![]));
    assert_eq!(check_trace_sentinel(&Json::Null), Some(TraceFault::NoData));
    assert!(!has_data(&Json::Null));
    let metrics = br#"{"values":[0.5],"timestamps":[1785628800000]}"#;
    assert_eq!(semantic_oracle(Signal::Metrics, 1_785_628_800, metrics, Some("16")), None);
    assert_eq!(
        semantic_oracle(Signal::Metrics, 1_785_628_801, metrics, None),
        Some(SentinelFault::Changed)
    );
    let logs = br#"{"_msg":"release-gate-0","attempt":0,"nested":{"worker":0}}"#;
    assert_eq!(semantic_oracle(Signal::Logs, 0, logs, Some("1")), None);
    assert_eq!(
        semantic_oracle(Signal::Logs, 0, logs, Some("2")),
        Some(SentinelFault::Rows(RowsFault::Declared(2, 1)))
    );
    let other = br#"{"_msg":"release-gate-0","attempt":0,"nested":{"worker":1}}"#;
    assert_eq!(semantic_oracle(Signal::Logs, 0, other, None), Some(SentinelFault::Changed));
    let child = r#"{"references":[{}]}"#;
    let trace = format!(r#"{{"data":[{{"spans":[{{"references":[]}},{child},{child},{child}]}}]}}"#);
    assert_eq!(semantic_oracle(Signal::Traces, 0, trace.as_bytes(), None), None);
    assert_eq!(
        semantic_oracle(Signal::Traces, 0, b"{\"data\":[]}", None),
        Some(SentinelFault::Trace(TraceFault::NoSpans))
    );
    assert_eq!(
        semantic_oracle(Signal::Traces, 0, b"", None),
        Some(SentinelFault::Rows(RowsFault::Partial))
    );
}

#[test]
fn the_fixture_is_fresh() {
    assert!(base_seconds(BASE + 1_000) <= BASE + 1_000);
    assert_eq!(base_milliseconds(BASE), BASE * 1_000);
    assert_eq!(base_nanoseconds(BASE), BASE * 1_000_000_000);
}

fn request() -> Request {
    Request {
        mode: Mode::Short,
        duration: None,
        sample: None,
        write_hz: 10.0f64.to_bits(),
        query_hz: 5.0f64.to_bits(),
        batch: 64,
        max_rss_kib: vec![],
    }
}

#[test]
fn configurations_are_refused_for_each_fault() {
    assert!(Config::new(&request()).is_ok());
    let mut bad = request();
    bad.write_hz = 0.0f64.to_bits();
    assert!(matches!(Config::new(&bad), Err(ConfigError::NotPositive)));
    let mut bad = request();
    bad.batch = 0;
    assert!(matches!(Config::new(&bad), Err(ConfigError::Batch)));
    let mut bad = request();
    bad.mode = Mode::Release;
    bad.duration = Some(7_199.0f64.to_bits());
    assert!(matches!(Config::new(&bad), Err(ConfigError::TooShort)));
    let mut bad = request();
    bad.max_rss_kib = vec!["metrics=many".to_owned()];
    assert!(matches!(Config::new(&bad), Err(ConfigError::RssLimit)));
    let mut good = request();
    good.max_rss_kib = vec!["logs=123".to_owned()];
    assert_eq!(Config::new(&good).unwrap().max_rss_kib.of(Signal::Logs), 123);
}

#[test]
fn workloads_count_what_was_accepted() {
    let mut workload = Workload::new();
    assert!(workload.write_once(0, 64, 5, 100).is_ok());
    assert!(workload.write_once(0, 64, 5, 100).is_err());
    assert!(workload.write_once(64, 64, 6, 50).is_ok());
    assert_eq!(workload.accepted, 128);
    assert_eq!(workload.ingest_body_bytes_hwm, 100);
    workload.query_once("latest", 7, 10, 3);
    workload.query_once("latest", 8, 9, 4);
    assert_eq!(workload.queries.len(), 1);
    assert_eq!(workload.queries[0].latencies, [7, 8]);
    assert_eq!(workload.queries[0].result_rows_hwm, 4);
    workload.sample_state(Signal::Metrics, &Json::Null, 77);
    assert_eq!(workload.memory_hwm_kib, 77);
}

fn numbers(list: &[(&str, u64)]) -> Json {
    Json::Object(list.iter().map(|(key, value)| ((*key).to_owned(), Json::Unsigned(*value))).collect())
}

#[test]
fn barriers_need_every_row() {
    let field = Signal::Logs.count_field();
    assert_eq!(durable_barrier(Signal::Logs, 5, &Json::Null), Some(BarrierFault::NoCount));
    assert_eq!(
        durable_barrier(Signal::Logs, 5, &numbers(&[(field, 4)])),
        Some(BarrierFault::Count(4))
    );
    assert!(drained(0).is_some());
    assert!(restart_kept_all(Signal::Logs, 5, &numbers(&[(field, 5)])));
    assert!(!restart_kept_all(Signal::Logs, 5, &numbers(&[(field, 4)])));
    assert_eq!(snapshot_count(Signal::Logs, 3, 6, &numbers(&[(field, 5)])), Some(5));
    assert_eq!(snapshot_count(Signal::Logs, 3, 6, &numbers(&[(field, 7)])), None);
    assert!(!backup_was_kept(200, "a", "a"));
    assert!(counter_field(0).is_some());
    let readings = vec![numbers(&[("a", 1)]), numbers(&[("a", 2)])];
    assert_eq!(aggregate_counter(&readings, "a"), 3);
    let _ = storage_bytes(&Json::Null);
}

#[test]
fn results_are_held_to_their_limits() {
    let limits = Limits {
        duration: 600.0f64.to_bits(),
        max_wal_bytes: 10,
        max_p99: 1_000.0f64.to_bits(),
        max_slope: 1.0f64.to_bits(),
        max_rss_kib: RssLimits { metrics: 1, logs: 1, traces: 1 },
        skip_faults: true,
    };
    let result = SignalResult {
        errors: 1,
        accepted: 0,
        wal_hwm_bytes: 11,
        rss_hwm_kib: 2,
        slope: 0.0f64.to_bits(),
        queries: vec![QuerySummary {
            shape: "latest".to_owned(),
            requests: 0,
            p99: 0.0f64.to_bits(),
            rows: 0,
        }],
        queued_batches_hwm: 0,
        queued_requests_hwm: 0,
        final_stats: Json::Null,
        counters: vec![],
    };
    let failures = enforce_gates(Signal::Logs, &result, limits);
    assert!(failures.iter().any(|failure| matches!(failure, Failure::WorkloadErrors)));
    assert!(failures.iter().any(|failure| matches!(failure, Failure::NoDurableWork)));
    assert!(failures.iter().any(|failure| matches!(failure, Failure::Wal(_))));
    assert!(failures.iter().any(|failure| matches!(failure, Failure::Rss(_))));
    assert!(failures.iter().any(|failure| matches!(failure, Failure::NoQueries(0))));
    let text = failure_message(Signal::Logs, &result, limits, Failure::NoDurableWork, "", "");
    assert!(text.starts_with("logs"), "{text}");
}

#[test]
fn soaks_judge_last() {
    let mut actions = Vec::new();
    while let Some(action) = run_gate(false, actions.len()) {
        actions.push(action);
    }
    assert_eq!(actions.len(), 29);
    assert_eq!(*actions.last().unwrap(), GateAction::Judge);
    assert_eq!(schedule(0), Some((12, Fault::Slow)));
    assert_eq!(schedule(9), None);
    let mut soak = Soak::new(false, 100_000_000_000, 10_000_000_000);
    match soak.tick(false, 12_000_000_000) {
        Tick::Work { fault, rest_ns, .. } => {
            assert_eq!(fault, Some(Fault::Slow));
            assert_eq!(rest_ns, 100_000_000);
        }
        Tick::Over => panic!("over"),
    }
    assert_eq!(soak.tick(true, 13_000_000_000), Tick::Over);
    assert_eq!(soak.tick(false, 100_000_000_000), Tick::Over);
}

#[test]
fn full_disks_keep_the_durable_prefix() {
    let mut probe = DiskProbe::new(Signal::Logs);
    assert!(matches!(probe.next, DiskStep::Watch));
    probe.advance(DiskEvent::Running(true));
    assert!(matches!(probe.next, DiskStep::Ingest));
    probe.advance(DiskEvent::Status(Signal::Logs.expected_ingest_status()));
    probe.advance(DiskEvent::Status(200));
    let accepted = probe.accepted;
    assert_eq!(probe.durable, 0);
    probe.advance(DiskEvent::Counted(Some(accepted)));
    assert_eq!(probe.durable, accepted);
    probe.advance(DiskEvent::Running(false));
    assert!(matches!(probe.next, DiskStep::End(DiskEnd::ProcessExit)));
    assert!(probe.recovered(accepted));
    assert!(!probe.recovered(accepted - 1));
}
