use timeless_tools::crash::{is_writable, run_and_kill, write_sql, KillError};
use timeless_tools::gate::{
    accepts, accepts_counts, delta_is, drop_view, lower_text, qualified, quote, scaled_is,
    schema_object, stat_is, was_locked, Action, Blob, Bound, Counts, Database, Expected, Reply, Rows,
    SpanName,
};
use timeless_tools::gate_atomicity;
use timeless_tools::gate_bounds;
use timeless_tools::gate_catalog;
use timeless_tools::gate_companions;
use timeless_tools::gate_health;
use timeless_tools::gate_instances;
use timeless_tools::gate_logs;
use timeless_tools::gate_processes;
use timeless_tools::gate_processes::{metrics_worker, WorkerAnswer, WorkerRequest, WorkerStep};
use timeless_tools::gate_reads;
use timeless_tools::gate_reindex;
use timeless_tools::gate_schemas;
use timeless_tools::gate_rows::{
    accepts_capabilities, accepts_extension, are_legacy, contract_attributes, contract_row,
    first_attributes, legacy_row, semantic_span,
};
use timeless_tools::gate_spans::{
    accepts_entries, contract_root, encode_legacy_registry, first_is, kind_text, made,
    percentile_spans, same_spans, service_is, span, status_text, LegacyEntry, LogRow, SemanticSpan,
};
use timeless_tools::gate_traces;
use timeless_tools::json::Json;
use timeless_tools::rich_logs::{FIRST_METADATA, FIRST_TIME};
use timeless_tools::values::{Literal, Row, SqlValue};

fn length(step: fn(usize) -> Option<Action>) -> usize {
    let mut count = 0;
    while step(count).is_some() {
        count += 1;
    }
    assert!(step(count + 1).is_none());
    count
}

#[test]
fn scripts_have_their_lengths() {
    assert_eq!(length(gate_atomicity::run), 176);
    assert_eq!(length(gate_bounds::run), 162);
    assert_eq!(length(gate_catalog::run), 34);
    assert_eq!(length(gate_companions::run), 119);
    assert_eq!(length(gate_health::run), 42);
    assert_eq!(length(gate_logs::run), 23);
    assert_eq!(length(gate_reindex::run), 131);
    assert_eq!(length(gate_reads::logs_optimize), 156);
    assert_eq!(length(gate_reads::series_id), 31);
    assert_eq!(length(gate_schemas::complete_lifecycle), 77);
    assert_eq!(length(gate_schemas::private_schemas), 12);
    assert_eq!(length(gate_schemas::aliased_file), 26);
    assert_eq!(length(gate_instances::rollback_preserves_buffered), 37);
    assert_eq!(length(gate_instances::rollback_keeps_shared), 28);
    assert_eq!(length(gate_instances::recreate_identity), 26);
    assert_eq!(length(gate_processes::refresh), 10);
    assert_eq!(length(gate_traces::run), 165);
}

#[test]
fn scripts_open_before_they_work() {
    assert_eq!(gate_atomicity::run(0), Some(Action::Open(0, Database::Named("r1.db"))));
    assert_eq!(
        gate_atomicity::run(175),
        Some(Action::Pass(
            "PASS: statement, savepoint, auto-flush, and maintenance rollback are atomic"
        ))
    );
    match gate_reads::logs_optimize(2 + 3 * 39) {
        Some(Action::Execute(0, sql, _, Expected::Done)) => {
            assert_eq!(sql, "INSERT INTO logs(logs) VALUES(?1)")
        }
        other => panic!("{other:?}"),
    }
}

#[test]
fn quoted_names_are_quoted_as_written() {
    assert_eq!(quote("a\"b"), "\"a\"\"b\"");
    assert_eq!(qualified("aux\"quoted", "metrics\"quoted"), "\"aux\"\"quoted\".\"metrics\"\"quoted\"");
    match gate_schemas::quoted_names(2) {
        Some(Action::Execute(0, sql, _, _)) => assert_eq!(
            sql,
            format!(
                "CREATE VIRTUAL TABLE {} USING timeless_metrics",
                qualified("aux\"quoted", "metrics\"quoted")
            )
        ),
        other => panic!("{other:?}"),
    }
    assert_eq!(drop_view("v"), "DROP VIEW \"v\"");
    assert_eq!(lower_text("A\u{c4}b"), "a\u{c4}b");
}

#[test]
fn sections_come_round_by_round() {
    let mut places = Vec::new();
    while let Some((round, section)) = gate_processes::run(places.len()) {
        places.push((round, gate_processes::pass_text(section)));
    }
    assert_eq!(places.len(), 18);
    assert_eq!(places[0], (1, "test_distinct_series_ids"));
    assert_eq!(places[17], (3, "test_catalog_rows_follow_transactions"));
    assert_eq!(
        gate_processes::initialize("x.db", 0),
        Some(Action::Open(0, Database::Named("x.db")))
    );
    assert_eq!(gate_processes::initialize("x.db", 3), None);
    let mut schemas = 0;
    while let Some(section) = gate_schemas::run(schemas) {
        assert!(gate_schemas::script(section, 0).is_some());
        assert!(gate_schemas::pass_text(section).starts_with("PASS test_"));
        schemas += 1;
    }
    assert_eq!(schemas, 4);
    let mut instances = 0;
    while let Some(section) = gate_instances::run(instances) {
        assert!(gate_instances::script(section, 0).is_some());
        instances += 1;
    }
    assert_eq!(instances, 5);
    assert!(gate_reads::script(gate_reads::Section::Frames, 0).is_some());
}

#[test]
fn workers_answer_when_they_are_done() {
    let write = WorkerRequest::Write(1);
    assert_eq!(metrics_worker(write, 0, false), WorkerStep::Insert(0));
    assert_eq!(metrics_worker(write, 1, false), WorkerStep::Flush);
    assert_eq!(metrics_worker(write, 2, false), WorkerStep::Answer(WorkerAnswer::Done));
    assert_eq!(metrics_worker(write, 1, true), WorkerStep::Answer(WorkerAnswer::Error));
    let count = WorkerRequest::Counts(1);
    assert_eq!(metrics_worker(count, 0, false), WorkerStep::Count(0));
    assert_eq!(metrics_worker(count, 1, false), WorkerStep::Answer(WorkerAnswer::Counts));
    assert_eq!(
        metrics_worker(WorkerRequest::Stop, 0, false),
        WorkerStep::Answer(WorkerAnswer::Stopped)
    );
}

fn rows(list: Vec<Vec<SqlValue>>) -> Reply {
    Reply::Rows(list)
}

fn word(text: &str) -> SqlValue {
    SqlValue::Text(text.to_owned())
}

#[test]
fn replies_are_held_to_what_is_expected() {
    let memory = vec![vec![vec![SqlValue::Integer(3)]]];
    let none: Vec<Vec<Vec<SqlValue>>> = vec![];
    let failed = Reply::Failed("database is Locked: retry, SQLITE_BUSY".to_owned());
    assert!(accepts(Expected::Done, &Reply::Done, &none));
    assert!(!accepts(Expected::Refused, &Reply::Done, &none));
    assert!(accepts(Expected::Refused, &failed, &none));
    assert!(!accepts(Expected::Done, &failed, &none));
    assert!(accepts(Expected::RefusedWith("retry"), &failed, &none));
    assert!(!accepts(Expected::RefusedWith("locked"), &failed, &none));
    assert!(accepts(Expected::RefusedWithAny("x", "locked", "y", "z"), &failed, &none));
    assert!(accepts(Expected::RefusedWithAll("database", "retry", "SQLITE_BUSY"), &failed, &none));
    let one = Row::One(Literal::Integer(3));
    let three = rows(vec![vec![SqlValue::Integer(3)]]);
    assert!(accepts(Expected::First(one), &three, &none));
    assert!(!accepts(Expected::First(one), &rows(vec![]), &none));
    assert!(accepts(Expected::Rows(Rows::One(one)), &three, &none));
    assert!(accepts(Expected::Rows(Rows::Zero), &rows(vec![]), &none));
    assert!(accepts(Expected::Same(0), &three, &memory));
    assert!(!accepts(Expected::Different(0), &three, &memory));
    assert!(!accepts(Expected::Grown(0), &three, &memory));
    assert!(accepts(Expected::Grown(0), &rows(vec![vec![SqlValue::Integer(4)]]), &memory));
    assert!(accepts(Expected::Above(2), &three, &none));
    assert!(!accepts(Expected::Above(3), &three, &none));
    assert!(accepts(Expected::Many(1), &three, &none));
    assert!(accepts(
        Expected::Named(0, "x"),
        &rows(vec![vec![SqlValue::Integer(3), word("x")]]),
        &memory
    ));
    let names = rows(vec![vec![word("a")], vec![word("b")]]);
    assert!(accepts(Expected::Lists("b"), &names, &none));
    assert!(!accepts(Expected::Lists("c"), &names, &none));
    assert!(accepts(Expected::Mentions(0, "b"), &names, &none));
    let turned = Rows::Two(Row::One(Literal::Text("b")), Row::One(Literal::Text("a")));
    assert!(accepts(Expected::Members(turned), &names, &none));
    assert!(!accepts(Expected::Rows(turned), &names, &none));
    let pairs = rows(vec![vec![word("k"), word("v")], vec![word("l"), word("w")]]);
    assert!(accepts(Expected::Pairs(2, "k", "v"), &pairs, &none));
    assert!(!accepts(Expected::Pairs(3, "k", "v"), &pairs, &none));
    assert!(accepts(Expected::Pair("l", "w"), &pairs, &none));
    assert!(accepts(Expected::Length(2), &rows(vec![vec![SqlValue::Blob(vec![1, 2])]]), &none));
}

#[test]
fn schema_objects_are_compared_as_a_set() {
    let mut list = Vec::new();
    while let Some(row) = schema_object(list.len()) {
        match row {
            Row::Two(Literal::Text(kind), Literal::Text(name)) => list.push(vec![word(kind), word(name)]),
            other => panic!("{other:?}"),
        }
    }
    assert_eq!(list.len(), 17);
    list.reverse();
    let none = vec![];
    assert!(accepts(Expected::Objects, &rows(list), &none));
    assert!(!accepts(Expected::Objects, &rows(vec![]), &none));
}

#[test]
fn statistics_are_held_to_their_bounds() {
    let table = |a: i64, b: i64| {
        vec![
            vec![word("a"), SqlValue::Integer(a)],
            vec![word("b"), SqlValue::Integer(b)],
        ]
    };
    let before = table(1, 1);
    let after = table(5, 3);
    assert!(stat_is(&after, "a", Bound::Is(5)));
    assert!(stat_is(&after, "a", Bound::AtLeast(5)));
    assert!(!stat_is(&after, "a", Bound::Above(5)));
    assert!(!stat_is(&after, "c", Bound::Is(0)));
    assert!(delta_is(&before, &after, "a", Bound::Is(4)));
    assert!(scaled_is(&before, &after, "a", "b", 2, 0));
    assert!(!scaled_is(&before, &after, "a", "b", 2, 1));
    assert!(was_locked("database is locked", "locked", 1_600, 1_500, 20_000));
    assert!(!was_locked("database is locked", "locked", 1_400, 1_500, 20_000));
    assert!(accepts_counts(&[("a".to_owned(), 1)], Counts::One("a", 1)));
    assert!(!accepts_counts(&[("a".to_owned(), 2)], Counts::One("a", 1)));
}

#[test]
fn registries_have_their_bytes() {
    let entry = LegacyEntry { series_id: 5, name: "ab", labels: vec![("z", "1"), ("h", "x")] };
    assert_eq!(
        encode_legacy_registry(&[entry]),
        [
            0, 0, 0, 1, 0, 0, 0, 0, 0, 0, 0, 5, 0, 2, b'a', b'b', 0, 2, 0, 1, b'h', 0, 1, b'x', 0, 1,
            b'z', 0, 1, b'1'
        ]
    );
}

#[test]
fn blobs_are_made_by_their_names() {
    assert_eq!(&made(Blob::Cycle(2))[8..16], &512i64.to_le_bytes());
    assert_eq!(&made(Blob::Distant(1))[8..16], &3_600_001i64.to_le_bytes());
    let whole = made(Blob::Contract);
    let short = made(Blob::ContractShort);
    assert_eq!(short, whole[..whole.len() - 1]);
    assert_eq!(&made(Blob::Percentiles(0))[4..8], &8_192u32.to_le_bytes());
    assert_eq!(&made(Blob::Percentiles(1))[4..8], &644u32.to_le_bytes());
    assert_eq!(percentile_spans().len(), 8_836);
    assert_eq!(made(Blob::Legacy)[0], 1);
    assert_eq!(&made(Blob::Threshold)[4..8], &8_191u32.to_le_bytes());
    assert_eq!(&made(Blob::Lifecycle)[4..8], &2u32.to_le_bytes());
    assert_eq!(&made(Blob::Rich(7))[..2], &[2, 0]);
    assert_eq!(made(Blob::RichLogs)[0], 2);
    assert_eq!(made(Blob::FlatLogs)[0], 1);
    assert_eq!(span(SpanName::Bad).attributes, "[]");
    assert_eq!(span(SpanName::Contract(1)).name, "DB contract");
    assert_eq!(kind_text(4), Some("consumer"));
    assert_eq!(kind_text(5), None);
    assert_eq!(status_text(2), Some("error"));
    assert_eq!(status_text(3), None);
}

fn object(members: Vec<(&str, Json)>) -> Json {
    Json::Object(members.into_iter().map(|(key, value)| (key.to_owned(), value)).collect())
}

fn root() -> SemanticSpan {
    let event = object(vec![
        ("timestamp", Json::Unsigned(1_700_000_000_040_000_000)),
        (
            "attributes",
            object(vec![
                ("handled", Json::Bool(false)),
                ("exception.type", Json::Text("ContractError".to_owned())),
            ]),
        ),
    ]);
    SemanticSpan {
        trace_id: vec![0; 16],
        span_id: vec![0, 0, 0, 0, 0, 0, 0, 9],
        parent_span_id: None,
        name: "GET /contract".to_owned(),
        service: "contract-svc".to_owned(),
        kind: "server".to_owned(),
        status: "error".to_owned(),
        start_ts: 1,
        duration_ns: 2,
        attributes: object(vec![
            ("http.status_code", Json::Unsigned(503)),
            ("retryable", Json::Bool(true)),
            ("score", Json::Float(0.75f64.to_bits(), "0.75".to_owned())),
        ]),
        status_description: "contract failure".to_owned(),
        events: Json::Array(vec![event]),
        resource: object(vec![]),
        instrumentation_scope: object(vec![]),
    }
}

#[test]
fn spans_are_compared_by_what_they_say() {
    assert!(contract_root(&root()));
    let mut other = root();
    other.events = Json::Array(vec![]);
    assert!(!contract_root(&other));
    assert!(same_spans(&[root()], &[root()]));
    assert!(!same_spans(&[root()], &[other]));
    assert!(!same_spans(&[root()], &[]));
    assert!(service_is(&[root()], "contract-svc"));
    assert!(!service_is(&[root()], "other"));
    assert!(first_is(&[root()], 9));
    assert!(!first_is(&[], 9));
    let own = span(SpanName::Contract(0));
    let spaced = format!(" {} ", own.attributes);
    assert!(contract_row(&own.trace_id, &spaced, &own.events, own.duration_ns));
    assert!(!contract_row(&own.trace_id, &spaced, &own.events, 1));
    assert!(!contract_row(&own.trace_id, "{}", &own.events, own.duration_ns));
    assert!(!contract_row(&own.trace_id, &spaced, "[", own.duration_ns));
    assert!(!contract_row(&[], &spaced, &own.events, own.duration_ns));
    assert!(contract_attributes(&spaced) && !contract_attributes("{}"));
    let legacy = "{ \"legacy\": \"string-only\" }";
    assert!(legacy_row(legacy, "", "[]", "{}", "{}"));
    assert!(!legacy_row(legacy, "x", "[]", "{}", "{}"));
    assert!(!legacy_row("{\"legacy\":\"string\"}", "", "[]", "{}", "{}"));
    assert!(!legacy_row("{", "", "[]", "{}", "{}"));
    assert!(are_legacy(&object(vec![("legacy", Json::Text("string-only".to_owned()))])));
    assert!(!are_legacy(&Json::Null));
}

fn span_row() -> Vec<SqlValue> {
    let own = span(SpanName::Contract(0));
    let text = |value: &str| SqlValue::Text(value.to_owned());
    vec![
        SqlValue::Blob(own.trace_id.to_vec()),
        SqlValue::Blob(own.span_id.to_vec()),
        SqlValue::Null,
        text(&own.name),
        text("contract-svc"),
        text("server"),
        text("error"),
        SqlValue::Integer(own.start_ts),
        SqlValue::Integer(own.duration_ns),
        text(&own.attributes),
        text(&own.status_description),
        text(&own.events),
        text(&own.resource),
        text(&own.instrumentation_scope),
    ]
}

#[test]
fn rows_are_read_as_spans() {
    let found = semantic_span(&span_row()).unwrap();
    assert!(contract_root(&found));
    assert_eq!(found.parent_span_id, None);
    assert!(first_attributes(&[found], SpanName::Contract(0)));
    assert!(!first_attributes(&[root()], SpanName::Contract(0)));
    assert!(!first_attributes(&[], SpanName::Contract(0)));
    let mut row = span_row();
    row[2] = SqlValue::Blob(vec![1]);
    assert_eq!(semantic_span(&row).unwrap().parent_span_id, Some(vec![1]));
    row[9] = SqlValue::Text("{".to_owned());
    assert!(semantic_span(&row).is_none());
    let mut row = span_row();
    row[7] = SqlValue::Null;
    assert!(semantic_span(&row).is_none());
    row.pop();
    assert!(semantic_span(&row).is_none());
}

#[test]
fn rich_logs_are_read_back_as_they_were() {
    let row = |timestamp: i64, level: &str, message: &str, metadata: &str| LogRow {
        timestamp,
        level: level.to_owned(),
        message: message.to_owned(),
        metadata: metadata.to_owned(),
    };
    let mut rows = vec![
        row(FIRST_TIME, "critical", "a-message", "{}"),
        row(FIRST_TIME, "notice", "b-message", FIRST_METADATA),
        row(FIRST_TIME + 1, "emergency", "c-message", "{}"),
        row(FIRST_TIME + 2, "info", "legacy-info", "{}"),
    ];
    assert!(accepts_entries(&rows));
    rows[1].metadata = "{}".to_owned();
    assert!(!accepts_entries(&rows));
    let capabilities = object(vec![
        ("data_abi", Json::Unsigned(1)),
        (
            "signals",
            object(vec![(
                "logs",
                object(vec![
                    ("batches", Json::Array(vec![Json::Text("rich-v1".to_owned())])),
                    ("authoritative_batch_entries", Json::Unsigned(8192)),
                ]),
            )]),
        ),
    ]);
    assert!(accepts_capabilities(&capabilities));
    assert!(!accepts_capabilities(&Json::Null));
    let said = r#"{"data_abi":1,"signals":{"logs":{"batches":["v0","rich-v1"],"authoritative_batch_entries":8192}}}"#;
    assert!(accepts_extension(said));
    assert!(!accepts_extension(&said.replace("rich-v1", "rich")));
    assert!(!accepts_extension(&said[1..]));
}

#[test]
fn crash_workloads_have_their_text() {
    let workload = timeless_tools::crash::Workload { rounds: 1, metrics: 1, logs: 1, traces: 1 };
    assert!(is_writable(workload));
    let sql = write_sql("/ext.so", workload);
    let lines: Vec<&str> = sql.lines().collect();
    assert_eq!(lines[0], ".load /ext.so");
    assert_eq!(lines[4], "BEGIN;");
    assert_eq!(
        lines[5],
        "INSERT INTO metrics(name, ts, value, labels) VALUES ('m0', 1700000100, 1.0, '{\"host\":\"h0\"}');"
    );
    assert_eq!(
        lines[6],
        "INSERT INTO logs(ts, level, message, service) VALUES (1700000001000, 'info', 'round 1 entry 0', 'svc0');"
    );
    assert_eq!(
        lines[8],
        "VALUES (x'0000000000000000000000000000001f', x'00000000000003e8', 'op0', 'must-not-win', 'error', 1700000000001000000,"
    );
    assert_eq!(lines[9], "'{\"bool\":true,\"count\":0,\"service.name\":\"s0\"}', 'crash-path',");
    assert_eq!(*lines.last().unwrap(), "SELECT 'WM 1';");
    let longer = write_sql("/ext.so", timeless_tools::crash::Workload { rounds: 25, ..workload });
    assert!(longer.starts_with(&sql));
    assert!(longer.contains("VALUES ('rollup');\nCOMMIT;\nSELECT 'WM 25';"));
    assert!(!is_writable(timeless_tools::crash::Workload { rounds: u64::MAX, ..workload }));
    let furthest: u64 = 16_746_744_073_709;
    assert!(is_writable(timeless_tools::crash::Workload { rounds: furthest, ..workload }));
    assert!(!is_writable(timeless_tools::crash::Workload { rounds: furthest + 1, ..workload }));
    let empty = timeless_tools::crash::Workload { rounds: 0, metrics: u64::MAX, logs: u64::MAX, traces: u64::MAX };
    assert!(is_writable(empty));
    assert!(write_sql("/ext.so", empty).ends_with("USING timeless_traces;\n"));
}

#[test]
fn kills_must_come_in_time() {
    assert_eq!(run_and_kill(0, false, false), Err(KillError::Interval));
    assert_eq!(run_and_kill(1, true, false), Err(KillError::Completed));
    assert_eq!(run_and_kill(1, false, true), Err(KillError::Survived));
    assert_eq!(run_and_kill(1, false, false), Ok(()));
}
