use timeless_tools::calendar::{calendar_field, calendar_value, CalendarError};
use timeless_tools::documents::document;
use timeless_tools::json::{same_json, Json};
use timeless_tools::moments::{evenly_spaced, format_timestamp, seconds, timestamp};
use timeless_tools::oracle_answers::{
    accepts_error, accepts_exact, accepts_operator, accepts_operator_at, error_request, log_base_us,
    results_equal, sample_ms, warning_contract_matches,
};
use timeless_tools::oracle_cases::{case_id, object_cases, offset, string, value_string, CaseError};
use timeless_tools::oracle_expectations::{
    lookback_expected, operator_expected, operator_expected_with, subquery_expected,
    temporal_expected, victoriametrics_expected,
};
use timeless_tools::oracle_logs::{
    accepts_log_error, accepts_log_stats, accepts_logs, accepts_victoriametrics, expected_status,
    fixture_is_visible, row_case, row_time, rows_are_visible, time_text, timed_row,
    victorialogs_query, victorialogs_response_cases, victorialogs_stats,
};
use timeless_tools::oracle_manifest::{
    container_args, find_fixture, probe, probe_line, smoke_args, validate_manifest, Engine,
    OracleDefinition, OracleManifest,
};
use timeless_tools::oracle_series::prometheus_remote_write;
use timeless_tools::remote_write::{protobuf_bytes, protobuf_varint, snappy_literal, WriteRequest};

fn json(text: &str) -> Json {
    document(text).unwrap()
}

fn list(text: &str) -> Vec<Json> {
    match json(text) {
        Json::Array(list) => list,
        _ => panic!("not a list"),
    }
}

const COMMIT: &str = "0123456789abcdef0123456789abcdef01234567";

fn definition(image: &str) -> OracleDefinition {
    OracleDefinition {
        language: "PromQL".to_owned(),
        role: "reference".to_owned(),
        version: "3.0".to_owned(),
        source_commit: COMMIT.to_owned(),
        image: format!("docker.io/{image}@sha256:aa"),
        linux_amd64_digest: format!("sha256:{}", "ab".repeat(32)),
        version_entrypoint: "/bin/tool".to_owned(),
        version_args: vec!["--version".to_owned()],
        version_contains: "3.0".to_owned(),
        fixtures: vec![format!("fixtures/{image}.json")],
    }
}

fn valid_manifest() -> OracleManifest {
    OracleManifest {
        schema_version: 1,
        selected_at: "2026-01-01".to_owned(),
        oracles: vec![
            ("prometheus".to_owned(), definition("prometheus")),
            ("victorialogs".to_owned(), definition("victorialogs")),
            ("victoriametrics".to_owned(), definition("victoriametrics")),
        ],
    }
}

fn docs() -> String {
    format!(
        "3.0 {COMMIT} docker.io/prometheus@sha256:aa docker.io/victorialogs@sha256:aa docker.io/victoriametrics@sha256:aa sha256:{}",
        "ab".repeat(32)
    )
}

fn fixtures() -> Vec<String> {
    vec![
        "fixtures/prometheus.json".to_owned(),
        "fixtures/victorialogs.json".to_owned(),
        "fixtures/victoriametrics.json".to_owned(),
    ]
}

#[test]
fn a_pinned_manifest_has_no_errors() {
    assert_eq!(validate_manifest(&valid_manifest(), &docs(), &fixtures()), Vec::<String>::new());
}

#[test]
fn floating_images_and_short_commits_are_rejected() {
    let mut manifest = valid_manifest();
    manifest.oracles[0].1.image = "docker.io/prom/prometheus:latest".to_owned();
    manifest.oracles[1].1.source_commit = "deadbeef".to_owned();
    let errors = validate_manifest(&manifest, &docs(), &fixtures());
    assert!(errors.iter().any(|error| error.contains("floating image reference")), "{errors:?}");
    assert!(errors.iter().any(|error| error.contains("source_commit")), "{errors:?}");
}

#[test]
fn manifest_errors_come_in_order() {
    let mut manifest = valid_manifest();
    manifest.schema_version = 2;
    manifest.oracles[2].1.image = manifest.oracles[0].1.image.clone();
    manifest.oracles[2].1.linux_amd64_digest = "sha256:AB".to_owned();
    manifest.oracles[2].1.version_contains = String::new();
    manifest.oracles[2].1.fixtures = vec!["fixtures/absent.json".to_owned()];
    assert_eq!(
        validate_manifest(&manifest, &docs(), &fixtures()),
        [
            "manifest schema_version must be 1",
            "oracle victoriametrics: duplicate image pin",
            "oracle victoriametrics: linux_amd64_digest must be sha256:<64 hex>",
            "oracle victoriametrics: version_contains is required",
            "oracle victoriametrics: docs/QUERY_ORACLES.md is missing sha256:AB",
            "oracle victoriametrics: missing fixture fixtures/absent.json",
        ]
    );
    manifest.oracles.pop();
    assert_eq!(
        validate_manifest(&manifest, &docs(), &fixtures())[1],
        "manifest must define exactly prometheus, victoriametrics, and victorialogs"
    );
}

#[test]
fn containers_are_started_without_capabilities() {
    let oracle = definition("prometheus");
    let args = container_args(&oracle, &vec!["check".to_owned()]);
    assert_eq!(args.last().unwrap(), "check");
    assert!(args.contains(&oracle.image));
    assert!(args.contains(&"run".to_owned()));
    assert_eq!(Engine::Prometheus.oracle(), "prometheus");
    assert_eq!(Engine::VictoriaLogs.oracle(), "victorialogs");
    assert!(Engine::VictoriaMetrics.container_name(7).ends_with('7'));
    assert!(Engine::Prometheus
        .start_args(7, 9090, "image")
        .iter()
        .any(|argument| argument.contains("9090")));
    assert!(Engine::VictoriaMetrics.ready_path().starts_with('/'));
    assert!(smoke_args("/fixture.yml", "image").iter().any(|argument| argument.contains("/fixture.yml")));
    let paths = fixtures();
    assert_eq!(find_fixture(&paths, "logs.json"), Some(&paths[1]));
    assert_eq!(find_fixture(&paths, "other"), None);
    assert!(paths[0].ends_with("prometheus.json"));
    assert_eq!(Engine::Prometheus.fixture_suffix().is_empty(), false);
}

#[test]
fn probes_need_success_and_the_version() {
    assert!(probe(true, "tool version 3.0", "3.0"));
    assert!(!probe(false, "tool version 3.0", "3.0"));
    assert!(!probe(true, "tool version 2.9", "3.0"));
    assert_eq!(probe_line("first\nsecond"), "first");
}

#[test]
fn warning_contract_pins_cap_without_assuming_go_map_iteration_order() {
    let case = json(
        r#"{"expected_warning_contract":{"count":3,"required":["1 more warning annotations omitted"],"allowed":["a","b","c","1 more warning annotations omitted"]}}"#,
    );
    assert!(warning_contract_matches(
        &case,
        Some(&json(r#"["c","a","1 more warning annotations omitted"]"#))
    )
    .unwrap());
    assert!(!warning_contract_matches(
        &case,
        Some(&json(r#"["a","a","1 more warning annotations omitted"]"#))
    )
    .unwrap());
    assert!(!warning_contract_matches(
        &case,
        Some(&json(r#"["a","unknown","1 more warning annotations omitted"]"#))
    )
    .unwrap());
}

#[test]
fn victorialogs_error_response_reports_a_case_failure_instead_of_aborting_the_corpus() {
    let cases =
        victorialogs_response_cases(400, 200, "text/plain; charset=utf-8", "cannot parse query");
    assert!(cases.unwrap().is_empty());
    let cases = victorialogs_response_cases(
        200,
        200,
        "application/stream+json",
        "{\"case\":\"row\"}\n",
    );
    assert_eq!(cases.unwrap(), ["row"]);
}

#[test]
fn unordered_vector_comparison_does_not_invent_order() {
    let first = r#"{"metric":{"value":"first"},"value":[1,"1"]}"#;
    let second = r#"{"metric":{"value":"second"},"value":[1,"2"]}"#;
    let expected = list(&format!("[{first},{second}]"));
    let reordered = json(&format!("[{second},{first}]"));
    assert!(results_equal(&expected, &reordered, false));
    assert!(!results_equal(&expected, &reordered, true));
    let changed = json(&format!(
        r#"[{{"metric":{{"value":"second"}},"value":[1,"3"]}},{first}]"#
    ));
    assert!(!results_equal(&expected, &changed, false));
}

#[test]
fn raw_snappy_remote_write_is_deterministic() {
    let first = prometheus_remote_write(1_700_000_000_000);
    let second = prometheus_remote_write(1_700_000_000_000);
    assert_eq!(first, second);
    assert!(first.len() > 1_000);
}

#[test]
fn wire_formats_have_their_bytes() {
    assert_eq!(protobuf_varint(0), [0]);
    assert_eq!(protobuf_varint(300), [0xac, 0x02]);
    assert_eq!(protobuf_varint(u64::MAX).len(), 10);
    assert_eq!(protobuf_bytes(1, b"ab"), [0x0a, 2, b'a', b'b']);
    assert_eq!(snappy_literal(b"abc"), [3, 2 << 2, b'a', b'b', b'c']);
    let long = vec![7u8; 100];
    let packed = snappy_literal(&long);
    assert_eq!(packed.len(), 1 + 2 + 100);
    assert_eq!(&packed[..3], &[100, 60 << 2, 99]);
    let mut request = WriteRequest::new(1_000);
    request.series("m", &[(1.5f64.to_bits(), 0)], &[("b", "2"), ("a", "1")]);
    assert!(request.finish().len() > 20);
}

#[test]
fn calendar_fields_are_those_of_utc() {
    // Thursday, 2024-02-29 13:07 UTC.
    let at = 1_709_212_020_000;
    assert_eq!(calendar_value("minute", at), Ok(7));
    assert_eq!(calendar_value("hour", at), Ok(13));
    assert_eq!(calendar_value("day_of_week", at), Ok(4));
    assert_eq!(calendar_value("day_of_month", at), Ok(29));
    assert_eq!(calendar_value("day_of_year", at), Ok(60));
    assert_eq!(calendar_value("days_in_month", at), Ok(29));
    assert_eq!(calendar_value("month", at), Ok(2));
    assert_eq!(calendar_value("year", at), Ok(2024));
    assert_eq!(calendar_value("days_in_month", 1_734_000_000_000), Ok(31));
    assert_eq!(calendar_value("century", at), Err(CalendarError::UnknownField));
    assert_eq!(calendar_value("year", i64::MAX), Err(CalendarError::Evaluation));
}

#[test]
fn calendar_fields_come_from_their_parts() {
    let fields = Some((2024, 12, 31, 366, 2, 23, 59));
    assert_eq!(calendar_field("days_in_month", fields, Some(0), Some(31 * 86_400)), Ok(31));
    assert_eq!(calendar_field("days_in_month", fields, Some(0), None), Err(CalendarError::NextMonth));
    assert_eq!(calendar_field("days_in_month", fields, None, Some(1)), Err(CalendarError::ThisMonth));
    assert_eq!(calendar_field("hour", None, None, None), Err(CalendarError::Evaluation));
}

#[test]
fn times_are_written_to_the_millisecond() {
    assert_eq!(format_timestamp(1_500), "1.500");
    assert_eq!(format_timestamp(2_000), "2");
    assert_eq!(format_timestamp(-1_500), "-1.500");
    assert_eq!(format_timestamp(-500), "0.500");
    assert_eq!(evenly_spaced(0, 100, 0), Vec::<i64>::new());
    assert_eq!(evenly_spaced(5, 100, 1), [5]);
    assert_eq!(evenly_spaced(0, 100, 4), [0, 33, 66, 100]);
    assert_eq!(seconds(1_500), 1.5f64.to_bits());
    assert_eq!(seconds(1_700_000_000_123), 1_700_000_000.123f64.to_bits());
    assert!(matches!(timestamp(3_000), Json::Unsigned(3)));
    assert!(matches!(timestamp(-3_000), Json::Negative(-3)));
    match timestamp(1_700_000_000_123) {
        Json::Float(bits, text) => {
            assert_eq!(bits, 1_700_000_000.123f64.to_bits());
            assert_eq!(text, "1700000000.123");
        }
        other => panic!("{other:?}"),
    }
}

fn assert_printed_as_float(ms: i64) {
    let float = ms as f64 / 1_000.0;
    assert_eq!(seconds(ms), float.to_bits(), "{ms}");
    if ms % 1_000 == 0 {
        return;
    }
    match timestamp(ms) {
        Json::Float(bits, text) => {
            assert_eq!(bits, float.to_bits(), "{ms}");
            assert_eq!(text, serde_json::Number::from_f64(float).unwrap().to_string(), "{ms}");
            assert_eq!(text.parse::<f64>().unwrap().to_bits(), bits, "{ms}");
        }
        other => panic!("{other:?}"),
    }
}

#[test]
fn far_times_are_printed_as_floats() {
    match timestamp(1_000_000_000_000_001) {
        Json::Float(_, text) => assert_eq!(text, "1000000000000.001"),
        other => panic!("{other:?}"),
    }
    match timestamp(i64::MAX) {
        Json::Float(_, text) => assert_eq!(text, "9223372036854776.0"),
        other => panic!("{other:?}"),
    }
    for ms in [0, 1, -1, 10, 100, 500, -500, 999, 1_001, i64::MAX, i64::MIN, i64::MIN + 1] {
        assert_printed_as_float(ms);
    }
    for power in 10..63 {
        let base = 1_i64 << power;
        for step in -600..600 {
            let ms = base.saturating_add(step * 7);
            assert_printed_as_float(ms);
            assert_printed_as_float(-ms);
            assert_printed_as_float(base / 10 * 11 / 8 + step);
        }
    }
}

#[test]
fn case_fields_are_read_or_refused() {
    let case = json(r#"{"id":"PQL-1","at":"x","offset_ms":-5,"list":[1]}"#);
    assert_eq!(case_id(&case), "PQL-1");
    assert_eq!(string(&case, "at"), Ok("x".to_owned()));
    assert_eq!(string(&case, "offset_ms"), Err(CaseError::Text("offset_ms")));
    assert_eq!(offset(&case, "offset_ms"), Ok(-5));
    assert_eq!(offset(&case, "at"), Err(CaseError::Integer("at")));
    assert_eq!(value_string(&json("1.5")), Ok("1.5".to_owned()));
    assert_eq!(value_string(&json("\"a\"")), Ok("a".to_owned()));
    assert_eq!(value_string(&json("-7")), Ok("-7".to_owned()));
    assert_eq!(value_string(&json("null")), Err(CaseError::NotScalar));
    let fixture = json(r#"{"cases":[{"id":"a"}],"bad":[1],"none":{}}"#);
    assert_eq!(object_cases(&fixture, "cases").unwrap().len(), 1);
    assert!(object_cases(&fixture, "bad").is_err());
    assert!(object_cases(&fixture, "none").is_err());
    assert!(object_cases(&fixture, "missing").is_err());
}

#[test]
fn operator_cases_expect_what_they_say() {
    let case = json(
        r#"{"query":"up @ {at}","at_offset_ms":500,"expected_values":[1,"2"]}"#,
    );
    let expected = operator_expected(&case, 1_000, 3_000).unwrap();
    assert_eq!(expected.endpoint, "/api/v1/query");
    assert_eq!(expected.result_type, "vector");
    assert_eq!(expected.result.len(), 1);
    assert!(matches!(&expected.params[0].1, Json::Text(query) if query == "up @ 1.500"));
    let scalar = json(r#"{"query":"1","expected_scalar":"1"}"#);
    let expected = operator_expected(&scalar, 1_000, 3_000).unwrap();
    assert_eq!(expected.result_type, "scalar");
    let dated = json(r#"{"query":"hour()","expected_calendar_at_evaluation":"hour"}"#);
    let expected = operator_expected(&dated, 0, 7_200_000).unwrap();
    assert_eq!(expected.result.len(), 1);
    assert!(matches!(
        operator_expected_with(&dated, 0, 0, Err(CalendarError::UnknownField)),
        Err(CaseError::Calendar(CalendarError::UnknownField))
    ));
    assert!(operator_expected(&json("{}"), 0, 0).is_err());
}

#[test]
fn other_cases_refuse_what_they_lack() {
    let empty = json("{}");
    assert!(temporal_expected(&empty, 0).is_err());
    assert!(subquery_expected(&empty, 0).is_err());
    assert!(lookback_expected(&empty, 0).is_err());
    assert!(victoriametrics_expected(&empty, 0).is_err());
    assert!(accepts_exact(&empty, 200, &empty).is_err());
    assert!(error_request(&empty, 0).is_err());
}

#[test]
fn answers_are_held_to_their_cases() {
    let case = json(r#"{"query":"1","expected_scalar":"1"}"#);
    let expected = operator_expected(&case, 0, 1_000).unwrap();
    let good = json(
        r#"{"status":"success","data":{"resultType":"scalar","result":[1,"1"]}}"#,
    );
    let bad = json(
        r#"{"status":"success","data":{"resultType":"scalar","result":[1,"2"]}}"#,
    );
    let verdict = accepts_operator(&case, &expected, 1_000, 200, &good);
    assert_eq!(verdict, Ok(true));
    assert_eq!(accepts_operator(&case, &expected, 1_000, 200, &bad), Ok(false));
    assert_eq!(accepts_operator(&case, &expected, 1_000, 500, &good), Ok(false));
    assert_eq!(
        accepts_operator_at(&case, &expected, "1970-01-01T00:00:01Z", 200, &good),
        Ok(true)
    );
    let refused = json(r#"{"status":400,"error_type":"bad_data","error_contains":"parse"}"#);
    let body = json(r#"{"status":"error","errorType":"bad_data","error":"parse error"}"#);
    assert_eq!(accepts_error(&refused, 400, &body), Ok(true));
    assert_eq!(accepts_error(&refused, 422, &body), Ok(false));
    assert_eq!(accepts_error(&refused, 400, &json("{}")), Ok(false));
    assert_eq!(accepts_error(&json("{}"), 400, &body), Err(CaseError::Missing("status")));
    assert_eq!(sample_ms(1_700_000_123_456) % 1_000, 0);
    assert_eq!(log_base_us(1_700_000_123_456_789) % 1_000_000, 0);
    assert_eq!(sample_ms(-1), -60_000);
    assert_eq!(sample_ms(-60_001), -120_000);
    assert_eq!(log_base_us(-1), -10_000_000);
    assert_eq!(log_base_us(-1_000_001), -11_000_000);
    assert_eq!(log_base_us(i64::MIN), i64::MIN);
}

#[test]
fn fixtures_count_once_they_are_visible() {
    let body = json(r#"{"status":"success","data":{"resultType":"vector","result":[{}]}}"#);
    assert!(fixture_is_visible(200, &body));
    assert!(!fixture_is_visible(503, &body));
    assert!(!fixture_is_visible(200, &json(r#"{"data":{"result":[]}}"#)));
    let case = json(r#"{"query":"1","expected_scalar":"1"}"#);
    let expected = operator_expected(&case, 0, 1_000).unwrap();
    assert!(!accepts_victoriametrics(&expected, 404, &body));
}

#[test]
fn log_queries_carry_their_times() {
    let plain = json(r#"{"id":"LQL-1","query":"* | limit 1"}"#);
    assert!(victorialogs_query(&plain, 1_700_000_000_000_000).unwrap().contains("limit 1"));
    assert!(victorialogs_query(&json("{}"), 0).is_err());
    assert_eq!(
        time_text("rfc3339", 0, Some("1970-01-01T00:00:00.000000Z".to_owned())).unwrap(),
        "1970-01-01T00:00:00.000000Z"
    );
    assert!(time_text("rfc3339", 0, None).is_err());
    assert_eq!(expected_status(&json(r#"{"status":400}"#)), Some(400));
    assert_eq!(expected_status(&json("{}")), None);
    assert_eq!(row_time(&json(r#"{"time_offset_us":5}"#), 0, 100), Ok(105));
    assert_eq!(row_time(&json("{}"), 7, 100), Ok(107));
    assert_eq!(
        row_time(&json(r#"{"time_offset_us":"5"}"#), 0, 100),
        Err(CaseError::Integer("time_offset_us"))
    );
    assert!(rows_are_visible(200, "{\"a\":1}\n{\"a\":2}\n", 2));
    assert!(!rows_are_visible(200, "{\"a\":1}\n", 2));
}

#[test]
fn log_answers_are_held_to_their_cases() {
    let case = json(r#"{"id":"LQL-1","status":200,"expected_cases":["a","b"]}"#);
    let found = vec!["a".to_owned(), "b".to_owned()];
    let turned = vec!["b".to_owned(), "a".to_owned()];
    let stream = "application/stream+json; charset=utf-8";
    assert_eq!(accepts_logs(&case, &found, 200, stream), Ok(true));
    assert_eq!(accepts_logs(&case, &turned, 200, stream), Ok(true));
    assert_eq!(accepts_logs(&case, &found[..1].to_vec(), 200, stream), Ok(false));
    let ordered = json(
        r#"{"id":"LQL-1","status":200,"expected_cases":["a","b"],"result_order":"ordered"}"#,
    );
    assert_eq!(accepts_logs(&ordered, &found, 200, stream), Ok(true));
    assert_eq!(accepts_logs(&ordered, &turned, 200, stream), Ok(false));
    assert_ne!(accepts_logs(&case, &found, 500, "text/plain"), Ok(true));
    let refused = json(
        r#"{"id":"LQL-2","status":400,"body_contains":"cannot","content_type":"text/plain"}"#,
    );
    assert_eq!(accepts_log_error(&refused, 400, "text/plain", "cannot parse"), Ok(true));
    assert_eq!(accepts_log_error(&refused, 200, "text/plain", "cannot parse"), Ok(false));
    assert_eq!(accepts_log_error(&refused, 400, "text/html", "cannot parse"), Ok(false));
    assert_eq!(accepts_log_error(&refused, 400, "text/plain", "fine"), Ok(false));
    let counted = json(r#"{"id":"LQL-3","expected_rows":[{"n":"1"}]}"#);
    assert_eq!(accepts_log_stats(&counted, &list("[]"), 200, stream), Ok(false));
    assert_eq!(accepts_log_stats(&counted, &list(r#"[{"n":"1"}]"#), 200, stream), Ok(true));
    assert_eq!(
        accepts_log_stats(&json("{}"), &list("[]"), 200, stream),
        Err(CaseError::Missing("stats case expected_rows"))
    );
    assert_eq!(victorialogs_stats(&counted, 200, stream, " \n{\"n\":\"1\"}\n"), Ok(true));
    assert_eq!(victorialogs_stats(&counted, 200, stream, "{\"n\":1}"), Ok(false));
    assert_eq!(victorialogs_stats(&counted, 400, stream, "{\"n\":\"1\"}"), Ok(false));
    assert_eq!(victorialogs_stats(&counted, 200, stream, "{\"n\":"), Err(CaseError::Document));
}

#[test]
fn the_rows_of_an_answer_name_their_cases() {
    let stream = "application/stream+json";
    let cases = |body: &str| victorialogs_response_cases(200, 200, stream, body);
    assert_eq!(cases("{\"case\":\"b\"}\n\n{\"case\":\"a\"}\r\n").unwrap(), ["b", "a"]);
    assert_eq!(cases("{\"case\":1}\n{\"case\""), Err(CaseError::Missing("case")));
    assert_eq!(cases("{\"case\"\n{\"case\":1}"), Err(CaseError::Document));
    assert_eq!(row_case(&json("[]")), Err(CaseError::Missing("case")));
    assert_eq!(row_case(&json("{\"case\":\"x\"}")).unwrap(), "x");
}

#[test]
fn rows_are_sent_with_their_times() {
    let row = json(r#"{"time_offset_us":5,"case":"a","_msg":"m"}"#);
    let sent = timed_row(&row, 3, 100).unwrap();
    assert!(same_json(&sent, &json(r#"{"_msg":"m","case":"a","oracle_time":105}"#)));
    let sent = timed_row(&json("{}"), 3, -100).unwrap();
    assert!(same_json(&sent, &json(r#"{"oracle_time":-97}"#)));
    assert!(matches!(timed_row(&json("[]"), 0, 0), Err(CaseError::NotObject("rows"))));
    assert!(matches!(
        timed_row(&json(r#"{"time_offset_us":"5"}"#), 0, 0),
        Err(CaseError::Integer("time_offset_us"))
    ));
}
