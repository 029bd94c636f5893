//! What the trace baseline asks of a fixture, and which answers it accepts.
use crate::documents::{self, byte_document, document};
use crate::json::{self, held_items, held_member, Json, Tree};
use crate::stats::{self, stat_i64};
use crate::text::{self, push_decimal, push_hex, same_text, trim_text};
use crate::trace_fixture::{self, BATCH_SPANS, HOUR_NS};
use vstd::prelude::*;
use vstd::string::*;

verus! {

/// The most spans that the broad search may return.
pub const BROAD_RESULT_LIMIT: usize = 4_096;

/// Why a baseline is refused before it starts.
#[derive(Clone, Copy, Debug, PartialEq, Eq, Structural)]
pub enum RunError {
    TooFewBatches,
    NoIterations,
    NothingToMeasure,
}

/// Checks the size of a baseline.
pub fn check_run(batches: usize, iterations: usize) -> (result: Result<(), RunError>)
    ensures
        result == (if batches < 16 {
            Err::<(), RunError>(RunError::TooFewBatches)
        } else if iterations == 0 {
            Err(RunError::NoIterations)
        } else {
            Ok(())
        }),
{
    if batches < 16 {
        return Err(RunError::TooFewBatches);
    }
    if iterations == 0 {
        return Err(RunError::NoIterations);
    }
    Ok(())
}

/// Checks the size of the measurements in SQL.
pub fn check_sql(iterations: usize, expected_spans: usize) -> (result: Result<(), RunError>)
    ensures
        result == (if iterations == 0 || expected_spans == 0 {
            Err::<(), RunError>(RunError::NothingToMeasure)
        } else {
            Ok(())
        }),
{
    if iterations == 0 || expected_spans == 0 {
        return Err(RunError::NothingToMeasure);
    }
    Ok(())
}

/// A search over HTTP: the log of its server, its path, and how many traces and
/// spans it must return.
#[derive(Debug)]
pub struct HttpShape {
    pub log: &'static str,
    pub path: String,
    pub traces: usize,
    pub spans: usize,
}

/// The path of search `i`.
pub open spec fn http_path(i: int) -> Seq<char> {
    if i == 0 {
        "/select/jaeger/api/traces/"@ + text::hexadecimal(1, 32)
    } else if i == 1 {
        "/select/jaeger/api/traces?service=bench&minDuration=500000&maxDuration=500000&limit=100"@
    } else {
        "/select/jaeger/api/traces?service=bench&minDuration=1&limit="@ + text::decimal(
            BROAD_RESULT_LIMIT as nat,
        )
    }
}

/// Search `i` of the three: one trace, a miss that decodes everything, and the
/// broadest result.
pub fn http_shape(i: usize) -> (shape: Option<HttpShape>)
    ensures
        match shape {
            Some(s) => i < 3 && s.path@ == http_path(i as int) && (s.log, s.traces, s.spans) == (if i
                == 0 {
                ("exact-server.log", 1usize, 8usize)
            } else if i == 1 {
                ("broad-miss-server.log", 0usize, 0usize)
            } else {
                ("broad-result-server.log", 512usize, 4_096usize)
            }),
            None => i >= 3,
        },
{
    let mut path = String::new();
    if i == 0 {
        path.append("/select/jaeger/api/traces/");
        push_hex(&mut path, 1, 32);
        assert(path@ =~= http_path(0));
        Some(HttpShape { log: "exact-server.log", path, traces: 1, spans: 8 })
    } else if i == 1 {
        path.append(
            "/select/jaeger/api/traces?service=bench&minDuration=500000&maxDuration=500000&limit=100",
        );
        assert(path@ =~= http_path(1));
        Some(HttpShape { log: "broad-miss-server.log", path, traces: 0, spans: 0 })
    } else if i == 2 {
        path.append("/select/jaeger/api/traces?service=bench&minDuration=1&limit=");
        push_decimal(&mut path, BROAD_RESULT_LIMIT as u64);
        assert(path@ =~= http_path(2));
        Some(
            HttpShape {
                log: "broad-result-server.log",
                path,
                traces: BROAD_RESULT_LIMIT / 8,
                spans: BROAD_RESULT_LIMIT,
            },
        )
    } else {
        None
    }
}

/// The queries on span attributes.
#[derive(Clone, Copy, Debug, PartialEq, Eq, Structural)]
pub enum AttributeShape {
    ExactCount,
    BooleanTrue,
}

pub const CONTROL_COUNT_SQL: &'static str =
    "SELECT lower(hex(trace_id)),lower(hex(span_id)),start_ts FROM traces \
                 WHERE start_ts>=?1 AND start_ts<=?2 \
                   AND json_type(attributes,'$.count')='integer' \
                   AND attributes->'$.count'=?3 \
                 ORDER BY start_ts,span_id";

pub const CONTROL_BOOL_SQL: &'static str =
    "SELECT count(*) FROM traces WHERE start_ts>=?1 AND start_ts<=?2 \
                   AND json_type(attributes,'$.bool')='true'";

pub const CANDIDATE_COUNT_SQL: &'static str =
    "SELECT lower(hex(trace_id)),lower(hex(span_id)),start_ts FROM traces \
                 WHERE start_ts>=?1 AND start_ts<=?2 AND attribute_filter=?3 \
                 ORDER BY start_ts,span_id";

pub const CANDIDATE_BOOL_SQL: &'static str =
    "SELECT count(*) FROM traces WHERE start_ts>=?1 AND start_ts<=?2 \
                   AND attribute_filter=?3";

impl AttributeShape {
    /// The name under which the shape is reported.
    pub fn name(self) -> (name: &'static str)
        ensures
            name == (match self {
                AttributeShape::ExactCount => "exact_typed_high_cardinality",
                AttributeShape::BooleanTrue => "exact_typed_low_cardinality",
            }),
    {
        match self {
            AttributeShape::ExactCount => "exact_typed_high_cardinality",
            AttributeShape::BooleanTrue => "exact_typed_low_cardinality",
        }
    }

    /// The query that uses no attribute index.
    pub fn control_sql(self) -> (sql: &'static str)
        ensures
            sql == (match self {
                AttributeShape::ExactCount => CONTROL_COUNT_SQL,
                AttributeShape::BooleanTrue => CONTROL_BOOL_SQL,
            }),
    {
        match self {
            AttributeShape::ExactCount => CONTROL_COUNT_SQL,
            AttributeShape::BooleanTrue => CONTROL_BOOL_SQL,
        }
    }

    /// The query that filters by an indexed attribute.
    pub fn candidate_sql(self) -> (sql: &'static str)
        ensures
            sql == (match self {
                AttributeShape::ExactCount => CANDIDATE_COUNT_SQL,
                AttributeShape::BooleanTrue => CANDIDATE_BOOL_SQL,
            }),
    {
        match self {
            AttributeShape::ExactCount => CANDIDATE_COUNT_SQL,
            AttributeShape::BooleanTrue => CANDIDATE_BOOL_SQL,
        }
    }

    /// The filter that selects the spans with a count, or with a true flag.
    pub open spec fn filter_for(self, target: nat) -> Seq<char> {
        match self {
            AttributeShape::ExactCount => r#"{"scope":"span","path":"/count","value":"#@
                + text::decimal(target) + "}"@,
            AttributeShape::BooleanTrue => r#"{"scope":"span","path":"/bool","value":true}"#@,
        }
    }

    /// The filter that selects the spans with a count, or with a true flag.
    pub fn candidate_filter(self, target: usize) -> (filter: String)
        ensures
            filter@ == self.filter_for(target as nat),
    {
        let mut filter = String::new();
        match self {
            AttributeShape::ExactCount => {
                filter.append(r#"{"scope":"span","path":"/count","value":"#);
                push_decimal(&mut filter, target as u64);
                filter.append("}");
            },
            AttributeShape::BooleanTrue => {
                filter.append(r#"{"scope":"span","path":"/bool","value":true}"#);
            },
        }
        assert(filter@ =~= self.filter_for(target as nat));
        filter
    }

    /// The statement of the shape, with or without the index.
    pub fn statement(self, candidate: bool) -> (sql: &'static str)
        ensures
            sql == (match (self, candidate) {
                (AttributeShape::ExactCount, false) => CONTROL_COUNT_SQL,
                (AttributeShape::BooleanTrue, false) => CONTROL_BOOL_SQL,
                (AttributeShape::ExactCount, true) => CANDIDATE_COUNT_SQL,
                (AttributeShape::BooleanTrue, true) => CANDIDATE_BOOL_SQL,
            }),
    {
        if candidate {
            self.candidate_sql()
        } else {
            self.control_sql()
        }
    }

    /// The operand of the statement: the filter, or the count itself.
    pub fn operand(self, candidate: bool, target: usize) -> (operand: String)
        ensures
            operand@ == (if candidate {
                self.filter_for(target as nat)
            } else {
                text::decimal(target as nat)
            }),
    {
        if candidate {
            self.candidate_filter(target)
        } else {
            text::decimal_text(target as u64)
        }
    }
}

/// One window of an attribute query: its bounds, the count that is looked for,
/// and how many rows must come back.
#[derive(Clone, Copy, Debug)]
pub struct AttributeCase {
    pub window: &'static str,
    pub lower: i64,
    pub upper: i64,
    pub target: usize,
    pub expected_rows: usize,
}

/// The time of the last span of the first box.
pub open spec fn first_box_end(start: int) -> int {
    start + (BATCH_SPANS - 1) * 1_000
}

/// An attribute query over the first box, or over the whole fixture.
pub fn attribute_case(
    shape: AttributeShape,
    wide: bool,
    start: i64,
    stop: i64,
    expected_spans: usize,
) -> (case: AttributeCase)
    requires
        first_box_end(start as int) <= i64::MAX,
    ensures
        case.window == (if wide {
            "wide_all_time_boxes"
        } else {
            "narrow_one_time_box"
        }),
        case.lower == start,
        case.upper == (if wide {
            stop as int
        } else {
            first_box_end(start as int)
        }),
        case.target == (if wide {
            expected_spans / 2
        } else {
            123
        }),
        case.expected_rows == (match shape {
            AttributeShape::ExactCount => 1,
            AttributeShape::BooleanTrue => if wide {
                expected_spans
            } else {
                BATCH_SPANS
            },
        }),
{
    let narrow_stop: i64 = start + (BATCH_SPANS as i64 - 1) * 1_000;
    AttributeCase {
        window: if wide {
            "wide_all_time_boxes"
        } else {
            "narrow_one_time_box"
        },
        lower: start,
        upper: if wide {
            stop
        } else {
            narrow_stop
        },
        target: if wide {
            expected_spans / 2
        } else {
            123
        },
        expected_rows: match shape {
            AttributeShape::ExactCount => 1,
            AttributeShape::BooleanTrue => if wide {
                expected_spans
            } else {
                BATCH_SPANS
            },
        },
    }
}

/// The queries that postings answer.
#[derive(Clone, Copy, Debug, PartialEq, Eq, Structural)]
pub enum PostingShape {
    Service,
    Name,
    Kind,
    Status,
}

pub const SERVICE_SQL: &'static str =
    "SELECT count(*) FROM traces \
                 WHERE service='bench' AND start_ts>=?1 AND start_ts<=?2";

pub const NAME_SQL: &'static str =
    "SELECT count(*) FROM traces \
                 WHERE name='GET /baseline' AND start_ts>=?1 AND start_ts<=?2";

pub const KIND_SQL: &'static str =
    "SELECT count(*) FROM traces \
                 WHERE kind='internal' AND start_ts>=?1 AND start_ts<=?2";

pub const STATUS_SQL: &'static str =
    "SELECT count(*) FROM traces \
                 WHERE status='error' AND start_ts>=?1 AND start_ts<=?2";

impl PostingShape {
    /// Shape `i` of the four.
    pub fn at(i: usize) -> (shape: Option<PostingShape>)
        ensures
            shape == (if i == 0 {
                Some(PostingShape::Service)
            } else if i == 1 {
                Some(PostingShape::Name)
            } else if i == 2 {
                Some(PostingShape::Kind)
            } else if i == 3 {
                Some(PostingShape::Status)
            } else {
                None
            }),
    {
        match i {
            0 => Some(PostingShape::Service),
            1 => Some(PostingShape::Name),
            2 => Some(PostingShape::Kind),
            3 => Some(PostingShape::Status),
            _ => None,
        }
    }

    /// The name under which the shape is reported.
    pub fn name(self) -> (name: &'static str)
        ensures
            name == (match self {
                PostingShape::Service => "service",
                PostingShape::Name => "name",
                PostingShape::Kind => "kind",
                PostingShape::Status => "status",
            }),
    {
        match self {
            PostingShape::Service => "service",
            PostingShape::Name => "name",
            PostingShape::Kind => "kind",
            PostingShape::Status => "status",
        }
    }

    /// The query of the shape.
    pub fn sql(self) -> (sql: &'static str)
        ensures
            sql == (match self {
                PostingShape::Service => SERVICE_SQL,
                PostingShape::Name => NAME_SQL,
                PostingShape::Kind => KIND_SQL,
                PostingShape::Status => STATUS_SQL,
            }),
    {
        match self {
            PostingShape::Service => SERVICE_SQL,
            PostingShape::Name => NAME_SQL,
            PostingShape::Kind => KIND_SQL,
            PostingShape::Status => STATUS_SQL,
        }
    }

    /// Whether a span of the fixture is among the rows of the query.
    pub open spec fn selects(self, global: int) -> bool {
        match self {
            PostingShape::Service => true,
            PostingShape::Name => global % 8 == 0,
            PostingShape::Kind => global % 5 == 0,
            PostingShape::Status => global % 3 == 2,
        }
    }

    /// Whether a span of the fixture is among the rows of the query.
    pub fn matches(self, global: usize) -> (yes: bool)
        ensures
            yes == self.selects(global as int),
    {
        match self {
            PostingShape::Service => true,
            PostingShape::Name => global % 8 == 0,
            PostingShape::Kind => global % 5 == 0,
            PostingShape::Status => global % 3 == 2,
        }
    }

    /// How many of the first `n` spans are among the rows of the query.
    pub open spec fn rows_among(self, n: nat) -> nat
        decreases n,
    {
        if n == 0 {
            0
        } else if self.selects(n - 1) {
            self.rows_among((n - 1) as nat) + 1
        } else {
            self.rows_among((n - 1) as nat)
        }
    }

    /// The blocks of one box that can hold rows: one of each status, or the one
    /// of the asked status.
    pub fn candidate_blocks_per_box(self) -> (blocks: usize)
        ensures
            blocks == (match self {
                PostingShape::Status => 1usize,
                _ => 3usize,
            }),
    {
        match self {
            PostingShape::Service | PostingShape::Name | PostingShape::Kind => 3,
            PostingShape::Status => 1,
        }
    }
}

/// A posting query counts every span, every eighth, every fifth, or the third
/// of every three.
pub proof fn posting_rows(shape: PostingShape, n: nat)
    ensures
        shape.rows_among(n) == (match shape {
            PostingShape::Service => n,
            PostingShape::Name => (n + 7) / 8,
            PostingShape::Kind => (n + 4) / 5,
            PostingShape::Status => n / 3,
        }),
    decreases n,
{
    if n > 0 {
        posting_rows(shape, (n - 1) as nat);
    }
}

/// A span's own fields decide the posting queries: the rows of a query are the
/// spans whose name, kind or status it names.
pub proof fn posting_rows_are_spans_of_the_fixture(batch: int, offset: int)
    requires
        trace_fixture::batch_fits(batch),
        0 <= offset < BATCH_SPANS,
    ensures
        ({
            let span = trace_fixture::span_at(batch, offset);
            let global = trace_fixture::global_at(batch, offset);
            &&& PostingShape::Name.selects(global) ==> span.name == "GET /baseline"@
            &&& !PostingShape::Name.selects(global) ==> span.name == "db.query"@
            &&& PostingShape::Kind.selects(global) <==> span.kind == 0
            &&& PostingShape::Status.selects(global) <==> span.status == 2
        }),
{
    reveal(trace_fixture::span_at);
    assert(0 <= batch * BATCH_SPANS) by (nonlinear_arith)
        requires
            0 <= batch,
    ;
}

/// What a posting query over some boxes must do: how many rows it counts, how
/// many blocks it considers and how many spans it decodes.
#[derive(Clone, Copy, Debug, PartialEq, Eq, Structural)]
pub struct PostingExpectation {
    pub rows: usize,
    pub candidates: usize,
    pub decoded: usize,
}

/// What a posting query over some boxes must do. Only the status query decodes
/// no span besides its rows.
pub fn posting_expectation(shape: PostingShape, boxes: usize) -> (expected: PostingExpectation)
    requires
        boxes * BATCH_SPANS <= usize::MAX,
    ensures
        expected.rows == shape.rows_among((boxes * BATCH_SPANS) as nat),
        expected.candidates == boxes * (if shape is Status {
            1int
        } else {
            3int
        }),
        expected.decoded == (if shape is Status {
            expected.rows as int
        } else {
            boxes * BATCH_SPANS
        }),
{
    let spans: usize = boxes * BATCH_SPANS;
    let mut rows: usize = 0;
    let mut global: usize = 0;
    while global < spans
        invariant
            global <= spans,
            rows <= global,
            rows == shape.rows_among(global as nat),
        decreases spans - global,
    {
        if shape.matches(global) {
            rows += 1;
        }
        global += 1;
    }
    let decoded: usize = match shape {
        PostingShape::Status => rows,
        _ => spans,
    };
    PostingExpectation { rows, candidates: boxes * shape.candidate_blocks_per_box(), decoded }
}

/// The time of the last span of some boxes.
pub open spec fn window_end(start: int, boxes: int) -> int {
    start + (boxes - 1) * HOUR_NS + (BATCH_SPANS - 1) * 1_000
}

/// The time of the last span of some boxes.
pub fn posting_window_stop(start: i64, boxes: usize) -> (stop: i64)
    requires
        boxes <= i64::MAX,
        (boxes - 1) * HOUR_NS <= i64::MAX,
        i64::MIN <= start + (boxes - 1) * HOUR_NS,
        window_end(start as int, boxes as int) <= i64::MAX,
    ensures
        stop == window_end(start as int, boxes as int),
{
    start + (boxes as i64 - 1) * HOUR_NS + (BATCH_SPANS as i64 - 1) * 1_000
}

/// A counter that a posting query must have raised, with the growth it must
/// have after some repetitions.
#[derive(Clone, Copy, Debug, PartialEq, Eq, Structural)]
pub enum PostingCounter {
    Queries,
    Candidates,
    Payloads,
    Decoded,
    Matched,
    Returned,
}

impl PostingCounter {
    /// The name of the counter.
    pub open spec fn key(self) -> &'static str {
        match self {
            PostingCounter::Queries => "query_count",
            PostingCounter::Candidates => "query_candidate_blocks",
            PostingCounter::Payloads => "query_payload_blocks_read",
            PostingCounter::Decoded => "query_decoded_spans",
            PostingCounter::Matched => "query_matched_spans",
            PostingCounter::Returned => "query_returned_spans",
        }
    }

    /// The growth of the counter over `iterations` queries.
    pub open spec fn growth(self, expected: PostingExpectation, iterations: int) -> int {
        match self {
            PostingCounter::Queries => iterations,
            PostingCounter::Candidates => expected.candidates * iterations,
            PostingCounter::Payloads => expected.candidates * iterations,
            PostingCounter::Decoded => expected.decoded * iterations,
            PostingCounter::Matched => expected.rows * iterations,
            PostingCounter::Returned => expected.rows * iterations,
        }
    }

    /// The counter has grown as it must.
    pub open spec fn holds(self, work: Json, expected: PostingExpectation, iterations: int) -> bool {
        stats::json_stat(work, self.key()@) matches Some(v) && v == self.growth(expected, iterations)
    }

    fn check(self, work: &Json, expected: PostingExpectation, iterations: usize) -> (ok: bool)
        ensures
            ok == self.holds(*work, expected, iterations as int),
    {
        let key: &'static str = match self {
            PostingCounter::Queries => "query_count",
            PostingCounter::Candidates => "query_candidate_blocks",
            PostingCounter::Payloads => "query_payload_blocks_read",
            PostingCounter::Decoded => "query_decoded_spans",
            PostingCounter::Matched => "query_matched_spans",
            PostingCounter::Returned => "query_returned_spans",
        };
        let each: usize = match self {
            PostingCounter::Queries => 1,
            PostingCounter::Candidates => expected.candidates,
            PostingCounter::Payloads => expected.candidates,
            PostingCounter::Decoded => expected.decoded,
            PostingCounter::Matched => expected.rows,
            PostingCounter::Returned => expected.rows,
        };
        assert(each as u128 * iterations as u128 <= u128::MAX) by (nonlinear_arith)
            requires
                each <= 0xffff_ffff_ffff_ffff,
                iterations <= 0xffff_ffff_ffff_ffff,
        ;
        let growth: u128 = each as u128 * iterations as u128;
        match stat_i64(work, key) {
            Some(v) => v >= 0 && v as u128 == growth,
            None => false,
        }
    }
}

/// The first counter, in the order in which they are read, that has not grown
/// as it must.
pub open spec fn posting_fault(work: Json, expected: PostingExpectation, iterations: int) -> Option<
    PostingCounter,
> {
    if !PostingCounter::Queries.holds(work, expected, iterations) {
        Some(PostingCounter::Queries)
    } else if !PostingCounter::Candidates.holds(work, expected, iterations) {
        Some(PostingCounter::Candidates)
    } else if !PostingCounter::Payloads.holds(work, expected, iterations) {
        Some(PostingCounter::Payloads)
    } else if !PostingCounter::Decoded.holds(work, expected, iterations) {
        Some(PostingCounter::Decoded)
    } else if !PostingCounter::Matched.holds(work, expected, iterations) {
        Some(PostingCounter::Matched)
    } else if !PostingCounter::Returned.holds(work, expected, iterations) {
        Some(PostingCounter::Returned)
    } else {
        None
    }
}

/// Checks the work of a posting query that was repeated `iterations` times.
pub fn require_posting_work(work: &Json, expected: PostingExpectation, iterations: usize) -> (fault:
    Option<PostingCounter>)
    ensures
        fault == posting_fault(*work, expected, iterations as int),
{
    if !PostingCounter::Queries.check(work, expected, iterations) {
        Some(PostingCounter::Queries)
    } else if !PostingCounter::Candidates.check(work, expected, iterations) {
        Some(PostingCounter::Candidates)
    } else if !PostingCounter::Payloads.check(work, expected, iterations) {
        Some(PostingCounter::Payloads)
    } else if !PostingCounter::Decoded.check(work, expected, iterations) {
        Some(PostingCounter::Decoded)
    } else if !PostingCounter::Matched.check(work, expected, iterations) {
        Some(PostingCounter::Matched)
    } else if !PostingCounter::Returned.check(work, expected, iterations) {
        Some(PostingCounter::Returned)
    } else {
        None
    }
}

/// The head of the common table expression, up to the condition.
pub const PREFIX_HEAD: &'static str =
    "WITH retained AS (\
           SELECT trace_id,span_id,parent_span_id,name,service,status,start_ts,duration_ns,\
                  CASE WHEN duration_ns>=0 \
                             AND start_ts<=9223372036854775807-duration_ns \
                       THEN start_ts+duration_ns END AS valid_end_ts \
             FROM traces";

/// The rest of the query that scans once.
pub const SINGLE_SCAN: &'static str =
    " \
         SELECT lower(hex(trace_id)),count(*) AS span_rows,\
                count(DISTINCT span_id) AS distinct_span_ids,\
                count(*) FILTER (WHERE status='error') AS error_rows,\
                min(start_ts) AS start_ts,max(valid_end_ts) AS end_ts,\
                CASE WHEN count(*) FILTER (WHERE valid_end_ts IS NULL)<>0 THEN NULL \
                     WHEN min(start_ts)>=0 THEN max(valid_end_ts)-min(start_ts) \
                     WHEN max(valid_end_ts)<=9223372036854775807+min(start_ts) \
                       THEN max(valid_end_ts)-min(start_ts) END AS duration_ns,\
                count(*) FILTER (WHERE valid_end_ts IS NULL) AS invalid_end_rows,\
                count(*) FILTER (WHERE parent_span_id IS NULL) AS root_rows,\
                CASE WHEN count(*) FILTER (WHERE parent_span_id IS NULL)=1 \
                     THEN lower(hex(min(span_id) FILTER (WHERE parent_span_id IS NULL))) END,\
                CASE WHEN count(*) FILTER (WHERE parent_span_id IS NULL)=1 \
                     THEN min(name) FILTER (WHERE parent_span_id IS NULL) END,\
                CASE WHEN count(*) FILTER (WHERE parent_span_id IS NULL)=1 \
                     THEN min(service) FILTER (WHERE parent_span_id IS NULL) END,\
                CASE count(*) FILTER (WHERE parent_span_id IS NULL) WHEN 0 THEN 'missing' \
                     WHEN 1 THEN 'unique' ELSE 'ambiguous' END AS root_state,\
                count(DISTINCT service) AS service_count,'unknown' AS completeness \
           FROM retained GROUP BY trace_id ORDER BY trace_id";

/// The rest of the query that scans twice.
pub const TWO_SCANS: &'static str =
    ", totals AS (\
           SELECT trace_id,count(*) AS span_rows,\
                  count(DISTINCT span_id) AS distinct_span_ids,\
                  count(*) FILTER (WHERE status='error') AS error_rows,\
                  min(start_ts) AS start_ts,max(valid_end_ts) AS end_ts,\
                  count(*) FILTER (WHERE valid_end_ts IS NULL) AS invalid_end_rows,\
                  count(DISTINCT service) AS service_count \
             FROM retained GROUP BY trace_id\
         ), roots AS (\
           SELECT trace_id,count(*) AS root_rows,\
                  CASE WHEN count(*)=1 THEN lower(hex(min(span_id))) END AS root_span_id,\
                  CASE WHEN count(*)=1 THEN min(name) END AS root_name,\
                  CASE WHEN count(*)=1 THEN min(service) END AS root_service \
             FROM retained WHERE parent_span_id IS NULL GROUP BY trace_id\
         ) \
         SELECT lower(hex(totals.trace_id)),totals.span_rows,\
                totals.distinct_span_ids,totals.error_rows,totals.start_ts,totals.end_ts,\
                CASE WHEN totals.invalid_end_rows<>0 THEN NULL \
                     WHEN totals.start_ts>=0 THEN totals.end_ts-totals.start_ts \
                     WHEN totals.end_ts<=9223372036854775807+totals.start_ts \
                       THEN totals.end_ts-totals.start_ts END AS duration_ns,\
                totals.invalid_end_rows,coalesce(roots.root_rows,0),\
                roots.root_span_id,roots.root_name,roots.root_service,\
                CASE coalesce(roots.root_rows,0) WHEN 0 THEN 'missing' \
                     WHEN 1 THEN 'unique' ELSE 'ambiguous' END AS root_state,\
                totals.service_count,'unknown' AS completeness \
           FROM totals LEFT JOIN roots USING(trace_id) ORDER BY totals.trace_id";

/// The common table expression that trace summaries read.
pub open spec fn summary_prefix(exact_trace: bool) -> Seq<char> {
    PREFIX_HEAD@ + (if exact_trace {
        " WHERE trace_id=?1"@
    } else {
        ""@
    }) + ")"@
}

/// The common table expression that trace summaries read: the spans of one
/// trace, or all spans.
pub fn trace_summary_prefix(exact_trace: bool) -> (sql: String)
    ensures
        sql@ == summary_prefix(exact_trace),
{
    let mut sql = String::new();
    sql.append(PREFIX_HEAD);
    if exact_trace {
        sql.append(" WHERE trace_id=?1");
    } else {
        sql.append("");
    }
    sql.append(")");
    assert(sql@ =~= summary_prefix(exact_trace));
    sql
}

/// The summaries by one conditional aggregate scan.
pub fn trace_summary_single_scan_sql(exact_trace: bool) -> (sql: String)
    ensures
        sql@ == summary_prefix(exact_trace) + SINGLE_SCAN@,
{
    let mut sql = trace_summary_prefix(exact_trace);
    sql.append(SINGLE_SCAN);
    sql
}

/// The summaries by two scans that are joined.
pub fn trace_summary_two_scan_sql(exact_trace: bool) -> (sql: String)
    ensures
        sql@ == summary_prefix(exact_trace) + TWO_SCANS@,
{
    let mut sql = trace_summary_prefix(exact_trace);
    sql.append(TWO_SCANS);
    sql
}

/// The summaries of one trace or of all, by one scan or by two.
pub fn trace_summary_sql(exact_trace: bool, single_scan: bool) -> (sql: String)
    ensures
        sql@ == summary_prefix(exact_trace) + (if single_scan {
            SINGLE_SCAN@
        } else {
            TWO_SCANS@
        }),
{
    if single_scan {
        trace_summary_single_scan_sql(exact_trace)
    } else {
        trace_summary_two_scan_sql(exact_trace)
    }
}

/// One trace as the summary query reports it.
pub struct TraceSummaryRow {
    pub trace_id: String,
    pub span_rows: i64,
    pub distinct_span_ids: i64,
    pub error_rows: i64,
    pub start_ts: i64,
    pub end_ts: i64,
    pub duration_ns: i64,
    pub invalid_end_rows: i64,
    pub root_rows: i64,
    pub root_span_id: Option<String>,
    pub root_name: Option<String>,
    pub root_service: Option<String>,
    pub root_state: String,
    pub service_count: i64,
    pub completeness: String,
}

/// An optional text is a given one.
pub open spec fn text_is(value: Option<String>, text: Seq<char>) -> bool {
    value matches Some(t) && t@ == text
}

fn has_text(value: &Option<String>, text: &str) -> (yes: bool)
    ensures
        yes == text_is(*value, text@),
{
    match value {
        Some(t) => same_text(t, text),
        None => false,
    }
}

impl TraceSummaryRow {
    /// The row is that of a whole trace of the fixture.
    pub open spec fn is_whole(&self) -> bool {
        &&& self.span_rows == 8
        &&& self.distinct_span_ids == 8
        &&& self.invalid_end_rows == 0
        &&& self.root_rows == 1
        &&& self.root_state@ == "unique"@
        &&& self.service_count == 1
        &&& self.completeness@ == "unknown"@
        &&& self.root_span_id is Some
        &&& text_is(self.root_name, "GET /baseline"@)
        &&& text_is(self.root_service, "bench"@)
        &&& self.end_ts >= self.start_ts
        &&& self.duration_ns == self.end_ts - self.start_ts
        &&& (self.error_rows == 2 || self.error_rows == 3)
    }

    fn whole(&self) -> (yes: bool)
        ensures
            yes == self.is_whole(),
    {
        self.span_rows == 8 && self.distinct_span_ids == 8 && self.invalid_end_rows == 0
            && self.root_rows == 1 && same_text(&self.root_state, "unique") && self.service_count == 1
            && same_text(&self.completeness, "unknown") && self.root_span_id.is_some() && has_text(
            &self.root_name,
            "GET /baseline",
        ) && has_text(&self.root_service, "bench") && self.end_ts >= self.start_ts
            && self.duration_ns as i128 == self.end_ts as i128 - self.start_ts as i128 && (
        self.error_rows == 2 || self.error_rows == 3)
    }
}

/// The spans of the first rows; nothing where a partial sum leaves 64 bits.
pub open spec fn summed_spans(counts: Seq<i64>) -> Option<int>
    decreases counts.len(),
{
    if counts.len() == 0 {
        Some(0int)
    } else {
        match summed_spans(counts.drop_last()) {
            Some(total) => if i64::MIN <= total + counts.last() <= i64::MAX {
                Some(total + counts.last())
            } else {
                None
            },
            None => None,
        }
    }
}

/// A partial sum that leaves the range makes the whole sum fail.
proof fn overflow_persists(counts: Seq<i64>, k: int)
    requires
        0 <= k <= counts.len(),
        summed_spans(counts.take(k)) is None,
    ensures
        summed_spans(counts) is None,
    decreases counts.len() - k,
{
    if k == counts.len() {
        assert(counts.take(k) =~= counts);
    } else {
        assert(counts.take(k + 1).drop_last() =~= counts.take(k));
        overflow_persists(counts, k + 1);
    }
}

/// The sum of counts, where every partial sum fits in 64 bits.
pub fn sum_spans(counts: &Vec<i64>) -> (total: Option<i64>)
    ensures
        match total {
            Some(t) => summed_spans(counts@) == Some(t as int),
            None => summed_spans(counts@) is None,
        },
{
    let mut total: i64 = 0;
    let mut i: usize = 0;
    while i < counts.len()
        invariant
            i <= counts@.len(),
            summed_spans(counts@.take(i as int)) == Some(total as int),
        decreases counts.len() - i,
    {
        assert(counts@.take(i + 1).drop_last() =~= counts@.take(i as int));
        assert(counts@.take(i + 1).last() == counts@[i as int]);
        match total.checked_add(counts[i]) {
            Some(sum) => {
                total = sum;
            },
            None => {
                proof {
                    overflow_persists(counts@, i + 1);
                }
                return None;
            },
        }
        i += 1;
    }
    assert(counts@.take(i as int) =~= counts@);
    Some(total)
}

/// Why the rows of a measurement are refused.
#[derive(Clone, Copy, Debug, PartialEq, Eq, Structural)]
pub enum RowsError {
    RowCount,
    SpanOverflow,
    SpanTotal,
    RowContents,
}

/// The span counts of summary rows.
pub open spec fn summary_counts(rows: Seq<TraceSummaryRow>) -> Seq<i64> {
    rows.map_values(|r: TraceSummaryRow| r.span_rows)
}

/// What is wrong with summary rows, if anything: their number, a total that
/// leaves 64 bits, the total, or a row that is not that of a whole trace.
pub open spec fn summary_fault(
    rows: Seq<TraceSummaryRow>,
    expected_rows: int,
    expected_spans: int,
) -> Option<RowsError> {
    if rows.len() != expected_rows {
        Some(RowsError::RowCount)
    } else if summed_spans(summary_counts(rows)) is None {
        Some(RowsError::SpanOverflow)
    } else if summed_spans(summary_counts(rows)) != Some(expected_spans) {
        Some(RowsError::SpanTotal)
    } else if exists|i: int| 0 <= i < rows.len() && !(#[trigger] rows[i]).is_whole() {
        Some(RowsError::RowContents)
    } else {
        None
    }
}

/// Checks the rows of a summary query.
pub fn require_trace_summaries(
    rows: &Vec<TraceSummaryRow>,
    expected_rows: usize,
    expected_spans: usize,
) -> (result: Result<(), RowsError>)
    ensures
        result == (match summary_fault(rows@, expected_rows as int, expected_spans as int) {
            Some(e) => Err::<(), RowsError>(e),
            None => Ok(()),
        }),
{
    if rows.len() != expected_rows {
        return Err(RowsError::RowCount);
    }
    let mut counts: Vec<i64> = Vec::new();
    let mut i: usize = 0;
    while i < rows.len()
        invariant
            i <= rows@.len(),
            counts@ =~= summary_counts(rows@).take(i as int),
        decreases rows.len() - i,
    {
        counts.push(rows[i].span_rows);
        i += 1;
    }
    assert(summary_counts(rows@).take(i as int) =~= summary_counts(rows@));
    match sum_spans(&counts) {
        None => {
            return Err(RowsError::SpanOverflow);
        },
        Some(total) => {
            if total < 0 || total as u64 != expected_spans as u64 {
                return Err(RowsError::SpanTotal);
            }
        },
    }
    let mut k: usize = 0;
    while k < rows.len()
        invariant
            k <= rows@.len(),
            rows@.len() == expected_rows,
            summed_spans(summary_counts(rows@)) == Some(expected_spans as int),
            forall|j: int| 0 <= j < k ==> (#[trigger] rows@[j]).is_whole(),
        decreases rows.len() - k,
    {
        if !rows[k].whole() {
            assert(!rows@[k as int].is_whole());
            return Err(RowsError::RowContents);
        }
        k += 1;
    }
    Ok(())
}

/// One bucket as the bucket query reports it.
#[derive(Debug)]
pub struct BucketRow {
    pub bucket_ts: i64,
    pub service: String,
    pub spans: i64,
    pub errors: i64,
    pub dur_sum: i64,
    pub dur_min: i64,
    pub dur_max: i64,
    pub dur_p50: i64,
    pub dur_p95: i64,
    pub dur_p99: i64,
}

impl BucketRow {
    /// The bucket has the durations of a whole batch of the fixture.
    pub open spec fn has_batch_durations(&self) -> bool {
        &&& self.dur_min == 100_000
        &&& self.dur_max == 900_000
        &&& self.dur_p50 == 100_000
        &&& self.dur_p95 == 900_000
        &&& self.dur_p99 == 900_000
    }
}

/// The span counts of buckets.
pub open spec fn bucket_counts(rows: Seq<BucketRow>) -> Seq<i64> {
    rows.map_values(|r: BucketRow| r.spans)
}

/// What is wrong with buckets, if anything.
pub open spec fn bucket_fault(rows: Seq<BucketRow>, expected: int) -> Option<RowsError> {
    if summed_spans(bucket_counts(rows)) is None {
        Some(RowsError::SpanOverflow)
    } else if summed_spans(bucket_counts(rows)) != Some(expected) {
        Some(RowsError::SpanTotal)
    } else if exists|i: int| 0 <= i < rows.len() && !(#[trigger] rows[i]).has_batch_durations() {
        Some(RowsError::RowContents)
    } else {
        None
    }
}

/// Checks the rows of a bucket query.
pub fn require_bucket_spans(rows: &Vec<BucketRow>, expected: usize) -> (result: Result<
    (),
    RowsError,
>)
    ensures
        result == (match bucket_fault(rows@, expected as int) {
            Some(e) => Err::<(), RowsError>(e),
            None => Ok(()),
        }),
{
    let mut counts: Vec<i64> = Vec::new();
    let mut i: usize = 0;
    while i < rows.len()
        invariant
            i <= rows@.len(),
            counts@ =~= bucket_counts(rows@).take(i as int),
        decreases rows.len() - i,
    {
        counts.push(rows[i].spans);
        i += 1;
    }
    assert(bucket_counts(rows@).take(i as int) =~= bucket_counts(rows@));
    match sum_spans(&counts) {
        None => {
            return Err(RowsError::SpanOverflow);
        },
        Some(total) => {
            if total < 0 || total as u64 != expected as u64 {
                return Err(RowsError::SpanTotal);
            }
        },
    }
    let mut k: usize = 0;
    while k < rows.len()
        invariant
            k <= rows@.len(),
            summed_spans(bucket_counts(rows@)) == Some(expected as int),
            forall|j: int| 0 <= j < k ==> (#[trigger] rows@[j]).has_batch_durations(),
        decreases rows.len() - k,
    {
        let row = &rows[k];
        if row.dur_min != 100_000 || row.dur_max != 900_000 || row.dur_p50 != 100_000 || row.dur_p95
            != 900_000 || row.dur_p99 != 900_000 {
            assert(!rows@[k as int].has_batch_durations());
            return Err(RowsError::RowContents);
        }
        k += 1;
    }
    Ok(())
}

/// The query that reports buckets.
pub const BUCKET_SQL: &'static str =
    "SELECT bucket_ts,service,spans,errors,dur_sum,dur_min,dur_max,dur_p50,dur_p95,dur_p99 FROM timeless_trace_buckets(?1,?2,?3,?4,?5) ORDER BY bucket_ts,service";

/// One measurement in SQL.
#[derive(Clone, Copy, Debug)]
pub enum Measurement {
    /// Buckets of an hour over a window, of one service or of all.
    Buckets { service: Option<&'static str>, stop: i64, spans: usize },
    /// All posting queries over some boxes.
    Postings { boxes: usize },
    /// Summaries of one trace or of all, by one scan or by two.
    Summaries { exact: bool, traces: usize, spans: usize, single_scan: bool },
    /// All attribute queries.
    Attributes,
}

/// Measurement `i`, by its report name.
pub open spec fn measurement_at(i: int, start: int, stop: i64, spans: usize) -> Option<
    (&'static str, Measurement),
> {
    if i == 0 {
        Some(("broad_all_time_boxes", Measurement::Buckets { service: None, stop, spans }))
    } else if i == 1 {
        Some(
            (
                "narrow_one_time_box_control",
                Measurement::Buckets {
                    service: Some("bench"),
                    stop: first_box_end(start) as i64,
                    spans: BATCH_SPANS,
                },
            ),
        )
    } else if i == 2 {
        Some(("narrow_one_time_box", Measurement::Postings { boxes: 1 }))
    } else if i == 3 {
        Some(("wide_four_time_boxes", Measurement::Postings { boxes: 4 }))
    } else if i == 4 {
        Some(
            (
                "exact_one_trace",
                Measurement::Summaries { exact: true, traces: 1, spans: 8, single_scan: false },
            ),
        )
    } else if i == 5 {
        Some(
            (
                "broad_all_traces",
                Measurement::Summaries {
                    exact: false,
                    traces: spans / 8,
                    spans,
                    single_scan: false,
                },
            ),
        )
    } else if i == 6 {
        Some(
            (
                "exact_one_trace",
                Measurement::Summaries { exact: true, traces: 1, spans: 8, single_scan: true },
            ),
        )
    } else if i == 7 {
        Some(
            (
                "broad_all_traces",
                Measurement::Summaries { exact: false, traces: spans / 8, spans, single_scan: true },
            ),
        )
    } else if i == 8 {
        Some(("attribute_equality", Measurement::Attributes))
    } else {
        None
    }
}

/// Measurement `i` in SQL over a fixture that starts at `start`, ends at `stop`
/// and has `spans` spans.
pub fn run_sql(i: usize, start: i64, stop: i64, spans: usize) -> (step: Option<
    (&'static str, Measurement),
>)
    requires
        first_box_end(start as int) <= i64::MAX,
    ensures
        step == measurement_at(i as int, start as int, stop, spans),
{
    if i == 0 {
        Some(("broad_all_time_boxes", Measurement::Buckets { service: None, stop, spans }))
    } else if i == 1 {
        let narrow_stop: i64 = start + (BATCH_SPANS as i64 - 1) * 1_000;
        Some(
            (
                "narrow_one_time_box_control",
                Measurement::Buckets {
                    service: Some("bench"),
                    stop: narrow_stop,
                    spans: BATCH_SPANS,
                },
            ),
        )
    } else if i == 2 {
        Some(("narrow_one_time_box", Measurement::Postings { boxes: 1 }))
    } else if i == 3 {
        Some(("wide_four_time_boxes", Measurement::Postings { boxes: 4 }))
    } else if i == 4 {
        Some(
            (
                "exact_one_trace",
                Measurement::Summaries { exact: true, traces: 1, spans: 8, single_scan: false },
            ),
        )
    } else if i == 5 {
        Some(
            (
                "broad_all_traces",
                Measurement::Summaries {
                    exact: false,
                    traces: spans / 8,
                    spans,
                    single_scan: false,
                },
            ),
        )
    } else if i == 6 {
        Some(
            (
                "exact_one_trace",
                Measurement::Summaries { exact: true, traces: 1, spans: 8, single_scan: true },
            ),
        )
    } else if i == 7 {
        Some(
            (
                "broad_all_traces",
                Measurement::Summaries { exact: false, traces: spans / 8, spans, single_scan: true },
            ),
        )
    } else if i == 8 {
        Some(("attribute_equality", Measurement::Attributes))
    } else {
        None
    }
}

/// The spans of a trace of a search result.
pub open spec fn trace_spans(trace: Tree) -> nat {
    match json::tree_member(trace, "spans"@) {
        Some(value) => match json::tree_items(value) {
            Some(list) => list.len(),
            None => 0,
        },
        None => 0,
    }
}

/// The spans of all traces of a search result.
pub open spec fn all_spans(traces: Seq<Tree>) -> nat
    decreases traces.len(),
{
    if traces.len() == 0 {
        0
    } else {
        all_spans(traces.drop_last()) + trace_spans(traces.last())
    }
}

/// Why a search result is refused.
#[derive(Clone, Copy, Debug, PartialEq, Eq, Structural)]
pub enum SearchError {
    /// It is no document.
    Document,
    /// It has no list of traces.
    NoData,
    /// It has another number of traces or of spans.
    Cardinality,
}

/// What is wrong with what a search result holds, if anything.
pub open spec fn search_fault(body: Tree, traces: int, spans: int) -> Option<SearchError> {
    match json::tree_member(body, "data"@) {
        Some(data) => match json::tree_items(data) {
            Some(list) => if list.len() == traces && all_spans(list) == spans {
                None
            } else {
                Some(SearchError::Cardinality)
            },
            None => Some(SearchError::NoData),
        },
        None => Some(SearchError::NoData),
    }
}

fn spans_of(trace: &Json) -> (count: usize)
    ensures
        count == trace_spans(json::tree(*trace)),
{
    match held_member(trace, "spans") {
        Some(value) => match held_items(value) {
            Some(list) => list.len(),
            None => 0,
        },
        None => 0,
    }
}

proof fn spans_grow(traces: Seq<Tree>, k: int)
    requires
        0 <= k <= traces.len(),
    ensures
        all_spans(traces.take(k)) <= all_spans(traces),
    decreases traces.len() - k,
{
    if k == traces.len() {
        assert(traces.take(k) =~= traces);
    } else {
        assert(traces.take(k + 1).drop_last() =~= traces.take(k));
        spans_grow(traces, k + 1);
    }
}

/// Checks how many traces and spans a search returned.
pub fn check_cardinality(body: &Json, expected_traces: usize, expected_spans: usize) -> (fault: Option<
    SearchError,
>)
    ensures
        fault == search_fault(json::tree(*body), expected_traces as int, expected_spans as int),
{
    let data = match held_member(body, "data") {
        Some(data) => data,
        None => return Some(SearchError::NoData),
    };
    let traces = match held_items(data) {
        Some(traces) => traces,
        None => return Some(SearchError::NoData),
    };
    let ghost all = json::trees(traces@);
    let mut spans: usize = 0;
    let mut i: usize = 0;
    while i < traces.len()
        invariant
            i <= traces@.len(),
            all == json::trees(traces@),
            all.len() == traces@.len(),
            spans == all_spans(all.take(i as int)),
            spans <= expected_spans,
            json::tree_member(json::tree(*body), "data"@) == Some(json::tree(*data)),
            json::tree_items(json::tree(*data)) == Some(all),
        decreases traces.len() - i,
    {
        assert(all.take(i + 1).drop_last() =~= all.take(i as int));
        assert(all.take(i + 1).last() == json::tree(traces@[i as int]));
        let more: usize = spans_of(&traces[i]);
        if more > expected_spans - spans {
            proof {
                spans_grow(all, i + 1);
            }
            return Some(SearchError::Cardinality);
        }
        spans += more;
        i += 1;
    }
    assert(all.take(i as int) =~= all);
    if traces.len() == expected_traces && spans == expected_spans {
        None
    } else {
        Some(SearchError::Cardinality)
    }
}

/// Checks how many traces and spans the answer to a search has.
pub fn require_jaeger_cardinality(
    body: &[u8],
    expected_traces: usize,
    expected_spans: usize,
) -> (result: Result<(), SearchError>)
    ensures
        result == (match documents::byte_tree(body@) {
            None => Err::<(), SearchError>(SearchError::Document),
            Some(held) => match search_fault(held, expected_traces as int, expected_spans as int) {
                Some(e) => Err(e),
                None => Ok(()),
            },
        }),
{
    match byte_document(body) {
        None => Err(SearchError::Document),
        Some(value) => match check_cardinality(&value, expected_traces, expected_spans) {
            Some(e) => Err(e),
            None => Ok(()),
        },
    }
}

/// Whether all measured sizes are the same, and there is one.
pub fn one_size(sizes: &[usize]) -> (yes: bool)
    ensures
        yes <==> sizes@.len() > 0 && forall|i: int|
            0 <= i < sizes@.len() ==> #[trigger] sizes@[i] == sizes@[0],
{
    if sizes.len() == 0 {
        return false;
    }
    let mut i: usize = 0;
    while i < sizes.len()
        invariant
            i <= sizes@.len(),
            sizes@.len() > 0,
            forall|j: int| 0 <= j < i ==> #[trigger] sizes@[j] == sizes@[0],
        decreases sizes.len() - i,
    {
        if sizes[i] != sizes[0] {
            assert(sizes@[i as int] != sizes@[0]);
            return false;
        }
        i += 1;
    }
    true
}

/// The build identity of a program names a commit.
pub open spec fn built_from(identity: Tree, commit: Seq<char>) -> bool {
    json::tree_member(identity, "commit"@) == Some(Tree::Text(commit))
}

/// Whether the build identity of a program names a commit.
pub fn names_commit(identity: &Json, commit: &str) -> (yes: bool)
    ensures
        yes == built_from(json::tree(*identity), commit@),
{
    match held_member(identity, "commit") {
        Some(value) => json::text_is(value, commit),
        None => false,
    }
}

/// Why a build is refused.
#[derive(Clone, Copy, Debug, PartialEq, Eq, Structural)]
pub enum IdentityError {
    /// What it says of itself is no document.
    Document,
    /// It does not say what it was built from.
    NoBuild,
    /// It was built from another commit.
    OtherCommit,
}

/// What a build says of itself, or an error, by what it holds.
pub open spec fn identity_held(identity: Result<Json, IdentityError>) -> Result<Tree, IdentityError> {
    match identity {
        Ok(v) => Ok(json::tree(v)),
        Err(e) => Err(e),
    }
}

/// What a program prints of itself, if it was built from a commit.
pub fn binary_identity(printed: &[u8], expected_commit: &str) -> (identity: Result<
    Json,
    IdentityError,
>)
    ensures
        identity_held(identity) == (match documents::byte_tree(printed@) {
            None => Err(IdentityError::Document),
            Some(held) => if built_from(held, expected_commit@) {
                Ok(held)
            } else {
                Err(IdentityError::OtherCommit)
            },
        }),
{
    match byte_document(printed) {
        None => Err(IdentityError::Document),
        Some(value) => if names_commit(&value, expected_commit) {
            Ok(value)
        } else {
            Err(IdentityError::OtherCommit)
        },
    }
}

/// What the capabilities of an extension say of its build.
pub open spec fn build_held(capabilities: Tree, commit: Seq<char>) -> Result<Tree, IdentityError> {
    match json::tree_member(capabilities, "build"@) {
        None => Err(IdentityError::NoBuild),
        Some(build) => if built_from(build, commit) {
            Ok(build)
        } else {
            Err(IdentityError::OtherCommit)
        },
    }
}

/// What the capabilities of an extension say of its build, if it was built from a
/// commit.
pub fn build_of(capabilities: &Json, expected_commit: &str) -> (build: Result<Json, IdentityError>)
    ensures
        identity_held(build) == build_held(json::tree(*capabilities), expected_commit@),
{
    match held_member(capabilities, "build") {
        Some(build) => if names_commit(build, expected_commit) {
            Ok(json::copy(build))
        } else {
            Err(IdentityError::OtherCommit)
        },
        None => Err(IdentityError::NoBuild),
    }
}

/// What an extension says of its build, if it was built from a commit.
pub fn extension_identity(encoded: &str, expected_commit: &str) -> (build: Result<
    Json,
    IdentityError,
>)
    ensures
        identity_held(build) == (match documents::document_tree(encoded@) {
            None => Err(IdentityError::Document),
            Some(held) => build_held(held, expected_commit@),
        }),
{
    match document(encoded) {
        None => Err(IdentityError::Document),
        Some(capabilities) => build_of(&capabilities, expected_commit),
    }
}

/// The arguments by which git names the current commit.
pub fn git_commit() -> (args: [&'static str; 2])
    ensures
        args@ == seq!["rev-parse", "HEAD"],
{
    let args: [&'static str; 2] = ["rev-parse", "HEAD"];
    assert(args@ =~= seq!["rev-parse", "HEAD"]);
    args
}

/// The arguments by which git names the current branch.
pub fn current_branch() -> (args: [&'static str; 2])
    ensures
        args@ == seq!["branch", "--show-current"],
{
    let args: [&'static str; 2] = ["branch", "--show-current"];
    assert(args@ =~= seq!["branch", "--show-current"]);
    args
}

/// What git answered: nothing where it failed, else its answer without the
/// white space around it.
pub fn git_line(success: bool, stdout: &str) -> (line: Option<String>)
    ensures
        match line {
            Some(l) => success && l@ == text::trim(stdout@),
            None => !success,
        },
{
    if success {
        Some(trim_text(stdout))
    } else {
        None
    }
}

/// Why a worktree is refused.
#[derive(Clone, Copy, Debug, PartialEq, Eq, Structural)]
pub enum WorktreeError {
    GitFailed,
    Changed,
}

/// Checks that git reports no change of a tracked file.
pub fn require_clean_tracked_worktree(success: bool, status: &str) -> (result: Result<
    (),
    WorktreeError,
>)
    ensures
        result == (if !success {
            Err::<(), WorktreeError>(WorktreeError::GitFailed)
        } else if text::trim(status@).len() != 0 {
            Err(WorktreeError::Changed)
        } else {
            Ok(())
        }),
{
    if !success {
        return Err(WorktreeError::GitFailed);
    }
    let rest = trim_text(status);
    let chars = text::chars_of(&rest);
    if chars.len() != 0 {
        return Err(WorktreeError::Changed);
    }
    Ok(())
}

} // verus!
