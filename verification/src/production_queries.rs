//! What the production gate asks of the servers, and which answers it accepts.
use crate::bytes;
use crate::documents::{self, all_byte_documents, byte_document};
use crate::ieee::{self, real_eq};
use crate::json::{self, copied, held_items, held_member, text_is, Json, Tree};
use crate::production::{self, Signal, ORDINALS_PER_SECOND};
use crate::text::{self, parse_u64, push_decimal, push_hex, same_text};
use vstd::prelude::*;
use vstd::string::*;

verus! {

/// The second of the newest record.
pub open spec fn newest_second(base: nat, next_ordinal: nat) -> nat {
    base + (if next_ordinal == 0 {
        0
    } else {
        (next_ordinal - 1) as nat
    }) / 256
}

/// The start of a window that ends at the newest record.
pub open spec fn window_start(base: nat, newest: nat, seconds: nat) -> nat {
    if newest > base + seconds {
        (newest - seconds) as nat
    } else {
        base
    }
}

fn newest(base: u64, next_ordinal: u64) -> (second: u64)
    requires
        newest_second(base as nat, next_ordinal as nat) <= u64::MAX,
    ensures
        second == newest_second(base as nat, next_ordinal as nat),
        base <= second,
{
    let last: u64 = if next_ordinal == 0 {
        0
    } else {
        next_ordinal - 1
    };
    base + last / ORDINALS_PER_SECOND
}

fn start_of(base: u64, newest: u64, seconds: u64) -> (from: u64)
    requires
        base <= newest,
    ensures
        from == window_start(base as nat, newest as nat, seconds as nat),
{
    if newest - base > seconds {
        newest - seconds
    } else {
        base
    }
}

/// The path of a metrics query.
pub open spec fn metrics_path_of(shape: Seq<char>, base: nat, next_ordinal: nat) -> Option<Seq<char>> {
    let to = newest_second(base, next_ordinal);
    if shape == "exact_latest"@ {
        Some("/api/v1/query?metric=release_gate_metric&host=host-0"@)
    } else if shape == "narrow_range"@ {
        Some(
            "/api/v1/query_range?metric=release_gate_metric&host=host-0&from="@ + text::decimal(
                window_start(base, to, 300),
            ) + "&to="@ + text::decimal(to) + "&step=10&aggregate=avg"@,
        )
    } else if shape == "wide_range"@ {
        Some(
            "/api/v1/query_range?metric=release_gate_metric&from="@ + text::decimal(
                window_start(base, to, 60),
            ) + "&to="@ + text::decimal(to) + "&step=10&aggregate=avg"@,
        )
    } else if shape == "scalar_avg"@ {
        Some(
            "/api/v1/query_range?metric=release_gate_metric&host=host-1&from="@ + text::decimal(
                window_start(base, to, 300),
            ) + "&to="@ + text::decimal(to) + "&step=300&aggregate=avg"@,
        )
    } else if shape == "discovery"@ {
        Some("/api/v1/label/host/values?metric=release_gate_metric"@)
    } else {
        None
    }
}

/// An optional text by its characters.
pub open spec fn optional(t: Option<String>) -> Option<Seq<char>> {
    match t {
        Some(t) => Some(t@),
        None => None,
    }
}

fn range_path(head: &str, from: u64, to: u64, tail: &str) -> (path: String)
    ensures
        path@ == head@ + text::decimal(from as nat) + "&to="@ + text::decimal(to as nat) + tail@,
{
    let mut path = String::new();
    path.append(head);
    push_decimal(&mut path, from);
    path.append("&to=");
    push_decimal(&mut path, to);
    path.append(tail);
    assert(path@ =~= head@ + text::decimal(from as nat) + "&to="@ + text::decimal(to as nat)
        + tail@);
    path
}

/// The path of a metrics query, given how far the writer has come.
pub fn metrics_query(shape: &str, base: u64, next_ordinal: u64) -> (path: Option<String>)
    requires
        newest_second(base as nat, next_ordinal as nat) <= u64::MAX,
    ensures
        optional(path) == metrics_path_of(shape@, base as nat, next_ordinal as nat),
{
    let to: u64 = newest(base, next_ordinal);
    if same_text(shape, "exact_latest") {
        Some(copied("/api/v1/query?metric=release_gate_metric&host=host-0"))
    } else if same_text(shape, "narrow_range") {
        Some(
            range_path(
                "/api/v1/query_range?metric=release_gate_metric&host=host-0&from=",
                start_of(base, to, 300),
                to,
                "&step=10&aggregate=avg",
            ),
        )
    } else if same_text(shape, "wide_range") {
        Some(
            range_path(
                "/api/v1/query_range?metric=release_gate_metric&from=",
                start_of(base, to, 60),
                to,
                "&step=10&aggregate=avg",
            ),
        )
    } else if same_text(shape, "scalar_avg") {
        Some(
            range_path(
                "/api/v1/query_range?metric=release_gate_metric&host=host-1&from=",
                start_of(base, to, 300),
                to,
                "&step=300&aggregate=avg",
            ),
        )
    } else if same_text(shape, "discovery") {
        Some(copied("/api/v1/label/host/values?metric=release_gate_metric"))
    } else {
        None
    }
}

/// A request of a log query: its path, and its body where it is posted.
#[derive(Debug)]
pub struct LogRequest {
    pub path: String,
    pub body: Option<&'static str>,
}

/// The body of the posted log query.
pub const COUNT_BODY: &'static str = "query=level%3Aerror+%7C+stats+count%28*%29";

/// The path of a log query.
pub open spec fn logs_path_of(shape: Seq<char>, base: nat, next_ordinal: nat) -> Option<Seq<char>> {
    let to = newest_second(base, next_ordinal);
    if shape == "exact"@ {
        Some("/select/logsql/query?message=release-gate-0&limit=1&order=asc"@)
    } else if shape == "narrow"@ {
        Some("/select/logsql/query?level=error&service=release-gate&limit=100&order=desc"@)
    } else if shape == "wide"@ {
        Some(
            "/select/logsql/query?service=release-gate&limit=1000&order=desc&start="@
                + text::decimal(window_start(base, to, 4_000)) + "&end="@ + text::decimal(to),
        )
    } else if shape == "scalar_count"@ {
        Some("/select/logsql/query"@)
    } else if shape == "discovery"@ {
        Some("/select/logsql/field_values?field=host&service=release-gate&limit=10"@)
    } else {
        None
    }
}

/// The request of a log query. Only the count is posted.
pub fn logs_query(shape: &str, base: u64, next_ordinal: u64) -> (request: Option<LogRequest>)
    requires
        newest_second(base as nat, next_ordinal as nat) <= u64::MAX,
    ensures
        match request {
            Some(r) => logs_path_of(shape@, base as nat, next_ordinal as nat) == Some(r.path@)
                && r.body == (if shape@ == "scalar_count"@ {
                Some(COUNT_BODY)
            } else {
                None
            }),
            None => logs_path_of(shape@, base as nat, next_ordinal as nat) is None,
        },
{
    let to: u64 = newest(base, next_ordinal);
    let posted: Option<&'static str> = if same_text(shape, "scalar_count") {
        Some(COUNT_BODY)
    } else {
        None
    };
    let path = if same_text(shape, "exact") {
        copied("/select/logsql/query?message=release-gate-0&limit=1&order=asc")
    } else if same_text(shape, "narrow") {
        copied("/select/logsql/query?level=error&service=release-gate&limit=100&order=desc")
    } else if same_text(shape, "wide") {
        let mut path = String::new();
        path.append("/select/logsql/query?service=release-gate&limit=1000&order=desc&start=");
        push_decimal(&mut path, start_of(base, to, 4_000));
        path.append("&end=");
        push_decimal(&mut path, to);
        assert(Some(path@) =~= logs_path_of("wide"@, base as nat, next_ordinal as nat));
        path
    } else if same_text(shape, "scalar_count") {
        copied("/select/logsql/query")
    } else if same_text(shape, "discovery") {
        copied("/select/logsql/field_values?field=host&service=release-gate&limit=10")
    } else {
        return None;
    };
    Some(LogRequest { path, body: posted })
}

/// The path of the first trace.
pub open spec fn first_trace_path() -> Seq<char> {
    "/select/jaeger/api/traces/"@ + text::hexadecimal(1, 32)
}

/// The path of a trace query.
pub open spec fn traces_path_of(shape: Seq<char>) -> Option<Seq<char>> {
    if shape == "exact_trace"@ {
        Some(first_trace_path())
    } else if shape == "narrow_search"@ {
        Some(
            "/select/jaeger/api/traces?service=release-gate&operation=GET%20%2Frelease-gate&limit=20"@,
        )
    } else if shape == "wide_search"@ {
        Some("/select/jaeger/api/traces?service=release-gate&limit=100"@)
    } else if shape == "operations"@ {
        Some("/select/jaeger/api/services/release-gate/operations"@)
    } else if shape == "services"@ {
        Some("/select/jaeger/api/services"@)
    } else {
        None
    }
}

fn first_trace() -> (path: String)
    ensures
        path@ == first_trace_path(),
{
    let mut path = String::new();
    path.append("/select/jaeger/api/traces/");
    push_hex(&mut path, 1, 32);
    assert(path@ =~= first_trace_path());
    path
}

/// The path of a trace query.
pub fn traces_query(shape: &str) -> (path: Option<String>)
    ensures
        optional(path) == traces_path_of(shape@),
{
    if same_text(shape, "exact_trace") {
        Some(first_trace())
    } else if same_text(shape, "narrow_search") {
        Some(
            copied(
                "/select/jaeger/api/traces?service=release-gate&operation=GET%20%2Frelease-gate&limit=20",
            ),
        )
    } else if same_text(shape, "wide_search") {
        Some(copied("/select/jaeger/api/traces?service=release-gate&limit=100"))
    } else if same_text(shape, "operations") {
        Some(copied("/select/jaeger/api/services/release-gate/operations"))
    } else if same_text(shape, "services") {
        Some(copied("/select/jaeger/api/services"))
    } else {
        None
    }
}

/// Every query that is asked in turn has a request.
pub proof fn every_shape_has_a_request(i: int, base: nat, next_ordinal: nat)
    requires
        0 <= i < 5,
    ensures
        metrics_path_of(Signal::Metrics.shapes()[i]@, base, next_ordinal) is Some,
        logs_path_of(Signal::Logs.shapes()[i]@, base, next_ordinal) is Some,
        traces_path_of(Signal::Traces.shapes()[i]@) is Some,
{
    let m = Signal::Metrics.shapes();
    let l = Signal::Logs.shapes();
    let t = Signal::Traces.shapes();
    if i == 0 {
        assert(m[0]@ == "exact_latest"@ && l[0]@ == "exact"@ && t[0]@ == "exact_trace"@);
    } else if i == 1 {
        assert(m[1]@ == "narrow_range"@ && l[1]@ == "narrow"@ && t[1]@ == "narrow_search"@);
    } else if i == 2 {
        assert(m[2]@ == "wide_range"@ && l[2]@ == "wide"@ && t[2]@ == "wide_search"@);
    } else if i == 3 {
        assert(m[3]@ == "scalar_avg"@ && l[3]@ == "scalar_count"@ && t[3]@ == "operations"@);
    } else {
        assert(m[4]@ == "discovery"@ && l[4]@ == "discovery"@ && t[4]@ == "services"@);
    }
}

/// Whether the answer of a trace query has data.
pub fn has_data(body: &Json) -> (yes: bool)
    ensures
        yes == (json::tree_member(json::tree(*body), "data"@) is Some),
{
    match held_member(body, "data") {
        Some(_) => true,
        None => false,
    }
}

/// The pieces of a body between line feeds that are not empty.
pub open spec fn pieces(body: Seq<u8>) -> Seq<Seq<u8>>
    decreases body.len(),
{
    if body.len() == 0 {
        Seq::empty()
    } else {
        let n = piece_length(body) as int;
        if n >= body.len() {
            seq![body]
        } else if n == 0 {
            pieces(body.skip(1))
        } else {
            seq![body.take(n)] + pieces(body.skip(n + 1))
        }
    }
}

/// How many bytes come before the first line feed.
pub open spec fn piece_length(body: Seq<u8>) -> nat
    decreases body.len(),
{
    if body.len() == 0 || body[0] == 10 {
        0
    } else {
        1 + piece_length(body.drop_first())
    }
}

proof fn piece_length_is(body: Seq<u8>, n: int)
    requires
        0 <= n <= body.len(),
        forall|i: int| 0 <= i < n ==> body[i] != 10,
        n < body.len() ==> body[n] == 10,
    ensures
        piece_length(body) == n,
    decreases body.len(),
{
    if n > 0 {
        assert forall|i: int| 0 <= i < n - 1 implies body.drop_first()[i] != 10 by {
            assert(body[i + 1] != 10);
        }
        piece_length_is(body.drop_first(), n - 1);
    }
}

fn cut(body: &[u8], from: usize, to: usize) -> (out: Vec<u8>)
    requires
        from <= to <= body@.len(),
    ensures
        out@ == body@.subrange(from as int, to as int),
{
    let mut out: Vec<u8> = Vec::new();
    let mut i: usize = from;
    while i < to
        invariant
            from <= i <= to <= body@.len(),
            out@ =~= body@.subrange(from as int, i as int),
        decreases to - i,
    {
        out.push(body[i]);
        i += 1;
    }
    out
}

fn filled_pieces(body: &[u8]) -> (rows: Vec<Vec<u8>>)
    ensures
        bytes::byte_strings(rows@) == pieces(body@),
{
    let mut rows: Vec<Vec<u8>> = Vec::new();
    let mut start: usize = 0;
    assert(body@.skip(0) =~= body@);
    assert(bytes::byte_strings(rows@) + pieces(body@.skip(0)) =~= pieces(body@));
    while start < body.len()
        invariant
            start <= body@.len(),
            bytes::byte_strings(rows@) + pieces(body@.skip(start as int)) == pieces(body@),
        decreases body.len() - start,
    {
        let ghost rest = body@.skip(start as int);
        let ghost before = bytes::byte_strings(rows@);
        let mut end: usize = start;
        while end < body.len() && body[end] != 10
            invariant
                start <= end <= body@.len(),
                forall|i: int| start <= i < end ==> body@[i] != 10,
            decreases body.len() - end,
        {
            end += 1;
        }
        proof {
            piece_length_is(rest, end - start);
        }
        if end == body.len() {
            rows.push(cut(body, start, end));
            assert(body@.subrange(start as int, end as int) =~= rest);
            assert(bytes::byte_strings(rows@) =~= before.push(rest));
            assert(bytes::byte_strings(rows@) =~= pieces(body@));
            return rows;
        }
        if end > start {
            let row = cut(body, start, end);
            assert(row@ =~= rest.take(end - start));
            rows.push(row);
            assert(bytes::byte_strings(rows@) =~= before.push(rest.take(end - start)));
        }
        assert(rest.skip(end - start + 1) =~= body@.skip(end + 1));
        assert(bytes::byte_strings(rows@) + pieces(body@.skip(end + 1)) =~= before + pieces(rest));
        start = end + 1;
    }
    assert(bytes::byte_strings(rows@) =~= pieces(body@));
    rows
}

/// Why the rows of an answer are refused.
#[derive(Clone, Copy, Debug, PartialEq, Eq, Structural)]
pub enum RowsFault {
    /// The answer, or a line of it, is no document.
    Partial,
    /// The answer has no data.
    Shape,
    /// The declared number of rows is no number.
    Unreadable,
    /// This number of rows is declared, and another one came.
    Declared(u64, u64),
}

/// What a body with one document on each line holds. Nothing where a line is none.
pub open spec fn rows_of(body: Seq<u8>) -> Option<Seq<Tree>> {
    documents::byte_trees(pieces(body))
}

/// The rows of a body with one document on each line.
pub fn decode_ndjson(body: &[u8]) -> (rows: Result<Vec<Json>, RowsFault>)
    ensures
        match rows {
            Ok(list) => rows_of(body@) == Some(json::trees(list@)),
            Err(e) => rows_of(body@) is None && e == RowsFault::Partial,
        },
{
    let lines = filled_pieces(body);
    match all_byte_documents(&lines) {
        Some(list) => Ok(list),
        None => Err(RowsFault::Partial),
    }
}

/// What is wrong with a number of decoded rows, if anything: where a number of rows
/// is declared, it is that number.
pub open spec fn count_fault(declared: Option<&str>, decoded: nat) -> Option<RowsFault> {
    match declared {
        None => None,
        Some(header) => match text::unsigned_value(header@) {
            None => Some(RowsFault::Unreadable),
            Some(n) => if n != decoded {
                Some(RowsFault::Declared(n as u64, decoded as u64))
            } else {
                None
            },
        },
    }
}

fn counted(declared: Option<&str>, decoded: usize) -> (fault: Option<RowsFault>)
    ensures
        fault == count_fault(declared, decoded as nat),
{
    match declared {
        None => None,
        Some(header) => match parse_u64(header) {
            None => Some(RowsFault::Unreadable),
            Some(n) => if n != decoded as u64 {
                Some(RowsFault::Declared(n, decoded as u64))
            } else {
                None
            },
        },
    }
}

/// The rows of a body with one document on each line, as many as are declared.
pub fn validate_ndjson(body: &[u8], declared: Option<&str>) -> (rows: Result<Vec<Json>, RowsFault>)
    ensures
        match rows_of(body@) {
            None => rows == Err::<Vec<Json>, RowsFault>(RowsFault::Partial),
            Some(held) => match count_fault(declared, held.len()) {
                Some(e) => rows == Err::<Vec<Json>, RowsFault>(e),
                None => rows matches Ok(list) && json::trees(list@) == held,
            },
        },
{
    let list = match decode_ndjson(body) {
        Ok(list) => list,
        Err(e) => return Err(e),
    };
    assert(json::trees(list@).len() == list@.len());
    match counted(declared, list.len()) {
        Some(e) => Err(e),
        None => Ok(list),
    }
}

/// The number of rows that an answer declares; zero where it declares none.
pub open spec fn declared_rows(declared: Option<&str>) -> Result<u64, RowsFault> {
    match declared {
        None => Ok(0),
        Some(header) => match text::unsigned_value(header@) {
            None => Err(RowsFault::Unreadable),
            Some(n) => Ok(n as u64),
        },
    }
}

/// The number of rows that an answer declares; zero where it declares none.
pub fn result_rows(declared: Option<&str>) -> (rows: Result<u64, RowsFault>)
    ensures
        rows == declared_rows(declared),
{
    match declared {
        None => Ok(0),
        Some(header) => match parse_u64(header) {
            None => Err(RowsFault::Unreadable),
            Some(n) => Ok(n),
        },
    }
}

/// How the rows of an answer are counted.
#[derive(Clone, Copy, Debug, PartialEq, Eq, Structural)]
pub enum Count {
    /// One document; the number is the declared one.
    Whole,
    /// One document with data; the number is the declared one.
    Data,
    /// A document on each line; they are as many as are declared.
    Lines,
}

/// How the rows of the answer to a query are counted: those of the logs by lines,
/// except those of a discovery.
pub open spec fn count_of(signal: Signal, shape: Seq<char>) -> Count {
    match signal {
        Signal::Metrics => Count::Whole,
        Signal::Logs => if shape == "discovery"@ {
            Count::Whole
        } else {
            Count::Lines
        },
        Signal::Traces => Count::Data,
    }
}

/// How the rows of the answer to a query are counted.
pub fn row_count(signal: Signal, shape: &str) -> (count: Count)
    ensures
        count == count_of(signal, shape@),
{
    match signal {
        Signal::Metrics => Count::Whole,
        Signal::Logs => if same_text(shape, "discovery") {
            Count::Whole
        } else {
            Count::Lines
        },
        Signal::Traces => Count::Data,
    }
}

/// The number of rows of an answer.
pub open spec fn rows_counted(count: Count, body: Seq<u8>, declared: Option<&str>) -> Result<
    u64,
    RowsFault,
> {
    match count {
        Count::Whole => match documents::byte_tree(body) {
            None => Err(RowsFault::Partial),
            Some(_) => declared_rows(declared),
        },
        Count::Data => match documents::byte_tree(body) {
            None => Err(RowsFault::Partial),
            Some(held) => if json::tree_member(held, "data"@) is None {
                Err(RowsFault::Shape)
            } else {
                declared_rows(declared)
            },
        },
        Count::Lines => match rows_of(body) {
            None => Err(RowsFault::Partial),
            Some(held) => match count_fault(declared, held.len()) {
                Some(e) => Err(e),
                None => Ok(held.len() as u64),
            },
        },
    }
}

/// The number of rows in the answer to a query.
pub fn answer_rows(signal: Signal, shape: &str, body: &[u8], declared: Option<&str>) -> (rows: Result<
    u64,
    RowsFault,
>)
    ensures
        rows == rows_counted(count_of(signal, shape@), body@, declared),
{
    match row_count(signal, shape) {
        Count::Whole => match byte_document(body) {
            None => Err(RowsFault::Partial),
            Some(_) => result_rows(declared),
        },
        Count::Data => match byte_document(body) {
            None => Err(RowsFault::Partial),
            Some(value) => if has_data(&value) {
                result_rows(declared)
            } else {
                Err(RowsFault::Shape)
            },
        },
        Count::Lines => match validate_ndjson(body, declared) {
            Err(e) => Err(e),
            Ok(list) => {
                assert(json::trees(list@).len() == list@.len());
                Ok(list.len() as u64)
            },
        },
    }
}

/// The statistics that a server answers with: an object.
pub fn read_stats(body: &[u8]) -> (stats: Result<Json, RowsFault>)
    ensures
        match documents::byte_tree(body@) {
            None => stats == Err::<Json, RowsFault>(RowsFault::Partial),
            Some(held) => if held is Object {
                stats matches Ok(value) && json::tree(value) == held
            } else {
                stats == Err::<Json, RowsFault>(RowsFault::Shape)
            },
        },
{
    match byte_document(body) {
        None => Err(RowsFault::Partial),
        Some(value) => match value {
            Json::Object(_) => Ok(value),
            _ => Err(RowsFault::Shape),
        },
    }
}

/// The path by which the first record of a signal is read back.
pub open spec fn sentinel_path_of(signal: Signal, base: nat) -> Seq<char> {
    match signal {
        Signal::Metrics => "/api/v1/export?metric=release_gate_metric&host=host-0&from="@
            + text::decimal(base) + "&to="@ + text::decimal(base) + ""@,
        Signal::Logs => "/select/logsql/query?message=release-gate-0&limit=2&order=asc"@,
        Signal::Traces => first_trace_path(),
    }
}

/// The path by which the first record of a signal is read back.
pub fn sentinel_path(signal: Signal, base: u64) -> (path: String)
    ensures
        path@ == sentinel_path_of(signal, base as nat),
{
    match signal {
        Signal::Metrics => range_path(
            "/api/v1/export?metric=release_gate_metric&host=host-0&from=",
            base,
            base,
            "",
        ),
        Signal::Logs => copied("/select/logsql/query?message=release-gate-0&limit=2&order=asc"),
        Signal::Traces => first_trace(),
    }
}

/// One half as a float.
pub const HALF: u64 = 0x3fe0_0000_0000_0000;

/// The array under a key.
pub open spec fn array_at(row: Tree, key: Seq<char>) -> Option<Seq<Tree>> {
    match json::tree_member(row, key) {
        Some(v) => json::tree_items(v),
        None => None,
    }
}

fn find_array<'a>(row: &'a Json, key: &str) -> (list: Option<&'a Vec<Json>>)
    ensures
        array_at(json::tree(*row), key@) == (match list {
            Some(l) => Some(json::trees(l@)),
            None => None,
        }),
        list matches Some(l) ==> json::trees(l@).len() == l@.len(),
{
    match held_member(row, key) {
        Some(v) => held_items(v),
        None => None,
    }
}

/// The value is one half.
pub open spec fn is_half(value: Tree) -> bool {
    value matches Tree::Float(bits, _) && ieee::equal_reals(bits, HALF)
}

/// The list holds one half.
pub open spec fn holds_half(list: Seq<Tree>) -> bool {
    exists|i: int| 0 <= i < list.len() && is_half(#[trigger] list[i])
}

fn has_half(list: &Vec<Json>) -> (yes: bool)
    ensures
        yes == holds_half(json::trees(list@)),
{
    let ghost held = json::trees(list@);
    assert(held.len() == list@.len());
    let mut i: usize = 0;
    while i < list.len()
        invariant
            i <= list@.len(),
            held == json::trees(list@),
            held.len() == list@.len(),
            forall|j: int| 0 <= j < i ==> !is_half(#[trigger] held[j]),
        decreases list.len() - i,
    {
        assert(held[i as int] == json::tree(list@[i as int]));
        if let Json::Float(bits, _) = &list[i] {
            if real_eq(*bits, HALF) {
                assert(is_half(held[i as int]));
                return true;
            }
        }
        i += 1;
    }
    false
}

fn has_number(list: &Vec<Json>, n: u64) -> (yes: bool)
    ensures
        yes == json::trees(list@).contains(Tree::Unsigned(n)),
{
    let ghost held = json::trees(list@);
    assert(held.len() == list@.len());
    let mut i: usize = 0;
    while i < list.len()
        invariant
            i <= list@.len(),
            held == json::trees(list@),
            held.len() == list@.len(),
            forall|j: int| 0 <= j < i ==> #[trigger] held[j] != Tree::Unsigned(n),
        decreases list.len() - i,
    {
        assert(held[i as int] == json::tree(list@[i as int]));
        if let Json::Unsigned(m) = &list[i] {
            if *m == n {
                assert(held.contains(Tree::Unsigned(n)));
                return true;
            }
        }
        i += 1;
    }
    false
}

/// The exported rows are one series with the first point of the fixture.
pub open spec fn metrics_sentinel(rows: Seq<Tree>, base: nat) -> bool {
    &&& rows.len() == 1
    &&& array_at(rows[0], "values"@) matches Some(values) && array_at(
        rows[0],
        "timestamps"@,
    ) matches Some(times) && holds_half(values) && times.contains(
        Tree::Unsigned((base * 1_000) as u64),
    ) && values.len() == times.len()
}

/// The rows are the first entry of the fixture alone, with its number and its
/// nested object.
pub open spec fn logs_sentinel(rows: Seq<Tree>) -> bool {
    &&& rows.len() == 1
    &&& json::tree_member(rows[0], "_msg"@) == Some(Tree::Text("release-gate-0"@))
    &&& json::tree_member(rows[0], "attempt"@) == Some(Tree::Unsigned(0))
    &&& json::tree_member(rows[0], "nested"@) == Some(
        Tree::Object(seq![("worker"@, Tree::Unsigned(0))]),
    )
}

/// Whether the exported rows are one series with the first point.
pub fn accepts_metrics_sentinel(rows: &Vec<Json>, base: u64) -> (yes: bool)
    requires
        base * 1_000 <= u64::MAX,
    ensures
        yes == metrics_sentinel(json::trees(rows@), base as nat),
{
    assert(json::trees(rows@).len() == rows@.len());
    if rows.len() != 1 {
        return false;
    }
    assert(json::trees(rows@)[0] == json::tree(rows@[0]));
    match (find_array(&rows[0], "values"), find_array(&rows[0], "timestamps")) {
        (Some(values), Some(times)) => has_half(values) && has_number(times, base * 1_000)
            && values.len() == times.len(),
        _ => false,
    }
}

fn is_first_worker(value: &Json) -> (yes: bool)
    ensures
        yes == (json::tree(*value) == Tree::Object(seq![("worker"@, Tree::Unsigned(0))])),
{
    match value {
        Json::Object(m) => {
            proof {
                json::object_tree(*m);
                let held = json::member_trees(m@);
                assert(held.len() == m@.len());
                if held.len() == 1 {
                    assert(held[0] == (m@[0].0@, json::tree(m@[0].1)));
                    assert(held =~= seq![held[0]]);
                }
                let own = seq![("worker"@, Tree::Unsigned(0))];
                assert(own.len() == 1 && own[0] == ("worker"@, Tree::Unsigned(0)));
            }
            m.len() == 1 && same_text(&m[0].0, "worker") && (match &m[0].1 {
                Json::Unsigned(n) => *n == 0,
                _ => false,
            })
        },
        _ => false,
    }
}

/// Whether the rows are the first entry alone.
pub fn accepts_logs_sentinel(rows: &Vec<Json>) -> (yes: bool)
    ensures
        yes == logs_sentinel(json::trees(rows@)),
{
    assert(json::trees(rows@).len() == rows@.len());
    if rows.len() != 1 {
        return false;
    }
    assert(json::trees(rows@)[0] == json::tree(rows@[0]));
    let message = match held_member(&rows[0], "_msg") {
        Some(v) => text_is(v, "release-gate-0"),
        None => false,
    };
    let attempt = match held_member(&rows[0], "attempt") {
        Some(Json::Unsigned(n)) => *n == 0,
        _ => false,
    };
    let nested = match held_member(&rows[0], "nested") {
        Some(v) => is_first_worker(v),
        None => false,
    };
    message && attempt && nested
}

/// The span has no reference to another.
pub open spec fn is_root(span: Tree) -> bool {
    match array_at(span, "references"@) {
        Some(list) => list.len() == 0,
        None => true,
    }
}

/// The spans without a reference.
pub open spec fn root_count(spans: Seq<Tree>) -> nat
    decreases spans.len(),
{
    if spans.len() == 0 {
        0
    } else {
        root_count(spans.drop_last()) + (if is_root(spans.last()) {
            1nat
        } else {
            0nat
        })
    }
}

fn roots(spans: &Vec<Json>) -> (n: usize)
    ensures
        n == root_count(json::trees(spans@)),
{
    let ghost held = json::trees(spans@);
    assert(held.len() == spans@.len());
    let mut n: usize = 0;
    let mut i: usize = 0;
    while i < spans.len()
        invariant
            i <= spans@.len(),
            held == json::trees(spans@),
            held.len() == spans@.len(),
            n <= i,
            n == root_count(held.take(i as int)),
        decreases spans.len() - i,
    {
        assert(held.take(i + 1).drop_last() =~= held.take(i as int));
        assert(held.take(i + 1).last() == json::tree(spans@[i as int]));
        let root = match find_array(&spans[i], "references") {
            Some(list) => list.len() == 0,
            None => true,
        };
        if root {
            n += 1;
        }
        i += 1;
    }
    assert(held.take(i as int) =~= held);
    n
}

/// Why the first trace is refused.
#[derive(Clone, Copy, Debug, PartialEq, Eq, Structural)]
pub enum TraceFault {
    NoData,
    NoSpans,
    Changed,
}

/// What is wrong with the first trace, if anything: it is one trace of four
/// spans, one of which is the root.
pub open spec fn trace_fault(body: Tree) -> Option<TraceFault> {
    match array_at(body, "data"@) {
        None => Some(TraceFault::NoData),
        Some(traces) => if traces.len() == 0 {
            Some(TraceFault::NoSpans)
        } else {
            match array_at(traces[0], "spans"@) {
                None => Some(TraceFault::NoSpans),
                Some(spans) => if traces.len() == 1 && spans.len() == 4 && root_count(spans) == 1 {
                    None
                } else {
                    Some(TraceFault::Changed)
                },
            }
        },
    }
}

/// Checks the first trace.
pub fn check_trace_sentinel(body: &Json) -> (fault: Option<TraceFault>)
    ensures
        fault == trace_fault(json::tree(*body)),
{
    let traces = match find_array(body, "data") {
        None => return Some(TraceFault::NoData),
        Some(t) => t,
    };
    if traces.len() == 0 {
        return Some(TraceFault::NoSpans);
    }
    assert(json::trees(traces@)[0] == json::tree(traces@[0]));
    let spans = match find_array(&traces[0], "spans") {
        None => return Some(TraceFault::NoSpans),
        Some(s) => s,
    };
    if traces.len() == 1 && spans.len() == 4 && roots(spans) == 1 {
        None
    } else {
        Some(TraceFault::Changed)
    }
}

/// Why the first record of a signal is refused.
#[derive(Clone, Copy, Debug, PartialEq, Eq, Structural)]
pub enum SentinelFault {
    /// The answer cannot be read, or has another number of rows.
    Rows(RowsFault),
    /// The record changed.
    Changed,
    /// The trace changed.
    Trace(TraceFault),
}

/// What is wrong with the answer by which the first record of a signal is read back,
/// if anything. A line of exported metrics is a series, so that a declared number of
/// points does not count the lines.
pub open spec fn sentinel_fault(
    signal: Signal,
    base: nat,
    body: Seq<u8>,
    declared: Option<&str>,
) -> Option<SentinelFault> {
    match signal {
        Signal::Metrics => match rows_of(body) {
            None => Some(SentinelFault::Rows(RowsFault::Partial)),
            Some(rows) => if metrics_sentinel(rows, base) {
                None
            } else {
                Some(SentinelFault::Changed)
            },
        },
        Signal::Logs => match rows_of(body) {
            None => Some(SentinelFault::Rows(RowsFault::Partial)),
            Some(rows) => match count_fault(declared, rows.len()) {
                Some(e) => Some(SentinelFault::Rows(e)),
                None => if logs_sentinel(rows) {
                    None
                } else {
                    Some(SentinelFault::Changed)
                },
            },
        },
        Signal::Traces => match documents::byte_tree(body) {
            None => Some(SentinelFault::Rows(RowsFault::Partial)),
            Some(held) => match trace_fault(held) {
                Some(e) => Some(SentinelFault::Trace(e)),
                None => None,
            },
        },
    }
}

/// Checks the answer by which the first record of a signal is read back.
pub fn semantic_oracle(signal: Signal, base: u64, body: &[u8], declared: Option<&str>) -> (fault: Option<
    SentinelFault,
>)
    requires
        base * 1_000 <= u64::MAX,
    ensures
        fault == sentinel_fault(signal, base as nat, body@, declared),
{
    match signal {
        Signal::Metrics => match decode_ndjson(body) {
            Err(e) => Some(SentinelFault::Rows(e)),
            Ok(list) => if accepts_metrics_sentinel(&list, base) {
                None
            } else {
                Some(SentinelFault::Changed)
            },
        },
        Signal::Logs => match validate_ndjson(body, declared) {
            Err(e) => Some(SentinelFault::Rows(e)),
            Ok(list) => if accepts_logs_sentinel(&list) {
                None
            } else {
                Some(SentinelFault::Changed)
            },
        },
        Signal::Traces => match byte_document(body) {
            None => Some(SentinelFault::Rows(RowsFault::Partial)),
            Some(found) => match check_trace_sentinel(&found) {
                Some(e) => Some(SentinelFault::Trace(e)),
                None => None,
            },
        },
    }
}

} // verus!
