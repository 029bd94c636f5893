//! The batches that the production gate writes.
use crate::moments::{self, half_more};
use crate::production::{self, Signal, ORDINALS_PER_SECOND};
use crate::text::{self, push_char, push_decimal, push_hex};
use vstd::prelude::*;
use vstd::string::*;

verus! {

/// The numbers of a point stay in 64 bits.
pub open spec fn point_fits(base: u64, ordinal: int) -> bool {
    ordinal * 1_000 <= u64::MAX && base * 1_000 + ordinal * 1_000 / 256 <= u64::MAX
}

/// The numbers of a log entry stay in 64 bits.
pub open spec fn entry_fits(base: u64, ordinal: int) -> bool {
    base + ordinal / 256 <= u64::MAX
}

/// The numbers of a span stay in 64 bits.
pub open spec fn span_fits(base: u64, ordinal: int) -> bool {
    ordinal * 1_000_000_000 <= u64::MAX && base * 1_000_000_000 + ordinal * 1_000_000_000 / 256
        + 500_000 + ordinal % 17 <= u64::MAX
}

/// The numbers of a record stay in 64 bits.
pub open spec fn record_fits(signal: Signal, base: u64, ordinal: int) -> bool {
    match signal {
        Signal::Metrics => point_fits(base, ordinal),
        Signal::Logs => entry_fits(base, ordinal),
        Signal::Traces => span_fits(base, ordinal),
    }
}

/// The numbers of a batch stay in 64 bits: those of its last record do.
pub open spec fn batch_fits(signal: Signal, base: u64, start: u64, count: usize) -> bool {
    start + count <= u64::MAX && (count > 0 ==> record_fits(signal, base, start + count - 1))
}

/// In a batch that fits every record fits.
pub proof fn records_fit(signal: Signal, base: u64, start: u64, count: usize, ordinal: int)
    requires
        batch_fits(signal, base, start, count),
        start <= ordinal < start + count,
    ensures
        record_fits(signal, base, ordinal),
{
}

/// Whether the numbers of a batch stay in 64 bits.
pub fn fits(signal: Signal, base: u64, start: u64, count: usize) -> (yes: bool)
    ensures
        yes == batch_fits(signal, base, start, count),
{
    let end: u128 = start as u128 + count as u128;
    if end > 0xffff_ffff_ffff_ffff {
        return false;
    }
    if count == 0 {
        return true;
    }
    let last: u128 = end - 1;
    let base: u128 = base as u128;
    let most: u128 = 0xffff_ffff_ffff_ffff;
    match signal {
        Signal::Metrics => last * 1_000 <= most && base * 1_000 + last * 1_000 / 256 <= most,
        Signal::Logs => base + last / 256 <= most,
        Signal::Traces => last * 1_000_000_000 <= most && base * 1_000_000_000 + last
            * 1_000_000_000 / 256 + 500_000 + last % 17 <= most,
    }
}

/// The time of a point in milliseconds.
pub open spec fn point_time(base: nat, ordinal: nat) -> nat {
    base * 1_000 + ordinal * 1_000 / 256
}

/// Adds an item to a list in print.
pub open spec fn with_item(list: Seq<char>, item: Seq<char>) -> Seq<char> {
    if list.len() == 0 {
        item
    } else {
        list.push(',') + item
    }
}

/// The times of the points of a host among the first `n` ordinals, in print.
pub open spec fn times_of_host(base: nat, start: nat, n: nat, host: nat) -> Seq<char>
    decreases n,
{
    if n == 0 {
        Seq::empty()
    } else {
        let before = times_of_host(base, start, (n - 1) as nat, host);
        let ordinal = (start + n - 1) as nat;
        if ordinal % 4 == host {
            with_item(before, text::decimal(point_time(base, ordinal)))
        } else {
            before
        }
    }
}

/// The values of the points of a host among the first `n` ordinals, in print:
/// the float of each ordinal and one half.
pub open spec fn values_of_host(start: nat, n: nat, host: nat) -> Seq<char>
    decreases n,
{
    if n == 0 {
        Seq::empty()
    } else {
        let before = values_of_host(start, (n - 1) as nat, host);
        let ordinal = (start + n - 1) as nat;
        if ordinal % 4 == host {
            with_item(before, moments::half_more_text(ordinal))
        } else {
            before
        }
    }
}

/// The line of a host; nothing where it has no point.
pub open spec fn host_line(base: nat, start: nat, n: nat, host: nat) -> Seq<char> {
    if values_of_host(start, n, host).len() == 0 {
        Seq::empty()
    } else {
        r#"{"metric":{"__name__":"release_gate_metric","host":"host-"#@ + text::decimal(host)
            + r#""},"timestamps":["#@ + times_of_host(base, start, n, host) + r#"],"values":["#@
            + values_of_host(start, n, host) + "]}"@ + seq!['\n']
    }
}

/// A batch of points: a line for each of four hosts.
pub open spec fn metrics_text(base: nat, start: nat, n: nat) -> Seq<char> {
    host_line(base, start, n, 0) + host_line(base, start, n, 1) + host_line(base, start, n, 2)
        + host_line(base, start, n, 3)
}

fn push_item(out: &mut String, first: bool, item: &str)
    requires
        first == (old(out)@.len() == 0),
    ensures
        final(out)@ == with_item(old(out)@, item@),
{
    if !first {
        push_char(out, ',');
    }
    out.append(item);
    assert(out@ =~= with_item(old(out)@, item@));
}

proof fn decimals_are_not_empty(n: nat)
    ensures
        text::decimal(n).len() >= 1,
{
}

fn push_host(out: &mut String, base: u64, start: u64, count: usize, host: u64)
    requires
        batch_fits(Signal::Metrics, base, start, count),
        host < 4,
    ensures
        final(out)@ == old(out)@ + host_line(
            base as nat,
            start as nat,
            count as nat,
            host as nat,
        ),
{
    let mut times = String::new();
    let mut values = String::new();
    let mut found: bool = false;
    let mut i: u64 = 0;
    assert(times@ =~= times_of_host(base as nat, start as nat, 0, host as nat));
    assert(values@ =~= values_of_host(start as nat, 0, host as nat));
    while i < count as u64
        invariant
            i <= count,
            batch_fits(Signal::Metrics, base, start, count),
            times@ == times_of_host(base as nat, start as nat, i as nat, host as nat),
            values@ == values_of_host(start as nat, i as nat, host as nat),
            found == (values@.len() > 0),
            found == (times@.len() > 0),
        decreases count - i,
    {
        let ordinal: u64 = start + i;
        proof {
            records_fit(Signal::Metrics, base, start, count, ordinal as int);
        }
        if ordinal % 4 == host {
            let mut time = String::new();
            push_decimal(&mut time, base * 1_000 + ordinal * 1_000 / ORDINALS_PER_SECOND);
            assert(time@ =~= text::decimal(point_time(base as nat, ordinal as nat)));
            let value = half_more(ordinal);
            proof {
                decimals_are_not_empty(point_time(base as nat, ordinal as nat));
            }
            push_item(&mut times, !found, &time);
            push_item(&mut values, !found, &value);
            found = true;
        }
        i += 1;
    }
    if found {
        out.append(r#"{"metric":{"__name__":"release_gate_metric","host":"host-"#);
        push_decimal(out, host);
        out.append(r#""},"timestamps":["#);
        out.append(&times);
        out.append(r#"],"values":["#);
        out.append(&values);
        out.append("]}");
        push_char(out, '\n');
    }
    assert(out@ =~= old(out)@ + host_line(
        base as nat,
        start as nat,
        count as nat,
        host as nat,
    ));
}

/// A batch of points.
pub fn metrics_body(base: u64, start: u64, count: usize) -> (body: String)
    requires
        batch_fits(Signal::Metrics, base, start, count),
    ensures
        body@ == metrics_text(base as nat, start as nat, count as nat),
{
    let mut body = String::new();
    push_host(&mut body, base, start, count, 0);
    push_host(&mut body, base, start, count, 1);
    push_host(&mut body, base, start, count, 2);
    push_host(&mut body, base, start, count, 3);
    assert(body@ =~= metrics_text(base as nat, start as nat, count as nat));
    body
}

/// The level of a log entry.
pub open spec fn level_of(ordinal: nat) -> Seq<char> {
    if ordinal % 4 == 0 {
        "debug"@
    } else if ordinal % 4 == 1 {
        "info"@
    } else if ordinal % 4 == 2 {
        "warning"@
    } else {
        "error"@
    }
}

/// A log entry as a line.
pub open spec fn log_line(base: nat, ordinal: nat) -> Seq<char> {
    r#"{"_msg":"release-gate-"#@ + text::decimal(ordinal) + r#"","_time":"#@ + text::decimal(
        base + ordinal / 256,
    ) + r#","attempt":"#@ + text::decimal(ordinal) + r#","host":"host-"#@ + text::decimal(
        ordinal % 4,
    ) + r#"","level":""#@ + level_of(ordinal) + r#"","nested":{"worker":"#@ + text::decimal(
        ordinal % 8,
    ) + r#"},"sampled":"#@ + (if ordinal % 2 == 0 {
        "true"@
    } else {
        "false"@
    }) + r#","service":"release-gate","status":"#@ + (if ordinal % 4 == 3 {
        "500"@
    } else {
        "200"@
    }) + r#","tags":["soak","lane-"#@ + text::decimal(ordinal % 4) + r#""]}"#@ + seq!['\n']
}

/// A batch of `n` log entries.
pub open spec fn logs_text(base: nat, start: nat, n: nat) -> Seq<char>
    decreases n,
{
    if n == 0 {
        Seq::empty()
    } else {
        logs_text(base, start, (n - 1) as nat) + log_line(base, (start + n - 1) as nat)
    }
}

fn push_log(out: &mut String, base: u64, ordinal: u64)
    requires
        entry_fits(base, ordinal as int),
    ensures
        final(out)@ == old(out)@ + log_line(base as nat, ordinal as nat),
{
    out.append(r#"{"_msg":"release-gate-"#);
    push_decimal(out, ordinal);
    out.append(r#"","_time":"#);
    push_decimal(out, base + ordinal / ORDINALS_PER_SECOND);
    out.append(r#","attempt":"#);
    push_decimal(out, ordinal);
    out.append(r#","host":"host-"#);
    push_decimal(out, ordinal % 4);
    out.append(r#"","level":""#);
    if ordinal % 4 == 0 {
        out.append("debug");
    } else if ordinal % 4 == 1 {
        out.append("info");
    } else if ordinal % 4 == 2 {
        out.append("warning");
    } else {
        out.append("error");
    }
    out.append(r#"","nested":{"worker":"#);
    push_decimal(out, ordinal % 8);
    out.append(r#"},"sampled":"#);
    if ordinal % 2 == 0 {
        out.append("true");
    } else {
        out.append("false");
    }
    out.append(r#","service":"release-gate","status":"#);
    if ordinal % 4 == 3 {
        out.append("500");
    } else {
        out.append("200");
    }
    out.append(r#","tags":["soak","lane-"#);
    push_decimal(out, ordinal % 4);
    out.append(r#""]}"#);
    push_char(out, '\n');
    assert(out@ =~= old(out)@ + log_line(base as nat, ordinal as nat));
}

/// A batch of log entries, one on each line.
pub fn logs_body(base: u64, start: u64, count: usize) -> (body: String)
    requires
        batch_fits(Signal::Logs, base, start, count),
    ensures
        body@ == logs_text(base as nat, start as nat, count as nat),
{
    let mut body = String::new();
    let mut i: u64 = 0;
    assert(body@ =~= logs_text(base as nat, start as nat, 0));
    while i < count as u64
        invariant
            i <= count,
            batch_fits(Signal::Logs, base, start, count),
            body@ == logs_text(base as nat, start as nat, i as nat),
        decreases count - i,
    {
        proof {
            records_fit(Signal::Logs, base, start, count, start + i);
        }
        push_log(&mut body, base, start + i);
        i += 1;
    }
    body
}

/// The start of a span in nanoseconds.
pub open spec fn span_start(base: nat, ordinal: nat) -> nat {
    base * 1_000_000_000 + ordinal * 1_000_000_000 / 256
}

/// The first part of a span in print: its attributes.
pub open spec fn span_attributes(ordinal: nat) -> Seq<char> {
    r#"{"attributes":[{"key":"gate.ordinal","value":{"intValue":""#@ + text::decimal(ordinal)
        + r#""}},{"key":"gate.bool","value":{"boolValue":"#@ + (if ordinal % 2 == 0 {
        "true"@
    } else {
        "false"@
    }) + r#"}},{"key":"http.method","value":{"stringValue":"GET"}}]"#@
}

/// The second part of a span in print: its end and its event.
pub open spec fn span_event(base: nat, ordinal: nat) -> Seq<char> {
    r#","endTimeUnixNano":""#@ + text::decimal(
        span_start(base, ordinal) + 500_000 + ordinal % 17,
    ) + r#"","events":[{"attributes":[{"key":"event.ordinal","value":{"intValue":""#@
        + text::decimal(ordinal) + r#""}}],"name":"gate.event","timeUnixNano":""#@
        + text::decimal(span_start(base, ordinal) + 100) + r#""}]"#@
}

/// The last part of a span in print: its place in the trace. The first of four
/// spans is the root.
pub open spec fn span_place(base: nat, ordinal: nat) -> Seq<char> {
    r#","kind":"#@ + (if ordinal % 4 == 0 {
        "2"@
    } else {
        "3"@
    }) + r#","links":[],"name":""#@ + (if ordinal % 4 == 0 {
        "GET /release-gate"@
    } else {
        "db.query"@
    }) + r#"","parentSpanId":""#@ + (if ordinal % 4 == 0 {
        Seq::empty()
    } else {
        text::hexadecimal(ordinal / 4 * 4 + 1, 16)
    }) + r#"","spanId":""#@ + text::hexadecimal(ordinal + 1, 16)
        + r#"","startTimeUnixNano":""#@ + text::decimal(span_start(base, ordinal))
        + r#"","status":{"code":"#@ + (if ordinal % 17 == 0 {
        "2"@
    } else {
        "1"@
    }) + r#","message":"gate"},"traceId":""#@ + text::hexadecimal(ordinal / 4 + 1, 32)
        + r#""}"#@
}

/// A span in print.
pub open spec fn span_text(base: nat, ordinal: nat) -> Seq<char> {
    span_attributes(ordinal) + span_event(base, ordinal) + span_place(base, ordinal)
}

/// The first `n` spans of a batch in print.
pub open spec fn spans_text(base: nat, start: nat, n: nat) -> Seq<char>
    decreases n,
{
    if n == 0 {
        Seq::empty()
    } else {
        with_item(
            spans_text(base, start, (n - 1) as nat),
            span_text(base, (start + n - 1) as nat),
        )
    }
}

/// What stands before the spans of a batch.
pub const TRACES_HEAD: &'static str =
    r#"{"resourceSpans":[{"resource":{"attributes":[{"key":"service.name","value":{"stringValue":"release-gate"}},{"key":"deployment.environment","value":{"stringValue":"soak"}}]},"scopeSpans":[{"scope":{"name":"production-gate","version":"1"},"spans":["#;

/// What stands behind the spans of a batch.
pub const TRACES_TAIL: &'static str = "]}]}]}";

/// A batch of `n` spans.
pub open spec fn traces_text(base: nat, start: nat, n: nat) -> Seq<char> {
    TRACES_HEAD@ + spans_text(base, start, n) + TRACES_TAIL@
}

fn push_flag(out: &mut String, yes: bool)
    ensures
        final(out)@ == old(out)@ + (if yes {
            "true"@
        } else {
            "false"@
        }),
{
    if yes {
        out.append("true");
    } else {
        out.append("false");
    }
}

fn attributes_of(ordinal: u64) -> (out: String)
    ensures
        out@ == span_attributes(ordinal as nat),
        out@.len() > 0,
{
    let mut out = String::new();
    out.append(r#"{"attributes":[{"key":"gate.ordinal","value":{"intValue":""#);
    push_decimal(&mut out, ordinal);
    proof {
        decimals_are_not_empty(ordinal as nat);
    }
    out.append(r#""}},{"key":"gate.bool","value":{"boolValue":"#);
    push_flag(&mut out, ordinal % 2 == 0);
    out.append(r#"}},{"key":"http.method","value":{"stringValue":"GET"}}]"#);
    assert(out@ =~= span_attributes(ordinal as nat));
    out
}

fn event_of(base: u64, ordinal: u64) -> (out: String)
    requires
        span_fits(base, ordinal as int),
    ensures
        out@ == span_event(base as nat, ordinal as nat),
{
    let start: u64 = base * 1_000_000_000 + ordinal * 1_000_000_000 / ORDINALS_PER_SECOND;
    let mut out = String::new();
    out.append(r#","endTimeUnixNano":""#);
    push_decimal(&mut out, start + 500_000 + ordinal % 17);
    out.append(r#"","events":[{"attributes":[{"key":"event.ordinal","value":{"intValue":""#);
    push_decimal(&mut out, ordinal);
    out.append(r#""}}],"name":"gate.event","timeUnixNano":""#);
    push_decimal(&mut out, start + 100);
    out.append(r#""}]"#);
    assert(out@ =~= span_event(base as nat, ordinal as nat));
    out
}

fn parent_of(ordinal: u64) -> (out: String)
    ensures
        out@ == (if ordinal % 4 == 0 {
            Seq::empty()
        } else {
            text::hexadecimal((ordinal / 4 * 4 + 1) as nat, 16)
        }),
{
    let mut out = String::new();
    if ordinal % 4 != 0 {
        push_hex(&mut out, ordinal / 4 * 4 + 1, 16);
    }
    assert(out@ =~= (if ordinal % 4 == 0 {
        Seq::empty()
    } else {
        text::hexadecimal((ordinal / 4 * 4 + 1) as nat, 16)
    }));
    out
}

fn place_of(base: u64, ordinal: u64) -> (out: String)
    requires
        span_fits(base, ordinal as int),
    ensures
        out@ == span_place(base as nat, ordinal as nat),
{
    let start: u64 = base * 1_000_000_000 + ordinal * 1_000_000_000 / ORDINALS_PER_SECOND;
    let root: bool = ordinal % 4 == 0;
    let parent = parent_of(ordinal);
    let mut out = String::new();
    out.append(r#","kind":"#);
    out.append(
        if root {
            "2"
        } else {
            "3"
        },
    );
    out.append(r#","links":[],"name":""#);
    out.append(
        if root {
            "GET /release-gate"
        } else {
            "db.query"
        },
    );
    out.append(r#"","parentSpanId":""#);
    out.append(&parent);
    out.append(r#"","spanId":""#);
    push_hex(&mut out, ordinal + 1, 16);
    out.append(r#"","startTimeUnixNano":""#);
    push_decimal(&mut out, start);
    out.append(r#"","status":{"code":"#);
    out.append(
        if ordinal % 17 == 0 {
            "2"
        } else {
            "1"
        },
    );
    out.append(r#","message":"gate"},"traceId":""#);
    push_hex(&mut out, ordinal / 4 + 1, 32);
    out.append(r#""}"#);
    assert(out@ =~= span_place(base as nat, ordinal as nat));
    out
}

fn span_of(base: u64, ordinal: u64) -> (out: String)
    requires
        span_fits(base, ordinal as int),
    ensures
        out@ == span_text(base as nat, ordinal as nat),
        out@.len() > 0,
{
    let mut out = attributes_of(ordinal);
    out.append(&event_of(base, ordinal));
    out.append(&place_of(base, ordinal));
    out
}

/// A batch of spans.
pub fn traces_body(base: u64, start: u64, count: usize) -> (body: String)
    requires
        batch_fits(Signal::Traces, base, start, count),
    ensures
        body@ == traces_text(base as nat, start as nat, count as nat),
{
    let mut spans = String::new();
    let mut i: u64 = 0;
    assert(spans@ =~= spans_text(base as nat, start as nat, 0));
    while i < count as u64
        invariant
            i <= count,
            batch_fits(Signal::Traces, base, start, count),
            spans@ == spans_text(base as nat, start as nat, i as nat),
            (i == 0) == (spans@.len() == 0),
        decreases count - i,
    {
        proof {
            records_fit(Signal::Traces, base, start, count, start + i);
        }
        let span = span_of(base, start + i);
        push_item(&mut spans, i == 0, &span);
        i += 1;
    }
    let mut body = String::new();
    body.append(TRACES_HEAD);
    body.append(&spans);
    body.append(TRACES_TAIL);
    assert(body@ =~= traces_text(base as nat, start as nat, count as nat));
    body
}

/// The body of a batch of a signal.
pub open spec fn body_text(signal: Signal, base: nat, start: nat, n: nat) -> Seq<char> {
    match signal {
        Signal::Metrics => metrics_text(base, start, n),
        Signal::Logs => logs_text(base, start, n),
        Signal::Traces => traces_text(base, start, n),
    }
}

/// The body of a batch of a signal.
pub fn ingest_body(signal: Signal, base: u64, start: u64, count: usize) -> (body: String)
    requires
        batch_fits(signal, base, start, count),
    ensures
        body@ == body_text(signal, base as nat, start as nat, count as nat),
{
    match signal {
        Signal::Metrics => metrics_body(base, start, count),
        Signal::Logs => logs_body(base, start, count),
        Signal::Traces => traces_body(base, start, count),
    }
}

/// Batches of log entries join: writing some and then the next ones gives the
/// same text as writing all at once.
pub proof fn log_batches_join(base: nat, start: nat, first: nat, second: nat)
    ensures
        logs_text(base, start, first + second) == logs_text(base, start, first) + logs_text(
            base,
            start + first,
            second,
        ),
    decreases second,
{
    if second == 0 {
        assert(logs_text(base, start, first) + logs_text(base, start + first, 0) =~= logs_text(
            base,
            start,
            first,
        ));
    } else {
        log_batches_join(base, start, first, (second - 1) as nat);
        assert(logs_text(base, start, first + second) =~= logs_text(base, start, first)
            + logs_text(base, start + first, second));
    }
}

} // verus!
