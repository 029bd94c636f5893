//! The crash workload: statements for another process, which is killed in the middle
//! of them.
use crate::json::copied;
use crate::text;
use crate::text::{push_decimal, push_hex};
use vstd::prelude::*;
use vstd::string::*;

verus! {

/// How much the workload holds: rounds, and the rows of each signal in a round.
#[derive(Clone, Copy, Debug, PartialEq, Eq, Structural)]
pub struct Workload {
    pub rounds: u64,
    pub metrics: u64,
    pub logs: u64,
    pub traces: u64,
}

/// The times and the identities of the workload fit in 64 bits.
pub open spec fn fits(w: Workload) -> bool {
    w.rounds > 0 ==> {
        &&& w.metrics > 0 ==> 1_700_000_000 + w.rounds * 100 + w.metrics - 1 <= u64::MAX
        &&& w.logs > 0 ==> 1_700_000_000_000 + w.rounds * 1000 + w.logs - 1 <= u64::MAX
        &&& w.traces > 0 ==> 1_700_000_000_000_000_000 + w.rounds * 1_000_000 + w.traces <= u64::MAX
    }
}

/// A metric of a round.
pub open spec fn metric_after(before: Seq<char>, round: nat, index: nat) -> Seq<char> {
    before + "INSERT INTO metrics(name, ts, value, labels) VALUES ('m"@ + text::decimal(index % 3) + "', "@ + text::decimal((1_700_000_000 + round * 100 + index) as nat) + ", "@ + text::decimal(round) + "."@ + text::decimal(index) + ", '{\"host\":\"h"@ + text::decimal(index % 2) + "\"}');\n"@
}

fn push_metric(out: &mut String, round: u64, index: u64)
    requires
        1_700_000_000 + round * 100 + index <= u64::MAX,
    ensures
        final(out)@ == metric_after(old(out)@, round as nat, index as nat),
{
    out.append("INSERT INTO metrics(name, ts, value, labels) VALUES ('m");
    push_decimal(out, index % 3);
    out.append("', ");
    push_decimal(out, 1_700_000_000 + round * 100 + index);
    out.append(", ");
    push_decimal(out, round);
    out.append(".");
    push_decimal(out, index);
    out.append(", '{\"host\":\"h");
    push_decimal(out, index % 2);
    out.append("\"}');\n");
}

/// The level of a log entry: every fourth is an error.
pub open spec fn log_level(index: nat) -> &'static str {
    if index % 4 == 3 {
        "error"
    } else {
        "info"
    }
}

/// A log entry of a round.
pub open spec fn log_after(before: Seq<char>, round: nat, index: nat) -> Seq<char> {
    before + "INSERT INTO logs(ts, level, message, service) VALUES ("@ + text::decimal((1_700_000_000_000 + round * 1000 + index) as nat) + ", '"@ + log_level(index)@ + "', 'round "@ + text::decimal(round) + " entry "@ + text::decimal(index) + "', 'svc"@ + text::decimal(index % 2) + "');\n"@
}

fn push_log(out: &mut String, round: u64, index: u64)
    requires
        1_700_000_000_000 + round * 1000 + index <= u64::MAX,
    ensures
        final(out)@ == log_after(old(out)@, round as nat, index as nat),
{
    let level = if index % 4 == 3 {
        "error"
    } else {
        "info"
    };
    out.append("INSERT INTO logs(ts, level, message, service) VALUES (");
    push_decimal(out, 1_700_000_000_000 + round * 1000 + index);
    out.append(", '");
    out.append(level);
    out.append("', 'round ");
    push_decimal(out, round);
    out.append(" entry ");
    push_decimal(out, index);
    out.append("', 'svc");
    push_decimal(out, index % 2);
    out.append("');\n");
}

/// The status of a span: every fifth is an error.
pub open spec fn span_status(index: nat) -> &'static str {
    if index % 5 == 0 {
        "error"
    } else {
        "ok"
    }
}

/// What the status of a span says.
pub open spec fn span_description(index: nat) -> &'static str {
    if index % 5 == 0 {
        "crash-path"
    } else {
        ""
    }
}

/// The time of a span.
pub open spec fn span_time(round: nat, index: nat) -> nat {
    (1_700_000_000_000_000_000 + round * 1_000_000 + index) as nat
}

/// The identity of a span of a round.
pub open spec fn span_head_after(before: Seq<char>, round: nat, index: nat) -> Seq<char> {
    before + "INSERT INTO traces(trace_id, span_id, name, service, status, start_ts, attributes, status_description, events, resource, instrumentation_scope)\n"@ + "VALUES (x'"@ + text::hexadecimal((round * 31 + index % 7) as nat, 32) + "', x'"@ + text::hexadecimal((round * 1000 + index) as nat, 16) + "', 'op"@ + text::decimal(index % 3) + "', 'must-not-win', '"@ + span_status(index)@ + "', "@ + text::decimal(span_time(round, index)) + ",\n"@
}

fn push_span_head(out: &mut String, round: u64, index: u64)
    requires
        1_700_000_000_000_000_000 + round * 1_000_000 + index + 1 <= u64::MAX,
    ensures
        final(out)@ == span_head_after(old(out)@, round as nat, index as nat),
{
    let status = if index % 5 == 0 {
        "error"
    } else {
        "ok"
    };
    let timestamp: u64 = 1_700_000_000_000_000_000 + round * 1_000_000 + index;
    out.append("INSERT INTO traces(trace_id, span_id, name, service, status, start_ts, attributes, status_description, events, resource, instrumentation_scope)\n");
    out.append("VALUES (x'");
    push_hex(out, round * 31 + index % 7, 32);
    out.append("', x'");
    push_hex(out, round * 1000 + index, 16);
    out.append("', 'op");
    push_decimal(out, index % 3);
    out.append("', 'must-not-win', '");
    out.append(status);
    out.append("', ");
    push_decimal(out, timestamp);
    out.append(",\n");
}

/// What a span of a round carries.
pub open spec fn span_body_after(before: Seq<char>, round: nat, index: nat) -> Seq<char> {
    before + "'{\"bool\":true,\"count\":"@ + text::decimal(index) + ",\"service.name\":\"s"@ + text::decimal(index % 2) + "\"}', '"@ + span_description(index)@ + "',\n"@ + "'[{\"attributes\":{\"attempt\":"@ + text::decimal(index) + ",\"fatal\":false},\"name\":\"checkpoint\",\"timestamp\":"@ + text::decimal((span_time(round, index) + 1) as nat) + "}]',\n"@ + "'{\"deployment.environment\":\"crash\",\"service.name\":\"resource-must-not-win\"}',\n"@ + "'{\"attributes\":{\"debug\":false},\"name\":\"crash-lib\",\"version\":\"1.0\"}');\n"@
}

fn push_span_body(out: &mut String, round: u64, index: u64)
    requires
        1_700_000_000_000_000_000 + round * 1_000_000 + index + 1 <= u64::MAX,
    ensures
        final(out)@ == span_body_after(old(out)@, round as nat, index as nat),
{
    let description = if index % 5 == 0 {
        "crash-path"
    } else {
        ""
    };
    let timestamp: u64 = 1_700_000_000_000_000_000 + round * 1_000_000 + index;
    out.append("'{\"bool\":true,\"count\":");
    push_decimal(out, index);
    out.append(",\"service.name\":\"s");
    push_decimal(out, index % 2);
    out.append("\"}', '");
    out.append(description);
    out.append("',\n");
    out.append("'[{\"attributes\":{\"attempt\":");
    push_decimal(out, index);
    out.append(",\"fatal\":false},\"name\":\"checkpoint\",\"timestamp\":");
    push_decimal(out, timestamp + 1);
    out.append("}]',\n");
    out.append("'{\"deployment.environment\":\"crash\",\"service.name\":\"resource-must-not-win\"}',\n");
    out.append("'{\"attributes\":{\"debug\":false},\"name\":\"crash-lib\",\"version\":\"1.0\"}');\n");
}

/// The first `n` metrics of a round.
pub open spec fn metrics_after(before: Seq<char>, round: nat, n: nat) -> Seq<char>
    decreases n,
{
    if n == 0 {
        before
    } else {
        metric_after(metrics_after(before, round, (n - 1) as nat), round, (n - 1) as nat)
    }
}

fn push_metrics(out: &mut String, round: u64, n: u64)
    requires
        n > 0 ==> 1_700_000_000 + round * 100 + n - 1 <= u64::MAX,
    ensures
        final(out)@ == metrics_after(old(out)@, round as nat, n as nat),
{
    let mut i: u64 = 0;
    while i < n
        invariant
            i <= n,
            n > 0 ==> 1_700_000_000 + round * 100 + n - 1 <= u64::MAX,
            out@ == metrics_after(old(out)@, round as nat, i as nat),
        decreases n - i,
    {
        push_metric(out, round, i);
        i += 1;
    }
}

/// The first `n` log entries of a round.
pub open spec fn logs_after(before: Seq<char>, round: nat, n: nat) -> Seq<char>
    decreases n,
{
    if n == 0 {
        before
    } else {
        log_after(logs_after(before, round, (n - 1) as nat), round, (n - 1) as nat)
    }
}

fn push_logs(out: &mut String, round: u64, n: u64)
    requires
        n > 0 ==> 1_700_000_000_000 + round * 1000 + n - 1 <= u64::MAX,
    ensures
        final(out)@ == logs_after(old(out)@, round as nat, n as nat),
{
    let mut i: u64 = 0;
    while i < n
        invariant
            i <= n,
            n > 0 ==> 1_700_000_000_000 + round * 1000 + n - 1 <= u64::MAX,
            out@ == logs_after(old(out)@, round as nat, i as nat),
        decreases n - i,
    {
        push_log(out, round, i);
        i += 1;
    }
}

/// The first `n` spans of a round.
pub open spec fn spans_after(before: Seq<char>, round: nat, n: nat) -> Seq<char>
    decreases n,
{
    if n == 0 {
        before
    } else {
        let i = (n - 1) as nat;
        span_body_after(span_head_after(spans_after(before, round, i), round, i), round, i)
    }
}

fn push_spans(out: &mut String, round: u64, n: u64)
    requires
        n > 0 ==> 1_700_000_000_000_000_000 + round * 1_000_000 + n <= u64::MAX,
    ensures
        final(out)@ == spans_after(old(out)@, round as nat, n as nat),
{
    let mut i: u64 = 0;
    while i < n
        invariant
            i <= n,
            n > 0 ==> 1_700_000_000_000_000_000 + round * 1_000_000 + n <= u64::MAX,
            out@ == spans_after(old(out)@, round as nat, i as nat),
        decreases n - i,
    {
        push_span_head(out, round, i);
        push_span_body(out, round, i);
        i += 1;
    }
}

/// What writes the rows of a round.
pub const FLUSHES: &'static str = "INSERT INTO metrics(metrics) VALUES ('flush');\nINSERT INTO logs(logs) VALUES ('flush');\nINSERT INTO traces(traces) VALUES ('flush');\n";

/// What every twenty-fifth round does besides.
pub const MAINTENANCE: &'static str = "INSERT INTO logs(logs) VALUES ('optimize');\nINSERT INTO traces(traces) VALUES ('optimize');\nINSERT INTO metrics(metrics) VALUES ('compact');\nINSERT INTO metrics(metrics) VALUES ('rollup');\n";

/// The end of a round: it is committed, and then named.
pub open spec fn round_end_after(before: Seq<char>, round: nat) -> Seq<char> {
    (if round % 25 == 0 {
        before + FLUSHES@ + MAINTENANCE@
    } else {
        before + FLUSHES@
    }) + "COMMIT;\nSELECT 'WM "@ + text::decimal(round) + "';\n"@
}

/// A round: one transaction with all of its rows.
pub open spec fn round_after(before: Seq<char>, round: nat, w: Workload) -> Seq<char> {
    round_end_after(
        spans_after(
            logs_after(
                metrics_after(before + "BEGIN;\n"@, round, w.metrics as nat),
                round,
                w.logs as nat,
            ),
            round,
            w.traces as nat,
        ),
        round,
    )
}

/// The first `n` rounds.
pub open spec fn rounds_after(before: Seq<char>, n: nat, w: Workload) -> Seq<char>
    decreases n,
{
    if n == 0 {
        before
    } else {
        round_after(rounds_after(before, (n - 1) as nat, w), n, w)
    }
}

/// The tables of the workload.
pub const TABLES: &'static str = "CREATE VIRTUAL TABLE metrics USING timeless_metrics(rollups='60s@0');\nCREATE VIRTUAL TABLE logs USING timeless_logs(index_keys='service');\nCREATE VIRTUAL TABLE traces USING timeless_traces;\n";

/// The head of the workload: it loads the extension and makes the tables.
pub open spec fn head(extension: Seq<char>) -> Seq<char> {
    ".load "@ + extension + "\n"@ + TABLES@
}

/// The whole workload.
pub open spec fn sql_text(extension: Seq<char>, w: Workload) -> Seq<char> {
    rounds_after(head(extension), w.rounds as nat, w)
}

proof fn round_fits(w: Workload, round: u64)
    requires
        fits(w),
        0 < round <= w.rounds,
    ensures
        w.metrics > 0 ==> 1_700_000_000 + round * 100 + w.metrics - 1 <= u64::MAX,
        w.logs > 0 ==> 1_700_000_000_000 + round * 1000 + w.logs - 1 <= u64::MAX,
        w.traces > 0 ==> 1_700_000_000_000_000_000 + round * 1_000_000 + w.traces <= u64::MAX,
{
}

fn push_round(out: &mut String, round: u64, w: Workload)
    requires
        fits(w),
        0 < round <= w.rounds,
    ensures
        final(out)@ == round_after(old(out)@, round as nat, w),
{
    proof {
        round_fits(w, round);
    }
    out.append("BEGIN;\n");
    push_metrics(out, round, w.metrics);
    push_logs(out, round, w.logs);
    push_spans(out, round, w.traces);
    out.append(FLUSHES);
    if round % 25 == 0 {
        out.append(MAINTENANCE);
    }
    out.append("COMMIT;\nSELECT 'WM ");
    push_decimal(out, round);
    out.append("';\n");
}

/// The workload: the extension is loaded, the tables are made, and then every round
/// is a transaction that is named once it is committed.
pub fn write_sql(extension: &str, w: Workload) -> (out: String)
    requires
        fits(w),
    ensures
        out@ == sql_text(extension@, w),
{
    let mut out = copied(".load ");
    out.append(extension);
    out.append("\n");
    out.append(TABLES);
    let mut round: u64 = 0;
    while round < w.rounds
        invariant
            round <= w.rounds,
            fits(w),
            out@ == rounds_after(head(extension@), round as nat, w),
        decreases w.rounds - round,
    {
        round += 1;
        push_round(&mut out, round, w);
    }
    out
}

/// Whether the times and the identities of a workload fit in 64 bits.
pub fn is_writable(w: Workload) -> (yes: bool)
    ensures
        yes == fits(w),
{
    let rounds: u128 = w.rounds as u128;
    let most: u128 = u64::MAX as u128;
    w.rounds == 0 || (w.metrics == 0 || 1_700_000_000 + rounds * 100 + w.metrics as u128 - 1 <= most)
        && (w.logs == 0 || 1_700_000_000_000 + rounds * 1000 + w.logs as u128 - 1 <= most) && (
    w.traces == 0 || 1_700_000_000_000_000_000 + rounds * 1_000_000 + w.traces as u128 <= most)
}

/// A longer workload begins with a shorter one: it can be cut after any round.
pub proof fn workloads_grow(extension: Seq<char>, w: Workload, n: nat, m: nat)
    requires
        n <= m,
    ensures
        rounds_after(head(extension), n, w).is_prefix_of(rounds_after(head(extension), m, w)),
    decreases m - n,
{
    if n < m {
        workloads_grow(extension, w, n, (m - 1) as nat);
        let before = rounds_after(head(extension), (m - 1) as nat, w);
        let opened = before + "BEGIN;\n"@;
        metrics_grow(opened, m, w.metrics as nat);
        let a = metrics_after(opened, m, w.metrics as nat);
        logs_grow(a, m, w.logs as nat);
        let b = logs_after(a, m, w.logs as nat);
        spans_grow(b, m, w.traces as nat);
        let c = spans_after(b, m, w.traces as nat);
        let d = round_end_after(c, m);
        assert(before.is_prefix_of(opened));
        assert(c.is_prefix_of(d));
        let x = rounds_after(head(extension), n, w);
        prefix_joins(x, before, opened);
        prefix_joins(x, opened, a);
        prefix_joins(x, a, b);
        prefix_joins(x, b, c);
        prefix_joins(x, c, d);
    }
}

proof fn prefix_joins(a: Seq<char>, b: Seq<char>, c: Seq<char>)
    requires
        a.is_prefix_of(b),
        b.is_prefix_of(c),
    ensures
        a.is_prefix_of(c),
{
    assert(c.subrange(0, a.len() as int) =~= b.subrange(0, a.len() as int));
}

proof fn metrics_grow(before: Seq<char>, round: nat, n: nat)
    ensures
        before.is_prefix_of(metrics_after(before, round, n)),
    decreases n,
{
    if n > 0 {
        let i = (n - 1) as nat;
        metrics_grow(before, round, i);
        let a = metrics_after(before, round, i);
        assert(a.is_prefix_of(metric_after(a, round, i)));
        prefix_joins(before, a, metric_after(a, round, i));
    }
}

proof fn logs_grow(before: Seq<char>, round: nat, n: nat)
    ensures
        before.is_prefix_of(logs_after(before, round, n)),
    decreases n,
{
    if n > 0 {
        let i = (n - 1) as nat;
        logs_grow(before, round, i);
        let a = logs_after(before, round, i);
        assert(a.is_prefix_of(log_after(a, round, i)));
        prefix_joins(before, a, log_after(a, round, i));
    }
}

proof fn spans_grow(before: Seq<char>, round: nat, n: nat)
    ensures
        before.is_prefix_of(spans_after(before, round, n)),
    decreases n,
{
    if n > 0 {
        let i = (n - 1) as nat;
        spans_grow(before, round, i);
        let a = spans_after(before, round, i);
        let b = span_head_after(a, round, i);
        assert(a.is_prefix_of(b));
        assert(b.is_prefix_of(span_body_after(b, round, i)));
        prefix_joins(before, a, b);
        prefix_joins(before, b, span_body_after(b, round, i));
    }
}

/// What went wrong with the kill of a workload.
#[derive(Clone, Copy, Debug, PartialEq, Eq, Structural)]
pub enum KillError {
    /// The time until the kill is zero.
    Interval,
    /// The workload ended before it.
    Completed,
    /// The workload ended well though it was killed.
    Survived,
}

/// Whether a workload was killed as planned: after a time above zero, while it still
/// ran, and so that it did not end well. `ended_first` says that it ended before the
/// time, `ended_well` that it ended well after the kill.
pub fn run_and_kill(kill_after_ms: u64, ended_first: bool, ended_well: bool) -> (result: Result<
    (),
    KillError,
>)
    ensures
        result == (if kill_after_ms == 0 {
            Err::<(), KillError>(KillError::Interval)
        } else if ended_first {
            Err::<(), KillError>(KillError::Completed)
        } else if ended_well {
            Err::<(), KillError>(KillError::Survived)
        } else {
            Ok::<(), KillError>(())
        }),
{
    if kill_after_ms == 0 {
        Err(KillError::Interval)
    } else if ended_first {
        Err(KillError::Completed)
    } else if ended_well {
        Err(KillError::Survived)
    } else {
        Ok(())
    }
}

} // verus!
