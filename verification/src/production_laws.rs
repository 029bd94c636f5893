//! What holds of every configuration, body and answer of the production gate.
use crate::documents;
use crate::json::{self, Tree};
use crate::production::{self, Config, ConfigError, Mode, Request, Signal};
use crate::production_bodies;
use crate::production_queries;
use crate::soak::{self, DiskEnd, DiskEvent, DiskProbe, DiskStep, Fault, Soak};
use crate::text;
use crate::workload_laws::{above, no_number};
use vstd::prelude::*;

verus! {

/// A float is above zero, or no number.
pub open spec fn not_at_most_zero(bits: u64) -> bool {
    above(bits, 0) || no_number(bits)
}

/// An accepted configuration has what was asked for, or what is used otherwise: nothing
/// in it is zero or less, a release run lasts two hours or more, and a batch is made of
/// groups of four.
pub proof fn accepted_configurations_are_asked_for(request: Request)
    ensures
        production::configured(request) matches Ok(c) ==> {
            &&& c.mode == request.mode
            &&& request.duration matches Some(d) ==> c.duration == d
            &&& request.sample matches Some(s) ==> c.sample == s
            &&& request.duration is None ==> c.duration == (match request.mode {
                Mode::Short => 0x405e_0000_0000_0000u64,
                Mode::Release => 0x40c2_c000_0000_0000u64,
            })
            &&& request.sample is None ==> c.sample == (match request.mode {
                Mode::Short => 0x4014_0000_0000_0000u64,
                Mode::Release => 0x403e_0000_0000_0000u64,
            })
            &&& c.write_hz == request.write_hz
            &&& c.query_hz == request.query_hz
            &&& c.batch == request.batch
            &&& not_at_most_zero(c.duration)
            &&& not_at_most_zero(c.sample)
            &&& not_at_most_zero(c.write_hz)
            &&& not_at_most_zero(c.query_hz)
            &&& c.mode is Release ==> !above(0x40bc_2000_0000_0000, c.duration)
            &&& c.batch >= 4 && c.batch % 4 == 0
        },
{
}

/// A request is refused for the first of its faults.
pub proof fn refused_configurations_are_faulty(request: Request)
    ensures
        production::configured(request) matches Err(e) ==> match e {
            ConfigError::NotPositive => !(not_at_most_zero(request.write_hz) && not_at_most_zero(
                request.query_hz,
            ) && (request.duration matches Some(d) ==> not_at_most_zero(d)) && (
            request.sample matches Some(s) ==> not_at_most_zero(s))),
            ConfigError::TooShort => request.mode is Release && (request.duration matches Some(d)
                && above(0x40bc_2000_0000_0000, d)),
            ConfigError::Batch => request.batch == 0 || request.batch % 4 != 0,
            ConfigError::RssLimit => exists|i: int|
                0 <= i < request.max_rss_kib@.len() && production::limit_of(
                    (#[trigger] request.max_rss_kib@[i])@,
                ) is None,
        },
{
    match production::configured(request) {
        Err(ConfigError::RssLimit) => unread_limits_are_named(
            request.max_rss_kib@,
            request.max_rss_kib@.len(),
        ),
        _ => {},
    }
}

proof fn unread_limits_are_named(items: Seq<String>, n: nat)
    requires
        n <= items.len(),
        production::limits_after(items, n) is None,
    ensures
        exists|i: int| 0 <= i < n && production::limit_of((#[trigger] items[i])@) is None,
    decreases n,
{
    if n > 0 {
        if production::limits_after(items, (n - 1) as nat) is None {
            unread_limits_are_named(items, (n - 1) as nat);
        } else {
            assert(production::limit_of(items[n - 1]@) is None);
        }
    }
}

/// The limit of a signal is the last one that was asked for, or the one that is used
/// otherwise.
pub proof fn the_last_limit_counts(items: Seq<String>, n: nat, signal: Signal, at: int, limit: u64)
    requires
        n <= items.len(),
        -1 <= at < n,
        production::limits_after(items, n) is Some,
        at >= 0 ==> production::limit_of(items[at]@) == Some((signal, limit)),
        at < 0 ==> limit == (match signal {
            Signal::Metrics => 524_288u64,
            Signal::Logs => 524_288u64,
            Signal::Traces => 786_432u64,
        }),
        forall|j: int|
            at < j < n ==> (production::limit_of((#[trigger] items[j])@) matches Some(found)
                ==> found.0 != signal),
    ensures
        ({
            let limits = production::limits_after(items, n)->Some_0;
            limit == match signal {
                Signal::Metrics => limits.metrics,
                Signal::Logs => limits.logs,
                Signal::Traces => limits.traces,
            }
        }),
    decreases n,
{
    if n > 0 {
        let m = (n - 1) as nat;
        let found = production::limit_of(items[n - 1]@)->Some_0;
        if at < n - 1 {
            assert(found.0 != signal);
            the_last_limit_counts(items, m, signal, at, limit);
        }
    }
}

proof fn signal_words_differ()
    ensures
        "metrics"@ != "logs"@,
        "metrics"@ != "traces"@,
        "logs"@ != "traces"@,
{
    reveal_strlit("metrics");
    assert("metrics"@.len() == 7 && "metrics"@[0] == 'm');
    reveal_strlit("logs");
    assert("logs"@.len() == 4 && "logs"@[0] == 'l');
    reveal_strlit("traces");
    assert("traces"@.len() == 6 && "traces"@[0] == 't');
}

/// A limit is read from a signal, an equals sign and a number.
pub proof fn limits_are_read(signal: Signal, rest: Seq<char>)
    ensures
        production::limit_of(
            (match signal {
                Signal::Metrics => "metrics"@,
                Signal::Logs => "logs"@,
                Signal::Traces => "traces"@,
            }) + seq!['='] + rest,
        ) == (match text::unsigned_value(rest) {
            Some(n) => Some((signal, n as u64)),
            None => None,
        }),
{
    signal_words_differ();
    let name = match signal {
        Signal::Metrics => "metrics"@,
        Signal::Logs => "logs"@,
        Signal::Traces => "traces"@,
    };
    let item = name + seq!['='] + rest;
    assert(forall|i: int| 0 <= i < name.len() ==> name[i] != '=') by {
        reveal_strlit("metrics");
        reveal_strlit("logs");
        reveal_strlit("traces");
        assert("metrics"@ =~= seq!['m', 'e', 't', 'r', 'i', 'c', 's']);
        assert("logs"@ =~= seq!['l', 'o', 'g', 's']);
        assert("traces"@ =~= seq!['t', 'r', 'a', 'c', 'e', 's']);
    }
    sign_is_found(item, name.len() as int);
    assert(item.take(name.len() as int) =~= name);
    assert(item.skip(name.len() as int + 1) =~= rest);
}

proof fn sign_is_found(s: Seq<char>, n: int)
    requires
        0 <= n < s.len(),
        s[n] == '=',
        forall|i: int| 0 <= i < n ==> s[i] != '=',
    ensures
        production::before_sign(s) == n,
    decreases n,
{
    if n > 0 {
        assert(s[0] != '=');
        assert forall|i: int| 0 <= i < n - 1 implies s.drop_first()[i] != '=' by {
            assert(s[i + 1] != '=');
        }
        sign_is_found(s.drop_first(), n - 1);
    }
}

/// Points are a 256th of a second apart: each stands at its share of the time after the
/// base, cut to milliseconds.
pub proof fn points_are_evenly_timed(base: nat, ordinal: nat)
    ensures
        ({
            let passed = production_bodies::point_time(base, ordinal) - base * 1_000;
            256 * passed <= ordinal * 1_000 < 256 * (passed + 1)
        }),
        production_bodies::point_time(base, ordinal + 256) == production_bodies::point_time(
            base,
            ordinal,
        ) + 1_000,
        production_bodies::point_time(base, 0) == base * 1_000,
        production_bodies::point_time(base, ordinal) <= production_bodies::point_time(
            base,
            ordinal + 1,
        ),
{
}

/// Spans are a 256th of a second apart as well, cut to nanoseconds.
pub proof fn spans_are_evenly_timed(base: nat, ordinal: nat)
    ensures
        ({
            let passed = production_bodies::span_start(base, ordinal) - base * 1_000_000_000;
            256 * passed <= ordinal * 1_000_000_000 < 256 * (passed + 1)
        }),
        production_bodies::span_start(base, 0) == base * 1_000_000_000,
        production_bodies::span_start(base, ordinal + 256) == production_bodies::span_start(
            base,
            ordinal,
        ) + 1_000_000_000,
{
}

/// A point goes to the host of its ordinal alone: the others stay as they are.
pub proof fn points_go_to_their_host(base: nat, start: nat, n: nat, host: nat)
    ensures
        (start + n) % 4 != host as int ==> production_bodies::times_of_host(base, start, n + 1, host)
            == production_bodies::times_of_host(base, start, n, host)
            && production_bodies::values_of_host(start, n + 1, host)
            == production_bodies::values_of_host(start, n, host),
        (start + n) % 4 == host as int ==> text::ends_in(
            production_bodies::times_of_host(base, start, n + 1, host),
            text::decimal((base * 1_000 + ((start + n) * 1_000) / 256) as nat),
        ) && text::ends_in(
            production_bodies::values_of_host(start, n + 1, host),
            crate::moments::half_more_text(start + n),
        ),
{
    if (start + n) % 4 == host as int {
        let time = text::decimal(production_bodies::point_time(base, start + n));
        let times = production_bodies::times_of_host(base, start, n + 1, host);
        assert(times.subrange(times.len() - time.len(), times.len() as int) =~= time);
        let value = crate::moments::half_more_text(start + n);
        let values = production_bodies::values_of_host(start, n + 1, host);
        assert(values.subrange(values.len() - value.len(), values.len() as int) =~= value);
    }
}

/// A log entry carries its number, its second and its host, and reports an error with
/// the status of one exactly where its level is that of an error.
pub proof fn entries_carry_their_number(base: nat, ordinal: nat)
    ensures
        ({
            let line = production_bodies::log_line(base, ordinal);
            &&& text::begins_with(
                line,
                r#"{"_msg":"release-gate-"#@ + text::decimal(ordinal) + r#"","_time":"#@
                    + text::decimal(base + ordinal / 256) + r#","attempt":"#@ + text::decimal(
                    ordinal,
                ) + r#","host":"host-"#@ + text::decimal(ordinal % 4) + r#"","level":""#@,
            )
            &&& ordinal % 4 == 3 ==> text::occurs_in(line, r#"","level":""#@ + "error"@)
                && text::occurs_in(line, r#","service":"release-gate","status":"#@ + "500"@)
            &&& ordinal % 4 != 3 ==> text::occurs_in(
                line,
                r#","service":"release-gate","status":"#@ + "200"@,
            )
            &&& ordinal % 4 == 0 ==> text::occurs_in(line, r#"","level":""#@ + "debug"@)
            &&& ordinal % 4 == 1 ==> text::occurs_in(line, r#"","level":""#@ + "info"@)
            &&& ordinal % 4 == 2 ==> text::occurs_in(line, r#"","level":""#@ + "warning"@)
            &&& line.last() == '\n'
        }),
{
    let line = production_bodies::log_line(base, ordinal);
    let lead = r#"{"_msg":"release-gate-"#@ + text::decimal(ordinal) + r#"","_time":"#@
        + text::decimal(base + ordinal / 256) + r#","attempt":"#@ + text::decimal(ordinal)
        + r#","host":"host-"#@ + text::decimal(ordinal % 4);
    let head = lead + r#"","level":""#@;
    assert(line.subrange(0, head.len() as int) =~= head);
    let level = production_bodies::level_of(ordinal);
    let named = r#"","level":""#@ + level;
    assert(line.subrange(lead.len() as int, (lead.len() + named.len()) as int) =~= named);
    assert(text::stands_at(line, named, lead.len() as int));
    let middle = head + level + r#"","nested":{"worker":"#@ + text::decimal(ordinal % 8)
        + r#"},"sampled":"#@ + (if ordinal % 2 == 0 {
        "true"@
    } else {
        "false"@
    });
    let status = r#","service":"release-gate","status":"#@ + (if ordinal % 4 == 3 {
        "500"@
    } else {
        "200"@
    });
    assert(line.subrange(middle.len() as int, (middle.len() + status.len()) as int) =~= status);
    assert(text::stands_at(line, status, middle.len() as int));
}

/// The identifier of a span in print: its number.
pub open spec fn span_name(ordinal: nat) -> Seq<char> {
    text::hexadecimal(ordinal + 1, 16)
}

/// The spans of a trace are four, and the first of them is the parent of the others: the
/// name that they give to their parent is the one that it gives to itself, and all give
/// the same name to their trace.
pub proof fn spans_name_their_root(base: nat, ordinal: nat)
    ensures
        ({
            let place = production_bodies::span_place(base, ordinal);
            let root = (ordinal - ordinal % 4) as nat;
            &&& ordinal % 4 != 0 ==> text::occurs_in(
                place,
                r#"","parentSpanId":""#@ + span_name(root) + (r#"","spanId":""#@ + span_name(
                    ordinal,
                )),
            )
            &&& ordinal % 4 == 0 ==> text::occurs_in(
                place,
                r#"","parentSpanId":""#@ + (r#"","spanId":""#@ + span_name(ordinal)),
            )
            &&& text::ends_in(
                place,
                r#","message":"gate"},"traceId":""#@ + text::hexadecimal(root / 4 + 1, 32)
                    + r#""}"#@,
            )
            &&& root % 4 == 0
        }),
{
    let place = production_bodies::span_place(base, ordinal);
    let root = (ordinal - ordinal % 4) as nat;
    assert(ordinal / 4 * 4 == root);
    assert(root / 4 == ordinal / 4);
    let head = r#","kind":"#@ + (if ordinal % 4 == 0 {
        "2"@
    } else {
        "3"@
    }) + r#","links":[],"name":""#@ + (if ordinal % 4 == 0 {
        "GET /release-gate"@
    } else {
        "db.query"@
    });
    let parent = if ordinal % 4 == 0 {
        Seq::<char>::empty()
    } else {
        span_name(root)
    };
    let middle = r#"","parentSpanId":""#@ + parent + (r#"","spanId":""#@ + span_name(ordinal));
    assert(place.subrange(head.len() as int, (head.len() + middle.len()) as int) =~= middle);
    assert(text::stands_at(place, middle, head.len() as int));
    if ordinal % 4 == 0 {
        assert(middle =~= r#"","parentSpanId":""#@ + (r#"","spanId":""#@ + span_name(ordinal)));
    }
    let tail = r#","message":"gate"},"traceId":""#@ + text::hexadecimal(ordinal / 4 + 1, 32)
        + r#""}"#@;
    assert(place.subrange(place.len() - tail.len(), place.len() as int) =~= tail);
}

/// A span ends half a millisecond or little more after its start, and its event lies
/// between them.
pub proof fn spans_end_after_their_event(base: nat, ordinal: nat)
    ensures
        ({
            let event = production_bodies::span_event(base, ordinal);
            let start = production_bodies::span_start(base, ordinal);
            &&& text::begins_with(
                event,
                r#","endTimeUnixNano":""#@ + text::decimal(start + 500_000 + ordinal % 17),
            )
            &&& text::ends_in(
                event,
                r#""}}],"name":"gate.event","timeUnixNano":""#@ + text::decimal(start + 100)
                    + r#""}]"#@,
            )
        }),
{
    let event = production_bodies::span_event(base, ordinal);
    let start = production_bodies::span_start(base, ordinal);
    let head = r#","endTimeUnixNano":""#@ + text::decimal(start + 500_000 + ordinal % 17);
    assert(event.subrange(0, head.len() as int) =~= head);
    let tail = r#""}}],"name":"gate.event","timeUnixNano":""#@ + text::decimal(start + 100)
        + r#""}]"#@;
    assert(event.subrange(event.len() - tail.len(), event.len() as int) =~= tail);
}

/// The window of a query ends at the newest record, starts at the base or as many
/// seconds before the end, and never before the base.
pub proof fn windows_end_at_the_newest_record(base: nat, next_ordinal: nat, seconds: nat)
    ensures
        ({
            let newest = production_queries::newest_second(base, next_ordinal);
            let from = production_queries::window_start(base, newest, seconds);
            &&& base <= from <= newest
            &&& newest - from <= seconds
            &&& from == base || newest - from == seconds
            &&& next_ordinal == 0 ==> newest == base
            &&& next_ordinal > 0 ==> 256 * (newest - base) <= next_ordinal - 1 < 256 * (newest - base
                + 1)
        }),
{
}

/// A body is cut at its line feeds, and empty lines are left out.
pub proof fn bodies_are_cut_at_line_feeds(line: Seq<u8>, rest: Seq<u8>)
    requires
        forall|i: int| 0 <= i < line.len() ==> line[i] != 10,
    ensures
        line.len() > 0 ==> production_queries::pieces(line + seq![10u8] + rest) == seq![line]
            + production_queries::pieces(rest),
        line.len() == 0 ==> production_queries::pieces(line + seq![10u8] + rest)
            == production_queries::pieces(rest),
        line.len() > 0 ==> production_queries::pieces(line) == seq![line],
        production_queries::pieces(Seq::empty()) == Seq::<Seq<u8>>::empty(),
{
    let body = line + seq![10u8] + rest;
    feed_is_found(body, line.len() as int);
    assert(body.take(line.len() as int) =~= line);
    assert(body.skip(line.len() as int + 1) =~= rest);
    if line.len() == 0 {
        assert(body.skip(1) =~= rest);
    } else {
        feed_is_found(line, line.len() as int);
    }
}

proof fn feed_is_found(body: Seq<u8>, n: int)
    requires
        0 <= n <= body.len(),
        n < body.len() ==> body[n] == 10,
        forall|i: int| 0 <= i < n ==> body[i] != 10,
    ensures
        production_queries::piece_length(body) == n,
    decreases n,
{
    if n > 0 {
        assert(body[0] != 10);
        assert forall|i: int| 0 <= i < n - 1 implies body.drop_first()[i] != 10 by {
            assert(body[i + 1] != 10);
        }
        feed_is_found(body.drop_first(), n - 1);
    }
}

/// The number of rows agrees with the declared one, where one is declared.
pub proof fn declared_rows_are_there(declared: Option<&str>, decoded: nat)
    ensures
        production_queries::count_fault(declared, decoded) is None <==> (declared is None
            || text::unsigned_value(declared->Some_0@) == Some(decoded)),
{
}

/// Counted rows are the lines of the answer, as many as are declared; otherwise the
/// declared number, for an answer that is a document and, for traces, has data.
pub proof fn rows_are_counted(signal: Signal, shape: Seq<char>, body: Seq<u8>, declared: Option<&str>)
    ensures
        production_queries::rows_counted(
            production_queries::count_of(signal, shape),
            body,
            declared,
        ) matches Ok(n) ==> match signal {
            Signal::Logs => if shape == "discovery"@ {
                documents::byte_tree(body) is Some && (match declared {
                    Some(header) => text::unsigned_value(header@) is Some && n
                        == text::unsigned_value(header@)->Some_0 as u64,
                    None => n == 0,
                })
            } else {
                production_queries::rows_of(body) is Some && n == production_queries::rows_of(
                    body,
                )->Some_0.len() as u64 && (declared matches Some(header) ==> text::unsigned_value(
                    header@,
                ) == Some(production_queries::rows_of(body)->Some_0.len()))
            },
            Signal::Metrics => documents::byte_tree(body) is Some && (match declared {
                Some(header) => text::unsigned_value(header@) is Some && n
                    == text::unsigned_value(header@)->Some_0 as u64,
                None => n == 0,
            }),
            Signal::Traces => documents::byte_tree(body) is Some && json::tree_member(
                documents::byte_tree(body)->Some_0,
                "data"@,
            ) is Some,
        },
{
}

/// The first point is read back: one series with one half among its values and the base
/// among its times, as many of the one as of the other.
pub proof fn first_points_are_read_back(rows: Seq<Tree>, base: nat)
    requires
        production_queries::metrics_sentinel(rows, base),
    ensures
        rows.len() == 1,
        json::tree_member(rows[0], "values"@) is Some,
        json::tree_member(rows[0], "timestamps"@) is Some,
        ({
            let values = json::tree_member(rows[0], "values"@)->Some_0;
            let times = json::tree_member(rows[0], "timestamps"@)->Some_0;
            &&& values is Array && times is Array
            &&& values->Array_0.len() == times->Array_0.len()
            &&& times->Array_0.contains(Tree::Unsigned((base * 1_000) as u64))
            &&& exists|i: int|
                0 <= i < values->Array_0.len() && (#[trigger] values->Array_0[i]) is Float
                    && values->Array_0[i]->Float_0 == 0x3fe0_0000_0000_0000
        }),
{
    let values = json::tree_member(rows[0], "values"@)->Some_0->Array_0;
    let i = choose|i: int|
        0 <= i < values.len() && production_queries::is_half(#[trigger] values[i]);
    assert(values[i]->Float_0 == 0x3fe0_0000_0000_0000);
}

/// The first entry is read back: alone, with its message, its number and its worker.
pub proof fn first_entries_are_read_back(rows: Seq<Tree>)
    ensures
        production_queries::logs_sentinel(rows) <==> {
            &&& rows.len() == 1
            &&& json::tree_member(rows[0], "_msg"@) == Some(Tree::Text("release-gate-0"@))
            &&& json::tree_member(rows[0], "attempt"@) == Some(Tree::Unsigned(0))
            &&& json::tree_member(rows[0], "nested"@) == Some(
                Tree::Object(seq![("worker"@, Tree::Unsigned(0))]),
            )
        },
{
}

/// The first trace is read back: alone, with four spans of which one has no reference.
pub proof fn first_traces_are_read_back(body: Tree)
    ensures
        production_queries::trace_fault(body) is None <==> (json::tree_member(
            body,
            "data"@,
        ) matches Some(Tree::Array(traces)) && traces.len() == 1 && (json::tree_member(
            traces[0],
            "spans"@,
        ) matches Some(Tree::Array(spans)) && spans.len() == 4 && production_queries::root_count(
            spans,
        ) == 1)),
{
}

/// Each span without a reference is counted once.
pub proof fn roots_are_counted(spans: Seq<Tree>, more: Tree)
    ensures
        production_queries::root_count(Seq::empty()) == 0,
        production_queries::root_count(spans.push(more)) == production_queries::root_count(spans) + (
        match json::tree_member(more, "references"@) {
            Some(Tree::Array(list)) => if list.len() == 0 {
                1nat
            } else {
                0
            },
            _ => 1,
        }),
{
    assert(spans.push(more).drop_last() =~= spans);
}

/// A sentinel passes exactly if it is the first record of its signal.
pub proof fn sentinels_are_first_records(
    signal: Signal,
    base: nat,
    body: Seq<u8>,
    declared: Option<&str>,
)
    ensures
        production_queries::sentinel_fault(signal, base, body, declared) is None <==> match signal {
            Signal::Metrics => production_queries::rows_of(body) is Some
                && production_queries::metrics_sentinel(
                production_queries::rows_of(body)->Some_0,
                base,
            ),
            Signal::Logs => production_queries::rows_of(body) is Some
                && production_queries::logs_sentinel(production_queries::rows_of(body)->Some_0) && (
            declared is None || text::unsigned_value(declared->Some_0@) == Some(1nat)),
            Signal::Traces => documents::byte_tree(body) is Some && production_queries::trace_fault(
                documents::byte_tree(body)->Some_0,
            ) is None,
        },
{
}

/// A fault is due once its share of the soak has passed and not before; it stays due
/// until it is injected, and at the end every fault is.
pub proof fn faults_are_due_in_time(soak: Soak, elapsed: u64, later: u64)
    requires
        elapsed <= later,
    ensures
        soak.skip_faults ==> soak.due(elapsed) is None,
        soak.due(elapsed) is Some ==> soak.due(later) == soak.due(elapsed),
        !soak.skip_faults && soak.next_fault < 9 && elapsed >= soak.duration_ns ==> soak.due(
            elapsed,
        ) is Some,
        soak.duration_ns > 0 ==> soak.due(0) is None,
        soak.due(elapsed) matches Some(fault) ==> (soak::scheduled(
            soak.next_fault as int,
        ) matches Some((percent, next)) && next == fault && 100 * elapsed >= percent
            * soak.duration_ns),
{
    match soak::scheduled(soak.next_fault as int) {
        Some((percent, fault)) => {
            assert(12 <= percent <= 92);
            let p = soak.duration_ns * percent;
            assert(p == percent * soak.duration_ns) by (nonlinear_arith)
                requires
                    p == soak.duration_ns * percent,
            ;
            assert(p <= soak.duration_ns * 100) by (nonlinear_arith)
                requires
                    p == soak.duration_ns * percent,
                    percent <= 100,
            ;
            assert(soak.duration_ns > 0 ==> p > 0) by (nonlinear_arith)
                requires
                    p == soak.duration_ns * percent,
                    percent >= 12,
            ;
        },
        None => {},
    }
}

/// The schedule has every kind of fault: slow clients, a stop and a kill twice each, and
/// a backup of each signal.
pub proof fn every_fault_is_scheduled(signal: Signal)
    ensures
        exists|i: int|
            0 <= i < 9 && (#[trigger] soak::scheduled(i)) is Some && soak::scheduled(i)->Some_0.1
                == Fault::Backup(signal),
        exists|i: int, j: int|
            0 <= i < j < 9 && (#[trigger] soak::scheduled(i)) is Some && (#[trigger] soak::scheduled(
                j,
            )) is Some && soak::scheduled(i)->Some_0.1 == Fault::Graceful && soak::scheduled(
                j,
            )->Some_0.1 == Fault::Graceful,
        exists|i: int, j: int|
            0 <= i < j < 9 && (#[trigger] soak::scheduled(i)) is Some && (#[trigger] soak::scheduled(
                j,
            )) is Some && soak::scheduled(i)->Some_0.1 == Fault::Abrupt && soak::scheduled(
                j,
            )->Some_0.1 == Fault::Abrupt,
        soak::scheduled(9) is None,
{
    assert(soak::scheduled(1) is Some && soak::scheduled(3) is Some && soak::scheduled(5) is Some);
    assert(soak::scheduled(2) is Some && soak::scheduled(7) is Some);
    assert(soak::scheduled(4) is Some && soak::scheduled(8) is Some);
    match signal {
        Signal::Metrics => {
            assert(soak::scheduled(1)->Some_0.1 == Fault::Backup(signal));
        },
        Signal::Logs => {
            assert(soak::scheduled(3)->Some_0.1 == Fault::Backup(signal));
        },
        Signal::Traces => {
            assert(soak::scheduled(5)->Some_0.1 == Fault::Backup(signal));
        },
    }
}

/// Only an accepted batch is counted as accepted, and only a count of all that was
/// accepted makes it durable; another status or another count ends the probe with it.
pub proof fn probes_believe_what_they_see(probe: DiskProbe, event: DiskEvent)
    requires
        probe.well_formed(),
    ensures
        ({
            let (accepted, durable, rounds_left, next) = probe.after(event);
            let good: u16 = if probe.signal is Traces {
                200
            } else {
                204
            };
            let batch: int = match probe.signal {
                Signal::Metrics => 4_096,
                Signal::Logs => 2_048,
                Signal::Traces => 1_024,
            };
            &&& accepted != probe.accepted ==> probe.next is Ingest && event == DiskEvent::Status(
                good,
            ) && accepted == probe.accepted + batch && next is Flush
            &&& durable != probe.durable ==> probe.next is Count && event == DiskEvent::Counted(
                Some(probe.accepted),
            ) && durable == probe.accepted
            &&& rounds_left != probe.rounds_left ==> probe.next is Count && rounds_left
                == probe.rounds_left - 1 && next is Watch
            &&& probe.next is Ingest && (event matches DiskEvent::Status(s) && s != good) ==> next
                == DiskStep::End(DiskEnd::IngestStatus(event->Status_0))
            &&& probe.next is Flush && (event matches DiskEvent::Status(s) && s != 200) ==> next
                == DiskStep::End(DiskEnd::FlushStatus(event->Status_0))
            &&& probe.next is Flush && event == DiskEvent::Status(200) ==> next is Count
            &&& probe.next is Count && (event matches DiskEvent::Counted(c) && c != Some(
                probe.accepted,
            )) ==> next == DiskStep::End(DiskEnd::PrefixMismatch)
            &&& probe.next is Count && event == DiskEvent::Counted(Some(probe.accepted)) ==> next
                is Watch && durable == probe.accepted
            &&& probe.next is Watch && probe.rounds_left > 0 && event == DiskEvent::Running(true)
                ==> next is Ingest
            &&& probe.next is Watch && probe.rounds_left > 0 && event == DiskEvent::Running(false)
                ==> next == DiskStep::End(DiskEnd::ProcessExit)
            &&& next == DiskStep::End(DiskEnd::NoFault) && !(probe.next is End)
                ==> probe.rounds_left == 0
            &&& probe.next is End ==> next == probe.next
        }),
{
}

} // verus!
