//! The span fixture of the trace baseline: batches that fill one hour box each.
use crate::bytes::{self, framed_text};
use crate::json::copied;
use crate::spans::{
    self, counter_values, fixed_be, push_column, push_common, push_rich, u32_column, Column,
    Counter, Span, SpanModel,
};
use crate::text::{self, push_decimal, push_hex, push_signed};
use vstd::prelude::*;
use vstd::string::*;

verus! {

/// The table of the fixture.
pub const TABLE: &'static str = "traces";

/// The spans of one batch.
pub const BATCH_SPANS: usize = 8_192;

/// One hour in nanoseconds.
pub const HOUR_NS: i64 = 3_600_000_000_000;

/// The start of the fixture: a whole hour.
pub const BASE_NS: i64 = 1_699_999_200_000_000_000;

/// The duration of a span at an offset of its batch: three short, three long.
pub open spec fn duration_at(offset: int) -> i64 {
    if (offset / 3) % 2 == 0 {
        100_000i64
    } else {
        900_000i64
    }
}

/// The duration of a span at an offset of its batch.
pub fn fixture_duration(batch_offset: usize) -> (duration: i64)
    ensures
        duration == duration_at(batch_offset as int),
{
    if (batch_offset / 3) % 2 == 0 {
        100_000
    } else {
        900_000
    }
}

/// The durations of the first `n` spans of a batch.
pub open spec fn durations(n: nat) -> Seq<int> {
    Seq::new(n, |i: int| duration_at(i) as int)
}

/// How many of the first `n` spans are short.
pub open spec fn short_spans(n: nat) -> nat {
    (n / 6) * 3 + (if n % 6 < 3 {
        n % 6
    } else {
        3
    })
}

proof fn durations_are_counted(n: nat)
    ensures
        durations(n).to_multiset().count(100_000) == short_spans(n),
        durations(n).to_multiset().len() == n,
    decreases n,
{
    broadcast use vstd::seq_lib::group_to_multiset_ensures;
    broadcast use vstd::multiset::group_multiset_axioms;

    if n == 0 {
        assert(durations(0) =~= Seq::empty());
    } else {
        let m = (n - 1) as nat;
        durations_are_counted(m);
        let last = duration_at(m as int) as int;
        assert(durations(n) =~= durations(m).push(last));
        vstd::seq_lib::to_multiset_build(durations(m), last);
    }
}

proof fn two_values_split(s: Seq<int>, low: int, high: int)
    requires
        low < high,
        forall|i: int| 0 <= i < s.len() ==> s[i] == low || s[i] == high,
        forall|i: int, j: int| 0 <= i <= j < s.len() ==> s[i] <= s[j],
    ensures
        forall|i: int|
            0 <= i < s.len() ==> (#[trigger] s[i] == low <==> i < s.to_multiset().count(low)),
        s.to_multiset().count(low) <= s.len(),
    decreases s.len(),
{
    broadcast use vstd::seq_lib::group_to_multiset_ensures;
    broadcast use vstd::multiset::group_multiset_axioms;

    if s.len() > 0 {
        let front = s.drop_last();
        two_values_split(front, low, high);
        assert(s =~= front.push(s.last()));
        vstd::seq_lib::to_multiset_build(front, s.last());
        if s.last() == low {
            assert forall|i: int| 0 <= i < front.len() implies front[i] == low by {
                assert(s[i] <= s[s.len() - 1]);
            }
            if front.len() > 0 {
                assert(front[front.len() - 1] == low);
            }
        }
        assert forall|i: int| 0 <= i < s.len() implies (#[trigger] s[i] == low <==> i
            < s.to_multiset().count(low)) by {
            if i < front.len() {
                assert(front[i] == s[i]);
            }
        }
    }
}

/// Every batch has the same durations at the ranks that are reported: in
/// ascending order, places 4095, 7782 and 8109 hold 100, 900 and 900
/// microseconds.
pub proof fn batch_has_pinned_quantiles()
    ensures
        durations(BATCH_SPANS as nat).sort().len() == BATCH_SPANS,
        durations(BATCH_SPANS as nat).sort()[4_095] == 100_000,
        durations(BATCH_SPANS as nat).sort()[7_782] == 900_000,
        durations(BATCH_SPANS as nat).sort()[8_109] == 900_000,
{
    broadcast use vstd::seq_lib::group_to_multiset_ensures;
    broadcast use vstd::multiset::group_multiset_axioms;

    let all = durations(BATCH_SPANS as nat);
    let sorted = all.sort();
    crate::ranks::sorting_keeps_length(all);
    all.lemma_sort_ensures();
    durations_are_counted(BATCH_SPANS as nat);
    assert(short_spans(8_192) == 4_097);
    let leq = |x: int, y: int| x <= y;
    assert(vstd::relations::sorted_by(sorted, leq));
    assert forall|i: int, j: int| 0 <= i <= j < sorted.len() implies sorted[i] <= sorted[j] by {
        if i < j {
            assert(leq(sorted[i], sorted[j]));
        }
    }
    assert forall|i: int| 0 <= i < sorted.len() implies sorted[i] == 100_000 || sorted[i]
        == 900_000 by {
        assert(sorted.contains(sorted[i]));
        assert(sorted.to_multiset().contains(sorted[i]));
        assert(all.to_multiset().contains(sorted[i]));
        assert(all.contains(sorted[i]));
        let j = choose|j: int| 0 <= j < all.len() && all[j] == sorted[i];
        assert(all[j] == duration_at(j) as int);
    }
    two_values_split(sorted, 100_000, 900_000);
}

/// The start of a span.
pub open spec fn start_at(batch: int, offset: int) -> int {
    BASE_NS + batch * HOUR_NS + offset * 1_000
}

/// The place of a span in the whole fixture.
pub open spec fn global_at(batch: int, offset: int) -> int {
    batch * BATCH_SPANS + offset
}

/// A batch whose times and numbers fit the machine.
pub open spec fn batch_fits(batch: int) -> bool {
    &&& 0 <= batch
    &&& start_at(batch, BATCH_SPANS - 1) + 50_000 <= i64::MAX
    &&& global_at(batch, BATCH_SPANS as int) <= usize::MAX
}

/// The attributes of a span.
pub open spec fn attributes_at(global: nat) -> Seq<char> {
    "{\"array\":[1,\"two\",false,null],\"bool\":true,\"count\":"@ + text::decimal(global)
        + ",\"nested\":{\"ratio\":1.25,\"unicode\":\"空🔥\"},\"service.name\":\"bench\"}"@
}

/// The events of a span.
pub open spec fn events_at(global: nat, start: int) -> Seq<char> {
    "[{\"attributes\":{\"attempt\":"@ + text::decimal(global % 5)
        + ",\"fatal\":false},\"dropped_attributes_count\":"@ + text::decimal(global % 3)
        + ",\"name\":\"exception\",\"timestamp\":"@ + text::signed_decimal(start + 50_000) + "}]"@
}

/// The links of a span: a root links to a span of another trace.
pub open spec fn links_at(global: nat) -> Seq<char> {
    if global % 8 == 0 {
        "[{\"attributes\":{\"reason\":\"baseline\"},\"dropped_attributes_count\":6,\"flags\":257,\"span_id\":\""@
            + text::hexadecimal(global / 8 + 1 + 2_000_000, 16) + "\",\"trace_id\":\""@
            + text::hexadecimal(global / 8 + 1 + 1_000_000, 32)
            + "\",\"trace_state\":\"linked=yes\"}]"@
    } else {
        "[]"@
    }
}

/// The resource of every span.
pub const RESOURCE: &'static str =
    r#"{"deployment.environment":"baseline","replica":7,"service.name":"resource-fallback","service.version":"1.2.3"}"#;

/// The instrumentation scope of every span.
pub const SCOPE: &'static str =
    r#"{"attributes":{"debug":false},"name":"trace-baseline","version":"1.0.0"}"#;

/// A span of the fixture. Eight spans make a trace; the first is its root.
#[verifier::opaque]
pub open spec fn span_at(batch: int, offset: int) -> SpanModel {
    let global = global_at(batch, offset) as nat;
    let root = global % 8 == 0;
    SpanModel {
        trace_id: bytes::be(global / 8 + 1, 16),
        span_id: bytes::be(global + 1, 8),
        parent: if root {
            None
        } else {
            Some(bytes::be((global - global % 8 + 1) as nat, 8))
        },
        name: if root {
            "GET /baseline"@
        } else {
            "db.query"@
        },
        service: "fallback-service"@,
        kind: (global % 5) as u8,
        status: (global % 3) as u8,
        start_ts: start_at(batch, offset) as i64,
        duration_ns: duration_at(offset),
        attributes: attributes_at(global),
        status_description: if global % 3 == 2 {
            "baseline failure 🚀"@
        } else {
            ""@
        },
        events: events_at(global, start_at(batch, offset)),
        resource: RESOURCE@,
        scope: SCOPE@,
        links: links_at(global),
        trace_state: if root {
            "bench=root"@
        } else {
            ""@
        },
        trace_flags: if root {
            u32::MAX
        } else {
            1u32
        },
        dropped_attributes: (global % 4 + 1) as u32,
        dropped_events: (global % 3 + 2) as u32,
        dropped_links: (global % 2 + 3) as u32,
    }
}

fn attributes_text(global: usize) -> (text: String)
    ensures
        text@ == attributes_at(global as nat),
{
    let mut text = String::new();
    text.append("{\"array\":[1,\"two\",false,null],\"bool\":true,\"count\":");
    push_decimal(&mut text, global as u64);
    text.append(",\"nested\":{\"ratio\":1.25,\"unicode\":\"空🔥\"},\"service.name\":\"bench\"}");
    assert(text@ =~= attributes_at(global as nat));
    text
}

fn events_text(global: usize, start: i64) -> (text: String)
    requires
        start + 50_000 <= i64::MAX,
    ensures
        text@ == events_at(global as nat, start as int),
{
    let mut text = String::new();
    text.append("[{\"attributes\":{\"attempt\":");
    push_decimal(&mut text, (global % 5) as u64);
    text.append(",\"fatal\":false},\"dropped_attributes_count\":");
    push_decimal(&mut text, (global % 3) as u64);
    text.append(",\"name\":\"exception\",\"timestamp\":");
    push_signed(&mut text, start + 50_000);
    text.append("}]");
    assert(text@ =~= events_at(global as nat, start as int));
    text
}

fn links_text(global: usize) -> (text: String)
    ensures
        text@ == links_at(global as nat),
{
    let mut text = String::new();
    if global % 8 == 0 {
        let trace: u64 = global as u64 / 8 + 1;
        text.append(
            "[{\"attributes\":{\"reason\":\"baseline\"},\"dropped_attributes_count\":6,\"flags\":257,\"span_id\":\"",
        );
        push_hex(&mut text, trace + 2_000_000, 16);
        text.append("\",\"trace_id\":\"");
        push_hex(&mut text, trace + 1_000_000, 32);
        text.append("\",\"trace_state\":\"linked=yes\"}]");
    } else {
        text.append("[]");
    }
    assert(text@ =~= links_at(global as nat));
    text
}

proof fn offsets_fit(batch: int, offset: int)
    requires
        batch_fits(batch),
        0 <= offset < BATCH_SPANS,
    ensures
        0 <= batch * BATCH_SPANS,
        global_at(batch, offset) < usize::MAX,
        0 <= batch * HOUR_NS,
        start_at(batch, offset) + 50_000 <= i64::MAX,
        batch <= i64::MAX,
{
    assert(0 <= batch * BATCH_SPANS) by (nonlinear_arith)
        requires
            0 <= batch,
    ;
    assert(0 <= batch * HOUR_NS) by (nonlinear_arith)
        requires
            0 <= batch,
    ;
    assert(batch <= batch * HOUR_NS) by (nonlinear_arith)
        requires
            0 <= batch,
            HOUR_NS >= 1,
    ;
}

/// A span of the fixture.
pub fn fixture_span(batch: usize, offset: usize) -> (span: Span)
    requires
        batch_fits(batch as int),
        offset < BATCH_SPANS,
    ensures
        span@ == span_at(batch as int, offset as int),
{
    proof {
        reveal(span_at);
        offsets_fit(batch as int, offset as int);
    }
    let global: usize = batch * BATCH_SPANS + offset;
    let root: bool = global % 8 == 0;
    let start: i64 = BASE_NS + batch as i64 * HOUR_NS + offset as i64 * 1_000;
    let trace_id: [u8; 16] = fixed_be(global as u64 / 8 + 1);
    let span_id: [u8; 8] = fixed_be(global as u64 + 1);
    let parent: [u8; 8] = fixed_be((global - global % 8) as u64 + 1);
    Span {
        trace_id,
        span_id,
        parent_span_id: if root {
            None
        } else {
            Some(parent)
        },
        name: if root {
            "GET /baseline"
        } else {
            "db.query"
        },
        service: copied("fallback-service"),
        kind: (global % 5) as u8,
        status: (global % 3) as u8,
        start_ts: start,
        duration_ns: fixture_duration(offset),
        attributes: attributes_text(global),
        status_description: if global % 3 == 2 {
            "baseline failure 🚀"
        } else {
            ""
        },
        events: events_text(global, start),
        resource: copied(RESOURCE),
        instrumentation_scope: copied(SCOPE),
        links: links_text(global),
        trace_state: if root {
            "bench=root"
        } else {
            ""
        },
        trace_flags: if root {
            u32::MAX
        } else {
            1
        },
        dropped_attributes_count: (global % 4) as u32 + 1,
        dropped_events_count: (global % 3) as u32 + 2,
        dropped_links_count: (global % 2) as u32 + 3,
    }
}

/// The spans of a batch.
pub open spec fn batch_spans(batch: int) -> Seq<SpanModel> {
    Seq::new(BATCH_SPANS as nat, |i: int| span_at(batch, i))
}

/// `n` times the same framed text.
pub open spec fn framed_times(text: Seq<char>, n: nat) -> Seq<u8>
    decreases n,
{
    if n == 0 {
        Seq::empty()
    } else {
        framed_times(text, (n - 1) as nat) + spans::text_frame(text)
    }
}

/// `n` times the same number.
pub open spec fn same_numbers(value: u32, n: nat) -> Seq<u32> {
    Seq::new(n, |i: int| value)
}

/// The columns that a batch of the fixture has besides the rich ones.
pub open spec fn linked_columns(all: Seq<SpanModel>) -> Seq<u8> {
    spans::column_bytes(all, Column::Links) + spans::column_bytes(all, Column::State)
        + spans::u32_bytes(spans::counters(all, Counter::Flags)) + spans::u32_bytes(
        spans::counters(all, Counter::DroppedAttributes),
    ) + spans::u32_bytes(spans::counters(all, Counter::DroppedEvents)) + spans::u32_bytes(
        spans::counters(all, Counter::DroppedLinks),
    ) + framed_times("https://example.test/resource/1"@, all.len()) + framed_times(
        "https://example.test/scope/2"@,
        all.len(),
    ) + spans::u32_bytes(same_numbers(4, all.len())) + spans::u32_bytes(
        same_numbers(5, all.len()),
    )
}

/// A batch of the fixture, version 3.
pub open spec fn rich_batch_bytes(batch: int) -> Seq<u8> {
    let all = batch_spans(batch);
    spans::head(3, BATCH_SPANS as nat) + spans::common_columns(all) + spans::rich_columns(all)
        + linked_columns(all)
}

fn push_framed_times(out: &mut Vec<u8>, text: &str, n: usize)
    ensures
        final(out)@ == old(out)@ + framed_times(text@, n as nat),
{
    let mut i: usize = 0;
    assert(out@ =~= old(out)@ + framed_times(text@, 0));
    while i < n
        invariant
            i <= n,
            out@ == old(out)@ + framed_times(text@, i as nat),
        decreases n - i,
    {
        framed_text(out, text);
        i += 1;
        assert(out@ =~= old(out)@ + framed_times(text@, i as nat));
    }
}

fn push_same_numbers(out: &mut Vec<u8>, value: u32, n: usize)
    ensures
        final(out)@ == old(out)@ + spans::u32_bytes(same_numbers(value, n as nat)),
{
    let mut values: Vec<u32> = Vec::new();
    let mut i: usize = 0;
    while i < n
        invariant
            i <= n,
            values@ =~= same_numbers(value, i as nat),
        decreases n - i,
    {
        values.push(value);
        i += 1;
    }
    u32_column(out, &values);
}

/// The spans of a batch, in order.
pub fn fixture_spans(batch: usize) -> (list: Vec<Span>)
    requires
        batch_fits(batch as int),
    ensures
        spans::models(list@) == batch_spans(batch as int),
{
    let mut list: Vec<Span> = Vec::new();
    let mut offset: usize = 0;
    while offset < BATCH_SPANS
        invariant
            batch_fits(batch as int),
            offset <= BATCH_SPANS,
            list@.len() == offset,
            forall|i: int| 0 <= i < offset ==> (#[trigger] list@[i])@ == span_at(batch as int, i),
        decreases BATCH_SPANS - offset,
    {
        list.push(fixture_span(batch, offset));
        offset += 1;
    }
    assert(spans::models(list@) =~= batch_spans(batch as int));
    list
}

/// A batch of the fixture: its head and every column, in order.
pub fn rich_batch(batch_number: usize) -> (output: Vec<u8>)
    requires
        batch_fits(batch_number as int),
    ensures
        output@ == rich_batch_bytes(batch_number as int),
{
    let list = fixture_spans(batch_number);
    let ghost all = batch_spans(batch_number as int);
    assert(spans::models(list@).len() == list@.len());
    let mut output: Vec<u8> = Vec::new();
    push_common(&mut output, &list, 3);
    assert(output@ =~= spans::head(3, BATCH_SPANS as nat) + spans::common_columns(all));
    push_rich(&mut output, &list);
    let ghost before = output@;
    push_column(&mut output, &list, Column::Links);
    push_column(&mut output, &list, Column::State);
    u32_column(&mut output, &counter_values(&list, Counter::Flags));
    u32_column(&mut output, &counter_values(&list, Counter::DroppedAttributes));
    u32_column(&mut output, &counter_values(&list, Counter::DroppedEvents));
    u32_column(&mut output, &counter_values(&list, Counter::DroppedLinks));
    push_framed_times(&mut output, "https://example.test/resource/1", list.len());
    push_framed_times(&mut output, "https://example.test/scope/2", list.len());
    push_same_numbers(&mut output, 4, list.len());
    push_same_numbers(&mut output, 5, list.len());
    assert(output@ =~= before + linked_columns(all));
    output
}

/// The time of the last span of a fixture of some batches.
pub open spec fn last_start(batches: int) -> int {
    start_at(batches - 1, BATCH_SPANS - 1)
}

/// The number of spans, and the time of the last one, fit the machine.
pub open spec fn extent_fits(batches: int) -> bool {
    &&& batches * BATCH_SPANS <= usize::MAX
    &&& last_start(batches) <= i64::MAX
}

/// The number of spans, and the time of the last one, of a fixture of some
/// batches.
pub fn fixture_extent(batches: usize) -> (extent: (usize, i64))
    requires
        extent_fits(batches as int),
    ensures
        extent.0 == batches * BATCH_SPANS,
        extent.1 == last_start(batches as int),
{
    let spans: usize = batches * BATCH_SPANS;
    let stop: i64 = BASE_NS + (batches as i64 - 1) * HOUR_NS + (BATCH_SPANS as i64 - 1) * 1_000;
    (spans, stop)
}

/// Every batch lies in an hour box of its own: its first and last span start
/// within one hour that begins at a multiple of an hour.
pub proof fn batch_fills_one_hour(batch: int, offset: int)
    requires
        0 <= batch,
        0 <= offset < BATCH_SPANS,
    ensures
        start_at(batch, offset) / (HOUR_NS as int) == BASE_NS as int / HOUR_NS as int + batch,
        BASE_NS as int % (HOUR_NS as int) == 0,
{
    let base = BASE_NS as int / HOUR_NS as int;
    assert(BASE_NS as int == base * HOUR_NS);
    let rest = offset * 1_000;
    assert(start_at(batch, offset) == (base + batch) * HOUR_NS + rest) by (nonlinear_arith)
        requires
            BASE_NS as int == base * HOUR_NS,
            rest == offset * 1_000,
            start_at(batch, offset) == BASE_NS + batch * HOUR_NS + offset * 1_000,
    ;
    vstd::arithmetic::div_mod::lemma_fundamental_div_mod_converse(
        start_at(batch, offset),
        HOUR_NS as int,
        base + batch,
        rest,
    );
}

} // verus!
