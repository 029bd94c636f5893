//! What holds of every span of the trace fixtures.
use crate::bytes;
use crate::text;
use crate::trace_fixture::{self, BATCH_SPANS, HOUR_NS};
use vstd::prelude::*;

verus! {

/// A whole number of traces stands before every batch.
proof fn traces_fill_batches(batch: int, offset: int)
    requires
        0 <= batch,
        0 <= offset < BATCH_SPANS,
    ensures
        trace_fixture::global_at(batch, offset) % 8 == offset % 8,
        trace_fixture::global_at(batch, offset) / 8 == batch * 1_024 + offset / 8,
        trace_fixture::global_at(batch, offset) >= 0,
        trace_fixture::global_at(batch, offset) == batch * 8_192 + offset,
{
    assert(batch * BATCH_SPANS == 8 * (batch * 1_024)) by (nonlinear_arith)
        requires
            BATCH_SPANS == 8_192,
    ;
    assert(batch * 1_024 >= 0);
}

proof fn powers()
    ensures
        bytes::pow256(8) == 0x1_0000_0000_0000_0000,
        bytes::pow256(16) == 0x1_0000_0000_0000_0000_0000_0000_0000_0000,
{
    reveal_with_fuel(bytes::pow256, 17);
}

/// The spans of the fixture are numbered from one on, and eight of them make a trace:
/// the identifiers are these numbers.
pub proof fn spans_are_numbered(batch: int, offset: int)
    requires
        trace_fixture::batch_fits(batch),
        0 <= offset < BATCH_SPANS,
    ensures
        ({
            let span = trace_fixture::span_at(batch, offset);
            &&& span.span_id.len() == 8
            &&& span.trace_id.len() == 16
            &&& bytes::be_value(span.span_id) == batch * 8_192 + offset + 1
            &&& bytes::be_value(span.trace_id) == batch * 1_024 + offset / 8 + 1
            &&& span.parent is None <==> offset % 8 == 0
        }),
{
    reveal(trace_fixture::span_at);
    traces_fill_batches(batch, offset);
    powers();
    let global = trace_fixture::global_at(batch, offset) as nat;
    assert(batch * BATCH_SPANS + offset < batch * BATCH_SPANS + BATCH_SPANS);
    bytes::be_is_read_back(global + 1, 8);
    bytes::be_is_read_back(global / 8 + 1, 16);
}

/// The parent of a span is the first span of its trace: it has the same trace, no
/// parent of its own and stands up to seven places before; and no span is its own
/// parent.
pub proof fn parents_are_the_roots_of_their_traces(batch: int, offset: int)
    requires
        trace_fixture::batch_fits(batch),
        0 <= offset < BATCH_SPANS,
        offset % 8 != 0,
    ensures
        ({
            let span = trace_fixture::span_at(batch, offset);
            let root = trace_fixture::span_at(batch, offset - offset % 8);
            &&& span.parent == Some(root.span_id)
            &&& span.trace_id == root.trace_id
            &&& root.parent is None
            &&& span.parent != Some(span.span_id)
        }),
{
    spans_are_numbered(batch, offset);
    spans_are_numbered(batch, offset - offset % 8);
    reveal(trace_fixture::span_at);
    traces_fill_batches(batch, offset);
    traces_fill_batches(batch, offset - offset % 8);
}

proof fn trace_is_written(batch: int, offset: int)
    requires
        trace_fixture::batch_fits(batch),
        0 <= offset < BATCH_SPANS,
    ensures
        trace_fixture::span_at(batch, offset).trace_id == bytes::be(
            (batch * 1_024 + offset / 8 + 1) as nat,
            16,
        ),
{
    reveal(trace_fixture::span_at);
    traces_fill_batches(batch, offset);
}

/// Two spans have different identifiers, and they are of one trace exactly if they
/// stand in the same group of eight.
pub proof fn spans_are_told_apart(batch: int, offset: int, other_batch: int, other: int)
    requires
        trace_fixture::batch_fits(batch),
        0 <= offset < BATCH_SPANS,
        trace_fixture::batch_fits(other_batch),
        0 <= other < BATCH_SPANS,
    ensures
        trace_fixture::span_at(batch, offset).span_id == trace_fixture::span_at(
            other_batch,
            other,
        ).span_id <==> batch == other_batch && offset == other,
        trace_fixture::span_at(batch, offset).trace_id == trace_fixture::span_at(
            other_batch,
            other,
        ).trace_id <==> batch == other_batch && offset / 8 == other / 8,
{
    spans_are_numbered(batch, offset);
    spans_are_numbered(other_batch, other);
    trace_is_written(batch, offset);
    trace_is_written(other_batch, other);
    let a = batch * 1_024 + offset / 8;
    let b = other_batch * 1_024 + other / 8;
    assert(a == b ==> batch == other_batch && offset / 8 == other / 8);
}

/// Spans start a microsecond after each other, batches an hour; a span is short or
/// long, three and three in turn.
pub proof fn spans_start_in_order(batch: int, offset: int)
    requires
        trace_fixture::batch_fits(batch),
        0 <= offset < BATCH_SPANS,
    ensures
        trace_fixture::span_at(0, 0).start_ts == 1_699_999_200_000_000_000,
        trace_fixture::span_at(batch, offset).start_ts == 1_699_999_200_000_000_000 + batch
            * 3_600_000_000_000 + offset * 1_000,
        trace_fixture::span_at(batch, offset).duration_ns == 100_000 || trace_fixture::span_at(
            batch,
            offset,
        ).duration_ns == 900_000,
        trace_fixture::span_at(batch, 0).duration_ns == 100_000,
        offset % 3 != 0 ==> trace_fixture::span_at(batch, offset).duration_ns
            == trace_fixture::span_at(batch, offset - 1).duration_ns,
        offset % 3 == 0 && offset > 0 ==> trace_fixture::span_at(batch, offset).duration_ns
            != trace_fixture::span_at(batch, offset - 1).duration_ns,
{
    reveal(trace_fixture::span_at);
    assert(0 <= batch * HOUR_NS) by (nonlinear_arith)
        requires
            0 <= batch,
    ;
}

/// What the spans of a trace share, and what the root alone has.
pub proof fn roots_are_marked(batch: int, offset: int)
    requires
        trace_fixture::batch_fits(batch),
        0 <= offset < BATCH_SPANS,
    ensures
        ({
            let span = trace_fixture::span_at(batch, offset);
            let root = offset % 8 == 0;
            &&& span.service == "fallback-service"@
            &&& root ==> span.name == "GET /baseline"@ && span.trace_state == "bench=root"@
                && span.trace_flags == 0xffff_ffff
            &&& !root ==> span.name == "db.query"@ && span.trace_state == ""@ && span.trace_flags
                == 1 && span.links == "[]"@
        }),
{
    reveal(trace_fixture::span_at);
    traces_fill_batches(batch, offset);
}

/// Kinds repeat after five spans, statuses after three; a description comes with the
/// status of an error alone.
pub proof fn kinds_and_statuses_repeat(batch: int, offset: int)
    requires
        trace_fixture::batch_fits(batch),
        0 <= offset < BATCH_SPANS,
    ensures
        ({
            let span = trace_fixture::span_at(batch, offset);
            let n = batch * 8_192 + offset;
            &&& span.kind == n % 5
            &&& span.status == n % 3
            &&& span.status == 2 ==> span.status_description == "baseline failure 🚀"@
            &&& span.status != 2 ==> span.status_description == ""@
        }),
{
    reveal(trace_fixture::span_at);
    traces_fill_batches(batch, offset);
}

/// The counts of what was dropped repeat after four, three and two spans.
pub proof fn dropped_counts_repeat(batch: int, offset: int)
    requires
        trace_fixture::batch_fits(batch),
        0 <= offset < BATCH_SPANS,
    ensures
        ({
            let span = trace_fixture::span_at(batch, offset);
            let n = batch * 8_192 + offset;
            &&& span.dropped_attributes == n % 4 + 1
            &&& span.dropped_events == span.status + 2
            &&& span.dropped_links == n % 2 + 3
        }),
{
    reveal(trace_fixture::span_at);
    traces_fill_batches(batch, offset);
}

/// The texts of a span name its number: the attributes count it, the event happens
/// fifty microseconds after the start, and the link of a root leads to a span and a
/// trace that the fixture does not name otherwise.
pub proof fn texts_carry_the_number(batch: int, offset: int)
    requires
        trace_fixture::batch_fits(batch),
        0 <= offset < BATCH_SPANS,
    ensures
        ({
            let span = trace_fixture::span_at(batch, offset);
            let n = (batch * 8_192 + offset) as nat;
            let trace = (batch * 1_024 + offset / 8 + 1) as nat;
            &&& text::stands_at(
                span.attributes,
                text::decimal(n),
                "{\"array\":[1,\"two\",false,null],\"bool\":true,\"count\":"@.len() as int,
            )
            &&& text::ends_in(
                span.events,
                ",\"name\":\"exception\",\"timestamp\":"@ + text::signed_decimal(
                    span.start_ts + 50_000,
                ) + "}]"@,
            )
            &&& offset % 8 == 0 ==> text::ends_in(
                span.links,
                text::hexadecimal(trace + 2_000_000, 16) + "\",\"trace_id\":\""@
                    + text::hexadecimal(trace + 1_000_000, 32)
                    + "\",\"trace_state\":\"linked=yes\"}]"@,
            )
        }),
{
    reveal(trace_fixture::span_at);
    traces_fill_batches(batch, offset);
    assert(0 <= batch * HOUR_NS) by (nonlinear_arith)
        requires
            0 <= batch,
    ;
    let span = trace_fixture::span_at(batch, offset);
    let n = (batch * 8_192 + offset) as nat;
    let head = "{\"array\":[1,\"two\",false,null],\"bool\":true,\"count\":"@;
    assert(span.attributes.subrange(head.len() as int, (head.len() + text::decimal(n).len()) as int)
        =~= text::decimal(n));
    let tail = ",\"name\":\"exception\",\"timestamp\":"@ + text::signed_decimal(
        span.start_ts + 50_000,
    ) + "}]"@;
    assert(span.events.subrange(span.events.len() - tail.len(), span.events.len() as int) =~= tail);
    if offset % 8 == 0 {
        let trace = (batch * 1_024 + offset / 8 + 1) as nat;
        let end = text::hexadecimal(trace + 2_000_000, 16) + "\",\"trace_id\":\""@
            + text::hexadecimal(trace + 1_000_000, 32) + "\",\"trace_state\":\"linked=yes\"}]"@;
        assert(span.links.subrange(span.links.len() - end.len(), span.links.len() as int) =~= end);
    }
}

} // verus!
