//! What a reader finds in every batch of spans and log entries, and where.
use crate::blobs;
use crate::bytes;
use crate::rich_logs::{self, RichEntry};
use crate::spans::{self, Column, SpanModel};
use vstd::prelude::*;

verus! {

/// Identities have their widths: sixteen bytes for a trace, eight for a span and for its
/// parent.
pub open spec fn wide_enough(s: SpanModel) -> bool {
    &&& s.trace_id.len() == 16
    &&& s.span_id.len() == 8
    &&& s.parent matches Some(id) ==> id.len() == 8
}

/// Every span of a list has identities of the right width.
pub open spec fn all_wide_enough(list: Seq<SpanModel>) -> bool {
    forall|i: int| 0 <= i < list.len() ==> wide_enough(#[trigger] list[i])
}

proof fn cell_is_in_place(list: Seq<SpanModel>, column: Column, w: int, i: int)
    requires
        0 < w,
        forall|j: int|
            0 <= j < list.len() ==> spans::cell(#[trigger] list[j], column).len() == w,
    ensures
        spans::column_bytes(list, column).len() == w * list.len(),
        0 <= i < list.len() ==> 0 <= w * i && w * i + w <= w * list.len()
            && spans::column_bytes(list, column).subrange(w * i, w * i + w) == spans::cell(
            list[i],
            column,
        ),
    decreases list.len(),
{
    if list.len() > 0 {
        let n = list.len() as int;
        let before = list.drop_last();
        assert forall|j: int| 0 <= j < before.len() implies spans::cell(
            #[trigger] before[j],
            column,
        ).len() == w by {
            assert(before[j] == list[j]);
        }
        cell_is_in_place(before, column, w, i);
        assert(spans::cell(list[n - 1], column).len() == w);
        assert(w * n == w * (n - 1) + w) by (nonlinear_arith);
        let a = spans::column_bytes(before, column);
        let c = spans::cell(list.last(), column);
        if 0 <= i < n - 1 {
            assert(w * i + w <= w * (n - 1)) by (nonlinear_arith)
                requires
                    0 < w,
                    i < n - 1,
            ;
            assert((a + c).subrange(w * i, w * i + w) =~= a.subrange(w * i, w * i + w));
        } else if i == n - 1 {
            assert(w * i >= 0) by (nonlinear_arith)
                requires
                    0 < w,
                    0 <= i,
            ;
            assert((a + c).subrange(w * i, w * i + w) =~= c);
        }
    } else {
        assert(w * 0 == 0) by (nonlinear_arith);
    }
}

proof fn number_is_read_back(n: nat)
    requires
        n < 0x1_0000_0000,
    ensures
        bytes::le(n, 4).len() == 4,
        bytes::le_value(bytes::le(n, 4)) == n,
{
    assert(bytes::pow256(4) == 0x1_0000_0000) by {
        reveal_with_fuel(bytes::pow256, 5);
    }
    bytes::le_is_read_back(n, 4);
}

proof fn time_is_read_back(time: i64)
    ensures
        bytes::le(bytes::pattern64(time as int), 8).len() == 8,
        bytes::signed64(bytes::le_value(bytes::le(bytes::pattern64(time as int), 8))) == time,
{
    assert(bytes::pow256(8) == 0x1_0000_0000_0000_0000) by {
        reveal_with_fuel(bytes::pow256, 9);
    }
    bytes::signed_is_read_back(time);
    bytes::le_is_read_back(bytes::pattern64(time as int), 8);
}

/// A sequence holds the bytes of another from a place on.
spec fn holds_at(s: Seq<u8>, at: int, c: Seq<u8>) -> bool {
    &&& 0 <= at
    &&& at + c.len() <= s.len()
    &&& s.subrange(at, at + c.len()) == c
}

proof fn last_is_held(a: Seq<u8>, c: Seq<u8>)
    ensures
        holds_at(a + c, a.len() as int, c),
{
    assert((a + c).subrange(a.len() as int, a.len() + c.len() as int) =~= c);
}

proof fn held_stays(s: Seq<u8>, at: int, c: Seq<u8>, d: Seq<u8>)
    requires
        holds_at(s, at, c),
    ensures
        holds_at(s + d, at, c),
{
    assert((s + d).subrange(at, at + c.len()) =~= s.subrange(at, at + c.len()));
}

proof fn held_shifts(h: Seq<u8>, s: Seq<u8>, at: int, c: Seq<u8>)
    requires
        holds_at(s, at, c),
    ensures
        holds_at(h + s, h.len() + at, c),
{
    assert((h + s).subrange(h.len() + at, h.len() + at + c.len()) =~= s.subrange(
        at,
        at + c.len(),
    ));
}

proof fn part_is_held(s: Seq<u8>, at: int, c: Seq<u8>, from: int, to: int)
    requires
        holds_at(s, at, c),
        0 <= from <= to <= c.len(),
    ensures
        s.subrange(at + from, at + to) == c.subrange(from, to),
{
    assert(s.subrange(at + from, at + to) =~= s.subrange(at, at + c.len()).subrange(from, to));
}

proof fn column_stays(list: Seq<SpanModel>, version: u8, at: int, c: Seq<u8>)
    requires
        holds_at(spans::common_columns(list), at, c),
    ensures
        holds_at(spans::batch_bytes(list, version), 8 + at, c),
{
    bytes::encoded_width(list.len(), 4);
    let h = spans::head(version, list.len());
    assert(h.len() == 8);
    held_shifts(h, spans::common_columns(list), at, c);
    held_stays(h + spans::common_columns(list), 8 + at, c, spans::rich_columns(list));
}

proof fn identity_columns_are_held(list: Seq<SpanModel>, version: u8)
    ensures
        holds_at(
            spans::batch_bytes(list, version),
            8,
            spans::column_bytes(list, Column::TraceId),
        ),
        holds_at(
            spans::batch_bytes(list, version),
            (8 + spans::column_bytes(list, Column::TraceId).len()) as int,
            spans::column_bytes(list, Column::SpanId),
        ),
        holds_at(
            spans::batch_bytes(list, version),
            (8 + spans::column_bytes(list, Column::TraceId).len() + spans::column_bytes(list, Column::SpanId).len()) as int,
            spans::column_bytes(list, Column::Parent),
        ),
{
    let c0 = spans::column_bytes(list, Column::TraceId);
    let c1 = spans::column_bytes(list, Column::SpanId);
    let c2 = spans::column_bytes(list, Column::Parent);
    let c3 = spans::column_bytes(list, Column::Name);
    let c4 = spans::column_bytes(list, Column::Service);
    let c5 = spans::column_bytes(list, Column::Kind);
    let c6 = spans::column_bytes(list, Column::Status);
    let c7 = spans::column_bytes(list, Column::Start);
    let c8 = spans::column_bytes(list, Column::Duration);
    let c9 = spans::column_bytes(list, Column::Attributes);
    let p0 = c0;
    let p1 = p0 + c1;
    let p2 = p1 + c2;
    let p3 = p2 + c3;
    let p4 = p3 + c4;
    let p5 = p4 + c5;
    let p6 = p5 + c6;
    let p7 = p6 + c7;
    let p8 = p7 + c8;
    let p9 = p8 + c9;
    assert(p9 == spans::common_columns(list));
    assert(c0.subrange(0, c0.len() as int) =~= c0);
    let a0 = 0int;
    held_stays(p0, a0, c0, c1);
    held_stays(p1, a0, c0, c2);
    held_stays(p2, a0, c0, c3);
    held_stays(p3, a0, c0, c4);
    held_stays(p4, a0, c0, c5);
    held_stays(p5, a0, c0, c6);
    held_stays(p6, a0, c0, c7);
    held_stays(p7, a0, c0, c8);
    held_stays(p8, a0, c0, c9);
    column_stays(list, version, a0, c0);
    let a1 = p0.len() as int;
    last_is_held(p0, c1);
    held_stays(p1, a1, c1, c2);
    held_stays(p2, a1, c1, c3);
    held_stays(p3, a1, c1, c4);
    held_stays(p4, a1, c1, c5);
    held_stays(p5, a1, c1, c6);
    held_stays(p6, a1, c1, c7);
    held_stays(p7, a1, c1, c8);
    held_stays(p8, a1, c1, c9);
    column_stays(list, version, a1, c1);
    let a2 = p1.len() as int;
    last_is_held(p1, c2);
    held_stays(p2, a2, c2, c3);
    held_stays(p3, a2, c2, c4);
    held_stays(p4, a2, c2, c5);
    held_stays(p5, a2, c2, c6);
    held_stays(p6, a2, c2, c7);
    held_stays(p7, a2, c2, c8);
    held_stays(p8, a2, c2, c9);
    column_stays(list, version, a2, c2);
}

proof fn kind_columns_are_held(list: Seq<SpanModel>, version: u8)
    ensures
        holds_at(
            spans::batch_bytes(list, version),
            (8 + spans::column_bytes(list, Column::TraceId).len() + spans::column_bytes(list, Column::SpanId).len() + spans::column_bytes(list, Column::Parent).len() + spans::column_bytes(list, Column::Name).len() + spans::column_bytes(list, Column::Service).len()) as int,
            spans::column_bytes(list, Column::Kind),
        ),
        holds_at(
            spans::batch_bytes(list, version),
            (8 + spans::column_bytes(list, Column::TraceId).len() + spans::column_bytes(list, Column::SpanId).len() + spans::column_bytes(list, Column::Parent).len() + spans::column_bytes(list, Column::Name).len() + spans::column_bytes(list, Column::Service).len() + spans::column_bytes(list, Column::Kind).len()) as int,
            spans::column_bytes(list, Column::Status),
        ),
{
    let c0 = spans::column_bytes(list, Column::TraceId);
    let c1 = spans::column_bytes(list, Column::SpanId);
    let c2 = spans::column_bytes(list, Column::Parent);
    let c3 = spans::column_bytes(list, Column::Name);
    let c4 = spans::column_bytes(list, Column::Service);
    let c5 = spans::column_bytes(list, Column::Kind);
    let c6 = spans::column_bytes(list, Column::Status);
    let c7 = spans::column_bytes(list, Column::Start);
    let c8 = spans::column_bytes(list, Column::Duration);
    let c9 = spans::column_bytes(list, Column::Attributes);
    let p0 = c0;
    let p1 = p0 + c1;
    let p2 = p1 + c2;
    let p3 = p2 + c3;
    let p4 = p3 + c4;
    let p5 = p4 + c5;
    let p6 = p5 + c6;
    let p7 = p6 + c7;
    let p8 = p7 + c8;
    let p9 = p8 + c9;
    assert(p9 == spans::common_columns(list));
    let a5 = p4.len() as int;
    last_is_held(p4, c5);
    held_stays(p5, a5, c5, c6);
    held_stays(p6, a5, c5, c7);
    held_stays(p7, a5, c5, c8);
    held_stays(p8, a5, c5, c9);
    column_stays(list, version, a5, c5);
    let a6 = p5.len() as int;
    last_is_held(p5, c6);
    held_stays(p6, a6, c6, c7);
    held_stays(p7, a6, c6, c8);
    held_stays(p8, a6, c6, c9);
    column_stays(list, version, a6, c6);
}

proof fn time_columns_are_held(list: Seq<SpanModel>, version: u8)
    ensures
        holds_at(
            spans::batch_bytes(list, version),
            (8 + spans::column_bytes(list, Column::TraceId).len() + spans::column_bytes(list, Column::SpanId).len() + spans::column_bytes(list, Column::Parent).len() + spans::column_bytes(list, Column::Name).len() + spans::column_bytes(list, Column::Service).len() + spans::column_bytes(list, Column::Kind).len() + spans::column_bytes(list, Column::Status).len()) as int,
            spans::column_bytes(list, Column::Start),
        ),
        holds_at(
            spans::batch_bytes(list, version),
            (8 + spans::column_bytes(list, Column::TraceId).len() + spans::column_bytes(list, Column::SpanId).len() + spans::column_bytes(list, Column::Parent).len() + spans::column_bytes(list, Column::Name).len() + spans::column_bytes(list, Column::Service).len() + spans::column_bytes(list, Column::Kind).len() + spans::column_bytes(list, Column::Status).len() + spans::column_bytes(list, Column::Start).len()) as int,
            spans::column_bytes(list, Column::Duration),
        ),
{
    let c0 = spans::column_bytes(list, Column::TraceId);
    let c1 = spans::column_bytes(list, Column::SpanId);
    let c2 = spans::column_bytes(list, Column::Parent);
    let c3 = spans::column_bytes(list, Column::Name);
    let c4 = spans::column_bytes(list, Column::Service);
    let c5 = spans::column_bytes(list, Column::Kind);
    let c6 = spans::column_bytes(list, Column::Status);
    let c7 = spans::column_bytes(list, Column::Start);
    let c8 = spans::column_bytes(list, Column::Duration);
    let c9 = spans::column_bytes(list, Column::Attributes);
    let p0 = c0;
    let p1 = p0 + c1;
    let p2 = p1 + c2;
    let p3 = p2 + c3;
    let p4 = p3 + c4;
    let p5 = p4 + c5;
    let p6 = p5 + c6;
    let p7 = p6 + c7;
    let p8 = p7 + c8;
    let p9 = p8 + c9;
    assert(p9 == spans::common_columns(list));
    let a7 = p6.len() as int;
    last_is_held(p6, c7);
    held_stays(p7, a7, c7, c8);
    held_stays(p8, a7, c7, c9);
    column_stays(list, version, a7, c7);
    let a8 = p7.len() as int;
    last_is_held(p7, c8);
    held_stays(p8, a8, c8, c9);
    column_stays(list, version, a8, c8);
}

/// A batch begins with its version and three zeros; the next four bytes give the number
/// of its spans.
pub proof fn batches_begin_with_their_count(list: Seq<SpanModel>, version: u8)
    requires
        list.len() < 0x1_0000_0000,
    ensures
        spans::batch_bytes(list, version).len() >= 8,
        spans::batch_bytes(list, version)[0] == version,
        spans::batch_bytes(list, version)[1] == 0,
        spans::batch_bytes(list, version)[2] == 0,
        spans::batch_bytes(list, version)[3] == 0,
        bytes::le_value(spans::batch_bytes(list, version).subrange(4, 8)) == list.len(),
{
    number_is_read_back(list.len());
    let b = spans::batch_bytes(list, version);
    let c = bytes::le(list.len(), 4);
    assert(b.subrange(4, 8) =~= c);
}

proof fn widths_are_right(list: Seq<SpanModel>)
    requires
        all_wide_enough(list),
    ensures
        forall|j: int|
            0 <= j < list.len() ==> spans::cell(#[trigger] list[j], Column::TraceId).len() == 16,
        forall|j: int|
            0 <= j < list.len() ==> spans::cell(#[trigger] list[j], Column::SpanId).len() == 8,
        forall|j: int|
            0 <= j < list.len() ==> spans::cell(#[trigger] list[j], Column::Parent).len() == 8,
        forall|j: int|
            0 <= j < list.len() ==> spans::cell(#[trigger] list[j], Column::Start).len() == 8,
        forall|j: int|
            0 <= j < list.len() ==> spans::cell(#[trigger] list[j], Column::Duration).len() == 8,
        spans::column_bytes(list, Column::TraceId).len() == 16 * list.len(),
        spans::column_bytes(list, Column::SpanId).len() == 8 * list.len(),
        spans::column_bytes(list, Column::Parent).len() == 8 * list.len(),
        spans::column_bytes(list, Column::Kind).len() == list.len(),
        spans::column_bytes(list, Column::Status).len() == list.len(),
        spans::column_bytes(list, Column::Start).len() == 8 * list.len(),
        spans::column_bytes(list, Column::Duration).len() == 8 * list.len(),
{
    assert forall|j: int| 0 <= j < list.len() implies spans::cell(
        #[trigger] list[j],
        Column::TraceId,
    ).len() == 16 && spans::cell(list[j], Column::SpanId).len() == 8 && spans::cell(
        list[j],
        Column::Parent,
    ).len() == 8 && spans::cell(list[j], Column::Start).len() == 8 && spans::cell(
        list[j],
        Column::Duration,
    ).len() == 8 by {
        assert(wide_enough(list[j]));
        time_is_read_back(list[j].start_ts);
        time_is_read_back(list[j].duration_ns);
    }
    cell_is_in_place(list, Column::TraceId, 16, 0);
    cell_is_in_place(list, Column::SpanId, 8, 0);
    cell_is_in_place(list, Column::Parent, 8, 0);
    cell_is_in_place(list, Column::Kind, 1, 0);
    cell_is_in_place(list, Column::Status, 1, 0);
    cell_is_in_place(list, Column::Start, 8, 0);
    cell_is_in_place(list, Column::Duration, 8, 0);
}

proof fn cell_is_held(b: Seq<u8>, at: int, list: Seq<SpanModel>, column: Column, w: int, i: int)
    requires
        holds_at(b, at, spans::column_bytes(list, column)),
        0 < w,
        0 <= i < list.len(),
        forall|j: int|
            0 <= j < list.len() ==> spans::cell(#[trigger] list[j], column).len() == w,
    ensures
        at + w * i + w <= b.len(),
        b.subrange(at + w * i, at + w * i + w) == spans::cell(list[i], column),
{
    cell_is_in_place(list, column, w, i);
    part_is_held(b, at, spans::column_bytes(list, column), w * i, w * i + w);
}

/// The trace identity, the identity and the parent of a span, at the places that the
/// number of spans gives.
pub open spec fn identities_read(list: Seq<SpanModel>, b: Seq<u8>, i: int) -> bool {
    let n = list.len() as int;
    &&& b.len() >= 8 + 32 * n
    &&& b.subrange(8 + 16 * i, 8 + 16 * i + 16) == list[i].trace_id
    &&& b.subrange(8 + 16 * n + 8 * i, 8 + 16 * n + 8 * i + 8) == list[i].span_id
    &&& match list[i].parent {
        Some(id) => b.subrange(8 + 24 * n + 8 * i, 8 + 24 * n + 8 * i + 8) == id,
        None => b.subrange(8 + 24 * n + 8 * i, 8 + 24 * n + 8 * i + 8) == seq![
            0u8,
            0u8,
            0u8,
            0u8,
            0u8,
            0u8,
            0u8,
            0u8,
        ],
    }
}

proof fn held_identities_are_read(list: Seq<SpanModel>, b: Seq<u8>, i: int)
    requires
        all_wide_enough(list),
        0 <= i < list.len(),
        holds_at(b, 8, spans::column_bytes(list, Column::TraceId)),
        holds_at(
            b,
            8 + spans::column_bytes(list, Column::TraceId).len() as int,
            spans::column_bytes(list, Column::SpanId),
        ),
        holds_at(
            b,
            8 + spans::column_bytes(list, Column::TraceId).len() + spans::column_bytes(
                list,
                Column::SpanId,
            ).len() as int,
            spans::column_bytes(list, Column::Parent),
        ),
    ensures
        identities_read(list, b, i),
{
    let n = list.len() as int;
    widths_are_right(list);
    cell_is_held(b, 8, list, Column::TraceId, 16, i);
    cell_is_held(b, 8 + 16 * n, list, Column::SpanId, 8, i);
    cell_is_held(b, 8 + 24 * n, list, Column::Parent, 8, i);
}

/// Behind the eight bytes of the head stand the trace identities, sixteen bytes each, then
/// the identities of the spans and those of their parents, eight bytes each and zeros for
/// a root, all in the order of the spans.
pub proof fn identities_are_in_place(list: Seq<SpanModel>, version: u8, i: int)
    requires
        all_wide_enough(list),
        0 <= i < list.len(),
    ensures
        identities_read(list, spans::batch_bytes(list, version), i),
{
    identity_columns_are_held(list, version);
    held_identities_are_read(list, spans::batch_bytes(list, version), i);
}

/// The kind, the status, the start and the duration of a span, where the kinds begin at
/// `at`.
pub open spec fn times_read(list: Seq<SpanModel>, b: Seq<u8>, at: int, i: int) -> bool {
    let n = list.len() as int;
    &&& b.len() >= at + 18 * n
    &&& b[at + i] == list[i].kind
    &&& b[at + n + i] == list[i].status
    &&& bytes::signed64(bytes::le_value(b.subrange(at + 2 * n + 8 * i, at + 2 * n + 8 * i + 8)))
        == list[i].start_ts
    &&& bytes::signed64(bytes::le_value(b.subrange(at + 10 * n + 8 * i, at + 10 * n + 8 * i + 8)))
        == list[i].duration_ns
}

proof fn held_times_are_read(list: Seq<SpanModel>, b: Seq<u8>, at: int, i: int)
    requires
        all_wide_enough(list),
        0 <= i < list.len(),
        holds_at(b, at, spans::column_bytes(list, Column::Kind)),
        holds_at(b, at + list.len(), spans::column_bytes(list, Column::Status)),
        holds_at(b, at + 2 * list.len(), spans::column_bytes(list, Column::Start)),
        holds_at(b, at + 10 * list.len(), spans::column_bytes(list, Column::Duration)),
    ensures
        times_read(list, b, at, i),
{
    let n = list.len() as int;
    widths_are_right(list);
    cell_is_held(b, at, list, Column::Kind, 1, i);
    cell_is_held(b, at + n, list, Column::Status, 1, i);
    cell_is_held(b, at + 2 * n, list, Column::Start, 8, i);
    cell_is_held(b, at + 10 * n, list, Column::Duration, 8, i);
    assert(b.subrange(at + i, at + i + 1)[0] == b[at + i]);
    assert(b.subrange(at + n + i, at + n + i + 1)[0] == b[at + n + i]);
    time_is_read_back(list[i].start_ts);
    time_is_read_back(list[i].duration_ns);
}

/// Behind the identities, the names and the services stand the kinds and the statuses, a
/// byte each, then the times at which the spans start and how long they last, eight bytes
/// each, all in the order of the spans.
pub proof fn kinds_and_times_are_in_place(list: Seq<SpanModel>, version: u8, i: int)
    requires
        all_wide_enough(list),
        0 <= i < list.len(),
    ensures
        times_read(
            list,
            spans::batch_bytes(list, version),
            (8 + 32 * list.len() + spans::column_bytes(list, Column::Name).len()
                + spans::column_bytes(list, Column::Service).len()) as int,
            i,
        ),
{
    let at = 8 + 32 * list.len() + spans::column_bytes(list, Column::Name).len()
        + spans::column_bytes(list, Column::Service).len();
    widths_are_right(list);
    kind_columns_are_held(list, version);
    time_columns_are_held(list, version);
    held_times_are_read(list, spans::batch_bytes(list, version), at as int, i);
}

/// The text of a column that holds texts.
pub open spec fn text_of(s: SpanModel, column: Column) -> Option<Seq<char>> {
    match column {
        Column::Name => Some(s.name),
        Column::Service => Some(s.service),
        Column::Attributes => Some(s.attributes),
        Column::Description => Some(s.status_description),
        Column::Events => Some(s.events),
        Column::Resource => Some(s.resource),
        Column::Scope => Some(s.scope),
        Column::Links => Some(s.links),
        Column::State => Some(s.trace_state),
        _ => None,
    }
}

/// One more span adds to a column of texts, behind what was there, four bytes that give
/// the length of its text, then the text in UTF-8.
pub proof fn texts_are_framed(list: Seq<SpanModel>, span: SpanModel, column: Column)
    requires
        text_of(span, column) is Some,
        vstd::utf8::encode_utf8(text_of(span, column)->Some_0).len() < 0x1_0000_0000,
    ensures
        ({
            let before = spans::column_bytes(list, column);
            let after = spans::column_bytes(list.push(span), column);
            let text = vstd::utf8::encode_utf8(text_of(span, column)->Some_0);
            &&& after.len() == before.len() + 4 + text.len()
            &&& after.take(before.len() as int) == before
            &&& bytes::le_value(after.subrange(before.len() as int, (before.len() + 4) as int))
                == text.len()
            &&& after.skip((before.len() + 4) as int) == text
        }),
{
    let before = spans::column_bytes(list, column);
    let after = spans::column_bytes(list.push(span), column);
    let text = vstd::utf8::encode_utf8(text_of(span, column)->Some_0);
    assert(list.push(span).drop_last() =~= list);
    number_is_read_back(text.len());
    assert(after == before + (bytes::le(text.len(), 4) + text));
    assert(after.take(before.len() as int) =~= before);
    assert(after.subrange(before.len() as int, (before.len() + 4) as int) =~= bytes::le(text.len(), 4));
    assert(after.skip((before.len() + 4) as int) =~= text);
}

/// A rich batch holds, behind the very bytes of the columns that a plain batch of the
/// same spans has, one column each of descriptions, events, resources and scopes.
pub proof fn rich_batches_extend_plain_ones(list: Seq<SpanModel>, plain: u8)
    requires
        plain != 2,
    ensures
        ({
            let p = spans::batch_bytes(list, plain);
            let r = spans::batch_bytes(list, 2);
            let d = spans::column_bytes(list, Column::Description);
            let e = spans::column_bytes(list, Column::Events);
            let f = spans::column_bytes(list, Column::Resource);
            let g = spans::column_bytes(list, Column::Scope);
            &&& r.len() == p.len() + d.len() + e.len() + f.len() + g.len()
            &&& p.len() >= 1
            &&& r.subrange(1, p.len() as int) == p.skip(1)
            &&& r.subrange(p.len() as int, (p.len() + d.len()) as int) == d
            &&& r.subrange((p.len() + d.len()) as int, (p.len() + d.len() + e.len()) as int) == e
            &&& r.skip(r.len() - g.len()) == g
            &&& r.subrange(r.len() - g.len() - f.len(), r.len() - g.len()) == f
        }),
{
    let p = spans::batch_bytes(list, plain);
    let r = spans::batch_bytes(list, 2);
    let d = spans::column_bytes(list, Column::Description);
    let e = spans::column_bytes(list, Column::Events);
    let f = spans::column_bytes(list, Column::Resource);
    let g = spans::column_bytes(list, Column::Scope);
    bytes::encoded_width(list.len(), 4);
    assert(r.subrange(1, p.len() as int) =~= p.skip(1));
    assert(r.subrange(p.len() as int, (p.len() + d.len()) as int) =~= d);
    assert(r.subrange((p.len() + d.len()) as int, (p.len() + d.len() + e.len()) as int) =~= e);
    assert(r.skip(r.len() - g.len()) =~= g);
    assert(r.subrange(r.len() - g.len() - f.len(), r.len() - g.len()) =~= f);
}

proof fn number_is_in_place(values: Seq<u32>, i: int)
    ensures
        spans::u32_bytes(values).len() == 4 * values.len(),
        0 <= i < values.len() ==> bytes::le_value(
            spans::u32_bytes(values).subrange(4 * i, 4 * i + 4),
        ) == values[i],
    decreases values.len(),
{
    if values.len() > 0 {
        let n = values.len() as int;
        number_is_in_place(values.drop_last(), i);
        number_is_read_back(values.last() as nat);
        let a = spans::u32_bytes(values.drop_last());
        let b = spans::u32_bytes(values);
        if 0 <= i < n - 1 {
            assert(b.subrange(4 * i, 4 * i + 4) =~= a.subrange(4 * i, 4 * i + 4));
        } else if i == n - 1 {
            assert(b.subrange(4 * i, 4 * i + 4) =~= bytes::le(values.last() as nat, 4));
        }
    }
}

/// A column of numbers gives each number in the four bytes of its place.
pub proof fn numbers_are_in_place(values: Seq<u32>, i: int)
    requires
        0 <= i < values.len(),
    ensures
        spans::u32_bytes(values).len() == 4 * values.len(),
        bytes::le_value(spans::u32_bytes(values).subrange(4 * i, 4 * i + 4)) == values[i],
{
    number_is_in_place(values, i);
}

/// A counter column holds that counter of every span, in the order of the spans.
pub proof fn counters_are_those_of_their_spans(list: Seq<SpanModel>, i: int)
    requires
        0 <= i < list.len(),
    ensures
        spans::counters(list, spans::Counter::Flags).len() == list.len(),
        spans::counters(list, spans::Counter::Flags)[i] == list[i].trace_flags,
        spans::counters(list, spans::Counter::DroppedAttributes)[i] == list[i].dropped_attributes,
        spans::counters(list, spans::Counter::DroppedEvents)[i] == list[i].dropped_events,
        spans::counters(list, spans::Counter::DroppedLinks)[i] == list[i].dropped_links,
{
}

proof fn batch_time_is_in_place(start: int, step: int, count: nat, i: int)
    requires
        0 <= i < count,
        forall|k: int|
            0 <= k < count ==> i64::MIN <= start + #[trigger] (k * step) <= i64::MAX,
    ensures
        blobs::batch_times(start, step, count).len() == 8 * count,
        bytes::signed64(
            bytes::le_value(blobs::batch_times(start, step, count).subrange(8 * i, 8 * i + 8)),
        ) == start + i * step,
    decreases count,
{
    let last = count - 1;
    let a = blobs::batch_times(start, step, (count - 1) as nat);
    let b = blobs::batch_times(start, step, count);
    assert(i64::MIN <= start + last * step <= i64::MAX);
    time_is_read_back((start + last * step) as i64);
    let c = bytes::le(bytes::pattern64(start + last * step), 8);
    assert(b == a + c);
    if last > 0 {
        batch_time_is_in_place(start, step, (count - 1) as nat, if i < last { i } else { 0 });
    }
    if i < last {
        assert(b.subrange(8 * i, 8 * i + 8) =~= a.subrange(8 * i, 8 * i + 8));
    } else {
        assert(b.subrange(8 * i, 8 * i + 8) =~= c);
    }
}

/// A log batch gives its version, the number of its entries, the time of each, a step
/// behind the one before it, and for each the informational level.
pub proof fn log_batches_are_read_back(start: int, count: nat, step: int, i: int)
    requires
        0 <= i < count < 0x1_0000_0000,
        forall|k: int|
            0 <= k < count ==> i64::MIN <= start + #[trigger] (k * step) <= i64::MAX,
    ensures
        ({
            let b = blobs::log_batch_bytes(start, count, step);
            &&& b.len() >= 8 + 9 * count
            &&& b[0] == 1 && b[1] == 0 && b[2] == 0 && b[3] == 0
            &&& bytes::le_value(b.subrange(4, 8)) == count
            &&& bytes::signed64(bytes::le_value(b.subrange(8 + 8 * i, 16 + 8 * i))) == start + i
                * step
            &&& b[8 + 8 * count + i] == 1
        }),
{
    let b = blobs::log_batch_bytes(start, count, step);
    number_is_read_back(count);
    batch_time_is_in_place(start, step, count, i);
    let t = blobs::batch_times(start, step, count);
    assert(b.subrange(4, 8) =~= bytes::le(count, 4));
    assert(b.subrange(8 + 8 * i, 16 + 8 * i) =~= t.subrange(8 * i, 8 * i + 8));
}

proof fn entry_time_is_in_place(entries: Seq<RichEntry>, i: int)
    ensures
        rich_logs::times(entries).len() == 8 * entries.len(),
        0 <= i < entries.len() ==> bytes::signed64(
            bytes::le_value(rich_logs::times(entries).subrange(8 * i, 8 * i + 8)),
        ) == entries[i].timestamp,
    decreases entries.len(),
{
    if entries.len() > 0 {
        let n = entries.len() as int;
        entry_time_is_in_place(entries.drop_last(), i);
        time_is_read_back(entries.last().timestamp);
        let a = rich_logs::times(entries.drop_last());
        let b = rich_logs::times(entries);
        if 0 <= i < n - 1 {
            assert(b.subrange(8 * i, 8 * i + 8) =~= a.subrange(8 * i, 8 * i + 8));
        } else if i == n - 1 {
            assert(b.subrange(8 * i, 8 * i + 8) =~= bytes::le(
                bytes::pattern64(entries.last().timestamp as int),
                8,
            ));
        }
    }
}

/// A rich log batch is of version two; it gives the number of its entries and the time of
/// each.
pub proof fn rich_log_batches_are_read_back(entries: Seq<RichEntry>, i: int)
    requires
        0 <= i < entries.len() < 0x1_0000_0000,
    ensures
        ({
            let b = rich_logs::rich_batch_bytes(entries);
            &&& b.len() >= 8 + 8 * entries.len()
            &&& b[0] == 2 && b[1] == 0 && b[2] == 0 && b[3] == 0
            &&& bytes::le_value(b.subrange(4, 8)) == entries.len()
            &&& bytes::signed64(bytes::le_value(b.subrange(8 + 8 * i, 16 + 8 * i)))
                == entries[i].timestamp
        }),
{
    let b = rich_logs::rich_batch_bytes(entries);
    number_is_read_back(entries.len());
    entry_time_is_in_place(entries, i);
    let t = rich_logs::times(entries);
    assert(b.subrange(4, 8) =~= bytes::le(entries.len(), 4));
    assert(b.subrange(8 + 8 * i, 16 + 8 * i) =~= t.subrange(8 * i, 8 * i + 8));
}

/// A rich log batch of one entry ends with its level, its message and its metadata, each
/// preceded by its length in four bytes.
pub proof fn entries_carry_their_texts(entry: RichEntry)
    requires
        vstd::utf8::encode_utf8(entry.level@).len() < 0x1_0000_0000,
        vstd::utf8::encode_utf8(entry.message@).len() < 0x1_0000_0000,
        vstd::utf8::encode_utf8(entry.metadata@).len() < 0x1_0000_0000,
    ensures
        ({
            let b = rich_logs::rich_batch_bytes(seq![entry]);
            let l = vstd::utf8::encode_utf8(entry.level@);
            let m = vstd::utf8::encode_utf8(entry.message@);
            let d = vstd::utf8::encode_utf8(entry.metadata@);
            let x = l.len() as int;
            let y = m.len() as int;
            &&& b.len() == 28 + x + y + d.len()
            &&& bytes::le_value(b.subrange(16, 20)) == l.len()
            &&& b.subrange(20, 20 + x) == l
            &&& bytes::le_value(b.subrange(20 + x, 24 + x)) == m.len()
            &&& b.subrange(24 + x, 24 + x + y) == m
            &&& bytes::le_value(b.subrange(24 + x + y, 28 + x + y))
                == d.len()
            &&& b.skip(28 + x + y) == d
        }),
{
    let b = rich_logs::rich_batch_bytes(seq![entry]);
    let l = vstd::utf8::encode_utf8(entry.level@);
    let m = vstd::utf8::encode_utf8(entry.message@);
    let d = vstd::utf8::encode_utf8(entry.metadata@);
    let x = l.len() as int;
    let y = m.len() as int;
    let one = seq![entry];
    number_is_read_back(1);
    number_is_read_back(l.len());
    number_is_read_back(m.len());
    number_is_read_back(d.len());
    entry_time_is_in_place(one, 0);
    let none = one.drop_last();
    assert(none.len() == 0);
    assert(one.last() == entry);
    reveal_with_fuel(rich_logs::levels, 2);
    reveal_with_fuel(rich_logs::messages, 2);
    reveal_with_fuel(rich_logs::metadata, 2);
    assert(rich_logs::levels(one) =~= bytes::le(l.len(), 4) + l);
    assert(rich_logs::messages(one) =~= bytes::le(m.len(), 4) + m);
    assert(rich_logs::metadata(one) =~= bytes::le(d.len(), 4) + d);
    assert(b.subrange(16, 20) =~= bytes::le(l.len(), 4));
    assert(b.subrange(20, 20 + x) =~= l);
    assert(b.subrange(20 + x, 24 + x) =~= bytes::le(m.len(), 4));
    assert(b.subrange(24 + x, 24 + x + y) =~= m);
    assert(b.subrange(24 + x + y, 28 + x + y) =~= bytes::le(d.len(), 4));
    assert(b.skip(28 + x + y) =~= d);
}

/// One more entry adds its texts behind those of the others, each preceded by its length
/// in four bytes.
pub proof fn entry_texts_are_framed(entries: Seq<RichEntry>, entry: RichEntry)
    ensures
        rich_logs::levels(entries.push(entry)) == rich_logs::levels(entries) + bytes::le(
            vstd::utf8::encode_utf8(entry.level@).len(),
            4,
        ) + vstd::utf8::encode_utf8(entry.level@),
        rich_logs::messages(entries.push(entry)) == rich_logs::messages(entries) + bytes::le(
            vstd::utf8::encode_utf8(entry.message@).len(),
            4,
        ) + vstd::utf8::encode_utf8(entry.message@),
        rich_logs::metadata(entries.push(entry)) == rich_logs::metadata(entries) + bytes::le(
            vstd::utf8::encode_utf8(entry.metadata@).len(),
            4,
        ) + vstd::utf8::encode_utf8(entry.metadata@),
{
    assert(entries.push(entry).drop_last() =~= entries);
}

} // verus!
