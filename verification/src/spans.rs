//! Spans as fixtures write them, and the columns of a batch of spans.
use crate::bytes::{self, extend, framed_text, i64_le, low32, u32_le};
use crate::text::{self, chars_of};
use vstd::prelude::*;
use vstd::string::*;

verus! {

/// The `N` lowest bytes of a number, most significant first, with zeros in
/// front where the number has fewer bytes.
pub fn fixed_be<const N: usize>(number: u64) -> (result: [u8; N])
    ensures
        result@ == bytes::be(number as nat, N as nat),
{
    let mut result: [u8; N] = [0; N];
    let mut rest: u64 = number;
    let mut at: usize = N;
    assert(bytes::be(number as nat, N as nat) =~= bytes::be(rest as nat, at as nat)
        + result@.subrange(at as int, N as int));
    while at > 0
        invariant
            at <= N,
            result@.len() == N,
            bytes::be(number as nat, N as nat) == bytes::be(rest as nat, at as nat)
                + result@.subrange(at as int, N as int),
        decreases at,
    {
        let ghost before = result@;
        at -= 1;
        result[at] = (rest % 256) as u8;
        assert(bytes::be(rest as nat, (at + 1) as nat) + before.subrange(at + 1, N as int)
            =~= bytes::be((rest / 256) as nat, at as nat) + result@.subrange(at as int, N as int));
        rest = rest / 256;
    }
    assert(result@.subrange(0, N as int) =~= result@);
    assert(bytes::be(rest as nat, 0) + result@.subrange(0, N as int) =~= result@);
    result
}

/// Reading an identity of `w` bytes gives back the number it was made from,
/// up to the part that `w` bytes cannot hold.
pub proof fn identity_keeps_low_bits(number: nat, w: nat)
    ensures
        bytes::be_value(bytes::be(number, w)) == number % bytes::pow256(w),
        bytes::pow256(w) > 0,
    decreases w,
{
    if w > 0 {
        let p = bytes::pow256((w - 1) as nat);
        identity_keeps_low_bits(number / 256, (w - 1) as nat);
        assert(bytes::be(number, w).drop_last() =~= bytes::be(number / 256, (w - 1) as nat));
        let q = number / 256;
        assert(256 * (q % p) + number % 256 == number % (256 * p)) by {
            let k = q / p;
            let r = 256 * (q % p) + number % 256;
            assert(q == k * p + q % p) by (nonlinear_arith)
                requires
                    p > 0,
                    k == q / p,
            ;
            assert(0 <= q % p < p) by (nonlinear_arith)
                requires
                    p > 0,
            ;
            assert(number == 256 * q + number % 256);
            assert(k * (256 * p) == 256 * (k * p)) by (nonlinear_arith);
            assert(number == k * (256 * p) + r);
            vstd::arithmetic::div_mod::lemma_fundamental_div_mod_converse(
                number as int,
                (256 * p) as int,
                k as int,
                r as int,
            );
        }
    }
}

/// The value of a hexadecimal digit.
pub open spec fn hex_digit(c: char) -> Option<nat> {
    if '0' <= c <= '9' {
        Some((c as nat - '0' as nat) as nat)
    } else if 'a' <= c <= 'f' {
        Some((c as nat - 'a' as nat + 10) as nat)
    } else if 'A' <= c <= 'F' {
        Some((c as nat - 'A' as nat + 10) as nat)
    } else {
        None
    }
}

/// The byte that two characters write in hexadecimal. A plus sign may stand in
/// place of the first digit.
pub open spec fn hex_byte(a: char, b: char) -> Option<nat> {
    match hex_digit(b) {
        Some(low) => if a == '+' {
            Some(low)
        } else {
            match hex_digit(a) {
                Some(high) => Some(16 * high + low),
                None => None,
            }
        },
        None => None,
    }
}

/// Whether a text is `n` bytes in hexadecimal.
pub open spec fn is_hex(value: Seq<char>, n: nat) -> bool {
    &&& value.len() == 2 * n
    &&& forall|i: int| 0 <= i < n ==> #[trigger] byte_at(value, i) is Some
}

/// Byte `i` of a hexadecimal text.
pub open spec fn byte_at(value: Seq<char>, i: int) -> Option<nat> {
    hex_byte(value[2 * i], value[2 * i + 1])
}

fn digit_of(c: char) -> (d: u8)
    requires
        hex_digit(c) is Some,
    ensures
        d < 16,
        Some(d as nat) == hex_digit(c),
{
    if c <= '9' {
        (c as u32 - '0' as u32) as u8
    } else if c <= 'F' {
        (c as u32 - 'A' as u32 + 10) as u8
    } else {
        (c as u32 - 'a' as u32 + 10) as u8
    }
}

/// The bytes that a hexadecimal text writes.
pub fn hex<const N: usize>(value: &str) -> (output: [u8; N])
    requires
        is_hex(value@, N as nat),
    ensures
        forall|i: int| 0 <= i < N ==> Some(#[trigger] output@[i] as nat) == byte_at(value@, i),
{
    let chars = chars_of(value);
    let total: usize = chars.len();
    let mut output: [u8; N] = [0; N];
    let mut i: usize = 0;
    while i < N
        invariant
            i <= N,
            output@.len() == N,
            chars@ == value@,
            total == chars@.len(),
            is_hex(value@, N as nat),
            forall|j: int| 0 <= j < i ==> Some(#[trigger] output@[j] as nat) == byte_at(value@, j),
        decreases N - i,
    {
        assert(byte_at(value@, i as int) is Some);
        let a: char = chars[2 * i];
        let b: char = chars[2 * i + 1];
        let low: u8 = digit_of(b);
        if a == '+' {
            output[i] = low;
        } else {
            output[i] = digit_of(a) * 16 + low;
        }
        i += 1;
    }
    output
}

/// What a span holds, apart from how it is stored.
pub struct SpanModel {
    pub trace_id: Seq<u8>,
    pub span_id: Seq<u8>,
    pub parent: Option<Seq<u8>>,
    pub name: Seq<char>,
    pub service: Seq<char>,
    pub kind: u8,
    pub status: u8,
    pub start_ts: i64,
    pub duration_ns: i64,
    pub attributes: Seq<char>,
    pub status_description: Seq<char>,
    pub events: Seq<char>,
    pub resource: Seq<char>,
    pub scope: Seq<char>,
    pub links: Seq<char>,
    pub trace_state: Seq<char>,
    pub trace_flags: u32,
    pub dropped_attributes: u32,
    pub dropped_events: u32,
    pub dropped_links: u32,
}

/// A span of a fixture. Structured values are JSON texts.
#[derive(Debug)]
pub struct Span {
    pub trace_id: [u8; 16],
    pub span_id: [u8; 8],
    pub parent_span_id: Option<[u8; 8]>,
    pub name: &'static str,
    pub service: String,
    pub kind: u8,
    pub status: u8,
    pub start_ts: i64,
    pub duration_ns: i64,
    pub attributes: String,
    pub status_description: &'static str,
    pub events: String,
    pub resource: String,
    pub instrumentation_scope: String,
    pub links: String,
    pub trace_state: &'static str,
    pub trace_flags: u32,
    pub dropped_attributes_count: u32,
    pub dropped_events_count: u32,
    pub dropped_links_count: u32,
}

/// The bytes of an optional identity.
pub open spec fn identity_view(id: Option<[u8; 8]>) -> Option<Seq<u8>> {
    match id {
        Some(bytes) => Some(bytes@),
        None => None,
    }
}

impl View for Span {
    type V = SpanModel;

    open spec fn view(&self) -> SpanModel {
        SpanModel {
            trace_id: self.trace_id@,
            span_id: self.span_id@,
            parent: identity_view(self.parent_span_id),
            name: self.name@,
            service: self.service@,
            kind: self.kind,
            status: self.status,
            start_ts: self.start_ts,
            duration_ns: self.duration_ns,
            attributes: self.attributes@,
            status_description: self.status_description@,
            events: self.events@,
            resource: self.resource@,
            scope: self.instrumentation_scope@,
            links: self.links@,
            trace_state: self.trace_state@,
            trace_flags: self.trace_flags,
            dropped_attributes: self.dropped_attributes_count,
            dropped_events: self.dropped_events_count,
            dropped_links: self.dropped_links_count,
        }
    }
}

/// The spans of a list.
pub open spec fn models(spans: Seq<Span>) -> Seq<SpanModel> {
    spans.map_values(|s: Span| s@)
}

/// The columns of a span batch that hold one value of each span.
#[derive(Clone, Copy, Debug, PartialEq, Eq, Structural)]
pub enum Column {
    TraceId,
    SpanId,
    Parent,
    Name,
    Service,
    Kind,
    Status,
    Start,
    Duration,
    Attributes,
    Description,
    Events,
    Resource,
    Scope,
    Links,
    State,
}

/// The columns of a span batch that hold one 32-bit number of each span.
#[derive(Clone, Copy, Debug, PartialEq, Eq, Structural)]
pub enum Counter {
    Flags,
    DroppedAttributes,
    DroppedEvents,
    DroppedLinks,
}

/// A text as a framed value.
pub open spec fn text_frame(text: Seq<char>) -> Seq<u8> {
    bytes::frame(bytes::utf8(text))
}

/// Eight zero bytes: the parent of a root.
pub open spec fn no_parent() -> Seq<u8> {
    seq![0u8, 0u8, 0u8, 0u8, 0u8, 0u8, 0u8, 0u8]
}

/// What one span contributes to a column.
pub open spec fn cell(span: SpanModel, column: Column) -> Seq<u8> {
    match column {
        Column::TraceId => span.trace_id,
        Column::SpanId => span.span_id,
        Column::Parent => match span.parent {
            Some(id) => id,
            None => no_parent(),
        },
        Column::Name => text_frame(span.name),
        Column::Service => text_frame(span.service),
        Column::Kind => seq![span.kind],
        Column::Status => seq![span.status],
        Column::Start => bytes::le(bytes::pattern64(span.start_ts as int), 8),
        Column::Duration => bytes::le(bytes::pattern64(span.duration_ns as int), 8),
        Column::Attributes => text_frame(span.attributes),
        Column::Description => text_frame(span.status_description),
        Column::Events => text_frame(span.events),
        Column::Resource => text_frame(span.resource),
        Column::Scope => text_frame(span.scope),
        Column::Links => text_frame(span.links),
        Column::State => text_frame(span.trace_state),
    }
}

/// A column: what each span contributes, in the order of the spans.
pub open spec fn column_bytes(spans: Seq<SpanModel>, column: Column) -> Seq<u8>
    decreases spans.len(),
{
    if spans.len() == 0 {
        Seq::empty()
    } else {
        column_bytes(spans.drop_last(), column) + cell(spans.last(), column)
    }
}

fn push_cell(out: &mut Vec<u8>, span: &Span, column: Column)
    ensures
        final(out)@ == old(out)@ + cell(span@, column),
{
    match column {
        Column::TraceId => extend(out, &span.trace_id),
        Column::SpanId => extend(out, &span.span_id),
        Column::Parent => match &span.parent_span_id {
            Some(id) => extend(out, id),
            None => {
                let zero: [u8; 8] = [0, 0, 0, 0, 0, 0, 0, 0];
                extend(out, &zero);
                assert(zero@ =~= no_parent());
            },
        },
        Column::Name => framed_text(out, span.name),
        Column::Service => framed_text(out, &span.service),
        Column::Kind => {
            out.push(span.kind);
            assert(out@ =~= old(out)@ + seq![span.kind]);
        },
        Column::Status => {
            out.push(span.status);
            assert(out@ =~= old(out)@ + seq![span.status]);
        },
        Column::Start => i64_le(out, span.start_ts),
        Column::Duration => i64_le(out, span.duration_ns),
        Column::Attributes => framed_text(out, &span.attributes),
        Column::Description => framed_text(out, span.status_description),
        Column::Events => framed_text(out, &span.events),
        Column::Resource => framed_text(out, &span.resource),
        Column::Scope => framed_text(out, &span.instrumentation_scope),
        Column::Links => framed_text(out, &span.links),
        Column::State => framed_text(out, span.trace_state),
    }
}

/// Appends a column of a batch.
pub fn push_column(out: &mut Vec<u8>, spans: &[Span], column: Column)
    ensures
        final(out)@ == old(out)@ + column_bytes(models(spans@), column),
{
    let ghost all = models(spans@);
    let mut i: usize = 0;
    assert(all.take(0).len() == 0);
    assert(out@ =~= old(out)@ + column_bytes(all.take(0), column));
    while i < spans.len()
        invariant
            i <= spans@.len(),
            all == models(spans@),
            out@ == old(out)@ + column_bytes(all.take(i as int), column),
        decreases spans.len() - i,
    {
        push_cell(out, &spans[i], column);
        i += 1;
        assert(all.take(i as int).drop_last() =~= all.take(i - 1));
        assert(all.take(i as int).last() == spans@[i - 1]@);
        assert(out@ =~= old(out)@ + column_bytes(all.take(i as int), column));
    }
    assert(all.take(i as int) =~= all);
}

/// The numbers of a counter column.
pub open spec fn counter_of(span: SpanModel, counter: Counter) -> u32 {
    match counter {
        Counter::Flags => span.trace_flags,
        Counter::DroppedAttributes => span.dropped_attributes,
        Counter::DroppedEvents => span.dropped_events,
        Counter::DroppedLinks => span.dropped_links,
    }
}

/// The numbers of a counter column, one for each span.
pub open spec fn counters(spans: Seq<SpanModel>, counter: Counter) -> Seq<u32> {
    spans.map_values(|s: SpanModel| counter_of(s, counter))
}

/// Numbers in four bytes each, least significant byte first.
pub open spec fn u32_bytes(values: Seq<u32>) -> Seq<u8>
    decreases values.len(),
{
    if values.len() == 0 {
        Seq::empty()
    } else {
        u32_bytes(values.drop_last()) + bytes::le(values.last() as nat, 4)
    }
}

/// Appends a column of 32-bit numbers.
pub fn u32_column(output: &mut Vec<u8>, values: &[u32])
    ensures
        final(output)@ == old(output)@ + u32_bytes(values@),
{
    let mut i: usize = 0;
    assert(output@ =~= old(output)@ + u32_bytes(values@.take(0)));
    while i < values.len()
        invariant
            i <= values@.len(),
            output@ == old(output)@ + u32_bytes(values@.take(i as int)),
        decreases values.len() - i,
    {
        u32_le(output, values[i]);
        i += 1;
        assert(values@.take(i as int).drop_last() =~= values@.take(i - 1));
        assert(output@ =~= old(output)@ + u32_bytes(values@.take(i as int)));
    }
    assert(values@.take(i as int) =~= values@);
}

/// The numbers of a counter column of a list of spans.
pub fn counter_values(spans: &[Span], counter: Counter) -> (values: Vec<u32>)
    ensures
        values@ == counters(models(spans@), counter),
{
    let mut values: Vec<u32> = Vec::new();
    let mut i: usize = 0;
    while i < spans.len()
        invariant
            i <= spans@.len(),
            values@ =~= counters(models(spans@), counter).take(i as int),
        decreases spans.len() - i,
    {
        values.push(
            match counter {
                Counter::Flags => spans[i].trace_flags,
                Counter::DroppedAttributes => spans[i].dropped_attributes_count,
                Counter::DroppedEvents => spans[i].dropped_events_count,
                Counter::DroppedLinks => spans[i].dropped_links_count,
            },
        );
        i += 1;
    }
    values
}

/// The head of a batch: its version, three zeros and the number of spans.
pub open spec fn head(version: u8, count: nat) -> Seq<u8> {
    seq![version, 0u8, 0u8, 0u8] + bytes::le(count, 4)
}

/// The columns that every version has.
pub open spec fn common_columns(spans: Seq<SpanModel>) -> Seq<u8> {
    column_bytes(spans, Column::TraceId) + column_bytes(spans, Column::SpanId) + column_bytes(
        spans,
        Column::Parent,
    ) + column_bytes(spans, Column::Name) + column_bytes(spans, Column::Service) + column_bytes(
        spans,
        Column::Kind,
    ) + column_bytes(spans, Column::Status) + column_bytes(spans, Column::Start) + column_bytes(
        spans,
        Column::Duration,
    ) + column_bytes(spans, Column::Attributes)
}

/// The columns that rich versions have besides.
pub open spec fn rich_columns(spans: Seq<SpanModel>) -> Seq<u8> {
    column_bytes(spans, Column::Description) + column_bytes(spans, Column::Events) + column_bytes(
        spans,
        Column::Resource,
    ) + column_bytes(spans, Column::Scope)
}

/// A batch of spans. Version 2 is rich; any other version has the common
/// columns alone.
pub open spec fn batch_bytes(spans: Seq<SpanModel>, version: u8) -> Seq<u8> {
    if version == 2 {
        head(version, spans.len()) + common_columns(spans) + rich_columns(spans)
    } else {
        head(version, spans.len()) + common_columns(spans)
    }
}

/// Appends the head and the common columns.
pub fn push_common(out: &mut Vec<u8>, spans: &[Span], version: u8)
    ensures
        final(out)@ == old(out)@ + head(version, spans@.len()) + common_columns(models(spans@)),
{
    out.push(version);
    out.push(0);
    out.push(0);
    out.push(0);
    assert(out@ =~= old(out)@ + seq![version, 0u8, 0u8, 0u8]);
    u32_le(out, low32(spans.len()));
    proof {
        bytes::le_keeps_low_bits(spans@.len());
    }
    assert(out@ =~= old(out)@ + head(version, spans@.len()));
    let ghost start = out@;
    push_column(out, spans, Column::TraceId);
    push_column(out, spans, Column::SpanId);
    push_column(out, spans, Column::Parent);
    push_column(out, spans, Column::Name);
    push_column(out, spans, Column::Service);
    push_column(out, spans, Column::Kind);
    push_column(out, spans, Column::Status);
    push_column(out, spans, Column::Start);
    push_column(out, spans, Column::Duration);
    push_column(out, spans, Column::Attributes);
    assert(out@ =~= start + common_columns(models(spans@)));
}

/// Appends the rich columns.
pub fn push_rich(out: &mut Vec<u8>, spans: &[Span])
    ensures
        final(out)@ == old(out)@ + rich_columns(models(spans@)),
{
    push_column(out, spans, Column::Description);
    push_column(out, spans, Column::Events);
    push_column(out, spans, Column::Resource);
    push_column(out, spans, Column::Scope);
    assert(out@ =~= old(out)@ + rich_columns(models(spans@)));
}

/// A batch of spans of a version.
pub fn batch(spans: &[Span], version: u8) -> (out: Vec<u8>)
    ensures
        out@ == batch_bytes(models(spans@), version),
{
    let mut out: Vec<u8> = Vec::new();
    push_common(&mut out, spans, version);
    assert(models(spans@).len() == spans@.len());
    assert(out@ =~= head(version, spans@.len()) + common_columns(models(spans@)));
    if version == 2 {
        push_rich(&mut out, spans);
    }
    out
}

} // verus!
