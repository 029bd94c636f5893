//! The bytes and the spans that the suites put in, and the spans that they read
//! back.
use crate::blobs;
use crate::blobs::log_batch;
use crate::bytes;
use crate::bytes::{extend_text, pattern_of, push_be};
use crate::gate::{Blob, SpanName};
use crate::json;
use crate::json::{copied, item, member, same_json, text_is, Json};
use crate::order;
use crate::order::put_pairs;
use crate::rich_logs;
use crate::rich_logs::{flat_batch, rich_batch, rich_entries, RichEntry, FIRST_TIME};
use crate::rich_traces;
use crate::rich_traces::{contract_fixture, percentile_cases, percentile_span, rich_span};
use crate::spans;
use crate::spans::{batch, Span, SpanModel};
use crate::text::same_text;
use crate::values::same_bytes;
use vstd::prelude::*;
use vstd::string::*;

verus! {

/// The attributes of the span as earlier versions wrote it.
pub const LEGACY_ATTRIBUTES: &'static str = "{\"legacy\":\"string-only\"}";

/// A span with other attributes.
pub open spec fn with_attributes(span: SpanModel, attributes: Seq<char>) -> SpanModel {
    SpanModel { attributes, ..span }
}

/// The spans of the first `n` percentile cases, their identities from a number on.
pub open spec fn percentile_models(n: int) -> Seq<SpanModel>
    decreases n,
{
    if n <= 0 {
        Seq::empty()
    } else {
        let before = percentile_models(n - 1);
        let values = rich_traces::case_values(n - 1);
        before + Seq::new(
            values.len(),
            |i: int|
                rich_traces::percentile_span_of(
                    (100_000 + before.len() + i) as nat,
                    rich_traces::case_service(n - 1)@,
                    i,
                    values[i],
                ),
        )
    }
}

/// How many spans go in at once.
pub const CHUNK: usize = 8192;

/// A part of a list, so many spans each.
pub open spec fn part(list: Seq<SpanModel>, i: int) -> Seq<SpanModel> {
    let from = i * CHUNK;
    if from >= list.len() {
        Seq::empty()
    } else if from + CHUNK <= list.len() {
        list.subrange(from, from + CHUNK)
    } else {
        list.subrange(from, list.len() as int)
    }
}

/// The spans that leave a block one short.
pub open spec fn threshold_models() -> Seq<SpanModel> {
    Seq::new(8191, |i: int| rich_traces::rich_span_of((10_000 + i) as nat, None))
}

/// The two spans of the lifecycle.
pub open spec fn lifecycle_models() -> Seq<SpanModel> {
    seq![
        rich_traces::rich_span_of(40_001, Some(100i64)),
        rich_traces::rich_span_of(40_002, Some(200i64)),
    ]
}

/// The entries are those of the rich log fixture.
pub open spec fn is_rich_fixture(entries: Seq<RichEntry>) -> bool {
    &&& entries.len() == 3
    &&& forall|i: int|
        0 <= i < 3 ==> {
            let e = #[trigger] entries[i];
            let m = rich_logs::entry_at(i);
            e.timestamp == m.timestamp && e.level@ == m.level@ && e.message@ == m.message@
                && e.metadata@ == m.metadata@
        }
}

/// The bytes are those that a statement needs.
pub open spec fn is_made(blob: Blob, made: Seq<u8>) -> bool {
    match blob {
        Blob::Cycle(c) => made == blobs::log_batch_bytes(c * 256, 256, 1),
        Blob::Distant(c) => made == blobs::log_batch_bytes(c * 3_600_001, 256, 1),
        Blob::RichLogs => exists|entries: Seq<RichEntry>|
            is_rich_fixture(entries) && made == #[trigger] rich_logs::rich_batch_bytes(entries),
        Blob::FlatLogs => made == rich_logs::flat_batch_bytes(FIRST_TIME + 2),
        Blob::Contract => made == spans::batch_bytes(rich_traces::contract_spans(), 2),
        Blob::ContractShort => made == spans::batch_bytes(
            rich_traces::contract_spans(),
            2,
        ).drop_last(),
        Blob::Percentiles(i) => made == spans::batch_bytes(
            part(percentile_models(5), i as int),
            2,
        ),
        Blob::Legacy => made == spans::batch_bytes(
            seq![with_attributes(rich_traces::rich_span_of(90, None), LEGACY_ATTRIBUTES@)],
            1,
        ),
        Blob::Threshold => made == spans::batch_bytes(threshold_models(), 2),
        Blob::Rich(number) => made == spans::batch_bytes(
            seq![rich_traces::rich_span_of(number as nat, None)],
            2,
        ),
        Blob::Lifecycle => made == spans::batch_bytes(lifecycle_models(), 2),
    }
}

fn add_case(
    list: &mut Vec<Span>,
    service: &'static str,
    values: &Vec<i64>,
    Ghost(case): Ghost<int>,
)
    requires
        old(list)@.len() <= 100_000,
        values@.len() <= 100_000,
        service@ == rich_traces::case_service(case)@,
        values@ == rich_traces::case_values(case),
        case >= 0,
        spans::models(old(list)@) == percentile_models(case),
    ensures
        spans::models(final(list)@) == percentile_models(case + 1),
        final(list)@.len() == old(list)@.len() + values@.len(),
{
    let first: u64 = 100_000 + list.len() as u64;
    let ghost before = percentile_models(case);
    let ghost fresh = Seq::new(
        values@.len(),
        |i: int|
            rich_traces::percentile_span_of(
                (100_000 + before.len() + i) as nat,
                rich_traces::case_service(case)@,
                i,
                values@[i],
            ),
    );
    let mut i: usize = 0;
    assert(spans::models(list@) =~= before + fresh.take(0));
    while i < values.len()
        invariant
            i <= values@.len() <= 100_000,
            list@.len() == old(list)@.len() + i,
            old(list)@.len() <= 100_000,
            before.len() == old(list)@.len(),
            first == 100_000 + old(list)@.len(),
            service@ == rich_traces::case_service(case)@,
            fresh == Seq::new(
                values@.len(),
                |i: int|
                    rich_traces::percentile_span_of(
                        (100_000 + before.len() + i) as nat,
                        rich_traces::case_service(case)@,
                        i,
                        values@[i],
                    ),
            ),
            spans::models(list@) == before + fresh.take(i as int),
        decreases values.len() - i,
    {
        let span = percentile_span(first + i as u64, service, i, values[i]);
        let ghost earlier = list@;
        list.push(span);
        i += 1;
        assert(spans::models(list@) =~= spans::models(earlier).push(span@));
        assert(span@ == fresh[i - 1]);
        assert(fresh.take(i as int) =~= fresh.take(i - 1).push(fresh[i - 1]));
        assert(spans::models(list@) =~= before + fresh.take(i as int));
    }
    assert(fresh.take(i as int) =~= fresh);
    assert(percentile_models(case + 1) == before + fresh);
}

/// The spans of all percentile cases, one behind the other.
pub fn percentile_spans() -> (list: Vec<Span>)
    ensures
        spans::models(list@) == percentile_models(5),
{
    let cases = percentile_cases();
    let mut list: Vec<Span> = Vec::new();
    assert(spans::models(list@) =~= percentile_models(0));
    assert(rich_traces::case_values(0).len() <= 20_000);
    assert(rich_traces::case_values(1).len() <= 20_000);
    assert(rich_traces::case_values(2).len() <= 20_000);
    assert(rich_traces::case_values(3).len() <= 20_000);
    assert(rich_traces::case_values(4).len() <= 20_000);
    add_case(&mut list, cases[0].service, &cases[0].values, Ghost(0));
    add_case(&mut list, cases[1].service, &cases[1].values, Ghost(1));
    add_case(&mut list, cases[2].service, &cases[2].values, Ghost(2));
    add_case(&mut list, cases[3].service, &cases[3].values, Ghost(3));
    add_case(&mut list, cases[4].service, &cases[4].values, Ghost(4));
    list
}

fn percentile_blob(i: u8) -> (made: Vec<u8>)
    ensures
        made@ == spans::batch_bytes(part(percentile_models(5), i as int), 2),
{
    let list = percentile_spans();
    let all: &[Span] = list.as_slice();
    let from: usize = i as usize * CHUNK;
    let mut chosen: &[Span] = vstd::slice::slice_subrange(all, 0, 0);
    proof {
        assert(spans::models(chosen@) =~= Seq::empty());
    }
    if from < list.len() {
        let to = if list.len() - from < CHUNK {
            list.len()
        } else {
            from + CHUNK
        };
        chosen = vstd::slice::slice_subrange(all, from, to);
        proof {
            assert(spans::models(chosen@) =~= spans::models(list@).subrange(
                from as int,
                to as int,
            ));
        }
    }
    assert(spans::models(list@).len() == list@.len());
    assert(spans::models(chosen@) =~= part(percentile_models(5), i as int));
    batch(chosen, 2)
}

fn threshold_blob() -> (made: Vec<u8>)
    ensures
        made@ == spans::batch_bytes(threshold_models(), 2),
{
    let mut list: Vec<Span> = Vec::new();
    let mut i: u64 = 0;
    assert(spans::models(list@) =~= threshold_models().take(0));
    while i < 8191
        invariant
            i <= 8191,
            spans::models(list@) == threshold_models().take(i as int),
        decreases 8191 - i,
    {
        let span = rich_span(10_000 + i, None);
        let ghost earlier = list@;
        list.push(span);
        i += 1;
        assert(spans::models(list@) =~= spans::models(earlier).push(span@));
        assert(threshold_models().take(i as int) =~= threshold_models().take(i - 1).push(span@));
    }
    assert(threshold_models().take(8191) =~= threshold_models());
    batch(&list, 2)
}

fn single(span: Span, version: u8) -> (made: Vec<u8>)
    ensures
        made@ == spans::batch_bytes(seq![span@], version),
{
    let mut list: Vec<Span> = Vec::new();
    list.push(span);
    assert(spans::models(list@) =~= seq![span@]);
    batch(&list, version)
}

fn cycle(c: u8, apart: i64) -> (made: Vec<u8>)
    requires
        0 <= apart <= 10_000_000,
    ensures
        made@ == blobs::log_batch_bytes(c * apart, 256, 1),
{
    assert(0 <= c * apart <= 255 * 10_000_000) by (nonlinear_arith)
        requires
            0 <= c <= 255,
            0 <= apart <= 10_000_000,
    ;
    let start: i64 = c as i64 * apart;
    assert(blobs::times_fit(start, 256, 1));
    log_batch(start, 256, 1)
}

/// The bytes that a statement needs.
pub fn made(blob: Blob) -> (made: Vec<u8>)
    ensures
        is_made(blob, made@),
{
    match blob {
        Blob::Cycle(c) => cycle(c, 256),
        Blob::Distant(c) => cycle(c, 3_600_001),
        Blob::RichLogs => {
            let entries = rich_entries();
            let made = rich_batch(&entries);
            assert(is_rich_fixture(entries@));
            made
        },
        Blob::FlatLogs => flat_batch(FIRST_TIME + 2),
        Blob::Contract => {
            let list = contract_fixture();
            batch(&list, 2)
        },
        Blob::ContractShort => {
            let list = contract_fixture();
            let mut made = batch(&list, 2);
            let ghost whole = made@;
            assert(whole.len() > 0);
            made.pop();
            assert(made@ =~= whole.drop_last());
            made
        },
        Blob::Percentiles(i) => percentile_blob(i),
        Blob::Legacy => {
            let mut span = rich_span(90, None);
            let ghost before = span@;
            span.attributes = copied(LEGACY_ATTRIBUTES);
            assert(span@ == with_attributes(before, LEGACY_ATTRIBUTES@));
            single(span, 1)
        },
        Blob::Threshold => threshold_blob(),
        Blob::Rich(number) => single(rich_span(number as u64, None), 2),
        Blob::Lifecycle => {
            let mut list: Vec<Span> = Vec::new();
            list.push(rich_span(40_001, Some(100)));
            list.push(rich_span(40_002, Some(200)));
            assert(spans::models(list@) =~= lifecycle_models());
            batch(&list, 2)
        },
    }
}

/// The span of a name.
pub open spec fn span_of(name: SpanName) -> SpanModel {
    match name {
        SpanName::Contract(i) => if i == 0 {
            rich_traces::contract_spans()[0]
        } else {
            rich_traces::contract_spans()[1]
        },
        SpanName::Rich(number) => rich_traces::rich_span_of(number as nat, None),
        SpanName::Bad => with_attributes(rich_traces::rich_span_of(4, None), "[]"@),
    }
}

/// The span of a name.
pub fn span(name: SpanName) -> (span: Span)
    ensures
        span@ == span_of(name),
{
    match name {
        SpanName::Contract(i) => {
            let mut list = contract_fixture();
            let ghost all = spans::models(list@);
            assert(all == rich_traces::contract_spans());
            assert(all.len() == 2);
            assert(list@.len() == 2);
            assert(list@[0]@ == all[0] && list@[1]@ == all[1]);
            if i == 0 {
                list.swap_remove(0)
            } else {
                list.swap_remove(1)
            }
        },
        SpanName::Rich(number) => rich_span(number as u64, None),
        SpanName::Bad => {
            let mut span = rich_span(4, None);
            let ghost before = span@;
            span.attributes = copied("[]");
            assert(span@ == with_attributes(before, "[]"@));
            span
        },
    }
}

/// The word for the kind of a span.
pub open spec fn kind_word(kind: u8) -> Option<&'static str> {
    if kind == 0 {
        Some("internal")
    } else if kind == 1 {
        Some("server")
    } else if kind == 2 {
        Some("client")
    } else if kind == 3 {
        Some("producer")
    } else if kind == 4 {
        Some("consumer")
    } else {
        None
    }
}

/// The word for the kind of a span.
pub fn kind_text(kind: u8) -> (word: Option<&'static str>)
    ensures
        word == kind_word(kind),
{
    if kind == 0 {
        Some("internal")
    } else if kind == 1 {
        Some("server")
    } else if kind == 2 {
        Some("client")
    } else if kind == 3 {
        Some("producer")
    } else if kind == 4 {
        Some("consumer")
    } else {
        None
    }
}

/// The word for the status of a span.
pub open spec fn status_word(status: u8) -> Option<&'static str> {
    if status == 0 {
        Some("unset")
    } else if status == 1 {
        Some("ok")
    } else if status == 2 {
        Some("error")
    } else {
        None
    }
}

/// The word for the status of a span.
pub fn status_text(status: u8) -> (word: Option<&'static str>)
    ensures
        word == status_word(status),
{
    if status == 0 {
        Some("unset")
    } else if status == 1 {
        Some("ok")
    } else if status == 2 {
        Some("error")
    } else {
        None
    }
}

/// A span as it is read back, its structured columns decoded.
#[derive(Debug)]
pub struct SemanticSpan {
    pub trace_id: Vec<u8>,
    pub span_id: Vec<u8>,
    pub parent_span_id: Option<Vec<u8>>,
    pub name: String,
    pub service: String,
    pub kind: String,
    pub status: String,
    pub start_ts: i64,
    pub duration_ns: i64,
    pub attributes: Json,
    pub status_description: String,
    pub events: Json,
    pub resource: Json,
    pub instrumentation_scope: Json,
}

/// Optional bytes are the same.
pub open spec fn same_parent(a: Option<Vec<u8>>, b: Option<Vec<u8>>) -> bool {
    match (a, b) {
        (Some(x), Some(y)) => x@ == y@,
        (None, None) => true,
        _ => false,
    }
}

/// Two spans say the same.
pub open spec fn spans_agree(a: SemanticSpan, b: SemanticSpan) -> bool {
    &&& a.trace_id@ == b.trace_id@
    &&& a.span_id@ == b.span_id@
    &&& same_parent(a.parent_span_id, b.parent_span_id)
    &&& a.name@ == b.name@
    &&& a.service@ == b.service@
    &&& a.kind@ == b.kind@
    &&& a.status@ == b.status@
    &&& a.start_ts == b.start_ts
    &&& a.duration_ns == b.duration_ns
    &&& json::same(a.attributes, b.attributes)
    &&& a.status_description@ == b.status_description@
    &&& json::same(a.events, b.events)
    &&& json::same(a.resource, b.resource)
    &&& json::same(a.instrumentation_scope, b.instrumentation_scope)
}

/// Two lists of spans say the same.
pub open spec fn lists_agree(a: Seq<SemanticSpan>, b: Seq<SemanticSpan>) -> bool {
    &&& a.len() == b.len()
    &&& forall|i: int| 0 <= i < a.len() ==> spans_agree(#[trigger] a[i], b[i])
}

fn parents_agree(a: &Option<Vec<u8>>, b: &Option<Vec<u8>>) -> (same: bool)
    ensures
        same == same_parent(*a, *b),
{
    match (a, b) {
        (Some(x), Some(y)) => same_bytes(x, y),
        (None, None) => true,
        _ => false,
    }
}

fn same_span(a: &SemanticSpan, b: &SemanticSpan) -> (same: bool)
    ensures
        same == spans_agree(*a, *b),
{
    same_bytes(&a.trace_id, &b.trace_id) && same_bytes(&a.span_id, &b.span_id) && parents_agree(
        &a.parent_span_id,
        &b.parent_span_id,
    ) && same_text(&a.name, &b.name) && same_text(&a.service, &b.service) && same_text(
        &a.kind,
        &b.kind,
    ) && same_text(&a.status, &b.status) && a.start_ts == b.start_ts && a.duration_ns
        == b.duration_ns && same_json(&a.attributes, &b.attributes) && same_text(
        &a.status_description,
        &b.status_description,
    ) && same_json(&a.events, &b.events) && same_json(&a.resource, &b.resource) && same_json(
        &a.instrumentation_scope,
        &b.instrumentation_scope,
    )
}

/// Whether two lists of spans say the same.
pub fn same_spans(a: &[SemanticSpan], b: &[SemanticSpan]) -> (same: bool)
    ensures
        same == lists_agree(a@, b@),
{
    if a.len() != b.len() {
        return false;
    }
    let mut i: usize = 0;
    while i < a.len()
        invariant
            a@.len() == b@.len(),
            i <= a@.len(),
            forall|k: int| 0 <= k < i ==> spans_agree(#[trigger] a@[k], b@[k]),
        decreases a.len() - i,
    {
        if !same_span(&a[i], &b[i]) {
            assert(!spans_agree(a@[i as int], b@[i as int]));
            return false;
        }
        i += 1;
    }
    true
}

/// Whether all spans have a service.
pub fn service_is(list: &[SemanticSpan], service: &str) -> (yes: bool)
    ensures
        yes == forall|i: int| 0 <= i < list@.len() ==> (#[trigger] list@[i]).service@ == service@,
{
    let mut i: usize = 0;
    while i < list.len()
        invariant
            i <= list@.len(),
            forall|k: int| 0 <= k < i ==> (#[trigger] list@[k]).service@ == service@,
        decreases list.len() - i,
    {
        if !same_text(&list[i].service, service) {
            return false;
        }
        i += 1;
    }
    true
}

/// Whether the first span has a number as its identity.
pub fn first_is(list: &[SemanticSpan], number: u64) -> (yes: bool)
    ensures
        yes == (list@.len() > 0 && list@[0].span_id@ == bytes::be(number as nat, 8)),
{
    if list.len() == 0 {
        return false;
    }
    let identity: [u8; 8] = spans::fixed_be(number);
    same_bytes(&list[0].span_id, &identity)
}

/// A value under a key of an object.
pub open spec fn under(value: Option<Json>, key: Seq<char>) -> Option<Json> {
    match value {
        Some(v) => json::member_of(v, key),
        None => None,
    }
}

/// The first value of an array.
pub open spec fn leading(value: Json) -> Option<Json> {
    json::item_at(value, 0)
}

/// The bits of three quarters.
pub const THREE_QUARTERS: u64 = 0x3fe8_0000_0000_0000;

/// The root of the contract carries what was put in: its attributes by their
/// types, its status and its event.
pub open spec fn root_is_kept(root: SemanticSpan) -> bool {
    &&& (json::member_of(root.attributes, "http.status_code"@) matches Some(Json::Unsigned(n)) && n
        == 503)
    &&& (json::member_of(root.attributes, "retryable"@) matches Some(Json::Bool(b)) && b)
    &&& (json::member_of(root.attributes, "score"@) matches Some(Json::Float(bits, _)) && bits
        == THREE_QUARTERS)
    &&& root.status_description@ == "contract failure"@
    &&& (under(leading(root.events), "timestamp"@) matches Some(Json::Unsigned(t)) && t
        == 1_700_000_000_040_000_000)
    &&& (under(under(leading(root.events), "attributes"@), "handled"@) matches Some(Json::Bool(b))
        && !b)
    &&& json::has_text(
        under(under(leading(root.events), "attributes"@), "exception.type"@),
        "ContractError"@,
    )
}

fn unsigned_is(value: Option<&Json>, n: u64) -> (yes: bool)
    ensures
        yes == (value matches Some(v) && (*v matches Json::Unsigned(m) && m == n)),
{
    match value {
        Some(Json::Unsigned(m)) => *m == n,
        _ => false,
    }
}

fn flag_is(value: Option<&Json>, flag: bool) -> (yes: bool)
    ensures
        yes == (value matches Some(v) && (*v matches Json::Bool(b) && b == flag)),
{
    match value {
        Some(Json::Bool(b)) => *b == flag,
        _ => false,
    }
}

/// Whether the root of the contract carries what was put in.
pub fn contract_root(root: &SemanticSpan) -> (yes: bool)
    ensures
        yes == root_is_kept(*root),
{
    let score = match member(&root.attributes, "score") {
        Some(Json::Float(bits, _)) => *bits == THREE_QUARTERS,
        _ => false,
    };
    let own = unsigned_is(member(&root.attributes, "http.status_code"), 503) && flag_is(
        member(&root.attributes, "retryable"),
        true,
    ) && score && same_text(&root.status_description, "contract failure");
    let event = match item(&root.events, 0) {
        Some(event) => event,
        None => return false,
    };
    let timed = unsigned_is(member(event, "timestamp"), 1_700_000_000_040_000_000);
    let attributes = match member(event, "attributes") {
        Some(attributes) => attributes,
        None => return false,
    };
    let handled = flag_is(member(attributes, "handled"), false);
    let typed = match member(attributes, "exception.type") {
        Some(t) => text_is(t, "ContractError"),
        None => false,
    };
    own && timed && handled && typed
}

/// A series of a legacy registry.
#[derive(Clone, Debug)]
pub struct LegacyEntry<'a> {
    pub series_id: i64,
    pub name: &'a str,
    pub labels: Vec<(&'a str, &'a str)>,
}

/// A text behind its length in two bytes.
pub open spec fn short_frame(t: Seq<char>) -> Seq<u8> {
    bytes::be(bytes::utf8(t).len(), 2) + bytes::utf8(t)
}

/// The first `n` labels, key and value each behind their lengths.
pub open spec fn label_bytes(labels: Seq<(Seq<char>, Seq<char>)>, n: int) -> Seq<u8>
    decreases n,
{
    if n <= 0 {
        Seq::empty()
    } else {
        label_bytes(labels, n - 1) + short_frame(labels[n - 1].0) + short_frame(labels[n - 1].1)
    }
}

/// The labels of an entry, each key once and in order.
pub open spec fn label_map(entry: LegacyEntry) -> Seq<(Seq<char>, Seq<char>)> {
    order::put_all(Seq::empty(), order::pair_views(entry.labels@))
}

/// An entry of a legacy registry: the number of the series, its name and its labels.
pub open spec fn legacy_entry_bytes(entry: LegacyEntry) -> Seq<u8> {
    bytes::be(bytes::pattern64(entry.series_id as int), 8) + short_frame(entry.name@) + bytes::be(
        label_map(entry).len(),
        2,
    ) + label_bytes(label_map(entry), label_map(entry).len() as int)
}

/// The first `n` entries of a legacy registry behind their number.
pub open spec fn registry_bytes(entries: Seq<LegacyEntry>, n: int) -> Seq<u8>
    decreases n,
{
    if n <= 0 {
        bytes::be(entries.len(), 4)
    } else {
        registry_bytes(entries, n - 1) + legacy_entry_bytes(entries[n - 1])
    }
}

fn push_short(out: &mut Vec<u8>, t: &str)
    ensures
        final(out)@ == old(out)@ + short_frame(t@),
{
    let mut coded: Vec<u8> = Vec::new();
    extend_text(&mut coded, t);
    assert(coded@ =~= bytes::utf8(t@));
    push_be(out, coded.len() as u64, 2);
    bytes::extend(out, &coded);
    assert(out@ =~= old(out)@ + short_frame(t@));
}

fn push_labels(out: &mut Vec<u8>, labels: &Vec<(&str, &str)>)
    ensures
        final(out)@ == old(out)@ + label_bytes(
            order::pair_views(labels@),
            labels@.len() as int,
        ),
{
    let ghost all = order::pair_views(labels@);
    let mut i: usize = 0;
    assert(out@ =~= old(out)@ + label_bytes(all, 0));
    while i < labels.len()
        invariant
            i <= labels@.len(),
            all == order::pair_views(labels@),
            out@ == old(out)@ + label_bytes(all, i as int),
        decreases labels.len() - i,
    {
        let pair: (&str, &str) = labels[i];
        assert(all[i as int] == (pair.0@, pair.1@));
        push_short(out, pair.0);
        push_short(out, pair.1);
        i += 1;
        assert(out@ =~= old(out)@ + label_bytes(all, i as int));
    }
}

/// A registry of series as earlier versions kept it: how many there are, and each
/// with its number, its name and its labels in the order of their keys. Lengths are
/// cut to the bytes that there are for them.
pub fn encode_legacy_registry(entries: &[LegacyEntry]) -> (out: Vec<u8>)
    ensures
        out@ == registry_bytes(entries@, entries@.len() as int),
{
    let mut out: Vec<u8> = Vec::new();
    push_be(&mut out, entries.len() as u64, 4);
    assert(out@ =~= registry_bytes(entries@, 0));
    let mut i: usize = 0;
    while i < entries.len()
        invariant
            i <= entries@.len(),
            out@ == registry_bytes(entries@, i as int),
        decreases entries.len() - i,
    {
        let entry = &entries[i];
        let ghost before = out@;
        push_be(&mut out, pattern_of(entry.series_id), 8);
        push_short(&mut out, entry.name);
        let mut labels: Vec<(&str, &str)> = Vec::new();
        put_pairs(&mut labels, &entry.labels);
        proof {
            assert(order::pair_views(Seq::<(&str, &str)>::empty()) =~= Seq::empty());
            assert(order::pair_views(labels@) == label_map(*entry));
        }
        push_be(&mut out, labels.len() as u64, 2);
        push_labels(&mut out, &labels);
        i += 1;
        assert(out@ =~= before + legacy_entry_bytes(*entry));
    }
    out
}

/// The labels of a legacy entry stand in order, each key once, whatever order they
/// were given in.
pub proof fn legacy_labels_are_ordered(pairs: Seq<(Seq<char>, Seq<char>)>)
    ensures
        order::ordered(order::put_all(Seq::<(Seq<char>, Seq<char>)>::empty(), pairs)),
    decreases pairs.len(),
{
    if pairs.len() > 0 {
        legacy_labels_are_ordered(pairs.drop_last());
        order::put_keeps_order(
            order::put_all(Seq::empty(), pairs.drop_last()),
            pairs.last().0,
            pairs.last().1,
        );
    }
}

/// A log entry as it is read back.
#[derive(Debug)]
pub struct LogRow {
    pub timestamp: i64,
    pub level: String,
    pub message: String,
    pub metadata: String,
}

/// A row has a level and a message.
pub open spec fn row_says(row: LogRow, level: Seq<char>, message: Seq<char>) -> bool {
    row.level@ == level && row.message@ == message
}

/// The log entries are those that went in, in the order of their times and messages,
/// the second with its time and its metadata unchanged.
pub open spec fn entries_are_kept(rows: Seq<LogRow>) -> bool {
    &&& rows.len() == 4
    &&& row_says(rows[0], "critical"@, "a-message"@)
    &&& row_says(rows[1], "notice"@, "b-message"@)
    &&& row_says(rows[2], "emergency"@, "c-message"@)
    &&& row_says(rows[3], "info"@, "legacy-info"@)
    &&& rows[1].timestamp == FIRST_TIME
    &&& rows[1].metadata@ == rich_logs::FIRST_METADATA@
}

fn says(row: &LogRow, level: &str, message: &str) -> (yes: bool)
    ensures
        yes == row_says(*row, level@, message@),
{
    same_text(&row.level, level) && same_text(&row.message, message)
}

/// Whether the log entries are those that went in.
pub fn accepts_entries(rows: &[LogRow]) -> (yes: bool)
    ensures
        yes == entries_are_kept(rows@),
{
    rows.len() == 4 && says(&rows[0], "critical", "a-message") && says(
        &rows[1],
        "notice",
        "b-message",
    ) && says(&rows[2], "emergency", "c-message") && says(&rows[3], "info", "legacy-info")
        && rows[1].timestamp == FIRST_TIME && same_text(
        &rows[1].metadata,
        rich_logs::FIRST_METADATA,
    )
}

} // verus!
