//! What holds of every reply that a suite accepts, and of every span that it compares.
use crate::bytes;
use crate::documents;
use crate::gate::{self, Bound, Counts, Expected, Reply, Rows};
use crate::gate_rows;
use crate::gate_spans::{self, LegacyEntry, LogRow, SemanticSpan};
use crate::json::{self, Tree};
use crate::oracle_laws;
use crate::regression_laws::{self, alike, row_shows, results_alike};
use crate::regressions;
use crate::rich_traces;
use crate::spans::SpanModel;
use crate::text;
use crate::values::{self, Row, SqlValue};
use vstd::prelude::*;

verus! {

/// A written row at a place.
pub open spec fn row_at(rows: Rows, i: int) -> Option<Row> {
    match rows {
        Rows::Zero => None,
        Rows::One(a) => if i == 0 {
            Some(a)
        } else {
            None
        },
        Rows::Two(a, b) => if i == 0 {
            Some(a)
        } else if i == 1 {
            Some(b)
        } else {
            None
        },
        Rows::Three(a, b, c) => if i == 0 {
            Some(a)
        } else if i == 1 {
            Some(b)
        } else if i == 2 {
            Some(c)
        } else {
            None
        },
        Rows::Four(a, b, c, d) => if i == 0 {
            Some(a)
        } else if i == 1 {
            Some(b)
        } else if i == 2 {
            Some(c)
        } else if i == 3 {
            Some(d)
        } else {
            None
        },
    }
}

/// Accepted rows show the written ones, one for one and in order.
pub proof fn accepted_rows_show_the_written_ones(
    written: Rows,
    rows: Vec<Vec<SqlValue>>,
    memory: Seq<Vec<Vec<SqlValue>>>,
    i: int,
)
    requires
        gate::met(Expected::Rows(written), Reply::Rows(rows), memory),
        0 <= i,
    ensures
        i < rows@.len() <==> row_at(written, i) is Some,
        row_at(written, i) matches Some(row) ==> row_shows(rows@[i]@, row),
{
    let list = gate::listed(written);
    if i < rows@.len() {
        assert(values::row_is(rows@[i]@, values::cells(list[i])));
        regression_laws::rows_are_shown(rows@[i]@, list[i]);
    }
}

/// The first row shows the written one; a count is the number of rows; an integer is
/// above another; bytes are so many.
pub proof fn accepted_rows_meet_their_bound(
    row: Row,
    rows: Vec<Vec<SqlValue>>,
    memory: Seq<Vec<Vec<SqlValue>>>,
    n: usize,
    m: i64,
)
    ensures
        gate::met(Expected::First(row), Reply::Rows(rows), memory) <==> rows@.len() > 0 && row_shows(
            rows@[0]@,
            row,
        ),
        gate::met(Expected::Many(n), Reply::Rows(rows), memory) <==> rows@.len() == n,
        gate::met(Expected::Above(m), Reply::Rows(rows), memory) <==> rows@.len() > 0
            && rows@[0]@.len() > 0 && (rows@[0]@[0] matches SqlValue::Integer(found) && found > m),
        gate::met(Expected::Length(n), Reply::Rows(rows), memory) <==> rows@.len() > 0
            && rows@[0]@.len() > 0 && (rows@[0]@[0] matches SqlValue::Blob(b) && b@.len() == n),
{
    if rows@.len() > 0 {
        regression_laws::rows_are_shown(rows@[0]@, row);
    }
}

/// Rows are the kept ones exactly if they are alike, and different exactly if they are
/// not; a grown number is greater than the kept one.
pub proof fn kept_rows_are_compared(
    rows: Vec<Vec<SqlValue>>,
    memory: Seq<Vec<Vec<SqlValue>>>,
    register: usize,
)
    requires
        register < memory.len(),
    ensures
        gate::met(Expected::Same(register), Reply::Rows(rows), memory) <==> !gate::met(
            Expected::Different(register),
            Reply::Rows(rows),
            memory,
        ),
        gate::met(Expected::Same(register), Reply::Rows(rows), memory) ==> results_alike(
            rows@,
            memory[register as int]@,
        ),
        gate::met(Expected::Grown(register), Reply::Rows(rows), memory) ==> {
            let kept = memory[register as int]@;
            &&& kept.len() > 0 && kept[0]@.len() > 0 && rows@.len() > 0 && rows@[0]@.len() > 0
            &&& kept[0]@[0] is Integer && rows@[0]@[0] is Integer
            &&& kept[0]@[0]->Integer_0 < rows@[0]@[0]->Integer_0
        },
{
    if gate::met(Expected::Same(register), Reply::Rows(rows), memory) {
        regression_laws::equal_rows_are_accepted(rows@, memory[register as int]@);
        let kept = memory[register as int]@;
        assert(values::equal_rows(rows@, kept));
        assert forall|i: int| 0 <= i < rows@.len() implies (#[trigger] rows@[i])@.len()
            == kept[i]@.len() by {
            assert(values::equal_row(rows@[i]@, kept[i]@));
        }
        assert forall|i: int, j: int| 0 <= i < rows@.len() && 0 <= j < rows@[i]@.len() implies alike(
            #[trigger] rows@[i]@[j],
            kept[i]@[j],
        ) by {
            assert(values::equal_row(rows@[i]@, kept[i]@));
            assert(values::equal_values(rows@[i]@[j], kept[i]@[j]));
        }
    }
}

/// A failure is accepted only where one is expected, with all of its words; rows and
/// success are never accepted where a failure is.
pub proof fn failures_are_expected(
    message: String,
    memory: Seq<Vec<Vec<SqlValue>>>,
    a: &'static str,
    b: &'static str,
    c: &'static str,
    rows: Vec<Vec<SqlValue>>,
    row: Row,
)
    ensures
        gate::met(Expected::RefusedWith(a), Reply::Failed(message), memory) <==> text::occurs_in(
            message@,
            a@,
        ),
        gate::met(Expected::RefusedWithAll(a, b, c), Reply::Failed(message), memory)
            <==> text::occurs_in(message@, a@) && text::occurs_in(message@, b@) && text::occurs_in(
            message@,
            c@,
        ),
        gate::met(Expected::Refused, Reply::Failed(message), memory),
        !gate::met(Expected::Done, Reply::Failed(message), memory),
        !gate::met(Expected::First(row), Reply::Failed(message), memory),
        !gate::met(Expected::Refused, Reply::Done, memory),
        !gate::met(Expected::RefusedWith(a), Reply::Done, memory),
        !gate::met(Expected::Refused, Reply::Rows(rows), memory),
        !gate::met(Expected::RefusedWith(a), Reply::Rows(rows), memory),
        gate::met(Expected::Done, Reply::Done, memory),
{
}

/// The members are the same whatever their order: every row is shown by a written one and
/// every written one by a row.
pub proof fn accepted_members_are_all_there(
    written: Rows,
    rows: Vec<Vec<SqlValue>>,
    memory: Seq<Vec<Vec<SqlValue>>>,
    i: int,
)
    requires
        gate::met(Expected::Members(written), Reply::Rows(rows), memory),
        0 <= i,
    ensures
        i < rows@.len() ==> exists|k: int|
            0 <= k < 4 && (#[trigger] row_at(written, k)) is Some && row_shows(
                rows@[i]@,
                row_at(written, k)->Some_0,
            ),
        row_at(written, i) matches Some(row) ==> exists|k: int|
            0 <= k < rows@.len() && row_shows((#[trigger] rows@[k])@, row),
{
    let list = gate::listed(written);
    if i < rows@.len() {
        assert(gate::is_listed(rows@[i]@, list));
        let k = choose|k: int|
            0 <= k < list.len() && values::row_is(rows@[i]@, values::cells(#[trigger] list[k]));
        regression_laws::rows_are_shown(rows@[i]@, list[k]);
        assert(row_at(written, k) == Some(list[k]));
    }
    match row_at(written, i) {
        Some(row) => {
            assert(list[i] == row);
            assert(regressions::among(rows@, list[i]));
            let k = choose|k: int|
                0 <= k < rows@.len() && values::row_is((#[trigger] rows@[k])@, values::cells(row));
            regression_laws::rows_are_shown(rows@[k]@, row);
        },
        None => {},
    }
}

/// A number keeps within a bound if it is the number, at least it or above it.
pub proof fn bounds_are_kept(n: int, m: i64)
    ensures
        gate::within(n, Bound::Is(m)) <==> n == m,
        gate::within(n, Bound::AtLeast(m)) <==> n >= m,
        gate::within(n, Bound::Above(m)) <==> n > m,
{
}

/// The growth under a key is the difference of what stands there.
pub proof fn growth_is_the_difference(
    before: Seq<Vec<SqlValue>>,
    after: Seq<Vec<SqlValue>>,
    key: Seq<char>,
    a: int,
    b: int,
)
    requires
        regressions::integer_under(before, key) == Some(a),
        regressions::integer_under(after, key) == Some(b),
        i64::MIN <= b - a <= i64::MAX,
    ensures
        gate::growth_under(before, after, key) == Some(b - a),
{
}

/// Counted metrics are the expected ones, in order and with their counts.
pub proof fn counts_are_the_expected_ones(
    counted: Seq<(String, i64)>,
    a: &'static str,
    n: i64,
    b: &'static str,
    m: i64,
)
    ensures
        gate::counts_are(counted, Counts::One(a, n)) <==> counted.len() == 1 && counted[0].0@ == a@
            && counted[0].1 == n,
        gate::counts_are(counted, Counts::Two(a, n, b, m)) <==> counted.len() == 2 && counted[0].0@
            == a@ && counted[0].1 == n && counted[1].0@ == b@ && counted[1].1 == m,
{
}

/// Letters become small ones, one for one, and nothing else changes.
pub proof fn letters_become_small(s: Seq<char>, i: int)
    requires
        0 <= i < s.len(),
    ensures
        gate::lowered(s).len() == s.len(),
        'A' <= s[i] <= 'Z' ==> gate::lowered(s)[i] as int == s[i] as int + 32,
        !('A' <= s[i] <= 'Z') ==> gate::lowered(s)[i] == s[i],
        gate::lowered(gate::lowered(s)) == gate::lowered(s),
{
    assert(gate::lowered(gate::lowered(s)) =~= gate::lowered(s)) by {
        assert forall|k: int| 0 <= k < s.len() implies #[trigger] gate::lowered(
            gate::lowered(s),
        )[k] == gate::lowered(s)[k] by {
            let c = s[k];
            if 'A' <= c <= 'Z' {
                assert(gate::lower(c) as int == c as int + 32);
            }
        }
    }
}

/// Two spans agree exactly if they say the same in every column.
pub proof fn agreeing_spans_say_the_same(a: SemanticSpan, b: SemanticSpan)
    ensures
        gate_spans::spans_agree(a, b) <==> {
            &&& a.trace_id@ == b.trace_id@
            &&& a.span_id@ == b.span_id@
            &&& a.parent_span_id is Some <==> b.parent_span_id is Some
            &&& a.parent_span_id is Some ==> a.parent_span_id->Some_0@ == b.parent_span_id->Some_0@
            &&& a.name@ == b.name@
            &&& a.service@ == b.service@
            &&& a.kind@ == b.kind@
            &&& a.status@ == b.status@
            &&& a.start_ts == b.start_ts
            &&& a.duration_ns == b.duration_ns
            &&& a.status_description@ == b.status_description@
            &&& json::same_trees(json::tree(a.attributes), json::tree(b.attributes))
            &&& json::same_trees(json::tree(a.events), json::tree(b.events))
            &&& json::same_trees(json::tree(a.resource), json::tree(b.resource))
            &&& json::same_trees(
                json::tree(a.instrumentation_scope),
                json::tree(b.instrumentation_scope),
            )
        },
{
    json::equal_values_hold_equal(a.attributes, b.attributes);
    json::equal_values_hold_equal(a.events, b.events);
    json::equal_values_hold_equal(a.resource, b.resource);
    json::equal_values_hold_equal(a.instrumentation_scope, b.instrumentation_scope);
}

/// Two lists of spans that agree with a third agree with each other.
pub proof fn agreeing_lists_agree(
    a: Seq<SemanticSpan>,
    b: Seq<SemanticSpan>,
    c: Seq<SemanticSpan>,
)
    requires
        gate_spans::lists_agree(a, b),
        gate_spans::lists_agree(a, c),
    ensures
        gate_spans::lists_agree(b, c),
        a.len() == b.len() == c.len(),
{
    assert forall|i: int| 0 <= i < b.len() implies gate_spans::spans_agree(#[trigger] b[i], c[i]) by {
        assert(gate_spans::spans_agree(a[i], b[i]));
        assert(gate_spans::spans_agree(a[i], c[i]));
        agreeing_spans_say_the_same(a[i], b[i]);
        agreeing_spans_say_the_same(a[i], c[i]);
        agreeing_spans_say_the_same(b[i], c[i]);
        oracle_laws::equals_of_one_are_equal(
            json::tree(a[i].attributes),
            json::tree(b[i].attributes),
            json::tree(c[i].attributes),
        );
        oracle_laws::equals_of_one_are_equal(
            json::tree(a[i].events),
            json::tree(b[i].events),
            json::tree(c[i].events),
        );
        oracle_laws::equals_of_one_are_equal(
            json::tree(a[i].resource),
            json::tree(b[i].resource),
            json::tree(c[i].resource),
        );
        oracle_laws::equals_of_one_are_equal(
            json::tree(a[i].instrumentation_scope),
            json::tree(b[i].instrumentation_scope),
            json::tree(c[i].instrumentation_scope),
        );
    }
}

/// A row is read as a span column by column, and two rows that are read as the same span
/// hold the same in each column.
pub proof fn rows_are_read_as_spans(row: Seq<SqlValue>, span: SemanticSpan)
    requires
        gate_rows::is_span(row),
        gate_rows::span_in(row, span),
    ensures
        row.len() == 14,
        row[0] matches SqlValue::Blob(b) && b@ == span.trace_id@,
        row[1] matches SqlValue::Blob(b) && b@ == span.span_id@,
        span.parent_span_id is None <==> row[2] is Null,
        span.parent_span_id matches Some(p) ==> (row[2] matches SqlValue::Blob(b) && b@ == p@),
        row[3] matches SqlValue::Text(t) && t@ == span.name@,
        row[4] matches SqlValue::Text(t) && t@ == span.service@,
        row[5] matches SqlValue::Text(t) && t@ == span.kind@,
        row[6] matches SqlValue::Text(t) && t@ == span.status@,
        row[7] == SqlValue::Integer(span.start_ts),
        row[8] == SqlValue::Integer(span.duration_ns),
        row[9] matches SqlValue::Text(t) && documents::document_tree(t@) == Some(
            json::tree(span.attributes),
        ),
        row[10] matches SqlValue::Text(t) && t@ == span.status_description@,
        row[11] matches SqlValue::Text(t) && documents::document_tree(t@) == Some(
            json::tree(span.events),
        ),
        row[12] matches SqlValue::Text(t) && documents::document_tree(t@) == Some(
            json::tree(span.resource),
        ),
        row[13] matches SqlValue::Text(t) && documents::document_tree(t@) == Some(
            json::tree(span.instrumentation_scope),
        ),
{
}

/// What a span of an earlier version keeps is its one attribute, and nothing else.
pub proof fn legacy_spans_keep_their_attribute(
    attributes: Seq<char>,
    description: Seq<char>,
    events: Seq<char>,
    resource: Seq<char>,
    scope: Seq<char>,
)
    requires
        gate_rows::legacy_is_kept(attributes, description, events, resource, scope),
    ensures
        documents::document_tree(attributes) matches Some(held) && json::tree_member(
            held,
            "legacy"@,
        ) == Some(Tree::Text("string-only"@)),
        description.len() == 0,
        events == "[]"@,
        resource == "{}"@,
        scope == "{}"@,
{
    reveal_with_fuel(crate::order::lookup, 2);
}

/// The capabilities suffice exactly if the extension speaks the first version of the
/// data, takes rich batches and fills whole ones.
pub proof fn capabilities_are_needed(held: Tree)
    ensures
        gate_rows::capabilities_suffice(held) <==> {
            &&& json::tree_member(held, "data_abi"@) == Some(Tree::Unsigned(1))
            &&& json::tree_member(held, "signals"@) matches Some(signals)
            &&& json::tree_member(signals, "logs"@) matches Some(logs)
            &&& json::tree_member(logs, "batches"@) matches Some(Tree::Array(batches))
            &&& batches.contains(Tree::Text("rich-v1"@))
            &&& json::tree_member(logs, "authoritative_batch_entries"@) == Some(
                Tree::Unsigned(8_192),
            )
        },
{
}

/// A kind and a status have words of their own.
pub proof fn kinds_and_statuses_have_their_words(a: u8, b: u8)
    ensures
        gate_spans::kind_word(a) is Some <==> a < 5,
        gate_spans::status_word(a) is Some <==> a < 3,
        gate_spans::kind_word(0) == Some("internal"),
        gate_spans::kind_word(1) == Some("server"),
        gate_spans::kind_word(2) == Some("client"),
        gate_spans::kind_word(3) == Some("producer"),
        gate_spans::kind_word(4) == Some("consumer"),
        gate_spans::status_word(0) == Some("unset"),
        gate_spans::status_word(1) == Some("ok"),
        gate_spans::status_word(2) == Some("error"),
{
}

/// A part of a list is so many spans from a place on: every span is in the part of its
/// place.
pub proof fn parts_cover_the_list(list: Seq<SpanModel>, k: int)
    requires
        0 <= k < list.len(),
    ensures
        k % 8_192 < gate_spans::part(list, k / 8_192).len() <= 8_192,
        gate_spans::part(list, k / 8_192)[k % 8_192] == list[k],
{
    let i = k / 8_192;
    assert(i * gate_spans::CHUNK + k % 8_192 == k);
}

/// The entries that come back are those that went in: in the order of their times, those
/// of one time in the order of their messages.
pub proof fn kept_entries_are_those_that_went_in(rows: Seq<LogRow>)
    requires
        gate_spans::entries_are_kept(rows),
    ensures
        rows.len() == 4,
        rows[0].level@ == "critical"@ && rows[0].message@ == "a-message"@,
        rows[1].level@ == "notice"@ && rows[1].message@ == "b-message"@,
        rows[2].level@ == "emergency"@ && rows[2].message@ == "c-message"@,
        rows[3].level@ == "info"@ && rows[3].message@ == "legacy-info"@,
        rows[1].timestamp == 1_700_000_000_123_456,
{
}

/// The root of the contract carries what was put in.
pub proof fn contract_roots_carry_what_was_put_in(root: SemanticSpan)
    requires
        gate_spans::root_is_kept(root),
    ensures
        json::tree_member(json::tree(root.attributes), "http.status_code"@) == Some(
            Tree::Unsigned(503),
        ),
        json::tree_member(json::tree(root.attributes), "retryable"@) == Some(Tree::Bool(true)),
        json::tree_member(json::tree(root.attributes), "score"@) matches Some(Tree::Float(bits, _))
            && bits == 0x3fe8_0000_0000_0000,
        root.status_description@ == "contract failure"@,
        json::tree(root.events) matches Tree::Array(events) && events.len() > 0
            && json::tree_member(events[0], "timestamp"@) == Some(
            Tree::Unsigned(1_700_000_000_040_000_000),
        ) && oracle_laws::deep(events[0], "attributes"@, "handled"@) == Some(Tree::Bool(false))
            && oracle_laws::deep(events[0], "attributes"@, "exception.type"@) == Some(
            Tree::Text("ContractError"@),
        ),
{
    json::member_holds(root.attributes, "http.status_code"@);
    json::member_holds(root.attributes, "retryable"@);
    json::member_holds(root.attributes, "score"@);
    json::items_hold(root.events);
    let list = json::items_of(root.events)->Some_0;
    let event = list[0];
    assert(json::trees(list)[0] == json::tree(event));
    json::member_holds(event, "timestamp"@);
    json::member_holds(event, "attributes"@);
    let inner = json::member_of(event, "attributes"@)->Some_0;
    json::member_holds(inner, "handled"@);
    json::member_holds(inner, "exception.type"@);
}

/// The child of the contract is a child of its root: the same trace, the root's
/// identifier as its parent, and times within those of the root.
pub proof fn contract_spans_are_one_trace()
    ensures
        ({
            let root = rich_traces::contract_spans()[0];
            let child = rich_traces::contract_spans()[1];
            &&& rich_traces::contract_spans().len() == 2
            &&& root.trace_id == child.trace_id
            &&& root.parent is None
            &&& child.parent == Some(root.span_id)
            &&& child.span_id != root.span_id
            &&& root.trace_id.len() == 16 && root.span_id.len() == 8 && child.span_id.len() == 8
            &&& root.start_ts <= child.start_ts
            &&& child.start_ts + child.duration_ns <= root.start_ts + root.duration_ns
            &&& root.status == 2 && child.status == 0
        }),
{
    assert(rich_traces::contract_child()[0] != rich_traces::contract_root()[0]);
}

/// The parent of an even numbered span is the span of the number before; odd ones have
/// none, and no span is its own parent.
pub proof fn numbered_spans_have_the_parent_before(number: nat)
    requires
        0 < number < 0x1_0000_0000_0000_0000,
    ensures
        ({
            let span = rich_traces::rich_span_of(number, None);
            &&& number % 2 == 1 ==> span.parent is None
            &&& number % 2 == 0 ==> span.parent == Some(
                rich_traces::rich_span_of((number - 1) as nat, None).span_id,
            )
            &&& span.parent != Some(span.span_id)
            &&& bytes::be_value(span.span_id) == number
            &&& bytes::be_value(span.trace_id) == number
            &&& span.kind == number % 5
            &&& span.status == number % 3
        }),
{
    reveal(rich_traces::rich_span_of);
    reveal_with_fuel(bytes::pow256, 17);
    bytes::be_is_read_back(number, 8);
    bytes::be_is_read_back(number, 16);
    bytes::be_is_read_back((number - 1) as nat, 8);
}

/// A percentile span has the duration of its value, and spans of one case start one after
/// the other.
pub proof fn percentile_spans_have_their_value(
    number: nat,
    service: Seq<char>,
    position: int,
    duration_ns: i64,
)
    requires
        number < 0x1_0000_0000_0000_0000,
        0 <= position <= 1_000_000,
    ensures
        ({
            let span = rich_traces::percentile_span_of(number, service, position, duration_ns);
            &&& span.duration_ns == duration_ns
            &&& span.start_ts == 1_800_000_000_000_000_000 + position
            &&& span.service == service
            &&& bytes::be_value(span.span_id) == number
            &&& span.parent is None
        }),
{
    reveal(rich_traces::percentile_span_of);
    reveal_with_fuel(bytes::pow256, 17);
    bytes::be_is_read_back(number, 8);
}

/// The bucket of a case counts its values and ranks them.
pub proof fn buckets_rank_their_values(values: Seq<i64>)
    ensures
        ({
            let numbers = crate::ranks::signed_numbers(values);
            let (count, p50, p95, p99) = rich_traces::bucket_of(values);
            &&& count == values.len()
            &&& p50 == crate::ranks::ranked(numbers, 50)
            &&& p95 == crate::ranks::ranked(numbers, 95)
            &&& p99 == crate::ranks::ranked(numbers, 99)
        }),
{
}

/// The durations of the cases: one value, two values in a rhythm, and the same numbers up
/// and down.
pub proof fn percentile_cases_are_told_apart(k: int)
    ensures
        rich_traces::case_values(0) == seq![42i64],
        rich_traces::case_values(1).len() == 129,
        0 <= k < 129 ==> rich_traces::case_values(1)[k] == (if (k + 1) % 4 == 0 {
            11i64
        } else {
            7i64
        }),
        rich_traces::case_values(2).len() == 257 && rich_traces::case_values(3).len() == 257,
        0 <= k < 257 ==> rich_traces::case_values(2)[k] == k,
        0 <= k < 257 ==> rich_traces::case_values(3)[k] == rich_traces::case_values(2)[256 - k],
        rich_traces::case_values(4).len() == 8_192,
        0 <= k < 8_192 ==> 0 <= rich_traces::case_values(4)[k] < 1_000_003,
{
}

/// A legacy registry begins with the number of its entries, and an entry with the number
/// of its series and the length of its name.
pub proof fn registries_are_numbered(entries: Seq<LegacyEntry>, n: int)
    requires
        entries.len() < 0x1_0000_0000,
        0 <= n <= entries.len(),
    ensures
        gate_spans::registry_bytes(entries, n).len() >= 4,
        bytes::be_value(gate_spans::registry_bytes(entries, n).take(4)) == entries.len(),
        n < entries.len() ==> gate_spans::registry_bytes(entries, n + 1)
            == gate_spans::registry_bytes(entries, n) + gate_spans::legacy_entry_bytes(
            entries[n],
        ),
    decreases n,
{
    reveal_with_fuel(bytes::pow256, 5);
    bytes::be_is_read_back(entries.len(), 4);
    if n > 0 {
        registries_are_numbered(entries, n - 1);
        let before = gate_spans::registry_bytes(entries, n - 1);
        assert(gate_spans::registry_bytes(entries, n).take(4) =~= before.take(4));
    } else {
        assert(gate_spans::registry_bytes(entries, 0).take(4) =~= bytes::be(entries.len(), 4));
    }
}

/// An entry of a legacy registry is read back: the series in its first eight bytes, then
/// the name behind its length, then the number of labels.
pub proof fn registry_entries_are_read_back(entry: LegacyEntry)
    requires
        bytes::utf8(entry.name@).len() < 0x1_0000,
        gate_spans::label_map(entry).len() < 0x1_0000,
    ensures
        ({
            let written = gate_spans::legacy_entry_bytes(entry);
            let name = bytes::utf8(entry.name@);
            let at = 10 + name.len() as int;
            &&& written.len() >= 12 + name.len()
            &&& bytes::signed64(bytes::be_value(written.subrange(0, 8))) == entry.series_id
            &&& bytes::be_value(written.subrange(8, 10)) == name.len()
            &&& written.subrange(10, at) == name
            &&& bytes::be_value(written.subrange(at, at + 2)) == gate_spans::label_map(entry).len()
        }),
{
    reveal_with_fuel(bytes::pow256, 17);
    let written = gate_spans::legacy_entry_bytes(entry);
    let name = bytes::utf8(entry.name@);
    let labels = gate_spans::label_map(entry);
    bytes::signed_is_read_back(entry.series_id);
    bytes::be_is_read_back(bytes::pattern64(entry.series_id as int), 8);
    bytes::be_is_read_back(name.len(), 2);
    bytes::be_is_read_back(labels.len(), 2);
    let id = bytes::be(bytes::pattern64(entry.series_id as int), 8);
    let size = bytes::be(name.len(), 2);
    let count = bytes::be(labels.len(), 2);
    let at = 10 + name.len() as int;
    assert(written.subrange(0, 8) =~= id);
    assert(written.subrange(8, 10) =~= size);
    assert(written.subrange(10, at) =~= name);
    assert(written.subrange(at, at + 2) =~= count);
}

/// A qualified name is a schema and a table that are both read back.
pub proof fn qualified_names_are_read_back(schema: Seq<char>, table: Seq<char>)
    ensures
        ({
            let name = gate::qualified_name(schema, table);
            let first = gate::quoted(schema).len() as int;
            &&& name[0] == '"'
            &&& gate::read_quoted(name.skip(1)) == Some(schema)
            &&& name[first] == '.'
            &&& name[first + 1] == '"'
            &&& gate::read_quoted(name.skip(first + 2)) == Some(table)
        }),
{
    reveal_strlit(".");
    let name = gate::qualified_name(schema, table);
    let first = gate::quoted(schema).len() as int;
    let tail = "."@ + gate::quoted(table);
    gate::quoted_is_read_back(schema, tail);
    gate::quoted_is_read_back(table, Seq::empty());
    assert(name.skip(1) =~= gate::quoted(schema).skip(1) + tail);
    assert(name.skip(first + 2) =~= gate::quoted(table).skip(1) + Seq::<char>::empty());
}

} // verus!
