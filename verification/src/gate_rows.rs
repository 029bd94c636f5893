//! The rows with documents that the suites read back.
use crate::documents::{self, document, same_documents};
use crate::gate::SpanName;
use crate::gate_spans::{self, span, SemanticSpan};
use crate::json::{self, copied, held_items, held_member, same_json, text_is, Json, Tree};
use crate::text::same_text;
use crate::values::{same_bytes, SqlValue};
use vstd::prelude::*;
use vstd::string::*;

verus! {

/// Whether a row holds the trace, the attributes, the events and the duration of the
/// first span of the contract.
pub fn contract_row(trace: &[u8], attributes: &str, events: &str, duration_ns: i64) -> (yes: bool)
    ensures
        ({
            let own = gate_spans::span_of(SpanName::Contract(0));
            yes == (trace@ == own.trace_id && documents::documents_agree(attributes@, own.attributes)
                && documents::documents_agree(events@, own.events) && duration_ns == own.duration_ns)
        }),
{
    let own = span(SpanName::Contract(0));
    same_bytes(trace, &own.trace_id) && same_documents(attributes, &own.attributes)
        && same_documents(events, &own.events) && duration_ns == own.duration_ns
}

/// Whether a text holds the attributes of the first span of the contract.
pub fn contract_attributes(attributes: &str) -> (yes: bool)
    ensures
        yes == documents::documents_agree(
            attributes@,
            gate_spans::span_of(SpanName::Contract(0)).attributes,
        ),
{
    let own = span(SpanName::Contract(0));
    same_documents(attributes, &own.attributes)
}

/// Whether the first span has the attributes of a span that was put in.
pub fn first_attributes(list: &[SemanticSpan], name: SpanName) -> (yes: bool)
    ensures
        yes == (list@.len() > 0 && (documents::document_tree(gate_spans::span_of(name).attributes)
            matches Some(held) && json::same_trees(json::tree(list@[0].attributes), held))),
{
    if list.len() == 0 {
        return false;
    }
    let own = span(name);
    match document(&own.attributes) {
        Some(value) => {
            proof {
                json::equal_values_hold_equal(list@[0].attributes, value);
            }
            same_json(&list[0].attributes, &value)
        },
        None => false,
    }
}

/// What the attributes of a span of an earlier version hold.
pub open spec fn legacy_attributes() -> Tree {
    Tree::Object(seq![("legacy"@, Tree::Text("string-only"@))])
}

/// Whether a value holds the attributes of a span of an earlier version.
pub fn are_legacy(attributes: &Json) -> (yes: bool)
    ensures
        yes == (json::tree(*attributes) == legacy_attributes()),
{
    match attributes {
        Json::Object(members) => {
            proof {
                json::object_tree(*members);
                let held = json::member_trees(members@);
                assert(held.len() == members@.len());
                if held.len() == 1 {
                    assert(held[0] == (members@[0].0@, json::tree(members@[0].1)));
                    assert(held =~= seq![held[0]]);
                }
                let own = seq![("legacy"@, Tree::Text("string-only"@))];
                assert(own.len() == 1 && own[0] == ("legacy"@, Tree::Text("string-only"@)));
            }
            members.len() == 1 && same_text(&members[0].0, "legacy") && text_is(
                &members[0].1,
                "string-only",
            )
        },
        _ => false,
    }
}

/// What is kept of a span of an earlier version: its one attribute, and nothing in
/// the columns that it did not have.
pub open spec fn legacy_is_kept(
    attributes: Seq<char>,
    description: Seq<char>,
    events: Seq<char>,
    resource: Seq<char>,
    scope: Seq<char>,
) -> bool {
    &&& documents::document_tree(attributes) == Some(legacy_attributes())
    &&& description.len() == 0
    &&& events == "[]"@
    &&& resource == "{}"@
    &&& scope == "{}"@
}

/// Whether a row holds what is kept of a span of an earlier version.
pub fn legacy_row(
    attributes: &str,
    description: &str,
    events: &str,
    resource: &str,
    scope: &str,
) -> (yes: bool)
    ensures
        yes == legacy_is_kept(attributes@, description@, events@, resource@, scope@),
{
    let own = match document(attributes) {
        Some(value) => are_legacy(&value),
        None => false,
    };
    own && description.unicode_len() == 0 && same_text(events, "[]") && same_text(resource, "{}")
        && same_text(scope, "{}")
}

/// What stands under a key, where there is something.
pub open spec fn under(held: Option<Tree>, key: Seq<char>) -> Option<Tree> {
    match held {
        Some(t) => json::tree_member(t, key),
        None => None,
    }
}

/// A list that holds a text.
pub open spec fn lists_text(held: Option<Tree>, text: Seq<char>) -> bool {
    held matches Some(Tree::Array(list)) && list.contains(Tree::Text(text))
}

/// What the suite of rich log entries needs of the extension.
pub open spec fn capabilities_suffice(held: Tree) -> bool {
    let logs = under(json::tree_member(held, "signals"@), "logs"@);
    &&& json::tree_member(held, "data_abi"@) == Some(Tree::Unsigned(1))
    &&& lists_text(under(logs, "batches"@), "rich-v1"@)
    &&& under(logs, "authoritative_batch_entries"@) == Some(Tree::Unsigned(8192))
}

fn held_under<'a>(value: Option<&'a Json>, key: &str) -> (found: Option<&'a Json>)
    ensures
        json::tree_behind(found) == under(json::tree_behind(value), key@),
{
    match value {
        Some(v) => held_member(v, key),
        None => None,
    }
}

fn number_is(value: Option<&Json>, n: u64) -> (yes: bool)
    ensures
        yes == (json::tree_behind(value) == Some(Tree::Unsigned(n))),
{
    match value {
        Some(Json::Unsigned(m)) => *m == n,
        _ => false,
    }
}

fn list_has_text(value: Option<&Json>, text: &str) -> (yes: bool)
    ensures
        yes == lists_text(json::tree_behind(value), text@),
{
    let list = match value {
        Some(v) => match held_items(v) {
            Some(list) => list,
            None => return false,
        },
        None => return false,
    };
    let ghost held = json::trees(list@);
    let mut i: usize = 0;
    while i < list.len()
        invariant
            i <= list@.len(),
            held == json::trees(list@),
            json::tree_behind(value) == Some(Tree::Array(held)),
            forall|k: int| 0 <= k < i ==> #[trigger] held[k] != Tree::Text(text@),
        decreases list.len() - i,
    {
        assert(held[i as int] == json::tree(list@[i as int]));
        if text_is(&list[i], text) {
            assert(held.contains(Tree::Text(text@)));
            return true;
        }
        i += 1;
    }
    false
}

/// Whether capabilities have what the suite of rich log entries needs.
pub fn accepts_capabilities(value: &Json) -> (yes: bool)
    ensures
        yes == capabilities_suffice(json::tree(*value)),
{
    let logs = held_under(held_under(Some(value), "signals"), "logs");
    number_is(held_under(Some(value), "data_abi"), 1) && list_has_text(
        held_under(logs, "batches"),
        "rich-v1",
    ) && number_is(held_under(logs, "authoritative_batch_entries"), 8192)
}

/// Whether the extension says that it has what the suite of rich log entries needs.
pub fn accepts_extension(encoded: &str) -> (yes: bool)
    ensures
        yes == (documents::document_tree(encoded@) matches Some(held) && capabilities_suffice(held)),
{
    match document(encoded) {
        Some(value) => accepts_capabilities(&value),
        None => false,
    }
}

/// The bytes in a cell.
pub open spec fn blob_in(cell: SqlValue) -> Option<Seq<u8>> {
    match cell {
        SqlValue::Blob(b) => Some(b@),
        _ => None,
    }
}

/// The text in a cell.
pub open spec fn text_in(cell: SqlValue) -> Option<Seq<char>> {
    match cell {
        SqlValue::Text(t) => Some(t@),
        _ => None,
    }
}

/// The integer in a cell.
pub open spec fn integer_in(cell: SqlValue) -> Option<i64> {
    match cell {
        SqlValue::Integer(n) => Some(n),
        _ => None,
    }
}

/// What the document in a cell holds.
pub open spec fn document_in(cell: SqlValue) -> Option<Tree> {
    match cell {
        SqlValue::Text(t) => documents::document_tree(t@),
        _ => None,
    }
}

/// A row can be read as a span: it has the columns of one, and its structured
/// columns are documents.
pub open spec fn is_span(row: Seq<SqlValue>) -> bool {
    &&& row.len() == 14
    &&& blob_in(row[0]) is Some && blob_in(row[1]) is Some
    &&& row[2] is Null || blob_in(row[2]) is Some
    &&& text_in(row[3]) is Some && text_in(row[4]) is Some && text_in(row[5]) is Some
    &&& text_in(row[6]) is Some && text_in(row[10]) is Some
    &&& integer_in(row[7]) is Some && integer_in(row[8]) is Some
    &&& document_in(row[9]) is Some && document_in(row[11]) is Some
    &&& document_in(row[12]) is Some && document_in(row[13]) is Some
}

/// A span is what a row says, column by column.
pub open spec fn span_in(row: Seq<SqlValue>, span: SemanticSpan) -> bool {
    &&& blob_in(row[0]) == Some(span.trace_id@)
    &&& blob_in(row[1]) == Some(span.span_id@)
    &&& blob_in(row[2]) == (match span.parent_span_id {
        Some(p) => Some(p@),
        None => None,
    })
    &&& text_in(row[3]) == Some(span.name@)
    &&& text_in(row[4]) == Some(span.service@)
    &&& text_in(row[5]) == Some(span.kind@)
    &&& text_in(row[6]) == Some(span.status@)
    &&& integer_in(row[7]) == Some(span.start_ts)
    &&& integer_in(row[8]) == Some(span.duration_ns)
    &&& document_in(row[9]) == Some(json::tree(span.attributes))
    &&& text_in(row[10]) == Some(span.status_description@)
    &&& document_in(row[11]) == Some(json::tree(span.events))
    &&& document_in(row[12]) == Some(json::tree(span.resource))
    &&& document_in(row[13]) == Some(json::tree(span.instrumentation_scope))
}

fn blob(cell: &SqlValue) -> (found: Option<Vec<u8>>)
    ensures
        blob_in(*cell) == (match found {
            Some(b) => Some(b@),
            None => None,
        }),
{
    match cell {
        SqlValue::Blob(b) => {
            let mut out: Vec<u8> = Vec::new();
            out.extend_from_slice(b);
            assert(out@ =~= b@);
            Some(out)
        },
        _ => None,
    }
}

fn text(cell: &SqlValue) -> (found: Option<String>)
    ensures
        text_in(*cell) == (match found {
            Some(t) => Some(t@),
            None => None,
        }),
{
    match cell {
        SqlValue::Text(t) => Some(copied(t)),
        _ => None,
    }
}

fn integer(cell: &SqlValue) -> (found: Option<i64>)
    ensures
        found == integer_in(*cell),
{
    match cell {
        SqlValue::Integer(n) => Some(*n),
        _ => None,
    }
}

fn cell_document(cell: &SqlValue) -> (found: Option<Json>)
    ensures
        json::optional_tree(found) == document_in(*cell),
{
    match cell {
        SqlValue::Text(t) => document(t),
        _ => None,
    }
}

fn parent(cell: &SqlValue) -> (found: Option<Option<Vec<u8>>>)
    ensures
        found is Some == (*cell is Null || blob_in(*cell) is Some),
        found matches Some(p) ==> blob_in(*cell) == (match p {
            Some(b) => Some(b@),
            None => None,
        }),
{
    match cell {
        SqlValue::Null => Some(None),
        _ => match blob(cell) {
            Some(b) => Some(Some(b)),
            None => None,
        },
    }
}

/// The span that a row says. Nothing where the row cannot be read as one.
pub fn semantic_span(row: &Vec<SqlValue>) -> (found: Option<SemanticSpan>)
    ensures
        match found {
            Some(span) => is_span(row@) && span_in(row@, span),
            None => !is_span(row@),
        },
{
    if row.len() != 14 {
        return None;
    }
    Some(
        SemanticSpan {
            trace_id: blob(&row[0])?,
            span_id: blob(&row[1])?,
            parent_span_id: parent(&row[2])?,
            name: text(&row[3])?,
            service: text(&row[4])?,
            kind: text(&row[5])?,
            status: text(&row[6])?,
            start_ts: integer(&row[7])?,
            duration_ns: integer(&row[8])?,
            attributes: cell_document(&row[9])?,
            status_description: text(&row[10])?,
            events: cell_document(&row[11])?,
            resource: cell_document(&row[12])?,
            instrumentation_scope: cell_document(&row[13])?,
        },
    )
}

} // verus!
