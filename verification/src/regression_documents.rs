//! When the JSON documents of a regression check are accepted.
use crate::documents::{self, all_documents};
use crate::json::{self, copied, held_items, held_member, same_json, text_is, Json, Tree};
use crate::regressions::{Documents, Rule};
use crate::text;
use crate::values::SqlValue;
use vstd::prelude::*;

verus! {

/// What stands under one key.
pub open spec fn at(doc: Tree, key: Seq<char>) -> Option<Tree> {
    json::tree_member(doc, key)
}

/// What stands under two keys.
pub open spec fn at2(doc: Tree, first: Seq<char>, second: Seq<char>) -> Option<Tree> {
    match at(doc, first) {
        Some(inner) => at(inner, second),
        None => None,
    }
}

/// The value is an unsigned number.
pub open spec fn is_number(value: Option<Tree>, n: int) -> bool {
    value matches Some(Tree::Unsigned(m)) && m == n
}

/// The value is a boolean.
pub open spec fn is_bool(value: Option<Tree>, b: bool) -> bool {
    value == Some(Tree::Bool(b))
}

/// The value is null.
pub open spec fn is_null(value: Option<Tree>) -> bool {
    value == Some(Tree::Null)
}

/// The value is an array.
pub open spec fn is_array(value: Option<Tree>) -> bool {
    value matches Some(Tree::Array(_))
}

/// The value is a text.
pub open spec fn has_text(value: Option<Tree>, text: Seq<char>) -> bool {
    value == Some(Tree::Text(text))
}

/// The value is a number of any kind.
pub open spec fn is_numeric(value: Option<Tree>) -> bool {
    ||| value matches Some(Tree::Unsigned(_))
    ||| value matches Some(Tree::Negative(_))
    ||| value matches Some(Tree::Float(_, _))
}

/// Two optional values are both missing or equal.
pub open spec fn both_same(a: Option<Tree>, b: Option<Tree>) -> bool {
    match (a, b) {
        (Some(x), Some(y)) => json::same_trees(x, y),
        (None, None) => true,
        _ => false,
    }
}

/// An object of `n` members.
pub open spec fn is_object(doc: Tree, n: int) -> bool {
    doc matches Tree::Object(members) && members.len() == n
}

/// An array of `n` elements.
pub open spec fn is_list(doc: Tree, n: int) -> bool {
    doc matches Tree::Array(list) && list.len() == n
}

/// An element of an array.
pub open spec fn element(doc: Tree, i: int) -> Tree {
    match doc {
        Tree::Array(list) => list[i],
        _ => doc,
    }
}

/// The tags of the first log entry.
pub open spec fn first_tags(doc: Tree) -> bool {
    &&& is_list(doc, 10)
    &&& element(doc, 0) == Tree::Text("prod"@)
    &&& element(doc, 1) == Tree::Text(""@)
    &&& element(doc, 2) == Tree::Unsigned(123)
    &&& element(doc, 3) == Tree::Bool(true)
    &&& element(doc, 4) == Tree::Bool(false)
    &&& element(doc, 5) == Tree::Null
    &&& is_object(element(doc, 6), 1)
    &&& has_text(at(element(doc, 6), "nested"@), "ignored"@)
    &&& is_list(element(doc, 7), 1)
    &&& element(element(doc, 7), 0) == Tree::Text("ignored"@)
    &&& element(doc, 8) == Tree::Text("ab"@)
    &&& element(doc, 9) == Tree::Text("*"@)
}

/// The bits of one and a half.
pub const ONE_AND_A_HALF: u64 = 0x3ff8_0000_0000_0000;

/// The tags of the second log entry.
pub open spec fn second_tags(doc: Tree) -> bool {
    &&& is_list(doc, 7)
    &&& element(doc, 0) == Tree::Text("dev"@)
    &&& element(doc, 1) matches Tree::Float(bits, _) && bits == ONE_AND_A_HALF
    &&& element(doc, 2) == Tree::Negative(-2 as i64)
    &&& element(doc, 3) == Tree::Text("123"@)
    &&& element(doc, 4) == Tree::Text("a\"b"@)
    &&& element(doc, 5) == Tree::Text("a\nb"@)
    &&& element(doc, 6) == Tree::Text("a/b"@)
}

/// The packed fields of the first log entry.
pub open spec fn first_packed(doc: Tree) -> bool {
    &&& is_object(doc, 4)
    &&& has_text(at(doc, "host"@), "web-1"@)
    &&& is_number(at(doc, "duration_ms"@), 12)
    &&& (at(doc, "nested"@) matches Some(nested) && is_object(nested, 3) && is_bool(
        at(nested, "ok"@),
        true,
    ) && is_null(at(nested, "none"@)) && has_text(at(nested, "empty"@), ""@))
    &&& (at(doc, "tags"@) matches Some(tags) && first_tags(tags))
}

/// The packed fields of the second log entry.
pub open spec fn second_packed(doc: Tree) -> bool {
    &&& is_object(doc, 4)
    &&& has_text(at(doc, "host"@), "web-2"@)
    &&& is_number(at(doc, "duration_ms"@), 4)
    &&& (at(doc, "nested"@) matches Some(nested) && is_object(nested, 2) && has_text(
        at(nested, "ok"@),
        "true"@,
    ) && is_null(at(nested, "empty"@)))
    &&& (at(doc, "tags"@) matches Some(tags) && second_tags(tags))
}

/// The unpacked fields of the first log entry.
pub open spec fn first_unpacked(doc: Tree) -> bool {
    &&& is_object(doc, 5)
    &&& is_bool(at(doc, "ok"@), true)
    &&& is_number(at(doc, "count"@), 2)
    &&& is_null(at(doc, "none"@))
    &&& has_text(at(doc, "empty"@), ""@)
    &&& has_text(at(doc, "missing"@), ""@)
}

/// The unpacked fields of the second log entry.
pub open spec fn second_unpacked(doc: Tree) -> bool {
    &&& is_object(doc, 5)
    &&& has_text(at(doc, "ok"@), "true"@)
    &&& has_text(at(doc, "count"@), "2"@)
    &&& has_text(at(doc, "none"@), ""@)
    &&& is_null(at(doc, "empty"@))
    &&& has_text(at(doc, "missing"@), ""@)
}

/// What a rule asks of every single document.
pub open spec fn each(rule: Rule, doc: Tree) -> bool {
    match rule {
        Rule::Deleted => at2(doc, "deployment"@, "region"@) is None && at(doc, "duration_ms"@) is None
            && at(doc, "service"@) is Some,
        Rule::FirstRetained => is_number(at(doc, "duration_ms"@), 4) && has_text(
            at(doc, "service"@),
            "api"@,
        ) && is_null(at2(doc, "nested"@, "empty"@)),
        Rule::LastRetained => is_number(at(doc, "duration_ms"@), 12) && has_text(
            at(doc, "service"@),
            "api"@,
        ) && has_text(at2(doc, "nested"@, "empty"@), ""@),
        Rule::CopiedDuration => both_same(at(doc, "copied"@), at(doc, "duration_ms"@)) && at(
            doc,
            "host"@,
        ) is Some,
        Rule::MovedDuration => at(doc, "moved"@) is Some && at(doc, "duration_ms"@) is None && at(
            doc,
            "host"@,
        ) is Some,
        Rule::EmptyDropped => at2(doc, "nested"@, "empty"@) is None && at2(doc, "nested"@, "ok"@) is Some
            && at(doc, "tags"@) is Some,
        Rule::RowAny => is_object(doc, 1) && (at(doc, "nested"@) matches Some(nested) && is_object(
            nested,
            2,
        ) && is_bool(at(nested, "ok"@), true) && is_null(at(nested, "none"@))),
        Rule::TypedRowAny => is_bool(at2(doc, "nested"@, "ok"@), true) && is_array(at(doc, "tags"@)),
        Rule::TagsArrays => is_array(at(doc, "tags"@)),
        Rule::CopiedArrays => is_array(at(doc, "copied"@)),
        Rule::CopiedEmpty => has_text(at(doc, "copied"@), ""@),
        Rule::MovedFlags => at2(doc, "nested"@, "ok"@) is None,
        Rule::MovedArrays => is_array(at(doc, "moved"@)) && at(doc, "tags"@) is None,
        Rule::MovedParents => has_text(at(doc, "moved"@), ""@) && at(doc, "nested"@) is Some,
        Rule::MovedEmpty => has_text(at(doc, "moved"@), ""@),
        Rule::HostKept => at(doc, "host"@) is Some,
        Rule::HostOverwritten => at(doc, "duration_ms"@) is None && is_numeric(at(doc, "host"@)),
        _ => true,
    }
}

/// What a rule asks of the first two documents together.
pub open spec fn first_two(rule: Rule, a: Tree, b: Tree) -> bool {
    match rule {
        Rule::Packed => first_packed(a) && second_packed(b),
        Rule::Unpacked => first_unpacked(a) && second_unpacked(b),
        Rule::RowExtrema => has_text(at(a, "host"@), "web-2"@) && has_text(
            at2(a, "nested"@, "ok"@),
            "true"@,
        ) && has_text(at(b, "host"@), "web-1"@) && is_bool(at2(b, "nested"@, "ok"@), true)
            && is_null(at2(b, "nested"@, "none"@)),
        Rule::CopiedFlags => is_bool(at(a, "copied"@), true) && has_text(
            at(b, "copied"@),
            "true"@,
        ),
        Rule::CopiedNull => is_null(at(a, "copied"@)) && has_text(at(b, "copied"@), ""@),
        Rule::MovedFlags => is_bool(at(a, "moved"@), true) && has_text(
            at(b, "moved"@),
            "true"@,
        ),
        Rule::MovedNull => is_null(at(a, "moved"@)) && at2(a, "nested"@, "none"@) is None
            && has_text(at(b, "moved"@), ""@),
        _ => true,
    }
}

/// The rule speaks of the first two documents.
pub open spec fn needs_two(rule: Rule) -> bool {
    rule is Packed || rule is Unpacked || rule is RowExtrema || rule is CopiedFlags
        || rule is CopiedNull || rule is MovedFlags || rule is MovedNull
}

/// The documents are what the rule asks for.
pub open spec fn documents_accepted(rule: Rule, docs: Seq<Tree>) -> bool {
    &&& forall|i: int| 0 <= i < docs.len() ==> each(rule, #[trigger] docs[i])
    &&& needs_two(rule) ==> docs.len() >= 2 && first_two(rule, docs[0], docs[1])
}

fn number_is(value: Option<&Json>, n: u64) -> (yes: bool)
    ensures
        yes == is_number(json::tree_behind(value), n as int),
{
    match value {
        Some(Json::Unsigned(m)) => *m == n,
        _ => false,
    }
}

fn bool_is(value: Option<&Json>, b: bool) -> (yes: bool)
    ensures
        yes == is_bool(json::tree_behind(value), b),
{
    match value {
        Some(Json::Bool(c)) => *c == b,
        _ => false,
    }
}

fn null_is(value: Option<&Json>) -> (yes: bool)
    ensures
        yes == is_null(json::tree_behind(value)),
{
    match value {
        Some(Json::Null) => true,
        _ => false,
    }
}

fn array_is(value: Option<&Json>) -> (yes: bool)
    ensures
        yes == is_array(json::tree_behind(value)),
{
    match value {
        Some(Json::Array(_)) => true,
        _ => false,
    }
}

fn numeric_is(value: Option<&Json>) -> (yes: bool)
    ensures
        yes == is_numeric(json::tree_behind(value)),
{
    match value {
        Some(Json::Unsigned(_)) => true,
        Some(Json::Negative(_)) => true,
        Some(Json::Float(_, _)) => true,
        _ => false,
    }
}

fn has(value: Option<&Json>, text: &str) -> (yes: bool)
    ensures
        yes == has_text(json::tree_behind(value), text@),
{
    match value {
        Some(v) => text_is(v, text),
        None => false,
    }
}

fn object_is(doc: &Json, n: usize) -> (yes: bool)
    ensures
        yes == is_object(json::tree(*doc), n as int),
{
    match doc {
        Json::Object(members) => members.len() == n,
        _ => false,
    }
}

fn member2<'a>(doc: &'a Json, first: &str, second: &str) -> (found: Option<&'a Json>)
    ensures
        json::tree_behind(found) == at2(json::tree(*doc), first@, second@),
{
    match held_member(doc, first) {
        Some(inner) => held_member(inner, second),
        None => None,
    }
}

fn first_tags_are(doc: &Json) -> (yes: bool)
    ensures
        yes == first_tags(json::tree(*doc)),
{
    match held_items(doc) {
        Some(list) => {
            if list.len() != 10 {
                return false;
            }
            let ghost held = json::trees(list@);
            assert(json::tree(*doc) == Tree::Array(held));
            assert forall|i: int| 0 <= i < 10 implies json::tree(#[trigger] list@[i]) == held[i] by {}
            text_is(&list[0], "prod") && text_is(&list[1], "") && number_is(Some(&list[2]), 123)
                && bool_is(Some(&list[3]), true) && bool_is(Some(&list[4]), false) && null_is(
                Some(&list[5]),
            ) && object_is(&list[6], 1) && has(held_member(&list[6], "nested"), "ignored") && (
            match held_items(&list[7]) {
                Some(inner) => {
                    assert(inner@.len() > 0 ==> json::trees(inner@)[0] == json::tree(inner@[0]));
                    inner.len() == 1 && text_is(&inner[0], "ignored")
                },
                None => false,
            }) && text_is(&list[8], "ab") && text_is(&list[9], "*")
        },
        None => false,
    }
}

fn second_tags_are(doc: &Json) -> (yes: bool)
    ensures
        yes == second_tags(json::tree(*doc)),
{
    match held_items(doc) {
        Some(list) => {
            if list.len() != 7 {
                return false;
            }
            let ghost held = json::trees(list@);
            assert(json::tree(*doc) == Tree::Array(held));
            assert forall|i: int| 0 <= i < 7 implies json::tree(#[trigger] list@[i]) == held[i] by {}
            text_is(&list[0], "dev") && (match &list[1] {
                Json::Float(bits, _) => *bits == ONE_AND_A_HALF,
                _ => false,
            }) && (match &list[2] {
                Json::Negative(n) => *n == -2,
                _ => false,
            }) && text_is(&list[3], "123") && text_is(&list[4], "a\"b") && text_is(
                &list[5],
                "a\nb",
            ) && text_is(&list[6], "a/b")
        },
        None => false,
    }
}

fn first_packed_is(doc: &Json) -> (yes: bool)
    ensures
        yes == first_packed(json::tree(*doc)),
{
    object_is(doc, 4) && has(held_member(doc, "host"), "web-1") && number_is(
        held_member(doc, "duration_ms"),
        12,
    ) && (match held_member(doc, "nested") {
        Some(nested) => object_is(nested, 3) && bool_is(held_member(nested, "ok"), true) && null_is(
            held_member(nested, "none"),
        ) && has(held_member(nested, "empty"), ""),
        None => false,
    }) && (match held_member(doc, "tags") {
        Some(tags) => first_tags_are(tags),
        None => false,
    })
}

fn second_packed_is(doc: &Json) -> (yes: bool)
    ensures
        yes == second_packed(json::tree(*doc)),
{
    object_is(doc, 4) && has(held_member(doc, "host"), "web-2") && number_is(
        held_member(doc, "duration_ms"),
        4,
    ) && (match held_member(doc, "nested") {
        Some(nested) => object_is(nested, 2) && has(held_member(nested, "ok"), "true") && null_is(
            held_member(nested, "empty"),
        ),
        None => false,
    }) && (match held_member(doc, "tags") {
        Some(tags) => second_tags_are(tags),
        None => false,
    })
}

fn first_unpacked_is(doc: &Json) -> (yes: bool)
    ensures
        yes == first_unpacked(json::tree(*doc)),
{
    object_is(doc, 5) && bool_is(held_member(doc, "ok"), true) && number_is(held_member(doc, "count"), 2)
        && null_is(held_member(doc, "none")) && has(held_member(doc, "empty"), "") && has(
        held_member(doc, "missing"),
        "",
    )
}

fn second_unpacked_is(doc: &Json) -> (yes: bool)
    ensures
        yes == second_unpacked(json::tree(*doc)),
{
    object_is(doc, 5) && has(held_member(doc, "ok"), "true") && has(held_member(doc, "count"), "2") && has(
        held_member(doc, "none"),
        "",
    ) && null_is(held_member(doc, "empty")) && has(held_member(doc, "missing"), "")
}

fn same_optional(a: Option<&Json>, b: Option<&Json>) -> (yes: bool)
    ensures
        yes == both_same(json::tree_behind(a), json::tree_behind(b)),
{
    match (a, b) {
        (Some(x), Some(y)) => {
            proof {
                json::equal_values_hold_equal(*x, *y);
            }
            same_json(x, y)
        },
        (None, None) => true,
        _ => false,
    }
}

fn each_is(rule: Rule, doc: &Json) -> (yes: bool)
    ensures
        yes == each(rule, json::tree(*doc)),
{
    match rule {
        Rule::Deleted => member2(doc, "deployment", "region").is_none() && held_member(
            doc,
            "duration_ms",
        ).is_none() && held_member(doc, "service").is_some(),
        Rule::FirstRetained => number_is(held_member(doc, "duration_ms"), 4) && has(
            held_member(doc, "service"),
            "api",
        ) && null_is(member2(doc, "nested", "empty")),
        Rule::LastRetained => number_is(held_member(doc, "duration_ms"), 12) && has(
            held_member(doc, "service"),
            "api",
        ) && has(member2(doc, "nested", "empty"), ""),
        Rule::CopiedDuration => same_optional(held_member(doc, "copied"), held_member(doc, "duration_ms"))
            && held_member(doc, "host").is_some(),
        Rule::MovedDuration => held_member(doc, "moved").is_some() && held_member(doc, "duration_ms").is_none()
            && held_member(doc, "host").is_some(),
        Rule::EmptyDropped => member2(doc, "nested", "empty").is_none() && member2(
            doc,
            "nested",
            "ok",
        ).is_some() && held_member(doc, "tags").is_some(),
        Rule::RowAny => object_is(doc, 1) && (match held_member(doc, "nested") {
            Some(nested) => object_is(nested, 2) && bool_is(held_member(nested, "ok"), true) && null_is(
                held_member(nested, "none"),
            ),
            None => false,
        }),
        Rule::TypedRowAny => bool_is(member2(doc, "nested", "ok"), true) && array_is(
            held_member(doc, "tags"),
        ),
        Rule::TagsArrays => array_is(held_member(doc, "tags")),
        Rule::CopiedArrays => array_is(held_member(doc, "copied")),
        Rule::CopiedEmpty => has(held_member(doc, "copied"), ""),
        Rule::MovedFlags => member2(doc, "nested", "ok").is_none(),
        Rule::MovedArrays => array_is(held_member(doc, "moved")) && held_member(doc, "tags").is_none(),
        Rule::MovedParents => has(held_member(doc, "moved"), "") && held_member(doc, "nested").is_some(),
        Rule::MovedEmpty => has(held_member(doc, "moved"), ""),
        Rule::HostKept => held_member(doc, "host").is_some(),
        Rule::HostOverwritten => held_member(doc, "duration_ms").is_none() && numeric_is(
            held_member(doc, "host"),
        ),
        _ => true,
    }
}

fn first_two_are(rule: Rule, a: &Json, b: &Json) -> (yes: bool)
    ensures
        yes == first_two(rule, json::tree(*a), json::tree(*b)),
{
    match rule {
        Rule::Packed => first_packed_is(a) && second_packed_is(b),
        Rule::Unpacked => first_unpacked_is(a) && second_unpacked_is(b),
        Rule::RowExtrema => has(held_member(a, "host"), "web-2") && has(
            member2(a, "nested", "ok"),
            "true",
        ) && has(held_member(b, "host"), "web-1") && bool_is(member2(b, "nested", "ok"), true) && null_is(
            member2(b, "nested", "none"),
        ),
        Rule::CopiedFlags => bool_is(held_member(a, "copied"), true) && has(held_member(b, "copied"), "true"),
        Rule::CopiedNull => null_is(held_member(a, "copied")) && has(held_member(b, "copied"), ""),
        Rule::MovedFlags => bool_is(held_member(a, "moved"), true) && has(held_member(b, "moved"), "true"),
        Rule::MovedNull => null_is(held_member(a, "moved")) && member2(a, "nested", "none").is_none() && has(
            held_member(b, "moved"),
            "",
        ),
        _ => true,
    }
}

fn two_needed(rule: Rule) -> (yes: bool)
    ensures
        yes == needs_two(rule),
{
    match rule {
        Rule::Packed => true,
        Rule::Unpacked => true,
        Rule::RowExtrema => true,
        Rule::CopiedFlags => true,
        Rule::CopiedNull => true,
        Rule::MovedFlags => true,
        Rule::MovedNull => true,
        _ => false,
    }
}

/// Whether the documents are what the rule asks for.
pub fn accepts_documents(rule: Rule, docs: &Vec<Json>) -> (yes: bool)
    ensures
        yes == documents_accepted(rule, json::trees(docs@)),
{
    let ghost held = json::trees(docs@);
    assert(held.len() == docs@.len());
    assert forall|i: int| 0 <= i < held.len() implies #[trigger] held[i] == json::tree(docs@[i]) by {}
    if two_needed(rule) {
        if docs.len() < 2 {
            return false;
        }
        if !first_two_are(rule, &docs[0], &docs[1]) {
            return false;
        }
    }
    let mut i: usize = 0;
    while i < docs.len()
        invariant
            i <= docs@.len(),
            held == json::trees(docs@),
            forall|k: int| 0 <= k < i ==> each(rule, #[trigger] held[k]),
        decreases docs.len() - i,
    {
        assert(held[i as int] == json::tree(docs@[i as int]));
        if !each_is(rule, &docs[i]) {
            return false;
        }
        i += 1;
    }
    true
}

/// The columns of a row that hold documents.
pub open spec fn document_columns(documents: Documents, width: nat) -> Seq<int> {
    match documents {
        Documents::Nothing => Seq::empty(),
        Documents::Column(column) => seq![column as int],
        Documents::Columns(first, second) => seq![first as int, second as int],
        Documents::All => Seq::new(width, |i: int| i),
    }
}

/// The text of a cell. Nothing where the row has no such cell, or the cell no text.
pub open spec fn cell_text(row: Seq<SqlValue>, column: int) -> Option<Seq<char>> {
    if 0 <= column < row.len() {
        match row[column] {
            SqlValue::Text(t) => Some(t@),
            _ => None,
        }
    } else {
        None
    }
}

/// The texts of some cells of a row. Nothing where one of them has none.
pub open spec fn cell_texts(row: Seq<SqlValue>, columns: Seq<int>) -> Option<Seq<Seq<char>>>
    decreases columns.len(),
{
    if columns.len() == 0 {
        Some(Seq::empty())
    } else {
        match (cell_texts(row, columns.drop_last()), cell_text(row, columns.last())) {
            (Some(list), Some(t)) => Some(list.push(t)),
            _ => None,
        }
    }
}

/// The texts of the cells that hold documents, row by row. Nothing where one of them
/// has none.
pub open spec fn document_texts(rows: Seq<Vec<SqlValue>>, documents: Documents) -> Option<
    Seq<Seq<char>>,
>
    decreases rows.len(),
{
    if rows.len() == 0 {
        Some(Seq::empty())
    } else {
        let row = rows.last()@;
        match (
            document_texts(rows.drop_last(), documents),
            cell_texts(row, document_columns(documents, row.len())),
        ) {
            (Some(list), Some(more)) => Some(list + more),
            _ => None,
        }
    }
}

fn chosen_columns(documents: Documents, width: usize) -> (columns: Vec<usize>)
    ensures
        columns@.map_values(|c: usize| c as int) == document_columns(documents, width as nat),
{
    let mut columns: Vec<usize> = Vec::new();
    match documents {
        Documents::Nothing => {},
        Documents::Column(column) => {
            columns.push(column);
        },
        Documents::Columns(first, second) => {
            columns.push(first);
            columns.push(second);
        },
        Documents::All => {
            let mut i: usize = 0;
            while i < width
                invariant
                    i <= width,
                    columns@.len() == i,
                    forall|k: int| 0 <= k < i ==> #[trigger] columns@[k] == k,
                decreases width - i,
            {
                columns.push(i);
                i += 1;
            }
        },
    }
    assert(columns@.map_values(|c: usize| c as int) =~= document_columns(documents, width as nat));
    columns
}

proof fn no_texts_later(row: Seq<SqlValue>, columns: Seq<int>, n: int)
    requires
        0 <= n <= columns.len(),
        cell_texts(row, columns.take(n)) is None,
    ensures
        cell_texts(row, columns) is None,
    decreases columns.len() - n,
{
    if n == columns.len() {
        assert(columns.take(n) =~= columns);
    } else {
        assert(columns.take(n + 1).drop_last() =~= columns.take(n));
        no_texts_later(row, columns, n + 1);
    }
}

/// Texts by their characters, where there are any.
pub open spec fn optional_texts(list: Option<Vec<String>>) -> Option<Seq<Seq<char>>> {
    match list {
        Some(l) => Some(text::texts(l@)),
        None => None,
    }
}

fn row_texts(row: &Vec<SqlValue>, documents: Documents) -> (list: Option<Vec<String>>)
    ensures
        optional_texts(list) == cell_texts(row@, document_columns(documents, row@.len())),
{
    let columns = chosen_columns(documents, row.len());
    let ghost all = document_columns(documents, row@.len());
    let mut list: Vec<String> = Vec::new();
    let mut i: usize = 0;
    assert(all.take(0) =~= Seq::empty());
    assert(text::texts(list@) =~= Seq::empty());
    while i < columns.len()
        invariant
            i <= columns@.len(),
            all == columns@.map_values(|c: usize| c as int),
            all == document_columns(documents, row@.len()),
            cell_texts(row@, all.take(i as int)) == Some(text::texts(list@)),
        decreases columns.len() - i,
    {
        let column: usize = columns[i];
        assert(all[i as int] == column);
        assert(all.take(i + 1).drop_last() =~= all.take(i as int));
        assert(all.take(i + 1).last() == column);
        if column >= row.len() {
            proof {
                no_texts_later(row@, all, i + 1);
            }
            return None;
        }
        match &row[column] {
            SqlValue::Text(t) => {
                let ghost before = text::texts(list@);
                list.push(copied(t));
                assert(text::texts(list@) =~= before.push(t@));
            },
            _ => {
                proof {
                    no_texts_later(row@, all, i + 1);
                }
                return None;
            },
        }
        i += 1;
    }
    assert(all.take(i as int) =~= all);
    Some(list)
}

proof fn no_rows_later(rows: Seq<Vec<SqlValue>>, documents: Documents, n: int)
    requires
        0 <= n <= rows.len(),
        document_texts(rows.take(n), documents) is None,
    ensures
        document_texts(rows, documents) is None,
    decreases rows.len() - n,
{
    if n == rows.len() {
        assert(rows.take(n) =~= rows);
    } else {
        assert(rows.take(n + 1).drop_last() =~= rows.take(n));
        no_rows_later(rows, documents, n + 1);
    }
}

/// The texts of the cells that hold documents, row by row. Nothing where one of them
/// has none.
pub fn document_cells(rows: &Vec<Vec<SqlValue>>, documents: Documents) -> (cells: Option<Vec<String>>)
    ensures
        optional_texts(cells) == document_texts(rows@, documents),
{
    let mut list: Vec<String> = Vec::new();
    let mut i: usize = 0;
    assert(rows@.take(0) =~= Seq::empty());
    assert(text::texts(list@) =~= Seq::empty());
    while i < rows.len()
        invariant
            i <= rows@.len(),
            document_texts(rows@.take(i as int), documents) == Some(text::texts(list@)),
        decreases rows.len() - i,
    {
        assert(rows@.take(i + 1).drop_last() =~= rows@.take(i as int));
        assert(rows@.take(i + 1).last() == rows@[i as int]);
        match row_texts(&rows[i], documents) {
            Some(mut more) => {
                let ghost before = list@;
                let ghost added = more@;
                list.append(&mut more);
                assert(text::texts(list@) =~= text::texts(before) + text::texts(added));
            },
            None => {
                proof {
                    no_rows_later(rows@, documents, i + 1);
                }
                return None;
            },
        }
        i += 1;
    }
    assert(rows@.take(i as int) =~= rows@);
    Some(list)
}

/// What the cells that hold documents hold. Nothing where one of them has no text or
/// is no document.
pub open spec fn cells_held(rows: Seq<Vec<SqlValue>>, documents: Documents) -> Option<Seq<Tree>> {
    match document_texts(rows, documents) {
        Some(cells) => documents::document_trees(cells),
        None => None,
    }
}

/// Whether the documents in the rows of a check are what its rule asks for.
pub fn accepts_cells(rule: Rule, rows: &Vec<Vec<SqlValue>>, documents: Documents) -> (yes: bool)
    ensures
        yes == (cells_held(rows@, documents) matches Some(held) && documents_accepted(rule, held)),
{
    match document_cells(rows, documents) {
        None => false,
        Some(cells) => match all_documents(&cells) {
            None => false,
            Some(docs) => accepts_documents(rule, &docs),
        },
    }
}

} // verus!
