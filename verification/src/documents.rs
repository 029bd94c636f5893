//! JSON documents: text and bytes read into values.
use crate::bytes;
use crate::json::{self, copied, same_json, Json, Tree};
use crate::order;
use crate::text;
use vstd::prelude::*;

verus! {

/// A value of the JSON parser.
#[verifier::external_type_specification]
#[verifier::external_body]
pub struct ParsedValue(serde_json::Value);

/// What a value of the parser holds.
pub uninterp spec fn held(value: serde_json::Value) -> Tree;

/// What `serde_json::from_str` reads in a text; nothing where the text is no
/// document.
pub uninterp spec fn document_tree(document: Seq<char>) -> Option<Tree>;

/// What `serde_json::from_slice` reads in bytes; nothing where they are no document.
pub uninterp spec fn byte_tree(document: Seq<u8>) -> Option<Tree>;

/// What an optional value of the parser holds.
pub open spec fn held_by(value: Option<serde_json::Value>) -> Option<Tree> {
    match value {
        Some(v) => Some(held(v)),
        None => None,
    }
}

/// `serde_json::from_str` to a `serde_json::Value`. What is read depends on the text
/// alone; the grammar is not stated.
#[verifier::external_body]
fn parsed(document: &str) -> (value: Option<serde_json::Value>)
    ensures
        held_by(value) == document_tree(document@),
{
    serde_json::from_str::<serde_json::Value>(document).ok()
}

/// `serde_json::from_slice` to a `serde_json::Value`. What is read depends on the
/// bytes alone; the grammar is not stated.
#[verifier::external_body]
fn parsed_bytes(document: &[u8]) -> (value: Option<serde_json::Value>)
    ensures
        held_by(value) == byte_tree(document@),
{
    serde_json::from_slice::<serde_json::Value>(document).ok()
}

/// The outermost layer of a value.
enum Layer<'a> {
    Null,
    Bool(bool),
    Unsigned(u64),
    Negative(i64),
    /// The bits of the number, and the number in print.
    Float(u64, String),
    Text(&'a String),
    Array(&'a Vec<serde_json::Value>),
    Object(Vec<(&'a String, &'a serde_json::Value)>),
}

/// What a layer holds.
spec fn layer_tree(layer: Layer<'_>) -> Tree {
    match layer {
        Layer::Null => Tree::Null,
        Layer::Bool(x) => Tree::Bool(x),
        Layer::Unsigned(x) => Tree::Unsigned(x),
        Layer::Negative(x) => Tree::Negative(x),
        Layer::Float(x, t) => Tree::Float(x, t@),
        Layer::Text(t) => Tree::Text(t@),
        Layer::Array(list) => Tree::Array(list@.map_values(|v: serde_json::Value| held(v))),
        Layer::Object(list) => Tree::Object(
            list@.map_values(|m: (&String, &serde_json::Value)| (m.0@, held(*m.1))),
        ),
    }
}

/// The variants of `serde_json::Value`. A number is told apart by
/// `serde_json::Number::as_u64` and `as_i64`, and otherwise given by `as_f64` and its
/// print. `serde_json::Map::iter` gives the members of an object in the ascending
/// order of their keys.
#[verifier::external_body]
fn opened<'a>(value: &'a serde_json::Value) -> (layer: Layer<'a>)
    ensures
        layer_tree(layer) == held(*value),
        layer_tree(layer) matches Tree::Object(members) ==> order::ordered(members),
{
    match value {
        serde_json::Value::Null => Layer::Null,
        serde_json::Value::Bool(x) => Layer::Bool(*x),
        serde_json::Value::Number(n) => match (n.as_u64(), n.as_i64()) {
            (Some(x), _) => Layer::Unsigned(x),
            (None, Some(x)) => Layer::Negative(x),
            (None, None) => Layer::Float(n.as_f64().map_or(0, |x| x.to_bits()), n.to_string()),
        },
        serde_json::Value::String(t) => Layer::Text(t),
        serde_json::Value::Array(list) => Layer::Array(list),
        serde_json::Value::Object(members) => Layer::Object(members.iter().collect()),
    }
}

/// A value of the parser as a value of the library.
#[verifier::loop_isolation(false)]
fn converted(value: &serde_json::Value) -> (result: Json)
    ensures
        json::tree(result) == held(*value),
        json::well_formed(json::tree(result)),
    decreases held(*value),
{
    let layer = opened(value);
    let ghost whole = held(*value);
    assert(layer_tree(layer) == whole);
    match layer {
        Layer::Null => Json::Null,
        Layer::Bool(x) => Json::Bool(x),
        Layer::Unsigned(x) => Json::Unsigned(x),
        Layer::Negative(x) => Json::Negative(x),
        Layer::Float(x, t) => Json::Float(x, t),
        Layer::Text(t) => Json::Text(copied(t)),
        Layer::Array(items) => {
            let mut list: Vec<Json> = Vec::new();
            let mut i: usize = 0;
            while i < items.len()
                invariant
                    i <= items@.len(),
                    list@.len() == i,
                    forall|k: int| 0 <= k < i ==> json::tree(#[trigger] list@[k]) == held(items@[k]),
                    forall|k: int| 0 <= k < i ==> json::well_formed(json::tree(#[trigger] list@[k])),
                decreases items.len() - i,
            {
                assert(whole->Array_0[i as int] == held(items@[i as int]));
                assert(decreases_to!(whole => whole->Array_0));
                assert(decreases_to!(whole->Array_0 => whole->Array_0[i as int]));
                list.push(converted(&items[i]));
                i += 1;
            }
            proof {
                json::array_tree(list);
                assert(json::trees(list@) =~= whole->Array_0);
                json::array_is_well_formed(json::trees(list@));
            }
            Json::Array(list)
        },
        Layer::Object(members) => {
            let mut list: Vec<(String, Json)> = Vec::new();
            let mut i: usize = 0;
            while i < members.len()
                invariant
                    i <= members@.len(),
                    list@.len() == i,
                    forall|k: int|
                        0 <= k < i ==> (#[trigger] list@[k]).0@ == members@[k].0@ && json::tree(
                            list@[k].1,
                        ) == held(*members@[k].1) && json::well_formed(json::tree(list@[k].1)),
                decreases members.len() - i,
            {
                assert(whole->Object_0[i as int] == (members@[i as int].0@, held(*members@[i as int].1)));
                assert(decreases_to!(whole => whole->Object_0));
                assert(decreases_to!(whole->Object_0 => whole->Object_0[i as int]));
                assert(decreases_to!(whole->Object_0[i as int] => whole->Object_0[i as int].1));
                list.push((copied(members[i].0), converted(members[i].1)));
                i += 1;
            }
            proof {
                json::object_tree(list);
                assert(json::member_trees(list@) =~= whole->Object_0);
                assert forall|k: int| 0 <= k < whole->Object_0.len() implies json::well_formed(
                    (#[trigger] whole->Object_0[k]).1,
                ) by {
                    assert(json::member_trees(list@)[k] == (list@[k].0@, json::tree(list@[k].1)));
                }
            }
            Json::Object(list)
        },
    }
}

/// The value that a text holds; nothing where the text is no document.
pub fn document(text: &str) -> (value: Option<Json>)
    ensures
        json::optional_tree(value) == document_tree(text@),
        value matches Some(v) ==> json::well_formed(json::tree(v)),
{
    match parsed(text) {
        Some(v) => Some(converted(&v)),
        None => None,
    }
}

/// The value that bytes hold; nothing where they are no document.
pub fn byte_document(bytes: &[u8]) -> (value: Option<Json>)
    ensures
        json::optional_tree(value) == byte_tree(bytes@),
        value matches Some(v) ==> json::well_formed(json::tree(v)),
{
    match parsed_bytes(bytes) {
        Some(v) => Some(converted(&v)),
        None => None,
    }
}

/// Two texts are documents, and what they hold is equal.
pub open spec fn documents_agree(a: Seq<char>, b: Seq<char>) -> bool {
    document_tree(a) matches Some(x) && document_tree(b) matches Some(y) && json::same_trees(x, y)
}

/// Whether two texts are documents that hold equal values.
pub fn same_documents(a: &str, b: &str) -> (same: bool)
    ensures
        same == documents_agree(a@, b@),
{
    match (document(a), document(b)) {
        (Some(x), Some(y)) => {
            proof {
                json::equal_values_hold_equal(x, y);
            }
            same_json(&x, &y)
        },
        _ => false,
    }
}

/// What texts hold, one after the other; nothing where one of them is no document.
pub open spec fn document_trees(list: Seq<Seq<char>>) -> Option<Seq<Tree>> {
    if forall|i: int| 0 <= i < list.len() ==> document_tree(#[trigger] list[i]) is Some {
        Some(list.map_values(|t: Seq<char>| document_tree(t)->Some_0))
    } else {
        None
    }
}

/// What byte strings hold, one after the other; nothing where one of them is no
/// document.
pub open spec fn byte_trees(list: Seq<Seq<u8>>) -> Option<Seq<Tree>> {
    if forall|i: int| 0 <= i < list.len() ==> byte_tree(#[trigger] list[i]) is Some {
        Some(list.map_values(|b: Seq<u8>| byte_tree(b)->Some_0))
    } else {
        None
    }
}

/// What the values of an optional list hold.
pub open spec fn optional_trees(list: Option<Vec<Json>>) -> Option<Seq<Tree>> {
    match list {
        Some(l) => Some(json::trees(l@)),
        None => None,
    }
}

/// The values that texts hold; nothing where one of them is no document.
pub fn all_documents(list: &Vec<String>) -> (values: Option<Vec<Json>>)
    ensures
        optional_trees(values) == document_trees(text::texts(list@)),
        values matches Some(l) ==> json::all_well_formed(json::trees(l@)),
{
    let ghost all = text::texts(list@);
    let mut values: Vec<Json> = Vec::new();
    let mut i: usize = 0;
    while i < list.len()
        invariant
            i <= list@.len(),
            all == text::texts(list@),
            values@.len() == i,
            forall|k: int| 0 <= k < i ==> document_tree(#[trigger] all[k]) == Some(json::tree(values@[k])),
            forall|k: int| 0 <= k < i ==> json::well_formed(json::tree(#[trigger] values@[k])),
        decreases list.len() - i,
    {
        assert(all[i as int] == list@[i as int]@);
        match document(&list[i]) {
            Some(v) => values.push(v),
            None => {
                assert(document_tree(all[i as int]) is None);
                return None;
            },
        }
        i += 1;
    }
    assert(json::trees(values@) =~= all.map_values(|t: Seq<char>| document_tree(t)->Some_0));
    Some(values)
}

/// The values that byte strings hold; nothing where one of them is no document.
pub fn all_byte_documents(list: &Vec<Vec<u8>>) -> (values: Option<Vec<Json>>)
    ensures
        optional_trees(values) == byte_trees(bytes::byte_strings(list@)),
        values matches Some(l) ==> json::all_well_formed(json::trees(l@)),
{
    let ghost all = bytes::byte_strings(list@);
    let mut values: Vec<Json> = Vec::new();
    let mut i: usize = 0;
    while i < list.len()
        invariant
            i <= list@.len(),
            all == bytes::byte_strings(list@),
            values@.len() == i,
            forall|k: int| 0 <= k < i ==> byte_tree(#[trigger] all[k]) == Some(json::tree(values@[k])),
            forall|k: int| 0 <= k < i ==> json::well_formed(json::tree(#[trigger] values@[k])),
        decreases list.len() - i,
    {
        assert(all[i as int] == list@[i as int]@);
        match byte_document(&list[i]) {
            Some(v) => values.push(v),
            None => {
                assert(byte_tree(all[i as int]) is None);
                return None;
            },
        }
        i += 1;
    }
    assert(json::trees(values@) =~= all.map_values(|b: Seq<u8>| byte_tree(b)->Some_0));
    Some(values)
}

} // verus!
