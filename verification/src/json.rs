//! JSON values. Floats are bit patterns. In a well formed value the members of an
//! object stand in the ascending order of their keys.
use crate::ieee::{self, real_eq};
use crate::order::{self, less_text};
use crate::text::{self, push_char, push_hex, same_text};
use vstd::prelude::*;
use vstd::string::*;

verus! {

/// A JSON value.
#[derive(Debug)]
pub enum Json {
    Null,
    Bool(bool),
    Unsigned(u64),
    Negative(i64),
    /// The bits of the number, and the number in print.
    Float(u64, String),
    Text(String),
    Array(Vec<Json>),
    Object(Vec<(String, Json)>),
}

/// Two values are equal: of the same kind, with equal contents. Floats are
/// compared as floats, arrays and objects member by member.
pub open spec fn same(a: Json, b: Json) -> bool
    decreases a,
{
    match (a, b) {
        (Json::Null, Json::Null) => true,
        (Json::Bool(x), Json::Bool(y)) => x == y,
        (Json::Unsigned(x), Json::Unsigned(y)) => x == y,
        (Json::Negative(x), Json::Negative(y)) => x == y,
        (Json::Float(x, _), Json::Float(y, _)) => ieee::equal_reals(x, y),
        (Json::Text(x), Json::Text(y)) => x@ == y@,
        (Json::Array(x), Json::Array(y)) => x@.len() == y@.len() && forall|i: int|
            0 <= i < x@.len() ==> same(#[trigger] x@[i], y@[i]),
        (Json::Object(x), Json::Object(y)) => x@.len() == y@.len() && forall|i: int|
            0 <= i < x@.len() ==> (#[trigger] x@[i]).0@ == y@[i].0@ && same(x@[i].1, y@[i].1),
        _ => false,
    }
}

/// Whether two values are equal.
#[verifier::loop_isolation(false)]
pub fn same_json(a: &Json, b: &Json) -> (equal: bool)
    ensures
        equal == same(*a, *b),
    decreases *a,
{
    match (a, b) {
        (Json::Null, Json::Null) => true,
        (Json::Bool(x), Json::Bool(y)) => *x == *y,
        (Json::Unsigned(x), Json::Unsigned(y)) => *x == *y,
        (Json::Negative(x), Json::Negative(y)) => *x == *y,
        (Json::Float(x, _), Json::Float(y, _)) => real_eq(*x, *y),
        (Json::Text(x), Json::Text(y)) => same_text(x, y),
        (Json::Array(x), Json::Array(y)) => {
            if x.len() != y.len() {
                return false;
            }
            let mut i: usize = 0;
            while i < x.len()
                invariant
                    x@.len() == y@.len(),
                    i <= x@.len(),
                    forall|k: int| 0 <= k < i ==> same(#[trigger] x@[k], y@[k]),
                decreases x.len() - i,
            {
                assert(decreases_to!(*a => *x));
                assert(decreases_to!(x@ => x@[i as int]));
                if !same_json(&x[i], &y[i]) {
                    assert(!same(x@[i as int], y@[i as int]));
                    return false;
                }
                i += 1;
            }
            true
        },
        (Json::Object(x), Json::Object(y)) => {
            if x.len() != y.len() {
                return false;
            }
            let mut i: usize = 0;
            while i < x.len()
                invariant
                    x@.len() == y@.len(),
                    i <= x@.len(),
                    forall|k: int|
                        0 <= k < i ==> (#[trigger] x@[k]).0@ == y@[k].0@ && same(x@[k].1, y@[k].1),
                decreases x.len() - i,
            {
                assert(decreases_to!(*a => *x));
                assert(decreases_to!(x@ => x@[i as int]));
                assert(decreases_to!(x@[i as int] => x@[i as int].1));
                if !same_text(&x[i].0, &y[i].0) || !same_json(&x[i].1, &y[i].1) {
                    assert(!(x@[i as int].0@ == y@[i as int].0@ && same(
                        x@[i as int].1,
                        y@[i as int].1,
                    )));
                    return false;
                }
                i += 1;
            }
            true
        },
        _ => false,
    }
}

/// The position of the first member with a key.
pub open spec fn key_at(members: Seq<(String, Json)>, key: Seq<char>, i: int) -> bool {
    &&& 0 <= i < members.len()
    &&& members[i].0@ == key
    &&& forall|j: int| 0 <= j < i ==> (#[trigger] members[j]).0@ != key
}

/// The member of an object under a key. Nothing else has members.
pub open spec fn member_of(value: Json, key: Seq<char>) -> Option<Json> {
    match value {
        Json::Object(members) => if exists|i: int| key_at(members@, key, i) {
            Some(members@[choose|i: int| key_at(members@, key, i)].1)
        } else {
            None
        },
        _ => None,
    }
}

/// The member of an object under a key.
#[verifier::loop_isolation(false)]
pub fn member<'a>(value: &'a Json, key: &str) -> (found: Option<&'a Json>)
    ensures
        match found {
            Some(v) => member_of(*value, key@) == Some(*v),
            None => member_of(*value, key@) is None,
        },
{
    match value {
        Json::Object(members) => {
            let mut i: usize = 0;
            while i < members.len()
                invariant
                    i <= members@.len(),
                    forall|j: int| 0 <= j < i ==> (#[trigger] members@[j]).0@ != key@,
                decreases members.len() - i,
            {
                if same_text(&members[i].0, key) {
                    assert(key_at(members@, key@, i as int));
                    assert forall|k: int| #[trigger] key_at(members@, key@, k) implies k == i by {}
                    return Some(&members[i].1);
                }
                i += 1;
            }
            None
        },
        _ => None,
    }
}

/// The value that is reached by following keys from object to object.
pub open spec fn at_path(value: Json, path: Seq<Seq<char>>) -> Option<Json>
    decreases path.len(),
{
    if path.len() == 0 {
        Some(value)
    } else {
        match member_of(value, path[0]) {
            Some(next) => at_path(next, path.drop_first()),
            None => None,
        }
    }
}

/// The value under one key, and under a second key in it.
pub fn member2<'a>(value: &'a Json, first: &str, second: &str) -> (found: Option<&'a Json>)
    ensures
        match found {
            Some(v) => at_path(*value, seq![first@, second@]) == Some(*v),
            None => at_path(*value, seq![first@, second@]) is None,
        },
{
    proof {
        reveal_with_fuel(at_path, 3);
        assert(seq![first@, second@].drop_first() =~= seq![second@]);
        assert(seq![second@].drop_first() =~= Seq::empty());
    }
    match member(value, first) {
        Some(next) => member(next, second),
        None => None,
    }
}

/// The text of a string value.
pub open spec fn text_of(value: Json) -> Option<Seq<char>> {
    match value {
        Json::Text(t) => Some(t@),
        _ => None,
    }
}

/// The value is the string `text`.
pub open spec fn is_text(value: Json, text: Seq<char>) -> bool {
    text_of(value) == Some(text)
}

/// Whether a value is the string `text`.
pub fn text_is(value: &Json, text: &str) -> (yes: bool)
    ensures
        yes == is_text(*value, text@),
{
    match value {
        Json::Text(t) => same_text(t, text),
        _ => false,
    }
}

/// An optional value is the string `text`.
pub open spec fn has_text(value: Option<Json>, text: Seq<char>) -> bool {
    value matches Some(v) && is_text(v, text)
}

/// A character inside a string in print.
pub open spec fn escaped(c: char) -> Seq<char> {
    if c == '"' || c == '\\' {
        seq!['\\', c]
    } else if c as nat == 8 {
        seq!['\\', 'b']
    } else if c == '\t' {
        seq!['\\', 't']
    } else if c == '\n' {
        seq!['\\', 'n']
    } else if c as nat == 12 {
        seq!['\\', 'f']
    } else if c == '\r' {
        seq!['\\', 'r']
    } else if (c as nat) < 32 {
        seq!['\\', 'u'] + text::hexadecimal(c as nat, 4)
    } else {
        seq![c]
    }
}

/// The characters of a string in print, without the quotes.
pub open spec fn escapes(s: Seq<char>) -> Seq<char>
    decreases s.len(),
{
    if s.len() == 0 {
        Seq::empty()
    } else {
        escapes(s.drop_last()) + escaped(s.last())
    }
}

/// A string in print.
pub open spec fn quoted(s: Seq<char>) -> Seq<char> {
    seq!['"'] + escapes(s) + seq!['"']
}

/// Letters, digits, dashes and the like stand in print as they are.
pub proof fn plain_words_stand_as_they_are(s: Seq<char>)
    requires
        forall|i: int|
            0 <= i < s.len() ==> (#[trigger] s[i]) as nat >= 32 && s[i] != '"' && s[i] != '\\',
    ensures
        escapes(s) == s,
    decreases s.len(),
{
    if s.len() > 0 {
        plain_words_stand_as_they_are(s.drop_last());
        assert(escapes(s) =~= s);
    }
}

fn push_escaped(out: &mut String, c: char)
    ensures
        final(out)@ == old(out)@ + escaped(c),
{
    let code: u32 = c as u32;
    if c == '"' || c == '\\' {
        push_char(out, '\\');
        push_char(out, c);
    } else if code >= 32 {
        push_char(out, c);
    } else {
        push_char(out, '\\');
        if code == 8 {
            push_char(out, 'b');
        } else if c == '\t' {
            push_char(out, 't');
        } else if c == '\n' {
            push_char(out, 'n');
        } else if code == 12 {
            push_char(out, 'f');
        } else if c == '\r' {
            push_char(out, 'r');
        } else {
            push_char(out, 'u');
            push_hex(out, code as u64, 4);
        }
    }
    assert(out@ =~= old(out)@ + escaped(c));
}

/// Appends a string in print.
pub fn push_quoted(out: &mut String, s: &str)
    ensures
        final(out)@ == old(out)@ + quoted(s@),
{
    let ghost before = out@;
    let chars = text::chars_of(s);
    push_char(out, '"');
    let mut i: usize = 0;
    while i < chars.len()
        invariant
            i <= chars@.len(),
            chars@ == s@,
            out@ == before + seq!['"'] + escapes(s@.take(i as int)),
        decreases chars.len() - i,
    {
        push_escaped(out, chars[i]);
        i += 1;
        assert(s@.take(i as int).drop_last() =~= s@.take(i - 1));
        assert(out@ =~= before + seq!['"'] + escapes(s@.take(i as int)));
    }
    assert(s@.take(i as int) =~= s@);
    push_char(out, '"');
    assert(out@ =~= before + quoted(s@));
}

/// What a value holds, apart from how it is stored.
pub enum Tree {
    Null,
    Bool(bool),
    Unsigned(u64),
    Negative(i64),
    Float(u64, Seq<char>),
    Text(Seq<char>),
    Array(Seq<Tree>),
    Object(Seq<(Seq<char>, Tree)>),
}

/// What a value holds.
pub open spec fn tree(value: Json) -> Tree
    decreases value,
{
    match value {
        Json::Null => Tree::Null,
        Json::Bool(x) => Tree::Bool(x),
        Json::Unsigned(x) => Tree::Unsigned(x),
        Json::Negative(x) => Tree::Negative(x),
        Json::Float(x, t) => Tree::Float(x, t@),
        Json::Text(x) => Tree::Text(x@),
        Json::Array(x) => Tree::Array(
            Seq::new(
                x@.len(),
                |i: int|
                    if 0 <= i < x@.len() {
                        tree(x@[i])
                    } else {
                        Tree::Null
                    },
            ),
        ),
        Json::Object(x) => Tree::Object(
            Seq::new(
                x@.len(),
                |i: int|
                    if 0 <= i < x@.len() {
                        (x@[i].0@, tree(x@[i].1))
                    } else {
                        (Seq::empty(), Tree::Null)
                    },
            ),
        ),
    }
}

/// What the values of a list hold.
pub open spec fn trees(list: Seq<Json>) -> Seq<Tree> {
    list.map_values(|v: Json| tree(v))
}

/// What the members of an object hold.
pub open spec fn member_trees(list: Seq<(String, Json)>) -> Seq<(Seq<char>, Tree)> {
    list.map_values(|m: (String, Json)| (m.0@, tree(m.1)))
}

/// An array holds what its members hold.
pub proof fn array_tree(list: Vec<Json>)
    ensures
        tree(Json::Array(list)) == Tree::Array(trees(list@)),
{
    assert(tree(Json::Array(list))->Array_0 =~= trees(list@));
}

/// An object holds what its members hold, under their keys.
pub proof fn object_tree(list: Vec<(String, Json)>)
    ensures
        tree(Json::Object(list)) == Tree::Object(member_trees(list@)),
{
    assert(tree(Json::Object(list))->Object_0 =~= member_trees(list@));
}

/// A copy of a value.
#[verifier::loop_isolation(false)]
pub fn copy(value: &Json) -> (result: Json)
    ensures
        tree(result) == tree(*value),
    decreases *value,
{
    match value {
        Json::Null => Json::Null,
        Json::Bool(x) => Json::Bool(*x),
        Json::Unsigned(x) => Json::Unsigned(*x),
        Json::Negative(x) => Json::Negative(*x),
        Json::Float(x, t) => Json::Float(*x, copied(t)),
        Json::Text(x) => Json::Text(copied(x)),
        Json::Array(x) => {
            let mut list: Vec<Json> = Vec::new();
            let mut i: usize = 0;
            while i < x.len()
                invariant
                    i <= x@.len(),
                    list@.len() == i,
                    forall|k: int| 0 <= k < i ==> tree(#[trigger] list@[k]) == tree(x@[k]),
                decreases x.len() - i,
            {
                assert(decreases_to!(*value => *x));
                assert(decreases_to!(x@ => x@[i as int]));
                list.push(copy(&x[i]));
                i += 1;
            }
            proof {
                array_tree(list);
                array_tree(*x);
                assert(trees(list@) =~= trees(x@));
            }
            Json::Array(list)
        },
        Json::Object(x) => {
            let mut list: Vec<(String, Json)> = Vec::new();
            let mut i: usize = 0;
            while i < x.len()
                invariant
                    i <= x@.len(),
                    list@.len() == i,
                    forall|k: int|
                        0 <= k < i ==> (#[trigger] list@[k]).0@ == x@[k].0@ && tree(list@[k].1)
                            == tree(x@[k].1),
                decreases x.len() - i,
            {
                assert(decreases_to!(*value => *x));
                assert(decreases_to!(x@ => x@[i as int]));
                assert(decreases_to!(x@[i as int] => x@[i as int].1));
                list.push((copied(&x[i].0), copy(&x[i].1)));
                i += 1;
            }
            proof {
                object_tree(list);
                object_tree(*x);
                assert(member_trees(list@) =~= member_trees(x@));
            }
            Json::Object(list)
        },
    }
}

/// Whether two values hold the same.
#[verifier::loop_isolation(false)]
pub fn identical(a: &Json, b: &Json) -> (yes: bool)
    ensures
        yes == (tree(*a) == tree(*b)),
    decreases *a,
{
    match (a, b) {
        (Json::Null, Json::Null) => true,
        (Json::Bool(x), Json::Bool(y)) => *x == *y,
        (Json::Unsigned(x), Json::Unsigned(y)) => *x == *y,
        (Json::Negative(x), Json::Negative(y)) => *x == *y,
        (Json::Float(x, t), Json::Float(y, u)) => *x == *y && same_text(t, u),
        (Json::Text(x), Json::Text(y)) => same_text(x, y),
        (Json::Array(x), Json::Array(y)) => {
            proof {
                array_tree(*x);
                array_tree(*y);
                assert(trees(x@).len() == x@.len() && trees(y@).len() == y@.len());
            }
            if x.len() != y.len() {
                return false;
            }
            let mut i: usize = 0;
            while i < x.len()
                invariant
                    x@.len() == y@.len(),
                    i <= x@.len(),
                    forall|k: int| 0 <= k < i ==> tree(#[trigger] x@[k]) == tree(y@[k]),
                decreases x.len() - i,
            {
                assert(decreases_to!(*a => *x));
                assert(decreases_to!(x@ => x@[i as int]));
                if !identical(&x[i], &y[i]) {
                    assert(trees(x@)[i as int] != trees(y@)[i as int]);
                    return false;
                }
                i += 1;
            }
            assert(trees(x@) =~= trees(y@));
            true
        },
        (Json::Object(x), Json::Object(y)) => {
            proof {
                object_tree(*x);
                object_tree(*y);
                assert(member_trees(x@).len() == x@.len() && member_trees(y@).len() == y@.len());
            }
            if x.len() != y.len() {
                return false;
            }
            let mut i: usize = 0;
            while i < x.len()
                invariant
                    x@.len() == y@.len(),
                    i <= x@.len(),
                    forall|k: int|
                        0 <= k < i ==> (#[trigger] x@[k]).0@ == y@[k].0@ && tree(x@[k].1) == tree(
                            y@[k].1,
                        ),
                decreases x.len() - i,
            {
                assert(decreases_to!(*a => *x));
                assert(decreases_to!(x@ => x@[i as int]));
                assert(decreases_to!(x@[i as int] => x@[i as int].1));
                if !same_text(&x[i].0, &y[i].0) || !identical(&x[i].1, &y[i].1) {
                    assert(member_trees(x@)[i as int] != member_trees(y@)[i as int]);
                    return false;
                }
                i += 1;
            }
            assert(member_trees(x@) =~= member_trees(y@));
            true
        },
        _ => false,
    }
}

/// Equality of JSON values is symmetric.
pub proof fn same_is_symmetric(a: Json, b: Json)
    ensures
        same(a, b) == same(b, a),
    decreases a,
{
    match (a, b) {
        (Json::Array(x), Json::Array(y)) => {
            if x@.len() == y@.len() {
                assert forall|i: int| 0 <= i < x@.len() implies same(#[trigger] x@[i], y@[i]) == same(
                    y@[i],
                    x@[i],
                ) by {
                    same_is_symmetric(x@[i], y@[i]);
                }
                if same(b, a) {
                    assert forall|i: int| 0 <= i < x@.len() implies same(#[trigger] x@[i], y@[i]) by {
                        assert(same(y@[i], x@[i]));
                    }
                }
            }
        },
        (Json::Object(x), Json::Object(y)) => {
            if x@.len() == y@.len() {
                assert forall|i: int| 0 <= i < x@.len() implies same((#[trigger] x@[i]).1, y@[i].1) == same(
                    y@[i].1,
                    x@[i].1,
                ) by {
                    assert(decreases_to!(x@[i] => x@[i].1));
                    same_is_symmetric(x@[i].1, y@[i].1);
                }
                if same(b, a) {
                    assert forall|i: int| 0 <= i < x@.len() implies (#[trigger] x@[i]).0@ == y@[i].0@
                        && same(x@[i].1, y@[i].1) by {
                        assert(y@[i].0@ == x@[i].0@ && same(y@[i].1, x@[i].1));
                    }
                }
            }
        },
        _ => {},
    }
}

/// The whole number of a value that fits in 64 signed bits.
pub open spec fn whole_of(value: Json) -> Option<i64> {
    match value {
        Json::Unsigned(n) => if n <= i64::MAX {
            Some(n as i64)
        } else {
            None
        },
        Json::Negative(n) => Some(n),
        _ => None,
    }
}

/// The whole number of a value that fits in 64 signed bits.
pub fn as_whole(value: &Json) -> (number: Option<i64>)
    ensures
        number == whole_of(*value),
{
    match value {
        Json::Unsigned(n) => if *n <= i64::MAX as u64 {
            Some(*n as i64)
        } else {
            None
        },
        Json::Negative(n) => Some(*n),
        _ => None,
    }
}

/// The whole number of a value that is not negative.
pub open spec fn unsigned_of(value: Json) -> Option<u64> {
    match value {
        Json::Unsigned(n) => Some(n),
        _ => None,
    }
}

/// The whole number of a value that is not negative.
pub fn as_unsigned(value: &Json) -> (number: Option<u64>)
    ensures
        number == unsigned_of(*value),
{
    match value {
        Json::Unsigned(n) => Some(*n),
        _ => None,
    }
}

/// A whole number as a value.
pub open spec fn whole_value(number: i64) -> Json {
    if number < 0 {
        Json::Negative(number)
    } else {
        Json::Unsigned(number as u64)
    }
}

/// A whole number as a value.
pub fn whole(number: i64) -> (value: Json)
    ensures
        value == whole_value(number),
{
    if number < 0 {
        Json::Negative(number)
    } else {
        Json::Unsigned(number as u64)
    }
}

/// A whole number is read back from the value that holds it.
pub proof fn whole_is_read_back(number: i64)
    ensures
        whole_of(whole_value(number)) == Some(number),
{
}

/// The members of an array.
pub open spec fn items_of(value: Json) -> Option<Seq<Json>> {
    match value {
        Json::Array(list) => Some(list@),
        _ => None,
    }
}

/// The members of an array.
pub fn items<'a>(value: &'a Json) -> (list: Option<&'a Vec<Json>>)
    ensures
        match list {
            Some(l) => items_of(*value) == Some(l@),
            None => items_of(*value) is None,
        },
{
    match value {
        Json::Array(list) => Some(list),
        _ => None,
    }
}

/// Member `i` of an array.
pub open spec fn item_at(value: Json, i: int) -> Option<Json> {
    match items_of(value) {
        Some(list) => if 0 <= i < list.len() {
            Some(list[i])
        } else {
            None
        },
        None => None,
    }
}

/// Member `i` of an array.
pub fn item<'a>(value: &'a Json, i: usize) -> (found: Option<&'a Json>)
    ensures
        match found {
            Some(v) => item_at(*value, i as int) == Some(*v),
            None => item_at(*value, i as int) is None,
        },
{
    match value {
        Json::Array(list) => if i < list.len() {
            Some(&list[i])
        } else {
            None
        },
        _ => None,
    }
}

/// A copy of a text.
pub fn copied(value: &str) -> (text: String)
    ensures
        text@ == value@,
{
    let mut text = String::new();
    text.append(value);
    assert(text@ =~= value@);
    text
}

/// Adds a member behind those of an object.
pub fn add_member(members: &mut Vec<(String, Json)>, key: &str, value: Json)
    ensures
        member_trees(final(members)@) == member_trees(old(members)@).push((key@, tree(value))),
{
    members.push((copied(key), value));
    assert(member_trees(members@) =~= member_trees(old(members)@).push((key@, tree(value))));
}

/// Adds a member with a text behind those of an object.
pub fn add_text(members: &mut Vec<(String, Json)>, key: &str, value: &str)
    ensures
        member_trees(final(members)@) == member_trees(old(members)@).push(
            (key@, Tree::Text(value@)),
        ),
{
    add_member(members, key, Json::Text(copied(value)))
}

/// No members yet.
pub fn no_members() -> (members: Vec<(String, Json)>)
    ensures
        member_trees(members@) == Seq::<(Seq<char>, Tree)>::empty(),
{
    let members: Vec<(String, Json)> = Vec::new();
    assert(member_trees(members@) =~= Seq::<(Seq<char>, Tree)>::empty());
    members
}

/// Members in the order of their keys. Of two members with one key the later stays.
pub open spec fn gathered(members: Seq<(Seq<char>, Tree)>) -> Seq<(Seq<char>, Tree)> {
    order::put_all(Seq::empty(), members)
}

fn put_member(list: &mut Vec<(String, Json)>, key: String, value: Json)
    ensures
        member_trees(final(list)@) == order::put(member_trees(old(list)@), key@, tree(value)),
{
    let ghost before = member_trees(list@);
    let ghost held = tree(value);
    let mut i: usize = 0;
    while i < list.len()
        invariant
            i <= list@.len(),
            list@ == old(list)@,
            before == member_trees(list@),
            held == tree(value),
            forall|j: int|
                0 <= j < i ==> key@ != (#[trigger] before[j]).0 && !order::precedes(
                    key@,
                    before[j].0,
                ),
        decreases list.len() - i,
    {
        proof {
            order::put_splits(before, key@, held, i as int);
            assert(before.skip(i as int)[0] == before[i as int]);
        }
        if same_text(&key, &list[i].0) {
            list.set(i, (key, value));
            assert(member_trees(list@) =~= order::put(before, key@, held));
            return ;
        }
        if less_text(&key, &list[i].0) {
            list.insert(i, (key, value));
            assert(member_trees(list@) =~= order::put(before, key@, held));
            return ;
        }
        i += 1;
    }
    proof {
        order::put_splits(before, key@, held, i as int);
    }
    list.push((key, value));
    assert(member_trees(list@) =~= order::put(before, key@, held));
}

/// The object with these members.
pub fn object_of(members: Vec<(String, Json)>) -> (value: Json)
    ensures
        tree(value) == Tree::Object(gathered(member_trees(members@))),
{
    let ghost all = members@;
    let ghost pairs = member_trees(all);
    let mut rest = members;
    let mut list: Vec<(String, Json)> = Vec::new();
    assert(rest@ =~= all.skip(0));
    assert(pairs.take(0) =~= Seq::empty());
    assert(member_trees(list@) =~= Seq::empty());
    while rest.len() > 0
        invariant
            pairs == member_trees(all),
            rest@.len() <= all.len(),
            rest@ == all.skip(all.len() - rest@.len()),
            member_trees(list@) == gathered(pairs.take(all.len() - rest@.len())),
        decreases rest.len(),
    {
        let ghost done = all.len() - rest@.len();
        let (key, value) = rest.remove(0);
        put_member(&mut list, key, value);
        proof {
            assert(rest@ =~= all.skip(done + 1));
            assert(pairs.take(done + 1).drop_last() =~= pairs.take(done));
            assert(pairs.take(done + 1).last() == (key@, tree(value)));
        }
    }
    assert(pairs.take(all.len() as int) =~= pairs);
    proof {
        object_tree(list);
    }
    Json::Object(list)
}

/// The members of every object, at any depth, stand in the ascending order of their
/// keys.
pub open spec fn well_formed(t: Tree) -> bool
    decreases t,
{
    match t {
        Tree::Array(list) => forall|i: int| 0 <= i < list.len() ==> well_formed(#[trigger] list[i]),
        Tree::Object(members) => order::ordered(members) && forall|i: int|
            0 <= i < members.len() ==> well_formed((#[trigger] members[i]).1),
        _ => true,
    }
}

/// Every one of the values is well formed.
pub open spec fn all_well_formed(list: Seq<Tree>) -> bool {
    forall|i: int| 0 <= i < list.len() ==> well_formed(#[trigger] list[i])
}

/// An array is well formed exactly if its values are.
pub proof fn array_is_well_formed(list: Seq<Tree>)
    ensures
        well_formed(Tree::Array(list)) == all_well_formed(list),
{
    let t = Tree::Array(list);
    assert(t->Array_0 == list);
    if well_formed(t) {
        assert forall|i: int| 0 <= i < list.len() implies well_formed(#[trigger] list[i]) by {
            assert(t->Array_0[i] == list[i]);
        }
    }
}

/// An object of two members whose keys ascend and whose values are well formed is
/// well formed.
pub proof fn pair_is_well_formed(a: (Seq<char>, Tree), b: (Seq<char>, Tree))
    requires
        order::precedes(a.0, b.0),
        well_formed(a.1),
        well_formed(b.1),
    ensures
        well_formed(Tree::Object(seq![a, b])),
{
    let members = seq![a, b];
    assert forall|i: int, j: int| 0 <= i < j < members.len() implies order::precedes(
        #[trigger] members[i].0,
        #[trigger] members[j].0,
    ) by {
        assert(i == 0 && j == 1);
    }
    assert forall|i: int| 0 <= i < members.len() implies well_formed((#[trigger] members[i]).1) by {
        assert(i == 0 || i == 1);
    }
}

/// An object of one member whose value is well formed is well formed.
pub proof fn single_is_well_formed(a: (Seq<char>, Tree))
    requires
        well_formed(a.1),
    ensures
        well_formed(Tree::Object(seq![a])),
{
    let members = seq![a];
    assert forall|i: int| 0 <= i < members.len() implies well_formed((#[trigger] members[i]).1) by {
        assert(i == 0);
    }
}

proof fn put_keeps_form(list: Seq<(Seq<char>, Tree)>, k: Seq<char>, v: Tree)
    requires
        forall|i: int| 0 <= i < list.len() ==> well_formed((#[trigger] list[i]).1),
        well_formed(v),
    ensures
        forall|i: int|
            0 <= i < order::put(list, k, v).len() ==> well_formed(
                (#[trigger] order::put(list, k, v)[i]).1,
            ),
    decreases list.len(),
{
    if list.len() > 0 {
        let rest = list.drop_first();
        assert forall|i: int| 0 <= i < rest.len() implies well_formed((#[trigger] rest[i]).1) by {
            assert(rest[i] == list[i + 1]);
        }
        put_keeps_form(rest, k, v);
        let result = order::put(list, k, v);
        assert forall|i: int| 0 <= i < result.len() implies well_formed((#[trigger] result[i]).1) by {
            if k == list[0].0 {
                if i > 0 {
                    assert(result[i] == list[i]);
                }
            } else if order::precedes(k, list[0].0) {
                if i > 0 {
                    assert(result[i] == list[i - 1]);
                }
            } else if i == 0 {
                assert(result[i] == list[0]);
            } else {
                assert(result[i] == order::put(rest, k, v)[i - 1]);
            }
        }
    }
}

/// An object that was gathered from well formed members is well formed.
pub proof fn gathered_is_well_formed(members: Seq<(Seq<char>, Tree)>)
    requires
        forall|i: int| 0 <= i < members.len() ==> well_formed((#[trigger] members[i]).1),
    ensures
        well_formed(Tree::Object(gathered(members))),
    decreases members.len(),
{
    if members.len() > 0 {
        let before = members.drop_last();
        assert forall|i: int| 0 <= i < before.len() implies well_formed((#[trigger] before[i]).1) by {
            assert(before[i] == members[i]);
        }
        gathered_is_well_formed(before);
        assert(well_formed(members[members.len() - 1].1));
        order::put_keeps_order(gathered(before), members.last().0, members.last().1);
        put_keeps_form(gathered(before), members.last().0, members.last().1);
    }
}

/// The last member under a key is found in the gathered ones.
pub proof fn gathered_member_is_found(members: Seq<(Seq<char>, Tree)>, at: int)
    requires
        0 <= at < members.len(),
        forall|j: int| at < j < members.len() ==> (#[trigger] members[j]).0 != members[at].0,
    ensures
        order::lookup(gathered(members), members[at].0) == Some(members[at].1),
    decreases members.len(),
{
    let before = members.drop_last();
    let last = members.last();
    order::put_is_found(gathered(before), last.0, last.1, members[at].0);
    if at < before.len() {
        assert(members[members.len() - 1].0 != members[at].0);
        assert forall|j: int| at < j < before.len() implies (#[trigger] before[j]).0
            != before[at].0 by {
            assert(before[j] == members[j]);
        }
        gathered_member_is_found(before, at);
    }
}

/// A gathered member is found under its key, and the others stay.
pub proof fn gathered_member_is_added(
    members: Seq<(Seq<char>, Tree)>,
    member: (Seq<char>, Tree),
    key: Seq<char>,
)
    ensures
        order::lookup(gathered(members.push(member)), key) == (if member.0 == key {
            Some(member.1)
        } else {
            order::lookup(gathered(members), key)
        }),
{
    assert(members.push(member).drop_last() =~= members);
    order::put_is_found(gathered(members), member.0, member.1, key);
}

/// Where nothing was gathered, nothing is found.
pub proof fn nothing_is_gathered(key: Seq<char>)
    ensures
        order::lookup(gathered(Seq::empty()), key) is None,
{
}

proof fn lookup_stops_at<V>(list: Seq<(Seq<char>, V)>, key: Seq<char>, i: int)
    requires
        0 <= i <= list.len(),
        forall|j: int| 0 <= j < i ==> (#[trigger] list[j]).0 != key,
    ensures
        i < list.len() && list[i].0 == key ==> order::lookup(list, key) == Some(list[i].1),
        i == list.len() ==> order::lookup(list, key) is None,
    decreases i,
{
    if i > 0 {
        let rest = list.drop_first();
        assert(list[0].0 != key);
        assert forall|j: int| 0 <= j < i - 1 implies (#[trigger] rest[j]).0 != key by {
            assert(rest[j] == list[j + 1]);
        }
        lookup_stops_at(rest, key, i - 1);
    }
}

/// The member of an object under a key holds what stands under that key.
pub proof fn member_is_looked_up(list: Vec<(String, Json)>, key: Seq<char>)
    ensures
        match member_of(Json::Object(list), key) {
            Some(v) => order::lookup(member_trees(list@), key) == Some(tree(v)),
            None => order::lookup(member_trees(list@), key) is None,
        },
{
    let trees = member_trees(list@);
    if exists|i: int| key_at(list@, key, i) {
        let i = choose|i: int| key_at(list@, key, i);
        assert forall|j: int| 0 <= j < i implies (#[trigger] trees[j]).0 != key by {
            assert(list@[j].0@ != key);
        }
        assert(trees[i] == (list@[i].0@, tree(list@[i].1)));
        lookup_stops_at(trees, key, i);
    } else {
        none_before(list@, key, list@.len() as int);
        assert forall|j: int| 0 <= j < trees.len() implies (#[trigger] trees[j]).0 != key by {
            assert(list@[j].0@ != key);
        }
        lookup_stops_at(trees, key, trees.len() as int);
    }
}

proof fn none_before(list: Seq<(String, Json)>, key: Seq<char>, n: int)
    requires
        !(exists|i: int| key_at(list, key, i)),
        0 <= n <= list.len(),
    ensures
        forall|j: int| 0 <= j < n ==> (#[trigger] list[j]).0@ != key,
    decreases n,
{
    if n > 0 {
        none_before(list, key, n - 1);
        if list[n - 1].0@ == key {
            assert(key_at(list, key, n - 1));
        }
    }
}

/// The members of a well formed object are well formed.
pub proof fn member_is_well_formed(value: Json, key: Seq<char>)
    requires
        well_formed(tree(value)),
    ensures
        member_of(value, key) matches Some(v) ==> well_formed(tree(v)),
{
    match value {
        Json::Object(list) => {
            object_tree(list);
            if exists|i: int| key_at(list@, key, i) {
                let i = choose|i: int| key_at(list@, key, i);
                assert(member_trees(list@)[i] == (list@[i].0@, tree(list@[i].1)));
            }
        },
        _ => {},
    }
}

/// Two optional values are both missing or equal.
pub open spec fn same_found(a: Option<Json>, b: Option<Json>) -> bool {
    match (a, b) {
        (Some(x), Some(y)) => same(x, y),
        (None, None) => true,
        _ => false,
    }
}

/// In an ordered list the member under a key is the one that has it.
proof fn ordered_member(list: Vec<(String, Json)>, i: int)
    requires
        order::ordered(member_trees(list@)),
        0 <= i < list@.len(),
    ensures
        member_of(Json::Object(list), list@[i].0@) == Some(list@[i].1),
{
    let trees = member_trees(list@);
    let key = list@[i].0@;
    assert forall|j: int| 0 <= j < list@.len() && j != i implies (#[trigger] list@[j]).0@ != key by {
        order::order_is_total(key, key);
        if j < i {
            assert(order::precedes(trees[j].0, trees[i].0));
        } else {
            assert(order::precedes(trees[i].0, trees[j].0));
        }
    }
    assert(key_at(list@, key, i));
    let found = choose|k: int| key_at(list@, key, k);
    assert(key_at(list@, key, found));
    assert(found == i) by {
        if found != i {
            assert(list@[found].0@ != key);
        }
    }
    assert(exists|k: int| key_at(list@, key, k));
}

/// Well formed objects are equal exactly if they have equal members under the same
/// keys.
pub proof fn equal_objects_have_equal_members(a: Vec<(String, Json)>, b: Vec<(String, Json)>)
    requires
        well_formed(tree(Json::Object(a))),
        well_formed(tree(Json::Object(b))),
    ensures
        same(Json::Object(a), Json::Object(b)) <==> forall|key: Seq<char>|
            #![trigger member_of(Json::Object(a), key)]
            same_found(member_of(Json::Object(a), key), member_of(Json::Object(b), key)),
{
    object_tree(a);
    object_tree(b);
    let x = Json::Object(a);
    let y = Json::Object(b);
    if same(x, y) {
        assert forall|key: Seq<char>| same_found(
            #[trigger] member_of(x, key),
            member_of(y, key),
        ) by {
            if exists|i: int| key_at(a@, key, i) {
                let i = choose|i: int| key_at(a@, key, i);
                ordered_member(a, i);
                assert(a@[i].0@ == b@[i].0@ && same(a@[i].1, b@[i].1));
                ordered_member(b, i);
            } else if exists|i: int| key_at(b@, key, i) {
                let i = choose|i: int| key_at(b@, key, i);
                assert(a@[i].0@ == b@[i].0@);
                none_before(a@, key, a@.len() as int);
            }
        }
    } else if forall|key: Seq<char>|
        #![trigger member_of(x, key)]
        same_found(member_of(x, key), member_of(y, key)) {
        let p = a@.map_values(|m: (String, Json)| m.0@);
        let q = b@.map_values(|m: (String, Json)| m.0@);
        assert forall|i: int, j: int| 0 <= i < j < p.len() implies order::precedes(
            #[trigger] p[i],
            #[trigger] p[j],
        ) by {
            assert(order::precedes(member_trees(a@)[i].0, member_trees(a@)[j].0));
        }
        assert forall|i: int, j: int| 0 <= i < j < q.len() implies order::precedes(
            #[trigger] q[i],
            #[trigger] q[j],
        ) by {
            assert(order::precedes(member_trees(b@)[i].0, member_trees(b@)[j].0));
        }
        assert forall|key: Seq<char>| p.contains(key) <==> q.contains(key) by {
            assert(same_found(member_of(x, key), member_of(y, key)));
            if p.contains(key) {
                let i = choose|i: int| 0 <= i < p.len() && p[i] == key;
                ordered_member(a, i);
                let k = choose|k: int| key_at(b@, key, k);
                assert(q[k] == key);
            }
            if q.contains(key) {
                let i = choose|i: int| 0 <= i < q.len() && q[i] == key;
                ordered_member(b, i);
                let k = choose|k: int| key_at(a@, key, k);
                assert(p[k] == key);
            }
        }
        order::ascending_lists_are_unique(p, q);
        assert(p.len() == a@.len() && q.len() == b@.len());
        assert forall|i: int| 0 <= i < a@.len() implies (#[trigger] a@[i]).0@ == b@[i].0@ && same(
            a@[i].1,
            b@[i].1,
        ) by {
            assert(p[i] == q[i]);
            ordered_member(a, i);
            ordered_member(b, i);
            assert(same_found(member_of(x, p[i]), member_of(y, p[i])));
        }
        assert(same(x, y));
    }
}

/// The array with these values.
pub fn array_of(values: Vec<Json>) -> (value: Json)
    ensures
        tree(value) == Tree::Array(trees(values@)),
{
    proof {
        array_tree(values);
    }
    Json::Array(values)
}

/// What an optional value holds.
pub open spec fn optional_tree(value: Option<Json>) -> Option<Tree> {
    match value {
        Some(v) => Some(tree(v)),
        None => None,
    }
}

/// What stands under a key in what a value holds.
pub open spec fn tree_member(t: Tree, key: Seq<char>) -> Option<Tree> {
    match t {
        Tree::Object(members) => order::lookup(members, key),
        _ => None,
    }
}

/// The member of a value under a key holds what stands there.
pub proof fn member_holds(value: Json, key: Seq<char>)
    ensures
        optional_tree(member_of(value, key)) == tree_member(tree(value), key),
{
    match value {
        Json::Object(list) => {
            object_tree(list);
            member_is_looked_up(list, key);
        },
        _ => {},
    }
}

/// The members of an array, in what a value holds.
pub open spec fn tree_items(t: Tree) -> Option<Seq<Tree>> {
    match t {
        Tree::Array(list) => Some(list),
        _ => None,
    }
}

/// The members of an array hold what stands there.
pub proof fn items_hold(value: Json)
    ensures
        tree_items(tree(value)) == (match items_of(value) {
            Some(list) => Some(trees(list)),
            None => None,
        }),
{
    match value {
        Json::Array(list) => array_tree(list),
        _ => {},
    }
}

/// What an optional value holds.
pub open spec fn tree_behind(value: Option<&Json>) -> Option<Tree> {
    match value {
        Some(v) => Some(tree(*v)),
        None => None,
    }
}

/// The member of an object under a key, by what it holds.
pub fn held_member<'a>(value: &'a Json, key: &str) -> (found: Option<&'a Json>)
    ensures
        tree_behind(found) == tree_member(tree(*value), key@),
{
    proof {
        member_holds(*value, key@);
    }
    member(value, key)
}

/// The members of an array, by what they hold.
pub fn held_items<'a>(value: &'a Json) -> (found: Option<&'a Vec<Json>>)
    ensures
        tree_items(tree(*value)) == (match found {
            Some(list) => Some(trees(list@)),
            None => None,
        }),
        found matches Some(list) ==> trees(list@).len() == list@.len(),
{
    proof {
        items_hold(*value);
    }
    items(value)
}

/// What two values hold is equal: of the same kind, with equal contents.
pub open spec fn same_trees(a: Tree, b: Tree) -> bool
    decreases a,
{
    match (a, b) {
        (Tree::Null, Tree::Null) => true,
        (Tree::Bool(x), Tree::Bool(y)) => x == y,
        (Tree::Unsigned(x), Tree::Unsigned(y)) => x == y,
        (Tree::Negative(x), Tree::Negative(y)) => x == y,
        (Tree::Float(x, _), Tree::Float(y, _)) => ieee::equal_reals(x, y),
        (Tree::Text(x), Tree::Text(y)) => x == y,
        (Tree::Array(x), Tree::Array(y)) => x.len() == y.len() && forall|i: int|
            0 <= i < x.len() ==> same_trees(#[trigger] x[i], y[i]),
        (Tree::Object(x), Tree::Object(y)) => x.len() == y.len() && forall|i: int|
            0 <= i < x.len() ==> (#[trigger] x[i]).0 == y[i].0 && same_trees(x[i].1, y[i].1),
        _ => false,
    }
}

/// Two values are equal exactly if what they hold is.
pub proof fn equal_values_hold_equal(a: Json, b: Json)
    ensures
        same(a, b) == same_trees(tree(a), tree(b)),
    decreases a,
{
    match (a, b) {
        (Json::Array(x), Json::Array(y)) => {
            array_tree(x);
            array_tree(y);
            let p = trees(x@);
            let q = trees(y@);
            assert(p.len() == x@.len() && q.len() == y@.len());
            if x@.len() == y@.len() {
                assert forall|i: int| 0 <= i < x@.len() implies same(#[trigger] x@[i], y@[i])
                    == same_trees(p[i], q[i]) by {
                    equal_values_hold_equal(x@[i], y@[i]);
                }
                if same(a, b) {
                    assert forall|i: int| 0 <= i < p.len() implies same_trees(#[trigger] p[i], q[i]) by {
                        assert(same(x@[i], y@[i]));
                    }
                }
                if same_trees(tree(a), tree(b)) {
                    assert forall|i: int| 0 <= i < x@.len() implies same(#[trigger] x@[i], y@[i]) by {
                        assert(same_trees(p[i], q[i]));
                    }
                }
            }
        },
        (Json::Object(x), Json::Object(y)) => {
            object_tree(x);
            object_tree(y);
            let p = member_trees(x@);
            let q = member_trees(y@);
            assert(p.len() == x@.len() && q.len() == y@.len());
            if x@.len() == y@.len() {
                assert forall|i: int| 0 <= i < x@.len() implies same((#[trigger] x@[i]).1, y@[i].1)
                    == same_trees(p[i].1, q[i].1) && p[i].0 == x@[i].0@ && q[i].0 == y@[i].0@ by {
                    assert(decreases_to!(x@[i] => x@[i].1));
                    equal_values_hold_equal(x@[i].1, y@[i].1);
                }
                if same(a, b) {
                    assert forall|i: int| 0 <= i < p.len() implies (#[trigger] p[i]).0 == q[i].0
                        && same_trees(p[i].1, q[i].1) by {
                        assert(x@[i].0@ == y@[i].0@ && same(x@[i].1, y@[i].1));
                    }
                }
                if same_trees(tree(a), tree(b)) {
                    assert forall|i: int| 0 <= i < x@.len() implies (#[trigger] x@[i]).0@ == y@[i].0@
                        && same(x@[i].1, y@[i].1) by {
                        assert(p[i].0 == q[i].0 && same_trees(p[i].1, q[i].1));
                    }
                }
            }
        },
        _ => {},
    }
}

} // verus!
