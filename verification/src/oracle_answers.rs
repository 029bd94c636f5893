//! Which answers of an engine agree with a case.
use crate::calendar::{self, second_text};
use crate::json::{
    self, as_unsigned, copied, identical, items, member, member2, same_json, text_is, whole, Json,
    Tree,
};
use crate::moments::{self, quotient, replace_marks, timestamp};
use crate::oracle_cases::{self, contains_key, moment, string, CaseError, Expectation};
use crate::text::{self, contains_text, same_text};
use vstd::prelude::*;
use vstd::string::*;

verus! {

/// The whole minute of a time, but one.
pub open spec fn sample_time(now_ms: int) -> int {
    (moments::truncated(now_ms, 60_000) - 1) * 60_000
}

/// The time of the samples of a run that starts at `now_ms`.
pub fn sample_ms(now_ms: i64) -> (ms: i64)
    requires
        sample_time(now_ms as int) >= i64::MIN,
    ensures
        ms == sample_time(now_ms as int),
{
    (quotient(now_ms, 60_000) - 1) * 60_000
}

/// The time of the first row of a run that starts at `now_us`: ten seconds
/// before the second, or the first time there is.
pub open spec fn log_base(now_us: int) -> int {
    let us = moments::truncated(now_us, 1_000_000) * 1_000_000 - 10_000_000;
    if us < i64::MIN {
        i64::MIN as int
    } else {
        us
    }
}

/// The time of the first row of a run that starts at `now_us`.
pub fn log_base_us(now_us: i64) -> (us: i64)
    ensures
        us == log_base(now_us as int),
{
    let second: i64 = quotient(now_us, 1_000_000) * 1_000_000;
    if second < i64::MIN + 10_000_000 {
        i64::MIN
    } else {
        second - 10_000_000
    }
}

/// The members of a list that hold the same as a value.
pub open spec fn count_of(list: Seq<Json>, value: Tree) -> nat {
    json::trees(list).to_multiset().count(value)
}

proof fn count_grows(list: Seq<Tree>, k: int, value: Tree)
    requires
        0 <= k < list.len(),
    ensures
        list.take(k + 1).to_multiset().count(value) == list.take(k).to_multiset().count(value) + (if list[k]
            == value {
            1nat
        } else {
            0nat
        }),
{
    broadcast use vstd::multiset::group_multiset_axioms;

    assert(list.take(k + 1) =~= list.take(k).push(list[k]));
    vstd::seq_lib::to_multiset_build(list.take(k), list[k]);
}

fn occurrences(list: &Vec<Json>, value: &Json) -> (n: usize)
    ensures
        n == count_of(list@, json::tree(*value)),
{
    let ghost all = json::trees(list@);
    let ghost wanted = json::tree(*value);
    let mut n: usize = 0;
    let mut i: usize = 0;
    proof {
        broadcast use vstd::multiset::group_multiset_axioms;
        broadcast use vstd::seq_lib::group_to_multiset_ensures;

        assert(all.take(0) =~= Seq::empty());
    }
    while i < list.len()
        invariant
            i <= list@.len(),
            n <= i,
            all == json::trees(list@),
            wanted == json::tree(*value),
            n == all.take(i as int).to_multiset().count(wanted),
        decreases list.len() - i,
    {
        proof {
            count_grows(all, i as int, wanted);
        }
        assert(all[i as int] == json::tree(list@[i as int]));
        if identical(&list[i], value) {
            n += 1;
        }
        i += 1;
    }
    assert(all.take(i as int) =~= all);
    n
}

/// Two lists have the same members, in any order.
pub open spec fn same_members(a: Seq<Json>, b: Seq<Json>) -> bool {
    json::trees(a).to_multiset() == json::trees(b).to_multiset()
}

fn covered(list: &Vec<Json>, a: &Vec<Json>, b: &Vec<Json>) -> (yes: bool)
    ensures
        yes <==> forall|i: int|
            0 <= i < list@.len() ==> count_of(a@, json::tree(#[trigger] list@[i])) == count_of(
                b@,
                json::tree(list@[i]),
            ),
{
    let mut i: usize = 0;
    while i < list.len()
        invariant
            i <= list@.len(),
            forall|j: int|
                0 <= j < i ==> count_of(a@, json::tree(#[trigger] list@[j])) == count_of(
                    b@,
                    json::tree(list@[j]),
                ),
        decreases list.len() - i,
    {
        if occurrences(a, &list[i]) != occurrences(b, &list[i]) {
            return false;
        }
        i += 1;
    }
    true
}

fn members_agree(a: &Vec<Json>, b: &Vec<Json>) -> (yes: bool)
    ensures
        yes == same_members(a@, b@),
{
    let yes = covered(a, a, b) && covered(b, a, b);
    proof {
        broadcast use vstd::multiset::group_multiset_axioms;
        broadcast use vstd::seq_lib::group_to_multiset_ensures;

        let ta = json::trees(a@);
        let tb = json::trees(b@);
        if yes {
            assert forall|t: Tree| ta.to_multiset().count(t) == tb.to_multiset().count(t) by {
                if ta.to_multiset().count(t) > 0 {
                    assert(ta.to_multiset().contains(t));
                    assert(ta.contains(t));
                    let i = choose|i: int| 0 <= i < ta.len() && ta[i] == t;
                    assert(t == json::tree(a@[i]));
                    assert(count_of(a@, json::tree(a@[i])) == count_of(b@, json::tree(a@[i])));
                } else if tb.to_multiset().count(t) > 0 {
                    assert(tb.to_multiset().contains(t));
                    assert(tb.contains(t));
                    let i = choose|i: int| 0 <= i < tb.len() && tb[i] == t;
                    assert(t == json::tree(b@[i]));
                    assert(count_of(a@, json::tree(b@[i])) == count_of(b@, json::tree(b@[i])));
                }
            }
            assert(ta.to_multiset() =~= tb.to_multiset());
        }
    }
    yes
}

/// Two lists are equal, member by member.
pub open spec fn same_lists(a: Seq<Json>, b: Seq<Json>) -> bool {
    a.len() == b.len() && forall|i: int| 0 <= i < a.len() ==> json::same(#[trigger] a[i], b[i])
}

pub(crate) fn lists_agree(a: &Vec<Json>, b: &Vec<Json>) -> (yes: bool)
    ensures
        yes == same_lists(a@, b@),
{
    if a.len() != b.len() {
        return false;
    }
    let mut i: usize = 0;
    while i < a.len()
        invariant
            i <= a@.len(),
            a@.len() == b@.len(),
            forall|j: int| 0 <= j < i ==> json::same(#[trigger] a@[j], b@[j]),
        decreases a.len() - i,
    {
        if !same_json(&a[i], &b[i]) {
            assert(!json::same(a@[i as int], b@[i as int]));
            return false;
        }
        i += 1;
    }
    true
}

/// An answer is the expected list: in order, or in any order.
pub open spec fn results_agree(expected: Seq<Json>, actual: Json, ordered: bool) -> bool {
    match json::items_of(actual) {
        None => false,
        Some(list) => if ordered {
            same_lists(expected, list)
        } else {
            same_members(expected, list)
        },
    }
}

/// Whether an answer is the expected list.
pub fn results_equal(expected: &Vec<Json>, actual: &Json, ordered: bool) -> (equal: bool)
    ensures
        equal == results_agree(expected@, *actual, ordered),
{
    match items(actual) {
        None => false,
        Some(list) => if ordered {
            lists_agree(expected, list)
        } else {
            members_agree(expected, list)
        },
    }
}

/// Where no order is asked for, every rearrangement of an answer is judged alike.
pub proof fn unordered_results_have_no_order(
    expected: Seq<Json>,
    first: Vec<Json>,
    second: Vec<Json>,
)
    requires
        json::trees(first@).to_multiset() == json::trees(second@).to_multiset(),
    ensures
        results_agree(expected, Json::Array(first), false) == results_agree(
            expected,
            Json::Array(second),
            false,
        ),
{
}

/// Lists with the same members in any order have the same length.
pub proof fn same_members_are_as_many(a: Seq<Json>, b: Seq<Json>)
    requires
        same_members(a, b),
    ensures
        a.len() == b.len(),
{
    broadcast use vstd::seq_lib::group_to_multiset_ensures;

    assert(json::trees(a).to_multiset().len() == json::trees(b).to_multiset().len());
}

/// The strings of an annotation list, as long as all are strings.
pub open spec fn all_texts(list: Seq<Json>) -> bool {
    forall|i: int| 0 <= i < list.len() ==> (#[trigger] list[i]) is Text
}

/// The texts of a list.
pub open spec fn texts_of(list: Seq<Json>) -> Seq<Seq<char>> {
    list.map_values(
        |v: Json|
            match json::text_of(v) {
                Some(t) => t,
                None => Seq::empty(),
            },
    )
}

/// The annotations under a key: none where it is missing.
pub open spec fn annotations(value: Option<Json>) -> Result<Seq<Seq<char>>, CaseError> {
    match value {
        None => Ok(Seq::empty()),
        Some(v) => match json::items_of(v) {
            None => Err(CaseError::List("annotations")),
            Some(list) => if all_texts(list) {
                Ok(texts_of(list))
            } else {
                Err(CaseError::Text("annotation"))
            },
        },
    }
}

/// A result of texts by their characters.
pub open spec fn texts_result(r: Result<Vec<String>, CaseError>) -> Result<
    Seq<Seq<char>>,
    CaseError,
> {
    match r {
        Ok(list) => Ok(text::texts(list@)),
        Err(e) => Err(e),
    }
}

/// An optional value behind a reference.
pub open spec fn optional(value: Option<&Json>) -> Option<Json> {
    match value {
        Some(v) => Some(*v),
        None => None,
    }
}

pub(crate) fn strings_of(list: &Vec<Json>) -> (result: Option<Vec<String>>)
    ensures
        match result {
            Some(l) => all_texts(list@) && text::texts(l@) == texts_of(list@),
            None => !all_texts(list@),
        },
{
    let mut out: Vec<String> = Vec::new();
    let mut i: usize = 0;
    while i < list.len()
        invariant
            i <= list@.len(),
            text::texts(out@) =~= texts_of(list@).take(i as int),
            forall|j: int| 0 <= j < i ==> (#[trigger] list@[j]) is Text,
        decreases list.len() - i,
    {
        match &list[i] {
            Json::Text(t) => {
                let ghost before = text::texts(out@);
                out.push(copied(t));
                assert(text::texts(out@) =~= before.push(t@));
                assert(texts_of(list@)[i as int] == t@);
            },
            _ => {
                assert(!(list@[i as int] is Text));
                return None;
            },
        }
        i += 1;
    }
    assert(texts_of(list@).take(i as int) =~= texts_of(list@));
    Some(out)
}

/// The annotations of an answer or of a case.
pub fn strings(value: Option<&Json>) -> (result: Result<Vec<String>, CaseError>)
    ensures
        texts_result(result) == annotations(optional(value)),
{
    match value {
        None => {
            let none: Vec<String> = Vec::new();
            assert(text::texts(none@) =~= Seq::empty());
            Ok(none)
        },
        Some(v) => match items(v) {
            None => Err(CaseError::List("annotations")),
            Some(list) => match strings_of(list) {
                Some(l) => Ok(l),
                None => Err(CaseError::Text("annotation")),
            },
        },
    }
}

/// How often a text occurs in a list.
pub open spec fn text_count(list: Seq<Seq<char>>, t: Seq<char>) -> nat {
    list.to_multiset().count(t)
}

proof fn text_count_grows(list: Seq<Seq<char>>, k: int, value: Seq<char>)
    requires
        0 <= k < list.len(),
    ensures
        text_count(list.take(k + 1), value) == text_count(list.take(k), value) + (if list[k]
            == value {
            1nat
        } else {
            0nat
        }),
{
    broadcast use vstd::multiset::group_multiset_axioms;

    assert(list.take(k + 1) =~= list.take(k).push(list[k]));
    vstd::seq_lib::to_multiset_build(list.take(k), list[k]);
}

fn times_found(list: &Vec<String>, value: &str) -> (n: usize)
    ensures
        n == text_count(text::texts(list@), value@),
{
    let ghost all = text::texts(list@);
    let mut n: usize = 0;
    let mut i: usize = 0;
    proof {
        broadcast use vstd::multiset::group_multiset_axioms;
        broadcast use vstd::seq_lib::group_to_multiset_ensures;

        assert(all.take(0) =~= Seq::empty());
    }
    while i < list.len()
        invariant
            i <= list@.len(),
            n <= i,
            all == text::texts(list@),
            n == text_count(all.take(i as int), value@),
        decreases list.len() - i,
    {
        proof {
            text_count_grows(all, i as int, value@);
        }
        assert(all[i as int] == list@[i as int]@);
        if same_text(&list[i], value) {
            n += 1;
        }
        i += 1;
    }
    assert(all.take(i as int) =~= all);
    n
}

/// Two lists have the same texts, in any order.
pub open spec fn same_texts(a: Seq<Seq<char>>, b: Seq<Seq<char>>) -> bool {
    a.to_multiset() == b.to_multiset()
}

fn found_alike(list: &Vec<String>, a: &Vec<String>, b: &Vec<String>) -> (yes: bool)
    ensures
        yes <==> forall|i: int|
            0 <= i < list@.len() ==> text_count(text::texts(a@), (#[trigger] list@[i])@)
                == text_count(text::texts(b@), list@[i]@),
{
    let mut i: usize = 0;
    while i < list.len()
        invariant
            i <= list@.len(),
            forall|j: int|
                0 <= j < i ==> text_count(text::texts(a@), (#[trigger] list@[j])@) == text_count(
                    text::texts(b@),
                    list@[j]@,
                ),
        decreases list.len() - i,
    {
        if times_found(a, &list[i]) != times_found(b, &list[i]) {
            return false;
        }
        i += 1;
    }
    true
}

/// Whether two lists have the same texts, in any order.
pub fn texts_agree(a: &Vec<String>, b: &Vec<String>) -> (yes: bool)
    ensures
        yes == same_texts(text::texts(a@), text::texts(b@)),
{
    let yes = found_alike(a, a, b) && found_alike(b, a, b);
    proof {
        broadcast use vstd::multiset::group_multiset_axioms;
        broadcast use vstd::seq_lib::group_to_multiset_ensures;

        let ta = text::texts(a@);
        let tb = text::texts(b@);
        if yes {
            assert forall|t: Seq<char>| ta.to_multiset().count(t) == tb.to_multiset().count(t) by {
                if ta.to_multiset().count(t) > 0 {
                    assert(ta.to_multiset().contains(t));
                    assert(ta.contains(t));
                    let i = choose|i: int| 0 <= i < ta.len() && ta[i] == t;
                    assert(t == a@[i]@);
                } else if tb.to_multiset().count(t) > 0 {
                    assert(tb.to_multiset().contains(t));
                    assert(tb.contains(t));
                    let i = choose|i: int| 0 <= i < tb.len() && tb[i] == t;
                    assert(t == b@[i]@);
                }
            }
            assert(ta.to_multiset() =~= tb.to_multiset());
        }
    }
    yes
}

/// Every text of one list is in another.
pub open spec fn all_within(list: Seq<Seq<char>>, other: Seq<Seq<char>>) -> bool {
    forall|i: int| 0 <= i < list.len() ==> other.contains(#[trigger] list[i])
}

fn within(list: &Vec<String>, other: &Vec<String>) -> (yes: bool)
    ensures
        yes == all_within(text::texts(list@), text::texts(other@)),
{
    let ghost all = text::texts(list@);
    let ghost into = text::texts(other@);
    let mut i: usize = 0;
    while i < list.len()
        invariant
            i <= list@.len(),
            all == text::texts(list@),
            into == text::texts(other@),
            forall|j: int| 0 <= j < i ==> into.contains(#[trigger] all[j]),
        decreases list.len() - i,
    {
        assert(all[i as int] == list@[i as int]@);
        if !crate::order::holds_text(other, &list[i]) {
            assert(!into.contains(all[i as int]));
            return false;
        }
        i += 1;
    }
    true
}

/// No text occurs twice.
pub open spec fn all_different(list: Seq<Seq<char>>) -> bool {
    forall|i: int, j: int|
        0 <= i < j < list.len() ==> #[trigger] list[i] != #[trigger] list[j]
}

fn different(list: &Vec<String>) -> (yes: bool)
    ensures
        yes == all_different(text::texts(list@)),
{
    let ghost all = text::texts(list@);
    let mut i: usize = 0;
    while i < list.len()
        invariant
            i <= list@.len(),
            all == text::texts(list@),
            forall|a: int, b: int| 0 <= a < b < i ==> #[trigger] all[a] != #[trigger] all[b],
        decreases list.len() - i,
    {
        let mut j: usize = 0;
        while j < i
            invariant
                j <= i < list@.len(),
                all == text::texts(list@),
                forall|a: int| 0 <= a < j ==> #[trigger] all[a] != all[i as int],
            decreases i - j,
        {
            assert(all[i as int] == list@[i as int]@ && all[j as int] == list@[j as int]@);
            if same_text(&list[j], &list[i]) {
                assert(!all_different(all));
                return false;
            }
            j += 1;
        }
        i += 1;
    }
    true
}

/// The warnings of an answer meet the contract of a case: so many of them, no
/// two alike, all the required ones among them, and none that is not allowed.
/// Their order and the choice among the allowed ones are free.
pub open spec fn contract_met(
    count: u64,
    required: Seq<Seq<char>>,
    allowed: Seq<Seq<char>>,
    actual: Seq<Seq<char>>,
) -> bool {
    &&& actual.len() == count
    &&& all_different(actual)
    &&& all_within(required, actual)
    &&& all_within(actual, allowed)
}

/// Whether the warnings of an answer are those that a case expects.
pub open spec fn warnings_of(case: Json, actual: Option<Json>) -> Result<bool, CaseError> {
    match json::member_of(case, "expected_warning_contract"@) {
        None => match annotations(actual) {
            Err(e) => Err(e),
            Ok(found) => match annotations(json::member_of(case, "expected_warnings"@)) {
                Err(e) => Err(e),
                Ok(expected) => Ok(same_texts(found, expected)),
            },
        },
        Some(contract) => if !(contract is Object) {
            Err(CaseError::NotObject("expected_warning_contract"))
        } else if oracle_cases::has_key(case, "expected_warnings") {
            Err(CaseError::Missing("expected_warnings and expected_warning_contract are mutually exclusive"))
        } else {
            match json::member_of(contract, "count"@) {
                None => Err(CaseError::Integer("expected_warning_contract.count")),
                Some(n) => match json::unsigned_of(n) {
                    None => Err(CaseError::Integer("expected_warning_contract.count")),
                    Some(count) => match annotations(json::member_of(contract, "required"@)) {
                        Err(e) => Err(e),
                        Ok(required) => match annotations(json::member_of(contract, "allowed"@)) {
                            Err(e) => Err(e),
                            Ok(allowed) => match annotations(actual) {
                                Err(e) => Err(e),
                                Ok(found) => Ok(contract_met(count, required, allowed, found)),
                            },
                        },
                    },
                },
            }
        },
    }
}

/// Whether the warnings of an answer are those that a case expects.
pub fn warning_contract_matches(case: &Json, actual: Option<&Json>) -> (result: Result<
    bool,
    CaseError,
>)
    ensures
        result == warnings_of(*case, optional(actual)),
{
    let contract = match member(case, "expected_warning_contract") {
        None => {
            let found = match strings(actual) {
                Ok(l) => l,
                Err(e) => return Err(e),
            };
            let expected = match strings(member(case, "expected_warnings")) {
                Ok(l) => l,
                Err(e) => return Err(e),
            };
            return Ok(texts_agree(&found, &expected));
        },
        Some(c) => c,
    };
    match contract {
        Json::Object(_) => {},
        _ => return Err(CaseError::NotObject("expected_warning_contract")),
    }
    if contains_key(case, "expected_warnings") {
        return Err(
            CaseError::Missing(
                "expected_warnings and expected_warning_contract are mutually exclusive",
            ),
        );
    }
    let count = match member(contract, "count") {
        None => return Err(CaseError::Integer("expected_warning_contract.count")),
        Some(n) => match as_unsigned(n) {
            None => return Err(CaseError::Integer("expected_warning_contract.count")),
            Some(count) => count,
        },
    };
    let required = match strings(member(contract, "required")) {
        Ok(l) => l,
        Err(e) => return Err(e),
    };
    let allowed = match strings(member(contract, "allowed")) {
        Ok(l) => l,
        Err(e) => return Err(e),
    };
    let found = match strings(actual) {
        Ok(l) => l,
        Err(e) => return Err(e),
    };
    assert(text::texts(found@).len() == found@.len());
    Ok(
        found.len() as u64 == count && different(&found) && within(&required, &found) && within(
            &found,
            &allowed,
        ),
    )
}

/// The answer reports success with a result of a type.
pub open spec fn succeeded(status: u16, body: Json, result_type: Seq<char>) -> bool {
    &&& status == 200
    &&& json::has_text(json::member_of(body, "status"@), "success"@)
    &&& json::has_text(json::at_path(body, seq!["data"@, "resultType"@]), result_type)
}

fn success(status: u16, body: &Json, result_type: &str) -> (yes: bool)
    ensures
        yes == succeeded(status, *body, result_type@),
{
    status == 200 && (match member(body, "status") {
        Some(v) => text_is(v, "success"),
        None => false,
    }) && (match member2(body, "data", "resultType") {
        Some(v) => text_is(v, result_type),
        None => false,
    })
}

/// The answer of a plain case is exactly the expected result.
pub open spec fn plain_answer(expected: Expectation, status: u16, body: Json) -> bool {
    &&& succeeded(status, body, expected.result_type@)
    &&& json::at_path(body, seq!["data"@, "result"@]) matches Some(v) && results_agree(
        expected.result@,
        v,
        true,
    )
}

/// Whether the answer of a temporal or subquery case is the expected result.
pub fn accepts_plain(expected: &Expectation, status: u16, body: &Json) -> (yes: bool)
    ensures
        yes == plain_answer(*expected, status, *body),
{
    success(status, body, expected.result_type) && (match member2(body, "data", "result") {
        Some(v) => results_equal(&expected.result, v, true),
        None => false,
    })
}

/// The answer of a lookback case is the expected result, with as many members as the
/// case names.
pub open spec fn lookback_answer(expected: Expectation, count: u64, status: u16, body: Json) -> bool {
    plain_answer(expected, status, body) && expected.result@.len() == count
}

/// Whether the answer of a lookback case is the expected result, with as many
/// members as the case names.
pub fn accepts_lookback(expected: &Expectation, count: u64, status: u16, body: &Json) -> (yes: bool)
    ensures
        yes == lookback_answer(*expected, count, status, *body),
{
    accepts_plain(expected, status, body) && expected.result.len() as u64 == count
}

/// The answer to a case with a fixed body is that body.
pub open spec fn exact_answer(case: Json, status: u16, body: Json) -> Result<bool, CaseError> {
    match json::member_of(case, "status"@) {
        None => Err(CaseError::Missing("case status")),
        Some(s) => match json::unsigned_of(s) {
            None => Err(CaseError::Missing("case status")),
            Some(expected) => match json::member_of(case, "body"@) {
                None => Err(CaseError::Missing("case body")),
                Some(b) => Ok(status == expected % 0x1_0000 && json::same(body, b)),
            },
        },
    }
}

/// Whether the answer to a case with a fixed body is that body.
pub fn accepts_exact(case: &Json, status: u16, body: &Json) -> (result: Result<bool, CaseError>)
    ensures
        result == exact_answer(*case, status, *body),
{
    let expected = match member(case, "status") {
        None => return Err(CaseError::Missing("case status")),
        Some(s) => match as_unsigned(s) {
            None => return Err(CaseError::Missing("case status")),
            Some(n) => n,
        },
    };
    match member(case, "body") {
        None => Err(CaseError::Missing("case body")),
        Some(b) => Ok(status as u64 == expected % 0x1_0000 && same_json(body, b)),
    }
}

/// The order of the result matters to a case.
pub open spec fn is_ordered(case: Json) -> bool {
    json::has_text(json::member_of(case, "result_order"@), "ordered"@)
}

fn ordered(case: &Json) -> (yes: bool)
    ensures
        yes == is_ordered(*case),
{
    match member(case, "result_order") {
        Some(v) => text_is(v, "ordered"),
        None => false,
    }
}

/// The result of an answer; null where there is none.
pub open spec fn result_member(body: Json) -> Json {
    match json::at_path(body, seq!["data"@, "result"@]) {
        Some(v) => v,
        None => Json::Null,
    }
}

/// Annotations with the evaluation time in place of its mark.
pub open spec fn dated(list: Seq<Seq<char>>, evaluation: Seq<char>) -> Seq<Seq<char>> {
    list.map_values(
        |t: Seq<char>| moments::replaced(t, "{evaluation_rfc3339}"@, evaluation),
    )
}

fn date_all(list: &Vec<String>, evaluation: &str) -> (out: Vec<String>)
    ensures
        text::texts(out@) == dated(text::texts(list@), evaluation@),
{
    let mut out: Vec<String> = Vec::new();
    let mut i: usize = 0;
    while i < list.len()
        invariant
            i <= list@.len(),
            text::texts(out@) =~= dated(text::texts(list@), evaluation@).take(i as int),
        decreases list.len() - i,
    {
        let ghost before = text::texts(out@);
        proof {
            reveal_strlit("{evaluation_rfc3339}");
        }
        let one = replace_marks(&list[i], "{evaluation_rfc3339}", evaluation);
        out.push(one);
        assert(text::texts(out@) =~= before.push(one@));
        i += 1;
    }
    assert(dated(text::texts(list@), evaluation@).take(i as int) =~= dated(
        text::texts(list@),
        evaluation@,
    ));
    out
}

/// The result of an operator case is the expected one: a scalar exactly, a list
/// in the order that the case asks for.
pub open spec fn operator_result(case: Json, expected: Expectation, body: Json) -> bool {
    if expected.result_type@ == "scalar"@ {
        results_agree(expected.result@, result_member(body), true)
    } else {
        results_agree(expected.result@, result_member(body), is_ordered(case))
    }
}

/// Whether the answer to an operator case agrees with it, given the evaluation
/// time in print.
pub open spec fn operator_answer(
    case: Json,
    expected: Expectation,
    evaluation: Seq<char>,
    status: u16,
    body: Json,
) -> Result<bool, CaseError> {
    match annotations(json::member_of(case, "expected_infos"@)) {
        Err(e) => Err(e),
        Ok(infos) => match annotations(json::member_of(body, "infos"@)) {
            Err(e) => Err(e),
            Ok(found) => match warnings_of(case, json::member_of(body, "warnings"@)) {
                Err(e) => Err(e),
                Ok(warned) => Ok(
                    succeeded(status, body, expected.result_type@) && operator_result(
                        case,
                        expected,
                        body,
                    ) && warned && same_texts(found, dated(infos, evaluation)),
                ),
            },
        },
    }
}

/// Whether the answer to an operator case agrees with it, given the evaluation
/// time in print.
pub fn accepts_operator_at(
    case: &Json,
    expected: &Expectation,
    evaluation: &str,
    status: u16,
    body: &Json,
) -> (result: Result<bool, CaseError>)
    ensures
        result == operator_answer(*case, *expected, evaluation@, status, *body),
{
    let infos = match strings(member(case, "expected_infos")) {
        Ok(l) => l,
        Err(e) => return Err(e),
    };
    let found = match strings(member(body, "infos")) {
        Ok(l) => l,
        Err(e) => return Err(e),
    };
    let warned = match warning_contract_matches(case, member(body, "warnings")) {
        Ok(w) => w,
        Err(e) => return Err(e),
    };
    let in_order = same_text(expected.result_type, "scalar") || ordered(case);
    let agrees = match member2(body, "data", "result") {
        Some(v) => results_equal(&expected.result, v, in_order),
        None => false,
    };
    let dated_infos = date_all(&infos, evaluation);
    Ok(
        success(status, body, expected.result_type) && agrees && warned && texts_agree(
            &found,
            &dated_infos,
        ),
    )
}

/// Whether the answer to an operator case agrees with it.
pub fn accepts_operator(
    case: &Json,
    expected: &Expectation,
    evaluation_ms: i64,
    status: u16,
    body: &Json,
) -> (result: Result<bool, CaseError>)
    ensures
        result == (match calendar::utc_text(evaluation_ms) {
            Some(evaluation) => operator_answer(*case, *expected, evaluation, status, *body),
            None => Err(CaseError::Time),
        }),
{
    match second_text(evaluation_ms) {
        Some(evaluation) => accepts_operator_at(case, expected, &evaluation, status, body),
        None => Err(CaseError::Time),
    }
}

/// The parameters of a case that must be refused.
pub fn error_request(case: &Json, sample_ms: i64) -> (result: Result<Vec<(String, Json)>, CaseError>)
    ensures
        match result {
            Ok(params) => {
                &&& oracle_cases::moment_at(
                    *case,
                    "evaluation_offset_ms",
                    sample_ms,
                ) matches Ok(at)
                &&& oracle_cases::text_at(*case, "query") matches Ok(query)
                &&& json::member_trees(params@) == oracle_cases::instant_params(
                    query,
                    moments::timestamp_tree(at as int),
                    None,
                    None,
                    None,
                )
            },
            Err(e) => match oracle_cases::moment_at(*case, "evaluation_offset_ms", sample_ms) {
                Err(f) => e == f,
                Ok(_) => oracle_cases::text_at(*case, "query") == Err::<Seq<char>, CaseError>(e),
            },
        },
{
    let at = match moment(case, "evaluation_offset_ms", sample_ms) {
        Ok(t) => t,
        Err(e) => return Err(e),
    };
    let query = match string(case, "query") {
        Ok(q) => q,
        Err(e) => return Err(e),
    };
    Ok(oracle_cases::at_instant(query, timestamp(at), None, None, None))
}

/// The answer to a refused query is the error that the case names.
pub open spec fn error_answer(case: Json, status: u16, body: Json) -> Result<bool, CaseError> {
    match json::member_of(case, "status"@) {
        None => Err(CaseError::Missing("status")),
        Some(s) => match json::unsigned_of(s) {
            None => Err(CaseError::Missing("status")),
            Some(expected) => match oracle_cases::text_at(case, "error_contains") {
                Err(e) => Err(e),
                Ok(part) => Ok(
                    status == expected % 0x1_0000 && json::has_text(
                        json::member_of(body, "status"@),
                        "error"@,
                    ) && json::same_found(
                        json::member_of(body, "errorType"@),
                        json::member_of(case, "error_type"@),
                    ) && error_names(body, part),
                ),
            },
        },
    }
}

/// The error of an answer contains a text.
pub open spec fn error_names(body: Json, part: Seq<char>) -> bool {
    json::member_of(body, "error"@) matches Some(v) && json::text_of(v) matches Some(t)
        && text::occurs_in(t, part)
}

/// Whether the answer to a refused query is the error that the case names.
pub fn accepts_error(case: &Json, status: u16, body: &Json) -> (result: Result<bool, CaseError>)
    ensures
        result == error_answer(*case, status, *body),
{
    let expected = match member(case, "status") {
        None => return Err(CaseError::Missing("status")),
        Some(s) => match as_unsigned(s) {
            None => return Err(CaseError::Missing("status")),
            Some(n) => n,
        },
    };
    let part = match string(case, "error_contains") {
        Ok(t) => t,
        Err(e) => return Err(e),
    };
    let refused = match member(body, "status") {
        Some(v) => text_is(v, "error"),
        None => false,
    };
    let kind = match (member(body, "errorType"), member(case, "error_type")) {
        (Some(x), Some(y)) => same_json(x, y),
        (None, None) => true,
        _ => false,
    };
    let named = match member(body, "error") {
        Some(Json::Text(t)) => contains_text(t, &part),
        _ => false,
    };
    Ok(status as u64 == expected % 0x1_0000 && refused && kind && named)
}

} // verus!
