//! What holds of every answer that an oracle accepts or refuses.
use crate::json::{self, Json, Tree};
use crate::oracle_answers;
use crate::oracle_cases::{CaseError, Expectation};
use crate::oracle_logs;
use crate::text;
use vstd::prelude::*;

verus! {

/// What stands behind two keys of what a value holds.
pub open spec fn deep(t: Tree, first: Seq<char>, second: Seq<char>) -> Option<Tree> {
    match json::tree_member(t, first) {
        Some(inner) => json::tree_member(inner, second),
        None => None,
    }
}

/// Following two keys reaches what stands behind them.
pub proof fn paths_are_followed(value: Json, first: Seq<char>, second: Seq<char>)
    ensures
        json::optional_tree(json::at_path(value, seq![first, second])) == deep(
            json::tree(value),
            first,
            second,
        ),
{
    reveal_with_fuel(json::at_path, 3);
    assert(seq![first, second].drop_first() =~= seq![second]);
    assert(seq![second].drop_first() =~= Seq::empty());
    json::member_holds(value, first);
    match json::member_of(value, first) {
        Some(inner) => json::member_holds(inner, second),
        None => {},
    }
}

/// What is equal to one value is equal to what is equal to the other.
pub proof fn equals_of_one_are_equal(a: Tree, b: Tree, c: Tree)
    requires
        json::same_trees(a, b),
        json::same_trees(a, c),
    ensures
        json::same_trees(b, c),
    decreases a,
{
    match (a, b, c) {
        (Tree::Array(x), Tree::Array(y), Tree::Array(z)) => {
            assert forall|i: int| 0 <= i < y.len() implies json::same_trees(#[trigger] y[i], z[i]) by {
                assert(json::same_trees(x[i], y[i]) && json::same_trees(x[i], z[i]));
                equals_of_one_are_equal(x[i], y[i], z[i]);
            }
        },
        (Tree::Object(x), Tree::Object(y), Tree::Object(z)) => {
            assert forall|i: int| 0 <= i < y.len() implies (#[trigger] y[i]).0 == z[i].0
                && json::same_trees(y[i].1, z[i].1) by {
                assert(x[i].0 == y[i].0 && json::same_trees(x[i].1, y[i].1));
                assert(x[i].0 == z[i].0 && json::same_trees(x[i].1, z[i].1));
                assert(decreases_to!(x[i] => x[i].1));
                equals_of_one_are_equal(x[i].1, y[i].1, z[i].1);
            }
        },
        _ => {},
    }
}

/// An accepted answer reports success, names the expected type and has, one after
/// the other, exactly the expected members as its result; and every such answer is
/// accepted.
pub proof fn accepted_answers_hold_the_expected_result(expected: Expectation, status: u16, body: Json)
    ensures
        oracle_answers::plain_answer(expected, status, body) <==> {
            &&& status == 200
            &&& json::tree_member(json::tree(body), "status"@) == Some(Tree::Text("success"@))
            &&& deep(json::tree(body), "data"@, "resultType"@) == Some(
                Tree::Text(expected.result_type@),
            )
            &&& deep(json::tree(body), "data"@, "result"@) matches Some(Tree::Array(list))
                && list.len() == expected.result@.len() && forall|i: int|
                0 <= i < list.len() ==> json::same_trees(
                    json::tree(expected.result@[i]),
                    #[trigger] list[i],
                )
        },
{
    success_is_reported(status, body, expected.result_type@);
    paths_are_followed(body, "data"@, "result"@);
    match json::at_path(body, seq!["data"@, "result"@]) {
        Some(v) => {
            json::items_hold(v);
            match json::items_of(v) {
                Some(actual) => {
                    let list = json::trees(actual);
                    assert(list.len() == actual.len());
                    assert forall|i: int| 0 <= i < list.len() && i < expected.result@.len() implies json::same(
                        #[trigger] expected.result@[i],
                        actual[i],
                    ) == json::same_trees(json::tree(expected.result@[i]), list[i]) by {
                        json::equal_values_hold_equal(expected.result@[i], actual[i]);
                    }
                    if list.len() == expected.result@.len() && (forall|i: int|
                        0 <= i < list.len() ==> json::same_trees(
                            json::tree(expected.result@[i]),
                            #[trigger] list[i],
                        )) {
                        assert forall|i: int| 0 <= i < list.len() implies json::same(
                            #[trigger] expected.result@[i],
                            actual[i],
                        ) by {
                            assert(json::same_trees(json::tree(expected.result@[i]), list[i]));
                        }
                    }
                    if oracle_answers::plain_answer(expected, status, body) {
                        assert forall|i: int| 0 <= i < list.len() implies json::same_trees(
                            json::tree(expected.result@[i]),
                            #[trigger] list[i],
                        ) by {
                            assert(json::same(expected.result@[i], actual[i]));
                        }
                    }
                },
                None => {},
            }
        },
        None => {},
    }
}

/// Success is reported by the status, by the word and by the type of the result.
pub proof fn success_is_reported(status: u16, body: Json, result_type: Seq<char>)
    ensures
        oracle_answers::succeeded(status, body, result_type) <==> {
            &&& status == 200
            &&& json::tree_member(json::tree(body), "status"@) == Some(Tree::Text("success"@))
            &&& deep(json::tree(body), "data"@, "resultType"@) == Some(Tree::Text(result_type))
        },
{
    json::member_holds(body, "status"@);
    paths_are_followed(body, "data"@, "resultType"@);
}

/// Two answers that are accepted for one expectation have equal results: an answer
/// with another value in one place is refused.
pub proof fn accepted_answers_are_equal(
    expected: Expectation,
    first_status: u16,
    first: Json,
    second_status: u16,
    second: Json,
)
    requires
        oracle_answers::plain_answer(expected, first_status, first),
        oracle_answers::plain_answer(expected, second_status, second),
    ensures
        first_status == second_status,
        match (
            deep(json::tree(first), "data"@, "result"@),
            deep(json::tree(second), "data"@, "result"@),
        ) {
            (Some(a), Some(b)) => json::same_trees(a, b),
            _ => false,
        },
{
    accepted_answers_hold_the_expected_result(expected, first_status, first);
    accepted_answers_hold_the_expected_result(expected, second_status, second);
    let a = deep(json::tree(first), "data"@, "result"@)->Some_0;
    let b = deep(json::tree(second), "data"@, "result"@)->Some_0;
    let x = a->Array_0;
    let y = b->Array_0;
    assert forall|i: int| 0 <= i < x.len() implies json::same_trees(#[trigger] x[i], y[i]) by {
        let e = json::tree(expected.result@[i]);
        assert(json::same_trees(e, x[i]) && json::same_trees(e, y[i]));
        equals_of_one_are_equal(e, x[i], y[i]);
    }
}

/// An answer whose result has another text in the place of a sample's value is not
/// accepted for the same expectation.
pub proof fn another_sample_is_refused(
    expected: Expectation,
    status: u16,
    first: Json,
    second: Json,
    place: int,
)
    requires
        oracle_answers::plain_answer(expected, status, first),
        deep(json::tree(first), "data"@, "result"@) matches Some(Tree::Array(a)) && deep(
            json::tree(second),
            "data"@,
            "result"@,
        ) matches Some(Tree::Array(b)) && 0 <= place < a.len() && place < b.len()
            && !json::same_trees(a[place], b[place]),
    ensures
        !oracle_answers::plain_answer(expected, status, second),
{
    if oracle_answers::plain_answer(expected, status, second) {
        accepted_answers_are_equal(expected, status, first, status, second);
        let a = deep(json::tree(first), "data"@, "result"@)->Some_0->Array_0;
        let b = deep(json::tree(second), "data"@, "result"@)->Some_0->Array_0;
        assert(json::same_trees(a[place], b[place]));
    }
}

/// No number in what a value holds is a float.
pub open spec fn no_float(t: Tree) -> bool
    decreases t,
{
    match t {
        Tree::Float(_, _) => false,
        Tree::Array(list) => forall|i: int| 0 <= i < list.len() ==> no_float(#[trigger] list[i]),
        Tree::Object(list) => forall|i: int| 0 <= i < list.len() ==> no_float((#[trigger] list[i]).1),
        _ => true,
    }
}

/// Where there are no floats, to be equal is to hold the same.
pub proof fn equal_without_floats_is_identical(a: Tree, b: Tree)
    requires
        no_float(a),
    ensures
        json::same_trees(a, b) <==> a == b,
    decreases a,
{
    match (a, b) {
        (Tree::Array(x), Tree::Array(y)) => {
            if x.len() == y.len() {
                assert forall|i: int| 0 <= i < x.len() implies (json::same_trees(#[trigger] x[i], y[i])
                    <==> x[i] == y[i]) by {
                    equal_without_floats_is_identical(x[i], y[i]);
                }
            }
            if json::same_trees(a, b) {
                assert forall|i: int| 0 <= i < x.len() implies x[i] == y[i] by {
                    assert(json::same_trees(x[i], y[i]));
                }
                assert(x =~= y);
            }
            if a == b {
                assert forall|i: int| 0 <= i < x.len() implies json::same_trees(#[trigger] x[i], y[i]) by {}
            }
        },
        (Tree::Object(x), Tree::Object(y)) => {
            if x.len() == y.len() {
                assert forall|i: int| 0 <= i < x.len() implies (json::same_trees(
                    (#[trigger] x[i]).1,
                    y[i].1,
                ) <==> x[i].1 == y[i].1) by {
                    assert(decreases_to!(x[i] => x[i].1));
                    equal_without_floats_is_identical(x[i].1, y[i].1);
                }
            }
            if json::same_trees(a, b) {
                assert forall|i: int| 0 <= i < x.len() implies x[i] == y[i] by {
                    assert(x[i].0 == y[i].0 && json::same_trees(x[i].1, y[i].1));
                }
                assert(x =~= y);
            }
            if a == b {
                assert forall|i: int| 0 <= i < x.len() implies (#[trigger] x[i]).0 == y[i].0
                    && json::same_trees(x[i].1, y[i].1) by {}
            }
        },
        _ => {},
    }
}

/// Equal floats have the same bits, unless both are zero.
pub proof fn equal_floats_have_equal_bits(x: u64, s: Seq<char>, y: u64, t: Seq<char>)
    ensures
        json::same_trees(Tree::Float(x, s), Tree::Float(y, t)) ==> x == y || (x
            % 0x8000_0000_0000_0000 == 0 && y % 0x8000_0000_0000_0000 == 0),
        x == y && x % 0x8000_0000_0000_0000 <= 0x7ff0_0000_0000_0000 ==> json::same_trees(
            Tree::Float(x, s),
            Tree::Float(y, t),
        ),
        x % 0x8000_0000_0000_0000 > 0x7ff0_0000_0000_0000 ==> !json::same_trees(
            Tree::Float(x, s),
            Tree::Float(y, t),
        ),
        !json::same_trees(Tree::Float(x, s), Tree::Unsigned(y)),
{
}

/// An accepted lookback answer has as many members as the case names, and they are
/// the expected ones.
pub proof fn lookback_answers_are_counted(expected: Expectation, count: u64, status: u16, body: Json)
    requires
        oracle_answers::lookback_answer(expected, count, status, body),
    ensures
        deep(json::tree(body), "data"@, "result"@) matches Some(Tree::Array(list)) && list.len()
            == count && forall|i: int|
            0 <= i < list.len() ==> json::same_trees(
                json::tree(expected.result@[i]),
                #[trigger] list[i],
            ),
{
    accepted_answers_hold_the_expected_result(expected, status, body);
}

/// An answer is accepted for a fixed body exactly if it has the status of the case,
/// cut to sixteen bits, and equals the body of the case.
pub proof fn fixed_answers_are_equal(case: Json, status: u16, body: Json)
    ensures
        oracle_answers::exact_answer(case, status, body) == Ok::<bool, CaseError>(true) <==> {
            &&& json::tree_member(json::tree(case), "status"@) matches Some(Tree::Unsigned(n))
            &&& status == n % 0x1_0000
            &&& json::tree_member(json::tree(case), "body"@) matches Some(b)
            &&& json::same_trees(json::tree(body), b)
        },
{
    json::member_holds(case, "status"@);
    json::member_holds(case, "body"@);
    match json::member_of(case, "body"@) {
        Some(b) => json::equal_values_hold_equal(body, b),
        None => {},
    }
}

/// An accepted answer to an operator case reports success and has the expected
/// members: in their order where the result is a scalar or the case asks for the
/// order, and otherwise each as often as expected.
pub proof fn operator_answers_hold_the_expected_result(
    case: Json,
    expected: Expectation,
    evaluation: Seq<char>,
    status: u16,
    body: Json,
)
    requires
        oracle_answers::operator_answer(case, expected, evaluation, status, body) == Ok::<
            bool,
            CaseError,
        >(true),
    ensures
        status == 200,
        json::tree_member(json::tree(body), "status"@) == Some(Tree::Text("success"@)),
        deep(json::tree(body), "data"@, "resultType"@) == Some(Tree::Text(expected.result_type@)),
        deep(json::tree(body), "data"@, "result"@) matches Some(Tree::Array(list)) && {
            &&& list.len() == expected.result@.len()
            &&& expected.result_type@ == "scalar"@ || json::tree_member(
                json::tree(case),
                "result_order"@,
            ) == Some(Tree::Text("ordered"@)) ==> forall|i: int|
                0 <= i < list.len() ==> json::same_trees(
                    json::tree(expected.result@[i]),
                    #[trigger] list[i],
                )
            &&& expected.result_type@ != "scalar"@ && json::tree_member(
                json::tree(case),
                "result_order"@,
            ) != Some(Tree::Text("ordered"@)) ==> list.to_multiset()
                == expected@.result.to_multiset()
        },
{
    success_is_reported(status, body, expected.result_type@);
    paths_are_followed(body, "data"@, "result"@);
    json::member_holds(case, "result_order"@);
    let v = json::at_path(body, seq!["data"@, "result"@])->Some_0;
    json::items_hold(v);
    let actual = json::items_of(v)->Some_0;
    let list = json::trees(actual);
    assert(list.len() == actual.len());
    if expected.result_type@ == "scalar"@ || oracle_answers::is_ordered(case) {
        assert forall|i: int| 0 <= i < list.len() implies json::same_trees(
            json::tree(expected.result@[i]),
            #[trigger] list[i],
        ) by {
            assert(json::same(expected.result@[i], actual[i]));
            json::equal_values_hold_equal(expected.result@[i], actual[i]);
        }
    } else {
        oracle_answers::same_members_are_as_many(expected.result@, actual);
    }
}

/// A list of texts among what a value holds.
pub open spec fn texts_in(held: Option<Tree>) -> Option<Seq<Seq<char>>> {
    match held {
        None => Some(Seq::empty()),
        Some(Tree::Array(list)) => if forall|i: int|
            0 <= i < list.len() ==> (#[trigger] list[i]) is Text {
            Some(list.map_values(|t: Tree| t->Text_0))
        } else {
            None
        },
        _ => None,
    }
}

/// Annotations are the texts that stand there.
pub proof fn annotations_are_texts(value: Option<Json>)
    ensures
        match (oracle_answers::annotations(value), texts_in(json::optional_tree(value))) {
            (Ok(found), Some(list)) => found == list,
            (Err(_), None) => true,
            _ => false,
        },
{
    match value {
        Some(v) => {
            json::items_hold(v);
            match json::items_of(v) {
                Some(list) => {
                    let held = json::trees(list);
                    assert(held.len() == list.len());
                    assert forall|i: int| 0 <= i < list.len() implies ((#[trigger] list[i]) is Text <==> held[i] is Text) by {}
                    if oracle_answers::all_texts(list) {
                        assert forall|i: int| 0 <= i < held.len() implies (#[trigger] held[i]) is Text by {
                            assert(list[i] is Text);
                        }
                        let texts = held.map_values(|t: Tree| t->Text_0);
                        assert forall|i: int| 0 <= i < held.len() implies oracle_answers::texts_of(list)[i]
                            == texts[i] by {
                            assert(held[i] == Tree::Text(list[i]->Text_0@));
                        }
                        assert(oracle_answers::texts_of(list) =~= texts);
                    } else {
                        let i = choose|i: int| 0 <= i < list.len() && !((#[trigger] list[i]) is Text);
                        assert(!(held[i] is Text));
                    }
                },
                None => {},
            }
        },
        None => {},
    }
}

/// Where a case names its warnings, an answer has just those, each as often.
pub proof fn named_warnings_are_found(case: Json, actual: Option<Json>)
    requires
        oracle_answers::warnings_of(case, actual) == Ok::<bool, CaseError>(true),
        json::tree_member(json::tree(case), "expected_warning_contract"@) is None,
    ensures
        texts_in(json::optional_tree(actual)) matches Some(found) && texts_in(
            json::tree_member(json::tree(case), "expected_warnings"@),
        ) matches Some(named) && found.to_multiset() == named.to_multiset(),
{
    json::member_holds(case, "expected_warning_contract"@);
    json::member_holds(case, "expected_warnings"@);
    annotations_are_texts(actual);
    annotations_are_texts(json::member_of(case, "expected_warnings"@));
}

/// Where a case has a contract on its warnings, an answer has exactly so many, no two
/// alike, every required one and none but allowed ones.
pub proof fn warning_contracts_are_met(case: Json, actual: Option<Json>, contract: Tree)
    requires
        oracle_answers::warnings_of(case, actual) == Ok::<bool, CaseError>(true),
        json::tree_member(json::tree(case), "expected_warning_contract"@) == Some(contract),
    ensures
        json::tree_member(json::tree(case), "expected_warnings"@) is None,
        texts_in(json::optional_tree(actual)) matches Some(found) && {
            &&& json::tree_member(contract, "count"@) matches Some(Tree::Unsigned(n)) && found.len() == n
            &&& found.no_duplicates()
            &&& texts_in(json::tree_member(contract, "required"@)) matches Some(required)
                && forall|t: Seq<char>| required.contains(t) ==> #[trigger] found.contains(t)
            &&& texts_in(json::tree_member(contract, "allowed"@)) matches Some(allowed)
                && forall|t: Seq<char>| #[trigger] found.contains(t) ==> allowed.contains(t)
        },
{
    json::member_holds(case, "expected_warning_contract"@);
    json::member_holds(case, "expected_warnings"@);
    let c = json::member_of(case, "expected_warning_contract"@)->Some_0;
    json::member_holds(c, "count"@);
    json::member_holds(c, "required"@);
    json::member_holds(c, "allowed"@);
    annotations_are_texts(actual);
    annotations_are_texts(json::member_of(c, "required"@));
    annotations_are_texts(json::member_of(c, "allowed"@));
    let found = texts_in(json::optional_tree(actual))->Some_0;
    let required = texts_in(json::tree_member(contract, "required"@))->Some_0;
    let allowed = texts_in(json::tree_member(contract, "allowed"@))->Some_0;
    assert forall|t: Seq<char>| required.contains(t) implies #[trigger] found.contains(t) by {
        let i = choose|i: int| 0 <= i < required.len() && required[i] == t;
        assert(found.contains(required[i]));
    }
    assert forall|t: Seq<char>| #[trigger] found.contains(t) implies allowed.contains(t) by {
        let i = choose|i: int| 0 <= i < found.len() && found[i] == t;
        assert(allowed.contains(found[i]));
    }
}

/// Warnings that meet the contract of a case are accepted.
pub proof fn met_warning_contracts_are_accepted(
    count: u64,
    required: Seq<Seq<char>>,
    allowed: Seq<Seq<char>>,
    found: Seq<Seq<char>>,
)
    requires
        found.len() == count,
        found.no_duplicates(),
        required.to_set().subset_of(found.to_set()),
        found.to_set().subset_of(allowed.to_set()),
    ensures
        oracle_answers::contract_met(count, required, allowed, found),
{
    assert forall|i: int| 0 <= i < required.len() implies found.contains(#[trigger] required[i]) by {
        assert(required.to_set().contains(required[i]));
        assert(found.to_set().contains(required[i]));
    }
    assert forall|i: int| 0 <= i < found.len() implies allowed.contains(#[trigger] found[i]) by {
        assert(found.to_set().contains(found[i]));
        assert(allowed.to_set().contains(found[i]));
    }
}

/// An accepted answer to a refused query has the status of the case, says that it is
/// an error, has the case's kind of error and a message that contains the case's text.
pub proof fn refused_queries_are_answered(case: Json, status: u16, body: Json)
    requires
        oracle_answers::error_answer(case, status, body) == Ok::<bool, CaseError>(true),
    ensures
        json::tree_member(json::tree(case), "status"@) matches Some(Tree::Unsigned(n)) && status
            == n % 0x1_0000,
        json::tree_member(json::tree(body), "status"@) == Some(Tree::Text("error"@)),
        match (
            json::tree_member(json::tree(body), "errorType"@),
            json::tree_member(json::tree(case), "error_type"@),
        ) {
            (Some(a), Some(b)) => json::same_trees(a, b),
            (None, None) => true,
            _ => false,
        },
        json::tree_member(json::tree(body), "error"@) matches Some(Tree::Text(said))
            && json::tree_member(json::tree(case), "error_contains"@) matches Some(Tree::Text(part))
            && exists|before: Seq<char>, after: Seq<char>| said == #[trigger] (before + part + after),
{
    json::member_holds(case, "status"@);
    json::member_holds(case, "error_type"@);
    json::member_holds(case, "error_contains"@);
    json::member_holds(body, "status"@);
    json::member_holds(body, "errorType"@);
    json::member_holds(body, "error"@);
    match (json::member_of(body, "errorType"@), json::member_of(case, "error_type"@)) {
        (Some(a), Some(b)) => json::equal_values_hold_equal(a, b),
        _ => {},
    }
    let said = json::tree_member(json::tree(body), "error"@)->Some_0->Text_0;
    let part = json::tree_member(json::tree(case), "error_contains"@)->Some_0->Text_0;
    occurrences_split(said, part);
}

/// A text occurs in another exactly if the other is that text between two others.
pub proof fn occurrences_split(s: Seq<char>, p: Seq<char>)
    ensures
        text::occurs_in(s, p) <==> exists|before: Seq<char>, after: Seq<char>|
            s == #[trigger] (before + p + after),
{
    if text::occurs_in(s, p) {
        let at = choose|at: int| text::stands_at(s, p, at);
        let before = s.take(at);
        let after = s.skip(at + p.len());
        assert(s =~= before + p + after);
    }
    if exists|before: Seq<char>, after: Seq<char>| s == #[trigger] (before + p + after) {
        let (before, after) = choose|before: Seq<char>, after: Seq<char>|
            s == #[trigger] (before + p + after);
        assert(s.subrange(before.len() as int, (before.len() + p.len()) as int) =~= p);
        assert(text::stands_at(s, p, before.len() as int));
    }
}

/// An accepted range answer of VictoriaMetrics reports success with a matrix whose
/// members are the expected ones, and nothing else.
pub proof fn range_answers_hold_the_expected_result(expected: Expectation, status: u16, body: Json)
    requires
        oracle_logs::data_answer(expected, status, body),
    ensures
        status == 200,
        json::tree_member(json::tree(body), "status"@) == Some(Tree::Text("success"@)),
        json::tree_member(json::tree(body), "data"@) matches Some(Tree::Object(members)) && {
            &&& members.len() == 2
            &&& members[1] == ("resultType"@, Tree::Text("matrix"@))
            &&& members[0].0 == "result"@
            &&& members[0].1 matches Tree::Array(list)
            &&& list.len() == expected.result@.len()
            &&& forall|i: int|
                0 <= i < list.len() ==> json::same_trees(
                    json::tree(expected.result@[i]),
                    #[trigger] list[i],
                )
        },
{
    json::member_holds(body, "status"@);
    json::member_holds(body, "data"@);
    let m = json::member_of(body, "data"@)->Some_0->Object_0;
    json::object_tree(m);
    let members = json::member_trees(m@);
    assert(members.len() == 2);
    assert(members[0] == (m@[0].0@, json::tree(m@[0].1)));
    assert(members[1] == (m@[1].0@, json::tree(m@[1].1)));
    json::items_hold(m@[0].1);
    let actual = json::items_of(m@[0].1)->Some_0;
    let list = json::trees(actual);
    assert(list.len() == actual.len());
    assert forall|i: int| 0 <= i < list.len() implies json::same_trees(
        json::tree(expected.result@[i]),
        #[trigger] list[i],
    ) by {
        assert(json::same(expected.result@[i], actual[i]));
        json::equal_values_hold_equal(expected.result@[i], actual[i]);
    }
}

/// An accepted log answer has the status of the case and is a stream, and it names the
/// cases that are expected: in their order where the case asks for it, and otherwise
/// each as often.
pub proof fn log_answers_name_the_expected_cases(
    case: Json,
    found: Seq<Seq<char>>,
    status: u16,
    content_type: Seq<char>,
)
    requires
        oracle_logs::log_answer(case, found, status, content_type) == Ok::<bool, CaseError>(true),
    ensures
        json::tree_member(json::tree(case), "status"@) matches Some(Tree::Unsigned(n)) && status
            == n % 0x1_0000,
        "application/stream+json"@.is_prefix_of(content_type),
        json::tree_member(json::tree(case), "expected_cases"@) is Some,
        texts_in(json::tree_member(json::tree(case), "expected_cases"@)) matches Some(expected) && (
        if json::tree_member(json::tree(case), "result_order"@) == Some(Tree::Text("ordered"@)) {
            found == expected
        } else {
            found.to_multiset() == expected.to_multiset()
        }),
{
    json::member_holds(case, "status"@);
    json::member_holds(case, "expected_cases"@);
    json::member_holds(case, "result_order"@);
    annotations_are_texts(json::member_of(case, "expected_cases"@));
    let stream = "application/stream+json"@;
    assert(stream =~= content_type.subrange(0, stream.len() as int));
}

/// An accepted statistics answer holds, row by row, what the case expects.
pub proof fn stats_answers_hold_the_expected_rows(
    case: Json,
    rows: Seq<Tree>,
    status: u16,
    content_type: Seq<char>,
)
    ensures
        oracle_logs::stats_answer(case, rows, status, content_type) == Ok::<bool, CaseError>(true) <==> {
            &&& status == 200
            &&& "application/stream+json"@.is_prefix_of(content_type)
            &&& json::tree_member(json::tree(case), "expected_rows"@) matches Some(
                Tree::Array(expected),
            )
            &&& json::same_trees(Tree::Array(rows), Tree::Array(expected))
        },
{
    json::member_holds(case, "expected_rows"@);
    let stream = "application/stream+json"@;
    if content_type.len() >= stream.len() {
        assert(stream.is_prefix_of(content_type) <==> stream == content_type.subrange(
            0,
            stream.len() as int,
        ));
    }
    match json::member_of(case, "expected_rows"@) {
        Some(v) => json::items_hold(v),
        None => {},
    }
}

} // verus!
