//! What holds of everything that a regression judge or rule accepts.
use crate::documents;
use crate::json::{self, Tree};
use crate::oracle_laws::deep;
use crate::parameters;
use crate::regression_documents;
use crate::regressions::{self, Documents, Judge, Rule};
use crate::text;
use crate::values::{Literal, SqlValue};
use vstd::prelude::*;

verus! {

/// What stands under a key.
pub open spec fn member(doc: Tree, key: Seq<char>) -> Option<Tree> {
    json::tree_member(doc, key)
}

/// A document keeps a rule that speaks of every document.
pub open spec fn keeps(rule: Rule, doc: Tree) -> bool {
    match rule {
        Rule::Deleted => {
            &&& deep(doc, "deployment"@, "region"@) is None
            &&& member(doc, "duration_ms"@) is None
            &&& member(doc, "service"@) is Some
        },
        Rule::FirstRetained => {
            &&& member(doc, "duration_ms"@) == Some(Tree::Unsigned(4))
            &&& member(doc, "service"@) == Some(Tree::Text("api"@))
            &&& deep(doc, "nested"@, "empty"@) == Some(Tree::Null)
        },
        Rule::LastRetained => {
            &&& member(doc, "duration_ms"@) == Some(Tree::Unsigned(12))
            &&& member(doc, "service"@) == Some(Tree::Text("api"@))
            &&& deep(doc, "nested"@, "empty"@) == Some(Tree::Text(""@))
        },
        Rule::CopiedDuration => {
            &&& match (member(doc, "copied"@), member(doc, "duration_ms"@)) {
                (Some(copy), Some(original)) => json::same_trees(copy, original),
                (None, None) => true,
                _ => false,
            }
            &&& member(doc, "host"@) is Some
        },
        Rule::MovedDuration => {
            &&& member(doc, "moved"@) is Some
            &&& member(doc, "duration_ms"@) is None
            &&& member(doc, "host"@) is Some
        },
        Rule::EmptyDropped => {
            &&& deep(doc, "nested"@, "empty"@) is None
            &&& deep(doc, "nested"@, "ok"@) is Some
            &&& member(doc, "tags"@) is Some
        },
        Rule::RowAny => {
            &&& doc matches Tree::Object(members)
            &&& members.len() == 1
            &&& member(doc, "nested"@) matches Some(Tree::Object(nested))
            &&& nested.len() == 2
            &&& deep(doc, "nested"@, "ok"@) == Some(Tree::Bool(true))
            &&& deep(doc, "nested"@, "none"@) == Some(Tree::Null)
        },
        Rule::TypedRowAny => {
            &&& deep(doc, "nested"@, "ok"@) == Some(Tree::Bool(true))
            &&& member(doc, "tags"@) matches Some(Tree::Array(_))
        },
        Rule::TagsArrays => member(doc, "tags"@) matches Some(Tree::Array(_)),
        Rule::CopiedArrays => member(doc, "copied"@) matches Some(Tree::Array(_)),
        Rule::CopiedEmpty => member(doc, "copied"@) == Some(Tree::Text(""@)),
        Rule::MovedFlags => deep(doc, "nested"@, "ok"@) is None,
        Rule::MovedArrays => {
            &&& member(doc, "moved"@) matches Some(Tree::Array(_))
            &&& member(doc, "tags"@) is None
        },
        Rule::MovedParents => {
            &&& member(doc, "moved"@) == Some(Tree::Text(""@))
            &&& member(doc, "nested"@) is Some
        },
        Rule::MovedEmpty => member(doc, "moved"@) == Some(Tree::Text(""@)),
        Rule::HostKept => member(doc, "host"@) is Some,
        Rule::HostOverwritten => {
            &&& member(doc, "duration_ms"@) is None
            &&& member(doc, "host"@) matches Some(host)
            &&& host is Unsigned || host is Negative || host is Float
        },
        _ => true,
    }
}

/// What was copied is there twice, what was moved or deleted is gone from where it was,
/// and what was to be kept is there: in every document that a rule accepts.
pub proof fn accepted_documents_keep_the_rule(rule: Rule, docs: Seq<Tree>, i: int)
    requires
        regression_documents::documents_accepted(rule, docs),
        0 <= i < docs.len(),
    ensures
        keeps(rule, docs[i]),
{
    assert(regression_documents::each(rule, docs[i]));
}

/// The first two documents are told apart by what they hold.
pub proof fn the_first_two_documents_are_told_apart(rule: Rule, docs: Seq<Tree>)
    requires
        regression_documents::documents_accepted(rule, docs),
    ensures
        rule is Packed ==> docs.len() >= 2 && {
            &&& member(docs[0], "host"@) == Some(Tree::Text("web-1"@))
            &&& member(docs[1], "host"@) == Some(Tree::Text("web-2"@))
            &&& member(docs[0], "duration_ms"@) == Some(Tree::Unsigned(12))
            &&& member(docs[1], "duration_ms"@) == Some(Tree::Unsigned(4))
            &&& deep(docs[0], "nested"@, "ok"@) == Some(Tree::Bool(true))
            &&& deep(docs[1], "nested"@, "ok"@) == Some(Tree::Text("true"@))
            &&& deep(docs[0], "nested"@, "none"@) == Some(Tree::Null)
            &&& deep(docs[0], "nested"@, "empty"@) == Some(Tree::Text(""@))
            &&& deep(docs[1], "nested"@, "empty"@) == Some(Tree::Null)
            &&& member(docs[0], "tags"@) matches Some(Tree::Array(first))
            &&& first.len() == 10 && first[0] == Tree::Text("prod"@) && first[2]
                == Tree::Unsigned(123) && first[3] == Tree::Bool(true) && first[4] == Tree::Bool(
                false,
            ) && first[5] == Tree::Null && first[8] == Tree::Text("ab"@) && first[9] == Tree::Text(
                "*"@,
            )
            &&& member(docs[1], "tags"@) matches Some(Tree::Array(second))
            &&& second.len() == 7 && second[0] == Tree::Text("dev"@) && second[2]
                == Tree::Negative(-2 as i64) && second[3] == Tree::Text("123"@) && second[6]
                == Tree::Text("a/b"@)
        },
        rule is Unpacked ==> docs.len() >= 2 && {
            &&& member(docs[0], "ok"@) == Some(Tree::Bool(true))
            &&& member(docs[1], "ok"@) == Some(Tree::Text("true"@))
            &&& member(docs[0], "count"@) == Some(Tree::Unsigned(2))
            &&& member(docs[1], "count"@) == Some(Tree::Text("2"@))
            &&& member(docs[0], "none"@) == Some(Tree::Null)
            &&& member(docs[1], "none"@) == Some(Tree::Text(""@))
            &&& member(docs[0], "empty"@) == Some(Tree::Text(""@))
            &&& member(docs[1], "empty"@) == Some(Tree::Null)
            &&& member(docs[0], "missing"@) == Some(Tree::Text(""@))
            &&& member(docs[1], "missing"@) == Some(Tree::Text(""@))
        },
        rule is RowExtrema ==> docs.len() >= 2 && {
            &&& member(docs[0], "host"@) == Some(Tree::Text("web-2"@))
            &&& member(docs[1], "host"@) == Some(Tree::Text("web-1"@))
            &&& deep(docs[0], "nested"@, "ok"@) == Some(Tree::Text("true"@))
            &&& deep(docs[1], "nested"@, "ok"@) == Some(Tree::Bool(true))
            &&& deep(docs[1], "nested"@, "none"@) == Some(Tree::Null)
        },
        rule is CopiedFlags ==> docs.len() >= 2 && member(docs[0], "copied"@) == Some(
            Tree::Bool(true),
        ) && member(docs[1], "copied"@) == Some(Tree::Text("true"@)),
        rule is CopiedNull ==> docs.len() >= 2 && member(docs[0], "copied"@) == Some(Tree::Null)
            && member(docs[1], "copied"@) == Some(Tree::Text(""@)),
        rule is MovedFlags ==> docs.len() >= 2 && member(docs[0], "moved"@) == Some(
            Tree::Bool(true),
        ) && member(docs[1], "moved"@) == Some(Tree::Text("true"@)),
        rule is MovedNull ==> docs.len() >= 2 && member(docs[0], "moved"@) == Some(Tree::Null)
            && member(docs[1], "moved"@) == Some(Tree::Text(""@)) && deep(
            docs[0],
            "nested"@,
            "none"@,
        ) is None,
{
}

/// The documents of a check are the texts of its cells, row by row and in the order of
/// the columns: each row adds the texts of its own cells.
pub proof fn documents_are_the_texts_of_the_cells(
    rows: Seq<Vec<SqlValue>>,
    row: Vec<SqlValue>,
    column: usize,
    other: usize,
)
    ensures
        regression_documents::document_texts(Seq::empty(), Documents::Column(column)) == Some(
            Seq::<Seq<char>>::empty(),
        ),
        match (
            regression_documents::document_texts(rows, Documents::Column(column)),
            regression_documents::document_texts(rows.push(row), Documents::Column(column)),
        ) {
            (Some(before), Some(after)) => column < row@.len() && row@[column as int] is Text
                && after == before.push(row@[column as int]->Text_0@),
            (None, Some(_)) => false,
            (Some(_), None) => column >= row@.len() || !(row@[column as int] is Text),
            (None, None) => true,
        },
        match (
            regression_documents::document_texts(rows, Documents::Columns(column, other)),
            regression_documents::document_texts(rows.push(row), Documents::Columns(column, other)),
        ) {
            (Some(before), Some(after)) => column < row@.len() && other < row@.len()
                && row@[column as int] is Text && row@[other as int] is Text && after
                == before.push(row@[column as int]->Text_0@).push(row@[other as int]->Text_0@),
            (None, Some(_)) => false,
            _ => true,
        },
{
    assert(rows.push(row).drop_last() =~= rows);
    assert(rows.push(row).last() == row);
    reveal_with_fuel(regression_documents::cell_texts, 4);
    let one = seq![column as int];
    assert(one.drop_last() =~= Seq::empty());
    let two = seq![column as int, other as int];
    assert(two.drop_last() =~= one);
    let first = regression_documents::cell_text(row@, column as int);
    let second = regression_documents::cell_text(row@, other as int);
    match regression_documents::document_texts(rows, Documents::Column(column)) {
        Some(before) => {
            if first is Some {
                let more = regression_documents::cell_texts(row@, one)->Some_0;
                assert(more =~= seq![first->Some_0]);
                assert(before + more =~= before.push(first->Some_0));
            }
        },
        None => {},
    }
    match regression_documents::document_texts(rows, Documents::Columns(column, other)) {
        Some(before) => {
            if first is Some && second is Some {
                let more = regression_documents::cell_texts(row@, two)->Some_0;
                assert(more =~= seq![first->Some_0, second->Some_0]);
                assert(before + more =~= before.push(first->Some_0).push(second->Some_0));
            }
        },
        None => {},
    }
}

/// Every text of the cells must be a document, and the rule judges what they hold.
pub proof fn cells_hold_documents(rows: Seq<Vec<SqlValue>>, which: Documents)
    ensures
        regression_documents::cells_held(rows, which) matches Some(held)
            ==> regression_documents::document_texts(rows, which) is Some && held.len()
            == regression_documents::document_texts(rows, which)->Some_0.len() && forall|i: int|
            0 <= i < held.len() ==> documents::document_tree(
                regression_documents::document_texts(rows, which)->Some_0[i],
            ) == Some(#[trigger] held[i]),
{
    match regression_documents::document_texts(rows, which) {
        Some(cells) => {
            match documents::document_trees(cells) {
                Some(held) => {
                    assert forall|i: int| 0 <= i < held.len() implies documents::document_tree(
                        cells[i],
                    ) == Some(#[trigger] held[i]) by {
                        assert(documents::document_tree(cells[i]) is Some);
                    }
                },
                None => {},
            }
        },
        None => {},
    }
}

/// The value of a key is that of the last pair with the key.
pub proof fn the_last_pair_counts(rows: Seq<Vec<SqlValue>>, key: Seq<char>, i: int)
    requires
        0 <= i < rows.len(),
        rows[i]@.len() == 2,
        rows[i]@[0] matches SqlValue::Text(t) && t@ == key,
        forall|j: int|
            i < j < rows.len() ==> !((#[trigger] rows[j])@.len() == 2 && (
            rows[j]@[0] matches SqlValue::Text(t) && t@ == key)),
    ensures
        regressions::keyed(rows, key) == Some(rows[i]@[1]),
{
    assert(regressions::keyed_at(rows, key, i));
    assert forall|k: int| #[trigger] regressions::keyed_at(rows, key, k) implies k == i by {
        if k < i {
            assert(regressions::is_keyed(rows[i]@, key));
        } else if k > i {
            assert(regressions::is_keyed(rows[k]@, key));
        }
    }
}

/// Accepted storage statistics add up: what is on disk and what is buffered is all, raw
/// is what is on disk, and the times are those of the two entries.
pub proof fn accepted_storage_statistics_add_up(
    rows: Seq<Vec<SqlValue>>,
    remembered: Seq<Vec<SqlValue>>,
)
    requires
        regressions::accepted(Judge::LogStats, rows, remembered),
    ensures
        ({
            let number = |key: Seq<char>| regressions::integer_under(rows, key);
            &&& number("buffered_entries"@) == Some(0int)
            &&& number("disk_entries"@) == Some(2int)
            &&& number("total_entries"@) == Some(2int)
            &&& number("compressed_blocks"@) == Some(0int)
            &&& number("compressed_bytes"@) == Some(0int)
            &&& number("ts_min"@) == Some(1_000int)
            &&& number("ts_max"@) == Some(2_000int)
            &&& number("optimize_source_entries"@) == Some(2int)
            &&& number("optimize_source_bytes"@) is Some
            &&& number("optimize_source_bytes"@)->Some_0 > 0
            &&& number("bytes_on_disk"@) is Some
            &&& number("bytes_on_disk"@) == number("raw_bytes"@)
            &&& number("blocks"@) is Some
            &&& number("blocks"@) == number("raw_blocks"@)
            &&& number("terms"@) is Some
            &&& number("terms"@)->Some_0 > 0
            &&& regressions::keyed(rows, "timestamp_unit"@) matches Some(SqlValue::Text(unit))
                && unit@ == "ms"@
        }),
{
}

/// An accepted report of a query reads as many bytes as it decodes, some, and counts two
/// entries.
pub proof fn accepted_query_reports_count_two_entries(
    rows: Seq<Vec<SqlValue>>,
    remembered: Seq<Vec<SqlValue>>,
)
    requires
        regressions::accepted(Judge::QueryStats, rows, remembered),
    ensures
        rows.len() == 1,
        rows[0]@.len() == 14,
        forall|k: int|
            #![trigger regressions::counted(rows[0]@, k)]
            (k == 0 || k == 1 || k == 2 || k == 4 || k == 5 || k == 12) ==> regressions::counted(
                rows[0]@,
                k,
            ) == Some(0nat),
        forall|k: int|
            #![trigger regressions::counted(rows[0]@, k)]
            (k == 7 || k == 8 || k == 9 || k == 11) ==> regressions::counted(rows[0]@, k) == Some(
                2nat,
            ),
        regressions::counted(rows[0]@, 10) == Some(6nat),
        regressions::counted(rows[0]@, 3) == regressions::counted(rows[0]@, 6),
        regressions::counted(rows[0]@, 3) matches Some(read) && read > 0,
        regressions::counted(rows[0]@, 13) matches Some(total) && total > 0,
{
}

/// Accepted rates are those of the fixture, but for the last place of the first.
pub proof fn accepted_rates_are_near(rows: Seq<Vec<SqlValue>>, remembered: Seq<Vec<SqlValue>>)
    requires
        regressions::accepted(Judge::Rates, rows, remembered),
    ensures
        rows.len() == 1,
        rows[0]@.len() == 2,
        rows[0]@[0] matches SqlValue::Real(rate) && (rate as int % 0x8000_0000_0000_0000
            > 0x7ff0_0000_0000_0000 || (0x3fff_f7d0_f16c_2e09 <= rate <= 0x3fff_f7d0_f16c_2e0b)),
        rows[0]@[1] matches SqlValue::Real(sum) && (sum as int % 0x8000_0000_0000_0000
            > 0x7ff0_0000_0000_0000 || sum == 0x402f_f7d0_f16c_2e0a),
{
}

/// Accepted counts are counts, accepted reals are finite, and an accepted null is null.
pub proof fn accepted_rows_are_counted(
    rows: Seq<Vec<SqlValue>>,
    remembered: Seq<Vec<SqlValue>>,
    n: usize,
)
    ensures
        regressions::accepted(Judge::Count(n), rows, remembered) <==> rows.len() == n,
        regressions::accepted(Judge::Remember(n), rows, remembered) <==> rows.len() == n,
        regressions::accepted(Judge::Finite(n), rows, remembered) ==> rows.len() == n && forall|
            i: int,
        |
            0 <= i < rows.len() ==> is_finite_row((#[trigger] rows[i])@),
        regressions::accepted(Judge::FirstNull, rows, remembered) <==> rows.len() > 0
            && rows[0]@.len() > 0 && rows[0]@[0] is Null,
        regressions::accepted(Judge::PairOfTexts, rows, remembered) <==> rows.len() == 1
            && rows[0]@.len() == 2 && rows[0]@[0] is Text && rows[0]@[1] is Text,
{
    if regressions::accepted(Judge::Finite(n), rows, remembered) {
        assert forall|i: int| 0 <= i < rows.len() implies is_finite_row((#[trigger] rows[i])@) by {
            assert(regressions::finite_row(rows[i]@));
        }
    }
}

/// The first cell of a row is a real that is a number and not infinite.
pub open spec fn is_finite_row(values: Seq<SqlValue>) -> bool {
    &&& values.len() > 0
    &&& values[0] matches SqlValue::Real(bits)
    &&& bits as int % 0x8000_0000_0000_0000 < 0x7ff0_0000_0000_0000
}

/// The first cell of a row is one of three texts.
pub open spec fn names(values: Seq<SqlValue>, a: Seq<char>, b: Seq<char>, c: Seq<char>) -> bool {
    &&& values.len() > 0
    &&& values[0] matches SqlValue::Text(t)
    &&& t@ == a || t@ == b || t@ == c
}

/// Accepted facets are sixteen rows and name no constant field; the short ones are six
/// and name nothing else than three fields.
pub proof fn accepted_facets_name_their_fields(
    rows: Seq<Vec<SqlValue>>,
    remembered: Seq<Vec<SqlValue>>,
    i: int,
)
    requires
        0 <= i < rows.len(),
    ensures
        regressions::accepted(Judge::Facets, rows, remembered) ==> rows.len() == 16 && !names(
            rows[i]@,
            "service"@,
            "nested.ok"@,
            "nested.count"@,
        ),
        regressions::accepted(Judge::ShortFacets, rows, remembered) ==> rows.len() == 6 && names(
            rows[i]@,
            "duration_ms"@,
            "host"@,
            "level"@,
        ),
{
    if regressions::accepted(Judge::Facets, rows, remembered) {
        assert(regressions::names_one_of(rows[i]@, "service"@, "nested.ok"@, "nested.count"@)
            == false);
    }
    if regressions::accepted(Judge::ShortFacets, rows, remembered) {
        assert(regressions::names_one_of(rows[i]@, "duration_ms"@, "host"@, "level"@) == true);
    }
}

/// A bound parameter has the value of the first pair with its name; one without a pair
/// has the value of the recipe.
pub proof fn parameters_are_bound(
    list: Seq<(&'static str, Literal)>,
    identifier: Seq<char>,
    name: Seq<char>,
    i: int,
)
    requires
        0 <= i <= list.len(),
        forall|j: int| 0 <= j < i ==> (#[trigger] list[j]).0@ != name,
        i < list.len() ==> list[i].0@ == name,
    ensures
        regressions::bound(list, identifier, name) == (if i < list.len() {
            list[i].1
        } else {
            parameters::parameter_value(identifier, name)
        }),
    decreases list.len(),
{
    if list.len() > 0 && i > 0 {
        assert(list[0].0@ != name);
        let rest = list.drop_first();
        assert forall|j: int| 0 <= j < i - 1 implies (#[trigger] rest[j]).0@ != name by {
            assert(list[j + 1].0@ != name);
        }
        parameters_are_bound(rest, identifier, name, i - 1);
    }
}

} // verus!
