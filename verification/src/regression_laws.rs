//! What holds of every result that a regression check accepts.
use crate::regression_tables::{self, Table};
use crate::regressions::{self, Judge};
use crate::text;
use crate::values::{self, Literal, Row, SqlValue};
use vstd::prelude::*;

verus! {

/// A cell shows a literal: null, the number, the text, or the bits of the real, where
/// the two zeros are one.
pub open spec fn shows(cell: SqlValue, literal: Literal) -> bool {
    match literal {
        Literal::Null => cell is Null,
        Literal::Integer(n) => cell == SqlValue::Integer(n),
        Literal::Text(t) => cell is Text && cell->Text_0@ == t@,
        Literal::Real(b) => cell is Real && b % 0x8000_0000_0000_0000 <= 0x7ff0_0000_0000_0000 && (
        cell->Real_0 == b || cell->Real_0 % 0x8000_0000_0000_0000 == 0 && b % 0x8000_0000_0000_0000
            == 0),
    }
}

/// Two cells show the same: they are of one kind and hold the same.
pub open spec fn alike(a: SqlValue, b: SqlValue) -> bool {
    match (a, b) {
        (SqlValue::Null, SqlValue::Null) => true,
        (SqlValue::Integer(x), SqlValue::Integer(y)) => x == y,
        (SqlValue::Real(x), SqlValue::Real(y)) => x == y || x % 0x8000_0000_0000_0000 == 0 && y
            % 0x8000_0000_0000_0000 == 0,
        (SqlValue::Text(x), SqlValue::Text(y)) => x@ == y@,
        (SqlValue::Blob(x), SqlValue::Blob(y)) => x@ == y@,
        _ => false,
    }
}

/// Two results show the same, row by row and cell by cell.
pub open spec fn results_alike(a: Seq<Vec<SqlValue>>, b: Seq<Vec<SqlValue>>) -> bool {
    &&& a.len() == b.len()
    &&& forall|i: int| 0 <= i < a.len() ==> (#[trigger] a[i])@.len() == b[i]@.len()
    &&& forall|i: int, j: int|
        0 <= i < a.len() && 0 <= j < a[i]@.len() ==> alike(#[trigger] a[i]@[j], b[i]@[j])
}

/// The literals of a written row, from the left.
pub open spec fn literal_at(row: Row, j: int) -> Option<Literal> {
    match row {
        Row::One(a) => if j == 0 {
            Some(a)
        } else {
            None
        },
        Row::Two(a, b) => if j == 0 {
            Some(a)
        } else if j == 1 {
            Some(b)
        } else {
            None
        },
        Row::Three(a, b, c) => if j == 0 {
            Some(a)
        } else if j == 1 {
            Some(b)
        } else if j == 2 {
            Some(c)
        } else {
            None
        },
        Row::Four(a, b, c, d) => if j == 0 {
            Some(a)
        } else if j == 1 {
            Some(b)
        } else if j == 2 {
            Some(c)
        } else if j == 3 {
            Some(d)
        } else {
            None
        },
        Row::Five(a, b, c, d, e) => if j == 0 {
            Some(a)
        } else if j == 1 {
            Some(b)
        } else if j == 2 {
            Some(c)
        } else if j == 3 {
            Some(d)
        } else if j == 4 {
            Some(e)
        } else {
            None
        },
    }
}

/// A value is a literal exactly if it shows it.
pub proof fn literals_are_shown(value: SqlValue, literal: Literal)
    ensures
        values::value_is(value, literal) <==> shows(value, literal),
{
}

/// A row shows a written row: as many cells, each with its literal.
pub open spec fn row_shows(values: Seq<SqlValue>, row: Row) -> bool {
    &&& forall|j: int| 0 <= j < values.len() ==> literal_at(row, j) is Some && shows(#[trigger] values[j], literal_at(row, j)->Some_0)
    &&& literal_at(row, values.len() as int) is None
}

/// A row is the written one exactly if every cell shows its literal.
pub proof fn rows_are_shown(values: Seq<SqlValue>, row: Row)
    ensures
        values::row_is(values, values::cells(row)) <==> row_shows(values, row),
{
    let cells = values::cells(row);
    assert forall|j: int| 0 <= j < cells.len() implies literal_at(row, j) == Some(#[trigger] cells[j]) by {}
    assert(literal_at(row, cells.len() as int) is None);
    assert(forall|j: int| j >= cells.len() ==> literal_at(row, j) is None);
    if row_shows(values, row) {
        if values.len() > cells.len() {
            assert(shows(values[cells.len() as int], literal_at(row, cells.len() as int)->Some_0));
        }
        if values.len() < cells.len() {
            assert(literal_at(row, values.len() as int) == Some(cells[values.len() as int]));
        }
        assert forall|i: int| 0 <= i < values.len() implies values::value_is(#[trigger] values[i], cells[i]) by {
            assert(literal_at(row, i) == Some(cells[i]));
        }
    }
    if values::row_is(values, cells) {
        assert forall|j: int| 0 <= j < values.len() implies literal_at(row, j) is Some && shows(
            #[trigger] values[j],
            literal_at(row, j)->Some_0,
        ) by {
            assert(values::value_is(values[j], cells[j]));
        }
    }
}

/// A row shows row `i` of a table.
pub open spec fn shows_place(table: Table, i: int, values: Seq<SqlValue>) -> bool {
    match regression_tables::row_of(table, i) {
        Some(row) => row_shows(values, row),
        None => false,
    }
}

/// Rows are accepted against a table exactly if there are as many as the table has,
/// and every cell of every row shows the table's literal in that place.
pub proof fn accepted_rows_show_the_table(
    table: Table,
    rows: Seq<Vec<SqlValue>>,
    remembered: Seq<Vec<SqlValue>>,
)
    ensures
        regressions::accepted(Judge::Table(table), rows, remembered) <==> {
            &&& regression_tables::row_of(table, rows.len() as int) is None
            &&& forall|i: int| 0 <= i < rows.len() ==> shows_place(table, i, (#[trigger] rows[i])@)
        },
{
    assert forall|i: int| 0 <= i < rows.len() implies (regressions::written(
        (#[trigger] rows[i])@,
        regression_tables::row_of(table, i),
    ) <==> shows_place(table, i, rows[i]@)) by {
        match regression_tables::row_of(table, i) {
            Some(row) => rows_are_shown(rows[i]@, row),
            None => {},
        }
    }
    if regressions::accepted(Judge::Table(table), rows, remembered) {
        assert forall|i: int| 0 <= i < rows.len() implies shows_place(table, i, (#[trigger] rows[i])@) by {
            assert(regressions::written(rows[i]@, regression_tables::row_of(table, i)));
        }
    }
    if forall|i: int| 0 <= i < rows.len() ==> shows_place(table, i, (#[trigger] rows[i])@) {
        assert forall|i: int| 0 <= i < rows.len() implies regressions::written(
            (#[trigger] rows[i])@,
            regression_tables::row_of(table, i),
        ) by {
            assert(shows_place(table, i, rows[i]@));
        }
    }
}

proof fn shown_length(values: Seq<SqlValue>, row: Row)
    requires
        row_shows(values, row),
    ensures
        values.len() == values::cells(row).len(),
{
    rows_are_shown(values, row);
}

proof fn shown_rows_are_alike(a: Seq<SqlValue>, b: Seq<SqlValue>, row: Row)
    requires
        row_shows(a, row),
        row_shows(b, row),
    ensures
        a.len() == b.len(),
        forall|j: int| 0 <= j < a.len() ==> alike(#[trigger] a[j], b[j]),
{
    shown_length(a, row);
    shown_length(b, row);
    assert forall|j: int| 0 <= j < a.len() implies alike(#[trigger] a[j], b[j]) by {
        assert(shows(b[j], literal_at(row, j)->Some_0));
    }
}

/// Two results that one table accepts are alike in every cell.
pub proof fn accepted_results_are_alike(
    table: Table,
    a: Seq<Vec<SqlValue>>,
    b: Seq<Vec<SqlValue>>,
    before: Seq<Vec<SqlValue>>,
    after: Seq<Vec<SqlValue>>,
)
    requires
        regressions::accepted(Judge::Table(table), a, before),
        regressions::accepted(Judge::Table(table), b, after),
    ensures
        results_alike(a, b),
{
    accepted_rows_show_the_table(table, a, before);
    accepted_rows_show_the_table(table, b, after);
    let m = a.len() as int;
    let n = b.len() as int;
    if m < n {
        let row = b[m];
        assert(shows_place(table, m, row@));
    }
    if n < m {
        let row = a[n];
        assert(shows_place(table, n, row@));
    }
    assert forall|i: int| 0 <= i < a.len() implies (#[trigger] a[i])@.len() == b[i]@.len() && forall|j: int|
        0 <= j < a[i]@.len() ==> alike(#[trigger] a[i]@[j], b[i]@[j]) by {
        let row = regression_tables::row_of(table, i)->Some_0;
        assert(shows_place(table, i, a[i]@) && shows_place(table, i, b[i]@));
        shown_rows_are_alike(a[i]@, b[i]@, row);
    }
}

/// A result that differs from an accepted one in one cell is refused.
pub proof fn another_cell_is_refused(
    table: Table,
    a: Seq<Vec<SqlValue>>,
    b: Seq<Vec<SqlValue>>,
    before: Seq<Vec<SqlValue>>,
    after: Seq<Vec<SqlValue>>,
    i: int,
    j: int,
)
    requires
        regressions::accepted(Judge::Table(table), a, before),
        0 <= i < a.len(),
        i < b.len(),
        0 <= j < a[i]@.len(),
        j < b[i]@.len(),
        !alike(a[i]@[j], b[i]@[j]),
    ensures
        !regressions::accepted(Judge::Table(table), b, after),
{
    if regressions::accepted(Judge::Table(table), b, after) {
        accepted_results_are_alike(table, a, b, before, after);
        assert(alike(a[i]@[j], b[i]@[j]));
    }
}

/// Where the bits of reals are compared, every first cell is a real with exactly the
/// bits in the table.
pub proof fn accepted_bits_are_the_bits(
    table: Table,
    rows: Seq<Vec<SqlValue>>,
    remembered: Seq<Vec<SqlValue>>,
)
    ensures
        regressions::accepted(Judge::Bits(table), rows, remembered) <==> {
            &&& regression_tables::row_of(table, rows.len() as int) is None
            &&& forall|i: int|
                0 <= i < rows.len() ==> (#[trigger] rows[i])@.len() > 0 && rows[i]@[0] is Real && (
                regression_tables::row_of(table, i) matches Some(row) && literal_at(row, 0) == Some(
                    Literal::Real(rows[i]@[0]->Real_0),
                ))
        },
        rows.len() > 0 ==> (regressions::accepted(Judge::FirstBits(table), rows, remembered) <==> (
        rows[0]@.len() > 0 && rows[0]@[0] is Real && (regression_tables::row_of(table, 0) matches Some(
            row,
        ) && literal_at(row, 0) == Some(Literal::Real(rows[0]@[0]->Real_0))))),
{
    assert forall|i: int| 0 <= i < rows.len() implies (regressions::first_bits_are(
        (#[trigger] rows[i])@,
        regression_tables::row_of(table, i),
    ) <==> rows[i]@.len() > 0 && rows[i]@[0] is Real && (regression_tables::row_of(table, i) matches Some(
        row,
    ) && literal_at(row, 0) == Some(Literal::Real(rows[i]@[0]->Real_0)))) by {}
}

/// Where one column is compared, every row shows in it the first literal of the
/// table's row; the first cells are column zero.
pub proof fn accepted_columns_show_the_table(
    column: usize,
    table: Table,
    rows: Seq<Vec<SqlValue>>,
    remembered: Seq<Vec<SqlValue>>,
)
    ensures
        regressions::accepted(Judge::Column(column, table), rows, remembered) <==> {
            &&& regression_tables::row_of(table, rows.len() as int) is None
            &&& forall|i: int|
                0 <= i < rows.len() ==> column < (#[trigger] rows[i])@.len() && (
                regression_tables::row_of(table, i) matches Some(row) && shows(
                    rows[i]@[column as int],
                    literal_at(row, 0)->Some_0,
                ))
        },
        regressions::accepted(Judge::FirstCells(table), rows, remembered) == regressions::accepted(
            Judge::Column(0, table),
            rows,
            remembered,
        ),
        regressions::accepted(Judge::FirstAt(column, table), rows, remembered) <==> rows.len() > 0
            && column < rows[0]@.len() && (regression_tables::row_of(table, 0) matches Some(row)
            && shows(rows[0]@[column as int], literal_at(row, 0)->Some_0)),
{
    assert forall|i: int| 0 <= i < rows.len() implies (regressions::cell_is(
        (#[trigger] rows[i])@,
        column as int,
        regression_tables::row_of(table, i),
    ) <==> column < rows[i]@.len() && (regression_tables::row_of(table, i) matches Some(row) && shows(
        rows[i]@[column as int],
        literal_at(row, 0)->Some_0,
    ))) by {}
}

/// A first row, the rows that a table holds, and the rows that were remembered are
/// compared in every cell; a number of rows is just that number.
pub proof fn accepted_rows_are_compared(
    table: Table,
    n: usize,
    rows: Seq<Vec<SqlValue>>,
    remembered: Seq<Vec<SqlValue>>,
)
    ensures
        regressions::accepted(Judge::FirstRow(table), rows, remembered) <==> rows.len() > 0 && (
        regression_tables::row_of(table, 0) matches Some(row) && row_shows(rows[0]@, row)),
        regressions::accepted(Judge::Remembered, rows, remembered) ==> results_alike(
            rows,
            remembered,
        ),
        regressions::accepted(Judge::Count(n), rows, remembered) <==> rows.len() == n,
        regressions::accepted(Judge::Remember(n), rows, remembered) <==> rows.len() == n,
        regressions::accepted(Judge::Any, rows, remembered),
        regressions::accepted(Judge::Finite(n), rows, remembered) ==> rows.len() == n && forall|i: int|
            0 <= i < rows.len() ==> (#[trigger] rows[i])@.len() > 0 && (rows[i]@[0] matches SqlValue::Real(
                bits,
            ) && bits % 0x8000_0000_0000_0000 < 0x7ff0_0000_0000_0000),
        regressions::accepted(Judge::FirstNull, rows, remembered) ==> rows[0]@[0] is Null,
{
    match regression_tables::row_of(table, 0) {
        Some(row) => if rows.len() > 0 {
            rows_are_shown(rows[0]@, row);
        },
        None => {},
    }
    if regressions::accepted(Judge::Remembered, rows, remembered) {
        assert forall|i: int| 0 <= i < rows.len() implies (#[trigger] rows[i])@.len() == remembered[i]@.len() && forall|j: int|
            0 <= j < rows[i]@.len() ==> alike(#[trigger] rows[i]@[j], remembered[i]@[j]) by {
            assert(values::equal_row(rows[i]@, remembered[i]@));
        }
    }
    if regressions::accepted(Judge::Finite(n), rows, remembered) {
        assert forall|i: int| 0 <= i < rows.len() implies (#[trigger] rows[i])@.len() > 0 && (rows[i]@[0] matches SqlValue::Real(
                bits,
            ) && bits % 0x8000_0000_0000_0000 < 0x7ff0_0000_0000_0000) by {
            assert(regressions::finite_row(rows[i]@));
        }
    }
}

/// Each of the first three rows of a table that a result holds is shown by a row of
/// the result.
pub proof fn held_rows_are_shown(
    table: Table,
    rows: Seq<Vec<SqlValue>>,
    remembered: Seq<Vec<SqlValue>>,
    i: int,
)
    requires
        regressions::accepted(Judge::Holds(table), rows, remembered),
        0 <= i < 3,
        regression_tables::row_of(table, i) is Some,
    ensures
        exists|k: int|
            0 <= k < rows.len() && row_shows(
                (#[trigger] rows[k])@,
                regression_tables::row_of(table, i)->Some_0,
            ),
{
    let row = regression_tables::row_of(table, i)->Some_0;
    assert(regressions::among(rows, row));
    let k = choose|k: int| 0 <= k < rows.len() && values::row_is((#[trigger] rows[k])@, values::cells(row));
    rows_are_shown(rows[k]@, row);
}

/// Remembered rows without a real that is not a number are accepted again.
pub proof fn equal_rows_are_accepted(rows: Seq<Vec<SqlValue>>, remembered: Seq<Vec<SqlValue>>)
    requires
        results_alike(rows, remembered),
        forall|i: int, j: int|
            0 <= i < rows.len() && 0 <= j < rows[i]@.len() ==> (#[trigger] rows[i]@[j] matches SqlValue::Real(
                b,
            ) ==> b % 0x8000_0000_0000_0000 <= 0x7ff0_0000_0000_0000),
    ensures
        regressions::accepted(Judge::Remembered, rows, remembered),
{
    assert forall|i: int| 0 <= i < rows.len() implies values::equal_row((#[trigger] rows[i])@, remembered[i]@) by {
        assert forall|j: int| 0 <= j < rows[i]@.len() implies values::equal_values(#[trigger] rows[i]@[j], remembered[i]@[j]) by {
            assert(alike(rows[i]@[j], remembered[i]@[j]));
        }
    }
}

/// A judgement that leaves out the fourth of five cells compares the other four.
pub proof fn the_fourth_cell_is_free(
    table: Table,
    rows: Seq<Vec<SqlValue>>,
    remembered: Seq<Vec<SqlValue>>,
)
    ensures
        regressions::accepted(Judge::ExceptFourth(table), rows, remembered) <==> rows.len() == 1
            && rows[0]@.len() == 5 && (regression_tables::row_of(table, 0) matches Some(row)
            && literal_at(row, 4) is Some && forall|j: int|
            0 <= j < 5 && j != 3 ==> shows(#[trigger] rows[0]@[j], literal_at(row, j)->Some_0)),
{
    match regression_tables::row_of(table, 0) {
        Some(row) => if rows.len() == 1 && rows[0]@.len() == 5 {
            if literal_at(row, 4) is Some {
                assert(values::cells(row).len() == 5);
                assert forall|j: int| 0 <= j < 5 implies literal_at(row, j) == Some(#[trigger] values::cells(row)[j]) by {}
                if regressions::accepted(Judge::ExceptFourth(table), rows, remembered) {
                    assert forall|j: int| 0 <= j < 5 && j != 3 implies shows(#[trigger] rows[0]@[j], literal_at(row, j)->Some_0) by {
                        assert(j == 0 || j == 1 || j == 2 || j == 4);
                    }
                }
                if forall|j: int| 0 <= j < 5 && j != 3 ==> shows(#[trigger] rows[0]@[j], literal_at(row, j)->Some_0) {
                    assert(shows(rows[0]@[0], literal_at(row, 0)->Some_0));
                    assert(shows(rows[0]@[1], literal_at(row, 1)->Some_0));
                    assert(shows(rows[0]@[2], literal_at(row, 2)->Some_0));
                    assert(shows(rows[0]@[4], literal_at(row, 4)->Some_0));
                }
            }
        },
        None => {},
    }
}

/// The cells that frame formatted arrays begin and end as they must.
pub proof fn formatted_cells_are_framed(values: Seq<SqlValue>, start: Seq<char>, end: Seq<char>)
    ensures
        regressions::framed_by(values, start, end) <==> values.len() > 0 && (values[0] matches SqlValue::Text(
            t,
        ) && start.is_prefix_of(t@) && end.is_suffix_of(t@)),
{
    if values.len() > 0 && values[0] is Text {
        let t = values[0]->Text_0@;
        if start.len() <= t.len() {
            assert(start.is_prefix_of(t) <==> start == t.subrange(0, start.len() as int));
        }
        if end.len() <= t.len() {
            assert(end.is_suffix_of(t) <==> end == t.subrange(t.len() - end.len(), t.len() as int));
        }
    }
}

} // verus!
