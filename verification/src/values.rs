//! SQL values: what a statement is bound to and what a row holds.
use crate::ieee::{self, real_eq};
use crate::text::same_text;
use vstd::prelude::*;

verus! {

/// A value written down in the library. Reals are bit patterns.
#[derive(Clone, Copy, Debug, PartialEq, Eq)]
pub enum Literal {
    Null,
    Integer(i64),
    Real(u64),
    Text(&'static str),
}

/// A value of a result row.
#[derive(Debug)]
pub enum SqlValue {
    Null,
    Integer(i64),
    Real(u64),
    Text(String),
    Blob(Vec<u8>),
}

/// The value is the literal; reals are compared as floats.
pub open spec fn value_is(value: SqlValue, literal: Literal) -> bool {
    match (value, literal) {
        (SqlValue::Null, Literal::Null) => true,
        (SqlValue::Integer(a), Literal::Integer(b)) => a == b,
        (SqlValue::Real(a), Literal::Real(b)) => ieee::equal_reals(a, b),
        (SqlValue::Text(a), Literal::Text(b)) => a@ == b@,
        _ => false,
    }
}

/// Whether a value is the literal.
pub fn is_literal(value: &SqlValue, literal: Literal) -> (yes: bool)
    ensures
        yes == value_is(*value, literal),
{
    match (value, literal) {
        (SqlValue::Null, Literal::Null) => true,
        (SqlValue::Integer(a), Literal::Integer(b)) => *a == b,
        (SqlValue::Real(a), Literal::Real(b)) => real_eq(*a, b),
        (SqlValue::Text(a), Literal::Text(b)) => same_text(a, b),
        _ => false,
    }
}

/// A row is the list of literals.
pub open spec fn row_is(row: Seq<SqlValue>, literals: Seq<Literal>) -> bool {
    &&& row.len() == literals.len()
    &&& forall|i: int| 0 <= i < row.len() ==> value_is(#[trigger] row[i], literals[i])
}

/// Whether a row is the list of literals.
pub fn is_row(row: &Vec<SqlValue>, literals: &[Literal]) -> (yes: bool)
    ensures
        yes == row_is(row@, literals@),
{
    if row.len() != literals.len() {
        return false;
    }
    let mut i: usize = 0;
    while i < row.len()
        invariant
            row@.len() == literals@.len(),
            i <= row@.len(),
            forall|k: int| 0 <= k < i ==> value_is(#[trigger] row@[k], literals@[k]),
        decreases row.len() - i,
    {
        if !is_literal(&row[i], literals[i]) {
            return false;
        }
        i += 1;
    }
    true
}

/// A row written down in the library.
#[derive(Clone, Copy, Debug, PartialEq, Eq)]
pub enum Row {
    One(Literal),
    Two(Literal, Literal),
    Three(Literal, Literal, Literal),
    Four(Literal, Literal, Literal, Literal),
    Five(Literal, Literal, Literal, Literal, Literal),
}

/// The cells of a row.
pub open spec fn cells(row: Row) -> Seq<Literal> {
    match row {
        Row::One(a) => seq![a],
        Row::Two(a, b) => seq![a, b],
        Row::Three(a, b, c) => seq![a, b, c],
        Row::Four(a, b, c, d) => seq![a, b, c, d],
        Row::Five(a, b, c, d, e) => seq![a, b, c, d, e],
    }
}

/// Whether a result row is the written row.
pub fn matches_row(values: &Vec<SqlValue>, row: Row) -> (yes: bool)
    ensures
        yes == row_is(values@, cells(row)),
{
    match row {
        Row::One(a) => {
            let literals: [Literal; 1] = [a];
            assert(literals@ =~= cells(row));
            is_row(values, &literals)
        },
        Row::Two(a, b) => {
            let literals: [Literal; 2] = [a, b];
            assert(literals@ =~= cells(row));
            is_row(values, &literals)
        },
        Row::Three(a, b, c) => {
            let literals: [Literal; 3] = [a, b, c];
            assert(literals@ =~= cells(row));
            is_row(values, &literals)
        },
        Row::Four(a, b, c, d) => {
            let literals: [Literal; 4] = [a, b, c, d];
            assert(literals@ =~= cells(row));
            is_row(values, &literals)
        },
        Row::Five(a, b, c, d, e) => {
            let literals: [Literal; 5] = [a, b, c, d, e];
            assert(literals@ =~= cells(row));
            is_row(values, &literals)
        },
    }
}

/// The first cell of a row.
pub open spec fn first_cell(row: Row) -> Literal {
    cells(row)[0]
}

/// The first cell of a row.
pub fn head(row: Row) -> (cell: Literal)
    ensures
        cell == first_cell(row),
{
    match row {
        Row::One(a) => a,
        Row::Two(a, _) => a,
        Row::Three(a, _, _) => a,
        Row::Four(a, _, _, _) => a,
        Row::Five(a, _, _, _, _) => a,
    }
}

/// The value is a real with exactly the bits of the literal.
pub open spec fn bits_are(value: SqlValue, literal: Literal) -> bool {
    value matches SqlValue::Real(a) && literal matches Literal::Real(b) && a == b
}

/// Whether a value is a real with exactly the bits of the literal.
pub fn has_bits(value: &SqlValue, literal: Literal) -> (yes: bool)
    ensures
        yes == bits_are(*value, literal),
{
    match (value, literal) {
        (SqlValue::Real(a), Literal::Real(b)) => *a == b,
        _ => false,
    }
}

/// The value is the text.
pub open spec fn text_value(value: SqlValue, text: Seq<char>) -> bool {
    value matches SqlValue::Text(t) && t@ == text
}

/// Whether a value is the text.
pub fn value_text_is(value: &SqlValue, text: &str) -> (yes: bool)
    ensures
        yes == text_value(*value, text@),
{
    match value {
        SqlValue::Text(t) => same_text(t, text),
        _ => false,
    }
}

/// Two values are equal; reals are compared as floats.
pub open spec fn equal_values(a: SqlValue, b: SqlValue) -> bool {
    match (a, b) {
        (SqlValue::Null, SqlValue::Null) => true,
        (SqlValue::Integer(x), SqlValue::Integer(y)) => x == y,
        (SqlValue::Real(x), SqlValue::Real(y)) => ieee::equal_reals(x, y),
        (SqlValue::Text(x), SqlValue::Text(y)) => x@ == y@,
        (SqlValue::Blob(x), SqlValue::Blob(y)) => x@ == y@,
        _ => false,
    }
}

/// Whether two byte strings are equal.
pub fn same_bytes(a: &[u8], b: &[u8]) -> (same: bool)
    ensures
        same == (a@ == b@),
{
    if a.len() != b.len() {
        return false;
    }
    let mut i: usize = 0;
    while i < a.len()
        invariant
            a@.len() == b@.len(),
            i <= a@.len(),
            forall|k: int| 0 <= k < i ==> a@[k] == b@[k],
        decreases a.len() - i,
    {
        if a[i] != b[i] {
            return false;
        }
        i += 1;
    }
    assert(a@ =~= b@);
    true
}

/// Whether two values are equal.
pub fn same_value(a: &SqlValue, b: &SqlValue) -> (same: bool)
    ensures
        same == equal_values(*a, *b),
{
    match (a, b) {
        (SqlValue::Null, SqlValue::Null) => true,
        (SqlValue::Integer(x), SqlValue::Integer(y)) => *x == *y,
        (SqlValue::Real(x), SqlValue::Real(y)) => real_eq(*x, *y),
        (SqlValue::Text(x), SqlValue::Text(y)) => same_text(x, y),
        (SqlValue::Blob(x), SqlValue::Blob(y)) => same_bytes(x, y),
        _ => false,
    }
}

/// Two lists of rows are equal cell by cell.
pub open spec fn equal_rows(a: Seq<Vec<SqlValue>>, b: Seq<Vec<SqlValue>>) -> bool {
    &&& a.len() == b.len()
    &&& forall|i: int| 0 <= i < a.len() ==> equal_row((#[trigger] a[i])@, b[i]@)
}

/// Two rows are equal cell by cell.
pub open spec fn equal_row(a: Seq<SqlValue>, b: Seq<SqlValue>) -> bool {
    &&& a.len() == b.len()
    &&& forall|i: int| 0 <= i < a.len() ==> equal_values(#[trigger] a[i], b[i])
}

/// Whether two rows are equal cell by cell.
pub fn same_row(a: &Vec<SqlValue>, b: &Vec<SqlValue>) -> (same: bool)
    ensures
        same == equal_row(a@, b@),
{
    if a.len() != b.len() {
        return false;
    }
    let mut i: usize = 0;
    while i < a.len()
        invariant
            a@.len() == b@.len(),
            i <= a@.len(),
            forall|k: int| 0 <= k < i ==> equal_values(#[trigger] a@[k], b@[k]),
        decreases a.len() - i,
    {
        if !same_value(&a[i], &b[i]) {
            return false;
        }
        i += 1;
    }
    true
}

/// Whether two lists of rows are equal cell by cell.
pub fn same_rows(a: &Vec<Vec<SqlValue>>, b: &Vec<Vec<SqlValue>>) -> (same: bool)
    ensures
        same == equal_rows(a@, b@),
{
    if a.len() != b.len() {
        return false;
    }
    let mut i: usize = 0;
    while i < a.len()
        invariant
            a@.len() == b@.len(),
            i <= a@.len(),
            forall|k: int| 0 <= k < i ==> equal_row((#[trigger] a@[k])@, b@[k]@),
        decreases a.len() - i,
    {
        if !same_row(&a[i], &b[i]) {
            return false;
        }
        i += 1;
    }
    true
}

} // verus!
