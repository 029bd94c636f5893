//! The semantic regressions of the documented recipes: what is executed, and
//! when a result is accepted.
use crate::ieee::{self, finite_bits, nan_bits};
use crate::parameters::{self, parameter};
use crate::regression_tables::{self, table_row, Table};
use crate::text::{self, contains_text, ends_with, parse_u64, same_text, starts_with};
use crate::values::{
    self, has_bits, head, is_literal, matches_row, same_rows, value_text_is, Literal, Row, SqlValue,
};
use vstd::prelude::*;

verus! {

/// Where the SQL of a check comes from.
#[derive(Clone, Copy, Debug, PartialEq, Eq)]
pub enum Source {
    /// The text itself.
    Sql(&'static str),
    /// A fenced block of a recipe.
    Block(&'static str, usize),
    /// A statement of a recipe, counted over all its blocks.
    Statement(&'static str, usize),
}

/// Parameters that a check binds to values of its own.
#[derive(Clone, Copy, Debug, PartialEq, Eq)]
pub enum Bind {
    Nothing,
    One((&'static str, Literal)),
    Two((&'static str, Literal), (&'static str, Literal)),
    Three((&'static str, Literal), (&'static str, Literal), (&'static str, Literal)),
    Four(
        (&'static str, Literal),
        (&'static str, Literal),
        (&'static str, Literal),
        (&'static str, Literal),
    ),
    Five(
        (&'static str, Literal),
        (&'static str, Literal),
        (&'static str, Literal),
        (&'static str, Literal),
        (&'static str, Literal),
    ),
    Six(
        (&'static str, Literal),
        (&'static str, Literal),
        (&'static str, Literal),
        (&'static str, Literal),
        (&'static str, Literal),
        (&'static str, Literal),
    ),
    Seven(
        (&'static str, Literal),
        (&'static str, Literal),
        (&'static str, Literal),
        (&'static str, Literal),
        (&'static str, Literal),
        (&'static str, Literal),
        (&'static str, Literal),
    ),
}

/// The pairs of a binding, in order.
pub open spec fn pairs(bind: Bind) -> Seq<(&'static str, Literal)> {
    match bind {
        Bind::Nothing => Seq::empty(),
        Bind::One(a) => seq![a],
        Bind::Two(a, b) => seq![a, b],
        Bind::Three(a, b, c) => seq![a, b, c],
        Bind::Four(a, b, c, d) => seq![a, b, c, d],
        Bind::Five(a, b, c, d, e) => seq![a, b, c, d, e],
        Bind::Six(a, b, c, d, e, f) => seq![a, b, c, d, e, f],
        Bind::Seven(a, b, c, d, e, f, g) => seq![a, b, c, d, e, f, g],
    }
}

/// The value of a parameter: that of the first pair with its name, else that of
/// the recipe.
pub open spec fn bound(
    list: Seq<(&'static str, Literal)>,
    identifier: Seq<char>,
    name: Seq<char>,
) -> Literal
    decreases list.len(),
{
    if list.len() == 0 {
        parameters::parameter_value(identifier, name)
    } else if list[0].0@ == name {
        list[0].1
    } else {
        bound(list.drop_first(), identifier, name)
    }
}

fn bound_among(list: &[(&'static str, Literal)], identifier: &str, name: &str) -> (value: Literal)
    ensures
        value == bound(list@, identifier@, name@),
{
    let mut i: usize = 0;
    assert(list@.skip(0) =~= list@);
    while i < list.len()
        invariant
            i <= list@.len(),
            bound(list@, identifier@, name@) == bound(list@.skip(i as int), identifier@, name@),
        decreases list.len() - i,
    {
        let pair: (&'static str, Literal) = list[i];
        assert(list@.skip(i as int).drop_first() =~= list@.skip(i + 1));
        if same_text(pair.0, name) {
            return pair.1;
        }
        i += 1;
    }
    parameter(identifier, name)
}

/// The value that a parameter of a check is bound to.
pub fn bound_parameter(bind: Bind, identifier: &str, name: &str) -> (value: Literal)
    ensures
        value == bound(pairs(bind), identifier@, name@),
{
    match bind {
        Bind::Nothing => {
            let list: [(&'static str, Literal); 0] = [];
            assert(list@ =~= pairs(bind));
            bound_among(&list, identifier, name)
        },
        Bind::One(a) => {
            let list: [(&'static str, Literal); 1] = [a];
            assert(list@ =~= pairs(bind));
            bound_among(&list, identifier, name)
        },
        Bind::Two(a, b) => {
            let list: [(&'static str, Literal); 2] = [a, b];
            assert(list@ =~= pairs(bind));
            bound_among(&list, identifier, name)
        },
        Bind::Three(a, b, c) => {
            let list: [(&'static str, Literal); 3] = [a, b, c];
            assert(list@ =~= pairs(bind));
            bound_among(&list, identifier, name)
        },
        Bind::Four(a, b, c, d) => {
            let list: [(&'static str, Literal); 4] = [a, b, c, d];
            assert(list@ =~= pairs(bind));
            bound_among(&list, identifier, name)
        },
        Bind::Five(a, b, c, d, e) => {
            let list: [(&'static str, Literal); 5] = [a, b, c, d, e];
            assert(list@ =~= pairs(bind));
            bound_among(&list, identifier, name)
        },
        Bind::Six(a, b, c, d, e, f) => {
            let list: [(&'static str, Literal); 6] = [a, b, c, d, e, f];
            assert(list@ =~= pairs(bind));
            bound_among(&list, identifier, name)
        },
        Bind::Seven(a, b, c, d, e, f, g) => {
            let list: [(&'static str, Literal); 7] = [a, b, c, d, e, f, g];
            assert(list@ =~= pairs(bind));
            bound_among(&list, identifier, name)
        },
    }
}

/// Which cells of the result are parsed as JSON documents.
#[derive(Clone, Copy, Debug, PartialEq, Eq)]
pub enum Documents {
    Nothing,
    Column(usize),
    Columns(usize, usize),
    All,
}

/// What the rows of a check must be.
#[derive(Clone, Copy, Debug, PartialEq, Eq)]
pub enum Judge {
    /// Anything.
    Any,
    /// The rows of the table, and no others.
    Table(Table),
    /// The reals of the one-column table, bit by bit.
    Bits(Table),
    /// A first row that is the first row of the table.
    FirstRow(Table),
    /// A first cell with the bits of the table's first cell.
    FirstBits(Table),
    /// Rows whose first cells are those of the table.
    FirstCells(Table),
    /// Rows whose cells in one column are the first cells of the table.
    Column(usize, Table),
    /// A first row whose cell in one column is the first cell of the table.
    FirstAt(usize, Table),
    /// Rows among which the first three rows of the table are.
    Holds(Table),
    /// A number of rows.
    Count(usize),
    /// A number of rows of one finite real.
    Finite(usize),
    /// A first row whose first cell is null.
    FirstNull,
    /// One row that is the table's but for the fourth cell.
    ExceptFourth(Table),
    /// The facets of the log fixture.
    Facets,
    /// The facets with values of at most five bytes.
    ShortFacets,
    /// The report of a query over the log fixture.
    QueryStats,
    /// The rates of the log fixture.
    Rates,
    /// The storage statistics of the log fixture.
    LogStats,
    /// A number of rows, which later checks compare with.
    Remember(usize),
    /// The remembered rows.
    Remembered,
    /// One row of two texts.
    PairOfTexts,
    /// One row whose first and third cells name objects.
    RichExtrema,
    /// Two texts that begin with the tags and end with the host.
    FormattedArrays,
}

/// What the documents of a check must be.
#[derive(Clone, Copy, Debug, PartialEq, Eq)]
pub enum Rule {
    Nothing,
    Deleted,
    FirstRetained,
    LastRetained,
    CopiedDuration,
    MovedDuration,
    EmptyDropped,
    Packed,
    Unpacked,
    RowAny,
    RowExtrema,
    TypedRowAny,
    TagsArrays,
    CopiedFlags,
    CopiedArrays,
    CopiedEmpty,
    CopiedNull,
    MovedFlags,
    MovedArrays,
    MovedParents,
    MovedEmpty,
    MovedNull,
    HostKept,
    HostOverwritten,
}

/// One check: what it is called when it fails, what is executed, how the columns
/// are read, which cells are parsed, and what must come out.
///
/// `columns` has one letter for each column that is read: `s` a text, `o` an
/// optional text, `i` an integer, `f` a real, `v` any value, `.` a column that is
/// passed over. An empty text reads every column as any value.
#[derive(Clone, Copy, Debug, PartialEq, Eq)]
pub struct Check {
    pub label: &'static str,
    pub source: Source,
    pub bind: Bind,
    pub columns: &'static str,
    pub documents: Documents,
    pub judge: Judge,
    pub rule: Rule,
}

/// One step of the regressions.
#[derive(Clone, Copy, Debug, PartialEq, Eq)]
pub enum Step {
    /// Execute a check.
    Run(Check),
    /// A recipe must have a number of blocks.
    Blocks(&'static str, usize, &'static str),
    /// Insert a log entry: time, level, message and metadata.
    Insert(i64, &'static str, &'static str, &'static str),
    /// Execute a statement without a result.
    Execute(&'static str),
    /// A query must fail with an error that holds both texts.
    Refused(&'static str, &'static str, &'static str, &'static str),
}

/// A check of rows with the recipe's own parameters.
#[verifier::allow_in_spec]
pub fn rows(label: &'static str, source: Source, columns: &'static str, judge: Judge) -> Step
    returns
        (Step::Run(
            Check {
                label,
                source,
                bind: Bind::Nothing,
                columns,
                documents: Documents::Nothing,
                judge,
                rule: Rule::Nothing,
            },
        )),
{
    Step::Run(
        Check {
            label,
            source,
            bind: Bind::Nothing,
            columns,
            documents: Documents::Nothing,
            judge,
            rule: Rule::Nothing,
        },
    )
}

/// A check of rows with parameters of its own.
#[verifier::allow_in_spec]
pub fn bound_rows(
    label: &'static str,
    source: Source,
    bind: Bind,
    columns: &'static str,
    judge: Judge,
) -> Step
    returns
        (Step::Run(
            Check {
                label,
                source,
                bind,
                columns,
                documents: Documents::Nothing,
                judge,
                rule: Rule::Nothing,
            },
        )),
{
    Step::Run(
        Check {
            label,
            source,
            bind,
            columns,
            documents: Documents::Nothing,
            judge,
            rule: Rule::Nothing,
        },
    )
}

/// A check of rows and of the documents in them.
#[verifier::allow_in_spec]
pub fn documents(
    label: &'static str,
    source: Source,
    bind: Bind,
    columns: &'static str,
    documents: Documents,
    judge: Judge,
    rule: Rule,
) -> Step
    returns
        (Step::Run(Check { label, source, bind, columns, documents, judge, rule })),
{
    Step::Run(Check { label, source, bind, columns, documents, judge, rule })
}

/// The values are those of the row.
pub open spec fn written(values: Seq<SqlValue>, row: Option<Row>) -> bool {
    row matches Some(r) && values::row_is(values, values::cells(r))
}

/// The rows are those of the table.
pub open spec fn is_table(rows: Seq<Vec<SqlValue>>, table: Table) -> bool {
    &&& regression_tables::row_of(table, rows.len() as int) is None
    &&& forall|i: int|
        0 <= i < rows.len() ==> written((#[trigger] rows[i])@, regression_tables::row_of(table, i))
}

fn is_written(values: &Vec<SqlValue>, row: Option<Row>) -> (yes: bool)
    ensures
        yes == written(values@, row),
{
    match row {
        Some(r) => matches_row(values, r),
        None => false,
    }
}

fn table_matches(rows: &Vec<Vec<SqlValue>>, table: Table) -> (yes: bool)
    ensures
        yes == is_table(rows@, table),
{
    let mut i: usize = 0;
    while i < rows.len()
        invariant
            i <= rows@.len(),
            forall|k: int|
                0 <= k < i ==> written((#[trigger] rows@[k])@, regression_tables::row_of(table, k)),
        decreases rows.len() - i,
    {
        if !is_written(&rows[i], table_row(table, i)) {
            assert(!written(rows@[i as int]@, regression_tables::row_of(table, i as int)));
            return false;
        }
        i += 1;
    }
    table_row(table, i).is_none()
}

/// The cells of one column are the first cells of the table's rows.
pub open spec fn is_column(rows: Seq<Vec<SqlValue>>, column: int, table: Table) -> bool {
    &&& regression_tables::row_of(table, rows.len() as int) is None
    &&& forall|i: int|
        0 <= i < rows.len() ==> cell_is(
            (#[trigger] rows[i])@,
            column,
            regression_tables::row_of(table, i),
        )
}

/// The cell of a column is the first cell of the row.
pub open spec fn cell_is(values: Seq<SqlValue>, column: int, row: Option<Row>) -> bool {
    row matches Some(r) && column < values.len() && values::value_is(
        values[column],
        values::first_cell(r),
    )
}

fn cell_matches(values: &Vec<SqlValue>, column: usize, row: Option<Row>) -> (yes: bool)
    ensures
        yes == cell_is(values@, column as int, row),
{
    match row {
        Some(r) => column < values.len() && is_literal(&values[column], head(r)),
        None => false,
    }
}

fn column_matches(rows: &Vec<Vec<SqlValue>>, column: usize, table: Table) -> (yes: bool)
    ensures
        yes == is_column(rows@, column as int, table),
{
    let mut i: usize = 0;
    while i < rows.len()
        invariant
            i <= rows@.len(),
            forall|k: int|
                0 <= k < i ==> cell_is(
                    (#[trigger] rows@[k])@,
                    column as int,
                    regression_tables::row_of(table, k),
                ),
        decreases rows.len() - i,
    {
        if !cell_matches(&rows[i], column, table_row(table, i)) {
            assert(!cell_is(
                rows@[i as int]@,
                column as int,
                regression_tables::row_of(table, i as int),
            ));
            return false;
        }
        i += 1;
    }
    table_row(table, i).is_none()
}

/// Every row is one real with the bits of the table's row.
pub open spec fn is_bits(rows: Seq<Vec<SqlValue>>, table: Table) -> bool {
    &&& regression_tables::row_of(table, rows.len() as int) is None
    &&& forall|i: int|
        0 <= i < rows.len() ==> first_bits_are(
            (#[trigger] rows[i])@,
            regression_tables::row_of(table, i),
        )
}

/// The first cell has the bits of the first cell of the row.
pub open spec fn first_bits_are(values: Seq<SqlValue>, row: Option<Row>) -> bool {
    row matches Some(r) && values.len() > 0 && values::bits_are(values[0], values::first_cell(r))
}

fn first_bits_match(values: &Vec<SqlValue>, row: Option<Row>) -> (yes: bool)
    ensures
        yes == first_bits_are(values@, row),
{
    match row {
        Some(r) => values.len() > 0 && has_bits(&values[0], head(r)),
        None => false,
    }
}

fn bits_match(rows: &Vec<Vec<SqlValue>>, table: Table) -> (yes: bool)
    ensures
        yes == is_bits(rows@, table),
{
    let mut i: usize = 0;
    while i < rows.len()
        invariant
            i <= rows@.len(),
            forall|k: int|
                0 <= k < i ==> first_bits_are(
                    (#[trigger] rows@[k])@,
                    regression_tables::row_of(table, k),
                ),
        decreases rows.len() - i,
    {
        if !first_bits_match(&rows[i], table_row(table, i)) {
            assert(!first_bits_are(rows@[i as int]@, regression_tables::row_of(table, i as int)));
            return false;
        }
        i += 1;
    }
    table_row(table, i).is_none()
}

/// The row is among the rows.
pub open spec fn among(rows: Seq<Vec<SqlValue>>, row: Row) -> bool {
    exists|i: int| 0 <= i < rows.len() && values::row_is((#[trigger] rows[i])@, values::cells(row))
}

pub(crate) fn row_among(rows: &Vec<Vec<SqlValue>>, row: Row) -> (yes: bool)
    ensures
        yes == among(rows@, row),
{
    let mut i: usize = 0;
    while i < rows.len()
        invariant
            i <= rows@.len(),
            forall|k: int| 0 <= k < i ==> !values::row_is((#[trigger] rows@[k])@, values::cells(row)),
        decreases rows.len() - i,
    {
        if matches_row(&rows[i], row) {
            return true;
        }
        i += 1;
    }
    false
}

/// The first three rows of the table, as far as it has them, are among the rows.
pub open spec fn holds_table(rows: Seq<Vec<SqlValue>>, table: Table) -> bool {
    forall|i: int|
        0 <= i < 3 ==> (#[trigger] regression_tables::row_of(table, i) matches Some(row) ==> among(
            rows,
            row,
        ))
}

fn table_held(rows: &Vec<Vec<SqlValue>>, table: Table) -> (yes: bool)
    ensures
        yes == holds_table(rows@, table),
{
    let mut i: usize = 0;
    while i < 3
        invariant
            i <= 3,
            forall|k: int|
                0 <= k < i ==> (#[trigger] regression_tables::row_of(table, k) matches Some(row)
                    ==> among(rows@, row)),
        decreases 3 - i,
    {
        match table_row(table, i) {
            Some(row) => {
                if !row_among(rows, row) {
                    assert(regression_tables::row_of(table, i as int) == Some(row));
                    return false;
                }
            },
            None => {},
        }
        i += 1;
    }
    true
}

/// Every row is one finite real.
pub open spec fn all_finite(rows: Seq<Vec<SqlValue>>) -> bool {
    forall|i: int| 0 <= i < rows.len() ==> finite_row((#[trigger] rows[i])@)
}

/// The first cell is a finite real.
pub open spec fn finite_row(values: Seq<SqlValue>) -> bool {
    values.len() > 0 && (values[0] matches SqlValue::Real(bits) && ieee::is_finite(bits))
}

fn rows_finite(rows: &Vec<Vec<SqlValue>>) -> (yes: bool)
    ensures
        yes == all_finite(rows@),
{
    let mut i: usize = 0;
    while i < rows.len()
        invariant
            i <= rows@.len(),
            forall|k: int| 0 <= k < i ==> finite_row((#[trigger] rows@[k])@),
        decreases rows.len() - i,
    {
        let row: &Vec<SqlValue> = &rows[i];
        if row.len() == 0 {
            assert(!finite_row(rows@[i as int]@));
            return false;
        }
        match &row[0] {
            SqlValue::Real(bits) => {
                if !finite_bits(*bits) {
                    assert(!finite_row(rows@[i as int]@));
                    return false;
                }
            },
            _ => {
                assert(!finite_row(rows@[i as int]@));
                return false;
            },
        }
        i += 1;
    }
    true
}

/// The first cell is one of three texts.
pub open spec fn names_one_of(
    values: Seq<SqlValue>,
    a: Seq<char>,
    b: Seq<char>,
    c: Seq<char>,
) -> bool {
    values.len() > 0 && (values::text_value(values[0], a) || values::text_value(values[0], b)
        || values::text_value(values[0], c))
}

fn row_names(values: &Vec<SqlValue>, a: &str, b: &str, c: &str) -> (yes: bool)
    ensures
        yes == names_one_of(values@, a@, b@, c@),
{
    values.len() > 0 && (value_text_is(&values[0], a) || value_text_is(&values[0], b)
        || value_text_is(&values[0], c))
}

/// How many rows name one of three texts decides: none may, or all must.
pub open spec fn every_row_names(
    rows: Seq<Vec<SqlValue>>,
    wanted: bool,
    a: Seq<char>,
    b: Seq<char>,
    c: Seq<char>,
) -> bool {
    forall|i: int| 0 <= i < rows.len() ==> names_one_of((#[trigger] rows[i])@, a, b, c) == wanted
}

fn rows_name(rows: &Vec<Vec<SqlValue>>, wanted: bool, a: &str, b: &str, c: &str) -> (yes: bool)
    ensures
        yes == every_row_names(rows@, wanted, a@, b@, c@),
{
    let mut i: usize = 0;
    while i < rows.len()
        invariant
            i <= rows@.len(),
            forall|k: int|
                0 <= k < i ==> names_one_of((#[trigger] rows@[k])@, a@, b@, c@) == wanted,
        decreases rows.len() - i,
    {
        if row_names(&rows[i], a, b, c) != wanted {
            assert(names_one_of(rows@[i as int]@, a@, b@, c@) != wanted);
            return false;
        }
        i += 1;
    }
    true
}

/// The facets: sixteen rows, the first host among them, and no constant field.
pub open spec fn good_facets(rows: Seq<Vec<SqlValue>>) -> bool {
    &&& rows.len() == 16
    &&& among(
        rows,
        Row::Three(Literal::Text("host"), Literal::Text("web-1"), Literal::Text("1")),
    )
    &&& every_row_names(rows, false, "service"@, "nested.ok"@, "nested.count"@)
}

/// The unsigned number that a cell's text denotes.
pub open spec fn counted(values: Seq<SqlValue>, column: int) -> Option<nat> {
    if column < values.len() {
        match values[column] {
            SqlValue::Text(t) => text::unsigned_value(t@),
            _ => None,
        }
    } else {
        None
    }
}

fn count_of(values: &Vec<SqlValue>, column: usize) -> (value: Option<u64>)
    ensures
        match value {
            Some(n) => counted(values@, column as int) == Some(n as nat),
            None => counted(values@, column as int) is None,
        },
{
    if column < values.len() {
        match &values[column] {
            SqlValue::Text(t) => parse_u64(t),
            _ => None,
        }
    } else {
        None
    }
}

/// The report of one query: fourteen unsigned numbers as texts, with the work of
/// two entries and the bytes read equal to the bytes decoded.
pub open spec fn good_query_stats(rows: Seq<Vec<SqlValue>>) -> bool {
    &&& rows.len() == 1
    &&& rows[0]@.len() == 14
    &&& counted(rows[0]@, 0) == Some(0nat)
    &&& counted(rows[0]@, 1) == Some(0nat)
    &&& counted(rows[0]@, 2) == Some(0nat)
    &&& counted(rows[0]@, 4) == Some(0nat)
    &&& counted(rows[0]@, 5) == Some(0nat)
    &&& counted(rows[0]@, 12) == Some(0nat)
    &&& counted(rows[0]@, 3) is Some
    &&& counted(rows[0]@, 3) != Some(0nat)
    &&& counted(rows[0]@, 3) == counted(rows[0]@, 6)
    &&& counted(rows[0]@, 7) == Some(2nat)
    &&& counted(rows[0]@, 8) == Some(2nat)
    &&& counted(rows[0]@, 9) == Some(2nat)
    &&& counted(rows[0]@, 10) == Some(6nat)
    &&& counted(rows[0]@, 11) == Some(2nat)
    &&& counted(rows[0]@, 13) is Some
    &&& counted(rows[0]@, 13) != Some(0nat)
}

fn query_stats_good(rows: &Vec<Vec<SqlValue>>) -> (yes: bool)
    ensures
        yes == good_query_stats(rows@),
{
    if rows.len() != 1 {
        return false;
    }
    let row: &Vec<SqlValue> = &rows[0];
    if row.len() != 14 {
        return false;
    }
    let read = count_of(row, 3);
    let decoded = count_of(row, 6);
    let total = count_of(row, 13);
    count_is(row, 0, 0) && count_is(row, 1, 0) && count_is(row, 2, 0) && count_is(row, 4, 0)
        && count_is(row, 5, 0) && count_is(row, 12, 0) && (match (read, decoded) {
        (Some(a), Some(b)) => a != 0 && a == b,
        _ => false,
    }) && count_is(row, 7, 2) && count_is(row, 8, 2) && count_is(row, 9, 2) && count_is(row, 10, 6)
        && count_is(row, 11, 2) && (match total {
        Some(n) => n != 0,
        None => false,
    })
}

fn count_is(values: &Vec<SqlValue>, column: usize, wanted: u64) -> (yes: bool)
    ensures
        yes == (counted(values@, column as int) == Some(wanted as nat)),
{
    match count_of(values, column) {
        Some(n) => n == wanted,
        None => false,
    }
}

/// The bits of two divided by 1.001.
pub const RATE: u64 = 0x3fff_f7d0_f16c_2e0a;

/// The bits of sixteen divided by 1.001.
pub const RATE_SUM: u64 = 0x402f_f7d0_f16c_2e0a;

/// One row of two reals within one part in 2^52 of the expected rates. At the
/// first rate that is one unit in the last place, at the second it is none; a
/// real that is not a number passes.
pub open spec fn good_rates(rows: Seq<Vec<SqlValue>>) -> bool {
    &&& rows.len() == 1
    &&& rows[0]@.len() == 2
    &&& rows[0]@[0] matches SqlValue::Real(rate) && (ieee::is_nan(rate) || RATE - 1 <= rate <= RATE
        + 1)
    &&& rows[0]@[1] matches SqlValue::Real(sum) && (ieee::is_nan(sum) || sum == RATE_SUM)
}

fn rates_good(rows: &Vec<Vec<SqlValue>>) -> (yes: bool)
    ensures
        yes == good_rates(rows@),
{
    if rows.len() != 1 {
        return false;
    }
    let row: &Vec<SqlValue> = &rows[0];
    if row.len() != 2 {
        return false;
    }
    match (&row[0], &row[1]) {
        (SqlValue::Real(rate), SqlValue::Real(sum)) => (nan_bits(*rate) || (RATE - 1 <= *rate && *rate
            <= RATE + 1)) && (nan_bits(*sum) || *sum == RATE_SUM),
        _ => false,
    }
}

/// The position of the last row with a key.
pub open spec fn keyed_at(rows: Seq<Vec<SqlValue>>, key: Seq<char>, i: int) -> bool {
    &&& 0 <= i < rows.len()
    &&& is_keyed(rows[i]@, key)
    &&& forall|j: int| i < j < rows.len() ==> !is_keyed((#[trigger] rows[j])@, key)
}

/// The row is a pair with the key.
pub open spec fn is_keyed(values: Seq<SqlValue>, key: Seq<char>) -> bool {
    values.len() == 2 && values::text_value(values[0], key)
}

/// The value of the last row with a key.
pub open spec fn keyed(rows: Seq<Vec<SqlValue>>, key: Seq<char>) -> Option<SqlValue> {
    if exists|i: int| keyed_at(rows, key, i) {
        Some(rows[choose|i: int| keyed_at(rows, key, i)]@[1])
    } else {
        None
    }
}

pub(crate) fn value_under<'a>(rows: &'a Vec<Vec<SqlValue>>, key: &str) -> (value: Option<&'a SqlValue>)
    ensures
        match value {
            Some(v) => keyed(rows@, key@) == Some(*v),
            None => keyed(rows@, key@) is None,
        },
{
    let mut i: usize = rows.len();
    while i > 0
        invariant
            i <= rows@.len(),
            forall|j: int| i <= j < rows@.len() ==> !is_keyed((#[trigger] rows@[j])@, key@),
        decreases i,
    {
        i -= 1;
        let row: &Vec<SqlValue> = &rows[i];
        if row.len() == 2 && value_text_is(&row[0], key) {
            assert(keyed_at(rows@, key@, i as int));
            assert forall|k: int| #[trigger] keyed_at(rows@, key@, k) implies k == i by {
                if k < i {
                    assert(is_keyed(rows@[i as int]@, key@));
                }
            }
            return Some(&row[1]);
        }
    }
    None
}

/// The integer under a key.
pub open spec fn integer_under(rows: Seq<Vec<SqlValue>>, key: Seq<char>) -> Option<int> {
    match keyed(rows, key) {
        Some(SqlValue::Integer(n)) => Some(n as int),
        _ => None,
    }
}

pub(crate) fn integer_at(rows: &Vec<Vec<SqlValue>>, key: &str) -> (value: Option<i64>)
    ensures
        match value {
            Some(n) => integer_under(rows@, key@) == Some(n as int),
            None => integer_under(rows@, key@) is None,
        },
{
    match value_under(rows, key) {
        Some(SqlValue::Integer(n)) => Some(*n),
        _ => None,
    }
}

/// The storage statistics of two raw entries: all sixteen keys are there, with
/// nothing buffered or compressed.
pub open spec fn good_log_stats(rows: Seq<Vec<SqlValue>>) -> bool {
    &&& (keyed(rows, "timestamp_unit"@) matches Some(unit) && values::text_value(unit, "ms"@))
    &&& integer_under(rows, "buffered_entries"@) == Some(0int)
    &&& integer_under(rows, "disk_entries"@) == Some(2int)
    &&& integer_under(rows, "total_entries"@) == Some(2int)
    &&& integer_under(rows, "compressed_blocks"@) == Some(0int)
    &&& integer_under(rows, "compressed_bytes"@) == Some(0int)
    &&& integer_under(rows, "ts_min"@) == Some(1000int)
    &&& integer_under(rows, "ts_max"@) == Some(2000int)
    &&& integer_under(rows, "optimize_source_entries"@) == Some(2int)
    &&& (integer_under(rows, "optimize_source_bytes"@) matches Some(n) && n > 0)
    &&& integer_under(rows, "bytes_on_disk"@) is Some
    &&& integer_under(rows, "bytes_on_disk"@) == integer_under(rows, "raw_bytes"@)
    &&& integer_under(rows, "blocks"@) is Some
    &&& integer_under(rows, "blocks"@) == integer_under(rows, "raw_blocks"@)
    &&& (integer_under(rows, "terms"@) matches Some(n) && n > 0)
    &&& (keyed(rows, "index_bytes"@) matches Some(v) && (v is Null || (v matches SqlValue::Integer(n)
        && n >= 0)))
}

fn integer_is(rows: &Vec<Vec<SqlValue>>, key: &str, wanted: i64) -> (yes: bool)
    ensures
        yes == (integer_under(rows@, key@) == Some(wanted as int)),
{
    match integer_at(rows, key) {
        Some(n) => n == wanted,
        None => false,
    }
}

fn positive(rows: &Vec<Vec<SqlValue>>, key: &str) -> (yes: bool)
    ensures
        yes == (integer_under(rows@, key@) matches Some(n) && n > 0),
{
    match integer_at(rows, key) {
        Some(n) => n > 0,
        None => false,
    }
}

fn same_integers(rows: &Vec<Vec<SqlValue>>, a: &str, b: &str) -> (yes: bool)
    ensures
        yes == (integer_under(rows@, a@) is Some && integer_under(rows@, a@) == integer_under(
            rows@,
            b@,
        )),
{
    match (integer_at(rows, a), integer_at(rows, b)) {
        (Some(x), Some(y)) => x == y,
        _ => false,
    }
}

fn log_stats_good(rows: &Vec<Vec<SqlValue>>) -> (yes: bool)
    ensures
        yes == good_log_stats(rows@),
{
    let unit = match value_under(rows, "timestamp_unit") {
        Some(v) => value_text_is(v, "ms"),
        None => false,
    };
    let index = match value_under(rows, "index_bytes") {
        Some(SqlValue::Null) => true,
        Some(SqlValue::Integer(n)) => *n >= 0,
        _ => false,
    };
    unit && integer_is(rows, "buffered_entries", 0) && integer_is(rows, "disk_entries", 2)
        && integer_is(rows, "total_entries", 2) && integer_is(rows, "compressed_blocks", 0)
        && integer_is(rows, "compressed_bytes", 0) && integer_is(rows, "ts_min", 1000)
        && integer_is(rows, "ts_max", 2000) && integer_is(rows, "optimize_source_entries", 2)
        && positive(rows, "optimize_source_bytes") && same_integers(
        rows,
        "bytes_on_disk",
        "raw_bytes",
    ) && same_integers(rows, "blocks", "raw_blocks") && positive(rows, "terms") && index
}

/// The cell is a text with a beginning and an end.
pub open spec fn framed_by(values: Seq<SqlValue>, start: Seq<char>, end: Seq<char>) -> bool {
    values.len() > 0 && (values[0] matches SqlValue::Text(t) && text::begins_with(t@, start)
        && text::ends_in(t@, end))
}

fn is_framed_by(values: &Vec<SqlValue>, start: &str, end: &str) -> (yes: bool)
    ensures
        yes == framed_by(values@, start@, end@),
{
    if values.len() == 0 {
        return false;
    }
    match &values[0] {
        SqlValue::Text(t) => starts_with(t, start) && ends_with(t, end),
        _ => false,
    }
}

/// The value is a text.
pub open spec fn is_text_cell(value: SqlValue) -> bool {
    value is Text
}

/// The rows are what the judge asks for. `remembered` are the rows that the last
/// remembering check had.
pub open spec fn accepted(
    judge: Judge,
    rows: Seq<Vec<SqlValue>>,
    remembered: Seq<Vec<SqlValue>>,
) -> bool {
    match judge {
        Judge::Any => true,
        Judge::Table(table) => is_table(rows, table),
        Judge::Bits(table) => is_bits(rows, table),
        Judge::FirstRow(table) => rows.len() > 0 && written(
            rows[0]@,
            regression_tables::row_of(table, 0),
        ),
        Judge::FirstBits(table) => rows.len() > 0 && first_bits_are(
            rows[0]@,
            regression_tables::row_of(table, 0),
        ),
        Judge::FirstCells(table) => is_column(rows, 0, table),
        Judge::Column(column, table) => is_column(rows, column as int, table),
        Judge::FirstAt(column, table) => rows.len() > 0 && cell_is(
            rows[0]@,
            column as int,
            regression_tables::row_of(table, 0),
        ),
        Judge::Holds(table) => holds_table(rows, table),
        Judge::Count(n) => rows.len() == n,
        Judge::Finite(n) => rows.len() == n && all_finite(rows),
        Judge::FirstNull => rows.len() > 0 && rows[0]@.len() > 0 && rows[0]@[0] is Null,
        Judge::ExceptFourth(table) => rows.len() == 1 && rows[0]@.len() == 5 && (
        regression_tables::row_of(table, 0) matches Some(row) && values::cells(row).len() == 5
            && values::value_is(rows[0]@[0], values::cells(row)[0]) && values::value_is(
            rows[0]@[1],
            values::cells(row)[1],
        ) && values::value_is(rows[0]@[2], values::cells(row)[2]) && values::value_is(
            rows[0]@[4],
            values::cells(row)[4],
        )),
        Judge::Facets => good_facets(rows),
        Judge::ShortFacets => rows.len() == 6 && every_row_names(
            rows,
            true,
            "duration_ms"@,
            "host"@,
            "level"@,
        ),
        Judge::QueryStats => good_query_stats(rows),
        Judge::Rates => good_rates(rows),
        Judge::LogStats => good_log_stats(rows),
        Judge::Remember(n) => rows.len() == n,
        Judge::Remembered => values::equal_rows(rows, remembered),
        Judge::PairOfTexts => rows.len() == 1 && rows[0]@.len() == 2 && is_text_cell(rows[0]@[0])
            && is_text_cell(rows[0]@[1]),
        Judge::RichExtrema => rows.len() == 1 && rows[0]@.len() > 2 && values::text_value(
            rows[0]@[0],
            "object"@,
        ) && values::text_value(rows[0]@[2], "object"@),
        Judge::FormattedArrays => rows.len() == 2 && framed_by(
            rows[0]@,
            r#"["prod","",123,true,false,null,"#@,
            "|web-1"@,
        ) && framed_by(rows[1]@, r#"["dev",1.5,-2,"#@, "|web-2"@),
    }
}

fn except_fourth(values: &Vec<SqlValue>, row: Option<Row>) -> (yes: bool)
    requires
        values@.len() == 5,
    ensures
        yes == (row matches Some(r) && values::cells(r).len() == 5 && values::value_is(
            values@[0],
            values::cells(r)[0],
        ) && values::value_is(values@[1], values::cells(r)[1]) && values::value_is(
            values@[2],
            values::cells(r)[2],
        ) && values::value_is(values@[4], values::cells(r)[4])),
{
    match row {
        Some(Row::Five(a, b, c, _, e)) => is_literal(&values[0], a) && is_literal(&values[1], b)
            && is_literal(&values[2], c) && is_literal(&values[4], e),
        _ => false,
    }
}

fn null_cell(value: &SqlValue) -> (yes: bool)
    ensures
        yes == (value is Null),
{
    match value {
        SqlValue::Null => true,
        _ => false,
    }
}

fn text_cell(value: &SqlValue) -> (yes: bool)
    ensures
        yes == is_text_cell(*value),
{
    match value {
        SqlValue::Text(_) => true,
        _ => false,
    }
}

/// Whether the rows are what the judge asks for.
pub fn accepts(
    judge: Judge,
    rows: &Vec<Vec<SqlValue>>,
    remembered: &Vec<Vec<SqlValue>>,
) -> (yes: bool)
    ensures
        yes == accepted(judge, rows@, remembered@),
{
    match judge {
        Judge::Any => true,
        Judge::Table(table) => table_matches(rows, table),
        Judge::Bits(table) => bits_match(rows, table),
        Judge::FirstRow(table) => rows.len() > 0 && is_written(&rows[0], table_row(table, 0)),
        Judge::FirstBits(table) => rows.len() > 0 && first_bits_match(&rows[0], table_row(table, 0)),
        Judge::FirstCells(table) => column_matches(rows, 0, table),
        Judge::Column(column, table) => column_matches(rows, column, table),
        Judge::FirstAt(column, table) => rows.len() > 0 && cell_matches(
            &rows[0],
            column,
            table_row(table, 0),
        ),
        Judge::Holds(table) => table_held(rows, table),
        Judge::Count(n) => rows.len() == n,
        Judge::Finite(n) => rows.len() == n && rows_finite(rows),
        Judge::FirstNull => rows.len() > 0 && rows[0].len() > 0 && null_cell(&rows[0][0]),
        Judge::ExceptFourth(table) => rows.len() == 1 && rows[0].len() == 5 && except_fourth(
            &rows[0],
            table_row(table, 0),
        ),
        Judge::Facets => rows.len() == 16 && row_among(
            rows,
            Row::Three(Literal::Text("host"), Literal::Text("web-1"), Literal::Text("1")),
        ) && rows_name(rows, false, "service", "nested.ok", "nested.count"),
        Judge::ShortFacets => rows.len() == 6 && rows_name(
            rows,
            true,
            "duration_ms",
            "host",
            "level",
        ),
        Judge::QueryStats => query_stats_good(rows),
        Judge::Rates => rates_good(rows),
        Judge::LogStats => log_stats_good(rows),
        Judge::Remember(n) => rows.len() == n,
        Judge::Remembered => same_rows(rows, remembered),
        Judge::PairOfTexts => rows.len() == 1 && rows[0].len() == 2 && text_cell(&rows[0][0])
            && text_cell(&rows[0][1]),
        Judge::RichExtrema => rows.len() == 1 && rows[0].len() > 2 && value_text_is(
            &rows[0][0],
            "object",
        ) && value_text_is(&rows[0][2], "object"),
        Judge::FormattedArrays => rows.len() == 2 && is_framed_by(
            &rows[0],
            r#"["prod","",123,true,false,null,"#,
            "|web-1",
        ) && is_framed_by(&rows[1], r#"["dev",1.5,-2,"#, "|web-2"),
    }
}

/// Whether later checks compare with the rows that this judge accepts.
pub fn remembers(judge: Judge) -> (yes: bool)
    ensures
        yes == (judge is Remember),
{
    match judge {
        Judge::Remember(_) => true,
        _ => false,
    }
}

/// Whether a statement was refused in the words that a step names.
pub fn refused_with(message: &str, first: &str, second: &str) -> (yes: bool)
    ensures
        yes == (text::occurs_in(message@, first@) && text::occurs_in(message@, second@)),
{
    contains_text(message, first) && contains_text(message, second)
}

} // verus!
