//! Gates: scripts of actions on databases, each with what it must come to.
use crate::order;
use crate::order::put_text;
use crate::regressions;
use crate::regressions::{integer_at, value_under};
use crate::stats;
use crate::stats::clamped_difference;
use crate::text;
use crate::text::{contains_text, push_char, same_text};
use crate::values;
use crate::values::{matches_row, same_rows, value_text_is, Literal, Row, SqlValue};
use vstd::prelude::*;
use vstd::string::*;

verus! {

/// A database of a gate.
#[derive(Clone, Copy, Debug, PartialEq, Eq)]
pub enum Database {
    /// A file of this name in the directory of the suite.
    Named(&'static str),
    /// The file that the suite was started with.
    Given,
    /// One of the further files that the suite was started with.
    Auxiliary(usize),
    /// A database in memory.
    Private,
    /// A file in a directory whose name ends in `.sqld`.
    Sqld,
}

/// Bytes that the library makes for a statement.
#[derive(Clone, Copy, Debug, PartialEq, Eq)]
pub enum Blob {
    /// A cycle of 256 log entries, one cycle behind the other.
    Cycle(u8),
    /// A cycle of 256 log entries, more than an hour behind the last one.
    Distant(u8),
    /// The rich log entries.
    RichLogs,
    /// The flat log entry.
    FlatLogs,
    /// The spans of the contract.
    Contract,
    /// The spans of the contract without the last byte.
    ContractShort,
    /// A part of the spans of the percentiles.
    Percentiles(u8),
    /// A span as earlier versions wrote it.
    Legacy,
    /// One span less than fill a block.
    Threshold,
    /// A rich span by its number.
    Rich(u32),
    /// Two spans, one of them to be pruned.
    Lifecycle,
}

/// A span that goes in row by row.
#[derive(Clone, Copy, Debug, PartialEq, Eq)]
pub enum SpanName {
    /// A span of the contract, by its place.
    Contract(u8),
    /// A rich span by its number.
    Rich(u32),
    /// A span whose attributes are a list.
    Bad,
}

/// A value that a statement is bound to.
#[derive(Clone, Copy, Debug, PartialEq, Eq)]
pub enum Argument {
    Null,
    Integer(i64),
    Real(u64),
    Text(&'static str),
    /// One byte, so many times.
    Fill(u8, usize),
    /// A number in eight bytes, the most significant first.
    Word(u64),
    /// The same twice.
    TwoWords(u64),
    /// The path of a database.
    Path(Database),
    /// Bytes that the library makes.
    Made(Blob),
    /// A column of the first row in a register.
    Kept(usize, usize),
    /// The same without its last byte.
    KeptShort(usize, usize),
    /// The registry of a series whose number is in a register.
    Registry(usize),
    /// The identity of the trace of the contract.
    ContractTrace,
}

/// What a statement is bound to.
#[derive(Clone, Copy, Debug, PartialEq, Eq)]
pub enum Arguments {
    Zero,
    One(Argument),
    Two(Argument, Argument),
    Three(Argument, Argument, Argument),
    Four(Argument, Argument, Argument, Argument),
    Five(Argument, Argument, Argument, Argument, Argument),
    Six(Argument, Argument, Argument, Argument, Argument, Argument),
}

/// Result rows that are written down.
#[derive(Clone, Copy, Debug, PartialEq, Eq)]
pub enum Rows {
    Zero,
    One(Row),
    Two(Row, Row),
    Three(Row, Row, Row),
    Four(Row, Row, Row, Row),
}

/// What an action must come to. Registers hold rows that were kept before.
#[derive(Clone, Copy, Debug, PartialEq, Eq)]
pub enum Expected {
    /// It succeeds.
    Done,
    /// It fails.
    Refused,
    /// It fails with a message that holds this text.
    RefusedWith(&'static str),
    /// It fails with a message that holds these three texts.
    RefusedWithAll(&'static str, &'static str, &'static str),
    /// It fails with a message that holds one of these four texts in whatever case.
    RefusedWithAny(&'static str, &'static str, &'static str, &'static str),
    /// The first row is this one.
    First(Row),
    /// The rows are these.
    Rows(Rows),
    /// The rows are these in whatever order, and however often each stands.
    Members(Rows),
    /// There are so many rows.
    Many(usize),
    /// The first row begins with an integer above this one.
    Above(i64),
    /// The first row begins with so many bytes.
    Length(usize),
    /// A row holds this text within the text in this column.
    Mentions(usize, &'static str),
    /// A row is this text.
    Lists(&'static str),
    /// The rows are pairs of a key and a text, with so many different keys, and the
    /// last pair with this key has this text.
    Pairs(usize, &'static str, &'static str),
    /// The last pair with this key has this text.
    Pair(&'static str, &'static str),
    /// The rows go into a register.
    Keep(usize),
    /// The rows are those of a register.
    Same(usize),
    /// The rows are not those of a register.
    Different(usize),
    /// The first row begins with an integer above the one in a register.
    Grown(usize),
    /// There is one row, with the integer of a register and this text.
    Named(usize, &'static str),
    /// The rows are the schema objects of the three signal tables.
    Objects,
}

/// A bound on a number.
#[derive(Clone, Copy, Debug, PartialEq, Eq, Structural)]
pub enum Bound {
    Is(i64),
    AtLeast(i64),
    Above(i64),
}

/// A metric that a worker writes.
#[derive(Clone, Copy, Debug, PartialEq, Eq)]
pub struct MetricWrite {
    pub name: &'static str,
    pub timestamp: i64,
    pub value: u64,
    pub labels: &'static str,
}

/// What a worker writes in one transaction.
#[derive(Clone, Copy, Debug, PartialEq, Eq)]
pub enum Writes {
    One(MetricWrite),
    Two(MetricWrite, MetricWrite),
}

/// The counts of metrics by their names.
#[derive(Clone, Copy, Debug, PartialEq, Eq)]
pub enum Counts {
    One(&'static str, i64),
    Two(&'static str, i64, &'static str, i64),
}

/// What a gate does. Connections and workers stand in slots.
#[derive(Clone, Copy, Debug, PartialEq, Eq)]
pub enum Action {
    /// Opens a connection with the extension.
    Open(usize, Database),
    /// Opens a connection without it.
    OpenPlain(usize, Database),
    /// Opens a connection with it that only reads.
    OpenReadOnly(usize, Database),
    Close(usize),
    /// Runs statements.
    Batch(usize, &'static str, Expected),
    /// Runs a statement.
    Execute(usize, &'static str, Arguments, Expected),
    /// Reads all rows of a query.
    Query(usize, &'static str, Arguments, Expected),
    /// Prepares a query.
    Prepare(usize, &'static str, Expected),
    /// Whether the connection is outside of a transaction.
    Autocommit(usize, bool),
    /// Two queries have the same rows.
    Agree(usize, &'static str, Arguments, &'static str, Arguments),
    /// From here on, the connection may not drop a table of this name.
    Deny(usize, &'static str),
    /// It may again, and was denied in between.
    Permit(usize),
    /// Copies a schema of a connection to a database.
    Backup(usize, &'static str, Database),
    /// Waits so many milliseconds.
    Sleep(u64),
    /// The connection waits so many milliseconds for a lock.
    Patience(usize, u64),
    /// A statement fails with a message that holds the first text, not before and
    /// not after so many milliseconds.
    Locked(usize, &'static str, &'static str, u64, u64),
    /// Another process runs statements on the given database.
    External(&'static str),
    /// The directory of `Database::Sqld` is made.
    MakeDirectory,
    /// Drops the views that a query names.
    DropViews(usize, &'static str),
    /// An integer under a key in a register.
    Stat(usize, &'static str, Bound),
    /// The growth of an integer under a key between two registers.
    Delta(usize, usize, &'static str, Bound),
    /// The growth under the first key is that under the second times a factor, and
    /// a rest.
    Scaled(usize, usize, &'static str, &'static str, i64, i64),
    /// Starts a worker on the named database, which is ready.
    Start(usize, &'static str),
    /// Starts a worker, which reports an error and ends.
    StartRefused(usize, &'static str),
    /// A worker writes metrics.
    Write(usize, Writes),
    /// A worker counts metrics.
    Count(usize, Counts),
    Stop(usize),
    /// The aggregate frame of a metric agrees with its rows.
    AggregateFrame(usize, &'static str, &'static str, u8),
    /// The latest frame of a query agrees with the rows of another.
    LatestFrame(usize, &'static str, &'static str),
    /// The latest frame of a query has one row: a series, a time and a value.
    SingleFrame(usize, &'static str, i64, i64, u64),
    /// The packed rollup agrees with the rows of all aggregates.
    PackedRollup(usize),
    /// A span goes in row by row.
    InsertSpan(usize, &'static str, SpanName, Expected),
    /// The spans of a table go into a register of their own.
    KeepSpans(usize, &'static str, usize),
    /// The spans of a table are those of a register.
    SameSpans(usize, &'static str, usize),
    /// So many spans are in a register.
    SpanCount(usize, usize),
    /// The first span in a register has this number as its identity.
    FirstSpan(usize, u64),
    /// The spans in a register have this service.
    SpanService(usize, &'static str),
    /// The first span in a register carries what the contract says.
    ContractRoot(usize),
    /// The first span in a register has the attributes of a span.
    FirstAttributes(usize, SpanName),
    /// The first row of a query has columns of the first contract span.
    ContractRow(usize, &'static str),
    /// The first row of a query has the attributes of the first contract span. The
    /// query is bound to its trace.
    ContractAttributes(usize, &'static str),
    /// The first row of a query has what is kept of a span of an earlier version.
    LegacyRow(usize, &'static str),
    /// The percentiles of all services are exact.
    PercentileRows(usize),
    /// The capabilities that the extension reports.
    Capabilities(usize),
    /// The rich log entries as they are read back.
    RichRows(usize),
    /// A line for the reader.
    Pass(&'static str),
}

/// What came of an action.
#[derive(Debug)]
pub enum Reply {
    Done,
    Failed(String),
    Rows(Vec<Vec<SqlValue>>),
}

/// The rows that are written down, as a list.
pub open spec fn listed(rows: Rows) -> Seq<Row> {
    match rows {
        Rows::Zero => Seq::empty(),
        Rows::One(a) => seq![a],
        Rows::Two(a, b) => seq![a, b],
        Rows::Three(a, b, c) => seq![a, b, c],
        Rows::Four(a, b, c, d) => seq![a, b, c, d],
    }
}

/// The rows are those of a list.
pub open spec fn rows_are(rows: Seq<Vec<SqlValue>>, list: Seq<Row>) -> bool {
    &&& rows.len() == list.len()
    &&& forall|i: int|
        0 <= i < rows.len() ==> values::row_is((#[trigger] rows[i])@, values::cells(list[i]))
}

/// A row is one of a list.
pub open spec fn is_listed(row: Seq<SqlValue>, list: Seq<Row>) -> bool {
    exists|k: int| 0 <= k < list.len() && values::row_is(row, values::cells(#[trigger] list[k]))
}

/// Each row is one of a list, and each of the list is one of the rows.
pub open spec fn members_are(rows: Seq<Vec<SqlValue>>, list: Seq<Row>) -> bool {
    &&& forall|i: int| 0 <= i < rows.len() ==> is_listed((#[trigger] rows[i])@, list)
    &&& forall|k: int| 0 <= k < list.len() ==> regressions::among(rows, #[trigger] list[k])
}

fn row_list(rows: Rows) -> (list: Vec<Row>)
    ensures
        list@ == listed(rows),
{
    let mut list: Vec<Row> = Vec::new();
    match rows {
        Rows::Zero => {},
        Rows::One(a) => list.push(a),
        Rows::Two(a, b) => {
            list.push(a);
            list.push(b);
        },
        Rows::Three(a, b, c) => {
            list.push(a);
            list.push(b);
            list.push(c);
        },
        Rows::Four(a, b, c, d) => {
            list.push(a);
            list.push(b);
            list.push(c);
            list.push(d);
        },
    }
    assert(list@ =~= listed(rows));
    list
}

fn are_rows(rows: &Vec<Vec<SqlValue>>, list: &Vec<Row>) -> (yes: bool)
    ensures
        yes == rows_are(rows@, list@),
{
    if rows.len() != list.len() {
        return false;
    }
    let mut i: usize = 0;
    while i < rows.len()
        invariant
            rows@.len() == list@.len(),
            i <= rows@.len(),
            forall|k: int|
                0 <= k < i ==> values::row_is((#[trigger] rows@[k])@, values::cells(list@[k])),
        decreases rows.len() - i,
    {
        if !matches_row(&rows[i], list[i]) {
            assert(!values::row_is(rows@[i as int]@, values::cells(list@[i as int])));
            return false;
        }
        i += 1;
    }
    true
}

fn row_among(row: &Vec<SqlValue>, list: &Vec<Row>) -> (yes: bool)
    ensures
        yes == is_listed(row@, list@),
{
    let mut k: usize = 0;
    while k < list.len()
        invariant
            k <= list@.len(),
            forall|j: int| 0 <= j < k ==> !values::row_is(row@, values::cells(#[trigger] list@[j])),
        decreases list.len() - k,
    {
        if matches_row(row, list[k]) {
            assert(values::row_is(row@, values::cells(list@[k as int])));
            return true;
        }
        k += 1;
    }
    false
}

fn are_members(rows: &Vec<Vec<SqlValue>>, list: &Vec<Row>) -> (yes: bool)
    ensures
        yes == members_are(rows@, list@),
{
    let mut i: usize = 0;
    while i < rows.len()
        invariant
            i <= rows@.len(),
            forall|j: int| 0 <= j < i ==> is_listed((#[trigger] rows@[j])@, list@),
        decreases rows.len() - i,
    {
        if !row_among(&rows[i], list) {
            return false;
        }
        i += 1;
    }
    let mut k: usize = 0;
    while k < list.len()
        invariant
            k <= list@.len(),
            forall|j: int| 0 <= j < rows@.len() ==> is_listed((#[trigger] rows@[j])@, list@),
            forall|m: int| 0 <= m < k ==> regressions::among(rows@, #[trigger] list@[m]),
        decreases list.len() - k,
    {
        if !regressions::row_among(rows, list[k]) {
            return false;
        }
        k += 1;
    }
    true
}

/// The integer that the first row begins with.
pub open spec fn leading_integer(rows: Seq<Vec<SqlValue>>) -> Option<int> {
    if rows.len() > 0 && rows[0]@.len() > 0 {
        match rows[0]@[0] {
            SqlValue::Integer(n) => Some(n as int),
            _ => None,
        }
    } else {
        None
    }
}

fn first_integer(rows: &Vec<Vec<SqlValue>>) -> (value: Option<i64>)
    ensures
        match value {
            Some(n) => leading_integer(rows@) == Some(n as int),
            None => leading_integer(rows@) is None,
        },
{
    if rows.len() > 0 && rows[0].len() > 0 {
        match &rows[0][0] {
            SqlValue::Integer(n) => Some(*n),
            _ => None,
        }
    } else {
        None
    }
}

/// The first row begins with so many bytes.
pub open spec fn leading_bytes(rows: Seq<Vec<SqlValue>>, length: nat) -> bool {
    &&& rows.len() > 0
    &&& rows[0]@.len() > 0
    &&& match rows[0]@[0] {
        SqlValue::Blob(b) => b@.len() == length,
        _ => false,
    }
}

fn has_length(rows: &Vec<Vec<SqlValue>>, length: usize) -> (yes: bool)
    ensures
        yes == leading_bytes(rows@, length as nat),
{
    if rows.len() > 0 && rows[0].len() > 0 {
        match &rows[0][0] {
            SqlValue::Blob(b) => b.len() == length,
            _ => false,
        }
    } else {
        false
    }
}

/// The row has a text in this column that holds another text.
pub open spec fn cell_mentions(row: Seq<SqlValue>, column: int, needle: Seq<char>) -> bool {
    &&& 0 <= column < row.len()
    &&& match row[column] {
        SqlValue::Text(t) => text::occurs_in(t@, needle),
        _ => false,
    }
}

/// A row does.
pub open spec fn mentions(rows: Seq<Vec<SqlValue>>, column: int, needle: Seq<char>) -> bool {
    exists|i: int| 0 <= i < rows.len() && cell_mentions((#[trigger] rows[i])@, column, needle)
}

fn has_mention(rows: &Vec<Vec<SqlValue>>, column: usize, needle: &str) -> (yes: bool)
    ensures
        yes == mentions(rows@, column as int, needle@),
{
    let mut i: usize = 0;
    while i < rows.len()
        invariant
            i <= rows@.len(),
            forall|j: int|
                0 <= j < i ==> !cell_mentions((#[trigger] rows@[j])@, column as int, needle@),
        decreases rows.len() - i,
    {
        let row: &Vec<SqlValue> = &rows[i];
        if column < row.len() {
            match &row[column] {
                SqlValue::Text(t) => if contains_text(t, needle) {
                    assert(cell_mentions(rows@[i as int]@, column as int, needle@));
                    return true;
                },
                _ => {},
            }
        }
        i += 1;
    }
    false
}

/// The keys of pairs.
pub open spec fn keys_of(rows: Seq<Vec<SqlValue>>) -> Seq<Seq<char>>
    decreases rows.len(),
{
    if rows.len() == 0 {
        Seq::empty()
    } else {
        let row = rows.last()@;
        if row.len() == 2 {
            match row[0] {
                SqlValue::Text(t) => keys_of(rows.drop_last()).push(t@),
                _ => keys_of(rows.drop_last()),
            }
        } else {
            keys_of(rows.drop_last())
        }
    }
}

/// So many different texts stand in a list.
pub open spec fn distinct(list: Seq<Seq<char>>) -> nat {
    list.to_set().len()
}

/// The text under a key.
pub open spec fn text_under(rows: Seq<Vec<SqlValue>>, key: Seq<char>, expected: Seq<char>) -> bool {
    match regressions::keyed(rows, key) {
        Some(v) => values::text_value(v, expected),
        None => false,
    }
}

fn has_text_under(rows: &Vec<Vec<SqlValue>>, key: &str, expected: &str) -> (yes: bool)
    ensures
        yes == text_under(rows@, key@, expected@),
{
    match value_under(rows, key) {
        Some(v) => value_text_is(v, expected),
        None => false,
    }
}

proof fn ascending_is_distinct(list: Seq<Seq<char>>)
    requires
        order::ascending(list),
    ensures
        list.to_set().len() == list.len(),
{
    assert(list.no_duplicates()) by {
        assert forall|i: int, j: int| 0 <= i < j < list.len() implies list[i] != list[j] by {
            assert(order::precedes(list[i], list[j]));
            order::order_is_total(list[i], list[j]);
        }
    }
    list.unique_seq_to_set();
}

fn distinct_keys(rows: &Vec<Vec<SqlValue>>) -> (count: usize)
    ensures
        count == distinct(keys_of(rows@)),
{
    let mut list: Vec<String> = Vec::new();
    let mut i: usize = 0;
    assert(rows@.take(0) =~= Seq::empty());
    while i < rows.len()
        invariant
            i <= rows@.len(),
            order::ascending(text::texts(list@)),
            forall|x: Seq<char>| #[trigger]
                text::texts(list@).contains(x) <==> keys_of(rows@.take(i as int)).contains(x),
        decreases rows.len() - i,
    {
        let row: &Vec<SqlValue> = &rows[i];
        let ghost before = text::texts(list@);
        let ghost keys = keys_of(rows@.take(i as int));
        proof {
            let now = rows@.take(i + 1);
            assert(now.drop_last() =~= rows@.take(i as int));
            assert(now.last() == *row);
        }
        if row.len() == 2 {
            match &row[0] {
                SqlValue::Text(t) => {
                    proof {
                        pushed(keys, t@);
                    }
                    put_text(&mut list, t);
                    assert forall|x: Seq<char>| #[trigger]
                        text::texts(list@).contains(x) <==> keys_of(
                            rows@.take(i + 1),
                        ).contains(x) by {
                        assert(before.contains(x) <==> keys.contains(x));
                    }
                },
                _ => {},
            }
        }
        i += 1;
    }
    proof {
        assert(rows@.take(i as int) =~= rows@);
        ascending_is_distinct(text::texts(list@));
        assert(text::texts(list@).to_set() =~= keys_of(rows@).to_set()) by {
            assert forall|x: Seq<char>| text::texts(list@).to_set().contains(x) <==> keys_of(
                rows@,
            ).to_set().contains(x) by {
                assert(text::texts(list@).contains(x) <==> keys_of(rows@).contains(x));
            }
        }
    }
    list.len()
}

proof fn pushed(list: Seq<Seq<char>>, last: Seq<char>)
    ensures
        forall|x: Seq<char>| #[trigger]
            list.push(last).contains(x) <==> list.contains(x) || x == last,
{
    let all = list.push(last);
    assert forall|x: Seq<char>| #[trigger] all.contains(x) <==> list.contains(x) || x == last by {
        if all.contains(x) {
            let i = choose|i: int| 0 <= i < all.len() && all[i] == x;
            if i < list.len() {
                assert(list[i] == x);
            }
        }
        if list.contains(x) {
            let i = choose|i: int| 0 <= i < list.len() && list[i] == x;
            assert(all[i] == x);
        }
        if x == last {
            assert(all[list.len() as int] == x);
        }
    }
}

/// A letter in lower case.
pub open spec fn lower(c: char) -> char {
    if 'A' <= c <= 'Z' {
        (c as int + 32) as char
    } else {
        c
    }
}

/// A text with its ASCII letters in lower case.
pub open spec fn lowered(s: Seq<char>) -> Seq<char> {
    s.map_values(|c: char| lower(c))
}

/// A text with its ASCII letters in lower case.
pub fn lower_text(s: &str) -> (out: String)
    ensures
        out@ == lowered(s@),
{
    let chars = text::chars_of(s);
    let mut out = String::new();
    let mut i: usize = 0;
    while i < chars.len()
        invariant
            i <= chars@.len(),
            chars@ == s@,
            out@ == lowered(s@.take(i as int)),
        decreases chars.len() - i,
    {
        let c = chars[i];
        if 'A' <= c && c <= 'Z' {
            let n: u8 = c as u8;
            push_char(&mut out, (n + 32) as char);
        } else {
            push_char(&mut out, c);
        }
        i += 1;
        assert(out@ =~= lowered(s@.take(i as int)));
    }
    assert(s@.take(i as int) =~= s@);
    out
}

/// The schema object of the three signal tables at a place, from 0 on: its kind and
/// its name.
pub open spec fn object_at(i: int) -> Option<Row> {
    if i == 0 {
        Some(Row::Two(Literal::Text("table"), Literal::Text("metrics")))
    } else if i == 1 {
        Some(Row::Two(Literal::Text("table"), Literal::Text("metrics_chunks")))
    } else if i == 2 {
        Some(Row::Two(Literal::Text("table"), Literal::Text("metrics_meta")))
    } else if i == 3 {
        Some(Row::Two(Literal::Text("table"), Literal::Text("metrics_series")))
    } else if i == 4 {
        Some(Row::Two(Literal::Text("index"), Literal::Text("metrics_chunks_series_ts")))
    } else if i == 5 {
        Some(Row::Two(Literal::Text("table"), Literal::Text("logs")))
    } else if i == 6 {
        Some(Row::Two(Literal::Text("table"), Literal::Text("logs_blocks")))
    } else if i == 7 {
        Some(Row::Two(Literal::Text("table"), Literal::Text("logs_terms")))
    } else if i == 8 {
        Some(Row::Two(Literal::Text("table"), Literal::Text("logs_meta")))
    } else if i == 9 {
        Some(Row::Two(Literal::Text("index"), Literal::Text("logs_blocks_ts")))
    } else if i == 10 {
        Some(Row::Two(Literal::Text("table"), Literal::Text("traces")))
    } else if i == 11 {
        Some(Row::Two(Literal::Text("table"), Literal::Text("traces_blocks")))
    } else if i == 12 {
        Some(Row::Two(Literal::Text("table"), Literal::Text("traces_terms")))
    } else if i == 13 {
        Some(Row::Two(Literal::Text("table"), Literal::Text("traces_trace_blocks")))
    } else if i == 14 {
        Some(Row::Two(Literal::Text("table"), Literal::Text("traces_duration_bounds")))
    } else if i == 15 {
        Some(Row::Two(Literal::Text("table"), Literal::Text("traces_meta")))
    } else if i == 16 {
        Some(Row::Two(Literal::Text("index"), Literal::Text("traces_blocks_ts")))
    } else {
        None
    }
}

/// The schema object of the three signal tables at a place, from 0 on.
pub fn schema_object(i: usize) -> (row: Option<Row>)
    ensures
        row == object_at(i as int),
{
    if i == 0 {
        Some(Row::Two(Literal::Text("table"), Literal::Text("metrics")))
    } else if i == 1 {
        Some(Row::Two(Literal::Text("table"), Literal::Text("metrics_chunks")))
    } else if i == 2 {
        Some(Row::Two(Literal::Text("table"), Literal::Text("metrics_meta")))
    } else if i == 3 {
        Some(Row::Two(Literal::Text("table"), Literal::Text("metrics_series")))
    } else if i == 4 {
        Some(Row::Two(Literal::Text("index"), Literal::Text("metrics_chunks_series_ts")))
    } else if i == 5 {
        Some(Row::Two(Literal::Text("table"), Literal::Text("logs")))
    } else if i == 6 {
        Some(Row::Two(Literal::Text("table"), Literal::Text("logs_blocks")))
    } else if i == 7 {
        Some(Row::Two(Literal::Text("table"), Literal::Text("logs_terms")))
    } else if i == 8 {
        Some(Row::Two(Literal::Text("table"), Literal::Text("logs_meta")))
    } else if i == 9 {
        Some(Row::Two(Literal::Text("index"), Literal::Text("logs_blocks_ts")))
    } else if i == 10 {
        Some(Row::Two(Literal::Text("table"), Literal::Text("traces")))
    } else if i == 11 {
        Some(Row::Two(Literal::Text("table"), Literal::Text("traces_blocks")))
    } else if i == 12 {
        Some(Row::Two(Literal::Text("table"), Literal::Text("traces_terms")))
    } else if i == 13 {
        Some(Row::Two(Literal::Text("table"), Literal::Text("traces_trace_blocks")))
    } else if i == 14 {
        Some(Row::Two(Literal::Text("table"), Literal::Text("traces_duration_bounds")))
    } else if i == 15 {
        Some(Row::Two(Literal::Text("table"), Literal::Text("traces_meta")))
    } else if i == 16 {
        Some(Row::Two(Literal::Text("index"), Literal::Text("traces_blocks_ts")))
    } else {
        None
    }
}

/// How many schema objects the three signal tables have.
pub const OBJECTS: usize = 17;

/// The schema objects of the three signal tables.
pub open spec fn signal_objects() -> Seq<Row> {
    Seq::new(OBJECTS as nat, |i: int| object_at(i)->0)
}

fn object_list() -> (list: Vec<Row>)
    ensures
        list@ == signal_objects(),
{
    let mut list: Vec<Row> = Vec::new();
    let mut i: usize = 0;
    while i < OBJECTS
        invariant
            i <= OBJECTS,
            list@ == Seq::new(i as nat, |k: int| object_at(k)->0),
        decreases OBJECTS - i,
    {
        match schema_object(i) {
            Some(row) => list.push(row),
            None => {
                assert(false);
            },
        }
        i += 1;
        assert(list@ =~= Seq::new(i as nat, |k: int| object_at(k)->0));
    }
    list
}

/// The rows in a register.
pub open spec fn register(memory: Seq<Vec<Vec<SqlValue>>>, i: nat) -> Seq<Vec<SqlValue>> {
    if i < memory.len() {
        memory[i as int]@
    } else {
        Seq::empty()
    }
}

/// The rows are what is expected of them.
pub open spec fn rows_meet(
    expected: Expected,
    rows: Seq<Vec<SqlValue>>,
    memory: Seq<Vec<Vec<SqlValue>>>,
) -> bool {
    match expected {
        Expected::Done => true,
        Expected::Keep(_) => true,
        Expected::First(row) => rows.len() > 0 && values::row_is(rows[0]@, values::cells(row)),
        Expected::Rows(list) => rows_are(rows, listed(list)),
        Expected::Members(list) => members_are(rows, listed(list)),
        Expected::Many(n) => rows.len() == n,
        Expected::Above(n) => leading_integer(rows) matches Some(m) && m > n,
        Expected::Length(n) => leading_bytes(rows, n as nat),
        Expected::Mentions(column, needle) => mentions(rows, column as int, needle@),
        Expected::Lists(t) => regressions::among(rows, Row::One(Literal::Text(t))),
        Expected::Pairs(n, key, value) => distinct(keys_of(rows)) == n && text_under(
            rows,
            key@,
            value@,
        ),
        Expected::Pair(key, value) => text_under(rows, key@, value@),
        Expected::Same(r) => values::equal_rows(rows, register(memory, r as nat)),
        Expected::Different(r) => !values::equal_rows(rows, register(memory, r as nat)),
        Expected::Grown(r) => match (leading_integer(register(memory, r as nat)), leading_integer(
            rows,
        )) {
            (Some(before), Some(after)) => after > before,
            _ => false,
        },
        Expected::Named(r, name) => match leading_integer(register(memory, r as nat)) {
            Some(n) => rows_are(
                rows,
                seq![Row::Two(Literal::Integer(n as i64), Literal::Text(name))],
            ),
            None => false,
        },
        Expected::Objects => members_are(rows, signal_objects()),
        Expected::Refused => false,
        Expected::RefusedWith(_) => false,
        Expected::RefusedWithAll(_, _, _) => false,
        Expected::RefusedWithAny(_, _, _, _) => false,
    }
}

/// A failure is what is expected.
pub open spec fn failure_meets(expected: Expected, message: Seq<char>) -> bool {
    match expected {
        Expected::Refused => true,
        Expected::RefusedWith(a) => text::occurs_in(message, a@),
        Expected::RefusedWithAll(a, b, c) => text::occurs_in(message, a@) && text::occurs_in(
            message,
            b@,
        ) && text::occurs_in(message, c@),
        Expected::RefusedWithAny(a, b, c, d) => text::occurs_in(lowered(message), a@)
            || text::occurs_in(lowered(message), b@) || text::occurs_in(lowered(message), c@)
            || text::occurs_in(lowered(message), d@),
        _ => false,
    }
}

/// A reply is what is expected of an action.
pub open spec fn met(
    expected: Expected,
    reply: Reply,
    memory: Seq<Vec<Vec<SqlValue>>>,
) -> bool {
    match reply {
        Reply::Done => expected == Expected::Done,
        Reply::Failed(message) => failure_meets(expected, message@),
        Reply::Rows(rows) => rows_meet(expected, rows@, memory),
    }
}

fn failure_is(expected: Expected, message: &str) -> (yes: bool)
    ensures
        yes == failure_meets(expected, message@),
{
    match expected {
        Expected::Refused => true,
        Expected::RefusedWith(a) => contains_text(message, a),
        Expected::RefusedWithAll(a, b, c) => contains_text(message, a) && contains_text(message, b)
            && contains_text(message, c),
        Expected::RefusedWithAny(a, b, c, d) => {
            let low = lower_text(message);
            contains_text(&low, a) || contains_text(&low, b) || contains_text(&low, c)
                || contains_text(&low, d)
        },
        _ => false,
    }
}

fn named_is(rows: &Vec<Vec<SqlValue>>, kept: &Vec<Vec<SqlValue>>, name: &'static str) -> (yes: bool)
    ensures
        yes == (match leading_integer(kept@) {
            Some(n) => rows_are(
                rows@,
                seq![Row::Two(Literal::Integer(n as i64), Literal::Text(name))],
            ),
            None => false,
        }),
{
    match first_integer(kept) {
        Some(n) => {
            let mut list: Vec<Row> = Vec::new();
            list.push(Row::Two(Literal::Integer(n), Literal::Text(name)));
            assert(list@ =~= seq![Row::Two(Literal::Integer(n), Literal::Text(name))]);
            are_rows(rows, &list)
        },
        None => false,
    }
}

fn rows_are_met(
    expected: Expected,
    rows: &Vec<Vec<SqlValue>>,
    memory: &Vec<Vec<Vec<SqlValue>>>,
) -> (yes: bool)
    ensures
        yes == rows_meet(expected, rows@, memory@),
{
    let nothing: Vec<Vec<SqlValue>> = Vec::new();
    assert(nothing@ =~= Seq::empty());
    match expected {
        Expected::Done => true,
        Expected::Keep(_) => true,
        Expected::First(row) => rows.len() > 0 && matches_row(&rows[0], row),
        Expected::Rows(list) => are_rows(rows, &row_list(list)),
        Expected::Members(list) => are_members(rows, &row_list(list)),
        Expected::Many(n) => rows.len() == n,
        Expected::Above(n) => match first_integer(rows) {
            Some(m) => m > n,
            None => false,
        },
        Expected::Length(n) => has_length(rows, n),
        Expected::Mentions(column, needle) => has_mention(rows, column, needle),
        Expected::Lists(t) => regressions::row_among(rows, Row::One(Literal::Text(t))),
        Expected::Pairs(n, key, value) => distinct_keys(rows) == n && has_text_under(
            rows,
            key,
            value,
        ),
        Expected::Pair(key, value) => has_text_under(rows, key, value),
        Expected::Same(r) => {
            let kept = if r < memory.len() {
                &memory[r]
            } else {
                &nothing
            };
            same_rows(rows, kept)
        },
        Expected::Different(r) => {
            let kept = if r < memory.len() {
                &memory[r]
            } else {
                &nothing
            };
            !same_rows(rows, kept)
        },
        Expected::Grown(r) => {
            let kept = if r < memory.len() {
                &memory[r]
            } else {
                &nothing
            };
            match (first_integer(kept), first_integer(rows)) {
                (Some(before), Some(after)) => after > before,
                _ => false,
            }
        },
        Expected::Named(r, name) => {
            let kept = if r < memory.len() {
                &memory[r]
            } else {
                &nothing
            };
            named_is(rows, kept, name)
        },
        Expected::Objects => are_members(rows, &object_list()),
        _ => false,
    }
}

/// Whether a reply is what is expected of an action.
pub fn accepts(expected: Expected, reply: &Reply, memory: &Vec<Vec<Vec<SqlValue>>>) -> (yes: bool)
    ensures
        yes == met(expected, *reply, memory@),
{
    match reply {
        Reply::Done => matches!(expected, Expected::Done),
        Reply::Failed(message) => failure_is(expected, message),
        Reply::Rows(rows) => rows_are_met(expected, rows, memory),
    }
}

/// No reply is what two expectations of success and of failure both want.
pub proof fn success_is_no_failure(reply: Reply, memory: Seq<Vec<Vec<SqlValue>>>)
    ensures
        !(met(Expected::Done, reply, memory) && met(Expected::Refused, reply, memory)),
{
}

/// A number keeps within a bound.
pub open spec fn within(n: int, bound: Bound) -> bool {
    match bound {
        Bound::Is(m) => n == m,
        Bound::AtLeast(m) => n >= m,
        Bound::Above(m) => n > m,
    }
}

fn keeps_within(n: i64, bound: Bound) -> (yes: bool)
    ensures
        yes == within(n as int, bound),
{
    match bound {
        Bound::Is(m) => n == m,
        Bound::AtLeast(m) => n >= m,
        Bound::Above(m) => n > m,
    }
}

/// Whether the integer under a key keeps within a bound.
pub fn stat_is(rows: &Vec<Vec<SqlValue>>, key: &str, bound: Bound) -> (yes: bool)
    ensures
        yes == (match regressions::integer_under(rows@, key@) {
            Some(n) => within(n, bound),
            None => false,
        }),
{
    match integer_at(rows, key) {
        Some(n) => keeps_within(n, bound),
        None => false,
    }
}

/// The growth under a key between two lists of pairs, held to the range of the
/// numbers.
pub open spec fn growth_under(
    before: Seq<Vec<SqlValue>>,
    after: Seq<Vec<SqlValue>>,
    key: Seq<char>,
) -> Option<int> {
    match (regressions::integer_under(before, key), regressions::integer_under(after, key)) {
        (Some(a), Some(b)) => Some(stats::clamped(b - a)),
        _ => None,
    }
}

fn growth_at(before: &Vec<Vec<SqlValue>>, after: &Vec<Vec<SqlValue>>, key: &str) -> (value: Option<
    i64,
>)
    ensures
        match value {
            Some(n) => growth_under(before@, after@, key@) == Some(n as int),
            None => growth_under(before@, after@, key@) is None,
        },
{
    match (integer_at(before, key), integer_at(after, key)) {
        (Some(a), Some(b)) => Some(clamped_difference(b, a)),
        _ => None,
    }
}

/// Whether the growth under a key keeps within a bound.
pub fn delta_is(
    before: &Vec<Vec<SqlValue>>,
    after: &Vec<Vec<SqlValue>>,
    key: &str,
    bound: Bound,
) -> (yes: bool)
    ensures
        yes == (match growth_under(before@, after@, key@) {
            Some(n) => within(n, bound),
            None => false,
        }),
{
    match growth_at(before, after, key) {
        Some(n) => keeps_within(n, bound),
        None => false,
    }
}

/// Whether the growth under a key is that under another times a factor, and a rest.
pub fn scaled_is(
    before: &Vec<Vec<SqlValue>>,
    after: &Vec<Vec<SqlValue>>,
    key: &str,
    other: &str,
    factor: i64,
    rest: i64,
) -> (yes: bool)
    ensures
        yes == (match (
            growth_under(before@, after@, key@),
            growth_under(before@, after@, other@),
        ) {
            (Some(n), Some(m)) => n == m * factor + rest,
            _ => false,
        }),
{
    match (growth_at(before, after, key), growth_at(before, after, other)) {
        (Some(n), Some(m)) => {
            proof {
                product_fits(m, factor);
            }
            n as i128 == m as i128 * factor as i128 + rest as i128
        },
        _ => false,
    }
}

proof fn product_fits(m: i64, factor: i64)
    ensures
        -0x4000_0000_0000_0000_0000_0000_0000_0000 <= m * factor
            <= 0x4000_0000_0000_0000_0000_0000_0000_0000,
{
    assert(-0x4000_0000_0000_0000_0000_0000_0000_0000 <= m * factor
        <= 0x4000_0000_0000_0000_0000_0000_0000_0000) by (nonlinear_arith)
        requires
            -0x8000_0000_0000_0000 <= m <= 0x7fff_ffff_ffff_ffff,
            -0x8000_0000_0000_0000 <= factor <= 0x7fff_ffff_ffff_ffff,
    ;
}

/// Whether a statement failed for a lock, within the time.
pub fn was_locked(
    message: &str,
    needle: &str,
    elapsed_ms: u64,
    least_ms: u64,
    most_ms: u64,
) -> (yes: bool)
    ensures
        yes == (text::occurs_in(message@, needle@) && least_ms <= elapsed_ms <= most_ms),
{
    contains_text(message, needle) && least_ms <= elapsed_ms && elapsed_ms <= most_ms
}

/// The statement that drops a view.
pub open spec fn drop_view_text(name: Seq<char>) -> Seq<char> {
    "DROP VIEW \""@ + name + "\""@
}

/// The statement that drops a view.
pub fn drop_view(name: &str) -> (sql: String)
    ensures
        sql@ == drop_view_text(name@),
{
    let mut sql = crate::json::copied("DROP VIEW \"");
    sql.append(name);
    sql.append("\"");
    sql
}

/// What a worker counts is what is expected.
pub open spec fn counts_are(counted: Seq<(String, i64)>, expected: Counts) -> bool {
    match expected {
        Counts::One(a, n) => counted.len() == 1 && counted[0].0@ == a@ && counted[0].1 == n,
        Counts::Two(a, n, b, m) => counted.len() == 2 && counted[0].0@ == a@ && counted[0].1 == n
            && counted[1].0@ == b@ && counted[1].1 == m,
    }
}

/// Whether what a worker counts, in the order of the names, is what is expected.
pub fn accepts_counts(counted: &[(String, i64)], expected: Counts) -> (yes: bool)
    ensures
        yes == counts_are(counted@, expected),
{
    match expected {
        Counts::One(a, n) => counted.len() == 1 && same_text(&counted[0].0, a) && counted[0].1 == n,
        Counts::Two(a, n, b, m) => counted.len() == 2 && same_text(&counted[0].0, a) && counted[0].1
            == n && same_text(&counted[1].0, b) && counted[1].1 == m,
    }
}

/// An identifier in double quotes, with each double quote in it doubled.
pub open spec fn doubled(s: Seq<char>) -> Seq<char>
    decreases s.len(),
{
    if s.len() == 0 {
        Seq::empty()
    } else if s.last() == '"' {
        doubled(s.drop_last()) + seq!['"', '"']
    } else {
        doubled(s.drop_last()).push(s.last())
    }
}

/// An identifier in double quotes.
pub open spec fn quoted(identifier: Seq<char>) -> Seq<char> {
    seq!['"'] + doubled(identifier) + seq!['"']
}

/// An identifier in double quotes, with each double quote in it doubled.
pub fn quote(identifier: &str) -> (out: String)
    ensures
        out@ == quoted(identifier@),
{
    let chars = text::chars_of(identifier);
    let mut out = String::new();
    push_char(&mut out, '"');
    let mut i: usize = 0;
    assert(identifier@.take(0) =~= Seq::empty());
    assert(out@ =~= seq!['"'] + doubled(identifier@.take(0)));
    while i < chars.len()
        invariant
            i <= chars@.len(),
            chars@ == identifier@,
            out@ == seq!['"'] + doubled(identifier@.take(i as int)),
        decreases chars.len() - i,
    {
        proof {
            let now = identifier@.take(i + 1);
            assert(now.drop_last() =~= identifier@.take(i as int));
            assert(now.last() == chars@[i as int]);
        }
        if chars[i] == '"' {
            push_char(&mut out, '"');
        }
        push_char(&mut out, chars[i]);
        i += 1;
        assert(out@ =~= seq!['"'] + doubled(identifier@.take(i as int)));
    }
    assert(identifier@.take(i as int) =~= identifier@);
    push_char(&mut out, '"');
    assert(out@ =~= quoted(identifier@));
    out
}

/// A table in a schema.
pub open spec fn qualified_name(schema: Seq<char>, table: Seq<char>) -> Seq<char> {
    quoted(schema) + "."@ + quoted(table)
}

/// A table in a schema, both in double quotes.
pub fn qualified(schema: &str, table: &str) -> (out: String)
    ensures
        out@ == qualified_name(schema@, table@),
{
    let mut out = quote(schema);
    let name = quote(table);
    out.append(".");
    out.append(&name);
    out
}

/// What a reader takes for the identifier behind an opening double quote: a doubled
/// double quote stands for one, and a single one ends it.
pub open spec fn read_quoted(s: Seq<char>) -> Option<Seq<char>>
    decreases s.len(),
{
    if s.len() == 0 {
        None
    } else if s[0] == '"' {
        if s.len() > 1 && s[1] == '"' {
            match read_quoted(s.skip(2)) {
                Some(rest) => Some(seq!['"'] + rest),
                None => None,
            }
        } else {
            Some(Seq::empty())
        }
    } else {
        match read_quoted(s.skip(1)) {
            Some(rest) => Some(seq![s[0]] + rest),
            None => None,
        }
    }
}

proof fn doubled_from_front(s: Seq<char>)
    requires
        s.len() > 0,
    ensures
        doubled(s) == (if s[0] == '"' {
            seq!['"', '"']
        } else {
            seq![s[0]]
        }) + doubled(s.skip(1)),
    decreases s.len(),
{
    if s.len() == 1 {
        assert(s.drop_last() =~= Seq::empty());
        assert(s.skip(1) =~= Seq::empty());
        assert(doubled(s) =~= (if s[0] == '"' {
            seq!['"', '"']
        } else {
            seq![s[0]]
        }) + doubled(s.skip(1)));
    } else {
        doubled_from_front(s.drop_last());
        assert(s.drop_last().skip(1) =~= s.skip(1).drop_last());
        assert(s.skip(1).last() == s.last());
        assert(doubled(s) =~= (if s[0] == '"' {
            seq!['"', '"']
        } else {
            seq![s[0]]
        }) + doubled(s.skip(1)));
    }
}

/// A quoted identifier is read back as the identifier, whatever it holds and
/// whatever follows that is no double quote.
pub proof fn quoted_is_read_back(identifier: Seq<char>, tail: Seq<char>)
    requires
        tail.len() > 0 ==> tail[0] != '"',
    ensures
        quoted(identifier)[0] == '"',
        read_quoted(quoted(identifier).skip(1) + tail) == Some(identifier),
    decreases identifier.len(),
{
    let body = doubled(identifier) + seq!['"'];
    assert(quoted(identifier).skip(1) =~= body);
    let s = body + tail;
    if identifier.len() == 0 {
        assert(doubled(identifier) =~= Seq::empty());
        assert(s[0] == '"');
        assert(s.len() > 1 ==> s[1] == tail[0]);
    } else {
        let rest = identifier.skip(1);
        doubled_from_front(identifier);
        quoted_is_read_back(rest, tail);
        assert(quoted(rest).skip(1) =~= doubled(rest) + seq!['"']);
        let after = doubled(rest) + seq!['"'] + tail;
        if identifier[0] == '"' {
            assert(s.skip(2) =~= after);
        } else {
            assert(s.skip(1) =~= after);
        }
        assert(seq![identifier[0]] + rest =~= identifier);
    }
}

} // verus!
