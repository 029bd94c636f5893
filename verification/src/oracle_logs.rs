//! Cases of the log oracle, and the answers of the two Victoria engines.
use crate::calendar::{self, microsecond_text};
use crate::documents::{self, all_documents, document};
use crate::json::{self, as_unsigned, as_whole, copied, held_member, items, member, text_is, Json, Tree};
use crate::moments::{self, replace_marks};
use crate::oracle_answers::{self, results_equal, texts_agree};
use crate::oracle_cases::{self, find_list, offset, string, CaseError, Expectation};
use crate::text::{
    self, chars_of, contains_text, lines_of, push_char, push_signed, same_text, starts_with,
    trim_text,
};
use vstd::prelude::*;
use vstd::string::*;

verus! {

/// The answer of a range case is exactly the expected data.
pub open spec fn data_answer(expected: Expectation, status: u16, body: Json) -> bool {
    &&& status == 200
    &&& json::has_text(json::member_of(body, "status"@), "success"@)
    &&& json::member_of(body, "data"@) matches Some(Json::Object(m)) && m@.len() == 2
        && m@[0].0@ == "result"@ && oracle_answers::results_agree(
        expected.result@,
        m@[0].1,
        true,
    ) && m@[1].0@ == "resultType"@ && json::is_text(m@[1].1, "matrix"@)
}

/// Whether the answer to a range case of VictoriaMetrics is the expected data.
pub fn accepts_victoriametrics(expected: &Expectation, status: u16, body: &Json) -> (yes: bool)
    ensures
        yes == data_answer(*expected, status, *body),
{
    if status != 200 {
        return false;
    }
    let ok = match member(body, "status") {
        Some(v) => text_is(v, "success"),
        None => false,
    };
    if !ok {
        return false;
    }
    match member(body, "data") {
        Some(Json::Object(m)) => m.len() == 2 && same_text(&m[0].0, "result") && results_equal(
            &expected.result,
            &m[0].1,
            true,
        ) && same_text(&m[1].0, "resultType") && text_is(&m[1].1, "matrix"),
        _ => false,
    }
}

/// Whether the fixture can be read back: one series is visible.
pub fn fixture_is_visible(status: u16, body: &Json) -> (yes: bool)
    ensures
        yes == (status == 200 && (json::at_path(
            *body,
            seq!["data"@, "result"@],
        ) matches Some(v) && json::items_of(v) matches Some(list) && list.len() == 1)),
{
    if status != 200 {
        return false;
    }
    match json::member2(body, "data", "result") {
        Some(v) => match items(v) {
            Some(list) => list.len() == 1,
            None => false,
        },
        None => false,
    }
}

/// A time in one of the notations that queries use, given the notation of
/// RFC 3339.
pub open spec fn time_in(format: Seq<char>, us: int, rfc3339: Option<Seq<char>>) -> Result<
    Seq<char>,
    CaseError,
> {
    if format == "rfc3339"@ {
        match rfc3339 {
            Some(t) => Ok(t),
            None => Err(CaseError::Time),
        }
    } else if format == "unix_s"@ {
        if us % 1_000_000 != 0 {
            Err(CaseError::NotInteger)
        } else {
            Ok(text::signed_decimal(us / 1_000_000))
        }
    } else if format == "unix_ms"@ {
        if us % 1_000 != 0 {
            Err(CaseError::NotInteger)
        } else {
            Ok(text::signed_decimal(us / 1_000))
        }
    } else if format == "unix_us"@ {
        Ok(text::signed_decimal(us))
    } else if format == "unix_ns"@ {
        if i64::MIN <= us * 1_000 <= i64::MAX {
            Ok(text::signed_decimal(us * 1_000))
        } else {
            Err(CaseError::Time)
        }
    } else {
        Err(CaseError::Text("format"))
    }
}

fn in_decimal(n: i64) -> (out: String)
    ensures
        out@ == text::signed_decimal(n as int),
{
    let mut out = String::new();
    push_signed(&mut out, n);
    assert(out@ =~= text::signed_decimal(n as int));
    out
}

fn divided(us: i64, by: i64) -> (q: Option<i64>)
    requires
        by == 1_000 || by == 1_000_000,
    ensures
        match q {
            Some(n) => us as int % by as int == 0 && n == us as int / by as int,
            None => us as int % by as int != 0,
        },
{
    if us < 0 {
        let n: i128 = -(us as i128);
        if n % by as i128 != 0 {
            None
        } else {
            Some((-(n / by as i128)) as i64)
        }
    } else if us % by != 0 {
        None
    } else {
        Some(us / by)
    }
}

/// A time in one of the notations that queries use, given the notation of
/// RFC 3339.
pub fn time_text(format: &str, us: i64, rfc3339: Option<String>) -> (result: Result<
    String,
    CaseError,
>)
    ensures
        oracle_cases::text_result(result) == time_in(
            format@,
            us as int,
            calendar::optional(rfc3339),
        ),
{
    if same_text(format, "rfc3339") {
        match rfc3339 {
            Some(t) => Ok(t),
            None => Err(CaseError::Time),
        }
    } else if same_text(format, "unix_s") {
        match divided(us, 1_000_000) {
            Some(n) => Ok(in_decimal(n)),
            None => Err(CaseError::NotInteger),
        }
    } else if same_text(format, "unix_ms") {
        match divided(us, 1_000) {
            Some(n) => Ok(in_decimal(n)),
            None => Err(CaseError::NotInteger),
        }
    } else if same_text(format, "unix_us") {
        Ok(in_decimal(us))
    } else if same_text(format, "unix_ns") {
        match us.checked_mul(1_000) {
            Some(n) => Ok(in_decimal(n)),
            None => Err(CaseError::Time),
        }
    } else {
        Err(CaseError::Text("format"))
    }
}

/// The time that an entry of the query times stands for.
pub open spec fn entry_time(entry: Json, base_us: i64) -> Result<Seq<char>, CaseError> {
    if !(entry is Object) {
        Err(CaseError::NotObject("query_times"))
    } else {
        match oracle_cases::whole_at(entry, "offset_us") {
            Err(e) => Err(e),
            Ok(by) => match oracle_cases::shifted(base_us, by) {
                Err(e) => Err(e),
                Ok(us) => match oracle_cases::text_at(entry, "format") {
                    Err(e) => Err(e),
                    Ok(format) => time_in(format, us as int, calendar::utc_micros_text(us)),
                },
            },
        }
    }
}

fn entry_time_of(entry: &Json, base_us: i64) -> (result: Result<String, CaseError>)
    ensures
        oracle_cases::text_result(result) == entry_time(*entry, base_us),
{
    match entry {
        Json::Object(_) => {},
        _ => return Err(CaseError::NotObject("query_times")),
    }
    let by = match offset(entry, "offset_us") {
        Ok(n) => n,
        Err(e) => return Err(e),
    };
    let us = match oracle_cases::shift(base_us, by) {
        Ok(t) => t,
        Err(e) => return Err(e),
    };
    let format = match string(entry, "format") {
        Ok(f) => f,
        Err(e) => return Err(e),
    };
    time_text(&format, us, microsecond_text(us))
}

/// The mark of a name in a query.
pub open spec fn mark(name: Seq<char>) -> Seq<char> {
    seq!['{'] + name + seq!['}']
}

/// A query with the marks of the first `n` query times replaced. Every mark must
/// be there.
pub open spec fn timed_query(
    query: Seq<char>,
    times: Seq<(String, Json)>,
    base_us: i64,
    n: nat,
) -> Result<Seq<char>, CaseError>
    decreases n,
{
    if n == 0 {
        Ok(query)
    } else {
        match timed_query(query, times, base_us, (n - 1) as nat) {
            Err(e) => Err(e),
            Ok(text) => match entry_time(times[n - 1].1, base_us) {
                Err(e) => Err(e),
                Ok(time) => if text::occurs_in(text, mark(times[n - 1].0@)) {
                    Ok(moments::replaced(text, mark(times[n - 1].0@), time))
                } else {
                    Err(CaseError::Missing("query_times marker"))
                },
            },
        }
    }
}

proof fn timing_errors_persist(
    query: Seq<char>,
    times: Seq<(String, Json)>,
    base_us: i64,
    k: nat,
    n: nat,
)
    requires
        k <= n,
        timed_query(query, times, base_us, k) is Err,
    ensures
        timed_query(query, times, base_us, n) == timed_query(query, times, base_us, k),
    decreases n - k,
{
    if k < n {
        timing_errors_persist(query, times, base_us, k, (n - 1) as nat);
    }
}

/// The query of a log case.
pub open spec fn log_query(case: Json, base_us: i64) -> Result<Seq<char>, CaseError> {
    match oracle_cases::text_at(case, "query") {
        Err(e) => Err(e),
        Ok(query) => match json::member_of(case, "query_times"@) {
            None => Ok(query),
            Some(times) => match times {
                Json::Object(m) => timed_query(query, m@, base_us, m@.len()),
                _ => Err(CaseError::NotObject("query_times")),
            },
        },
    }
}

/// The query of a log case, with its marks replaced by times.
#[verifier::loop_isolation(false)]
pub fn victorialogs_query(case: &Json, base_us: i64) -> (result: Result<String, CaseError>)
    ensures
        oracle_cases::text_result(result) == log_query(*case, base_us),
{
    let query = match string(case, "query") {
        Ok(q) => q,
        Err(e) => return Err(e),
    };
    let times = match member(case, "query_times") {
        None => return Ok(query),
        Some(times) => match times {
            Json::Object(m) => m,
            _ => return Err(CaseError::NotObject("query_times")),
        },
    };
    let ghost start = query@;
    let mut current = query;
    let mut i: usize = 0;
    while i < times.len()
        invariant
            i <= times@.len(),
            timed_query(start, times@, base_us, i as nat) == Ok::<Seq<char>, CaseError>(current@),
        decreases times.len() - i,
    {
        let time = match entry_time_of(&times[i].1, base_us) {
            Ok(t) => t,
            Err(e) => {
                proof {
                    timing_errors_persist(start, times@, base_us, (i + 1) as nat, times@.len());
                }
                return Err(e);
            },
        };
        let mut marker = String::new();
        push_char(&mut marker, '{');
        marker.append(&times[i].0);
        push_char(&mut marker, '}');
        assert(marker@ =~= mark(times@[i as int].0@));
        if !contains_text(&current, &marker) {
            proof {
                timing_errors_persist(start, times@, base_us, (i + 1) as nat, times@.len());
            }
            return Err(CaseError::Missing("query_times marker"));
        }
        current = replace_marks(&current, &marker, &time);
        i += 1;
    }
    Ok(current)
}

/// The lines of a body that are not blank.
pub open spec fn filled(lines: Seq<Seq<char>>) -> Seq<Seq<char>>
    decreases lines.len(),
{
    if lines.len() == 0 {
        Seq::empty()
    } else {
        let rest = filled(lines.drop_last());
        if text::trim(lines.last()).len() > 0 {
            rest.push(lines.last())
        } else {
            rest
        }
    }
}

/// The lines of a body that are not blank.
pub fn filled_lines(body: &str) -> (list: Vec<String>)
    ensures
        text::texts(list@) == filled(text::lines(body@)),
{
    let lines = lines_of(body);
    let ghost all = text::lines(body@);
    let mut list: Vec<String> = Vec::new();
    let mut i: usize = 0;
    assert(text::texts(list@) =~= filled(all.take(0)));
    while i < lines.len()
        invariant
            i <= lines@.len(),
            all == text::lines(body@),
            text::texts(lines@) == all,
            text::texts(list@) == filled(all.take(i as int)),
        decreases lines.len() - i,
    {
        assert(all[i as int] == lines@[i as int]@);
        assert(all.take(i + 1).drop_last() =~= all.take(i as int));
        assert(all.take(i + 1).last() == lines@[i as int]@);
        let rest = trim_text(&lines[i]);
        let chars = chars_of(&rest);
        if chars.len() > 0 {
            let ghost before = text::texts(list@);
            list.push(copied(&lines[i]));
            assert(text::texts(list@) =~= before.push(lines@[i as int]@));
        }
        i += 1;
    }
    assert(all.take(i as int) =~= all);
    list
}

/// The type of a stream of JSON rows.
pub const STREAM: &'static str = "application/stream+json";

/// The case that a row names, in what the row holds.
pub open spec fn named_in(row: Tree) -> Result<Seq<char>, CaseError> {
    match json::tree_member(row, "case"@) {
        Some(Tree::Text(name)) => Ok(name),
        _ => Err(CaseError::Missing("case")),
    }
}

/// A text or an error, by what it holds.
pub open spec fn text_result(r: Result<String, CaseError>) -> Result<Seq<char>, CaseError> {
    match r {
        Ok(t) => Ok(t@),
        Err(e) => Err(e),
    }
}

/// The case that a row names.
pub fn row_case(row: &Json) -> (name: Result<String, CaseError>)
    ensures
        text_result(name) == named_in(json::tree(*row)),
{
    match held_member(row, "case") {
        Some(Json::Text(t)) => Ok(copied(t)),
        _ => Err(CaseError::Missing("case")),
    }
}

/// The case that a line names.
pub open spec fn named_by(line: Seq<char>) -> Result<Seq<char>, CaseError> {
    match documents::document_tree(line) {
        None => Err(CaseError::Document),
        Some(row) => named_in(row),
    }
}

/// The cases that lines name, or the first error.
pub open spec fn named_cases(lines: Seq<Seq<char>>) -> Result<Seq<Seq<char>>, CaseError>
    decreases lines.len(),
{
    if lines.len() == 0 {
        Ok(Seq::empty())
    } else {
        match named_cases(lines.drop_last()) {
            Err(e) => Err(e),
            Ok(names) => match named_by(lines.last()) {
                Err(e) => Err(e),
                Ok(name) => Ok(names.push(name)),
            },
        }
    }
}

proof fn errors_last(lines: Seq<Seq<char>>, n: int)
    requires
        0 <= n <= lines.len(),
        named_cases(lines.take(n)) is Err,
    ensures
        named_cases(lines) == named_cases(lines.take(n)),
    decreases lines.len() - n,
{
    if n == lines.len() {
        assert(lines.take(n) =~= lines);
    } else {
        assert(lines.take(n + 1).drop_last() =~= lines.take(n));
        errors_last(lines, n + 1);
    }
}

/// The cases that the rows of an answer name, in order. An answer with another
/// status or type has none, so that its case fails and the others still run.
pub fn victorialogs_response_cases(
    status: u16,
    expected_status: u16,
    content_type: &str,
    body: &str,
) -> (result: Result<Vec<String>, CaseError>)
    ensures
        oracle_answers::texts_result(result) == (if status == expected_status && text::begins_with(
            content_type@,
            STREAM@,
        ) {
            named_cases(filled(text::lines(body@)))
        } else {
            Ok(Seq::empty())
        }),
{
    let mut out: Vec<String> = Vec::new();
    assert(text::texts(out@) =~= Seq::empty());
    if status != expected_status || !starts_with(content_type, STREAM) {
        return Ok(out);
    }
    let lines = filled_lines(body);
    let ghost all = filled(text::lines(body@));
    let mut i: usize = 0;
    assert(all.take(0) =~= Seq::empty());
    while i < lines.len()
        invariant
            i <= lines@.len(),
            all == filled(text::lines(body@)),
            text::texts(lines@) == all,
            status == expected_status && text::begins_with(content_type@, STREAM@),
            named_cases(all.take(i as int)) == Ok::<Seq<Seq<char>>, CaseError>(text::texts(out@)),
        decreases lines.len() - i,
    {
        assert(all[i as int] == lines@[i as int]@);
        assert(all.take(i + 1).drop_last() =~= all.take(i as int));
        assert(all.take(i + 1).last() == lines@[i as int]@);
        let row = match document(&lines[i]) {
            Some(row) => row,
            None => {
                proof {
                    errors_last(all, i + 1);
                }
                return Err(CaseError::Document);
            },
        };
        match row_case(&row) {
            Ok(name) => {
                let ghost before = text::texts(out@);
                out.push(name);
                assert(text::texts(out@) =~= before.push(name@));
            },
            Err(e) => {
                proof {
                    errors_last(all, i + 1);
                }
                return Err(e);
            },
        }
        i += 1;
    }
    assert(all.take(i as int) =~= all);
    Ok(out)
}

/// The status that a case expects.
pub open spec fn status_of(case: Json) -> Option<u64> {
    match json::member_of(case, "status"@) {
        Some(v) => match json::unsigned_of(v) {
            Some(n) => Some(n % 0x1_0000),
            None => None,
        },
        None => None,
    }
}

/// The status that a case expects.
pub fn expected_status(case: &Json) -> (status: Option<u16>)
    ensures
        match status {
            Some(s) => status_of(*case) == Some(s as u64),
            None => status_of(*case) is None,
        },
{
    match member(case, "status") {
        Some(v) => match as_unsigned(v) {
            Some(n) => Some((n % 0x1_0000) as u16),
            None => None,
        },
        None => None,
    }
}

/// The cases that an answer names are those that a case expects, in the order
/// that it asks for.
pub open spec fn log_answer(
    case: Json,
    found: Seq<Seq<char>>,
    status: u16,
    content_type: Seq<char>,
) -> Result<bool, CaseError> {
    match status_of(case) {
        None => Err(CaseError::Missing("case status")),
        Some(expected) => match oracle_cases::maybe_list(case, "expected_cases") {
            None => Err(CaseError::Missing("case expected_cases")),
            Some(list) => if !oracle_answers::all_texts(list) {
                Err(CaseError::Text("expected_cases"))
            } else {
                Ok(
                    status == expected && text::begins_with(content_type, STREAM@) && (
                    if oracle_answers::is_ordered(case) {
                        found == oracle_answers::texts_of(list)
                    } else {
                        oracle_answers::same_texts(found, oracle_answers::texts_of(list))
                    }),
                )
            },
        },
    }
}

fn same_order(a: &Vec<String>, b: &Vec<String>) -> (same: bool)
    ensures
        same == (text::texts(a@) == text::texts(b@)),
{
    if a.len() != b.len() {
        assert(text::texts(a@).len() != text::texts(b@).len());
        return false;
    }
    let mut i: usize = 0;
    while i < a.len()
        invariant
            i <= a@.len(),
            a@.len() == b@.len(),
            forall|j: int| 0 <= j < i ==> (#[trigger] a@[j])@ == b@[j]@,
        decreases a.len() - i,
    {
        if !same_text(&a[i], &b[i]) {
            assert(text::texts(a@)[i as int] != text::texts(b@)[i as int]);
            return false;
        }
        i += 1;
    }
    assert(text::texts(a@) =~= text::texts(b@));
    true
}

/// Whether the cases that an answer names are those that a case expects.
pub fn accepts_logs(case: &Json, found: &Vec<String>, status: u16, content_type: &str) -> (result:
    Result<bool, CaseError>)
    ensures
        result == log_answer(*case, text::texts(found@), status, content_type@),
{
    let expected = match expected_status(case) {
        None => return Err(CaseError::Missing("case status")),
        Some(s) => s,
    };
    let list = match find_list(case, "expected_cases") {
        None => return Err(CaseError::Missing("case expected_cases")),
        Some(l) => l,
    };
    let names = match oracle_answers::strings_of(list) {
        None => return Err(CaseError::Text("expected_cases")),
        Some(l) => l,
    };
    let ordered = match member(case, "result_order") {
        Some(v) => text_is(v, "ordered"),
        None => false,
    };
    let agrees = if ordered {
        same_order(found, &names)
    } else {
        texts_agree(found, &names)
    };
    Ok(status == expected && starts_with(content_type, STREAM) && agrees)
}

/// Whether the answer to a refused log query is the error that the case names.
pub fn accepts_log_error(case: &Json, status: u16, content_type: &str, body: &str) -> (result: Result<
    bool,
    CaseError,
>)
    ensures
        result == (match status_of(*case) {
            None => Err::<bool, CaseError>(CaseError::Missing("case status")),
            Some(expected) => match oracle_cases::text_at(*case, "body_contains") {
                Err(e) => Err(e),
                Ok(part) => match oracle_cases::text_at(*case, "content_type") {
                    Err(e) => Err(e),
                    Ok(kind) => Ok(
                        status == expected && content_type@ == kind && text::occurs_in(
                            body@,
                            part,
                        ),
                    ),
                },
            },
        }),
{
    let expected = match expected_status(case) {
        None => return Err(CaseError::Missing("case status")),
        Some(s) => s,
    };
    let part = match string(case, "body_contains") {
        Ok(t) => t,
        Err(e) => return Err(e),
    };
    let kind = match string(case, "content_type") {
        Ok(t) => t,
        Err(e) => return Err(e),
    };
    Ok(status == expected && same_text(content_type, &kind) && contains_text(body, &part))
}

/// What two lists hold is equal, one after the other.
pub open spec fn same_rows(a: Seq<Tree>, b: Seq<Tree>) -> bool {
    a.len() == b.len() && forall|i: int| 0 <= i < a.len() ==> json::same_trees(#[trigger] a[i], b[i])
}

/// The rows of a statistics query hold what the case expects.
pub open spec fn stats_answer(case: Json, rows: Seq<Tree>, status: u16, content_type: Seq<char>) -> Result<
    bool,
    CaseError,
> {
    match oracle_cases::maybe_list(case, "expected_rows") {
        None => Err(CaseError::Missing("stats case expected_rows")),
        Some(expected) => Ok(
            status == 200 && text::begins_with(content_type, STREAM@) && same_rows(
                rows,
                json::trees(expected),
            ),
        ),
    }
}

proof fn equal_lists_hold_equal(a: Seq<Json>, b: Seq<Json>)
    ensures
        oracle_answers::same_lists(a, b) == same_rows(json::trees(a), json::trees(b)),
{
    let p = json::trees(a);
    let q = json::trees(b);
    assert(p.len() == a.len() && q.len() == b.len());
    if a.len() == b.len() {
        assert forall|i: int| 0 <= i < a.len() implies json::same(#[trigger] a[i], b[i])
            == json::same_trees(p[i], q[i]) by {
            json::equal_values_hold_equal(a[i], b[i]);
        }
        if same_rows(p, q) {
            assert forall|i: int| 0 <= i < a.len() implies json::same(#[trigger] a[i], b[i]) by {
                assert(json::same_trees(p[i], q[i]));
            }
        }
        if oracle_answers::same_lists(a, b) {
            assert forall|i: int| 0 <= i < p.len() implies json::same_trees(#[trigger] p[i], q[i]) by {
                assert(json::same(a[i], b[i]));
            }
        }
    }
}

/// Whether the rows of a statistics query are those that the case expects.
pub fn accepts_log_stats(case: &Json, rows: &Vec<Json>, status: u16, content_type: &str) -> (result:
    Result<bool, CaseError>)
    ensures
        result == stats_answer(*case, json::trees(rows@), status, content_type@),
{
    match find_list(case, "expected_rows") {
        None => Err(CaseError::Missing("stats case expected_rows")),
        Some(expected) => {
            proof {
                equal_lists_hold_equal(rows@, expected@);
            }
            Ok(
                status == 200 && starts_with(content_type, STREAM) && oracle_answers::lists_agree(
                    rows,
                    expected,
                ),
            )
        },
    }
}

/// Whether the answer to a statistics query has the rows that the case expects.
pub fn victorialogs_stats(case: &Json, status: u16, content_type: &str, body: &str) -> (result: Result<
    bool,
    CaseError,
>)
    ensures
        result == (match documents::document_trees(filled(text::lines(body@))) {
            None => Err::<bool, CaseError>(CaseError::Document),
            Some(held) => stats_answer(*case, held, status, content_type@),
        }),
{
    let lines = filled_lines(body);
    match all_documents(&lines) {
        None => Err(CaseError::Document),
        Some(rows) => accepts_log_stats(case, &rows, status, content_type),
    }
}

/// The offset of a row: the one that it names, or its position.
pub open spec fn row_offset(row: Json, position: int) -> Result<int, CaseError> {
    match json::member_of(row, "time_offset_us"@) {
        None => Ok(position),
        Some(v) => match json::whole_of(v) {
            Some(n) => Ok(n as int),
            None => Err(CaseError::Integer("time_offset_us")),
        },
    }
}

/// A sum held to the range of 64 signed bits.
pub open spec fn clamped_sum(a: int, b: int) -> int {
    if a + b < i64::MIN {
        i64::MIN as int
    } else if a + b > i64::MAX {
        i64::MAX as int
    } else {
        a + b
    }
}

/// The time of a fixture row.
pub fn row_time(row: &Json, position: usize, base_us: i64) -> (result: Result<i64, CaseError>)
    requires
        position <= i64::MAX,
    ensures
        result == (if !(*row is Object) {
            Err::<i64, CaseError>(CaseError::NotObject("rows"))
        } else {
            match row_offset(*row, position as int) {
                Ok(by) => Ok(clamped_sum(base_us as int, by) as i64),
                Err(e) => Err(e),
            }
        }),
{
    match row {
        Json::Object(_) => {},
        _ => return Err(CaseError::NotObject("rows")),
    }
    let by: i64 = match member(row, "time_offset_us") {
        None => position as i64,
        Some(v) => match as_whole(v) {
            Some(n) => n,
            None => return Err(CaseError::Integer("time_offset_us")),
        },
    };
    let wide: i128 = base_us as i128 + by as i128;
    if wide < i64::MIN as i128 {
        Ok(i64::MIN)
    } else if wide > i64::MAX as i128 {
        Ok(i64::MAX)
    } else {
        Ok(wide as i64)
    }
}

/// The members of a row but for the offset of its time.
pub open spec fn without_offset(members: Seq<(Seq<char>, Tree)>) -> Seq<(Seq<char>, Tree)>
    decreases members.len(),
{
    if members.len() == 0 {
        Seq::empty()
    } else {
        let rest = without_offset(members.drop_last());
        if members.last().0 == "time_offset_us"@ {
            rest
        } else {
            rest.push(members.last())
        }
    }
}

fn kept_members(members: &Vec<(String, Json)>) -> (kept: Vec<(String, Json)>)
    ensures
        json::member_trees(kept@) == without_offset(json::member_trees(members@)),
{
    let ghost all = json::member_trees(members@);
    let mut kept = json::no_members();
    let mut i: usize = 0;
    assert(all.take(0) =~= Seq::empty());
    while i < members.len()
        invariant
            i <= members@.len(),
            all == json::member_trees(members@),
            json::member_trees(kept@) == without_offset(all.take(i as int)),
        decreases members.len() - i,
    {
        assert(all.take(i + 1).drop_last() =~= all.take(i as int));
        assert(all.take(i + 1).last() == (
            members@[i as int].0@,
            json::tree(members@[i as int].1),
        ));
        if !same_text(&members[i].0, "time_offset_us") {
            json::add_member(&mut kept, &members[i].0, json::copy(&members[i].1));
        }
        i += 1;
    }
    assert(all.take(i as int) =~= all);
    kept
}

/// A row as it is sent: without the offset of its time, and with the time.
pub open spec fn timed(row: Tree, time: i64) -> Tree {
    match row {
        Tree::Object(members) => Tree::Object(
            json::gathered(
                without_offset(members).push(("oracle_time"@, json::tree(json::whole_value(time)))),
            ),
        ),
        _ => row,
    }
}

/// A fixture row as it is sent.
pub fn timed_row(row: &Json, position: usize, base_us: i64) -> (result: Result<Json, CaseError>)
    requires
        position <= i64::MAX,
    ensures
        match result {
            Ok(sent) => *row is Object && (row_offset(*row, position as int) matches Ok(by)
                && json::tree(sent) == timed(
                json::tree(*row),
                clamped_sum(base_us as int, by) as i64,
            )),
            Err(e) => if !(*row is Object) {
                e == CaseError::NotObject("rows")
            } else {
                row_offset(*row, position as int) == Err::<int, CaseError>(e)
            },
        },
{
    let time = match row_time(row, position, base_us) {
        Ok(time) => time,
        Err(e) => return Err(e),
    };
    match row {
        Json::Object(members) => {
            let mut kept = kept_members(members);
            json::add_member(&mut kept, "oracle_time", json::whole(time));
            proof {
                json::object_tree(*members);
            }
            Ok(json::object_of(kept))
        },
        _ => Err(CaseError::NotObject("rows")),
    }
}

/// Whether all rows of the fixture can be read back.
pub fn rows_are_visible(status: u16, body: &str, rows: usize) -> (yes: bool)
    ensures
        yes == (status == 200 && filled(text::lines(body@)).len() == rows),
{
    let list = filled_lines(body);
    assert(text::texts(list@).len() == list@.len());
    status == 200 && list.len() == rows
}

} // verus!
