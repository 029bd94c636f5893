//! What holds of every log case and of every row of the log fixture.
use crate::documents;
use crate::expectation_laws::{is_sample, offsets_are_added, says_time, series_say_what_they_hold};
use crate::json::{self, Json, Tree};
use crate::measurement_laws;
use crate::moments;
use crate::oracle_cases::{self, CaseError};
use crate::oracle_expectations;
use crate::oracle_logs;
use crate::order;
use crate::text;
use vstd::prelude::*;

verus! {

proof fn formats_differ()
    ensures
        "rfc3339"@ != "unix_s"@,
        "rfc3339"@ != "unix_ms"@,
        "rfc3339"@ != "unix_us"@,
        "rfc3339"@ != "unix_ns"@,
        "unix_s"@ != "unix_ms"@,
        "unix_s"@ != "unix_us"@,
        "unix_s"@ != "unix_ns"@,
        "unix_ms"@ != "unix_us"@,
        "unix_ms"@ != "unix_ns"@,
        "unix_us"@ != "unix_ns"@,
{
    reveal_strlit("rfc3339");
    assert("rfc3339"@.len() == 7 && "rfc3339"@[0] == 'r');
    reveal_strlit("unix_s");
    assert("unix_s"@.len() == 6 && "unix_s"@[0] == 'u');
    reveal_strlit("unix_ms");
    assert("unix_ms"@.len() == 7 && "unix_ms"@[0] == 'u');
    reveal_strlit("unix_us");
    assert("unix_us"@.len() == 7 && "unix_us"@[0] == 'u');
    reveal_strlit("unix_ns");
    assert("unix_ns"@.len() == 7 && "unix_ns"@[0] == 'u');
    assert("unix_ms"@[5] != "unix_us"@[5]);
    assert("unix_ms"@[5] != "unix_ns"@[5]);
    assert("unix_us"@[5] != "unix_ns"@[5]);
}

/// A time in a query names the instant in the unit of its format: so many seconds,
/// milliseconds, microseconds or nanoseconds are that many microseconds.
pub proof fn times_name_their_instant(us: int, n: int, rfc3339: Option<Seq<char>>)
    requires
        i64::MIN <= us <= i64::MAX,
    ensures
        n * 1_000_000 == us ==> oracle_logs::time_in("unix_s"@, us, rfc3339) == Ok::<
            Seq<char>,
            CaseError,
        >(text::signed_decimal(n)),
        n * 1_000 == us ==> oracle_logs::time_in("unix_ms"@, us, rfc3339) == Ok::<
            Seq<char>,
            CaseError,
        >(text::signed_decimal(n)),
        n == us ==> oracle_logs::time_in("unix_us"@, us, rfc3339) == Ok::<Seq<char>, CaseError>(
            text::signed_decimal(n),
        ),
        n == us * 1_000 && i64::MIN <= n <= i64::MAX ==> oracle_logs::time_in(
            "unix_ns"@,
            us,
            rfc3339,
        ) == Ok::<Seq<char>, CaseError>(text::signed_decimal(n)),
        oracle_logs::time_in("rfc3339"@, us, rfc3339) == (match rfc3339 {
            Some(t) => Ok::<Seq<char>, CaseError>(t),
            None => Err(CaseError::Time),
        }),
        us % 1_000_000 != 0 ==> oracle_logs::time_in("unix_s"@, us, rfc3339) is Err,
        us % 1_000 != 0 ==> oracle_logs::time_in("unix_ms"@, us, rfc3339) is Err,
{
    formats_differ();
}

/// Marks are replaced from the left: what stands before the first mark stays, and the
/// rest is treated alike.
pub proof fn marks_are_replaced(
    before: Seq<char>,
    mark: Seq<char>,
    after: Seq<char>,
    with: Seq<char>,
)
    requires
        mark.len() > 0,
        forall|i: int|
            0 <= i < before.len() ==> !text::stands_at(
                before + mark + after,
                mark,
                i,
            ),
    ensures
        moments::replaced(before + mark + after, mark, with) == before + with + moments::replaced(
            after,
            mark,
            with,
        ),
    decreases before.len(),
{
    let s = before + mark + after;
    if before.len() == 0 {
        assert(s =~= mark + after);
        assert(s.subrange(0, mark.len() as int) =~= mark);
        assert(s.skip(mark.len() as int) =~= after);
        assert(before + with + moments::replaced(after, mark, with) =~= with + moments::replaced(
            after,
            mark,
            with,
        ));
    } else {
        let rest = before.drop_first();
        assert(!text::stands_at(s, mark, 0));
        assert(s.drop_first() =~= rest + mark + after);
        assert forall|i: int| 0 <= i < rest.len() implies !text::stands_at(
            rest + mark + after,
            mark,
            i,
        ) by {
            assert(!text::stands_at(s, mark, i + 1));
            if text::stands_at(rest + mark + after, mark, i) {
                assert(s.subrange(i + 1, i + 1 + mark.len()) =~= s.drop_first().subrange(
                    i,
                    i + mark.len(),
                ));
            }
        }
        marks_are_replaced(rest, mark, after, with);
        assert(seq![before[0]] + (rest + with + moments::replaced(after, mark, with)) =~= before
            + with + moments::replaced(after, mark, with));
    }
}

/// A text without the mark stays as it is.
pub proof fn unmarked_texts_stay(s: Seq<char>, mark: Seq<char>, with: Seq<char>)
    requires
        !text::occurs_in(s, mark),
    ensures
        moments::replaced(s, mark, with) == s,
    decreases s.len(),
{
    if mark.len() > 0 && s.len() > 0 {
        assert(!text::stands_at(s, mark, 0));
        let rest = s.drop_first();
        if text::occurs_in(rest, mark) {
            let at = choose|at: int| text::stands_at(rest, mark, at);
            assert(s.subrange(at + 1, at + 1 + mark.len()) =~= rest.subrange(at, at + mark.len()));
            assert(text::stands_at(s, mark, at + 1));
        }
        unmarked_texts_stay(rest, mark, with);
        assert(seq![s[0]] + rest =~= s);
    }
}

/// A query is asked as it stands where it names no times; a time whose mark is not in
/// the query is refused.
pub proof fn queries_hold_every_mark(
    query: Seq<char>,
    times: Seq<(String, Json)>,
    base_us: i64,
    n: nat,
)
    requires
        n < times.len(),
    ensures
        oracle_logs::timed_query(query, times, base_us, 0) == Ok::<Seq<char>, CaseError>(query),
        oracle_logs::timed_query(query, times, base_us, n) matches Ok(so_far) ==> !text::occurs_in(
            so_far,
            seq!['{'] + times[n as int].0@ + seq!['}'],
        ) ==> oracle_logs::timed_query(query, times, base_us, n + 1) is Err,
        oracle_logs::timed_query(query, times, base_us, n) is Err ==> oracle_logs::timed_query(
            query,
            times,
            base_us,
            n + 1,
        ) is Err,
{
}

/// An entry of the query times names the base and its offset, in its format.
pub proof fn query_times_are_offsets(entry: Json, base_us: i64)
    ensures
        oracle_logs::entry_time(entry, base_us) matches Ok(written) ==> {
            &&& measurement_laws::whole_at(json::tree(entry), "offset_us"@) matches Some(by)
            &&& json::tree_member(json::tree(entry), "format"@) matches Some(Tree::Text(format))
            &&& format == "unix_us"@ ==> written == text::signed_decimal(base_us + by)
        },
{
    formats_differ();
    measurement_laws::whole_numbers_are_read(entry, "offset_us"@);
    json::member_holds(entry, "format"@);
}

/// The filled lines are exactly the lines that are not blank, in their order.
pub proof fn filled_lines_are_not_blank(lines: Seq<Seq<char>>, line: Seq<char>)
    ensures
        oracle_logs::filled(lines).contains(line) <==> lines.contains(line) && text::trim(
            line,
        ).len() > 0,
        oracle_logs::filled(lines).len() <= lines.len(),
    decreases lines.len(),
{
    if lines.len() > 0 {
        let front = lines.drop_last();
        filled_lines_are_not_blank(front, line);
        let rest = oracle_logs::filled(front);
        let all = oracle_logs::filled(lines);
        if front.contains(line) {
            let i = choose|i: int| 0 <= i < front.len() && front[i] == line;
            assert(lines[i] == line);
        }
        if lines.contains(line) && !front.contains(line) {
            let i = choose|i: int| 0 <= i < lines.len() && lines[i] == line;
            if i < front.len() {
                assert(front[i] == line);
            }
        }
        if rest.contains(line) {
            let i = choose|i: int| 0 <= i < rest.len() && rest[i] == line;
            assert(all[i] == line);
        }
        if all.contains(line) && !rest.contains(line) {
            let i = choose|i: int| 0 <= i < all.len() && all[i] == line;
            if i < rest.len() {
                assert(rest[i] == line);
            }
        }
        if text::trim(lines.last()).len() > 0 {
            assert(all[rest.len() as int] == lines.last());
        }
        assert(lines[lines.len() - 1] == lines.last());
    }
}

/// The named cases are the texts under `case` of the lines, one for each line in order.
pub proof fn every_line_names_its_case(lines: Seq<Seq<char>>)
    ensures
        match oracle_logs::named_cases(lines) {
            Ok(names) => names.len() == lines.len() && forall|i: int|
                0 <= i < lines.len() ==> documents::document_tree(#[trigger] lines[i]) is Some
                    && json::tree_member(
                    documents::document_tree(lines[i])->Some_0,
                    "case"@,
                ) == Some(Tree::Text(names[i])),
            Err(_) => exists|i: int|
                0 <= i < lines.len() && !(documents::document_tree(#[trigger] lines[i]) is Some
                    && json::tree_member(
                    documents::document_tree(lines[i])->Some_0,
                    "case"@,
                ) is Some && json::tree_member(
                    documents::document_tree(lines[i])->Some_0,
                    "case"@,
                )->Some_0 is Text),
        },
    decreases lines.len(),
{
    if lines.len() > 0 {
        let front = lines.drop_last();
        every_line_names_its_case(front);
        assert(lines[lines.len() - 1] == lines.last());
        match oracle_logs::named_cases(front) {
            Ok(before) => match oracle_logs::named_by(lines.last()) {
                Ok(name) => {
                    let names = before.push(name);
                    assert forall|i: int| 0 <= i < lines.len() implies documents::document_tree(
                        #[trigger] lines[i],
                    ) is Some && json::tree_member(
                        documents::document_tree(lines[i])->Some_0,
                        "case"@,
                    ) == Some(Tree::Text(names[i])) by {
                        if i < front.len() {
                            assert(front[i] == lines[i]);
                        }
                    }
                },
                Err(_) => {},
            },
            Err(_) => {
                let i = choose|i: int|
                    0 <= i < front.len() && !(documents::document_tree(
                        #[trigger] front[i],
                    ) is Some && json::tree_member(
                        documents::document_tree(front[i])->Some_0,
                        "case"@,
                    ) is Some && json::tree_member(
                        documents::document_tree(front[i])->Some_0,
                        "case"@,
                    )->Some_0 is Text);
                assert(lines[i] == front[i]);
            },
        }
    }
}

/// The offset of a row is its own, or its place.
pub proof fn rows_are_placed(row: Json, position: int)
    ensures
        match (json::tree_member(json::tree(row), "time_offset_us"@), oracle_logs::row_offset(
            row,
            position,
        )) {
            (None, Ok(by)) => by == position,
            (Some(_), Ok(by)) => measurement_laws::whole_at(
                json::tree(row),
                "time_offset_us"@,
            ) == Some(by),
            (None, Err(_)) => false,
            (Some(_), Err(_)) => measurement_laws::whole_at(
                json::tree(row),
                "time_offset_us"@,
            ) is None,
        },
{
    json::member_holds(row, "time_offset_us"@);
    measurement_laws::whole_numbers_are_read(row, "time_offset_us"@);
}

/// A time that fits is the base and the offset.
pub proof fn row_times_are_added(base: i64, by: i64)
    ensures
        i64::MIN <= base + by <= i64::MAX ==> oracle_logs::clamped_sum(base as int, by as int)
            == base + by,
        i64::MIN <= oracle_logs::clamped_sum(base as int, by as int) <= i64::MAX,
        base + by > i64::MAX ==> oracle_logs::clamped_sum(base as int, by as int) == i64::MAX,
        base + by < i64::MIN ==> oracle_logs::clamped_sum(base as int, by as int) == i64::MIN,
{
}

proof fn kept_members_stay(members: Seq<(Seq<char>, Tree)>, key: Seq<char>)
    ensures
        key != "time_offset_us"@ ==> order::lookup(
            json::gathered(oracle_logs::without_offset(members)),
            key,
        ) == order::lookup(json::gathered(members), key),
        order::lookup(
            json::gathered(oracle_logs::without_offset(members)),
            "time_offset_us"@,
        ) is None,
    decreases members.len(),
{
    if members.len() > 0 {
        let front = members.drop_last();
        let last = members.last();
        kept_members_stay(front, key);
        assert(front.push(last) =~= members);
        json::gathered_member_is_added(front, last, key);
        json::gathered_member_is_added(oracle_logs::without_offset(front), last, key);
        json::gathered_member_is_added(
            oracle_logs::without_offset(front),
            last,
            "time_offset_us"@,
        );
    } else {
        json::nothing_is_gathered("time_offset_us"@);
    }
}

/// A row is sent with its time, without its offset, and with every other member as it
/// was.
pub proof fn sent_rows_carry_their_time(members: Seq<(Seq<char>, Tree)>, time: i64, key: Seq<char>)
    ensures
        ({
            let sent = oracle_logs::timed(Tree::Object(members), time);
            &&& json::tree_member(sent, "oracle_time"@) matches Some(written) && match written {
                Tree::Unsigned(n) => n == time,
                Tree::Negative(n) => n == time && n < 0,
                _ => false,
            }
            &&& json::tree_member(sent, "time_offset_us"@) is None
            &&& key != "oracle_time"@ && key != "time_offset_us"@ ==> json::tree_member(sent, key)
                == order::lookup(json::gathered(members), key)
        }),
{
    reveal_strlit("oracle_time");
    reveal_strlit("time_offset_us");
    assert("oracle_time"@.len() == 11 && "time_offset_us"@.len() == 14);
    let kept = oracle_logs::without_offset(members);
    let stamp = ("oracle_time"@, json::tree(json::whole_value(time)));
    json::gathered_member_is_added(kept, stamp, key);
    json::gathered_member_is_added(kept, stamp, "oracle_time"@);
    json::gathered_member_is_added(kept, stamp, "time_offset_us"@);
    kept_members_stay(members, key);
}

/// A value is the time of an offset.
pub open spec fn says_offset(offset: Json, base: i64, value: Tree) -> bool {
    &&& json::whole_of(offset) matches Some(by)
    &&& says_time(value, base + by)
}

/// A sample stands at an offset.
pub open spec fn is_offset_sample(t: Tree, offset: Json, base: i64, value: Tree) -> bool {
    &&& json::whole_of(offset) matches Some(by)
    &&& is_sample(t, base + by, value)
}

/// The values of an operator case are the times of its offsets, or what it lists.
pub proof fn operator_values_are_listed(case: Json, sample: i64)
    ensures
        match json::member_of(case, "expected_value_offsets_ms"@) {
            Some(Json::Array(offsets)) => match oracle_expectations::listed_values(case, sample) {
                Ok(Some(list)) => list.len() == offsets@.len() && forall|i: int|
                    0 <= i < list.len() ==> says_offset(offsets@[i], sample, #[trigger] list[i]),
                Ok(None) => false,
                Err(_) => true,
            },
            _ => oracle_expectations::listed_values(case, sample) == Ok::<
                Option<Seq<Tree>>,
                CaseError,
            >(
                match json::member_of(case, "expected_values"@) {
                    Some(Json::Array(values)) => Some(json::trees(values@)),
                    _ => None,
                },
            ),
        },
{
    match json::member_of(case, "expected_value_offsets_ms"@) {
        Some(Json::Array(offsets)) => {
            offsets_make_times(offsets@, sample, offsets@.len());
            match oracle_cases::offset_times(offsets@, sample, offsets@.len()) {
                Ok(times) => {
                    let list = oracle_cases::stamps(times);
                    assert forall|i: int| 0 <= i < list.len() implies says_offset(
                        offsets@[i],
                        sample,
                        #[trigger] list[i],
                    ) by {
                        assert(is_offset_time(offsets@[i], sample, times[i]));
                        crate::expectation_laws::times_are_written_in_seconds(times[i]);
                    }
                },
                Err(_) => {},
            }
        },
        _ => {},
    }
}

/// A time is the base and an offset.
pub open spec fn is_offset_time(offset: Json, base: i64, time: int) -> bool {
    &&& json::whole_of(offset) matches Some(by)
    &&& time == base + by
    &&& i64::MIN <= time <= i64::MAX
}

proof fn offsets_make_times(offsets: Seq<Json>, base: i64, n: nat)
    requires
        n <= offsets.len(),
    ensures
        match oracle_cases::offset_times(offsets, base, n) {
            Ok(times) => times.len() == n && forall|i: int|
                0 <= i < n ==> is_offset_time(offsets[i], base, #[trigger] times[i]),
            Err(_) => true,
        },
    decreases n,
{
    if n > 0 {
        offsets_make_times(offsets, base, (n - 1) as nat);
        match oracle_cases::offset_times(offsets, base, n) {
            Ok(times) => {
                let before = oracle_cases::offset_times(offsets, base, (n - 1) as nat)->Ok_0;
                let by = json::whole_of(offsets[n - 1])->Some_0;
                assert(times =~= before.push(base + by));
                assert forall|i: int| 0 <= i < n implies is_offset_time(
                    offsets[i],
                    base,
                    #[trigger] times[i],
                ) by {
                    if i < n - 1 {
                        assert(times[i] == before[i]);
                    }
                }
            },
            Err(_) => {},
        }
    }
}

/// The scalar of an operator case is the time of its offset, or what it names.
pub proof fn operator_scalars_are_named(case: Json, sample: i64)
    ensures
        oracle_expectations::expected_scalar(case, sample) matches Ok(found) ==> match (
            json::tree_member(json::tree(case), "expected_scalar_offset_ms"@),
            json::tree_member(json::tree(case), "expected_scalar"@),
        ) {
            (Some(_), _) => {
                &&& found matches Some(time)
                &&& measurement_laws::whole_at(
                    json::tree(case),
                    "expected_scalar_offset_ms"@,
                ) matches Some(by)
                &&& says_time(time, sample + by)
            },
            (None, named) => found == named,
        },
{
    json::member_holds(case, "expected_scalar_offset_ms"@);
    json::member_holds(case, "expected_scalar"@);
    offsets_are_added(case, "expected_scalar_offset_ms", sample);
    match oracle_cases::moment_at(case, "expected_scalar_offset_ms", sample) {
        Ok(at) => crate::expectation_laws::times_are_written_in_seconds(at as int),
        Err(_) => {},
    }
}

/// A row of a range holds the labels and the values of an expected result, at its
/// offsets or spaced over the range.
pub open spec fn is_range_row(row: Tree, expected: Json, sample: i64, start: i64, end: i64) -> bool {
    &&& json::tree_member(row, "metric"@) == Some(
        match json::tree_member(json::tree(expected), "metric"@) {
            Some(labels) => labels,
            None => Tree::Object(Seq::empty()),
        },
    )
    &&& json::member_of(expected, "values"@) matches Some(Json::Array(values))
    &&& json::tree_member(row, "values"@) matches Some(Tree::Array(list))
    &&& list.len() <= values@.len()
    &&& match json::member_of(expected, "offsets_ms"@) {
        Some(Json::Array(offsets)) => (list.len() == values@.len() || list.len() == offsets@.len())
            && forall|i: int|
            0 <= i < list.len() ==> is_offset_sample(
                #[trigger] list[i],
                offsets@[i],
                sample,
                json::tree(values@[i]),
            ),
        _ => list.len() == values@.len() && forall|i: int|
            0 <= i < list.len() ==> is_sample(
                #[trigger] list[i],
                moments::spaced_at(start as int, end as int, values@.len(), i),
                json::tree(values@[i]),
            ),
    }
}

/// The rows of an operator case over a range are its results.
pub proof fn operator_rows_are_expected(expected: Json, sample: i64, start: i64, end: i64)
    ensures
        oracle_expectations::range_row(expected, sample, start, end) matches Ok(row)
            ==> is_range_row(row, expected, sample, start, end),
{
    match oracle_expectations::range_row(expected, sample, start, end) {
        Ok(row) => {
            reveal_strlit("metric");
            reveal_strlit("values");
            assert("metric"@[0] == 'm' && "values"@[0] == 'v');
            json::member_holds(expected, "metric"@);
            let values = oracle_cases::list_at(expected, "values")->Ok_0;
            let offsets = oracle_cases::maybe_list(expected, "offsets_ms");
            let times = oracle_expectations::series_times(
                offsets,
                sample,
                start,
                end,
                values.len(),
            )->Ok_0;
            match offsets {
                Some(o) => offsets_make_times(o, sample, o.len()),
                None => {
                    assert forall|i: int| 0 <= i < times.len() implies i64::MIN
                        <= #[trigger] times[i] <= i64::MAX by {
                        if values.len() >= 2 {
                            moments::spaced_times_lie_between(
                                start as int,
                                end as int,
                                values.len(),
                                i,
                            );
                        }
                    }
                },
            }
            crate::expectation_laws::samples_are_paired(times, json::trees(values));
            let points = oracle_cases::series_points(times, json::trees(values))->Ok_0;
            series_say_what_they_hold(
                oracle_expectations::own_metric(expected),
                "values"@,
                Tree::Array(points),
            );
            assert forall|i: int| 0 <= i < points.len() implies is_sample(
                #[trigger] points[i],
                times[i],
                json::tree(values[i]),
            ) by {
                assert(json::trees(values)[i] == json::tree(values[i]));
            }
            match offsets {
                Some(o) => {
                    assert forall|i: int| 0 <= i < points.len() implies is_offset_sample(
                        #[trigger] points[i],
                        o[i],
                        sample,
                        json::tree(values[i]),
                    ) by {
                        assert(is_offset_time(o[i], sample, times[i]));
                    }
                },
                None => {
                    assert forall|i: int| 0 <= i < points.len() implies is_sample(
                        #[trigger] points[i],
                        moments::spaced_at(start as int, end as int, values.len(), i),
                        json::tree(values[i]),
                    ) by {
                        assert(times[i] == moments::spaced_at(
                            start as int,
                            end as int,
                            values.len(),
                            i,
                        ));
                    }
                },
            }
        },
        Err(_) => {},
    }
}

/// An operator case over a range expects a row for each of its results.
pub proof fn operator_results_over_a_range(
    case: Json,
    sample: i64,
    start: i64,
    end: i64,
    listed: Option<Seq<Tree>>,
    list: Vec<Json>,
)
    requires
        json::member_of(case, "expected_results"@) == Some(Json::Array(list)),
    ensures
        oracle_expectations::range_results(case, sample, start, end, listed) matches Ok(rows)
            ==> rows.len() == list@.len() && forall|i: int|
            0 <= i < rows.len() ==> is_range_row(#[trigger] rows[i], list@[i], sample, start, end),
{
    rows_are_ranges(list@, sample, start, end, list@.len());
}

proof fn rows_are_ranges(list: Seq<Json>, sample: i64, start: i64, end: i64, n: nat)
    requires
        n <= list.len(),
    ensures
        oracle_expectations::range_rows(list, sample, start, end, n) matches Ok(rows) ==> rows.len()
            == n && forall|i: int|
            0 <= i < n ==> is_range_row(#[trigger] rows[i], list[i], sample, start, end),
    decreases n,
{
    if n > 0 {
        rows_are_ranges(list, sample, start, end, (n - 1) as nat);
        operator_rows_are_expected(list[n - 1], sample, start, end);
        match oracle_expectations::range_rows(list, sample, start, end, n) {
            Ok(rows) => {
                let before = oracle_expectations::range_rows(
                    list,
                    sample,
                    start,
                    end,
                    (n - 1) as nat,
                )->Ok_0;
                assert forall|i: int| 0 <= i < n implies is_range_row(
                    #[trigger] rows[i],
                    list[i],
                    sample,
                    start,
                    end,
                ) by {
                    if i < n - 1 {
                        assert(rows[i] == before[i]);
                    }
                }
            },
            Err(_) => {},
        }
    }
}

} // verus!
