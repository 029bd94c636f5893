//! What holds of everything that an oracle case expects.
use crate::calendar::CalendarError;
use crate::json::{self, Json, Tree};
use crate::measurement_laws;
use crate::moments;
use crate::oracle_cases::{self, CaseError, ExpectationModel};
use crate::oracle_expectations;
use crate::order;
use crate::text;
use vstd::prelude::*;

verus! {

/// A value is a time: in whole seconds where the milliseconds are, else a float.
pub open spec fn says_time(t: Tree, ms: int) -> bool {
    match t {
        Tree::Unsigned(n) => n * 1000 == ms,
        Tree::Negative(n) => n < 0 && n * 1000 == ms,
        Tree::Float(bits, written) => ms % 1000 != 0 && bits == moments::seconds_bits(ms) as u64
            && written == moments::seconds_text(ms),
        _ => false,
    }
}

/// A value in print: a text as it is, a number in decimal notation.
pub open spec fn printed(value: Tree) -> Option<Seq<char>> {
    match value {
        Tree::Text(t) => Some(t),
        Tree::Unsigned(n) => Some(text::decimal(n as nat)),
        Tree::Negative(n) => Some(
            if n < 0 {
                seq!['-'] + text::decimal((-n) as nat)
            } else {
                text::decimal(n as nat)
            },
        ),
        Tree::Float(_, written) => Some(written),
        _ => None,
    }
}

/// A sample is a pair of a time and of a value in print.
pub open spec fn is_sample(t: Tree, ms: int, value: Tree) -> bool {
    &&& t matches Tree::Array(pair)
    &&& pair.len() == 2
    &&& says_time(pair[0], ms)
    &&& pair[1] matches Tree::Text(shown)
    &&& printed(value) == Some(shown)
}

/// Times of the machine are written in seconds.
pub proof fn times_are_written_in_seconds(ms: int)
    requires
        i64::MIN <= ms <= i64::MAX,
    ensures
        says_time(moments::timestamp_tree(ms), ms),
{
}

/// The time that an offset names is the base and the offset, as long as it fits.
pub proof fn offsets_are_added(case: Json, name: &'static str, base: i64)
    ensures
        match (
            measurement_laws::whole_at(json::tree(case), name@),
            oracle_cases::moment_at(case, name, base),
        ) {
            (Some(by), Ok(at)) => at == base + by,
            (Some(by), Err(e)) => e == CaseError::Time && !(i64::MIN <= base + by <= i64::MAX),
            (None, Err(e)) => e == CaseError::Integer(name),
            (None, Ok(_)) => false,
        },
{
    measurement_laws::whole_numbers_are_read(case, name@);
}

/// Samples pair the times with the values, one after the other, as long as there are
/// both.
pub proof fn samples_are_paired(times: Seq<int>, values: Seq<Tree>)
    requires
        forall|i: int| 0 <= i < times.len() ==> i64::MIN <= #[trigger] times[i] <= i64::MAX,
    ensures
        match oracle_cases::series_points(times, values) {
            Ok(list) => {
                &&& list.len() <= times.len() && list.len() <= values.len()
                &&& list.len() == times.len() || list.len() == values.len()
                &&& forall|i: int|
                    0 <= i < list.len() ==> is_sample(#[trigger] list[i], times[i], values[i])
            },
            Err(e) => e == CaseError::NotScalar && exists|i: int|
                0 <= i < values.len() && printed(#[trigger] values[i]) is None,
        },
{
    points_are_paired(
        times,
        values,
        if times.len() < values.len() {
            times.len()
        } else {
            values.len()
        },
    );
}

proof fn points_are_paired(times: Seq<int>, values: Seq<Tree>, n: nat)
    requires
        n <= times.len(),
        n <= values.len(),
        forall|i: int| 0 <= i < times.len() ==> i64::MIN <= #[trigger] times[i] <= i64::MAX,
    ensures
        match oracle_cases::points(times, values, n) {
            Ok(list) => list.len() == n && forall|i: int|
                0 <= i < n ==> is_sample(#[trigger] list[i], times[i], values[i]),
            Err(e) => e == CaseError::NotScalar && exists|i: int|
                0 <= i < n && printed(#[trigger] values[i]) is None,
        },
    decreases n,
{
    if n > 0 {
        points_are_paired(times, values, (n - 1) as nat);
        let at = times[n - 1];
        let value = values[n - 1];
        times_are_written_in_seconds(at);
        match oracle_cases::points(times, values, (n - 1) as nat) {
            Ok(before) => match oracle_cases::point(at, value) {
                Ok(p) => {
                    assert(is_sample(p, at, value));
                    let list = before.push(p);
                    assert forall|i: int| 0 <= i < n implies is_sample(
                        #[trigger] list[i],
                        times[i],
                        values[i],
                    ) by {
                        if i < n - 1 {
                            assert(list[i] == before[i]);
                        }
                    }
                },
                Err(_) => {
                    assert(printed(values[n - 1]) is None);
                },
            },
            Err(_) => {},
        }
    }
}

/// Evenly spaced times fit where their bounds do.
proof fn spaced_times_fit(start: int, end: int, count: nat)
    requires
        i64::MIN <= start <= i64::MAX,
        i64::MIN <= end <= i64::MAX,
    ensures
        forall|i: int|
            0 <= i < count ==> i64::MIN <= #[trigger] moments::spaced(start, end, count)[i]
                <= i64::MAX,
{
    assert forall|i: int| 0 <= i < count implies i64::MIN <= #[trigger] moments::spaced(
        start,
        end,
        count,
    )[i] <= i64::MAX by {
        if count >= 2 {
            moments::spaced_times_lie_between(start, end, count, i);
        }
    }
}

/// Times are evenly spaced: a time is as far from the start as its share of the whole
/// range, but for less than a millisecond.
pub proof fn times_are_evenly_spaced(start: int, end: int, count: nat, index: int)
    requires
        count >= 2,
        0 <= index < count,
        start <= end,
    ensures
        ({
            let passed = moments::spaced_at(start, end, count, index) - start;
            (count - 1) * passed <= index * (end - start) < (count - 1) * (passed + 1)
        }),
{
    let a = index * (end - start);
    let b = count - 1;
    assert(a >= 0) by (nonlinear_arith)
        requires
            a == index * (end - start),
            index >= 0,
            end >= start,
    ;
    vstd::arithmetic::div_mod::lemma_fundamental_div_mod(a, b);
    vstd::arithmetic::div_mod::lemma_mod_bound(a, b);
    assert(b * (a / b + 1) == b * (a / b) + b) by (nonlinear_arith);
}

proof fn series_keys_differ()
    ensures
        "metric"@ != "values"@,
        "metric"@ != "value"@,
        "values"@ != "value"@,
{
    reveal_strlit("metric");
    assert("metric"@.len() == 6 && "metric"@[0] == 'm');
    reveal_strlit("values");
    assert("values"@.len() == 6 && "values"@[0] == 'v');
    reveal_strlit("value");
    assert("value"@.len() == 5 && "value"@[0] == 'v');
}

proof fn param_keys_differ()
    ensures
        "end"@ != "lookback_delta"@,
        "end"@ != "max_lookback"@,
        "end"@ != "query"@,
        "end"@ != "start"@,
        "end"@ != "step"@,
        "end"@ != "time"@,
        "lookback_delta"@ != "max_lookback"@,
        "lookback_delta"@ != "query"@,
        "lookback_delta"@ != "start"@,
        "lookback_delta"@ != "step"@,
        "lookback_delta"@ != "time"@,
        "max_lookback"@ != "query"@,
        "max_lookback"@ != "start"@,
        "max_lookback"@ != "step"@,
        "max_lookback"@ != "time"@,
        "query"@ != "start"@,
        "query"@ != "step"@,
        "query"@ != "time"@,
        "start"@ != "step"@,
        "start"@ != "time"@,
        "step"@ != "time"@,
{
    reveal_strlit("end");
    assert("end"@.len() == 3 && "end"@[0] == 'e');
    reveal_strlit("lookback_delta");
    assert("lookback_delta"@.len() == 14 && "lookback_delta"@[0] == 'l');
    reveal_strlit("max_lookback");
    assert("max_lookback"@.len() == 12 && "max_lookback"@[0] == 'm');
    reveal_strlit("query");
    assert("query"@.len() == 5 && "query"@[0] == 'q');
    reveal_strlit("start");
    assert("start"@.len() == 5 && "start"@[0] == 's');
    reveal_strlit("step");
    assert("step"@.len() == 4 && "step"@[0] == 's');
    reveal_strlit("time");
    assert("time"@.len() == 4 && "time"@[0] == 't');
}

/// What a series says: its labels, and its samples under a key.
pub proof fn series_say_what_they_hold(metric: Tree, key: Seq<char>, value: Tree)
    requires
        key != "metric"@,
    ensures
        json::tree_member(oracle_cases::series(metric, key, value), "metric"@) == Some(metric),
        json::tree_member(oracle_cases::series(metric, key, value), key) == Some(value),
{
    reveal_with_fuel(order::lookup, 3);
    let members = seq![("metric"@, metric), (key, value)];
    assert(members.drop_first() =~= seq![(key, value)]);
}

proof fn lookup_of_sums(a: Seq<(Seq<char>, Tree)>, b: Seq<(Seq<char>, Tree)>, key: Seq<char>)
    ensures
        order::lookup(a + b, key) == (match order::lookup(a, key) {
            Some(v) => Some(v),
            None => order::lookup(b, key),
        }),
    decreases a.len(),
{
    if a.len() == 0 {
        assert(a + b =~= b);
    } else {
        assert((a + b).drop_first() =~= a.drop_first() + b);
        lookup_of_sums(a.drop_first(), b, key);
    }
}

proof fn lookup_of_one(k: Seq<char>, v: Tree, key: Seq<char>)
    ensures
        order::lookup(seq![(k, v)], key) == (if k == key {
            Some(v)
        } else {
            None
        }),
{
    reveal_with_fuel(order::lookup, 2);
}

/// The text of a parameter that may be missing.
pub open spec fn maybe_text(value: Option<Seq<char>>) -> Option<Tree> {
    match value {
        Some(t) => Some(Tree::Text(t)),
        None => None,
    }
}

proof fn lookup_of_optional(k: Seq<char>, v: Option<Seq<char>>, key: Seq<char>)
    ensures
        order::lookup(oracle_cases::optional_param(k, v), key) == (if k == key {
            maybe_text(v)
        } else {
            None
        }),
{
    match v {
        Some(t) => lookup_of_one(k, Tree::Text(t), key),
        None => {},
    }
}

/// A query over a range asks each thing under its own name.
pub proof fn range_queries_ask_by_name(
    query: Seq<char>,
    start: Tree,
    end: Tree,
    step: Seq<char>,
    lookback: Option<Seq<char>>,
    longest: Option<Seq<char>>,
)
    ensures
        ({
            let params = oracle_cases::range_params(query, start, end, step, lookback, longest);
            &&& order::lookup(params, "query"@) == Some(Tree::Text(query))
            &&& order::lookup(params, "start"@) == Some(start)
            &&& order::lookup(params, "end"@) == Some(end)
            &&& order::lookup(params, "step"@) == Some(Tree::Text(step))
            &&& order::lookup(params, "lookback_delta"@) == maybe_text(lookback)
            &&& order::lookup(params, "max_lookback"@) == maybe_text(longest)
        }),
{
    param_keys_differ();
    let a = seq![("end"@, end)];
    let b = oracle_cases::optional_param("lookback_delta"@, lookback);
    let c = oracle_cases::optional_param("max_lookback"@, longest);
    let d = seq![("query"@, Tree::Text(query)), ("start"@, start), ("step"@, Tree::Text(step))];
    assert(d =~= seq![("query"@, Tree::Text(query))] + seq![("start"@, start)] + seq![
        ("step"@, Tree::Text(step)),
    ]);
    let q = seq![("query"@, Tree::Text(query))];
    let s = seq![("start"@, start)];
    let t = seq![("step"@, Tree::Text(step))];
    assert forall|key: Seq<char>| order::lookup(
        oracle_cases::range_params(query, start, end, step, lookback, longest),
        key,
    ) == #[trigger] range_lookup(query, start, end, step, lookback, longest, key) by {
        lookup_of_sums(a + b + c, d, key);
        lookup_of_sums(a + b, c, key);
        lookup_of_sums(a, b, key);
        lookup_of_sums(q + s, t, key);
        lookup_of_sums(q, s, key);
        lookup_of_one("end"@, end, key);
        lookup_of_one("query"@, Tree::Text(query), key);
        lookup_of_one("start"@, start, key);
        lookup_of_one("step"@, Tree::Text(step), key);
        lookup_of_optional("lookback_delta"@, lookback, key);
        lookup_of_optional("max_lookback"@, longest, key);
    }
    assert(range_lookup(query, start, end, step, lookback, longest, "query"@) == Some(
        Tree::Text(query),
    ));
    assert(range_lookup(query, start, end, step, lookback, longest, "start"@) == Some(start));
    assert(range_lookup(query, start, end, step, lookback, longest, "end"@) == Some(end));
    assert(range_lookup(query, start, end, step, lookback, longest, "step"@) == Some(
        Tree::Text(step),
    ));
    assert(range_lookup(query, start, end, step, lookback, longest, "lookback_delta"@)
        == maybe_text(lookback));
    assert(range_lookup(query, start, end, step, lookback, longest, "max_lookback"@) == maybe_text(
        longest,
    ));
}

spec fn range_lookup(
    query: Seq<char>,
    start: Tree,
    end: Tree,
    step: Seq<char>,
    lookback: Option<Seq<char>>,
    longest: Option<Seq<char>>,
    key: Seq<char>,
) -> Option<Tree> {
    if key == "end"@ {
        Some(end)
    } else if key == "lookback_delta"@ {
        maybe_text(lookback)
    } else if key == "max_lookback"@ {
        maybe_text(longest)
    } else if key == "query"@ {
        Some(Tree::Text(query))
    } else if key == "start"@ {
        Some(start)
    } else if key == "step"@ {
        Some(Tree::Text(step))
    } else {
        None
    }
}

/// A query at a time asks each thing under its own name.
pub proof fn instant_queries_ask_by_name(
    query: Seq<char>,
    time: Tree,
    step: Option<Seq<char>>,
    lookback: Option<Seq<char>>,
    longest: Option<Seq<char>>,
)
    ensures
        ({
            let params = oracle_cases::instant_params(query, time, step, lookback, longest);
            &&& order::lookup(params, "query"@) == Some(Tree::Text(query))
            &&& order::lookup(params, "time"@) == Some(time)
            &&& order::lookup(params, "step"@) == maybe_text(step)
            &&& order::lookup(params, "lookback_delta"@) == maybe_text(lookback)
            &&& order::lookup(params, "max_lookback"@) == maybe_text(longest)
        }),
{
    param_keys_differ();
    let a = oracle_cases::optional_param("lookback_delta"@, lookback);
    let b = oracle_cases::optional_param("max_lookback"@, longest);
    let c = seq![("query"@, Tree::Text(query))];
    let d = oracle_cases::optional_param("step"@, step);
    let e = seq![("time"@, time)];
    assert forall|key: Seq<char>| order::lookup(
        oracle_cases::instant_params(query, time, step, lookback, longest),
        key,
    ) == #[trigger] instant_lookup(query, time, step, lookback, longest, key) by {
        lookup_of_sums(a + b + c + d, e, key);
        lookup_of_sums(a + b + c, d, key);
        lookup_of_sums(a + b, c, key);
        lookup_of_sums(a, b, key);
        lookup_of_one("query"@, Tree::Text(query), key);
        lookup_of_one("time"@, time, key);
        lookup_of_optional("lookback_delta"@, lookback, key);
        lookup_of_optional("max_lookback"@, longest, key);
        lookup_of_optional("step"@, step, key);
    }
    assert(instant_lookup(query, time, step, lookback, longest, "query"@) == Some(
        Tree::Text(query),
    ));
    assert(instant_lookup(query, time, step, lookback, longest, "time"@) == Some(time));
    assert(instant_lookup(query, time, step, lookback, longest, "step"@) == maybe_text(step));
    assert(instant_lookup(query, time, step, lookback, longest, "lookback_delta"@) == maybe_text(
        lookback,
    ));
    assert(instant_lookup(query, time, step, lookback, longest, "max_lookback"@) == maybe_text(
        longest,
    ));
}

spec fn instant_lookup(
    query: Seq<char>,
    time: Tree,
    step: Option<Seq<char>>,
    lookback: Option<Seq<char>>,
    longest: Option<Seq<char>>,
    key: Seq<char>,
) -> Option<Tree> {
    if key == "lookback_delta"@ {
        maybe_text(lookback)
    } else if key == "max_lookback"@ {
        maybe_text(longest)
    } else if key == "query"@ {
        Some(Tree::Text(query))
    } else if key == "step"@ {
        maybe_text(step)
    } else if key == "time"@ {
        Some(time)
    } else {
        None
    }
}

/// An expectation over a range: the query, the bounds and the step are asked, and one
/// series of these labels comes back whose samples are the values, evenly spaced over
/// the range.
pub open spec fn expects_over_range(
    x: ExpectationModel,
    query: Seq<char>,
    range: Json,
    sample: i64,
    values: Seq<Json>,
    metric: Tree,
) -> bool {
    &&& x.endpoint == "/api/v1/query_range"
    &&& x.result_type == "matrix"
    &&& order::lookup(x.params, "query"@) == Some(Tree::Text(query))
    &&& order::lookup(x.params, "step"@) == json::tree_member(json::tree(range), "step"@)
    &&& order::lookup(x.params, "step"@) is Some
    &&& measurement_laws::whole_at(json::tree(range), "start_offset_ms"@) matches Some(from)
    &&& measurement_laws::whole_at(json::tree(range), "end_offset_ms"@) matches Some(to)
    &&& order::lookup(x.params, "start"@) matches Some(start) && says_time(start, sample + from)
    &&& order::lookup(x.params, "end"@) matches Some(end) && says_time(end, sample + to)
    &&& x.result.len() == 1
    &&& json::tree_member(x.result[0], "metric"@) == Some(metric)
    &&& json::tree_member(x.result[0], "values"@) matches Some(Tree::Array(list))
    &&& list.len() == values.len()
    &&& forall|i: int|
        0 <= i < list.len() ==> is_sample(
            #[trigger] list[i],
            moments::spaced_at(sample + from, sample + to, values.len(), i),
            json::tree(values[i]),
        )
}

/// An expectation at a time: the query and the time are asked, and one series of these
/// labels comes back with the value at that time.
pub open spec fn expects_at(
    x: ExpectationModel,
    query: Seq<char>,
    ms: int,
    value: Tree,
    metric: Tree,
) -> bool {
    &&& x.endpoint == "/api/v1/query"
    &&& x.result_type == "vector"
    &&& order::lookup(x.params, "query"@) == Some(Tree::Text(query))
    &&& order::lookup(x.params, "time"@) matches Some(time) && says_time(time, ms)
    &&& x.result.len() == 1
    &&& json::tree_member(x.result[0], "metric"@) == Some(metric)
    &&& json::tree_member(x.result[0], "value"@) matches Some(found) && is_sample(
        found,
        ms,
        value,
    )
}

/// A range is asked for and answered at the times and with the values that the case
/// names.
pub proof fn ranges_are_expected(
    case: Json,
    range: Json,
    sample: i64,
    query: Seq<char>,
    expected: Seq<Json>,
    metric: Tree,
)
    ensures
        oracle_expectations::spaced_series(case, range, sample, query, expected, metric) matches Ok(
            x,
        ) ==> expects_over_range(x, query, range, sample, expected, metric),
{
    match oracle_expectations::spaced_series(case, range, sample, query, expected, metric) {
        Ok(x) => {
            series_keys_differ();
            offsets_are_added(range, "start_offset_ms", sample);
            offsets_are_added(range, "end_offset_ms", sample);
            let (start, end) = oracle_cases::range_of(range, sample)->Ok_0;
            let step = oracle_cases::text_at(range, "step")->Ok_0;
            json::member_holds(range, "step"@);
            times_are_written_in_seconds(start as int);
            times_are_written_in_seconds(end as int);
            range_queries_ask_by_name(
                query,
                moments::timestamp_tree(start as int),
                moments::timestamp_tree(end as int),
                step,
                None,
                None,
            );
            let times = moments::spaced(start as int, end as int, expected.len());
            spaced_times_fit(start as int, end as int, expected.len());
            samples_are_paired(times, json::trees(expected));
            let points = oracle_cases::series_points(times, json::trees(expected))->Ok_0;
            series_say_what_they_hold(metric, "values"@, Tree::Array(points));
            assert forall|i: int| 0 <= i < points.len() implies is_sample(
                #[trigger] points[i],
                moments::spaced_at(start as int, end as int, expected.len(), i),
                json::tree(expected[i]),
            ) by {
                assert(times[i] == moments::spaced_at(start as int, end as int, expected.len(), i));
                assert(json::trees(expected)[i] == json::tree(expected[i]));
            }
        },
        Err(_) => {},
    }
}

/// A time is asked for and answered with the first value that the case names.
pub proof fn instants_are_expected(
    case: Json,
    evaluation: i64,
    query: Seq<char>,
    expected: Seq<Json>,
    metric: Tree,
)
    ensures
        oracle_expectations::one_sample(case, evaluation, query, expected, metric) matches Ok(x)
            ==> expected.len() > 0 && expects_at(
            x,
            query,
            evaluation as int,
            json::tree(expected[0]),
            metric,
        ),
        oracle_expectations::one_sample(case, evaluation, query, expected, metric) is Err
            ==> expected.len() == 0 || printed(json::tree(expected[0])) is None,
{
    series_keys_differ();
    times_are_written_in_seconds(evaluation as int);
    instant_queries_ask_by_name(
        query,
        moments::timestamp_tree(evaluation as int),
        None,
        None,
        None,
    );
    if expected.len() > 0 {
        match oracle_cases::point(evaluation as int, json::tree(expected[0])) {
            Ok(p) => series_say_what_they_hold(metric, "value"@, p),
            Err(_) => {},
        }
    }
}

/// The labels of the fixture with a name, and without.
pub proof fn fixture_labels_are_found(name: Seq<char>)
    ensures
        json::tree_member(oracle_cases::named_metric(name), "__name__"@) == Some(Tree::Text(name)),
        json::tree_member(oracle_cases::named_metric(name), "job"@) == Some(Tree::Text("oracle"@)),
        json::tree_member(oracle_cases::job_metric(), "job"@) == Some(Tree::Text("oracle"@)),
        json::tree_member(oracle_cases::job_metric(), "__name__"@) is None,
{
    reveal_strlit("__name__");
    reveal_strlit("job");
    assert("__name__"@.len() == 8 && "job"@.len() == 3);
    reveal_with_fuel(order::lookup, 3);
    let members = seq![("__name__"@, Tree::Text(name)), ("job"@, Tree::Text("oracle"@))];
    assert(members.drop_first() =~= seq![("job"@, Tree::Text("oracle"@))]);
}

/// A temporal case expects its values under the name of the temporal series: spaced
/// over its range, or at its evaluation time.
pub proof fn temporal_cases_expect_their_values(case: Json, sample: i64)
    ensures
        oracle_expectations::temporal_of(case, sample) matches Ok(x) ==> {
            &&& oracle_cases::expression_of(case, sample) matches Ok(query)
            &&& json::member_of(case, "expected_values"@) matches Some(Json::Array(values))
            &&& match json::member_of(case, "range"@) {
                Some(Json::Object(range)) => expects_over_range(
                    x,
                    query,
                    Json::Object(range),
                    sample,
                    values@,
                    oracle_cases::named_metric("oracle_temporal"@),
                ),
                _ => measurement_laws::whole_at(
                    json::tree(case),
                    "evaluation_offset_ms"@,
                ) matches Some(by) && values@.len() > 0 && expects_at(
                    x,
                    query,
                    sample + by,
                    json::tree(values@[0]),
                    oracle_cases::named_metric("oracle_temporal"@),
                ),
            }
        },
{
    match oracle_expectations::temporal_of(case, sample) {
        Ok(x) => {
            let query = oracle_cases::expression_of(case, sample)->Ok_0;
            let values = oracle_cases::list_at(case, "expected_values")->Ok_0;
            let metric = oracle_cases::named_metric("oracle_temporal"@);
            offsets_are_added(case, "evaluation_offset_ms", sample);
            match oracle_cases::maybe_object(case, "range") {
                Some(range) => ranges_are_expected(case, range, sample, query, values, metric),
                None => instants_are_expected(
                    case,
                    oracle_cases::moment_at(case, "evaluation_offset_ms", sample)->Ok_0,
                    query,
                    values,
                    metric,
                ),
            }
        },
        Err(_) => {},
    }
}

/// A subquery case expects its values without a name: spaced over its range, or at its
/// evaluation time; or it expects the samples of its matrix, each at its offset.
pub proof fn subquery_cases_expect_their_values(case: Json, sample: i64)
    ensures
        oracle_expectations::subquery_of(case, sample) matches Ok(x) ==> {
            &&& oracle_cases::expression_of(case, sample) matches Ok(query)
            &&& measurement_laws::whole_at(json::tree(case), "evaluation_offset_ms"@) matches Some(
                by,
            )
            &&& match (json::member_of(case, "range"@), json::member_of(case, "expected_matrix"@)) {
                (Some(Json::Object(range)), _) => json::member_of(
                    case,
                    "expected_values"@,
                ) matches Some(Json::Array(values)) && expects_over_range(
                    x,
                    query,
                    Json::Object(range),
                    sample,
                    values@,
                    oracle_cases::job_metric(),
                ),
                (_, Some(Json::Array(matrix))) => expects_matrix(
                    x,
                    query,
                    sample + by,
                    sample,
                    matrix@,
                    if json::member_of(case, "drop_metric_name"@) == Some(Json::Bool(true)) {
                        oracle_cases::job_metric()
                    } else {
                        oracle_cases::named_metric("oracle_temporal"@)
                    },
                ),
                _ => json::member_of(case, "expected_values"@) matches Some(Json::Array(values))
                    && values@.len() > 0 && expects_at(
                    x,
                    query,
                    sample + by,
                    json::tree(values@[0]),
                    oracle_cases::job_metric(),
                ),
            }
        },
{
    match oracle_expectations::subquery_of(case, sample) {
        Ok(x) => {
            let query = oracle_cases::expression_of(case, sample)->Ok_0;
            offsets_are_added(case, "evaluation_offset_ms", sample);
            let evaluation = oracle_cases::moment_at(case, "evaluation_offset_ms", sample)->Ok_0;
            match oracle_cases::maybe_object(case, "range") {
                Some(range) => ranges_are_expected(
                    case,
                    range,
                    sample,
                    query,
                    oracle_cases::list_at(case, "expected_values")->Ok_0,
                    oracle_cases::job_metric(),
                ),
                None => match oracle_cases::maybe_list(case, "expected_matrix") {
                    Some(matrix) => matrices_are_expected(case, sample, evaluation, query, matrix),
                    None => instants_are_expected(
                        case,
                        evaluation,
                        query,
                        oracle_cases::list_at(case, "expected_values")->Ok_0,
                        oracle_cases::job_metric(),
                    ),
                },
            }
        },
        Err(_) => {},
    }
}

/// A pair of a matrix is an offset and a value, and a sample is what stands there.
pub open spec fn is_matrix_sample(t: Tree, pair: Json, sample: i64) -> bool {
    &&& pair matches Json::Array(list)
    &&& list@.len() >= 2
    &&& json::whole_of(list@[0]) matches Some(by)
    &&& is_sample(t, sample + by, json::tree(list@[1]))
}

/// An expectation of a matrix at a time: one series of these labels whose samples are
/// those of the pairs.
pub open spec fn expects_matrix(
    x: ExpectationModel,
    query: Seq<char>,
    ms: int,
    sample: i64,
    matrix: Seq<Json>,
    metric: Tree,
) -> bool {
    &&& x.endpoint == "/api/v1/query"
    &&& x.result_type == "matrix"
    &&& order::lookup(x.params, "query"@) == Some(Tree::Text(query))
    &&& order::lookup(x.params, "time"@) matches Some(time) && says_time(time, ms)
    &&& x.result.len() == 1
    &&& json::tree_member(x.result[0], "metric"@) == Some(metric)
    &&& json::tree_member(x.result[0], "values"@) matches Some(Tree::Array(list))
    &&& list.len() == matrix.len()
    &&& forall|i: int|
        0 <= i < list.len() ==> is_matrix_sample(#[trigger] list[i], matrix[i], sample)
}

proof fn matrix_samples(list: Seq<Json>, sample: i64, n: nat)
    requires
        n <= list.len(),
    ensures
        oracle_expectations::matrix_points(list, sample, n) matches Ok(points) ==> points.len() == n
            && forall|i: int|
            0 <= i < n ==> is_matrix_sample(#[trigger] points[i], list[i], sample),
    decreases n,
{
    if n > 0 {
        matrix_samples(list, sample, (n - 1) as nat);
        match oracle_expectations::matrix_points(list, sample, n) {
            Ok(points) => {
                let before = oracle_expectations::matrix_points(
                    list,
                    sample,
                    (n - 1) as nat,
                )->Ok_0;
                let pair = json::items_of(list[n - 1])->Some_0;
                let by = json::whole_of(pair[0])->Some_0;
                times_are_written_in_seconds(sample + by);
                assert forall|i: int| 0 <= i < n implies is_matrix_sample(
                    #[trigger] points[i],
                    list[i],
                    sample,
                ) by {
                    if i < n - 1 {
                        assert(points[i] == before[i]);
                    }
                }
            },
            Err(_) => {},
        }
    }
}

/// A matrix is expected as the case lists it.
pub proof fn matrices_are_expected(
    case: Json,
    sample: i64,
    evaluation: i64,
    query: Seq<char>,
    matrix: Seq<Json>,
)
    ensures
        oracle_expectations::listed_matrix(case, sample, evaluation, query, matrix) matches Ok(x)
            ==> expects_matrix(
            x,
            query,
            evaluation as int,
            sample,
            matrix,
            if json::member_of(case, "drop_metric_name"@) == Some(Json::Bool(true)) {
                oracle_cases::job_metric()
            } else {
                oracle_cases::named_metric("oracle_temporal"@)
            },
        ),
{
    series_keys_differ();
    times_are_written_in_seconds(evaluation as int);
    instant_queries_ask_by_name(
        query,
        moments::timestamp_tree(evaluation as int),
        None,
        None,
        None,
    );
    matrix_samples(matrix, sample, matrix.len());
    match oracle_expectations::matrix_points(matrix, sample, matrix.len()) {
        Ok(points) => series_say_what_they_hold(
            oracle_expectations::matrix_metric(case),
            "values"@,
            Tree::Array(points),
        ),
        Err(_) => {},
    }
}

/// A lookback case asks for the lookback series at its evaluation time with its
/// lookback, and expects the sample of the fixture exactly where it names one result.
pub proof fn lookback_cases_expect_the_sample(case: Json, sample: i64)
    ensures
        oracle_expectations::lookback_of(case, sample) matches Ok((x, count)) ==> {
            &&& json::tree_member(json::tree(case), "expected_result_count"@) == Some(
                Tree::Unsigned(count),
            )
            &&& measurement_laws::whole_at(json::tree(case), "evaluation_offset_ms"@) matches Some(
                by,
            )
            &&& order::lookup(x.params, "time"@) matches Some(time) && says_time(time, sample + by)
            &&& order::lookup(x.params, "query"@) == Some(Tree::Text("oracle_lookback"@))
            &&& order::lookup(x.params, "lookback_delta"@) == json::tree_member(
                json::tree(case),
                "lookback_delta"@,
            )
            &&& order::lookup(x.params, "lookback_delta"@) is Some
            &&& count != 1 ==> x.result.len() == 0
            &&& count == 1 ==> expects_at(
                x,
                "oracle_lookback"@,
                sample + by,
                Tree::Unsigned(7),
                oracle_cases::named_metric("oracle_lookback"@),
            )
        },
{
    match oracle_expectations::lookback_of(case, sample) {
        Ok((x, count)) => {
            series_keys_differ();
            offsets_are_added(case, "evaluation_offset_ms", sample);
            json::member_holds(case, "expected_result_count"@);
            json::member_holds(case, "lookback_delta"@);
            let evaluation = oracle_cases::moment_at(case, "evaluation_offset_ms", sample)->Ok_0;
            times_are_written_in_seconds(evaluation as int);
            let lookback = oracle_cases::text_at(case, "lookback_delta")->Ok_0;
            instant_queries_ask_by_name(
                "oracle_lookback"@,
                moments::timestamp_tree(evaluation as int),
                None,
                Some(lookback),
                None,
            );
            reveal_strlit("7");
            assert(text::decimal(7) =~= seq!['7']);
            assert("7"@ =~= seq!['7']);
            series_say_what_they_hold(
                oracle_cases::named_metric("oracle_lookback"@),
                "value"@,
                Tree::Array(
                    seq![moments::timestamp_tree(evaluation as int), Tree::Text("7"@)],
                ),
            );
        },
        Err(_) => {},
    }
}

/// A range case of VictoriaMetrics expects its values under its own labels.
pub proof fn victoriametrics_cases_expect_their_values(case: Json, sample: i64)
    ensures
        oracle_expectations::victoriametrics_of(case, sample) matches Ok(x) ==> {
            &&& json::tree_member(json::tree(case), "query"@) matches Some(Tree::Text(query))
            &&& json::member_of(case, "range"@) matches Some(Json::Object(range))
            &&& json::member_of(case, "expected_values"@) matches Some(Json::Array(values))
            &&& expects_over_range(
                x,
                query,
                Json::Object(range),
                sample,
                values@,
                match json::tree_member(json::tree(case), "expected_metric"@) {
                    Some(labels) => labels,
                    None => Tree::Object(Seq::empty()),
                },
            )
        },
{
    match oracle_expectations::victoriametrics_of(case, sample) {
        Ok(x) => {
            json::member_holds(case, "query"@);
            json::member_holds(case, "expected_metric"@);
            ranges_are_expected(
                case,
                oracle_cases::maybe_object(case, "range")->Some_0,
                sample,
                oracle_cases::text_at(case, "query")->Ok_0,
                oracle_cases::list_at(case, "expected_values")->Ok_0,
                oracle_expectations::case_metric(case),
            );
        },
        Err(_) => {},
    }
}

/// A calendar field takes the place of the values that a case lists.
pub proof fn calendar_fields_replace_the_values(
    name: Option<Seq<char>>,
    field: Result<int, CalendarError>,
    listed: Option<Seq<Tree>>,
)
    requires
        field matches Ok(n) ==> i64::MIN <= n <= i64::MAX,
    ensures
        name is None ==> oracle_expectations::with_calendar(name, field, listed) == Ok::<
            Option<Seq<Tree>>,
            CaseError,
        >(listed),
        name is Some ==> match (field, oracle_expectations::with_calendar(name, field, listed)) {
            (Ok(n), Ok(Some(values))) => values.len() == 1 && match values[0] {
                Tree::Unsigned(m) => m == n,
                Tree::Negative(m) => m == n && n < 0,
                _ => false,
            },
            (Err(e), Err(CaseError::Calendar(f))) => e == f,
            _ => false,
        },
{
}

/// An operator case at a time: nothing where it expects nothing, a scalar where it
/// names one, else a vector of its results or of its first value.
pub proof fn operator_results_at_a_time(
    case: Json,
    evaluation: i64,
    listed: Option<Seq<Tree>>,
    scalar: Option<Tree>,
)
    ensures
        oracle_expectations::instant_results(case, evaluation, listed, scalar) matches Ok(
            (kind, result),
        ) ==> {
            if json::member_of(case, "expected_empty"@) == Some(Json::Bool(true)) {
                kind == "vector" && result.len() == 0
            } else if scalar is Some {
                &&& kind == "scalar"
                &&& result.len() == 2
                &&& says_time(result[0], evaluation as int)
                &&& result[1] matches Tree::Text(shown)
                &&& printed(scalar->Some_0) == Some(shown)
            } else {
                match json::member_of(case, "expected_results"@) {
                    Some(Json::Array(list)) => kind == "vector" && result.len() == list@.len()
                        && forall|i: int|
                        0 <= i < result.len() ==> is_instant_row(
                            #[trigger] result[i],
                            list@[i],
                            evaluation as int,
                        ),
                    _ => {
                        &&& kind == "vector"
                        &&& listed matches Some(values)
                        &&& values.len() > 0
                        &&& result.len() == 1
                        &&& json::tree_member(result[0], "value"@) matches Some(found)
                        &&& is_sample(found, evaluation as int, values[0])
                        &&& json::tree_member(result[0], "metric"@) == Some(
                            oracle_expectations::metric_of(case),
                        )
                    },
                }
            }
        },
{
    series_keys_differ();
    times_are_written_in_seconds(evaluation as int);
    match json::member_of(case, "expected_results"@) {
        Some(Json::Array(list)) => instant_rows_hold(list@, evaluation, list@.len()),
        _ => match listed {
            Some(values) => {
                if values.len() > 0 {
                    match oracle_cases::point(evaluation as int, values[0]) {
                        Ok(p) => series_say_what_they_hold(
                            oracle_expectations::metric_of(case),
                            "value"@,
                            p,
                        ),
                        Err(_) => {},
                    }
                }
            },
            None => {},
        },
    }
}

/// A row holds the labels and the value of an expected result.
pub open spec fn is_instant_row(row: Tree, expected: Json, ms: int) -> bool {
    &&& json::tree_member(row, "metric"@) == Some(
        match json::tree_member(json::tree(expected), "metric"@) {
            Some(labels) => labels,
            None => Tree::Object(Seq::empty()),
        },
    )
    &&& json::tree_member(json::tree(expected), "value"@) matches Some(value)
    &&& json::tree_member(row, "value"@) matches Some(found)
    &&& is_sample(found, ms, value)
}

proof fn instant_rows_hold(list: Seq<Json>, evaluation: i64, n: nat)
    requires
        n <= list.len(),
    ensures
        oracle_expectations::instant_rows(list, evaluation, n) matches Ok(rows) ==> rows.len() == n
            && forall|i: int|
            0 <= i < n ==> is_instant_row(#[trigger] rows[i], list[i], evaluation as int),
    decreases n,
{
    if n > 0 {
        instant_rows_hold(list, evaluation, (n - 1) as nat);
        match oracle_expectations::instant_rows(list, evaluation, n) {
            Ok(rows) => {
                series_keys_differ();
                let before = oracle_expectations::instant_rows(
                    list,
                    evaluation,
                    (n - 1) as nat,
                )->Ok_0;
                let expected = list[n - 1];
                json::member_holds(expected, "value"@);
                json::member_holds(expected, "metric"@);
                times_are_written_in_seconds(evaluation as int);
                let value = json::member_of(expected, "value"@)->Some_0;
                let p = oracle_cases::point(evaluation as int, json::tree(value))->Ok_0;
                series_say_what_they_hold(
                    oracle_expectations::own_metric(expected),
                    "value"@,
                    p,
                );
                assert(is_instant_row(rows[n - 1], list[n - 1], evaluation as int));
                assert forall|i: int| 0 <= i < n implies is_instant_row(
                    #[trigger] rows[i],
                    list[i],
                    evaluation as int,
                ) by {
                    if i < n - 1 {
                        assert(rows[i] == before[i]);
                    }
                }
            },
            Err(_) => {},
        }
    }
}

/// The labels of an operator case: its own, or those of the fixture, without the name
/// where it drops it or lists results.
pub proof fn operator_labels(case: Json)
    ensures
        match json::tree_member(json::tree(case), "expected_metric"@) {
            Some(labels) => oracle_expectations::metric_of(case) == labels,
            None => json::tree_member(oracle_expectations::metric_of(case), "job"@) == Some(
                Tree::Text("oracle"@),
            ) && (json::tree_member(oracle_expectations::metric_of(case), "__name__"@) == (
            if json::tree_member(json::tree(case), "expected_results"@) is Some
                || json::tree_member(json::tree(case), "drop_metric_name"@) == Some(
                Tree::Bool(true),
            ) {
                None
            } else {
                Some(Tree::Text("oracle_temporal"@))
            })),
        },
{
    json::member_holds(case, "expected_metric"@);
    json::member_holds(case, "expected_results"@);
    json::member_holds(case, "drop_metric_name"@);
    match json::member_of(case, "drop_metric_name"@) {
        Some(Json::Array(list)) => json::array_tree(list),
        Some(Json::Object(list)) => json::object_tree(list),
        _ => {},
    }
    fixture_labels_are_found("oracle_temporal"@);
}

/// An operator case asks its query at its evaluation time, or over its range, with the
/// step and the lookbacks that it names.
pub proof fn operator_cases_ask_their_query(
    case: Json,
    sample: i64,
    evaluation: i64,
    field: Result<int, CalendarError>,
)
    ensures
        oracle_expectations::operator_of(case, sample, evaluation, field) matches Ok(x) ==> {
            &&& oracle_cases::expression_of(case, sample) matches Ok(query)
            &&& order::lookup(x.params, "query"@) == Some(Tree::Text(query))
            &&& order::lookup(x.params, "lookback_delta"@) == json::tree_member(
                json::tree(case),
                "lookback_delta"@,
            )
            &&& order::lookup(x.params, "max_lookback"@) == json::tree_member(
                json::tree(case),
                "max_lookback"@,
            )
            &&& match json::member_of(case, "range"@) {
                Some(Json::Object(range)) => {
                    &&& x.endpoint == "/api/v1/query_range"
                    &&& x.result_type == "matrix"
                    &&& order::lookup(x.params, "step"@) == json::tree_member(
                        json::tree(Json::Object(range)),
                        "step"@,
                    )
                    &&& measurement_laws::whole_at(
                        json::tree(Json::Object(range)),
                        "start_offset_ms"@,
                    ) matches Some(from)
                    &&& measurement_laws::whole_at(
                        json::tree(Json::Object(range)),
                        "end_offset_ms"@,
                    ) matches Some(to)
                    &&& order::lookup(x.params, "start"@) matches Some(start)
                    &&& says_time(start, sample + from)
                    &&& order::lookup(x.params, "end"@) matches Some(end)
                    &&& says_time(end, sample + to)
                },
                _ => {
                    &&& x.endpoint == "/api/v1/query"
                    &&& order::lookup(x.params, "step"@) == json::tree_member(
                        json::tree(case),
                        "step"@,
                    )
                    &&& order::lookup(x.params, "time"@) matches Some(time)
                    &&& says_time(time, evaluation as int)
                },
            }
        },
{
    match oracle_expectations::operator_of(case, sample, evaluation, field) {
        Ok(x) => {
            let query = oracle_cases::expression_of(case, sample)->Ok_0;
            json::member_holds(case, "lookback_delta"@);
            json::member_holds(case, "max_lookback"@);
            json::member_holds(case, "step"@);
            let lookback = oracle_cases::optional_text(case, "lookback_delta")->Ok_0;
            let longest = oracle_cases::optional_text(case, "max_lookback")->Ok_0;
            match oracle_cases::maybe_object(case, "range") {
                Some(range) => {
                    offsets_are_added(range, "start_offset_ms", sample);
                    offsets_are_added(range, "end_offset_ms", sample);
                    json::member_holds(range, "step"@);
                    let (start, end) = oracle_cases::range_of(range, sample)->Ok_0;
                    times_are_written_in_seconds(start as int);
                    times_are_written_in_seconds(end as int);
                    range_queries_ask_by_name(
                        query,
                        moments::timestamp_tree(start as int),
                        moments::timestamp_tree(end as int),
                        oracle_cases::text_at(range, "step")->Ok_0,
                        lookback,
                        longest,
                    );
                },
                None => {
                    times_are_written_in_seconds(evaluation as int);
                    instant_queries_ask_by_name(
                        query,
                        moments::timestamp_tree(evaluation as int),
                        oracle_cases::optional_text(case, "step")->Ok_0,
                        lookback,
                        longest,
                    );
                },
            }
        },
        Err(_) => {},
    }
}

} // verus!
