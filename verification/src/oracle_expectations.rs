//! What each kind of oracle case expects of the answer.
use crate::calendar::{self, calendar_value, CalendarError};
use crate::json::{self, as_unsigned, as_whole, copied, copy, member, whole, Json, Tree};
use crate::moments::{self, evenly_spaced, timestamp};
use crate::oracle_cases::{
    self, at_instant, bounds, contains_key, expression, find_list, find_object, is_set, job_only,
    listed, moment, named, one_value, optional_string, over_range, point_of, points_of, shift,
    stamps_of, string, times_of, two_members, two_values, value_string, values, CaseError,
    Expectation, ExpectationModel,
};
use vstd::prelude::*;
use vstd::string::*;

verus! {

/// The endpoint of a query at a time.
pub const QUERY: &'static str = "/api/v1/query";

/// The endpoint of a query over a range.
pub const QUERY_RANGE: &'static str = "/api/v1/query_range";

/// The values that a case lists, or the times that it names in their place.
pub open spec fn listed_values(case: Json, sample: i64) -> Result<Option<Seq<Tree>>, CaseError> {
    match oracle_cases::maybe_list(case, "expected_value_offsets_ms") {
        Some(offsets) => match oracle_cases::offset_times(offsets, sample, offsets.len()) {
            Ok(times) => Ok(Some(oracle_cases::stamps(times))),
            Err(e) => Err(e),
        },
        None => match oracle_cases::maybe_list(case, "expected_values") {
            Some(list) => Ok(Some(json::trees(list))),
            None => Ok(None),
        },
    }
}

/// Optional values by what they hold.
pub open spec fn optional_trees(list: Option<Vec<Json>>) -> Option<Seq<Tree>> {
    match list {
        Some(l) => Some(json::trees(l@)),
        None => None,
    }
}

/// An optional list of values, as a result.
pub open spec fn optional_trees_result(r: Result<Option<Vec<Json>>, CaseError>) -> Result<
    Option<Seq<Tree>>,
    CaseError,
> {
    match r {
        Ok(list) => Ok(optional_trees(list)),
        Err(e) => Err(e),
    }
}

pub(crate) fn copies(list: &Vec<Json>) -> (result: Vec<Json>)
    ensures
        json::trees(result@) == json::trees(list@),
{
    let mut result: Vec<Json> = Vec::new();
    let mut i: usize = 0;
    while i < list.len()
        invariant
            i <= list@.len(),
            json::trees(result@) =~= json::trees(list@).take(i as int),
        decreases list.len() - i,
    {
        let ghost before = json::trees(result@);
        let one = copy(&list[i]);
        result.push(one);
        assert(json::trees(result@) =~= before.push(json::tree(one)));
        i += 1;
    }
    assert(json::trees(list@).take(i as int) =~= json::trees(list@));
    result
}

fn find_values(case: &Json, sample: i64) -> (result: Result<Option<Vec<Json>>, CaseError>)
    ensures
        optional_trees_result(result) == listed_values(*case, sample),
{
    match find_list(case, "expected_value_offsets_ms") {
        Some(offsets) => {
            let times = match times_of(offsets, sample) {
                Ok(t) => t,
                Err(e) => return Err(e),
            };
            Ok(Some(stamps_of(&times)))
        },
        None => match find_list(case, "expected_values") {
            Some(list) => Ok(Some(copies(list))),
            None => Ok(None),
        },
    }
}

/// The scalar that a case expects, or the time that it names in its place.
pub open spec fn expected_scalar(case: Json, sample: i64) -> Result<Option<Tree>, CaseError> {
    if oracle_cases::has_key(case, "expected_scalar_offset_ms") {
        match oracle_cases::moment_at(case, "expected_scalar_offset_ms", sample) {
            Ok(at) => Ok(Some(moments::timestamp_tree(at as int))),
            Err(e) => Err(e),
        }
    } else {
        match json::member_of(case, "expected_scalar"@) {
            Some(v) => Ok(Some(json::tree(v))),
            None => Ok(None),
        }
    }
}

/// An optional value by what it holds.
pub open spec fn optional_tree(v: Option<Json>) -> Option<Tree> {
    match v {
        Some(v) => Some(json::tree(v)),
        None => None,
    }
}

fn find_scalar(case: &Json, sample: i64) -> (result: Result<Option<Json>, CaseError>)
    ensures
        match result {
            Ok(v) => expected_scalar(*case, sample) == Ok::<Option<Tree>, CaseError>(
                optional_tree(v),
            ),
            Err(e) => expected_scalar(*case, sample) == Err::<Option<Tree>, CaseError>(e),
        },
{
    if contains_key(case, "expected_scalar_offset_ms") {
        let at = match moment(case, "expected_scalar_offset_ms", sample) {
            Ok(t) => t,
            Err(e) => return Err(e),
        };
        Ok(Some(timestamp(at)))
    } else {
        match member(case, "expected_scalar") {
            Some(v) => Ok(Some(copy(v))),
            None => Ok(None),
        }
    }
}

/// The calendar field that a case names, if it names one.
pub open spec fn calendar_name(case: Json) -> Option<Seq<char>> {
    match json::member_of(case, "expected_calendar_at_evaluation"@) {
        Some(v) => json::text_of(v),
        None => None,
    }
}

/// The values of a case, where a calendar field takes the place of others. The
/// field's value is given.
pub open spec fn with_calendar(
    name: Option<Seq<char>>,
    field: Result<int, CalendarError>,
    listed: Option<Seq<Tree>>,
) -> Result<Option<Seq<Tree>>, CaseError> {
    match name {
        Some(_) => match field {
            Ok(n) => Ok(Some(seq![moments::whole_tree(n)])),
            Err(e) => Err(CaseError::Calendar(e)),
        },
        None => Ok(listed),
    }
}

/// A field as a number.
pub open spec fn field_number(field: Result<i64, CalendarError>) -> Result<int, CalendarError> {
    match field {
        Ok(n) => Ok(n as int),
        Err(e) => Err(e),
    }
}

fn replace_by_calendar(
    case: &Json,
    field: Result<i64, CalendarError>,
    listed: Option<Vec<Json>>,
) -> (result: Result<Option<Vec<Json>>, CaseError>)
    ensures
        optional_trees_result(result) == with_calendar(
            calendar_name(*case),
            field_number(field),
            optional_trees(listed),
        ),
{
    match member(case, "expected_calendar_at_evaluation") {
        Some(Json::Text(_)) => match field {
            Ok(n) => Ok(Some(one_value(whole(n)))),
            Err(e) => Err(CaseError::Calendar(e)),
        },
        _ => Ok(listed),
    }
}

/// The labels that a case expects: its own, or those of the fixture, with the
/// name unless the query drops it.
pub open spec fn metric_of(case: Json) -> Tree {
    match json::member_of(case, "expected_metric"@) {
        Some(m) => json::tree(m),
        None => if oracle_cases::has_key(case, "expected_results") || oracle_cases::flag(
            case,
            "drop_metric_name",
        ) {
            oracle_cases::job_metric()
        } else {
            oracle_cases::named_metric("oracle_temporal"@)
        },
    }
}

fn metric(case: &Json) -> (result: Json)
    ensures
        json::tree(result) == metric_of(*case),
{
    match member(case, "expected_metric") {
        Some(m) => copy(m),
        None => if contains_key(case, "expected_results") || is_set(case, "drop_metric_name") {
            job_only()
        } else {
            named("oracle_temporal")
        },
    }
}

/// The labels of an expected result; none where it has none.
pub open spec fn own_metric(expected: Json) -> Tree {
    match json::member_of(expected, "metric"@) {
        Some(m) => json::tree(m),
        None => Tree::Object(Seq::empty()),
    }
}

fn find_metric(expected: &Json) -> (result: Json)
    ensures
        json::tree(result) == own_metric(*expected),
{
    match member(expected, "metric") {
        Some(m) => copy(m),
        None => {
            let list: Vec<(String, Json)> = Vec::new();
            proof {
                json::object_tree(list);
                assert(json::member_trees(list@) =~= Seq::empty());
            }
            Json::Object(list)
        },
    }
}

/// The times of a series: those that offsets name, or times spaced evenly over
/// the range.
pub open spec fn series_times(
    offsets: Option<Seq<Json>>,
    sample: i64,
    start: i64,
    end: i64,
    count: nat,
) -> Result<Seq<int>, CaseError> {
    match offsets {
        Some(o) => oracle_cases::offset_times(o, sample, o.len()),
        None => Ok(moments::spaced(start as int, end as int, count)),
    }
}

fn find_times(
    offsets: Option<&Vec<Json>>,
    sample: i64,
    start: i64,
    end: i64,
    count: usize,
) -> (result: Result<Vec<i64>, CaseError>)
    ensures
        oracle_cases::times_result(result) == series_times(
            match offsets {
                Some(o) => Some(o@),
                None => None,
            },
            sample,
            start,
            end,
            count as nat,
        ),
{
    match offsets {
        Some(o) => times_of(o, sample),
        None => Ok(evenly_spaced(start, end, count)),
    }
}

/// An expected series over a range.
pub open spec fn range_row(expected: Json, sample: i64, start: i64, end: i64) -> Result<
    Tree,
    CaseError,
> {
    if !(expected is Object) {
        Err(CaseError::NotObject("expected result"))
    } else {
        match oracle_cases::list_at(expected, "values") {
            Ok(list) => match series_times(
                oracle_cases::maybe_list(expected, "offsets_ms"),
                sample,
                start,
                end,
                list.len(),
            ) {
                Ok(times) => match oracle_cases::series_points(times, json::trees(list)) {
                    Ok(points) => Ok(
                        oracle_cases::series(
                            own_metric(expected),
                            "values"@,
                            Tree::Array(points),
                        ),
                    ),
                    Err(e) => Err(e),
                },
                Err(e) => Err(e),
            },
            Err(e) => Err(e),
        }
    }
}

fn is_object(value: &Json) -> (yes: bool)
    ensures
        yes == (*value is Object),
{
    match value {
        Json::Object(_) => true,
        _ => false,
    }
}

fn range_row_of(expected: &Json, sample: i64, start: i64, end: i64) -> (result: Result<
    Json,
    CaseError,
>)
    ensures
        oracle_cases::tree_result(result) == range_row(*expected, sample, start, end),
{
    if !is_object(expected) {
        return Err(CaseError::NotObject("expected result"));
    }
    let list = match values(expected, "values") {
        Ok(l) => l,
        Err(e) => return Err(e),
    };
    let times = match find_times(
        find_list(expected, "offsets_ms"),
        sample,
        start,
        end,
        list.len(),
    ) {
        Ok(t) => t,
        Err(e) => return Err(e),
    };
    match points_of(&times, list) {
        Ok(points) => Ok(
            two_members("metric", find_metric(expected), "values", listed(points)),
        ),
        Err(e) => Err(e),
    }
}

/// The first `n` expected series over a range.
pub open spec fn range_rows(list: Seq<Json>, sample: i64, start: i64, end: i64, n: nat) -> Result<
    Seq<Tree>,
    CaseError,
>
    decreases n,
{
    if n == 0 {
        Ok(Seq::empty())
    } else {
        match range_rows(list, sample, start, end, (n - 1) as nat) {
            Ok(rows) => match range_row(list[n - 1], sample, start, end) {
                Ok(row) => Ok(rows.push(row)),
                Err(e) => Err(e),
            },
            Err(e) => Err(e),
        }
    }
}

proof fn range_row_errors_persist(
    list: Seq<Json>,
    sample: i64,
    start: i64,
    end: i64,
    k: nat,
    n: nat,
)
    requires
        k <= n,
        range_rows(list, sample, start, end, k) is Err,
    ensures
        range_rows(list, sample, start, end, n) == range_rows(list, sample, start, end, k),
    decreases n - k,
{
    if k < n {
        range_row_errors_persist(list, sample, start, end, k, (n - 1) as nat);
    }
}

fn range_rows_of(list: &Vec<Json>, sample: i64, start: i64, end: i64) -> (result: Result<
    Vec<Json>,
    CaseError,
>)
    ensures
        oracle_cases::trees_result(result) == range_rows(
            list@,
            sample,
            start,
            end,
            list@.len(),
        ),
{
    let mut rows: Vec<Json> = Vec::new();
    let mut i: usize = 0;
    assert(json::trees(rows@) =~= Seq::empty());
    while i < list.len()
        invariant
            i <= list@.len(),
            range_rows(list@, sample, start, end, i as nat) == Ok::<Seq<Tree>, CaseError>(
                json::trees(rows@),
            ),
        decreases list.len() - i,
    {
        match range_row_of(&list[i], sample, start, end) {
            Ok(row) => {
                let ghost before = json::trees(rows@);
                rows.push(row);
                assert(json::trees(rows@) =~= before.push(json::tree(row)));
            },
            Err(e) => {
                proof {
                    range_row_errors_persist(
                        list@,
                        sample,
                        start,
                        end,
                        (i + 1) as nat,
                        list@.len(),
                    );
                }
                return Err(e);
            },
        }
        i += 1;
    }
    Ok(rows)
}

/// The series that a case over a range expects.
pub open spec fn range_results(
    case: Json,
    sample: i64,
    start: i64,
    end: i64,
    listed: Option<Seq<Tree>>,
) -> Result<Seq<Tree>, CaseError> {
    match oracle_cases::maybe_list(case, "expected_results") {
        Some(list) => range_rows(list, sample, start, end, list.len()),
        None => match listed {
            None => Err(CaseError::Missing("expected_values")),
            Some(expected) => match series_times(
                oracle_cases::maybe_list(case, "expected_offsets_ms"),
                sample,
                start,
                end,
                expected.len(),
            ) {
                Ok(times) => match oracle_cases::series_points(times, expected) {
                    Ok(points) => Ok(
                        seq![
                            oracle_cases::series(metric_of(case), "values"@, Tree::Array(points)),
                        ],
                    ),
                    Err(e) => Err(e),
                },
                Err(e) => Err(e),
            },
        },
    }
}

fn range_results_of(
    case: &Json,
    sample: i64,
    start: i64,
    end: i64,
    expected: Option<Vec<Json>>,
) -> (result: Result<Vec<Json>, CaseError>)
    ensures
        oracle_cases::trees_result(result) == range_results(
            *case,
            sample,
            start,
            end,
            optional_trees(expected),
        ),
{
    match find_list(case, "expected_results") {
        Some(list) => range_rows_of(list, sample, start, end),
        None => match expected {
            None => Err(CaseError::Missing("expected_values")),
            Some(expected) => {
                assert(json::trees(expected@).len() == expected@.len());
                let times = match find_times(
                    find_list(case, "expected_offsets_ms"),
                    sample,
                    start,
                    end,
                    expected.len(),
                ) {
                    Ok(t) => t,
                    Err(e) => return Err(e),
                };
                match points_of(&times, &expected) {
                    Ok(points) => Ok(
                        one_value(two_members("metric", metric(case), "values", listed(points))),
                    ),
                    Err(e) => Err(e),
                }
            },
        },
    }
}

/// What an operator case over a range asks and expects.
pub open spec fn operator_over_range(
    case: Json,
    range: Json,
    sample: i64,
    query: Seq<char>,
    listed: Option<Seq<Tree>>,
) -> Result<ExpectationModel, CaseError> {
    match oracle_cases::range_of(range, sample) {
        Err(e) => Err(e),
        Ok((start, end)) => match oracle_cases::text_at(range, "step") {
            Err(e) => Err(e),
            Ok(step) => match oracle_cases::optional_text(case, "lookback_delta") {
                Err(e) => Err(e),
                Ok(lookback) => match oracle_cases::optional_text(case, "max_lookback") {
                    Err(e) => Err(e),
                    Ok(longest) => match range_results(case, sample, start, end, listed) {
                        Err(e) => Err(e),
                        Ok(result) => Ok(
                            ExpectationModel {
                                endpoint: QUERY_RANGE,
                                params: oracle_cases::range_params(
                                    query,
                                    moments::timestamp_tree(start as int),
                                    moments::timestamp_tree(end as int),
                                    step,
                                    lookback,
                                    longest,
                                ),
                                result_type: "matrix",
                                result,
                            },
                        ),
                    },
                },
            },
        },
    }
}

fn expect_over_range(
    case: &Json,
    range: &Json,
    sample: i64,
    query: String,
    expected: Option<Vec<Json>>,
) -> (result: Result<Expectation, CaseError>)
    ensures
        oracle_cases::expectation_result(result) == operator_over_range(
            *case,
            *range,
            sample,
            query@,
            optional_trees(expected),
        ),
{
    let (start, end) = match bounds(range, sample) {
        Ok(b) => b,
        Err(e) => return Err(e),
    };
    let from = timestamp(start);
    let to = timestamp(end);
    let step = match string(range, "step") {
        Ok(v) => v,
        Err(e) => return Err(e),
    };
    let lookback = match optional_string(case, "lookback_delta") {
        Ok(v) => v,
        Err(e) => return Err(e),
    };
    let longest = match optional_string(case, "max_lookback") {
        Ok(v) => v,
        Err(e) => return Err(e),
    };
    match range_results_of(case, sample, start, end, expected) {
        Ok(result) => Ok(
            Expectation {
                endpoint: QUERY_RANGE,
                params: over_range(query, from, to, step, lookback, longest),
                result_type: "matrix",
                result,
            },
        ),
        Err(e) => Err(e),
    }
}

/// An expected sample at a time.
pub open spec fn instant_row(expected: Json, evaluation: i64) -> Result<Tree, CaseError> {
    if !(expected is Object) {
        Err(CaseError::NotObject("expected result"))
    } else {
        match json::member_of(expected, "value"@) {
            None => Err(CaseError::Missing("expected value")),
            Some(v) => match oracle_cases::point(evaluation as int, json::tree(v)) {
                Ok(p) => Ok(oracle_cases::series(own_metric(expected), "value"@, p)),
                Err(e) => Err(e),
            },
        }
    }
}

fn instant_row_of(expected: &Json, evaluation: i64) -> (result: Result<Json, CaseError>)
    ensures
        oracle_cases::tree_result(result) == instant_row(*expected, evaluation),
{
    if !is_object(expected) {
        return Err(CaseError::NotObject("expected result"));
    }
    match member(expected, "value") {
        None => Err(CaseError::Missing("expected value")),
        Some(v) => match point_of(evaluation, v) {
            Ok(p) => Ok(two_members("metric", find_metric(expected), "value", p)),
            Err(e) => Err(e),
        },
    }
}

/// The first `n` expected samples at a time.
pub open spec fn instant_rows(list: Seq<Json>, evaluation: i64, n: nat) -> Result<
    Seq<Tree>,
    CaseError,
>
    decreases n,
{
    if n == 0 {
        Ok(Seq::empty())
    } else {
        match instant_rows(list, evaluation, (n - 1) as nat) {
            Ok(rows) => match instant_row(list[n - 1], evaluation) {
                Ok(row) => Ok(rows.push(row)),
                Err(e) => Err(e),
            },
            Err(e) => Err(e),
        }
    }
}

proof fn instant_row_errors_persist(list: Seq<Json>, evaluation: i64, k: nat, n: nat)
    requires
        k <= n,
        instant_rows(list, evaluation, k) is Err,
    ensures
        instant_rows(list, evaluation, n) == instant_rows(list, evaluation, k),
    decreases n - k,
{
    if k < n {
        instant_row_errors_persist(list, evaluation, k, (n - 1) as nat);
    }
}

fn instant_rows_of(list: &Vec<Json>, evaluation: i64) -> (result: Result<Vec<Json>, CaseError>)
    ensures
        oracle_cases::trees_result(result) == instant_rows(list@, evaluation, list@.len()),
{
    let mut rows: Vec<Json> = Vec::new();
    let mut i: usize = 0;
    assert(json::trees(rows@) =~= Seq::empty());
    while i < list.len()
        invariant
            i <= list@.len(),
            instant_rows(list@, evaluation, i as nat) == Ok::<Seq<Tree>, CaseError>(
                json::trees(rows@),
            ),
        decreases list.len() - i,
    {
        match instant_row_of(&list[i], evaluation) {
            Ok(row) => {
                let ghost before = json::trees(rows@);
                rows.push(row);
                assert(json::trees(rows@) =~= before.push(json::tree(row)));
            },
            Err(e) => {
                proof {
                    instant_row_errors_persist(list@, evaluation, (i + 1) as nat, list@.len());
                }
                return Err(e);
            },
        }
        i += 1;
    }
    Ok(rows)
}

/// The type and the result that a case at a time expects.
pub open spec fn instant_results(
    case: Json,
    evaluation: i64,
    listed: Option<Seq<Tree>>,
    scalar: Option<Tree>,
) -> Result<(&'static str, Seq<Tree>), CaseError> {
    if oracle_cases::flag(case, "expected_empty") {
        Ok(("vector", Seq::empty()))
    } else {
        match scalar {
            Some(value) => match oracle_cases::scalar_text(value) {
                Ok(s) => Ok(
                    ("scalar", seq![moments::timestamp_tree(evaluation as int), Tree::Text(s)]),
                ),
                Err(e) => Err(e),
            },
            None => match oracle_cases::maybe_list(case, "expected_results") {
                Some(list) => match instant_rows(list, evaluation, list.len()) {
                    Ok(rows) => Ok(("vector", rows)),
                    Err(e) => Err(e),
                },
                None => match listed {
                    None => Err(CaseError::Missing("expected_values")),
                    Some(expected) => if expected.len() == 0 {
                        Err(CaseError::Empty)
                    } else {
                        match oracle_cases::point(evaluation as int, expected[0]) {
                            Ok(p) => Ok(
                                (
                                    "vector",
                                    seq![oracle_cases::series(metric_of(case), "value"@, p)],
                                ),
                            ),
                            Err(e) => Err(e),
                        }
                    },
                },
            },
        }
    }
}

/// A typed result by what it holds.
pub open spec fn typed_result(r: Result<(&'static str, Vec<Json>), CaseError>) -> Result<
    (&'static str, Seq<Tree>),
    CaseError,
> {
    match r {
        Ok((kind, list)) => Ok((kind, json::trees(list@))),
        Err(e) => Err(e),
    }
}

fn instant_results_of(
    case: &Json,
    evaluation: i64,
    expected: Option<Vec<Json>>,
    scalar: Option<Json>,
) -> (result: Result<(&'static str, Vec<Json>), CaseError>)
    ensures
        typed_result(result) == instant_results(
            *case,
            evaluation,
            optional_trees(expected),
            optional_tree(scalar),
        ),
{
    if is_set(case, "expected_empty") {
        let none: Vec<Json> = Vec::new();
        assert(json::trees(none@) =~= Seq::empty());
        return Ok(("vector", none));
    }
    match scalar {
        Some(value) => {
            let t = timestamp(evaluation);
            match value_string(&value) {
                Ok(s) => {
                    let mut list: Vec<Json> = Vec::new();
                    list.push(t);
                    list.push(Json::Text(s));
                    assert(json::trees(list@) =~= seq![json::tree(t), Tree::Text(s@)]);
                    Ok(("scalar", list))
                },
                Err(e) => Err(e),
            }
        },
        None => match find_list(case, "expected_results") {
            Some(list) => match instant_rows_of(list, evaluation) {
                Ok(rows) => Ok(("vector", rows)),
                Err(e) => Err(e),
            },
            None => match expected {
                None => Err(CaseError::Missing("expected_values")),
                Some(expected) => {
                    assert(json::trees(expected@).len() == expected@.len());
                    if expected.len() == 0 {
                        return Err(CaseError::Empty);
                    }
                    assert(json::trees(expected@)[0] == json::tree(expected@[0]));
                    match point_of(evaluation, &expected[0]) {
                        Ok(p) => Ok(
                            ("vector", one_value(two_members("metric", metric(case), "value", p))),
                        ),
                        Err(e) => Err(e),
                    }
                },
            },
        },
    }
}

/// What an operator case at a time asks and expects.
pub open spec fn operator_at_instant(
    case: Json,
    evaluation: i64,
    query: Seq<char>,
    listed: Option<Seq<Tree>>,
    scalar: Option<Tree>,
) -> Result<ExpectationModel, CaseError> {
    match oracle_cases::optional_text(case, "step") {
        Err(e) => Err(e),
        Ok(step) => match oracle_cases::optional_text(case, "lookback_delta") {
            Err(e) => Err(e),
            Ok(lookback) => match oracle_cases::optional_text(case, "max_lookback") {
                Err(e) => Err(e),
                Ok(longest) => match instant_results(case, evaluation, listed, scalar) {
                    Err(e) => Err(e),
                    Ok((kind, result)) => Ok(
                        ExpectationModel {
                            endpoint: QUERY,
                            params: oracle_cases::instant_params(
                                query,
                                moments::timestamp_tree(evaluation as int),
                                step,
                                lookback,
                                longest,
                            ),
                            result_type: kind,
                            result,
                        },
                    ),
                },
            },
        },
    }
}

fn expect_at_instant(
    case: &Json,
    evaluation: i64,
    query: String,
    expected: Option<Vec<Json>>,
    scalar: Option<Json>,
) -> (result: Result<Expectation, CaseError>)
    ensures
        oracle_cases::expectation_result(result) == operator_at_instant(
            *case,
            evaluation,
            query@,
            optional_trees(expected),
            optional_tree(scalar),
        ),
{
    let time = timestamp(evaluation);
    let step = match optional_string(case, "step") {
        Ok(v) => v,
        Err(e) => return Err(e),
    };
    let lookback = match optional_string(case, "lookback_delta") {
        Ok(v) => v,
        Err(e) => return Err(e),
    };
    let longest = match optional_string(case, "max_lookback") {
        Ok(v) => v,
        Err(e) => return Err(e),
    };
    match instant_results_of(case, evaluation, expected, scalar) {
        Ok((kind, result)) => Ok(
            Expectation {
                endpoint: QUERY,
                params: at_instant(query, time, step, lookback, longest),
                result_type: kind,
                result,
            },
        ),
        Err(e) => Err(e),
    }
}

/// What an operator case asks and expects, given the value of the calendar field
/// that it names.
pub open spec fn operator_of(
    case: Json,
    sample: i64,
    evaluation: i64,
    field: Result<int, CalendarError>,
) -> Result<ExpectationModel, CaseError> {
    match oracle_cases::expression_of(case, sample) {
        Err(e) => Err(e),
        Ok(query) => match listed_values(case, sample) {
            Err(e) => Err(e),
            Ok(listed) => match expected_scalar(case, sample) {
                Err(e) => Err(e),
                Ok(scalar) => match with_calendar(calendar_name(case), field, listed) {
                    Err(e) => Err(e),
                    Ok(expected) => match oracle_cases::maybe_object(case, "range") {
                        Some(range) => operator_over_range(case, range, sample, query, expected),
                        None => operator_at_instant(case, evaluation, query, expected, scalar),
                    },
                },
            },
        },
    }
}

/// The value of the calendar field that a case names.
pub open spec fn calendar_field_of(case: Json, evaluation: i64) -> Result<int, CalendarError> {
    match calendar_name(case) {
        Some(name) => calendar::calendar_of(name, evaluation),
        None => Err(CalendarError::UnknownField),
    }
}

/// What an operator case asks and expects, given the value of the calendar field
/// that it names.
pub fn operator_expected_with(
    case: &Json,
    sample_ms: i64,
    evaluation_ms: i64,
    field: Result<i64, CalendarError>,
) -> (result: Result<Expectation, CaseError>)
    ensures
        oracle_cases::expectation_result(result) == operator_of(
            *case,
            sample_ms,
            evaluation_ms,
            field_number(field),
        ),
{
    let query = match expression(case, sample_ms) {
        Ok(v) => v,
        Err(e) => return Err(e),
    };
    let listed_here = match find_values(case, sample_ms) {
        Ok(v) => v,
        Err(e) => return Err(e),
    };
    let scalar = match find_scalar(case, sample_ms) {
        Ok(v) => v,
        Err(e) => return Err(e),
    };
    let expected = match replace_by_calendar(case, field, listed_here) {
        Ok(v) => v,
        Err(e) => return Err(e),
    };
    match find_object(case, "range") {
        Some(range) => expect_over_range(case, range, sample_ms, query, expected),
        None => expect_at_instant(case, evaluation_ms, query, expected, scalar),
    }
}

/// What an operator case asks and expects.
pub fn operator_expected(case: &Json, sample_ms: i64, evaluation_ms: i64) -> (result: Result<
    Expectation,
    CaseError,
>)
    ensures
        oracle_cases::expectation_result(result) == operator_of(
            *case,
            sample_ms,
            evaluation_ms,
            calendar_field_of(*case, evaluation_ms),
        ),
{
    let field = match member(case, "expected_calendar_at_evaluation") {
        Some(Json::Text(name)) => calendar_value(name, evaluation_ms),
        _ => Err(CalendarError::UnknownField),
    };
    operator_expected_with(case, sample_ms, evaluation_ms, field)
}

/// Samples spaced evenly over the range of a case, under given labels.
pub open spec fn spaced_series(
    case: Json,
    range: Json,
    sample: i64,
    query: Seq<char>,
    expected: Seq<Json>,
    metric: Tree,
) -> Result<ExpectationModel, CaseError> {
    match oracle_cases::range_of(range, sample) {
        Err(e) => Err(e),
        Ok((start, end)) => match oracle_cases::text_at(range, "step") {
            Err(e) => Err(e),
            Ok(step) => match oracle_cases::series_points(
                moments::spaced(start as int, end as int, expected.len()),
                json::trees(expected),
            ) {
                Err(e) => Err(e),
                Ok(points) => Ok(
                    ExpectationModel {
                        endpoint: QUERY_RANGE,
                        params: oracle_cases::range_params(
                            query,
                            moments::timestamp_tree(start as int),
                            moments::timestamp_tree(end as int),
                            step,
                            None,
                            None,
                        ),
                        result_type: "matrix",
                        result: seq![
                            oracle_cases::series(metric, "values"@, Tree::Array(points)),
                        ],
                    },
                ),
            },
        },
    }
}

fn expect_spaced_series(
    case: &Json,
    range: &Json,
    sample: i64,
    query: String,
    expected: &Vec<Json>,
    labels: Json,
) -> (result: Result<Expectation, CaseError>)
    ensures
        oracle_cases::expectation_result(result) == spaced_series(
            *case,
            *range,
            sample,
            query@,
            expected@,
            json::tree(labels),
        ),
{
    let (start, end) = match bounds(range, sample) {
        Ok(b) => b,
        Err(e) => return Err(e),
    };
    let from = timestamp(start);
    let to = timestamp(end);
    let step = match string(range, "step") {
        Ok(v) => v,
        Err(e) => return Err(e),
    };
    let times = evenly_spaced(start, end, expected.len());
    match points_of(&times, expected) {
        Ok(points) => Ok(
            Expectation {
                endpoint: QUERY_RANGE,
                params: over_range(query, from, to, step, None, None),
                result_type: "matrix",
                result: one_value(two_members("metric", labels, "values", listed(points))),
            },
        ),
        Err(e) => Err(e),
    }
}

/// One sample at the evaluation time, under given labels.
pub open spec fn one_sample(
    case: Json,
    evaluation: i64,
    query: Seq<char>,
    expected: Seq<Json>,
    metric: Tree,
) -> Result<ExpectationModel, CaseError> {
    if expected.len() == 0 {
        Err(CaseError::Empty)
    } else {
        match oracle_cases::point(evaluation as int, json::tree(expected[0])) {
            Err(e) => Err(e),
            Ok(p) => Ok(
                ExpectationModel {
                    endpoint: QUERY,
                    params: oracle_cases::instant_params(query, moments::timestamp_tree(evaluation as int), None, None, None),
                    result_type: "vector",
                    result: seq![oracle_cases::series(metric, "value"@, p)],
                },
            ),
        }
    }
}

fn expect_one_sample(
    case: &Json,
    evaluation: i64,
    query: String,
    expected: &Vec<Json>,
    labels: Json,
) -> (result: Result<Expectation, CaseError>)
    ensures
        oracle_cases::expectation_result(result) == one_sample(
            *case,
            evaluation,
            query@,
            expected@,
            json::tree(labels),
        ),
{
    let time = timestamp(evaluation);
    if expected.len() == 0 {
        return Err(CaseError::Empty);
    }
    match point_of(evaluation, &expected[0]) {
        Ok(p) => Ok(
            Expectation {
                endpoint: QUERY,
                params: at_instant(query, time, None, None, None),
                result_type: "vector",
                result: one_value(two_members("metric", labels, "value", p)),
            },
        ),
        Err(e) => Err(e),
    }
}

/// What a temporal case asks and expects.
pub open spec fn temporal_of(case: Json, sample: i64) -> Result<ExpectationModel, CaseError> {
    match oracle_cases::expression_of(case, sample) {
        Err(e) => Err(e),
        Ok(query) => match oracle_cases::list_at(case, "expected_values") {
            Err(e) => Err(e),
            Ok(expected) => match oracle_cases::maybe_object(case, "range") {
                Some(range) => spaced_series(
                    case,
                    range,
                    sample,
                    query,
                    expected,
                    oracle_cases::named_metric("oracle_temporal"@),
                ),
                None => match oracle_cases::moment_at(case, "evaluation_offset_ms", sample) {
                    Err(e) => Err(e),
                    Ok(evaluation) => one_sample(
                        case,
                        evaluation,
                        query,
                        expected,
                        oracle_cases::named_metric("oracle_temporal"@),
                    ),
                },
            },
        },
    }
}

/// What a temporal case asks and expects.
pub fn temporal_expected(case: &Json, sample_ms: i64) -> (result: Result<Expectation, CaseError>)
    ensures
        oracle_cases::expectation_result(result) == temporal_of(*case, sample_ms),
{
    let query = match expression(case, sample_ms) {
        Ok(v) => v,
        Err(e) => return Err(e),
    };
    let expected = match values(case, "expected_values") {
        Ok(v) => v,
        Err(e) => return Err(e),
    };
    match find_object(case, "range") {
        Some(range) => expect_spaced_series(
            case,
            range,
            sample_ms,
            query,
            expected,
            named("oracle_temporal"),
        ),
        None => match moment(case, "evaluation_offset_ms", sample_ms) {
            Err(e) => Err(e),
            Ok(evaluation) => expect_one_sample(
                case,
                evaluation,
                query,
                expected,
                named("oracle_temporal"),
            ),
        },
    }
}

/// One sample of a matrix that a subquery case lists: an offset and a value.
pub open spec fn matrix_point(pair: Json, sample: i64) -> Result<Tree, CaseError> {
    match json::items_of(pair) {
        None => Err(CaseError::List("expected_matrix point")),
        Some(list) => if list.len() == 0 {
            Err(CaseError::Empty)
        } else {
            match json::whole_of(list[0]) {
                None => Err(CaseError::Integer("expected_matrix offset")),
                Some(by) => match oracle_cases::shifted(sample, by) {
                    Err(e) => Err(e),
                    Ok(at) => if list.len() < 2 {
                        Err(CaseError::Empty)
                    } else {
                        oracle_cases::point(at as int, json::tree(list[1]))
                    },
                },
            }
        },
    }
}

fn matrix_point_of(pair: &Json, sample: i64) -> (result: Result<Json, CaseError>)
    ensures
        oracle_cases::tree_result(result) == matrix_point(*pair, sample),
{
    match json::items(pair) {
        None => Err(CaseError::List("expected_matrix point")),
        Some(list) => {
            if list.len() == 0 {
                return Err(CaseError::Empty);
            }
            match as_whole(&list[0]) {
                None => Err(CaseError::Integer("expected_matrix offset")),
                Some(by) => match shift(sample, by) {
                    Err(e) => Err(e),
                    Ok(at) => if list.len() < 2 {
                        Err(CaseError::Empty)
                    } else {
                        point_of(at, &list[1])
                    },
                },
            }
        },
    }
}

/// The first `n` samples of a matrix.
pub open spec fn matrix_points(list: Seq<Json>, sample: i64, n: nat) -> Result<
    Seq<Tree>,
    CaseError,
>
    decreases n,
{
    if n == 0 {
        Ok(Seq::empty())
    } else {
        match matrix_points(list, sample, (n - 1) as nat) {
            Ok(rows) => match matrix_point(list[n - 1], sample) {
                Ok(row) => Ok(rows.push(row)),
                Err(e) => Err(e),
            },
            Err(e) => Err(e),
        }
    }
}

proof fn matrix_errors_persist(list: Seq<Json>, sample: i64, k: nat, n: nat)
    requires
        k <= n,
        matrix_points(list, sample, k) is Err,
    ensures
        matrix_points(list, sample, n) == matrix_points(list, sample, k),
    decreases n - k,
{
    if k < n {
        matrix_errors_persist(list, sample, k, (n - 1) as nat);
    }
}

fn matrix_points_of(list: &Vec<Json>, sample: i64) -> (result: Result<Vec<Json>, CaseError>)
    ensures
        oracle_cases::trees_result(result) == matrix_points(list@, sample, list@.len()),
{
    let mut rows: Vec<Json> = Vec::new();
    let mut i: usize = 0;
    assert(json::trees(rows@) =~= Seq::empty());
    while i < list.len()
        invariant
            i <= list@.len(),
            matrix_points(list@, sample, i as nat) == Ok::<Seq<Tree>, CaseError>(
                json::trees(rows@),
            ),
        decreases list.len() - i,
    {
        match matrix_point_of(&list[i], sample) {
            Ok(row) => {
                let ghost before = json::trees(rows@);
                rows.push(row);
                assert(json::trees(rows@) =~= before.push(json::tree(row)));
            },
            Err(e) => {
                proof {
                    matrix_errors_persist(list@, sample, (i + 1) as nat, list@.len());
                }
                return Err(e);
            },
        }
        i += 1;
    }
    Ok(rows)
}

/// The labels of a matrix: with the name unless the query drops it.
pub open spec fn matrix_metric(case: Json) -> Tree {
    if oracle_cases::flag(case, "drop_metric_name") {
        oracle_cases::job_metric()
    } else {
        oracle_cases::named_metric("oracle_temporal"@)
    }
}

/// A matrix at the evaluation time.
pub open spec fn listed_matrix(
    case: Json,
    sample: i64,
    evaluation: i64,
    query: Seq<char>,
    matrix: Seq<Json>,
) -> Result<ExpectationModel, CaseError> {
    match matrix_points(matrix, sample, matrix.len()) {
        Err(e) => Err(e),
        Ok(points) => Ok(
            ExpectationModel {
                endpoint: QUERY,
                params: oracle_cases::instant_params(query, moments::timestamp_tree(evaluation as int), None, None, None),
                result_type: "matrix",
                result: seq![
                    oracle_cases::series(
                        matrix_metric(case),
                        "values"@,
                        Tree::Array(points),
                    ),
                ],
            },
        ),
    }
}

fn expect_matrix(
    case: &Json,
    sample: i64,
    evaluation: i64,
    query: String,
    matrix: &Vec<Json>,
) -> (result: Result<Expectation, CaseError>)
    ensures
        oracle_cases::expectation_result(result) == listed_matrix(
            *case,
            sample,
            evaluation,
            query@,
            matrix@,
        ),
{
    let time = timestamp(evaluation);
    let labels = if is_set(case, "drop_metric_name") {
        job_only()
    } else {
        named("oracle_temporal")
    };
    match matrix_points_of(matrix, sample) {
        Ok(points) => Ok(
            Expectation {
                endpoint: QUERY,
                params: at_instant(query, time, None, None, None),
                result_type: "matrix",
                result: one_value(two_members("metric", labels, "values", listed(points))),
            },
        ),
        Err(e) => Err(e),
    }
}

/// What a subquery case asks and expects.
pub open spec fn subquery_of(case: Json, sample: i64) -> Result<ExpectationModel, CaseError> {
    match oracle_cases::moment_at(case, "evaluation_offset_ms", sample) {
        Err(e) => Err(e),
        Ok(evaluation) => match oracle_cases::expression_of(case, sample) {
            Err(e) => Err(e),
            Ok(query) => match oracle_cases::maybe_object(case, "range") {
                Some(range) => match oracle_cases::range_of(range, sample) {
                    Err(e) => Err(e),
                    Ok(_) => match oracle_cases::list_at(case, "expected_values") {
                        Err(e) => Err(e),
                        Ok(expected) => spaced_series(
                            case,
                            range,
                            sample,
                            query,
                            expected,
                            oracle_cases::job_metric(),
                        ),
                    },
                },
                None => match oracle_cases::maybe_list(case, "expected_matrix") {
                    Some(matrix) => listed_matrix(case, sample, evaluation, query, matrix),
                    None => match oracle_cases::list_at(case, "expected_values") {
                        Err(e) => Err(e),
                        Ok(expected) => one_sample(
                            case,
                            evaluation,
                            query,
                            expected,
                            oracle_cases::job_metric(),
                        ),
                    },
                },
            },
        },
    }
}

/// What a subquery case asks and expects.
pub fn subquery_expected(case: &Json, sample_ms: i64) -> (result: Result<Expectation, CaseError>)
    ensures
        oracle_cases::expectation_result(result) == subquery_of(*case, sample_ms),
{
    let evaluation = match moment(case, "evaluation_offset_ms", sample_ms) {
        Ok(v) => v,
        Err(e) => return Err(e),
    };
    let query = match expression(case, sample_ms) {
        Ok(v) => v,
        Err(e) => return Err(e),
    };
    match find_object(case, "range") {
        Some(range) => {
            match bounds(range, sample_ms) {
                Err(e) => return Err(e),
                Ok(_) => {},
            }
            match values(case, "expected_values") {
                Err(e) => Err(e),
                Ok(expected) => expect_spaced_series(
                    case,
                    range,
                    sample_ms,
                    query,
                    expected,
                    job_only(),
                ),
            }
        },
        None => match find_list(case, "expected_matrix") {
            Some(matrix) => expect_matrix(case, sample_ms, evaluation, query, matrix),
            None => match values(case, "expected_values") {
                Err(e) => Err(e),
                Ok(expected) => expect_one_sample(case, evaluation, query, expected, job_only()),
            },
        },
    }
}

/// What a lookback case asks and expects: the sample of the fixture where one
/// result is expected, else none. Besides, the number of results that the case
/// names.
pub open spec fn lookback_of(case: Json, sample: i64) -> Result<
    (ExpectationModel, u64),
    CaseError,
> {
    match oracle_cases::moment_at(case, "evaluation_offset_ms", sample) {
        Err(e) => Err(e),
        Ok(evaluation) => match oracle_cases::text_at(case, "lookback_delta") {
            Err(e) => Err(e),
            Ok(lookback) => match json::member_of(case, "expected_result_count"@) {
                None => Err(CaseError::Missing("expected_result_count")),
                Some(value) => match json::unsigned_of(value) {
                    None => Err(CaseError::Missing("expected_result_count")),
                    Some(count) => Ok(
                        (
                            ExpectationModel {
                                endpoint: QUERY,
                                params: oracle_cases::instant_params(
                                    "oracle_lookback"@,
                                    moments::timestamp_tree(evaluation as int),
                                    None,
                                    Some(lookback),
                                    None,
                                ),
                                result_type: "vector",
                                result: if count == 1 {
                                    seq![
                                        oracle_cases::series(
                                            oracle_cases::named_metric("oracle_lookback"@),
                                            "value"@,
                                            Tree::Array(seq![moments::timestamp_tree(evaluation as int), Tree::Text("7"@)]),
                                        ),
                                    ]
                                } else {
                                    Seq::empty()
                                },
                            },
                            count,
                        ),
                    ),
                },
            },
        },
    }
}

/// What a lookback case asks and expects, and the number of results it names.
pub fn lookback_expected(case: &Json, sample_ms: i64) -> (result: Result<
    (Expectation, u64),
    CaseError,
>)
    ensures
        match result {
            Ok((x, n)) => lookback_of(*case, sample_ms) == Ok::<
                (ExpectationModel, u64),
                CaseError,
            >((x@, n)),
            Err(e) => lookback_of(*case, sample_ms) == Err::<(ExpectationModel, u64), CaseError>(e),
        },
{
    let evaluation = match moment(case, "evaluation_offset_ms", sample_ms) {
        Ok(v) => v,
        Err(e) => return Err(e),
    };
    let time = timestamp(evaluation);
    let lookback = match string(case, "lookback_delta") {
        Ok(v) => v,
        Err(e) => return Err(e),
    };
    let count = match member(case, "expected_result_count") {
        None => return Err(CaseError::Missing("expected_result_count")),
        Some(value) => match as_unsigned(value) {
            None => return Err(CaseError::Missing("expected_result_count")),
            Some(n) => n,
        },
    };
    let result: Vec<Json> = if count == 1 {
        one_value(
            two_members(
                "metric",
                named("oracle_lookback"),
                "value",
                two_values(copy(&time), Json::Text(copied("7"))),
            ),
        )
    } else {
        let none: Vec<Json> = Vec::new();
        assert(json::trees(none@) =~= Seq::empty());
        none
    };
    let params = at_instant(copied("oracle_lookback"), time, None, Some(lookback), None);
    Ok((Expectation { endpoint: QUERY, params, result_type: "vector", result }, count))
}

/// What a range case of VictoriaMetrics asks and expects.
pub open spec fn victoriametrics_of(case: Json, sample: i64) -> Result<
    ExpectationModel,
    CaseError,
> {
    match oracle_cases::maybe_object(case, "range") {
        None => Err(CaseError::Missing("VictoriaMetrics case range")),
        Some(range) => match oracle_cases::range_of(range, sample) {
            Err(e) => Err(e),
            Ok(_) => match oracle_cases::list_at(case, "expected_values") {
                Err(e) => Err(e),
                Ok(expected) => match oracle_cases::text_at(case, "query") {
                    Err(e) => Err(e),
                    Ok(query) => spaced_series(
                        case,
                        range,
                        sample,
                        query,
                        expected,
                        case_metric(case),
                    ),
                },
            },
        },
    }
}

/// The labels that a case names; none where it names none.
pub open spec fn case_metric(case: Json) -> Tree {
    match json::member_of(case, "expected_metric"@) {
        Some(m) => json::tree(m),
        None => Tree::Object(Seq::empty()),
    }
}

/// What a range case of VictoriaMetrics asks and expects.
pub fn victoriametrics_expected(case: &Json, sample_ms: i64) -> (result: Result<
    Expectation,
    CaseError,
>)
    ensures
        oracle_cases::expectation_result(result) == victoriametrics_of(*case, sample_ms),
{
    let range = match find_object(case, "range") {
        None => return Err(CaseError::Missing("VictoriaMetrics case range")),
        Some(r) => r,
    };
    match bounds(range, sample_ms) {
        Err(e) => return Err(e),
        Ok(_) => {},
    }
    let expected = match values(case, "expected_values") {
        Ok(v) => v,
        Err(e) => return Err(e),
    };
    let query = match string(case, "query") {
        Ok(v) => v,
        Err(e) => return Err(e),
    };
    let labels = match member(case, "expected_metric") {
        Some(m) => copy(m),
        None => {
            let list: Vec<(String, Json)> = Vec::new();
            proof {
                json::object_tree(list);
                assert(json::member_trees(list@) =~= Seq::empty());
            }
            Json::Object(list)
        },
    };
    expect_spaced_series(case, range, sample_ms, query, expected, labels)
}

} // verus!
