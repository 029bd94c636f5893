//! The expectations of well formed cases are well formed: in every object the keys
//! ascend, so that comparing them member by member compares them as objects.
use crate::calendar::CalendarError;
use crate::json::{self, Json, Tree};
use crate::moments;
use crate::oracle_cases;
use crate::oracle_expectations;
use vstd::prelude::*;
use vstd::string::*;

verus! {

proof fn labels_are_well_formed(name: Seq<char>)
    ensures
        json::well_formed(oracle_cases::named_metric(name)),
        json::well_formed(oracle_cases::job_metric()),
{
    reveal_strlit("__name__");
    reveal_strlit("job");
    let job = ("job"@, Tree::Text("oracle"@));
    json::pair_is_well_formed(("__name__"@, Tree::Text(name)), job);
    json::single_is_well_formed(job);
}

proof fn series_is_well_formed(metric: Tree, key: Seq<char>, value: Tree)
    requires
        json::well_formed(metric),
        json::well_formed(value),
        key == "value"@ || key == "values"@,
    ensures
        json::well_formed(oracle_cases::series(metric, key, value)),
{
    reveal_strlit("metric");
    reveal_strlit("value");
    reveal_strlit("values");
    json::pair_is_well_formed(("metric"@, metric), (key, value));
}

proof fn point_is_well_formed(ms: int, value: Tree)
    ensures
        oracle_cases::point(ms, value) matches Ok(p) ==> json::well_formed(p),
{
    if let Ok(s) = oracle_cases::scalar_text(value) {
        let list = seq![moments::timestamp_tree(ms), Tree::Text(s)];
        assert forall|i: int| 0 <= i < list.len() implies json::well_formed(#[trigger] list[i]) by {
            assert(i == 0 || i == 1);
        }
        json::array_is_well_formed(list);
    }
}

proof fn points_are_well_formed(times: Seq<int>, values: Seq<Tree>, n: nat)
    ensures
        oracle_cases::points(times, values, n) matches Ok(list) ==> json::all_well_formed(list),
    decreases n,
{
    if n > 0 {
        points_are_well_formed(times, values, (n - 1) as nat);
        point_is_well_formed(times[n - 1], values[n - 1]);
    }
}

proof fn spaced_points_are_well_formed(times: Seq<int>, values: Seq<Tree>)
    ensures
        oracle_cases::series_points(times, values) matches Ok(list) ==> json::well_formed(
            Tree::Array(list),
        ),
{
    points_are_well_formed(
        times,
        values,
        if times.len() < values.len() {
            times.len()
        } else {
            values.len()
        },
    );
    if let Ok(list) = oracle_cases::series_points(times, values) {
        json::array_is_well_formed(list);
    }
}

/// The labels under a key are well formed; so are none.
proof fn member_labels_are_well_formed(value: Json, key: Seq<char>)
    requires
        json::well_formed(json::tree(value)),
    ensures
        json::member_of(value, key) matches Some(m) ==> json::well_formed(json::tree(m)),
        json::well_formed(Tree::Object(Seq::empty())),
{
    json::member_is_well_formed(value, key);
}

/// The values of an array under a key are well formed.
proof fn listed_are_well_formed(value: Json, name: &'static str)
    requires
        json::well_formed(json::tree(value)),
    ensures
        oracle_cases::maybe_list(value, name) matches Some(list) ==> json::all_well_formed(
            json::trees(list),
        ),
{
    json::member_is_well_formed(value, name@);
    if let Some(found) = json::member_of(value, name@) {
        match found {
            Json::Array(list) => {
                json::array_tree(list);
                json::array_is_well_formed(json::trees(list@));
            },
            _ => {},
        }
    }
}

proof fn range_rows_are_well_formed(
    list: Seq<Json>,
    sample: i64,
    start: i64,
    end: i64,
    n: nat,
)
    requires
        n <= list.len(),
        json::all_well_formed(json::trees(list)),
    ensures
        oracle_expectations::range_rows(list, sample, start, end, n) matches Ok(rows)
            ==> json::all_well_formed(rows),
    decreases n,
{
    if n > 0 {
        range_rows_are_well_formed(list, sample, start, end, (n - 1) as nat);
        let expected = list[n - 1];
        assert(json::trees(list)[n - 1] == json::tree(expected));
        member_labels_are_well_formed(expected, "metric"@);
        if let Ok(values) = oracle_cases::list_at(expected, "values") {
            if let Ok(times) = oracle_expectations::series_times(
                oracle_cases::maybe_list(expected, "offsets_ms"),
                sample,
                start,
                end,
                values.len(),
            ) {
                spaced_points_are_well_formed(times, json::trees(values));
                if let Ok(points) = oracle_cases::series_points(times, json::trees(values)) {
                    series_is_well_formed(
                        oracle_expectations::own_metric(expected),
                        "values"@,
                        Tree::Array(points),
                    );
                }
            }
        }
    }
}

proof fn instant_rows_are_well_formed(list: Seq<Json>, evaluation: i64, n: nat)
    requires
        n <= list.len(),
        json::all_well_formed(json::trees(list)),
    ensures
        oracle_expectations::instant_rows(list, evaluation, n) matches Ok(rows)
            ==> json::all_well_formed(rows),
    decreases n,
{
    if n > 0 {
        instant_rows_are_well_formed(list, evaluation, (n - 1) as nat);
        let expected = list[n - 1];
        assert(json::trees(list)[n - 1] == json::tree(expected));
        member_labels_are_well_formed(expected, "metric"@);
        if let Some(v) = json::member_of(expected, "value"@) {
            point_is_well_formed(evaluation as int, json::tree(v));
            if let Ok(p) = oracle_cases::point(evaluation as int, json::tree(v)) {
                series_is_well_formed(oracle_expectations::own_metric(expected), "value"@, p);
            }
        }
    }
}

proof fn matrix_points_are_well_formed(list: Seq<Json>, sample: i64, n: nat)
    ensures
        oracle_expectations::matrix_points(list, sample, n) matches Ok(points)
            ==> json::all_well_formed(points),
    decreases n,
{
    if n > 0 {
        matrix_points_are_well_formed(list, sample, (n - 1) as nat);
        if let Some(pair) = json::items_of(list[n - 1]) {
            if pair.len() >= 2 {
                if let Some(by) = json::whole_of(pair[0]) {
                    if let Ok(at) = oracle_cases::shifted(sample, by) {
                        point_is_well_formed(at as int, json::tree(pair[1]));
                    }
                }
            }
        }
    }
}

proof fn case_labels_are_well_formed(case: Json)
    requires
        json::well_formed(json::tree(case)),
    ensures
        json::well_formed(oracle_expectations::metric_of(case)),
        json::well_formed(oracle_expectations::case_metric(case)),
        json::well_formed(oracle_expectations::matrix_metric(case)),
{
    labels_are_well_formed("oracle_temporal"@);
    member_labels_are_well_formed(case, "expected_metric"@);
}

proof fn range_results_are_well_formed(
    case: Json,
    sample: i64,
    start: i64,
    end: i64,
    listed: Option<Seq<Tree>>,
)
    requires
        json::well_formed(json::tree(case)),
    ensures
        oracle_expectations::range_results(case, sample, start, end, listed) matches Ok(rows)
            ==> json::all_well_formed(rows),
{
    case_labels_are_well_formed(case);
    listed_are_well_formed(case, "expected_results");
    match oracle_cases::maybe_list(case, "expected_results") {
        Some(list) => {
            range_rows_are_well_formed(list, sample, start, end, list.len());
        },
        None => {
            if let Some(values) = listed {
                if let Ok(times) = oracle_expectations::series_times(
                    oracle_cases::maybe_list(case, "expected_offsets_ms"),
                    sample,
                    start,
                    end,
                    values.len(),
                ) {
                    spaced_points_are_well_formed(times, values);
                    if let Ok(points) = oracle_cases::series_points(times, values) {
                        series_is_well_formed(
                            oracle_expectations::metric_of(case),
                            "values"@,
                            Tree::Array(points),
                        );
                    }
                }
            }
        },
    }
}

proof fn instant_results_are_well_formed(
    case: Json,
    evaluation: i64,
    listed: Option<Seq<Tree>>,
    scalar: Option<Tree>,
)
    requires
        json::well_formed(json::tree(case)),
    ensures
        oracle_expectations::instant_results(case, evaluation, listed, scalar) matches Ok(found)
            ==> json::all_well_formed(found.1),
{
    case_labels_are_well_formed(case);
    listed_are_well_formed(case, "expected_results");
    if let Some(list) = oracle_cases::maybe_list(case, "expected_results") {
        instant_rows_are_well_formed(list, evaluation, list.len());
    }
    if let Some(values) = listed {
        if values.len() > 0 {
            point_is_well_formed(evaluation as int, values[0]);
            if let Ok(p) = oracle_cases::point(evaluation as int, values[0]) {
                series_is_well_formed(oracle_expectations::metric_of(case), "value"@, p);
            }
        }
    }
}

/// What an operator case expects is well formed.
pub proof fn operator_expects_well_formed(
    case: Json,
    sample: i64,
    evaluation: i64,
    field: Result<int, CalendarError>,
)
    requires
        json::well_formed(json::tree(case)),
    ensures
        oracle_expectations::operator_of(case, sample, evaluation, field) matches Ok(model)
            ==> json::all_well_formed(model.result),
{
    if let Ok(model) = oracle_expectations::operator_of(case, sample, evaluation, field) {
        let listed = oracle_expectations::listed_values(case, sample).unwrap();
        let scalar = oracle_expectations::expected_scalar(case, sample).unwrap();
        let expected = oracle_expectations::with_calendar(
            oracle_expectations::calendar_name(case),
            field,
            listed,
        ).unwrap();
        match oracle_cases::maybe_object(case, "range") {
            Some(range) => {
                let (start, end) = oracle_cases::range_of(range, sample).unwrap();
                range_results_are_well_formed(case, sample, start, end, expected);
            },
            None => {
                instant_results_are_well_formed(case, evaluation, expected, scalar);
            },
        }
    }
}

proof fn spaced_series_is_well_formed(
    case: Json,
    range: Json,
    sample: i64,
    query: Seq<char>,
    expected: Seq<Json>,
    metric: Tree,
)
    requires
        json::well_formed(metric),
    ensures
        oracle_expectations::spaced_series(
            case,
            range,
            sample,
            query,
            expected,
            metric,
        ) matches Ok(model) ==> json::all_well_formed(model.result),
{
    if let Ok((start, end)) = oracle_cases::range_of(range, sample) {
        let times = moments::spaced(start as int, end as int, expected.len());
        let values = json::trees(expected);
        spaced_points_are_well_formed(times, values);
        if let Ok(points) = oracle_cases::series_points(times, values) {
            series_is_well_formed(metric, "values"@, Tree::Array(points));
        }
    }
}

proof fn one_sample_is_well_formed(
    case: Json,
    evaluation: i64,
    query: Seq<char>,
    expected: Seq<Json>,
    metric: Tree,
)
    requires
        json::well_formed(metric),
    ensures
        oracle_expectations::one_sample(case, evaluation, query, expected, metric) matches Ok(model)
            ==> json::all_well_formed(model.result),
{
    if expected.len() > 0 {
        let value = json::tree(expected[0]);
        point_is_well_formed(evaluation as int, value);
        if let Ok(p) = oracle_cases::point(evaluation as int, value) {
            series_is_well_formed(metric, "value"@, p);
        }
    }
}

/// What a temporal case expects is well formed.
pub proof fn temporal_expects_well_formed(case: Json, sample: i64)
    ensures
        oracle_expectations::temporal_of(case, sample) matches Ok(model) ==> json::all_well_formed(
            model.result,
        ),
{
    let metric = oracle_cases::named_metric("oracle_temporal"@);
    labels_are_well_formed("oracle_temporal"@);
    if let Ok(query) = oracle_cases::expression_of(case, sample) {
        if let Ok(expected) = oracle_cases::list_at(case, "expected_values") {
            match oracle_cases::maybe_object(case, "range") {
                Some(range) => {
                    spaced_series_is_well_formed(case, range, sample, query, expected, metric);
                },
                None => {
                    if let Ok(at) = oracle_cases::moment_at(case, "evaluation_offset_ms", sample) {
                        one_sample_is_well_formed(case, at, query, expected, metric);
                    }
                },
            }
        }
    }
}

/// What a subquery case expects is well formed.
pub proof fn subquery_expects_well_formed(case: Json, sample: i64)
    requires
        json::well_formed(json::tree(case)),
    ensures
        oracle_expectations::subquery_of(case, sample) matches Ok(model) ==> json::all_well_formed(
            model.result,
        ),
{
    let metric = oracle_cases::job_metric();
    labels_are_well_formed(Seq::empty());
    case_labels_are_well_formed(case);
    if let Ok(at) = oracle_cases::moment_at(case, "evaluation_offset_ms", sample) {
        if let Ok(query) = oracle_cases::expression_of(case, sample) {
            if let Ok(expected) = oracle_cases::list_at(case, "expected_values") {
                one_sample_is_well_formed(case, at, query, expected, metric);
                if let Some(range) = oracle_cases::maybe_object(case, "range") {
                    spaced_series_is_well_formed(case, range, sample, query, expected, metric);
                }
            }
            if let Some(matrix) = oracle_cases::maybe_list(case, "expected_matrix") {
                matrix_points_are_well_formed(matrix, sample, matrix.len());
                if let Ok(points) = oracle_expectations::matrix_points(
                    matrix,
                    sample,
                    matrix.len(),
                ) {
                    json::array_is_well_formed(points);
                    series_is_well_formed(
                        oracle_expectations::matrix_metric(case),
                        "values"@,
                        Tree::Array(points),
                    );
                }
            }
        }
    }
}

/// What a lookback case expects is well formed.
pub proof fn lookback_expects_well_formed(case: Json, sample: i64)
    ensures
        oracle_expectations::lookback_of(case, sample) matches Ok(found) ==> json::all_well_formed(
            found.0.result,
        ),
{
    labels_are_well_formed("oracle_lookback"@);
    if let Ok(at) = oracle_cases::moment_at(case, "evaluation_offset_ms", sample) {
        let pair = seq![moments::timestamp_tree(at as int), Tree::Text("7"@)];
        assert(json::well_formed(Tree::Array(pair))) by {
            assert forall|i: int| 0 <= i < pair.len() implies json::well_formed(
                #[trigger] pair[i],
            ) by {
                assert(i == 0 || i == 1);
            }
        }
        series_is_well_formed(
            oracle_cases::named_metric("oracle_lookback"@),
            "value"@,
            Tree::Array(pair),
        );
    }
}

/// What a range case of VictoriaMetrics expects is well formed.
pub proof fn victoriametrics_expects_well_formed(case: Json, sample: i64)
    requires
        json::well_formed(json::tree(case)),
    ensures
        oracle_expectations::victoriametrics_of(case, sample) matches Ok(model)
            ==> json::all_well_formed(model.result),
{
    case_labels_are_well_formed(case);
    if let Some(range) = oracle_cases::maybe_object(case, "range") {
        if let Ok(expected) = oracle_cases::list_at(case, "expected_values") {
            if let Ok(query) = oracle_cases::text_at(case, "query") {
                spaced_series_is_well_formed(
                    case,
                    range,
                    sample,
                    query,
                    expected,
                    oracle_expectations::case_metric(case),
                );
            }
        }
    }
}

} // verus!
