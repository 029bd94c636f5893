//! What holds of every measurement and of the counters behind it.
use crate::floats;
use crate::json::{self, Json, Tree};
use crate::ranks;
use crate::stats;
use crate::text;
use crate::trace_duration;
use crate::trace_plan::{self, PostingExpectation, TraceSummaryRow, BucketRow};
use vstd::prelude::*;

verus! {

/// The value of nearest rank stands, in ascending order, at the least rank that covers
/// the percentage: below it less than the percentage of the values stands.
pub proof fn nearest_ranks_cover_the_percentage(values: Seq<int>, percent: nat, k: int)
    requires
        1 <= k <= values.len(),
        values.len() * percent <= 100 * k,
        k == 1 || 100 * (k - 1) < values.len() * percent,
    ensures
        ranks::ranked(values, percent) == values.sort()[k - 1],
        forall|i: int| 0 <= i < k ==> values.sort()[i] <= ranks::ranked(values, percent),
        forall|i: int|
            k <= i < values.len() ==> ranks::ranked(values, percent) <= values.sort()[i],
        values.sort().to_multiset() == values.to_multiset(),
{
    let sorted = values.sort();
    values.lemma_sort_ensures();
    ranks::sorting_keeps_length(values);
    let leq = |x: int, y: int| x <= y;
    assert(vstd::relations::sorted_by(sorted, leq));
    assert forall|i: int, j: int| 0 <= i <= j < sorted.len() implies sorted[i] <= sorted[j] by {
        if i < j {
            assert(leq(sorted[i], sorted[j]));
        }
    }
    let n = values.len();
    let p = n * percent;
    assert(ranks::nearest_rank(n, percent) == k);
}

/// No value is above what stands at one hundred percent.
pub proof fn the_highest_rank_is_the_maximum(values: Seq<int>, i: int)
    requires
        0 <= i < values.len(),
    ensures
        values[i] <= ranks::ranked(values, 100),
{
    broadcast use vstd::seq_lib::group_to_multiset_ensures;
    let n = values.len();
    nearest_ranks_cover_the_percentage(values, 100, n as int);
    assert(values.contains(values[i]));
    assert(values.to_multiset().contains(values[i]));
    assert(values.sort().to_multiset().contains(values[i]));
    assert(values.sort().contains(values[i]));
    ranks::sorting_keeps_length(values);
    let at = choose|j: int| 0 <= j < values.sort().len() && values.sort()[j] == values[i];
    assert(values.sort()[at] <= ranks::ranked(values, 100));
}

/// The floor rank is the greatest place that the percentage of the places before the
/// last covers.
pub proof fn floor_ranks_are_covered(n: nat, percent: nat)
    requires
        n > 0,
        percent <= 100,
    ensures
        0 <= ranks::floor_rank(n, percent) < n,
        ranks::floor_rank(n, percent) * 100 <= (n - 1) * percent,
        (n - 1) * percent < (ranks::floor_rank(n, percent) + 1) * 100,
{
    let p = (n - 1) * percent;
    assert(0 <= p <= (n - 1) * 100) by (nonlinear_arith)
        requires
            p == (n - 1) * percent,
            percent <= 100,
            n > 0,
    ;
}

/// The ranked float is one of the floats, and stands at its rank in the order of
/// places.
pub proof fn ranked_floats_stand_at_their_rank(values: Seq<u64>, percent: nat, k: int)
    requires
        0 <= k < values.len(),
        k * 100 <= (values.len() - 1) * percent < (k + 1) * 100,
    ensures
        floats::floor_ranked(values, percent) == floats::pattern_at(
            floats::places(values).sort()[k],
        ),
{
    let p = (values.len() - 1) * percent;
    assert(p / 100 == k);
}

/// A counter is that of the first entry of its name.
pub proof fn counters_are_those_of_the_first_entry(values: Seq<(String, i64)>, key: Seq<char>, i: int)
    requires
        0 <= i <= values.len(),
        forall|j: int| 0 <= j < i ==> (#[trigger] values[j]).0@ != key,
        i < values.len() ==> values[i].0@ == key,
    ensures
        stats::stat_of(values, key) == (if i < values.len() {
            Some(values[i].1)
        } else {
            None
        }),
    decreases values.len(),
{
    if values.len() > 0 && i > 0 {
        assert(values[0].0@ != key);
        let rest = values.drop_first();
        assert forall|j: int| 0 <= j < i - 1 implies (#[trigger] rest[j]).0@ != key by {
            assert(values[j + 1].0@ != key);
        }
        counters_are_those_of_the_first_entry(rest, key, i - 1);
    }
}

/// A growth that fits is the difference: what was there and the growth make what is
/// there.
pub proof fn growth_makes_up_the_difference(before: i64, after: i64)
    ensures
        i64::MIN <= after - before <= i64::MAX ==> before + stats::clamped(after - before) == after,
        i64::MIN <= stats::clamped(after - before) <= i64::MAX,
        stats::clamped(after - before) > 0 <==> after > before,
        stats::clamped(after - before) == 0 <==> after == before,
{
}

/// The work of queries holds exactly the query counters that both readings have, each
/// with its growth.
pub proof fn work_is_the_growth_of_query_counters(
    before: Seq<(String, i64)>,
    after: Seq<(String, i64)>,
    key: Seq<char>,
    growth: i64,
)
    ensures
        stats::work_of(before, after).contains((key, growth)) <==> exists|i: int|
            0 <= i < after.len() && (#[trigger] after[i]).0@ == key && text::begins_with(
                key,
                "query_"@,
            ) && stats::stat_of(before, key) is Some && growth == stats::clamped(
                after[i].1 - stats::stat_of(before, key)->Some_0,
            ),
    decreases after.len(),
{
    if after.len() > 0 {
        let front = after.drop_last();
        let last = after.last();
        work_is_the_growth_of_query_counters(before, front, key, growth);
        let rest = stats::work_of(before, front);
        let all = stats::work_of(before, after);
        let entry = (key, growth);
        assert(after[after.len() - 1] == last);
        assert forall|i: int| 0 <= i < front.len() implies #[trigger] front[i] == after[i] by {}
        if rest.contains(entry) {
            let k = choose|k: int| 0 <= k < rest.len() && rest[k] == entry;
            assert(all[k] == entry);
            let i = choose|i: int|
                0 <= i < front.len() && (#[trigger] front[i]).0@ == key && text::begins_with(
                    key,
                    "query_"@,
                ) && stats::stat_of(before, key) is Some && growth == stats::clamped(
                    front[i].1 - stats::stat_of(before, key)->Some_0,
                );
            assert(after[i] == front[i]);
        }
        if all.contains(entry) && !rest.contains(entry) {
            let k = choose|k: int| 0 <= k < all.len() && all[k] == entry;
            if k < rest.len() {
                assert(rest[k] == entry);
            }
            assert(after[after.len() - 1].0@ == key);
        }
        if exists|i: int|
            0 <= i < after.len() && (#[trigger] after[i]).0@ == key && text::begins_with(
                key,
                "query_"@,
            ) && stats::stat_of(before, key) is Some && growth == stats::clamped(
                after[i].1 - stats::stat_of(before, key)->Some_0,
            ) {
            let i = choose|i: int|
                0 <= i < after.len() && (#[trigger] after[i]).0@ == key && text::begins_with(
                    key,
                    "query_"@,
                ) && stats::stat_of(before, key) is Some && growth == stats::clamped(
                    after[i].1 - stats::stat_of(before, key)->Some_0,
                );
            if i < front.len() {
                assert(front[i].0@ == key);
            } else {
                assert(all[rest.len() as int] == entry);
            }
        }
    }
}

/// Between two readings the growth of a counter makes up the difference, as far as it
/// is a number of 64 signed bits; a larger counter does not fall below zero.
pub proof fn member_growth_makes_up_the_difference(before: Json, after: Json)
    ensures
        match (json::whole_of(before), json::whole_of(after)) {
            (Some(x), Some(y)) => i64::MIN <= y - x <= i64::MAX ==> (stats::member_delta(
                Some(before),
                after,
            ) matches Some(d) && json::whole_of(d) matches Some(growth) && x + growth == y),
            _ => match (before, after) {
                (Json::Unsigned(x), Json::Unsigned(y)) => stats::member_delta(
                    Some(before),
                    after,
                ) matches Some(Json::Unsigned(growth)) && (y >= x ==> x + growth == y) && (y < x
                    ==> growth == 0),
                _ => stats::member_delta(Some(before), after) is None,
            },
        },
        stats::member_delta(None, after) is None,
{
}

/// The duration evidence starts where there are spans, and blocks without bounds.
pub proof fn evidence_needs_unbounded_blocks(initial: Seq<(String, i64)>)
    ensures
        trace_duration::initial_outcome(initial) is Ok <==> {
            &&& stats::stat_of(initial, "total_spans"@) matches Some(spans) && spans > 0
            &&& stats::stat_of(initial, "duration_unknown_blocks"@) matches Some(unknown) && unknown
                > 0
        },
{
}

/// The command has done its work where no block is without bounds and all have them.
pub proof fn optimized_blocks_all_have_bounds(after: Seq<(String, i64)>)
    ensures
        trace_duration::optimized_outcome(after) is Ok <==> {
            &&& stats::stat_of(after, "duration_unknown_blocks"@) == Some(0i64)
            &&& stats::stat_of(after, "blocks"@) is Some
            &&& stats::stat_of(after, "duration_bounded_blocks"@) == stats::stat_of(
                after,
                "blocks"@,
            )
        },
{
}

/// Reads without bounds must have considered blocks and decoded spans; reads with
/// bounds must have done neither.
pub proof fn bounds_spare_the_work(before: Seq<(String, i64)>, after: Seq<(String, i64)>)
    ensures
        ({
            let candidates = (
                stats::stat_of(before, "query_candidate_blocks"@),
                stats::stat_of(after, "query_candidate_blocks"@),
            );
            let decoded = (
                stats::stat_of(before, "query_decoded_spans"@),
                stats::stat_of(after, "query_decoded_spans"@),
            );
            &&& trace_duration::legacy_outcome(before, after) is Ok <==> candidates.0 is Some
                && candidates.1 is Some && decoded.0 is Some && decoded.1 is Some && candidates.0
                != candidates.1 && decoded.0 != decoded.1
            &&& trace_duration::bounded_outcome(before, after) is Ok <==> candidates.0 is Some
                && candidates.1 is Some && decoded.0 is Some && decoded.1 is Some && candidates.0
                == candidates.1 && decoded.0 == decoded.1
        }),
{
}

/// The whole number that stands under a key.
pub open spec fn whole_at(t: Tree, key: Seq<char>) -> Option<int> {
    match json::tree_member(t, key) {
        Some(Tree::Unsigned(n)) => if n <= 0x7fff_ffff_ffff_ffff {
            Some(n as int)
        } else {
            None
        },
        Some(Tree::Negative(n)) => Some(n as int),
        _ => None,
    }
}

/// Counters are read as the value holds them.
pub proof fn whole_numbers_are_read(value: Json, key: Seq<char>)
    ensures
        (match stats::json_stat(value, key) {
            Some(n) => Some(n as int),
            None => None,
        }) == whole_at(json::tree(value), key),
{
    json::member_holds(value, key);
    match json::member_of(value, key) {
        Some(Json::Array(list)) => json::array_tree(list),
        Some(Json::Object(list)) => json::object_tree(list),
        _ => {},
    }
}

/// The work of a repeated posting query is right exactly if each counter has grown by
/// its share of every repetition: one query, the candidates that it reads, the spans
/// that it decodes, and the rows that match and come back.
pub proof fn posting_work_is_counted(work: Json, expected: PostingExpectation, iterations: int)
    ensures
        trace_plan::posting_fault(work, expected, iterations) is None <==> {
            let t = json::tree(work);
            &&& whole_at(t, "query_count"@) == Some(iterations)
            &&& whole_at(t, "query_candidate_blocks"@) == Some(expected.candidates * iterations)
            &&& whole_at(t, "query_payload_blocks_read"@) == Some(expected.candidates * iterations)
            &&& whole_at(t, "query_decoded_spans"@) == Some(expected.decoded * iterations)
            &&& whole_at(t, "query_matched_spans"@) == Some(expected.rows * iterations)
            &&& whole_at(t, "query_returned_spans"@) == Some(expected.rows * iterations)
        },
{
    whole_numbers_are_read(work, "query_count"@);
    whole_numbers_are_read(work, "query_candidate_blocks"@);
    whole_numbers_are_read(work, "query_payload_blocks_read"@);
    whole_numbers_are_read(work, "query_decoded_spans"@);
    whole_numbers_are_read(work, "query_matched_spans"@);
    whole_numbers_are_read(work, "query_returned_spans"@);
}

/// Where every count is the same, the total is that many times it.
proof fn equal_counts_multiply(counts: Seq<i64>, each: int)
    requires
        forall|i: int| 0 <= i < counts.len() ==> #[trigger] counts[i] == each,
    ensures
        trace_plan::summed_spans(counts) matches Some(total) ==> total == each * counts.len(),
    decreases counts.len(),
{
    if counts.len() > 0 {
        let front = counts.drop_last();
        assert forall|i: int| 0 <= i < front.len() implies #[trigger] front[i] == each by {
            assert(counts[i] == each);
        }
        equal_counts_multiply(front, each);
        assert(counts[counts.len() - 1] == each);
        assert(each * counts.len() == each * front.len() + each) by (nonlinear_arith)
            requires
                counts.len() == front.len() + 1,
        ;
    } else {
        assert(each * counts.len() == 0) by (nonlinear_arith)
            requires
                counts.len() == 0,
        ;
    }
}

/// Accepted summaries are those of whole traces: as many as were expected, eight spans
/// in each with identifiers of their own, one root with the root's name, and an end that
/// is the start and the duration.
pub proof fn accepted_summaries_are_whole_traces(
    rows: Seq<TraceSummaryRow>,
    expected_rows: int,
    expected_spans: int,
)
    requires
        trace_plan::summary_fault(rows, expected_rows, expected_spans) is None,
    ensures
        rows.len() == expected_rows,
        expected_spans == 8 * expected_rows,
        forall|i: int|
            0 <= i < rows.len() ==> {
                let r = #[trigger] rows[i];
                &&& r.span_rows == 8 && r.distinct_span_ids == 8
                &&& r.root_rows == 1 && r.root_span_id is Some && r.root_state@ == "unique"@
                &&& r.root_name matches Some(name) && name@ == "GET /baseline"@
                &&& r.root_service matches Some(service) && service@ == "bench"@
                &&& r.start_ts + r.duration_ns == r.end_ts && r.duration_ns >= 0
                &&& 2 <= r.error_rows <= 3
                &&& r.invalid_end_rows == 0 && r.service_count == 1 && r.completeness@
                    == "unknown"@
            },
{
    assert forall|i: int| 0 <= i < rows.len() implies {
        let r = #[trigger] rows[i];
        &&& r.span_rows == 8 && r.distinct_span_ids == 8
        &&& r.root_rows == 1 && r.root_span_id is Some && r.root_state@ == "unique"@
        &&& r.root_name matches Some(name) && name@ == "GET /baseline"@
        &&& r.root_service matches Some(service) && service@ == "bench"@
        &&& r.start_ts + r.duration_ns == r.end_ts && r.duration_ns >= 0
        &&& 2 <= r.error_rows <= 3
        &&& r.invalid_end_rows == 0 && r.service_count == 1 && r.completeness@ == "unknown"@
    } by {
        assert(rows[i].is_whole());
    }
    let counts = trace_plan::summary_counts(rows);
    assert forall|i: int| 0 <= i < counts.len() implies #[trigger] counts[i] == 8 by {
        assert(rows[i].is_whole());
    }
    equal_counts_multiply(counts, 8);
}

/// Accepted buckets make up the expected number of spans, and each has the durations of
/// a batch: the short one up to the median, the long one above.
pub proof fn accepted_buckets_have_the_durations_of_a_batch(rows: Seq<BucketRow>, expected: int)
    requires
        trace_plan::bucket_fault(rows, expected) is None,
    ensures
        trace_plan::summed_spans(trace_plan::bucket_counts(rows)) == Some(expected),
        forall|i: int|
            0 <= i < rows.len() ==> {
                let r = #[trigger] rows[i];
                &&& r.dur_min == r.dur_p50 == 100_000
                &&& r.dur_max == r.dur_p95 == r.dur_p99 == 900_000
            },
{
    assert forall|i: int| 0 <= i < rows.len() implies {
        let r = #[trigger] rows[i];
        &&& r.dur_min == r.dur_p50 == 100_000
        &&& r.dur_max == r.dur_p95 == r.dur_p99 == 900_000
    } by {
        assert(rows[i].has_batch_durations());
    }
}

/// A sum of counts that fits grows by each count that is added.
pub proof fn counts_are_summed(counts: Seq<i64>, more: i64)
    ensures
        trace_plan::summed_spans(Seq::empty()) == Some(0int),
        trace_plan::summed_spans(counts) matches Some(total) ==> (match trace_plan::summed_spans(
            counts.push(more),
        ) {
            Some(after) => after == total + more,
            None => total + more > i64::MAX || total + more < i64::MIN,
        }),
        trace_plan::summed_spans(counts) is None ==> trace_plan::summed_spans(
            counts.push(more),
        ) is None,
{
    assert(counts.push(more).drop_last() =~= counts);
}

/// A search result passes exactly if its data are as many traces as expected, whose
/// lists of spans are together as long as expected.
pub proof fn searches_return_the_expected_traces(body: Tree, traces: int, spans: int)
    ensures
        trace_plan::search_fault(body, traces, spans) is None <==> (json::tree_member(
            body,
            "data"@,
        ) matches Some(Tree::Array(list)) && list.len() == traces && trace_plan::all_spans(list)
            == spans),
{
}

/// Each trace adds the length of its list of spans.
pub proof fn spans_of_traces_add_up(traces: Seq<Tree>, more: Tree)
    ensures
        trace_plan::all_spans(Seq::empty()) == 0,
        trace_plan::all_spans(traces.push(more)) == trace_plan::all_spans(traces) + (
        match json::tree_member(more, "spans"@) {
            Some(Tree::Array(list)) => list.len(),
            _ => 0,
        }),
{
    assert(traces.push(more).drop_last() =~= traces);
}

/// A build is accepted only with the commit that was asked for: no build is accepted for
/// two commits.
pub proof fn builds_have_one_commit(capabilities: Tree, commit: Seq<char>, other: Seq<char>)
    ensures
        trace_plan::build_held(capabilities, commit) is Ok <==> (json::tree_member(
            capabilities,
            "build"@,
        ) matches Some(build) && json::tree_member(build, "commit"@) == Some(Tree::Text(commit))),
        trace_plan::build_held(capabilities, commit) matches Ok(build) ==> json::tree_member(
            capabilities,
            "build"@,
        ) == Some(build),
        trace_plan::build_held(capabilities, commit) is Ok && trace_plan::build_held(
            capabilities,
            other,
        ) is Ok ==> commit == other,
{
}

/// The end of a window is the start of the last span of its last box: the windows of
/// the whole fixture and of its first box end where the fixture says.
pub proof fn windows_end_at_the_last_span(boxes: int)
    requires
        boxes > 0,
    ensures
        trace_plan::window_end(crate::trace_fixture::BASE_NS as int, boxes)
            == crate::trace_fixture::start_at(boxes - 1, crate::trace_fixture::BATCH_SPANS - 1),
        trace_plan::first_box_end(crate::trace_fixture::BASE_NS as int)
            == crate::trace_fixture::start_at(0, crate::trace_fixture::BATCH_SPANS - 1),
        crate::trace_fixture::last_start(boxes) == trace_plan::window_end(
            crate::trace_fixture::BASE_NS as int,
            boxes,
        ),
{
}

/// Summaries read the spans of one trace, or all spans.
pub proof fn summaries_of_one_trace_name_it()
    ensures
        trace_plan::summary_prefix(true) == trace_plan::PREFIX_HEAD@ + " WHERE trace_id=?1"@ + ")"@,
        trace_plan::summary_prefix(false) == trace_plan::PREFIX_HEAD@ + ")"@,
{
    reveal_strlit("");
    assert(""@ =~= Seq::<char>::empty());
    assert(trace_plan::summary_prefix(false) =~= trace_plan::PREFIX_HEAD@ + ")"@);
}

} // verus!
