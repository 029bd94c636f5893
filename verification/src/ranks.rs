//! Order statistics of measured values.
use vstd::prelude::*;
use vstd::relations::*;

verus! {

/// Signed values as numbers.
pub open spec fn signed_numbers(s: Seq<i64>) -> Seq<int> {
    s.map_values(|x: i64| x as int)
}

/// Elapsed times as numbers.
pub open spec fn time_numbers(s: Seq<u128>) -> Seq<int> {
    s.map_values(|x: u128| x as int)
}

/// A sorted list with the same members is the sorted form of a list.
pub proof fn sorted_form_is_unique(list: Seq<int>, sorted: Seq<int>)
    requires
        forall|i: int, j: int| 0 <= i <= j < sorted.len() ==> sorted[i] <= sorted[j],
        sorted.to_multiset() == list.to_multiset(),
    ensures
        sorted == list.sort(),
{
    list.lemma_sort_ensures();
    let leq = |x: int, y: int| x <= y;
    assert(sorted_by(sorted, leq));
    assert(sorted_by(list.sort(), leq));
    vstd::seq_lib::lemma_sorted_unique(sorted, list.sort(), leq);
}

/// Sorting keeps the number of values.
pub proof fn sorting_keeps_length(list: Seq<int>)
    ensures
        list.sort().len() == list.len(),
{
    broadcast use vstd::seq_lib::group_to_multiset_ensures;

    list.lemma_sort_ensures();
    assert(list.sort().to_multiset().len() == list.to_multiset().len());
}

proof fn insertion_step(done: Seq<int>, sorted: Seq<int>, at: int, value: int)
    requires
        0 <= at <= sorted.len(),
        forall|i: int, j: int| 0 <= i <= j < sorted.len() ==> sorted[i] <= sorted[j],
        forall|i: int| 0 <= i < at ==> sorted[i] <= value,
        forall|i: int| at <= i < sorted.len() ==> value <= sorted[i],
        sorted.to_multiset() == done.to_multiset(),
    ensures
        sorted.insert(at, value).to_multiset() == done.push(value).to_multiset(),
        forall|i: int, j: int|
            0 <= i <= j <= sorted.len() ==> #[trigger] sorted.insert(at, value)[i]
                <= #[trigger] sorted.insert(at, value)[j],
{
    vstd::seq_lib::to_multiset_insert(sorted, at, value);
    vstd::seq_lib::to_multiset_build(done, value);
}

/// The values in ascending order.
pub fn sorted_values(values: &[i64]) -> (sorted: Vec<i64>)
    ensures
        signed_numbers(sorted@) == signed_numbers(values@).sort(),
{
    let mut sorted: Vec<i64> = Vec::new();
    let mut k: usize = 0;
    let ghost all = signed_numbers(values@);
    assert(signed_numbers(sorted@) =~= all.take(0));
    while k < values.len()
        invariant
            k <= values@.len(),
            all == signed_numbers(values@),
            sorted@.len() == k,
            signed_numbers(sorted@).to_multiset() == all.take(k as int).to_multiset(),
            forall|i: int, j: int|
                0 <= i <= j < sorted@.len() ==> signed_numbers(sorted@)[i] <= signed_numbers(
                    sorted@,
                )[j],
        decreases values.len() - k,
    {
        let value: i64 = values[k];
        let mut at: usize = sorted.len();
        while at > 0 && sorted[at - 1] > value
            invariant
                at <= sorted@.len(),
                forall|i: int| at <= i < sorted@.len() ==> value <= #[trigger] sorted@[i],
            decreases at,
        {
            at -= 1;
        }
        let ghost numbers = signed_numbers(sorted@);
        proof {
            assert forall|i: int| 0 <= i < at implies numbers[i] <= value as int by {
                assert(numbers[i] <= numbers[at - 1]);
            }
            insertion_step(all.take(k as int), numbers, at as int, value as int);
        }
        sorted.insert(at, value);
        k += 1;
        assert(signed_numbers(sorted@) =~= numbers.insert(at as int, value as int));
        assert(all.take(k as int) =~= all.take(k - 1).push(value as int));
    }
    proof {
        assert(all.take(k as int) =~= all);
        sorted_form_is_unique(all, signed_numbers(sorted@));
    }
    sorted
}

/// The elapsed times in ascending order.
pub fn sorted_times(values: &[u128]) -> (sorted: Vec<u128>)
    ensures
        time_numbers(sorted@) == time_numbers(values@).sort(),
        sorted@.len() == values@.len(),
{
    let mut sorted: Vec<u128> = Vec::new();
    let mut k: usize = 0;
    let ghost all = time_numbers(values@);
    assert(time_numbers(sorted@) =~= all.take(0));
    while k < values.len()
        invariant
            k <= values@.len(),
            all == time_numbers(values@),
            sorted@.len() == k,
            time_numbers(sorted@).to_multiset() == all.take(k as int).to_multiset(),
            forall|i: int, j: int|
                0 <= i <= j < sorted@.len() ==> time_numbers(sorted@)[i] <= time_numbers(
                    sorted@,
                )[j],
        decreases values.len() - k,
    {
        let value: u128 = values[k];
        let mut at: usize = sorted.len();
        while at > 0 && sorted[at - 1] > value
            invariant
                at <= sorted@.len(),
                forall|i: int| at <= i < sorted@.len() ==> value <= #[trigger] sorted@[i],
            decreases at,
        {
            at -= 1;
        }
        let ghost numbers = time_numbers(sorted@);
        proof {
            assert forall|i: int| 0 <= i < at implies numbers[i] <= value as int by {
                assert(numbers[i] <= numbers[at - 1]);
            }
            insertion_step(all.take(k as int), numbers, at as int, value as int);
        }
        sorted.insert(at, value);
        k += 1;
        assert(time_numbers(sorted@) =~= numbers.insert(at as int, value as int));
        assert(all.take(k as int) =~= all.take(k - 1).push(value as int));
    }
    proof {
        assert(all.take(k as int) =~= all);
        sorted_form_is_unique(all, time_numbers(sorted@));
    }
    sorted
}

/// The one-based nearest rank of a percentage among `n` values, from 1 to `n`.
pub open spec fn nearest_rank(n: nat, percent: nat) -> int {
    let rank = (n * percent + 99) / 100;
    if rank < 1 {
        1
    } else if rank > n {
        n as int
    } else {
        rank as int
    }
}

/// The value of nearest rank; `0` where there are no values.
pub open spec fn ranked(values: Seq<int>, percent: nat) -> int {
    if values.len() == 0 {
        0
    } else {
        values.sort()[nearest_rank(values.len(), percent) - 1]
    }
}

fn rank_of(n: usize, percent: usize) -> (rank: usize)
    requires
        n > 0,
        n * percent <= usize::MAX,
    ensures
        rank == nearest_rank(n as nat, percent as nat),
        1 <= rank <= n,
{
    let product: usize = n * percent;
    let rank: usize = if product % 100 == 0 {
        product / 100
    } else {
        product / 100 + 1
    };
    if rank < 1 {
        1
    } else if rank > n {
        n
    } else {
        rank
    }
}

/// The values of nearest rank at 50, 95 and 99 percent.
pub fn sorted_percentiles(values: &[i64]) -> (ranks: (i64, i64, i64))
    requires
        values@.len() > 0,
        values@.len() * 99 <= usize::MAX,
    ensures
        ranks.0 == ranked(signed_numbers(values@), 50),
        ranks.1 == ranked(signed_numbers(values@), 95),
        ranks.2 == ranked(signed_numbers(values@), 99),
{
    let sorted = sorted_values(values);
    let n: usize = values.len();
    proof {
        sorting_keeps_length(signed_numbers(values@));
    }
    let p50: i64 = sorted[rank_of(n, 50) - 1];
    let p95: i64 = sorted[rank_of(n, 95) - 1];
    let p99: i64 = sorted[rank_of(n, 99) - 1];
    proof {
        let numbers = signed_numbers(sorted@);
        assert(numbers[nearest_rank(n as nat, 50) - 1] == p50);
        assert(numbers[nearest_rank(n as nat, 95) - 1] == p95);
        assert(numbers[nearest_rank(n as nat, 99) - 1] == p99);
    }
    (p50, p95, p99)
}

/// The elapsed time of nearest rank; zero where nothing was measured.
pub fn percentile(values: &[u128], percent: usize) -> (time: u128)
    requires
        values@.len() * percent <= usize::MAX,
    ensures
        time == ranked(time_numbers(values@), percent as nat),
{
    if values.len() == 0 {
        return 0;
    }
    let sorted = sorted_times(values);
    let at: usize = rank_of(values.len(), percent) - 1;
    let time: u128 = sorted[at];
    assert(time_numbers(sorted@)[at as int] == time);
    time
}

/// The lowest, three ranked and the highest elapsed time.
#[derive(Clone, Copy, Debug, PartialEq, Eq)]
pub struct LatencySummary {
    pub min: u128,
    pub p50: u128,
    pub p95: u128,
    pub p99: u128,
    pub max: u128,
}

/// A summary of elapsed times: all zero where nothing was measured.
pub fn latency_summary(values: &[u128]) -> (summary: LatencySummary)
    requires
        values@.len() * 99 <= usize::MAX,
    ensures
        summary.p50 == ranked(time_numbers(values@), 50),
        summary.p95 == ranked(time_numbers(values@), 95),
        summary.p99 == ranked(time_numbers(values@), 99),
        values@.len() == 0 ==> summary.min == 0 && summary.max == 0,
        values@.len() > 0 ==> values@.contains(summary.min) && values@.contains(summary.max),
        forall|i: int| 0 <= i < values@.len() ==> summary.min <= #[trigger] values@[i] <= summary.max,
{
    let mut min: u128 = 0;
    let mut max: u128 = 0;
    let mut i: usize = 0;
    while i < values.len()
        invariant
            i <= values@.len(),
            i == 0 ==> min == 0 && max == 0,
            i > 0 ==> values@.contains(min) && values@.contains(max),
            forall|j: int| 0 <= j < i ==> min <= #[trigger] values@[j] <= max,
        decreases values.len() - i,
    {
        let value: u128 = values[i];
        assert(values@.contains(value));
        if i == 0 || value < min {
            min = value;
        }
        if i == 0 || value > max {
            max = value;
        }
        i += 1;
    }
    LatencySummary {
        min,
        p50: percentile(values, 50),
        p95: percentile(values, 95),
        p99: percentile(values, 99),
        max,
    }
}

/// The zero-based floor rank of a percentage among `n` values.
pub open spec fn floor_rank(n: nat, percent: nat) -> int {
    ((n - 1) * percent) / 100
}

/// The value of floor rank among values that are already in ascending order.
pub fn floor_percentile(sorted: &[u128], percent: usize) -> (time: u128)
    requires
        sorted@.len() > 0,
        (sorted@.len() - 1) * percent <= usize::MAX,
        floor_rank(sorted@.len(), percent as nat) < sorted@.len(),
    ensures
        time == sorted@[floor_rank(sorted@.len(), percent as nat)],
{
    let n: usize = sorted.len();
    assert(0 <= (n - 1) * percent) by (nonlinear_arith)
        requires
            n > 0,
            percent >= 0,
    ;
    let at: usize = ((n - 1) * percent) / 100;
    sorted[at]
}

/// A ranked value is one of the measured values.
pub proof fn ranked_value_was_measured(values: Seq<int>, percent: nat)
    requires
        values.len() > 0,
    ensures
        values.contains(ranked(values, percent)),
{
    broadcast use vstd::seq_lib::group_to_multiset_ensures;

    sorting_keeps_length(values);
    values.lemma_sort_ensures();
    let at = nearest_rank(values.len(), percent) - 1;
    assert(values.sort().contains(values.sort()[at]));
    assert(values.to_multiset().contains(values.sort()[at]));
}

} // verus!
