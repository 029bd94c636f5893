//! What holds of every run that is recorded and judged.
use crate::floats;
use crate::json::{self, Json, Tree};
use crate::moments;
use crate::production::Signal;
use crate::text;
use crate::workload::{self, BarrierFault, Failure, Limits, QuerySummary, SignalResult};
use vstd::prelude::*;

verus! {

/// A pattern of a float that is zero or more: a number, or infinity.
pub open spec fn at_least_zero(bits: u64) -> bool {
    bits <= 0x7ff0_0000_0000_0000
}

/// A pattern of not-a-number.
pub open spec fn no_number(bits: u64) -> bool {
    bits as int % 0x8000_0000_0000_0000 > 0x7ff0_0000_0000_0000
}

/// Floats that are zero or more are ordered as their patterns are; those below zero
/// the other way round, before all others; not-a-number has no place in the order.
pub proof fn floats_are_ordered_by_bits(a: u64, b: u64)
    ensures
        at_least_zero(a) && at_least_zero(b) ==> (floats::is_less(a, b) <==> a < b),
        no_number(a) || no_number(b) ==> !floats::is_less(a, b),
        a > 0x8000_0000_0000_0000 && !no_number(a) && at_least_zero(b) ==> floats::is_less(a, b)
            && !floats::is_less(b, a),
        a > 0x8000_0000_0000_0000 && b > 0x8000_0000_0000_0000 && !no_number(a) && !no_number(b)
            ==> (floats::is_less(a, b) <==> b < a),
{
}

proof fn sums_hold(a: Seq<Failure>, b: Seq<Failure>, f: Failure)
    ensures
        (a + b).contains(f) <==> a.contains(f) || b.contains(f),
{
    let s = a + b;
    if a.contains(f) {
        let i = choose|i: int| 0 <= i < a.len() && a[i] == f;
        assert(s[i] == f);
    }
    if b.contains(f) {
        let i = choose|i: int| 0 <= i < b.len() && b[i] == f;
        assert(s[a.len() + i] == f);
    }
    if s.contains(f) {
        let i = choose|i: int| 0 <= i < s.len() && s[i] == f;
        if i < a.len() {
            assert(a[i] == f);
        } else {
            assert(b[i - a.len()] == f);
        }
    }
}

proof fn single_holds(wrong: bool, failure: Failure, f: Failure)
    ensures
        workload::failure_if(wrong, failure).contains(f) <==> wrong && f == failure,
{
    if wrong {
        assert(seq![failure][0] == failure);
    }
}

/// What the failures of the first `n` kinds of queries hold: of each kind whether it
/// was never asked, whether it was too slow, and whether it never had a row.
proof fn query_failures_hold(queries: Seq<QuerySummary>, max_p99: u64, n: nat, f: Failure)
    requires
        n <= queries.len() <= usize::MAX,
    ensures
        workload::query_failures(queries, max_p99, n).contains(f) <==> (match f {
            Failure::NoQueries(i) => i < n && queries[i as int].requests == 0,
            Failure::Latency(i) => i < n && queries[i as int].requests != 0 && floats::is_less(
                max_p99,
                queries[i as int].p99,
            ),
            Failure::NoRows(i) => i < n && queries[i as int].rows == 0,
            _ => false,
        }),
    decreases n,
{
    if n > 0 {
        let m = (n - 1) as nat;
        query_failures_hold(queries, max_p99, m, f);
        let q = queries[n - 1];
        let a = workload::query_failures(queries, max_p99, m);
        let b = workload::failure_if(q.requests == 0, Failure::NoQueries((n - 1) as usize));
        let c = workload::failure_if(
            q.requests != 0 && floats::is_less(max_p99, q.p99),
            Failure::Latency((n - 1) as usize),
        );
        let d = workload::failure_if(q.rows == 0, Failure::NoRows((n - 1) as usize));
        sums_hold(a, b, f);
        sums_hold(a + b, c, f);
        sums_hold(a + b + c, d, f);
        single_holds(q.requests == 0, Failure::NoQueries((n - 1) as usize), f);
        single_holds(
            q.requests != 0 && floats::is_less(max_p99, q.p99),
            Failure::Latency((n - 1) as usize),
            f,
        );
        single_holds(q.rows == 0, Failure::NoRows((n - 1) as usize), f);
    }
}

/// The name of a counter ends in a word.
pub open spec fn named_with(key: Seq<char>, ending: Seq<char>) -> bool {
    ending.len() <= key.len() && key.skip(key.len() - ending.len()) == ending
}

proof fn endings_stand(key: Seq<char>, ending: Seq<char>)
    ensures
        text::ends_in(key, ending) == named_with(key, ending),
{
    if ending.len() <= key.len() {
        let at = key.len() - ending.len();
        assert(key.skip(at) =~= key.subrange(at, key.len() as int));
    }
}

proof fn counter_failures_hold(counters: Seq<(String, u64)>, n: nat, f: Failure)
    requires
        n <= counters.len() <= usize::MAX,
    ensures
        workload::counter_failures(counters, n).contains(f) <==> (match f {
            Failure::Counter(i) => i < n && counters[i as int].1 > 0 && counters[i as int].0@
                != "backup_errors"@ && (named_with(counters[i as int].0@, "_errors"@) || named_with(
                counters[i as int].0@,
                "_timeouts"@,
            )),
            _ => false,
        }),
    decreases n,
{
    if n > 0 {
        let m = (n - 1) as nat;
        counter_failures_hold(counters, m, f);
        let c = counters[n - 1];
        let wrong = workload::counts_errors(c.0@) && c.1 != 0;
        let failure = Failure::Counter((n - 1) as usize);
        sums_hold(
            workload::counter_failures(counters, m),
            workload::failure_if(wrong, failure),
            f,
        );
        single_holds(wrong, failure, f);
        endings_stand(c.0@, "_errors"@);
        endings_stand(c.0@, "_timeouts"@);
    }
}

/// The number that a reading holds under a key: below zero it counts as zero, and a
/// float is cut.
pub open spec fn reading(stats: Tree, key: Seq<char>) -> Option<int> {
    match json::tree_member(stats, key) {
        Some(Tree::Unsigned(n)) => Some(n as int),
        Some(Tree::Negative(_)) => Some(0int),
        Some(Tree::Float(bits, _)) => Some(floats::cut(bits) as int),
        _ => None,
    }
}

/// The number that a reading holds under a key, or zero.
pub open spec fn reading_or_zero(stats: Tree, key: Seq<char>) -> int {
    match reading(stats, key) {
        Some(n) => n,
        None => 0,
    }
}

proof fn power_is_small(k: nat)
    ensures
        moments::two(k) >= 1,
        k <= 11 ==> moments::two(k) <= 2048,
    decreases k,
{
    reveal_with_fuel(moments::two, 13);
    if k > 0 {
        power_is_small((k - 1) as nat);
    }
}

/// A float is cut to a number of 64 bits.
proof fn cut_fits(bits: u64)
    ensures
        floats::cut(bits) <= u64::MAX,
{
    let field = floats::exponent_field(bits);
    let m = floats::full_significand(bits);
    if 1075 <= field < 1087 {
        let p = moments::two((field - 1075) as nat);
        power_is_small((field - 1075) as nat);
        assert(m * p <= 0x1f_ffff_ffff_ffff * 2048) by (nonlinear_arith)
            requires
                m <= 0x1f_ffff_ffff_ffff,
                p <= 2048,
        ;
    } else if 1023 <= field < 1075 {
        let p = moments::two((1075 - field) as nat);
        power_is_small((1075 - field) as nat);
        assert(m / p <= m) by (nonlinear_arith)
            requires
                p >= 1,
        ;
    }
}

/// Numbers are read as the reading holds them.
pub proof fn numbers_are_read(stats: Json, key: Seq<char>)
    ensures
        (match floats::number_at(stats, key) {
            Some(n) => Some(n as int),
            None => None,
        }) == reading(json::tree(stats), key),
        workload::number_or_zero(stats, key) == reading_or_zero(json::tree(stats), key),
{
    json::member_holds(stats, key);
    match json::member_of(stats, key) {
        Some(Json::Float(bits, _)) => cut_fits(bits),
        Some(Json::Array(list)) => json::array_tree(list),
        Some(Json::Object(list)) => json::object_tree(list),
        _ => {},
    }
}

/// The value that a list of counters gives to a name: that of the first counter of
/// that name, or zero.
pub proof fn counters_are_found(counters: Seq<(String, u64)>, key: Seq<char>, i: int)
    requires
        0 <= i <= counters.len(),
        forall|j: int| 0 <= j < i ==> (#[trigger] counters[j]).0@ != key,
        i < counters.len() ==> counters[i].0@ == key,
    ensures
        workload::counter_value(counters, key) == (if i < counters.len() {
            counters[i].1
        } else {
            0
        }),
    decreases counters.len(),
{
    if counters.len() > 0 && i > 0 {
        assert(counters[0].0@ != key);
        let rest = counters.drop_first();
        assert forall|j: int| 0 <= j < i - 1 implies (#[trigger] rest[j]).0@ != key by {
            assert(counters[j + 1].0@ != key);
        }
        counters_are_found(rest, key, i - 1);
    }
}

/// One float is above another.
pub open spec fn above(a: u64, b: u64) -> bool {
    if no_number(a) || no_number(b) {
        false
    } else if a <= 0x8000_0000_0000_0000 && b <= 0x8000_0000_0000_0000 {
        a % 0x8000_0000_0000_0000 > b % 0x8000_0000_0000_0000
    } else if a > 0x8000_0000_0000_0000 && b > 0x8000_0000_0000_0000 {
        a < b
    } else {
        b > 0x8000_0000_0000_0000
    }
}

/// A failure is owed to a run.
pub open spec fn owed(signal: Signal, result: SignalResult, limits: Limits, f: Failure) -> bool {
    let stats = json::tree(result.final_stats);
    match f {
        Failure::WorkloadErrors => result.errors > 0,
        Failure::NoDurableWork => result.accepted == 0,
        Failure::Wal(n) => n == result.wal_hwm_bytes && n > limits.max_wal_bytes,
        Failure::Rss(n) => n == result.rss_hwm_kib && n > (match signal {
            Signal::Metrics => limits.max_rss_kib.metrics,
            Signal::Logs => limits.max_rss_kib.logs,
            Signal::Traces => limits.max_rss_kib.traces,
        }),
        Failure::Slope => above(result.slope, limits.max_slope) && !no_number(limits.duration)
            && !above(0x40bc_2000_0000_0000, limits.duration),
        Failure::NoQueries(i) => i < result.queries@.len() && result.queries@[i as int].requests
            == 0,
        Failure::Latency(i) => i < result.queries@.len() && result.queries@[i as int].requests > 0
            && above(result.queries@[i as int].p99, limits.max_p99),
        Failure::NoRows(i) => i < result.queries@.len() && result.queries@[i as int].rows == 0,
        Failure::Queue(key, longest, capacity) => {
            &&& capacity > 0
            &&& longest > capacity
            &&& capacity == (match reading(stats, "command_queue_capacity_batches"@) {
                Some(n) => n,
                None => reading_or_zero(stats, "command_queue_capacity_requests"@),
            })
            &&& match signal {
                Signal::Traces => key == "queued_requests" && longest == result.queued_requests_hwm,
                _ => key == "queued_batches" && longest == result.queued_batches_hwm,
            }
        },
        Failure::Waiting(key, n) => {
            &&& n > 0
            &&& n == reading_or_zero(stats, key@)
            &&& key == "queued_batches" || key == "queued_requests" || key == "in_flight_batches"
                || key == "in_flight_requests"
        },
        Failure::Backups(expected, refused) => {
            &&& expected == if limits.skip_faults {
                0int
            } else {
                1int
            }
            &&& refused != expected
            &&& refused == workload::counter_value(result.counters@, "backup_errors"@)
        },
        Failure::Counter(i) => i < result.counters@.len() && result.counters@[i as int].1 > 0
            && result.counters@[i as int].0@ != "backup_errors"@ && (named_with(
            result.counters@[i as int].0@,
            "_errors"@,
        ) || named_with(result.counters@[i as int].0@, "_timeouts"@)),
    }
}

proof fn above_is_less(a: u64, b: u64)
    ensures
        above(a, b) == floats::is_less(b, a),
        no_number(b) == crate::ieee::is_nan(b),
{
}

proof fn parts_hold(
    a: Seq<Failure>,
    b: Seq<Failure>,
    c: Seq<Failure>,
    d: Seq<Failure>,
    e: Seq<Failure>,
    g: Seq<Failure>,
    f: Failure,
)
    ensures
        (a + b + c + d + e + g).contains(f) <==> a.contains(f) || b.contains(f) || c.contains(f)
            || d.contains(f) || e.contains(f) || g.contains(f),
{
    sums_hold(a, b, f);
    sums_hold(a + b, c, f);
    sums_hold(a + b + c, d, f);
    sums_hold(a + b + c + d, e, f);
    sums_hold(a + b + c + d + e, g, f);
}

proof fn more_parts_hold(
    a: Seq<Failure>,
    b: Seq<Failure>,
    c: Seq<Failure>,
    d: Seq<Failure>,
    e: Seq<Failure>,
    f: Failure,
)
    ensures
        (a + b + c + d + e).contains(f) <==> a.contains(f) || b.contains(f) || c.contains(f)
            || d.contains(f) || e.contains(f),
{
    sums_hold(a, b, f);
    sums_hold(a + b, c, f);
    sums_hold(a + b + c, d, f);
    sums_hold(a + b + c + d, e, f);
}

/// The failures of a run are exactly those that are owed to it.
#[verifier::rlimit(60)]
pub proof fn failures_are_those_owed(
    signal: Signal,
    result: SignalResult,
    limits: Limits,
    f: Failure,
)
    ensures
        workload::signal_failures(signal, result, limits).contains(f) <==> owed(
            signal,
            result,
            limits,
            f,
        ),
{
    assert(result.queries@.len() == result.queries.len());
    assert(result.counters@.len() == result.counters.len());
    let stats = result.final_stats;
    let capacity = workload::first_of(
        stats,
        "command_queue_capacity_batches"@,
        "command_queue_capacity_requests"@,
    );
    let (queue, longest) = workload::queue_of(signal, result);
    let expected: u64 = if limits.skip_faults {
        0
    } else {
        1
    };
    let refused = workload::counter_value(result.counters@, "backup_errors"@);
    let slow = !floats::is_less(limits.duration, crate::production::TWO_HOURS)
        && !crate::ieee::is_nan(limits.duration) && floats::is_less(limits.max_slope, result.slope);
    let a = workload::failure_if(result.errors != 0, Failure::WorkloadErrors);
    let b = workload::failure_if(result.accepted == 0, Failure::NoDurableWork);
    let c = workload::failure_if(
        result.wal_hwm_bytes > limits.max_wal_bytes,
        Failure::Wal(result.wal_hwm_bytes),
    );
    let d = workload::failure_if(
        result.rss_hwm_kib > limits.max_rss_kib.limit(signal),
        Failure::Rss(result.rss_hwm_kib),
    );
    let e = workload::failure_if(slow, Failure::Slope);
    let g = workload::query_failures(result.queries@, limits.max_p99, result.queries@.len());
    let h = workload::failure_if(
        capacity > 0 && longest > capacity,
        Failure::Queue(queue, longest, capacity),
    );
    let i = workload::waiting(stats, "queued_batches");
    let j = workload::waiting(stats, "queued_requests");
    let k = workload::waiting(stats, "in_flight_batches");
    let l = workload::waiting(stats, "in_flight_requests");
    let m = workload::failure_if(refused != expected, Failure::Backups(expected, refused));
    let n = workload::counter_failures(result.counters@, result.counters@.len());
    parts_hold(a, b, c, d, e, g, f);
    more_parts_hold(a + b + c + d + e + g, h, i, j, k, f);
    more_parts_hold(a + b + c + d + e + g + h + i + j + k, l, m, n, Seq::empty(), f);
    let all = a + b + c + d + e + g + h + i + j + k + l + m + n;
    assert(all + Seq::<Failure>::empty() =~= all);
    assert(workload::signal_failures(signal, result, limits) == all);
    above_is_less(result.slope, limits.max_slope);
    above_is_less(0x40bc_2000_0000_0000, limits.duration);
    single_holds(result.errors != 0, Failure::WorkloadErrors, f);
    single_holds(result.accepted == 0, Failure::NoDurableWork, f);
    single_holds(
        result.wal_hwm_bytes > limits.max_wal_bytes,
        Failure::Wal(result.wal_hwm_bytes),
        f,
    );
    single_holds(
        result.rss_hwm_kib > limits.max_rss_kib.limit(signal),
        Failure::Rss(result.rss_hwm_kib),
        f,
    );
    single_holds(slow, Failure::Slope, f);
    query_failures_hold(result.queries@, limits.max_p99, result.queries@.len(), f);
    match f {
        Failure::Latency(at) => above_is_less(result.queries@[at as int].p99, limits.max_p99),
        _ => {},
    }
    single_holds(
        capacity > 0 && longest > capacity,
        Failure::Queue(queue, longest, capacity),
        f,
    );
    waiting_holds(stats, "queued_batches", f);
    waiting_holds(stats, "queued_requests", f);
    waiting_holds(stats, "in_flight_batches", f);
    waiting_holds(stats, "in_flight_requests", f);
    single_holds(refused != expected, Failure::Backups(expected, refused), f);
    counter_failures_hold(result.counters@, result.counters@.len(), f);
    numbers_are_read(stats, "command_queue_capacity_batches"@);
    numbers_are_read(stats, "command_queue_capacity_requests"@);
}

proof fn waiting_holds(stats: Json, key: &'static str, f: Failure)
    ensures
        workload::waiting(stats, key).contains(f) <==> (f matches Failure::Waiting(k, n) && k == key
            && n > 0 && n == reading_or_zero(json::tree(stats), key@)),
{
    numbers_are_read(stats, key@);
    let n = workload::number_or_zero(stats, key@);
    single_holds(n != 0, Failure::Waiting(key, n), f);
}

/// A kind of query with requests is reported as slow exactly if its latency is above
/// the limit: where every latency is at most the limit, none is.
pub proof fn slow_queries_are_reported(
    signal: Signal,
    result: SignalResult,
    limits: Limits,
    i: usize,
)
    requires
        i < result.queries@.len(),
        at_least_zero(limits.max_p99),
        at_least_zero(result.queries@[i as int].p99),
    ensures
        result.queries@[i as int].requests > 0 ==> (workload::signal_failures(
            signal,
            result,
            limits,
        ).contains(Failure::Latency(i)) <==> result.queries@[i as int].p99 > limits.max_p99),
        result.queries@[i as int].requests == 0 ==> !workload::signal_failures(
            signal,
            result,
            limits,
        ).contains(Failure::Latency(i)),
{
    failures_are_those_owed(signal, result, limits, Failure::Latency(i));
}

/// Where no latency is above the limit, no failure is a latency.
pub proof fn quick_queries_are_not_reported(
    signal: Signal,
    result: SignalResult,
    limits: Limits,
    i: usize,
)
    requires
        at_least_zero(limits.max_p99),
        forall|k: int|
            0 <= k < result.queries@.len() ==> at_least_zero((#[trigger] result.queries@[k]).p99)
                && result.queries@[k].p99 <= limits.max_p99,
    ensures
        !workload::signal_failures(signal, result, limits).contains(Failure::Latency(i)),
{
    failures_are_those_owed(signal, result, limits, Failure::Latency(i));
}

/// Raising one latency above the limit adds the failure of its kind of query and
/// changes no other failure.
pub proof fn raising_one_latency_adds_its_failure(
    signal: Signal,
    before: SignalResult,
    after: SignalResult,
    limits: Limits,
    i: usize,
    f: Failure,
)
    requires
        i < before.queries@.len() == after.queries@.len(),
        at_least_zero(limits.max_p99),
        at_least_zero(before.queries@[i as int].p99),
        at_least_zero(after.queries@[i as int].p99),
        before.queries@[i as int].p99 <= limits.max_p99 < after.queries@[i as int].p99,
        before.queries@[i as int].requests == after.queries@[i as int].requests > 0,
        before.queries@[i as int].rows == after.queries@[i as int].rows,
        forall|k: int|
            0 <= k < before.queries@.len() && k != i ==> #[trigger] before.queries@[k]
                == after.queries@[k],
        before.errors == after.errors,
        before.accepted == after.accepted,
        before.wal_hwm_bytes == after.wal_hwm_bytes,
        before.rss_hwm_kib == after.rss_hwm_kib,
        before.slope == after.slope,
        before.queued_batches_hwm == after.queued_batches_hwm,
        before.queued_requests_hwm == after.queued_requests_hwm,
        before.final_stats == after.final_stats,
        before.counters == after.counters,
    ensures
        !workload::signal_failures(signal, before, limits).contains(Failure::Latency(i)),
        workload::signal_failures(signal, after, limits).contains(Failure::Latency(i)),
        f != Failure::Latency(i) ==> (workload::signal_failures(signal, before, limits).contains(f)
            <==> workload::signal_failures(signal, after, limits).contains(f)),
{
    failures_are_those_owed(signal, before, limits, Failure::Latency(i));
    failures_are_those_owed(signal, after, limits, Failure::Latency(i));
    failures_are_those_owed(signal, before, limits, f);
    failures_are_those_owed(signal, after, limits, f);
    match f {
        Failure::NoQueries(k) => {
            if k < before.queries@.len() && k != i {
                assert(before.queries@[k as int] == after.queries@[k as int]);
            }
        },
        Failure::Latency(k) => {
            if k < before.queries@.len() && k != i {
                assert(before.queries@[k as int] == after.queries@[k as int]);
            }
        },
        Failure::NoRows(k) => {
            if k < before.queries@.len() && k != i {
                assert(before.queries@[k as int] == after.queries@[k as int]);
            }
        },
        _ => {},
    }
}

/// A flushed server passes exactly if its counter of records is the number that was
/// accepted and nothing waits.
pub proof fn durable_servers_hold_every_record(signal: Signal, accepted: u64, stats: Json)
    ensures
        workload::barrier_fault(signal, accepted, stats) is None <==> {
            let t = json::tree(stats);
            &&& reading(
                t,
                (match signal {
                    Signal::Metrics => "total_points",
                    Signal::Logs => "total_entries",
                    Signal::Traces => "total_spans",
                })@,
            ) == Some(accepted as int)
            &&& reading_or_zero(t, "queued_batches"@) == 0
            &&& reading_or_zero(t, "queued_requests"@) == 0
            &&& reading_or_zero(t, "in_flight_batches"@) == 0
            &&& reading_or_zero(t, "in_flight_requests"@) == 0
        },
        workload::barrier_fault(signal, accepted, stats) matches Some(BarrierFault::Count(n)) ==> n
            != accepted && reading(json::tree(stats), signal.total()@) == Some(n as int),
{
    numbers_are_read(stats, signal.total()@);
    numbers_are_read(stats, "queued_batches"@);
    numbers_are_read(stats, "queued_requests"@);
    numbers_are_read(stats, "in_flight_batches"@);
    numbers_are_read(stats, "in_flight_requests"@);
}

/// A watermark is never lowered, is the new value where it was reached, and no other
/// one changes.
pub proof fn watermarks_only_rise(
    list: Seq<(&'static str, u64)>,
    key: &'static str,
    value: u64,
    other: Seq<char>,
)
    ensures
        workload::watermark(workload::raised(list, key, value), key@) matches Some(after) && after
            >= value && (match workload::watermark(list, key@) {
            Some(before) => after >= before && (after == before || after == value),
            None => after == value,
        }),
        other != key@ ==> workload::watermark(workload::raised(list, key, value), other)
            == workload::watermark(list, other),
    decreases list.len(),
{
    let after = workload::raised(list, key, value);
    if list.len() == 0 {
        assert(after.drop_first() =~= list);
    } else if list[0].0@ == key@ {
        assert(after.drop_first() =~= list.drop_first());
    } else {
        watermarks_only_rise(list.drop_first(), key, value, other);
        assert(after.drop_first() =~= workload::raised(list.drop_first(), key, value));
    }
}

/// Counters are added up: one reading more adds what it holds.
pub proof fn counters_add_up(readings: Seq<Json>, more: Json, key: Seq<char>)
    ensures
        workload::counted(Seq::empty(), key, 0) == 0,
        workload::counted(readings.push(more), key, readings.len() + 1) == workload::counted(
            readings,
            key,
            readings.len(),
        ) + reading_or_zero(json::tree(more), key),
{
    numbers_are_read(more, key);
    prefixes_count(readings, more, key, readings.len());
}

proof fn prefixes_count(readings: Seq<Json>, more: Json, key: Seq<char>, n: nat)
    requires
        n <= readings.len(),
    ensures
        workload::counted(readings.push(more), key, n) == workload::counted(readings, key, n),
    decreases n,
{
    if n > 0 {
        prefixes_count(readings, more, key, (n - 1) as nat);
    }
}

/// The larger of two numbers is one of them, and neither is above it.
pub proof fn the_larger_is_neither_exceeded(a: u64, b: u64)
    ensures
        workload::larger(a, b) == a || workload::larger(a, b) == b,
        workload::larger(a, b) >= a,
        workload::larger(a, b) >= b,
{
}

} // verus!
