//! What a run of the production gate records, and the limits it is held to.
use crate::floats::{self, less, numeric_u64};
use crate::json::{self, copied, Json};
use crate::production::{self, RssLimits, Signal, TWO_HOURS};
use crate::text::{self, ends_with, push_decimal, same_text};
use vstd::prelude::*;
use vstd::string::*;

verus! {

/// The records of one kind of query.
pub struct QueryRecord {
    pub shape: &'static str,
    pub latencies: Vec<u64>,
    pub response_bytes_hwm: u64,
    pub result_rows_hwm: u64,
}

/// What one signal has done so far. Latencies are floats, by their bits.
pub struct Workload {
    pub accepted: u64,
    pub next_ordinal: u64,
    pub write_latencies: Vec<u64>,
    pub ingest_body_bytes_hwm: u64,
    pub queries: Vec<QueryRecord>,
    pub memory_hwm_kib: u64,
    pub watermarks: Vec<(&'static str, u64)>,
}

/// The larger of two numbers.
pub open spec fn larger(a: u64, b: u64) -> u64 {
    if a < b {
        b
    } else {
        a
    }
}

fn larger_of(a: u64, b: u64) -> (m: u64)
    ensures
        m == larger(a, b),
{
    if a < b {
        b
    } else {
        a
    }
}

/// The record of a kind of query.
pub open spec fn record_of(queries: Seq<QueryRecord>, shape: Seq<char>) -> Option<QueryRecord>
    decreases queries.len(),
{
    if queries.len() == 0 {
        None
    } else if queries[0].shape@ == shape {
        Some(queries[0])
    } else {
        record_of(queries.drop_first(), shape)
    }
}

/// The highest value of a measure so far.
pub open spec fn watermark(list: Seq<(&'static str, u64)>, key: Seq<char>) -> Option<u64>
    decreases list.len(),
{
    if list.len() == 0 {
        None
    } else if list[0].0@ == key {
        Some(list[0].1)
    } else {
        watermark(list.drop_first(), key)
    }
}

/// The measures that are sampled, besides the counter of all records.
pub open spec fn sampled_key(i: int) -> Option<&'static str> {
    if i == 0 {
        Some("database_file_bytes")
    } else if i == 1 {
        Some("database_wal_bytes")
    } else if i == 2 {
        Some("database_shm_bytes")
    } else if i == 3 {
        Some("physical_database_bytes")
    } else if i == 4 {
        Some("bytes_on_disk")
    } else if i == 5 {
        Some("disk_size")
    } else if i == 6 {
        Some("freelist_bytes")
    } else if i == 7 {
        Some("buffer_memory_bytes")
    } else if i == 8 {
        Some("buffered_points")
    } else if i == 9 {
        Some("buffered_entries")
    } else if i == 10 {
        Some("buffered_spans")
    } else if i == 11 {
        Some("queued_batches")
    } else if i == 12 {
        Some("queued_requests")
    } else if i == 13 {
        Some("queued_points")
    } else if i == 14 {
        Some("queued_entries")
    } else if i == 15 {
        Some("queued_spans")
    } else if i == 16 {
        Some("queued_body_bytes")
    } else if i == 17 {
        Some("in_flight_batches")
    } else if i == 18 {
        Some("in_flight_requests")
    } else if i == 19 {
        Some("command_queue_capacity_batches")
    } else if i == 20 {
        Some("command_queue_capacity_requests")
    } else if i == 21 {
        Some("query_snapshot_payload_max_bytes")
    } else if i == 22 {
        Some("extension_query_snapshot_payload_max_bytes")
    } else {
        None
    }
}

fn sampled(i: usize) -> (key: Option<&'static str>)
    ensures
        key == sampled_key(i as int),
{
    if i == 0 {
        Some("database_file_bytes")
    } else if i == 1 {
        Some("database_wal_bytes")
    } else if i == 2 {
        Some("database_shm_bytes")
    } else if i == 3 {
        Some("physical_database_bytes")
    } else if i == 4 {
        Some("bytes_on_disk")
    } else if i == 5 {
        Some("disk_size")
    } else if i == 6 {
        Some("freelist_bytes")
    } else if i == 7 {
        Some("buffer_memory_bytes")
    } else if i == 8 {
        Some("buffered_points")
    } else if i == 9 {
        Some("buffered_entries")
    } else if i == 10 {
        Some("buffered_spans")
    } else if i == 11 {
        Some("queued_batches")
    } else if i == 12 {
        Some("queued_requests")
    } else if i == 13 {
        Some("queued_points")
    } else if i == 14 {
        Some("queued_entries")
    } else if i == 15 {
        Some("queued_spans")
    } else if i == 16 {
        Some("queued_body_bytes")
    } else if i == 17 {
        Some("in_flight_batches")
    } else if i == 18 {
        Some("in_flight_requests")
    } else if i == 19 {
        Some("command_queue_capacity_batches")
    } else if i == 20 {
        Some("command_queue_capacity_requests")
    } else if i == 21 {
        Some("query_snapshot_payload_max_bytes")
    } else if i == 22 {
        Some("extension_query_snapshot_payload_max_bytes")
    } else {
        None
    }
}

/// A list of watermarks raised by one value.
pub open spec fn raised(list: Seq<(&'static str, u64)>, key: &'static str, value: u64) -> Seq<
    (&'static str, u64),
>
    decreases list.len(),
{
    if list.len() == 0 {
        seq![(key, value)]
    } else if list[0].0@ == key@ {
        seq![(list[0].0, larger(list[0].1, value))] + list.drop_first()
    } else {
        seq![list[0]] + raised(list.drop_first(), key, value)
    }
}

/// A raised watermark is the larger of what it was and the value; no other
/// watermark changes.
pub proof fn raising_changes_one(
    list: Seq<(&'static str, u64)>,
    key: &'static str,
    value: u64,
    other: Seq<char>,
)
    ensures
        watermark(raised(list, key, value), key@) == Some(
            match watermark(list, key@) {
                Some(before) => larger(before, value),
                None => value,
            },
        ),
        other != key@ ==> watermark(raised(list, key, value), other) == watermark(list, other),
    decreases list.len(),
{
    reveal_with_fuel(watermark, 3);
    if list.len() == 0 {
        assert(raised(list, key, value).drop_first() =~= Seq::empty());
    } else if list[0].0@ == key@ {
        assert(raised(list, key, value).drop_first() =~= list.drop_first());
    } else {
        raising_changes_one(list.drop_first(), key, value, other);
        assert(raised(list, key, value).drop_first() =~= raised(list.drop_first(), key, value));
    }
}

fn raise(list: &mut Vec<(&'static str, u64)>, key: &'static str, value: u64)
    ensures
        final(list)@ == raised(old(list)@, key, value),
{
    let ghost before = list@;
    let mut i: usize = 0;
    assert(before.take(0) + raised(before.skip(0), key, value) =~= raised(before, key, value)) by {
        assert(before.skip(0) =~= before);
    }
    while i < list.len()
        invariant
            i <= list@.len(),
            list@ == before,
            before == old(list)@,
            before.take(i as int) + raised(before.skip(i as int), key, value) == raised(
                before,
                key,
                value,
            ),
        decreases list.len() - i,
    {
        let entry: (&'static str, u64) = list[i];
        assert(before.skip(i as int)[0] == entry);
        assert(before.skip(i as int).drop_first() =~= before.skip(i + 1));
        if same_text(entry.0, key) {
            let highest: u64 = larger_of(entry.1, value);
            list.set(i, (entry.0, highest));
            assert(list@ =~= before.take(i as int) + raised(before.skip(i as int), key, value));
            return;
        }
        assert(before.take(i + 1) + raised(before.skip(i + 1), key, value) =~= before.take(
            i as int,
        ) + raised(before.skip(i as int), key, value));
        i += 1;
    }
    list.push((key, value));
    assert(list@ =~= before.take(i as int) + raised(before.skip(i as int), key, value)) by {
        assert(before.skip(i as int).len() == 0);
        assert(before.take(i as int) =~= before);
    }
}

/// Watermarks raised by the first `n` measures of a reading.
pub open spec fn sampled_into(list: Seq<(&'static str, u64)>, stats: Json, n: nat) -> Seq<
    (&'static str, u64),
>
    decreases n,
{
    if n == 0 {
        list
    } else {
        let before = sampled_into(list, stats, (n - 1) as nat);
        match sampled_key(n - 1) {
            Some(key) => match floats::number_at(stats, key@) {
                Some(value) => raised(before, key, value),
                None => before,
            },
            None => before,
        }
    }
}

/// Watermarks raised by a reading: the counter of all records, then every
/// sampled measure that the reading has.
pub open spec fn after_sample(
    list: Seq<(&'static str, u64)>,
    signal: Signal,
    stats: Json,
) -> Seq<(&'static str, u64)> {
    let first = match floats::number_at(stats, signal.total()@) {
        Some(value) => raised(list, signal.total(), value),
        None => list,
    };
    sampled_into(first, stats, 23)
}

/// Another writer got in between.
#[derive(Clone, Copy, Debug)]
pub struct Raced;

impl Workload {
    /// Every accepted record has its own ordinal, and none is left out.
    pub open spec fn well_formed(&self) -> bool {
        self.accepted == self.next_ordinal
    }

    /// Nothing has been done.
    pub fn new() -> (workload: Workload)
        ensures
            workload.well_formed(),
            workload.accepted == 0,
            workload.write_latencies@.len() == 0,
            workload.ingest_body_bytes_hwm == 0,
            workload.queries@.len() == 0,
            workload.memory_hwm_kib == 0,
            workload.watermarks@.len() == 0,
    {
        Workload {
            accepted: 0,
            next_ordinal: 0,
            write_latencies: Vec::new(),
            ingest_body_bytes_hwm: 0,
            queries: Vec::new(),
            memory_hwm_kib: 0,
            watermarks: Vec::new(),
        }
    }

    /// Records a batch that was accepted. It must have started at the next
    /// ordinal; otherwise nothing is recorded.
    pub fn write_once(&mut self, start: u64, batch: u64, latency: u64, bytes: u64) -> (result: Result<
        (),
        Raced,
    >)
        requires
            old(self).well_formed(),
            old(self).next_ordinal + batch <= u64::MAX,
        ensures
            final(self).well_formed(),
            result is Ok <==> start == old(self).next_ordinal,
            result is Err ==> *final(self) == *old(self),
            result is Ok ==> {
                &&& final(self).accepted == old(self).accepted + batch
                &&& final(self).next_ordinal == old(self).next_ordinal + batch
                &&& final(self).write_latencies@ == old(self).write_latencies@.push(latency)
                &&& final(self).ingest_body_bytes_hwm == larger(
                    old(self).ingest_body_bytes_hwm,
                    bytes,
                )
                &&& final(self).queries == old(self).queries
                &&& final(self).memory_hwm_kib == old(self).memory_hwm_kib
                &&& final(self).watermarks == old(self).watermarks
            },
    {
        if start != self.next_ordinal {
            return Err(Raced);
        }
        self.next_ordinal = self.next_ordinal + batch;
        self.accepted = self.accepted + batch;
        self.write_latencies.push(latency);
        self.ingest_body_bytes_hwm = larger_of(self.ingest_body_bytes_hwm, bytes);
        Ok(())
    }

    /// Records an answered query of a kind.
    pub fn query_once(&mut self, shape: &'static str, latency: u64, bytes: u64, rows: u64)
        requires
            old(self).well_formed(),
        ensures
            final(self).well_formed(),
            final(self).accepted == old(self).accepted,
            final(self).write_latencies == old(self).write_latencies,
            final(self).ingest_body_bytes_hwm == old(self).ingest_body_bytes_hwm,
            final(self).memory_hwm_kib == old(self).memory_hwm_kib,
            final(self).watermarks == old(self).watermarks,
            record_of(final(self).queries@, shape@) matches Some(after) && match record_of(
                old(self).queries@,
                shape@,
            ) {
                Some(before) => {
                    &&& after.latencies@ == before.latencies@.push(latency)
                    &&& after.response_bytes_hwm == larger(before.response_bytes_hwm, bytes)
                    &&& after.result_rows_hwm == larger(before.result_rows_hwm, rows)
                },
                None => {
                    &&& after.latencies@ == seq![latency]
                    &&& after.response_bytes_hwm == bytes
                    &&& after.result_rows_hwm == rows
                },
            },
            forall|other: Seq<char>|
                other != shape@ ==> #[trigger] record_of(final(self).queries@, other) == record_of(
                    old(self).queries@,
                    other,
                ),
    {
        let ghost before = self.queries@;
        let mut i: usize = 0;
        while i < self.queries.len()
            invariant
                i <= self.queries@.len(),
                self.queries@ == before,
                *self == *old(self),
                old(self).well_formed(),
                before == old(self).queries@,
                forall|j: int| 0 <= j < i ==> (#[trigger] before[j]).shape@ != shape@,
            decreases self.queries.len() - i,
        {
            if same_text(self.queries[i].shape, shape) {
                let record = self.queries.remove(i);
                let ghost held = record;
                let mut latencies = record.latencies;
                latencies.push(latency);
                let changed = QueryRecord {
                    shape: record.shape,
                    latencies,
                    response_bytes_hwm: larger_of(record.response_bytes_hwm, bytes),
                    result_rows_hwm: larger_of(record.result_rows_hwm, rows),
                };
                self.queries.insert(i, changed);
                proof {
                    assert(self.queries@ =~= before.update(i as int, changed));
                    record_is_first(before, shape@, i as int);
                    record_is_first(self.queries@, shape@, i as int);
                    assert forall|other: Seq<char>| other != shape@ implies #[trigger] record_of(
                        self.queries@,
                        other,
                    ) == record_of(before, other) by {
                        records_elsewhere_stay(before, i as int, changed, other);
                    }
                }
                return;
            }
            i += 1;
        }
        let mut latencies: Vec<u64> = Vec::new();
        latencies.push(latency);
        assert(latencies@ =~= seq![latency]);
        let added = QueryRecord {
            shape,
            latencies,
            response_bytes_hwm: bytes,
            result_rows_hwm: rows,
        };
        self.queries.push(added);
        proof {
            record_is_missing(before, shape@);
            record_is_first(self.queries@, shape@, before.len() as int);
            assert forall|other: Seq<char>| other != shape@ implies #[trigger] record_of(
                self.queries@,
                other,
            ) == record_of(before, other) by {
                records_before_stay(before, added, other);
            }
        }
    }

    /// Records a reading of the counters and of the memory of the server.
    pub fn sample_state(&mut self, signal: Signal, stats: &Json, hwm_kib: u64)
        requires
            old(self).well_formed(),
        ensures
            final(self).well_formed(),
            final(self).accepted == old(self).accepted,
            final(self).write_latencies == old(self).write_latencies,
            final(self).ingest_body_bytes_hwm == old(self).ingest_body_bytes_hwm,
            final(self).queries == old(self).queries,
            final(self).memory_hwm_kib == larger(old(self).memory_hwm_kib, hwm_kib),
            final(self).watermarks@ == after_sample(old(self).watermarks@, signal, *stats),
    {
        self.memory_hwm_kib = larger_of(self.memory_hwm_kib, hwm_kib);
        let total: &'static str = signal.count_field();
        if let Some(value) = numeric_u64(stats, total) {
            raise(&mut self.watermarks, total, value);
        }
        let ghost first = self.watermarks@;
        let mut i: usize = 0;
        while i < 23
            invariant
                i <= 23,
                self.watermarks@ == sampled_into(first, *stats, i as nat),
                self.accepted == old(self).accepted,
                self.next_ordinal == old(self).next_ordinal,
                self.write_latencies == old(self).write_latencies,
                self.ingest_body_bytes_hwm == old(self).ingest_body_bytes_hwm,
                self.queries == old(self).queries,
                self.memory_hwm_kib == larger(old(self).memory_hwm_kib, hwm_kib),
            decreases 23 - i,
        {
            if let Some(key) = sampled(i) {
                if let Some(value) = numeric_u64(stats, key) {
                    raise(&mut self.watermarks, key, value);
                }
            }
            i += 1;
        }
    }
}

proof fn record_is_first(queries: Seq<QueryRecord>, shape: Seq<char>, i: int)
    requires
        0 <= i < queries.len(),
        queries[i].shape@ == shape,
        forall|j: int| 0 <= j < i ==> (#[trigger] queries[j]).shape@ != shape,
    ensures
        record_of(queries, shape) == Some(queries[i]),
    decreases queries.len(),
{
    if i > 0 {
        let rest = queries.drop_first();
        assert(queries[0].shape@ != shape);
        assert forall|j: int| 0 <= j < i - 1 implies (#[trigger] rest[j]).shape@ != shape by {
            assert(queries[j + 1].shape@ != shape);
        }
        record_is_first(rest, shape, i - 1);
    }
}

proof fn record_is_missing(queries: Seq<QueryRecord>, shape: Seq<char>)
    requires
        forall|j: int| 0 <= j < queries.len() ==> (#[trigger] queries[j]).shape@ != shape,
    ensures
        record_of(queries, shape) is None,
    decreases queries.len(),
{
    if queries.len() > 0 {
        let rest = queries.drop_first();
        assert(queries[0].shape@ != shape);
        assert forall|j: int| 0 <= j < rest.len() implies (#[trigger] rest[j]).shape@ != shape by {
            assert(queries[j + 1].shape@ != shape);
        }
        record_is_missing(rest, shape);
    }
}

proof fn records_elsewhere_stay(
    queries: Seq<QueryRecord>,
    i: int,
    changed: QueryRecord,
    other: Seq<char>,
)
    requires
        0 <= i < queries.len(),
        changed.shape == queries[i].shape,
        changed.shape@ != other,
    ensures
        record_of(queries.update(i, changed), other) == record_of(queries, other),
    decreases queries.len(),
{
    let after = queries.update(i, changed);
    if i == 0 {
        assert(after.drop_first() =~= queries.drop_first());
    } else {
        records_elsewhere_stay(queries.drop_first(), i - 1, changed, other);
        assert(after.drop_first() =~= queries.drop_first().update(i - 1, changed));
    }
}

proof fn records_before_stay(queries: Seq<QueryRecord>, added: QueryRecord, other: Seq<char>)
    requires
        added.shape@ != other,
    ensures
        record_of(queries.push(added), other) == record_of(queries, other),
    decreases queries.len(),
{
    if queries.len() == 0 {
        assert(queries.push(added).drop_first() =~= queries);
    } else {
        records_before_stay(queries.drop_first(), added, other);
        assert(queries.push(added).drop_first() =~= queries.drop_first().push(added));
    }
}

/// Why a server is not as durable as it must be.
#[derive(Clone, Copy, Debug, PartialEq, Eq, Structural)]
pub enum BarrierFault {
    NoCount,
    Count(u64),
    NotDrained(usize),
}

/// The measures that must be zero once a server is drained.
pub open spec fn drained_key(i: int) -> Option<&'static str> {
    if i == 0 {
        Some("queued_batches")
    } else if i == 1 {
        Some("queued_requests")
    } else if i == 2 {
        Some("in_flight_batches")
    } else if i == 3 {
        Some("in_flight_requests")
    } else {
        None
    }
}

/// The measures that must be zero once a server is drained.
pub fn drained(i: usize) -> (key: Option<&'static str>)
    ensures
        key == drained_key(i as int),
{
    if i == 0 {
        Some("queued_batches")
    } else if i == 1 {
        Some("queued_requests")
    } else if i == 2 {
        Some("in_flight_batches")
    } else if i == 3 {
        Some("in_flight_requests")
    } else {
        None
    }
}

/// A measure; zero where the reading does not have it.
pub open spec fn number_or_zero(stats: Json, key: Seq<char>) -> u64 {
    match floats::number_at(stats, key) {
        Some(n) => n,
        None => 0,
    }
}

fn count_or_zero(stats: &Json, key: &str) -> (n: u64)
    ensures
        n == number_or_zero(*stats, key@),
{
    match numeric_u64(stats, key) {
        Some(n) => n,
        None => 0,
    }
}

/// What is wrong with the counters after a flush, if anything: every accepted
/// record must be counted, and nothing may be waiting.
pub open spec fn barrier_fault(signal: Signal, accepted: u64, stats: Json) -> Option<BarrierFault> {
    match floats::number_at(stats, signal.total()@) {
        None => Some(BarrierFault::NoCount),
        Some(actual) => if actual != accepted {
            Some(BarrierFault::Count(actual))
        } else if number_or_zero(stats, "queued_batches"@) != 0 {
            Some(BarrierFault::NotDrained(0))
        } else if number_or_zero(stats, "queued_requests"@) != 0 {
            Some(BarrierFault::NotDrained(1))
        } else if number_or_zero(stats, "in_flight_batches"@) != 0 {
            Some(BarrierFault::NotDrained(2))
        } else if number_or_zero(stats, "in_flight_requests"@) != 0 {
            Some(BarrierFault::NotDrained(3))
        } else {
            None
        },
    }
}

/// Checks the counters after a flush.
pub fn durable_barrier(signal: Signal, accepted: u64, stats: &Json) -> (fault: Option<BarrierFault>)
    ensures
        fault == barrier_fault(signal, accepted, *stats),
{
    match numeric_u64(stats, signal.count_field()) {
        None => Some(BarrierFault::NoCount),
        Some(actual) => if actual != accepted {
            Some(BarrierFault::Count(actual))
        } else if count_or_zero(stats, "queued_batches") != 0 {
            Some(BarrierFault::NotDrained(0))
        } else if count_or_zero(stats, "queued_requests") != 0 {
            Some(BarrierFault::NotDrained(1))
        } else if count_or_zero(stats, "in_flight_batches") != 0 {
            Some(BarrierFault::NotDrained(2))
        } else if count_or_zero(stats, "in_flight_requests") != 0 {
            Some(BarrierFault::NotDrained(3))
        } else {
            None
        },
    }
}

/// Whether a restarted server has every accepted record.
pub fn restart_kept_all(signal: Signal, accepted: u64, stats: &Json) -> (yes: bool)
    ensures
        yes == (number_or_zero(*stats, signal.total()@) == accepted),
{
    count_or_zero(stats, signal.count_field()) == accepted
}

/// The count of a snapshot, if it lies between what was accepted before and
/// after it was taken.
pub fn snapshot_count(signal: Signal, before: u64, after: u64, stats: &Json) -> (count: Option<u64>)
    ensures
        ({
            let copied = number_or_zero(*stats, signal.total()@);
            count == (if before <= copied <= after {
                Some(copied)
            } else {
                None
            })
        }),
{
    let copied: u64 = count_or_zero(stats, signal.count_field());
    if copied < before || copied > after {
        None
    } else {
        Some(copied)
    }
}

/// A second backup to the same file was refused, and the file stayed as it was.
pub fn backup_was_kept(status: u16, before: &str, after: &str) -> (yes: bool)
    ensures
        yes == (status == 500 && before@ == after@),
{
    status == 500 && same_text(before, after)
}

/// The counters that are added up over the lives of a server.
pub open spec fn counter_key(i: int) -> Option<&'static str> {
    if i == 0 {
        Some("checkpoint_count")
    } else if i == 1 {
        Some("checkpoint_errors")
    } else if i == 2 {
        Some("backup_count")
    } else if i == 3 {
        Some("backup_errors")
    } else if i == 4 {
        Some("compact_count")
    } else if i == 5 {
        Some("compact_errors")
    } else if i == 6 {
        Some("optimize_count")
    } else if i == 7 {
        Some("optimize_errors")
    } else if i == 8 {
        Some("prune_count")
    } else if i == 9 {
        Some("prune_errors")
    } else if i == 10 {
        Some("scheduled_flush_count")
    } else if i == 11 {
        Some("scheduled_flush_errors")
    } else if i == 12 {
        Some("api_read_cancelled")
    } else if i == 13 {
        Some("extension_query_cancelled")
    } else if i == 14 {
        Some("api_read_retries")
    } else if i == 15 {
        Some("read_conflicts")
    } else if i == 16 {
        Some("extension_read_conflicts")
    } else if i == 17 {
        Some("writer_timeouts")
    } else if i == 18 {
        Some("extension_writer_timeouts")
    } else {
        None
    }
}

/// Counter `i` of those that are added up.
pub fn counter_field(i: usize) -> (key: Option<&'static str>)
    ensures
        key == counter_key(i as int),
{
    if i == 0 {
        Some("checkpoint_count")
    } else if i == 1 {
        Some("checkpoint_errors")
    } else if i == 2 {
        Some("backup_count")
    } else if i == 3 {
        Some("backup_errors")
    } else if i == 4 {
        Some("compact_count")
    } else if i == 5 {
        Some("compact_errors")
    } else if i == 6 {
        Some("optimize_count")
    } else if i == 7 {
        Some("optimize_errors")
    } else if i == 8 {
        Some("prune_count")
    } else if i == 9 {
        Some("prune_errors")
    } else if i == 10 {
        Some("scheduled_flush_count")
    } else if i == 11 {
        Some("scheduled_flush_errors")
    } else if i == 12 {
        Some("api_read_cancelled")
    } else if i == 13 {
        Some("extension_query_cancelled")
    } else if i == 14 {
        Some("api_read_retries")
    } else if i == 15 {
        Some("read_conflicts")
    } else if i == 16 {
        Some("extension_read_conflicts")
    } else if i == 17 {
        Some("writer_timeouts")
    } else if i == 18 {
        Some("extension_writer_timeouts")
    } else {
        None
    }
}

/// The sum of a counter over the first `n` readings.
pub open spec fn counted(readings: Seq<Json>, key: Seq<char>, n: nat) -> nat
    decreases n,
{
    if n == 0 {
        0
    } else {
        counted(readings, key, (n - 1) as nat) + number_or_zero(readings[n - 1], key) as nat
    }
}

proof fn sums_fit(readings: Seq<Json>, key: Seq<char>, n: nat)
    ensures
        counted(readings, key, n) <= n * 0xffff_ffff_ffff_ffff,
    decreases n,
{
    if n > 0 {
        sums_fit(readings, key, (n - 1) as nat);
        assert((n - 1) * 0xffff_ffff_ffff_ffff + 0xffff_ffff_ffff_ffff == n * 0xffff_ffff_ffff_ffff)
            by (nonlinear_arith);
    }
}

/// The sum of a counter over the last readings of all lives of a server.
pub fn aggregate_counter(readings: &Vec<Json>, key: &str) -> (total: u128)
    ensures
        total == counted(readings@, key@, readings@.len()),
{
    let mut total: u128 = 0;
    let mut i: usize = 0;
    while i < readings.len()
        invariant
            i <= readings@.len(),
            total == counted(readings@, key@, i as nat),
        decreases readings.len() - i,
    {
        let more: u64 = count_or_zero(&readings[i], key);
        proof {
            sums_fit(readings@, key@, (i + 1) as nat);
            assert((i + 1) * 0xffff_ffff_ffff_ffff <= 0x1_0000_0000_0000_0000
                * 0xffff_ffff_ffff_ffff) by (nonlinear_arith)
                requires
                    i + 1 <= 0x1_0000_0000_0000_0000,
            ;
        }
        total = total + more as u128;
        i += 1;
    }
    total
}

/// The physical bytes of a database, by either of their names.
pub open spec fn first_of(stats: Json, first: Seq<char>, second: Seq<char>) -> u64 {
    match floats::number_at(stats, first) {
        Some(n) => n,
        None => number_or_zero(stats, second),
    }
}

fn either(stats: &Json, first: &str, second: &str) -> (n: u64)
    ensures
        n == first_of(*stats, first@, second@),
{
    match numeric_u64(stats, first) {
        Some(n) => n,
        None => count_or_zero(stats, second),
    }
}

/// The physical and logical size of a database.
pub fn storage_bytes(stats: &Json) -> (bytes: (u64, u64))
    ensures
        bytes.0 == first_of(*stats, "physical_database_bytes"@, "disk_size"@),
        bytes.1 == first_of(*stats, "bytes_on_disk"@, "total_bytes"@),
{
    (
        either(stats, "physical_database_bytes", "disk_size"),
        either(stats, "bytes_on_disk", "total_bytes"),
    )
}

/// The queries of one kind, summed up. The latency is a float, by its bits.
pub struct QuerySummary {
    pub shape: String,
    pub requests: u64,
    pub p99: u64,
    pub rows: u64,
}

/// The result of a signal, as the soak judges it. The slope is a float, by its
/// bits.
pub struct SignalResult {
    pub errors: usize,
    pub accepted: u64,
    pub wal_hwm_bytes: u64,
    pub rss_hwm_kib: u64,
    pub slope: u64,
    pub queries: Vec<QuerySummary>,
    pub queued_batches_hwm: u64,
    pub queued_requests_hwm: u64,
    pub final_stats: Json,
    pub counters: Vec<(String, u64)>,
}

/// The limits of a run. Durations, latencies and slopes are floats, by their
/// bits.
#[derive(Clone, Copy, Debug, PartialEq, Eq, Structural)]
pub struct Limits {
    pub duration: u64,
    pub max_wal_bytes: u64,
    pub max_p99: u64,
    pub max_slope: u64,
    pub max_rss_kib: RssLimits,
    pub skip_faults: bool,
}

/// A limit that a signal did not keep. Places name a query or a counter of the
/// signal.
#[derive(Clone, Copy, Debug, PartialEq, Eq)]
pub enum Failure {
    WorkloadErrors,
    NoDurableWork,
    Wal(u64),
    Rss(u64),
    Slope,
    NoQueries(usize),
    Latency(usize),
    NoRows(usize),
    Queue(&'static str, u64, u64),
    Waiting(&'static str, u64),
    Backups(u64, u64),
    Counter(usize),
}

/// A list of one failure, or none.
pub open spec fn failure_if(wrong: bool, failure: Failure) -> Seq<Failure> {
    if wrong {
        seq![failure]
    } else {
        Seq::empty()
    }
}

/// The failures of the first `n` kinds of queries.
pub open spec fn query_failures(queries: Seq<QuerySummary>, max_p99: u64, n: nat) -> Seq<Failure>
    decreases n,
{
    if n == 0 {
        Seq::empty()
    } else {
        let q = queries[n - 1];
        query_failures(queries, max_p99, (n - 1) as nat) + failure_if(
            q.requests == 0,
            Failure::NoQueries((n - 1) as usize),
        ) + failure_if(
            q.requests != 0 && floats::is_less(max_p99, q.p99),
            Failure::Latency((n - 1) as usize),
        ) + failure_if(q.rows == 0, Failure::NoRows((n - 1) as usize))
    }
}

/// A counter of errors or timeouts other than refused backups.
pub open spec fn counts_errors(key: Seq<char>) -> bool {
    key != "backup_errors"@ && (text::ends_in(key, "_errors"@) || text::ends_in(key, "_timeouts"@))
}

/// The failures of the first `n` counters.
pub open spec fn counter_failures(counters: Seq<(String, u64)>, n: nat) -> Seq<Failure>
    decreases n,
{
    if n == 0 {
        Seq::empty()
    } else {
        counter_failures(counters, (n - 1) as nat) + failure_if(
            counts_errors(counters[n - 1].0@) && counters[n - 1].1 != 0,
            Failure::Counter((n - 1) as usize),
        )
    }
}

/// The value of a counter; zero where it is missing.
pub open spec fn counter_value(counters: Seq<(String, u64)>, key: Seq<char>) -> u64
    decreases counters.len(),
{
    if counters.len() == 0 {
        0
    } else if counters[0].0@ == key {
        counters[0].1
    } else {
        counter_value(counters.drop_first(), key)
    }
}

/// The queue of a signal: its name, and how long it ever was.
pub open spec fn queue_of(signal: Signal, result: SignalResult) -> (&'static str, u64) {
    if signal is Traces {
        ("queued_requests", result.queued_requests_hwm)
    } else {
        ("queued_batches", result.queued_batches_hwm)
    }
}

/// The failure of a measure that is not zero at the end.
pub open spec fn waiting(stats: Json, key: &'static str) -> Seq<Failure> {
    failure_if(
        number_or_zero(stats, key@) != 0,
        Failure::Waiting(key, number_or_zero(stats, key@)),
    )
}

/// All failures of a signal, in order.
pub open spec fn signal_failures(signal: Signal, result: SignalResult, limits: Limits) -> Seq<
    Failure,
> {
    let capacity = first_of(
        result.final_stats,
        "command_queue_capacity_batches"@,
        "command_queue_capacity_requests"@,
    );
    let (queue, longest) = queue_of(signal, result);
    let expected: u64 = if limits.skip_faults {
        0
    } else {
        1
    };
    let refused = counter_value(result.counters@, "backup_errors"@);
    failure_if(result.errors != 0, Failure::WorkloadErrors) + failure_if(
        result.accepted == 0,
        Failure::NoDurableWork,
    ) + failure_if(
        result.wal_hwm_bytes > limits.max_wal_bytes,
        Failure::Wal(result.wal_hwm_bytes),
    ) + failure_if(
        result.rss_hwm_kib > limits.max_rss_kib.limit(signal),
        Failure::Rss(result.rss_hwm_kib),
    ) + failure_if(
        !floats::is_less(limits.duration, TWO_HOURS) && !crate::ieee::is_nan(limits.duration)
            && floats::is_less(limits.max_slope, result.slope),
        Failure::Slope,
    ) + query_failures(result.queries@, limits.max_p99, result.queries@.len()) + failure_if(
        capacity > 0 && longest > capacity,
        Failure::Queue(queue, longest, capacity),
    ) + waiting(result.final_stats, "queued_batches") + waiting(
        result.final_stats,
        "queued_requests",
    ) + waiting(result.final_stats, "in_flight_batches") + waiting(
        result.final_stats,
        "in_flight_requests",
    ) + failure_if(refused != expected, Failure::Backups(expected, refused)) + counter_failures(
        result.counters@,
        result.counters@.len(),
    )
}

fn add_failure(out: &mut Vec<Failure>, wrong: bool, failure: Failure)
    ensures
        final(out)@ == old(out)@ + failure_if(wrong, failure),
{
    if wrong {
        out.push(failure);
    }
    assert(out@ =~= old(out)@ + failure_if(wrong, failure));
}

fn add_query_failures(out: &mut Vec<Failure>, queries: &Vec<QuerySummary>, max_p99: u64)
    ensures
        final(out)@ == old(out)@ + query_failures(queries@, max_p99, queries@.len()),
{
    let mut i: usize = 0;
    assert(out@ =~= old(out)@ + query_failures(queries@, max_p99, 0));
    while i < queries.len()
        invariant
            i <= queries@.len(),
            out@ == old(out)@ + query_failures(queries@, max_p99, i as nat),
        decreases queries.len() - i,
    {
        let ghost before = out@;
        let q = &queries[i];
        add_failure(out, q.requests == 0, Failure::NoQueries(i));
        add_failure(out, q.requests != 0 && less(max_p99, q.p99), Failure::Latency(i));
        add_failure(out, q.rows == 0, Failure::NoRows(i));
        i += 1;
        assert(out@ =~= old(out)@ + query_failures(queries@, max_p99, i as nat));
    }
}

fn add_counter_failures(out: &mut Vec<Failure>, counters: &Vec<(String, u64)>)
    ensures
        final(out)@ == old(out)@ + counter_failures(counters@, counters@.len()),
{
    let mut i: usize = 0;
    assert(out@ =~= old(out)@ + counter_failures(counters@, 0));
    while i < counters.len()
        invariant
            i <= counters@.len(),
            out@ == old(out)@ + counter_failures(counters@, i as nat),
        decreases counters.len() - i,
    {
        let key = &counters[i].0;
        let wrong = !same_text(key, "backup_errors") && (ends_with(key, "_errors") || ends_with(
            key,
            "_timeouts",
        )) && counters[i].1 != 0;
        add_failure(out, wrong, Failure::Counter(i));
        i += 1;
        assert(out@ =~= old(out)@ + counter_failures(counters@, i as nat));
    }
}

fn find_counter(counters: &Vec<(String, u64)>, key: &str) -> (value: u64)
    ensures
        value == counter_value(counters@, key@),
{
    let mut i: usize = 0;
    assert(counters@.skip(0) =~= counters@);
    while i < counters.len()
        invariant
            i <= counters@.len(),
            counter_value(counters@, key@) == counter_value(counters@.skip(i as int), key@),
        decreases counters.len() - i,
    {
        assert(counters@.skip(i as int)[0] == counters@[i as int]);
        assert(counters@.skip(i as int).drop_first() =~= counters@.skip(i + 1));
        if same_text(&counters[i].0, key) {
            return counters[i].1;
        }
        i += 1;
    }
    0
}

fn add_waiting(out: &mut Vec<Failure>, stats: &Json, key: &'static str)
    ensures
        final(out)@ == old(out)@ + waiting(*stats, key),
{
    let value: u64 = count_or_zero(stats, key);
    add_failure(out, value != 0, Failure::Waiting(key, value));
}

/// The failures of a signal: workload errors, no durable work, limits of the
/// write-ahead log, of memory and of its growth, of latencies and results, of
/// queues, and counters of errors.
pub fn enforce_gates(signal: Signal, result: &SignalResult, limits: Limits) -> (failures: Vec<
    Failure,
>)
    ensures
        failures@ == signal_failures(signal, *result, limits),
{
    let mut failures: Vec<Failure> = Vec::new();
    if result.errors != 0 {
        failures.push(Failure::WorkloadErrors);
    }
    assert(failures@ =~= failure_if(result.errors != 0, Failure::WorkloadErrors));
    add_failure(&mut failures, result.accepted == 0, Failure::NoDurableWork);
    add_failure(
        &mut failures,
        result.wal_hwm_bytes > limits.max_wal_bytes,
        Failure::Wal(result.wal_hwm_bytes),
    );
    add_failure(
        &mut failures,
        result.rss_hwm_kib > limits.max_rss_kib.of(signal),
        Failure::Rss(result.rss_hwm_kib),
    );
    let long: bool = !less(limits.duration, TWO_HOURS) && !crate::ieee::nan_bits(limits.duration);
    add_failure(&mut failures, long && less(limits.max_slope, result.slope), Failure::Slope);
    add_query_failures(&mut failures, &result.queries, limits.max_p99);
    let capacity: u64 = either(
        &result.final_stats,
        "command_queue_capacity_batches",
        "command_queue_capacity_requests",
    );
    let traces: bool = match signal {
        Signal::Traces => true,
        _ => false,
    };
    let queue: &'static str = if traces {
        "queued_requests"
    } else {
        "queued_batches"
    };
    let longest: u64 = if traces {
        result.queued_requests_hwm
    } else {
        result.queued_batches_hwm
    };
    add_failure(
        &mut failures,
        capacity > 0 && longest > capacity,
        Failure::Queue(queue, longest, capacity),
    );
    add_waiting(&mut failures, &result.final_stats, "queued_batches");
    add_waiting(&mut failures, &result.final_stats, "queued_requests");
    add_waiting(&mut failures, &result.final_stats, "in_flight_batches");
    add_waiting(&mut failures, &result.final_stats, "in_flight_requests");
    let expected: u64 = if limits.skip_faults {
        0
    } else {
        1
    };
    let refused: u64 = find_counter(&result.counters, "backup_errors");
    add_failure(&mut failures, refused != expected, Failure::Backups(expected, refused));
    add_counter_failures(&mut failures, &result.counters);
    failures
}

/// The words of a failure. Two kinds speak of floats, which are given in print.
pub open spec fn failure_words(
    signal: Signal,
    result: SignalResult,
    limits: Limits,
    failure: Failure,
    measured: Seq<char>,
    limit: Seq<char>,
) -> Seq<char> {
    let name = signal.word()@;
    match failure {
        Failure::WorkloadErrors => name + ": workload errors"@,
        Failure::NoDurableWork => name + ": no durable work"@,
        Failure::Wal(n) => name + ": WAL HWM "@ + text::decimal(n as nat) + " > "@ + text::decimal(
            limits.max_wal_bytes as nat,
        ),
        Failure::Rss(n) => name + ": RSS HWM "@ + text::decimal(n as nat) + " KiB > "@
            + text::decimal(limits.max_rss_kib.limit(signal) as nat) + " KiB"@,
        Failure::Slope => name + ": RSS slope "@ + measured + " KiB/h > "@ + limit + " KiB/h"@,
        Failure::NoQueries(i) => name + "/"@ + result.queries@[i as int].shape@ + ": no queries"@,
        Failure::Latency(i) => name + "/"@ + result.queries@[i as int].shape@ + ": p99 "@ + measured
            + " ms > "@ + limit + " ms"@,
        Failure::NoRows(i) => name + "/"@ + result.queries@[i as int].shape@
            + ": every completed query returned zero rows"@,
        Failure::Queue(key, longest, capacity) => name + ": "@ + key@ + " HWM "@ + text::decimal(
            longest as nat,
        ) + " exceeds configured capacity "@ + text::decimal(capacity as nat),
        Failure::Waiting(key, n) => name + ": final "@ + key@ + "="@ + text::decimal(n as nat),
        Failure::Backups(expected, refused) => name + ": expected "@ + text::decimal(
            expected as nat,
        ) + " observed no-clobber backup errors, got "@ + text::decimal(refused as nat),
        Failure::Counter(i) => name + ": "@ + result.counters@[i as int].0@ + "="@ + text::decimal(
            result.counters@[i as int].1 as nat,
        ),
    }
}

/// The failure names a query or a counter that the result has.
pub open spec fn names_a_member(result: SignalResult, failure: Failure) -> bool {
    match failure {
        Failure::NoQueries(i) => i < result.queries@.len(),
        Failure::Latency(i) => i < result.queries@.len(),
        Failure::NoRows(i) => i < result.queries@.len(),
        Failure::Counter(i) => i < result.counters@.len(),
        _ => true,
    }
}

/// The words of a failure.
pub fn failure_message(
    signal: Signal,
    result: &SignalResult,
    limits: Limits,
    failure: Failure,
    measured: &str,
    limit: &str,
) -> (words: String)
    requires
        names_a_member(*result, failure),
    ensures
        words@ == failure_words(signal, *result, limits, failure, measured@, limit@),
{
    let mut words = String::new();
    words.append(signal.name());
    match failure {
        Failure::WorkloadErrors => {
            words.append(": workload errors");
        },
        Failure::NoDurableWork => {
            words.append(": no durable work");
        },
        Failure::Wal(n) => {
            words.append(": WAL HWM ");
            push_decimal(&mut words, n);
            words.append(" > ");
            push_decimal(&mut words, limits.max_wal_bytes);
        },
        Failure::Rss(n) => {
            words.append(": RSS HWM ");
            push_decimal(&mut words, n);
            words.append(" KiB > ");
            push_decimal(&mut words, limits.max_rss_kib.of(signal));
            words.append(" KiB");
        },
        Failure::Slope => {
            words.append(": RSS slope ");
            words.append(measured);
            words.append(" KiB/h > ");
            words.append(limit);
            words.append(" KiB/h");
        },
        Failure::NoQueries(i) => {
            words.append("/");
            words.append(&result.queries[i].shape);
            words.append(": no queries");
        },
        Failure::Latency(i) => {
            words.append("/");
            words.append(&result.queries[i].shape);
            words.append(": p99 ");
            words.append(measured);
            words.append(" ms > ");
            words.append(limit);
            words.append(" ms");
        },
        Failure::NoRows(i) => {
            words.append("/");
            words.append(&result.queries[i].shape);
            words.append(": every completed query returned zero rows");
        },
        Failure::Queue(key, longest, capacity) => {
            words.append(": ");
            words.append(key);
            words.append(" HWM ");
            push_decimal(&mut words, longest);
            words.append(" exceeds configured capacity ");
            push_decimal(&mut words, capacity);
        },
        Failure::Waiting(key, n) => {
            words.append(": final ");
            words.append(key);
            words.append("=");
            push_decimal(&mut words, n);
        },
        Failure::Backups(expected, refused) => {
            words.append(": expected ");
            push_decimal(&mut words, expected);
            words.append(" observed no-clobber backup errors, got ");
            push_decimal(&mut words, refused);
        },
        Failure::Counter(i) => {
            words.append(": ");
            words.append(&result.counters[i].0);
            words.append("=");
            push_decimal(&mut words, result.counters[i].1);
        },
    }
    assert(words@ =~= failure_words(signal, *result, limits, failure, measured@, limit@));
    words
}

} // verus!
