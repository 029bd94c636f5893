//! Rich spans: rows and batches say the same, through blocks, transactions, maintenance,
//! damage and reopening.
use crate::gate::{Action, Argument, Arguments, Blob, Bound, Database, Expected, SpanName};
use crate::values::{Literal, Row};
use vstd::prelude::*;

verus! {

/// A part of the script.
pub open spec fn run_part_0_at(i: int) -> Option<Action> {
    if i == 0 {
        Some(Action::Open(0, Database::Given))
    } else if i == 1 {
        Some(Action::Batch(0, "CREATE VIRTUAL TABLE row_spans USING timeless_traces; CREATE VIRTUAL TABLE batch_spans USING timeless_traces; CREATE VIRTUAL TABLE threshold_spans USING timeless_traces; CREATE VIRTUAL TABLE txn_spans USING timeless_traces; CREATE VIRTUAL TABLE lifecycle_spans USING timeless_traces; CREATE VIRTUAL TABLE corrupt_spans USING timeless_traces; CREATE VIRTUAL TABLE percentile_spans USING timeless_traces; CREATE VIRTUAL TABLE v0_spans USING timeless_traces;", Expected::Done))
    } else if i == 2 {
        Some(Action::InsertSpan(0, "row_spans", SpanName::Contract(0), Expected::Done))
    } else if i == 3 {
        Some(Action::InsertSpan(0, "row_spans", SpanName::Contract(1), Expected::Done))
    } else if i == 4 {
        Some(Action::Execute(0, "INSERT INTO batch_spans(batch_spans) VALUES (?1)", Arguments::One(Argument::Made(Blob::Contract)), Expected::Done))
    } else if i == 5 {
        Some(Action::KeepSpans(0, "row_spans", 0))
    } else if i == 6 {
        Some(Action::KeepSpans(0, "batch_spans", 1))
    } else if i == 7 {
        Some(Action::SameSpans(0, "row_spans", 1))
    } else if i == 8 {
        Some(Action::SpanService(1, "contract-svc"))
    } else if i == 9 {
        Some(Action::Query(0, "SELECT COUNT(*) FROM batch_spans WHERE service='contract-svc'", Arguments::Zero, Expected::First(Row::One(Literal::Integer(2)))))
    } else if i == 10 {
        Some(Action::Query(0, "SELECT COUNT(*) FROM batch_spans WHERE service='explicit-must-not-win'", Arguments::Zero, Expected::First(Row::One(Literal::Integer(0)))))
    } else if i == 11 {
        Some(Action::ContractRoot(1))
    } else if i == 12 {
        Some(Action::Query(0, "SELECT trace_id FROM \"batch_spans\" WHERE service='contract-svc' ORDER BY start_ts,span_id", Arguments::Zero, Expected::Many(2)))
    } else if i == 13 {
        Some(Action::Query(0, "SELECT span_id FROM \"batch_spans\" WHERE service='contract-svc' ORDER BY start_ts,span_id", Arguments::Zero, Expected::Many(2)))
    } else if i == 14 {
        Some(Action::Query(0, "SELECT parent_span_id FROM \"batch_spans\" WHERE service='contract-svc' ORDER BY start_ts,span_id", Arguments::Zero, Expected::Many(2)))
    } else if i == 15 {
        Some(Action::Query(0, "SELECT name FROM \"batch_spans\" WHERE service='contract-svc' ORDER BY start_ts,span_id", Arguments::Zero, Expected::Many(2)))
    } else if i == 16 {
        Some(Action::Query(0, "SELECT service FROM \"batch_spans\" WHERE service='contract-svc' ORDER BY start_ts,span_id", Arguments::Zero, Expected::Many(2)))
    } else if i == 17 {
        Some(Action::Query(0, "SELECT kind FROM \"batch_spans\" WHERE service='contract-svc' ORDER BY start_ts,span_id", Arguments::Zero, Expected::Many(2)))
    } else if i == 18 {
        Some(Action::Query(0, "SELECT status FROM \"batch_spans\" WHERE service='contract-svc' ORDER BY start_ts,span_id", Arguments::Zero, Expected::Many(2)))
    } else if i == 19 {
        Some(Action::Query(0, "SELECT start_ts FROM \"batch_spans\" WHERE service='contract-svc' ORDER BY start_ts,span_id", Arguments::Zero, Expected::Many(2)))
    } else if i == 20 {
        Some(Action::Query(0, "SELECT duration_ns FROM \"batch_spans\" WHERE service='contract-svc' ORDER BY start_ts,span_id", Arguments::Zero, Expected::Many(2)))
    } else if i == 21 {
        Some(Action::Query(0, "SELECT attributes FROM \"batch_spans\" WHERE service='contract-svc' ORDER BY start_ts,span_id", Arguments::Zero, Expected::Many(2)))
    } else if i == 22 {
        Some(Action::Query(0, "SELECT status_description FROM \"batch_spans\" WHERE service='contract-svc' ORDER BY start_ts,span_id", Arguments::Zero, Expected::Many(2)))
    } else if i == 23 {
        Some(Action::Query(0, "SELECT events FROM \"batch_spans\" WHERE service='contract-svc' ORDER BY start_ts,span_id", Arguments::Zero, Expected::Many(2)))
    } else {
        None
    }
}

fn run_part_0(i: usize) -> (action: Option<Action>)
    ensures
        action == run_part_0_at(i as int),
{
    if i == 0 {
        Some(Action::Open(0, Database::Given))
    } else if i == 1 {
        Some(Action::Batch(0, "CREATE VIRTUAL TABLE row_spans USING timeless_traces; CREATE VIRTUAL TABLE batch_spans USING timeless_traces; CREATE VIRTUAL TABLE threshold_spans USING timeless_traces; CREATE VIRTUAL TABLE txn_spans USING timeless_traces; CREATE VIRTUAL TABLE lifecycle_spans USING timeless_traces; CREATE VIRTUAL TABLE corrupt_spans USING timeless_traces; CREATE VIRTUAL TABLE percentile_spans USING timeless_traces; CREATE VIRTUAL TABLE v0_spans USING timeless_traces;", Expected::Done))
    } else if i == 2 {
        Some(Action::InsertSpan(0, "row_spans", SpanName::Contract(0), Expected::Done))
    } else if i == 3 {
        Some(Action::InsertSpan(0, "row_spans", SpanName::Contract(1), Expected::Done))
    } else if i == 4 {
        Some(Action::Execute(0, "INSERT INTO batch_spans(batch_spans) VALUES (?1)", Arguments::One(Argument::Made(Blob::Contract)), Expected::Done))
    } else if i == 5 {
        Some(Action::KeepSpans(0, "row_spans", 0))
    } else if i == 6 {
        Some(Action::KeepSpans(0, "batch_spans", 1))
    } else if i == 7 {
        Some(Action::SameSpans(0, "row_spans", 1))
    } else if i == 8 {
        Some(Action::SpanService(1, "contract-svc"))
    } else if i == 9 {
        Some(Action::Query(0, "SELECT COUNT(*) FROM batch_spans WHERE service='contract-svc'", Arguments::Zero, Expected::First(Row::One(Literal::Integer(2)))))
    } else if i == 10 {
        Some(Action::Query(0, "SELECT COUNT(*) FROM batch_spans WHERE service='explicit-must-not-win'", Arguments::Zero, Expected::First(Row::One(Literal::Integer(0)))))
    } else if i == 11 {
        Some(Action::ContractRoot(1))
    } else if i == 12 {
        Some(Action::Query(0, "SELECT trace_id FROM \"batch_spans\" WHERE service='contract-svc' ORDER BY start_ts,span_id", Arguments::Zero, Expected::Many(2)))
    } else if i == 13 {
        Some(Action::Query(0, "SELECT span_id FROM \"batch_spans\" WHERE service='contract-svc' ORDER BY start_ts,span_id", Arguments::Zero, Expected::Many(2)))
    } else if i == 14 {
        Some(Action::Query(0, "SELECT parent_span_id FROM \"batch_spans\" WHERE service='contract-svc' ORDER BY start_ts,span_id", Arguments::Zero, Expected::Many(2)))
    } else if i == 15 {
        Some(Action::Query(0, "SELECT name FROM \"batch_spans\" WHERE service='contract-svc' ORDER BY start_ts,span_id", Arguments::Zero, Expected::Many(2)))
    } else if i == 16 {
        Some(Action::Query(0, "SELECT service FROM \"batch_spans\" WHERE service='contract-svc' ORDER BY start_ts,span_id", Arguments::Zero, Expected::Many(2)))
    } else if i == 17 {
        Some(Action::Query(0, "SELECT kind FROM \"batch_spans\" WHERE service='contract-svc' ORDER BY start_ts,span_id", Arguments::Zero, Expected::Many(2)))
    } else if i == 18 {
        Some(Action::Query(0, "SELECT status FROM \"batch_spans\" WHERE service='contract-svc' ORDER BY start_ts,span_id", Arguments::Zero, Expected::Many(2)))
    } else if i == 19 {
        Some(Action::Query(0, "SELECT start_ts FROM \"batch_spans\" WHERE service='contract-svc' ORDER BY start_ts,span_id", Arguments::Zero, Expected::Many(2)))
    } else if i == 20 {
        Some(Action::Query(0, "SELECT duration_ns FROM \"batch_spans\" WHERE service='contract-svc' ORDER BY start_ts,span_id", Arguments::Zero, Expected::Many(2)))
    } else if i == 21 {
        Some(Action::Query(0, "SELECT attributes FROM \"batch_spans\" WHERE service='contract-svc' ORDER BY start_ts,span_id", Arguments::Zero, Expected::Many(2)))
    } else if i == 22 {
        Some(Action::Query(0, "SELECT status_description FROM \"batch_spans\" WHERE service='contract-svc' ORDER BY start_ts,span_id", Arguments::Zero, Expected::Many(2)))
    } else if i == 23 {
        Some(Action::Query(0, "SELECT events FROM \"batch_spans\" WHERE service='contract-svc' ORDER BY start_ts,span_id", Arguments::Zero, Expected::Many(2)))
    } else {
        None
    }
}

/// A part of the script.
pub open spec fn run_part_1_at(i: int) -> Option<Action> {
    if i == 0 {
        Some(Action::Query(0, "SELECT resource FROM \"batch_spans\" WHERE service='contract-svc' ORDER BY start_ts,span_id", Arguments::Zero, Expected::Many(2)))
    } else if i == 1 {
        Some(Action::Query(0, "SELECT instrumentation_scope FROM \"batch_spans\" WHERE service='contract-svc' ORDER BY start_ts,span_id", Arguments::Zero, Expected::Many(2)))
    } else if i == 2 {
        Some(Action::ContractRow(0, "SELECT trace_id,attributes,events,duration_ns FROM \"batch_spans\" WHERE status='error' AND service='contract-svc'"))
    } else if i == 3 {
        Some(Action::Execute(0, "INSERT INTO percentile_spans(percentile_spans) VALUES (?1)", Arguments::One(Argument::Made(Blob::Percentiles(0))), Expected::Done))
    } else if i == 4 {
        Some(Action::Execute(0, "INSERT INTO percentile_spans(percentile_spans) VALUES (?1)", Arguments::One(Argument::Made(Blob::Percentiles(1))), Expected::Done))
    } else if i == 5 {
        Some(Action::Query(0, "SELECT count(*) FROM timeless_trace_buckets(?1,?2,?3,?4,?5)", Arguments::Five(Argument::Text("percentile_spans"), Argument::Text("empty"), Argument::Integer(1800000000000000000), Argument::Integer(1800000000000020000), Argument::Integer(100000)), Expected::First(Row::One(Literal::Integer(0)))))
    } else if i == 6 {
        Some(Action::PercentileRows(0))
    } else if i == 7 {
        Some(Action::Execute(0, "INSERT INTO percentile_spans(percentile_spans) VALUES ('flush')", Arguments::Zero, Expected::Done))
    } else if i == 8 {
        Some(Action::Execute(0, "INSERT INTO percentile_spans(percentile_spans) VALUES ('optimize')", Arguments::Zero, Expected::Done))
    } else if i == 9 {
        Some(Action::Query(0, "SELECT count(*) FROM timeless_trace_buckets(?1,?2,?3,?4,?5)", Arguments::Five(Argument::Text("percentile_spans"), Argument::Text("empty"), Argument::Integer(1800000000000000000), Argument::Integer(1800000000000020000), Argument::Integer(100000)), Expected::First(Row::One(Literal::Integer(0)))))
    } else if i == 10 {
        Some(Action::PercentileRows(0))
    } else if i == 11 {
        Some(Action::InsertSpan(0, "row_spans", SpanName::Bad, Expected::Refused))
    } else if i == 12 {
        Some(Action::KeepSpans(0, "row_spans", 0))
    } else if i == 13 {
        Some(Action::SpanCount(0, 2))
    } else if i == 14 {
        Some(Action::Execute(0, "INSERT INTO v0_spans(v0_spans) VALUES (?1)", Arguments::One(Argument::Made(Blob::Legacy)), Expected::Done))
    } else if i == 15 {
        Some(Action::LegacyRow(0, "SELECT attributes,status_description,events,resource,instrumentation_scope FROM v0_spans"))
    } else if i == 16 {
        Some(Action::Execute(0, "INSERT INTO threshold_spans(threshold_spans) VALUES (?1)", Arguments::One(Argument::Made(Blob::Threshold)), Expected::Done))
    } else if i == 17 {
        Some(Action::Query(0, "SELECT COUNT(*) FROM threshold_spans_blocks", Arguments::Zero, Expected::First(Row::One(Literal::Integer(0)))))
    } else if i == 18 {
        Some(Action::InsertSpan(0, "threshold_spans", SpanName::Rich(20_000), Expected::Done))
    } else if i == 19 {
        Some(Action::Query(0, "SELECT COUNT(*) FROM threshold_spans_blocks", Arguments::Zero, Expected::First(Row::One(Literal::Integer(3)))))
    } else if i == 20 {
        Some(Action::Query(0, "SELECT COUNT(*) FROM threshold_spans", Arguments::Zero, Expected::First(Row::One(Literal::Integer(8192)))))
    } else if i == 21 {
        Some(Action::Execute(0, "INSERT INTO txn_spans(txn_spans) VALUES (?1)", Arguments::One(Argument::Made(Blob::ContractShort)), Expected::Refused))
    } else if i == 22 {
        Some(Action::Execute(0, "BEGIN", Arguments::Zero, Expected::Done))
    } else if i == 23 {
        Some(Action::InsertSpan(0, "txn_spans", SpanName::Rich(30_001), Expected::Done))
    } else {
        None
    }
}

fn run_part_1(i: usize) -> (action: Option<Action>)
    ensures
        action == run_part_1_at(i as int),
{
    if i == 0 {
        Some(Action::Query(0, "SELECT resource FROM \"batch_spans\" WHERE service='contract-svc' ORDER BY start_ts,span_id", Arguments::Zero, Expected::Many(2)))
    } else if i == 1 {
        Some(Action::Query(0, "SELECT instrumentation_scope FROM \"batch_spans\" WHERE service='contract-svc' ORDER BY start_ts,span_id", Arguments::Zero, Expected::Many(2)))
    } else if i == 2 {
        Some(Action::ContractRow(0, "SELECT trace_id,attributes,events,duration_ns FROM \"batch_spans\" WHERE status='error' AND service='contract-svc'"))
    } else if i == 3 {
        Some(Action::Execute(0, "INSERT INTO percentile_spans(percentile_spans) VALUES (?1)", Arguments::One(Argument::Made(Blob::Percentiles(0))), Expected::Done))
    } else if i == 4 {
        Some(Action::Execute(0, "INSERT INTO percentile_spans(percentile_spans) VALUES (?1)", Arguments::One(Argument::Made(Blob::Percentiles(1))), Expected::Done))
    } else if i == 5 {
        Some(Action::Query(0, "SELECT count(*) FROM timeless_trace_buckets(?1,?2,?3,?4,?5)", Arguments::Five(Argument::Text("percentile_spans"), Argument::Text("empty"), Argument::Integer(1800000000000000000), Argument::Integer(1800000000000020000), Argument::Integer(100000)), Expected::First(Row::One(Literal::Integer(0)))))
    } else if i == 6 {
        Some(Action::PercentileRows(0))
    } else if i == 7 {
        Some(Action::Execute(0, "INSERT INTO percentile_spans(percentile_spans) VALUES ('flush')", Arguments::Zero, Expected::Done))
    } else if i == 8 {
        Some(Action::Execute(0, "INSERT INTO percentile_spans(percentile_spans) VALUES ('optimize')", Arguments::Zero, Expected::Done))
    } else if i == 9 {
        Some(Action::Query(0, "SELECT count(*) FROM timeless_trace_buckets(?1,?2,?3,?4,?5)", Arguments::Five(Argument::Text("percentile_spans"), Argument::Text("empty"), Argument::Integer(1800000000000000000), Argument::Integer(1800000000000020000), Argument::Integer(100000)), Expected::First(Row::One(Literal::Integer(0)))))
    } else if i == 10 {
        Some(Action::PercentileRows(0))
    } else if i == 11 {
        Some(Action::InsertSpan(0, "row_spans", SpanName::Bad, Expected::Refused))
    } else if i == 12 {
        Some(Action::KeepSpans(0, "row_spans", 0))
    } else if i == 13 {
        Some(Action::SpanCount(0, 2))
    } else if i == 14 {
        Some(Action::Execute(0, "INSERT INTO v0_spans(v0_spans) VALUES (?1)", Arguments::One(Argument::Made(Blob::Legacy)), Expected::Done))
    } else if i == 15 {
        Some(Action::LegacyRow(0, "SELECT attributes,status_description,events,resource,instrumentation_scope FROM v0_spans"))
    } else if i == 16 {
        Some(Action::Execute(0, "INSERT INTO threshold_spans(threshold_spans) VALUES (?1)", Arguments::One(Argument::Made(Blob::Threshold)), Expected::Done))
    } else if i == 17 {
        Some(Action::Query(0, "SELECT COUNT(*) FROM threshold_spans_blocks", Arguments::Zero, Expected::First(Row::One(Literal::Integer(0)))))
    } else if i == 18 {
        Some(Action::InsertSpan(0, "threshold_spans", SpanName::Rich(20_000), Expected::Done))
    } else if i == 19 {
        Some(Action::Query(0, "SELECT COUNT(*) FROM threshold_spans_blocks", Arguments::Zero, Expected::First(Row::One(Literal::Integer(3)))))
    } else if i == 20 {
        Some(Action::Query(0, "SELECT COUNT(*) FROM threshold_spans", Arguments::Zero, Expected::First(Row::One(Literal::Integer(8192)))))
    } else if i == 21 {
        Some(Action::Execute(0, "INSERT INTO txn_spans(txn_spans) VALUES (?1)", Arguments::One(Argument::Made(Blob::ContractShort)), Expected::Refused))
    } else if i == 22 {
        Some(Action::Execute(0, "BEGIN", Arguments::Zero, Expected::Done))
    } else if i == 23 {
        Some(Action::InsertSpan(0, "txn_spans", SpanName::Rich(30_001), Expected::Done))
    } else {
        None
    }
}

/// A part of the script.
pub open spec fn run_part_2_at(i: int) -> Option<Action> {
    if i == 0 {
        Some(Action::Execute(0, "SAVEPOINT rich", Arguments::Zero, Expected::Done))
    } else if i == 1 {
        Some(Action::Execute(0, "INSERT INTO txn_spans(txn_spans) VALUES (?1)", Arguments::One(Argument::Made(Blob::Rich(30_002))), Expected::Done))
    } else if i == 2 {
        Some(Action::Execute(0, "ROLLBACK TO rich", Arguments::Zero, Expected::Done))
    } else if i == 3 {
        Some(Action::Execute(0, "RELEASE rich", Arguments::Zero, Expected::Done))
    } else if i == 4 {
        Some(Action::Execute(0, "COMMIT", Arguments::Zero, Expected::Done))
    } else if i == 5 {
        Some(Action::KeepSpans(0, "txn_spans", 2))
    } else if i == 6 {
        Some(Action::FirstSpan(2, 30_001))
    } else if i == 7 {
        Some(Action::Execute(0, "INSERT INTO lifecycle_spans(lifecycle_spans) VALUES (?1)", Arguments::One(Argument::Made(Blob::Lifecycle)), Expected::Done))
    } else if i == 8 {
        Some(Action::Execute(0, "INSERT INTO lifecycle_spans(lifecycle_spans) VALUES ('flush')", Arguments::Zero, Expected::Done))
    } else if i == 9 {
        Some(Action::Execute(0, "INSERT INTO lifecycle_spans(lifecycle_spans) VALUES ('optimize')", Arguments::Zero, Expected::Done))
    } else if i == 10 {
        Some(Action::KeepSpans(0, "lifecycle_spans", 2))
    } else if i == 11 {
        Some(Action::SpanCount(2, 2))
    } else if i == 12 {
        Some(Action::Execute(0, "INSERT INTO lifecycle_spans(lifecycle_spans) VALUES ('prune:150')", Arguments::Zero, Expected::Done))
    } else if i == 13 {
        Some(Action::KeepSpans(0, "lifecycle_spans", 2))
    } else if i == 14 {
        Some(Action::FirstSpan(2, 40_002))
    } else if i == 15 {
        Some(Action::InsertSpan(0, "corrupt_spans", SpanName::Rich(50_001), Expected::Done))
    } else if i == 16 {
        Some(Action::Execute(0, "INSERT INTO corrupt_spans(corrupt_spans) VALUES ('flush')", Arguments::Zero, Expected::Done))
    } else if i == 17 {
        Some(Action::Query(0, "SELECT id,data FROM corrupt_spans_blocks LIMIT 1", Arguments::Zero, Expected::Keep(5)))
    } else if i == 18 {
        Some(Action::Execute(0, "UPDATE corrupt_spans_blocks SET data=?1 WHERE id=?2", Arguments::Two(Argument::KeptShort(5, 1), Argument::Kept(5, 0)), Expected::Done))
    } else if i == 19 {
        Some(Action::Query(0, "SELECT COUNT(*) FROM corrupt_spans", Arguments::Zero, Expected::Refused))
    } else if i == 20 {
        Some(Action::Execute(0, "UPDATE corrupt_spans_blocks SET data=?1 WHERE id=?2", Arguments::Two(Argument::Kept(5, 1), Argument::Kept(5, 0)), Expected::Done))
    } else if i == 21 {
        Some(Action::Execute(0, "INSERT INTO row_spans(row_spans) VALUES ('flush')", Arguments::Zero, Expected::Done))
    } else if i == 22 {
        Some(Action::Execute(0, "INSERT INTO row_spans(row_spans) VALUES ('optimize')", Arguments::Zero, Expected::Done))
    } else if i == 23 {
        Some(Action::Execute(0, "INSERT INTO batch_spans(batch_spans) VALUES ('flush')", Arguments::Zero, Expected::Done))
    } else {
        None
    }
}

fn run_part_2(i: usize) -> (action: Option<Action>)
    ensures
        action == run_part_2_at(i as int),
{
    if i == 0 {
        Some(Action::Execute(0, "SAVEPOINT rich", Arguments::Zero, Expected::Done))
    } else if i == 1 {
        Some(Action::Execute(0, "INSERT INTO txn_spans(txn_spans) VALUES (?1)", Arguments::One(Argument::Made(Blob::Rich(30_002))), Expected::Done))
    } else if i == 2 {
        Some(Action::Execute(0, "ROLLBACK TO rich", Arguments::Zero, Expected::Done))
    } else if i == 3 {
        Some(Action::Execute(0, "RELEASE rich", Arguments::Zero, Expected::Done))
    } else if i == 4 {
        Some(Action::Execute(0, "COMMIT", Arguments::Zero, Expected::Done))
    } else if i == 5 {
        Some(Action::KeepSpans(0, "txn_spans", 2))
    } else if i == 6 {
        Some(Action::FirstSpan(2, 30_001))
    } else if i == 7 {
        Some(Action::Execute(0, "INSERT INTO lifecycle_spans(lifecycle_spans) VALUES (?1)", Arguments::One(Argument::Made(Blob::Lifecycle)), Expected::Done))
    } else if i == 8 {
        Some(Action::Execute(0, "INSERT INTO lifecycle_spans(lifecycle_spans) VALUES ('flush')", Arguments::Zero, Expected::Done))
    } else if i == 9 {
        Some(Action::Execute(0, "INSERT INTO lifecycle_spans(lifecycle_spans) VALUES ('optimize')", Arguments::Zero, Expected::Done))
    } else if i == 10 {
        Some(Action::KeepSpans(0, "lifecycle_spans", 2))
    } else if i == 11 {
        Some(Action::SpanCount(2, 2))
    } else if i == 12 {
        Some(Action::Execute(0, "INSERT INTO lifecycle_spans(lifecycle_spans) VALUES ('prune:150')", Arguments::Zero, Expected::Done))
    } else if i == 13 {
        Some(Action::KeepSpans(0, "lifecycle_spans", 2))
    } else if i == 14 {
        Some(Action::FirstSpan(2, 40_002))
    } else if i == 15 {
        Some(Action::InsertSpan(0, "corrupt_spans", SpanName::Rich(50_001), Expected::Done))
    } else if i == 16 {
        Some(Action::Execute(0, "INSERT INTO corrupt_spans(corrupt_spans) VALUES ('flush')", Arguments::Zero, Expected::Done))
    } else if i == 17 {
        Some(Action::Query(0, "SELECT id,data FROM corrupt_spans_blocks LIMIT 1", Arguments::Zero, Expected::Keep(5)))
    } else if i == 18 {
        Some(Action::Execute(0, "UPDATE corrupt_spans_blocks SET data=?1 WHERE id=?2", Arguments::Two(Argument::KeptShort(5, 1), Argument::Kept(5, 0)), Expected::Done))
    } else if i == 19 {
        Some(Action::Query(0, "SELECT COUNT(*) FROM corrupt_spans", Arguments::Zero, Expected::Refused))
    } else if i == 20 {
        Some(Action::Execute(0, "UPDATE corrupt_spans_blocks SET data=?1 WHERE id=?2", Arguments::Two(Argument::Kept(5, 1), Argument::Kept(5, 0)), Expected::Done))
    } else if i == 21 {
        Some(Action::Execute(0, "INSERT INTO row_spans(row_spans) VALUES ('flush')", Arguments::Zero, Expected::Done))
    } else if i == 22 {
        Some(Action::Execute(0, "INSERT INTO row_spans(row_spans) VALUES ('optimize')", Arguments::Zero, Expected::Done))
    } else if i == 23 {
        Some(Action::Execute(0, "INSERT INTO batch_spans(batch_spans) VALUES ('flush')", Arguments::Zero, Expected::Done))
    } else {
        None
    }
}

/// A part of the script.
pub open spec fn run_part_3_at(i: int) -> Option<Action> {
    if i == 0 {
        Some(Action::Execute(0, "INSERT INTO batch_spans(batch_spans) VALUES ('optimize')", Arguments::Zero, Expected::Done))
    } else if i == 1 {
        Some(Action::Query(0, "SELECT trace_id FROM \"batch_spans\" WHERE service='contract-svc' ORDER BY start_ts,span_id", Arguments::Zero, Expected::Many(2)))
    } else if i == 2 {
        Some(Action::Query(0, "SELECT span_id FROM \"batch_spans\" WHERE service='contract-svc' ORDER BY start_ts,span_id", Arguments::Zero, Expected::Many(2)))
    } else if i == 3 {
        Some(Action::Query(0, "SELECT parent_span_id FROM \"batch_spans\" WHERE service='contract-svc' ORDER BY start_ts,span_id", Arguments::Zero, Expected::Many(2)))
    } else if i == 4 {
        Some(Action::Query(0, "SELECT name FROM \"batch_spans\" WHERE service='contract-svc' ORDER BY start_ts,span_id", Arguments::Zero, Expected::Many(2)))
    } else if i == 5 {
        Some(Action::Query(0, "SELECT service FROM \"batch_spans\" WHERE service='contract-svc' ORDER BY start_ts,span_id", Arguments::Zero, Expected::Many(2)))
    } else if i == 6 {
        Some(Action::Query(0, "SELECT kind FROM \"batch_spans\" WHERE service='contract-svc' ORDER BY start_ts,span_id", Arguments::Zero, Expected::Many(2)))
    } else if i == 7 {
        Some(Action::Query(0, "SELECT status FROM \"batch_spans\" WHERE service='contract-svc' ORDER BY start_ts,span_id", Arguments::Zero, Expected::Many(2)))
    } else if i == 8 {
        Some(Action::Query(0, "SELECT start_ts FROM \"batch_spans\" WHERE service='contract-svc' ORDER BY start_ts,span_id", Arguments::Zero, Expected::Many(2)))
    } else if i == 9 {
        Some(Action::Query(0, "SELECT duration_ns FROM \"batch_spans\" WHERE service='contract-svc' ORDER BY start_ts,span_id", Arguments::Zero, Expected::Many(2)))
    } else if i == 10 {
        Some(Action::Query(0, "SELECT attributes FROM \"batch_spans\" WHERE service='contract-svc' ORDER BY start_ts,span_id", Arguments::Zero, Expected::Many(2)))
    } else if i == 11 {
        Some(Action::Query(0, "SELECT status_description FROM \"batch_spans\" WHERE service='contract-svc' ORDER BY start_ts,span_id", Arguments::Zero, Expected::Many(2)))
    } else if i == 12 {
        Some(Action::Query(0, "SELECT events FROM \"batch_spans\" WHERE service='contract-svc' ORDER BY start_ts,span_id", Arguments::Zero, Expected::Many(2)))
    } else if i == 13 {
        Some(Action::Query(0, "SELECT resource FROM \"batch_spans\" WHERE service='contract-svc' ORDER BY start_ts,span_id", Arguments::Zero, Expected::Many(2)))
    } else if i == 14 {
        Some(Action::Query(0, "SELECT instrumentation_scope FROM \"batch_spans\" WHERE service='contract-svc' ORDER BY start_ts,span_id", Arguments::Zero, Expected::Many(2)))
    } else if i == 15 {
        Some(Action::ContractRow(0, "SELECT trace_id,attributes,events,duration_ns FROM \"batch_spans\" WHERE status='error' AND service='contract-svc'"))
    } else if i == 16 {
        Some(Action::Query(0, "SELECT key,value FROM timeless_stats(?1) WHERE typeof(value)='integer'", Arguments::One(Argument::Text("batch_spans")), Expected::Keep(0)))
    } else if i == 17 {
        Some(Action::Query(0, "SELECT count(*) FROM \"batch_spans\"", Arguments::Zero, Expected::First(Row::One(Literal::Integer(2)))))
    } else if i == 18 {
        Some(Action::Query(0, "SELECT key,value FROM timeless_stats(?1) WHERE typeof(value)='integer'", Arguments::One(Argument::Text("batch_spans")), Expected::Keep(1)))
    } else if i == 19 {
        Some(Action::Delta(0, 1, "query_decoded_columns", Bound::Is(0)))
    } else if i == 20 {
        Some(Action::Delta(0, 1, "query_decoded_column_bytes", Bound::Is(0)))
    } else if i == 21 {
        Some(Action::Delta(0, 1, "query_materialized_rich_values", Bound::Is(0)))
    } else if i == 22 {
        Some(Action::Query(0, "SELECT count(*) FROM \"batch_spans\" WHERE trace_id=?1 AND name='missing-operation'", Arguments::One(Argument::ContractTrace), Expected::First(Row::One(Literal::Integer(0)))))
    } else if i == 23 {
        Some(Action::Query(0, "SELECT key,value FROM timeless_stats(?1) WHERE typeof(value)='integer'", Arguments::One(Argument::Text("batch_spans")), Expected::Keep(2)))
    } else {
        None
    }
}

fn run_part_3(i: usize) -> (action: Option<Action>)
    ensures
        action == run_part_3_at(i as int),
{
    if i == 0 {
        Some(Action::Execute(0, "INSERT INTO batch_spans(batch_spans) VALUES ('optimize')", Arguments::Zero, Expected::Done))
    } else if i == 1 {
        Some(Action::Query(0, "SELECT trace_id FROM \"batch_spans\" WHERE service='contract-svc' ORDER BY start_ts,span_id", Arguments::Zero, Expected::Many(2)))
    } else if i == 2 {
        Some(Action::Query(0, "SELECT span_id FROM \"batch_spans\" WHERE service='contract-svc' ORDER BY start_ts,span_id", Arguments::Zero, Expected::Many(2)))
    } else if i == 3 {
        Some(Action::Query(0, "SELECT parent_span_id FROM \"batch_spans\" WHERE service='contract-svc' ORDER BY start_ts,span_id", Arguments::Zero, Expected::Many(2)))
    } else if i == 4 {
        Some(Action::Query(0, "SELECT name FROM \"batch_spans\" WHERE service='contract-svc' ORDER BY start_ts,span_id", Arguments::Zero, Expected::Many(2)))
    } else if i == 5 {
        Some(Action::Query(0, "SELECT service FROM \"batch_spans\" WHERE service='contract-svc' ORDER BY start_ts,span_id", Arguments::Zero, Expected::Many(2)))
    } else if i == 6 {
        Some(Action::Query(0, "SELECT kind FROM \"batch_spans\" WHERE service='contract-svc' ORDER BY start_ts,span_id", Arguments::Zero, Expected::Many(2)))
    } else if i == 7 {
        Some(Action::Query(0, "SELECT status FROM \"batch_spans\" WHERE service='contract-svc' ORDER BY start_ts,span_id", Arguments::Zero, Expected::Many(2)))
    } else if i == 8 {
        Some(Action::Query(0, "SELECT start_ts FROM \"batch_spans\" WHERE service='contract-svc' ORDER BY start_ts,span_id", Arguments::Zero, Expected::Many(2)))
    } else if i == 9 {
        Some(Action::Query(0, "SELECT duration_ns FROM \"batch_spans\" WHERE service='contract-svc' ORDER BY start_ts,span_id", Arguments::Zero, Expected::Many(2)))
    } else if i == 10 {
        Some(Action::Query(0, "SELECT attributes FROM \"batch_spans\" WHERE service='contract-svc' ORDER BY start_ts,span_id", Arguments::Zero, Expected::Many(2)))
    } else if i == 11 {
        Some(Action::Query(0, "SELECT status_description FROM \"batch_spans\" WHERE service='contract-svc' ORDER BY start_ts,span_id", Arguments::Zero, Expected::Many(2)))
    } else if i == 12 {
        Some(Action::Query(0, "SELECT events FROM \"batch_spans\" WHERE service='contract-svc' ORDER BY start_ts,span_id", Arguments::Zero, Expected::Many(2)))
    } else if i == 13 {
        Some(Action::Query(0, "SELECT resource FROM \"batch_spans\" WHERE service='contract-svc' ORDER BY start_ts,span_id", Arguments::Zero, Expected::Many(2)))
    } else if i == 14 {
        Some(Action::Query(0, "SELECT instrumentation_scope FROM \"batch_spans\" WHERE service='contract-svc' ORDER BY start_ts,span_id", Arguments::Zero, Expected::Many(2)))
    } else if i == 15 {
        Some(Action::ContractRow(0, "SELECT trace_id,attributes,events,duration_ns FROM \"batch_spans\" WHERE status='error' AND service='contract-svc'"))
    } else if i == 16 {
        Some(Action::Query(0, "SELECT key,value FROM timeless_stats(?1) WHERE typeof(value)='integer'", Arguments::One(Argument::Text("batch_spans")), Expected::Keep(0)))
    } else if i == 17 {
        Some(Action::Query(0, "SELECT count(*) FROM \"batch_spans\"", Arguments::Zero, Expected::First(Row::One(Literal::Integer(2)))))
    } else if i == 18 {
        Some(Action::Query(0, "SELECT key,value FROM timeless_stats(?1) WHERE typeof(value)='integer'", Arguments::One(Argument::Text("batch_spans")), Expected::Keep(1)))
    } else if i == 19 {
        Some(Action::Delta(0, 1, "query_decoded_columns", Bound::Is(0)))
    } else if i == 20 {
        Some(Action::Delta(0, 1, "query_decoded_column_bytes", Bound::Is(0)))
    } else if i == 21 {
        Some(Action::Delta(0, 1, "query_materialized_rich_values", Bound::Is(0)))
    } else if i == 22 {
        Some(Action::Query(0, "SELECT count(*) FROM \"batch_spans\" WHERE trace_id=?1 AND name='missing-operation'", Arguments::One(Argument::ContractTrace), Expected::First(Row::One(Literal::Integer(0)))))
    } else if i == 23 {
        Some(Action::Query(0, "SELECT key,value FROM timeless_stats(?1) WHERE typeof(value)='integer'", Arguments::One(Argument::Text("batch_spans")), Expected::Keep(2)))
    } else {
        None
    }
}

/// A part of the script.
pub open spec fn run_part_4_at(i: int) -> Option<Action> {
    if i == 0 {
        Some(Action::Delta(1, 2, "query_payload_blocks_read", Bound::Above(0)))
    } else if i == 1 {
        Some(Action::Scaled(1, 2, "query_decoded_columns", "query_payload_blocks_read", 2, 0))
    } else if i == 2 {
        Some(Action::Delta(1, 2, "query_decoded_column_bytes", Bound::Above(0)))
    } else if i == 3 {
        Some(Action::Delta(1, 2, "query_materialized_rich_values", Bound::Is(0)))
    } else if i == 4 {
        Some(Action::ContractAttributes(0, "SELECT attributes FROM \"batch_spans\" WHERE trace_id=?1 AND name='GET /contract'"))
    } else if i == 5 {
        Some(Action::Query(0, "SELECT key,value FROM timeless_stats(?1) WHERE typeof(value)='integer'", Arguments::One(Argument::Text("batch_spans")), Expected::Keep(3)))
    } else if i == 6 {
        Some(Action::Delta(2, 3, "query_payload_blocks_read", Bound::Above(0)))
    } else if i == 7 {
        Some(Action::Scaled(2, 3, "query_decoded_columns", "query_payload_blocks_read", 2, 1))
    } else if i == 8 {
        Some(Action::Delta(2, 3, "query_materialized_rich_values", Bound::Is(1)))
    } else if i == 9 {
        Some(Action::Batch(0, "BEGIN", Expected::Done))
    } else if i == 10 {
        Some(Action::ContractAttributes(0, "SELECT attributes FROM \"batch_spans\" WHERE trace_id=?1 AND name='GET /contract'"))
    } else if i == 11 {
        Some(Action::Batch(0, "ROLLBACK", Expected::Done))
    } else if i == 12 {
        Some(Action::Query(0, "SELECT key,value FROM timeless_stats(?1) WHERE typeof(value)='integer'", Arguments::One(Argument::Text("batch_spans")), Expected::Keep(4)))
    } else if i == 13 {
        Some(Action::Delta(3, 4, "query_count", Bound::Is(1)))
    } else if i == 14 {
        Some(Action::Delta(3, 4, "query_materialized_rich_values", Bound::Is(1)))
    } else if i == 15 {
        Some(Action::Query(0, "SELECT count(*) FROM timeless_trace_buckets(?1,?2,?3,?4,?5)", Arguments::Five(Argument::Text("percentile_spans"), Argument::Text("empty"), Argument::Integer(1800000000000000000), Argument::Integer(1800000000000020000), Argument::Integer(100000)), Expected::First(Row::One(Literal::Integer(0)))))
    } else if i == 16 {
        Some(Action::PercentileRows(0))
    } else if i == 17 {
        Some(Action::KeepSpans(0, "row_spans", 0))
    } else if i == 18 {
        Some(Action::KeepSpans(0, "batch_spans", 1))
    } else if i == 19 {
        Some(Action::KeepSpans(0, "lifecycle_spans", 2))
    } else if i == 20 {
        Some(Action::Close(0))
    } else if i == 21 {
        Some(Action::Open(0, Database::Given))
    } else if i == 22 {
        Some(Action::SameSpans(0, "row_spans", 0))
    } else if i == 23 {
        Some(Action::SameSpans(0, "batch_spans", 1))
    } else {
        None
    }
}

fn run_part_4(i: usize) -> (action: Option<Action>)
    ensures
        action == run_part_4_at(i as int),
{
    if i == 0 {
        Some(Action::Delta(1, 2, "query_payload_blocks_read", Bound::Above(0)))
    } else if i == 1 {
        Some(Action::Scaled(1, 2, "query_decoded_columns", "query_payload_blocks_read", 2, 0))
    } else if i == 2 {
        Some(Action::Delta(1, 2, "query_decoded_column_bytes", Bound::Above(0)))
    } else if i == 3 {
        Some(Action::Delta(1, 2, "query_materialized_rich_values", Bound::Is(0)))
    } else if i == 4 {
        Some(Action::ContractAttributes(0, "SELECT attributes FROM \"batch_spans\" WHERE trace_id=?1 AND name='GET /contract'"))
    } else if i == 5 {
        Some(Action::Query(0, "SELECT key,value FROM timeless_stats(?1) WHERE typeof(value)='integer'", Arguments::One(Argument::Text("batch_spans")), Expected::Keep(3)))
    } else if i == 6 {
        Some(Action::Delta(2, 3, "query_payload_blocks_read", Bound::Above(0)))
    } else if i == 7 {
        Some(Action::Scaled(2, 3, "query_decoded_columns", "query_payload_blocks_read", 2, 1))
    } else if i == 8 {
        Some(Action::Delta(2, 3, "query_materialized_rich_values", Bound::Is(1)))
    } else if i == 9 {
        Some(Action::Batch(0, "BEGIN", Expected::Done))
    } else if i == 10 {
        Some(Action::ContractAttributes(0, "SELECT attributes FROM \"batch_spans\" WHERE trace_id=?1 AND name='GET /contract'"))
    } else if i == 11 {
        Some(Action::Batch(0, "ROLLBACK", Expected::Done))
    } else if i == 12 {
        Some(Action::Query(0, "SELECT key,value FROM timeless_stats(?1) WHERE typeof(value)='integer'", Arguments::One(Argument::Text("batch_spans")), Expected::Keep(4)))
    } else if i == 13 {
        Some(Action::Delta(3, 4, "query_count", Bound::Is(1)))
    } else if i == 14 {
        Some(Action::Delta(3, 4, "query_materialized_rich_values", Bound::Is(1)))
    } else if i == 15 {
        Some(Action::Query(0, "SELECT count(*) FROM timeless_trace_buckets(?1,?2,?3,?4,?5)", Arguments::Five(Argument::Text("percentile_spans"), Argument::Text("empty"), Argument::Integer(1800000000000000000), Argument::Integer(1800000000000020000), Argument::Integer(100000)), Expected::First(Row::One(Literal::Integer(0)))))
    } else if i == 16 {
        Some(Action::PercentileRows(0))
    } else if i == 17 {
        Some(Action::KeepSpans(0, "row_spans", 0))
    } else if i == 18 {
        Some(Action::KeepSpans(0, "batch_spans", 1))
    } else if i == 19 {
        Some(Action::KeepSpans(0, "lifecycle_spans", 2))
    } else if i == 20 {
        Some(Action::Close(0))
    } else if i == 21 {
        Some(Action::Open(0, Database::Given))
    } else if i == 22 {
        Some(Action::SameSpans(0, "row_spans", 0))
    } else if i == 23 {
        Some(Action::SameSpans(0, "batch_spans", 1))
    } else {
        None
    }
}

/// A part of the script.
pub open spec fn run_part_5_at(i: int) -> Option<Action> {
    if i == 0 {
        Some(Action::Query(0, "SELECT trace_id FROM \"batch_spans\" WHERE service='contract-svc' ORDER BY start_ts,span_id", Arguments::Zero, Expected::Many(2)))
    } else if i == 1 {
        Some(Action::Query(0, "SELECT span_id FROM \"batch_spans\" WHERE service='contract-svc' ORDER BY start_ts,span_id", Arguments::Zero, Expected::Many(2)))
    } else if i == 2 {
        Some(Action::Query(0, "SELECT parent_span_id FROM \"batch_spans\" WHERE service='contract-svc' ORDER BY start_ts,span_id", Arguments::Zero, Expected::Many(2)))
    } else if i == 3 {
        Some(Action::Query(0, "SELECT name FROM \"batch_spans\" WHERE service='contract-svc' ORDER BY start_ts,span_id", Arguments::Zero, Expected::Many(2)))
    } else if i == 4 {
        Some(Action::Query(0, "SELECT service FROM \"batch_spans\" WHERE service='contract-svc' ORDER BY start_ts,span_id", Arguments::Zero, Expected::Many(2)))
    } else if i == 5 {
        Some(Action::Query(0, "SELECT kind FROM \"batch_spans\" WHERE service='contract-svc' ORDER BY start_ts,span_id", Arguments::Zero, Expected::Many(2)))
    } else if i == 6 {
        Some(Action::Query(0, "SELECT status FROM \"batch_spans\" WHERE service='contract-svc' ORDER BY start_ts,span_id", Arguments::Zero, Expected::Many(2)))
    } else if i == 7 {
        Some(Action::Query(0, "SELECT start_ts FROM \"batch_spans\" WHERE service='contract-svc' ORDER BY start_ts,span_id", Arguments::Zero, Expected::Many(2)))
    } else if i == 8 {
        Some(Action::Query(0, "SELECT duration_ns FROM \"batch_spans\" WHERE service='contract-svc' ORDER BY start_ts,span_id", Arguments::Zero, Expected::Many(2)))
    } else if i == 9 {
        Some(Action::Query(0, "SELECT attributes FROM \"batch_spans\" WHERE service='contract-svc' ORDER BY start_ts,span_id", Arguments::Zero, Expected::Many(2)))
    } else if i == 10 {
        Some(Action::Query(0, "SELECT status_description FROM \"batch_spans\" WHERE service='contract-svc' ORDER BY start_ts,span_id", Arguments::Zero, Expected::Many(2)))
    } else if i == 11 {
        Some(Action::Query(0, "SELECT events FROM \"batch_spans\" WHERE service='contract-svc' ORDER BY start_ts,span_id", Arguments::Zero, Expected::Many(2)))
    } else if i == 12 {
        Some(Action::Query(0, "SELECT resource FROM \"batch_spans\" WHERE service='contract-svc' ORDER BY start_ts,span_id", Arguments::Zero, Expected::Many(2)))
    } else if i == 13 {
        Some(Action::Query(0, "SELECT instrumentation_scope FROM \"batch_spans\" WHERE service='contract-svc' ORDER BY start_ts,span_id", Arguments::Zero, Expected::Many(2)))
    } else if i == 14 {
        Some(Action::ContractRow(0, "SELECT trace_id,attributes,events,duration_ns FROM \"batch_spans\" WHERE status='error' AND service='contract-svc'"))
    } else if i == 15 {
        Some(Action::Query(0, "SELECT key,value FROM timeless_stats(?1) WHERE typeof(value)='integer'", Arguments::One(Argument::Text("batch_spans")), Expected::Keep(0)))
    } else if i == 16 {
        Some(Action::Query(0, "SELECT count(*) FROM \"batch_spans\"", Arguments::Zero, Expected::First(Row::One(Literal::Integer(2)))))
    } else if i == 17 {
        Some(Action::Query(0, "SELECT key,value FROM timeless_stats(?1) WHERE typeof(value)='integer'", Arguments::One(Argument::Text("batch_spans")), Expected::Keep(1)))
    } else if i == 18 {
        Some(Action::Delta(0, 1, "query_decoded_columns", Bound::Is(0)))
    } else if i == 19 {
        Some(Action::Delta(0, 1, "query_decoded_column_bytes", Bound::Is(0)))
    } else if i == 20 {
        Some(Action::Delta(0, 1, "query_materialized_rich_values", Bound::Is(0)))
    } else if i == 21 {
        Some(Action::Query(0, "SELECT count(*) FROM \"batch_spans\" WHERE trace_id=?1 AND name='missing-operation'", Arguments::One(Argument::ContractTrace), Expected::First(Row::One(Literal::Integer(0)))))
    } else if i == 22 {
        Some(Action::Query(0, "SELECT key,value FROM timeless_stats(?1) WHERE typeof(value)='integer'", Arguments::One(Argument::Text("batch_spans")), Expected::Keep(2)))
    } else if i == 23 {
        Some(Action::Delta(1, 2, "query_payload_blocks_read", Bound::Above(0)))
    } else {
        None
    }
}

fn run_part_5(i: usize) -> (action: Option<Action>)
    ensures
        action == run_part_5_at(i as int),
{
    if i == 0 {
        Some(Action::Query(0, "SELECT trace_id FROM \"batch_spans\" WHERE service='contract-svc' ORDER BY start_ts,span_id", Arguments::Zero, Expected::Many(2)))
    } else if i == 1 {
        Some(Action::Query(0, "SELECT span_id FROM \"batch_spans\" WHERE service='contract-svc' ORDER BY start_ts,span_id", Arguments::Zero, Expected::Many(2)))
    } else if i == 2 {
        Some(Action::Query(0, "SELECT parent_span_id FROM \"batch_spans\" WHERE service='contract-svc' ORDER BY start_ts,span_id", Arguments::Zero, Expected::Many(2)))
    } else if i == 3 {
        Some(Action::Query(0, "SELECT name FROM \"batch_spans\" WHERE service='contract-svc' ORDER BY start_ts,span_id", Arguments::Zero, Expected::Many(2)))
    } else if i == 4 {
        Some(Action::Query(0, "SELECT service FROM \"batch_spans\" WHERE service='contract-svc' ORDER BY start_ts,span_id", Arguments::Zero, Expected::Many(2)))
    } else if i == 5 {
        Some(Action::Query(0, "SELECT kind FROM \"batch_spans\" WHERE service='contract-svc' ORDER BY start_ts,span_id", Arguments::Zero, Expected::Many(2)))
    } else if i == 6 {
        Some(Action::Query(0, "SELECT status FROM \"batch_spans\" WHERE service='contract-svc' ORDER BY start_ts,span_id", Arguments::Zero, Expected::Many(2)))
    } else if i == 7 {
        Some(Action::Query(0, "SELECT start_ts FROM \"batch_spans\" WHERE service='contract-svc' ORDER BY start_ts,span_id", Arguments::Zero, Expected::Many(2)))
    } else if i == 8 {
        Some(Action::Query(0, "SELECT duration_ns FROM \"batch_spans\" WHERE service='contract-svc' ORDER BY start_ts,span_id", Arguments::Zero, Expected::Many(2)))
    } else if i == 9 {
        Some(Action::Query(0, "SELECT attributes FROM \"batch_spans\" WHERE service='contract-svc' ORDER BY start_ts,span_id", Arguments::Zero, Expected::Many(2)))
    } else if i == 10 {
        Some(Action::Query(0, "SELECT status_description FROM \"batch_spans\" WHERE service='contract-svc' ORDER BY start_ts,span_id", Arguments::Zero, Expected::Many(2)))
    } else if i == 11 {
        Some(Action::Query(0, "SELECT events FROM \"batch_spans\" WHERE service='contract-svc' ORDER BY start_ts,span_id", Arguments::Zero, Expected::Many(2)))
    } else if i == 12 {
        Some(Action::Query(0, "SELECT resource FROM \"batch_spans\" WHERE service='contract-svc' ORDER BY start_ts,span_id", Arguments::Zero, Expected::Many(2)))
    } else if i == 13 {
        Some(Action::Query(0, "SELECT instrumentation_scope FROM \"batch_spans\" WHERE service='contract-svc' ORDER BY start_ts,span_id", Arguments::Zero, Expected::Many(2)))
    } else if i == 14 {
        Some(Action::ContractRow(0, "SELECT trace_id,attributes,events,duration_ns FROM \"batch_spans\" WHERE status='error' AND service='contract-svc'"))
    } else if i == 15 {
        Some(Action::Query(0, "SELECT key,value FROM timeless_stats(?1) WHERE typeof(value)='integer'", Arguments::One(Argument::Text("batch_spans")), Expected::Keep(0)))
    } else if i == 16 {
        Some(Action::Query(0, "SELECT count(*) FROM \"batch_spans\"", Arguments::Zero, Expected::First(Row::One(Literal::Integer(2)))))
    } else if i == 17 {
        Some(Action::Query(0, "SELECT key,value FROM timeless_stats(?1) WHERE typeof(value)='integer'", Arguments::One(Argument::Text("batch_spans")), Expected::Keep(1)))
    } else if i == 18 {
        Some(Action::Delta(0, 1, "query_decoded_columns", Bound::Is(0)))
    } else if i == 19 {
        Some(Action::Delta(0, 1, "query_decoded_column_bytes", Bound::Is(0)))
    } else if i == 20 {
        Some(Action::Delta(0, 1, "query_materialized_rich_values", Bound::Is(0)))
    } else if i == 21 {
        Some(Action::Query(0, "SELECT count(*) FROM \"batch_spans\" WHERE trace_id=?1 AND name='missing-operation'", Arguments::One(Argument::ContractTrace), Expected::First(Row::One(Literal::Integer(0)))))
    } else if i == 22 {
        Some(Action::Query(0, "SELECT key,value FROM timeless_stats(?1) WHERE typeof(value)='integer'", Arguments::One(Argument::Text("batch_spans")), Expected::Keep(2)))
    } else if i == 23 {
        Some(Action::Delta(1, 2, "query_payload_blocks_read", Bound::Above(0)))
    } else {
        None
    }
}

/// A part of the script.
pub open spec fn run_part_6_at(i: int) -> Option<Action> {
    if i == 0 {
        Some(Action::Scaled(1, 2, "query_decoded_columns", "query_payload_blocks_read", 2, 0))
    } else if i == 1 {
        Some(Action::Delta(1, 2, "query_decoded_column_bytes", Bound::Above(0)))
    } else if i == 2 {
        Some(Action::Delta(1, 2, "query_materialized_rich_values", Bound::Is(0)))
    } else if i == 3 {
        Some(Action::ContractAttributes(0, "SELECT attributes FROM \"batch_spans\" WHERE trace_id=?1 AND name='GET /contract'"))
    } else if i == 4 {
        Some(Action::Query(0, "SELECT key,value FROM timeless_stats(?1) WHERE typeof(value)='integer'", Arguments::One(Argument::Text("batch_spans")), Expected::Keep(3)))
    } else if i == 5 {
        Some(Action::Delta(2, 3, "query_payload_blocks_read", Bound::Above(0)))
    } else if i == 6 {
        Some(Action::Scaled(2, 3, "query_decoded_columns", "query_payload_blocks_read", 2, 1))
    } else if i == 7 {
        Some(Action::Delta(2, 3, "query_materialized_rich_values", Bound::Is(1)))
    } else if i == 8 {
        Some(Action::Batch(0, "BEGIN", Expected::Done))
    } else if i == 9 {
        Some(Action::ContractAttributes(0, "SELECT attributes FROM \"batch_spans\" WHERE trace_id=?1 AND name='GET /contract'"))
    } else if i == 10 {
        Some(Action::Batch(0, "ROLLBACK", Expected::Done))
    } else if i == 11 {
        Some(Action::Query(0, "SELECT key,value FROM timeless_stats(?1) WHERE typeof(value)='integer'", Arguments::One(Argument::Text("batch_spans")), Expected::Keep(4)))
    } else if i == 12 {
        Some(Action::Delta(3, 4, "query_count", Bound::Is(1)))
    } else if i == 13 {
        Some(Action::Delta(3, 4, "query_materialized_rich_values", Bound::Is(1)))
    } else if i == 14 {
        Some(Action::Query(0, "SELECT count(*) FROM timeless_trace_buckets(?1,?2,?3,?4,?5)", Arguments::Five(Argument::Text("percentile_spans"), Argument::Text("empty"), Argument::Integer(1800000000000000000), Argument::Integer(1800000000000020000), Argument::Integer(100000)), Expected::First(Row::One(Literal::Integer(0)))))
    } else if i == 15 {
        Some(Action::PercentileRows(0))
    } else if i == 16 {
        Some(Action::SameSpans(0, "lifecycle_spans", 2))
    } else if i == 17 {
        Some(Action::KeepSpans(0, "corrupt_spans", 3))
    } else if i == 18 {
        Some(Action::FirstAttributes(3, SpanName::Rich(50_001)))
    } else if i == 19 {
        Some(Action::Query(0, "PRAGMA integrity_check", Arguments::Zero, Expected::First(Row::One(Literal::Text("ok")))))
    } else if i == 20 {
        Some(Action::Pass("PASS: rich row/batch fidelity, threshold, transactions, maintenance, exact percentiles, corruption, reopen"))
    } else {
        None
    }
}

fn run_part_6(i: usize) -> (action: Option<Action>)
    ensures
        action == run_part_6_at(i as int),
{
    if i == 0 {
        Some(Action::Scaled(1, 2, "query_decoded_columns", "query_payload_blocks_read", 2, 0))
    } else if i == 1 {
        Some(Action::Delta(1, 2, "query_decoded_column_bytes", Bound::Above(0)))
    } else if i == 2 {
        Some(Action::Delta(1, 2, "query_materialized_rich_values", Bound::Is(0)))
    } else if i == 3 {
        Some(Action::ContractAttributes(0, "SELECT attributes FROM \"batch_spans\" WHERE trace_id=?1 AND name='GET /contract'"))
    } else if i == 4 {
        Some(Action::Query(0, "SELECT key,value FROM timeless_stats(?1) WHERE typeof(value)='integer'", Arguments::One(Argument::Text("batch_spans")), Expected::Keep(3)))
    } else if i == 5 {
        Some(Action::Delta(2, 3, "query_payload_blocks_read", Bound::Above(0)))
    } else if i == 6 {
        Some(Action::Scaled(2, 3, "query_decoded_columns", "query_payload_blocks_read", 2, 1))
    } else if i == 7 {
        Some(Action::Delta(2, 3, "query_materialized_rich_values", Bound::Is(1)))
    } else if i == 8 {
        Some(Action::Batch(0, "BEGIN", Expected::Done))
    } else if i == 9 {
        Some(Action::ContractAttributes(0, "SELECT attributes FROM \"batch_spans\" WHERE trace_id=?1 AND name='GET /contract'"))
    } else if i == 10 {
        Some(Action::Batch(0, "ROLLBACK", Expected::Done))
    } else if i == 11 {
        Some(Action::Query(0, "SELECT key,value FROM timeless_stats(?1) WHERE typeof(value)='integer'", Arguments::One(Argument::Text("batch_spans")), Expected::Keep(4)))
    } else if i == 12 {
        Some(Action::Delta(3, 4, "query_count", Bound::Is(1)))
    } else if i == 13 {
        Some(Action::Delta(3, 4, "query_materialized_rich_values", Bound::Is(1)))
    } else if i == 14 {
        Some(Action::Query(0, "SELECT count(*) FROM timeless_trace_buckets(?1,?2,?3,?4,?5)", Arguments::Five(Argument::Text("percentile_spans"), Argument::Text("empty"), Argument::Integer(1800000000000000000), Argument::Integer(1800000000000020000), Argument::Integer(100000)), Expected::First(Row::One(Literal::Integer(0)))))
    } else if i == 15 {
        Some(Action::PercentileRows(0))
    } else if i == 16 {
        Some(Action::SameSpans(0, "lifecycle_spans", 2))
    } else if i == 17 {
        Some(Action::KeepSpans(0, "corrupt_spans", 3))
    } else if i == 18 {
        Some(Action::FirstAttributes(3, SpanName::Rich(50_001)))
    } else if i == 19 {
        Some(Action::Query(0, "PRAGMA integrity_check", Arguments::Zero, Expected::First(Row::One(Literal::Text("ok")))))
    } else if i == 20 {
        Some(Action::Pass("PASS: rich row/batch fidelity, threshold, transactions, maintenance, exact percentiles, corruption, reopen"))
    } else {
        None
    }
}

/// The suite of rich spans: what is done at a place, from 0 on.
pub open spec fn run_at(i: int) -> Option<Action> {
    if i < 24 {
        run_part_0_at(i)
    } else if i < 48 {
        run_part_1_at(i - 24)
    } else if i < 72 {
        run_part_2_at(i - 48)
    } else if i < 96 {
        run_part_3_at(i - 72)
    } else if i < 120 {
        run_part_4_at(i - 96)
    } else if i < 144 {
        run_part_5_at(i - 120)
    } else {
        run_part_6_at(i - 144)
    }
}

/// The suite of rich spans: what is done at a place, from 0 on.
pub fn run(i: usize) -> (action: Option<Action>)
    ensures
        action == run_at(i as int),
{
    if i < 24 {
        run_part_0(i)
    } else if i < 48 {
        run_part_1(i - 24)
    } else if i < 72 {
        run_part_2(i - 48)
    } else if i < 96 {
        run_part_3(i - 72)
    } else if i < 120 {
        run_part_4(i - 96)
    } else if i < 144 {
        run_part_5(i - 120)
    } else {
        run_part_6(i - 144)
    }
}

/// The script has an action at every place below 165, and none from there on.
pub proof fn run_ends(i: int)
    ensures
        run_at(i) is Some <==> 0 <= i < 165,
{
}

} // verus!
