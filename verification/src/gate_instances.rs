//! Tables and their identities: drops, rollbacks, new tables and damaged ones.
use crate::gate::{Action, Argument, Arguments, Database, Expected};
use crate::values::{Literal, Row};
use vstd::prelude::*;

verus! {

/// A part of the script.
pub open spec fn rollback_preserves_buffered_part_0_at(i: int) -> Option<Action> {
    if i == 0 {
        Some(Action::Open(0, Database::Named("rollback.db")))
    } else if i == 1 {
        Some(Action::Batch(0, "CREATE VIRTUAL TABLE metrics USING timeless_metrics; CREATE VIRTUAL TABLE logs USING timeless_logs; CREATE VIRTUAL TABLE traces USING timeless_traces;", Expected::Done))
    } else if i == 2 {
        Some(Action::Execute(0, "INSERT INTO metrics(name,ts,value) VALUES(?1,?2,?3)", Arguments::Three(Argument::Text("metric_flushed"), Argument::Integer(10), Argument::Real(0x4024000000000000)), Expected::Done))
    } else if i == 3 {
        Some(Action::Execute(0, "INSERT INTO logs(ts,level,message) VALUES(?1,'info',?2)", Arguments::Two(Argument::Integer(10), Argument::Text("log_flushed")), Expected::Done))
    } else if i == 4 {
        Some(Action::Execute(0, "INSERT INTO traces(trace_id,span_id,name,service,start_ts) VALUES(?1,?2,?3,'r4',?4)", Arguments::Four(Argument::Fill(17, 16), Argument::Fill(17, 8), Argument::Text("trace_flushed"), Argument::Integer(10)), Expected::Done))
    } else if i == 5 {
        Some(Action::Execute(0, "INSERT INTO \"metrics\"(\"metrics\") VALUES(?1)", Arguments::One(Argument::Text("flush")), Expected::Done))
    } else if i == 6 {
        Some(Action::Execute(0, "INSERT INTO \"logs\"(\"logs\") VALUES(?1)", Arguments::One(Argument::Text("flush")), Expected::Done))
    } else if i == 7 {
        Some(Action::Execute(0, "INSERT INTO \"traces\"(\"traces\") VALUES(?1)", Arguments::One(Argument::Text("flush")), Expected::Done))
    } else if i == 8 {
        Some(Action::Execute(0, "INSERT INTO metrics(name,ts,value) VALUES(?1,?2,?3)", Arguments::Three(Argument::Text("metric_buffered"), Argument::Integer(20), Argument::Real(0x4034000000000000)), Expected::Done))
    } else if i == 9 {
        Some(Action::Execute(0, "INSERT INTO logs(ts,level,message) VALUES(?1,'info',?2)", Arguments::Two(Argument::Integer(20), Argument::Text("log_buffered")), Expected::Done))
    } else if i == 10 {
        Some(Action::Execute(0, "INSERT INTO traces(trace_id,span_id,name,service,start_ts) VALUES(?1,?2,?3,'r4',?4)", Arguments::Four(Argument::Fill(34, 16), Argument::Fill(34, 8), Argument::Text("trace_buffered"), Argument::Integer(20)), Expected::Done))
    } else if i == 11 {
        Some(Action::Query(0, "SELECT v FROM metrics_meta WHERE k='instance_id'", Arguments::Zero, Expected::Keep(0)))
    } else if i == 12 {
        Some(Action::Query(0, "SELECT v FROM logs_meta WHERE k='instance_id'", Arguments::Zero, Expected::Keep(1)))
    } else if i == 13 {
        Some(Action::Query(0, "SELECT v FROM traces_meta WHERE k='instance_id'", Arguments::Zero, Expected::Keep(2)))
    } else if i == 14 {
        Some(Action::Query(0, "SELECT COUNT(*) FROM metrics", Arguments::Zero, Expected::First(Row::One(Literal::Integer(2)))))
    } else if i == 15 {
        Some(Action::Query(0, "SELECT COUNT(*) FROM logs", Arguments::Zero, Expected::First(Row::One(Literal::Integer(2)))))
    } else if i == 16 {
        Some(Action::Query(0, "SELECT COUNT(*) FROM traces", Arguments::Zero, Expected::First(Row::One(Literal::Integer(2)))))
    } else if i == 17 {
        Some(Action::Execute(0, "BEGIN", Arguments::Zero, Expected::Done))
    } else if i == 18 {
        Some(Action::Execute(0, "DROP TABLE \"metrics\"", Arguments::Zero, Expected::Done))
    } else if i == 19 {
        Some(Action::Execute(0, "DROP TABLE \"logs\"", Arguments::Zero, Expected::Done))
    } else if i == 20 {
        Some(Action::Execute(0, "DROP TABLE \"traces\"", Arguments::Zero, Expected::Done))
    } else if i == 21 {
        Some(Action::Execute(0, "ROLLBACK", Arguments::Zero, Expected::Done))
    } else if i == 22 {
        Some(Action::Query(0, "SELECT v FROM metrics_meta WHERE k='instance_id'", Arguments::Zero, Expected::Same(0)))
    } else if i == 23 {
        Some(Action::Query(0, "SELECT v FROM logs_meta WHERE k='instance_id'", Arguments::Zero, Expected::Same(1)))
    } else {
        None
    }
}

fn rollback_preserves_buffered_part_0(i: usize) -> (action: Option<Action>)
    ensures
        action == rollback_preserves_buffered_part_0_at(i as int),
{
    if i == 0 {
        Some(Action::Open(0, Database::Named("rollback.db")))
    } else if i == 1 {
        Some(Action::Batch(0, "CREATE VIRTUAL TABLE metrics USING timeless_metrics; CREATE VIRTUAL TABLE logs USING timeless_logs; CREATE VIRTUAL TABLE traces USING timeless_traces;", Expected::Done))
    } else if i == 2 {
        Some(Action::Execute(0, "INSERT INTO metrics(name,ts,value) VALUES(?1,?2,?3)", Arguments::Three(Argument::Text("metric_flushed"), Argument::Integer(10), Argument::Real(0x4024000000000000)), Expected::Done))
    } else if i == 3 {
        Some(Action::Execute(0, "INSERT INTO logs(ts,level,message) VALUES(?1,'info',?2)", Arguments::Two(Argument::Integer(10), Argument::Text("log_flushed")), Expected::Done))
    } else if i == 4 {
        Some(Action::Execute(0, "INSERT INTO traces(trace_id,span_id,name,service,start_ts) VALUES(?1,?2,?3,'r4',?4)", Arguments::Four(Argument::Fill(17, 16), Argument::Fill(17, 8), Argument::Text("trace_flushed"), Argument::Integer(10)), Expected::Done))
    } else if i == 5 {
        Some(Action::Execute(0, "INSERT INTO \"metrics\"(\"metrics\") VALUES(?1)", Arguments::One(Argument::Text("flush")), Expected::Done))
    } else if i == 6 {
        Some(Action::Execute(0, "INSERT INTO \"logs\"(\"logs\") VALUES(?1)", Arguments::One(Argument::Text("flush")), Expected::Done))
    } else if i == 7 {
        Some(Action::Execute(0, "INSERT INTO \"traces\"(\"traces\") VALUES(?1)", Arguments::One(Argument::Text("flush")), Expected::Done))
    } else if i == 8 {
        Some(Action::Execute(0, "INSERT INTO metrics(name,ts,value) VALUES(?1,?2,?3)", Arguments::Three(Argument::Text("metric_buffered"), Argument::Integer(20), Argument::Real(0x4034000000000000)), Expected::Done))
    } else if i == 9 {
        Some(Action::Execute(0, "INSERT INTO logs(ts,level,message) VALUES(?1,'info',?2)", Arguments::Two(Argument::Integer(20), Argument::Text("log_buffered")), Expected::Done))
    } else if i == 10 {
        Some(Action::Execute(0, "INSERT INTO traces(trace_id,span_id,name,service,start_ts) VALUES(?1,?2,?3,'r4',?4)", Arguments::Four(Argument::Fill(34, 16), Argument::Fill(34, 8), Argument::Text("trace_buffered"), Argument::Integer(20)), Expected::Done))
    } else if i == 11 {
        Some(Action::Query(0, "SELECT v FROM metrics_meta WHERE k='instance_id'", Arguments::Zero, Expected::Keep(0)))
    } else if i == 12 {
        Some(Action::Query(0, "SELECT v FROM logs_meta WHERE k='instance_id'", Arguments::Zero, Expected::Keep(1)))
    } else if i == 13 {
        Some(Action::Query(0, "SELECT v FROM traces_meta WHERE k='instance_id'", Arguments::Zero, Expected::Keep(2)))
    } else if i == 14 {
        Some(Action::Query(0, "SELECT COUNT(*) FROM metrics", Arguments::Zero, Expected::First(Row::One(Literal::Integer(2)))))
    } else if i == 15 {
        Some(Action::Query(0, "SELECT COUNT(*) FROM logs", Arguments::Zero, Expected::First(Row::One(Literal::Integer(2)))))
    } else if i == 16 {
        Some(Action::Query(0, "SELECT COUNT(*) FROM traces", Arguments::Zero, Expected::First(Row::One(Literal::Integer(2)))))
    } else if i == 17 {
        Some(Action::Execute(0, "BEGIN", Arguments::Zero, Expected::Done))
    } else if i == 18 {
        Some(Action::Execute(0, "DROP TABLE \"metrics\"", Arguments::Zero, Expected::Done))
    } else if i == 19 {
        Some(Action::Execute(0, "DROP TABLE \"logs\"", Arguments::Zero, Expected::Done))
    } else if i == 20 {
        Some(Action::Execute(0, "DROP TABLE \"traces\"", Arguments::Zero, Expected::Done))
    } else if i == 21 {
        Some(Action::Execute(0, "ROLLBACK", Arguments::Zero, Expected::Done))
    } else if i == 22 {
        Some(Action::Query(0, "SELECT v FROM metrics_meta WHERE k='instance_id'", Arguments::Zero, Expected::Same(0)))
    } else if i == 23 {
        Some(Action::Query(0, "SELECT v FROM logs_meta WHERE k='instance_id'", Arguments::Zero, Expected::Same(1)))
    } else {
        None
    }
}

/// A part of the script.
pub open spec fn rollback_preserves_buffered_part_1_at(i: int) -> Option<Action> {
    if i == 0 {
        Some(Action::Query(0, "SELECT v FROM traces_meta WHERE k='instance_id'", Arguments::Zero, Expected::Same(2)))
    } else if i == 1 {
        Some(Action::Query(0, "SELECT COUNT(*) FROM metrics", Arguments::Zero, Expected::First(Row::One(Literal::Integer(2)))))
    } else if i == 2 {
        Some(Action::Query(0, "SELECT COUNT(*) FROM logs", Arguments::Zero, Expected::First(Row::One(Literal::Integer(2)))))
    } else if i == 3 {
        Some(Action::Query(0, "SELECT COUNT(*) FROM traces", Arguments::Zero, Expected::First(Row::One(Literal::Integer(2)))))
    } else if i == 4 {
        Some(Action::Execute(0, "INSERT INTO \"metrics\"(\"metrics\") VALUES(?1)", Arguments::One(Argument::Text("flush")), Expected::Done))
    } else if i == 5 {
        Some(Action::Execute(0, "INSERT INTO \"logs\"(\"logs\") VALUES(?1)", Arguments::One(Argument::Text("flush")), Expected::Done))
    } else if i == 6 {
        Some(Action::Execute(0, "INSERT INTO \"traces\"(\"traces\") VALUES(?1)", Arguments::One(Argument::Text("flush")), Expected::Done))
    } else if i == 7 {
        Some(Action::Close(0))
    } else if i == 8 {
        Some(Action::Open(0, Database::Named("rollback.db")))
    } else if i == 9 {
        Some(Action::Query(0, "SELECT COUNT(*) FROM metrics", Arguments::Zero, Expected::First(Row::One(Literal::Integer(2)))))
    } else if i == 10 {
        Some(Action::Query(0, "SELECT COUNT(*) FROM logs", Arguments::Zero, Expected::First(Row::One(Literal::Integer(2)))))
    } else if i == 11 {
        Some(Action::Query(0, "SELECT COUNT(*) FROM traces", Arguments::Zero, Expected::First(Row::One(Literal::Integer(2)))))
    } else if i == 12 {
        Some(Action::Close(0))
    } else {
        None
    }
}

fn rollback_preserves_buffered_part_1(i: usize) -> (action: Option<Action>)
    ensures
        action == rollback_preserves_buffered_part_1_at(i as int),
{
    if i == 0 {
        Some(Action::Query(0, "SELECT v FROM traces_meta WHERE k='instance_id'", Arguments::Zero, Expected::Same(2)))
    } else if i == 1 {
        Some(Action::Query(0, "SELECT COUNT(*) FROM metrics", Arguments::Zero, Expected::First(Row::One(Literal::Integer(2)))))
    } else if i == 2 {
        Some(Action::Query(0, "SELECT COUNT(*) FROM logs", Arguments::Zero, Expected::First(Row::One(Literal::Integer(2)))))
    } else if i == 3 {
        Some(Action::Query(0, "SELECT COUNT(*) FROM traces", Arguments::Zero, Expected::First(Row::One(Literal::Integer(2)))))
    } else if i == 4 {
        Some(Action::Execute(0, "INSERT INTO \"metrics\"(\"metrics\") VALUES(?1)", Arguments::One(Argument::Text("flush")), Expected::Done))
    } else if i == 5 {
        Some(Action::Execute(0, "INSERT INTO \"logs\"(\"logs\") VALUES(?1)", Arguments::One(Argument::Text("flush")), Expected::Done))
    } else if i == 6 {
        Some(Action::Execute(0, "INSERT INTO \"traces\"(\"traces\") VALUES(?1)", Arguments::One(Argument::Text("flush")), Expected::Done))
    } else if i == 7 {
        Some(Action::Close(0))
    } else if i == 8 {
        Some(Action::Open(0, Database::Named("rollback.db")))
    } else if i == 9 {
        Some(Action::Query(0, "SELECT COUNT(*) FROM metrics", Arguments::Zero, Expected::First(Row::One(Literal::Integer(2)))))
    } else if i == 10 {
        Some(Action::Query(0, "SELECT COUNT(*) FROM logs", Arguments::Zero, Expected::First(Row::One(Literal::Integer(2)))))
    } else if i == 11 {
        Some(Action::Query(0, "SELECT COUNT(*) FROM traces", Arguments::Zero, Expected::First(Row::One(Literal::Integer(2)))))
    } else if i == 12 {
        Some(Action::Close(0))
    } else {
        None
    }
}

/// A table that is dropped and rolled back keeps what was not written yet: what is done at a place, from 0 on.
pub open spec fn rollback_preserves_buffered_at(i: int) -> Option<Action> {
    if i < 24 {
        rollback_preserves_buffered_part_0_at(i)
    } else {
        rollback_preserves_buffered_part_1_at(i - 24)
    }
}

/// A table that is dropped and rolled back keeps what was not written yet: what is done at a place, from 0 on.
pub fn rollback_preserves_buffered(i: usize) -> (action: Option<Action>)
    ensures
        action == rollback_preserves_buffered_at(i as int),
{
    if i < 24 {
        rollback_preserves_buffered_part_0(i)
    } else {
        rollback_preserves_buffered_part_1(i - 24)
    }
}

/// A part of the script.
pub open spec fn rollback_keeps_shared_part_0_at(i: int) -> Option<Action> {
    if i == 0 {
        Some(Action::Open(0, Database::Named("shared.db")))
    } else if i == 1 {
        Some(Action::Batch(0, "CREATE VIRTUAL TABLE metrics USING timeless_metrics; CREATE VIRTUAL TABLE logs USING timeless_logs; CREATE VIRTUAL TABLE traces USING timeless_traces;", Expected::Done))
    } else if i == 2 {
        Some(Action::Open(1, Database::Named("shared.db")))
    } else if i == 3 {
        Some(Action::Query(1, "SELECT COUNT(*) FROM metrics", Arguments::Zero, Expected::First(Row::One(Literal::Integer(0)))))
    } else if i == 4 {
        Some(Action::Query(1, "SELECT COUNT(*) FROM logs", Arguments::Zero, Expected::First(Row::One(Literal::Integer(0)))))
    } else if i == 5 {
        Some(Action::Query(1, "SELECT COUNT(*) FROM traces", Arguments::Zero, Expected::First(Row::One(Literal::Integer(0)))))
    } else if i == 6 {
        Some(Action::Execute(0, "INSERT INTO metrics(name,ts,value) VALUES(?1,?2,?3)", Arguments::Three(Argument::Text("metric_buffered_a"), Argument::Integer(30), Argument::Real(0x403e000000000000)), Expected::Done))
    } else if i == 7 {
        Some(Action::Execute(0, "INSERT INTO logs(ts,level,message) VALUES(?1,'info',?2)", Arguments::Two(Argument::Integer(30), Argument::Text("log_buffered_a")), Expected::Done))
    } else if i == 8 {
        Some(Action::Execute(0, "INSERT INTO traces(trace_id,span_id,name,service,start_ts) VALUES(?1,?2,?3,'r4',?4)", Arguments::Four(Argument::Fill(34, 16), Argument::Fill(34, 8), Argument::Text("trace_buffered_a"), Argument::Integer(30)), Expected::Done))
    } else if i == 9 {
        Some(Action::Query(1, "SELECT COUNT(*) FROM metrics", Arguments::Zero, Expected::First(Row::One(Literal::Integer(1)))))
    } else if i == 10 {
        Some(Action::Query(1, "SELECT COUNT(*) FROM logs", Arguments::Zero, Expected::First(Row::One(Literal::Integer(1)))))
    } else if i == 11 {
        Some(Action::Query(1, "SELECT COUNT(*) FROM traces", Arguments::Zero, Expected::First(Row::One(Literal::Integer(1)))))
    } else if i == 12 {
        Some(Action::Execute(0, "BEGIN", Arguments::Zero, Expected::Done))
    } else if i == 13 {
        Some(Action::Execute(0, "DROP TABLE \"metrics\"", Arguments::Zero, Expected::Done))
    } else if i == 14 {
        Some(Action::Execute(0, "DROP TABLE \"logs\"", Arguments::Zero, Expected::Done))
    } else if i == 15 {
        Some(Action::Execute(0, "DROP TABLE \"traces\"", Arguments::Zero, Expected::Done))
    } else if i == 16 {
        Some(Action::Execute(0, "ROLLBACK", Arguments::Zero, Expected::Done))
    } else if i == 17 {
        Some(Action::Query(1, "SELECT COUNT(*) FROM metrics", Arguments::Zero, Expected::First(Row::One(Literal::Integer(1)))))
    } else if i == 18 {
        Some(Action::Query(1, "SELECT COUNT(*) FROM logs", Arguments::Zero, Expected::First(Row::One(Literal::Integer(1)))))
    } else if i == 19 {
        Some(Action::Query(1, "SELECT COUNT(*) FROM traces", Arguments::Zero, Expected::First(Row::One(Literal::Integer(1)))))
    } else if i == 20 {
        Some(Action::Execute(1, "INSERT INTO metrics(name,ts,value) VALUES(?1,?2,?3)", Arguments::Three(Argument::Text("metric_buffered_b"), Argument::Integer(40), Argument::Real(0x4044000000000000)), Expected::Done))
    } else if i == 21 {
        Some(Action::Execute(1, "INSERT INTO logs(ts,level,message) VALUES(?1,'info',?2)", Arguments::Two(Argument::Integer(40), Argument::Text("log_buffered_b")), Expected::Done))
    } else if i == 22 {
        Some(Action::Execute(1, "INSERT INTO traces(trace_id,span_id,name,service,start_ts) VALUES(?1,?2,?3,'r4',?4)", Arguments::Four(Argument::Fill(34, 16), Argument::Fill(34, 8), Argument::Text("trace_buffered_b"), Argument::Integer(40)), Expected::Done))
    } else if i == 23 {
        Some(Action::Query(0, "SELECT COUNT(*) FROM metrics", Arguments::Zero, Expected::First(Row::One(Literal::Integer(2)))))
    } else {
        None
    }
}

fn rollback_keeps_shared_part_0(i: usize) -> (action: Option<Action>)
    ensures
        action == rollback_keeps_shared_part_0_at(i as int),
{
    if i == 0 {
        Some(Action::Open(0, Database::Named("shared.db")))
    } else if i == 1 {
        Some(Action::Batch(0, "CREATE VIRTUAL TABLE metrics USING timeless_metrics; CREATE VIRTUAL TABLE logs USING timeless_logs; CREATE VIRTUAL TABLE traces USING timeless_traces;", Expected::Done))
    } else if i == 2 {
        Some(Action::Open(1, Database::Named("shared.db")))
    } else if i == 3 {
        Some(Action::Query(1, "SELECT COUNT(*) FROM metrics", Arguments::Zero, Expected::First(Row::One(Literal::Integer(0)))))
    } else if i == 4 {
        Some(Action::Query(1, "SELECT COUNT(*) FROM logs", Arguments::Zero, Expected::First(Row::One(Literal::Integer(0)))))
    } else if i == 5 {
        Some(Action::Query(1, "SELECT COUNT(*) FROM traces", Arguments::Zero, Expected::First(Row::One(Literal::Integer(0)))))
    } else if i == 6 {
        Some(Action::Execute(0, "INSERT INTO metrics(name,ts,value) VALUES(?1,?2,?3)", Arguments::Three(Argument::Text("metric_buffered_a"), Argument::Integer(30), Argument::Real(0x403e000000000000)), Expected::Done))
    } else if i == 7 {
        Some(Action::Execute(0, "INSERT INTO logs(ts,level,message) VALUES(?1,'info',?2)", Arguments::Two(Argument::Integer(30), Argument::Text("log_buffered_a")), Expected::Done))
    } else if i == 8 {
        Some(Action::Execute(0, "INSERT INTO traces(trace_id,span_id,name,service,start_ts) VALUES(?1,?2,?3,'r4',?4)", Arguments::Four(Argument::Fill(34, 16), Argument::Fill(34, 8), Argument::Text("trace_buffered_a"), Argument::Integer(30)), Expected::Done))
    } else if i == 9 {
        Some(Action::Query(1, "SELECT COUNT(*) FROM metrics", Arguments::Zero, Expected::First(Row::One(Literal::Integer(1)))))
    } else if i == 10 {
        Some(Action::Query(1, "SELECT COUNT(*) FROM logs", Arguments::Zero, Expected::First(Row::One(Literal::Integer(1)))))
    } else if i == 11 {
        Some(Action::Query(1, "SELECT COUNT(*) FROM traces", Arguments::Zero, Expected::First(Row::One(Literal::Integer(1)))))
    } else if i == 12 {
        Some(Action::Execute(0, "BEGIN", Arguments::Zero, Expected::Done))
    } else if i == 13 {
        Some(Action::Execute(0, "DROP TABLE \"metrics\"", Arguments::Zero, Expected::Done))
    } else if i == 14 {
        Some(Action::Execute(0, "DROP TABLE \"logs\"", Arguments::Zero, Expected::Done))
    } else if i == 15 {
        Some(Action::Execute(0, "DROP TABLE \"traces\"", Arguments::Zero, Expected::Done))
    } else if i == 16 {
        Some(Action::Execute(0, "ROLLBACK", Arguments::Zero, Expected::Done))
    } else if i == 17 {
        Some(Action::Query(1, "SELECT COUNT(*) FROM metrics", Arguments::Zero, Expected::First(Row::One(Literal::Integer(1)))))
    } else if i == 18 {
        Some(Action::Query(1, "SELECT COUNT(*) FROM logs", Arguments::Zero, Expected::First(Row::One(Literal::Integer(1)))))
    } else if i == 19 {
        Some(Action::Query(1, "SELECT COUNT(*) FROM traces", Arguments::Zero, Expected::First(Row::One(Literal::Integer(1)))))
    } else if i == 20 {
        Some(Action::Execute(1, "INSERT INTO metrics(name,ts,value) VALUES(?1,?2,?3)", Arguments::Three(Argument::Text("metric_buffered_b"), Argument::Integer(40), Argument::Real(0x4044000000000000)), Expected::Done))
    } else if i == 21 {
        Some(Action::Execute(1, "INSERT INTO logs(ts,level,message) VALUES(?1,'info',?2)", Arguments::Two(Argument::Integer(40), Argument::Text("log_buffered_b")), Expected::Done))
    } else if i == 22 {
        Some(Action::Execute(1, "INSERT INTO traces(trace_id,span_id,name,service,start_ts) VALUES(?1,?2,?3,'r4',?4)", Arguments::Four(Argument::Fill(34, 16), Argument::Fill(34, 8), Argument::Text("trace_buffered_b"), Argument::Integer(40)), Expected::Done))
    } else if i == 23 {
        Some(Action::Query(0, "SELECT COUNT(*) FROM metrics", Arguments::Zero, Expected::First(Row::One(Literal::Integer(2)))))
    } else {
        None
    }
}

/// A part of the script.
pub open spec fn rollback_keeps_shared_part_1_at(i: int) -> Option<Action> {
    if i == 0 {
        Some(Action::Query(0, "SELECT COUNT(*) FROM logs", Arguments::Zero, Expected::First(Row::One(Literal::Integer(2)))))
    } else if i == 1 {
        Some(Action::Query(0, "SELECT COUNT(*) FROM traces", Arguments::Zero, Expected::First(Row::One(Literal::Integer(2)))))
    } else if i == 2 {
        Some(Action::Close(1))
    } else if i == 3 {
        Some(Action::Close(0))
    } else {
        None
    }
}

fn rollback_keeps_shared_part_1(i: usize) -> (action: Option<Action>)
    ensures
        action == rollback_keeps_shared_part_1_at(i as int),
{
    if i == 0 {
        Some(Action::Query(0, "SELECT COUNT(*) FROM logs", Arguments::Zero, Expected::First(Row::One(Literal::Integer(2)))))
    } else if i == 1 {
        Some(Action::Query(0, "SELECT COUNT(*) FROM traces", Arguments::Zero, Expected::First(Row::One(Literal::Integer(2)))))
    } else if i == 2 {
        Some(Action::Close(1))
    } else if i == 3 {
        Some(Action::Close(0))
    } else {
        None
    }
}

/// Connections share an engine after one of them rolls a drop back: what is done at a place, from 0 on.
pub open spec fn rollback_keeps_shared_at(i: int) -> Option<Action> {
    if i < 24 {
        rollback_keeps_shared_part_0_at(i)
    } else {
        rollback_keeps_shared_part_1_at(i - 24)
    }
}

/// Connections share an engine after one of them rolls a drop back: what is done at a place, from 0 on.
pub fn rollback_keeps_shared(i: usize) -> (action: Option<Action>)
    ensures
        action == rollback_keeps_shared_at(i as int),
{
    if i < 24 {
        rollback_keeps_shared_part_0(i)
    } else {
        rollback_keeps_shared_part_1(i - 24)
    }
}

/// A part of the script.
pub open spec fn recreate_identity_part_0_at(i: int) -> Option<Action> {
    if i == 0 {
        Some(Action::Open(0, Database::Named("recreate.db")))
    } else if i == 1 {
        Some(Action::Batch(0, "CREATE VIRTUAL TABLE metrics USING timeless_metrics; CREATE VIRTUAL TABLE logs USING timeless_logs; CREATE VIRTUAL TABLE traces USING timeless_traces;", Expected::Done))
    } else if i == 2 {
        Some(Action::Execute(0, "INSERT INTO metrics(name,ts,value) VALUES(?1,?2,?3)", Arguments::Three(Argument::Text("metric_old_buffered"), Argument::Integer(50), Argument::Real(0x4049000000000000)), Expected::Done))
    } else if i == 3 {
        Some(Action::Execute(0, "INSERT INTO logs(ts,level,message) VALUES(?1,'info',?2)", Arguments::Two(Argument::Integer(50), Argument::Text("log_old_buffered")), Expected::Done))
    } else if i == 4 {
        Some(Action::Execute(0, "INSERT INTO traces(trace_id,span_id,name,service,start_ts) VALUES(?1,?2,?3,'r4',?4)", Arguments::Four(Argument::Fill(34, 16), Argument::Fill(34, 8), Argument::Text("trace_old_buffered"), Argument::Integer(50)), Expected::Done))
    } else if i == 5 {
        Some(Action::Query(0, "SELECT v FROM metrics_meta WHERE k='instance_id'", Arguments::Zero, Expected::Keep(0)))
    } else if i == 6 {
        Some(Action::Query(0, "SELECT v FROM logs_meta WHERE k='instance_id'", Arguments::Zero, Expected::Keep(1)))
    } else if i == 7 {
        Some(Action::Query(0, "SELECT v FROM traces_meta WHERE k='instance_id'", Arguments::Zero, Expected::Keep(2)))
    } else if i == 8 {
        Some(Action::Execute(0, "BEGIN", Arguments::Zero, Expected::Done))
    } else if i == 9 {
        Some(Action::Execute(0, "DROP TABLE \"metrics\"", Arguments::Zero, Expected::Done))
    } else if i == 10 {
        Some(Action::Execute(0, "DROP TABLE \"logs\"", Arguments::Zero, Expected::Done))
    } else if i == 11 {
        Some(Action::Execute(0, "DROP TABLE \"traces\"", Arguments::Zero, Expected::Done))
    } else if i == 12 {
        Some(Action::Execute(0, "COMMIT", Arguments::Zero, Expected::Done))
    } else if i == 13 {
        Some(Action::Batch(0, "CREATE VIRTUAL TABLE metrics USING timeless_metrics; CREATE VIRTUAL TABLE logs USING timeless_logs; CREATE VIRTUAL TABLE traces USING timeless_traces;", Expected::Done))
    } else if i == 14 {
        Some(Action::Query(0, "SELECT v FROM metrics_meta WHERE k='instance_id'", Arguments::Zero, Expected::Different(0)))
    } else if i == 15 {
        Some(Action::Query(0, "SELECT v FROM logs_meta WHERE k='instance_id'", Arguments::Zero, Expected::Different(1)))
    } else if i == 16 {
        Some(Action::Query(0, "SELECT v FROM traces_meta WHERE k='instance_id'", Arguments::Zero, Expected::Different(2)))
    } else if i == 17 {
        Some(Action::Query(0, "SELECT COUNT(*) FROM metrics", Arguments::Zero, Expected::First(Row::One(Literal::Integer(0)))))
    } else if i == 18 {
        Some(Action::Query(0, "SELECT COUNT(*) FROM logs", Arguments::Zero, Expected::First(Row::One(Literal::Integer(0)))))
    } else if i == 19 {
        Some(Action::Query(0, "SELECT COUNT(*) FROM traces", Arguments::Zero, Expected::First(Row::One(Literal::Integer(0)))))
    } else if i == 20 {
        Some(Action::Open(1, Database::Named("recreate.db")))
    } else if i == 21 {
        Some(Action::Query(1, "SELECT COUNT(*) FROM metrics", Arguments::Zero, Expected::First(Row::One(Literal::Integer(0)))))
    } else if i == 22 {
        Some(Action::Query(1, "SELECT COUNT(*) FROM logs", Arguments::Zero, Expected::First(Row::One(Literal::Integer(0)))))
    } else if i == 23 {
        Some(Action::Query(1, "SELECT COUNT(*) FROM traces", Arguments::Zero, Expected::First(Row::One(Literal::Integer(0)))))
    } else {
        None
    }
}

fn recreate_identity_part_0(i: usize) -> (action: Option<Action>)
    ensures
        action == recreate_identity_part_0_at(i as int),
{
    if i == 0 {
        Some(Action::Open(0, Database::Named("recreate.db")))
    } else if i == 1 {
        Some(Action::Batch(0, "CREATE VIRTUAL TABLE metrics USING timeless_metrics; CREATE VIRTUAL TABLE logs USING timeless_logs; CREATE VIRTUAL TABLE traces USING timeless_traces;", Expected::Done))
    } else if i == 2 {
        Some(Action::Execute(0, "INSERT INTO metrics(name,ts,value) VALUES(?1,?2,?3)", Arguments::Three(Argument::Text("metric_old_buffered"), Argument::Integer(50), Argument::Real(0x4049000000000000)), Expected::Done))
    } else if i == 3 {
        Some(Action::Execute(0, "INSERT INTO logs(ts,level,message) VALUES(?1,'info',?2)", Arguments::Two(Argument::Integer(50), Argument::Text("log_old_buffered")), Expected::Done))
    } else if i == 4 {
        Some(Action::Execute(0, "INSERT INTO traces(trace_id,span_id,name,service,start_ts) VALUES(?1,?2,?3,'r4',?4)", Arguments::Four(Argument::Fill(34, 16), Argument::Fill(34, 8), Argument::Text("trace_old_buffered"), Argument::Integer(50)), Expected::Done))
    } else if i == 5 {
        Some(Action::Query(0, "SELECT v FROM metrics_meta WHERE k='instance_id'", Arguments::Zero, Expected::Keep(0)))
    } else if i == 6 {
        Some(Action::Query(0, "SELECT v FROM logs_meta WHERE k='instance_id'", Arguments::Zero, Expected::Keep(1)))
    } else if i == 7 {
        Some(Action::Query(0, "SELECT v FROM traces_meta WHERE k='instance_id'", Arguments::Zero, Expected::Keep(2)))
    } else if i == 8 {
        Some(Action::Execute(0, "BEGIN", Arguments::Zero, Expected::Done))
    } else if i == 9 {
        Some(Action::Execute(0, "DROP TABLE \"metrics\"", Arguments::Zero, Expected::Done))
    } else if i == 10 {
        Some(Action::Execute(0, "DROP TABLE \"logs\"", Arguments::Zero, Expected::Done))
    } else if i == 11 {
        Some(Action::Execute(0, "DROP TABLE \"traces\"", Arguments::Zero, Expected::Done))
    } else if i == 12 {
        Some(Action::Execute(0, "COMMIT", Arguments::Zero, Expected::Done))
    } else if i == 13 {
        Some(Action::Batch(0, "CREATE VIRTUAL TABLE metrics USING timeless_metrics; CREATE VIRTUAL TABLE logs USING timeless_logs; CREATE VIRTUAL TABLE traces USING timeless_traces;", Expected::Done))
    } else if i == 14 {
        Some(Action::Query(0, "SELECT v FROM metrics_meta WHERE k='instance_id'", Arguments::Zero, Expected::Different(0)))
    } else if i == 15 {
        Some(Action::Query(0, "SELECT v FROM logs_meta WHERE k='instance_id'", Arguments::Zero, Expected::Different(1)))
    } else if i == 16 {
        Some(Action::Query(0, "SELECT v FROM traces_meta WHERE k='instance_id'", Arguments::Zero, Expected::Different(2)))
    } else if i == 17 {
        Some(Action::Query(0, "SELECT COUNT(*) FROM metrics", Arguments::Zero, Expected::First(Row::One(Literal::Integer(0)))))
    } else if i == 18 {
        Some(Action::Query(0, "SELECT COUNT(*) FROM logs", Arguments::Zero, Expected::First(Row::One(Literal::Integer(0)))))
    } else if i == 19 {
        Some(Action::Query(0, "SELECT COUNT(*) FROM traces", Arguments::Zero, Expected::First(Row::One(Literal::Integer(0)))))
    } else if i == 20 {
        Some(Action::Open(1, Database::Named("recreate.db")))
    } else if i == 21 {
        Some(Action::Query(1, "SELECT COUNT(*) FROM metrics", Arguments::Zero, Expected::First(Row::One(Literal::Integer(0)))))
    } else if i == 22 {
        Some(Action::Query(1, "SELECT COUNT(*) FROM logs", Arguments::Zero, Expected::First(Row::One(Literal::Integer(0)))))
    } else if i == 23 {
        Some(Action::Query(1, "SELECT COUNT(*) FROM traces", Arguments::Zero, Expected::First(Row::One(Literal::Integer(0)))))
    } else {
        None
    }
}

/// A part of the script.
pub open spec fn recreate_identity_part_1_at(i: int) -> Option<Action> {
    if i == 0 {
        Some(Action::Close(1))
    } else if i == 1 {
        Some(Action::Close(0))
    } else {
        None
    }
}

fn recreate_identity_part_1(i: usize) -> (action: Option<Action>)
    ensures
        action == recreate_identity_part_1_at(i as int),
{
    if i == 0 {
        Some(Action::Close(1))
    } else if i == 1 {
        Some(Action::Close(0))
    } else {
        None
    }
}

/// A table that is dropped and made again is another one: what is done at a place, from 0 on.
pub open spec fn recreate_identity_at(i: int) -> Option<Action> {
    if i < 24 {
        recreate_identity_part_0_at(i)
    } else {
        recreate_identity_part_1_at(i - 24)
    }
}

/// A table that is dropped and made again is another one: what is done at a place, from 0 on.
pub fn recreate_identity(i: usize) -> (action: Option<Action>)
    ensures
        action == recreate_identity_at(i as int),
{
    if i < 24 {
        recreate_identity_part_0(i)
    } else {
        recreate_identity_part_1(i - 24)
    }
}

/// A drop that fails leaves the table as it was, for every connection: what is done at a place, from 0 on.
pub open spec fn failed_destroy_at(i: int) -> Option<Action> {
    if i == 0 {
        Some(Action::Open(0, Database::Named("failed-destroy.db")))
    } else if i == 1 {
        Some(Action::Execute(0, "CREATE VIRTUAL TABLE metrics USING timeless_metrics", Arguments::Zero, Expected::Done))
    } else if i == 2 {
        Some(Action::Open(1, Database::Named("failed-destroy.db")))
    } else if i == 3 {
        Some(Action::Query(1, "SELECT COUNT(*) FROM metrics", Arguments::Zero, Expected::First(Row::One(Literal::Integer(0)))))
    } else if i == 4 {
        Some(Action::Execute(0, "INSERT INTO metrics(name,ts,value) VALUES('buffered_before_failure',60,1)", Arguments::Zero, Expected::Done))
    } else if i == 5 {
        Some(Action::Deny(0, "metrics_chunks"))
    } else if i == 6 {
        Some(Action::Execute(0, "DROP TABLE metrics", Arguments::Zero, Expected::Refused))
    } else if i == 7 {
        Some(Action::Permit(0))
    } else if i == 8 {
        Some(Action::Query(0, "SELECT COUNT(*) FROM metrics", Arguments::Zero, Expected::First(Row::One(Literal::Integer(1)))))
    } else if i == 9 {
        Some(Action::Open(2, Database::Named("failed-destroy.db")))
    } else if i == 10 {
        Some(Action::Query(2, "SELECT COUNT(*) FROM metrics", Arguments::Zero, Expected::First(Row::One(Literal::Integer(1)))))
    } else if i == 11 {
        Some(Action::Execute(2, "INSERT INTO metrics(name,ts,value) VALUES('after_failure',61,2)", Arguments::Zero, Expected::Done))
    } else if i == 12 {
        Some(Action::Query(1, "SELECT COUNT(*) FROM metrics", Arguments::Zero, Expected::First(Row::One(Literal::Integer(2)))))
    } else if i == 13 {
        Some(Action::Close(2))
    } else if i == 14 {
        Some(Action::Close(1))
    } else if i == 15 {
        Some(Action::Close(0))
    } else {
        None
    }
}

/// A drop that fails leaves the table as it was, for every connection: what is done at a place, from 0 on.
pub fn failed_destroy(i: usize) -> (action: Option<Action>)
    ensures
        action == failed_destroy_at(i as int),
{
    if i == 0 {
        Some(Action::Open(0, Database::Named("failed-destroy.db")))
    } else if i == 1 {
        Some(Action::Execute(0, "CREATE VIRTUAL TABLE metrics USING timeless_metrics", Arguments::Zero, Expected::Done))
    } else if i == 2 {
        Some(Action::Open(1, Database::Named("failed-destroy.db")))
    } else if i == 3 {
        Some(Action::Query(1, "SELECT COUNT(*) FROM metrics", Arguments::Zero, Expected::First(Row::One(Literal::Integer(0)))))
    } else if i == 4 {
        Some(Action::Execute(0, "INSERT INTO metrics(name,ts,value) VALUES('buffered_before_failure',60,1)", Arguments::Zero, Expected::Done))
    } else if i == 5 {
        Some(Action::Deny(0, "metrics_chunks"))
    } else if i == 6 {
        Some(Action::Execute(0, "DROP TABLE metrics", Arguments::Zero, Expected::Refused))
    } else if i == 7 {
        Some(Action::Permit(0))
    } else if i == 8 {
        Some(Action::Query(0, "SELECT COUNT(*) FROM metrics", Arguments::Zero, Expected::First(Row::One(Literal::Integer(1)))))
    } else if i == 9 {
        Some(Action::Open(2, Database::Named("failed-destroy.db")))
    } else if i == 10 {
        Some(Action::Query(2, "SELECT COUNT(*) FROM metrics", Arguments::Zero, Expected::First(Row::One(Literal::Integer(1)))))
    } else if i == 11 {
        Some(Action::Execute(2, "INSERT INTO metrics(name,ts,value) VALUES('after_failure',61,2)", Arguments::Zero, Expected::Done))
    } else if i == 12 {
        Some(Action::Query(1, "SELECT COUNT(*) FROM metrics", Arguments::Zero, Expected::First(Row::One(Literal::Integer(2)))))
    } else if i == 13 {
        Some(Action::Close(2))
    } else if i == 14 {
        Some(Action::Close(1))
    } else if i == 15 {
        Some(Action::Close(0))
    } else {
        None
    }
}

/// A part of the script.
pub open spec fn instance_migration_part_0_at(i: int) -> Option<Action> {
    if i == 0 {
        Some(Action::Open(0, Database::Named("instance-migration.db")))
    } else if i == 1 {
        Some(Action::Batch(0, "CREATE VIRTUAL TABLE metrics USING timeless_metrics; CREATE VIRTUAL TABLE logs USING timeless_logs; CREATE VIRTUAL TABLE traces USING timeless_traces;", Expected::Done))
    } else if i == 2 {
        Some(Action::Execute(0, "INSERT INTO metrics(name,ts,value) VALUES(?1,?2,?3)", Arguments::Three(Argument::Text("metric_flushed_migration"), Argument::Integer(70), Argument::Real(0x4051800000000000)), Expected::Done))
    } else if i == 3 {
        Some(Action::Execute(0, "INSERT INTO logs(ts,level,message) VALUES(?1,'info',?2)", Arguments::Two(Argument::Integer(70), Argument::Text("log_flushed_migration")), Expected::Done))
    } else if i == 4 {
        Some(Action::Execute(0, "INSERT INTO traces(trace_id,span_id,name,service,start_ts) VALUES(?1,?2,?3,'r4',?4)", Arguments::Four(Argument::Fill(17, 16), Argument::Fill(17, 8), Argument::Text("trace_flushed_migration"), Argument::Integer(70)), Expected::Done))
    } else if i == 5 {
        Some(Action::Execute(0, "INSERT INTO \"metrics\"(\"metrics\") VALUES(?1)", Arguments::One(Argument::Text("flush")), Expected::Done))
    } else if i == 6 {
        Some(Action::Execute(0, "INSERT INTO \"logs\"(\"logs\") VALUES(?1)", Arguments::One(Argument::Text("flush")), Expected::Done))
    } else if i == 7 {
        Some(Action::Execute(0, "INSERT INTO \"traces\"(\"traces\") VALUES(?1)", Arguments::One(Argument::Text("flush")), Expected::Done))
    } else if i == 8 {
        Some(Action::Close(0))
    } else if i == 9 {
        Some(Action::OpenPlain(0, Database::Named("instance-migration.db")))
    } else if i == 10 {
        Some(Action::Execute(0, "DELETE FROM metrics_meta WHERE k='instance_id'", Arguments::Zero, Expected::Done))
    } else if i == 11 {
        Some(Action::Execute(0, "DELETE FROM logs_meta WHERE k='instance_id'", Arguments::Zero, Expected::Done))
    } else if i == 12 {
        Some(Action::Execute(0, "DELETE FROM traces_meta WHERE k='instance_id'", Arguments::Zero, Expected::Done))
    } else if i == 13 {
        Some(Action::Close(0))
    } else if i == 14 {
        Some(Action::Open(0, Database::Named("instance-migration.db")))
    } else if i == 15 {
        Some(Action::Query(0, "SELECT timeless_upgrade('metrics')", Arguments::Zero, Expected::Done))
    } else if i == 16 {
        Some(Action::Query(0, "SELECT timeless_upgrade('logs')", Arguments::Zero, Expected::Done))
    } else if i == 17 {
        Some(Action::Query(0, "SELECT timeless_upgrade('traces')", Arguments::Zero, Expected::Done))
    } else if i == 18 {
        Some(Action::Query(0, "SELECT COUNT(*) FROM metrics", Arguments::Zero, Expected::First(Row::One(Literal::Integer(1)))))
    } else if i == 19 {
        Some(Action::Query(0, "SELECT COUNT(*) FROM logs", Arguments::Zero, Expected::First(Row::One(Literal::Integer(1)))))
    } else if i == 20 {
        Some(Action::Query(0, "SELECT COUNT(*) FROM traces", Arguments::Zero, Expected::First(Row::One(Literal::Integer(1)))))
    } else if i == 21 {
        Some(Action::Query(0, "SELECT v FROM metrics_meta WHERE k='instance_id'", Arguments::Zero, Expected::Length(16)))
    } else if i == 22 {
        Some(Action::Query(0, "SELECT v FROM logs_meta WHERE k='instance_id'", Arguments::Zero, Expected::Length(16)))
    } else if i == 23 {
        Some(Action::Query(0, "SELECT v FROM traces_meta WHERE k='instance_id'", Arguments::Zero, Expected::Length(16)))
    } else {
        None
    }
}

fn instance_migration_part_0(i: usize) -> (action: Option<Action>)
    ensures
        action == instance_migration_part_0_at(i as int),
{
    if i == 0 {
        Some(Action::Open(0, Database::Named("instance-migration.db")))
    } else if i == 1 {
        Some(Action::Batch(0, "CREATE VIRTUAL TABLE metrics USING timeless_metrics; CREATE VIRTUAL TABLE logs USING timeless_logs; CREATE VIRTUAL TABLE traces USING timeless_traces;", Expected::Done))
    } else if i == 2 {
        Some(Action::Execute(0, "INSERT INTO metrics(name,ts,value) VALUES(?1,?2,?3)", Arguments::Three(Argument::Text("metric_flushed_migration"), Argument::Integer(70), Argument::Real(0x4051800000000000)), Expected::Done))
    } else if i == 3 {
        Some(Action::Execute(0, "INSERT INTO logs(ts,level,message) VALUES(?1,'info',?2)", Arguments::Two(Argument::Integer(70), Argument::Text("log_flushed_migration")), Expected::Done))
    } else if i == 4 {
        Some(Action::Execute(0, "INSERT INTO traces(trace_id,span_id,name,service,start_ts) VALUES(?1,?2,?3,'r4',?4)", Arguments::Four(Argument::Fill(17, 16), Argument::Fill(17, 8), Argument::Text("trace_flushed_migration"), Argument::Integer(70)), Expected::Done))
    } else if i == 5 {
        Some(Action::Execute(0, "INSERT INTO \"metrics\"(\"metrics\") VALUES(?1)", Arguments::One(Argument::Text("flush")), Expected::Done))
    } else if i == 6 {
        Some(Action::Execute(0, "INSERT INTO \"logs\"(\"logs\") VALUES(?1)", Arguments::One(Argument::Text("flush")), Expected::Done))
    } else if i == 7 {
        Some(Action::Execute(0, "INSERT INTO \"traces\"(\"traces\") VALUES(?1)", Arguments::One(Argument::Text("flush")), Expected::Done))
    } else if i == 8 {
        Some(Action::Close(0))
    } else if i == 9 {
        Some(Action::OpenPlain(0, Database::Named("instance-migration.db")))
    } else if i == 10 {
        Some(Action::Execute(0, "DELETE FROM metrics_meta WHERE k='instance_id'", Arguments::Zero, Expected::Done))
    } else if i == 11 {
        Some(Action::Execute(0, "DELETE FROM logs_meta WHERE k='instance_id'", Arguments::Zero, Expected::Done))
    } else if i == 12 {
        Some(Action::Execute(0, "DELETE FROM traces_meta WHERE k='instance_id'", Arguments::Zero, Expected::Done))
    } else if i == 13 {
        Some(Action::Close(0))
    } else if i == 14 {
        Some(Action::Open(0, Database::Named("instance-migration.db")))
    } else if i == 15 {
        Some(Action::Query(0, "SELECT timeless_upgrade('metrics')", Arguments::Zero, Expected::Done))
    } else if i == 16 {
        Some(Action::Query(0, "SELECT timeless_upgrade('logs')", Arguments::Zero, Expected::Done))
    } else if i == 17 {
        Some(Action::Query(0, "SELECT timeless_upgrade('traces')", Arguments::Zero, Expected::Done))
    } else if i == 18 {
        Some(Action::Query(0, "SELECT COUNT(*) FROM metrics", Arguments::Zero, Expected::First(Row::One(Literal::Integer(1)))))
    } else if i == 19 {
        Some(Action::Query(0, "SELECT COUNT(*) FROM logs", Arguments::Zero, Expected::First(Row::One(Literal::Integer(1)))))
    } else if i == 20 {
        Some(Action::Query(0, "SELECT COUNT(*) FROM traces", Arguments::Zero, Expected::First(Row::One(Literal::Integer(1)))))
    } else if i == 21 {
        Some(Action::Query(0, "SELECT v FROM metrics_meta WHERE k='instance_id'", Arguments::Zero, Expected::Length(16)))
    } else if i == 22 {
        Some(Action::Query(0, "SELECT v FROM logs_meta WHERE k='instance_id'", Arguments::Zero, Expected::Length(16)))
    } else if i == 23 {
        Some(Action::Query(0, "SELECT v FROM traces_meta WHERE k='instance_id'", Arguments::Zero, Expected::Length(16)))
    } else {
        None
    }
}

/// A part of the script.
pub open spec fn instance_migration_part_1_at(i: int) -> Option<Action> {
    if i == 0 {
        Some(Action::Close(0))
    } else if i == 1 {
        Some(Action::OpenPlain(0, Database::Named("instance-migration.db")))
    } else if i == 2 {
        Some(Action::Execute(0, "UPDATE metrics_meta SET v=x'01' WHERE k='instance_id'", Arguments::Zero, Expected::Done))
    } else if i == 3 {
        Some(Action::Close(0))
    } else if i == 4 {
        Some(Action::Open(0, Database::Named("instance-migration.db")))
    } else if i == 5 {
        Some(Action::Query(0, "SELECT COUNT(*) FROM metrics", Arguments::Zero, Expected::Refused))
    } else if i == 6 {
        Some(Action::Close(0))
    } else {
        None
    }
}

fn instance_migration_part_1(i: usize) -> (action: Option<Action>)
    ensures
        action == instance_migration_part_1_at(i as int),
{
    if i == 0 {
        Some(Action::Close(0))
    } else if i == 1 {
        Some(Action::OpenPlain(0, Database::Named("instance-migration.db")))
    } else if i == 2 {
        Some(Action::Execute(0, "UPDATE metrics_meta SET v=x'01' WHERE k='instance_id'", Arguments::Zero, Expected::Done))
    } else if i == 3 {
        Some(Action::Close(0))
    } else if i == 4 {
        Some(Action::Open(0, Database::Named("instance-migration.db")))
    } else if i == 5 {
        Some(Action::Query(0, "SELECT COUNT(*) FROM metrics", Arguments::Zero, Expected::Refused))
    } else if i == 6 {
        Some(Action::Close(0))
    } else {
        None
    }
}

/// Tables without an identity get one, and one that is damaged keeps its table closed: what is done at a place, from 0 on.
pub open spec fn instance_migration_at(i: int) -> Option<Action> {
    if i < 24 {
        instance_migration_part_0_at(i)
    } else {
        instance_migration_part_1_at(i - 24)
    }
}

/// Tables without an identity get one, and one that is damaged keeps its table closed: what is done at a place, from 0 on.
pub fn instance_migration(i: usize) -> (action: Option<Action>)
    ensures
        action == instance_migration_at(i as int),
{
    if i < 24 {
        instance_migration_part_0(i)
    } else {
        instance_migration_part_1(i - 24)
    }
}

/// The script has an action at every place below 37, and none from there on.
pub proof fn rollback_preserves_buffered_ends(i: int)
    ensures
        rollback_preserves_buffered_at(i) is Some <==> 0 <= i < 37,
{
}

/// The script has an action at every place below 28, and none from there on.
pub proof fn rollback_keeps_shared_ends(i: int)
    ensures
        rollback_keeps_shared_at(i) is Some <==> 0 <= i < 28,
{
}

/// The script has an action at every place below 26, and none from there on.
pub proof fn recreate_identity_ends(i: int)
    ensures
        recreate_identity_at(i) is Some <==> 0 <= i < 26,
{
}

/// The script has an action at every place below 16, and none from there on.
pub proof fn failed_destroy_ends(i: int)
    ensures
        failed_destroy_at(i) is Some <==> 0 <= i < 16,
{
}

/// The script has an action at every place below 31, and none from there on.
pub proof fn instance_migration_ends(i: int)
    ensures
        instance_migration_at(i) is Some <==> 0 <= i < 31,
{
}

/// A section of the suite.
#[derive(Clone, Copy, Debug, PartialEq, Eq, Structural)]
pub enum Section {
    /// A rolled back drop loses nothing.
    RollbackPreservesBuffered,
    /// A rolled back drop keeps connections together.
    RollbackKeepsShared,
    /// A new table is another one.
    RecreateIdentity,
    /// A failed drop changes nothing.
    FailedDestroy,
    /// Identities are added and checked.
    InstanceMigration,
}

/// The section at a place, from 0 on.
pub open spec fn section_at(i: int) -> Option<Section> {
    if i == 0 {
        Some(Section::RollbackPreservesBuffered)
    } else if i == 1 {
        Some(Section::RollbackKeepsShared)
    } else if i == 2 {
        Some(Section::RecreateIdentity)
    } else if i == 3 {
        Some(Section::FailedDestroy)
    } else if i == 4 {
        Some(Section::InstanceMigration)
    } else {
        None
    }
}

/// The section at a place, from 0 on.
pub fn run(i: usize) -> (section: Option<Section>)
    ensures
        section == section_at(i as int),
{
    if i == 0 {
        Some(Section::RollbackPreservesBuffered)
    } else if i == 1 {
        Some(Section::RollbackKeepsShared)
    } else if i == 2 {
        Some(Section::RecreateIdentity)
    } else if i == 3 {
        Some(Section::FailedDestroy)
    } else if i == 4 {
        Some(Section::InstanceMigration)
    } else {
        None
    }
}

/// What a section does at a place, from 0 on.
pub open spec fn script_at(section: Section, i: int) -> Option<Action> {
    match section {
        Section::RollbackPreservesBuffered => rollback_preserves_buffered_at(i),
        Section::RollbackKeepsShared => rollback_keeps_shared_at(i),
        Section::RecreateIdentity => recreate_identity_at(i),
        Section::FailedDestroy => failed_destroy_at(i),
        Section::InstanceMigration => instance_migration_at(i),
    }
}

/// What a section does at a place, from 0 on.
pub fn script(section: Section, i: usize) -> (action: Option<Action>)
    ensures
        action == script_at(section, i as int),
{
    match section {
        Section::RollbackPreservesBuffered => rollback_preserves_buffered(i),
        Section::RollbackKeepsShared => rollback_keeps_shared(i),
        Section::RecreateIdentity => recreate_identity(i),
        Section::FailedDestroy => failed_destroy(i),
        Section::InstanceMigration => instance_migration(i),
    }
}

/// What is said when a section has passed.
pub open spec fn passed(section: Section) -> &'static str {
    match section {
        Section::RollbackPreservesBuffered => "PASS test_drop_rollback_preserves_buffered_state",
        Section::RollbackKeepsShared => "PASS test_drop_rollback_keeps_preconnected_engine_shared",
        Section::RecreateIdentity => "PASS test_committed_drop_recreate_gets_fresh_identity",
        Section::FailedDestroy => "PASS test_failed_destroy_does_not_split_registry",
        Section::InstanceMigration => "PASS test_instance_id_migration_and_validation",
    }
}

/// What is said when a section has passed.
pub fn pass_text(section: Section) -> (line: &'static str)
    ensures
        line == passed(section),
{
    match section {
        Section::RollbackPreservesBuffered => "PASS test_drop_rollback_preserves_buffered_state",
        Section::RollbackKeepsShared => "PASS test_drop_rollback_keeps_preconnected_engine_shared",
        Section::RecreateIdentity => "PASS test_committed_drop_recreate_gets_fresh_identity",
        Section::FailedDestroy => "PASS test_failed_destroy_does_not_split_registry",
        Section::InstanceMigration => "PASS test_instance_id_migration_and_validation",
    }
}

} // verus!
