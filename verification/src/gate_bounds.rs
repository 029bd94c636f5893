//! Times at the ends of their range, and bounds that are NULL, select what plain tables
//! select.
use crate::gate::{Action, Argument, Arguments, Database, Expected};
use vstd::prelude::*;

verus! {

/// A part of the script.
pub open spec fn run_part_0_at(i: int) -> Option<Action> {
    if i == 0 {
        Some(Action::Open(0, Database::Named("r8_unconstrained.db")))
    } else if i == 1 {
        Some(Action::Batch(0, "CREATE VIRTUAL TABLE metrics USING timeless_metrics; CREATE TABLE plain_metrics(name TEXT,ts INTEGER,value REAL); CREATE VIRTUAL TABLE logs USING timeless_logs; CREATE TABLE plain_logs(ts INTEGER,level TEXT,message TEXT); CREATE VIRTUAL TABLE traces USING timeless_traces; CREATE TABLE plain_traces(trace_id BLOB,span_id BLOB,name TEXT,service TEXT,start_ts INTEGER);", Expected::Done))
    } else if i == 2 {
        Some(Action::Execute(0, "INSERT INTO metrics(name,ts,value) VALUES(?1,?2,?3)", Arguments::Three(Argument::Text("edge"), Argument::Integer(i64::MIN), Argument::Real(0xbff0000000000000)), Expected::Done))
    } else if i == 3 {
        Some(Action::Execute(0, "INSERT INTO metrics(name,ts,value) VALUES(?1,?2,?3)", Arguments::Three(Argument::Text("edge"), Argument::Integer(i64::MAX), Argument::Real(0x3ff0000000000000)), Expected::Done))
    } else if i == 4 {
        Some(Action::Execute(0, "INSERT INTO plain_metrics(name,ts,value) VALUES(?1,?2,?3)", Arguments::Three(Argument::Text("edge"), Argument::Integer(i64::MIN), Argument::Real(0xbff0000000000000)), Expected::Done))
    } else if i == 5 {
        Some(Action::Execute(0, "INSERT INTO plain_metrics(name,ts,value) VALUES(?1,?2,?3)", Arguments::Three(Argument::Text("edge"), Argument::Integer(i64::MAX), Argument::Real(0x3ff0000000000000)), Expected::Done))
    } else if i == 6 {
        Some(Action::Execute(0, "INSERT INTO logs(ts,level,message) VALUES(?1,?2,?3)", Arguments::Three(Argument::Integer(i64::MIN), Argument::Text("info"), Argument::Text("min")), Expected::Done))
    } else if i == 7 {
        Some(Action::Execute(0, "INSERT INTO logs(ts,level,message) VALUES(?1,?2,?3)", Arguments::Three(Argument::Integer(i64::MAX), Argument::Text("error"), Argument::Text("max")), Expected::Done))
    } else if i == 8 {
        Some(Action::Execute(0, "INSERT INTO plain_logs(ts,level,message) VALUES(?1,?2,?3)", Arguments::Three(Argument::Integer(i64::MIN), Argument::Text("info"), Argument::Text("min")), Expected::Done))
    } else if i == 9 {
        Some(Action::Execute(0, "INSERT INTO plain_logs(ts,level,message) VALUES(?1,?2,?3)", Arguments::Three(Argument::Integer(i64::MAX), Argument::Text("error"), Argument::Text("max")), Expected::Done))
    } else if i == 10 {
        Some(Action::Execute(0, "INSERT INTO traces(trace_id,span_id,name,service,start_ts) VALUES(?1,?2,?3,?4,?5)", Arguments::Five(Argument::Fill(1, 16), Argument::Fill(1, 8), Argument::Text("min"), Argument::Text("svc"), Argument::Integer(i64::MIN)), Expected::Done))
    } else if i == 11 {
        Some(Action::Execute(0, "INSERT INTO traces(trace_id,span_id,name,service,start_ts) VALUES(?1,?2,?3,?4,?5)", Arguments::Five(Argument::Fill(2, 16), Argument::Fill(2, 8), Argument::Text("max"), Argument::Text("svc"), Argument::Integer(i64::MAX)), Expected::Done))
    } else if i == 12 {
        Some(Action::Execute(0, "INSERT INTO plain_traces(trace_id,span_id,name,service,start_ts) VALUES(?1,?2,?3,?4,?5)", Arguments::Five(Argument::Fill(1, 16), Argument::Fill(1, 8), Argument::Text("min"), Argument::Text("svc"), Argument::Integer(i64::MIN)), Expected::Done))
    } else if i == 13 {
        Some(Action::Execute(0, "INSERT INTO plain_traces(trace_id,span_id,name,service,start_ts) VALUES(?1,?2,?3,?4,?5)", Arguments::Five(Argument::Fill(2, 16), Argument::Fill(2, 8), Argument::Text("max"), Argument::Text("svc"), Argument::Integer(i64::MAX)), Expected::Done))
    } else if i == 14 {
        Some(Action::Agree(0, "SELECT name,ts,value FROM metrics ORDER BY ts", Arguments::Zero, "SELECT name,ts,value FROM plain_metrics ORDER BY ts", Arguments::Zero))
    } else if i == 15 {
        Some(Action::Agree(0, "SELECT ts,level,message FROM logs ORDER BY ts", Arguments::Zero, "SELECT ts,level,message FROM plain_logs ORDER BY ts", Arguments::Zero))
    } else if i == 16 {
        Some(Action::Agree(0, "SELECT trace_id,span_id,name,service,start_ts FROM traces ORDER BY start_ts", Arguments::Zero, "SELECT trace_id,span_id,name,service,start_ts FROM plain_traces ORDER BY start_ts", Arguments::Zero))
    } else if i == 17 {
        Some(Action::Execute(0, "INSERT INTO metrics(metrics) VALUES ('flush')", Arguments::Zero, Expected::Done))
    } else if i == 18 {
        Some(Action::Execute(0, "INSERT INTO logs(logs) VALUES ('flush')", Arguments::Zero, Expected::Done))
    } else if i == 19 {
        Some(Action::Execute(0, "INSERT INTO traces(traces) VALUES ('flush')", Arguments::Zero, Expected::Done))
    } else if i == 20 {
        Some(Action::Agree(0, "SELECT name,ts,value FROM metrics ORDER BY ts", Arguments::Zero, "SELECT name,ts,value FROM plain_metrics ORDER BY ts", Arguments::Zero))
    } else if i == 21 {
        Some(Action::Agree(0, "SELECT ts,level,message FROM logs ORDER BY ts", Arguments::Zero, "SELECT ts,level,message FROM plain_logs ORDER BY ts", Arguments::Zero))
    } else if i == 22 {
        Some(Action::Agree(0, "SELECT trace_id,span_id,name,service,start_ts FROM traces ORDER BY start_ts", Arguments::Zero, "SELECT trace_id,span_id,name,service,start_ts FROM plain_traces ORDER BY start_ts", Arguments::Zero))
    } else if i == 23 {
        Some(Action::Close(0))
    } else {
        None
    }
}

fn run_part_0(i: usize) -> (action: Option<Action>)
    ensures
        action == run_part_0_at(i as int),
{
    if i == 0 {
        Some(Action::Open(0, Database::Named("r8_unconstrained.db")))
    } else if i == 1 {
        Some(Action::Batch(0, "CREATE VIRTUAL TABLE metrics USING timeless_metrics; CREATE TABLE plain_metrics(name TEXT,ts INTEGER,value REAL); CREATE VIRTUAL TABLE logs USING timeless_logs; CREATE TABLE plain_logs(ts INTEGER,level TEXT,message TEXT); CREATE VIRTUAL TABLE traces USING timeless_traces; CREATE TABLE plain_traces(trace_id BLOB,span_id BLOB,name TEXT,service TEXT,start_ts INTEGER);", Expected::Done))
    } else if i == 2 {
        Some(Action::Execute(0, "INSERT INTO metrics(name,ts,value) VALUES(?1,?2,?3)", Arguments::Three(Argument::Text("edge"), Argument::Integer(i64::MIN), Argument::Real(0xbff0000000000000)), Expected::Done))
    } else if i == 3 {
        Some(Action::Execute(0, "INSERT INTO metrics(name,ts,value) VALUES(?1,?2,?3)", Arguments::Three(Argument::Text("edge"), Argument::Integer(i64::MAX), Argument::Real(0x3ff0000000000000)), Expected::Done))
    } else if i == 4 {
        Some(Action::Execute(0, "INSERT INTO plain_metrics(name,ts,value) VALUES(?1,?2,?3)", Arguments::Three(Argument::Text("edge"), Argument::Integer(i64::MIN), Argument::Real(0xbff0000000000000)), Expected::Done))
    } else if i == 5 {
        Some(Action::Execute(0, "INSERT INTO plain_metrics(name,ts,value) VALUES(?1,?2,?3)", Arguments::Three(Argument::Text("edge"), Argument::Integer(i64::MAX), Argument::Real(0x3ff0000000000000)), Expected::Done))
    } else if i == 6 {
        Some(Action::Execute(0, "INSERT INTO logs(ts,level,message) VALUES(?1,?2,?3)", Arguments::Three(Argument::Integer(i64::MIN), Argument::Text("info"), Argument::Text("min")), Expected::Done))
    } else if i == 7 {
        Some(Action::Execute(0, "INSERT INTO logs(ts,level,message) VALUES(?1,?2,?3)", Arguments::Three(Argument::Integer(i64::MAX), Argument::Text("error"), Argument::Text("max")), Expected::Done))
    } else if i == 8 {
        Some(Action::Execute(0, "INSERT INTO plain_logs(ts,level,message) VALUES(?1,?2,?3)", Arguments::Three(Argument::Integer(i64::MIN), Argument::Text("info"), Argument::Text("min")), Expected::Done))
    } else if i == 9 {
        Some(Action::Execute(0, "INSERT INTO plain_logs(ts,level,message) VALUES(?1,?2,?3)", Arguments::Three(Argument::Integer(i64::MAX), Argument::Text("error"), Argument::Text("max")), Expected::Done))
    } else if i == 10 {
        Some(Action::Execute(0, "INSERT INTO traces(trace_id,span_id,name,service,start_ts) VALUES(?1,?2,?3,?4,?5)", Arguments::Five(Argument::Fill(1, 16), Argument::Fill(1, 8), Argument::Text("min"), Argument::Text("svc"), Argument::Integer(i64::MIN)), Expected::Done))
    } else if i == 11 {
        Some(Action::Execute(0, "INSERT INTO traces(trace_id,span_id,name,service,start_ts) VALUES(?1,?2,?3,?4,?5)", Arguments::Five(Argument::Fill(2, 16), Argument::Fill(2, 8), Argument::Text("max"), Argument::Text("svc"), Argument::Integer(i64::MAX)), Expected::Done))
    } else if i == 12 {
        Some(Action::Execute(0, "INSERT INTO plain_traces(trace_id,span_id,name,service,start_ts) VALUES(?1,?2,?3,?4,?5)", Arguments::Five(Argument::Fill(1, 16), Argument::Fill(1, 8), Argument::Text("min"), Argument::Text("svc"), Argument::Integer(i64::MIN)), Expected::Done))
    } else if i == 13 {
        Some(Action::Execute(0, "INSERT INTO plain_traces(trace_id,span_id,name,service,start_ts) VALUES(?1,?2,?3,?4,?5)", Arguments::Five(Argument::Fill(2, 16), Argument::Fill(2, 8), Argument::Text("max"), Argument::Text("svc"), Argument::Integer(i64::MAX)), Expected::Done))
    } else if i == 14 {
        Some(Action::Agree(0, "SELECT name,ts,value FROM metrics ORDER BY ts", Arguments::Zero, "SELECT name,ts,value FROM plain_metrics ORDER BY ts", Arguments::Zero))
    } else if i == 15 {
        Some(Action::Agree(0, "SELECT ts,level,message FROM logs ORDER BY ts", Arguments::Zero, "SELECT ts,level,message FROM plain_logs ORDER BY ts", Arguments::Zero))
    } else if i == 16 {
        Some(Action::Agree(0, "SELECT trace_id,span_id,name,service,start_ts FROM traces ORDER BY start_ts", Arguments::Zero, "SELECT trace_id,span_id,name,service,start_ts FROM plain_traces ORDER BY start_ts", Arguments::Zero))
    } else if i == 17 {
        Some(Action::Execute(0, "INSERT INTO metrics(metrics) VALUES ('flush')", Arguments::Zero, Expected::Done))
    } else if i == 18 {
        Some(Action::Execute(0, "INSERT INTO logs(logs) VALUES ('flush')", Arguments::Zero, Expected::Done))
    } else if i == 19 {
        Some(Action::Execute(0, "INSERT INTO traces(traces) VALUES ('flush')", Arguments::Zero, Expected::Done))
    } else if i == 20 {
        Some(Action::Agree(0, "SELECT name,ts,value FROM metrics ORDER BY ts", Arguments::Zero, "SELECT name,ts,value FROM plain_metrics ORDER BY ts", Arguments::Zero))
    } else if i == 21 {
        Some(Action::Agree(0, "SELECT ts,level,message FROM logs ORDER BY ts", Arguments::Zero, "SELECT ts,level,message FROM plain_logs ORDER BY ts", Arguments::Zero))
    } else if i == 22 {
        Some(Action::Agree(0, "SELECT trace_id,span_id,name,service,start_ts FROM traces ORDER BY start_ts", Arguments::Zero, "SELECT trace_id,span_id,name,service,start_ts FROM plain_traces ORDER BY start_ts", Arguments::Zero))
    } else if i == 23 {
        Some(Action::Close(0))
    } else {
        None
    }
}

/// A part of the script.
pub open spec fn run_part_1_at(i: int) -> Option<Action> {
    if i == 0 {
        Some(Action::Open(0, Database::Named("r8_unconstrained.db")))
    } else if i == 1 {
        Some(Action::Agree(0, "SELECT name,ts,value FROM metrics ORDER BY ts", Arguments::Zero, "SELECT name,ts,value FROM plain_metrics ORDER BY ts", Arguments::Zero))
    } else if i == 2 {
        Some(Action::Agree(0, "SELECT ts,level,message FROM logs ORDER BY ts", Arguments::Zero, "SELECT ts,level,message FROM plain_logs ORDER BY ts", Arguments::Zero))
    } else if i == 3 {
        Some(Action::Agree(0, "SELECT trace_id,span_id,name,service,start_ts FROM traces ORDER BY start_ts", Arguments::Zero, "SELECT trace_id,span_id,name,service,start_ts FROM plain_traces ORDER BY start_ts", Arguments::Zero))
    } else if i == 4 {
        Some(Action::Close(0))
    } else if i == 5 {
        Some(Action::Open(0, Database::Named("r8_inclusive.db")))
    } else if i == 6 {
        Some(Action::Batch(0, "CREATE VIRTUAL TABLE metrics USING timeless_metrics; CREATE TABLE plain_metrics(name TEXT,ts INTEGER,value REAL); CREATE VIRTUAL TABLE logs USING timeless_logs; CREATE TABLE plain_logs(ts INTEGER,level TEXT,message TEXT); CREATE VIRTUAL TABLE traces USING timeless_traces; CREATE TABLE plain_traces(trace_id BLOB,span_id BLOB,name TEXT,service TEXT,start_ts INTEGER);", Expected::Done))
    } else if i == 7 {
        Some(Action::Execute(0, "INSERT INTO metrics(name,ts,value) VALUES(?1,?2,?3)", Arguments::Three(Argument::Text("edge"), Argument::Integer(i64::MIN), Argument::Real(0xbff0000000000000)), Expected::Done))
    } else if i == 8 {
        Some(Action::Execute(0, "INSERT INTO metrics(name,ts,value) VALUES(?1,?2,?3)", Arguments::Three(Argument::Text("edge"), Argument::Integer(i64::MAX), Argument::Real(0x3ff0000000000000)), Expected::Done))
    } else if i == 9 {
        Some(Action::Execute(0, "INSERT INTO plain_metrics(name,ts,value) VALUES(?1,?2,?3)", Arguments::Three(Argument::Text("edge"), Argument::Integer(i64::MIN), Argument::Real(0xbff0000000000000)), Expected::Done))
    } else if i == 10 {
        Some(Action::Execute(0, "INSERT INTO plain_metrics(name,ts,value) VALUES(?1,?2,?3)", Arguments::Three(Argument::Text("edge"), Argument::Integer(i64::MAX), Argument::Real(0x3ff0000000000000)), Expected::Done))
    } else if i == 11 {
        Some(Action::Execute(0, "INSERT INTO logs(ts,level,message) VALUES(?1,?2,?3)", Arguments::Three(Argument::Integer(i64::MIN), Argument::Text("info"), Argument::Text("min")), Expected::Done))
    } else if i == 12 {
        Some(Action::Execute(0, "INSERT INTO logs(ts,level,message) VALUES(?1,?2,?3)", Arguments::Three(Argument::Integer(i64::MAX), Argument::Text("error"), Argument::Text("max")), Expected::Done))
    } else if i == 13 {
        Some(Action::Execute(0, "INSERT INTO plain_logs(ts,level,message) VALUES(?1,?2,?3)", Arguments::Three(Argument::Integer(i64::MIN), Argument::Text("info"), Argument::Text("min")), Expected::Done))
    } else if i == 14 {
        Some(Action::Execute(0, "INSERT INTO plain_logs(ts,level,message) VALUES(?1,?2,?3)", Arguments::Three(Argument::Integer(i64::MAX), Argument::Text("error"), Argument::Text("max")), Expected::Done))
    } else if i == 15 {
        Some(Action::Execute(0, "INSERT INTO traces(trace_id,span_id,name,service,start_ts) VALUES(?1,?2,?3,?4,?5)", Arguments::Five(Argument::Fill(1, 16), Argument::Fill(1, 8), Argument::Text("min"), Argument::Text("svc"), Argument::Integer(i64::MIN)), Expected::Done))
    } else if i == 16 {
        Some(Action::Execute(0, "INSERT INTO traces(trace_id,span_id,name,service,start_ts) VALUES(?1,?2,?3,?4,?5)", Arguments::Five(Argument::Fill(2, 16), Argument::Fill(2, 8), Argument::Text("max"), Argument::Text("svc"), Argument::Integer(i64::MAX)), Expected::Done))
    } else if i == 17 {
        Some(Action::Execute(0, "INSERT INTO plain_traces(trace_id,span_id,name,service,start_ts) VALUES(?1,?2,?3,?4,?5)", Arguments::Five(Argument::Fill(1, 16), Argument::Fill(1, 8), Argument::Text("min"), Argument::Text("svc"), Argument::Integer(i64::MIN)), Expected::Done))
    } else if i == 18 {
        Some(Action::Execute(0, "INSERT INTO plain_traces(trace_id,span_id,name,service,start_ts) VALUES(?1,?2,?3,?4,?5)", Arguments::Five(Argument::Fill(2, 16), Argument::Fill(2, 8), Argument::Text("max"), Argument::Text("svc"), Argument::Integer(i64::MAX)), Expected::Done))
    } else if i == 19 {
        Some(Action::Agree(0, "SELECT name,ts,value FROM metrics WHERE ts >= ?1 AND ts <= ?2 ORDER BY ts", Arguments::Two(Argument::Integer(i64::MIN), Argument::Integer(i64::MAX)), "SELECT name,ts,value FROM plain_metrics WHERE ts >= ?1 AND ts <= ?2 ORDER BY ts", Arguments::Two(Argument::Integer(i64::MIN), Argument::Integer(i64::MAX))))
    } else if i == 20 {
        Some(Action::Agree(0, "SELECT ts,level,message FROM logs WHERE ts >= ?1 AND ts <= ?2 ORDER BY ts", Arguments::Two(Argument::Integer(i64::MIN), Argument::Integer(i64::MAX)), "SELECT ts,level,message FROM plain_logs WHERE ts >= ?1 AND ts <= ?2 ORDER BY ts", Arguments::Two(Argument::Integer(i64::MIN), Argument::Integer(i64::MAX))))
    } else if i == 21 {
        Some(Action::Agree(0, "SELECT trace_id,span_id,name,service,start_ts FROM traces WHERE start_ts >= ?1 AND start_ts <= ?2 ORDER BY start_ts", Arguments::Two(Argument::Integer(i64::MIN), Argument::Integer(i64::MAX)), "SELECT trace_id,span_id,name,service,start_ts FROM plain_traces WHERE start_ts >= ?1 AND start_ts <= ?2 ORDER BY start_ts", Arguments::Two(Argument::Integer(i64::MIN), Argument::Integer(i64::MAX))))
    } else if i == 22 {
        Some(Action::Execute(0, "INSERT INTO metrics(metrics) VALUES ('flush')", Arguments::Zero, Expected::Done))
    } else if i == 23 {
        Some(Action::Execute(0, "INSERT INTO logs(logs) VALUES ('flush')", Arguments::Zero, Expected::Done))
    } else {
        None
    }
}

fn run_part_1(i: usize) -> (action: Option<Action>)
    ensures
        action == run_part_1_at(i as int),
{
    if i == 0 {
        Some(Action::Open(0, Database::Named("r8_unconstrained.db")))
    } else if i == 1 {
        Some(Action::Agree(0, "SELECT name,ts,value FROM metrics ORDER BY ts", Arguments::Zero, "SELECT name,ts,value FROM plain_metrics ORDER BY ts", Arguments::Zero))
    } else if i == 2 {
        Some(Action::Agree(0, "SELECT ts,level,message FROM logs ORDER BY ts", Arguments::Zero, "SELECT ts,level,message FROM plain_logs ORDER BY ts", Arguments::Zero))
    } else if i == 3 {
        Some(Action::Agree(0, "SELECT trace_id,span_id,name,service,start_ts FROM traces ORDER BY start_ts", Arguments::Zero, "SELECT trace_id,span_id,name,service,start_ts FROM plain_traces ORDER BY start_ts", Arguments::Zero))
    } else if i == 4 {
        Some(Action::Close(0))
    } else if i == 5 {
        Some(Action::Open(0, Database::Named("r8_inclusive.db")))
    } else if i == 6 {
        Some(Action::Batch(0, "CREATE VIRTUAL TABLE metrics USING timeless_metrics; CREATE TABLE plain_metrics(name TEXT,ts INTEGER,value REAL); CREATE VIRTUAL TABLE logs USING timeless_logs; CREATE TABLE plain_logs(ts INTEGER,level TEXT,message TEXT); CREATE VIRTUAL TABLE traces USING timeless_traces; CREATE TABLE plain_traces(trace_id BLOB,span_id BLOB,name TEXT,service TEXT,start_ts INTEGER);", Expected::Done))
    } else if i == 7 {
        Some(Action::Execute(0, "INSERT INTO metrics(name,ts,value) VALUES(?1,?2,?3)", Arguments::Three(Argument::Text("edge"), Argument::Integer(i64::MIN), Argument::Real(0xbff0000000000000)), Expected::Done))
    } else if i == 8 {
        Some(Action::Execute(0, "INSERT INTO metrics(name,ts,value) VALUES(?1,?2,?3)", Arguments::Three(Argument::Text("edge"), Argument::Integer(i64::MAX), Argument::Real(0x3ff0000000000000)), Expected::Done))
    } else if i == 9 {
        Some(Action::Execute(0, "INSERT INTO plain_metrics(name,ts,value) VALUES(?1,?2,?3)", Arguments::Three(Argument::Text("edge"), Argument::Integer(i64::MIN), Argument::Real(0xbff0000000000000)), Expected::Done))
    } else if i == 10 {
        Some(Action::Execute(0, "INSERT INTO plain_metrics(name,ts,value) VALUES(?1,?2,?3)", Arguments::Three(Argument::Text("edge"), Argument::Integer(i64::MAX), Argument::Real(0x3ff0000000000000)), Expected::Done))
    } else if i == 11 {
        Some(Action::Execute(0, "INSERT INTO logs(ts,level,message) VALUES(?1,?2,?3)", Arguments::Three(Argument::Integer(i64::MIN), Argument::Text("info"), Argument::Text("min")), Expected::Done))
    } else if i == 12 {
        Some(Action::Execute(0, "INSERT INTO logs(ts,level,message) VALUES(?1,?2,?3)", Arguments::Three(Argument::Integer(i64::MAX), Argument::Text("error"), Argument::Text("max")), Expected::Done))
    } else if i == 13 {
        Some(Action::Execute(0, "INSERT INTO plain_logs(ts,level,message) VALUES(?1,?2,?3)", Arguments::Three(Argument::Integer(i64::MIN), Argument::Text("info"), Argument::Text("min")), Expected::Done))
    } else if i == 14 {
        Some(Action::Execute(0, "INSERT INTO plain_logs(ts,level,message) VALUES(?1,?2,?3)", Arguments::Three(Argument::Integer(i64::MAX), Argument::Text("error"), Argument::Text("max")), Expected::Done))
    } else if i == 15 {
        Some(Action::Execute(0, "INSERT INTO traces(trace_id,span_id,name,service,start_ts) VALUES(?1,?2,?3,?4,?5)", Arguments::Five(Argument::Fill(1, 16), Argument::Fill(1, 8), Argument::Text("min"), Argument::Text("svc"), Argument::Integer(i64::MIN)), Expected::Done))
    } else if i == 16 {
        Some(Action::Execute(0, "INSERT INTO traces(trace_id,span_id,name,service,start_ts) VALUES(?1,?2,?3,?4,?5)", Arguments::Five(Argument::Fill(2, 16), Argument::Fill(2, 8), Argument::Text("max"), Argument::Text("svc"), Argument::Integer(i64::MAX)), Expected::Done))
    } else if i == 17 {
        Some(Action::Execute(0, "INSERT INTO plain_traces(trace_id,span_id,name,service,start_ts) VALUES(?1,?2,?3,?4,?5)", Arguments::Five(Argument::Fill(1, 16), Argument::Fill(1, 8), Argument::Text("min"), Argument::Text("svc"), Argument::Integer(i64::MIN)), Expected::Done))
    } else if i == 18 {
        Some(Action::Execute(0, "INSERT INTO plain_traces(trace_id,span_id,name,service,start_ts) VALUES(?1,?2,?3,?4,?5)", Arguments::Five(Argument::Fill(2, 16), Argument::Fill(2, 8), Argument::Text("max"), Argument::Text("svc"), Argument::Integer(i64::MAX)), Expected::Done))
    } else if i == 19 {
        Some(Action::Agree(0, "SELECT name,ts,value FROM metrics WHERE ts >= ?1 AND ts <= ?2 ORDER BY ts", Arguments::Two(Argument::Integer(i64::MIN), Argument::Integer(i64::MAX)), "SELECT name,ts,value FROM plain_metrics WHERE ts >= ?1 AND ts <= ?2 ORDER BY ts", Arguments::Two(Argument::Integer(i64::MIN), Argument::Integer(i64::MAX))))
    } else if i == 20 {
        Some(Action::Agree(0, "SELECT ts,level,message FROM logs WHERE ts >= ?1 AND ts <= ?2 ORDER BY ts", Arguments::Two(Argument::Integer(i64::MIN), Argument::Integer(i64::MAX)), "SELECT ts,level,message FROM plain_logs WHERE ts >= ?1 AND ts <= ?2 ORDER BY ts", Arguments::Two(Argument::Integer(i64::MIN), Argument::Integer(i64::MAX))))
    } else if i == 21 {
        Some(Action::Agree(0, "SELECT trace_id,span_id,name,service,start_ts FROM traces WHERE start_ts >= ?1 AND start_ts <= ?2 ORDER BY start_ts", Arguments::Two(Argument::Integer(i64::MIN), Argument::Integer(i64::MAX)), "SELECT trace_id,span_id,name,service,start_ts FROM plain_traces WHERE start_ts >= ?1 AND start_ts <= ?2 ORDER BY start_ts", Arguments::Two(Argument::Integer(i64::MIN), Argument::Integer(i64::MAX))))
    } else if i == 22 {
        Some(Action::Execute(0, "INSERT INTO metrics(metrics) VALUES ('flush')", Arguments::Zero, Expected::Done))
    } else if i == 23 {
        Some(Action::Execute(0, "INSERT INTO logs(logs) VALUES ('flush')", Arguments::Zero, Expected::Done))
    } else {
        None
    }
}

/// A part of the script.
pub open spec fn run_part_2_at(i: int) -> Option<Action> {
    if i == 0 {
        Some(Action::Execute(0, "INSERT INTO traces(traces) VALUES ('flush')", Arguments::Zero, Expected::Done))
    } else if i == 1 {
        Some(Action::Agree(0, "SELECT name,ts,value FROM metrics WHERE ts >= ?1 AND ts <= ?2 ORDER BY ts", Arguments::Two(Argument::Integer(i64::MIN), Argument::Integer(i64::MAX)), "SELECT name,ts,value FROM plain_metrics WHERE ts >= ?1 AND ts <= ?2 ORDER BY ts", Arguments::Two(Argument::Integer(i64::MIN), Argument::Integer(i64::MAX))))
    } else if i == 2 {
        Some(Action::Agree(0, "SELECT ts,level,message FROM logs WHERE ts >= ?1 AND ts <= ?2 ORDER BY ts", Arguments::Two(Argument::Integer(i64::MIN), Argument::Integer(i64::MAX)), "SELECT ts,level,message FROM plain_logs WHERE ts >= ?1 AND ts <= ?2 ORDER BY ts", Arguments::Two(Argument::Integer(i64::MIN), Argument::Integer(i64::MAX))))
    } else if i == 3 {
        Some(Action::Agree(0, "SELECT trace_id,span_id,name,service,start_ts FROM traces WHERE start_ts >= ?1 AND start_ts <= ?2 ORDER BY start_ts", Arguments::Two(Argument::Integer(i64::MIN), Argument::Integer(i64::MAX)), "SELECT trace_id,span_id,name,service,start_ts FROM plain_traces WHERE start_ts >= ?1 AND start_ts <= ?2 ORDER BY start_ts", Arguments::Two(Argument::Integer(i64::MIN), Argument::Integer(i64::MAX))))
    } else if i == 4 {
        Some(Action::Close(0))
    } else if i == 5 {
        Some(Action::Open(0, Database::Named("r8_inclusive.db")))
    } else if i == 6 {
        Some(Action::Agree(0, "SELECT name,ts,value FROM metrics WHERE ts >= ?1 AND ts <= ?2 ORDER BY ts", Arguments::Two(Argument::Integer(i64::MIN), Argument::Integer(i64::MAX)), "SELECT name,ts,value FROM plain_metrics WHERE ts >= ?1 AND ts <= ?2 ORDER BY ts", Arguments::Two(Argument::Integer(i64::MIN), Argument::Integer(i64::MAX))))
    } else if i == 7 {
        Some(Action::Agree(0, "SELECT ts,level,message FROM logs WHERE ts >= ?1 AND ts <= ?2 ORDER BY ts", Arguments::Two(Argument::Integer(i64::MIN), Argument::Integer(i64::MAX)), "SELECT ts,level,message FROM plain_logs WHERE ts >= ?1 AND ts <= ?2 ORDER BY ts", Arguments::Two(Argument::Integer(i64::MIN), Argument::Integer(i64::MAX))))
    } else if i == 8 {
        Some(Action::Agree(0, "SELECT trace_id,span_id,name,service,start_ts FROM traces WHERE start_ts >= ?1 AND start_ts <= ?2 ORDER BY start_ts", Arguments::Two(Argument::Integer(i64::MIN), Argument::Integer(i64::MAX)), "SELECT trace_id,span_id,name,service,start_ts FROM plain_traces WHERE start_ts >= ?1 AND start_ts <= ?2 ORDER BY start_ts", Arguments::Two(Argument::Integer(i64::MIN), Argument::Integer(i64::MAX))))
    } else if i == 9 {
        Some(Action::Close(0))
    } else if i == 10 {
        Some(Action::Open(0, Database::Named("r8_null.db")))
    } else if i == 11 {
        Some(Action::Batch(0, "CREATE VIRTUAL TABLE metrics USING timeless_metrics; CREATE TABLE plain_metrics(name TEXT,ts INTEGER,value REAL); CREATE VIRTUAL TABLE logs USING timeless_logs; CREATE TABLE plain_logs(ts INTEGER,level TEXT,message TEXT); CREATE VIRTUAL TABLE traces USING timeless_traces; CREATE TABLE plain_traces(trace_id BLOB,span_id BLOB,name TEXT,service TEXT,start_ts INTEGER);", Expected::Done))
    } else if i == 12 {
        Some(Action::Execute(0, "INSERT INTO metrics(name,ts,value) VALUES(?1,?2,?3)", Arguments::Three(Argument::Text("edge"), Argument::Integer(i64::MIN), Argument::Real(0xbff0000000000000)), Expected::Done))
    } else if i == 13 {
        Some(Action::Execute(0, "INSERT INTO metrics(name,ts,value) VALUES(?1,?2,?3)", Arguments::Three(Argument::Text("edge"), Argument::Integer(i64::MAX), Argument::Real(0x3ff0000000000000)), Expected::Done))
    } else if i == 14 {
        Some(Action::Execute(0, "INSERT INTO plain_metrics(name,ts,value) VALUES(?1,?2,?3)", Arguments::Three(Argument::Text("edge"), Argument::Integer(i64::MIN), Argument::Real(0xbff0000000000000)), Expected::Done))
    } else if i == 15 {
        Some(Action::Execute(0, "INSERT INTO plain_metrics(name,ts,value) VALUES(?1,?2,?3)", Arguments::Three(Argument::Text("edge"), Argument::Integer(i64::MAX), Argument::Real(0x3ff0000000000000)), Expected::Done))
    } else if i == 16 {
        Some(Action::Execute(0, "INSERT INTO logs(ts,level,message) VALUES(?1,?2,?3)", Arguments::Three(Argument::Integer(i64::MIN), Argument::Text("info"), Argument::Text("min")), Expected::Done))
    } else if i == 17 {
        Some(Action::Execute(0, "INSERT INTO logs(ts,level,message) VALUES(?1,?2,?3)", Arguments::Three(Argument::Integer(i64::MAX), Argument::Text("error"), Argument::Text("max")), Expected::Done))
    } else if i == 18 {
        Some(Action::Execute(0, "INSERT INTO plain_logs(ts,level,message) VALUES(?1,?2,?3)", Arguments::Three(Argument::Integer(i64::MIN), Argument::Text("info"), Argument::Text("min")), Expected::Done))
    } else if i == 19 {
        Some(Action::Execute(0, "INSERT INTO plain_logs(ts,level,message) VALUES(?1,?2,?3)", Arguments::Three(Argument::Integer(i64::MAX), Argument::Text("error"), Argument::Text("max")), Expected::Done))
    } else if i == 20 {
        Some(Action::Execute(0, "INSERT INTO traces(trace_id,span_id,name,service,start_ts) VALUES(?1,?2,?3,?4,?5)", Arguments::Five(Argument::Fill(1, 16), Argument::Fill(1, 8), Argument::Text("min"), Argument::Text("svc"), Argument::Integer(i64::MIN)), Expected::Done))
    } else if i == 21 {
        Some(Action::Execute(0, "INSERT INTO traces(trace_id,span_id,name,service,start_ts) VALUES(?1,?2,?3,?4,?5)", Arguments::Five(Argument::Fill(2, 16), Argument::Fill(2, 8), Argument::Text("max"), Argument::Text("svc"), Argument::Integer(i64::MAX)), Expected::Done))
    } else if i == 22 {
        Some(Action::Execute(0, "INSERT INTO plain_traces(trace_id,span_id,name,service,start_ts) VALUES(?1,?2,?3,?4,?5)", Arguments::Five(Argument::Fill(1, 16), Argument::Fill(1, 8), Argument::Text("min"), Argument::Text("svc"), Argument::Integer(i64::MIN)), Expected::Done))
    } else if i == 23 {
        Some(Action::Execute(0, "INSERT INTO plain_traces(trace_id,span_id,name,service,start_ts) VALUES(?1,?2,?3,?4,?5)", Arguments::Five(Argument::Fill(2, 16), Argument::Fill(2, 8), Argument::Text("max"), Argument::Text("svc"), Argument::Integer(i64::MAX)), Expected::Done))
    } else {
        None
    }
}

fn run_part_2(i: usize) -> (action: Option<Action>)
    ensures
        action == run_part_2_at(i as int),
{
    if i == 0 {
        Some(Action::Execute(0, "INSERT INTO traces(traces) VALUES ('flush')", Arguments::Zero, Expected::Done))
    } else if i == 1 {
        Some(Action::Agree(0, "SELECT name,ts,value FROM metrics WHERE ts >= ?1 AND ts <= ?2 ORDER BY ts", Arguments::Two(Argument::Integer(i64::MIN), Argument::Integer(i64::MAX)), "SELECT name,ts,value FROM plain_metrics WHERE ts >= ?1 AND ts <= ?2 ORDER BY ts", Arguments::Two(Argument::Integer(i64::MIN), Argument::Integer(i64::MAX))))
    } else if i == 2 {
        Some(Action::Agree(0, "SELECT ts,level,message FROM logs WHERE ts >= ?1 AND ts <= ?2 ORDER BY ts", Arguments::Two(Argument::Integer(i64::MIN), Argument::Integer(i64::MAX)), "SELECT ts,level,message FROM plain_logs WHERE ts >= ?1 AND ts <= ?2 ORDER BY ts", Arguments::Two(Argument::Integer(i64::MIN), Argument::Integer(i64::MAX))))
    } else if i == 3 {
        Some(Action::Agree(0, "SELECT trace_id,span_id,name,service,start_ts FROM traces WHERE start_ts >= ?1 AND start_ts <= ?2 ORDER BY start_ts", Arguments::Two(Argument::Integer(i64::MIN), Argument::Integer(i64::MAX)), "SELECT trace_id,span_id,name,service,start_ts FROM plain_traces WHERE start_ts >= ?1 AND start_ts <= ?2 ORDER BY start_ts", Arguments::Two(Argument::Integer(i64::MIN), Argument::Integer(i64::MAX))))
    } else if i == 4 {
        Some(Action::Close(0))
    } else if i == 5 {
        Some(Action::Open(0, Database::Named("r8_inclusive.db")))
    } else if i == 6 {
        Some(Action::Agree(0, "SELECT name,ts,value FROM metrics WHERE ts >= ?1 AND ts <= ?2 ORDER BY ts", Arguments::Two(Argument::Integer(i64::MIN), Argument::Integer(i64::MAX)), "SELECT name,ts,value FROM plain_metrics WHERE ts >= ?1 AND ts <= ?2 ORDER BY ts", Arguments::Two(Argument::Integer(i64::MIN), Argument::Integer(i64::MAX))))
    } else if i == 7 {
        Some(Action::Agree(0, "SELECT ts,level,message FROM logs WHERE ts >= ?1 AND ts <= ?2 ORDER BY ts", Arguments::Two(Argument::Integer(i64::MIN), Argument::Integer(i64::MAX)), "SELECT ts,level,message FROM plain_logs WHERE ts >= ?1 AND ts <= ?2 ORDER BY ts", Arguments::Two(Argument::Integer(i64::MIN), Argument::Integer(i64::MAX))))
    } else if i == 8 {
        Some(Action::Agree(0, "SELECT trace_id,span_id,name,service,start_ts FROM traces WHERE start_ts >= ?1 AND start_ts <= ?2 ORDER BY start_ts", Arguments::Two(Argument::Integer(i64::MIN), Argument::Integer(i64::MAX)), "SELECT trace_id,span_id,name,service,start_ts FROM plain_traces WHERE start_ts >= ?1 AND start_ts <= ?2 ORDER BY start_ts", Arguments::Two(Argument::Integer(i64::MIN), Argument::Integer(i64::MAX))))
    } else if i == 9 {
        Some(Action::Close(0))
    } else if i == 10 {
        Some(Action::Open(0, Database::Named("r8_null.db")))
    } else if i == 11 {
        Some(Action::Batch(0, "CREATE VIRTUAL TABLE metrics USING timeless_metrics; CREATE TABLE plain_metrics(name TEXT,ts INTEGER,value REAL); CREATE VIRTUAL TABLE logs USING timeless_logs; CREATE TABLE plain_logs(ts INTEGER,level TEXT,message TEXT); CREATE VIRTUAL TABLE traces USING timeless_traces; CREATE TABLE plain_traces(trace_id BLOB,span_id BLOB,name TEXT,service TEXT,start_ts INTEGER);", Expected::Done))
    } else if i == 12 {
        Some(Action::Execute(0, "INSERT INTO metrics(name,ts,value) VALUES(?1,?2,?3)", Arguments::Three(Argument::Text("edge"), Argument::Integer(i64::MIN), Argument::Real(0xbff0000000000000)), Expected::Done))
    } else if i == 13 {
        Some(Action::Execute(0, "INSERT INTO metrics(name,ts,value) VALUES(?1,?2,?3)", Arguments::Three(Argument::Text("edge"), Argument::Integer(i64::MAX), Argument::Real(0x3ff0000000000000)), Expected::Done))
    } else if i == 14 {
        Some(Action::Execute(0, "INSERT INTO plain_metrics(name,ts,value) VALUES(?1,?2,?3)", Arguments::Three(Argument::Text("edge"), Argument::Integer(i64::MIN), Argument::Real(0xbff0000000000000)), Expected::Done))
    } else if i == 15 {
        Some(Action::Execute(0, "INSERT INTO plain_metrics(name,ts,value) VALUES(?1,?2,?3)", Arguments::Three(Argument::Text("edge"), Argument::Integer(i64::MAX), Argument::Real(0x3ff0000000000000)), Expected::Done))
    } else if i == 16 {
        Some(Action::Execute(0, "INSERT INTO logs(ts,level,message) VALUES(?1,?2,?3)", Arguments::Three(Argument::Integer(i64::MIN), Argument::Text("info"), Argument::Text("min")), Expected::Done))
    } else if i == 17 {
        Some(Action::Execute(0, "INSERT INTO logs(ts,level,message) VALUES(?1,?2,?3)", Arguments::Three(Argument::Integer(i64::MAX), Argument::Text("error"), Argument::Text("max")), Expected::Done))
    } else if i == 18 {
        Some(Action::Execute(0, "INSERT INTO plain_logs(ts,level,message) VALUES(?1,?2,?3)", Arguments::Three(Argument::Integer(i64::MIN), Argument::Text("info"), Argument::Text("min")), Expected::Done))
    } else if i == 19 {
        Some(Action::Execute(0, "INSERT INTO plain_logs(ts,level,message) VALUES(?1,?2,?3)", Arguments::Three(Argument::Integer(i64::MAX), Argument::Text("error"), Argument::Text("max")), Expected::Done))
    } else if i == 20 {
        Some(Action::Execute(0, "INSERT INTO traces(trace_id,span_id,name,service,start_ts) VALUES(?1,?2,?3,?4,?5)", Arguments::Five(Argument::Fill(1, 16), Argument::Fill(1, 8), Argument::Text("min"), Argument::Text("svc"), Argument::Integer(i64::MIN)), Expected::Done))
    } else if i == 21 {
        Some(Action::Execute(0, "INSERT INTO traces(trace_id,span_id,name,service,start_ts) VALUES(?1,?2,?3,?4,?5)", Arguments::Five(Argument::Fill(2, 16), Argument::Fill(2, 8), Argument::Text("max"), Argument::Text("svc"), Argument::Integer(i64::MAX)), Expected::Done))
    } else if i == 22 {
        Some(Action::Execute(0, "INSERT INTO plain_traces(trace_id,span_id,name,service,start_ts) VALUES(?1,?2,?3,?4,?5)", Arguments::Five(Argument::Fill(1, 16), Argument::Fill(1, 8), Argument::Text("min"), Argument::Text("svc"), Argument::Integer(i64::MIN)), Expected::Done))
    } else if i == 23 {
        Some(Action::Execute(0, "INSERT INTO plain_traces(trace_id,span_id,name,service,start_ts) VALUES(?1,?2,?3,?4,?5)", Arguments::Five(Argument::Fill(2, 16), Argument::Fill(2, 8), Argument::Text("max"), Argument::Text("svc"), Argument::Integer(i64::MAX)), Expected::Done))
    } else {
        None
    }
}

/// A part of the script.
pub open spec fn run_part_3_at(i: int) -> Option<Action> {
    if i == 0 {
        Some(Action::Agree(0, "SELECT name,ts,value FROM metrics WHERE ts >= ?1 ORDER BY ts", Arguments::One(Argument::Null), "SELECT name,ts,value FROM plain_metrics WHERE ts >= ?1 ORDER BY ts", Arguments::One(Argument::Null)))
    } else if i == 1 {
        Some(Action::Agree(0, "SELECT name,ts,value FROM metrics WHERE ts <= ?1 ORDER BY ts", Arguments::One(Argument::Null), "SELECT name,ts,value FROM plain_metrics WHERE ts <= ?1 ORDER BY ts", Arguments::One(Argument::Null)))
    } else if i == 2 {
        Some(Action::Agree(0, "SELECT name,ts,value FROM metrics WHERE name = ?1 ORDER BY ts", Arguments::One(Argument::Null), "SELECT name,ts,value FROM plain_metrics WHERE name = ?1 ORDER BY ts", Arguments::One(Argument::Null)))
    } else if i == 3 {
        Some(Action::Agree(0, "SELECT ts,level,message FROM logs WHERE ts >= ?1 ORDER BY ts", Arguments::One(Argument::Null), "SELECT ts,level,message FROM plain_logs WHERE ts >= ?1 ORDER BY ts", Arguments::One(Argument::Null)))
    } else if i == 4 {
        Some(Action::Agree(0, "SELECT ts,level,message FROM logs WHERE ts <= ?1 ORDER BY ts", Arguments::One(Argument::Null), "SELECT ts,level,message FROM plain_logs WHERE ts <= ?1 ORDER BY ts", Arguments::One(Argument::Null)))
    } else if i == 5 {
        Some(Action::Agree(0, "SELECT ts,level,message FROM logs WHERE level = ?1 ORDER BY ts", Arguments::One(Argument::Null), "SELECT ts,level,message FROM plain_logs WHERE level = ?1 ORDER BY ts", Arguments::One(Argument::Null)))
    } else if i == 6 {
        Some(Action::Agree(0, "SELECT trace_id,span_id,name,service,start_ts FROM traces WHERE start_ts >= ?1 ORDER BY start_ts", Arguments::One(Argument::Null), "SELECT trace_id,span_id,name,service,start_ts FROM plain_traces WHERE start_ts >= ?1 ORDER BY start_ts", Arguments::One(Argument::Null)))
    } else if i == 7 {
        Some(Action::Agree(0, "SELECT trace_id,span_id,name,service,start_ts FROM traces WHERE start_ts <= ?1 ORDER BY start_ts", Arguments::One(Argument::Null), "SELECT trace_id,span_id,name,service,start_ts FROM plain_traces WHERE start_ts <= ?1 ORDER BY start_ts", Arguments::One(Argument::Null)))
    } else if i == 8 {
        Some(Action::Agree(0, "SELECT trace_id,span_id,name,service,start_ts FROM traces WHERE name = ?1 ORDER BY start_ts", Arguments::One(Argument::Null), "SELECT trace_id,span_id,name,service,start_ts FROM plain_traces WHERE name = ?1 ORDER BY start_ts", Arguments::One(Argument::Null)))
    } else if i == 9 {
        Some(Action::Execute(0, "INSERT INTO metrics(metrics) VALUES ('flush')", Arguments::Zero, Expected::Done))
    } else if i == 10 {
        Some(Action::Execute(0, "INSERT INTO logs(logs) VALUES ('flush')", Arguments::Zero, Expected::Done))
    } else if i == 11 {
        Some(Action::Execute(0, "INSERT INTO traces(traces) VALUES ('flush')", Arguments::Zero, Expected::Done))
    } else if i == 12 {
        Some(Action::Agree(0, "SELECT name,ts,value FROM metrics WHERE ts >= ?1 ORDER BY ts", Arguments::One(Argument::Null), "SELECT name,ts,value FROM plain_metrics WHERE ts >= ?1 ORDER BY ts", Arguments::One(Argument::Null)))
    } else if i == 13 {
        Some(Action::Agree(0, "SELECT name,ts,value FROM metrics WHERE ts <= ?1 ORDER BY ts", Arguments::One(Argument::Null), "SELECT name,ts,value FROM plain_metrics WHERE ts <= ?1 ORDER BY ts", Arguments::One(Argument::Null)))
    } else if i == 14 {
        Some(Action::Agree(0, "SELECT name,ts,value FROM metrics WHERE name = ?1 ORDER BY ts", Arguments::One(Argument::Null), "SELECT name,ts,value FROM plain_metrics WHERE name = ?1 ORDER BY ts", Arguments::One(Argument::Null)))
    } else if i == 15 {
        Some(Action::Agree(0, "SELECT ts,level,message FROM logs WHERE ts >= ?1 ORDER BY ts", Arguments::One(Argument::Null), "SELECT ts,level,message FROM plain_logs WHERE ts >= ?1 ORDER BY ts", Arguments::One(Argument::Null)))
    } else if i == 16 {
        Some(Action::Agree(0, "SELECT ts,level,message FROM logs WHERE ts <= ?1 ORDER BY ts", Arguments::One(Argument::Null), "SELECT ts,level,message FROM plain_logs WHERE ts <= ?1 ORDER BY ts", Arguments::One(Argument::Null)))
    } else if i == 17 {
        Some(Action::Agree(0, "SELECT ts,level,message FROM logs WHERE level = ?1 ORDER BY ts", Arguments::One(Argument::Null), "SELECT ts,level,message FROM plain_logs WHERE level = ?1 ORDER BY ts", Arguments::One(Argument::Null)))
    } else if i == 18 {
        Some(Action::Agree(0, "SELECT trace_id,span_id,name,service,start_ts FROM traces WHERE start_ts >= ?1 ORDER BY start_ts", Arguments::One(Argument::Null), "SELECT trace_id,span_id,name,service,start_ts FROM plain_traces WHERE start_ts >= ?1 ORDER BY start_ts", Arguments::One(Argument::Null)))
    } else if i == 19 {
        Some(Action::Agree(0, "SELECT trace_id,span_id,name,service,start_ts FROM traces WHERE start_ts <= ?1 ORDER BY start_ts", Arguments::One(Argument::Null), "SELECT trace_id,span_id,name,service,start_ts FROM plain_traces WHERE start_ts <= ?1 ORDER BY start_ts", Arguments::One(Argument::Null)))
    } else if i == 20 {
        Some(Action::Agree(0, "SELECT trace_id,span_id,name,service,start_ts FROM traces WHERE name = ?1 ORDER BY start_ts", Arguments::One(Argument::Null), "SELECT trace_id,span_id,name,service,start_ts FROM plain_traces WHERE name = ?1 ORDER BY start_ts", Arguments::One(Argument::Null)))
    } else if i == 21 {
        Some(Action::Close(0))
    } else if i == 22 {
        Some(Action::Open(0, Database::Named("r8_null.db")))
    } else if i == 23 {
        Some(Action::Agree(0, "SELECT name,ts,value FROM metrics WHERE ts >= ?1 ORDER BY ts", Arguments::One(Argument::Null), "SELECT name,ts,value FROM plain_metrics WHERE ts >= ?1 ORDER BY ts", Arguments::One(Argument::Null)))
    } else {
        None
    }
}

fn run_part_3(i: usize) -> (action: Option<Action>)
    ensures
        action == run_part_3_at(i as int),
{
    if i == 0 {
        Some(Action::Agree(0, "SELECT name,ts,value FROM metrics WHERE ts >= ?1 ORDER BY ts", Arguments::One(Argument::Null), "SELECT name,ts,value FROM plain_metrics WHERE ts >= ?1 ORDER BY ts", Arguments::One(Argument::Null)))
    } else if i == 1 {
        Some(Action::Agree(0, "SELECT name,ts,value FROM metrics WHERE ts <= ?1 ORDER BY ts", Arguments::One(Argument::Null), "SELECT name,ts,value FROM plain_metrics WHERE ts <= ?1 ORDER BY ts", Arguments::One(Argument::Null)))
    } else if i == 2 {
        Some(Action::Agree(0, "SELECT name,ts,value FROM metrics WHERE name = ?1 ORDER BY ts", Arguments::One(Argument::Null), "SELECT name,ts,value FROM plain_metrics WHERE name = ?1 ORDER BY ts", Arguments::One(Argument::Null)))
    } else if i == 3 {
        Some(Action::Agree(0, "SELECT ts,level,message FROM logs WHERE ts >= ?1 ORDER BY ts", Arguments::One(Argument::Null), "SELECT ts,level,message FROM plain_logs WHERE ts >= ?1 ORDER BY ts", Arguments::One(Argument::Null)))
    } else if i == 4 {
        Some(Action::Agree(0, "SELECT ts,level,message FROM logs WHERE ts <= ?1 ORDER BY ts", Arguments::One(Argument::Null), "SELECT ts,level,message FROM plain_logs WHERE ts <= ?1 ORDER BY ts", Arguments::One(Argument::Null)))
    } else if i == 5 {
        Some(Action::Agree(0, "SELECT ts,level,message FROM logs WHERE level = ?1 ORDER BY ts", Arguments::One(Argument::Null), "SELECT ts,level,message FROM plain_logs WHERE level = ?1 ORDER BY ts", Arguments::One(Argument::Null)))
    } else if i == 6 {
        Some(Action::Agree(0, "SELECT trace_id,span_id,name,service,start_ts FROM traces WHERE start_ts >= ?1 ORDER BY start_ts", Arguments::One(Argument::Null), "SELECT trace_id,span_id,name,service,start_ts FROM plain_traces WHERE start_ts >= ?1 ORDER BY start_ts", Arguments::One(Argument::Null)))
    } else if i == 7 {
        Some(Action::Agree(0, "SELECT trace_id,span_id,name,service,start_ts FROM traces WHERE start_ts <= ?1 ORDER BY start_ts", Arguments::One(Argument::Null), "SELECT trace_id,span_id,name,service,start_ts FROM plain_traces WHERE start_ts <= ?1 ORDER BY start_ts", Arguments::One(Argument::Null)))
    } else if i == 8 {
        Some(Action::Agree(0, "SELECT trace_id,span_id,name,service,start_ts FROM traces WHERE name = ?1 ORDER BY start_ts", Arguments::One(Argument::Null), "SELECT trace_id,span_id,name,service,start_ts FROM plain_traces WHERE name = ?1 ORDER BY start_ts", Arguments::One(Argument::Null)))
    } else if i == 9 {
        Some(Action::Execute(0, "INSERT INTO metrics(metrics) VALUES ('flush')", Arguments::Zero, Expected::Done))
    } else if i == 10 {
        Some(Action::Execute(0, "INSERT INTO logs(logs) VALUES ('flush')", Arguments::Zero, Expected::Done))
    } else if i == 11 {
        Some(Action::Execute(0, "INSERT INTO traces(traces) VALUES ('flush')", Arguments::Zero, Expected::Done))
    } else if i == 12 {
        Some(Action::Agree(0, "SELECT name,ts,value FROM metrics WHERE ts >= ?1 ORDER BY ts", Arguments::One(Argument::Null), "SELECT name,ts,value FROM plain_metrics WHERE ts >= ?1 ORDER BY ts", Arguments::One(Argument::Null)))
    } else if i == 13 {
        Some(Action::Agree(0, "SELECT name,ts,value FROM metrics WHERE ts <= ?1 ORDER BY ts", Arguments::One(Argument::Null), "SELECT name,ts,value FROM plain_metrics WHERE ts <= ?1 ORDER BY ts", Arguments::One(Argument::Null)))
    } else if i == 14 {
        Some(Action::Agree(0, "SELECT name,ts,value FROM metrics WHERE name = ?1 ORDER BY ts", Arguments::One(Argument::Null), "SELECT name,ts,value FROM plain_metrics WHERE name = ?1 ORDER BY ts", Arguments::One(Argument::Null)))
    } else if i == 15 {
        Some(Action::Agree(0, "SELECT ts,level,message FROM logs WHERE ts >= ?1 ORDER BY ts", Arguments::One(Argument::Null), "SELECT ts,level,message FROM plain_logs WHERE ts >= ?1 ORDER BY ts", Arguments::One(Argument::Null)))
    } else if i == 16 {
        Some(Action::Agree(0, "SELECT ts,level,message FROM logs WHERE ts <= ?1 ORDER BY ts", Arguments::One(Argument::Null), "SELECT ts,level,message FROM plain_logs WHERE ts <= ?1 ORDER BY ts", Arguments::One(Argument::Null)))
    } else if i == 17 {
        Some(Action::Agree(0, "SELECT ts,level,message FROM logs WHERE level = ?1 ORDER BY ts", Arguments::One(Argument::Null), "SELECT ts,level,message FROM plain_logs WHERE level = ?1 ORDER BY ts", Arguments::One(Argument::Null)))
    } else if i == 18 {
        Some(Action::Agree(0, "SELECT trace_id,span_id,name,service,start_ts FROM traces WHERE start_ts >= ?1 ORDER BY start_ts", Arguments::One(Argument::Null), "SELECT trace_id,span_id,name,service,start_ts FROM plain_traces WHERE start_ts >= ?1 ORDER BY start_ts", Arguments::One(Argument::Null)))
    } else if i == 19 {
        Some(Action::Agree(0, "SELECT trace_id,span_id,name,service,start_ts FROM traces WHERE start_ts <= ?1 ORDER BY start_ts", Arguments::One(Argument::Null), "SELECT trace_id,span_id,name,service,start_ts FROM plain_traces WHERE start_ts <= ?1 ORDER BY start_ts", Arguments::One(Argument::Null)))
    } else if i == 20 {
        Some(Action::Agree(0, "SELECT trace_id,span_id,name,service,start_ts FROM traces WHERE name = ?1 ORDER BY start_ts", Arguments::One(Argument::Null), "SELECT trace_id,span_id,name,service,start_ts FROM plain_traces WHERE name = ?1 ORDER BY start_ts", Arguments::One(Argument::Null)))
    } else if i == 21 {
        Some(Action::Close(0))
    } else if i == 22 {
        Some(Action::Open(0, Database::Named("r8_null.db")))
    } else if i == 23 {
        Some(Action::Agree(0, "SELECT name,ts,value FROM metrics WHERE ts >= ?1 ORDER BY ts", Arguments::One(Argument::Null), "SELECT name,ts,value FROM plain_metrics WHERE ts >= ?1 ORDER BY ts", Arguments::One(Argument::Null)))
    } else {
        None
    }
}

/// A part of the script.
pub open spec fn run_part_4_at(i: int) -> Option<Action> {
    if i == 0 {
        Some(Action::Agree(0, "SELECT name,ts,value FROM metrics WHERE ts <= ?1 ORDER BY ts", Arguments::One(Argument::Null), "SELECT name,ts,value FROM plain_metrics WHERE ts <= ?1 ORDER BY ts", Arguments::One(Argument::Null)))
    } else if i == 1 {
        Some(Action::Agree(0, "SELECT name,ts,value FROM metrics WHERE name = ?1 ORDER BY ts", Arguments::One(Argument::Null), "SELECT name,ts,value FROM plain_metrics WHERE name = ?1 ORDER BY ts", Arguments::One(Argument::Null)))
    } else if i == 2 {
        Some(Action::Agree(0, "SELECT ts,level,message FROM logs WHERE ts >= ?1 ORDER BY ts", Arguments::One(Argument::Null), "SELECT ts,level,message FROM plain_logs WHERE ts >= ?1 ORDER BY ts", Arguments::One(Argument::Null)))
    } else if i == 3 {
        Some(Action::Agree(0, "SELECT ts,level,message FROM logs WHERE ts <= ?1 ORDER BY ts", Arguments::One(Argument::Null), "SELECT ts,level,message FROM plain_logs WHERE ts <= ?1 ORDER BY ts", Arguments::One(Argument::Null)))
    } else if i == 4 {
        Some(Action::Agree(0, "SELECT ts,level,message FROM logs WHERE level = ?1 ORDER BY ts", Arguments::One(Argument::Null), "SELECT ts,level,message FROM plain_logs WHERE level = ?1 ORDER BY ts", Arguments::One(Argument::Null)))
    } else if i == 5 {
        Some(Action::Agree(0, "SELECT trace_id,span_id,name,service,start_ts FROM traces WHERE start_ts >= ?1 ORDER BY start_ts", Arguments::One(Argument::Null), "SELECT trace_id,span_id,name,service,start_ts FROM plain_traces WHERE start_ts >= ?1 ORDER BY start_ts", Arguments::One(Argument::Null)))
    } else if i == 6 {
        Some(Action::Agree(0, "SELECT trace_id,span_id,name,service,start_ts FROM traces WHERE start_ts <= ?1 ORDER BY start_ts", Arguments::One(Argument::Null), "SELECT trace_id,span_id,name,service,start_ts FROM plain_traces WHERE start_ts <= ?1 ORDER BY start_ts", Arguments::One(Argument::Null)))
    } else if i == 7 {
        Some(Action::Agree(0, "SELECT trace_id,span_id,name,service,start_ts FROM traces WHERE name = ?1 ORDER BY start_ts", Arguments::One(Argument::Null), "SELECT trace_id,span_id,name,service,start_ts FROM plain_traces WHERE name = ?1 ORDER BY start_ts", Arguments::One(Argument::Null)))
    } else if i == 8 {
        Some(Action::Close(0))
    } else if i == 9 {
        Some(Action::Open(0, Database::Named("r8_strict.db")))
    } else if i == 10 {
        Some(Action::Batch(0, "CREATE VIRTUAL TABLE metrics USING timeless_metrics; CREATE TABLE plain_metrics(name TEXT,ts INTEGER,value REAL); CREATE VIRTUAL TABLE logs USING timeless_logs; CREATE TABLE plain_logs(ts INTEGER,level TEXT,message TEXT); CREATE VIRTUAL TABLE traces USING timeless_traces; CREATE TABLE plain_traces(trace_id BLOB,span_id BLOB,name TEXT,service TEXT,start_ts INTEGER);", Expected::Done))
    } else if i == 11 {
        Some(Action::Execute(0, "INSERT INTO metrics(name,ts,value) VALUES(?1,?2,?3)", Arguments::Three(Argument::Text("edge"), Argument::Integer(i64::MIN), Argument::Real(0xbff0000000000000)), Expected::Done))
    } else if i == 12 {
        Some(Action::Execute(0, "INSERT INTO metrics(name,ts,value) VALUES(?1,?2,?3)", Arguments::Three(Argument::Text("edge"), Argument::Integer(i64::MAX), Argument::Real(0x3ff0000000000000)), Expected::Done))
    } else if i == 13 {
        Some(Action::Execute(0, "INSERT INTO plain_metrics(name,ts,value) VALUES(?1,?2,?3)", Arguments::Three(Argument::Text("edge"), Argument::Integer(i64::MIN), Argument::Real(0xbff0000000000000)), Expected::Done))
    } else if i == 14 {
        Some(Action::Execute(0, "INSERT INTO plain_metrics(name,ts,value) VALUES(?1,?2,?3)", Arguments::Three(Argument::Text("edge"), Argument::Integer(i64::MAX), Argument::Real(0x3ff0000000000000)), Expected::Done))
    } else if i == 15 {
        Some(Action::Execute(0, "INSERT INTO logs(ts,level,message) VALUES(?1,?2,?3)", Arguments::Three(Argument::Integer(i64::MIN), Argument::Text("info"), Argument::Text("min")), Expected::Done))
    } else if i == 16 {
        Some(Action::Execute(0, "INSERT INTO logs(ts,level,message) VALUES(?1,?2,?3)", Arguments::Three(Argument::Integer(i64::MAX), Argument::Text("error"), Argument::Text("max")), Expected::Done))
    } else if i == 17 {
        Some(Action::Execute(0, "INSERT INTO plain_logs(ts,level,message) VALUES(?1,?2,?3)", Arguments::Three(Argument::Integer(i64::MIN), Argument::Text("info"), Argument::Text("min")), Expected::Done))
    } else if i == 18 {
        Some(Action::Execute(0, "INSERT INTO plain_logs(ts,level,message) VALUES(?1,?2,?3)", Arguments::Three(Argument::Integer(i64::MAX), Argument::Text("error"), Argument::Text("max")), Expected::Done))
    } else if i == 19 {
        Some(Action::Execute(0, "INSERT INTO traces(trace_id,span_id,name,service,start_ts) VALUES(?1,?2,?3,?4,?5)", Arguments::Five(Argument::Fill(1, 16), Argument::Fill(1, 8), Argument::Text("min"), Argument::Text("svc"), Argument::Integer(i64::MIN)), Expected::Done))
    } else if i == 20 {
        Some(Action::Execute(0, "INSERT INTO traces(trace_id,span_id,name,service,start_ts) VALUES(?1,?2,?3,?4,?5)", Arguments::Five(Argument::Fill(2, 16), Argument::Fill(2, 8), Argument::Text("max"), Argument::Text("svc"), Argument::Integer(i64::MAX)), Expected::Done))
    } else if i == 21 {
        Some(Action::Execute(0, "INSERT INTO plain_traces(trace_id,span_id,name,service,start_ts) VALUES(?1,?2,?3,?4,?5)", Arguments::Five(Argument::Fill(1, 16), Argument::Fill(1, 8), Argument::Text("min"), Argument::Text("svc"), Argument::Integer(i64::MIN)), Expected::Done))
    } else if i == 22 {
        Some(Action::Execute(0, "INSERT INTO plain_traces(trace_id,span_id,name,service,start_ts) VALUES(?1,?2,?3,?4,?5)", Arguments::Five(Argument::Fill(2, 16), Argument::Fill(2, 8), Argument::Text("max"), Argument::Text("svc"), Argument::Integer(i64::MAX)), Expected::Done))
    } else if i == 23 {
        Some(Action::Agree(0, "SELECT name,ts,value FROM metrics WHERE ts > ?1 ORDER BY ts", Arguments::One(Argument::Integer(i64::MIN)), "SELECT name,ts,value FROM plain_metrics WHERE ts > ?1 ORDER BY ts", Arguments::One(Argument::Integer(i64::MIN))))
    } else {
        None
    }
}

fn run_part_4(i: usize) -> (action: Option<Action>)
    ensures
        action == run_part_4_at(i as int),
{
    if i == 0 {
        Some(Action::Agree(0, "SELECT name,ts,value FROM metrics WHERE ts <= ?1 ORDER BY ts", Arguments::One(Argument::Null), "SELECT name,ts,value FROM plain_metrics WHERE ts <= ?1 ORDER BY ts", Arguments::One(Argument::Null)))
    } else if i == 1 {
        Some(Action::Agree(0, "SELECT name,ts,value FROM metrics WHERE name = ?1 ORDER BY ts", Arguments::One(Argument::Null), "SELECT name,ts,value FROM plain_metrics WHERE name = ?1 ORDER BY ts", Arguments::One(Argument::Null)))
    } else if i == 2 {
        Some(Action::Agree(0, "SELECT ts,level,message FROM logs WHERE ts >= ?1 ORDER BY ts", Arguments::One(Argument::Null), "SELECT ts,level,message FROM plain_logs WHERE ts >= ?1 ORDER BY ts", Arguments::One(Argument::Null)))
    } else if i == 3 {
        Some(Action::Agree(0, "SELECT ts,level,message FROM logs WHERE ts <= ?1 ORDER BY ts", Arguments::One(Argument::Null), "SELECT ts,level,message FROM plain_logs WHERE ts <= ?1 ORDER BY ts", Arguments::One(Argument::Null)))
    } else if i == 4 {
        Some(Action::Agree(0, "SELECT ts,level,message FROM logs WHERE level = ?1 ORDER BY ts", Arguments::One(Argument::Null), "SELECT ts,level,message FROM plain_logs WHERE level = ?1 ORDER BY ts", Arguments::One(Argument::Null)))
    } else if i == 5 {
        Some(Action::Agree(0, "SELECT trace_id,span_id,name,service,start_ts FROM traces WHERE start_ts >= ?1 ORDER BY start_ts", Arguments::One(Argument::Null), "SELECT trace_id,span_id,name,service,start_ts FROM plain_traces WHERE start_ts >= ?1 ORDER BY start_ts", Arguments::One(Argument::Null)))
    } else if i == 6 {
        Some(Action::Agree(0, "SELECT trace_id,span_id,name,service,start_ts FROM traces WHERE start_ts <= ?1 ORDER BY start_ts", Arguments::One(Argument::Null), "SELECT trace_id,span_id,name,service,start_ts FROM plain_traces WHERE start_ts <= ?1 ORDER BY start_ts", Arguments::One(Argument::Null)))
    } else if i == 7 {
        Some(Action::Agree(0, "SELECT trace_id,span_id,name,service,start_ts FROM traces WHERE name = ?1 ORDER BY start_ts", Arguments::One(Argument::Null), "SELECT trace_id,span_id,name,service,start_ts FROM plain_traces WHERE name = ?1 ORDER BY start_ts", Arguments::One(Argument::Null)))
    } else if i == 8 {
        Some(Action::Close(0))
    } else if i == 9 {
        Some(Action::Open(0, Database::Named("r8_strict.db")))
    } else if i == 10 {
        Some(Action::Batch(0, "CREATE VIRTUAL TABLE metrics USING timeless_metrics; CREATE TABLE plain_metrics(name TEXT,ts INTEGER,value REAL); CREATE VIRTUAL TABLE logs USING timeless_logs; CREATE TABLE plain_logs(ts INTEGER,level TEXT,message TEXT); CREATE VIRTUAL TABLE traces USING timeless_traces; CREATE TABLE plain_traces(trace_id BLOB,span_id BLOB,name TEXT,service TEXT,start_ts INTEGER);", Expected::Done))
    } else if i == 11 {
        Some(Action::Execute(0, "INSERT INTO metrics(name,ts,value) VALUES(?1,?2,?3)", Arguments::Three(Argument::Text("edge"), Argument::Integer(i64::MIN), Argument::Real(0xbff0000000000000)), Expected::Done))
    } else if i == 12 {
        Some(Action::Execute(0, "INSERT INTO metrics(name,ts,value) VALUES(?1,?2,?3)", Arguments::Three(Argument::Text("edge"), Argument::Integer(i64::MAX), Argument::Real(0x3ff0000000000000)), Expected::Done))
    } else if i == 13 {
        Some(Action::Execute(0, "INSERT INTO plain_metrics(name,ts,value) VALUES(?1,?2,?3)", Arguments::Three(Argument::Text("edge"), Argument::Integer(i64::MIN), Argument::Real(0xbff0000000000000)), Expected::Done))
    } else if i == 14 {
        Some(Action::Execute(0, "INSERT INTO plain_metrics(name,ts,value) VALUES(?1,?2,?3)", Arguments::Three(Argument::Text("edge"), Argument::Integer(i64::MAX), Argument::Real(0x3ff0000000000000)), Expected::Done))
    } else if i == 15 {
        Some(Action::Execute(0, "INSERT INTO logs(ts,level,message) VALUES(?1,?2,?3)", Arguments::Three(Argument::Integer(i64::MIN), Argument::Text("info"), Argument::Text("min")), Expected::Done))
    } else if i == 16 {
        Some(Action::Execute(0, "INSERT INTO logs(ts,level,message) VALUES(?1,?2,?3)", Arguments::Three(Argument::Integer(i64::MAX), Argument::Text("error"), Argument::Text("max")), Expected::Done))
    } else if i == 17 {
        Some(Action::Execute(0, "INSERT INTO plain_logs(ts,level,message) VALUES(?1,?2,?3)", Arguments::Three(Argument::Integer(i64::MIN), Argument::Text("info"), Argument::Text("min")), Expected::Done))
    } else if i == 18 {
        Some(Action::Execute(0, "INSERT INTO plain_logs(ts,level,message) VALUES(?1,?2,?3)", Arguments::Three(Argument::Integer(i64::MAX), Argument::Text("error"), Argument::Text("max")), Expected::Done))
    } else if i == 19 {
        Some(Action::Execute(0, "INSERT INTO traces(trace_id,span_id,name,service,start_ts) VALUES(?1,?2,?3,?4,?5)", Arguments::Five(Argument::Fill(1, 16), Argument::Fill(1, 8), Argument::Text("min"), Argument::Text("svc"), Argument::Integer(i64::MIN)), Expected::Done))
    } else if i == 20 {
        Some(Action::Execute(0, "INSERT INTO traces(trace_id,span_id,name,service,start_ts) VALUES(?1,?2,?3,?4,?5)", Arguments::Five(Argument::Fill(2, 16), Argument::Fill(2, 8), Argument::Text("max"), Argument::Text("svc"), Argument::Integer(i64::MAX)), Expected::Done))
    } else if i == 21 {
        Some(Action::Execute(0, "INSERT INTO plain_traces(trace_id,span_id,name,service,start_ts) VALUES(?1,?2,?3,?4,?5)", Arguments::Five(Argument::Fill(1, 16), Argument::Fill(1, 8), Argument::Text("min"), Argument::Text("svc"), Argument::Integer(i64::MIN)), Expected::Done))
    } else if i == 22 {
        Some(Action::Execute(0, "INSERT INTO plain_traces(trace_id,span_id,name,service,start_ts) VALUES(?1,?2,?3,?4,?5)", Arguments::Five(Argument::Fill(2, 16), Argument::Fill(2, 8), Argument::Text("max"), Argument::Text("svc"), Argument::Integer(i64::MAX)), Expected::Done))
    } else if i == 23 {
        Some(Action::Agree(0, "SELECT name,ts,value FROM metrics WHERE ts > ?1 ORDER BY ts", Arguments::One(Argument::Integer(i64::MIN)), "SELECT name,ts,value FROM plain_metrics WHERE ts > ?1 ORDER BY ts", Arguments::One(Argument::Integer(i64::MIN))))
    } else {
        None
    }
}

/// A part of the script.
pub open spec fn run_part_5_at(i: int) -> Option<Action> {
    if i == 0 {
        Some(Action::Agree(0, "SELECT name,ts,value FROM metrics WHERE ts < ?1 ORDER BY ts", Arguments::One(Argument::Integer(i64::MAX)), "SELECT name,ts,value FROM plain_metrics WHERE ts < ?1 ORDER BY ts", Arguments::One(Argument::Integer(i64::MAX))))
    } else if i == 1 {
        Some(Action::Agree(0, "SELECT name,ts,value FROM metrics WHERE ts > ?1 ORDER BY ts", Arguments::One(Argument::Integer(i64::MAX)), "SELECT name,ts,value FROM plain_metrics WHERE ts > ?1 ORDER BY ts", Arguments::One(Argument::Integer(i64::MAX))))
    } else if i == 2 {
        Some(Action::Agree(0, "SELECT name,ts,value FROM metrics WHERE ts < ?1 ORDER BY ts", Arguments::One(Argument::Integer(i64::MIN)), "SELECT name,ts,value FROM plain_metrics WHERE ts < ?1 ORDER BY ts", Arguments::One(Argument::Integer(i64::MIN))))
    } else if i == 3 {
        Some(Action::Agree(0, "SELECT ts,level,message FROM logs WHERE ts > ?1 ORDER BY ts", Arguments::One(Argument::Integer(i64::MIN)), "SELECT ts,level,message FROM plain_logs WHERE ts > ?1 ORDER BY ts", Arguments::One(Argument::Integer(i64::MIN))))
    } else if i == 4 {
        Some(Action::Agree(0, "SELECT ts,level,message FROM logs WHERE ts < ?1 ORDER BY ts", Arguments::One(Argument::Integer(i64::MAX)), "SELECT ts,level,message FROM plain_logs WHERE ts < ?1 ORDER BY ts", Arguments::One(Argument::Integer(i64::MAX))))
    } else if i == 5 {
        Some(Action::Agree(0, "SELECT ts,level,message FROM logs WHERE ts > ?1 ORDER BY ts", Arguments::One(Argument::Integer(i64::MAX)), "SELECT ts,level,message FROM plain_logs WHERE ts > ?1 ORDER BY ts", Arguments::One(Argument::Integer(i64::MAX))))
    } else if i == 6 {
        Some(Action::Agree(0, "SELECT ts,level,message FROM logs WHERE ts < ?1 ORDER BY ts", Arguments::One(Argument::Integer(i64::MIN)), "SELECT ts,level,message FROM plain_logs WHERE ts < ?1 ORDER BY ts", Arguments::One(Argument::Integer(i64::MIN))))
    } else if i == 7 {
        Some(Action::Agree(0, "SELECT trace_id,span_id,name,service,start_ts FROM traces WHERE start_ts > ?1 ORDER BY start_ts", Arguments::One(Argument::Integer(i64::MIN)), "SELECT trace_id,span_id,name,service,start_ts FROM plain_traces WHERE start_ts > ?1 ORDER BY start_ts", Arguments::One(Argument::Integer(i64::MIN))))
    } else if i == 8 {
        Some(Action::Agree(0, "SELECT trace_id,span_id,name,service,start_ts FROM traces WHERE start_ts < ?1 ORDER BY start_ts", Arguments::One(Argument::Integer(i64::MAX)), "SELECT trace_id,span_id,name,service,start_ts FROM plain_traces WHERE start_ts < ?1 ORDER BY start_ts", Arguments::One(Argument::Integer(i64::MAX))))
    } else if i == 9 {
        Some(Action::Agree(0, "SELECT trace_id,span_id,name,service,start_ts FROM traces WHERE start_ts > ?1 ORDER BY start_ts", Arguments::One(Argument::Integer(i64::MAX)), "SELECT trace_id,span_id,name,service,start_ts FROM plain_traces WHERE start_ts > ?1 ORDER BY start_ts", Arguments::One(Argument::Integer(i64::MAX))))
    } else if i == 10 {
        Some(Action::Agree(0, "SELECT trace_id,span_id,name,service,start_ts FROM traces WHERE start_ts < ?1 ORDER BY start_ts", Arguments::One(Argument::Integer(i64::MIN)), "SELECT trace_id,span_id,name,service,start_ts FROM plain_traces WHERE start_ts < ?1 ORDER BY start_ts", Arguments::One(Argument::Integer(i64::MIN))))
    } else if i == 11 {
        Some(Action::Execute(0, "INSERT INTO metrics(metrics) VALUES ('flush')", Arguments::Zero, Expected::Done))
    } else if i == 12 {
        Some(Action::Execute(0, "INSERT INTO logs(logs) VALUES ('flush')", Arguments::Zero, Expected::Done))
    } else if i == 13 {
        Some(Action::Execute(0, "INSERT INTO traces(traces) VALUES ('flush')", Arguments::Zero, Expected::Done))
    } else if i == 14 {
        Some(Action::Agree(0, "SELECT name,ts,value FROM metrics WHERE ts > ?1 ORDER BY ts", Arguments::One(Argument::Integer(i64::MIN)), "SELECT name,ts,value FROM plain_metrics WHERE ts > ?1 ORDER BY ts", Arguments::One(Argument::Integer(i64::MIN))))
    } else if i == 15 {
        Some(Action::Agree(0, "SELECT name,ts,value FROM metrics WHERE ts < ?1 ORDER BY ts", Arguments::One(Argument::Integer(i64::MAX)), "SELECT name,ts,value FROM plain_metrics WHERE ts < ?1 ORDER BY ts", Arguments::One(Argument::Integer(i64::MAX))))
    } else if i == 16 {
        Some(Action::Agree(0, "SELECT name,ts,value FROM metrics WHERE ts > ?1 ORDER BY ts", Arguments::One(Argument::Integer(i64::MAX)), "SELECT name,ts,value FROM plain_metrics WHERE ts > ?1 ORDER BY ts", Arguments::One(Argument::Integer(i64::MAX))))
    } else if i == 17 {
        Some(Action::Agree(0, "SELECT name,ts,value FROM metrics WHERE ts < ?1 ORDER BY ts", Arguments::One(Argument::Integer(i64::MIN)), "SELECT name,ts,value FROM plain_metrics WHERE ts < ?1 ORDER BY ts", Arguments::One(Argument::Integer(i64::MIN))))
    } else if i == 18 {
        Some(Action::Agree(0, "SELECT ts,level,message FROM logs WHERE ts > ?1 ORDER BY ts", Arguments::One(Argument::Integer(i64::MIN)), "SELECT ts,level,message FROM plain_logs WHERE ts > ?1 ORDER BY ts", Arguments::One(Argument::Integer(i64::MIN))))
    } else if i == 19 {
        Some(Action::Agree(0, "SELECT ts,level,message FROM logs WHERE ts < ?1 ORDER BY ts", Arguments::One(Argument::Integer(i64::MAX)), "SELECT ts,level,message FROM plain_logs WHERE ts < ?1 ORDER BY ts", Arguments::One(Argument::Integer(i64::MAX))))
    } else if i == 20 {
        Some(Action::Agree(0, "SELECT ts,level,message FROM logs WHERE ts > ?1 ORDER BY ts", Arguments::One(Argument::Integer(i64::MAX)), "SELECT ts,level,message FROM plain_logs WHERE ts > ?1 ORDER BY ts", Arguments::One(Argument::Integer(i64::MAX))))
    } else if i == 21 {
        Some(Action::Agree(0, "SELECT ts,level,message FROM logs WHERE ts < ?1 ORDER BY ts", Arguments::One(Argument::Integer(i64::MIN)), "SELECT ts,level,message FROM plain_logs WHERE ts < ?1 ORDER BY ts", Arguments::One(Argument::Integer(i64::MIN))))
    } else if i == 22 {
        Some(Action::Agree(0, "SELECT trace_id,span_id,name,service,start_ts FROM traces WHERE start_ts > ?1 ORDER BY start_ts", Arguments::One(Argument::Integer(i64::MIN)), "SELECT trace_id,span_id,name,service,start_ts FROM plain_traces WHERE start_ts > ?1 ORDER BY start_ts", Arguments::One(Argument::Integer(i64::MIN))))
    } else if i == 23 {
        Some(Action::Agree(0, "SELECT trace_id,span_id,name,service,start_ts FROM traces WHERE start_ts < ?1 ORDER BY start_ts", Arguments::One(Argument::Integer(i64::MAX)), "SELECT trace_id,span_id,name,service,start_ts FROM plain_traces WHERE start_ts < ?1 ORDER BY start_ts", Arguments::One(Argument::Integer(i64::MAX))))
    } else {
        None
    }
}

fn run_part_5(i: usize) -> (action: Option<Action>)
    ensures
        action == run_part_5_at(i as int),
{
    if i == 0 {
        Some(Action::Agree(0, "SELECT name,ts,value FROM metrics WHERE ts < ?1 ORDER BY ts", Arguments::One(Argument::Integer(i64::MAX)), "SELECT name,ts,value FROM plain_metrics WHERE ts < ?1 ORDER BY ts", Arguments::One(Argument::Integer(i64::MAX))))
    } else if i == 1 {
        Some(Action::Agree(0, "SELECT name,ts,value FROM metrics WHERE ts > ?1 ORDER BY ts", Arguments::One(Argument::Integer(i64::MAX)), "SELECT name,ts,value FROM plain_metrics WHERE ts > ?1 ORDER BY ts", Arguments::One(Argument::Integer(i64::MAX))))
    } else if i == 2 {
        Some(Action::Agree(0, "SELECT name,ts,value FROM metrics WHERE ts < ?1 ORDER BY ts", Arguments::One(Argument::Integer(i64::MIN)), "SELECT name,ts,value FROM plain_metrics WHERE ts < ?1 ORDER BY ts", Arguments::One(Argument::Integer(i64::MIN))))
    } else if i == 3 {
        Some(Action::Agree(0, "SELECT ts,level,message FROM logs WHERE ts > ?1 ORDER BY ts", Arguments::One(Argument::Integer(i64::MIN)), "SELECT ts,level,message FROM plain_logs WHERE ts > ?1 ORDER BY ts", Arguments::One(Argument::Integer(i64::MIN))))
    } else if i == 4 {
        Some(Action::Agree(0, "SELECT ts,level,message FROM logs WHERE ts < ?1 ORDER BY ts", Arguments::One(Argument::Integer(i64::MAX)), "SELECT ts,level,message FROM plain_logs WHERE ts < ?1 ORDER BY ts", Arguments::One(Argument::Integer(i64::MAX))))
    } else if i == 5 {
        Some(Action::Agree(0, "SELECT ts,level,message FROM logs WHERE ts > ?1 ORDER BY ts", Arguments::One(Argument::Integer(i64::MAX)), "SELECT ts,level,message FROM plain_logs WHERE ts > ?1 ORDER BY ts", Arguments::One(Argument::Integer(i64::MAX))))
    } else if i == 6 {
        Some(Action::Agree(0, "SELECT ts,level,message FROM logs WHERE ts < ?1 ORDER BY ts", Arguments::One(Argument::Integer(i64::MIN)), "SELECT ts,level,message FROM plain_logs WHERE ts < ?1 ORDER BY ts", Arguments::One(Argument::Integer(i64::MIN))))
    } else if i == 7 {
        Some(Action::Agree(0, "SELECT trace_id,span_id,name,service,start_ts FROM traces WHERE start_ts > ?1 ORDER BY start_ts", Arguments::One(Argument::Integer(i64::MIN)), "SELECT trace_id,span_id,name,service,start_ts FROM plain_traces WHERE start_ts > ?1 ORDER BY start_ts", Arguments::One(Argument::Integer(i64::MIN))))
    } else if i == 8 {
        Some(Action::Agree(0, "SELECT trace_id,span_id,name,service,start_ts FROM traces WHERE start_ts < ?1 ORDER BY start_ts", Arguments::One(Argument::Integer(i64::MAX)), "SELECT trace_id,span_id,name,service,start_ts FROM plain_traces WHERE start_ts < ?1 ORDER BY start_ts", Arguments::One(Argument::Integer(i64::MAX))))
    } else if i == 9 {
        Some(Action::Agree(0, "SELECT trace_id,span_id,name,service,start_ts FROM traces WHERE start_ts > ?1 ORDER BY start_ts", Arguments::One(Argument::Integer(i64::MAX)), "SELECT trace_id,span_id,name,service,start_ts FROM plain_traces WHERE start_ts > ?1 ORDER BY start_ts", Arguments::One(Argument::Integer(i64::MAX))))
    } else if i == 10 {
        Some(Action::Agree(0, "SELECT trace_id,span_id,name,service,start_ts FROM traces WHERE start_ts < ?1 ORDER BY start_ts", Arguments::One(Argument::Integer(i64::MIN)), "SELECT trace_id,span_id,name,service,start_ts FROM plain_traces WHERE start_ts < ?1 ORDER BY start_ts", Arguments::One(Argument::Integer(i64::MIN))))
    } else if i == 11 {
        Some(Action::Execute(0, "INSERT INTO metrics(metrics) VALUES ('flush')", Arguments::Zero, Expected::Done))
    } else if i == 12 {
        Some(Action::Execute(0, "INSERT INTO logs(logs) VALUES ('flush')", Arguments::Zero, Expected::Done))
    } else if i == 13 {
        Some(Action::Execute(0, "INSERT INTO traces(traces) VALUES ('flush')", Arguments::Zero, Expected::Done))
    } else if i == 14 {
        Some(Action::Agree(0, "SELECT name,ts,value FROM metrics WHERE ts > ?1 ORDER BY ts", Arguments::One(Argument::Integer(i64::MIN)), "SELECT name,ts,value FROM plain_metrics WHERE ts > ?1 ORDER BY ts", Arguments::One(Argument::Integer(i64::MIN))))
    } else if i == 15 {
        Some(Action::Agree(0, "SELECT name,ts,value FROM metrics WHERE ts < ?1 ORDER BY ts", Arguments::One(Argument::Integer(i64::MAX)), "SELECT name,ts,value FROM plain_metrics WHERE ts < ?1 ORDER BY ts", Arguments::One(Argument::Integer(i64::MAX))))
    } else if i == 16 {
        Some(Action::Agree(0, "SELECT name,ts,value FROM metrics WHERE ts > ?1 ORDER BY ts", Arguments::One(Argument::Integer(i64::MAX)), "SELECT name,ts,value FROM plain_metrics WHERE ts > ?1 ORDER BY ts", Arguments::One(Argument::Integer(i64::MAX))))
    } else if i == 17 {
        Some(Action::Agree(0, "SELECT name,ts,value FROM metrics WHERE ts < ?1 ORDER BY ts", Arguments::One(Argument::Integer(i64::MIN)), "SELECT name,ts,value FROM plain_metrics WHERE ts < ?1 ORDER BY ts", Arguments::One(Argument::Integer(i64::MIN))))
    } else if i == 18 {
        Some(Action::Agree(0, "SELECT ts,level,message FROM logs WHERE ts > ?1 ORDER BY ts", Arguments::One(Argument::Integer(i64::MIN)), "SELECT ts,level,message FROM plain_logs WHERE ts > ?1 ORDER BY ts", Arguments::One(Argument::Integer(i64::MIN))))
    } else if i == 19 {
        Some(Action::Agree(0, "SELECT ts,level,message FROM logs WHERE ts < ?1 ORDER BY ts", Arguments::One(Argument::Integer(i64::MAX)), "SELECT ts,level,message FROM plain_logs WHERE ts < ?1 ORDER BY ts", Arguments::One(Argument::Integer(i64::MAX))))
    } else if i == 20 {
        Some(Action::Agree(0, "SELECT ts,level,message FROM logs WHERE ts > ?1 ORDER BY ts", Arguments::One(Argument::Integer(i64::MAX)), "SELECT ts,level,message FROM plain_logs WHERE ts > ?1 ORDER BY ts", Arguments::One(Argument::Integer(i64::MAX))))
    } else if i == 21 {
        Some(Action::Agree(0, "SELECT ts,level,message FROM logs WHERE ts < ?1 ORDER BY ts", Arguments::One(Argument::Integer(i64::MIN)), "SELECT ts,level,message FROM plain_logs WHERE ts < ?1 ORDER BY ts", Arguments::One(Argument::Integer(i64::MIN))))
    } else if i == 22 {
        Some(Action::Agree(0, "SELECT trace_id,span_id,name,service,start_ts FROM traces WHERE start_ts > ?1 ORDER BY start_ts", Arguments::One(Argument::Integer(i64::MIN)), "SELECT trace_id,span_id,name,service,start_ts FROM plain_traces WHERE start_ts > ?1 ORDER BY start_ts", Arguments::One(Argument::Integer(i64::MIN))))
    } else if i == 23 {
        Some(Action::Agree(0, "SELECT trace_id,span_id,name,service,start_ts FROM traces WHERE start_ts < ?1 ORDER BY start_ts", Arguments::One(Argument::Integer(i64::MAX)), "SELECT trace_id,span_id,name,service,start_ts FROM plain_traces WHERE start_ts < ?1 ORDER BY start_ts", Arguments::One(Argument::Integer(i64::MAX))))
    } else {
        None
    }
}

/// A part of the script.
pub open spec fn run_part_6_at(i: int) -> Option<Action> {
    if i == 0 {
        Some(Action::Agree(0, "SELECT trace_id,span_id,name,service,start_ts FROM traces WHERE start_ts > ?1 ORDER BY start_ts", Arguments::One(Argument::Integer(i64::MAX)), "SELECT trace_id,span_id,name,service,start_ts FROM plain_traces WHERE start_ts > ?1 ORDER BY start_ts", Arguments::One(Argument::Integer(i64::MAX))))
    } else if i == 1 {
        Some(Action::Agree(0, "SELECT trace_id,span_id,name,service,start_ts FROM traces WHERE start_ts < ?1 ORDER BY start_ts", Arguments::One(Argument::Integer(i64::MIN)), "SELECT trace_id,span_id,name,service,start_ts FROM plain_traces WHERE start_ts < ?1 ORDER BY start_ts", Arguments::One(Argument::Integer(i64::MIN))))
    } else if i == 2 {
        Some(Action::Close(0))
    } else if i == 3 {
        Some(Action::Open(0, Database::Named("r8_strict.db")))
    } else if i == 4 {
        Some(Action::Agree(0, "SELECT name,ts,value FROM metrics WHERE ts > ?1 ORDER BY ts", Arguments::One(Argument::Integer(i64::MIN)), "SELECT name,ts,value FROM plain_metrics WHERE ts > ?1 ORDER BY ts", Arguments::One(Argument::Integer(i64::MIN))))
    } else if i == 5 {
        Some(Action::Agree(0, "SELECT name,ts,value FROM metrics WHERE ts < ?1 ORDER BY ts", Arguments::One(Argument::Integer(i64::MAX)), "SELECT name,ts,value FROM plain_metrics WHERE ts < ?1 ORDER BY ts", Arguments::One(Argument::Integer(i64::MAX))))
    } else if i == 6 {
        Some(Action::Agree(0, "SELECT name,ts,value FROM metrics WHERE ts > ?1 ORDER BY ts", Arguments::One(Argument::Integer(i64::MAX)), "SELECT name,ts,value FROM plain_metrics WHERE ts > ?1 ORDER BY ts", Arguments::One(Argument::Integer(i64::MAX))))
    } else if i == 7 {
        Some(Action::Agree(0, "SELECT name,ts,value FROM metrics WHERE ts < ?1 ORDER BY ts", Arguments::One(Argument::Integer(i64::MIN)), "SELECT name,ts,value FROM plain_metrics WHERE ts < ?1 ORDER BY ts", Arguments::One(Argument::Integer(i64::MIN))))
    } else if i == 8 {
        Some(Action::Agree(0, "SELECT ts,level,message FROM logs WHERE ts > ?1 ORDER BY ts", Arguments::One(Argument::Integer(i64::MIN)), "SELECT ts,level,message FROM plain_logs WHERE ts > ?1 ORDER BY ts", Arguments::One(Argument::Integer(i64::MIN))))
    } else if i == 9 {
        Some(Action::Agree(0, "SELECT ts,level,message FROM logs WHERE ts < ?1 ORDER BY ts", Arguments::One(Argument::Integer(i64::MAX)), "SELECT ts,level,message FROM plain_logs WHERE ts < ?1 ORDER BY ts", Arguments::One(Argument::Integer(i64::MAX))))
    } else if i == 10 {
        Some(Action::Agree(0, "SELECT ts,level,message FROM logs WHERE ts > ?1 ORDER BY ts", Arguments::One(Argument::Integer(i64::MAX)), "SELECT ts,level,message FROM plain_logs WHERE ts > ?1 ORDER BY ts", Arguments::One(Argument::Integer(i64::MAX))))
    } else if i == 11 {
        Some(Action::Agree(0, "SELECT ts,level,message FROM logs WHERE ts < ?1 ORDER BY ts", Arguments::One(Argument::Integer(i64::MIN)), "SELECT ts,level,message FROM plain_logs WHERE ts < ?1 ORDER BY ts", Arguments::One(Argument::Integer(i64::MIN))))
    } else if i == 12 {
        Some(Action::Agree(0, "SELECT trace_id,span_id,name,service,start_ts FROM traces WHERE start_ts > ?1 ORDER BY start_ts", Arguments::One(Argument::Integer(i64::MIN)), "SELECT trace_id,span_id,name,service,start_ts FROM plain_traces WHERE start_ts > ?1 ORDER BY start_ts", Arguments::One(Argument::Integer(i64::MIN))))
    } else if i == 13 {
        Some(Action::Agree(0, "SELECT trace_id,span_id,name,service,start_ts FROM traces WHERE start_ts < ?1 ORDER BY start_ts", Arguments::One(Argument::Integer(i64::MAX)), "SELECT trace_id,span_id,name,service,start_ts FROM plain_traces WHERE start_ts < ?1 ORDER BY start_ts", Arguments::One(Argument::Integer(i64::MAX))))
    } else if i == 14 {
        Some(Action::Agree(0, "SELECT trace_id,span_id,name,service,start_ts FROM traces WHERE start_ts > ?1 ORDER BY start_ts", Arguments::One(Argument::Integer(i64::MAX)), "SELECT trace_id,span_id,name,service,start_ts FROM plain_traces WHERE start_ts > ?1 ORDER BY start_ts", Arguments::One(Argument::Integer(i64::MAX))))
    } else if i == 15 {
        Some(Action::Agree(0, "SELECT trace_id,span_id,name,service,start_ts FROM traces WHERE start_ts < ?1 ORDER BY start_ts", Arguments::One(Argument::Integer(i64::MIN)), "SELECT trace_id,span_id,name,service,start_ts FROM plain_traces WHERE start_ts < ?1 ORDER BY start_ts", Arguments::One(Argument::Integer(i64::MIN))))
    } else if i == 16 {
        Some(Action::Close(0))
    } else if i == 17 {
        Some(Action::Pass("PASS: timestamp extremes and NULL constraints match SQLite"))
    } else {
        None
    }
}

fn run_part_6(i: usize) -> (action: Option<Action>)
    ensures
        action == run_part_6_at(i as int),
{
    if i == 0 {
        Some(Action::Agree(0, "SELECT trace_id,span_id,name,service,start_ts FROM traces WHERE start_ts > ?1 ORDER BY start_ts", Arguments::One(Argument::Integer(i64::MAX)), "SELECT trace_id,span_id,name,service,start_ts FROM plain_traces WHERE start_ts > ?1 ORDER BY start_ts", Arguments::One(Argument::Integer(i64::MAX))))
    } else if i == 1 {
        Some(Action::Agree(0, "SELECT trace_id,span_id,name,service,start_ts FROM traces WHERE start_ts < ?1 ORDER BY start_ts", Arguments::One(Argument::Integer(i64::MIN)), "SELECT trace_id,span_id,name,service,start_ts FROM plain_traces WHERE start_ts < ?1 ORDER BY start_ts", Arguments::One(Argument::Integer(i64::MIN))))
    } else if i == 2 {
        Some(Action::Close(0))
    } else if i == 3 {
        Some(Action::Open(0, Database::Named("r8_strict.db")))
    } else if i == 4 {
        Some(Action::Agree(0, "SELECT name,ts,value FROM metrics WHERE ts > ?1 ORDER BY ts", Arguments::One(Argument::Integer(i64::MIN)), "SELECT name,ts,value FROM plain_metrics WHERE ts > ?1 ORDER BY ts", Arguments::One(Argument::Integer(i64::MIN))))
    } else if i == 5 {
        Some(Action::Agree(0, "SELECT name,ts,value FROM metrics WHERE ts < ?1 ORDER BY ts", Arguments::One(Argument::Integer(i64::MAX)), "SELECT name,ts,value FROM plain_metrics WHERE ts < ?1 ORDER BY ts", Arguments::One(Argument::Integer(i64::MAX))))
    } else if i == 6 {
        Some(Action::Agree(0, "SELECT name,ts,value FROM metrics WHERE ts > ?1 ORDER BY ts", Arguments::One(Argument::Integer(i64::MAX)), "SELECT name,ts,value FROM plain_metrics WHERE ts > ?1 ORDER BY ts", Arguments::One(Argument::Integer(i64::MAX))))
    } else if i == 7 {
        Some(Action::Agree(0, "SELECT name,ts,value FROM metrics WHERE ts < ?1 ORDER BY ts", Arguments::One(Argument::Integer(i64::MIN)), "SELECT name,ts,value FROM plain_metrics WHERE ts < ?1 ORDER BY ts", Arguments::One(Argument::Integer(i64::MIN))))
    } else if i == 8 {
        Some(Action::Agree(0, "SELECT ts,level,message FROM logs WHERE ts > ?1 ORDER BY ts", Arguments::One(Argument::Integer(i64::MIN)), "SELECT ts,level,message FROM plain_logs WHERE ts > ?1 ORDER BY ts", Arguments::One(Argument::Integer(i64::MIN))))
    } else if i == 9 {
        Some(Action::Agree(0, "SELECT ts,level,message FROM logs WHERE ts < ?1 ORDER BY ts", Arguments::One(Argument::Integer(i64::MAX)), "SELECT ts,level,message FROM plain_logs WHERE ts < ?1 ORDER BY ts", Arguments::One(Argument::Integer(i64::MAX))))
    } else if i == 10 {
        Some(Action::Agree(0, "SELECT ts,level,message FROM logs WHERE ts > ?1 ORDER BY ts", Arguments::One(Argument::Integer(i64::MAX)), "SELECT ts,level,message FROM plain_logs WHERE ts > ?1 ORDER BY ts", Arguments::One(Argument::Integer(i64::MAX))))
    } else if i == 11 {
        Some(Action::Agree(0, "SELECT ts,level,message FROM logs WHERE ts < ?1 ORDER BY ts", Arguments::One(Argument::Integer(i64::MIN)), "SELECT ts,level,message FROM plain_logs WHERE ts < ?1 ORDER BY ts", Arguments::One(Argument::Integer(i64::MIN))))
    } else if i == 12 {
        Some(Action::Agree(0, "SELECT trace_id,span_id,name,service,start_ts FROM traces WHERE start_ts > ?1 ORDER BY start_ts", Arguments::One(Argument::Integer(i64::MIN)), "SELECT trace_id,span_id,name,service,start_ts FROM plain_traces WHERE start_ts > ?1 ORDER BY start_ts", Arguments::One(Argument::Integer(i64::MIN))))
    } else if i == 13 {
        Some(Action::Agree(0, "SELECT trace_id,span_id,name,service,start_ts FROM traces WHERE start_ts < ?1 ORDER BY start_ts", Arguments::One(Argument::Integer(i64::MAX)), "SELECT trace_id,span_id,name,service,start_ts FROM plain_traces WHERE start_ts < ?1 ORDER BY start_ts", Arguments::One(Argument::Integer(i64::MAX))))
    } else if i == 14 {
        Some(Action::Agree(0, "SELECT trace_id,span_id,name,service,start_ts FROM traces WHERE start_ts > ?1 ORDER BY start_ts", Arguments::One(Argument::Integer(i64::MAX)), "SELECT trace_id,span_id,name,service,start_ts FROM plain_traces WHERE start_ts > ?1 ORDER BY start_ts", Arguments::One(Argument::Integer(i64::MAX))))
    } else if i == 15 {
        Some(Action::Agree(0, "SELECT trace_id,span_id,name,service,start_ts FROM traces WHERE start_ts < ?1 ORDER BY start_ts", Arguments::One(Argument::Integer(i64::MIN)), "SELECT trace_id,span_id,name,service,start_ts FROM plain_traces WHERE start_ts < ?1 ORDER BY start_ts", Arguments::One(Argument::Integer(i64::MIN))))
    } else if i == 16 {
        Some(Action::Close(0))
    } else if i == 17 {
        Some(Action::Pass("PASS: timestamp extremes and NULL constraints match SQLite"))
    } else {
        None
    }
}

/// The suite of extreme times: what is done at a place, from 0 on.
pub open spec fn run_at(i: int) -> Option<Action> {
    if i < 24 {
        run_part_0_at(i)
    } else if i < 48 {
        run_part_1_at(i - 24)
    } else if i < 72 {
        run_part_2_at(i - 48)
    } else if i < 96 {
        run_part_3_at(i - 72)
    } else if i < 120 {
        run_part_4_at(i - 96)
    } else if i < 144 {
        run_part_5_at(i - 120)
    } else {
        run_part_6_at(i - 144)
    }
}

/// The suite of extreme times: what is done at a place, from 0 on.
pub fn run(i: usize) -> (action: Option<Action>)
    ensures
        action == run_at(i as int),
{
    if i < 24 {
        run_part_0(i)
    } else if i < 48 {
        run_part_1(i - 24)
    } else if i < 72 {
        run_part_2(i - 48)
    } else if i < 96 {
        run_part_3(i - 72)
    } else if i < 120 {
        run_part_4(i - 96)
    } else if i < 144 {
        run_part_5(i - 120)
    } else {
        run_part_6(i - 144)
    }
}

/// The script has an action at every place below 162, and none from there on.
pub proof fn run_ends(i: int)
    ensures
        run_at(i) is Some <==> 0 <= i < 162,
{
}

} // verus!
