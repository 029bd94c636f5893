//! Statements, savepoints, automatic flushes and maintenance are atomic: what fails or
//! is rolled back leaves nothing behind, and what is kept outlives the connection.
use crate::gate::{Action, Argument, Arguments, Database, Expected};
use crate::values::{Literal, Row};
use vstd::prelude::*;

verus! {

/// A part of the script.
pub open spec fn run_part_0_at(i: int) -> Option<Action> {
    if i == 0 {
        Some(Action::Open(0, Database::Named("r1.db")))
    } else if i == 1 {
        Some(Action::Batch(0, "CREATE VIRTUAL TABLE metrics USING timeless_metrics; CREATE VIRTUAL TABLE logs USING timeless_logs; CREATE VIRTUAL TABLE traces USING timeless_traces; CREATE VIRTUAL TABLE metrics_threshold USING timeless_metrics; WITH RECURSIVE seq(n) AS (VALUES(1) UNION ALL SELECT n+1 FROM seq WHERE n<4095) INSERT INTO metrics_threshold(name,ts,value) SELECT 'threshold_metric',100000+n,n FROM seq;", Expected::Done))
    } else if i == 2 {
        Some(Action::Query(0, "SELECT CAST(value AS INTEGER) FROM timeless_stats('metrics_threshold') WHERE key=?1", Arguments::One(Argument::Text("buffered_points")), Expected::First(Row::One(Literal::Integer(4095)))))
    } else if i == 3 {
        Some(Action::Query(0, "SELECT CAST(value AS INTEGER) FROM timeless_stats('metrics_threshold') WHERE key=?1", Arguments::One(Argument::Text("disk_points")), Expected::First(Row::One(Literal::Integer(0)))))
    } else if i == 4 {
        Some(Action::Query(0, "SELECT COUNT(*) FROM metrics_threshold_chunks", Arguments::Zero, Expected::First(Row::One(Literal::Integer(0)))))
    } else if i == 5 {
        Some(Action::Execute(0, "INSERT INTO metrics_threshold(name,ts,value) VALUES ('threshold_metric',104096,4096)", Arguments::Zero, Expected::Done))
    } else if i == 6 {
        Some(Action::Query(0, "SELECT CAST(value AS INTEGER) FROM timeless_stats('metrics_threshold') WHERE key=?1", Arguments::One(Argument::Text("buffered_points")), Expected::First(Row::One(Literal::Integer(0)))))
    } else if i == 7 {
        Some(Action::Query(0, "SELECT CAST(value AS INTEGER) FROM timeless_stats('metrics_threshold') WHERE key=?1", Arguments::One(Argument::Text("disk_points")), Expected::First(Row::One(Literal::Integer(4096)))))
    } else if i == 8 {
        Some(Action::Query(0, "SELECT COUNT(*) FROM metrics_threshold_chunks", Arguments::Zero, Expected::First(Row::One(Literal::Integer(1)))))
    } else if i == 9 {
        Some(Action::Execute(0, "BEGIN", Arguments::Zero, Expected::Done))
    } else if i == 10 {
        Some(Action::Batch(0, "INSERT INTO metrics(name,ts,value) VALUES ('stmt_bad',10,1.0),('stmt_bad',11,NULL)", Expected::Refused))
    } else if i == 11 {
        Some(Action::Autocommit(0, false))
    } else if i == 12 {
        Some(Action::Query(0, "SELECT COUNT(*) FROM metrics WHERE name='stmt_bad'", Arguments::Zero, Expected::First(Row::One(Literal::Integer(0)))))
    } else if i == 13 {
        Some(Action::Execute(0, "COMMIT", Arguments::Zero, Expected::Done))
    } else if i == 14 {
        Some(Action::Execute(0, "BEGIN", Arguments::Zero, Expected::Done))
    } else if i == 15 {
        Some(Action::Batch(0, "INSERT INTO logs(ts,level,message) VALUES (10,'info','stmt_bad'),(11,'fatal','stmt_bad')", Expected::Refused))
    } else if i == 16 {
        Some(Action::Autocommit(0, false))
    } else if i == 17 {
        Some(Action::Query(0, "SELECT COUNT(*) FROM logs WHERE message='stmt_bad'", Arguments::Zero, Expected::First(Row::One(Literal::Integer(0)))))
    } else if i == 18 {
        Some(Action::Execute(0, "COMMIT", Arguments::Zero, Expected::Done))
    } else if i == 19 {
        Some(Action::Execute(0, "BEGIN", Arguments::Zero, Expected::Done))
    } else if i == 20 {
        Some(Action::Batch(0, "INSERT INTO traces(trace_id,span_id,name,service,start_ts) VALUES (zeroblob(16),zeroblob(8),'stmt_bad','svc',10),(x'01',zeroblob(8),'stmt_bad','svc',11)", Expected::Refused))
    } else if i == 21 {
        Some(Action::Autocommit(0, false))
    } else if i == 22 {
        Some(Action::Query(0, "SELECT COUNT(*) FROM traces WHERE name='stmt_bad'", Arguments::Zero, Expected::First(Row::One(Literal::Integer(0)))))
    } else if i == 23 {
        Some(Action::Execute(0, "COMMIT", Arguments::Zero, Expected::Done))
    } else {
        None
    }
}

fn run_part_0(i: usize) -> (action: Option<Action>)
    ensures
        action == run_part_0_at(i as int),
{
    if i == 0 {
        Some(Action::Open(0, Database::Named("r1.db")))
    } else if i == 1 {
        Some(Action::Batch(0, "CREATE VIRTUAL TABLE metrics USING timeless_metrics; CREATE VIRTUAL TABLE logs USING timeless_logs; CREATE VIRTUAL TABLE traces USING timeless_traces; CREATE VIRTUAL TABLE metrics_threshold USING timeless_metrics; WITH RECURSIVE seq(n) AS (VALUES(1) UNION ALL SELECT n+1 FROM seq WHERE n<4095) INSERT INTO metrics_threshold(name,ts,value) SELECT 'threshold_metric',100000+n,n FROM seq;", Expected::Done))
    } else if i == 2 {
        Some(Action::Query(0, "SELECT CAST(value AS INTEGER) FROM timeless_stats('metrics_threshold') WHERE key=?1", Arguments::One(Argument::Text("buffered_points")), Expected::First(Row::One(Literal::Integer(4095)))))
    } else if i == 3 {
        Some(Action::Query(0, "SELECT CAST(value AS INTEGER) FROM timeless_stats('metrics_threshold') WHERE key=?1", Arguments::One(Argument::Text("disk_points")), Expected::First(Row::One(Literal::Integer(0)))))
    } else if i == 4 {
        Some(Action::Query(0, "SELECT COUNT(*) FROM metrics_threshold_chunks", Arguments::Zero, Expected::First(Row::One(Literal::Integer(0)))))
    } else if i == 5 {
        Some(Action::Execute(0, "INSERT INTO metrics_threshold(name,ts,value) VALUES ('threshold_metric',104096,4096)", Arguments::Zero, Expected::Done))
    } else if i == 6 {
        Some(Action::Query(0, "SELECT CAST(value AS INTEGER) FROM timeless_stats('metrics_threshold') WHERE key=?1", Arguments::One(Argument::Text("buffered_points")), Expected::First(Row::One(Literal::Integer(0)))))
    } else if i == 7 {
        Some(Action::Query(0, "SELECT CAST(value AS INTEGER) FROM timeless_stats('metrics_threshold') WHERE key=?1", Arguments::One(Argument::Text("disk_points")), Expected::First(Row::One(Literal::Integer(4096)))))
    } else if i == 8 {
        Some(Action::Query(0, "SELECT COUNT(*) FROM metrics_threshold_chunks", Arguments::Zero, Expected::First(Row::One(Literal::Integer(1)))))
    } else if i == 9 {
        Some(Action::Execute(0, "BEGIN", Arguments::Zero, Expected::Done))
    } else if i == 10 {
        Some(Action::Batch(0, "INSERT INTO metrics(name,ts,value) VALUES ('stmt_bad',10,1.0),('stmt_bad',11,NULL)", Expected::Refused))
    } else if i == 11 {
        Some(Action::Autocommit(0, false))
    } else if i == 12 {
        Some(Action::Query(0, "SELECT COUNT(*) FROM metrics WHERE name='stmt_bad'", Arguments::Zero, Expected::First(Row::One(Literal::Integer(0)))))
    } else if i == 13 {
        Some(Action::Execute(0, "COMMIT", Arguments::Zero, Expected::Done))
    } else if i == 14 {
        Some(Action::Execute(0, "BEGIN", Arguments::Zero, Expected::Done))
    } else if i == 15 {
        Some(Action::Batch(0, "INSERT INTO logs(ts,level,message) VALUES (10,'info','stmt_bad'),(11,'fatal','stmt_bad')", Expected::Refused))
    } else if i == 16 {
        Some(Action::Autocommit(0, false))
    } else if i == 17 {
        Some(Action::Query(0, "SELECT COUNT(*) FROM logs WHERE message='stmt_bad'", Arguments::Zero, Expected::First(Row::One(Literal::Integer(0)))))
    } else if i == 18 {
        Some(Action::Execute(0, "COMMIT", Arguments::Zero, Expected::Done))
    } else if i == 19 {
        Some(Action::Execute(0, "BEGIN", Arguments::Zero, Expected::Done))
    } else if i == 20 {
        Some(Action::Batch(0, "INSERT INTO traces(trace_id,span_id,name,service,start_ts) VALUES (zeroblob(16),zeroblob(8),'stmt_bad','svc',10),(x'01',zeroblob(8),'stmt_bad','svc',11)", Expected::Refused))
    } else if i == 21 {
        Some(Action::Autocommit(0, false))
    } else if i == 22 {
        Some(Action::Query(0, "SELECT COUNT(*) FROM traces WHERE name='stmt_bad'", Arguments::Zero, Expected::First(Row::One(Literal::Integer(0)))))
    } else if i == 23 {
        Some(Action::Execute(0, "COMMIT", Arguments::Zero, Expected::Done))
    } else {
        None
    }
}

/// A part of the script.
pub open spec fn run_part_1_at(i: int) -> Option<Action> {
    if i == 0 {
        Some(Action::Batch(0, "INSERT INTO metrics(name,ts,value) VALUES ('autocommit_bad',10,1.0),('autocommit_bad',11,NULL)", Expected::Refused))
    } else if i == 1 {
        Some(Action::Autocommit(0, true))
    } else if i == 2 {
        Some(Action::Query(0, "SELECT COUNT(*) FROM metrics WHERE name='autocommit_bad'", Arguments::Zero, Expected::First(Row::One(Literal::Integer(0)))))
    } else if i == 3 {
        Some(Action::Batch(0, "INSERT INTO logs(ts,level,message) VALUES (10,'info','autocommit_bad'),(11,'fatal','autocommit_bad')", Expected::Refused))
    } else if i == 4 {
        Some(Action::Autocommit(0, true))
    } else if i == 5 {
        Some(Action::Query(0, "SELECT COUNT(*) FROM logs WHERE message='autocommit_bad'", Arguments::Zero, Expected::First(Row::One(Literal::Integer(0)))))
    } else if i == 6 {
        Some(Action::Batch(0, "INSERT INTO traces(trace_id,span_id,name,service,start_ts) VALUES (zeroblob(16),zeroblob(8),'autocommit_bad','svc',10),(x'01',zeroblob(8),'autocommit_bad','svc',11)", Expected::Refused))
    } else if i == 7 {
        Some(Action::Autocommit(0, true))
    } else if i == 8 {
        Some(Action::Query(0, "SELECT COUNT(*) FROM traces WHERE name='autocommit_bad'", Arguments::Zero, Expected::First(Row::One(Literal::Integer(0)))))
    } else if i == 9 {
        Some(Action::Execute(0, "BEGIN", Arguments::Zero, Expected::Done))
    } else if i == 10 {
        Some(Action::Batch(0, "WITH RECURSIVE seq(n) AS (VALUES(1) UNION ALL SELECT n+1 FROM seq WHERE n<8200) INSERT INTO logs(ts,level,message) SELECT 10000+n,CASE WHEN n=8200 THEN 'fatal' ELSE 'info' END,'threshold_bad' FROM seq", Expected::Refused))
    } else if i == 11 {
        Some(Action::Query(0, "SELECT COUNT(*) FROM logs WHERE message='threshold_bad'", Arguments::Zero, Expected::First(Row::One(Literal::Integer(0)))))
    } else if i == 12 {
        Some(Action::Query(0, "SELECT COUNT(*) FROM logs_blocks", Arguments::Zero, Expected::First(Row::One(Literal::Integer(0)))))
    } else if i == 13 {
        Some(Action::Execute(0, "COMMIT", Arguments::Zero, Expected::Done))
    } else if i == 14 {
        Some(Action::Execute(0, "BEGIN", Arguments::Zero, Expected::Done))
    } else if i == 15 {
        Some(Action::Batch(0, "WITH RECURSIVE seq(n) AS (VALUES(1) UNION ALL SELECT n+1 FROM seq WHERE n<8200) INSERT INTO traces(trace_id,span_id,name,service,start_ts) SELECT CASE WHEN n=8200 THEN x'01' ELSE zeroblob(16) END,zeroblob(8),'threshold_bad','svc',10000+n FROM seq", Expected::Refused))
    } else if i == 16 {
        Some(Action::Query(0, "SELECT COUNT(*) FROM traces WHERE name='threshold_bad'", Arguments::Zero, Expected::First(Row::One(Literal::Integer(0)))))
    } else if i == 17 {
        Some(Action::Query(0, "SELECT COUNT(*) FROM traces_blocks", Arguments::Zero, Expected::First(Row::One(Literal::Integer(0)))))
    } else if i == 18 {
        Some(Action::Execute(0, "COMMIT", Arguments::Zero, Expected::Done))
    } else if i == 19 {
        Some(Action::Execute(0, "BEGIN", Arguments::Zero, Expected::Done))
    } else if i == 20 {
        Some(Action::Execute(0, "INSERT INTO metrics(name,ts,value) VALUES ('save_outer',20,2.0)", Arguments::Zero, Expected::Done))
    } else if i == 21 {
        Some(Action::Execute(0, "SAVEPOINT metrics_sp", Arguments::Zero, Expected::Done))
    } else if i == 22 {
        Some(Action::Execute(0, "INSERT INTO metrics(name,ts,value) VALUES ('save_inner',21,3.0)", Arguments::Zero, Expected::Done))
    } else if i == 23 {
        Some(Action::Execute(0, "ROLLBACK TO metrics_sp", Arguments::Zero, Expected::Done))
    } else {
        None
    }
}

fn run_part_1(i: usize) -> (action: Option<Action>)
    ensures
        action == run_part_1_at(i as int),
{
    if i == 0 {
        Some(Action::Batch(0, "INSERT INTO metrics(name,ts,value) VALUES ('autocommit_bad',10,1.0),('autocommit_bad',11,NULL)", Expected::Refused))
    } else if i == 1 {
        Some(Action::Autocommit(0, true))
    } else if i == 2 {
        Some(Action::Query(0, "SELECT COUNT(*) FROM metrics WHERE name='autocommit_bad'", Arguments::Zero, Expected::First(Row::One(Literal::Integer(0)))))
    } else if i == 3 {
        Some(Action::Batch(0, "INSERT INTO logs(ts,level,message) VALUES (10,'info','autocommit_bad'),(11,'fatal','autocommit_bad')", Expected::Refused))
    } else if i == 4 {
        Some(Action::Autocommit(0, true))
    } else if i == 5 {
        Some(Action::Query(0, "SELECT COUNT(*) FROM logs WHERE message='autocommit_bad'", Arguments::Zero, Expected::First(Row::One(Literal::Integer(0)))))
    } else if i == 6 {
        Some(Action::Batch(0, "INSERT INTO traces(trace_id,span_id,name,service,start_ts) VALUES (zeroblob(16),zeroblob(8),'autocommit_bad','svc',10),(x'01',zeroblob(8),'autocommit_bad','svc',11)", Expected::Refused))
    } else if i == 7 {
        Some(Action::Autocommit(0, true))
    } else if i == 8 {
        Some(Action::Query(0, "SELECT COUNT(*) FROM traces WHERE name='autocommit_bad'", Arguments::Zero, Expected::First(Row::One(Literal::Integer(0)))))
    } else if i == 9 {
        Some(Action::Execute(0, "BEGIN", Arguments::Zero, Expected::Done))
    } else if i == 10 {
        Some(Action::Batch(0, "WITH RECURSIVE seq(n) AS (VALUES(1) UNION ALL SELECT n+1 FROM seq WHERE n<8200) INSERT INTO logs(ts,level,message) SELECT 10000+n,CASE WHEN n=8200 THEN 'fatal' ELSE 'info' END,'threshold_bad' FROM seq", Expected::Refused))
    } else if i == 11 {
        Some(Action::Query(0, "SELECT COUNT(*) FROM logs WHERE message='threshold_bad'", Arguments::Zero, Expected::First(Row::One(Literal::Integer(0)))))
    } else if i == 12 {
        Some(Action::Query(0, "SELECT COUNT(*) FROM logs_blocks", Arguments::Zero, Expected::First(Row::One(Literal::Integer(0)))))
    } else if i == 13 {
        Some(Action::Execute(0, "COMMIT", Arguments::Zero, Expected::Done))
    } else if i == 14 {
        Some(Action::Execute(0, "BEGIN", Arguments::Zero, Expected::Done))
    } else if i == 15 {
        Some(Action::Batch(0, "WITH RECURSIVE seq(n) AS (VALUES(1) UNION ALL SELECT n+1 FROM seq WHERE n<8200) INSERT INTO traces(trace_id,span_id,name,service,start_ts) SELECT CASE WHEN n=8200 THEN x'01' ELSE zeroblob(16) END,zeroblob(8),'threshold_bad','svc',10000+n FROM seq", Expected::Refused))
    } else if i == 16 {
        Some(Action::Query(0, "SELECT COUNT(*) FROM traces WHERE name='threshold_bad'", Arguments::Zero, Expected::First(Row::One(Literal::Integer(0)))))
    } else if i == 17 {
        Some(Action::Query(0, "SELECT COUNT(*) FROM traces_blocks", Arguments::Zero, Expected::First(Row::One(Literal::Integer(0)))))
    } else if i == 18 {
        Some(Action::Execute(0, "COMMIT", Arguments::Zero, Expected::Done))
    } else if i == 19 {
        Some(Action::Execute(0, "BEGIN", Arguments::Zero, Expected::Done))
    } else if i == 20 {
        Some(Action::Execute(0, "INSERT INTO metrics(name,ts,value) VALUES ('save_outer',20,2.0)", Arguments::Zero, Expected::Done))
    } else if i == 21 {
        Some(Action::Execute(0, "SAVEPOINT metrics_sp", Arguments::Zero, Expected::Done))
    } else if i == 22 {
        Some(Action::Execute(0, "INSERT INTO metrics(name,ts,value) VALUES ('save_inner',21,3.0)", Arguments::Zero, Expected::Done))
    } else if i == 23 {
        Some(Action::Execute(0, "ROLLBACK TO metrics_sp", Arguments::Zero, Expected::Done))
    } else {
        None
    }
}

/// A part of the script.
pub open spec fn run_part_2_at(i: int) -> Option<Action> {
    if i == 0 {
        Some(Action::Execute(0, "RELEASE metrics_sp", Arguments::Zero, Expected::Done))
    } else if i == 1 {
        Some(Action::Autocommit(0, false))
    } else if i == 2 {
        Some(Action::Execute(0, "COMMIT", Arguments::Zero, Expected::Done))
    } else if i == 3 {
        Some(Action::Query(0, "SELECT COUNT(*) FROM metrics WHERE name='save_outer'", Arguments::Zero, Expected::First(Row::One(Literal::Integer(1)))))
    } else if i == 4 {
        Some(Action::Query(0, "SELECT COUNT(*) FROM metrics WHERE name='save_inner'", Arguments::Zero, Expected::First(Row::One(Literal::Integer(0)))))
    } else if i == 5 {
        Some(Action::Execute(0, "BEGIN", Arguments::Zero, Expected::Done))
    } else if i == 6 {
        Some(Action::Execute(0, "INSERT INTO logs(ts,level,message) VALUES (20,'info','save_outer')", Arguments::Zero, Expected::Done))
    } else if i == 7 {
        Some(Action::Execute(0, "SAVEPOINT logs_sp", Arguments::Zero, Expected::Done))
    } else if i == 8 {
        Some(Action::Execute(0, "INSERT INTO logs(ts,level,message) VALUES (21,'error','save_inner')", Arguments::Zero, Expected::Done))
    } else if i == 9 {
        Some(Action::Execute(0, "ROLLBACK TO logs_sp", Arguments::Zero, Expected::Done))
    } else if i == 10 {
        Some(Action::Execute(0, "RELEASE logs_sp", Arguments::Zero, Expected::Done))
    } else if i == 11 {
        Some(Action::Autocommit(0, false))
    } else if i == 12 {
        Some(Action::Execute(0, "COMMIT", Arguments::Zero, Expected::Done))
    } else if i == 13 {
        Some(Action::Query(0, "SELECT COUNT(*) FROM logs WHERE message='save_outer'", Arguments::Zero, Expected::First(Row::One(Literal::Integer(1)))))
    } else if i == 14 {
        Some(Action::Query(0, "SELECT COUNT(*) FROM logs WHERE message='save_inner'", Arguments::Zero, Expected::First(Row::One(Literal::Integer(0)))))
    } else if i == 15 {
        Some(Action::Execute(0, "BEGIN", Arguments::Zero, Expected::Done))
    } else if i == 16 {
        Some(Action::Execute(0, "INSERT INTO traces(trace_id,span_id,name,service,start_ts) VALUES (x'11111111111111111111111111111111',x'1111111111111111','save_outer','svc',20)", Arguments::Zero, Expected::Done))
    } else if i == 17 {
        Some(Action::Execute(0, "SAVEPOINT traces_sp", Arguments::Zero, Expected::Done))
    } else if i == 18 {
        Some(Action::Execute(0, "INSERT INTO traces(trace_id,span_id,name,service,start_ts) VALUES (x'22222222222222222222222222222222',x'2222222222222222','save_inner','svc',21)", Arguments::Zero, Expected::Done))
    } else if i == 19 {
        Some(Action::Execute(0, "ROLLBACK TO traces_sp", Arguments::Zero, Expected::Done))
    } else if i == 20 {
        Some(Action::Execute(0, "RELEASE traces_sp", Arguments::Zero, Expected::Done))
    } else if i == 21 {
        Some(Action::Autocommit(0, false))
    } else if i == 22 {
        Some(Action::Execute(0, "COMMIT", Arguments::Zero, Expected::Done))
    } else if i == 23 {
        Some(Action::Query(0, "SELECT COUNT(*) FROM traces WHERE name='save_outer'", Arguments::Zero, Expected::First(Row::One(Literal::Integer(1)))))
    } else {
        None
    }
}

fn run_part_2(i: usize) -> (action: Option<Action>)
    ensures
        action == run_part_2_at(i as int),
{
    if i == 0 {
        Some(Action::Execute(0, "RELEASE metrics_sp", Arguments::Zero, Expected::Done))
    } else if i == 1 {
        Some(Action::Autocommit(0, false))
    } else if i == 2 {
        Some(Action::Execute(0, "COMMIT", Arguments::Zero, Expected::Done))
    } else if i == 3 {
        Some(Action::Query(0, "SELECT COUNT(*) FROM metrics WHERE name='save_outer'", Arguments::Zero, Expected::First(Row::One(Literal::Integer(1)))))
    } else if i == 4 {
        Some(Action::Query(0, "SELECT COUNT(*) FROM metrics WHERE name='save_inner'", Arguments::Zero, Expected::First(Row::One(Literal::Integer(0)))))
    } else if i == 5 {
        Some(Action::Execute(0, "BEGIN", Arguments::Zero, Expected::Done))
    } else if i == 6 {
        Some(Action::Execute(0, "INSERT INTO logs(ts,level,message) VALUES (20,'info','save_outer')", Arguments::Zero, Expected::Done))
    } else if i == 7 {
        Some(Action::Execute(0, "SAVEPOINT logs_sp", Arguments::Zero, Expected::Done))
    } else if i == 8 {
        Some(Action::Execute(0, "INSERT INTO logs(ts,level,message) VALUES (21,'error','save_inner')", Arguments::Zero, Expected::Done))
    } else if i == 9 {
        Some(Action::Execute(0, "ROLLBACK TO logs_sp", Arguments::Zero, Expected::Done))
    } else if i == 10 {
        Some(Action::Execute(0, "RELEASE logs_sp", Arguments::Zero, Expected::Done))
    } else if i == 11 {
        Some(Action::Autocommit(0, false))
    } else if i == 12 {
        Some(Action::Execute(0, "COMMIT", Arguments::Zero, Expected::Done))
    } else if i == 13 {
        Some(Action::Query(0, "SELECT COUNT(*) FROM logs WHERE message='save_outer'", Arguments::Zero, Expected::First(Row::One(Literal::Integer(1)))))
    } else if i == 14 {
        Some(Action::Query(0, "SELECT COUNT(*) FROM logs WHERE message='save_inner'", Arguments::Zero, Expected::First(Row::One(Literal::Integer(0)))))
    } else if i == 15 {
        Some(Action::Execute(0, "BEGIN", Arguments::Zero, Expected::Done))
    } else if i == 16 {
        Some(Action::Execute(0, "INSERT INTO traces(trace_id,span_id,name,service,start_ts) VALUES (x'11111111111111111111111111111111',x'1111111111111111','save_outer','svc',20)", Arguments::Zero, Expected::Done))
    } else if i == 17 {
        Some(Action::Execute(0, "SAVEPOINT traces_sp", Arguments::Zero, Expected::Done))
    } else if i == 18 {
        Some(Action::Execute(0, "INSERT INTO traces(trace_id,span_id,name,service,start_ts) VALUES (x'22222222222222222222222222222222',x'2222222222222222','save_inner','svc',21)", Arguments::Zero, Expected::Done))
    } else if i == 19 {
        Some(Action::Execute(0, "ROLLBACK TO traces_sp", Arguments::Zero, Expected::Done))
    } else if i == 20 {
        Some(Action::Execute(0, "RELEASE traces_sp", Arguments::Zero, Expected::Done))
    } else if i == 21 {
        Some(Action::Autocommit(0, false))
    } else if i == 22 {
        Some(Action::Execute(0, "COMMIT", Arguments::Zero, Expected::Done))
    } else if i == 23 {
        Some(Action::Query(0, "SELECT COUNT(*) FROM traces WHERE name='save_outer'", Arguments::Zero, Expected::First(Row::One(Literal::Integer(1)))))
    } else {
        None
    }
}

/// A part of the script.
pub open spec fn run_part_3_at(i: int) -> Option<Action> {
    if i == 0 {
        Some(Action::Query(0, "SELECT COUNT(*) FROM traces WHERE name='save_inner'", Arguments::Zero, Expected::First(Row::One(Literal::Integer(0)))))
    } else if i == 1 {
        Some(Action::Execute(0, "BEGIN", Arguments::Zero, Expected::Done))
    } else if i == 2 {
        Some(Action::Execute(0, "SAVEPOINT metrics_before_begin", Arguments::Zero, Expected::Done))
    } else if i == 3 {
        Some(Action::Execute(0, "INSERT INTO metrics(name,ts,value) VALUES ('late_participant',30,3.0)", Arguments::Zero, Expected::Done))
    } else if i == 4 {
        Some(Action::Execute(0, "ROLLBACK TO metrics_before_begin", Arguments::Zero, Expected::Done))
    } else if i == 5 {
        Some(Action::Execute(0, "RELEASE metrics_before_begin", Arguments::Zero, Expected::Done))
    } else if i == 6 {
        Some(Action::Execute(0, "COMMIT", Arguments::Zero, Expected::Done))
    } else if i == 7 {
        Some(Action::Query(0, "SELECT COUNT(*) FROM metrics WHERE name='late_participant'", Arguments::Zero, Expected::First(Row::One(Literal::Integer(0)))))
    } else if i == 8 {
        Some(Action::Execute(0, "BEGIN", Arguments::Zero, Expected::Done))
    } else if i == 9 {
        Some(Action::Execute(0, "SAVEPOINT logs_before_begin", Arguments::Zero, Expected::Done))
    } else if i == 10 {
        Some(Action::Execute(0, "INSERT INTO logs(ts,level,message) VALUES (30,'info','late_participant')", Arguments::Zero, Expected::Done))
    } else if i == 11 {
        Some(Action::Execute(0, "ROLLBACK TO logs_before_begin", Arguments::Zero, Expected::Done))
    } else if i == 12 {
        Some(Action::Execute(0, "RELEASE logs_before_begin", Arguments::Zero, Expected::Done))
    } else if i == 13 {
        Some(Action::Execute(0, "COMMIT", Arguments::Zero, Expected::Done))
    } else if i == 14 {
        Some(Action::Query(0, "SELECT COUNT(*) FROM logs WHERE message='late_participant'", Arguments::Zero, Expected::First(Row::One(Literal::Integer(0)))))
    } else if i == 15 {
        Some(Action::Execute(0, "BEGIN", Arguments::Zero, Expected::Done))
    } else if i == 16 {
        Some(Action::Execute(0, "SAVEPOINT traces_before_begin", Arguments::Zero, Expected::Done))
    } else if i == 17 {
        Some(Action::Execute(0, "INSERT INTO traces(trace_id,span_id,name,service,start_ts) VALUES (x'30303030303030303030303030303030',x'3030303030303030','late_participant','svc',30)", Arguments::Zero, Expected::Done))
    } else if i == 18 {
        Some(Action::Execute(0, "ROLLBACK TO traces_before_begin", Arguments::Zero, Expected::Done))
    } else if i == 19 {
        Some(Action::Execute(0, "RELEASE traces_before_begin", Arguments::Zero, Expected::Done))
    } else if i == 20 {
        Some(Action::Execute(0, "COMMIT", Arguments::Zero, Expected::Done))
    } else if i == 21 {
        Some(Action::Query(0, "SELECT COUNT(*) FROM traces WHERE name='late_participant'", Arguments::Zero, Expected::First(Row::One(Literal::Integer(0)))))
    } else if i == 22 {
        Some(Action::Execute(0, "BEGIN", Arguments::Zero, Expected::Done))
    } else if i == 23 {
        Some(Action::Execute(0, "SAVEPOINT metrics_released", Arguments::Zero, Expected::Done))
    } else {
        None
    }
}

fn run_part_3(i: usize) -> (action: Option<Action>)
    ensures
        action == run_part_3_at(i as int),
{
    if i == 0 {
        Some(Action::Query(0, "SELECT COUNT(*) FROM traces WHERE name='save_inner'", Arguments::Zero, Expected::First(Row::One(Literal::Integer(0)))))
    } else if i == 1 {
        Some(Action::Execute(0, "BEGIN", Arguments::Zero, Expected::Done))
    } else if i == 2 {
        Some(Action::Execute(0, "SAVEPOINT metrics_before_begin", Arguments::Zero, Expected::Done))
    } else if i == 3 {
        Some(Action::Execute(0, "INSERT INTO metrics(name,ts,value) VALUES ('late_participant',30,3.0)", Arguments::Zero, Expected::Done))
    } else if i == 4 {
        Some(Action::Execute(0, "ROLLBACK TO metrics_before_begin", Arguments::Zero, Expected::Done))
    } else if i == 5 {
        Some(Action::Execute(0, "RELEASE metrics_before_begin", Arguments::Zero, Expected::Done))
    } else if i == 6 {
        Some(Action::Execute(0, "COMMIT", Arguments::Zero, Expected::Done))
    } else if i == 7 {
        Some(Action::Query(0, "SELECT COUNT(*) FROM metrics WHERE name='late_participant'", Arguments::Zero, Expected::First(Row::One(Literal::Integer(0)))))
    } else if i == 8 {
        Some(Action::Execute(0, "BEGIN", Arguments::Zero, Expected::Done))
    } else if i == 9 {
        Some(Action::Execute(0, "SAVEPOINT logs_before_begin", Arguments::Zero, Expected::Done))
    } else if i == 10 {
        Some(Action::Execute(0, "INSERT INTO logs(ts,level,message) VALUES (30,'info','late_participant')", Arguments::Zero, Expected::Done))
    } else if i == 11 {
        Some(Action::Execute(0, "ROLLBACK TO logs_before_begin", Arguments::Zero, Expected::Done))
    } else if i == 12 {
        Some(Action::Execute(0, "RELEASE logs_before_begin", Arguments::Zero, Expected::Done))
    } else if i == 13 {
        Some(Action::Execute(0, "COMMIT", Arguments::Zero, Expected::Done))
    } else if i == 14 {
        Some(Action::Query(0, "SELECT COUNT(*) FROM logs WHERE message='late_participant'", Arguments::Zero, Expected::First(Row::One(Literal::Integer(0)))))
    } else if i == 15 {
        Some(Action::Execute(0, "BEGIN", Arguments::Zero, Expected::Done))
    } else if i == 16 {
        Some(Action::Execute(0, "SAVEPOINT traces_before_begin", Arguments::Zero, Expected::Done))
    } else if i == 17 {
        Some(Action::Execute(0, "INSERT INTO traces(trace_id,span_id,name,service,start_ts) VALUES (x'30303030303030303030303030303030',x'3030303030303030','late_participant','svc',30)", Arguments::Zero, Expected::Done))
    } else if i == 18 {
        Some(Action::Execute(0, "ROLLBACK TO traces_before_begin", Arguments::Zero, Expected::Done))
    } else if i == 19 {
        Some(Action::Execute(0, "RELEASE traces_before_begin", Arguments::Zero, Expected::Done))
    } else if i == 20 {
        Some(Action::Execute(0, "COMMIT", Arguments::Zero, Expected::Done))
    } else if i == 21 {
        Some(Action::Query(0, "SELECT COUNT(*) FROM traces WHERE name='late_participant'", Arguments::Zero, Expected::First(Row::One(Literal::Integer(0)))))
    } else if i == 22 {
        Some(Action::Execute(0, "BEGIN", Arguments::Zero, Expected::Done))
    } else if i == 23 {
        Some(Action::Execute(0, "SAVEPOINT metrics_released", Arguments::Zero, Expected::Done))
    } else {
        None
    }
}

/// A part of the script.
pub open spec fn run_part_4_at(i: int) -> Option<Action> {
    if i == 0 {
        Some(Action::Execute(0, "INSERT INTO metrics(name,ts,value) VALUES ('released_then_rolled_back',30,3.0)", Arguments::Zero, Expected::Done))
    } else if i == 1 {
        Some(Action::Execute(0, "RELEASE metrics_released", Arguments::Zero, Expected::Done))
    } else if i == 2 {
        Some(Action::Execute(0, "ROLLBACK", Arguments::Zero, Expected::Done))
    } else if i == 3 {
        Some(Action::Query(0, "SELECT COUNT(*) FROM metrics WHERE name='released_then_rolled_back'", Arguments::Zero, Expected::First(Row::One(Literal::Integer(0)))))
    } else if i == 4 {
        Some(Action::Execute(0, "BEGIN", Arguments::Zero, Expected::Done))
    } else if i == 5 {
        Some(Action::Execute(0, "SAVEPOINT logs_released", Arguments::Zero, Expected::Done))
    } else if i == 6 {
        Some(Action::Execute(0, "INSERT INTO logs(ts,level,message) VALUES (30,'info','released_then_rolled_back')", Arguments::Zero, Expected::Done))
    } else if i == 7 {
        Some(Action::Execute(0, "RELEASE logs_released", Arguments::Zero, Expected::Done))
    } else if i == 8 {
        Some(Action::Execute(0, "ROLLBACK", Arguments::Zero, Expected::Done))
    } else if i == 9 {
        Some(Action::Query(0, "SELECT COUNT(*) FROM logs WHERE message='released_then_rolled_back'", Arguments::Zero, Expected::First(Row::One(Literal::Integer(0)))))
    } else if i == 10 {
        Some(Action::Execute(0, "BEGIN", Arguments::Zero, Expected::Done))
    } else if i == 11 {
        Some(Action::Execute(0, "SAVEPOINT traces_released", Arguments::Zero, Expected::Done))
    } else if i == 12 {
        Some(Action::Execute(0, "INSERT INTO traces(trace_id,span_id,name,service,start_ts) VALUES (x'30303030303030303030303030303030',x'3030303030303030','released_then_rolled_back','svc',30)", Arguments::Zero, Expected::Done))
    } else if i == 13 {
        Some(Action::Execute(0, "RELEASE traces_released", Arguments::Zero, Expected::Done))
    } else if i == 14 {
        Some(Action::Execute(0, "ROLLBACK", Arguments::Zero, Expected::Done))
    } else if i == 15 {
        Some(Action::Query(0, "SELECT COUNT(*) FROM traces WHERE name='released_then_rolled_back'", Arguments::Zero, Expected::First(Row::One(Literal::Integer(0)))))
    } else if i == 16 {
        Some(Action::Batch(0, "CREATE VIRTUAL TABLE metrics_maint USING timeless_metrics; CREATE VIRTUAL TABLE logs_maint USING timeless_logs; CREATE VIRTUAL TABLE traces_maint USING timeless_traces; INSERT INTO metrics_maint(name,ts,value) VALUES ('old',1,1.0); INSERT INTO metrics_maint(metrics_maint) VALUES ('flush'); INSERT INTO metrics_maint(name,ts,value) VALUES ('buffered',2,2.0); INSERT INTO logs_maint(ts,level,message) VALUES (1,'info','old'); INSERT INTO logs_maint(logs_maint) VALUES ('flush'); INSERT INTO logs_maint(ts,level,message) VALUES (2,'info','buffered'); INSERT INTO traces_maint(trace_id,span_id,name,service,start_ts) VALUES (x'01010101010101010101010101010101',x'0101010101010101','old','svc',1); INSERT INTO traces_maint(traces_maint) VALUES ('flush'); INSERT INTO traces_maint(trace_id,span_id,name,service,start_ts) VALUES (x'02020202020202020202020202020202',x'0202020202020202','buffered','svc',2);", Expected::Done))
    } else if i == 17 {
        Some(Action::Execute(0, "BEGIN", Arguments::Zero, Expected::Done))
    } else if i == 18 {
        Some(Action::Execute(0, "INSERT INTO metrics_maint(name,ts,value) VALUES ('outer',3,3.0)", Arguments::Zero, Expected::Done))
    } else if i == 19 {
        Some(Action::Execute(0, "SAVEPOINT metrics_maint_maintenance", Arguments::Zero, Expected::Done))
    } else if i == 20 {
        Some(Action::Execute(0, "INSERT INTO metrics_maint(metrics_maint) VALUES ('flush')", Arguments::Zero, Expected::Done))
    } else if i == 21 {
        Some(Action::Execute(0, "INSERT INTO metrics_maint(metrics_maint) VALUES ('compact')", Arguments::Zero, Expected::Done))
    } else if i == 22 {
        Some(Action::Execute(0, "INSERT INTO metrics_maint(metrics_maint) VALUES ('prune:1000')", Arguments::Zero, Expected::Done))
    } else if i == 23 {
        Some(Action::Query(0, "SELECT COUNT(*) FROM metrics_maint", Arguments::Zero, Expected::First(Row::One(Literal::Integer(0)))))
    } else {
        None
    }
}

fn run_part_4(i: usize) -> (action: Option<Action>)
    ensures
        action == run_part_4_at(i as int),
{
    if i == 0 {
        Some(Action::Execute(0, "INSERT INTO metrics(name,ts,value) VALUES ('released_then_rolled_back',30,3.0)", Arguments::Zero, Expected::Done))
    } else if i == 1 {
        Some(Action::Execute(0, "RELEASE metrics_released", Arguments::Zero, Expected::Done))
    } else if i == 2 {
        Some(Action::Execute(0, "ROLLBACK", Arguments::Zero, Expected::Done))
    } else if i == 3 {
        Some(Action::Query(0, "SELECT COUNT(*) FROM metrics WHERE name='released_then_rolled_back'", Arguments::Zero, Expected::First(Row::One(Literal::Integer(0)))))
    } else if i == 4 {
        Some(Action::Execute(0, "BEGIN", Arguments::Zero, Expected::Done))
    } else if i == 5 {
        Some(Action::Execute(0, "SAVEPOINT logs_released", Arguments::Zero, Expected::Done))
    } else if i == 6 {
        Some(Action::Execute(0, "INSERT INTO logs(ts,level,message) VALUES (30,'info','released_then_rolled_back')", Arguments::Zero, Expected::Done))
    } else if i == 7 {
        Some(Action::Execute(0, "RELEASE logs_released", Arguments::Zero, Expected::Done))
    } else if i == 8 {
        Some(Action::Execute(0, "ROLLBACK", Arguments::Zero, Expected::Done))
    } else if i == 9 {
        Some(Action::Query(0, "SELECT COUNT(*) FROM logs WHERE message='released_then_rolled_back'", Arguments::Zero, Expected::First(Row::One(Literal::Integer(0)))))
    } else if i == 10 {
        Some(Action::Execute(0, "BEGIN", Arguments::Zero, Expected::Done))
    } else if i == 11 {
        Some(Action::Execute(0, "SAVEPOINT traces_released", Arguments::Zero, Expected::Done))
    } else if i == 12 {
        Some(Action::Execute(0, "INSERT INTO traces(trace_id,span_id,name,service,start_ts) VALUES (x'30303030303030303030303030303030',x'3030303030303030','released_then_rolled_back','svc',30)", Arguments::Zero, Expected::Done))
    } else if i == 13 {
        Some(Action::Execute(0, "RELEASE traces_released", Arguments::Zero, Expected::Done))
    } else if i == 14 {
        Some(Action::Execute(0, "ROLLBACK", Arguments::Zero, Expected::Done))
    } else if i == 15 {
        Some(Action::Query(0, "SELECT COUNT(*) FROM traces WHERE name='released_then_rolled_back'", Arguments::Zero, Expected::First(Row::One(Literal::Integer(0)))))
    } else if i == 16 {
        Some(Action::Batch(0, "CREATE VIRTUAL TABLE metrics_maint USING timeless_metrics; CREATE VIRTUAL TABLE logs_maint USING timeless_logs; CREATE VIRTUAL TABLE traces_maint USING timeless_traces; INSERT INTO metrics_maint(name,ts,value) VALUES ('old',1,1.0); INSERT INTO metrics_maint(metrics_maint) VALUES ('flush'); INSERT INTO metrics_maint(name,ts,value) VALUES ('buffered',2,2.0); INSERT INTO logs_maint(ts,level,message) VALUES (1,'info','old'); INSERT INTO logs_maint(logs_maint) VALUES ('flush'); INSERT INTO logs_maint(ts,level,message) VALUES (2,'info','buffered'); INSERT INTO traces_maint(trace_id,span_id,name,service,start_ts) VALUES (x'01010101010101010101010101010101',x'0101010101010101','old','svc',1); INSERT INTO traces_maint(traces_maint) VALUES ('flush'); INSERT INTO traces_maint(trace_id,span_id,name,service,start_ts) VALUES (x'02020202020202020202020202020202',x'0202020202020202','buffered','svc',2);", Expected::Done))
    } else if i == 17 {
        Some(Action::Execute(0, "BEGIN", Arguments::Zero, Expected::Done))
    } else if i == 18 {
        Some(Action::Execute(0, "INSERT INTO metrics_maint(name,ts,value) VALUES ('outer',3,3.0)", Arguments::Zero, Expected::Done))
    } else if i == 19 {
        Some(Action::Execute(0, "SAVEPOINT metrics_maint_maintenance", Arguments::Zero, Expected::Done))
    } else if i == 20 {
        Some(Action::Execute(0, "INSERT INTO metrics_maint(metrics_maint) VALUES ('flush')", Arguments::Zero, Expected::Done))
    } else if i == 21 {
        Some(Action::Execute(0, "INSERT INTO metrics_maint(metrics_maint) VALUES ('compact')", Arguments::Zero, Expected::Done))
    } else if i == 22 {
        Some(Action::Execute(0, "INSERT INTO metrics_maint(metrics_maint) VALUES ('prune:1000')", Arguments::Zero, Expected::Done))
    } else if i == 23 {
        Some(Action::Query(0, "SELECT COUNT(*) FROM metrics_maint", Arguments::Zero, Expected::First(Row::One(Literal::Integer(0)))))
    } else {
        None
    }
}

/// A part of the script.
pub open spec fn run_part_5_at(i: int) -> Option<Action> {
    if i == 0 {
        Some(Action::Execute(0, "ROLLBACK TO metrics_maint_maintenance", Arguments::Zero, Expected::Done))
    } else if i == 1 {
        Some(Action::Execute(0, "RELEASE metrics_maint_maintenance", Arguments::Zero, Expected::Done))
    } else if i == 2 {
        Some(Action::Execute(0, "COMMIT", Arguments::Zero, Expected::Done))
    } else if i == 3 {
        Some(Action::Query(0, "SELECT COUNT(*) FROM metrics_maint", Arguments::Zero, Expected::First(Row::One(Literal::Integer(3)))))
    } else if i == 4 {
        Some(Action::Query(0, "SELECT COUNT(*) FROM metrics_maint_chunks", Arguments::Zero, Expected::First(Row::One(Literal::Integer(1)))))
    } else if i == 5 {
        Some(Action::Execute(0, "BEGIN", Arguments::Zero, Expected::Done))
    } else if i == 6 {
        Some(Action::Execute(0, "INSERT INTO logs_maint(ts,level,message) VALUES (3,'info','outer')", Arguments::Zero, Expected::Done))
    } else if i == 7 {
        Some(Action::Execute(0, "SAVEPOINT logs_maint_maintenance", Arguments::Zero, Expected::Done))
    } else if i == 8 {
        Some(Action::Execute(0, "INSERT INTO logs_maint(logs_maint) VALUES ('flush')", Arguments::Zero, Expected::Done))
    } else if i == 9 {
        Some(Action::Execute(0, "INSERT INTO logs_maint(logs_maint) VALUES ('optimize')", Arguments::Zero, Expected::Done))
    } else if i == 10 {
        Some(Action::Execute(0, "INSERT INTO logs_maint(logs_maint) VALUES ('prune:1000')", Arguments::Zero, Expected::Done))
    } else if i == 11 {
        Some(Action::Query(0, "SELECT COUNT(*) FROM logs_maint", Arguments::Zero, Expected::First(Row::One(Literal::Integer(0)))))
    } else if i == 12 {
        Some(Action::Execute(0, "ROLLBACK TO logs_maint_maintenance", Arguments::Zero, Expected::Done))
    } else if i == 13 {
        Some(Action::Execute(0, "RELEASE logs_maint_maintenance", Arguments::Zero, Expected::Done))
    } else if i == 14 {
        Some(Action::Execute(0, "COMMIT", Arguments::Zero, Expected::Done))
    } else if i == 15 {
        Some(Action::Query(0, "SELECT COUNT(*) FROM logs_maint", Arguments::Zero, Expected::First(Row::One(Literal::Integer(3)))))
    } else if i == 16 {
        Some(Action::Query(0, "SELECT COUNT(*) FROM logs_maint_blocks", Arguments::Zero, Expected::First(Row::One(Literal::Integer(1)))))
    } else if i == 17 {
        Some(Action::Execute(0, "BEGIN", Arguments::Zero, Expected::Done))
    } else if i == 18 {
        Some(Action::Execute(0, "INSERT INTO traces_maint(trace_id,span_id,name,service,start_ts) VALUES (x'03030303030303030303030303030303',x'0303030303030303','outer','svc',3)", Arguments::Zero, Expected::Done))
    } else if i == 19 {
        Some(Action::Execute(0, "SAVEPOINT traces_maint_maintenance", Arguments::Zero, Expected::Done))
    } else if i == 20 {
        Some(Action::Execute(0, "INSERT INTO traces_maint(traces_maint) VALUES ('flush')", Arguments::Zero, Expected::Done))
    } else if i == 21 {
        Some(Action::Execute(0, "INSERT INTO traces_maint(traces_maint) VALUES ('optimize')", Arguments::Zero, Expected::Done))
    } else if i == 22 {
        Some(Action::Execute(0, "INSERT INTO traces_maint(traces_maint) VALUES ('prune:1000')", Arguments::Zero, Expected::Done))
    } else if i == 23 {
        Some(Action::Query(0, "SELECT COUNT(*) FROM traces_maint", Arguments::Zero, Expected::First(Row::One(Literal::Integer(0)))))
    } else {
        None
    }
}

fn run_part_5(i: usize) -> (action: Option<Action>)
    ensures
        action == run_part_5_at(i as int),
{
    if i == 0 {
        Some(Action::Execute(0, "ROLLBACK TO metrics_maint_maintenance", Arguments::Zero, Expected::Done))
    } else if i == 1 {
        Some(Action::Execute(0, "RELEASE metrics_maint_maintenance", Arguments::Zero, Expected::Done))
    } else if i == 2 {
        Some(Action::Execute(0, "COMMIT", Arguments::Zero, Expected::Done))
    } else if i == 3 {
        Some(Action::Query(0, "SELECT COUNT(*) FROM metrics_maint", Arguments::Zero, Expected::First(Row::One(Literal::Integer(3)))))
    } else if i == 4 {
        Some(Action::Query(0, "SELECT COUNT(*) FROM metrics_maint_chunks", Arguments::Zero, Expected::First(Row::One(Literal::Integer(1)))))
    } else if i == 5 {
        Some(Action::Execute(0, "BEGIN", Arguments::Zero, Expected::Done))
    } else if i == 6 {
        Some(Action::Execute(0, "INSERT INTO logs_maint(ts,level,message) VALUES (3,'info','outer')", Arguments::Zero, Expected::Done))
    } else if i == 7 {
        Some(Action::Execute(0, "SAVEPOINT logs_maint_maintenance", Arguments::Zero, Expected::Done))
    } else if i == 8 {
        Some(Action::Execute(0, "INSERT INTO logs_maint(logs_maint) VALUES ('flush')", Arguments::Zero, Expected::Done))
    } else if i == 9 {
        Some(Action::Execute(0, "INSERT INTO logs_maint(logs_maint) VALUES ('optimize')", Arguments::Zero, Expected::Done))
    } else if i == 10 {
        Some(Action::Execute(0, "INSERT INTO logs_maint(logs_maint) VALUES ('prune:1000')", Arguments::Zero, Expected::Done))
    } else if i == 11 {
        Some(Action::Query(0, "SELECT COUNT(*) FROM logs_maint", Arguments::Zero, Expected::First(Row::One(Literal::Integer(0)))))
    } else if i == 12 {
        Some(Action::Execute(0, "ROLLBACK TO logs_maint_maintenance", Arguments::Zero, Expected::Done))
    } else if i == 13 {
        Some(Action::Execute(0, "RELEASE logs_maint_maintenance", Arguments::Zero, Expected::Done))
    } else if i == 14 {
        Some(Action::Execute(0, "COMMIT", Arguments::Zero, Expected::Done))
    } else if i == 15 {
        Some(Action::Query(0, "SELECT COUNT(*) FROM logs_maint", Arguments::Zero, Expected::First(Row::One(Literal::Integer(3)))))
    } else if i == 16 {
        Some(Action::Query(0, "SELECT COUNT(*) FROM logs_maint_blocks", Arguments::Zero, Expected::First(Row::One(Literal::Integer(1)))))
    } else if i == 17 {
        Some(Action::Execute(0, "BEGIN", Arguments::Zero, Expected::Done))
    } else if i == 18 {
        Some(Action::Execute(0, "INSERT INTO traces_maint(trace_id,span_id,name,service,start_ts) VALUES (x'03030303030303030303030303030303',x'0303030303030303','outer','svc',3)", Arguments::Zero, Expected::Done))
    } else if i == 19 {
        Some(Action::Execute(0, "SAVEPOINT traces_maint_maintenance", Arguments::Zero, Expected::Done))
    } else if i == 20 {
        Some(Action::Execute(0, "INSERT INTO traces_maint(traces_maint) VALUES ('flush')", Arguments::Zero, Expected::Done))
    } else if i == 21 {
        Some(Action::Execute(0, "INSERT INTO traces_maint(traces_maint) VALUES ('optimize')", Arguments::Zero, Expected::Done))
    } else if i == 22 {
        Some(Action::Execute(0, "INSERT INTO traces_maint(traces_maint) VALUES ('prune:1000')", Arguments::Zero, Expected::Done))
    } else if i == 23 {
        Some(Action::Query(0, "SELECT COUNT(*) FROM traces_maint", Arguments::Zero, Expected::First(Row::One(Literal::Integer(0)))))
    } else {
        None
    }
}

/// A part of the script.
pub open spec fn run_part_6_at(i: int) -> Option<Action> {
    if i == 0 {
        Some(Action::Execute(0, "ROLLBACK TO traces_maint_maintenance", Arguments::Zero, Expected::Done))
    } else if i == 1 {
        Some(Action::Execute(0, "RELEASE traces_maint_maintenance", Arguments::Zero, Expected::Done))
    } else if i == 2 {
        Some(Action::Execute(0, "COMMIT", Arguments::Zero, Expected::Done))
    } else if i == 3 {
        Some(Action::Query(0, "SELECT COUNT(*) FROM traces_maint", Arguments::Zero, Expected::First(Row::One(Literal::Integer(3)))))
    } else if i == 4 {
        Some(Action::Query(0, "SELECT COUNT(*) FROM traces_maint_blocks", Arguments::Zero, Expected::First(Row::One(Literal::Integer(1)))))
    } else if i == 5 {
        Some(Action::Batch(0, "INSERT INTO metrics(metrics) VALUES ('flush'); INSERT INTO logs(logs) VALUES ('flush'); INSERT INTO traces(traces) VALUES ('flush'); INSERT INTO metrics_maint(metrics_maint) VALUES ('flush'); INSERT INTO logs_maint(logs_maint) VALUES ('flush'); INSERT INTO traces_maint(traces_maint) VALUES ('flush');", Expected::Done))
    } else if i == 6 {
        Some(Action::Close(0))
    } else if i == 7 {
        Some(Action::Open(0, Database::Named("r1.db")))
    } else if i == 8 {
        Some(Action::Query(0, "SELECT COUNT(*) FROM metrics WHERE name='stmt_bad'", Arguments::Zero, Expected::First(Row::One(Literal::Integer(0)))))
    } else if i == 9 {
        Some(Action::Query(0, "SELECT COUNT(*) FROM metrics WHERE name='autocommit_bad'", Arguments::Zero, Expected::First(Row::One(Literal::Integer(0)))))
    } else if i == 10 {
        Some(Action::Query(0, "SELECT COUNT(*) FROM logs WHERE message='stmt_bad'", Arguments::Zero, Expected::First(Row::One(Literal::Integer(0)))))
    } else if i == 11 {
        Some(Action::Query(0, "SELECT COUNT(*) FROM logs WHERE message='autocommit_bad'", Arguments::Zero, Expected::First(Row::One(Literal::Integer(0)))))
    } else if i == 12 {
        Some(Action::Query(0, "SELECT COUNT(*) FROM traces WHERE name='stmt_bad'", Arguments::Zero, Expected::First(Row::One(Literal::Integer(0)))))
    } else if i == 13 {
        Some(Action::Query(0, "SELECT COUNT(*) FROM traces WHERE name='autocommit_bad'", Arguments::Zero, Expected::First(Row::One(Literal::Integer(0)))))
    } else if i == 14 {
        Some(Action::Query(0, "SELECT COUNT(*) FROM logs WHERE message='threshold_bad'", Arguments::Zero, Expected::First(Row::One(Literal::Integer(0)))))
    } else if i == 15 {
        Some(Action::Query(0, "SELECT COUNT(*) FROM traces WHERE name='threshold_bad'", Arguments::Zero, Expected::First(Row::One(Literal::Integer(0)))))
    } else if i == 16 {
        Some(Action::Query(0, "SELECT COUNT(*) FROM metrics WHERE name='save_outer'", Arguments::Zero, Expected::First(Row::One(Literal::Integer(1)))))
    } else if i == 17 {
        Some(Action::Query(0, "SELECT COUNT(*) FROM metrics WHERE name='save_inner'", Arguments::Zero, Expected::First(Row::One(Literal::Integer(0)))))
    } else if i == 18 {
        Some(Action::Query(0, "SELECT COUNT(*) FROM logs WHERE message='save_outer'", Arguments::Zero, Expected::First(Row::One(Literal::Integer(1)))))
    } else if i == 19 {
        Some(Action::Query(0, "SELECT COUNT(*) FROM logs WHERE message='save_inner'", Arguments::Zero, Expected::First(Row::One(Literal::Integer(0)))))
    } else if i == 20 {
        Some(Action::Query(0, "SELECT COUNT(*) FROM traces WHERE name='save_outer'", Arguments::Zero, Expected::First(Row::One(Literal::Integer(1)))))
    } else if i == 21 {
        Some(Action::Query(0, "SELECT COUNT(*) FROM traces WHERE name='save_inner'", Arguments::Zero, Expected::First(Row::One(Literal::Integer(0)))))
    } else if i == 22 {
        Some(Action::Query(0, "SELECT COUNT(*) FROM metrics WHERE name='late_participant'", Arguments::Zero, Expected::First(Row::One(Literal::Integer(0)))))
    } else if i == 23 {
        Some(Action::Query(0, "SELECT COUNT(*) FROM metrics WHERE name='released_then_rolled_back'", Arguments::Zero, Expected::First(Row::One(Literal::Integer(0)))))
    } else {
        None
    }
}

fn run_part_6(i: usize) -> (action: Option<Action>)
    ensures
        action == run_part_6_at(i as int),
{
    if i == 0 {
        Some(Action::Execute(0, "ROLLBACK TO traces_maint_maintenance", Arguments::Zero, Expected::Done))
    } else if i == 1 {
        Some(Action::Execute(0, "RELEASE traces_maint_maintenance", Arguments::Zero, Expected::Done))
    } else if i == 2 {
        Some(Action::Execute(0, "COMMIT", Arguments::Zero, Expected::Done))
    } else if i == 3 {
        Some(Action::Query(0, "SELECT COUNT(*) FROM traces_maint", Arguments::Zero, Expected::First(Row::One(Literal::Integer(3)))))
    } else if i == 4 {
        Some(Action::Query(0, "SELECT COUNT(*) FROM traces_maint_blocks", Arguments::Zero, Expected::First(Row::One(Literal::Integer(1)))))
    } else if i == 5 {
        Some(Action::Batch(0, "INSERT INTO metrics(metrics) VALUES ('flush'); INSERT INTO logs(logs) VALUES ('flush'); INSERT INTO traces(traces) VALUES ('flush'); INSERT INTO metrics_maint(metrics_maint) VALUES ('flush'); INSERT INTO logs_maint(logs_maint) VALUES ('flush'); INSERT INTO traces_maint(traces_maint) VALUES ('flush');", Expected::Done))
    } else if i == 6 {
        Some(Action::Close(0))
    } else if i == 7 {
        Some(Action::Open(0, Database::Named("r1.db")))
    } else if i == 8 {
        Some(Action::Query(0, "SELECT COUNT(*) FROM metrics WHERE name='stmt_bad'", Arguments::Zero, Expected::First(Row::One(Literal::Integer(0)))))
    } else if i == 9 {
        Some(Action::Query(0, "SELECT COUNT(*) FROM metrics WHERE name='autocommit_bad'", Arguments::Zero, Expected::First(Row::One(Literal::Integer(0)))))
    } else if i == 10 {
        Some(Action::Query(0, "SELECT COUNT(*) FROM logs WHERE message='stmt_bad'", Arguments::Zero, Expected::First(Row::One(Literal::Integer(0)))))
    } else if i == 11 {
        Some(Action::Query(0, "SELECT COUNT(*) FROM logs WHERE message='autocommit_bad'", Arguments::Zero, Expected::First(Row::One(Literal::Integer(0)))))
    } else if i == 12 {
        Some(Action::Query(0, "SELECT COUNT(*) FROM traces WHERE name='stmt_bad'", Arguments::Zero, Expected::First(Row::One(Literal::Integer(0)))))
    } else if i == 13 {
        Some(Action::Query(0, "SELECT COUNT(*) FROM traces WHERE name='autocommit_bad'", Arguments::Zero, Expected::First(Row::One(Literal::Integer(0)))))
    } else if i == 14 {
        Some(Action::Query(0, "SELECT COUNT(*) FROM logs WHERE message='threshold_bad'", Arguments::Zero, Expected::First(Row::One(Literal::Integer(0)))))
    } else if i == 15 {
        Some(Action::Query(0, "SELECT COUNT(*) FROM traces WHERE name='threshold_bad'", Arguments::Zero, Expected::First(Row::One(Literal::Integer(0)))))
    } else if i == 16 {
        Some(Action::Query(0, "SELECT COUNT(*) FROM metrics WHERE name='save_outer'", Arguments::Zero, Expected::First(Row::One(Literal::Integer(1)))))
    } else if i == 17 {
        Some(Action::Query(0, "SELECT COUNT(*) FROM metrics WHERE name='save_inner'", Arguments::Zero, Expected::First(Row::One(Literal::Integer(0)))))
    } else if i == 18 {
        Some(Action::Query(0, "SELECT COUNT(*) FROM logs WHERE message='save_outer'", Arguments::Zero, Expected::First(Row::One(Literal::Integer(1)))))
    } else if i == 19 {
        Some(Action::Query(0, "SELECT COUNT(*) FROM logs WHERE message='save_inner'", Arguments::Zero, Expected::First(Row::One(Literal::Integer(0)))))
    } else if i == 20 {
        Some(Action::Query(0, "SELECT COUNT(*) FROM traces WHERE name='save_outer'", Arguments::Zero, Expected::First(Row::One(Literal::Integer(1)))))
    } else if i == 21 {
        Some(Action::Query(0, "SELECT COUNT(*) FROM traces WHERE name='save_inner'", Arguments::Zero, Expected::First(Row::One(Literal::Integer(0)))))
    } else if i == 22 {
        Some(Action::Query(0, "SELECT COUNT(*) FROM metrics WHERE name='late_participant'", Arguments::Zero, Expected::First(Row::One(Literal::Integer(0)))))
    } else if i == 23 {
        Some(Action::Query(0, "SELECT COUNT(*) FROM metrics WHERE name='released_then_rolled_back'", Arguments::Zero, Expected::First(Row::One(Literal::Integer(0)))))
    } else {
        None
    }
}

/// A part of the script.
pub open spec fn run_part_7_at(i: int) -> Option<Action> {
    if i == 0 {
        Some(Action::Query(0, "SELECT COUNT(*) FROM logs WHERE message='late_participant'", Arguments::Zero, Expected::First(Row::One(Literal::Integer(0)))))
    } else if i == 1 {
        Some(Action::Query(0, "SELECT COUNT(*) FROM logs WHERE message='released_then_rolled_back'", Arguments::Zero, Expected::First(Row::One(Literal::Integer(0)))))
    } else if i == 2 {
        Some(Action::Query(0, "SELECT COUNT(*) FROM traces WHERE name='late_participant'", Arguments::Zero, Expected::First(Row::One(Literal::Integer(0)))))
    } else if i == 3 {
        Some(Action::Query(0, "SELECT COUNT(*) FROM traces WHERE name='released_then_rolled_back'", Arguments::Zero, Expected::First(Row::One(Literal::Integer(0)))))
    } else if i == 4 {
        Some(Action::Query(0, "SELECT COUNT(*) FROM metrics_maint", Arguments::Zero, Expected::First(Row::One(Literal::Integer(3)))))
    } else if i == 5 {
        Some(Action::Query(0, "SELECT COUNT(*) FROM logs_maint", Arguments::Zero, Expected::First(Row::One(Literal::Integer(3)))))
    } else if i == 6 {
        Some(Action::Query(0, "SELECT COUNT(*) FROM traces_maint", Arguments::Zero, Expected::First(Row::One(Literal::Integer(3)))))
    } else if i == 7 {
        Some(Action::Pass("PASS: statement, savepoint, auto-flush, and maintenance rollback are atomic"))
    } else {
        None
    }
}

fn run_part_7(i: usize) -> (action: Option<Action>)
    ensures
        action == run_part_7_at(i as int),
{
    if i == 0 {
        Some(Action::Query(0, "SELECT COUNT(*) FROM logs WHERE message='late_participant'", Arguments::Zero, Expected::First(Row::One(Literal::Integer(0)))))
    } else if i == 1 {
        Some(Action::Query(0, "SELECT COUNT(*) FROM logs WHERE message='released_then_rolled_back'", Arguments::Zero, Expected::First(Row::One(Literal::Integer(0)))))
    } else if i == 2 {
        Some(Action::Query(0, "SELECT COUNT(*) FROM traces WHERE name='late_participant'", Arguments::Zero, Expected::First(Row::One(Literal::Integer(0)))))
    } else if i == 3 {
        Some(Action::Query(0, "SELECT COUNT(*) FROM traces WHERE name='released_then_rolled_back'", Arguments::Zero, Expected::First(Row::One(Literal::Integer(0)))))
    } else if i == 4 {
        Some(Action::Query(0, "SELECT COUNT(*) FROM metrics_maint", Arguments::Zero, Expected::First(Row::One(Literal::Integer(3)))))
    } else if i == 5 {
        Some(Action::Query(0, "SELECT COUNT(*) FROM logs_maint", Arguments::Zero, Expected::First(Row::One(Literal::Integer(3)))))
    } else if i == 6 {
        Some(Action::Query(0, "SELECT COUNT(*) FROM traces_maint", Arguments::Zero, Expected::First(Row::One(Literal::Integer(3)))))
    } else if i == 7 {
        Some(Action::Pass("PASS: statement, savepoint, auto-flush, and maintenance rollback are atomic"))
    } else {
        None
    }
}

/// The suite of atomic statements: what is done at a place, from 0 on.
pub open spec fn run_at(i: int) -> Option<Action> {
    if i < 24 {
        run_part_0_at(i)
    } else if i < 48 {
        run_part_1_at(i - 24)
    } else if i < 72 {
        run_part_2_at(i - 48)
    } else if i < 96 {
        run_part_3_at(i - 72)
    } else if i < 120 {
        run_part_4_at(i - 96)
    } else if i < 144 {
        run_part_5_at(i - 120)
    } else if i < 168 {
        run_part_6_at(i - 144)
    } else {
        run_part_7_at(i - 168)
    }
}

/// The suite of atomic statements: what is done at a place, from 0 on.
pub fn run(i: usize) -> (action: Option<Action>)
    ensures
        action == run_at(i as int),
{
    if i < 24 {
        run_part_0(i)
    } else if i < 48 {
        run_part_1(i - 24)
    } else if i < 72 {
        run_part_2(i - 48)
    } else if i < 96 {
        run_part_3(i - 72)
    } else if i < 120 {
        run_part_4(i - 96)
    } else if i < 144 {
        run_part_5(i - 120)
    } else if i < 168 {
        run_part_6(i - 144)
    } else {
        run_part_7(i - 168)
    }
}

/// The script has an action at every place below 176, and none from there on.
pub proof fn run_ends(i: int)
    ensures
        run_at(i) is Some <==> 0 <= i < 176,
{
}

} // verus!
