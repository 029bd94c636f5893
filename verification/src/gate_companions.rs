//! Companion views: they are installed on demand, at once or not at all, and only where
//! nothing of the user is in the way.
use crate::gate::{Action, Argument, Arguments, Database, Expected};
use crate::values::{Literal, Row};
use vstd::prelude::*;

verus! {

/// A part of the script.
pub open spec fn run_part_0_at(i: int) -> Option<Action> {
    if i == 0 {
        Some(Action::Open(0, Database::Named("companion-lifecycle.db")))
    } else if i == 1 {
        Some(Action::Batch(0, "CREATE VIRTUAL TABLE metrics USING timeless_metrics; CREATE VIRTUAL TABLE logs USING timeless_logs(index_keys=service); CREATE VIRTUAL TABLE traces USING timeless_traces;", Expected::Done))
    } else if i == 2 {
        Some(Action::DropViews(0, "SELECT object_name FROM timeless_schema_inventory"))
    } else if i == 3 {
        Some(Action::Batch(0, "DROP TABLE timeless_schema_inventory", Expected::Done))
    } else if i == 4 {
        Some(Action::Close(0))
    } else if i == 5 {
        Some(Action::Open(0, Database::Named("companion-lifecycle.db")))
    } else if i == 6 {
        Some(Action::Query(0, "SELECT type, name, sql FROM sqlite_schema ORDER BY type, name", Arguments::Zero, Expected::Keep(0)))
    } else if i == 7 {
        Some(Action::Query(0, "PRAGMA schema_version", Arguments::Zero, Expected::Keep(1)))
    } else if i == 8 {
        Some(Action::Query(0, "SELECT count(*) FROM metrics", Arguments::Zero, Expected::First(Row::One(Literal::Integer(0)))))
    } else if i == 9 {
        Some(Action::Query(0, "SELECT count(*) FROM logs", Arguments::Zero, Expected::First(Row::One(Literal::Integer(0)))))
    } else if i == 10 {
        Some(Action::Query(0, "SELECT count(*) FROM traces", Arguments::Zero, Expected::First(Row::One(Literal::Integer(0)))))
    } else if i == 11 {
        Some(Action::Query(0, "SELECT type, name, sql FROM sqlite_schema ORDER BY type, name", Arguments::Zero, Expected::Same(0)))
    } else if i == 12 {
        Some(Action::Query(0, "PRAGMA schema_version", Arguments::Zero, Expected::Same(1)))
    } else if i == 13 {
        Some(Action::Close(0))
    } else if i == 14 {
        Some(Action::OpenReadOnly(0, Database::Named("companion-lifecycle.db")))
    } else if i == 15 {
        Some(Action::Query(0, "SELECT type, name, sql FROM sqlite_schema ORDER BY type, name", Arguments::Zero, Expected::Keep(0)))
    } else if i == 16 {
        Some(Action::Query(0, "PRAGMA schema_version", Arguments::Zero, Expected::Keep(1)))
    } else if i == 17 {
        Some(Action::Query(0, "SELECT count(*) FROM metrics", Arguments::Zero, Expected::First(Row::One(Literal::Integer(0)))))
    } else if i == 18 {
        Some(Action::Query(0, "SELECT count(*) FROM logs", Arguments::Zero, Expected::First(Row::One(Literal::Integer(0)))))
    } else if i == 19 {
        Some(Action::Query(0, "SELECT count(*) FROM traces", Arguments::Zero, Expected::First(Row::One(Literal::Integer(0)))))
    } else if i == 20 {
        Some(Action::Query(0, "SELECT type, name, sql FROM sqlite_schema ORDER BY type, name", Arguments::Zero, Expected::Same(0)))
    } else if i == 21 {
        Some(Action::Query(0, "PRAGMA schema_version", Arguments::Zero, Expected::Same(1)))
    } else if i == 22 {
        Some(Action::Execute(0, "INSERT INTO \"main\".metrics(metrics) VALUES('schema')", Arguments::Zero, Expected::Refused))
    } else if i == 23 {
        Some(Action::Execute(0, "INSERT INTO \"main\".logs(logs) VALUES('schema')", Arguments::Zero, Expected::Refused))
    } else {
        None
    }
}

fn run_part_0(i: usize) -> (action: Option<Action>)
    ensures
        action == run_part_0_at(i as int),
{
    if i == 0 {
        Some(Action::Open(0, Database::Named("companion-lifecycle.db")))
    } else if i == 1 {
        Some(Action::Batch(0, "CREATE VIRTUAL TABLE metrics USING timeless_metrics; CREATE VIRTUAL TABLE logs USING timeless_logs(index_keys=service); CREATE VIRTUAL TABLE traces USING timeless_traces;", Expected::Done))
    } else if i == 2 {
        Some(Action::DropViews(0, "SELECT object_name FROM timeless_schema_inventory"))
    } else if i == 3 {
        Some(Action::Batch(0, "DROP TABLE timeless_schema_inventory", Expected::Done))
    } else if i == 4 {
        Some(Action::Close(0))
    } else if i == 5 {
        Some(Action::Open(0, Database::Named("companion-lifecycle.db")))
    } else if i == 6 {
        Some(Action::Query(0, "SELECT type, name, sql FROM sqlite_schema ORDER BY type, name", Arguments::Zero, Expected::Keep(0)))
    } else if i == 7 {
        Some(Action::Query(0, "PRAGMA schema_version", Arguments::Zero, Expected::Keep(1)))
    } else if i == 8 {
        Some(Action::Query(0, "SELECT count(*) FROM metrics", Arguments::Zero, Expected::First(Row::One(Literal::Integer(0)))))
    } else if i == 9 {
        Some(Action::Query(0, "SELECT count(*) FROM logs", Arguments::Zero, Expected::First(Row::One(Literal::Integer(0)))))
    } else if i == 10 {
        Some(Action::Query(0, "SELECT count(*) FROM traces", Arguments::Zero, Expected::First(Row::One(Literal::Integer(0)))))
    } else if i == 11 {
        Some(Action::Query(0, "SELECT type, name, sql FROM sqlite_schema ORDER BY type, name", Arguments::Zero, Expected::Same(0)))
    } else if i == 12 {
        Some(Action::Query(0, "PRAGMA schema_version", Arguments::Zero, Expected::Same(1)))
    } else if i == 13 {
        Some(Action::Close(0))
    } else if i == 14 {
        Some(Action::OpenReadOnly(0, Database::Named("companion-lifecycle.db")))
    } else if i == 15 {
        Some(Action::Query(0, "SELECT type, name, sql FROM sqlite_schema ORDER BY type, name", Arguments::Zero, Expected::Keep(0)))
    } else if i == 16 {
        Some(Action::Query(0, "PRAGMA schema_version", Arguments::Zero, Expected::Keep(1)))
    } else if i == 17 {
        Some(Action::Query(0, "SELECT count(*) FROM metrics", Arguments::Zero, Expected::First(Row::One(Literal::Integer(0)))))
    } else if i == 18 {
        Some(Action::Query(0, "SELECT count(*) FROM logs", Arguments::Zero, Expected::First(Row::One(Literal::Integer(0)))))
    } else if i == 19 {
        Some(Action::Query(0, "SELECT count(*) FROM traces", Arguments::Zero, Expected::First(Row::One(Literal::Integer(0)))))
    } else if i == 20 {
        Some(Action::Query(0, "SELECT type, name, sql FROM sqlite_schema ORDER BY type, name", Arguments::Zero, Expected::Same(0)))
    } else if i == 21 {
        Some(Action::Query(0, "PRAGMA schema_version", Arguments::Zero, Expected::Same(1)))
    } else if i == 22 {
        Some(Action::Execute(0, "INSERT INTO \"main\".metrics(metrics) VALUES('schema')", Arguments::Zero, Expected::Refused))
    } else if i == 23 {
        Some(Action::Execute(0, "INSERT INTO \"main\".logs(logs) VALUES('schema')", Arguments::Zero, Expected::Refused))
    } else {
        None
    }
}

/// A part of the script.
pub open spec fn run_part_1_at(i: int) -> Option<Action> {
    if i == 0 {
        Some(Action::Execute(0, "INSERT INTO \"main\".traces(traces) VALUES('schema')", Arguments::Zero, Expected::Refused))
    } else if i == 1 {
        Some(Action::Query(0, "SELECT type, name, sql FROM sqlite_schema ORDER BY type, name", Arguments::Zero, Expected::Same(0)))
    } else if i == 2 {
        Some(Action::Close(0))
    } else if i == 3 {
        Some(Action::Open(0, Database::Named("companion-lifecycle.db")))
    } else if i == 4 {
        Some(Action::Batch(0, "CREATE VIEW timeless_metrics_latest AS SELECT 73 AS user_value", Expected::Done))
    } else if i == 5 {
        Some(Action::Batch(0, "CREATE VIEW timeless_logs_fields AS SELECT 73 AS user_value", Expected::Done))
    } else if i == 6 {
        Some(Action::Batch(0, "CREATE VIEW timeless_traces_roots AS SELECT 73 AS user_value", Expected::Done))
    } else if i == 7 {
        Some(Action::Close(0))
    } else if i == 8 {
        Some(Action::Open(0, Database::Named("companion-lifecycle.db")))
    } else if i == 9 {
        Some(Action::Query(0, "SELECT type, name, sql FROM sqlite_schema ORDER BY type, name", Arguments::Zero, Expected::Keep(0)))
    } else if i == 10 {
        Some(Action::Query(0, "SELECT count(*) FROM metrics", Arguments::Zero, Expected::First(Row::One(Literal::Integer(0)))))
    } else if i == 11 {
        Some(Action::Query(0, "SELECT count(*) FROM logs", Arguments::Zero, Expected::First(Row::One(Literal::Integer(0)))))
    } else if i == 12 {
        Some(Action::Query(0, "SELECT count(*) FROM traces", Arguments::Zero, Expected::First(Row::One(Literal::Integer(0)))))
    } else if i == 13 {
        Some(Action::Query(0, "SELECT user_value FROM timeless_metrics_latest", Arguments::Zero, Expected::First(Row::One(Literal::Integer(73)))))
    } else if i == 14 {
        Some(Action::Execute(0, "INSERT INTO \"main\".metrics(metrics) VALUES('schema')", Arguments::Zero, Expected::RefusedWith("not owned")))
    } else if i == 15 {
        Some(Action::Query(0, "SELECT type, name, sql FROM sqlite_schema ORDER BY type, name", Arguments::Zero, Expected::Same(0)))
    } else if i == 16 {
        Some(Action::Query(0, "SELECT user_value FROM timeless_logs_fields", Arguments::Zero, Expected::First(Row::One(Literal::Integer(73)))))
    } else if i == 17 {
        Some(Action::Execute(0, "INSERT INTO \"main\".logs(logs) VALUES('schema')", Arguments::Zero, Expected::RefusedWith("not owned")))
    } else if i == 18 {
        Some(Action::Query(0, "SELECT type, name, sql FROM sqlite_schema ORDER BY type, name", Arguments::Zero, Expected::Same(0)))
    } else if i == 19 {
        Some(Action::Query(0, "SELECT user_value FROM timeless_traces_roots", Arguments::Zero, Expected::First(Row::One(Literal::Integer(73)))))
    } else if i == 20 {
        Some(Action::Execute(0, "INSERT INTO \"main\".traces(traces) VALUES('schema')", Arguments::Zero, Expected::RefusedWith("not owned")))
    } else if i == 21 {
        Some(Action::Query(0, "SELECT type, name, sql FROM sqlite_schema ORDER BY type, name", Arguments::Zero, Expected::Same(0)))
    } else if i == 22 {
        Some(Action::Batch(0, "DROP VIEW timeless_metrics_latest", Expected::Done))
    } else if i == 23 {
        Some(Action::Batch(0, "DROP VIEW timeless_logs_fields", Expected::Done))
    } else {
        None
    }
}

fn run_part_1(i: usize) -> (action: Option<Action>)
    ensures
        action == run_part_1_at(i as int),
{
    if i == 0 {
        Some(Action::Execute(0, "INSERT INTO \"main\".traces(traces) VALUES('schema')", Arguments::Zero, Expected::Refused))
    } else if i == 1 {
        Some(Action::Query(0, "SELECT type, name, sql FROM sqlite_schema ORDER BY type, name", Arguments::Zero, Expected::Same(0)))
    } else if i == 2 {
        Some(Action::Close(0))
    } else if i == 3 {
        Some(Action::Open(0, Database::Named("companion-lifecycle.db")))
    } else if i == 4 {
        Some(Action::Batch(0, "CREATE VIEW timeless_metrics_latest AS SELECT 73 AS user_value", Expected::Done))
    } else if i == 5 {
        Some(Action::Batch(0, "CREATE VIEW timeless_logs_fields AS SELECT 73 AS user_value", Expected::Done))
    } else if i == 6 {
        Some(Action::Batch(0, "CREATE VIEW timeless_traces_roots AS SELECT 73 AS user_value", Expected::Done))
    } else if i == 7 {
        Some(Action::Close(0))
    } else if i == 8 {
        Some(Action::Open(0, Database::Named("companion-lifecycle.db")))
    } else if i == 9 {
        Some(Action::Query(0, "SELECT type, name, sql FROM sqlite_schema ORDER BY type, name", Arguments::Zero, Expected::Keep(0)))
    } else if i == 10 {
        Some(Action::Query(0, "SELECT count(*) FROM metrics", Arguments::Zero, Expected::First(Row::One(Literal::Integer(0)))))
    } else if i == 11 {
        Some(Action::Query(0, "SELECT count(*) FROM logs", Arguments::Zero, Expected::First(Row::One(Literal::Integer(0)))))
    } else if i == 12 {
        Some(Action::Query(0, "SELECT count(*) FROM traces", Arguments::Zero, Expected::First(Row::One(Literal::Integer(0)))))
    } else if i == 13 {
        Some(Action::Query(0, "SELECT user_value FROM timeless_metrics_latest", Arguments::Zero, Expected::First(Row::One(Literal::Integer(73)))))
    } else if i == 14 {
        Some(Action::Execute(0, "INSERT INTO \"main\".metrics(metrics) VALUES('schema')", Arguments::Zero, Expected::RefusedWith("not owned")))
    } else if i == 15 {
        Some(Action::Query(0, "SELECT type, name, sql FROM sqlite_schema ORDER BY type, name", Arguments::Zero, Expected::Same(0)))
    } else if i == 16 {
        Some(Action::Query(0, "SELECT user_value FROM timeless_logs_fields", Arguments::Zero, Expected::First(Row::One(Literal::Integer(73)))))
    } else if i == 17 {
        Some(Action::Execute(0, "INSERT INTO \"main\".logs(logs) VALUES('schema')", Arguments::Zero, Expected::RefusedWith("not owned")))
    } else if i == 18 {
        Some(Action::Query(0, "SELECT type, name, sql FROM sqlite_schema ORDER BY type, name", Arguments::Zero, Expected::Same(0)))
    } else if i == 19 {
        Some(Action::Query(0, "SELECT user_value FROM timeless_traces_roots", Arguments::Zero, Expected::First(Row::One(Literal::Integer(73)))))
    } else if i == 20 {
        Some(Action::Execute(0, "INSERT INTO \"main\".traces(traces) VALUES('schema')", Arguments::Zero, Expected::RefusedWith("not owned")))
    } else if i == 21 {
        Some(Action::Query(0, "SELECT type, name, sql FROM sqlite_schema ORDER BY type, name", Arguments::Zero, Expected::Same(0)))
    } else if i == 22 {
        Some(Action::Batch(0, "DROP VIEW timeless_metrics_latest", Expected::Done))
    } else if i == 23 {
        Some(Action::Batch(0, "DROP VIEW timeless_logs_fields", Expected::Done))
    } else {
        None
    }
}

/// A part of the script.
pub open spec fn run_part_2_at(i: int) -> Option<Action> {
    if i == 0 {
        Some(Action::Batch(0, "DROP VIEW timeless_traces_roots", Expected::Done))
    } else if i == 1 {
        Some(Action::Query(0, "SELECT type, name, sql FROM sqlite_schema ORDER BY type, name", Arguments::Zero, Expected::Keep(0)))
    } else if i == 2 {
        Some(Action::Batch(0, "BEGIN", Expected::Done))
    } else if i == 3 {
        Some(Action::Execute(0, "INSERT INTO \"main\".metrics(metrics) VALUES('schema')", Arguments::Zero, Expected::Done))
    } else if i == 4 {
        Some(Action::Execute(0, "INSERT INTO \"main\".logs(logs) VALUES('schema')", Arguments::Zero, Expected::Done))
    } else if i == 5 {
        Some(Action::Execute(0, "INSERT INTO \"main\".traces(traces) VALUES('schema')", Arguments::Zero, Expected::Done))
    } else if i == 6 {
        Some(Action::Query(0, "SELECT count(*) FROM timeless_schema_inventory", Arguments::Zero, Expected::First(Row::One(Literal::Integer(11)))))
    } else if i == 7 {
        Some(Action::Batch(0, "ROLLBACK", Expected::Done))
    } else if i == 8 {
        Some(Action::Query(0, "SELECT type, name, sql FROM sqlite_schema ORDER BY type, name", Arguments::Zero, Expected::Same(0)))
    } else if i == 9 {
        Some(Action::Execute(0, "INSERT INTO \"main\".metrics(metrics) VALUES('schema')", Arguments::Zero, Expected::Done))
    } else if i == 10 {
        Some(Action::Execute(0, "INSERT INTO \"main\".logs(logs) VALUES('schema')", Arguments::Zero, Expected::Done))
    } else if i == 11 {
        Some(Action::Execute(0, "INSERT INTO \"main\".traces(traces) VALUES('schema')", Arguments::Zero, Expected::Done))
    } else if i == 12 {
        Some(Action::Query(0, "PRAGMA schema_version", Arguments::Zero, Expected::Keep(1)))
    } else if i == 13 {
        Some(Action::Execute(0, "INSERT INTO \"main\".metrics(metrics) VALUES('schema')", Arguments::Zero, Expected::Done))
    } else if i == 14 {
        Some(Action::Execute(0, "INSERT INTO \"main\".logs(logs) VALUES('schema')", Arguments::Zero, Expected::Done))
    } else if i == 15 {
        Some(Action::Execute(0, "INSERT INTO \"main\".traces(traces) VALUES('schema')", Arguments::Zero, Expected::Done))
    } else if i == 16 {
        Some(Action::Query(0, "PRAGMA schema_version", Arguments::Zero, Expected::Same(1)))
    } else if i == 17 {
        Some(Action::Query(0, "SELECT count(*) FROM timeless_schema_inventory", Arguments::Zero, Expected::First(Row::One(Literal::Integer(11)))))
    } else if i == 18 {
        Some(Action::Execute(0, "UPDATE timeless_schema_inventory SET schema_version=0 WHERE source_table=?1", Arguments::One(Argument::Text("metrics")), Expected::Done))
    } else if i == 19 {
        Some(Action::Batch(0, "CREATE TRIGGER fail_install BEFORE INSERT ON timeless_schema_inventory WHEN NEW.object_name='timeless_metrics_latest' BEGIN SELECT RAISE(ABORT,'test install failure'); END", Expected::Done))
    } else if i == 20 {
        Some(Action::Query(0, "SELECT type, name, sql FROM sqlite_schema ORDER BY type, name", Arguments::Zero, Expected::Keep(0)))
    } else if i == 21 {
        Some(Action::Query(0, "SELECT count(*) FROM timeless_schema_inventory WHERE schema_version=0", Arguments::Zero, Expected::Keep(2)))
    } else if i == 22 {
        Some(Action::Execute(0, "INSERT INTO \"main\".metrics(metrics) VALUES('schema')", Arguments::Zero, Expected::RefusedWith("test install failure")))
    } else if i == 23 {
        Some(Action::Query(0, "SELECT type, name, sql FROM sqlite_schema ORDER BY type, name", Arguments::Zero, Expected::Same(0)))
    } else {
        None
    }
}

fn run_part_2(i: usize) -> (action: Option<Action>)
    ensures
        action == run_part_2_at(i as int),
{
    if i == 0 {
        Some(Action::Batch(0, "DROP VIEW timeless_traces_roots", Expected::Done))
    } else if i == 1 {
        Some(Action::Query(0, "SELECT type, name, sql FROM sqlite_schema ORDER BY type, name", Arguments::Zero, Expected::Keep(0)))
    } else if i == 2 {
        Some(Action::Batch(0, "BEGIN", Expected::Done))
    } else if i == 3 {
        Some(Action::Execute(0, "INSERT INTO \"main\".metrics(metrics) VALUES('schema')", Arguments::Zero, Expected::Done))
    } else if i == 4 {
        Some(Action::Execute(0, "INSERT INTO \"main\".logs(logs) VALUES('schema')", Arguments::Zero, Expected::Done))
    } else if i == 5 {
        Some(Action::Execute(0, "INSERT INTO \"main\".traces(traces) VALUES('schema')", Arguments::Zero, Expected::Done))
    } else if i == 6 {
        Some(Action::Query(0, "SELECT count(*) FROM timeless_schema_inventory", Arguments::Zero, Expected::First(Row::One(Literal::Integer(11)))))
    } else if i == 7 {
        Some(Action::Batch(0, "ROLLBACK", Expected::Done))
    } else if i == 8 {
        Some(Action::Query(0, "SELECT type, name, sql FROM sqlite_schema ORDER BY type, name", Arguments::Zero, Expected::Same(0)))
    } else if i == 9 {
        Some(Action::Execute(0, "INSERT INTO \"main\".metrics(metrics) VALUES('schema')", Arguments::Zero, Expected::Done))
    } else if i == 10 {
        Some(Action::Execute(0, "INSERT INTO \"main\".logs(logs) VALUES('schema')", Arguments::Zero, Expected::Done))
    } else if i == 11 {
        Some(Action::Execute(0, "INSERT INTO \"main\".traces(traces) VALUES('schema')", Arguments::Zero, Expected::Done))
    } else if i == 12 {
        Some(Action::Query(0, "PRAGMA schema_version", Arguments::Zero, Expected::Keep(1)))
    } else if i == 13 {
        Some(Action::Execute(0, "INSERT INTO \"main\".metrics(metrics) VALUES('schema')", Arguments::Zero, Expected::Done))
    } else if i == 14 {
        Some(Action::Execute(0, "INSERT INTO \"main\".logs(logs) VALUES('schema')", Arguments::Zero, Expected::Done))
    } else if i == 15 {
        Some(Action::Execute(0, "INSERT INTO \"main\".traces(traces) VALUES('schema')", Arguments::Zero, Expected::Done))
    } else if i == 16 {
        Some(Action::Query(0, "PRAGMA schema_version", Arguments::Zero, Expected::Same(1)))
    } else if i == 17 {
        Some(Action::Query(0, "SELECT count(*) FROM timeless_schema_inventory", Arguments::Zero, Expected::First(Row::One(Literal::Integer(11)))))
    } else if i == 18 {
        Some(Action::Execute(0, "UPDATE timeless_schema_inventory SET schema_version=0 WHERE source_table=?1", Arguments::One(Argument::Text("metrics")), Expected::Done))
    } else if i == 19 {
        Some(Action::Batch(0, "CREATE TRIGGER fail_install BEFORE INSERT ON timeless_schema_inventory WHEN NEW.object_name='timeless_metrics_latest' BEGIN SELECT RAISE(ABORT,'test install failure'); END", Expected::Done))
    } else if i == 20 {
        Some(Action::Query(0, "SELECT type, name, sql FROM sqlite_schema ORDER BY type, name", Arguments::Zero, Expected::Keep(0)))
    } else if i == 21 {
        Some(Action::Query(0, "SELECT count(*) FROM timeless_schema_inventory WHERE schema_version=0", Arguments::Zero, Expected::Keep(2)))
    } else if i == 22 {
        Some(Action::Execute(0, "INSERT INTO \"main\".metrics(metrics) VALUES('schema')", Arguments::Zero, Expected::RefusedWith("test install failure")))
    } else if i == 23 {
        Some(Action::Query(0, "SELECT type, name, sql FROM sqlite_schema ORDER BY type, name", Arguments::Zero, Expected::Same(0)))
    } else {
        None
    }
}

/// A part of the script.
pub open spec fn run_part_3_at(i: int) -> Option<Action> {
    if i == 0 {
        Some(Action::Query(0, "SELECT count(*) FROM timeless_schema_inventory WHERE schema_version=0", Arguments::Zero, Expected::Same(2)))
    } else if i == 1 {
        Some(Action::Batch(0, "DROP TRIGGER fail_install", Expected::Done))
    } else if i == 2 {
        Some(Action::Execute(0, "INSERT INTO \"main\".metrics(metrics) VALUES('schema')", Arguments::Zero, Expected::Done))
    } else if i == 3 {
        Some(Action::Query(0, "SELECT count(*) FROM timeless_schema_inventory WHERE schema_version=0", Arguments::Zero, Expected::First(Row::One(Literal::Integer(0)))))
    } else if i == 4 {
        Some(Action::Execute(0, "UPDATE timeless_schema_inventory SET schema_version=0 WHERE source_table=?1", Arguments::One(Argument::Text("logs")), Expected::Done))
    } else if i == 5 {
        Some(Action::Batch(0, "CREATE TRIGGER fail_install BEFORE INSERT ON timeless_schema_inventory WHEN NEW.object_name='timeless_logs_fields' BEGIN SELECT RAISE(ABORT,'test install failure'); END", Expected::Done))
    } else if i == 6 {
        Some(Action::Query(0, "SELECT type, name, sql FROM sqlite_schema ORDER BY type, name", Arguments::Zero, Expected::Keep(0)))
    } else if i == 7 {
        Some(Action::Query(0, "SELECT count(*) FROM timeless_schema_inventory WHERE schema_version=0", Arguments::Zero, Expected::Keep(2)))
    } else if i == 8 {
        Some(Action::Execute(0, "INSERT INTO \"main\".logs(logs) VALUES('schema')", Arguments::Zero, Expected::RefusedWith("test install failure")))
    } else if i == 9 {
        Some(Action::Query(0, "SELECT type, name, sql FROM sqlite_schema ORDER BY type, name", Arguments::Zero, Expected::Same(0)))
    } else if i == 10 {
        Some(Action::Query(0, "SELECT count(*) FROM timeless_schema_inventory WHERE schema_version=0", Arguments::Zero, Expected::Same(2)))
    } else if i == 11 {
        Some(Action::Batch(0, "DROP TRIGGER fail_install", Expected::Done))
    } else if i == 12 {
        Some(Action::Execute(0, "INSERT INTO \"main\".logs(logs) VALUES('schema')", Arguments::Zero, Expected::Done))
    } else if i == 13 {
        Some(Action::Query(0, "SELECT count(*) FROM timeless_schema_inventory WHERE schema_version=0", Arguments::Zero, Expected::First(Row::One(Literal::Integer(0)))))
    } else if i == 14 {
        Some(Action::Execute(0, "UPDATE timeless_schema_inventory SET schema_version=0 WHERE source_table=?1", Arguments::One(Argument::Text("traces")), Expected::Done))
    } else if i == 15 {
        Some(Action::Batch(0, "CREATE TRIGGER fail_install BEFORE INSERT ON timeless_schema_inventory WHEN NEW.object_name='timeless_traces_roots' BEGIN SELECT RAISE(ABORT,'test install failure'); END", Expected::Done))
    } else if i == 16 {
        Some(Action::Query(0, "SELECT type, name, sql FROM sqlite_schema ORDER BY type, name", Arguments::Zero, Expected::Keep(0)))
    } else if i == 17 {
        Some(Action::Query(0, "SELECT count(*) FROM timeless_schema_inventory WHERE schema_version=0", Arguments::Zero, Expected::Keep(2)))
    } else if i == 18 {
        Some(Action::Execute(0, "INSERT INTO \"main\".traces(traces) VALUES('schema')", Arguments::Zero, Expected::RefusedWith("test install failure")))
    } else if i == 19 {
        Some(Action::Query(0, "SELECT type, name, sql FROM sqlite_schema ORDER BY type, name", Arguments::Zero, Expected::Same(0)))
    } else if i == 20 {
        Some(Action::Query(0, "SELECT count(*) FROM timeless_schema_inventory WHERE schema_version=0", Arguments::Zero, Expected::Same(2)))
    } else if i == 21 {
        Some(Action::Batch(0, "DROP TRIGGER fail_install", Expected::Done))
    } else if i == 22 {
        Some(Action::Execute(0, "INSERT INTO \"main\".traces(traces) VALUES('schema')", Arguments::Zero, Expected::Done))
    } else if i == 23 {
        Some(Action::Query(0, "SELECT count(*) FROM timeless_schema_inventory WHERE schema_version=0", Arguments::Zero, Expected::First(Row::One(Literal::Integer(0)))))
    } else {
        None
    }
}

fn run_part_3(i: usize) -> (action: Option<Action>)
    ensures
        action == run_part_3_at(i as int),
{
    if i == 0 {
        Some(Action::Query(0, "SELECT count(*) FROM timeless_schema_inventory WHERE schema_version=0", Arguments::Zero, Expected::Same(2)))
    } else if i == 1 {
        Some(Action::Batch(0, "DROP TRIGGER fail_install", Expected::Done))
    } else if i == 2 {
        Some(Action::Execute(0, "INSERT INTO \"main\".metrics(metrics) VALUES('schema')", Arguments::Zero, Expected::Done))
    } else if i == 3 {
        Some(Action::Query(0, "SELECT count(*) FROM timeless_schema_inventory WHERE schema_version=0", Arguments::Zero, Expected::First(Row::One(Literal::Integer(0)))))
    } else if i == 4 {
        Some(Action::Execute(0, "UPDATE timeless_schema_inventory SET schema_version=0 WHERE source_table=?1", Arguments::One(Argument::Text("logs")), Expected::Done))
    } else if i == 5 {
        Some(Action::Batch(0, "CREATE TRIGGER fail_install BEFORE INSERT ON timeless_schema_inventory WHEN NEW.object_name='timeless_logs_fields' BEGIN SELECT RAISE(ABORT,'test install failure'); END", Expected::Done))
    } else if i == 6 {
        Some(Action::Query(0, "SELECT type, name, sql FROM sqlite_schema ORDER BY type, name", Arguments::Zero, Expected::Keep(0)))
    } else if i == 7 {
        Some(Action::Query(0, "SELECT count(*) FROM timeless_schema_inventory WHERE schema_version=0", Arguments::Zero, Expected::Keep(2)))
    } else if i == 8 {
        Some(Action::Execute(0, "INSERT INTO \"main\".logs(logs) VALUES('schema')", Arguments::Zero, Expected::RefusedWith("test install failure")))
    } else if i == 9 {
        Some(Action::Query(0, "SELECT type, name, sql FROM sqlite_schema ORDER BY type, name", Arguments::Zero, Expected::Same(0)))
    } else if i == 10 {
        Some(Action::Query(0, "SELECT count(*) FROM timeless_schema_inventory WHERE schema_version=0", Arguments::Zero, Expected::Same(2)))
    } else if i == 11 {
        Some(Action::Batch(0, "DROP TRIGGER fail_install", Expected::Done))
    } else if i == 12 {
        Some(Action::Execute(0, "INSERT INTO \"main\".logs(logs) VALUES('schema')", Arguments::Zero, Expected::Done))
    } else if i == 13 {
        Some(Action::Query(0, "SELECT count(*) FROM timeless_schema_inventory WHERE schema_version=0", Arguments::Zero, Expected::First(Row::One(Literal::Integer(0)))))
    } else if i == 14 {
        Some(Action::Execute(0, "UPDATE timeless_schema_inventory SET schema_version=0 WHERE source_table=?1", Arguments::One(Argument::Text("traces")), Expected::Done))
    } else if i == 15 {
        Some(Action::Batch(0, "CREATE TRIGGER fail_install BEFORE INSERT ON timeless_schema_inventory WHEN NEW.object_name='timeless_traces_roots' BEGIN SELECT RAISE(ABORT,'test install failure'); END", Expected::Done))
    } else if i == 16 {
        Some(Action::Query(0, "SELECT type, name, sql FROM sqlite_schema ORDER BY type, name", Arguments::Zero, Expected::Keep(0)))
    } else if i == 17 {
        Some(Action::Query(0, "SELECT count(*) FROM timeless_schema_inventory WHERE schema_version=0", Arguments::Zero, Expected::Keep(2)))
    } else if i == 18 {
        Some(Action::Execute(0, "INSERT INTO \"main\".traces(traces) VALUES('schema')", Arguments::Zero, Expected::RefusedWith("test install failure")))
    } else if i == 19 {
        Some(Action::Query(0, "SELECT type, name, sql FROM sqlite_schema ORDER BY type, name", Arguments::Zero, Expected::Same(0)))
    } else if i == 20 {
        Some(Action::Query(0, "SELECT count(*) FROM timeless_schema_inventory WHERE schema_version=0", Arguments::Zero, Expected::Same(2)))
    } else if i == 21 {
        Some(Action::Batch(0, "DROP TRIGGER fail_install", Expected::Done))
    } else if i == 22 {
        Some(Action::Execute(0, "INSERT INTO \"main\".traces(traces) VALUES('schema')", Arguments::Zero, Expected::Done))
    } else if i == 23 {
        Some(Action::Query(0, "SELECT count(*) FROM timeless_schema_inventory WHERE schema_version=0", Arguments::Zero, Expected::First(Row::One(Literal::Integer(0)))))
    } else {
        None
    }
}

/// A part of the script.
pub open spec fn run_part_4_at(i: int) -> Option<Action> {
    if i == 0 {
        Some(Action::Batch(0, "UPDATE timeless_schema_inventory SET schema_version=999", Expected::Done))
    } else if i == 1 {
        Some(Action::Query(0, "SELECT type, name, sql FROM sqlite_schema ORDER BY type, name", Arguments::Zero, Expected::Keep(0)))
    } else if i == 2 {
        Some(Action::Execute(0, "INSERT INTO \"main\".metrics(metrics) VALUES('schema')", Arguments::Zero, Expected::Done))
    } else if i == 3 {
        Some(Action::Execute(0, "INSERT INTO \"main\".logs(logs) VALUES('schema')", Arguments::Zero, Expected::Done))
    } else if i == 4 {
        Some(Action::Execute(0, "INSERT INTO \"main\".traces(traces) VALUES('schema')", Arguments::Zero, Expected::Done))
    } else if i == 5 {
        Some(Action::Query(0, "SELECT type, name, sql FROM sqlite_schema ORDER BY type, name", Arguments::Zero, Expected::Same(0)))
    } else if i == 6 {
        Some(Action::Query(0, "SELECT count(*) FROM timeless_schema_inventory WHERE schema_version=999", Arguments::Zero, Expected::First(Row::One(Literal::Integer(11)))))
    } else if i == 7 {
        Some(Action::Batch(0, "UPDATE timeless_schema_inventory SET schema_version=0", Expected::Done))
    } else if i == 8 {
        Some(Action::Close(0))
    } else if i == 9 {
        Some(Action::Open(0, Database::Private))
    } else if i == 10 {
        Some(Action::Execute(0, "ATTACH DATABASE ?1 AS \"renamed telemetry\"", Arguments::One(Argument::Path(Database::Named("companion-lifecycle.db"))), Expected::Done))
    } else if i == 11 {
        Some(Action::Execute(0, "INSERT INTO \"renamed telemetry\".metrics(metrics) VALUES('schema')", Arguments::Zero, Expected::Done))
    } else if i == 12 {
        Some(Action::Batch(0, "DROP TABLE \"renamed telemetry\".metrics", Expected::Done))
    } else if i == 13 {
        Some(Action::Execute(0, "INSERT INTO \"renamed telemetry\".logs(logs) VALUES('schema')", Arguments::Zero, Expected::Done))
    } else if i == 14 {
        Some(Action::Batch(0, "DROP TABLE \"renamed telemetry\".logs", Expected::Done))
    } else if i == 15 {
        Some(Action::Execute(0, "INSERT INTO \"renamed telemetry\".traces(traces) VALUES('schema')", Arguments::Zero, Expected::Done))
    } else if i == 16 {
        Some(Action::Batch(0, "DROP TABLE \"renamed telemetry\".traces", Expected::Done))
    } else if i == 17 {
        Some(Action::Query(0, "SELECT count(*) FROM \"renamed telemetry\".timeless_schema_inventory", Arguments::Zero, Expected::First(Row::One(Literal::Integer(0)))))
    } else if i == 18 {
        Some(Action::Query(0, "SELECT count(*) FROM \"renamed telemetry\".sqlite_schema WHERE type='view'", Arguments::Zero, Expected::First(Row::One(Literal::Integer(0)))))
    } else if i == 19 {
        Some(Action::Batch(0, "CREATE VIRTUAL TABLE \"renamed telemetry\".metrics USING timeless_metrics; CREATE VIRTUAL TABLE \"renamed telemetry\".logs USING timeless_logs(index_keys=service); CREATE VIRTUAL TABLE \"renamed telemetry\".traces USING timeless_traces;", Expected::Done))
    } else if i == 20 {
        Some(Action::Query(0, "SELECT count(*) FROM \"renamed telemetry\".timeless_schema_inventory", Arguments::Zero, Expected::First(Row::One(Literal::Integer(11)))))
    } else if i == 21 {
        Some(Action::Close(0))
    } else if i == 22 {
        Some(Action::Pass("PASS test_companion_schema_explicit_atomic_owned_lifecycle"))
    } else {
        None
    }
}

fn run_part_4(i: usize) -> (action: Option<Action>)
    ensures
        action == run_part_4_at(i as int),
{
    if i == 0 {
        Some(Action::Batch(0, "UPDATE timeless_schema_inventory SET schema_version=999", Expected::Done))
    } else if i == 1 {
        Some(Action::Query(0, "SELECT type, name, sql FROM sqlite_schema ORDER BY type, name", Arguments::Zero, Expected::Keep(0)))
    } else if i == 2 {
        Some(Action::Execute(0, "INSERT INTO \"main\".metrics(metrics) VALUES('schema')", Arguments::Zero, Expected::Done))
    } else if i == 3 {
        Some(Action::Execute(0, "INSERT INTO \"main\".logs(logs) VALUES('schema')", Arguments::Zero, Expected::Done))
    } else if i == 4 {
        Some(Action::Execute(0, "INSERT INTO \"main\".traces(traces) VALUES('schema')", Arguments::Zero, Expected::Done))
    } else if i == 5 {
        Some(Action::Query(0, "SELECT type, name, sql FROM sqlite_schema ORDER BY type, name", Arguments::Zero, Expected::Same(0)))
    } else if i == 6 {
        Some(Action::Query(0, "SELECT count(*) FROM timeless_schema_inventory WHERE schema_version=999", Arguments::Zero, Expected::First(Row::One(Literal::Integer(11)))))
    } else if i == 7 {
        Some(Action::Batch(0, "UPDATE timeless_schema_inventory SET schema_version=0", Expected::Done))
    } else if i == 8 {
        Some(Action::Close(0))
    } else if i == 9 {
        Some(Action::Open(0, Database::Private))
    } else if i == 10 {
        Some(Action::Execute(0, "ATTACH DATABASE ?1 AS \"renamed telemetry\"", Arguments::One(Argument::Path(Database::Named("companion-lifecycle.db"))), Expected::Done))
    } else if i == 11 {
        Some(Action::Execute(0, "INSERT INTO \"renamed telemetry\".metrics(metrics) VALUES('schema')", Arguments::Zero, Expected::Done))
    } else if i == 12 {
        Some(Action::Batch(0, "DROP TABLE \"renamed telemetry\".metrics", Expected::Done))
    } else if i == 13 {
        Some(Action::Execute(0, "INSERT INTO \"renamed telemetry\".logs(logs) VALUES('schema')", Arguments::Zero, Expected::Done))
    } else if i == 14 {
        Some(Action::Batch(0, "DROP TABLE \"renamed telemetry\".logs", Expected::Done))
    } else if i == 15 {
        Some(Action::Execute(0, "INSERT INTO \"renamed telemetry\".traces(traces) VALUES('schema')", Arguments::Zero, Expected::Done))
    } else if i == 16 {
        Some(Action::Batch(0, "DROP TABLE \"renamed telemetry\".traces", Expected::Done))
    } else if i == 17 {
        Some(Action::Query(0, "SELECT count(*) FROM \"renamed telemetry\".timeless_schema_inventory", Arguments::Zero, Expected::First(Row::One(Literal::Integer(0)))))
    } else if i == 18 {
        Some(Action::Query(0, "SELECT count(*) FROM \"renamed telemetry\".sqlite_schema WHERE type='view'", Arguments::Zero, Expected::First(Row::One(Literal::Integer(0)))))
    } else if i == 19 {
        Some(Action::Batch(0, "CREATE VIRTUAL TABLE \"renamed telemetry\".metrics USING timeless_metrics; CREATE VIRTUAL TABLE \"renamed telemetry\".logs USING timeless_logs(index_keys=service); CREATE VIRTUAL TABLE \"renamed telemetry\".traces USING timeless_traces;", Expected::Done))
    } else if i == 20 {
        Some(Action::Query(0, "SELECT count(*) FROM \"renamed telemetry\".timeless_schema_inventory", Arguments::Zero, Expected::First(Row::One(Literal::Integer(11)))))
    } else if i == 21 {
        Some(Action::Close(0))
    } else if i == 22 {
        Some(Action::Pass("PASS test_companion_schema_explicit_atomic_owned_lifecycle"))
    } else {
        None
    }
}

/// The suite of the companion views: what is done at a place, from 0 on.
pub open spec fn run_at(i: int) -> Option<Action> {
    if i < 24 {
        run_part_0_at(i)
    } else if i < 48 {
        run_part_1_at(i - 24)
    } else if i < 72 {
        run_part_2_at(i - 48)
    } else if i < 96 {
        run_part_3_at(i - 72)
    } else {
        run_part_4_at(i - 96)
    }
}

/// The suite of the companion views: what is done at a place, from 0 on.
pub fn run(i: usize) -> (action: Option<Action>)
    ensures
        action == run_at(i as int),
{
    if i < 24 {
        run_part_0(i)
    } else if i < 48 {
        run_part_1(i - 24)
    } else if i < 72 {
        run_part_2(i - 48)
    } else if i < 96 {
        run_part_3(i - 72)
    } else {
        run_part_4(i - 96)
    }
}

/// The script has an action at every place below 119, and none from there on.
pub proof fn run_ends(i: int)
    ensures
        run_at(i) is Some <==> 0 <= i < 119,
{
}

} // verus!
