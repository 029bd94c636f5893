//! The companion catalog of metrics: aliases, upgrades, rollbacks and copies.
use crate::gate::{Action, Argument, Arguments, Database, Expected, Rows};
use crate::values::{Literal, Row};
use vstd::prelude::*;

verus! {

/// A part of the script.
pub open spec fn run_part_0_at(i: int) -> Option<Action> {
    if i == 0 {
        Some(Action::Open(0, Database::Named("catalog-main.db")))
    } else if i == 1 {
        Some(Action::Execute(0, "ATTACH DATABASE ?1 AS aux", Arguments::One(Argument::Path(Database::Named("catalog-aux.db"))), Expected::Done))
    } else if i == 2 {
        Some(Action::Batch(0, "CREATE VIRTUAL TABLE main.metrics USING timeless_metrics; CREATE VIRTUAL TABLE aux.metrics USING timeless_metrics; INSERT INTO main.metrics(name,ts,value) VALUES('MAIN',1,1); INSERT INTO aux.metrics(name,ts,value) VALUES('ATTACHED',2,2); INSERT INTO main.metrics(metrics) VALUES('flush'); INSERT INTO aux.metrics(metrics) VALUES('flush');", Expected::Done))
    } else if i == 3 {
        Some(Action::Query(0, "SELECT name FROM \"main\".timeless_metrics_series ORDER BY name", Arguments::Zero, Expected::Rows(Rows::One(Row::One(Literal::Text("MAIN"))))))
    } else if i == 4 {
        Some(Action::Query(0, "SELECT name FROM \"aux\".timeless_metrics_series ORDER BY name", Arguments::Zero, Expected::Rows(Rows::One(Row::One(Literal::Text("ATTACHED"))))))
    } else if i == 5 {
        Some(Action::Query(0, "SELECT min_ts, max_ts, points FROM aux.timeless_metrics_series", Arguments::Zero, Expected::First(Row::Three(Literal::Integer(2), Literal::Integer(2), Literal::Integer(1)))))
    } else if i == 6 {
        Some(Action::Execute(0, "INSERT INTO aux.timeless_metrics_series(name) VALUES('BAD')", Arguments::Zero, Expected::Refused))
    } else if i == 7 {
        Some(Action::Batch(0, "DROP TABLE aux.timeless_metrics_series; CREATE VIEW aux.timeless_metrics_series AS SELECT name, labels, series_id, min_ts, max_ts, points, chunks, buffered FROM timeless_series('metrics'); UPDATE aux.timeless_schema_inventory SET object_kind='view',schema_version=1 WHERE object_name='timeless_metrics_series'; UPDATE aux.timeless_schema_inventory SET installed_at=123 WHERE object_name='timeless_metrics_latest';", Expected::Done))
    } else if i == 8 {
        Some(Action::Batch(0, "BEGIN; INSERT INTO aux.metrics(metrics) VALUES('schema');", Expected::Done))
    } else if i == 9 {
        Some(Action::Query(0, "SELECT name FROM \"aux\".timeless_metrics_series ORDER BY name", Arguments::Zero, Expected::Rows(Rows::One(Row::One(Literal::Text("ATTACHED"))))))
    } else if i == 10 {
        Some(Action::Batch(0, "ROLLBACK", Expected::Done))
    } else if i == 11 {
        Some(Action::Query(0, "SELECT type FROM aux.sqlite_schema WHERE name='timeless_metrics_series'", Arguments::Zero, Expected::First(Row::One(Literal::Text("view")))))
    } else if i == 12 {
        Some(Action::Batch(0, "INSERT INTO aux.metrics(metrics) VALUES('schema');", Expected::Done))
    } else if i == 13 {
        Some(Action::Query(0, "SELECT name FROM \"aux\".timeless_metrics_series ORDER BY name", Arguments::Zero, Expected::Rows(Rows::One(Row::One(Literal::Text("ATTACHED"))))))
    } else if i == 14 {
        Some(Action::Query(0, "SELECT schema_version,installed_at FROM aux.timeless_schema_inventory WHERE object_name='timeless_metrics_latest'", Arguments::Zero, Expected::First(Row::Two(Literal::Integer(1), Literal::Integer(123)))))
    } else if i == 15 {
        Some(Action::Close(0))
    } else if i == 16 {
        Some(Action::Open(0, Database::Named("catalog-aux.db")))
    } else if i == 17 {
        Some(Action::Query(0, "SELECT name FROM \"main\".timeless_metrics_series ORDER BY name", Arguments::Zero, Expected::Rows(Rows::One(Row::One(Literal::Text("ATTACHED"))))))
    } else if i == 18 {
        Some(Action::Execute(0, "VACUUM INTO ?1", Arguments::One(Argument::Path(Database::Named("catalog-backup.db"))), Expected::Done))
    } else if i == 19 {
        Some(Action::Batch(0, "INSERT INTO metrics(name,ts,value) VALUES('LATER',3,3); INSERT INTO metrics(metrics) VALUES('flush');", Expected::Done))
    } else if i == 20 {
        Some(Action::Close(0))
    } else if i == 21 {
        Some(Action::Open(0, Database::Named("catalog-main.db")))
    } else if i == 22 {
        Some(Action::Execute(0, "ATTACH DATABASE ?1 AS \"renamed telemetry\"", Arguments::One(Argument::Path(Database::Named("catalog-aux.db"))), Expected::Done))
    } else if i == 23 {
        Some(Action::Execute(0, "ATTACH DATABASE ?1 AS copied", Arguments::One(Argument::Path(Database::Named("catalog-backup.db"))), Expected::Done))
    } else {
        None
    }
}

fn run_part_0(i: usize) -> (action: Option<Action>)
    ensures
        action == run_part_0_at(i as int),
{
    if i == 0 {
        Some(Action::Open(0, Database::Named("catalog-main.db")))
    } else if i == 1 {
        Some(Action::Execute(0, "ATTACH DATABASE ?1 AS aux", Arguments::One(Argument::Path(Database::Named("catalog-aux.db"))), Expected::Done))
    } else if i == 2 {
        Some(Action::Batch(0, "CREATE VIRTUAL TABLE main.metrics USING timeless_metrics; CREATE VIRTUAL TABLE aux.metrics USING timeless_metrics; INSERT INTO main.metrics(name,ts,value) VALUES('MAIN',1,1); INSERT INTO aux.metrics(name,ts,value) VALUES('ATTACHED',2,2); INSERT INTO main.metrics(metrics) VALUES('flush'); INSERT INTO aux.metrics(metrics) VALUES('flush');", Expected::Done))
    } else if i == 3 {
        Some(Action::Query(0, "SELECT name FROM \"main\".timeless_metrics_series ORDER BY name", Arguments::Zero, Expected::Rows(Rows::One(Row::One(Literal::Text("MAIN"))))))
    } else if i == 4 {
        Some(Action::Query(0, "SELECT name FROM \"aux\".timeless_metrics_series ORDER BY name", Arguments::Zero, Expected::Rows(Rows::One(Row::One(Literal::Text("ATTACHED"))))))
    } else if i == 5 {
        Some(Action::Query(0, "SELECT min_ts, max_ts, points FROM aux.timeless_metrics_series", Arguments::Zero, Expected::First(Row::Three(Literal::Integer(2), Literal::Integer(2), Literal::Integer(1)))))
    } else if i == 6 {
        Some(Action::Execute(0, "INSERT INTO aux.timeless_metrics_series(name) VALUES('BAD')", Arguments::Zero, Expected::Refused))
    } else if i == 7 {
        Some(Action::Batch(0, "DROP TABLE aux.timeless_metrics_series; CREATE VIEW aux.timeless_metrics_series AS SELECT name, labels, series_id, min_ts, max_ts, points, chunks, buffered FROM timeless_series('metrics'); UPDATE aux.timeless_schema_inventory SET object_kind='view',schema_version=1 WHERE object_name='timeless_metrics_series'; UPDATE aux.timeless_schema_inventory SET installed_at=123 WHERE object_name='timeless_metrics_latest';", Expected::Done))
    } else if i == 8 {
        Some(Action::Batch(0, "BEGIN; INSERT INTO aux.metrics(metrics) VALUES('schema');", Expected::Done))
    } else if i == 9 {
        Some(Action::Query(0, "SELECT name FROM \"aux\".timeless_metrics_series ORDER BY name", Arguments::Zero, Expected::Rows(Rows::One(Row::One(Literal::Text("ATTACHED"))))))
    } else if i == 10 {
        Some(Action::Batch(0, "ROLLBACK", Expected::Done))
    } else if i == 11 {
        Some(Action::Query(0, "SELECT type FROM aux.sqlite_schema WHERE name='timeless_metrics_series'", Arguments::Zero, Expected::First(Row::One(Literal::Text("view")))))
    } else if i == 12 {
        Some(Action::Batch(0, "INSERT INTO aux.metrics(metrics) VALUES('schema');", Expected::Done))
    } else if i == 13 {
        Some(Action::Query(0, "SELECT name FROM \"aux\".timeless_metrics_series ORDER BY name", Arguments::Zero, Expected::Rows(Rows::One(Row::One(Literal::Text("ATTACHED"))))))
    } else if i == 14 {
        Some(Action::Query(0, "SELECT schema_version,installed_at FROM aux.timeless_schema_inventory WHERE object_name='timeless_metrics_latest'", Arguments::Zero, Expected::First(Row::Two(Literal::Integer(1), Literal::Integer(123)))))
    } else if i == 15 {
        Some(Action::Close(0))
    } else if i == 16 {
        Some(Action::Open(0, Database::Named("catalog-aux.db")))
    } else if i == 17 {
        Some(Action::Query(0, "SELECT name FROM \"main\".timeless_metrics_series ORDER BY name", Arguments::Zero, Expected::Rows(Rows::One(Row::One(Literal::Text("ATTACHED"))))))
    } else if i == 18 {
        Some(Action::Execute(0, "VACUUM INTO ?1", Arguments::One(Argument::Path(Database::Named("catalog-backup.db"))), Expected::Done))
    } else if i == 19 {
        Some(Action::Batch(0, "INSERT INTO metrics(name,ts,value) VALUES('LATER',3,3); INSERT INTO metrics(metrics) VALUES('flush');", Expected::Done))
    } else if i == 20 {
        Some(Action::Close(0))
    } else if i == 21 {
        Some(Action::Open(0, Database::Named("catalog-main.db")))
    } else if i == 22 {
        Some(Action::Execute(0, "ATTACH DATABASE ?1 AS \"renamed telemetry\"", Arguments::One(Argument::Path(Database::Named("catalog-aux.db"))), Expected::Done))
    } else if i == 23 {
        Some(Action::Execute(0, "ATTACH DATABASE ?1 AS copied", Arguments::One(Argument::Path(Database::Named("catalog-backup.db"))), Expected::Done))
    } else {
        None
    }
}

/// A part of the script.
pub open spec fn run_part_1_at(i: int) -> Option<Action> {
    if i == 0 {
        Some(Action::Query(0, "SELECT name FROM \"main\".timeless_metrics_series ORDER BY name", Arguments::Zero, Expected::Rows(Rows::One(Row::One(Literal::Text("MAIN"))))))
    } else if i == 1 {
        Some(Action::Query(0, "SELECT name FROM \"renamed telemetry\".timeless_metrics_series ORDER BY name", Arguments::Zero, Expected::Rows(Rows::Two(Row::One(Literal::Text("ATTACHED")), Row::One(Literal::Text("LATER"))))))
    } else if i == 2 {
        Some(Action::Query(0, "SELECT name FROM \"copied\".timeless_metrics_series ORDER BY name", Arguments::Zero, Expected::Rows(Rows::One(Row::One(Literal::Text("ATTACHED"))))))
    } else if i == 3 {
        Some(Action::Batch(0, "DROP TABLE \"renamed telemetry\".metrics", Expected::Done))
    } else if i == 4 {
        Some(Action::Query(0, "SELECT name FROM \"copied\".timeless_metrics_series ORDER BY name", Arguments::Zero, Expected::Rows(Rows::One(Row::One(Literal::Text("ATTACHED"))))))
    } else if i == 5 {
        Some(Action::Close(0))
    } else if i == 6 {
        Some(Action::Open(0, Database::Named("catalog-backup.db")))
    } else if i == 7 {
        Some(Action::Query(0, "SELECT name FROM \"main\".timeless_metrics_series ORDER BY name", Arguments::Zero, Expected::Rows(Rows::One(Row::One(Literal::Text("ATTACHED"))))))
    } else if i == 8 {
        Some(Action::Close(0))
    } else if i == 9 {
        Some(Action::Pass("PASS test_metrics_companion_catalog_alias_reopen_backup_and_upgrade"))
    } else {
        None
    }
}

fn run_part_1(i: usize) -> (action: Option<Action>)
    ensures
        action == run_part_1_at(i as int),
{
    if i == 0 {
        Some(Action::Query(0, "SELECT name FROM \"main\".timeless_metrics_series ORDER BY name", Arguments::Zero, Expected::Rows(Rows::One(Row::One(Literal::Text("MAIN"))))))
    } else if i == 1 {
        Some(Action::Query(0, "SELECT name FROM \"renamed telemetry\".timeless_metrics_series ORDER BY name", Arguments::Zero, Expected::Rows(Rows::Two(Row::One(Literal::Text("ATTACHED")), Row::One(Literal::Text("LATER"))))))
    } else if i == 2 {
        Some(Action::Query(0, "SELECT name FROM \"copied\".timeless_metrics_series ORDER BY name", Arguments::Zero, Expected::Rows(Rows::One(Row::One(Literal::Text("ATTACHED"))))))
    } else if i == 3 {
        Some(Action::Batch(0, "DROP TABLE \"renamed telemetry\".metrics", Expected::Done))
    } else if i == 4 {
        Some(Action::Query(0, "SELECT name FROM \"copied\".timeless_metrics_series ORDER BY name", Arguments::Zero, Expected::Rows(Rows::One(Row::One(Literal::Text("ATTACHED"))))))
    } else if i == 5 {
        Some(Action::Close(0))
    } else if i == 6 {
        Some(Action::Open(0, Database::Named("catalog-backup.db")))
    } else if i == 7 {
        Some(Action::Query(0, "SELECT name FROM \"main\".timeless_metrics_series ORDER BY name", Arguments::Zero, Expected::Rows(Rows::One(Row::One(Literal::Text("ATTACHED"))))))
    } else if i == 8 {
        Some(Action::Close(0))
    } else if i == 9 {
        Some(Action::Pass("PASS test_metrics_companion_catalog_alias_reopen_backup_and_upgrade"))
    } else {
        None
    }
}

/// The suite of the companion catalog: what is done at a place, from 0 on.
pub open spec fn run_at(i: int) -> Option<Action> {
    if i < 24 {
        run_part_0_at(i)
    } else {
        run_part_1_at(i - 24)
    }
}

/// The suite of the companion catalog: what is done at a place, from 0 on.
pub fn run(i: usize) -> (action: Option<Action>)
    ensures
        action == run_at(i as int),
{
    if i < 24 {
        run_part_0(i)
    } else {
        run_part_1(i - 24)
    }
}

/// The script has an action at every place below 34, and none from there on.
pub proof fn run_ends(i: int)
    ensures
        run_at(i) is Some <==> 0 <= i < 34,
{
}

} // verus!
