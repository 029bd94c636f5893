//! Attached schemas: isolation, quoted names, private schemas and aliases.
use crate::gate::{Action, Argument, Arguments, Database, Expected, Rows};
use crate::values::{Literal, Row};
use vstd::prelude::*;

verus! {

/// A part of the script.
pub open spec fn complete_lifecycle_part_0_at(i: int) -> Option<Action> {
    if i == 0 {
        Some(Action::Open(0, Database::Named("main.db")))
    } else if i == 1 {
        Some(Action::Execute(0, "ATTACH DATABASE ?1 AS \"aux\"", Arguments::One(Argument::Path(Database::Named("aux.db"))), Expected::Done))
    } else if i == 2 {
        Some(Action::Execute(0, "CREATE VIRTUAL TABLE \"aux\".\"metrics\" USING timeless_metrics", Arguments::Zero, Expected::Done))
    } else if i == 3 {
        Some(Action::Execute(0, "CREATE VIRTUAL TABLE \"aux\".\"logs\" USING timeless_logs(index_keys=service)", Arguments::Zero, Expected::Done))
    } else if i == 4 {
        Some(Action::Execute(0, "CREATE VIRTUAL TABLE \"aux\".\"traces\" USING timeless_traces", Arguments::Zero, Expected::Done))
    } else if i == 5 {
        Some(Action::Query(0, "SELECT type,name FROM \"aux\".sqlite_schema WHERE name NOT LIKE 'sqlite_%'", Arguments::Zero, Expected::Objects))
    } else if i == 6 {
        Some(Action::Query(0, "SELECT type,name FROM \"main\".sqlite_schema WHERE name NOT LIKE 'sqlite_%'", Arguments::Zero, Expected::Rows(Rows::Zero)))
    } else if i == 7 {
        Some(Action::Execute(0, "CREATE VIRTUAL TABLE \"main\".\"metrics\" USING timeless_metrics", Arguments::Zero, Expected::Done))
    } else if i == 8 {
        Some(Action::Execute(0, "CREATE VIRTUAL TABLE \"main\".\"logs\" USING timeless_logs(index_keys=service)", Arguments::Zero, Expected::Done))
    } else if i == 9 {
        Some(Action::Execute(0, "CREATE VIRTUAL TABLE \"main\".\"traces\" USING timeless_traces", Arguments::Zero, Expected::Done))
    } else if i == 10 {
        Some(Action::Execute(0, "INSERT INTO \"main\".\"metrics\"(name,ts,value,labels) VALUES(?1,?2,?3,?4)", Arguments::Four(Argument::Text("metric_main"), Argument::Integer(100), Argument::Real(0x3ff8000000000000), Argument::Text("{\"schema\":\"main\"}")), Expected::Done))
    } else if i == 11 {
        Some(Action::Execute(0, "INSERT INTO \"main\".\"logs\"(ts,level,message,metadata) VALUES(?1,'info',?2,?3)", Arguments::Three(Argument::Integer(100), Argument::Text("log_main"), Argument::Text("{\"service\":\"main\"}")), Expected::Done))
    } else if i == 12 {
        Some(Action::Execute(0, "INSERT INTO \"main\".\"traces\"(trace_id,span_id,name,service,start_ts) VALUES(?1,?2,?3,?4,?5)", Arguments::Five(Argument::Fill(17, 16), Argument::Fill(17, 8), Argument::Text("trace_main"), Argument::Text("main"), Argument::Integer(100)), Expected::Done))
    } else if i == 13 {
        Some(Action::Execute(0, "INSERT INTO \"main\".\"metrics\"(\"metrics\") VALUES(?1)", Arguments::One(Argument::Text("flush")), Expected::Done))
    } else if i == 14 {
        Some(Action::Execute(0, "INSERT INTO \"main\".\"logs\"(\"logs\") VALUES(?1)", Arguments::One(Argument::Text("flush")), Expected::Done))
    } else if i == 15 {
        Some(Action::Execute(0, "INSERT INTO \"main\".\"traces\"(\"traces\") VALUES(?1)", Arguments::One(Argument::Text("flush")), Expected::Done))
    } else if i == 16 {
        Some(Action::Execute(0, "INSERT INTO \"aux\".\"metrics\"(name,ts,value,labels) VALUES(?1,?2,?3,?4)", Arguments::Four(Argument::Text("metric_aux"), Argument::Integer(200), Argument::Real(0x3ff8000000000000), Argument::Text("{\"schema\":\"aux\"}")), Expected::Done))
    } else if i == 17 {
        Some(Action::Execute(0, "INSERT INTO \"aux\".\"logs\"(ts,level,message,metadata) VALUES(?1,'info',?2,?3)", Arguments::Three(Argument::Integer(200), Argument::Text("log_aux"), Argument::Text("{\"service\":\"aux\"}")), Expected::Done))
    } else if i == 18 {
        Some(Action::Execute(0, "INSERT INTO \"aux\".\"traces\"(trace_id,span_id,name,service,start_ts) VALUES(?1,?2,?3,?4,?5)", Arguments::Five(Argument::Fill(34, 16), Argument::Fill(34, 8), Argument::Text("trace_aux"), Argument::Text("aux"), Argument::Integer(200)), Expected::Done))
    } else if i == 19 {
        Some(Action::Execute(0, "INSERT INTO \"aux\".\"metrics\"(\"metrics\") VALUES(?1)", Arguments::One(Argument::Text("flush")), Expected::Done))
    } else if i == 20 {
        Some(Action::Execute(0, "INSERT INTO \"aux\".\"logs\"(\"logs\") VALUES(?1)", Arguments::One(Argument::Text("flush")), Expected::Done))
    } else if i == 21 {
        Some(Action::Execute(0, "INSERT INTO \"aux\".\"traces\"(\"traces\") VALUES(?1)", Arguments::One(Argument::Text("flush")), Expected::Done))
    } else if i == 22 {
        Some(Action::Query(0, "SELECT COUNT(*) FROM \"main\".\"metrics\" WHERE \"name\"=?1", Arguments::One(Argument::Text("metric_main")), Expected::First(Row::One(Literal::Integer(1)))))
    } else if i == 23 {
        Some(Action::Query(0, "SELECT COUNT(*) FROM \"main\".\"logs\" WHERE \"message\"=?1", Arguments::One(Argument::Text("log_main")), Expected::First(Row::One(Literal::Integer(1)))))
    } else {
        None
    }
}

fn complete_lifecycle_part_0(i: usize) -> (action: Option<Action>)
    ensures
        action == complete_lifecycle_part_0_at(i as int),
{
    if i == 0 {
        Some(Action::Open(0, Database::Named("main.db")))
    } else if i == 1 {
        Some(Action::Execute(0, "ATTACH DATABASE ?1 AS \"aux\"", Arguments::One(Argument::Path(Database::Named("aux.db"))), Expected::Done))
    } else if i == 2 {
        Some(Action::Execute(0, "CREATE VIRTUAL TABLE \"aux\".\"metrics\" USING timeless_metrics", Arguments::Zero, Expected::Done))
    } else if i == 3 {
        Some(Action::Execute(0, "CREATE VIRTUAL TABLE \"aux\".\"logs\" USING timeless_logs(index_keys=service)", Arguments::Zero, Expected::Done))
    } else if i == 4 {
        Some(Action::Execute(0, "CREATE VIRTUAL TABLE \"aux\".\"traces\" USING timeless_traces", Arguments::Zero, Expected::Done))
    } else if i == 5 {
        Some(Action::Query(0, "SELECT type,name FROM \"aux\".sqlite_schema WHERE name NOT LIKE 'sqlite_%'", Arguments::Zero, Expected::Objects))
    } else if i == 6 {
        Some(Action::Query(0, "SELECT type,name FROM \"main\".sqlite_schema WHERE name NOT LIKE 'sqlite_%'", Arguments::Zero, Expected::Rows(Rows::Zero)))
    } else if i == 7 {
        Some(Action::Execute(0, "CREATE VIRTUAL TABLE \"main\".\"metrics\" USING timeless_metrics", Arguments::Zero, Expected::Done))
    } else if i == 8 {
        Some(Action::Execute(0, "CREATE VIRTUAL TABLE \"main\".\"logs\" USING timeless_logs(index_keys=service)", Arguments::Zero, Expected::Done))
    } else if i == 9 {
        Some(Action::Execute(0, "CREATE VIRTUAL TABLE \"main\".\"traces\" USING timeless_traces", Arguments::Zero, Expected::Done))
    } else if i == 10 {
        Some(Action::Execute(0, "INSERT INTO \"main\".\"metrics\"(name,ts,value,labels) VALUES(?1,?2,?3,?4)", Arguments::Four(Argument::Text("metric_main"), Argument::Integer(100), Argument::Real(0x3ff8000000000000), Argument::Text("{\"schema\":\"main\"}")), Expected::Done))
    } else if i == 11 {
        Some(Action::Execute(0, "INSERT INTO \"main\".\"logs\"(ts,level,message,metadata) VALUES(?1,'info',?2,?3)", Arguments::Three(Argument::Integer(100), Argument::Text("log_main"), Argument::Text("{\"service\":\"main\"}")), Expected::Done))
    } else if i == 12 {
        Some(Action::Execute(0, "INSERT INTO \"main\".\"traces\"(trace_id,span_id,name,service,start_ts) VALUES(?1,?2,?3,?4,?5)", Arguments::Five(Argument::Fill(17, 16), Argument::Fill(17, 8), Argument::Text("trace_main"), Argument::Text("main"), Argument::Integer(100)), Expected::Done))
    } else if i == 13 {
        Some(Action::Execute(0, "INSERT INTO \"main\".\"metrics\"(\"metrics\") VALUES(?1)", Arguments::One(Argument::Text("flush")), Expected::Done))
    } else if i == 14 {
        Some(Action::Execute(0, "INSERT INTO \"main\".\"logs\"(\"logs\") VALUES(?1)", Arguments::One(Argument::Text("flush")), Expected::Done))
    } else if i == 15 {
        Some(Action::Execute(0, "INSERT INTO \"main\".\"traces\"(\"traces\") VALUES(?1)", Arguments::One(Argument::Text("flush")), Expected::Done))
    } else if i == 16 {
        Some(Action::Execute(0, "INSERT INTO \"aux\".\"metrics\"(name,ts,value,labels) VALUES(?1,?2,?3,?4)", Arguments::Four(Argument::Text("metric_aux"), Argument::Integer(200), Argument::Real(0x3ff8000000000000), Argument::Text("{\"schema\":\"aux\"}")), Expected::Done))
    } else if i == 17 {
        Some(Action::Execute(0, "INSERT INTO \"aux\".\"logs\"(ts,level,message,metadata) VALUES(?1,'info',?2,?3)", Arguments::Three(Argument::Integer(200), Argument::Text("log_aux"), Argument::Text("{\"service\":\"aux\"}")), Expected::Done))
    } else if i == 18 {
        Some(Action::Execute(0, "INSERT INTO \"aux\".\"traces\"(trace_id,span_id,name,service,start_ts) VALUES(?1,?2,?3,?4,?5)", Arguments::Five(Argument::Fill(34, 16), Argument::Fill(34, 8), Argument::Text("trace_aux"), Argument::Text("aux"), Argument::Integer(200)), Expected::Done))
    } else if i == 19 {
        Some(Action::Execute(0, "INSERT INTO \"aux\".\"metrics\"(\"metrics\") VALUES(?1)", Arguments::One(Argument::Text("flush")), Expected::Done))
    } else if i == 20 {
        Some(Action::Execute(0, "INSERT INTO \"aux\".\"logs\"(\"logs\") VALUES(?1)", Arguments::One(Argument::Text("flush")), Expected::Done))
    } else if i == 21 {
        Some(Action::Execute(0, "INSERT INTO \"aux\".\"traces\"(\"traces\") VALUES(?1)", Arguments::One(Argument::Text("flush")), Expected::Done))
    } else if i == 22 {
        Some(Action::Query(0, "SELECT COUNT(*) FROM \"main\".\"metrics\" WHERE \"name\"=?1", Arguments::One(Argument::Text("metric_main")), Expected::First(Row::One(Literal::Integer(1)))))
    } else if i == 23 {
        Some(Action::Query(0, "SELECT COUNT(*) FROM \"main\".\"logs\" WHERE \"message\"=?1", Arguments::One(Argument::Text("log_main")), Expected::First(Row::One(Literal::Integer(1)))))
    } else {
        None
    }
}

/// A part of the script.
pub open spec fn complete_lifecycle_part_1_at(i: int) -> Option<Action> {
    if i == 0 {
        Some(Action::Query(0, "SELECT COUNT(*) FROM \"main\".\"traces\" WHERE \"name\"=?1", Arguments::One(Argument::Text("trace_main")), Expected::First(Row::One(Literal::Integer(1)))))
    } else if i == 1 {
        Some(Action::Query(0, "SELECT COUNT(*) FROM \"aux\".\"metrics\" WHERE \"name\"=?1", Arguments::One(Argument::Text("metric_aux")), Expected::First(Row::One(Literal::Integer(1)))))
    } else if i == 2 {
        Some(Action::Query(0, "SELECT COUNT(*) FROM \"aux\".\"logs\" WHERE \"message\"=?1", Arguments::One(Argument::Text("log_aux")), Expected::First(Row::One(Literal::Integer(1)))))
    } else if i == 3 {
        Some(Action::Query(0, "SELECT COUNT(*) FROM \"aux\".\"traces\" WHERE \"name\"=?1", Arguments::One(Argument::Text("trace_aux")), Expected::First(Row::One(Literal::Integer(1)))))
    } else if i == 4 {
        Some(Action::Query(0, "SELECT COUNT(*) FROM main.metrics_chunks", Arguments::Zero, Expected::First(Row::One(Literal::Integer(1)))))
    } else if i == 5 {
        Some(Action::Query(0, "SELECT COUNT(*) FROM main.logs_blocks", Arguments::Zero, Expected::First(Row::One(Literal::Integer(1)))))
    } else if i == 6 {
        Some(Action::Query(0, "SELECT COUNT(*) FROM main.traces_blocks", Arguments::Zero, Expected::First(Row::One(Literal::Integer(1)))))
    } else if i == 7 {
        Some(Action::Query(0, "SELECT COUNT(*) FROM aux.metrics_chunks", Arguments::Zero, Expected::First(Row::One(Literal::Integer(1)))))
    } else if i == 8 {
        Some(Action::Query(0, "SELECT COUNT(*) FROM aux.logs_blocks", Arguments::Zero, Expected::First(Row::One(Literal::Integer(1)))))
    } else if i == 9 {
        Some(Action::Query(0, "SELECT COUNT(*) FROM aux.traces_blocks", Arguments::Zero, Expected::First(Row::One(Literal::Integer(1)))))
    } else if i == 10 {
        Some(Action::Execute(0, "INSERT INTO \"aux\".\"metrics\"(\"metrics\") VALUES(?1)", Arguments::One(Argument::Text("compact")), Expected::Done))
    } else if i == 11 {
        Some(Action::Execute(0, "INSERT INTO \"aux\".\"logs\"(\"logs\") VALUES(?1)", Arguments::One(Argument::Text("optimize")), Expected::Done))
    } else if i == 12 {
        Some(Action::Execute(0, "INSERT INTO \"aux\".\"traces\"(\"traces\") VALUES(?1)", Arguments::One(Argument::Text("optimize")), Expected::Done))
    } else if i == 13 {
        Some(Action::Execute(0, "INSERT INTO \"aux\".\"metrics\"(\"metrics\") VALUES(?1)", Arguments::One(Argument::Text("prune:150")), Expected::Done))
    } else if i == 14 {
        Some(Action::Execute(0, "INSERT INTO \"aux\".\"logs\"(\"logs\") VALUES(?1)", Arguments::One(Argument::Text("prune:150")), Expected::Done))
    } else if i == 15 {
        Some(Action::Execute(0, "INSERT INTO \"aux\".\"traces\"(\"traces\") VALUES(?1)", Arguments::One(Argument::Text("prune:150")), Expected::Done))
    } else if i == 16 {
        Some(Action::Query(0, "SELECT COUNT(*) FROM \"main\".\"metrics\" WHERE \"name\"=?1", Arguments::One(Argument::Text("metric_main")), Expected::First(Row::One(Literal::Integer(1)))))
    } else if i == 17 {
        Some(Action::Query(0, "SELECT COUNT(*) FROM \"main\".\"logs\" WHERE \"message\"=?1", Arguments::One(Argument::Text("log_main")), Expected::First(Row::One(Literal::Integer(1)))))
    } else if i == 18 {
        Some(Action::Query(0, "SELECT COUNT(*) FROM \"main\".\"traces\" WHERE \"name\"=?1", Arguments::One(Argument::Text("trace_main")), Expected::First(Row::One(Literal::Integer(1)))))
    } else if i == 19 {
        Some(Action::Query(0, "SELECT COUNT(*) FROM \"aux\".\"metrics\" WHERE \"name\"=?1", Arguments::One(Argument::Text("metric_aux")), Expected::First(Row::One(Literal::Integer(1)))))
    } else if i == 20 {
        Some(Action::Query(0, "SELECT COUNT(*) FROM \"aux\".\"logs\" WHERE \"message\"=?1", Arguments::One(Argument::Text("log_aux")), Expected::First(Row::One(Literal::Integer(1)))))
    } else if i == 21 {
        Some(Action::Query(0, "SELECT COUNT(*) FROM \"aux\".\"traces\" WHERE \"name\"=?1", Arguments::One(Argument::Text("trace_aux")), Expected::First(Row::One(Literal::Integer(1)))))
    } else if i == 22 {
        Some(Action::Execute(0, "DETACH DATABASE aux", Arguments::Zero, Expected::Done))
    } else if i == 23 {
        Some(Action::Execute(0, "ATTACH DATABASE ?1 AS aux", Arguments::One(Argument::Path(Database::Named("aux.db"))), Expected::Done))
    } else {
        None
    }
}

fn complete_lifecycle_part_1(i: usize) -> (action: Option<Action>)
    ensures
        action == complete_lifecycle_part_1_at(i as int),
{
    if i == 0 {
        Some(Action::Query(0, "SELECT COUNT(*) FROM \"main\".\"traces\" WHERE \"name\"=?1", Arguments::One(Argument::Text("trace_main")), Expected::First(Row::One(Literal::Integer(1)))))
    } else if i == 1 {
        Some(Action::Query(0, "SELECT COUNT(*) FROM \"aux\".\"metrics\" WHERE \"name\"=?1", Arguments::One(Argument::Text("metric_aux")), Expected::First(Row::One(Literal::Integer(1)))))
    } else if i == 2 {
        Some(Action::Query(0, "SELECT COUNT(*) FROM \"aux\".\"logs\" WHERE \"message\"=?1", Arguments::One(Argument::Text("log_aux")), Expected::First(Row::One(Literal::Integer(1)))))
    } else if i == 3 {
        Some(Action::Query(0, "SELECT COUNT(*) FROM \"aux\".\"traces\" WHERE \"name\"=?1", Arguments::One(Argument::Text("trace_aux")), Expected::First(Row::One(Literal::Integer(1)))))
    } else if i == 4 {
        Some(Action::Query(0, "SELECT COUNT(*) FROM main.metrics_chunks", Arguments::Zero, Expected::First(Row::One(Literal::Integer(1)))))
    } else if i == 5 {
        Some(Action::Query(0, "SELECT COUNT(*) FROM main.logs_blocks", Arguments::Zero, Expected::First(Row::One(Literal::Integer(1)))))
    } else if i == 6 {
        Some(Action::Query(0, "SELECT COUNT(*) FROM main.traces_blocks", Arguments::Zero, Expected::First(Row::One(Literal::Integer(1)))))
    } else if i == 7 {
        Some(Action::Query(0, "SELECT COUNT(*) FROM aux.metrics_chunks", Arguments::Zero, Expected::First(Row::One(Literal::Integer(1)))))
    } else if i == 8 {
        Some(Action::Query(0, "SELECT COUNT(*) FROM aux.logs_blocks", Arguments::Zero, Expected::First(Row::One(Literal::Integer(1)))))
    } else if i == 9 {
        Some(Action::Query(0, "SELECT COUNT(*) FROM aux.traces_blocks", Arguments::Zero, Expected::First(Row::One(Literal::Integer(1)))))
    } else if i == 10 {
        Some(Action::Execute(0, "INSERT INTO \"aux\".\"metrics\"(\"metrics\") VALUES(?1)", Arguments::One(Argument::Text("compact")), Expected::Done))
    } else if i == 11 {
        Some(Action::Execute(0, "INSERT INTO \"aux\".\"logs\"(\"logs\") VALUES(?1)", Arguments::One(Argument::Text("optimize")), Expected::Done))
    } else if i == 12 {
        Some(Action::Execute(0, "INSERT INTO \"aux\".\"traces\"(\"traces\") VALUES(?1)", Arguments::One(Argument::Text("optimize")), Expected::Done))
    } else if i == 13 {
        Some(Action::Execute(0, "INSERT INTO \"aux\".\"metrics\"(\"metrics\") VALUES(?1)", Arguments::One(Argument::Text("prune:150")), Expected::Done))
    } else if i == 14 {
        Some(Action::Execute(0, "INSERT INTO \"aux\".\"logs\"(\"logs\") VALUES(?1)", Arguments::One(Argument::Text("prune:150")), Expected::Done))
    } else if i == 15 {
        Some(Action::Execute(0, "INSERT INTO \"aux\".\"traces\"(\"traces\") VALUES(?1)", Arguments::One(Argument::Text("prune:150")), Expected::Done))
    } else if i == 16 {
        Some(Action::Query(0, "SELECT COUNT(*) FROM \"main\".\"metrics\" WHERE \"name\"=?1", Arguments::One(Argument::Text("metric_main")), Expected::First(Row::One(Literal::Integer(1)))))
    } else if i == 17 {
        Some(Action::Query(0, "SELECT COUNT(*) FROM \"main\".\"logs\" WHERE \"message\"=?1", Arguments::One(Argument::Text("log_main")), Expected::First(Row::One(Literal::Integer(1)))))
    } else if i == 18 {
        Some(Action::Query(0, "SELECT COUNT(*) FROM \"main\".\"traces\" WHERE \"name\"=?1", Arguments::One(Argument::Text("trace_main")), Expected::First(Row::One(Literal::Integer(1)))))
    } else if i == 19 {
        Some(Action::Query(0, "SELECT COUNT(*) FROM \"aux\".\"metrics\" WHERE \"name\"=?1", Arguments::One(Argument::Text("metric_aux")), Expected::First(Row::One(Literal::Integer(1)))))
    } else if i == 20 {
        Some(Action::Query(0, "SELECT COUNT(*) FROM \"aux\".\"logs\" WHERE \"message\"=?1", Arguments::One(Argument::Text("log_aux")), Expected::First(Row::One(Literal::Integer(1)))))
    } else if i == 21 {
        Some(Action::Query(0, "SELECT COUNT(*) FROM \"aux\".\"traces\" WHERE \"name\"=?1", Arguments::One(Argument::Text("trace_aux")), Expected::First(Row::One(Literal::Integer(1)))))
    } else if i == 22 {
        Some(Action::Execute(0, "DETACH DATABASE aux", Arguments::Zero, Expected::Done))
    } else if i == 23 {
        Some(Action::Execute(0, "ATTACH DATABASE ?1 AS aux", Arguments::One(Argument::Path(Database::Named("aux.db"))), Expected::Done))
    } else {
        None
    }
}

/// A part of the script.
pub open spec fn complete_lifecycle_part_2_at(i: int) -> Option<Action> {
    if i == 0 {
        Some(Action::Query(0, "SELECT COUNT(*) FROM \"main\".\"metrics\" WHERE \"name\"=?1", Arguments::One(Argument::Text("metric_main")), Expected::First(Row::One(Literal::Integer(1)))))
    } else if i == 1 {
        Some(Action::Query(0, "SELECT COUNT(*) FROM \"main\".\"logs\" WHERE \"message\"=?1", Arguments::One(Argument::Text("log_main")), Expected::First(Row::One(Literal::Integer(1)))))
    } else if i == 2 {
        Some(Action::Query(0, "SELECT COUNT(*) FROM \"main\".\"traces\" WHERE \"name\"=?1", Arguments::One(Argument::Text("trace_main")), Expected::First(Row::One(Literal::Integer(1)))))
    } else if i == 3 {
        Some(Action::Query(0, "SELECT COUNT(*) FROM \"aux\".\"metrics\" WHERE \"name\"=?1", Arguments::One(Argument::Text("metric_aux")), Expected::First(Row::One(Literal::Integer(1)))))
    } else if i == 4 {
        Some(Action::Query(0, "SELECT COUNT(*) FROM \"aux\".\"logs\" WHERE \"message\"=?1", Arguments::One(Argument::Text("log_aux")), Expected::First(Row::One(Literal::Integer(1)))))
    } else if i == 5 {
        Some(Action::Query(0, "SELECT COUNT(*) FROM \"aux\".\"traces\" WHERE \"name\"=?1", Arguments::One(Argument::Text("trace_aux")), Expected::First(Row::One(Literal::Integer(1)))))
    } else if i == 6 {
        Some(Action::Backup(0, "aux", Database::Named("aux-backup.db")))
    } else if i == 7 {
        Some(Action::Close(0))
    } else if i == 8 {
        Some(Action::Open(0, Database::Named("main.db")))
    } else if i == 9 {
        Some(Action::Execute(0, "ATTACH DATABASE ?1 AS \"aux\"", Arguments::One(Argument::Path(Database::Named("aux.db"))), Expected::Done))
    } else if i == 10 {
        Some(Action::Query(0, "SELECT COUNT(*) FROM \"main\".\"metrics\" WHERE \"name\"=?1", Arguments::One(Argument::Text("metric_main")), Expected::First(Row::One(Literal::Integer(1)))))
    } else if i == 11 {
        Some(Action::Query(0, "SELECT COUNT(*) FROM \"main\".\"logs\" WHERE \"message\"=?1", Arguments::One(Argument::Text("log_main")), Expected::First(Row::One(Literal::Integer(1)))))
    } else if i == 12 {
        Some(Action::Query(0, "SELECT COUNT(*) FROM \"main\".\"traces\" WHERE \"name\"=?1", Arguments::One(Argument::Text("trace_main")), Expected::First(Row::One(Literal::Integer(1)))))
    } else if i == 13 {
        Some(Action::Query(0, "SELECT COUNT(*) FROM \"aux\".\"metrics\" WHERE \"name\"=?1", Arguments::One(Argument::Text("metric_aux")), Expected::First(Row::One(Literal::Integer(1)))))
    } else if i == 14 {
        Some(Action::Query(0, "SELECT COUNT(*) FROM \"aux\".\"logs\" WHERE \"message\"=?1", Arguments::One(Argument::Text("log_aux")), Expected::First(Row::One(Literal::Integer(1)))))
    } else if i == 15 {
        Some(Action::Query(0, "SELECT COUNT(*) FROM \"aux\".\"traces\" WHERE \"name\"=?1", Arguments::One(Argument::Text("trace_aux")), Expected::First(Row::One(Literal::Integer(1)))))
    } else if i == 16 {
        Some(Action::Open(1, Database::Named("aux-backup.db")))
    } else if i == 17 {
        Some(Action::Query(1, "SELECT COUNT(*) FROM \"main\".\"metrics\" WHERE \"name\"=?1", Arguments::One(Argument::Text("metric_aux")), Expected::First(Row::One(Literal::Integer(1)))))
    } else if i == 18 {
        Some(Action::Query(1, "SELECT COUNT(*) FROM \"main\".\"logs\" WHERE \"message\"=?1", Arguments::One(Argument::Text("log_aux")), Expected::First(Row::One(Literal::Integer(1)))))
    } else if i == 19 {
        Some(Action::Query(1, "SELECT COUNT(*) FROM \"main\".\"traces\" WHERE \"name\"=?1", Arguments::One(Argument::Text("trace_aux")), Expected::First(Row::One(Literal::Integer(1)))))
    } else if i == 20 {
        Some(Action::Close(1))
    } else if i == 21 {
        Some(Action::Execute(0, "DROP TABLE \"aux\".\"metrics\"", Arguments::Zero, Expected::Done))
    } else if i == 22 {
        Some(Action::Execute(0, "DROP TABLE \"aux\".\"logs\"", Arguments::Zero, Expected::Done))
    } else if i == 23 {
        Some(Action::Execute(0, "DROP TABLE \"aux\".\"traces\"", Arguments::Zero, Expected::Done))
    } else {
        None
    }
}

fn complete_lifecycle_part_2(i: usize) -> (action: Option<Action>)
    ensures
        action == complete_lifecycle_part_2_at(i as int),
{
    if i == 0 {
        Some(Action::Query(0, "SELECT COUNT(*) FROM \"main\".\"metrics\" WHERE \"name\"=?1", Arguments::One(Argument::Text("metric_main")), Expected::First(Row::One(Literal::Integer(1)))))
    } else if i == 1 {
        Some(Action::Query(0, "SELECT COUNT(*) FROM \"main\".\"logs\" WHERE \"message\"=?1", Arguments::One(Argument::Text("log_main")), Expected::First(Row::One(Literal::Integer(1)))))
    } else if i == 2 {
        Some(Action::Query(0, "SELECT COUNT(*) FROM \"main\".\"traces\" WHERE \"name\"=?1", Arguments::One(Argument::Text("trace_main")), Expected::First(Row::One(Literal::Integer(1)))))
    } else if i == 3 {
        Some(Action::Query(0, "SELECT COUNT(*) FROM \"aux\".\"metrics\" WHERE \"name\"=?1", Arguments::One(Argument::Text("metric_aux")), Expected::First(Row::One(Literal::Integer(1)))))
    } else if i == 4 {
        Some(Action::Query(0, "SELECT COUNT(*) FROM \"aux\".\"logs\" WHERE \"message\"=?1", Arguments::One(Argument::Text("log_aux")), Expected::First(Row::One(Literal::Integer(1)))))
    } else if i == 5 {
        Some(Action::Query(0, "SELECT COUNT(*) FROM \"aux\".\"traces\" WHERE \"name\"=?1", Arguments::One(Argument::Text("trace_aux")), Expected::First(Row::One(Literal::Integer(1)))))
    } else if i == 6 {
        Some(Action::Backup(0, "aux", Database::Named("aux-backup.db")))
    } else if i == 7 {
        Some(Action::Close(0))
    } else if i == 8 {
        Some(Action::Open(0, Database::Named("main.db")))
    } else if i == 9 {
        Some(Action::Execute(0, "ATTACH DATABASE ?1 AS \"aux\"", Arguments::One(Argument::Path(Database::Named("aux.db"))), Expected::Done))
    } else if i == 10 {
        Some(Action::Query(0, "SELECT COUNT(*) FROM \"main\".\"metrics\" WHERE \"name\"=?1", Arguments::One(Argument::Text("metric_main")), Expected::First(Row::One(Literal::Integer(1)))))
    } else if i == 11 {
        Some(Action::Query(0, "SELECT COUNT(*) FROM \"main\".\"logs\" WHERE \"message\"=?1", Arguments::One(Argument::Text("log_main")), Expected::First(Row::One(Literal::Integer(1)))))
    } else if i == 12 {
        Some(Action::Query(0, "SELECT COUNT(*) FROM \"main\".\"traces\" WHERE \"name\"=?1", Arguments::One(Argument::Text("trace_main")), Expected::First(Row::One(Literal::Integer(1)))))
    } else if i == 13 {
        Some(Action::Query(0, "SELECT COUNT(*) FROM \"aux\".\"metrics\" WHERE \"name\"=?1", Arguments::One(Argument::Text("metric_aux")), Expected::First(Row::One(Literal::Integer(1)))))
    } else if i == 14 {
        Some(Action::Query(0, "SELECT COUNT(*) FROM \"aux\".\"logs\" WHERE \"message\"=?1", Arguments::One(Argument::Text("log_aux")), Expected::First(Row::One(Literal::Integer(1)))))
    } else if i == 15 {
        Some(Action::Query(0, "SELECT COUNT(*) FROM \"aux\".\"traces\" WHERE \"name\"=?1", Arguments::One(Argument::Text("trace_aux")), Expected::First(Row::One(Literal::Integer(1)))))
    } else if i == 16 {
        Some(Action::Open(1, Database::Named("aux-backup.db")))
    } else if i == 17 {
        Some(Action::Query(1, "SELECT COUNT(*) FROM \"main\".\"metrics\" WHERE \"name\"=?1", Arguments::One(Argument::Text("metric_aux")), Expected::First(Row::One(Literal::Integer(1)))))
    } else if i == 18 {
        Some(Action::Query(1, "SELECT COUNT(*) FROM \"main\".\"logs\" WHERE \"message\"=?1", Arguments::One(Argument::Text("log_aux")), Expected::First(Row::One(Literal::Integer(1)))))
    } else if i == 19 {
        Some(Action::Query(1, "SELECT COUNT(*) FROM \"main\".\"traces\" WHERE \"name\"=?1", Arguments::One(Argument::Text("trace_aux")), Expected::First(Row::One(Literal::Integer(1)))))
    } else if i == 20 {
        Some(Action::Close(1))
    } else if i == 21 {
        Some(Action::Execute(0, "DROP TABLE \"aux\".\"metrics\"", Arguments::Zero, Expected::Done))
    } else if i == 22 {
        Some(Action::Execute(0, "DROP TABLE \"aux\".\"logs\"", Arguments::Zero, Expected::Done))
    } else if i == 23 {
        Some(Action::Execute(0, "DROP TABLE \"aux\".\"traces\"", Arguments::Zero, Expected::Done))
    } else {
        None
    }
}

/// A part of the script.
pub open spec fn complete_lifecycle_part_3_at(i: int) -> Option<Action> {
    if i == 0 {
        Some(Action::Query(0, "SELECT type,name FROM \"aux\".sqlite_schema WHERE name NOT LIKE 'sqlite_%'", Arguments::Zero, Expected::Rows(Rows::Zero)))
    } else if i == 1 {
        Some(Action::Query(0, "SELECT COUNT(*) FROM \"main\".\"metrics\" WHERE \"name\"=?1", Arguments::One(Argument::Text("metric_main")), Expected::First(Row::One(Literal::Integer(1)))))
    } else if i == 2 {
        Some(Action::Query(0, "SELECT COUNT(*) FROM \"main\".\"logs\" WHERE \"message\"=?1", Arguments::One(Argument::Text("log_main")), Expected::First(Row::One(Literal::Integer(1)))))
    } else if i == 3 {
        Some(Action::Query(0, "SELECT COUNT(*) FROM \"main\".\"traces\" WHERE \"name\"=?1", Arguments::One(Argument::Text("trace_main")), Expected::First(Row::One(Literal::Integer(1)))))
    } else if i == 4 {
        Some(Action::Close(0))
    } else {
        None
    }
}

fn complete_lifecycle_part_3(i: usize) -> (action: Option<Action>)
    ensures
        action == complete_lifecycle_part_3_at(i as int),
{
    if i == 0 {
        Some(Action::Query(0, "SELECT type,name FROM \"aux\".sqlite_schema WHERE name NOT LIKE 'sqlite_%'", Arguments::Zero, Expected::Rows(Rows::Zero)))
    } else if i == 1 {
        Some(Action::Query(0, "SELECT COUNT(*) FROM \"main\".\"metrics\" WHERE \"name\"=?1", Arguments::One(Argument::Text("metric_main")), Expected::First(Row::One(Literal::Integer(1)))))
    } else if i == 2 {
        Some(Action::Query(0, "SELECT COUNT(*) FROM \"main\".\"logs\" WHERE \"message\"=?1", Arguments::One(Argument::Text("log_main")), Expected::First(Row::One(Literal::Integer(1)))))
    } else if i == 3 {
        Some(Action::Query(0, "SELECT COUNT(*) FROM \"main\".\"traces\" WHERE \"name\"=?1", Arguments::One(Argument::Text("trace_main")), Expected::First(Row::One(Literal::Integer(1)))))
    } else if i == 4 {
        Some(Action::Close(0))
    } else {
        None
    }
}

/// Two schemas of one connection do not touch each other, through maintenance,
/// detaching, copying and dropping: what is done at a place, from 0 on.
pub open spec fn complete_lifecycle_at(i: int) -> Option<Action> {
    if i < 24 {
        complete_lifecycle_part_0_at(i)
    } else if i < 48 {
        complete_lifecycle_part_1_at(i - 24)
    } else if i < 72 {
        complete_lifecycle_part_2_at(i - 48)
    } else {
        complete_lifecycle_part_3_at(i - 72)
    }
}

/// Two schemas of one connection do not touch each other, through maintenance,
/// detaching, copying and dropping: what is done at a place, from 0 on.
pub fn complete_lifecycle(i: usize) -> (action: Option<Action>)
    ensures
        action == complete_lifecycle_at(i as int),
{
    if i < 24 {
        complete_lifecycle_part_0(i)
    } else if i < 48 {
        complete_lifecycle_part_1(i - 24)
    } else if i < 72 {
        complete_lifecycle_part_2(i - 48)
    } else {
        complete_lifecycle_part_3(i - 72)
    }
}

/// Schemas and tables may have double quotes in their names: what is done at a place, from 0 on.
pub open spec fn quoted_names_at(i: int) -> Option<Action> {
    if i == 0 {
        Some(Action::Open(0, Database::Named("quoted-main.db")))
    } else if i == 1 {
        Some(Action::Execute(0, "ATTACH DATABASE ?1 AS \"aux\"\"quoted\"", Arguments::One(Argument::Path(Database::Named("quoted-aux.db"))), Expected::Done))
    } else if i == 2 {
        Some(Action::Execute(0, "CREATE VIRTUAL TABLE \"aux\"\"quoted\".\"metrics\"\"quoted\" USING timeless_metrics", Arguments::Zero, Expected::Done))
    } else if i == 3 {
        Some(Action::Execute(0, "CREATE VIRTUAL TABLE \"aux\"\"quoted\".\"logs\"\"quoted\" USING timeless_logs", Arguments::Zero, Expected::Done))
    } else if i == 4 {
        Some(Action::Execute(0, "CREATE VIRTUAL TABLE \"aux\"\"quoted\".\"traces\"\"quoted\" USING timeless_traces", Arguments::Zero, Expected::Done))
    } else if i == 5 {
        Some(Action::Execute(0, "INSERT INTO \"aux\"\"quoted\".\"metrics\"\"quoted\"(name,ts,value) VALUES('quoted_metric',1,1)", Arguments::Zero, Expected::Done))
    } else if i == 6 {
        Some(Action::Execute(0, "INSERT INTO \"aux\"\"quoted\".\"logs\"\"quoted\"(ts,level,message) VALUES(1,'info','quoted_log')", Arguments::Zero, Expected::Done))
    } else if i == 7 {
        Some(Action::Execute(0, "INSERT INTO \"aux\"\"quoted\".\"traces\"\"quoted\"(trace_id,span_id,name,service,start_ts) VALUES(zeroblob(16),zeroblob(8),'quoted_trace','quoted',1)", Arguments::Zero, Expected::Done))
    } else if i == 8 {
        Some(Action::Execute(0, "INSERT INTO \"aux\"\"quoted\".\"metrics\"\"quoted\"(\"metrics\"\"quoted\") VALUES(?1)", Arguments::One(Argument::Text("flush")), Expected::Done))
    } else if i == 9 {
        Some(Action::Execute(0, "INSERT INTO \"aux\"\"quoted\".\"logs\"\"quoted\"(\"logs\"\"quoted\") VALUES(?1)", Arguments::One(Argument::Text("flush")), Expected::Done))
    } else if i == 10 {
        Some(Action::Execute(0, "INSERT INTO \"aux\"\"quoted\".\"traces\"\"quoted\"(\"traces\"\"quoted\") VALUES(?1)", Arguments::One(Argument::Text("flush")), Expected::Done))
    } else if i == 11 {
        Some(Action::Query(0, "SELECT COUNT(*) FROM \"aux\"\"quoted\".\"metrics\"\"quoted\" WHERE \"name\"='quoted_metric'", Arguments::Zero, Expected::First(Row::One(Literal::Integer(1)))))
    } else if i == 12 {
        Some(Action::Query(0, "SELECT COUNT(*) FROM \"aux\"\"quoted\".\"logs\"\"quoted\" WHERE \"message\"='quoted_log'", Arguments::Zero, Expected::First(Row::One(Literal::Integer(1)))))
    } else if i == 13 {
        Some(Action::Query(0, "SELECT COUNT(*) FROM \"aux\"\"quoted\".\"traces\"\"quoted\" WHERE \"name\"='quoted_trace'", Arguments::Zero, Expected::First(Row::One(Literal::Integer(1)))))
    } else if i == 14 {
        Some(Action::Query(0, "SELECT type,name FROM \"main\".sqlite_schema WHERE name NOT LIKE 'sqlite_%'", Arguments::Zero, Expected::Rows(Rows::Zero)))
    } else if i == 15 {
        Some(Action::Close(0))
    } else if i == 16 {
        Some(Action::Open(0, Database::Named("quoted-main.db")))
    } else if i == 17 {
        Some(Action::Execute(0, "ATTACH DATABASE ?1 AS \"aux\"\"quoted\"", Arguments::One(Argument::Path(Database::Named("quoted-aux.db"))), Expected::Done))
    } else if i == 18 {
        Some(Action::Query(0, "SELECT COUNT(*) FROM \"aux\"\"quoted\".\"metrics\"\"quoted\"", Arguments::Zero, Expected::First(Row::One(Literal::Integer(1)))))
    } else if i == 19 {
        Some(Action::Execute(0, "DROP TABLE \"aux\"\"quoted\".\"metrics\"\"quoted\"", Arguments::Zero, Expected::Done))
    } else if i == 20 {
        Some(Action::Execute(0, "DROP TABLE \"aux\"\"quoted\".\"logs\"\"quoted\"", Arguments::Zero, Expected::Done))
    } else if i == 21 {
        Some(Action::Execute(0, "DROP TABLE \"aux\"\"quoted\".\"traces\"\"quoted\"", Arguments::Zero, Expected::Done))
    } else if i == 22 {
        Some(Action::Query(0, "SELECT type,name FROM \"aux\"\"quoted\".sqlite_schema WHERE name NOT LIKE 'sqlite_%'", Arguments::Zero, Expected::Rows(Rows::Zero)))
    } else if i == 23 {
        Some(Action::Close(0))
    } else {
        None
    }
}

/// Schemas and tables may have double quotes in their names: what is done at a place, from 0 on.
pub fn quoted_names(i: usize) -> (action: Option<Action>)
    ensures
        action == quoted_names_at(i as int),
{
    if i == 0 {
        Some(Action::Open(0, Database::Named("quoted-main.db")))
    } else if i == 1 {
        Some(Action::Execute(0, "ATTACH DATABASE ?1 AS \"aux\"\"quoted\"", Arguments::One(Argument::Path(Database::Named("quoted-aux.db"))), Expected::Done))
    } else if i == 2 {
        Some(Action::Execute(0, "CREATE VIRTUAL TABLE \"aux\"\"quoted\".\"metrics\"\"quoted\" USING timeless_metrics", Arguments::Zero, Expected::Done))
    } else if i == 3 {
        Some(Action::Execute(0, "CREATE VIRTUAL TABLE \"aux\"\"quoted\".\"logs\"\"quoted\" USING timeless_logs", Arguments::Zero, Expected::Done))
    } else if i == 4 {
        Some(Action::Execute(0, "CREATE VIRTUAL TABLE \"aux\"\"quoted\".\"traces\"\"quoted\" USING timeless_traces", Arguments::Zero, Expected::Done))
    } else if i == 5 {
        Some(Action::Execute(0, "INSERT INTO \"aux\"\"quoted\".\"metrics\"\"quoted\"(name,ts,value) VALUES('quoted_metric',1,1)", Arguments::Zero, Expected::Done))
    } else if i == 6 {
        Some(Action::Execute(0, "INSERT INTO \"aux\"\"quoted\".\"logs\"\"quoted\"(ts,level,message) VALUES(1,'info','quoted_log')", Arguments::Zero, Expected::Done))
    } else if i == 7 {
        Some(Action::Execute(0, "INSERT INTO \"aux\"\"quoted\".\"traces\"\"quoted\"(trace_id,span_id,name,service,start_ts) VALUES(zeroblob(16),zeroblob(8),'quoted_trace','quoted',1)", Arguments::Zero, Expected::Done))
    } else if i == 8 {
        Some(Action::Execute(0, "INSERT INTO \"aux\"\"quoted\".\"metrics\"\"quoted\"(\"metrics\"\"quoted\") VALUES(?1)", Arguments::One(Argument::Text("flush")), Expected::Done))
    } else if i == 9 {
        Some(Action::Execute(0, "INSERT INTO \"aux\"\"quoted\".\"logs\"\"quoted\"(\"logs\"\"quoted\") VALUES(?1)", Arguments::One(Argument::Text("flush")), Expected::Done))
    } else if i == 10 {
        Some(Action::Execute(0, "INSERT INTO \"aux\"\"quoted\".\"traces\"\"quoted\"(\"traces\"\"quoted\") VALUES(?1)", Arguments::One(Argument::Text("flush")), Expected::Done))
    } else if i == 11 {
        Some(Action::Query(0, "SELECT COUNT(*) FROM \"aux\"\"quoted\".\"metrics\"\"quoted\" WHERE \"name\"='quoted_metric'", Arguments::Zero, Expected::First(Row::One(Literal::Integer(1)))))
    } else if i == 12 {
        Some(Action::Query(0, "SELECT COUNT(*) FROM \"aux\"\"quoted\".\"logs\"\"quoted\" WHERE \"message\"='quoted_log'", Arguments::Zero, Expected::First(Row::One(Literal::Integer(1)))))
    } else if i == 13 {
        Some(Action::Query(0, "SELECT COUNT(*) FROM \"aux\"\"quoted\".\"traces\"\"quoted\" WHERE \"name\"='quoted_trace'", Arguments::Zero, Expected::First(Row::One(Literal::Integer(1)))))
    } else if i == 14 {
        Some(Action::Query(0, "SELECT type,name FROM \"main\".sqlite_schema WHERE name NOT LIKE 'sqlite_%'", Arguments::Zero, Expected::Rows(Rows::Zero)))
    } else if i == 15 {
        Some(Action::Close(0))
    } else if i == 16 {
        Some(Action::Open(0, Database::Named("quoted-main.db")))
    } else if i == 17 {
        Some(Action::Execute(0, "ATTACH DATABASE ?1 AS \"aux\"\"quoted\"", Arguments::One(Argument::Path(Database::Named("quoted-aux.db"))), Expected::Done))
    } else if i == 18 {
        Some(Action::Query(0, "SELECT COUNT(*) FROM \"aux\"\"quoted\".\"metrics\"\"quoted\"", Arguments::Zero, Expected::First(Row::One(Literal::Integer(1)))))
    } else if i == 19 {
        Some(Action::Execute(0, "DROP TABLE \"aux\"\"quoted\".\"metrics\"\"quoted\"", Arguments::Zero, Expected::Done))
    } else if i == 20 {
        Some(Action::Execute(0, "DROP TABLE \"aux\"\"quoted\".\"logs\"\"quoted\"", Arguments::Zero, Expected::Done))
    } else if i == 21 {
        Some(Action::Execute(0, "DROP TABLE \"aux\"\"quoted\".\"traces\"\"quoted\"", Arguments::Zero, Expected::Done))
    } else if i == 22 {
        Some(Action::Query(0, "SELECT type,name FROM \"aux\"\"quoted\".sqlite_schema WHERE name NOT LIKE 'sqlite_%'", Arguments::Zero, Expected::Rows(Rows::Zero)))
    } else if i == 23 {
        Some(Action::Close(0))
    } else {
        None
    }
}

/// Schemas in memory do not share an engine: what is done at a place, from 0 on.
pub open spec fn private_schemas_at(i: int) -> Option<Action> {
    if i == 0 {
        Some(Action::Open(0, Database::Private))
    } else if i == 1 {
        Some(Action::Execute(0, "ATTACH DATABASE ?1 AS \"aux_mem\"", Arguments::One(Argument::Path(Database::Private)), Expected::Done))
    } else if i == 2 {
        Some(Action::Batch(0, "CREATE VIRTUAL TABLE main.metrics USING timeless_metrics; CREATE VIRTUAL TABLE aux_mem.metrics USING timeless_metrics; INSERT INTO main.metrics(name,ts,value) VALUES('main_private',1,1); INSERT INTO aux_mem.metrics(name,ts,value) VALUES('aux_private',2,2);", Expected::Done))
    } else if i == 3 {
        Some(Action::Query(0, "SELECT COUNT(*) FROM main.metrics WHERE name='main_private'", Arguments::Zero, Expected::First(Row::One(Literal::Integer(1)))))
    } else if i == 4 {
        Some(Action::Query(0, "SELECT COUNT(*) FROM main.metrics WHERE name='aux_private'", Arguments::Zero, Expected::First(Row::One(Literal::Integer(0)))))
    } else if i == 5 {
        Some(Action::Query(0, "SELECT COUNT(*) FROM aux_mem.metrics WHERE name='aux_private'", Arguments::Zero, Expected::First(Row::One(Literal::Integer(1)))))
    } else if i == 6 {
        Some(Action::Query(0, "SELECT COUNT(*) FROM aux_mem.metrics WHERE name='main_private'", Arguments::Zero, Expected::First(Row::One(Literal::Integer(0)))))
    } else if i == 7 {
        Some(Action::Execute(0, "INSERT INTO \"main\".\"metrics\"(\"metrics\") VALUES(?1)", Arguments::One(Argument::Text("flush")), Expected::Done))
    } else if i == 8 {
        Some(Action::Execute(0, "INSERT INTO \"aux_mem\".\"metrics\"(\"metrics\") VALUES(?1)", Arguments::One(Argument::Text("flush")), Expected::Done))
    } else if i == 9 {
        Some(Action::Query(0, "SELECT COUNT(*) FROM main.metrics_chunks", Arguments::Zero, Expected::First(Row::One(Literal::Integer(1)))))
    } else if i == 10 {
        Some(Action::Query(0, "SELECT COUNT(*) FROM aux_mem.metrics_chunks", Arguments::Zero, Expected::First(Row::One(Literal::Integer(1)))))
    } else if i == 11 {
        Some(Action::Close(0))
    } else {
        None
    }
}

/// Schemas in memory do not share an engine: what is done at a place, from 0 on.
pub fn private_schemas(i: usize) -> (action: Option<Action>)
    ensures
        action == private_schemas_at(i as int),
{
    if i == 0 {
        Some(Action::Open(0, Database::Private))
    } else if i == 1 {
        Some(Action::Execute(0, "ATTACH DATABASE ?1 AS \"aux_mem\"", Arguments::One(Argument::Path(Database::Private)), Expected::Done))
    } else if i == 2 {
        Some(Action::Batch(0, "CREATE VIRTUAL TABLE main.metrics USING timeless_metrics; CREATE VIRTUAL TABLE aux_mem.metrics USING timeless_metrics; INSERT INTO main.metrics(name,ts,value) VALUES('main_private',1,1); INSERT INTO aux_mem.metrics(name,ts,value) VALUES('aux_private',2,2);", Expected::Done))
    } else if i == 3 {
        Some(Action::Query(0, "SELECT COUNT(*) FROM main.metrics WHERE name='main_private'", Arguments::Zero, Expected::First(Row::One(Literal::Integer(1)))))
    } else if i == 4 {
        Some(Action::Query(0, "SELECT COUNT(*) FROM main.metrics WHERE name='aux_private'", Arguments::Zero, Expected::First(Row::One(Literal::Integer(0)))))
    } else if i == 5 {
        Some(Action::Query(0, "SELECT COUNT(*) FROM aux_mem.metrics WHERE name='aux_private'", Arguments::Zero, Expected::First(Row::One(Literal::Integer(1)))))
    } else if i == 6 {
        Some(Action::Query(0, "SELECT COUNT(*) FROM aux_mem.metrics WHERE name='main_private'", Arguments::Zero, Expected::First(Row::One(Literal::Integer(0)))))
    } else if i == 7 {
        Some(Action::Execute(0, "INSERT INTO \"main\".\"metrics\"(\"metrics\") VALUES(?1)", Arguments::One(Argument::Text("flush")), Expected::Done))
    } else if i == 8 {
        Some(Action::Execute(0, "INSERT INTO \"aux_mem\".\"metrics\"(\"metrics\") VALUES(?1)", Arguments::One(Argument::Text("flush")), Expected::Done))
    } else if i == 9 {
        Some(Action::Query(0, "SELECT COUNT(*) FROM main.metrics_chunks", Arguments::Zero, Expected::First(Row::One(Literal::Integer(1)))))
    } else if i == 10 {
        Some(Action::Query(0, "SELECT COUNT(*) FROM aux_mem.metrics_chunks", Arguments::Zero, Expected::First(Row::One(Literal::Integer(1)))))
    } else if i == 11 {
        Some(Action::Close(0))
    } else {
        None
    }
}

/// A part of the script.
pub open spec fn aliased_file_part_0_at(i: int) -> Option<Action> {
    if i == 0 {
        Some(Action::Open(0, Database::Named("aliased-telemetry.db")))
    } else if i == 1 {
        Some(Action::Execute(0, "CREATE VIRTUAL TABLE \"main\".\"metrics\" USING timeless_metrics", Arguments::Zero, Expected::Done))
    } else if i == 2 {
        Some(Action::Execute(0, "CREATE VIRTUAL TABLE \"main\".\"logs\" USING timeless_logs(index_keys=service)", Arguments::Zero, Expected::Done))
    } else if i == 3 {
        Some(Action::Execute(0, "CREATE VIRTUAL TABLE \"main\".\"traces\" USING timeless_traces", Arguments::Zero, Expected::Done))
    } else if i == 4 {
        Some(Action::Execute(0, "INSERT INTO \"main\".\"metrics\"(name,ts,value,labels) VALUES(?1,?2,?3,?4)", Arguments::Four(Argument::Text("metric_main"), Argument::Integer(300), Argument::Real(0x3ff8000000000000), Argument::Text("{\"schema\":\"main\"}")), Expected::Done))
    } else if i == 5 {
        Some(Action::Execute(0, "INSERT INTO \"main\".\"logs\"(ts,level,message,metadata) VALUES(?1,'info',?2,?3)", Arguments::Three(Argument::Integer(300), Argument::Text("log_main"), Argument::Text("{\"service\":\"main\"}")), Expected::Done))
    } else if i == 6 {
        Some(Action::Execute(0, "INSERT INTO \"main\".\"traces\"(trace_id,span_id,name,service,start_ts) VALUES(?1,?2,?3,?4,?5)", Arguments::Five(Argument::Fill(17, 16), Argument::Fill(17, 8), Argument::Text("trace_main"), Argument::Text("main"), Argument::Integer(300)), Expected::Done))
    } else if i == 7 {
        Some(Action::Execute(0, "INSERT INTO \"main\".\"metrics\"(\"metrics\") VALUES(?1)", Arguments::One(Argument::Text("flush")), Expected::Done))
    } else if i == 8 {
        Some(Action::Execute(0, "INSERT INTO \"main\".\"logs\"(\"logs\") VALUES(?1)", Arguments::One(Argument::Text("flush")), Expected::Done))
    } else if i == 9 {
        Some(Action::Execute(0, "INSERT INTO \"main\".\"traces\"(\"traces\") VALUES(?1)", Arguments::One(Argument::Text("flush")), Expected::Done))
    } else if i == 10 {
        Some(Action::Open(1, Database::Named("aliased-other-main.db")))
    } else if i == 11 {
        Some(Action::Execute(1, "ATTACH DATABASE ?1 AS \"renamed_telemetry\"", Arguments::One(Argument::Path(Database::Named("aliased-telemetry.db"))), Expected::Done))
    } else if i == 12 {
        Some(Action::Query(1, "SELECT COUNT(*) FROM \"renamed_telemetry\".\"metrics\" WHERE \"name\"=?1", Arguments::One(Argument::Text("metric_main")), Expected::First(Row::One(Literal::Integer(1)))))
    } else if i == 13 {
        Some(Action::Query(1, "SELECT COUNT(*) FROM \"renamed_telemetry\".\"logs\" WHERE \"message\"=?1", Arguments::One(Argument::Text("log_main")), Expected::First(Row::One(Literal::Integer(1)))))
    } else if i == 14 {
        Some(Action::Query(1, "SELECT COUNT(*) FROM \"renamed_telemetry\".\"traces\" WHERE \"name\"=?1", Arguments::One(Argument::Text("trace_main")), Expected::First(Row::One(Literal::Integer(1)))))
    } else if i == 15 {
        Some(Action::Execute(1, "INSERT INTO \"renamed_telemetry\".\"metrics\"(name,ts,value,labels) VALUES(?1,?2,?3,?4)", Arguments::Four(Argument::Text("metric_aux"), Argument::Integer(400), Argument::Real(0x3ff8000000000000), Argument::Text("{\"schema\":\"aux\"}")), Expected::Done))
    } else if i == 16 {
        Some(Action::Execute(1, "INSERT INTO \"renamed_telemetry\".\"logs\"(ts,level,message,metadata) VALUES(?1,'info',?2,?3)", Arguments::Three(Argument::Integer(400), Argument::Text("log_aux"), Argument::Text("{\"service\":\"aux\"}")), Expected::Done))
    } else if i == 17 {
        Some(Action::Execute(1, "INSERT INTO \"renamed_telemetry\".\"traces\"(trace_id,span_id,name,service,start_ts) VALUES(?1,?2,?3,?4,?5)", Arguments::Five(Argument::Fill(34, 16), Argument::Fill(34, 8), Argument::Text("trace_aux"), Argument::Text("aux"), Argument::Integer(400)), Expected::Done))
    } else if i == 18 {
        Some(Action::Execute(1, "INSERT INTO \"renamed_telemetry\".\"metrics\"(\"metrics\") VALUES(?1)", Arguments::One(Argument::Text("flush")), Expected::Done))
    } else if i == 19 {
        Some(Action::Execute(1, "INSERT INTO \"renamed_telemetry\".\"logs\"(\"logs\") VALUES(?1)", Arguments::One(Argument::Text("flush")), Expected::Done))
    } else if i == 20 {
        Some(Action::Execute(1, "INSERT INTO \"renamed_telemetry\".\"traces\"(\"traces\") VALUES(?1)", Arguments::One(Argument::Text("flush")), Expected::Done))
    } else if i == 21 {
        Some(Action::Query(0, "SELECT COUNT(*) FROM \"main\".\"metrics\" WHERE \"name\"=?1", Arguments::One(Argument::Text("metric_aux")), Expected::First(Row::One(Literal::Integer(1)))))
    } else if i == 22 {
        Some(Action::Query(0, "SELECT COUNT(*) FROM \"main\".\"logs\" WHERE \"message\"=?1", Arguments::One(Argument::Text("log_aux")), Expected::First(Row::One(Literal::Integer(1)))))
    } else if i == 23 {
        Some(Action::Query(0, "SELECT COUNT(*) FROM \"main\".\"traces\" WHERE \"name\"=?1", Arguments::One(Argument::Text("trace_aux")), Expected::First(Row::One(Literal::Integer(1)))))
    } else {
        None
    }
}

fn aliased_file_part_0(i: usize) -> (action: Option<Action>)
    ensures
        action == aliased_file_part_0_at(i as int),
{
    if i == 0 {
        Some(Action::Open(0, Database::Named("aliased-telemetry.db")))
    } else if i == 1 {
        Some(Action::Execute(0, "CREATE VIRTUAL TABLE \"main\".\"metrics\" USING timeless_metrics", Arguments::Zero, Expected::Done))
    } else if i == 2 {
        Some(Action::Execute(0, "CREATE VIRTUAL TABLE \"main\".\"logs\" USING timeless_logs(index_keys=service)", Arguments::Zero, Expected::Done))
    } else if i == 3 {
        Some(Action::Execute(0, "CREATE VIRTUAL TABLE \"main\".\"traces\" USING timeless_traces", Arguments::Zero, Expected::Done))
    } else if i == 4 {
        Some(Action::Execute(0, "INSERT INTO \"main\".\"metrics\"(name,ts,value,labels) VALUES(?1,?2,?3,?4)", Arguments::Four(Argument::Text("metric_main"), Argument::Integer(300), Argument::Real(0x3ff8000000000000), Argument::Text("{\"schema\":\"main\"}")), Expected::Done))
    } else if i == 5 {
        Some(Action::Execute(0, "INSERT INTO \"main\".\"logs\"(ts,level,message,metadata) VALUES(?1,'info',?2,?3)", Arguments::Three(Argument::Integer(300), Argument::Text("log_main"), Argument::Text("{\"service\":\"main\"}")), Expected::Done))
    } else if i == 6 {
        Some(Action::Execute(0, "INSERT INTO \"main\".\"traces\"(trace_id,span_id,name,service,start_ts) VALUES(?1,?2,?3,?4,?5)", Arguments::Five(Argument::Fill(17, 16), Argument::Fill(17, 8), Argument::Text("trace_main"), Argument::Text("main"), Argument::Integer(300)), Expected::Done))
    } else if i == 7 {
        Some(Action::Execute(0, "INSERT INTO \"main\".\"metrics\"(\"metrics\") VALUES(?1)", Arguments::One(Argument::Text("flush")), Expected::Done))
    } else if i == 8 {
        Some(Action::Execute(0, "INSERT INTO \"main\".\"logs\"(\"logs\") VALUES(?1)", Arguments::One(Argument::Text("flush")), Expected::Done))
    } else if i == 9 {
        Some(Action::Execute(0, "INSERT INTO \"main\".\"traces\"(\"traces\") VALUES(?1)", Arguments::One(Argument::Text("flush")), Expected::Done))
    } else if i == 10 {
        Some(Action::Open(1, Database::Named("aliased-other-main.db")))
    } else if i == 11 {
        Some(Action::Execute(1, "ATTACH DATABASE ?1 AS \"renamed_telemetry\"", Arguments::One(Argument::Path(Database::Named("aliased-telemetry.db"))), Expected::Done))
    } else if i == 12 {
        Some(Action::Query(1, "SELECT COUNT(*) FROM \"renamed_telemetry\".\"metrics\" WHERE \"name\"=?1", Arguments::One(Argument::Text("metric_main")), Expected::First(Row::One(Literal::Integer(1)))))
    } else if i == 13 {
        Some(Action::Query(1, "SELECT COUNT(*) FROM \"renamed_telemetry\".\"logs\" WHERE \"message\"=?1", Arguments::One(Argument::Text("log_main")), Expected::First(Row::One(Literal::Integer(1)))))
    } else if i == 14 {
        Some(Action::Query(1, "SELECT COUNT(*) FROM \"renamed_telemetry\".\"traces\" WHERE \"name\"=?1", Arguments::One(Argument::Text("trace_main")), Expected::First(Row::One(Literal::Integer(1)))))
    } else if i == 15 {
        Some(Action::Execute(1, "INSERT INTO \"renamed_telemetry\".\"metrics\"(name,ts,value,labels) VALUES(?1,?2,?3,?4)", Arguments::Four(Argument::Text("metric_aux"), Argument::Integer(400), Argument::Real(0x3ff8000000000000), Argument::Text("{\"schema\":\"aux\"}")), Expected::Done))
    } else if i == 16 {
        Some(Action::Execute(1, "INSERT INTO \"renamed_telemetry\".\"logs\"(ts,level,message,metadata) VALUES(?1,'info',?2,?3)", Arguments::Three(Argument::Integer(400), Argument::Text("log_aux"), Argument::Text("{\"service\":\"aux\"}")), Expected::Done))
    } else if i == 17 {
        Some(Action::Execute(1, "INSERT INTO \"renamed_telemetry\".\"traces\"(trace_id,span_id,name,service,start_ts) VALUES(?1,?2,?3,?4,?5)", Arguments::Five(Argument::Fill(34, 16), Argument::Fill(34, 8), Argument::Text("trace_aux"), Argument::Text("aux"), Argument::Integer(400)), Expected::Done))
    } else if i == 18 {
        Some(Action::Execute(1, "INSERT INTO \"renamed_telemetry\".\"metrics\"(\"metrics\") VALUES(?1)", Arguments::One(Argument::Text("flush")), Expected::Done))
    } else if i == 19 {
        Some(Action::Execute(1, "INSERT INTO \"renamed_telemetry\".\"logs\"(\"logs\") VALUES(?1)", Arguments::One(Argument::Text("flush")), Expected::Done))
    } else if i == 20 {
        Some(Action::Execute(1, "INSERT INTO \"renamed_telemetry\".\"traces\"(\"traces\") VALUES(?1)", Arguments::One(Argument::Text("flush")), Expected::Done))
    } else if i == 21 {
        Some(Action::Query(0, "SELECT COUNT(*) FROM \"main\".\"metrics\" WHERE \"name\"=?1", Arguments::One(Argument::Text("metric_aux")), Expected::First(Row::One(Literal::Integer(1)))))
    } else if i == 22 {
        Some(Action::Query(0, "SELECT COUNT(*) FROM \"main\".\"logs\" WHERE \"message\"=?1", Arguments::One(Argument::Text("log_aux")), Expected::First(Row::One(Literal::Integer(1)))))
    } else if i == 23 {
        Some(Action::Query(0, "SELECT COUNT(*) FROM \"main\".\"traces\" WHERE \"name\"=?1", Arguments::One(Argument::Text("trace_aux")), Expected::First(Row::One(Literal::Integer(1)))))
    } else {
        None
    }
}

/// A part of the script.
pub open spec fn aliased_file_part_1_at(i: int) -> Option<Action> {
    if i == 0 {
        Some(Action::Close(1))
    } else if i == 1 {
        Some(Action::Close(0))
    } else {
        None
    }
}

fn aliased_file_part_1(i: usize) -> (action: Option<Action>)
    ensures
        action == aliased_file_part_1_at(i as int),
{
    if i == 0 {
        Some(Action::Close(1))
    } else if i == 1 {
        Some(Action::Close(0))
    } else {
        None
    }
}

/// One file under two names is one store: what is done at a place, from 0 on.
pub open spec fn aliased_file_at(i: int) -> Option<Action> {
    if i < 24 {
        aliased_file_part_0_at(i)
    } else {
        aliased_file_part_1_at(i - 24)
    }
}

/// One file under two names is one store: what is done at a place, from 0 on.
pub fn aliased_file(i: usize) -> (action: Option<Action>)
    ensures
        action == aliased_file_at(i as int),
{
    if i < 24 {
        aliased_file_part_0(i)
    } else {
        aliased_file_part_1(i - 24)
    }
}

/// The script has an action at every place below 77, and none from there on.
pub proof fn complete_lifecycle_ends(i: int)
    ensures
        complete_lifecycle_at(i) is Some <==> 0 <= i < 77,
{
}

/// The script has an action at every place below 24, and none from there on.
pub proof fn quoted_names_ends(i: int)
    ensures
        quoted_names_at(i) is Some <==> 0 <= i < 24,
{
}

/// The script has an action at every place below 12, and none from there on.
pub proof fn private_schemas_ends(i: int)
    ensures
        private_schemas_at(i) is Some <==> 0 <= i < 12,
{
}

/// The script has an action at every place below 26, and none from there on.
pub proof fn aliased_file_ends(i: int)
    ensures
        aliased_file_at(i) is Some <==> 0 <= i < 26,
{
}

/// A section of the suite.
#[derive(Clone, Copy, Debug, PartialEq, Eq, Structural)]
pub enum Section {
    /// Schemas are isolated through their lives.
    CompleteLifecycle,
    /// Names may hold double quotes.
    QuotedNames,
    /// Private schemas share nothing.
    PrivateSchemas,
    /// Aliases of one file share its store.
    AliasedFile,
}

/// The section at a place, from 0 on.
pub open spec fn section_at(i: int) -> Option<Section> {
    if i == 0 {
        Some(Section::CompleteLifecycle)
    } else if i == 1 {
        Some(Section::QuotedNames)
    } else if i == 2 {
        Some(Section::PrivateSchemas)
    } else if i == 3 {
        Some(Section::AliasedFile)
    } else {
        None
    }
}

/// The section at a place, from 0 on.
pub fn run(i: usize) -> (section: Option<Section>)
    ensures
        section == section_at(i as int),
{
    if i == 0 {
        Some(Section::CompleteLifecycle)
    } else if i == 1 {
        Some(Section::QuotedNames)
    } else if i == 2 {
        Some(Section::PrivateSchemas)
    } else if i == 3 {
        Some(Section::AliasedFile)
    } else {
        None
    }
}

/// What a section does at a place, from 0 on.
pub open spec fn script_at(section: Section, i: int) -> Option<Action> {
    match section {
        Section::CompleteLifecycle => complete_lifecycle_at(i),
        Section::QuotedNames => quoted_names_at(i),
        Section::PrivateSchemas => private_schemas_at(i),
        Section::AliasedFile => aliased_file_at(i),
    }
}

/// What a section does at a place, from 0 on.
pub fn script(section: Section, i: usize) -> (action: Option<Action>)
    ensures
        action == script_at(section, i as int),
{
    match section {
        Section::CompleteLifecycle => complete_lifecycle(i),
        Section::QuotedNames => quoted_names(i),
        Section::PrivateSchemas => private_schemas(i),
        Section::AliasedFile => aliased_file(i),
    }
}

/// What is said when a section has passed.
pub open spec fn passed(section: Section) -> &'static str {
    match section {
        Section::CompleteLifecycle => "PASS test_complete_isolation_and_lifecycle",
        Section::QuotedNames => "PASS test_quoted_schema_and_table_names",
        Section::PrivateSchemas => "PASS test_private_attached_schemas_do_not_share_engine",
        Section::AliasedFile => "PASS test_same_file_under_different_aliases_uses_local_schema",
    }
}

/// What is said when a section has passed.
pub fn pass_text(section: Section) -> (line: &'static str)
    ensures
        line == passed(section),
{
    match section {
        Section::CompleteLifecycle => "PASS test_complete_isolation_and_lifecycle",
        Section::QuotedNames => "PASS test_quoted_schema_and_table_names",
        Section::PrivateSchemas => "PASS test_private_attached_schemas_do_not_share_engine",
        Section::AliasedFile => "PASS test_same_file_under_different_aliases_uses_local_schema",
    }
}

} // verus!
