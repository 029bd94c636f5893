//! Companion views of logs follow the index keys, at once or not at all.
use crate::gate::{Action, Argument, Arguments, Database, Expected, Rows};
use crate::values::{Literal, Row};
use vstd::prelude::*;

verus! {

/// A part of the script.
pub open spec fn run_part_0_at(i: int) -> Option<Action> {
    if i == 0 {
        Some(Action::Open(0, Database::Named("log-schema-reindex.db")))
    } else if i == 1 {
        Some(Action::Batch(0, "CREATE VIRTUAL TABLE logs USING timeless_logs(index_keys='service'); INSERT INTO logs(ts,level,message,metadata) VALUES(1700000000123,'info','kept','{\"service\":\"api\",\"host\":\"edge\",\"zone\":\"west\"}'); INSERT INTO logs(logs) VALUES('flush'); CREATE VIEW user_report AS SELECT message FROM logs; UPDATE timeless_schema_inventory SET installed_at=123 WHERE object_name='timeless_logs_entries';", Expected::Done))
    } else if i == 2 {
        Some(Action::Close(0))
    } else if i == 3 {
        Some(Action::Open(0, Database::Named("log-schema-reindex.db")))
    } else if i == 4 {
        Some(Action::Execute(0, "INSERT INTO logs(logs) VALUES(?1)", Arguments::One(Argument::Text("reindex:service,host")), Expected::Done))
    } else if i == 5 {
        Some(Action::Batch(0, "INSERT INTO logs(logs) VALUES('schema')", Expected::Done))
    } else if i == 6 {
        Some(Action::Close(0))
    } else if i == 7 {
        Some(Action::Open(0, Database::Named("log-schema-reindex.db")))
    } else if i == 8 {
        Some(Action::Query(0, "SELECT value FROM timeless_stats('logs') WHERE key='index_keys'", Arguments::Zero, Expected::First(Row::One(Literal::Text("service,host")))))
    } else if i == 9 {
        Some(Action::Query(0, "SELECT EXISTS(SELECT 1 FROM sqlite_schema WHERE name='timeless_logs_fields')", Arguments::Zero, Expected::First(Row::One(Literal::Integer(1)))))
    } else if i == 10 {
        Some(Action::Query(0, "SELECT field FROM timeless_logs_fields", Arguments::Zero, Expected::Rows(Rows::Two(Row::One(Literal::Text("service")), Row::One(Literal::Text("host"))))))
    } else if i == 11 {
        Some(Action::Query(0, "SELECT EXISTS(SELECT 1 FROM sqlite_schema WHERE name='timeless_logs_services')", Arguments::Zero, Expected::First(Row::One(Literal::Integer(1)))))
    } else if i == 12 {
        Some(Action::Query(0, "SELECT service FROM timeless_logs_services", Arguments::Zero, Expected::First(Row::One(Literal::Text("api")))))
    } else if i == 13 {
        Some(Action::Query(0, "SELECT count(*) FROM logs WHERE service=?1", Arguments::One(Argument::Text("api")), Expected::First(Row::One(Literal::Integer(1)))))
    } else if i == 14 {
        Some(Action::Query(0, "SELECT count(*) FROM logs WHERE host=?1", Arguments::One(Argument::Text("edge")), Expected::First(Row::One(Literal::Integer(1)))))
    } else if i == 15 {
        Some(Action::Query(0, "SELECT message FROM user_report", Arguments::Zero, Expected::First(Row::One(Literal::Text("kept")))))
    } else if i == 16 {
        Some(Action::Query(0, "SELECT installed_at FROM timeless_schema_inventory WHERE object_name='timeless_logs_entries'", Arguments::Zero, Expected::First(Row::One(Literal::Integer(123)))))
    } else if i == 17 {
        Some(Action::Close(0))
    } else if i == 18 {
        Some(Action::Open(0, Database::Named("log-schema-reindex.db")))
    } else if i == 19 {
        Some(Action::Execute(0, "INSERT INTO logs(logs) VALUES(?1)", Arguments::One(Argument::Text("reindex:host")), Expected::Done))
    } else if i == 20 {
        Some(Action::Batch(0, "INSERT INTO logs(logs) VALUES('schema')", Expected::Done))
    } else if i == 21 {
        Some(Action::Close(0))
    } else if i == 22 {
        Some(Action::Open(0, Database::Named("log-schema-reindex.db")))
    } else if i == 23 {
        Some(Action::Query(0, "SELECT value FROM timeless_stats('logs') WHERE key='index_keys'", Arguments::Zero, Expected::First(Row::One(Literal::Text("host")))))
    } else {
        None
    }
}

fn run_part_0(i: usize) -> (action: Option<Action>)
    ensures
        action == run_part_0_at(i as int),
{
    if i == 0 {
        Some(Action::Open(0, Database::Named("log-schema-reindex.db")))
    } else if i == 1 {
        Some(Action::Batch(0, "CREATE VIRTUAL TABLE logs USING timeless_logs(index_keys='service'); INSERT INTO logs(ts,level,message,metadata) VALUES(1700000000123,'info','kept','{\"service\":\"api\",\"host\":\"edge\",\"zone\":\"west\"}'); INSERT INTO logs(logs) VALUES('flush'); CREATE VIEW user_report AS SELECT message FROM logs; UPDATE timeless_schema_inventory SET installed_at=123 WHERE object_name='timeless_logs_entries';", Expected::Done))
    } else if i == 2 {
        Some(Action::Close(0))
    } else if i == 3 {
        Some(Action::Open(0, Database::Named("log-schema-reindex.db")))
    } else if i == 4 {
        Some(Action::Execute(0, "INSERT INTO logs(logs) VALUES(?1)", Arguments::One(Argument::Text("reindex:service,host")), Expected::Done))
    } else if i == 5 {
        Some(Action::Batch(0, "INSERT INTO logs(logs) VALUES('schema')", Expected::Done))
    } else if i == 6 {
        Some(Action::Close(0))
    } else if i == 7 {
        Some(Action::Open(0, Database::Named("log-schema-reindex.db")))
    } else if i == 8 {
        Some(Action::Query(0, "SELECT value FROM timeless_stats('logs') WHERE key='index_keys'", Arguments::Zero, Expected::First(Row::One(Literal::Text("service,host")))))
    } else if i == 9 {
        Some(Action::Query(0, "SELECT EXISTS(SELECT 1 FROM sqlite_schema WHERE name='timeless_logs_fields')", Arguments::Zero, Expected::First(Row::One(Literal::Integer(1)))))
    } else if i == 10 {
        Some(Action::Query(0, "SELECT field FROM timeless_logs_fields", Arguments::Zero, Expected::Rows(Rows::Two(Row::One(Literal::Text("service")), Row::One(Literal::Text("host"))))))
    } else if i == 11 {
        Some(Action::Query(0, "SELECT EXISTS(SELECT 1 FROM sqlite_schema WHERE name='timeless_logs_services')", Arguments::Zero, Expected::First(Row::One(Literal::Integer(1)))))
    } else if i == 12 {
        Some(Action::Query(0, "SELECT service FROM timeless_logs_services", Arguments::Zero, Expected::First(Row::One(Literal::Text("api")))))
    } else if i == 13 {
        Some(Action::Query(0, "SELECT count(*) FROM logs WHERE service=?1", Arguments::One(Argument::Text("api")), Expected::First(Row::One(Literal::Integer(1)))))
    } else if i == 14 {
        Some(Action::Query(0, "SELECT count(*) FROM logs WHERE host=?1", Arguments::One(Argument::Text("edge")), Expected::First(Row::One(Literal::Integer(1)))))
    } else if i == 15 {
        Some(Action::Query(0, "SELECT message FROM user_report", Arguments::Zero, Expected::First(Row::One(Literal::Text("kept")))))
    } else if i == 16 {
        Some(Action::Query(0, "SELECT installed_at FROM timeless_schema_inventory WHERE object_name='timeless_logs_entries'", Arguments::Zero, Expected::First(Row::One(Literal::Integer(123)))))
    } else if i == 17 {
        Some(Action::Close(0))
    } else if i == 18 {
        Some(Action::Open(0, Database::Named("log-schema-reindex.db")))
    } else if i == 19 {
        Some(Action::Execute(0, "INSERT INTO logs(logs) VALUES(?1)", Arguments::One(Argument::Text("reindex:host")), Expected::Done))
    } else if i == 20 {
        Some(Action::Batch(0, "INSERT INTO logs(logs) VALUES('schema')", Expected::Done))
    } else if i == 21 {
        Some(Action::Close(0))
    } else if i == 22 {
        Some(Action::Open(0, Database::Named("log-schema-reindex.db")))
    } else if i == 23 {
        Some(Action::Query(0, "SELECT value FROM timeless_stats('logs') WHERE key='index_keys'", Arguments::Zero, Expected::First(Row::One(Literal::Text("host")))))
    } else {
        None
    }
}

/// A part of the script.
pub open spec fn run_part_1_at(i: int) -> Option<Action> {
    if i == 0 {
        Some(Action::Query(0, "SELECT EXISTS(SELECT 1 FROM sqlite_schema WHERE name='timeless_logs_fields')", Arguments::Zero, Expected::First(Row::One(Literal::Integer(1)))))
    } else if i == 1 {
        Some(Action::Query(0, "SELECT field FROM timeless_logs_fields", Arguments::Zero, Expected::Rows(Rows::One(Row::One(Literal::Text("host"))))))
    } else if i == 2 {
        Some(Action::Query(0, "SELECT EXISTS(SELECT 1 FROM sqlite_schema WHERE name='timeless_logs_services')", Arguments::Zero, Expected::First(Row::One(Literal::Integer(0)))))
    } else if i == 3 {
        Some(Action::Query(0, "SELECT count(*) FROM logs WHERE host=?1", Arguments::One(Argument::Text("edge")), Expected::First(Row::One(Literal::Integer(1)))))
    } else if i == 4 {
        Some(Action::Query(0, "SELECT message FROM user_report", Arguments::Zero, Expected::First(Row::One(Literal::Text("kept")))))
    } else if i == 5 {
        Some(Action::Query(0, "SELECT installed_at FROM timeless_schema_inventory WHERE object_name='timeless_logs_entries'", Arguments::Zero, Expected::First(Row::One(Literal::Integer(123)))))
    } else if i == 6 {
        Some(Action::Close(0))
    } else if i == 7 {
        Some(Action::Open(0, Database::Named("log-schema-reindex.db")))
    } else if i == 8 {
        Some(Action::Execute(0, "INSERT INTO logs(logs) VALUES(?1)", Arguments::One(Argument::Text("reindex:host,service,zone")), Expected::Done))
    } else if i == 9 {
        Some(Action::Batch(0, "INSERT INTO logs(logs) VALUES('schema')", Expected::Done))
    } else if i == 10 {
        Some(Action::Close(0))
    } else if i == 11 {
        Some(Action::Open(0, Database::Named("log-schema-reindex.db")))
    } else if i == 12 {
        Some(Action::Query(0, "SELECT value FROM timeless_stats('logs') WHERE key='index_keys'", Arguments::Zero, Expected::First(Row::One(Literal::Text("host,service,zone")))))
    } else if i == 13 {
        Some(Action::Query(0, "SELECT EXISTS(SELECT 1 FROM sqlite_schema WHERE name='timeless_logs_fields')", Arguments::Zero, Expected::First(Row::One(Literal::Integer(1)))))
    } else if i == 14 {
        Some(Action::Query(0, "SELECT field FROM timeless_logs_fields", Arguments::Zero, Expected::Rows(Rows::Three(Row::One(Literal::Text("host")), Row::One(Literal::Text("service")), Row::One(Literal::Text("zone"))))))
    } else if i == 15 {
        Some(Action::Query(0, "SELECT EXISTS(SELECT 1 FROM sqlite_schema WHERE name='timeless_logs_services')", Arguments::Zero, Expected::First(Row::One(Literal::Integer(1)))))
    } else if i == 16 {
        Some(Action::Query(0, "SELECT service FROM timeless_logs_services", Arguments::Zero, Expected::First(Row::One(Literal::Text("api")))))
    } else if i == 17 {
        Some(Action::Query(0, "SELECT count(*) FROM logs WHERE host=?1", Arguments::One(Argument::Text("edge")), Expected::First(Row::One(Literal::Integer(1)))))
    } else if i == 18 {
        Some(Action::Query(0, "SELECT count(*) FROM logs WHERE service=?1", Arguments::One(Argument::Text("api")), Expected::First(Row::One(Literal::Integer(1)))))
    } else if i == 19 {
        Some(Action::Query(0, "SELECT count(*) FROM logs WHERE zone=?1", Arguments::One(Argument::Text("west")), Expected::First(Row::One(Literal::Integer(1)))))
    } else if i == 20 {
        Some(Action::Query(0, "SELECT message FROM user_report", Arguments::Zero, Expected::First(Row::One(Literal::Text("kept")))))
    } else if i == 21 {
        Some(Action::Query(0, "SELECT installed_at FROM timeless_schema_inventory WHERE object_name='timeless_logs_entries'", Arguments::Zero, Expected::First(Row::One(Literal::Integer(123)))))
    } else if i == 22 {
        Some(Action::Close(0))
    } else if i == 23 {
        Some(Action::Open(0, Database::Named("log-schema-reindex.db")))
    } else {
        None
    }
}

fn run_part_1(i: usize) -> (action: Option<Action>)
    ensures
        action == run_part_1_at(i as int),
{
    if i == 0 {
        Some(Action::Query(0, "SELECT EXISTS(SELECT 1 FROM sqlite_schema WHERE name='timeless_logs_fields')", Arguments::Zero, Expected::First(Row::One(Literal::Integer(1)))))
    } else if i == 1 {
        Some(Action::Query(0, "SELECT field FROM timeless_logs_fields", Arguments::Zero, Expected::Rows(Rows::One(Row::One(Literal::Text("host"))))))
    } else if i == 2 {
        Some(Action::Query(0, "SELECT EXISTS(SELECT 1 FROM sqlite_schema WHERE name='timeless_logs_services')", Arguments::Zero, Expected::First(Row::One(Literal::Integer(0)))))
    } else if i == 3 {
        Some(Action::Query(0, "SELECT count(*) FROM logs WHERE host=?1", Arguments::One(Argument::Text("edge")), Expected::First(Row::One(Literal::Integer(1)))))
    } else if i == 4 {
        Some(Action::Query(0, "SELECT message FROM user_report", Arguments::Zero, Expected::First(Row::One(Literal::Text("kept")))))
    } else if i == 5 {
        Some(Action::Query(0, "SELECT installed_at FROM timeless_schema_inventory WHERE object_name='timeless_logs_entries'", Arguments::Zero, Expected::First(Row::One(Literal::Integer(123)))))
    } else if i == 6 {
        Some(Action::Close(0))
    } else if i == 7 {
        Some(Action::Open(0, Database::Named("log-schema-reindex.db")))
    } else if i == 8 {
        Some(Action::Execute(0, "INSERT INTO logs(logs) VALUES(?1)", Arguments::One(Argument::Text("reindex:host,service,zone")), Expected::Done))
    } else if i == 9 {
        Some(Action::Batch(0, "INSERT INTO logs(logs) VALUES('schema')", Expected::Done))
    } else if i == 10 {
        Some(Action::Close(0))
    } else if i == 11 {
        Some(Action::Open(0, Database::Named("log-schema-reindex.db")))
    } else if i == 12 {
        Some(Action::Query(0, "SELECT value FROM timeless_stats('logs') WHERE key='index_keys'", Arguments::Zero, Expected::First(Row::One(Literal::Text("host,service,zone")))))
    } else if i == 13 {
        Some(Action::Query(0, "SELECT EXISTS(SELECT 1 FROM sqlite_schema WHERE name='timeless_logs_fields')", Arguments::Zero, Expected::First(Row::One(Literal::Integer(1)))))
    } else if i == 14 {
        Some(Action::Query(0, "SELECT field FROM timeless_logs_fields", Arguments::Zero, Expected::Rows(Rows::Three(Row::One(Literal::Text("host")), Row::One(Literal::Text("service")), Row::One(Literal::Text("zone"))))))
    } else if i == 15 {
        Some(Action::Query(0, "SELECT EXISTS(SELECT 1 FROM sqlite_schema WHERE name='timeless_logs_services')", Arguments::Zero, Expected::First(Row::One(Literal::Integer(1)))))
    } else if i == 16 {
        Some(Action::Query(0, "SELECT service FROM timeless_logs_services", Arguments::Zero, Expected::First(Row::One(Literal::Text("api")))))
    } else if i == 17 {
        Some(Action::Query(0, "SELECT count(*) FROM logs WHERE host=?1", Arguments::One(Argument::Text("edge")), Expected::First(Row::One(Literal::Integer(1)))))
    } else if i == 18 {
        Some(Action::Query(0, "SELECT count(*) FROM logs WHERE service=?1", Arguments::One(Argument::Text("api")), Expected::First(Row::One(Literal::Integer(1)))))
    } else if i == 19 {
        Some(Action::Query(0, "SELECT count(*) FROM logs WHERE zone=?1", Arguments::One(Argument::Text("west")), Expected::First(Row::One(Literal::Integer(1)))))
    } else if i == 20 {
        Some(Action::Query(0, "SELECT message FROM user_report", Arguments::Zero, Expected::First(Row::One(Literal::Text("kept")))))
    } else if i == 21 {
        Some(Action::Query(0, "SELECT installed_at FROM timeless_schema_inventory WHERE object_name='timeless_logs_entries'", Arguments::Zero, Expected::First(Row::One(Literal::Integer(123)))))
    } else if i == 22 {
        Some(Action::Close(0))
    } else if i == 23 {
        Some(Action::Open(0, Database::Named("log-schema-reindex.db")))
    } else {
        None
    }
}

/// A part of the script.
pub open spec fn run_part_2_at(i: int) -> Option<Action> {
    if i == 0 {
        Some(Action::Execute(0, "INSERT INTO logs(logs) VALUES(?1)", Arguments::One(Argument::Text("reindex:")), Expected::Done))
    } else if i == 1 {
        Some(Action::Batch(0, "INSERT INTO logs(logs) VALUES('schema')", Expected::Done))
    } else if i == 2 {
        Some(Action::Close(0))
    } else if i == 3 {
        Some(Action::Open(0, Database::Named("log-schema-reindex.db")))
    } else if i == 4 {
        Some(Action::Query(0, "SELECT value FROM timeless_stats('logs') WHERE key='index_keys'", Arguments::Zero, Expected::First(Row::One(Literal::Text("")))))
    } else if i == 5 {
        Some(Action::Query(0, "SELECT EXISTS(SELECT 1 FROM sqlite_schema WHERE name='timeless_logs_fields')", Arguments::Zero, Expected::First(Row::One(Literal::Integer(0)))))
    } else if i == 6 {
        Some(Action::Query(0, "SELECT EXISTS(SELECT 1 FROM sqlite_schema WHERE name='timeless_logs_services')", Arguments::Zero, Expected::First(Row::One(Literal::Integer(0)))))
    } else if i == 7 {
        Some(Action::Query(0, "SELECT message FROM user_report", Arguments::Zero, Expected::First(Row::One(Literal::Text("kept")))))
    } else if i == 8 {
        Some(Action::Query(0, "SELECT installed_at FROM timeless_schema_inventory WHERE object_name='timeless_logs_entries'", Arguments::Zero, Expected::First(Row::One(Literal::Integer(123)))))
    } else if i == 9 {
        Some(Action::Close(0))
    } else if i == 10 {
        Some(Action::Open(0, Database::Named("log-schema-reindex.db")))
    } else if i == 11 {
        Some(Action::Execute(0, "INSERT INTO logs(logs) VALUES(?1)", Arguments::One(Argument::Text("reindex:service")), Expected::Done))
    } else if i == 12 {
        Some(Action::Batch(0, "INSERT INTO logs(logs) VALUES('schema')", Expected::Done))
    } else if i == 13 {
        Some(Action::Close(0))
    } else if i == 14 {
        Some(Action::Open(0, Database::Named("log-schema-reindex.db")))
    } else if i == 15 {
        Some(Action::Query(0, "SELECT value FROM timeless_stats('logs') WHERE key='index_keys'", Arguments::Zero, Expected::First(Row::One(Literal::Text("service")))))
    } else if i == 16 {
        Some(Action::Query(0, "SELECT EXISTS(SELECT 1 FROM sqlite_schema WHERE name='timeless_logs_fields')", Arguments::Zero, Expected::First(Row::One(Literal::Integer(1)))))
    } else if i == 17 {
        Some(Action::Query(0, "SELECT field FROM timeless_logs_fields", Arguments::Zero, Expected::Rows(Rows::One(Row::One(Literal::Text("service"))))))
    } else if i == 18 {
        Some(Action::Query(0, "SELECT EXISTS(SELECT 1 FROM sqlite_schema WHERE name='timeless_logs_services')", Arguments::Zero, Expected::First(Row::One(Literal::Integer(1)))))
    } else if i == 19 {
        Some(Action::Query(0, "SELECT service FROM timeless_logs_services", Arguments::Zero, Expected::First(Row::One(Literal::Text("api")))))
    } else if i == 20 {
        Some(Action::Query(0, "SELECT count(*) FROM logs WHERE service=?1", Arguments::One(Argument::Text("api")), Expected::First(Row::One(Literal::Integer(1)))))
    } else if i == 21 {
        Some(Action::Query(0, "SELECT message FROM user_report", Arguments::Zero, Expected::First(Row::One(Literal::Text("kept")))))
    } else if i == 22 {
        Some(Action::Query(0, "SELECT installed_at FROM timeless_schema_inventory WHERE object_name='timeless_logs_entries'", Arguments::Zero, Expected::First(Row::One(Literal::Integer(123)))))
    } else if i == 23 {
        Some(Action::Close(0))
    } else {
        None
    }
}

fn run_part_2(i: usize) -> (action: Option<Action>)
    ensures
        action == run_part_2_at(i as int),
{
    if i == 0 {
        Some(Action::Execute(0, "INSERT INTO logs(logs) VALUES(?1)", Arguments::One(Argument::Text("reindex:")), Expected::Done))
    } else if i == 1 {
        Some(Action::Batch(0, "INSERT INTO logs(logs) VALUES('schema')", Expected::Done))
    } else if i == 2 {
        Some(Action::Close(0))
    } else if i == 3 {
        Some(Action::Open(0, Database::Named("log-schema-reindex.db")))
    } else if i == 4 {
        Some(Action::Query(0, "SELECT value FROM timeless_stats('logs') WHERE key='index_keys'", Arguments::Zero, Expected::First(Row::One(Literal::Text("")))))
    } else if i == 5 {
        Some(Action::Query(0, "SELECT EXISTS(SELECT 1 FROM sqlite_schema WHERE name='timeless_logs_fields')", Arguments::Zero, Expected::First(Row::One(Literal::Integer(0)))))
    } else if i == 6 {
        Some(Action::Query(0, "SELECT EXISTS(SELECT 1 FROM sqlite_schema WHERE name='timeless_logs_services')", Arguments::Zero, Expected::First(Row::One(Literal::Integer(0)))))
    } else if i == 7 {
        Some(Action::Query(0, "SELECT message FROM user_report", Arguments::Zero, Expected::First(Row::One(Literal::Text("kept")))))
    } else if i == 8 {
        Some(Action::Query(0, "SELECT installed_at FROM timeless_schema_inventory WHERE object_name='timeless_logs_entries'", Arguments::Zero, Expected::First(Row::One(Literal::Integer(123)))))
    } else if i == 9 {
        Some(Action::Close(0))
    } else if i == 10 {
        Some(Action::Open(0, Database::Named("log-schema-reindex.db")))
    } else if i == 11 {
        Some(Action::Execute(0, "INSERT INTO logs(logs) VALUES(?1)", Arguments::One(Argument::Text("reindex:service")), Expected::Done))
    } else if i == 12 {
        Some(Action::Batch(0, "INSERT INTO logs(logs) VALUES('schema')", Expected::Done))
    } else if i == 13 {
        Some(Action::Close(0))
    } else if i == 14 {
        Some(Action::Open(0, Database::Named("log-schema-reindex.db")))
    } else if i == 15 {
        Some(Action::Query(0, "SELECT value FROM timeless_stats('logs') WHERE key='index_keys'", Arguments::Zero, Expected::First(Row::One(Literal::Text("service")))))
    } else if i == 16 {
        Some(Action::Query(0, "SELECT EXISTS(SELECT 1 FROM sqlite_schema WHERE name='timeless_logs_fields')", Arguments::Zero, Expected::First(Row::One(Literal::Integer(1)))))
    } else if i == 17 {
        Some(Action::Query(0, "SELECT field FROM timeless_logs_fields", Arguments::Zero, Expected::Rows(Rows::One(Row::One(Literal::Text("service"))))))
    } else if i == 18 {
        Some(Action::Query(0, "SELECT EXISTS(SELECT 1 FROM sqlite_schema WHERE name='timeless_logs_services')", Arguments::Zero, Expected::First(Row::One(Literal::Integer(1)))))
    } else if i == 19 {
        Some(Action::Query(0, "SELECT service FROM timeless_logs_services", Arguments::Zero, Expected::First(Row::One(Literal::Text("api")))))
    } else if i == 20 {
        Some(Action::Query(0, "SELECT count(*) FROM logs WHERE service=?1", Arguments::One(Argument::Text("api")), Expected::First(Row::One(Literal::Integer(1)))))
    } else if i == 21 {
        Some(Action::Query(0, "SELECT message FROM user_report", Arguments::Zero, Expected::First(Row::One(Literal::Text("kept")))))
    } else if i == 22 {
        Some(Action::Query(0, "SELECT installed_at FROM timeless_schema_inventory WHERE object_name='timeless_logs_entries'", Arguments::Zero, Expected::First(Row::One(Literal::Integer(123)))))
    } else if i == 23 {
        Some(Action::Close(0))
    } else {
        None
    }
}

/// A part of the script.
pub open spec fn run_part_3_at(i: int) -> Option<Action> {
    if i == 0 {
        Some(Action::Open(0, Database::Named("log-schema-reindex.db")))
    } else if i == 1 {
        Some(Action::Batch(0, "BEGIN; INSERT INTO logs(logs) VALUES('reindex:host'); ROLLBACK;", Expected::Done))
    } else if i == 2 {
        Some(Action::Close(0))
    } else if i == 3 {
        Some(Action::Open(0, Database::Named("log-schema-reindex.db")))
    } else if i == 4 {
        Some(Action::Query(0, "SELECT value FROM timeless_stats('logs') WHERE key='index_keys'", Arguments::Zero, Expected::First(Row::One(Literal::Text("service")))))
    } else if i == 5 {
        Some(Action::Query(0, "SELECT EXISTS(SELECT 1 FROM sqlite_schema WHERE name='timeless_logs_fields')", Arguments::Zero, Expected::First(Row::One(Literal::Integer(1)))))
    } else if i == 6 {
        Some(Action::Query(0, "SELECT field FROM timeless_logs_fields", Arguments::Zero, Expected::Rows(Rows::One(Row::One(Literal::Text("service"))))))
    } else if i == 7 {
        Some(Action::Query(0, "SELECT EXISTS(SELECT 1 FROM sqlite_schema WHERE name='timeless_logs_services')", Arguments::Zero, Expected::First(Row::One(Literal::Integer(1)))))
    } else if i == 8 {
        Some(Action::Query(0, "SELECT service FROM timeless_logs_services", Arguments::Zero, Expected::First(Row::One(Literal::Text("api")))))
    } else if i == 9 {
        Some(Action::Query(0, "SELECT count(*) FROM logs WHERE service=?1", Arguments::One(Argument::Text("api")), Expected::First(Row::One(Literal::Integer(1)))))
    } else if i == 10 {
        Some(Action::Query(0, "SELECT message FROM user_report", Arguments::Zero, Expected::First(Row::One(Literal::Text("kept")))))
    } else if i == 11 {
        Some(Action::Query(0, "SELECT installed_at FROM timeless_schema_inventory WHERE object_name='timeless_logs_entries'", Arguments::Zero, Expected::First(Row::One(Literal::Integer(123)))))
    } else if i == 12 {
        Some(Action::Close(0))
    } else if i == 13 {
        Some(Action::Open(0, Database::Named("log-schema-reindex.db")))
    } else if i == 14 {
        Some(Action::Batch(0, "INSERT INTO logs(logs) VALUES('reindex:host')", Expected::Done))
    } else if i == 15 {
        Some(Action::Close(0))
    } else if i == 16 {
        Some(Action::Open(0, Database::Named("log-schema-reindex.db")))
    } else if i == 17 {
        Some(Action::Batch(0, "CREATE VIEW timeless_logs_services AS SELECT 'mine' AS service", Expected::Done))
    } else if i == 18 {
        Some(Action::Batch(0, "INSERT INTO logs(logs) VALUES('reindex:service')", Expected::Refused))
    } else if i == 19 {
        Some(Action::Query(0, "SELECT service FROM timeless_logs_services", Arguments::Zero, Expected::First(Row::One(Literal::Text("mine")))))
    } else if i == 20 {
        Some(Action::Batch(0, "DROP VIEW timeless_logs_services", Expected::Done))
    } else if i == 21 {
        Some(Action::Query(0, "SELECT value FROM timeless_stats('logs') WHERE key='index_keys'", Arguments::Zero, Expected::First(Row::One(Literal::Text("host")))))
    } else if i == 22 {
        Some(Action::Query(0, "SELECT EXISTS(SELECT 1 FROM sqlite_schema WHERE name='timeless_logs_fields')", Arguments::Zero, Expected::First(Row::One(Literal::Integer(1)))))
    } else if i == 23 {
        Some(Action::Query(0, "SELECT field FROM timeless_logs_fields", Arguments::Zero, Expected::Rows(Rows::One(Row::One(Literal::Text("host"))))))
    } else {
        None
    }
}

fn run_part_3(i: usize) -> (action: Option<Action>)
    ensures
        action == run_part_3_at(i as int),
{
    if i == 0 {
        Some(Action::Open(0, Database::Named("log-schema-reindex.db")))
    } else if i == 1 {
        Some(Action::Batch(0, "BEGIN; INSERT INTO logs(logs) VALUES('reindex:host'); ROLLBACK;", Expected::Done))
    } else if i == 2 {
        Some(Action::Close(0))
    } else if i == 3 {
        Some(Action::Open(0, Database::Named("log-schema-reindex.db")))
    } else if i == 4 {
        Some(Action::Query(0, "SELECT value FROM timeless_stats('logs') WHERE key='index_keys'", Arguments::Zero, Expected::First(Row::One(Literal::Text("service")))))
    } else if i == 5 {
        Some(Action::Query(0, "SELECT EXISTS(SELECT 1 FROM sqlite_schema WHERE name='timeless_logs_fields')", Arguments::Zero, Expected::First(Row::One(Literal::Integer(1)))))
    } else if i == 6 {
        Some(Action::Query(0, "SELECT field FROM timeless_logs_fields", Arguments::Zero, Expected::Rows(Rows::One(Row::One(Literal::Text("service"))))))
    } else if i == 7 {
        Some(Action::Query(0, "SELECT EXISTS(SELECT 1 FROM sqlite_schema WHERE name='timeless_logs_services')", Arguments::Zero, Expected::First(Row::One(Literal::Integer(1)))))
    } else if i == 8 {
        Some(Action::Query(0, "SELECT service FROM timeless_logs_services", Arguments::Zero, Expected::First(Row::One(Literal::Text("api")))))
    } else if i == 9 {
        Some(Action::Query(0, "SELECT count(*) FROM logs WHERE service=?1", Arguments::One(Argument::Text("api")), Expected::First(Row::One(Literal::Integer(1)))))
    } else if i == 10 {
        Some(Action::Query(0, "SELECT message FROM user_report", Arguments::Zero, Expected::First(Row::One(Literal::Text("kept")))))
    } else if i == 11 {
        Some(Action::Query(0, "SELECT installed_at FROM timeless_schema_inventory WHERE object_name='timeless_logs_entries'", Arguments::Zero, Expected::First(Row::One(Literal::Integer(123)))))
    } else if i == 12 {
        Some(Action::Close(0))
    } else if i == 13 {
        Some(Action::Open(0, Database::Named("log-schema-reindex.db")))
    } else if i == 14 {
        Some(Action::Batch(0, "INSERT INTO logs(logs) VALUES('reindex:host')", Expected::Done))
    } else if i == 15 {
        Some(Action::Close(0))
    } else if i == 16 {
        Some(Action::Open(0, Database::Named("log-schema-reindex.db")))
    } else if i == 17 {
        Some(Action::Batch(0, "CREATE VIEW timeless_logs_services AS SELECT 'mine' AS service", Expected::Done))
    } else if i == 18 {
        Some(Action::Batch(0, "INSERT INTO logs(logs) VALUES('reindex:service')", Expected::Refused))
    } else if i == 19 {
        Some(Action::Query(0, "SELECT service FROM timeless_logs_services", Arguments::Zero, Expected::First(Row::One(Literal::Text("mine")))))
    } else if i == 20 {
        Some(Action::Batch(0, "DROP VIEW timeless_logs_services", Expected::Done))
    } else if i == 21 {
        Some(Action::Query(0, "SELECT value FROM timeless_stats('logs') WHERE key='index_keys'", Arguments::Zero, Expected::First(Row::One(Literal::Text("host")))))
    } else if i == 22 {
        Some(Action::Query(0, "SELECT EXISTS(SELECT 1 FROM sqlite_schema WHERE name='timeless_logs_fields')", Arguments::Zero, Expected::First(Row::One(Literal::Integer(1)))))
    } else if i == 23 {
        Some(Action::Query(0, "SELECT field FROM timeless_logs_fields", Arguments::Zero, Expected::Rows(Rows::One(Row::One(Literal::Text("host"))))))
    } else {
        None
    }
}

/// A part of the script.
pub open spec fn run_part_4_at(i: int) -> Option<Action> {
    if i == 0 {
        Some(Action::Query(0, "SELECT EXISTS(SELECT 1 FROM sqlite_schema WHERE name='timeless_logs_services')", Arguments::Zero, Expected::First(Row::One(Literal::Integer(0)))))
    } else if i == 1 {
        Some(Action::Query(0, "SELECT count(*) FROM logs WHERE host=?1", Arguments::One(Argument::Text("edge")), Expected::First(Row::One(Literal::Integer(1)))))
    } else if i == 2 {
        Some(Action::Query(0, "SELECT message FROM user_report", Arguments::Zero, Expected::First(Row::One(Literal::Text("kept")))))
    } else if i == 3 {
        Some(Action::Query(0, "SELECT installed_at FROM timeless_schema_inventory WHERE object_name='timeless_logs_entries'", Arguments::Zero, Expected::First(Row::One(Literal::Integer(123)))))
    } else if i == 4 {
        Some(Action::Batch(0, "CREATE TRIGGER fail_log_install BEFORE INSERT ON timeless_schema_inventory WHEN NEW.object_name='timeless_logs_fields' BEGIN SELECT RAISE(ABORT,'injected install failure'); END;", Expected::Done))
    } else if i == 5 {
        Some(Action::Batch(0, "INSERT INTO logs(logs) VALUES('reindex:service')", Expected::Refused))
    } else if i == 6 {
        Some(Action::Batch(0, "DROP TRIGGER fail_log_install", Expected::Done))
    } else if i == 7 {
        Some(Action::Close(0))
    } else if i == 8 {
        Some(Action::Open(0, Database::Named("log-schema-reindex.db")))
    } else if i == 9 {
        Some(Action::Query(0, "SELECT value FROM timeless_stats('logs') WHERE key='index_keys'", Arguments::Zero, Expected::First(Row::One(Literal::Text("host")))))
    } else if i == 10 {
        Some(Action::Query(0, "SELECT EXISTS(SELECT 1 FROM sqlite_schema WHERE name='timeless_logs_fields')", Arguments::Zero, Expected::First(Row::One(Literal::Integer(1)))))
    } else if i == 11 {
        Some(Action::Query(0, "SELECT field FROM timeless_logs_fields", Arguments::Zero, Expected::Rows(Rows::One(Row::One(Literal::Text("host"))))))
    } else if i == 12 {
        Some(Action::Query(0, "SELECT EXISTS(SELECT 1 FROM sqlite_schema WHERE name='timeless_logs_services')", Arguments::Zero, Expected::First(Row::One(Literal::Integer(0)))))
    } else if i == 13 {
        Some(Action::Query(0, "SELECT count(*) FROM logs WHERE host=?1", Arguments::One(Argument::Text("edge")), Expected::First(Row::One(Literal::Integer(1)))))
    } else if i == 14 {
        Some(Action::Query(0, "SELECT message FROM user_report", Arguments::Zero, Expected::First(Row::One(Literal::Text("kept")))))
    } else if i == 15 {
        Some(Action::Query(0, "SELECT installed_at FROM timeless_schema_inventory WHERE object_name='timeless_logs_entries'", Arguments::Zero, Expected::First(Row::One(Literal::Integer(123)))))
    } else if i == 16 {
        Some(Action::Close(0))
    } else if i == 17 {
        Some(Action::Open(0, Database::Named("log-schema-reindex.db")))
    } else if i == 18 {
        Some(Action::Batch(0, "DROP VIEW timeless_logs_fields; CREATE VIEW timeless_logs_fields AS SELECT 'service' AS field; ALTER TABLE timeless_schema_inventory DROP COLUMN source_config; CREATE VIEW timeless_logs_services AS SELECT DISTINCT service FROM logs; INSERT INTO timeless_schema_inventory(source_database,source_table,object_name,object_kind,schema_version,description,installed_at) VALUES('main','logs','timeless_logs_services','view',1,'legacy service view',123);", Expected::Done))
    } else if i == 19 {
        Some(Action::Close(0))
    } else if i == 20 {
        Some(Action::Open(0, Database::Named("log-schema-reindex.db")))
    } else if i == 21 {
        Some(Action::Query(0, "SELECT field FROM timeless_logs_fields", Arguments::Zero, Expected::First(Row::One(Literal::Text("service")))))
    } else if i == 22 {
        Some(Action::Prepare(0, "SELECT * FROM timeless_logs_services", Expected::Refused))
    } else if i == 23 {
        Some(Action::Batch(0, "INSERT INTO logs(logs) VALUES('schema'); UPDATE timeless_schema_inventory SET installed_at=123 WHERE object_name='timeless_logs_entries';", Expected::Done))
    } else {
        None
    }
}

fn run_part_4(i: usize) -> (action: Option<Action>)
    ensures
        action == run_part_4_at(i as int),
{
    if i == 0 {
        Some(Action::Query(0, "SELECT EXISTS(SELECT 1 FROM sqlite_schema WHERE name='timeless_logs_services')", Arguments::Zero, Expected::First(Row::One(Literal::Integer(0)))))
    } else if i == 1 {
        Some(Action::Query(0, "SELECT count(*) FROM logs WHERE host=?1", Arguments::One(Argument::Text("edge")), Expected::First(Row::One(Literal::Integer(1)))))
    } else if i == 2 {
        Some(Action::Query(0, "SELECT message FROM user_report", Arguments::Zero, Expected::First(Row::One(Literal::Text("kept")))))
    } else if i == 3 {
        Some(Action::Query(0, "SELECT installed_at FROM timeless_schema_inventory WHERE object_name='timeless_logs_entries'", Arguments::Zero, Expected::First(Row::One(Literal::Integer(123)))))
    } else if i == 4 {
        Some(Action::Batch(0, "CREATE TRIGGER fail_log_install BEFORE INSERT ON timeless_schema_inventory WHEN NEW.object_name='timeless_logs_fields' BEGIN SELECT RAISE(ABORT,'injected install failure'); END;", Expected::Done))
    } else if i == 5 {
        Some(Action::Batch(0, "INSERT INTO logs(logs) VALUES('reindex:service')", Expected::Refused))
    } else if i == 6 {
        Some(Action::Batch(0, "DROP TRIGGER fail_log_install", Expected::Done))
    } else if i == 7 {
        Some(Action::Close(0))
    } else if i == 8 {
        Some(Action::Open(0, Database::Named("log-schema-reindex.db")))
    } else if i == 9 {
        Some(Action::Query(0, "SELECT value FROM timeless_stats('logs') WHERE key='index_keys'", Arguments::Zero, Expected::First(Row::One(Literal::Text("host")))))
    } else if i == 10 {
        Some(Action::Query(0, "SELECT EXISTS(SELECT 1 FROM sqlite_schema WHERE name='timeless_logs_fields')", Arguments::Zero, Expected::First(Row::One(Literal::Integer(1)))))
    } else if i == 11 {
        Some(Action::Query(0, "SELECT field FROM timeless_logs_fields", Arguments::Zero, Expected::Rows(Rows::One(Row::One(Literal::Text("host"))))))
    } else if i == 12 {
        Some(Action::Query(0, "SELECT EXISTS(SELECT 1 FROM sqlite_schema WHERE name='timeless_logs_services')", Arguments::Zero, Expected::First(Row::One(Literal::Integer(0)))))
    } else if i == 13 {
        Some(Action::Query(0, "SELECT count(*) FROM logs WHERE host=?1", Arguments::One(Argument::Text("edge")), Expected::First(Row::One(Literal::Integer(1)))))
    } else if i == 14 {
        Some(Action::Query(0, "SELECT message FROM user_report", Arguments::Zero, Expected::First(Row::One(Literal::Text("kept")))))
    } else if i == 15 {
        Some(Action::Query(0, "SELECT installed_at FROM timeless_schema_inventory WHERE object_name='timeless_logs_entries'", Arguments::Zero, Expected::First(Row::One(Literal::Integer(123)))))
    } else if i == 16 {
        Some(Action::Close(0))
    } else if i == 17 {
        Some(Action::Open(0, Database::Named("log-schema-reindex.db")))
    } else if i == 18 {
        Some(Action::Batch(0, "DROP VIEW timeless_logs_fields; CREATE VIEW timeless_logs_fields AS SELECT 'service' AS field; ALTER TABLE timeless_schema_inventory DROP COLUMN source_config; CREATE VIEW timeless_logs_services AS SELECT DISTINCT service FROM logs; INSERT INTO timeless_schema_inventory(source_database,source_table,object_name,object_kind,schema_version,description,installed_at) VALUES('main','logs','timeless_logs_services','view',1,'legacy service view',123);", Expected::Done))
    } else if i == 19 {
        Some(Action::Close(0))
    } else if i == 20 {
        Some(Action::Open(0, Database::Named("log-schema-reindex.db")))
    } else if i == 21 {
        Some(Action::Query(0, "SELECT field FROM timeless_logs_fields", Arguments::Zero, Expected::First(Row::One(Literal::Text("service")))))
    } else if i == 22 {
        Some(Action::Prepare(0, "SELECT * FROM timeless_logs_services", Expected::Refused))
    } else if i == 23 {
        Some(Action::Batch(0, "INSERT INTO logs(logs) VALUES('schema'); UPDATE timeless_schema_inventory SET installed_at=123 WHERE object_name='timeless_logs_entries';", Expected::Done))
    } else {
        None
    }
}

/// A part of the script.
pub open spec fn run_part_5_at(i: int) -> Option<Action> {
    if i == 0 {
        Some(Action::Query(0, "SELECT value FROM timeless_stats('logs') WHERE key='index_keys'", Arguments::Zero, Expected::First(Row::One(Literal::Text("host")))))
    } else if i == 1 {
        Some(Action::Query(0, "SELECT EXISTS(SELECT 1 FROM sqlite_schema WHERE name='timeless_logs_fields')", Arguments::Zero, Expected::First(Row::One(Literal::Integer(1)))))
    } else if i == 2 {
        Some(Action::Query(0, "SELECT field FROM timeless_logs_fields", Arguments::Zero, Expected::Rows(Rows::One(Row::One(Literal::Text("host"))))))
    } else if i == 3 {
        Some(Action::Query(0, "SELECT EXISTS(SELECT 1 FROM sqlite_schema WHERE name='timeless_logs_services')", Arguments::Zero, Expected::First(Row::One(Literal::Integer(0)))))
    } else if i == 4 {
        Some(Action::Query(0, "SELECT count(*) FROM logs WHERE host=?1", Arguments::One(Argument::Text("edge")), Expected::First(Row::One(Literal::Integer(1)))))
    } else if i == 5 {
        Some(Action::Query(0, "SELECT message FROM user_report", Arguments::Zero, Expected::First(Row::One(Literal::Text("kept")))))
    } else if i == 6 {
        Some(Action::Query(0, "SELECT installed_at FROM timeless_schema_inventory WHERE object_name='timeless_logs_entries'", Arguments::Zero, Expected::First(Row::One(Literal::Integer(123)))))
    } else if i == 7 {
        Some(Action::Batch(0, "UPDATE timeless_schema_inventory SET schema_version=999 WHERE object_name='timeless_logs_fields'; INSERT INTO logs(logs) VALUES('reindex:');", Expected::Done))
    } else if i == 8 {
        Some(Action::Query(0, "SELECT field FROM timeless_logs_fields", Arguments::Zero, Expected::First(Row::One(Literal::Text("host")))))
    } else if i == 9 {
        Some(Action::Close(0))
    } else if i == 10 {
        Some(Action::Pass("PASS test_log_reindex_companions_configuration_rollback_and_legacy_upgrade"))
    } else {
        None
    }
}

fn run_part_5(i: usize) -> (action: Option<Action>)
    ensures
        action == run_part_5_at(i as int),
{
    if i == 0 {
        Some(Action::Query(0, "SELECT value FROM timeless_stats('logs') WHERE key='index_keys'", Arguments::Zero, Expected::First(Row::One(Literal::Text("host")))))
    } else if i == 1 {
        Some(Action::Query(0, "SELECT EXISTS(SELECT 1 FROM sqlite_schema WHERE name='timeless_logs_fields')", Arguments::Zero, Expected::First(Row::One(Literal::Integer(1)))))
    } else if i == 2 {
        Some(Action::Query(0, "SELECT field FROM timeless_logs_fields", Arguments::Zero, Expected::Rows(Rows::One(Row::One(Literal::Text("host"))))))
    } else if i == 3 {
        Some(Action::Query(0, "SELECT EXISTS(SELECT 1 FROM sqlite_schema WHERE name='timeless_logs_services')", Arguments::Zero, Expected::First(Row::One(Literal::Integer(0)))))
    } else if i == 4 {
        Some(Action::Query(0, "SELECT count(*) FROM logs WHERE host=?1", Arguments::One(Argument::Text("edge")), Expected::First(Row::One(Literal::Integer(1)))))
    } else if i == 5 {
        Some(Action::Query(0, "SELECT message FROM user_report", Arguments::Zero, Expected::First(Row::One(Literal::Text("kept")))))
    } else if i == 6 {
        Some(Action::Query(0, "SELECT installed_at FROM timeless_schema_inventory WHERE object_name='timeless_logs_entries'", Arguments::Zero, Expected::First(Row::One(Literal::Integer(123)))))
    } else if i == 7 {
        Some(Action::Batch(0, "UPDATE timeless_schema_inventory SET schema_version=999 WHERE object_name='timeless_logs_fields'; INSERT INTO logs(logs) VALUES('reindex:');", Expected::Done))
    } else if i == 8 {
        Some(Action::Query(0, "SELECT field FROM timeless_logs_fields", Arguments::Zero, Expected::First(Row::One(Literal::Text("host")))))
    } else if i == 9 {
        Some(Action::Close(0))
    } else if i == 10 {
        Some(Action::Pass("PASS test_log_reindex_companions_configuration_rollback_and_legacy_upgrade"))
    } else {
        None
    }
}

/// The suite of the log companions: what is done at a place, from 0 on.
pub open spec fn run_at(i: int) -> Option<Action> {
    if i < 24 {
        run_part_0_at(i)
    } else if i < 48 {
        run_part_1_at(i - 24)
    } else if i < 72 {
        run_part_2_at(i - 48)
    } else if i < 96 {
        run_part_3_at(i - 72)
    } else if i < 120 {
        run_part_4_at(i - 96)
    } else {
        run_part_5_at(i - 120)
    }
}

/// The suite of the log companions: what is done at a place, from 0 on.
pub fn run(i: usize) -> (action: Option<Action>)
    ensures
        action == run_at(i as int),
{
    if i < 24 {
        run_part_0(i)
    } else if i < 48 {
        run_part_1(i - 24)
    } else if i < 72 {
        run_part_2(i - 48)
    } else if i < 96 {
        run_part_3(i - 72)
    } else if i < 120 {
        run_part_4(i - 96)
    } else {
        run_part_5(i - 120)
    }
}

/// The script has an action at every place below 131, and none from there on.
pub proof fn run_ends(i: int)
    ensures
        run_at(i) is Some <==> 0 <= i < 131,
{
}

} // verus!
