//! Rich log entries: both batch forms go in and come back as they were.
use crate::gate::{Action, Argument, Arguments, Blob, Database, Expected, Rows};
use crate::values::{Literal, Row};
use vstd::prelude::*;

verus! {

/// The suite of rich log entries: what is done at a place, from 0 on.
pub open spec fn run_at(i: int) -> Option<Action> {
    if i == 0 {
        Some(Action::Open(0, Database::Given))
    } else if i == 1 {
        Some(Action::Capabilities(0))
    } else if i == 2 {
        Some(Action::Execute(0, "CREATE VIRTUAL TABLE bad USING timeless_logs(timestamp_unit='seconds')", Arguments::Zero, Expected::RefusedWith("expected 'ms' or 'us'")))
    } else if i == 3 {
        Some(Action::Execute(0, "CREATE VIRTUAL TABLE logs USING timeless_logs(index_keys='service,host',timestamp_unit='us')", Arguments::Zero, Expected::Done))
    } else if i == 4 {
        Some(Action::Query(0, "SELECT CAST(v AS TEXT) FROM logs_meta WHERE k='timestamp_unit'", Arguments::Zero, Expected::First(Row::One(Literal::Text("us")))))
    } else if i == 5 {
        Some(Action::Execute(0, "INSERT INTO logs(logs) VALUES (?1)", Arguments::One(Argument::Made(Blob::RichLogs)), Expected::Done))
    } else if i == 6 {
        Some(Action::Query(0, "SELECT COUNT(*) FROM logs", Arguments::Zero, Expected::First(Row::One(Literal::Integer(3)))))
    } else if i == 7 {
        Some(Action::Execute(0, "INSERT INTO logs(logs) VALUES (?1)", Arguments::One(Argument::Made(Blob::FlatLogs)), Expected::Done))
    } else if i == 8 {
        Some(Action::Query(0, "SELECT COUNT(*) FROM logs", Arguments::Zero, Expected::First(Row::One(Literal::Integer(4)))))
    } else if i == 9 {
        Some(Action::Execute(0, "INSERT INTO logs(logs) VALUES ('flush')", Arguments::Zero, Expected::Done))
    } else if i == 10 {
        Some(Action::Execute(0, "INSERT INTO logs(logs) VALUES ('optimize')", Arguments::Zero, Expected::Done))
    } else if i == 11 {
        Some(Action::Close(0))
    } else if i == 12 {
        Some(Action::Open(0, Database::Given))
    } else if i == 13 {
        Some(Action::RichRows(0))
    } else if i == 14 {
        Some(Action::Query(0, "SELECT COUNT(*) FROM logs WHERE level=?1", Arguments::One(Argument::Text("notice")), Expected::First(Row::One(Literal::Integer(1)))))
    } else if i == 15 {
        Some(Action::Query(0, "SELECT COUNT(*) FROM logs WHERE level=?1", Arguments::One(Argument::Text("critical")), Expected::First(Row::One(Literal::Integer(1)))))
    } else if i == 16 {
        Some(Action::Query(0, "SELECT COUNT(*) FROM logs WHERE level=?1", Arguments::One(Argument::Text("error")), Expected::First(Row::One(Literal::Integer(0)))))
    } else if i == 17 {
        Some(Action::Query(0, "SELECT group_key,n FROM timeless_log_buckets('logs','level',NULL,?1,?2,10)", Arguments::Two(Argument::Integer(1700000000123456), Argument::Integer(1700000000123465)), Expected::Members(Rows::Four(Row::Two(Literal::Text("notice"), Literal::Integer(1)), Row::Two(Literal::Text("critical"), Literal::Integer(1)), Row::Two(Literal::Text("emergency"), Literal::Integer(1)), Row::Two(Literal::Text("info"), Literal::Integer(1))))))
    } else if i == 18 {
        Some(Action::Query(0, "SELECT value FROM timeless_log_values('logs','host','{\"service\":\"api\"}',NULL,?1,?2,10)", Arguments::Two(Argument::Integer(1700000000123456), Argument::Integer(1700000000123456)), Expected::Rows(Rows::Two(Row::One(Literal::Text("web-a")), Row::One(Literal::Text("web-c"))))))
    } else if i == 19 {
        Some(Action::Query(0, "SELECT value FROM timeless_log_values('logs','host',NULL,NULL,NULL,NULL,2)", Arguments::Zero, Expected::Rows(Rows::Two(Row::One(Literal::Text("web-a")), Row::One(Literal::Text("web-b"))))))
    } else if i == 20 {
        Some(Action::Query(0, "SELECT value FROM timeless_log_values('logs','host',NULL,NULL,NULL,NULL,100001)", Arguments::Zero, Expected::RefusedWith("limit must be between 0 and 100000")))
    } else if i == 21 {
        Some(Action::Query(0, "SELECT message FROM logs ORDER BY ts ASC LIMIT 2", Arguments::Zero, Expected::Rows(Rows::Two(Row::One(Literal::Text("a-message")), Row::One(Literal::Text("b-message"))))))
    } else if i == 22 {
        Some(Action::Pass("PASS: capability handshake and rich logs v0/v1 compatibility"))
    } else {
        None
    }
}

/// The suite of rich log entries: what is done at a place, from 0 on.
pub fn run(i: usize) -> (action: Option<Action>)
    ensures
        action == run_at(i as int),
{
    if i == 0 {
        Some(Action::Open(0, Database::Given))
    } else if i == 1 {
        Some(Action::Capabilities(0))
    } else if i == 2 {
        Some(Action::Execute(0, "CREATE VIRTUAL TABLE bad USING timeless_logs(timestamp_unit='seconds')", Arguments::Zero, Expected::RefusedWith("expected 'ms' or 'us'")))
    } else if i == 3 {
        Some(Action::Execute(0, "CREATE VIRTUAL TABLE logs USING timeless_logs(index_keys='service,host',timestamp_unit='us')", Arguments::Zero, Expected::Done))
    } else if i == 4 {
        Some(Action::Query(0, "SELECT CAST(v AS TEXT) FROM logs_meta WHERE k='timestamp_unit'", Arguments::Zero, Expected::First(Row::One(Literal::Text("us")))))
    } else if i == 5 {
        Some(Action::Execute(0, "INSERT INTO logs(logs) VALUES (?1)", Arguments::One(Argument::Made(Blob::RichLogs)), Expected::Done))
    } else if i == 6 {
        Some(Action::Query(0, "SELECT COUNT(*) FROM logs", Arguments::Zero, Expected::First(Row::One(Literal::Integer(3)))))
    } else if i == 7 {
        Some(Action::Execute(0, "INSERT INTO logs(logs) VALUES (?1)", Arguments::One(Argument::Made(Blob::FlatLogs)), Expected::Done))
    } else if i == 8 {
        Some(Action::Query(0, "SELECT COUNT(*) FROM logs", Arguments::Zero, Expected::First(Row::One(Literal::Integer(4)))))
    } else if i == 9 {
        Some(Action::Execute(0, "INSERT INTO logs(logs) VALUES ('flush')", Arguments::Zero, Expected::Done))
    } else if i == 10 {
        Some(Action::Execute(0, "INSERT INTO logs(logs) VALUES ('optimize')", Arguments::Zero, Expected::Done))
    } else if i == 11 {
        Some(Action::Close(0))
    } else if i == 12 {
        Some(Action::Open(0, Database::Given))
    } else if i == 13 {
        Some(Action::RichRows(0))
    } else if i == 14 {
        Some(Action::Query(0, "SELECT COUNT(*) FROM logs WHERE level=?1", Arguments::One(Argument::Text("notice")), Expected::First(Row::One(Literal::Integer(1)))))
    } else if i == 15 {
        Some(Action::Query(0, "SELECT COUNT(*) FROM logs WHERE level=?1", Arguments::One(Argument::Text("critical")), Expected::First(Row::One(Literal::Integer(1)))))
    } else if i == 16 {
        Some(Action::Query(0, "SELECT COUNT(*) FROM logs WHERE level=?1", Arguments::One(Argument::Text("error")), Expected::First(Row::One(Literal::Integer(0)))))
    } else if i == 17 {
        Some(Action::Query(0, "SELECT group_key,n FROM timeless_log_buckets('logs','level',NULL,?1,?2,10)", Arguments::Two(Argument::Integer(1700000000123456), Argument::Integer(1700000000123465)), Expected::Members(Rows::Four(Row::Two(Literal::Text("notice"), Literal::Integer(1)), Row::Two(Literal::Text("critical"), Literal::Integer(1)), Row::Two(Literal::Text("emergency"), Literal::Integer(1)), Row::Two(Literal::Text("info"), Literal::Integer(1))))))
    } else if i == 18 {
        Some(Action::Query(0, "SELECT value FROM timeless_log_values('logs','host','{\"service\":\"api\"}',NULL,?1,?2,10)", Arguments::Two(Argument::Integer(1700000000123456), Argument::Integer(1700000000123456)), Expected::Rows(Rows::Two(Row::One(Literal::Text("web-a")), Row::One(Literal::Text("web-c"))))))
    } else if i == 19 {
        Some(Action::Query(0, "SELECT value FROM timeless_log_values('logs','host',NULL,NULL,NULL,NULL,2)", Arguments::Zero, Expected::Rows(Rows::Two(Row::One(Literal::Text("web-a")), Row::One(Literal::Text("web-b"))))))
    } else if i == 20 {
        Some(Action::Query(0, "SELECT value FROM timeless_log_values('logs','host',NULL,NULL,NULL,NULL,100001)", Arguments::Zero, Expected::RefusedWith("limit must be between 0 and 100000")))
    } else if i == 21 {
        Some(Action::Query(0, "SELECT message FROM logs ORDER BY ts ASC LIMIT 2", Arguments::Zero, Expected::Rows(Rows::Two(Row::One(Literal::Text("a-message")), Row::One(Literal::Text("b-message"))))))
    } else if i == 22 {
        Some(Action::Pass("PASS: capability handshake and rich logs v0/v1 compatibility"))
    } else {
        None
    }
}

/// The script has an action at every place below 23, and none from there on.
pub proof fn run_ends(i: int)
    ensures
        run_at(i) is Some <==> 0 <= i < 23,
{
}

} // verus!
