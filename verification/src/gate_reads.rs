//! Reads across connections: publication, locking, matchers, numbers of series, frames,
//! and bounded work.
use crate::gate::{Action, Argument, Arguments, Blob, Bound, Database, Expected, Rows};
use crate::values::{Literal, Row};
use vstd::prelude::*;

verus! {

/// A part of the script.
pub open spec fn shared_engine_part_0_at(i: int) -> Option<Action> {
    if i == 0 {
        Some(Action::Open(0, Database::Given))
    } else if i == 1 {
        Some(Action::Open(1, Database::Given))
    } else if i == 2 {
        Some(Action::Execute(0, "CREATE VIRTUAL TABLE m USING timeless_metrics", Arguments::Zero, Expected::Done))
    } else if i == 3 {
        Some(Action::Query(1, "SELECT COUNT(*) FROM m", Arguments::Zero, Expected::First(Row::One(Literal::Integer(0)))))
    } else if i == 4 {
        Some(Action::Execute(0, "INSERT INTO m(name,ts,value) VALUES('cpu',100,1.5)", Arguments::Zero, Expected::Done))
    } else if i == 5 {
        Some(Action::Execute(0, "INSERT INTO m(m) VALUES('flush')", Arguments::Zero, Expected::Done))
    } else if i == 6 {
        Some(Action::Query(1, "SELECT name,ts,value FROM m", Arguments::Zero, Expected::Rows(Rows::One(Row::Three(Literal::Text("cpu"), Literal::Integer(100), Literal::Real(0x3ff8000000000000))))))
    } else if i == 7 {
        Some(Action::Query(1, "SELECT value FROM timeless_aggregate('m','cpu',NULL,0,500,'sum')", Arguments::Zero, Expected::First(Row::One(Literal::Real(0x3ff8000000000000)))))
    } else if i == 8 {
        Some(Action::Execute(0, "INSERT INTO m(name,ts,value) VALUES('cpu',200,2.5)", Arguments::Zero, Expected::Done))
    } else if i == 9 {
        Some(Action::Query(1, "SELECT COUNT(*) FROM m WHERE name='cpu'", Arguments::Zero, Expected::First(Row::One(Literal::Integer(2)))))
    } else if i == 10 {
        Some(Action::Query(1, "SELECT value FROM timeless_aggregate('m','cpu',NULL,0,500,'sum')", Arguments::Zero, Expected::First(Row::One(Literal::Real(0x4010000000000000)))))
    } else if i == 11 {
        Some(Action::Patience(1, 2000))
    } else if i == 12 {
        Some(Action::Execute(0, "BEGIN", Arguments::Zero, Expected::Done))
    } else if i == 13 {
        Some(Action::Execute(0, "INSERT INTO m(name,ts,value) VALUES('cpu',300,3.5)", Arguments::Zero, Expected::Done))
    } else if i == 14 {
        Some(Action::Locked(1, "INSERT INTO m(name,ts,value) VALUES('mem',300,9.0)", "locked", 1500, 20000))
    } else if i == 15 {
        Some(Action::Patience(1, 30000))
    } else if i == 16 {
        Some(Action::Execute(0, "COMMIT", Arguments::Zero, Expected::Done))
    } else if i == 17 {
        Some(Action::Execute(1, "INSERT INTO m(name,ts,value) VALUES('mem',300,9.0)", Arguments::Zero, Expected::Done))
    } else if i == 18 {
        Some(Action::Query(0, "SELECT COUNT(*) FROM m", Arguments::Zero, Expected::First(Row::One(Literal::Integer(4)))))
    } else if i == 19 {
        Some(Action::Execute(0, "DROP TABLE m", Arguments::Zero, Expected::Done))
    } else if i == 20 {
        Some(Action::Execute(0, "CREATE VIRTUAL TABLE m USING timeless_metrics", Arguments::Zero, Expected::Done))
    } else if i == 21 {
        Some(Action::Execute(1, "INSERT INTO m(name,ts,value) VALUES('disk',400,7.0)", Arguments::Zero, Expected::Done))
    } else if i == 22 {
        Some(Action::Execute(0, "INSERT INTO m(m) VALUES('flush')", Arguments::Zero, Expected::Done))
    } else if i == 23 {
        Some(Action::Query(0, "SELECT name,ts,value FROM m", Arguments::Zero, Expected::Rows(Rows::One(Row::Three(Literal::Text("disk"), Literal::Integer(400), Literal::Real(0x401c000000000000))))))
    } else {
        None
    }
}

fn shared_engine_part_0(i: usize) -> (action: Option<Action>)
    ensures
        action == shared_engine_part_0_at(i as int),
{
    if i == 0 {
        Some(Action::Open(0, Database::Given))
    } else if i == 1 {
        Some(Action::Open(1, Database::Given))
    } else if i == 2 {
        Some(Action::Execute(0, "CREATE VIRTUAL TABLE m USING timeless_metrics", Arguments::Zero, Expected::Done))
    } else if i == 3 {
        Some(Action::Query(1, "SELECT COUNT(*) FROM m", Arguments::Zero, Expected::First(Row::One(Literal::Integer(0)))))
    } else if i == 4 {
        Some(Action::Execute(0, "INSERT INTO m(name,ts,value) VALUES('cpu',100,1.5)", Arguments::Zero, Expected::Done))
    } else if i == 5 {
        Some(Action::Execute(0, "INSERT INTO m(m) VALUES('flush')", Arguments::Zero, Expected::Done))
    } else if i == 6 {
        Some(Action::Query(1, "SELECT name,ts,value FROM m", Arguments::Zero, Expected::Rows(Rows::One(Row::Three(Literal::Text("cpu"), Literal::Integer(100), Literal::Real(0x3ff8000000000000))))))
    } else if i == 7 {
        Some(Action::Query(1, "SELECT value FROM timeless_aggregate('m','cpu',NULL,0,500,'sum')", Arguments::Zero, Expected::First(Row::One(Literal::Real(0x3ff8000000000000)))))
    } else if i == 8 {
        Some(Action::Execute(0, "INSERT INTO m(name,ts,value) VALUES('cpu',200,2.5)", Arguments::Zero, Expected::Done))
    } else if i == 9 {
        Some(Action::Query(1, "SELECT COUNT(*) FROM m WHERE name='cpu'", Arguments::Zero, Expected::First(Row::One(Literal::Integer(2)))))
    } else if i == 10 {
        Some(Action::Query(1, "SELECT value FROM timeless_aggregate('m','cpu',NULL,0,500,'sum')", Arguments::Zero, Expected::First(Row::One(Literal::Real(0x4010000000000000)))))
    } else if i == 11 {
        Some(Action::Patience(1, 2000))
    } else if i == 12 {
        Some(Action::Execute(0, "BEGIN", Arguments::Zero, Expected::Done))
    } else if i == 13 {
        Some(Action::Execute(0, "INSERT INTO m(name,ts,value) VALUES('cpu',300,3.5)", Arguments::Zero, Expected::Done))
    } else if i == 14 {
        Some(Action::Locked(1, "INSERT INTO m(name,ts,value) VALUES('mem',300,9.0)", "locked", 1500, 20000))
    } else if i == 15 {
        Some(Action::Patience(1, 30000))
    } else if i == 16 {
        Some(Action::Execute(0, "COMMIT", Arguments::Zero, Expected::Done))
    } else if i == 17 {
        Some(Action::Execute(1, "INSERT INTO m(name,ts,value) VALUES('mem',300,9.0)", Arguments::Zero, Expected::Done))
    } else if i == 18 {
        Some(Action::Query(0, "SELECT COUNT(*) FROM m", Arguments::Zero, Expected::First(Row::One(Literal::Integer(4)))))
    } else if i == 19 {
        Some(Action::Execute(0, "DROP TABLE m", Arguments::Zero, Expected::Done))
    } else if i == 20 {
        Some(Action::Execute(0, "CREATE VIRTUAL TABLE m USING timeless_metrics", Arguments::Zero, Expected::Done))
    } else if i == 21 {
        Some(Action::Execute(1, "INSERT INTO m(name,ts,value) VALUES('disk',400,7.0)", Arguments::Zero, Expected::Done))
    } else if i == 22 {
        Some(Action::Execute(0, "INSERT INTO m(m) VALUES('flush')", Arguments::Zero, Expected::Done))
    } else if i == 23 {
        Some(Action::Query(0, "SELECT name,ts,value FROM m", Arguments::Zero, Expected::Rows(Rows::One(Row::Three(Literal::Text("disk"), Literal::Integer(400), Literal::Real(0x401c000000000000))))))
    } else {
        None
    }
}

/// A part of the script.
pub open spec fn shared_engine_part_1_at(i: int) -> Option<Action> {
    if i == 0 {
        Some(Action::Query(1, "SELECT COUNT(*) FROM m", Arguments::Zero, Expected::First(Row::One(Literal::Integer(1)))))
    } else if i == 1 {
        Some(Action::Pass("PASS: shared engine publication, bounded locking, and recreate"))
    } else {
        None
    }
}

fn shared_engine_part_1(i: usize) -> (action: Option<Action>)
    ensures
        action == shared_engine_part_1_at(i as int),
{
    if i == 0 {
        Some(Action::Query(1, "SELECT COUNT(*) FROM m", Arguments::Zero, Expected::First(Row::One(Literal::Integer(1)))))
    } else if i == 1 {
        Some(Action::Pass("PASS: shared engine publication, bounded locking, and recreate"))
    } else {
        None
    }
}

/// Connections of one process share an engine: what is done at a place, from 0 on.
pub open spec fn shared_engine_at(i: int) -> Option<Action> {
    if i < 24 {
        shared_engine_part_0_at(i)
    } else {
        shared_engine_part_1_at(i - 24)
    }
}

/// Connections of one process share an engine: what is done at a place, from 0 on.
pub fn shared_engine(i: usize) -> (action: Option<Action>)
    ensures
        action == shared_engine_at(i as int),
{
    if i < 24 {
        shared_engine_part_0(i)
    } else {
        shared_engine_part_1(i - 24)
    }
}

/// The packed rollup agrees with the rows of all aggregates: what is done at a place, from 0 on.
pub open spec fn packed_rollup_at(i: int) -> Option<Action> {
    if i == 0 {
        Some(Action::Open(0, Database::Given))
    } else if i == 1 {
        Some(Action::PackedRollup(0))
    } else if i == 2 {
        Some(Action::Pass("PASS: packed rollup blob matches all six row aggregates"))
    } else {
        None
    }
}

/// The packed rollup agrees with the rows of all aggregates: what is done at a place, from 0 on.
pub fn packed_rollup(i: usize) -> (action: Option<Action>)
    ensures
        action == packed_rollup_at(i as int),
{
    if i == 0 {
        Some(Action::Open(0, Database::Given))
    } else if i == 1 {
        Some(Action::PackedRollup(0))
    } else if i == 2 {
        Some(Action::Pass("PASS: packed rollup blob matches all six row aggregates"))
    } else {
        None
    }
}

/// The latest values show committed writes of other connections: what is done at a place, from 0 on.
pub open spec fn latest_publication_at(i: int) -> Option<Action> {
    if i == 0 {
        Some(Action::Open(0, Database::Given))
    } else if i == 1 {
        Some(Action::Open(1, Database::Given))
    } else if i == 2 {
        Some(Action::Execute(0, "CREATE VIRTUAL TABLE m USING timeless_metrics", Arguments::Zero, Expected::Done))
    } else if i == 3 {
        Some(Action::Execute(0, "INSERT INTO m(name,labels,ts,value) VALUES('cpu','{\"host\":\"a\"}',10,1.0)", Arguments::Zero, Expected::Done))
    } else if i == 4 {
        Some(Action::Query(1, "SELECT labels,ts,value FROM timeless_latest('m','cpu',NULL,0,100)", Arguments::Zero, Expected::First(Row::Three(Literal::Text("{\"host\":\"a\"}"), Literal::Integer(10), Literal::Real(0x3ff0000000000000)))))
    } else if i == 5 {
        Some(Action::Pass("PASS: latest publishes committed buffered writes across live connections"))
    } else {
        None
    }
}

/// The latest values show committed writes of other connections: what is done at a place, from 0 on.
pub fn latest_publication(i: usize) -> (action: Option<Action>)
    ensures
        action == latest_publication_at(i as int),
{
    if i == 0 {
        Some(Action::Open(0, Database::Given))
    } else if i == 1 {
        Some(Action::Open(1, Database::Given))
    } else if i == 2 {
        Some(Action::Execute(0, "CREATE VIRTUAL TABLE m USING timeless_metrics", Arguments::Zero, Expected::Done))
    } else if i == 3 {
        Some(Action::Execute(0, "INSERT INTO m(name,labels,ts,value) VALUES('cpu','{\"host\":\"a\"}',10,1.0)", Arguments::Zero, Expected::Done))
    } else if i == 4 {
        Some(Action::Query(1, "SELECT labels,ts,value FROM timeless_latest('m','cpu',NULL,0,100)", Arguments::Zero, Expected::First(Row::Three(Literal::Text("{\"host\":\"a\"}"), Literal::Integer(10), Literal::Real(0x3ff0000000000000)))))
    } else if i == 5 {
        Some(Action::Pass("PASS: latest publishes committed buffered writes across live connections"))
    } else {
        None
    }
}

/// The catalog shows what is committed, by this process or another, and nothing else: what is done at a place, from 0 on.
pub open spec fn catalog_publication_at(i: int) -> Option<Action> {
    if i == 0 {
        Some(Action::Open(0, Database::Given))
    } else if i == 1 {
        Some(Action::Open(1, Database::Given))
    } else if i == 2 {
        Some(Action::Execute(0, "CREATE VIRTUAL TABLE m USING timeless_metrics", Arguments::Zero, Expected::Done))
    } else if i == 3 {
        Some(Action::Query(1, "SELECT COUNT(*) FROM timeless_series('m')", Arguments::Zero, Expected::First(Row::One(Literal::Integer(0)))))
    } else if i == 4 {
        Some(Action::Batch(0, "INSERT INTO m(name,ts,value) VALUES('cpu',10,1.0); INSERT INTO m(name,ts,value) VALUES('cpu',20,2.0); INSERT INTO m(m) VALUES('flush');", Expected::Done))
    } else if i == 5 {
        Some(Action::Query(1, "SELECT name,ts,value FROM m ORDER BY name,ts,value", Arguments::Zero, Expected::Rows(Rows::Two(Row::Three(Literal::Text("cpu"), Literal::Integer(10), Literal::Real(0x3ff0000000000000)), Row::Three(Literal::Text("cpu"), Literal::Integer(20), Literal::Real(0x4000000000000000))))))
    } else if i == 6 {
        Some(Action::Batch(0, "BEGIN; INSERT INTO m(name,ts,value) VALUES('cpu',30,99.0); INSERT INTO m(m) VALUES('flush'); INSERT INTO m(m) VALUES('prune:25'); ROLLBACK;", Expected::Done))
    } else if i == 7 {
        Some(Action::Query(1, "SELECT name,ts,value FROM m ORDER BY name,ts,value", Arguments::Zero, Expected::Rows(Rows::Two(Row::Three(Literal::Text("cpu"), Literal::Integer(10), Literal::Real(0x3ff0000000000000)), Row::Three(Literal::Text("cpu"), Literal::Integer(20), Literal::Real(0x4000000000000000))))))
    } else if i == 8 {
        Some(Action::Batch(0, "INSERT INTO m(name,ts,value) VALUES('cpu',30,3.0); INSERT INTO m(m) VALUES('flush'); INSERT INTO m(m) VALUES('compact');", Expected::Done))
    } else if i == 9 {
        Some(Action::Query(1, "SELECT name,ts,value FROM m ORDER BY name,ts,value", Arguments::Zero, Expected::Rows(Rows::Three(Row::Three(Literal::Text("cpu"), Literal::Integer(10), Literal::Real(0x3ff0000000000000)), Row::Three(Literal::Text("cpu"), Literal::Integer(20), Literal::Real(0x4000000000000000)), Row::Three(Literal::Text("cpu"), Literal::Integer(30), Literal::Real(0x4008000000000000))))))
    } else if i == 10 {
        Some(Action::Query(1, "SELECT COUNT(*) FROM m_chunks", Arguments::Zero, Expected::First(Row::One(Literal::Integer(1)))))
    } else if i == 11 {
        Some(Action::Batch(0, "INSERT INTO m(name,ts,value) VALUES('old',1,8.0); INSERT INTO m(m) VALUES('flush'); INSERT INTO m(m) VALUES('prune:5');", Expected::Done))
    } else if i == 12 {
        Some(Action::Query(1, "SELECT name,ts,value FROM m ORDER BY name,ts,value", Arguments::Zero, Expected::Rows(Rows::Three(Row::Three(Literal::Text("cpu"), Literal::Integer(10), Literal::Real(0x3ff0000000000000)), Row::Three(Literal::Text("cpu"), Literal::Integer(20), Literal::Real(0x4000000000000000)), Row::Three(Literal::Text("cpu"), Literal::Integer(30), Literal::Real(0x4008000000000000))))))
    } else if i == 13 {
        Some(Action::External("INSERT INTO m(name,ts,value) VALUES('mem',40,4.0);\nINSERT INTO m(m) VALUES('flush');\n"))
    } else if i == 14 {
        Some(Action::Query(1, "SELECT name,ts,value FROM m ORDER BY name,ts,value", Arguments::Zero, Expected::Rows(Rows::Four(Row::Three(Literal::Text("cpu"), Literal::Integer(10), Literal::Real(0x3ff0000000000000)), Row::Three(Literal::Text("cpu"), Literal::Integer(20), Literal::Real(0x4000000000000000)), Row::Three(Literal::Text("cpu"), Literal::Integer(30), Literal::Real(0x4008000000000000)), Row::Three(Literal::Text("mem"), Literal::Integer(40), Literal::Real(0x4010000000000000))))))
    } else if i == 15 {
        Some(Action::Close(0))
    } else if i == 16 {
        Some(Action::Close(1))
    } else if i == 17 {
        Some(Action::Open(2, Database::Given))
    } else if i == 18 {
        Some(Action::Query(2, "SELECT name,ts,value FROM m ORDER BY name,ts,value", Arguments::Zero, Expected::Rows(Rows::Four(Row::Three(Literal::Text("cpu"), Literal::Integer(10), Literal::Real(0x3ff0000000000000)), Row::Three(Literal::Text("cpu"), Literal::Integer(20), Literal::Real(0x4000000000000000)), Row::Three(Literal::Text("cpu"), Literal::Integer(30), Literal::Real(0x4008000000000000)), Row::Three(Literal::Text("mem"), Literal::Integer(40), Literal::Real(0x4010000000000000))))))
    } else if i == 19 {
        Some(Action::Query(2, "SELECT COUNT(*) FROM m_chunks", Arguments::Zero, Expected::First(Row::One(Literal::Integer(2)))))
    } else if i == 20 {
        Some(Action::Pass("PASS: catalog commit, rollback, compact, prune, external invalidation, and reopen"))
    } else {
        None
    }
}

/// The catalog shows what is committed, by this process or another, and nothing else: what is done at a place, from 0 on.
pub fn catalog_publication(i: usize) -> (action: Option<Action>)
    ensures
        action == catalog_publication_at(i as int),
{
    if i == 0 {
        Some(Action::Open(0, Database::Given))
    } else if i == 1 {
        Some(Action::Open(1, Database::Given))
    } else if i == 2 {
        Some(Action::Execute(0, "CREATE VIRTUAL TABLE m USING timeless_metrics", Arguments::Zero, Expected::Done))
    } else if i == 3 {
        Some(Action::Query(1, "SELECT COUNT(*) FROM timeless_series('m')", Arguments::Zero, Expected::First(Row::One(Literal::Integer(0)))))
    } else if i == 4 {
        Some(Action::Batch(0, "INSERT INTO m(name,ts,value) VALUES('cpu',10,1.0); INSERT INTO m(name,ts,value) VALUES('cpu',20,2.0); INSERT INTO m(m) VALUES('flush');", Expected::Done))
    } else if i == 5 {
        Some(Action::Query(1, "SELECT name,ts,value FROM m ORDER BY name,ts,value", Arguments::Zero, Expected::Rows(Rows::Two(Row::Three(Literal::Text("cpu"), Literal::Integer(10), Literal::Real(0x3ff0000000000000)), Row::Three(Literal::Text("cpu"), Literal::Integer(20), Literal::Real(0x4000000000000000))))))
    } else if i == 6 {
        Some(Action::Batch(0, "BEGIN; INSERT INTO m(name,ts,value) VALUES('cpu',30,99.0); INSERT INTO m(m) VALUES('flush'); INSERT INTO m(m) VALUES('prune:25'); ROLLBACK;", Expected::Done))
    } else if i == 7 {
        Some(Action::Query(1, "SELECT name,ts,value FROM m ORDER BY name,ts,value", Arguments::Zero, Expected::Rows(Rows::Two(Row::Three(Literal::Text("cpu"), Literal::Integer(10), Literal::Real(0x3ff0000000000000)), Row::Three(Literal::Text("cpu"), Literal::Integer(20), Literal::Real(0x4000000000000000))))))
    } else if i == 8 {
        Some(Action::Batch(0, "INSERT INTO m(name,ts,value) VALUES('cpu',30,3.0); INSERT INTO m(m) VALUES('flush'); INSERT INTO m(m) VALUES('compact');", Expected::Done))
    } else if i == 9 {
        Some(Action::Query(1, "SELECT name,ts,value FROM m ORDER BY name,ts,value", Arguments::Zero, Expected::Rows(Rows::Three(Row::Three(Literal::Text("cpu"), Literal::Integer(10), Literal::Real(0x3ff0000000000000)), Row::Three(Literal::Text("cpu"), Literal::Integer(20), Literal::Real(0x4000000000000000)), Row::Three(Literal::Text("cpu"), Literal::Integer(30), Literal::Real(0x4008000000000000))))))
    } else if i == 10 {
        Some(Action::Query(1, "SELECT COUNT(*) FROM m_chunks", Arguments::Zero, Expected::First(Row::One(Literal::Integer(1)))))
    } else if i == 11 {
        Some(Action::Batch(0, "INSERT INTO m(name,ts,value) VALUES('old',1,8.0); INSERT INTO m(m) VALUES('flush'); INSERT INTO m(m) VALUES('prune:5');", Expected::Done))
    } else if i == 12 {
        Some(Action::Query(1, "SELECT name,ts,value FROM m ORDER BY name,ts,value", Arguments::Zero, Expected::Rows(Rows::Three(Row::Three(Literal::Text("cpu"), Literal::Integer(10), Literal::Real(0x3ff0000000000000)), Row::Three(Literal::Text("cpu"), Literal::Integer(20), Literal::Real(0x4000000000000000)), Row::Three(Literal::Text("cpu"), Literal::Integer(30), Literal::Real(0x4008000000000000))))))
    } else if i == 13 {
        Some(Action::External("INSERT INTO m(name,ts,value) VALUES('mem',40,4.0);\nINSERT INTO m(m) VALUES('flush');\n"))
    } else if i == 14 {
        Some(Action::Query(1, "SELECT name,ts,value FROM m ORDER BY name,ts,value", Arguments::Zero, Expected::Rows(Rows::Four(Row::Three(Literal::Text("cpu"), Literal::Integer(10), Literal::Real(0x3ff0000000000000)), Row::Three(Literal::Text("cpu"), Literal::Integer(20), Literal::Real(0x4000000000000000)), Row::Three(Literal::Text("cpu"), Literal::Integer(30), Literal::Real(0x4008000000000000)), Row::Three(Literal::Text("mem"), Literal::Integer(40), Literal::Real(0x4010000000000000))))))
    } else if i == 15 {
        Some(Action::Close(0))
    } else if i == 16 {
        Some(Action::Close(1))
    } else if i == 17 {
        Some(Action::Open(2, Database::Given))
    } else if i == 18 {
        Some(Action::Query(2, "SELECT name,ts,value FROM m ORDER BY name,ts,value", Arguments::Zero, Expected::Rows(Rows::Four(Row::Three(Literal::Text("cpu"), Literal::Integer(10), Literal::Real(0x3ff0000000000000)), Row::Three(Literal::Text("cpu"), Literal::Integer(20), Literal::Real(0x4000000000000000)), Row::Three(Literal::Text("cpu"), Literal::Integer(30), Literal::Real(0x4008000000000000)), Row::Three(Literal::Text("mem"), Literal::Integer(40), Literal::Real(0x4010000000000000))))))
    } else if i == 19 {
        Some(Action::Query(2, "SELECT COUNT(*) FROM m_chunks", Arguments::Zero, Expected::First(Row::One(Literal::Integer(2)))))
    } else if i == 20 {
        Some(Action::Pass("PASS: catalog commit, rollback, compact, prune, external invalidation, and reopen"))
    } else {
        None
    }
}

/// Series are found by their matchers: what is done at a place, from 0 on.
pub open spec fn matcher_discovery_at(i: int) -> Option<Action> {
    if i == 0 {
        Some(Action::Open(0, Database::Given))
    } else if i == 1 {
        Some(Action::Open(1, Database::Given))
    } else if i == 2 {
        Some(Action::Execute(0, "CREATE VIRTUAL TABLE m USING timeless_metrics", Arguments::Zero, Expected::Done))
    } else if i == 3 {
        Some(Action::Execute(0, "INSERT INTO m(name,labels,ts,value) VALUES('cpu',?1,10,?2)", Arguments::Two(Argument::Text("{\"code\":\"a\",\"env\":\"prod\",\"host\":\"web-1\"}"), Argument::Real(0x3ff0000000000000)), Expected::Done))
    } else if i == 4 {
        Some(Action::Execute(0, "INSERT INTO m(name,labels,ts,value) VALUES('cpu',?1,10,?2)", Arguments::Two(Argument::Text("{\"code\":\"é\",\"env\":\"dev\",\"host\":\"web-2\"}"), Argument::Real(0x4000000000000000)), Expected::Done))
    } else if i == 5 {
        Some(Action::Execute(0, "INSERT INTO m(name,labels,ts,value) VALUES('cpu',?1,10,?2)", Arguments::Two(Argument::Text("{\"host\":\"db-1\"}"), Argument::Real(0x4008000000000000)), Expected::Done))
    } else if i == 6 {
        Some(Action::Execute(0, "INSERT INTO m(name,labels,ts,value) VALUES('cpu',?1,10,?2)", Arguments::Two(Argument::Text("{\"env\":\"\",\"host\":\"empty\"}"), Argument::Real(0x4010000000000000)), Expected::Done))
    } else if i == 7 {
        Some(Action::Query(1, "SELECT labels FROM timeless_series('m','cpu','{\"host\":{\"re\":\"web-.*\"}}') ORDER BY labels", Arguments::Zero, Expected::Rows(Rows::Two(Row::One(Literal::Text("{\"code\":\"a\",\"env\":\"prod\",\"host\":\"web-1\"}")), Row::One(Literal::Text("{\"code\":\"é\",\"env\":\"dev\",\"host\":\"web-2\"}"))))))
    } else if i == 8 {
        Some(Action::Execute(0, "INSERT INTO m(m) VALUES('flush')", Arguments::Zero, Expected::Done))
    } else if i == 9 {
        Some(Action::Query(1, "SELECT labels FROM timeless_series('m','cpu','{\"host\":{\"re\":\"web-.*\"},\"env\":{\"neq\":\"dev\"}}') ORDER BY labels", Arguments::Zero, Expected::Rows(Rows::One(Row::One(Literal::Text("{\"code\":\"a\",\"env\":\"prod\",\"host\":\"web-1\"}"))))))
    } else if i == 10 {
        Some(Action::Query(1, "SELECT labels FROM timeless_series('m','cpu','{\"env\":{\"re\":\"\"}}') ORDER BY labels", Arguments::Zero, Expected::Rows(Rows::Two(Row::One(Literal::Text("{\"env\":\"\",\"host\":\"empty\"}")), Row::One(Literal::Text("{\"host\":\"db-1\"}"))))))
    } else if i == 11 {
        Some(Action::Query(1, "SELECT value FROM timeless_label_values('m','cpu','host','{\"env\":{\"neq\":\"dev\"}}')", Arguments::Zero, Expected::Rows(Rows::Three(Row::One(Literal::Text("db-1")), Row::One(Literal::Text("empty")), Row::One(Literal::Text("web-1"))))))
    } else if i == 12 {
        Some(Action::Query(1, "SELECT COUNT(*) FROM timeless_raw_batches('m','cpu','{\"host\":{\"re\":\"web-.*\"},\"env\":{\"neq\":\"dev\"}}',0,20)", Arguments::Zero, Expected::First(Row::One(Literal::Integer(1)))))
    } else if i == 13 {
        Some(Action::Batch(0, "BEGIN; INSERT INTO m(name,labels,ts,value) VALUES('cpu','{\"host\":\"tmp\"}',20,9.0); INSERT INTO m(m) VALUES('flush'); ROLLBACK;", Expected::Done))
    } else if i == 14 {
        Some(Action::Query(1, "SELECT COUNT(*) FROM timeless_series('m','cpu','{\"host\":\"tmp\"}')", Arguments::Zero, Expected::First(Row::One(Literal::Integer(0)))))
    } else if i == 15 {
        Some(Action::Close(0))
    } else if i == 16 {
        Some(Action::Close(1))
    } else if i == 17 {
        Some(Action::Open(0, Database::Given))
    } else if i == 18 {
        Some(Action::Query(0, "SELECT COUNT(*) FROM timeless_series('m','cpu','{\"host\":{\"re\":\"web-.*\"}}')", Arguments::Zero, Expected::First(Row::One(Literal::Integer(2)))))
    } else if i == 19 {
        Some(Action::Pass("PASS: matcher-aware discovery covers buffered, combined, absent, rollback, and reopen"))
    } else {
        None
    }
}

/// Series are found by their matchers: what is done at a place, from 0 on.
pub fn matcher_discovery(i: usize) -> (action: Option<Action>)
    ensures
        action == matcher_discovery_at(i as int),
{
    if i == 0 {
        Some(Action::Open(0, Database::Given))
    } else if i == 1 {
        Some(Action::Open(1, Database::Given))
    } else if i == 2 {
        Some(Action::Execute(0, "CREATE VIRTUAL TABLE m USING timeless_metrics", Arguments::Zero, Expected::Done))
    } else if i == 3 {
        Some(Action::Execute(0, "INSERT INTO m(name,labels,ts,value) VALUES('cpu',?1,10,?2)", Arguments::Two(Argument::Text("{\"code\":\"a\",\"env\":\"prod\",\"host\":\"web-1\"}"), Argument::Real(0x3ff0000000000000)), Expected::Done))
    } else if i == 4 {
        Some(Action::Execute(0, "INSERT INTO m(name,labels,ts,value) VALUES('cpu',?1,10,?2)", Arguments::Two(Argument::Text("{\"code\":\"é\",\"env\":\"dev\",\"host\":\"web-2\"}"), Argument::Real(0x4000000000000000)), Expected::Done))
    } else if i == 5 {
        Some(Action::Execute(0, "INSERT INTO m(name,labels,ts,value) VALUES('cpu',?1,10,?2)", Arguments::Two(Argument::Text("{\"host\":\"db-1\"}"), Argument::Real(0x4008000000000000)), Expected::Done))
    } else if i == 6 {
        Some(Action::Execute(0, "INSERT INTO m(name,labels,ts,value) VALUES('cpu',?1,10,?2)", Arguments::Two(Argument::Text("{\"env\":\"\",\"host\":\"empty\"}"), Argument::Real(0x4010000000000000)), Expected::Done))
    } else if i == 7 {
        Some(Action::Query(1, "SELECT labels FROM timeless_series('m','cpu','{\"host\":{\"re\":\"web-.*\"}}') ORDER BY labels", Arguments::Zero, Expected::Rows(Rows::Two(Row::One(Literal::Text("{\"code\":\"a\",\"env\":\"prod\",\"host\":\"web-1\"}")), Row::One(Literal::Text("{\"code\":\"é\",\"env\":\"dev\",\"host\":\"web-2\"}"))))))
    } else if i == 8 {
        Some(Action::Execute(0, "INSERT INTO m(m) VALUES('flush')", Arguments::Zero, Expected::Done))
    } else if i == 9 {
        Some(Action::Query(1, "SELECT labels FROM timeless_series('m','cpu','{\"host\":{\"re\":\"web-.*\"},\"env\":{\"neq\":\"dev\"}}') ORDER BY labels", Arguments::Zero, Expected::Rows(Rows::One(Row::One(Literal::Text("{\"code\":\"a\",\"env\":\"prod\",\"host\":\"web-1\"}"))))))
    } else if i == 10 {
        Some(Action::Query(1, "SELECT labels FROM timeless_series('m','cpu','{\"env\":{\"re\":\"\"}}') ORDER BY labels", Arguments::Zero, Expected::Rows(Rows::Two(Row::One(Literal::Text("{\"env\":\"\",\"host\":\"empty\"}")), Row::One(Literal::Text("{\"host\":\"db-1\"}"))))))
    } else if i == 11 {
        Some(Action::Query(1, "SELECT value FROM timeless_label_values('m','cpu','host','{\"env\":{\"neq\":\"dev\"}}')", Arguments::Zero, Expected::Rows(Rows::Three(Row::One(Literal::Text("db-1")), Row::One(Literal::Text("empty")), Row::One(Literal::Text("web-1"))))))
    } else if i == 12 {
        Some(Action::Query(1, "SELECT COUNT(*) FROM timeless_raw_batches('m','cpu','{\"host\":{\"re\":\"web-.*\"},\"env\":{\"neq\":\"dev\"}}',0,20)", Arguments::Zero, Expected::First(Row::One(Literal::Integer(1)))))
    } else if i == 13 {
        Some(Action::Batch(0, "BEGIN; INSERT INTO m(name,labels,ts,value) VALUES('cpu','{\"host\":\"tmp\"}',20,9.0); INSERT INTO m(m) VALUES('flush'); ROLLBACK;", Expected::Done))
    } else if i == 14 {
        Some(Action::Query(1, "SELECT COUNT(*) FROM timeless_series('m','cpu','{\"host\":\"tmp\"}')", Arguments::Zero, Expected::First(Row::One(Literal::Integer(0)))))
    } else if i == 15 {
        Some(Action::Close(0))
    } else if i == 16 {
        Some(Action::Close(1))
    } else if i == 17 {
        Some(Action::Open(0, Database::Given))
    } else if i == 18 {
        Some(Action::Query(0, "SELECT COUNT(*) FROM timeless_series('m','cpu','{\"host\":{\"re\":\"web-.*\"}}')", Arguments::Zero, Expected::First(Row::One(Literal::Integer(2)))))
    } else if i == 19 {
        Some(Action::Pass("PASS: matcher-aware discovery covers buffered, combined, absent, rollback, and reopen"))
    } else {
        None
    }
}

/// Readers are told of a write in progress and see its outcome: what is done at a place, from 0 on.
pub open spec fn reader_gate_at(i: int) -> Option<Action> {
    if i == 0 {
        Some(Action::Open(0, Database::Given))
    } else if i == 1 {
        Some(Action::Open(1, Database::Given))
    } else if i == 2 {
        Some(Action::Batch(0, "CREATE VIRTUAL TABLE m USING timeless_metrics; INSERT INTO m(name,ts,value) VALUES('cpu',10,1.0); INSERT INTO m(m) VALUES('flush');", Expected::Done))
    } else if i == 3 {
        Some(Action::Query(1, "SELECT ts,value FROM timeless_raw('m','cpu',NULL,0,100) ORDER BY ts,value", Arguments::Zero, Expected::Rows(Rows::One(Row::Two(Literal::Integer(10), Literal::Real(0x3ff0000000000000))))))
    } else if i == 4 {
        Some(Action::Batch(0, "BEGIN; INSERT INTO m(name,ts,value) VALUES('cpu',20,2.0); INSERT INTO m(m) VALUES('flush');", Expected::Done))
    } else if i == 5 {
        Some(Action::Query(1, "SELECT ts,value FROM timeless_raw('m','cpu',NULL,0,100) ORDER BY ts,value", Arguments::Zero, Expected::RefusedWithAll("active write transaction", "retry", "SQLITE_BUSY")))
    } else if i == 6 {
        Some(Action::Execute(0, "ROLLBACK", Arguments::Zero, Expected::Done))
    } else if i == 7 {
        Some(Action::Query(1, "SELECT ts,value FROM timeless_raw('m','cpu',NULL,0,100) ORDER BY ts,value", Arguments::Zero, Expected::Rows(Rows::One(Row::Two(Literal::Integer(10), Literal::Real(0x3ff0000000000000))))))
    } else if i == 8 {
        Some(Action::Batch(0, "BEGIN; INSERT INTO m(name,ts,value) VALUES('cpu',30,3.0); INSERT INTO m(m) VALUES('flush'); COMMIT;", Expected::Done))
    } else if i == 9 {
        Some(Action::Query(1, "SELECT ts,value FROM timeless_raw('m','cpu',NULL,0,100) ORDER BY ts,value", Arguments::Zero, Expected::Rows(Rows::Two(Row::Two(Literal::Integer(10), Literal::Real(0x3ff0000000000000)), Row::Two(Literal::Integer(30), Literal::Real(0x4008000000000000))))))
    } else if i == 10 {
        Some(Action::Pass("PASS: reader gate reports conflict and publishes rollback/commit exactly"))
    } else {
        None
    }
}

/// Readers are told of a write in progress and see its outcome: what is done at a place, from 0 on.
pub fn reader_gate(i: usize) -> (action: Option<Action>)
    ensures
        action == reader_gate_at(i as int),
{
    if i == 0 {
        Some(Action::Open(0, Database::Given))
    } else if i == 1 {
        Some(Action::Open(1, Database::Given))
    } else if i == 2 {
        Some(Action::Batch(0, "CREATE VIRTUAL TABLE m USING timeless_metrics; INSERT INTO m(name,ts,value) VALUES('cpu',10,1.0); INSERT INTO m(m) VALUES('flush');", Expected::Done))
    } else if i == 3 {
        Some(Action::Query(1, "SELECT ts,value FROM timeless_raw('m','cpu',NULL,0,100) ORDER BY ts,value", Arguments::Zero, Expected::Rows(Rows::One(Row::Two(Literal::Integer(10), Literal::Real(0x3ff0000000000000))))))
    } else if i == 4 {
        Some(Action::Batch(0, "BEGIN; INSERT INTO m(name,ts,value) VALUES('cpu',20,2.0); INSERT INTO m(m) VALUES('flush');", Expected::Done))
    } else if i == 5 {
        Some(Action::Query(1, "SELECT ts,value FROM timeless_raw('m','cpu',NULL,0,100) ORDER BY ts,value", Arguments::Zero, Expected::RefusedWithAll("active write transaction", "retry", "SQLITE_BUSY")))
    } else if i == 6 {
        Some(Action::Execute(0, "ROLLBACK", Arguments::Zero, Expected::Done))
    } else if i == 7 {
        Some(Action::Query(1, "SELECT ts,value FROM timeless_raw('m','cpu',NULL,0,100) ORDER BY ts,value", Arguments::Zero, Expected::Rows(Rows::One(Row::Two(Literal::Integer(10), Literal::Real(0x3ff0000000000000))))))
    } else if i == 8 {
        Some(Action::Batch(0, "BEGIN; INSERT INTO m(name,ts,value) VALUES('cpu',30,3.0); INSERT INTO m(m) VALUES('flush'); COMMIT;", Expected::Done))
    } else if i == 9 {
        Some(Action::Query(1, "SELECT ts,value FROM timeless_raw('m','cpu',NULL,0,100) ORDER BY ts,value", Arguments::Zero, Expected::Rows(Rows::Two(Row::Two(Literal::Integer(10), Literal::Real(0x3ff0000000000000)), Row::Two(Literal::Integer(30), Literal::Real(0x4008000000000000))))))
    } else if i == 10 {
        Some(Action::Pass("PASS: reader gate reports conflict and publishes rollback/commit exactly"))
    } else {
        None
    }
}

/// A part of the script.
pub open spec fn series_id_part_0_at(i: int) -> Option<Action> {
    if i == 0 {
        Some(Action::Open(0, Database::Given))
    } else if i == 1 {
        Some(Action::Query(0, "SELECT series_id FROM timeless_series('m','cpu','{\"host\":\"a\"}')", Arguments::Zero, Expected::First(Row::One(Literal::Integer(1)))))
    } else if i == 2 {
        Some(Action::Agree(0, "SELECT name,labels,min_ts,max_ts,points FROM timeless_series('m') WHERE series_id=?1", Arguments::One(Argument::Integer(1)), "SELECT name,labels,min_ts,max_ts,points FROM timeless_series('m','cpu','{\"host\":\"a\"}')", Arguments::Zero))
    } else if i == 3 {
        Some(Action::Agree(0, "SELECT ts,value FROM m WHERE series_id=?1 ORDER BY ts,value", Arguments::One(Argument::Integer(1)), "SELECT ts,value FROM m WHERE name='cpu' AND labels='{\"host\":\"a\"}' ORDER BY ts,value", Arguments::Zero))
    } else if i == 4 {
        Some(Action::Agree(0, "SELECT ts,value FROM timeless_raw('m','cpu',NULL,0,30) WHERE series_id=?1 ORDER BY ts,value", Arguments::One(Argument::Integer(1)), "SELECT ts,value FROM timeless_raw('m','cpu','{\"host\":\"a\"}',0,30) ORDER BY ts,value", Arguments::Zero))
    } else if i == 5 {
        Some(Action::Agree(0, "SELECT points FROM timeless_raw_batches('m','cpu',NULL,0,30) WHERE series_id=?1", Arguments::One(Argument::Integer(1)), "SELECT points FROM timeless_raw_batches('m','cpu','{\"host\":\"a\"}',0,30)", Arguments::Zero))
    } else if i == 6 {
        Some(Action::Agree(0, "SELECT value FROM timeless_aggregate('m','cpu',NULL,0,30,'avg') WHERE series_id=?1", Arguments::One(Argument::Integer(1)), "SELECT value FROM timeless_aggregate('m','cpu','{\"host\":\"a\"}',0,30,'avg')", Arguments::Zero))
    } else if i == 7 {
        Some(Action::Agree(0, "SELECT ts,value FROM timeless_latest('m','cpu',NULL,0,30) WHERE series_id=?1", Arguments::One(Argument::Integer(1)), "SELECT ts,value FROM timeless_latest('m','cpu','{\"host\":\"a\"}',0,30)", Arguments::Zero))
    } else if i == 8 {
        Some(Action::Agree(0, "SELECT ts,value FROM timeless_grid('m','cpu',NULL,0,20,10,10) WHERE series_id=?1 ORDER BY ts", Arguments::One(Argument::Integer(1)), "SELECT ts,value FROM timeless_grid('m','cpu','{\"host\":\"a\"}',0,20,10,10) ORDER BY ts", Arguments::Zero))
    } else if i == 9 {
        Some(Action::Agree(0, "SELECT ts,value FROM timeless_window('m','cpu',NULL,0,20,10,10,'avg') WHERE series_id=?1 ORDER BY ts", Arguments::One(Argument::Integer(1)), "SELECT ts,value FROM timeless_window('m','cpu','{\"host\":\"a\"}',0,20,10,10,'avg') ORDER BY ts", Arguments::Zero))
    } else if i == 10 {
        Some(Action::Agree(0, "SELECT buckets FROM timeless_window_batches('m','cpu',NULL,0,20,10,10,'avg') WHERE series_id=?1", Arguments::One(Argument::Integer(1)), "SELECT buckets FROM timeless_window_batches('m','cpu','{\"host\":\"a\"}',0,20,10,10,'avg')", Arguments::Zero))
    } else if i == 11 {
        Some(Action::Agree(0, "SELECT ts,value FROM timeless_rollup('m','cpu',NULL,10,0,100,'avg') WHERE series_id=?1 ORDER BY ts", Arguments::One(Argument::Integer(1)), "SELECT ts,value FROM timeless_rollup('m','cpu','{\"host\":\"a\"}',10,0,100,'avg') ORDER BY ts", Arguments::Zero))
    } else if i == 12 {
        Some(Action::Agree(0, "SELECT buckets FROM timeless_rollup_batches('m','cpu',NULL,10,0,100) WHERE series_id=?1", Arguments::One(Argument::Integer(1)), "SELECT buckets FROM timeless_rollup_batches('m','cpu','{\"host\":\"a\"}',10,0,100)", Arguments::Zero))
    } else if i == 13 {
        Some(Action::Query(0, "SELECT COUNT(*) FROM timeless_aggregate('m','cpu',NULL,0,30,'avg') WHERE series_id=?1", Arguments::One(Argument::Integer(1)), Expected::First(Row::One(Literal::Integer(1)))))
    } else if i == 14 {
        Some(Action::Query(0, "SELECT COUNT(*) FROM timeless_aggregate('m','cpu',NULL,0,30,'avg') WHERE series_id=?1", Arguments::One(Argument::Real(0x3ff0000000000000)), Expected::First(Row::One(Literal::Integer(1)))))
    } else if i == 15 {
        Some(Action::Query(0, "SELECT COUNT(*) FROM timeless_aggregate('m','cpu',NULL,0,30,'avg') WHERE series_id=?1", Arguments::One(Argument::Text("1")), Expected::First(Row::One(Literal::Integer(1)))))
    } else if i == 16 {
        Some(Action::Query(0, "SELECT COUNT(*) FROM timeless_aggregate('m','cpu',NULL,0,30,'avg') WHERE series_id=?1", Arguments::One(Argument::Text("+1.0e0")), Expected::First(Row::One(Literal::Integer(1)))))
    } else if i == 17 {
        Some(Action::Query(0, "SELECT COUNT(*) FROM timeless_aggregate('m','cpu',NULL,0,30,'avg') WHERE series_id=?1", Arguments::One(Argument::Real(0x3ff8000000000000)), Expected::First(Row::One(Literal::Integer(0)))))
    } else if i == 18 {
        Some(Action::Query(0, "SELECT COUNT(*) FROM timeless_aggregate('m','cpu',NULL,0,30,'avg') WHERE series_id=?1", Arguments::One(Argument::Text("1x")), Expected::First(Row::One(Literal::Integer(0)))))
    } else if i == 19 {
        Some(Action::Query(0, "SELECT COUNT(*) FROM timeless_aggregate('m','cpu',NULL,0,30,'avg') WHERE series_id=?1", Arguments::One(Argument::Null), Expected::First(Row::One(Literal::Integer(0)))))
    } else if i == 20 {
        Some(Action::Query(0, "SELECT COUNT(*) FROM timeless_aggregate('m','cpu',NULL,0,30,'avg') WHERE series_id=?1", Arguments::One(Argument::Fill(49, 1)), Expected::First(Row::One(Literal::Integer(0)))))
    } else if i == 21 {
        Some(Action::Query(0, "SELECT COUNT(*) FROM timeless_aggregate('m','cpu','{\"host\":\"b\"}',0,30,'avg') WHERE series_id=1", Arguments::Zero, Expected::First(Row::One(Literal::Integer(0)))))
    } else if i == 22 {
        Some(Action::Query(0, "SELECT COUNT(*) FROM timeless_aggregate('m','mem',NULL,0,30,'avg') WHERE series_id=1", Arguments::Zero, Expected::First(Row::One(Literal::Integer(0)))))
    } else if i == 23 {
        Some(Action::Query(0, "SELECT COUNT(*) FROM timeless_aggregate('m','cpu',NULL,0,30,'avg') WHERE series_id=999999", Arguments::Zero, Expected::First(Row::One(Literal::Integer(0)))))
    } else {
        None
    }
}

fn series_id_part_0(i: usize) -> (action: Option<Action>)
    ensures
        action == series_id_part_0_at(i as int),
{
    if i == 0 {
        Some(Action::Open(0, Database::Given))
    } else if i == 1 {
        Some(Action::Query(0, "SELECT series_id FROM timeless_series('m','cpu','{\"host\":\"a\"}')", Arguments::Zero, Expected::First(Row::One(Literal::Integer(1)))))
    } else if i == 2 {
        Some(Action::Agree(0, "SELECT name,labels,min_ts,max_ts,points FROM timeless_series('m') WHERE series_id=?1", Arguments::One(Argument::Integer(1)), "SELECT name,labels,min_ts,max_ts,points FROM timeless_series('m','cpu','{\"host\":\"a\"}')", Arguments::Zero))
    } else if i == 3 {
        Some(Action::Agree(0, "SELECT ts,value FROM m WHERE series_id=?1 ORDER BY ts,value", Arguments::One(Argument::Integer(1)), "SELECT ts,value FROM m WHERE name='cpu' AND labels='{\"host\":\"a\"}' ORDER BY ts,value", Arguments::Zero))
    } else if i == 4 {
        Some(Action::Agree(0, "SELECT ts,value FROM timeless_raw('m','cpu',NULL,0,30) WHERE series_id=?1 ORDER BY ts,value", Arguments::One(Argument::Integer(1)), "SELECT ts,value FROM timeless_raw('m','cpu','{\"host\":\"a\"}',0,30) ORDER BY ts,value", Arguments::Zero))
    } else if i == 5 {
        Some(Action::Agree(0, "SELECT points FROM timeless_raw_batches('m','cpu',NULL,0,30) WHERE series_id=?1", Arguments::One(Argument::Integer(1)), "SELECT points FROM timeless_raw_batches('m','cpu','{\"host\":\"a\"}',0,30)", Arguments::Zero))
    } else if i == 6 {
        Some(Action::Agree(0, "SELECT value FROM timeless_aggregate('m','cpu',NULL,0,30,'avg') WHERE series_id=?1", Arguments::One(Argument::Integer(1)), "SELECT value FROM timeless_aggregate('m','cpu','{\"host\":\"a\"}',0,30,'avg')", Arguments::Zero))
    } else if i == 7 {
        Some(Action::Agree(0, "SELECT ts,value FROM timeless_latest('m','cpu',NULL,0,30) WHERE series_id=?1", Arguments::One(Argument::Integer(1)), "SELECT ts,value FROM timeless_latest('m','cpu','{\"host\":\"a\"}',0,30)", Arguments::Zero))
    } else if i == 8 {
        Some(Action::Agree(0, "SELECT ts,value FROM timeless_grid('m','cpu',NULL,0,20,10,10) WHERE series_id=?1 ORDER BY ts", Arguments::One(Argument::Integer(1)), "SELECT ts,value FROM timeless_grid('m','cpu','{\"host\":\"a\"}',0,20,10,10) ORDER BY ts", Arguments::Zero))
    } else if i == 9 {
        Some(Action::Agree(0, "SELECT ts,value FROM timeless_window('m','cpu',NULL,0,20,10,10,'avg') WHERE series_id=?1 ORDER BY ts", Arguments::One(Argument::Integer(1)), "SELECT ts,value FROM timeless_window('m','cpu','{\"host\":\"a\"}',0,20,10,10,'avg') ORDER BY ts", Arguments::Zero))
    } else if i == 10 {
        Some(Action::Agree(0, "SELECT buckets FROM timeless_window_batches('m','cpu',NULL,0,20,10,10,'avg') WHERE series_id=?1", Arguments::One(Argument::Integer(1)), "SELECT buckets FROM timeless_window_batches('m','cpu','{\"host\":\"a\"}',0,20,10,10,'avg')", Arguments::Zero))
    } else if i == 11 {
        Some(Action::Agree(0, "SELECT ts,value FROM timeless_rollup('m','cpu',NULL,10,0,100,'avg') WHERE series_id=?1 ORDER BY ts", Arguments::One(Argument::Integer(1)), "SELECT ts,value FROM timeless_rollup('m','cpu','{\"host\":\"a\"}',10,0,100,'avg') ORDER BY ts", Arguments::Zero))
    } else if i == 12 {
        Some(Action::Agree(0, "SELECT buckets FROM timeless_rollup_batches('m','cpu',NULL,10,0,100) WHERE series_id=?1", Arguments::One(Argument::Integer(1)), "SELECT buckets FROM timeless_rollup_batches('m','cpu','{\"host\":\"a\"}',10,0,100)", Arguments::Zero))
    } else if i == 13 {
        Some(Action::Query(0, "SELECT COUNT(*) FROM timeless_aggregate('m','cpu',NULL,0,30,'avg') WHERE series_id=?1", Arguments::One(Argument::Integer(1)), Expected::First(Row::One(Literal::Integer(1)))))
    } else if i == 14 {
        Some(Action::Query(0, "SELECT COUNT(*) FROM timeless_aggregate('m','cpu',NULL,0,30,'avg') WHERE series_id=?1", Arguments::One(Argument::Real(0x3ff0000000000000)), Expected::First(Row::One(Literal::Integer(1)))))
    } else if i == 15 {
        Some(Action::Query(0, "SELECT COUNT(*) FROM timeless_aggregate('m','cpu',NULL,0,30,'avg') WHERE series_id=?1", Arguments::One(Argument::Text("1")), Expected::First(Row::One(Literal::Integer(1)))))
    } else if i == 16 {
        Some(Action::Query(0, "SELECT COUNT(*) FROM timeless_aggregate('m','cpu',NULL,0,30,'avg') WHERE series_id=?1", Arguments::One(Argument::Text("+1.0e0")), Expected::First(Row::One(Literal::Integer(1)))))
    } else if i == 17 {
        Some(Action::Query(0, "SELECT COUNT(*) FROM timeless_aggregate('m','cpu',NULL,0,30,'avg') WHERE series_id=?1", Arguments::One(Argument::Real(0x3ff8000000000000)), Expected::First(Row::One(Literal::Integer(0)))))
    } else if i == 18 {
        Some(Action::Query(0, "SELECT COUNT(*) FROM timeless_aggregate('m','cpu',NULL,0,30,'avg') WHERE series_id=?1", Arguments::One(Argument::Text("1x")), Expected::First(Row::One(Literal::Integer(0)))))
    } else if i == 19 {
        Some(Action::Query(0, "SELECT COUNT(*) FROM timeless_aggregate('m','cpu',NULL,0,30,'avg') WHERE series_id=?1", Arguments::One(Argument::Null), Expected::First(Row::One(Literal::Integer(0)))))
    } else if i == 20 {
        Some(Action::Query(0, "SELECT COUNT(*) FROM timeless_aggregate('m','cpu',NULL,0,30,'avg') WHERE series_id=?1", Arguments::One(Argument::Fill(49, 1)), Expected::First(Row::One(Literal::Integer(0)))))
    } else if i == 21 {
        Some(Action::Query(0, "SELECT COUNT(*) FROM timeless_aggregate('m','cpu','{\"host\":\"b\"}',0,30,'avg') WHERE series_id=1", Arguments::Zero, Expected::First(Row::One(Literal::Integer(0)))))
    } else if i == 22 {
        Some(Action::Query(0, "SELECT COUNT(*) FROM timeless_aggregate('m','mem',NULL,0,30,'avg') WHERE series_id=1", Arguments::Zero, Expected::First(Row::One(Literal::Integer(0)))))
    } else if i == 23 {
        Some(Action::Query(0, "SELECT COUNT(*) FROM timeless_aggregate('m','cpu',NULL,0,30,'avg') WHERE series_id=999999", Arguments::Zero, Expected::First(Row::One(Literal::Integer(0)))))
    } else {
        None
    }
}

/// A part of the script.
pub open spec fn series_id_part_1_at(i: int) -> Option<Action> {
    if i == 0 {
        Some(Action::Query(0, "SELECT s.series_id,q.value FROM timeless_series('m','cpu',NULL) s JOIN timeless_aggregate('m','cpu',NULL,0,30,'avg') q ON q.series_id=s.series_id ORDER BY s.series_id", Arguments::Zero, Expected::Rows(Rows::Two(Row::Two(Literal::Integer(1), Literal::Real(0x4008000000000000)), Row::Two(Literal::Integer(2), Literal::Real(0x4024000000000000))))))
    } else if i == 1 {
        Some(Action::Query(0, "SELECT a.series_id FROM m a JOIN m b ON b.series_id=a.series_id WHERE a.ts=0 AND b.ts=10 ORDER BY a.series_id", Arguments::Zero, Expected::Rows(Rows::Two(Row::One(Literal::Integer(1)), Row::One(Literal::Integer(2))))))
    } else if i == 2 {
        Some(Action::Query(0, "EXPLAIN QUERY PLAN SELECT s.series_id,q.value FROM timeless_series('m','cpu',NULL) s JOIN timeless_aggregate('m','cpu',NULL,0,30,'avg') q ON q.series_id=s.series_id", Arguments::Zero, Expected::Mentions(3, "107374")))
    } else if i == 3 {
        Some(Action::Execute(0, "UPDATE m_chunks SET ts_data=x'00' WHERE series_id=2 AND resolution=0", Arguments::Zero, Expected::Done))
    } else if i == 4 {
        Some(Action::Query(0, "SELECT COUNT(*) FROM timeless_raw('m','cpu',NULL,0,30) WHERE series_id=1", Arguments::Zero, Expected::First(Row::One(Literal::Integer(3)))))
    } else if i == 5 {
        Some(Action::Query(0, "SELECT COUNT(*) FROM timeless_raw('m','cpu',NULL,0,30)", Arguments::Zero, Expected::RefusedWithAny("decode", "payload", "insufficientdata", "out of bounds")))
    } else if i == 6 {
        Some(Action::Pass("PASS: durable series-id parity, affinity, intersection, joins, and pruning"))
    } else {
        None
    }
}

fn series_id_part_1(i: usize) -> (action: Option<Action>)
    ensures
        action == series_id_part_1_at(i as int),
{
    if i == 0 {
        Some(Action::Query(0, "SELECT s.series_id,q.value FROM timeless_series('m','cpu',NULL) s JOIN timeless_aggregate('m','cpu',NULL,0,30,'avg') q ON q.series_id=s.series_id ORDER BY s.series_id", Arguments::Zero, Expected::Rows(Rows::Two(Row::Two(Literal::Integer(1), Literal::Real(0x4008000000000000)), Row::Two(Literal::Integer(2), Literal::Real(0x4024000000000000))))))
    } else if i == 1 {
        Some(Action::Query(0, "SELECT a.series_id FROM m a JOIN m b ON b.series_id=a.series_id WHERE a.ts=0 AND b.ts=10 ORDER BY a.series_id", Arguments::Zero, Expected::Rows(Rows::Two(Row::One(Literal::Integer(1)), Row::One(Literal::Integer(2))))))
    } else if i == 2 {
        Some(Action::Query(0, "EXPLAIN QUERY PLAN SELECT s.series_id,q.value FROM timeless_series('m','cpu',NULL) s JOIN timeless_aggregate('m','cpu',NULL,0,30,'avg') q ON q.series_id=s.series_id", Arguments::Zero, Expected::Mentions(3, "107374")))
    } else if i == 3 {
        Some(Action::Execute(0, "UPDATE m_chunks SET ts_data=x'00' WHERE series_id=2 AND resolution=0", Arguments::Zero, Expected::Done))
    } else if i == 4 {
        Some(Action::Query(0, "SELECT COUNT(*) FROM timeless_raw('m','cpu',NULL,0,30) WHERE series_id=1", Arguments::Zero, Expected::First(Row::One(Literal::Integer(3)))))
    } else if i == 5 {
        Some(Action::Query(0, "SELECT COUNT(*) FROM timeless_raw('m','cpu',NULL,0,30)", Arguments::Zero, Expected::RefusedWithAny("decode", "payload", "insufficientdata", "out of bounds")))
    } else if i == 6 {
        Some(Action::Pass("PASS: durable series-id parity, affinity, intersection, joins, and pruning"))
    } else {
        None
    }
}

/// The number of a series selects it in every read: what is done at a place, from 0 on.
pub open spec fn series_id_at(i: int) -> Option<Action> {
    if i < 24 {
        series_id_part_0_at(i)
    } else {
        series_id_part_1_at(i - 24)
    }
}

/// The number of a series selects it in every read: what is done at a place, from 0 on.
pub fn series_id(i: usize) -> (action: Option<Action>)
    ensures
        action == series_id_at(i as int),
{
    if i < 24 {
        series_id_part_0(i)
    } else {
        series_id_part_1(i - 24)
    }
}

/// Frames agree with rows and show committed writes only: what is done at a place, from 0 on.
pub open spec fn frames_at(i: int) -> Option<Action> {
    if i == 0 {
        Some(Action::Open(0, Database::Auxiliary(0)))
    } else if i == 1 {
        Some(Action::Query(0, "SELECT name FROM pragma_module_list WHERE name IN ('timeless_aggregate_frame','timeless_latest_frame') ORDER BY name", Arguments::Zero, Expected::Rows(Rows::Two(Row::One(Literal::Text("timeless_aggregate_frame")), Row::One(Literal::Text("timeless_latest_frame"))))))
    } else if i == 2 {
        Some(Action::AggregateFrame(0, "nan_metric", "avg", 0))
    } else if i == 3 {
        Some(Action::AggregateFrame(0, "nan_metric", "sum", 1))
    } else if i == 4 {
        Some(Action::AggregateFrame(0, "nan_metric", "min", 2))
    } else if i == 5 {
        Some(Action::AggregateFrame(0, "nan_metric", "max", 3))
    } else if i == 6 {
        Some(Action::AggregateFrame(0, "cpu", "count", 4))
    } else if i == 7 {
        Some(Action::Query(0, "SELECT COUNT(*) FROM timeless_aggregate_frame('ag','cpu','{\"host\":\"missing\"}',0,20,'avg')", Arguments::Zero, Expected::First(Row::One(Literal::Integer(0)))))
    } else if i == 8 {
        Some(Action::Close(0))
    } else if i == 9 {
        Some(Action::Open(0, Database::Auxiliary(1)))
    } else if i == 10 {
        Some(Action::LatestFrame(0, "SELECT frame FROM timeless_latest_frame('latest','cpu',NULL,0,100)", "SELECT series_id,ts,value FROM timeless_latest('latest','cpu',NULL,0,100) ORDER BY series_id"))
    } else if i == 11 {
        Some(Action::Query(0, "SELECT COUNT(*) FROM timeless_latest_frame('latest','cpu','{\"host\":\"missing\"}',0,100)", Arguments::Zero, Expected::First(Row::One(Literal::Integer(0)))))
    } else if i == 12 {
        Some(Action::Close(0))
    } else if i == 13 {
        Some(Action::Open(0, Database::Given))
    } else if i == 14 {
        Some(Action::Open(1, Database::Given))
    } else if i == 15 {
        Some(Action::Execute(0, "CREATE VIRTUAL TABLE m USING timeless_metrics", Arguments::Zero, Expected::Done))
    } else if i == 16 {
        Some(Action::Execute(0, "INSERT INTO m(name,labels,ts,value) VALUES('cpu','{\"host\":\"a\"}',10,1.0)", Arguments::Zero, Expected::Done))
    } else if i == 17 {
        Some(Action::SingleFrame(1, "SELECT frame FROM timeless_latest_frame('m','cpu',NULL,0,100)", 1, 10, 0x3ff0000000000000))
    } else if i == 18 {
        Some(Action::Execute(0, "BEGIN", Arguments::Zero, Expected::Done))
    } else if i == 19 {
        Some(Action::Execute(0, "INSERT INTO m(name,labels,ts,value) VALUES('cpu','{\"host\":\"a\"}',20,2.0)", Arguments::Zero, Expected::Done))
    } else if i == 20 {
        Some(Action::Query(1, "SELECT frame FROM timeless_latest_frame('m','cpu',NULL,0,100)", Arguments::Zero, Expected::RefusedWith("active write transaction")))
    } else if i == 21 {
        Some(Action::Execute(0, "COMMIT", Arguments::Zero, Expected::Done))
    } else if i == 22 {
        Some(Action::SingleFrame(1, "SELECT frame FROM timeless_latest_frame('m','cpu',NULL,0,100)", 1, 20, 0x4000000000000000))
    } else if i == 23 {
        Some(Action::Pass("PASS: Rust TAF1/TLF1 decoders match rows and preserve publication"))
    } else {
        None
    }
}

/// Frames agree with rows and show committed writes only: what is done at a place, from 0 on.
pub fn frames(i: usize) -> (action: Option<Action>)
    ensures
        action == frames_at(i as int),
{
    if i == 0 {
        Some(Action::Open(0, Database::Auxiliary(0)))
    } else if i == 1 {
        Some(Action::Query(0, "SELECT name FROM pragma_module_list WHERE name IN ('timeless_aggregate_frame','timeless_latest_frame') ORDER BY name", Arguments::Zero, Expected::Rows(Rows::Two(Row::One(Literal::Text("timeless_aggregate_frame")), Row::One(Literal::Text("timeless_latest_frame"))))))
    } else if i == 2 {
        Some(Action::AggregateFrame(0, "nan_metric", "avg", 0))
    } else if i == 3 {
        Some(Action::AggregateFrame(0, "nan_metric", "sum", 1))
    } else if i == 4 {
        Some(Action::AggregateFrame(0, "nan_metric", "min", 2))
    } else if i == 5 {
        Some(Action::AggregateFrame(0, "nan_metric", "max", 3))
    } else if i == 6 {
        Some(Action::AggregateFrame(0, "cpu", "count", 4))
    } else if i == 7 {
        Some(Action::Query(0, "SELECT COUNT(*) FROM timeless_aggregate_frame('ag','cpu','{\"host\":\"missing\"}',0,20,'avg')", Arguments::Zero, Expected::First(Row::One(Literal::Integer(0)))))
    } else if i == 8 {
        Some(Action::Close(0))
    } else if i == 9 {
        Some(Action::Open(0, Database::Auxiliary(1)))
    } else if i == 10 {
        Some(Action::LatestFrame(0, "SELECT frame FROM timeless_latest_frame('latest','cpu',NULL,0,100)", "SELECT series_id,ts,value FROM timeless_latest('latest','cpu',NULL,0,100) ORDER BY series_id"))
    } else if i == 11 {
        Some(Action::Query(0, "SELECT COUNT(*) FROM timeless_latest_frame('latest','cpu','{\"host\":\"missing\"}',0,100)", Arguments::Zero, Expected::First(Row::One(Literal::Integer(0)))))
    } else if i == 12 {
        Some(Action::Close(0))
    } else if i == 13 {
        Some(Action::Open(0, Database::Given))
    } else if i == 14 {
        Some(Action::Open(1, Database::Given))
    } else if i == 15 {
        Some(Action::Execute(0, "CREATE VIRTUAL TABLE m USING timeless_metrics", Arguments::Zero, Expected::Done))
    } else if i == 16 {
        Some(Action::Execute(0, "INSERT INTO m(name,labels,ts,value) VALUES('cpu','{\"host\":\"a\"}',10,1.0)", Arguments::Zero, Expected::Done))
    } else if i == 17 {
        Some(Action::SingleFrame(1, "SELECT frame FROM timeless_latest_frame('m','cpu',NULL,0,100)", 1, 10, 0x3ff0000000000000))
    } else if i == 18 {
        Some(Action::Execute(0, "BEGIN", Arguments::Zero, Expected::Done))
    } else if i == 19 {
        Some(Action::Execute(0, "INSERT INTO m(name,labels,ts,value) VALUES('cpu','{\"host\":\"a\"}',20,2.0)", Arguments::Zero, Expected::Done))
    } else if i == 20 {
        Some(Action::Query(1, "SELECT frame FROM timeless_latest_frame('m','cpu',NULL,0,100)", Arguments::Zero, Expected::RefusedWith("active write transaction")))
    } else if i == 21 {
        Some(Action::Execute(0, "COMMIT", Arguments::Zero, Expected::Done))
    } else if i == 22 {
        Some(Action::SingleFrame(1, "SELECT frame FROM timeless_latest_frame('m','cpu',NULL,0,100)", 1, 20, 0x4000000000000000))
    } else if i == 23 {
        Some(Action::Pass("PASS: Rust TAF1/TLF1 decoders match rows and preserve publication"))
    } else {
        None
    }
}

/// A part of the script.
pub open spec fn logs_optimize_part_0_at(i: int) -> Option<Action> {
    if i == 0 {
        Some(Action::Open(0, Database::Given))
    } else if i == 1 {
        Some(Action::Execute(0, "CREATE VIRTUAL TABLE logs USING timeless_logs(index_keys='service')", Arguments::Zero, Expected::Done))
    } else {
        None
    }
}

fn logs_optimize_part_0(i: usize) -> (action: Option<Action>)
    ensures
        action == logs_optimize_part_0_at(i as int),
{
    if i == 0 {
        Some(Action::Open(0, Database::Given))
    } else if i == 1 {
        Some(Action::Execute(0, "CREATE VIRTUAL TABLE logs USING timeless_logs(index_keys='service')", Arguments::Zero, Expected::Done))
    } else {
        None
    }
}

/// A step of a cycle: a batch goes in, is written and is optimized.
pub open spec fn cycle_step_at(cycle: int, step: int) -> Option<Action> {
    if step == 0 {
        Some(Action::Execute(0, "INSERT INTO logs(logs) VALUES(?1)", Arguments::One(Argument::Made(Blob::Cycle(cycle as u8))), Expected::Done))
    } else if step == 1 {
        Some(Action::Execute(0, "INSERT INTO logs(logs) VALUES('flush')", Arguments::Zero, Expected::Done))
    } else {
        Some(Action::Execute(0, "INSERT INTO logs(logs) VALUES('optimize')", Arguments::Zero, Expected::Done))
    }
}

fn cycle_step(cycle: u8, step: usize) -> (action: Option<Action>)
    ensures
        action == cycle_step_at(cycle as int, step as int),
{
    if step == 0 {
        Some(Action::Execute(0, "INSERT INTO logs(logs) VALUES(?1)", Arguments::One(Argument::Made(Blob::Cycle(cycle))), Expected::Done))
    } else if step == 1 {
        Some(Action::Execute(0, "INSERT INTO logs(logs) VALUES('flush')", Arguments::Zero, Expected::Done))
    } else {
        Some(Action::Execute(0, "INSERT INTO logs(logs) VALUES('optimize')", Arguments::Zero, Expected::Done))
    }
}

/// A part of the script.
pub open spec fn logs_optimize_part_2_at(i: int) -> Option<Action> {
    if i == 0 {
        Some(Action::Query(0, "SELECT key,CAST(value AS INTEGER) FROM timeless_stats(?1)", Arguments::One(Argument::Text("logs")), Expected::Keep(0)))
    } else if i == 1 {
        Some(Action::Query(0, "SELECT n FROM timeless_log_count('logs')", Arguments::Zero, Expected::First(Row::One(Literal::Integer(10240)))))
    } else if i == 2 {
        Some(Action::Stat(0, "optimize_raw_entries", Bound::Is(10240)))
    } else if i == 3 {
        Some(Action::Stat(0, "optimize_merge_entries", Bound::Is(12288)))
    } else if i == 4 {
        Some(Action::Stat(0, "optimize_blocks_removed", Bound::Is(73)))
    } else if i == 5 {
        Some(Action::Stat(0, "optimize_blocks_written", Bound::Is(42)))
    } else if i == 6 {
        Some(Action::Stat(0, "blocks", Bound::Is(9)))
    } else if i == 7 {
        Some(Action::Stat(0, "optimize_pending_raw_entries", Bound::Is(0)))
    } else if i == 8 {
        Some(Action::Stat(0, "optimize_merge_ready_entries", Bound::Is(0)))
    } else if i == 9 {
        Some(Action::Stat(0, "optimize_merge_deferred_blocks", Bound::Is(8)))
    } else if i == 10 {
        Some(Action::Stat(0, "optimize_merge_deferred_entries", Bound::Is(2048)))
    } else if i == 11 {
        Some(Action::Execute(0, "CREATE VIRTUAL TABLE budgeted USING timeless_logs", Arguments::Zero, Expected::Done))
    } else if i == 12 {
        Some(Action::Execute(0, "INSERT INTO budgeted(budgeted) VALUES(?1)", Arguments::One(Argument::Made(Blob::Distant(0))), Expected::Done))
    } else if i == 13 {
        Some(Action::Execute(0, "INSERT INTO budgeted(budgeted) VALUES('flush')", Arguments::Zero, Expected::Done))
    } else if i == 14 {
        Some(Action::Execute(0, "INSERT INTO budgeted(budgeted) VALUES(?1)", Arguments::One(Argument::Made(Blob::Distant(1))), Expected::Done))
    } else if i == 15 {
        Some(Action::Execute(0, "INSERT INTO budgeted(budgeted) VALUES('flush')", Arguments::Zero, Expected::Done))
    } else if i == 16 {
        Some(Action::Execute(0, "INSERT INTO budgeted(budgeted) VALUES(?1)", Arguments::One(Argument::Made(Blob::Distant(2))), Expected::Done))
    } else if i == 17 {
        Some(Action::Execute(0, "INSERT INTO budgeted(budgeted) VALUES('flush')", Arguments::Zero, Expected::Done))
    } else if i == 18 {
        Some(Action::Execute(0, "INSERT INTO budgeted(budgeted) VALUES(?1)", Arguments::One(Argument::Made(Blob::Distant(3))), Expected::Done))
    } else if i == 19 {
        Some(Action::Execute(0, "INSERT INTO budgeted(budgeted) VALUES('flush')", Arguments::Zero, Expected::Done))
    } else if i == 20 {
        Some(Action::Execute(0, "INSERT INTO budgeted(budgeted) VALUES('optimize:512')", Arguments::Zero, Expected::Done))
    } else if i == 21 {
        Some(Action::Query(0, "SELECT key,CAST(value AS INTEGER) FROM timeless_stats(?1)", Arguments::One(Argument::Text("budgeted")), Expected::Keep(1)))
    } else if i == 22 {
        Some(Action::Stat(1, "raw_blocks", Bound::Is(2)))
    } else if i == 23 {
        Some(Action::Stat(1, "optimize_raw_entries", Bound::Is(512)))
    } else {
        None
    }
}

fn logs_optimize_part_2(i: usize) -> (action: Option<Action>)
    ensures
        action == logs_optimize_part_2_at(i as int),
{
    if i == 0 {
        Some(Action::Query(0, "SELECT key,CAST(value AS INTEGER) FROM timeless_stats(?1)", Arguments::One(Argument::Text("logs")), Expected::Keep(0)))
    } else if i == 1 {
        Some(Action::Query(0, "SELECT n FROM timeless_log_count('logs')", Arguments::Zero, Expected::First(Row::One(Literal::Integer(10240)))))
    } else if i == 2 {
        Some(Action::Stat(0, "optimize_raw_entries", Bound::Is(10240)))
    } else if i == 3 {
        Some(Action::Stat(0, "optimize_merge_entries", Bound::Is(12288)))
    } else if i == 4 {
        Some(Action::Stat(0, "optimize_blocks_removed", Bound::Is(73)))
    } else if i == 5 {
        Some(Action::Stat(0, "optimize_blocks_written", Bound::Is(42)))
    } else if i == 6 {
        Some(Action::Stat(0, "blocks", Bound::Is(9)))
    } else if i == 7 {
        Some(Action::Stat(0, "optimize_pending_raw_entries", Bound::Is(0)))
    } else if i == 8 {
        Some(Action::Stat(0, "optimize_merge_ready_entries", Bound::Is(0)))
    } else if i == 9 {
        Some(Action::Stat(0, "optimize_merge_deferred_blocks", Bound::Is(8)))
    } else if i == 10 {
        Some(Action::Stat(0, "optimize_merge_deferred_entries", Bound::Is(2048)))
    } else if i == 11 {
        Some(Action::Execute(0, "CREATE VIRTUAL TABLE budgeted USING timeless_logs", Arguments::Zero, Expected::Done))
    } else if i == 12 {
        Some(Action::Execute(0, "INSERT INTO budgeted(budgeted) VALUES(?1)", Arguments::One(Argument::Made(Blob::Distant(0))), Expected::Done))
    } else if i == 13 {
        Some(Action::Execute(0, "INSERT INTO budgeted(budgeted) VALUES('flush')", Arguments::Zero, Expected::Done))
    } else if i == 14 {
        Some(Action::Execute(0, "INSERT INTO budgeted(budgeted) VALUES(?1)", Arguments::One(Argument::Made(Blob::Distant(1))), Expected::Done))
    } else if i == 15 {
        Some(Action::Execute(0, "INSERT INTO budgeted(budgeted) VALUES('flush')", Arguments::Zero, Expected::Done))
    } else if i == 16 {
        Some(Action::Execute(0, "INSERT INTO budgeted(budgeted) VALUES(?1)", Arguments::One(Argument::Made(Blob::Distant(2))), Expected::Done))
    } else if i == 17 {
        Some(Action::Execute(0, "INSERT INTO budgeted(budgeted) VALUES('flush')", Arguments::Zero, Expected::Done))
    } else if i == 18 {
        Some(Action::Execute(0, "INSERT INTO budgeted(budgeted) VALUES(?1)", Arguments::One(Argument::Made(Blob::Distant(3))), Expected::Done))
    } else if i == 19 {
        Some(Action::Execute(0, "INSERT INTO budgeted(budgeted) VALUES('flush')", Arguments::Zero, Expected::Done))
    } else if i == 20 {
        Some(Action::Execute(0, "INSERT INTO budgeted(budgeted) VALUES('optimize:512')", Arguments::Zero, Expected::Done))
    } else if i == 21 {
        Some(Action::Query(0, "SELECT key,CAST(value AS INTEGER) FROM timeless_stats(?1)", Arguments::One(Argument::Text("budgeted")), Expected::Keep(1)))
    } else if i == 22 {
        Some(Action::Stat(1, "raw_blocks", Bound::Is(2)))
    } else if i == 23 {
        Some(Action::Stat(1, "optimize_raw_entries", Bound::Is(512)))
    } else {
        None
    }
}

/// A part of the script.
pub open spec fn logs_optimize_part_3_at(i: int) -> Option<Action> {
    if i == 0 {
        Some(Action::Stat(1, "optimize_budgeted_count", Bound::Is(1)))
    } else if i == 1 {
        Some(Action::Stat(1, "optimize_budget_entries", Bound::Is(512)))
    } else if i == 2 {
        Some(Action::Stat(1, "optimize_budget_limited_count", Bound::Is(1)))
    } else if i == 3 {
        Some(Action::Execute(0, "INSERT INTO budgeted(budgeted) VALUES('optimize:512')", Arguments::Zero, Expected::Done))
    } else if i == 4 {
        Some(Action::Query(0, "SELECT key,CAST(value AS INTEGER) FROM timeless_stats(?1)", Arguments::One(Argument::Text("budgeted")), Expected::Keep(2)))
    } else if i == 5 {
        Some(Action::Stat(2, "raw_blocks", Bound::Is(0)))
    } else if i == 6 {
        Some(Action::Stat(2, "optimize_raw_entries", Bound::Is(1024)))
    } else if i == 7 {
        Some(Action::Query(0, "SELECT COUNT(*) FROM budgeted", Arguments::Zero, Expected::First(Row::One(Literal::Integer(1024)))))
    } else if i == 8 {
        Some(Action::Execute(0, "INSERT INTO budgeted(budgeted) VALUES('optimize:0')", Arguments::Zero, Expected::RefusedWith("budget must be positive")))
    } else if i == 9 {
        Some(Action::Pass("PASS: size-tiered optimize bounds rewrites and budgets work"))
    } else {
        None
    }
}

fn logs_optimize_part_3(i: usize) -> (action: Option<Action>)
    ensures
        action == logs_optimize_part_3_at(i as int),
{
    if i == 0 {
        Some(Action::Stat(1, "optimize_budgeted_count", Bound::Is(1)))
    } else if i == 1 {
        Some(Action::Stat(1, "optimize_budget_entries", Bound::Is(512)))
    } else if i == 2 {
        Some(Action::Stat(1, "optimize_budget_limited_count", Bound::Is(1)))
    } else if i == 3 {
        Some(Action::Execute(0, "INSERT INTO budgeted(budgeted) VALUES('optimize:512')", Arguments::Zero, Expected::Done))
    } else if i == 4 {
        Some(Action::Query(0, "SELECT key,CAST(value AS INTEGER) FROM timeless_stats(?1)", Arguments::One(Argument::Text("budgeted")), Expected::Keep(2)))
    } else if i == 5 {
        Some(Action::Stat(2, "raw_blocks", Bound::Is(0)))
    } else if i == 6 {
        Some(Action::Stat(2, "optimize_raw_entries", Bound::Is(1024)))
    } else if i == 7 {
        Some(Action::Query(0, "SELECT COUNT(*) FROM budgeted", Arguments::Zero, Expected::First(Row::One(Literal::Integer(1024)))))
    } else if i == 8 {
        Some(Action::Execute(0, "INSERT INTO budgeted(budgeted) VALUES('optimize:0')", Arguments::Zero, Expected::RefusedWith("budget must be positive")))
    } else if i == 9 {
        Some(Action::Pass("PASS: size-tiered optimize bounds rewrites and budgets work"))
    } else {
        None
    }
}

/// Optimizing logs rewrites a bounded amount and keeps to a budget: what is done at a place, from 0 on.
pub open spec fn logs_optimize_at(i: int) -> Option<Action> {
    if i < 2 {
        logs_optimize_part_0_at(i)
    } else if i < 122 {
        cycle_step_at((i - 2) / 3, (i - 2) % 3)
    } else if i < 146 {
        logs_optimize_part_2_at(i - 122)
    } else {
        logs_optimize_part_3_at(i - 146)
    }
}

/// Optimizing logs rewrites a bounded amount and keeps to a budget: what is done at a place, from 0 on.
pub fn logs_optimize(i: usize) -> (action: Option<Action>)
    ensures
        action == logs_optimize_at(i as int),
{
    if i < 2 {
        logs_optimize_part_0(i)
    } else if i < 122 {
        cycle_step(((i - 2) / 3) as u8, (i - 2) % 3)
    } else if i < 146 {
        logs_optimize_part_2(i - 122)
    } else {
        logs_optimize_part_3(i - 146)
    }
}

/// A part of the script.
pub open spec fn trace_reads_part_0_at(i: int) -> Option<Action> {
    if i == 0 {
        Some(Action::Open(0, Database::Given))
    } else if i == 1 {
        Some(Action::Execute(0, "CREATE VIRTUAL TABLE traces USING timeless_traces", Arguments::Zero, Expected::Done))
    } else if i == 2 {
        Some(Action::Execute(0, "INSERT INTO traces(trace_id,span_id,name,service,kind,status,start_ts,duration_ns,attributes,events,resource,instrumentation_scope) VALUES(?1,?2,?3,?4,'server','ok',?5,?6,'{}','[]','{}','{}')", Arguments::Six(Argument::TwoWords(0), Argument::Word(0), Argument::Text("tick"), Argument::Text("worker"), Argument::Integer(0), Argument::Integer(1)), Expected::Done))
    } else if i == 3 {
        Some(Action::Execute(0, "INSERT INTO traces(trace_id,span_id,name,service,kind,status,start_ts,duration_ns,attributes,events,resource,instrumentation_scope) VALUES(?1,?2,?3,?4,'server','ok',?5,?6,'{}','[]','{}','{}')", Arguments::Six(Argument::TwoWords(1), Argument::Word(1), Argument::Text("GET /items"), Argument::Text("api"), Argument::Integer(1), Argument::Integer(2)), Expected::Done))
    } else if i == 4 {
        Some(Action::Execute(0, "INSERT INTO traces(trace_id,span_id,name,service,kind,status,start_ts,duration_ns,attributes,events,resource,instrumentation_scope) VALUES(?1,?2,?3,?4,'server','ok',?5,?6,'{}','[]','{}','{}')", Arguments::Six(Argument::TwoWords(2), Argument::Word(2), Argument::Text("GET /items"), Argument::Text("api"), Argument::Integer(2), Argument::Integer(3)), Expected::Done))
    } else if i == 5 {
        Some(Action::Execute(0, "INSERT INTO traces(trace_id,span_id,name,service,kind,status,start_ts,duration_ns,attributes,events,resource,instrumentation_scope) VALUES(?1,?2,?3,?4,'server','ok',?5,?6,'{}','[]','{}','{}')", Arguments::Six(Argument::TwoWords(3), Argument::Word(3), Argument::Text("GET /items"), Argument::Text("api"), Argument::Integer(3), Argument::Integer(4)), Expected::Done))
    } else if i == 6 {
        Some(Action::Execute(0, "INSERT INTO traces(traces) VALUES('flush')", Arguments::Zero, Expected::Done))
    } else if i == 7 {
        Some(Action::Execute(0, "INSERT INTO traces(trace_id,span_id,name,service,kind,status,start_ts,duration_ns,attributes,events,resource,instrumentation_scope) VALUES(?1,?2,?3,?4,'server','ok',?5,?6,'{}','[]','{}','{}')", Arguments::Six(Argument::TwoWords(4), Argument::Word(4), Argument::Text("GET /items"), Argument::Text("api"), Argument::Integer(4), Argument::Integer(5)), Expected::Done))
    } else if i == 8 {
        Some(Action::Execute(0, "INSERT INTO traces(trace_id,span_id,name,service,kind,status,start_ts,duration_ns,attributes,events,resource,instrumentation_scope) VALUES(?1,?2,?3,?4,'server','ok',?5,?6,'{}','[]','{}','{}')", Arguments::Six(Argument::TwoWords(5), Argument::Word(5), Argument::Text("GET /items"), Argument::Text("api"), Argument::Integer(5), Argument::Integer(5000)), Expected::Done))
    } else if i == 9 {
        Some(Action::Execute(0, "INSERT INTO traces(trace_id,span_id,name,service,kind,status,start_ts,duration_ns,attributes,events,resource,instrumentation_scope) VALUES(?1,?2,?3,?4,'server','ok',?5,?6,'{}','[]','{}','{}')", Arguments::Six(Argument::TwoWords(6), Argument::Word(6), Argument::Text("GET /items"), Argument::Text("api"), Argument::Integer(6), Argument::Integer(7)), Expected::Done))
    } else if i == 10 {
        Some(Action::Execute(0, "INSERT INTO traces(trace_id,span_id,name,service,kind,status,start_ts,duration_ns,attributes,events,resource,instrumentation_scope) VALUES(?1,?2,?3,?4,'server','ok',?5,?6,'{}','[]','{}','{}')", Arguments::Six(Argument::TwoWords(7), Argument::Word(7), Argument::Text("GET /items"), Argument::Text("api"), Argument::Integer(7), Argument::Integer(8)), Expected::Done))
    } else if i == 11 {
        Some(Action::Execute(0, "INSERT INTO traces(traces) VALUES('flush')", Arguments::Zero, Expected::Done))
    } else if i == 12 {
        Some(Action::Execute(0, "INSERT INTO traces(trace_id,span_id,name,service,kind,status,start_ts,duration_ns,attributes,events,resource,instrumentation_scope) VALUES(?1,?2,?3,?4,'server','ok',?5,?6,'{}','[]','{}','{}')", Arguments::Six(Argument::TwoWords(8), Argument::Word(8), Argument::Text("GET /items"), Argument::Text("api"), Argument::Integer(8), Argument::Integer(9)), Expected::Done))
    } else if i == 13 {
        Some(Action::Execute(0, "INSERT INTO traces(trace_id,span_id,name,service,kind,status,start_ts,duration_ns,attributes,events,resource,instrumentation_scope) VALUES(?1,?2,?3,?4,'server','ok',?5,?6,'{}','[]','{}','{}')", Arguments::Six(Argument::TwoWords(9), Argument::Word(9), Argument::Text("GET /items"), Argument::Text("api"), Argument::Integer(9), Argument::Integer(10)), Expected::Done))
    } else if i == 14 {
        Some(Action::Execute(0, "INSERT INTO traces(trace_id,span_id,name,service,kind,status,start_ts,duration_ns,attributes,events,resource,instrumentation_scope) VALUES(?1,?2,?3,?4,'server','ok',?5,?6,'{}','[]','{}','{}')", Arguments::Six(Argument::TwoWords(10), Argument::Word(10), Argument::Text("GET /items"), Argument::Text("api"), Argument::Integer(10), Argument::Integer(11)), Expected::Done))
    } else if i == 15 {
        Some(Action::Execute(0, "INSERT INTO traces(trace_id,span_id,name,service,kind,status,start_ts,duration_ns,attributes,events,resource,instrumentation_scope) VALUES(?1,?2,?3,?4,'server','ok',?5,?6,'{}','[]','{}','{}')", Arguments::Six(Argument::TwoWords(11), Argument::Word(11), Argument::Text("GET /items"), Argument::Text("api"), Argument::Integer(11), Argument::Integer(12)), Expected::Done))
    } else if i == 16 {
        Some(Action::Execute(0, "INSERT INTO traces(traces) VALUES('flush')", Arguments::Zero, Expected::Done))
    } else if i == 17 {
        Some(Action::Query(0, "SELECT value FROM timeless_trace_services('traces') ORDER BY value", Arguments::Zero, Expected::Rows(Rows::Two(Row::One(Literal::Text("api")), Row::One(Literal::Text("worker"))))))
    } else if i == 18 {
        Some(Action::Query(0, "SELECT value FROM timeless_trace_operations('traces','api') ORDER BY value", Arguments::Zero, Expected::Rows(Rows::One(Row::One(Literal::Text("GET /items"))))))
    } else if i == 19 {
        Some(Action::Query(0, "SELECT start_ts FROM traces WHERE service='api' ORDER BY start_ts DESC,span_id DESC LIMIT 2 OFFSET 1", Arguments::Zero, Expected::Rows(Rows::Two(Row::One(Literal::Integer(10)), Row::One(Literal::Integer(9))))))
    } else if i == 20 {
        Some(Action::Query(0, "SELECT start_ts FROM traces WHERE service='api' AND duration_ns>=1000 ORDER BY start_ts DESC,span_id DESC LIMIT 2", Arguments::Zero, Expected::Rows(Rows::One(Row::One(Literal::Integer(5))))))
    } else if i == 21 {
        Some(Action::Query(0, "SELECT key,CAST(value AS INTEGER) FROM timeless_stats(?1)", Arguments::One(Argument::Text("traces")), Expected::Keep(0)))
    } else if i == 22 {
        Some(Action::Stat(0, "discovery_count", Bound::Is(2)))
    } else if i == 23 {
        Some(Action::Stat(0, "query_bounded_count", Bound::Is(2)))
    } else {
        None
    }
}

fn trace_reads_part_0(i: usize) -> (action: Option<Action>)
    ensures
        action == trace_reads_part_0_at(i as int),
{
    if i == 0 {
        Some(Action::Open(0, Database::Given))
    } else if i == 1 {
        Some(Action::Execute(0, "CREATE VIRTUAL TABLE traces USING timeless_traces", Arguments::Zero, Expected::Done))
    } else if i == 2 {
        Some(Action::Execute(0, "INSERT INTO traces(trace_id,span_id,name,service,kind,status,start_ts,duration_ns,attributes,events,resource,instrumentation_scope) VALUES(?1,?2,?3,?4,'server','ok',?5,?6,'{}','[]','{}','{}')", Arguments::Six(Argument::TwoWords(0), Argument::Word(0), Argument::Text("tick"), Argument::Text("worker"), Argument::Integer(0), Argument::Integer(1)), Expected::Done))
    } else if i == 3 {
        Some(Action::Execute(0, "INSERT INTO traces(trace_id,span_id,name,service,kind,status,start_ts,duration_ns,attributes,events,resource,instrumentation_scope) VALUES(?1,?2,?3,?4,'server','ok',?5,?6,'{}','[]','{}','{}')", Arguments::Six(Argument::TwoWords(1), Argument::Word(1), Argument::Text("GET /items"), Argument::Text("api"), Argument::Integer(1), Argument::Integer(2)), Expected::Done))
    } else if i == 4 {
        Some(Action::Execute(0, "INSERT INTO traces(trace_id,span_id,name,service,kind,status,start_ts,duration_ns,attributes,events,resource,instrumentation_scope) VALUES(?1,?2,?3,?4,'server','ok',?5,?6,'{}','[]','{}','{}')", Arguments::Six(Argument::TwoWords(2), Argument::Word(2), Argument::Text("GET /items"), Argument::Text("api"), Argument::Integer(2), Argument::Integer(3)), Expected::Done))
    } else if i == 5 {
        Some(Action::Execute(0, "INSERT INTO traces(trace_id,span_id,name,service,kind,status,start_ts,duration_ns,attributes,events,resource,instrumentation_scope) VALUES(?1,?2,?3,?4,'server','ok',?5,?6,'{}','[]','{}','{}')", Arguments::Six(Argument::TwoWords(3), Argument::Word(3), Argument::Text("GET /items"), Argument::Text("api"), Argument::Integer(3), Argument::Integer(4)), Expected::Done))
    } else if i == 6 {
        Some(Action::Execute(0, "INSERT INTO traces(traces) VALUES('flush')", Arguments::Zero, Expected::Done))
    } else if i == 7 {
        Some(Action::Execute(0, "INSERT INTO traces(trace_id,span_id,name,service,kind,status,start_ts,duration_ns,attributes,events,resource,instrumentation_scope) VALUES(?1,?2,?3,?4,'server','ok',?5,?6,'{}','[]','{}','{}')", Arguments::Six(Argument::TwoWords(4), Argument::Word(4), Argument::Text("GET /items"), Argument::Text("api"), Argument::Integer(4), Argument::Integer(5)), Expected::Done))
    } else if i == 8 {
        Some(Action::Execute(0, "INSERT INTO traces(trace_id,span_id,name,service,kind,status,start_ts,duration_ns,attributes,events,resource,instrumentation_scope) VALUES(?1,?2,?3,?4,'server','ok',?5,?6,'{}','[]','{}','{}')", Arguments::Six(Argument::TwoWords(5), Argument::Word(5), Argument::Text("GET /items"), Argument::Text("api"), Argument::Integer(5), Argument::Integer(5000)), Expected::Done))
    } else if i == 9 {
        Some(Action::Execute(0, "INSERT INTO traces(trace_id,span_id,name,service,kind,status,start_ts,duration_ns,attributes,events,resource,instrumentation_scope) VALUES(?1,?2,?3,?4,'server','ok',?5,?6,'{}','[]','{}','{}')", Arguments::Six(Argument::TwoWords(6), Argument::Word(6), Argument::Text("GET /items"), Argument::Text("api"), Argument::Integer(6), Argument::Integer(7)), Expected::Done))
    } else if i == 10 {
        Some(Action::Execute(0, "INSERT INTO traces(trace_id,span_id,name,service,kind,status,start_ts,duration_ns,attributes,events,resource,instrumentation_scope) VALUES(?1,?2,?3,?4,'server','ok',?5,?6,'{}','[]','{}','{}')", Arguments::Six(Argument::TwoWords(7), Argument::Word(7), Argument::Text("GET /items"), Argument::Text("api"), Argument::Integer(7), Argument::Integer(8)), Expected::Done))
    } else if i == 11 {
        Some(Action::Execute(0, "INSERT INTO traces(traces) VALUES('flush')", Arguments::Zero, Expected::Done))
    } else if i == 12 {
        Some(Action::Execute(0, "INSERT INTO traces(trace_id,span_id,name,service,kind,status,start_ts,duration_ns,attributes,events,resource,instrumentation_scope) VALUES(?1,?2,?3,?4,'server','ok',?5,?6,'{}','[]','{}','{}')", Arguments::Six(Argument::TwoWords(8), Argument::Word(8), Argument::Text("GET /items"), Argument::Text("api"), Argument::Integer(8), Argument::Integer(9)), Expected::Done))
    } else if i == 13 {
        Some(Action::Execute(0, "INSERT INTO traces(trace_id,span_id,name,service,kind,status,start_ts,duration_ns,attributes,events,resource,instrumentation_scope) VALUES(?1,?2,?3,?4,'server','ok',?5,?6,'{}','[]','{}','{}')", Arguments::Six(Argument::TwoWords(9), Argument::Word(9), Argument::Text("GET /items"), Argument::Text("api"), Argument::Integer(9), Argument::Integer(10)), Expected::Done))
    } else if i == 14 {
        Some(Action::Execute(0, "INSERT INTO traces(trace_id,span_id,name,service,kind,status,start_ts,duration_ns,attributes,events,resource,instrumentation_scope) VALUES(?1,?2,?3,?4,'server','ok',?5,?6,'{}','[]','{}','{}')", Arguments::Six(Argument::TwoWords(10), Argument::Word(10), Argument::Text("GET /items"), Argument::Text("api"), Argument::Integer(10), Argument::Integer(11)), Expected::Done))
    } else if i == 15 {
        Some(Action::Execute(0, "INSERT INTO traces(trace_id,span_id,name,service,kind,status,start_ts,duration_ns,attributes,events,resource,instrumentation_scope) VALUES(?1,?2,?3,?4,'server','ok',?5,?6,'{}','[]','{}','{}')", Arguments::Six(Argument::TwoWords(11), Argument::Word(11), Argument::Text("GET /items"), Argument::Text("api"), Argument::Integer(11), Argument::Integer(12)), Expected::Done))
    } else if i == 16 {
        Some(Action::Execute(0, "INSERT INTO traces(traces) VALUES('flush')", Arguments::Zero, Expected::Done))
    } else if i == 17 {
        Some(Action::Query(0, "SELECT value FROM timeless_trace_services('traces') ORDER BY value", Arguments::Zero, Expected::Rows(Rows::Two(Row::One(Literal::Text("api")), Row::One(Literal::Text("worker"))))))
    } else if i == 18 {
        Some(Action::Query(0, "SELECT value FROM timeless_trace_operations('traces','api') ORDER BY value", Arguments::Zero, Expected::Rows(Rows::One(Row::One(Literal::Text("GET /items"))))))
    } else if i == 19 {
        Some(Action::Query(0, "SELECT start_ts FROM traces WHERE service='api' ORDER BY start_ts DESC,span_id DESC LIMIT 2 OFFSET 1", Arguments::Zero, Expected::Rows(Rows::Two(Row::One(Literal::Integer(10)), Row::One(Literal::Integer(9))))))
    } else if i == 20 {
        Some(Action::Query(0, "SELECT start_ts FROM traces WHERE service='api' AND duration_ns>=1000 ORDER BY start_ts DESC,span_id DESC LIMIT 2", Arguments::Zero, Expected::Rows(Rows::One(Row::One(Literal::Integer(5))))))
    } else if i == 21 {
        Some(Action::Query(0, "SELECT key,CAST(value AS INTEGER) FROM timeless_stats(?1)", Arguments::One(Argument::Text("traces")), Expected::Keep(0)))
    } else if i == 22 {
        Some(Action::Stat(0, "discovery_count", Bound::Is(2)))
    } else if i == 23 {
        Some(Action::Stat(0, "query_bounded_count", Bound::Is(2)))
    } else {
        None
    }
}

/// A part of the script.
pub open spec fn trace_reads_part_1_at(i: int) -> Option<Action> {
    if i == 0 {
        Some(Action::Stat(0, "query_bounded_requested_spans", Bound::Is(5)))
    } else if i == 1 {
        Some(Action::Stat(0, "query_bounded_max_spans", Bound::Is(3)))
    } else if i == 2 {
        Some(Action::Stat(0, "query_stable_location_snapshots", Bound::Is(2)))
    } else if i == 3 {
        Some(Action::Stat(0, "query_snapshot_payload_max_bytes", Bound::Is(0)))
    } else if i == 4 {
        Some(Action::Stat(0, "query_blocks_skipped_by_bound", Bound::AtLeast(2)))
    } else if i == 5 {
        Some(Action::Query(0, "SELECT COUNT(*) FROM traces_terms WHERE term='operations:'", Arguments::Zero, Expected::First(Row::One(Literal::Integer(3)))))
    } else if i == 6 {
        Some(Action::Query(0, "EXPLAIN QUERY PLAN SELECT start_ts FROM traces WHERE service='api' ORDER BY start_ts DESC,span_id DESC LIMIT 2 OFFSET 1", Arguments::Zero, Expected::Mentions(3, "bounded-ts-desc-offset")))
    } else if i == 7 {
        Some(Action::Query(0, "SELECT COUNT(*) FROM traces", Arguments::Zero, Expected::First(Row::One(Literal::Integer(12)))))
    } else if i == 8 {
        Some(Action::Query(0, "SELECT key,CAST(value AS INTEGER) FROM timeless_stats(?1)", Arguments::One(Argument::Text("traces")), Expected::Keep(1)))
    } else if i == 9 {
        Some(Action::Stat(1, "query_count", Bound::Is(3)))
    } else if i == 10 {
        Some(Action::Stat(1, "query_stable_location_snapshots", Bound::Is(3)))
    } else if i == 11 {
        Some(Action::Stat(1, "query_snapshot_payload_max_bytes", Bound::Is(0)))
    } else if i == 12 {
        Some(Action::Pass("PASS: trace discovery, bounded streaming reads, and stable snapshots"))
    } else {
        None
    }
}

fn trace_reads_part_1(i: usize) -> (action: Option<Action>)
    ensures
        action == trace_reads_part_1_at(i as int),
{
    if i == 0 {
        Some(Action::Stat(0, "query_bounded_requested_spans", Bound::Is(5)))
    } else if i == 1 {
        Some(Action::Stat(0, "query_bounded_max_spans", Bound::Is(3)))
    } else if i == 2 {
        Some(Action::Stat(0, "query_stable_location_snapshots", Bound::Is(2)))
    } else if i == 3 {
        Some(Action::Stat(0, "query_snapshot_payload_max_bytes", Bound::Is(0)))
    } else if i == 4 {
        Some(Action::Stat(0, "query_blocks_skipped_by_bound", Bound::AtLeast(2)))
    } else if i == 5 {
        Some(Action::Query(0, "SELECT COUNT(*) FROM traces_terms WHERE term='operations:'", Arguments::Zero, Expected::First(Row::One(Literal::Integer(3)))))
    } else if i == 6 {
        Some(Action::Query(0, "EXPLAIN QUERY PLAN SELECT start_ts FROM traces WHERE service='api' ORDER BY start_ts DESC,span_id DESC LIMIT 2 OFFSET 1", Arguments::Zero, Expected::Mentions(3, "bounded-ts-desc-offset")))
    } else if i == 7 {
        Some(Action::Query(0, "SELECT COUNT(*) FROM traces", Arguments::Zero, Expected::First(Row::One(Literal::Integer(12)))))
    } else if i == 8 {
        Some(Action::Query(0, "SELECT key,CAST(value AS INTEGER) FROM timeless_stats(?1)", Arguments::One(Argument::Text("traces")), Expected::Keep(1)))
    } else if i == 9 {
        Some(Action::Stat(1, "query_count", Bound::Is(3)))
    } else if i == 10 {
        Some(Action::Stat(1, "query_stable_location_snapshots", Bound::Is(3)))
    } else if i == 11 {
        Some(Action::Stat(1, "query_snapshot_payload_max_bytes", Bound::Is(0)))
    } else if i == 12 {
        Some(Action::Pass("PASS: trace discovery, bounded streaming reads, and stable snapshots"))
    } else {
        None
    }
}

/// Reads of traces are bounded and stream from stable places: what is done at a place, from 0 on.
pub open spec fn trace_reads_at(i: int) -> Option<Action> {
    if i < 24 {
        trace_reads_part_0_at(i)
    } else {
        trace_reads_part_1_at(i - 24)
    }
}

/// Reads of traces are bounded and stream from stable places: what is done at a place, from 0 on.
pub fn trace_reads(i: usize) -> (action: Option<Action>)
    ensures
        action == trace_reads_at(i as int),
{
    if i < 24 {
        trace_reads_part_0(i)
    } else {
        trace_reads_part_1(i - 24)
    }
}

/// The script has an action at every place below 26, and none from there on.
pub proof fn shared_engine_ends(i: int)
    ensures
        shared_engine_at(i) is Some <==> 0 <= i < 26,
{
}

/// The script has an action at every place below 3, and none from there on.
pub proof fn packed_rollup_ends(i: int)
    ensures
        packed_rollup_at(i) is Some <==> 0 <= i < 3,
{
}

/// The script has an action at every place below 6, and none from there on.
pub proof fn latest_publication_ends(i: int)
    ensures
        latest_publication_at(i) is Some <==> 0 <= i < 6,
{
}

/// The script has an action at every place below 21, and none from there on.
pub proof fn catalog_publication_ends(i: int)
    ensures
        catalog_publication_at(i) is Some <==> 0 <= i < 21,
{
}

/// The script has an action at every place below 20, and none from there on.
pub proof fn matcher_discovery_ends(i: int)
    ensures
        matcher_discovery_at(i) is Some <==> 0 <= i < 20,
{
}

/// The script has an action at every place below 11, and none from there on.
pub proof fn reader_gate_ends(i: int)
    ensures
        reader_gate_at(i) is Some <==> 0 <= i < 11,
{
}

/// The script has an action at every place below 31, and none from there on.
pub proof fn series_id_ends(i: int)
    ensures
        series_id_at(i) is Some <==> 0 <= i < 31,
{
}

/// The script has an action at every place below 24, and none from there on.
pub proof fn frames_ends(i: int)
    ensures
        frames_at(i) is Some <==> 0 <= i < 24,
{
}

/// The script has an action at every place below 156, and none from there on.
pub proof fn logs_optimize_ends(i: int)
    ensures
        logs_optimize_at(i) is Some <==> 0 <= i < 156,
{
}

/// The script has an action at every place below 37, and none from there on.
pub proof fn trace_reads_ends(i: int)
    ensures
        trace_reads_at(i) is Some <==> 0 <= i < 37,
{
}

/// A section of the suite.
#[derive(Clone, Copy, Debug, PartialEq, Eq, Structural)]
pub enum Section {
    /// One engine for the connections of a process.
    SharedEngine,
    /// Packed rollups.
    PackedRollup,
    /// Latest values.
    LatestPublication,
    /// The catalog.
    CatalogPublication,
    /// Matchers.
    MatcherDiscovery,
    /// Reads during writes.
    ReaderGate,
    /// Numbers of series.
    SeriesId,
    /// Frames.
    Frames,
    /// Optimizing logs.
    LogsOptimize,
    /// Reads of traces.
    TraceReads,
}

/// What a section does at a place, from 0 on.
pub open spec fn script_at(section: Section, i: int) -> Option<Action> {
    match section {
        Section::SharedEngine => shared_engine_at(i),
        Section::PackedRollup => packed_rollup_at(i),
        Section::LatestPublication => latest_publication_at(i),
        Section::CatalogPublication => catalog_publication_at(i),
        Section::MatcherDiscovery => matcher_discovery_at(i),
        Section::ReaderGate => reader_gate_at(i),
        Section::SeriesId => series_id_at(i),
        Section::Frames => frames_at(i),
        Section::LogsOptimize => logs_optimize_at(i),
        Section::TraceReads => trace_reads_at(i),
    }
}

/// What a section does at a place, from 0 on.
pub fn script(section: Section, i: usize) -> (action: Option<Action>)
    ensures
        action == script_at(section, i as int),
{
    match section {
        Section::SharedEngine => shared_engine(i),
        Section::PackedRollup => packed_rollup(i),
        Section::LatestPublication => latest_publication(i),
        Section::CatalogPublication => catalog_publication(i),
        Section::MatcherDiscovery => matcher_discovery(i),
        Section::ReaderGate => reader_gate(i),
        Section::SeriesId => series_id(i),
        Section::Frames => frames(i),
        Section::LogsOptimize => logs_optimize(i),
        Section::TraceReads => trace_reads(i),
    }
}

} // verus!
