//! The scheduler of the health samples: it starts, resumes and stops with its table.
use crate::gate::{Action, Argument, Arguments, Database, Expected};
use crate::values::{Literal, Row};
use vstd::prelude::*;

verus! {

/// A part of the script.
pub open spec fn run_part_0_at(i: int) -> Option<Action> {
    if i == 0 {
        Some(Action::Open(0, Database::Given))
    } else if i == 1 {
        Some(Action::Execute(0, "CREATE VIRTUAL TABLE dbhealth USING dbhealth(every=1)", Arguments::Zero, Expected::Done))
    } else if i == 2 {
        Some(Action::Sleep(4500))
    } else if i == 3 {
        Some(Action::Query(0, "SELECT count(*) FROM \"dbhealth\"", Arguments::Zero, Expected::Above(0)))
    } else if i == 4 {
        Some(Action::Query(0, "SELECT DISTINCT name FROM dbhealth", Arguments::Zero, Expected::Lists("db_pages")))
    } else if i == 5 {
        Some(Action::Query(0, "SELECT DISTINCT name FROM dbhealth", Arguments::Zero, Expected::Lists("db_file_bytes")))
    } else if i == 6 {
        Some(Action::Execute(0, "INSERT INTO dbhealth(dbhealth) VALUES ('sample')", Arguments::Zero, Expected::Done))
    } else if i == 7 {
        Some(Action::Query(0, "SELECT \"check\", status FROM dbhealth_report", Arguments::Zero, Expected::Pairs(7, "sampling", "ok")))
    } else if i == 8 {
        Some(Action::Execute(0, "INSERT INTO dbhealth(dbhealth) VALUES ('bogus')", Arguments::Zero, Expected::RefusedWith("sample")))
    } else if i == 9 {
        Some(Action::Close(0))
    } else if i == 10 {
        Some(Action::Sleep(2000))
    } else if i == 11 {
        Some(Action::Open(0, Database::Given))
    } else if i == 12 {
        Some(Action::Query(0, "SELECT count(*) FROM \"dbhealth\"", Arguments::Zero, Expected::Keep(0)))
    } else if i == 13 {
        Some(Action::Sleep(3500))
    } else if i == 14 {
        Some(Action::Query(0, "SELECT count(*) FROM \"dbhealth\"", Arguments::Zero, Expected::Grown(0)))
    } else if i == 15 {
        Some(Action::Execute(0, "CREATE VIRTUAL TABLE manual USING dbhealth(every=0)", Arguments::Zero, Expected::Done))
    } else if i == 16 {
        Some(Action::Sleep(2600))
    } else if i == 17 {
        Some(Action::Query(0, "SELECT count(*) FROM \"manual\"", Arguments::Zero, Expected::First(Row::One(Literal::Integer(0)))))
    } else if i == 18 {
        Some(Action::Execute(0, "DROP TABLE manual", Arguments::Zero, Expected::Done))
    } else if i == 19 {
        Some(Action::Execute(0, "DROP TABLE dbhealth", Arguments::Zero, Expected::Done))
    } else if i == 20 {
        Some(Action::Query(0, "SELECT count(*) FROM sqlite_master WHERE name LIKE 'dbhealth%'", Arguments::Zero, Expected::First(Row::One(Literal::Integer(0)))))
    } else if i == 21 {
        Some(Action::Close(0))
    } else if i == 22 {
        Some(Action::Open(0, Database::Given))
    } else if i == 23 {
        Some(Action::Execute(0, "CREATE VIRTUAL TABLE legacy USING dbhealth(every=0)", Arguments::Zero, Expected::Done))
    } else {
        None
    }
}

fn run_part_0(i: usize) -> (action: Option<Action>)
    ensures
        action == run_part_0_at(i as int),
{
    if i == 0 {
        Some(Action::Open(0, Database::Given))
    } else if i == 1 {
        Some(Action::Execute(0, "CREATE VIRTUAL TABLE dbhealth USING dbhealth(every=1)", Arguments::Zero, Expected::Done))
    } else if i == 2 {
        Some(Action::Sleep(4500))
    } else if i == 3 {
        Some(Action::Query(0, "SELECT count(*) FROM \"dbhealth\"", Arguments::Zero, Expected::Above(0)))
    } else if i == 4 {
        Some(Action::Query(0, "SELECT DISTINCT name FROM dbhealth", Arguments::Zero, Expected::Lists("db_pages")))
    } else if i == 5 {
        Some(Action::Query(0, "SELECT DISTINCT name FROM dbhealth", Arguments::Zero, Expected::Lists("db_file_bytes")))
    } else if i == 6 {
        Some(Action::Execute(0, "INSERT INTO dbhealth(dbhealth) VALUES ('sample')", Arguments::Zero, Expected::Done))
    } else if i == 7 {
        Some(Action::Query(0, "SELECT \"check\", status FROM dbhealth_report", Arguments::Zero, Expected::Pairs(7, "sampling", "ok")))
    } else if i == 8 {
        Some(Action::Execute(0, "INSERT INTO dbhealth(dbhealth) VALUES ('bogus')", Arguments::Zero, Expected::RefusedWith("sample")))
    } else if i == 9 {
        Some(Action::Close(0))
    } else if i == 10 {
        Some(Action::Sleep(2000))
    } else if i == 11 {
        Some(Action::Open(0, Database::Given))
    } else if i == 12 {
        Some(Action::Query(0, "SELECT count(*) FROM \"dbhealth\"", Arguments::Zero, Expected::Keep(0)))
    } else if i == 13 {
        Some(Action::Sleep(3500))
    } else if i == 14 {
        Some(Action::Query(0, "SELECT count(*) FROM \"dbhealth\"", Arguments::Zero, Expected::Grown(0)))
    } else if i == 15 {
        Some(Action::Execute(0, "CREATE VIRTUAL TABLE manual USING dbhealth(every=0)", Arguments::Zero, Expected::Done))
    } else if i == 16 {
        Some(Action::Sleep(2600))
    } else if i == 17 {
        Some(Action::Query(0, "SELECT count(*) FROM \"manual\"", Arguments::Zero, Expected::First(Row::One(Literal::Integer(0)))))
    } else if i == 18 {
        Some(Action::Execute(0, "DROP TABLE manual", Arguments::Zero, Expected::Done))
    } else if i == 19 {
        Some(Action::Execute(0, "DROP TABLE dbhealth", Arguments::Zero, Expected::Done))
    } else if i == 20 {
        Some(Action::Query(0, "SELECT count(*) FROM sqlite_master WHERE name LIKE 'dbhealth%'", Arguments::Zero, Expected::First(Row::One(Literal::Integer(0)))))
    } else if i == 21 {
        Some(Action::Close(0))
    } else if i == 22 {
        Some(Action::Open(0, Database::Given))
    } else if i == 23 {
        Some(Action::Execute(0, "CREATE VIRTUAL TABLE legacy USING dbhealth(every=0)", Arguments::Zero, Expected::Done))
    } else {
        None
    }
}

/// A part of the script.
pub open spec fn run_part_1_at(i: int) -> Option<Action> {
    if i == 0 {
        Some(Action::Execute(0, "UPDATE legacy_meta SET v=CAST(v AS BLOB) WHERE k IN ('health_flush_every','health_every')", Arguments::Zero, Expected::Done))
    } else if i == 1 {
        Some(Action::Close(0))
    } else if i == 2 {
        Some(Action::Open(0, Database::Given))
    } else if i == 3 {
        Some(Action::Query(0, "SELECT count(*) FROM \"legacy\"", Arguments::Zero, Expected::Keep(0)))
    } else if i == 4 {
        Some(Action::Execute(0, "INSERT INTO legacy(legacy) VALUES ('sample')", Arguments::Zero, Expected::Done))
    } else if i == 5 {
        Some(Action::Query(0, "SELECT count(*) FROM \"legacy\"", Arguments::Zero, Expected::Grown(0)))
    } else if i == 6 {
        Some(Action::Query(0, "SELECT k,typeof(v) FROM legacy_meta WHERE k LIKE 'health%'", Arguments::Zero, Expected::Pair("health_flush_every", "text")))
    } else if i == 7 {
        Some(Action::Execute(0, "DROP TABLE legacy", Arguments::Zero, Expected::Done))
    } else if i == 8 {
        Some(Action::Close(0))
    } else if i == 9 {
        Some(Action::MakeDirectory)
    } else if i == 10 {
        Some(Action::Open(0, Database::Sqld))
    } else if i == 11 {
        Some(Action::Execute(0, "CREATE VIRTUAL TABLE dbhealth USING dbhealth(every=1)", Arguments::Zero, Expected::Done))
    } else if i == 12 {
        Some(Action::Sleep(2800))
    } else if i == 13 {
        Some(Action::Query(0, "SELECT count(*) FROM \"dbhealth\"", Arguments::Zero, Expected::First(Row::One(Literal::Integer(0)))))
    } else if i == 14 {
        Some(Action::Execute(0, "INSERT INTO dbhealth(dbhealth) VALUES (?1)", Arguments::One(Argument::Text("sample")), Expected::Done))
    } else if i == 15 {
        Some(Action::Query(0, "SELECT count(*) FROM \"dbhealth\"", Arguments::Zero, Expected::Above(0)))
    } else if i == 16 {
        Some(Action::Close(0))
    } else if i == 17 {
        Some(Action::Pass("ALL DBHEALTH CHECKS PASSED"))
    } else {
        None
    }
}

fn run_part_1(i: usize) -> (action: Option<Action>)
    ensures
        action == run_part_1_at(i as int),
{
    if i == 0 {
        Some(Action::Execute(0, "UPDATE legacy_meta SET v=CAST(v AS BLOB) WHERE k IN ('health_flush_every','health_every')", Arguments::Zero, Expected::Done))
    } else if i == 1 {
        Some(Action::Close(0))
    } else if i == 2 {
        Some(Action::Open(0, Database::Given))
    } else if i == 3 {
        Some(Action::Query(0, "SELECT count(*) FROM \"legacy\"", Arguments::Zero, Expected::Keep(0)))
    } else if i == 4 {
        Some(Action::Execute(0, "INSERT INTO legacy(legacy) VALUES ('sample')", Arguments::Zero, Expected::Done))
    } else if i == 5 {
        Some(Action::Query(0, "SELECT count(*) FROM \"legacy\"", Arguments::Zero, Expected::Grown(0)))
    } else if i == 6 {
        Some(Action::Query(0, "SELECT k,typeof(v) FROM legacy_meta WHERE k LIKE 'health%'", Arguments::Zero, Expected::Pair("health_flush_every", "text")))
    } else if i == 7 {
        Some(Action::Execute(0, "DROP TABLE legacy", Arguments::Zero, Expected::Done))
    } else if i == 8 {
        Some(Action::Close(0))
    } else if i == 9 {
        Some(Action::MakeDirectory)
    } else if i == 10 {
        Some(Action::Open(0, Database::Sqld))
    } else if i == 11 {
        Some(Action::Execute(0, "CREATE VIRTUAL TABLE dbhealth USING dbhealth(every=1)", Arguments::Zero, Expected::Done))
    } else if i == 12 {
        Some(Action::Sleep(2800))
    } else if i == 13 {
        Some(Action::Query(0, "SELECT count(*) FROM \"dbhealth\"", Arguments::Zero, Expected::First(Row::One(Literal::Integer(0)))))
    } else if i == 14 {
        Some(Action::Execute(0, "INSERT INTO dbhealth(dbhealth) VALUES (?1)", Arguments::One(Argument::Text("sample")), Expected::Done))
    } else if i == 15 {
        Some(Action::Query(0, "SELECT count(*) FROM \"dbhealth\"", Arguments::Zero, Expected::Above(0)))
    } else if i == 16 {
        Some(Action::Close(0))
    } else if i == 17 {
        Some(Action::Pass("ALL DBHEALTH CHECKS PASSED"))
    } else {
        None
    }
}

/// The suite of the health samples: what is done at a place, from 0 on.
pub open spec fn run_at(i: int) -> Option<Action> {
    if i < 24 {
        run_part_0_at(i)
    } else {
        run_part_1_at(i - 24)
    }
}

/// The suite of the health samples: what is done at a place, from 0 on.
pub fn run(i: usize) -> (action: Option<Action>)
    ensures
        action == run_at(i as int),
{
    if i < 24 {
        run_part_0(i)
    } else {
        run_part_1(i - 24)
    }
}

/// The script has an action at every place below 42, and none from there on.
pub proof fn run_ends(i: int)
    ensures
        run_at(i) is Some <==> 0 <= i < 42,
{
}

} // verus!
