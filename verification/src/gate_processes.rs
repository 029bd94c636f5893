//! Several processes on one database: identities, refreshes, registries of earlier
//! versions and the catalog.
use crate::gate::{Action, Argument, Arguments, Counts, Database, Expected, MetricWrite, Writes};
use crate::values::{Literal, Row};
use vstd::prelude::*;

verus! {

/// Two processes that write different series get different identities for them: what is done at a place, from 0 on.
pub open spec fn distinct_ids_at(i: int) -> Option<Action> {
    if i == 0 {
        Some(Action::Open(0, Database::Named("distinct.db")))
    } else if i == 1 {
        Some(Action::Execute(0, "CREATE VIRTUAL TABLE metrics USING timeless_metrics", Arguments::Zero, Expected::Done))
    } else if i == 2 {
        Some(Action::Close(0))
    } else if i == 3 {
        Some(Action::Start(0, "distinct.db"))
    } else if i == 4 {
        Some(Action::Start(1, "distinct.db"))
    } else if i == 5 {
        Some(Action::Write(0, Writes::One(MetricWrite { name: "from_a", timestamp: 10, value: 0x3ff0000000000000, labels: "{}" })))
    } else if i == 6 {
        Some(Action::Write(1, Writes::One(MetricWrite { name: "from_b", timestamp: 20, value: 0x4000000000000000, labels: "{}" })))
    } else if i == 7 {
        Some(Action::Stop(0))
    } else if i == 8 {
        Some(Action::Stop(1))
    } else if i == 9 {
        Some(Action::Start(2, "distinct.db"))
    } else if i == 10 {
        Some(Action::Count(2, Counts::Two("from_a", 1, "from_b", 1)))
    } else if i == 11 {
        Some(Action::Stop(2))
    } else if i == 12 {
        Some(Action::OpenPlain(0, Database::Named("distinct.db")))
    } else if i == 13 {
        Some(Action::Query(0, "SELECT series_id,COUNT(*) FROM metrics_chunks GROUP BY series_id", Arguments::Zero, Expected::Many(2)))
    } else if i == 14 {
        Some(Action::Close(0))
    } else {
        None
    }
}

/// Two processes that write different series get different identities for them: what is done at a place, from 0 on.
pub fn distinct_ids(i: usize) -> (action: Option<Action>)
    ensures
        action == distinct_ids_at(i as int),
{
    if i == 0 {
        Some(Action::Open(0, Database::Named("distinct.db")))
    } else if i == 1 {
        Some(Action::Execute(0, "CREATE VIRTUAL TABLE metrics USING timeless_metrics", Arguments::Zero, Expected::Done))
    } else if i == 2 {
        Some(Action::Close(0))
    } else if i == 3 {
        Some(Action::Start(0, "distinct.db"))
    } else if i == 4 {
        Some(Action::Start(1, "distinct.db"))
    } else if i == 5 {
        Some(Action::Write(0, Writes::One(MetricWrite { name: "from_a", timestamp: 10, value: 0x3ff0000000000000, labels: "{}" })))
    } else if i == 6 {
        Some(Action::Write(1, Writes::One(MetricWrite { name: "from_b", timestamp: 20, value: 0x4000000000000000, labels: "{}" })))
    } else if i == 7 {
        Some(Action::Stop(0))
    } else if i == 8 {
        Some(Action::Stop(1))
    } else if i == 9 {
        Some(Action::Start(2, "distinct.db"))
    } else if i == 10 {
        Some(Action::Count(2, Counts::Two("from_a", 1, "from_b", 1)))
    } else if i == 11 {
        Some(Action::Stop(2))
    } else if i == 12 {
        Some(Action::OpenPlain(0, Database::Named("distinct.db")))
    } else if i == 13 {
        Some(Action::Query(0, "SELECT series_id,COUNT(*) FROM metrics_chunks GROUP BY series_id", Arguments::Zero, Expected::Many(2)))
    } else if i == 14 {
        Some(Action::Close(0))
    } else {
        None
    }
}

/// Two processes that write one series agree on its identity: what is done at a place, from 0 on.
pub open spec fn same_identity_at(i: int) -> Option<Action> {
    if i == 0 {
        Some(Action::Open(0, Database::Named("same.db")))
    } else if i == 1 {
        Some(Action::Execute(0, "CREATE VIRTUAL TABLE metrics USING timeless_metrics", Arguments::Zero, Expected::Done))
    } else if i == 2 {
        Some(Action::Close(0))
    } else if i == 3 {
        Some(Action::Start(0, "same.db"))
    } else if i == 4 {
        Some(Action::Start(1, "same.db"))
    } else if i == 5 {
        Some(Action::Write(0, Writes::Two(MetricWrite { name: "prefix", timestamp: 10, value: 0x3ff0000000000000, labels: "{}" }, MetricWrite { name: "shared", timestamp: 11, value: 0x4000000000000000, labels: "{\"host\":\"a\"}" })))
    } else if i == 6 {
        Some(Action::Write(1, Writes::One(MetricWrite { name: "shared", timestamp: 12, value: 0x4008000000000000, labels: "{\"host\":\"a\"}" })))
    } else if i == 7 {
        Some(Action::Stop(0))
    } else if i == 8 {
        Some(Action::Stop(1))
    } else if i == 9 {
        Some(Action::Start(2, "same.db"))
    } else if i == 10 {
        Some(Action::Count(2, Counts::Two("prefix", 1, "shared", 2)))
    } else if i == 11 {
        Some(Action::Stop(2))
    } else if i == 12 {
        Some(Action::OpenPlain(0, Database::Named("same.db")))
    } else if i == 13 {
        Some(Action::Query(0, "SELECT DISTINCT c.series_id FROM metrics_chunks c JOIN metrics_series s ON s.id=c.series_id WHERE s.name='shared'", Arguments::Zero, Expected::Many(1)))
    } else if i == 14 {
        Some(Action::Close(0))
    } else {
        None
    }
}

/// Two processes that write one series agree on its identity: what is done at a place, from 0 on.
pub fn same_identity(i: usize) -> (action: Option<Action>)
    ensures
        action == same_identity_at(i as int),
{
    if i == 0 {
        Some(Action::Open(0, Database::Named("same.db")))
    } else if i == 1 {
        Some(Action::Execute(0, "CREATE VIRTUAL TABLE metrics USING timeless_metrics", Arguments::Zero, Expected::Done))
    } else if i == 2 {
        Some(Action::Close(0))
    } else if i == 3 {
        Some(Action::Start(0, "same.db"))
    } else if i == 4 {
        Some(Action::Start(1, "same.db"))
    } else if i == 5 {
        Some(Action::Write(0, Writes::Two(MetricWrite { name: "prefix", timestamp: 10, value: 0x3ff0000000000000, labels: "{}" }, MetricWrite { name: "shared", timestamp: 11, value: 0x4000000000000000, labels: "{\"host\":\"a\"}" })))
    } else if i == 6 {
        Some(Action::Write(1, Writes::One(MetricWrite { name: "shared", timestamp: 12, value: 0x4008000000000000, labels: "{\"host\":\"a\"}" })))
    } else if i == 7 {
        Some(Action::Stop(0))
    } else if i == 8 {
        Some(Action::Stop(1))
    } else if i == 9 {
        Some(Action::Start(2, "same.db"))
    } else if i == 10 {
        Some(Action::Count(2, Counts::Two("prefix", 1, "shared", 2)))
    } else if i == 11 {
        Some(Action::Stop(2))
    } else if i == 12 {
        Some(Action::OpenPlain(0, Database::Named("same.db")))
    } else if i == 13 {
        Some(Action::Query(0, "SELECT DISTINCT c.series_id FROM metrics_chunks c JOIN metrics_series s ON s.id=c.series_id WHERE s.name='shared'", Arguments::Zero, Expected::Many(1)))
    } else if i == 14 {
        Some(Action::Close(0))
    } else {
        None
    }
}

/// A process that reads for long sees what another one writes: what is done at a place, from 0 on.
pub open spec fn refresh_at(i: int) -> Option<Action> {
    if i == 0 {
        Some(Action::Open(0, Database::Named("refresh.db")))
    } else if i == 1 {
        Some(Action::Execute(0, "CREATE VIRTUAL TABLE metrics USING timeless_metrics", Arguments::Zero, Expected::Done))
    } else if i == 2 {
        Some(Action::Close(0))
    } else if i == 3 {
        Some(Action::Start(0, "refresh.db"))
    } else if i == 4 {
        Some(Action::Start(1, "refresh.db"))
    } else if i == 5 {
        Some(Action::Count(0, Counts::One("external", 0)))
    } else if i == 6 {
        Some(Action::Write(1, Writes::One(MetricWrite { name: "external", timestamp: 30, value: 0x4010000000000000, labels: "{}" })))
    } else if i == 7 {
        Some(Action::Count(0, Counts::One("external", 1)))
    } else if i == 8 {
        Some(Action::Stop(0))
    } else if i == 9 {
        Some(Action::Stop(1))
    } else {
        None
    }
}

/// A process that reads for long sees what another one writes: what is done at a place, from 0 on.
pub fn refresh(i: usize) -> (action: Option<Action>)
    ensures
        action == refresh_at(i as int),
{
    if i == 0 {
        Some(Action::Open(0, Database::Named("refresh.db")))
    } else if i == 1 {
        Some(Action::Execute(0, "CREATE VIRTUAL TABLE metrics USING timeless_metrics", Arguments::Zero, Expected::Done))
    } else if i == 2 {
        Some(Action::Close(0))
    } else if i == 3 {
        Some(Action::Start(0, "refresh.db"))
    } else if i == 4 {
        Some(Action::Start(1, "refresh.db"))
    } else if i == 5 {
        Some(Action::Count(0, Counts::One("external", 0)))
    } else if i == 6 {
        Some(Action::Write(1, Writes::One(MetricWrite { name: "external", timestamp: 30, value: 0x4010000000000000, labels: "{}" })))
    } else if i == 7 {
        Some(Action::Count(0, Counts::One("external", 1)))
    } else if i == 8 {
        Some(Action::Stop(0))
    } else if i == 9 {
        Some(Action::Stop(1))
    } else {
        None
    }
}

/// A registry that cannot be read keeps the table closed: what is done at a place, from 0 on.
pub open spec fn corrupt_legacy_at(i: int) -> Option<Action> {
    if i == 0 {
        Some(Action::Open(0, Database::Named("corrupt.db")))
    } else if i == 1 {
        Some(Action::Execute(0, "CREATE VIRTUAL TABLE metrics USING timeless_metrics", Arguments::Zero, Expected::Done))
    } else if i == 2 {
        Some(Action::Close(0))
    } else if i == 3 {
        Some(Action::Start(0, "corrupt.db"))
    } else if i == 4 {
        Some(Action::Write(0, Writes::One(MetricWrite { name: "existing", timestamp: 40, value: 0x4014000000000000, labels: "{}" })))
    } else if i == 5 {
        Some(Action::Stop(0))
    } else if i == 6 {
        Some(Action::OpenPlain(0, Database::Named("corrupt.db")))
    } else if i == 7 {
        Some(Action::Execute(0, "DROP TABLE IF EXISTS metrics_series", Arguments::Zero, Expected::Done))
    } else if i == 8 {
        Some(Action::Execute(0, "UPDATE metrics_meta SET v=?1 WHERE k='series_registry'", Arguments::One(Argument::Fill(0, 1)), Expected::Done))
    } else if i == 9 {
        Some(Action::Close(0))
    } else if i == 10 {
        Some(Action::StartRefused(1, "corrupt.db"))
    } else {
        None
    }
}

/// A registry that cannot be read keeps the table closed: what is done at a place, from 0 on.
pub fn corrupt_legacy(i: usize) -> (action: Option<Action>)
    ensures
        action == corrupt_legacy_at(i as int),
{
    if i == 0 {
        Some(Action::Open(0, Database::Named("corrupt.db")))
    } else if i == 1 {
        Some(Action::Execute(0, "CREATE VIRTUAL TABLE metrics USING timeless_metrics", Arguments::Zero, Expected::Done))
    } else if i == 2 {
        Some(Action::Close(0))
    } else if i == 3 {
        Some(Action::Start(0, "corrupt.db"))
    } else if i == 4 {
        Some(Action::Write(0, Writes::One(MetricWrite { name: "existing", timestamp: 40, value: 0x4014000000000000, labels: "{}" })))
    } else if i == 5 {
        Some(Action::Stop(0))
    } else if i == 6 {
        Some(Action::OpenPlain(0, Database::Named("corrupt.db")))
    } else if i == 7 {
        Some(Action::Execute(0, "DROP TABLE IF EXISTS metrics_series", Arguments::Zero, Expected::Done))
    } else if i == 8 {
        Some(Action::Execute(0, "UPDATE metrics_meta SET v=?1 WHERE k='series_registry'", Arguments::One(Argument::Fill(0, 1)), Expected::Done))
    } else if i == 9 {
        Some(Action::Close(0))
    } else if i == 10 {
        Some(Action::StartRefused(1, "corrupt.db"))
    } else {
        None
    }
}

/// A registry of an earlier version is taken over: what is done at a place, from 0 on.
pub open spec fn legacy_migrates_at(i: int) -> Option<Action> {
    if i == 0 {
        Some(Action::Open(0, Database::Named("legacy.db")))
    } else if i == 1 {
        Some(Action::Execute(0, "CREATE VIRTUAL TABLE metrics USING timeless_metrics", Arguments::Zero, Expected::Done))
    } else if i == 2 {
        Some(Action::Close(0))
    } else if i == 3 {
        Some(Action::Start(0, "legacy.db"))
    } else if i == 4 {
        Some(Action::Write(0, Writes::One(MetricWrite { name: "legacy_metric", timestamp: 50, value: 0x4018000000000000, labels: "{\"host\":\"legacy\"}" })))
    } else if i == 5 {
        Some(Action::Stop(0))
    } else if i == 6 {
        Some(Action::OpenPlain(0, Database::Named("legacy.db")))
    } else if i == 7 {
        Some(Action::Query(0, "SELECT DISTINCT series_id FROM metrics_chunks", Arguments::Zero, Expected::Keep(0)))
    } else if i == 8 {
        Some(Action::Execute(0, "DROP TABLE IF EXISTS metrics_series", Arguments::Zero, Expected::Done))
    } else if i == 9 {
        Some(Action::Execute(0, "INSERT OR REPLACE INTO metrics_meta(k,v) VALUES('series_registry',?1)", Arguments::One(Argument::Registry(0)), Expected::Done))
    } else if i == 10 {
        Some(Action::Close(0))
    } else if i == 11 {
        Some(Action::Start(1, "legacy.db"))
    } else if i == 12 {
        Some(Action::Count(1, Counts::One("legacy_metric", 1)))
    } else if i == 13 {
        Some(Action::Stop(1))
    } else if i == 14 {
        Some(Action::OpenPlain(0, Database::Named("legacy.db")))
    } else if i == 15 {
        Some(Action::Query(0, "SELECT id,name FROM metrics_series WHERE name='legacy_metric'", Arguments::Zero, Expected::Named(0, "legacy_metric")))
    } else if i == 16 {
        Some(Action::Close(0))
    } else {
        None
    }
}

/// A registry of an earlier version is taken over: what is done at a place, from 0 on.
pub fn legacy_migrates(i: usize) -> (action: Option<Action>)
    ensures
        action == legacy_migrates_at(i as int),
{
    if i == 0 {
        Some(Action::Open(0, Database::Named("legacy.db")))
    } else if i == 1 {
        Some(Action::Execute(0, "CREATE VIRTUAL TABLE metrics USING timeless_metrics", Arguments::Zero, Expected::Done))
    } else if i == 2 {
        Some(Action::Close(0))
    } else if i == 3 {
        Some(Action::Start(0, "legacy.db"))
    } else if i == 4 {
        Some(Action::Write(0, Writes::One(MetricWrite { name: "legacy_metric", timestamp: 50, value: 0x4018000000000000, labels: "{\"host\":\"legacy\"}" })))
    } else if i == 5 {
        Some(Action::Stop(0))
    } else if i == 6 {
        Some(Action::OpenPlain(0, Database::Named("legacy.db")))
    } else if i == 7 {
        Some(Action::Query(0, "SELECT DISTINCT series_id FROM metrics_chunks", Arguments::Zero, Expected::Keep(0)))
    } else if i == 8 {
        Some(Action::Execute(0, "DROP TABLE IF EXISTS metrics_series", Arguments::Zero, Expected::Done))
    } else if i == 9 {
        Some(Action::Execute(0, "INSERT OR REPLACE INTO metrics_meta(k,v) VALUES('series_registry',?1)", Arguments::One(Argument::Registry(0)), Expected::Done))
    } else if i == 10 {
        Some(Action::Close(0))
    } else if i == 11 {
        Some(Action::Start(1, "legacy.db"))
    } else if i == 12 {
        Some(Action::Count(1, Counts::One("legacy_metric", 1)))
    } else if i == 13 {
        Some(Action::Stop(1))
    } else if i == 14 {
        Some(Action::OpenPlain(0, Database::Named("legacy.db")))
    } else if i == 15 {
        Some(Action::Query(0, "SELECT id,name FROM metrics_series WHERE name='legacy_metric'", Arguments::Zero, Expected::Named(0, "legacy_metric")))
    } else if i == 16 {
        Some(Action::Close(0))
    } else {
        None
    }
}

/// The rows of the catalog follow the transactions that make them: what is done at a place, from 0 on.
pub open spec fn catalog_transactions_at(i: int) -> Option<Action> {
    if i == 0 {
        Some(Action::Open(0, Database::Named("catalog_tx.db")))
    } else if i == 1 {
        Some(Action::Execute(0, "CREATE VIRTUAL TABLE metrics USING timeless_metrics", Arguments::Zero, Expected::Done))
    } else if i == 2 {
        Some(Action::Close(0))
    } else if i == 3 {
        Some(Action::Open(0, Database::Named("catalog_tx.db")))
    } else if i == 4 {
        Some(Action::Batch(0, "BEGIN; INSERT INTO metrics(name,ts,value,labels) VALUES('rolled',60,7,'{}'); ROLLBACK; INSERT INTO metrics(name,ts,value,labels) VALUES('replacement',61,8,'{}'); INSERT INTO metrics(name,ts,value,labels) VALUES('rolled',62,9,'{}'); INSERT INTO metrics(metrics) VALUES('flush'); BEGIN; SAVEPOINT catalog_sp; INSERT INTO metrics(name,ts,value,labels) VALUES('savepoint_rolled',63,10,'{}'); ROLLBACK TO catalog_sp; RELEASE catalog_sp; INSERT INTO metrics(name,ts,value,labels) VALUES('savepoint_rolled',64,11,'{}'); COMMIT; INSERT INTO metrics(metrics) VALUES('flush');", Expected::Done))
    } else if i == 5 {
        Some(Action::Query(0, "SELECT COUNT(*) FROM metrics WHERE name=?1", Arguments::One(Argument::Text("replacement")), Expected::First(Row::One(Literal::Integer(1)))))
    } else if i == 6 {
        Some(Action::Query(0, "SELECT COUNT(*) FROM metrics WHERE name=?1", Arguments::One(Argument::Text("rolled")), Expected::First(Row::One(Literal::Integer(1)))))
    } else if i == 7 {
        Some(Action::Query(0, "SELECT COUNT(*) FROM metrics WHERE name=?1", Arguments::One(Argument::Text("savepoint_rolled")), Expected::First(Row::One(Literal::Integer(1)))))
    } else if i == 8 {
        Some(Action::Query(0, "SELECT DISTINCT id FROM metrics_series WHERE name IN ('replacement','rolled','savepoint_rolled')", Arguments::Zero, Expected::Many(3)))
    } else {
        None
    }
}

/// The rows of the catalog follow the transactions that make them: what is done at a place, from 0 on.
pub fn catalog_transactions(i: usize) -> (action: Option<Action>)
    ensures
        action == catalog_transactions_at(i as int),
{
    if i == 0 {
        Some(Action::Open(0, Database::Named("catalog_tx.db")))
    } else if i == 1 {
        Some(Action::Execute(0, "CREATE VIRTUAL TABLE metrics USING timeless_metrics", Arguments::Zero, Expected::Done))
    } else if i == 2 {
        Some(Action::Close(0))
    } else if i == 3 {
        Some(Action::Open(0, Database::Named("catalog_tx.db")))
    } else if i == 4 {
        Some(Action::Batch(0, "BEGIN; INSERT INTO metrics(name,ts,value,labels) VALUES('rolled',60,7,'{}'); ROLLBACK; INSERT INTO metrics(name,ts,value,labels) VALUES('replacement',61,8,'{}'); INSERT INTO metrics(name,ts,value,labels) VALUES('rolled',62,9,'{}'); INSERT INTO metrics(metrics) VALUES('flush'); BEGIN; SAVEPOINT catalog_sp; INSERT INTO metrics(name,ts,value,labels) VALUES('savepoint_rolled',63,10,'{}'); ROLLBACK TO catalog_sp; RELEASE catalog_sp; INSERT INTO metrics(name,ts,value,labels) VALUES('savepoint_rolled',64,11,'{}'); COMMIT; INSERT INTO metrics(metrics) VALUES('flush');", Expected::Done))
    } else if i == 5 {
        Some(Action::Query(0, "SELECT COUNT(*) FROM metrics WHERE name=?1", Arguments::One(Argument::Text("replacement")), Expected::First(Row::One(Literal::Integer(1)))))
    } else if i == 6 {
        Some(Action::Query(0, "SELECT COUNT(*) FROM metrics WHERE name=?1", Arguments::One(Argument::Text("rolled")), Expected::First(Row::One(Literal::Integer(1)))))
    } else if i == 7 {
        Some(Action::Query(0, "SELECT COUNT(*) FROM metrics WHERE name=?1", Arguments::One(Argument::Text("savepoint_rolled")), Expected::First(Row::One(Literal::Integer(1)))))
    } else if i == 8 {
        Some(Action::Query(0, "SELECT DISTINCT id FROM metrics_series WHERE name IN ('replacement','rolled','savepoint_rolled')", Arguments::Zero, Expected::Many(3)))
    } else {
        None
    }
}

/// The script has an action at every place below 15, and none from there on.
pub proof fn distinct_ids_ends(i: int)
    ensures
        distinct_ids_at(i) is Some <==> 0 <= i < 15,
{
}

/// The script has an action at every place below 15, and none from there on.
pub proof fn same_identity_ends(i: int)
    ensures
        same_identity_at(i) is Some <==> 0 <= i < 15,
{
}

/// The script has an action at every place below 10, and none from there on.
pub proof fn refresh_ends(i: int)
    ensures
        refresh_at(i) is Some <==> 0 <= i < 10,
{
}

/// The script has an action at every place below 11, and none from there on.
pub proof fn corrupt_legacy_ends(i: int)
    ensures
        corrupt_legacy_at(i) is Some <==> 0 <= i < 11,
{
}

/// The script has an action at every place below 17, and none from there on.
pub proof fn legacy_migrates_ends(i: int)
    ensures
        legacy_migrates_at(i) is Some <==> 0 <= i < 17,
{
}

/// The script has an action at every place below 9, and none from there on.
pub proof fn catalog_transactions_ends(i: int)
    ensures
        catalog_transactions_at(i) is Some <==> 0 <= i < 9,
{
}

/// How a database of the suite is made, at a place from 0 on: with an empty table, on
/// a connection of its own.
pub open spec fn initialize_at(database: &'static str, i: int) -> Option<Action> {
    if i == 0 {
        Some(Action::Open(0, Database::Named(database)))
    } else if i == 1 {
        Some(
            Action::Execute(
                0,
                "CREATE VIRTUAL TABLE metrics USING timeless_metrics",
                Arguments::Zero,
                Expected::Done,
            ),
        )
    } else if i == 2 {
        Some(Action::Close(0))
    } else {
        None
    }
}

/// How a database of the suite is made, at a place from 0 on.
pub fn initialize(database: &'static str, i: usize) -> (action: Option<Action>)
    ensures
        action == initialize_at(database, i as int),
{
    if i == 0 {
        Some(Action::Open(0, Database::Named(database)))
    } else if i == 1 {
        Some(
            Action::Execute(
                0,
                "CREATE VIRTUAL TABLE metrics USING timeless_metrics",
                Arguments::Zero,
                Expected::Done,
            ),
        )
    } else if i == 2 {
        Some(Action::Close(0))
    } else {
        None
    }
}

/// Every section begins with a fresh database.
pub proof fn sections_begin_fresh(i: int)
    requires
        0 <= i < 3,
    ensures
        distinct_ids_at(i) == initialize_at("distinct.db", i),
        same_identity_at(i) == initialize_at("same.db", i),
        refresh_at(i) == initialize_at("refresh.db", i),
        corrupt_legacy_at(i) == initialize_at("corrupt.db", i),
        legacy_migrates_at(i) == initialize_at("legacy.db", i),
        catalog_transactions_at(i) == initialize_at("catalog_tx.db", i),
{
}

/// A section of the suite.
#[derive(Clone, Copy, Debug, PartialEq, Eq, Structural)]
pub enum Section {
    /// Different series get different identities.
    DistinctIds,
    /// One series has one identity.
    SameIdentity,
    /// Readers see what others write.
    Refresh,
    /// A damaged registry keeps the table closed.
    CorruptLegacy,
    /// An earlier registry is taken over.
    LegacyMigrates,
    /// The catalog follows transactions.
    CatalogTransactions,
}

/// The section at a place, from 0 on: the round, from 1 on, and the section. The
/// gate goes through all sections 3 times, each round in a directory of its own.
pub open spec fn section_at(i: int) -> Option<(int, Section)> {
    if 0 <= i < 18 {
        match section_of(i % 6) {
            Some(section) => Some((i / 6 + 1, section)),
            None => None,
        }
    } else {
        None
    }
}

/// The section of a round at a place, from 0 on.
pub open spec fn section_of(i: int) -> Option<Section> {
    if i == 0 {
        Some(Section::DistinctIds)
    } else if i == 1 {
        Some(Section::SameIdentity)
    } else if i == 2 {
        Some(Section::Refresh)
    } else if i == 3 {
        Some(Section::CorruptLegacy)
    } else if i == 4 {
        Some(Section::LegacyMigrates)
    } else if i == 5 {
        Some(Section::CatalogTransactions)
    } else {
        None
    }
}

fn section_in_round(i: usize) -> (section: Option<Section>)
    ensures
        section == section_of(i as int),
{
    if i == 0 {
        Some(Section::DistinctIds)
    } else if i == 1 {
        Some(Section::SameIdentity)
    } else if i == 2 {
        Some(Section::Refresh)
    } else if i == 3 {
        Some(Section::CorruptLegacy)
    } else if i == 4 {
        Some(Section::LegacyMigrates)
    } else if i == 5 {
        Some(Section::CatalogTransactions)
    } else {
        None
    }
}

/// The section at a place, from 0 on, with its round from 1 on.
pub fn run(i: usize) -> (section: Option<(usize, Section)>)
    ensures
        match (section, section_at(i as int)) {
            (Some(s), Some(t)) => s.0 == t.0 && s.1 == t.1,
            (None, None) => true,
            _ => false,
        },
{
    if i < 18 {
        match section_in_round(i % 6) {
            Some(section) => Some((i / 6 + 1, section)),
            None => None,
        }
    } else {
        None
    }
}

/// Every round goes through every section.
pub proof fn every_round_is_complete(round: int, k: int)
    requires
        1 <= round <= 3,
        0 <= k < 6,
    ensures
        section_at((round - 1) * 6 + k) == Some((round, section_of(k)->0)),
        section_of(k) is Some,
{
}

/// What a section does at a place, from 0 on.
pub open spec fn script_at(section: Section, i: int) -> Option<Action> {
    match section {
        Section::DistinctIds => distinct_ids_at(i),
        Section::SameIdentity => same_identity_at(i),
        Section::Refresh => refresh_at(i),
        Section::CorruptLegacy => corrupt_legacy_at(i),
        Section::LegacyMigrates => legacy_migrates_at(i),
        Section::CatalogTransactions => catalog_transactions_at(i),
    }
}

/// What a section does at a place, from 0 on.
pub fn script(section: Section, i: usize) -> (action: Option<Action>)
    ensures
        action == script_at(section, i as int),
{
    match section {
        Section::DistinctIds => distinct_ids(i),
        Section::SameIdentity => same_identity(i),
        Section::Refresh => refresh(i),
        Section::CorruptLegacy => corrupt_legacy(i),
        Section::LegacyMigrates => legacy_migrates(i),
        Section::CatalogTransactions => catalog_transactions(i),
    }
}

/// What is said when a section has passed.
pub open spec fn passed(section: Section) -> &'static str {
    match section {
        Section::DistinctIds => "test_distinct_series_ids",
        Section::SameIdentity => "test_same_identity_converges",
        Section::Refresh => "test_long_lived_reader_refreshes",
        Section::CorruptLegacy => "test_corrupt_legacy_registry_fails_closed",
        Section::LegacyMigrates => "test_legacy_registry_migrates",
        Section::CatalogTransactions => "test_catalog_rows_follow_transactions",
    }
}

/// What is said when a section has passed.
pub fn pass_text(section: Section) -> (line: &'static str)
    ensures
        line == passed(section),
{
    match section {
        Section::DistinctIds => "test_distinct_series_ids",
        Section::SameIdentity => "test_same_identity_converges",
        Section::Refresh => "test_long_lived_reader_refreshes",
        Section::CorruptLegacy => "test_corrupt_legacy_registry_fails_closed",
        Section::LegacyMigrates => "test_legacy_registry_migrates",
        Section::CatalogTransactions => "test_catalog_rows_follow_transactions",
    }
}

/// The statement by which a worker writes a metric.
pub const INSERT_METRIC: &'static str =
    "INSERT INTO metrics(name,ts,value,labels) VALUES(?1,?2,?3,?4)";

/// The statement by which a worker ends a write.
pub const FLUSH_METRICS: &'static str = "INSERT INTO metrics(metrics) VALUES('flush')";

/// The query by which a worker counts a metric.
pub const COUNT_METRIC: &'static str = "SELECT COUNT(*) FROM metrics WHERE name=?1";

/// The query by which a worker finds out whether it can work at all.
pub const PROBE_METRICS: &'static str = "SELECT COUNT(*) FROM metrics";

/// What a worker is asked for: to write or to count so many metrics, or to end.
#[derive(Clone, Copy, Debug, PartialEq, Eq, Structural)]
pub enum WorkerRequest {
    Write(usize),
    Counts(usize),
    Stop,
}

/// What a worker answers.
#[derive(Clone, Copy, Debug, PartialEq, Eq, Structural)]
pub enum WorkerAnswer {
    Done,
    Counts,
    Error,
    /// Done, and the worker ends.
    Stopped,
}

/// What a worker does next.
#[derive(Clone, Copy, Debug, PartialEq, Eq, Structural)]
pub enum WorkerStep {
    /// It writes the metric at this place.
    Insert(usize),
    /// It ends the write.
    Flush,
    /// It counts the metric at this place.
    Count(usize),
    Answer(WorkerAnswer),
}

/// What a worker does for a request when so many of its steps are done, and the last
/// one failed or not.
pub open spec fn worker_step(request: WorkerRequest, steps: nat, failed: bool) -> WorkerStep {
    match request {
        WorkerRequest::Stop => WorkerStep::Answer(WorkerAnswer::Stopped),
        WorkerRequest::Write(n) => if failed {
            WorkerStep::Answer(WorkerAnswer::Error)
        } else if steps < n {
            WorkerStep::Insert(steps as usize)
        } else if steps == n {
            WorkerStep::Flush
        } else {
            WorkerStep::Answer(WorkerAnswer::Done)
        },
        WorkerRequest::Counts(n) => if failed {
            WorkerStep::Answer(WorkerAnswer::Error)
        } else if steps < n {
            WorkerStep::Count(steps as usize)
        } else {
            WorkerStep::Answer(WorkerAnswer::Counts)
        },
    }
}

/// What a worker does for a request when so many of its steps are done, and the last
/// one failed or not.
pub fn metrics_worker(request: WorkerRequest, steps: usize, failed: bool) -> (step: WorkerStep)
    ensures
        step == worker_step(request, steps as nat, failed),
{
    match request {
        WorkerRequest::Stop => WorkerStep::Answer(WorkerAnswer::Stopped),
        WorkerRequest::Write(n) => if failed {
            WorkerStep::Answer(WorkerAnswer::Error)
        } else if steps < n {
            WorkerStep::Insert(steps)
        } else if steps == n {
            WorkerStep::Flush
        } else {
            WorkerStep::Answer(WorkerAnswer::Done)
        },
        WorkerRequest::Counts(n) => if failed {
            WorkerStep::Answer(WorkerAnswer::Error)
        } else if steps < n {
            WorkerStep::Count(steps)
        } else {
            WorkerStep::Answer(WorkerAnswer::Counts)
        },
    }
}

/// A worker answers a request after a bounded number of steps, and a write is done
/// only when all of its metrics are in and it was ended.
pub proof fn worker_answers(request: WorkerRequest, steps: nat, failed: bool)
    ensures
        request matches WorkerRequest::Write(n) && steps > n ==> worker_step(request, steps, failed)
            is Answer,
        request matches WorkerRequest::Counts(n) && steps >= n ==> worker_step(
            request,
            steps,
            failed,
        ) is Answer,
        failed ==> worker_step(request, steps, failed) is Answer,
        worker_step(request, steps, failed) == WorkerStep::Answer(WorkerAnswer::Done) ==> !failed
            && (request matches WorkerRequest::Write(n) && steps > n),
{
}

} // verus!
