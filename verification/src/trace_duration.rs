//! The evidence for duration bounds: reads that cannot match, before and after the
//! public command that adds the bounds.
use crate::gate;
use crate::gate::lower_text;
use crate::json::copied;
use crate::stats;
use crate::stats::find_stat;
use crate::text::{chars_of, same_text};
use vstd::prelude::*;
use vstd::string::*;

verus! {

/// What is wrong with the name of a table.
#[derive(Clone, Copy, Debug, PartialEq, Eq, Structural)]
pub enum TableError {
    Empty,
    /// It holds something else than ASCII letters, digits and underscores.
    Characters,
}

/// A table name may hold this character.
pub open spec fn is_plain(c: char) -> bool {
    ||| 'a' <= c <= 'z'
    ||| 'A' <= c <= 'Z'
    ||| '0' <= c <= '9'
    ||| c == '_'
}

/// All characters may stand in a table name.
pub open spec fn all_plain(table: Seq<char>) -> bool {
    forall|i: int| 0 <= i < table.len() ==> is_plain(#[trigger] table[i])
}

/// Checks the name of a table.
pub fn validate_table(table: &str) -> (result: Result<(), TableError>)
    ensures
        result == (if table@.len() == 0 {
            Err::<(), TableError>(TableError::Empty)
        } else if !all_plain(table@) {
            Err::<(), TableError>(TableError::Characters)
        } else {
            Ok::<(), TableError>(())
        }),
{
    let chars = chars_of(table);
    if chars.len() == 0 {
        return Err(TableError::Empty);
    }
    let mut i: usize = 0;
    while i < chars.len()
        invariant
            i <= chars@.len(),
            chars@ == table@,
            chars@.len() > 0,
            forall|k: int| 0 <= k < i ==> is_plain(#[trigger] table@[k]),
        decreases chars.len() - i,
    {
        let c = chars[i];
        if !(('a' <= c && c <= 'z') || ('A' <= c && c <= 'Z') || ('0' <= c && c <= '9') || c == '_') {
            assert(!is_plain(table@[i as int]));
            return Err(TableError::Characters);
        }
        i += 1;
    }
    Ok(())
}

/// A valid name needs no quoting: in double quotes it stands as it is.
pub proof fn valid_tables_quote_plainly(table: Seq<char>)
    requires
        all_plain(table),
    ensures
        gate::quoted(table) == seq!['"'] + table + seq!['"'],
    decreases table.len(),
{
    plain_is_not_doubled(table);
}

proof fn plain_is_not_doubled(table: Seq<char>)
    requires
        all_plain(table),
    ensures
        gate::doubled(table) == table,
    decreases table.len(),
{
    if table.len() > 0 {
        let rest = table.drop_last();
        assert forall|i: int| 0 <= i < rest.len() implies is_plain(#[trigger] rest[i]) by {
            assert(is_plain(table[i]));
        }
        plain_is_not_doubled(rest);
        assert(is_plain(table[table.len() - 1]));
        assert(rest.push(table.last()) =~= table);
    } else {
        assert(gate::doubled(table) =~= table);
    }
}

/// The read that cannot match, with the service and the duration left open.
pub open spec fn query_text(table: Seq<char>) -> Seq<char> {
    "SELECT trace_id,span_id,parent_span_id,name,service,kind,status,start_ts,duration_ns,attributes,status_description,events,resource,instrumentation_scope FROM \""@
        + table
        + "\" WHERE service=?1 AND duration_ns>=?2 ORDER BY start_ts DESC,span_id DESC LIMIT 20"@
}

/// The read that cannot match.
pub fn miss_query(table: &str) -> (sql: String)
    ensures
        sql@ == query_text(table@),
{
    let mut sql = copied(
        "SELECT trace_id,span_id,parent_span_id,name,service,kind,status,start_ts,duration_ns,attributes,status_description,events,resource,instrumentation_scope FROM \"",
    );
    sql.append(table);
    sql.append(
        "\" WHERE service=?1 AND duration_ns>=?2 ORDER BY start_ts DESC,span_id DESC LIMIT 20",
    );
    sql
}

/// The command that adds the bounds.
pub open spec fn command_text(table: Seq<char>) -> Seq<char> {
    "INSERT INTO \""@ + table + "\"(\""@ + table + "\") VALUES('optimize')"@
}

/// The command that adds the bounds.
pub fn optimize_command(table: &str) -> (sql: String)
    ensures
        sql@ == command_text(table@),
{
    let mut sql = copied("INSERT INTO \"");
    sql.append(table);
    sql.append("\"(\"");
    sql.append(table);
    sql.append("\") VALUES('optimize')");
    sql
}

/// Whether the journal is the one that was asked for.
pub fn is_wal(mode: &str) -> (yes: bool)
    ensures
        yes == (gate::lowered(mode@) == "wal"@),
{
    let low = lower_text(mode);
    same_text(&low, "wal")
}

/// What is wrong with the evidence.
#[derive(Clone, Copy, Debug, PartialEq, Eq)]
pub enum EvidenceError {
    /// There are no measurements to take.
    Iterations,
    /// The statistics have no integer under this key.
    Omitted(&'static str),
    /// There are no spans.
    EmptyFixture,
    /// There is nothing to add bounds to.
    NoLegacyBlocks,
    /// The command left blocks without bounds.
    LegacyBlocksLeft,
    /// Not every block has bounds.
    UnboundedBlocks,
    /// The read matched so many spans.
    Matched(usize),
    /// Without bounds, the read decoded no candidates.
    LegacyDidNotDecode,
    /// With bounds, the read still considered or decoded blocks.
    BoundedDecoded,
}

/// The value under a key, or that there is none.
pub open spec fn stat_value(values: Seq<(String, i64)>, key: &'static str) -> Result<
    i64,
    EvidenceError,
> {
    match stats::stat_of(values, key@) {
        Some(n) => Ok(n),
        None => Err(EvidenceError::Omitted(key)),
    }
}

fn stat(values: &Vec<(String, i64)>, key: &'static str) -> (value: Result<i64, EvidenceError>)
    ensures
        value == stat_value(values@, key),
{
    match find_stat(values, key) {
        Some(n) => Ok(n),
        None => Err(EvidenceError::Omitted(key)),
    }
}

/// What becomes of the statistics before the measurements.
pub open spec fn initial_outcome(initial: Seq<(String, i64)>) -> Result<(), EvidenceError> {
    match stat_value(initial, "total_spans") {
        Err(e) => Err(e),
        Ok(spans) => if spans <= 0 {
            Err(EvidenceError::EmptyFixture)
        } else {
            match stat_value(initial, "duration_unknown_blocks") {
                Err(e) => Err(e),
                Ok(unknown) => if unknown <= 0 {
                    Err(EvidenceError::NoLegacyBlocks)
                } else {
                    Ok(())
                },
            }
        },
    }
}

/// Checks the statistics before the measurements: there are spans, and blocks
/// without bounds.
pub fn check_initial(initial: &Vec<(String, i64)>) -> (result: Result<(), EvidenceError>)
    ensures
        result == initial_outcome(initial@),
{
    match stat(initial, "total_spans") {
        Err(e) => Err(e),
        Ok(spans) => if spans <= 0 {
            Err(EvidenceError::EmptyFixture)
        } else {
            match stat(initial, "duration_unknown_blocks") {
                Err(e) => Err(e),
                Ok(unknown) => if unknown <= 0 {
                    Err(EvidenceError::NoLegacyBlocks)
                } else {
                    Ok(())
                },
            }
        },
    }
}

/// What becomes of the statistics after the command.
pub open spec fn optimized_outcome(after: Seq<(String, i64)>) -> Result<(), EvidenceError> {
    match stat_value(after, "duration_unknown_blocks") {
        Err(e) => Err(e),
        Ok(unknown) => if unknown != 0 {
            Err(EvidenceError::LegacyBlocksLeft)
        } else {
            match stat_value(after, "duration_bounded_blocks") {
                Err(e) => Err(e),
                Ok(bounded) => match stat_value(after, "blocks") {
                    Err(e) => Err(e),
                    Ok(blocks) => if bounded != blocks {
                        Err(EvidenceError::UnboundedBlocks)
                    } else {
                        Ok(())
                    },
                },
            }
        },
    }
}

/// Checks the statistics after the command: every block has bounds.
pub fn check_optimized(after: &Vec<(String, i64)>) -> (result: Result<(), EvidenceError>)
    ensures
        result == optimized_outcome(after@),
{
    match stat(after, "duration_unknown_blocks") {
        Err(e) => Err(e),
        Ok(unknown) => if unknown != 0 {
            Err(EvidenceError::LegacyBlocksLeft)
        } else {
            match stat(after, "duration_bounded_blocks") {
                Err(e) => Err(e),
                Ok(bounded) => match stat(after, "blocks") {
                    Err(e) => Err(e),
                    Ok(blocks) => if bounded != blocks {
                        Err(EvidenceError::UnboundedBlocks)
                    } else {
                        Ok(())
                    },
                },
            }
        },
    }
}

/// Whether a counter moved between two readings.
pub open spec fn moved(
    before: Seq<(String, i64)>,
    after: Seq<(String, i64)>,
    key: &'static str,
) -> Result<bool, EvidenceError> {
    match stat_value(after, key) {
        Err(e) => Err(e),
        Ok(b) => match stat_value(before, key) {
            Err(e) => Err(e),
            Ok(a) => Ok(a != b),
        },
    }
}

fn has_moved(before: &Vec<(String, i64)>, after: &Vec<(String, i64)>, key: &'static str) -> (result:
    Result<bool, EvidenceError>)
    ensures
        result == moved(before@, after@, key),
{
    match stat(after, key) {
        Err(e) => Err(e),
        Ok(b) => match stat(before, key) {
            Err(e) => Err(e),
            Ok(a) => Ok(a != b),
        },
    }
}

/// What becomes of the work of the reads without bounds: both counters must move.
pub open spec fn legacy_outcome(before: Seq<(String, i64)>, after: Seq<(String, i64)>) -> Result<
    (),
    EvidenceError,
> {
    match moved(before, after, "query_candidate_blocks") {
        Err(e) => Err(e),
        Ok(candidates) => if !candidates {
            Err(EvidenceError::LegacyDidNotDecode)
        } else {
            match moved(before, after, "query_decoded_spans") {
                Err(e) => Err(e),
                Ok(decoded) => if !decoded {
                    Err(EvidenceError::LegacyDidNotDecode)
                } else {
                    Ok(())
                },
            }
        },
    }
}

/// Checks the work of the reads without bounds: they decoded candidates.
pub fn check_legacy_work(before: &Vec<(String, i64)>, after: &Vec<(String, i64)>) -> (result: Result<
    (),
    EvidenceError,
>)
    ensures
        result == legacy_outcome(before@, after@),
{
    match has_moved(before, after, "query_candidate_blocks") {
        Err(e) => Err(e),
        Ok(candidates) => if !candidates {
            Err(EvidenceError::LegacyDidNotDecode)
        } else {
            match has_moved(before, after, "query_decoded_spans") {
                Err(e) => Err(e),
                Ok(decoded) => if !decoded {
                    Err(EvidenceError::LegacyDidNotDecode)
                } else {
                    Ok(())
                },
            }
        },
    }
}

/// What becomes of the work of the reads with bounds: neither counter may move.
pub open spec fn bounded_outcome(before: Seq<(String, i64)>, after: Seq<(String, i64)>) -> Result<
    (),
    EvidenceError,
> {
    match moved(before, after, "query_candidate_blocks") {
        Err(e) => Err(e),
        Ok(candidates) => if candidates {
            Err(EvidenceError::BoundedDecoded)
        } else {
            match moved(before, after, "query_decoded_spans") {
                Err(e) => Err(e),
                Ok(decoded) => if decoded {
                    Err(EvidenceError::BoundedDecoded)
                } else {
                    Ok(())
                },
            }
        },
    }
}

/// Checks the work of the reads with bounds: they considered and decoded nothing.
pub fn check_bounded_work(before: &Vec<(String, i64)>, after: &Vec<(String, i64)>) -> (result:
    Result<(), EvidenceError>)
    ensures
        result == bounded_outcome(before@, after@),
{
    match has_moved(before, after, "query_candidate_blocks") {
        Err(e) => Err(e),
        Ok(candidates) => if candidates {
            Err(EvidenceError::BoundedDecoded)
        } else {
            match has_moved(before, after, "query_decoded_spans") {
                Err(e) => Err(e),
                Ok(decoded) => if decoded {
                    Err(EvidenceError::BoundedDecoded)
                } else {
                    Ok(())
                },
            }
        },
    }
}

/// No readings are evidence for both: what shows that reads decode without bounds
/// cannot show that they do not with them.
pub proof fn evidence_is_exclusive(before: Seq<(String, i64)>, after: Seq<(String, i64)>)
    ensures
        !(legacy_outcome(before, after) is Ok && bounded_outcome(before, after) is Ok),
{
}

/// Checks what a measurement takes and gives: there are iterations, and no read
/// matched.
pub fn check_measurement(iterations: usize, matched: usize) -> (result: Result<(), EvidenceError>)
    ensures
        result == (if iterations == 0 {
            Err::<(), EvidenceError>(EvidenceError::Iterations)
        } else if matched != 0 {
            Err::<(), EvidenceError>(EvidenceError::Matched(matched))
        } else {
            Ok::<(), EvidenceError>(())
        }),
{
    if iterations == 0 {
        Err(EvidenceError::Iterations)
    } else if matched != 0 {
        Err(EvidenceError::Matched(matched))
    } else {
        Ok(())
    }
}

/// The sum of three sizes, held to 64 bits.
pub fn total_bytes(main: u64, wal: u64, shm: u64) -> (total: u64)
    ensures
        total == (if main + wal + shm > u64::MAX {
            u64::MAX as int
        } else {
            main + wal + shm
        }),
{
    let sum: u128 = main as u128 + wal as u128 + shm as u128;
    if sum > u64::MAX as u128 {
        u64::MAX
    } else {
        sum as u64
    }
}

} // verus!
