//! How the trace fixture is built and checked, step by step.
use crate::documents::{self, document};
use crate::json::{self, held_items, held_member, Json, Tree};
use crate::stats::{self, stat_i64};
use crate::text::{self, lines_of, parse_u64, same_text, strip_prefix, word_of};
use crate::trace_fixture::{self, fixture_extent, BASE_NS};
use vstd::prelude::*;
use vstd::string::*;

verus! {

pub const JOURNAL_SQL: &'static str = "PRAGMA journal_mode=WAL";

pub const CREATE_SQL: &'static str = "CREATE VIRTUAL TABLE traces USING timeless_traces";

pub const CREATE_INDEXED_SQL: &'static str =
    "CREATE VIRTUAL TABLE traces USING timeless_traces(\
           attribute_indexes='[{\"scope\":\"span\",\"path\":\"/count\"},{\"scope\":\"span\",\"path\":\"/bool\"}]'\
         )";

pub const INSERT_SQL: &'static str = "INSERT INTO traces(traces) VALUES (?1)";

pub const OPTIMIZE_SQL: &'static str = "INSERT INTO traces(traces) VALUES ('optimize')";

pub const CHECKPOINT_SQL: &'static str = "PRAGMA wal_checkpoint(TRUNCATE)";

pub const EXTENT_SQL: &'static str = "SELECT count(*), min(start_ts), max(start_ts) FROM traces";

pub const PROBE_SQL: &'static str =
    "SELECT service,attributes,events,resource,instrumentation_scope,links,trace_state,trace_flags, \
                dropped_attributes_count,dropped_events_count,dropped_links_count,resource_schema_url, \
                scope_schema_url,resource_dropped_attributes_count,scope_dropped_attributes_count \
           FROM traces ORDER BY start_ts LIMIT 1";

/// What is to be done next.
#[derive(Clone, Copy, Debug)]
pub enum FixtureAction {
    /// Open the database with the extension.
    Open,
    /// Ask for one text.
    Ask(&'static str),
    /// Execute a statement.
    Execute(&'static str),
    /// Insert a batch of the fixture.
    Insert(usize),
    /// Read the counters of the extension.
    ReadStats,
    /// Measure the files of the database.
    MeasureFiles,
    /// Ask for three integers.
    AskThree(&'static str),
    /// Close the database and open it again.
    Reopen,
    /// Read the first span.
    Probe(&'static str),
    /// Close the database.
    Close,
}

/// Step `step` of building a fixture of some batches. The batches go in one by
/// one; all blocks are then optimized and written back before the database is
/// opened again and read.
pub open spec fn fixture_action(batches: int, attribute_indexes: bool, step: int) -> Option<
    FixtureAction,
> {
    if step == 0 {
        Some(FixtureAction::Open)
    } else if step == 1 {
        Some(FixtureAction::Ask(JOURNAL_SQL))
    } else if step == 2 {
        Some(
            FixtureAction::Execute(
                if attribute_indexes {
                    CREATE_INDEXED_SQL
                } else {
                    CREATE_SQL
                },
            ),
        )
    } else if 3 <= step < 3 + batches {
        Some(FixtureAction::Insert((step - 3) as usize))
    } else if step == batches + 3 {
        Some(FixtureAction::ReadStats)
    } else if step == batches + 4 {
        Some(FixtureAction::MeasureFiles)
    } else if step == batches + 5 {
        Some(FixtureAction::Execute(OPTIMIZE_SQL))
    } else if step == batches + 6 {
        Some(FixtureAction::ReadStats)
    } else if step == batches + 7 {
        Some(FixtureAction::MeasureFiles)
    } else if step == batches + 8 {
        Some(FixtureAction::AskThree(CHECKPOINT_SQL))
    } else if step == batches + 9 {
        Some(FixtureAction::Reopen)
    } else if step == batches + 10 {
        Some(FixtureAction::AskThree(EXTENT_SQL))
    } else if step == batches + 11 {
        Some(FixtureAction::Probe(PROBE_SQL))
    } else if step == batches + 12 {
        Some(FixtureAction::ReadStats)
    } else if step == batches + 13 {
        Some(FixtureAction::Close)
    } else {
        None
    }
}

/// Step `step` of building a fixture of some batches.
pub fn build_fixture(batches: usize, attribute_indexes: bool, step: usize) -> (action: Option<
    FixtureAction,
>)
    requires
        batches + 13 <= usize::MAX,
    ensures
        action == fixture_action(batches as int, attribute_indexes, step as int),
{
    if step == 0 {
        Some(FixtureAction::Open)
    } else if step == 1 {
        Some(FixtureAction::Ask(JOURNAL_SQL))
    } else if step == 2 {
        Some(
            FixtureAction::Execute(
                if attribute_indexes {
                    CREATE_INDEXED_SQL
                } else {
                    CREATE_SQL
                },
            ),
        )
    } else if step - 3 < batches {
        Some(FixtureAction::Insert(step - 3))
    } else if step == batches + 3 {
        Some(FixtureAction::ReadStats)
    } else if step == batches + 4 {
        Some(FixtureAction::MeasureFiles)
    } else if step == batches + 5 {
        Some(FixtureAction::Execute(OPTIMIZE_SQL))
    } else if step == batches + 6 {
        Some(FixtureAction::ReadStats)
    } else if step == batches + 7 {
        Some(FixtureAction::MeasureFiles)
    } else if step == batches + 8 {
        Some(FixtureAction::AskThree(CHECKPOINT_SQL))
    } else if step == batches + 9 {
        Some(FixtureAction::Reopen)
    } else if step == batches + 10 {
        Some(FixtureAction::AskThree(EXTENT_SQL))
    } else if step == batches + 11 {
        Some(FixtureAction::Probe(PROBE_SQL))
    } else if step == batches + 12 {
        Some(FixtureAction::ReadStats)
    } else if step == batches + 13 {
        Some(FixtureAction::Close)
    } else {
        None
    }
}

/// Every batch is inserted exactly once, in order, and before the optimization.
pub proof fn batches_go_in_once(batches: int, attribute_indexes: bool, step: int)
    requires
        0 <= batches <= usize::MAX,
        0 <= step,
    ensures
        fixture_action(batches, attribute_indexes, step) matches Some(FixtureAction::Insert(k))
            ==> k < batches && step == k + 3,
        fixture_action(batches, attribute_indexes, step) == Some(
            FixtureAction::Execute(OPTIMIZE_SQL),
        ) && batches + 5 == step ==> forall|k: int|
            0 <= k < batches ==> #[trigger] fixture_action(batches, attribute_indexes, k + 3) == Some(
                FixtureAction::Insert(k as usize),
            ),
{
}

/// The first span as the probe reads it. Five of its columns are documents.
pub struct RichProbe {
    pub service: String,
    pub attributes: String,
    pub events: String,
    pub resource: String,
    pub scope: String,
    pub links: String,
    pub trace_state: String,
    pub trace_flags: i64,
    pub dropped_attributes: i64,
    pub dropped_events: i64,
    pub dropped_links: i64,
    pub resource_schema_url: String,
    pub scope_schema_url: String,
    pub resource_dropped_attributes: i64,
    pub scope_dropped_attributes: i64,
}

/// A document of the first span.
#[derive(Clone, Copy, Debug, PartialEq, Eq, Structural)]
pub enum ProbePart {
    Attributes,
    Events,
    Resource,
    Scope,
    Links,
}

/// What stands under two keys.
pub open spec fn deep_member(held: Tree, first: Seq<char>, second: Seq<char>) -> Option<Tree> {
    match json::tree_member(held, first) {
        Some(inner) => json::tree_member(inner, second),
        None => None,
    }
}

/// The first member of an array, if it has one.
pub open spec fn first_item(held: Tree) -> Option<Tree> {
    match json::tree_items(held) {
        Some(list) => if list.len() > 0 {
            Some(list[0])
        } else {
            None
        },
        None => None,
    }
}

/// A document of the first span holds what it was written with.
pub open spec fn part_kept(part: ProbePart, held: Tree) -> bool {
    match part {
        ProbePart::Attributes => deep_member(held, "nested"@, "unicode"@) == Some(Tree::Text("空🔥"@)),
        ProbePart::Events => first_item(held) matches Some(event) && json::tree_member(
            event,
            "name"@,
        ) == Some(Tree::Text("exception"@)),
        ProbePart::Resource => json::tree_member(held, "deployment.environment"@) == Some(
            Tree::Text("baseline"@),
        ),
        ProbePart::Scope => json::tree_member(held, "name"@) == Some(Tree::Text("trace-baseline"@))
            && deep_member(held, "attributes"@, "debug"@) == Some(Tree::Bool(false)),
        ProbePart::Links => first_item(held) matches Some(link) && deep_member(
            link,
            "attributes"@,
            "reason"@,
        ) == Some(Tree::Text("baseline"@)),
    }
}

fn has_text(value: &Json, key: &str, text: &str) -> (yes: bool)
    ensures
        yes == (json::tree_member(json::tree(*value), key@) == Some(Tree::Text(text@))),
{
    match held_member(value, key) {
        Some(v) => json::text_is(v, text),
        None => false,
    }
}

fn has_deep_text(value: &Json, first: &str, second: &str, text: &str) -> (yes: bool)
    ensures
        yes == (deep_member(json::tree(*value), first@, second@) == Some(Tree::Text(text@))),
{
    match held_member(value, first) {
        Some(v) => has_text(v, second, text),
        None => false,
    }
}

fn has_deep_denial(value: &Json, first: &str, second: &str) -> (yes: bool)
    ensures
        yes == (deep_member(json::tree(*value), first@, second@) == Some(Tree::Bool(false))),
{
    match held_member(value, first) {
        Some(inner) => match held_member(inner, second) {
            Some(Json::Bool(b)) => !*b,
            _ => false,
        },
        None => false,
    }
}

fn first_of(value: &Json) -> (found: Option<&Json>)
    ensures
        first_item(json::tree(*value)) == json::tree_behind(found),
{
    match held_items(value) {
        Some(list) => if list.len() > 0 {
            Some(&list[0])
        } else {
            None
        },
        None => None,
    }
}

/// Whether a document of the first span holds what it was written with.
pub fn keeps_part(part: ProbePart, value: &Json) -> (yes: bool)
    ensures
        yes == part_kept(part, json::tree(*value)),
{
    match part {
        ProbePart::Attributes => has_deep_text(value, "nested", "unicode", "空🔥"),
        ProbePart::Events => match first_of(value) {
            Some(event) => has_text(event, "name", "exception"),
            None => false,
        },
        ProbePart::Resource => has_text(value, "deployment.environment", "baseline"),
        ProbePart::Scope => has_text(value, "name", "trace-baseline") && has_deep_denial(
            value,
            "attributes",
            "debug",
        ),
        ProbePart::Links => match first_of(value) {
            Some(link) => has_deep_text(link, "attributes", "reason", "baseline"),
            None => false,
        },
    }
}

/// What did not come back of the first span.
#[derive(Clone, Copy, Debug, PartialEq, Eq, Structural)]
pub enum ProbeFault {
    Service,
    /// A part is no document.
    Unreadable(ProbePart),
    /// A part holds something else.
    Changed(ProbePart),
    /// The trace state or the trace flags.
    State,
    /// What was dropped of the span.
    Dropped,
    ResourceSchema,
    ScopeSchema,
    /// What was dropped of the resource or of the scope.
    OuterDropped,
}

/// What is wrong with a document of the first span, if anything.
pub open spec fn part_fault(part: ProbePart, document: Seq<char>) -> Option<ProbeFault> {
    match documents::document_tree(document) {
        None => Some(ProbeFault::Unreadable(part)),
        Some(held) => if part_kept(part, held) {
            None
        } else {
            Some(ProbeFault::Changed(part))
        },
    }
}

fn check_part(part: ProbePart, text: &str) -> (fault: Option<ProbeFault>)
    ensures
        fault == part_fault(part, text@),
{
    match document(text) {
        None => Some(ProbeFault::Unreadable(part)),
        Some(value) => if keeps_part(part, &value) {
            None
        } else {
            Some(ProbeFault::Changed(part))
        },
    }
}

/// What a check found, or else what the next one finds.
pub open spec fn or_else(first: Option<ProbeFault>, next: Option<ProbeFault>) -> Option<ProbeFault> {
    match first {
        Some(e) => Some(e),
        None => next,
    }
}

/// The fault, if something is not kept.
pub open spec fn unless(kept: bool, fault: ProbeFault) -> Option<ProbeFault> {
    if kept {
        None
    } else {
        Some(fault)
    }
}

impl RichProbe {
    /// The first thing that the first span of the fixture was written with and that
    /// did not come back, if there is one.
    pub open spec fn fault(&self) -> Option<ProbeFault> {
        or_else(unless(self.service@ == "bench"@, ProbeFault::Service),
            or_else(self.document_fault(), self.column_fault()))
    }

    /// The first document that did not come back.
    pub open spec fn document_fault(&self) -> Option<ProbeFault> {
        or_else(part_fault(ProbePart::Attributes, self.attributes@),
            or_else(part_fault(ProbePart::Events, self.events@),
                or_else(part_fault(ProbePart::Resource, self.resource@),
                    or_else(part_fault(ProbePart::Scope, self.scope@),
                        part_fault(ProbePart::Links, self.links@)))))
    }

    /// The first of the other columns that did not come back.
    pub open spec fn column_fault(&self) -> Option<ProbeFault> {
        if self.trace_state@ != "bench=root"@ || self.trace_flags != u32::MAX {
            Some(ProbeFault::State)
        } else if self.dropped_attributes != 1 || self.dropped_events != 2 || self.dropped_links
            != 3 {
            Some(ProbeFault::Dropped)
        } else if self.resource_schema_url@ != "https://example.test/resource/1"@ {
            Some(ProbeFault::ResourceSchema)
        } else if self.scope_schema_url@ != "https://example.test/scope/2"@ {
            Some(ProbeFault::ScopeSchema)
        } else if self.resource_dropped_attributes != 4 || self.scope_dropped_attributes != 5 {
            Some(ProbeFault::OuterDropped)
        } else {
            None
        }
    }

    fn check_parts(&self) -> (fault: Option<ProbeFault>)
        ensures
            fault == self.document_fault(),
    {
        if let Some(e) = check_part(ProbePart::Attributes, &self.attributes) {
            return Some(e);
        }
        if let Some(e) = check_part(ProbePart::Events, &self.events) {
            return Some(e);
        }
        if let Some(e) = check_part(ProbePart::Resource, &self.resource) {
            return Some(e);
        }
        if let Some(e) = check_part(ProbePart::Scope, &self.scope) {
            return Some(e);
        }
        check_part(ProbePart::Links, &self.links)
    }

    /// Checks that everything that the first span was written with came back.
    pub fn check(&self) -> (fault: Option<ProbeFault>)
        ensures
            fault == self.fault(),
    {
        if !same_text(&self.service, "bench") {
            return Some(ProbeFault::Service);
        }
        if let Some(e) = self.check_parts() {
            return Some(e);
        }
        if !same_text(&self.trace_state, "bench=root") || self.trace_flags != u32::MAX as i64 {
            Some(ProbeFault::State)
        } else if self.dropped_attributes != 1 || self.dropped_events != 2 || self.dropped_links != 3 {
            Some(ProbeFault::Dropped)
        } else if !same_text(&self.resource_schema_url, "https://example.test/resource/1") {
            Some(ProbeFault::ResourceSchema)
        } else if !same_text(&self.scope_schema_url, "https://example.test/scope/2") {
            Some(ProbeFault::ScopeSchema)
        } else if self.resource_dropped_attributes != 4 || self.scope_dropped_attributes != 5 {
            Some(ProbeFault::OuterDropped)
        } else {
            None
        }
    }
}

/// What a step gave back.
pub enum FixtureEvent {
    Done,
    Stats(Json),
    Three(i64, i64, i64),
    Probed(RichProbe),
}

/// Why building the fixture stops.
#[derive(Clone, Copy, Debug, PartialEq, Eq, Structural)]
pub enum FixtureFault {
    NoRawBlocks,
    RawBlocksLeft(i64),
    SpanCount(i64),
    TimeRange,
    Probe(ProbeFault),
}

/// Why an event stops the building, if it does. The counters after the
/// optimization must show no raw block; the extent must be that of the fixture;
/// the first span must have come back whole.
pub open spec fn event_fault(batches: int, step: int, event: FixtureEvent) -> Option<FixtureFault> {
    match event {
        FixtureEvent::Stats(counters) => if step == batches + 6 {
            match stats::json_stat(counters, "raw_blocks"@) {
                None => Some(FixtureFault::NoRawBlocks),
                Some(n) => if n != 0 {
                    Some(FixtureFault::RawBlocksLeft(n))
                } else {
                    None
                },
            }
        } else {
            None
        },
        FixtureEvent::Three(count, minimum, maximum) => if step == batches + 10 {
            if count != batches * trace_fixture::BATCH_SPANS {
                Some(FixtureFault::SpanCount(count))
            } else if minimum != BASE_NS || maximum != trace_fixture::last_start(batches) {
                Some(FixtureFault::TimeRange)
            } else {
                None
            }
        } else {
            None
        },
        FixtureEvent::Probed(probe) => match probe.fault() {
            Some(e) => Some(FixtureFault::Probe(e)),
            None => None,
        },
        FixtureEvent::Done => None,
    }
}

/// Checks what a step gave back.
pub fn accept_event(batches: usize, step: usize, event: &FixtureEvent) -> (result: Result<
    (),
    FixtureFault,
>)
    requires
        batches + 13 <= usize::MAX,
        trace_fixture::extent_fits(batches as int),
    ensures
        result == (match event_fault(batches as int, step as int, *event) {
            Some(f) => Err::<(), FixtureFault>(f),
            None => Ok(()),
        }),
{
    match event {
        FixtureEvent::Stats(counters) => {
            if step == batches + 6 {
                match stat_i64(counters, "raw_blocks") {
                    None => {
                        return Err(FixtureFault::NoRawBlocks);
                    },
                    Some(n) => {
                        if n != 0 {
                            return Err(FixtureFault::RawBlocksLeft(n));
                        }
                    },
                }
            }
        },
        FixtureEvent::Three(count, minimum, maximum) => {
            if step == batches + 10 {
                let (spans, stop) = fixture_extent(batches);
                if *count < 0 || *count as u64 != spans as u64 {
                    return Err(FixtureFault::SpanCount(*count));
                }
                if *minimum != BASE_NS || *maximum != stop {
                    return Err(FixtureFault::TimeRange);
                }
            }
        },
        FixtureEvent::Probed(probe) => {
            if let Some(e) = probe.check() {
                return Err(FixtureFault::Probe(e));
            }
        },
        FixtureEvent::Done => {},
    }
    Ok(())
}

/// The blocks that are compressed: all but the raw ones. Nothing where a counter
/// is missing.
pub fn compressed_blocks(counters: &Json) -> (blocks: Option<i128>)
    ensures
        blocks == (match (
            stats::json_stat(*counters, "blocks"@),
            stats::json_stat(*counters, "raw_blocks"@),
        ) {
            (Some(all), Some(raw)) => Some((all - raw) as i128),
            _ => None,
        }),
{
    match (stat_i64(counters, "blocks"), stat_i64(counters, "raw_blocks")) {
        (Some(all), Some(raw)) => Some(all as i128 - raw as i128),
        _ => None,
    }
}

/// What a line of a process status says of one measure of memory.
#[derive(Clone, Copy, Debug, PartialEq, Eq, Structural)]
pub enum MemoryValue {
    Absent,
    Blank,
    Unreadable,
    Kib(u64),
}

/// What a line says of a measure: nothing where the prefix is missing, else the
/// number in its first word.
pub open spec fn memory_at(line: Seq<char>, prefix: Seq<char>) -> MemoryValue {
    match text::behind(line, prefix) {
        None => MemoryValue::Absent,
        Some(rest) => if text::first_word(rest).len() == 0 {
            MemoryValue::Blank
        } else {
            match text::unsigned_value(text::first_word(rest)) {
                Some(n) => MemoryValue::Kib(n as u64),
                None => MemoryValue::Unreadable,
            }
        },
    }
}

/// What a line of a process status says of one measure of memory.
pub fn memory_value(line: &str, prefix: &str) -> (value: MemoryValue)
    ensures
        value == memory_at(line@, prefix@),
{
    match strip_prefix(line, prefix) {
        None => MemoryValue::Absent,
        Some(rest) => {
            let word = word_of(&rest);
            let chars = text::chars_of(&word);
            if chars.len() == 0 {
                MemoryValue::Blank
            } else {
                match parse_u64(&word) {
                    Some(n) => MemoryValue::Kib(n),
                    None => MemoryValue::Unreadable,
                }
            }
        },
    }
}

/// The memory of a process: what is resident, and the most that ever was.
#[derive(Clone, Copy, Debug, PartialEq, Eq, Structural)]
pub struct Memory {
    pub rss_kib: Option<u64>,
    pub hwm_kib: Option<u64>,
}

/// The memory after some lines of a status; nothing where a measure has no
/// readable number. A later line replaces an earlier one.
pub open spec fn memory_of(lines: Seq<Seq<char>>) -> Option<Memory>
    decreases lines.len(),
{
    if lines.len() == 0 {
        Some(Memory { rss_kib: None, hwm_kib: None })
    } else {
        match memory_of(lines.drop_last()) {
            None => None,
            Some(before) => {
                let rss = memory_at(lines.last(), "VmRSS:"@);
                let hwm = memory_at(lines.last(), "VmHWM:"@);
                if unreadable(rss) || unreadable(hwm) {
                    None
                } else {
                    Some(
                        Memory {
                            rss_kib: newer(before.rss_kib, rss),
                            hwm_kib: newer(before.hwm_kib, hwm),
                        },
                    )
                }
            },
        }
    }
}

/// A measure is there without a readable number.
pub open spec fn unreadable(value: MemoryValue) -> bool {
    value is Blank || value is Unreadable
}

/// The newer of two measures.
pub open spec fn newer(before: Option<u64>, value: MemoryValue) -> Option<u64> {
    match value {
        MemoryValue::Kib(n) => Some(n),
        _ => before,
    }
}

proof fn unreadable_memory_persists(lines: Seq<Seq<char>>, k: int)
    requires
        0 <= k <= lines.len(),
        memory_of(lines.take(k)) is None,
    ensures
        memory_of(lines) is None,
    decreases lines.len() - k,
{
    if k == lines.len() {
        assert(lines.take(k) =~= lines);
    } else {
        assert(lines.take(k + 1).drop_last() =~= lines.take(k));
        unreadable_memory_persists(lines, k + 1);
    }
}

/// The memory of a process, from the text of its status.
pub fn process_memory(status: &str) -> (memory: Option<Memory>)
    ensures
        memory == memory_of(text::lines(status@)),
{
    let list = lines_of(status);
    let ghost all = text::lines(status@);
    let mut memory = Memory { rss_kib: None, hwm_kib: None };
    let mut i: usize = 0;
    assert(all.take(0).len() == 0);
    while i < list.len()
        invariant
            i <= list@.len(),
            all == text::lines(status@),
            text::texts(list@) == all,
            memory_of(all.take(i as int)) == Some(memory),
        decreases list.len() - i,
    {
        assert(all.take(i + 1).drop_last() =~= all.take(i as int));
        assert(all[i as int] == list@[i as int]@);
        assert(all.take(i + 1).last() == list@[i as int]@);
        let rss = memory_value(&list[i], "VmRSS:");
        let hwm = memory_value(&list[i], "VmHWM:");
        match rss {
            MemoryValue::Blank | MemoryValue::Unreadable => {
                proof {
                    unreadable_memory_persists(all, i + 1);
                }
                return None;
            },
            MemoryValue::Kib(n) => {
                memory = Memory { rss_kib: Some(n), hwm_kib: memory.hwm_kib };
            },
            MemoryValue::Absent => {},
        }
        match hwm {
            MemoryValue::Blank | MemoryValue::Unreadable => {
                proof {
                    unreadable_memory_persists(all, i + 1);
                }
                return None;
            },
            MemoryValue::Kib(n) => {
                memory = Memory { rss_kib: memory.rss_kib, hwm_kib: Some(n) };
            },
            MemoryValue::Absent => {},
        }
        i += 1;
    }
    assert(all.take(i as int) =~= all);
    Some(memory)
}

/// The first readable peak among lines.
pub open spec fn first_peak(lines: Seq<Seq<char>>) -> Option<u64>
    decreases lines.len(),
{
    if lines.len() == 0 {
        None
    } else {
        match memory_at(lines[0], "VmHWM:"@) {
            MemoryValue::Kib(n) => Some(n),
            _ => first_peak(lines.drop_first()),
        }
    }
}

/// The most memory that a process ever used, where its status says so.
pub fn rss_hwm_kib(status: &str) -> (peak: Option<u64>)
    ensures
        peak == first_peak(text::lines(status@)),
{
    let list = lines_of(status);
    let ghost all = text::lines(status@);
    let mut i: usize = 0;
    assert(all.skip(0) =~= all);
    while i < list.len()
        invariant
            i <= list@.len(),
            all == text::lines(status@),
            text::texts(list@) == all,
            first_peak(all) == first_peak(all.skip(i as int)),
        decreases list.len() - i,
    {
        assert(all[i as int] == list@[i as int]@);
        assert(all.skip(i as int)[0] == list@[i as int]@);
        assert(all.skip(i as int).drop_first() =~= all.skip(i + 1));
        if let MemoryValue::Kib(n) = memory_value(&list[i], "VmHWM:") {
            return Some(n);
        }
        i += 1;
    }
    None
}

} // verus!
