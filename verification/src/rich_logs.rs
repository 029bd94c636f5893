//! Log batches with levels and structured metadata.
use crate::bytes::{self, framed_text, i64_le, low32, u32_le};
use crate::spans;
use vstd::prelude::*;
use vstd::string::*;

verus! {

/// A log entry. Its metadata is a JSON text.
pub struct RichEntry {
    pub timestamp: i64,
    pub level: String,
    pub message: String,
    pub metadata: String,
}

/// The times of entries, eight bytes each.
pub open spec fn times(entries: Seq<RichEntry>) -> Seq<u8>
    decreases entries.len(),
{
    if entries.len() == 0 {
        Seq::empty()
    } else {
        times(entries.drop_last()) + bytes::le(
            bytes::pattern64(entries.last().timestamp as int),
            8,
        )
    }
}

/// The levels of entries, framed.
pub open spec fn levels(entries: Seq<RichEntry>) -> Seq<u8>
    decreases entries.len(),
{
    if entries.len() == 0 {
        Seq::empty()
    } else {
        levels(entries.drop_last()) + spans::text_frame(entries.last().level@)
    }
}

/// The messages of entries, framed.
pub open spec fn messages(entries: Seq<RichEntry>) -> Seq<u8>
    decreases entries.len(),
{
    if entries.len() == 0 {
        Seq::empty()
    } else {
        messages(entries.drop_last()) + spans::text_frame(entries.last().message@)
    }
}

/// The metadata of entries, framed.
pub open spec fn metadata(entries: Seq<RichEntry>) -> Seq<u8>
    decreases entries.len(),
{
    if entries.len() == 0 {
        Seq::empty()
    } else {
        metadata(entries.drop_last()) + spans::text_frame(entries.last().metadata@)
    }
}

/// A batch of entries, version 2.
pub open spec fn rich_batch_bytes(entries: Seq<RichEntry>) -> Seq<u8> {
    spans::head(2, entries.len()) + times(entries) + levels(entries) + messages(entries) + metadata(
        entries,
    )
}

/// A batch of entries, version 2: the columns of times, levels, messages and
/// metadata.
pub fn rich_batch(entries: &[RichEntry]) -> (out: Vec<u8>)
    ensures
        out@ == rich_batch_bytes(entries@),
{
    let mut out: Vec<u8> = vec![2, 0, 0, 0];
    assert(out@ =~= seq![2u8, 0u8, 0u8, 0u8]);
    u32_le(&mut out, low32(entries.len()));
    proof {
        bytes::le_keeps_low_bits(entries@.len());
    }
    assert(out@ =~= spans::head(2, entries@.len()));
    let ghost start = out@;
    let mut i: usize = 0;
    assert(out@ =~= start + times(entries@.take(0)));
    while i < entries.len()
        invariant
            i <= entries@.len(),
            out@ == start + times(entries@.take(i as int)),
        decreases entries.len() - i,
    {
        i64_le(&mut out, entries[i].timestamp);
        i += 1;
        assert(entries@.take(i as int).drop_last() =~= entries@.take(i - 1));
        assert(out@ =~= start + times(entries@.take(i as int)));
    }
    assert(entries@.take(i as int) =~= entries@);
    let ghost start = out@;
    let mut k: usize = 0;
    assert(out@ =~= start + levels(entries@.take(0)));
    while k < entries.len()
        invariant
            k <= entries@.len(),
            out@ == start + levels(entries@.take(k as int)),
        decreases entries.len() - k,
    {
        framed_text(&mut out, &entries[k].level);
        k += 1;
        assert(entries@.take(k as int).drop_last() =~= entries@.take(k - 1));
        assert(out@ =~= start + levels(entries@.take(k as int)));
    }
    assert(entries@.take(k as int) =~= entries@);
    let ghost start = out@;
    let mut m: usize = 0;
    assert(out@ =~= start + messages(entries@.take(0)));
    while m < entries.len()
        invariant
            m <= entries@.len(),
            out@ == start + messages(entries@.take(m as int)),
        decreases entries.len() - m,
    {
        framed_text(&mut out, &entries[m].message);
        m += 1;
        assert(entries@.take(m as int).drop_last() =~= entries@.take(m - 1));
        assert(out@ =~= start + messages(entries@.take(m as int)));
    }
    assert(entries@.take(m as int) =~= entries@);
    let ghost start = out@;
    let mut n: usize = 0;
    assert(out@ =~= start + metadata(entries@.take(0)));
    while n < entries.len()
        invariant
            n <= entries@.len(),
            out@ == start + metadata(entries@.take(n as int)),
        decreases entries.len() - n,
    {
        framed_text(&mut out, &entries[n].metadata);
        n += 1;
        assert(entries@.take(n as int).drop_last() =~= entries@.take(n - 1));
        assert(out@ =~= start + metadata(entries@.take(n as int)));
    }
    assert(entries@.take(n as int) =~= entries@);
    out
}

/// A batch of one informational entry, version 1.
pub open spec fn flat_batch_bytes(timestamp: int) -> Seq<u8> {
    spans::head(1, 1) + bytes::le(bytes::pattern64(timestamp), 8) + seq![1u8] + spans::text_frame(
        "legacy-info"@,
    ) + spans::text_frame(r#"{"service":"legacy","status":"ok"}"#@)
}

/// A batch of one informational entry, version 1.
pub fn flat_batch(timestamp: i64) -> (out: Vec<u8>)
    ensures
        out@ == flat_batch_bytes(timestamp as int),
{
    let mut out: Vec<u8> = vec![1, 0, 0, 0];
    assert(out@ =~= seq![1u8, 0u8, 0u8, 0u8]);
    u32_le(&mut out, 1);
    i64_le(&mut out, timestamp);
    let ghost before = out@;
    out.push(1);
    assert(out@ =~= before + seq![1u8]);
    framed_text(&mut out, "legacy-info");
    framed_text(&mut out, r#"{"service":"legacy","status":"ok"}"#);
    out
}

/// The time of the first entry of the fixture, in microseconds.
pub const FIRST_TIME: i64 = 1_700_000_000_123_456;

/// The metadata of the first entry.
pub const FIRST_METADATA: &'static str =
    r#"{"array":[1,true,null,{"nested":2.5}],"bool":false,"count":9007199254740991,"host":"web-c","null":null,"service":"api"}"#;

/// One entry of the fixture, as its parts.
pub struct EntryModel {
    pub timestamp: i64,
    pub level: &'static str,
    pub message: &'static str,
    pub metadata: &'static str,
}

/// Entry `i` of the fixture.
pub open spec fn entry_at(i: int) -> EntryModel {
    if i == 0 {
        EntryModel {
            timestamp: FIRST_TIME,
            level: "notice",
            message: "b-message",
            metadata: FIRST_METADATA,
        }
    } else if i == 1 {
        EntryModel {
            timestamp: FIRST_TIME,
            level: "critical",
            message: "a-message",
            metadata: r#"{"code":503,"host":"web-a","service":"api"}"#,
        }
    } else {
        EntryModel {
            timestamp: (FIRST_TIME + 1) as i64,
            level: "emergency",
            message: "c-message",
            metadata: r#"{"fatal":true,"host":"web-b","service":"ops"}"#,
        }
    }
}

fn entry(timestamp: i64, level: &str, message: &str, metadata: &str) -> (result: RichEntry)
    ensures
        result.timestamp == timestamp,
        result.level@ == level@,
        result.message@ == message@,
        result.metadata@ == metadata@,
{
    RichEntry {
        timestamp,
        level: crate::json::copied(level),
        message: crate::json::copied(message),
        metadata: crate::json::copied(metadata),
    }
}

/// The three entries of the fixture.
pub fn rich_entries() -> (entries: Vec<RichEntry>)
    ensures
        entries@.len() == 3,
        forall|i: int|
            0 <= i < 3 ==> {
                let e = #[trigger] entries@[i];
                let m = entry_at(i);
                e.timestamp == m.timestamp && e.level@ == m.level@ && e.message@ == m.message@
                    && e.metadata@ == m.metadata@
            },
{
    let mut entries: Vec<RichEntry> = Vec::new();
    entries.push(entry(FIRST_TIME, "notice", "b-message", FIRST_METADATA));
    entries.push(
        entry(
            FIRST_TIME,
            "critical",
            "a-message",
            r#"{"code":503,"host":"web-a","service":"api"}"#,
        ),
    );
    entries.push(
        entry(
            FIRST_TIME + 1,
            "emergency",
            "c-message",
            r#"{"fatal":true,"host":"web-b","service":"ops"}"#,
        ),
    );
    entries
}

} // verus!
