//! The packed frames of the storage extension: aggregates, latest samples and
//! rollup batches.
use crate::bytes;
use crate::ieee::{self, nan_bits, real_eq};
use crate::text::same_text;
use crate::values::SqlValue;
use vstd::prelude::*;

verus! {

/// A frame ends before the value that is to be read.
#[derive(Clone, Copy, Debug, PartialEq, Eq, Structural)]
pub struct Truncated;

/// The `w` bytes at `offset`.
pub open spec fn word(blob: Seq<u8>, offset: int, w: int) -> Seq<u8> {
    blob.subrange(offset, offset + w)
}

/// The unsigned number in the eight bytes at `offset`.
pub open spec fn word64(blob: Seq<u8>, offset: int) -> nat {
    bytes::le_value(word(blob, offset, 8))
}

/// The unsigned number in the four bytes at `offset`.
pub open spec fn word32(blob: Seq<u8>, offset: int) -> nat {
    bytes::le_value(word(blob, offset, 4))
}

/// Bytes stand for a number below the power of 256 that their count gives.
pub proof fn le_value_is_bounded(s: Seq<u8>)
    ensures
        bytes::le_value(s) < bytes::pow256(s.len()),
    decreases s.len(),
{
    if s.len() > 0 {
        le_value_is_bounded(s.drop_first());
        let p = bytes::pow256((s.len() - 1) as nat);
        assert(bytes::pow256(s.len()) == 256 * p);
    }
}

fn read_le(blob: &[u8], offset: usize, w: usize) -> (value: u64)
    requires
        w <= 8,
        offset + w <= blob@.len(),
    ensures
        value == bytes::le_value(word(blob@, offset as int, w as int)),
{
    let ghost all = word(blob@, offset as int, w as int);
    let mut value: u64 = 0;
    let mut i: usize = w;
    assert(all.skip(w as int) =~= Seq::empty());
    while i > 0
        invariant
            i <= w <= 8,
            offset + w <= blob.len(),
            all == word(blob@, offset as int, w as int),
            value == bytes::le_value(all.skip(i as int)),
        decreases i,
    {
        proof {
            let rest = all.skip(i as int);
            let next = all.skip(i - 1);
            assert(next.drop_first() =~= rest);
            assert(next[0] == blob@[offset + i - 1]);
            le_value_is_bounded(next);
            reveal_with_fuel(bytes::pow256, 9);
        }
        value = blob[offset + i - 1] as u64 + 256 * value;
        i -= 1;
    }
    assert(all.skip(0) =~= all);
    value
}

/// Reads an unsigned 32-bit number.
pub fn read_u32(blob: &[u8], offset: usize) -> (result: Result<u32, Truncated>)
    ensures
        match result {
            Ok(n) => offset + 4 <= blob@.len() && n == word32(blob@, offset as int),
            Err(_) => offset + 4 > blob@.len(),
        },
{
    if offset > blob.len() || blob.len() - offset < 4 {
        return Err(Truncated);
    }
    proof {
        le_value_is_bounded(word(blob@, offset as int, 4));
        reveal_with_fuel(bytes::pow256, 5);
    }
    Ok(read_le(blob, offset, 4) as u32)
}

/// Reads a column of signed 64-bit numbers.
pub fn read_i64s(blob: &[u8], offset: usize, count: usize) -> (result: Result<Vec<i64>, Truncated>)
    ensures
        match result {
            Ok(list) => offset + count * 8 <= blob@.len() && list@.len() == count && forall|i: int|
                0 <= i < count ==> #[trigger] list@[i] == bytes::signed64(
                    word64(blob@, offset + i * 8),
                ),
            Err(_) => offset + count * 8 > blob@.len(),
        },
{
    let words = read_u64s(blob, offset, count)?;
    let mut list: Vec<i64> = Vec::new();
    let mut i: usize = 0;
    while i < words.len()
        invariant
            i <= words@.len(),
            list@.len() == i,
            forall|k: int| 0 <= k < i ==> #[trigger] list@[k] == bytes::signed64(words@[k] as nat),
        decreases words.len() - i,
    {
        list.push(signed_of(words[i]));
        i += 1;
    }
    Ok(list)
}

fn signed_of(word: u64) -> (value: i64)
    ensures
        value == bytes::signed64(word as nat),
{
    assert(word as i64 as int == (if word >= 0x8000_0000_0000_0000 {
        word - 0x1_0000_0000_0000_0000
    } else {
        word as int
    })) by (bit_vector);
    word as i64
}

/// Reads a column of unsigned 64-bit numbers.
pub fn read_u64s(blob: &[u8], offset: usize, count: usize) -> (result: Result<Vec<u64>, Truncated>)
    ensures
        match result {
            Ok(list) => offset + count * 8 <= blob@.len() && list@.len() == count && forall|i: int|
                0 <= i < count ==> #[trigger] list@[i] == word64(blob@, offset + i * 8),
            Err(_) => offset + count * 8 > blob@.len(),
        },
{
    if offset > blob.len() || (blob.len() - offset) / 8 < count {
        return Err(Truncated);
    }
    let mut list: Vec<u64> = Vec::new();
    let mut i: usize = 0;
    while i < count
        invariant
            i <= count,
            offset + count * 8 <= blob.len(),
            list@.len() == i,
            forall|k: int| 0 <= k < i ==> #[trigger] list@[k] == word64(blob@, offset + k * 8),
        decreases count - i,
    {
        list.push(read_le(blob, offset + i * 8, 8));
        i += 1;
    }
    Ok(list)
}

/// Two to the power `n`.
pub open spec fn pow2(n: nat) -> nat
    decreases n,
{
    if n == 0 {
        1
    } else {
        2 * pow2((n - 1) as nat)
    }
}

fn low_power(n: usize) -> (power: u8)
    requires
        n < 8,
    ensures
        power == pow2(n as nat),
{
    proof {
        reveal_with_fuel(pow2, 9);
    }
    if n == 0 {
        1
    } else if n == 1 {
        2
    } else if n == 2 {
        4
    } else if n == 3 {
        8
    } else if n == 4 {
        16
    } else if n == 5 {
        32
    } else if n == 6 {
        64
    } else {
        128
    }
}

/// The bits of a bitmap behind the first `count` are clear.
pub open spec fn clear_tail(bitmap: Seq<u8>, count: int) -> bool {
    count % 8 == 0 || (bitmap.len() > 0 && bitmap.last() < pow2((count % 8) as nat))
}

/// Whether the bits of a bitmap behind the first `count` are clear.
pub fn bitmap_ok(bitmap: &[u8], count: usize) -> (yes: bool)
    ensures
        yes == clear_tail(bitmap@, count as int),
{
    count % 8 == 0 || (bitmap.len() > 0 && bitmap[bitmap.len() - 1] < low_power(count % 8))
}

/// Bit `i` of a bitmap whose lowest bit comes first.
pub open spec fn bit(bitmap: Seq<u8>, i: int) -> bool {
    (bitmap[i / 8] as int / pow2((i % 8) as nat) as int) % 2 == 1
}

fn has_bit(blob: &[u8], at: usize, i: usize, Ghost(bitmap): Ghost<Seq<u8>>) -> (yes: bool)
    requires
        at + i / 8 < blob.len(),
        i / 8 < bitmap.len(),
        bitmap[i as int / 8] == blob@[at + i as int / 8],
    ensures
        yes == bit(bitmap, i as int),
{
    let byte: u8 = blob[at + i / 8];
    let power: u8 = low_power(i % 8);
    proof {
        reveal_with_fuel(pow2, 9);
    }
    (byte / power) % 2 == 1
}

/// What a frame holds for a series.
#[derive(Clone, Copy, Debug, PartialEq, Eq, Structural)]
pub enum FrameValue {
    Absent,
    Integer(i64),
    Real(u64),
}

/// A frame does not have the layout that it should have.
#[derive(Clone, Copy, Debug, PartialEq, Eq, Structural)]
pub struct Malformed;

/// How many bytes hold `count` bits.
pub open spec fn bitmap_len(count: int) -> int {
    (count + 7) / 8
}

/// The number of rows of an aggregate frame.
pub open spec fn aggregate_count(blob: Seq<u8>) -> int {
    word32(blob, 8) as int
}

/// The bitmap of an aggregate frame.
pub open spec fn aggregate_bitmap(blob: Seq<u8>) -> Seq<u8> {
    let count = aggregate_count(blob);
    word(blob, 12 + count * 8, bitmap_len(count))
}

/// The value word of row `i` of an aggregate frame.
pub open spec fn aggregate_word(blob: Seq<u8>, i: int) -> nat {
    let count = aggregate_count(blob);
    word64(blob, 12 + count * 8 + bitmap_len(count) + i * 8)
}

/// The value of a row: absent without its bit, an integer in a count, else a real.
pub open spec fn aggregate_value(kind: u8, present: bool, word: nat) -> FrameValue {
    if !present {
        FrameValue::Absent
    } else if kind == 4 {
        FrameValue::Integer(word as i64)
    } else {
        FrameValue::Real(word as u64)
    }
}

/// A row may look like this: an absent value is zero and no count, a count fits
/// in 63 bits, and a real is a number.
pub open spec fn aggregate_row_ok(kind: u8, present: bool, word: nat) -> bool {
    if !present {
        word == 0 && kind != 4
    } else if kind == 4 {
        word <= i64::MAX
    } else {
        !ieee::is_nan(word as u64)
    }
}

/// The bytes begin with the mark `TAF1`.
pub open spec fn is_aggregate(blob: Seq<u8>) -> bool {
    blob[0] == 0x54 && blob[1] == 0x41 && blob[2] == 0x46 && blob[3] == 0x31
}

/// The layout of an aggregate frame: mark, kind, three zero bytes, the number of
/// rows, their identifiers, the bitmap of present values, and the value words.
pub open spec fn valid_aggregate(blob: Seq<u8>) -> bool {
    let count = aggregate_count(blob);
    &&& blob.len() >= 12
    &&& is_aggregate(blob)
    &&& blob[4] <= 4
    &&& blob[5] == 0 && blob[6] == 0 && blob[7] == 0
    &&& blob.len() == 12 + count * 16 + bitmap_len(count)
    &&& clear_tail(aggregate_bitmap(blob), count)
    &&& forall|i: int|
        0 <= i < count ==> aggregate_row_ok(
            blob[4],
            bit(aggregate_bitmap(blob), i),
            #[trigger] aggregate_word(blob, i),
        )
}

/// The rows of an aggregate frame.
pub open spec fn aggregate_rows(blob: Seq<u8>) -> Seq<(i64, FrameValue)> {
    Seq::new(
        aggregate_count(blob) as nat,
        |i: int|
            (
                bytes::signed64(word64(blob, 12 + i * 8)) as i64,
                aggregate_value(blob[4], bit(aggregate_bitmap(blob), i), aggregate_word(blob, i)),
            ),
    )
}

/// Decodes an aggregate frame.
pub fn decode_aggregate(blob: &[u8]) -> (result: Result<(u8, Vec<(i64, FrameValue)>), Malformed>)
    ensures
        match result {
            Ok((kind, rows)) => valid_aggregate(blob@) && kind == blob@[4] && rows@
                == aggregate_rows(blob@),
            Err(_) => !valid_aggregate(blob@),
        },
{
    if blob.len() < 12 || blob[0] != 0x54 || blob[1] != 0x41 || blob[2] != 0x46 || blob[3] != 0x31 {
        return Err(Malformed);
    }
    let kind: u8 = blob[4];
    if kind > 4 || blob[5] != 0 || blob[6] != 0 || blob[7] != 0 {
        return Err(Malformed);
    }
    let count32: u32 = match read_u32(blob, 8) {
        Ok(n) => n,
        Err(_) => {
            return Err(Malformed);
        },
    };
    let bitmap_bytes: u64 = (count32 as u64 + 7) / 8;
    if blob.len() as u64 != 12 + count32 as u64 * 16 + bitmap_bytes {
        return Err(Malformed);
    }
    let count: usize = count32 as usize;
    let width: usize = bitmap_bytes as usize;
    let ids = match read_i64s(blob, 12, count) {
        Ok(list) => list,
        Err(_) => {
            return Err(Malformed);
        },
    };
    let bitmap_at: usize = 12 + count * 8;
    let ghost bitmap = aggregate_bitmap(blob@);
    assert(bitmap.len() == width);
    if count % 8 != 0 {
        assert(bitmap.last() == blob@[bitmap_at + width - 1]);
        if blob[bitmap_at + width - 1] >= low_power(count % 8) {
            return Err(Malformed);
        }
    }
    let words = match read_u64s(blob, bitmap_at + width, count) {
        Ok(list) => list,
        Err(_) => {
            return Err(Malformed);
        },
    };
    let mut rows: Vec<(i64, FrameValue)> = Vec::new();
    let mut i: usize = 0;
    while i < count
        invariant
            i <= count,
            ids@.len() == count,
            words@.len() == count,
            count == aggregate_count(blob@),
            width == bitmap_len(count as int),
            bitmap == aggregate_bitmap(blob@),
            bitmap.len() == width,
            bitmap_at == 12 + count * 8,
            blob.len() == 12 + count * 16 + width,
            kind == blob@[4],
            forall|k: int|
                0 <= k < count ==> #[trigger] ids@[k] == bytes::signed64(word64(blob@, 12 + k * 8)),
            forall|k: int|
                0 <= k < count ==> #[trigger] words@[k] == word64(blob@, bitmap_at + width + k * 8),
            rows@.len() == i,
            forall|k: int| 0 <= k < i ==> #[trigger] rows@[k] == aggregate_rows(blob@)[k],
            forall|k: int|
                0 <= k < i ==> aggregate_row_ok(
                    kind,
                    bit(bitmap, k),
                    #[trigger] aggregate_word(blob@, k),
                ),
        decreases count - i,
    {
        let present: bool = has_bit(blob, bitmap_at, i, Ghost(bitmap));
        let word: u64 = words[i];
        assert(word == aggregate_word(blob@, i as int));
        let value: FrameValue = if !present {
            if word != 0 || kind == 4 {
                return Err(Malformed);
            }
            FrameValue::Absent
        } else if kind == 4 {
            if word > 0x7fff_ffff_ffff_ffff {
                return Err(Malformed);
            }
            FrameValue::Integer(word as i64)
        } else {
            if nan_bits(word) {
                return Err(Malformed);
            }
            FrameValue::Real(word)
        };
        rows.push((ids[i], value));
        i += 1;
    }
    assert(rows@ =~= aggregate_rows(blob@));
    Ok((kind, rows))
}

/// The number of rows of a frame of latest samples.
pub open spec fn latest_count(blob: Seq<u8>) -> int {
    word32(blob, 4) as int
}

/// The bitmap of a frame of latest samples.
pub open spec fn latest_bitmap(blob: Seq<u8>) -> Seq<u8> {
    let count = latest_count(blob);
    word(blob, 8 + count * 16, bitmap_len(count))
}

/// The value word of row `i` of a frame of latest samples.
pub open spec fn latest_word(blob: Seq<u8>, i: int) -> nat {
    let count = latest_count(blob);
    word64(blob, 8 + count * 16 + bitmap_len(count) + i * 8)
}

/// A row may look like this: an absent value is zero, a present one is a number.
pub open spec fn latest_row_ok(present: bool, word: nat) -> bool {
    if present {
        !ieee::is_nan(word as u64)
    } else {
        word == 0
    }
}

/// The layout of a frame of latest samples: the mark `TLF1`, the number of rows,
/// identifiers, times, the bitmap of present values, and the value words.
pub open spec fn valid_latest(blob: Seq<u8>) -> bool {
    let count = latest_count(blob);
    &&& blob.len() >= 8
    &&& blob[0] == 0x54 && blob[1] == 0x4c && blob[2] == 0x46 && blob[3] == 0x31
    &&& blob.len() == 8 + count * 24 + bitmap_len(count)
    &&& clear_tail(latest_bitmap(blob), count)
    &&& forall|i: int|
        0 <= i < count ==> latest_row_ok(
            bit(latest_bitmap(blob), i),
            #[trigger] latest_word(blob, i),
        )
}

/// The rows of a frame of latest samples: identifier, time, and value.
pub open spec fn latest_rows(blob: Seq<u8>) -> Seq<(i64, i64, Option<u64>)> {
    let count = latest_count(blob);
    Seq::new(
        count as nat,
        |i: int|
            (
                bytes::signed64(word64(blob, 8 + i * 8)) as i64,
                bytes::signed64(word64(blob, 8 + count * 8 + i * 8)) as i64,
                if bit(latest_bitmap(blob), i) {
                    Some(latest_word(blob, i) as u64)
                } else {
                    None
                },
            ),
    )
}

/// Decodes a frame of latest samples.
pub fn decode_latest(blob: &[u8]) -> (result: Result<Vec<(i64, i64, Option<u64>)>, Malformed>)
    ensures
        match result {
            Ok(rows) => valid_latest(blob@) && rows@ == latest_rows(blob@),
            Err(_) => !valid_latest(blob@),
        },
{
    if blob.len() < 8 || blob[0] != 0x54 || blob[1] != 0x4c || blob[2] != 0x46 || blob[3] != 0x31 {
        return Err(Malformed);
    }
    let count32: u32 = match read_u32(blob, 4) {
        Ok(n) => n,
        Err(_) => {
            return Err(Malformed);
        },
    };
    let bitmap_bytes: u64 = (count32 as u64 + 7) / 8;
    if blob.len() as u64 != 8 + count32 as u64 * 24 + bitmap_bytes {
        return Err(Malformed);
    }
    let count: usize = count32 as usize;
    let width: usize = bitmap_bytes as usize;
    let ids = match read_i64s(blob, 8, count) {
        Ok(list) => list,
        Err(_) => {
            return Err(Malformed);
        },
    };
    let times = match read_i64s(blob, 8 + count * 8, count) {
        Ok(list) => list,
        Err(_) => {
            return Err(Malformed);
        },
    };
    let bitmap_at: usize = 8 + count * 16;
    let ghost bitmap = latest_bitmap(blob@);
    assert(bitmap.len() == width);
    if count % 8 != 0 {
        assert(bitmap.last() == blob@[bitmap_at + width - 1]);
        if blob[bitmap_at + width - 1] >= low_power(count % 8) {
            return Err(Malformed);
        }
    }
    let words = match read_u64s(blob, bitmap_at + width, count) {
        Ok(list) => list,
        Err(_) => {
            return Err(Malformed);
        },
    };
    let mut rows: Vec<(i64, i64, Option<u64>)> = Vec::new();
    let mut i: usize = 0;
    while i < count
        invariant
            i <= count,
            ids@.len() == count,
            times@.len() == count,
            words@.len() == count,
            count == latest_count(blob@),
            width == bitmap_len(count as int),
            bitmap == latest_bitmap(blob@),
            bitmap.len() == width,
            bitmap_at == 8 + count * 16,
            blob.len() == 8 + count * 24 + width,
            forall|k: int|
                0 <= k < count ==> #[trigger] ids@[k] == bytes::signed64(word64(blob@, 8 + k * 8)),
            forall|k: int|
                0 <= k < count ==> #[trigger] times@[k] == bytes::signed64(
                    word64(blob@, 8 + count * 8 + k * 8),
                ),
            forall|k: int|
                0 <= k < count ==> #[trigger] words@[k] == word64(blob@, bitmap_at + width + k * 8),
            rows@.len() == i,
            forall|k: int| 0 <= k < i ==> #[trigger] rows@[k] == latest_rows(blob@)[k],
            forall|k: int|
                0 <= k < i ==> latest_row_ok(bit(bitmap, k), #[trigger] latest_word(blob@, k)),
        decreases count - i,
    {
        let present: bool = has_bit(blob, bitmap_at, i, Ghost(bitmap));
        let word: u64 = words[i];
        assert(word == latest_word(blob@, i as int));
        let value: Option<u64> = if present {
            if nan_bits(word) {
                return Err(Malformed);
            }
            Some(word)
        } else {
            if word != 0 {
                return Err(Malformed);
            }
            None
        };
        rows.push((ids[i], times[i], value));
        i += 1;
    }
    assert(rows@ =~= latest_rows(blob@));
    Ok(rows)
}

/// The rows with `x` behind the last row whose identifier is not greater.
pub open spec fn placed<V>(rows: Seq<(i64, V)>, x: (i64, V)) -> Seq<(i64, V)>
    decreases rows.len(),
{
    if rows.len() == 0 || rows.last().0 <= x.0 {
        rows.push(x)
    } else {
        placed(rows.drop_last(), x).push(rows.last())
    }
}

/// The rows in the order of their identifiers; rows of one identifier keep their
/// order.
pub open spec fn by_identifier<V>(rows: Seq<(i64, V)>) -> Seq<(i64, V)>
    decreases rows.len(),
{
    if rows.len() == 0 {
        rows
    } else {
        placed(by_identifier(rows.drop_last()), rows.last())
    }
}

/// No row has a smaller identifier than a row before it.
pub open spec fn identifiers_ascend<V>(rows: Seq<(i64, V)>) -> bool {
    forall|i: int, j: int| 0 <= i < j < rows.len() ==> (#[trigger] rows[i]).0 <= (#[trigger] rows[j]).0
}

proof fn placed_ascends<V>(rows: Seq<(i64, V)>, x: (i64, V))
    requires
        identifiers_ascend(rows),
    ensures
        identifiers_ascend(placed(rows, x)),
        placed(rows, x).to_multiset() == rows.to_multiset().insert(x),
        placed(rows, x).len() == rows.len() + 1,
        forall|i: int|
            0 <= i < placed(rows, x).len() ==> (#[trigger] placed(rows, x)[i]).0 <= x.0 || (rows.len()
                > 0 && placed(rows, x)[i].0 <= rows.last().0),
    decreases rows.len(),
{
    broadcast use vstd::seq_lib::group_to_multiset_ensures;

    if !(rows.len() == 0 || rows.last().0 <= x.0) {
        let rest = rows.drop_last();
        placed_ascends(rest, x);
        let inner = placed(rest, x);
        assert(rows =~= rest.push(rows.last()));
        assert(rows.to_multiset() == rest.to_multiset().insert(rows.last()));
        assert(rest.to_multiset().insert(x).insert(rows.last()) =~= rest.to_multiset().insert(
            rows.last(),
        ).insert(x));
        assert forall|i: int| 0 <= i < inner.len() implies (#[trigger] inner[i]).0 <= rows.last().0 by {
            if rest.len() > 0 && inner[i].0 > x.0 {
                assert(rest.last() == rows[rest.len() - 1]);
                assert(rows[rest.len() - 1].0 <= rows[rest.len() as int].0);
            }
        }
    }
}

/// Ordering loses no row, adds none, and leaves the identifiers ascending.
pub proof fn ordering_keeps_the_rows<V>(rows: Seq<(i64, V)>)
    ensures
        identifiers_ascend(by_identifier(rows)),
        by_identifier(rows).to_multiset() == rows.to_multiset(),
        by_identifier(rows).len() == rows.len(),
    decreases rows.len(),
{
    broadcast use vstd::seq_lib::group_to_multiset_ensures;

    if rows.len() > 0 {
        ordering_keeps_the_rows(rows.drop_last());
        placed_ascends(by_identifier(rows.drop_last()), rows.last());
        assert(rows =~= rows.drop_last().push(rows.last()));
    }
}

proof fn placed_splits<V>(rows: Seq<(i64, V)>, x: (i64, V), p: int)
    requires
        0 <= p <= rows.len(),
        forall|i: int| p <= i < rows.len() ==> (#[trigger] rows[i]).0 > x.0,
    ensures
        placed(rows, x) == placed(rows.take(p), x) + rows.skip(p),
    decreases rows.len() - p,
{
    if p == rows.len() {
        assert(rows.take(p) =~= rows);
        assert(placed(rows, x) =~= placed(rows.take(p), x) + rows.skip(p));
    } else {
        let rest = rows.drop_last();
        assert(rows[rows.len() - 1].0 > x.0);
        assert forall|i: int| p <= i < rest.len() implies (#[trigger] rest[i]).0 > x.0 by {
            assert(rest[i] == rows[i]);
        }
        placed_splits(rest, x, p);
        assert(rest.take(p) =~= rows.take(p));
        assert(rows.skip(p) =~= rest.skip(p).push(rows.last()));
        assert(placed(rows, x) =~= placed(rows.take(p), x) + rows.skip(p));
    }
}

fn place<V: Copy>(rows: &mut Vec<(i64, V)>, x: (i64, V))
    ensures
        final(rows)@ == placed(old(rows)@, x),
{
    let mut p: usize = rows.len();
    while p > 0 && rows[p - 1].0 > x.0
        invariant
            p <= rows@.len(),
            rows@ == old(rows)@,
            forall|i: int| p <= i < rows@.len() ==> (#[trigger] rows@[i]).0 > x.0,
        decreases p,
    {
        p -= 1;
    }
    proof {
        placed_splits(rows@, x, p as int);
        assert(placed(rows@.take(p as int), x) =~= rows@.take(p as int).push(x));
    }
    rows.insert(p, x);
    assert(rows@ =~= old(rows)@.take(p as int).push(x) + old(rows)@.skip(p as int));
}

fn sort_rows<V: Copy>(rows: &Vec<(i64, V)>) -> (sorted: Vec<(i64, V)>)
    ensures
        sorted@ == by_identifier(rows@),
{
    let mut sorted: Vec<(i64, V)> = Vec::new();
    let mut i: usize = 0;
    assert(sorted@ =~= by_identifier(rows@.take(0)));
    while i < rows.len()
        invariant
            i <= rows@.len(),
            sorted@ == by_identifier(rows@.take(i as int)),
        decreases rows.len() - i,
    {
        place(&mut sorted, rows[i]);
        i += 1;
        assert(rows@.take(i as int).drop_last() =~= rows@.take(i - 1));
    }
    assert(rows@.take(i as int) =~= rows@);
    sorted
}

/// The result row of a frame row: the identifier and the value, or null.
pub open spec fn agrees(row: (i64, FrameValue), values: Seq<SqlValue>) -> bool {
    &&& values.len() == 2
    &&& values[0] == SqlValue::Integer(row.0)
    &&& match row.1 {
        FrameValue::Absent => values[1] is Null,
        FrameValue::Integer(n) => values[1] == SqlValue::Integer(n),
        FrameValue::Real(bits) => values[1] matches SqlValue::Real(other) && ieee::equal_reals(
            bits,
            other,
        ),
    }
}

fn row_agrees(row: (i64, FrameValue), values: &Vec<SqlValue>) -> (yes: bool)
    ensures
        yes == agrees(row, values@),
{
    if values.len() != 2 {
        return false;
    }
    let same_id: bool = match &values[0] {
        SqlValue::Integer(id) => *id == row.0,
        _ => false,
    };
    let same_value: bool = match (row.1, &values[1]) {
        (FrameValue::Absent, SqlValue::Null) => true,
        (FrameValue::Integer(n), SqlValue::Integer(m)) => n == *m,
        (FrameValue::Real(bits), SqlValue::Real(other)) => real_eq(bits, *other),
        _ => false,
    };
    same_id && same_value
}

/// The rows of a frame, in the order of their identifiers, are the result rows.
pub open spec fn frame_agrees(rows: Seq<(i64, FrameValue)>, expected: Seq<Vec<SqlValue>>) -> bool {
    let sorted = by_identifier(rows);
    &&& sorted.len() == expected.len()
    &&& forall|i: int| 0 <= i < sorted.len() ==> agrees(#[trigger] sorted[i], expected[i]@)
}

/// Whether the rows of an aggregate frame are the rows of the row query.
pub fn aggregate_agrees(rows: &Vec<(i64, FrameValue)>, expected: &Vec<Vec<SqlValue>>) -> (yes: bool)
    ensures
        yes == frame_agrees(rows@, expected@),
{
    let sorted = sort_rows(rows);
    if sorted.len() != expected.len() {
        return false;
    }
    let mut i: usize = 0;
    while i < sorted.len()
        invariant
            sorted@ == by_identifier(rows@),
            sorted@.len() == expected@.len(),
            i <= sorted@.len(),
            forall|k: int| 0 <= k < i ==> agrees(#[trigger] sorted@[k], expected@[k]@),
        decreases sorted.len() - i,
    {
        if !row_agrees(sorted[i], &expected[i]) {
            return false;
        }
        i += 1;
    }
    true
}

/// A latest sample as a pair of identifier and the rest.
pub open spec fn sample_pairs(rows: Seq<(i64, i64, Option<u64>)>) -> Seq<(i64, (i64, Option<u64>))> {
    rows.map_values(|r: (i64, i64, Option<u64>)| (r.0, (r.1, r.2)))
}

/// Two optional reals are both absent or equal.
pub open spec fn equal_optional(a: Option<u64>, b: Option<u64>) -> bool {
    match (a, b) {
        (Some(x), Some(y)) => ieee::equal_reals(x, y),
        (None, None) => true,
        _ => false,
    }
}

/// Two latest samples are equal.
pub open spec fn equal_samples(a: (i64, (i64, Option<u64>)), b: (i64, i64, Option<u64>)) -> bool {
    a.0 == b.0 && a.1.0 == b.1 && equal_optional(a.1.1, b.2)
}

/// The latest samples, in the order of their identifiers, are the expected ones.
pub open spec fn samples_agree(
    rows: Seq<(i64, i64, Option<u64>)>,
    expected: Seq<(i64, i64, Option<u64>)>,
) -> bool {
    let sorted = by_identifier(sample_pairs(rows));
    &&& sorted.len() == expected.len()
    &&& forall|i: int| 0 <= i < sorted.len() ==> equal_samples(#[trigger] sorted[i], expected[i])
}

/// Whether the rows of a frame of latest samples are the expected ones.
pub fn latest_agrees(
    rows: &Vec<(i64, i64, Option<u64>)>,
    expected: &Vec<(i64, i64, Option<u64>)>,
) -> (yes: bool)
    ensures
        yes == samples_agree(rows@, expected@),
{
    let mut pairs: Vec<(i64, (i64, Option<u64>))> = Vec::new();
    let mut k: usize = 0;
    while k < rows.len()
        invariant
            k <= rows@.len(),
            pairs@ == sample_pairs(rows@.take(k as int)),
        decreases rows.len() - k,
    {
        let row: (i64, i64, Option<u64>) = rows[k];
        pairs.push((row.0, (row.1, row.2)));
        k += 1;
        assert(pairs@ =~= sample_pairs(rows@.take(k as int)));
    }
    assert(rows@.take(k as int) =~= rows@);
    let sorted = sort_rows(&pairs);
    if sorted.len() != expected.len() {
        return false;
    }
    let mut i: usize = 0;
    while i < sorted.len()
        invariant
            sorted@ == by_identifier(sample_pairs(rows@)),
            sorted@.len() == expected@.len(),
            i <= sorted@.len(),
            forall|k: int| 0 <= k < i ==> equal_samples(#[trigger] sorted@[k], expected@[k]),
        decreases sorted.len() - i,
    {
        let a: (i64, (i64, Option<u64>)) = sorted[i];
        let b: (i64, i64, Option<u64>) = expected[i];
        let same: bool = match (a.1.1, b.2) {
            (Some(x), Some(y)) => real_eq(x, y),
            (None, None) => true,
            _ => false,
        };
        if !(a.0 == b.0 && a.1.0 == b.1 && same) {
            assert(!equal_samples(sorted@[i as int], expected@[i as int]));
            return false;
        }
        i += 1;
    }
    true
}

/// The columns of a packed rollup: bucket times, sample counts, the times of the
/// last samples, and the bits of the five aggregates.
#[derive(Debug)]
pub struct Rollup {
    pub times: Vec<i64>,
    pub counts: Vec<u64>,
    pub average: Vec<u64>,
    pub sum: Vec<u64>,
    pub minimum: Vec<u64>,
    pub maximum: Vec<u64>,
    pub last_times: Vec<i64>,
    pub last: Vec<u64>,
}

/// The number of buckets of a rollup.
pub open spec fn rollup_count(blob: Seq<u8>) -> int {
    word32(blob, 4) as int
}

/// The layout of a rollup: the mark `TRB1`, the number of buckets, and eight
/// columns of 64-bit words.
pub open spec fn valid_rollup(blob: Seq<u8>) -> bool {
    &&& blob.len() >= 8
    &&& blob[0] == 0x54 && blob[1] == 0x52 && blob[2] == 0x42 && blob[3] == 0x31
    &&& blob.len() == 8 + rollup_count(blob) * 64
}

/// Column `c` of a rollup.
pub open spec fn rollup_column(blob: Seq<u8>, c: int) -> Seq<u64> {
    let count = rollup_count(blob);
    Seq::new(count as nat, |i: int| word64(blob, 8 + c * count * 8 + i * 8) as u64)
}

/// Column `c` of a rollup as signed numbers.
pub open spec fn rollup_times(blob: Seq<u8>, c: int) -> Seq<i64> {
    let count = rollup_count(blob);
    Seq::new(count as nat, |i: int| bytes::signed64(word64(blob, 8 + c * count * 8 + i * 8)) as i64)
}

fn column(blob: &[u8], count: usize, c: usize) -> (list: Vec<u64>)
    requires
        valid_rollup(blob@),
        count == rollup_count(blob@),
        c < 8,
    ensures
        list@ == rollup_column(blob@, c as int),
{
    assert(c * count * 8 + count * 8 <= count * 64) by (nonlinear_arith)
        requires
            c < 8,
    ;
    assert(c * count <= 8 * count) by (nonlinear_arith)
        requires
            c < 8,
    ;
    assert(blob.len() == 8 + count * 64);
    match read_u64s(blob, 8 + c * count * 8, count) {
        Ok(list) => {
            assert(list@ =~= rollup_column(blob@, c as int)) by {
                assert forall|i: int| 0 <= i < count implies list@[i] == rollup_column(
                    blob@,
                    c as int,
                )[i] by {
                    assert(list@[i] == word64(blob@, 8 + c * count * 8 + i * 8));
                }
            }
            list
        },
        Err(_) => {
            Vec::new()
        },
    }
}

fn times_column(blob: &[u8], count: usize, c: usize) -> (list: Vec<i64>)
    requires
        valid_rollup(blob@),
        count == rollup_count(blob@),
        c < 8,
    ensures
        list@ == rollup_times(blob@, c as int),
{
    let words = column(blob, count, c);
    let mut list: Vec<i64> = Vec::new();
    let mut i: usize = 0;
    while i < words.len()
        invariant
            i <= words@.len(),
            list@.len() == i,
            forall|k: int| 0 <= k < i ==> #[trigger] list@[k] == bytes::signed64(words@[k] as nat),
        decreases words.len() - i,
    {
        list.push(signed_of(words[i]));
        i += 1;
    }
    proof {
        assert forall|k: int| 0 <= k < list@.len() implies list@[k] == rollup_times(blob@, c as int)[k] by {
            assert(c * count * 8 + k * 8 + 8 <= count * 64) by (nonlinear_arith)
                requires
                    c < 8,
                    0 <= k < count,
            ;
            assert(0 <= c * count * 8) by (nonlinear_arith);
            let bytes8 = word(blob@, 8 + c * count * 8 + k * 8, 8);
            assert(bytes8.len() == 8);
            le_value_is_bounded(bytes8);
            reveal_with_fuel(bytes::pow256, 9);
            assert(words@[k] == rollup_column(blob@, c as int)[k]);
        }
        assert(list@ =~= rollup_times(blob@, c as int));
    }
    list
}

/// A rollup holds the columns of a blob, in their order.
pub open spec fn holds_columns(r: Rollup, blob: Seq<u8>) -> bool {
    &&& r.times@ == rollup_times(blob, 0)
    &&& r.counts@ == rollup_column(blob, 1)
    &&& r.average@ == rollup_column(blob, 2)
    &&& r.sum@ == rollup_column(blob, 3)
    &&& r.minimum@ == rollup_column(blob, 4)
    &&& r.maximum@ == rollup_column(blob, 5)
    &&& r.last_times@ == rollup_times(blob, 6)
    &&& r.last@ == rollup_column(blob, 7)
}

/// Decodes a packed rollup.
pub fn decode_rollup(blob: &[u8]) -> (result: Result<Rollup, Malformed>)
    ensures
        match result {
            Ok(r) => valid_rollup(blob@) && holds_columns(r, blob@),
            Err(_) => !valid_rollup(blob@),
        },
{
    if blob.len() < 8 || blob[0] != 0x54 || blob[1] != 0x52 || blob[2] != 0x42 || blob[3] != 0x31 {
        return Err(Malformed);
    }
    let count32: u32 = match read_u32(blob, 4) {
        Ok(n) => n,
        Err(_) => {
            return Err(Malformed);
        },
    };
    if blob.len() as u64 != 8 + count32 as u64 * 64 {
        return Err(Malformed);
    }
    let count: usize = count32 as usize;
    Ok(
        Rollup {
            times: times_column(blob, count, 0),
            counts: column(blob, count, 1),
            average: column(blob, count, 2),
            sum: column(blob, count, 3),
            minimum: column(blob, count, 4),
            maximum: column(blob, count, 5),
            last_times: times_column(blob, count, 6),
            last: column(blob, count, 7),
        },
    )
}

/// The aggregates that a rollup holds as reals.
#[derive(Clone, Copy, Debug, PartialEq, Eq, Structural)]
pub enum Aggregate {
    Average,
    Sum,
    Minimum,
    Maximum,
    Last,
}

impl Aggregate {
    /// The name of the aggregate in SQL.
    pub fn name(&self) -> (name: &'static str)
        ensures
            name@ == (match self {
                Aggregate::Average => "avg"@,
                Aggregate::Sum => "sum"@,
                Aggregate::Minimum => "min"@,
                Aggregate::Maximum => "max"@,
                Aggregate::Last => "last"@,
            }),
    {
        match self {
            Aggregate::Average => "avg",
            Aggregate::Sum => "sum",
            Aggregate::Minimum => "min",
            Aggregate::Maximum => "max",
            Aggregate::Last => "last",
        }
    }
}

impl Rollup {
    /// The column of an aggregate.
    pub open spec fn words(&self, aggregate: Aggregate) -> Seq<u64> {
        match aggregate {
            Aggregate::Average => self.average@,
            Aggregate::Sum => self.sum@,
            Aggregate::Minimum => self.minimum@,
            Aggregate::Maximum => self.maximum@,
            Aggregate::Last => self.last@,
        }
    }

    /// The rows are the bucket times with the given words.
    pub open spec fn rows_are(&self, words: Seq<u64>, rows: Seq<(i64, u64)>) -> bool {
        rows == Seq::new(self.times@.len(), |i: int| (self.times@[i], words[i]))
            && self.times@.len() == words.len()
    }

    fn same_words(&self, words: &Vec<u64>, rows: &Vec<(i64, u64)>) -> (yes: bool)
        ensures
            yes == self.rows_are(words@, rows@),
    {
        if rows.len() != self.times.len() || words.len() != self.times.len() {
            return false;
        }
        let mut i: usize = 0;
        while i < rows.len()
            invariant
                rows@.len() == self.times@.len(),
                words@.len() == self.times@.len(),
                i <= rows@.len(),
                forall|k: int| 0 <= k < i ==> #[trigger] rows@[k] == (self.times@[k], words@[k]),
            decreases rows.len() - i,
        {
            if rows[i].0 != self.times[i] || rows[i].1 != words[i] {
                assert(rows@[i as int] != (self.times@[i as int], words@[i as int]));
                assert(rows@ != Seq::new(
                    self.times@.len(),
                    |i: int| (self.times@[i], words@[i]),
                )) by {
                    let other = Seq::new(self.times@.len(), |i: int| (self.times@[i], words@[i]));
                    assert(other[i as int] == (self.times@[i as int], words@[i as int]));
                }
                return false;
            }
            i += 1;
        }
        assert(rows@ =~= Seq::new(self.times@.len(), |i: int| (self.times@[i], words@[i])));
        true
    }

    /// Whether the rows of an aggregate are those of the rollup, bit by bit.
    pub fn matches(&self, aggregate: Aggregate, rows: &Vec<(i64, u64)>) -> (yes: bool)
        ensures
            yes == self.rows_are(self.words(aggregate), rows@),
    {
        match aggregate {
            Aggregate::Average => self.same_words(&self.average, rows),
            Aggregate::Sum => self.same_words(&self.sum, rows),
            Aggregate::Minimum => self.same_words(&self.minimum, rows),
            Aggregate::Maximum => self.same_words(&self.maximum, rows),
            Aggregate::Last => self.same_words(&self.last, rows),
        }
    }

    /// Whether the counted rows are those of the rollup.
    pub fn matches_counts(&self, rows: &Vec<(i64, u64)>) -> (yes: bool)
        ensures
            yes == self.rows_are(self.counts@, rows@),
    {
        self.same_words(&self.counts, rows)
    }

    /// Every last sample lies in its bucket of sixty seconds.
    pub open spec fn samples_in_buckets(&self) -> bool {
        forall|i: int|
            0 <= i < self.times@.len() && i < self.last_times@.len() ==> #[trigger] self.times@[i]
                <= self.last_times@[i] < self.times@[i] + 60
    }

    /// Whether the rollup is that of the fixture: every last sample lies in its
    /// bucket, and series 1 of host `a` has sixteen buckets.
    pub fn accepts(&self, series_id: i64, labels: &str) -> (yes: bool)
        ensures
            yes == (self.samples_in_buckets() && series_id == 1 && labels@ == r#"{"host":"a"}"#@
                && self.times@.len() == 16),
    {
        let mut i: usize = 0;
        while i < self.times.len() && i < self.last_times.len()
            invariant
                i <= self.times@.len(),
                forall|k: int|
                    0 <= k < i && k < self.last_times@.len() ==> #[trigger] self.times@[k]
                        <= self.last_times@[k] < self.times@[k] + 60,
            decreases self.times.len() - i,
        {
            let bucket: i128 = self.times[i] as i128;
            let sample: i128 = self.last_times[i] as i128;
            if !(bucket <= sample && sample < bucket + 60) {
                assert(!(self.times@[i as int] <= self.last_times@[i as int] < self.times@[i as int]
                    + 60));
                return false;
            }
            i += 1;
        }
        series_id == 1 && same_text(labels, r#"{"host":"a"}"#) && self.times.len() == 16
    }
}

} // verus!
