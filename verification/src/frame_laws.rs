//! What holds of every frame that is decoded and compared.
use crate::bytes;
use crate::frames::{self, Aggregate, FrameValue, Rollup};
use crate::ieee;
use crate::values::SqlValue;
use vstd::prelude::*;

verus! {

/// The bit of a place in a bitmap is the bit of its byte that the place counts from the
/// lowest on.
pub proof fn bits_count_from_the_lowest(bitmap: Seq<u8>, i: int)
    requires
        0 <= i,
        i / 8 < bitmap.len(),
    ensures
        i % 8 == 0 ==> (frames::bit(bitmap, i) <==> bitmap[i / 8] % 2 == 1),
        i % 8 == 1 ==> (frames::bit(bitmap, i) <==> bitmap[i / 8] % 4 >= 2),
        i % 8 == 2 ==> (frames::bit(bitmap, i) <==> bitmap[i / 8] % 8 >= 4),
        i % 8 == 3 ==> (frames::bit(bitmap, i) <==> bitmap[i / 8] % 16 >= 8),
        i % 8 == 4 ==> (frames::bit(bitmap, i) <==> bitmap[i / 8] % 32 >= 16),
        i % 8 == 5 ==> (frames::bit(bitmap, i) <==> bitmap[i / 8] % 64 >= 32),
        i % 8 == 6 ==> (frames::bit(bitmap, i) <==> bitmap[i / 8] % 128 >= 64),
        i % 8 == 7 ==> (frames::bit(bitmap, i) <==> bitmap[i / 8] >= 128),
{
    reveal_with_fuel(frames::pow2, 9);
    let b = bitmap[i / 8] as int;
    let p = frames::pow2((i % 8) as nat) as int;
    if i % 8 == 0 {
        assert(p == 1);
        assert(b / p == b / 1);
    }
    if i % 8 == 1 {
        assert(p == 2);
        assert(b / p == b / 2);
    }
    if i % 8 == 2 {
        assert(p == 4);
        assert(b / p == b / 4);
    }
    if i % 8 == 3 {
        assert(p == 8);
        assert(b / p == b / 8);
    }
    if i % 8 == 4 {
        assert(p == 16);
        assert(b / p == b / 16);
    }
    if i % 8 == 5 {
        assert(p == 32);
        assert(b / p == b / 32);
    }
    if i % 8 == 6 {
        assert(p == 64);
        assert(b / p == b / 64);
    }
    if i % 8 == 7 {
        assert(p == 128);
        assert(b / p == b / 128);
    }
}

/// The bits behind the rows are clear.
pub proof fn no_bit_stands_behind_the_rows(bitmap: Seq<u8>, count: int, i: int)
    requires
        0 <= count <= i < 8 * bitmap.len(),
        bitmap.len() == (count + 7) / 8,
        frames::clear_tail(bitmap, count),
    ensures
        !frames::bit(bitmap, i),
{
    bits_count_from_the_lowest(bitmap, i);
    reveal_with_fuel(frames::pow2, 9);
    assert(i / 8 == bitmap.len() - 1);
    assert(count % 8 <= i % 8);
    assert(count % 8 > 0);
    let b = bitmap.last();
    assert(bitmap[i / 8] == b);
    assert(count % 8 == 1 || count % 8 == 2 || count % 8 == 3 || count % 8 == 4 || count % 8 == 5
        || count % 8 == 6 || count % 8 == 7);
}

/// A row of an aggregate frame is read from its own bytes: the identifier behind the
/// head, the value behind the identifiers and the bitmap, and it is there exactly if its
/// bit is set.
pub proof fn aggregate_rows_are_read_from_their_bytes(blob: Seq<u8>, i: int)
    requires
        frames::valid_aggregate(blob),
        0 <= i < bytes::le_value(blob.subrange(8, 12)),
    ensures
        ({
            let n = bytes::le_value(blob.subrange(8, 12)) as int;
            let map = 12 + 8 * n;
            let at = map + (n + 7) / 8 + 8 * i;
            let word = bytes::le_value(blob.subrange(at, at + 8));
            let row = frames::aggregate_rows(blob)[i];
            &&& blob.len() == 12 + 16 * n + (n + 7) / 8
            &&& frames::aggregate_rows(blob).len() == n
            &&& row.0 == bytes::signed64(
                bytes::le_value(blob.subrange(12 + 8 * i, 20 + 8 * i)),
            ) as i64
            &&& frames::bit(blob.subrange(map, map + (n + 7) / 8), i) <==> !(row.1 is Absent)
            &&& row.1 matches FrameValue::Integer(value) ==> blob[4] == 4 && value == word
            &&& row.1 matches FrameValue::Real(bits) ==> blob[4] < 4 && bits == word as u64
            &&& row.1 is Absent ==> word == 0 && blob[4] != 4
        }),
{
    let n = bytes::le_value(blob.subrange(8, 12)) as int;
    assert(frames::aggregate_count(blob) == n);
    assert(n * 8 == 8 * n && i * 8 == 8 * i);
    assert(frames::aggregate_row_ok(
        blob[4],
        frames::bit(frames::aggregate_bitmap(blob), i),
        frames::aggregate_word(blob, i),
    ));
    assert(frames::aggregate_bitmap(blob) == blob.subrange(12 + 8 * n, 12 + 8 * n + (n + 7) / 8));
}

/// A row of a frame of latest samples is read from its own bytes: the identifiers, then
/// the times, then the bitmap, then the values.
pub proof fn latest_rows_are_read_from_their_bytes(blob: Seq<u8>, i: int)
    requires
        frames::valid_latest(blob),
        0 <= i < bytes::le_value(blob.subrange(4, 8)),
    ensures
        ({
            let n = bytes::le_value(blob.subrange(4, 8)) as int;
            let map = 8 + 16 * n;
            let at = map + (n + 7) / 8 + 8 * i;
            let word = bytes::le_value(blob.subrange(at, at + 8));
            let row = frames::latest_rows(blob)[i];
            &&& blob.len() == 8 + 24 * n + (n + 7) / 8
            &&& frames::latest_rows(blob).len() == n
            &&& row.0 == bytes::signed64(
                bytes::le_value(blob.subrange(8 + 8 * i, 16 + 8 * i)),
            ) as i64
            &&& row.1 == bytes::signed64(
                bytes::le_value(blob.subrange(8 + 8 * n + 8 * i, 16 + 8 * n + 8 * i)),
            ) as i64
            &&& frames::bit(blob.subrange(map, map + (n + 7) / 8), i) <==> row.2 is Some
            &&& row.2 matches Some(bits) ==> bits == word as u64 && !ieee::is_nan(bits)
            &&& row.2 is None ==> word == 0
        }),
{
    let n = bytes::le_value(blob.subrange(4, 8)) as int;
    assert(frames::latest_count(blob) == n);
    assert(n * 8 == 8 * n && i * 8 == 8 * i && n * 16 == 16 * n);
    assert(frames::latest_row_ok(
        frames::bit(frames::latest_bitmap(blob), i),
        frames::latest_word(blob, i),
    ));
    assert(frames::latest_bitmap(blob) == blob.subrange(8 + 16 * n, 8 + 16 * n + (n + 7) / 8));
}

/// A word of a rollup stands in its column at its place.
pub proof fn rollup_words_stand_in_their_columns(blob: Seq<u8>, column: int, i: int)
    requires
        frames::valid_rollup(blob),
        0 <= column < 8,
        0 <= i < bytes::le_value(blob.subrange(4, 8)),
    ensures
        ({
            let n = bytes::le_value(blob.subrange(4, 8)) as int;
            let at = 8 + 8 * (column * n + i);
            let word = bytes::le_value(blob.subrange(at, at + 8));
            &&& blob.len() == 8 + 64 * n
            &&& frames::rollup_column(blob, column).len() == n
            &&& frames::rollup_column(blob, column)[i] == word as u64
            &&& frames::rollup_times(blob, column).len() == n
            &&& frames::rollup_times(blob, column)[i] == bytes::signed64(word) as i64
        }),
{
    let n = bytes::le_value(blob.subrange(4, 8)) as int;
    let at = 8 + 8 * (column * n + i);
    assert(8 + column * n * 8 + i * 8 == at) by (nonlinear_arith)
        requires
            at == 8 + 8 * (column * n + i),
    ;
    assert(frames::rollup_count(blob) == n);
}

/// The number of eight bytes in a column of a rollup.
pub open spec fn word_at(blob: Seq<u8>, column: int, i: int) -> nat {
    let n = bytes::le_value(blob.subrange(4, 8)) as int;
    let at = 8 + 8 * (column * n + i);
    bytes::le_value(blob.subrange(at, at + 8))
}

/// A bucket of a rollup is its time, how many samples it has, their average, their sum,
/// the least and the greatest of them, and the time and the value of the last: in this
/// order a word in each column.
pub proof fn buckets_are_read_column_by_column(r: Rollup, blob: Seq<u8>, i: int)
    requires
        frames::valid_rollup(blob),
        frames::holds_columns(r, blob),
        0 <= i < bytes::le_value(blob.subrange(4, 8)),
    ensures
        r.times@.len() == bytes::le_value(blob.subrange(4, 8)),
        r.times@[i] == bytes::signed64(word_at(blob, 0, i)) as i64,
        r.counts@[i] == word_at(blob, 1, i) as u64,
        r.average@[i] == word_at(blob, 2, i) as u64,
        r.sum@[i] == word_at(blob, 3, i) as u64,
        r.minimum@[i] == word_at(blob, 4, i) as u64,
        r.maximum@[i] == word_at(blob, 5, i) as u64,
        r.last_times@[i] == bytes::signed64(word_at(blob, 6, i)) as i64,
        r.last@[i] == word_at(blob, 7, i) as u64,
{
    rollup_words_stand_in_their_columns(blob, 0, i);
    rollup_words_stand_in_their_columns(blob, 1, i);
    rollup_words_stand_in_their_columns(blob, 2, i);
    rollup_words_stand_in_their_columns(blob, 3, i);
    rollup_words_stand_in_their_columns(blob, 4, i);
    rollup_words_stand_in_their_columns(blob, 5, i);
    rollup_words_stand_in_their_columns(blob, 6, i);
    rollup_words_stand_in_their_columns(blob, 7, i);
}

/// The rows of a query are those of a rollup exactly if they pair its times with the
/// words of the asked column.
pub proof fn rollup_rows_are_paired(r: Rollup, aggregate: Aggregate, rows: Seq<(i64, u64)>)
    ensures
        r.rows_are(r.words(aggregate), rows) ==> rows.len() == r.times@.len() && forall|i: int|
            0 <= i < rows.len() ==> (#[trigger] rows[i]).0 == r.times@[i] && rows[i].1 == (
            match aggregate {
                Aggregate::Average => r.average@[i],
                Aggregate::Sum => r.sum@[i],
                Aggregate::Minimum => r.minimum@[i],
                Aggregate::Maximum => r.maximum@[i],
                Aggregate::Last => r.last@[i],
            }),
{
}

/// Two results that agree with one frame agree with each other: the same identifiers in
/// the same order, and the same values.
pub proof fn results_of_one_frame_agree(
    rows: Seq<(i64, FrameValue)>,
    first: Seq<Vec<SqlValue>>,
    second: Seq<Vec<SqlValue>>,
    i: int,
)
    requires
        frames::frame_agrees(rows, first),
        frames::frame_agrees(rows, second),
        0 <= i < first.len(),
    ensures
        first.len() == second.len() == rows.len(),
        first[i]@.len() == second[i]@.len() == 2,
        first[i]@[0] == second[i]@[0],
        first[i]@[0] is Integer,
        match (first[i]@[1], second[i]@[1]) {
            (SqlValue::Null, SqlValue::Null) => true,
            (SqlValue::Integer(a), SqlValue::Integer(b)) => a == b,
            (SqlValue::Real(a), SqlValue::Real(b)) => a == b || (a as int % 0x8000_0000_0000_0000
                == 0 && b as int % 0x8000_0000_0000_0000 == 0),
            _ => false,
        },
{
    frames::ordering_keeps_the_rows(rows);
    let sorted = frames::by_identifier(rows);
    assert(frames::agrees(sorted[i], first[i]@));
    assert(frames::agrees(sorted[i], second[i]@));
}

/// A frame agrees with its own rows in the order of their identifiers, and a row that
/// has another identifier or another value makes it disagree.
pub proof fn frames_agree_with_their_rows(
    rows: Seq<(i64, FrameValue)>,
    expected: Seq<Vec<SqlValue>>,
)
    ensures
        frames::frame_agrees(rows, expected) <==> {
            let sorted = frames::by_identifier(rows);
            &&& expected.len() == rows.len()
            &&& forall|i: int|
                0 <= i < expected.len() ==> shows(sorted[i], (#[trigger] expected[i])@)
        },
{
    frames::ordering_keeps_the_rows(rows);
    let sorted = frames::by_identifier(rows);
    if frames::frame_agrees(rows, expected) {
        assert forall|i: int| 0 <= i < expected.len() implies shows(
            sorted[i],
            (#[trigger] expected[i])@,
        ) by {
            assert(frames::agrees(sorted[i], expected[i]@));
        }
    }
    if expected.len() == rows.len() && forall|i: int|
        0 <= i < expected.len() ==> shows(sorted[i], (#[trigger] expected[i])@) {
        assert forall|i: int| 0 <= i < sorted.len() implies frames::agrees(
            #[trigger] sorted[i],
            expected[i]@,
        ) by {
            assert(shows(sorted[i], expected[i]@));
        }
    }
}

/// The two cells of a row show an identifier and a value.
pub open spec fn shows(row: (i64, FrameValue), cells: Seq<SqlValue>) -> bool {
    &&& cells.len() == 2
    &&& cells[0] == SqlValue::Integer(row.0)
    &&& match (row.1, cells[1]) {
        (FrameValue::Absent, SqlValue::Null) => true,
        (FrameValue::Integer(a), SqlValue::Integer(b)) => a == b,
        (FrameValue::Real(a), SqlValue::Real(b)) => !ieee::is_nan(a) && (a == b || (a as int
            % 0x8000_0000_0000_0000 == 0 && b as int % 0x8000_0000_0000_0000 == 0)),
        _ => false,
    }
}

/// Latest samples agree only with samples of the same identifiers, times and values.
pub proof fn samples_of_one_frame_agree(
    rows: Seq<(i64, i64, Option<u64>)>,
    first: Seq<(i64, i64, Option<u64>)>,
    second: Seq<(i64, i64, Option<u64>)>,
    i: int,
)
    requires
        frames::samples_agree(rows, first),
        frames::samples_agree(rows, second),
        0 <= i < first.len(),
    ensures
        first.len() == second.len() == rows.len(),
        first[i].0 == second[i].0,
        first[i].1 == second[i].1,
        match (first[i].2, second[i].2) {
            (None, None) => true,
            (Some(a), Some(b)) => a == b || (a as int % 0x8000_0000_0000_0000 == 0 && b as int
                % 0x8000_0000_0000_0000 == 0),
            _ => false,
        },
        i > 0 ==> first[i - 1].0 <= first[i].0,
{
    let pairs = frames::sample_pairs(rows);
    frames::ordering_keeps_the_rows(pairs);
    let sorted = frames::by_identifier(pairs);
    assert(frames::equal_samples(sorted[i], first[i]));
    assert(frames::equal_samples(sorted[i], second[i]));
    if i > 0 {
        assert(frames::equal_samples(sorted[i - 1], first[i - 1]));
        assert(sorted[i - 1].0 <= sorted[i].0);
    }
}

} // verus!
