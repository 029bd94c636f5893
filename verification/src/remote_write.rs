//! Prometheus remote-write requests: varints, protobuf fields and raw snappy.
use crate::bytes::{self, extend, f64_le, pattern_of, push_le};
use crate::order::{self, put_pair, put_pairs};
use vstd::prelude::*;

verus! {

/// A number in base 128, least significant group first; every byte but the
/// last has its top bit set.
pub open spec fn varint(n: nat) -> Seq<u8>
    decreases n,
{
    if n < 128 {
        seq![n as u8]
    } else {
        seq![(n % 128 + 128) as u8] + varint(n / 128)
    }
}

/// The number at the start of `s`, and what follows it.
pub open spec fn read_varint(s: Seq<u8>) -> Option<(nat, Seq<u8>)>
    decreases s.len(),
{
    if s.len() == 0 {
        None
    } else if s[0] < 128 {
        Some((s[0] as nat, s.drop_first()))
    } else {
        match read_varint(s.drop_first()) {
            Some((high, rest)) => Some(((s[0] - 128 + 128 * high) as nat, rest)),
            None => None,
        }
    }
}

/// A length-delimited protobuf field. The key keeps the low 61 bits of the
/// field number.
pub open spec fn field_bytes(field: nat, value: Seq<u8>) -> Seq<u8> {
    varint((field * 8) % 0x1_0000_0000_0000_0000 + 2) + varint(value.len()) + value
}

/// How many bytes a number takes, at least one.
pub open spec fn byte_width(n: nat) -> nat
    decreases n,
{
    if n < 256 {
        1
    } else {
        1 + byte_width(n / 256)
    }
}

/// Raw snappy with one literal element: the length, a tag that carries the
/// length less one, and the value.
pub open spec fn snappy(value: Seq<u8>) -> Seq<u8> {
    if value.len() == 0 {
        seq![0u8]
    } else {
        let less = (value.len() - 1) as nat;
        varint(value.len()) + literal_tag(less) + value
    }
}

/// The tag of a literal of `less + 1` bytes.
pub open spec fn literal_tag(less: nat) -> Seq<u8> {
    if less < 60 {
        seq![(less * 4) as u8]
    } else {
        seq![(((59 + byte_width(less)) * 4) % 256) as u8] + bytes::le(less, byte_width(less))
    }
}

/// A varint is read back as the number that was written, and nothing after it
/// is consumed.
pub proof fn varint_is_read_back(n: nat, rest: Seq<u8>)
    ensures
        read_varint(varint(n) + rest) == Some((n, rest)),
    decreases n,
{
    let s = varint(n) + rest;
    if n < 128 {
        assert(s.drop_first() =~= rest);
    } else {
        varint_is_read_back(n / 128, rest);
        assert(s.drop_first() =~= varint(n / 128) + rest);
    }
}

proof fn width_covers(n: nat)
    ensures
        n < bytes::pow256(byte_width(n)),
        byte_width(n) >= 1,
    decreases n,
{
    reveal_with_fuel(bytes::pow256, 2);
    if n >= 256 {
        width_covers(n / 256);
        let w = byte_width(n / 256);
        assert(n < 256 * bytes::pow256(w)) by (nonlinear_arith)
            requires
                n / 256 < bytes::pow256(w),
        ;
        assert(bytes::pow256(w + 1) == 256 * bytes::pow256(w));
    }
}

proof fn width_grows(n: nat, m: nat)
    requires
        n <= m,
    ensures
        byte_width(n) <= byte_width(m),
    decreases m,
{
    if n >= 256 {
        width_grows(n / 256, m / 256);
    }
}

/// What a snappy reader finds in the literal form: the length comes first, and
/// after the tag stands the value itself. The tag of a value of up to 60 bytes
/// is its length less one in the upper six bits; a longer value, of up to
/// 2^32 bytes, has the tag 60 to 63 there and its length less one in the one
/// to four bytes behind it.
pub proof fn snappy_carries_its_value(value: Seq<u8>)
    requires
        0 < value.len() <= 0x1_0000_0000,
    ensures
        ({
            let read = read_varint(snappy(value));
            let body = read.unwrap().1;
            let less = (value.len() - 1) as nat;
            &&& read is Some
            &&& read.unwrap().0 == value.len()
            &&& body[0] % 4 == 0
            &&& value.len() <= 60 ==> body[0] as nat / 4 == less && body.skip(1) == value
            &&& value.len() > 60 ==> {
                let width = (body[0] as nat / 4 - 59) as nat;
                &&& 1 <= width <= 4
                &&& bytes::le_value(body.skip(1).take(width as int)) == less
                &&& body.skip(1 + width as int) == value
            }
        }),
{
    let less = (value.len() - 1) as nat;
    let body = literal_tag(less) + value;
    assert(snappy(value) =~= varint(value.len()) + body);
    varint_is_read_back(value.len(), body);
    if value.len() <= 60 {
        assert(body.skip(1) =~= value);
    } else {
        let w = byte_width(less);
        width_covers(less);
        width_grows(less, 0xffff_ffff);
        reveal_with_fuel(byte_width, 5);
        assert(byte_width(0xffff_ffff) == 4);
        bytes::le_is_read_back(less, w);
        assert(body[0] == ((59 + w) * 4) as u8);
        assert(body.skip(1).take(w as int) =~= bytes::le(less, w));
        assert(body.skip(1 + w as int) =~= value);
    }
}

/// Encodes a number as a varint.
pub fn protobuf_varint(value: u64) -> (encoded: Vec<u8>)
    ensures
        encoded@ == varint(value as nat),
{
    let mut encoded: Vec<u8> = Vec::new();
    let mut left: u64 = value;
    while left >= 0x80
        invariant
            encoded@ + varint(left as nat) == varint(value as nat),
        decreases left,
    {
        encoded.push((left % 128) as u8 + 128);
        proof {
            let before = encoded@.drop_last();
            assert(encoded@ + varint((left / 128) as nat) =~= before + varint(left as nat));
        }
        left = left / 128;
    }
    encoded.push(left as u8);
    assert(encoded@ =~= encoded@.drop_last() + varint(left as nat));
    encoded
}

/// Encodes a length-delimited protobuf field.
pub fn protobuf_bytes(field: u64, value: &[u8]) -> (encoded: Vec<u8>)
    ensures
        encoded@ == field_bytes(field as nat, value@),
{
    assert(((field << 3) | 2) as int == (field & 0x1fff_ffff_ffff_ffff) * 8 + 2) by (bit_vector);
    assert((field & 0x1fff_ffff_ffff_ffff) == field % 0x2000_0000_0000_0000) by (bit_vector);
    let mut encoded = protobuf_varint((field << 3) | 2);
    let length = protobuf_varint(value.len() as u64);
    extend(&mut encoded, &length);
    extend(&mut encoded, value);
    assert(encoded@ =~= field_bytes(field as nat, value@));
    encoded
}

fn push_minimal_le(out: &mut Vec<u8>, value: u64) -> (width: usize)
    ensures
        width == byte_width(value as nat),
        final(out)@ == old(out)@ + bytes::le(value as nat, byte_width(value as nat)),
        1 <= width <= 8,
{
    let mut width: usize = 1;
    let mut left: u64 = value;
    let ghost mut bound: nat = 0x100_0000_0000_0000;
    assert(bound == bytes::pow256(7)) by {
        reveal_with_fuel(bytes::pow256, 8);
    }
    while left >= 256
        invariant
            1 <= width <= 8,
            left >= 256 ==> width < 8,
            bound == bytes::pow256((8 - width) as nat),
            left < 256 * bound,
            byte_width(value as nat) == width - 1 + byte_width(left as nat),
        decreases left,
    {
        left = left / 256;
        width += 1;
        proof {
            bound = bound / 256;
            assert(bound == bytes::pow256((8 - width) as nat)) by {
                assert(bytes::pow256((9 - width) as nat) == 256 * bytes::pow256((8 - width) as nat));
            }
            if width == 8 {
                assert(bytes::pow256(0) == 1);
            }
        }
    }
    push_le(out, value, width);
    width
}

/// Wraps a value as raw snappy with one literal element.
pub fn snappy_literal(value: &[u8]) -> (encoded: Vec<u8>)
    ensures
        encoded@ == snappy(value@),
{
    let mut encoded: Vec<u8> = Vec::new();
    if value.len() == 0 {
        encoded.push(0);
        assert(encoded@ =~= snappy(value@));
        return encoded;
    }
    encoded = protobuf_varint(value.len() as u64);
    let less: usize = value.len() - 1;
    if value.len() <= 60 {
        encoded.push((less * 4) as u8);
    } else {
        let mut tail: Vec<u8> = Vec::new();
        let width: usize = push_minimal_le(&mut tail, less as u64);
        encoded.push((((59 + width) * 4) % 256) as u8);
        extend(&mut encoded, &tail);
    }
    extend(&mut encoded, value);
    assert(encoded@ =~= snappy(value@));
    encoded
}

/// One series: its name, its samples as bit patterns with offsets in
/// milliseconds, and its own labels.
#[verifier::ext_equal]
pub struct Series {
    pub name: Seq<char>,
    pub points: Seq<(u64, i64)>,
    pub labels: Seq<(Seq<char>, Seq<char>)>,
}

/// All labels of a series in the order of their names: a later label of the
/// same name wins, and the metric name and the job win over both.
pub open spec fn full_labels(s: Series) -> Seq<(Seq<char>, Seq<char>)> {
    order::put(order::put(order::put_all(Seq::empty(), s.labels), "__name__"@, s.name), "job"@, "oracle"@)
}

/// A label message.
pub open spec fn label_bytes(label: (Seq<char>, Seq<char>)) -> Seq<u8> {
    field_bytes(1, field_bytes(1, bytes::utf8(label.0)) + field_bytes(2, bytes::utf8(label.1)))
}

/// The label messages one after the other.
pub open spec fn labels_bytes(labels: Seq<(Seq<char>, Seq<char>)>) -> Seq<u8>
    decreases labels.len(),
{
    if labels.len() == 0 {
        Seq::empty()
    } else {
        labels_bytes(labels.drop_last()) + label_bytes(labels.last())
    }
}

/// A sample message: the value as a fixed 64-bit field and the time as a varint.
pub open spec fn sample_bytes(timestamp_ms: int, point: (u64, i64)) -> Seq<u8> {
    field_bytes(
        2,
        seq![9u8] + bytes::le(point.0 as nat, 8) + varint(16) + varint(
            bytes::pattern64(timestamp_ms + point.1),
        ),
    )
}

/// The sample messages one after the other.
pub open spec fn samples_bytes(timestamp_ms: int, points: Seq<(u64, i64)>) -> Seq<u8>
    decreases points.len(),
{
    if points.len() == 0 {
        Seq::empty()
    } else {
        samples_bytes(timestamp_ms, points.drop_last()) + sample_bytes(timestamp_ms, points.last())
    }
}

/// A series message.
pub open spec fn series_bytes(timestamp_ms: int, s: Series) -> Seq<u8> {
    field_bytes(1, labels_bytes(full_labels(s)) + samples_bytes(timestamp_ms, s.points))
}

/// A write request: its series one after the other.
pub open spec fn request_bytes(timestamp_ms: int, list: Seq<Series>) -> Seq<u8>
    decreases list.len(),
{
    if list.len() == 0 {
        Seq::empty()
    } else {
        request_bytes(timestamp_ms, list.drop_last()) + series_bytes(timestamp_ms, list.last())
    }
}

/// A write request under construction.
pub struct WriteRequest {
    pub timestamp_ms: i64,
    pub encoded: Vec<u8>,
    pub written: Ghost<Seq<Series>>,
}

impl WriteRequest {
    /// The encoded bytes are those of the series written so far.
    pub closed spec fn well_formed(&self) -> bool {
        self.encoded@ == request_bytes(self.timestamp_ms as int, self.written@)
    }

    /// An empty request.
    pub fn new(timestamp_ms: i64) -> (request: Self)
        ensures
            request.well_formed(),
            request.timestamp_ms == timestamp_ms,
            request.written@ == Seq::<Series>::empty(),
            request.encoded@ == Seq::<u8>::empty(),
    {
        WriteRequest { timestamp_ms, encoded: Vec::new(), written: Ghost(Seq::empty()) }
    }

    /// Adds one series.
    pub fn series(&mut self, name: &str, points: &[(u64, i64)], labels: &[(&str, &str)])
        requires
            old(self).well_formed(),
            forall|i: int|
                0 <= i < points@.len() ==> i64::MIN <= old(self).timestamp_ms + (#[trigger] points@[i]).1
                    <= i64::MAX,
        ensures
            final(self).well_formed(),
            final(self).timestamp_ms == old(self).timestamp_ms,
            final(self).written@ == old(self).written@.push(
                (Series { name: name@, points: points@, labels: order::pair_views(labels@) }),
            ),
    {
        let ghost model = Series { name: name@, points: points@, labels: order::pair_views(labels@) };
        let mut sorted: Vec<(&str, &str)> = Vec::new();
        assert(order::pair_views(sorted@) =~= Seq::empty());
        put_pairs(&mut sorted, labels);
        put_pair(&mut sorted, "__name__", name);
        put_pair(&mut sorted, "job", "oracle");
        let mut series: Vec<u8> = Vec::new();
        let mut i: usize = 0;
        assert(order::pair_views(sorted@.take(0)) =~= Seq::empty());
        while i < sorted.len()
            invariant
                i <= sorted@.len(),
                series@ == labels_bytes(order::pair_views(sorted@.take(i as int))),
            decreases sorted.len() - i,
        {
            let entry: (&str, &str) = sorted[i];
            let mut label = protobuf_bytes(1, entry.0.as_bytes());
            let value = protobuf_bytes(2, entry.1.as_bytes());
            extend(&mut label, &value);
            let message = protobuf_bytes(1, &label);
            extend(&mut series, &message);
            i += 1;
            proof {
                let now = order::pair_views(sorted@.take(i as int));
                assert(now.drop_last() =~= order::pair_views(sorted@.take(i - 1)));
                assert(now.last() == (entry.0@, entry.1@));
            }
        }
        assert(sorted@.take(i as int) =~= sorted@);
        let ghost head = series@;
        let timestamp_ms: i64 = self.timestamp_ms;
        let mut k: usize = 0;
        assert(head + samples_bytes(timestamp_ms as int, points@.take(0)) =~= head);
        while k < points.len()
            invariant
                k <= points@.len(),
                forall|i: int|
                    0 <= i < points@.len() ==> i64::MIN <= timestamp_ms + (#[trigger] points@[i]).1
                        <= i64::MAX,
                series@ == head + samples_bytes(timestamp_ms as int, points@.take(k as int)),
            decreases points.len() - k,
        {
            let point: (u64, i64) = points[k];
            let mut sample: Vec<u8> = Vec::new();
            sample.push(9);
            f64_le(&mut sample, point.0);
            let key = protobuf_varint(16);
            extend(&mut sample, &key);
            let time = protobuf_varint(pattern_of(timestamp_ms + point.1));
            extend(&mut sample, &time);
            assert(sample@ =~= seq![9u8] + bytes::le(point.0 as nat, 8) + varint(16) + varint(
                bytes::pattern64(timestamp_ms + point.1),
            ));
            let message = protobuf_bytes(2, &sample);
            extend(&mut series, &message);
            k += 1;
            proof {
                let now = points@.take(k as int);
                assert(now.drop_last() =~= points@.take(k - 1));
                assert(now.last() == point);
                assert(series@ =~= head + samples_bytes(timestamp_ms as int, now));
            }
        }
        assert(points@.take(k as int) =~= points@);
        let message = protobuf_bytes(1, &series);
        extend(&mut self.encoded, &message);
        self.written = Ghost(self.written@.push(model));
        assert(self.written@.drop_last() =~= old(self).written@);
    }

    /// The finished request body.
    pub fn finish(self) -> (body: Vec<u8>)
        requires
            self.well_formed(),
        ensures
            body@ == snappy(request_bytes(self.timestamp_ms as int, self.written@)),
    {
        snappy_literal(&self.encoded)
    }
}

} // verus!
