//! What a reader finds in every write request and in every crash workload.
use crate::bytes;
use crate::crash;
use crate::order;
use crate::remote_write::{self, Series};
use crate::text;
use vstd::prelude::*;

verus! {

/// A number, read from the start of some bytes, and what follows it.
pub open spec fn begins_with_number(s: Seq<u8>, n: nat, rest: Seq<u8>) -> bool {
    remote_write::read_varint(s) == Some((n, rest))
}

/// Some bytes begin with a field that is preceded by its length: its key names the number
/// and the kind, then come the length and the value.
pub open spec fn begins_with_field(s: Seq<u8>, field: nat, value: Seq<u8>, rest: Seq<u8>) -> bool {
    exists|a: Seq<u8>, b: Seq<u8>|
        begins_with_number(s, field * 8 + 2, a) && #[trigger] begins_with_number(a, value.len(), b)
            && b == value + rest
}

/// A field is read back: its number, its kind, its length and its value, and nothing
/// behind it.
pub proof fn fields_are_read_back(field: nat, value: Seq<u8>, rest: Seq<u8>)
    requires
        field < 0x2000_0000_0000_0000,
    ensures
        begins_with_field(remote_write::field_bytes(field, value) + rest, field, value, rest),
{
    let k = remote_write::varint(field * 8 + 2);
    let l = remote_write::varint(value.len());
    assert((field * 8) % 0x1_0000_0000_0000_0000 == field * 8);
    let s = remote_write::field_bytes(field, value) + rest;
    assert(s =~= k + (l + (value + rest)));
    remote_write::varint_is_read_back(field * 8 + 2, l + (value + rest));
    remote_write::varint_is_read_back(value.len(), value + rest);
    assert(begins_with_number(l + (value + rest), value.len(), value + rest));
}

/// A label is field one of its series; in it, field one is the name and field two the
/// value, both in UTF-8.
pub proof fn labels_are_read_back(name: Seq<char>, value: Seq<char>, rest: Seq<u8>)
    ensures
        exists|message: Seq<u8>, second: Seq<u8>|
            begins_with_field(remote_write::label_bytes((name, value)) + rest, 1, message, rest)
                && #[trigger] begins_with_field(
                message,
                1,
                vstd::utf8::encode_utf8(name),
                second,
            ) && begins_with_field(second, 2, vstd::utf8::encode_utf8(value), Seq::empty()),
{
    let n = vstd::utf8::encode_utf8(name);
    let v = vstd::utf8::encode_utf8(value);
    let second = remote_write::field_bytes(2, v);
    let message = remote_write::field_bytes(1, n) + second;
    fields_are_read_back(1, message, rest);
    fields_are_read_back(1, n, second);
    fields_are_read_back(2, v, Seq::empty());
    assert(second + Seq::empty() =~= second);
    assert(begins_with_field(message, 1, n, second));
}

/// A sample is field two of its series; in it, field one holds the bits of the value in
/// eight bytes and field two the time, which is that of the request and the offset of the
/// sample.
pub proof fn samples_are_read_back(timestamp_ms: int, bits: u64, offset: i64, rest: Seq<u8>)
    requires
        i64::MIN <= timestamp_ms + offset <= i64::MAX,
    ensures
        exists|message: Seq<u8>, tail: Seq<u8>, pattern: nat|
            begins_with_field(
                remote_write::sample_bytes(timestamp_ms, (bits, offset)) + rest,
                2,
                message,
                rest,
            ) && message.len() >= 9 && message[0] == 9 && bytes::le_value(message.subrange(1, 9))
                == bits && #[trigger] begins_with_number(message.skip(9), 16, tail)
                && #[trigger] begins_with_number(tail, pattern, Seq::empty())
                && bytes::signed64(pattern) == timestamp_ms + offset,
{
    let time = timestamp_ms + offset;
    let pattern = bytes::pattern64(time);
    let value = bytes::le(bits as nat, 8);
    let tail = remote_write::varint(pattern);
    let key = remote_write::varint(16);
    let message = seq![9u8] + value + key + tail;
    assert(bytes::pow256(8) == 0x1_0000_0000_0000_0000) by {
        reveal_with_fuel(bytes::pow256, 9);
    }
    bytes::le_is_read_back(bits as nat, 8);
    bytes::signed_is_read_back(time as i64);
    fields_are_read_back(2, message, rest);
    assert(message.subrange(1, 9) =~= value);
    assert(message.skip(9) =~= key + tail);
    remote_write::varint_is_read_back(16, tail);
    remote_write::varint_is_read_back(pattern, Seq::empty());
    assert(tail + Seq::empty() =~= tail);
    assert(begins_with_number(message.skip(9), 16, tail));
    assert(begins_with_number(tail, pattern, Seq::empty()));
    assert(remote_write::sample_bytes(timestamp_ms, (bits, offset))
        == remote_write::field_bytes(2, message));
    assert(message[0] == 9);
    assert(bytes::le_value(message.subrange(1, 9)) == bits);
    assert(bytes::signed64(pattern) == timestamp_ms + offset);
}

/// One more series adds one message behind the others: field one of the request, with the
/// labels before the samples.
pub proof fn series_follow_each_other(timestamp_ms: int, list: Seq<Series>, s: Series)
    ensures
        exists|added: Seq<u8>, message: Seq<u8>|
            remote_write::request_bytes(timestamp_ms, list.push(s))
                == remote_write::request_bytes(timestamp_ms, list) + added
                && #[trigger] begins_with_field(added, 1, message, Seq::empty()) && message
                == remote_write::labels_bytes(remote_write::full_labels(s))
                + remote_write::samples_bytes(timestamp_ms, s.points),
        remote_write::request_bytes(timestamp_ms, Seq::empty()).len() == 0,
{
    let message = remote_write::labels_bytes(remote_write::full_labels(s))
        + remote_write::samples_bytes(timestamp_ms, s.points);
    let added = remote_write::series_bytes(timestamp_ms, s);
    assert(list.push(s).drop_last() =~= list);
    fields_are_read_back(1, message, Seq::empty());
    assert(added + Seq::empty() =~= added);
    assert(begins_with_field(added, 1, message, Seq::empty()));
}

/// One more sample, or one more label, adds its message behind the others.
pub proof fn messages_follow_each_other(
    timestamp_ms: int,
    points: Seq<(u64, i64)>,
    point: (u64, i64),
    labels: Seq<(Seq<char>, Seq<char>)>,
    label: (Seq<char>, Seq<char>),
)
    ensures
        remote_write::samples_bytes(timestamp_ms, points.push(point))
            == remote_write::samples_bytes(timestamp_ms, points) + remote_write::sample_bytes(
            timestamp_ms,
            point,
        ),
        remote_write::labels_bytes(labels.push(label)) == remote_write::labels_bytes(labels)
            + remote_write::label_bytes(label),
        remote_write::samples_bytes(timestamp_ms, Seq::empty()).len() == 0,
        remote_write::labels_bytes(Seq::empty()).len() == 0,
{
    assert(points.push(point).drop_last() =~= points);
    assert(labels.push(label).drop_last() =~= labels);
}

/// Every series carries its name and the job, whatever its own labels say, and beside them
/// every label that it has of its own.
pub proof fn series_carry_their_name(s: Series, key: Seq<char>)
    ensures
        order::lookup(remote_write::full_labels(s), "__name__"@) == Some(s.name),
        order::lookup(remote_write::full_labels(s), "job"@) == Some("oracle"@),
        key != "__name__"@ && key != "job"@ ==> order::lookup(remote_write::full_labels(s), key)
            == order::lookup(order::put_all(Seq::empty(), s.labels), key),
{
    reveal_strlit("__name__");
    reveal_strlit("job");
    assert("__name__"@.len() == 8);
    assert("job"@.len() == 3);
    let own = order::put_all(Seq::empty(), s.labels);
    let named = order::put(own, "__name__"@, s.name);
    order::put_is_found(own, "__name__"@, s.name, key);
    order::put_is_found(named, "job"@, "oracle"@, "__name__"@);
    order::put_is_found(named, "job"@, "oracle"@, key);
}

/// A text stands in another between two others.
pub open spec fn stands_between(t: Seq<char>, left: Seq<char>, part: Seq<char>, right: Seq<char>) -> bool {
    exists|p: Seq<char>, q: Seq<char>| t == #[trigger] (p + left + part + right + q)
}

proof fn last_stand(p: Seq<char>, left: Seq<char>, part: Seq<char>, right: Seq<char>)
    ensures
        stands_between(p + left + part + right, left, part, right),
{
    assert(p + left + part + right =~= p + left + part + right + Seq::empty());
}

proof fn stand_stays(t: Seq<char>, left: Seq<char>, part: Seq<char>, right: Seq<char>, more: Seq<char>)
    requires
        stands_between(t, left, part, right),
    ensures
        stands_between(t + more, left, part, right),
{
    let (p, q) = choose|p: Seq<char>, q: Seq<char>| t == #[trigger] (p + left + part + right + q);
    assert(t + more =~= p + left + part + right + (q + more));
}

proof fn prefix_grows(a: Seq<char>, b: Seq<char>, c: Seq<char>)
    requires
        a.is_prefix_of(b),
    ensures
        a.is_prefix_of(b + c),
{
    assert((b + c).subrange(0, a.len() as int) =~= b.subrange(0, a.len() as int));
}

/// A metric of a workload is one of three in turn. Its time is a second later for each row
/// of a round and a hundred seconds later for each round; its value names both, and its
/// host is one of two in turn.
pub proof fn metrics_carry_their_time(before: Seq<char>, round: nat, index: nat)
    ensures
        before.is_prefix_of(crash::metric_after(before, round, index)),
        stands_between(
            crash::metric_after(before, round, index),
            "INSERT INTO metrics(name, ts, value, labels) VALUES ('m"@,
            text::decimal(index % 3),
            "', "@,
        ),
        stands_between(
            crash::metric_after(before, round, index),
            "', "@,
            text::decimal((1_700_000_000 + 100 * round + index) as nat),
            ", "@,
        ),
        stands_between(
            crash::metric_after(before, round, index),
            ", '{\"host\":\"h"@,
            text::decimal(index % 2),
            "\"}');\n"@,
        ),
{
    let t = crash::metric_after(before, round, index);
    let c0 = before;
    let c1 = "INSERT INTO metrics(name, ts, value, labels) VALUES ('m"@;
    let c2 = text::decimal(index % 3);
    let c3 = "', "@;
    let c4 = text::decimal((1_700_000_000 + round * 100 + index) as nat);
    let c5 = ", "@;
    let c6 = text::decimal(round);
    let c7 = "."@;
    let c8 = text::decimal(index);
    let c9 = ", '{\"host\":\"h"@;
    let c10 = text::decimal(index % 2);
    let c11 = "\"}');\n"@;
    let p0 = c0;
    let p1 = p0 + c1;
    let p2 = p1 + c2;
    let p3 = p2 + c3;
    let p4 = p3 + c4;
    let p5 = p4 + c5;
    let p6 = p5 + c6;
    let p7 = p6 + c7;
    let p8 = p7 + c8;
    let p9 = p8 + c9;
    let p10 = p9 + c10;
    let p11 = p10 + c11;
    assert(p11 == t);
    prefix_grows(before, p0, c1);
    prefix_grows(before, p1, c2);
    prefix_grows(before, p2, c3);
    prefix_grows(before, p3, c4);
    prefix_grows(before, p4, c5);
    prefix_grows(before, p5, c6);
    prefix_grows(before, p6, c7);
    prefix_grows(before, p7, c8);
    prefix_grows(before, p8, c9);
    prefix_grows(before, p9, c10);
    prefix_grows(before, p10, c11);
    assert(text::decimal(index % 3) == c2);
    last_stand(p0, c1, c2, c3);
    stand_stays(p3, c1, c2, c3, c4);
    stand_stays(p4, c1, c2, c3, c5);
    stand_stays(p5, c1, c2, c3, c6);
    stand_stays(p6, c1, c2, c3, c7);
    stand_stays(p7, c1, c2, c3, c8);
    stand_stays(p8, c1, c2, c3, c9);
    stand_stays(p9, c1, c2, c3, c10);
    stand_stays(p10, c1, c2, c3, c11);
    assert(text::decimal((1_700_000_000 + 100 * round + index) as nat) == c4);
    last_stand(p2, c3, c4, c5);
    stand_stays(p5, c3, c4, c5, c6);
    stand_stays(p6, c3, c4, c5, c7);
    stand_stays(p7, c3, c4, c5, c8);
    stand_stays(p8, c3, c4, c5, c9);
    stand_stays(p9, c3, c4, c5, c10);
    stand_stays(p10, c3, c4, c5, c11);
    assert(text::decimal(index % 2) == c10);
    last_stand(p8, c9, c10, c11);
}

/// A log entry of a workload is a millisecond later for each row of a round and a second
/// later for each round; every fourth is an error; its message names the round and the
/// row.
pub proof fn logs_carry_their_time(before: Seq<char>, round: nat, index: nat)
    ensures
        before.is_prefix_of(crash::log_after(before, round, index)),
        stands_between(
            crash::log_after(before, round, index),
            "INSERT INTO logs(ts, level, message, service) VALUES ("@,
            text::decimal((1_700_000_000_000 + 1000 * round + index) as nat),
            ", '"@,
        ),
        stands_between(
            crash::log_after(before, round, index),
            ", '"@,
            if index % 4 == 3 { "error"@ } else { "info"@ },
            "', 'round "@,
        ),
        stands_between(
            crash::log_after(before, round, index),
            "', 'round "@,
            text::decimal(round),
            " entry "@,
        ),
        stands_between(
            crash::log_after(before, round, index),
            " entry "@,
            text::decimal(index),
            "', 'svc"@,
        ),
{
    let t = crash::log_after(before, round, index);
    let c0 = before;
    let c1 = "INSERT INTO logs(ts, level, message, service) VALUES ("@;
    let c2 = text::decimal((1_700_000_000_000 + round * 1000 + index) as nat);
    let c3 = ", '"@;
    let c4 = crash::log_level(index)@;
    let c5 = "', 'round "@;
    let c6 = text::decimal(round);
    let c7 = " entry "@;
    let c8 = text::decimal(index);
    let c9 = "', 'svc"@;
    let c10 = text::decimal(index % 2);
    let c11 = "');\n"@;
    let p0 = c0;
    let p1 = p0 + c1;
    let p2 = p1 + c2;
    let p3 = p2 + c3;
    let p4 = p3 + c4;
    let p5 = p4 + c5;
    let p6 = p5 + c6;
    let p7 = p6 + c7;
    let p8 = p7 + c8;
    let p9 = p8 + c9;
    let p10 = p9 + c10;
    let p11 = p10 + c11;
    assert(p11 == t);
    prefix_grows(before, p0, c1);
    prefix_grows(before, p1, c2);
    prefix_grows(before, p2, c3);
    prefix_grows(before, p3, c4);
    prefix_grows(before, p4, c5);
    prefix_grows(before, p5, c6);
    prefix_grows(before, p6, c7);
    prefix_grows(before, p7, c8);
    prefix_grows(before, p8, c9);
    prefix_grows(before, p9, c10);
    prefix_grows(before, p10, c11);
    assert(text::decimal((1_700_000_000_000 + 1000 * round + index) as nat) == c2);
    last_stand(p0, c1, c2, c3);
    stand_stays(p3, c1, c2, c3, c4);
    stand_stays(p4, c1, c2, c3, c5);
    stand_stays(p5, c1, c2, c3, c6);
    stand_stays(p6, c1, c2, c3, c7);
    stand_stays(p7, c1, c2, c3, c8);
    stand_stays(p8, c1, c2, c3, c9);
    stand_stays(p9, c1, c2, c3, c10);
    stand_stays(p10, c1, c2, c3, c11);
    assert(if index % 4 == 3 { "error"@ } else { "info"@ } == c4);
    last_stand(p2, c3, c4, c5);
    stand_stays(p5, c3, c4, c5, c6);
    stand_stays(p6, c3, c4, c5, c7);
    stand_stays(p7, c3, c4, c5, c8);
    stand_stays(p8, c3, c4, c5, c9);
    stand_stays(p9, c3, c4, c5, c10);
    stand_stays(p10, c3, c4, c5, c11);
    assert(text::decimal(round) == c6);
    last_stand(p4, c5, c6, c7);
    stand_stays(p7, c5, c6, c7, c8);
    stand_stays(p8, c5, c6, c7, c9);
    stand_stays(p9, c5, c6, c7, c10);
    stand_stays(p10, c5, c6, c7, c11);
    assert(text::decimal(index) == c8);
    last_stand(p6, c7, c8, c9);
    stand_stays(p9, c7, c8, c9, c10);
    stand_stays(p10, c7, c8, c9, c11);
}

/// A span of a workload belongs to one of seven traces of its round, and its own identity
/// is its number in the workload. Every fifth is an error, and it starts a nanosecond
/// after the one before it.
pub proof fn spans_carry_their_identity(before: Seq<char>, round: nat, index: nat)
    ensures
        before.is_prefix_of(crash::span_head_after(before, round, index)),
        stands_between(
            crash::span_head_after(before, round, index),
            "VALUES (x'"@,
            text::hexadecimal((31 * round + index % 7) as nat, 32),
            "', x'"@,
        ),
        stands_between(
            crash::span_head_after(before, round, index),
            "', x'"@,
            text::hexadecimal((1000 * round + index) as nat, 16),
            "', 'op"@,
        ),
        stands_between(
            crash::span_head_after(before, round, index),
            "', 'must-not-win', '"@,
            if index % 5 == 0 { "error"@ } else { "ok"@ },
            "', "@,
        ),
        stands_between(
            crash::span_head_after(before, round, index),
            "', "@,
            text::decimal((1_700_000_000_000_000_000 + 1_000_000 * round + index) as nat),
            ",\n"@,
        ),
{
    let t = crash::span_head_after(before, round, index);
    let c0 = before;
    let c1 = "INSERT INTO traces(trace_id, span_id, name, service, status, start_ts, attributes, status_description, events, resource, instrumentation_scope)\n"@;
    let c2 = "VALUES (x'"@;
    let c3 = text::hexadecimal((round * 31 + index % 7) as nat, 32);
    let c4 = "', x'"@;
    let c5 = text::hexadecimal((round * 1000 + index) as nat, 16);
    let c6 = "', 'op"@;
    let c7 = text::decimal(index % 3);
    let c8 = "', 'must-not-win', '"@;
    let c9 = crash::span_status(index)@;
    let c10 = "', "@;
    let c11 = text::decimal(crash::span_time(round, index));
    let c12 = ",\n"@;
    let p0 = c0;
    let p1 = p0 + c1;
    let p2 = p1 + c2;
    let p3 = p2 + c3;
    let p4 = p3 + c4;
    let p5 = p4 + c5;
    let p6 = p5 + c6;
    let p7 = p6 + c7;
    let p8 = p7 + c8;
    let p9 = p8 + c9;
    let p10 = p9 + c10;
    let p11 = p10 + c11;
    let p12 = p11 + c12;
    assert(p12 == t);
    prefix_grows(before, p0, c1);
    prefix_grows(before, p1, c2);
    prefix_grows(before, p2, c3);
    prefix_grows(before, p3, c4);
    prefix_grows(before, p4, c5);
    prefix_grows(before, p5, c6);
    prefix_grows(before, p6, c7);
    prefix_grows(before, p7, c8);
    prefix_grows(before, p8, c9);
    prefix_grows(before, p9, c10);
    prefix_grows(before, p10, c11);
    prefix_grows(before, p11, c12);
    assert(text::hexadecimal((31 * round + index % 7) as nat, 32) == c3);
    last_stand(p1, c2, c3, c4);
    stand_stays(p4, c2, c3, c4, c5);
    stand_stays(p5, c2, c3, c4, c6);
    stand_stays(p6, c2, c3, c4, c7);
    stand_stays(p7, c2, c3, c4, c8);
    stand_stays(p8, c2, c3, c4, c9);
    stand_stays(p9, c2, c3, c4, c10);
    stand_stays(p10, c2, c3, c4, c11);
    stand_stays(p11, c2, c3, c4, c12);
    assert(text::hexadecimal((1000 * round + index) as nat, 16) == c5);
    last_stand(p3, c4, c5, c6);
    stand_stays(p6, c4, c5, c6, c7);
    stand_stays(p7, c4, c5, c6, c8);
    stand_stays(p8, c4, c5, c6, c9);
    stand_stays(p9, c4, c5, c6, c10);
    stand_stays(p10, c4, c5, c6, c11);
    stand_stays(p11, c4, c5, c6, c12);
    assert(if index % 5 == 0 { "error"@ } else { "ok"@ } == c9);
    last_stand(p7, c8, c9, c10);
    stand_stays(p10, c8, c9, c10, c11);
    stand_stays(p11, c8, c9, c10, c12);
    assert(text::decimal((1_700_000_000_000_000_000 + 1_000_000 * round + index) as nat) == c11);
    last_stand(p9, c10, c11, c12);
}

/// A span of a workload is described where it is an error, and its event comes a
/// nanosecond after its start.
pub proof fn spans_carry_their_event(before: Seq<char>, round: nat, index: nat)
    ensures
        before.is_prefix_of(crash::span_body_after(before, round, index)),
        stands_between(
            crash::span_body_after(before, round, index),
            "\"}', '"@,
            if index % 5 == 0 { "crash-path"@ } else { ""@ },
            "',\n"@,
        ),
        stands_between(
            crash::span_body_after(before, round, index),
            ",\"fatal\":false},\"name\":\"checkpoint\",\"timestamp\":"@,
            text::decimal((1_700_000_000_000_000_001 + 1_000_000 * round + index) as nat),
            "}]',\n"@,
        ),
{
    let t = crash::span_body_after(before, round, index);
    let c0 = before;
    let c1 = "'{\"bool\":true,\"count\":"@;
    let c2 = text::decimal(index);
    let c3 = ",\"service.name\":\"s"@;
    let c4 = text::decimal(index % 2);
    let c5 = "\"}', '"@;
    let c6 = crash::span_description(index)@;
    let c7 = "',\n"@;
    let c8 = "'[{\"attributes\":{\"attempt\":"@;
    let c9 = text::decimal(index);
    let c10 = ",\"fatal\":false},\"name\":\"checkpoint\",\"timestamp\":"@;
    let c11 = text::decimal((crash::span_time(round, index) + 1) as nat);
    let c12 = "}]',\n"@;
    let c13 = "'{\"deployment.environment\":\"crash\",\"service.name\":\"resource-must-not-win\"}',\n"@;
    let c14 = "'{\"attributes\":{\"debug\":false},\"name\":\"crash-lib\",\"version\":\"1.0\"}');\n"@;
    let p0 = c0;
    let p1 = p0 + c1;
    let p2 = p1 + c2;
    let p3 = p2 + c3;
    let p4 = p3 + c4;
    let p5 = p4 + c5;
    let p6 = p5 + c6;
    let p7 = p6 + c7;
    let p8 = p7 + c8;
    let p9 = p8 + c9;
    let p10 = p9 + c10;
    let p11 = p10 + c11;
    let p12 = p11 + c12;
    let p13 = p12 + c13;
    let p14 = p13 + c14;
    assert(p14 == t);
    prefix_grows(before, p0, c1);
    prefix_grows(before, p1, c2);
    prefix_grows(before, p2, c3);
    prefix_grows(before, p3, c4);
    prefix_grows(before, p4, c5);
    prefix_grows(before, p5, c6);
    prefix_grows(before, p6, c7);
    prefix_grows(before, p7, c8);
    prefix_grows(before, p8, c9);
    prefix_grows(before, p9, c10);
    prefix_grows(before, p10, c11);
    prefix_grows(before, p11, c12);
    prefix_grows(before, p12, c13);
    prefix_grows(before, p13, c14);
    assert(if index % 5 == 0 { "crash-path"@ } else { ""@ } == c6);
    last_stand(p4, c5, c6, c7);
    stand_stays(p7, c5, c6, c7, c8);
    stand_stays(p8, c5, c6, c7, c9);
    stand_stays(p9, c5, c6, c7, c10);
    stand_stays(p10, c5, c6, c7, c11);
    stand_stays(p11, c5, c6, c7, c12);
    stand_stays(p12, c5, c6, c7, c13);
    stand_stays(p13, c5, c6, c7, c14);
    assert(text::decimal((1_700_000_000_000_000_001 + 1_000_000 * round + index) as nat) == c11);
    last_stand(p9, c10, c11, c12);
    stand_stays(p12, c10, c11, c12, c13);
    stand_stays(p13, c10, c11, c12, c14);
}

/// A round ends with its commit and then its mark, and every twenty-fifth also maintains
/// the tables before that.
pub proof fn rounds_end_with_their_mark(before: Seq<char>, round: nat)
    ensures
        ({
            let end = "COMMIT;\nSELECT 'WM "@ + text::decimal(round) + "';\n"@;
            let t = crash::round_end_after(before, round);
            &&& t.len() >= end.len()
            &&& t.skip(t.len() - end.len()) == end
            &&& t.len() - end.len() == before.len() + crash::FLUSHES@.len() + (if round % 25 == 0 {
                crash::MAINTENANCE@.len()
            } else {
                0
            })
            &&& before.is_prefix_of(t)
        }),
{
    let end = "COMMIT;\nSELECT 'WM "@ + text::decimal(round) + "';\n"@;
    let t = crash::round_end_after(before, round);
    let rows = if round % 25 == 0 {
        before + crash::FLUSHES@ + crash::MAINTENANCE@
    } else {
        before + crash::FLUSHES@
    };
    assert(t =~= rows + end);
    assert(t.skip(t.len() - end.len()) =~= end);
    assert(t.subrange(0, before.len() as int) =~= before);
}

/// A workload of one more round is the shorter workload and one round behind it.
pub proof fn rounds_follow_each_other(before: Seq<char>, n: nat, w: crash::Workload)
    ensures
        crash::rounds_after(before, n + 1, w) == crash::round_after(
            crash::rounds_after(before, n, w),
            n + 1,
            w,
        ),
        crash::rounds_after(before, 0, w) == before,
{
}

} // verus!
