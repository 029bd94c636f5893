//! Public batch fixtures of the storage extension.
use crate::bytes::{self, extend, f64_le, framed_text, i64_le, low32, u16_le, u32_le};
use crate::ieee::{F_1, F_1_5, F_2, F_2_5, F_3_25, F_3_5, F_4, NAN};
use crate::text::{self, push_decimal, push_signed};
use vstd::prelude::*;
use vstd::string::*;

verus! {

/// A text as a framed value.
pub open spec fn text_frame(text: Seq<char>) -> Seq<u8> {
    bytes::frame(bytes::utf8(text))
}

/// Two metrics with three samples, version 0.
pub open spec fn metrics_v0_bytes() -> Seq<u8> {
    seq![1u8, 0u8] + bytes::le(0, 2) + bytes::le(2, 4) + bytes::le(3, 4) + text_frame("cpu"@)
        + text_frame(r#"{"host":"a"}"#@) + text_frame("mem"@) + text_frame(""@) + bytes::le(0, 4)
        + bytes::le(0, 4) + bytes::le(1, 4) + bytes::le(100, 8) + bytes::le(200, 8) + bytes::le(
        150,
        8,
    ) + bytes::le(F_1_5 as nat, 8) + bytes::le(F_2_5 as nat, 8) + bytes::le(F_3_25 as nat, 8)
}

/// The fixture of two metrics with three samples, version 0.
pub fn metrics_v0() -> (out: Vec<u8>)
    ensures
        out@ == metrics_v0_bytes(),
{
    let mut out: Vec<u8> = vec![1, 0];
    assert(out@ =~= seq![1u8, 0u8]);
    u16_le(&mut out, 0);
    u32_le(&mut out, 2);
    u32_le(&mut out, 3);
    framed_text(&mut out, "cpu");
    framed_text(&mut out, r#"{"host":"a"}"#);
    framed_text(&mut out, "mem");
    framed_text(&mut out, "");
    u32_le(&mut out, 0);
    u32_le(&mut out, 0);
    u32_le(&mut out, 1);
    i64_le(&mut out, 100);
    i64_le(&mut out, 200);
    i64_le(&mut out, 150);
    f64_le(&mut out, F_1_5);
    f64_le(&mut out, F_2_5);
    f64_le(&mut out, F_3_25);
    out
}

/// Three log entries, version 0.
pub open spec fn logs_v0_bytes() -> Seq<u8> {
    seq![1u8, 0u8] + bytes::le(0, 2) + bytes::le(3, 4) + bytes::le(1000, 8) + bytes::le(1050, 8)
        + bytes::le(2000, 8) + seq![1u8, 3u8, 1u8] + text_frame("hello"@) + text_frame("boom"@)
        + text_frame("world"@) + text_frame(r#"{"service":"api"}"#@) + text_frame(""@) + text_frame(
        r#"{"service":"web"}"#@,
    )
}

/// The fixture of three log entries, version 0.
pub fn logs_v0() -> (out: Vec<u8>)
    ensures
        out@ == logs_v0_bytes(),
{
    let mut out: Vec<u8> = vec![1, 0];
    assert(out@ =~= seq![1u8, 0u8]);
    u16_le(&mut out, 0);
    u32_le(&mut out, 3);
    i64_le(&mut out, 1000);
    i64_le(&mut out, 1050);
    i64_le(&mut out, 2000);
    let levels: [u8; 3] = [1, 3, 1];
    assert(levels@ =~= seq![1u8, 3u8, 1u8]);
    extend(&mut out, &levels);
    framed_text(&mut out, "hello");
    framed_text(&mut out, "boom");
    framed_text(&mut out, "world");
    framed_text(&mut out, r#"{"service":"api"}"#);
    framed_text(&mut out, "");
    framed_text(&mut out, r#"{"service":"web"}"#);
    out
}

/// `n` times the same byte.
pub open spec fn repeated(byte: u8, n: nat) -> Seq<u8> {
    Seq::new(n, |i: int| byte)
}

/// Appends the same byte `n` times.
pub fn extend_repeated(out: &mut Vec<u8>, byte: u8, n: usize)
    ensures
        final(out)@ == old(out)@ + repeated(byte, n as nat),
{
    let mut i: usize = 0;
    assert(out@ =~= old(out)@ + repeated(byte, 0));
    while i < n
        invariant
            i <= n,
            out@ == old(out)@ + repeated(byte, i as nat),
        decreases n - i,
    {
        out.push(byte);
        i += 1;
        assert(out@ =~= old(out)@ + repeated(byte, i as nat));
    }
}

/// Two spans, version 0.
pub open spec fn traces_v0_bytes() -> Seq<u8> {
    seq![1u8, 0u8] + bytes::le(0, 2) + bytes::le(2, 4) + repeated(1, 16) + repeated(2, 16)
        + repeated(3, 8) + repeated(4, 8) + repeated(0, 8) + repeated(5, 8) + text_frame("op1"@)
        + text_frame("op2"@) + text_frame("api"@) + text_frame("web"@) + seq![1u8, 2u8, 1u8, 2u8]
        + bytes::le(5000, 8) + bytes::le(6000, 8) + bytes::le(100, 8) + bytes::le(200, 8)
        + text_frame(r#"{"k":"v"}"#@) + text_frame(""@)
}

/// The fixture of two spans, version 0.
pub fn traces_v0() -> (out: Vec<u8>)
    ensures
        out@ == traces_v0_bytes(),
{
    let mut out: Vec<u8> = vec![1, 0];
    assert(out@ =~= seq![1u8, 0u8]);
    u16_le(&mut out, 0);
    u32_le(&mut out, 2);
    extend_repeated(&mut out, 1, 16);
    extend_repeated(&mut out, 2, 16);
    extend_repeated(&mut out, 3, 8);
    extend_repeated(&mut out, 4, 8);
    extend_repeated(&mut out, 0, 8);
    extend_repeated(&mut out, 5, 8);
    framed_text(&mut out, "op1");
    framed_text(&mut out, "op2");
    framed_text(&mut out, "api");
    framed_text(&mut out, "web");
    let kinds: [u8; 4] = [1, 2, 1, 2];
    assert(kinds@ =~= seq![1u8, 2u8, 1u8, 2u8]);
    extend(&mut out, &kinds);
    i64_le(&mut out, 5000);
    i64_le(&mut out, 6000);
    i64_le(&mut out, 100);
    i64_le(&mut out, 200);
    framed_text(&mut out, r#"{"k":"v"}"#);
    framed_text(&mut out, "");
    out
}

/// Three samples of resolved series, version 1.
pub open spec fn resolved_metrics_v1_bytes() -> Seq<u8> {
    seq![2u8, 0u8] + bytes::le(0, 2) + bytes::le(3, 4) + bytes::le(1, 8) + bytes::le(2, 8)
        + bytes::le(1, 8) + bytes::le(10, 8) + bytes::le(10, 8) + bytes::le(20, 8) + bytes::le(
        F_1_5 as nat,
        8,
    ) + bytes::le(F_2_5 as nat, 8) + bytes::le(F_3_5 as nat, 8)
}

/// The fixture of three samples of resolved series, version 1.
pub fn resolved_metrics_v1() -> (out: Vec<u8>)
    ensures
        out@ == resolved_metrics_v1_bytes(),
{
    let mut out: Vec<u8> = vec![2, 0];
    assert(out@ =~= seq![2u8, 0u8]);
    u16_le(&mut out, 0);
    u32_le(&mut out, 3);
    i64_le(&mut out, 1);
    i64_le(&mut out, 2);
    i64_le(&mut out, 1);
    i64_le(&mut out, 10);
    i64_le(&mut out, 10);
    i64_le(&mut out, 20);
    f64_le(&mut out, F_1_5);
    f64_le(&mut out, F_2_5);
    f64_le(&mut out, F_3_5);
    out
}

/// Two series of one metric, one of them all not-a-number, version 0.
pub open spec fn metrics_nan_v0_bytes() -> Seq<u8> {
    seq![1u8, 0u8] + bytes::le(0, 2) + bytes::le(2, 4) + bytes::le(5, 4) + text_frame("nan_metric"@)
        + text_frame(r#"{"host":"mixed"}"#@) + text_frame("nan_metric"@) + text_frame(
        r#"{"host":"all-nan"}"#@,
    ) + bytes::le(0, 4) + bytes::le(0, 4) + bytes::le(0, 4) + bytes::le(1, 4) + bytes::le(1, 4)
        + bytes::le(0, 8) + bytes::le(1, 8) + bytes::le(2, 8) + bytes::le(0, 8) + bytes::le(1, 8)
        + bytes::le(NAN as nat, 8) + bytes::le(F_2 as nat, 8) + bytes::le(F_4 as nat, 8)
        + bytes::le(NAN as nat, 8) + bytes::le(NAN as nat, 8)
}

/// The fixture with values that are not numbers, version 0.
pub fn metrics_nan_v0() -> (out: Vec<u8>)
    ensures
        out@ == metrics_nan_v0_bytes(),
{
    let mut out: Vec<u8> = vec![1, 0];
    assert(out@ =~= seq![1u8, 0u8]);
    u16_le(&mut out, 0);
    u32_le(&mut out, 2);
    u32_le(&mut out, 5);
    framed_text(&mut out, "nan_metric");
    framed_text(&mut out, r#"{"host":"mixed"}"#);
    framed_text(&mut out, "nan_metric");
    framed_text(&mut out, r#"{"host":"all-nan"}"#);
    u32_le(&mut out, 0);
    u32_le(&mut out, 0);
    u32_le(&mut out, 0);
    u32_le(&mut out, 1);
    u32_le(&mut out, 1);
    i64_le(&mut out, 0);
    i64_le(&mut out, 1);
    i64_le(&mut out, 2);
    i64_le(&mut out, 0);
    i64_le(&mut out, 1);
    f64_le(&mut out, NAN);
    f64_le(&mut out, F_2);
    f64_le(&mut out, F_4);
    f64_le(&mut out, NAN);
    f64_le(&mut out, NAN);
    out
}

/// One sample whose series index is out of range, version 0.
pub open spec fn out_of_range_bytes() -> Seq<u8> {
    seq![1u8, 0u8] + bytes::le(0, 2) + bytes::le(1, 4) + bytes::le(1, 4) + text_frame("cpu"@)
        + text_frame(""@) + bytes::le(5, 4) + bytes::le(1, 8) + bytes::le(F_1 as nat, 8)
}

/// The fixture with a series index that is out of range, version 0.
pub fn metrics_out_of_range() -> (out: Vec<u8>)
    ensures
        out@ == out_of_range_bytes(),
{
    let mut out: Vec<u8> = vec![1, 0];
    assert(out@ =~= seq![1u8, 0u8]);
    u16_le(&mut out, 0);
    u32_le(&mut out, 1);
    u32_le(&mut out, 1);
    framed_text(&mut out, "cpu");
    framed_text(&mut out, "");
    u32_le(&mut out, 5);
    i64_le(&mut out, 1);
    f64_le(&mut out, F_1);
    out
}

/// Time `index` of an arithmetic series.
pub open spec fn time_at(start: int, step: int, index: int) -> int {
    start + index * step
}

/// The times of a log batch, eight bytes each.
pub open spec fn batch_times(start: int, step: int, count: nat) -> Seq<u8>
    decreases count,
{
    if count == 0 {
        Seq::empty()
    } else {
        batch_times(start, step, (count - 1) as nat) + bytes::le(
            bytes::pattern64(time_at(start, step, count - 1)),
            8,
        )
    }
}

/// The messages of a log batch.
pub open spec fn batch_messages(start: int, step: int, count: nat) -> Seq<u8>
    decreases count,
{
    if count == 0 {
        Seq::empty()
    } else {
        batch_messages(start, step, (count - 1) as nat) + text_frame(
            "request "@ + text::signed_decimal(time_at(start, step, count - 1)),
        )
    }
}

/// The metadata of a log batch.
pub open spec fn batch_metadata(count: nat) -> Seq<u8>
    decreases count,
{
    if count == 0 {
        Seq::empty()
    } else {
        batch_metadata((count - 1) as nat) + text_frame(r#"{"service":"api"}"#@)
    }
}

/// A batch of `count` informational log entries, `step` apart from `start` on.
pub open spec fn log_batch_bytes(start: int, count: nat, step: int) -> Seq<u8> {
    seq![1u8, 0u8, 0u8, 0u8] + bytes::le(count, 4) + batch_times(start, step, count) + repeated(
        1,
        count,
    ) + batch_messages(start, step, count) + batch_metadata(count)
}

/// Every time of the batch, and its distance from the start, fits in 64 bits.
pub open spec fn times_fit(start: i64, count: usize, step: i64) -> bool {
    forall|i: int|
        0 <= i < count ==> i64::MIN <= #[trigger] (i * step) <= i64::MAX && i64::MIN <= start + i * step
            <= i64::MAX && i <= i64::MAX
}

fn batch_time(start: i64, step: i64, index: usize, Ghost(count): Ghost<usize>) -> (time: i64)
    requires
        index < count,
        times_fit(start, count, step),
    ensures
        time == time_at(start as int, step as int, index as int),
{
    assert(i64::MIN <= index as int * step <= i64::MAX);
    start + index as i64 * step
}

/// A batch of `count` informational log entries, `step` apart from `start` on.
pub fn log_batch(start: i64, count: usize, step: i64) -> (out: Vec<u8>)
    requires
        times_fit(start, count, step),
    ensures
        out@ == log_batch_bytes(start as int, count as nat, step as int),
{
    let mut out: Vec<u8> = vec![1, 0, 0, 0];
    assert(out@ =~= seq![1u8, 0u8, 0u8, 0u8]);
    u32_le(&mut out, low32(count));
    proof {
        bytes::le_keeps_low_bits(count as nat);
    }
    let ghost head = out@;
    let mut i: usize = 0;
    assert(out@ =~= head + batch_times(start as int, step as int, 0));
    while i < count
        invariant
            i <= count,
            times_fit(start, count, step),
            out@ == head + batch_times(start as int, step as int, i as nat),
        decreases count - i,
    {
        i64_le(&mut out, batch_time(start, step, i, Ghost(count)));
        i += 1;
        assert(out@ =~= head + batch_times(start as int, step as int, i as nat));
    }
    extend_repeated(&mut out, 1, count);
    let ghost middle = out@;
    let mut k: usize = 0;
    assert(out@ =~= middle + batch_messages(start as int, step as int, 0));
    while k < count
        invariant
            k <= count,
            times_fit(start, count, step),
            out@ == middle + batch_messages(start as int, step as int, k as nat),
        decreases count - k,
    {
        let mut message = String::new();
        message.append("request ");
        push_signed(&mut message, batch_time(start, step, k, Ghost(count)));
        assert(message@ =~= "request "@ + text::signed_decimal(
            time_at(start as int, step as int, k as int),
        ));
        framed_text(&mut out, &message);
        k += 1;
        assert(out@ =~= middle + batch_messages(start as int, step as int, k as nat));
    }
    let ghost body = out@;
    let mut m: usize = 0;
    assert(out@ =~= body + batch_metadata(0));
    while m < count
        invariant
            m <= count,
            out@ == body + batch_metadata(m as nat),
        decreases count - m,
    {
        framed_text(&mut out, r#"{"service":"api"}"#);
        m += 1;
        assert(out@ =~= body + batch_metadata(m as nat));
    }
    out
}

/// The fixtures that can be asked for.
#[derive(Clone, Copy, Debug, PartialEq, Eq, Structural)]
pub enum FixtureKind {
    MetricsV0,
    MetricsV0Truncated,
    MetricsV0OutOfRange,
    LogsTracesV0,
    LogsV0Malformed,
    ResolvedMetricsV1,
    MetricsNanV0,
}

impl FixtureKind {
    /// The name of the variant.
    pub open spec fn word(&self) -> Seq<char> {
        match self {
            FixtureKind::MetricsV0 => "MetricsV0"@,
            FixtureKind::MetricsV0Truncated => "MetricsV0Truncated"@,
            FixtureKind::MetricsV0OutOfRange => "MetricsV0OutOfRange"@,
            FixtureKind::LogsTracesV0 => "LogsTracesV0"@,
            FixtureKind::LogsV0Malformed => "LogsV0Malformed"@,
            FixtureKind::ResolvedMetricsV1 => "ResolvedMetricsV1"@,
            FixtureKind::MetricsNanV0 => "MetricsNanV0"@,
        }
    }

    fn name(&self) -> (name: &'static str)
        ensures
            name@ == self.word(),
    {
        match self {
            FixtureKind::MetricsV0 => "MetricsV0",
            FixtureKind::MetricsV0Truncated => "MetricsV0Truncated",
            FixtureKind::MetricsV0OutOfRange => "MetricsV0OutOfRange",
            FixtureKind::LogsTracesV0 => "LogsTracesV0",
            FixtureKind::LogsV0Malformed => "LogsV0Malformed",
            FixtureKind::ResolvedMetricsV1 => "ResolvedMetricsV1",
            FixtureKind::MetricsNanV0 => "MetricsNanV0",
        }
    }

    /// How many files the fixture has.
    pub open spec fn files(&self) -> nat {
        match self {
            FixtureKind::LogsTracesV0 => 2,
            FixtureKind::LogsV0Malformed => 7,
            _ => 1,
        }
    }
}

/// A fixture was asked for with a wrong number of output paths.
#[derive(Clone, Copy, Debug)]
pub struct OutputError {
    pub kind: FixtureKind,
    pub count: usize,
    pub received: usize,
}

impl OutputError {
    /// The error in words.
    pub fn message(&self) -> (text: String)
        ensures
            text@ == "fixture "@ + self.kind.word() + " needs "@ + text::decimal(self.count as nat)
                + " output path(s), received "@ + text::decimal(self.received as nat),
    {
        let mut text = String::new();
        text.append("fixture ");
        text.append(self.kind.name());
        text.append(" needs ");
        push_decimal(&mut text, self.count as u64);
        text.append(" output path(s), received ");
        push_decimal(&mut text, self.received as u64);
        assert(text@ =~= "fixture "@ + self.kind.word() + " needs "@ + text::decimal(
            self.count as nat,
        ) + " output path(s), received "@ + text::decimal(self.received as nat));
        text
    }
}

/// Checks the number of output paths of a fixture.
pub fn require_outputs(outputs: usize, count: usize, kind: FixtureKind) -> (result: Result<
    (),
    OutputError,
>)
    ensures
        result is Ok <==> outputs == count,
        result matches Err(e) ==> e.kind == kind && e.count == count && e.received == outputs,
{
    if outputs != count {
        return Err(OutputError { kind, count, received: outputs });
    }
    Ok(())
}

/// The contents of file `i` of a fixture.
pub open spec fn file_of(kind: FixtureKind, i: int) -> Seq<u8> {
    match kind {
        FixtureKind::MetricsV0 => metrics_v0_bytes(),
        FixtureKind::MetricsV0Truncated => metrics_v0_bytes().take(metrics_v0_bytes().len() - 4),
        FixtureKind::MetricsV0OutOfRange => out_of_range_bytes(),
        FixtureKind::LogsTracesV0 => if i == 0 {
            logs_v0_bytes()
        } else {
            traces_v0_bytes()
        },
        FixtureKind::LogsV0Malformed => if i == 0 {
            logs_v0_bytes().take(3)
        } else if i == 1 {
            logs_v0_bytes().take(7)
        } else if i == 2 {
            logs_v0_bytes().take(20)
        } else if i == 3 {
            logs_v0_bytes().take(33)
        } else if i == 4 {
            logs_v0_bytes().take(40)
        } else if i == 5 {
            logs_v0_bytes().take(logs_v0_bytes().len() - 1)
        } else {
            logs_v0_bytes().update(32, 9)
        },
        FixtureKind::ResolvedMetricsV1 => resolved_metrics_v1_bytes(),
        FixtureKind::MetricsNanV0 => metrics_nan_v0_bytes(),
    }
}

proof fn frame_width(text: Seq<char>)
    ensures
        text_frame(text).len() >= 4,
{
    bytes::encoded_width(bytes::utf8(text).len(), 4);
}

/// The log fixture is long enough for every place at which it is cut.
pub proof fn logs_v0_is_long_enough()
    ensures
        logs_v0_bytes().len() > 40,
{
    bytes::encoded_width(0, 2);
    bytes::encoded_width(3, 4);
    bytes::encoded_width(1000, 8);
    bytes::encoded_width(1050, 8);
    bytes::encoded_width(2000, 8);
    frame_width("hello"@);
    frame_width("boom"@);
    frame_width("world"@);
    frame_width(r#"{"service":"api"}"#@);
    frame_width(""@);
    frame_width(r#"{"service":"web"}"#@);
}

fn cut(blob: &Vec<u8>, len: usize) -> (out: Vec<u8>)
    requires
        len <= blob@.len(),
    ensures
        out@ == blob@.take(len as int),
{
    let mut out: Vec<u8> = Vec::new();
    let mut i: usize = 0;
    while i < len
        invariant
            i <= len <= blob@.len(),
            out@ == blob@.take(i as int),
        decreases len - i,
    {
        out.push(blob[i]);
        i += 1;
        assert(out@ =~= blob@.take(i as int));
    }
    out
}

/// The files as byte sequences.
pub open spec fn byte_views(list: Seq<Vec<u8>>) -> Seq<Seq<u8>> {
    list.map_values(|v: Vec<u8>| v@)
}

/// The contents of the files of a fixture, for `outputs` output paths.
pub fn write(kind: FixtureKind, outputs: usize) -> (result: Result<Vec<Vec<u8>>, OutputError>)
    ensures
        match result {
            Ok(list) => outputs == kind.files() && byte_views(list@) =~= Seq::new(
                kind.files(),
                |i: int| file_of(kind, i),
            ),
            Err(e) => outputs != kind.files() && e.kind == kind && e.count == kind.files()
                && e.received == outputs,
        },
{
    let mut list: Vec<Vec<u8>> = Vec::new();
    match kind {
        FixtureKind::MetricsV0 => {
            require_outputs(outputs, 1, kind)?;
            list.push(metrics_v0());
        },
        FixtureKind::MetricsV0Truncated => {
            require_outputs(outputs, 1, kind)?;
            let value = metrics_v0();
            proof {
                bytes::encoded_width(2, 4);
            }
            let len: usize = value.len() - 4;
            list.push(cut(&value, len));
        },
        FixtureKind::MetricsV0OutOfRange => {
            require_outputs(outputs, 1, kind)?;
            list.push(metrics_out_of_range());
        },
        FixtureKind::LogsTracesV0 => {
            require_outputs(outputs, 2, kind)?;
            list.push(logs_v0());
            list.push(traces_v0());
        },
        FixtureKind::LogsV0Malformed => {
            require_outputs(outputs, 7, kind)?;
            let blob = logs_v0();
            proof {
                logs_v0_is_long_enough();
            }
            list.push(cut(&blob, 3));
            list.push(cut(&blob, 7));
            list.push(cut(&blob, 20));
            list.push(cut(&blob, 33));
            list.push(cut(&blob, 40));
            let len: usize = blob.len() - 1;
            list.push(cut(&blob, len));
            let mut bad = blob;
            bad.set(32, 9);
            list.push(bad);
        },
        FixtureKind::ResolvedMetricsV1 => {
            require_outputs(outputs, 1, kind)?;
            list.push(resolved_metrics_v1());
        },
        FixtureKind::MetricsNanV0 => {
            require_outputs(outputs, 1, kind)?;
            list.push(metrics_nan_v0());
        },
    }
    Ok(list)
}

} // verus!
