//! Spans of the rich trace gate.
use crate::bytes;
use crate::json::{self, copied, push_quoted};
use crate::ranks::{self, sorted_percentiles};
use crate::spans::{self, fixed_be, hex, Span, SpanModel};
use crate::text::{self, push_decimal, push_signed};
use vstd::prelude::*;
use vstd::string::*;

verus! {

/// The columns of a span table.
pub const COLUMNS: &'static str =
    "trace_id,span_id,parent_span_id,name,service,kind,status,start_ts,duration_ns,attributes,status_description,events,resource,instrumentation_scope";

/// The attributes of a numbered span.
pub open spec fn attributes_of(number: nat) -> Seq<char> {
    "{\"array\":[1,\"two\",false,null],\"bool\":true,\"count\":"@ + text::decimal(number)
        + ",\"nested\":{\"ratio\":1.25,\"unicode\":\"空🔥\"},\"service.name\":\"rich-service\"}"@
}

/// The events of a numbered span.
pub open spec fn events_of(number: nat) -> Seq<char> {
    "[{\"attributes\":{\"attempt\":"@ + text::decimal(number)
        + ",\"fatal\":false},\"name\":\"exception\",\"timestamp\":"@ + text::signed_decimal(
        1_700_000_000_000_000_001int + number,
    ) + "}]"@
}

/// The resource of a numbered span.
pub const RICH_RESOURCE: &'static str =
    r#"{"deployment.environment":"test","service.name":"resource-must-not-win"}"#;

/// The instrumentation scope of a numbered span.
pub const RICH_SCOPE: &'static str =
    r#"{"attributes":{"debug":false},"name":"rich-lib","version":"4.5.6"}"#;

/// A numbered span. Even numbers are children of the number before them.
#[verifier::opaque]
pub open spec fn rich_span_of(number: nat, start_ts: Option<i64>) -> SpanModel {
    SpanModel {
        trace_id: bytes::be(number, 16),
        span_id: bytes::be(number, 8),
        parent: if number % 2 == 0 {
            Some(
                bytes::be(
                    if number > 2 {
                        (number - 1) as nat
                    } else {
                        1
                    },
                    8,
                ),
            )
        } else {
            None
        },
        name: if number % 2 == 1 {
            "GET /rich"@
        } else {
            "db.query"@
        },
        service: "explicit-must-not-win"@,
        kind: (number % 5) as u8,
        status: (number % 3) as u8,
        start_ts: match start_ts {
            Some(t) => t,
            None => (1_700_000_000_000_000_000 + number) as i64,
        },
        duration_ns: (number * 101) as i64,
        attributes: attributes_of(number),
        status_description: if number % 3 == 2 {
            "boom 🚀"@
        } else {
            ""@
        },
        events: events_of(number),
        resource: RICH_RESOURCE@,
        scope: RICH_SCOPE@,
        links: ""@,
        trace_state: ""@,
        trace_flags: 0,
        dropped_attributes: 0,
        dropped_events: 0,
        dropped_links: 0,
    }
}

/// The largest number whose duration and times fit in 64 bits.
pub const LAST_NUMBER: u64 = 91_320_515_216_383_918;

fn attributes_text(number: u64) -> (text: String)
    ensures
        text@ == attributes_of(number as nat),
{
    let mut text = String::new();
    text.append("{\"array\":[1,\"two\",false,null],\"bool\":true,\"count\":");
    push_decimal(&mut text, number);
    text.append(",\"nested\":{\"ratio\":1.25,\"unicode\":\"空🔥\"},\"service.name\":\"rich-service\"}");
    assert(text@ =~= attributes_of(number as nat));
    text
}

fn events_text(number: u64) -> (text: String)
    requires
        number <= LAST_NUMBER,
    ensures
        text@ == events_of(number as nat),
{
    let mut text = String::new();
    text.append("[{\"attributes\":{\"attempt\":");
    push_decimal(&mut text, number);
    text.append(",\"fatal\":false},\"name\":\"exception\",\"timestamp\":");
    push_signed(&mut text, 1_700_000_000_000_000_001 + number as i64);
    text.append("}]");
    assert(text@ =~= events_of(number as nat));
    text
}

/// A numbered span.
pub fn rich_span(number: u64, start_ts: Option<i64>) -> (span: Span)
    requires
        number <= LAST_NUMBER,
    ensures
        span@ == rich_span_of(number as nat, start_ts),
{
    proof {
        reveal(rich_span_of);
    }
    let before: u64 = if number > 2 {
        number - 1
    } else {
        1
    };
    let parent: [u8; 8] = fixed_be(before);
    Span {
        trace_id: fixed_be(number),
        span_id: fixed_be(number),
        parent_span_id: if number % 2 == 0 {
            Some(parent)
        } else {
            None
        },
        name: if number % 2 == 1 {
            "GET /rich"
        } else {
            "db.query"
        },
        service: copied("explicit-must-not-win"),
        kind: (number % 5) as u8,
        status: (number % 3) as u8,
        start_ts: match start_ts {
            Some(t) => t,
            None => 1_700_000_000_000_000_000 + number as i64,
        },
        duration_ns: number as i64 * 101,
        attributes: attributes_text(number),
        status_description: if number % 3 == 2 {
            "boom 🚀"
        } else {
            ""
        },
        events: events_text(number),
        resource: copied(RICH_RESOURCE),
        instrumentation_scope: copied(RICH_SCOPE),
        links: copied(""),
        trace_state: "",
        trace_flags: 0,
        dropped_attributes_count: 0,
        dropped_events_count: 0,
        dropped_links_count: 0,
    }
}

/// A span that carries no links, state or dropped counts.
pub open spec fn plain(
    trace_id: Seq<u8>,
    span_id: Seq<u8>,
    parent: Option<Seq<u8>>,
    name: Seq<char>,
    service: Seq<char>,
    kind: u8,
    status: u8,
    start_ts: i64,
    duration_ns: i64,
    attributes: Seq<char>,
    status_description: Seq<char>,
    events: Seq<char>,
    resource: Seq<char>,
    scope: Seq<char>,
) -> SpanModel {
    SpanModel {
        trace_id,
        span_id,
        parent,
        name,
        service,
        kind,
        status,
        start_ts,
        duration_ns,
        attributes,
        status_description,
        events,
        resource,
        scope,
        links: ""@,
        trace_state: ""@,
        trace_flags: 0,
        dropped_attributes: 0,
        dropped_events: 0,
        dropped_links: 0,
    }
}

/// The identity of the contract trace.
pub open spec fn contract_trace() -> Seq<u8> {
    seq![
        0x00u8, 0x11u8, 0x22u8, 0x33u8, 0x44u8, 0x55u8, 0x66u8, 0x77u8, 0x88u8, 0x99u8, 0xaau8,
        0xbbu8, 0xccu8, 0xddu8, 0xeeu8, 0xffu8,
    ]
}

/// The identity of the contract root.
pub open spec fn contract_root() -> Seq<u8> {
    seq![0x01u8, 0x02u8, 0x03u8, 0x04u8, 0x05u8, 0x06u8, 0x07u8, 0x08u8]
}

/// The identity of the contract child.
pub open spec fn contract_child() -> Seq<u8> {
    seq![0x11u8, 0x12u8, 0x13u8, 0x14u8, 0x15u8, 0x16u8, 0x17u8, 0x18u8]
}

pub const CONTRACT_RESOURCE: &'static str =
    r#"{"debug":false,"replica":7,"service.name":"contract-svc","service.version":"1.2.3"}"#;

pub const CONTRACT_SCOPE: &'static str = r#"{"name":"contract-lib","version":"4.5.6"}"#;

pub const ROOT_ATTRIBUTES: &'static str =
    r#"{"http.method":"GET","http.status_code":503,"retryable":true,"score":0.75}"#;

pub const ROOT_EVENTS: &'static str =
    r#"[{"attributes":{"exception.type":"ContractError","handled":false},"name":"exception","timestamp":1700000000040000000}]"#;

pub const CHILD_ATTRIBUTES: &'static str = r#"{"db.system":"libsql","rows":3}"#;

/// The two spans of the contract fixture.
pub open spec fn contract_spans() -> Seq<SpanModel> {
    seq![
        plain(
            contract_trace(),
            contract_root(),
            None,
            "GET /contract"@,
            "explicit-must-not-win"@,
            1,
            2,
            1_700_000_000_000_000_000,
            120_000_000,
            ROOT_ATTRIBUTES@,
            "contract failure"@,
            ROOT_EVENTS@,
            CONTRACT_RESOURCE@,
            CONTRACT_SCOPE@,
        ),
        plain(
            contract_trace(),
            contract_child(),
            Some(contract_root()),
            "DB contract"@,
            "explicit-must-not-win"@,
            2,
            0,
            1_700_000_000_020_000_000,
            60_000_000,
            CHILD_ATTRIBUTES@,
            ""@,
            "[]"@,
            CONTRACT_RESOURCE@,
            CONTRACT_SCOPE@,
        ),
    ]
}

proof fn hex_texts()
    ensures
        spans::is_hex("00112233445566778899aabbccddeeff"@, 16),
        spans::is_hex("0102030405060708"@, 8),
        spans::is_hex("1112131415161718"@, 8),
        forall|i: int|
            0 <= i < 16 ==> #[trigger] spans::byte_at("00112233445566778899aabbccddeeff"@, i) == Some(
                contract_trace()[i] as nat,
            ),
        forall|i: int|
            0 <= i < 8 ==> #[trigger] spans::byte_at("0102030405060708"@, i) == Some(
                contract_root()[i] as nat,
            ),
        forall|i: int|
            0 <= i < 8 ==> #[trigger] spans::byte_at("1112131415161718"@, i) == Some(
                contract_child()[i] as nat,
            ),
{
    reveal_strlit("00112233445566778899aabbccddeeff");
    reveal_strlit("0102030405060708");
    reveal_strlit("1112131415161718");
}

/// The two spans of the contract fixture: a failed request and the query it made.
pub fn contract_fixture() -> (list: Vec<Span>)
    ensures
        spans::models(list@) == contract_spans(),
{
    proof {
        hex_texts();
    }
    let trace_id: [u8; 16] = hex("00112233445566778899aabbccddeeff");
    let root_id: [u8; 8] = hex("0102030405060708");
    let child_id: [u8; 8] = hex("1112131415161718");
    proof {
        assert forall|i: int| 0 <= i < 16 implies trace_id@[i] == contract_trace()[i] by {
            assert(Some(trace_id@[i] as nat) == spans::byte_at(
                "00112233445566778899aabbccddeeff"@,
                i,
            ));
        }
        assert forall|i: int| 0 <= i < 8 implies root_id@[i] == contract_root()[i] by {
            assert(Some(root_id@[i] as nat) == spans::byte_at("0102030405060708"@, i));
        }
        assert forall|i: int| 0 <= i < 8 implies child_id@[i] == contract_child()[i] by {
            assert(Some(child_id@[i] as nat) == spans::byte_at("1112131415161718"@, i));
        }
        assert(trace_id@ =~= contract_trace());
        assert(root_id@ =~= contract_root());
        assert(child_id@ =~= contract_child());
    }
    let root = Span {
        trace_id,
        span_id: root_id,
        parent_span_id: None,
        name: "GET /contract",
        service: copied("explicit-must-not-win"),
        kind: 1,
        status: 2,
        start_ts: 1_700_000_000_000_000_000,
        duration_ns: 120_000_000,
        attributes: copied(ROOT_ATTRIBUTES),
        status_description: "contract failure",
        events: copied(ROOT_EVENTS),
        resource: copied(CONTRACT_RESOURCE),
        instrumentation_scope: copied(CONTRACT_SCOPE),
        links: copied(""),
        trace_state: "",
        trace_flags: 0,
        dropped_attributes_count: 0,
        dropped_events_count: 0,
        dropped_links_count: 0,
    };
    let child = Span {
        trace_id,
        span_id: child_id,
        parent_span_id: Some(root_id),
        name: "DB contract",
        service: copied("explicit-must-not-win"),
        kind: 2,
        status: 0,
        start_ts: 1_700_000_000_020_000_000,
        duration_ns: 60_000_000,
        attributes: copied(CHILD_ATTRIBUTES),
        status_description: "",
        events: copied("[]"),
        resource: copied(CONTRACT_RESOURCE),
        instrumentation_scope: copied(CONTRACT_SCOPE),
        links: copied(""),
        trace_state: "",
        trace_flags: 0,
        dropped_attributes_count: 0,
        dropped_events_count: 0,
        dropped_links_count: 0,
    };
    let mut list: Vec<Span> = Vec::new();
    assert(root@ == contract_spans()[0]);
    assert(child@ == contract_spans()[1]);
    list.push(root);
    list.push(child);
    assert(spans::models(list@) =~= contract_spans());
    list
}

/// The start of the spans whose percentiles are checked.
pub const PERCENTILE_START: i64 = 1_800_000_000_000_000_000;

/// The next state of the generator of random durations.
pub open spec fn next_state(state: u64) -> u64 {
    let a = state ^ (state << 7);
    let b = a ^ (a >> 9);
    b ^ (b << 8)
}

/// The state of the generator after `n` steps.
pub open spec fn state_after(n: nat) -> u64
    decreases n,
{
    if n == 0 {
        0x9e37_79b9_7f4a_7c15u64
    } else {
        next_state(state_after((n - 1) as nat))
    }
}

/// A list of durations whose percentiles are checked, by its service.
pub struct PercentileCase {
    pub service: &'static str,
    pub values: Vec<i64>,
}

/// The durations of case `i`.
pub open spec fn case_values(i: int) -> Seq<i64> {
    if i == 0 {
        seq![42i64]
    } else if i == 1 {
        Seq::new(
            129,
            |k: int|
                if k % 4 == 3 {
                    11i64
                } else {
                    7i64
                },
        )
    } else if i == 2 {
        Seq::new(257, |k: int| k as i64)
    } else if i == 3 {
        Seq::new(257, |k: int| (256 - k) as i64)
    } else {
        Seq::new(8192, |k: int| (state_after((k + 1) as nat) % 1_000_003) as i64)
    }
}

/// The service of case `i`.
pub open spec fn case_service(i: int) -> &'static str {
    if i == 0 {
        "singleton"
    } else if i == 1 {
        "duplicates"
    } else if i == 2 {
        "ordered"
    } else if i == 3 {
        "reverse"
    } else {
        "large-random"
    }
}

fn duplicates() -> (values: Vec<i64>)
    ensures
        values@ == case_values(1),
{
    let mut values: Vec<i64> = Vec::new();
    let mut k: usize = 0;
    while k < 129
        invariant
            k <= 129,
            values@ =~= case_values(1).take(k as int),
        decreases 129 - k,
    {
        values.push(
            if k % 4 == 3 {
                11
            } else {
                7
            },
        );
        k += 1;
    }
    assert(case_values(1).take(129) =~= case_values(1));
    values
}

fn ordered() -> (values: Vec<i64>)
    ensures
        values@ == case_values(2),
{
    let mut values: Vec<i64> = Vec::new();
    let mut k: i64 = 0;
    while k < 257
        invariant
            0 <= k <= 257,
            values@ =~= case_values(2).take(k as int),
        decreases 257 - k,
    {
        values.push(k);
        k += 1;
    }
    assert(case_values(2).take(257) =~= case_values(2));
    values
}

fn reverse() -> (values: Vec<i64>)
    ensures
        values@ == case_values(3),
{
    let mut values: Vec<i64> = Vec::new();
    let mut k: i64 = 0;
    while k < 257
        invariant
            0 <= k <= 257,
            values@ =~= case_values(3).take(k as int),
        decreases 257 - k,
    {
        values.push(256 - k);
        k += 1;
    }
    assert(case_values(3).take(257) =~= case_values(3));
    values
}

fn large_random() -> (values: Vec<i64>)
    ensures
        values@ == case_values(4),
{
    let mut values: Vec<i64> = Vec::new();
    let mut state: u64 = 0x9e37_79b9_7f4a_7c15;
    let mut k: usize = 0;
    while k < 8192
        invariant
            k <= 8192,
            state == state_after(k as nat),
            values@ =~= case_values(4).take(k as int),
        decreases 8192 - k,
    {
        state = state ^ (state << 7);
        state = state ^ (state >> 9);
        state = state ^ (state << 8);
        k += 1;
        assert(state == state_after(k as nat));
        values.push((state % 1_000_003) as i64);
    }
    assert(case_values(4).take(8192) =~= case_values(4));
    values
}

/// The lists of durations whose percentiles are checked: one value, repeated
/// values, ascending and descending values, and random values.
pub fn percentile_cases() -> (cases: Vec<PercentileCase>)
    ensures
        cases@.len() == 5,
        forall|i: int|
            0 <= i < 5 ==> (#[trigger] cases@[i]).service == case_service(i) && cases@[i].values@
                == case_values(i),
{
    let mut single: Vec<i64> = Vec::new();
    single.push(42);
    assert(single@ =~= case_values(0));
    let mut cases: Vec<PercentileCase> = Vec::new();
    cases.push(PercentileCase { service: "singleton", values: single });
    cases.push(PercentileCase { service: "duplicates", values: duplicates() });
    cases.push(PercentileCase { service: "ordered", values: ordered() });
    cases.push(PercentileCase { service: "reverse", values: reverse() });
    cases.push(PercentileCase { service: "large-random", values: large_random() });
    cases
}

/// A span whose duration is one value of a case.
#[verifier::opaque]
pub open spec fn percentile_span_of(
    number: nat,
    service: Seq<char>,
    position: int,
    duration_ns: i64,
) -> SpanModel {
    plain(
        bytes::be(number, 16),
        bytes::be(number, 8),
        None,
        "percentile.contract"@,
        service,
        0,
        1,
        (PERCENTILE_START + position) as i64,
        duration_ns,
        "{\"service.name\":"@ + json::quoted(service) + "}"@,
        ""@,
        "[]"@,
        "{}"@,
        "{}"@,
    )
}

/// A span whose duration is one value of a case.
pub fn percentile_span(number: u64, service: &str, position: usize, duration_ns: i64) -> (span: Span)
    requires
        PERCENTILE_START + position <= i64::MAX,
    ensures
        span@ == percentile_span_of(number as nat, service@, position as int, duration_ns),
{
    proof {
        reveal(percentile_span_of);
    }
    let mut attributes = String::new();
    attributes.append("{\"service.name\":");
    push_quoted(&mut attributes, service);
    attributes.append("}");
    assert(attributes@ =~= "{\"service.name\":"@ + json::quoted(service@) + "}"@);
    Span {
        trace_id: fixed_be(number),
        span_id: fixed_be(number),
        parent_span_id: None,
        name: "percentile.contract",
        service: copied(service),
        kind: 0,
        status: 1,
        start_ts: PERCENTILE_START + position as i64,
        duration_ns,
        attributes,
        status_description: "",
        events: copied("[]"),
        resource: copied("{}"),
        instrumentation_scope: copied("{}"),
        links: copied(""),
        trace_state: "",
        trace_flags: 0,
        dropped_attributes_count: 0,
        dropped_events_count: 0,
        dropped_links_count: 0,
    }
}

/// What the bucket query must report of a case.
pub open spec fn bucket_of(values: Seq<i64>) -> (int, int, int, int) {
    let numbers = ranks::signed_numbers(values);
    (
        values.len() as int,
        ranks::ranked(numbers, 50),
        ranks::ranked(numbers, 95),
        ranks::ranked(numbers, 99),
    )
}

/// Whether the bucket query reported a case exactly: its spans and the values of
/// nearest rank at 50, 95 and 99 percent.
pub fn percentile_contract(values: &[i64], actual: (i64, i64, i64, i64)) -> (exact: bool)
    requires
        0 < values@.len(),
        values@.len() * 99 <= usize::MAX,
    ensures
        exact == ((actual.0 as int, actual.1 as int, actual.2 as int, actual.3 as int) == bucket_of(
            values@,
        )),
{
    let expected = sorted_percentiles(values);
    actual.0 == values.len() as i64 && actual.1 == expected.0 && actual.2 == expected.1 && actual.3
        == expected.2
}

} // verus!
