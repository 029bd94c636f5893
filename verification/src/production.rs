//! The production gate: its signals, its configuration, and what it writes to
//! and asks of the servers.
use crate::floats::{self, less, not_positive};
use crate::text::{self, chars_of, parse_u64, same_text, slice_text};
use vstd::prelude::*;
use vstd::string::*;

verus! {

/// How many records of a signal fall into one second.
pub const ORDINALS_PER_SECOND: u64 = 256;

/// Two hours as a float: the least duration of a release run.
pub const TWO_HOURS: u64 = 0x40bc_2000_0000_0000;

/// The start of the day of a time, in seconds.
pub open spec fn midnight(now: int) -> int {
    now / 86_400 * 86_400
}

/// The start of the fixture: the last midnight before `now`, in seconds. The
/// fixture is then at most a day old, and no retention prunes it.
pub fn base_seconds(now: u64) -> (base: u64)
    ensures
        base == midnight(now as int),
{
    now / 86_400 * 86_400
}

/// The fixture is at most a day old and starts on a whole day.
pub proof fn fixture_is_fresh(now: u64)
    ensures
        midnight(now as int) <= now < midnight(now as int) + 86_400,
        midnight(now as int) % 86_400 == 0,
{
}

/// The start of the fixture in milliseconds.
pub fn base_milliseconds(base: u64) -> (ms: u64)
    requires
        base * 1_000 <= u64::MAX,
    ensures
        ms == base * 1_000,
{
    base * 1_000
}

/// The start of the fixture in nanoseconds.
pub fn base_nanoseconds(base: u64) -> (ns: u64)
    requires
        base * 1_000_000_000 <= u64::MAX,
    ensures
        ns == base * 1_000_000_000,
{
    base * 1_000_000_000
}

/// The signals that the soak runs side by side.
#[derive(Clone, Copy, Debug, PartialEq, Eq, Structural)]
pub enum Signal {
    Metrics,
    Logs,
    Traces,
}

/// Signal `i` of the three.
pub open spec fn signal_at(i: int) -> Option<Signal> {
    if i == 0 {
        Some(Signal::Metrics)
    } else if i == 1 {
        Some(Signal::Logs)
    } else if i == 2 {
        Some(Signal::Traces)
    } else {
        None
    }
}

/// Signal `i` of the three.
pub fn signal(i: usize) -> (s: Option<Signal>)
    ensures
        s == signal_at(i as int),
{
    match i {
        0 => Some(Signal::Metrics),
        1 => Some(Signal::Logs),
        2 => Some(Signal::Traces),
        _ => None,
    }
}

impl Signal {
    /// The name of the signal.
    pub open spec fn word(self) -> &'static str {
        match self {
            Signal::Metrics => "metrics",
            Signal::Logs => "logs",
            Signal::Traces => "traces",
        }
    }

    /// The name of the signal.
    pub fn name(self) -> (name: &'static str)
        ensures
            name == self.word(),
    {
        match self {
            Signal::Metrics => "metrics",
            Signal::Logs => "logs",
            Signal::Traces => "traces",
        }
    }

    /// The program that serves the signal.
    pub fn binary(self) -> (name: &'static str)
        ensures
            name == (match self {
                Signal::Metrics => "timeless-metrics-api",
                Signal::Logs => "timeless-logs-api",
                Signal::Traces => "timeless-traces-api",
            }),
    {
        match self {
            Signal::Metrics => "timeless-metrics-api",
            Signal::Logs => "timeless-logs-api",
            Signal::Traces => "timeless-traces-api",
        }
    }

    /// The counter of all records.
    pub open spec fn total(self) -> &'static str {
        match self {
            Signal::Metrics => "total_points",
            Signal::Logs => "total_entries",
            Signal::Traces => "total_spans",
        }
    }

    /// The counter of all records.
    pub fn count_field(self) -> (name: &'static str)
        ensures
            name == self.total(),
    {
        match self {
            Signal::Metrics => "total_points",
            Signal::Logs => "total_entries",
            Signal::Traces => "total_spans",
        }
    }

    /// The path of the counters.
    pub fn stats_path(self) -> (path: &'static str)
        ensures
            path == (match self {
                Signal::Metrics => "/select/metrics/stats",
                Signal::Logs => "/select/logsql/stats",
                Signal::Traces => "/select/traces/stats",
            }),
    {
        match self {
            Signal::Metrics => "/select/metrics/stats",
            Signal::Logs => "/select/logsql/stats",
            Signal::Traces => "/select/traces/stats",
        }
    }

    /// Whether a flush is posted; the log server takes a plain request.
    pub fn flush_is_posted(self) -> (yes: bool)
        ensures
            yes == !(self is Logs),
    {
        match self {
            Signal::Logs => false,
            Signal::Metrics | Signal::Traces => true,
        }
    }

    /// The status of an accepted batch.
    pub fn expected_ingest_status(self) -> (status: u16)
        ensures
            status == (match self {
                Signal::Metrics | Signal::Logs => 204u16,
                Signal::Traces => 200u16,
            }),
    {
        match self {
            Signal::Metrics | Signal::Logs => 204,
            Signal::Traces => 200,
        }
    }

    /// The queries that are asked in turn.
    pub open spec fn shapes(self) -> Seq<&'static str> {
        match self {
            Signal::Metrics => seq![
                "exact_latest",
                "narrow_range",
                "wide_range",
                "scalar_avg",
                "discovery",
            ],
            Signal::Logs => seq!["exact", "narrow", "wide", "scalar_count", "discovery"],
            Signal::Traces => seq![
                "exact_trace",
                "narrow_search",
                "wide_search",
                "operations",
                "services",
            ],
        }
    }

    /// The queries that are asked in turn.
    pub fn query_shapes(self) -> (shapes: [&'static str; 5])
        ensures
            shapes@ == self.shapes(),
    {
        let shapes: [&'static str; 5] = match self {
            Signal::Metrics => [
                "exact_latest",
                "narrow_range",
                "wide_range",
                "scalar_avg",
                "discovery",
            ],
            Signal::Logs => ["exact", "narrow", "wide", "scalar_count", "discovery"],
            Signal::Traces => [
                "exact_trace",
                "narrow_search",
                "wide_search",
                "operations",
                "services",
            ],
        };
        assert(shapes@ =~= self.shapes());
        shapes
    }

    /// The query of turn `number`.
    pub fn shape_of_turn(self, number: usize) -> (shape: &'static str)
        ensures
            shape == self.shapes()[number as int % 5],
    {
        let shapes = self.query_shapes();
        shapes[number % 5]
    }

    /// The records of one batch of the probe that fills the disk.
    pub fn disk_batch(self) -> (count: usize)
        ensures
            count == (match self {
                Signal::Metrics => 4_096usize,
                Signal::Logs => 2_048usize,
                Signal::Traces => 1_024usize,
            }),
    {
        match self {
            Signal::Metrics => 4_096,
            Signal::Logs => 2_048,
            Signal::Traces => 1_024,
        }
    }

    /// A broad query that is cancelled at once.
    pub fn cancelled_path(self) -> (path: &'static str)
        ensures
            path == (match self {
                Signal::Metrics => "/api/v1/query_range?metric=release_gate_metric&from=2000000000&to=2100000000&step=1&aggregate=p95",
                Signal::Logs => "/select/logsql/query?service=release-gate&limit=10000&order=desc",
                Signal::Traces => "/select/jaeger/api/traces?service=release-gate&limit=10000",
            }),
    {
        match self {
            Signal::Metrics => "/api/v1/query_range?metric=release_gate_metric&from=2000000000&to=2100000000&step=1&aggregate=p95",
            Signal::Logs => "/select/logsql/query?service=release-gate&limit=10000&order=desc",
            Signal::Traces => "/select/jaeger/api/traces?service=release-gate&limit=10000",
        }
    }

    /// Where a batch goes, and the type of its body.
    pub fn ingest_route(self) -> (route: (&'static str, &'static str))
        ensures
            route == (match self {
                Signal::Metrics => ("/api/v1/import", "application/x-ndjson"),
                Signal::Logs => ("/insert/jsonline", "application/x-ndjson"),
                Signal::Traces => ("/insert/opentelemetry/v1/traces", "application/json"),
            }),
    {
        match self {
            Signal::Metrics => ("/api/v1/import", "application/x-ndjson"),
            Signal::Logs => ("/insert/jsonline", "application/x-ndjson"),
            Signal::Traces => ("/insert/opentelemetry/v1/traces", "application/json"),
        }
    }

    /// The environment of the server besides the authentication mode, where
    /// maintenance is to run often.
    pub open spec fn brisk(self) -> Seq<(&'static str, &'static str)> {
        match self {
            Signal::Metrics => seq![
                ("TIMELESS_METRICS_FLUSH_INTERVAL_SECS", "2"),
                ("TIMELESS_METRICS_COMPACT_INTERVAL_SECS", "5"),
                ("TIMELESS_METRICS_RETENTION_INTERVAL_SECS", "15"),
            ],
            Signal::Logs => seq![
                ("TIMELESS_LOGS_FLUSH_INTERVAL_SECS", "1"),
                ("TIMELESS_LOGS_OPTIMIZE_INTERVAL_SECS", "5"),
            ],
            Signal::Traces => seq![
                ("TIMELESS_TRACES_FLUSH_INTERVAL_SECS", "1"),
                ("TIMELESS_TRACES_OPTIMIZE_INTERVAL_SECS", "5"),
            ],
        }
    }

    /// The environment of a server.
    pub fn environment(self, short_maintenance: bool) -> (values: Vec<(&'static str, &'static str)>)
        ensures
            values@ == seq![("TIMELESS_AUTH_MODE", "disabled")] + (if short_maintenance {
                self.brisk()
            } else {
                Seq::empty()
            }),
    {
        let mut values: Vec<(&'static str, &'static str)> = Vec::new();
        values.push(("TIMELESS_AUTH_MODE", "disabled"));
        if short_maintenance {
            match self {
                Signal::Metrics => {
                    values.push(("TIMELESS_METRICS_FLUSH_INTERVAL_SECS", "2"));
                    values.push(("TIMELESS_METRICS_COMPACT_INTERVAL_SECS", "5"));
                    values.push(("TIMELESS_METRICS_RETENTION_INTERVAL_SECS", "15"));
                },
                Signal::Logs => {
                    values.push(("TIMELESS_LOGS_FLUSH_INTERVAL_SECS", "1"));
                    values.push(("TIMELESS_LOGS_OPTIMIZE_INTERVAL_SECS", "5"));
                },
                Signal::Traces => {
                    values.push(("TIMELESS_TRACES_FLUSH_INTERVAL_SECS", "1"));
                    values.push(("TIMELESS_TRACES_OPTIMIZE_INTERVAL_SECS", "5"));
                },
            }
        }
        assert(values@ =~= seq![("TIMELESS_AUTH_MODE", "disabled")] + (if short_maintenance {
            self.brisk()
        } else {
            Seq::empty()
        }));
        values
    }
}

/// How long the soak runs.
#[derive(Clone, Copy, Debug, PartialEq, Eq, Structural)]
pub enum Mode {
    Short,
    Release,
}

impl Mode {
    /// The name of the mode.
    pub fn name(self) -> (name: &'static str)
        ensures
            name == (match self {
                Mode::Short => "short",
                Mode::Release => "release",
            }),
    {
        match self {
            Mode::Short => "short",
            Mode::Release => "release",
        }
    }

    /// The bits of the duration that is used where none is asked for: two
    /// minutes, or 9600 seconds.
    pub fn default_duration(self) -> (bits: u64)
        ensures
            bits == (match self {
                Mode::Short => 0x405e_0000_0000_0000u64,
                Mode::Release => 0x40c2_c000_0000_0000u64,
            }),
    {
        match self {
            Mode::Short => 0x405e_0000_0000_0000,
            Mode::Release => 0x40c2_c000_0000_0000,
        }
    }

    /// The bits of the time between samples that is used where none is asked
    /// for: five seconds, or thirty.
    pub fn default_sample(self) -> (bits: u64)
        ensures
            bits == (match self {
                Mode::Short => 0x4014_0000_0000_0000u64,
                Mode::Release => 0x403e_0000_0000_0000u64,
            }),
    {
        match self {
            Mode::Short => 0x4014_0000_0000_0000,
            Mode::Release => 0x403e_0000_0000_0000,
        }
    }
}

/// The most memory that each server may use.
#[derive(Clone, Copy, Debug, PartialEq, Eq, Structural)]
pub struct RssLimits {
    pub metrics: u64,
    pub logs: u64,
    pub traces: u64,
}

impl RssLimits {
    /// The limit of a signal.
    pub open spec fn limit(self, signal: Signal) -> u64 {
        match signal {
            Signal::Metrics => self.metrics,
            Signal::Logs => self.logs,
            Signal::Traces => self.traces,
        }
    }

    /// The limit of a signal.
    pub fn of(self, signal: Signal) -> (limit: u64)
        ensures
            limit == self.limit(signal),
    {
        match signal {
            Signal::Metrics => self.metrics,
            Signal::Logs => self.logs,
            Signal::Traces => self.traces,
        }
    }

    /// The limits with that of one signal replaced.
    pub open spec fn changed(self, signal: Signal, limit: u64) -> RssLimits {
        match signal {
            Signal::Metrics => RssLimits { metrics: limit, ..self },
            Signal::Logs => RssLimits { logs: limit, ..self },
            Signal::Traces => RssLimits { traces: limit, ..self },
        }
    }
}

/// Why a configuration is refused.
#[derive(Clone, Copy, Debug, PartialEq, Eq, Structural)]
pub enum ConfigError {
    NotPositive,
    TooShort,
    Batch,
    RssLimit,
}

/// The limits that are used where none are asked for.
pub open spec fn default_limits() -> RssLimits {
    RssLimits { metrics: 524_288, logs: 524_288, traces: 786_432 }
}

/// How many characters come before the first equals sign.
pub open spec fn before_sign(s: Seq<char>) -> nat
    decreases s.len(),
{
    if s.len() == 0 || s[0] == '=' {
        0
    } else {
        1 + before_sign(s.drop_first())
    }
}

/// The signal of a name.
pub open spec fn signal_named(name: Seq<char>) -> Option<Signal> {
    if name == "metrics"@ {
        Some(Signal::Metrics)
    } else if name == "logs"@ {
        Some(Signal::Logs)
    } else if name == "traces"@ {
        Some(Signal::Traces)
    } else {
        None
    }
}

/// A limit as it is asked for: a signal, an equals sign and a number.
pub open spec fn limit_of(item: Seq<char>) -> Option<(Signal, u64)> {
    let n = before_sign(item) as int;
    if n >= item.len() {
        None
    } else {
        match signal_named(item.take(n)) {
            None => None,
            Some(signal) => match text::unsigned_value(item.skip(n + 1)) {
                Some(limit) => Some((signal, limit as u64)),
                None => None,
            },
        }
    }
}

proof fn before_sign_is(s: Seq<char>, n: int)
    requires
        0 <= n <= s.len(),
        forall|i: int| 0 <= i < n ==> s[i] != '=',
        n < s.len() ==> s[n] == '=',
    ensures
        before_sign(s) == n,
    decreases s.len(),
{
    if n > 0 {
        assert forall|i: int| 0 <= i < n - 1 implies s.drop_first()[i] != '=' by {
            assert(s[i + 1] != '=');
        }
        before_sign_is(s.drop_first(), n - 1);
    }
}

fn read_limit(item: &str) -> (limit: Option<(Signal, u64)>)
    ensures
        limit == limit_of(item@),
{
    let chars = chars_of(item);
    let mut n: usize = 0;
    while n < chars.len() && chars[n] != '='
        invariant
            n <= chars@.len(),
            forall|i: int| 0 <= i < n ==> chars@[i] != '=',
        decreases chars.len() - n,
    {
        n += 1;
    }
    proof {
        before_sign_is(item@, n as int);
    }
    if n == chars.len() {
        return None;
    }
    let name = slice_text(&chars, 0, n);
    assert(name@ =~= item@.take(n as int));
    let rest = slice_text(&chars, n + 1, chars.len());
    assert(rest@ =~= item@.skip(n + 1));
    let signal = if same_text(&name, "metrics") {
        Signal::Metrics
    } else if same_text(&name, "logs") {
        Signal::Logs
    } else if same_text(&name, "traces") {
        Signal::Traces
    } else {
        return None;
    };
    match parse_u64(&rest) {
        Some(limit) => Some((signal, limit)),
        None => None,
    }
}

/// The limits after the first `n` requests; nothing where one cannot be read. A
/// later request replaces an earlier one.
pub open spec fn limits_after(items: Seq<String>, n: nat) -> Option<RssLimits>
    decreases n,
{
    if n == 0 {
        Some(default_limits())
    } else {
        match limits_after(items, (n - 1) as nat) {
            None => None,
            Some(limits) => match limit_of(items[n - 1]@) {
                None => None,
                Some((signal, limit)) => Some(limits.changed(signal, limit)),
            },
        }
    }
}

proof fn limit_errors_persist(items: Seq<String>, k: nat, n: nat)
    requires
        k <= n,
        limits_after(items, k) is None,
    ensures
        limits_after(items, n) is None,
    decreases n - k,
{
    if k < n {
        limit_errors_persist(items, k, (n - 1) as nat);
    }
}

fn read_limits(items: &Vec<String>) -> (limits: Option<RssLimits>)
    ensures
        limits == limits_after(items@, items@.len()),
{
    let mut limits = RssLimits { metrics: 524_288, logs: 524_288, traces: 786_432 };
    let mut i: usize = 0;
    while i < items.len()
        invariant
            i <= items@.len(),
            limits_after(items@, i as nat) == Some(limits),
        decreases items.len() - i,
    {
        match read_limit(&items[i]) {
            None => {
                proof {
                    limit_errors_persist(items@, (i + 1) as nat, items@.len());
                }
                return None;
            },
            Some((signal, limit)) => {
                match signal {
                    Signal::Metrics => {
                        limits.metrics = limit;
                    },
                    Signal::Logs => {
                        limits.logs = limit;
                    },
                    Signal::Traces => {
                        limits.traces = limit;
                    },
                }
            },
        }
        i += 1;
    }
    Some(limits)
}

/// What a run is asked for. Durations and rates are floats, by their bits.
pub struct Request {
    pub mode: Mode,
    pub duration: Option<u64>,
    pub sample: Option<u64>,
    pub write_hz: u64,
    pub query_hz: u64,
    pub batch: usize,
    pub max_rss_kib: Vec<String>,
}

/// The checked parts of a configuration.
#[derive(Clone, Copy, Debug, PartialEq, Eq, Structural)]
pub struct Config {
    pub mode: Mode,
    pub duration: u64,
    pub sample: u64,
    pub write_hz: u64,
    pub query_hz: u64,
    pub batch: usize,
    pub max_rss_kib: RssLimits,
}

/// The value that is asked for, or the one that is used otherwise.
pub open spec fn or_default(asked: Option<u64>, otherwise: u64) -> u64 {
    match asked {
        Some(v) => v,
        None => otherwise,
    }
}

/// The configuration that a request stands for.
pub open spec fn configured(request: Request) -> Result<Config, ConfigError> {
    let duration = or_default(
        request.duration,
        match request.mode {
            Mode::Short => 0x405e_0000_0000_0000u64,
            Mode::Release => 0x40c2_c000_0000_0000u64,
        },
    );
    let sample = or_default(
        request.sample,
        match request.mode {
            Mode::Short => 0x4014_0000_0000_0000u64,
            Mode::Release => 0x403e_0000_0000_0000u64,
        },
    );
    if floats::is_not_positive(duration) || floats::is_not_positive(sample)
        || floats::is_not_positive(request.write_hz) || floats::is_not_positive(request.query_hz) {
        Err(ConfigError::NotPositive)
    } else if request.mode is Release && floats::is_less(duration, TWO_HOURS) {
        Err(ConfigError::TooShort)
    } else if request.batch == 0 || request.batch % 4 != 0 {
        Err(ConfigError::Batch)
    } else {
        match limits_after(request.max_rss_kib@, request.max_rss_kib@.len()) {
            None => Err(ConfigError::RssLimit),
            Some(limits) => Ok(
                Config {
                    mode: request.mode,
                    duration,
                    sample,
                    write_hz: request.write_hz,
                    query_hz: request.query_hz,
                    batch: request.batch,
                    max_rss_kib: limits,
                },
            ),
        }
    }
}

impl Config {
    /// Checks a request: durations and rates are positive, a release run lasts at
    /// least two hours, batches are whole groups of four, and every limit can be
    /// read.
    pub fn new(request: &Request) -> (config: Result<Config, ConfigError>)
        ensures
            config == configured(*request),
    {
        let duration: u64 = match request.duration {
            Some(v) => v,
            None => request.mode.default_duration(),
        };
        let sample: u64 = match request.sample {
            Some(v) => v,
            None => request.mode.default_sample(),
        };
        if not_positive(duration) || not_positive(sample) || not_positive(request.write_hz)
            || not_positive(request.query_hz) {
            return Err(ConfigError::NotPositive);
        }
        let release: bool = match request.mode {
            Mode::Release => true,
            Mode::Short => false,
        };
        if release && less(duration, TWO_HOURS) {
            return Err(ConfigError::TooShort);
        }
        if request.batch == 0 || request.batch % 4 != 0 {
            return Err(ConfigError::Batch);
        }
        match read_limits(&request.max_rss_kib) {
            None => Err(ConfigError::RssLimit),
            Some(limits) => Ok(
                Config {
                    mode: request.mode,
                    duration,
                    sample,
                    write_hz: request.write_hz,
                    query_hz: request.query_hz,
                    batch: request.batch,
                    max_rss_kib: limits,
                },
            ),
        }
    }
}

} // verus!
