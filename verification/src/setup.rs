//! The database that the documented recipes run on.
use crate::ieee::{
    F_0, F_1, F_10, F_100, F_150, F_1709208000, F_1E16, F_1_6, F_2, F_20, F_3, F_30, F_300,
    F_4, F_40, F_5, F_500, F_7, F_8, F_90061_9, F_N1E16, F_N1_6, F_N3, F_N4, MAX, NEG_INF,
    NEG_ZERO,
};
use vstd::prelude::*;

verus! {

/// The tables of the database.
pub const TABLES: &'static str = "CREATE VIRTUAL TABLE metrics USING timeless_metrics; CREATE VIRTUAL TABLE logs USING timeless_logs(index_keys='service,host,path,status');";

/// Inserts one sample: name, labels, time and value.
pub const INSERT_METRIC: &'static str = "INSERT INTO metrics(name,labels,ts,value) VALUES(?1,?2,?3,?4)";

/// Inserts one log entry: time, level, message and metadata.
pub const INSERT_LOG: &'static str = "INSERT INTO logs(ts,level,message,metadata) VALUES(?1,?2,?3,?4)";

/// One step of the setup.
#[derive(Clone, Copy, Debug, PartialEq, Eq)]
pub enum SetupStep {
    /// Execute statements.
    Batch(&'static str),
    /// Begin a transaction.
    Begin,
    /// Insert a sample: name, labels, time, and the bits of the value.
    Metric(&'static str, &'static str, i64, u64),
    /// Insert a log entry: time, level, message and metadata.
    Log(i64, &'static str, &'static str, &'static str),
    /// Execute one statement.
    Statement(&'static str),
    /// Commit the transaction.
    Commit,
}

/// Step `i` of the setup; it ends where there is no step.
pub open spec fn setup_at(i: int) -> Option<SetupStep> {
    if i == 0 {
        Some(SetupStep::Batch(TABLES))
    } else if i == 1 {
        Some(SetupStep::Begin)
    } else if i == 2 {
        Some(SetupStep::Metric("cpu", r#"{"host":"web-1","service":"api"}"#, 100, F_10))
    } else if i == 3 {
        Some(SetupStep::Metric("cpu", r#"{"host":"web-2","service":"api"}"#, 100, F_20))
    } else if i == 4 {
        Some(SetupStep::Metric("cpu", r#"{"host":"web-1","service":"api"}"#, 110, F_30))
    } else if i == 5 {
        Some(SetupStep::Metric("avg_precision", "{}", 10, F_1E16))
    } else if i == 6 {
        Some(SetupStep::Metric("avg_precision", "{}", 20, F_1))
    } else if i == 7 {
        Some(SetupStep::Metric("avg_precision", "{}", 30, F_N1E16))
    } else if i == 8 {
        Some(SetupStep::Metric("avg_overflow", "{}", 20, MAX))
    } else if i == 9 {
        Some(SetupStep::Metric("avg_overflow", "{}", 30, MAX))
    } else if i == 10 {
        Some(SetupStep::Metric("min_window", "{}", 10, F_5))
    } else if i == 11 {
        Some(SetupStep::Metric("min_window", "{}", 20, F_3))
    } else if i == 12 {
        Some(SetupStep::Metric("min_window", "{}", 30, F_4))
    } else if i == 13 {
        Some(SetupStep::Metric("min_zero", "{}", 20, F_0))
    } else if i == 14 {
        Some(SetupStep::Metric("min_zero", "{}", 30, NEG_ZERO))
    } else if i == 15 {
        Some(SetupStep::Metric("max_window", "{}", 10, F_5))
    } else if i == 16 {
        Some(SetupStep::Metric("max_window", "{}", 20, F_3))
    } else if i == 17 {
        Some(SetupStep::Metric("max_window", "{}", 30, F_4))
    } else if i == 18 {
        Some(SetupStep::Metric("max_zero", "{}", 20, NEG_ZERO))
    } else if i == 19 {
        Some(SetupStep::Metric("max_zero", "{}", 30, F_0))
    } else if i == 20 {
        Some(SetupStep::Metric("rate_counter", r#"{"case":"steady"}"#, 10, F_100))
    } else if i == 21 {
        Some(SetupStep::Metric("rate_counter", r#"{"case":"steady"}"#, 30, F_300))
    } else if i == 22 {
        Some(SetupStep::Metric("rate_counter", r#"{"case":"steady"}"#, 50, F_500))
    } else if i == 23 {
        Some(SetupStep::Metric("rate_counter", r#"{"case":"reset"}"#, 10, F_100))
    } else if i == 24 {
        Some(SetupStep::Metric("rate_counter", r#"{"case":"reset"}"#, 30, F_150))
    } else if i == 25 {
        Some(SetupStep::Metric("rate_counter", r#"{"case":"reset"}"#, 50, F_20))
    } else if i == 26 {
        Some(SetupStep::Metric("changes_metric", r#"{"case":"repeated"}"#, 10, F_1))
    } else if i == 27 {
        Some(SetupStep::Metric("changes_metric", r#"{"case":"repeated"}"#, 20, F_1))
    } else if i == 28 {
        Some(SetupStep::Metric("changes_metric", r#"{"case":"repeated"}"#, 30, F_2))
    } else if i == 29 {
        Some(SetupStep::Metric("changes_metric", r#"{"case":"repeated"}"#, 40, F_2))
    } else if i == 30 {
        Some(SetupStep::Metric("changes_metric", r#"{"case":"repeated"}"#, 50, F_1))
    } else if i == 31 {
        Some(SetupStep::Metric("changes_metric", r#"{"case":"constant"}"#, 20, F_7))
    } else if i == 32 {
        Some(SetupStep::Metric("changes_metric", r#"{"case":"constant"}"#, 40, F_7))
    } else if i == 33 {
        Some(SetupStep::Metric("changes_metric", r#"{"case":"singleton"}"#, 50, F_5))
    } else if i == 34 {
        Some(SetupStep::Metric("abs_metric", r#"{"case":"negative"}"#, 100, F_N3))
    } else if i == 35 {
        Some(SetupStep::Metric("abs_metric", r#"{"case":"negative_inf"}"#, 100, NEG_INF))
    } else if i == 36 {
        Some(SetupStep::Metric("abs_metric", r#"{"case":"negative_zero"}"#, 100, NEG_ZERO))
    } else if i == 37 {
        Some(SetupStep::Metric("abs_metric", r#"{"case":"positive"}"#, 100, F_2))
    } else if i == 38 {
        Some(SetupStep::Metric("round_metric", r#"{"case":"negative"}"#, 100, F_N1_6))
    } else if i == 39 {
        Some(SetupStep::Metric("round_metric", r#"{"case":"negative_zero"}"#, 100, NEG_ZERO))
    } else if i == 40 {
        Some(SetupStep::Metric("round_metric", r#"{"case":"positive"}"#, 100, F_1_6))
    } else if i == 41 {
        Some(SetupStep::Metric("clamp_metric", r#"{"case":"below"}"#, 100, F_N3))
    } else if i == 42 {
        Some(SetupStep::Metric("clamp_metric", r#"{"case":"inside"}"#, 100, F_2))
    } else if i == 43 {
        Some(SetupStep::Metric("clamp_metric", r#"{"case":"above"}"#, 100, F_8))
    } else if i == 44 {
        Some(SetupStep::Metric("math_metric", r#"{"case":"sqrt"}"#, 100, F_4))
    } else if i == 45 {
        Some(SetupStep::Metric("math_metric", r#"{"case":"zero"}"#, 100, F_0))
    } else if i == 46 {
        Some(SetupStep::Metric("math_metric", r#"{"case":"one"}"#, 100, F_1))
    } else if i == 47 {
        Some(SetupStep::Metric("math_metric", r#"{"case":"eight"}"#, 100, F_8))
    } else if i == 48 {
        Some(SetupStep::Metric("math_metric", r#"{"case":"hundred"}"#, 100, F_100))
    } else if i == 49 {
        Some(SetupStep::Metric("math_metric", r#"{"case":"negative"}"#, 100, F_N4))
    } else if i == 50 {
        Some(SetupStep::Metric("math_metric", r#"{"case":"two"}"#, 100, F_2))
    } else if i == 51 {
        Some(SetupStep::Metric("label_join_metric", r#"{"case":"both","joined":"old","service":"api","zone":"west"}"#, 100, F_1))
    } else if i == 52 {
        Some(SetupStep::Metric("label_join_metric", r#"{"case":"missing","service":"api"}"#, 100, F_2))
    } else if i == 53 {
        Some(SetupStep::Metric("absent_late", r#"{"case":"late","service":"api"}"#, 110, F_7))
    } else if i == 54 {
        Some(SetupStep::Metric("calendar_metric", r#"{"case":"date","host":"web-1"}"#, 100, F_90061_9))
    } else if i == 55 {
        Some(SetupStep::Metric("calendar_leap_metric", r#"{"case":"leap","host":"web-1"}"#, 100, F_1709208000))
    } else if i == 56 {
        Some(SetupStep::Metric("sql_histogram_bucket", r#"{"host":"web-1","le":"0.1"}"#, 100, F_10))
    } else if i == 57 {
        Some(SetupStep::Metric("sql_histogram_bucket", r#"{"host":"web-1","le":"0.5"}"#, 100, F_20))
    } else if i == 58 {
        Some(SetupStep::Metric("sql_histogram_bucket", r#"{"host":"web-1","le":"1"}"#, 100, F_30))
    } else if i == 59 {
        Some(SetupStep::Metric("sql_histogram_bucket", r#"{"host":"web-1","le":"+Inf"}"#, 100, F_40))
    } else if i == 60 {
        Some(SetupStep::Metric("errors_total", r#"{"host":"web-1"}"#, 100, F_2))
    } else if i == 61 {
        Some(SetupStep::Metric("requests_total", r#"{"host":"web-1"}"#, 100, F_10))
    } else if i == 62 {
        Some(SetupStep::Statement("INSERT INTO metrics(metrics) VALUES ('flush')"))
    } else if i == 63 {
        Some(SetupStep::Log(1000, "error", "request timeout", r#"{"service":"api","host":"web-1","deployment":{"region":"us-east"},"duration_ms":12,"client_ip":"010.000.000.001","nested":{"ok":true,"count":2,"none":null,"empty":"","array_text":"  [1,{\"x\":2},[3],null]  "},"tags":["prod","",123,true,false,null,{"nested":"ignored"},["ignored"],"a\u0062","*"]}"#))
    } else if i == 64 {
        Some(SetupStep::Log(2000, "info", "request ok", r#"{"service":"api","host":"web-2","deployment":{"region":"us-west"},"duration_ms":4,"client_ip":"10.0.1.1","nested":{"ok":"true","count":"2","empty":null,"array_text":"  [1,{\"x\":2},[3],null]  "},"tags":["dev",1.5,-2,"123","a\"b","a\nb","a/b"]}"#))
    } else if i == 65 {
        Some(SetupStep::Statement("INSERT INTO logs(logs) VALUES ('flush')"))
    } else if i == 66 {
        Some(SetupStep::Commit)
    } else {
        None
    }
}

/// Step `i` of the setup.
pub fn setup(i: usize) -> (step: Option<SetupStep>)
    ensures
        step == setup_at(i as int),
{
    if i == 0 {
        Some(SetupStep::Batch(TABLES))
    } else if i == 1 {
        Some(SetupStep::Begin)
    } else if i == 2 {
        Some(SetupStep::Metric("cpu", r#"{"host":"web-1","service":"api"}"#, 100, F_10))
    } else if i == 3 {
        Some(SetupStep::Metric("cpu", r#"{"host":"web-2","service":"api"}"#, 100, F_20))
    } else if i == 4 {
        Some(SetupStep::Metric("cpu", r#"{"host":"web-1","service":"api"}"#, 110, F_30))
    } else if i == 5 {
        Some(SetupStep::Metric("avg_precision", "{}", 10, F_1E16))
    } else if i == 6 {
        Some(SetupStep::Metric("avg_precision", "{}", 20, F_1))
    } else if i == 7 {
        Some(SetupStep::Metric("avg_precision", "{}", 30, F_N1E16))
    } else if i == 8 {
        Some(SetupStep::Metric("avg_overflow", "{}", 20, MAX))
    } else if i == 9 {
        Some(SetupStep::Metric("avg_overflow", "{}", 30, MAX))
    } else if i == 10 {
        Some(SetupStep::Metric("min_window", "{}", 10, F_5))
    } else if i == 11 {
        Some(SetupStep::Metric("min_window", "{}", 20, F_3))
    } else if i == 12 {
        Some(SetupStep::Metric("min_window", "{}", 30, F_4))
    } else if i == 13 {
        Some(SetupStep::Metric("min_zero", "{}", 20, F_0))
    } else if i == 14 {
        Some(SetupStep::Metric("min_zero", "{}", 30, NEG_ZERO))
    } else if i == 15 {
        Some(SetupStep::Metric("max_window", "{}", 10, F_5))
    } else if i == 16 {
        Some(SetupStep::Metric("max_window", "{}", 20, F_3))
    } else if i == 17 {
        Some(SetupStep::Metric("max_window", "{}", 30, F_4))
    } else if i == 18 {
        Some(SetupStep::Metric("max_zero", "{}", 20, NEG_ZERO))
    } else if i == 19 {
        Some(SetupStep::Metric("max_zero", "{}", 30, F_0))
    } else if i == 20 {
        Some(SetupStep::Metric("rate_counter", r#"{"case":"steady"}"#, 10, F_100))
    } else if i == 21 {
        Some(SetupStep::Metric("rate_counter", r#"{"case":"steady"}"#, 30, F_300))
    } else if i == 22 {
        Some(SetupStep::Metric("rate_counter", r#"{"case":"steady"}"#, 50, F_500))
    } else if i == 23 {
        Some(SetupStep::Metric("rate_counter", r#"{"case":"reset"}"#, 10, F_100))
    } else if i == 24 {
        Some(SetupStep::Metric("rate_counter", r#"{"case":"reset"}"#, 30, F_150))
    } else if i == 25 {
        Some(SetupStep::Metric("rate_counter", r#"{"case":"reset"}"#, 50, F_20))
    } else if i == 26 {
        Some(SetupStep::Metric("changes_metric", r#"{"case":"repeated"}"#, 10, F_1))
    } else if i == 27 {
        Some(SetupStep::Metric("changes_metric", r#"{"case":"repeated"}"#, 20, F_1))
    } else if i == 28 {
        Some(SetupStep::Metric("changes_metric", r#"{"case":"repeated"}"#, 30, F_2))
    } else if i == 29 {
        Some(SetupStep::Metric("changes_metric", r#"{"case":"repeated"}"#, 40, F_2))
    } else if i == 30 {
        Some(SetupStep::Metric("changes_metric", r#"{"case":"repeated"}"#, 50, F_1))
    } else if i == 31 {
        Some(SetupStep::Metric("changes_metric", r#"{"case":"constant"}"#, 20, F_7))
    } else if i == 32 {
        Some(SetupStep::Metric("changes_metric", r#"{"case":"constant"}"#, 40, F_7))
    } else if i == 33 {
        Some(SetupStep::Metric("changes_metric", r#"{"case":"singleton"}"#, 50, F_5))
    } else if i == 34 {
        Some(SetupStep::Metric("abs_metric", r#"{"case":"negative"}"#, 100, F_N3))
    } else if i == 35 {
        Some(SetupStep::Metric("abs_metric", r#"{"case":"negative_inf"}"#, 100, NEG_INF))
    } else if i == 36 {
        Some(SetupStep::Metric("abs_metric", r#"{"case":"negative_zero"}"#, 100, NEG_ZERO))
    } else if i == 37 {
        Some(SetupStep::Metric("abs_metric", r#"{"case":"positive"}"#, 100, F_2))
    } else if i == 38 {
        Some(SetupStep::Metric("round_metric", r#"{"case":"negative"}"#, 100, F_N1_6))
    } else if i == 39 {
        Some(SetupStep::Metric("round_metric", r#"{"case":"negative_zero"}"#, 100, NEG_ZERO))
    } else if i == 40 {
        Some(SetupStep::Metric("round_metric", r#"{"case":"positive"}"#, 100, F_1_6))
    } else if i == 41 {
        Some(SetupStep::Metric("clamp_metric", r#"{"case":"below"}"#, 100, F_N3))
    } else if i == 42 {
        Some(SetupStep::Metric("clamp_metric", r#"{"case":"inside"}"#, 100, F_2))
    } else if i == 43 {
        Some(SetupStep::Metric("clamp_metric", r#"{"case":"above"}"#, 100, F_8))
    } else if i == 44 {
        Some(SetupStep::Metric("math_metric", r#"{"case":"sqrt"}"#, 100, F_4))
    } else if i == 45 {
        Some(SetupStep::Metric("math_metric", r#"{"case":"zero"}"#, 100, F_0))
    } else if i == 46 {
        Some(SetupStep::Metric("math_metric", r#"{"case":"one"}"#, 100, F_1))
    } else if i == 47 {
        Some(SetupStep::Metric("math_metric", r#"{"case":"eight"}"#, 100, F_8))
    } else if i == 48 {
        Some(SetupStep::Metric("math_metric", r#"{"case":"hundred"}"#, 100, F_100))
    } else if i == 49 {
        Some(SetupStep::Metric("math_metric", r#"{"case":"negative"}"#, 100, F_N4))
    } else if i == 50 {
        Some(SetupStep::Metric("math_metric", r#"{"case":"two"}"#, 100, F_2))
    } else if i == 51 {
        Some(SetupStep::Metric("label_join_metric", r#"{"case":"both","joined":"old","service":"api","zone":"west"}"#, 100, F_1))
    } else if i == 52 {
        Some(SetupStep::Metric("label_join_metric", r#"{"case":"missing","service":"api"}"#, 100, F_2))
    } else if i == 53 {
        Some(SetupStep::Metric("absent_late", r#"{"case":"late","service":"api"}"#, 110, F_7))
    } else if i == 54 {
        Some(SetupStep::Metric("calendar_metric", r#"{"case":"date","host":"web-1"}"#, 100, F_90061_9))
    } else if i == 55 {
        Some(SetupStep::Metric("calendar_leap_metric", r#"{"case":"leap","host":"web-1"}"#, 100, F_1709208000))
    } else if i == 56 {
        Some(SetupStep::Metric("sql_histogram_bucket", r#"{"host":"web-1","le":"0.1"}"#, 100, F_10))
    } else if i == 57 {
        Some(SetupStep::Metric("sql_histogram_bucket", r#"{"host":"web-1","le":"0.5"}"#, 100, F_20))
    } else if i == 58 {
        Some(SetupStep::Metric("sql_histogram_bucket", r#"{"host":"web-1","le":"1"}"#, 100, F_30))
    } else if i == 59 {
        Some(SetupStep::Metric("sql_histogram_bucket", r#"{"host":"web-1","le":"+Inf"}"#, 100, F_40))
    } else if i == 60 {
        Some(SetupStep::Metric("errors_total", r#"{"host":"web-1"}"#, 100, F_2))
    } else if i == 61 {
        Some(SetupStep::Metric("requests_total", r#"{"host":"web-1"}"#, 100, F_10))
    } else if i == 62 {
        Some(SetupStep::Statement("INSERT INTO metrics(metrics) VALUES ('flush')"))
    } else if i == 63 {
        Some(SetupStep::Log(1000, "error", "request timeout", r#"{"service":"api","host":"web-1","deployment":{"region":"us-east"},"duration_ms":12,"client_ip":"010.000.000.001","nested":{"ok":true,"count":2,"none":null,"empty":"","array_text":"  [1,{\"x\":2},[3],null]  "},"tags":["prod","",123,true,false,null,{"nested":"ignored"},["ignored"],"a\u0062","*"]}"#))
    } else if i == 64 {
        Some(SetupStep::Log(2000, "info", "request ok", r#"{"service":"api","host":"web-2","deployment":{"region":"us-west"},"duration_ms":4,"client_ip":"10.0.1.1","nested":{"ok":"true","count":"2","empty":null,"array_text":"  [1,{\"x\":2},[3],null]  "},"tags":["dev",1.5,-2,"123","a\"b","a\nb","a/b"]}"#))
    } else if i == 65 {
        Some(SetupStep::Statement("INSERT INTO logs(logs) VALUES ('flush')"))
    } else if i == 66 {
        Some(SetupStep::Commit)
    } else {
        None
    }
}

} // verus!
