//! The values that the documented recipes are executed with.
use crate::ieee::{F_0, F_0_1, F_0_25, F_0_5, F_0_75, F_1, F_10, F_15, F_2, F_5};
use crate::text::{chars_of, same_text, slice_text};
use crate::values::Literal;
use vstd::prelude::*;

verus! {

/// The recipes over counters, which look back one minute from second 60.
pub open spec fn is_counter_window(identifier: Seq<char>) -> bool {
    identifier == "SQL-PROM-029"@ || identifier == "SQL-PROM-030"@ ||
        identifier == "SQL-PROM-031"@ || identifier == "SQL-PROM-032"@ ||
        identifier == "SQL-PROM-033"@ || identifier == "SQL-PROM-034"@ ||
        identifier == "SQL-PROM-035"@ || identifier == "SQL-PROM-036"@ ||
        identifier == "SQL-PROM-037"@
}

fn counter_window(identifier: &str) -> (yes: bool)
    ensures
        yes == is_counter_window(identifier@),
{
    same_text(identifier, "SQL-PROM-029") || same_text(identifier, "SQL-PROM-030") ||
        same_text(identifier, "SQL-PROM-031") || same_text(identifier, "SQL-PROM-032") ||
        same_text(identifier, "SQL-PROM-033") || same_text(identifier, "SQL-PROM-034") ||
        same_text(identifier, "SQL-PROM-035") || same_text(identifier, "SQL-PROM-036") ||
        same_text(identifier, "SQL-PROM-037")
}

/// The metric that a recipe is about.
pub open spec fn metric_of(identifier: Seq<char>) -> &'static str {
    if identifier == "SQL-PROM-002"@ {
        "avg_precision"
    } else if identifier == "SQL-PROM-021"@ {
        "min_window"
    } else if identifier == "SQL-PROM-022"@ {
        "max_window"
    } else if identifier == "SQL-PROM-029"@ || identifier == "SQL-PROM-030"@ ||
        identifier == "SQL-PROM-031"@ || identifier == "SQL-PROM-032"@ ||
        identifier == "SQL-PROM-033"@ || identifier == "SQL-PROM-034"@ ||
        identifier == "SQL-PROM-035"@ || identifier == "SQL-PROM-037"@ {
        "rate_counter"
    } else if identifier == "SQL-PROM-036"@ {
        "changes_metric"
    } else if identifier == "SQL-PROM-038"@ || identifier == "SQL-PROM-049"@ {
        "abs_metric"
    } else if identifier == "SQL-PROM-039"@ {
        "round_metric"
    } else if identifier == "SQL-PROM-040"@ {
        "clamp_metric"
    } else if identifier == "SQL-PROM-041"@ || identifier == "SQL-PROM-042"@ ||
        identifier == "SQL-PROM-043"@ || identifier == "SQL-PROM-044"@ ||
        identifier == "SQL-PROM-045"@ {
        "math_metric"
    } else if identifier == "SQL-PROM-046"@ {
        "label_join_metric"
    } else if identifier == "SQL-PROM-047"@ || identifier == "SQL-PROM-048"@ {
        "absent_late"
    } else if identifier == "SQL-PROM-052"@ {
        "calendar_metric"
    } else if identifier == "SQL-PROM-053"@ {
        "calendar_leap_metric"
    } else if identifier == "SQL-PROM-054"@ || identifier == "SQL-PROM-056"@ ||
        identifier == "SQL-MQL-012"@ {
        "sql_histogram_bucket"
    } else {
        "cpu"
    }
}

fn metric(identifier: &str) -> (name: &'static str)
    ensures
        name == metric_of(identifier@),
{
    if same_text(identifier, "SQL-PROM-002") {
        "avg_precision"
    } else if same_text(identifier, "SQL-PROM-021") {
        "min_window"
    } else if same_text(identifier, "SQL-PROM-022") {
        "max_window"
    } else if same_text(identifier, "SQL-PROM-029") || same_text(identifier, "SQL-PROM-030") ||
        same_text(identifier, "SQL-PROM-031") || same_text(identifier, "SQL-PROM-032") ||
        same_text(identifier, "SQL-PROM-033") || same_text(identifier, "SQL-PROM-034") ||
        same_text(identifier, "SQL-PROM-035") || same_text(identifier, "SQL-PROM-037") {
        "rate_counter"
    } else if same_text(identifier, "SQL-PROM-036") {
        "changes_metric"
    } else if same_text(identifier, "SQL-PROM-038") || same_text(identifier, "SQL-PROM-049") {
        "abs_metric"
    } else if same_text(identifier, "SQL-PROM-039") {
        "round_metric"
    } else if same_text(identifier, "SQL-PROM-040") {
        "clamp_metric"
    } else if same_text(identifier, "SQL-PROM-041") || same_text(identifier, "SQL-PROM-042") ||
        same_text(identifier, "SQL-PROM-043") || same_text(identifier, "SQL-PROM-044") ||
        same_text(identifier, "SQL-PROM-045") {
        "math_metric"
    } else if same_text(identifier, "SQL-PROM-046") {
        "label_join_metric"
    } else if same_text(identifier, "SQL-PROM-047") || same_text(identifier, "SQL-PROM-048") {
        "absent_late"
    } else if same_text(identifier, "SQL-PROM-052") {
        "calendar_metric"
    } else if same_text(identifier, "SQL-PROM-053") {
        "calendar_leap_metric"
    } else if same_text(identifier, "SQL-PROM-054") || same_text(identifier, "SQL-PROM-056") ||
        same_text(identifier, "SQL-MQL-012") {
        "sql_histogram_bucket"
    } else {
        "cpu"
    }
}

/// Parameters of metric queries: selection, time range and arithmetic.
pub open spec fn query_parameter_value(identifier: Seq<char>, name: Seq<char>) -> Option<Literal> {
    if name == "metric"@ {
        Some(Literal::Text(metric_of(identifier)))
    } else if name == "lhs_metric"@ || name == "many_metric"@ {
        Some(Literal::Text("cpu"))
    } else if name == "rhs_metric"@ && identifier == "SQL-MQL-001"@ {
        Some(Literal::Text("requests_total"))
    } else if name == "rhs_metric"@ {
        Some(Literal::Text("cpu"))
    } else if name == "one_metric"@ {
        Some(Literal::Text("requests_total"))
    } else if name == "filter_json"@ || name == "lhs_filter"@ || name == "rhs_filter"@ ||
        name == "many_filter"@ || name == "one_filter"@ {
        Some(Literal::Null)
    } else if name == "error_filter"@ {
        Some(Literal::Text(r#"{"host":"web-1"}"#))
    } else if name == "request_filter"@ {
        Some(Literal::Text(r#"{"host":"web-1"}"#))
    } else if name == "at"@ {
        Some(Literal::Integer(110))
    } else if name == "anchor"@ {
        Some(Literal::Integer(100))
    } else if name == "start"@ {
        Some(Literal::Integer(if is_counter_window(identifier) { 60 } else { 100 }))
    } else if name == "end"@ {
        Some(Literal::Integer(if is_counter_window(identifier) { 60 } else { 110 }))
    } else if name == "step"@ || name == "resolution"@ {
        Some(Literal::Integer(10))
    } else if name == "request_step"@ {
        Some(Literal::Integer(10))
    } else if name == "multiple"@ {
        Some(Literal::Real(F_1))
    } else if name == "fixed_offset"@ {
        Some(Literal::Integer(0))
    } else if name == "lookback"@ || name == "window"@ {
        Some(Literal::Integer(if is_counter_window(identifier) { 60 } else { 20 }))
    } else if name == "history"@ {
        Some(Literal::Integer(300))
    } else if name == "max_lookback"@ {
        Some(Literal::Integer(0))
    } else if name == "offset"@ {
        Some(Literal::Integer(10))
    } else if name == "max_work_points"@ {
        Some(Literal::Integer(100_000))
    } else if name == "max_work_entries"@ {
        Some(Literal::Integer(100_000))
    } else if name == "threshold"@ && identifier == "SQL-MQL-001"@ {
        Some(Literal::Real(F_15))
    } else if name == "threshold"@ {
        Some(Literal::Real(F_0))
    } else if name == "default_value"@ && identifier == "SQL-LOG-032"@ {
        Some(Literal::Text("fallback"))
    } else if name == "default_value"@ {
        Some(Literal::Real(F_0))
    } else if name == "scalar"@ || name == "scalar_value"@ || name == "value"@ {
        Some(Literal::Real(F_2))
    } else if name == "q"@ || name == "quantile"@ {
        Some(Literal::Real(F_0_5))
    } else if name == "first_quantile"@ {
        Some(Literal::Real(F_0_25))
    } else if name == "second_quantile"@ {
        Some(Literal::Real(F_0_75))
    } else if name == "first_phi_label"@ {
        Some(Literal::Text("0.25"))
    } else if name == "second_phi_label"@ {
        Some(Literal::Text("0.75"))
    } else if name == "destination_path"@ {
        Some(Literal::Text("$.phi"))
    } else if name == "k"@ {
        Some(Literal::Integer(1))
    } else if name == "horizon"@ {
        Some(Literal::Real(F_10))
    } else if name == "nearest"@ {
        Some(Literal::Real(F_0_5))
    } else if name == "minimum"@ {
        Some(Literal::Real(F_0))
    } else if name == "maximum"@ {
        Some(Literal::Real(F_5))
    } else if name == "lower"@ {
        Some(Literal::Real(F_0_1))
    } else if name == "upper"@ {
        Some(Literal::Real(F_0_5))
    } else if name == "destination"@ {
        Some(Literal::Text("joined"))
    } else if name == "first_metric"@ {
        Some(Literal::Text("cpu"))
    } else {
        None
    }
}

fn query_parameter(identifier: &str, name: &str) -> (value: Option<Literal>)
    ensures
        value == query_parameter_value(identifier@, name@),
{
    if same_text(name, "metric") {
        Some(Literal::Text(metric(identifier)))
    } else if same_text(name, "lhs_metric") || same_text(name, "many_metric") {
        Some(Literal::Text("cpu"))
    } else if same_text(name, "rhs_metric") && same_text(identifier, "SQL-MQL-001") {
        Some(Literal::Text("requests_total"))
    } else if same_text(name, "rhs_metric") {
        Some(Literal::Text("cpu"))
    } else if same_text(name, "one_metric") {
        Some(Literal::Text("requests_total"))
    } else if same_text(name, "filter_json") || same_text(name, "lhs_filter") ||
        same_text(name, "rhs_filter") || same_text(name, "many_filter") ||
        same_text(name, "one_filter") {
        Some(Literal::Null)
    } else if same_text(name, "error_filter") {
        Some(Literal::Text(r#"{"host":"web-1"}"#))
    } else if same_text(name, "request_filter") {
        Some(Literal::Text(r#"{"host":"web-1"}"#))
    } else if same_text(name, "at") {
        Some(Literal::Integer(110))
    } else if same_text(name, "anchor") {
        Some(Literal::Integer(100))
    } else if same_text(name, "start") {
        Some(Literal::Integer(if counter_window(identifier) { 60 } else { 100 }))
    } else if same_text(name, "end") {
        Some(Literal::Integer(if counter_window(identifier) { 60 } else { 110 }))
    } else if same_text(name, "step") || same_text(name, "resolution") {
        Some(Literal::Integer(10))
    } else if same_text(name, "request_step") {
        Some(Literal::Integer(10))
    } else if same_text(name, "multiple") {
        Some(Literal::Real(F_1))
    } else if same_text(name, "fixed_offset") {
        Some(Literal::Integer(0))
    } else if same_text(name, "lookback") || same_text(name, "window") {
        Some(Literal::Integer(if counter_window(identifier) { 60 } else { 20 }))
    } else if same_text(name, "history") {
        Some(Literal::Integer(300))
    } else if same_text(name, "max_lookback") {
        Some(Literal::Integer(0))
    } else if same_text(name, "offset") {
        Some(Literal::Integer(10))
    } else if same_text(name, "max_work_points") {
        Some(Literal::Integer(100_000))
    } else if same_text(name, "max_work_entries") {
        Some(Literal::Integer(100_000))
    } else if same_text(name, "threshold") && same_text(identifier, "SQL-MQL-001") {
        Some(Literal::Real(F_15))
    } else if same_text(name, "threshold") {
        Some(Literal::Real(F_0))
    } else if same_text(name, "default_value") && same_text(identifier, "SQL-LOG-032") {
        Some(Literal::Text("fallback"))
    } else if same_text(name, "default_value") {
        Some(Literal::Real(F_0))
    } else if same_text(name, "scalar") || same_text(name, "scalar_value") ||
        same_text(name, "value") {
        Some(Literal::Real(F_2))
    } else if same_text(name, "q") || same_text(name, "quantile") {
        Some(Literal::Real(F_0_5))
    } else if same_text(name, "first_quantile") {
        Some(Literal::Real(F_0_25))
    } else if same_text(name, "second_quantile") {
        Some(Literal::Real(F_0_75))
    } else if same_text(name, "first_phi_label") {
        Some(Literal::Text("0.25"))
    } else if same_text(name, "second_phi_label") {
        Some(Literal::Text("0.75"))
    } else if same_text(name, "destination_path") {
        Some(Literal::Text("$.phi"))
    } else if same_text(name, "k") {
        Some(Literal::Integer(1))
    } else if same_text(name, "horizon") {
        Some(Literal::Real(F_10))
    } else if same_text(name, "nearest") {
        Some(Literal::Real(F_0_5))
    } else if same_text(name, "minimum") {
        Some(Literal::Real(F_0))
    } else if same_text(name, "maximum") {
        Some(Literal::Real(F_5))
    } else if same_text(name, "lower") {
        Some(Literal::Real(F_0_1))
    } else if same_text(name, "upper") {
        Some(Literal::Real(F_0_5))
    } else if same_text(name, "destination") {
        Some(Literal::Text("joined"))
    } else if same_text(name, "first_metric") {
        Some(Literal::Text("cpu"))
    } else {
        None
    }
}

/// Parameters of label rewriting and of ordering and grouping logs.
pub open spec fn rewriting_parameter_value(identifier: Seq<char>, name: Seq<char>) -> Option<Literal> {
    if name == "second_metric"@ {
        Some(Literal::Text("requests_total"))
    } else if name == "alias_metric"@ {
        Some(Literal::Text("cpu"))
    } else if name == "alias_name"@ {
        Some(Literal::Text("aliased_cpu"))
    } else if name == "collision_first_metric"@ {
        Some(Literal::Text("errors_total"))
    } else if name == "collision_second_metric"@ {
        Some(Literal::Text("requests_total"))
    } else if name == "collision_alias"@ {
        Some(Literal::Text("combined_total"))
    } else if name == "label_name"@ {
        Some(Literal::Text("environment"))
    } else if name == "label_path"@ {
        Some(Literal::Text("$.environment"))
    } else if name == "label_value"@ {
        Some(Literal::Text("production"))
    } else if name == "delete_label"@ {
        Some(Literal::Text("service"))
    } else if name == "delete_path"@ {
        Some(Literal::Text("$.service"))
    } else if name == "delete_path_1"@ {
        Some(Literal::Text("$.deployment.region"))
    } else if name == "delete_path_2"@ {
        Some(Literal::Text("$.duration_ms"))
    } else if name == "sort_path"@ {
        Some(Literal::Text("$.duration_ms"))
    } else if name == "tie_path"@ {
        Some(Literal::Text("$.host"))
    } else if name == "partition_path"@ {
        Some(Literal::Text("$.service"))
    } else if name == "group_path"@ {
        Some(Literal::Text("$.host"))
    } else if name == "filter_text"@ {
        Some(Literal::Text("web"))
    } else if name == "first_count"@ {
        Some(Literal::Integer(1))
    } else if name == "last_count"@ {
        Some(Literal::Integer(1))
    } else if name == "top_count"@ {
        Some(Literal::Integer(10))
    } else if name == "uniq_limit"@ {
        Some(Literal::Integer(10))
    } else if name == "facets_limit"@ {
        Some(Literal::Integer(10))
    } else if name == "max_values_per_field"@ {
        Some(Literal::Integer(1_000))
    } else if name == "max_value_len"@ {
        Some(Literal::Integer(128))
    } else if name == "keep_const_fields"@ {
        Some(Literal::Integer(0))
    } else if name == "timestamp_units_per_second"@ {
        Some(Literal::Integer(1_000))
    } else if name == "start_ts"@ {
        Some(Literal::Integer(1_000))
    } else if name == "end_ts"@ {
        Some(Literal::Integer(2_000))
    } else if name == "source_path_1"@ {
        Some(Literal::Text("$.nested.empty"))
    } else {
        None
    }
}

fn rewriting_parameter(identifier: &str, name: &str) -> (value: Option<Literal>)
    ensures
        value == rewriting_parameter_value(identifier@, name@),
{
    if same_text(name, "second_metric") {
        Some(Literal::Text("requests_total"))
    } else if same_text(name, "alias_metric") {
        Some(Literal::Text("cpu"))
    } else if same_text(name, "alias_name") {
        Some(Literal::Text("aliased_cpu"))
    } else if same_text(name, "collision_first_metric") {
        Some(Literal::Text("errors_total"))
    } else if same_text(name, "collision_second_metric") {
        Some(Literal::Text("requests_total"))
    } else if same_text(name, "collision_alias") {
        Some(Literal::Text("combined_total"))
    } else if same_text(name, "label_name") {
        Some(Literal::Text("environment"))
    } else if same_text(name, "label_path") {
        Some(Literal::Text("$.environment"))
    } else if same_text(name, "label_value") {
        Some(Literal::Text("production"))
    } else if same_text(name, "delete_label") {
        Some(Literal::Text("service"))
    } else if same_text(name, "delete_path") {
        Some(Literal::Text("$.service"))
    } else if same_text(name, "delete_path_1") {
        Some(Literal::Text("$.deployment.region"))
    } else if same_text(name, "delete_path_2") {
        Some(Literal::Text("$.duration_ms"))
    } else if same_text(name, "sort_path") {
        Some(Literal::Text("$.duration_ms"))
    } else if same_text(name, "tie_path") {
        Some(Literal::Text("$.host"))
    } else if same_text(name, "partition_path") {
        Some(Literal::Text("$.service"))
    } else if same_text(name, "group_path") {
        Some(Literal::Text("$.host"))
    } else if same_text(name, "filter_text") {
        Some(Literal::Text("web"))
    } else if same_text(name, "first_count") {
        Some(Literal::Integer(1))
    } else if same_text(name, "last_count") {
        Some(Literal::Integer(1))
    } else if same_text(name, "top_count") {
        Some(Literal::Integer(10))
    } else if same_text(name, "uniq_limit") {
        Some(Literal::Integer(10))
    } else if same_text(name, "facets_limit") {
        Some(Literal::Integer(10))
    } else if same_text(name, "max_values_per_field") {
        Some(Literal::Integer(1_000))
    } else if same_text(name, "max_value_len") {
        Some(Literal::Integer(128))
    } else if same_text(name, "keep_const_fields") {
        Some(Literal::Integer(0))
    } else if same_text(name, "timestamp_units_per_second") {
        Some(Literal::Integer(1_000))
    } else if same_text(name, "start_ts") {
        Some(Literal::Integer(1_000))
    } else if same_text(name, "end_ts") {
        Some(Literal::Integer(2_000))
    } else if same_text(name, "source_path_1") {
        Some(Literal::Text("$.nested.empty"))
    } else {
        None
    }
}

/// Parameters of field copies, formats and arithmetic on logs.
pub open spec fn field_parameter_value(identifier: Seq<char>, name: Seq<char>) -> Option<Literal> {
    if name == "source_path_2"@ {
        Some(Literal::Text("$.host"))
    } else if name == "source_path_3"@ {
        Some(Literal::Text("$.service"))
    } else if name == "copy_source_path"@ {
        Some(Literal::Text("$.duration_ms"))
    } else if name == "copy_destination_path"@ {
        Some(Literal::Text("$.copied"))
    } else if name == "rename_source_path"@ {
        Some(Literal::Text("$.duration_ms"))
    } else if name == "rename_destination_path"@ {
        Some(Literal::Text("$.moved"))
    } else if name == "format_source_path_1"@ {
        Some(Literal::Text("$.host"))
    } else if name == "format_source_path_2"@ {
        Some(Literal::Text("$.duration_ms"))
    } else if name == "format_pattern"@ {
        Some(Literal::Text("host=%s duration_ms=%s"))
    } else if name == "math_source_path_1"@ {
        Some(Literal::Text("$.duration_ms"))
    } else if name == "math_source_path_2"@ {
        Some(Literal::Text("$.nested.count"))
    } else if name == "math_multiplier"@ {
        Some(Literal::Real(F_2))
    } else if name == "len_source_path"@ {
        Some(Literal::Text("$.host"))
    } else if name == "drop_empty_path"@ {
        Some(Literal::Text("$.nested.empty"))
    } else if name == "replace_path"@ {
        Some(Literal::Text("$.host"))
    } else if name == "replace_old"@ {
        Some(Literal::Text("web"))
    } else if name == "replace_new"@ {
        Some(Literal::Text("node"))
    } else if name == "replace_enabled"@ {
        Some(Literal::Integer(1))
    } else if name == "extract_source_path"@ {
        Some(Literal::Text("$.client_ip"))
    } else if name == "extract_prefix"@ {
        Some(Literal::Text(""))
    } else if name == "extract_middle"@ || name == "extract_suffix"@ {
        Some(Literal::Text("."))
    } else if name == "pack_path_1"@ {
        Some(Literal::Text("$.host"))
    } else if name == "pack_path_2"@ {
        Some(Literal::Text("$.duration_ms"))
    } else if name == "pack_path_3"@ {
        Some(Literal::Text("$.nested.ok"))
    } else if name == "pack_path_4"@ {
        Some(Literal::Text("$.nested.none"))
    } else if name == "pack_path_5"@ {
        Some(Literal::Text("$.tags"))
    } else if name == "pack_path_6"@ {
        Some(Literal::Text("$.nested.empty"))
    } else if name == "unpack_source_path"@ {
        Some(Literal::Text("$.nested"))
    } else if name == "unpack_path_1"@ {
        Some(Literal::Text("$.ok"))
    } else if name == "unpack_path_2"@ {
        Some(Literal::Text("$.count"))
    } else if name == "unpack_path_3"@ {
        Some(Literal::Text("$.none"))
    } else if name == "unpack_path_4"@ {
        Some(Literal::Text("$.empty"))
    } else if name == "unpack_path_5"@ {
        Some(Literal::Text("$.missing"))
    } else if name == "json_array_source_path"@ {
        Some(Literal::Text("$.tags"))
    } else if name == "stats_source_path"@ {
        Some(Literal::Text("$.duration_ms"))
    } else {
        None
    }
}

fn field_parameter(identifier: &str, name: &str) -> (value: Option<Literal>)
    ensures
        value == field_parameter_value(identifier@, name@),
{
    if same_text(name, "source_path_2") {
        Some(Literal::Text("$.host"))
    } else if same_text(name, "source_path_3") {
        Some(Literal::Text("$.service"))
    } else if same_text(name, "copy_source_path") {
        Some(Literal::Text("$.duration_ms"))
    } else if same_text(name, "copy_destination_path") {
        Some(Literal::Text("$.copied"))
    } else if same_text(name, "rename_source_path") {
        Some(Literal::Text("$.duration_ms"))
    } else if same_text(name, "rename_destination_path") {
        Some(Literal::Text("$.moved"))
    } else if same_text(name, "format_source_path_1") {
        Some(Literal::Text("$.host"))
    } else if same_text(name, "format_source_path_2") {
        Some(Literal::Text("$.duration_ms"))
    } else if same_text(name, "format_pattern") {
        Some(Literal::Text("host=%s duration_ms=%s"))
    } else if same_text(name, "math_source_path_1") {
        Some(Literal::Text("$.duration_ms"))
    } else if same_text(name, "math_source_path_2") {
        Some(Literal::Text("$.nested.count"))
    } else if same_text(name, "math_multiplier") {
        Some(Literal::Real(F_2))
    } else if same_text(name, "len_source_path") {
        Some(Literal::Text("$.host"))
    } else if same_text(name, "drop_empty_path") {
        Some(Literal::Text("$.nested.empty"))
    } else if same_text(name, "replace_path") {
        Some(Literal::Text("$.host"))
    } else if same_text(name, "replace_old") {
        Some(Literal::Text("web"))
    } else if same_text(name, "replace_new") {
        Some(Literal::Text("node"))
    } else if same_text(name, "replace_enabled") {
        Some(Literal::Integer(1))
    } else if same_text(name, "extract_source_path") {
        Some(Literal::Text("$.client_ip"))
    } else if same_text(name, "extract_prefix") {
        Some(Literal::Text(""))
    } else if same_text(name, "extract_middle") || same_text(name, "extract_suffix") {
        Some(Literal::Text("."))
    } else if same_text(name, "pack_path_1") {
        Some(Literal::Text("$.host"))
    } else if same_text(name, "pack_path_2") {
        Some(Literal::Text("$.duration_ms"))
    } else if same_text(name, "pack_path_3") {
        Some(Literal::Text("$.nested.ok"))
    } else if same_text(name, "pack_path_4") {
        Some(Literal::Text("$.nested.none"))
    } else if same_text(name, "pack_path_5") {
        Some(Literal::Text("$.tags"))
    } else if same_text(name, "pack_path_6") {
        Some(Literal::Text("$.nested.empty"))
    } else if same_text(name, "unpack_source_path") {
        Some(Literal::Text("$.nested"))
    } else if same_text(name, "unpack_path_1") {
        Some(Literal::Text("$.ok"))
    } else if same_text(name, "unpack_path_2") {
        Some(Literal::Text("$.count"))
    } else if same_text(name, "unpack_path_3") {
        Some(Literal::Text("$.none"))
    } else if same_text(name, "unpack_path_4") {
        Some(Literal::Text("$.empty"))
    } else if same_text(name, "unpack_path_5") {
        Some(Literal::Text("$.missing"))
    } else if same_text(name, "json_array_source_path") {
        Some(Literal::Text("$.tags"))
    } else if same_text(name, "stats_source_path") {
        Some(Literal::Text("$.duration_ms"))
    } else {
        None
    }
}

/// Parameters of packing, arrays and row selection.
pub open spec fn collection_parameter_value(identifier: Seq<char>, name: Seq<char>) -> Option<Literal> {
    if name == "sum_len_source_path"@ {
        Some(Literal::Text("$.duration_ms"))
    } else if name == "any_source_path"@ {
        Some(Literal::Text("$.host"))
    } else if name == "extreme_source_path"@ {
        Some(Literal::Text("$.duration_ms"))
    } else if name == "extreme_result_path"@ {
        Some(Literal::Text("$.host"))
    } else if name == "row_any_path_1"@ {
        Some(Literal::Text("$.nested.ok"))
    } else if name == "row_any_path_2"@ {
        Some(Literal::Text("$.nested.none"))
    } else if name == "row_extreme_source_path"@ {
        Some(Literal::Text("$.duration_ms"))
    } else if name == "row_result_path_1"@ {
        Some(Literal::Text("$.host"))
    } else if name == "row_result_path_2"@ {
        Some(Literal::Text("$.nested"))
    } else if name == "with_hits"@ {
        Some(Literal::Integer(1))
    } else if name == "max_result_rows"@ {
        Some(Literal::Integer(100))
    } else if name == "separator"@ {
        Some(Literal::Text("/"))
    } else if name == "source_labels_json"@ {
        Some(Literal::Text(r#"["service","zone"]"#))
    } else if name == "output_labels_json"@ {
        Some(Literal::Text(r#"{"case":"late","service":"api"}"#))
    } else if name == "descending"@ || name == "variance_only"@ {
        Some(Literal::Integer(0))
    } else if name == "evaluation_ts"@ {
        Some(Literal::Integer(1_704_153_845))
    } else if name == "part"@ {
        Some(Literal::Text("minute"))
    } else if name == "aggregate"@ {
        Some(Literal::Text("avg"))
    } else if name == "start_ms"@ || name == "now_ms"@ {
        Some(Literal::Integer(1000))
    } else if name == "end_ms"@ {
        Some(Literal::Integer(2000))
    } else if name == "step_ms"@ {
        Some(Literal::Integer(1000))
    } else if name == "level"@ {
        Some(Literal::Text("error"))
    } else if name == "service"@ {
        Some(Literal::Text("api"))
    } else if name == "limit"@ {
        Some(Literal::Integer(10))
    } else if name == "needle"@ || name == "message_contains"@ {
        Some(Literal::Text("timeout"))
    } else if name == "exact_message"@ {
        Some(Literal::Text("request timeout"))
    } else {
        None
    }
}

fn collection_parameter(identifier: &str, name: &str) -> (value: Option<Literal>)
    ensures
        value == collection_parameter_value(identifier@, name@),
{
    if same_text(name, "sum_len_source_path") {
        Some(Literal::Text("$.duration_ms"))
    } else if same_text(name, "any_source_path") {
        Some(Literal::Text("$.host"))
    } else if same_text(name, "extreme_source_path") {
        Some(Literal::Text("$.duration_ms"))
    } else if same_text(name, "extreme_result_path") {
        Some(Literal::Text("$.host"))
    } else if same_text(name, "row_any_path_1") {
        Some(Literal::Text("$.nested.ok"))
    } else if same_text(name, "row_any_path_2") {
        Some(Literal::Text("$.nested.none"))
    } else if same_text(name, "row_extreme_source_path") {
        Some(Literal::Text("$.duration_ms"))
    } else if same_text(name, "row_result_path_1") {
        Some(Literal::Text("$.host"))
    } else if same_text(name, "row_result_path_2") {
        Some(Literal::Text("$.nested"))
    } else if same_text(name, "with_hits") {
        Some(Literal::Integer(1))
    } else if same_text(name, "max_result_rows") {
        Some(Literal::Integer(100))
    } else if same_text(name, "separator") {
        Some(Literal::Text("/"))
    } else if same_text(name, "source_labels_json") {
        Some(Literal::Text(r#"["service","zone"]"#))
    } else if same_text(name, "output_labels_json") {
        Some(Literal::Text(r#"{"case":"late","service":"api"}"#))
    } else if same_text(name, "descending") || same_text(name, "variance_only") {
        Some(Literal::Integer(0))
    } else if same_text(name, "evaluation_ts") {
        Some(Literal::Integer(1_704_153_845))
    } else if same_text(name, "part") {
        Some(Literal::Text("minute"))
    } else if same_text(name, "aggregate") {
        Some(Literal::Text("avg"))
    } else if same_text(name, "start_ms") || same_text(name, "now_ms") {
        Some(Literal::Integer(1000))
    } else if same_text(name, "end_ms") {
        Some(Literal::Integer(2000))
    } else if same_text(name, "step_ms") {
        Some(Literal::Integer(1000))
    } else if same_text(name, "level") {
        Some(Literal::Text("error"))
    } else if same_text(name, "service") {
        Some(Literal::Text("api"))
    } else if same_text(name, "limit") {
        Some(Literal::Integer(10))
    } else if same_text(name, "needle") || same_text(name, "message_contains") {
        Some(Literal::Text("timeout"))
    } else if same_text(name, "exact_message") {
        Some(Literal::Text("request timeout"))
    } else {
        None
    }
}

/// Parameters of filters, comparisons and ranges.
pub open spec fn range_parameter_value(identifier: Seq<char>, name: Seq<char>) -> Option<Literal> {
    if name == "message_prefix"@ {
        Some(Literal::Text("request"))
    } else if name == "message_value_1"@ {
        Some(Literal::Text("request timeout"))
    } else if name == "message_value_2"@ {
        Some(Literal::Text("request ok"))
    } else if name == "indexed_value_1"@ {
        Some(Literal::Text("web-1"))
    } else if name == "indexed_value_2"@ {
        Some(Literal::Text("web-2"))
    } else if name == "field_path"@ {
        Some(Literal::Text(if identifier == "SQL-LOG-017"@ { "$.tags" } else if identifier == "SQL-LOG-018"@ { "$.client_ip" } else { "$.deployment.region" }))
    } else if name == "left_path"@ || name == "right_path"@ {
        Some(Literal::Text("$.deployment.region"))
    } else if name == "comparison"@ {
        Some(Literal::Text("eq"))
    } else if name == "field_prefix"@ {
        Some(Literal::Text(if identifier == "SQL-LOG-022"@ { "deployment." } else { "us-" }))
    } else if name == "exact_text"@ {
        Some(Literal::Text("us-east"))
    } else if name == "field_value_1"@ {
        Some(Literal::Text("us-east"))
    } else if name == "field_value_2"@ {
        Some(Literal::Text("us-west"))
    } else if name == "array_value_1"@ {
        Some(Literal::Text("prod"))
    } else if name == "array_value_2"@ {
        Some(Literal::Text("absent"))
    } else if name == "ipv4_min"@ {
        Some(Literal::Integer(0x0a00_0000))
    } else if name == "ipv4_max"@ {
        Some(Literal::Integer(0x0a00_00ff))
    } else if name == "string_min"@ {
        Some(Literal::Text("us-"))
    } else if name == "string_max"@ {
        Some(Literal::Text("ut"))
    } else if name == "length_min"@ {
        Some(Literal::Integer(7))
    } else if name == "length_max"@ {
        Some(Literal::Integer(7))
    } else if name == "day_start_ns"@ {
        Some(Literal::Integer(0))
    } else if name == "day_end_ns"@ {
        Some(Literal::Integer(60_000_000_000))
    } else if name == "week_start_day"@ {
        Some(Literal::Integer(0))
    } else if name == "week_end_day"@ {
        Some(Literal::Integer(6))
    } else if name == "start_inclusive"@ {
        Some(Literal::Integer(1))
    } else if name == "end_inclusive"@ {
        Some(Literal::Integer(0))
    } else if name == "offset_ns"@ {
        Some(Literal::Integer(0))
    } else if name == "timestamp_scale_ns"@ {
        Some(Literal::Integer(1_000_000))
    } else if name == "units_per_day"@ {
        Some(Literal::Integer(86_400_000))
    } else if name == "empty_path"@ {
        Some(Literal::Text("$.nested.none"))
    } else if name == "any_path"@ {
        Some(Literal::Text("$.deployment.region"))
    } else if name == "duration_threshold"@ {
        Some(Literal::Integer(10))
    } else if name == "excluded_level"@ {
        Some(Literal::Text("info"))
    } else if name == "field"@ {
        Some(Literal::Text(if identifier == "SQL-LOG-013"@ { "duration_ms" } else { "host" }))
    } else if name == "max_values"@ {
        Some(Literal::Integer(100))
    } else if name == "region"@ {
        Some(Literal::Text("us-east"))
    } else if name == "group_key"@ {
        Some(Literal::Text("level"))
    } else {
        None
    }
}

fn range_parameter(identifier: &str, name: &str) -> (value: Option<Literal>)
    ensures
        value == range_parameter_value(identifier@, name@),
{
    if same_text(name, "message_prefix") {
        Some(Literal::Text("request"))
    } else if same_text(name, "message_value_1") {
        Some(Literal::Text("request timeout"))
    } else if same_text(name, "message_value_2") {
        Some(Literal::Text("request ok"))
    } else if same_text(name, "indexed_value_1") {
        Some(Literal::Text("web-1"))
    } else if same_text(name, "indexed_value_2") {
        Some(Literal::Text("web-2"))
    } else if same_text(name, "field_path") {
        Some(Literal::Text(if same_text(identifier, "SQL-LOG-017") { "$.tags" } else if same_text(identifier, "SQL-LOG-018") { "$.client_ip" } else { "$.deployment.region" }))
    } else if same_text(name, "left_path") || same_text(name, "right_path") {
        Some(Literal::Text("$.deployment.region"))
    } else if same_text(name, "comparison") {
        Some(Literal::Text("eq"))
    } else if same_text(name, "field_prefix") {
        Some(Literal::Text(if same_text(identifier, "SQL-LOG-022") { "deployment." } else { "us-" }))
    } else if same_text(name, "exact_text") {
        Some(Literal::Text("us-east"))
    } else if same_text(name, "field_value_1") {
        Some(Literal::Text("us-east"))
    } else if same_text(name, "field_value_2") {
        Some(Literal::Text("us-west"))
    } else if same_text(name, "array_value_1") {
        Some(Literal::Text("prod"))
    } else if same_text(name, "array_value_2") {
        Some(Literal::Text("absent"))
    } else if same_text(name, "ipv4_min") {
        Some(Literal::Integer(0x0a00_0000))
    } else if same_text(name, "ipv4_max") {
        Some(Literal::Integer(0x0a00_00ff))
    } else if same_text(name, "string_min") {
        Some(Literal::Text("us-"))
    } else if same_text(name, "string_max") {
        Some(Literal::Text("ut"))
    } else if same_text(name, "length_min") {
        Some(Literal::Integer(7))
    } else if same_text(name, "length_max") {
        Some(Literal::Integer(7))
    } else if same_text(name, "day_start_ns") {
        Some(Literal::Integer(0))
    } else if same_text(name, "day_end_ns") {
        Some(Literal::Integer(60_000_000_000))
    } else if same_text(name, "week_start_day") {
        Some(Literal::Integer(0))
    } else if same_text(name, "week_end_day") {
        Some(Literal::Integer(6))
    } else if same_text(name, "start_inclusive") {
        Some(Literal::Integer(1))
    } else if same_text(name, "end_inclusive") {
        Some(Literal::Integer(0))
    } else if same_text(name, "offset_ns") {
        Some(Literal::Integer(0))
    } else if same_text(name, "timestamp_scale_ns") {
        Some(Literal::Integer(1_000_000))
    } else if same_text(name, "units_per_day") {
        Some(Literal::Integer(86_400_000))
    } else if same_text(name, "empty_path") {
        Some(Literal::Text("$.nested.none"))
    } else if same_text(name, "any_path") {
        Some(Literal::Text("$.deployment.region"))
    } else if same_text(name, "duration_threshold") {
        Some(Literal::Integer(10))
    } else if same_text(name, "excluded_level") {
        Some(Literal::Text("info"))
    } else if same_text(name, "field") {
        Some(Literal::Text(if same_text(identifier, "SQL-LOG-013") { "duration_ms" } else { "host" }))
    } else if same_text(name, "max_values") {
        Some(Literal::Integer(100))
    } else if same_text(name, "region") {
        Some(Literal::Text("us-east"))
    } else if same_text(name, "group_key") {
        Some(Literal::Text("level"))
    } else {
        None
    }
}

/// The value of a named parameter of a recipe; an unknown name is null.
pub open spec fn parameter_value(identifier: Seq<char>, name: Seq<char>) -> Literal {
    if query_parameter_value(identifier, name) is Some {
        query_parameter_value(identifier, name).unwrap()
    } else if rewriting_parameter_value(identifier, name) is Some {
        rewriting_parameter_value(identifier, name).unwrap()
    } else if field_parameter_value(identifier, name) is Some {
        field_parameter_value(identifier, name).unwrap()
    } else if collection_parameter_value(identifier, name) is Some {
        collection_parameter_value(identifier, name).unwrap()
    } else if range_parameter_value(identifier, name) is Some {
        range_parameter_value(identifier, name).unwrap()
    } else {
        Literal::Null
    }
}

/// The value that a parameter of a recipe is bound to.
pub fn parameter(identifier: &str, name: &str) -> (value: Literal)
    ensures
        value == parameter_value(identifier@, name@),
{
    if let Some(value) = query_parameter(identifier, name) {
        return value;
    }
    if let Some(value) = rewriting_parameter(identifier, name) {
        return value;
    }
    if let Some(value) = field_parameter(identifier, name) {
        return value;
    }
    if let Some(value) = collection_parameter(identifier, name) {
        return value;
    }
    if let Some(value) = range_parameter(identifier, name) {
        return value;
    }
    Literal::Null
}

/// The characters that may introduce a parameter name in SQL.
pub open spec fn is_marker(c: char) -> bool {
    c == ':' || c == '$' || c == '@'
}

/// The name without the markers at its start.
pub open spec fn bare_name(name: Seq<char>) -> Seq<char>
    decreases name.len(),
{
    if name.len() > 0 && is_marker(name[0]) {
        bare_name(name.drop_first())
    } else {
        name
    }
}

/// Strips the markers from the start of a parameter name.
pub fn strip_markers(name: &str) -> (bare: String)
    ensures
        bare@ == bare_name(name@),
{
    let chars = chars_of(name);
    let mut i: usize = 0;
    assert(chars@.subrange(0, chars@.len() as int) =~= name@);
    while i < chars.len() && (chars[i] == ':' || chars[i] == '$' || chars[i] == '@')
        invariant
            i <= chars@.len(),
            bare_name(name@) == bare_name(chars@.subrange(i as int, chars@.len() as int)),
        decreases chars.len() - i,
    {
        assert(chars@.subrange(i as int, chars@.len() as int).drop_first() =~= chars@.subrange(
            i + 1,
            chars@.len() as int,
        ));
        i += 1;
    }
    slice_text(&chars, i, chars.len())
}

/// The name without the colons at its start.
pub open spec fn without_colons(name: Seq<char>) -> Seq<char>
    decreases name.len(),
{
    if name.len() > 0 && name[0] == ':' {
        without_colons(name.drop_first())
    } else {
        name
    }
}

/// Strips the colons from the start of a parameter name.
pub fn strip_colons(name: &str) -> (bare: String)
    ensures
        bare@ == without_colons(name@),
{
    let chars = chars_of(name);
    let mut i: usize = 0;
    assert(chars@.subrange(0, chars@.len() as int) =~= name@);
    while i < chars.len() && chars[i] == ':'
        invariant
            i <= chars@.len(),
            without_colons(name@) == without_colons(
                chars@.subrange(i as int, chars@.len() as int),
            ),
        decreases chars.len() - i,
    {
        assert(chars@.subrange(i as int, chars@.len() as int).drop_first() =~= chars@.subrange(
            i + 1,
            chars@.len() as int,
        ));
        i += 1;
    }
    slice_text(&chars, i, chars.len())
}

} // verus!
