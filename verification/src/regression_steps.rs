//! The steps of the semantic regressions, in the order in which they run.
use crate::ieee::{F_0, F_0_5, F_1};
use crate::regression_tables::Table;
use crate::regressions::{bound_rows, documents, rows, Bind, Documents, Judge, Rule, Source, Step};
use crate::values::Literal;
use vstd::prelude::*;

verus! {

/// The checks of the metric recipes.
pub open spec fn metric_step_at(i: int) -> Option<Step> {
    if i == 0 {
        Some(rows(
            "SQL-PROM-001 row count",
            Source::Sql("SELECT COUNT(*) FROM timeless_grid('metrics','cpu',NULL,110,110,1,20)"),
            "i",
            Judge::FirstRow(Table::InstantCount),
        ))
    } else if i == 1 {
        Some(rows(
            "SQL-PROM-002 lost compensated average precision",
            Source::Sql("SELECT value FROM timeless_window('metrics','avg_precision',NULL,30,30,1,30,'avg')"),
            "f",
            Judge::FirstBits(Table::AveragePrecision),
        ))
    } else if i == 2 {
        Some(rows(
            "SQL-PROM-002 overflow-safe average changed",
            Source::Sql("SELECT value FROM timeless_window('metrics','avg_overflow',NULL,30,30,1,20,'avg')"),
            "f",
            Judge::FirstBits(Table::AverageOverflow),
        ))
    } else if i == 3 {
        Some(rows(
            "SQL-PROM-021/022 extrema changed",
            Source::Sql("SELECT value FROM timeless_window('metrics','min_window',NULL,30,30,1,20,'min')"),
            "f",
            Judge::FirstRow(Table::WindowMinimum),
        ))
    } else if i == 4 {
        Some(rows(
            "SQL-PROM-021/022 extrema changed",
            Source::Sql("SELECT value FROM timeless_window('metrics','max_window',NULL,30,30,1,20,'max')"),
            "f",
            Judge::FirstRow(Table::WindowMaximum),
        ))
    } else if i == 5 {
        Some(rows(
            "SQL extrema signed-zero contract changed",
            Source::Sql("SELECT value FROM timeless_window('metrics','min_zero',NULL,30,30,1,20,'min')"),
            "f",
            Judge::FirstBits(Table::MinimumZero),
        ))
    } else if i == 6 {
        Some(rows(
            "SQL extrema signed-zero contract changed",
            Source::Sql("SELECT value FROM timeless_window('metrics','max_zero',NULL,30,30,1,20,'max')"),
            "f",
            Judge::FirstBits(Table::MaximumZero),
        ))
    } else if i == 7 {
        Some(rows(
            "SQL-PROM-003 cross-series sum changed",
            Source::Sql("WITH selected AS ( SELECT ts,value FROM timeless_grid('metrics','cpu',NULL,100,110,10,20) ) SELECT ts,SUM(value) FROM selected GROUP BY ts ORDER BY ts"),
            "if",
            Judge::Table(Table::CrossSum),
        ))
    } else if i == 8 {
        Some(rows(
            "SQL-PROM-004 vector arithmetic changed",
            Source::Sql("WITH errors AS ( SELECT json_extract(labels,'$.host') host,value FROM timeless_grid('metrics','errors_total',NULL,100,100,1,20) ), requests AS ( SELECT json_extract(labels,'$.host') host,value FROM timeless_grid('metrics','requests_total',NULL,100,100,1,20) ) SELECT errors.value/requests.value FROM errors JOIN requests USING(host)"),
            "f",
            Judge::FirstBits(Table::Ratio),
        ))
    } else if i == 9 {
        Some(rows(
            "SQL-PROM-054 histogram result changed",
            Source::Block("SQL-PROM-054", 0),
            "sif",
            Judge::FirstRow(Table::Histogram),
        ))
    } else if i == 10 {
        Some(Step::Blocks("SQL-PROM-055", 2, "SQL-PROM-055 must retain scalar/vector and vector/vector statements"))
    } else if i == 11 {
        Some(rows(
            "SQL-PROM-055 statement 1 changed",
            Source::Block("SQL-PROM-055", 0),
            "..f",
            Judge::Finite(4),
        ))
    } else if i == 12 {
        Some(rows(
            "SQL-PROM-055 statement 2 changed",
            Source::Block("SQL-PROM-055", 1),
            "..f",
            Judge::Finite(4),
        ))
    } else if i == 13 {
        Some(rows(
            "SQL-PROM-056 histogram fraction changed",
            Source::Block("SQL-PROM-056", 0),
            "sif",
            Judge::Table(Table::HistogramFraction),
        ))
    } else if i == 14 {
        Some(Step::Blocks("SQL-MQL-001", 3, "SQL-MQL-001 must retain default, if, and ifnot statements"))
    } else if i == 15 {
        Some(rows(
            "SQL-MQL-001 statement 1 changed",
            Source::Block("SQL-MQL-001", 0),
            "sif",
            Judge::Table(Table::MqlDefault),
        ))
    } else if i == 16 {
        Some(rows(
            "SQL-MQL-001 statement 2 changed",
            Source::Block("SQL-MQL-001", 1),
            "sif",
            Judge::Table(Table::MqlIf),
        ))
    } else if i == 17 {
        Some(rows(
            "SQL-MQL-001 statement 3 changed",
            Source::Block("SQL-MQL-001", 2),
            "sif",
            Judge::Table(Table::MqlIfNot),
        ))
    } else if i == 18 {
        Some(rows(
            "SQL-MQL-002 keep_metric_names changed",
            Source::Block("SQL-MQL-002", 0),
            "ssif",
            Judge::Table(Table::Cpu),
        ))
    } else if i == 19 {
        Some(Step::Blocks("SQL-MQL-003", 3, "SQL-MQL-003 must retain union, alias, and collision statements"))
    } else if i == 20 {
        Some(rows(
            "SQL-MQL-003 statement 1 changed",
            Source::Block("SQL-MQL-003", 0),
            "ssif",
            Judge::Table(Table::MqlUnion),
        ))
    } else if i == 21 {
        Some(rows(
            "SQL-MQL-003 statement 2 changed",
            Source::Block("SQL-MQL-003", 1),
            "ssif",
            Judge::Table(Table::MqlAlias),
        ))
    } else if i == 22 {
        Some(rows(
            "SQL-MQL-003 statement 3 changed",
            Source::Block("SQL-MQL-003", 2),
            "ssif",
            Judge::Table(Table::MqlCollision),
        ))
    } else {
        None
    }
}

fn metric_step(i: usize) -> (step: Option<Step>)
    ensures
        step == metric_step_at(i as int),
{
    if i == 0 {
        Some(rows(
            "SQL-PROM-001 row count",
            Source::Sql("SELECT COUNT(*) FROM timeless_grid('metrics','cpu',NULL,110,110,1,20)"),
            "i",
            Judge::FirstRow(Table::InstantCount),
        ))
    } else if i == 1 {
        Some(rows(
            "SQL-PROM-002 lost compensated average precision",
            Source::Sql("SELECT value FROM timeless_window('metrics','avg_precision',NULL,30,30,1,30,'avg')"),
            "f",
            Judge::FirstBits(Table::AveragePrecision),
        ))
    } else if i == 2 {
        Some(rows(
            "SQL-PROM-002 overflow-safe average changed",
            Source::Sql("SELECT value FROM timeless_window('metrics','avg_overflow',NULL,30,30,1,20,'avg')"),
            "f",
            Judge::FirstBits(Table::AverageOverflow),
        ))
    } else if i == 3 {
        Some(rows(
            "SQL-PROM-021/022 extrema changed",
            Source::Sql("SELECT value FROM timeless_window('metrics','min_window',NULL,30,30,1,20,'min')"),
            "f",
            Judge::FirstRow(Table::WindowMinimum),
        ))
    } else if i == 4 {
        Some(rows(
            "SQL-PROM-021/022 extrema changed",
            Source::Sql("SELECT value FROM timeless_window('metrics','max_window',NULL,30,30,1,20,'max')"),
            "f",
            Judge::FirstRow(Table::WindowMaximum),
        ))
    } else if i == 5 {
        Some(rows(
            "SQL extrema signed-zero contract changed",
            Source::Sql("SELECT value FROM timeless_window('metrics','min_zero',NULL,30,30,1,20,'min')"),
            "f",
            Judge::FirstBits(Table::MinimumZero),
        ))
    } else if i == 6 {
        Some(rows(
            "SQL extrema signed-zero contract changed",
            Source::Sql("SELECT value FROM timeless_window('metrics','max_zero',NULL,30,30,1,20,'max')"),
            "f",
            Judge::FirstBits(Table::MaximumZero),
        ))
    } else if i == 7 {
        Some(rows(
            "SQL-PROM-003 cross-series sum changed",
            Source::Sql("WITH selected AS ( SELECT ts,value FROM timeless_grid('metrics','cpu',NULL,100,110,10,20) ) SELECT ts,SUM(value) FROM selected GROUP BY ts ORDER BY ts"),
            "if",
            Judge::Table(Table::CrossSum),
        ))
    } else if i == 8 {
        Some(rows(
            "SQL-PROM-004 vector arithmetic changed",
            Source::Sql("WITH errors AS ( SELECT json_extract(labels,'$.host') host,value FROM timeless_grid('metrics','errors_total',NULL,100,100,1,20) ), requests AS ( SELECT json_extract(labels,'$.host') host,value FROM timeless_grid('metrics','requests_total',NULL,100,100,1,20) ) SELECT errors.value/requests.value FROM errors JOIN requests USING(host)"),
            "f",
            Judge::FirstBits(Table::Ratio),
        ))
    } else if i == 9 {
        Some(rows(
            "SQL-PROM-054 histogram result changed",
            Source::Block("SQL-PROM-054", 0),
            "sif",
            Judge::FirstRow(Table::Histogram),
        ))
    } else if i == 10 {
        Some(Step::Blocks("SQL-PROM-055", 2, "SQL-PROM-055 must retain scalar/vector and vector/vector statements"))
    } else if i == 11 {
        Some(rows(
            "SQL-PROM-055 statement 1 changed",
            Source::Block("SQL-PROM-055", 0),
            "..f",
            Judge::Finite(4),
        ))
    } else if i == 12 {
        Some(rows(
            "SQL-PROM-055 statement 2 changed",
            Source::Block("SQL-PROM-055", 1),
            "..f",
            Judge::Finite(4),
        ))
    } else if i == 13 {
        Some(rows(
            "SQL-PROM-056 histogram fraction changed",
            Source::Block("SQL-PROM-056", 0),
            "sif",
            Judge::Table(Table::HistogramFraction),
        ))
    } else if i == 14 {
        Some(Step::Blocks("SQL-MQL-001", 3, "SQL-MQL-001 must retain default, if, and ifnot statements"))
    } else if i == 15 {
        Some(rows(
            "SQL-MQL-001 statement 1 changed",
            Source::Block("SQL-MQL-001", 0),
            "sif",
            Judge::Table(Table::MqlDefault),
        ))
    } else if i == 16 {
        Some(rows(
            "SQL-MQL-001 statement 2 changed",
            Source::Block("SQL-MQL-001", 1),
            "sif",
            Judge::Table(Table::MqlIf),
        ))
    } else if i == 17 {
        Some(rows(
            "SQL-MQL-001 statement 3 changed",
            Source::Block("SQL-MQL-001", 2),
            "sif",
            Judge::Table(Table::MqlIfNot),
        ))
    } else if i == 18 {
        Some(rows(
            "SQL-MQL-002 keep_metric_names changed",
            Source::Block("SQL-MQL-002", 0),
            "ssif",
            Judge::Table(Table::Cpu),
        ))
    } else if i == 19 {
        Some(Step::Blocks("SQL-MQL-003", 3, "SQL-MQL-003 must retain union, alias, and collision statements"))
    } else if i == 20 {
        Some(rows(
            "SQL-MQL-003 statement 1 changed",
            Source::Block("SQL-MQL-003", 0),
            "ssif",
            Judge::Table(Table::MqlUnion),
        ))
    } else if i == 21 {
        Some(rows(
            "SQL-MQL-003 statement 2 changed",
            Source::Block("SQL-MQL-003", 1),
            "ssif",
            Judge::Table(Table::MqlAlias),
        ))
    } else if i == 22 {
        Some(rows(
            "SQL-MQL-003 statement 3 changed",
            Source::Block("SQL-MQL-003", 2),
            "ssif",
            Judge::Table(Table::MqlCollision),
        ))
    } else {
        None
    }
}

/// The checks of labels, ranges and request context.
pub open spec fn metricsql_step_at(i: int) -> Option<Step> {
    if i == 0 {
        Some(Step::Blocks("SQL-MQL-004", 2, "SQL-MQL-004 must retain label_set and label_del statements"))
    } else if i == 1 {
        Some(rows(
            "SQL-MQL-004 statement 1 changed",
            Source::Block("SQL-MQL-004", 0),
            "osif",
            Judge::Table(Table::MqlLabelSet),
        ))
    } else if i == 2 {
        Some(rows(
            "SQL-MQL-004 statement 2 changed",
            Source::Block("SQL-MQL-004", 1),
            "osif",
            Judge::Table(Table::MqlLabelDelete),
        ))
    } else if i == 3 {
        Some(bound_rows(
            "SQL-MQL-004 statement 1 did not delete __name__",
            Source::Block("SQL-MQL-004", 0),
            Bind::Two(("label_name", Literal::Text("__name__")), ("label_value", Literal::Text(""))),
            "o",
            Judge::FirstNull,
        ))
    } else if i == 4 {
        Some(bound_rows(
            "SQL-MQL-004 statement 2 did not delete __name__",
            Source::Block("SQL-MQL-004", 1),
            Bind::Two(("delete_label", Literal::Text("__name__")), ("label_value", Literal::Text(""))),
            "o",
            Judge::FirstNull,
        ))
    } else if i == 5 {
        Some(Step::Blocks("SQL-MQL-005", 2, "SQL-MQL-005 must retain default and window statements"))
    } else if i == 6 {
        Some(rows(
            "SQL-MQL-005 statement 1 changed",
            Source::Block("SQL-MQL-005", 0),
            "ssif",
            Judge::Table(Table::Cpu),
        ))
    } else if i == 7 {
        Some(rows(
            "SQL-MQL-005 statement 2 changed",
            Source::Block("SQL-MQL-005", 1),
            "ssif",
            Judge::Table(Table::MqlWindow),
        ))
    } else if i == 8 {
        Some(Step::Blocks("SQL-MQL-006", 1, "SQL-MQL-006 must retain one parameterized range statement"))
    } else if i == 9 {
        Some(bound_rows(
            "SQL-MQL-006 avg changed",
            Source::Block("SQL-MQL-006", 0),
            Bind::One(("aggregate", Literal::Text("avg"))),
            "osif",
            Judge::Table(Table::RangeAvg),
        ))
    } else if i == 10 {
        Some(bound_rows(
            "SQL-MQL-006 min changed",
            Source::Block("SQL-MQL-006", 0),
            Bind::One(("aggregate", Literal::Text("min"))),
            "osif",
            Judge::Table(Table::RangeMin),
        ))
    } else if i == 11 {
        Some(bound_rows(
            "SQL-MQL-006 max changed",
            Source::Block("SQL-MQL-006", 0),
            Bind::One(("aggregate", Literal::Text("max"))),
            "osif",
            Judge::Table(Table::RangeMax),
        ))
    } else if i == 12 {
        Some(bound_rows(
            "SQL-MQL-006 sum changed",
            Source::Block("SQL-MQL-006", 0),
            Bind::One(("aggregate", Literal::Text("sum"))),
            "osif",
            Judge::Table(Table::RangeSum),
        ))
    } else if i == 13 {
        Some(bound_rows(
            "SQL-MQL-006 slot-indexed average changed",
            Source::Block("SQL-MQL-006", 0),
            Bind::Six(("aggregate", Literal::Text("avg")), ("metric", Literal::Text("avg_precision")), ("start", Literal::Integer(10)), ("end", Literal::Integer(30)), ("step", Literal::Integer(10)), ("lookback", Literal::Integer(30))),
            "...f",
            Judge::Bits(Table::RangePrecision),
        ))
    } else if i == 14 {
        Some(Step::Blocks("SQL-MQL-007", 1, "SQL-MQL-007 must retain one parameterized running statement"))
    } else if i == 15 {
        Some(bound_rows(
            "SQL-MQL-007 avg changed",
            Source::Block("SQL-MQL-007", 0),
            Bind::One(("aggregate", Literal::Text("avg"))),
            "osif",
            Judge::Table(Table::RunningAvg),
        ))
    } else if i == 16 {
        Some(bound_rows(
            "SQL-MQL-007 min changed",
            Source::Block("SQL-MQL-007", 0),
            Bind::One(("aggregate", Literal::Text("min"))),
            "osif",
            Judge::Table(Table::RunningMin),
        ))
    } else if i == 17 {
        Some(bound_rows(
            "SQL-MQL-007 max changed",
            Source::Block("SQL-MQL-007", 0),
            Bind::One(("aggregate", Literal::Text("max"))),
            "osif",
            Judge::Table(Table::RunningMax),
        ))
    } else if i == 18 {
        Some(bound_rows(
            "SQL-MQL-007 sum changed",
            Source::Block("SQL-MQL-007", 0),
            Bind::One(("aggregate", Literal::Text("sum"))),
            "osif",
            Judge::Table(Table::RunningSum),
        ))
    } else if i == 19 {
        Some(bound_rows(
            "SQL-MQL-007 slot-indexed average changed",
            Source::Block("SQL-MQL-007", 0),
            Bind::Six(("aggregate", Literal::Text("avg")), ("metric", Literal::Text("avg_precision")), ("start", Literal::Integer(10)), ("end", Literal::Integer(30)), ("step", Literal::Integer(10)), ("lookback", Literal::Integer(30))),
            "...f",
            Judge::Bits(Table::RunningPrecision),
        ))
    } else if i == 20 {
        Some(Step::Blocks("SQL-MQL-009", 2, "SQL-MQL-009 must retain window and offset statements"))
    } else if i == 21 {
        Some(rows(
            "SQL-MQL-009 statement 1 changed",
            Source::Block("SQL-MQL-009", 0),
            "osif",
            Judge::Table(Table::RelativeWindow),
        ))
    } else if i == 22 {
        Some(rows(
            "SQL-MQL-009 statement 2 changed",
            Source::Block("SQL-MQL-009", 1),
            "osif",
            Judge::Table(Table::RelativeOffset),
        ))
    } else if i == 23 {
        Some(Step::Blocks("SQL-MQL-010", 1, "SQL-MQL-010 must retain one parameterized context statement"))
    } else if i == 24 {
        Some(bound_rows(
            "SQL-MQL-010 request context changed",
            Source::Block("SQL-MQL-010", 0),
            Bind::Three(("start_ms", Literal::Integer(-500 as i64)), ("end_ms", Literal::Integer(2500)), ("step_ms", Literal::Integer(1500))),
            "ifff",
            Judge::Table(Table::RequestContext),
        ))
    } else if i == 25 {
        Some(Step::Blocks("SQL-MQL-012", 1, "SQL-MQL-012 must retain one parameterized histogram statement"))
    } else if i == 26 {
        Some(rows(
            "SQL-MQL-012 histogram quantiles changed",
            Source::Block("SQL-MQL-012", 0),
            "sif",
            Judge::Table(Table::HistogramQuantiles),
        ))
    } else {
        None
    }
}

fn metricsql_step(i: usize) -> (step: Option<Step>)
    ensures
        step == metricsql_step_at(i as int),
{
    if i == 0 {
        Some(Step::Blocks("SQL-MQL-004", 2, "SQL-MQL-004 must retain label_set and label_del statements"))
    } else if i == 1 {
        Some(rows(
            "SQL-MQL-004 statement 1 changed",
            Source::Block("SQL-MQL-004", 0),
            "osif",
            Judge::Table(Table::MqlLabelSet),
        ))
    } else if i == 2 {
        Some(rows(
            "SQL-MQL-004 statement 2 changed",
            Source::Block("SQL-MQL-004", 1),
            "osif",
            Judge::Table(Table::MqlLabelDelete),
        ))
    } else if i == 3 {
        Some(bound_rows(
            "SQL-MQL-004 statement 1 did not delete __name__",
            Source::Block("SQL-MQL-004", 0),
            Bind::Two(("label_name", Literal::Text("__name__")), ("label_value", Literal::Text(""))),
            "o",
            Judge::FirstNull,
        ))
    } else if i == 4 {
        Some(bound_rows(
            "SQL-MQL-004 statement 2 did not delete __name__",
            Source::Block("SQL-MQL-004", 1),
            Bind::Two(("delete_label", Literal::Text("__name__")), ("label_value", Literal::Text(""))),
            "o",
            Judge::FirstNull,
        ))
    } else if i == 5 {
        Some(Step::Blocks("SQL-MQL-005", 2, "SQL-MQL-005 must retain default and window statements"))
    } else if i == 6 {
        Some(rows(
            "SQL-MQL-005 statement 1 changed",
            Source::Block("SQL-MQL-005", 0),
            "ssif",
            Judge::Table(Table::Cpu),
        ))
    } else if i == 7 {
        Some(rows(
            "SQL-MQL-005 statement 2 changed",
            Source::Block("SQL-MQL-005", 1),
            "ssif",
            Judge::Table(Table::MqlWindow),
        ))
    } else if i == 8 {
        Some(Step::Blocks("SQL-MQL-006", 1, "SQL-MQL-006 must retain one parameterized range statement"))
    } else if i == 9 {
        Some(bound_rows(
            "SQL-MQL-006 avg changed",
            Source::Block("SQL-MQL-006", 0),
            Bind::One(("aggregate", Literal::Text("avg"))),
            "osif",
            Judge::Table(Table::RangeAvg),
        ))
    } else if i == 10 {
        Some(bound_rows(
            "SQL-MQL-006 min changed",
            Source::Block("SQL-MQL-006", 0),
            Bind::One(("aggregate", Literal::Text("min"))),
            "osif",
            Judge::Table(Table::RangeMin),
        ))
    } else if i == 11 {
        Some(bound_rows(
            "SQL-MQL-006 max changed",
            Source::Block("SQL-MQL-006", 0),
            Bind::One(("aggregate", Literal::Text("max"))),
            "osif",
            Judge::Table(Table::RangeMax),
        ))
    } else if i == 12 {
        Some(bound_rows(
            "SQL-MQL-006 sum changed",
            Source::Block("SQL-MQL-006", 0),
            Bind::One(("aggregate", Literal::Text("sum"))),
            "osif",
            Judge::Table(Table::RangeSum),
        ))
    } else if i == 13 {
        Some(bound_rows(
            "SQL-MQL-006 slot-indexed average changed",
            Source::Block("SQL-MQL-006", 0),
            Bind::Six(("aggregate", Literal::Text("avg")), ("metric", Literal::Text("avg_precision")), ("start", Literal::Integer(10)), ("end", Literal::Integer(30)), ("step", Literal::Integer(10)), ("lookback", Literal::Integer(30))),
            "...f",
            Judge::Bits(Table::RangePrecision),
        ))
    } else if i == 14 {
        Some(Step::Blocks("SQL-MQL-007", 1, "SQL-MQL-007 must retain one parameterized running statement"))
    } else if i == 15 {
        Some(bound_rows(
            "SQL-MQL-007 avg changed",
            Source::Block("SQL-MQL-007", 0),
            Bind::One(("aggregate", Literal::Text("avg"))),
            "osif",
            Judge::Table(Table::RunningAvg),
        ))
    } else if i == 16 {
        Some(bound_rows(
            "SQL-MQL-007 min changed",
            Source::Block("SQL-MQL-007", 0),
            Bind::One(("aggregate", Literal::Text("min"))),
            "osif",
            Judge::Table(Table::RunningMin),
        ))
    } else if i == 17 {
        Some(bound_rows(
            "SQL-MQL-007 max changed",
            Source::Block("SQL-MQL-007", 0),
            Bind::One(("aggregate", Literal::Text("max"))),
            "osif",
            Judge::Table(Table::RunningMax),
        ))
    } else if i == 18 {
        Some(bound_rows(
            "SQL-MQL-007 sum changed",
            Source::Block("SQL-MQL-007", 0),
            Bind::One(("aggregate", Literal::Text("sum"))),
            "osif",
            Judge::Table(Table::RunningSum),
        ))
    } else if i == 19 {
        Some(bound_rows(
            "SQL-MQL-007 slot-indexed average changed",
            Source::Block("SQL-MQL-007", 0),
            Bind::Six(("aggregate", Literal::Text("avg")), ("metric", Literal::Text("avg_precision")), ("start", Literal::Integer(10)), ("end", Literal::Integer(30)), ("step", Literal::Integer(10)), ("lookback", Literal::Integer(30))),
            "...f",
            Judge::Bits(Table::RunningPrecision),
        ))
    } else if i == 20 {
        Some(Step::Blocks("SQL-MQL-009", 2, "SQL-MQL-009 must retain window and offset statements"))
    } else if i == 21 {
        Some(rows(
            "SQL-MQL-009 statement 1 changed",
            Source::Block("SQL-MQL-009", 0),
            "osif",
            Judge::Table(Table::RelativeWindow),
        ))
    } else if i == 22 {
        Some(rows(
            "SQL-MQL-009 statement 2 changed",
            Source::Block("SQL-MQL-009", 1),
            "osif",
            Judge::Table(Table::RelativeOffset),
        ))
    } else if i == 23 {
        Some(Step::Blocks("SQL-MQL-010", 1, "SQL-MQL-010 must retain one parameterized context statement"))
    } else if i == 24 {
        Some(bound_rows(
            "SQL-MQL-010 request context changed",
            Source::Block("SQL-MQL-010", 0),
            Bind::Three(("start_ms", Literal::Integer(-500 as i64)), ("end_ms", Literal::Integer(2500)), ("step_ms", Literal::Integer(1500))),
            "ifff",
            Judge::Table(Table::RequestContext),
        ))
    } else if i == 25 {
        Some(Step::Blocks("SQL-MQL-012", 1, "SQL-MQL-012 must retain one parameterized histogram statement"))
    } else if i == 26 {
        Some(rows(
            "SQL-MQL-012 histogram quantiles changed",
            Source::Block("SQL-MQL-012", 0),
            "sif",
            Judge::Table(Table::HistogramQuantiles),
        ))
    } else {
        None
    }
}

/// The row counts of the log recipes.
pub open spec fn log_count_step_at(i: int) -> Option<Step> {
    if i == 0 {
        Some(rows(
            "SQL-LOG recipe results changed",
            Source::Sql("SELECT COUNT(*) FROM logs WHERE ts>=1000 AND ts<=2000 AND level='error' AND service='api' AND max_work_entries=100000"),
            "i",
            Judge::FirstRow(Table::One),
        ))
    } else if i == 1 {
        Some(rows(
            "SQL-LOG recipe results changed",
            Source::Sql("SELECT COUNT(*) FROM logs WHERE message_contains='TIMEOUT'"),
            "i",
            Judge::FirstRow(Table::One),
        ))
    } else if i == 2 {
        Some(rows(
            "SQL-LOG recipe results changed",
            Source::Sql(r#"SELECT n FROM timeless_log_count( 'logs','{"level":"error","service":"api"}',NULL,1000,2000,100000)"#),
            "i",
            Judge::FirstRow(Table::One),
        ))
    } else if i == 3 {
        Some(rows(
            "SQL-LOG recipe results changed",
            Source::Sql("SELECT COUNT(*) FROM timeless_log_values( 'logs','host',NULL,NULL,1000,2000,100,100000)"),
            "i",
            Judge::FirstRow(Table::Two),
        ))
    } else if i == 4 {
        Some(rows(
            "SQL-LOG recipe results changed",
            Source::Sql("SELECT n FROM timeless_log_count('logs')"),
            "i",
            Judge::FirstRow(Table::Two),
        ))
    } else if i == 5 {
        Some(rows(
            "SQL-LOG recipe results changed",
            Source::Sql("SELECT COUNT(*) FROM timeless_log_values( 'logs','host',NULL,NULL,1000,2000,100)"),
            "i",
            Judge::FirstRow(Table::Two),
        ))
    } else if i == 6 {
        Some(rows(
            "SQL-LOG recipe results changed",
            Source::Sql("SELECT COUNT(*) FROM logs WHERE json_type(metadata,'$.deployment.region')='text' AND json_extract(metadata,'$.deployment.region')='us-east'"),
            "i",
            Judge::FirstRow(Table::One),
        ))
    } else if i == 7 {
        Some(rows(
            "SQL-LOG recipe results changed",
            Source::Sql("SELECT COUNT(*) FROM logs WHERE json_type(metadata,'$.nested.ok')='true' AND json_extract(metadata,'$.nested.ok')=1 AND json_type(metadata,'$.nested.count')='integer' AND json_extract(metadata,'$.nested.count')=2 AND json_type(metadata,'$.nested.none')='null' AND json_type(metadata,'$.nested.empty')='text' AND json_extract(metadata,'$.nested.empty')=''"),
            "i",
            Judge::FirstRow(Table::One),
        ))
    } else if i == 8 {
        Some(rows(
            "SQL-LOG recipe results changed",
            Source::Sql("SELECT COUNT(*) FROM logs WHERE json_type(metadata,'$.nested.none') IS NULL"),
            "i",
            Judge::FirstRow(Table::One),
        ))
    } else if i == 9 {
        Some(rows(
            "SQL-LOG recipe results changed",
            Source::Sql("SELECT SUM(n) FROM timeless_log_buckets('logs','level',NULL,1000,2000,1000)"),
            "i",
            Judge::FirstRow(Table::Two),
        ))
    } else if i == 10 {
        Some(rows(
            "Session 12 SQL-LOG recipe results changed",
            Source::Statement("SQL-LOG-007", 0),
            "",
            Judge::Count(1),
        ))
    } else if i == 11 {
        Some(rows(
            "Session 12 SQL-LOG recipe results changed",
            Source::Statement("SQL-LOG-008", 0),
            "",
            Judge::Count(1),
        ))
    } else if i == 12 {
        Some(rows(
            "Session 12 SQL-LOG recipe results changed",
            Source::Statement("SQL-LOG-008", 1),
            "",
            Judge::Count(2),
        ))
    } else if i == 13 {
        Some(rows(
            "Session 12 SQL-LOG recipe results changed",
            Source::Statement("SQL-LOG-008", 2),
            "",
            Judge::Count(2),
        ))
    } else if i == 14 {
        Some(rows(
            "Session 12 SQL-LOG recipe results changed",
            Source::Statement("SQL-LOG-009", 0),
            "",
            Judge::Count(1),
        ))
    } else if i == 15 {
        Some(rows(
            "Session 13 SQL-LOG recipe results changed",
            Source::Statement("SQL-LOG-010", 0),
            "",
            Judge::Count(10),
        ))
    } else if i == 16 {
        Some(rows(
            "Session 13 SQL-LOG recipe results changed",
            Source::Statement("SQL-LOG-010", 1),
            "",
            Judge::Count(2),
        ))
    } else if i == 17 {
        Some(rows(
            "Session 13 SQL-LOG recipe results changed",
            Source::Statement("SQL-LOG-011", 0),
            "",
            Judge::Count(2),
        ))
    } else if i == 18 {
        Some(rows(
            "Session 13 SQL-LOG recipe results changed",
            Source::Statement("SQL-LOG-011", 1),
            "",
            Judge::Count(1),
        ))
    } else if i == 19 {
        Some(rows(
            "Session 13 SQL-LOG recipe results changed",
            Source::Statement("SQL-LOG-012", 0),
            "",
            Judge::Count(1),
        ))
    } else if i == 20 {
        Some(rows(
            "Session 13 SQL-LOG recipe results changed",
            Source::Statement("SQL-LOG-012", 1),
            "",
            Judge::Count(2),
        ))
    } else if i == 21 {
        Some(rows(
            "Session 13 SQL-LOG recipe results changed",
            Source::Statement("SQL-LOG-012", 2),
            "",
            Judge::Count(2),
        ))
    } else if i == 22 {
        Some(rows(
            "Session 13 SQL-LOG recipe results changed",
            Source::Statement("SQL-LOG-013", 0),
            "",
            Judge::Count(1),
        ))
    } else if i == 23 {
        Some(rows(
            "Session 13 SQL-LOG recipe results changed",
            Source::Statement("SQL-LOG-013", 1),
            "",
            Judge::Count(1),
        ))
    } else {
        None
    }
}

fn log_count_step(i: usize) -> (step: Option<Step>)
    ensures
        step == log_count_step_at(i as int),
{
    if i == 0 {
        Some(rows(
            "SQL-LOG recipe results changed",
            Source::Sql("SELECT COUNT(*) FROM logs WHERE ts>=1000 AND ts<=2000 AND level='error' AND service='api' AND max_work_entries=100000"),
            "i",
            Judge::FirstRow(Table::One),
        ))
    } else if i == 1 {
        Some(rows(
            "SQL-LOG recipe results changed",
            Source::Sql("SELECT COUNT(*) FROM logs WHERE message_contains='TIMEOUT'"),
            "i",
            Judge::FirstRow(Table::One),
        ))
    } else if i == 2 {
        Some(rows(
            "SQL-LOG recipe results changed",
            Source::Sql(r#"SELECT n FROM timeless_log_count( 'logs','{"level":"error","service":"api"}',NULL,1000,2000,100000)"#),
            "i",
            Judge::FirstRow(Table::One),
        ))
    } else if i == 3 {
        Some(rows(
            "SQL-LOG recipe results changed",
            Source::Sql("SELECT COUNT(*) FROM timeless_log_values( 'logs','host',NULL,NULL,1000,2000,100,100000)"),
            "i",
            Judge::FirstRow(Table::Two),
        ))
    } else if i == 4 {
        Some(rows(
            "SQL-LOG recipe results changed",
            Source::Sql("SELECT n FROM timeless_log_count('logs')"),
            "i",
            Judge::FirstRow(Table::Two),
        ))
    } else if i == 5 {
        Some(rows(
            "SQL-LOG recipe results changed",
            Source::Sql("SELECT COUNT(*) FROM timeless_log_values( 'logs','host',NULL,NULL,1000,2000,100)"),
            "i",
            Judge::FirstRow(Table::Two),
        ))
    } else if i == 6 {
        Some(rows(
            "SQL-LOG recipe results changed",
            Source::Sql("SELECT COUNT(*) FROM logs WHERE json_type(metadata,'$.deployment.region')='text' AND json_extract(metadata,'$.deployment.region')='us-east'"),
            "i",
            Judge::FirstRow(Table::One),
        ))
    } else if i == 7 {
        Some(rows(
            "SQL-LOG recipe results changed",
            Source::Sql("SELECT COUNT(*) FROM logs WHERE json_type(metadata,'$.nested.ok')='true' AND json_extract(metadata,'$.nested.ok')=1 AND json_type(metadata,'$.nested.count')='integer' AND json_extract(metadata,'$.nested.count')=2 AND json_type(metadata,'$.nested.none')='null' AND json_type(metadata,'$.nested.empty')='text' AND json_extract(metadata,'$.nested.empty')=''"),
            "i",
            Judge::FirstRow(Table::One),
        ))
    } else if i == 8 {
        Some(rows(
            "SQL-LOG recipe results changed",
            Source::Sql("SELECT COUNT(*) FROM logs WHERE json_type(metadata,'$.nested.none') IS NULL"),
            "i",
            Judge::FirstRow(Table::One),
        ))
    } else if i == 9 {
        Some(rows(
            "SQL-LOG recipe results changed",
            Source::Sql("SELECT SUM(n) FROM timeless_log_buckets('logs','level',NULL,1000,2000,1000)"),
            "i",
            Judge::FirstRow(Table::Two),
        ))
    } else if i == 10 {
        Some(rows(
            "Session 12 SQL-LOG recipe results changed",
            Source::Statement("SQL-LOG-007", 0),
            "",
            Judge::Count(1),
        ))
    } else if i == 11 {
        Some(rows(
            "Session 12 SQL-LOG recipe results changed",
            Source::Statement("SQL-LOG-008", 0),
            "",
            Judge::Count(1),
        ))
    } else if i == 12 {
        Some(rows(
            "Session 12 SQL-LOG recipe results changed",
            Source::Statement("SQL-LOG-008", 1),
            "",
            Judge::Count(2),
        ))
    } else if i == 13 {
        Some(rows(
            "Session 12 SQL-LOG recipe results changed",
            Source::Statement("SQL-LOG-008", 2),
            "",
            Judge::Count(2),
        ))
    } else if i == 14 {
        Some(rows(
            "Session 12 SQL-LOG recipe results changed",
            Source::Statement("SQL-LOG-009", 0),
            "",
            Judge::Count(1),
        ))
    } else if i == 15 {
        Some(rows(
            "Session 13 SQL-LOG recipe results changed",
            Source::Statement("SQL-LOG-010", 0),
            "",
            Judge::Count(10),
        ))
    } else if i == 16 {
        Some(rows(
            "Session 13 SQL-LOG recipe results changed",
            Source::Statement("SQL-LOG-010", 1),
            "",
            Judge::Count(2),
        ))
    } else if i == 17 {
        Some(rows(
            "Session 13 SQL-LOG recipe results changed",
            Source::Statement("SQL-LOG-011", 0),
            "",
            Judge::Count(2),
        ))
    } else if i == 18 {
        Some(rows(
            "Session 13 SQL-LOG recipe results changed",
            Source::Statement("SQL-LOG-011", 1),
            "",
            Judge::Count(1),
        ))
    } else if i == 19 {
        Some(rows(
            "Session 13 SQL-LOG recipe results changed",
            Source::Statement("SQL-LOG-012", 0),
            "",
            Judge::Count(1),
        ))
    } else if i == 20 {
        Some(rows(
            "Session 13 SQL-LOG recipe results changed",
            Source::Statement("SQL-LOG-012", 1),
            "",
            Judge::Count(2),
        ))
    } else if i == 21 {
        Some(rows(
            "Session 13 SQL-LOG recipe results changed",
            Source::Statement("SQL-LOG-012", 2),
            "",
            Judge::Count(2),
        ))
    } else if i == 22 {
        Some(rows(
            "Session 13 SQL-LOG recipe results changed",
            Source::Statement("SQL-LOG-013", 0),
            "",
            Judge::Count(1),
        ))
    } else if i == 23 {
        Some(rows(
            "Session 13 SQL-LOG recipe results changed",
            Source::Statement("SQL-LOG-013", 1),
            "",
            Judge::Count(1),
        ))
    } else {
        None
    }
}

/// The results of the log recipes as documented.
pub open spec fn log_recipe_step_at(i: int) -> Option<Step> {
    if i == 0 {
        Some(rows(
            "SQL-LOG-014 statement 1 changed",
            Source::Statement("SQL-LOG-014", 0),
            "",
            Judge::FirstCells(Table::NewestFirst),
        ))
    } else if i == 1 {
        Some(rows(
            "SQL-LOG-014 statement 2 changed",
            Source::Statement("SQL-LOG-014", 1),
            "",
            Judge::FirstCells(Table::NewestFirst),
        ))
    } else if i == 2 {
        Some(rows(
            "SQL-LOG-015 statement 1 changed",
            Source::Statement("SQL-LOG-015", 0),
            "",
            Judge::FirstCells(Table::NewestFirst),
        ))
    } else if i == 3 {
        Some(rows(
            "SQL-LOG-015 statement 2 changed",
            Source::Statement("SQL-LOG-015", 1),
            "",
            Judge::FirstCells(Table::NewestFirst),
        ))
    } else if i == 4 {
        Some(rows(
            "SQL-LOG-015 statement 3 changed",
            Source::Statement("SQL-LOG-015", 2),
            "",
            Judge::FirstCells(Table::NewestFirst),
        ))
    } else if i == 5 {
        Some(rows(
            "SQL-LOG-016 field no-op changed",
            Source::Statement("SQL-LOG-016", 0),
            "",
            Judge::FirstCells(Table::NewestFirst),
        ))
    } else if i == 6 {
        Some(rows(
            "SQL-LOG-017 primitive or empty-list membership changed",
            Source::Statement("SQL-LOG-017", 0),
            "",
            Judge::FirstCells(Table::FirstOnly),
        ))
    } else if i == 7 {
        Some(rows(
            "SQL-LOG-017 primitive or empty-list membership changed",
            Source::Statement("SQL-LOG-017", 1),
            "",
            Judge::Count(0),
        ))
    } else if i == 8 {
        Some(rows(
            "SQL-LOG-018 IPv4 range changed",
            Source::Statement("SQL-LOG-018", 0),
            "",
            Judge::FirstCells(Table::FirstOnly),
        ))
    } else if i == 9 {
        Some(rows(
            "SQL-LOG-019 string range changed",
            Source::Statement("SQL-LOG-019", 0),
            "",
            Judge::FirstCells(Table::NewestFirst),
        ))
    } else if i == 10 {
        Some(rows(
            "SQL-LOG-020 length range changed",
            Source::Statement("SQL-LOG-020", 0),
            "",
            Judge::FirstCells(Table::NewestFirst),
        ))
    } else if i == 11 {
        Some(rows(
            "SQL-LOG-021 field equality changed",
            Source::Statement("SQL-LOG-021", 0),
            "",
            Judge::FirstCells(Table::NewestFirst),
        ))
    } else if i == 12 {
        Some(rows(
            "SQL-LOG-022 field-prefix selection changed",
            Source::Statement("SQL-LOG-022", 0),
            "",
            Judge::FirstCells(Table::FirstOnly),
        ))
    } else if i == 13 {
        Some(rows(
            "SQL-LOG-023 UTC day-range selection changed",
            Source::Statement("SQL-LOG-023", 0),
            "",
            Judge::FirstCells(Table::NewestFirst),
        ))
    } else if i == 14 {
        Some(rows(
            "SQL-LOG-024 UTC week-range selection changed",
            Source::Statement("SQL-LOG-024", 0),
            "",
            Judge::FirstCells(Table::NewestFirst),
        ))
    } else if i == 15 {
        Some(documents(
            "SQL-LOG-025 exact deletion or retained metadata changed",
            Source::Statement("SQL-LOG-025", 0),
            Bind::Nothing,
            "",
            Documents::Column(3),
            Judge::FirstCells(Table::NewestFirst),
            Rule::Deleted,
        ))
    } else if i == 16 {
        Some(rows(
            "SQL-LOG-026 source query ordering changed",
            Source::Statement("SQL-LOG-026", 0),
            "",
            Judge::FirstCells(Table::OldestFirst),
        ))
    } else if i == 17 {
        Some(rows(
            "SQL-LOG-026 request-local report changed",
            Source::Statement("SQL-LOG-026", 1),
            "",
            Judge::QueryStats,
        ))
    } else if i == 18 {
        Some(documents(
            "SQL-LOG-027 first-per-partition row changed",
            Source::Statement("SQL-LOG-027", 0),
            Bind::Nothing,
            "",
            Documents::Column(3),
            Judge::ExceptFourth(Table::FirstPerPartition),
            Rule::FirstRetained,
        ))
    } else if i == 19 {
        Some(documents(
            "SQL-LOG-028 last-per-partition row changed",
            Source::Statement("SQL-LOG-028", 0),
            Bind::Nothing,
            "",
            Documents::Column(3),
            Judge::ExceptFourth(Table::LastPerPartition),
            Rule::LastRetained,
        ))
    } else if i == 20 {
        Some(rows(
            "SQL-LOG-029 top frequency result changed",
            Source::Statement("SQL-LOG-029", 0),
            "",
            Judge::Table(Table::TopHosts),
        ))
    } else if i == 21 {
        Some(rows(
            "SQL-LOG-030 unique result changed",
            Source::Statement("SQL-LOG-030", 0),
            "",
            Judge::Table(Table::UniqueHosts),
        ))
    } else if i == 22 {
        Some(rows(
            "SQL-LOG-031 facets result changed",
            Source::Statement("SQL-LOG-031", 0),
            "",
            Judge::Facets,
        ))
    } else if i == 23 {
        Some(rows(
            "SQL-LOG-032 coalesce result changed",
            Source::Statement("SQL-LOG-032", 0),
            "",
            Judge::Column(4, Table::Hosts),
        ))
    } else if i == 24 {
        Some(documents(
            "SQL-LOG-033 exact typed copy or source retention changed",
            Source::Statement("SQL-LOG-033", 0),
            Bind::Nothing,
            "",
            Documents::Column(3),
            Judge::Count(2),
            Rule::CopiedDuration,
        ))
    } else if i == 25 {
        Some(documents(
            "SQL-LOG-034 exact typed move or source removal changed",
            Source::Statement("SQL-LOG-034", 0),
            Bind::Nothing,
            "",
            Documents::Column(3),
            Judge::Count(2),
            Rule::MovedDuration,
        ))
    } else if i == 26 {
        Some(rows(
            "SQL-LOG-035 format result changed",
            Source::Statement("SQL-LOG-035", 0),
            "",
            Judge::Table(Table::Formatted),
        ))
    } else if i == 27 {
        Some(rows(
            "SQL-LOG-036 arithmetic result changed",
            Source::Statement("SQL-LOG-036", 0),
            "",
            Judge::Table(Table::Arithmetic),
        ))
    } else if i == 28 {
        Some(rows(
            "SQL-LOG-037 byte-length result changed",
            Source::Statement("SQL-LOG-037", 0),
            "",
            Judge::Table(Table::ByteLengths),
        ))
    } else if i == 29 {
        Some(documents(
            "SQL-LOG-038 typed empty-field removal changed",
            Source::Statement("SQL-LOG-038", 0),
            Bind::Nothing,
            "",
            Documents::Column(3),
            Judge::Count(2),
            Rule::EmptyDropped,
        ))
    } else if i == 30 {
        Some(rows(
            "SQL-LOG-039 literal replacement changed",
            Source::Statement("SQL-LOG-039", 0),
            "",
            Judge::Table(Table::Replaced),
        ))
    } else if i == 31 {
        Some(rows(
            "SQL-LOG-040 literal extraction changed",
            Source::Statement("SQL-LOG-040", 0),
            "",
            Judge::Table(Table::Extracted),
        ))
    } else if i == 32 {
        Some(documents(
            "SQL-LOG-041 typed packed result changed",
            Source::Statement("SQL-LOG-041", 0),
            Bind::Nothing,
            "",
            Documents::Column(3),
            Judge::Count(2),
            Rule::Packed,
        ))
    } else if i == 33 {
        Some(documents(
            "SQL-LOG-042 typed unpacked result changed",
            Source::Statement("SQL-LOG-042", 0),
            Bind::Nothing,
            "",
            Documents::Column(3),
            Judge::Count(2),
            Rule::Unpacked,
        ))
    } else if i == 34 {
        Some(rows(
            "SQL-LOG-043 native array lengths changed",
            Source::Statement("SQL-LOG-043", 0),
            "",
            Judge::Table(Table::ArrayLengths),
        ))
    } else if i == 35 {
        Some(rows(
            "SQL-LOG-044 numeric statistics changed",
            Source::Statement("SQL-LOG-044", 0),
            "",
            Judge::Table(Table::Statistics),
        ))
    } else if i == 36 {
        Some(rows(
            "SQL-LOG-045 aggregate byte length changed",
            Source::Statement("SQL-LOG-045", 0),
            "",
            Judge::Table(Table::SumOfLengths),
        ))
    } else if i == 37 {
        Some(rows(
            "SQL-LOG-046 deterministic any changed",
            Source::Statement("SQL-LOG-046", 0),
            "",
            Judge::Table(Table::AnyHost),
        ))
    } else if i == 38 {
        Some(rows(
            "SQL-LOG-046 numeric companion extrema changed",
            Source::Statement("SQL-LOG-046", 1),
            "",
            Judge::Table(Table::HostExtrema),
        ))
    } else if i == 39 {
        Some(documents(
            "SQL-LOG-047 row_any rich result changed",
            Source::Statement("SQL-LOG-047", 0),
            Bind::Nothing,
            "",
            Documents::Column(0),
            Judge::Count(1),
            Rule::RowAny,
        ))
    } else if i == 40 {
        Some(documents(
            "SQL-LOG-047 row extrema rich results changed",
            Source::Statement("SQL-LOG-047", 1),
            Bind::Nothing,
            "",
            Documents::All,
            Judge::PairOfTexts,
            Rule::RowExtrema,
        ))
    } else {
        None
    }
}

fn log_recipe_step(i: usize) -> (step: Option<Step>)
    ensures
        step == log_recipe_step_at(i as int),
{
    if i == 0 {
        Some(rows(
            "SQL-LOG-014 statement 1 changed",
            Source::Statement("SQL-LOG-014", 0),
            "",
            Judge::FirstCells(Table::NewestFirst),
        ))
    } else if i == 1 {
        Some(rows(
            "SQL-LOG-014 statement 2 changed",
            Source::Statement("SQL-LOG-014", 1),
            "",
            Judge::FirstCells(Table::NewestFirst),
        ))
    } else if i == 2 {
        Some(rows(
            "SQL-LOG-015 statement 1 changed",
            Source::Statement("SQL-LOG-015", 0),
            "",
            Judge::FirstCells(Table::NewestFirst),
        ))
    } else if i == 3 {
        Some(rows(
            "SQL-LOG-015 statement 2 changed",
            Source::Statement("SQL-LOG-015", 1),
            "",
            Judge::FirstCells(Table::NewestFirst),
        ))
    } else if i == 4 {
        Some(rows(
            "SQL-LOG-015 statement 3 changed",
            Source::Statement("SQL-LOG-015", 2),
            "",
            Judge::FirstCells(Table::NewestFirst),
        ))
    } else if i == 5 {
        Some(rows(
            "SQL-LOG-016 field no-op changed",
            Source::Statement("SQL-LOG-016", 0),
            "",
            Judge::FirstCells(Table::NewestFirst),
        ))
    } else if i == 6 {
        Some(rows(
            "SQL-LOG-017 primitive or empty-list membership changed",
            Source::Statement("SQL-LOG-017", 0),
            "",
            Judge::FirstCells(Table::FirstOnly),
        ))
    } else if i == 7 {
        Some(rows(
            "SQL-LOG-017 primitive or empty-list membership changed",
            Source::Statement("SQL-LOG-017", 1),
            "",
            Judge::Count(0),
        ))
    } else if i == 8 {
        Some(rows(
            "SQL-LOG-018 IPv4 range changed",
            Source::Statement("SQL-LOG-018", 0),
            "",
            Judge::FirstCells(Table::FirstOnly),
        ))
    } else if i == 9 {
        Some(rows(
            "SQL-LOG-019 string range changed",
            Source::Statement("SQL-LOG-019", 0),
            "",
            Judge::FirstCells(Table::NewestFirst),
        ))
    } else if i == 10 {
        Some(rows(
            "SQL-LOG-020 length range changed",
            Source::Statement("SQL-LOG-020", 0),
            "",
            Judge::FirstCells(Table::NewestFirst),
        ))
    } else if i == 11 {
        Some(rows(
            "SQL-LOG-021 field equality changed",
            Source::Statement("SQL-LOG-021", 0),
            "",
            Judge::FirstCells(Table::NewestFirst),
        ))
    } else if i == 12 {
        Some(rows(
            "SQL-LOG-022 field-prefix selection changed",
            Source::Statement("SQL-LOG-022", 0),
            "",
            Judge::FirstCells(Table::FirstOnly),
        ))
    } else if i == 13 {
        Some(rows(
            "SQL-LOG-023 UTC day-range selection changed",
            Source::Statement("SQL-LOG-023", 0),
            "",
            Judge::FirstCells(Table::NewestFirst),
        ))
    } else if i == 14 {
        Some(rows(
            "SQL-LOG-024 UTC week-range selection changed",
            Source::Statement("SQL-LOG-024", 0),
            "",
            Judge::FirstCells(Table::NewestFirst),
        ))
    } else if i == 15 {
        Some(documents(
            "SQL-LOG-025 exact deletion or retained metadata changed",
            Source::Statement("SQL-LOG-025", 0),
            Bind::Nothing,
            "",
            Documents::Column(3),
            Judge::FirstCells(Table::NewestFirst),
            Rule::Deleted,
        ))
    } else if i == 16 {
        Some(rows(
            "SQL-LOG-026 source query ordering changed",
            Source::Statement("SQL-LOG-026", 0),
            "",
            Judge::FirstCells(Table::OldestFirst),
        ))
    } else if i == 17 {
        Some(rows(
            "SQL-LOG-026 request-local report changed",
            Source::Statement("SQL-LOG-026", 1),
            "",
            Judge::QueryStats,
        ))
    } else if i == 18 {
        Some(documents(
            "SQL-LOG-027 first-per-partition row changed",
            Source::Statement("SQL-LOG-027", 0),
            Bind::Nothing,
            "",
            Documents::Column(3),
            Judge::ExceptFourth(Table::FirstPerPartition),
            Rule::FirstRetained,
        ))
    } else if i == 19 {
        Some(documents(
            "SQL-LOG-028 last-per-partition row changed",
            Source::Statement("SQL-LOG-028", 0),
            Bind::Nothing,
            "",
            Documents::Column(3),
            Judge::ExceptFourth(Table::LastPerPartition),
            Rule::LastRetained,
        ))
    } else if i == 20 {
        Some(rows(
            "SQL-LOG-029 top frequency result changed",
            Source::Statement("SQL-LOG-029", 0),
            "",
            Judge::Table(Table::TopHosts),
        ))
    } else if i == 21 {
        Some(rows(
            "SQL-LOG-030 unique result changed",
            Source::Statement("SQL-LOG-030", 0),
            "",
            Judge::Table(Table::UniqueHosts),
        ))
    } else if i == 22 {
        Some(rows(
            "SQL-LOG-031 facets result changed",
            Source::Statement("SQL-LOG-031", 0),
            "",
            Judge::Facets,
        ))
    } else if i == 23 {
        Some(rows(
            "SQL-LOG-032 coalesce result changed",
            Source::Statement("SQL-LOG-032", 0),
            "",
            Judge::Column(4, Table::Hosts),
        ))
    } else if i == 24 {
        Some(documents(
            "SQL-LOG-033 exact typed copy or source retention changed",
            Source::Statement("SQL-LOG-033", 0),
            Bind::Nothing,
            "",
            Documents::Column(3),
            Judge::Count(2),
            Rule::CopiedDuration,
        ))
    } else if i == 25 {
        Some(documents(
            "SQL-LOG-034 exact typed move or source removal changed",
            Source::Statement("SQL-LOG-034", 0),
            Bind::Nothing,
            "",
            Documents::Column(3),
            Judge::Count(2),
            Rule::MovedDuration,
        ))
    } else if i == 26 {
        Some(rows(
            "SQL-LOG-035 format result changed",
            Source::Statement("SQL-LOG-035", 0),
            "",
            Judge::Table(Table::Formatted),
        ))
    } else if i == 27 {
        Some(rows(
            "SQL-LOG-036 arithmetic result changed",
            Source::Statement("SQL-LOG-036", 0),
            "",
            Judge::Table(Table::Arithmetic),
        ))
    } else if i == 28 {
        Some(rows(
            "SQL-LOG-037 byte-length result changed",
            Source::Statement("SQL-LOG-037", 0),
            "",
            Judge::Table(Table::ByteLengths),
        ))
    } else if i == 29 {
        Some(documents(
            "SQL-LOG-038 typed empty-field removal changed",
            Source::Statement("SQL-LOG-038", 0),
            Bind::Nothing,
            "",
            Documents::Column(3),
            Judge::Count(2),
            Rule::EmptyDropped,
        ))
    } else if i == 30 {
        Some(rows(
            "SQL-LOG-039 literal replacement changed",
            Source::Statement("SQL-LOG-039", 0),
            "",
            Judge::Table(Table::Replaced),
        ))
    } else if i == 31 {
        Some(rows(
            "SQL-LOG-040 literal extraction changed",
            Source::Statement("SQL-LOG-040", 0),
            "",
            Judge::Table(Table::Extracted),
        ))
    } else if i == 32 {
        Some(documents(
            "SQL-LOG-041 typed packed result changed",
            Source::Statement("SQL-LOG-041", 0),
            Bind::Nothing,
            "",
            Documents::Column(3),
            Judge::Count(2),
            Rule::Packed,
        ))
    } else if i == 33 {
        Some(documents(
            "SQL-LOG-042 typed unpacked result changed",
            Source::Statement("SQL-LOG-042", 0),
            Bind::Nothing,
            "",
            Documents::Column(3),
            Judge::Count(2),
            Rule::Unpacked,
        ))
    } else if i == 34 {
        Some(rows(
            "SQL-LOG-043 native array lengths changed",
            Source::Statement("SQL-LOG-043", 0),
            "",
            Judge::Table(Table::ArrayLengths),
        ))
    } else if i == 35 {
        Some(rows(
            "SQL-LOG-044 numeric statistics changed",
            Source::Statement("SQL-LOG-044", 0),
            "",
            Judge::Table(Table::Statistics),
        ))
    } else if i == 36 {
        Some(rows(
            "SQL-LOG-045 aggregate byte length changed",
            Source::Statement("SQL-LOG-045", 0),
            "",
            Judge::Table(Table::SumOfLengths),
        ))
    } else if i == 37 {
        Some(rows(
            "SQL-LOG-046 deterministic any changed",
            Source::Statement("SQL-LOG-046", 0),
            "",
            Judge::Table(Table::AnyHost),
        ))
    } else if i == 38 {
        Some(rows(
            "SQL-LOG-046 numeric companion extrema changed",
            Source::Statement("SQL-LOG-046", 1),
            "",
            Judge::Table(Table::HostExtrema),
        ))
    } else if i == 39 {
        Some(documents(
            "SQL-LOG-047 row_any rich result changed",
            Source::Statement("SQL-LOG-047", 0),
            Bind::Nothing,
            "",
            Documents::Column(0),
            Judge::Count(1),
            Rule::RowAny,
        ))
    } else if i == 40 {
        Some(documents(
            "SQL-LOG-047 row extrema rich results changed",
            Source::Statement("SQL-LOG-047", 1),
            Bind::Nothing,
            "",
            Documents::All,
            Judge::PairOfTexts,
            Rule::RowExtrema,
        ))
    } else {
        None
    }
}

/// The checks that arrays, statistics and extrema leave the source alone.
pub open spec fn log_source_step_at(i: int) -> Option<Step> {
    if i == 0 {
        Some(rows(
            "SQL-LOG-038 mutated its public source",
            Source::Sql("SELECT count(*) FROM logs WHERE json_type(metadata, '$.nested.empty') IN ('null', 'text')"),
            "i",
            Judge::FirstRow(Table::Two),
        ))
    } else if i == 1 {
        Some(rows(
            "SQL-LOG-039 mutated its public source",
            Source::Sql("SELECT json_extract(metadata, '$.host') FROM logs ORDER BY ts"),
            "s",
            Judge::Table(Table::Hosts),
        ))
    } else if i == 2 {
        Some(rows(
            "SQL-LOG-040 mutated its public source",
            Source::Sql("SELECT json_extract(metadata, '$.client_ip') FROM logs ORDER BY ts"),
            "s",
            Judge::Table(Table::Addresses),
        ))
    } else if i == 3 {
        Some(documents(
            "SQL-LOG-041 mutated its public source",
            Source::Sql("SELECT metadata FROM logs ORDER BY ts"),
            Bind::Nothing,
            "s",
            Documents::Column(0),
            Judge::Remember(2),
            Rule::Nothing,
        ))
    } else if i == 4 {
        Some(rows(
            "SQL-LOG-042 mutated its public source",
            Source::Sql("SELECT metadata FROM logs ORDER BY ts"),
            "s",
            Judge::Remembered,
        ))
    } else if i == 5 {
        Some(bound_rows(
            r#"SQL-LOG-043 path "$.nested.array_text" changed"#,
            Source::Statement("SQL-LOG-043", 0),
            Bind::One(("json_array_source_path", Literal::Text("$.nested.array_text"))),
            "...s",
            Judge::Table(Table::FourFour),
        ))
    } else if i == 6 {
        Some(bound_rows(
            r#"SQL-LOG-043 path "$.tags[7]" changed"#,
            Source::Statement("SQL-LOG-043", 0),
            Bind::One(("json_array_source_path", Literal::Text("$.tags[7]"))),
            "...s",
            Judge::Table(Table::OneZero),
        ))
    } else if i == 7 {
        Some(bound_rows(
            r#"SQL-LOG-043 path "$.nested.count" changed"#,
            Source::Statement("SQL-LOG-043", 0),
            Bind::One(("json_array_source_path", Literal::Text("$.nested.count"))),
            "...s",
            Judge::Table(Table::ZeroZero),
        ))
    } else if i == 8 {
        Some(bound_rows(
            r#"SQL-LOG-043 path "$.nested" changed"#,
            Source::Statement("SQL-LOG-043", 0),
            Bind::One(("json_array_source_path", Literal::Text("$.nested"))),
            "...s",
            Judge::Table(Table::ZeroZero),
        ))
    } else if i == 9 {
        Some(bound_rows(
            r#"SQL-LOG-043 path "$.client_ip" changed"#,
            Source::Statement("SQL-LOG-043", 0),
            Bind::One(("json_array_source_path", Literal::Text("$.client_ip"))),
            "...s",
            Judge::Table(Table::ZeroZero),
        ))
    } else if i == 10 {
        Some(bound_rows(
            r#"SQL-LOG-043 path "$.nested.none" changed"#,
            Source::Statement("SQL-LOG-043", 0),
            Bind::One(("json_array_source_path", Literal::Text("$.nested.none"))),
            "...s",
            Judge::Table(Table::ZeroZero),
        ))
    } else if i == 11 {
        Some(bound_rows(
            r#"SQL-LOG-043 path "$.missing" changed"#,
            Source::Statement("SQL-LOG-043", 0),
            Bind::One(("json_array_source_path", Literal::Text("$.missing"))),
            "...s",
            Judge::Table(Table::ZeroZero),
        ))
    } else if i == 12 {
        Some(rows(
            "SQL-LOG-043 mutated its public source",
            Source::Sql("SELECT metadata FROM logs ORDER BY ts"),
            "s",
            Judge::Remembered,
        ))
    } else if i == 13 {
        Some(bound_rows(
            "SQL-LOG-044 quantile 0 changed",
            Source::Statement("SQL-LOG-044", 0),
            Bind::Two(("stats_source_path", Literal::Text("$.duration_ms")), ("quantile", Literal::Real(F_0))),
            "",
            Judge::FirstAt(1, Table::QuantileLow),
        ))
    } else if i == 14 {
        Some(bound_rows(
            "SQL-LOG-044 quantile 0.5 changed",
            Source::Statement("SQL-LOG-044", 0),
            Bind::Two(("stats_source_path", Literal::Text("$.duration_ms")), ("quantile", Literal::Real(F_0_5))),
            "",
            Judge::FirstAt(1, Table::QuantileHigh),
        ))
    } else if i == 15 {
        Some(bound_rows(
            "SQL-LOG-044 quantile 1 changed",
            Source::Statement("SQL-LOG-044", 0),
            Bind::Two(("stats_source_path", Literal::Text("$.duration_ms")), ("quantile", Literal::Real(F_1))),
            "",
            Judge::FirstAt(1, Table::QuantileHigh),
        ))
    } else if i == 16 {
        Some(bound_rows(
            "SQL-LOG-044 typed/missing behavior changed",
            Source::Statement("SQL-LOG-044", 0),
            Bind::Two(("stats_source_path", Literal::Text("$.nested.count")), ("quantile", Literal::Real(F_0_5))),
            "",
            Judge::Table(Table::TypedStatistics),
        ))
    } else if i == 17 {
        Some(bound_rows(
            "SQL-LOG-044 typed/missing behavior changed",
            Source::Statement("SQL-LOG-044", 0),
            Bind::Two(("stats_source_path", Literal::Text("$.missing")), ("quantile", Literal::Real(F_0_5))),
            "",
            Judge::Table(Table::MissingStatistics),
        ))
    } else if i == 18 {
        Some(rows(
            "SQL-LOG-044 mutated its public source",
            Source::Sql("SELECT metadata FROM logs ORDER BY ts"),
            "s",
            Judge::Remembered,
        ))
    } else if i == 19 {
        Some(bound_rows(
            r#"SQL-LOG-045 path "$.host" changed"#,
            Source::Statement("SQL-LOG-045", 0),
            Bind::One(("sum_len_source_path", Literal::Text("$.host"))),
            "i",
            Judge::FirstRow(Table::Ten),
        ))
    } else if i == 20 {
        Some(bound_rows(
            r#"SQL-LOG-045 path "$.nested.ok" changed"#,
            Source::Statement("SQL-LOG-045", 0),
            Bind::One(("sum_len_source_path", Literal::Text("$.nested.ok"))),
            "i",
            Judge::FirstRow(Table::Eight),
        ))
    } else if i == 21 {
        Some(bound_rows(
            r#"SQL-LOG-045 path "$.nested.none" changed"#,
            Source::Statement("SQL-LOG-045", 0),
            Bind::One(("sum_len_source_path", Literal::Text("$.nested.none"))),
            "i",
            Judge::FirstRow(Table::Zero),
        ))
    } else if i == 22 {
        Some(bound_rows(
            r#"SQL-LOG-045 path "$.missing" changed"#,
            Source::Statement("SQL-LOG-045", 0),
            Bind::One(("sum_len_source_path", Literal::Text("$.missing"))),
            "i",
            Judge::FirstRow(Table::Zero),
        ))
    } else if i == 23 {
        Some(rows(
            "SQL-LOG-045 mutated its public source",
            Source::Sql("SELECT metadata FROM logs ORDER BY ts"),
            "s",
            Judge::Remembered,
        ))
    } else if i == 24 {
        Some(bound_rows(
            "SQL-LOG-046 typed or missing any behavior changed",
            Source::Statement("SQL-LOG-046", 0),
            Bind::One(("any_source_path", Literal::Text("$.nested.ok"))),
            "",
            Judge::Table(Table::AnyFlag),
        ))
    } else if i == 25 {
        Some(bound_rows(
            "SQL-LOG-046 typed or missing any behavior changed",
            Source::Statement("SQL-LOG-046", 0),
            Bind::One(("any_source_path", Literal::Text("$.missing"))),
            "",
            Judge::Count(0),
        ))
    } else if i == 26 {
        Some(documents(
            "SQL-LOG-046 rich or missing companion behavior changed",
            Source::Statement("SQL-LOG-046", 1),
            Bind::Two(("extreme_source_path", Literal::Text("$.duration_ms")), ("extreme_result_path", Literal::Text("$.nested"))),
            "",
            Documents::Columns(1, 3),
            Judge::RichExtrema,
            Rule::Nothing,
        ))
    } else if i == 27 {
        Some(bound_rows(
            "SQL-LOG-046 rich or missing companion behavior changed",
            Source::Statement("SQL-LOG-046", 1),
            Bind::Two(("extreme_source_path", Literal::Text("$.missing")), ("extreme_result_path", Literal::Text("$.host"))),
            "",
            Judge::Table(Table::FourNulls),
        ))
    } else if i == 28 {
        Some(rows(
            "SQL-LOG-046 mutated its public source",
            Source::Sql("SELECT metadata FROM logs ORDER BY ts"),
            "s",
            Judge::Remembered,
        ))
    } else if i == 29 {
        Some(documents(
            "SQL-LOG-047 typed or missing row_any behavior changed",
            Source::Statement("SQL-LOG-047", 0),
            Bind::Two(("row_any_path_1", Literal::Text("$.nested.ok")), ("row_any_path_2", Literal::Text("$.tags"))),
            "",
            Documents::Column(0),
            Judge::Count(1),
            Rule::TypedRowAny,
        ))
    } else if i == 30 {
        Some(bound_rows(
            "SQL-LOG-047 typed or missing row_any behavior changed",
            Source::Statement("SQL-LOG-047", 0),
            Bind::Two(("row_any_path_1", Literal::Text("$.missing")), ("row_any_path_2", Literal::Text("$.also_missing"))),
            "",
            Judge::Count(0),
        ))
    } else if i == 31 {
        Some(bound_rows(
            "SQL-LOG-047 empty row extrema changed",
            Source::Statement("SQL-LOG-047", 1),
            Bind::Three(("row_extreme_source_path", Literal::Text("$.missing")), ("row_result_path_1", Literal::Text("$.host")), ("row_result_path_2", Literal::Text("$.tags"))),
            "",
            Judge::Table(Table::EmptyObjects),
        ))
    } else if i == 32 {
        Some(documents(
            "SQL-LOG-047 array or missing result behavior changed",
            Source::Statement("SQL-LOG-047", 1),
            Bind::Three(("row_extreme_source_path", Literal::Text("$.duration_ms")), ("row_result_path_1", Literal::Text("$.missing")), ("row_result_path_2", Literal::Text("$.tags"))),
            "",
            Documents::All,
            Judge::Count(1),
            Rule::TagsArrays,
        ))
    } else if i == 33 {
        Some(rows(
            "SQL-LOG-047 mutated its public source",
            Source::Sql("SELECT metadata FROM logs ORDER BY ts"),
            "s",
            Judge::Remembered,
        ))
    } else {
        None
    }
}

fn log_source_step(i: usize) -> (step: Option<Step>)
    ensures
        step == log_source_step_at(i as int),
{
    if i == 0 {
        Some(rows(
            "SQL-LOG-038 mutated its public source",
            Source::Sql("SELECT count(*) FROM logs WHERE json_type(metadata, '$.nested.empty') IN ('null', 'text')"),
            "i",
            Judge::FirstRow(Table::Two),
        ))
    } else if i == 1 {
        Some(rows(
            "SQL-LOG-039 mutated its public source",
            Source::Sql("SELECT json_extract(metadata, '$.host') FROM logs ORDER BY ts"),
            "s",
            Judge::Table(Table::Hosts),
        ))
    } else if i == 2 {
        Some(rows(
            "SQL-LOG-040 mutated its public source",
            Source::Sql("SELECT json_extract(metadata, '$.client_ip') FROM logs ORDER BY ts"),
            "s",
            Judge::Table(Table::Addresses),
        ))
    } else if i == 3 {
        Some(documents(
            "SQL-LOG-041 mutated its public source",
            Source::Sql("SELECT metadata FROM logs ORDER BY ts"),
            Bind::Nothing,
            "s",
            Documents::Column(0),
            Judge::Remember(2),
            Rule::Nothing,
        ))
    } else if i == 4 {
        Some(rows(
            "SQL-LOG-042 mutated its public source",
            Source::Sql("SELECT metadata FROM logs ORDER BY ts"),
            "s",
            Judge::Remembered,
        ))
    } else if i == 5 {
        Some(bound_rows(
            r#"SQL-LOG-043 path "$.nested.array_text" changed"#,
            Source::Statement("SQL-LOG-043", 0),
            Bind::One(("json_array_source_path", Literal::Text("$.nested.array_text"))),
            "...s",
            Judge::Table(Table::FourFour),
        ))
    } else if i == 6 {
        Some(bound_rows(
            r#"SQL-LOG-043 path "$.tags[7]" changed"#,
            Source::Statement("SQL-LOG-043", 0),
            Bind::One(("json_array_source_path", Literal::Text("$.tags[7]"))),
            "...s",
            Judge::Table(Table::OneZero),
        ))
    } else if i == 7 {
        Some(bound_rows(
            r#"SQL-LOG-043 path "$.nested.count" changed"#,
            Source::Statement("SQL-LOG-043", 0),
            Bind::One(("json_array_source_path", Literal::Text("$.nested.count"))),
            "...s",
            Judge::Table(Table::ZeroZero),
        ))
    } else if i == 8 {
        Some(bound_rows(
            r#"SQL-LOG-043 path "$.nested" changed"#,
            Source::Statement("SQL-LOG-043", 0),
            Bind::One(("json_array_source_path", Literal::Text("$.nested"))),
            "...s",
            Judge::Table(Table::ZeroZero),
        ))
    } else if i == 9 {
        Some(bound_rows(
            r#"SQL-LOG-043 path "$.client_ip" changed"#,
            Source::Statement("SQL-LOG-043", 0),
            Bind::One(("json_array_source_path", Literal::Text("$.client_ip"))),
            "...s",
            Judge::Table(Table::ZeroZero),
        ))
    } else if i == 10 {
        Some(bound_rows(
            r#"SQL-LOG-043 path "$.nested.none" changed"#,
            Source::Statement("SQL-LOG-043", 0),
            Bind::One(("json_array_source_path", Literal::Text("$.nested.none"))),
            "...s",
            Judge::Table(Table::ZeroZero),
        ))
    } else if i == 11 {
        Some(bound_rows(
            r#"SQL-LOG-043 path "$.missing" changed"#,
            Source::Statement("SQL-LOG-043", 0),
            Bind::One(("json_array_source_path", Literal::Text("$.missing"))),
            "...s",
            Judge::Table(Table::ZeroZero),
        ))
    } else if i == 12 {
        Some(rows(
            "SQL-LOG-043 mutated its public source",
            Source::Sql("SELECT metadata FROM logs ORDER BY ts"),
            "s",
            Judge::Remembered,
        ))
    } else if i == 13 {
        Some(bound_rows(
            "SQL-LOG-044 quantile 0 changed",
            Source::Statement("SQL-LOG-044", 0),
            Bind::Two(("stats_source_path", Literal::Text("$.duration_ms")), ("quantile", Literal::Real(F_0))),
            "",
            Judge::FirstAt(1, Table::QuantileLow),
        ))
    } else if i == 14 {
        Some(bound_rows(
            "SQL-LOG-044 quantile 0.5 changed",
            Source::Statement("SQL-LOG-044", 0),
            Bind::Two(("stats_source_path", Literal::Text("$.duration_ms")), ("quantile", Literal::Real(F_0_5))),
            "",
            Judge::FirstAt(1, Table::QuantileHigh),
        ))
    } else if i == 15 {
        Some(bound_rows(
            "SQL-LOG-044 quantile 1 changed",
            Source::Statement("SQL-LOG-044", 0),
            Bind::Two(("stats_source_path", Literal::Text("$.duration_ms")), ("quantile", Literal::Real(F_1))),
            "",
            Judge::FirstAt(1, Table::QuantileHigh),
        ))
    } else if i == 16 {
        Some(bound_rows(
            "SQL-LOG-044 typed/missing behavior changed",
            Source::Statement("SQL-LOG-044", 0),
            Bind::Two(("stats_source_path", Literal::Text("$.nested.count")), ("quantile", Literal::Real(F_0_5))),
            "",
            Judge::Table(Table::TypedStatistics),
        ))
    } else if i == 17 {
        Some(bound_rows(
            "SQL-LOG-044 typed/missing behavior changed",
            Source::Statement("SQL-LOG-044", 0),
            Bind::Two(("stats_source_path", Literal::Text("$.missing")), ("quantile", Literal::Real(F_0_5))),
            "",
            Judge::Table(Table::MissingStatistics),
        ))
    } else if i == 18 {
        Some(rows(
            "SQL-LOG-044 mutated its public source",
            Source::Sql("SELECT metadata FROM logs ORDER BY ts"),
            "s",
            Judge::Remembered,
        ))
    } else if i == 19 {
        Some(bound_rows(
            r#"SQL-LOG-045 path "$.host" changed"#,
            Source::Statement("SQL-LOG-045", 0),
            Bind::One(("sum_len_source_path", Literal::Text("$.host"))),
            "i",
            Judge::FirstRow(Table::Ten),
        ))
    } else if i == 20 {
        Some(bound_rows(
            r#"SQL-LOG-045 path "$.nested.ok" changed"#,
            Source::Statement("SQL-LOG-045", 0),
            Bind::One(("sum_len_source_path", Literal::Text("$.nested.ok"))),
            "i",
            Judge::FirstRow(Table::Eight),
        ))
    } else if i == 21 {
        Some(bound_rows(
            r#"SQL-LOG-045 path "$.nested.none" changed"#,
            Source::Statement("SQL-LOG-045", 0),
            Bind::One(("sum_len_source_path", Literal::Text("$.nested.none"))),
            "i",
            Judge::FirstRow(Table::Zero),
        ))
    } else if i == 22 {
        Some(bound_rows(
            r#"SQL-LOG-045 path "$.missing" changed"#,
            Source::Statement("SQL-LOG-045", 0),
            Bind::One(("sum_len_source_path", Literal::Text("$.missing"))),
            "i",
            Judge::FirstRow(Table::Zero),
        ))
    } else if i == 23 {
        Some(rows(
            "SQL-LOG-045 mutated its public source",
            Source::Sql("SELECT metadata FROM logs ORDER BY ts"),
            "s",
            Judge::Remembered,
        ))
    } else if i == 24 {
        Some(bound_rows(
            "SQL-LOG-046 typed or missing any behavior changed",
            Source::Statement("SQL-LOG-046", 0),
            Bind::One(("any_source_path", Literal::Text("$.nested.ok"))),
            "",
            Judge::Table(Table::AnyFlag),
        ))
    } else if i == 25 {
        Some(bound_rows(
            "SQL-LOG-046 typed or missing any behavior changed",
            Source::Statement("SQL-LOG-046", 0),
            Bind::One(("any_source_path", Literal::Text("$.missing"))),
            "",
            Judge::Count(0),
        ))
    } else if i == 26 {
        Some(documents(
            "SQL-LOG-046 rich or missing companion behavior changed",
            Source::Statement("SQL-LOG-046", 1),
            Bind::Two(("extreme_source_path", Literal::Text("$.duration_ms")), ("extreme_result_path", Literal::Text("$.nested"))),
            "",
            Documents::Columns(1, 3),
            Judge::RichExtrema,
            Rule::Nothing,
        ))
    } else if i == 27 {
        Some(bound_rows(
            "SQL-LOG-046 rich or missing companion behavior changed",
            Source::Statement("SQL-LOG-046", 1),
            Bind::Two(("extreme_source_path", Literal::Text("$.missing")), ("extreme_result_path", Literal::Text("$.host"))),
            "",
            Judge::Table(Table::FourNulls),
        ))
    } else if i == 28 {
        Some(rows(
            "SQL-LOG-046 mutated its public source",
            Source::Sql("SELECT metadata FROM logs ORDER BY ts"),
            "s",
            Judge::Remembered,
        ))
    } else if i == 29 {
        Some(documents(
            "SQL-LOG-047 typed or missing row_any behavior changed",
            Source::Statement("SQL-LOG-047", 0),
            Bind::Two(("row_any_path_1", Literal::Text("$.nested.ok")), ("row_any_path_2", Literal::Text("$.tags"))),
            "",
            Documents::Column(0),
            Judge::Count(1),
            Rule::TypedRowAny,
        ))
    } else if i == 30 {
        Some(bound_rows(
            "SQL-LOG-047 typed or missing row_any behavior changed",
            Source::Statement("SQL-LOG-047", 0),
            Bind::Two(("row_any_path_1", Literal::Text("$.missing")), ("row_any_path_2", Literal::Text("$.also_missing"))),
            "",
            Judge::Count(0),
        ))
    } else if i == 31 {
        Some(bound_rows(
            "SQL-LOG-047 empty row extrema changed",
            Source::Statement("SQL-LOG-047", 1),
            Bind::Three(("row_extreme_source_path", Literal::Text("$.missing")), ("row_result_path_1", Literal::Text("$.host")), ("row_result_path_2", Literal::Text("$.tags"))),
            "",
            Judge::Table(Table::EmptyObjects),
        ))
    } else if i == 32 {
        Some(documents(
            "SQL-LOG-047 array or missing result behavior changed",
            Source::Statement("SQL-LOG-047", 1),
            Bind::Three(("row_extreme_source_path", Literal::Text("$.duration_ms")), ("row_result_path_1", Literal::Text("$.missing")), ("row_result_path_2", Literal::Text("$.tags"))),
            "",
            Documents::All,
            Judge::Count(1),
            Rule::TagsArrays,
        ))
    } else if i == 33 {
        Some(rows(
            "SQL-LOG-047 mutated its public source",
            Source::Sql("SELECT metadata FROM logs ORDER BY ts"),
            "s",
            Judge::Remembered,
        ))
    } else {
        None
    }
}

/// The checks of lengths, copies, moves and formats.
pub open spec fn log_projection_step_at(i: int) -> Option<Step> {
    if i == 0 {
        Some(rows(
            "SQL-LOG-037 UTF-8/rich-value projection changed",
            Source::Sql("SELECT length('ßİ'), length(CAST('ßİ' AS BLOB))"),
            "ii",
            Judge::FirstRow(Table::UnicodeLengths),
        ))
    } else if i == 1 {
        Some(bound_rows(
            "SQL-LOG-037 UTF-8/rich-value projection changed",
            Source::Statement("SQL-LOG-037", 0),
            Bind::One(("len_source_path", Literal::Text("$.nested.none"))),
            "...i",
            Judge::Table(Table::NoLengths),
        ))
    } else if i == 2 {
        Some(bound_rows(
            "SQL-LOG-037 UTF-8/rich-value projection changed",
            Source::Statement("SQL-LOG-037", 0),
            Bind::One(("len_source_path", Literal::Text("$.deployment"))),
            "...i",
            Judge::Table(Table::NoLengths),
        ))
    } else if i == 3 {
        Some(bound_rows(
            "SQL-LOG-037 UTF-8/rich-value projection changed",
            Source::Statement("SQL-LOG-037", 0),
            Bind::One(("len_source_path", Literal::Text("$.nested.ok"))),
            "...i",
            Judge::Table(Table::FlagLengths),
        ))
    } else if i == 4 {
        Some(bound_rows(
            "SQL-LOG-037 UTF-8/rich-value projection changed",
            Source::Statement("SQL-LOG-037", 0),
            Bind::One(("len_source_path", Literal::Text("$.duration_ms"))),
            "...i",
            Judge::Table(Table::NumberLengths),
        ))
    } else if i == 5 {
        Some(bound_rows(
            "SQL-LOG-037 UTF-8/rich-value projection changed",
            Source::Statement("SQL-LOG-037", 0),
            Bind::One(("len_source_path", Literal::Text("$.missing"))),
            "...i",
            Judge::Table(Table::NoLengths),
        ))
    } else if i == 6 {
        Some(bound_rows(
            "SQL-LOG-032 boolean textual projection changed",
            Source::Statement("SQL-LOG-032", 0),
            Bind::Four(("source_path_1", Literal::Text("$.nested.ok")), ("source_path_2", Literal::Text("$.host")), ("source_path_3", Literal::Text("$.service")), ("default_value", Literal::Text("fallback"))),
            "....s",
            Judge::Table(Table::Trues),
        ))
    } else if i == 7 {
        Some(bound_rows(
            "SQL-LOG-032 numeric textual projection changed",
            Source::Statement("SQL-LOG-032", 0),
            Bind::Four(("source_path_1", Literal::Text("$.duration_ms")), ("source_path_2", Literal::Text("$.host")), ("source_path_3", Literal::Text("$.service")), ("default_value", Literal::Text("fallback"))),
            "....s",
            Judge::Table(Table::Durations),
        ))
    } else if i == 8 {
        Some(bound_rows(
            "SQL-LOG-032 default projection changed",
            Source::Statement("SQL-LOG-032", 0),
            Bind::Four(("source_path_1", Literal::Text("$.absent")), ("source_path_2", Literal::Text("$.missing")), ("source_path_3", Literal::Text("$.never")), ("default_value", Literal::Text("fallback"))),
            "....s",
            Judge::Table(Table::Fallbacks),
        ))
    } else if i == 9 {
        Some(documents(
            "SQL-LOG-033 boolean/string type preservation changed",
            Source::Statement("SQL-LOG-033", 0),
            Bind::Two(("copy_source_path", Literal::Text("$.nested.ok")), ("copy_destination_path", Literal::Text("$.copied"))),
            "...s",
            Documents::Column(0),
            Judge::Any,
            Rule::CopiedFlags,
        ))
    } else if i == 10 {
        Some(documents(
            "SQL-LOG-033 array preservation changed",
            Source::Statement("SQL-LOG-033", 0),
            Bind::Two(("copy_source_path", Literal::Text("$.tags")), ("copy_destination_path", Literal::Text("$.copied"))),
            "...s",
            Documents::Column(0),
            Judge::Any,
            Rule::CopiedArrays,
        ))
    } else if i == 11 {
        Some(documents(
            "SQL-LOG-033 flattened object-parent behavior changed",
            Source::Statement("SQL-LOG-033", 0),
            Bind::Two(("copy_source_path", Literal::Text("$.nested")), ("copy_destination_path", Literal::Text("$.copied"))),
            "...s",
            Documents::Column(0),
            Judge::Any,
            Rule::CopiedEmpty,
        ))
    } else if i == 12 {
        Some(documents(
            "SQL-LOG-033 missing-source behavior changed",
            Source::Statement("SQL-LOG-033", 0),
            Bind::Two(("copy_source_path", Literal::Text("$.absent")), ("copy_destination_path", Literal::Text("$.copied"))),
            "...s",
            Documents::Column(0),
            Judge::Any,
            Rule::CopiedEmpty,
        ))
    } else if i == 13 {
        Some(documents(
            "SQL-LOG-033 null/missing fidelity changed",
            Source::Statement("SQL-LOG-033", 0),
            Bind::Two(("copy_source_path", Literal::Text("$.nested.none")), ("copy_destination_path", Literal::Text("$.copied"))),
            "...s",
            Documents::Column(0),
            Judge::Any,
            Rule::CopiedNull,
        ))
    } else if i == 14 {
        Some(documents(
            "SQL-LOG-034 boolean/string move changed",
            Source::Statement("SQL-LOG-034", 0),
            Bind::Two(("rename_source_path", Literal::Text("$.nested.ok")), ("rename_destination_path", Literal::Text("$.moved"))),
            "...s",
            Documents::Column(0),
            Judge::Any,
            Rule::MovedFlags,
        ))
    } else if i == 15 {
        Some(documents(
            "SQL-LOG-034 array move changed",
            Source::Statement("SQL-LOG-034", 0),
            Bind::Two(("rename_source_path", Literal::Text("$.tags")), ("rename_destination_path", Literal::Text("$.moved"))),
            "...s",
            Documents::Column(0),
            Judge::Any,
            Rule::MovedArrays,
        ))
    } else if i == 16 {
        Some(documents(
            "SQL-LOG-034 flattened object-parent behavior changed",
            Source::Statement("SQL-LOG-034", 0),
            Bind::Two(("rename_source_path", Literal::Text("$.nested")), ("rename_destination_path", Literal::Text("$.moved"))),
            "...s",
            Documents::Column(0),
            Judge::Any,
            Rule::MovedParents,
        ))
    } else if i == 17 {
        Some(documents(
            "SQL-LOG-034 missing-source behavior changed",
            Source::Statement("SQL-LOG-034", 0),
            Bind::Two(("rename_source_path", Literal::Text("$.absent")), ("rename_destination_path", Literal::Text("$.moved"))),
            "...s",
            Documents::Column(0),
            Judge::Any,
            Rule::MovedEmpty,
        ))
    } else if i == 18 {
        Some(documents(
            "SQL-LOG-034 null/missing fidelity changed",
            Source::Statement("SQL-LOG-034", 0),
            Bind::Two(("rename_source_path", Literal::Text("$.nested.none")), ("rename_destination_path", Literal::Text("$.moved"))),
            "...s",
            Documents::Column(0),
            Judge::Any,
            Rule::MovedNull,
        ))
    } else if i == 19 {
        Some(documents(
            "SQL-LOG-034 exact identity changed",
            Source::Statement("SQL-LOG-034", 0),
            Bind::Two(("rename_source_path", Literal::Text("$.host")), ("rename_destination_path", Literal::Text("$.host"))),
            "...s",
            Documents::Column(0),
            Judge::Any,
            Rule::HostKept,
        ))
    } else if i == 20 {
        Some(documents(
            "SQL-LOG-034 destination overwrite changed",
            Source::Statement("SQL-LOG-034", 0),
            Bind::Two(("rename_source_path", Literal::Text("$.duration_ms")), ("rename_destination_path", Literal::Text("$.host"))),
            "...s",
            Documents::Column(0),
            Judge::Any,
            Rule::HostOverwritten,
        ))
    } else if i == 21 {
        Some(bound_rows(
            "SQL-LOG-035 boolean/numeric textual projection changed",
            Source::Statement("SQL-LOG-035", 0),
            Bind::Three(("format_source_path_1", Literal::Text("$.nested.ok")), ("format_source_path_2", Literal::Text("$.nested.count")), ("format_pattern", Literal::Text("%s|%s"))),
            "...s",
            Judge::Table(Table::FormattedFlags),
        ))
    } else if i == 22 {
        Some(bound_rows(
            "SQL-LOG-035 missing/null/empty projection changed",
            Source::Statement("SQL-LOG-035", 0),
            Bind::Three(("format_source_path_1", Literal::Text("$.absent")), ("format_source_path_2", Literal::Text("$.nested.empty")), ("format_pattern", Literal::Text("<%s>|<%s>"))),
            "...s",
            Judge::Table(Table::FormattedEmpty),
        ))
    } else if i == 23 {
        Some(bound_rows(
            "SQL-LOG-035 array/string textual projection changed",
            Source::Statement("SQL-LOG-035", 0),
            Bind::Three(("format_source_path_1", Literal::Text("$.tags")), ("format_source_path_2", Literal::Text("$.host")), ("format_pattern", Literal::Text("%s|%s"))),
            "...s",
            Judge::FormattedArrays,
        ))
    } else {
        None
    }
}

fn log_projection_step(i: usize) -> (step: Option<Step>)
    ensures
        step == log_projection_step_at(i as int),
{
    if i == 0 {
        Some(rows(
            "SQL-LOG-037 UTF-8/rich-value projection changed",
            Source::Sql("SELECT length('ßİ'), length(CAST('ßİ' AS BLOB))"),
            "ii",
            Judge::FirstRow(Table::UnicodeLengths),
        ))
    } else if i == 1 {
        Some(bound_rows(
            "SQL-LOG-037 UTF-8/rich-value projection changed",
            Source::Statement("SQL-LOG-037", 0),
            Bind::One(("len_source_path", Literal::Text("$.nested.none"))),
            "...i",
            Judge::Table(Table::NoLengths),
        ))
    } else if i == 2 {
        Some(bound_rows(
            "SQL-LOG-037 UTF-8/rich-value projection changed",
            Source::Statement("SQL-LOG-037", 0),
            Bind::One(("len_source_path", Literal::Text("$.deployment"))),
            "...i",
            Judge::Table(Table::NoLengths),
        ))
    } else if i == 3 {
        Some(bound_rows(
            "SQL-LOG-037 UTF-8/rich-value projection changed",
            Source::Statement("SQL-LOG-037", 0),
            Bind::One(("len_source_path", Literal::Text("$.nested.ok"))),
            "...i",
            Judge::Table(Table::FlagLengths),
        ))
    } else if i == 4 {
        Some(bound_rows(
            "SQL-LOG-037 UTF-8/rich-value projection changed",
            Source::Statement("SQL-LOG-037", 0),
            Bind::One(("len_source_path", Literal::Text("$.duration_ms"))),
            "...i",
            Judge::Table(Table::NumberLengths),
        ))
    } else if i == 5 {
        Some(bound_rows(
            "SQL-LOG-037 UTF-8/rich-value projection changed",
            Source::Statement("SQL-LOG-037", 0),
            Bind::One(("len_source_path", Literal::Text("$.missing"))),
            "...i",
            Judge::Table(Table::NoLengths),
        ))
    } else if i == 6 {
        Some(bound_rows(
            "SQL-LOG-032 boolean textual projection changed",
            Source::Statement("SQL-LOG-032", 0),
            Bind::Four(("source_path_1", Literal::Text("$.nested.ok")), ("source_path_2", Literal::Text("$.host")), ("source_path_3", Literal::Text("$.service")), ("default_value", Literal::Text("fallback"))),
            "....s",
            Judge::Table(Table::Trues),
        ))
    } else if i == 7 {
        Some(bound_rows(
            "SQL-LOG-032 numeric textual projection changed",
            Source::Statement("SQL-LOG-032", 0),
            Bind::Four(("source_path_1", Literal::Text("$.duration_ms")), ("source_path_2", Literal::Text("$.host")), ("source_path_3", Literal::Text("$.service")), ("default_value", Literal::Text("fallback"))),
            "....s",
            Judge::Table(Table::Durations),
        ))
    } else if i == 8 {
        Some(bound_rows(
            "SQL-LOG-032 default projection changed",
            Source::Statement("SQL-LOG-032", 0),
            Bind::Four(("source_path_1", Literal::Text("$.absent")), ("source_path_2", Literal::Text("$.missing")), ("source_path_3", Literal::Text("$.never")), ("default_value", Literal::Text("fallback"))),
            "....s",
            Judge::Table(Table::Fallbacks),
        ))
    } else if i == 9 {
        Some(documents(
            "SQL-LOG-033 boolean/string type preservation changed",
            Source::Statement("SQL-LOG-033", 0),
            Bind::Two(("copy_source_path", Literal::Text("$.nested.ok")), ("copy_destination_path", Literal::Text("$.copied"))),
            "...s",
            Documents::Column(0),
            Judge::Any,
            Rule::CopiedFlags,
        ))
    } else if i == 10 {
        Some(documents(
            "SQL-LOG-033 array preservation changed",
            Source::Statement("SQL-LOG-033", 0),
            Bind::Two(("copy_source_path", Literal::Text("$.tags")), ("copy_destination_path", Literal::Text("$.copied"))),
            "...s",
            Documents::Column(0),
            Judge::Any,
            Rule::CopiedArrays,
        ))
    } else if i == 11 {
        Some(documents(
            "SQL-LOG-033 flattened object-parent behavior changed",
            Source::Statement("SQL-LOG-033", 0),
            Bind::Two(("copy_source_path", Literal::Text("$.nested")), ("copy_destination_path", Literal::Text("$.copied"))),
            "...s",
            Documents::Column(0),
            Judge::Any,
            Rule::CopiedEmpty,
        ))
    } else if i == 12 {
        Some(documents(
            "SQL-LOG-033 missing-source behavior changed",
            Source::Statement("SQL-LOG-033", 0),
            Bind::Two(("copy_source_path", Literal::Text("$.absent")), ("copy_destination_path", Literal::Text("$.copied"))),
            "...s",
            Documents::Column(0),
            Judge::Any,
            Rule::CopiedEmpty,
        ))
    } else if i == 13 {
        Some(documents(
            "SQL-LOG-033 null/missing fidelity changed",
            Source::Statement("SQL-LOG-033", 0),
            Bind::Two(("copy_source_path", Literal::Text("$.nested.none")), ("copy_destination_path", Literal::Text("$.copied"))),
            "...s",
            Documents::Column(0),
            Judge::Any,
            Rule::CopiedNull,
        ))
    } else if i == 14 {
        Some(documents(
            "SQL-LOG-034 boolean/string move changed",
            Source::Statement("SQL-LOG-034", 0),
            Bind::Two(("rename_source_path", Literal::Text("$.nested.ok")), ("rename_destination_path", Literal::Text("$.moved"))),
            "...s",
            Documents::Column(0),
            Judge::Any,
            Rule::MovedFlags,
        ))
    } else if i == 15 {
        Some(documents(
            "SQL-LOG-034 array move changed",
            Source::Statement("SQL-LOG-034", 0),
            Bind::Two(("rename_source_path", Literal::Text("$.tags")), ("rename_destination_path", Literal::Text("$.moved"))),
            "...s",
            Documents::Column(0),
            Judge::Any,
            Rule::MovedArrays,
        ))
    } else if i == 16 {
        Some(documents(
            "SQL-LOG-034 flattened object-parent behavior changed",
            Source::Statement("SQL-LOG-034", 0),
            Bind::Two(("rename_source_path", Literal::Text("$.nested")), ("rename_destination_path", Literal::Text("$.moved"))),
            "...s",
            Documents::Column(0),
            Judge::Any,
            Rule::MovedParents,
        ))
    } else if i == 17 {
        Some(documents(
            "SQL-LOG-034 missing-source behavior changed",
            Source::Statement("SQL-LOG-034", 0),
            Bind::Two(("rename_source_path", Literal::Text("$.absent")), ("rename_destination_path", Literal::Text("$.moved"))),
            "...s",
            Documents::Column(0),
            Judge::Any,
            Rule::MovedEmpty,
        ))
    } else if i == 18 {
        Some(documents(
            "SQL-LOG-034 null/missing fidelity changed",
            Source::Statement("SQL-LOG-034", 0),
            Bind::Two(("rename_source_path", Literal::Text("$.nested.none")), ("rename_destination_path", Literal::Text("$.moved"))),
            "...s",
            Documents::Column(0),
            Judge::Any,
            Rule::MovedNull,
        ))
    } else if i == 19 {
        Some(documents(
            "SQL-LOG-034 exact identity changed",
            Source::Statement("SQL-LOG-034", 0),
            Bind::Two(("rename_source_path", Literal::Text("$.host")), ("rename_destination_path", Literal::Text("$.host"))),
            "...s",
            Documents::Column(0),
            Judge::Any,
            Rule::HostKept,
        ))
    } else if i == 20 {
        Some(documents(
            "SQL-LOG-034 destination overwrite changed",
            Source::Statement("SQL-LOG-034", 0),
            Bind::Two(("rename_source_path", Literal::Text("$.duration_ms")), ("rename_destination_path", Literal::Text("$.host"))),
            "...s",
            Documents::Column(0),
            Judge::Any,
            Rule::HostOverwritten,
        ))
    } else if i == 21 {
        Some(bound_rows(
            "SQL-LOG-035 boolean/numeric textual projection changed",
            Source::Statement("SQL-LOG-035", 0),
            Bind::Three(("format_source_path_1", Literal::Text("$.nested.ok")), ("format_source_path_2", Literal::Text("$.nested.count")), ("format_pattern", Literal::Text("%s|%s"))),
            "...s",
            Judge::Table(Table::FormattedFlags),
        ))
    } else if i == 22 {
        Some(bound_rows(
            "SQL-LOG-035 missing/null/empty projection changed",
            Source::Statement("SQL-LOG-035", 0),
            Bind::Three(("format_source_path_1", Literal::Text("$.absent")), ("format_source_path_2", Literal::Text("$.nested.empty")), ("format_pattern", Literal::Text("<%s>|<%s>"))),
            "...s",
            Judge::Table(Table::FormattedEmpty),
        ))
    } else if i == 23 {
        Some(bound_rows(
            "SQL-LOG-035 array/string textual projection changed",
            Source::Statement("SQL-LOG-035", 0),
            Bind::Three(("format_source_path_1", Literal::Text("$.tags")), ("format_source_path_2", Literal::Text("$.host")), ("format_pattern", Literal::Text("%s|%s"))),
            "...s",
            Judge::FormattedArrays,
        ))
    } else {
        None
    }
}

/// The checks of facets, groups and membership.
pub open spec fn log_membership_step_at(i: int) -> Option<Step> {
    if i == 0 {
        Some(bound_rows(
            "SQL-LOG-031 keep-constant result changed",
            Source::Statement("SQL-LOG-031", 0),
            Bind::Four(("max_values_per_field", Literal::Integer(1000)), ("max_value_len", Literal::Integer(128)), ("keep_const_fields", Literal::Integer(1)), ("max_result_rows", Literal::Integer(100))),
            "",
            Judge::Holds(Table::ConstantFacets),
        ))
    } else if i == 1 {
        Some(bound_rows(
            "SQL-LOG-031 must drop high-cardinality and constant fields",
            Source::Statement("SQL-LOG-031", 0),
            Bind::Four(("max_values_per_field", Literal::Integer(1)), ("max_value_len", Literal::Integer(128)), ("keep_const_fields", Literal::Integer(0)), ("max_result_rows", Literal::Integer(100))),
            "",
            Judge::Count(0),
        ))
    } else if i == 2 {
        Some(bound_rows(
            "SQL-LOG-031 byte-length filtering changed",
            Source::Statement("SQL-LOG-031", 0),
            Bind::Four(("max_values_per_field", Literal::Integer(1000)), ("max_value_len", Literal::Integer(5)), ("keep_const_fields", Literal::Integer(0)), ("max_result_rows", Literal::Integer(100))),
            "",
            Judge::ShortFacets,
        ))
    } else if i == 3 {
        Some(bound_rows(
            "SQL-LOG-031 must fail closed when the result limit is exceeded",
            Source::Statement("SQL-LOG-031", 0),
            Bind::Four(("max_values_per_field", Literal::Integer(1000)), ("max_value_len", Literal::Integer(128)), ("keep_const_fields", Literal::Integer(0)), ("max_result_rows", Literal::Integer(2))),
            "",
            Judge::Count(0),
        ))
    } else if i == 4 {
        Some(bound_rows(
            "SQL-LOG-030 filter/without-hits behavior changed",
            Source::Statement("SQL-LOG-030", 0),
            Bind::Four(("group_path", Literal::Text("$.host")), ("filter_text", Literal::Text("web-2")), ("uniq_limit", Literal::Integer(0)), ("with_hits", Literal::Integer(0))),
            "",
            Judge::Table(Table::FilteredHost),
        ))
    } else if i == 5 {
        Some(bound_rows(
            "SQL-LOG-030 overflow-hit behavior changed",
            Source::Statement("SQL-LOG-030", 0),
            Bind::Four(("group_path", Literal::Text("$.host")), ("filter_text", Literal::Text("")), ("uniq_limit", Literal::Integer(1)), ("with_hits", Literal::Integer(1))),
            "",
            Judge::Table(Table::OverflowHost),
        ))
    } else if i == 6 {
        Some(bound_rows(
            "SQL-LOG-030 empty/null/missing behavior changed at $.nested.none",
            Source::Statement("SQL-LOG-030", 0),
            Bind::Four(("group_path", Literal::Text("$.nested.none")), ("filter_text", Literal::Text("")), ("uniq_limit", Literal::Integer(0)), ("with_hits", Literal::Integer(1))),
            "",
            Judge::Table(Table::EmptyGroup),
        ))
    } else if i == 7 {
        Some(bound_rows(
            "SQL-LOG-030 empty/null/missing behavior changed at $.nested.empty",
            Source::Statement("SQL-LOG-030", 0),
            Bind::Four(("group_path", Literal::Text("$.nested.empty")), ("filter_text", Literal::Text("")), ("uniq_limit", Literal::Integer(0)), ("with_hits", Literal::Integer(1))),
            "",
            Judge::Table(Table::EmptyGroup),
        ))
    } else if i == 8 {
        Some(bound_rows(
            "SQL-LOG-017 membership changed",
            Source::Statement("SQL-LOG-017", 0),
            Bind::Three(("array_value_1", Literal::Text("123")), ("array_value_2", Literal::Text("missing")), ("field_path", Literal::Text("$.tags"))),
            "i",
            Judge::Table(Table::SecondThenFirst),
        ))
    } else if i == 9 {
        Some(bound_rows(
            "SQL-LOG-017 membership changed",
            Source::Statement("SQL-LOG-017", 0),
            Bind::Three(("array_value_1", Literal::Text("true")), ("array_value_2", Literal::Text("null")), ("field_path", Literal::Text("$.tags"))),
            "i",
            Judge::Table(Table::OnlyFirst),
        ))
    } else if i == 10 {
        Some(bound_rows(
            "SQL-LOG-017 membership changed",
            Source::Statement("SQL-LOG-017", 0),
            Bind::Three(("array_value_1", Literal::Text("false")), ("array_value_2", Literal::Text("missing")), ("field_path", Literal::Text("$.tags"))),
            "i",
            Judge::Table(Table::OnlyFirst),
        ))
    } else if i == 11 {
        Some(bound_rows(
            "SQL-LOG-017 membership changed",
            Source::Statement("SQL-LOG-017", 0),
            Bind::Three(("array_value_1", Literal::Text("1.5")), ("array_value_2", Literal::Text("-2")), ("field_path", Literal::Text("$.tags"))),
            "i",
            Judge::Table(Table::OnlySecond),
        ))
    } else if i == 12 {
        Some(bound_rows(
            "SQL-LOG-017 membership changed",
            Source::Statement("SQL-LOG-017", 0),
            Bind::Three(("array_value_1", Literal::Text("")), ("array_value_2", Literal::Text("missing")), ("field_path", Literal::Text("$.tags"))),
            "i",
            Judge::Table(Table::OnlyFirst),
        ))
    } else if i == 13 {
        Some(bound_rows(
            "SQL-LOG-017 membership changed",
            Source::Statement("SQL-LOG-017", 0),
            Bind::Three(("array_value_1", Literal::Text("a/b")), ("array_value_2", Literal::Text("ab")), ("field_path", Literal::Text("$.tags"))),
            "i",
            Judge::Table(Table::SecondThenFirst),
        ))
    } else if i == 14 {
        Some(bound_rows(
            "SQL-LOG-017 membership changed",
            Source::Statement("SQL-LOG-017", 0),
            Bind::Three(("array_value_1", Literal::Text(r#"a"b"#)), ("array_value_2", Literal::Text("a\nb")), ("field_path", Literal::Text("$.tags"))),
            "i",
            Judge::Table(Table::OnlySecond),
        ))
    } else if i == 15 {
        Some(bound_rows(
            "SQL-LOG-017 membership changed",
            Source::Statement("SQL-LOG-017", 0),
            Bind::Three(("array_value_1", Literal::Text("*")), ("array_value_2", Literal::Text("missing")), ("field_path", Literal::Text("$.tags"))),
            "i",
            Judge::Table(Table::OnlyFirst),
        ))
    } else if i == 16 {
        Some(bound_rows(
            "SQL-LOG-017 membership changed",
            Source::Statement("SQL-LOG-017", 0),
            Bind::Three(("array_value_1", Literal::Text(r#"{"nested":"ignored"}"#)), ("array_value_2", Literal::Text(r#"["ignored"]"#)), ("field_path", Literal::Text("$.tags"))),
            "i",
            Judge::Count(0),
        ))
    } else if i == 17 {
        Some(bound_rows(
            "SQL-LOG-017 membership changed",
            Source::Statement("SQL-LOG-017", 0),
            Bind::Three(("array_value_1", Literal::Text("us-east")), ("array_value_2", Literal::Text("missing")), ("field_path", Literal::Text("$.deployment.region"))),
            "i",
            Judge::Count(0),
        ))
    } else if i == 18 {
        Some(bound_rows(
            "SQL-LOG-017 membership changed",
            Source::Statement("SQL-LOG-017", 0),
            Bind::Three(("array_value_1", Literal::Text("prod")), ("array_value_2", Literal::Text("missing")), ("field_path", Literal::Text("$.absent"))),
            "i",
            Judge::Count(0),
        ))
    } else if i == 19 {
        Some(bound_rows(
            "SQL-LOG-018 bounds changed",
            Source::Statement("SQL-LOG-018", 0),
            Bind::Three(("ipv4_min", Literal::Integer(167_772_161)), ("ipv4_max", Literal::Integer(167_772_161)), ("field_path", Literal::Text("$.client_ip"))),
            "i",
            Judge::Table(Table::OnlyFirst),
        ))
    } else if i == 20 {
        Some(bound_rows(
            "SQL-LOG-018 bounds changed",
            Source::Statement("SQL-LOG-018", 0),
            Bind::Three(("ipv4_min", Literal::Integer(167_772_417)), ("ipv4_max", Literal::Integer(167_772_417)), ("field_path", Literal::Text("$.client_ip"))),
            "i",
            Judge::Table(Table::OnlySecond),
        ))
    } else if i == 21 {
        Some(bound_rows(
            "SQL-LOG-018 bounds changed",
            Source::Statement("SQL-LOG-018", 0),
            Bind::Three(("ipv4_min", Literal::Integer(0)), ("ipv4_max", Literal::Integer(4_294_967_295)), ("field_path", Literal::Text("$.client_ip"))),
            "i",
            Judge::Table(Table::SecondThenFirst),
        ))
    } else if i == 22 {
        Some(bound_rows(
            "SQL-LOG-018 bounds changed",
            Source::Statement("SQL-LOG-018", 0),
            Bind::Three(("ipv4_min", Literal::Integer(167_772_672)), ("ipv4_max", Literal::Integer(167_772_160)), ("field_path", Literal::Text("$.client_ip"))),
            "i",
            Judge::Count(0),
        ))
    } else if i == 23 {
        Some(bound_rows(
            "SQL-LOG-018 bounds changed",
            Source::Statement("SQL-LOG-018", 0),
            Bind::Three(("ipv4_min", Literal::Integer(0)), ("ipv4_max", Literal::Integer(4_294_967_295)), ("field_path", Literal::Text("$.service"))),
            "i",
            Judge::Count(0),
        ))
    } else if i == 24 {
        Some(bound_rows(
            "SQL-LOG-018 bounds changed",
            Source::Statement("SQL-LOG-018", 0),
            Bind::Three(("ipv4_min", Literal::Integer(0)), ("ipv4_max", Literal::Integer(4_294_967_295)), ("field_path", Literal::Text("$.duration_ms"))),
            "i",
            Judge::Count(0),
        ))
    } else if i == 25 {
        Some(bound_rows(
            "SQL-LOG-018 bounds changed",
            Source::Statement("SQL-LOG-018", 0),
            Bind::Three(("ipv4_min", Literal::Integer(0)), ("ipv4_max", Literal::Integer(4_294_967_295)), ("field_path", Literal::Text("$.absent"))),
            "i",
            Judge::Count(0),
        ))
    } else {
        None
    }
}

fn log_membership_step(i: usize) -> (step: Option<Step>)
    ensures
        step == log_membership_step_at(i as int),
{
    if i == 0 {
        Some(bound_rows(
            "SQL-LOG-031 keep-constant result changed",
            Source::Statement("SQL-LOG-031", 0),
            Bind::Four(("max_values_per_field", Literal::Integer(1000)), ("max_value_len", Literal::Integer(128)), ("keep_const_fields", Literal::Integer(1)), ("max_result_rows", Literal::Integer(100))),
            "",
            Judge::Holds(Table::ConstantFacets),
        ))
    } else if i == 1 {
        Some(bound_rows(
            "SQL-LOG-031 must drop high-cardinality and constant fields",
            Source::Statement("SQL-LOG-031", 0),
            Bind::Four(("max_values_per_field", Literal::Integer(1)), ("max_value_len", Literal::Integer(128)), ("keep_const_fields", Literal::Integer(0)), ("max_result_rows", Literal::Integer(100))),
            "",
            Judge::Count(0),
        ))
    } else if i == 2 {
        Some(bound_rows(
            "SQL-LOG-031 byte-length filtering changed",
            Source::Statement("SQL-LOG-031", 0),
            Bind::Four(("max_values_per_field", Literal::Integer(1000)), ("max_value_len", Literal::Integer(5)), ("keep_const_fields", Literal::Integer(0)), ("max_result_rows", Literal::Integer(100))),
            "",
            Judge::ShortFacets,
        ))
    } else if i == 3 {
        Some(bound_rows(
            "SQL-LOG-031 must fail closed when the result limit is exceeded",
            Source::Statement("SQL-LOG-031", 0),
            Bind::Four(("max_values_per_field", Literal::Integer(1000)), ("max_value_len", Literal::Integer(128)), ("keep_const_fields", Literal::Integer(0)), ("max_result_rows", Literal::Integer(2))),
            "",
            Judge::Count(0),
        ))
    } else if i == 4 {
        Some(bound_rows(
            "SQL-LOG-030 filter/without-hits behavior changed",
            Source::Statement("SQL-LOG-030", 0),
            Bind::Four(("group_path", Literal::Text("$.host")), ("filter_text", Literal::Text("web-2")), ("uniq_limit", Literal::Integer(0)), ("with_hits", Literal::Integer(0))),
            "",
            Judge::Table(Table::FilteredHost),
        ))
    } else if i == 5 {
        Some(bound_rows(
            "SQL-LOG-030 overflow-hit behavior changed",
            Source::Statement("SQL-LOG-030", 0),
            Bind::Four(("group_path", Literal::Text("$.host")), ("filter_text", Literal::Text("")), ("uniq_limit", Literal::Integer(1)), ("with_hits", Literal::Integer(1))),
            "",
            Judge::Table(Table::OverflowHost),
        ))
    } else if i == 6 {
        Some(bound_rows(
            "SQL-LOG-030 empty/null/missing behavior changed at $.nested.none",
            Source::Statement("SQL-LOG-030", 0),
            Bind::Four(("group_path", Literal::Text("$.nested.none")), ("filter_text", Literal::Text("")), ("uniq_limit", Literal::Integer(0)), ("with_hits", Literal::Integer(1))),
            "",
            Judge::Table(Table::EmptyGroup),
        ))
    } else if i == 7 {
        Some(bound_rows(
            "SQL-LOG-030 empty/null/missing behavior changed at $.nested.empty",
            Source::Statement("SQL-LOG-030", 0),
            Bind::Four(("group_path", Literal::Text("$.nested.empty")), ("filter_text", Literal::Text("")), ("uniq_limit", Literal::Integer(0)), ("with_hits", Literal::Integer(1))),
            "",
            Judge::Table(Table::EmptyGroup),
        ))
    } else if i == 8 {
        Some(bound_rows(
            "SQL-LOG-017 membership changed",
            Source::Statement("SQL-LOG-017", 0),
            Bind::Three(("array_value_1", Literal::Text("123")), ("array_value_2", Literal::Text("missing")), ("field_path", Literal::Text("$.tags"))),
            "i",
            Judge::Table(Table::SecondThenFirst),
        ))
    } else if i == 9 {
        Some(bound_rows(
            "SQL-LOG-017 membership changed",
            Source::Statement("SQL-LOG-017", 0),
            Bind::Three(("array_value_1", Literal::Text("true")), ("array_value_2", Literal::Text("null")), ("field_path", Literal::Text("$.tags"))),
            "i",
            Judge::Table(Table::OnlyFirst),
        ))
    } else if i == 10 {
        Some(bound_rows(
            "SQL-LOG-017 membership changed",
            Source::Statement("SQL-LOG-017", 0),
            Bind::Three(("array_value_1", Literal::Text("false")), ("array_value_2", Literal::Text("missing")), ("field_path", Literal::Text("$.tags"))),
            "i",
            Judge::Table(Table::OnlyFirst),
        ))
    } else if i == 11 {
        Some(bound_rows(
            "SQL-LOG-017 membership changed",
            Source::Statement("SQL-LOG-017", 0),
            Bind::Three(("array_value_1", Literal::Text("1.5")), ("array_value_2", Literal::Text("-2")), ("field_path", Literal::Text("$.tags"))),
            "i",
            Judge::Table(Table::OnlySecond),
        ))
    } else if i == 12 {
        Some(bound_rows(
            "SQL-LOG-017 membership changed",
            Source::Statement("SQL-LOG-017", 0),
            Bind::Three(("array_value_1", Literal::Text("")), ("array_value_2", Literal::Text("missing")), ("field_path", Literal::Text("$.tags"))),
            "i",
            Judge::Table(Table::OnlyFirst),
        ))
    } else if i == 13 {
        Some(bound_rows(
            "SQL-LOG-017 membership changed",
            Source::Statement("SQL-LOG-017", 0),
            Bind::Three(("array_value_1", Literal::Text("a/b")), ("array_value_2", Literal::Text("ab")), ("field_path", Literal::Text("$.tags"))),
            "i",
            Judge::Table(Table::SecondThenFirst),
        ))
    } else if i == 14 {
        Some(bound_rows(
            "SQL-LOG-017 membership changed",
            Source::Statement("SQL-LOG-017", 0),
            Bind::Three(("array_value_1", Literal::Text(r#"a"b"#)), ("array_value_2", Literal::Text("a\nb")), ("field_path", Literal::Text("$.tags"))),
            "i",
            Judge::Table(Table::OnlySecond),
        ))
    } else if i == 15 {
        Some(bound_rows(
            "SQL-LOG-017 membership changed",
            Source::Statement("SQL-LOG-017", 0),
            Bind::Three(("array_value_1", Literal::Text("*")), ("array_value_2", Literal::Text("missing")), ("field_path", Literal::Text("$.tags"))),
            "i",
            Judge::Table(Table::OnlyFirst),
        ))
    } else if i == 16 {
        Some(bound_rows(
            "SQL-LOG-017 membership changed",
            Source::Statement("SQL-LOG-017", 0),
            Bind::Three(("array_value_1", Literal::Text(r#"{"nested":"ignored"}"#)), ("array_value_2", Literal::Text(r#"["ignored"]"#)), ("field_path", Literal::Text("$.tags"))),
            "i",
            Judge::Count(0),
        ))
    } else if i == 17 {
        Some(bound_rows(
            "SQL-LOG-017 membership changed",
            Source::Statement("SQL-LOG-017", 0),
            Bind::Three(("array_value_1", Literal::Text("us-east")), ("array_value_2", Literal::Text("missing")), ("field_path", Literal::Text("$.deployment.region"))),
            "i",
            Judge::Count(0),
        ))
    } else if i == 18 {
        Some(bound_rows(
            "SQL-LOG-017 membership changed",
            Source::Statement("SQL-LOG-017", 0),
            Bind::Three(("array_value_1", Literal::Text("prod")), ("array_value_2", Literal::Text("missing")), ("field_path", Literal::Text("$.absent"))),
            "i",
            Judge::Count(0),
        ))
    } else if i == 19 {
        Some(bound_rows(
            "SQL-LOG-018 bounds changed",
            Source::Statement("SQL-LOG-018", 0),
            Bind::Three(("ipv4_min", Literal::Integer(167_772_161)), ("ipv4_max", Literal::Integer(167_772_161)), ("field_path", Literal::Text("$.client_ip"))),
            "i",
            Judge::Table(Table::OnlyFirst),
        ))
    } else if i == 20 {
        Some(bound_rows(
            "SQL-LOG-018 bounds changed",
            Source::Statement("SQL-LOG-018", 0),
            Bind::Three(("ipv4_min", Literal::Integer(167_772_417)), ("ipv4_max", Literal::Integer(167_772_417)), ("field_path", Literal::Text("$.client_ip"))),
            "i",
            Judge::Table(Table::OnlySecond),
        ))
    } else if i == 21 {
        Some(bound_rows(
            "SQL-LOG-018 bounds changed",
            Source::Statement("SQL-LOG-018", 0),
            Bind::Three(("ipv4_min", Literal::Integer(0)), ("ipv4_max", Literal::Integer(4_294_967_295)), ("field_path", Literal::Text("$.client_ip"))),
            "i",
            Judge::Table(Table::SecondThenFirst),
        ))
    } else if i == 22 {
        Some(bound_rows(
            "SQL-LOG-018 bounds changed",
            Source::Statement("SQL-LOG-018", 0),
            Bind::Three(("ipv4_min", Literal::Integer(167_772_672)), ("ipv4_max", Literal::Integer(167_772_160)), ("field_path", Literal::Text("$.client_ip"))),
            "i",
            Judge::Count(0),
        ))
    } else if i == 23 {
        Some(bound_rows(
            "SQL-LOG-018 bounds changed",
            Source::Statement("SQL-LOG-018", 0),
            Bind::Three(("ipv4_min", Literal::Integer(0)), ("ipv4_max", Literal::Integer(4_294_967_295)), ("field_path", Literal::Text("$.service"))),
            "i",
            Judge::Count(0),
        ))
    } else if i == 24 {
        Some(bound_rows(
            "SQL-LOG-018 bounds changed",
            Source::Statement("SQL-LOG-018", 0),
            Bind::Three(("ipv4_min", Literal::Integer(0)), ("ipv4_max", Literal::Integer(4_294_967_295)), ("field_path", Literal::Text("$.duration_ms"))),
            "i",
            Judge::Count(0),
        ))
    } else if i == 25 {
        Some(bound_rows(
            "SQL-LOG-018 bounds changed",
            Source::Statement("SQL-LOG-018", 0),
            Bind::Three(("ipv4_min", Literal::Integer(0)), ("ipv4_max", Literal::Integer(4_294_967_295)), ("field_path", Literal::Text("$.absent"))),
            "i",
            Judge::Count(0),
        ))
    } else {
        None
    }
}

/// The checks of string and length bounds and of typed results.
pub open spec fn log_bounds_step_at(i: int) -> Option<Step> {
    if i == 0 {
        Some(bound_rows(
            "SQL-LOG-019 bounds changed",
            Source::Statement("SQL-LOG-019", 0),
            Bind::Three(("string_min", Literal::Text("us-east")), ("string_max", Literal::Text("us-west")), ("field_path", Literal::Text("$.deployment.region"))),
            "i",
            Judge::Table(Table::OnlyFirst),
        ))
    } else if i == 1 {
        Some(bound_rows(
            "SQL-LOG-019 bounds changed",
            Source::Statement("SQL-LOG-019", 0),
            Bind::Three(("string_min", Literal::Text("us-")), ("string_max", Literal::Text("ut")), ("field_path", Literal::Text("$.deployment.region"))),
            "i",
            Judge::Table(Table::SecondThenFirst),
        ))
    } else if i == 2 {
        Some(bound_rows(
            "SQL-LOG-019 bounds changed",
            Source::Statement("SQL-LOG-019", 0),
            Bind::Three(("string_min", Literal::Text("")), ("string_max", Literal::Text("!")), ("field_path", Literal::Text("$.nested.none"))),
            "i",
            Judge::Table(Table::SecondThenFirst),
        ))
    } else if i == 3 {
        Some(bound_rows(
            "SQL-LOG-019 bounds changed",
            Source::Statement("SQL-LOG-019", 0),
            Bind::Three(("string_min", Literal::Text("")), ("string_max", Literal::Text("!")), ("field_path", Literal::Text("$.nested.empty"))),
            "i",
            Judge::Table(Table::SecondThenFirst),
        ))
    } else if i == 4 {
        Some(bound_rows(
            "SQL-LOG-019 bounds changed",
            Source::Statement("SQL-LOG-019", 0),
            Bind::Three(("string_min", Literal::Text("")), ("string_max", Literal::Text("!")), ("field_path", Literal::Text("$.absent"))),
            "i",
            Judge::Table(Table::SecondThenFirst),
        ))
    } else if i == 5 {
        Some(bound_rows(
            "SQL-LOG-019 bounds changed",
            Source::Statement("SQL-LOG-019", 0),
            Bind::Three(("string_min", Literal::Text("")), ("string_max", Literal::Text("")), ("field_path", Literal::Text("$.deployment.region"))),
            "i",
            Judge::Count(0),
        ))
    } else if i == 6 {
        Some(bound_rows(
            "SQL-LOG-019 bounds changed",
            Source::Statement("SQL-LOG-019", 0),
            Bind::Three(("string_min", Literal::Text("z")), ("string_max", Literal::Text("a")), ("field_path", Literal::Text("$.deployment.region"))),
            "i",
            Judge::Count(0),
        ))
    } else if i == 7 {
        Some(bound_rows(
            "SQL-LOG-019 bounds changed",
            Source::Statement("SQL-LOG-019", 0),
            Bind::Three(("string_min", Literal::Text("0")), ("string_max", Literal::Text("9")), ("field_path", Literal::Text("$.duration_ms"))),
            "i",
            Judge::Count(0),
        ))
    } else if i == 8 {
        Some(bound_rows(
            "SQL-LOG-019 bounds changed",
            Source::Statement("SQL-LOG-019", 0),
            Bind::Three(("string_min", Literal::Text("0")), ("string_max", Literal::Text("2")), ("field_path", Literal::Text("$.client_ip"))),
            "i",
            Judge::Table(Table::SecondThenFirst),
        ))
    } else if i == 9 {
        Some(bound_rows(
            "SQL-LOG-020 bounds changed",
            Source::Statement("SQL-LOG-020", 0),
            Bind::Five(("length_min", Literal::Integer(7)), ("length_max", Literal::Integer(7)), ("field_path", Literal::Text("$.deployment.region")), ("start_ms", Literal::Integer(1000)), ("end_ms", Literal::Integer(2000))),
            "i",
            Judge::Table(Table::SecondThenFirst),
        ))
    } else if i == 10 {
        Some(bound_rows(
            "SQL-LOG-020 bounds changed",
            Source::Statement("SQL-LOG-020", 0),
            Bind::Five(("length_min", Literal::Integer(8)), ("length_max", Literal::Integer(8)), ("field_path", Literal::Text("$.deployment.region")), ("start_ms", Literal::Integer(1000)), ("end_ms", Literal::Integer(2000))),
            "i",
            Judge::Count(0),
        ))
    } else if i == 11 {
        Some(bound_rows(
            "SQL-LOG-020 bounds changed",
            Source::Statement("SQL-LOG-020", 0),
            Bind::Five(("length_min", Literal::Integer(0)), ("length_max", Literal::Integer(0)), ("field_path", Literal::Text("$.nested.none")), ("start_ms", Literal::Integer(1000)), ("end_ms", Literal::Integer(2000))),
            "i",
            Judge::Table(Table::SecondThenFirst),
        ))
    } else if i == 12 {
        Some(bound_rows(
            "SQL-LOG-020 bounds changed",
            Source::Statement("SQL-LOG-020", 0),
            Bind::Five(("length_min", Literal::Integer(0)), ("length_max", Literal::Integer(0)), ("field_path", Literal::Text("$.nested.empty")), ("start_ms", Literal::Integer(1000)), ("end_ms", Literal::Integer(2000))),
            "i",
            Judge::Table(Table::SecondThenFirst),
        ))
    } else if i == 13 {
        Some(bound_rows(
            "SQL-LOG-020 bounds changed",
            Source::Statement("SQL-LOG-020", 0),
            Bind::Five(("length_min", Literal::Integer(0)), ("length_max", Literal::Integer(0)), ("field_path", Literal::Text("$.absent")), ("start_ms", Literal::Integer(1000)), ("end_ms", Literal::Integer(2000))),
            "i",
            Judge::Table(Table::SecondThenFirst),
        ))
    } else if i == 14 {
        Some(bound_rows(
            "SQL-LOG-020 bounds changed",
            Source::Statement("SQL-LOG-020", 0),
            Bind::Five(("length_min", Literal::Integer(1)), ("length_max", Literal::Integer(3)), ("field_path", Literal::Text("$.duration_ms")), ("start_ms", Literal::Integer(1000)), ("end_ms", Literal::Integer(2000))),
            "i",
            Judge::Count(0),
        ))
    } else if i == 15 {
        Some(bound_rows(
            "SQL-LOG-020 bounds changed",
            Source::Statement("SQL-LOG-020", 0),
            Bind::Five(("length_min", Literal::Integer(0)), ("length_max", Literal::Integer(100)), ("field_path", Literal::Text("$.deployment")), ("start_ms", Literal::Integer(1000)), ("end_ms", Literal::Integer(2000))),
            "i",
            Judge::Count(0),
        ))
    } else if i == 16 {
        Some(bound_rows(
            "SQL-LOG-020 bounds changed",
            Source::Statement("SQL-LOG-020", 0),
            Bind::Five(("length_min", Literal::Integer(8)), ("length_max", Literal::Integer(7)), ("field_path", Literal::Text("$.deployment.region")), ("start_ms", Literal::Integer(1000)), ("end_ms", Literal::Integer(2000))),
            "i",
            Judge::Count(0),
        ))
    } else if i == 17 {
        Some(rows(
            "SQL-LOG-010 field discovery changed",
            Source::Statement("SQL-LOG-010", 0),
            "",
            Judge::Table(Table::FieldNames),
        ))
    } else if i == 18 {
        Some(rows(
            "SQL-LOG-010 typed projection changed",
            Source::Statement("SQL-LOG-010", 1),
            "",
            Judge::Table(Table::Projection),
        ))
    } else if i == 19 {
        Some(rows(
            "SQL-LOG-011 empty counts changed",
            Source::Statement("SQL-LOG-011", 1),
            "",
            Judge::Table(Table::EmptyCounts),
        ))
    } else if i == 20 {
        Some(rows(
            "SQL-LOG-012 typed unique values changed",
            Source::Statement("SQL-LOG-012", 1),
            "",
            Judge::Table(Table::TypedValues),
        ))
    } else if i == 21 {
        Some(rows(
            "SQL-LOG-012 presence states changed",
            Source::Statement("SQL-LOG-012", 2),
            "",
            Judge::Table(Table::Presence),
        ))
    } else if i == 22 {
        Some(rows(
            "SQL-LOG-013 numeric aggregates changed",
            Source::Statement("SQL-LOG-013", 0),
            "",
            Judge::Table(Table::NumericAggregates),
        ))
    } else if i == 23 {
        Some(rows(
            "SQL-LOG-013 rate values changed",
            Source::Statement("SQL-LOG-013", 1),
            "",
            Judge::Rates,
        ))
    } else {
        None
    }
}

fn log_bounds_step(i: usize) -> (step: Option<Step>)
    ensures
        step == log_bounds_step_at(i as int),
{
    if i == 0 {
        Some(bound_rows(
            "SQL-LOG-019 bounds changed",
            Source::Statement("SQL-LOG-019", 0),
            Bind::Three(("string_min", Literal::Text("us-east")), ("string_max", Literal::Text("us-west")), ("field_path", Literal::Text("$.deployment.region"))),
            "i",
            Judge::Table(Table::OnlyFirst),
        ))
    } else if i == 1 {
        Some(bound_rows(
            "SQL-LOG-019 bounds changed",
            Source::Statement("SQL-LOG-019", 0),
            Bind::Three(("string_min", Literal::Text("us-")), ("string_max", Literal::Text("ut")), ("field_path", Literal::Text("$.deployment.region"))),
            "i",
            Judge::Table(Table::SecondThenFirst),
        ))
    } else if i == 2 {
        Some(bound_rows(
            "SQL-LOG-019 bounds changed",
            Source::Statement("SQL-LOG-019", 0),
            Bind::Three(("string_min", Literal::Text("")), ("string_max", Literal::Text("!")), ("field_path", Literal::Text("$.nested.none"))),
            "i",
            Judge::Table(Table::SecondThenFirst),
        ))
    } else if i == 3 {
        Some(bound_rows(
            "SQL-LOG-019 bounds changed",
            Source::Statement("SQL-LOG-019", 0),
            Bind::Three(("string_min", Literal::Text("")), ("string_max", Literal::Text("!")), ("field_path", Literal::Text("$.nested.empty"))),
            "i",
            Judge::Table(Table::SecondThenFirst),
        ))
    } else if i == 4 {
        Some(bound_rows(
            "SQL-LOG-019 bounds changed",
            Source::Statement("SQL-LOG-019", 0),
            Bind::Three(("string_min", Literal::Text("")), ("string_max", Literal::Text("!")), ("field_path", Literal::Text("$.absent"))),
            "i",
            Judge::Table(Table::SecondThenFirst),
        ))
    } else if i == 5 {
        Some(bound_rows(
            "SQL-LOG-019 bounds changed",
            Source::Statement("SQL-LOG-019", 0),
            Bind::Three(("string_min", Literal::Text("")), ("string_max", Literal::Text("")), ("field_path", Literal::Text("$.deployment.region"))),
            "i",
            Judge::Count(0),
        ))
    } else if i == 6 {
        Some(bound_rows(
            "SQL-LOG-019 bounds changed",
            Source::Statement("SQL-LOG-019", 0),
            Bind::Three(("string_min", Literal::Text("z")), ("string_max", Literal::Text("a")), ("field_path", Literal::Text("$.deployment.region"))),
            "i",
            Judge::Count(0),
        ))
    } else if i == 7 {
        Some(bound_rows(
            "SQL-LOG-019 bounds changed",
            Source::Statement("SQL-LOG-019", 0),
            Bind::Three(("string_min", Literal::Text("0")), ("string_max", Literal::Text("9")), ("field_path", Literal::Text("$.duration_ms"))),
            "i",
            Judge::Count(0),
        ))
    } else if i == 8 {
        Some(bound_rows(
            "SQL-LOG-019 bounds changed",
            Source::Statement("SQL-LOG-019", 0),
            Bind::Three(("string_min", Literal::Text("0")), ("string_max", Literal::Text("2")), ("field_path", Literal::Text("$.client_ip"))),
            "i",
            Judge::Table(Table::SecondThenFirst),
        ))
    } else if i == 9 {
        Some(bound_rows(
            "SQL-LOG-020 bounds changed",
            Source::Statement("SQL-LOG-020", 0),
            Bind::Five(("length_min", Literal::Integer(7)), ("length_max", Literal::Integer(7)), ("field_path", Literal::Text("$.deployment.region")), ("start_ms", Literal::Integer(1000)), ("end_ms", Literal::Integer(2000))),
            "i",
            Judge::Table(Table::SecondThenFirst),
        ))
    } else if i == 10 {
        Some(bound_rows(
            "SQL-LOG-020 bounds changed",
            Source::Statement("SQL-LOG-020", 0),
            Bind::Five(("length_min", Literal::Integer(8)), ("length_max", Literal::Integer(8)), ("field_path", Literal::Text("$.deployment.region")), ("start_ms", Literal::Integer(1000)), ("end_ms", Literal::Integer(2000))),
            "i",
            Judge::Count(0),
        ))
    } else if i == 11 {
        Some(bound_rows(
            "SQL-LOG-020 bounds changed",
            Source::Statement("SQL-LOG-020", 0),
            Bind::Five(("length_min", Literal::Integer(0)), ("length_max", Literal::Integer(0)), ("field_path", Literal::Text("$.nested.none")), ("start_ms", Literal::Integer(1000)), ("end_ms", Literal::Integer(2000))),
            "i",
            Judge::Table(Table::SecondThenFirst),
        ))
    } else if i == 12 {
        Some(bound_rows(
            "SQL-LOG-020 bounds changed",
            Source::Statement("SQL-LOG-020", 0),
            Bind::Five(("length_min", Literal::Integer(0)), ("length_max", Literal::Integer(0)), ("field_path", Literal::Text("$.nested.empty")), ("start_ms", Literal::Integer(1000)), ("end_ms", Literal::Integer(2000))),
            "i",
            Judge::Table(Table::SecondThenFirst),
        ))
    } else if i == 13 {
        Some(bound_rows(
            "SQL-LOG-020 bounds changed",
            Source::Statement("SQL-LOG-020", 0),
            Bind::Five(("length_min", Literal::Integer(0)), ("length_max", Literal::Integer(0)), ("field_path", Literal::Text("$.absent")), ("start_ms", Literal::Integer(1000)), ("end_ms", Literal::Integer(2000))),
            "i",
            Judge::Table(Table::SecondThenFirst),
        ))
    } else if i == 14 {
        Some(bound_rows(
            "SQL-LOG-020 bounds changed",
            Source::Statement("SQL-LOG-020", 0),
            Bind::Five(("length_min", Literal::Integer(1)), ("length_max", Literal::Integer(3)), ("field_path", Literal::Text("$.duration_ms")), ("start_ms", Literal::Integer(1000)), ("end_ms", Literal::Integer(2000))),
            "i",
            Judge::Count(0),
        ))
    } else if i == 15 {
        Some(bound_rows(
            "SQL-LOG-020 bounds changed",
            Source::Statement("SQL-LOG-020", 0),
            Bind::Five(("length_min", Literal::Integer(0)), ("length_max", Literal::Integer(100)), ("field_path", Literal::Text("$.deployment")), ("start_ms", Literal::Integer(1000)), ("end_ms", Literal::Integer(2000))),
            "i",
            Judge::Count(0),
        ))
    } else if i == 16 {
        Some(bound_rows(
            "SQL-LOG-020 bounds changed",
            Source::Statement("SQL-LOG-020", 0),
            Bind::Five(("length_min", Literal::Integer(8)), ("length_max", Literal::Integer(7)), ("field_path", Literal::Text("$.deployment.region")), ("start_ms", Literal::Integer(1000)), ("end_ms", Literal::Integer(2000))),
            "i",
            Judge::Count(0),
        ))
    } else if i == 17 {
        Some(rows(
            "SQL-LOG-010 field discovery changed",
            Source::Statement("SQL-LOG-010", 0),
            "",
            Judge::Table(Table::FieldNames),
        ))
    } else if i == 18 {
        Some(rows(
            "SQL-LOG-010 typed projection changed",
            Source::Statement("SQL-LOG-010", 1),
            "",
            Judge::Table(Table::Projection),
        ))
    } else if i == 19 {
        Some(rows(
            "SQL-LOG-011 empty counts changed",
            Source::Statement("SQL-LOG-011", 1),
            "",
            Judge::Table(Table::EmptyCounts),
        ))
    } else if i == 20 {
        Some(rows(
            "SQL-LOG-012 typed unique values changed",
            Source::Statement("SQL-LOG-012", 1),
            "",
            Judge::Table(Table::TypedValues),
        ))
    } else if i == 21 {
        Some(rows(
            "SQL-LOG-012 presence states changed",
            Source::Statement("SQL-LOG-012", 2),
            "",
            Judge::Table(Table::Presence),
        ))
    } else if i == 22 {
        Some(rows(
            "SQL-LOG-013 numeric aggregates changed",
            Source::Statement("SQL-LOG-013", 0),
            "",
            Judge::Table(Table::NumericAggregates),
        ))
    } else if i == 23 {
        Some(rows(
            "SQL-LOG-013 rate values changed",
            Source::Statement("SQL-LOG-013", 1),
            "",
            Judge::Rates,
        ))
    } else {
        None
    }
}

/// The checks of work limits and storage statistics.
pub open spec fn log_limit_step_at(i: int) -> Option<Step> {
    if i == 0 {
        Some(Step::Refused("SQL log row work limit changed", "SELECT message FROM logs WHERE message_contains='request' AND max_work_entries=1 ORDER BY ts LIMIT 2", "max_work_entries=1", ""))
    } else if i == 1 {
        Some(Step::Refused("SQL log row surface accepted invalid work guard", "SELECT message FROM logs WHERE max_work_entries=0", "", ""))
    } else if i == 2 {
        Some(Step::Refused("SQL log row surface accepted invalid work guard", "SELECT message FROM logs WHERE max_work_entries='not-an-integer'", "", ""))
    } else if i == 3 {
        Some(Step::Refused("SQL log row surface accepted invalid work guard", "SELECT message FROM logs WHERE max_work_entries=NULL", "", ""))
    } else if i == 4 {
        Some(rows(
            "SQL hidden-column unbounded NULL projection changed",
            Source::Sql("SELECT COUNT(*) FROM logs WHERE max_work_entries IS NULL"),
            "i",
            Judge::FirstRow(Table::Two),
        ))
    } else if i == 5 {
        Some(Step::Refused("timeless_log_count accepted an invalid work limit", "SELECT n FROM timeless_log_count('logs',NULL,NULL,NULL,NULL,0)", "max_work_entries must", "positive"))
    } else if i == 6 {
        Some(Step::Refused("timeless_log_values accepted an invalid work limit", "SELECT value FROM timeless_log_values('logs','host',NULL,NULL,NULL,NULL,10,0)", "max_work_entries must", "positive"))
    } else if i == 7 {
        Some(Step::Refused("timeless_log_count NULL guard accepted an invalid work limit", "SELECT n FROM timeless_log_count('logs',NULL,NULL,NULL,NULL,NULL)", "max_work_entries must", "positive"))
    } else if i == 8 {
        Some(Step::Refused("timeless_log_values NULL guard accepted an invalid work limit", "SELECT value FROM timeless_log_values('logs','host',NULL,NULL,NULL,NULL,10,NULL)", "max_work_entries must", "positive"))
    } else if i == 9 {
        Some(rows(
            "public log storage statistics changed",
            Source::Sql("SELECT key, value FROM timeless_stats('logs') WHERE key IN ( 'timestamp_unit','blocks','raw_blocks','compressed_blocks', 'buffered_entries','disk_entries','total_entries', 'bytes_on_disk','raw_bytes','compressed_bytes','terms', 'index_bytes','ts_min','ts_max', 'optimize_source_entries','optimize_source_bytes' )"),
            "sv",
            Judge::LogStats,
        ))
    } else if i == 10 {
        Some(Step::Insert(500, "info", "unicode", r#"{"probe":"é"}"#))
    } else if i == 11 {
        Some(Step::Execute("INSERT INTO logs(logs) VALUES ('flush')"))
    } else if i == 12 {
        Some(bound_rows(
            "SQL-LOG-020 Unicode codepoint length changed",
            Source::Statement("SQL-LOG-020", 0),
            Bind::Five(("length_min", Literal::Integer(1)), ("length_max", Literal::Integer(1)), ("field_path", Literal::Text("$.probe")), ("start_ms", Literal::Integer(500)), ("end_ms", Literal::Integer(500))),
            "i",
            Judge::Table(Table::At500),
        ))
    } else if i == 13 {
        Some(Step::Insert(3000, "notice", "newest nonmatching row", r#"{"deployment":{"region":"elsewhere"}}"#))
    } else if i == 14 {
        Some(Step::Insert(6002, "info", "duplicate prefix fixture", r#"{"dup_field":"same"}"#))
    } else if i == 15 {
        Some(Step::Insert(6002, "info", "duplicate prefix fixture", r#"{"dup_field":"same"}"#))
    } else if i == 16 {
        Some(Step::Execute("INSERT INTO logs(logs) VALUES ('flush')"))
    } else if i == 17 {
        Some(bound_rows(
            "SQL-LOG-014 applied the result limit before retained-field filtering",
            Source::Statement("SQL-LOG-014", 1),
            Bind::Two(("end_ms", Literal::Integer(3000)), ("limit", Literal::Integer(1))),
            "i",
            Judge::Table(Table::OnlySecond),
        ))
    } else if i == 18 {
        Some(bound_rows(
            "SQL-LOG-015 applied the result limit before retained-field filtering",
            Source::Statement("SQL-LOG-015", 2),
            Bind::Two(("end_ms", Literal::Integer(3000)), ("limit", Literal::Integer(1))),
            "i",
            Judge::Table(Table::OnlySecond),
        ))
    } else if i == 19 {
        Some(bound_rows(
            "SQL-LOG-017 applied the result limit before retained-field filtering",
            Source::Statement("SQL-LOG-017", 0),
            Bind::Two(("end_ms", Literal::Integer(3000)), ("limit", Literal::Integer(1))),
            "i",
            Judge::Table(Table::OnlyFirst),
        ))
    } else if i == 20 {
        Some(bound_rows(
            "SQL-LOG-018 applied the result limit before retained-field filtering",
            Source::Statement("SQL-LOG-018", 0),
            Bind::Two(("end_ms", Literal::Integer(3000)), ("limit", Literal::Integer(1))),
            "i",
            Judge::Table(Table::OnlyFirst),
        ))
    } else if i == 21 {
        Some(bound_rows(
            "SQL-LOG-019 applied the result limit before retained-field filtering",
            Source::Statement("SQL-LOG-019", 0),
            Bind::Two(("end_ms", Literal::Integer(3000)), ("limit", Literal::Integer(1))),
            "i",
            Judge::Table(Table::OnlySecond),
        ))
    } else if i == 22 {
        Some(bound_rows(
            "SQL-LOG-020 applied the result limit before retained-field filtering",
            Source::Statement("SQL-LOG-020", 0),
            Bind::Two(("end_ms", Literal::Integer(3000)), ("limit", Literal::Integer(1))),
            "i",
            Judge::Table(Table::OnlySecond),
        ))
    } else {
        None
    }
}

fn log_limit_step(i: usize) -> (step: Option<Step>)
    ensures
        step == log_limit_step_at(i as int),
{
    if i == 0 {
        Some(Step::Refused("SQL log row work limit changed", "SELECT message FROM logs WHERE message_contains='request' AND max_work_entries=1 ORDER BY ts LIMIT 2", "max_work_entries=1", ""))
    } else if i == 1 {
        Some(Step::Refused("SQL log row surface accepted invalid work guard", "SELECT message FROM logs WHERE max_work_entries=0", "", ""))
    } else if i == 2 {
        Some(Step::Refused("SQL log row surface accepted invalid work guard", "SELECT message FROM logs WHERE max_work_entries='not-an-integer'", "", ""))
    } else if i == 3 {
        Some(Step::Refused("SQL log row surface accepted invalid work guard", "SELECT message FROM logs WHERE max_work_entries=NULL", "", ""))
    } else if i == 4 {
        Some(rows(
            "SQL hidden-column unbounded NULL projection changed",
            Source::Sql("SELECT COUNT(*) FROM logs WHERE max_work_entries IS NULL"),
            "i",
            Judge::FirstRow(Table::Two),
        ))
    } else if i == 5 {
        Some(Step::Refused("timeless_log_count accepted an invalid work limit", "SELECT n FROM timeless_log_count('logs',NULL,NULL,NULL,NULL,0)", "max_work_entries must", "positive"))
    } else if i == 6 {
        Some(Step::Refused("timeless_log_values accepted an invalid work limit", "SELECT value FROM timeless_log_values('logs','host',NULL,NULL,NULL,NULL,10,0)", "max_work_entries must", "positive"))
    } else if i == 7 {
        Some(Step::Refused("timeless_log_count NULL guard accepted an invalid work limit", "SELECT n FROM timeless_log_count('logs',NULL,NULL,NULL,NULL,NULL)", "max_work_entries must", "positive"))
    } else if i == 8 {
        Some(Step::Refused("timeless_log_values NULL guard accepted an invalid work limit", "SELECT value FROM timeless_log_values('logs','host',NULL,NULL,NULL,NULL,10,NULL)", "max_work_entries must", "positive"))
    } else if i == 9 {
        Some(rows(
            "public log storage statistics changed",
            Source::Sql("SELECT key, value FROM timeless_stats('logs') WHERE key IN ( 'timestamp_unit','blocks','raw_blocks','compressed_blocks', 'buffered_entries','disk_entries','total_entries', 'bytes_on_disk','raw_bytes','compressed_bytes','terms', 'index_bytes','ts_min','ts_max', 'optimize_source_entries','optimize_source_bytes' )"),
            "sv",
            Judge::LogStats,
        ))
    } else if i == 10 {
        Some(Step::Insert(500, "info", "unicode", r#"{"probe":"é"}"#))
    } else if i == 11 {
        Some(Step::Execute("INSERT INTO logs(logs) VALUES ('flush')"))
    } else if i == 12 {
        Some(bound_rows(
            "SQL-LOG-020 Unicode codepoint length changed",
            Source::Statement("SQL-LOG-020", 0),
            Bind::Five(("length_min", Literal::Integer(1)), ("length_max", Literal::Integer(1)), ("field_path", Literal::Text("$.probe")), ("start_ms", Literal::Integer(500)), ("end_ms", Literal::Integer(500))),
            "i",
            Judge::Table(Table::At500),
        ))
    } else if i == 13 {
        Some(Step::Insert(3000, "notice", "newest nonmatching row", r#"{"deployment":{"region":"elsewhere"}}"#))
    } else if i == 14 {
        Some(Step::Insert(6002, "info", "duplicate prefix fixture", r#"{"dup_field":"same"}"#))
    } else if i == 15 {
        Some(Step::Insert(6002, "info", "duplicate prefix fixture", r#"{"dup_field":"same"}"#))
    } else if i == 16 {
        Some(Step::Execute("INSERT INTO logs(logs) VALUES ('flush')"))
    } else if i == 17 {
        Some(bound_rows(
            "SQL-LOG-014 applied the result limit before retained-field filtering",
            Source::Statement("SQL-LOG-014", 1),
            Bind::Two(("end_ms", Literal::Integer(3000)), ("limit", Literal::Integer(1))),
            "i",
            Judge::Table(Table::OnlySecond),
        ))
    } else if i == 18 {
        Some(bound_rows(
            "SQL-LOG-015 applied the result limit before retained-field filtering",
            Source::Statement("SQL-LOG-015", 2),
            Bind::Two(("end_ms", Literal::Integer(3000)), ("limit", Literal::Integer(1))),
            "i",
            Judge::Table(Table::OnlySecond),
        ))
    } else if i == 19 {
        Some(bound_rows(
            "SQL-LOG-017 applied the result limit before retained-field filtering",
            Source::Statement("SQL-LOG-017", 0),
            Bind::Two(("end_ms", Literal::Integer(3000)), ("limit", Literal::Integer(1))),
            "i",
            Judge::Table(Table::OnlyFirst),
        ))
    } else if i == 20 {
        Some(bound_rows(
            "SQL-LOG-018 applied the result limit before retained-field filtering",
            Source::Statement("SQL-LOG-018", 0),
            Bind::Two(("end_ms", Literal::Integer(3000)), ("limit", Literal::Integer(1))),
            "i",
            Judge::Table(Table::OnlyFirst),
        ))
    } else if i == 21 {
        Some(bound_rows(
            "SQL-LOG-019 applied the result limit before retained-field filtering",
            Source::Statement("SQL-LOG-019", 0),
            Bind::Two(("end_ms", Literal::Integer(3000)), ("limit", Literal::Integer(1))),
            "i",
            Judge::Table(Table::OnlySecond),
        ))
    } else if i == 22 {
        Some(bound_rows(
            "SQL-LOG-020 applied the result limit before retained-field filtering",
            Source::Statement("SQL-LOG-020", 0),
            Bind::Two(("end_ms", Literal::Integer(3000)), ("limit", Literal::Integer(1))),
            "i",
            Judge::Table(Table::OnlySecond),
        ))
    } else {
        None
    }
}

/// The checks of field comparisons and prefixes.
pub open spec fn log_comparison_step_at(i: int) -> Option<Step> {
    if i == 0 {
        Some(Step::Insert(4000, "info", "field comparison fixture", r#"{"left":2,"right":"2","null_left":null,"array_left":[1],"array_right":"[1]","lex_left":"bar","lex_right":"foo","numeric_left":"10","numeric_right":"2","large_left":18446744073709551615,"large_copy":18446744073709551615,"large_right":18446744073709551614}"#))
    } else if i == 1 {
        Some(Step::Insert(5000, "info", "newest nonmatching field comparison fixture", r#"{"left":2,"right":"3","null_left":"x","array_left":[2],"array_right":"[3]","lex_left":"z","lex_right":"a","numeric_left":"9","numeric_right":"2","large_left":18446744073709551615,"large_copy":18446744073709551614,"large_right":18446744073709551614}"#))
    } else if i == 2 {
        Some(Step::Execute("INSERT INTO logs(logs) VALUES ('flush')"))
    } else if i == 3 {
        Some(bound_rows(
            "SQL-LOG-021 eq comparison changed",
            Source::Statement("SQL-LOG-021", 0),
            Bind::Six(("comparison", Literal::Text("eq")), ("left_path", Literal::Text("$.left")), ("right_path", Literal::Text("$.right")), ("start_ms", Literal::Integer(4000)), ("end_ms", Literal::Integer(5000)), ("limit", Literal::Integer(1))),
            "i",
            Judge::Table(Table::At4000),
        ))
    } else if i == 4 {
        Some(bound_rows(
            "SQL-LOG-021 eq comparison changed",
            Source::Statement("SQL-LOG-021", 0),
            Bind::Six(("comparison", Literal::Text("eq")), ("left_path", Literal::Text("$.null_left")), ("right_path", Literal::Text("$.absent")), ("start_ms", Literal::Integer(4000)), ("end_ms", Literal::Integer(5000)), ("limit", Literal::Integer(1))),
            "i",
            Judge::Table(Table::At4000),
        ))
    } else if i == 5 {
        Some(bound_rows(
            "SQL-LOG-021 eq comparison changed",
            Source::Statement("SQL-LOG-021", 0),
            Bind::Six(("comparison", Literal::Text("eq")), ("left_path", Literal::Text("$.array_left")), ("right_path", Literal::Text("$.array_right")), ("start_ms", Literal::Integer(4000)), ("end_ms", Literal::Integer(5000)), ("limit", Literal::Integer(1))),
            "i",
            Judge::Table(Table::At4000),
        ))
    } else if i == 6 {
        Some(bound_rows(
            "SQL-LOG-021 le_text comparison changed",
            Source::Statement("SQL-LOG-021", 0),
            Bind::Six(("comparison", Literal::Text("le_text")), ("left_path", Literal::Text("$.lex_left")), ("right_path", Literal::Text("$.lex_right")), ("start_ms", Literal::Integer(4000)), ("end_ms", Literal::Integer(5000)), ("limit", Literal::Integer(1))),
            "i",
            Judge::Table(Table::At4000),
        ))
    } else if i == 7 {
        Some(bound_rows(
            "SQL-LOG-021 lt_text comparison changed",
            Source::Statement("SQL-LOG-021", 0),
            Bind::Six(("comparison", Literal::Text("lt_text")), ("left_path", Literal::Text("$.lex_left")), ("right_path", Literal::Text("$.lex_right")), ("start_ms", Literal::Integer(4000)), ("end_ms", Literal::Integer(5000)), ("limit", Literal::Integer(1))),
            "i",
            Judge::Table(Table::At4000),
        ))
    } else if i == 8 {
        Some(bound_rows(
            "SQL-LOG-021 lt_text comparison changed",
            Source::Statement("SQL-LOG-021", 0),
            Bind::Six(("comparison", Literal::Text("lt_text")), ("left_path", Literal::Text("$.numeric_left")), ("right_path", Literal::Text("$.numeric_right")), ("start_ms", Literal::Integer(4000)), ("end_ms", Literal::Integer(5000)), ("limit", Literal::Integer(1))),
            "i",
            Judge::Table(Table::At4000),
        ))
    } else if i == 9 {
        Some(bound_rows(
            "SQL-LOG-021 eq comparison changed",
            Source::Statement("SQL-LOG-021", 0),
            Bind::Six(("comparison", Literal::Text("eq")), ("left_path", Literal::Text("$.large_left")), ("right_path", Literal::Text("$.large_copy")), ("start_ms", Literal::Integer(4000)), ("end_ms", Literal::Integer(5000)), ("limit", Literal::Integer(1))),
            "i",
            Judge::Table(Table::At4000),
        ))
    } else if i == 10 {
        Some(bound_rows(
            "SQL-LOG-021 collapsed distinct retained u64 values through binary64",
            Source::Statement("SQL-LOG-021", 0),
            Bind::Six(("comparison", Literal::Text("eq")), ("left_path", Literal::Text("$.large_left")), ("right_path", Literal::Text("$.large_right")), ("start_ms", Literal::Integer(4000)), ("end_ms", Literal::Integer(5000)), ("limit", Literal::Integer(1))),
            "i",
            Judge::Count(0),
        ))
    } else if i == 11 {
        Some(bound_rows(
            "SQL-LOG-021 must reject an unknown comparison selector",
            Source::Statement("SQL-LOG-021", 0),
            Bind::Six(("comparison", Literal::Text("unknown")), ("left_path", Literal::Text("$.left")), ("right_path", Literal::Text("$.right")), ("start_ms", Literal::Integer(4000)), ("end_ms", Literal::Integer(5000)), ("limit", Literal::Integer(1))),
            "i",
            Judge::Count(0),
        ))
    } else if i == 12 {
        Some(Step::Insert(6000, "info", "literal prefix fixture", r#"{"foo:bar:value":"needle","under_score":"literal"}"#))
    } else if i == 13 {
        Some(Step::Insert(6001, "info", "lookalike prefix fixture", r#"{"underXscore":"literal"}"#))
    } else if i == 14 {
        Some(Step::Execute("INSERT INTO logs(logs) VALUES ('flush')"))
    } else if i == 15 {
        Some(bound_rows(
            "SQL-LOG-022 prefix changed",
            Source::Statement("SQL-LOG-022", 0),
            Bind::Four(("field_prefix", Literal::Text("deployment.")), ("exact_text", Literal::Text("us-east")), ("start_ms", Literal::Integer(1000)), ("end_ms", Literal::Integer(2000))),
            "i",
            Judge::Table(Table::OnlyFirst),
        ))
    } else if i == 16 {
        Some(bound_rows(
            "SQL-LOG-022 prefix changed",
            Source::Statement("SQL-LOG-022", 0),
            Bind::Four(("field_prefix", Literal::Text("")), ("exact_text", Literal::Text("request timeout")), ("start_ms", Literal::Integer(1000)), ("end_ms", Literal::Integer(2000))),
            "i",
            Judge::Table(Table::OnlyFirst),
        ))
    } else if i == 17 {
        Some(bound_rows(
            "SQL-LOG-022 prefix changed",
            Source::Statement("SQL-LOG-022", 0),
            Bind::Four(("field_prefix", Literal::Text("_")), ("exact_text", Literal::Text("request timeout")), ("start_ms", Literal::Integer(1000)), ("end_ms", Literal::Integer(2000))),
            "i",
            Judge::Table(Table::OnlyFirst),
        ))
    } else if i == 18 {
        Some(bound_rows(
            "SQL-LOG-022 prefix changed",
            Source::Statement("SQL-LOG-022", 0),
            Bind::Four(("field_prefix", Literal::Text("_time")), ("exact_text", Literal::Text("1000")), ("start_ms", Literal::Integer(1000)), ("end_ms", Literal::Integer(2000))),
            "i",
            Judge::Table(Table::OnlyFirst),
        ))
    } else if i == 19 {
        Some(bound_rows(
            "SQL-LOG-022 prefix changed",
            Source::Statement("SQL-LOG-022", 0),
            Bind::Four(("field_prefix", Literal::Text("nested.")), ("exact_text", Literal::Text("")), ("start_ms", Literal::Integer(1000)), ("end_ms", Literal::Integer(2000))),
            "i",
            Judge::Table(Table::SecondThenFirst),
        ))
    } else if i == 20 {
        Some(bound_rows(
            "SQL-LOG-022 prefix changed",
            Source::Statement("SQL-LOG-022", 0),
            Bind::Four(("field_prefix", Literal::Text("missing.")), ("exact_text", Literal::Text("")), ("start_ms", Literal::Integer(1000)), ("end_ms", Literal::Integer(2000))),
            "i",
            Judge::Count(0),
        ))
    } else if i == 21 {
        Some(bound_rows(
            "SQL-LOG-022 prefix changed",
            Source::Statement("SQL-LOG-022", 0),
            Bind::Four(("field_prefix", Literal::Text("foo:bar:")), ("exact_text", Literal::Text("needle")), ("start_ms", Literal::Integer(6000)), ("end_ms", Literal::Integer(6001))),
            "i",
            Judge::Table(Table::At6000),
        ))
    } else if i == 22 {
        Some(bound_rows(
            "SQL-LOG-022 prefix changed",
            Source::Statement("SQL-LOG-022", 0),
            Bind::Four(("field_prefix", Literal::Text("under_")), ("exact_text", Literal::Text("literal")), ("start_ms", Literal::Integer(6000)), ("end_ms", Literal::Integer(6001))),
            "i",
            Judge::Table(Table::At6000),
        ))
    } else if i == 23 {
        Some(bound_rows(
            "SQL-LOG-022 prefix changed",
            Source::Statement("SQL-LOG-022", 0),
            Bind::Four(("field_prefix", Literal::Text("dup_")), ("exact_text", Literal::Text("same")), ("start_ms", Literal::Integer(6002)), ("end_ms", Literal::Integer(6002))),
            "i",
            Judge::Table(Table::At6002Twice),
        ))
    } else if i == 24 {
        Some(bound_rows(
            "SQL-LOG-022 prefix changed",
            Source::Statement("SQL-LOG-022", 0),
            Bind::Four(("field_prefix", Literal::Text("deployment")), ("exact_text", Literal::Text(r#"{"region":"us-east"}"#)), ("start_ms", Literal::Integer(1000)), ("end_ms", Literal::Integer(2000))),
            "i",
            Judge::Count(0),
        ))
    } else {
        None
    }
}

fn log_comparison_step(i: usize) -> (step: Option<Step>)
    ensures
        step == log_comparison_step_at(i as int),
{
    if i == 0 {
        Some(Step::Insert(4000, "info", "field comparison fixture", r#"{"left":2,"right":"2","null_left":null,"array_left":[1],"array_right":"[1]","lex_left":"bar","lex_right":"foo","numeric_left":"10","numeric_right":"2","large_left":18446744073709551615,"large_copy":18446744073709551615,"large_right":18446744073709551614}"#))
    } else if i == 1 {
        Some(Step::Insert(5000, "info", "newest nonmatching field comparison fixture", r#"{"left":2,"right":"3","null_left":"x","array_left":[2],"array_right":"[3]","lex_left":"z","lex_right":"a","numeric_left":"9","numeric_right":"2","large_left":18446744073709551615,"large_copy":18446744073709551614,"large_right":18446744073709551614}"#))
    } else if i == 2 {
        Some(Step::Execute("INSERT INTO logs(logs) VALUES ('flush')"))
    } else if i == 3 {
        Some(bound_rows(
            "SQL-LOG-021 eq comparison changed",
            Source::Statement("SQL-LOG-021", 0),
            Bind::Six(("comparison", Literal::Text("eq")), ("left_path", Literal::Text("$.left")), ("right_path", Literal::Text("$.right")), ("start_ms", Literal::Integer(4000)), ("end_ms", Literal::Integer(5000)), ("limit", Literal::Integer(1))),
            "i",
            Judge::Table(Table::At4000),
        ))
    } else if i == 4 {
        Some(bound_rows(
            "SQL-LOG-021 eq comparison changed",
            Source::Statement("SQL-LOG-021", 0),
            Bind::Six(("comparison", Literal::Text("eq")), ("left_path", Literal::Text("$.null_left")), ("right_path", Literal::Text("$.absent")), ("start_ms", Literal::Integer(4000)), ("end_ms", Literal::Integer(5000)), ("limit", Literal::Integer(1))),
            "i",
            Judge::Table(Table::At4000),
        ))
    } else if i == 5 {
        Some(bound_rows(
            "SQL-LOG-021 eq comparison changed",
            Source::Statement("SQL-LOG-021", 0),
            Bind::Six(("comparison", Literal::Text("eq")), ("left_path", Literal::Text("$.array_left")), ("right_path", Literal::Text("$.array_right")), ("start_ms", Literal::Integer(4000)), ("end_ms", Literal::Integer(5000)), ("limit", Literal::Integer(1))),
            "i",
            Judge::Table(Table::At4000),
        ))
    } else if i == 6 {
        Some(bound_rows(
            "SQL-LOG-021 le_text comparison changed",
            Source::Statement("SQL-LOG-021", 0),
            Bind::Six(("comparison", Literal::Text("le_text")), ("left_path", Literal::Text("$.lex_left")), ("right_path", Literal::Text("$.lex_right")), ("start_ms", Literal::Integer(4000)), ("end_ms", Literal::Integer(5000)), ("limit", Literal::Integer(1))),
            "i",
            Judge::Table(Table::At4000),
        ))
    } else if i == 7 {
        Some(bound_rows(
            "SQL-LOG-021 lt_text comparison changed",
            Source::Statement("SQL-LOG-021", 0),
            Bind::Six(("comparison", Literal::Text("lt_text")), ("left_path", Literal::Text("$.lex_left")), ("right_path", Literal::Text("$.lex_right")), ("start_ms", Literal::Integer(4000)), ("end_ms", Literal::Integer(5000)), ("limit", Literal::Integer(1))),
            "i",
            Judge::Table(Table::At4000),
        ))
    } else if i == 8 {
        Some(bound_rows(
            "SQL-LOG-021 lt_text comparison changed",
            Source::Statement("SQL-LOG-021", 0),
            Bind::Six(("comparison", Literal::Text("lt_text")), ("left_path", Literal::Text("$.numeric_left")), ("right_path", Literal::Text("$.numeric_right")), ("start_ms", Literal::Integer(4000)), ("end_ms", Literal::Integer(5000)), ("limit", Literal::Integer(1))),
            "i",
            Judge::Table(Table::At4000),
        ))
    } else if i == 9 {
        Some(bound_rows(
            "SQL-LOG-021 eq comparison changed",
            Source::Statement("SQL-LOG-021", 0),
            Bind::Six(("comparison", Literal::Text("eq")), ("left_path", Literal::Text("$.large_left")), ("right_path", Literal::Text("$.large_copy")), ("start_ms", Literal::Integer(4000)), ("end_ms", Literal::Integer(5000)), ("limit", Literal::Integer(1))),
            "i",
            Judge::Table(Table::At4000),
        ))
    } else if i == 10 {
        Some(bound_rows(
            "SQL-LOG-021 collapsed distinct retained u64 values through binary64",
            Source::Statement("SQL-LOG-021", 0),
            Bind::Six(("comparison", Literal::Text("eq")), ("left_path", Literal::Text("$.large_left")), ("right_path", Literal::Text("$.large_right")), ("start_ms", Literal::Integer(4000)), ("end_ms", Literal::Integer(5000)), ("limit", Literal::Integer(1))),
            "i",
            Judge::Count(0),
        ))
    } else if i == 11 {
        Some(bound_rows(
            "SQL-LOG-021 must reject an unknown comparison selector",
            Source::Statement("SQL-LOG-021", 0),
            Bind::Six(("comparison", Literal::Text("unknown")), ("left_path", Literal::Text("$.left")), ("right_path", Literal::Text("$.right")), ("start_ms", Literal::Integer(4000)), ("end_ms", Literal::Integer(5000)), ("limit", Literal::Integer(1))),
            "i",
            Judge::Count(0),
        ))
    } else if i == 12 {
        Some(Step::Insert(6000, "info", "literal prefix fixture", r#"{"foo:bar:value":"needle","under_score":"literal"}"#))
    } else if i == 13 {
        Some(Step::Insert(6001, "info", "lookalike prefix fixture", r#"{"underXscore":"literal"}"#))
    } else if i == 14 {
        Some(Step::Execute("INSERT INTO logs(logs) VALUES ('flush')"))
    } else if i == 15 {
        Some(bound_rows(
            "SQL-LOG-022 prefix changed",
            Source::Statement("SQL-LOG-022", 0),
            Bind::Four(("field_prefix", Literal::Text("deployment.")), ("exact_text", Literal::Text("us-east")), ("start_ms", Literal::Integer(1000)), ("end_ms", Literal::Integer(2000))),
            "i",
            Judge::Table(Table::OnlyFirst),
        ))
    } else if i == 16 {
        Some(bound_rows(
            "SQL-LOG-022 prefix changed",
            Source::Statement("SQL-LOG-022", 0),
            Bind::Four(("field_prefix", Literal::Text("")), ("exact_text", Literal::Text("request timeout")), ("start_ms", Literal::Integer(1000)), ("end_ms", Literal::Integer(2000))),
            "i",
            Judge::Table(Table::OnlyFirst),
        ))
    } else if i == 17 {
        Some(bound_rows(
            "SQL-LOG-022 prefix changed",
            Source::Statement("SQL-LOG-022", 0),
            Bind::Four(("field_prefix", Literal::Text("_")), ("exact_text", Literal::Text("request timeout")), ("start_ms", Literal::Integer(1000)), ("end_ms", Literal::Integer(2000))),
            "i",
            Judge::Table(Table::OnlyFirst),
        ))
    } else if i == 18 {
        Some(bound_rows(
            "SQL-LOG-022 prefix changed",
            Source::Statement("SQL-LOG-022", 0),
            Bind::Four(("field_prefix", Literal::Text("_time")), ("exact_text", Literal::Text("1000")), ("start_ms", Literal::Integer(1000)), ("end_ms", Literal::Integer(2000))),
            "i",
            Judge::Table(Table::OnlyFirst),
        ))
    } else if i == 19 {
        Some(bound_rows(
            "SQL-LOG-022 prefix changed",
            Source::Statement("SQL-LOG-022", 0),
            Bind::Four(("field_prefix", Literal::Text("nested.")), ("exact_text", Literal::Text("")), ("start_ms", Literal::Integer(1000)), ("end_ms", Literal::Integer(2000))),
            "i",
            Judge::Table(Table::SecondThenFirst),
        ))
    } else if i == 20 {
        Some(bound_rows(
            "SQL-LOG-022 prefix changed",
            Source::Statement("SQL-LOG-022", 0),
            Bind::Four(("field_prefix", Literal::Text("missing.")), ("exact_text", Literal::Text("")), ("start_ms", Literal::Integer(1000)), ("end_ms", Literal::Integer(2000))),
            "i",
            Judge::Count(0),
        ))
    } else if i == 21 {
        Some(bound_rows(
            "SQL-LOG-022 prefix changed",
            Source::Statement("SQL-LOG-022", 0),
            Bind::Four(("field_prefix", Literal::Text("foo:bar:")), ("exact_text", Literal::Text("needle")), ("start_ms", Literal::Integer(6000)), ("end_ms", Literal::Integer(6001))),
            "i",
            Judge::Table(Table::At6000),
        ))
    } else if i == 22 {
        Some(bound_rows(
            "SQL-LOG-022 prefix changed",
            Source::Statement("SQL-LOG-022", 0),
            Bind::Four(("field_prefix", Literal::Text("under_")), ("exact_text", Literal::Text("literal")), ("start_ms", Literal::Integer(6000)), ("end_ms", Literal::Integer(6001))),
            "i",
            Judge::Table(Table::At6000),
        ))
    } else if i == 23 {
        Some(bound_rows(
            "SQL-LOG-022 prefix changed",
            Source::Statement("SQL-LOG-022", 0),
            Bind::Four(("field_prefix", Literal::Text("dup_")), ("exact_text", Literal::Text("same")), ("start_ms", Literal::Integer(6002)), ("end_ms", Literal::Integer(6002))),
            "i",
            Judge::Table(Table::At6002Twice),
        ))
    } else if i == 24 {
        Some(bound_rows(
            "SQL-LOG-022 prefix changed",
            Source::Statement("SQL-LOG-022", 0),
            Bind::Four(("field_prefix", Literal::Text("deployment")), ("exact_text", Literal::Text(r#"{"region":"us-east"}"#)), ("start_ms", Literal::Integer(1000)), ("end_ms", Literal::Integer(2000))),
            "i",
            Judge::Count(0),
        ))
    } else {
        None
    }
}

/// The checks of day and week ranges.
pub open spec fn log_calendar_step_at(i: int) -> Option<Step> {
    if i == 0 {
        Some(Step::Insert(35_999_999, "info", "clock fixture", r#"{"case":"day-before"}"#))
    } else if i == 1 {
        Some(Step::Insert(36_000_000, "info", "clock fixture", r#"{"case":"day-start"}"#))
    } else if i == 2 {
        Some(Step::Insert(39_600_123, "info", "clock fixture", r#"{"case":"day-middle"}"#))
    } else if i == 3 {
        Some(Step::Insert(43_200_000, "info", "clock fixture", r#"{"case":"day-end"}"#))
    } else if i == 4 {
        Some(Step::Insert(43_200_001, "info", "clock fixture", r#"{"case":"day-after"}"#))
    } else if i == 5 {
        Some(Step::Execute("INSERT INTO logs(logs) VALUES ('flush')"))
    } else if i == 6 {
        Some(bound_rows(
            "SQL-LOG-023 day range changed",
            Source::Statement("SQL-LOG-023", 0),
            Bind::Seven(("day_start_ns", Literal::Integer(36_000_000_000_000)), ("day_end_ns", Literal::Integer(43_200_000_000_000)), ("start_inclusive", Literal::Integer(1)), ("end_inclusive", Literal::Integer(1)), ("offset_ns", Literal::Integer(0)), ("start_ms", Literal::Integer(35_999_999)), ("end_ms", Literal::Integer(43_200_001))),
            "i",
            Judge::Table(Table::DayInclusive),
        ))
    } else if i == 7 {
        Some(bound_rows(
            "SQL-LOG-023 day range changed",
            Source::Statement("SQL-LOG-023", 0),
            Bind::Seven(("day_start_ns", Literal::Integer(36_000_000_000_000)), ("day_end_ns", Literal::Integer(43_200_000_000_000)), ("start_inclusive", Literal::Integer(0)), ("end_inclusive", Literal::Integer(0)), ("offset_ns", Literal::Integer(0)), ("start_ms", Literal::Integer(35_999_999)), ("end_ms", Literal::Integer(43_200_001))),
            "i",
            Judge::Table(Table::DayExclusive),
        ))
    } else if i == 8 {
        Some(bound_rows(
            "SQL-LOG-023 day range changed",
            Source::Statement("SQL-LOG-023", 0),
            Bind::Seven(("day_start_ns", Literal::Integer(43_200_000_000_000)), ("day_end_ns", Literal::Integer(50_400_000_000_000)), ("start_inclusive", Literal::Integer(1)), ("end_inclusive", Literal::Integer(1)), ("offset_ns", Literal::Integer(7_200_000_000_000)), ("start_ms", Literal::Integer(35_999_999)), ("end_ms", Literal::Integer(43_200_001))),
            "i",
            Judge::Table(Table::DayInclusive),
        ))
    } else if i == 9 {
        Some(bound_rows(
            "SQL-LOG-023 day range changed",
            Source::Statement("SQL-LOG-023", 0),
            Bind::Seven(("day_start_ns", Literal::Integer(0)), ("day_end_ns", Literal::Integer(0)), ("start_inclusive", Literal::Integer(1)), ("end_inclusive", Literal::Integer(0)), ("offset_ns", Literal::Integer(0)), ("start_ms", Literal::Integer(35_999_999)), ("end_ms", Literal::Integer(43_200_001))),
            "i",
            Judge::Table(Table::WholeDay),
        ))
    } else if i == 10 {
        Some(bound_rows(
            "SQL-LOG-023 day range changed",
            Source::Statement("SQL-LOG-023", 0),
            Bind::Seven(("day_start_ns", Literal::Integer(43_200_000_000_000)), ("day_end_ns", Literal::Integer(36_000_000_000_000)), ("start_inclusive", Literal::Integer(1)), ("end_inclusive", Literal::Integer(1)), ("offset_ns", Literal::Integer(0)), ("start_ms", Literal::Integer(35_999_999)), ("end_ms", Literal::Integer(43_200_001))),
            "i",
            Judge::Count(0),
        ))
    } else if i == 11 {
        Some(Step::Insert(-345_600_000 as i64, "info", "week fixture", r#"{"case":"week-pre-epoch-sun"}"#))
    } else if i == 12 {
        Some(Step::Insert(1_798_977_600_000, "info", "week fixture", r#"{"case":"week-sun"}"#))
    } else if i == 13 {
        Some(Step::Insert(1_799_019_000_000, "info", "week fixture", r#"{"case":"week-sun-late"}"#))
    } else if i == 14 {
        Some(Step::Insert(1_799_022_600_000, "info", "week fixture", r#"{"case":"week-mon-early"}"#))
    } else if i == 15 {
        Some(Step::Insert(1_799_064_000_000, "info", "week fixture", r#"{"case":"week-mon"}"#))
    } else if i == 16 {
        Some(Step::Insert(1_799_150_400_000, "info", "week fixture", r#"{"case":"week-tue"}"#))
    } else if i == 17 {
        Some(Step::Insert(1_799_236_800_000, "info", "week fixture", r#"{"case":"week-wed"}"#))
    } else if i == 18 {
        Some(Step::Insert(1_799_323_200_000, "info", "week fixture", r#"{"case":"week-thu"}"#))
    } else if i == 19 {
        Some(Step::Insert(1_799_409_600_000, "info", "week fixture", r#"{"case":"week-fri"}"#))
    } else if i == 20 {
        Some(Step::Insert(1_799_496_000_000, "info", "week fixture", r#"{"case":"week-sat"}"#))
    } else if i == 21 {
        Some(Step::Execute("INSERT INTO logs(logs) VALUES ('flush')"))
    } else if i == 22 {
        Some(bound_rows(
            "SQL-LOG-024 week range changed",
            Source::Statement("SQL-LOG-024", 0),
            Bind::Five(("week_start_day", Literal::Integer(1)), ("week_end_day", Literal::Integer(5)), ("offset_ns", Literal::Integer(0)), ("start_ms", Literal::Integer(1_798_934_400_000)), ("end_ms", Literal::Integer(1_799_496_000_000))),
            "i",
            Judge::Table(Table::Weekdays),
        ))
    } else if i == 23 {
        Some(bound_rows(
            "SQL-LOG-024 week range changed",
            Source::Statement("SQL-LOG-024", 0),
            Bind::Five(("week_start_day", Literal::Integer(0)), ("week_end_day", Literal::Integer(6)), ("offset_ns", Literal::Integer(0)), ("start_ms", Literal::Integer(1_798_934_400_000)), ("end_ms", Literal::Integer(1_799_496_000_000))),
            "i",
            Judge::Table(Table::WholeWeek),
        ))
    } else if i == 24 {
        Some(bound_rows(
            "SQL-LOG-024 week range changed",
            Source::Statement("SQL-LOG-024", 0),
            Bind::Five(("week_start_day", Literal::Integer(5)), ("week_end_day", Literal::Integer(1)), ("offset_ns", Literal::Integer(0)), ("start_ms", Literal::Integer(1_798_934_400_000)), ("end_ms", Literal::Integer(1_799_496_000_000))),
            "i",
            Judge::Count(0),
        ))
    } else if i == 25 {
        Some(bound_rows(
            "SQL-LOG-024 week range changed",
            Source::Statement("SQL-LOG-024", 0),
            Bind::Five(("week_start_day", Literal::Integer(1)), ("week_end_day", Literal::Integer(1)), ("offset_ns", Literal::Integer(5_400_000_000_000)), ("start_ms", Literal::Integer(1_798_934_400_000)), ("end_ms", Literal::Integer(1_799_496_000_000))),
            "i",
            Judge::Table(Table::ShiftedMonday),
        ))
    } else if i == 26 {
        Some(bound_rows(
            "SQL-LOG-024 week range changed",
            Source::Statement("SQL-LOG-024", 0),
            Bind::Five(("week_start_day", Literal::Integer(0)), ("week_end_day", Literal::Integer(0)), ("offset_ns", Literal::Integer(0)), ("start_ms", Literal::Integer(-345_600_000 as i64)), ("end_ms", Literal::Integer(-345_600_000 as i64))),
            "i",
            Judge::Table(Table::BeforeEpoch),
        ))
    } else if i == 27 {
        Some(Step::Execute("INSERT INTO logs(ts,level,message,metadata) VALUES(-1,'info','pre epoch','{}')"))
    } else if i == 28 {
        Some(Step::Execute("INSERT INTO logs(logs) VALUES ('flush')"))
    } else if i == 29 {
        Some(bound_rows(
            "SQL-LOG-031 pre-epoch microsecond rendering changed",
            Source::Statement("SQL-LOG-031", 0),
            Bind::Four(("start_ts", Literal::Integer(-1 as i64)), ("end_ts", Literal::Integer(-1 as i64)), ("timestamp_units_per_second", Literal::Integer(1_000_000)), ("keep_const_fields", Literal::Integer(1))),
            "sss",
            Judge::Holds(Table::PreEpoch),
        ))
    } else {
        None
    }
}

fn log_calendar_step(i: usize) -> (step: Option<Step>)
    ensures
        step == log_calendar_step_at(i as int),
{
    if i == 0 {
        Some(Step::Insert(35_999_999, "info", "clock fixture", r#"{"case":"day-before"}"#))
    } else if i == 1 {
        Some(Step::Insert(36_000_000, "info", "clock fixture", r#"{"case":"day-start"}"#))
    } else if i == 2 {
        Some(Step::Insert(39_600_123, "info", "clock fixture", r#"{"case":"day-middle"}"#))
    } else if i == 3 {
        Some(Step::Insert(43_200_000, "info", "clock fixture", r#"{"case":"day-end"}"#))
    } else if i == 4 {
        Some(Step::Insert(43_200_001, "info", "clock fixture", r#"{"case":"day-after"}"#))
    } else if i == 5 {
        Some(Step::Execute("INSERT INTO logs(logs) VALUES ('flush')"))
    } else if i == 6 {
        Some(bound_rows(
            "SQL-LOG-023 day range changed",
            Source::Statement("SQL-LOG-023", 0),
            Bind::Seven(("day_start_ns", Literal::Integer(36_000_000_000_000)), ("day_end_ns", Literal::Integer(43_200_000_000_000)), ("start_inclusive", Literal::Integer(1)), ("end_inclusive", Literal::Integer(1)), ("offset_ns", Literal::Integer(0)), ("start_ms", Literal::Integer(35_999_999)), ("end_ms", Literal::Integer(43_200_001))),
            "i",
            Judge::Table(Table::DayInclusive),
        ))
    } else if i == 7 {
        Some(bound_rows(
            "SQL-LOG-023 day range changed",
            Source::Statement("SQL-LOG-023", 0),
            Bind::Seven(("day_start_ns", Literal::Integer(36_000_000_000_000)), ("day_end_ns", Literal::Integer(43_200_000_000_000)), ("start_inclusive", Literal::Integer(0)), ("end_inclusive", Literal::Integer(0)), ("offset_ns", Literal::Integer(0)), ("start_ms", Literal::Integer(35_999_999)), ("end_ms", Literal::Integer(43_200_001))),
            "i",
            Judge::Table(Table::DayExclusive),
        ))
    } else if i == 8 {
        Some(bound_rows(
            "SQL-LOG-023 day range changed",
            Source::Statement("SQL-LOG-023", 0),
            Bind::Seven(("day_start_ns", Literal::Integer(43_200_000_000_000)), ("day_end_ns", Literal::Integer(50_400_000_000_000)), ("start_inclusive", Literal::Integer(1)), ("end_inclusive", Literal::Integer(1)), ("offset_ns", Literal::Integer(7_200_000_000_000)), ("start_ms", Literal::Integer(35_999_999)), ("end_ms", Literal::Integer(43_200_001))),
            "i",
            Judge::Table(Table::DayInclusive),
        ))
    } else if i == 9 {
        Some(bound_rows(
            "SQL-LOG-023 day range changed",
            Source::Statement("SQL-LOG-023", 0),
            Bind::Seven(("day_start_ns", Literal::Integer(0)), ("day_end_ns", Literal::Integer(0)), ("start_inclusive", Literal::Integer(1)), ("end_inclusive", Literal::Integer(0)), ("offset_ns", Literal::Integer(0)), ("start_ms", Literal::Integer(35_999_999)), ("end_ms", Literal::Integer(43_200_001))),
            "i",
            Judge::Table(Table::WholeDay),
        ))
    } else if i == 10 {
        Some(bound_rows(
            "SQL-LOG-023 day range changed",
            Source::Statement("SQL-LOG-023", 0),
            Bind::Seven(("day_start_ns", Literal::Integer(43_200_000_000_000)), ("day_end_ns", Literal::Integer(36_000_000_000_000)), ("start_inclusive", Literal::Integer(1)), ("end_inclusive", Literal::Integer(1)), ("offset_ns", Literal::Integer(0)), ("start_ms", Literal::Integer(35_999_999)), ("end_ms", Literal::Integer(43_200_001))),
            "i",
            Judge::Count(0),
        ))
    } else if i == 11 {
        Some(Step::Insert(-345_600_000 as i64, "info", "week fixture", r#"{"case":"week-pre-epoch-sun"}"#))
    } else if i == 12 {
        Some(Step::Insert(1_798_977_600_000, "info", "week fixture", r#"{"case":"week-sun"}"#))
    } else if i == 13 {
        Some(Step::Insert(1_799_019_000_000, "info", "week fixture", r#"{"case":"week-sun-late"}"#))
    } else if i == 14 {
        Some(Step::Insert(1_799_022_600_000, "info", "week fixture", r#"{"case":"week-mon-early"}"#))
    } else if i == 15 {
        Some(Step::Insert(1_799_064_000_000, "info", "week fixture", r#"{"case":"week-mon"}"#))
    } else if i == 16 {
        Some(Step::Insert(1_799_150_400_000, "info", "week fixture", r#"{"case":"week-tue"}"#))
    } else if i == 17 {
        Some(Step::Insert(1_799_236_800_000, "info", "week fixture", r#"{"case":"week-wed"}"#))
    } else if i == 18 {
        Some(Step::Insert(1_799_323_200_000, "info", "week fixture", r#"{"case":"week-thu"}"#))
    } else if i == 19 {
        Some(Step::Insert(1_799_409_600_000, "info", "week fixture", r#"{"case":"week-fri"}"#))
    } else if i == 20 {
        Some(Step::Insert(1_799_496_000_000, "info", "week fixture", r#"{"case":"week-sat"}"#))
    } else if i == 21 {
        Some(Step::Execute("INSERT INTO logs(logs) VALUES ('flush')"))
    } else if i == 22 {
        Some(bound_rows(
            "SQL-LOG-024 week range changed",
            Source::Statement("SQL-LOG-024", 0),
            Bind::Five(("week_start_day", Literal::Integer(1)), ("week_end_day", Literal::Integer(5)), ("offset_ns", Literal::Integer(0)), ("start_ms", Literal::Integer(1_798_934_400_000)), ("end_ms", Literal::Integer(1_799_496_000_000))),
            "i",
            Judge::Table(Table::Weekdays),
        ))
    } else if i == 23 {
        Some(bound_rows(
            "SQL-LOG-024 week range changed",
            Source::Statement("SQL-LOG-024", 0),
            Bind::Five(("week_start_day", Literal::Integer(0)), ("week_end_day", Literal::Integer(6)), ("offset_ns", Literal::Integer(0)), ("start_ms", Literal::Integer(1_798_934_400_000)), ("end_ms", Literal::Integer(1_799_496_000_000))),
            "i",
            Judge::Table(Table::WholeWeek),
        ))
    } else if i == 24 {
        Some(bound_rows(
            "SQL-LOG-024 week range changed",
            Source::Statement("SQL-LOG-024", 0),
            Bind::Five(("week_start_day", Literal::Integer(5)), ("week_end_day", Literal::Integer(1)), ("offset_ns", Literal::Integer(0)), ("start_ms", Literal::Integer(1_798_934_400_000)), ("end_ms", Literal::Integer(1_799_496_000_000))),
            "i",
            Judge::Count(0),
        ))
    } else if i == 25 {
        Some(bound_rows(
            "SQL-LOG-024 week range changed",
            Source::Statement("SQL-LOG-024", 0),
            Bind::Five(("week_start_day", Literal::Integer(1)), ("week_end_day", Literal::Integer(1)), ("offset_ns", Literal::Integer(5_400_000_000_000)), ("start_ms", Literal::Integer(1_798_934_400_000)), ("end_ms", Literal::Integer(1_799_496_000_000))),
            "i",
            Judge::Table(Table::ShiftedMonday),
        ))
    } else if i == 26 {
        Some(bound_rows(
            "SQL-LOG-024 week range changed",
            Source::Statement("SQL-LOG-024", 0),
            Bind::Five(("week_start_day", Literal::Integer(0)), ("week_end_day", Literal::Integer(0)), ("offset_ns", Literal::Integer(0)), ("start_ms", Literal::Integer(-345_600_000 as i64)), ("end_ms", Literal::Integer(-345_600_000 as i64))),
            "i",
            Judge::Table(Table::BeforeEpoch),
        ))
    } else if i == 27 {
        Some(Step::Execute("INSERT INTO logs(ts,level,message,metadata) VALUES(-1,'info','pre epoch','{}')"))
    } else if i == 28 {
        Some(Step::Execute("INSERT INTO logs(logs) VALUES ('flush')"))
    } else if i == 29 {
        Some(bound_rows(
            "SQL-LOG-031 pre-epoch microsecond rendering changed",
            Source::Statement("SQL-LOG-031", 0),
            Bind::Four(("start_ts", Literal::Integer(-1 as i64)), ("end_ts", Literal::Integer(-1 as i64)), ("timestamp_units_per_second", Literal::Integer(1_000_000)), ("keep_const_fields", Literal::Integer(1))),
            "sss",
            Judge::Holds(Table::PreEpoch),
        ))
    } else {
        None
    }
}

/// Step `i` of the regressions; they end where there is no step.
pub open spec fn step_at(i: int) -> Option<Step> {
    if i < 23 {
        metric_step_at(i - 0)
    } else if i < 50 {
        metricsql_step_at(i - 23)
    } else if i < 74 {
        log_count_step_at(i - 50)
    } else if i < 115 {
        log_recipe_step_at(i - 74)
    } else if i < 149 {
        log_source_step_at(i - 115)
    } else if i < 173 {
        log_projection_step_at(i - 149)
    } else if i < 199 {
        log_membership_step_at(i - 173)
    } else if i < 223 {
        log_bounds_step_at(i - 199)
    } else if i < 246 {
        log_limit_step_at(i - 223)
    } else if i < 271 {
        log_comparison_step_at(i - 246)
    } else if i < 301 {
        log_calendar_step_at(i - 271)
    } else {
        None
    }
}

/// Step `i` of the regressions.
pub fn semantic_regressions(i: usize) -> (step: Option<Step>)
    ensures
        step == step_at(i as int),
{
    if i < 23 {
        metric_step(i - 0)
    } else if i < 50 {
        metricsql_step(i - 23)
    } else if i < 74 {
        log_count_step(i - 50)
    } else if i < 115 {
        log_recipe_step(i - 74)
    } else if i < 149 {
        log_source_step(i - 115)
    } else if i < 173 {
        log_projection_step(i - 149)
    } else if i < 199 {
        log_membership_step(i - 173)
    } else if i < 223 {
        log_bounds_step(i - 199)
    } else if i < 246 {
        log_limit_step(i - 223)
    } else if i < 271 {
        log_comparison_step(i - 246)
    } else if i < 301 {
        log_calendar_step(i - 271)
    } else {
        None
    }
}

} // verus!
