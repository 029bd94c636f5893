//! The tables that the regression checks compare with.
use crate::ieee::{
    F_0, F_0_1, F_0_2, F_0_25, F_0_5, F_1, F_10, F_12, F_16, F_1E16, F_1_5, F_2, F_20, F_26,
    F_2_5, F_3, F_30, F_4, F_40, F_50, F_5E15, F_8, F_N0_5, MAX, NEG_ZERO, ONE_THIRD,
};
use crate::values::{Literal, Row};
use vstd::prelude::*;

verus! {

/// The expected tables.
#[derive(Clone, Copy, Debug, PartialEq, Eq)]
pub enum Table {
    InstantCount,
    AveragePrecision,
    AverageOverflow,
    WindowMinimum,
    WindowMaximum,
    MinimumZero,
    MaximumZero,
    CrossSum,
    Ratio,
    Histogram,
    HistogramFraction,
    MqlDefault,
    MqlIf,
    MqlIfNot,
    Cpu,
    MqlUnion,
    MqlAlias,
    MqlCollision,
    MqlLabelSet,
    MqlLabelDelete,
    MqlWindow,
    RangeAvg,
    RangeMin,
    RangeMax,
    RangeSum,
    RangePrecision,
    RunningAvg,
    RunningMin,
    RunningMax,
    RunningSum,
    RunningPrecision,
    RelativeWindow,
    RelativeOffset,
    RequestContext,
    HistogramQuantiles,
    One,
    Two,
    NewestFirst,
    FirstOnly,
    OldestFirst,
    FirstPerPartition,
    LastPerPartition,
    TopHosts,
    UniqueHosts,
    Hosts,
    Formatted,
    Arithmetic,
    ByteLengths,
    Replaced,
    Extracted,
    ArrayLengths,
    Statistics,
    SumOfLengths,
    AnyHost,
    HostExtrema,
    Addresses,
    FourFour,
    OneZero,
    ZeroZero,
    QuantileLow,
    QuantileHigh,
    TypedStatistics,
    MissingStatistics,
    Ten,
    Eight,
    Zero,
    AnyFlag,
    FourNulls,
    EmptyObjects,
    UnicodeLengths,
    NoLengths,
    FlagLengths,
    NumberLengths,
    Trues,
    Durations,
    Fallbacks,
    FormattedFlags,
    FormattedEmpty,
    ConstantFacets,
    FilteredHost,
    OverflowHost,
    EmptyGroup,
    SecondThenFirst,
    OnlyFirst,
    OnlySecond,
    FieldNames,
    Projection,
    EmptyCounts,
    TypedValues,
    Presence,
    NumericAggregates,
    At500,
    At4000,
    At6000,
    At6002Twice,
    DayInclusive,
    DayExclusive,
    WholeDay,
    Weekdays,
    WholeWeek,
    ShiftedMonday,
    BeforeEpoch,
    PreEpoch,
}

/// Row `i` of a table of the metric group.
pub open spec fn metric_row_of(table: Table, i: int) -> Option<Row> {
    match table {
        Table::InstantCount => if i == 0 {
            Some(Row::One(Literal::Integer(2)))
        } else {
            None
        },
        Table::AveragePrecision => if i == 0 {
            Some(Row::One(Literal::Real(ONE_THIRD)))
        } else {
            None
        },
        Table::AverageOverflow => if i == 0 {
            Some(Row::One(Literal::Real(MAX)))
        } else {
            None
        },
        Table::WindowMinimum => if i == 0 {
            Some(Row::One(Literal::Real(F_3)))
        } else {
            None
        },
        Table::WindowMaximum => if i == 0 {
            Some(Row::One(Literal::Real(F_4)))
        } else {
            None
        },
        Table::MinimumZero => if i == 0 {
            Some(Row::One(Literal::Real(F_0)))
        } else {
            None
        },
        Table::MaximumZero => if i == 0 {
            Some(Row::One(Literal::Real(NEG_ZERO)))
        } else {
            None
        },
        Table::CrossSum => if i == 0 {
            Some(Row::Two(Literal::Integer(100), Literal::Real(F_30)))
        } else if i == 1 {
            Some(Row::Two(Literal::Integer(110), Literal::Real(F_50)))
        } else {
            None
        },
        Table::Ratio => if i == 0 {
            Some(Row::One(Literal::Real(F_0_2)))
        } else {
            None
        },
        Table::Histogram => if i == 0 {
            Some(Row::Three(Literal::Text(r#"{"host":"web-1"}"#), Literal::Integer(100), Literal::Real(F_0_5)))
        } else {
            None
        },
        Table::HistogramFraction => if i == 0 {
            Some(Row::Three(Literal::Text(r#"{"host":"web-1"}"#), Literal::Integer(100), Literal::Real(F_0_25)))
        } else if i == 1 {
            Some(Row::Three(Literal::Text(r#"{"host":"web-1"}"#), Literal::Integer(110), Literal::Real(F_0_25)))
        } else {
            None
        },
        Table::MqlDefault => if i == 0 {
            Some(Row::Three(Literal::Text(r#"{"host":"web-1","service":"api"}"#), Literal::Integer(100), Literal::Real(F_0)))
        } else if i == 1 {
            Some(Row::Three(Literal::Text(r#"{"host":"web-1","service":"api"}"#), Literal::Integer(110), Literal::Real(F_30)))
        } else if i == 2 {
            Some(Row::Three(Literal::Text(r#"{"host":"web-2","service":"api"}"#), Literal::Integer(100), Literal::Real(F_20)))
        } else if i == 3 {
            Some(Row::Three(Literal::Text(r#"{"host":"web-2","service":"api"}"#), Literal::Integer(110), Literal::Real(F_20)))
        } else {
            None
        },
        Table::MqlIf => if i == 0 {
            Some(Row::Three(Literal::Text(r#"{"host":"web-1","service":"api"}"#), Literal::Integer(100), Literal::Real(F_10)))
        } else if i == 1 {
            Some(Row::Three(Literal::Text(r#"{"host":"web-1","service":"api"}"#), Literal::Integer(110), Literal::Real(F_30)))
        } else {
            None
        },
        Table::MqlIfNot => if i == 0 {
            Some(Row::Three(Literal::Text(r#"{"host":"web-2","service":"api"}"#), Literal::Integer(100), Literal::Real(F_20)))
        } else if i == 1 {
            Some(Row::Three(Literal::Text(r#"{"host":"web-2","service":"api"}"#), Literal::Integer(110), Literal::Real(F_20)))
        } else {
            None
        },
        Table::Cpu => if i == 0 {
            Some(Row::Four(Literal::Text("cpu"), Literal::Text(r#"{"host":"web-1","service":"api"}"#), Literal::Integer(100), Literal::Real(F_10)))
        } else if i == 1 {
            Some(Row::Four(Literal::Text("cpu"), Literal::Text(r#"{"host":"web-1","service":"api"}"#), Literal::Integer(110), Literal::Real(F_30)))
        } else if i == 2 {
            Some(Row::Four(Literal::Text("cpu"), Literal::Text(r#"{"host":"web-2","service":"api"}"#), Literal::Integer(100), Literal::Real(F_20)))
        } else if i == 3 {
            Some(Row::Four(Literal::Text("cpu"), Literal::Text(r#"{"host":"web-2","service":"api"}"#), Literal::Integer(110), Literal::Real(F_20)))
        } else {
            None
        },
        Table::MqlUnion => if i == 0 {
            Some(Row::Four(Literal::Text("cpu"), Literal::Text(r#"{"host":"web-1","service":"api"}"#), Literal::Integer(100), Literal::Real(F_10)))
        } else if i == 1 {
            Some(Row::Four(Literal::Text("cpu"), Literal::Text(r#"{"host":"web-1","service":"api"}"#), Literal::Integer(110), Literal::Real(F_30)))
        } else if i == 2 {
            Some(Row::Four(Literal::Text("cpu"), Literal::Text(r#"{"host":"web-2","service":"api"}"#), Literal::Integer(100), Literal::Real(F_20)))
        } else if i == 3 {
            Some(Row::Four(Literal::Text("cpu"), Literal::Text(r#"{"host":"web-2","service":"api"}"#), Literal::Integer(110), Literal::Real(F_20)))
        } else if i == 4 {
            Some(Row::Four(Literal::Text("requests_total"), Literal::Text(r#"{"host":"web-1"}"#), Literal::Integer(100), Literal::Real(F_10)))
        } else if i == 5 {
            Some(Row::Four(Literal::Text("requests_total"), Literal::Text(r#"{"host":"web-1"}"#), Literal::Integer(110), Literal::Real(F_10)))
        } else {
            None
        },
        Table::MqlAlias => if i == 0 {
            Some(Row::Four(Literal::Text("aliased_cpu"), Literal::Text(r#"{"host":"web-1","service":"api"}"#), Literal::Integer(100), Literal::Real(F_10)))
        } else if i == 1 {
            Some(Row::Four(Literal::Text("aliased_cpu"), Literal::Text(r#"{"host":"web-1","service":"api"}"#), Literal::Integer(110), Literal::Real(F_30)))
        } else if i == 2 {
            Some(Row::Four(Literal::Text("aliased_cpu"), Literal::Text(r#"{"host":"web-2","service":"api"}"#), Literal::Integer(100), Literal::Real(F_20)))
        } else if i == 3 {
            Some(Row::Four(Literal::Text("aliased_cpu"), Literal::Text(r#"{"host":"web-2","service":"api"}"#), Literal::Integer(110), Literal::Real(F_20)))
        } else {
            None
        },
        Table::MqlCollision => if i == 0 {
            Some(Row::Four(Literal::Text("combined_total"), Literal::Text(r#"{"host":"web-1"}"#), Literal::Integer(100), Literal::Real(F_2)))
        } else if i == 1 {
            Some(Row::Four(Literal::Text("combined_total"), Literal::Text(r#"{"host":"web-1"}"#), Literal::Integer(110), Literal::Real(F_2)))
        } else {
            None
        },
        Table::MqlLabelSet => if i == 0 {
            Some(Row::Four(Literal::Text("cpu"), Literal::Text(r#"{"host":"web-1","service":"api","environment":"production"}"#), Literal::Integer(100), Literal::Real(F_10)))
        } else if i == 1 {
            Some(Row::Four(Literal::Text("cpu"), Literal::Text(r#"{"host":"web-1","service":"api","environment":"production"}"#), Literal::Integer(110), Literal::Real(F_30)))
        } else if i == 2 {
            Some(Row::Four(Literal::Text("cpu"), Literal::Text(r#"{"host":"web-2","service":"api","environment":"production"}"#), Literal::Integer(100), Literal::Real(F_20)))
        } else if i == 3 {
            Some(Row::Four(Literal::Text("cpu"), Literal::Text(r#"{"host":"web-2","service":"api","environment":"production"}"#), Literal::Integer(110), Literal::Real(F_20)))
        } else {
            None
        },
        Table::MqlLabelDelete => if i == 0 {
            Some(Row::Four(Literal::Text("cpu"), Literal::Text(r#"{"host":"web-1"}"#), Literal::Integer(100), Literal::Real(F_10)))
        } else if i == 1 {
            Some(Row::Four(Literal::Text("cpu"), Literal::Text(r#"{"host":"web-1"}"#), Literal::Integer(110), Literal::Real(F_30)))
        } else if i == 2 {
            Some(Row::Four(Literal::Text("cpu"), Literal::Text(r#"{"host":"web-2"}"#), Literal::Integer(100), Literal::Real(F_20)))
        } else if i == 3 {
            Some(Row::Four(Literal::Text("cpu"), Literal::Text(r#"{"host":"web-2"}"#), Literal::Integer(110), Literal::Real(F_20)))
        } else {
            None
        },
        Table::MqlWindow => if i == 0 {
            Some(Row::Four(Literal::Text("cpu"), Literal::Text(r#"{"host":"web-1","service":"api"}"#), Literal::Integer(100), Literal::Real(F_10)))
        } else if i == 1 {
            Some(Row::Four(Literal::Text("cpu"), Literal::Text(r#"{"host":"web-1","service":"api"}"#), Literal::Integer(110), Literal::Real(F_30)))
        } else if i == 2 {
            Some(Row::Four(Literal::Text("cpu"), Literal::Text(r#"{"host":"web-2","service":"api"}"#), Literal::Integer(100), Literal::Real(F_20)))
        } else {
            None
        },
        _ => None,
    }
}

fn metric_row(table: Table, i: usize) -> (row: Option<Row>)
    ensures
        row == metric_row_of(table, i as int),
{
    match table {
        Table::InstantCount => if i == 0 {
            Some(Row::One(Literal::Integer(2)))
        } else {
            None
        },
        Table::AveragePrecision => if i == 0 {
            Some(Row::One(Literal::Real(ONE_THIRD)))
        } else {
            None
        },
        Table::AverageOverflow => if i == 0 {
            Some(Row::One(Literal::Real(MAX)))
        } else {
            None
        },
        Table::WindowMinimum => if i == 0 {
            Some(Row::One(Literal::Real(F_3)))
        } else {
            None
        },
        Table::WindowMaximum => if i == 0 {
            Some(Row::One(Literal::Real(F_4)))
        } else {
            None
        },
        Table::MinimumZero => if i == 0 {
            Some(Row::One(Literal::Real(F_0)))
        } else {
            None
        },
        Table::MaximumZero => if i == 0 {
            Some(Row::One(Literal::Real(NEG_ZERO)))
        } else {
            None
        },
        Table::CrossSum => if i == 0 {
            Some(Row::Two(Literal::Integer(100), Literal::Real(F_30)))
        } else if i == 1 {
            Some(Row::Two(Literal::Integer(110), Literal::Real(F_50)))
        } else {
            None
        },
        Table::Ratio => if i == 0 {
            Some(Row::One(Literal::Real(F_0_2)))
        } else {
            None
        },
        Table::Histogram => if i == 0 {
            Some(Row::Three(Literal::Text(r#"{"host":"web-1"}"#), Literal::Integer(100), Literal::Real(F_0_5)))
        } else {
            None
        },
        Table::HistogramFraction => if i == 0 {
            Some(Row::Three(Literal::Text(r#"{"host":"web-1"}"#), Literal::Integer(100), Literal::Real(F_0_25)))
        } else if i == 1 {
            Some(Row::Three(Literal::Text(r#"{"host":"web-1"}"#), Literal::Integer(110), Literal::Real(F_0_25)))
        } else {
            None
        },
        Table::MqlDefault => if i == 0 {
            Some(Row::Three(Literal::Text(r#"{"host":"web-1","service":"api"}"#), Literal::Integer(100), Literal::Real(F_0)))
        } else if i == 1 {
            Some(Row::Three(Literal::Text(r#"{"host":"web-1","service":"api"}"#), Literal::Integer(110), Literal::Real(F_30)))
        } else if i == 2 {
            Some(Row::Three(Literal::Text(r#"{"host":"web-2","service":"api"}"#), Literal::Integer(100), Literal::Real(F_20)))
        } else if i == 3 {
            Some(Row::Three(Literal::Text(r#"{"host":"web-2","service":"api"}"#), Literal::Integer(110), Literal::Real(F_20)))
        } else {
            None
        },
        Table::MqlIf => if i == 0 {
            Some(Row::Three(Literal::Text(r#"{"host":"web-1","service":"api"}"#), Literal::Integer(100), Literal::Real(F_10)))
        } else if i == 1 {
            Some(Row::Three(Literal::Text(r#"{"host":"web-1","service":"api"}"#), Literal::Integer(110), Literal::Real(F_30)))
        } else {
            None
        },
        Table::MqlIfNot => if i == 0 {
            Some(Row::Three(Literal::Text(r#"{"host":"web-2","service":"api"}"#), Literal::Integer(100), Literal::Real(F_20)))
        } else if i == 1 {
            Some(Row::Three(Literal::Text(r#"{"host":"web-2","service":"api"}"#), Literal::Integer(110), Literal::Real(F_20)))
        } else {
            None
        },
        Table::Cpu => if i == 0 {
            Some(Row::Four(Literal::Text("cpu"), Literal::Text(r#"{"host":"web-1","service":"api"}"#), Literal::Integer(100), Literal::Real(F_10)))
        } else if i == 1 {
            Some(Row::Four(Literal::Text("cpu"), Literal::Text(r#"{"host":"web-1","service":"api"}"#), Literal::Integer(110), Literal::Real(F_30)))
        } else if i == 2 {
            Some(Row::Four(Literal::Text("cpu"), Literal::Text(r#"{"host":"web-2","service":"api"}"#), Literal::Integer(100), Literal::Real(F_20)))
        } else if i == 3 {
            Some(Row::Four(Literal::Text("cpu"), Literal::Text(r#"{"host":"web-2","service":"api"}"#), Literal::Integer(110), Literal::Real(F_20)))
        } else {
            None
        },
        Table::MqlUnion => if i == 0 {
            Some(Row::Four(Literal::Text("cpu"), Literal::Text(r#"{"host":"web-1","service":"api"}"#), Literal::Integer(100), Literal::Real(F_10)))
        } else if i == 1 {
            Some(Row::Four(Literal::Text("cpu"), Literal::Text(r#"{"host":"web-1","service":"api"}"#), Literal::Integer(110), Literal::Real(F_30)))
        } else if i == 2 {
            Some(Row::Four(Literal::Text("cpu"), Literal::Text(r#"{"host":"web-2","service":"api"}"#), Literal::Integer(100), Literal::Real(F_20)))
        } else if i == 3 {
            Some(Row::Four(Literal::Text("cpu"), Literal::Text(r#"{"host":"web-2","service":"api"}"#), Literal::Integer(110), Literal::Real(F_20)))
        } else if i == 4 {
            Some(Row::Four(Literal::Text("requests_total"), Literal::Text(r#"{"host":"web-1"}"#), Literal::Integer(100), Literal::Real(F_10)))
        } else if i == 5 {
            Some(Row::Four(Literal::Text("requests_total"), Literal::Text(r#"{"host":"web-1"}"#), Literal::Integer(110), Literal::Real(F_10)))
        } else {
            None
        },
        Table::MqlAlias => if i == 0 {
            Some(Row::Four(Literal::Text("aliased_cpu"), Literal::Text(r#"{"host":"web-1","service":"api"}"#), Literal::Integer(100), Literal::Real(F_10)))
        } else if i == 1 {
            Some(Row::Four(Literal::Text("aliased_cpu"), Literal::Text(r#"{"host":"web-1","service":"api"}"#), Literal::Integer(110), Literal::Real(F_30)))
        } else if i == 2 {
            Some(Row::Four(Literal::Text("aliased_cpu"), Literal::Text(r#"{"host":"web-2","service":"api"}"#), Literal::Integer(100), Literal::Real(F_20)))
        } else if i == 3 {
            Some(Row::Four(Literal::Text("aliased_cpu"), Literal::Text(r#"{"host":"web-2","service":"api"}"#), Literal::Integer(110), Literal::Real(F_20)))
        } else {
            None
        },
        Table::MqlCollision => if i == 0 {
            Some(Row::Four(Literal::Text("combined_total"), Literal::Text(r#"{"host":"web-1"}"#), Literal::Integer(100), Literal::Real(F_2)))
        } else if i == 1 {
            Some(Row::Four(Literal::Text("combined_total"), Literal::Text(r#"{"host":"web-1"}"#), Literal::Integer(110), Literal::Real(F_2)))
        } else {
            None
        },
        Table::MqlLabelSet => if i == 0 {
            Some(Row::Four(Literal::Text("cpu"), Literal::Text(r#"{"host":"web-1","service":"api","environment":"production"}"#), Literal::Integer(100), Literal::Real(F_10)))
        } else if i == 1 {
            Some(Row::Four(Literal::Text("cpu"), Literal::Text(r#"{"host":"web-1","service":"api","environment":"production"}"#), Literal::Integer(110), Literal::Real(F_30)))
        } else if i == 2 {
            Some(Row::Four(Literal::Text("cpu"), Literal::Text(r#"{"host":"web-2","service":"api","environment":"production"}"#), Literal::Integer(100), Literal::Real(F_20)))
        } else if i == 3 {
            Some(Row::Four(Literal::Text("cpu"), Literal::Text(r#"{"host":"web-2","service":"api","environment":"production"}"#), Literal::Integer(110), Literal::Real(F_20)))
        } else {
            None
        },
        Table::MqlLabelDelete => if i == 0 {
            Some(Row::Four(Literal::Text("cpu"), Literal::Text(r#"{"host":"web-1"}"#), Literal::Integer(100), Literal::Real(F_10)))
        } else if i == 1 {
            Some(Row::Four(Literal::Text("cpu"), Literal::Text(r#"{"host":"web-1"}"#), Literal::Integer(110), Literal::Real(F_30)))
        } else if i == 2 {
            Some(Row::Four(Literal::Text("cpu"), Literal::Text(r#"{"host":"web-2"}"#), Literal::Integer(100), Literal::Real(F_20)))
        } else if i == 3 {
            Some(Row::Four(Literal::Text("cpu"), Literal::Text(r#"{"host":"web-2"}"#), Literal::Integer(110), Literal::Real(F_20)))
        } else {
            None
        },
        Table::MqlWindow => if i == 0 {
            Some(Row::Four(Literal::Text("cpu"), Literal::Text(r#"{"host":"web-1","service":"api"}"#), Literal::Integer(100), Literal::Real(F_10)))
        } else if i == 1 {
            Some(Row::Four(Literal::Text("cpu"), Literal::Text(r#"{"host":"web-1","service":"api"}"#), Literal::Integer(110), Literal::Real(F_30)))
        } else if i == 2 {
            Some(Row::Four(Literal::Text("cpu"), Literal::Text(r#"{"host":"web-2","service":"api"}"#), Literal::Integer(100), Literal::Real(F_20)))
        } else {
            None
        },
        _ => None,
    }
}

/// Row `i` of a table of the operator group.
pub open spec fn operator_row_of(table: Table, i: int) -> Option<Row> {
    match table {
        Table::RangeAvg => if i == 0 {
            Some(Row::Four(Literal::Null, Literal::Text(r#"{"host":"web-1","service":"api"}"#), Literal::Integer(100), Literal::Real(F_20)))
        } else if i == 1 {
            Some(Row::Four(Literal::Null, Literal::Text(r#"{"host":"web-1","service":"api"}"#), Literal::Integer(110), Literal::Real(F_20)))
        } else if i == 2 {
            Some(Row::Four(Literal::Null, Literal::Text(r#"{"host":"web-2","service":"api"}"#), Literal::Integer(100), Literal::Real(F_20)))
        } else if i == 3 {
            Some(Row::Four(Literal::Null, Literal::Text(r#"{"host":"web-2","service":"api"}"#), Literal::Integer(110), Literal::Real(F_20)))
        } else {
            None
        },
        Table::RangeMin => if i == 0 {
            Some(Row::Four(Literal::Null, Literal::Text(r#"{"host":"web-1","service":"api"}"#), Literal::Integer(100), Literal::Real(F_10)))
        } else if i == 1 {
            Some(Row::Four(Literal::Null, Literal::Text(r#"{"host":"web-1","service":"api"}"#), Literal::Integer(110), Literal::Real(F_10)))
        } else if i == 2 {
            Some(Row::Four(Literal::Null, Literal::Text(r#"{"host":"web-2","service":"api"}"#), Literal::Integer(100), Literal::Real(F_20)))
        } else if i == 3 {
            Some(Row::Four(Literal::Null, Literal::Text(r#"{"host":"web-2","service":"api"}"#), Literal::Integer(110), Literal::Real(F_20)))
        } else {
            None
        },
        Table::RangeMax => if i == 0 {
            Some(Row::Four(Literal::Null, Literal::Text(r#"{"host":"web-1","service":"api"}"#), Literal::Integer(100), Literal::Real(F_30)))
        } else if i == 1 {
            Some(Row::Four(Literal::Null, Literal::Text(r#"{"host":"web-1","service":"api"}"#), Literal::Integer(110), Literal::Real(F_30)))
        } else if i == 2 {
            Some(Row::Four(Literal::Null, Literal::Text(r#"{"host":"web-2","service":"api"}"#), Literal::Integer(100), Literal::Real(F_20)))
        } else if i == 3 {
            Some(Row::Four(Literal::Null, Literal::Text(r#"{"host":"web-2","service":"api"}"#), Literal::Integer(110), Literal::Real(F_20)))
        } else {
            None
        },
        Table::RangeSum => if i == 0 {
            Some(Row::Four(Literal::Null, Literal::Text(r#"{"host":"web-1","service":"api"}"#), Literal::Integer(100), Literal::Real(F_40)))
        } else if i == 1 {
            Some(Row::Four(Literal::Null, Literal::Text(r#"{"host":"web-1","service":"api"}"#), Literal::Integer(110), Literal::Real(F_40)))
        } else if i == 2 {
            Some(Row::Four(Literal::Null, Literal::Text(r#"{"host":"web-2","service":"api"}"#), Literal::Integer(100), Literal::Real(F_40)))
        } else if i == 3 {
            Some(Row::Four(Literal::Null, Literal::Text(r#"{"host":"web-2","service":"api"}"#), Literal::Integer(110), Literal::Real(F_40)))
        } else {
            None
        },
        Table::RangePrecision => if i == 0 {
            Some(Row::One(Literal::Real(F_0)))
        } else if i == 1 {
            Some(Row::One(Literal::Real(F_0)))
        } else if i == 2 {
            Some(Row::One(Literal::Real(F_0)))
        } else {
            None
        },
        Table::RunningAvg => if i == 0 {
            Some(Row::Four(Literal::Null, Literal::Text(r#"{"host":"web-1","service":"api"}"#), Literal::Integer(100), Literal::Real(F_10)))
        } else if i == 1 {
            Some(Row::Four(Literal::Null, Literal::Text(r#"{"host":"web-1","service":"api"}"#), Literal::Integer(110), Literal::Real(F_20)))
        } else if i == 2 {
            Some(Row::Four(Literal::Null, Literal::Text(r#"{"host":"web-2","service":"api"}"#), Literal::Integer(100), Literal::Real(F_20)))
        } else if i == 3 {
            Some(Row::Four(Literal::Null, Literal::Text(r#"{"host":"web-2","service":"api"}"#), Literal::Integer(110), Literal::Real(F_20)))
        } else {
            None
        },
        Table::RunningMin => if i == 0 {
            Some(Row::Four(Literal::Null, Literal::Text(r#"{"host":"web-1","service":"api"}"#), Literal::Integer(100), Literal::Real(F_10)))
        } else if i == 1 {
            Some(Row::Four(Literal::Null, Literal::Text(r#"{"host":"web-1","service":"api"}"#), Literal::Integer(110), Literal::Real(F_10)))
        } else if i == 2 {
            Some(Row::Four(Literal::Null, Literal::Text(r#"{"host":"web-2","service":"api"}"#), Literal::Integer(100), Literal::Real(F_20)))
        } else if i == 3 {
            Some(Row::Four(Literal::Null, Literal::Text(r#"{"host":"web-2","service":"api"}"#), Literal::Integer(110), Literal::Real(F_20)))
        } else {
            None
        },
        Table::RunningMax => if i == 0 {
            Some(Row::Four(Literal::Null, Literal::Text(r#"{"host":"web-1","service":"api"}"#), Literal::Integer(100), Literal::Real(F_10)))
        } else if i == 1 {
            Some(Row::Four(Literal::Null, Literal::Text(r#"{"host":"web-1","service":"api"}"#), Literal::Integer(110), Literal::Real(F_30)))
        } else if i == 2 {
            Some(Row::Four(Literal::Null, Literal::Text(r#"{"host":"web-2","service":"api"}"#), Literal::Integer(100), Literal::Real(F_20)))
        } else if i == 3 {
            Some(Row::Four(Literal::Null, Literal::Text(r#"{"host":"web-2","service":"api"}"#), Literal::Integer(110), Literal::Real(F_20)))
        } else {
            None
        },
        Table::RunningSum => if i == 0 {
            Some(Row::Four(Literal::Null, Literal::Text(r#"{"host":"web-1","service":"api"}"#), Literal::Integer(100), Literal::Real(F_10)))
        } else if i == 1 {
            Some(Row::Four(Literal::Null, Literal::Text(r#"{"host":"web-1","service":"api"}"#), Literal::Integer(110), Literal::Real(F_40)))
        } else if i == 2 {
            Some(Row::Four(Literal::Null, Literal::Text(r#"{"host":"web-2","service":"api"}"#), Literal::Integer(100), Literal::Real(F_20)))
        } else if i == 3 {
            Some(Row::Four(Literal::Null, Literal::Text(r#"{"host":"web-2","service":"api"}"#), Literal::Integer(110), Literal::Real(F_40)))
        } else {
            None
        },
        Table::RunningPrecision => if i == 0 {
            Some(Row::One(Literal::Real(F_1E16)))
        } else if i == 1 {
            Some(Row::One(Literal::Real(F_5E15)))
        } else if i == 2 {
            Some(Row::One(Literal::Real(F_0)))
        } else {
            None
        },
        Table::RelativeWindow => if i == 0 {
            Some(Row::Four(Literal::Null, Literal::Text(r#"{"host":"web-1","service":"api"}"#), Literal::Integer(100), Literal::Real(F_1)))
        } else if i == 1 {
            Some(Row::Four(Literal::Null, Literal::Text(r#"{"host":"web-1","service":"api"}"#), Literal::Integer(110), Literal::Real(F_1)))
        } else if i == 2 {
            Some(Row::Four(Literal::Null, Literal::Text(r#"{"host":"web-2","service":"api"}"#), Literal::Integer(100), Literal::Real(F_1)))
        } else {
            None
        },
        Table::RelativeOffset => if i == 0 {
            Some(Row::Four(Literal::Text("cpu"), Literal::Text(r#"{"host":"web-1","service":"api"}"#), Literal::Integer(110), Literal::Real(F_10)))
        } else if i == 1 {
            Some(Row::Four(Literal::Text("cpu"), Literal::Text(r#"{"host":"web-2","service":"api"}"#), Literal::Integer(110), Literal::Real(F_20)))
        } else {
            None
        },
        Table::RequestContext => if i == 0 {
            Some(Row::Four(Literal::Integer(-500 as i64), Literal::Real(F_N0_5), Literal::Real(F_2_5), Literal::Real(F_1_5)))
        } else if i == 1 {
            Some(Row::Four(Literal::Integer(1000), Literal::Real(F_N0_5), Literal::Real(F_2_5), Literal::Real(F_1_5)))
        } else if i == 2 {
            Some(Row::Four(Literal::Integer(2500), Literal::Real(F_N0_5), Literal::Real(F_2_5), Literal::Real(F_1_5)))
        } else {
            None
        },
        Table::HistogramQuantiles => if i == 0 {
            Some(Row::Three(Literal::Text(r#"{"host":"web-1","phi":"0.25"}"#), Literal::Integer(100), Literal::Real(F_0_1)))
        } else if i == 1 {
            Some(Row::Three(Literal::Text(r#"{"host":"web-1","phi":"0.25"}"#), Literal::Integer(110), Literal::Real(F_0_1)))
        } else if i == 2 {
            Some(Row::Three(Literal::Text(r#"{"host":"web-1","phi":"0.75"}"#), Literal::Integer(100), Literal::Real(F_1)))
        } else if i == 3 {
            Some(Row::Three(Literal::Text(r#"{"host":"web-1","phi":"0.75"}"#), Literal::Integer(110), Literal::Real(F_1)))
        } else {
            None
        },
        Table::One => if i == 0 {
            Some(Row::One(Literal::Integer(1)))
        } else {
            None
        },
        Table::Two => if i == 0 {
            Some(Row::One(Literal::Integer(2)))
        } else {
            None
        },
        Table::NewestFirst => if i == 0 {
            Some(Row::One(Literal::Integer(2000)))
        } else if i == 1 {
            Some(Row::One(Literal::Integer(1000)))
        } else {
            None
        },
        Table::FirstOnly => if i == 0 {
            Some(Row::One(Literal::Integer(1000)))
        } else {
            None
        },
        Table::OldestFirst => if i == 0 {
            Some(Row::One(Literal::Integer(1000)))
        } else if i == 1 {
            Some(Row::One(Literal::Integer(2000)))
        } else {
            None
        },
        Table::FirstPerPartition => if i == 0 {
            Some(Row::Five(Literal::Integer(2000), Literal::Text("info"), Literal::Text("request ok"), Literal::Null, Literal::Text("1")))
        } else {
            None
        },
        Table::LastPerPartition => if i == 0 {
            Some(Row::Five(Literal::Integer(1000), Literal::Text("error"), Literal::Text("request timeout"), Literal::Null, Literal::Text("1")))
        } else {
            None
        },
        _ => None,
    }
}

fn operator_row(table: Table, i: usize) -> (row: Option<Row>)
    ensures
        row == operator_row_of(table, i as int),
{
    match table {
        Table::RangeAvg => if i == 0 {
            Some(Row::Four(Literal::Null, Literal::Text(r#"{"host":"web-1","service":"api"}"#), Literal::Integer(100), Literal::Real(F_20)))
        } else if i == 1 {
            Some(Row::Four(Literal::Null, Literal::Text(r#"{"host":"web-1","service":"api"}"#), Literal::Integer(110), Literal::Real(F_20)))
        } else if i == 2 {
            Some(Row::Four(Literal::Null, Literal::Text(r#"{"host":"web-2","service":"api"}"#), Literal::Integer(100), Literal::Real(F_20)))
        } else if i == 3 {
            Some(Row::Four(Literal::Null, Literal::Text(r#"{"host":"web-2","service":"api"}"#), Literal::Integer(110), Literal::Real(F_20)))
        } else {
            None
        },
        Table::RangeMin => if i == 0 {
            Some(Row::Four(Literal::Null, Literal::Text(r#"{"host":"web-1","service":"api"}"#), Literal::Integer(100), Literal::Real(F_10)))
        } else if i == 1 {
            Some(Row::Four(Literal::Null, Literal::Text(r#"{"host":"web-1","service":"api"}"#), Literal::Integer(110), Literal::Real(F_10)))
        } else if i == 2 {
            Some(Row::Four(Literal::Null, Literal::Text(r#"{"host":"web-2","service":"api"}"#), Literal::Integer(100), Literal::Real(F_20)))
        } else if i == 3 {
            Some(Row::Four(Literal::Null, Literal::Text(r#"{"host":"web-2","service":"api"}"#), Literal::Integer(110), Literal::Real(F_20)))
        } else {
            None
        },
        Table::RangeMax => if i == 0 {
            Some(Row::Four(Literal::Null, Literal::Text(r#"{"host":"web-1","service":"api"}"#), Literal::Integer(100), Literal::Real(F_30)))
        } else if i == 1 {
            Some(Row::Four(Literal::Null, Literal::Text(r#"{"host":"web-1","service":"api"}"#), Literal::Integer(110), Literal::Real(F_30)))
        } else if i == 2 {
            Some(Row::Four(Literal::Null, Literal::Text(r#"{"host":"web-2","service":"api"}"#), Literal::Integer(100), Literal::Real(F_20)))
        } else if i == 3 {
            Some(Row::Four(Literal::Null, Literal::Text(r#"{"host":"web-2","service":"api"}"#), Literal::Integer(110), Literal::Real(F_20)))
        } else {
            None
        },
        Table::RangeSum => if i == 0 {
            Some(Row::Four(Literal::Null, Literal::Text(r#"{"host":"web-1","service":"api"}"#), Literal::Integer(100), Literal::Real(F_40)))
        } else if i == 1 {
            Some(Row::Four(Literal::Null, Literal::Text(r#"{"host":"web-1","service":"api"}"#), Literal::Integer(110), Literal::Real(F_40)))
        } else if i == 2 {
            Some(Row::Four(Literal::Null, Literal::Text(r#"{"host":"web-2","service":"api"}"#), Literal::Integer(100), Literal::Real(F_40)))
        } else if i == 3 {
            Some(Row::Four(Literal::Null, Literal::Text(r#"{"host":"web-2","service":"api"}"#), Literal::Integer(110), Literal::Real(F_40)))
        } else {
            None
        },
        Table::RangePrecision => if i == 0 {
            Some(Row::One(Literal::Real(F_0)))
        } else if i == 1 {
            Some(Row::One(Literal::Real(F_0)))
        } else if i == 2 {
            Some(Row::One(Literal::Real(F_0)))
        } else {
            None
        },
        Table::RunningAvg => if i == 0 {
            Some(Row::Four(Literal::Null, Literal::Text(r#"{"host":"web-1","service":"api"}"#), Literal::Integer(100), Literal::Real(F_10)))
        } else if i == 1 {
            Some(Row::Four(Literal::Null, Literal::Text(r#"{"host":"web-1","service":"api"}"#), Literal::Integer(110), Literal::Real(F_20)))
        } else if i == 2 {
            Some(Row::Four(Literal::Null, Literal::Text(r#"{"host":"web-2","service":"api"}"#), Literal::Integer(100), Literal::Real(F_20)))
        } else if i == 3 {
            Some(Row::Four(Literal::Null, Literal::Text(r#"{"host":"web-2","service":"api"}"#), Literal::Integer(110), Literal::Real(F_20)))
        } else {
            None
        },
        Table::RunningMin => if i == 0 {
            Some(Row::Four(Literal::Null, Literal::Text(r#"{"host":"web-1","service":"api"}"#), Literal::Integer(100), Literal::Real(F_10)))
        } else if i == 1 {
            Some(Row::Four(Literal::Null, Literal::Text(r#"{"host":"web-1","service":"api"}"#), Literal::Integer(110), Literal::Real(F_10)))
        } else if i == 2 {
            Some(Row::Four(Literal::Null, Literal::Text(r#"{"host":"web-2","service":"api"}"#), Literal::Integer(100), Literal::Real(F_20)))
        } else if i == 3 {
            Some(Row::Four(Literal::Null, Literal::Text(r#"{"host":"web-2","service":"api"}"#), Literal::Integer(110), Literal::Real(F_20)))
        } else {
            None
        },
        Table::RunningMax => if i == 0 {
            Some(Row::Four(Literal::Null, Literal::Text(r#"{"host":"web-1","service":"api"}"#), Literal::Integer(100), Literal::Real(F_10)))
        } else if i == 1 {
            Some(Row::Four(Literal::Null, Literal::Text(r#"{"host":"web-1","service":"api"}"#), Literal::Integer(110), Literal::Real(F_30)))
        } else if i == 2 {
            Some(Row::Four(Literal::Null, Literal::Text(r#"{"host":"web-2","service":"api"}"#), Literal::Integer(100), Literal::Real(F_20)))
        } else if i == 3 {
            Some(Row::Four(Literal::Null, Literal::Text(r#"{"host":"web-2","service":"api"}"#), Literal::Integer(110), Literal::Real(F_20)))
        } else {
            None
        },
        Table::RunningSum => if i == 0 {
            Some(Row::Four(Literal::Null, Literal::Text(r#"{"host":"web-1","service":"api"}"#), Literal::Integer(100), Literal::Real(F_10)))
        } else if i == 1 {
            Some(Row::Four(Literal::Null, Literal::Text(r#"{"host":"web-1","service":"api"}"#), Literal::Integer(110), Literal::Real(F_40)))
        } else if i == 2 {
            Some(Row::Four(Literal::Null, Literal::Text(r#"{"host":"web-2","service":"api"}"#), Literal::Integer(100), Literal::Real(F_20)))
        } else if i == 3 {
            Some(Row::Four(Literal::Null, Literal::Text(r#"{"host":"web-2","service":"api"}"#), Literal::Integer(110), Literal::Real(F_40)))
        } else {
            None
        },
        Table::RunningPrecision => if i == 0 {
            Some(Row::One(Literal::Real(F_1E16)))
        } else if i == 1 {
            Some(Row::One(Literal::Real(F_5E15)))
        } else if i == 2 {
            Some(Row::One(Literal::Real(F_0)))
        } else {
            None
        },
        Table::RelativeWindow => if i == 0 {
            Some(Row::Four(Literal::Null, Literal::Text(r#"{"host":"web-1","service":"api"}"#), Literal::Integer(100), Literal::Real(F_1)))
        } else if i == 1 {
            Some(Row::Four(Literal::Null, Literal::Text(r#"{"host":"web-1","service":"api"}"#), Literal::Integer(110), Literal::Real(F_1)))
        } else if i == 2 {
            Some(Row::Four(Literal::Null, Literal::Text(r#"{"host":"web-2","service":"api"}"#), Literal::Integer(100), Literal::Real(F_1)))
        } else {
            None
        },
        Table::RelativeOffset => if i == 0 {
            Some(Row::Four(Literal::Text("cpu"), Literal::Text(r#"{"host":"web-1","service":"api"}"#), Literal::Integer(110), Literal::Real(F_10)))
        } else if i == 1 {
            Some(Row::Four(Literal::Text("cpu"), Literal::Text(r#"{"host":"web-2","service":"api"}"#), Literal::Integer(110), Literal::Real(F_20)))
        } else {
            None
        },
        Table::RequestContext => if i == 0 {
            Some(Row::Four(Literal::Integer(-500 as i64), Literal::Real(F_N0_5), Literal::Real(F_2_5), Literal::Real(F_1_5)))
        } else if i == 1 {
            Some(Row::Four(Literal::Integer(1000), Literal::Real(F_N0_5), Literal::Real(F_2_5), Literal::Real(F_1_5)))
        } else if i == 2 {
            Some(Row::Four(Literal::Integer(2500), Literal::Real(F_N0_5), Literal::Real(F_2_5), Literal::Real(F_1_5)))
        } else {
            None
        },
        Table::HistogramQuantiles => if i == 0 {
            Some(Row::Three(Literal::Text(r#"{"host":"web-1","phi":"0.25"}"#), Literal::Integer(100), Literal::Real(F_0_1)))
        } else if i == 1 {
            Some(Row::Three(Literal::Text(r#"{"host":"web-1","phi":"0.25"}"#), Literal::Integer(110), Literal::Real(F_0_1)))
        } else if i == 2 {
            Some(Row::Three(Literal::Text(r#"{"host":"web-1","phi":"0.75"}"#), Literal::Integer(100), Literal::Real(F_1)))
        } else if i == 3 {
            Some(Row::Three(Literal::Text(r#"{"host":"web-1","phi":"0.75"}"#), Literal::Integer(110), Literal::Real(F_1)))
        } else {
            None
        },
        Table::One => if i == 0 {
            Some(Row::One(Literal::Integer(1)))
        } else {
            None
        },
        Table::Two => if i == 0 {
            Some(Row::One(Literal::Integer(2)))
        } else {
            None
        },
        Table::NewestFirst => if i == 0 {
            Some(Row::One(Literal::Integer(2000)))
        } else if i == 1 {
            Some(Row::One(Literal::Integer(1000)))
        } else {
            None
        },
        Table::FirstOnly => if i == 0 {
            Some(Row::One(Literal::Integer(1000)))
        } else {
            None
        },
        Table::OldestFirst => if i == 0 {
            Some(Row::One(Literal::Integer(1000)))
        } else if i == 1 {
            Some(Row::One(Literal::Integer(2000)))
        } else {
            None
        },
        Table::FirstPerPartition => if i == 0 {
            Some(Row::Five(Literal::Integer(2000), Literal::Text("info"), Literal::Text("request ok"), Literal::Null, Literal::Text("1")))
        } else {
            None
        },
        Table::LastPerPartition => if i == 0 {
            Some(Row::Five(Literal::Integer(1000), Literal::Text("error"), Literal::Text("request timeout"), Literal::Null, Literal::Text("1")))
        } else {
            None
        },
        _ => None,
    }
}

/// Row `i` of a table of the selection group.
pub open spec fn selection_row_of(table: Table, i: int) -> Option<Row> {
    match table {
        Table::TopHosts => if i == 0 {
            Some(Row::Three(Literal::Text("web-1"), Literal::Text("1"), Literal::Text("1")))
        } else if i == 1 {
            Some(Row::Three(Literal::Text("web-2"), Literal::Text("1"), Literal::Text("2")))
        } else {
            None
        },
        Table::UniqueHosts => if i == 0 {
            Some(Row::Two(Literal::Text("web-1"), Literal::Text("1")))
        } else if i == 1 {
            Some(Row::Two(Literal::Text("web-2"), Literal::Text("1")))
        } else {
            None
        },
        Table::Hosts => if i == 0 {
            Some(Row::One(Literal::Text("web-1")))
        } else if i == 1 {
            Some(Row::One(Literal::Text("web-2")))
        } else {
            None
        },
        Table::Formatted => if i == 0 {
            Some(Row::Four(Literal::Integer(1000), Literal::Text("error"), Literal::Text("request timeout"), Literal::Text("host=web-1 duration_ms=12")))
        } else if i == 1 {
            Some(Row::Four(Literal::Integer(2000), Literal::Text("info"), Literal::Text("request ok"), Literal::Text("host=web-2 duration_ms=4")))
        } else {
            None
        },
        Table::Arithmetic => if i == 0 {
            Some(Row::Four(Literal::Integer(1000), Literal::Text("error"), Literal::Text("request timeout"), Literal::Real(F_26)))
        } else if i == 1 {
            Some(Row::Four(Literal::Integer(2000), Literal::Text("info"), Literal::Text("request ok"), Literal::Null))
        } else {
            None
        },
        Table::ByteLengths => if i == 0 {
            Some(Row::Four(Literal::Integer(1000), Literal::Text("error"), Literal::Text("request timeout"), Literal::Integer(5)))
        } else if i == 1 {
            Some(Row::Four(Literal::Integer(2000), Literal::Text("info"), Literal::Text("request ok"), Literal::Integer(5)))
        } else {
            None
        },
        Table::Replaced => if i == 0 {
            Some(Row::Four(Literal::Integer(1000), Literal::Text("error"), Literal::Text("request timeout"), Literal::Text("node-1")))
        } else if i == 1 {
            Some(Row::Four(Literal::Integer(2000), Literal::Text("info"), Literal::Text("request ok"), Literal::Text("node-2")))
        } else {
            None
        },
        Table::Extracted => if i == 0 {
            Some(Row::Five(Literal::Integer(1000), Literal::Text("error"), Literal::Text("request timeout"), Literal::Text("010"), Literal::Text("000")))
        } else if i == 1 {
            Some(Row::Five(Literal::Integer(2000), Literal::Text("info"), Literal::Text("request ok"), Literal::Text("10"), Literal::Text("0")))
        } else {
            None
        },
        Table::ArrayLengths => if i == 0 {
            Some(Row::Four(Literal::Integer(1000), Literal::Text("error"), Literal::Text("request timeout"), Literal::Text("10")))
        } else if i == 1 {
            Some(Row::Four(Literal::Integer(2000), Literal::Text("info"), Literal::Text("request ok"), Literal::Text("7")))
        } else {
            None
        },
        Table::Statistics => if i == 0 {
            Some(Row::Three(Literal::Integer(2), Literal::Real(F_12), Literal::Real(F_4)))
        } else {
            None
        },
        Table::SumOfLengths => if i == 0 {
            Some(Row::One(Literal::Integer(3)))
        } else {
            None
        },
        Table::AnyHost => if i == 0 {
            Some(Row::Two(Literal::Text("text"), Literal::Text(r#""web-1""#)))
        } else {
            None
        },
        Table::HostExtrema => if i == 0 {
            Some(Row::Four(Literal::Text("text"), Literal::Text(r#""web-2""#), Literal::Text("text"), Literal::Text(r#""web-1""#)))
        } else {
            None
        },
        Table::Addresses => if i == 0 {
            Some(Row::One(Literal::Text("010.000.000.001")))
        } else if i == 1 {
            Some(Row::One(Literal::Text("10.0.1.1")))
        } else {
            None
        },
        Table::FourFour => if i == 0 {
            Some(Row::One(Literal::Text("4")))
        } else if i == 1 {
            Some(Row::One(Literal::Text("4")))
        } else {
            None
        },
        Table::OneZero => if i == 0 {
            Some(Row::One(Literal::Text("1")))
        } else if i == 1 {
            Some(Row::One(Literal::Text("0")))
        } else {
            None
        },
        Table::ZeroZero => if i == 0 {
            Some(Row::One(Literal::Text("0")))
        } else if i == 1 {
            Some(Row::One(Literal::Text("0")))
        } else {
            None
        },
        Table::QuantileLow => if i == 0 {
            Some(Row::One(Literal::Real(F_4)))
        } else {
            None
        },
        Table::QuantileHigh => if i == 0 {
            Some(Row::One(Literal::Real(F_12)))
        } else {
            None
        },
        Table::TypedStatistics => if i == 0 {
            Some(Row::Three(Literal::Integer(1), Literal::Real(F_2), Literal::Real(F_0)))
        } else {
            None
        },
        Table::MissingStatistics => if i == 0 {
            Some(Row::Three(Literal::Integer(0), Literal::Null, Literal::Null))
        } else {
            None
        },
        _ => None,
    }
}

fn selection_row(table: Table, i: usize) -> (row: Option<Row>)
    ensures
        row == selection_row_of(table, i as int),
{
    match table {
        Table::TopHosts => if i == 0 {
            Some(Row::Three(Literal::Text("web-1"), Literal::Text("1"), Literal::Text("1")))
        } else if i == 1 {
            Some(Row::Three(Literal::Text("web-2"), Literal::Text("1"), Literal::Text("2")))
        } else {
            None
        },
        Table::UniqueHosts => if i == 0 {
            Some(Row::Two(Literal::Text("web-1"), Literal::Text("1")))
        } else if i == 1 {
            Some(Row::Two(Literal::Text("web-2"), Literal::Text("1")))
        } else {
            None
        },
        Table::Hosts => if i == 0 {
            Some(Row::One(Literal::Text("web-1")))
        } else if i == 1 {
            Some(Row::One(Literal::Text("web-2")))
        } else {
            None
        },
        Table::Formatted => if i == 0 {
            Some(Row::Four(Literal::Integer(1000), Literal::Text("error"), Literal::Text("request timeout"), Literal::Text("host=web-1 duration_ms=12")))
        } else if i == 1 {
            Some(Row::Four(Literal::Integer(2000), Literal::Text("info"), Literal::Text("request ok"), Literal::Text("host=web-2 duration_ms=4")))
        } else {
            None
        },
        Table::Arithmetic => if i == 0 {
            Some(Row::Four(Literal::Integer(1000), Literal::Text("error"), Literal::Text("request timeout"), Literal::Real(F_26)))
        } else if i == 1 {
            Some(Row::Four(Literal::Integer(2000), Literal::Text("info"), Literal::Text("request ok"), Literal::Null))
        } else {
            None
        },
        Table::ByteLengths => if i == 0 {
            Some(Row::Four(Literal::Integer(1000), Literal::Text("error"), Literal::Text("request timeout"), Literal::Integer(5)))
        } else if i == 1 {
            Some(Row::Four(Literal::Integer(2000), Literal::Text("info"), Literal::Text("request ok"), Literal::Integer(5)))
        } else {
            None
        },
        Table::Replaced => if i == 0 {
            Some(Row::Four(Literal::Integer(1000), Literal::Text("error"), Literal::Text("request timeout"), Literal::Text("node-1")))
        } else if i == 1 {
            Some(Row::Four(Literal::Integer(2000), Literal::Text("info"), Literal::Text("request ok"), Literal::Text("node-2")))
        } else {
            None
        },
        Table::Extracted => if i == 0 {
            Some(Row::Five(Literal::Integer(1000), Literal::Text("error"), Literal::Text("request timeout"), Literal::Text("010"), Literal::Text("000")))
        } else if i == 1 {
            Some(Row::Five(Literal::Integer(2000), Literal::Text("info"), Literal::Text("request ok"), Literal::Text("10"), Literal::Text("0")))
        } else {
            None
        },
        Table::ArrayLengths => if i == 0 {
            Some(Row::Four(Literal::Integer(1000), Literal::Text("error"), Literal::Text("request timeout"), Literal::Text("10")))
        } else if i == 1 {
            Some(Row::Four(Literal::Integer(2000), Literal::Text("info"), Literal::Text("request ok"), Literal::Text("7")))
        } else {
            None
        },
        Table::Statistics => if i == 0 {
            Some(Row::Three(Literal::Integer(2), Literal::Real(F_12), Literal::Real(F_4)))
        } else {
            None
        },
        Table::SumOfLengths => if i == 0 {
            Some(Row::One(Literal::Integer(3)))
        } else {
            None
        },
        Table::AnyHost => if i == 0 {
            Some(Row::Two(Literal::Text("text"), Literal::Text(r#""web-1""#)))
        } else {
            None
        },
        Table::HostExtrema => if i == 0 {
            Some(Row::Four(Literal::Text("text"), Literal::Text(r#""web-2""#), Literal::Text("text"), Literal::Text(r#""web-1""#)))
        } else {
            None
        },
        Table::Addresses => if i == 0 {
            Some(Row::One(Literal::Text("010.000.000.001")))
        } else if i == 1 {
            Some(Row::One(Literal::Text("10.0.1.1")))
        } else {
            None
        },
        Table::FourFour => if i == 0 {
            Some(Row::One(Literal::Text("4")))
        } else if i == 1 {
            Some(Row::One(Literal::Text("4")))
        } else {
            None
        },
        Table::OneZero => if i == 0 {
            Some(Row::One(Literal::Text("1")))
        } else if i == 1 {
            Some(Row::One(Literal::Text("0")))
        } else {
            None
        },
        Table::ZeroZero => if i == 0 {
            Some(Row::One(Literal::Text("0")))
        } else if i == 1 {
            Some(Row::One(Literal::Text("0")))
        } else {
            None
        },
        Table::QuantileLow => if i == 0 {
            Some(Row::One(Literal::Real(F_4)))
        } else {
            None
        },
        Table::QuantileHigh => if i == 0 {
            Some(Row::One(Literal::Real(F_12)))
        } else {
            None
        },
        Table::TypedStatistics => if i == 0 {
            Some(Row::Three(Literal::Integer(1), Literal::Real(F_2), Literal::Real(F_0)))
        } else {
            None
        },
        Table::MissingStatistics => if i == 0 {
            Some(Row::Three(Literal::Integer(0), Literal::Null, Literal::Null))
        } else {
            None
        },
        _ => None,
    }
}

/// Row `i` of a table of the projection group.
pub open spec fn projection_row_of(table: Table, i: int) -> Option<Row> {
    match table {
        Table::Ten => if i == 0 {
            Some(Row::One(Literal::Integer(10)))
        } else {
            None
        },
        Table::Eight => if i == 0 {
            Some(Row::One(Literal::Integer(8)))
        } else {
            None
        },
        Table::Zero => if i == 0 {
            Some(Row::One(Literal::Integer(0)))
        } else {
            None
        },
        Table::AnyFlag => if i == 0 {
            Some(Row::Two(Literal::Text("true"), Literal::Text("true")))
        } else {
            None
        },
        Table::FourNulls => if i == 0 {
            Some(Row::Four(Literal::Null, Literal::Null, Literal::Null, Literal::Null))
        } else {
            None
        },
        Table::EmptyObjects => if i == 0 {
            Some(Row::Two(Literal::Text("{}"), Literal::Text("{}")))
        } else {
            None
        },
        Table::UnicodeLengths => if i == 0 {
            Some(Row::Two(Literal::Integer(2), Literal::Integer(4)))
        } else {
            None
        },
        Table::NoLengths => if i == 0 {
            Some(Row::One(Literal::Integer(0)))
        } else if i == 1 {
            Some(Row::One(Literal::Integer(0)))
        } else {
            None
        },
        Table::FlagLengths => if i == 0 {
            Some(Row::One(Literal::Integer(4)))
        } else if i == 1 {
            Some(Row::One(Literal::Integer(4)))
        } else {
            None
        },
        Table::NumberLengths => if i == 0 {
            Some(Row::One(Literal::Integer(2)))
        } else if i == 1 {
            Some(Row::One(Literal::Integer(1)))
        } else {
            None
        },
        Table::Trues => if i == 0 {
            Some(Row::One(Literal::Text("true")))
        } else if i == 1 {
            Some(Row::One(Literal::Text("true")))
        } else {
            None
        },
        Table::Durations => if i == 0 {
            Some(Row::One(Literal::Text("12")))
        } else if i == 1 {
            Some(Row::One(Literal::Text("4")))
        } else {
            None
        },
        Table::Fallbacks => if i == 0 {
            Some(Row::One(Literal::Text("fallback")))
        } else if i == 1 {
            Some(Row::One(Literal::Text("fallback")))
        } else {
            None
        },
        Table::FormattedFlags => if i == 0 {
            Some(Row::One(Literal::Text("true|2")))
        } else if i == 1 {
            Some(Row::One(Literal::Text("true|2")))
        } else {
            None
        },
        Table::FormattedEmpty => if i == 0 {
            Some(Row::One(Literal::Text("<>|<>")))
        } else if i == 1 {
            Some(Row::One(Literal::Text("<>|<>")))
        } else {
            None
        },
        Table::ConstantFacets => if i == 0 {
            Some(Row::Three(Literal::Text("service"), Literal::Text("api"), Literal::Text("2")))
        } else if i == 1 {
            Some(Row::Three(Literal::Text("nested.ok"), Literal::Text("true"), Literal::Text("2")))
        } else if i == 2 {
            Some(Row::Three(Literal::Text("nested.count"), Literal::Text("2"), Literal::Text("2")))
        } else {
            None
        },
        Table::FilteredHost => if i == 0 {
            Some(Row::Two(Literal::Text("web-2"), Literal::Null))
        } else {
            None
        },
        Table::OverflowHost => if i == 0 {
            Some(Row::Two(Literal::Text("web-1"), Literal::Text("0")))
        } else {
            None
        },
        Table::EmptyGroup => if i == 0 {
            Some(Row::Two(Literal::Text(""), Literal::Text("2")))
        } else {
            None
        },
        Table::SecondThenFirst => if i == 0 {
            Some(Row::One(Literal::Integer(2000)))
        } else if i == 1 {
            Some(Row::One(Literal::Integer(1000)))
        } else {
            None
        },
        Table::OnlyFirst => if i == 0 {
            Some(Row::One(Literal::Integer(1000)))
        } else {
            None
        },
        _ => None,
    }
}

fn projection_row(table: Table, i: usize) -> (row: Option<Row>)
    ensures
        row == projection_row_of(table, i as int),
{
    match table {
        Table::Ten => if i == 0 {
            Some(Row::One(Literal::Integer(10)))
        } else {
            None
        },
        Table::Eight => if i == 0 {
            Some(Row::One(Literal::Integer(8)))
        } else {
            None
        },
        Table::Zero => if i == 0 {
            Some(Row::One(Literal::Integer(0)))
        } else {
            None
        },
        Table::AnyFlag => if i == 0 {
            Some(Row::Two(Literal::Text("true"), Literal::Text("true")))
        } else {
            None
        },
        Table::FourNulls => if i == 0 {
            Some(Row::Four(Literal::Null, Literal::Null, Literal::Null, Literal::Null))
        } else {
            None
        },
        Table::EmptyObjects => if i == 0 {
            Some(Row::Two(Literal::Text("{}"), Literal::Text("{}")))
        } else {
            None
        },
        Table::UnicodeLengths => if i == 0 {
            Some(Row::Two(Literal::Integer(2), Literal::Integer(4)))
        } else {
            None
        },
        Table::NoLengths => if i == 0 {
            Some(Row::One(Literal::Integer(0)))
        } else if i == 1 {
            Some(Row::One(Literal::Integer(0)))
        } else {
            None
        },
        Table::FlagLengths => if i == 0 {
            Some(Row::One(Literal::Integer(4)))
        } else if i == 1 {
            Some(Row::One(Literal::Integer(4)))
        } else {
            None
        },
        Table::NumberLengths => if i == 0 {
            Some(Row::One(Literal::Integer(2)))
        } else if i == 1 {
            Some(Row::One(Literal::Integer(1)))
        } else {
            None
        },
        Table::Trues => if i == 0 {
            Some(Row::One(Literal::Text("true")))
        } else if i == 1 {
            Some(Row::One(Literal::Text("true")))
        } else {
            None
        },
        Table::Durations => if i == 0 {
            Some(Row::One(Literal::Text("12")))
        } else if i == 1 {
            Some(Row::One(Literal::Text("4")))
        } else {
            None
        },
        Table::Fallbacks => if i == 0 {
            Some(Row::One(Literal::Text("fallback")))
        } else if i == 1 {
            Some(Row::One(Literal::Text("fallback")))
        } else {
            None
        },
        Table::FormattedFlags => if i == 0 {
            Some(Row::One(Literal::Text("true|2")))
        } else if i == 1 {
            Some(Row::One(Literal::Text("true|2")))
        } else {
            None
        },
        Table::FormattedEmpty => if i == 0 {
            Some(Row::One(Literal::Text("<>|<>")))
        } else if i == 1 {
            Some(Row::One(Literal::Text("<>|<>")))
        } else {
            None
        },
        Table::ConstantFacets => if i == 0 {
            Some(Row::Three(Literal::Text("service"), Literal::Text("api"), Literal::Text("2")))
        } else if i == 1 {
            Some(Row::Three(Literal::Text("nested.ok"), Literal::Text("true"), Literal::Text("2")))
        } else if i == 2 {
            Some(Row::Three(Literal::Text("nested.count"), Literal::Text("2"), Literal::Text("2")))
        } else {
            None
        },
        Table::FilteredHost => if i == 0 {
            Some(Row::Two(Literal::Text("web-2"), Literal::Null))
        } else {
            None
        },
        Table::OverflowHost => if i == 0 {
            Some(Row::Two(Literal::Text("web-1"), Literal::Text("0")))
        } else {
            None
        },
        Table::EmptyGroup => if i == 0 {
            Some(Row::Two(Literal::Text(""), Literal::Text("2")))
        } else {
            None
        },
        Table::SecondThenFirst => if i == 0 {
            Some(Row::One(Literal::Integer(2000)))
        } else if i == 1 {
            Some(Row::One(Literal::Integer(1000)))
        } else {
            None
        },
        Table::OnlyFirst => if i == 0 {
            Some(Row::One(Literal::Integer(1000)))
        } else {
            None
        },
        _ => None,
    }
}

/// Row `i` of a table of the range group.
pub open spec fn range_row_of(table: Table, i: int) -> Option<Row> {
    match table {
        Table::OnlySecond => if i == 0 {
            Some(Row::One(Literal::Integer(2000)))
        } else {
            None
        },
        Table::FieldNames => if i == 0 {
            Some(Row::Two(Literal::Text("_msg"), Literal::Integer(2)))
        } else if i == 1 {
            Some(Row::Two(Literal::Text("_time"), Literal::Integer(2)))
        } else if i == 2 {
            Some(Row::Two(Literal::Text("client_ip"), Literal::Integer(2)))
        } else if i == 3 {
            Some(Row::Two(Literal::Text("deployment"), Literal::Integer(2)))
        } else if i == 4 {
            Some(Row::Two(Literal::Text("duration_ms"), Literal::Integer(2)))
        } else if i == 5 {
            Some(Row::Two(Literal::Text("host"), Literal::Integer(2)))
        } else if i == 6 {
            Some(Row::Two(Literal::Text("level"), Literal::Integer(2)))
        } else if i == 7 {
            Some(Row::Two(Literal::Text("nested"), Literal::Integer(2)))
        } else if i == 8 {
            Some(Row::Two(Literal::Text("service"), Literal::Integer(2)))
        } else if i == 9 {
            Some(Row::Two(Literal::Text("tags"), Literal::Integer(2)))
        } else {
            None
        },
        Table::Projection => if i == 0 {
            Some(Row::Four(Literal::Integer(1000), Literal::Text("error"), Literal::Text("request timeout"), Literal::Text(r#"{"host":"web-1"}"#)))
        } else if i == 1 {
            Some(Row::Four(Literal::Integer(2000), Literal::Text("info"), Literal::Text("request ok"), Literal::Text(r#"{"host":"web-2"}"#)))
        } else {
            None
        },
        Table::EmptyCounts => if i == 0 {
            Some(Row::Two(Literal::Integer(2), Literal::Integer(0)))
        } else {
            None
        },
        Table::TypedValues => if i == 0 {
            Some(Row::Three(Literal::Text("text"), Literal::Text(r#""web-1""#), Literal::Integer(1)))
        } else if i == 1 {
            Some(Row::Three(Literal::Text("text"), Literal::Text(r#""web-2""#), Literal::Integer(1)))
        } else {
            None
        },
        Table::Presence => if i == 0 {
            Some(Row::Four(Literal::Integer(1000), Literal::Integer(1), Literal::Text("text"), Literal::Text(r#""web-1""#)))
        } else if i == 1 {
            Some(Row::Four(Literal::Integer(2000), Literal::Integer(1), Literal::Text("text"), Literal::Text(r#""web-2""#)))
        } else {
            None
        },
        Table::NumericAggregates => if i == 0 {
            Some(Row::Five(Literal::Real(F_16), Literal::Real(F_8), Literal::Real(F_4), Literal::Real(F_12), Literal::Real(F_8)))
        } else {
            None
        },
        Table::At500 => if i == 0 {
            Some(Row::One(Literal::Integer(500)))
        } else {
            None
        },
        Table::At4000 => if i == 0 {
            Some(Row::One(Literal::Integer(4000)))
        } else {
            None
        },
        Table::At6000 => if i == 0 {
            Some(Row::One(Literal::Integer(6000)))
        } else {
            None
        },
        Table::At6002Twice => if i == 0 {
            Some(Row::One(Literal::Integer(6002)))
        } else if i == 1 {
            Some(Row::One(Literal::Integer(6002)))
        } else {
            None
        },
        Table::DayInclusive => if i == 0 {
            Some(Row::One(Literal::Integer(43_200_000)))
        } else if i == 1 {
            Some(Row::One(Literal::Integer(39_600_123)))
        } else if i == 2 {
            Some(Row::One(Literal::Integer(36_000_000)))
        } else {
            None
        },
        Table::DayExclusive => if i == 0 {
            Some(Row::One(Literal::Integer(39_600_123)))
        } else {
            None
        },
        Table::WholeDay => if i == 0 {
            Some(Row::One(Literal::Integer(43_200_001)))
        } else if i == 1 {
            Some(Row::One(Literal::Integer(43_200_000)))
        } else if i == 2 {
            Some(Row::One(Literal::Integer(39_600_123)))
        } else if i == 3 {
            Some(Row::One(Literal::Integer(36_000_000)))
        } else if i == 4 {
            Some(Row::One(Literal::Integer(35_999_999)))
        } else {
            None
        },
        Table::Weekdays => if i == 0 {
            Some(Row::One(Literal::Integer(1_799_409_600_000)))
        } else if i == 1 {
            Some(Row::One(Literal::Integer(1_799_323_200_000)))
        } else if i == 2 {
            Some(Row::One(Literal::Integer(1_799_236_800_000)))
        } else if i == 3 {
            Some(Row::One(Literal::Integer(1_799_150_400_000)))
        } else if i == 4 {
            Some(Row::One(Literal::Integer(1_799_064_000_000)))
        } else if i == 5 {
            Some(Row::One(Literal::Integer(1_799_022_600_000)))
        } else {
            None
        },
        Table::WholeWeek => if i == 0 {
            Some(Row::One(Literal::Integer(1_799_496_000_000)))
        } else if i == 1 {
            Some(Row::One(Literal::Integer(1_799_409_600_000)))
        } else if i == 2 {
            Some(Row::One(Literal::Integer(1_799_323_200_000)))
        } else if i == 3 {
            Some(Row::One(Literal::Integer(1_799_236_800_000)))
        } else if i == 4 {
            Some(Row::One(Literal::Integer(1_799_150_400_000)))
        } else if i == 5 {
            Some(Row::One(Literal::Integer(1_799_064_000_000)))
        } else if i == 6 {
            Some(Row::One(Literal::Integer(1_799_022_600_000)))
        } else if i == 7 {
            Some(Row::One(Literal::Integer(1_799_019_000_000)))
        } else if i == 8 {
            Some(Row::One(Literal::Integer(1_798_977_600_000)))
        } else {
            None
        },
        Table::ShiftedMonday => if i == 0 {
            Some(Row::One(Literal::Integer(1_799_064_000_000)))
        } else if i == 1 {
            Some(Row::One(Literal::Integer(1_799_022_600_000)))
        } else if i == 2 {
            Some(Row::One(Literal::Integer(1_799_019_000_000)))
        } else {
            None
        },
        Table::BeforeEpoch => if i == 0 {
            Some(Row::One(Literal::Integer(-345_600_000 as i64)))
        } else {
            None
        },
        Table::PreEpoch => if i == 0 {
            Some(Row::Three(Literal::Text("_time"), Literal::Text("1969-12-31T23:59:59.999999Z"), Literal::Text("1")))
        } else {
            None
        },
        _ => None,
    }
}

fn range_row(table: Table, i: usize) -> (row: Option<Row>)
    ensures
        row == range_row_of(table, i as int),
{
    match table {
        Table::OnlySecond => if i == 0 {
            Some(Row::One(Literal::Integer(2000)))
        } else {
            None
        },
        Table::FieldNames => if i == 0 {
            Some(Row::Two(Literal::Text("_msg"), Literal::Integer(2)))
        } else if i == 1 {
            Some(Row::Two(Literal::Text("_time"), Literal::Integer(2)))
        } else if i == 2 {
            Some(Row::Two(Literal::Text("client_ip"), Literal::Integer(2)))
        } else if i == 3 {
            Some(Row::Two(Literal::Text("deployment"), Literal::Integer(2)))
        } else if i == 4 {
            Some(Row::Two(Literal::Text("duration_ms"), Literal::Integer(2)))
        } else if i == 5 {
            Some(Row::Two(Literal::Text("host"), Literal::Integer(2)))
        } else if i == 6 {
            Some(Row::Two(Literal::Text("level"), Literal::Integer(2)))
        } else if i == 7 {
            Some(Row::Two(Literal::Text("nested"), Literal::Integer(2)))
        } else if i == 8 {
            Some(Row::Two(Literal::Text("service"), Literal::Integer(2)))
        } else if i == 9 {
            Some(Row::Two(Literal::Text("tags"), Literal::Integer(2)))
        } else {
            None
        },
        Table::Projection => if i == 0 {
            Some(Row::Four(Literal::Integer(1000), Literal::Text("error"), Literal::Text("request timeout"), Literal::Text(r#"{"host":"web-1"}"#)))
        } else if i == 1 {
            Some(Row::Four(Literal::Integer(2000), Literal::Text("info"), Literal::Text("request ok"), Literal::Text(r#"{"host":"web-2"}"#)))
        } else {
            None
        },
        Table::EmptyCounts => if i == 0 {
            Some(Row::Two(Literal::Integer(2), Literal::Integer(0)))
        } else {
            None
        },
        Table::TypedValues => if i == 0 {
            Some(Row::Three(Literal::Text("text"), Literal::Text(r#""web-1""#), Literal::Integer(1)))
        } else if i == 1 {
            Some(Row::Three(Literal::Text("text"), Literal::Text(r#""web-2""#), Literal::Integer(1)))
        } else {
            None
        },
        Table::Presence => if i == 0 {
            Some(Row::Four(Literal::Integer(1000), Literal::Integer(1), Literal::Text("text"), Literal::Text(r#""web-1""#)))
        } else if i == 1 {
            Some(Row::Four(Literal::Integer(2000), Literal::Integer(1), Literal::Text("text"), Literal::Text(r#""web-2""#)))
        } else {
            None
        },
        Table::NumericAggregates => if i == 0 {
            Some(Row::Five(Literal::Real(F_16), Literal::Real(F_8), Literal::Real(F_4), Literal::Real(F_12), Literal::Real(F_8)))
        } else {
            None
        },
        Table::At500 => if i == 0 {
            Some(Row::One(Literal::Integer(500)))
        } else {
            None
        },
        Table::At4000 => if i == 0 {
            Some(Row::One(Literal::Integer(4000)))
        } else {
            None
        },
        Table::At6000 => if i == 0 {
            Some(Row::One(Literal::Integer(6000)))
        } else {
            None
        },
        Table::At6002Twice => if i == 0 {
            Some(Row::One(Literal::Integer(6002)))
        } else if i == 1 {
            Some(Row::One(Literal::Integer(6002)))
        } else {
            None
        },
        Table::DayInclusive => if i == 0 {
            Some(Row::One(Literal::Integer(43_200_000)))
        } else if i == 1 {
            Some(Row::One(Literal::Integer(39_600_123)))
        } else if i == 2 {
            Some(Row::One(Literal::Integer(36_000_000)))
        } else {
            None
        },
        Table::DayExclusive => if i == 0 {
            Some(Row::One(Literal::Integer(39_600_123)))
        } else {
            None
        },
        Table::WholeDay => if i == 0 {
            Some(Row::One(Literal::Integer(43_200_001)))
        } else if i == 1 {
            Some(Row::One(Literal::Integer(43_200_000)))
        } else if i == 2 {
            Some(Row::One(Literal::Integer(39_600_123)))
        } else if i == 3 {
            Some(Row::One(Literal::Integer(36_000_000)))
        } else if i == 4 {
            Some(Row::One(Literal::Integer(35_999_999)))
        } else {
            None
        },
        Table::Weekdays => if i == 0 {
            Some(Row::One(Literal::Integer(1_799_409_600_000)))
        } else if i == 1 {
            Some(Row::One(Literal::Integer(1_799_323_200_000)))
        } else if i == 2 {
            Some(Row::One(Literal::Integer(1_799_236_800_000)))
        } else if i == 3 {
            Some(Row::One(Literal::Integer(1_799_150_400_000)))
        } else if i == 4 {
            Some(Row::One(Literal::Integer(1_799_064_000_000)))
        } else if i == 5 {
            Some(Row::One(Literal::Integer(1_799_022_600_000)))
        } else {
            None
        },
        Table::WholeWeek => if i == 0 {
            Some(Row::One(Literal::Integer(1_799_496_000_000)))
        } else if i == 1 {
            Some(Row::One(Literal::Integer(1_799_409_600_000)))
        } else if i == 2 {
            Some(Row::One(Literal::Integer(1_799_323_200_000)))
        } else if i == 3 {
            Some(Row::One(Literal::Integer(1_799_236_800_000)))
        } else if i == 4 {
            Some(Row::One(Literal::Integer(1_799_150_400_000)))
        } else if i == 5 {
            Some(Row::One(Literal::Integer(1_799_064_000_000)))
        } else if i == 6 {
            Some(Row::One(Literal::Integer(1_799_022_600_000)))
        } else if i == 7 {
            Some(Row::One(Literal::Integer(1_799_019_000_000)))
        } else if i == 8 {
            Some(Row::One(Literal::Integer(1_798_977_600_000)))
        } else {
            None
        },
        Table::ShiftedMonday => if i == 0 {
            Some(Row::One(Literal::Integer(1_799_064_000_000)))
        } else if i == 1 {
            Some(Row::One(Literal::Integer(1_799_022_600_000)))
        } else if i == 2 {
            Some(Row::One(Literal::Integer(1_799_019_000_000)))
        } else {
            None
        },
        Table::BeforeEpoch => if i == 0 {
            Some(Row::One(Literal::Integer(-345_600_000 as i64)))
        } else {
            None
        },
        Table::PreEpoch => if i == 0 {
            Some(Row::Three(Literal::Text("_time"), Literal::Text("1969-12-31T23:59:59.999999Z"), Literal::Text("1")))
        } else {
            None
        },
        _ => None,
    }
}

/// Row `i` of a table; a table ends where there is no row.
pub open spec fn row_of(table: Table, i: int) -> Option<Row> {
    if metric_row_of(table, i) is Some {
        metric_row_of(table, i)
    } else if operator_row_of(table, i) is Some {
        operator_row_of(table, i)
    } else if selection_row_of(table, i) is Some {
        selection_row_of(table, i)
    } else if projection_row_of(table, i) is Some {
        projection_row_of(table, i)
    } else {
        range_row_of(table, i)
    }
}

/// Row `i` of a table.
pub fn table_row(table: Table, i: usize) -> (row: Option<Row>)
    ensures
        row == row_of(table, i as int),
{
    if let Some(row) = metric_row(table, i) {
        return Some(row);
    }
    if let Some(row) = operator_row(table, i) {
        return Some(row);
    }
    if let Some(row) = selection_row(table, i) {
        return Some(row);
    }
    if let Some(row) = projection_row(table, i) {
        return Some(row);
    }
    range_row(table, i)
}

} // verus!
