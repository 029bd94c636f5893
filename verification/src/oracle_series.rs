//! The data set of the metric oracles.
use crate::ieee::{
    F_0, F_0_5, F_1, F_10, F_100, F_101, F_11, F_12, F_123, F_13, F_14, F_15, F_150, F_16,
    F_17, F_18, F_180, F_19, F_1E12, F_1E12_AND_HALF, F_1E16, F_1E20, F_1EM20, F_1_5, F_1_6,
    F_2, F_20, F_200, F_21, F_22, F_23, F_24, F_25, F_26, F_27, F_28, F_29, F_2E12,
    F_2_4000000000000004, F_3, F_30, F_300, F_31, F_32, F_3E12, F_4, F_40, F_42, F_43, F_4_5,
    F_4_800000000000001, F_5, F_500, F_6, F_7, F_7_2, F_8, F_9, F_N1, F_N1E16, F_N1_5, F_N1_6,
    F_N2, F_N2_6, F_N3, F_N4, HALF_PI, INF, MAX, NAN, NEG_INF, NEG_ZERO, PI,
};
use crate::order;
use crate::remote_write::{self, Series, WriteRequest};
use vstd::prelude::*;

verus! {

/// Every sample time of the data set around `timestamp_ms` fits in 64 bits.
pub open spec fn in_reach(timestamp_ms: i64) -> bool {
    i64::MIN + 30_000 <= timestamp_ms <= i64::MAX - 610_000
}

/// Adds a series of one sample and one label.
fn sample(request: &mut WriteRequest, name: &str, value: u64, at: i64, key: &str, label: &str)
    requires
        old(request).well_formed(),
        in_reach(old(request).timestamp_ms),
        -30_000 <= at <= 610_000,
    ensures
        final(request).well_formed(),
        final(request).timestamp_ms == old(request).timestamp_ms,
        final(request).written@ == old(request).written@.push(
            (Series { name: name@, points: seq![(value, at)], labels: seq![(key@, label@)] }),
        ),
{
    let points: [(u64, i64); 1] = [(value, at)];
    let labels: [(&str, &str); 1] = [(key, label)];
    assert(points@ =~= seq![(value, at)]);
    assert(order::pair_views(labels@) =~= seq![(key@, label@)]);
    request.series(name, &points, &labels);
}

/// Adds a series of one sample and two labels.
fn sample_of_two(
    request: &mut WriteRequest,
    name: &str,
    value: u64,
    at: i64,
    key: &str,
    label: &str,
    key2: &str,
    label2: &str,
)
    requires
        old(request).well_formed(),
        in_reach(old(request).timestamp_ms),
        -30_000 <= at <= 610_000,
    ensures
        final(request).well_formed(),
        final(request).timestamp_ms == old(request).timestamp_ms,
        final(request).written@ == old(request).written@.push(
            (Series {
                name: name@,
                points: seq![(value, at)],
                labels: seq![(key@, label@), (key2@, label2@)],
            }),
        ),
{
    let points: [(u64, i64); 1] = [(value, at)];
    let labels: [(&str, &str); 2] = [(key, label), (key2, label2)];
    assert(points@ =~= seq![(value, at)]);
    assert(order::pair_views(labels@) =~= seq![(key@, label@), (key2@, label2@)]);
    request.series(name, &points, &labels);
}

/// Adds a series of two samples and one label.
fn two_samples(
    request: &mut WriteRequest,
    name: &str,
    value: u64,
    at: i64,
    value2: u64,
    at2: i64,
    key: &str,
    label: &str,
)
    requires
        old(request).well_formed(),
        in_reach(old(request).timestamp_ms),
        -30_000 <= at <= 610_000,
        -30_000 <= at2 <= 610_000,
    ensures
        final(request).well_formed(),
        final(request).timestamp_ms == old(request).timestamp_ms,
        final(request).written@ == old(request).written@.push(
            (Series {
                name: name@,
                points: seq![(value, at), (value2, at2)],
                labels: seq![(key@, label@)],
            }),
        ),
{
    let points: [(u64, i64); 2] = [(value, at), (value2, at2)];
    let labels: [(&str, &str); 1] = [(key, label)];
    assert(points@ =~= seq![(value, at), (value2, at2)]);
    assert(order::pair_views(labels@) =~= seq![(key@, label@)]);
    request.series(name, &points, &labels);
}

/// Series whose samples fix lookback, steps and quoted names.
pub open spec fn temporal_series() -> Seq<Series> {
    seq![
        Series {
            name: "oracle_lookback"@,
            points: seq![(F_7, 0i64)],
            labels: seq![],
        },
        Series {
            name: "oracle_temporal"@,
            points: seq![(F_1, -30_000i64), (F_2, -20_000i64), (F_3, -10_000i64), (F_4, 0i64), (F_5, 10_000i64), (F_6, 20_000i64), (F_7, 30_000i64)],
            labels: seq![],
        },
        Series {
            name: "oracle_step"@,
            points: seq![(F_1, -10_000i64), (F_2, -9000i64), (F_3, -8000i64), (F_4, -7000i64), (F_5, -6000i64), (F_6, -5000i64), (F_7, -4000i64), (F_8, -3000i64), (F_9, -2000i64), (F_10, -1000i64), (F_11, 0i64), (F_12, 1000i64), (F_13, 2000i64), (F_14, 3000i64), (F_15, 4000i64), (F_16, 5000i64), (F_17, 6000i64), (F_18, 7000i64), (F_19, 8000i64), (F_20, 9000i64), (F_21, 10_000i64), (F_22, 11_000i64), (F_23, 12_000i64), (F_24, 13_000i64), (F_25, 14_000i64), (F_26, 15_000i64), (F_27, 16_000i64), (F_28, 17_000i64), (F_29, 18_000i64), (F_30, 19_000i64), (F_31, 20_000i64)],
            labels: seq![],
        },
        Series {
            name: "oracle.metric/温度"@,
            points: seq![(F_42, 30_000i64)],
            labels: seq![("node.name"@, "東京"@)],
        },
        Series {
            name: "oracle.\"quoted\"\\温度"@,
            points: seq![(F_43, 30_000i64)],
            labels: seq![("node.name"@, "大阪"@)],
        },
    ]
}

/// Series for arithmetic and one-to-one matching.
pub open spec fn matching_series() -> Seq<Series> {
    seq![
        Series {
            name: "oracle_arithmetic_lhs"@,
            points: seq![(F_8, 30_000i64)],
            labels: seq![("host"@, "a"@), ("zone"@, "east"@)],
        },
        Series {
            name: "oracle_arithmetic_rhs"@,
            points: seq![(F_2, 30_000i64)],
            labels: seq![("host"@, "a"@), ("zone"@, "east"@)],
        },
        Series {
            name: "oracle_arithmetic_rhs_duplicate"@,
            points: seq![(F_3, 30_000i64)],
            labels: seq![("host"@, "a"@), ("zone"@, "east"@)],
        },
        Series {
            name: "oracle_matching_lhs"@,
            points: seq![(F_8, 30_000i64)],
            labels: seq![("host"@, "a"@), ("shared"@, "x"@), ("zone"@, "east"@)],
        },
        Series {
            name: "oracle_matching_rhs"@,
            points: seq![(F_2, 30_000i64)],
            labels: seq![("host"@, "a"@), ("shared"@, "x"@), ("zone"@, "west"@)],
        },
        Series {
            name: "oracle_matching_rhs_duplicate"@,
            points: seq![(F_3, 30_000i64)],
            labels: seq![("host"@, "a"@), ("shared"@, "x"@), ("zone"@, "north"@)],
        },
    ]
}

/// Series for many-to-one and one-to-many matching.
pub open spec fn grouping_series() -> Seq<Series> {
    seq![
        Series {
            name: "oracle_group_many_lhs"@,
            points: seq![(F_8, 30_000i64)],
            labels: seq![("host"@, "a"@), ("owner"@, "old"@), ("pod"@, "p1"@), ("zone"@, "east"@)],
        },
        Series {
            name: "oracle_group_many_lhs"@,
            points: seq![(F_9, 30_000i64)],
            labels: seq![("host"@, "a"@), ("owner"@, "old"@), ("pod"@, "p2"@), ("zone"@, "west"@)],
        },
        Series {
            name: "oracle_group_collision_many"@,
            points: seq![(F_4, 30_000i64)],
            labels: seq![("host"@, "a"@), ("team"@, "red"@)],
        },
        Series {
            name: "oracle_group_collision_many"@,
            points: seq![(F_5, 30_000i64)],
            labels: seq![("host"@, "a"@), ("team"@, "blue"@)],
        },
        Series {
            name: "oracle_group_one_rhs"@,
            points: seq![(F_2, 30_000i64)],
            labels: seq![("host"@, "a"@), ("team"@, "core"@)],
        },
        Series {
            name: "oracle_group_one_rhs_duplicate"@,
            points: seq![(F_3, 30_000i64)],
            labels: seq![("host"@, "a"@), ("team"@, "ops"@)],
        },
        Series {
            name: "oracle_group_one_lhs"@,
            points: seq![(F_8, 30_000i64)],
            labels: seq![("host"@, "a"@), ("team"@, "core"@)],
        },
        Series {
            name: "oracle_group_one_lhs_duplicate"@,
            points: seq![(F_9, 30_000i64)],
            labels: seq![("host"@, "a"@), ("team"@, "ops"@)],
        },
        Series {
            name: "oracle_group_many_rhs"@,
            points: seq![(F_2, 30_000i64)],
            labels: seq![("host"@, "a"@), ("pod"@, "p1"@), ("zone"@, "east"@)],
        },
        Series {
            name: "oracle_group_many_rhs"@,
            points: seq![(F_3, 30_000i64)],
            labels: seq![("host"@, "a"@), ("pod"@, "p2"@), ("zone"@, "west"@)],
        },
    ]
}

/// Series for aggregation, precision and non-finite averages.
pub open spec fn aggregation_series() -> Seq<Series> {
    seq![
        Series {
            name: "oracle_aggregation"@,
            points: seq![(F_1, 20_000i64), (F_3, 30_000i64)],
            labels: seq![("host"@, "a"@), ("region"@, "east"@)],
        },
        Series {
            name: "oracle_aggregation"@,
            points: seq![(F_2, 20_000i64), (F_4, 30_000i64)],
            labels: seq![("host"@, "b"@), ("region"@, "east"@)],
        },
        Series {
            name: "oracle_aggregation"@,
            points: seq![(F_5, 20_000i64), (F_6, 30_000i64)],
            labels: seq![("host"@, "c"@), ("region"@, "west"@)],
        },
        Series {
            name: "oracle_avg_precision"@,
            points: seq![(F_1E16, 30_000i64)],
            labels: seq![("host"@, "a"@)],
        },
        Series {
            name: "oracle_avg_precision"@,
            points: seq![(F_1, 30_000i64)],
            labels: seq![("host"@, "b"@)],
        },
        Series {
            name: "oracle_avg_precision"@,
            points: seq![(F_N1E16, 30_000i64)],
            labels: seq![("host"@, "c"@)],
        },
        Series {
            name: "oracle_avg_ieee"@,
            points: seq![(NAN, 30_000i64)],
            labels: seq![("case"@, "nan"@), ("host"@, "a"@)],
        },
        Series {
            name: "oracle_avg_ieee"@,
            points: seq![(F_1, 30_000i64)],
            labels: seq![("case"@, "nan"@), ("host"@, "b"@)],
        },
        Series {
            name: "oracle_avg_ieee"@,
            points: seq![(INF, 30_000i64)],
            labels: seq![("case"@, "positive"@), ("host"@, "a"@)],
        },
        Series {
            name: "oracle_avg_ieee"@,
            points: seq![(F_1, 30_000i64)],
            labels: seq![("case"@, "positive"@), ("host"@, "b"@)],
        },
        Series {
            name: "oracle_avg_ieee"@,
            points: seq![(INF, 30_000i64)],
            labels: seq![("case"@, "mixed"@), ("host"@, "a"@)],
        },
        Series {
            name: "oracle_avg_ieee"@,
            points: seq![(NEG_INF, 30_000i64)],
            labels: seq![("case"@, "mixed"@), ("host"@, "b"@)],
        },
    ]
}

/// Series for value counts, rank ties and range averages.
pub open spec fn ranking_series() -> Seq<Series> {
    seq![
        Series {
            name: "oracle_count_values"@,
            points: seq![(F_1EM20, 30_000i64)],
            labels: seq![("host"@, "tiny"@)],
        },
        Series {
            name: "oracle_count_values"@,
            points: seq![(F_1E20, 30_000i64)],
            labels: seq![("host"@, "huge"@)],
        },
        Series {
            name: "oracle_count_values"@,
            points: seq![(NEG_ZERO, 30_000i64)],
            labels: seq![("host"@, "negative_zero"@)],
        },
        Series {
            name: "oracle_count_values"@,
            points: seq![(INF, 30_000i64)],
            labels: seq![("host"@, "positive_inf"@)],
        },
        Series {
            name: "oracle_count_values"@,
            points: seq![(NAN, 30_000i64)],
            labels: seq![("host"@, "nan"@)],
        },
        Series {
            name: "oracle_rank_tie"@,
            points: seq![(F_5, 30_000i64)],
            labels: seq![("host"@, "a"@)],
        },
        Series {
            name: "oracle_rank_tie"@,
            points: seq![(F_5, 30_000i64)],
            labels: seq![("host"@, "b"@)],
        },
        Series {
            name: "oracle_range_avg_precision"@,
            points: seq![(F_1E16, 10_000i64), (F_1, 20_000i64), (F_N1E16, 30_000i64)],
            labels: seq![],
        },
        Series {
            name: "oracle_range_avg_overflow"@,
            points: seq![(MAX, 20_000i64), (MAX, 30_000i64)],
            labels: seq![],
        },
    ]
}

/// Series for range averages and extrema over non-finite values.
pub open spec fn range_series() -> Seq<Series> {
    seq![
        Series {
            name: "oracle_range_avg_ieee"@,
            points: seq![(NAN, 20_000i64), (F_1, 30_000i64)],
            labels: seq![("case"@, "nan"@)],
        },
        Series {
            name: "oracle_range_avg_ieee"@,
            points: seq![(INF, 20_000i64), (F_1, 30_000i64)],
            labels: seq![("case"@, "positive"@)],
        },
        Series {
            name: "oracle_range_avg_ieee"@,
            points: seq![(INF, 20_000i64), (NEG_INF, 30_000i64)],
            labels: seq![("case"@, "mixed"@)],
        },
        Series {
            name: "oracle_range_extrema"@,
            points: seq![(NAN, 20_000i64), (NAN, 30_000i64)],
            labels: seq![("case"@, "all_nan"@)],
        },
        Series {
            name: "oracle_range_extrema"@,
            points: seq![(NAN, 20_000i64), (F_2, 30_000i64)],
            labels: seq![("case"@, "mixed"@)],
        },
        Series {
            name: "oracle_range_extrema"@,
            points: seq![(NEG_INF, 20_000i64), (INF, 30_000i64)],
            labels: seq![("case"@, "infinite"@)],
        },
        Series {
            name: "oracle_range_extrema"@,
            points: seq![(F_0, 20_000i64), (NEG_ZERO, 30_000i64)],
            labels: seq![("case"@, "zero"@)],
        },
        Series {
            name: "oracle_range_extrema"@,
            points: seq![(NEG_ZERO, 20_000i64), (F_0, 30_000i64)],
            labels: seq![("case"@, "zero_reverse"@)],
        },
    ]
}

/// Counters: steady, reset, sparse, repeated and non-finite.
pub open spec fn counter_series() -> Seq<Series> {
    seq![
        Series {
            name: "oracle_counter"@,
            points: seq![(F_100, 10_000i64), (F_300, 30_000i64), (F_500, 50_000i64)],
            labels: seq![("case"@, "steady"@)],
        },
        Series {
            name: "oracle_counter"@,
            points: seq![(F_100, 10_000i64), (F_150, 30_000i64), (F_20, 50_000i64)],
            labels: seq![("case"@, "reset"@)],
        },
        Series {
            name: "oracle_counter"@,
            points: seq![(F_100, 30_000i64), (F_200, 40_000i64)],
            labels: seq![("case"@, "sparse"@)],
        },
        Series {
            name: "oracle_counter"@,
            points: seq![(F_1, 10_000i64), (F_101, 30_000i64)],
            labels: seq![("case"@, "zero"@)],
        },
        Series {
            name: "oracle_counter"@,
            points: seq![(F_7, 10_000i64), (F_7, 30_000i64), (F_7, 50_000i64)],
            labels: seq![("case"@, "constant"@)],
        },
        Series {
            name: "oracle_counter"@,
            points: seq![(F_1, 10_000i64), (F_1, 20_000i64), (F_2, 30_000i64), (F_2, 40_000i64), (F_1, 50_000i64)],
            labels: seq![("case"@, "repeated"@)],
        },
        Series {
            name: "oracle_counter"@,
            points: seq![(NAN, 20_000i64), (NAN, 40_000i64)],
            labels: seq![("case"@, "nan_repeat"@)],
        },
        Series {
            name: "oracle_counter"@,
            points: seq![(F_0, 20_000i64), (NEG_ZERO, 40_000i64)],
            labels: seq![("case"@, "zero_sign"@)],
        },
        Series {
            name: "oracle_counter"@,
            points: seq![(INF, 10_000i64), (INF, 30_000i64), (INF, 50_000i64)],
            labels: seq![("case"@, "constant_inf"@)],
        },
        Series {
            name: "oracle_counter"@,
            points: seq![(F_5, 50_000i64)],
            labels: seq![("case"@, "singleton"@)],
        },
        Series {
            name: "oracle_counter"@,
            points: seq![(NAN, 20_000i64), (F_2, 40_000i64)],
            labels: seq![("case"@, "nan"@)],
        },
        Series {
            name: "oracle_counter"@,
            points: seq![(F_1, 20_000i64), (INF, 40_000i64)],
            labels: seq![("case"@, "pos_inf"@)],
        },
        Series {
            name: "oracle_counter"@,
            points: seq![(INF, 20_000i64), (F_1, 40_000i64)],
            labels: seq![("case"@, "inf_drop"@)],
        },
        Series {
            name: "oracle_counter"@,
            points: seq![(F_1, 20_000i64), (NEG_INF, 40_000i64)],
            labels: seq![("case"@, "neg_inf"@)],
        },
    ]
}

/// Inputs of the sign transforms.
pub open spec fn transform_series() -> Seq<Series> {
    seq![
        Series {
            name: "oracle_transform"@,
            points: seq![(F_2, 30_000i64)],
            labels: seq![("case"@, "positive"@)],
        },
        Series {
            name: "oracle_transform"@,
            points: seq![(F_N3, 20_000i64), (F_N4, 30_000i64)],
            labels: seq![("case"@, "negative"@)],
        },
        Series {
            name: "oracle_transform"@,
            points: seq![(NEG_ZERO, 30_000i64)],
            labels: seq![("case"@, "negative_zero"@)],
        },
        Series {
            name: "oracle_transform"@,
            points: seq![(NAN, 30_000i64)],
            labels: seq![("case"@, "nan"@)],
        },
        Series {
            name: "oracle_transform"@,
            points: seq![(INF, 30_000i64)],
            labels: seq![("case"@, "positive_inf"@)],
        },
        Series {
            name: "oracle_transform"@,
            points: seq![(NEG_INF, 30_000i64)],
            labels: seq![("case"@, "negative_inf"@)],
        },
    ]
}

/// Inputs of rounding.
pub open spec fn round_series() -> Seq<Series> {
    seq![
        Series {
            name: "oracle_round"@,
            points: seq![(F_N1_6, 20_000i64), (F_N2_6, 30_000i64)],
            labels: seq![("case"@, "negative"@)],
        },
        Series {
            name: "oracle_round"@,
            points: seq![(F_N1_5, 30_000i64)],
            labels: seq![("case"@, "negative_tie"@)],
        },
        Series {
            name: "oracle_round"@,
            points: seq![(NEG_ZERO, 30_000i64)],
            labels: seq![("case"@, "negative_zero"@)],
        },
        Series {
            name: "oracle_round"@,
            points: seq![(F_1_6, 30_000i64)],
            labels: seq![("case"@, "positive"@)],
        },
        Series {
            name: "oracle_round"@,
            points: seq![(F_1_5, 30_000i64)],
            labels: seq![("case"@, "positive_tie"@)],
        },
        Series {
            name: "oracle_round"@,
            points: seq![(NAN, 30_000i64)],
            labels: seq![("case"@, "nan"@)],
        },
        Series {
            name: "oracle_round"@,
            points: seq![(INF, 30_000i64)],
            labels: seq![("case"@, "positive_inf"@)],
        },
        Series {
            name: "oracle_round"@,
            points: seq![(NEG_INF, 30_000i64)],
            labels: seq![("case"@, "negative_inf"@)],
        },
    ]
}

/// Inputs of clamping.
pub open spec fn clamp_series() -> Seq<Series> {
    seq![
        Series {
            name: "oracle_clamp"@,
            points: seq![(F_N2, 20_000i64), (F_N3, 30_000i64)],
            labels: seq![("case"@, "below"@)],
        },
        Series {
            name: "oracle_clamp"@,
            points: seq![(F_2, 30_000i64)],
            labels: seq![("case"@, "inside"@)],
        },
        Series {
            name: "oracle_clamp"@,
            points: seq![(F_8, 30_000i64)],
            labels: seq![("case"@, "above"@)],
        },
        Series {
            name: "oracle_clamp"@,
            points: seq![(NEG_ZERO, 30_000i64)],
            labels: seq![("case"@, "negative_zero"@)],
        },
        Series {
            name: "oracle_clamp"@,
            points: seq![(F_0, 30_000i64)],
            labels: seq![("case"@, "positive_zero"@)],
        },
        Series {
            name: "oracle_clamp"@,
            points: seq![(NAN, 30_000i64)],
            labels: seq![("case"@, "nan"@)],
        },
        Series {
            name: "oracle_clamp"@,
            points: seq![(INF, 30_000i64)],
            labels: seq![("case"@, "positive_inf"@)],
        },
        Series {
            name: "oracle_clamp"@,
            points: seq![(NEG_INF, 30_000i64)],
            labels: seq![("case"@, "negative_inf"@)],
        },
    ]
}

/// Inputs of roots and logarithms.
pub open spec fn math_series() -> Seq<Series> {
    seq![
        Series {
            name: "oracle_math"@,
            points: seq![(F_4, 20_000i64), (F_9, 30_000i64)],
            labels: seq![("case"@, "sqrt"@)],
        },
        Series {
            name: "oracle_math"@,
            points: seq![(F_0, 30_000i64)],
            labels: seq![("case"@, "zero"@)],
        },
        Series {
            name: "oracle_math"@,
            points: seq![(NEG_ZERO, 30_000i64)],
            labels: seq![("case"@, "negative_zero"@)],
        },
        Series {
            name: "oracle_math"@,
            points: seq![(F_1, 30_000i64)],
            labels: seq![("case"@, "one"@)],
        },
        Series {
            name: "oracle_math"@,
            points: seq![(F_8, 30_000i64)],
            labels: seq![("case"@, "eight"@)],
        },
        Series {
            name: "oracle_math"@,
            points: seq![(F_100, 30_000i64)],
            labels: seq![("case"@, "hundred"@)],
        },
        Series {
            name: "oracle_math"@,
            points: seq![(F_N4, 30_000i64)],
            labels: seq![("case"@, "negative"@)],
        },
        Series {
            name: "oracle_math"@,
            points: seq![(NAN, 30_000i64)],
            labels: seq![("case"@, "nan"@)],
        },
        Series {
            name: "oracle_math"@,
            points: seq![(INF, 30_000i64)],
            labels: seq![("case"@, "positive_inf"@)],
        },
        Series {
            name: "oracle_math"@,
            points: seq![(NEG_INF, 30_000i64)],
            labels: seq![("case"@, "negative_inf"@)],
        },
    ]
}

/// Inputs of the inverse functions.
pub open spec fn inverse_series() -> Seq<Series> {
    seq![
        Series {
            name: "oracle_inverse"@,
            points: seq![(F_0, 20_000i64), (F_1, 30_000i64)],
            labels: seq![("case"@, "range"@)],
        },
        Series {
            name: "oracle_inverse"@,
            points: seq![(F_N1, 30_000i64)],
            labels: seq![("case"@, "negative_one"@)],
        },
        Series {
            name: "oracle_inverse"@,
            points: seq![(NEG_ZERO, 30_000i64)],
            labels: seq![("case"@, "negative_zero"@)],
        },
        Series {
            name: "oracle_inverse"@,
            points: seq![(F_0, 30_000i64)],
            labels: seq![("case"@, "zero"@)],
        },
        Series {
            name: "oracle_inverse"@,
            points: seq![(F_0_5, 30_000i64)],
            labels: seq![("case"@, "half"@)],
        },
        Series {
            name: "oracle_inverse"@,
            points: seq![(F_1, 30_000i64)],
            labels: seq![("case"@, "one"@)],
        },
        Series {
            name: "oracle_inverse"@,
            points: seq![(F_2, 30_000i64)],
            labels: seq![("case"@, "two"@)],
        },
        Series {
            name: "oracle_inverse"@,
            points: seq![(NAN, 30_000i64)],
            labels: seq![("case"@, "nan"@)],
        },
        Series {
            name: "oracle_inverse"@,
            points: seq![(INF, 30_000i64)],
            labels: seq![("case"@, "positive_inf"@)],
        },
        Series {
            name: "oracle_inverse"@,
            points: seq![(NEG_INF, 30_000i64)],
            labels: seq![("case"@, "negative_inf"@)],
        },
    ]
}

/// Inputs of the trigonometric functions.
pub open spec fn trig_series() -> Seq<Series> {
    seq![
        Series {
            name: "oracle_trig"@,
            points: seq![(F_0, 20_000i64), (HALF_PI, 30_000i64)],
            labels: seq![("case"@, "range"@)],
        },
        Series {
            name: "oracle_trig"@,
            points: seq![(NEG_ZERO, 30_000i64)],
            labels: seq![("case"@, "negative_zero"@)],
        },
        Series {
            name: "oracle_trig"@,
            points: seq![(F_0, 30_000i64)],
            labels: seq![("case"@, "zero"@)],
        },
        Series {
            name: "oracle_trig"@,
            points: seq![(F_1, 30_000i64)],
            labels: seq![("case"@, "one"@)],
        },
        Series {
            name: "oracle_trig"@,
            points: seq![(NAN, 30_000i64)],
            labels: seq![("case"@, "nan"@)],
        },
        Series {
            name: "oracle_trig"@,
            points: seq![(INF, 30_000i64)],
            labels: seq![("case"@, "positive_inf"@)],
        },
        Series {
            name: "oracle_trig"@,
            points: seq![(NEG_INF, 30_000i64)],
            labels: seq![("case"@, "negative_inf"@)],
        },
    ]
}

/// Inputs of the angle conversions.
pub open spec fn angle_series() -> Seq<Series> {
    seq![
        Series {
            name: "oracle_angle"@,
            points: seq![(F_0, 20_000i64), (PI, 30_000i64)],
            labels: seq![("case"@, "range"@)],
        },
        Series {
            name: "oracle_angle"@,
            points: seq![(NEG_ZERO, 30_000i64)],
            labels: seq![("case"@, "negative_zero"@)],
        },
        Series {
            name: "oracle_angle"@,
            points: seq![(F_180, 30_000i64)],
            labels: seq![("case"@, "degrees"@)],
        },
        Series {
            name: "oracle_angle"@,
            points: seq![(NAN, 30_000i64)],
            labels: seq![("case"@, "nan"@)],
        },
        Series {
            name: "oracle_angle"@,
            points: seq![(INF, 30_000i64)],
            labels: seq![("case"@, "positive_inf"@)],
        },
        Series {
            name: "oracle_angle"@,
            points: seq![(NEG_INF, 30_000i64)],
            labels: seq![("case"@, "negative_inf"@)],
        },
    ]
}

/// Series for label rewriting, absence and sorting.
pub open spec fn label_series() -> Seq<Series> {
    seq![
        Series {
            name: "oracle_label_replace"@,
            points: seq![(F_1, 20_000i64), (F_6, 30_000i64)],
            labels: seq![("case"@, "capture"@), ("service"@, "api:west"@), ("zone"@, "old"@)],
        },
        Series {
            name: "oracle_label_replace"@,
            points: seq![(F_2, 30_000i64)],
            labels: seq![("case"@, "missing"@)],
        },
        Series {
            name: "oracle_label_replace"@,
            points: seq![(F_3, 30_000i64)],
            labels: seq![("case"@, "empty"@), ("service"@, ""@)],
        },
        Series {
            name: "oracle_label_replace"@,
            points: seq![(F_4, 30_000i64)],
            labels: seq![("case"@, "unmatched"@), ("service"@, "api"@)],
        },
        Series {
            name: "oracle_label_replace"@,
            points: seq![(F_5, 30_000i64)],
            labels: seq![("case"@, "named"@), ("service"@, "west-api"@)],
        },
        Series {
            name: "oracle_label_replace"@,
            points: seq![(F_7, 30_000i64)],
            labels: seq![("case"@, "newline"@), ("service"@, "api\nwest"@)],
        },
        Series {
            name: "oracle_absent_window"@,
            points: seq![(F_9, 20_000i64)],
            labels: seq![("case"@, "boundary"@), ("service"@, "api"@)],
        },
        Series {
            name: "oracle_sort_range"@,
            points: seq![(F_1, 20_000i64), (F_10, 30_000i64)],
            labels: seq![("host"@, "a"@)],
        },
        Series {
            name: "oracle_sort_range"@,
            points: seq![(F_2, 20_000i64), (F_0, 30_000i64)],
            labels: seq![("host"@, "b"@)],
        },
    ]
}

/// Classic histograms of two hosts and a second metric.
pub open spec fn histogram_series() -> Seq<Series> {
    seq![
        Series {
            name: "oracle_histogram_bucket"@,
            points: seq![(F_5, 10_000i64), (F_8, 20_000i64), (F_10, 30_000i64)],
            labels: seq![("host"@, "a"@), ("le"@, "0.1"@)],
        },
        Series {
            name: "oracle_histogram_bucket"@,
            points: seq![(F_10, 10_000i64), (F_16, 20_000i64), (F_20, 30_000i64)],
            labels: seq![("host"@, "a"@), ("le"@, "0.5"@)],
        },
        Series {
            name: "oracle_histogram_bucket"@,
            points: seq![(F_15, 10_000i64), (F_24, 20_000i64), (F_30, 30_000i64)],
            labels: seq![("host"@, "a"@), ("le"@, "1"@)],
        },
        Series {
            name: "oracle_histogram_bucket"@,
            points: seq![(F_20, 10_000i64), (F_32, 20_000i64), (F_40, 30_000i64)],
            labels: seq![("host"@, "a"@), ("le"@, "+Inf"@)],
        },
        Series {
            name: "oracle_histogram_bucket"@,
            points: seq![(F_1_5, 10_000i64), (F_2_4000000000000004, 20_000i64), (F_3, 30_000i64)],
            labels: seq![("host"@, "b"@), ("le"@, "0.1"@)],
        },
        Series {
            name: "oracle_histogram_bucket"@,
            points: seq![(F_3, 10_000i64), (F_4_800000000000001, 20_000i64), (F_6, 30_000i64)],
            labels: seq![("host"@, "b"@), ("le"@, "0.5"@)],
        },
        Series {
            name: "oracle_histogram_bucket"@,
            points: seq![(F_4_5, 10_000i64), (F_7_2, 20_000i64), (F_9, 30_000i64)],
            labels: seq![("host"@, "b"@), ("le"@, "1"@)],
        },
        Series {
            name: "oracle_histogram_bucket"@,
            points: seq![(F_5, 10_000i64), (F_8, 20_000i64), (F_10, 30_000i64)],
            labels: seq![("host"@, "b"@), ("le"@, "+Inf"@)],
        },
        Series {
            name: "oracle_histogram_other_bucket"@,
            points: seq![(F_10, 30_000i64)],
            labels: seq![("host"@, "a"@), ("le"@, "10"@)],
        },
        Series {
            name: "oracle_histogram_other_bucket"@,
            points: seq![(F_10, 30_000i64)],
            labels: seq![("host"@, "a"@), ("le"@, "+Inf"@)],
        },
    ]
}

/// Histograms with missing, negative or decreasing buckets.
pub open spec fn irregular_histogram_series() -> Seq<Series> {
    seq![
        Series {
            name: "oracle_histogram_special_bucket"@,
            points: seq![(F_10, 30_000i64)],
            labels: seq![("case"@, "missing_inf"@), ("le"@, "1"@)],
        },
        Series {
            name: "oracle_histogram_special_bucket"@,
            points: seq![(F_20, 30_000i64)],
            labels: seq![("case"@, "missing_inf"@), ("le"@, "2"@)],
        },
        Series {
            name: "oracle_histogram_special_bucket"@,
            points: seq![(F_10, 30_000i64)],
            labels: seq![("case"@, "only_inf"@), ("le"@, "+Inf"@)],
        },
        Series {
            name: "oracle_histogram_special_bucket"@,
            points: seq![(F_0, 30_000i64)],
            labels: seq![("case"@, "zero_total"@), ("le"@, "1"@)],
        },
        Series {
            name: "oracle_histogram_special_bucket"@,
            points: seq![(F_0, 30_000i64)],
            labels: seq![("case"@, "zero_total"@), ("le"@, "+Inf"@)],
        },
        Series {
            name: "oracle_histogram_special_bucket"@,
            points: seq![(F_2, 30_000i64)],
            labels: seq![("case"@, "negative_first"@), ("le"@, "-5"@)],
        },
        Series {
            name: "oracle_histogram_special_bucket"@,
            points: seq![(F_4, 30_000i64)],
            labels: seq![("case"@, "negative_first"@), ("le"@, "-1"@)],
        },
        Series {
            name: "oracle_histogram_special_bucket"@,
            points: seq![(F_4, 30_000i64)],
            labels: seq![("case"@, "negative_first"@), ("le"@, "+Inf"@)],
        },
        Series {
            name: "oracle_histogram_special_bucket"@,
            points: seq![(F_10, 30_000i64)],
            labels: seq![("case"@, "positive_first"@), ("le"@, "10"@)],
        },
        Series {
            name: "oracle_histogram_special_bucket"@,
            points: seq![(F_10, 30_000i64)],
            labels: seq![("case"@, "positive_first"@), ("le"@, "+Inf"@)],
        },
        Series {
            name: "oracle_histogram_special_bucket"@,
            points: seq![(F_10, 30_000i64)],
            labels: seq![("case"@, "decrease"@), ("le"@, "1"@)],
        },
        Series {
            name: "oracle_histogram_special_bucket"@,
            points: seq![(F_9, 30_000i64)],
            labels: seq![("case"@, "decrease"@), ("le"@, "2"@)],
        },
        Series {
            name: "oracle_histogram_special_bucket"@,
            points: seq![(F_20, 30_000i64)],
            labels: seq![("case"@, "decrease"@), ("le"@, "+Inf"@)],
        },
    ]
}

/// Histograms with tiny steps, malformed bounds and non-finite counts.
pub open spec fn malformed_histogram_series() -> Seq<Series> {
    seq![
        Series {
            name: "oracle_histogram_special_bucket"@,
            points: seq![(F_1E12, 30_000i64)],
            labels: seq![("case"@, "tiny_delta"@), ("le"@, "1"@)],
        },
        Series {
            name: "oracle_histogram_special_bucket"@,
            points: seq![(F_1E12_AND_HALF, 30_000i64)],
            labels: seq![("case"@, "tiny_delta"@), ("le"@, "2"@)],
        },
        Series {
            name: "oracle_histogram_special_bucket"@,
            points: seq![(F_2E12, 30_000i64)],
            labels: seq![("case"@, "tiny_delta"@), ("le"@, "3"@)],
        },
        Series {
            name: "oracle_histogram_special_bucket"@,
            points: seq![(F_3E12, 30_000i64)],
            labels: seq![("case"@, "tiny_delta"@), ("le"@, "+Inf"@)],
        },
        Series {
            name: "oracle_histogram_special_bucket"@,
            points: seq![(F_3, 30_000i64)],
            labels: seq![("case"@, "duplicate_bound"@), ("le"@, "1"@)],
        },
        Series {
            name: "oracle_histogram_special_bucket"@,
            points: seq![(F_4, 30_000i64)],
            labels: seq![("case"@, "duplicate_bound"@), ("le"@, "1.0"@)],
        },
        Series {
            name: "oracle_histogram_special_bucket"@,
            points: seq![(F_10, 30_000i64)],
            labels: seq![("case"@, "duplicate_bound"@), ("le"@, "2"@)],
        },
        Series {
            name: "oracle_histogram_special_bucket"@,
            points: seq![(F_10, 30_000i64)],
            labels: seq![("case"@, "duplicate_bound"@), ("le"@, "+Inf"@)],
        },
        Series {
            name: "oracle_histogram_special_bucket"@,
            points: seq![(F_9, 30_000i64)],
            labels: seq![("case"@, "malformed_bound"@), ("le"@, "bogus"@)],
        },
        Series {
            name: "oracle_histogram_special_bucket"@,
            points: seq![(F_5, 30_000i64)],
            labels: seq![("case"@, "malformed_bound"@), ("le"@, "1"@)],
        },
        Series {
            name: "oracle_histogram_special_bucket"@,
            points: seq![(F_10, 30_000i64)],
            labels: seq![("case"@, "malformed_bound"@), ("le"@, "+Inf"@)],
        },
        Series {
            name: "oracle_histogram_special_bucket"@,
            points: seq![(NAN, 30_000i64)],
            labels: seq![("case"@, "nan_count"@), ("le"@, "1"@)],
        },
        Series {
            name: "oracle_histogram_special_bucket"@,
            points: seq![(F_10, 30_000i64)],
            labels: seq![("case"@, "nan_count"@), ("le"@, "2"@)],
        },
        Series {
            name: "oracle_histogram_special_bucket"@,
            points: seq![(F_20, 30_000i64)],
            labels: seq![("case"@, "nan_count"@), ("le"@, "+Inf"@)],
        },
        Series {
            name: "oracle_histogram_special_bucket"@,
            points: seq![(F_10, 30_000i64)],
            labels: seq![("case"@, "infinite_total"@), ("le"@, "1"@)],
        },
        Series {
            name: "oracle_histogram_special_bucket"@,
            points: seq![(INF, 30_000i64)],
            labels: seq![("case"@, "infinite_total"@), ("le"@, "+Inf"@)],
        },
        Series {
            name: "oracle_histogram_special_bucket"@,
            points: seq![(INF, 30_000i64)],
            labels: seq![("case"@, "infinite_finite"@), ("le"@, "1"@)],
        },
        Series {
            name: "oracle_histogram_special_bucket"@,
            points: seq![(INF, 30_000i64)],
            labels: seq![("case"@, "infinite_finite"@), ("le"@, "+Inf"@)],
        },
        Series {
            name: "oracle_histogram_special_bucket"@,
            points: seq![(F_123, 30_000i64)],
            labels: seq![("case"@, "absent_bound"@)],
        },
    ]
}

/// Histograms whose bounds are not numbers.
pub open spec fn malformed_bound_series() -> Seq<Series> {
    seq![
        Series {
            name: "oracle_histogram_special_bucket"@,
            points: seq![(F_0, 30_000i64)],
            labels: seq![("case"@, "many_malformed"@), ("le"@, "bad00"@)],
        },
        Series {
            name: "oracle_histogram_special_bucket"@,
            points: seq![(F_1, 30_000i64)],
            labels: seq![("case"@, "many_malformed"@), ("le"@, "bad01"@)],
        },
        Series {
            name: "oracle_histogram_special_bucket"@,
            points: seq![(F_2, 30_000i64)],
            labels: seq![("case"@, "many_malformed"@), ("le"@, "bad02"@)],
        },
        Series {
            name: "oracle_histogram_special_bucket"@,
            points: seq![(F_3, 30_000i64)],
            labels: seq![("case"@, "many_malformed"@), ("le"@, "bad03"@)],
        },
        Series {
            name: "oracle_histogram_special_bucket"@,
            points: seq![(F_4, 30_000i64)],
            labels: seq![("case"@, "many_malformed"@), ("le"@, "bad04"@)],
        },
        Series {
            name: "oracle_histogram_special_bucket"@,
            points: seq![(F_5, 30_000i64)],
            labels: seq![("case"@, "many_malformed"@), ("le"@, "bad05"@)],
        },
        Series {
            name: "oracle_histogram_special_bucket"@,
            points: seq![(F_6, 30_000i64)],
            labels: seq![("case"@, "many_malformed"@), ("le"@, "bad06"@)],
        },
        Series {
            name: "oracle_histogram_special_bucket"@,
            points: seq![(F_7, 30_000i64)],
            labels: seq![("case"@, "many_malformed"@), ("le"@, "bad07"@)],
        },
        Series {
            name: "oracle_histogram_special_bucket"@,
            points: seq![(F_8, 30_000i64)],
            labels: seq![("case"@, "many_malformed"@), ("le"@, "bad08"@)],
        },
        Series {
            name: "oracle_histogram_special_bucket"@,
            points: seq![(F_9, 30_000i64)],
            labels: seq![("case"@, "many_malformed"@), ("le"@, "bad09"@)],
        },
        Series {
            name: "oracle_histogram_special_bucket"@,
            points: seq![(F_10, 30_000i64)],
            labels: seq![("case"@, "many_malformed"@), ("le"@, "bad10"@)],
        },
        Series {
            name: "oracle_histogram_special_bucket"@,
            points: seq![(F_11, 30_000i64)],
            labels: seq![("case"@, "many_malformed"@), ("le"@, "bad11"@)],
        },
        Series {
            name: "oracle_histogram_special_bucket"@,
            points: seq![(F_1, 30_000i64)],
            labels: seq![("case"@, "duplicate_malformed"@), ("le"@, "duplicate"@), ("source"@, "a"@)],
        },
        Series {
            name: "oracle_histogram_special_bucket"@,
            points: seq![(F_1, 30_000i64)],
            labels: seq![("case"@, "duplicate_malformed"@), ("le"@, "duplicate"@), ("source"@, "b"@)],
        },
    ]
}

/// Series for the MetricsQL extensions.
pub open spec fn metricsql_series() -> Seq<Series> {
    seq![
        Series {
            name: "oracle_mql_cpu"@,
            points: seq![(F_1, 10_000i64), (F_3, 30_000i64)],
            labels: seq![("host"@, "a"@), ("zone"@, "east"@)],
        },
        Series {
            name: "oracle_mql_cpu"@,
            points: seq![(F_2, 20_000i64), (F_4, 30_000i64)],
            labels: seq![("host"@, "b"@), ("zone"@, "west"@)],
        },
        Series {
            name: "oracle_mql_sparse"@,
            points: seq![(F_10, 10_000i64), (F_30, 30_000i64)],
            labels: seq![("host"@, "a"@)],
        },
        Series {
            name: "oracle_mql_sparse"@,
            points: seq![(F_20, 20_000i64)],
            labels: seq![("host"@, "b"@)],
        },
        Series {
            name: "oracle_mql_disjoint_left"@,
            points: seq![(F_1, 10_000i64)],
            labels: seq![("host"@, "c"@)],
        },
        Series {
            name: "oracle_mql_disjoint_right"@,
            points: seq![(F_2, 610_000i64)],
            labels: seq![("host"@, "c"@)],
        },
        Series {
            name: "oracle_keep_a"@,
            points: seq![(F_2, 30_000i64)],
            labels: seq![("host"@, "shared"@)],
        },
        Series {
            name: "oracle_keep_b"@,
            points: seq![(F_3, 30_000i64)],
            labels: seq![("host"@, "shared"@)],
        },
    ]
}

/// All series of the oracle data set, in the order in which they are written.
pub open spec fn oracle_series() -> Seq<Series> {
    temporal_series()
        + matching_series()
        + grouping_series()
        + aggregation_series()
        + ranking_series()
        + range_series()
        + counter_series()
        + transform_series()
        + round_series()
        + clamp_series()
        + math_series()
        + inverse_series()
        + trig_series()
        + angle_series()
        + label_series()
        + histogram_series()
        + irregular_histogram_series()
        + malformed_histogram_series()
        + malformed_bound_series()
        + metricsql_series()
}

fn write_temporal_series(request: &mut WriteRequest)
    requires
        old(request).well_formed(),
        in_reach(old(request).timestamp_ms),
    ensures
        final(request).well_formed(),
        final(request).timestamp_ms == old(request).timestamp_ms,
        final(request).written@ == old(request).written@ + temporal_series(),
{
    let points: [(u64, i64); 1] = [(F_7, 0)];
    let labels: [(&str, &str); 0] = [];
    assert(points@ =~= seq![(F_7, 0i64)]);
    assert(order::pair_views(labels@) =~= seq![]);
    request.series("oracle_lookback", &points, &labels);
    let points: [(u64, i64); 7] = [(F_1, -30_000), (F_2, -20_000), (F_3, -10_000), (F_4, 0), (F_5, 10_000), (F_6, 20_000), (F_7, 30_000)];
    let labels: [(&str, &str); 0] = [];
    assert(points@ =~= seq![(F_1, -30_000i64), (F_2, -20_000i64), (F_3, -10_000i64), (F_4, 0i64), (F_5, 10_000i64), (F_6, 20_000i64), (F_7, 30_000i64)]);
    assert(order::pair_views(labels@) =~= seq![]);
    request.series("oracle_temporal", &points, &labels);
    let points: [(u64, i64); 31] = [(F_1, -10_000), (F_2, -9000), (F_3, -8000), (F_4, -7000), (F_5, -6000), (F_6, -5000), (F_7, -4000), (F_8, -3000), (F_9, -2000), (F_10, -1000), (F_11, 0), (F_12, 1000), (F_13, 2000), (F_14, 3000), (F_15, 4000), (F_16, 5000), (F_17, 6000), (F_18, 7000), (F_19, 8000), (F_20, 9000), (F_21, 10_000), (F_22, 11_000), (F_23, 12_000), (F_24, 13_000), (F_25, 14_000), (F_26, 15_000), (F_27, 16_000), (F_28, 17_000), (F_29, 18_000), (F_30, 19_000), (F_31, 20_000)];
    let labels: [(&str, &str); 0] = [];
    assert(points@ =~= seq![(F_1, -10_000i64), (F_2, -9000i64), (F_3, -8000i64), (F_4, -7000i64), (F_5, -6000i64), (F_6, -5000i64), (F_7, -4000i64), (F_8, -3000i64), (F_9, -2000i64), (F_10, -1000i64), (F_11, 0i64), (F_12, 1000i64), (F_13, 2000i64), (F_14, 3000i64), (F_15, 4000i64), (F_16, 5000i64), (F_17, 6000i64), (F_18, 7000i64), (F_19, 8000i64), (F_20, 9000i64), (F_21, 10_000i64), (F_22, 11_000i64), (F_23, 12_000i64), (F_24, 13_000i64), (F_25, 14_000i64), (F_26, 15_000i64), (F_27, 16_000i64), (F_28, 17_000i64), (F_29, 18_000i64), (F_30, 19_000i64), (F_31, 20_000i64)]);
    assert(order::pair_views(labels@) =~= seq![]);
    request.series("oracle_step", &points, &labels);
    sample(request, "oracle.metric/温度", F_42, 30_000, "node.name", "東京");
    sample(request, "oracle.\"quoted\"\\温度", F_43, 30_000, "node.name", "大阪");
    assert(request.written@ =~= old(request).written@ + temporal_series());
}

fn write_matching_series(request: &mut WriteRequest)
    requires
        old(request).well_formed(),
        in_reach(old(request).timestamp_ms),
    ensures
        final(request).well_formed(),
        final(request).timestamp_ms == old(request).timestamp_ms,
        final(request).written@ == old(request).written@ + matching_series(),
{
    sample_of_two(request, "oracle_arithmetic_lhs", F_8, 30_000, "host", "a", "zone", "east");
    sample_of_two(request, "oracle_arithmetic_rhs", F_2, 30_000, "host", "a", "zone", "east");
    sample_of_two(request, "oracle_arithmetic_rhs_duplicate", F_3, 30_000, "host", "a", "zone", "east");
    let points: [(u64, i64); 1] = [(F_8, 30_000)];
    let labels: [(&str, &str); 3] = [("host", "a"), ("shared", "x"), ("zone", "east")];
    assert(points@ =~= seq![(F_8, 30_000i64)]);
    assert(order::pair_views(labels@) =~= seq![("host"@, "a"@), ("shared"@, "x"@), ("zone"@, "east"@)]);
    request.series("oracle_matching_lhs", &points, &labels);
    let points: [(u64, i64); 1] = [(F_2, 30_000)];
    let labels: [(&str, &str); 3] = [("host", "a"), ("shared", "x"), ("zone", "west")];
    assert(points@ =~= seq![(F_2, 30_000i64)]);
    assert(order::pair_views(labels@) =~= seq![("host"@, "a"@), ("shared"@, "x"@), ("zone"@, "west"@)]);
    request.series("oracle_matching_rhs", &points, &labels);
    let points: [(u64, i64); 1] = [(F_3, 30_000)];
    let labels: [(&str, &str); 3] = [("host", "a"), ("shared", "x"), ("zone", "north")];
    assert(points@ =~= seq![(F_3, 30_000i64)]);
    assert(order::pair_views(labels@) =~= seq![("host"@, "a"@), ("shared"@, "x"@), ("zone"@, "north"@)]);
    request.series("oracle_matching_rhs_duplicate", &points, &labels);
    assert(request.written@ =~= old(request).written@ + matching_series());
}

fn write_grouping_series(request: &mut WriteRequest)
    requires
        old(request).well_formed(),
        in_reach(old(request).timestamp_ms),
    ensures
        final(request).well_formed(),
        final(request).timestamp_ms == old(request).timestamp_ms,
        final(request).written@ == old(request).written@ + grouping_series(),
{
    let points: [(u64, i64); 1] = [(F_8, 30_000)];
    let labels: [(&str, &str); 4] = [("host", "a"), ("owner", "old"), ("pod", "p1"), ("zone", "east")];
    assert(points@ =~= seq![(F_8, 30_000i64)]);
    assert(order::pair_views(labels@) =~= seq![("host"@, "a"@), ("owner"@, "old"@), ("pod"@, "p1"@), ("zone"@, "east"@)]);
    request.series("oracle_group_many_lhs", &points, &labels);
    let points: [(u64, i64); 1] = [(F_9, 30_000)];
    let labels: [(&str, &str); 4] = [("host", "a"), ("owner", "old"), ("pod", "p2"), ("zone", "west")];
    assert(points@ =~= seq![(F_9, 30_000i64)]);
    assert(order::pair_views(labels@) =~= seq![("host"@, "a"@), ("owner"@, "old"@), ("pod"@, "p2"@), ("zone"@, "west"@)]);
    request.series("oracle_group_many_lhs", &points, &labels);
    sample_of_two(request, "oracle_group_collision_many", F_4, 30_000, "host", "a", "team", "red");
    sample_of_two(request, "oracle_group_collision_many", F_5, 30_000, "host", "a", "team", "blue");
    sample_of_two(request, "oracle_group_one_rhs", F_2, 30_000, "host", "a", "team", "core");
    sample_of_two(request, "oracle_group_one_rhs_duplicate", F_3, 30_000, "host", "a", "team", "ops");
    sample_of_two(request, "oracle_group_one_lhs", F_8, 30_000, "host", "a", "team", "core");
    sample_of_two(request, "oracle_group_one_lhs_duplicate", F_9, 30_000, "host", "a", "team", "ops");
    let points: [(u64, i64); 1] = [(F_2, 30_000)];
    let labels: [(&str, &str); 3] = [("host", "a"), ("pod", "p1"), ("zone", "east")];
    assert(points@ =~= seq![(F_2, 30_000i64)]);
    assert(order::pair_views(labels@) =~= seq![("host"@, "a"@), ("pod"@, "p1"@), ("zone"@, "east"@)]);
    request.series("oracle_group_many_rhs", &points, &labels);
    let points: [(u64, i64); 1] = [(F_3, 30_000)];
    let labels: [(&str, &str); 3] = [("host", "a"), ("pod", "p2"), ("zone", "west")];
    assert(points@ =~= seq![(F_3, 30_000i64)]);
    assert(order::pair_views(labels@) =~= seq![("host"@, "a"@), ("pod"@, "p2"@), ("zone"@, "west"@)]);
    request.series("oracle_group_many_rhs", &points, &labels);
    assert(request.written@ =~= old(request).written@ + grouping_series());
}

fn write_aggregation_series(request: &mut WriteRequest)
    requires
        old(request).well_formed(),
        in_reach(old(request).timestamp_ms),
    ensures
        final(request).well_formed(),
        final(request).timestamp_ms == old(request).timestamp_ms,
        final(request).written@ == old(request).written@ + aggregation_series(),
{
    let points: [(u64, i64); 2] = [(F_1, 20_000), (F_3, 30_000)];
    let labels: [(&str, &str); 2] = [("host", "a"), ("region", "east")];
    assert(points@ =~= seq![(F_1, 20_000i64), (F_3, 30_000i64)]);
    assert(order::pair_views(labels@) =~= seq![("host"@, "a"@), ("region"@, "east"@)]);
    request.series("oracle_aggregation", &points, &labels);
    let points: [(u64, i64); 2] = [(F_2, 20_000), (F_4, 30_000)];
    let labels: [(&str, &str); 2] = [("host", "b"), ("region", "east")];
    assert(points@ =~= seq![(F_2, 20_000i64), (F_4, 30_000i64)]);
    assert(order::pair_views(labels@) =~= seq![("host"@, "b"@), ("region"@, "east"@)]);
    request.series("oracle_aggregation", &points, &labels);
    let points: [(u64, i64); 2] = [(F_5, 20_000), (F_6, 30_000)];
    let labels: [(&str, &str); 2] = [("host", "c"), ("region", "west")];
    assert(points@ =~= seq![(F_5, 20_000i64), (F_6, 30_000i64)]);
    assert(order::pair_views(labels@) =~= seq![("host"@, "c"@), ("region"@, "west"@)]);
    request.series("oracle_aggregation", &points, &labels);
    sample(request, "oracle_avg_precision", F_1E16, 30_000, "host", "a");
    sample(request, "oracle_avg_precision", F_1, 30_000, "host", "b");
    sample(request, "oracle_avg_precision", F_N1E16, 30_000, "host", "c");
    sample_of_two(request, "oracle_avg_ieee", NAN, 30_000, "case", "nan", "host", "a");
    sample_of_two(request, "oracle_avg_ieee", F_1, 30_000, "case", "nan", "host", "b");
    sample_of_two(request, "oracle_avg_ieee", INF, 30_000, "case", "positive", "host", "a");
    sample_of_two(request, "oracle_avg_ieee", F_1, 30_000, "case", "positive", "host", "b");
    sample_of_two(request, "oracle_avg_ieee", INF, 30_000, "case", "mixed", "host", "a");
    sample_of_two(request, "oracle_avg_ieee", NEG_INF, 30_000, "case", "mixed", "host", "b");
    assert(request.written@ =~= old(request).written@ + aggregation_series());
}

fn write_ranking_series(request: &mut WriteRequest)
    requires
        old(request).well_formed(),
        in_reach(old(request).timestamp_ms),
    ensures
        final(request).well_formed(),
        final(request).timestamp_ms == old(request).timestamp_ms,
        final(request).written@ == old(request).written@ + ranking_series(),
{
    sample(request, "oracle_count_values", F_1EM20, 30_000, "host", "tiny");
    sample(request, "oracle_count_values", F_1E20, 30_000, "host", "huge");
    sample(request, "oracle_count_values", NEG_ZERO, 30_000, "host", "negative_zero");
    sample(request, "oracle_count_values", INF, 30_000, "host", "positive_inf");
    sample(request, "oracle_count_values", NAN, 30_000, "host", "nan");
    sample(request, "oracle_rank_tie", F_5, 30_000, "host", "a");
    sample(request, "oracle_rank_tie", F_5, 30_000, "host", "b");
    let points: [(u64, i64); 3] = [(F_1E16, 10_000), (F_1, 20_000), (F_N1E16, 30_000)];
    let labels: [(&str, &str); 0] = [];
    assert(points@ =~= seq![(F_1E16, 10_000i64), (F_1, 20_000i64), (F_N1E16, 30_000i64)]);
    assert(order::pair_views(labels@) =~= seq![]);
    request.series("oracle_range_avg_precision", &points, &labels);
    let points: [(u64, i64); 2] = [(MAX, 20_000), (MAX, 30_000)];
    let labels: [(&str, &str); 0] = [];
    assert(points@ =~= seq![(MAX, 20_000i64), (MAX, 30_000i64)]);
    assert(order::pair_views(labels@) =~= seq![]);
    request.series("oracle_range_avg_overflow", &points, &labels);
    assert(request.written@ =~= old(request).written@ + ranking_series());
}

fn write_range_series(request: &mut WriteRequest)
    requires
        old(request).well_formed(),
        in_reach(old(request).timestamp_ms),
    ensures
        final(request).well_formed(),
        final(request).timestamp_ms == old(request).timestamp_ms,
        final(request).written@ == old(request).written@ + range_series(),
{
    two_samples(request, "oracle_range_avg_ieee", NAN, 20_000, F_1, 30_000, "case", "nan");
    two_samples(request, "oracle_range_avg_ieee", INF, 20_000, F_1, 30_000, "case", "positive");
    two_samples(request, "oracle_range_avg_ieee", INF, 20_000, NEG_INF, 30_000, "case", "mixed");
    two_samples(request, "oracle_range_extrema", NAN, 20_000, NAN, 30_000, "case", "all_nan");
    two_samples(request, "oracle_range_extrema", NAN, 20_000, F_2, 30_000, "case", "mixed");
    two_samples(request, "oracle_range_extrema", NEG_INF, 20_000, INF, 30_000, "case", "infinite");
    two_samples(request, "oracle_range_extrema", F_0, 20_000, NEG_ZERO, 30_000, "case", "zero");
    two_samples(request, "oracle_range_extrema", NEG_ZERO, 20_000, F_0, 30_000, "case", "zero_reverse");
    assert(request.written@ =~= old(request).written@ + range_series());
}

fn write_counter_series(request: &mut WriteRequest)
    requires
        old(request).well_formed(),
        in_reach(old(request).timestamp_ms),
    ensures
        final(request).well_formed(),
        final(request).timestamp_ms == old(request).timestamp_ms,
        final(request).written@ == old(request).written@ + counter_series(),
{
    let points: [(u64, i64); 3] = [(F_100, 10_000), (F_300, 30_000), (F_500, 50_000)];
    let labels: [(&str, &str); 1] = [("case", "steady")];
    assert(points@ =~= seq![(F_100, 10_000i64), (F_300, 30_000i64), (F_500, 50_000i64)]);
    assert(order::pair_views(labels@) =~= seq![("case"@, "steady"@)]);
    request.series("oracle_counter", &points, &labels);
    let points: [(u64, i64); 3] = [(F_100, 10_000), (F_150, 30_000), (F_20, 50_000)];
    let labels: [(&str, &str); 1] = [("case", "reset")];
    assert(points@ =~= seq![(F_100, 10_000i64), (F_150, 30_000i64), (F_20, 50_000i64)]);
    assert(order::pair_views(labels@) =~= seq![("case"@, "reset"@)]);
    request.series("oracle_counter", &points, &labels);
    two_samples(request, "oracle_counter", F_100, 30_000, F_200, 40_000, "case", "sparse");
    two_samples(request, "oracle_counter", F_1, 10_000, F_101, 30_000, "case", "zero");
    let points: [(u64, i64); 3] = [(F_7, 10_000), (F_7, 30_000), (F_7, 50_000)];
    let labels: [(&str, &str); 1] = [("case", "constant")];
    assert(points@ =~= seq![(F_7, 10_000i64), (F_7, 30_000i64), (F_7, 50_000i64)]);
    assert(order::pair_views(labels@) =~= seq![("case"@, "constant"@)]);
    request.series("oracle_counter", &points, &labels);
    let points: [(u64, i64); 5] = [(F_1, 10_000), (F_1, 20_000), (F_2, 30_000), (F_2, 40_000), (F_1, 50_000)];
    let labels: [(&str, &str); 1] = [("case", "repeated")];
    assert(points@ =~= seq![(F_1, 10_000i64), (F_1, 20_000i64), (F_2, 30_000i64), (F_2, 40_000i64), (F_1, 50_000i64)]);
    assert(order::pair_views(labels@) =~= seq![("case"@, "repeated"@)]);
    request.series("oracle_counter", &points, &labels);
    two_samples(request, "oracle_counter", NAN, 20_000, NAN, 40_000, "case", "nan_repeat");
    two_samples(request, "oracle_counter", F_0, 20_000, NEG_ZERO, 40_000, "case", "zero_sign");
    let points: [(u64, i64); 3] = [(INF, 10_000), (INF, 30_000), (INF, 50_000)];
    let labels: [(&str, &str); 1] = [("case", "constant_inf")];
    assert(points@ =~= seq![(INF, 10_000i64), (INF, 30_000i64), (INF, 50_000i64)]);
    assert(order::pair_views(labels@) =~= seq![("case"@, "constant_inf"@)]);
    request.series("oracle_counter", &points, &labels);
    sample(request, "oracle_counter", F_5, 50_000, "case", "singleton");
    two_samples(request, "oracle_counter", NAN, 20_000, F_2, 40_000, "case", "nan");
    two_samples(request, "oracle_counter", F_1, 20_000, INF, 40_000, "case", "pos_inf");
    two_samples(request, "oracle_counter", INF, 20_000, F_1, 40_000, "case", "inf_drop");
    two_samples(request, "oracle_counter", F_1, 20_000, NEG_INF, 40_000, "case", "neg_inf");
    assert(request.written@ =~= old(request).written@ + counter_series());
}

fn write_transform_series(request: &mut WriteRequest)
    requires
        old(request).well_formed(),
        in_reach(old(request).timestamp_ms),
    ensures
        final(request).well_formed(),
        final(request).timestamp_ms == old(request).timestamp_ms,
        final(request).written@ == old(request).written@ + transform_series(),
{
    sample(request, "oracle_transform", F_2, 30_000, "case", "positive");
    two_samples(request, "oracle_transform", F_N3, 20_000, F_N4, 30_000, "case", "negative");
    sample(request, "oracle_transform", NEG_ZERO, 30_000, "case", "negative_zero");
    sample(request, "oracle_transform", NAN, 30_000, "case", "nan");
    sample(request, "oracle_transform", INF, 30_000, "case", "positive_inf");
    sample(request, "oracle_transform", NEG_INF, 30_000, "case", "negative_inf");
    assert(request.written@ =~= old(request).written@ + transform_series());
}

fn write_round_series(request: &mut WriteRequest)
    requires
        old(request).well_formed(),
        in_reach(old(request).timestamp_ms),
    ensures
        final(request).well_formed(),
        final(request).timestamp_ms == old(request).timestamp_ms,
        final(request).written@ == old(request).written@ + round_series(),
{
    two_samples(request, "oracle_round", F_N1_6, 20_000, F_N2_6, 30_000, "case", "negative");
    sample(request, "oracle_round", F_N1_5, 30_000, "case", "negative_tie");
    sample(request, "oracle_round", NEG_ZERO, 30_000, "case", "negative_zero");
    sample(request, "oracle_round", F_1_6, 30_000, "case", "positive");
    sample(request, "oracle_round", F_1_5, 30_000, "case", "positive_tie");
    sample(request, "oracle_round", NAN, 30_000, "case", "nan");
    sample(request, "oracle_round", INF, 30_000, "case", "positive_inf");
    sample(request, "oracle_round", NEG_INF, 30_000, "case", "negative_inf");
    assert(request.written@ =~= old(request).written@ + round_series());
}

fn write_clamp_series(request: &mut WriteRequest)
    requires
        old(request).well_formed(),
        in_reach(old(request).timestamp_ms),
    ensures
        final(request).well_formed(),
        final(request).timestamp_ms == old(request).timestamp_ms,
        final(request).written@ == old(request).written@ + clamp_series(),
{
    two_samples(request, "oracle_clamp", F_N2, 20_000, F_N3, 30_000, "case", "below");
    sample(request, "oracle_clamp", F_2, 30_000, "case", "inside");
    sample(request, "oracle_clamp", F_8, 30_000, "case", "above");
    sample(request, "oracle_clamp", NEG_ZERO, 30_000, "case", "negative_zero");
    sample(request, "oracle_clamp", F_0, 30_000, "case", "positive_zero");
    sample(request, "oracle_clamp", NAN, 30_000, "case", "nan");
    sample(request, "oracle_clamp", INF, 30_000, "case", "positive_inf");
    sample(request, "oracle_clamp", NEG_INF, 30_000, "case", "negative_inf");
    assert(request.written@ =~= old(request).written@ + clamp_series());
}

fn write_math_series(request: &mut WriteRequest)
    requires
        old(request).well_formed(),
        in_reach(old(request).timestamp_ms),
    ensures
        final(request).well_formed(),
        final(request).timestamp_ms == old(request).timestamp_ms,
        final(request).written@ == old(request).written@ + math_series(),
{
    two_samples(request, "oracle_math", F_4, 20_000, F_9, 30_000, "case", "sqrt");
    sample(request, "oracle_math", F_0, 30_000, "case", "zero");
    sample(request, "oracle_math", NEG_ZERO, 30_000, "case", "negative_zero");
    sample(request, "oracle_math", F_1, 30_000, "case", "one");
    sample(request, "oracle_math", F_8, 30_000, "case", "eight");
    sample(request, "oracle_math", F_100, 30_000, "case", "hundred");
    sample(request, "oracle_math", F_N4, 30_000, "case", "negative");
    sample(request, "oracle_math", NAN, 30_000, "case", "nan");
    sample(request, "oracle_math", INF, 30_000, "case", "positive_inf");
    sample(request, "oracle_math", NEG_INF, 30_000, "case", "negative_inf");
    assert(request.written@ =~= old(request).written@ + math_series());
}

fn write_inverse_series(request: &mut WriteRequest)
    requires
        old(request).well_formed(),
        in_reach(old(request).timestamp_ms),
    ensures
        final(request).well_formed(),
        final(request).timestamp_ms == old(request).timestamp_ms,
        final(request).written@ == old(request).written@ + inverse_series(),
{
    two_samples(request, "oracle_inverse", F_0, 20_000, F_1, 30_000, "case", "range");
    sample(request, "oracle_inverse", F_N1, 30_000, "case", "negative_one");
    sample(request, "oracle_inverse", NEG_ZERO, 30_000, "case", "negative_zero");
    sample(request, "oracle_inverse", F_0, 30_000, "case", "zero");
    sample(request, "oracle_inverse", F_0_5, 30_000, "case", "half");
    sample(request, "oracle_inverse", F_1, 30_000, "case", "one");
    sample(request, "oracle_inverse", F_2, 30_000, "case", "two");
    sample(request, "oracle_inverse", NAN, 30_000, "case", "nan");
    sample(request, "oracle_inverse", INF, 30_000, "case", "positive_inf");
    sample(request, "oracle_inverse", NEG_INF, 30_000, "case", "negative_inf");
    assert(request.written@ =~= old(request).written@ + inverse_series());
}

fn write_trig_series(request: &mut WriteRequest)
    requires
        old(request).well_formed(),
        in_reach(old(request).timestamp_ms),
    ensures
        final(request).well_formed(),
        final(request).timestamp_ms == old(request).timestamp_ms,
        final(request).written@ == old(request).written@ + trig_series(),
{
    two_samples(request, "oracle_trig", F_0, 20_000, HALF_PI, 30_000, "case", "range");
    sample(request, "oracle_trig", NEG_ZERO, 30_000, "case", "negative_zero");
    sample(request, "oracle_trig", F_0, 30_000, "case", "zero");
    sample(request, "oracle_trig", F_1, 30_000, "case", "one");
    sample(request, "oracle_trig", NAN, 30_000, "case", "nan");
    sample(request, "oracle_trig", INF, 30_000, "case", "positive_inf");
    sample(request, "oracle_trig", NEG_INF, 30_000, "case", "negative_inf");
    assert(request.written@ =~= old(request).written@ + trig_series());
}

fn write_angle_series(request: &mut WriteRequest)
    requires
        old(request).well_formed(),
        in_reach(old(request).timestamp_ms),
    ensures
        final(request).well_formed(),
        final(request).timestamp_ms == old(request).timestamp_ms,
        final(request).written@ == old(request).written@ + angle_series(),
{
    two_samples(request, "oracle_angle", F_0, 20_000, PI, 30_000, "case", "range");
    sample(request, "oracle_angle", NEG_ZERO, 30_000, "case", "negative_zero");
    sample(request, "oracle_angle", F_180, 30_000, "case", "degrees");
    sample(request, "oracle_angle", NAN, 30_000, "case", "nan");
    sample(request, "oracle_angle", INF, 30_000, "case", "positive_inf");
    sample(request, "oracle_angle", NEG_INF, 30_000, "case", "negative_inf");
    assert(request.written@ =~= old(request).written@ + angle_series());
}

fn write_label_series(request: &mut WriteRequest)
    requires
        old(request).well_formed(),
        in_reach(old(request).timestamp_ms),
    ensures
        final(request).well_formed(),
        final(request).timestamp_ms == old(request).timestamp_ms,
        final(request).written@ == old(request).written@ + label_series(),
{
    let points: [(u64, i64); 2] = [(F_1, 20_000), (F_6, 30_000)];
    let labels: [(&str, &str); 3] = [("case", "capture"), ("service", "api:west"), ("zone", "old")];
    assert(points@ =~= seq![(F_1, 20_000i64), (F_6, 30_000i64)]);
    assert(order::pair_views(labels@) =~= seq![("case"@, "capture"@), ("service"@, "api:west"@), ("zone"@, "old"@)]);
    request.series("oracle_label_replace", &points, &labels);
    sample(request, "oracle_label_replace", F_2, 30_000, "case", "missing");
    sample_of_two(request, "oracle_label_replace", F_3, 30_000, "case", "empty", "service", "");
    sample_of_two(request, "oracle_label_replace", F_4, 30_000, "case", "unmatched", "service", "api");
    sample_of_two(request, "oracle_label_replace", F_5, 30_000, "case", "named", "service", "west-api");
    sample_of_two(request, "oracle_label_replace", F_7, 30_000, "case", "newline", "service", "api\nwest");
    sample_of_two(request, "oracle_absent_window", F_9, 20_000, "case", "boundary", "service", "api");
    two_samples(request, "oracle_sort_range", F_1, 20_000, F_10, 30_000, "host", "a");
    two_samples(request, "oracle_sort_range", F_2, 20_000, F_0, 30_000, "host", "b");
    assert(request.written@ =~= old(request).written@ + label_series());
}

fn write_histogram_series(request: &mut WriteRequest)
    requires
        old(request).well_formed(),
        in_reach(old(request).timestamp_ms),
    ensures
        final(request).well_formed(),
        final(request).timestamp_ms == old(request).timestamp_ms,
        final(request).written@ == old(request).written@ + histogram_series(),
{
    let points: [(u64, i64); 3] = [(F_5, 10_000), (F_8, 20_000), (F_10, 30_000)];
    let labels: [(&str, &str); 2] = [("host", "a"), ("le", "0.1")];
    assert(points@ =~= seq![(F_5, 10_000i64), (F_8, 20_000i64), (F_10, 30_000i64)]);
    assert(order::pair_views(labels@) =~= seq![("host"@, "a"@), ("le"@, "0.1"@)]);
    request.series("oracle_histogram_bucket", &points, &labels);
    let points: [(u64, i64); 3] = [(F_10, 10_000), (F_16, 20_000), (F_20, 30_000)];
    let labels: [(&str, &str); 2] = [("host", "a"), ("le", "0.5")];
    assert(points@ =~= seq![(F_10, 10_000i64), (F_16, 20_000i64), (F_20, 30_000i64)]);
    assert(order::pair_views(labels@) =~= seq![("host"@, "a"@), ("le"@, "0.5"@)]);
    request.series("oracle_histogram_bucket", &points, &labels);
    let points: [(u64, i64); 3] = [(F_15, 10_000), (F_24, 20_000), (F_30, 30_000)];
    let labels: [(&str, &str); 2] = [("host", "a"), ("le", "1")];
    assert(points@ =~= seq![(F_15, 10_000i64), (F_24, 20_000i64), (F_30, 30_000i64)]);
    assert(order::pair_views(labels@) =~= seq![("host"@, "a"@), ("le"@, "1"@)]);
    request.series("oracle_histogram_bucket", &points, &labels);
    let points: [(u64, i64); 3] = [(F_20, 10_000), (F_32, 20_000), (F_40, 30_000)];
    let labels: [(&str, &str); 2] = [("host", "a"), ("le", "+Inf")];
    assert(points@ =~= seq![(F_20, 10_000i64), (F_32, 20_000i64), (F_40, 30_000i64)]);
    assert(order::pair_views(labels@) =~= seq![("host"@, "a"@), ("le"@, "+Inf"@)]);
    request.series("oracle_histogram_bucket", &points, &labels);
    let points: [(u64, i64); 3] = [(F_1_5, 10_000), (F_2_4000000000000004, 20_000), (F_3, 30_000)];
    let labels: [(&str, &str); 2] = [("host", "b"), ("le", "0.1")];
    assert(points@ =~= seq![(F_1_5, 10_000i64), (F_2_4000000000000004, 20_000i64), (F_3, 30_000i64)]);
    assert(order::pair_views(labels@) =~= seq![("host"@, "b"@), ("le"@, "0.1"@)]);
    request.series("oracle_histogram_bucket", &points, &labels);
    let points: [(u64, i64); 3] = [(F_3, 10_000), (F_4_800000000000001, 20_000), (F_6, 30_000)];
    let labels: [(&str, &str); 2] = [("host", "b"), ("le", "0.5")];
    assert(points@ =~= seq![(F_3, 10_000i64), (F_4_800000000000001, 20_000i64), (F_6, 30_000i64)]);
    assert(order::pair_views(labels@) =~= seq![("host"@, "b"@), ("le"@, "0.5"@)]);
    request.series("oracle_histogram_bucket", &points, &labels);
    let points: [(u64, i64); 3] = [(F_4_5, 10_000), (F_7_2, 20_000), (F_9, 30_000)];
    let labels: [(&str, &str); 2] = [("host", "b"), ("le", "1")];
    assert(points@ =~= seq![(F_4_5, 10_000i64), (F_7_2, 20_000i64), (F_9, 30_000i64)]);
    assert(order::pair_views(labels@) =~= seq![("host"@, "b"@), ("le"@, "1"@)]);
    request.series("oracle_histogram_bucket", &points, &labels);
    let points: [(u64, i64); 3] = [(F_5, 10_000), (F_8, 20_000), (F_10, 30_000)];
    let labels: [(&str, &str); 2] = [("host", "b"), ("le", "+Inf")];
    assert(points@ =~= seq![(F_5, 10_000i64), (F_8, 20_000i64), (F_10, 30_000i64)]);
    assert(order::pair_views(labels@) =~= seq![("host"@, "b"@), ("le"@, "+Inf"@)]);
    request.series("oracle_histogram_bucket", &points, &labels);
    sample_of_two(request, "oracle_histogram_other_bucket", F_10, 30_000, "host", "a", "le", "10");
    sample_of_two(request, "oracle_histogram_other_bucket", F_10, 30_000, "host", "a", "le", "+Inf");
    assert(request.written@ =~= old(request).written@ + histogram_series());
}

fn write_irregular_histogram_series(request: &mut WriteRequest)
    requires
        old(request).well_formed(),
        in_reach(old(request).timestamp_ms),
    ensures
        final(request).well_formed(),
        final(request).timestamp_ms == old(request).timestamp_ms,
        final(request).written@ == old(request).written@ + irregular_histogram_series(),
{
    sample_of_two(request, "oracle_histogram_special_bucket", F_10, 30_000, "case", "missing_inf", "le", "1");
    sample_of_two(request, "oracle_histogram_special_bucket", F_20, 30_000, "case", "missing_inf", "le", "2");
    sample_of_two(request, "oracle_histogram_special_bucket", F_10, 30_000, "case", "only_inf", "le", "+Inf");
    sample_of_two(request, "oracle_histogram_special_bucket", F_0, 30_000, "case", "zero_total", "le", "1");
    sample_of_two(request, "oracle_histogram_special_bucket", F_0, 30_000, "case", "zero_total", "le", "+Inf");
    sample_of_two(request, "oracle_histogram_special_bucket", F_2, 30_000, "case", "negative_first", "le", "-5");
    sample_of_two(request, "oracle_histogram_special_bucket", F_4, 30_000, "case", "negative_first", "le", "-1");
    sample_of_two(request, "oracle_histogram_special_bucket", F_4, 30_000, "case", "negative_first", "le", "+Inf");
    sample_of_two(request, "oracle_histogram_special_bucket", F_10, 30_000, "case", "positive_first", "le", "10");
    sample_of_two(request, "oracle_histogram_special_bucket", F_10, 30_000, "case", "positive_first", "le", "+Inf");
    sample_of_two(request, "oracle_histogram_special_bucket", F_10, 30_000, "case", "decrease", "le", "1");
    sample_of_two(request, "oracle_histogram_special_bucket", F_9, 30_000, "case", "decrease", "le", "2");
    sample_of_two(request, "oracle_histogram_special_bucket", F_20, 30_000, "case", "decrease", "le", "+Inf");
    assert(request.written@ =~= old(request).written@ + irregular_histogram_series());
}

fn write_malformed_histogram_series(request: &mut WriteRequest)
    requires
        old(request).well_formed(),
        in_reach(old(request).timestamp_ms),
    ensures
        final(request).well_formed(),
        final(request).timestamp_ms == old(request).timestamp_ms,
        final(request).written@ == old(request).written@ + malformed_histogram_series(),
{
    sample_of_two(request, "oracle_histogram_special_bucket", F_1E12, 30_000, "case", "tiny_delta", "le", "1");
    sample_of_two(request, "oracle_histogram_special_bucket", F_1E12_AND_HALF, 30_000, "case", "tiny_delta", "le", "2");
    sample_of_two(request, "oracle_histogram_special_bucket", F_2E12, 30_000, "case", "tiny_delta", "le", "3");
    sample_of_two(request, "oracle_histogram_special_bucket", F_3E12, 30_000, "case", "tiny_delta", "le", "+Inf");
    sample_of_two(request, "oracle_histogram_special_bucket", F_3, 30_000, "case", "duplicate_bound", "le", "1");
    sample_of_two(request, "oracle_histogram_special_bucket", F_4, 30_000, "case", "duplicate_bound", "le", "1.0");
    sample_of_two(request, "oracle_histogram_special_bucket", F_10, 30_000, "case", "duplicate_bound", "le", "2");
    sample_of_two(request, "oracle_histogram_special_bucket", F_10, 30_000, "case", "duplicate_bound", "le", "+Inf");
    sample_of_two(request, "oracle_histogram_special_bucket", F_9, 30_000, "case", "malformed_bound", "le", "bogus");
    sample_of_two(request, "oracle_histogram_special_bucket", F_5, 30_000, "case", "malformed_bound", "le", "1");
    sample_of_two(request, "oracle_histogram_special_bucket", F_10, 30_000, "case", "malformed_bound", "le", "+Inf");
    sample_of_two(request, "oracle_histogram_special_bucket", NAN, 30_000, "case", "nan_count", "le", "1");
    sample_of_two(request, "oracle_histogram_special_bucket", F_10, 30_000, "case", "nan_count", "le", "2");
    sample_of_two(request, "oracle_histogram_special_bucket", F_20, 30_000, "case", "nan_count", "le", "+Inf");
    sample_of_two(request, "oracle_histogram_special_bucket", F_10, 30_000, "case", "infinite_total", "le", "1");
    sample_of_two(request, "oracle_histogram_special_bucket", INF, 30_000, "case", "infinite_total", "le", "+Inf");
    sample_of_two(request, "oracle_histogram_special_bucket", INF, 30_000, "case", "infinite_finite", "le", "1");
    sample_of_two(request, "oracle_histogram_special_bucket", INF, 30_000, "case", "infinite_finite", "le", "+Inf");
    sample(request, "oracle_histogram_special_bucket", F_123, 30_000, "case", "absent_bound");
    assert(request.written@ =~= old(request).written@ + malformed_histogram_series());
}

fn write_malformed_bound_series(request: &mut WriteRequest)
    requires
        old(request).well_formed(),
        in_reach(old(request).timestamp_ms),
    ensures
        final(request).well_formed(),
        final(request).timestamp_ms == old(request).timestamp_ms,
        final(request).written@ == old(request).written@ + malformed_bound_series(),
{
    sample_of_two(request, "oracle_histogram_special_bucket", F_0, 30_000, "case", "many_malformed", "le", "bad00");
    sample_of_two(request, "oracle_histogram_special_bucket", F_1, 30_000, "case", "many_malformed", "le", "bad01");
    sample_of_two(request, "oracle_histogram_special_bucket", F_2, 30_000, "case", "many_malformed", "le", "bad02");
    sample_of_two(request, "oracle_histogram_special_bucket", F_3, 30_000, "case", "many_malformed", "le", "bad03");
    sample_of_two(request, "oracle_histogram_special_bucket", F_4, 30_000, "case", "many_malformed", "le", "bad04");
    sample_of_two(request, "oracle_histogram_special_bucket", F_5, 30_000, "case", "many_malformed", "le", "bad05");
    sample_of_two(request, "oracle_histogram_special_bucket", F_6, 30_000, "case", "many_malformed", "le", "bad06");
    sample_of_two(request, "oracle_histogram_special_bucket", F_7, 30_000, "case", "many_malformed", "le", "bad07");
    sample_of_two(request, "oracle_histogram_special_bucket", F_8, 30_000, "case", "many_malformed", "le", "bad08");
    sample_of_two(request, "oracle_histogram_special_bucket", F_9, 30_000, "case", "many_malformed", "le", "bad09");
    sample_of_two(request, "oracle_histogram_special_bucket", F_10, 30_000, "case", "many_malformed", "le", "bad10");
    sample_of_two(request, "oracle_histogram_special_bucket", F_11, 30_000, "case", "many_malformed", "le", "bad11");
    let points: [(u64, i64); 1] = [(F_1, 30_000)];
    let labels: [(&str, &str); 3] = [("case", "duplicate_malformed"), ("le", "duplicate"), ("source", "a")];
    assert(points@ =~= seq![(F_1, 30_000i64)]);
    assert(order::pair_views(labels@) =~= seq![("case"@, "duplicate_malformed"@), ("le"@, "duplicate"@), ("source"@, "a"@)]);
    request.series("oracle_histogram_special_bucket", &points, &labels);
    let points: [(u64, i64); 1] = [(F_1, 30_000)];
    let labels: [(&str, &str); 3] = [("case", "duplicate_malformed"), ("le", "duplicate"), ("source", "b")];
    assert(points@ =~= seq![(F_1, 30_000i64)]);
    assert(order::pair_views(labels@) =~= seq![("case"@, "duplicate_malformed"@), ("le"@, "duplicate"@), ("source"@, "b"@)]);
    request.series("oracle_histogram_special_bucket", &points, &labels);
    assert(request.written@ =~= old(request).written@ + malformed_bound_series());
}

fn write_metricsql_series(request: &mut WriteRequest)
    requires
        old(request).well_formed(),
        in_reach(old(request).timestamp_ms),
    ensures
        final(request).well_formed(),
        final(request).timestamp_ms == old(request).timestamp_ms,
        final(request).written@ == old(request).written@ + metricsql_series(),
{
    let points: [(u64, i64); 2] = [(F_1, 10_000), (F_3, 30_000)];
    let labels: [(&str, &str); 2] = [("host", "a"), ("zone", "east")];
    assert(points@ =~= seq![(F_1, 10_000i64), (F_3, 30_000i64)]);
    assert(order::pair_views(labels@) =~= seq![("host"@, "a"@), ("zone"@, "east"@)]);
    request.series("oracle_mql_cpu", &points, &labels);
    let points: [(u64, i64); 2] = [(F_2, 20_000), (F_4, 30_000)];
    let labels: [(&str, &str); 2] = [("host", "b"), ("zone", "west")];
    assert(points@ =~= seq![(F_2, 20_000i64), (F_4, 30_000i64)]);
    assert(order::pair_views(labels@) =~= seq![("host"@, "b"@), ("zone"@, "west"@)]);
    request.series("oracle_mql_cpu", &points, &labels);
    two_samples(request, "oracle_mql_sparse", F_10, 10_000, F_30, 30_000, "host", "a");
    sample(request, "oracle_mql_sparse", F_20, 20_000, "host", "b");
    sample(request, "oracle_mql_disjoint_left", F_1, 10_000, "host", "c");
    sample(request, "oracle_mql_disjoint_right", F_2, 610_000, "host", "c");
    sample(request, "oracle_keep_a", F_2, 30_000, "host", "shared");
    sample(request, "oracle_keep_b", F_3, 30_000, "host", "shared");
    assert(request.written@ =~= old(request).written@ + metricsql_series());
}

/// The data set of the metric oracles as a remote-write request around
/// `timestamp_ms`, in the literal form of raw snappy.
pub fn prometheus_remote_write(timestamp_ms: i64) -> (body: Vec<u8>)
    requires
        in_reach(timestamp_ms),
    ensures
        body@ == remote_write::snappy(
            remote_write::request_bytes(timestamp_ms as int, oracle_series()),
        ),
{
    let mut request = WriteRequest::new(timestamp_ms);
    write_temporal_series(&mut request);
    write_matching_series(&mut request);
    write_grouping_series(&mut request);
    write_aggregation_series(&mut request);
    write_ranking_series(&mut request);
    write_range_series(&mut request);
    write_counter_series(&mut request);
    write_transform_series(&mut request);
    write_round_series(&mut request);
    write_clamp_series(&mut request);
    write_math_series(&mut request);
    write_inverse_series(&mut request);
    write_trig_series(&mut request);
    write_angle_series(&mut request);
    write_label_series(&mut request);
    write_histogram_series(&mut request);
    write_irregular_histogram_series(&mut request);
    write_malformed_histogram_series(&mut request);
    write_malformed_bound_series(&mut request);
    write_metricsql_series(&mut request);
    assert(request.written@ =~= oracle_series());
    request.finish()
}

} // verus!
