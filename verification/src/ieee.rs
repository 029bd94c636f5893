//! Bit patterns of 64-bit IEEE floats and the comparison of such patterns.
use vstd::prelude::*;

verus! {

/// The pattern is not a number: all exponent bits are set and some fraction bit is.
pub open spec fn is_nan(bits: u64) -> bool {
    bits as int % 0x8000_0000_0000_0000 > 0x7ff0_0000_0000_0000
}

/// The pattern is neither infinite nor not-a-number.
pub open spec fn is_finite(bits: u64) -> bool {
    bits as int % 0x8000_0000_0000_0000 < 0x7ff0_0000_0000_0000
}

/// The pattern is a zero of either sign.
pub open spec fn is_zero(bits: u64) -> bool {
    bits as int % 0x8000_0000_0000_0000 == 0
}

/// Equality of the floats that two patterns denote: not-a-number equals
/// nothing, the two zeros are equal.
pub open spec fn equal_reals(a: u64, b: u64) -> bool {
    !is_nan(a) && !is_nan(b) && (a == b || (is_zero(a) && is_zero(b)))
}

/// Whether a pattern is not a number.
pub fn nan_bits(bits: u64) -> (nan: bool)
    ensures
        nan == is_nan(bits),
{
    bits % 0x8000_0000_0000_0000 > 0x7ff0_0000_0000_0000
}

/// Whether a pattern denotes a finite float.
pub fn finite_bits(bits: u64) -> (finite: bool)
    ensures
        finite == is_finite(bits),
{
    bits % 0x8000_0000_0000_0000 < 0x7ff0_0000_0000_0000
}

/// Whether two patterns denote equal floats.
pub fn real_eq(a: u64, b: u64) -> (equal: bool)
    ensures
        equal == equal_reals(a, b),
{
    !nan_bits(a) && !nan_bits(b) && (a == b || (a % 0x8000_0000_0000_0000 == 0 && b
        % 0x8000_0000_0000_0000 == 0))
}

/// Equality of floats is symmetric, and every float but not-a-number equals itself.
pub proof fn real_equality_laws(a: u64, b: u64)
    ensures
        equal_reals(a, b) == equal_reals(b, a),
        equal_reals(a, a) == !is_nan(a),
{
}

pub const NEG_INF: u64 = 0xfff0_0000_0000_0000;

pub const F_N1E16: u64 = 0xc341_c379_37e0_8000;

pub const F_N4: u64 = 0xc010_0000_0000_0000;

pub const F_N3: u64 = 0xc008_0000_0000_0000;

pub const F_N2_6: u64 = 0xc004_cccc_cccc_cccd;

pub const F_N2: u64 = 0xc000_0000_0000_0000;

pub const F_N1_6: u64 = 0xbff9_9999_9999_999a;

pub const F_N1_5: u64 = 0xbff8_0000_0000_0000;

pub const F_N1: u64 = 0xbff0_0000_0000_0000;

pub const F_N0_5: u64 = 0xbfe0_0000_0000_0000;

pub const NEG_ZERO: u64 = 0x8000_0000_0000_0000;

pub const F_0: u64 = 0x0000_0000_0000_0000;

pub const F_1EM20: u64 = 0x3bc7_9ca1_0c92_4223;

pub const F_0_1: u64 = 0x3fb9_9999_9999_999a;

pub const F_0_2: u64 = 0x3fc9_9999_9999_999a;

pub const F_0_25: u64 = 0x3fd0_0000_0000_0000;

pub const ONE_THIRD: u64 = 0x3fd5_5555_5555_5555;

pub const F_0_5: u64 = 0x3fe0_0000_0000_0000;

pub const F_0_75: u64 = 0x3fe8_0000_0000_0000;

pub const F_1: u64 = 0x3ff0_0000_0000_0000;

pub const F_1_25: u64 = 0x3ff4_0000_0000_0000;

pub const F_1_5: u64 = 0x3ff8_0000_0000_0000;

pub const HALF_PI: u64 = 0x3ff9_21fb_5444_2d18;

pub const F_1_6: u64 = 0x3ff9_9999_9999_999a;

pub const F_2: u64 = 0x4000_0000_0000_0000;

pub const F_2_4000000000000004: u64 = 0x4003_3333_3333_3334;

pub const F_2_5: u64 = 0x4004_0000_0000_0000;

pub const F_3: u64 = 0x4008_0000_0000_0000;

pub const PI: u64 = 0x4009_21fb_5444_2d18;

pub const F_3_25: u64 = 0x400a_0000_0000_0000;

pub const F_3_5: u64 = 0x400c_0000_0000_0000;

pub const F_4: u64 = 0x4010_0000_0000_0000;

pub const F_4_5: u64 = 0x4012_0000_0000_0000;

pub const F_4_800000000000001: u64 = 0x4013_3333_3333_3334;

pub const F_5: u64 = 0x4014_0000_0000_0000;

pub const F_6: u64 = 0x4018_0000_0000_0000;

pub const F_7: u64 = 0x401c_0000_0000_0000;

pub const F_7_2: u64 = 0x401c_cccc_cccc_cccd;

pub const F_8: u64 = 0x4020_0000_0000_0000;

pub const F_9: u64 = 0x4022_0000_0000_0000;

pub const F_10: u64 = 0x4024_0000_0000_0000;

pub const F_11: u64 = 0x4026_0000_0000_0000;

pub const F_12: u64 = 0x4028_0000_0000_0000;

pub const F_13: u64 = 0x402a_0000_0000_0000;

pub const F_14: u64 = 0x402c_0000_0000_0000;

pub const F_15: u64 = 0x402e_0000_0000_0000;

pub const F_16: u64 = 0x4030_0000_0000_0000;

pub const F_17: u64 = 0x4031_0000_0000_0000;

pub const F_18: u64 = 0x4032_0000_0000_0000;

pub const F_19: u64 = 0x4033_0000_0000_0000;

pub const F_20: u64 = 0x4034_0000_0000_0000;

pub const F_21: u64 = 0x4035_0000_0000_0000;

pub const F_22: u64 = 0x4036_0000_0000_0000;

pub const F_23: u64 = 0x4037_0000_0000_0000;

pub const F_24: u64 = 0x4038_0000_0000_0000;

pub const F_25: u64 = 0x4039_0000_0000_0000;

pub const F_26: u64 = 0x403a_0000_0000_0000;

pub const F_27: u64 = 0x403b_0000_0000_0000;

pub const F_28: u64 = 0x403c_0000_0000_0000;

pub const F_29: u64 = 0x403d_0000_0000_0000;

pub const F_30: u64 = 0x403e_0000_0000_0000;

pub const F_31: u64 = 0x403f_0000_0000_0000;

pub const F_32: u64 = 0x4040_0000_0000_0000;

pub const F_40: u64 = 0x4044_0000_0000_0000;

pub const F_42: u64 = 0x4045_0000_0000_0000;

pub const F_43: u64 = 0x4045_8000_0000_0000;

pub const F_50: u64 = 0x4049_0000_0000_0000;

pub const F_60: u64 = 0x404e_0000_0000_0000;

pub const F_100: u64 = 0x4059_0000_0000_0000;

pub const F_101: u64 = 0x4059_4000_0000_0000;

pub const F_123: u64 = 0x405e_c000_0000_0000;

pub const F_150: u64 = 0x4062_c000_0000_0000;

pub const F_180: u64 = 0x4066_8000_0000_0000;

pub const F_200: u64 = 0x4069_0000_0000_0000;

pub const F_300: u64 = 0x4072_c000_0000_0000;

pub const F_500: u64 = 0x407f_4000_0000_0000;

pub const F_90061_9: u64 = 0x40f5_fcde_6666_6666;

pub const F_1709208000: u64 = 0x41d9_781c_7000_0000;

pub const F_1E12: u64 = 0x426d_1a94_a200_0000;

pub const F_1E12_AND_HALF: u64 = 0x426d_1a94_a200_1000;

pub const F_2E12: u64 = 0x427d_1a94_a200_0000;

pub const F_3E12: u64 = 0x4285_d3ef_7980_0000;

pub const F_5E15: u64 = 0x4331_c379_37e0_8000;

pub const F_1E16: u64 = 0x4341_c379_37e0_8000;

pub const F_1E20: u64 = 0x4415_af1d_78b5_8c40;

pub const MAX: u64 = 0x7fef_ffff_ffff_ffff;

pub const INF: u64 = 0x7ff0_0000_0000_0000;

pub const NAN: u64 = 0x7ff8_0000_0000_0000;

} // verus!
