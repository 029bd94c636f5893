//! Order, rank and truncation of floats that are given as bit patterns.
use crate::ieee::{self, nan_bits};
use crate::json::{self, member, Json};
use crate::moments;
use crate::ranks::{self, sorted_values};
use vstd::prelude::*;

verus! {

/// The place of a pattern in the total order of floats: the sign first, then the
/// magnitude.
pub open spec fn place(bits: u64) -> int {
    if bits < 0x8000_0000_0000_0000 {
        bits as int
    } else {
        0x8000_0000_0000_0000 - bits - 1
    }
}

/// The pattern at a place of the total order.
pub open spec fn pattern_at(place: int) -> int {
    if place >= 0 {
        place
    } else {
        0x8000_0000_0000_0000 - place - 1
    }
}

/// Places and patterns belong to each other.
pub proof fn places_are_read_back(bits: u64)
    ensures
        pattern_at(place(bits)) == bits,
        i64::MIN <= place(bits) <= i64::MAX,
{
}

fn place_of(bits: u64) -> (p: i64)
    ensures
        p == place(bits),
{
    if bits < 0x8000_0000_0000_0000 {
        bits as i64
    } else {
        let magnitude: u64 = bits - 0x8000_0000_0000_0000;
        -(magnitude as i64) - 1
    }
}

fn at_place(p: i64) -> (bits: u64)
    ensures
        bits == pattern_at(p as int),
{
    if p >= 0 {
        p as u64
    } else {
        let magnitude: u64 = (-(p + 1)) as u64;
        magnitude + 0x8000_0000_0000_0000
    }
}

/// The signed magnitude of a float that is a number; both zeros are zero.
pub open spec fn signed(bits: u64) -> int {
    if bits < 0x8000_0000_0000_0000 {
        bits as int
    } else {
        0x8000_0000_0000_0000 - bits
    }
}

/// One float is less than another. Nothing is less than not-a-number, nor
/// greater.
pub open spec fn is_less(a: u64, b: u64) -> bool {
    !ieee::is_nan(a) && !ieee::is_nan(b) && signed(a) < signed(b)
}

fn signed_of(bits: u64) -> (s: i64)
    ensures
        s == signed(bits),
{
    if bits < 0x8000_0000_0000_0000 {
        bits as i64
    } else {
        let magnitude: u64 = bits - 0x8000_0000_0000_0000;
        -(magnitude as i64)
    }
}

/// Whether one float is less than another.
pub fn less(a: u64, b: u64) -> (yes: bool)
    ensures
        yes == is_less(a, b),
{
    !nan_bits(a) && !nan_bits(b) && signed_of(a) < signed_of(b)
}

/// The order of floats is strict and transitive.
pub proof fn float_order_laws(a: u64, b: u64, c: u64)
    ensures
        !is_less(a, a),
        is_less(a, b) ==> !is_less(b, a),
        is_less(a, b) && is_less(b, c) ==> is_less(a, c),
        !ieee::is_nan(a) && !ieee::is_nan(b) ==> is_less(a, b) || is_less(b, a)
            || ieee::equal_reals(a, b),
{
}

/// A float is zero or less, and is a number.
pub open spec fn is_not_positive(bits: u64) -> bool {
    !is_less(0, bits) && !ieee::is_nan(bits)
}

/// Whether a float is zero or less.
pub fn not_positive(bits: u64) -> (yes: bool)
    ensures
        yes == is_not_positive(bits),
{
    !less(0, bits) && !nan_bits(bits)
}

/// Places of patterns.
pub open spec fn places(values: Seq<u64>) -> Seq<int> {
    values.map_values(|b: u64| place(b))
}

/// The float of floor rank at a percentage; zero where there are none.
pub open spec fn floor_ranked(values: Seq<u64>, percent: nat) -> int {
    if values.len() == 0 {
        0
    } else {
        pattern_at(places(values).sort()[ranks::floor_rank(values.len(), percent)])
    }
}

/// The float of floor rank at a percentage, in the total order of floats.
pub fn percentile(values: &[u64], percent: usize) -> (bits: u64)
    requires
        percent <= 100,
    ensures
        bits == floor_ranked(values@, percent as nat),
{
    let n: usize = values.len();
    if n == 0 {
        return 0;
    }
    let mut keys: Vec<i64> = Vec::new();
    let mut i: usize = 0;
    while i < n
        invariant
            i <= n,
            n == values@.len(),
            keys@.len() == i,
            forall|j: int| 0 <= j < i ==> #[trigger] keys@[j] == place(values@[j]),
        decreases n - i,
    {
        keys.push(place_of(values[i]));
        i += 1;
    }
    assert(ranks::signed_numbers(keys@) =~= places(values@));
    let sorted = sorted_values(&keys);
    proof {
        ranks::sorting_keeps_length(places(values@));
        assert(ranks::signed_numbers(sorted@).len() == sorted@.len());
    }
    assert(0 <= (n - 1) * percent <= (n - 1) * 100) by (nonlinear_arith)
        requires
            n > 0,
            percent <= 100,
    ;
    let at: usize = ((n - 1) as u128 * percent as u128 / 100) as usize;
    assert(ranks::signed_numbers(sorted@)[at as int] == sorted@[at as int]);
    at_place(sorted[at])
}

/// The exponent field of a pattern.
pub open spec fn exponent_field(bits: u64) -> int {
    (bits as int / 0x10_0000_0000_0000) % 2048
}

/// The significand of a pattern of a normal float.
pub open spec fn full_significand(bits: u64) -> nat {
    (bits as nat % 0x10_0000_0000_0000) + 0x10_0000_0000_0000
}

/// A float cut to an unsigned 64-bit number: what is below zero, or no number,
/// becomes zero, what is too large becomes the largest number.
pub open spec fn cut(bits: u64) -> nat {
    if ieee::is_nan(bits) || bits >= 0x8000_0000_0000_0000 || exponent_field(bits) < 1023 {
        0
    } else if exponent_field(bits) >= 1087 {
        u64::MAX as nat
    } else if exponent_field(bits) >= 1075 {
        full_significand(bits) * moments::two((exponent_field(bits) - 1075) as nat)
    } else {
        full_significand(bits) / moments::two((1075 - exponent_field(bits)) as nat)
    }
}

proof fn two_bounds(k: nat)
    ensures
        moments::two(k) >= 1,
        k <= 11 ==> moments::two(k) <= 2048,
    decreases k,
{
    reveal_with_fuel(moments::two, 13);
    if k > 0 {
        two_bounds((k - 1) as nat);
    }
}

fn power(k: u64) -> (p: u64)
    requires
        k <= 52,
    ensures
        p == moments::two(k as nat),
        1 <= p <= 0x10_0000_0000_0000,
{
    let mut p: u64 = 1;
    let mut i: u64 = 0;
    proof {
        two_at_52();
    }
    while i < k
        invariant
            i <= k <= 52,
            p == moments::two(i as nat),
            1 <= p,
            p <= 0x10_0000_0000_0000,
            p * moments::two((52 - i) as nat) == 0x10_0000_0000_0000,
        decreases k - i,
    {
        proof {
            let rest = moments::two((52 - i - 1) as nat);
            two_bounds((52 - i - 1) as nat);
            assert(moments::two((52 - i) as nat) == 2 * rest);
            assert(p * (2 * rest) == (2 * p) * rest) by (nonlinear_arith);
            assert((2 * p) * rest >= 2 * p) by (nonlinear_arith)
                requires
                    rest >= 1,
                    p >= 1,
            ;
        }
        p = 2 * p;
        i += 1;
    }
    p
}

proof fn two_at_52()
    ensures
        moments::two(52) == 0x10_0000_0000_0000,
{
    reveal_with_fuel(moments::two, 53);
}

/// A float cut to an unsigned 64-bit number.
pub fn cut_to_unsigned(bits: u64) -> (n: u64)
    ensures
        n == cut(bits),
{
    if nan_bits(bits) || bits >= 0x8000_0000_0000_0000 {
        return 0;
    }
    let field: u64 = (bits / 0x10_0000_0000_0000) % 2048;
    if field < 1023 {
        return 0;
    }
    if field >= 1087 {
        return u64::MAX;
    }
    let m: u64 = bits % 0x10_0000_0000_0000 + 0x10_0000_0000_0000;
    proof {
        two_at_52();
    }
    if field >= 1075 {
        let p: u64 = power(field - 1075);
        proof {
            two_bounds((field - 1075) as nat);
            assert(m * p <= 0x1f_ffff_ffff_ffff * 2048) by (nonlinear_arith)
                requires
                    m <= 0x1f_ffff_ffff_ffff,
                    p <= 2048,
                    m >= 0,
                    p >= 0,
            ;
        }
        m * p
    } else {
        let p: u64 = power(1075 - field);
        m / p
    }
}

/// The unsigned number under a key: as it stands, or cut from a float.
pub open spec fn number_at(value: Json, key: Seq<char>) -> Option<u64> {
    match json::member_of(value, key) {
        Some(Json::Unsigned(n)) => Some(n),
        Some(Json::Negative(_)) => Some(0u64),
        Some(Json::Float(bits, _)) => Some(cut(bits) as u64),
        _ => None,
    }
}

/// The unsigned number under a key. A number below zero counts as zero.
pub fn numeric_u64(value: &Json, key: &str) -> (n: Option<u64>)
    ensures
        n == number_at(*value, key@),
{
    match member(value, key) {
        Some(Json::Unsigned(n)) => Some(*n),
        Some(Json::Negative(_)) => Some(0),
        Some(Json::Float(bits, _)) => Some(cut_to_unsigned(*bits)),
        _ => None,
    }
}

} // verus!
