//! Points in time as the oracles write them: milliseconds as seconds, evenly
//! spaced times, and the marks that stand for times in queries.
use crate::json::{self, Json};
use crate::text::{self, chars_of, matches_at, push_char, push_decimal, push_signed};
use vstd::prelude::*;
use vstd::string::*;

verus! {

/// Two to the power `k`.
pub open spec fn two(k: nat) -> nat
    decreases k,
{
    if k == 0 {
        1
    } else {
        2 * two((k - 1) as nat)
    }
}

/// How often `den` can be doubled without passing `num`.
pub open spec fn doublings(num: nat, den: nat) -> nat
    decreases num - den,
{
    if den == 0 || num < 2 * den {
        0
    } else {
        1 + doublings(num, 2 * den)
    }
}

/// How often `num` must be doubled to reach `den`.
pub open spec fn halvings(num: nat, den: nat) -> nat
    decreases
            if num < den {
                den - num
            } else {
                0
            },
{
    if num == 0 || num >= den {
        0
    } else {
        1 + halvings(2 * num, den)
    }
}

/// The integer nearest to a fraction; the even one of two that are equally near.
pub open spec fn nearest(n: nat, d: nat) -> nat {
    let q = n / d;
    let r = n % d;
    if 2 * r < d || (2 * r == d && q % 2 == 0) {
        q
    } else {
        q + 1
    }
}

/// The significand, of 53 bits, of the float that is nearest to a positive
/// fraction. It can come out as the next power of two.
pub open spec fn significand(num: nat, den: nat) -> nat {
    nearest(
        num * two(halvings(num, den)) * 0x10_0000_0000_0000,
        den * two(doublings(num, den)),
    )
}

/// The binary exponent that belongs to the significand.
pub open spec fn exponent(num: nat, den: nat) -> int {
    doublings(num, den) - halvings(num, den) - 52
}

/// The bits of the float that is nearest to a positive fraction.
pub open spec fn fraction_bits(num: nat, den: nat) -> int {
    (exponent(num, den) + 1075) * 0x10_0000_0000_0000 + significand(num, den)
        - 0x10_0000_0000_0000
}

/// The magnitude of a number.
pub open spec fn magnitude(i: int) -> nat {
    if i < 0 {
        (-i) as nat
    } else {
        i as nat
    }
}

/// The whole number that a float keeps of `n`: one of at most 53 binary digits.
pub open spec fn kept(n: nat) -> nat {
    significand(n, 1) * two(doublings(n, 1)) / 0x10_0000_0000_0000
}

/// The bits of the float that holds milliseconds as seconds. The milliseconds are
/// rounded to a float first, and the quotient is rounded once more.
pub open spec fn seconds_bits(ms: int) -> int {
    if ms == 0 {
        0
    } else {
        (if ms < 0 {
            0x8000_0000_0000_0000int
        } else {
            0
        }) + fraction_bits(kept(magnitude(ms)), 1000)
    }
}

/// Rounding to the nearest integer is off by at most one half.
pub proof fn nearest_is_near(n: nat, d: nat)
    requires
        d > 0,
    ensures
        2 * n - d <= 2 * (nearest(n, d) * d) <= 2 * n + d,
{
    let q = n / d;
    let r = n % d;
    vstd::arithmetic::div_mod::lemma_fundamental_div_mod(n as int, d as int);
    assert(d * q == q * d) by (nonlinear_arith);
    assert((q + 1) * d == q * d + d) by (nonlinear_arith);
    assert(0 <= r < d) by (nonlinear_arith)
        requires
            d > 0,
            r == n % d,
    ;
}

proof fn two_is_positive(k: nat)
    ensures
        two(k) >= 1,
        k >= 10 ==> two(k) >= 1024,
        k >= 64 ==> two(k) >= 0x1_0000_0000_0000_0000,
    decreases k,
{
    reveal_with_fuel(two, 12);
    if k > 0 {
        two_is_positive((k - 1) as nat);
    }
    if k == 64 {
        two_at_64();
    }
}

proof fn two_at_64()
    ensures
        two(64) == 0x1_0000_0000_0000_0000,
{
    reveal_with_fuel(two, 65);
}

proof fn some_powers()
    ensures
        two(42) == 0x400_0000_0000,
        two(43) == 0x800_0000_0000,
        two(52) == 0x10_0000_0000_0000,
        two(53) == 0x20_0000_0000_0000,
{
    reveal_with_fuel(two, 54);
}

/// Doublings and halvings bring a fraction to at least one and below two.
pub proof fn scaled_to_one(num: nat, den: nat)
    requires
        num > 0,
        den > 0,
    ensures
        den * two(doublings(num, den)) <= num * two(halvings(num, den)) < 2 * (den * two(
            doublings(num, den),
        )),
{
    if num >= den {
        reach_above(num, den);
        assert(halvings(num, den) == 0);
        times_one(num);
    } else {
        reach_below(num, den);
        assert(doublings(num, den) == 0);
        times_one(den);
    }
}

proof fn times_one(x: nat)
    ensures
        x * two(0) == x,
{
    assert(x * two(0) == x) by (nonlinear_arith)
        requires
            two(0) == 1,
    ;
}

proof fn reach_above(num: nat, den: nat)
    requires
        den > 0,
        num >= den,
    ensures
        den * two(doublings(num, den)) <= num < 2 * (den * two(doublings(num, den))),
    decreases num - den,
{
    if num >= 2 * den {
        reach_above(num, 2 * den);
        let k = doublings(num, 2 * den);
        assert((2 * den) * two(k) == den * (2 * two(k))) by (nonlinear_arith);
    } else {
        times_one(den);
    }
}

proof fn reach_below(num: nat, den: nat)
    requires
        num > 0,
        num < 2 * den,
    ensures
        den <= num * two(halvings(num, den)) < 2 * den,
    decreases
            if num < den {
                den - num
            } else {
                0
            },
{
    if num < den {
        reach_below(2 * num, den);
        let k = halvings(2 * num, den);
        assert((2 * num) * two(k) == num * (2 * two(k))) by (nonlinear_arith);
    } else {
        times_one(num);
    }
}

/// The significand has 53 bits, or is the next power of two.
pub proof fn significand_is_normal(num: nat, den: nat)
    requires
        num > 0,
        den > 0,
    ensures
        0x10_0000_0000_0000 <= significand(num, den) <= 0x20_0000_0000_0000,
{
    scaled_to_one(num, den);
    let n = num * two(halvings(num, den));
    let d = den * two(doublings(num, den));
    let s: nat = 0x10_0000_0000_0000;
    let q = (n * s) / d;
    assert(d > 0);
    assert(q >= s) by (nonlinear_arith)
        requires
            n >= d,
            d > 0,
            q == (n * s) / d,
    ;
    assert(q < 2 * s) by (nonlinear_arith)
        requires
            n < 2 * d,
            d > 0,
            s == 0x10_0000_0000_0000,
            q == (n * s) / d,
    ;
}

struct Scaled {
    num: u128,
    den: u128,
    doublings: u64,
    halvings: u64,
}

fn scale(num: u64, den: u64) -> (scaled: Scaled)
    requires
        num > 0,
        0 < den <= 1000,
    ensures
        scaled.doublings == doublings(num as nat, den as nat),
        scaled.halvings == halvings(num as nat, den as nat),
        scaled.num == num * two(halvings(num as nat, den as nat)),
        scaled.den == den * two(doublings(num as nat, den as nat)),
        scaled.doublings <= 64,
        scaled.halvings <= 10,
        scaled.num < 0x2_0000_0000_0000_0000,
        0 < scaled.den <= scaled.num,
{
    let mut d: u128 = den as u128;
    let mut ups: u64 = 0;
    proof {
        times_one(den as nat);
        times_one(num as nat);
    }
    while num as u128 >= 2 * d
        invariant
            0 < den <= 1000,
            d == den * two(ups as nat),
            0 < d,
            d <= num || ups == 0,
            d <= 0x1_0000_0000_0000_0000,
            ups <= 64,
            doublings(num as nat, den as nat) == ups + doublings(num as nat, d as nat),
        decreases num - d,
    {
        proof {
            two_is_positive((ups + 1) as nat);
            two_is_positive(ups as nat);
            assert(den * (2 * two(ups as nat)) == 2 * (den * two(ups as nat))) by (nonlinear_arith);
            assert(two((ups + 1) as nat) <= den * two((ups + 1) as nat)) by (nonlinear_arith)
                requires
                    den >= 1,
                    two((ups + 1) as nat) >= 1,
            ;
        }
        d = 2 * d;
        ups += 1;
    }
    let mut n: u128 = num as u128;
    let mut downs: u64 = 0;
    while n < den as u128
        invariant
            0 < num,
            0 < den <= 1000,
            n == num * two(downs as nat),
            0 < n,
            n < 2 * den || downs == 0,
            n < 0x2_0000_0000_0000_0000,
            downs <= 10,
            halvings(num as nat, den as nat) == downs + halvings(n as nat, den as nat),
        decreases
                if n < den {
                    den - n
                } else {
                    0
                },
    {
        proof {
            two_is_positive(downs as nat);
            assert(num * (2 * two(downs as nat)) == 2 * (num * two(downs as nat)))
                by (nonlinear_arith);
            assert(two(downs as nat) <= num * two(downs as nat)) by (nonlinear_arith)
                requires
                    num >= 1,
                    two(downs as nat) >= 1,
            ;
        }
        n = 2 * n;
        downs += 1;
    }
    proof {
        scaled_to_one(num as nat, den as nat);
    }
    Scaled { num: n, den: d, doublings: ups, halvings: downs }
}

fn nearest_of(n: u128, d: u128) -> (m: u128)
    requires
        0 < d < 0x4000_0000_0000_0000_0000_0000_0000_0000,
        n < 0x8000_0000_0000_0000_0000_0000_0000_0000,
    ensures
        m == nearest(n as nat, d as nat),
{
    let q: u128 = n / d;
    let r: u128 = n % d;
    assert(r < d && q <= n) by (nonlinear_arith)
        requires
            d > 0,
            r == n % d,
            q == n / d,
    ;
    if 2 * r < d || (2 * r == d && q % 2 == 0) {
        q
    } else {
        q + 1
    }
}

/// A positive float: `significand` times two to the power `doublings`, divided by
/// two to the power 52 + `halvings`.
struct Rounded {
    significand: u64,
    doublings: u64,
    halvings: u64,
    up: u128,
    down: u128,
}

fn divided(num: u64, den: u64) -> (float: Rounded)
    requires
        num > 0,
        0 < den <= 1000,
    ensures
        float.significand == significand(num as nat, den as nat),
        float.doublings == doublings(num as nat, den as nat),
        float.halvings == halvings(num as nat, den as nat),
        float.up == two(float.doublings as nat),
        float.down == two(float.halvings as nat),
        float.significand <= 0x20_0000_0000_0000,
        float.doublings <= 64,
        float.halvings <= 10,
        0 < float.up <= 0x1_0000_0000_0000_0000,
        0 < float.down <= 1024,
{
    let scaled = scale(num, den);
    proof {
        scaled_to_one(num as nat, den as nat);
        significand_is_normal(num as nat, den as nat);
        two_is_positive(scaled.doublings as nat);
        two_is_positive(scaled.halvings as nat);
        two_grows(scaled.halvings as nat, 10);
        two_grows(scaled.doublings as nat, 64);
        two_at_64();
        reveal_with_fuel(two, 12);
    }
    let ghost p = two(scaled.doublings as nat);
    let ghost q = two(scaled.halvings as nat);
    assert((den * p) / (den as int) == p && (num * q) / (num as int) == q) by (nonlinear_arith)
        requires
            den > 0,
            num > 0,
    ;
    let m: u128 = nearest_of(scaled.num * 0x10_0000_0000_0000, scaled.den);
    Rounded {
        significand: m as u64,
        doublings: scaled.doublings,
        halvings: scaled.halvings,
        up: scaled.den / den as u128,
        down: scaled.num / num as u128,
    }
}

proof fn two_grows(a: nat, b: nat)
    requires
        a <= b,
    ensures
        two(a) <= two(b),
    decreases b,
{
    if a < b {
        two_grows(a, (b - 1) as nat);
    }
}

fn packed(float: &Rounded) -> (bits: u64)
    requires
        float.significand <= 0x20_0000_0000_0000,
        float.significand >= 0x10_0000_0000_0000,
        float.doublings <= 64,
        float.halvings <= 10,
    ensures
        bits == (float.doublings - float.halvings + 1023) * 0x10_0000_0000_0000
            + float.significand - 0x10_0000_0000_0000,
        bits < 0x8000_0000_0000_0000,
{
    let field: u64 = float.doublings + 1023 - float.halvings;
    field * 0x10_0000_0000_0000 + float.significand - 0x10_0000_0000_0000
}

/// What a float keeps of a whole number is near to it.
proof fn kept_is_near(n: nat)
    requires
        0 < n <= 0x8000_0000_0000_0000,
    ensures
        0 < kept(n) <= n + 2048,
{
    scaled_to_one(n, 1);
    significand_is_normal(n, 1);
    assert(halvings(n, 1) == 0);
    let d = two(doublings(n, 1));
    let s = significand(n, 1);
    let w: nat = 0x10_0000_0000_0000;
    assert(n * two(0) == n) by (nonlinear_arith)
        requires
            two(0) == 1,
    ;
    assert(1 * d == d) by (nonlinear_arith);
    nearest_is_near(n * w, d);
    assert(s == nearest(n * w, d));
    two_is_positive(doublings(n, 1));
    assert(s * d >= w) by (nonlinear_arith)
        requires
            s >= w,
            d >= 1,
    ;
    assert(2 * (s * d) <= 2 * (n * w) + d);
}

proof fn two_joins(a: nat, b: nat)
    ensures
        two(a + b) == two(a) * two(b),
    decreases a,
{
    if a == 0 {
        times_one(two(b));
        assert(two(0) * two(b) == two(b) * two(0)) by (nonlinear_arith);
    } else {
        two_joins((a - 1) as nat, b);
        let x = two((a - 1) as nat);
        assert((2 * x) * two(b) == 2 * (x * two(b))) by (nonlinear_arith);
        assert(two(a + b) == 2 * two((a + b - 1) as nat));
    }
}

/// A float keeps every whole number of at most 53 binary digits.
pub proof fn small_numbers_are_kept(n: nat)
    requires
        0 < n < 0x20_0000_0000_0000,
    ensures
        kept(n) == n,
{
    scaled_to_one(n, 1);
    assert(halvings(n, 1) == 0);
    times_one(n);
    let e = doublings(n, 1);
    let w: nat = 0x10_0000_0000_0000;
    some_powers();
    let u = two(e);
    assert(1 * u == u) by (nonlinear_arith);
    two_is_positive(e);
    if e > 52 {
        two_grows(53, e);
    }
    let v = two((52 - e) as nat);
    two_joins((52 - e) as nat, e);
    let x = n * v;
    assert(x * u == n * w) by (nonlinear_arith)
        requires
            x == n * v,
            v * u == w,
    ;
    near_is_nearest(n * w, u, x);
    assert((n * w) / w == n) by (nonlinear_arith)
        requires
            w > 0,
    ;
}

/// What a float keeps of a whole number.
fn keep(n: u64) -> (k: u64)
    requires
        0 < n <= 0x8000_0000_0000_0000,
    ensures
        k == kept(n as nat),
        0 < k <= n + 2048,
{
    let float = divided(n, 1);
    proof {
        kept_is_near(n as nat);
        let s = float.significand;
        let u = float.up;
        assert(0 <= s * u <= 0x20_0000_0000_0000 * 0x1_0000_0000_0000_0000) by (nonlinear_arith)
            requires
                0 <= s <= 0x20_0000_0000_0000,
                0 <= u <= 0x1_0000_0000_0000_0000,
        ;
    }
    (float.significand as u128 * float.up / 0x10_0000_0000_0000) as u64
}

/// The bits of the float that holds milliseconds as seconds.
pub fn seconds(ms: i64) -> (bits: u64)
    ensures
        bits == seconds_bits(ms as int),
{
    if ms == 0 {
        return 0;
    }
    let k: u64 = keep(magnitude_of(ms));
    let float = divided(k, 1000);
    proof {
        significand_is_normal(k as nat, 1000);
    }
    let bits: u64 = packed(&float);
    if ms < 0 {
        bits + 0x8000_0000_0000_0000
    } else {
        bits
    }
}

/// Ten to the power `d`.
pub open spec fn ten(d: nat) -> nat
    decreases d,
{
    if d == 0 {
        1
    } else {
        10 * ten((d - 1) as nat)
    }
}

/// The float that is nearest to a fraction, rounded to `d` digits behind the point
/// and written without the point.
pub open spec fn digits_at(num: nat, den: nat, d: nat) -> nat {
    nearest(
        significand(num, den) * two(doublings(num, den)) * ten(d),
        0x10_0000_0000_0000 * two(halvings(num, den)),
    )
}

/// With `d` digits behind the point the float is read back.
pub open spec fn reads_back(num: nat, den: nat, d: nat) -> bool {
    digits_at(num, den, d) > 0 && fraction_bits(digits_at(num, den, d), ten(d)) == fraction_bits(
        num,
        den,
    )
}

/// How many digits behind the point it takes to read the float back.
pub open spec fn places(num: nat, den: nat) -> nat {
    if reads_back(num, den, 0) {
        0
    } else if reads_back(num, den, 1) {
        1
    } else if reads_back(num, den, 2) {
        2
    } else {
        3
    }
}

/// The last `d` decimal digits of a number, up to three; at least one is written.
pub open spec fn last_digits(k: nat, d: nat) -> Seq<char> {
    if d == 0 {
        seq!['0']
    } else if d == 1 {
        seq![text::digit_char(k % 10)]
    } else if d == 2 {
        seq![text::digit_char((k / 10) % 10), text::digit_char(k % 10)]
    } else {
        seq![
            text::digit_char((k / 100) % 10),
            text::digit_char((k / 10) % 10),
            text::digit_char(k % 10),
        ]
    }
}

/// The shortest print of the float that is nearest to a fraction.
pub open spec fn shortest(num: nat, den: nat) -> Seq<char> {
    let d = places(num, den);
    let k = digits_at(num, den, d);
    text::decimal(k / ten(d)) + seq!['.'] + last_digits(k, d)
}

/// Doubling the denominator as often as a fraction lies in its range gives the
/// number of doublings.
proof fn doublings_are(num: nat, den: nat, k: nat)
    requires
        den > 0,
        den * two(k) <= num < 2 * (den * two(k)),
    ensures
        doublings(num, den) == k,
    decreases k,
{
    if k == 0 {
        times_one(den);
    } else {
        let h = two((k - 1) as nat);
        two_is_positive((k - 1) as nat);
        assert((2 * den) * h == den * two(k)) by (nonlinear_arith)
            requires
                two(k) == 2 * h,
        ;
        assert(den * two(k) >= 2 * den) by (nonlinear_arith)
            requires
                two(k) == 2 * h,
                h >= 1,
        ;
        doublings_are(num, 2 * den, (k - 1) as nat);
    }
}

/// A whole number nearer than one half is the nearest.
proof fn near_is_nearest(n: nat, d: nat, q: nat)
    requires
        d > 0,
        2 * (q * d) < 2 * n + d,
        2 * n < 2 * (q * d) + d,
    ensures
        nearest(n, d) == q,
{
    nearest_is_near(n, d);
    let m = nearest(n, d);
    assert(m == q) by (nonlinear_arith)
        requires
            d > 0,
            2 * (q * d) < 2 * n + d,
            2 * n < 2 * (q * d) + d,
            2 * n - d <= 2 * (m * d) <= 2 * n + d,
    ;
}

/// Three digits behind the point read milliseconds back as seconds.
proof fn thousandths_read_back(num: nat)
    requires
        0 < num <= 0x8000_0000_0000_0800,
    ensures
        reads_back(num, 1000, 3),
{
    reveal_with_fuel(ten, 4);
    assert(ten(3) == 1000);
    scaled_to_one(num, 1000);
    significand_is_normal(num, 1000);
    let w: nat = 0x10_0000_0000_0000;
    let e = doublings(num, 1000);
    let s = significand(num, 1000);
    let u = two(e);
    let h = two(halvings(num, 1000));
    two_is_positive(e);
    two_is_positive(halvings(num, 1000));
    let d = 1000 * u;
    let a = s * u * 1000;
    let b = w * h;
    let k = digits_at(num, 1000, 3);
    assert(k == nearest(a, b));
    nearest_is_near(num * h * w, d);
    assert(s * d == a) by (nonlinear_arith)
        requires
            d == 1000 * u,
            a == s * u * 1000,
    ;
    assert(num * b == num * h * w) by (nonlinear_arith)
        requires
            b == w * h,
    ;
    assert(b > 0) by (nonlinear_arith)
        requires
            b == w * h,
            w > 0,
            h > 0,
    ;
    // The digits are off by d / (2 b).
    assert(2 * (num * b) - d <= 2 * a <= 2 * (num * b) + d);
    if d < b {
        near_is_nearest(a, b, num);
    } else {
        assert(d > w) by {
            some_powers();
            if e <= 42 {
                two_grows(e, 42);
                assert(d >= w * h);
                assert(w * h >= w) by (nonlinear_arith)
                    requires
                        h >= 1,
                ;
            } else {
                two_grows(43, e);
            }
        }
        assert(halvings(num, 1000) == 0) by {
            if num < 1000 {
                assert(e == 0);
                assert(d == 1000);
            }
        }
        assert(h == 1 && b == w);
        nearest_is_near(a, w);
        assert(2 * a - w <= 2 * (k * w) <= 2 * a + w);
        if s == w || s == 2 * w {
            // A power of two: it is a whole number of thousandths.
            let x = if s == w {
                d
            } else {
                2 * d
            };
            assert(a == x * w) by (nonlinear_arith)
                requires
                    a == s * d,
                    (s == w && x == d) || (s == 2 * w && x == 2 * d),
            ;
            near_is_nearest(a, w, x);
            assert(k == x);
            let f = if s == w {
                e
            } else {
                e + 1
            };
            assert(two(e + 1) == 2 * u);
            assert(1000 * two(f) == x);
            doublings_are(x, 1000, f);
            assert(x >= 1000);
            assert(halvings(x, 1000) == 0);
            times_one(x);
            assert(w * x == x * w) by (nonlinear_arith);
            near_is_nearest(x * w, x, w);
            assert(significand(x, 1000) == w);
        } else {
            // Between two powers of two: the digits lie there too.
            assert(a >= d * w + d && a + d <= 2 * (d * w)) by (nonlinear_arith)
                requires
                    a == s * d,
                    w + 1 <= s,
                    s + 1 <= 2 * w,
            ;
            assert(k >= d && k < 2 * d) by (nonlinear_arith)
                requires
                    2 * a - w <= 2 * (k * w) <= 2 * a + w,
                    a >= d * w + d,
                    a + d <= 2 * (d * w),
                    d > w,
                    w > 0,
            ;
            doublings_are(k, 1000, e);
            assert(k >= 1000);
            assert(halvings(k, 1000) == 0);
            times_one(k);
            near_is_nearest(k * w, d, s);
            assert(significand(k, 1000) == s);
        }
    }
}

/// The print of milliseconds as seconds reads back as the same float, and no print
/// with fewer digits does.
pub proof fn printed_seconds_read_back(ms: i64)
    requires
        ms != 0,
    ensures
        ({
            let num = kept(magnitude(ms as int));
            let d = places(num, 1000);
            &&& fraction_bits(digits_at(num, 1000, d), ten(d)) == fraction_bits(num, 1000)
            &&& forall|fewer: nat| fewer < d ==> !#[trigger] reads_back(num, 1000, fewer)
        }),
{
    kept_is_near(magnitude(ms as int));
    thousandths_read_back(kept(magnitude(ms as int)));
}

/// Milliseconds as seconds in print.
pub open spec fn seconds_text(ms: int) -> Seq<char> {
    (if ms < 0 {
        seq!['-']
    } else {
        Seq::empty()
    }) + shortest(kept(magnitude(ms)), 1000)
}

/// A whole number as a value.
pub open spec fn whole_tree(n: int) -> json::Tree {
    if n < 0 {
        json::Tree::Negative(n as i64)
    } else {
        json::Tree::Unsigned(n as u64)
    }
}

/// Milliseconds as seconds: a whole number where they are whole seconds, else a
/// float.
pub open spec fn timestamp_tree(ms: int) -> json::Tree {
    if ms % 1000 == 0 {
        whole_tree(ms / 1000)
    } else {
        json::Tree::Float(seconds_bits(ms) as u64, seconds_text(ms))
    }
}

/// The character of a decimal digit.
fn digit(d: u64) -> (c: char)
    requires
        d < 10,
    ensures
        c == text::digit_char(d as nat),
{
    (48u8 + d as u8) as char
}

/// The digits of a float as they are printed.
struct Print {
    digits: u64,
    places: u64,
    unit: u64,
}

/// The float as a number of `d` digits behind the point stays in range.
proof fn digits_fit(num: nat, d: nat)
    requires
        0 < num <= 0x8000_0000_0000_0800,
        d <= 3,
    ensures
        significand(num, 1000) * two(doublings(num, 1000)) * ten(d)
            < 0x8000_0000_0000_0000_0000_0000_0000_0000,
        digits_at(num, 1000, d) <= num + 4096,
{
    reveal_with_fuel(ten, 4);
    scaled_to_one(num, 1000);
    significand_is_normal(num, 1000);
    let s = significand(num, 1000);
    let u = two(doublings(num, 1000));
    let h = two(halvings(num, 1000));
    let t = ten(d);
    let w: nat = 0x10_0000_0000_0000;
    let n = num * h;
    two_is_positive(halvings(num, 1000));
    two_is_positive(doublings(num, 1000));
    nearest_is_near(n * w, 1000 * u);
    assert(s == nearest(n * w, 1000 * u));
    assert(s * (1000 * u) == s * u * 1000) by (nonlinear_arith);
    assert(2 * (s * u * 1000) <= 2 * (n * w) + n);
    assert(s * u * t <= s * u * 1000) by (nonlinear_arith)
        requires
            t <= 1000,
            s >= 0,
            u >= 0,
    ;
    let a = s * u * t;
    let b = w * h;
    assert(n <= 0x8000_0000_0000_0800 * 1024) by {
        if num >= 1000 {
            assert(halvings(num, 1000) == 0);
            assert(num * 1 == num);
        } else {
            assert(1000 * u == 1000) by {
                assert(doublings(num, 1000) == 0);
            }
        }
    }
    assert(b > 0) by (nonlinear_arith)
        requires
            w > 0,
            h > 0,
            b == w * h,
    ;
    assert(2 * (n * w) + n == 2 * (num * b) + num * h) by (nonlinear_arith)
        requires
            n == num * h,
            b == w * h,
    ;
    assert(num * h <= 4096 * b) by (nonlinear_arith)
        requires
            num <= 0x8000_0000_0000_0800,
            w == 0x10_0000_0000_0000,
            b == w * h,
            h > 0,
    ;
    nearest_is_near(a, b);
    let k = nearest(a, b);
    assert(2 * (k * b) <= 2 * a + b);
    assert(2 * (k * b) <= 2 * (num * b) + 4096 * b + b);
    assert(k <= num + 4096) by (nonlinear_arith)
        requires
            2 * (k * b) <= 2 * (num * b) + 4096 * b + b,
            b > 0,
    ;
}

/// The digits of milliseconds as seconds with `places` digits behind the point, if
/// they read back.
fn attempt(num: u64, float: &Rounded, bits: u64, places: u64, unit: u64) -> (print: Option<Print>)
    requires
        0 < num <= 0x8000_0000_0000_0800,
        float.significand == significand(num as nat, 1000),
        float.up == two(doublings(num as nat, 1000)),
        float.down == two(halvings(num as nat, 1000)),
        0 < float.down <= 1024,
        bits == fraction_bits(num as nat, 1000),
        places <= 3,
        unit == ten(places as nat),
        0 < unit <= 1000,
    ensures
        match print {
            Some(p) => reads_back(num as nat, 1000, places as nat) && p.digits == digits_at(
                num as nat,
                1000,
                places as nat,
            ) && p.places == places && p.unit == unit,
            None => !reads_back(num as nat, 1000, places as nat),
        },
{
    proof {
        digits_fit(num as nat, places as nat);
        let s = float.significand;
        let u = float.up;
        let t = unit;
        assert(0 <= s * u <= s * u * t) by (nonlinear_arith)
            requires
                s >= 0,
                u >= 0,
                t >= 1,
        ;
    }
    let digits: u64 = nearest_of(
        float.significand as u128 * float.up * unit as u128,
        0x10_0000_0000_0000 * float.down,
    ) as u64;
    if digits == 0 {
        return None;
    }
    let again = divided(digits, unit);
    proof {
        significand_is_normal(digits as nat, unit as nat);
    }
    if packed(&again) == bits {
        Some(Print { digits, places, unit })
    } else {
        None
    }
}

/// The digits of milliseconds as seconds with three digits behind the point.
fn thousandths(num: u64, float: &Rounded) -> (print: Print)
    requires
        0 < num <= 0x8000_0000_0000_0800,
        float.significand == significand(num as nat, 1000),
        float.up == two(doublings(num as nat, 1000)),
        float.down == two(halvings(num as nat, 1000)),
        0 < float.down <= 1024,
    ensures
        print.digits == digits_at(num as nat, 1000, 3),
        print.places == 3,
        print.unit == ten(3),
{
    proof {
        reveal_with_fuel(ten, 4);
        digits_fit(num as nat, 3);
        let s = float.significand;
        let u = float.up;
        assert(0 <= s * u <= s * u * 1000) by (nonlinear_arith)
            requires
                s >= 0,
                u >= 0,
        ;
    }
    let digits: u64 = nearest_of(
        float.significand as u128 * float.up * 1000,
        0x10_0000_0000_0000 * float.down,
    ) as u64;
    Print { digits, places: 3, unit: 1000 }
}

fn shortest_print(num: u64) -> (print: Print)
    requires
        0 < num <= 0x8000_0000_0000_0800,
    ensures
        print.places == places(num as nat, 1000),
        print.digits == digits_at(num as nat, 1000, print.places as nat),
        print.unit == ten(print.places as nat),
        0 < print.unit,
{
    proof {
        reveal_with_fuel(ten, 4);
        significand_is_normal(num as nat, 1000);
    }
    let float = divided(num, 1000);
    let bits: u64 = packed(&float);
    if let Some(print) = attempt(num, &float, bits, 0, 1) {
        return print;
    }
    if let Some(print) = attempt(num, &float, bits, 1, 10) {
        return print;
    }
    if let Some(print) = attempt(num, &float, bits, 2, 100) {
        return print;
    }
    thousandths(num, &float)
}

fn push_last_digits(out: &mut String, print: &Print)
    requires
        print.places <= 3,
    ensures
        final(out)@ == old(out)@ + last_digits(print.digits as nat, print.places as nat),
{
    let k: u64 = print.digits;
    if print.places == 0 {
        push_char(out, '0');
    } else {
        if print.places == 3 {
            push_char(out, digit((k / 100) % 10));
        }
        if print.places >= 2 {
            push_char(out, digit((k / 10) % 10));
        }
        push_char(out, digit(k % 10));
    }
    assert(out@ =~= old(out)@ + last_digits(print.digits as nat, print.places as nat));
}

fn magnitude_of(ms: i64) -> (n: u64)
    ensures
        n == magnitude(ms as int),
{
    if ms < 0 {
        if ms == i64::MIN {
            0x8000_0000_0000_0000
        } else {
            (-ms) as u64
        }
    } else {
        ms as u64
    }
}

/// Truncation towards zero, as machine division does it.
pub open spec fn truncated(a: int, b: int) -> int {
    if a < 0 {
        -((-a) / b)
    } else {
        a / b
    }
}

/// Machine division of a time by a unit.
pub(crate) fn quotient(a: i64, b: u64) -> (q: i64)
    requires
        b >= 2,
    ensures
        q == truncated(a as int, b as int),
        i64::MIN <= q * b <= i64::MAX,
{
    let m: u64 = magnitude_of(a);
    let n: u64 = m / b;
    assert(n <= m / 2 && 0 <= n * b <= m) by (nonlinear_arith)
        requires
            b >= 2,
            n == m / b,
    ;
    if a < 0 {
        proof {
            let q = -(n as int);
            assert(q * b == -(n * b)) by (nonlinear_arith)
                requires
                    q == -(n as int),
            ;
        }
        -(n as i64)
    } else {
        n as i64
    }
}

/// Milliseconds as seconds.
pub fn timestamp(ms: i64) -> (value: Json)
    ensures
        json::tree(value) == timestamp_tree(ms as int),
{
    let n: u64 = magnitude_of(ms);
    assert((n % 1000 == 0) == (ms as int % 1000 == 0));
    if n % 1000 == 0 {
        let q: i64 = quotient(ms, 1000);
        return json::whole(q);
    }
    let print = shortest_print(keep(n));
    let mut written = String::new();
    if ms < 0 {
        push_char(&mut written, '-');
    }
    push_decimal(&mut written, print.digits / print.unit);
    push_char(&mut written, '.');
    push_last_digits(&mut written, &print);
    assert(written@ =~= seconds_text(ms as int));
    Json::Float(seconds(ms), written)
}

/// The least whole number that a float prints with an exponent.
pub const EXPONENTIAL: u64 = 10_000_000_000_000_000;

/// The decimal that a whole float is printed by: ten times a whole number where that
/// reads back.
pub open spec fn whole_digits(x: nat) -> nat {
    let rough = nearest(x, 10) * 10;
    if kept(rough) == x {
        rough
    } else {
        x
    }
}

/// A text without zeros at its end.
pub open spec fn without_zeros(s: Seq<char>) -> Seq<char>
    decreases s.len(),
{
    if s.len() > 0 && s.last() == '0' {
        without_zeros(s.drop_last())
    } else {
        s
    }
}

/// The digits of a number of seventeen digits, with a point behind the first and
/// without zeros at the end.
pub open spec fn pointed(digits: Seq<char>) -> Seq<char> {
    let rest = without_zeros(digits.drop_first());
    if rest.len() == 0 {
        seq![digits[0]]
    } else {
        seq![digits[0], '.'] + rest
    }
}

/// A whole float of at most seventeen digits in print.
pub open spec fn whole_float_text(x: nat) -> Seq<char> {
    if x < EXPONENTIAL {
        text::decimal(x) + ".0"@
    } else {
        pointed(text::decimal(whole_digits(x))) + "e+16"@
    }
}

/// Twice the float of a whole number and one half.
pub open spec fn twice_and_one(n: nat) -> nat {
    kept((2 * kept(n) + 1) as nat)
}

/// The float of a whole number and one half in print.
pub open spec fn half_more_text(n: nat) -> Seq<char> {
    if n == 0 {
        "0.5"@
    } else if twice_and_one(n) % 2 == 1 {
        text::decimal(twice_and_one(n) / 2) + ".5"@
    } else {
        whole_float_text(twice_and_one(n) / 2)
    }
}

/// A time in a query: whole seconds, or seconds with three digits behind the
/// point. The sign of times within a second of the epoch is not written.
pub open spec fn query_time(ms: int) -> Seq<char> {
    if ms % 1000 == 0 {
        text::signed_decimal(ms / 1000)
    } else {
        text::signed_decimal(truncated(ms, 1000)) + seq![
            '.',
            text::digit_char((magnitude(ms) % 1000) / 100),
            text::digit_char(((magnitude(ms) % 1000) / 10) % 10),
            text::digit_char((magnitude(ms) % 1000) % 10),
        ]
    }
}

/// A time as it stands in a query.
pub fn format_timestamp(ms: i64) -> (out: String)
    ensures
        out@ == query_time(ms as int),
{
    let n: u64 = magnitude_of(ms);
    assert((n % 1000 == 0) == (ms as int % 1000 == 0));
    let mut out = String::new();
    push_signed(&mut out, quotient(ms, 1000));
    if n % 1000 != 0 {
        let rest: u64 = n % 1000;
        push_char(&mut out, '.');
        push_char(&mut out, digit(rest / 100));
        push_char(&mut out, digit((rest / 10) % 10));
        push_char(&mut out, digit(rest % 10));
    }
    assert(out@ =~= query_time(ms as int));
    out
}

fn push_pointed(out: &mut String, n: u64)
    ensures
        final(out)@ == old(out)@ + pointed(text::decimal(n as nat)),
{
    let mut written = String::new();
    push_decimal(&mut written, n);
    assert(written@ =~= text::decimal(n as nat));
    let digits = chars_of(&written);
    let mut end: usize = digits.len();
    assert(digits@.subrange(1, end as int) =~= digits@.drop_first());
    while end > 1 && digits[end - 1] == '0'
        invariant
            1 <= end <= digits@.len(),
            without_zeros(digits@.subrange(1, end as int)) == without_zeros(digits@.drop_first()),
        decreases end,
    {
        assert(digits@.subrange(1, end as int).drop_last() =~= digits@.subrange(1, end - 1));
        end -= 1;
    }
    push_char(out, digits[0]);
    if end > 1 {
        push_char(out, '.');
        let mut i: usize = 1;
        while i < end
            invariant
                1 <= i <= end <= digits@.len(),
                out@ == old(out)@ + seq![digits@[0], '.'] + digits@.subrange(1, i as int),
            decreases end - i,
        {
            push_char(out, digits[i]);
            i += 1;
            assert(digits@.subrange(1, i as int) =~= digits@.subrange(1, i - 1).push(
                digits@[i - 1],
            ));
        }
    }
    assert(out@ =~= old(out)@ + pointed(text::decimal(n as nat)));
}

/// A whole float in print.
fn push_whole_float(out: &mut String, x: u64)
    requires
        x <= 100_000_000_000_000_000,
    ensures
        final(out)@ == old(out)@ + whole_float_text(x as nat),
{
    if x < EXPONENTIAL {
        push_decimal(out, x);
        out.append(".0");
    } else {
        proof {
            nearest_is_near(x as nat, 10);
        }
        let rough: u64 = nearest_of(x as u128, 10) as u64 * 10;
        let digits: u64 = if keep(rough) == x {
            rough
        } else {
            x
        };
        push_pointed(out, digits);
        out.append("e+16");
    }
    assert(out@ =~= old(out)@ + whole_float_text(x as nat));
}

/// The float of a whole number and one half in print.
pub(crate) fn half_more(n: u64) -> (out: String)
    requires
        n * 1_000 <= u64::MAX,
    ensures
        out@ == half_more_text(n as nat),
        out@.len() > 0,
{
    let mut out = String::new();
    if n == 0 {
        out.append("0.5");
    } else {
        let twice: u64 = keep(2 * keep(n) + 1);
        if twice % 2 == 1 {
            push_decimal(&mut out, twice / 2);
            out.append(".5");
        } else {
            push_whole_float(&mut out, twice / 2);
        }
    }
    proof {
        reveal_strlit("0.5");
        reveal_strlit(".5");
        reveal_strlit(".0");
        reveal_strlit("e+16");
    }
    assert(out@ =~= half_more_text(n as nat));
    out
}

/// Up to two to the power 52 the half is kept.
pub proof fn small_halves_are_kept(n: nat)
    requires
        n < 0x10_0000_0000_0000,
    ensures
        half_more_text(n) == text::decimal(n) + ".5"@,
{
    if n == 0 {
        reveal_strlit("0.5");
        reveal_strlit(".5");
        assert(text::decimal(0) =~= seq!['0']);
        assert("0.5"@ =~= text::decimal(0) + ".5"@);
    } else {
        small_numbers_are_kept(n);
        small_numbers_are_kept((2 * n + 1) as nat);
    }
}

/// Time `index` of `count` evenly spaced times from `start` to `end`.
pub open spec fn spaced_at(start: int, end: int, count: nat, index: int) -> int {
    if count <= 1 {
        start
    } else {
        start + truncated(index * (end - start), count - 1)
    }
}

/// Evenly spaced times.
pub open spec fn spaced(start: int, end: int, count: nat) -> Seq<int> {
    Seq::new(count, |i: int| spaced_at(start, end, count, i))
}

/// Times as numbers.
pub open spec fn numbers(s: Seq<i64>) -> Seq<int> {
    s.map_values(|x: i64| x as int)
}

/// The first of the times is the start, the last is the end, and all lie
/// between them.
pub proof fn spaced_times_lie_between(start: int, end: int, count: nat, index: int)
    requires
        count >= 2,
        0 <= index < count,
    ensures
        spaced_at(start, end, count, 0) == start,
        spaced_at(start, end, count, count - 1) == end,
        start <= end ==> start <= spaced_at(start, end, count, index) <= end,
        end <= start ==> end <= spaced_at(start, end, count, index) <= start,
{
    let d = end - start;
    let c = count - 1;
    assert(0 * d == 0);
    if d >= 0 {
        assert((c * d) / c == d) by (nonlinear_arith)
            requires
                c > 0,
        ;
        assert(0 <= (index * d) / c <= d) by (nonlinear_arith)
            requires
                0 <= index <= c,
                c > 0,
                d >= 0,
        ;
        assert(c * d >= 0) by (nonlinear_arith)
            requires
                c > 0,
                d >= 0,
        ;
        assert(index * d >= 0) by (nonlinear_arith)
            requires
                index >= 0,
                d >= 0,
        ;
    } else {
        let n = -d;
        assert(-(c * d) == c * n) by (nonlinear_arith)
            requires
                n == -d,
        ;
        assert(-(index * d) == index * n) by (nonlinear_arith)
            requires
                n == -d,
        ;
        assert((c * n) / c == n) by (nonlinear_arith)
            requires
                c > 0,
        ;
        assert(0 <= (index * n) / c <= n) by (nonlinear_arith)
            requires
                0 <= index <= c,
                c > 0,
                n >= 0,
        ;
        assert(c * n > 0) by (nonlinear_arith)
            requires
                c > 0,
                n > 0,
        ;
        assert(index * n >= 0) by (nonlinear_arith)
            requires
                index >= 0,
                n >= 0,
        ;
    }
}

/// Evenly spaced times from `start` to `end`.
pub fn evenly_spaced(start: i64, end: i64, count: usize) -> (times: Vec<i64>)
    ensures
        numbers(times@) == spaced(start as int, end as int, count as nat),
{
    let mut times: Vec<i64> = Vec::new();
    if count == 1 {
        times.push(start);
        assert(numbers(times@) =~= spaced(start as int, end as int, 1));
        return times;
    }
    let back: bool = end < start;
    let d: u128 = if back {
        (start as i128 - end as i128) as u128
    } else {
        (end as i128 - start as i128) as u128
    };
    let mut index: usize = 0;
    while index < count
        invariant
            index <= count,
            count != 1,
            back == (end < start),
            d == magnitude(end - start),
            times@.len() == index,
            forall|i: int|
                0 <= i < index ==> #[trigger] times@[i] == spaced_at(
                    start as int,
                    end as int,
                    count as nat,
                    i,
                ),
        decreases count - index,
    {
        let c: u128 = (count - 1) as u128;
        assert(0 <= index * d < 0x1_0000_0000_0000_0000_0000_0000_0000_0000) by (nonlinear_arith)
            requires
                0 <= index <= 0xffff_ffff_ffff_ffff,
                0 <= d <= 0xffff_ffff_ffff_ffff,
        ;
        let product: u128 = index as u128 * d;
        let step: u128 = product / c;
        proof {
            let e = end - start;
            assert(back ==> -(index * e) == index * d) by (nonlinear_arith)
                requires
                    back ==> d == -e,
            ;
            assert(!back ==> index * e == index * d) by (nonlinear_arith)
                requires
                    !back ==> d == e,
            ;
            spaced_times_lie_between(start as int, end as int, count as nat, index as int);
            assert(spaced_at(start as int, end as int, count as nat, index as int) == (if back {
                start - step
            } else {
                start + step
            }));
        }
        let at: i128 = if back {
            start as i128 - step as i128
        } else {
            start as i128 + step as i128
        };
        times.push(at as i64);
        index += 1;
    }
    assert(numbers(times@) =~= spaced(start as int, end as int, count as nat));
    times
}

/// The text with every occurrence of a mark replaced, from the left.
pub open spec fn replaced(s: Seq<char>, mark: Seq<char>, with: Seq<char>) -> Seq<char>
    decreases s.len(),
{
    if mark.len() == 0 || s.len() == 0 {
        s
    } else if text::begins_with(s, mark) {
        with + replaced(s.skip(mark.len() as int), mark, with)
    } else {
        seq![s[0]] + replaced(s.drop_first(), mark, with)
    }
}

/// Replaces every occurrence of a mark.
pub fn replace_marks(s: &str, mark: &str, with: &str) -> (out: String)
    requires
        mark@.len() > 0,
    ensures
        out@ == replaced(s@, mark@, with@),
{
    let chars = chars_of(s);
    let pattern = chars_of(mark);
    let mut out = String::new();
    let mut i: usize = 0;
    assert(chars@.skip(0) =~= s@);
    assert(out@ + replaced(chars@.skip(0), mark@, with@) =~= replaced(s@, mark@, with@));
    while i < chars.len()
        invariant
            i <= chars@.len(),
            chars@ == s@,
            pattern@ == mark@,
            mark@.len() > 0,
            out@ + replaced(chars@.skip(i as int), mark@, with@) == replaced(s@, mark@, with@),
        decreases chars.len() - i,
    {
        let ghost rest = chars@.skip(i as int);
        let ghost before = out@;
        if matches_at(&chars, &pattern, i) {
            assert(rest.subrange(0, mark@.len() as int) =~= chars@.subrange(
                i as int,
                i + mark@.len(),
            ));
            assert(rest.skip(mark@.len() as int) =~= chars@.skip(i + mark@.len()));
            out.append(with);
            i += pattern.len();
            assert(out@ + replaced(chars@.skip(i as int), mark@, with@) =~= before + replaced(
                rest,
                mark@,
                with@,
            ));
        } else {
            proof {
                if text::begins_with(rest, mark@) {
                    assert(rest.subrange(0, mark@.len() as int) =~= chars@.subrange(
                        i as int,
                        i + mark@.len(),
                    ));
                }
                assert(rest.drop_first() =~= chars@.skip(i + 1));
            }
            push_char(&mut out, chars[i]);
            i += 1;
            assert(out@ + replaced(chars@.skip(i as int), mark@, with@) =~= before + replaced(
                rest,
                mark@,
                with@,
            ));
        }
    }
    assert(out@ =~= replaced(s@, mark@, with@));
    out
}

} // verus!
