//! Byte encodings of numbers and framed values, and the readers that undo them.
use vstd::prelude::*;
use vstd::string::*;

verus! {

/// The bytes of a text: its UTF-8 encoding.
pub open spec fn utf8(s: Seq<char>) -> Seq<u8> {
    vstd::utf8::encode_utf8(s)
}

/// `256` to the power `w`.
pub open spec fn pow256(w: nat) -> nat
    decreases w,
{
    if w == 0 {
        1
    } else {
        256 * pow256((w - 1) as nat)
    }
}

/// The `w` lowest bytes of `n`, least significant byte first.
pub open spec fn le(n: nat, w: nat) -> Seq<u8>
    decreases w,
{
    if w == 0 {
        Seq::empty()
    } else {
        seq![(n % 256) as u8] + le(n / 256, (w - 1) as nat)
    }
}

/// The `w` lowest bytes of `n`, most significant byte first.
pub open spec fn be(n: nat, w: nat) -> Seq<u8>
    decreases w,
{
    if w == 0 {
        Seq::empty()
    } else {
        be(n / 256, (w - 1) as nat).push((n % 256) as u8)
    }
}

/// The number whose bytes are `s`, least significant byte first.
pub open spec fn le_value(s: Seq<u8>) -> nat
    decreases s.len(),
{
    if s.len() == 0 {
        0
    } else {
        s[0] as nat + 256 * le_value(s.drop_first())
    }
}

/// The number whose bytes are `s`, most significant byte first.
pub open spec fn be_value(s: Seq<u8>) -> nat
    decreases s.len(),
{
    if s.len() == 0 {
        0
    } else {
        256 * be_value(s.drop_last()) + s.last() as nat
    }
}

/// The 64-bit two's complement pattern of a signed number.
pub open spec fn pattern64(i: int) -> nat {
    if i < 0 {
        (i + 0x1_0000_0000_0000_0000) as nat
    } else {
        i as nat
    }
}

/// The signed number that a 64-bit two's complement pattern denotes.
pub open spec fn signed64(n: nat) -> int {
    if n >= 0x8000_0000_0000_0000 {
        n - 0x1_0000_0000_0000_0000
    } else {
        n as int
    }
}

/// A length in four bytes, followed by the value itself.
pub open spec fn frame(value: Seq<u8>) -> Seq<u8> {
    le(value.len(), 4) + value
}

/// `w` bytes stand for every number below `pow256(w)`: reading them back gives
/// the number that was written.
pub proof fn le_is_read_back(n: nat, w: nat)
    requires
        n < pow256(w),
    ensures
        le(n, w).len() == w,
        le_value(le(n, w)) == n,
    decreases w,
{
    if w > 0 {
        assert(n / 256 < pow256((w - 1) as nat)) by (nonlinear_arith)
            requires
                n < 256 * pow256((w - 1) as nat),
        ;
        le_is_read_back(n / 256, (w - 1) as nat);
        assert(le(n, w).drop_first() =~= le(n / 256, (w - 1) as nat));
    }
}

/// The most-significant-first form is read back as the number that was written.
pub proof fn be_is_read_back(n: nat, w: nat)
    requires
        n < pow256(w),
    ensures
        be(n, w).len() == w,
        be_value(be(n, w)) == n,
    decreases w,
{
    if w > 0 {
        assert(n / 256 < pow256((w - 1) as nat)) by (nonlinear_arith)
            requires
                n < 256 * pow256((w - 1) as nat),
        ;
        be_is_read_back(n / 256, (w - 1) as nat);
        assert(be(n, w).drop_last() =~= be(n / 256, (w - 1) as nat));
    }
}

/// Every encoding has the asked width.
pub proof fn encoded_width(n: nat, w: nat)
    ensures
        le(n, w).len() == w,
        be(n, w).len() == w,
    decreases w,
{
    if w > 0 {
        encoded_width(n / 256, (w - 1) as nat);
    }
}

/// A frame is its value preceded by four bytes that give the value's length,
/// for every value whose length fits in four bytes.
pub proof fn frame_carries_its_value(value: Seq<u8>)
    requires
        value.len() < 0x1_0000_0000,
    ensures
        frame(value).len() == value.len() + 4,
        le_value(frame(value).take(4)) == value.len(),
        frame(value).skip(4) == value,
{
    assert(pow256(4) == 0x1_0000_0000) by {
        reveal_with_fuel(pow256, 5);
    }
    le_is_read_back(value.len(), 4);
    assert(frame(value).take(4) =~= le(value.len(), 4));
    assert(frame(value).skip(4) =~= value);
}

/// A pattern is read back as the signed number that it was made from.
pub proof fn signed_is_read_back(i: i64)
    ensures
        signed64(pattern64(i as int)) == i,
        pattern64(i as int) < 0x1_0000_0000_0000_0000,
{
}

/// Appends all bytes of `value`.
pub fn extend(out: &mut Vec<u8>, value: &[u8])
    ensures
        final(out)@ == old(out)@ + value@,
{
    let mut i: usize = 0;
    while i < value.len()
        invariant
            i <= value@.len(),
            out@ == old(out)@ + value@.take(i as int),
        decreases value.len() - i,
    {
        out.push(value[i]);
        i += 1;
        assert(value@.take(i as int) =~= value@.take(i - 1).push(value@[i - 1]));
    }
    assert(value@.take(i as int) =~= value@);
}

/// Appends the bytes of a text.
pub fn extend_text(out: &mut Vec<u8>, text: &str)
    ensures
        final(out)@ == old(out)@ + utf8(text@),
{
    extend(out, text.as_bytes());
}

/// Appends the `w` lowest bytes of a number, least significant first.
pub fn push_le(out: &mut Vec<u8>, value: u64, w: usize)
    ensures
        final(out)@ == old(out)@ + le(value as nat, w as nat),
    decreases w,
{
    if w > 0 {
        out.push((value % 256) as u8);
        push_le(out, value / 256, w - 1);
        assert(out@ =~= old(out)@ + le(value as nat, w as nat));
    } else {
        assert(out@ =~= old(out)@ + le(value as nat, w as nat));
    }
}

/// Appends the `w` lowest bytes of a number, most significant first.
pub fn push_be(out: &mut Vec<u8>, value: u64, w: usize)
    ensures
        final(out)@ == old(out)@ + be(value as nat, w as nat),
    decreases w,
{
    if w > 0 {
        push_be(out, value / 256, w - 1);
        out.push((value % 256) as u8);
        assert(out@ =~= old(out)@ + be(value as nat, w as nat));
    } else {
        assert(out@ =~= old(out)@ + be(value as nat, w as nat));
    }
}

/// The two's complement pattern of a signed number.
pub fn pattern_of(value: i64) -> (pattern: u64)
    ensures
        pattern == pattern64(value as int),
{
    assert((value as u64) as int == (if value < 0 {
        value + 0x1_0000_0000_0000_0000
    } else {
        value as int
    })) by (bit_vector);
    value as u64
}

/// Appends a 16-bit number, least significant byte first.
pub fn u16_le(out: &mut Vec<u8>, value: u16)
    ensures
        final(out)@ == old(out)@ + le(value as nat, 2),
{
    push_le(out, value as u64, 2);
}

/// Appends a 32-bit number, least significant byte first.
pub fn u32_le(out: &mut Vec<u8>, value: u32)
    ensures
        final(out)@ == old(out)@ + le(value as nat, 4),
{
    push_le(out, value as u64, 4);
}

/// Appends a signed 64-bit number, least significant byte first.
pub fn i64_le(out: &mut Vec<u8>, value: i64)
    ensures
        final(out)@ == old(out)@ + le(pattern64(value as int), 8),
{
    push_le(out, pattern_of(value), 8);
}

/// Appends the bit pattern of a 64-bit float, least significant byte first.
pub fn f64_le(out: &mut Vec<u8>, bits: u64)
    ensures
        final(out)@ == old(out)@ + le(bits as nat, 8),
{
    push_le(out, bits, 8);
}

/// The low 32 bits of a length: what a cast to 32 bits keeps.
pub fn low32(n: usize) -> (low: u32)
    ensures
        low as int == n as int % 0x1_0000_0000,
{
    let m: u64 = n as u64;
    let low: u64 = m % 0x1_0000_0000;
    low as u32
}

/// Four bytes hold the low 32 bits of a number and nothing else of it.
pub proof fn le_keeps_low_bits(n: nat)
    ensures
        le(n % 0x1_0000_0000, 4) == le(n, 4),
{
    reveal_with_fuel(le, 5);
    let m = n % 0x1_0000_0000;
    assert(m % 256 == n % 256);
    assert((m / 256) % 256 == (n / 256) % 256);
    assert((m / 256 / 256) % 256 == (n / 256 / 256) % 256);
    assert((m / 256 / 256 / 256) % 256 == (n / 256 / 256 / 256) % 256);
}

/// Appends a value preceded by its length in four bytes.
pub fn framed(out: &mut Vec<u8>, value: &[u8])
    ensures
        final(out)@ == old(out)@ + frame(value@),
{
    u32_le(out, low32(value.len()));
    proof {
        le_keeps_low_bits(value@.len());
    }
    extend(out, value);
    assert(out@ =~= old(out)@ + frame(value@));
}

/// Appends a framed text.
pub fn framed_text(out: &mut Vec<u8>, text: &str)
    ensures
        final(out)@ == old(out)@ + frame(utf8(text@)),
{
    framed(out, text.as_bytes());
}

/// Byte strings by their bytes.
pub open spec fn byte_strings(list: Seq<Vec<u8>>) -> Seq<Seq<u8>> {
    list.map_values(|v: Vec<u8>| v@)
}

} // verus!
