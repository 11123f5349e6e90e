//! The canonical binary encoding of instruction arguments and event
//! records: fixed-width integers in little-endian byte order, addresses as
//! their 32 raw bytes, fields in declaration order with nothing between them.

use vstd::prelude::*;

verus! {

/// The `width` low-order bytes of `value`, least significant first.
pub open spec fn le_bytes(value: nat, width: nat) -> Seq<u8>
    decreases width,
{
    if width == 0 {
        Seq::empty()
    } else {
        seq![(value % 256) as u8] + le_bytes(value / 256, (width - 1) as nat)
    }
}

/// The number that `bytes` spell, least significant byte first.
pub open spec fn le_value(bytes: Seq<u8>) -> nat
    decreases bytes.len(),
{
    if bytes.len() == 0 {
        0
    } else {
        bytes[0] as nat + 256 * le_value(bytes.subrange(1, bytes.len() as int))
    }
}

/// Two to the power `8 * width`: the count of values that `width` bytes
/// can spell.
pub open spec fn byte_range(width: nat) -> nat
    decreases width,
{
    if width == 0 {
        1
    } else {
        256 * byte_range((width - 1) as nat)
    }
}

/// An encoding of `width` bytes has `width` bytes.
pub proof fn lemma_le_bytes_len(value: nat, width: nat)
    ensures
        le_bytes(value, width).len() == width,
    decreases width,
{
    if width > 0 {
        lemma_le_bytes_len(value / 256, (width - 1) as nat);
    }
}

/// Decoding an encoding gives the value back, as far as the width holds it.
pub proof fn lemma_le_value_of_bytes(value: nat, width: nat)
    ensures
        le_value(le_bytes(value, width)) == value % byte_range(width),
        byte_range(width) > 0,
    decreases width,
{
    if width > 0 {
        let rest: nat = (width - 1) as nat;
        lemma_le_value_of_bytes(value / 256, rest);
        lemma_le_bytes_len(value / 256, rest);
        let bytes: Seq<u8> = le_bytes(value, width);
        assert(bytes.subrange(1, bytes.len() as int) =~= le_bytes(value / 256, rest));
        assert(bytes[0] == (value % 256) as u8);
        let range: nat = byte_range(rest);
        let high: nat = value / 256;
        // value = 256 * high + low, and high = range * q + r, so
        // value = (256 * range) * q + (256 * r + low) with 256 * r + low < 256 * range.
        let q: int = high as int / range as int;
        let r: int = high as int % range as int;
        vstd::arithmetic::div_mod::lemma_fundamental_div_mod(high as int, range as int);
        let low: int = value as int % 256;
        assert(q * (256 * (range as int)) + (256 * r + low) == value) by (nonlinear_arith)
            requires
                high == range * q + r,
                value == 256 * high + low,
        ;
        assert(0 <= q) by (nonlinear_arith)
            requires
                high == range * q + r,
                0 <= r < range,
                0 <= high,
        ;
        vstd::arithmetic::div_mod::lemma_fundamental_div_mod_converse(
            value as int,
            256 * (range as int),
            q,
            256 * r + low,
        );
    } else {
        assert(le_bytes(value, 0).len() == 0);
    }
}

/// Encoding a decoded value gives the bytes back.
pub proof fn lemma_le_bytes_of_value(bytes: Seq<u8>)
    ensures
        le_bytes(le_value(bytes), bytes.len()) == bytes,
        le_value(bytes) < byte_range(bytes.len()),
    decreases bytes.len(),
{
    if bytes.len() > 0 {
        let rest: Seq<u8> = bytes.subrange(1, bytes.len() as int);
        lemma_le_bytes_of_value(rest);
        let value: nat = le_value(bytes);
        assert(value == bytes[0] as nat + 256 * le_value(rest));
        assert(value % 256 == bytes[0] as nat && value / 256 == le_value(rest)) by {
            vstd::arithmetic::div_mod::lemma_fundamental_div_mod_converse(
                value as int,
                256,
                le_value(rest) as int,
                bytes[0] as int,
            );
        }
        assert(le_bytes(value, bytes.len()) =~= bytes);
    } else {
        assert(le_bytes(0, 0) =~= bytes);
    }
}

/// Values within the width have different encodings when they differ.
pub proof fn lemma_le_bytes_injective(a: nat, b: nat, width: nat)
    requires
        a < byte_range(width),
        b < byte_range(width),
        le_bytes(a, width) == le_bytes(b, width),
    ensures
        a == b,
{
    lemma_le_value_of_bytes(a, width);
    lemma_le_value_of_bytes(b, width);
    vstd::arithmetic::div_mod::lemma_small_mod(a, byte_range(width));
    vstd::arithmetic::div_mod::lemma_small_mod(b, byte_range(width));
}

/// The counts of values that two and eight bytes can spell.
pub proof fn lemma_byte_ranges()
    ensures
        byte_range(1) == 0x100,
        byte_range(2) == 0x1_0000,
        byte_range(4) == 0x1_0000_0000,
        byte_range(8) == 0x1_0000_0000_0000_0000,
{
    reveal_with_fuel(byte_range, 9);
}

/// Appends `bytes` to `out`.
pub fn put_bytes(out: &mut Vec<u8>, bytes: &[u8])
    ensures
        final(out)@ == old(out)@ + bytes@,
{
    let mut i: usize = 0;
    while i < bytes.len()
        invariant
            i <= bytes.len(),
            out@ == old(out)@ + bytes@.subrange(0, i as int),
        decreases bytes.len() - i,
    {
        out.push(bytes[i]);
        assert(out@ =~= old(out)@ + bytes@.subrange(0, (i + 1) as int));
        i += 1;
    }
    assert(bytes@.subrange(0, bytes.len() as int) =~= bytes@);
}

/// A vector that holds `bytes`.
pub fn bytes_to_vec(bytes: &[u8]) -> (r: Vec<u8>)
    ensures
        r@ == bytes@,
{
    let mut out: Vec<u8> = Vec::with_capacity(bytes.len());
    put_bytes(&mut out, bytes);
    assert(out@ =~= bytes@);
    out
}

/// Appends the eight little-endian bytes of `value` to `out`.
pub fn put_u64(out: &mut Vec<u8>, value: u64)
    ensures
        final(out)@ == old(out)@ + le_bytes(value as nat, 8),
{
    let mut rest: u64 = value;
    let mut i: usize = 0;
    let ghost start: Seq<u8> = out@;
    while i < 8
        invariant
            i <= 8,
            out@ + le_bytes(rest as nat, (8 - i) as nat) == start + le_bytes(value as nat, 8),
        decreases 8 - i,
    {
        let ghost before: Seq<u8> = out@;
        out.push((rest % 256) as u8);
        proof {
            assert(le_bytes(rest as nat, (8 - i) as nat) == seq![(rest as nat % 256) as u8]
                + le_bytes(rest as nat / 256, (8 - i - 1) as nat));
            assert(out@ + le_bytes(rest as nat / 256, (8 - i - 1) as nat) =~= before + le_bytes(
                rest as nat,
                (8 - i) as nat,
            ));
        }
        rest = rest / 256;
        i += 1;
    }
    assert(out@ + le_bytes(rest as nat, 0) =~= out@);
}

/// Appends the two little-endian bytes of `value` to `out`.
pub fn put_u16(out: &mut Vec<u8>, value: u16)
    ensures
        final(out)@ == old(out)@ + le_bytes(value as nat, 2),
{
    let ghost start: Seq<u8> = out@;
    out.push((value % 256) as u8);
    out.push((value / 256) as u8);
    proof {
        reveal_with_fuel(le_bytes, 3);
        assert((value as nat / 256) % 256 == value as nat / 256);
        assert(out@ =~= start + le_bytes(value as nat, 2));
    }
}

/// Reads the number that the `width` bytes of `bytes` from `at` on spell,
/// least significant byte first, for a width of at most eight.
pub(crate) fn read_le(bytes: &[u8], at: usize, width: usize) -> (r: u64)
    requires
        width <= 8,
        at + width <= bytes.len(),
    ensures
        r as nat == le_value(bytes@.subrange(at as int, at + width)),
{
    let mut value: u64 = 0;
    let mut i: usize = width;
    proof {
        lemma_byte_ranges();
        assert(bytes@.subrange(at + width, at + width).len() == 0);
    }
    while i > 0
        invariant
            i <= width <= 8,
            at + width <= bytes.len(),
            value as nat == le_value(bytes@.subrange(at + i, at + width)),
            (value as nat) < byte_range((width - i) as nat),
        decreases i,
    {
        i -= 1;
        proof {
            let tail: Seq<u8> = bytes@.subrange(at + i, at + width);
            assert(tail.subrange(1, tail.len() as int) =~= bytes@.subrange(at + i + 1, at + width));
            assert(tail[0] == bytes@[at + i]);
            lemma_byte_range_step((width - i - 1) as nat);
        }
        value = value * 256 + bytes[at + i] as u64;
    }
    value
}

/// One more byte multiplies the count of values by 256, up to eight bytes.
proof fn lemma_byte_range_step(width: nat)
    requires
        width < 8,
    ensures
        byte_range(width + 1) == 256 * byte_range(width),
        byte_range(width + 1) <= 0x1_0000_0000_0000_0000,
{
    reveal_with_fuel(byte_range, 9);
}

} // verus!
