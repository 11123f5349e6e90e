//! Reading the fields of a record out of its bytes.
//!
//! A record's bytes are its fields in declaration order: an address as its
//! 32 bytes, an integer in little-endian bytes, a flag as one byte that is 0
//! or 1, a text as its length in four little-endian bytes followed by its
//! UTF-8 bytes.

use crate::address::Address;
use crate::common::outside::string_from_utf8;
use crate::encoding::{
    le_bytes, le_value, lemma_byte_ranges, lemma_le_bytes_len, lemma_le_bytes_of_value,
    lemma_le_value_of_bytes, read_le,
};
use vstd::prelude::*;
use vstd::utf8::{decode_utf8, encode_utf8, valid_utf8};

verus! {

/// The address that stands at `at`.
pub open spec fn address_at(body: Seq<u8>, at: int) -> Seq<u8> {
    body.subrange(at, at + 32)
}

/// The unsigned 64-bit integer that stands at `at`.
pub open spec fn u64_at(body: Seq<u8>, at: int) -> u64 {
    le_value(body.subrange(at, at + 8)) as u64
}

/// The 64 bits of a signed integer, read as an unsigned number.
pub open spec fn i64_bits(value: i64) -> nat {
    if value >= 0 {
        value as nat
    } else {
        (value + 0x1_0000_0000_0000_0000) as nat
    }
}

/// The signed integer whose 64 bits, read as an unsigned number, are
/// `bits`.
pub open spec fn i64_of_bits(bits: nat) -> i64 {
    if bits < 0x8000_0000_0000_0000 {
        bits as i64
    } else {
        (bits - 0x1_0000_0000_0000_0000) as i64
    }
}

/// The signed 64-bit integer that stands at `at`.
pub open spec fn i64_at(body: Seq<u8>, at: int) -> i64 {
    i64_of_bits(le_value(body.subrange(at, at + 8)))
}

/// The byte that stands for a flag.
pub open spec fn bool_byte(value: bool) -> u8 {
    if value {
        1
    } else {
        0
    }
}

/// The bytes of a text: its length in bytes, then its UTF-8 bytes.
pub open spec fn text_bytes(text: Seq<char>) -> Seq<u8> {
    le_bytes(encode_utf8(text).len(), 4) + encode_utf8(text)
}

/// The text that stands at `at`, with the place where it ends; none where
/// the length or the bytes are cut short, or the bytes are not UTF-8.
pub open spec fn text_at(body: Seq<u8>, at: int) -> Option<(Seq<char>, int)> {
    if at + 4 > body.len() {
        None
    } else {
        let length = le_value(body.subrange(at, at + 4));
        let end = at + 4 + length;
        if end > body.len() || !valid_utf8(body.subrange(at + 4, end)) {
            None
        } else {
            Some((decode_utf8(body.subrange(at + 4, end)), end))
        }
    }
}

/// Reads the address at `at`.
pub(crate) fn read_address(body: &[u8], at: usize) -> (r: Address)
    requires
        at + 32 <= body.len(),
    ensures
        r@ == address_at(body@, at as int),
{
    let mut bytes: [u8; 32] = [0u8; 32];
    let mut i: usize = 0;
    while i < 32
        invariant
            i <= 32,
            at + 32 <= body.len(),
            forall|j: int| 0 <= j < i ==> bytes@[j] == body@[at + j],
        decreases 32 - i,
    {
        bytes[i] = body[at + i];
        i += 1;
    }
    let r = Address::new(bytes);
    assert(r@ =~= address_at(body@, at as int));
    r
}

/// Reads the unsigned 64-bit integer at `at`.
pub(crate) fn read_u64(body: &[u8], at: usize) -> (r: u64)
    requires
        at + 8 <= body.len(),
    ensures
        r == u64_at(body@, at as int),
{
    read_le(body, at, 8)
}

/// Reads the signed 64-bit integer at `at`.
pub(crate) fn read_i64(body: &[u8], at: usize) -> (r: i64)
    requires
        at + 8 <= body.len(),
    ensures
        r == i64_at(body@, at as int),
{
    let bits: u64 = read_le(body, at, 8);
    if bits < 0x8000_0000_0000_0000 {
        bits as i64
    } else {
        let low: i64 = (bits - 0x8000_0000_0000_0000) as i64;
        low + i64::MIN
    }
}

/// Reads the flag at `at`; none where the byte is neither 0 nor 1.
pub(crate) fn read_bool(body: &[u8], at: usize) -> (r: Option<bool>)
    requires
        at < body.len(),
    ensures
        r == (if body@[at as int] == 0 {
            Some(false)
        } else if body@[at as int] == 1 {
            Some(true)
        } else {
            None::<bool>
        }),
{
    let byte: u8 = body[at];
    if byte == 0 {
        Some(false)
    } else if byte == 1 {
        Some(true)
    } else {
        None
    }
}

/// Reads the text at `at`, and says where it ends; none where the length or
/// the bytes are cut short, or the bytes are not UTF-8.
pub(crate) fn read_text(body: &[u8], at: usize) -> (r: Option<(String, usize)>)
    requires
        at <= body.len(),
    ensures
        match r {
            Some((text, end)) => text_at(body@, at as int) == Some((text@, end as int)) && at + 4
                <= end <= body.len(),
            None => text_at(body@, at as int) is None,
        },
{
    if body.len() - at < 4 {
        return None;
    }
    proof {
        lemma_byte_ranges();
        lemma_le_bytes_of_value(body@.subrange(at as int, at + 4));
    }
    let length: u64 = read_le(body, at, 4);
    if length > (body.len() - at - 4) as u64 {
        return None;
    }
    let start: usize = at + 4;
    let end: usize = start + length as usize;
    let mut raw: Vec<u8> = Vec::with_capacity(length as usize);
    let mut i: usize = start;
    while i < end
        invariant
            start <= i <= end <= body.len(),
            raw@ == body@.subrange(start as int, i as int),
        decreases end - i,
    {
        raw.push(body[i]);
        assert(raw@ =~= body@.subrange(start as int, (i + 1) as int));
        i += 1;
    }
    match string_from_utf8(raw) {
        Some(text) => Some((text, end)),
        None => None,
    }
}

/// The bits of a signed integer fit in eight bytes, and give the integer
/// back.
pub proof fn lemma_i64_bits(value: i64)
    ensures
        i64_bits(value) < 0x1_0000_0000_0000_0000,
        i64_of_bits(i64_bits(value)) == value,
{
}

/// The eight bytes of an unsigned integer spell that integer.
pub proof fn lemma_u64_piece(value: u64)
    ensures
        le_bytes(value as nat, 8).len() == 8,
        le_value(le_bytes(value as nat, 8)) as u64 == value,
{
    lemma_le_bytes_len(value as nat, 8);
    lemma_le_value_of_bytes(value as nat, 8);
    lemma_byte_ranges();
    vstd::arithmetic::div_mod::lemma_small_mod(value as nat, 0x1_0000_0000_0000_0000);
}

/// The eight bytes of a signed integer spell that integer.
pub proof fn lemma_i64_piece(value: i64)
    ensures
        le_bytes(i64_bits(value), 8).len() == 8,
        i64_of_bits(le_value(le_bytes(i64_bits(value), 8))) == value,
{
    lemma_le_bytes_len(i64_bits(value), 8);
    lemma_le_value_of_bytes(i64_bits(value), 8);
    lemma_byte_ranges();
    lemma_i64_bits(value);
    vstd::arithmetic::div_mod::lemma_small_mod(i64_bits(value), 0x1_0000_0000_0000_0000);
}

/// The eight bytes that an unsigned integer was read from are the bytes of
/// that integer.
pub proof fn lemma_u64_at_bytes(body: Seq<u8>, at: int)
    requires
        0 <= at,
        at + 8 <= body.len(),
    ensures
        le_bytes(u64_at(body, at) as nat, 8) == body.subrange(at, at + 8),
{
    lemma_le_bytes_of_value(body.subrange(at, at + 8));
    lemma_byte_ranges();
}

/// The eight bytes that a signed integer was read from are the bytes of
/// that integer.
pub proof fn lemma_i64_at_bytes(body: Seq<u8>, at: int)
    requires
        0 <= at,
        at + 8 <= body.len(),
    ensures
        le_bytes(i64_bits(i64_at(body, at)), 8) == body.subrange(at, at + 8),
{
    lemma_le_bytes_of_value(body.subrange(at, at + 8));
    lemma_byte_ranges();
}

/// Reading where a text was written gives the text back, and ends where the
/// text's bytes end, for a text of fewer than 2^32 bytes.
pub proof fn lemma_text_at_written(before: Seq<u8>, text: Seq<char>, after: Seq<u8>)
    requires
        encode_utf8(text).len() < 0x1_0000_0000,
    ensures
        text_bytes(text).len() == 4 + encode_utf8(text).len(),
        text_at(before + text_bytes(text) + after, before.len() as int) == Some(
            (text, (before.len() + text_bytes(text).len()) as int),
        ),
{
    let raw: Seq<u8> = encode_utf8(text);
    let body: Seq<u8> = before + text_bytes(text) + after;
    let at: int = before.len() as int;
    lemma_le_bytes_len(raw.len(), 4);
    assert(body.subrange(at, at + 4) =~= le_bytes(raw.len(), 4));
    lemma_le_value_of_bytes(raw.len(), 4);
    lemma_byte_ranges();
    vstd::arithmetic::div_mod::lemma_small_mod(raw.len(), 0x1_0000_0000);
    assert(body.subrange(at + 4, at + 4 + raw.len()) =~= raw);
    vstd::utf8::encode_utf8_valid_utf8(text);
    vstd::utf8::encode_utf8_decode_utf8(text);
}

/// The bytes that a text was read from are the bytes of that text.
pub proof fn lemma_text_at_bytes(body: Seq<u8>, at: int)
    requires
        0 <= at,
        text_at(body, at) is Some,
    ensures
        ({
            let (text, end) = text_at(body, at)->0;
            &&& at + 4 <= end <= body.len()
            &&& body.subrange(at, end) == text_bytes(text)
        }),
{
    let prefix: Seq<u8> = body.subrange(at, at + 4);
    let length: nat = le_value(prefix);
    let end: int = at + 4 + length;
    let raw: Seq<u8> = body.subrange(at + 4, end);
    lemma_le_bytes_of_value(prefix);
    vstd::utf8::decode_utf8_encode_utf8(raw);
    assert(body.subrange(at, end) =~= prefix + raw);
}

} // verus!
