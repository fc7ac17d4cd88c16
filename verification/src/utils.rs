use crate::deserialize::{rejected_bytes, DeserializeErr, DeserializeResult, Deserialized, Fault};
use vstd::prelude::*;
use vstd::string::StringExecFns;
use vstd::utf8::{decode_utf8, valid_utf8};

verus! {

/// `String::from_utf8`: the text that `bytes` spell in UTF-8, or, where they
/// spell none, an error that still holds them.
#[verifier::external_body]
pub(crate) fn string_from_utf8(bytes: Vec<u8>) -> (res: Result<
    String,
    std::string::FromUtf8Error,
>)
    ensures
        match res {
            Ok(s) => valid_utf8(bytes@) && s@ == decode_utf8(bytes@),
            Err(e) => !valid_utf8(bytes@) && rejected_bytes(e) == bytes@,
        },
{
    String::from_utf8(bytes)
}

/// Takes one byte off the front.
pub fn read_one_byte(data: &[u8]) -> (res: DeserializeResult<'_, u8>)
    ensures
        match res {
            Ok(d) => data@.len() > 0 && d.value == data@[0] && d.data@ == data@.skip(1),
            Err(e) => data@.len() == 0 && e@ == Fault::Eof,
        },
{
    if data.len() == 0 {
        Err(DeserializeErr::Eof)
    } else {
        let (head, tail) = data.split_at(1);
        Deserialized::ok(head[0], tail)
    }
}

/// Takes `amount` bytes off the front.
pub fn take(amount: usize, data: &[u8]) -> (res: DeserializeResult<'_, &[u8]>)
    ensures
        match res {
            Ok(d) => data@.len() >= amount && d.value@ == data@.take(amount as int) && d.data@
                == data@.skip(amount as int),
            Err(e) => data@.len() < amount && e@ == Fault::Eof,
        },
{
    if data.len() < amount {
        Err(DeserializeErr::Eof)
    } else {
        let (head, tail) = data.split_at(amount);
        Deserialized::ok(head, tail)
    }
}

/// Two bytes, most significant first.
pub open spec fn u16_be(v: u16) -> Seq<u8> {
    seq![(v / 0x100) as u8, (v % 0x100) as u8]
}

/// Four bytes, most significant first.
pub open spec fn u32_be(v: u32) -> Seq<u8> {
    u16_be((v / 0x1_0000) as u16) + u16_be((v % 0x1_0000) as u16)
}

/// Eight bytes, most significant first.
pub open spec fn u64_be(v: u64) -> Seq<u8> {
    u32_be((v / 0x1_0000_0000) as u32) + u32_be((v % 0x1_0000_0000) as u32)
}

/// Sixteen bytes, most significant first.
pub open spec fn u128_be(v: u128) -> Seq<u8> {
    u64_be((v / 0x1_0000_0000_0000_0000) as u64) + u64_be((v % 0x1_0000_0000_0000_0000) as u64)
}

/// The number that the first two bytes spell, most significant first.
pub open spec fn be_u16(b: Seq<u8>) -> u16
    recommends
        b.len() >= 2,
{
    (b[0] * 0x100 + b[1]) as u16
}

/// The number that the first four bytes spell.
pub open spec fn be_u32(b: Seq<u8>) -> u32
    recommends
        b.len() >= 4,
{
    (be_u16(b) * 0x1_0000 + be_u16(b.skip(2))) as u32
}

/// The number that the first eight bytes spell.
pub open spec fn be_u64(b: Seq<u8>) -> u64
    recommends
        b.len() >= 8,
{
    (be_u32(b) * 0x1_0000_0000 + be_u32(b.skip(4))) as u64
}

/// The number that the first sixteen bytes spell.
pub open spec fn be_u128(b: Seq<u8>) -> u128
    recommends
        b.len() >= 16,
{
    (be_u64(b) * 0x1_0000_0000_0000_0000 + be_u64(b.skip(8))) as u128
}

pub proof fn lemma_u16_be(v: u16, rest: Seq<u8>)
    ensures
        u16_be(v).len() == 2,
        be_u16(u16_be(v) + rest) == v,
        (u16_be(v) + rest).skip(2) == rest,
{
    assert((u16_be(v) + rest).skip(2) =~= rest);
}

pub proof fn lemma_u32_be(v: u32, rest: Seq<u8>)
    ensures
        u32_be(v).len() == 4,
        be_u32(u32_be(v) + rest) == v,
        (u32_be(v) + rest).skip(4) == rest,
{
    let hi = (v / 0x1_0000) as u16;
    let lo = (v % 0x1_0000) as u16;
    lemma_u16_be(hi, u16_be(lo) + rest);
    lemma_u16_be(lo, rest);
    assert(u32_be(v) + rest =~= u16_be(hi) + (u16_be(lo) + rest));
    assert((u32_be(v) + rest).skip(4) =~= rest);
}

pub proof fn lemma_u64_be(v: u64, rest: Seq<u8>)
    ensures
        u64_be(v).len() == 8,
        be_u64(u64_be(v) + rest) == v,
        (u64_be(v) + rest).skip(8) == rest,
{
    let hi = (v / 0x1_0000_0000) as u32;
    let lo = (v % 0x1_0000_0000) as u32;
    lemma_u32_be(hi, u32_be(lo) + rest);
    lemma_u32_be(lo, rest);
    assert(u64_be(v) + rest =~= u32_be(hi) + (u32_be(lo) + rest));
    assert((u64_be(v) + rest).skip(8) =~= rest);
}

pub proof fn lemma_u128_be(v: u128, rest: Seq<u8>)
    ensures
        u128_be(v).len() == 16,
        be_u128(u128_be(v) + rest) == v,
        (u128_be(v) + rest).skip(16) == rest,
{
    let hi = (v / 0x1_0000_0000_0000_0000) as u64;
    let lo = (v % 0x1_0000_0000_0000_0000) as u64;
    lemma_u64_be(hi, u64_be(lo) + rest);
    lemma_u64_be(lo, rest);
    assert(u128_be(v) + rest =~= u64_be(hi) + (u64_be(lo) + rest));
    assert((u128_be(v) + rest).skip(16) =~= rest);
}

pub fn write_short(v: u16) -> (res: [u8; 2])
    ensures
        res@ == u16_be(v),
{
    let res = [(v / 0x100) as u8, (v % 0x100) as u8];
    proof {
        assert(res@ =~= u16_be(v));
    }
    res
}

pub fn write_int(v: u32) -> (res: [u8; 4])
    ensures
        res@ == u32_be(v),
{
    let hi = write_short((v / 0x1_0000) as u16);
    let lo = write_short((v % 0x1_0000) as u16);
    let res = [hi[0], hi[1], lo[0], lo[1]];
    proof {
        assert(res@ =~= u32_be(v));
    }
    res
}

pub fn write_long(v: u64) -> (res: [u8; 8])
    ensures
        res@ == u64_be(v),
{
    let hi = write_int((v / 0x1_0000_0000) as u32);
    let lo = write_int((v % 0x1_0000_0000) as u32);
    let res = [hi[0], hi[1], hi[2], hi[3], lo[0], lo[1], lo[2], lo[3]];
    proof {
        assert(res@ =~= u64_be(v));
    }
    res
}

/// The first two bytes as a number, most significant first.
pub fn read_short(data: &[u8]) -> (res: DeserializeResult<'_, u16>)
    ensures
        match res {
            Ok(d) => data@.len() >= 2 && d.value == be_u16(data@) && d.data@ == data@.skip(2),
            Err(e) => data@.len() < 2 && e@ == Fault::Eof,
        },
{
    if data.len() < 2 {
        Err(DeserializeErr::Eof)
    } else {
        let (head, tail) = data.split_at(2);
        let hi: u16 = head[0] as u16;
        let lo: u16 = head[1] as u16;
        Deserialized::ok(hi * 0x100 + lo, tail)
    }
}

/// The first four bytes as a number, most significant first.
pub fn read_int(data: &[u8]) -> (res: DeserializeResult<'_, u32>)
    ensures
        match res {
            Ok(d) => data@.len() >= 4 && d.value == be_u32(data@) && d.data@ == data@.skip(4),
            Err(e) => data@.len() < 4 && e@ == Fault::Eof,
        },
{
    if data.len() < 4 {
        Err(DeserializeErr::Eof)
    } else {
        match read_short(data) {
            Ok(hi) => match read_short(hi.data) {
                Ok(lo) => {
                    proof {
                        assert(data@.skip(2).skip(2) =~= data@.skip(4));
                    }
                    let v: u32 = (hi.value as u32) * 0x1_0000 + (lo.value as u32);
                    Deserialized::ok(v, lo.data)
                },
                Err(e) => Err(e),
            },
            Err(e) => Err(e),
        }
    }
}

/// The first eight bytes as a number, most significant first.
pub fn read_long(data: &[u8]) -> (res: DeserializeResult<'_, u64>)
    ensures
        match res {
            Ok(d) => data@.len() >= 8 && d.value == be_u64(data@) && d.data@ == data@.skip(8),
            Err(e) => data@.len() < 8 && e@ == Fault::Eof,
        },
{
    if data.len() < 8 {
        Err(DeserializeErr::Eof)
    } else {
        match read_int(data) {
            Ok(hi) => match read_int(hi.data) {
                Ok(lo) => {
                    proof {
                        assert(data@.skip(4).skip(4) =~= data@.skip(8));
                    }
                    let v: u64 = (hi.value as u64) * 0x1_0000_0000 + (lo.value as u64);
                    Deserialized::ok(v, lo.data)
                },
                Err(e) => Err(e),
            },
            Err(e) => Err(e),
        }
    }
}

/// The character for one decimal digit.
pub open spec fn digit_char(d: nat) -> char {
    (0x30 + d) as char
}

/// The decimal digits of a number, most significant first, with no padding.
pub open spec fn decimal_digits(n: nat) -> Seq<char>
    decreases n,
{
    if n < 10 {
        seq![digit_char(n)]
    } else {
        decimal_digits(n / 10).push(digit_char(n % 10))
    }
}

/// A whole number in decimal, with a minus sign in front where it is negative.
pub open spec fn decimal_text(v: int) -> Seq<char> {
    if v < 0 {
        seq!['-'] + decimal_digits((-v) as nat)
    } else {
        decimal_digits(v as nat)
    }
}

/// The character for one hexadecimal digit, in lower case.
pub open spec fn hex_digit_char(d: nat) -> char {
    if d < 10 {
        (0x30 + d) as char
    } else {
        (0x61 + d - 10) as char
    }
}

/// A number in hexadecimal, lower case, with no prefix and no padding.
pub open spec fn hex_text(n: nat) -> Seq<char>
    decreases n,
{
    if n < 16 {
        seq![hex_digit_char(n)]
    } else {
        hex_text(n / 16).push(hex_digit_char(n % 16))
    }
}

/// `i64::to_string`: the number in decimal, with a minus sign where it is
/// below zero and no padding.
#[verifier::external_body]
pub(crate) fn decimal_string(v: i64) -> (s: String)
    ensures
        s@ == decimal_text(v as int),
{
    v.to_string()
}

/// `format!` with `{:x}` on a `u32`: the number in lower-case hexadecimal,
/// with no prefix and no padding.
#[verifier::external_body]
pub(crate) fn hex_string(v: u32) -> (s: String)
    ensures
        s@ == hex_text(v as nat),
{
    format!("{:x}", v)
}

/// What `{:?}` shows for a piece of text: the text between double quotes,
/// with the characters that need it escaped.
pub uninterp spec fn debug_text(text: Seq<char>) -> Seq<char>;

/// `format!` with `{:?}` on a `str`. What comes back is only given a name:
/// the same text always gives the same result.
#[verifier::external_body]
pub(crate) fn debug_string(text: &str) -> (s: String)
    ensures
        s@ == debug_text(text@),
{
    format!("{:?}", text)
}

/// An ASCII capital as its small letter; any other character as it is.
pub open spec fn lower_char(c: char) -> char {
    if 'A' <= c <= 'Z' {
        ((c as u32) + 32) as char
    } else {
        c
    }
}

/// Text with its ASCII capitals made small.
pub open spec fn lower_text(text: Seq<char>) -> Seq<char> {
    Seq::new(text.len(), |i: int| lower_char(text[i]))
}

/// `str::to_ascii_lowercase`: a copy of the text in which each ASCII capital
/// is its small letter and every other character is as it was.
#[verifier::external_body]
pub(crate) fn ascii_lowercase(text: &str) -> (s: String)
    ensures
        s@ == lower_text(text@),
{
    text.to_ascii_lowercase()
}

/// `String::push`: one more character at the end.
#[verifier::external_body]
pub(crate) fn push_char(text: &mut String, c: char)
    ensures
        final(text)@ == old(text)@.push(c),
{
    text.push(c)
}

/// `str::eq`: whether two pieces of text are the same, character for
/// character.
#[verifier::external_body]
pub(crate) fn str_eq(a: &str, b: &str) -> (same: bool)
    ensures
        same == (a@ == b@),
{
    a == b
}

/// The error for a number that names no member of a closed set: `what` says
/// which set was being read, `value` is the number as text.
pub fn cannot_understand(what: &str, value: &str) -> (e: DeserializeErr)
    ensures
        e@ == Fault::CannotUnderstandValue(what@ + value@),
{
    let mut text = what.to_owned();
    text.append(value);
    DeserializeErr::CannotUnderstandValue(text)
}

/// `byte` with the bits of `mask` set or cleared.
pub open spec fn with_bits(byte: u8, mask: u8, value: bool) -> u8 {
    if value {
        byte | mask
    } else {
        byte & !mask
    }
}

pub fn set_bits(byte: u8, mask: u8, value: bool) -> (res: u8)
    ensures
        res == with_bits(byte, mask, value),
{
    if value {
        byte | mask
    } else {
        byte & !mask
    }
}

/// After a single bit is set or cleared, it reads back as it was set.
pub proof fn lemma_with_bits_reads(byte: u8, mask: u8, value: bool)
    requires
        is_single_bit(mask),
    ensures
        (with_bits(byte, mask, value) & mask != 0) == value,
{
    assert(((byte | mask) & mask != 0) && ((byte & !mask) & mask == 0)) by (bit_vector)
        requires
            mask == 0x01 || mask == 0x02 || mask == 0x04 || mask == 0x08 || mask == 0x10 || mask
                == 0x20 || mask == 0x40 || mask == 0x80,
    ;
}

/// Whether a byte has exactly one bit set.
pub open spec fn is_single_bit(mask: u8) -> bool {
    mask == 0x01 || mask == 0x02 || mask == 0x04 || mask == 0x08 || mask == 0x10 || mask == 0x20
        || mask == 0x40 || mask == 0x80
}

/// Setting or clearing one bit leaves every other bit as it was.
pub proof fn lemma_with_bits_keeps(byte: u8, mask: u8, value: bool, other: u8)
    requires
        is_single_bit(mask),
        is_single_bit(other),
        mask != other,
    ensures
        (with_bits(byte, mask, value) & other != 0) == (byte & other != 0),
{
    assert(((byte | mask) & other == byte & other) && ((byte & !mask) & other == byte & other))
        by (bit_vector)
        requires
            mask == 0x01 || mask == 0x02 || mask == 0x04 || mask == 0x08 || mask == 0x10 || mask
                == 0x20 || mask == 0x40 || mask == 0x80,
            other == 0x01 || other == 0x02 || other == 0x04 || other == 0x08 || other == 0x10
                || other == 0x20 || other == 0x40 || other == 0x80,
            mask != other,
    ;
}

} // verus!
