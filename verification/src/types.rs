use crate::deserialize::{Deserialize, DeserializeErr, DeserializeResult, Deserialized, Fault};
use crate::serialize::{Serialize, SerializeResult, Serializer};
use crate::utils::{
    be_u128, be_u16, be_u32, be_u64, lemma_u128_be, lemma_u16_be, lemma_u32_be, lemma_u64_be,
    decimal_string, decimal_text, read_int, read_long, read_one_byte, read_short, string_from_utf8,
    take, u128_be, u16_be,
    u32_be, u64_be, write_int, write_long, write_short,
};
use crate::uuid::UUID4;
use crate::protocol::ProtocolType;
use crate::wire::{lemma_skip_is_suffix, lemma_suffix_trans, Parsed};
use vstd::prelude::*;

pub use crate::chat::{Chat, ColorCode, Formatter};
pub use crate::tag_tree::{NamedNbtTag, Slot};
use vstd::slice::{slice_subrange, slice_to_vec};
use vstd::string::StringExecFns;
use vstd::utf8::{
    decode_utf8, encode_utf8, encode_utf8_decode_utf8, encode_utf8_valid_utf8, valid_utf8,
};

verus! {

// The bit patterns of signed numbers
/// The bit pattern of a signed byte, read as unsigned.
pub open spec fn i8_bits(v: i8) -> u8 {
    if v < 0 {
        (v + 0x100) as u8
    } else {
        v as u8
    }
}

/// The signed byte that has this bit pattern.
pub open spec fn bits_i8(b: u8) -> i8 {
    if b >= 0x80 {
        (b - 0x100) as i8
    } else {
        b as i8
    }
}

pub open spec fn i16_bits(v: i16) -> u16 {
    if v < 0 {
        (v + 0x1_0000) as u16
    } else {
        v as u16
    }
}

pub open spec fn bits_i16(b: u16) -> i16 {
    if b >= 0x8000 {
        (b - 0x1_0000) as i16
    } else {
        b as i16
    }
}

pub open spec fn i32_bits(v: i32) -> u32 {
    if v < 0 {
        (v + 0x1_0000_0000) as u32
    } else {
        v as u32
    }
}

pub open spec fn bits_i32(b: u32) -> i32 {
    if b >= 0x8000_0000 {
        (b - 0x1_0000_0000) as i32
    } else {
        b as i32
    }
}

pub open spec fn i64_bits(v: i64) -> u64 {
    if v < 0 {
        (v + 0x1_0000_0000_0000_0000) as u64
    } else {
        v as u64
    }
}

pub open spec fn bits_i64(b: u64) -> i64 {
    if b >= 0x8000_0000_0000_0000 {
        (b - 0x1_0000_0000_0000_0000) as i64
    } else {
        b as i64
    }
}

pub fn i8_to_bits(v: i8) -> (b: u8)
    ensures
        b == i8_bits(v),
{
    if v < 0 {
        (v as i16 + 0x100) as u8
    } else {
        v as u8
    }
}

pub fn i8_from_bits(b: u8) -> (v: i8)
    ensures
        v == bits_i8(b),
{
    if b >= 0x80 {
        (b as i16 - 0x100) as i8
    } else {
        b as i8
    }
}

pub fn i16_to_bits(v: i16) -> (b: u16)
    ensures
        b == i16_bits(v),
{
    if v < 0 {
        (v as i32 + 0x1_0000) as u16
    } else {
        v as u16
    }
}

pub fn i16_from_bits(b: u16) -> (v: i16)
    ensures
        v == bits_i16(b),
{
    if b >= 0x8000 {
        (b as i32 - 0x1_0000) as i16
    } else {
        b as i16
    }
}

pub fn i32_to_bits(v: i32) -> (b: u32)
    ensures
        b == i32_bits(v),
{
    if v < 0 {
        (v as i64 + 0x1_0000_0000) as u32
    } else {
        v as u32
    }
}

pub fn i32_from_bits(b: u32) -> (v: i32)
    ensures
        v == bits_i32(b),
{
    if b >= 0x8000_0000 {
        (b as i64 - 0x1_0000_0000) as i32
    } else {
        b as i32
    }
}

pub fn i64_to_bits(v: i64) -> (b: u64)
    ensures
        b == i64_bits(v),
{
    if v < 0 {
        (v as i128 + 0x1_0000_0000_0000_0000) as u64
    } else {
        v as u64
    }
}

pub fn i64_from_bits(b: u64) -> (v: i64)
    ensures
        v == bits_i64(b),
{
    if b >= 0x8000_0000_0000_0000 {
        (b as i128 - 0x1_0000_0000_0000_0000) as i64
    } else {
        b as i64
    }
}

// bool
impl Serialize for bool {
    open spec fn wire(&self) -> Seq<u8> {
        if *self {
            seq![1u8]
        } else {
            seq![0u8]
        }
    }

    fn mc_serialize<S: Serializer>(&self, to: &mut S) -> (res: SerializeResult) {
        to.serialize_byte(if *self { 1 } else { 0 })
    }
}

impl Deserialize for bool {
    type Model = bool;

    open spec fn model(&self) -> bool {
        *self
    }

    open spec fn decoding(data: Seq<u8>) -> Parsed<bool> {
        if data.len() == 0 {
            Err(Fault::Eof)
        } else if data[0] == 0 {
            Ok((false, data.skip(1)))
        } else if data[0] == 1 {
            Ok((true, data.skip(1)))
        } else {
            Err(Fault::InvalidBool(data[0]))
        }
    }

    proof fn lemma_remainder(data: Seq<u8>) {
    }

    fn mc_deserialize(data: &[u8]) -> (res: DeserializeResult<'_, Self>) {
        match read_one_byte(data) {
            Ok(d) => match d.value {
                0x00 => Deserialized::ok(false, d.data),
                0x01 => Deserialized::ok(true, d.data),
                other => Err(DeserializeErr::InvalidBool(other)),
            },
            Err(e) => Err(e),
        }
    }
}

impl ProtocolType for bool {
    open spec fn legal(&self) -> bool {
        true
    }

    open spec fn self_delimiting() -> bool {
        true
    }

    proof fn lemma_round_trip(&self, rest: Seq<u8>) {
        assert((self.wire() + rest).skip(1) =~= rest);
    }
}

// u8
impl Serialize for u8 {
    open spec fn wire(&self) -> Seq<u8> {
        seq![*self]
    }

    fn mc_serialize<S: Serializer>(&self, to: &mut S) -> (res: SerializeResult) {
        to.serialize_byte(*self)
    }
}

impl Deserialize for u8 {
    type Model = u8;

    open spec fn model(&self) -> u8 {
        *self
    }

    open spec fn decoding(data: Seq<u8>) -> Parsed<u8> {
        if data.len() == 0 {
            Err(Fault::Eof)
        } else {
            Ok((data[0], data.skip(1)))
        }
    }

    proof fn lemma_remainder(data: Seq<u8>) {
    }

    fn mc_deserialize(data: &[u8]) -> (res: DeserializeResult<'_, Self>) {
        read_one_byte(data)
    }
}

impl ProtocolType for u8 {
    open spec fn legal(&self) -> bool {
        true
    }

    open spec fn self_delimiting() -> bool {
        true
    }

    proof fn lemma_round_trip(&self, rest: Seq<u8>) {
        assert((seq![*self] + rest).skip(1) =~= rest);
    }
}

// i8
impl Serialize for i8 {
    open spec fn wire(&self) -> Seq<u8> {
        seq![i8_bits(*self)]
    }

    fn mc_serialize<S: Serializer>(&self, to: &mut S) -> (res: SerializeResult) {
        to.serialize_byte(i8_to_bits(*self))
    }
}

impl Deserialize for i8 {
    type Model = i8;

    open spec fn model(&self) -> i8 {
        *self
    }

    open spec fn decoding(data: Seq<u8>) -> Parsed<i8> {
        if data.len() == 0 {
            Err(Fault::Eof)
        } else {
            Ok((bits_i8(data[0]), data.skip(1)))
        }
    }

    proof fn lemma_remainder(data: Seq<u8>) {
    }

    fn mc_deserialize(data: &[u8]) -> (res: DeserializeResult<'_, Self>) {
        match read_one_byte(data) {
            Ok(d) => Deserialized::ok(i8_from_bits(d.value), d.data),
            Err(e) => Err(e),
        }
    }
}

impl ProtocolType for i8 {
    open spec fn legal(&self) -> bool {
        true
    }

    open spec fn self_delimiting() -> bool {
        true
    }

    proof fn lemma_round_trip(&self, rest: Seq<u8>) {
        assert((seq![i8_bits(*self)] + rest).skip(1) =~= rest);
    }
}

// u16
impl Serialize for u16 {
    open spec fn wire(&self) -> Seq<u8> {
        u16_be(*self)
    }

    fn mc_serialize<S: Serializer>(&self, to: &mut S) -> (res: SerializeResult) {
        let data = write_short(*self);
        to.serialize_bytes(data.as_slice())
    }
}

impl Deserialize for u16 {
    type Model = u16;

    open spec fn model(&self) -> u16 {
        *self
    }

    open spec fn decoding(data: Seq<u8>) -> Parsed<u16> {
        if data.len() < 2 {
            Err(Fault::Eof)
        } else {
            Ok((be_u16(data), data.skip(2)))
        }
    }

    proof fn lemma_remainder(data: Seq<u8>) {
    }

    fn mc_deserialize(data: &[u8]) -> (res: DeserializeResult<'_, Self>) {
        read_short(data)
    }
}

impl ProtocolType for u16 {
    open spec fn legal(&self) -> bool {
        true
    }

    open spec fn self_delimiting() -> bool {
        true
    }

    proof fn lemma_round_trip(&self, rest: Seq<u8>) {
        lemma_u16_be(*self, rest);
    }
}

// i16
impl Serialize for i16 {
    open spec fn wire(&self) -> Seq<u8> {
        u16_be(i16_bits(*self))
    }

    fn mc_serialize<S: Serializer>(&self, to: &mut S) -> (res: SerializeResult) {
        let data = write_short(i16_to_bits(*self));
        to.serialize_bytes(data.as_slice())
    }
}

impl Deserialize for i16 {
    type Model = i16;

    open spec fn model(&self) -> i16 {
        *self
    }

    open spec fn decoding(data: Seq<u8>) -> Parsed<i16> {
        if data.len() < 2 {
            Err(Fault::Eof)
        } else {
            Ok((bits_i16(be_u16(data)), data.skip(2)))
        }
    }

    proof fn lemma_remainder(data: Seq<u8>) {
    }

    fn mc_deserialize(data: &[u8]) -> (res: DeserializeResult<'_, Self>) {
        match read_short(data) {
            Ok(d) => Deserialized::ok(i16_from_bits(d.value), d.data),
            Err(e) => Err(e),
        }
    }
}

impl ProtocolType for i16 {
    open spec fn legal(&self) -> bool {
        true
    }

    open spec fn self_delimiting() -> bool {
        true
    }

    proof fn lemma_round_trip(&self, rest: Seq<u8>) {
        lemma_u16_be(i16_bits(*self), rest);
    }
}

// int
impl Serialize for i32 {
    open spec fn wire(&self) -> Seq<u8> {
        u32_be(i32_bits(*self))
    }

    fn mc_serialize<S: Serializer>(&self, to: &mut S) -> (res: SerializeResult) {
        let data = write_int(i32_to_bits(*self));
        to.serialize_bytes(data.as_slice())
    }
}

impl Deserialize for i32 {
    type Model = i32;

    open spec fn model(&self) -> i32 {
        *self
    }

    open spec fn decoding(data: Seq<u8>) -> Parsed<i32> {
        if data.len() < 4 {
            Err(Fault::Eof)
        } else {
            Ok((bits_i32(be_u32(data)), data.skip(4)))
        }
    }

    proof fn lemma_remainder(data: Seq<u8>) {
    }

    fn mc_deserialize(data: &[u8]) -> (res: DeserializeResult<'_, Self>) {
        match read_int(data) {
            Ok(d) => Deserialized::ok(i32_from_bits(d.value), d.data),
            Err(e) => Err(e),
        }
    }
}

impl ProtocolType for i32 {
    open spec fn legal(&self) -> bool {
        true
    }

    open spec fn self_delimiting() -> bool {
        true
    }

    proof fn lemma_round_trip(&self, rest: Seq<u8>) {
        lemma_u32_be(i32_bits(*self), rest);
    }
}

// long
impl Serialize for i64 {
    open spec fn wire(&self) -> Seq<u8> {
        u64_be(i64_bits(*self))
    }

    fn mc_serialize<S: Serializer>(&self, to: &mut S) -> (res: SerializeResult) {
        let data = write_long(i64_to_bits(*self));
        to.serialize_bytes(data.as_slice())
    }
}

impl Deserialize for i64 {
    type Model = i64;

    open spec fn model(&self) -> i64 {
        *self
    }

    open spec fn decoding(data: Seq<u8>) -> Parsed<i64> {
        if data.len() < 8 {
            Err(Fault::Eof)
        } else {
            Ok((bits_i64(be_u64(data)), data.skip(8)))
        }
    }

    proof fn lemma_remainder(data: Seq<u8>) {
    }

    fn mc_deserialize(data: &[u8]) -> (res: DeserializeResult<'_, Self>) {
        match read_long(data) {
            Ok(d) => Deserialized::ok(i64_from_bits(d.value), d.data),
            Err(e) => Err(e),
        }
    }
}

impl ProtocolType for i64 {
    open spec fn legal(&self) -> bool {
        true
    }

    open spec fn self_delimiting() -> bool {
        true
    }

    proof fn lemma_round_trip(&self, rest: Seq<u8>) {
        lemma_u64_be(i64_bits(*self), rest);
    }
}

/// A single-precision number, held as the 32 bits that spell it.
#[derive(Copy, Clone, PartialEq, Eq, Debug, Default, Hash)]
pub struct Float {
    pub bits: u32,
}

impl Serialize for Float {
    open spec fn wire(&self) -> Seq<u8> {
        u32_be(self.bits)
    }

    fn mc_serialize<S: Serializer>(&self, to: &mut S) -> (res: SerializeResult) {
        let data = write_int(self.bits);
        to.serialize_bytes(data.as_slice())
    }
}

impl Deserialize for Float {
    type Model = Float;

    open spec fn model(&self) -> Float {
        *self
    }

    open spec fn decoding(data: Seq<u8>) -> Parsed<Float> {
        if data.len() < 4 {
            Err(Fault::Eof)
        } else {
            Ok((Float { bits: be_u32(data) }, data.skip(4)))
        }
    }

    proof fn lemma_remainder(data: Seq<u8>) {
    }

    fn mc_deserialize(data: &[u8]) -> (res: DeserializeResult<'_, Self>) {
        match read_int(data) {
            Ok(d) => Deserialized::ok(Float { bits: d.value }, d.data),
            Err(e) => Err(e),
        }
    }
}

impl ProtocolType for Float {
    open spec fn legal(&self) -> bool {
        true
    }

    open spec fn self_delimiting() -> bool {
        true
    }

    proof fn lemma_round_trip(&self, rest: Seq<u8>) {
        lemma_u32_be(self.bits, rest);
    }
}

/// A double-precision number, held as the 64 bits that spell it.
#[derive(Copy, Clone, PartialEq, Eq, Debug, Default, Hash)]
pub struct Double {
    pub bits: u64,
}

impl Serialize for Double {
    open spec fn wire(&self) -> Seq<u8> {
        u64_be(self.bits)
    }

    fn mc_serialize<S: Serializer>(&self, to: &mut S) -> (res: SerializeResult) {
        let data = write_long(self.bits);
        to.serialize_bytes(data.as_slice())
    }
}

impl Deserialize for Double {
    type Model = Double;

    open spec fn model(&self) -> Double {
        *self
    }

    open spec fn decoding(data: Seq<u8>) -> Parsed<Double> {
        if data.len() < 8 {
            Err(Fault::Eof)
        } else {
            Ok((Double { bits: be_u64(data) }, data.skip(8)))
        }
    }

    proof fn lemma_remainder(data: Seq<u8>) {
    }

    fn mc_deserialize(data: &[u8]) -> (res: DeserializeResult<'_, Self>) {
        match read_long(data) {
            Ok(d) => Deserialized::ok(Double { bits: d.value }, d.data),
            Err(e) => Err(e),
        }
    }
}

impl ProtocolType for Double {
    open spec fn legal(&self) -> bool {
        true
    }

    open spec fn self_delimiting() -> bool {
        true
    }

    proof fn lemma_round_trip(&self, rest: Seq<u8>) {
        lemma_u64_be(self.bits, rest);
    }
}

// VAR INT AND VAR LONG
pub const VAR_INT_BYTES: usize = 5;

pub const VAR_LONG_BYTES: usize = 10;

/// A number in groups of seven bits, lowest group first; every byte but the
/// last has its top bit set.
pub open spec fn var_num_bytes(v: nat) -> Seq<u8>
    decreases v,
{
    if v < 128 {
        seq![v as u8]
    } else {
        seq![(v % 128 + 128) as u8] + var_num_bytes(v / 128)
    }
}

/// What reading a variable-length number from the front of some bytes comes to.
pub enum VarScan {
    /// The number, not yet cut down to any width, and how many bytes spelled it.
    Done(nat, nat),
    /// The input ended while the top bit was still set.
    Eof,
    /// The byte budget ran out while the top bit was still set.
    TooLong,
}

/// Reads groups of seven bits while the top bit is set, within `budget` bytes.
pub open spec fn var_num_scan(data: Seq<u8>, budget: nat) -> VarScan
    decreases budget,
{
    if budget == 0 {
        VarScan::TooLong
    } else if data.len() == 0 {
        VarScan::Eof
    } else if data[0] < 128 {
        VarScan::Done(data[0] as nat, 1)
    } else {
        match var_num_scan(data.skip(1), (budget - 1) as nat) {
            VarScan::Done(high, n) => VarScan::Done((data[0] % 128) as nat + 128 * high, n + 1),
            other => other,
        }
    }
}

/// A variable-length number of at most `max_bytes` bytes at the front of
/// `data`, cut down to 64 bits.
pub open spec fn var_num_decoding(data: Seq<u8>, max_bytes: nat) -> Parsed<u64> {
    match var_num_scan(data, max_bytes) {
        VarScan::Done(v, n) => Ok(((v % 0x1_0000_0000_0000_0000) as u64, data.skip(n as int))),
        VarScan::Eof => Err(Fault::Eof),
        VarScan::TooLong => Err(Fault::VarNumTooLong(data.take(max_bytes as int))),
    }
}

pub open spec fn pow128(i: nat) -> nat
    decreases i,
{
    if i == 0 {
        1
    } else {
        128 * pow128((i - 1) as nat)
    }
}

pub proof fn lemma_pow128_values()
    ensures
        pow128(0) == 1,
        pow128(1) == 0x80,
        pow128(2) == 0x4000,
        pow128(3) == 0x20_0000,
        pow128(4) == 0x1000_0000,
        pow128(5) == 0x8_0000_0000,
        pow128(6) == 0x400_0000_0000,
        pow128(7) == 0x2_0000_0000_0000,
        pow128(8) == 0x100_0000_0000_0000,
        pow128(9) == 0x8000_0000_0000_0000,
        pow128(10) == 0x40_0000_0000_0000_0000,
{
    reveal_with_fuel(pow128, 11);
}

/// A number below `128^k` takes at most `k` bytes (and at least one).
pub proof fn lemma_var_num_len(v: nat, k: nat)
    requires
        k >= 1,
        v < pow128(k),
    ensures
        1 <= var_num_bytes(v).len() <= k,
    decreases v,
{
    if v >= 128 {
        if k == 1 {
            reveal_with_fuel(pow128, 2);
        } else {
            lemma_var_num_len(v / 128, (k - 1) as nat);
        }
    }
}

/// Scanning reads back what `var_num_bytes` wrote, whatever follows it, when
/// the budget covers the bytes written.
pub proof fn lemma_var_num_round_trip(v: nat, rest: Seq<u8>, budget: nat)
    requires
        var_num_bytes(v).len() <= budget,
    ensures
        var_num_scan(var_num_bytes(v) + rest, budget) == VarScan::Done(
            v,
            var_num_bytes(v).len(),
        ),
        (var_num_bytes(v) + rest).skip(var_num_bytes(v).len() as int) == rest,
    decreases v,
{
    let bytes = var_num_bytes(v);
    assert((bytes + rest).skip(bytes.len() as int) =~= rest);
    if v >= 128 {
        let tail = var_num_bytes(v / 128);
        lemma_var_num_round_trip(v / 128, rest, (budget - 1) as nat);
        assert((bytes + rest).skip(1) =~= tail + rest);
    }
}

/// Where the top bit never clears within the budget, the scan ends over
/// budget, however long the input is.
pub proof fn lemma_var_num_over_budget(data: Seq<u8>, budget: nat)
    requires
        data.len() >= budget,
        forall|i: int| 0 <= i < budget ==> data[i] >= 128,
    ensures
        var_num_scan(data, budget) == VarScan::TooLong,
    decreases budget,
{
    if budget > 0 {
        let tail = data.skip(1);
        assert forall|i: int| 0 <= i < budget - 1 implies tail[i] >= 128 by {
            assert(tail[i] == data[i + 1]);
        }
        lemma_var_num_over_budget(tail, (budget - 1) as nat);
    }
}

/// A scan that succeeds has read between one and `budget` bytes, all of them
/// there.
pub proof fn lemma_var_num_scan_len(data: Seq<u8>, budget: nat)
    ensures
        var_num_scan(data, budget) matches VarScan::Done(v, n) ==> 1 <= n <= budget && n
            <= data.len() && v < pow128(n),
    decreases budget,
{
    if budget > 0 && data.len() > 0 && data[0] >= 128 {
        lemma_var_num_scan_len(data.skip(1), (budget - 1) as nat);
    }
    reveal_with_fuel(pow128, 2);
}

/// Writes `data` into the front of `out` in variable-length form and says how
/// many bytes that took.
pub fn serialize_var_num(data: u64, out: &mut [u8]) -> (len: usize)
    requires
        var_num_bytes(data as nat).len() <= old(out)@.len(),
    ensures
        final(out)@.len() == old(out)@.len(),
        len == var_num_bytes(data as nat).len(),
        final(out)@.take(len as int) == var_num_bytes(data as nat),
{
    let mut v: u64 = data;
    let mut byte_idx: usize = 0;
    let mut has_more = true;
    while has_more
        invariant
            out@.len() == old(out)@.len(),
            has_more ==> var_num_bytes(data as nat) == out@.take(byte_idx as int) + var_num_bytes(
                v as nat,
            ),
            has_more ==> byte_idx < out@.len(),
            !has_more ==> var_num_bytes(data as nat) == out@.take(byte_idx as int),
            byte_idx <= out@.len(),
            var_num_bytes(data as nat).len() <= out@.len(),
        decreases v + (if has_more { 1nat } else { 0nat }),
    {
        let ghost before = out@;
        let ghost v0 = v;
        let mut v_byte: u8 = (v % 128) as u8;
        v = v / 128;
        has_more = v != 0;
        if has_more {
            v_byte = v_byte + 128;
        }
        out[byte_idx] = v_byte;
        proof {
            assert(out@.take(byte_idx as int + 1) =~= before.take(byte_idx as int) + seq![v_byte]);
            if has_more {
                assert(var_num_bytes(v0 as nat) == seq![v_byte] + var_num_bytes(v as nat));
                assert(var_num_bytes(data as nat) =~= out@.take(byte_idx as int + 1)
                    + var_num_bytes(v as nat));
                assert(var_num_bytes(v as nat).len() >= 1);
            } else {
                assert(var_num_bytes(v0 as nat) == seq![v_byte]);
                assert(var_num_bytes(data as nat) =~= out@.take(byte_idx as int + 1));
            }
        }
        byte_idx += 1;
    }
    byte_idx
}

/// Reads a variable-length number of at most `max_bytes` bytes.
pub fn deserialize_var_num(max_bytes: usize, orig_data: &[u8]) -> (res: DeserializeResult<'_, u64>)
    requires
        max_bytes <= 10,
    ensures
        match res {
            Ok(d) => var_num_decoding(orig_data@, max_bytes as nat) == Ok::<(u64, Seq<u8>), Fault>(
                (d.value, d.data@),
            ),
            Err(e) => var_num_decoding(orig_data@, max_bytes as nat)
                == Err::<(u64, Seq<u8>), Fault>(
                e@,
            ),
        },
{
    let mut data = orig_data;
    let mut v: u128 = 0;
    let mut place: u128 = 1;
    let mut i: usize = 0;
    proof {
        lemma_pow128_values();
        assert(orig_data@.skip(0) =~= orig_data@);
    }
    loop
        invariant
            i <= max_bytes <= 10,
            i <= orig_data@.len(),
            data@ == orig_data@.skip(i as int),
            place == pow128(i as nat),
            v < place,
            match var_num_scan(data@, (max_bytes - i) as nat) {
                VarScan::Done(high, n) => var_num_scan(orig_data@, max_bytes as nat)
                    == VarScan::Done(v as nat + place as nat * high, n + i as nat),
                other => var_num_scan(orig_data@, max_bytes as nat) == other,
            },
        decreases max_bytes - i,
    {
        if i == max_bytes {
            let (head, _) = orig_data.split_at(i);
            return Err(DeserializeErr::VarNumTooLong(slice_to_vec(head)));
        }
        match read_one_byte(data) {
            Err(e) => {
                return Err(e);
            },
            Ok(d) => {
                let byte = d.value;
                let group: u128 = (byte % 128) as u128;
                proof {
                    lemma_pow128_values();
                    reveal_with_fuel(pow128, 2);
                    assert(place <= 0x8000_0000_0000_0000);
                    assert(group * place <= 127 * place) by (nonlinear_arith)
                        requires
                            group <= 127,
                            place >= 0,
                    ;
                    assert(data@.skip(1) =~= orig_data@.skip(i as int + 1));
                }
                let ghost old_v = v;
                let ghost old_place = place;
                v = v + group * place;
                proof {
                    assert(v < 128 * old_place) by (nonlinear_arith)
                        requires
                            v == old_v + group * old_place,
                            old_v < old_place,
                            group <= 127,
                            old_place >= 0,
                    ;
                }
                if byte < 128 {
                    proof {
                        let n = (i + 1) as nat;
                        lemma_var_num_scan_len(orig_data@, max_bytes as nat);
                        assert(var_num_scan(orig_data@, max_bytes as nat) == VarScan::Done(
                            v as nat,
                            n,
                        )) by {
                            assert(old_place as nat * (byte as nat) == group * old_place)
                                by (nonlinear_arith)
                                requires
                                    group == byte as nat,
                            ;
                        }
                    }
                    let value: u64 = (v % 0x1_0000_0000_0000_0000) as u64;
                    return Deserialized::ok(value, d.data);
                }
                proof {
                    match var_num_scan(d.data@, (max_bytes - i - 1) as nat) {
                        VarScan::Done(high, n) => {
                            assert(old_v as nat + old_place as nat * (group as nat + 128 * high)
                                == v as nat + (128 * old_place) as nat * high)
                                by (nonlinear_arith)
                                requires
                                    v == old_v + group * old_place,
                            ;
                        },
                        _ => {},
                    }
                }
                place = place * 128;
                data = d.data;
                i += 1;
            },
        }
    }
}

/// A 32-bit signed integer that travels in one to five bytes.
#[derive(Copy, Clone, PartialOrd, PartialEq, Debug, Default, Hash, Ord, Eq)]
pub struct VarInt(pub i32);

impl VarInt {
    /// The number as diagnostics show it.
    pub open spec fn spec_text(&self) -> Seq<char> {
        "VarInt("@ + decimal_text(self.0 as int) + ")"@
    }

    pub fn to_string(&self) -> (res: String)
        ensures
            res@ == self.spec_text(),
    {
        let mut text = "VarInt(".to_owned();
        text.append(decimal_string(self.0 as i64).as_str());
        text.append(")");
        text
    }
}

impl Serialize for VarInt {
    open spec fn wire(&self) -> Seq<u8> {
        var_num_bytes(i32_bits(self.0) as nat)
    }

    fn mc_serialize<S: Serializer>(&self, to: &mut S) -> (res: SerializeResult) {
        let mut data = [0u8;5];
        proof {
            lemma_pow128_values();
            lemma_var_num_len(i32_bits(self.0) as nat, 5);
        }
        let n = serialize_var_num(i32_to_bits(self.0) as u64, &mut data);
        to.serialize_bytes(slice_subrange(data.as_slice(), 0, n))
    }
}

impl Deserialize for VarInt {
    type Model = VarInt;

    open spec fn model(&self) -> VarInt {
        *self
    }

    /// Over-long encodings within the budget are accepted, and what they spell
    /// is cut down to 32 bits.
    open spec fn decoding(data: Seq<u8>) -> Parsed<VarInt> {
        match var_num_decoding(data, 5) {
            Ok((v, rest)) => Ok((VarInt(bits_i32((v % 0x1_0000_0000) as u32)), rest)),
            Err(e) => Err(e),
        }
    }

    proof fn lemma_remainder(data: Seq<u8>) {
        lemma_var_num_scan_len(data, 5);
    }

    fn mc_deserialize(orig_data: &[u8]) -> (res: DeserializeResult<'_, Self>) {
        match deserialize_var_num(VAR_INT_BYTES, orig_data) {
            Ok(d) => {
                let low: u32 = (d.value % 0x1_0000_0000) as u32;
                Deserialized::ok(VarInt(i32_from_bits(low)), d.data)
            },
            Err(e) => Err(e),
        }
    }
}

impl ProtocolType for VarInt {
    open spec fn legal(&self) -> bool {
        true
    }

    open spec fn self_delimiting() -> bool {
        true
    }

    proof fn lemma_round_trip(&self, rest: Seq<u8>) {
        let n = i32_bits(self.0) as nat;
        lemma_pow128_values();
        lemma_var_num_len(n, 5);
        lemma_var_num_round_trip(n, rest, 5);
    }
}

/// A 64-bit signed integer that travels in one to ten bytes.
#[derive(Copy, Clone, PartialOrd, PartialEq, Debug, Default, Hash, Ord, Eq)]
pub struct VarLong(pub i64);

impl Serialize for VarLong {
    open spec fn wire(&self) -> Seq<u8> {
        var_num_bytes(i64_bits(self.0) as nat)
    }

    fn mc_serialize<S: Serializer>(&self, to: &mut S) -> (res: SerializeResult) {
        let mut data = [0u8;10];
        proof {
            lemma_pow128_values();
            lemma_var_num_len(i64_bits(self.0) as nat, 10);
        }
        let n = serialize_var_num(i64_to_bits(self.0), &mut data);
        to.serialize_bytes(slice_subrange(data.as_slice(), 0, n))
    }
}

impl Deserialize for VarLong {
    type Model = VarLong;

    open spec fn model(&self) -> VarLong {
        *self
    }

    /// Over-long encodings within the budget are accepted, and what they spell
    /// is cut down to 64 bits.
    open spec fn decoding(data: Seq<u8>) -> Parsed<VarLong> {
        match var_num_decoding(data, 10) {
            Ok((v, rest)) => Ok((VarLong(bits_i64(v)), rest)),
            Err(e) => Err(e),
        }
    }

    proof fn lemma_remainder(data: Seq<u8>) {
        lemma_var_num_scan_len(data, 10);
    }

    fn mc_deserialize(orig_data: &[u8]) -> (res: DeserializeResult<'_, Self>) {
        match deserialize_var_num(VAR_LONG_BYTES, orig_data) {
            Ok(d) => Deserialized::ok(VarLong(i64_from_bits(d.value)), d.data),
            Err(e) => Err(e),
        }
    }
}

impl ProtocolType for VarLong {
    open spec fn legal(&self) -> bool {
        true
    }

    open spec fn self_delimiting() -> bool {
        true
    }

    proof fn lemma_round_trip(&self, rest: Seq<u8>) {
        let n = i64_bits(self.0) as nat;
        lemma_pow128_values();
        lemma_var_num_len(n, 10);
        lemma_var_num_round_trip(n, rest, 10);
    }
}

/// Where none of the first five bytes has its top bit clear, reading a
/// `VarInt` fails over budget, with those five bytes, however long the input.
pub proof fn law_var_int_over_budget(data: Seq<u8>)
    requires
        data.len() >= 5,
        forall|i: int| 0 <= i < 5 ==> data[i] >= 128,
    ensures
        VarInt::decoding(data) == Err::<(VarInt, Seq<u8>), Fault>(
            Fault::VarNumTooLong(data.take(5)),
        ),
{
    lemma_var_num_over_budget(data, 5);
}

/// Where none of the first ten bytes has its top bit clear, reading a
/// `VarLong` fails over budget, with those ten bytes, however long the input.
pub proof fn law_var_long_over_budget(data: Seq<u8>)
    requires
        data.len() >= 10,
        forall|i: int| 0 <= i < 10 ==> data[i] >= 128,
    ensures
        VarLong::decoding(data) == Err::<(VarLong, Seq<u8>), Fault>(
            Fault::VarNumTooLong(data.take(10)),
        ),
{
    lemma_var_num_over_budget(data, 10);
}

impl From<i32> for VarInt {
    fn from(v: i32) -> (res: Self) {
        VarInt(v)
    }
}

impl vstd::std_specs::convert::FromSpecImpl<i32> for VarInt {
    open spec fn obeys_from_spec() -> bool {
        true
    }

    open spec fn from_spec(v: i32) -> Self {
        VarInt(v)
    }
}

impl From<VarInt> for i32 {
    fn from(v: VarInt) -> (res: Self) {
        v.0
    }
}

impl vstd::std_specs::convert::FromSpecImpl<VarInt> for i32 {
    open spec fn obeys_from_spec() -> bool {
        true
    }

    open spec fn from_spec(v: VarInt) -> Self {
        v.0
    }
}

// STRING
/// The length of a text's UTF-8 form as its prefix carries it: cut down to 32
/// bits and read as signed.
pub open spec fn length_prefix(len: nat) -> VarInt {
    VarInt(bits_i32((len % 0x1_0000_0000) as u32))
}

pub fn length_prefix_of(len: usize) -> (res: VarInt)
    ensures
        res == length_prefix(len as nat),
{
    let low: u32 = (len as u64 % 0x1_0000_0000) as u32;
    VarInt(i32_from_bits(low))
}

/// Text as it travels: the length of its UTF-8 form, then that form.
pub open spec fn text_wire(text: Seq<char>) -> Seq<u8> {
    length_prefix(encode_utf8(text).len()).wire() + encode_utf8(text)
}

/// A byte count, then that many bytes of UTF-8. A negative count fails before
/// anything behind the prefix is looked at.
pub open spec fn text_decoding(data: Seq<u8>) -> Parsed<Seq<char>> {
    match VarInt::decoding(data) {
        Err(e) => Err(e),
        Ok((length, rest)) => if length.0 < 0 {
            Err(Fault::NegativeLength(length.0))
        } else if rest.len() < length.0 {
            Err(Fault::Eof)
        } else if !valid_utf8(rest.take(length.0 as int)) {
            Err(Fault::BadStringEncoding(rest.take(length.0 as int)))
        } else {
            Ok((decode_utf8(rest.take(length.0 as int)), rest.skip(length.0 as int)))
        },
    }
}

/// Text whose UTF-8 form is short enough for its length to be a positive
/// 32-bit number reads back as it was written.
pub proof fn lemma_text_round_trip(text: Seq<char>, rest: Seq<u8>)
    requires
        encode_utf8(text).len() <= i32::MAX,
    ensures
        text_decoding(text_wire(text) + rest) == Ok::<(Seq<char>, Seq<u8>), Fault>((text, rest)),
{
    let bytes = encode_utf8(text);
    let prefix = length_prefix(bytes.len());
    prefix.lemma_round_trip(bytes + rest);
    assert(prefix.wire() + bytes + rest =~= prefix.wire() + (bytes + rest));
    assert((bytes + rest).take(bytes.len() as int) =~= bytes);
    assert((bytes + rest).skip(bytes.len() as int) =~= rest);
    encode_utf8_valid_utf8(text);
    encode_utf8_decode_utf8(text);
}

impl Serialize for String {
    open spec fn wire(&self) -> Seq<u8> {
        text_wire(self@)
    }

    fn mc_serialize<S: Serializer>(&self, to: &mut S) -> (res: SerializeResult) {
        let bytes = self.as_str().as_bytes();
        let ghost before = to.written();
        match length_prefix_of(bytes.len()).mc_serialize(to) {
            Ok(()) => {},
            Err(e) => {
                return Err(e);
            },
        }
        let res = to.serialize_bytes(bytes);
        proof {
            assert(before + length_prefix(bytes@.len()).wire() + bytes@ =~= before + (
            length_prefix(bytes@.len()).wire() + bytes@));
        }
        res
    }
}

impl Deserialize for String {
    type Model = Seq<char>;

    open spec fn model(&self) -> Seq<char> {
        self@
    }

    open spec fn decoding(data: Seq<u8>) -> Parsed<Seq<char>> {
        text_decoding(data)
    }

    proof fn lemma_remainder(data: Seq<u8>) {
        VarInt::lemma_remainder(data);
        match VarInt::decoding(data) {
            Ok((length, rest)) => {
                if 0 <= length.0 <= rest.len() {
                    lemma_skip_is_suffix(rest, length.0 as int);
                    lemma_suffix_trans(rest.skip(length.0 as int), rest, data);
                }
            },
            Err(_) => {},
        }
    }

    fn mc_deserialize(data: &[u8]) -> (res: DeserializeResult<'_, Self>) {
        match VarInt::mc_deserialize(data) {
            Err(e) => Err(e),
            Ok(prefix) => {
                let length = prefix.value;
                if length.0 < 0 {
                    Err(DeserializeErr::NegativeLength(length))
                } else {
                    match take(length.0 as usize, prefix.data) {
                        Err(e) => Err(e),
                        Ok(taken) => match string_from_utf8(slice_to_vec(taken.value)) {
                            Ok(text) => Deserialized::ok(text, taken.data),
                            Err(e) => Err(DeserializeErr::BadStringEncoding(e)),
                        },
                    }
                }
            },
        }
    }
}

impl ProtocolType for String {
    /// The UTF-8 form must be short enough for its length to be a positive
    /// 32-bit number.
    open spec fn legal(&self) -> bool {
        encode_utf8(self@).len() <= i32::MAX
    }

    open spec fn self_delimiting() -> bool {
        true
    }

    proof fn lemma_round_trip(&self, rest: Seq<u8>) {
        lemma_text_round_trip(self@, rest);
    }
}

/// A length below zero ends the reading of text at the prefix: the failure
/// names the length, whatever bytes stand behind it.
pub proof fn law_negative_length_is_refused(length: VarInt, behind: Seq<u8>)
    requires
        length.0 < 0,
    ensures
        String::decoding(length.wire() + behind) == Err::<(Seq<char>, Seq<u8>), Fault>(
            Fault::NegativeLength(length.0),
        ),
{
    length.lemma_round_trip(behind);
}

// position
/// A block position: `x` and `z` of 26 bits, `y` of 12, packed into 64.
#[derive(Clone, Copy, PartialEq, Eq, Hash, Debug)]
pub struct IntPosition {
    pub x: i32,
    pub y: i16,
    pub z: i32,
}

/// A signed number as a field of a given width (`half` is two to the width
/// less one): what is below zero is moved up by the field's size, and what
/// does not fit is cut down to the field.
pub open spec fn field_bits(v: int, half: int) -> int {
    if v < 0 {
        half + v % half
    } else {
        v % (2 * half)
    }
}

/// The signed number that a field of a given width holds.
pub open spec fn field_value(raw: int, half: int) -> int {
    if raw >= half {
        raw - 2 * half
    } else {
        raw
    }
}

/// `(x << 38) | (z << 12) | y`, each component as a field of its width.
pub open spec fn position_bits(p: IntPosition) -> u64 {
    (field_bits(p.x as int, 0x200_0000) * 0x40_0000_0000 + field_bits(p.z as int, 0x200_0000)
        * 0x1000 + field_bits(p.y as int, 0x800)) as u64
}

pub open spec fn bits_position(raw: u64) -> IntPosition {
    IntPosition {
        x: field_value(raw as int / 0x40_0000_0000, 0x200_0000) as i32,
        y: field_value(raw as int % 0x1000, 0x800) as i16,
        z: field_value((raw as int / 0x1000) % 0x400_0000, 0x200_0000) as i32,
    }
}

pub proof fn lemma_position_bits(p: IntPosition)
    requires
        p.legal(),
    ensures
        bits_position(position_bits(p)) == p,
{
    let x = field_bits(p.x as int, 0x200_0000);
    let z = field_bits(p.z as int, 0x200_0000);
    let y = field_bits(p.y as int, 0x800);
    assert(0 <= x < 0x400_0000);
    assert(0 <= z < 0x400_0000);
    assert(0 <= y < 0x1000);
    let raw = x * 0x40_0000_0000 + z * 0x1000 + y;
    assert(raw / 0x40_0000_0000 == x);
    assert(raw % 0x1000 == y);
    assert((raw / 0x1000) % 0x400_0000 == z);
}

fn field_of(v: i32, half: u32) -> (raw: u64)
    requires
        half == 0x200_0000 || half == 0x800,
    ensures
        raw == field_bits(v as int, half as int),
        raw < 2 * half,
{
    if v < 0 {
        let w: u32 = (-(v as i64 + 1)) as u32;
        let r: u32 = half - 1 - w % half;
        (half + r) as u64
    } else {
        (v as u32 % (2 * half)) as u64
    }
}

fn value_of(raw: u64, half: u32) -> (v: i32)
    requires
        half == 0x200_0000 || half == 0x800,
        raw < 2 * half,
    ensures
        v == field_value(raw as int, half as int),
{
    if raw >= half as u64 {
        (raw as i64 - 2 * (half as i64)) as i32
    } else {
        raw as i32
    }
}

impl Serialize for IntPosition {
    open spec fn wire(&self) -> Seq<u8> {
        u64_be(position_bits(*self))
    }

    fn mc_serialize<S: Serializer>(&self, to: &mut S) -> (res: SerializeResult) {
        let x_raw = field_of(self.x, 0x200_0000);
        let z_raw = field_of(self.z, 0x200_0000);
        let y_raw = field_of(self.y as i32, 0x800);
        let data_raw: u64 = x_raw * 0x40_0000_0000 + z_raw * 0x1000 + y_raw;
        let data = write_long(data_raw);
        to.serialize_bytes(data.as_slice())
    }
}

impl Deserialize for IntPosition {
    type Model = IntPosition;

    open spec fn model(&self) -> IntPosition {
        *self
    }

    open spec fn decoding(data: Seq<u8>) -> Parsed<IntPosition> {
        if data.len() < 8 {
            Err(Fault::Eof)
        } else {
            Ok((bits_position(be_u64(data)), data.skip(8)))
        }
    }

    proof fn lemma_remainder(data: Seq<u8>) {
    }

    fn mc_deserialize(data: &[u8]) -> (res: DeserializeResult<'_, Self>) {
        match read_long(data) {
            Err(e) => Err(e),
            Ok(d) => {
                let raw = d.value;
                let x = value_of(raw / 0x40_0000_0000, 0x200_0000);
                let z = value_of((raw / 0x1000) % 0x400_0000, 0x200_0000);
                let y = value_of(raw % 0x1000, 0x800);
                Deserialized::ok(IntPosition { x, y: y as i16, z }, d.data)
            },
        }
    }
}

impl ProtocolType for IntPosition {
    /// Each component fits its field.
    open spec fn legal(&self) -> bool {
        &&& -0x200_0000 <= self.x < 0x200_0000
        &&& -0x800 <= self.y < 0x800
        &&& -0x200_0000 <= self.z < 0x200_0000
    }

    open spec fn self_delimiting() -> bool {
        true
    }

    proof fn lemma_round_trip(&self, rest: Seq<u8>) {
        lemma_u64_be(position_bits(*self), rest);
        lemma_position_bits(*self);
    }
}

// angle
/// A rotation in steps of 1/256 of a full turn.
#[derive(Copy, Clone, PartialEq, Eq, Hash, Debug)]
pub struct Angle {
    pub value: u8,
}

impl Serialize for Angle {
    open spec fn wire(&self) -> Seq<u8> {
        seq![self.value]
    }

    fn mc_serialize<S: Serializer>(&self, to: &mut S) -> (res: SerializeResult) {
        to.serialize_byte(self.value)
    }
}

impl Deserialize for Angle {
    type Model = Angle;

    open spec fn model(&self) -> Angle {
        *self
    }

    open spec fn decoding(data: Seq<u8>) -> Parsed<Angle> {
        if data.len() == 0 {
            Err(Fault::Eof)
        } else {
            Ok((Angle { value: data[0] }, data.skip(1)))
        }
    }

    proof fn lemma_remainder(data: Seq<u8>) {
    }

    fn mc_deserialize(data: &[u8]) -> (res: DeserializeResult<'_, Self>) {
        match read_one_byte(data) {
            Ok(d) => Deserialized::ok(Angle { value: d.value }, d.data),
            Err(e) => Err(e),
        }
    }
}

impl ProtocolType for Angle {
    open spec fn legal(&self) -> bool {
        true
    }

    open spec fn self_delimiting() -> bool {
        true
    }

    proof fn lemma_round_trip(&self, rest: Seq<u8>) {
        assert((seq![self.value] + rest).skip(1) =~= rest);
    }
}

// UUID
impl Serialize for UUID4 {
    /// Sixteen bytes in the number's own order, most significant first.
    open spec fn wire(&self) -> Seq<u8> {
        u128_be(self.value())
    }

    fn mc_serialize<S: Serializer>(&self, to: &mut S) -> (res: SerializeResult) {
        let raw = self.to_u128();
        let high = write_long((raw / 0x1_0000_0000_0000_0000) as u64);
        let low = write_long((raw % 0x1_0000_0000_0000_0000) as u64);
        let ghost before = to.written();
        match to.serialize_bytes(high.as_slice()) {
            Ok(()) => {},
            Err(e) => {
                return Err(e);
            },
        }
        let res = to.serialize_bytes(low.as_slice());
        proof {
            assert(before + high@ + low@ =~= before + (high@ + low@));
        }
        res
    }
}

impl Deserialize for UUID4 {
    type Model = u128;

    open spec fn model(&self) -> u128 {
        self.value()
    }

    open spec fn decoding(data: Seq<u8>) -> Parsed<u128> {
        if data.len() < 16 {
            Err(Fault::Eof)
        } else {
            Ok((be_u128(data), data.skip(16)))
        }
    }

    proof fn lemma_remainder(data: Seq<u8>) {
    }

    fn mc_deserialize(data: &[u8]) -> (res: DeserializeResult<'_, Self>) {
        if data.len() < 16 {
            return Err(DeserializeErr::Eof);
        }
        match read_long(data) {
            Err(e) => Err(e),
            Ok(high) => match read_long(high.data) {
                Err(e) => Err(e),
                Ok(low) => {
                    proof {
                        assert(data@.skip(8).skip(8) =~= data@.skip(16));
                    }
                    let raw: u128 = (high.value as u128) * 0x1_0000_0000_0000_0000 + (
                    low.value as u128);
                    Deserialized::ok(UUID4::from(raw), low.data)
                },
            },
        }
    }
}

impl ProtocolType for UUID4 {
    open spec fn legal(&self) -> bool {
        true
    }

    open spec fn self_delimiting() -> bool {
        true
    }

    proof fn lemma_round_trip(&self, rest: Seq<u8>) {
        lemma_u128_be(self.value(), rest);
    }
}

/// A sink that keeps what it is given in memory.
pub struct BytesSerializer {
    data: Vec<u8>,
}

impl Serializer for BytesSerializer {
    closed spec fn written(&self) -> Seq<u8> {
        self.data@
    }

    open spec fn reliable(&self) -> bool {
        true
    }

    fn serialize_bytes(&mut self, data: &[u8]) -> (res: SerializeResult) {
        self.data.extend_from_slice(data);
        Ok(())
    }
}

impl Default for BytesSerializer {
    fn default() -> (res: Self)
        ensures
            res.written() == Seq::<u8>::empty(),
    {
        BytesSerializer { data: Vec::new() }
    }
}

impl BytesSerializer {
    /// An empty sink with room for `cap` bytes.
    pub fn with_capacity(cap: usize) -> (res: Self)
        ensures
            res.written() == Seq::<u8>::empty(),
    {
        BytesSerializer { data: Vec::with_capacity(cap) }
    }

    /// Everything that was written, in order.
    pub fn into_bytes(self) -> (res: Vec<u8>)
        ensures
            res@ == self.written(),
    {
        self.data
    }
}

impl<T> Serialize for Option<T> where T: Serialize {
    /// A presence flag, and behind it the value where the flag is set.
    open spec fn wire(&self) -> Seq<u8> {
        match self {
            Some(v) => true.wire() + v.wire(),
            None => false.wire(),
        }
    }

    fn mc_serialize<S: Serializer>(&self, to: &mut S) -> (res: SerializeResult) {
        match self {
            Some(value) => {
                let ghost before = to.written();
                match true.mc_serialize(to) {
                    Ok(()) => {},
                    Err(e) => {
                        return Err(e);
                    },
                }
                let res = value.mc_serialize(to);
                proof {
                    assert(before + true.wire() + value.wire() =~= before
                        + (true.wire() + value.wire()));
                }
                res
            },
            None => false.mc_serialize(to),
        }
    }
}

impl<T> Deserialize for Option<T> where T: Deserialize {
    type Model = Option<T::Model>;

    open spec fn model(&self) -> Option<T::Model> {
        match self {
            Some(v) => Some(v.model()),
            None => None,
        }
    }

    open spec fn decoding(data: Seq<u8>) -> Parsed<Option<T::Model>> {
        match bool::decoding(data) {
            Err(e) => Err(e),
            Ok((false, rest)) => Ok((None, rest)),
            Ok((true, rest)) => match T::decoding(rest) {
                Ok((v, rest)) => Ok((Some(v), rest)),
                Err(e) => Err(e),
            },
        }
    }

    proof fn lemma_remainder(data: Seq<u8>) {
        bool::lemma_remainder(data);
        match bool::decoding(data) {
            Ok((true, rest)) => {
                T::lemma_remainder(rest);
                match T::decoding(rest) {
                    Ok((_, rest2)) => {
                        lemma_suffix_trans(rest2, rest, data);
                    },
                    Err(_) => {},
                }
            },
            _ => {},
        }
    }

    fn mc_deserialize(data: &[u8]) -> (res: DeserializeResult<'_, Self>) {
        match bool::mc_deserialize(data) {
            Err(e) => Err(e),
            Ok(flag) => {
                if flag.value {
                    match T::mc_deserialize(flag.data) {
                        Ok(d) => Deserialized::ok(Some(d.value), d.data),
                        Err(e) => Err(e),
                    }
                } else {
                    Deserialized::ok(None, flag.data)
                }
            },
        }
    }
}

impl<T: ProtocolType> ProtocolType for Option<T> {
    open spec fn legal(&self) -> bool {
        match self {
            Some(v) => v.legal(),
            None => true,
        }
    }

    open spec fn self_delimiting() -> bool {
        T::self_delimiting()
    }

    proof fn lemma_round_trip(&self, rest: Seq<u8>) {
        match self {
            Some(v) => {
                true.lemma_round_trip(v.wire() + rest);
                assert(true.wire() + v.wire() + rest =~= true.wire() + (
                v.wire() + rest));
                v.lemma_round_trip(rest);
            },
            None => {
                false.lemma_round_trip(rest);
            },
        }
    }
}

/// A fixed-point number: a 32-bit integer that stands for a real value scaled
/// by a power of two which the two ends agree on.
#[derive(Clone, Copy, Debug, PartialEq, Eq)]
pub struct FixedInt {
    raw: i32,
}

impl FixedInt {
    /// The scaled integer.
    pub closed spec fn spec_raw(&self) -> i32 {
        self.raw
    }

    pub fn from_raw(raw: i32) -> (res: Self)
        ensures
            res.spec_raw() == raw,
    {
        FixedInt { raw }
    }

    pub fn raw(&self) -> (raw: i32)
        ensures
            raw == self.spec_raw(),
    {
        self.raw
    }
}

impl Serialize for FixedInt {
    open spec fn wire(&self) -> Seq<u8> {
        self.spec_raw().wire()
    }

    fn mc_serialize<S: Serializer>(&self, to: &mut S) -> (res: SerializeResult) {
        self.raw().mc_serialize(to)
    }
}

impl Deserialize for FixedInt {
    type Model = i32;

    open spec fn model(&self) -> i32 {
        self.spec_raw()
    }

    open spec fn decoding(data: Seq<u8>) -> Parsed<i32> {
        i32::decoding(data)
    }

    proof fn lemma_remainder(data: Seq<u8>) {
        i32::lemma_remainder(data);
    }

    fn mc_deserialize(data: &[u8]) -> (res: DeserializeResult<'_, Self>) {
        let Deserialized { value: raw, data: rest } = i32::mc_deserialize(data)?;
        Deserialized::ok(FixedInt::from_raw(raw), rest)
    }
}

impl ProtocolType for FixedInt {
    open spec fn legal(&self) -> bool {
        true
    }

    open spec fn self_delimiting() -> bool {
        true
    }

    proof fn lemma_round_trip(&self, rest: Seq<u8>) {
        self.spec_raw().lemma_round_trip(rest);
    }
}

/// JSON that travels as text: rich chat text, or a server's status. This
/// layer carries the document as it is; reading it is the work of whoever
/// speaks JSON.
#[derive(Debug, Clone, PartialEq, Eq)]
pub struct JsonText {
    pub json: String,
}

impl Serialize for JsonText {
    open spec fn wire(&self) -> Seq<u8> {
        self.json.wire()
    }

    fn mc_serialize<S: Serializer>(&self, to: &mut S) -> (res: SerializeResult) {
        self.json.mc_serialize(to)
    }
}

impl Deserialize for JsonText {
    type Model = Seq<char>;

    open spec fn model(&self) -> Seq<char> {
        self.json@
    }

    open spec fn decoding(data: Seq<u8>) -> Parsed<Seq<char>> {
        String::decoding(data)
    }

    proof fn lemma_remainder(data: Seq<u8>) {
        String::lemma_remainder(data);
    }

    fn mc_deserialize(data: &[u8]) -> (res: DeserializeResult<'_, Self>) {
        let Deserialized { value: json, data: rest } = String::mc_deserialize(data)?;
        Deserialized::ok(JsonText { json }, rest)
    }
}

impl ProtocolType for JsonText {
    open spec fn legal(&self) -> bool {
        self.json.legal()
    }

    open spec fn self_delimiting() -> bool {
        true
    }

    proof fn lemma_round_trip(&self, rest: Seq<u8>) {
        self.json.lemma_round_trip(rest);
    }
}

} // verus!
