use crate::deserialize::{Deserialize, DeserializeErr, DeserializeResult, Deserialized, Fault};
use crate::protocol::ProtocolType;
use crate::tuples::lemma_tuple2_wire;
use crate::serialize::{Serialize, SerializeResult, Serializer};
use crate::types::{bits_i32, i32_from_bits, VarInt};
use crate::utils::{be_u16, be_u32, read_int, read_short};
use crate::wire::{lemma_concat_assoc, lemma_suffix_trans, Parsed};
use vstd::prelude::*;
use vstd::slice::{slice_subrange, slice_to_vec};

verus! {

// A tag tree is a self-describing binary format for nested data: every value
// is announced by a one-byte type, compounds hold named values up to an end
// marker, lists hold a count of values of one type. This module measures such
// a tree without building it: it finds where the tree ends, and refuses trees
// whose lengths or depth could not be trusted.
/// How deep compounds and lists may nest.
pub const MAX_TAG_DEPTH: usize = 512;

pub const TAG_END: u8 = 0;

pub const TAG_LIST: u8 = 9;

pub const TAG_COMPOUND: u8 = 10;

/// A payload of exactly `size` bytes.
pub open spec fn sized_extent(data: Seq<u8>, size: nat) -> Result<nat, Fault> {
    if data.len() < size {
        Err(Fault::Eof)
    } else {
        Ok(size)
    }
}

/// A 32-bit count and that many items of `width` bytes each. A count below
/// zero is refused.
pub open spec fn array_extent(data: Seq<u8>, width: nat) -> Result<nat, Fault> {
    if data.len() < 4 {
        Err(Fault::Eof)
    } else if bits_i32(be_u32(data)) < 0 {
        Err(Fault::NbtBadLength(bits_i32(be_u32(data)) as int))
    } else if data.len() < 4 + bits_i32(be_u32(data)) * width {
        Err(Fault::Eof)
    } else {
        Ok((4 + bits_i32(be_u32(data)) * width) as nat)
    }
}

/// A 16-bit length and that many bytes of text.
pub open spec fn text_extent(data: Seq<u8>) -> Result<nat, Fault> {
    if data.len() < 2 {
        Err(Fault::Eof)
    } else if data.len() < 2 + be_u16(data) {
        Err(Fault::Eof)
    } else {
        Ok((2 + be_u16(data)) as nat)
    }
}

/// How many bytes the payload of a value of type `id` takes at the front of
/// `data`, with `depth` further levels of nesting allowed. Nesting beyond that
/// is refused as a bad length: one more than the limit.
pub open spec fn payload_extent(id: u8, data: Seq<u8>, depth: nat) -> Result<nat, Fault>
    decreases depth, 0nat, 0nat,
{
    if id == 1 {
        sized_extent(data, 1)
    } else if id == 2 {
        sized_extent(data, 2)
    } else if id == 3 || id == 5 {
        sized_extent(data, 4)
    } else if id == 4 || id == 6 {
        sized_extent(data, 8)
    } else if id == 7 {
        array_extent(data, 1)
    } else if id == 8 {
        text_extent(data)
    } else if id == TAG_LIST {
        if data.len() < 5 {
            Err(Fault::Eof)
        } else if bits_i32(be_u32(data.skip(1))) < 0 {
            Err(Fault::NbtBadLength(bits_i32(be_u32(data.skip(1))) as int))
        } else if bits_i32(be_u32(data.skip(1))) == 0 {
            Ok(5)
        } else if data[0] == 0 || data[0] > 12 {
            Err(Fault::NbtUnknownTagType(data[0]))
        } else if depth == 0 {
            Err(Fault::NbtBadLength(MAX_TAG_DEPTH + 1))
        } else {
            match items_extent(
                data[0],
                bits_i32(be_u32(data.skip(1))) as nat,
                data.skip(5),
                (depth - 1) as nat,
            ) {
                Ok(n) => Ok(5 + n),
                Err(e) => Err(e),
            }
        }
    } else if id == TAG_COMPOUND {
        if depth == 0 {
            Err(Fault::NbtBadLength(MAX_TAG_DEPTH + 1))
        } else {
            entries_extent(data, (depth - 1) as nat)
        }
    } else if id == 11 {
        array_extent(data, 4)
    } else if id == 12 {
        array_extent(data, 8)
    } else {
        Err(Fault::NbtUnknownTagType(id))
    }
}

/// `count` payloads of type `id`, one behind the other.
pub open spec fn items_extent(id: u8, count: nat, data: Seq<u8>, depth: nat) -> Result<nat, Fault>
    decreases depth, 1nat, count,
{
    if count == 0 {
        Ok(0)
    } else {
        match payload_extent(id, data, depth) {
            Err(e) => Err(e),
            Ok(n) => if n > data.len() {
                Err(Fault::Eof)
            } else {
                match items_extent(id, (count - 1) as nat, data.skip(n as int), depth) {
                    Ok(m) => Ok(n + m),
                    Err(e) => Err(e),
                }
            },
        }
    }
}

/// The entries of a compound up to and with its end marker: each a type, a
/// name and a payload.
pub open spec fn entries_extent(data: Seq<u8>, depth: nat) -> Result<nat, Fault>
    decreases depth, 1nat, data.len(),
{
    if data.len() == 0 {
        Err(Fault::Eof)
    } else if data[0] == TAG_END {
        Ok(1)
    } else if data[0] > 12 {
        Err(Fault::NbtUnknownTagType(data[0]))
    } else {
        match text_extent(data.skip(1)) {
            Err(e) => Err(e),
            Ok(k) => match payload_extent(data[0], data.skip(1 + k as int), depth) {
                Err(e) => Err(e),
                Ok(n) => if 1 + k + n > data.len() {
                    Err(Fault::Eof)
                } else {
                    match entries_extent(data.skip(1 + k + n as int), depth) {
                        Ok(m) => Ok(1 + k + n + m),
                        Err(e) => Err(e),
                    }
                },
            },
        }
    }
}

/// A whole tree: the type byte of a compound, its name, its entries.
pub open spec fn named_tag_extent(data: Seq<u8>) -> Result<nat, Fault> {
    if data.len() == 0 {
        Err(Fault::Eof)
    } else if data[0] != TAG_COMPOUND {
        Err(Fault::NbtInvalidStartTag(data[0]))
    } else {
        match text_extent(data.skip(1)) {
            Err(e) => Err(e),
            Ok(k) => match entries_extent(data.skip(1 + k as int), MAX_TAG_DEPTH as nat) {
                Ok(n) => Ok(1 + k + n),
                Err(e) => Err(e),
            },
        }
    }
}

/// An extent never reaches past the end of the input.
pub proof fn lemma_payload_within(id: u8, data: Seq<u8>, depth: nat)
    ensures
        payload_extent(id, data, depth) matches Ok(n) ==> n <= data.len(),
    decreases depth, 0nat, 0nat,
{
    if id == TAG_LIST && data.len() >= 5 && depth > 0 {
        lemma_items_within(
            data[0],
            bits_i32(be_u32(data.skip(1))) as nat,
            data.skip(5),
            (depth - 1) as nat,
        );
    }
    if id == TAG_COMPOUND && depth > 0 {
        lemma_entries_within(data, (depth - 1) as nat);
    }
}

pub proof fn lemma_items_within(id: u8, count: nat, data: Seq<u8>, depth: nat)
    ensures
        items_extent(id, count, data, depth) matches Ok(n) ==> n <= data.len(),
    decreases depth, 1nat, count,
{
    if count > 0 {
        lemma_payload_within(id, data, depth);
        match payload_extent(id, data, depth) {
            Ok(n) => {
                if n <= data.len() {
                    lemma_items_within(id, (count - 1) as nat, data.skip(n as int), depth);
                }
            },
            Err(_) => {},
        }
    }
}

pub proof fn lemma_entries_within(data: Seq<u8>, depth: nat)
    ensures
        entries_extent(data, depth) matches Ok(n) ==> 1 <= n <= data.len(),
    decreases depth, 1nat, data.len(),
{
    if data.len() > 0 && 0 < data[0] <= 12 {
        match text_extent(data.skip(1)) {
            Ok(k) => {
                lemma_payload_within(data[0], data.skip(1 + k as int), depth);
                match payload_extent(data[0], data.skip(1 + k as int), depth) {
                    Ok(n) => {
                        if 1 + k + n <= data.len() {
                            lemma_entries_within(data.skip(1 + k + n as int), depth);
                        }
                    },
                    Err(_) => {},
                }
            },
            Err(_) => {},
        }
    }
}

pub proof fn lemma_named_tag_within(data: Seq<u8>)
    ensures
        named_tag_extent(data) matches Ok(n) ==> 1 <= n <= data.len(),
{
    if data.len() > 0 {
        match text_extent(data.skip(1)) {
            Ok(k) => {
                lemma_entries_within(data.skip(1 + k as int), MAX_TAG_DEPTH as nat);
            },
            Err(_) => {},
        }
    }
}

proof fn lemma_be_u16_prefix(b: Seq<u8>, r: Seq<u8>)
    requires
        b.len() >= 2,
    ensures
        be_u16(b + r) == be_u16(b),
{
}

proof fn lemma_be_u32_prefix(b: Seq<u8>, r: Seq<u8>)
    requires
        b.len() >= 4,
    ensures
        be_u32(b + r) == be_u32(b),
{
    assert((b + r).skip(2) =~= b.skip(2) + r);
    lemma_be_u16_prefix(b, r);
    lemma_be_u16_prefix(b.skip(2), r);
}

proof fn lemma_skip_of_concat(data: Seq<u8>, rest: Seq<u8>, k: int)
    requires
        0 <= k <= data.len(),
    ensures
        (data + rest).skip(k) == data.skip(k) + rest,
{
    assert((data + rest).skip(k) =~= data.skip(k) + rest);
}

proof fn lemma_array_stable(data: Seq<u8>, width: nat, rest: Seq<u8>)
    ensures
        array_extent(data, width) matches Ok(n) ==> array_extent(data + rest, width) == Ok::<
            nat,
            Fault,
        >(n),
{
    if data.len() >= 4 {
        lemma_be_u32_prefix(data, rest);
    }
}

proof fn lemma_text_stable(data: Seq<u8>, rest: Seq<u8>)
    ensures
        text_extent(data) matches Ok(n) ==> text_extent(data + rest) == Ok::<nat, Fault>(n),
{
    if data.len() >= 2 {
        lemma_be_u16_prefix(data, rest);
    }
}

/// Whatever follows a payload does not change where the payload ends.
pub proof fn lemma_payload_stable(id: u8, data: Seq<u8>, depth: nat, rest: Seq<u8>)
    ensures
        payload_extent(id, data, depth) matches Ok(n) ==> payload_extent(id, data + rest, depth)
            == Ok::<nat, Fault>(n),
    decreases depth, 0nat, 0nat,
{
    lemma_array_stable(data, 1, rest);
    lemma_array_stable(data, 4, rest);
    lemma_array_stable(data, 8, rest);
    lemma_text_stable(data, rest);
    if id == TAG_LIST && data.len() >= 5 {
        lemma_skip_of_concat(data, rest, 1);
        lemma_be_u32_prefix(data.skip(1), rest);
        lemma_skip_of_concat(data, rest, 5);
        if depth > 0 {
            lemma_items_stable(
                data[0],
                bits_i32(be_u32(data.skip(1))) as nat,
                data.skip(5),
                (depth - 1) as nat,
                rest,
            );
        }
    }
    if id == TAG_COMPOUND && depth > 0 {
        lemma_entries_stable(data, (depth - 1) as nat, rest);
    }
}

pub proof fn lemma_items_stable(id: u8, count: nat, data: Seq<u8>, depth: nat, rest: Seq<u8>)
    ensures
        items_extent(id, count, data, depth) matches Ok(n) ==> items_extent(
            id,
            count,
            data + rest,
            depth,
        ) == Ok::<nat, Fault>(n),
    decreases depth, 1nat, count,
{
    if count > 0 {
        lemma_payload_stable(id, data, depth, rest);
        lemma_payload_within(id, data, depth);
        match payload_extent(id, data, depth) {
            Ok(n) => {
                if n <= data.len() {
                    lemma_skip_of_concat(data, rest, n as int);
                    lemma_items_stable(id, (count - 1) as nat, data.skip(n as int), depth, rest);
                }
            },
            Err(_) => {},
        }
    }
}

pub proof fn lemma_entries_stable(data: Seq<u8>, depth: nat, rest: Seq<u8>)
    ensures
        entries_extent(data, depth) matches Ok(n) ==> entries_extent(data + rest, depth) == Ok::<
            nat,
            Fault,
        >(n),
    decreases depth, 1nat, data.len(),
{
    if data.len() > 0 && 0 < data[0] <= 12 {
        lemma_skip_of_concat(data, rest, 1);
        lemma_text_stable(data.skip(1), rest);
        match text_extent(data.skip(1)) {
            Ok(k) => {
                lemma_skip_of_concat(data, rest, 1 + k as int);
                lemma_payload_stable(data[0], data.skip(1 + k as int), depth, rest);
                lemma_payload_within(data[0], data.skip(1 + k as int), depth);
                match payload_extent(data[0], data.skip(1 + k as int), depth) {
                    Ok(n) => {
                        if 1 + k + n <= data.len() {
                            lemma_skip_of_concat(data, rest, 1 + k + n as int);
                            lemma_entries_stable(data.skip(1 + k + n as int), depth, rest);
                        }
                    },
                    Err(_) => {},
                }
            },
            Err(_) => {},
        }
    }
}

/// Whatever follows a tree does not change where the tree ends.
pub proof fn lemma_named_tag_stable(data: Seq<u8>, rest: Seq<u8>)
    ensures
        named_tag_extent(data) matches Ok(n) ==> named_tag_extent(data + rest) == Ok::<
            nat,
            Fault,
        >(n),
{
    if data.len() > 0 && data[0] == TAG_COMPOUND {
        lemma_skip_of_concat(data, rest, 1);
        lemma_text_stable(data.skip(1), rest);
        match text_extent(data.skip(1)) {
            Ok(k) => {
                lemma_skip_of_concat(data, rest, 1 + k as int);
                lemma_entries_stable(data.skip(1 + k as int), MAX_TAG_DEPTH as nat, rest);
            },
            Err(_) => {},
        }
    }
}

/// What a measuring function returned, in the terms of the specification.
pub open spec fn measured(res: Result<usize, DeserializeErr>) -> Result<nat, Fault> {
    match res {
        Ok(n) => Ok(n as nat),
        Err(e) => Err(e@),
    }
}

fn measure_sized(data: &[u8], size: usize) -> (res: Result<usize, DeserializeErr>)
    ensures
        measured(res) == sized_extent(data@, size as nat),
{
    if data.len() < size {
        Err(DeserializeErr::Eof)
    } else {
        Ok(size)
    }
}

fn measure_array(data: &[u8], width: u64) -> (res: Result<usize, DeserializeErr>)
    requires
        width <= 8,
    ensures
        measured(res) == array_extent(data@, width as nat),
{
    let Deserialized { value: raw, data: _ } = read_int(data)?;
    let count = i32_from_bits(raw);
    if count < 0 {
        return Err(DeserializeErr::NbtBadLength(count as isize));
    }
    proof {
        assert((count as u64) * width <= 0x4_0000_0000) by (nonlinear_arith)
            requires
                0 <= count <= 0x7fff_ffff,
                width <= 8,
        ;
    }
    let wide: u64 = 4 + (count as u64) * width;
    if (data.len() as u64) < wide {
        Err(DeserializeErr::Eof)
    } else {
        Ok(wide as usize)
    }
}

fn measure_text(data: &[u8]) -> (res: Result<usize, DeserializeErr>)
    ensures
        measured(res) == text_extent(data@),
{
    let Deserialized { value: len, data: _ } = read_short(data)?;
    let wide: u64 = 2 + len as u64;
    if (data.len() as u64) < wide {
        Err(DeserializeErr::Eof)
    } else {
        Ok(wide as usize)
    }
}

fn measure_payload(id: u8, data: &[u8], depth: usize) -> (res: Result<usize, DeserializeErr>)
    ensures
        measured(res) == payload_extent(id, data@, depth as nat),
    decreases depth, 0nat, 0nat,
{
    match id {
        1 => measure_sized(data, 1),
        2 => measure_sized(data, 2),
        3 | 5 => measure_sized(data, 4),
        4 | 6 => measure_sized(data, 8),
        7 => measure_array(data, 1),
        8 => measure_text(data),
        9 => {
            if data.len() < 5 {
                return Err(DeserializeErr::Eof);
            }
            let element = data[0];
            let Deserialized { value: raw, data: items } = read_int(
                slice_subrange(data, 1, data.len()),
            )?;
            proof {
                assert(data@.skip(1).skip(4) =~= data@.skip(5));
            }
            let count = i32_from_bits(raw);
            if count < 0 {
                Err(DeserializeErr::NbtBadLength(count as isize))
            } else if count == 0 {
                Ok(5)
            } else if element == 0 || element > 12 {
                Err(DeserializeErr::NbtUnknownTagType(element))
            } else if depth == 0 {
                Err(DeserializeErr::NbtBadLength(513))
            } else {
                let n = measure_items(element, count as u32, items, depth - 1)?;
                proof {
                    lemma_items_within(element, count as nat, items@, (depth - 1) as nat);
                }
                Ok(5 + n)
            }
        },
        10 => {
            if depth == 0 {
                Err(DeserializeErr::NbtBadLength(513))
            } else {
                measure_entries(data, depth - 1)
            }
        },
        11 => measure_array(data, 4),
        12 => measure_array(data, 8),
        other => Err(DeserializeErr::NbtUnknownTagType(other)),
    }
}

fn measure_items(id: u8, count: u32, data: &[u8], depth: usize) -> (res: Result<
    usize,
    DeserializeErr,
>)
    ensures
        measured(res) == items_extent(id, count as nat, data@, depth as nat),
    decreases depth, 1nat, count,
{
    let mut total: usize = 0;
    let mut i: u32 = 0;
    proof {
        assert(data@.skip(0) =~= data@);
    }
    while i < count
        invariant
            i <= count,
            total <= data@.len(),
            match items_extent(id, (count - i) as nat, data@.skip(total as int), depth as nat) {
                Ok(m) => items_extent(id, count as nat, data@, depth as nat) == Ok::<nat, Fault>(
                    total as nat + m,
                ),
                Err(e) => items_extent(id, count as nat, data@, depth as nat) == Err::<
                    nat,
                    Fault,
                >(e),
            },
        decreases count - i,
    {
        let rest = slice_subrange(data, total, data.len());
        let n = measure_payload(id, rest, depth)?;
        proof {
            lemma_payload_within(id, rest@, depth as nat);
            assert(data@.skip(total as int).skip(n as int) =~= data@.skip(total + n));
        }
        total = total + n;
        i = i + 1;
    }
    Ok(total)
}

fn measure_entries(data: &[u8], depth: usize) -> (res: Result<usize, DeserializeErr>)
    ensures
        measured(res) == entries_extent(data@, depth as nat),
    decreases depth, 1nat, data@.len(),
{
    let mut total: usize = 0;
    proof {
        assert(data@.skip(0) =~= data@);
    }
    loop
        invariant
            total <= data@.len(),
            match entries_extent(data@.skip(total as int), depth as nat) {
                Ok(m) => entries_extent(data@, depth as nat) == Ok::<nat, Fault>(total as nat + m),
                Err(e) => entries_extent(data@, depth as nat) == Err::<nat, Fault>(e),
            },
        decreases data@.len() - total,
    {
        let rest = slice_subrange(data, total, data.len());
        if rest.len() == 0 {
            return Err(DeserializeErr::Eof);
        }
        let kind = rest[0];
        if kind == 0 {
            return Ok(total + 1);
        }
        if kind > 12 {
            return Err(DeserializeErr::NbtUnknownTagType(kind));
        }
        let k = measure_text(slice_subrange(rest, 1, rest.len()))?;
        let n = measure_payload(kind, slice_subrange(rest, 1 + k, rest.len()), depth)?;
        proof {
            lemma_payload_within(kind, rest@.skip(1 + k), depth as nat);
            assert(rest@.skip(1 + k + n) =~= data@.skip(total + 1 + k + n));
        }
        total = total + 1 + k + n;
    }
}

/// Finds where the tree at the front of `data` ends.
pub fn measure_named_tag(data: &[u8]) -> (res: Result<usize, DeserializeErr>)
    ensures
        measured(res) == named_tag_extent(data@),
{
    if data.len() == 0 {
        return Err(DeserializeErr::Eof);
    }
    if data[0] != 10 {
        return Err(DeserializeErr::NbtInvalidStartTag(data[0]));
    }
    let k = measure_text(slice_subrange(data, 1, data.len()))?;
    let entries = slice_subrange(data, 1 + k, data.len());
    proof {
        assert(data@.skip(1).skip(k as int) =~= data@.skip(1 + k));
    }
    let n = measure_entries(entries, MAX_TAG_DEPTH)?;
    proof {
        lemma_entries_within(entries@, MAX_TAG_DEPTH as nat);
    }
    Ok(1 + k + n)
}

proof fn lemma_take_then_rest(data: Seq<u8>, n: int)
    requires
        0 <= n <= data.len(),
    ensures
        data.take(n) + data.skip(n) == data,
{
    assert(data.take(n) + data.skip(n) =~= data);
}

/// A payload is measured from its own bytes alone: cut off behind it, it
/// measures the same.
pub proof fn lemma_payload_exact(id: u8, data: Seq<u8>, depth: nat)
    ensures
        payload_extent(id, data, depth) matches Ok(n) ==> n <= data.len() && payload_extent(
            id,
            data.take(n as int),
            depth,
        ) == Ok::<nat, Fault>(n),
    decreases depth, 0nat, 0nat,
{
    lemma_payload_within(id, data, depth);
    match payload_extent(id, data, depth) {
        Ok(n) => {
            let cut = data.take(n as int);
            if id == 7 || id == 11 || id == 12 {
                assert(be_u32(cut) == be_u32(data));
            } else if id == 8 {
                assert(be_u16(cut) == be_u16(data));
            } else if id == TAG_LIST {
                assert(cut.skip(1) =~= data.skip(1).take(n - 1));
                assert(be_u32(cut.skip(1)) == be_u32(data.skip(1)));
                let count = bits_i32(be_u32(data.skip(1))) as nat;
                if count > 0 {
                    lemma_items_exact(data[0], count, data.skip(5), (depth - 1) as nat);
                    assert(cut.skip(5) =~= data.skip(5).take(n - 5));
                }
            } else if id == TAG_COMPOUND {
                lemma_entries_exact(data, (depth - 1) as nat);
            }
        },
        Err(_) => {},
    }
}

pub proof fn lemma_items_exact(id: u8, count: nat, data: Seq<u8>, depth: nat)
    ensures
        items_extent(id, count, data, depth) matches Ok(n) ==> n <= data.len() && items_extent(
            id,
            count,
            data.take(n as int),
            depth,
        ) == Ok::<nat, Fault>(n),
    decreases depth, 1nat, count,
{
    lemma_items_within(id, count, data, depth);
    if count > 0 {
        match items_extent(id, count, data, depth) {
            Ok(total) => {
                let first = payload_extent(id, data, depth)->Ok_0;
                let others = items_extent(
                    id,
                    (count - 1) as nat,
                    data.skip(first as int),
                    depth,
                )->Ok_0;
                let cut = data.take(total as int);
                lemma_payload_exact(id, data, depth);
                lemma_payload_stable(
                    id,
                    data.take(first as int),
                    depth,
                    data.subrange(first as int, total as int),
                );
                assert(data.take(first as int) + data.subrange(first as int, total as int) =~= cut);
                lemma_items_exact(id, (count - 1) as nat, data.skip(first as int), depth);
                assert(cut.skip(first as int) =~= data.skip(first as int).take(others as int));
            },
            Err(_) => {},
        }
    }
}

pub proof fn lemma_entries_exact(data: Seq<u8>, depth: nat)
    ensures
        entries_extent(data, depth) matches Ok(n) ==> n <= data.len() && entries_extent(
            data.take(n as int),
            depth,
        ) == Ok::<nat, Fault>(n),
    decreases depth, 1nat, data.len(),
{
    lemma_entries_within(data, depth);
    match entries_extent(data, depth) {
        Ok(total) => {
            let cut = data.take(total as int);
            if data[0] != TAG_END {
                let k = text_extent(data.skip(1))->Ok_0;
                let behind_name = data.skip(1 + k as int);
                let n = payload_extent(data[0], behind_name, depth)->Ok_0;
                let m = entries_extent(data.skip(1 + k + n as int), depth)->Ok_0;
                lemma_entries_within(data.skip(1 + k + n as int), depth);
                assert(cut.skip(1) =~= data.skip(1).take(total - 1));
                assert(be_u16(cut.skip(1)) == be_u16(data.skip(1)));
                assert(cut.skip(1 + k as int) =~= behind_name.take(n + m as int));
                lemma_payload_exact(data[0], behind_name, depth);
                lemma_payload_stable(
                    data[0],
                    behind_name.take(n as int),
                    depth,
                    behind_name.subrange(n as int, n + m as int),
                );
                assert(behind_name.take(n as int) + behind_name.subrange(n as int, n + m as int)
                    =~= behind_name.take(n + m as int));
                lemma_entries_exact(data.skip(1 + k + n as int), depth);
                assert(cut.skip(1 + k + n as int) =~= data.skip(1 + k + n as int).take(m as int));
            }
        },
        Err(_) => {},
    }
}

/// A tree is measured from its own bytes alone.
pub proof fn lemma_named_tag_exact(data: Seq<u8>)
    ensures
        named_tag_extent(data) matches Ok(n) ==> n <= data.len() && named_tag_extent(
            data.take(n as int),
        ) == Ok::<nat, Fault>(n),
{
    lemma_named_tag_within(data);
    match named_tag_extent(data) {
        Ok(total) => {
            let cut = data.take(total as int);
            let k = text_extent(data.skip(1))->Ok_0;
            let n = entries_extent(data.skip(1 + k as int), MAX_TAG_DEPTH as nat)->Ok_0;
            assert(cut.skip(1) =~= data.skip(1).take(total - 1));
            assert(be_u16(cut.skip(1)) == be_u16(data.skip(1)));
            lemma_entries_exact(data.skip(1 + k as int), MAX_TAG_DEPTH as nat);
            assert(cut.skip(1 + k as int) =~= data.skip(1 + k as int).take(n as int));
        },
        Err(_) => {},
    }
}

#[verifier::external_type_specification]
#[verifier::external_body]
pub struct ExBlob(nbt::Blob);

/// `nbt::Blob::from_reader` on a byte slice: the tree that the bytes spell,
/// where the outside decoder accepts the text in them. The bytes must be
/// exactly one measured tree: the decoder makes room from the counts it reads
/// and descends once per level of nesting, and in a measured tree no count
/// exceeds the bytes that follow it and no nesting the depth limit.
#[verifier::external_body]
fn read_blob(data: &[u8]) -> (res: Option<nbt::Blob>)
    requires
        named_tag_extent(data@) == Ok::<nat, Fault>(data@.len()),
{
    let mut cursor = data;
    nbt::Blob::from_reader(&mut cursor).ok()
}

/// `nbt::Blob::to_writer` into a fresh vector: the bytes the outside encoder
/// writes for the tree, or nothing where it refuses the tree. The order of a
/// compound's entries is the encoder's to choose.
#[verifier::external_body]
fn write_blob(blob: &nbt::Blob) -> (res: Option<Vec<u8>>) {
    let mut out = Vec::new();
    match blob.to_writer(&mut out) {
        Ok(()) => Some(out),
        Err(_) => None,
    }
}

/// A named tag tree, held as the bytes that spell it. The bytes are always
/// exactly one tree that has been measured.
#[derive(PartialEq, Eq, Debug)]
pub struct NamedNbtTag {
    bytes: Vec<u8>,
}

impl Clone for NamedNbtTag {
    fn clone(&self) -> (res: Self)
        ensures
            res.spec_bytes() == self.spec_bytes(),
    {
        proof {
            use_type_invariant(self);
        }
        NamedNbtTag { bytes: slice_to_vec(self.bytes.as_slice()) }
    }
}

impl NamedNbtTag {
    /// The bytes that spell the tree.
    pub closed spec fn spec_bytes(&self) -> Seq<u8> {
        self.bytes@
    }

    /// The bytes are one whole tree and nothing more.
    pub open spec fn is_measured(&self) -> bool {
        named_tag_extent(self.spec_bytes()) == Ok::<nat, Fault>(self.spec_bytes().len())
    }

    #[verifier::type_invariant]
    spec fn measured_always(&self) -> bool {
        named_tag_extent(self.bytes@) == Ok::<nat, Fault>(self.bytes@.len())
    }

    /// Takes `bytes` as a tree if they are exactly one.
    pub fn from_bytes(bytes: Vec<u8>) -> (res: Option<Self>)
        ensures
            match res {
                Some(tag) => tag.spec_bytes() == bytes@ && tag.is_measured(),
                None => named_tag_extent(bytes@) != Ok::<nat, Fault>(bytes@.len()),
            },
    {
        match measure_named_tag(bytes.as_slice()) {
            Ok(n) => if n == bytes.len() {
                Some(NamedNbtTag { bytes })
            } else {
                None
            },
            Err(_) => None,
        }
    }

    pub fn bytes(&self) -> (res: &[u8])
        ensures
            res@ == self.spec_bytes(),
            self.is_measured(),
    {
        proof {
            use_type_invariant(self);
        }
        self.bytes.as_slice()
    }

    /// The tree as the tag-tree library holds it, where that library accepts
    /// the text in it.
    pub fn tree(&self) -> (res: Option<nbt::Blob>) {
        proof {
            use_type_invariant(self);
        }
        read_blob(self.bytes.as_slice())
    }

    /// The tree that the tag-tree library holds, as bytes; nothing where that
    /// library cannot write it or writes what does not measure as one tree.
    pub fn from_tree(blob: &nbt::Blob) -> (res: Option<Self>)
        ensures
            res matches Some(tag) ==> tag.is_measured(),
    {
        match write_blob(blob) {
            Some(bytes) => Self::from_bytes(bytes),
            None => None,
        }
    }
}

impl Serialize for NamedNbtTag {
    open spec fn wire(&self) -> Seq<u8> {
        self.spec_bytes()
    }

    fn mc_serialize<S: Serializer>(&self, to: &mut S) -> (res: SerializeResult) {
        to.serialize_bytes(self.bytes.as_slice())
    }
}

impl Deserialize for NamedNbtTag {
    type Model = Seq<u8>;

    open spec fn model(&self) -> Seq<u8> {
        self.spec_bytes()
    }

    /// The tree is measured, and its bytes are the value.
    open spec fn decoding(data: Seq<u8>) -> Parsed<Seq<u8>> {
        match named_tag_extent(data) {
            Err(e) => Err(e),
            Ok(n) => Ok((data.take(n as int), data.skip(n as int))),
        }
    }

    proof fn lemma_remainder(data: Seq<u8>) {
        lemma_named_tag_within(data);
    }

    fn mc_deserialize(data: &[u8]) -> (res: DeserializeResult<'_, Self>)
        ensures
            res matches Ok(d) ==> d.value.is_measured(),
    {
        let n = measure_named_tag(data)?;
        proof {
            lemma_named_tag_exact(data@);
        }
        let (head, tail) = data.split_at(n);
        Deserialized::ok(NamedNbtTag { bytes: slice_to_vec(head) }, tail)
    }
}

impl ProtocolType for NamedNbtTag {
    open spec fn legal(&self) -> bool {
        self.is_measured()
    }

    open spec fn self_delimiting() -> bool {
        true
    }

    proof fn lemma_round_trip(&self, rest: Seq<u8>) {
        let bytes = self.spec_bytes();
        lemma_named_tag_stable(bytes, rest);
        assert((bytes + rest).take(bytes.len() as int) =~= bytes);
        assert((bytes + rest).skip(bytes.len() as int) =~= rest);
    }
}

// SLOT
/// A stack of items in an inventory.
#[derive(Debug, PartialEq, Clone)]
pub struct Slot {
    pub item_id: VarInt,
    pub item_count: i8,
    pub nbt: Option<NamedNbtTag>,
}

/// The tree that may follow an item, or the end marker that stands for none.
pub open spec fn decoding_item_tree(data: Seq<u8>) -> Parsed<Option<Seq<u8>>> {
    if data.len() == 0 {
        Err(Fault::Eof)
    } else if data[0] == TAG_END {
        Ok((None, data.skip(1)))
    } else {
        match NamedNbtTag::decoding(data) {
            Err(e) => Err(e),
            Ok((tree, rest)) => Ok((Some(tree), rest)),
        }
    }
}

impl Serialize for Slot {
    /// The item, the count, and the tree or a single end marker.
    open spec fn wire(&self) -> Seq<u8> {
        self.item_id.wire() + self.item_count.wire() + (match self.nbt {
            Some(tree) => tree.wire(),
            None => seq![TAG_END],
        })
    }

    fn mc_serialize<S: Serializer>(&self, to: &mut S) -> (res: SerializeResult) {
        self.item_id.mc_serialize(to)?;
        self.item_count.mc_serialize(to)?;
        match &self.nbt {
            Some(tree) => tree.mc_serialize(to),
            None => to.serialize_byte(TAG_END),
        }
    }
}

impl Deserialize for Slot {
    type Model = (VarInt, i8, Option<Seq<u8>>);

    open spec fn model(&self) -> (VarInt, i8, Option<Seq<u8>>) {
        (self.item_id, self.item_count, self.nbt.model())
    }

    /// The byte behind the count decides: an end marker means no tree and is
    /// consumed; anything else is the first byte of a tree.
    open spec fn decoding(data: Seq<u8>) -> Parsed<(VarInt, i8, Option<Seq<u8>>)> {
        match <(VarInt, i8)>::decoding(data) {
            Err(e) => Err(e),
            Ok(((item_id, item_count), rest)) => match decoding_item_tree(rest) {
                Err(e) => Err(e),
                Ok((tree, rest)) => Ok(((item_id, item_count, tree), rest)),
            },
        }
    }

    proof fn lemma_remainder(data: Seq<u8>) {
        <(VarInt, i8)>::lemma_remainder(data);
        match <(VarInt, i8)>::decoding(data) {
            Ok((_, rest)) => {
                NamedNbtTag::lemma_remainder(rest);
                match decoding_item_tree(rest) {
                    Ok((_, rest2)) => {
                        lemma_suffix_trans(rest2, rest, data);
                    },
                    Err(_) => {},
                }
            },
            Err(_) => {},
        }
    }

    fn mc_deserialize(data: &[u8]) -> (res: DeserializeResult<'_, Self>) {
        let Deserialized { value: front, data: rest } = <(VarInt, i8)>::mc_deserialize(data)?;
        let (item_id, item_count) = front;
        if rest.len() == 0 {
            return Err(DeserializeErr::Eof);
        }
        let id = rest[0];
        match id {
            0x00 => {
                let (_, behind) = rest.split_at(1);
                Deserialized::ok(Slot { item_id, item_count, nbt: None }, behind)
            },
            _ => {
                let Deserialized { value: tree, data: rest } = NamedNbtTag::mc_deserialize(rest)?;
                Deserialized::ok(Slot { item_id, item_count, nbt: Some(tree) }, rest)
            },
        }
    }
}

impl ProtocolType for Slot {
    open spec fn legal(&self) -> bool {
        self.nbt.legal()
    }

    open spec fn self_delimiting() -> bool {
        true
    }

    proof fn lemma_round_trip(&self, rest: Seq<u8>) {
        let tree = match self.nbt {
            Some(tree) => tree.wire(),
            None => seq![TAG_END],
        };
        let front = (self.item_id, self.item_count);
        lemma_tuple2_wire(&front);
        front.lemma_round_trip(tree + rest);
        lemma_concat_assoc(front.wire(), tree, rest);
        match self.nbt {
            Some(t) => {
                t.lemma_round_trip(rest);
                lemma_named_tag_stable(t.spec_bytes(), rest);
            },
            None => {
                assert((tree + rest).skip(1) =~= rest);
            },
        }
    }
}

} // verus!
