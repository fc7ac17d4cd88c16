use mcproto_rs::tag_tree::{measure_named_tag, NamedNbtTag, Slot};
use mcproto_rs::test_macros::BenchSerializer;
use mcproto_rs::types::{
    deserialize_var_num, serialize_var_num, BytesSerializer, FixedInt, IntPosition, JsonText,
    VarInt, VarLong,
};
use mcproto_rs::utils::{read_int, read_long, read_one_byte, read_short, take, write_int, write_long, write_short};
use mcproto_rs::uuid::UUID4;
use mcproto_rs::v1_15_2::{
    deserialize_vec_directly, i16_from_usize, i16_to_usize, i32_from_usize, i32_to_usize,
    i8_from_usize, i8_to_usize, serialize_vec_directly, varint_from_usize, varint_to_usize,
    ByteCountedArray, IntCountedArray, RemainingBytes, ShortCountedArray, VarIntCountedArray,
};
use mcproto_rs::{Deserialize, DeserializeErr, Deserialized, Serialize, Serializer};
use std::fmt::Debug;

fn encode<S: Serialize>(value: &S) -> Vec<u8> {
    let mut out = BytesSerializer::default();
    value.mc_serialize(&mut out).expect("serialization should succeed");
    out.into_bytes()
}

fn round_trip<S: Serialize + Deserialize + PartialEq + Debug>(value: S) {
    let bytes = encode(&value);
    let decoded = S::mc_deserialize(bytes.as_slice()).expect("deserialization should succeed");
    assert!(decoded.data.is_empty());
    assert_eq!(decoded.value, value);
}

fn decode_err<S: Deserialize + Debug>(bytes: &[u8]) -> DeserializeErr {
    match S::mc_deserialize(bytes) {
        Ok(d) => panic!("decoded {:?}", d.value),
        Err(e) => e,
    }
}

#[test]
fn var_int_of_zero_is_one_zero_byte() {
    assert_eq!(encode(&VarInt(0)), vec![0x00]);
    assert_eq!(encode(&VarLong(0)), vec![0x00]);
}

#[test]
fn var_int_of_minus_one_is_five_bytes() {
    assert_eq!(encode(&VarInt(-1)), vec![0xff, 0xff, 0xff, 0xff, 0x0f]);
}

#[test]
fn var_long_of_minus_one_is_ten_bytes() {
    assert_eq!(
        encode(&VarLong(-1)),
        vec![0xff, 0xff, 0xff, 0xff, 0xff, 0xff, 0xff, 0xff, 0xff, 0x01]
    );
}

#[test]
fn var_int_exact_bytes() {
    assert_eq!(encode(&VarInt(1)), vec![0x01]);
    assert_eq!(encode(&VarInt(127)), vec![0x7f]);
    assert_eq!(encode(&VarInt(128)), vec![0x80, 0x01]);
    assert_eq!(encode(&VarInt(300)), vec![0xac, 0x02]);
    assert_eq!(encode(&VarInt(2147483647)), vec![0xff, 0xff, 0xff, 0xff, 0x07]);
    assert_eq!(encode(&VarInt(-2147483648)), vec![0x80, 0x80, 0x80, 0x80, 0x08]);
    assert_eq!(
        encode(&VarLong(9223372036854775807)),
        vec![0xff, 0xff, 0xff, 0xff, 0xff, 0xff, 0xff, 0xff, 0x7f]
    );
}

#[test]
fn var_int_leaves_what_follows() {
    let bytes = [0xac, 0x02, 0x55, 0x66];
    let decoded = VarInt::mc_deserialize(&bytes).expect("decodes");
    assert_eq!(decoded.value, VarInt(300));
    assert_eq!(decoded.data, &[0x55, 0x66]);
}

#[test]
fn var_int_over_budget_fails_with_the_bytes_read() {
    let bytes = [0x80, 0x80, 0x80, 0x80, 0x80, 0x80, 0x01];
    match decode_err::<VarInt>(&bytes) {
        DeserializeErr::VarNumTooLong(read) => assert_eq!(read, vec![0x80; 5]),
        other => panic!("unexpected {:?}", other),
    }
    let bytes = [0xff; 20];
    match decode_err::<VarLong>(&bytes) {
        DeserializeErr::VarNumTooLong(read) => assert_eq!(read, vec![0xff; 10]),
        other => panic!("unexpected {:?}", other),
    }
}

#[test]
fn var_int_cut_short_is_eof() {
    assert!(matches!(decode_err::<VarInt>(&[0x80, 0x80]), DeserializeErr::Eof));
    assert!(matches!(decode_err::<VarInt>(&[]), DeserializeErr::Eof));
}

#[test]
fn var_int_accepts_long_forms_and_wraps() {
    let decoded = VarInt::mc_deserialize(&[0x80, 0x00]).expect("decodes");
    assert_eq!(decoded.value, VarInt(0));
    assert!(decoded.data.is_empty());
    let decoded = VarInt::mc_deserialize(&[0xff, 0xff, 0xff, 0xff, 0x7f]).expect("decodes");
    assert_eq!(decoded.value, VarInt(-1));
}

#[test]
fn var_num_functions() {
    let mut buffer = [0u8; 10];
    let n = serialize_var_num(300, &mut buffer);
    assert_eq!(&buffer[..n], &[0xac, 0x02]);
    let n = serialize_var_num(u64::MAX, &mut buffer);
    assert_eq!(n, 10);
    let decoded = deserialize_var_num(10, &buffer).expect("decodes");
    assert_eq!(decoded.value, u64::MAX);
    assert!(matches!(deserialize_var_num(0, &buffer), Err(DeserializeErr::VarNumTooLong(_))));
}

#[test]
fn empty_string_is_one_zero_byte() {
    assert_eq!(encode(&String::new()), vec![0x00]);
    let decoded = String::mc_deserialize(&[0x00]).expect("decodes");
    assert_eq!(decoded.value, "");
    assert!(decoded.data.is_empty());
}

#[test]
fn string_exact_bytes() {
    assert_eq!(encode(&String::from("AAAA")), vec![0x04, 0x41, 0x41, 0x41, 0x41]);
    assert_eq!(encode(&String::from("\u{e9}")), vec![0x02, 0xc3, 0xa9]);
    let decoded = String::mc_deserialize(&[0x02, 0xc3, 0xa9, 0x07]).expect("decodes");
    assert_eq!(decoded.value, "\u{e9}");
    assert_eq!(decoded.data, &[0x07]);
}

#[test]
fn string_of_negative_length_fails_before_the_rest_is_read() {
    let mut bytes = encode(&VarInt(-5));
    match decode_err::<String>(&bytes) {
        DeserializeErr::NegativeLength(n) => assert_eq!(n, VarInt(-5)),
        other => panic!("unexpected {:?}", other),
    }
    bytes.extend_from_slice(&[0xff, 0xfe, 0xfd]);
    match decode_err::<String>(&bytes) {
        DeserializeErr::NegativeLength(n) => assert_eq!(n, VarInt(-5)),
        other => panic!("unexpected {:?}", other),
    }
}

#[test]
fn string_that_is_not_utf8_fails_with_its_bytes() {
    match decode_err::<String>(&[0x02, 0xc3, 0x28]) {
        DeserializeErr::BadStringEncoding(e) => assert_eq!(e.into_bytes(), vec![0xc3, 0x28]),
        other => panic!("unexpected {:?}", other),
    }
}

#[test]
fn string_cut_short_is_eof() {
    assert!(matches!(decode_err::<String>(&[0x05, 0x41]), DeserializeErr::Eof));
}

#[test]
fn bool_bytes() {
    assert_eq!(encode(&true), vec![0x01]);
    assert_eq!(encode(&false), vec![0x00]);
    match decode_err::<bool>(&[0x02]) {
        DeserializeErr::InvalidBool(b) => assert_eq!(b, 2),
        other => panic!("unexpected {:?}", other),
    }
    assert!(matches!(decode_err::<bool>(&[]), DeserializeErr::Eof));
}

#[test]
fn fixed_width_integers_are_big_endian() {
    assert_eq!(encode(&0x1234u16), vec![0x12, 0x34]);
    assert_eq!(encode(&-2i16), vec![0xff, 0xfe]);
    assert_eq!(encode(&0x01020304i32), vec![1, 2, 3, 4]);
    assert_eq!(encode(&-1i32), vec![0xff; 4]);
    assert_eq!(encode(&0x0102030405060708i64), vec![1, 2, 3, 4, 5, 6, 7, 8]);
    assert_eq!(encode(&-128i8), vec![0x80]);
    assert_eq!(write_short(0xabcd), [0xab, 0xcd]);
    assert_eq!(write_int(0xdeadbeef), [0xde, 0xad, 0xbe, 0xef]);
    assert_eq!(write_long(0x0123456789abcdef), [0x01, 0x23, 0x45, 0x67, 0x89, 0xab, 0xcd, 0xef]);
    assert_eq!(read_short(&[0xab, 0xcd, 1]).expect("reads").value, 0xabcd);
    assert_eq!(read_int(&[0xde, 0xad, 0xbe, 0xef]).expect("reads").value, 0xdeadbeef);
    assert_eq!(
        read_long(&[0x01, 0x23, 0x45, 0x67, 0x89, 0xab, 0xcd, 0xef]).expect("reads").value,
        0x0123456789abcdef
    );
    assert!(matches!(read_int(&[1, 2, 3]), Err(DeserializeErr::Eof)));
    assert!(matches!(decode_err::<i64>(&[0; 7]), DeserializeErr::Eof));
}

#[test]
fn reading_bytes() {
    let d = read_one_byte(&[7, 8]).expect("reads");
    assert_eq!((d.value, d.data), (7, &[8u8][..]));
    assert!(matches!(read_one_byte(&[]), Err(DeserializeErr::Eof)));
    let d = take(2, &[1, 2, 3]).expect("takes");
    assert_eq!((d.value, d.data), (&[1u8, 2][..], &[3u8][..]));
    assert!(matches!(take(4, &[1, 2, 3]), Err(DeserializeErr::Eof)));
}

#[test]
fn uuid_is_sixteen_bytes_in_order() {
    let id = UUID4::from(0x000102030405060708090a0b0c0d0e0f);
    assert_eq!(encode(&id), (0u8..16).collect::<Vec<u8>>());
    assert_eq!(id.to_u128(), 0x000102030405060708090a0b0c0d0e0f);
    assert!(matches!(decode_err::<UUID4>(&[0; 15]), DeserializeErr::Eof));
    round_trip(UUID4::from(u128::MAX));
    round_trip(UUID4::from(0));
}

#[test]
fn position_exact_bits() {
    assert_eq!(encode(&IntPosition { x: 1, y: 2, z: 3 }), vec![0, 0, 0, 0x40, 0, 0, 0x30, 0x02]);
    assert_eq!(
        encode(&IntPosition { x: -1, y: -1, z: -1 }),
        vec![0xff, 0xff, 0xff, 0xff, 0xff, 0xff, 0xff, 0xff]
    );
    assert_eq!(
        encode(&IntPosition { x: 33554431, y: 2047, z: 33554431 }),
        vec![0x7f, 0xff, 0xff, 0xdf, 0xff, 0xff, 0xf7, 0xff]
    );
    assert_eq!(
        encode(&IntPosition { x: -33554432, y: -2048, z: -33554432 }),
        vec![0x80, 0x00, 0x00, 0x20, 0x00, 0x00, 0x08, 0x00]
    );
    let decoded = IntPosition::mc_deserialize(&[0x80, 0, 0, 0x20, 0, 0, 0x08, 0]).expect("decodes");
    assert_eq!(decoded.value, IntPosition { x: -33554432, y: -2048, z: -33554432 });
}

#[test]
fn position_out_of_range_is_cut_to_its_field() {
    let far = IntPosition { x: 33554432, y: 2048, z: 0 };
    let bytes = encode(&far);
    let decoded = IntPosition::mc_deserialize(&bytes).expect("decodes");
    assert_eq!(decoded.value, IntPosition { x: -33554432, y: -2048, z: 0 });
}

#[test]
fn optional_values() {
    let decoded = <Option<VarInt>>::mc_deserialize(&[0x00]).expect("decodes");
    assert_eq!(decoded.value, None);
    assert!(decoded.data.is_empty());
    let decoded = <Option<VarInt>>::mc_deserialize(&[0x01, 0xac, 0x02]).expect("decodes");
    assert_eq!(decoded.value, Some(VarInt(300)));
    assert!(decoded.data.is_empty());
    assert_eq!(encode(&Some(String::from("A"))), vec![0x01, 0x01, 0x41]);
    assert_eq!(encode(&None::<String>), vec![0x00]);
    assert!(matches!(decode_err::<Option<VarInt>>(&[0x01]), DeserializeErr::Eof));
    assert!(matches!(decode_err::<Option<VarInt>>(&[0x03]), DeserializeErr::InvalidBool(3)));
    round_trip(Some(Some(-7i64)));
}

#[test]
fn counted_arrays() {
    let list = VarIntCountedArray { data: vec![VarInt(1), VarInt(300)] };
    assert_eq!(encode(&list), vec![0x02, 0x01, 0xac, 0x02]);
    round_trip(list);
    let list = ShortCountedArray { data: vec![String::from("a"), String::from("bc")] };
    assert_eq!(encode(&list), vec![0x00, 0x02, 0x01, 0x61, 0x02, 0x62, 0x63]);
    round_trip(list);
    let list = IntCountedArray { data: vec![true, false] };
    assert_eq!(encode(&list), vec![0, 0, 0, 2, 1, 0]);
    round_trip(list);
    let list = ByteCountedArray { data: vec![0x0102u16] };
    assert_eq!(encode(&list), vec![1, 1, 2]);
    round_trip(list);
    round_trip(VarIntCountedArray::<i32> { data: vec![] });
    let from: VarIntCountedArray<u8> = vec![1u8, 2].into();
    assert_eq!(from.data, vec![1, 2]);
}

#[test]
fn counted_array_with_a_negative_count_is_an_error() {
    assert!(matches!(
        decode_err::<VarIntCountedArray<u8>>(&encode(&VarInt(-1))),
        DeserializeErr::NegativeLength(VarInt(-1))
    ));
    assert!(matches!(
        decode_err::<ShortCountedArray<u8>>(&[0xff, 0xfe]),
        DeserializeErr::NegativeLength(VarInt(-2))
    ));
    assert!(matches!(
        decode_err::<IntCountedArray<u8>>(&[0x80, 0, 0, 0]),
        DeserializeErr::NegativeLength(VarInt(-2147483648))
    ));
    assert!(matches!(
        decode_err::<ByteCountedArray<u8>>(&[0x80]),
        DeserializeErr::NegativeLength(VarInt(-128))
    ));
}

#[test]
fn counted_array_cut_short_is_eof() {
    assert!(matches!(
        decode_err::<VarIntCountedArray<u16>>(&[0xff, 0xff, 0xff, 0xff, 0x07, 0, 1]),
        DeserializeErr::Eof
    ));
    assert!(matches!(decode_err::<VarIntCountedArray<bool>>(&[2, 1, 9]), DeserializeErr::InvalidBool(9)));
}

#[test]
fn count_conversions() {
    assert_eq!(varint_to_usize(VarInt(5)), 5);
    assert_eq!(varint_to_usize(VarInt(-1)), usize::MAX);
    assert_eq!(varint_from_usize(300), VarInt(300));
    assert_eq!(i16_to_usize(-2), usize::MAX - 1);
    assert_eq!(i16_from_usize(65535), -1);
    assert_eq!(i32_to_usize(i32::MIN), usize::MAX - (i32::MAX as usize));
    assert_eq!(i32_from_usize(7), 7);
    assert_eq!(i8_to_usize(127), 127);
    assert_eq!(i8_from_usize(200), -56);
}

#[test]
fn lists_without_a_count() {
    let items = vec![VarInt(1), VarInt(128)];
    let mut out = BytesSerializer::default();
    serialize_vec_directly(&items, &mut out).expect("writes");
    let bytes = out.into_bytes();
    assert_eq!(bytes, vec![0x01, 0x80, 0x01]);
    let Deserialized { value, data } = deserialize_vec_directly::<VarInt>(2, &bytes).expect("reads");
    assert_eq!(value, items);
    assert!(data.is_empty());
    assert!(matches!(deserialize_vec_directly::<VarInt>(3, &bytes), Err(DeserializeErr::Eof)));
}

#[test]
fn remaining_bytes_take_everything() {
    let decoded = RemainingBytes::mc_deserialize(&[1, 2, 3]).expect("decodes");
    assert_eq!(decoded.value.data, vec![1, 2, 3]);
    assert!(decoded.data.is_empty());
    let decoded = RemainingBytes::mc_deserialize(&[]).expect("decodes");
    assert!(decoded.value.data.is_empty());
    assert_eq!(encode(&RemainingBytes { data: vec![9, 8] }), vec![9, 8]);
    let from: RemainingBytes = vec![4u8].into();
    assert_eq!(from.data, vec![4]);
}

#[test]
fn fixed_point_travels_as_its_integer() {
    assert_eq!(encode(&FixedInt::from_raw(0x0102)), vec![0, 0, 1, 2]);
    assert_eq!(FixedInt::mc_deserialize(&[0xff; 4]).expect("decodes").value.raw(), -1);
    round_trip(FixedInt::from_raw(i32::MIN));
}

#[test]
fn json_text_travels_as_a_string() {
    let text = JsonText { json: String::from("{\"text\":\"hi\"}") };
    let bytes = encode(&text);
    assert_eq!(bytes[0] as usize, text.json.len());
    assert_eq!(&bytes[1..], text.json.as_bytes());
    round_trip(text);
}

#[test]
fn sinks() {
    let mut sink = BytesSerializer::with_capacity(16);
    sink.serialize_byte(1).expect("writes");
    sink.serialize_bytes(&[2, 3]).expect("writes");
    assert_eq!(sink.into_bytes(), vec![1, 2, 3]);
    let mut bench = BenchSerializer::default();
    assert_eq!(bench.len(), 0);
    VarInt(300).mc_serialize(&mut bench).expect("writes");
    assert_eq!(bench.len(), 2);
    bench.reset();
    assert_eq!(bench.len(), 0);
}

#[test]
fn decode_result_helpers() {
    let data = [1u8, 2, 3];
    let d = Deserialized::create(5u8, &data[1..]);
    assert_eq!((d.value, d.data), (5, &data[1..]));
    let d = Deserialized::ok(5u8, &data[..]).expect("is ok");
    let d = d.replace("x");
    assert_eq!((d.value, d.data), ("x", &data[..]));
    let d = d.map(|s| s.len());
    assert_eq!((d.value, d.data), (1, &data[..]));
    let d = d.try_map(|n| Ok(n + 1)).expect("is ok");
    assert_eq!((d.value, d.data), (2, &data[..]));
    let failed = Deserialized::create(1u8, &data[..]).try_map(|_| Err::<u8, _>(DeserializeErr::Eof));
    assert!(matches!(failed, Err(DeserializeErr::Eof)));
    let d = d.and_then(|n, rest| Deserialized::ok(n + rest.len(), &rest[1..])).expect("is ok");
    assert_eq!((d.value, d.data), (5, &data[1..]));
    let d = Deserialized::from((9i8, &data[..]));
    assert_eq!((d.value, d.data), (9, &data[..]));
}

fn named_compound(entries: &[u8]) -> Vec<u8> {
    let mut bytes = vec![0x0a, 0x00, 0x01, b'r'];
    bytes.extend_from_slice(entries);
    bytes.push(0x00);
    bytes
}

#[test]
fn tag_tree_is_measured() {
    let empty = named_compound(&[]);
    assert_eq!(measure_named_tag(&empty).expect("measures"), 5);
    let mut entries = vec![0x01, 0x00, 0x01, b'a', 0x7f];
    entries.extend_from_slice(&[0x08, 0x00, 0x01, b'b', 0x00, 0x02, b'h', b'i']);
    entries.extend_from_slice(&[0x09, 0x00, 0x01, b'c', 0x03, 0, 0, 0, 2, 0, 0, 0, 1, 0, 0, 0, 2]);
    entries.extend_from_slice(&[0x0a, 0x00, 0x01, b'd', 0x00]);
    entries.extend_from_slice(&[0x0b, 0x00, 0x01, b'e', 0, 0, 0, 1, 0, 0, 0, 9]);
    let mut bytes = named_compound(&entries);
    let whole = bytes.len();
    bytes.extend_from_slice(&[0xaa, 0xbb]);
    assert_eq!(measure_named_tag(&bytes).expect("measures"), whole);
    let decoded = NamedNbtTag::mc_deserialize(&bytes).expect("decodes");
    assert_eq!(decoded.value.bytes(), &bytes[..whole]);
    assert_eq!(decoded.data, &[0xaa, 0xbb]);
    assert_eq!(encode(&decoded.value), bytes[..whole].to_vec());
}

#[test]
fn tag_tree_errors() {
    assert!(matches!(measure_named_tag(&[]), Err(DeserializeErr::Eof)));
    assert!(matches!(measure_named_tag(&[0x08, 0, 0]), Err(DeserializeErr::NbtInvalidStartTag(8))));
    assert!(matches!(measure_named_tag(&[0x0a, 0, 0]), Err(DeserializeErr::Eof)));
    assert!(matches!(
        measure_named_tag(&named_compound(&[0x0d, 0x00, 0x00])),
        Err(DeserializeErr::NbtUnknownTagType(13))
    ));
    assert!(matches!(
        measure_named_tag(&named_compound(&[0x07, 0x00, 0x00, 0xff, 0xff, 0xff, 0xff])),
        Err(DeserializeErr::NbtBadLength(-1))
    ));
    assert!(matches!(
        measure_named_tag(&named_compound(&[0x09, 0x00, 0x00, 0x01, 0x7f, 0xff, 0xff, 0xff])),
        Err(DeserializeErr::Eof)
    ));
    assert!(matches!(
        measure_named_tag(&named_compound(&[0x09, 0x00, 0x00, 0x00, 0, 0, 0, 1])),
        Err(DeserializeErr::NbtUnknownTagType(0))
    ));
    let mut deep = Vec::new();
    for _ in 0..600 {
        deep.extend_from_slice(&[0x0a, 0x00, 0x00]);
    }
    deep.extend_from_slice(&[0x00; 600]);
    assert!(matches!(
        measure_named_tag(&named_compound(&deep)),
        Err(DeserializeErr::NbtBadLength(513))
    ));
    assert!(NamedNbtTag::from_bytes(vec![0x0a, 0, 0, 0, 0]).is_none());
    assert!(NamedNbtTag::from_bytes(vec![0x0a, 0, 0, 0]).is_some());
}

#[test]
fn tag_tree_and_the_outside_library_agree() {
    let mut root = nbt::Blob::named("root");
    root.insert("count", 3i8).expect("takes");
    root.insert("numbers", vec![1i32, 2, 3]).expect("takes");
    let tag = NamedNbtTag::from_tree(&root).expect("writes");
    let mut written = Vec::new();
    root.to_writer(&mut written).expect("writes");
    assert_eq!(tag.bytes().len(), written.len());
    assert_eq!(tag.tree().expect("reads"), root);
    let other = NamedNbtTag::from_bytes(named_compound(&[0x01, 0x00, 0x01, b'a', 0x05])).expect("is a tree");
    let mut expected = nbt::Blob::named("r");
    expected.insert("a", 5i8).expect("takes");
    assert_eq!(other.tree().expect("reads"), expected);
    assert_eq!(other.clone(), other);
}

#[test]
fn slots() {
    let none = Slot { item_id: VarInt(300), item_count: -3, nbt: None };
    assert_eq!(encode(&none), vec![0xac, 0x02, 0xfd, 0x00]);
    round_trip(none);
    let tree = NamedNbtTag::from_bytes(named_compound(&[0x01, 0x00, 0x01, b'a', 0x05])).expect("is a tree");
    let some = Slot { item_id: VarInt(1), item_count: 64, nbt: Some(tree.clone()) };
    let mut expected = vec![0x01, 0x40];
    expected.extend_from_slice(tree.bytes());
    assert_eq!(encode(&some), expected);
    round_trip(some);
    assert!(matches!(decode_err::<Slot>(&[0x01, 0x40]), DeserializeErr::Eof));
    assert!(matches!(decode_err::<Slot>(&[0x01, 0x40, 0x03]), DeserializeErr::NbtInvalidStartTag(3)));
    round_trip(Some(Slot { item_id: VarInt(5), item_count: 1, nbt: None }));
}

#[test]
fn var_int_and_its_number() {
    let v: VarInt = 17.into();
    assert_eq!(v, VarInt(17));
    let n: i32 = VarInt(-4).into();
    assert_eq!(n, -4);
    assert_eq!(VarInt(-4).to_string(), "VarInt(-4)");
}
