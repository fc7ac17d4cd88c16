use mcproto_rs::types::{
    Angle, BytesSerializer, Double, Float, IntPosition, NamedNbtTag, VarInt, VarLong,
};
use mcproto_rs::uuid::UUID4;
use mcproto_rs::{Deserialize, Serialize};
use std::fmt::Debug;

fn encode<S: Serialize>(value: &S) -> Vec<u8> {
    let mut test = BytesSerializer::default();
    value.mc_serialize(&mut test).expect("serialization should succeed");
    test.into_bytes()
}

fn test_type<S: Serialize + Deserialize + PartialEq + Debug>(value: S) {
    let bytes = encode(&value);
    let deserialized =
        S::mc_deserialize(bytes.as_slice()).expect("deserialization should succeed");
    assert!(deserialized.data.is_empty());
    assert_eq!(deserialized.value, value, "deserialized value == serialized value");
    let re_serialized = encode(&deserialized.value);
    assert_eq!(re_serialized, bytes, "serialized value == first serialized bytes");
}

fn test_f32(value: f32) {
    let held = Float { bits: value.to_bits() };
    let bytes = encode(&held);
    assert_eq!(bytes, value.to_be_bytes().to_vec());
    let deserialized = Float::mc_deserialize(bytes.as_slice()).expect("deserialization should succeed");
    assert!(deserialized.data.is_empty());
    assert_eq!(f32::from_bits(deserialized.value.bits), value);
    test_type(held);
}

fn test_f64(value: f64) {
    let held = Double { bits: value.to_bits() };
    let bytes = encode(&held);
    assert_eq!(bytes, value.to_be_bytes().to_vec());
    let deserialized = Double::mc_deserialize(bytes.as_slice()).expect("deserialization should succeed");
    assert!(deserialized.data.is_empty());
    assert_eq!(f64::from_bits(deserialized.value.bits), value);
    test_type(held);
}

#[test]
fn test_bool() {
    test_type(true);
    test_type(false);
}

#[test]
fn test_signed_byte() {
    test_type(0i8);
    test_type(127i8);
    test_type(-15i8);
}

#[test]
fn test_unsigned_byte() {
    test_type(0u8);
    test_type(128u8);
    test_type(255u8);
}

#[test]
fn test_signed_short() {
    test_type(0i16);
    test_type(-88i16);
    test_type(25521i16);
}

#[test]
fn test_unsigned_short() {
    test_type(0u16);
    test_type(1723u16);
    test_type(65534u16);
}

#[test]
fn test_signed_int() {
    test_type(0i32);
    test_type(123127i32);
    test_type(-171238i32);
    test_type(2147483647i32);
}

#[test]
fn test_signed_long() {
    test_type(0i64);
    test_type(123127i64);
    test_type(-12123127i64);
    test_type(2147483647i64);
    test_type(-10170482028482i64);
}

#[test]
fn test_float() {
    test_f32(0.2313f32);
    test_f32(0f32);
    test_f32(123123213f32);
    test_f32(-123123f32);
}

#[test]
fn test_double() {
    test_f64(0.2313f64);
    test_f64(0f64);
    test_f64(123123213f64);
    test_f64(-123123f64);
}

#[test]
fn test_var_int() {
    test_type(VarInt(0));
    test_type(VarInt(1231231));
    test_type(VarInt(2147483647));
    test_type(VarInt(-2147483648));
    test_type(VarInt(-1));
    test_type(VarInt(-1001237));
}

#[test]
fn test_var_long() {
    test_type(VarLong(0));
    test_type(VarLong(1231231));
    test_type(VarLong(12312319123));
    test_type(VarLong(9223372036854775807));
    test_type(VarLong(-1));
    test_type(VarLong(-12312319123));
    test_type(VarLong(-9223372036854775808));
    test_type(VarLong(-1001237));
}

#[test]
fn test_string() {
    test_type(String::from("hello my name is joey 123"));
    test_type(String::from(""));
    test_type(String::from("AAAA"));
    test_type(String::from("hello my name is joey 123").repeat(1000));
}

#[test]
fn test_nbt() {
    let mut root = nbt::Blob::named("root");
    root.insert("abc 123", "test 123").expect("the tree takes a string");
    let tag = NamedNbtTag::from_tree(&root).expect("the tree can be written");
    let back = tag.tree().expect("the tree can be read");
    assert_eq!(back, root);
    test_type(tag);
}

#[test]
fn test_int_position() {
    test_type(IntPosition { x: 12312, y: -32, z: 321312 });

    test_type(IntPosition { x: 12312, y: -32, z: -321312 });

    test_type(IntPosition { x: -12312, y: -32, z: -321312 });

    test_type(IntPosition { x: -12312, y: 32, z: 321312 });

    test_type(IntPosition { x: 0, y: 0, z: 0 });

    test_type(IntPosition { x: 48, y: 232, z: 12 });

    test_type(IntPosition { x: 33554431, y: 2047, z: 33554431 });

    test_type(IntPosition { x: -33554432, y: -2048, z: -33554432 });

    test_type(IntPosition { x: 3, y: 0, z: 110655 });
}

#[test]
fn test_uuid() {
    let mut state: u128 = 0x2545_f491_4f6c_dd1d_9e37_79b9_7f4a_7c15;
    for _ in 0..5 {
        state ^= state << 13;
        state ^= state >> 7;
        state ^= state << 17;
        test_type(UUID4::from(state));
    }
}

#[test]
fn test_angle() {
    test_type(Angle { value: 0 });
    test_type(Angle { value: 24 });
    test_type(Angle { value: 255 });
    test_type(Angle { value: 8 });
}
