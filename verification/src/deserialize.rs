use crate::types::VarInt;
use crate::wire::{is_suffix, Parsed};
use vstd::prelude::*;

verus! {

#[verifier::external_type_specification]
#[verifier::external_body]
pub struct ExFromUtf8Error(std::string::FromUtf8Error);

/// The bytes that a failed conversion to text had been given.
pub uninterp spec fn rejected_bytes(e: std::string::FromUtf8Error) -> Seq<u8>;

/// Why a decode step gave up.
#[derive(Debug)]
pub enum DeserializeErr {
    Eof,
    VarNumTooLong(Vec<u8>),
    NegativeLength(VarInt),
    BadStringEncoding(std::string::FromUtf8Error),
    InvalidBool(u8),
    NbtUnknownTagType(u8),
    NbtBadLength(isize),
    NbtInvalidStartTag(u8),
    CannotUnderstandValue(String),
    FailedJsonDeserialize(String),
}

/// A decode failure as specifications speak of it.
pub enum Fault {
    /// The input ended inside a value.
    Eof,
    /// A variable-length number ran past its byte budget; these are the bytes
    /// read up to there.
    VarNumTooLong(Seq<u8>),
    /// A length or count prefix was below zero.
    NegativeLength(i32),
    /// These bytes were announced as text and are not UTF-8.
    BadStringEncoding(Seq<u8>),
    /// A truth value was neither 0 nor 1.
    InvalidBool(u8),
    NbtUnknownTagType(u8),
    NbtBadLength(int),
    NbtInvalidStartTag(u8),
    /// A number that names no member of a closed set; the text says which.
    CannotUnderstandValue(Seq<char>),
    FailedJsonDeserialize(Seq<char>),
}

impl View for DeserializeErr {
    type V = Fault;

    open spec fn view(&self) -> Fault {
        match self {
            DeserializeErr::Eof => Fault::Eof,
            DeserializeErr::VarNumTooLong(bytes) => Fault::VarNumTooLong(bytes@),
            DeserializeErr::NegativeLength(n) => Fault::NegativeLength(n.0),
            DeserializeErr::BadStringEncoding(e) => Fault::BadStringEncoding(rejected_bytes(*e)),
            DeserializeErr::InvalidBool(b) => Fault::InvalidBool(*b),
            DeserializeErr::NbtUnknownTagType(t) => Fault::NbtUnknownTagType(*t),
            DeserializeErr::NbtBadLength(n) => Fault::NbtBadLength(*n as int),
            DeserializeErr::NbtInvalidStartTag(t) => Fault::NbtInvalidStartTag(*t),
            DeserializeErr::CannotUnderstandValue(text) => Fault::CannotUnderstandValue(text@),
            DeserializeErr::FailedJsonDeserialize(text) => Fault::FailedJsonDeserialize(text@),
        }
    }
}

/// A decoded value together with the part of the input that was not consumed.
pub struct Deserialized<'b, R> {
    pub value: R,
    pub data: &'b [u8],
}

pub type DeserializeResult<'b, R> = Result<Deserialized<'b, R>, DeserializeErr>;

impl<'b, R> Deserialized<'b, R> {
    #[inline]
    pub fn create(value: R, data: &'b [u8]) -> (res: Self)
        ensures
            res.value == value,
            res.data == data,
    {
        Deserialized { value, data }
    }

    #[inline]
    pub fn ok(value: R, rest: &'b [u8]) -> (res: DeserializeResult<'b, R>)
        ensures
            res matches Ok(d) && d.value == value && d.data == rest,
    {
        Ok(Self::create(value, rest))
    }

    /// Puts `other` in place of the value and keeps the remainder.
    #[inline]
    pub fn replace<T>(self, other: T) -> (res: Deserialized<'b, T>)
        ensures
            res.value == other,
            res.data == self.data,
    {
        Deserialized { value: other, data: self.data }
    }

    /// Transforms the value and keeps the remainder.
    #[inline]
    pub fn map<F, T>(self, f: F) -> (res: Deserialized<'b, T>) where F: FnOnce(R) -> T
        requires
            f.requires((self.value,)),
        ensures
            f.ensures((self.value,), res.value),
            res.data == self.data,
    {
        Deserialized { value: f(self.value), data: self.data }
    }

    /// Transforms the value by a step that may fail; on success the remainder is
    /// kept, on failure the step's error is handed on unchanged.
    #[inline]
    pub fn try_map<F, T>(self, f: F) -> (res: DeserializeResult<'b, T>) where
        F: FnOnce(R) -> Result<T, DeserializeErr>,

        requires
            f.requires((self.value,)),
        ensures
            match res {
                Ok(d) => f.ensures((self.value,), Ok(d.value)) && d.data == self.data,
                Err(e) => f.ensures((self.value,), Err(e)),
            },
    {
        match f(self.value) {
            Ok(new_value) => Ok(Deserialized { value: new_value, data: self.data }),
            Err(err) => Err(err),
        }
    }

    /// Continues decoding: the next step gets the value and the remainder.
    #[inline]
    pub fn and_then<F, T>(self, f: F) -> (res: DeserializeResult<'b, T>) where
        F: FnOnce(R, &'b [u8]) -> DeserializeResult<'b, T>,

        requires
            f.requires((self.value, self.data)),
        ensures
            f.ensures((self.value, self.data), res),
    {
        f(self.value, self.data)
    }

    /// The pair form of `create`.
    pub fn from(v: (R, &'b [u8])) -> (res: Self)
        ensures
            res.value == v.0,
            res.data == v.1,
    {
        let (value, data) = v;
        Deserialized { value, data }
    }
}

/// A value that can be read from the front of a byte slice.
pub trait Deserialize: Sized {
    /// The value as mathematics sees it: text as a sequence of characters, a
    /// list as a sequence of models, a record as the tuple of its fields.
    type Model;

    spec fn model(&self) -> Self::Model;

    /// The value at the front of `data`, and the bytes behind it.
    spec fn decoding(data: Seq<u8>) -> Parsed<Self::Model>;

    /// A successful decode leaves exactly a suffix of its input.
    proof fn lemma_remainder(data: Seq<u8>)
        ensures
            Self::decoding(data) matches Ok((_, rest)) ==> is_suffix(rest, data),
    ;

    /// Decodes exactly as `decoding` says: the same value, the same remainder,
    /// the same failure.
    fn mc_deserialize(data: &[u8]) -> (res: DeserializeResult<'_, Self>)
        ensures
            match res {
                Ok(d) => Self::decoding(data@) == Ok::<(Self::Model, Seq<u8>), Fault>(
                    (d.value.model(), d.data@),
                ),
                Err(e) => Self::decoding(data@) == Err::<(Self::Model, Seq<u8>), Fault>(e@),
            },
    ;
}

} // verus!
