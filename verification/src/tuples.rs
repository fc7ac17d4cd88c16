use crate::deserialize::{Deserialize, DeserializeResult, Deserialized};
use crate::protocol::ProtocolType;
use crate::serialize::{Serialize, SerializeResult, Serializer};
use crate::wire::{lemma_concat_assoc, lemma_suffix_refl, lemma_suffix_trans, Parsed};
use vstd::prelude::*;

verus! {

// Records travel as their fields, one behind the other. The codecs of tuples say
// what that means once and for all; a record only names its fields in order.
//
// A tuple of n parts is defined from the tuple of its first n - 1 parts and its
// last part. The definitions are opaque, so that a proof about a record does not
// unfold every field of every record it mentions; the lemmas beside them state
// each definition in flat form where a proof needs that.
//
// A tuple of n parts is defined from the tuple of its first n - 1 parts and its
// last part. The definitions are opaque, so that a proof about a record does not
// unfold every field of every record it mentions; the lemmas beside them state
// each definition in flat form where a proof needs that.
//
// A tuple of n parts is defined from the tuple of its first n - 1 parts and its
// last part. The definitions are opaque, so that a proof about a record does not
// unfold every field of every record it mentions; the lemmas beside them state
// each definition in flat form where a proof needs that.
//
// A tuple of n parts is defined from the tuple of its first n - 1 parts and its
// last part. The definitions are opaque, so that a proof about a record does not
// unfold every field of every record it mentions; the lemmas beside them state
// each definition in flat form where a proof needs that.
//
// A tuple of n parts is defined from the tuple of its first n - 1 parts and its
// last part. The definitions are opaque, so that a proof about a record does not
// unfold every field of every record it mentions; the lemmas beside them state
// each definition in flat form where a proof needs that.
//
// A tuple of n parts is defined from the tuple of its first n - 1 parts and its
// last part. The definitions are opaque, so that a proof about a record does not
// unfold every field of every record it mentions; the lemmas beside them state
// each definition in flat form where a proof needs that.
//
// A tuple of n parts is defined from the tuple of its first n - 1 parts and its
// last part. The definitions are opaque, so that a proof about a record does not
// unfold every field of every record it mentions; the lemmas beside them state
// each definition in flat form where a proof needs that.
//
// A tuple of n parts is defined from the tuple of its first n - 1 parts and its
// last part. The definitions are opaque, so that a proof about a record does not
// unfold every field of every record it mentions; the lemmas beside them state
// each definition in flat form where a proof needs that.
//
// A tuple of n parts is defined from the tuple of its first n - 1 parts and its
// last part. The definitions are opaque, so that a proof about a record does not
// unfold every field of every record it mentions; the lemmas beside them state
// each definition in flat form where a proof needs that.
//
// A tuple of n parts is defined from the tuple of its first n - 1 parts and its
// last part. The definitions are opaque, so that a proof about a record does not
// unfold every field of every record it mentions; the lemmas beside them state
// each definition in flat form where a proof needs that.
//
// A tuple of n parts is defined from the tuple of its first n - 1 parts and its
// last part. The definitions are opaque, so that a proof about a record does not
// unfold every field of every record it mentions; the lemmas beside them state
// each definition in flat form where a proof needs that.
//
// A tuple of n parts is defined from the tuple of its first n - 1 parts and its
// last part. The definitions are opaque, so that a proof about a record does not
// unfold every field of every record it mentions; the lemmas beside them state
// each definition in flat form where a proof needs that.
//
// A tuple of n parts is defined from the tuple of its first n - 1 parts and its
// last part. The definitions are opaque, so that a proof about a record does not
// unfold every field of every record it mentions; the lemmas beside them state
// each definition in flat form where a proof needs that.
//
// A tuple of n parts is defined from the tuple of its first n - 1 parts and its
// last part. The definitions are opaque, so that a proof about a record does not
// unfold every field of every record it mentions; the lemmas beside them state
// each definition in flat form where a proof needs that.
//
// A tuple of n parts is defined from the tuple of its first n - 1 parts and its
// last part. The definitions are opaque, so that a proof about a record does not
// unfold every field of every record it mentions; the lemmas beside them state
// each definition in flat form where a proof needs that.
/// A record with no fields: no bytes at all.
impl Serialize for () {
    open spec fn wire(&self) -> Seq<u8> {
        Seq::empty()
    }

    fn mc_serialize<S: Serializer>(&self, to: &mut S) -> (res: SerializeResult) {
        proof {
            assert(to.written() + Seq::<u8>::empty() =~= to.written());
        }
        Ok(())
    }
}

impl Deserialize for () {
    type Model = ();

    open spec fn model(&self) -> () {
        ()
    }

    open spec fn decoding(data: Seq<u8>) -> Parsed<()> {
        Ok(((), data))
    }

    proof fn lemma_remainder(data: Seq<u8>) {
        lemma_suffix_refl(data);
    }

    fn mc_deserialize(data: &[u8]) -> (res: DeserializeResult<'_, Self>) {
        Deserialized::ok((), data)
    }
}

impl ProtocolType for () {
    open spec fn legal(&self) -> bool {
        true
    }

    open spec fn self_delimiting() -> bool {
        true
    }

    proof fn lemma_round_trip(&self, rest: Seq<u8>) {
        assert(Seq::<u8>::empty() + rest =~= rest);
    }
}

/// Two values as they are written: one behind the other.
#[verifier::opaque]
pub open spec fn tuple2_wire<A: Serialize, B: Serialize>(t: (A, B)) -> Seq<u8> {
    t.0.wire() + t.1.wire()
}

/// Two values read one behind the other, each from what the one before left
/// over; the first failure ends it.
#[verifier::opaque]
pub open spec fn tuple2_decoding<A: Deserialize, B: Deserialize>(data: Seq<u8>) -> Parsed<
    (A::Model, B::Model),
> {
    match <A>::decoding(data) {
        Err(e) => Err(e),
        Ok((front, rest)) => match B::decoding(rest) {
            Err(e) => Err(e),
            Ok((back, rest)) => Ok((
                (front, back),
                rest,
            )),
        },
    }
}

pub proof fn lemma_tuple2_wire<A: Serialize, B: Serialize>(t: &(A, B))
    ensures
        t.wire() == t.0.wire() + t.1.wire(),
{
    reveal(tuple2_wire);
}

impl<A: Serialize, B: Serialize> Serialize for (A, B) {
    open spec fn wire(&self) -> Seq<u8> {
        tuple2_wire(*self)
    }

    fn mc_serialize<S: Serializer>(&self, to: &mut S) -> (res: SerializeResult) {
        self.0.mc_serialize(to)?;
        let res = self.1.mc_serialize(to);
        proof {
            broadcast use lemma_concat_assoc;

            lemma_tuple2_wire(self);
        }
        res
    }
}

impl<A: Deserialize, B: Deserialize> Deserialize for (A, B) {
    type Model = (A::Model, B::Model);

    open spec fn model(&self) -> Self::Model {
        (self.0.model(), self.1.model())
    }

    open spec fn decoding(data: Seq<u8>) -> Parsed<Self::Model> {
        tuple2_decoding::<A, B>(data)
    }

    proof fn lemma_remainder(data: Seq<u8>) {
        reveal(tuple2_decoding);
        <A>::lemma_remainder(data);
        match <A>::decoding(data) {
            Ok((_, rest)) => {
                B::lemma_remainder(rest);
                match B::decoding(rest) {
                    Ok((_, rest2)) => {
                        lemma_suffix_trans(rest2, rest, data);
                    },
                    Err(_) => {},
                }
            },
            Err(_) => {},
        }
    }

    fn mc_deserialize(data: &[u8]) -> (res: DeserializeResult<'_, Self>) {
        proof {
            reveal(tuple2_decoding);
        }
        let Deserialized { value: a, data: rest } = A::mc_deserialize(data)?;
        let Deserialized { value: b, data: rest } = B::mc_deserialize(rest)?;
        Deserialized::ok((a, b), rest)
    }
}

impl<A: ProtocolType, B: ProtocolType> ProtocolType for (A, B) {
    /// Every part is legal, and every part but the last announces its own
    /// end.
    open spec fn legal(&self) -> bool {
        &&& <A>::self_delimiting()
        &&& self.0.legal()
        &&& self.1.legal()
    }

    open spec fn self_delimiting() -> bool {
        <A>::self_delimiting() && B::self_delimiting()
    }

    proof fn lemma_round_trip(&self, rest: Seq<u8>) {
        reveal(tuple2_wire);
        reveal(tuple2_decoding);
        let front = self.0;
        front.lemma_round_trip(self.1.wire() + rest);
        self.1.lemma_round_trip(rest);
        lemma_concat_assoc(front.wire(), self.1.wire(), rest);
    }
}

/// Three values as they are written: one behind the other.
#[verifier::opaque]
pub open spec fn tuple3_wire<A: Serialize, B: Serialize, C: Serialize>(t: (A, B, C)) -> Seq<u8> {
    (t.0, t.1).wire() + t.2.wire()
}

/// Three values read one behind the other, each from what the one before left
/// over; the first failure ends it.
#[verifier::opaque]
pub open spec fn tuple3_decoding<
    A: Deserialize, B: Deserialize, C: Deserialize,
>(data: Seq<u8>) -> Parsed<
    (A::Model, B::Model, C::Model),
> {
    match <(A, B)>::decoding(data) {
        Err(e) => Err(e),
        Ok((front, rest)) => match C::decoding(rest) {
            Err(e) => Err(e),
            Ok((back, rest)) => Ok((
                (front.0, front.1, back),
                rest,
            )),
        },
    }
}

pub proof fn lemma_tuple3_wire<A: Serialize, B: Serialize, C: Serialize>(t: &(A, B, C))
    ensures
        t.wire() == t.0.wire() + t.1.wire() + t.2.wire(),
{
    reveal(tuple3_wire);
    lemma_tuple2_wire(&(t.0, t.1));
}

impl<A: Serialize, B: Serialize, C: Serialize> Serialize for (A, B, C) {
    open spec fn wire(&self) -> Seq<u8> {
        tuple3_wire(*self)
    }

    fn mc_serialize<S: Serializer>(&self, to: &mut S) -> (res: SerializeResult) {
        self.0.mc_serialize(to)?;
        self.1.mc_serialize(to)?;
        let res = self.2.mc_serialize(to);
        proof {
            broadcast use lemma_concat_assoc;

            lemma_tuple3_wire(self);
        }
        res
    }
}

impl<A: Deserialize, B: Deserialize, C: Deserialize> Deserialize for (A, B, C) {
    type Model = (A::Model, B::Model, C::Model);

    open spec fn model(&self) -> Self::Model {
        (self.0.model(), self.1.model(), self.2.model())
    }

    open spec fn decoding(data: Seq<u8>) -> Parsed<Self::Model> {
        tuple3_decoding::<A, B, C>(data)
    }

    proof fn lemma_remainder(data: Seq<u8>) {
        reveal(tuple3_decoding);
        <(A, B)>::lemma_remainder(data);
        match <(A, B)>::decoding(data) {
            Ok((_, rest)) => {
                C::lemma_remainder(rest);
                match C::decoding(rest) {
                    Ok((_, rest2)) => {
                        lemma_suffix_trans(rest2, rest, data);
                    },
                    Err(_) => {},
                }
            },
            Err(_) => {},
        }
    }

    fn mc_deserialize(data: &[u8]) -> (res: DeserializeResult<'_, Self>) {
        proof {
            reveal(tuple3_decoding);
        }
        let Deserialized { value: front, data: rest } = <(A, B)>::mc_deserialize(data)?;
        let Deserialized { value: back, data: rest } = C::mc_deserialize(rest)?;
        let (a, b) = front;
        Deserialized::ok((a, b, back), rest)
    }
}

impl<A: ProtocolType, B: ProtocolType, C: ProtocolType> ProtocolType for (A, B, C) {
    /// Every part is legal, and every part but the last announces its own
    /// end.
    open spec fn legal(&self) -> bool {
        &&& <(A, B)>::self_delimiting()
        &&& (self.0, self.1).legal()
        &&& self.2.legal()
    }

    open spec fn self_delimiting() -> bool {
        <(A, B)>::self_delimiting() && C::self_delimiting()
    }

    proof fn lemma_round_trip(&self, rest: Seq<u8>) {
        reveal(tuple3_wire);
        reveal(tuple3_decoding);
        let front = (self.0, self.1);
        front.lemma_round_trip(self.2.wire() + rest);
        self.2.lemma_round_trip(rest);
        lemma_concat_assoc(front.wire(), self.2.wire(), rest);
    }
}

/// Four values as they are written: one behind the other.
#[verifier::opaque]
pub open spec fn tuple4_wire<
    A: Serialize, B: Serialize, C: Serialize, D: Serialize,
>(t: (A, B, C, D)) -> Seq<u8> {
    (t.0, t.1, t.2).wire() + t.3.wire()
}

/// Four values read one behind the other, each from what the one before left
/// over; the first failure ends it.
#[verifier::opaque]
pub open spec fn tuple4_decoding<
    A: Deserialize, B: Deserialize, C: Deserialize, D: Deserialize,
>(data: Seq<u8>) -> Parsed<
    (A::Model, B::Model, C::Model, D::Model),
> {
    match <(A, B, C)>::decoding(data) {
        Err(e) => Err(e),
        Ok((front, rest)) => match D::decoding(rest) {
            Err(e) => Err(e),
            Ok((back, rest)) => Ok((
                (front.0, front.1, front.2, back),
                rest,
            )),
        },
    }
}

pub proof fn lemma_tuple4_wire<
    A: Serialize, B: Serialize, C: Serialize, D: Serialize,
>(t: &(A, B, C, D))
    ensures
        t.wire() == t.0.wire() + t.1.wire() + t.2.wire() + t.3.wire(),
{
    reveal(tuple4_wire);
    lemma_tuple3_wire(&(t.0, t.1, t.2));
}

impl<A: Serialize, B: Serialize, C: Serialize, D: Serialize> Serialize for (A, B, C, D) {
    open spec fn wire(&self) -> Seq<u8> {
        tuple4_wire(*self)
    }

    fn mc_serialize<S: Serializer>(&self, to: &mut S) -> (res: SerializeResult) {
        self.0.mc_serialize(to)?;
        self.1.mc_serialize(to)?;
        self.2.mc_serialize(to)?;
        let res = self.3.mc_serialize(to);
        proof {
            broadcast use lemma_concat_assoc;

            lemma_tuple4_wire(self);
        }
        res
    }
}

impl<
    A: Deserialize, B: Deserialize, C: Deserialize, D: Deserialize,
> Deserialize for (A, B, C, D) {
    type Model = (A::Model, B::Model, C::Model, D::Model);

    open spec fn model(&self) -> Self::Model {
        (self.0.model(), self.1.model(), self.2.model(), self.3.model())
    }

    open spec fn decoding(data: Seq<u8>) -> Parsed<Self::Model> {
        tuple4_decoding::<A, B, C, D>(data)
    }

    proof fn lemma_remainder(data: Seq<u8>) {
        reveal(tuple4_decoding);
        <(A, B, C)>::lemma_remainder(data);
        match <(A, B, C)>::decoding(data) {
            Ok((_, rest)) => {
                D::lemma_remainder(rest);
                match D::decoding(rest) {
                    Ok((_, rest2)) => {
                        lemma_suffix_trans(rest2, rest, data);
                    },
                    Err(_) => {},
                }
            },
            Err(_) => {},
        }
    }

    fn mc_deserialize(data: &[u8]) -> (res: DeserializeResult<'_, Self>) {
        proof {
            reveal(tuple4_decoding);
        }
        let Deserialized { value: front, data: rest } = <(A, B, C)>::mc_deserialize(data)?;
        let Deserialized { value: back, data: rest } = D::mc_deserialize(rest)?;
        let (a, b, c) = front;
        Deserialized::ok((a, b, c, back), rest)
    }
}

impl<
    A: ProtocolType, B: ProtocolType, C: ProtocolType, D: ProtocolType,
> ProtocolType for (A, B, C, D) {
    /// Every part is legal, and every part but the last announces its own
    /// end.
    open spec fn legal(&self) -> bool {
        &&& <(A, B, C)>::self_delimiting()
        &&& (self.0, self.1, self.2).legal()
        &&& self.3.legal()
    }

    open spec fn self_delimiting() -> bool {
        <(A, B, C)>::self_delimiting() && D::self_delimiting()
    }

    proof fn lemma_round_trip(&self, rest: Seq<u8>) {
        reveal(tuple4_wire);
        reveal(tuple4_decoding);
        let front = (self.0, self.1, self.2);
        front.lemma_round_trip(self.3.wire() + rest);
        self.3.lemma_round_trip(rest);
        lemma_concat_assoc(front.wire(), self.3.wire(), rest);
    }
}

/// Five values as they are written: one behind the other.
#[verifier::opaque]
pub open spec fn tuple5_wire<
    A: Serialize, B: Serialize, C: Serialize, D: Serialize, E: Serialize,
>(t: (A, B, C, D, E)) -> Seq<u8> {
    (t.0, t.1, t.2, t.3).wire() + t.4.wire()
}

/// Five values read one behind the other, each from what the one before left
/// over; the first failure ends it.
#[verifier::opaque]
pub open spec fn tuple5_decoding<
    A: Deserialize, B: Deserialize, C: Deserialize, D: Deserialize, E: Deserialize,
>(data: Seq<u8>) -> Parsed<
    (A::Model, B::Model, C::Model, D::Model, E::Model),
> {
    match <(A, B, C, D)>::decoding(data) {
        Err(e) => Err(e),
        Ok((front, rest)) => match E::decoding(rest) {
            Err(e) => Err(e),
            Ok((back, rest)) => Ok((
                (front.0, front.1, front.2, front.3, back),
                rest,
            )),
        },
    }
}

pub proof fn lemma_tuple5_wire<
    A: Serialize, B: Serialize, C: Serialize, D: Serialize, E: Serialize,
>(t: &(A, B, C, D, E))
    ensures
        t.wire() == t.0.wire() + t.1.wire() + t.2.wire() + t.3.wire() + t.4.wire(),
{
    reveal(tuple5_wire);
    lemma_tuple4_wire(&(t.0, t.1, t.2, t.3));
}

impl<
    A: Serialize, B: Serialize, C: Serialize, D: Serialize, E: Serialize,
> Serialize for (A, B, C, D, E) {
    open spec fn wire(&self) -> Seq<u8> {
        tuple5_wire(*self)
    }

    fn mc_serialize<S: Serializer>(&self, to: &mut S) -> (res: SerializeResult) {
        self.0.mc_serialize(to)?;
        self.1.mc_serialize(to)?;
        self.2.mc_serialize(to)?;
        self.3.mc_serialize(to)?;
        let res = self.4.mc_serialize(to);
        proof {
            broadcast use lemma_concat_assoc;

            lemma_tuple5_wire(self);
        }
        res
    }
}

impl<
    A: Deserialize, B: Deserialize, C: Deserialize, D: Deserialize, E: Deserialize,
> Deserialize for (A, B, C, D, E) {
    type Model = (A::Model, B::Model, C::Model, D::Model, E::Model);

    open spec fn model(&self) -> Self::Model {
        (self.0.model(), self.1.model(), self.2.model(), self.3.model(), self.4.model())
    }

    open spec fn decoding(data: Seq<u8>) -> Parsed<Self::Model> {
        tuple5_decoding::<A, B, C, D, E>(data)
    }

    proof fn lemma_remainder(data: Seq<u8>) {
        reveal(tuple5_decoding);
        <(A, B, C, D)>::lemma_remainder(data);
        match <(A, B, C, D)>::decoding(data) {
            Ok((_, rest)) => {
                E::lemma_remainder(rest);
                match E::decoding(rest) {
                    Ok((_, rest2)) => {
                        lemma_suffix_trans(rest2, rest, data);
                    },
                    Err(_) => {},
                }
            },
            Err(_) => {},
        }
    }

    fn mc_deserialize(data: &[u8]) -> (res: DeserializeResult<'_, Self>) {
        proof {
            reveal(tuple5_decoding);
        }
        let Deserialized { value: front, data: rest } = <(A, B, C, D)>::mc_deserialize(data)?;
        let Deserialized { value: back, data: rest } = E::mc_deserialize(rest)?;
        let (a, b, c, d) = front;
        Deserialized::ok((a, b, c, d, back), rest)
    }
}

impl<
    A: ProtocolType, B: ProtocolType, C: ProtocolType, D: ProtocolType, E: ProtocolType,
> ProtocolType for (A, B, C, D, E) {
    /// Every part is legal, and every part but the last announces its own
    /// end.
    open spec fn legal(&self) -> bool {
        &&& <(A, B, C, D)>::self_delimiting()
        &&& (self.0, self.1, self.2, self.3).legal()
        &&& self.4.legal()
    }

    open spec fn self_delimiting() -> bool {
        <(A, B, C, D)>::self_delimiting() && E::self_delimiting()
    }

    proof fn lemma_round_trip(&self, rest: Seq<u8>) {
        reveal(tuple5_wire);
        reveal(tuple5_decoding);
        let front = (self.0, self.1, self.2, self.3);
        front.lemma_round_trip(self.4.wire() + rest);
        self.4.lemma_round_trip(rest);
        lemma_concat_assoc(front.wire(), self.4.wire(), rest);
    }
}

/// Six values as they are written: one behind the other.
#[verifier::opaque]
pub open spec fn tuple6_wire<
    A: Serialize, B: Serialize, C: Serialize, D: Serialize, E: Serialize, F: Serialize,
>(t: (A, B, C, D, E, F)) -> Seq<u8> {
    (t.0, t.1, t.2, t.3, t.4).wire() + t.5.wire()
}

/// Six values read one behind the other, each from what the one before left
/// over; the first failure ends it.
#[verifier::opaque]
pub open spec fn tuple6_decoding<
    A: Deserialize, B: Deserialize, C: Deserialize, D: Deserialize, E: Deserialize,
    F: Deserialize,
>(data: Seq<u8>) -> Parsed<
    (A::Model, B::Model, C::Model, D::Model, E::Model, F::Model),
> {
    match <(A, B, C, D, E)>::decoding(data) {
        Err(e) => Err(e),
        Ok((front, rest)) => match F::decoding(rest) {
            Err(e) => Err(e),
            Ok((back, rest)) => Ok((
                (front.0, front.1, front.2, front.3, front.4, back),
                rest,
            )),
        },
    }
}

pub proof fn lemma_tuple6_wire<
    A: Serialize, B: Serialize, C: Serialize, D: Serialize, E: Serialize, F: Serialize,
>(t: &(A, B, C, D, E, F))
    ensures
        t.wire() == t.0.wire() + t.1.wire() + t.2.wire() + t.3.wire() + t.4.wire() + t.5.wire(),
{
    reveal(tuple6_wire);
    lemma_tuple5_wire(&(t.0, t.1, t.2, t.3, t.4));
}

impl<
    A: Serialize, B: Serialize, C: Serialize, D: Serialize, E: Serialize, F: Serialize,
> Serialize for (A, B, C, D, E, F) {
    open spec fn wire(&self) -> Seq<u8> {
        tuple6_wire(*self)
    }

    fn mc_serialize<S: Serializer>(&self, to: &mut S) -> (res: SerializeResult) {
        self.0.mc_serialize(to)?;
        self.1.mc_serialize(to)?;
        self.2.mc_serialize(to)?;
        self.3.mc_serialize(to)?;
        self.4.mc_serialize(to)?;
        let res = self.5.mc_serialize(to);
        proof {
            broadcast use lemma_concat_assoc;

            lemma_tuple6_wire(self);
        }
        res
    }
}

impl<
    A: Deserialize, B: Deserialize, C: Deserialize, D: Deserialize, E: Deserialize,
    F: Deserialize,
> Deserialize for (A, B, C, D, E, F) {
    type Model = (A::Model, B::Model, C::Model, D::Model, E::Model, F::Model);

    open spec fn model(&self) -> Self::Model {
        (
            self.0.model(), self.1.model(), self.2.model(), self.3.model(), self.4.model(),
            self.5.model(),
        )
    }

    open spec fn decoding(data: Seq<u8>) -> Parsed<Self::Model> {
        tuple6_decoding::<A, B, C, D, E, F>(data)
    }

    proof fn lemma_remainder(data: Seq<u8>) {
        reveal(tuple6_decoding);
        <(A, B, C, D, E)>::lemma_remainder(data);
        match <(A, B, C, D, E)>::decoding(data) {
            Ok((_, rest)) => {
                F::lemma_remainder(rest);
                match F::decoding(rest) {
                    Ok((_, rest2)) => {
                        lemma_suffix_trans(rest2, rest, data);
                    },
                    Err(_) => {},
                }
            },
            Err(_) => {},
        }
    }

    fn mc_deserialize(data: &[u8]) -> (res: DeserializeResult<'_, Self>) {
        proof {
            reveal(tuple6_decoding);
        }
        let Deserialized { value: front, data: rest } = <(A, B, C, D, E)>::mc_deserialize(data)?;
        let Deserialized { value: back, data: rest } = F::mc_deserialize(rest)?;
        let (a, b, c, d, e) = front;
        Deserialized::ok((a, b, c, d, e, back), rest)
    }
}

impl<
    A: ProtocolType, B: ProtocolType, C: ProtocolType, D: ProtocolType, E: ProtocolType,
    F: ProtocolType,
> ProtocolType for (A, B, C, D, E, F) {
    /// Every part is legal, and every part but the last announces its own
    /// end.
    open spec fn legal(&self) -> bool {
        &&& <(A, B, C, D, E)>::self_delimiting()
        &&& (self.0, self.1, self.2, self.3, self.4).legal()
        &&& self.5.legal()
    }

    open spec fn self_delimiting() -> bool {
        <(A, B, C, D, E)>::self_delimiting() && F::self_delimiting()
    }

    proof fn lemma_round_trip(&self, rest: Seq<u8>) {
        reveal(tuple6_wire);
        reveal(tuple6_decoding);
        let front = (self.0, self.1, self.2, self.3, self.4);
        front.lemma_round_trip(self.5.wire() + rest);
        self.5.lemma_round_trip(rest);
        lemma_concat_assoc(front.wire(), self.5.wire(), rest);
    }
}

/// Seven values as they are written: one behind the other.
#[verifier::opaque]
pub open spec fn tuple7_wire<
    A: Serialize, B: Serialize, C: Serialize, D: Serialize, E: Serialize, F: Serialize,
    G: Serialize,
>(t: (A, B, C, D, E, F, G)) -> Seq<u8> {
    (t.0, t.1, t.2, t.3, t.4, t.5).wire() + t.6.wire()
}

/// Seven values read one behind the other, each from what the one before left
/// over; the first failure ends it.
#[verifier::opaque]
pub open spec fn tuple7_decoding<
    A: Deserialize, B: Deserialize, C: Deserialize, D: Deserialize, E: Deserialize,
    F: Deserialize, G: Deserialize,
>(data: Seq<u8>) -> Parsed<
    (A::Model, B::Model, C::Model, D::Model, E::Model, F::Model, G::Model),
> {
    match <(A, B, C, D, E, F)>::decoding(data) {
        Err(e) => Err(e),
        Ok((front, rest)) => match G::decoding(rest) {
            Err(e) => Err(e),
            Ok((back, rest)) => Ok((
                (front.0, front.1, front.2, front.3, front.4, front.5, back),
                rest,
            )),
        },
    }
}

pub proof fn lemma_tuple7_wire<
    A: Serialize, B: Serialize, C: Serialize, D: Serialize, E: Serialize, F: Serialize,
    G: Serialize,
>(t: &(A, B, C, D, E, F, G))
    ensures
        t.wire() == t.0.wire() + t.1.wire() + t.2.wire() + t.3.wire() + t.4.wire() + t.5.wire()
            + t.6.wire(),
{
    reveal(tuple7_wire);
    lemma_tuple6_wire(&(t.0, t.1, t.2, t.3, t.4, t.5));
}

impl<
    A: Serialize, B: Serialize, C: Serialize, D: Serialize, E: Serialize, F: Serialize,
    G: Serialize,
> Serialize for (A, B, C, D, E, F, G) {
    open spec fn wire(&self) -> Seq<u8> {
        tuple7_wire(*self)
    }

    fn mc_serialize<S: Serializer>(&self, to: &mut S) -> (res: SerializeResult) {
        self.0.mc_serialize(to)?;
        self.1.mc_serialize(to)?;
        self.2.mc_serialize(to)?;
        self.3.mc_serialize(to)?;
        self.4.mc_serialize(to)?;
        self.5.mc_serialize(to)?;
        let res = self.6.mc_serialize(to);
        proof {
            broadcast use lemma_concat_assoc;

            lemma_tuple7_wire(self);
        }
        res
    }
}

impl<
    A: Deserialize, B: Deserialize, C: Deserialize, D: Deserialize, E: Deserialize,
    F: Deserialize, G: Deserialize,
> Deserialize for (A, B, C, D, E, F, G) {
    type Model = (A::Model, B::Model, C::Model, D::Model, E::Model, F::Model, G::Model);

    open spec fn model(&self) -> Self::Model {
        (
            self.0.model(), self.1.model(), self.2.model(), self.3.model(), self.4.model(),
            self.5.model(), self.6.model(),
        )
    }

    open spec fn decoding(data: Seq<u8>) -> Parsed<Self::Model> {
        tuple7_decoding::<A, B, C, D, E, F, G>(data)
    }

    proof fn lemma_remainder(data: Seq<u8>) {
        reveal(tuple7_decoding);
        <(A, B, C, D, E, F)>::lemma_remainder(data);
        match <(A, B, C, D, E, F)>::decoding(data) {
            Ok((_, rest)) => {
                G::lemma_remainder(rest);
                match G::decoding(rest) {
                    Ok((_, rest2)) => {
                        lemma_suffix_trans(rest2, rest, data);
                    },
                    Err(_) => {},
                }
            },
            Err(_) => {},
        }
    }

    fn mc_deserialize(data: &[u8]) -> (res: DeserializeResult<'_, Self>) {
        proof {
            reveal(tuple7_decoding);
        }
        let Deserialized { value: front, data: rest } = <(A, B, C, D, E, F)>::mc_deserialize(data)?;
        let Deserialized { value: back, data: rest } = G::mc_deserialize(rest)?;
        let (a, b, c, d, e, f) = front;
        Deserialized::ok((a, b, c, d, e, f, back), rest)
    }
}

impl<
    A: ProtocolType, B: ProtocolType, C: ProtocolType, D: ProtocolType, E: ProtocolType,
    F: ProtocolType, G: ProtocolType,
> ProtocolType for (A, B, C, D, E, F, G) {
    /// Every part is legal, and every part but the last announces its own
    /// end.
    open spec fn legal(&self) -> bool {
        &&& <(A, B, C, D, E, F)>::self_delimiting()
        &&& (self.0, self.1, self.2, self.3, self.4, self.5).legal()
        &&& self.6.legal()
    }

    open spec fn self_delimiting() -> bool {
        <(A, B, C, D, E, F)>::self_delimiting() && G::self_delimiting()
    }

    proof fn lemma_round_trip(&self, rest: Seq<u8>) {
        reveal(tuple7_wire);
        reveal(tuple7_decoding);
        let front = (self.0, self.1, self.2, self.3, self.4, self.5);
        front.lemma_round_trip(self.6.wire() + rest);
        self.6.lemma_round_trip(rest);
        lemma_concat_assoc(front.wire(), self.6.wire(), rest);
    }
}

/// Eight values as they are written: one behind the other.
#[verifier::opaque]
pub open spec fn tuple8_wire<
    A: Serialize, B: Serialize, C: Serialize, D: Serialize, E: Serialize, F: Serialize,
    G: Serialize, H: Serialize,
>(t: (A, B, C, D, E, F, G, H)) -> Seq<u8> {
    (t.0, t.1, t.2, t.3, t.4, t.5, t.6).wire() + t.7.wire()
}

/// Eight values read one behind the other, each from what the one before left
/// over; the first failure ends it.
#[verifier::opaque]
pub open spec fn tuple8_decoding<
    A: Deserialize, B: Deserialize, C: Deserialize, D: Deserialize, E: Deserialize,
    F: Deserialize, G: Deserialize, H: Deserialize,
>(data: Seq<u8>) -> Parsed<
    (A::Model, B::Model, C::Model, D::Model, E::Model, F::Model, G::Model, H::Model),
> {
    match <(A, B, C, D, E, F, G)>::decoding(data) {
        Err(e) => Err(e),
        Ok((front, rest)) => match H::decoding(rest) {
            Err(e) => Err(e),
            Ok((back, rest)) => Ok((
                (front.0, front.1, front.2, front.3, front.4, front.5, front.6, back),
                rest,
            )),
        },
    }
}

pub proof fn lemma_tuple8_wire<
    A: Serialize, B: Serialize, C: Serialize, D: Serialize, E: Serialize, F: Serialize,
    G: Serialize, H: Serialize,
>(t: &(A, B, C, D, E, F, G, H))
    ensures
        t.wire() == t.0.wire() + t.1.wire() + t.2.wire() + t.3.wire() + t.4.wire() + t.5.wire()
            + t.6.wire()
            + t.7.wire(),
{
    reveal(tuple8_wire);
    lemma_tuple7_wire(&(t.0, t.1, t.2, t.3, t.4, t.5, t.6));
}

impl<
    A: Serialize, B: Serialize, C: Serialize, D: Serialize, E: Serialize, F: Serialize,
    G: Serialize, H: Serialize,
> Serialize for (A, B, C, D, E, F, G, H) {
    open spec fn wire(&self) -> Seq<u8> {
        tuple8_wire(*self)
    }

    fn mc_serialize<S: Serializer>(&self, to: &mut S) -> (res: SerializeResult) {
        self.0.mc_serialize(to)?;
        self.1.mc_serialize(to)?;
        self.2.mc_serialize(to)?;
        self.3.mc_serialize(to)?;
        self.4.mc_serialize(to)?;
        self.5.mc_serialize(to)?;
        self.6.mc_serialize(to)?;
        let res = self.7.mc_serialize(to);
        proof {
            broadcast use lemma_concat_assoc;

            lemma_tuple8_wire(self);
        }
        res
    }
}

impl<
    A: Deserialize, B: Deserialize, C: Deserialize, D: Deserialize, E: Deserialize,
    F: Deserialize, G: Deserialize, H: Deserialize,
> Deserialize for (A, B, C, D, E, F, G, H) {
    type Model = (A::Model, B::Model, C::Model, D::Model, E::Model, F::Model, G::Model, H::Model);

    open spec fn model(&self) -> Self::Model {
        (
            self.0.model(), self.1.model(), self.2.model(), self.3.model(), self.4.model(),
            self.5.model(), self.6.model(), self.7.model(),
        )
    }

    open spec fn decoding(data: Seq<u8>) -> Parsed<Self::Model> {
        tuple8_decoding::<A, B, C, D, E, F, G, H>(data)
    }

    proof fn lemma_remainder(data: Seq<u8>) {
        reveal(tuple8_decoding);
        <(A, B, C, D, E, F, G)>::lemma_remainder(data);
        match <(A, B, C, D, E, F, G)>::decoding(data) {
            Ok((_, rest)) => {
                H::lemma_remainder(rest);
                match H::decoding(rest) {
                    Ok((_, rest2)) => {
                        lemma_suffix_trans(rest2, rest, data);
                    },
                    Err(_) => {},
                }
            },
            Err(_) => {},
        }
    }

    fn mc_deserialize(data: &[u8]) -> (res: DeserializeResult<'_, Self>) {
        proof {
            reveal(tuple8_decoding);
        }
        let Deserialized { value: front, data: rest } =
            <(A, B, C, D, E, F, G)>::mc_deserialize(data)?;
        let Deserialized { value: back, data: rest } = H::mc_deserialize(rest)?;
        let (a, b, c, d, e, f, g) = front;
        Deserialized::ok((a, b, c, d, e, f, g, back), rest)
    }
}

impl<
    A: ProtocolType, B: ProtocolType, C: ProtocolType, D: ProtocolType, E: ProtocolType,
    F: ProtocolType, G: ProtocolType, H: ProtocolType,
> ProtocolType for (A, B, C, D, E, F, G, H) {
    /// Every part is legal, and every part but the last announces its own
    /// end.
    open spec fn legal(&self) -> bool {
        &&& <(A, B, C, D, E, F, G)>::self_delimiting()
        &&& (self.0, self.1, self.2, self.3, self.4, self.5, self.6).legal()
        &&& self.7.legal()
    }

    open spec fn self_delimiting() -> bool {
        <(A, B, C, D, E, F, G)>::self_delimiting() && H::self_delimiting()
    }

    proof fn lemma_round_trip(&self, rest: Seq<u8>) {
        reveal(tuple8_wire);
        reveal(tuple8_decoding);
        let front = (self.0, self.1, self.2, self.3, self.4, self.5, self.6);
        front.lemma_round_trip(self.7.wire() + rest);
        self.7.lemma_round_trip(rest);
        lemma_concat_assoc(front.wire(), self.7.wire(), rest);
    }
}

/// Nine values as they are written: one behind the other.
#[verifier::opaque]
pub open spec fn tuple9_wire<
    A: Serialize, B: Serialize, C: Serialize, D: Serialize, E: Serialize, F: Serialize,
    G: Serialize, H: Serialize, I: Serialize,
>(t: (A, B, C, D, E, F, G, H, I)) -> Seq<u8> {
    (t.0, t.1, t.2, t.3, t.4, t.5, t.6, t.7).wire() + t.8.wire()
}

/// Nine values read one behind the other, each from what the one before left
/// over; the first failure ends it.
#[verifier::opaque]
pub open spec fn tuple9_decoding<
    A: Deserialize, B: Deserialize, C: Deserialize, D: Deserialize, E: Deserialize,
    F: Deserialize, G: Deserialize, H: Deserialize, I: Deserialize,
>(data: Seq<u8>) -> Parsed<
    (A::Model, B::Model, C::Model, D::Model, E::Model, F::Model, G::Model, H::Model, I::Model),
> {
    match <(A, B, C, D, E, F, G, H)>::decoding(data) {
        Err(e) => Err(e),
        Ok((front, rest)) => match I::decoding(rest) {
            Err(e) => Err(e),
            Ok((back, rest)) => Ok((
                (front.0, front.1, front.2, front.3, front.4, front.5, front.6, front.7, back),
                rest,
            )),
        },
    }
}

pub proof fn lemma_tuple9_wire<
    A: Serialize, B: Serialize, C: Serialize, D: Serialize, E: Serialize, F: Serialize,
    G: Serialize, H: Serialize, I: Serialize,
>(t: &(A, B, C, D, E, F, G, H, I))
    ensures
        t.wire() == t.0.wire() + t.1.wire() + t.2.wire() + t.3.wire() + t.4.wire() + t.5.wire()
            + t.6.wire()
            + t.7.wire() + t.8.wire(),
{
    reveal(tuple9_wire);
    lemma_tuple8_wire(&(t.0, t.1, t.2, t.3, t.4, t.5, t.6, t.7));
}

impl<
    A: Serialize, B: Serialize, C: Serialize, D: Serialize, E: Serialize, F: Serialize,
    G: Serialize, H: Serialize, I: Serialize,
> Serialize for (A, B, C, D, E, F, G, H, I) {
    open spec fn wire(&self) -> Seq<u8> {
        tuple9_wire(*self)
    }

    fn mc_serialize<S: Serializer>(&self, to: &mut S) -> (res: SerializeResult) {
        self.0.mc_serialize(to)?;
        self.1.mc_serialize(to)?;
        self.2.mc_serialize(to)?;
        self.3.mc_serialize(to)?;
        self.4.mc_serialize(to)?;
        self.5.mc_serialize(to)?;
        self.6.mc_serialize(to)?;
        self.7.mc_serialize(to)?;
        let res = self.8.mc_serialize(to);
        proof {
            broadcast use lemma_concat_assoc;

            lemma_tuple9_wire(self);
        }
        res
    }
}

impl<
    A: Deserialize, B: Deserialize, C: Deserialize, D: Deserialize, E: Deserialize,
    F: Deserialize, G: Deserialize, H: Deserialize, I: Deserialize,
> Deserialize for (A, B, C, D, E, F, G, H, I) {
    type Model = (
        A::Model, B::Model, C::Model, D::Model, E::Model, F::Model, G::Model, H::Model, I::Model,
    );

    open spec fn model(&self) -> Self::Model {
        (
            self.0.model(), self.1.model(), self.2.model(), self.3.model(), self.4.model(),
            self.5.model(), self.6.model(), self.7.model(), self.8.model(),
        )
    }

    open spec fn decoding(data: Seq<u8>) -> Parsed<Self::Model> {
        tuple9_decoding::<A, B, C, D, E, F, G, H, I>(data)
    }

    proof fn lemma_remainder(data: Seq<u8>) {
        reveal(tuple9_decoding);
        <(A, B, C, D, E, F, G, H)>::lemma_remainder(data);
        match <(A, B, C, D, E, F, G, H)>::decoding(data) {
            Ok((_, rest)) => {
                I::lemma_remainder(rest);
                match I::decoding(rest) {
                    Ok((_, rest2)) => {
                        lemma_suffix_trans(rest2, rest, data);
                    },
                    Err(_) => {},
                }
            },
            Err(_) => {},
        }
    }

    fn mc_deserialize(data: &[u8]) -> (res: DeserializeResult<'_, Self>) {
        proof {
            reveal(tuple9_decoding);
        }
        let Deserialized { value: front, data: rest } =
            <(A, B, C, D, E, F, G, H)>::mc_deserialize(data)?;
        let Deserialized { value: back, data: rest } = I::mc_deserialize(rest)?;
        let (a, b, c, d, e, f, g, h) = front;
        Deserialized::ok((a, b, c, d, e, f, g, h, back), rest)
    }
}

impl<
    A: ProtocolType, B: ProtocolType, C: ProtocolType, D: ProtocolType, E: ProtocolType,
    F: ProtocolType, G: ProtocolType, H: ProtocolType, I: ProtocolType,
> ProtocolType for (A, B, C, D, E, F, G, H, I) {
    /// Every part is legal, and every part but the last announces its own
    /// end.
    open spec fn legal(&self) -> bool {
        &&& <(A, B, C, D, E, F, G, H)>::self_delimiting()
        &&& (self.0, self.1, self.2, self.3, self.4, self.5, self.6, self.7).legal()
        &&& self.8.legal()
    }

    open spec fn self_delimiting() -> bool {
        <(A, B, C, D, E, F, G, H)>::self_delimiting() && I::self_delimiting()
    }

    proof fn lemma_round_trip(&self, rest: Seq<u8>) {
        reveal(tuple9_wire);
        reveal(tuple9_decoding);
        let front = (self.0, self.1, self.2, self.3, self.4, self.5, self.6, self.7);
        front.lemma_round_trip(self.8.wire() + rest);
        self.8.lemma_round_trip(rest);
        lemma_concat_assoc(front.wire(), self.8.wire(), rest);
    }
}

/// Ten values as they are written: one behind the other.
#[verifier::opaque]
pub open spec fn tuple10_wire<
    A: Serialize, B: Serialize, C: Serialize, D: Serialize, E: Serialize, F: Serialize,
    G: Serialize, H: Serialize, I: Serialize, J: Serialize,
>(t: (A, B, C, D, E, F, G, H, I, J)) -> Seq<u8> {
    (t.0, t.1, t.2, t.3, t.4, t.5, t.6, t.7, t.8).wire() + t.9.wire()
}

/// Ten values read one behind the other, each from what the one before left
/// over; the first failure ends it.
#[verifier::opaque]
pub open spec fn tuple10_decoding<
    A: Deserialize, B: Deserialize, C: Deserialize, D: Deserialize, E: Deserialize,
    F: Deserialize, G: Deserialize, H: Deserialize, I: Deserialize, J: Deserialize,
>(data: Seq<u8>) -> Parsed<
    (
        A::Model, B::Model, C::Model, D::Model, E::Model, F::Model, G::Model, H::Model, I::Model,
        J::Model,
    ),
> {
    match <(A, B, C, D, E, F, G, H, I)>::decoding(data) {
        Err(e) => Err(e),
        Ok((front, rest)) => match J::decoding(rest) {
            Err(e) => Err(e),
            Ok((back, rest)) => Ok((
                (
                    front.0, front.1, front.2, front.3, front.4, front.5, front.6, front.7,
                    front.8, back,
                ),
                rest,
            )),
        },
    }
}

pub proof fn lemma_tuple10_wire<
    A: Serialize, B: Serialize, C: Serialize, D: Serialize, E: Serialize, F: Serialize,
    G: Serialize, H: Serialize, I: Serialize, J: Serialize,
>(t: &(A, B, C, D, E, F, G, H, I, J))
    ensures
        t.wire() == t.0.wire() + t.1.wire() + t.2.wire() + t.3.wire() + t.4.wire() + t.5.wire()
            + t.6.wire()
            + t.7.wire() + t.8.wire() + t.9.wire(),
{
    reveal(tuple10_wire);
    lemma_tuple9_wire(&(t.0, t.1, t.2, t.3, t.4, t.5, t.6, t.7, t.8));
}

impl<
    A: Serialize, B: Serialize, C: Serialize, D: Serialize, E: Serialize, F: Serialize,
    G: Serialize, H: Serialize, I: Serialize, J: Serialize,
> Serialize for (A, B, C, D, E, F, G, H, I, J) {
    open spec fn wire(&self) -> Seq<u8> {
        tuple10_wire(*self)
    }

    fn mc_serialize<S: Serializer>(&self, to: &mut S) -> (res: SerializeResult) {
        self.0.mc_serialize(to)?;
        self.1.mc_serialize(to)?;
        self.2.mc_serialize(to)?;
        self.3.mc_serialize(to)?;
        self.4.mc_serialize(to)?;
        self.5.mc_serialize(to)?;
        self.6.mc_serialize(to)?;
        self.7.mc_serialize(to)?;
        self.8.mc_serialize(to)?;
        let res = self.9.mc_serialize(to);
        proof {
            broadcast use lemma_concat_assoc;

            lemma_tuple10_wire(self);
        }
        res
    }
}

impl<
    A: Deserialize, B: Deserialize, C: Deserialize, D: Deserialize, E: Deserialize,
    F: Deserialize, G: Deserialize, H: Deserialize, I: Deserialize, J: Deserialize,
> Deserialize for (A, B, C, D, E, F, G, H, I, J) {
    type Model = (
        A::Model, B::Model, C::Model, D::Model, E::Model, F::Model, G::Model, H::Model, I::Model,
        J::Model,
    );

    open spec fn model(&self) -> Self::Model {
        (
            self.0.model(), self.1.model(), self.2.model(), self.3.model(), self.4.model(),
            self.5.model(), self.6.model(), self.7.model(), self.8.model(), self.9.model(),
        )
    }

    open spec fn decoding(data: Seq<u8>) -> Parsed<Self::Model> {
        tuple10_decoding::<A, B, C, D, E, F, G, H, I, J>(data)
    }

    proof fn lemma_remainder(data: Seq<u8>) {
        reveal(tuple10_decoding);
        <(A, B, C, D, E, F, G, H, I)>::lemma_remainder(data);
        match <(A, B, C, D, E, F, G, H, I)>::decoding(data) {
            Ok((_, rest)) => {
                J::lemma_remainder(rest);
                match J::decoding(rest) {
                    Ok((_, rest2)) => {
                        lemma_suffix_trans(rest2, rest, data);
                    },
                    Err(_) => {},
                }
            },
            Err(_) => {},
        }
    }

    fn mc_deserialize(data: &[u8]) -> (res: DeserializeResult<'_, Self>) {
        proof {
            reveal(tuple10_decoding);
        }
        let Deserialized { value: front, data: rest } =
            <(A, B, C, D, E, F, G, H, I)>::mc_deserialize(data)?;
        let Deserialized { value: back, data: rest } = J::mc_deserialize(rest)?;
        let (a, b, c, d, e, f, g, h, i) = front;
        Deserialized::ok((a, b, c, d, e, f, g, h, i, back), rest)
    }
}

impl<
    A: ProtocolType, B: ProtocolType, C: ProtocolType, D: ProtocolType, E: ProtocolType,
    F: ProtocolType, G: ProtocolType, H: ProtocolType, I: ProtocolType, J: ProtocolType,
> ProtocolType for (A, B, C, D, E, F, G, H, I, J) {
    /// Every part is legal, and every part but the last announces its own
    /// end.
    open spec fn legal(&self) -> bool {
        &&& <(A, B, C, D, E, F, G, H, I)>::self_delimiting()
        &&& (self.0, self.1, self.2, self.3, self.4, self.5, self.6, self.7, self.8).legal()
        &&& self.9.legal()
    }

    open spec fn self_delimiting() -> bool {
        <(A, B, C, D, E, F, G, H, I)>::self_delimiting() && J::self_delimiting()
    }

    proof fn lemma_round_trip(&self, rest: Seq<u8>) {
        reveal(tuple10_wire);
        reveal(tuple10_decoding);
        let front = (self.0, self.1, self.2, self.3, self.4, self.5, self.6, self.7, self.8);
        front.lemma_round_trip(self.9.wire() + rest);
        self.9.lemma_round_trip(rest);
        lemma_concat_assoc(front.wire(), self.9.wire(), rest);
    }
}

/// Eleven values as they are written: one behind the other.
#[verifier::opaque]
pub open spec fn tuple11_wire<
    A: Serialize, B: Serialize, C: Serialize, D: Serialize, E: Serialize, F: Serialize,
    G: Serialize, H: Serialize, I: Serialize, J: Serialize, K: Serialize,
>(t: (A, B, C, D, E, F, G, H, I, J, K)) -> Seq<u8> {
    (t.0, t.1, t.2, t.3, t.4, t.5, t.6, t.7, t.8, t.9).wire() + t.10.wire()
}

/// Eleven values read one behind the other, each from what the one before left
/// over; the first failure ends it.
#[verifier::opaque]
pub open spec fn tuple11_decoding<
    A: Deserialize, B: Deserialize, C: Deserialize, D: Deserialize, E: Deserialize,
    F: Deserialize, G: Deserialize, H: Deserialize, I: Deserialize, J: Deserialize,
    K: Deserialize,
>(data: Seq<u8>) -> Parsed<
    (
        A::Model, B::Model, C::Model, D::Model, E::Model, F::Model, G::Model, H::Model, I::Model,
        J::Model, K::Model,
    ),
> {
    match <(A, B, C, D, E, F, G, H, I, J)>::decoding(data) {
        Err(e) => Err(e),
        Ok((front, rest)) => match K::decoding(rest) {
            Err(e) => Err(e),
            Ok((back, rest)) => Ok((
                (
                    front.0, front.1, front.2, front.3, front.4, front.5, front.6, front.7,
                    front.8, front.9, back,
                ),
                rest,
            )),
        },
    }
}

pub proof fn lemma_tuple11_wire<
    A: Serialize, B: Serialize, C: Serialize, D: Serialize, E: Serialize, F: Serialize,
    G: Serialize, H: Serialize, I: Serialize, J: Serialize, K: Serialize,
>(t: &(A, B, C, D, E, F, G, H, I, J, K))
    ensures
        t.wire() == t.0.wire() + t.1.wire() + t.2.wire() + t.3.wire() + t.4.wire() + t.5.wire()
            + t.6.wire()
            + t.7.wire() + t.8.wire() + t.9.wire() + t.10.wire(),
{
    reveal(tuple11_wire);
    lemma_tuple10_wire(&(t.0, t.1, t.2, t.3, t.4, t.5, t.6, t.7, t.8, t.9));
}

impl<
    A: Serialize, B: Serialize, C: Serialize, D: Serialize, E: Serialize, F: Serialize,
    G: Serialize, H: Serialize, I: Serialize, J: Serialize, K: Serialize,
> Serialize for (A, B, C, D, E, F, G, H, I, J, K) {
    open spec fn wire(&self) -> Seq<u8> {
        tuple11_wire(*self)
    }

    fn mc_serialize<S: Serializer>(&self, to: &mut S) -> (res: SerializeResult) {
        self.0.mc_serialize(to)?;
        self.1.mc_serialize(to)?;
        self.2.mc_serialize(to)?;
        self.3.mc_serialize(to)?;
        self.4.mc_serialize(to)?;
        self.5.mc_serialize(to)?;
        self.6.mc_serialize(to)?;
        self.7.mc_serialize(to)?;
        self.8.mc_serialize(to)?;
        self.9.mc_serialize(to)?;
        let res = self.10.mc_serialize(to);
        proof {
            broadcast use lemma_concat_assoc;

            lemma_tuple11_wire(self);
        }
        res
    }
}

impl<
    A: Deserialize, B: Deserialize, C: Deserialize, D: Deserialize, E: Deserialize,
    F: Deserialize, G: Deserialize, H: Deserialize, I: Deserialize, J: Deserialize,
    K: Deserialize,
> Deserialize for (A, B, C, D, E, F, G, H, I, J, K) {
    type Model = (
        A::Model, B::Model, C::Model, D::Model, E::Model, F::Model, G::Model, H::Model, I::Model,
        J::Model, K::Model,
    );

    open spec fn model(&self) -> Self::Model {
        (
            self.0.model(), self.1.model(), self.2.model(), self.3.model(), self.4.model(),
            self.5.model(), self.6.model(), self.7.model(), self.8.model(), self.9.model(),
            self.10.model(),
        )
    }

    open spec fn decoding(data: Seq<u8>) -> Parsed<Self::Model> {
        tuple11_decoding::<A, B, C, D, E, F, G, H, I, J, K>(data)
    }

    proof fn lemma_remainder(data: Seq<u8>) {
        reveal(tuple11_decoding);
        <(A, B, C, D, E, F, G, H, I, J)>::lemma_remainder(data);
        match <(A, B, C, D, E, F, G, H, I, J)>::decoding(data) {
            Ok((_, rest)) => {
                K::lemma_remainder(rest);
                match K::decoding(rest) {
                    Ok((_, rest2)) => {
                        lemma_suffix_trans(rest2, rest, data);
                    },
                    Err(_) => {},
                }
            },
            Err(_) => {},
        }
    }

    fn mc_deserialize(data: &[u8]) -> (res: DeserializeResult<'_, Self>) {
        proof {
            reveal(tuple11_decoding);
        }
        let Deserialized { value: front, data: rest } =
            <(A, B, C, D, E, F, G, H, I, J)>::mc_deserialize(data)?;
        let Deserialized { value: back, data: rest } = K::mc_deserialize(rest)?;
        let (a, b, c, d, e, f, g, h, i, j) = front;
        Deserialized::ok((a, b, c, d, e, f, g, h, i, j, back), rest)
    }
}

impl<
    A: ProtocolType, B: ProtocolType, C: ProtocolType, D: ProtocolType, E: ProtocolType,
    F: ProtocolType, G: ProtocolType, H: ProtocolType, I: ProtocolType, J: ProtocolType,
    K: ProtocolType,
> ProtocolType for (A, B, C, D, E, F, G, H, I, J, K) {
    /// Every part is legal, and every part but the last announces its own
    /// end.
    open spec fn legal(&self) -> bool {
        &&& <(A, B, C, D, E, F, G, H, I, J)>::self_delimiting()
        &&& (self.0, self.1, self.2, self.3, self.4, self.5, self.6, self.7, self.8, self.9).legal()
        &&& self.10.legal()
    }

    open spec fn self_delimiting() -> bool {
        <(A, B, C, D, E, F, G, H, I, J)>::self_delimiting() && K::self_delimiting()
    }

    proof fn lemma_round_trip(&self, rest: Seq<u8>) {
        reveal(tuple11_wire);
        reveal(tuple11_decoding);
        let front =
            (self.0, self.1, self.2, self.3, self.4, self.5, self.6, self.7, self.8, self.9);
        front.lemma_round_trip(self.10.wire() + rest);
        self.10.lemma_round_trip(rest);
        lemma_concat_assoc(front.wire(), self.10.wire(), rest);
    }
}

/// Twelve values as they are written: one behind the other.
#[verifier::opaque]
pub open spec fn tuple12_wire<
    A: Serialize, B: Serialize, C: Serialize, D: Serialize, E: Serialize, F: Serialize,
    G: Serialize, H: Serialize, I: Serialize, J: Serialize, K: Serialize, L: Serialize,
>(t: (A, B, C, D, E, F, G, H, I, J, K, L)) -> Seq<u8> {
    (t.0, t.1, t.2, t.3, t.4, t.5, t.6, t.7, t.8, t.9, t.10).wire() + t.11.wire()
}

/// Twelve values read one behind the other, each from what the one before left
/// over; the first failure ends it.
#[verifier::opaque]
pub open spec fn tuple12_decoding<
    A: Deserialize, B: Deserialize, C: Deserialize, D: Deserialize, E: Deserialize,
    F: Deserialize, G: Deserialize, H: Deserialize, I: Deserialize, J: Deserialize,
    K: Deserialize, L: Deserialize,
>(data: Seq<u8>) -> Parsed<
    (
        A::Model, B::Model, C::Model, D::Model, E::Model, F::Model, G::Model, H::Model, I::Model,
        J::Model, K::Model, L::Model,
    ),
> {
    match <(A, B, C, D, E, F, G, H, I, J, K)>::decoding(data) {
        Err(e) => Err(e),
        Ok((front, rest)) => match L::decoding(rest) {
            Err(e) => Err(e),
            Ok((back, rest)) => Ok((
                (
                    front.0, front.1, front.2, front.3, front.4, front.5, front.6, front.7,
                    front.8, front.9, front.10, back,
                ),
                rest,
            )),
        },
    }
}

pub proof fn lemma_tuple12_wire<
    A: Serialize, B: Serialize, C: Serialize, D: Serialize, E: Serialize, F: Serialize,
    G: Serialize, H: Serialize, I: Serialize, J: Serialize, K: Serialize, L: Serialize,
>(t: &(A, B, C, D, E, F, G, H, I, J, K, L))
    ensures
        t.wire() == t.0.wire() + t.1.wire() + t.2.wire() + t.3.wire() + t.4.wire() + t.5.wire()
            + t.6.wire()
            + t.7.wire() + t.8.wire() + t.9.wire() + t.10.wire() + t.11.wire(),
{
    reveal(tuple12_wire);
    lemma_tuple11_wire(&(t.0, t.1, t.2, t.3, t.4, t.5, t.6, t.7, t.8, t.9, t.10));
}

impl<
    A: Serialize, B: Serialize, C: Serialize, D: Serialize, E: Serialize, F: Serialize,
    G: Serialize, H: Serialize, I: Serialize, J: Serialize, K: Serialize, L: Serialize,
> Serialize for (A, B, C, D, E, F, G, H, I, J, K, L) {
    open spec fn wire(&self) -> Seq<u8> {
        tuple12_wire(*self)
    }

    fn mc_serialize<S: Serializer>(&self, to: &mut S) -> (res: SerializeResult) {
        self.0.mc_serialize(to)?;
        self.1.mc_serialize(to)?;
        self.2.mc_serialize(to)?;
        self.3.mc_serialize(to)?;
        self.4.mc_serialize(to)?;
        self.5.mc_serialize(to)?;
        self.6.mc_serialize(to)?;
        self.7.mc_serialize(to)?;
        self.8.mc_serialize(to)?;
        self.9.mc_serialize(to)?;
        self.10.mc_serialize(to)?;
        let res = self.11.mc_serialize(to);
        proof {
            broadcast use lemma_concat_assoc;

            lemma_tuple12_wire(self);
        }
        res
    }
}

impl<
    A: Deserialize, B: Deserialize, C: Deserialize, D: Deserialize, E: Deserialize,
    F: Deserialize, G: Deserialize, H: Deserialize, I: Deserialize, J: Deserialize,
    K: Deserialize, L: Deserialize,
> Deserialize for (A, B, C, D, E, F, G, H, I, J, K, L) {
    type Model = (
        A::Model, B::Model, C::Model, D::Model, E::Model, F::Model, G::Model, H::Model, I::Model,
        J::Model, K::Model, L::Model,
    );

    open spec fn model(&self) -> Self::Model {
        (
            self.0.model(), self.1.model(), self.2.model(), self.3.model(), self.4.model(),
            self.5.model(), self.6.model(), self.7.model(), self.8.model(), self.9.model(),
            self.10.model(), self.11.model(),
        )
    }

    open spec fn decoding(data: Seq<u8>) -> Parsed<Self::Model> {
        tuple12_decoding::<A, B, C, D, E, F, G, H, I, J, K, L>(data)
    }

    proof fn lemma_remainder(data: Seq<u8>) {
        reveal(tuple12_decoding);
        <(A, B, C, D, E, F, G, H, I, J, K)>::lemma_remainder(data);
        match <(A, B, C, D, E, F, G, H, I, J, K)>::decoding(data) {
            Ok((_, rest)) => {
                L::lemma_remainder(rest);
                match L::decoding(rest) {
                    Ok((_, rest2)) => {
                        lemma_suffix_trans(rest2, rest, data);
                    },
                    Err(_) => {},
                }
            },
            Err(_) => {},
        }
    }

    fn mc_deserialize(data: &[u8]) -> (res: DeserializeResult<'_, Self>) {
        proof {
            reveal(tuple12_decoding);
        }
        let Deserialized { value: front, data: rest } =
            <(A, B, C, D, E, F, G, H, I, J, K)>::mc_deserialize(data)?;
        let Deserialized { value: back, data: rest } = L::mc_deserialize(rest)?;
        let (a, b, c, d, e, f, g, h, i, j, k) = front;
        Deserialized::ok((a, b, c, d, e, f, g, h, i, j, k, back), rest)
    }
}

impl<
    A: ProtocolType, B: ProtocolType, C: ProtocolType, D: ProtocolType, E: ProtocolType,
    F: ProtocolType, G: ProtocolType, H: ProtocolType, I: ProtocolType, J: ProtocolType,
    K: ProtocolType, L: ProtocolType,
> ProtocolType for (A, B, C, D, E, F, G, H, I, J, K, L) {
    /// Every part is legal, and every part but the last announces its own
    /// end.
    open spec fn legal(&self) -> bool {
        &&& <(A, B, C, D, E, F, G, H, I, J, K)>::self_delimiting()
        &&& (
            self.0,
            self.1,
            self.2,
            self.3,
            self.4,
            self.5,
            self.6,
            self.7,
            self.8,
            self.9,
            self.10,
        ).legal()
        &&& self.11.legal()
    }

    open spec fn self_delimiting() -> bool {
        <(A, B, C, D, E, F, G, H, I, J, K)>::self_delimiting() && L::self_delimiting()
    }

    proof fn lemma_round_trip(&self, rest: Seq<u8>) {
        reveal(tuple12_wire);
        reveal(tuple12_decoding);
        let front =
            (
                self.0,
                self.1,
                self.2,
                self.3,
                self.4,
                self.5,
                self.6,
                self.7,
                self.8,
                self.9,
                self.10,
            );
        front.lemma_round_trip(self.11.wire() + rest);
        self.11.lemma_round_trip(rest);
        lemma_concat_assoc(front.wire(), self.11.wire(), rest);
    }
}

/// Thirteen values as they are written: one behind the other.
#[verifier::opaque]
pub open spec fn tuple13_wire<
    A: Serialize, B: Serialize, C: Serialize, D: Serialize, E: Serialize, F: Serialize,
    G: Serialize, H: Serialize, I: Serialize, J: Serialize, K: Serialize, L: Serialize,
    M: Serialize,
>(t: (A, B, C, D, E, F, G, H, I, J, K, L, M)) -> Seq<u8> {
    (t.0, t.1, t.2, t.3, t.4, t.5, t.6, t.7, t.8, t.9, t.10, t.11).wire() + t.12.wire()
}

/// Thirteen values read one behind the other, each from what the one before left
/// over; the first failure ends it.
#[verifier::opaque]
pub open spec fn tuple13_decoding<
    A: Deserialize, B: Deserialize, C: Deserialize, D: Deserialize, E: Deserialize,
    F: Deserialize, G: Deserialize, H: Deserialize, I: Deserialize, J: Deserialize,
    K: Deserialize, L: Deserialize, M: Deserialize,
>(data: Seq<u8>) -> Parsed<
    (
        A::Model, B::Model, C::Model, D::Model, E::Model, F::Model, G::Model, H::Model, I::Model,
        J::Model, K::Model, L::Model, M::Model,
    ),
> {
    match <(A, B, C, D, E, F, G, H, I, J, K, L)>::decoding(data) {
        Err(e) => Err(e),
        Ok((front, rest)) => match M::decoding(rest) {
            Err(e) => Err(e),
            Ok((back, rest)) => Ok((
                (
                    front.0, front.1, front.2, front.3, front.4, front.5, front.6, front.7,
                    front.8, front.9, front.10, front.11, back,
                ),
                rest,
            )),
        },
    }
}

pub proof fn lemma_tuple13_wire<
    A: Serialize, B: Serialize, C: Serialize, D: Serialize, E: Serialize, F: Serialize,
    G: Serialize, H: Serialize, I: Serialize, J: Serialize, K: Serialize, L: Serialize,
    M: Serialize,
>(t: &(A, B, C, D, E, F, G, H, I, J, K, L, M))
    ensures
        t.wire() == t.0.wire() + t.1.wire() + t.2.wire() + t.3.wire() + t.4.wire() + t.5.wire()
            + t.6.wire()
            + t.7.wire() + t.8.wire() + t.9.wire() + t.10.wire() + t.11.wire() + t.12.wire(),
{
    reveal(tuple13_wire);
    lemma_tuple12_wire(&(t.0, t.1, t.2, t.3, t.4, t.5, t.6, t.7, t.8, t.9, t.10, t.11));
}

impl<
    A: Serialize, B: Serialize, C: Serialize, D: Serialize, E: Serialize, F: Serialize,
    G: Serialize, H: Serialize, I: Serialize, J: Serialize, K: Serialize, L: Serialize,
    M: Serialize,
> Serialize for (A, B, C, D, E, F, G, H, I, J, K, L, M) {
    open spec fn wire(&self) -> Seq<u8> {
        tuple13_wire(*self)
    }

    fn mc_serialize<S: Serializer>(&self, to: &mut S) -> (res: SerializeResult) {
        self.0.mc_serialize(to)?;
        self.1.mc_serialize(to)?;
        self.2.mc_serialize(to)?;
        self.3.mc_serialize(to)?;
        self.4.mc_serialize(to)?;
        self.5.mc_serialize(to)?;
        self.6.mc_serialize(to)?;
        self.7.mc_serialize(to)?;
        self.8.mc_serialize(to)?;
        self.9.mc_serialize(to)?;
        self.10.mc_serialize(to)?;
        self.11.mc_serialize(to)?;
        let res = self.12.mc_serialize(to);
        proof {
            broadcast use lemma_concat_assoc;

            lemma_tuple13_wire(self);
        }
        res
    }
}

impl<
    A: Deserialize, B: Deserialize, C: Deserialize, D: Deserialize, E: Deserialize,
    F: Deserialize, G: Deserialize, H: Deserialize, I: Deserialize, J: Deserialize,
    K: Deserialize, L: Deserialize, M: Deserialize,
> Deserialize for (A, B, C, D, E, F, G, H, I, J, K, L, M) {
    type Model = (
        A::Model, B::Model, C::Model, D::Model, E::Model, F::Model, G::Model, H::Model, I::Model,
        J::Model, K::Model, L::Model, M::Model,
    );

    open spec fn model(&self) -> Self::Model {
        (
            self.0.model(), self.1.model(), self.2.model(), self.3.model(), self.4.model(),
            self.5.model(), self.6.model(), self.7.model(), self.8.model(), self.9.model(),
            self.10.model(), self.11.model(), self.12.model(),
        )
    }

    open spec fn decoding(data: Seq<u8>) -> Parsed<Self::Model> {
        tuple13_decoding::<A, B, C, D, E, F, G, H, I, J, K, L, M>(data)
    }

    proof fn lemma_remainder(data: Seq<u8>) {
        reveal(tuple13_decoding);
        <(A, B, C, D, E, F, G, H, I, J, K, L)>::lemma_remainder(data);
        match <(A, B, C, D, E, F, G, H, I, J, K, L)>::decoding(data) {
            Ok((_, rest)) => {
                M::lemma_remainder(rest);
                match M::decoding(rest) {
                    Ok((_, rest2)) => {
                        lemma_suffix_trans(rest2, rest, data);
                    },
                    Err(_) => {},
                }
            },
            Err(_) => {},
        }
    }

    fn mc_deserialize(data: &[u8]) -> (res: DeserializeResult<'_, Self>) {
        proof {
            reveal(tuple13_decoding);
        }
        let Deserialized { value: front, data: rest } =
            <(A, B, C, D, E, F, G, H, I, J, K, L)>::mc_deserialize(data)?;
        let Deserialized { value: back, data: rest } = M::mc_deserialize(rest)?;
        let (a, b, c, d, e, f, g, h, i, j, k, l) = front;
        Deserialized::ok((a, b, c, d, e, f, g, h, i, j, k, l, back), rest)
    }
}

impl<
    A: ProtocolType, B: ProtocolType, C: ProtocolType, D: ProtocolType, E: ProtocolType,
    F: ProtocolType, G: ProtocolType, H: ProtocolType, I: ProtocolType, J: ProtocolType,
    K: ProtocolType, L: ProtocolType, M: ProtocolType,
> ProtocolType for (A, B, C, D, E, F, G, H, I, J, K, L, M) {
    /// Every part is legal, and every part but the last announces its own
    /// end.
    open spec fn legal(&self) -> bool {
        &&& <(A, B, C, D, E, F, G, H, I, J, K, L)>::self_delimiting()
        &&& (
            self.0,
            self.1,
            self.2,
            self.3,
            self.4,
            self.5,
            self.6,
            self.7,
            self.8,
            self.9,
            self.10,
            self.11,
        ).legal()
        &&& self.12.legal()
    }

    open spec fn self_delimiting() -> bool {
        <(A, B, C, D, E, F, G, H, I, J, K, L)>::self_delimiting() && M::self_delimiting()
    }

    proof fn lemma_round_trip(&self, rest: Seq<u8>) {
        reveal(tuple13_wire);
        reveal(tuple13_decoding);
        let front =
            (
                self.0,
                self.1,
                self.2,
                self.3,
                self.4,
                self.5,
                self.6,
                self.7,
                self.8,
                self.9,
                self.10,
                self.11,
            );
        front.lemma_round_trip(self.12.wire() + rest);
        self.12.lemma_round_trip(rest);
        lemma_concat_assoc(front.wire(), self.12.wire(), rest);
    }
}

/// Fourteen values as they are written: one behind the other.
#[verifier::opaque]
pub open spec fn tuple14_wire<
    A: Serialize, B: Serialize, C: Serialize, D: Serialize, E: Serialize, F: Serialize,
    G: Serialize, H: Serialize, I: Serialize, J: Serialize, K: Serialize, L: Serialize,
    M: Serialize, N: Serialize,
>(t: (A, B, C, D, E, F, G, H, I, J, K, L, M, N)) -> Seq<u8> {
    (t.0, t.1, t.2, t.3, t.4, t.5, t.6, t.7, t.8, t.9, t.10, t.11, t.12).wire() + t.13.wire()
}

/// Fourteen values read one behind the other, each from what the one before left
/// over; the first failure ends it.
#[verifier::opaque]
pub open spec fn tuple14_decoding<
    A: Deserialize, B: Deserialize, C: Deserialize, D: Deserialize, E: Deserialize,
    F: Deserialize, G: Deserialize, H: Deserialize, I: Deserialize, J: Deserialize,
    K: Deserialize, L: Deserialize, M: Deserialize, N: Deserialize,
>(data: Seq<u8>) -> Parsed<
    (
        A::Model, B::Model, C::Model, D::Model, E::Model, F::Model, G::Model, H::Model, I::Model,
        J::Model, K::Model, L::Model, M::Model, N::Model,
    ),
> {
    match <(A, B, C, D, E, F, G, H, I, J, K, L, M)>::decoding(data) {
        Err(e) => Err(e),
        Ok((front, rest)) => match N::decoding(rest) {
            Err(e) => Err(e),
            Ok((back, rest)) => Ok((
                (
                    front.0, front.1, front.2, front.3, front.4, front.5, front.6, front.7,
                    front.8, front.9, front.10, front.11, front.12, back,
                ),
                rest,
            )),
        },
    }
}

pub proof fn lemma_tuple14_wire<
    A: Serialize, B: Serialize, C: Serialize, D: Serialize, E: Serialize, F: Serialize,
    G: Serialize, H: Serialize, I: Serialize, J: Serialize, K: Serialize, L: Serialize,
    M: Serialize, N: Serialize,
>(t: &(A, B, C, D, E, F, G, H, I, J, K, L, M, N))
    ensures
        t.wire() == t.0.wire() + t.1.wire() + t.2.wire() + t.3.wire() + t.4.wire() + t.5.wire()
            + t.6.wire()
            + t.7.wire() + t.8.wire() + t.9.wire() + t.10.wire() + t.11.wire() + t.12.wire()
            + t.13.wire(),
{
    reveal(tuple14_wire);
    lemma_tuple13_wire(&(t.0, t.1, t.2, t.3, t.4, t.5, t.6, t.7, t.8, t.9, t.10, t.11, t.12));
}

impl<
    A: Serialize, B: Serialize, C: Serialize, D: Serialize, E: Serialize, F: Serialize,
    G: Serialize, H: Serialize, I: Serialize, J: Serialize, K: Serialize, L: Serialize,
    M: Serialize, N: Serialize,
> Serialize for (A, B, C, D, E, F, G, H, I, J, K, L, M, N) {
    open spec fn wire(&self) -> Seq<u8> {
        tuple14_wire(*self)
    }

    fn mc_serialize<S: Serializer>(&self, to: &mut S) -> (res: SerializeResult) {
        self.0.mc_serialize(to)?;
        self.1.mc_serialize(to)?;
        self.2.mc_serialize(to)?;
        self.3.mc_serialize(to)?;
        self.4.mc_serialize(to)?;
        self.5.mc_serialize(to)?;
        self.6.mc_serialize(to)?;
        self.7.mc_serialize(to)?;
        self.8.mc_serialize(to)?;
        self.9.mc_serialize(to)?;
        self.10.mc_serialize(to)?;
        self.11.mc_serialize(to)?;
        self.12.mc_serialize(to)?;
        let res = self.13.mc_serialize(to);
        proof {
            broadcast use lemma_concat_assoc;

            lemma_tuple14_wire(self);
        }
        res
    }
}

impl<
    A: Deserialize, B: Deserialize, C: Deserialize, D: Deserialize, E: Deserialize,
    F: Deserialize, G: Deserialize, H: Deserialize, I: Deserialize, J: Deserialize,
    K: Deserialize, L: Deserialize, M: Deserialize, N: Deserialize,
> Deserialize for (A, B, C, D, E, F, G, H, I, J, K, L, M, N) {
    type Model = (
        A::Model, B::Model, C::Model, D::Model, E::Model, F::Model, G::Model, H::Model, I::Model,
        J::Model, K::Model, L::Model, M::Model, N::Model,
    );

    open spec fn model(&self) -> Self::Model {
        (
            self.0.model(), self.1.model(), self.2.model(), self.3.model(), self.4.model(),
            self.5.model(), self.6.model(), self.7.model(), self.8.model(), self.9.model(),
            self.10.model(), self.11.model(), self.12.model(), self.13.model(),
        )
    }

    open spec fn decoding(data: Seq<u8>) -> Parsed<Self::Model> {
        tuple14_decoding::<A, B, C, D, E, F, G, H, I, J, K, L, M, N>(data)
    }

    proof fn lemma_remainder(data: Seq<u8>) {
        reveal(tuple14_decoding);
        <(A, B, C, D, E, F, G, H, I, J, K, L, M)>::lemma_remainder(data);
        match <(A, B, C, D, E, F, G, H, I, J, K, L, M)>::decoding(data) {
            Ok((_, rest)) => {
                N::lemma_remainder(rest);
                match N::decoding(rest) {
                    Ok((_, rest2)) => {
                        lemma_suffix_trans(rest2, rest, data);
                    },
                    Err(_) => {},
                }
            },
            Err(_) => {},
        }
    }

    fn mc_deserialize(data: &[u8]) -> (res: DeserializeResult<'_, Self>) {
        proof {
            reveal(tuple14_decoding);
        }
        let Deserialized { value: front, data: rest } =
            <(A, B, C, D, E, F, G, H, I, J, K, L, M)>::mc_deserialize(data)?;
        let Deserialized { value: back, data: rest } = N::mc_deserialize(rest)?;
        let (a, b, c, d, e, f, g, h, i, j, k, l, m) = front;
        Deserialized::ok((a, b, c, d, e, f, g, h, i, j, k, l, m, back), rest)
    }
}

impl<
    A: ProtocolType, B: ProtocolType, C: ProtocolType, D: ProtocolType, E: ProtocolType,
    F: ProtocolType, G: ProtocolType, H: ProtocolType, I: ProtocolType, J: ProtocolType,
    K: ProtocolType, L: ProtocolType, M: ProtocolType, N: ProtocolType,
> ProtocolType for (A, B, C, D, E, F, G, H, I, J, K, L, M, N) {
    /// Every part is legal, and every part but the last announces its own
    /// end.
    open spec fn legal(&self) -> bool {
        &&& <(A, B, C, D, E, F, G, H, I, J, K, L, M)>::self_delimiting()
        &&& (
            self.0,
            self.1,
            self.2,
            self.3,
            self.4,
            self.5,
            self.6,
            self.7,
            self.8,
            self.9,
            self.10,
            self.11,
            self.12,
        ).legal()
        &&& self.13.legal()
    }

    open spec fn self_delimiting() -> bool {
        <(A, B, C, D, E, F, G, H, I, J, K, L, M)>::self_delimiting() && N::self_delimiting()
    }

    proof fn lemma_round_trip(&self, rest: Seq<u8>) {
        reveal(tuple14_wire);
        reveal(tuple14_decoding);
        let front =
            (
                self.0,
                self.1,
                self.2,
                self.3,
                self.4,
                self.5,
                self.6,
                self.7,
                self.8,
                self.9,
                self.10,
                self.11,
                self.12,
            );
        front.lemma_round_trip(self.13.wire() + rest);
        self.13.lemma_round_trip(rest);
        lemma_concat_assoc(front.wire(), self.13.wire(), rest);
    }
}

/// Fifteen values as they are written: one behind the other.
#[verifier::opaque]
pub open spec fn tuple15_wire<
    A: Serialize, B: Serialize, C: Serialize, D: Serialize, E: Serialize, F: Serialize,
    G: Serialize, H: Serialize, I: Serialize, J: Serialize, K: Serialize, L: Serialize,
    M: Serialize, N: Serialize, O: Serialize,
>(t: (A, B, C, D, E, F, G, H, I, J, K, L, M, N, O)) -> Seq<u8> {
    (t.0, t.1, t.2, t.3, t.4, t.5, t.6, t.7, t.8, t.9, t.10, t.11, t.12, t.13).wire() + t.14.wire()
}

/// Fifteen values read one behind the other, each from what the one before left
/// over; the first failure ends it.
#[verifier::opaque]
pub open spec fn tuple15_decoding<
    A: Deserialize, B: Deserialize, C: Deserialize, D: Deserialize, E: Deserialize,
    F: Deserialize, G: Deserialize, H: Deserialize, I: Deserialize, J: Deserialize,
    K: Deserialize, L: Deserialize, M: Deserialize, N: Deserialize, O: Deserialize,
>(data: Seq<u8>) -> Parsed<
    (
        A::Model, B::Model, C::Model, D::Model, E::Model, F::Model, G::Model, H::Model, I::Model,
        J::Model, K::Model, L::Model, M::Model, N::Model, O::Model,
    ),
> {
    match <(A, B, C, D, E, F, G, H, I, J, K, L, M, N)>::decoding(data) {
        Err(e) => Err(e),
        Ok((front, rest)) => match O::decoding(rest) {
            Err(e) => Err(e),
            Ok((back, rest)) => Ok((
                (
                    front.0, front.1, front.2, front.3, front.4, front.5, front.6, front.7,
                    front.8, front.9, front.10, front.11, front.12, front.13, back,
                ),
                rest,
            )),
        },
    }
}

pub proof fn lemma_tuple15_wire<
    A: Serialize, B: Serialize, C: Serialize, D: Serialize, E: Serialize, F: Serialize,
    G: Serialize, H: Serialize, I: Serialize, J: Serialize, K: Serialize, L: Serialize,
    M: Serialize, N: Serialize, O: Serialize,
>(t: &(A, B, C, D, E, F, G, H, I, J, K, L, M, N, O))
    ensures
        t.wire() == t.0.wire() + t.1.wire() + t.2.wire() + t.3.wire() + t.4.wire() + t.5.wire()
            + t.6.wire()
            + t.7.wire() + t.8.wire() + t.9.wire() + t.10.wire() + t.11.wire() + t.12.wire()
            + t.13.wire() + t.14.wire(),
{
    reveal(tuple15_wire);
    lemma_tuple14_wire(&(t.0, t.1, t.2, t.3, t.4, t.5, t.6, t.7, t.8, t.9, t.10, t.11, t.12, t.13));
}

impl<
    A: Serialize, B: Serialize, C: Serialize, D: Serialize, E: Serialize, F: Serialize,
    G: Serialize, H: Serialize, I: Serialize, J: Serialize, K: Serialize, L: Serialize,
    M: Serialize, N: Serialize, O: Serialize,
> Serialize for (A, B, C, D, E, F, G, H, I, J, K, L, M, N, O) {
    open spec fn wire(&self) -> Seq<u8> {
        tuple15_wire(*self)
    }

    fn mc_serialize<S: Serializer>(&self, to: &mut S) -> (res: SerializeResult) {
        self.0.mc_serialize(to)?;
        self.1.mc_serialize(to)?;
        self.2.mc_serialize(to)?;
        self.3.mc_serialize(to)?;
        self.4.mc_serialize(to)?;
        self.5.mc_serialize(to)?;
        self.6.mc_serialize(to)?;
        self.7.mc_serialize(to)?;
        self.8.mc_serialize(to)?;
        self.9.mc_serialize(to)?;
        self.10.mc_serialize(to)?;
        self.11.mc_serialize(to)?;
        self.12.mc_serialize(to)?;
        self.13.mc_serialize(to)?;
        let res = self.14.mc_serialize(to);
        proof {
            broadcast use lemma_concat_assoc;

            lemma_tuple15_wire(self);
        }
        res
    }
}

impl<
    A: Deserialize, B: Deserialize, C: Deserialize, D: Deserialize, E: Deserialize,
    F: Deserialize, G: Deserialize, H: Deserialize, I: Deserialize, J: Deserialize,
    K: Deserialize, L: Deserialize, M: Deserialize, N: Deserialize, O: Deserialize,
> Deserialize for (A, B, C, D, E, F, G, H, I, J, K, L, M, N, O) {
    type Model = (
        A::Model, B::Model, C::Model, D::Model, E::Model, F::Model, G::Model, H::Model, I::Model,
        J::Model, K::Model, L::Model, M::Model, N::Model, O::Model,
    );

    open spec fn model(&self) -> Self::Model {
        (
            self.0.model(), self.1.model(), self.2.model(), self.3.model(), self.4.model(),
            self.5.model(), self.6.model(), self.7.model(), self.8.model(), self.9.model(),
            self.10.model(), self.11.model(), self.12.model(), self.13.model(), self.14.model(),
        )
    }

    open spec fn decoding(data: Seq<u8>) -> Parsed<Self::Model> {
        tuple15_decoding::<A, B, C, D, E, F, G, H, I, J, K, L, M, N, O>(data)
    }

    proof fn lemma_remainder(data: Seq<u8>) {
        reveal(tuple15_decoding);
        <(A, B, C, D, E, F, G, H, I, J, K, L, M, N)>::lemma_remainder(data);
        match <(A, B, C, D, E, F, G, H, I, J, K, L, M, N)>::decoding(data) {
            Ok((_, rest)) => {
                O::lemma_remainder(rest);
                match O::decoding(rest) {
                    Ok((_, rest2)) => {
                        lemma_suffix_trans(rest2, rest, data);
                    },
                    Err(_) => {},
                }
            },
            Err(_) => {},
        }
    }

    fn mc_deserialize(data: &[u8]) -> (res: DeserializeResult<'_, Self>) {
        proof {
            reveal(tuple15_decoding);
        }
        let Deserialized { value: front, data: rest } =
            <(A, B, C, D, E, F, G, H, I, J, K, L, M, N)>::mc_deserialize(data)?;
        let Deserialized { value: back, data: rest } = O::mc_deserialize(rest)?;
        let (a, b, c, d, e, f, g, h, i, j, k, l, m, n) = front;
        Deserialized::ok((a, b, c, d, e, f, g, h, i, j, k, l, m, n, back), rest)
    }
}

impl<
    A: ProtocolType, B: ProtocolType, C: ProtocolType, D: ProtocolType, E: ProtocolType,
    F: ProtocolType, G: ProtocolType, H: ProtocolType, I: ProtocolType, J: ProtocolType,
    K: ProtocolType, L: ProtocolType, M: ProtocolType, N: ProtocolType, O: ProtocolType,
> ProtocolType for (A, B, C, D, E, F, G, H, I, J, K, L, M, N, O) {
    /// Every part is legal, and every part but the last announces its own
    /// end.
    open spec fn legal(&self) -> bool {
        &&& <(A, B, C, D, E, F, G, H, I, J, K, L, M, N)>::self_delimiting()
        &&& (
            self.0,
            self.1,
            self.2,
            self.3,
            self.4,
            self.5,
            self.6,
            self.7,
            self.8,
            self.9,
            self.10,
            self.11,
            self.12,
            self.13,
        ).legal()
        &&& self.14.legal()
    }

    open spec fn self_delimiting() -> bool {
        <(A, B, C, D, E, F, G, H, I, J, K, L, M, N)>::self_delimiting() && O::self_delimiting()
    }

    proof fn lemma_round_trip(&self, rest: Seq<u8>) {
        reveal(tuple15_wire);
        reveal(tuple15_decoding);
        let front =
            (
                self.0,
                self.1,
                self.2,
                self.3,
                self.4,
                self.5,
                self.6,
                self.7,
                self.8,
                self.9,
                self.10,
                self.11,
                self.12,
                self.13,
            );
        front.lemma_round_trip(self.14.wire() + rest);
        self.14.lemma_round_trip(rest);
        lemma_concat_assoc(front.wire(), self.14.wire(), rest);
    }
}

/// Sixteen values as they are written: one behind the other.
#[verifier::opaque]
pub open spec fn tuple16_wire<
    A: Serialize, B: Serialize, C: Serialize, D: Serialize, E: Serialize, F: Serialize,
    G: Serialize, H: Serialize, I: Serialize, J: Serialize, K: Serialize, L: Serialize,
    M: Serialize, N: Serialize, O: Serialize, P: Serialize,
>(t: (A, B, C, D, E, F, G, H, I, J, K, L, M, N, O, P)) -> Seq<u8> {
    (t.0, t.1, t.2, t.3, t.4, t.5, t.6, t.7, t.8, t.9, t.10, t.11, t.12, t.13, t.14).wire()
        + t.15.wire()
}

/// Sixteen values read one behind the other, each from what the one before left
/// over; the first failure ends it.
#[verifier::opaque]
pub open spec fn tuple16_decoding<
    A: Deserialize, B: Deserialize, C: Deserialize, D: Deserialize, E: Deserialize,
    F: Deserialize, G: Deserialize, H: Deserialize, I: Deserialize, J: Deserialize,
    K: Deserialize, L: Deserialize, M: Deserialize, N: Deserialize, O: Deserialize,
    P: Deserialize,
>(data: Seq<u8>) -> Parsed<
    (
        A::Model, B::Model, C::Model, D::Model, E::Model, F::Model, G::Model, H::Model, I::Model,
        J::Model, K::Model, L::Model, M::Model, N::Model, O::Model, P::Model,
    ),
> {
    match <(A, B, C, D, E, F, G, H, I, J, K, L, M, N, O)>::decoding(data) {
        Err(e) => Err(e),
        Ok((front, rest)) => match P::decoding(rest) {
            Err(e) => Err(e),
            Ok((back, rest)) => Ok((
                (
                    front.0, front.1, front.2, front.3, front.4, front.5, front.6, front.7,
                    front.8, front.9, front.10, front.11, front.12, front.13, front.14, back,
                ),
                rest,
            )),
        },
    }
}

pub proof fn lemma_tuple16_wire<
    A: Serialize, B: Serialize, C: Serialize, D: Serialize, E: Serialize, F: Serialize,
    G: Serialize, H: Serialize, I: Serialize, J: Serialize, K: Serialize, L: Serialize,
    M: Serialize, N: Serialize, O: Serialize, P: Serialize,
>(t: &(A, B, C, D, E, F, G, H, I, J, K, L, M, N, O, P))
    ensures
        t.wire() == t.0.wire() + t.1.wire() + t.2.wire() + t.3.wire() + t.4.wire() + t.5.wire()
            + t.6.wire()
            + t.7.wire() + t.8.wire() + t.9.wire() + t.10.wire() + t.11.wire() + t.12.wire()
            + t.13.wire() + t.14.wire() + t.15.wire(),
{
    reveal(tuple16_wire);
    lemma_tuple15_wire(
        &(t.0, t.1, t.2, t.3, t.4, t.5, t.6, t.7, t.8, t.9, t.10, t.11, t.12, t.13, t.14),
    );
}

impl<
    A: Serialize, B: Serialize, C: Serialize, D: Serialize, E: Serialize, F: Serialize,
    G: Serialize, H: Serialize, I: Serialize, J: Serialize, K: Serialize, L: Serialize,
    M: Serialize, N: Serialize, O: Serialize, P: Serialize,
> Serialize for (A, B, C, D, E, F, G, H, I, J, K, L, M, N, O, P) {
    open spec fn wire(&self) -> Seq<u8> {
        tuple16_wire(*self)
    }

    fn mc_serialize<S: Serializer>(&self, to: &mut S) -> (res: SerializeResult) {
        self.0.mc_serialize(to)?;
        self.1.mc_serialize(to)?;
        self.2.mc_serialize(to)?;
        self.3.mc_serialize(to)?;
        self.4.mc_serialize(to)?;
        self.5.mc_serialize(to)?;
        self.6.mc_serialize(to)?;
        self.7.mc_serialize(to)?;
        self.8.mc_serialize(to)?;
        self.9.mc_serialize(to)?;
        self.10.mc_serialize(to)?;
        self.11.mc_serialize(to)?;
        self.12.mc_serialize(to)?;
        self.13.mc_serialize(to)?;
        self.14.mc_serialize(to)?;
        let res = self.15.mc_serialize(to);
        proof {
            broadcast use lemma_concat_assoc;

            lemma_tuple16_wire(self);
        }
        res
    }
}

impl<
    A: Deserialize, B: Deserialize, C: Deserialize, D: Deserialize, E: Deserialize,
    F: Deserialize, G: Deserialize, H: Deserialize, I: Deserialize, J: Deserialize,
    K: Deserialize, L: Deserialize, M: Deserialize, N: Deserialize, O: Deserialize,
    P: Deserialize,
> Deserialize for (A, B, C, D, E, F, G, H, I, J, K, L, M, N, O, P) {
    type Model = (
        A::Model, B::Model, C::Model, D::Model, E::Model, F::Model, G::Model, H::Model, I::Model,
        J::Model, K::Model, L::Model, M::Model, N::Model, O::Model, P::Model,
    );

    open spec fn model(&self) -> Self::Model {
        (
            self.0.model(), self.1.model(), self.2.model(), self.3.model(), self.4.model(),
            self.5.model(), self.6.model(), self.7.model(), self.8.model(), self.9.model(),
            self.10.model(), self.11.model(), self.12.model(), self.13.model(), self.14.model(),
            self.15.model(),
        )
    }

    open spec fn decoding(data: Seq<u8>) -> Parsed<Self::Model> {
        tuple16_decoding::<A, B, C, D, E, F, G, H, I, J, K, L, M, N, O, P>(data)
    }

    proof fn lemma_remainder(data: Seq<u8>) {
        reveal(tuple16_decoding);
        <(A, B, C, D, E, F, G, H, I, J, K, L, M, N, O)>::lemma_remainder(data);
        match <(A, B, C, D, E, F, G, H, I, J, K, L, M, N, O)>::decoding(data) {
            Ok((_, rest)) => {
                P::lemma_remainder(rest);
                match P::decoding(rest) {
                    Ok((_, rest2)) => {
                        lemma_suffix_trans(rest2, rest, data);
                    },
                    Err(_) => {},
                }
            },
            Err(_) => {},
        }
    }

    fn mc_deserialize(data: &[u8]) -> (res: DeserializeResult<'_, Self>) {
        proof {
            reveal(tuple16_decoding);
        }
        let Deserialized { value: front, data: rest } =
            <(A, B, C, D, E, F, G, H, I, J, K, L, M, N, O)>::mc_deserialize(data)?;
        let Deserialized { value: back, data: rest } = P::mc_deserialize(rest)?;
        let (a, b, c, d, e, f, g, h, i, j, k, l, m, n, o) = front;
        Deserialized::ok((a, b, c, d, e, f, g, h, i, j, k, l, m, n, o, back), rest)
    }
}

impl<
    A: ProtocolType, B: ProtocolType, C: ProtocolType, D: ProtocolType, E: ProtocolType,
    F: ProtocolType, G: ProtocolType, H: ProtocolType, I: ProtocolType, J: ProtocolType,
    K: ProtocolType, L: ProtocolType, M: ProtocolType, N: ProtocolType, O: ProtocolType,
    P: ProtocolType,
> ProtocolType for (A, B, C, D, E, F, G, H, I, J, K, L, M, N, O, P) {
    /// Every part is legal, and every part but the last announces its own
    /// end.
    open spec fn legal(&self) -> bool {
        &&& <(A, B, C, D, E, F, G, H, I, J, K, L, M, N, O)>::self_delimiting()
        &&& (
            self.0,
            self.1,
            self.2,
            self.3,
            self.4,
            self.5,
            self.6,
            self.7,
            self.8,
            self.9,
            self.10,
            self.11,
            self.12,
            self.13,
            self.14,
        ).legal()
        &&& self.15.legal()
    }

    open spec fn self_delimiting() -> bool {
        <(A, B, C, D, E, F, G, H, I, J, K, L, M, N, O)>::self_delimiting() && P::self_delimiting()
    }

    proof fn lemma_round_trip(&self, rest: Seq<u8>) {
        reveal(tuple16_wire);
        reveal(tuple16_decoding);
        let front =
            (
                self.0,
                self.1,
                self.2,
                self.3,
                self.4,
                self.5,
                self.6,
                self.7,
                self.8,
                self.9,
                self.10,
                self.11,
                self.12,
                self.13,
                self.14,
            );
        front.lemma_round_trip(self.15.wire() + rest);
        self.15.lemma_round_trip(rest);
        lemma_concat_assoc(front.wire(), self.15.wire(), rest);
    }
}

} // verus!
