use crate::deserialize::{Deserialize, DeserializeErr, Fault};
use crate::serialize::Serialize;
use vstd::prelude::*;

verus! {

/// A description of a protocol version as plain data: its name and its packets.
#[derive(Debug, Clone, PartialEq, Eq)]
pub struct ProtocolSpec {
    pub name: String,
    pub packets: Vec<ProtocolPacketSpec>,
}

/// A description of one packet: when it may be sent, by whom, under which
/// number, and what it holds.
#[derive(Debug, Clone, PartialEq, Eq)]
pub struct ProtocolPacketSpec {
    pub state: String,
    pub direction: String,
    pub id: i32,
    pub name: String,
    pub fields: Vec<ProtocolPacketField>,
}

/// A description of one field of a packet: its name and the name of its type.
#[derive(Debug, Clone, PartialEq, Eq)]
pub struct ProtocolPacketField {
    pub name: String,
    pub kind: String,
}

/// What tells one kind of packet from another.
pub trait PacketIdentifier: Clone + PartialEq + Serialize {

}

impl<T: Clone + PartialEq + Serialize> PacketIdentifier for T {

}

/// Why a packet could not be read.
#[derive(Debug)]
pub enum PacketErr {
    /// The registry holds no packet of this identity; the number is the
    /// identity's own.
    UnknownId(i32),
    /// The registry knows the identity, and the body did not decode.
    DeserializeFailed(DeserializeErr),
}

/// A packet as the transport hands it over: an identity and the bytes of a
/// body.
#[derive(Debug, Clone, PartialEq)]
pub struct RawPacket<I> {
    pub id: I,
    pub data: Vec<u8>,
}

/// The failure of a decode, if it failed.
pub open spec fn fault_of<M>(parsed: Result<(M, Seq<u8>), Fault>) -> Option<Fault> {
    match parsed {
        Ok(_) => None,
        Err(e) => Some(e),
    }
}

/// The packets of one protocol version. Only the body of a packet travels
/// through this layer; its identity comes and goes by the side.
pub trait Packet<I: PacketIdentifier>: Serialize {
    /// The identity of this packet.
    spec fn spec_id(&self) -> I;

    /// Whether the registry holds a packet of this identity.
    spec fn registered(id: I) -> bool;

    /// The number that an identity carries.
    spec fn number(id: I) -> i32;

    /// Why `data` does not decode as the body that belongs to `id`, if it does
    /// not.
    spec fn body_fault(id: I, data: Seq<u8>) -> Option<Fault>;

    /// Whether this packet's body is what `data` decodes to, as a body of this
    /// packet's own kind.
    spec fn is_body(&self, data: Seq<u8>) -> bool;

    fn id(&self) -> (res: I)
        ensures
            res == self.spec_id(),
    ;

    /// Reads the body that belongs to the identity. An identity that is not
    /// registered is an error that carries its number; a body that does not
    /// decode is an error that carries the reason. Bytes behind the body are
    /// not looked at.
    fn mc_deserialize(raw: RawPacket<I>) -> (res: Result<Self, PacketErr>)
        ensures
            match res {
                Ok(packet) => Self::registered(raw.id) && packet.spec_id() == raw.id
                    && packet.is_body(raw.data@),
                Err(PacketErr::UnknownId(n)) => !Self::registered(raw.id) && n == Self::number(
                    raw.id,
                ),
                Err(PacketErr::DeserializeFailed(e)) => Self::registered(raw.id)
                    && Self::body_fault(raw.id, raw.data@) == Some(e@),
            },
    ;
}

/// A type with both halves of a codec, and the proof that they agree.
pub trait ProtocolType: Serialize + Deserialize {
    /// The values that survive a trip over the wire unchanged.
    spec fn legal(&self) -> bool;

    /// Whether an encoding of this type announces its own end. A type that
    /// swallows the rest of its input does not, and can only stand last.
    spec fn self_delimiting() -> bool;

    /// Decoding undoes encoding, and hands back untouched whatever followed.
    proof fn lemma_round_trip(&self, rest: Seq<u8>)
        requires
            self.legal(),
            Self::self_delimiting() || rest.len() == 0,
        ensures
            Self::decoding(self.wire() + rest) == Ok::<(Self::Model, Seq<u8>), Fault>(
                (self.model(), rest),
            ),
    ;
}

/// For every codec and every legal value, decoding what the value is written as
/// gives the value back and leaves nothing over.
pub proof fn law_round_trip<T: ProtocolType>(value: T)
    requires
        value.legal(),
    ensures
        T::decoding(value.wire()) == Ok::<(T::Model, Seq<u8>), Fault>(
            (value.model(), Seq::empty()),
        ),
{
    value.lemma_round_trip(Seq::empty());
    assert(value.wire() + Seq::<u8>::empty() =~= value.wire());
}

/// Every successful decode, of any type, hands back the exact part of its
/// input that it did not consume.
pub proof fn law_remainder_is_suffix<T: Deserialize>(data: Seq<u8>)
    ensures
        T::decoding(data) matches Ok((_, rest)) ==> crate::wire::is_suffix(rest, data),
{
    T::lemma_remainder(data);
}

} // verus!
