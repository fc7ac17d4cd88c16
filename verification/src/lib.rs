//! A codec for the wire protocol of a block-building multiplayer game: typed
//! records in, exact bytes out, and back again.
//!
//! Every codec is described by a mathematical model: what a value is written
//! as ([`Serialize::wire`]), what a byte sequence decodes to
//! ([`Deserialize::decoding`]), and the proof that the two agree
//! ([`ProtocolType`]). The executable encoders and decoders are verified
//! against that model.

pub mod chat;
pub mod deserialize;
pub mod protocol;
pub mod serialize;
pub mod tag_tree;
pub mod test_macros;
pub mod tuples;
pub mod types;
pub mod utils;
pub mod uuid;
pub mod v1_15_2;
pub mod wire;

pub use deserialize::{Deserialize, DeserializeErr, DeserializeResult, Deserialized, Fault};
pub use serialize::{Serialize, SerializeErr, SerializeResult, Serializer};
pub use protocol::ProtocolType;
pub use wire::{is_suffix, Parsed};
