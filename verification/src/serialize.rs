use vstd::prelude::*;

verus! {

/// Why an encode step gave up.
#[derive(Debug)]
pub enum SerializeErr {
    /// Text could not be produced for a value that travels as JSON.
    FailedJsonEncode(String),
}

pub type SerializeResult = Result<(), SerializeErr>;

/// A byte sink. Encoders append to it and never read it back.
pub trait Serializer: Sized {
    /// Everything the sink has accepted so far, in order.
    spec fn written(&self) -> Seq<u8>;

    /// A reliable sink accepts every write and stays reliable.
    spec fn reliable(&self) -> bool;

    fn serialize_bytes(&mut self, data: &[u8]) -> (res: SerializeResult)
        ensures
            old(self).reliable() ==> res is Ok && final(self).reliable(),
            res is Ok ==> final(self).written() == old(self).written() + data@,
    ;

    fn serialize_byte(&mut self, byte: u8) -> (res: SerializeResult)
        ensures
            old(self).reliable() ==> res is Ok && final(self).reliable(),
            res is Ok ==> final(self).written() == old(self).written() + seq![byte],
    {
        let one = [byte];
        proof {
            assert(one@ =~= seq![byte]);
        }
        self.serialize_bytes(one.as_slice())
    }
}

/// A value that can write itself to a sink.
pub trait Serialize: Sized {
    /// The bytes this value is written as. Total: a value that is out of range
    /// for its format is written too, cut down as the format dictates.
    spec fn wire(&self) -> Seq<u8>;

    /// Appends exactly `wire()` to the sink; on a reliable sink this always
    /// succeeds.
    fn mc_serialize<S: Serializer>(&self, to: &mut S) -> (res: SerializeResult)
        ensures
            old(to).reliable() ==> res is Ok && final(to).reliable(),
            res is Ok ==> final(to).written() == old(to).written() + self.wire(),
    ;
}

} // verus!
