use crate::serialize::{SerializeResult, Serializer};
use vstd::prelude::*;

verus! {

/// A sink for measuring: it keeps what it is given, can say how much that is,
/// and can be emptied and used again.
#[derive(Clone, Debug, PartialEq)]
pub struct BenchSerializer {
    data: Vec<u8>,
}

impl Serializer for BenchSerializer {
    closed spec fn written(&self) -> Seq<u8> {
        self.data@
    }

    open spec fn reliable(&self) -> bool {
        true
    }

    fn serialize_bytes(&mut self, data: &[u8]) -> (res: SerializeResult) {
        self.data.extend_from_slice(data);
        Ok(())
    }
}

impl Default for BenchSerializer {
    fn default() -> (res: Self)
        ensures
            res.written() == Seq::<u8>::empty(),
    {
        BenchSerializer { data: Vec::new() }
    }
}

impl BenchSerializer {
    /// Forgets everything written so far.
    pub fn reset(&mut self)
        ensures
            final(self).written() == Seq::<u8>::empty(),
    {
        self.data.clear();
    }

    /// How many bytes have been written since the sink was made or last reset.
    pub fn len(&self) -> (res: usize)
        ensures
            res == self.written().len(),
    {
        self.data.len()
    }
}

} // verus!
