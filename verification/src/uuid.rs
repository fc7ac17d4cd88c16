use vstd::prelude::*;

verus! {

/// A 128-bit identifier.
#[derive(Copy, Clone, PartialEq, Eq, Debug, Hash)]
pub struct UUID4 {
    raw: u128,
}

impl UUID4 {
    /// The identifier as one number.
    pub closed spec fn value(&self) -> u128 {
        self.raw
    }

    pub fn from(raw: u128) -> (res: Self)
        ensures
            res.value() == raw,
    {
        UUID4 { raw }
    }

    pub fn to_u128(&self) -> (raw: u128)
        ensures
            raw == self.value(),
    {
        self.raw
    }
}

} // verus!
