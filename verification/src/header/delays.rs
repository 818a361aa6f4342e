//! The delay a mix node is asked to hold a packet for.
use vstd::prelude::*;
use crate::constants::DELAY_LENGTH;

verus! {

/// A delay in its wire encoding. The header carries the bytes unchanged and
/// never reads them.
#[derive(Clone, Copy, Debug, PartialEq, Eq)]
pub struct Delay {
    pub value: [u8; DELAY_LENGTH],
}

impl View for Delay {
    type V = Seq<u8>;

    open spec fn view(&self) -> Seq<u8> {
        self.value@
    }
}

impl Delay {
    pub fn from_bytes(bytes: [u8; DELAY_LENGTH]) -> (delay: Self)
        ensures
            delay.value == bytes,
    {
        Delay { value: bytes }
    }

    pub fn to_bytes(&self) -> (bytes: [u8; DELAY_LENGTH])
        ensures
            bytes == self.value,
    {
        self.value
    }
}

} // verus!
