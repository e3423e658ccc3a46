//! 20-byte account addresses.

use vstd::prelude::*;

verus! {

/// An account address: its 20 bytes.
#[derive(Clone, Copy, Debug)]
pub struct Address {
    /// The bytes of the address, in the order they are written.
    pub bytes: [u8; 20],
}

impl View for Address {
    type V = Seq<u8>;

    open spec fn view(&self) -> Seq<u8> {
        self.bytes@
    }
}

impl Address {
    /// The address with these bytes.
    pub fn new(bytes: [u8; 20]) -> (r: Address)
        ensures
            r@ == bytes@,
    {
        Address { bytes }
    }
}

} // verus!
