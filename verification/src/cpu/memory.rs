//! The contract between the processor and whatever stores its bytes.

use vstd::prelude::*;
use super::types::Address;

verus! {

/// A value that names a location in the address space. A byte names a
/// location in the zero page; a word names any location.
pub trait IntoAddress: Sized {
    /// The address that the value stands for.
    spec fn address_of(self) -> Address;

    /// Converts the value into the address that it stands for.
    fn into_address(self) -> (address: Address)
        ensures
            address == self.address_of(),
    ;
}

impl IntoAddress for u8 {
    open spec fn address_of(self) -> Address {
        self as Address
    }

    fn into_address(self) -> (address: Address) {
        self as Address
    }
}

impl IntoAddress for u16 {
    open spec fn address_of(self) -> Address {
        self
    }

    fn into_address(self) -> (address: Address) {
        self
    }
}

/// A byte-granular surface of 65536 readable and writable locations.
pub trait Memory {
    /// The byte held at each address, in address order.
    spec fn contents(&self) -> Seq<u8>;

    /// Every address of the 16-bit space has a byte.
    proof fn lemma_covers_address_space(&self)
        ensures
            self.contents().len() == 65536,
    ;

    /// Stores `data` at `address` and leaves every other location as it was.
    fn write<A: IntoAddress>(&mut self, address: A, data: u8)
        ensures
            final(self).contents() == old(self).contents().update(
                address.address_of() as int,
                data,
            ),
    ;

    /// The byte last written at `address`.
    fn read<A: IntoAddress>(&self, address: A) -> (data: u8)
        ensures
            data == self.contents()[address.address_of() as int],
    ;
}

} // verus!
