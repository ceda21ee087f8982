//! The bus, which at present maps the whole address space to plain memory.

use vstd::prelude::*;
use super::memory::IntoAddress;
use super::memory::Memory;

verus! {

/// The memory image in which every location holds zero.
pub open spec fn zeroed_memory() -> Seq<u8> {
    Seq::new(65536, |address: int| 0u8)
}

/// The flat address space of the machine, backed by plain memory.
pub struct Bus {
    // RAM device
    memory: [u8; 65536],
}

impl Bus {
    /// A bus whose memory is zero at every address.
    pub fn new() -> (bus: Bus)
        ensures
            bus.contents() == zeroed_memory(),
    {
        let bus = Bus { memory: [0u8; 65536] };
        assert(bus.memory@ =~= zeroed_memory());
        bus
    }
}

impl Memory for Bus {
    closed spec fn contents(&self) -> Seq<u8> {
        self.memory@
    }

    proof fn lemma_covers_address_space(&self) {
    }

    fn write<A: IntoAddress>(&mut self, address: A, data: u8) {
        self.memory[address.into_address() as usize] = data;
    }

    fn read<A: IntoAddress>(&self, address: A) -> (data: u8) {
        self.memory[address.into_address() as usize]
    }
}

} // verus!
