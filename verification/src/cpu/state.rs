//! The model of the machine that contracts are stated over.

use vstd::prelude::*;
use super::bits::word_of;
use super::bits::wrap16;
use super::bits::wrap8;
use super::flags::Flags;
use super::types::Address;
use super::types::DecodeFault;

verus! {

/// The first address of the page that holds the stack.
pub const STACK_BASE: Address = 0x0100;

/// Where the processor finds the address of the non-maskable interrupt
/// handler.
pub const NMI_VECTOR: Address = 0xFFFA;

/// Where the processor finds the address at which execution starts after a
/// reset.
pub const RESET_VECTOR: Address = 0xFFFC;

/// Where the processor finds the address of the handler for interrupt
/// requests and for the break instruction.
pub const IRQ_VECTOR: Address = 0xFFFE;

/// The stack pointer after a reset.
pub const RESET_STACK_POINTER: u8 = 0xFD;

/// The machine as contracts see it: the registers, the flags, the 65536
/// bytes of memory, and the fault at which execution halted, if it did.
pub struct CpuState {
    pub a: u8,
    pub x: u8,
    pub y: u8,
    pub pc: Address,
    pub sp: u8,
    pub flags: Flags,
    pub memory: Seq<u8>,
    pub halted: Option<DecodeFault>,
}

impl CpuState {
    /// Every address of the 16-bit space has a byte.
    pub open spec fn wf(self) -> bool {
        self.memory.len() == 65536
    }

    /// The byte at `address`.
    pub open spec fn read(self, address: Address) -> u8 {
        self.memory[address as int]
    }

    /// The word whose low byte is at `address` and whose high byte is at
    /// the next address, which after 0xFFFF is 0x0000.
    pub open spec fn read_word(self, address: Address) -> Address {
        word_of(self.read(address), self.read(wrap16(address + 1)))
    }

    /// The word whose two bytes lie in the zero page, the high byte after
    /// the low one; after 0xFF comes 0x00.
    pub open spec fn read_zero_page_word(self, pointer: u8) -> Address {
        word_of(self.read(pointer as Address), self.read(wrap8(pointer + 1) as Address))
    }

    /// The state with `data` stored at `address`.
    pub open spec fn write(self, address: Address, data: u8) -> CpuState {
        CpuState { memory: self.memory.update(address as int, data), ..self }
    }

    /// The state after `bytes` have been written to consecutive addresses
    /// from `origin` on. After 0xFFFF comes 0x0000: a later byte replaces
    /// an earlier one that went to the same address.
    pub open spec fn load(self, origin: Address, bytes: Seq<u8>) -> CpuState
        decreases bytes.len(),
    {
        if bytes.len() == 0 {
            self
        } else {
            self.load(origin, bytes.drop_last()).write(
                wrap16(origin + bytes.len() - 1),
                bytes.last(),
            )
        }
    }

    /// The state with the program counter moved forward by `distance`,
    /// wrapping at 16 bits.
    pub open spec fn advance(self, distance: int) -> CpuState {
        CpuState { pc: wrap16(self.pc + distance), ..self }
    }

    /// The address that the stack pointer designates.
    pub open spec fn stack_address(self) -> Address {
        (STACK_BASE + self.sp) as Address
    }

    /// The state after a push: `data` is stored where the stack pointer
    /// points, and the stack pointer moves down by one, from 0x00 to 0xFF.
    pub open spec fn push(self, data: u8) -> CpuState {
        CpuState {
            memory: self.memory.update(self.stack_address() as int, data),
            sp: wrap8(self.sp - 1),
            ..self
        }
    }

    /// The state after pushing a word: high byte first, low byte second.
    pub open spec fn push_word(self, word: Address) -> CpuState {
        self.push((word / 256) as u8).push((word % 256) as u8)
    }

    /// The state after a pull: the stack pointer moves up by one, from 0xFF
    /// to 0x00. The byte pulled is the one it points at afterwards:
    /// `self.pull().top()`.
    pub open spec fn pull(self) -> CpuState {
        CpuState { sp: wrap8(self.sp + 1), ..self }
    }

    /// The byte where the stack pointer points.
    pub open spec fn top(self) -> u8 {
        self.read(self.stack_address())
    }

    /// The word that two pulls yield: the low byte first, the high byte
    /// second.
    pub open spec fn pull_word(self) -> Address {
        word_of(self.pull().top(), self.pull().pull().top())
    }
}

} // verus!
