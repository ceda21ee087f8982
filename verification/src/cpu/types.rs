//! The names of the plain types that the processor works with.

use vstd::prelude::*;

verus! {

/// A location in the 16-bit address space.
pub type Address = u16;

/// The byte that selects an instruction.
pub type OpCode = u8;

/// The bit-packed status register.
pub type Status = u8;

/// What an addressing mode yields: the effective address, and whether
/// indexing moved it into another page.
pub type AddressLookupResult = (Address, bool);

/// The report of an opcode to which no instruction is bound: the opcode,
/// and the program counter from which it was fetched.
#[derive(Clone, Copy, PartialEq, Eq, Debug, Structural)]
pub struct DecodeFault {
    pub opcode: OpCode,
    pub pc: Address,
}

} // verus!
