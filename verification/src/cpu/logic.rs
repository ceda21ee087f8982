//! The logical instructions, the bit test, and the shifts and rotates.

use vstd::prelude::*;
use super::alu::rotate_left;
use super::alu::rotate_left_of;
use super::alu::rotate_right;
use super::alu::rotate_right_of;
use super::alu::shift_left;
use super::alu::shift_left_of;
use super::alu::shift_right;
use super::alu::shift_right_of;
use super::alu::Shifted;
use super::bits::is_negative;
use super::bits::sign_bit;
use super::flags::Flag;
use super::flags::Flags;
use super::memory::Memory;
use super::state::CpuState;
use super::types::Address;
use super::MOS6502Cpu;

verus! {

/// Bit 6 of the byte is set.
pub open spec fn bit_six_of(value: u8) -> bool {
    value & 0x40 != 0
}

impl CpuState {
    /// The state after a logical operation on the accumulator: it takes
    /// the result, and Zero and Negative follow.
    pub open spec fn with_accumulator(self, value: u8) -> CpuState {
        CpuState { a: value, flags: self.flags.with_zero_negative(value), ..self }
    }

    /// The flags after a shift or rotate: Carry takes the bit that left,
    /// Zero and Negative follow the result.
    pub open spec fn shifted_flags(self, shifted: Shifted) -> Flags {
        Flags { carry: shifted.carry, ..self.flags }.with_zero_negative(shifted.value)
    }

    /// The state after a shift or rotate of the accumulator.
    pub open spec fn with_shifted_accumulator(self, shifted: Shifted) -> CpuState {
        CpuState { a: shifted.value, flags: self.shifted_flags(shifted), ..self }
    }

    /// The state after a shift or rotate of the byte at `address`.
    pub open spec fn with_shifted_memory(self, address: Address, shifted: Shifted) -> CpuState {
        CpuState { flags: self.shifted_flags(shifted), ..self.write(address, shifted.value) }
    }

    /// AND: the accumulator is combined with the byte at `address`, bit by
    /// bit.
    pub open spec fn and(self, address: Address) -> CpuState {
        self.with_accumulator(self.a & self.read(address))
    }

    /// ORA: the accumulator is combined with the byte at `address`, bit by
    /// bit.
    pub open spec fn or(self, address: Address) -> CpuState {
        self.with_accumulator(self.a | self.read(address))
    }

    /// EOR: the accumulator is combined with the byte at `address`, bit by
    /// bit.
    pub open spec fn exclusive_or(self, address: Address) -> CpuState {
        self.with_accumulator(self.a ^ self.read(address))
    }

    /// BIT: Zero tells whether the accumulator and the byte at `address`
    /// have no set bit in common; Negative and Overflow take bits 7 and 6
    /// of that byte. The accumulator stays.
    pub open spec fn bit_test(self, address: Address) -> CpuState {
        let m = self.read(address);
        CpuState {
            flags: Flags {
                zero: self.a & m == 0,
                overflow: bit_six_of(m),
                negative: is_negative(m),
                ..self.flags
            },
            ..self
        }
    }

    /// ASL on memory.
    pub open spec fn shift_left(self, address: Address) -> CpuState {
        self.with_shifted_memory(address, shift_left_of(self.read(address)))
    }

    /// LSR on memory.
    pub open spec fn shift_right(self, address: Address) -> CpuState {
        self.with_shifted_memory(address, shift_right_of(self.read(address)))
    }

    /// ROL on memory.
    pub open spec fn rotate_left(self, address: Address) -> CpuState {
        self.with_shifted_memory(address, rotate_left_of(self.read(address), self.flags.carry))
    }

    /// ROR on memory.
    pub open spec fn rotate_right(self, address: Address) -> CpuState {
        self.with_shifted_memory(address, rotate_right_of(self.read(address), self.flags.carry))
    }

    /// ASL on the accumulator.
    pub open spec fn shift_left_accumulator(self) -> CpuState {
        self.with_shifted_accumulator(shift_left_of(self.a))
    }

    /// LSR on the accumulator.
    pub open spec fn shift_right_accumulator(self) -> CpuState {
        self.with_shifted_accumulator(shift_right_of(self.a))
    }

    /// ROL on the accumulator.
    pub open spec fn rotate_left_accumulator(self) -> CpuState {
        self.with_shifted_accumulator(rotate_left_of(self.a, self.flags.carry))
    }

    /// ROR on the accumulator.
    pub open spec fn rotate_right_accumulator(self) -> CpuState {
        self.with_shifted_accumulator(rotate_right_of(self.a, self.flags.carry))
    }
}

impl MOS6502Cpu {
    /// Puts the result of a logical operation into the accumulator.
    fn apply_accumulator(&mut self, value: u8)
        ensures
            final(self)@ == old(self)@.with_accumulator(value),
    {
        self.a = value;
        self.update_zero_negative(value);
    }

    /// Puts the result of a shift or rotate into the accumulator.
    fn apply_shifted_accumulator(&mut self, shifted: Shifted)
        ensures
            final(self)@ == old(self)@.with_shifted_accumulator(shifted),
    {
        self.a = shifted.value;
        self.assign_flag(Flag::Carry, shifted.carry);
        self.update_zero_negative(shifted.value);
    }

    /// Puts the result of a shift or rotate back into memory.
    fn apply_shifted_memory(&mut self, address: Address, shifted: Shifted)
        ensures
            final(self)@ == old(self)@.with_shifted_memory(address, shifted),
    {
        self.write(address, shifted.value);
        self.assign_flag(Flag::Carry, shifted.carry);
        self.update_zero_negative(shifted.value);
    }

    /// AND.
    pub fn and(&mut self, address: Address)
        ensures
            final(self)@ == old(self)@.and(address),
    {
        let argument: u8 = self.read(address);
        self.apply_accumulator(self.a & argument);
    }

    /// ORA.
    pub fn or(&mut self, address: Address)
        ensures
            final(self)@ == old(self)@.or(address),
    {
        let argument: u8 = self.read(address);
        self.apply_accumulator(self.a | argument);
    }

    /// EOR.
    pub fn exclusive_or(&mut self, address: Address)
        ensures
            final(self)@ == old(self)@.exclusive_or(address),
    {
        let argument: u8 = self.read(address);
        self.apply_accumulator(self.a ^ argument);
    }

    /// BIT.
    pub fn bit_test(&mut self, address: Address)
        ensures
            final(self)@ == old(self)@.bit_test(address),
    {
        let argument: u8 = self.read(address);
        self.assign_flag(Flag::Zero, self.a & argument == 0);
        self.assign_flag(Flag::Overflow, argument & 0x40 != 0);
        self.assign_flag(Flag::Negative, sign_bit(argument));
    }

    /// ASL on memory.
    pub fn shift_left(&mut self, address: Address)
        ensures
            final(self)@ == old(self)@.shift_left(address),
    {
        let argument: u8 = self.read(address);
        self.apply_shifted_memory(address, shift_left(argument));
    }

    /// LSR on memory.
    pub fn shift_right(&mut self, address: Address)
        ensures
            final(self)@ == old(self)@.shift_right(address),
    {
        let argument: u8 = self.read(address);
        self.apply_shifted_memory(address, shift_right(argument));
    }

    /// ROL on memory.
    pub fn rotate_left(&mut self, address: Address)
        ensures
            final(self)@ == old(self)@.rotate_left(address),
    {
        let argument: u8 = self.read(address);
        let carry = self.flag(Flag::Carry);
        self.apply_shifted_memory(address, rotate_left(argument, carry));
    }

    /// ROR on memory.
    pub fn rotate_right(&mut self, address: Address)
        ensures
            final(self)@ == old(self)@.rotate_right(address),
    {
        let argument: u8 = self.read(address);
        let carry = self.flag(Flag::Carry);
        self.apply_shifted_memory(address, rotate_right(argument, carry));
    }

    /// ASL on the accumulator.
    pub fn shift_left_accumulator(&mut self)
        ensures
            final(self)@ == old(self)@.shift_left_accumulator(),
    {
        self.apply_shifted_accumulator(shift_left(self.a));
    }

    /// LSR on the accumulator.
    pub fn shift_right_accumulator(&mut self)
        ensures
            final(self)@ == old(self)@.shift_right_accumulator(),
    {
        self.apply_shifted_accumulator(shift_right(self.a));
    }

    /// ROL on the accumulator.
    pub fn rotate_left_accumulator(&mut self)
        ensures
            final(self)@ == old(self)@.rotate_left_accumulator(),
    {
        let carry = self.flag(Flag::Carry);
        self.apply_shifted_accumulator(rotate_left(self.a, carry));
    }

    /// ROR on the accumulator.
    pub fn rotate_right_accumulator(&mut self)
        ensures
            final(self)@ == old(self)@.rotate_right_accumulator(),
    {
        let carry = self.flag(Flag::Carry);
        self.apply_shifted_accumulator(rotate_right(self.a, carry));
    }
}

} // verus!
