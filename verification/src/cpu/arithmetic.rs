//! The instructions that add, subtract, compare and step.

use vstd::prelude::*;
use super::alu::add_binary;
use super::alu::add_binary_of;
use super::alu::add_decimal;
use super::alu::add_decimal_of;
use super::alu::compare;
use super::alu::compare_of;
use super::alu::subtract_binary;
use super::alu::subtract_binary_of;
use super::alu::subtract_decimal;
use super::alu::subtract_decimal_of;
use super::alu::Comparison;
use super::alu::Sum;
use super::bits::wrap8;
use super::flags::Flag;
use super::flags::Flags;
use super::memory::Memory;
use super::state::CpuState;
use super::types::Address;
use super::MOS6502Cpu;

verus! {

impl CpuState {
    /// The state after an addition or subtraction: the accumulator takes
    /// the result, and Carry, Zero, Overflow and Negative are those of the
    /// operation. Interrupt, Decimal and Break stay.
    pub open spec fn with_sum(self, sum: Sum) -> CpuState {
        CpuState {
            a: sum.value,
            flags: Flags {
                carry: sum.carry,
                zero: sum.zero,
                overflow: sum.overflow,
                negative: sum.negative,
                ..self.flags
            },
            ..self
        }
    }

    /// The state after a comparison: Carry, Zero and Negative are those of
    /// the comparison, and nothing else changes.
    pub open spec fn with_comparison(self, comparison: Comparison) -> CpuState {
        CpuState {
            flags: Flags {
                carry: comparison.carry,
                zero: comparison.zero,
                negative: comparison.negative,
                ..self.flags
            },
            ..self
        }
    }

    /// ADC: the byte at `address` and Carry are added to the accumulator,
    /// in decimal when Decimal is set, in binary otherwise.
    pub open spec fn add_with_carry(self, address: Address) -> CpuState {
        let m = self.read(address);
        self.with_sum(
            if self.flags.decimal {
                add_decimal_of(self.a, m, self.flags.carry)
            } else {
                add_binary_of(self.a, m, self.flags.carry)
            },
        )
    }

    /// SBC: the byte at `address` and the borrow are subtracted from the
    /// accumulator, in decimal when Decimal is set, in binary otherwise.
    pub open spec fn subtract_with_carry(self, address: Address) -> CpuState {
        let m = self.read(address);
        self.with_sum(
            if self.flags.decimal {
                subtract_decimal_of(self.a, m, self.flags.carry)
            } else {
                subtract_binary_of(self.a, m, self.flags.carry)
            },
        )
    }

    /// CMP: the accumulator is compared with the byte at `address`.
    pub open spec fn compare(self, address: Address) -> CpuState {
        self.with_comparison(compare_of(self.a, self.read(address)))
    }

    /// CPX: X is compared with the byte at `address`.
    pub open spec fn compare_x(self, address: Address) -> CpuState {
        self.with_comparison(compare_of(self.x, self.read(address)))
    }

    /// CPY: Y is compared with the byte at `address`.
    pub open spec fn compare_y(self, address: Address) -> CpuState {
        self.with_comparison(compare_of(self.y, self.read(address)))
    }

    /// INC: the byte at `address` goes up by one, from 0xFF to 0x00; Zero
    /// and Negative follow the new byte.
    pub open spec fn increment(self, address: Address) -> CpuState {
        let value = wrap8(self.read(address) + 1);
        CpuState { flags: self.flags.with_zero_negative(value), ..self.write(address, value) }
    }

    /// DEC: the byte at `address` goes down by one, from 0x00 to 0xFF;
    /// Zero and Negative follow the new byte.
    pub open spec fn decrement(self, address: Address) -> CpuState {
        let value = wrap8(self.read(address) - 1);
        CpuState { flags: self.flags.with_zero_negative(value), ..self.write(address, value) }
    }

    /// INX: X goes up by one, from 0xFF to 0x00; Zero and Negative follow.
    pub open spec fn increment_x(self) -> CpuState {
        let value = wrap8(self.x + 1);
        CpuState { x: value, flags: self.flags.with_zero_negative(value), ..self }
    }

    /// INY: Y goes up by one, from 0xFF to 0x00; Zero and Negative follow.
    pub open spec fn increment_y(self) -> CpuState {
        let value = wrap8(self.y + 1);
        CpuState { y: value, flags: self.flags.with_zero_negative(value), ..self }
    }

    /// DEX: X goes down by one, from 0x00 to 0xFF; Zero and Negative
    /// follow.
    pub open spec fn decrement_x(self) -> CpuState {
        let value = wrap8(self.x - 1);
        CpuState { x: value, flags: self.flags.with_zero_negative(value), ..self }
    }

    /// DEY: Y goes down by one, from 0x00 to 0xFF; Zero and Negative
    /// follow.
    pub open spec fn decrement_y(self) -> CpuState {
        let value = wrap8(self.y - 1);
        CpuState { y: value, flags: self.flags.with_zero_negative(value), ..self }
    }
}

impl MOS6502Cpu {
    /// Puts the result of an addition or subtraction into the accumulator
    /// and its four flags into the status register.
    fn apply_sum(&mut self, sum: Sum)
        ensures
            final(self)@ == old(self)@.with_sum(sum),
    {
        self.a = sum.value;
        self.assign_flag(Flag::Carry, sum.carry);
        self.assign_flag(Flag::Zero, sum.zero);
        self.assign_flag(Flag::Overflow, sum.overflow);
        self.assign_flag(Flag::Negative, sum.negative);
    }

    /// Puts the three flags of a comparison into the status register.
    fn apply_comparison(&mut self, comparison: Comparison)
        ensures
            final(self)@ == old(self)@.with_comparison(comparison),
    {
        self.assign_flag(Flag::Carry, comparison.carry);
        self.assign_flag(Flag::Zero, comparison.zero);
        self.assign_flag(Flag::Negative, comparison.negative);
    }

    /// ADC.
    pub fn add_with_carry(&mut self, address: Address)
        ensures
            final(self)@ == old(self)@.add_with_carry(address),
    {
        let argument: u8 = self.read(address);
        let carry = self.flag(Flag::Carry);
        let sum = if self.flag(Flag::Decimal) {
            add_decimal(self.a, argument, carry)
        } else {
            add_binary(self.a, argument, carry)
        };
        self.apply_sum(sum);
    }

    /// SBC.
    pub fn subtract_with_carry(&mut self, address: Address)
        ensures
            final(self)@ == old(self)@.subtract_with_carry(address),
    {
        let argument: u8 = self.read(address);
        let carry = self.flag(Flag::Carry);
        let difference = if self.flag(Flag::Decimal) {
            subtract_decimal(self.a, argument, carry)
        } else {
            subtract_binary(self.a, argument, carry)
        };
        self.apply_sum(difference);
    }

    /// CMP.
    pub fn compare(&mut self, address: Address)
        ensures
            final(self)@ == old(self)@.compare(address),
    {
        let argument: u8 = self.read(address);
        self.apply_comparison(compare(self.a, argument));
    }

    /// CPX.
    pub fn compare_x(&mut self, address: Address)
        ensures
            final(self)@ == old(self)@.compare_x(address),
    {
        let argument: u8 = self.read(address);
        self.apply_comparison(compare(self.x, argument));
    }

    /// CPY.
    pub fn compare_y(&mut self, address: Address)
        ensures
            final(self)@ == old(self)@.compare_y(address),
    {
        let argument: u8 = self.read(address);
        self.apply_comparison(compare(self.y, argument));
    }

    /// INC.
    pub fn increment(&mut self, address: Address)
        ensures
            final(self)@ == old(self)@.increment(address),
    {
        let value: u8 = self.read(address).wrapping_add(1);
        self.write(address, value);
        self.update_zero_negative(value);
    }

    /// DEC.
    pub fn decrement(&mut self, address: Address)
        ensures
            final(self)@ == old(self)@.decrement(address),
    {
        let value: u8 = self.read(address).wrapping_sub(1);
        self.write(address, value);
        self.update_zero_negative(value);
    }

    /// INX.
    pub fn increment_x(&mut self)
        ensures
            final(self)@ == old(self)@.increment_x(),
    {
        self.x = self.x.wrapping_add(1);
        self.update_zero_negative(self.x);
    }

    /// INY.
    pub fn increment_y(&mut self)
        ensures
            final(self)@ == old(self)@.increment_y(),
    {
        self.y = self.y.wrapping_add(1);
        self.update_zero_negative(self.y);
    }

    /// DEX.
    pub fn decrement_x(&mut self)
        ensures
            final(self)@ == old(self)@.decrement_x(),
    {
        self.x = self.x.wrapping_sub(1);
        self.update_zero_negative(self.x);
    }

    /// DEY.
    pub fn decrement_y(&mut self)
        ensures
            final(self)@ == old(self)@.decrement_y(),
    {
        self.y = self.y.wrapping_sub(1);
        self.update_zero_negative(self.y);
    }
}

} // verus!
