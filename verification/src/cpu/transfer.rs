//! The instructions that move bytes: loads, stores, register transfers
//! and the pushes and pulls of the stack.

use vstd::prelude::*;
use super::flags::flags_of;
use super::flags::pushed_status;
use super::flags::restored_status;
use super::flags::status_of;
use super::flags::Flags;
use super::memory::Memory;
use super::state::CpuState;
use super::types::Address;
use super::MOS6502Cpu;

verus! {

impl CpuState {
    /// LDA: the accumulator takes the byte at `address`; Zero and Negative
    /// follow that byte.
    pub open spec fn load_accumulator(self, address: Address) -> CpuState {
        let value = self.read(address);
        CpuState { a: value, flags: self.flags.with_zero_negative(value), ..self }
    }

    /// LDX: X takes the byte at `address`; Zero and Negative follow that
    /// byte.
    pub open spec fn load_x(self, address: Address) -> CpuState {
        let value = self.read(address);
        CpuState { x: value, flags: self.flags.with_zero_negative(value), ..self }
    }

    /// LDY: Y takes the byte at `address`; Zero and Negative follow that
    /// byte.
    pub open spec fn load_y(self, address: Address) -> CpuState {
        let value = self.read(address);
        CpuState { y: value, flags: self.flags.with_zero_negative(value), ..self }
    }

    /// STA: the byte at `address` becomes the accumulator. No flag changes.
    pub open spec fn store_accumulator(self, address: Address) -> CpuState {
        self.write(address, self.a)
    }

    /// STX: the byte at `address` becomes X. No flag changes.
    pub open spec fn store_x(self, address: Address) -> CpuState {
        self.write(address, self.x)
    }

    /// STY: the byte at `address` becomes Y. No flag changes.
    pub open spec fn store_y(self, address: Address) -> CpuState {
        self.write(address, self.y)
    }

    /// TAX: X takes the accumulator; Zero and Negative follow.
    pub open spec fn transfer_accumulator_to_x(self) -> CpuState {
        CpuState { x: self.a, flags: self.flags.with_zero_negative(self.a), ..self }
    }

    /// TAY: Y takes the accumulator; Zero and Negative follow.
    pub open spec fn transfer_accumulator_to_y(self) -> CpuState {
        CpuState { y: self.a, flags: self.flags.with_zero_negative(self.a), ..self }
    }

    /// TXA: the accumulator takes X; Zero and Negative follow.
    pub open spec fn transfer_x_to_accumulator(self) -> CpuState {
        CpuState { a: self.x, flags: self.flags.with_zero_negative(self.x), ..self }
    }

    /// TYA: the accumulator takes Y; Zero and Negative follow.
    pub open spec fn transfer_y_to_accumulator(self) -> CpuState {
        CpuState { a: self.y, flags: self.flags.with_zero_negative(self.y), ..self }
    }

    /// TSX: X takes the stack pointer; Zero and Negative follow.
    pub open spec fn transfer_stack_pointer_to_x(self) -> CpuState {
        CpuState { x: self.sp, flags: self.flags.with_zero_negative(self.sp), ..self }
    }

    /// TXS: the stack pointer takes X. No flag changes.
    pub open spec fn transfer_x_to_stack_pointer(self) -> CpuState {
        CpuState { sp: self.x, ..self }
    }

    /// PHA: the accumulator goes on the stack.
    pub open spec fn push_accumulator(self) -> CpuState {
        self.push(self.a)
    }

    /// PHP: the status register goes on the stack, with Break and bit 5
    /// set in the byte pushed. The register itself keeps its flags.
    pub open spec fn push_status(self) -> CpuState {
        self.push(status_of(Flags { brk: true, ..self.flags }))
    }

    /// PLA: the accumulator takes the byte pulled; Zero and Negative
    /// follow.
    pub open spec fn pull_accumulator(self) -> CpuState {
        let value = self.pull().top();
        CpuState { a: value, flags: self.flags.with_zero_negative(value), ..self.pull() }
    }

    /// PLP: the flags take the byte pulled, but for Break, which stays.
    pub open spec fn pull_status(self) -> CpuState {
        let value = self.pull().top();
        CpuState { flags: Flags { brk: self.flags.brk, ..flags_of(value) }, ..self.pull() }
    }
}

impl MOS6502Cpu {
    /// LDA.
    pub fn load_accumulator(&mut self, address: Address)
        ensures
            final(self)@ == old(self)@.load_accumulator(address),
    {
        let argument: u8 = self.read(address);
        self.a = argument;
        self.update_zero_negative(argument);
    }

    /// LDX.
    pub fn load_x(&mut self, address: Address)
        ensures
            final(self)@ == old(self)@.load_x(address),
    {
        let argument: u8 = self.read(address);
        self.x = argument;
        self.update_zero_negative(argument);
    }

    /// LDY.
    pub fn load_y(&mut self, address: Address)
        ensures
            final(self)@ == old(self)@.load_y(address),
    {
        let argument: u8 = self.read(address);
        self.y = argument;
        self.update_zero_negative(argument);
    }

    /// STA.
    pub fn store_accumulator(&mut self, address: Address)
        ensures
            final(self)@ == old(self)@.store_accumulator(address),
    {
        self.write(address, self.a);
    }

    /// STX.
    pub fn store_x(&mut self, address: Address)
        ensures
            final(self)@ == old(self)@.store_x(address),
    {
        self.write(address, self.x);
    }

    /// STY.
    pub fn store_y(&mut self, address: Address)
        ensures
            final(self)@ == old(self)@.store_y(address),
    {
        self.write(address, self.y);
    }

    /// TAX.
    pub fn transfer_accumulator_to_x(&mut self)
        ensures
            final(self)@ == old(self)@.transfer_accumulator_to_x(),
    {
        self.x = self.a;
        self.update_zero_negative(self.x);
    }

    /// TAY.
    pub fn transfer_accumulator_to_y(&mut self)
        ensures
            final(self)@ == old(self)@.transfer_accumulator_to_y(),
    {
        self.y = self.a;
        self.update_zero_negative(self.y);
    }

    /// TXA.
    pub fn transfer_x_to_accumulator(&mut self)
        ensures
            final(self)@ == old(self)@.transfer_x_to_accumulator(),
    {
        self.a = self.x;
        self.update_zero_negative(self.a);
    }

    /// TYA.
    pub fn transfer_y_to_accumulator(&mut self)
        ensures
            final(self)@ == old(self)@.transfer_y_to_accumulator(),
    {
        self.a = self.y;
        self.update_zero_negative(self.a);
    }

    /// TSX.
    pub fn transfer_stack_pointer_to_x(&mut self)
        ensures
            final(self)@ == old(self)@.transfer_stack_pointer_to_x(),
    {
        self.x = self.sp;
        self.update_zero_negative(self.x);
    }

    /// TXS.
    pub fn transfer_x_to_stack_pointer(&mut self)
        ensures
            final(self)@ == old(self)@.transfer_x_to_stack_pointer(),
    {
        self.sp = self.x;
    }

    /// PHA.
    pub fn push_accumulator(&mut self)
        ensures
            final(self)@ == old(self)@.push_accumulator(),
    {
        self.push(self.a);
    }

    /// PHP.
    pub fn push_status(&mut self)
        ensures
            final(self)@ == old(self)@.push_status(),
    {
        self.push(pushed_status(self.status, true));
    }

    /// PLA.
    pub fn pull_accumulator(&mut self)
        ensures
            final(self)@ == old(self)@.pull_accumulator(),
    {
        let value: u8 = self.pull();
        self.a = value;
        self.update_zero_negative(value);
    }

    /// PLP.
    pub fn pull_status(&mut self)
        ensures
            final(self)@ == old(self)@.pull_status(),
    {
        let value: u8 = self.pull();
        self.status = restored_status(self.status, value);
    }
}

} // verus!
