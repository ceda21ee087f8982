//! The instructions that decide where execution continues: branches,
//! jumps, calls, returns and the break.

use vstd::prelude::*;
use super::bits::high_of;
use super::bits::make_word;
use super::bits::pages_differ;
use super::bits::wrap16;
use super::flags::flags_of;
use super::flags::pushed_status;
use super::flags::restored_status;
use super::flags::status_of;
use super::flags::Flag;
use super::flags::Flags;
use super::memory::Memory;
use super::state::CpuState;
use super::state::IRQ_VECTOR;
use super::types::Address;
use super::MOS6502Cpu;

verus! {

impl CpuState {
    /// Whether a branch on `flag` is taken: the flag has the value that
    /// the branch waits for.
    pub open spec fn branch_taken(self, flag: Flag, expected: bool) -> bool {
        self.flags.get(flag) == expected
    }

    /// A branch: when it is taken, execution continues at `address`; when
    /// it is not, with the instruction after the branch, where the program
    /// counter already points.
    pub open spec fn branch(self, flag: Flag, expected: bool, address: Address) -> CpuState {
        if self.branch_taken(flag, expected) {
            CpuState { pc: address, ..self }
        } else {
            self
        }
    }

    /// What a branch costs beyond its base cycles: nothing when it is not
    /// taken, one cycle when it is, and one more when the target lies in
    /// another page than the instruction that follows the branch.
    pub open spec fn branch_penalty(self, flag: Flag, expected: bool, address: Address) -> u8 {
        if !self.branch_taken(flag, expected) {
            0
        } else if high_of(address) != high_of(self.pc) {
            2
        } else {
            1
        }
    }

    /// JMP: execution continues at `address`.
    pub open spec fn jump(self, address: Address) -> CpuState {
        CpuState { pc: address, ..self }
    }

    /// JSR: the address of the last byte of the call goes on the stack,
    /// and execution continues at `address`.
    pub open spec fn jump_to_subroutine(self, address: Address) -> CpuState {
        CpuState { pc: address, ..self.push_word(wrap16(self.pc - 1)) }
    }

    /// RTS: execution continues one byte after the address pulled.
    pub open spec fn return_from_subroutine(self) -> CpuState {
        CpuState { pc: wrap16(self.pull_word() + 1), ..self.pull().pull() }
    }

    /// RTI: the flags are pulled, but for Break, which stays; after them
    /// the program counter is pulled.
    pub open spec fn return_from_interrupt(self) -> CpuState {
        CpuState {
            flags: Flags { brk: self.flags.brk, ..flags_of(self.pull().top()) },
            pc: self.pull().pull_word(),
            ..self.pull().pull().pull()
        }
    }

    /// The entry into an interrupt handler: the program counter `resume`
    /// and the status register go on the stack, the latter with Break as
    /// `brk`; Interrupt-disable is set; execution continues at the address
    /// that the two bytes at `vector` hold.
    pub open spec fn enter_interrupt(self, resume: Address, brk: bool, vector: Address) -> CpuState {
        let pushed = self.push_word(resume).push(status_of(Flags { brk, ..self.flags }));
        CpuState {
            pc: pushed.read_word(vector),
            flags: Flags { interrupt: true, ..self.flags },
            ..pushed
        }
    }

    /// BRK: a software interrupt. The byte after the opcode is skipped:
    /// the address pushed is one past it.
    pub open spec fn force_break(self) -> CpuState {
        self.enter_interrupt(wrap16(self.pc + 1), true, IRQ_VECTOR)
    }

    /// The state with `flag` set to `on`.
    pub open spec fn with_flag(self, flag: Flag, on: bool) -> CpuState {
        CpuState { flags: self.flags.with(flag, on), ..self }
    }
}

impl MOS6502Cpu {
    /// Branches to `address` if `flag` has the value `expected`, and tells
    /// how many cycles beyond the base cost the branch took.
    pub fn branch(&mut self, flag: Flag, expected: bool, address: Address) -> (penalty: u8)
        ensures
            final(self)@ == old(self)@.branch(flag, expected, address),
            penalty == old(self)@.branch_penalty(flag, expected, address),
    {
        if self.flag(flag) == expected {
            let page_crossed = pages_differ(address, self.pc);
            self.pc = address;
            if page_crossed {
                2
            } else {
                1
            }
        } else {
            0
        }
    }

    /// JMP.
    pub fn jump(&mut self, address: Address)
        ensures
            final(self)@ == old(self)@.jump(address),
    {
        self.pc = address;
    }

    /// JSR.
    pub fn jump_to_subroutine(&mut self, address: Address)
        ensures
            final(self)@ == old(self)@.jump_to_subroutine(address),
    {
        self.push_word(self.pc.wrapping_sub(1));
        self.pc = address;
    }

    /// RTS.
    pub fn return_from_subroutine(&mut self)
        ensures
            final(self)@ == old(self)@.return_from_subroutine(),
    {
        let address: Address = self.pull_word();
        self.pc = address.wrapping_add(1);
    }

    /// RTI.
    pub fn return_from_interrupt(&mut self)
        ensures
            final(self)@ == old(self)@.return_from_interrupt(),
    {
        let value: u8 = self.pull();
        self.status = restored_status(self.status, value);
        let address: Address = self.pull_word();
        self.pc = address;
    }

    /// Enters the interrupt handler whose address is stored at `vector`.
    pub fn enter_interrupt(&mut self, resume: Address, brk: bool, vector: Address)
        ensures
            final(self)@ == old(self)@.enter_interrupt(resume, brk, vector),
    {
        self.push_word(resume);
        self.push(pushed_status(self.status, brk));
        self.assign_flag(Flag::Interrupt, true);
        let low_byte: u8 = self.read(vector);
        let high_byte: u8 = self.read(vector.wrapping_add(1));
        self.pc = make_word(low_byte, high_byte);
    }

    /// BRK.
    pub fn force_break(&mut self)
        ensures
            final(self)@ == old(self)@.force_break(),
    {
        self.enter_interrupt(self.pc.wrapping_add(1), true, IRQ_VECTOR);
    }

    /// NOP: nothing changes.
    pub fn no_operation(&mut self)
        ensures
            final(self)@ == old(self)@,
    {
    }
}

} // verus!
