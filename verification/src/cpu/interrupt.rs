//! Reset and the two interrupt lines.

use vstd::prelude::*;
use super::bits::make_word;
use super::flags::lemma_reset_status;
use super::flags::reset_flags;
use super::flags::Flag;
use super::flags::RESET_STATUS;
use super::memory::Memory;
use super::state::CpuState;
use super::state::IRQ_VECTOR;
use super::state::NMI_VECTOR;
use super::state::RESET_STACK_POINTER;
use super::state::RESET_VECTOR;
use super::types::Address;
use super::MOS6502Cpu;

verus! {

/// The two interrupt lines.
#[derive(Clone, Copy, PartialEq, Eq, Debug, Structural)]
pub enum Interrupt {
    /// NMI: cannot be disabled.
    NonMaskable,
    /// IRQ: ignored while Interrupt-disable is set.
    Request,
}

/// The cycles that the entry into an interrupt handler takes.
pub const INTERRUPT_CYCLES: u8 = 7;

impl Interrupt {
    /// Where the address of the handler is stored.
    pub open spec fn vector_of(self) -> Address {
        match self {
            Interrupt::NonMaskable => NMI_VECTOR,
            Interrupt::Request => IRQ_VECTOR,
        }
    }

    /// Where the address of the handler is stored.
    pub fn vector(self) -> (vector: Address)
        ensures
            vector == self.vector_of(),
    {
        match self {
            Interrupt::NonMaskable => NMI_VECTOR,
            Interrupt::Request => IRQ_VECTOR,
        }
    }
}

impl CpuState {
    /// The state after a reset: the registers are cleared, the stack
    /// pointer is at its start value, Interrupt-disable is set, the
    /// processor is not halted, and execution continues at the address
    /// that the reset vector holds. Memory stays.
    pub open spec fn reset(self) -> CpuState {
        CpuState {
            a: 0,
            x: 0,
            y: 0,
            pc: self.read_word(RESET_VECTOR),
            sp: RESET_STACK_POINTER,
            flags: reset_flags(),
            memory: self.memory,
            halted: None,
        }
    }

    /// Whether the processor takes an interrupt: it has not halted, and
    /// the interrupt is non-maskable or Interrupt-disable is clear.
    pub open spec fn accepts(self, interrupt: Interrupt) -> bool {
        self.halted is None && (interrupt is NonMaskable || !self.flags.interrupt)
    }

    /// The state after an interrupt was raised between two instructions.
    /// When it is taken, the program counter and the status register go on
    /// the stack, with Break clear in the byte pushed, Interrupt-disable
    /// is set, and execution continues at the handler.
    pub open spec fn interrupt(self, interrupt: Interrupt) -> CpuState {
        if self.accepts(interrupt) {
            self.enter_interrupt(self.pc, false, interrupt.vector_of())
        } else {
            self
        }
    }

    /// The state after the processor leaves the halt: it goes on with the
    /// byte that follows the opcode at which it halted.
    pub open spec fn resume(self) -> CpuState {
        CpuState { halted: None, ..self }
    }
}

impl MOS6502Cpu {
    /// Puts the registers into their reset state and loads the program
    /// counter from the reset vector.
    pub fn reset(&mut self)
        ensures
            final(self)@ == old(self)@.reset(),
    {
        proof {
            lemma_reset_status();
        }
        self.a = 0;
        self.x = 0;
        self.y = 0;
        self.sp = RESET_STACK_POINTER;
        self.status = RESET_STATUS;
        self.fault = None;
        let low_byte: u8 = self.read(RESET_VECTOR);
        let high_byte: u8 = self.read(RESET_VECTOR + 1);
        self.pc = make_word(low_byte, high_byte);
    }

    /// Raises an interrupt between two instructions and returns the cycles
    /// that the processor spent on it: seven when it took the interrupt,
    /// none when it ignored it.
    pub fn interrupt(&mut self, interrupt: Interrupt) -> (cycles: u8)
        ensures
            final(self)@ == old(self)@.interrupt(interrupt),
            cycles == if old(self)@.accepts(interrupt) {
                INTERRUPT_CYCLES
            } else {
                0
            },
    {
        if self.fault.is_some() {
            return 0;
        }
        match interrupt {
            Interrupt::NonMaskable => {},
            Interrupt::Request => {
                if self.flag(Flag::Interrupt) {
                    return 0;
                }
            },
        }
        self.enter_interrupt(self.pc, false, interrupt.vector());
        INTERRUPT_CYCLES
    }

    /// Leaves the halt after a decode fault. Execution goes on behind the
    /// opcode that was bound to nothing, as if it had been a no-operation
    /// of one byte.
    pub fn resume(&mut self)
        ensures
            final(self)@ == old(self)@.resume(),
    {
        self.fault = None;
    }
}

} // verus!
