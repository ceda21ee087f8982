//! Running a bounded number of instructions.

use vstd::prelude::*;
use super::state::CpuState;
use super::types::DecodeFault;
use super::MOS6502Cpu;

verus! {

/// The account of a run: how many instructions were executed, how many
/// cycles they took together, and the fault at which the processor is
/// halted, if it is.
#[derive(Clone, Copy, PartialEq, Eq, Debug, Structural)]
pub struct RunSummary {
    pub instructions: u32,
    pub cycles: u64,
    pub fault: Option<DecodeFault>,
}

/// The cycles that a step accounts for: those of the instruction, and none
/// where the step ends in a fault.
pub open spec fn cycles_of(result: Result<u8, DecodeFault>) -> nat {
    match result {
        Ok(cycles) => cycles as nat,
        Err(_) => 0,
    }
}

/// The instructions that a step accounts for: one, and none where the step
/// ends in a fault.
pub open spec fn instructions_of(result: Result<u8, DecodeFault>) -> nat {
    match result {
        Ok(_) => 1,
        Err(_) => 0,
    }
}

impl CpuState {
    /// The state after `count` steps.
    pub open spec fn run(self, count: nat) -> CpuState
        decreases count,
    {
        if count == 0 {
            self
        } else {
            self.run((count - 1) as nat).step()
        }
    }

    /// The number of instructions that `count` steps execute.
    pub open spec fn run_instructions(self, count: nat) -> nat
        decreases count,
    {
        if count == 0 {
            0
        } else {
            self.run_instructions((count - 1) as nat) + instructions_of(
                self.run((count - 1) as nat).step_result(),
            )
        }
    }

    /// The number of cycles that `count` steps take.
    pub open spec fn run_cycles(self, count: nat) -> nat
        decreases count,
    {
        if count == 0 {
            0
        } else {
            self.run_cycles((count - 1) as nat) + cycles_of(
                self.run((count - 1) as nat).step_result(),
            )
        }
    }

    /// A halted processor does not step: the state stays, and the fault is
    /// reported again.
    pub proof fn lemma_halted_step(self)
        requires
            self.halted is Some,
        ensures
            self.step() == self,
            self.step_result() == Err::<u8, DecodeFault>(self.halted->0),
    {
        reveal(CpuState::step);
        reveal(CpuState::step_result);
    }

    /// Once the processor has halted, further steps change nothing and
    /// account for nothing.
    pub proof fn lemma_run_stays_halted(self, halted_after: nat, count: nat)
        requires
            halted_after <= count,
            self.run(halted_after).halted is Some,
        ensures
            self.run(count) == self.run(halted_after),
            self.run_instructions(count) == self.run_instructions(halted_after),
            self.run_cycles(count) == self.run_cycles(halted_after),
        decreases count,
    {
        if halted_after < count {
            self.lemma_run_stays_halted(halted_after, (count - 1) as nat);
            self.run((count - 1) as nat).lemma_halted_step();
        }
    }
}

impl MOS6502Cpu {
    /// Runs up to `max_instructions` instructions and stops early when the
    /// processor halts. The state is what that many single steps leave
    /// behind; the summary counts the instructions that were executed and
    /// the cycles they took. Unless the processor is halted at the end,
    /// all `max_instructions` instructions were executed.
    pub fn run(&mut self, max_instructions: u32) -> (summary: RunSummary)
        ensures
            final(self)@ == old(self)@.run(max_instructions as nat),
            summary.instructions == old(self)@.run_instructions(max_instructions as nat),
            summary.cycles == old(self)@.run_cycles(max_instructions as nat),
            summary.fault == final(self)@.halted,
            summary.fault is None ==> summary.instructions == max_instructions,
    {
        let ghost start = self@;
        let mut instructions: u32 = 0;
        let mut cycles: u64 = 0;
        while instructions < max_instructions
            invariant
                start == old(self)@,
                instructions <= max_instructions,
                self@ == start.run(instructions as nat),
                instructions == start.run_instructions(instructions as nat),
                cycles == start.run_cycles(instructions as nat),
                cycles <= 255 * instructions,
            decreases max_instructions - instructions,
        {
            match self.step() {
                Ok(spent) => {
                    instructions = instructions + 1;
                    cycles = cycles + spent as u64;
                },
                Err(fault) => {
                    proof {
                        start.lemma_run_stays_halted(
                            (instructions + 1) as nat,
                            max_instructions as nat,
                        );
                    }
                    return RunSummary { instructions, cycles, fault: Some(fault) };
                },
            }
        }
        RunSummary { instructions, cycles, fault: self.fault }
    }
}

} // verus!
