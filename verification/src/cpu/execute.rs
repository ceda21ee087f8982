//! Dispatch and the single step.

use vstd::prelude::*;
use super::addressing::effective_address;
use super::addressing::page_crossed;
use super::flags::Flag;
use super::instructions::instruction_for;
use super::instructions::Instruction;
use super::instructions::NoArgumentInstructionOp;
use super::instructions::SingleArgumentInstructionOp;
use super::state::CpuState;
use super::types::Address;
use super::types::DecodeFault;
use super::types::OpCode;
use super::MOS6502Cpu;

verus! {

/// The most cycles that the dispatch table charges for one instruction,
/// before penalties.
pub const MAX_BASE_CYCLES: u8 = 7;

/// The base cost of an entry of the dispatch table, which is 0 for an
/// opcode that is bound to nothing.
pub open spec fn base_cycles_of(instruction: Instruction) -> u8 {
    match instruction {
        Instruction::Invalid => 0,
        Instruction::NoArgument { cycles, .. } => cycles,
        Instruction::SingleArgument { cycles, .. } => cycles,
    }
}

/// No instruction costs more than seven cycles before penalties.
pub proof fn lemma_base_cycles_are_bounded(op_code: OpCode)
    ensures
        base_cycles_of(instruction_for(op_code)) <= MAX_BASE_CYCLES,
{
    reveal(instruction_for);
    if op_code < 0x20 {
    } else if op_code < 0x40 {
    } else if op_code < 0x60 {
    } else if op_code < 0x80 {
    } else if op_code < 0xA0 {
    } else if op_code < 0xC0 {
    } else if op_code < 0xE0 {
    } else {
    }
}

impl CpuState {
    /// The state after an operation without operand.
    #[verifier::opaque]
    pub open spec fn execute_no_argument(self, operation: NoArgumentInstructionOp) -> CpuState {
        match operation {
            NoArgumentInstructionOp::ForceBreak => self.force_break(),
            NoArgumentInstructionOp::ReturnFromInterrupt => self.return_from_interrupt(),
            NoArgumentInstructionOp::ReturnFromSubroutine => self.return_from_subroutine(),
            NoArgumentInstructionOp::NoOperation => self,
            NoArgumentInstructionOp::PushAccumulator => self.push_accumulator(),
            NoArgumentInstructionOp::PushStatus => self.push_status(),
            NoArgumentInstructionOp::PullAccumulator => self.pull_accumulator(),
            NoArgumentInstructionOp::PullStatus => self.pull_status(),
            NoArgumentInstructionOp::TransferAccumulatorToX => self.transfer_accumulator_to_x(),
            NoArgumentInstructionOp::TransferAccumulatorToY => self.transfer_accumulator_to_y(),
            NoArgumentInstructionOp::TransferXToAccumulator => self.transfer_x_to_accumulator(),
            NoArgumentInstructionOp::TransferYToAccumulator => self.transfer_y_to_accumulator(),
            NoArgumentInstructionOp::TransferStackPointerToX => self.transfer_stack_pointer_to_x(),
            NoArgumentInstructionOp::TransferXToStackPointer => self.transfer_x_to_stack_pointer(),
            NoArgumentInstructionOp::IncrementX => self.increment_x(),
            NoArgumentInstructionOp::IncrementY => self.increment_y(),
            NoArgumentInstructionOp::DecrementX => self.decrement_x(),
            NoArgumentInstructionOp::DecrementY => self.decrement_y(),
            NoArgumentInstructionOp::ClearCarry => self.with_flag(Flag::Carry, false),
            NoArgumentInstructionOp::SetCarry => self.with_flag(Flag::Carry, true),
            NoArgumentInstructionOp::ClearInterrupt => self.with_flag(Flag::Interrupt, false),
            NoArgumentInstructionOp::SetInterrupt => self.with_flag(Flag::Interrupt, true),
            NoArgumentInstructionOp::ClearOverflow => self.with_flag(Flag::Overflow, false),
            NoArgumentInstructionOp::ClearDecimal => self.with_flag(Flag::Decimal, false),
            NoArgumentInstructionOp::SetDecimal => self.with_flag(Flag::Decimal, true),
            NoArgumentInstructionOp::ShiftLeftAccumulator => self.shift_left_accumulator(),
            NoArgumentInstructionOp::ShiftRightAccumulator => self.shift_right_accumulator(),
            NoArgumentInstructionOp::RotateLeftAccumulator => self.rotate_left_accumulator(),
            NoArgumentInstructionOp::RotateRightAccumulator => self.rotate_right_accumulator(),
        }
    }

    /// The state after an operation on the operand at `address`. The
    /// program counter of `self` points at the next instruction.
    #[verifier::opaque]
    pub open spec fn execute_single_argument(
        self,
        operation: SingleArgumentInstructionOp,
        address: Address,
    ) -> CpuState {
        match operation {
            SingleArgumentInstructionOp::LoadAccumulator => self.load_accumulator(address),
            SingleArgumentInstructionOp::LoadX => self.load_x(address),
            SingleArgumentInstructionOp::LoadY => self.load_y(address),
            SingleArgumentInstructionOp::StoreAccumulator => self.store_accumulator(address),
            SingleArgumentInstructionOp::StoreX => self.store_x(address),
            SingleArgumentInstructionOp::StoreY => self.store_y(address),
            SingleArgumentInstructionOp::AddWithCarry => self.add_with_carry(address),
            SingleArgumentInstructionOp::SubtractWithCarry => self.subtract_with_carry(address),
            SingleArgumentInstructionOp::And => self.and(address),
            SingleArgumentInstructionOp::Or => self.or(address),
            SingleArgumentInstructionOp::ExclusiveOr => self.exclusive_or(address),
            SingleArgumentInstructionOp::BitTest => self.bit_test(address),
            SingleArgumentInstructionOp::Compare => self.compare(address),
            SingleArgumentInstructionOp::CompareX => self.compare_x(address),
            SingleArgumentInstructionOp::CompareY => self.compare_y(address),
            SingleArgumentInstructionOp::ShiftLeft => self.shift_left(address),
            SingleArgumentInstructionOp::ShiftRight => self.shift_right(address),
            SingleArgumentInstructionOp::RotateLeft => self.rotate_left(address),
            SingleArgumentInstructionOp::RotateRight => self.rotate_right(address),
            SingleArgumentInstructionOp::Increment => self.increment(address),
            SingleArgumentInstructionOp::Decrement => self.decrement(address),
            SingleArgumentInstructionOp::Jump => self.jump(address),
            SingleArgumentInstructionOp::JumpToSubroutine => self.jump_to_subroutine(address),
            SingleArgumentInstructionOp::BranchOnCarryClear => self.branch(
                Flag::Carry,
                false,
                address,
            ),
            SingleArgumentInstructionOp::BranchOnCarrySet => self.branch(Flag::Carry, true, address),
            SingleArgumentInstructionOp::BranchOnEqual => self.branch(Flag::Zero, true, address),
            SingleArgumentInstructionOp::BranchOnNotEqual => self.branch(Flag::Zero, false, address),
            SingleArgumentInstructionOp::BranchOnMinus => self.branch(Flag::Negative, true, address),
            SingleArgumentInstructionOp::BranchOnPlus => self.branch(Flag::Negative, false, address),
            SingleArgumentInstructionOp::BranchOnOverflowClear => self.branch(
                Flag::Overflow,
                false,
                address,
            ),
            SingleArgumentInstructionOp::BranchOnOverflowSet => self.branch(
                Flag::Overflow,
                true,
                address,
            ),
        }
    }

    /// The cycles that an operation on an operand costs beyond its base
    /// cost. A branch pays for being taken and for leaving the page. An
    /// operation that only reads its operand pays one cycle when indexing
    /// crossed a page. The program counter of `self` points at the next
    /// instruction.
    pub open spec fn penalty(
        self,
        operation: SingleArgumentInstructionOp,
        address: Address,
        page_crossed: bool,
    ) -> u8 {
        match operation.branch_condition_of() {
            Some((flag, expected)) => self.branch_penalty(flag, expected, address),
            None => if page_crossed && operation.reads_operand_of() {
                1
            } else {
                0
            },
        }
    }

    /// The opcode that the next step fetches.
    pub open spec fn opcode(self) -> OpCode {
        self.read(self.pc)
    }

    /// The fault that the next step reports if the opcode at the program
    /// counter is bound to no instruction.
    pub open spec fn decode_fault(self) -> DecodeFault {
        DecodeFault { opcode: self.opcode(), pc: self.pc }
    }

    /// The state after one step, which takes the processor once through
    /// its cycle of states.
    ///
    /// * Halted: the processor stays as it is.
    /// * Fetching: the opcode at the program counter is read, and the
    ///   program counter moves past it.
    /// * Dispatching: the opcode is looked up in the dispatch table. If it
    ///   is bound to nothing, the processor halts on a decode fault.
    /// * Resolving: for an instruction with an operand, the addressing
    ///   mode yields the operand address, and the program counter moves
    ///   past the operand bytes.
    /// * Executing: the operation is applied, and the processor is back at
    ///   Fetching.
    #[verifier::opaque]
    pub open spec fn step(self) -> CpuState {
        if self.halted is Some {
            self
        } else {
            let fetched = self.advance(1);
            match instruction_for(self.opcode()) {
                Instruction::Invalid => CpuState {
                    halted: Some(self.decode_fault()),
                    ..fetched
                },
                Instruction::NoArgument { operation, .. } => fetched.execute_no_argument(
                    operation,
                ),
                Instruction::SingleArgument { operation, addressing_mode, .. } => fetched.advance(
                    addressing_mode.operand_width_of() as int,
                ).execute_single_argument(operation, effective_address(fetched, addressing_mode)),
            }
        }
    }

    /// What one step returns: the cycles that the instruction took, which
    /// are its base cost and its penalty, or the fault at which the
    /// processor halts or has halted.
    #[verifier::opaque]
    pub open spec fn step_result(self) -> Result<u8, DecodeFault> {
        match self.halted {
            Some(fault) => Err(fault),
            None => {
                let fetched = self.advance(1);
                match instruction_for(self.opcode()) {
                    Instruction::Invalid => Err(self.decode_fault()),
                    Instruction::NoArgument { cycles, .. } => Ok(cycles),
                    Instruction::SingleArgument { operation, addressing_mode, cycles, .. } => Ok(
                        (cycles + fetched.advance(
                            addressing_mode.operand_width_of() as int,
                        ).penalty(
                            operation,
                            effective_address(fetched, addressing_mode),
                            page_crossed(fetched, addressing_mode),
                        )) as u8,
                    ),
                }
            },
        }
    }
}

impl MOS6502Cpu {
    /// Applies an operation without operand.
    pub fn execute_no_argument(&mut self, operation: NoArgumentInstructionOp)
        ensures
            final(self)@ == old(self)@.execute_no_argument(operation),
            final(self)@.halted == old(self)@.halted,
    {
        proof {
            reveal(CpuState::execute_no_argument);
        }
        match operation {
            NoArgumentInstructionOp::ForceBreak => self.force_break(),
            NoArgumentInstructionOp::ReturnFromInterrupt => self.return_from_interrupt(),
            NoArgumentInstructionOp::ReturnFromSubroutine => self.return_from_subroutine(),
            NoArgumentInstructionOp::NoOperation => self.no_operation(),
            NoArgumentInstructionOp::PushAccumulator => self.push_accumulator(),
            NoArgumentInstructionOp::PushStatus => self.push_status(),
            NoArgumentInstructionOp::PullAccumulator => self.pull_accumulator(),
            NoArgumentInstructionOp::PullStatus => self.pull_status(),
            NoArgumentInstructionOp::TransferAccumulatorToX => self.transfer_accumulator_to_x(),
            NoArgumentInstructionOp::TransferAccumulatorToY => self.transfer_accumulator_to_y(),
            NoArgumentInstructionOp::TransferXToAccumulator => self.transfer_x_to_accumulator(),
            NoArgumentInstructionOp::TransferYToAccumulator => self.transfer_y_to_accumulator(),
            NoArgumentInstructionOp::TransferStackPointerToX => self.transfer_stack_pointer_to_x(),
            NoArgumentInstructionOp::TransferXToStackPointer => self.transfer_x_to_stack_pointer(),
            NoArgumentInstructionOp::IncrementX => self.increment_x(),
            NoArgumentInstructionOp::IncrementY => self.increment_y(),
            NoArgumentInstructionOp::DecrementX => self.decrement_x(),
            NoArgumentInstructionOp::DecrementY => self.decrement_y(),
            NoArgumentInstructionOp::ClearCarry => self.clear_flag(Flag::Carry),
            NoArgumentInstructionOp::SetCarry => self.set_flag(Flag::Carry),
            NoArgumentInstructionOp::ClearInterrupt => self.clear_flag(Flag::Interrupt),
            NoArgumentInstructionOp::SetInterrupt => self.set_flag(Flag::Interrupt),
            NoArgumentInstructionOp::ClearOverflow => self.clear_flag(Flag::Overflow),
            NoArgumentInstructionOp::ClearDecimal => self.clear_flag(Flag::Decimal),
            NoArgumentInstructionOp::SetDecimal => self.set_flag(Flag::Decimal),
            NoArgumentInstructionOp::ShiftLeftAccumulator => self.shift_left_accumulator(),
            NoArgumentInstructionOp::ShiftRightAccumulator => self.shift_right_accumulator(),
            NoArgumentInstructionOp::RotateLeftAccumulator => self.rotate_left_accumulator(),
            NoArgumentInstructionOp::RotateRightAccumulator => self.rotate_right_accumulator(),
        }
    }

    /// Applies an operation to the operand at `address` and tells how many
    /// cycles beyond the base cost it took. `page_crossed` is the signal of
    /// the addressing mode that resolved the address.
    pub fn execute_single_argument(
        &mut self,
        operation: SingleArgumentInstructionOp,
        address: Address,
        page_crossed: bool,
    ) -> (penalty: u8)
        ensures
            final(self)@ == old(self)@.execute_single_argument(operation, address),
            final(self)@.halted == old(self)@.halted,
            penalty == old(self)@.penalty(operation, address, page_crossed),
    {
        proof {
            reveal(CpuState::execute_single_argument);
        }
        if let Some((flag, expected)) = operation.branch_condition() {
            return self.branch(flag, expected, address);
        }
        match operation {
            SingleArgumentInstructionOp::LoadAccumulator => self.load_accumulator(address),
            SingleArgumentInstructionOp::LoadX => self.load_x(address),
            SingleArgumentInstructionOp::LoadY => self.load_y(address),
            SingleArgumentInstructionOp::StoreAccumulator => self.store_accumulator(address),
            SingleArgumentInstructionOp::StoreX => self.store_x(address),
            SingleArgumentInstructionOp::StoreY => self.store_y(address),
            SingleArgumentInstructionOp::AddWithCarry => self.add_with_carry(address),
            SingleArgumentInstructionOp::SubtractWithCarry => self.subtract_with_carry(address),
            SingleArgumentInstructionOp::And => self.and(address),
            SingleArgumentInstructionOp::Or => self.or(address),
            SingleArgumentInstructionOp::ExclusiveOr => self.exclusive_or(address),
            SingleArgumentInstructionOp::BitTest => self.bit_test(address),
            SingleArgumentInstructionOp::Compare => self.compare(address),
            SingleArgumentInstructionOp::CompareX => self.compare_x(address),
            SingleArgumentInstructionOp::CompareY => self.compare_y(address),
            SingleArgumentInstructionOp::ShiftLeft => self.shift_left(address),
            SingleArgumentInstructionOp::ShiftRight => self.shift_right(address),
            SingleArgumentInstructionOp::RotateLeft => self.rotate_left(address),
            SingleArgumentInstructionOp::RotateRight => self.rotate_right(address),
            SingleArgumentInstructionOp::Increment => self.increment(address),
            SingleArgumentInstructionOp::Decrement => self.decrement(address),
            SingleArgumentInstructionOp::Jump => self.jump(address),
            SingleArgumentInstructionOp::JumpToSubroutine => self.jump_to_subroutine(address),
            _ => {},
        }
        if page_crossed && operation.reads_operand() {
            1
        } else {
            0
        }
    }

    /// Runs exactly one instruction: fetches the opcode at the program
    /// counter, looks it up in the dispatch table, resolves the operand
    /// address, applies the operation, and returns the cycles it took. An
    /// opcode that is bound to nothing halts the processor: the fault is
    /// returned, by this call and by every later one, until the processor
    /// is reset or resumed.
    pub fn step(&mut self) -> (result: Result<u8, DecodeFault>)
        ensures
            final(self)@ == old(self)@.step(),
            result == old(self)@.step_result(),
            match result {
                Ok(_) => final(self)@.halted is None,
                Err(fault) => final(self)@.halted == Some(fault),
            },
    {
        proof {
            reveal(CpuState::step);
            reveal(CpuState::step_result);
        }
        if let Some(fault) = self.fault {
            return Err(fault);
        }
        let pc: Address = self.pc;
        let op: OpCode = self.fetch();
        proof {
            lemma_base_cycles_are_bounded(op);
        }
        match self.instructions.get(op) {
            Instruction::Invalid => {
                let fault = DecodeFault { opcode: op, pc };
                self.fault = Some(fault);
                Err(fault)
            },
            Instruction::NoArgument { op_code: _, mnemonic: _, operation, cycles } => {
                self.execute_no_argument(operation);
                Ok(cycles)
            },
            Instruction::SingleArgument {
                op_code: _,
                mnemonic: _,
                operation,
                addressing_mode,
                cycles,
            } => {
                let (address, page_crossed) = self.resolve(addressing_mode);
                let penalty: u8 = self.execute_single_argument(operation, address, page_crossed);
                Ok(cycles + penalty)
            },
        }
    }
}

} // verus!
