//! The cycles of each instruction, counted from what it does on the bus.

use vstd::prelude::*;
use super::instructions::instruction_for;
use super::instructions::AddressingMode;
use super::instructions::Instruction;
use super::instructions::NoArgumentInstructionOp;
use super::instructions::SingleArgumentInstructionOp;
use super::types::OpCode;

verus! {

/// What an operation does with the location that its operand address
/// names.
pub enum Access {
    /// The operation reads the location.
    Read,
    /// The operation writes the location.
    Write,
    /// The operation reads the location, changes the byte and writes it
    /// back.
    Modify,
    /// The operation uses the address and does not touch the location.
    Transfer,
}

/// How each operation uses its operand.
pub open spec fn access_of(operation: SingleArgumentInstructionOp) -> Access {
    match operation {
        SingleArgumentInstructionOp::StoreAccumulator
        | SingleArgumentInstructionOp::StoreX
        | SingleArgumentInstructionOp::StoreY => Access::Write,
        SingleArgumentInstructionOp::ShiftLeft
        | SingleArgumentInstructionOp::ShiftRight
        | SingleArgumentInstructionOp::RotateLeft
        | SingleArgumentInstructionOp::RotateRight
        | SingleArgumentInstructionOp::Increment
        | SingleArgumentInstructionOp::Decrement => Access::Modify,
        _ => if operation.reads_operand_of() {
            Access::Read
        } else {
            Access::Transfer
        },
    }
}

/// The cycles in which an addressing mode computes the address, beyond the
/// fetch of its operand bytes: one to add an index within the zero page,
/// two to read a pointer.
pub open spec fn addressing_cycles(mode: AddressingMode) -> int {
    match mode {
        AddressingMode::ZeroPageX | AddressingMode::ZeroPageY => 1,
        AddressingMode::Indirect | AddressingMode::IndirectY => 2,
        AddressingMode::IndirectX => 3,
        _ => 0,
    }
}

/// The mode adds an index register to a 16-bit base, so that the sum can
/// lie in another page than the base.
pub open spec fn can_cross_page(mode: AddressingMode) -> bool {
    mode is AbsoluteX || mode is AbsoluteY || mode is IndirectY
}

/// The cycles in which an operation uses its operand. A read of an
/// immediate operand is the fetch of the operand byte itself. A call
/// spends one cycle inside the processor and two to push the return
/// address.
pub open spec fn access_cycles(operation: SingleArgumentInstructionOp, mode: AddressingMode) -> int {
    match access_of(operation) {
        Access::Read => if mode is Immediate {
            0
        } else {
            1
        },
        Access::Write => 1,
        Access::Modify => 3,
        Access::Transfer => if operation is JumpToSubroutine {
            3
        } else {
            0
        },
    }
}

/// The base cost of an instruction with an operand, counted from what it
/// does on the bus: one cycle for the opcode, one for each operand byte,
/// the cycles of the addressing mode and those of the access. An operation
/// that writes spends, in every case, the cycle in which the high byte of
/// an indexed address is corrected; an operation that only reads spends it
/// as a penalty, and only when a page is crossed.
pub open spec fn bus_cycles(operation: SingleArgumentInstructionOp, mode: AddressingMode) -> int {
    1 + mode.operand_width_of() + addressing_cycles(mode) + access_cycles(operation, mode) + if (
    access_of(operation) is Write || access_of(operation) is Modify) && can_cross_page(mode) {
        1int
    } else {
        0int
    }
}

/// The cycles that an operation without operand spends on the stack,
/// beyond the two cycles that each of them takes.
pub open spec fn stack_cycles(operation: NoArgumentInstructionOp) -> int {
    match operation {
        NoArgumentInstructionOp::PushAccumulator | NoArgumentInstructionOp::PushStatus => 1,
        NoArgumentInstructionOp::PullAccumulator | NoArgumentInstructionOp::PullStatus => 2,
        NoArgumentInstructionOp::ReturnFromSubroutine
        | NoArgumentInstructionOp::ReturnFromInterrupt => 4,
        NoArgumentInstructionOp::ForceBreak => 5,
        _ => 0,
    }
}

/// The base cost that the dispatch table gives each instruction without
/// operand is two cycles and those that it spends on the stack.
pub proof fn lemma_base_cycles_count_stack_accesses(op_code: OpCode)
    ensures
        instruction_for(op_code) matches Instruction::NoArgument { operation, cycles, .. }
            ==> cycles == 2 + stack_cycles(operation),
{
    reveal(instruction_for);
    if op_code < 0x20 {
    } else if op_code < 0x40 {
    } else if op_code < 0x60 {
    } else if op_code < 0x80 {
    } else if op_code < 0xA0 {
    } else if op_code < 0xC0 {
    } else if op_code < 0xE0 {
    } else {
    }
}

/// The base cost that the dispatch table gives each instruction with an
/// operand is the number of cycles that the instruction spends on the bus.
pub proof fn lemma_base_cycles_count_bus_accesses(op_code: OpCode)
    ensures
        instruction_for(op_code) matches Instruction::SingleArgument {
            operation,
            addressing_mode,
            cycles,
            ..
        } ==> cycles == bus_cycles(operation, addressing_mode),
{
    reveal(instruction_for);
    if op_code < 0x20 {
    } else if op_code < 0x40 {
    } else if op_code < 0x60 {
    } else if op_code < 0x80 {
    } else if op_code < 0xA0 {
    } else if op_code < 0xC0 {
    } else if op_code < 0xE0 {
    } else {
    }
}

} // verus!
