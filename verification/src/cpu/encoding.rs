//! The layout of the opcode matrix, as a second account of the dispatch
//! table: where each operation stands with each addressing mode.

use vstd::prelude::*;
use super::flags::Flag;
use super::instructions::instruction_for;
use super::instructions::no_argument;
use super::instructions::op_code_of;
use super::instructions::single_argument;
use super::instructions::AddressingMode;
use super::instructions::Instruction;
use super::instructions::NoArgumentInstructionOp;
use super::instructions::SingleArgumentInstructionOp;
use super::timing::access_of;
use super::timing::bus_cycles;
use super::timing::stack_cycles;
use super::types::OpCode;

verus! {

/// A place in the opcode matrix. The three high bits of an opcode are its
/// row, the next three its column, and the two low bits its group.
pub struct Position {
    pub row: int,
    pub column: int,
    pub group: int,
}

impl Position {
    /// The opcode at the position.
    pub open spec fn op_code(self) -> int {
        self.row * 32 + self.column * 4 + self.group
    }
}

/// The group of an operation on an operand, and its row within the group.
/// The operations on the accumulator form group one; the shifts, the
/// steps on memory and the operations on X form group two; the operations
/// on Y, the bit test, the jumps and the branches lie in group zero. A
/// branch stands in the row of the flag it tests and of the value it waits
/// for; the jump stands in row two with an absolute and in row three with
/// an indirect operand, which the column function tells apart.
pub open spec fn row_and_group_of(operation: SingleArgumentInstructionOp) -> (int, int) {
    match operation {
        SingleArgumentInstructionOp::Or => (0, 1),
        SingleArgumentInstructionOp::And => (1, 1),
        SingleArgumentInstructionOp::ExclusiveOr => (2, 1),
        SingleArgumentInstructionOp::AddWithCarry => (3, 1),
        SingleArgumentInstructionOp::StoreAccumulator => (4, 1),
        SingleArgumentInstructionOp::LoadAccumulator => (5, 1),
        SingleArgumentInstructionOp::Compare => (6, 1),
        SingleArgumentInstructionOp::SubtractWithCarry => (7, 1),
        SingleArgumentInstructionOp::ShiftLeft => (0, 2),
        SingleArgumentInstructionOp::RotateLeft => (1, 2),
        SingleArgumentInstructionOp::ShiftRight => (2, 2),
        SingleArgumentInstructionOp::RotateRight => (3, 2),
        SingleArgumentInstructionOp::StoreX => (4, 2),
        SingleArgumentInstructionOp::LoadX => (5, 2),
        SingleArgumentInstructionOp::Decrement => (6, 2),
        SingleArgumentInstructionOp::Increment => (7, 2),
        SingleArgumentInstructionOp::JumpToSubroutine => (1, 0),
        SingleArgumentInstructionOp::BitTest => (1, 0),
        SingleArgumentInstructionOp::Jump => (2, 0),
        SingleArgumentInstructionOp::StoreY => (4, 0),
        SingleArgumentInstructionOp::LoadY => (5, 0),
        SingleArgumentInstructionOp::CompareY => (6, 0),
        SingleArgumentInstructionOp::CompareX => (7, 0),
        SingleArgumentInstructionOp::BranchOnPlus => (0, 0),
        SingleArgumentInstructionOp::BranchOnMinus => (1, 0),
        SingleArgumentInstructionOp::BranchOnOverflowClear => (2, 0),
        SingleArgumentInstructionOp::BranchOnOverflowSet => (3, 0),
        SingleArgumentInstructionOp::BranchOnCarryClear => (4, 0),
        SingleArgumentInstructionOp::BranchOnCarrySet => (5, 0),
        SingleArgumentInstructionOp::BranchOnNotEqual => (6, 0),
        SingleArgumentInstructionOp::BranchOnEqual => (7, 0),
    }
}

/// The addressing modes that an operation has.
pub open spec fn has_mode(operation: SingleArgumentInstructionOp, mode: AddressingMode) -> bool {
    match operation {
        // The operations on the accumulator have all eight modes that
        // yield a location, but for the store, which has no immediate one.
        SingleArgumentInstructionOp::Or
        | SingleArgumentInstructionOp::And
        | SingleArgumentInstructionOp::ExclusiveOr
        | SingleArgumentInstructionOp::AddWithCarry
        | SingleArgumentInstructionOp::LoadAccumulator
        | SingleArgumentInstructionOp::Compare
        | SingleArgumentInstructionOp::SubtractWithCarry => !(mode is ZeroPageY || mode is Indirect
            || mode is Relative),
        SingleArgumentInstructionOp::StoreAccumulator => !(mode is Immediate || mode is ZeroPageY
            || mode is Indirect || mode is Relative),
        // An operation that changes a byte in memory has the two direct
        // modes and their indexing by X.
        SingleArgumentInstructionOp::ShiftLeft
        | SingleArgumentInstructionOp::RotateLeft
        | SingleArgumentInstructionOp::ShiftRight
        | SingleArgumentInstructionOp::RotateRight
        | SingleArgumentInstructionOp::Decrement
        | SingleArgumentInstructionOp::Increment => mode is ZeroPage || mode is ZeroPageX
            || mode is Absolute || mode is AbsoluteX,
        // An index register is loaded and stored with the other one as
        // index.
        SingleArgumentInstructionOp::LoadX => mode is Immediate || mode is ZeroPage
            || mode is ZeroPageY || mode is Absolute || mode is AbsoluteY,
        SingleArgumentInstructionOp::LoadY => mode is Immediate || mode is ZeroPage
            || mode is ZeroPageX || mode is Absolute || mode is AbsoluteX,
        SingleArgumentInstructionOp::StoreX => mode is ZeroPage || mode is ZeroPageY
            || mode is Absolute,
        SingleArgumentInstructionOp::StoreY => mode is ZeroPage || mode is ZeroPageX
            || mode is Absolute,
        SingleArgumentInstructionOp::CompareX | SingleArgumentInstructionOp::CompareY => mode
            is Immediate || mode is ZeroPage || mode is Absolute,
        SingleArgumentInstructionOp::BitTest => mode is ZeroPage || mode is Absolute,
        SingleArgumentInstructionOp::Jump => mode is Absolute || mode is Indirect,
        SingleArgumentInstructionOp::JumpToSubroutine => mode is Absolute,
        _ => mode is Relative,
    }
}

/// The column of an addressing mode. In group one, the two indirect modes
/// and the immediate mode have columns of their own; in the other groups
/// the immediate mode stands in column zero. Indexing by Y stands where
/// indexing by X stands for the operations that have no indexing by X.
pub open spec fn column_of(group: int, mode: AddressingMode) -> int {
    match mode {
        AddressingMode::IndirectX => 0,
        AddressingMode::Immediate => if group == 1 {
            2
        } else {
            0
        },
        AddressingMode::ZeroPage => 1,
        AddressingMode::Absolute | AddressingMode::Indirect => 3,
        AddressingMode::IndirectY | AddressingMode::Relative => 4,
        AddressingMode::ZeroPageX | AddressingMode::ZeroPageY => 5,
        AddressingMode::AbsoluteY => if group == 1 {
            6
        } else {
            7
        },
        AddressingMode::AbsoluteX => 7,
    }
}

/// Where an operation with an addressing mode stands in the opcode matrix.
/// The call stands in column zero, where the immediate mode of its group
/// would stand, and the indirect jump one row below the absolute jump.
pub open spec fn position_of(
    operation: SingleArgumentInstructionOp,
    mode: AddressingMode,
) -> Position {
    let (row, group) = row_and_group_of(operation);
    Position {
        row: if mode is Indirect {
            row + 1
        } else {
            row
        },
        column: if operation is JumpToSubroutine {
            0
        } else {
            column_of(group, mode)
        },
        group,
    }
}

/// The opcode of an operation with an addressing mode, where the
/// operation has that mode.
pub open spec fn encoding_of(
    operation: SingleArgumentInstructionOp,
    mode: AddressingMode,
) -> Option<OpCode> {
    if has_mode(operation, mode) {
        Some(position_of(operation, mode).op_code() as OpCode)
    } else {
        None
    }
}

/// Where an operation without operand stands in the opcode matrix. The
/// operations on the stack and on Y fill column two of group zero, the
/// flag instructions column six; the operations on the accumulator and on
/// X fill columns two and six of group two.
pub open spec fn position_without_argument(operation: NoArgumentInstructionOp) -> Position {
    match operation {
        NoArgumentInstructionOp::ForceBreak => Position { row: 0, column: 0, group: 0 },
        NoArgumentInstructionOp::ReturnFromInterrupt => Position { row: 2, column: 0, group: 0 },
        NoArgumentInstructionOp::ReturnFromSubroutine => Position { row: 3, column: 0, group: 0 },
        NoArgumentInstructionOp::PushStatus => Position { row: 0, column: 2, group: 0 },
        NoArgumentInstructionOp::PullStatus => Position { row: 1, column: 2, group: 0 },
        NoArgumentInstructionOp::PushAccumulator => Position { row: 2, column: 2, group: 0 },
        NoArgumentInstructionOp::PullAccumulator => Position { row: 3, column: 2, group: 0 },
        NoArgumentInstructionOp::DecrementY => Position { row: 4, column: 2, group: 0 },
        NoArgumentInstructionOp::TransferAccumulatorToY => Position { row: 5, column: 2, group: 0 },
        NoArgumentInstructionOp::IncrementY => Position { row: 6, column: 2, group: 0 },
        NoArgumentInstructionOp::IncrementX => Position { row: 7, column: 2, group: 0 },
        NoArgumentInstructionOp::ClearCarry => Position { row: 0, column: 6, group: 0 },
        NoArgumentInstructionOp::SetCarry => Position { row: 1, column: 6, group: 0 },
        NoArgumentInstructionOp::ClearInterrupt => Position { row: 2, column: 6, group: 0 },
        NoArgumentInstructionOp::SetInterrupt => Position { row: 3, column: 6, group: 0 },
        NoArgumentInstructionOp::TransferYToAccumulator => Position { row: 4, column: 6, group: 0 },
        NoArgumentInstructionOp::ClearOverflow => Position { row: 5, column: 6, group: 0 },
        NoArgumentInstructionOp::ClearDecimal => Position { row: 6, column: 6, group: 0 },
        NoArgumentInstructionOp::SetDecimal => Position { row: 7, column: 6, group: 0 },
        NoArgumentInstructionOp::ShiftLeftAccumulator => Position { row: 0, column: 2, group: 2 },
        NoArgumentInstructionOp::RotateLeftAccumulator => Position { row: 1, column: 2, group: 2 },
        NoArgumentInstructionOp::ShiftRightAccumulator => Position { row: 2, column: 2, group: 2 },
        NoArgumentInstructionOp::RotateRightAccumulator => Position { row: 3, column: 2, group: 2 },
        NoArgumentInstructionOp::TransferXToAccumulator => Position { row: 4, column: 2, group: 2 },
        NoArgumentInstructionOp::TransferAccumulatorToX => Position { row: 5, column: 2, group: 2 },
        NoArgumentInstructionOp::DecrementX => Position { row: 6, column: 2, group: 2 },
        NoArgumentInstructionOp::NoOperation => Position { row: 7, column: 2, group: 2 },
        NoArgumentInstructionOp::TransferXToStackPointer => Position { row: 4, column: 6, group: 2 },
        NoArgumentInstructionOp::TransferStackPointerToX => Position { row: 5, column: 6, group: 2 },
    }
}

/// A branch stands in the row of its flag, counted Negative, Overflow,
/// Carry, Zero, twice, plus one where it waits for the flag to be set.
pub proof fn lemma_branch_rows(operation: SingleArgumentInstructionOp)
    requires
        operation.branch_condition_of() is Some,
    ensures
        ({
            let (flag, expected) = operation.branch_condition_of()->0;
            let flag_row: int = match flag {
                Flag::Negative => 0,
                Flag::Overflow => 1,
                Flag::Carry => 2,
                _ => 3,
            };
            &&& flag is Negative || flag is Overflow || flag is Carry || flag is Zero
            &&& row_and_group_of(operation) == (
                2 * flag_row + if expected {
                    1int
                } else {
                    0int
                },
                0int,
            )
        }),
{
}

/// The dispatch table binds every operation with every addressing mode
/// that it has, at the opcode of its position in the matrix, and with the
/// cycles that the instruction spends on the bus.
pub proof fn lemma_table_binds_every_encoding(
    operation: SingleArgumentInstructionOp,
    mode: AddressingMode,
)
    requires
        has_mode(operation, mode),
    ensures
        0 <= position_of(operation, mode).op_code() <= 255,
        2 <= bus_cycles(operation, mode) <= 7,
        instruction_for(encoding_of(operation, mode)->0) == single_argument(
            encoding_of(operation, mode)->0,
            operation,
            mode,
            bus_cycles(operation, mode) as u8,
        ),
{
    reveal(instruction_for);
    let (row, group) = row_and_group_of(operation);
    if group == 1 {
        if row < 4 {
        } else {
        }
    } else if group == 2 {
        if row < 4 {
        } else {
        }
    } else {
        if mode is Relative {
        } else {
        }
    }
}

/// The dispatch table binds every operation without operand at the opcode
/// of its position in the matrix, with two cycles and those that it spends
/// on the stack.
pub proof fn lemma_table_binds_every_operation_without_argument(
    operation: NoArgumentInstructionOp,
)
    ensures
        0 <= position_without_argument(operation).op_code() <= 255,
        instruction_for(position_without_argument(operation).op_code() as OpCode) == no_argument(
            position_without_argument(operation).op_code() as OpCode,
            operation,
            (2 + stack_cycles(operation)) as u8,
        ),
{
    reveal(instruction_for);
}

/// The dispatch table binds nothing else: every bound entry stands at the
/// opcode of its operation and addressing mode. Hence no operation is
/// bound twice with the same mode, and the 105 opcodes that encode no
/// operation are invalid.
pub proof fn lemma_table_binds_only_encodings(op_code: OpCode)
    ensures
        instruction_for(op_code) matches Instruction::NoArgument { operation, .. }
            ==> position_without_argument(operation).op_code() == op_code,
        instruction_for(op_code) matches Instruction::SingleArgument {
            operation,
            addressing_mode,
            ..
        } ==> encoding_of(operation, addressing_mode) == Some(op_code),
{
    reveal(instruction_for);
    if op_code < 0x20 {
    } else if op_code < 0x40 {
    } else if op_code < 0x60 {
    } else if op_code < 0x80 {
    } else if op_code < 0xA0 {
    } else if op_code < 0xC0 {
    } else if op_code < 0xE0 {
    } else {
    }
}

/// Every bound entry of the dispatch table carries the opcode at which it
/// stands and the name of its operation.
pub proof fn lemma_entry_carries_its_opcode(op_code: OpCode)
    ensures
        !(instruction_for(op_code) is Invalid) ==> op_code_of(instruction_for(op_code)) == op_code,
        instruction_for(op_code) matches Instruction::NoArgument { mnemonic, operation, .. }
            ==> mnemonic == operation.mnemonic_of(),
        instruction_for(op_code) matches Instruction::SingleArgument { mnemonic, operation, .. }
            ==> mnemonic == operation.mnemonic_of(),
{
    reveal(instruction_for);
    if op_code < 0x20 {
    } else if op_code < 0x40 {
    } else if op_code < 0x60 {
    } else if op_code < 0x80 {
    } else if op_code < 0xA0 {
    } else if op_code < 0xC0 {
    } else if op_code < 0xE0 {
    } else {
    }
}

/// The dispatch table binds each operation only with addressing modes that
/// fit it: a branch always and only with relative addressing, an operation
/// that writes never with an immediate operand, and indirect addressing
/// only with the jump.
pub proof fn lemma_modes_fit_operations(op_code: OpCode)
    ensures
        instruction_for(op_code) matches Instruction::SingleArgument {
            operation,
            addressing_mode,
            ..
        } ==> {
            &&& operation.branch_condition_of() is Some <==> addressing_mode is Relative
            &&& (access_of(operation) is Write || access_of(operation) is Modify)
                ==> !(addressing_mode is Immediate)
            &&& addressing_mode is Indirect ==> operation is Jump
        },
{
    reveal(instruction_for);
    if op_code < 0x20 {
    } else if op_code < 0x40 {
    } else if op_code < 0x60 {
    } else if op_code < 0x80 {
    } else if op_code < 0xA0 {
    } else if op_code < 0xC0 {
    } else if op_code < 0xE0 {
    } else {
    }
}

} // verus!
