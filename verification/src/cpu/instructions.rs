//! The instruction set and the dispatch table built from it.

use vstd::prelude::*;
use super::flags::Flag;
use super::types::OpCode;
use super::instructions::AddressingMode::Immediate;
use super::instructions::AddressingMode::ZeroPage;
use super::instructions::AddressingMode::ZeroPageX;
use super::instructions::AddressingMode::ZeroPageY;
use super::instructions::AddressingMode::Absolute;
use super::instructions::AddressingMode::AbsoluteX;
use super::instructions::AddressingMode::AbsoluteY;
use super::instructions::AddressingMode::Indirect;
use super::instructions::AddressingMode::IndirectX;
use super::instructions::AddressingMode::IndirectY;
use super::instructions::AddressingMode::Relative;
use super::instructions::NoArgumentInstructionOp::ForceBreak;
use super::instructions::NoArgumentInstructionOp::ReturnFromInterrupt;
use super::instructions::NoArgumentInstructionOp::ReturnFromSubroutine;
use super::instructions::NoArgumentInstructionOp::NoOperation;
use super::instructions::NoArgumentInstructionOp::PushAccumulator;
use super::instructions::NoArgumentInstructionOp::PushStatus;
use super::instructions::NoArgumentInstructionOp::PullAccumulator;
use super::instructions::NoArgumentInstructionOp::PullStatus;
use super::instructions::NoArgumentInstructionOp::TransferAccumulatorToX;
use super::instructions::NoArgumentInstructionOp::TransferAccumulatorToY;
use super::instructions::NoArgumentInstructionOp::TransferXToAccumulator;
use super::instructions::NoArgumentInstructionOp::TransferYToAccumulator;
use super::instructions::NoArgumentInstructionOp::TransferStackPointerToX;
use super::instructions::NoArgumentInstructionOp::TransferXToStackPointer;
use super::instructions::NoArgumentInstructionOp::IncrementX;
use super::instructions::NoArgumentInstructionOp::IncrementY;
use super::instructions::NoArgumentInstructionOp::DecrementX;
use super::instructions::NoArgumentInstructionOp::DecrementY;
use super::instructions::NoArgumentInstructionOp::ClearCarry;
use super::instructions::NoArgumentInstructionOp::SetCarry;
use super::instructions::NoArgumentInstructionOp::ClearInterrupt;
use super::instructions::NoArgumentInstructionOp::SetInterrupt;
use super::instructions::NoArgumentInstructionOp::ClearOverflow;
use super::instructions::NoArgumentInstructionOp::ClearDecimal;
use super::instructions::NoArgumentInstructionOp::SetDecimal;
use super::instructions::NoArgumentInstructionOp::ShiftLeftAccumulator;
use super::instructions::NoArgumentInstructionOp::ShiftRightAccumulator;
use super::instructions::NoArgumentInstructionOp::RotateLeftAccumulator;
use super::instructions::NoArgumentInstructionOp::RotateRightAccumulator;
use super::instructions::SingleArgumentInstructionOp::LoadAccumulator;
use super::instructions::SingleArgumentInstructionOp::LoadX;
use super::instructions::SingleArgumentInstructionOp::LoadY;
use super::instructions::SingleArgumentInstructionOp::StoreAccumulator;
use super::instructions::SingleArgumentInstructionOp::StoreX;
use super::instructions::SingleArgumentInstructionOp::StoreY;
use super::instructions::SingleArgumentInstructionOp::AddWithCarry;
use super::instructions::SingleArgumentInstructionOp::SubtractWithCarry;
use super::instructions::SingleArgumentInstructionOp::And;
use super::instructions::SingleArgumentInstructionOp::Or;
use super::instructions::SingleArgumentInstructionOp::ExclusiveOr;
use super::instructions::SingleArgumentInstructionOp::BitTest;
use super::instructions::SingleArgumentInstructionOp::Compare;
use super::instructions::SingleArgumentInstructionOp::CompareX;
use super::instructions::SingleArgumentInstructionOp::CompareY;
use super::instructions::SingleArgumentInstructionOp::ShiftLeft;
use super::instructions::SingleArgumentInstructionOp::ShiftRight;
use super::instructions::SingleArgumentInstructionOp::RotateLeft;
use super::instructions::SingleArgumentInstructionOp::RotateRight;
use super::instructions::SingleArgumentInstructionOp::Increment;
use super::instructions::SingleArgumentInstructionOp::Decrement;
use super::instructions::SingleArgumentInstructionOp::Jump;
use super::instructions::SingleArgumentInstructionOp::JumpToSubroutine;
use super::instructions::SingleArgumentInstructionOp::BranchOnCarryClear;
use super::instructions::SingleArgumentInstructionOp::BranchOnCarrySet;
use super::instructions::SingleArgumentInstructionOp::BranchOnEqual;
use super::instructions::SingleArgumentInstructionOp::BranchOnNotEqual;
use super::instructions::SingleArgumentInstructionOp::BranchOnMinus;
use super::instructions::SingleArgumentInstructionOp::BranchOnPlus;
use super::instructions::SingleArgumentInstructionOp::BranchOnOverflowClear;
use super::instructions::SingleArgumentInstructionOp::BranchOnOverflowSet;

verus! {

/// How an instruction finds its operand from the bytes that follow the
/// opcode and from the index registers.
#[derive(Clone, Copy, PartialEq, Eq, Debug, Structural)]
pub enum AddressingMode {
    /// The operand is the byte after the opcode.
    Immediate,
    /// The byte after the opcode is an address in the zero page.
    ZeroPage,
    /// Zero page address plus X, staying in the zero page.
    ZeroPageX,
    /// Zero page address plus Y, staying in the zero page.
    ZeroPageY,
    /// The two bytes after the opcode are the address, low byte first.
    Absolute,
    /// Absolute address plus X.
    AbsoluteX,
    /// Absolute address plus Y.
    AbsoluteY,
    /// The two bytes after the opcode point at the address.
    Indirect,
    /// The zero page location at operand plus X holds the address.
    IndirectX,
    /// The zero page location at the operand holds a base address, to
    /// which Y is added.
    IndirectY,
    /// The byte after the opcode is a signed distance from the next
    /// instruction.
    Relative,
}

impl AddressingMode {
    /// The number of operand bytes that follow the opcode.
    pub open spec fn operand_width_of(self) -> u16 {
        match self {
            Immediate | ZeroPage | ZeroPageX | ZeroPageY | IndirectX | IndirectY | Relative => 1,
            Absolute | AbsoluteX | AbsoluteY | Indirect => 2,
        }
    }

    /// The number of operand bytes that follow the opcode.
    pub fn operand_width(self) -> (width: u16)
        ensures
            width == self.operand_width_of(),
    {
        match self {
            Immediate | ZeroPage | ZeroPageX | ZeroPageY | IndirectX | IndirectY | Relative => 1,
            Absolute | AbsoluteX | AbsoluteY | Indirect => 2,
        }
    }
}

/// The operations that work on processor state alone.
#[derive(Clone, Copy, PartialEq, Eq, Debug, Structural)]
pub enum NoArgumentInstructionOp {
    /// BRK: software interrupt.
    ForceBreak,
    /// RTI: pull status and program counter.
    ReturnFromInterrupt,
    /// RTS: pull the return address.
    ReturnFromSubroutine,
    /// NOP: do nothing.
    NoOperation,
    /// PHA: push the accumulator.
    PushAccumulator,
    /// PHP: push the status register.
    PushStatus,
    /// PLA: pull the accumulator.
    PullAccumulator,
    /// PLP: pull the status register.
    PullStatus,
    /// TAX: copy the accumulator to X.
    TransferAccumulatorToX,
    /// TAY: copy the accumulator to Y.
    TransferAccumulatorToY,
    /// TXA: copy X to the accumulator.
    TransferXToAccumulator,
    /// TYA: copy Y to the accumulator.
    TransferYToAccumulator,
    /// TSX: copy the stack pointer to X.
    TransferStackPointerToX,
    /// TXS: copy X to the stack pointer.
    TransferXToStackPointer,
    /// INX: add one to X.
    IncrementX,
    /// INY: add one to Y.
    IncrementY,
    /// DEX: subtract one from X.
    DecrementX,
    /// DEY: subtract one from Y.
    DecrementY,
    /// CLC: clear Carry.
    ClearCarry,
    /// SEC: set Carry.
    SetCarry,
    /// CLI: clear Interrupt-disable.
    ClearInterrupt,
    /// SEI: set Interrupt-disable.
    SetInterrupt,
    /// CLV: clear Overflow.
    ClearOverflow,
    /// CLD: clear Decimal.
    ClearDecimal,
    /// SED: set Decimal.
    SetDecimal,
    /// ASL A: shift the accumulator left by one bit.
    ShiftLeftAccumulator,
    /// LSR A: shift the accumulator right by one bit.
    ShiftRightAccumulator,
    /// ROL A: rotate the accumulator left through Carry.
    RotateLeftAccumulator,
    /// ROR A: rotate the accumulator right through Carry.
    RotateRightAccumulator,
}

impl NoArgumentInstructionOp {
    /// The three-letter name of the operation.
    pub open spec fn mnemonic_of(self) -> &'static str {
        match self {
            NoArgumentInstructionOp::ForceBreak => "BRK",
            NoArgumentInstructionOp::ReturnFromInterrupt => "RTI",
            NoArgumentInstructionOp::ReturnFromSubroutine => "RTS",
            NoArgumentInstructionOp::NoOperation => "NOP",
            NoArgumentInstructionOp::PushAccumulator => "PHA",
            NoArgumentInstructionOp::PushStatus => "PHP",
            NoArgumentInstructionOp::PullAccumulator => "PLA",
            NoArgumentInstructionOp::PullStatus => "PLP",
            NoArgumentInstructionOp::TransferAccumulatorToX => "TAX",
            NoArgumentInstructionOp::TransferAccumulatorToY => "TAY",
            NoArgumentInstructionOp::TransferXToAccumulator => "TXA",
            NoArgumentInstructionOp::TransferYToAccumulator => "TYA",
            NoArgumentInstructionOp::TransferStackPointerToX => "TSX",
            NoArgumentInstructionOp::TransferXToStackPointer => "TXS",
            NoArgumentInstructionOp::IncrementX => "INX",
            NoArgumentInstructionOp::IncrementY => "INY",
            NoArgumentInstructionOp::DecrementX => "DEX",
            NoArgumentInstructionOp::DecrementY => "DEY",
            NoArgumentInstructionOp::ClearCarry => "CLC",
            NoArgumentInstructionOp::SetCarry => "SEC",
            NoArgumentInstructionOp::ClearInterrupt => "CLI",
            NoArgumentInstructionOp::SetInterrupt => "SEI",
            NoArgumentInstructionOp::ClearOverflow => "CLV",
            NoArgumentInstructionOp::ClearDecimal => "CLD",
            NoArgumentInstructionOp::SetDecimal => "SED",
            NoArgumentInstructionOp::ShiftLeftAccumulator => "ASL",
            NoArgumentInstructionOp::ShiftRightAccumulator => "LSR",
            NoArgumentInstructionOp::RotateLeftAccumulator => "ROL",
            NoArgumentInstructionOp::RotateRightAccumulator => "ROR",
        }
    }

    /// The three-letter name of the operation.
    pub fn mnemonic(self) -> (name: &'static str)
        ensures
            name == self.mnemonic_of(),
    {
        match self {
            NoArgumentInstructionOp::ForceBreak => "BRK",
            NoArgumentInstructionOp::ReturnFromInterrupt => "RTI",
            NoArgumentInstructionOp::ReturnFromSubroutine => "RTS",
            NoArgumentInstructionOp::NoOperation => "NOP",
            NoArgumentInstructionOp::PushAccumulator => "PHA",
            NoArgumentInstructionOp::PushStatus => "PHP",
            NoArgumentInstructionOp::PullAccumulator => "PLA",
            NoArgumentInstructionOp::PullStatus => "PLP",
            NoArgumentInstructionOp::TransferAccumulatorToX => "TAX",
            NoArgumentInstructionOp::TransferAccumulatorToY => "TAY",
            NoArgumentInstructionOp::TransferXToAccumulator => "TXA",
            NoArgumentInstructionOp::TransferYToAccumulator => "TYA",
            NoArgumentInstructionOp::TransferStackPointerToX => "TSX",
            NoArgumentInstructionOp::TransferXToStackPointer => "TXS",
            NoArgumentInstructionOp::IncrementX => "INX",
            NoArgumentInstructionOp::IncrementY => "INY",
            NoArgumentInstructionOp::DecrementX => "DEX",
            NoArgumentInstructionOp::DecrementY => "DEY",
            NoArgumentInstructionOp::ClearCarry => "CLC",
            NoArgumentInstructionOp::SetCarry => "SEC",
            NoArgumentInstructionOp::ClearInterrupt => "CLI",
            NoArgumentInstructionOp::SetInterrupt => "SEI",
            NoArgumentInstructionOp::ClearOverflow => "CLV",
            NoArgumentInstructionOp::ClearDecimal => "CLD",
            NoArgumentInstructionOp::SetDecimal => "SED",
            NoArgumentInstructionOp::ShiftLeftAccumulator => "ASL",
            NoArgumentInstructionOp::ShiftRightAccumulator => "LSR",
            NoArgumentInstructionOp::RotateLeftAccumulator => "ROL",
            NoArgumentInstructionOp::RotateRightAccumulator => "ROR",
        }
    }
}

/// The operations that work on a resolved operand address.
#[derive(Clone, Copy, PartialEq, Eq, Debug, Structural)]
pub enum SingleArgumentInstructionOp {
    /// LDA: load the accumulator from memory.
    LoadAccumulator,
    /// LDX: load X from memory.
    LoadX,
    /// LDY: load Y from memory.
    LoadY,
    /// STA: store the accumulator to memory.
    StoreAccumulator,
    /// STX: store X to memory.
    StoreX,
    /// STY: store Y to memory.
    StoreY,
    /// ADC: add memory and Carry to the accumulator.
    AddWithCarry,
    /// SBC: subtract memory and the borrow from the accumulator.
    SubtractWithCarry,
    /// AND: bitwise and of accumulator and memory.
    And,
    /// ORA: bitwise or of accumulator and memory.
    Or,
    /// EOR: bitwise exclusive or of accumulator and memory.
    ExclusiveOr,
    /// BIT: test memory bits against the accumulator.
    BitTest,
    /// CMP: compare the accumulator with memory.
    Compare,
    /// CPX: compare X with memory.
    CompareX,
    /// CPY: compare Y with memory.
    CompareY,
    /// ASL: shift memory left by one bit.
    ShiftLeft,
    /// LSR: shift memory right by one bit.
    ShiftRight,
    /// ROL: rotate memory left through Carry.
    RotateLeft,
    /// ROR: rotate memory right through Carry.
    RotateRight,
    /// INC: add one to memory.
    Increment,
    /// DEC: subtract one from memory.
    Decrement,
    /// JMP: continue at the operand address.
    Jump,
    /// JSR: push the return address and continue at the operand address.
    JumpToSubroutine,
    /// BCC: branch if Carry is clear.
    BranchOnCarryClear,
    /// BCS: branch if Carry is set.
    BranchOnCarrySet,
    /// BEQ: branch if Zero is set.
    BranchOnEqual,
    /// BNE: branch if Zero is clear.
    BranchOnNotEqual,
    /// BMI: branch if Negative is set.
    BranchOnMinus,
    /// BPL: branch if Negative is clear.
    BranchOnPlus,
    /// BVC: branch if Overflow is clear.
    BranchOnOverflowClear,
    /// BVS: branch if Overflow is set.
    BranchOnOverflowSet,
}

impl SingleArgumentInstructionOp {
    /// The three-letter name of the operation.
    pub open spec fn mnemonic_of(self) -> &'static str {
        match self {
            SingleArgumentInstructionOp::LoadAccumulator => "LDA",
            SingleArgumentInstructionOp::LoadX => "LDX",
            SingleArgumentInstructionOp::LoadY => "LDY",
            SingleArgumentInstructionOp::StoreAccumulator => "STA",
            SingleArgumentInstructionOp::StoreX => "STX",
            SingleArgumentInstructionOp::StoreY => "STY",
            SingleArgumentInstructionOp::AddWithCarry => "ADC",
            SingleArgumentInstructionOp::SubtractWithCarry => "SBC",
            SingleArgumentInstructionOp::And => "AND",
            SingleArgumentInstructionOp::Or => "ORA",
            SingleArgumentInstructionOp::ExclusiveOr => "EOR",
            SingleArgumentInstructionOp::BitTest => "BIT",
            SingleArgumentInstructionOp::Compare => "CMP",
            SingleArgumentInstructionOp::CompareX => "CPX",
            SingleArgumentInstructionOp::CompareY => "CPY",
            SingleArgumentInstructionOp::ShiftLeft => "ASL",
            SingleArgumentInstructionOp::ShiftRight => "LSR",
            SingleArgumentInstructionOp::RotateLeft => "ROL",
            SingleArgumentInstructionOp::RotateRight => "ROR",
            SingleArgumentInstructionOp::Increment => "INC",
            SingleArgumentInstructionOp::Decrement => "DEC",
            SingleArgumentInstructionOp::Jump => "JMP",
            SingleArgumentInstructionOp::JumpToSubroutine => "JSR",
            SingleArgumentInstructionOp::BranchOnCarryClear => "BCC",
            SingleArgumentInstructionOp::BranchOnCarrySet => "BCS",
            SingleArgumentInstructionOp::BranchOnEqual => "BEQ",
            SingleArgumentInstructionOp::BranchOnNotEqual => "BNE",
            SingleArgumentInstructionOp::BranchOnMinus => "BMI",
            SingleArgumentInstructionOp::BranchOnPlus => "BPL",
            SingleArgumentInstructionOp::BranchOnOverflowClear => "BVC",
            SingleArgumentInstructionOp::BranchOnOverflowSet => "BVS",
        }
    }

    /// The three-letter name of the operation.
    pub fn mnemonic(self) -> (name: &'static str)
        ensures
            name == self.mnemonic_of(),
    {
        match self {
            SingleArgumentInstructionOp::LoadAccumulator => "LDA",
            SingleArgumentInstructionOp::LoadX => "LDX",
            SingleArgumentInstructionOp::LoadY => "LDY",
            SingleArgumentInstructionOp::StoreAccumulator => "STA",
            SingleArgumentInstructionOp::StoreX => "STX",
            SingleArgumentInstructionOp::StoreY => "STY",
            SingleArgumentInstructionOp::AddWithCarry => "ADC",
            SingleArgumentInstructionOp::SubtractWithCarry => "SBC",
            SingleArgumentInstructionOp::And => "AND",
            SingleArgumentInstructionOp::Or => "ORA",
            SingleArgumentInstructionOp::ExclusiveOr => "EOR",
            SingleArgumentInstructionOp::BitTest => "BIT",
            SingleArgumentInstructionOp::Compare => "CMP",
            SingleArgumentInstructionOp::CompareX => "CPX",
            SingleArgumentInstructionOp::CompareY => "CPY",
            SingleArgumentInstructionOp::ShiftLeft => "ASL",
            SingleArgumentInstructionOp::ShiftRight => "LSR",
            SingleArgumentInstructionOp::RotateLeft => "ROL",
            SingleArgumentInstructionOp::RotateRight => "ROR",
            SingleArgumentInstructionOp::Increment => "INC",
            SingleArgumentInstructionOp::Decrement => "DEC",
            SingleArgumentInstructionOp::Jump => "JMP",
            SingleArgumentInstructionOp::JumpToSubroutine => "JSR",
            SingleArgumentInstructionOp::BranchOnCarryClear => "BCC",
            SingleArgumentInstructionOp::BranchOnCarrySet => "BCS",
            SingleArgumentInstructionOp::BranchOnEqual => "BEQ",
            SingleArgumentInstructionOp::BranchOnNotEqual => "BNE",
            SingleArgumentInstructionOp::BranchOnMinus => "BMI",
            SingleArgumentInstructionOp::BranchOnPlus => "BPL",
            SingleArgumentInstructionOp::BranchOnOverflowClear => "BVC",
            SingleArgumentInstructionOp::BranchOnOverflowSet => "BVS",
        }
    }

    /// The operation only reads its operand. Such an instruction takes one
    /// more cycle when indexing carried the address into another page; one
    /// that writes always spends that cycle, within its base cost.
    pub open spec fn reads_operand_of(self) -> bool {
        match self {
            LoadAccumulator | LoadX | LoadY | AddWithCarry | SubtractWithCarry | And | Or
            | ExclusiveOr | BitTest | Compare | CompareX | CompareY => true,
            _ => false,
        }
    }

    /// Whether the operation only reads its operand.
    pub fn reads_operand(self) -> (reads: bool)
        ensures
            reads == self.reads_operand_of(),
    {
        match self {
            LoadAccumulator | LoadX | LoadY | AddWithCarry | SubtractWithCarry | And | Or
            | ExclusiveOr | BitTest | Compare | CompareX | CompareY => true,
            _ => false,
        }
    }

    /// For a branch, the flag it tests and the value at which it is taken.
    pub open spec fn branch_condition_of(self) -> Option<(Flag, bool)> {
        match self {
            BranchOnCarryClear => Some((Flag::Carry, false)),
            BranchOnCarrySet => Some((Flag::Carry, true)),
            BranchOnEqual => Some((Flag::Zero, true)),
            BranchOnNotEqual => Some((Flag::Zero, false)),
            BranchOnMinus => Some((Flag::Negative, true)),
            BranchOnPlus => Some((Flag::Negative, false)),
            BranchOnOverflowClear => Some((Flag::Overflow, false)),
            BranchOnOverflowSet => Some((Flag::Overflow, true)),
            _ => None,
        }
    }

    /// For a branch, the flag it tests and the value at which it is taken.
    pub fn branch_condition(self) -> (condition: Option<(Flag, bool)>)
        ensures
            condition == self.branch_condition_of(),
    {
        match self {
            BranchOnCarryClear => Some((Flag::Carry, false)),
            BranchOnCarrySet => Some((Flag::Carry, true)),
            BranchOnEqual => Some((Flag::Zero, true)),
            BranchOnNotEqual => Some((Flag::Zero, false)),
            BranchOnMinus => Some((Flag::Negative, true)),
            BranchOnPlus => Some((Flag::Negative, false)),
            BranchOnOverflowClear => Some((Flag::Overflow, false)),
            BranchOnOverflowSet => Some((Flag::Overflow, true)),
            _ => None,
        }
    }
}

/// One entry of the dispatch table.
#[allow(inconsistent_fields)]
#[derive(Clone, Copy, PartialEq, Eq, Debug)]
pub enum Instruction {
    /// No instruction is bound to the opcode.
    Invalid,
    /// An instruction without operand bytes.
    NoArgument {
        op_code: OpCode,
        mnemonic: &'static str,
        operation: NoArgumentInstructionOp,
        cycles: u8,
    },
    /// An instruction whose operand address comes from an addressing mode.
    SingleArgument {
        op_code: OpCode,
        mnemonic: &'static str,
        operation: SingleArgumentInstructionOp,
        addressing_mode: AddressingMode,
        cycles: u8,
    },
}

/// The entry that binds `op_code` to an operation without operand.
pub open spec fn no_argument(
    op_code: OpCode,
    operation: NoArgumentInstructionOp,
    cycles: u8,
) -> Instruction {
    Instruction::NoArgument { op_code, mnemonic: operation.mnemonic_of(), operation, cycles }
}

/// The entry that binds `op_code` to an operation and the addressing mode
/// that finds its operand.
pub open spec fn single_argument(
    op_code: OpCode,
    operation: SingleArgumentInstructionOp,
    addressing_mode: AddressingMode,
    cycles: u8,
) -> Instruction {
    Instruction::SingleArgument {
        op_code,
        mnemonic: operation.mnemonic_of(),
        operation,
        addressing_mode,
        cycles,
    }
}

/// The instruction set: what each of the 256 opcodes is bound to, with its
/// base cost in cycles. The 105 opcodes that the processor's documentation
/// leaves undefined are `Invalid`.
#[verifier::opaque]
pub open spec fn instruction_for(op_code: OpCode) -> Instruction {
    match op_code {
        0x00 => no_argument(op_code, ForceBreak, 7),
        0x01 => single_argument(op_code, Or, IndirectX, 6),
        0x05 => single_argument(op_code, Or, ZeroPage, 3),
        0x06 => single_argument(op_code, ShiftLeft, ZeroPage, 5),
        0x08 => no_argument(op_code, PushStatus, 3),
        0x09 => single_argument(op_code, Or, Immediate, 2),
        0x0A => no_argument(op_code, ShiftLeftAccumulator, 2),
        0x0D => single_argument(op_code, Or, Absolute, 4),
        0x0E => single_argument(op_code, ShiftLeft, Absolute, 6),
        0x10 => single_argument(op_code, BranchOnPlus, Relative, 2),
        0x11 => single_argument(op_code, Or, IndirectY, 5),
        0x15 => single_argument(op_code, Or, ZeroPageX, 4),
        0x16 => single_argument(op_code, ShiftLeft, ZeroPageX, 6),
        0x18 => no_argument(op_code, ClearCarry, 2),
        0x19 => single_argument(op_code, Or, AbsoluteY, 4),
        0x1D => single_argument(op_code, Or, AbsoluteX, 4),
        0x1E => single_argument(op_code, ShiftLeft, AbsoluteX, 7),
        0x20 => single_argument(op_code, JumpToSubroutine, Absolute, 6),
        0x21 => single_argument(op_code, And, IndirectX, 6),
        0x24 => single_argument(op_code, BitTest, ZeroPage, 3),
        0x25 => single_argument(op_code, And, ZeroPage, 3),
        0x26 => single_argument(op_code, RotateLeft, ZeroPage, 5),
        0x28 => no_argument(op_code, PullStatus, 4),
        0x29 => single_argument(op_code, And, Immediate, 2),
        0x2A => no_argument(op_code, RotateLeftAccumulator, 2),
        0x2C => single_argument(op_code, BitTest, Absolute, 4),
        0x2D => single_argument(op_code, And, Absolute, 4),
        0x2E => single_argument(op_code, RotateLeft, Absolute, 6),
        0x30 => single_argument(op_code, BranchOnMinus, Relative, 2),
        0x31 => single_argument(op_code, And, IndirectY, 5),
        0x35 => single_argument(op_code, And, ZeroPageX, 4),
        0x36 => single_argument(op_code, RotateLeft, ZeroPageX, 6),
        0x38 => no_argument(op_code, SetCarry, 2),
        0x39 => single_argument(op_code, And, AbsoluteY, 4),
        0x3D => single_argument(op_code, And, AbsoluteX, 4),
        0x3E => single_argument(op_code, RotateLeft, AbsoluteX, 7),
        0x40 => no_argument(op_code, ReturnFromInterrupt, 6),
        0x41 => single_argument(op_code, ExclusiveOr, IndirectX, 6),
        0x45 => single_argument(op_code, ExclusiveOr, ZeroPage, 3),
        0x46 => single_argument(op_code, ShiftRight, ZeroPage, 5),
        0x48 => no_argument(op_code, PushAccumulator, 3),
        0x49 => single_argument(op_code, ExclusiveOr, Immediate, 2),
        0x4A => no_argument(op_code, ShiftRightAccumulator, 2),
        0x4C => single_argument(op_code, Jump, Absolute, 3),
        0x4D => single_argument(op_code, ExclusiveOr, Absolute, 4),
        0x4E => single_argument(op_code, ShiftRight, Absolute, 6),
        0x50 => single_argument(op_code, BranchOnOverflowClear, Relative, 2),
        0x51 => single_argument(op_code, ExclusiveOr, IndirectY, 5),
        0x55 => single_argument(op_code, ExclusiveOr, ZeroPageX, 4),
        0x56 => single_argument(op_code, ShiftRight, ZeroPageX, 6),
        0x58 => no_argument(op_code, ClearInterrupt, 2),
        0x59 => single_argument(op_code, ExclusiveOr, AbsoluteY, 4),
        0x5D => single_argument(op_code, ExclusiveOr, AbsoluteX, 4),
        0x5E => single_argument(op_code, ShiftRight, AbsoluteX, 7),
        0x60 => no_argument(op_code, ReturnFromSubroutine, 6),
        0x61 => single_argument(op_code, AddWithCarry, IndirectX, 6),
        0x65 => single_argument(op_code, AddWithCarry, ZeroPage, 3),
        0x66 => single_argument(op_code, RotateRight, ZeroPage, 5),
        0x68 => no_argument(op_code, PullAccumulator, 4),
        0x69 => single_argument(op_code, AddWithCarry, Immediate, 2),
        0x6A => no_argument(op_code, RotateRightAccumulator, 2),
        0x6C => single_argument(op_code, Jump, Indirect, 5),
        0x6D => single_argument(op_code, AddWithCarry, Absolute, 4),
        0x6E => single_argument(op_code, RotateRight, Absolute, 6),
        0x70 => single_argument(op_code, BranchOnOverflowSet, Relative, 2),
        0x71 => single_argument(op_code, AddWithCarry, IndirectY, 5),
        0x75 => single_argument(op_code, AddWithCarry, ZeroPageX, 4),
        0x76 => single_argument(op_code, RotateRight, ZeroPageX, 6),
        0x78 => no_argument(op_code, SetInterrupt, 2),
        0x79 => single_argument(op_code, AddWithCarry, AbsoluteY, 4),
        0x7D => single_argument(op_code, AddWithCarry, AbsoluteX, 4),
        0x7E => single_argument(op_code, RotateRight, AbsoluteX, 7),
        0x81 => single_argument(op_code, StoreAccumulator, IndirectX, 6),
        0x84 => single_argument(op_code, StoreY, ZeroPage, 3),
        0x85 => single_argument(op_code, StoreAccumulator, ZeroPage, 3),
        0x86 => single_argument(op_code, StoreX, ZeroPage, 3),
        0x88 => no_argument(op_code, DecrementY, 2),
        0x8A => no_argument(op_code, TransferXToAccumulator, 2),
        0x8C => single_argument(op_code, StoreY, Absolute, 4),
        0x8D => single_argument(op_code, StoreAccumulator, Absolute, 4),
        0x8E => single_argument(op_code, StoreX, Absolute, 4),
        0x90 => single_argument(op_code, BranchOnCarryClear, Relative, 2),
        0x91 => single_argument(op_code, StoreAccumulator, IndirectY, 6),
        0x94 => single_argument(op_code, StoreY, ZeroPageX, 4),
        0x95 => single_argument(op_code, StoreAccumulator, ZeroPageX, 4),
        0x96 => single_argument(op_code, StoreX, ZeroPageY, 4),
        0x98 => no_argument(op_code, TransferYToAccumulator, 2),
        0x99 => single_argument(op_code, StoreAccumulator, AbsoluteY, 5),
        0x9A => no_argument(op_code, TransferXToStackPointer, 2),
        0x9D => single_argument(op_code, StoreAccumulator, AbsoluteX, 5),
        0xA0 => single_argument(op_code, LoadY, Immediate, 2),
        0xA1 => single_argument(op_code, LoadAccumulator, IndirectX, 6),
        0xA2 => single_argument(op_code, LoadX, Immediate, 2),
        0xA4 => single_argument(op_code, LoadY, ZeroPage, 3),
        0xA5 => single_argument(op_code, LoadAccumulator, ZeroPage, 3),
        0xA6 => single_argument(op_code, LoadX, ZeroPage, 3),
        0xA8 => no_argument(op_code, TransferAccumulatorToY, 2),
        0xA9 => single_argument(op_code, LoadAccumulator, Immediate, 2),
        0xAA => no_argument(op_code, TransferAccumulatorToX, 2),
        0xAC => single_argument(op_code, LoadY, Absolute, 4),
        0xAD => single_argument(op_code, LoadAccumulator, Absolute, 4),
        0xAE => single_argument(op_code, LoadX, Absolute, 4),
        0xB0 => single_argument(op_code, BranchOnCarrySet, Relative, 2),
        0xB1 => single_argument(op_code, LoadAccumulator, IndirectY, 5),
        0xB4 => single_argument(op_code, LoadY, ZeroPageX, 4),
        0xB5 => single_argument(op_code, LoadAccumulator, ZeroPageX, 4),
        0xB6 => single_argument(op_code, LoadX, ZeroPageY, 4),
        0xB8 => no_argument(op_code, ClearOverflow, 2),
        0xB9 => single_argument(op_code, LoadAccumulator, AbsoluteY, 4),
        0xBA => no_argument(op_code, TransferStackPointerToX, 2),
        0xBC => single_argument(op_code, LoadY, AbsoluteX, 4),
        0xBD => single_argument(op_code, LoadAccumulator, AbsoluteX, 4),
        0xBE => single_argument(op_code, LoadX, AbsoluteY, 4),
        0xC0 => single_argument(op_code, CompareY, Immediate, 2),
        0xC1 => single_argument(op_code, Compare, IndirectX, 6),
        0xC4 => single_argument(op_code, CompareY, ZeroPage, 3),
        0xC5 => single_argument(op_code, Compare, ZeroPage, 3),
        0xC6 => single_argument(op_code, Decrement, ZeroPage, 5),
        0xC8 => no_argument(op_code, IncrementY, 2),
        0xC9 => single_argument(op_code, Compare, Immediate, 2),
        0xCA => no_argument(op_code, DecrementX, 2),
        0xCC => single_argument(op_code, CompareY, Absolute, 4),
        0xCD => single_argument(op_code, Compare, Absolute, 4),
        0xCE => single_argument(op_code, Decrement, Absolute, 6),
        0xD0 => single_argument(op_code, BranchOnNotEqual, Relative, 2),
        0xD1 => single_argument(op_code, Compare, IndirectY, 5),
        0xD5 => single_argument(op_code, Compare, ZeroPageX, 4),
        0xD6 => single_argument(op_code, Decrement, ZeroPageX, 6),
        0xD8 => no_argument(op_code, ClearDecimal, 2),
        0xD9 => single_argument(op_code, Compare, AbsoluteY, 4),
        0xDD => single_argument(op_code, Compare, AbsoluteX, 4),
        0xDE => single_argument(op_code, Decrement, AbsoluteX, 7),
        0xE0 => single_argument(op_code, CompareX, Immediate, 2),
        0xE1 => single_argument(op_code, SubtractWithCarry, IndirectX, 6),
        0xE4 => single_argument(op_code, CompareX, ZeroPage, 3),
        0xE5 => single_argument(op_code, SubtractWithCarry, ZeroPage, 3),
        0xE6 => single_argument(op_code, Increment, ZeroPage, 5),
        0xE8 => no_argument(op_code, IncrementX, 2),
        0xE9 => single_argument(op_code, SubtractWithCarry, Immediate, 2),
        0xEA => no_argument(op_code, NoOperation, 2),
        0xEC => single_argument(op_code, CompareX, Absolute, 4),
        0xED => single_argument(op_code, SubtractWithCarry, Absolute, 4),
        0xEE => single_argument(op_code, Increment, Absolute, 6),
        0xF0 => single_argument(op_code, BranchOnEqual, Relative, 2),
        0xF1 => single_argument(op_code, SubtractWithCarry, IndirectY, 5),
        0xF5 => single_argument(op_code, SubtractWithCarry, ZeroPageX, 4),
        0xF6 => single_argument(op_code, Increment, ZeroPageX, 6),
        0xF8 => no_argument(op_code, SetDecimal, 2),
        0xF9 => single_argument(op_code, SubtractWithCarry, AbsoluteY, 4),
        0xFD => single_argument(op_code, SubtractWithCarry, AbsoluteX, 4),
        0xFE => single_argument(op_code, Increment, AbsoluteX, 7),
        _ => Instruction::Invalid,
    }
}

/// The dispatch table as a sequence indexed by opcode.
pub open spec fn instruction_table() -> Seq<Instruction> {
    Seq::new(256, |op_code: int| instruction_for(op_code as OpCode))
}

/// The 256-entry dispatch table. It is built once and read-only from there
/// on: every lookup yields what the instruction set binds to the opcode.
pub struct InstructionMap {
    entries: [Instruction; 256],
}

impl View for InstructionMap {
    type V = Seq<Instruction>;

    closed spec fn view(&self) -> Seq<Instruction> {
        self.entries@
    }
}

impl InstructionMap {
    #[verifier::type_invariant]
    spec fn holds_instruction_set(self) -> bool {
        self.entries@ == instruction_table()
    }

    /// The entry for `op_code`.
    pub fn get(&self, op_code: OpCode) -> (instruction: Instruction)
        ensures
            instruction == instruction_for(op_code),
    {
        proof {
            use_type_invariant(self);
        }
        self.entries[op_code as usize]
    }
}

/// While the table is built: the entries up to and with `last` hold the
/// instruction set, and the entries above it are still invalid.
spec fn bound_through(entries: Seq<Instruction>, last: int) -> bool {
    &&& entries.len() == 256
    &&& forall|i: int|
        0 <= i < 256 ==> #[trigger] entries[i] == if i <= last {
            instruction_for(i as OpCode)
        } else {
            Instruction::Invalid
        }
}

/// The opcode that a populated entry carries.
pub open spec fn op_code_of(instruction: Instruction) -> OpCode {
    match instruction {
        Instruction::Invalid => 0,
        Instruction::NoArgument { op_code, .. } => op_code,
        Instruction::SingleArgument { op_code, .. } => op_code,
    }
}

/// Binds an instruction to its own opcode. The table is filled in opcode
/// order: the opcodes between the last bound one and this one are those
/// that the instruction set leaves undefined.
fn register_instruction(entries: &mut [Instruction; 256], instruction: Instruction)
    requires
        instruction !is Invalid,
        instruction == instruction_for(op_code_of(instruction)),
        bound_through(old(entries)@, op_code_of(instruction) - 1),
    ensures
        bound_through(final(entries)@, op_code_of(instruction) as int),
{
    match instruction {
        Instruction::Invalid => {},
        Instruction::NoArgument { op_code, .. } => {
            entries[op_code as usize] = instruction;
        },
        Instruction::SingleArgument { op_code, .. } => {
            entries[op_code as usize] = instruction;
        },
    }
}

/// Binds an operation without operand to `op_code`.
fn register_no_argument(
    entries: &mut [Instruction; 256],
    op_code: OpCode,
    operation: NoArgumentInstructionOp,
    cycles: u8,
)
    requires
        no_argument(op_code, operation, cycles) == instruction_for(op_code),
        bound_through(old(entries)@, op_code - 1),
    ensures
        bound_through(final(entries)@, op_code as int),
{
    register_instruction(
        entries,
        Instruction::NoArgument { op_code, mnemonic: operation.mnemonic(), operation, cycles },
    );
}

/// Binds an operation and the addressing mode of its operand to `op_code`.
fn register_single_argument(
    entries: &mut [Instruction; 256],
    op_code: OpCode,
    operation: SingleArgumentInstructionOp,
    addressing_mode: AddressingMode,
    cycles: u8,
)
    requires
        single_argument(op_code, operation, addressing_mode, cycles) == instruction_for(op_code),
        bound_through(old(entries)@, op_code - 1),
    ensures
        bound_through(final(entries)@, op_code as int),
{
    register_instruction(
        entries,
        Instruction::SingleArgument {
            op_code,
            mnemonic: operation.mnemonic(),
            operation,
            addressing_mode,
            cycles,
        },
    );
}

/// Binds the opcodes from 0x00 to 0x1F.
fn bind_block_00(entries: &mut [Instruction; 256])
    requires
        bound_through(old(entries)@, 0x00 - 1),
    ensures
        bound_through(final(entries)@, 0x1F),
{
    proof {
        reveal(instruction_for);
    }
    register_no_argument(entries, 0x00, ForceBreak, 7);
    register_single_argument(entries, 0x01, Or, IndirectX, 6);
    register_single_argument(entries, 0x05, Or, ZeroPage, 3);
    register_single_argument(entries, 0x06, ShiftLeft, ZeroPage, 5);
    register_no_argument(entries, 0x08, PushStatus, 3);
    register_single_argument(entries, 0x09, Or, Immediate, 2);
    register_no_argument(entries, 0x0A, ShiftLeftAccumulator, 2);
    register_single_argument(entries, 0x0D, Or, Absolute, 4);
    register_single_argument(entries, 0x0E, ShiftLeft, Absolute, 6);
    register_single_argument(entries, 0x10, BranchOnPlus, Relative, 2);
    register_single_argument(entries, 0x11, Or, IndirectY, 5);
    register_single_argument(entries, 0x15, Or, ZeroPageX, 4);
    register_single_argument(entries, 0x16, ShiftLeft, ZeroPageX, 6);
    register_no_argument(entries, 0x18, ClearCarry, 2);
    register_single_argument(entries, 0x19, Or, AbsoluteY, 4);
    register_single_argument(entries, 0x1D, Or, AbsoluteX, 4);
    register_single_argument(entries, 0x1E, ShiftLeft, AbsoluteX, 7);
}

/// Binds the opcodes from 0x20 to 0x3F.
fn bind_block_20(entries: &mut [Instruction; 256])
    requires
        bound_through(old(entries)@, 0x20 - 1),
    ensures
        bound_through(final(entries)@, 0x3F),
{
    proof {
        reveal(instruction_for);
    }
    register_single_argument(entries, 0x20, JumpToSubroutine, Absolute, 6);
    register_single_argument(entries, 0x21, And, IndirectX, 6);
    register_single_argument(entries, 0x24, BitTest, ZeroPage, 3);
    register_single_argument(entries, 0x25, And, ZeroPage, 3);
    register_single_argument(entries, 0x26, RotateLeft, ZeroPage, 5);
    register_no_argument(entries, 0x28, PullStatus, 4);
    register_single_argument(entries, 0x29, And, Immediate, 2);
    register_no_argument(entries, 0x2A, RotateLeftAccumulator, 2);
    register_single_argument(entries, 0x2C, BitTest, Absolute, 4);
    register_single_argument(entries, 0x2D, And, Absolute, 4);
    register_single_argument(entries, 0x2E, RotateLeft, Absolute, 6);
    register_single_argument(entries, 0x30, BranchOnMinus, Relative, 2);
    register_single_argument(entries, 0x31, And, IndirectY, 5);
    register_single_argument(entries, 0x35, And, ZeroPageX, 4);
    register_single_argument(entries, 0x36, RotateLeft, ZeroPageX, 6);
    register_no_argument(entries, 0x38, SetCarry, 2);
    register_single_argument(entries, 0x39, And, AbsoluteY, 4);
    register_single_argument(entries, 0x3D, And, AbsoluteX, 4);
    register_single_argument(entries, 0x3E, RotateLeft, AbsoluteX, 7);
}

/// Binds the opcodes from 0x40 to 0x5F.
fn bind_block_40(entries: &mut [Instruction; 256])
    requires
        bound_through(old(entries)@, 0x40 - 1),
    ensures
        bound_through(final(entries)@, 0x5F),
{
    proof {
        reveal(instruction_for);
    }
    register_no_argument(entries, 0x40, ReturnFromInterrupt, 6);
    register_single_argument(entries, 0x41, ExclusiveOr, IndirectX, 6);
    register_single_argument(entries, 0x45, ExclusiveOr, ZeroPage, 3);
    register_single_argument(entries, 0x46, ShiftRight, ZeroPage, 5);
    register_no_argument(entries, 0x48, PushAccumulator, 3);
    register_single_argument(entries, 0x49, ExclusiveOr, Immediate, 2);
    register_no_argument(entries, 0x4A, ShiftRightAccumulator, 2);
    register_single_argument(entries, 0x4C, Jump, Absolute, 3);
    register_single_argument(entries, 0x4D, ExclusiveOr, Absolute, 4);
    register_single_argument(entries, 0x4E, ShiftRight, Absolute, 6);
    register_single_argument(entries, 0x50, BranchOnOverflowClear, Relative, 2);
    register_single_argument(entries, 0x51, ExclusiveOr, IndirectY, 5);
    register_single_argument(entries, 0x55, ExclusiveOr, ZeroPageX, 4);
    register_single_argument(entries, 0x56, ShiftRight, ZeroPageX, 6);
    register_no_argument(entries, 0x58, ClearInterrupt, 2);
    register_single_argument(entries, 0x59, ExclusiveOr, AbsoluteY, 4);
    register_single_argument(entries, 0x5D, ExclusiveOr, AbsoluteX, 4);
    register_single_argument(entries, 0x5E, ShiftRight, AbsoluteX, 7);
}

/// Binds the opcodes from 0x60 to 0x7F.
fn bind_block_60(entries: &mut [Instruction; 256])
    requires
        bound_through(old(entries)@, 0x60 - 1),
    ensures
        bound_through(final(entries)@, 0x7F),
{
    proof {
        reveal(instruction_for);
    }
    register_no_argument(entries, 0x60, ReturnFromSubroutine, 6);
    register_single_argument(entries, 0x61, AddWithCarry, IndirectX, 6);
    register_single_argument(entries, 0x65, AddWithCarry, ZeroPage, 3);
    register_single_argument(entries, 0x66, RotateRight, ZeroPage, 5);
    register_no_argument(entries, 0x68, PullAccumulator, 4);
    register_single_argument(entries, 0x69, AddWithCarry, Immediate, 2);
    register_no_argument(entries, 0x6A, RotateRightAccumulator, 2);
    register_single_argument(entries, 0x6C, Jump, Indirect, 5);
    register_single_argument(entries, 0x6D, AddWithCarry, Absolute, 4);
    register_single_argument(entries, 0x6E, RotateRight, Absolute, 6);
    register_single_argument(entries, 0x70, BranchOnOverflowSet, Relative, 2);
    register_single_argument(entries, 0x71, AddWithCarry, IndirectY, 5);
    register_single_argument(entries, 0x75, AddWithCarry, ZeroPageX, 4);
    register_single_argument(entries, 0x76, RotateRight, ZeroPageX, 6);
    register_no_argument(entries, 0x78, SetInterrupt, 2);
    register_single_argument(entries, 0x79, AddWithCarry, AbsoluteY, 4);
    register_single_argument(entries, 0x7D, AddWithCarry, AbsoluteX, 4);
    register_single_argument(entries, 0x7E, RotateRight, AbsoluteX, 7);
}

/// Binds the opcodes from 0x80 to 0x9F.
fn bind_block_80(entries: &mut [Instruction; 256])
    requires
        bound_through(old(entries)@, 0x80 - 1),
    ensures
        bound_through(final(entries)@, 0x9F),
{
    proof {
        reveal(instruction_for);
    }
    register_single_argument(entries, 0x81, StoreAccumulator, IndirectX, 6);
    register_single_argument(entries, 0x84, StoreY, ZeroPage, 3);
    register_single_argument(entries, 0x85, StoreAccumulator, ZeroPage, 3);
    register_single_argument(entries, 0x86, StoreX, ZeroPage, 3);
    register_no_argument(entries, 0x88, DecrementY, 2);
    register_no_argument(entries, 0x8A, TransferXToAccumulator, 2);
    register_single_argument(entries, 0x8C, StoreY, Absolute, 4);
    register_single_argument(entries, 0x8D, StoreAccumulator, Absolute, 4);
    register_single_argument(entries, 0x8E, StoreX, Absolute, 4);
    register_single_argument(entries, 0x90, BranchOnCarryClear, Relative, 2);
    register_single_argument(entries, 0x91, StoreAccumulator, IndirectY, 6);
    register_single_argument(entries, 0x94, StoreY, ZeroPageX, 4);
    register_single_argument(entries, 0x95, StoreAccumulator, ZeroPageX, 4);
    register_single_argument(entries, 0x96, StoreX, ZeroPageY, 4);
    register_no_argument(entries, 0x98, TransferYToAccumulator, 2);
    register_single_argument(entries, 0x99, StoreAccumulator, AbsoluteY, 5);
    register_no_argument(entries, 0x9A, TransferXToStackPointer, 2);
    register_single_argument(entries, 0x9D, StoreAccumulator, AbsoluteX, 5);
}

/// Binds the opcodes from 0xA0 to 0xBF.
fn bind_block_a0(entries: &mut [Instruction; 256])
    requires
        bound_through(old(entries)@, 0xA0 - 1),
    ensures
        bound_through(final(entries)@, 0xBF),
{
    proof {
        reveal(instruction_for);
    }
    register_single_argument(entries, 0xA0, LoadY, Immediate, 2);
    register_single_argument(entries, 0xA1, LoadAccumulator, IndirectX, 6);
    register_single_argument(entries, 0xA2, LoadX, Immediate, 2);
    register_single_argument(entries, 0xA4, LoadY, ZeroPage, 3);
    register_single_argument(entries, 0xA5, LoadAccumulator, ZeroPage, 3);
    register_single_argument(entries, 0xA6, LoadX, ZeroPage, 3);
    register_no_argument(entries, 0xA8, TransferAccumulatorToY, 2);
    register_single_argument(entries, 0xA9, LoadAccumulator, Immediate, 2);
    register_no_argument(entries, 0xAA, TransferAccumulatorToX, 2);
    register_single_argument(entries, 0xAC, LoadY, Absolute, 4);
    register_single_argument(entries, 0xAD, LoadAccumulator, Absolute, 4);
    register_single_argument(entries, 0xAE, LoadX, Absolute, 4);
    register_single_argument(entries, 0xB0, BranchOnCarrySet, Relative, 2);
    register_single_argument(entries, 0xB1, LoadAccumulator, IndirectY, 5);
    register_single_argument(entries, 0xB4, LoadY, ZeroPageX, 4);
    register_single_argument(entries, 0xB5, LoadAccumulator, ZeroPageX, 4);
    register_single_argument(entries, 0xB6, LoadX, ZeroPageY, 4);
    register_no_argument(entries, 0xB8, ClearOverflow, 2);
    register_single_argument(entries, 0xB9, LoadAccumulator, AbsoluteY, 4);
    register_no_argument(entries, 0xBA, TransferStackPointerToX, 2);
    register_single_argument(entries, 0xBC, LoadY, AbsoluteX, 4);
    register_single_argument(entries, 0xBD, LoadAccumulator, AbsoluteX, 4);
    register_single_argument(entries, 0xBE, LoadX, AbsoluteY, 4);
}

/// Binds the opcodes from 0xC0 to 0xDF.
fn bind_block_c0(entries: &mut [Instruction; 256])
    requires
        bound_through(old(entries)@, 0xC0 - 1),
    ensures
        bound_through(final(entries)@, 0xDF),
{
    proof {
        reveal(instruction_for);
    }
    register_single_argument(entries, 0xC0, CompareY, Immediate, 2);
    register_single_argument(entries, 0xC1, Compare, IndirectX, 6);
    register_single_argument(entries, 0xC4, CompareY, ZeroPage, 3);
    register_single_argument(entries, 0xC5, Compare, ZeroPage, 3);
    register_single_argument(entries, 0xC6, Decrement, ZeroPage, 5);
    register_no_argument(entries, 0xC8, IncrementY, 2);
    register_single_argument(entries, 0xC9, Compare, Immediate, 2);
    register_no_argument(entries, 0xCA, DecrementX, 2);
    register_single_argument(entries, 0xCC, CompareY, Absolute, 4);
    register_single_argument(entries, 0xCD, Compare, Absolute, 4);
    register_single_argument(entries, 0xCE, Decrement, Absolute, 6);
    register_single_argument(entries, 0xD0, BranchOnNotEqual, Relative, 2);
    register_single_argument(entries, 0xD1, Compare, IndirectY, 5);
    register_single_argument(entries, 0xD5, Compare, ZeroPageX, 4);
    register_single_argument(entries, 0xD6, Decrement, ZeroPageX, 6);
    register_no_argument(entries, 0xD8, ClearDecimal, 2);
    register_single_argument(entries, 0xD9, Compare, AbsoluteY, 4);
    register_single_argument(entries, 0xDD, Compare, AbsoluteX, 4);
    register_single_argument(entries, 0xDE, Decrement, AbsoluteX, 7);
}

/// Binds the opcodes from 0xE0 to 0xFF.
fn bind_block_e0(entries: &mut [Instruction; 256])
    requires
        bound_through(old(entries)@, 0xE0 - 1),
    ensures
        bound_through(final(entries)@, 0xFF),
{
    proof {
        reveal(instruction_for);
    }
    register_single_argument(entries, 0xE0, CompareX, Immediate, 2);
    register_single_argument(entries, 0xE1, SubtractWithCarry, IndirectX, 6);
    register_single_argument(entries, 0xE4, CompareX, ZeroPage, 3);
    register_single_argument(entries, 0xE5, SubtractWithCarry, ZeroPage, 3);
    register_single_argument(entries, 0xE6, Increment, ZeroPage, 5);
    register_no_argument(entries, 0xE8, IncrementX, 2);
    register_single_argument(entries, 0xE9, SubtractWithCarry, Immediate, 2);
    register_no_argument(entries, 0xEA, NoOperation, 2);
    register_single_argument(entries, 0xEC, CompareX, Absolute, 4);
    register_single_argument(entries, 0xED, SubtractWithCarry, Absolute, 4);
    register_single_argument(entries, 0xEE, Increment, Absolute, 6);
    register_single_argument(entries, 0xF0, BranchOnEqual, Relative, 2);
    register_single_argument(entries, 0xF1, SubtractWithCarry, IndirectY, 5);
    register_single_argument(entries, 0xF5, SubtractWithCarry, ZeroPageX, 4);
    register_single_argument(entries, 0xF6, Increment, ZeroPageX, 6);
    register_no_argument(entries, 0xF8, SetDecimal, 2);
    register_single_argument(entries, 0xF9, SubtractWithCarry, AbsoluteY, 4);
    register_single_argument(entries, 0xFD, SubtractWithCarry, AbsoluteX, 4);
    register_single_argument(entries, 0xFE, Increment, AbsoluteX, 7);
}

/// Builds the dispatch table: all entries start out invalid, and the
/// implemented instructions are bound one by one.
pub fn create_instruction_map() -> (map: InstructionMap)
    ensures
        map@ == instruction_table(),
{
    proof {
        reveal(instruction_for);
    }
    let mut entries = [Instruction::Invalid; 256];
    bind_block_00(&mut entries);
    bind_block_20(&mut entries);
    bind_block_40(&mut entries);
    bind_block_60(&mut entries);
    bind_block_80(&mut entries);
    bind_block_a0(&mut entries);
    bind_block_c0(&mut entries);
    bind_block_e0(&mut entries);
    assert(entries@ =~= instruction_table());
    InstructionMap { entries }
}

} // verus!
