//! What holds of the machine as a whole: statements that relate several
//! operations, or that hold of every state.

use vstd::prelude::*;
use super::addressing::effective_address;
use super::addressing::indexed_base;
use super::addressing::page_crossed;
use super::addressing::resolves;
use super::bits::high_of;
use super::bits::low_of;
use super::bits::signed_of;
use super::bits::wrap16;
use super::flags::lemma_flags_of_status_of;
use super::flags::status_of;
use super::flags::Flag;
use super::flags::Flags;
use super::instructions::instruction_for;
use super::instructions::AddressingMode;
use super::instructions::Instruction;
use super::instructions::NoArgumentInstructionOp;
use super::instructions::SingleArgumentInstructionOp;
use super::interrupt::Interrupt;
use super::state::CpuState;
use super::types::Address;
use super::types::AddressLookupResult;
use super::types::DecodeFault;
use super::types::OpCode;

verus! {

/// The index register that an indexed addressing mode adds.
pub open spec fn index_of(s: CpuState, mode: AddressingMode) -> u8 {
    match mode {
        AddressingMode::ZeroPageX | AddressingMode::AbsoluteX | AddressingMode::IndirectX => s.x,
        AddressingMode::ZeroPageY | AddressingMode::AbsoluteY | AddressingMode::IndirectY => s.y,
        _ => 0,
    }
}

/// The operation loads a register from memory.
pub open spec fn is_load(operation: SingleArgumentInstructionOp) -> bool {
    operation is LoadAccumulator || operation is LoadX || operation is LoadY
}

/// The register that a load fills.
pub open spec fn loaded_register(s: CpuState, operation: SingleArgumentInstructionOp) -> u8 {
    match operation {
        SingleArgumentInstructionOp::LoadAccumulator => s.a,
        SingleArgumentInstructionOp::LoadX => s.x,
        _ => s.y,
    }
}

/// Resolving an operand address moves the program counter by the operand
/// width of the addressing mode, so that after the opcode and its operand
/// it has moved by the width plus one. Neither the operand bytes nor the
/// registers decide how far it moves: two machines that fetch from the same
/// address with the same mode end at the same address.
pub proof fn lemma_resolution_advances_program_counter(
    s: CpuState,
    t: CpuState,
    mode: AddressingMode,
    s_result: AddressLookupResult,
    s_after: CpuState,
    t_result: AddressLookupResult,
    t_after: CpuState,
)
    requires
        s.pc == t.pc,
        resolves(s.advance(1), mode, s_result, s_after),
        resolves(t.advance(1), mode, t_result, t_after),
    ensures
        s_after.pc == wrap16(s.pc + 1 + mode.operand_width_of()),
        t_after.pc == s_after.pc,
{
}

/// The operation continues at an address of its own choice: it is a jump,
/// a call or a branch.
pub open spec fn transfers_control(operation: SingleArgumentInstructionOp) -> bool {
    operation is Jump || operation is JumpToSubroutine
        || operation.branch_condition_of() is Some
}

/// An operation that is no jump, call or branch leaves the program counter
/// where resolution left it.
pub proof fn lemma_operation_keeps_program_counter(
    s: CpuState,
    operation: SingleArgumentInstructionOp,
    address: Address,
)
    requires
        !transfers_control(operation),
    ensures
        s.execute_single_argument(operation, address).pc == s.pc,
{
    reveal(CpuState::execute_single_argument);
}

/// An instruction with an operand that is no jump, call or branch leaves
/// the program counter behind its last operand byte: it has moved by the
/// operand width plus one.
pub proof fn lemma_step_advances_past_operand(s: CpuState)
    requires
        s.halted is None,
        instruction_for(s.opcode()) is SingleArgument,
        !transfers_control(instruction_for(s.opcode())->SingleArgument_operation),
    ensures
        s.step().pc == wrap16(
            s.pc + 1 + instruction_for(
                s.opcode(),
            )->SingleArgument_addressing_mode.operand_width_of(),
        ),
{
    reveal(CpuState::step);
    let operation = instruction_for(s.opcode())->SingleArgument_operation;
    let mode = instruction_for(s.opcode())->SingleArgument_addressing_mode;
    let resolved = s.advance(1).advance(mode.operand_width_of() as int);
    lemma_operation_keeps_program_counter(
        resolved,
        operation,
        effective_address(s.advance(1), mode),
    );
}

/// The operation without operand continues at an address of its own
/// choice: it is a break or a return.
pub open spec fn transfers_control_without_argument(operation: NoArgumentInstructionOp) -> bool {
    operation is ForceBreak || operation is ReturnFromInterrupt
        || operation is ReturnFromSubroutine
}

/// An operation without operand that is no break or return leaves the
/// program counter as it is.
pub proof fn lemma_operation_without_argument_keeps_program_counter(
    s: CpuState,
    operation: NoArgumentInstructionOp,
)
    requires
        !transfers_control_without_argument(operation),
    ensures
        s.execute_no_argument(operation).pc == s.pc,
{
    reveal(CpuState::execute_no_argument);
}

/// An instruction without operand that is no break or return leaves the
/// program counter behind its opcode: its operand width is zero, and the
/// program counter has moved by one.
pub proof fn lemma_step_advances_past_opcode(s: CpuState)
    requires
        s.halted is None,
        instruction_for(s.opcode()) is NoArgument,
        !transfers_control_without_argument(instruction_for(s.opcode())->NoArgument_operation),
    ensures
        s.step().pc == wrap16(s.pc + 1),
{
    reveal(CpuState::step);
    lemma_operation_without_argument_keeps_program_counter(
        s.advance(1),
        instruction_for(s.opcode())->NoArgument_operation,
    );
}

/// Indexing in the zero page wraps within the zero page: the effective
/// address is the sum of operand and index register modulo 256, and so
/// never leaves the first 256 bytes.
pub proof fn lemma_zero_page_indexing_wraps(s: CpuState, mode: AddressingMode)
    requires
        mode is ZeroPageX || mode is ZeroPageY,
    ensures
        effective_address(s, mode) == (s.read(s.pc) + index_of(s, mode)) % 256,
        effective_address(s, mode) < 0x100,
        !page_crossed(s, mode),
{
}

/// Indirect addressing does not carry into the high byte of its pointer.
/// The low byte of the target is read at the pointer. When the low byte of
/// the pointer is 0xFF, the high byte of the target is read at the start
/// of the pointer's own page, which is `pointer & 0xFF00`, and not at
/// `pointer + 1`. Otherwise it is read at `pointer + 1`.
pub proof fn lemma_indirect_wraps_within_page(s: CpuState)
    ensures
        ({
            let pointer = s.read_word(s.pc);
            let target = effective_address(s, AddressingMode::Indirect);
            &&& low_of(target) == s.read(pointer)
            &&& low_of(pointer) == 0xFF ==> high_of(target) == s.read(pointer & 0xFF00)
            &&& low_of(pointer) != 0xFF ==> high_of(target) == s.read((pointer + 1) as Address)
            &&& !page_crossed(s, AddressingMode::Indirect)
        }),
{
    let pointer = s.read_word(s.pc);
    assert(pointer & 0xFF00 == pointer - pointer % 256) by (bit_vector);
}

/// The indexed modes with a 16-bit base signal a page crossing if and only
/// if adding the index changes the high byte of the address, which is the
/// case exactly when the low byte of the base and the index add up to more
/// than 255. No other mode signals one.
pub proof fn lemma_page_crossed_iff_high_byte_changes(s: CpuState, mode: AddressingMode)
    ensures
        (mode is AbsoluteX || mode is AbsoluteY || mode is IndirectY) ==> {
            &&& effective_address(s, mode) == wrap16(indexed_base(s, mode) + index_of(s, mode))
            &&& page_crossed(s, mode) <==> high_of(effective_address(s, mode)) != high_of(
                indexed_base(s, mode),
            )
            &&& page_crossed(s, mode) <==> low_of(indexed_base(s, mode)) + index_of(s, mode) > 255
        },
        !(mode is AbsoluteX || mode is AbsoluteY || mode is IndirectY) ==> !page_crossed(s, mode),
{
}

/// A load sets Zero if and only if the loaded byte is 0, and Negative if
/// and only if bit 7 of the loaded byte is 1. It changes no other flag,
/// nothing in memory, and no register but the one it loads.
pub proof fn lemma_load_sets_zero_and_negative(
    s: CpuState,
    operation: SingleArgumentInstructionOp,
    address: Address,
)
    requires
        is_load(operation),
    ensures
        ({
            let after = s.execute_single_argument(operation, address);
            let loaded = s.read(address);
            &&& loaded_register(after, operation) == loaded
            &&& after.flags.zero <==> loaded == 0
            &&& after.flags.negative <==> loaded & 0x80 != 0
            &&& after.flags.carry == s.flags.carry
            &&& after.flags.overflow == s.flags.overflow
            &&& after.flags.interrupt == s.flags.interrupt
            &&& after.flags.decimal == s.flags.decimal
            &&& after.flags.brk == s.flags.brk
            &&& after.memory == s.memory
            &&& after.pc == s.pc
            &&& after.sp == s.sp
        }),
{
    reveal(CpuState::execute_single_argument);
    let loaded = s.read(address);
    assert((loaded & 0x80 != 0) == (loaded >= 128)) by (bit_vector);
}

/// Every branch is bound with relative addressing and a base cost of two
/// cycles.
pub proof fn lemma_branches_are_relative(op_code: OpCode)
    requires
        instruction_for(op_code) is SingleArgument,
        instruction_for(op_code)->SingleArgument_operation.branch_condition_of() is Some,
    ensures
        instruction_for(op_code)->SingleArgument_addressing_mode is Relative,
        instruction_for(op_code)->SingleArgument_cycles == 2,
{
    reveal(instruction_for);
    if op_code < 0x20 {
    } else if op_code < 0x40 {
    } else if op_code < 0x60 {
    } else if op_code < 0x80 {
    } else if op_code < 0xA0 {
    } else if op_code < 0xC0 {
    } else if op_code < 0xE0 {
    } else {
    }
}

/// The operations that test a flag are branches on that flag.
pub proof fn lemma_branch_operation(
    s: CpuState,
    operation: SingleArgumentInstructionOp,
    address: Address,
)
    requires
        operation.branch_condition_of() is Some,
    ensures
        ({
            let condition = operation.branch_condition_of()->0;
            s.execute_single_argument(operation, address) == s.branch(
                condition.0,
                condition.1,
                address,
            )
        }),
{
    reveal(CpuState::execute_single_argument);
}

/// A branch costs its two base cycles when it is not taken, one more when
/// it is taken, and yet one more when the target lies in another page than
/// the instruction that follows the branch.
pub proof fn lemma_branch_cycles(s: CpuState)
    requires
        s.halted is None,
        instruction_for(s.opcode()) is SingleArgument,
        instruction_for(s.opcode())->SingleArgument_operation.branch_condition_of() is Some,
    ensures
        ({
            let condition = instruction_for(
                s.opcode(),
            )->SingleArgument_operation.branch_condition_of()->0;
            let following = wrap16(s.pc + 2);
            let target = wrap16(following + signed_of(s.read(wrap16(s.pc + 1))));
            let taken = s.flags.get(condition.0) == condition.1;
            &&& s.step_result() == Ok::<u8, DecodeFault>(
                if !taken {
                    2
                } else if high_of(target) == high_of(following) {
                    3
                } else {
                    4
                },
            )
            &&& s.step().pc == if taken {
                target
            } else {
                following
            }
        }),
{
    reveal(CpuState::step);
    reveal(CpuState::step_result);
    lemma_branches_are_relative(s.opcode());
    let operation = instruction_for(s.opcode())->SingleArgument_operation;
    let fetched = s.advance(1);
    lemma_branch_operation(
        fetched.advance(1),
        operation,
        effective_address(fetched, AddressingMode::Relative),
    );
}

/// An opcode that is bound to no instruction produces a decode fault that
/// names the opcode and the address from which it was fetched. The
/// processor halts behind the opcode, with registers, flags and memory as
/// they were, and does not advance further: every later step reports the
/// same fault and changes nothing.
pub proof fn lemma_unbound_opcode_faults(s: CpuState, later: nat)
    requires
        s.halted is None,
        instruction_for(s.opcode()) is Invalid,
    ensures
        ({
            let fault = DecodeFault { opcode: s.read(s.pc), pc: s.pc };
            &&& s.step_result() == Err::<u8, DecodeFault>(fault)
            &&& s.step() == (CpuState { pc: wrap16(s.pc + 1), halted: Some(fault), ..s })
            &&& s.step().step() == s.step()
            &&& s.step().step_result() == Err::<u8, DecodeFault>(fault)
            &&& later >= 1 ==> s.run(later) == s.step()
            &&& s.run_instructions(later) == 0
            &&& s.run_cycles(later) == 0
        }),
{
    reveal(CpuState::step);
    reveal(CpuState::step_result);
    reveal_with_fuel(CpuState::run, 2);
    reveal_with_fuel(CpuState::run_instructions, 2);
    reveal_with_fuel(CpuState::run_cycles, 2);
    if later >= 1 {
        s.lemma_run_stays_halted(1, later);
    }
}

/// A byte that was pushed is the byte that the next pull yields, and after
/// the pull the stack pointer is where it was before the push.
pub proof fn lemma_pull_after_push(s: CpuState, data: u8)
    requires
        s.wf(),
    ensures
        s.push(data).pull().top() == data,
        s.push(data).pull().sp == s.sp,
        s.push(data).wf(),
{
}

/// A return from a subroutine continues behind the call that entered it,
/// with the stack pointer where it was before the call.
pub proof fn lemma_return_after_call(s: CpuState, address: Address)
    requires
        s.wf(),
    ensures
        s.jump_to_subroutine(address).pc == address,
        s.jump_to_subroutine(address).return_from_subroutine().pc == s.pc,
        s.jump_to_subroutine(address).return_from_subroutine().sp == s.sp,
{
    let called = s.jump_to_subroutine(address);
    let first = s.push(high_of(wrap16(s.pc - 1)));
    assert(called.pull().pull().sp == s.sp);
    assert(called.pull().top() == low_of(wrap16(s.pc - 1)));
    assert(called.pull().pull().top() == high_of(wrap16(s.pc - 1)));
}

/// An interrupt that is taken continues at the address that its vector
/// holds, with Interrupt-disable set. A return from it continues the
/// interrupted program: the program counter, the stack pointer, the
/// registers and all flags are those from before the interrupt.
pub proof fn lemma_return_after_interrupt(s: CpuState, interrupt: Interrupt)
    requires
        s.wf(),
        s.accepts(interrupt),
    ensures
        ({
            let entered = s.interrupt(interrupt);
            let returned = entered.return_from_interrupt();
            &&& entered.pc == s.read_word(interrupt.vector_of())
            &&& entered.flags == (Flags { interrupt: true, ..s.flags })
            &&& returned.pc == s.pc
            &&& returned.sp == s.sp
            &&& returned.flags == s.flags
            &&& returned.a == s.a && returned.x == s.x && returned.y == s.y
        }),
{
    let entered = s.interrupt(interrupt);
    let pushed_flags = Flags { brk: false, ..s.flags };
    lemma_flags_of_status_of(pushed_flags);
    assert(entered.pull().top() == status_of(pushed_flags));
    assert(entered.pull().pull().top() == low_of(s.pc));
    assert(entered.pull().pull().pull().top() == high_of(s.pc));
    assert(entered.pull().pull().pull().sp == s.sp);
}

/// A byte read after a write is the byte written where the two addresses
/// are the same, and the byte that was there before where they differ.
pub proof fn lemma_read_after_write(s: CpuState, written: Address, data: u8, read: Address)
    requires
        s.wf(),
    ensures
        s.write(written, data).read(read) == if read == written {
            data
        } else {
            s.read(read)
        },
        s.write(written, data).wf(),
{
}

/// Loading at most 65536 bytes places byte `i` at address `origin + i`,
/// wrapping at 16 bits, and leaves all other memory and every register as
/// it was.
pub proof fn lemma_load_places_bytes(
    s: CpuState,
    origin: Address,
    bytes: Seq<u8>,
    address: Address,
)
    requires
        s.wf(),
        bytes.len() <= 65536,
    ensures
        ({
            let offset = (address - origin) % 65536;
            s.load(origin, bytes).read(address) == if offset < bytes.len() {
                bytes[offset]
            } else {
                s.read(address)
            }
        }),
        s.load(origin, bytes) == (CpuState { memory: s.load(origin, bytes).memory, ..s }),
        s.load(origin, bytes).wf(),
    decreases bytes.len(),
{
    if bytes.len() > 0 {
        lemma_load_places_bytes(s, origin, bytes.drop_last(), address);
    }
}

/// The flags that an operation on an operand defines. A load, a logical
/// operation and a step on memory define Zero and Negative; an addition and
/// a subtraction define Carry, Zero, Overflow and Negative; a comparison, a
/// shift and a rotate define Carry, Zero and Negative; a bit test defines
/// Zero, Overflow and Negative. A store, a jump, a call and a branch define
/// none.
pub open spec fn defines_flag(operation: SingleArgumentInstructionOp, flag: Flag) -> bool {
    match operation {
        SingleArgumentInstructionOp::LoadAccumulator
        | SingleArgumentInstructionOp::LoadX
        | SingleArgumentInstructionOp::LoadY
        | SingleArgumentInstructionOp::And
        | SingleArgumentInstructionOp::Or
        | SingleArgumentInstructionOp::ExclusiveOr
        | SingleArgumentInstructionOp::Increment
        | SingleArgumentInstructionOp::Decrement => flag is Zero || flag is Negative,
        SingleArgumentInstructionOp::AddWithCarry
        | SingleArgumentInstructionOp::SubtractWithCarry => flag is Carry || flag is Zero
            || flag is Overflow || flag is Negative,
        SingleArgumentInstructionOp::Compare
        | SingleArgumentInstructionOp::CompareX
        | SingleArgumentInstructionOp::CompareY
        | SingleArgumentInstructionOp::ShiftLeft
        | SingleArgumentInstructionOp::ShiftRight
        | SingleArgumentInstructionOp::RotateLeft
        | SingleArgumentInstructionOp::RotateRight => flag is Carry || flag is Zero
            || flag is Negative,
        SingleArgumentInstructionOp::BitTest => flag is Zero || flag is Overflow
            || flag is Negative,
        _ => false,
    }
}

/// The flags that an operation without operand defines. A transfer into
/// the accumulator or an index register, a step on an index register and a
/// pull of the accumulator define Zero and Negative; a shift or rotate of
/// the accumulator defines Carry, Zero and Negative; a flag instruction
/// defines its flag; the break instruction defines Interrupt-disable; a
/// pull of the status register and a return from an interrupt define all
/// flags but Break. The others define none.
pub open spec fn defines_flag_without_argument(
    operation: NoArgumentInstructionOp,
    flag: Flag,
) -> bool {
    match operation {
        NoArgumentInstructionOp::TransferAccumulatorToX
        | NoArgumentInstructionOp::TransferAccumulatorToY
        | NoArgumentInstructionOp::TransferXToAccumulator
        | NoArgumentInstructionOp::TransferYToAccumulator
        | NoArgumentInstructionOp::TransferStackPointerToX
        | NoArgumentInstructionOp::IncrementX
        | NoArgumentInstructionOp::IncrementY
        | NoArgumentInstructionOp::DecrementX
        | NoArgumentInstructionOp::DecrementY
        | NoArgumentInstructionOp::PullAccumulator => flag is Zero || flag is Negative,
        NoArgumentInstructionOp::ShiftLeftAccumulator
        | NoArgumentInstructionOp::ShiftRightAccumulator
        | NoArgumentInstructionOp::RotateLeftAccumulator
        | NoArgumentInstructionOp::RotateRightAccumulator => flag is Carry || flag is Zero
            || flag is Negative,
        NoArgumentInstructionOp::ClearCarry | NoArgumentInstructionOp::SetCarry => flag is Carry,
        NoArgumentInstructionOp::ClearInterrupt
        | NoArgumentInstructionOp::SetInterrupt
        | NoArgumentInstructionOp::ForceBreak => flag is Interrupt,
        NoArgumentInstructionOp::ClearOverflow => flag is Overflow,
        NoArgumentInstructionOp::ClearDecimal | NoArgumentInstructionOp::SetDecimal => flag is Decimal,
        NoArgumentInstructionOp::PullStatus | NoArgumentInstructionOp::ReturnFromInterrupt => !(flag is Break),
        _ => false,
    }
}

/// An operation on an operand leaves every flag that it does not define as
/// it was.
pub proof fn lemma_undefined_flags_stay(
    s: CpuState,
    operation: SingleArgumentInstructionOp,
    address: Address,
    flag: Flag,
)
    requires
        !defines_flag(operation, flag),
    ensures
        s.execute_single_argument(operation, address).flags.get(flag) == s.flags.get(flag),
{
    reveal(CpuState::execute_single_argument);
}

/// An operation without operand leaves every flag that it does not define
/// as it was.
pub proof fn lemma_undefined_flags_stay_without_argument(
    s: CpuState,
    operation: NoArgumentInstructionOp,
    flag: Flag,
)
    requires
        !defines_flag_without_argument(operation, flag),
    ensures
        s.execute_no_argument(operation).flags.get(flag) == s.flags.get(flag),
{
    reveal(CpuState::execute_no_argument);
}

/// No operation on an operand takes memory away or halts the processor:
/// a well-formed state stays well-formed, and a running processor keeps
/// running.
pub proof fn lemma_operation_keeps_the_machine_whole(
    s: CpuState,
    operation: SingleArgumentInstructionOp,
    address: Address,
)
    requires
        s.wf(),
    ensures
        s.execute_single_argument(operation, address).wf(),
        s.execute_single_argument(operation, address).halted == s.halted,
{
    reveal(CpuState::execute_single_argument);
}

/// No operation without operand takes memory away or halts the processor.
pub proof fn lemma_operation_without_argument_keeps_the_machine_whole(
    s: CpuState,
    operation: NoArgumentInstructionOp,
)
    requires
        s.wf(),
    ensures
        s.execute_no_argument(operation).wf(),
        s.execute_no_argument(operation).halted == s.halted,
{
    reveal(CpuState::execute_no_argument);
}

/// A step keeps a well-formed state well-formed, and it halts the processor
/// exactly when it ends in a fault.
pub proof fn lemma_step_keeps_the_machine_whole(s: CpuState)
    requires
        s.wf(),
    ensures
        s.step().wf(),
        s.step().halted is Some <==> s.step_result() is Err,
        s.step_result() matches Err(fault) ==> s.step().halted == Some(fault),
{
    reveal(CpuState::step);
    reveal(CpuState::step_result);
    if s.halted is None {
        let fetched = s.advance(1);
        match instruction_for(s.opcode()) {
            Instruction::Invalid => {},
            Instruction::NoArgument { operation, .. } => {
                lemma_operation_without_argument_keeps_the_machine_whole(fetched, operation);
            },
            Instruction::SingleArgument { operation, addressing_mode, .. } => {
                lemma_operation_keeps_the_machine_whole(
                    fetched.advance(addressing_mode.operand_width_of() as int),
                    operation,
                    effective_address(fetched, addressing_mode),
                );
            },
        }
    }
}

/// Every run keeps a well-formed state well-formed.
pub proof fn lemma_run_keeps_the_machine_whole(s: CpuState, count: nat)
    requires
        s.wf(),
    ensures
        s.run(count).wf(),
    decreases count,
{
    if count > 0 {
        lemma_run_keeps_the_machine_whole(s, (count - 1) as nat);
        lemma_step_keeps_the_machine_whole(s.run((count - 1) as nat));
    }
}

/// The base cost of a reading instruction whose addressing mode can cross
/// a page is at most five cycles.
pub proof fn lemma_crossing_reads_cost_at_most_five(op_code: OpCode)
    requires
        instruction_for(op_code) is SingleArgument,
    ensures
        ({
            let operation = instruction_for(op_code)->SingleArgument_operation;
            let mode = instruction_for(op_code)->SingleArgument_addressing_mode;
            let cycles = instruction_for(op_code)->SingleArgument_cycles;
            &&& 2 <= cycles <= 7
            &&& operation.reads_operand_of() ==> operation.branch_condition_of() is None
            &&& operation.reads_operand_of() && (mode is AbsoluteX || mode is AbsoluteY
                || mode is IndirectY) ==> cycles <= 5
        }),
{
    reveal(instruction_for);
    if op_code < 0x20 {
    } else if op_code < 0x40 {
    } else if op_code < 0x60 {
    } else if op_code < 0x80 {
    } else if op_code < 0xA0 {
    } else if op_code < 0xC0 {
    } else if op_code < 0xE0 {
    } else {
    }
}

/// Every instruction takes at least two and at most seven cycles, its
/// penalty counted in.
pub proof fn lemma_step_cycles_are_bounded(s: CpuState)
    ensures
        s.step_result() matches Ok(cycles) ==> 2 <= cycles <= 7,
{
    reveal(CpuState::step_result);
    let op_code = s.opcode();
    super::execute::lemma_base_cycles_are_bounded(op_code);
    if s.halted is None {
        match instruction_for(op_code) {
            Instruction::Invalid => {},
            Instruction::NoArgument { .. } => {
                super::timing::lemma_base_cycles_count_stack_accesses(op_code);
            },
            Instruction::SingleArgument { operation, .. } => {
                lemma_crossing_reads_cost_at_most_five(op_code);
                if operation.branch_condition_of() is Some {
                    lemma_branches_are_relative(op_code);
                }
            },
        }
    }
}

} // verus!
