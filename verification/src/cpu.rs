//! The processor, its model, and everything it is made of.

use vstd::prelude::*;
use self::bus::zeroed_memory;
use self::bus::Bus;
use self::bits::make_word;
use self::bits::sign_bit;
use self::bits::split_word;
use self::bits::wrap16;
use self::flags::assign_flag;
use self::flags::flag_is_set;
use self::flags::flags_of;
use self::flags::lemma_flags_of_status_of;
use self::flags::lemma_status_of_flags_of;
use self::flags::reset_flags;
use self::flags::status_of;
use self::flags::UNUSED_BIT;
use self::flags::Flag;
use self::instructions::create_instruction_map;
use self::instructions::InstructionMap;
use self::memory::IntoAddress;
use self::memory::Memory;
use self::state::CpuState;
use self::state::RESET_STACK_POINTER;
use self::state::STACK_BASE;
use self::types::Address;
use self::types::DecodeFault;
use self::types::Status;

pub mod addressing;
pub mod alu;
pub mod arithmetic;
pub mod bits;
pub mod bus;
pub mod control;
pub mod encoding;
pub mod execute;
pub mod flags;
pub mod instructions;
pub mod interrupt;
pub mod laws;
pub mod logic;
pub mod memory;
pub mod run;
pub mod state;
pub mod timing;
pub mod transfer;
pub mod types;

verus! {

/// The processor: its registers, the dispatch table, and the bus that it
/// owns.
pub struct MOS6502Cpu {
    a: u8,
    x: u8,
    y: u8,
    pc: Address,
    sp: u8,
    status: Status,
    instructions: InstructionMap,
    bus: Bus,
    fault: Option<DecodeFault>,
}

impl View for MOS6502Cpu {
    type V = CpuState;

    closed spec fn view(&self) -> CpuState {
        CpuState {
            a: self.a,
            x: self.x,
            y: self.y,
            pc: self.pc,
            sp: self.sp,
            flags: flags_of(self.status),
            memory: self.bus.contents(),
            halted: self.fault,
        }
    }
}

impl Memory for MOS6502Cpu {
    closed spec fn contents(&self) -> Seq<u8> {
        self.bus.contents()
    }

    proof fn lemma_covers_address_space(&self) {
        self.bus.lemma_covers_address_space();
    }

    fn write<A: IntoAddress>(&mut self, address: A, data: u8)
        ensures
            final(self)@ == old(self)@.write(address.address_of(), data),
    {
        self.bus.write(address, data);
    }

    fn read<A: IntoAddress>(&self, address: A) -> (data: u8)
        ensures
            data == self@.read(address.address_of()),
    {
        self.bus.read(address)
    }
}

/// The machine when it is created: memory is zero at every address, and
/// the registers are those of a reset. The reset vector holds zero, so
/// execution starts at address 0.
pub open spec fn power_on_state() -> CpuState {
    CpuState {
        a: 0,
        x: 0,
        y: 0,
        pc: 0,
        sp: RESET_STACK_POINTER,
        flags: reset_flags(),
        memory: zeroed_memory(),
        halted: None,
    }
}

impl MOS6502Cpu {
    /// A processor with zeroed memory, in the state of a reset.
    pub fn new() -> (cpu: MOS6502Cpu)
        ensures
            cpu@ == power_on_state(),
    {
        let mut cpu = MOS6502Cpu {
            a: 0,
            x: 0,
            y: 0,
            pc: 0,
            sp: 0,
            status: 0,
            bus: Bus::new(),
            instructions: create_instruction_map(),
            fault: None,
        };
        cpu.reset();
        cpu
    }

    /// Writes a program, or any bytes, into memory from `origin` on.
    pub fn load(&mut self, origin: Address, bytes: &[u8])
        ensures
            final(self)@ == old(self)@.load(origin, bytes@),
    {
        let mut address: Address = origin;
        let mut index: usize = 0;
        while index < bytes.len()
            invariant
                index <= bytes.len(),
                address == wrap16(origin + index),
                self@ == old(self)@.load(origin, bytes@.take(index as int)),
            decreases bytes.len() - index,
        {
            assert(bytes@.take(index + 1).drop_last() =~= bytes@.take(index as int));
            self.write(address, bytes[index]);
            address = address.wrapping_add(1);
            index = index + 1;
        }
        assert(bytes@.take(index as int) =~= bytes@);
    }

    /// Reads the byte at `address`.
    pub fn peek(&self, address: Address) -> (data: u8)
        ensures
            data == self@.read(address),
    {
        self.read(address)
    }

    /// Stores `data` at `address`.
    pub fn poke(&mut self, address: Address, data: u8)
        ensures
            final(self)@ == old(self)@.write(address, data),
    {
        self.write(address, data);
    }

    /// The accumulator.
    pub fn a(&self) -> (value: u8)
        ensures
            value == self@.a,
    {
        self.a
    }

    /// The X index register.
    pub fn x(&self) -> (value: u8)
        ensures
            value == self@.x,
    {
        self.x
    }

    /// The Y index register.
    pub fn y(&self) -> (value: u8)
        ensures
            value == self@.y,
    {
        self.y
    }

    /// The program counter.
    pub fn pc(&self) -> (value: Address)
        ensures
            value == self@.pc,
    {
        self.pc
    }

    /// The stack pointer.
    pub fn sp(&self) -> (value: u8)
        ensures
            value == self@.sp,
    {
        self.sp
    }

    /// The status register as a byte. Bit 5 always reads as set.
    pub fn status(&self) -> (value: Status)
        ensures
            value == status_of(self@.flags),
            value & UNUSED_BIT != 0,
    {
        proof {
            lemma_status_of_flags_of(self.status);
            lemma_flags_of_status_of(self@.flags);
        }
        self.status | UNUSED_BIT
    }

    /// The fault at which the processor halted, if it has.
    pub fn fault(&self) -> (fault: Option<DecodeFault>)
        ensures
            fault == self@.halted,
    {
        self.fault
    }

    /// Whether the processor has halted.
    pub fn is_halted(&self) -> (halted: bool)
        ensures
            halted == self@.halted is Some,
    {
        self.fault.is_some()
    }

    /// Gives the accumulator a value.
    pub fn set_a(&mut self, value: u8)
        ensures
            final(self)@ == (CpuState { a: value, ..old(self)@ }),
    {
        self.a = value;
    }

    /// Gives the X index register a value.
    pub fn set_x(&mut self, value: u8)
        ensures
            final(self)@ == (CpuState { x: value, ..old(self)@ }),
    {
        self.x = value;
    }

    /// Gives the Y index register a value.
    pub fn set_y(&mut self, value: u8)
        ensures
            final(self)@ == (CpuState { y: value, ..old(self)@ }),
    {
        self.y = value;
    }

    /// Points the program counter at an address.
    pub fn set_pc(&mut self, value: Address)
        ensures
            final(self)@ == (CpuState { pc: value, ..old(self)@ }),
    {
        self.pc = value;
    }

    /// Gives the stack pointer a value.
    pub fn set_sp(&mut self, value: u8)
        ensures
            final(self)@ == (CpuState { sp: value, ..old(self)@ }),
    {
        self.sp = value;
    }

    /// Gives the seven flags the values that `value` holds. Bit 5 of
    /// `value` is ignored.
    pub fn set_status(&mut self, value: Status)
        ensures
            final(self)@ == (CpuState { flags: flags_of(value), ..old(self)@ }),
    {
        self.status = value;
    }

    /// The memory that the model shows is the memory behind the bus, and it
    /// covers the address space.
    pub proof fn lemma_view_is_well_formed(&self)
        ensures
            self@.wf(),
            self@.memory == self.contents(),
    {
        self.bus.lemma_covers_address_space();
    }

    /// Tests a flag.
    pub fn flag(&self, flag: Flag) -> (on: bool)
        ensures
            on == self@.flags.get(flag),
    {
        flag_is_set(self.status, flag)
    }

    /// Sets a flag and leaves the other six as they are.
    pub fn set_flag(&mut self, flag: Flag)
        ensures
            final(self)@ == (CpuState { flags: old(self)@.flags.with(flag, true), ..old(self)@ }),
    {
        self.assign_flag(flag, true);
    }

    /// Clears a flag and leaves the other six as they are.
    pub fn clear_flag(&mut self, flag: Flag)
        ensures
            final(self)@ == (CpuState { flags: old(self)@.flags.with(flag, false), ..old(self)@ }),
    {
        self.assign_flag(flag, false);
    }

    /// Gives a flag the value `on` and leaves the other six as they are.
    pub fn assign_flag(&mut self, flag: Flag, on: bool)
        ensures
            final(self)@ == (CpuState { flags: old(self)@.flags.with(flag, on), ..old(self)@ }),
    {
        self.status = assign_flag(self.status, flag, on);
    }

    /// The Zero/Negative rule, which every operation that loads a register
    /// or produces a result applies to the byte it produced.
    pub fn update_zero_negative(&mut self, value: u8)
        ensures
            final(self)@ == (CpuState {
                flags: old(self)@.flags.with_zero_negative(value),
                ..old(self)@
            }),
    {
        self.assign_flag(Flag::Zero, value == 0);
        self.assign_flag(Flag::Negative, sign_bit(value));
    }

    /// Stores a byte where the stack pointer points and moves the stack
    /// pointer down.
    pub fn push(&mut self, data: u8)
        ensures
            final(self)@ == old(self)@.push(data),
    {
        let address: Address = STACK_BASE + self.sp as Address;
        self.write(address, data);
        self.sp = self.sp.wrapping_sub(1);
    }

    /// Moves the stack pointer up and reads the byte it points at.
    pub fn pull(&mut self) -> (data: u8)
        ensures
            final(self)@ == old(self)@.pull(),
            data == old(self)@.pull().top(),
    {
        self.sp = self.sp.wrapping_add(1);
        let address: Address = STACK_BASE + self.sp as Address;
        self.read(address)
    }

    /// Pushes a word, high byte first.
    pub fn push_word(&mut self, word: Address)
        ensures
            final(self)@ == old(self)@.push_word(word),
    {
        let (low_byte, high_byte) = split_word(word);
        self.push(high_byte);
        self.push(low_byte);
    }

    /// Pulls a word, low byte first.
    pub fn pull_word(&mut self) -> (word: Address)
        ensures
            final(self)@ == old(self)@.pull().pull(),
            word == old(self)@.pull_word(),
    {
        let low_byte: u8 = self.pull();
        let high_byte: u8 = self.pull();
        make_word(low_byte, high_byte)
    }
}

} // verus!
