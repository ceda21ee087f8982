//! The addressing modes: how the effective address of an operand is found
//! from the bytes behind the opcode and from the index registers.

use vstd::prelude::*;
use super::bits::high_of;
use super::bits::low_of;
use super::bits::page_start_of;
use super::bits::signed_of;
use super::bits::word_of;
use super::bits::wrap16;
use super::bits::wrap8;
use super::bits::displace;
use super::bits::make_word;
use super::bits::page_start;
use super::bits::pages_differ;
use super::instructions::AddressingMode;
use super::memory::Memory;
use super::state::CpuState;
use super::types::Address;
use super::types::AddressLookupResult;
use super::MOS6502Cpu;

verus! {

/// Where indirect addressing fetches the high byte of the target, given the
/// pointer at which it fetched the low byte. The processor adds one to the
/// low byte of the pointer only: a pointer that ends in 0xFF wraps to the
/// start of its own page and does not reach into the next one.
pub open spec fn indirect_high_address(pointer: Address) -> Address {
    if low_of(pointer) == 0xFF {
        page_start_of(pointer)
    } else {
        (pointer + 1) as Address
    }
}

/// The address before indexing, for the modes that add an index register
/// to a 16-bit base.
pub open spec fn indexed_base(s: CpuState, mode: AddressingMode) -> Address {
    match mode {
        AddressingMode::AbsoluteX | AddressingMode::AbsoluteY => s.read_word(s.pc),
        AddressingMode::IndirectY => s.read_zero_page_word(s.read(s.pc)),
        _ => 0,
    }
}

/// The effective address that `mode` yields in a state whose program
/// counter points at the first operand byte.
pub open spec fn effective_address(s: CpuState, mode: AddressingMode) -> Address {
    let operand = s.read(s.pc);
    match mode {
        AddressingMode::Immediate => s.pc,
        AddressingMode::ZeroPage => operand as Address,
        AddressingMode::ZeroPageX => wrap8(operand + s.x) as Address,
        AddressingMode::ZeroPageY => wrap8(operand + s.y) as Address,
        AddressingMode::Absolute => s.read_word(s.pc),
        AddressingMode::AbsoluteX => wrap16(indexed_base(s, mode) + s.x),
        AddressingMode::AbsoluteY => wrap16(indexed_base(s, mode) + s.y),
        AddressingMode::Indirect => {
            let pointer = s.read_word(s.pc);
            word_of(s.read(pointer), s.read(indirect_high_address(pointer)))
        },
        AddressingMode::IndirectX => s.read_zero_page_word(wrap8(operand + s.x)),
        AddressingMode::IndirectY => wrap16(indexed_base(s, mode) + s.y),
        AddressingMode::Relative => wrap16(s.pc + 1 + signed_of(operand)),
    }
}

/// Whether indexing moved the address into another page: the high byte of
/// the effective address differs from that of the base. Only the modes
/// that add an index to a 16-bit base can cross.
pub open spec fn page_crossed(s: CpuState, mode: AddressingMode) -> bool {
    match mode {
        AddressingMode::AbsoluteX | AddressingMode::AbsoluteY | AddressingMode::IndirectY => {
            high_of(indexed_base(s, mode)) != high_of(effective_address(s, mode))
        },
        _ => false,
    }
}

/// What resolving `mode` yields and leaves behind: address and page signal
/// as above, and the program counter moved past the operand bytes.
pub open spec fn resolves(
    before: CpuState,
    mode: AddressingMode,
    result: AddressLookupResult,
    after: CpuState,
) -> bool {
    &&& result.0 == effective_address(before, mode)
    &&& result.1 == page_crossed(before, mode)
    &&& after == before.advance(mode.operand_width_of() as int)
}

impl MOS6502Cpu {
    /// Reads the byte at the program counter and moves the program counter
    /// past it.
    pub fn fetch(&mut self) -> (data: u8)
        ensures
            data == old(self)@.read(old(self)@.pc),
            final(self)@ == old(self)@.advance(1),
    {
        let data: u8 = self.read(self.pc);
        self.pc = self.pc.wrapping_add(1);
        data
    }

    /// Reads the word at the program counter, low byte first, and moves the
    /// program counter past it.
    pub fn fetch_word(&mut self) -> (word: Address)
        ensures
            word == old(self)@.read_word(old(self)@.pc),
            final(self)@ == old(self)@.advance(2),
    {
        let low_byte: u8 = self.fetch();
        let high_byte: u8 = self.fetch();
        make_word(low_byte, high_byte)
    }

    /// Reads the word that a zero page pointer designates. Both bytes come
    /// from the zero page.
    pub fn read_zero_page_word(&self, pointer: u8) -> (word: Address)
        ensures
            word == self@.read_zero_page_word(pointer),
    {
        let low_byte: u8 = self.read(pointer);
        let high_byte: u8 = self.read(pointer.wrapping_add(1));
        make_word(low_byte, high_byte)
    }

    /// Immediate: the operand byte itself is the operand, so its own address
    /// is the effective address.
    pub fn addressing_mode_immediate(&mut self) -> (result: AddressLookupResult)
        ensures
            resolves(old(self)@, AddressingMode::Immediate, result, final(self)@),
    {
        let address: Address = self.pc;
        self.pc = self.pc.wrapping_add(1);

        (address, false)
    }

    /// Zero page: the operand byte is the address.
    pub fn addressing_mode_zero_page(&mut self) -> (result: AddressLookupResult)
        ensures
            resolves(old(self)@, AddressingMode::ZeroPage, result, final(self)@),
    {
        let address: u8 = self.fetch();

        (address as Address, false)
    }

    /// Zero page,X: the operand byte plus X, wrapping within the zero page.
    pub fn addressing_mode_zero_page_x(&mut self) -> (result: AddressLookupResult)
        ensures
            resolves(old(self)@, AddressingMode::ZeroPageX, result, final(self)@),
    {
        let address: u8 = self.fetch().wrapping_add(self.x);

        (address as Address, false)
    }

    /// Zero page,Y: the operand byte plus Y, wrapping within the zero page.
    pub fn addressing_mode_zero_page_y(&mut self) -> (result: AddressLookupResult)
        ensures
            resolves(old(self)@, AddressingMode::ZeroPageY, result, final(self)@),
    {
        let address: u8 = self.fetch().wrapping_add(self.y);

        (address as Address, false)
    }

    /// Absolute: the two operand bytes are the address, low byte first.
    pub fn addressing_mode_absolute(&mut self) -> (result: AddressLookupResult)
        ensures
            resolves(old(self)@, AddressingMode::Absolute, result, final(self)@),
    {
        let address: Address = self.fetch_word();

        (address, false)
    }

    /// Absolute,X: the operand word plus X, with a signal when the sum lies in
    /// another page than the operand word.
    pub fn addressing_mode_absolute_x(&mut self) -> (result: AddressLookupResult)
        ensures
            resolves(old(self)@, AddressingMode::AbsoluteX, result, final(self)@),
    {
        let base: Address = self.fetch_word();
        let address: Address = base.wrapping_add(self.x as Address);
        let pages_crossed = pages_differ(base, address);

        (address, pages_crossed)
    }

    /// Absolute,Y: the operand word plus Y, with a signal when the sum lies in
    /// another page than the operand word.
    pub fn addressing_mode_absolute_y(&mut self) -> (result: AddressLookupResult)
        ensures
            resolves(old(self)@, AddressingMode::AbsoluteY, result, final(self)@),
    {
        let base: Address = self.fetch_word();
        let address: Address = base.wrapping_add(self.y as Address);
        let pages_crossed = pages_differ(base, address);

        (address, pages_crossed)
    }

    /// Indirect: the operand word points at the address. The second byte of
    /// the address is fetched without a carry into the high byte of the
    /// pointer, as the hardware does it.
    pub fn addressing_mode_indirect(&mut self) -> (result: AddressLookupResult)
        ensures
            resolves(old(self)@, AddressingMode::Indirect, result, final(self)@),
    {
        let pointer_low_byte: u8 = self.read(self.pc);
        let pointer: Address = self.fetch_word();

        let low_byte: u8 = self.read(pointer);

        let high_byte: u8 = if pointer_low_byte == 0xFF {
            // The processor does not carry into the high byte of the
            // pointer: the second fetch wraps within the page.
            self.read(page_start(pointer))
        } else {
            self.read(pointer + 1)
        };

        (make_word(low_byte, high_byte), false)
    }

    /// Indexed indirect: the operand byte plus X, wrapping within the zero
    /// page, points at the address.
    pub fn addressing_mode_indirect_x(&mut self) -> (result: AddressLookupResult)
        ensures
            resolves(old(self)@, AddressingMode::IndirectX, result, final(self)@),
    {
        let zero_page_pointer: u8 = self.fetch().wrapping_add(self.x);

        // Both bytes must be located in page zero
        let address: Address = self.read_zero_page_word(zero_page_pointer);

        (address, false)
    }

    /// Indirect indexed: the operand byte points at a base in the zero page,
    /// to which Y is added, with a signal when the sum lies in another page
    /// than the base.
    pub fn addressing_mode_indirect_y(&mut self) -> (result: AddressLookupResult)
        ensures
            resolves(old(self)@, AddressingMode::IndirectY, result, final(self)@),
    {
        let zero_page_pointer: u8 = self.fetch();
        let base: Address = self.read_zero_page_word(zero_page_pointer);
        let address: Address = base.wrapping_add(self.y as Address);
        let pages_crossed = pages_differ(base, address);

        (address, pages_crossed)
    }

    /// Relative: the operand byte is a signed distance from the instruction
    /// that follows.
    pub fn addressing_mode_relative(&mut self) -> (result: AddressLookupResult)
        ensures
            resolves(old(self)@, AddressingMode::Relative, result, final(self)@),
    {
        let relative_pc_offset: u8 = self.fetch();

        // The program counter has moved past the operand before the offset
        // is added.
        let address: Address = displace(self.pc, relative_pc_offset);

        (address, false)
    }

    /// Resolves the operand address of the instruction whose operand bytes
    /// start at the program counter.
    pub fn resolve(&mut self, mode: AddressingMode) -> (result: AddressLookupResult)
        ensures
            resolves(old(self)@, mode, result, final(self)@),
    {
        match mode {
            AddressingMode::Immediate => self.addressing_mode_immediate(),
            AddressingMode::ZeroPage => self.addressing_mode_zero_page(),
            AddressingMode::ZeroPageX => self.addressing_mode_zero_page_x(),
            AddressingMode::ZeroPageY => self.addressing_mode_zero_page_y(),
            AddressingMode::Absolute => self.addressing_mode_absolute(),
            AddressingMode::AbsoluteX => self.addressing_mode_absolute_x(),
            AddressingMode::AbsoluteY => self.addressing_mode_absolute_y(),
            AddressingMode::Indirect => self.addressing_mode_indirect(),
            AddressingMode::IndirectX => self.addressing_mode_indirect_x(),
            AddressingMode::IndirectY => self.addressing_mode_indirect_y(),
            AddressingMode::Relative => self.addressing_mode_relative(),
        }
    }

    /// Resolves the operand address and reads the operand.
    pub fn fetch_argument(&mut self, mode: AddressingMode) -> (result: (u8, bool))
        ensures
            result.0 == old(self)@.read(effective_address(old(self)@, mode)),
            result.1 == page_crossed(old(self)@, mode),
            final(self)@ == old(self)@.advance(mode.operand_width_of() as int),
    {
        let (address, pages_crossed) = self.resolve(mode);
        (self.read(address), pages_crossed)
    }
}

} // verus!
