//! An emulator core for the MOS 6502 microprocessor.
//!
//! The processor decodes machine code held in a flat 64 KiB address space,
//! resolves operand addresses for every addressing mode, applies each
//! instruction to registers, flags and memory, and counts the cycles that the
//! hardware would have spent. Every function carries a contract stated over
//! a mathematical model of the machine.

pub mod cpu;
