//! The status register: seven flags packed into one byte.

use vstd::prelude::*;
use super::bits::is_negative;
use super::types::Status;

verus! {

/// Bit 0 of the status register: Carry.
pub const CARRY_BIT: Status = 0x01;

/// Bit 1 of the status register: Zero.
pub const ZERO_BIT: Status = 0x02;

/// Bit 2 of the status register: Interrupt-disable.
pub const INTERRUPT_BIT: Status = 0x04;

/// Bit 3 of the status register: Decimal.
pub const DECIMAL_BIT: Status = 0x08;

/// Bit 4 of the status register: Break.
pub const BREAK_BIT: Status = 0x10;

/// Bit 5 of the status register. It has no flag behind it and always reads
/// as set.
pub const UNUSED_BIT: Status = 0x20;

/// Bit 6 of the status register: Overflow.
pub const OVERFLOW_BIT: Status = 0x40;

/// Bit 7 of the status register: Negative.
pub const NEGATIVE_BIT: Status = 0x80;

/// The names of the seven condition flags.
#[derive(Clone, Copy, PartialEq, Eq, Debug, Structural)]
pub enum Flag {
    Carry,
    Zero,
    Interrupt,
    Decimal,
    Break,
    Overflow,
    Negative,
}

impl Flag {
    /// The bit of the status register that holds the flag.
    pub open spec fn mask_of(self) -> Status {
        match self {
            Flag::Carry => CARRY_BIT,
            Flag::Zero => ZERO_BIT,
            Flag::Interrupt => INTERRUPT_BIT,
            Flag::Decimal => DECIMAL_BIT,
            Flag::Break => BREAK_BIT,
            Flag::Overflow => OVERFLOW_BIT,
            Flag::Negative => NEGATIVE_BIT,
        }
    }

    /// The bit of the status register that holds the flag.
    pub fn mask(self) -> (mask: Status)
        ensures
            mask == self.mask_of(),
    {
        match self {
            Flag::Carry => CARRY_BIT,
            Flag::Zero => ZERO_BIT,
            Flag::Interrupt => INTERRUPT_BIT,
            Flag::Decimal => DECIMAL_BIT,
            Flag::Break => BREAK_BIT,
            Flag::Overflow => OVERFLOW_BIT,
            Flag::Negative => NEGATIVE_BIT,
        }
    }
}

/// The status register as seven independent conditions. Contracts speak of
/// the flags in this form; the processor keeps them packed into one byte.
pub struct Flags {
    pub carry: bool,
    pub zero: bool,
    pub interrupt: bool,
    pub decimal: bool,
    pub brk: bool,
    pub overflow: bool,
    pub negative: bool,
}

impl Flags {
    /// Whether `flag` is set.
    pub open spec fn get(self, flag: Flag) -> bool {
        match flag {
            Flag::Carry => self.carry,
            Flag::Zero => self.zero,
            Flag::Interrupt => self.interrupt,
            Flag::Decimal => self.decimal,
            Flag::Break => self.brk,
            Flag::Overflow => self.overflow,
            Flag::Negative => self.negative,
        }
    }

    /// The flags with `flag` set to `on` and the other six as they were.
    pub open spec fn with(self, flag: Flag, on: bool) -> Flags {
        match flag {
            Flag::Carry => Flags { carry: on, ..self },
            Flag::Zero => Flags { zero: on, ..self },
            Flag::Interrupt => Flags { interrupt: on, ..self },
            Flag::Decimal => Flags { decimal: on, ..self },
            Flag::Break => Flags { brk: on, ..self },
            Flag::Overflow => Flags { overflow: on, ..self },
            Flag::Negative => Flags { negative: on, ..self },
        }
    }

    /// The Zero/Negative rule: Zero is set iff `value` is 0, Negative is set
    /// iff bit 7 of `value` is 1, and the other five flags stay.
    pub open spec fn with_zero_negative(self, value: u8) -> Flags {
        Flags { zero: value == 0, negative: is_negative(value), ..self }
    }
}

/// The flags that a status byte holds. Bit 5 carries no flag.
pub open spec fn flags_of(status: Status) -> Flags {
    Flags {
        carry: status & CARRY_BIT != 0,
        zero: status & ZERO_BIT != 0,
        interrupt: status & INTERRUPT_BIT != 0,
        decimal: status & DECIMAL_BIT != 0,
        brk: status & BREAK_BIT != 0,
        overflow: status & OVERFLOW_BIT != 0,
        negative: status & NEGATIVE_BIT != 0,
    }
}

/// The status byte that holds the flags, with bit 5 set.
pub open spec fn status_of(flags: Flags) -> Status {
    (if flags.carry { CARRY_BIT } else { 0 })
    | (if flags.zero { ZERO_BIT } else { 0 })
    | (if flags.interrupt { INTERRUPT_BIT } else { 0 })
    | (if flags.decimal { DECIMAL_BIT } else { 0 })
    | (if flags.brk { BREAK_BIT } else { 0 })
    | (if flags.overflow { OVERFLOW_BIT } else { 0 })
    | (if flags.negative { NEGATIVE_BIT } else { 0 })
    | UNUSED_BIT
}

/// No two bits of the status register overlap.
proof fn lemma_masks_are_disjoint()
    by (bit_vector)
    ensures
        0x01u8 & 0x02u8 == 0, 0x01u8 & 0x04u8 == 0, 0x01u8 & 0x08u8 == 0, 0x01u8 & 0x10u8 == 0,
        0x01u8 & 0x20u8 == 0, 0x01u8 & 0x40u8 == 0, 0x01u8 & 0x80u8 == 0,
        0x02u8 & 0x04u8 == 0, 0x02u8 & 0x08u8 == 0, 0x02u8 & 0x10u8 == 0, 0x02u8 & 0x20u8 == 0,
        0x02u8 & 0x40u8 == 0, 0x02u8 & 0x80u8 == 0,
        0x04u8 & 0x08u8 == 0, 0x04u8 & 0x10u8 == 0, 0x04u8 & 0x20u8 == 0, 0x04u8 & 0x40u8 == 0,
        0x04u8 & 0x80u8 == 0,
        0x08u8 & 0x10u8 == 0, 0x08u8 & 0x20u8 == 0, 0x08u8 & 0x40u8 == 0, 0x08u8 & 0x80u8 == 0,
        0x10u8 & 0x20u8 == 0, 0x10u8 & 0x40u8 == 0, 0x10u8 & 0x80u8 == 0,
        0x20u8 & 0x40u8 == 0, 0x20u8 & 0x80u8 == 0,
        0x40u8 & 0x80u8 == 0,
{
}

/// Setting or clearing the bits of one mask sets or clears them, and
/// leaves the bits of a mask that does not overlap with it. The premise is
/// given in both orders of its operands.
proof fn lemma_bit_update(status: u8, changed: u8, kept: u8)
    by (bit_vector)
    ensures
        changed != 0 ==> (status | changed) & changed != 0,
        (status & !changed) & changed == 0,
        changed & kept == 0 ==> (status | changed) & kept == status & kept,
        changed & kept == 0 ==> (status & !changed) & kept == status & kept,
        kept & changed == 0 ==> (status | changed) & kept == status & kept,
        kept & changed == 0 ==> (status & !changed) & kept == status & kept,
{
}

/// A status byte with one flag bit set or cleared holds the same flags but
/// for that one.
pub proof fn lemma_assigned_flag(status: Status, flag: Flag, on: bool)
    ensures
        flags_of(
            if on {
                status | flag.mask_of()
            } else {
                status & !flag.mask_of()
            },
        ) == flags_of(status).with(flag, on),
{
    let changed = flag.mask_of();
    lemma_masks_are_disjoint();
    lemma_bit_update(status, changed, CARRY_BIT);
    lemma_bit_update(status, changed, ZERO_BIT);
    lemma_bit_update(status, changed, INTERRUPT_BIT);
    lemma_bit_update(status, changed, DECIMAL_BIT);
    lemma_bit_update(status, changed, BREAK_BIT);
    lemma_bit_update(status, changed, OVERFLOW_BIT);
    lemma_bit_update(status, changed, NEGATIVE_BIT);
}

/// Setting or clearing bit 5 changes no flag.
pub proof fn lemma_unused_bit_holds_no_flag(status: Status)
    ensures
        flags_of(status | UNUSED_BIT) == flags_of(status),
        flags_of(status & !UNUSED_BIT) == flags_of(status),
{
    lemma_masks_are_disjoint();
    lemma_bit_update(status, UNUSED_BIT, CARRY_BIT);
    lemma_bit_update(status, UNUSED_BIT, ZERO_BIT);
    lemma_bit_update(status, UNUSED_BIT, INTERRUPT_BIT);
    lemma_bit_update(status, UNUSED_BIT, DECIMAL_BIT);
    lemma_bit_update(status, UNUSED_BIT, BREAK_BIT);
    lemma_bit_update(status, UNUSED_BIT, OVERFLOW_BIT);
    lemma_bit_update(status, UNUSED_BIT, NEGATIVE_BIT);
}

/// Each bit of a packed status byte is the condition that was packed into
/// it.
proof fn lemma_packed_bits(c: bool, z: bool, i: bool, d: bool, b: bool, v: bool, n: bool)
    by (bit_vector)
    ensures
        ({
            let packed = (if c { 0x01u8 } else { 0u8 }) | (if z { 0x02u8 } else { 0u8 }) | (if i {
                0x04u8
            } else {
                0u8
            }) | (if d { 0x08u8 } else { 0u8 }) | (if b { 0x10u8 } else { 0u8 }) | (if v {
                0x40u8
            } else {
                0u8
            }) | (if n { 0x80u8 } else { 0u8 }) | 0x20u8;
            &&& (packed & 0x01u8 != 0) == c
            &&& (packed & 0x02u8 != 0) == z
            &&& (packed & 0x04u8 != 0) == i
            &&& (packed & 0x08u8 != 0) == d
            &&& (packed & 0x10u8 != 0) == b
            &&& (packed & 0x40u8 != 0) == v
            &&& (packed & 0x80u8 != 0) == n
            &&& packed & 0x20u8 != 0
        }),
{
}

/// Packing the bits of a status byte one by one gives the byte back, with
/// bit 5 set.
proof fn lemma_unpacked_bits(status: u8)
    by (bit_vector)
    ensures
        (if status & 0x01u8 != 0 { 0x01u8 } else { 0u8 }) | (if status & 0x02u8 != 0 {
            0x02u8
        } else {
            0u8
        }) | (if status & 0x04u8 != 0 { 0x04u8 } else { 0u8 }) | (if status & 0x08u8 != 0 {
            0x08u8
        } else {
            0u8
        }) | (if status & 0x10u8 != 0 { 0x10u8 } else { 0u8 }) | (if status & 0x40u8 != 0 {
            0x40u8
        } else {
            0u8
        }) | (if status & 0x80u8 != 0 { 0x80u8 } else { 0u8 }) | 0x20u8 == status | 0x20u8,
{
}

/// Packing flags into a byte and reading them back gives the same flags,
/// and the byte has bit 5 set.
pub proof fn lemma_flags_of_status_of(flags: Flags)
    ensures
        flags_of(status_of(flags)) == flags,
        status_of(flags) & UNUSED_BIT != 0,
{
    lemma_packed_bits(
        flags.carry,
        flags.zero,
        flags.interrupt,
        flags.decimal,
        flags.brk,
        flags.overflow,
        flags.negative,
    );
}

/// Reading the flags of a byte and packing them gives the byte with bit 5
/// set.
pub proof fn lemma_status_of_flags_of(status: Status)
    ensures
        status_of(flags_of(status)) == status | UNUSED_BIT,
{
    lemma_unpacked_bits(status);
}

/// The flags after a reset: Interrupt-disable is set, and the other six
/// are clear.
pub open spec fn reset_flags() -> Flags {
    Flags {
        carry: false,
        zero: false,
        interrupt: true,
        decimal: false,
        brk: false,
        overflow: false,
        negative: false,
    }
}

/// The status register after a reset: Interrupt-disable and bit 5.
pub const RESET_STATUS: Status = 0x24;

/// The bits of the status register after a reset.
proof fn lemma_reset_bits()
    by (bit_vector)
    ensures
        0x24u8 & 0x01u8 == 0,
        0x24u8 & 0x02u8 == 0,
        0x24u8 & 0x04u8 != 0,
        0x24u8 & 0x08u8 == 0,
        0x24u8 & 0x10u8 == 0,
        0x24u8 & 0x40u8 == 0,
        0x24u8 & 0x80u8 == 0,
        0x24u8 | 0x20u8 == 0x24u8,
{
}

/// The status register after a reset holds the flags of a reset, and reads
/// as 0x24.
pub proof fn lemma_reset_status()
    ensures
        flags_of(RESET_STATUS) == reset_flags(),
        status_of(reset_flags()) == RESET_STATUS,
{
    lemma_reset_bits();
    lemma_status_of_flags_of(RESET_STATUS);
}

/// The bits of a restored status register: Break is the register's own,
/// and the six other flags are those of the pulled byte.
proof fn lemma_restored_bits(status: u8, pulled: u8)
    by (bit_vector)
    ensures
        ({
            let restored = (pulled & !0x30u8) | (status & 0x30u8);
            &&& restored & 0x01u8 == pulled & 0x01u8
            &&& restored & 0x02u8 == pulled & 0x02u8
            &&& restored & 0x04u8 == pulled & 0x04u8
            &&& restored & 0x08u8 == pulled & 0x08u8
            &&& restored & 0x10u8 == status & 0x10u8
            &&& restored & 0x40u8 == pulled & 0x40u8
            &&& restored & 0x80u8 == pulled & 0x80u8
        }),
        0x10u8 | 0x20u8 == 0x30u8,
{
}

/// The byte that goes on the stack when the status register is pushed:
/// the flags as they are but for Break, which is pushed as `brk`, and bit 5
/// set. The break instruction and a push of the status register push Break
/// as set, an interrupt pushes it as clear.
pub fn pushed_status(status: Status, brk: bool) -> (pushed: Status)
    ensures
        pushed == status_of(Flags { brk, ..flags_of(status) }),
{
    let assigned: Status = assign_flag(status, Flag::Break, brk);
    proof {
        lemma_status_of_flags_of(assigned);
    }
    assigned | UNUSED_BIT
}

/// The status register after a byte pulled from the stack is restored
/// into it. Break and bit 5 of the pulled byte are ignored: the register
/// keeps its own.
pub fn restored_status(status: Status, pulled: Status) -> (restored: Status)
    ensures
        restored == (pulled & !(BREAK_BIT | UNUSED_BIT)) | (status & (BREAK_BIT | UNUSED_BIT)),
        flags_of(restored) == (Flags { brk: flags_of(status).brk, ..flags_of(pulled) }),
{
    proof {
        lemma_restored_bits(status, pulled);
    }
    (pulled & !(BREAK_BIT | UNUSED_BIT)) | (status & (BREAK_BIT | UNUSED_BIT))
}

/// Tests one flag of a status byte.
pub fn flag_is_set(status: Status, flag: Flag) -> (on: bool)
    ensures
        on == flags_of(status).get(flag),
{
    status & flag.mask() != 0
}

/// The status byte with one flag set to `on`.
pub fn assign_flag(status: Status, flag: Flag, on: bool) -> (assigned: Status)
    ensures
        assigned == if on {
            status | flag.mask_of()
        } else {
            status & !flag.mask_of()
        },
        flags_of(assigned) == flags_of(status).with(flag, on),
{
    proof {
        lemma_assigned_flag(status, flag, on);
    }
    if on {
        status | flag.mask()
    } else {
        status & !flag.mask()
    }
}

} // verus!
