use mos6502::cpu::flags::Flag;
use mos6502::cpu::interrupt::Interrupt;
use mos6502::cpu::MOS6502Cpu;

fn branch_at(pc: u16, opcode: u8, offset: u8, status: u8) -> MOS6502Cpu {
    let mut cpu = MOS6502Cpu::new();
    cpu.load(pc, &[opcode, offset]);
    cpu.set_pc(pc);
    cpu.set_status(status);
    cpu
}

#[test]
fn a_branch_not_taken_costs_two_cycles() {
    // BNE with Zero set
    let mut cpu = branch_at(0x0600, 0xD0, 0x10, 0x02);
    assert_eq!(cpu.step(), Ok(2));
    assert_eq!(cpu.pc(), 0x0602);
}

#[test]
fn a_branch_taken_costs_three_cycles() {
    // BNE with Zero clear
    let mut cpu = branch_at(0x0600, 0xD0, 0x10, 0x00);
    assert_eq!(cpu.step(), Ok(3));
    assert_eq!(cpu.pc(), 0x0612);
    // backwards within the page
    let mut cpu = branch_at(0x0610, 0xD0, 0xF0, 0x00);
    assert_eq!(cpu.step(), Ok(3));
    assert_eq!(cpu.pc(), 0x0602);
}

#[test]
fn a_branch_into_another_page_costs_four_cycles() {
    // forwards: the next instruction is at 0x06F2, the target at 0x0712
    let mut cpu = branch_at(0x06F0, 0xD0, 0x20, 0x00);
    assert_eq!(cpu.step(), Ok(4));
    assert_eq!(cpu.pc(), 0x0712);
    // backwards: the next instruction is at 0x0702, the target at 0x06FF
    let mut cpu = branch_at(0x0700, 0xD0, 0xFD, 0x00);
    assert_eq!(cpu.step(), Ok(4));
    assert_eq!(cpu.pc(), 0x06FF);
}

#[test]
fn the_page_of_a_branch_is_that_of_the_next_instruction() {
    // the branch lies in page 6, the next instruction and the target in
    // page 7: no page is crossed
    let mut cpu = branch_at(0x06FE, 0xD0, 0x10, 0x00);
    assert_eq!(cpu.step(), Ok(3));
    assert_eq!(cpu.pc(), 0x0710);
    // not taken from the same place
    let mut cpu = branch_at(0x06FE, 0xD0, 0x10, 0x02);
    assert_eq!(cpu.step(), Ok(2));
    assert_eq!(cpu.pc(), 0x0700);
}

#[test]
fn each_branch_tests_its_flag() {
    let cases: [(u8, Flag, bool); 8] = [
        (0x90, Flag::Carry, false),
        (0xB0, Flag::Carry, true),
        (0xF0, Flag::Zero, true),
        (0xD0, Flag::Zero, false),
        (0x30, Flag::Negative, true),
        (0x10, Flag::Negative, false),
        (0x50, Flag::Overflow, false),
        (0x70, Flag::Overflow, true),
    ];
    for (opcode, flag, expected) in cases {
        for value in [false, true] {
            for background in [0x00u8, 0xFF] {
                let mut cpu = branch_at(0x0600, opcode, 0x04, background);
                cpu.assign_flag(flag, value);
                let status: u8 = cpu.status();
                if value == expected {
                    assert_eq!(cpu.step(), Ok(3));
                    assert_eq!(cpu.pc(), 0x0606);
                } else {
                    assert_eq!(cpu.step(), Ok(2));
                    assert_eq!(cpu.pc(), 0x0602);
                }
                assert_eq!(cpu.status(), status);
                assert_eq!(cpu.sp(), 0xFD);
            }
        }
    }
}

#[test]
fn branch_through_its_handler() {
    let mut cpu = MOS6502Cpu::new();
    cpu.set_pc(0x06F2);
    assert_eq!(cpu.branch(Flag::Carry, true, 0x0712), 0);
    assert_eq!(cpu.pc(), 0x06F2);
    assert_eq!(cpu.branch(Flag::Carry, false, 0x06F8), 1);
    assert_eq!(cpu.pc(), 0x06F8);
    assert_eq!(cpu.branch(Flag::Interrupt, true, 0x0712), 2);
    assert_eq!(cpu.pc(), 0x0712);
}

#[test]
fn break_enters_the_interrupt_handler() {
    let mut cpu = MOS6502Cpu::new();
    cpu.load(0x0600, &[0x00, 0xFF, 0xEA]);
    cpu.load(0x9000, &[0x40]);
    cpu.poke(0xFFFE, 0x00);
    cpu.poke(0xFFFF, 0x90);
    cpu.set_pc(0x0600);
    cpu.set_status(0x43);
    assert_eq!(cpu.step(), Ok(7));
    assert_eq!(cpu.pc(), 0x9000);
    assert_eq!(cpu.sp(), 0xFA);
    // the address pushed skips the byte after the opcode
    assert_eq!(cpu.peek(0x01FD), 0x06);
    assert_eq!(cpu.peek(0x01FC), 0x02);
    // the status pushed has Break and bit 5 set
    assert_eq!(cpu.peek(0x01FB), 0x73);
    assert!(cpu.flag(Flag::Interrupt));
    assert!(!cpu.flag(Flag::Break));
    assert_eq!(cpu.status(), 0x67);
    // RTI restores flags and program counter
    assert_eq!(cpu.step(), Ok(6));
    assert_eq!(cpu.pc(), 0x0602);
    assert_eq!(cpu.sp(), 0xFD);
    assert_eq!(cpu.status(), 0x63);
    assert_eq!(cpu.step(), Ok(2));
}

#[test]
fn a_non_maskable_interrupt_is_always_taken() {
    let mut cpu = MOS6502Cpu::new();
    cpu.poke(0xFFFA, 0x00);
    cpu.poke(0xFFFB, 0x80);
    cpu.set_pc(0x1234);
    cpu.set_status(0x85);
    assert_eq!(cpu.interrupt(Interrupt::NonMaskable), 7);
    assert_eq!(cpu.pc(), 0x8000);
    assert_eq!(cpu.sp(), 0xFA);
    assert_eq!(cpu.peek(0x01FD), 0x12);
    assert_eq!(cpu.peek(0x01FC), 0x34);
    // the status pushed has Break clear and bit 5 set
    assert_eq!(cpu.peek(0x01FB), 0xA5);
    assert!(cpu.flag(Flag::Interrupt));
    assert_eq!(cpu.status(), 0xA5);
    assert_eq!((cpu.a(), cpu.x(), cpu.y()), (0, 0, 0));
}

#[test]
fn an_interrupt_request_is_taken_when_interrupts_are_enabled() {
    let mut cpu = MOS6502Cpu::new();
    cpu.poke(0xFFFE, 0x00);
    cpu.poke(0xFFFF, 0x90);
    cpu.set_pc(0x1234);
    cpu.set_status(0x01);
    assert_eq!(cpu.interrupt(Interrupt::Request), 7);
    assert_eq!(cpu.pc(), 0x9000);
    assert_eq!(cpu.sp(), 0xFA);
    assert_eq!(cpu.peek(0x01FD), 0x12);
    assert_eq!(cpu.peek(0x01FC), 0x34);
    assert_eq!(cpu.peek(0x01FB), 0x21);
    assert_eq!(cpu.status(), 0x25);
}

#[test]
fn an_interrupt_request_is_ignored_when_interrupts_are_disabled() {
    let mut cpu = MOS6502Cpu::new();
    cpu.poke(0xFFFE, 0x00);
    cpu.poke(0xFFFF, 0x90);
    cpu.set_pc(0x1234);
    assert!(cpu.flag(Flag::Interrupt));
    assert_eq!(cpu.interrupt(Interrupt::Request), 0);
    assert_eq!(cpu.pc(), 0x1234);
    assert_eq!(cpu.sp(), 0xFD);
    assert_eq!(cpu.status(), 0x24);
    assert_eq!(cpu.peek(0x01FD), 0);
}

#[test]
fn a_halted_processor_takes_no_interrupt() {
    let mut cpu = MOS6502Cpu::new();
    cpu.poke(0xFFFA, 0x00);
    cpu.poke(0xFFFB, 0x80);
    cpu.poke(0x0000, 0x02);
    assert!(cpu.step().is_err());
    assert_eq!(cpu.interrupt(Interrupt::NonMaskable), 0);
    assert_eq!(cpu.pc(), 0x0001);
    assert_eq!(cpu.sp(), 0xFD);
    assert!(cpu.is_halted());
}

#[test]
fn an_interrupt_handler_returns_to_the_interrupted_program() {
    let mut cpu = MOS6502Cpu::new();
    cpu.load(0x0600, &[0x58, 0xA9, 0x01, 0xA9, 0x02]); // CLI, LDA #1, LDA #2
    cpu.load(0x9000, &[0xE8, 0x40]); // INX, RTI
    cpu.poke(0xFFFE, 0x00);
    cpu.poke(0xFFFF, 0x90);
    cpu.set_pc(0x0600);
    assert_eq!(cpu.step(), Ok(2));
    assert_eq!(cpu.step(), Ok(2));
    assert_eq!(cpu.interrupt(Interrupt::Request), 7);
    assert_eq!(cpu.step(), Ok(2));
    assert_eq!(cpu.step(), Ok(6));
    assert_eq!(cpu.pc(), 0x0603);
    assert!(!cpu.flag(Flag::Interrupt));
    assert_eq!(cpu.step(), Ok(2));
    assert_eq!(cpu.a(), 2);
    assert_eq!(cpu.x(), 1);
    assert_eq!(cpu.sp(), 0xFD);
}

#[test]
fn vectors_are_where_the_hardware_has_them() {
    assert_eq!(Interrupt::NonMaskable.vector(), 0xFFFA);
    assert_eq!(Interrupt::Request.vector(), 0xFFFE);
    let mut cpu = MOS6502Cpu::new();
    cpu.poke(0xFFFC, 0xCD);
    cpu.poke(0xFFFD, 0xAB);
    cpu.reset();
    assert_eq!(cpu.pc(), 0xABCD);
    cpu.enter_interrupt(0x1122, true, 0xFFFC);
    assert_eq!(cpu.pc(), 0xABCD);
    assert_eq!(cpu.peek(0x01FD), 0x11);
    assert_eq!(cpu.peek(0x01FC), 0x22);
    assert_eq!(cpu.peek(0x01FB), 0x34);
    cpu.return_from_interrupt();
    assert_eq!(cpu.pc(), 0x1122);
    cpu.set_pc(0x0600);
    cpu.force_break();
    assert_eq!(cpu.peek(0x01FC), 0x01);
}
