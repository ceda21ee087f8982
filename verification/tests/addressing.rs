use mos6502::cpu::instructions::AddressingMode;
use mos6502::cpu::MOS6502Cpu;

fn processor_at(pc: u16, operand: &[u8]) -> MOS6502Cpu {
    let mut cpu = MOS6502Cpu::new();
    cpu.load(pc, operand);
    cpu.set_pc(pc);
    cpu
}

#[test]
fn immediate_yields_the_address_of_the_operand() {
    let mut cpu = processor_at(0x0400, &[0x77]);
    assert_eq!(cpu.addressing_mode_immediate(), (0x0400, false));
    assert_eq!(cpu.pc(), 0x0401);
}

#[test]
fn zero_page_yields_the_operand_as_address() {
    let mut cpu = processor_at(0x0400, &[0x77]);
    assert_eq!(cpu.addressing_mode_zero_page(), (0x0077, false));
    assert_eq!(cpu.pc(), 0x0401);
}

#[test]
fn zero_page_x_adds_x() {
    let mut cpu = processor_at(0x0400, &[0x20]);
    cpu.set_x(0x05);
    cpu.set_y(0x50);
    assert_eq!(cpu.addressing_mode_zero_page_x(), (0x0025, false));
    assert_eq!(cpu.pc(), 0x0401);
}

#[test]
fn zero_page_x_wraps_within_the_zero_page() {
    let mut cpu = processor_at(0x0400, &[0xFF]);
    cpu.set_x(0x01);
    assert_eq!(cpu.addressing_mode_zero_page_x(), (0x0000, false));
    let mut cpu = processor_at(0x0400, &[0x80]);
    cpu.set_x(0xFF);
    assert_eq!(cpu.addressing_mode_zero_page_x(), (0x007F, false));
}

#[test]
fn zero_page_y_adds_y_and_wraps() {
    let mut cpu = processor_at(0x0400, &[0x20]);
    cpu.set_y(0x05);
    cpu.set_x(0x50);
    assert_eq!(cpu.addressing_mode_zero_page_y(), (0x0025, false));
    assert_eq!(cpu.pc(), 0x0401);
    let mut cpu = processor_at(0x0400, &[0xFF]);
    cpu.set_y(0x01);
    assert_eq!(cpu.addressing_mode_zero_page_y(), (0x0000, false));
    let mut cpu = processor_at(0x0400, &[0xFE]);
    cpu.set_y(0xFF);
    assert_eq!(cpu.addressing_mode_zero_page_y(), (0x00FD, false));
}

#[test]
fn zero_page_indexing_wraps_for_every_combination() {
    for base in 0..=255u8 {
        for index in [0u8, 1, 2, 0x7F, 0x80, 0xFE, 0xFF] {
            let expected = u16::from(base.wrapping_add(index));
            let mut cpu = processor_at(0x0400, &[base]);
            cpu.set_x(index);
            assert_eq!(cpu.addressing_mode_zero_page_x(), (expected, false));
            let mut cpu = processor_at(0x0400, &[base]);
            cpu.set_y(index);
            assert_eq!(cpu.addressing_mode_zero_page_y(), (expected, false));
            assert!(expected < 0x0100);
        }
    }
}

#[test]
fn absolute_reads_a_little_endian_word() {
    let mut cpu = processor_at(0x0400, &[0x34, 0x12]);
    assert_eq!(cpu.addressing_mode_absolute(), (0x1234, false));
    assert_eq!(cpu.pc(), 0x0402);
}

#[test]
fn absolute_x_signals_a_page_crossing() {
    let mut cpu = processor_at(0x0400, &[0xFF, 0x02]);
    cpu.set_x(0x01);
    assert_eq!(cpu.addressing_mode_absolute_x(), (0x0300, true));
    assert_eq!(cpu.pc(), 0x0402);
    let mut cpu = processor_at(0x0400, &[0x00, 0x02]);
    cpu.set_x(0x01);
    assert_eq!(cpu.addressing_mode_absolute_x(), (0x0201, false));
    let mut cpu = processor_at(0x0400, &[0x00, 0x02]);
    cpu.set_x(0xFF);
    assert_eq!(cpu.addressing_mode_absolute_x(), (0x02FF, false));
    let mut cpu = processor_at(0x0400, &[0x01, 0x02]);
    cpu.set_x(0xFF);
    assert_eq!(cpu.addressing_mode_absolute_x(), (0x0300, true));
}

#[test]
fn absolute_y_signals_a_page_crossing() {
    let mut cpu = processor_at(0x0400, &[0xFF, 0x02]);
    cpu.set_y(0x01);
    assert_eq!(cpu.addressing_mode_absolute_y(), (0x0300, true));
    assert_eq!(cpu.pc(), 0x0402);
    let mut cpu = processor_at(0x0400, &[0x00, 0x02]);
    cpu.set_y(0x01);
    assert_eq!(cpu.addressing_mode_absolute_y(), (0x0201, false));
}

#[test]
fn absolute_indexing_wraps_at_the_end_of_the_address_space() {
    let mut cpu = processor_at(0x0400, &[0xFF, 0xFF]);
    cpu.set_x(0x02);
    assert_eq!(cpu.addressing_mode_absolute_x(), (0x0001, true));
    let mut cpu = processor_at(0x0400, &[0xF0, 0xFF]);
    cpu.set_y(0x20);
    assert_eq!(cpu.addressing_mode_absolute_y(), (0x0010, true));
}

#[test]
fn indirect_reads_the_target_through_the_pointer() {
    let mut cpu = processor_at(0x0400, &[0x20, 0x03]);
    cpu.poke(0x0320, 0x78);
    cpu.poke(0x0321, 0x56);
    assert_eq!(cpu.addressing_mode_indirect(), (0x5678, false));
    assert_eq!(cpu.pc(), 0x0402);
}

#[test]
fn indirect_wraps_within_the_page_of_the_pointer() {
    let mut cpu = processor_at(0x0400, &[0xFF, 0x02]);
    cpu.poke(0x02FF, 0x34);
    cpu.poke(0x0200, 0x12);
    cpu.poke(0x0300, 0x56);
    assert_eq!(cpu.addressing_mode_indirect(), (0x1234, false));
    assert_eq!(cpu.pc(), 0x0402);
}

#[test]
fn indirect_with_a_pointer_just_below_the_page_end_does_not_wrap() {
    let mut cpu = processor_at(0x0400, &[0xFE, 0x02]);
    cpu.poke(0x02FE, 0x34);
    cpu.poke(0x02FF, 0x12);
    cpu.poke(0x0200, 0x56);
    assert_eq!(cpu.addressing_mode_indirect(), (0x1234, false));
}

#[test]
fn indirect_x_reads_the_pointer_from_the_zero_page() {
    let mut cpu = processor_at(0x0400, &[0x20]);
    cpu.set_x(0x04);
    cpu.poke(0x0024, 0x74);
    cpu.poke(0x0025, 0x20);
    assert_eq!(cpu.addressing_mode_indirect_x(), (0x2074, false));
    assert_eq!(cpu.pc(), 0x0401);
}

#[test]
fn indirect_x_wraps_the_pointer_and_its_second_byte() {
    // operand + X wraps to 0xFF, and the high byte comes from 0x00
    let mut cpu = processor_at(0x0400, &[0x80]);
    cpu.set_x(0x7F);
    cpu.poke(0x00FF, 0xCD);
    cpu.poke(0x0000, 0xAB);
    cpu.poke(0x0100, 0xEE);
    assert_eq!(cpu.addressing_mode_indirect_x(), (0xABCD, false));
    // operand + X wraps past 0xFF
    let mut cpu = processor_at(0x0400, &[0xFF]);
    cpu.set_x(0x05);
    cpu.poke(0x0004, 0x11);
    cpu.poke(0x0005, 0x22);
    assert_eq!(cpu.addressing_mode_indirect_x(), (0x2211, false));
}

#[test]
fn indirect_y_adds_y_to_the_base() {
    let mut cpu = processor_at(0x0400, &[0x86]);
    cpu.set_y(0x10);
    cpu.set_x(0x33);
    cpu.poke(0x0086, 0x28);
    cpu.poke(0x0087, 0x40);
    assert_eq!(cpu.addressing_mode_indirect_y(), (0x4038, false));
    assert_eq!(cpu.pc(), 0x0401);
}

#[test]
fn indirect_y_signals_a_page_crossing() {
    let mut cpu = processor_at(0x0400, &[0x10]);
    cpu.set_y(0x01);
    cpu.poke(0x0010, 0xFF);
    cpu.poke(0x0011, 0x02);
    assert_eq!(cpu.addressing_mode_indirect_y(), (0x0300, true));
    let mut cpu = processor_at(0x0400, &[0x10]);
    cpu.set_y(0x01);
    cpu.poke(0x0010, 0x00);
    cpu.poke(0x0011, 0x02);
    assert_eq!(cpu.addressing_mode_indirect_y(), (0x0201, false));
}

#[test]
fn indirect_y_reads_the_second_pointer_byte_within_the_zero_page() {
    let mut cpu = processor_at(0x0400, &[0xFF]);
    cpu.set_y(0x00);
    cpu.poke(0x00FF, 0x34);
    cpu.poke(0x0000, 0x12);
    cpu.poke(0x0100, 0x99);
    assert_eq!(cpu.addressing_mode_indirect_y(), (0x1234, false));
}

#[test]
fn relative_adds_a_signed_offset_to_the_next_instruction() {
    let mut cpu = processor_at(0x0400, &[0x10]);
    assert_eq!(cpu.addressing_mode_relative(), (0x0411, false));
    assert_eq!(cpu.pc(), 0x0401);
    let mut cpu = processor_at(0x0400, &[0xFE]);
    assert_eq!(cpu.addressing_mode_relative(), (0x03FF, false));
    let mut cpu = processor_at(0x0400, &[0x80]);
    assert_eq!(cpu.addressing_mode_relative(), (0x0381, false));
    let mut cpu = processor_at(0x0400, &[0x7F]);
    assert_eq!(cpu.addressing_mode_relative(), (0x0480, false));
    let mut cpu = processor_at(0x0400, &[0x00]);
    assert_eq!(cpu.addressing_mode_relative(), (0x0401, false));
}

#[test]
fn relative_wraps_at_both_ends_of_the_address_space() {
    let mut cpu = processor_at(0x0000, &[0x80]);
    assert_eq!(cpu.addressing_mode_relative(), (0xFF81, false));
    let mut cpu = processor_at(0xFFF0, &[0x7F]);
    assert_eq!(cpu.addressing_mode_relative(), (0x0070, false));
}

#[test]
fn operands_are_fetched_across_the_end_of_the_address_space() {
    let mut cpu = MOS6502Cpu::new();
    cpu.poke(0xFFFF, 0x34);
    cpu.poke(0x0000, 0x12);
    cpu.set_pc(0xFFFF);
    assert_eq!(cpu.addressing_mode_absolute(), (0x1234, false));
    assert_eq!(cpu.pc(), 0x0001);
}

#[test]
fn resolve_dispatches_on_the_mode() {
    let modes = [
        (AddressingMode::Immediate, 1u16),
        (AddressingMode::ZeroPage, 1),
        (AddressingMode::ZeroPageX, 1),
        (AddressingMode::ZeroPageY, 1),
        (AddressingMode::Absolute, 2),
        (AddressingMode::AbsoluteX, 2),
        (AddressingMode::AbsoluteY, 2),
        (AddressingMode::Indirect, 2),
        (AddressingMode::IndirectX, 1),
        (AddressingMode::IndirectY, 1),
        (AddressingMode::Relative, 1),
    ];
    for (mode, width) in modes {
        assert_eq!(mode.operand_width(), width);
        for operand in [[0x00u8, 0x00], [0xFF, 0xFF], [0x12, 0x80]] {
            let mut cpu = processor_at(0x0400, &operand);
            cpu.set_x(0x03);
            cpu.set_y(0x04);
            cpu.resolve(mode);
            assert_eq!(cpu.pc(), 0x0400 + width);
            assert_eq!(cpu.x(), 0x03);
            assert_eq!(cpu.y(), 0x04);
            assert_eq!(cpu.a(), 0);
            assert_eq!(cpu.sp(), 0xFD);
        }
    }
    let mut cpu = processor_at(0x0400, &[0x10, 0x20]);
    cpu.set_x(0x01);
    assert_eq!(cpu.resolve(AddressingMode::AbsoluteX), (0x2011, false));
    let mut cpu = processor_at(0x0400, &[0x10, 0x20]);
    cpu.set_y(0x02);
    assert_eq!(cpu.resolve(AddressingMode::ZeroPageY), (0x0012, false));
}

#[test]
fn fetch_argument_reads_the_operand() {
    let mut cpu = processor_at(0x0400, &[0xFF, 0x02]);
    cpu.set_y(0x01);
    cpu.poke(0x0300, 0x5A);
    assert_eq!(cpu.fetch_argument(AddressingMode::AbsoluteY), (0x5A, true));
    assert_eq!(cpu.pc(), 0x0402);
    let mut cpu = processor_at(0x0400, &[0x99]);
    assert_eq!(cpu.fetch_argument(AddressingMode::Immediate), (0x99, false));
    assert_eq!(cpu.pc(), 0x0401);
}

#[test]
fn fetch_reads_at_the_program_counter_and_moves_past() {
    let mut cpu = processor_at(0x0400, &[0x12, 0x34, 0x56]);
    assert_eq!(cpu.fetch(), 0x12);
    assert_eq!(cpu.pc(), 0x0401);
    assert_eq!(cpu.fetch_word(), 0x5634);
    assert_eq!(cpu.pc(), 0x0403);
    cpu.poke(0x00FF, 0xCD);
    cpu.poke(0x0000, 0xAB);
    assert_eq!(cpu.read_zero_page_word(0xFF), 0xABCD);
}

#[test]
fn the_program_counter_moves_by_the_width_plus_one_for_the_opcode() {
    // one instruction of each addressing mode that does not transfer control
    let cases: [(u8, u16); 10] = [
        (0xA9, 2), // LDA immediate
        (0xA5, 2), // LDA zero page
        (0xB5, 2), // LDA zero page,X
        (0xB6, 2), // LDX zero page,Y
        (0xAD, 3), // LDA absolute
        (0xBD, 3), // LDA absolute,X
        (0xB9, 3), // LDA absolute,Y
        (0xA1, 2), // LDA (indirect,X)
        (0xB1, 2), // LDA (indirect),Y
        (0xEA, 1), // NOP
    ];
    for (opcode, length) in cases {
        for operand in [[0x00u8, 0x00], [0xFF, 0xFF], [0x42, 0x24]] {
            let mut cpu = MOS6502Cpu::new();
            cpu.load(0x0700, &[opcode, operand[0], operand[1]]);
            cpu.set_pc(0x0700);
            assert!(cpu.step().is_ok());
            assert_eq!(cpu.pc(), 0x0700 + length);
        }
    }
}
