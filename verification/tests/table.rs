use mos6502::cpu::instructions::create_instruction_map;
use mos6502::cpu::instructions::AddressingMode;
use mos6502::cpu::instructions::Instruction;
use mos6502::cpu::instructions::NoArgumentInstructionOp;
use mos6502::cpu::instructions::SingleArgumentInstructionOp;

#[test]
fn the_table_binds_load_accumulator_immediate() {
    let map = create_instruction_map();
    assert_eq!(
        map.get(0xA9),
        Instruction::SingleArgument {
            op_code: 0xA9,
            mnemonic: "LDA",
            operation: SingleArgumentInstructionOp::LoadAccumulator,
            addressing_mode: AddressingMode::Immediate,
            cycles: 2,
        }
    );
}

#[test]
fn the_table_binds_instructions_without_operand() {
    let map = create_instruction_map();
    assert_eq!(
        map.get(0xEA),
        Instruction::NoArgument {
            op_code: 0xEA,
            mnemonic: "NOP",
            operation: NoArgumentInstructionOp::NoOperation,
            cycles: 2,
        }
    );
    assert_eq!(
        map.get(0x00),
        Instruction::NoArgument {
            op_code: 0x00,
            mnemonic: "BRK",
            operation: NoArgumentInstructionOp::ForceBreak,
            cycles: 7,
        }
    );
    assert_eq!(
        map.get(0x0A),
        Instruction::NoArgument {
            op_code: 0x0A,
            mnemonic: "ASL",
            operation: NoArgumentInstructionOp::ShiftLeftAccumulator,
            cycles: 2,
        }
    );
}

#[test]
fn unbound_opcodes_are_invalid() {
    let map = create_instruction_map();
    for op_code in [0x02u8, 0x03, 0x04, 0x07, 0x0B, 0x1A, 0x80, 0x89, 0x9E, 0xDA, 0xFA, 0xFF] {
        assert_eq!(map.get(op_code), Instruction::Invalid);
    }
}

#[test]
fn the_table_binds_151_opcodes() {
    let map = create_instruction_map();
    let mut without_operand: u32 = 0;
    let mut with_operand: u32 = 0;
    let mut invalid: u32 = 0;
    for op_code in 0..=255u8 {
        match map.get(op_code) {
            Instruction::Invalid => invalid += 1,
            Instruction::NoArgument { .. } => without_operand += 1,
            Instruction::SingleArgument { .. } => with_operand += 1,
        }
    }
    assert_eq!(invalid, 105);
    assert_eq!(without_operand, 29);
    assert_eq!(with_operand, 122);
}

#[test]
fn every_entry_carries_its_own_opcode_and_the_name_of_its_operation() {
    let map = create_instruction_map();
    for code in 0..=255u8 {
        match map.get(code) {
            Instruction::Invalid => {}
            Instruction::NoArgument { op_code, mnemonic, operation, cycles } => {
                assert_eq!(op_code, code);
                assert_eq!(mnemonic, operation.mnemonic());
                assert_eq!(mnemonic.len(), 3);
                assert!((2..=7).contains(&cycles));
            }
            Instruction::SingleArgument { op_code, mnemonic, operation, cycles, .. } => {
                assert_eq!(op_code, code);
                assert_eq!(mnemonic, operation.mnemonic());
                assert_eq!(mnemonic.len(), 3);
                assert!((2..=7).contains(&cycles));
            }
        }
    }
}

#[test]
fn base_cycles_follow_the_documented_timing() {
    let map = create_instruction_map();
    let expected: [(u8, &str, u8); 40] = [
        (0x69, "ADC", 2),
        (0x65, "ADC", 3),
        (0x75, "ADC", 4),
        (0x6D, "ADC", 4),
        (0x7D, "ADC", 4),
        (0x79, "ADC", 4),
        (0x61, "ADC", 6),
        (0x71, "ADC", 5),
        (0x85, "STA", 3),
        (0x95, "STA", 4),
        (0x8D, "STA", 4),
        (0x9D, "STA", 5),
        (0x99, "STA", 5),
        (0x81, "STA", 6),
        (0x91, "STA", 6),
        (0x06, "ASL", 5),
        (0x16, "ASL", 6),
        (0x0E, "ASL", 6),
        (0x1E, "ASL", 7),
        (0xE6, "INC", 5),
        (0xFE, "INC", 7),
        (0x4C, "JMP", 3),
        (0x6C, "JMP", 5),
        (0x20, "JSR", 6),
        (0x60, "RTS", 6),
        (0x40, "RTI", 6),
        (0x48, "PHA", 3),
        (0x08, "PHP", 3),
        (0x68, "PLA", 4),
        (0x28, "PLP", 4),
        (0x90, "BCC", 2),
        (0xF0, "BEQ", 2),
        (0x24, "BIT", 3),
        (0x2C, "BIT", 4),
        (0xC9, "CMP", 2),
        (0xE0, "CPX", 2),
        (0xCC, "CPY", 4),
        (0xBE, "LDX", 4),
        (0xBC, "LDY", 4),
        (0x9A, "TXS", 2),
    ];
    for (code, name, cost) in expected {
        match map.get(code) {
            Instruction::Invalid => panic!("opcode {code:#04X} is not bound"),
            Instruction::NoArgument { mnemonic, cycles, .. } => {
                assert_eq!((mnemonic, cycles), (name, cost));
            }
            Instruction::SingleArgument { mnemonic, cycles, .. } => {
                assert_eq!((mnemonic, cycles), (name, cost));
            }
        }
    }
}

#[test]
fn addressing_modes_are_bound_as_documented() {
    let map = create_instruction_map();
    let expected: [(u8, SingleArgumentInstructionOp, AddressingMode); 14] = [
        (0xA5, SingleArgumentInstructionOp::LoadAccumulator, AddressingMode::ZeroPage),
        (0xB5, SingleArgumentInstructionOp::LoadAccumulator, AddressingMode::ZeroPageX),
        (0xB6, SingleArgumentInstructionOp::LoadX, AddressingMode::ZeroPageY),
        (0x96, SingleArgumentInstructionOp::StoreX, AddressingMode::ZeroPageY),
        (0xAD, SingleArgumentInstructionOp::LoadAccumulator, AddressingMode::Absolute),
        (0xBD, SingleArgumentInstructionOp::LoadAccumulator, AddressingMode::AbsoluteX),
        (0xB9, SingleArgumentInstructionOp::LoadAccumulator, AddressingMode::AbsoluteY),
        (0xBE, SingleArgumentInstructionOp::LoadX, AddressingMode::AbsoluteY),
        (0x6C, SingleArgumentInstructionOp::Jump, AddressingMode::Indirect),
        (0xA1, SingleArgumentInstructionOp::LoadAccumulator, AddressingMode::IndirectX),
        (0xB1, SingleArgumentInstructionOp::LoadAccumulator, AddressingMode::IndirectY),
        (0xD0, SingleArgumentInstructionOp::BranchOnNotEqual, AddressingMode::Relative),
        (0x49, SingleArgumentInstructionOp::ExclusiveOr, AddressingMode::Immediate),
        (0x2C, SingleArgumentInstructionOp::BitTest, AddressingMode::Absolute),
    ];
    for (code, operation, mode) in expected {
        match map.get(code) {
            Instruction::SingleArgument { operation: bound, addressing_mode, .. } => {
                assert_eq!((bound, addressing_mode), (operation, mode));
            }
            other => panic!("opcode {code:#04X} is bound to {other:?}"),
        }
    }
}

#[test]
fn only_operations_that_read_pay_for_a_page_crossing() {
    assert!(SingleArgumentInstructionOp::LoadAccumulator.reads_operand());
    assert!(SingleArgumentInstructionOp::AddWithCarry.reads_operand());
    assert!(SingleArgumentInstructionOp::Compare.reads_operand());
    assert!(SingleArgumentInstructionOp::BitTest.reads_operand());
    assert!(!SingleArgumentInstructionOp::StoreAccumulator.reads_operand());
    assert!(!SingleArgumentInstructionOp::ShiftLeft.reads_operand());
    assert!(!SingleArgumentInstructionOp::Increment.reads_operand());
    assert!(!SingleArgumentInstructionOp::Jump.reads_operand());
    assert!(!SingleArgumentInstructionOp::BranchOnEqual.reads_operand());
}

#[test]
fn every_instruction_takes_two_to_seven_cycles() {
    let map = create_instruction_map();
    for code in 0..=255u8 {
        if map.get(code) == Instruction::Invalid {
            continue;
        }
        for (operand, index, status) in
            [([0x00u8, 0x00u8], 0x00u8, 0x00u8), ([0xFF, 0xFF], 0xFF, 0xFF), ([0x80, 0x10], 0x90, 0x5A)]
        {
            let mut cpu = mos6502::cpu::MOS6502Cpu::new();
            cpu.load(0x08FD, &[code, operand[0], operand[1]]);
            cpu.set_pc(0x08FD);
            cpu.set_x(index);
            cpu.set_y(index);
            cpu.set_status(status);
            let cycles = cpu.step();
            assert!(matches!(cycles, Ok(2..=7)), "opcode {code:#04X} took {cycles:?}");
        }
    }
}

#[test]
fn instructions_that_do_not_transfer_control_advance_by_their_length() {
    let map = create_instruction_map();
    let mut checked: u32 = 0;
    for code in 0..=255u8 {
        let length: u16 = match map.get(code) {
            Instruction::Invalid => continue,
            Instruction::NoArgument { operation, .. } => match operation {
                NoArgumentInstructionOp::ForceBreak
                | NoArgumentInstructionOp::ReturnFromInterrupt
                | NoArgumentInstructionOp::ReturnFromSubroutine => continue,
                _ => 1,
            },
            Instruction::SingleArgument { operation, addressing_mode, .. } => {
                if operation.branch_condition().is_some()
                    || operation == SingleArgumentInstructionOp::Jump
                    || operation == SingleArgumentInstructionOp::JumpToSubroutine
                {
                    continue;
                }
                1 + addressing_mode.operand_width()
            }
        };
        for operand in [[0x00u8, 0x00u8], [0xFF, 0xFF], [0x34, 0x12]] {
            let mut cpu = mos6502::cpu::MOS6502Cpu::new();
            cpu.load(0x0800, &[code, operand[0], operand[1]]);
            cpu.set_pc(0x0800);
            cpu.set_x(0x07);
            cpu.set_y(0x09);
            assert!(cpu.step().is_ok());
            assert_eq!(cpu.pc(), 0x0800 + length, "opcode {code:#04X}");
        }
        checked += 1;
    }
    assert_eq!(checked, 151 - 3 - 8 - 2 - 1);
}
