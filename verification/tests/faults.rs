use mos6502::cpu::run::RunSummary;
use mos6502::cpu::types::DecodeFault;
use mos6502::cpu::MOS6502Cpu;

#[test]
fn an_unbound_opcode_produces_a_decode_fault() {
    let mut cpu = MOS6502Cpu::new();
    cpu.load(0x0200, &[0xEA, 0xFF]);
    cpu.set_pc(0x0200);
    cpu.set_a(0x11);
    cpu.set_x(0x22);
    cpu.set_y(0x33);
    assert_eq!(cpu.step(), Ok(2));
    let status: u8 = cpu.status();
    let fault = DecodeFault { opcode: 0xFF, pc: 0x0201 };
    assert_eq!(cpu.step(), Err(fault));
    assert!(cpu.is_halted());
    assert_eq!(cpu.fault(), Some(fault));
    assert_eq!(cpu.pc(), 0x0202);
    assert_eq!(cpu.a(), 0x11);
    assert_eq!(cpu.x(), 0x22);
    assert_eq!(cpu.y(), 0x33);
    assert_eq!(cpu.sp(), 0xFD);
    assert_eq!(cpu.status(), status);
}

#[test]
fn a_halted_processor_does_not_advance() {
    let mut cpu = MOS6502Cpu::new();
    cpu.load(0, &[0x02, 0xA9, 0x55]);
    let fault = DecodeFault { opcode: 0x02, pc: 0 };
    assert_eq!(cpu.step(), Err(fault));
    assert_eq!(cpu.pc(), 1);
    assert_eq!(cpu.step(), Err(fault));
    assert_eq!(cpu.step(), Err(fault));
    assert_eq!(cpu.pc(), 1);
    assert_eq!(cpu.a(), 0);
    let summary = cpu.run(10);
    assert_eq!(summary, RunSummary { instructions: 0, cycles: 0, fault: Some(fault) });
    assert_eq!(cpu.pc(), 1);
    assert_eq!(cpu.a(), 0);
}

#[test]
fn resume_continues_behind_the_unbound_opcode() {
    let mut cpu = MOS6502Cpu::new();
    cpu.load(0, &[0x02, 0xA9, 0x55]);
    assert!(cpu.step().is_err());
    cpu.resume();
    assert!(!cpu.is_halted());
    assert_eq!(cpu.fault(), None);
    assert_eq!(cpu.step(), Ok(2));
    assert_eq!(cpu.a(), 0x55);
    assert_eq!(cpu.pc(), 3);
}

#[test]
fn reset_leaves_the_halt() {
    let mut cpu = MOS6502Cpu::new();
    cpu.load(0, &[0x02]);
    assert!(cpu.step().is_err());
    cpu.poke(0, 0xEA);
    cpu.reset();
    assert!(!cpu.is_halted());
    assert_eq!(cpu.pc(), 0);
    assert_eq!(cpu.step(), Ok(2));
    assert_eq!(cpu.pc(), 1);
}

#[test]
fn a_fault_at_the_last_address_wraps_the_program_counter() {
    let mut cpu = MOS6502Cpu::new();
    cpu.poke(0xFFFF, 0x03);
    cpu.set_pc(0xFFFF);
    assert_eq!(cpu.step(), Err(DecodeFault { opcode: 0x03, pc: 0xFFFF }));
    assert_eq!(cpu.pc(), 0x0000);
}
