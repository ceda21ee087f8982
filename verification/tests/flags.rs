use mos6502::cpu::flags::assign_flag;
use mos6502::cpu::flags::flag_is_set;
use mos6502::cpu::flags::pushed_status;
use mos6502::cpu::flags::restored_status;
use mos6502::cpu::flags::Flag;
use mos6502::cpu::MOS6502Cpu;

const FLAGS: [(Flag, u8); 7] = [
    (Flag::Carry, 0x01),
    (Flag::Zero, 0x02),
    (Flag::Interrupt, 0x04),
    (Flag::Decimal, 0x08),
    (Flag::Break, 0x10),
    (Flag::Overflow, 0x40),
    (Flag::Negative, 0x80),
];

#[test]
fn each_flag_has_its_bit() {
    for (flag, mask) in FLAGS {
        assert_eq!(flag.mask(), mask);
        assert!(flag_is_set(mask, flag));
        assert!(!flag_is_set(!mask, flag));
        assert_eq!(assign_flag(0x00, flag, true), mask);
        assert_eq!(assign_flag(0xFF, flag, false), !mask);
    }
}

#[test]
fn setting_a_flag_leaves_the_others() {
    for (flag, mask) in FLAGS {
        for status in [0x00u8, 0x20, 0x24, 0xA5, 0x5A, 0xFF] {
            let mut cpu = MOS6502Cpu::new();
            cpu.set_status(status);
            cpu.set_flag(flag);
            assert!(cpu.flag(flag));
            assert_eq!(cpu.status(), status | mask | 0x20);
            for (other, _) in FLAGS {
                if other != flag {
                    assert_eq!(cpu.flag(other), flag_is_set(status, other));
                }
            }
        }
    }
}

#[test]
fn clearing_a_flag_leaves_the_others() {
    for (flag, mask) in FLAGS {
        for status in [0x00u8, 0x20, 0x24, 0xA5, 0x5A, 0xFF] {
            let mut cpu = MOS6502Cpu::new();
            cpu.set_status(status);
            cpu.clear_flag(flag);
            assert!(!cpu.flag(flag));
            assert_eq!(cpu.status(), (status & !mask) | 0x20);
            for (other, _) in FLAGS {
                if other != flag {
                    assert_eq!(cpu.flag(other), flag_is_set(status, other));
                }
            }
        }
    }
}

#[test]
fn flag_operations_leave_registers_and_memory() {
    let mut cpu = MOS6502Cpu::new();
    cpu.set_a(1);
    cpu.set_x(2);
    cpu.set_y(3);
    cpu.set_pc(0x1234);
    cpu.set_sp(0x80);
    cpu.poke(0x0001, 0x77);
    cpu.set_flag(Flag::Carry);
    cpu.clear_flag(Flag::Interrupt);
    cpu.assign_flag(Flag::Overflow, true);
    assert_eq!((cpu.a(), cpu.x(), cpu.y(), cpu.pc(), cpu.sp()), (1, 2, 3, 0x1234, 0x80));
    assert_eq!(cpu.peek(0x0001), 0x77);
    assert_eq!(cpu.status(), 0x20 | 0x01 | 0x40);
}

#[test]
fn the_unused_bit_always_reads_as_set() {
    let mut cpu = MOS6502Cpu::new();
    assert_eq!(cpu.status() & 0x20, 0x20);
    cpu.set_status(0x00);
    assert_eq!(cpu.status(), 0x20);
    cpu.set_status(0xDF);
    assert_eq!(cpu.status(), 0xFF);
    // PLP of a byte without bit 5
    cpu.set_sp(0xFE);
    cpu.poke(0x01FF, 0x00);
    cpu.load(0x0300, &[0x28]);
    cpu.set_pc(0x0300);
    assert_eq!(cpu.step(), Ok(4));
    assert_eq!(cpu.status() & 0x20, 0x20);
}

#[test]
fn the_zero_negative_rule() {
    let mut cpu = MOS6502Cpu::new();
    cpu.set_status(0x01 | 0x40);
    cpu.update_zero_negative(0x00);
    assert!(cpu.flag(Flag::Zero));
    assert!(!cpu.flag(Flag::Negative));
    cpu.update_zero_negative(0x80);
    assert!(!cpu.flag(Flag::Zero));
    assert!(cpu.flag(Flag::Negative));
    cpu.update_zero_negative(0x7F);
    assert!(!cpu.flag(Flag::Zero));
    assert!(!cpu.flag(Flag::Negative));
    cpu.update_zero_negative(0xFF);
    assert!(!cpu.flag(Flag::Zero));
    assert!(cpu.flag(Flag::Negative));
    assert!(cpu.flag(Flag::Carry));
    assert!(cpu.flag(Flag::Overflow));
    assert!(!cpu.flag(Flag::Interrupt));
}

#[test]
fn the_pushed_status_carries_break_as_told() {
    assert_eq!(pushed_status(0x00, true), 0x30);
    assert_eq!(pushed_status(0x00, false), 0x20);
    assert_eq!(pushed_status(0xFF, false), 0xEF);
    assert_eq!(pushed_status(0xC3, true), 0xF3);
    assert_eq!(pushed_status(0x10, false), 0x20);
}

#[test]
fn the_restored_status_ignores_break_and_bit_five() {
    assert_eq!(restored_status(0x24, 0xFF) & 0xCF, 0xCF);
    assert_eq!(restored_status(0x24, 0xFF) & 0x10, 0x00);
    assert_eq!(restored_status(0x34, 0x00) & 0x10, 0x10);
    assert_eq!(restored_status(0x34, 0x00) & 0xCF, 0x00);
    assert_eq!(restored_status(0x20, 0x81), 0xA1);
}
