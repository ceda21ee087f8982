use mos6502::cpu::bus::Bus;
use mos6502::cpu::memory::IntoAddress;
use mos6502::cpu::memory::Memory;
use mos6502::cpu::MOS6502Cpu;

#[test]
fn a_new_bus_reads_zero_everywhere() {
    let bus = Bus::new();
    assert_eq!(bus.read(0x0000u16), 0);
    assert_eq!(bus.read(0x00FFu16), 0);
    assert_eq!(bus.read(0x8000u16), 0);
    assert_eq!(bus.read(0xFFFFu16), 0);
    let mut nonzero: u32 = 0;
    for address in 0..=0xFFFFu16 {
        if bus.read(address) != 0 {
            nonzero += 1;
        }
    }
    assert_eq!(nonzero, 0);
}

#[test]
fn the_bus_returns_the_byte_last_written() {
    let mut bus = Bus::new();
    bus.write(0x1234u16, 0xAB);
    assert_eq!(bus.read(0x1234u16), 0xAB);
    bus.write(0x1234u16, 0xCD);
    assert_eq!(bus.read(0x1234u16), 0xCD);
    assert_eq!(bus.read(0x1233u16), 0);
    assert_eq!(bus.read(0x1235u16), 0);
}

#[test]
fn the_first_and_the_last_address_are_writable() {
    let mut bus = Bus::new();
    bus.write(0x0000u16, 1);
    bus.write(0xFFFFu16, 2);
    assert_eq!(bus.read(0x0000u16), 1);
    assert_eq!(bus.read(0xFFFFu16), 2);
}

#[test]
fn a_byte_addresses_the_zero_page() {
    let mut bus = Bus::new();
    bus.write(0x80u8, 0x11);
    assert_eq!(bus.read(0x0080u16), 0x11);
    bus.write(0x00FFu16, 0x22);
    assert_eq!(bus.read(0xFFu8), 0x22);
}

#[test]
fn addresses_convert_without_change() {
    assert_eq!(0x7Fu8.into_address(), 0x007F);
    assert_eq!(0xFFu8.into_address(), 0x00FF);
    assert_eq!(0xBEEFu16.into_address(), 0xBEEF);
}

#[test]
fn the_processor_reads_and_writes_through_its_bus() {
    let mut cpu = MOS6502Cpu::new();
    cpu.write(0x3000u16, 0x5A);
    assert_eq!(cpu.read(0x3000u16), 0x5A);
    assert_eq!(cpu.peek(0x3000), 0x5A);
    cpu.poke(0x0010, 0xA5);
    assert_eq!(cpu.read(0x10u8), 0xA5);
    assert_eq!(cpu.a(), 0);
    assert_eq!(cpu.pc(), 0);
}

#[test]
fn load_places_bytes_from_the_origin_on() {
    let mut cpu = MOS6502Cpu::new();
    cpu.load(0x8000, &[1, 2, 3, 4]);
    assert_eq!(cpu.peek(0x7FFF), 0);
    assert_eq!(cpu.peek(0x8000), 1);
    assert_eq!(cpu.peek(0x8001), 2);
    assert_eq!(cpu.peek(0x8002), 3);
    assert_eq!(cpu.peek(0x8003), 4);
    assert_eq!(cpu.peek(0x8004), 0);
    assert_eq!(cpu.pc(), 0);
}

#[test]
fn load_wraps_at_the_end_of_the_address_space() {
    let mut cpu = MOS6502Cpu::new();
    cpu.load(0xFFFE, &[0xAA, 0xBB, 0xCC, 0xDD]);
    assert_eq!(cpu.peek(0xFFFE), 0xAA);
    assert_eq!(cpu.peek(0xFFFF), 0xBB);
    assert_eq!(cpu.peek(0x0000), 0xCC);
    assert_eq!(cpu.peek(0x0001), 0xDD);
    assert_eq!(cpu.peek(0x0002), 0);
}

#[test]
fn load_of_nothing_changes_nothing() {
    let mut cpu = MOS6502Cpu::new();
    cpu.poke(0x0100, 9);
    cpu.load(0x0100, &[]);
    assert_eq!(cpu.peek(0x0100), 9);
}

#[test]
fn a_later_byte_replaces_an_earlier_one_at_the_same_address() {
    let mut image = vec![0u8; 65536 + 2];
    image[0] = 0x11;
    image[1] = 0x22;
    image[65536] = 0x33;
    let mut cpu = MOS6502Cpu::new();
    cpu.load(0x4000, &image);
    assert_eq!(cpu.peek(0x4000), 0x33);
    assert_eq!(cpu.peek(0x4001), 0);
    assert_eq!(cpu.peek(0x4002), 0);
}
