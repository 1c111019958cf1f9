//! Tests of the memory map, the bus helpers, and the flag byte encoding.

use mos6502::cpu::{CpuFlags, CPU, CPUIO};
use mos6502::{Memory, State};

#[test]
fn ram_is_mirrored_four_times() {
    let mut m = Memory::new();
    m.write(0x0005, 7);
    assert_eq!(m.read(0x0005), 7);
    assert_eq!(m.read(0x0805), 7);
    assert_eq!(m.read(0x1005), 7);
    assert_eq!(m.read(0x1805), 7);
    m.write(0x1806, 9);
    assert_eq!(m.read(0x0006), 9);
}

#[test]
fn ppu_registers_repeat_every_eight_bytes() {
    let mut m = Memory::new();
    m.write(0x2002, 0x55);
    assert_eq!(m.read(0x2002), 0x55);
    assert_eq!(m.read(0x200A), 0x55);
    assert_eq!(m.read(0x3FFA), 0x55);
    assert_eq!(m.read(0x2003), 0);
}

#[test]
fn apu_test_and_cartridge_regions_are_distinct() {
    let mut m = Memory::new();
    m.write(0x4000, 1);
    m.write(0x4018, 2);
    m.write(0x4020, 3);
    m.write(0xFFFF, 4);
    assert_eq!(m.read(0x4000), 1);
    assert_eq!(m.read(0x4018), 2);
    assert_eq!(m.read(0x4020), 3);
    assert_eq!(m.read(0xFFFF), 4);
}

#[test]
fn mem_to_rom_respects_unused_prefix() {
    let mut m = Memory::new();
    // Nothing loaded: the whole cartridge space is unused.
    assert_eq!(m.mem_to_rom(0xFFFF), None);
    m.bytes_unused = 0x7FE0;
    assert_eq!(m.mem_to_rom(0xC000), Some(0x10));
    assert_eq!(m.mem_to_rom(0xC005), Some(0x15));
    assert_eq!(m.mem_to_rom(0xBFFF), None);
}

#[test]
fn pc_halves_round_trip() {
    let mut cpu = CPU::new();
    cpu.pc_set([0x34, 0x12]);
    assert_eq!(cpu.pc, 0x1234);
    let bytes = cpu.pc_get();
    assert_eq!(bytes[0], 0x34);
    assert_eq!(bytes[1], 0x12);
}

#[test]
fn bus_address_lines_split_the_address() {
    let mut io = CPUIO::new();
    io.set(0xABCD);
    assert_eq!(io.low, 0xCD);
    assert_eq!(io.high, 0xAB);
}

#[test]
fn flag_byte_has_unused_bit_set() {
    let mut f = CpuFlags::new();
    f.n = true;
    f.c = true;
    assert_eq!(f.to_byte(false), 0xA1);
    assert_eq!(f.to_byte(true), 0xB1);
    let g = CpuFlags::from_byte(0xB1);
    assert_eq!(g, f);
}

#[test]
fn flag_byte_round_trip_drops_break_and_unused() {
    let f = CpuFlags::from_byte(0xFF);
    assert!(f.n && f.v && f.d && f.i && f.z && f.c);
    assert_eq!(f.to_byte(false), 0xEF);
    let g = CpuFlags::from_byte(0x00);
    assert_eq!(g.to_byte(false), 0x20);
}

#[test]
fn reset_loads_the_reset_vector() {
    let mut state = State::new();
    state.mem.write(0xFFFC, 0x00);
    state.mem.write(0xFFFD, 0xC0);
    state.cpu.sp = 0;
    state.reset();
    assert_eq!(state.cpu.pc, 0xC000);
    assert_eq!(state.cpu.sp, 0xFD);
    assert!(state.cpu.flags.i);
    assert!(!state.cpu.flags.n);
    assert_eq!(state.cycle_count, 7);
    assert_eq!(state.instr_count, 0);
}
