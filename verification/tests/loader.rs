//! Tests of the iNES header parser and image loader.

use mos6502::rom::{load_rom, parse_header, InesHeader, ROMError};
use mos6502::State;

fn header(prg_banks: u8, flags6: u8) -> Vec<u8> {
    let mut v = vec![0x4E, 0x45, 0x53, 0x1A, prg_banks, 0, flags6, 0];
    while v.len() < 16 {
        v.push(0);
    }
    v
}

#[test]
fn parse_header_reads_the_fields() {
    let mut rom = header(2, 0x13);
    rom[5] = 1;
    rom[7] = 0x28;
    let h = parse_header(&rom).unwrap();
    assert_eq!(h.prg_banks, 2);
    assert_eq!(h.chr_banks, 1);
    assert_eq!(h.flags6, 0x13);
    assert_eq!(h.flags7, 0x28);
    assert_eq!(h.mapper(), 0x21);
    assert!(h.vertical_mirroring());
    assert!(h.battery());
    assert!(!h.trainer());
    assert!(h.nes2());
}

#[test]
fn header_accessors_extract_bits() {
    let h = InesHeader { prg_banks: 1, chr_banks: 0, flags6: 0x04, flags7: 0x00 };
    assert!(h.trainer());
    assert!(!h.vertical_mirroring());
    assert!(!h.battery());
    assert!(!h.nes2());
    assert_eq!(h.mapper(), 0);
}

#[test]
fn short_image_is_unreadable() {
    let rom = vec![0x4E, 0x45];
    assert_eq!(parse_header(&rom), Err(ROMError::IOError));
    let rom2 = vec![0x4E, 0x45, 0x53, 0x1A, 0, 0];
    assert_eq!(parse_header(&rom2), Err(ROMError::IOError));
}

#[test]
fn wrong_magic_is_reported_with_its_bytes() {
    let mut rom = header(1, 0);
    rom[0] = 0x4D;
    let r = parse_header(&rom);
    assert_eq!(r, Err(ROMError::InvalidMagicValue([0x4D, 0x45, 0x53, 0x1A])));
    let mut state = State::new();
    let r2 = load_rom(&rom, &mut state);
    assert_eq!(r2, Err(ROMError::InvalidMagicValue([0x4D, 0x45, 0x53, 0x1A])));
}

#[test]
fn single_bank_is_mirrored() {
    let mut rom = header(1, 0);
    let mut prg = vec![0u8; 0x4000];
    prg[0] = 0xAA;
    prg[0x3FFC] = 0x00;
    prg[0x3FFD] = 0xC0;
    rom.extend_from_slice(&prg);
    let mut state = State::new();
    load_rom(&rom, &mut state).unwrap();
    assert_eq!(state.mem.read(0x8000), 0xAA);
    assert_eq!(state.mem.read(0xC000), 0xAA);
    assert_eq!(state.mem.read(0xFFFC), 0x00);
    assert_eq!(state.mem.read(0xFFFD), 0xC0);
    assert_eq!(state.mem.bytes_unused, 0x7FE0);
    state.reset();
    assert_eq!(state.cpu.pc, 0xC000);
}

#[test]
fn two_banks_fill_linearly() {
    let mut rom = header(2, 0);
    let mut prg = vec![0u8; 0x8000];
    prg[0] = 0x11;
    prg[0x4000] = 0x22;
    prg[0x7FFF] = 0x33;
    rom.extend_from_slice(&prg);
    let mut state = State::new();
    load_rom(&rom, &mut state).unwrap();
    assert_eq!(state.mem.read(0x8000), 0x11);
    assert_eq!(state.mem.read(0xC000), 0x22);
    assert_eq!(state.mem.read(0xFFFF), 0x33);
    assert_eq!(state.mem.bytes_unused, 0x3FE0);
}

#[test]
fn trainer_is_skipped() {
    let mut rom = header(1, 0x04);
    rom.extend_from_slice(&vec![0xEE; 512]);
    let mut prg = vec![0u8; 0x4000];
    prg[0] = 0x77;
    rom.extend_from_slice(&prg);
    let mut state = State::new();
    load_rom(&rom, &mut state).unwrap();
    assert_eq!(state.mem.read(0x8000), 0x77);
}

#[test]
fn truncated_prg_data_is_unreadable() {
    let mut rom = header(1, 0);
    rom.extend_from_slice(&vec![0u8; 0x1000]);
    let mut state = State::new();
    assert_eq!(load_rom(&rom, &mut state), Err(ROMError::IOError));
    // The machine is left untouched.
    assert_eq!(state.mem.read(0x8000), 0);
    assert_eq!(state.mem.bytes_unused, 0xBFE0);
}
