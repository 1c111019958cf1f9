//! Unit tests of the micro-operation primitives, driven directly against a
//! fresh machine state.

use mos6502::cpu::Flag;
use mos6502::instructions::math::{ADC, ASL, BIT, CMP, LSR, ROL, ROR, SBC};
use mos6502::instructions::reg::Register;
use mos6502::State;

#[test]
fn test_cmp() {
    let state = &mut State::new();
    state.cpu.a = 10;
    state.cpu.io.wire = 10;
    CMP::exec(state, Register::Acc);
    assert!(state.cpu.flags.contains(Flag::Zero));
    assert!(state.cpu.flags.contains(Flag::Carry));
    assert!(!state.cpu.flags.contains(Flag::Negative));
}

#[test]
fn cmp_less_sets_negative() {
    let state = &mut State::new();
    state.cpu.a = 0x10;
    state.cpu.io.wire = 0x20;
    CMP::exec(state, Register::Acc);
    assert!(!state.cpu.flags.contains(Flag::Zero));
    assert!(!state.cpu.flags.contains(Flag::Carry));
    assert!(state.cpu.flags.contains(Flag::Negative));
    assert_eq!(state.cpu.a, 0x10);
}

#[test]
fn adc_carry_in_and_out() {
    let state = &mut State::new();
    state.cpu.a = 0xFF;
    state.cpu.io.wire = 0x01;
    state.cpu.flags.c = true;
    ADC::exec(state);
    assert_eq!(state.cpu.a, 0x01);
    assert!(state.cpu.flags.c);
    assert!(!state.cpu.flags.v);
    assert!(!state.cpu.flags.z);
    assert!(!state.cpu.flags.n);
}

#[test]
fn sbc_without_borrow() {
    let state = &mut State::new();
    state.cpu.a = 0x50;
    state.cpu.io.wire = 0xF0;
    state.cpu.flags.c = true;
    SBC::exec(state);
    assert_eq!(state.cpu.a, 0x60);
    assert!(!state.cpu.flags.c);
    assert!(!state.cpu.flags.v);
    assert!(!state.cpu.flags.n);
    assert!(!state.cpu.flags.z);
}

#[test]
fn asl_shifts_top_bit_into_carry() {
    let state = &mut State::new();
    state.cpu.a = 0x81;
    ASL::exec(state, Register::Acc);
    assert_eq!(state.cpu.a, 0x02);
    assert!(state.cpu.flags.c);
    assert!(!state.cpu.flags.n);
    assert!(!state.cpu.flags.z);
}

#[test]
fn lsr_clears_negative() {
    let state = &mut State::new();
    state.cpu.a = 0x01;
    state.cpu.flags.n = true;
    LSR::exec(state, Register::Acc);
    assert_eq!(state.cpu.a, 0x00);
    assert!(state.cpu.flags.c);
    assert!(!state.cpu.flags.n);
    assert!(state.cpu.flags.z);
}

#[test]
fn rol_ror_round_trip() {
    let state = &mut State::new();
    state.cpu.a = 0x41;
    state.cpu.flags.c = false;
    ROL::exec(state, Register::Acc);
    assert_eq!(state.cpu.a, 0x82);
    assert!(!state.cpu.flags.c);
    ROR::exec(state, Register::Acc);
    assert_eq!(state.cpu.a, 0x41);
    assert!(!state.cpu.flags.c);
}

#[test]
fn bit_copies_top_bits() {
    let state = &mut State::new();
    state.cpu.a = 0x0F;
    state.cpu.io.wire = 0xC0;
    BIT::exec(state);
    assert!(state.cpu.flags.z);
    assert!(state.cpu.flags.n);
    assert!(state.cpu.flags.v);
    assert_eq!(state.cpu.a, 0x0F);
}
