//! End-to-end scenarios: whole instructions run cycle by cycle through
//! `State::step`, checking registers, flags, memory and exact cycle counts.

use mos6502::State;

fn run(state: &mut State, n: u32) {
    let mut i = 0;
    while i < n {
        assert!(state.step());
        i += 1;
    }
}

#[test]
fn lda_immediate_two_cycles() {
    let mut state = State::new();
    state.cpu.pc = 0x8000;
    state.cpu.flags.z = true;
    state.mem.write(0x8000, 0xA9);
    state.mem.write(0x8001, 0x42);
    run(&mut state, 2);
    assert_eq!(state.cpu.a, 0x42);
    assert!(!state.cpu.flags.z);
    assert!(!state.cpu.flags.n);
    assert_eq!(state.cpu.pc, 0x8002);
    assert_eq!(state.cycle_count, 2);
    assert!(!state.op_state.active);
}

#[test]
fn lda_absolute_four_cycles() {
    let mut state = State::new();
    state.cpu.pc = 0x8000;
    state.mem.write(0x8000, 0xAD);
    state.mem.write(0x8001, 0x34);
    state.mem.write(0x8002, 0x12);
    state.mem.write(0x1234, 0x80);
    run(&mut state, 4);
    assert_eq!(state.cpu.a, 0x80);
    assert!(state.cpu.flags.n);
    assert!(!state.cpu.flags.z);
    assert_eq!(state.cpu.pc, 0x8003);
    assert_eq!(state.cycle_count, 4);
    assert!(!state.op_state.active);
}

#[test]
fn adc_immediate_overflow() {
    let mut state = State::new();
    state.cpu.pc = 0x8000;
    state.cpu.a = 0x50;
    state.mem.write(0x8000, 0x69);
    state.mem.write(0x8001, 0x50);
    run(&mut state, 2);
    assert_eq!(state.cpu.a, 0xA0);
    assert!(!state.cpu.flags.c);
    assert!(state.cpu.flags.n);
    assert!(state.cpu.flags.v);
    assert!(!state.cpu.flags.z);
}

#[test]
fn branch_taken_with_page_cross_four_cycles() {
    let mut state = State::new();
    state.cpu.pc = 0x80F8;
    state.cpu.flags.z = true;
    state.mem.write(0x80F8, 0xF0);
    state.mem.write(0x80F9, 0x10);
    run(&mut state, 4);
    assert_eq!(state.cpu.pc, 0x810A);
    assert_eq!(state.cycle_count, 4);
    assert!(!state.op_state.active);
    assert!(!state.op_state.branching);
    assert!(!state.op_state.page_cross);
}

#[test]
fn branch_not_taken_two_cycles() {
    let mut state = State::new();
    state.cpu.pc = 0x80F8;
    state.cpu.flags.z = false;
    state.mem.write(0x80F8, 0xF0);
    state.mem.write(0x80F9, 0x10);
    run(&mut state, 2);
    assert_eq!(state.cpu.pc, 0x80FA);
    assert_eq!(state.cycle_count, 2);
    assert!(!state.op_state.active);
}

#[test]
fn branch_taken_without_cross_three_cycles() {
    let mut state = State::new();
    state.cpu.pc = 0x8000;
    state.cpu.flags.z = true;
    state.mem.write(0x8000, 0xF0);
    state.mem.write(0x8001, 0x02);
    run(&mut state, 3);
    assert_eq!(state.cpu.pc, 0x8004);
    assert_eq!(state.cycle_count, 3);
    assert!(!state.op_state.active);
    assert!(!state.op_state.branching);
}

#[test]
fn jsr_rts_round_trip() {
    let mut state = State::new();
    state.cpu.pc = 0xC000;
    state.cpu.sp = 0xFD;
    state.mem.write(0xC000, 0x20);
    state.mem.write(0xC001, 0x34);
    state.mem.write(0xC002, 0x12);
    state.mem.write(0x1234, 0x60);
    run(&mut state, 6);
    assert_eq!(state.cpu.pc, 0x1234);
    assert_eq!(state.cpu.sp, 0xFB);
    assert_eq!(state.mem.read(0x01FC), 0x02);
    assert_eq!(state.mem.read(0x01FD), 0xC0);
    run(&mut state, 6);
    assert_eq!(state.cpu.pc, 0xC003);
    assert_eq!(state.cpu.sp, 0xFD);
    assert_eq!(state.cycle_count, 12);
}

#[test]
fn jmp_indirect_page_bug() {
    let mut state = State::new();
    state.cpu.pc = 0x8000;
    state.mem.write(0x8000, 0x6C);
    state.mem.write(0x8001, 0xFF);
    state.mem.write(0x8002, 0x02);
    state.mem.write(0x02FF, 0x34);
    state.mem.write(0x0200, 0x12);
    state.mem.write(0x0300, 0x99);
    run(&mut state, 5);
    assert_eq!(state.cpu.pc, 0x1234);
    assert_eq!(state.cycle_count, 5);
}

#[test]
fn lda_absolute_indexed_cross_keeps_pc() {
    let mut state = State::new();
    state.cpu.pc = 0x8000;
    state.cpu.x = 0x02;
    state.mem.write(0x8000, 0xBD);
    state.mem.write(0x8001, 0xFF);
    state.mem.write(0x8002, 0x02);
    state.mem.write(0x0301, 0x05);
    run(&mut state, 5);
    assert_eq!(state.cpu.a, 0x05);
    assert_eq!(state.cpu.pc, 0x8003);
    assert_eq!(state.cycle_count, 5);
    assert!(!state.op_state.active);
    assert!(!state.op_state.page_cross);
}

#[test]
fn lda_absolute_indexed_uncrossed_four_cycles() {
    let mut state = State::new();
    state.cpu.pc = 0x8000;
    state.cpu.x = 0x01;
    state.mem.write(0x8000, 0xBD);
    state.mem.write(0x8001, 0x10);
    state.mem.write(0x8002, 0x02);
    state.mem.write(0x0211, 0x3C);
    run(&mut state, 4);
    assert_eq!(state.cpu.a, 0x3C);
    assert_eq!(state.cycle_count, 4);
    assert!(!state.op_state.active);
}

#[test]
fn sta_absolute_writes_and_records_address() {
    let mut state = State::new();
    state.cpu.pc = 0x8000;
    state.cpu.a = 0x42;
    state.mem.write(0x8000, 0x8D);
    state.mem.write(0x8001, 0x00);
    state.mem.write(0x8002, 0x02);
    run(&mut state, 4);
    assert_eq!(state.mem.read(0x0200), 0x42);
    assert_eq!(state.cpu.eff_addr, Some(0x0200));
    assert_eq!(state.cycle_count, 4);
}

#[test]
fn sta_absolute_indexed_five_cycles() {
    let mut state = State::new();
    state.cpu.pc = 0x8000;
    state.cpu.a = 0x77;
    state.cpu.x = 0x02;
    state.mem.write(0x8000, 0x9D);
    state.mem.write(0x8001, 0xFF);
    state.mem.write(0x8002, 0x02);
    run(&mut state, 5);
    assert_eq!(state.mem.read(0x0301), 0x77);
    assert_eq!(state.cpu.pc, 0x8003);
    assert_eq!(state.cycle_count, 5);
    assert!(!state.op_state.active);
}

#[test]
fn asl_zeropage_read_modify_write() {
    let mut state = State::new();
    state.cpu.pc = 0x8000;
    state.mem.write(0x8000, 0x06);
    state.mem.write(0x8001, 0x10);
    state.mem.write(0x0010, 0x81);
    run(&mut state, 5);
    assert_eq!(state.mem.read(0x0010), 0x02);
    assert!(state.cpu.flags.c);
    assert!(!state.cpu.flags.z);
    assert_eq!(state.cycle_count, 5);
}

#[test]
fn inc_absolute_wraps_to_zero() {
    let mut state = State::new();
    state.cpu.pc = 0x8000;
    state.mem.write(0x8000, 0xEE);
    state.mem.write(0x8001, 0x00);
    state.mem.write(0x8002, 0x02);
    state.mem.write(0x0200, 0xFF);
    run(&mut state, 6);
    assert_eq!(state.mem.read(0x0200), 0x00);
    assert!(state.cpu.flags.z);
    assert_eq!(state.cycle_count, 6);
}

#[test]
fn lda_indirect_indexed_five_cycles() {
    let mut state = State::new();
    state.cpu.pc = 0x8000;
    state.cpu.y = 0x05;
    state.mem.write(0x8000, 0xB1);
    state.mem.write(0x8001, 0x40);
    state.mem.write(0x0040, 0x00);
    state.mem.write(0x0041, 0x02);
    state.mem.write(0x0205, 0x6E);
    run(&mut state, 5);
    assert_eq!(state.cpu.a, 0x6E);
    assert_eq!(state.cycle_count, 5);
}

#[test]
fn lda_indexed_indirect_six_cycles() {
    let mut state = State::new();
    state.cpu.pc = 0x8000;
    state.cpu.x = 0x04;
    state.mem.write(0x8000, 0xA1);
    state.mem.write(0x8001, 0x40);
    state.mem.write(0x0044, 0x00);
    state.mem.write(0x0045, 0x02);
    state.mem.write(0x0200, 0x19);
    run(&mut state, 6);
    assert_eq!(state.cpu.a, 0x19);
    assert_eq!(state.cycle_count, 6);
}

#[test]
fn pha_pla_restores_accumulator() {
    let mut state = State::new();
    state.cpu.pc = 0x8000;
    state.cpu.a = 0x42;
    state.cpu.sp = 0xFD;
    state.mem.write(0x8000, 0x48);
    state.mem.write(0x8001, 0x68);
    run(&mut state, 3);
    assert_eq!(state.cpu.sp, 0xFC);
    assert_eq!(state.mem.read(0x01FD), 0x42);
    state.cpu.a = 0;
    run(&mut state, 4);
    assert_eq!(state.cpu.a, 0x42);
    assert_eq!(state.cpu.sp, 0xFD);
    assert_eq!(state.cycle_count, 7);
}

#[test]
fn php_plp_restores_flags() {
    let mut state = State::new();
    state.cpu.pc = 0x8000;
    state.cpu.sp = 0xFD;
    state.cpu.flags.n = true;
    state.cpu.flags.c = true;
    state.mem.write(0x8000, 0x08);
    state.mem.write(0x8001, 0x28);
    run(&mut state, 3);
    // Pushed with the break and unused bits set.
    assert_eq!(state.mem.read(0x01FD), 0xB1);
    state.cpu.flags.n = false;
    state.cpu.flags.c = false;
    state.cpu.flags.v = true;
    run(&mut state, 4);
    assert!(state.cpu.flags.n);
    assert!(state.cpu.flags.c);
    assert!(!state.cpu.flags.v);
    assert_eq!(state.cpu.sp, 0xFD);
    assert_eq!(state.cycle_count, 7);
}

#[test]
fn brk_rti_round_trip() {
    let mut state = State::new();
    state.cpu.pc = 0x8000;
    state.cpu.sp = 0xFD;
    state.cpu.flags.c = true;
    state.mem.write(0x8000, 0x00);
    state.mem.write(0xFFFE, 0x00);
    state.mem.write(0xFFFF, 0x90);
    state.mem.write(0x9000, 0x40);
    run(&mut state, 7);
    assert_eq!(state.cpu.pc, 0x9000);
    assert_eq!(state.cpu.sp, 0xFA);
    assert!(state.cpu.flags.i);
    // The pushed status byte carries the break bit.
    assert_eq!(state.mem.read(0x01FB), 0x31);
    run(&mut state, 6);
    assert_eq!(state.cpu.pc, 0x8002);
    assert_eq!(state.cpu.sp, 0xFD);
    assert!(state.cpu.flags.c);
    assert!(!state.cpu.flags.i);
    assert_eq!(state.cycle_count, 13);
}

#[test]
fn transfers_and_register_steps() {
    let mut state = State::new();
    state.cpu.pc = 0x8000;
    state.cpu.a = 0x21;
    state.mem.write(0x8000, 0xAA); // TAX
    state.mem.write(0x8001, 0xE8); // INX
    state.mem.write(0x8002, 0xCA); // DEX
    state.mem.write(0x8003, 0x88); // DEY
    run(&mut state, 2);
    assert_eq!(state.cpu.x, 0x21);
    run(&mut state, 2);
    assert_eq!(state.cpu.x, 0x22);
    run(&mut state, 2);
    assert_eq!(state.cpu.x, 0x21);
    run(&mut state, 2);
    assert_eq!(state.cpu.y, 0xFF);
    assert!(state.cpu.flags.n);
    assert_eq!(state.cycle_count, 8);
}

#[test]
fn flag_instructions_set_and_clear() {
    let mut state = State::new();
    state.cpu.pc = 0x8000;
    state.mem.write(0x8000, 0x38); // SEC
    state.mem.write(0x8001, 0xF8); // SED
    state.mem.write(0x8002, 0x18); // CLC
    run(&mut state, 2);
    assert!(state.cpu.flags.c);
    run(&mut state, 2);
    assert!(state.cpu.flags.d);
    run(&mut state, 2);
    assert!(!state.cpu.flags.c);
    assert!(state.cpu.flags.d);
}

#[test]
fn unofficial_opcode_stops_the_run() {
    let mut state = State::new();
    state.cpu.pc = 0x8000;
    state.mem.write(0x8000, 0x02);
    assert!(state.step());
    assert_eq!(state.cycle_count, 1);
    assert!(!state.step());
    // The failing tick changes nothing.
    assert_eq!(state.cycle_count, 1);
    assert!(state.op_state.active);
    assert!(!state.step());
}

#[test]
fn unofficial_nop_runs_with_correct_timing() {
    let mut state = State::new();
    state.cpu.pc = 0x8000;
    state.mem.write(0x8000, 0x1A);
    run(&mut state, 2);
    assert_eq!(state.cpu.pc, 0x8001);
    assert_eq!(state.cycle_count, 2);
    assert!(!state.op_state.active);
}
