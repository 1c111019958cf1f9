//! The 256-entry dispatch table: every opcode byte maps to the sequence of
//! cycles that executes it.  Unofficial opcodes map to the empty sequence,
//! except for the conventional do-nothing encodings, which run as NOPs of
//! the correct length and cycle count.

use vstd::prelude::*;

use crate::cpu::Flag as F;
use crate::instructions::math::MathOp as M;
use crate::instructions::reg::Register as R;
use crate::instructions::{
    absolute, absolute_indexed, absolute_indirect_jmp, branch_if, brk_instr, immediate, implied,
    indexed_indirect, indirect_indexed, jmp_absolute, jsr, pull_stack, push_stack, read_op, rti,
    rts, rw_op, rw_op_pc, spec_absolute, spec_absolute_indexed, spec_absolute_indirect_jmp,
    spec_branch_if, spec_brk_instr, spec_immediate, spec_implied, spec_indexed_indirect,
    spec_indirect_indexed, spec_jmp_absolute, spec_jsr, spec_pull_stack, spec_push_stack,
    spec_read_op, spec_rti, spec_rts, spec_rw_op, spec_rw_op_pc, spec_write_op, spec_write_op_pc,
    spec_zeropage, spec_zeropage_indexed, write_op, write_op_pc, zeropage, zeropage_indexed, Cycle,
};

verus! {

/// Rows `$00-$3F`: BRK, ORA, ASL, AND, ROL, BIT, the stack pushes and pulls,
/// JSR and the N/C flag branches.
#[verifier::opaque]
pub open spec fn spec_decode_q0(opcode: u8) -> Seq<Cycle> {
    match opcode {
        0x00 => spec_brk_instr(),
        0x01 => spec_indexed_indirect(spec_read_op(M::Ora)),
        0x05 => spec_zeropage(spec_read_op(M::Ora)),
        0x06 => spec_zeropage(spec_rw_op(M::Asl(R::Bus))),
        0x08 => spec_push_stack(R::FlagsPushed),
        0x09 => spec_immediate(M::Ora),
        0x0A => spec_implied(M::Asl(R::Acc)),
        0x0D => spec_absolute(spec_read_op(M::Ora)),
        0x0E => spec_absolute(spec_rw_op(M::Asl(R::Bus))),
        0x10 => spec_branch_if(F::Negative, false),
        0x11 => spec_indirect_indexed(spec_read_op(M::Ora)),
        0x15 => spec_zeropage_indexed(R::X, spec_read_op(M::Ora)),
        0x16 => spec_zeropage_indexed(R::X, spec_rw_op(M::Asl(R::Bus))),
        0x18 => spec_implied(M::Clr(F::Carry)),
        0x19 => spec_absolute_indexed(R::Y, spec_read_op(M::Ora)),
        0x1A => spec_implied(M::Nop),
        0x1D => spec_absolute_indexed(R::X, spec_read_op(M::Ora)),
        0x1E => spec_absolute_indexed(R::X, spec_rw_op_pc(M::Asl(R::Bus))),
        0x20 => spec_jsr(),
        0x21 => spec_indexed_indirect(spec_read_op(M::And)),
        0x24 => spec_zeropage(spec_read_op(M::Bit)),
        0x25 => spec_zeropage(spec_read_op(M::And)),
        0x26 => spec_zeropage(spec_rw_op(M::Rol(R::Bus))),
        0x28 => spec_pull_stack(R::FlagsPulled, M::Nop),
        0x29 => spec_immediate(M::And),
        0x2A => spec_implied(M::Rol(R::Acc)),
        0x2C => spec_absolute(spec_read_op(M::Bit)),
        0x2D => spec_absolute(spec_read_op(M::And)),
        0x2E => spec_absolute(spec_rw_op(M::Rol(R::Bus))),
        0x30 => spec_branch_if(F::Negative, true),
        0x31 => spec_indirect_indexed(spec_read_op(M::And)),
        0x34 => spec_zeropage_indexed(R::X, spec_read_op(M::Nop)),
        0x35 => spec_zeropage_indexed(R::X, spec_read_op(M::And)),
        0x36 => spec_zeropage_indexed(R::X, spec_rw_op(M::Rol(R::Bus))),
        0x38 => spec_implied(M::SetF(F::Carry)),
        0x39 => spec_absolute_indexed(R::Y, spec_read_op(M::And)),
        0x3A => spec_implied(M::Nop),
        0x3C => spec_absolute_indexed(R::X, spec_read_op(M::Nop)),
        0x3D => spec_absolute_indexed(R::X, spec_read_op(M::And)),
        0x3E => spec_absolute_indexed(R::X, spec_rw_op_pc(M::Rol(R::Bus))),
        _ => Seq::empty(),
    }
}

/// Rows `$40-$7F`: RTI, RTS, EOR, LSR, ADC, ROR, the jumps and the V flag
/// branches.
#[verifier::opaque]
pub open spec fn spec_decode_q1(opcode: u8) -> Seq<Cycle> {
    match opcode {
        0x40 => spec_rti(),
        0x41 => spec_indexed_indirect(spec_read_op(M::Eor)),
        0x44 => spec_zeropage(spec_read_op(M::Nop)),
        0x45 => spec_zeropage(spec_read_op(M::Eor)),
        0x46 => spec_zeropage(spec_rw_op(M::Lsr(R::Bus))),
        0x48 => spec_push_stack(R::Acc),
        0x49 => spec_immediate(M::Eor),
        0x4A => spec_implied(M::Lsr(R::Acc)),
        0x4C => spec_jmp_absolute(),
        0x4D => spec_absolute(spec_read_op(M::Eor)),
        0x4E => spec_absolute(spec_rw_op(M::Lsr(R::Bus))),
        0x50 => spec_branch_if(F::Overflow, false),
        0x51 => spec_indirect_indexed(spec_read_op(M::Eor)),
        0x54 => spec_zeropage_indexed(R::X, spec_read_op(M::Nop)),
        0x55 => spec_zeropage_indexed(R::X, spec_read_op(M::Eor)),
        0x56 => spec_zeropage_indexed(R::X, spec_rw_op(M::Lsr(R::Bus))),
        0x58 => spec_implied(M::Clr(F::InterruptDisable)),
        0x59 => spec_absolute_indexed(R::Y, spec_read_op(M::Eor)),
        0x5A => spec_implied(M::Nop),
        0x5C => spec_absolute_indexed(R::X, spec_read_op(M::Nop)),
        0x5D => spec_absolute_indexed(R::X, spec_read_op(M::Eor)),
        0x5E => spec_absolute_indexed(R::X, spec_rw_op_pc(M::Lsr(R::Bus))),
        0x60 => spec_rts(),
        0x61 => spec_indexed_indirect(spec_read_op(M::Adc)),
        0x64 => spec_zeropage(spec_read_op(M::Nop)),
        0x65 => spec_zeropage(spec_read_op(M::Adc)),
        0x66 => spec_zeropage(spec_rw_op(M::Ror(R::Bus))),
        0x68 => spec_pull_stack(R::Acc, M::SetDefaultFlags(R::Acc)),
        0x69 => spec_immediate(M::Adc),
        0x6A => spec_implied(M::Ror(R::Acc)),
        0x6C => spec_absolute_indirect_jmp(),
        0x6D => spec_absolute(spec_read_op(M::Adc)),
        0x6E => spec_absolute(spec_rw_op(M::Ror(R::Bus))),
        0x70 => spec_branch_if(F::Overflow, true),
        0x71 => spec_indirect_indexed(spec_read_op(M::Adc)),
        0x74 => spec_zeropage_indexed(R::X, spec_read_op(M::Nop)),
        0x75 => spec_zeropage_indexed(R::X, spec_read_op(M::Adc)),
        0x76 => spec_zeropage_indexed(R::X, spec_rw_op(M::Ror(R::Bus))),
        0x78 => spec_implied(M::SetF(F::InterruptDisable)),
        0x79 => spec_absolute_indexed(R::Y, spec_read_op(M::Adc)),
        0x7A => spec_implied(M::Nop),
        0x7C => spec_absolute_indexed(R::X, spec_read_op(M::Nop)),
        0x7D => spec_absolute_indexed(R::X, spec_read_op(M::Adc)),
        0x7E => spec_absolute_indexed(R::X, spec_rw_op_pc(M::Ror(R::Bus))),
        _ => Seq::empty(),
    }
}

/// Rows `$80-$BF`: the stores, loads, register transfers and the C flag
/// branches.
#[verifier::opaque]
pub open spec fn spec_decode_q2(opcode: u8) -> Seq<Cycle> {
    match opcode {
        0x80 => spec_immediate(M::Nop),
        0x81 => spec_indexed_indirect(spec_write_op(M::Mv(R::Acc, R::Bus))),
        0x84 => spec_zeropage(spec_write_op(M::Mv(R::Y, R::Bus))),
        0x85 => spec_zeropage(spec_write_op(M::Mv(R::Acc, R::Bus))),
        0x86 => spec_zeropage(spec_write_op(M::Mv(R::X, R::Bus))),
        0x88 => spec_implied(M::Dec(R::Y, true)),
        0x8A => spec_implied(M::Mv(R::X, R::Acc)),
        0x8C => spec_absolute(spec_write_op(M::Mv(R::Y, R::Bus))),
        0x8D => spec_absolute(spec_write_op(M::Mv(R::Acc, R::Bus))),
        0x8E => spec_absolute(spec_write_op(M::Mv(R::X, R::Bus))),
        0x90 => spec_branch_if(F::Carry, false),
        0x91 => spec_indirect_indexed(spec_write_op_pc(M::Mv(R::Acc, R::Bus))),
        0x94 => spec_zeropage_indexed(R::X, spec_write_op(M::Mv(R::Y, R::Bus))),
        0x95 => spec_zeropage_indexed(R::X, spec_write_op(M::Mv(R::Acc, R::Bus))),
        0x96 => spec_zeropage_indexed(R::Y, spec_write_op(M::Mv(R::X, R::Bus))),
        0x98 => spec_implied(M::Mv(R::Y, R::Acc)),
        0x99 => spec_absolute_indexed(R::Y, spec_write_op_pc(M::Mv(R::Acc, R::Bus))),
        0x9A => spec_implied(M::Mv(R::X, R::Sp)),
        0x9D => spec_absolute_indexed(R::X, spec_write_op_pc(M::Mv(R::Acc, R::Bus))),
        0xA0 => spec_immediate(M::Ldf(R::Y)),
        0xA1 => spec_indexed_indirect(spec_read_op(M::Ldf(R::Acc))),
        0xA2 => spec_immediate(M::Ldf(R::X)),
        0xA4 => spec_zeropage(spec_read_op(M::Ldf(R::Y))),
        0xA5 => spec_zeropage(spec_read_op(M::Ldf(R::Acc))),
        0xA6 => spec_zeropage(spec_read_op(M::Ldf(R::X))),
        0xA8 => spec_implied(M::Mv(R::Acc, R::Y)),
        0xA9 => spec_immediate(M::Ldf(R::Acc)),
        0xAA => spec_implied(M::Mv(R::Acc, R::X)),
        0xAC => spec_absolute(spec_read_op(M::Ldf(R::Y))),
        0xAD => spec_absolute(spec_read_op(M::Ldf(R::Acc))),
        0xAE => spec_absolute(spec_read_op(M::Ldf(R::X))),
        0xB0 => spec_branch_if(F::Carry, true),
        0xB1 => spec_indirect_indexed(spec_read_op(M::Ldf(R::Acc))),
        0xB4 => spec_zeropage_indexed(R::X, spec_read_op(M::Ldf(R::Y))),
        0xB5 => spec_zeropage_indexed(R::X, spec_read_op(M::Ldf(R::Acc))),
        0xB6 => spec_zeropage_indexed(R::Y, spec_read_op(M::Ldf(R::X))),
        0xB8 => spec_implied(M::Clr(F::Overflow)),
        0xB9 => spec_absolute_indexed(R::Y, spec_read_op(M::Ldf(R::Acc))),
        0xBA => spec_implied(M::Mv(R::Sp, R::X)),
        0xBC => spec_absolute_indexed(R::X, spec_read_op(M::Ldf(R::Y))),
        0xBD => spec_absolute_indexed(R::X, spec_read_op(M::Ldf(R::Acc))),
        0xBE => spec_absolute_indexed(R::Y, spec_read_op(M::Ldf(R::X))),
        _ => Seq::empty(),
    }
}

/// Rows `$C0-$FF`: the compares, DEC/INC, SBC and the Z flag branches.
#[verifier::opaque]
pub open spec fn spec_decode_q3(opcode: u8) -> Seq<Cycle> {
    match opcode {
        0xC0 => spec_immediate(M::Cmp(R::Y)),
        0xC1 => spec_indexed_indirect(spec_read_op(M::Cmp(R::Acc))),
        0xC4 => spec_zeropage(spec_read_op(M::Cmp(R::Y))),
        0xC5 => spec_zeropage(spec_read_op(M::Cmp(R::Acc))),
        0xC6 => spec_zeropage(spec_rw_op(M::Dec(R::Bus, true))),
        0xC8 => spec_implied(M::Inc(R::Y, true)),
        0xC9 => spec_immediate(M::Cmp(R::Acc)),
        0xCA => spec_implied(M::Dec(R::X, true)),
        0xCC => spec_absolute(spec_read_op(M::Cmp(R::Y))),
        0xCD => spec_absolute(spec_read_op(M::Cmp(R::Acc))),
        0xCE => spec_absolute(spec_rw_op(M::Dec(R::Bus, true))),
        0xD0 => spec_branch_if(F::Zero, false),
        0xD1 => spec_indirect_indexed(spec_read_op(M::Cmp(R::Acc))),
        0xD4 => spec_zeropage_indexed(R::X, spec_read_op(M::Nop)),
        0xD5 => spec_zeropage_indexed(R::X, spec_read_op(M::Cmp(R::Acc))),
        0xD6 => spec_zeropage_indexed(R::X, spec_rw_op(M::Dec(R::Bus, true))),
        0xD8 => spec_implied(M::Clr(F::Decimal)),
        0xD9 => spec_absolute_indexed(R::Y, spec_read_op(M::Cmp(R::Acc))),
        0xDA => spec_implied(M::Nop),
        0xDC => spec_absolute_indexed(R::X, spec_read_op(M::Nop)),
        0xDD => spec_absolute_indexed(R::X, spec_read_op(M::Cmp(R::Acc))),
        0xDE => spec_absolute_indexed(R::X, spec_rw_op_pc(M::Dec(R::Bus, true))),
        0xE0 => spec_immediate(M::Cmp(R::X)),
        0xE1 => spec_indexed_indirect(spec_read_op(M::Sbc)),
        0xE4 => spec_zeropage(spec_read_op(M::Cmp(R::X))),
        0xE5 => spec_zeropage(spec_read_op(M::Sbc)),
        0xE6 => spec_zeropage(spec_rw_op(M::Inc(R::Bus, true))),
        0xE8 => spec_implied(M::Inc(R::X, true)),
        0xE9 => spec_immediate(M::Sbc),
        0xEA => spec_implied(M::Nop),
        0xEC => spec_absolute(spec_read_op(M::Cmp(R::X))),
        0xED => spec_absolute(spec_read_op(M::Sbc)),
        0xEE => spec_absolute(spec_rw_op(M::Inc(R::Bus, true))),
        0xF0 => spec_branch_if(F::Zero, true),
        0xF1 => spec_indirect_indexed(spec_read_op(M::Sbc)),
        0xF4 => spec_zeropage_indexed(R::X, spec_read_op(M::Nop)),
        0xF5 => spec_zeropage_indexed(R::X, spec_read_op(M::Sbc)),
        0xF6 => spec_zeropage_indexed(R::X, spec_rw_op(M::Inc(R::Bus, true))),
        0xF8 => spec_implied(M::SetF(F::Decimal)),
        0xF9 => spec_absolute_indexed(R::Y, spec_read_op(M::Sbc)),
        0xFA => spec_implied(M::Nop),
        0xFC => spec_absolute_indexed(R::X, spec_read_op(M::Nop)),
        0xFD => spec_absolute_indexed(R::X, spec_read_op(M::Sbc)),
        0xFE => spec_absolute_indexed(R::X, spec_rw_op_pc(M::Inc(R::Bus, true))),
        _ => Seq::empty(),
    }
}

/// The cycle sequence of an opcode; empty for unofficial opcodes.
pub open spec fn instruction_spec(opcode: u8) -> Seq<Cycle> {
    if opcode < 0x40 {
        spec_decode_q0(opcode)
    } else if opcode < 0x80 {
        spec_decode_q1(opcode)
    } else if opcode < 0xC0 {
        spec_decode_q2(opcode)
    } else {
        spec_decode_q3(opcode)
    }
}

/// See `spec_decode_q0`.
#[verifier::rlimit(100)]
#[verifier::spinoff_prover]
fn decode_q0(opcode: u8) -> (r: Vec<Cycle>)
    ensures
        r@ == spec_decode_q0(opcode),
{
    proof {
        reveal(spec_decode_q0);
    }
    match opcode {
        0x00 => brk_instr(),
        0x01 => indexed_indirect(read_op(M::Ora)),
        0x05 => zeropage(read_op(M::Ora)),
        0x06 => zeropage(rw_op(M::Asl(R::Bus))),
        0x08 => push_stack(R::FlagsPushed),
        0x09 => immediate(M::Ora),
        0x0A => implied(M::Asl(R::Acc)),
        0x0D => absolute(read_op(M::Ora)),
        0x0E => absolute(rw_op(M::Asl(R::Bus))),
        0x10 => branch_if(F::Negative, false),
        0x11 => indirect_indexed(read_op(M::Ora)),
        0x15 => zeropage_indexed(R::X, read_op(M::Ora)),
        0x16 => zeropage_indexed(R::X, rw_op(M::Asl(R::Bus))),
        0x18 => implied(M::Clr(F::Carry)),
        0x19 => absolute_indexed(R::Y, read_op(M::Ora)),
        0x1A => implied(M::Nop),
        0x1D => absolute_indexed(R::X, read_op(M::Ora)),
        0x1E => absolute_indexed(R::X, rw_op_pc(M::Asl(R::Bus))),
        0x20 => jsr(),
        0x21 => indexed_indirect(read_op(M::And)),
        0x24 => zeropage(read_op(M::Bit)),
        0x25 => zeropage(read_op(M::And)),
        0x26 => zeropage(rw_op(M::Rol(R::Bus))),
        0x28 => pull_stack(R::FlagsPulled, M::Nop),
        0x29 => immediate(M::And),
        0x2A => implied(M::Rol(R::Acc)),
        0x2C => absolute(read_op(M::Bit)),
        0x2D => absolute(read_op(M::And)),
        0x2E => absolute(rw_op(M::Rol(R::Bus))),
        0x30 => branch_if(F::Negative, true),
        0x31 => indirect_indexed(read_op(M::And)),
        0x34 => zeropage_indexed(R::X, read_op(M::Nop)),
        0x35 => zeropage_indexed(R::X, read_op(M::And)),
        0x36 => zeropage_indexed(R::X, rw_op(M::Rol(R::Bus))),
        0x38 => implied(M::SetF(F::Carry)),
        0x39 => absolute_indexed(R::Y, read_op(M::And)),
        0x3A => implied(M::Nop),
        0x3C => absolute_indexed(R::X, read_op(M::Nop)),
        0x3D => absolute_indexed(R::X, read_op(M::And)),
        0x3E => absolute_indexed(R::X, rw_op_pc(M::Rol(R::Bus))),
        _ => Vec::new(),
    }
}

/// See `spec_decode_q1`.
#[verifier::rlimit(100)]
#[verifier::spinoff_prover]
fn decode_q1(opcode: u8) -> (r: Vec<Cycle>)
    ensures
        r@ == spec_decode_q1(opcode),
{
    proof {
        reveal(spec_decode_q1);
    }
    match opcode {
        0x40 => rti(),
        0x41 => indexed_indirect(read_op(M::Eor)),
        0x44 => zeropage(read_op(M::Nop)),
        0x45 => zeropage(read_op(M::Eor)),
        0x46 => zeropage(rw_op(M::Lsr(R::Bus))),
        0x48 => push_stack(R::Acc),
        0x49 => immediate(M::Eor),
        0x4A => implied(M::Lsr(R::Acc)),
        0x4C => jmp_absolute(),
        0x4D => absolute(read_op(M::Eor)),
        0x4E => absolute(rw_op(M::Lsr(R::Bus))),
        0x50 => branch_if(F::Overflow, false),
        0x51 => indirect_indexed(read_op(M::Eor)),
        0x54 => zeropage_indexed(R::X, read_op(M::Nop)),
        0x55 => zeropage_indexed(R::X, read_op(M::Eor)),
        0x56 => zeropage_indexed(R::X, rw_op(M::Lsr(R::Bus))),
        0x58 => implied(M::Clr(F::InterruptDisable)),
        0x59 => absolute_indexed(R::Y, read_op(M::Eor)),
        0x5A => implied(M::Nop),
        0x5C => absolute_indexed(R::X, read_op(M::Nop)),
        0x5D => absolute_indexed(R::X, read_op(M::Eor)),
        0x5E => absolute_indexed(R::X, rw_op_pc(M::Lsr(R::Bus))),
        0x60 => rts(),
        0x61 => indexed_indirect(read_op(M::Adc)),
        0x64 => zeropage(read_op(M::Nop)),
        0x65 => zeropage(read_op(M::Adc)),
        0x66 => zeropage(rw_op(M::Ror(R::Bus))),
        0x68 => pull_stack(R::Acc, M::SetDefaultFlags(R::Acc)),
        0x69 => immediate(M::Adc),
        0x6A => implied(M::Ror(R::Acc)),
        0x6C => absolute_indirect_jmp(),
        0x6D => absolute(read_op(M::Adc)),
        0x6E => absolute(rw_op(M::Ror(R::Bus))),
        0x70 => branch_if(F::Overflow, true),
        0x71 => indirect_indexed(read_op(M::Adc)),
        0x74 => zeropage_indexed(R::X, read_op(M::Nop)),
        0x75 => zeropage_indexed(R::X, read_op(M::Adc)),
        0x76 => zeropage_indexed(R::X, rw_op(M::Ror(R::Bus))),
        0x78 => implied(M::SetF(F::InterruptDisable)),
        0x79 => absolute_indexed(R::Y, read_op(M::Adc)),
        0x7A => implied(M::Nop),
        0x7C => absolute_indexed(R::X, read_op(M::Nop)),
        0x7D => absolute_indexed(R::X, read_op(M::Adc)),
        0x7E => absolute_indexed(R::X, rw_op_pc(M::Ror(R::Bus))),
        _ => Vec::new(),
    }
}

/// See `spec_decode_q2`.
#[verifier::rlimit(100)]
#[verifier::spinoff_prover]
fn decode_q2(opcode: u8) -> (r: Vec<Cycle>)
    ensures
        r@ == spec_decode_q2(opcode),
{
    proof {
        reveal(spec_decode_q2);
    }
    match opcode {
        0x80 => immediate(M::Nop),
        0x81 => indexed_indirect(write_op(M::Mv(R::Acc, R::Bus))),
        0x84 => zeropage(write_op(M::Mv(R::Y, R::Bus))),
        0x85 => zeropage(write_op(M::Mv(R::Acc, R::Bus))),
        0x86 => zeropage(write_op(M::Mv(R::X, R::Bus))),
        0x88 => implied(M::Dec(R::Y, true)),
        0x8A => implied(M::Mv(R::X, R::Acc)),
        0x8C => absolute(write_op(M::Mv(R::Y, R::Bus))),
        0x8D => absolute(write_op(M::Mv(R::Acc, R::Bus))),
        0x8E => absolute(write_op(M::Mv(R::X, R::Bus))),
        0x90 => branch_if(F::Carry, false),
        0x91 => indirect_indexed(write_op_pc(M::Mv(R::Acc, R::Bus))),
        0x94 => zeropage_indexed(R::X, write_op(M::Mv(R::Y, R::Bus))),
        0x95 => zeropage_indexed(R::X, write_op(M::Mv(R::Acc, R::Bus))),
        0x96 => zeropage_indexed(R::Y, write_op(M::Mv(R::X, R::Bus))),
        0x98 => implied(M::Mv(R::Y, R::Acc)),
        0x99 => absolute_indexed(R::Y, write_op_pc(M::Mv(R::Acc, R::Bus))),
        0x9A => implied(M::Mv(R::X, R::Sp)),
        0x9D => absolute_indexed(R::X, write_op_pc(M::Mv(R::Acc, R::Bus))),
        0xA0 => immediate(M::Ldf(R::Y)),
        0xA1 => indexed_indirect(read_op(M::Ldf(R::Acc))),
        0xA2 => immediate(M::Ldf(R::X)),
        0xA4 => zeropage(read_op(M::Ldf(R::Y))),
        0xA5 => zeropage(read_op(M::Ldf(R::Acc))),
        0xA6 => zeropage(read_op(M::Ldf(R::X))),
        0xA8 => implied(M::Mv(R::Acc, R::Y)),
        0xA9 => immediate(M::Ldf(R::Acc)),
        0xAA => implied(M::Mv(R::Acc, R::X)),
        0xAC => absolute(read_op(M::Ldf(R::Y))),
        0xAD => absolute(read_op(M::Ldf(R::Acc))),
        0xAE => absolute(read_op(M::Ldf(R::X))),
        0xB0 => branch_if(F::Carry, true),
        0xB1 => indirect_indexed(read_op(M::Ldf(R::Acc))),
        0xB4 => zeropage_indexed(R::X, read_op(M::Ldf(R::Y))),
        0xB5 => zeropage_indexed(R::X, read_op(M::Ldf(R::Acc))),
        0xB6 => zeropage_indexed(R::Y, read_op(M::Ldf(R::X))),
        0xB8 => implied(M::Clr(F::Overflow)),
        0xB9 => absolute_indexed(R::Y, read_op(M::Ldf(R::Acc))),
        0xBA => implied(M::Mv(R::Sp, R::X)),
        0xBC => absolute_indexed(R::X, read_op(M::Ldf(R::Y))),
        0xBD => absolute_indexed(R::X, read_op(M::Ldf(R::Acc))),
        0xBE => absolute_indexed(R::Y, read_op(M::Ldf(R::X))),
        _ => Vec::new(),
    }
}

/// See `spec_decode_q3`.
#[verifier::rlimit(100)]
#[verifier::spinoff_prover]
fn decode_q3(opcode: u8) -> (r: Vec<Cycle>)
    ensures
        r@ == spec_decode_q3(opcode),
{
    proof {
        reveal(spec_decode_q3);
    }
    match opcode {
        0xC0 => immediate(M::Cmp(R::Y)),
        0xC1 => indexed_indirect(read_op(M::Cmp(R::Acc))),
        0xC4 => zeropage(read_op(M::Cmp(R::Y))),
        0xC5 => zeropage(read_op(M::Cmp(R::Acc))),
        0xC6 => zeropage(rw_op(M::Dec(R::Bus, true))),
        0xC8 => implied(M::Inc(R::Y, true)),
        0xC9 => immediate(M::Cmp(R::Acc)),
        0xCA => implied(M::Dec(R::X, true)),
        0xCC => absolute(read_op(M::Cmp(R::Y))),
        0xCD => absolute(read_op(M::Cmp(R::Acc))),
        0xCE => absolute(rw_op(M::Dec(R::Bus, true))),
        0xD0 => branch_if(F::Zero, false),
        0xD1 => indirect_indexed(read_op(M::Cmp(R::Acc))),
        0xD4 => zeropage_indexed(R::X, read_op(M::Nop)),
        0xD5 => zeropage_indexed(R::X, read_op(M::Cmp(R::Acc))),
        0xD6 => zeropage_indexed(R::X, rw_op(M::Dec(R::Bus, true))),
        0xD8 => implied(M::Clr(F::Decimal)),
        0xD9 => absolute_indexed(R::Y, read_op(M::Cmp(R::Acc))),
        0xDA => implied(M::Nop),
        0xDC => absolute_indexed(R::X, read_op(M::Nop)),
        0xDD => absolute_indexed(R::X, read_op(M::Cmp(R::Acc))),
        0xDE => absolute_indexed(R::X, rw_op_pc(M::Dec(R::Bus, true))),
        0xE0 => immediate(M::Cmp(R::X)),
        0xE1 => indexed_indirect(read_op(M::Sbc)),
        0xE4 => zeropage(read_op(M::Cmp(R::X))),
        0xE5 => zeropage(read_op(M::Sbc)),
        0xE6 => zeropage(rw_op(M::Inc(R::Bus, true))),
        0xE8 => implied(M::Inc(R::X, true)),
        0xE9 => immediate(M::Sbc),
        0xEA => implied(M::Nop),
        0xEC => absolute(read_op(M::Cmp(R::X))),
        0xED => absolute(read_op(M::Sbc)),
        0xEE => absolute(rw_op(M::Inc(R::Bus, true))),
        0xF0 => branch_if(F::Zero, true),
        0xF1 => indirect_indexed(read_op(M::Sbc)),
        0xF4 => zeropage_indexed(R::X, read_op(M::Nop)),
        0xF5 => zeropage_indexed(R::X, read_op(M::Sbc)),
        0xF6 => zeropage_indexed(R::X, rw_op(M::Inc(R::Bus, true))),
        0xF8 => implied(M::SetF(F::Decimal)),
        0xF9 => absolute_indexed(R::Y, read_op(M::Sbc)),
        0xFA => implied(M::Nop),
        0xFC => absolute_indexed(R::X, read_op(M::Nop)),
        0xFD => absolute_indexed(R::X, read_op(M::Sbc)),
        0xFE => absolute_indexed(R::X, rw_op_pc(M::Inc(R::Bus, true))),
        _ => Vec::new(),
    }
}

/// Build the cycle sequence of an opcode.
pub fn instruction(opcode: u8) -> (r: Vec<Cycle>)
    ensures
        r@ == instruction_spec(opcode),
{
    if opcode < 0x40 {
        decode_q0(opcode)
    } else if opcode < 0x80 {
        decode_q1(opcode)
    } else if opcode < 0xC0 {
        decode_q2(opcode)
    } else {
        decode_q3(opcode)
    }
}

} // verus!
