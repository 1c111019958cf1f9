//! The micro-operation primitives: register transfers, flag updates, the ALU
//! operations, and the handful of compound transfers (operand fetches, stack
//! pushes) that the 6502 performs inside a single cycle.
//!
//! Each primitive is carried by a unit struct whose `exec` mutates the
//! machine state, and by an arm of the `MathOp` tag enum that the instruction
//! table stores.  `apply_op_s` is the mathematical meaning shared by both.

use vstd::prelude::*;

use crate::cpu::{
    bus_addr, dec8, flag_get, flag_put, inc16, inc8, CpuFlags, Flag, CPU, CPUIO,
};
use crate::instructions::reg::{reg_get, reg_set, Register};
use crate::instructions::spec_branch;
use crate::{State, StateV};

verus! {

/// A micro-operation tag, as stored in the instruction table.
#[derive(Clone, Copy, PartialEq, Eq, Debug, Structural)]
pub enum MathOp {
    /// Do nothing.
    Nop,
    /// Copy one register to another.
    Mv(Register, Register),
    /// Set the zero and negative flags from a register.
    SetDefaultFlags(Register),
    /// Record the current bus address as the effective address.
    LogEff,
    /// Program the address bus from the program counter.
    SetAddrPC,
    /// Advance the program counter.
    IncPC,
    /// Add an index register to the low address byte; with `true`, raise
    /// `page_cross` when the addition wraps.
    AddIndex(Register, bool),
    /// Add with carry: `A + wire + C`.
    Adc,
    /// Subtract with borrow: `A - wire - (1 - C)`.
    Sbc,
    /// Compare a register with the wire.
    Cmp(Register),
    /// Bitwise AND into the accumulator.
    And,
    /// Bitwise OR into the accumulator.
    Ora,
    /// Bitwise XOR into the accumulator.
    Eor,
    /// Bit test of the wire against the accumulator.
    Bit,
    /// Arithmetic shift left of a register.
    Asl(Register),
    /// Logical shift right of a register.
    Lsr(Register),
    /// Rotate left through carry.
    Rol(Register),
    /// Rotate right through carry.
    Ror(Register),
    /// Clear one flag.
    Clr(Flag),
    /// Set one flag.
    SetF(Flag),
    /// Load the program counter from two registers (low, high).
    SetPc(Register, Register),
    /// Increment a register; with `true`, also set the Z/N flags.
    Inc(Register, bool),
    /// Decrement a register; with `true`, also set the Z/N flags.
    Dec(Register, bool),
    /// Raise the interrupt-disable flag, as BRK does.
    Brk,
    /// Capture the wire as the first operand and advance the counter.
    ReadFirst,
    /// Capture the wire as the second operand and advance the counter.
    ReadSecond,
    /// `ReadSecond`, then program the address bus from the two operands.
    ReadSecondAddr,
    /// Program the address bus from two registers (low, high).
    SetAddr(Register, Register),
    /// Program the stack address, stage a register on the wire, drop SP.
    PushStack(Register),
    /// Load a register from the wire and set the Z/N flags.
    Ldf(Register),
}

/// Zero and negative recomputed from a result byte.
pub open spec fn default_flags(f: CpuFlags, v: u8) -> CpuFlags {
    CpuFlags { z: v == 0, n: v >= 0x80, ..f }
}

/// Register-to-register copy.
pub open spec fn spec_mv(c: CPU, src: Register, dst: Register) -> CPU {
    reg_set(c, dst, reg_get(c, src))
}

/// Z/N flags recomputed from a register.
pub open spec fn spec_set_default_flags(c: CPU, r: Register) -> CPU {
    CPU { flags: default_flags(c.flags, reg_get(c, r)), ..c }
}

/// The effective address recorded from the bus.
pub open spec fn spec_log_eff(c: CPU) -> CPU {
    CPU { eff_addr: Some(bus_addr(c.io)), ..c }
}

/// The address bus programmed from the program counter.
pub open spec fn spec_set_addr_pc(c: CPU) -> CPU {
    CPU {
        io: CPUIO { low: (c.pc % 0x100) as u8, high: (c.pc / 0x100) as u8, ..c.io },
        ..c
    }
}

/// The program counter advanced by one.
pub open spec fn spec_inc_pc(c: CPU) -> CPU {
    CPU { pc: inc16(c.pc), ..c }
}

/// Low address byte plus an index register, with the carry-out.
pub open spec fn spec_add_index(c: CPU, page_cross: bool, r: Register, check: bool) -> (CPU, bool) {
    let sum = c.io.low + reg_get(c, r);
    (
        CPU { io: CPUIO { low: (sum % 0x100) as u8, ..c.io }, ..c },
        page_cross || (check && sum > 0xFF),
    )
}

/// Add with carry, with carry-out and signed overflow.
pub open spec fn spec_adc(c: CPU) -> CPU {
    let cin: int = if c.flags.c {
        1
    } else {
        0
    };
    let sum = c.a + c.io.wire + cin;
    let a2 = (sum % 0x100) as u8;
    let vf = (c.a ^ a2) & (c.io.wire ^ a2) & 0x80 != 0;
    CPU {
        a: a2,
        flags: CpuFlags { c: sum > 0xFF, v: vf, z: a2 == 0, n: a2 >= 0x80, ..c.flags },
        ..c
    }
}

/// Subtract with borrow, with carry-out and signed overflow.
pub open spec fn spec_sbc(c: CPU) -> CPU {
    let bin: int = if c.flags.c {
        0
    } else {
        1
    };
    let diff = c.a + 0x100 - c.io.wire - bin;
    let a2 = (diff % 0x100) as u8;
    let vf = (c.a ^ c.io.wire) & (c.a ^ a2) & 0x80 != 0;
    CPU {
        a: a2,
        flags: CpuFlags { c: diff > 0xFF, v: vf, z: a2 == 0, n: a2 >= 0x80, ..c.flags },
        ..c
    }
}

/// Compare a register with the wire; only flags change.
pub open spec fn spec_cmp(c: CPU, r: Register) -> CPU {
    let reg = reg_get(c, r);
    let m = c.io.wire;
    let res = ((reg + 0x100 - m) % 0x100) as u8;
    CPU { flags: CpuFlags { n: res >= 0x80, z: reg == m, c: reg >= m, ..c.flags }, ..c }
}

/// Bitwise AND into the accumulator.
pub open spec fn spec_and(c: CPU) -> CPU {
    let a2 = c.a & c.io.wire;
    CPU { a: a2, flags: default_flags(c.flags, a2), ..c }
}

/// Bitwise OR into the accumulator.
pub open spec fn spec_ora(c: CPU) -> CPU {
    let a2 = c.a | c.io.wire;
    CPU { a: a2, flags: default_flags(c.flags, a2), ..c }
}

/// Bitwise XOR into the accumulator.
pub open spec fn spec_eor(c: CPU) -> CPU {
    let a2 = c.a ^ c.io.wire;
    CPU { a: a2, flags: default_flags(c.flags, a2), ..c }
}

/// Bit test: Z from `A & wire`, N and V from bits 7 and 6 of the wire.
pub open spec fn spec_bit(c: CPU) -> CPU {
    CPU {
        flags: CpuFlags {
            z: c.a & c.io.wire == 0,
            n: c.io.wire >= 0x80,
            v: c.io.wire & 0x40 != 0,
            ..c.flags
        },
        ..c
    }
}

/// Arithmetic shift left; bit 7 falls into carry.
pub open spec fn spec_asl(c: CPU, r: Register) -> CPU {
    let v = reg_get(c, r);
    let v2 = ((v % 0x80) * 2) as u8;
    let c2 = reg_set(c, r, v2);
    CPU { flags: CpuFlags { c: v >= 0x80, n: v2 >= 0x80, z: v2 == 0, ..c2.flags }, ..c2 }
}

/// Logical shift right; bit 0 falls into carry, N is always clear.
pub open spec fn spec_lsr(c: CPU, r: Register) -> CPU {
    let v = reg_get(c, r);
    let v2 = (v / 2) as u8;
    let c2 = reg_set(c, r, v2);
    CPU { flags: CpuFlags { c: v % 2 == 1, n: false, z: v2 == 0, ..c2.flags }, ..c2 }
}

/// Rotate left through carry.
pub open spec fn spec_rol(c: CPU, r: Register) -> CPU {
    let v = reg_get(c, r);
    let cin: u8 = if c.flags.c {
        1
    } else {
        0
    };
    let v2 = ((v % 0x80) * 2 + cin) as u8;
    let c2 = reg_set(c, r, v2);
    CPU { flags: CpuFlags { c: v >= 0x80, n: v2 >= 0x80, z: v2 == 0, ..c2.flags }, ..c2 }
}

/// Rotate right through carry; the new N flag is the old carry.
pub open spec fn spec_ror(c: CPU, r: Register) -> CPU {
    let v = reg_get(c, r);
    let cin: u8 = if c.flags.c {
        0x80
    } else {
        0
    };
    let v2 = (v / 2 + cin) as u8;
    let c2 = reg_set(c, r, v2);
    CPU { flags: CpuFlags { c: v % 2 == 1, n: c.flags.c, z: v2 == 0, ..c2.flags }, ..c2 }
}

/// The program counter loaded from two registers.
pub open spec fn spec_set_pc(c: CPU, lo: Register, hi: Register) -> CPU {
    CPU { pc: (reg_get(c, lo) + reg_get(c, hi) * 0x100) as u16, ..c }
}

/// A register incremented with wrap, optionally updating Z/N.
pub open spec fn spec_inc(c: CPU, r: Register, set_flags: bool) -> CPU {
    let c2 = reg_set(c, r, inc8(reg_get(c, r)));
    if set_flags {
        spec_set_default_flags(c2, r)
    } else {
        c2
    }
}

/// A register decremented with wrap, optionally updating Z/N.
pub open spec fn spec_dec(c: CPU, r: Register, set_flags: bool) -> CPU {
    let c2 = reg_set(c, r, dec8(reg_get(c, r)));
    if set_flags {
        spec_set_default_flags(c2, r)
    } else {
        c2
    }
}

/// The wire captured as first operand, counter advanced.
pub open spec fn spec_read_first(c: CPU) -> CPU {
    spec_inc_pc(spec_mv(c, Register::Bus, Register::First))
}

/// The wire captured as second operand, counter advanced.
pub open spec fn spec_read_second(c: CPU) -> CPU {
    spec_inc_pc(spec_mv(c, Register::Bus, Register::Second))
}

/// The address bus programmed from two registers.
pub open spec fn spec_set_addr(c: CPU, lo: Register, hi: Register) -> CPU {
    spec_mv(spec_mv(c, lo, Register::AddrLow), hi, Register::AddrHigh)
}

/// `spec_read_second`, then the address bus from the two operands.
pub open spec fn spec_read_second_addr(c: CPU) -> CPU {
    spec_set_addr(spec_read_second(c), Register::First, Register::Second)
}

/// Stack address programmed, register staged on the wire, SP dropped.
pub open spec fn spec_push_stack(c: CPU, r: Register) -> CPU {
    spec_dec(
        spec_mv(spec_set_addr(c, Register::Sp, Register::Const(1)), r, Register::Bus),
        Register::Sp,
        false,
    )
}

/// A register loaded from the wire, Z/N updated.
pub open spec fn spec_ldf(c: CPU, r: Register) -> CPU {
    spec_set_default_flags(spec_mv(c, Register::Bus, r), r)
}

/// What one micro-operation does to the register file and to the sticky
/// `page_cross` bit; no micro-operation touches memory or the scheduler.
pub open spec fn op_apply(c: CPU, page_cross: bool, op: MathOp) -> (CPU, bool) {
    match op {
        MathOp::Nop => (c, page_cross),
        MathOp::Mv(src, dst) => (spec_mv(c, src, dst), page_cross),
        MathOp::SetDefaultFlags(r) => (spec_set_default_flags(c, r), page_cross),
        MathOp::LogEff => (spec_log_eff(c), page_cross),
        MathOp::SetAddrPC => (spec_set_addr_pc(c), page_cross),
        MathOp::IncPC => (spec_inc_pc(c), page_cross),
        MathOp::AddIndex(r, check) => spec_add_index(c, page_cross, r, check),
        MathOp::Adc => (spec_adc(c), page_cross),
        MathOp::Sbc => (spec_sbc(c), page_cross),
        MathOp::Cmp(r) => (spec_cmp(c, r), page_cross),
        MathOp::And => (spec_and(c), page_cross),
        MathOp::Ora => (spec_ora(c), page_cross),
        MathOp::Eor => (spec_eor(c), page_cross),
        MathOp::Bit => (spec_bit(c), page_cross),
        MathOp::Asl(r) => (spec_asl(c, r), page_cross),
        MathOp::Lsr(r) => (spec_lsr(c, r), page_cross),
        MathOp::Rol(r) => (spec_rol(c, r), page_cross),
        MathOp::Ror(r) => (spec_ror(c, r), page_cross),
        MathOp::Clr(f) => (CPU { flags: flag_put(c.flags, f, false), ..c }, page_cross),
        MathOp::SetF(f) => (CPU { flags: flag_put(c.flags, f, true), ..c }, page_cross),
        MathOp::SetPc(lo, hi) => (spec_set_pc(c, lo, hi), page_cross),
        MathOp::Inc(r, sf) => (spec_inc(c, r, sf), page_cross),
        MathOp::Dec(r, sf) => (spec_dec(c, r, sf), page_cross),
        MathOp::Brk => (
            CPU { flags: flag_put(c.flags, Flag::InterruptDisable, true), ..c },
            page_cross,
        ),
        MathOp::ReadFirst => (spec_read_first(c), page_cross),
        MathOp::ReadSecond => (spec_read_second(c), page_cross),
        MathOp::ReadSecondAddr => (spec_read_second_addr(c), page_cross),
        MathOp::SetAddr(lo, hi) => (spec_set_addr(c, lo, hi), page_cross),
        MathOp::PushStack(r) => (spec_push_stack(c, r), page_cross),
        MathOp::Ldf(r) => (spec_ldf(c, r), page_cross),
    }
}

/// `op_apply` lifted to the whole machine state.
pub open spec fn apply_op_s(s: StateV, op: MathOp) -> StateV {
    let co = op_apply(s.cpu, s.op_state.page_cross, op);
    StateV {
        cpu: co.0,
        op_state: crate::OpState { page_cross: co.1, ..s.op_state },
        ..s
    }
}

/// Do nothing.
pub struct NOP;

impl NOP {
    pub fn exec(state: &mut State)
        ensures
            final(state)@ == apply_op_s(old(state)@, MathOp::Nop),
    {
    }
}

/// Transfer a byte from one register to another.
pub struct MV;

impl MV {
    pub fn exec(state: &mut State, src: Register, dst: Register)
        ensures
            final(state)@ == apply_op_s(old(state)@, MathOp::Mv(src, dst)),
    {
        let v = src.get(&state.cpu);
        dst.set(&mut state.cpu, v);
    }
}

/// Set the zero and negative flags from a register.
pub struct SetDefaultFlags;

impl SetDefaultFlags {
    pub fn exec(state: &mut State, r: Register)
        ensures
            final(state)@ == apply_op_s(old(state)@, MathOp::SetDefaultFlags(r)),
    {
        let v = r.get(&state.cpu);
        state.cpu.flags.z = v == 0;
        state.cpu.flags.n = v >= 0x80;
    }
}

/// Record the current bus address as the instruction's effective address.
pub struct LogEff;

impl LogEff {
    pub fn exec(state: &mut State)
        ensures
            final(state)@ == apply_op_s(old(state)@, MathOp::LogEff),
    {
        let addr: u16 = (state.cpu.io.high as u16) * 0x100 + state.cpu.io.low as u16;
        state.cpu.eff_addr = Some(addr);
    }
}

/// Program the address bus from the program counter.
pub struct SetAddrPC;

impl SetAddrPC {
    pub fn exec(state: &mut State)
        ensures
            final(state)@ == apply_op_s(old(state)@, MathOp::SetAddrPC),
    {
        let pc = state.cpu.pc;
        state.cpu.io.set(pc);
    }
}

/// Advance the program counter, wrapping at the top of the address space.
pub struct IncPC;

impl IncPC {
    pub fn exec(state: &mut State)
        ensures
            final(state)@ == apply_op_s(old(state)@, MathOp::IncPC),
    {
        state.cpu.pc = if state.cpu.pc == 0xFFFF {
            0
        } else {
            state.cpu.pc + 1
        };
    }
}

/// Add an index register to the low address byte; on request, raise the
/// sticky `page_cross` bit when the addition wraps.
pub struct AddIndex;

impl AddIndex {
    pub fn exec(state: &mut State, r: Register, check_page: bool)
        ensures
            final(state)@ == apply_op_s(old(state)@, MathOp::AddIndex(r, check_page)),
    {
        let v = r.get(&state.cpu);
        let sum: u16 = state.cpu.io.low as u16 + v as u16;
        state.cpu.io.low = (sum % 0x100) as u8;
        if check_page && sum > 0xFF {
            state.op_state.page_cross = true;
        }
    }
}

/// `A = A + wire + C`; carry out of bit 7 sets C, signed overflow sets V.
pub struct ADC;

impl ADC {
    pub fn exec(state: &mut State)
        ensures
            final(state)@ == apply_op_s(old(state)@, MathOp::Adc),
    {
        let a = state.cpu.a;
        let w = state.cpu.io.wire;
        let cin: u16 = if state.cpu.flags.c {
            1
        } else {
            0
        };
        let sum: u16 = a as u16 + w as u16 + cin;
        let a2: u8 = (sum % 0x100) as u8;
        state.cpu.a = a2;
        state.cpu.flags.c = sum > 0xFF;
        state.cpu.flags.v = (a ^ a2) & (w ^ a2) & 0x80 != 0;
        state.cpu.flags.z = a2 == 0;
        state.cpu.flags.n = a2 >= 0x80;
    }
}

/// `A = A - wire - (1 - C)`; C is set when no borrow was needed.
pub struct SBC;

impl SBC {
    pub fn exec(state: &mut State)
        ensures
            final(state)@ == apply_op_s(old(state)@, MathOp::Sbc),
    {
        let a = state.cpu.a;
        let w = state.cpu.io.wire;
        let bin: u16 = if state.cpu.flags.c {
            0
        } else {
            1
        };
        let diff: u16 = a as u16 + 0x100 - w as u16 - bin;
        let a2: u8 = (diff % 0x100) as u8;
        state.cpu.a = a2;
        state.cpu.flags.c = diff > 0xFF;
        state.cpu.flags.v = (a ^ w) & (a ^ a2) & 0x80 != 0;
        state.cpu.flags.z = a2 == 0;
        state.cpu.flags.n = a2 >= 0x80;
    }
}

/// Compare a register with the wire: C when `reg >= wire`, Z on equality,
/// N from the sign of the difference.  No register changes.
pub struct CMP;

impl CMP {
    pub fn exec(state: &mut State, r: Register)
        ensures
            final(state)@ == apply_op_s(old(state)@, MathOp::Cmp(r)),
    {
        let reg = r.get(&state.cpu);
        let m = state.cpu.io.wire;
        let res: u8 = ((reg as u16 + 0x100 - m as u16) % 0x100) as u8;
        state.cpu.flags.n = res >= 0x80;
        state.cpu.flags.z = reg == m;
        state.cpu.flags.c = reg >= m;
    }
}

/// `A = A & wire`, Z/N from the result.
pub struct AND;

impl AND {
    pub fn exec(state: &mut State)
        ensures
            final(state)@ == apply_op_s(old(state)@, MathOp::And),
    {
        let a2 = state.cpu.a & state.cpu.io.wire;
        state.cpu.a = a2;
        state.cpu.flags.z = a2 == 0;
        state.cpu.flags.n = a2 >= 0x80;
    }
}

/// `A = A | wire`, Z/N from the result.
pub struct ORA;

impl ORA {
    pub fn exec(state: &mut State)
        ensures
            final(state)@ == apply_op_s(old(state)@, MathOp::Ora),
    {
        let a2 = state.cpu.a | state.cpu.io.wire;
        state.cpu.a = a2;
        state.cpu.flags.z = a2 == 0;
        state.cpu.flags.n = a2 >= 0x80;
    }
}

/// `A = A ^ wire`, Z/N from the result.
pub struct EOR;

impl EOR {
    pub fn exec(state: &mut State)
        ensures
            final(state)@ == apply_op_s(old(state)@, MathOp::Eor),
    {
        let a2 = state.cpu.a ^ state.cpu.io.wire;
        state.cpu.a = a2;
        state.cpu.flags.z = a2 == 0;
        state.cpu.flags.n = a2 >= 0x80;
    }
}

/// Bit test: Z from `A & wire`, N and V copied from bits 7 and 6 of the
/// wire.  The accumulator is left alone.
pub struct BIT;

impl BIT {
    pub fn exec(state: &mut State)
        ensures
            final(state)@ == apply_op_s(old(state)@, MathOp::Bit),
    {
        let w = state.cpu.io.wire;
        state.cpu.flags.z = state.cpu.a & w == 0;
        state.cpu.flags.n = w >= 0x80;
        state.cpu.flags.v = w & 0x40 != 0;
    }
}

/// Shift a register left; the bit shifted out becomes the carry.
pub struct ASL;

impl ASL {
    pub fn exec(state: &mut State, r: Register)
        ensures
            final(state)@ == apply_op_s(old(state)@, MathOp::Asl(r)),
    {
        let v = r.get(&state.cpu);
        let v2: u8 = (v % 0x80) * 2;
        r.set(&mut state.cpu, v2);
        state.cpu.flags.c = v >= 0x80;
        state.cpu.flags.n = v2 >= 0x80;
        state.cpu.flags.z = v2 == 0;
    }
}

/// Shift a register right; N is always cleared.
pub struct LSR;

impl LSR {
    pub fn exec(state: &mut State, r: Register)
        ensures
            final(state)@ == apply_op_s(old(state)@, MathOp::Lsr(r)),
    {
        let v = r.get(&state.cpu);
        let v2: u8 = v / 2;
        r.set(&mut state.cpu, v2);
        state.cpu.flags.c = v % 2 == 1;
        state.cpu.flags.n = false;
        state.cpu.flags.z = v2 == 0;
    }
}

/// Rotate a register left through the carry flag.
pub struct ROL;

impl ROL {
    pub fn exec(state: &mut State, r: Register)
        ensures
            final(state)@ == apply_op_s(old(state)@, MathOp::Rol(r)),
    {
        let v = r.get(&state.cpu);
        let cin: u8 = if state.cpu.flags.c {
            1
        } else {
            0
        };
        let v2: u8 = (v % 0x80) * 2 + cin;
        r.set(&mut state.cpu, v2);
        state.cpu.flags.c = v >= 0x80;
        state.cpu.flags.n = v2 >= 0x80;
        state.cpu.flags.z = v2 == 0;
    }
}

/// Rotate a register right through the carry flag; N becomes the old carry.
pub struct ROR;

impl ROR {
    pub fn exec(state: &mut State, r: Register)
        ensures
            final(state)@ == apply_op_s(old(state)@, MathOp::Ror(r)),
    {
        let v = r.get(&state.cpu);
        let old_c = state.cpu.flags.c;
        let cin: u8 = if old_c {
            0x80
        } else {
            0
        };
        let v2: u8 = v / 2 + cin;
        r.set(&mut state.cpu, v2);
        state.cpu.flags.c = v % 2 == 1;
        state.cpu.flags.n = old_c;
        state.cpu.flags.z = v2 == 0;
    }
}

/// Clear one status flag.
pub struct CLR;

impl CLR {
    pub fn exec(state: &mut State, f: Flag)
        ensures
            final(state)@ == apply_op_s(old(state)@, MathOp::Clr(f)),
    {
        state.cpu.flags.set(f, false);
    }
}

/// Set one status flag.
pub struct SET;

impl SET {
    pub fn exec(state: &mut State, f: Flag)
        ensures
            final(state)@ == apply_op_s(old(state)@, MathOp::SetF(f)),
    {
        state.cpu.flags.set(f, true);
    }
}

/// Load the program counter from two registers (low then high byte).
pub struct SET_PC;

impl SET_PC {
    pub fn exec(state: &mut State, lo: Register, hi: Register)
        ensures
            final(state)@ == apply_op_s(old(state)@, MathOp::SetPc(lo, hi)),
    {
        let l = lo.get(&state.cpu);
        let h = hi.get(&state.cpu);
        state.cpu.pc = l as u16 + (h as u16) * 0x100;
    }
}

/// Increment a register with wrap-around, optionally setting Z/N.
pub struct INC;

impl INC {
    pub fn exec(state: &mut State, r: Register, set_flags: bool)
        ensures
            final(state)@ == apply_op_s(old(state)@, MathOp::Inc(r, set_flags)),
    {
        let v = r.get(&state.cpu);
        let v2 = if v == 0xFF {
            0
        } else {
            v + 1
        };
        r.set(&mut state.cpu, v2);
        if set_flags {
            SetDefaultFlags::exec(state, r);
        }
    }
}

/// Decrement a register with wrap-around, optionally setting Z/N.
pub struct DEC;

impl DEC {
    pub fn exec(state: &mut State, r: Register, set_flags: bool)
        ensures
            final(state)@ == apply_op_s(old(state)@, MathOp::Dec(r, set_flags)),
    {
        let v = r.get(&state.cpu);
        let v2 = if v == 0 {
            0xFF
        } else {
            v - 1
        };
        r.set(&mut state.cpu, v2);
        if set_flags {
            SetDefaultFlags::exec(state, r);
        }
    }
}

/// Raise the interrupt-disable flag; the tail end of the BRK sequence.
pub struct BRK;

impl BRK {
    pub fn exec(state: &mut State)
        ensures
            final(state)@ == apply_op_s(old(state)@, MathOp::Brk),
    {
        state.cpu.flags.set(Flag::InterruptDisable, true);
    }
}

/// The branch micro-operation; see `spec_branch` for its meaning.
pub struct Branch;

impl Branch {
    #[verifier::rlimit(60)]
    #[verifier::spinoff_prover]
    pub fn exec(state: &mut State, f: Flag, want: bool)
        requires
            old(state)@.mem.wf(),
        ensures
            final(state)@ == spec_branch(old(state)@, f, want),
    {
        SetAddrPC::exec(state);
        if state.op_state.page_cross {
            state.op_state.page_cross = false;
            let h = Register::Pch.get(&state.cpu);
            let h2 = if h == 0xFF {
                0
            } else {
                h + 1
            };
            Register::Pch.set(&mut state.cpu, h2);
            return;
        }
        state.read();
        let w = state.cpu.io.wire;
        state.cpu.first = Some(w);
        if state.cpu.flags.contains(f) == want {
            state.op_state.branching = true;
            IncPC::exec(state);
            SetAddrPC::exec(state);
            AddIndex::exec(state, Register::Bus, true);
            MV::exec(state, Register::AddrLow, Register::Pcl);
            if state.op_state.page_cross {
                state.cycle_idx = if state.cycle_idx == 0 {
                    usize::MAX
                } else {
                    state.cycle_idx - 1
                };
            }
        } else {
            IncPC::exec(state);
        }
    }
}

impl MathOp {
    /// Run this micro-operation against the machine state.
    #[verifier::rlimit(100)]
    #[verifier::spinoff_prover]
    pub fn exec(self, state: &mut State)
        ensures
            final(state)@ == apply_op_s(old(state)@, self),
    {
        match self {
            MathOp::Nop => NOP::exec(state),
            MathOp::Mv(src, dst) => MV::exec(state, src, dst),
            MathOp::SetDefaultFlags(r) => SetDefaultFlags::exec(state, r),
            MathOp::LogEff => LogEff::exec(state),
            MathOp::SetAddrPC => SetAddrPC::exec(state),
            MathOp::IncPC => IncPC::exec(state),
            MathOp::AddIndex(r, check) => AddIndex::exec(state, r, check),
            MathOp::Adc => ADC::exec(state),
            MathOp::Sbc => SBC::exec(state),
            MathOp::Cmp(r) => CMP::exec(state, r),
            MathOp::And => AND::exec(state),
            MathOp::Ora => ORA::exec(state),
            MathOp::Eor => EOR::exec(state),
            MathOp::Bit => BIT::exec(state),
            MathOp::Asl(r) => ASL::exec(state, r),
            MathOp::Lsr(r) => LSR::exec(state, r),
            MathOp::Rol(r) => ROL::exec(state, r),
            MathOp::Ror(r) => ROR::exec(state, r),
            MathOp::Clr(f) => CLR::exec(state, f),
            MathOp::SetF(f) => SET::exec(state, f),
            MathOp::SetPc(lo, hi) => SET_PC::exec(state, lo, hi),
            MathOp::Inc(r, sf) => INC::exec(state, r, sf),
            MathOp::Dec(r, sf) => DEC::exec(state, r, sf),
            MathOp::Brk => BRK::exec(state),
            MathOp::ReadFirst => {
                MV::exec(state, Register::Bus, Register::First);
                IncPC::exec(state);
            },
            MathOp::ReadSecond => {
                MV::exec(state, Register::Bus, Register::Second);
                IncPC::exec(state);
            },
            MathOp::ReadSecondAddr => {
                MV::exec(state, Register::Bus, Register::Second);
                IncPC::exec(state);
                MV::exec(state, Register::First, Register::AddrLow);
                MV::exec(state, Register::Second, Register::AddrHigh);
            },
            MathOp::SetAddr(lo, hi) => {
                MV::exec(state, lo, Register::AddrLow);
                MV::exec(state, hi, Register::AddrHigh);
            },
            MathOp::PushStack(r) => {
                MV::exec(state, Register::Sp, Register::AddrLow);
                MV::exec(state, Register::Const(1), Register::AddrHigh);
                MV::exec(state, r, Register::Bus);
                DEC::exec(state, Register::Sp, false);
            },
            MathOp::Ldf(r) => {
                MV::exec(state, Register::Bus, r);
                SetDefaultFlags::exec(state, r);
            },
        }
    }
}

} // verus!
