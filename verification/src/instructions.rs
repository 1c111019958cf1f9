//! Instructions are sequences of micro-operations, one of which runs on each
//! cycle that the instruction is active.  Each micro-operation performs at
//! most one memory transaction together with some register transfers.  The
//! per-cycle structure follows the published 6502 cycle-by-cycle breakdowns.

pub mod math;
pub mod reg;
pub mod table;

use vstd::prelude::*;

use crate::cpu::{flag_get, inc8, Flag, CPU, CPUIO};
use crate::instructions::math::{apply_op_s, Branch, MathOp};
use crate::instructions::reg::{reg_get, reg_set, Register};
use crate::{spec_bus_read, spec_bus_write, OpState, State, StateV};

verus! {

/// One cycle of an instruction: at most one bus transaction, with register
/// transfers before and after it.
#[derive(Clone, Copy, PartialEq, Eq, Debug, Structural)]
pub enum Cycle {
    /// Run the first op, read the bus into the wire, run the two other ops.
    Read(MathOp, MathOp, MathOp),
    /// Run the first op, write the wire to the bus, run the two other ops.
    Write(MathOp, MathOp, MathOp),
    /// Like `Read`, but when a page crossing is pending: fix up the high
    /// address byte, re-read, and schedule this cycle to run again.
    OptRead(MathOp, MathOp, MathOp),
    /// Fix up the high address byte if a page crossing is pending, then read.
    CheckCross,
    /// The single body cycle of a relative branch on `flag == want`.
    BranchIf(Flag, bool),
}

/// `cycle_idx` stepped back one position, as the page-cross re-run does.
pub open spec fn dec_usize(x: usize) -> usize {
    if x == 0 {
        usize::MAX
    } else {
        (x - 1) as usize
    }
}

/// What one `Read` cycle does: ops around a bus read.
pub open spec fn spec_read_cycle(s: StateV, before: MathOp, after1: MathOp, after2: MathOp) -> StateV {
    apply_op_s(apply_op_s(spec_bus_read(apply_op_s(s, before)), after1), after2)
}

/// What one `Write` cycle does: ops around a bus write.
pub open spec fn spec_write_cycle(s: StateV, before: MathOp, after1: MathOp, after2: MathOp) -> StateV {
    apply_op_s(apply_op_s(spec_bus_write(apply_op_s(s, before)), after1), after2)
}

/// The page-cross fixup: bump the high address byte, drop the flag, re-read.
pub open spec fn spec_cross_fixup(s: StateV) -> StateV {
    let s1 = StateV {
        cpu: CPU { io: CPUIO { high: inc8(s.cpu.io.high), ..s.cpu.io }, ..s.cpu },
        op_state: OpState { page_cross: false, ..s.op_state },
        ..s
    };
    spec_bus_read(s1)
}

/// What one cycle does to the state, including the page-cross re-run of
/// `OptRead` and the branch micro-operation.
#[verifier::opaque]
pub open spec fn spec_cycle(s: StateV, c: Cycle) -> StateV {
    match c {
        Cycle::Read(b, a1, a2) => spec_read_cycle(s, b, a1, a2),
        Cycle::Write(b, a1, a2) => spec_write_cycle(s, b, a1, a2),
        Cycle::OptRead(b, a1, a2) => {
            if s.op_state.page_cross {
                let s1 = spec_cross_fixup(s);
                StateV { cycle_idx: dec_usize(s1.cycle_idx), ..s1 }
            } else {
                spec_read_cycle(s, b, a1, a2)
            }
        },
        Cycle::CheckCross => {
            if s.op_state.page_cross {
                spec_cross_fixup(s)
            } else {
                spec_bus_read(s)
            }
        },
        Cycle::BranchIf(f, want) => spec_branch(s, f, want),
    }
}

/// The branch micro-operation.  On a re-run after a page crossing it only
/// repairs the high byte of the program counter.  Otherwise it reads the
/// operand; if the tested flag misses it just steps past the operand, and if
/// it matches it adds the operand to the low program-counter byte, raising
/// `page_cross` (and scheduling a re-run) when that addition wraps.
pub open spec fn spec_branch(s: StateV, f: Flag, want: bool) -> StateV {
    let s0 = apply_op_s(s, MathOp::SetAddrPC);
    if s.op_state.page_cross {
        StateV {
            cpu: reg_set(s0.cpu, Register::Pch, inc8(reg_get(s0.cpu, Register::Pch))),
            op_state: OpState { page_cross: false, ..s0.op_state },
            ..s0
        }
    } else {
        let s1 = spec_bus_read(s0);
        let s2 = StateV { cpu: CPU { first: Some(s1.cpu.io.wire), ..s1.cpu }, ..s1 };
        if flag_get(s2.cpu.flags, f) == want {
            let s3 = StateV { op_state: OpState { branching: true, ..s2.op_state }, ..s2 };
            let s4 = apply_op_s(apply_op_s(s3, MathOp::IncPC), MathOp::SetAddrPC);
            let s5 = apply_op_s(s4, MathOp::AddIndex(Register::Bus, true));
            let s6 = apply_op_s(s5, MathOp::Mv(Register::AddrLow, Register::Pcl));
            if s6.op_state.page_cross {
                StateV { cycle_idx: dec_usize(s6.cycle_idx), ..s6 }
            } else {
                s6
            }
        } else {
            apply_op_s(s2, MathOp::IncPC)
        }
    }
}

/// Exec `before`, perform one bus read, exec the `after` ops.
pub fn read(state: &mut State, before: MathOp, after1: MathOp, after2: MathOp)
    requires
        old(state)@.mem.wf(),
    ensures
        final(state)@ == spec_read_cycle(old(state)@, before, after1, after2),
{
    before.exec(state);
    state.read();
    after1.exec(state);
    after2.exec(state);
}

/// Exec `before`, perform one bus write, exec the `after` ops.
pub fn write(state: &mut State, before: MathOp, after1: MathOp, after2: MathOp)
    requires
        old(state)@.mem.wf(),
    ensures
        final(state)@ == spec_write_cycle(old(state)@, before, after1, after2),
{
    before.exec(state);
    state.write();
    after1.exec(state);
    after2.exec(state);
}

/// If a page crossing is pending, fix the high address byte and drop the
/// flag; then read the (possibly corrected) address.
pub fn check_pagecross(state: &mut State)
    requires
        old(state)@.mem.wf(),
    ensures
        final(state)@ == spec_cycle(old(state)@, Cycle::CheckCross),
{
    proof {
        reveal(spec_cycle);
    }
    if state.op_state.page_cross {
        state.cpu.io.high = if state.cpu.io.high == 0xFF {
            0
        } else {
            state.cpu.io.high + 1
        };
        state.op_state.page_cross = false;
    }
    state.read();
}

/// The page-cross-aware read cycle: on a pending crossing it performs the
/// fixup read and steps `cycle_idx` back so that this cycle runs again.
pub fn opt_read(state: &mut State, before: MathOp, after1: MathOp, after2: MathOp)
    requires
        old(state)@.mem.wf(),
    ensures
        final(state)@ == spec_cycle(old(state)@, Cycle::OptRead(before, after1, after2)),
{
    proof {
        reveal(spec_cycle);
    }
    if state.op_state.page_cross {
        state.cpu.io.high = if state.cpu.io.high == 0xFF {
            0
        } else {
            state.cpu.io.high + 1
        };
        state.op_state.page_cross = false;
        state.read();
        state.cycle_idx = if state.cycle_idx == 0 {
            usize::MAX
        } else {
            state.cycle_idx - 1
        };
    } else {
        read(state, before, after1, after2);
    }
}

/// The two cycle sequences laid end to end.
pub fn join(a: Vec<Cycle>, b: Vec<Cycle>) -> (r: Vec<Cycle>)
    ensures
        r@ == a@ + b@,
{
    let mut r = a;
    let mut tail = b;
    r.append(&mut tail);
    r
}

/// A one-cycle sequence.
fn cyc1(a: Cycle) -> (r: Vec<Cycle>)
    ensures
        r@ == seq![a],
{
    let mut r: Vec<Cycle> = Vec::new();
    r.push(a);
    proof {
        assert(r@ =~= seq![a]);
    }
    r
}

/// A two-cycle sequence.
fn cyc2(a: Cycle, b: Cycle) -> (r: Vec<Cycle>)
    ensures
        r@ == seq![a, b],
{
    let mut r: Vec<Cycle> = Vec::new();
    r.push(a);
    r.push(b);
    proof {
        assert(r@ =~= seq![a, b]);
    }
    r
}

/// The body of an instruction that reads its operand: one cycle that reads
/// the effective address (with the page-cross re-run) and runs the ALU op.
pub open spec fn spec_read_op(m: MathOp) -> Seq<Cycle> {
    seq![Cycle::OptRead(MathOp::LogEff, m, MathOp::Nop)]
}

/// See `spec_read_op`.
pub fn read_op(m: MathOp) -> (r: Vec<Cycle>)
    ensures
        r@ == spec_read_op(m),
{
    cyc1(Cycle::OptRead(MathOp::LogEff, m, MathOp::Nop))
}

/// The body of a plain store: the ALU op stages the wire, one write cycle.
pub open spec fn spec_write_op(m: MathOp) -> Seq<Cycle> {
    seq![Cycle::Write(m, MathOp::LogEff, MathOp::Nop)]
}

/// See `spec_write_op`.
pub fn write_op(m: MathOp) -> (r: Vec<Cycle>)
    ensures
        r@ == spec_write_op(m),
{
    cyc1(Cycle::Write(m, MathOp::LogEff, MathOp::Nop))
}

/// The body of an indexed store: the carry fixup cycle always runs, then
/// the write.
pub open spec fn spec_write_op_pc(m: MathOp) -> Seq<Cycle> {
    seq![Cycle::CheckCross, Cycle::Write(m, MathOp::LogEff, MathOp::Nop)]
}

/// See `spec_write_op_pc`.
pub fn write_op_pc(m: MathOp) -> (r: Vec<Cycle>)
    ensures
        r@ == spec_write_op_pc(m),
{
    cyc2(Cycle::CheckCross, Cycle::Write(m, MathOp::LogEff, MathOp::Nop))
}

/// The body of a read-modify-write: read, write the old value back while
/// the ALU op recomputes the wire, write the new value.
pub open spec fn spec_rw_op(m: MathOp) -> Seq<Cycle> {
    seq![
        Cycle::Read(MathOp::Nop, MathOp::Nop, MathOp::Nop),
        Cycle::Write(MathOp::LogEff, m, MathOp::Nop),
        Cycle::Write(MathOp::Nop, MathOp::Nop, MathOp::Nop),
    ]
}

/// See `spec_rw_op`.
pub fn rw_op(m: MathOp) -> (r: Vec<Cycle>)
    ensures
        r@ == spec_rw_op(m),
{
    let mut r: Vec<Cycle> = Vec::new();
    r.push(Cycle::Read(MathOp::Nop, MathOp::Nop, MathOp::Nop));
    r.push(Cycle::Write(MathOp::LogEff, m, MathOp::Nop));
    r.push(Cycle::Write(MathOp::Nop, MathOp::Nop, MathOp::Nop));
    proof {
        assert(r@ =~= spec_rw_op(m));
    }
    r
}

/// An indexed read-modify-write body: the carry fixup always runs first.
pub open spec fn spec_rw_op_pc(m: MathOp) -> Seq<Cycle> {
    seq![Cycle::CheckCross] + spec_rw_op(m)
}

/// See `spec_rw_op_pc`.
pub fn rw_op_pc(m: MathOp) -> (r: Vec<Cycle>)
    ensures
        r@ == spec_rw_op_pc(m),
{
    join(cyc1(Cycle::CheckCross), rw_op(m))
}

/// Implied addressing: a dummy read of the next instruction byte while the
/// ALU op runs.
pub open spec fn spec_implied(m: MathOp) -> Seq<Cycle> {
    seq![Cycle::Read(MathOp::SetAddrPC, m, MathOp::Nop)]
}

/// See `spec_implied`.
pub fn implied(m: MathOp) -> (r: Vec<Cycle>)
    ensures
        r@ == spec_implied(m),
{
    cyc1(Cycle::Read(MathOp::SetAddrPC, m, MathOp::Nop))
}

/// Immediate addressing: the operand byte is the value.
pub open spec fn spec_immediate(m: MathOp) -> Seq<Cycle> {
    seq![Cycle::Read(MathOp::SetAddrPC, MathOp::ReadFirst, m)]
}

/// See `spec_immediate`.
pub fn immediate(m: MathOp) -> (r: Vec<Cycle>)
    ensures
        r@ == spec_immediate(m),
{
    cyc1(Cycle::Read(MathOp::SetAddrPC, MathOp::ReadFirst, m))
}

/// Zero-page addressing: the operand byte is the low address byte.
pub open spec fn spec_zeropage(op: Seq<Cycle>) -> Seq<Cycle> {
    seq![
        Cycle::Read(
            MathOp::SetAddrPC,
            MathOp::ReadFirst,
            MathOp::SetAddr(Register::First, Register::Const(0)),
        ),
    ] + op
}

/// See `spec_zeropage`.
pub fn zeropage(op: Vec<Cycle>) -> (r: Vec<Cycle>)
    ensures
        r@ == spec_zeropage(op@),
{
    join(
        cyc1(
            Cycle::Read(
                MathOp::SetAddrPC,
                MathOp::ReadFirst,
                MathOp::SetAddr(Register::First, Register::Const(0)),
            ),
        ),
        op,
    )
}

/// Zero-page indexed addressing: a dummy read at the base address while the
/// index is added; the sum wraps within the zero page.
pub open spec fn spec_zeropage_indexed(i: Register, op: Seq<Cycle>) -> Seq<Cycle> {
    seq![
        Cycle::Read(MathOp::SetAddrPC, MathOp::ReadFirst, MathOp::Nop),
        Cycle::Read(
            MathOp::SetAddr(Register::First, Register::Const(0)),
            MathOp::AddIndex(i, false),
            MathOp::Nop,
        ),
    ] + op
}

/// See `spec_zeropage_indexed`.
pub fn zeropage_indexed(i: Register, op: Vec<Cycle>) -> (r: Vec<Cycle>)
    ensures
        r@ == spec_zeropage_indexed(i, op@),
{
    join(
        cyc2(
            Cycle::Read(MathOp::SetAddrPC, MathOp::ReadFirst, MathOp::Nop),
            Cycle::Read(
                MathOp::SetAddr(Register::First, Register::Const(0)),
                MathOp::AddIndex(i, false),
                MathOp::Nop,
            ),
        ),
        op,
    )
}

/// Absolute addressing: two operand bytes form the effective address.
pub open spec fn spec_absolute(op: Seq<Cycle>) -> Seq<Cycle> {
    seq![
        Cycle::Read(MathOp::SetAddrPC, MathOp::ReadFirst, MathOp::Nop),
        Cycle::Read(MathOp::SetAddrPC, MathOp::ReadSecondAddr, MathOp::Nop),
    ] + op
}

/// See `spec_absolute`.
pub fn absolute(op: Vec<Cycle>) -> (r: Vec<Cycle>)
    ensures
        r@ == spec_absolute(op@),
{
    join(
        cyc2(
            Cycle::Read(MathOp::SetAddrPC, MathOp::ReadFirst, MathOp::Nop),
            Cycle::Read(MathOp::SetAddrPC, MathOp::ReadSecondAddr, MathOp::Nop),
        ),
        op,
    )
}

/// Absolute indexed addressing: the index is added to the low address byte,
/// raising `page_cross` on carry.
pub open spec fn spec_absolute_indexed(i: Register, op: Seq<Cycle>) -> Seq<Cycle> {
    seq![
        Cycle::Read(MathOp::SetAddrPC, MathOp::ReadFirst, MathOp::Nop),
        Cycle::Read(MathOp::SetAddrPC, MathOp::ReadSecondAddr, MathOp::AddIndex(i, true)),
    ] + op
}

/// See `spec_absolute_indexed`.
pub fn absolute_indexed(i: Register, op: Vec<Cycle>) -> (r: Vec<Cycle>)
    ensures
        r@ == spec_absolute_indexed(i, op@),
{
    join(
        cyc2(
            Cycle::Read(MathOp::SetAddrPC, MathOp::ReadFirst, MathOp::Nop),
            Cycle::Read(MathOp::SetAddrPC, MathOp::ReadSecondAddr, MathOp::AddIndex(i, true)),
        ),
        op,
    )
}

/// Relative addressing: the whole branch is one micro-operation.
pub open spec fn spec_branch_if(f: Flag, want: bool) -> Seq<Cycle> {
    seq![Cycle::BranchIf(f, want)]
}

/// See `spec_branch_if`.
pub fn branch_if(f: Flag, want: bool) -> (r: Vec<Cycle>)
    ensures
        r@ == spec_branch_if(f, want),
{
    cyc1(Cycle::BranchIf(f, want))
}

/// Indexed indirect `(nn,X)`: the zero-page pointer is indexed by X (with
/// zero-page wrap-around), then both bytes of the effective address are
/// fetched from the zero page.
pub open spec fn spec_indexed_indirect(op: Seq<Cycle>) -> Seq<Cycle> {
    seq![
        Cycle::Read(MathOp::SetAddrPC, MathOp::ReadFirst, MathOp::Nop),
        Cycle::Read(
            MathOp::SetAddr(Register::First, Register::Const(0)),
            MathOp::AddIndex(Register::X, false),
            MathOp::Nop,
        ),
        Cycle::Read(MathOp::Nop, MathOp::Mv(Register::Bus, Register::Latch), MathOp::Nop),
        Cycle::Read(
            MathOp::Inc(Register::AddrLow, false),
            MathOp::SetAddr(Register::Latch, Register::Bus),
            MathOp::Nop,
        ),
    ] + op
}

/// See `spec_indexed_indirect`.
pub fn indexed_indirect(op: Vec<Cycle>) -> (r: Vec<Cycle>)
    ensures
        r@ == spec_indexed_indirect(op@),
{
    let mut pre: Vec<Cycle> = Vec::new();
    pre.push(Cycle::Read(MathOp::SetAddrPC, MathOp::ReadFirst, MathOp::Nop));
    pre.push(
        Cycle::Read(
            MathOp::SetAddr(Register::First, Register::Const(0)),
            MathOp::AddIndex(Register::X, false),
            MathOp::Nop,
        ),
    );
    pre.push(Cycle::Read(MathOp::Nop, MathOp::Mv(Register::Bus, Register::Latch), MathOp::Nop));
    pre.push(
        Cycle::Read(
            MathOp::Inc(Register::AddrLow, false),
            MathOp::SetAddr(Register::Latch, Register::Bus),
            MathOp::Nop,
        ),
    );
    proof {
        assert(pre@ + op@ =~= spec_indexed_indirect(op@));
    }
    join(pre, op)
}

/// Indirect indexed `(nn),Y`: the effective address is fetched from the
/// zero page, then Y is added to its low byte, raising `page_cross` on
/// carry.
pub open spec fn spec_indirect_indexed(op: Seq<Cycle>) -> Seq<Cycle> {
    seq![
        Cycle::Read(MathOp::SetAddrPC, MathOp::ReadFirst, MathOp::Nop),
        Cycle::Read(
            MathOp::SetAddr(Register::First, Register::Const(0)),
            MathOp::Mv(Register::Bus, Register::Latch),
            MathOp::Nop,
        ),
        Cycle::Read(
            MathOp::Inc(Register::AddrLow, false),
            MathOp::SetAddr(Register::Latch, Register::Bus),
            MathOp::AddIndex(Register::Y, true),
        ),
    ] + op
}

/// See `spec_indirect_indexed`.
pub fn indirect_indexed(op: Vec<Cycle>) -> (r: Vec<Cycle>)
    ensures
        r@ == spec_indirect_indexed(op@),
{
    let mut pre: Vec<Cycle> = Vec::new();
    pre.push(Cycle::Read(MathOp::SetAddrPC, MathOp::ReadFirst, MathOp::Nop));
    pre.push(
        Cycle::Read(
            MathOp::SetAddr(Register::First, Register::Const(0)),
            MathOp::Mv(Register::Bus, Register::Latch),
            MathOp::Nop,
        ),
    );
    pre.push(
        Cycle::Read(
            MathOp::Inc(Register::AddrLow, false),
            MathOp::SetAddr(Register::Latch, Register::Bus),
            MathOp::AddIndex(Register::Y, true),
        ),
    );
    proof {
        assert(pre@ + op@ =~= spec_indirect_indexed(op@));
    }
    join(pre, op)
}

/// Absolute indirect, used only by JMP: the destination is fetched through
/// a pointer whose low byte increments without carrying into the high byte,
/// so a pointer at `$XXFF` takes its high byte from `$XX00`.
pub open spec fn spec_absolute_indirect_jmp() -> Seq<Cycle> {
    seq![
        Cycle::Read(MathOp::SetAddrPC, MathOp::ReadFirst, MathOp::Nop),
        Cycle::Read(MathOp::SetAddrPC, MathOp::ReadSecond, MathOp::Nop),
        Cycle::Read(
            MathOp::SetAddr(Register::First, Register::Second),
            MathOp::Mv(Register::Bus, Register::Latch),
            MathOp::Nop,
        ),
        Cycle::Read(
            MathOp::Inc(Register::AddrLow, false),
            MathOp::Mv(Register::Bus, Register::Pch),
            MathOp::Mv(Register::Latch, Register::Pcl),
        ),
    ]
}

/// See `spec_absolute_indirect_jmp`.
pub fn absolute_indirect_jmp() -> (r: Vec<Cycle>)
    ensures
        r@ == spec_absolute_indirect_jmp(),
{
    let mut r: Vec<Cycle> = Vec::new();
    r.push(Cycle::Read(MathOp::SetAddrPC, MathOp::ReadFirst, MathOp::Nop));
    r.push(Cycle::Read(MathOp::SetAddrPC, MathOp::ReadSecond, MathOp::Nop));
    r.push(
        Cycle::Read(
            MathOp::SetAddr(Register::First, Register::Second),
            MathOp::Mv(Register::Bus, Register::Latch),
            MathOp::Nop,
        ),
    );
    r.push(
        Cycle::Read(
            MathOp::Inc(Register::AddrLow, false),
            MathOp::Mv(Register::Bus, Register::Pch),
            MathOp::Mv(Register::Latch, Register::Pcl),
        ),
    );
    proof {
        assert(r@ =~= spec_absolute_indirect_jmp());
    }
    r
}

/// Absolute JMP: two operand bytes straight into the program counter.
pub open spec fn spec_jmp_absolute() -> Seq<Cycle> {
    seq![
        Cycle::Read(MathOp::SetAddrPC, MathOp::ReadFirst, MathOp::Nop),
        Cycle::Read(
            MathOp::SetAddrPC,
            MathOp::ReadSecond,
            MathOp::SetPc(Register::First, Register::Second),
        ),
    ]
}

/// See `spec_jmp_absolute`.
pub fn jmp_absolute() -> (r: Vec<Cycle>)
    ensures
        r@ == spec_jmp_absolute(),
{
    cyc2(
        Cycle::Read(MathOp::SetAddrPC, MathOp::ReadFirst, MathOp::Nop),
        Cycle::Read(
            MathOp::SetAddrPC,
            MathOp::ReadSecond,
            MathOp::SetPc(Register::First, Register::Second),
        ),
    )
}

/// PHA/PHP: a dummy read, then the register is pushed.
pub open spec fn spec_push_stack(r: Register) -> Seq<Cycle> {
    seq![
        Cycle::Read(MathOp::SetAddrPC, MathOp::Nop, MathOp::Nop),
        Cycle::Write(MathOp::PushStack(r), MathOp::Nop, MathOp::Nop),
    ]
}

/// See `spec_push_stack`.
pub fn push_stack(r: Register) -> (res: Vec<Cycle>)
    ensures
        res@ == spec_push_stack(r),
{
    cyc2(
        Cycle::Read(MathOp::SetAddrPC, MathOp::Nop, MathOp::Nop),
        Cycle::Write(MathOp::PushStack(r), MathOp::Nop, MathOp::Nop),
    )
}

/// PLA/PLP: a dummy read, SP stepped up, the byte pulled into the register,
/// then an extra op (PLA recomputes Z/N there).
pub open spec fn spec_pull_stack(r: Register, e: MathOp) -> Seq<Cycle> {
    seq![
        Cycle::Read(MathOp::SetAddrPC, MathOp::Nop, MathOp::Nop),
        Cycle::Read(MathOp::Nop, MathOp::Inc(Register::Sp, false), MathOp::Nop),
        Cycle::Read(
            MathOp::SetAddr(Register::Sp, Register::Const(1)),
            MathOp::Mv(Register::Bus, r),
            e,
        ),
    ]
}

/// See `spec_pull_stack`.
pub fn pull_stack(r: Register, e: MathOp) -> (res: Vec<Cycle>)
    ensures
        res@ == spec_pull_stack(r, e),
{
    let mut res: Vec<Cycle> = Vec::new();
    res.push(Cycle::Read(MathOp::SetAddrPC, MathOp::Nop, MathOp::Nop));
    res.push(Cycle::Read(MathOp::Nop, MathOp::Inc(Register::Sp, false), MathOp::Nop));
    res.push(
        Cycle::Read(
            MathOp::SetAddr(Register::Sp, Register::Const(1)),
            MathOp::Mv(Register::Bus, r),
            e,
        ),
    );
    proof {
        assert(res@ =~= spec_pull_stack(r, e));
    }
    res
}

/// JSR: the low target byte is fetched, the address of the last operand
/// byte is pushed high-then-low, and the jump lands as the high byte is
/// fetched.
pub open spec fn spec_jsr() -> Seq<Cycle> {
    seq![
        Cycle::Read(MathOp::SetAddrPC, MathOp::ReadFirst, MathOp::Nop),
        Cycle::Read(MathOp::SetAddr(Register::Sp, Register::Const(1)), MathOp::Nop, MathOp::Nop),
        Cycle::Write(MathOp::PushStack(Register::Pch), MathOp::Nop, MathOp::Nop),
        Cycle::Write(MathOp::PushStack(Register::Pcl), MathOp::Nop, MathOp::Nop),
        Cycle::Read(
            MathOp::SetAddrPC,
            MathOp::ReadSecond,
            MathOp::SetPc(Register::First, Register::Second),
        ),
    ]
}

/// See `spec_jsr`.
pub fn jsr() -> (r: Vec<Cycle>)
    ensures
        r@ == spec_jsr(),
{
    let mut r: Vec<Cycle> = Vec::new();
    r.push(Cycle::Read(MathOp::SetAddrPC, MathOp::ReadFirst, MathOp::Nop));
    r.push(Cycle::Read(MathOp::SetAddr(Register::Sp, Register::Const(1)), MathOp::Nop, MathOp::Nop));
    r.push(Cycle::Write(MathOp::PushStack(Register::Pch), MathOp::Nop, MathOp::Nop));
    r.push(Cycle::Write(MathOp::PushStack(Register::Pcl), MathOp::Nop, MathOp::Nop));
    r.push(
        Cycle::Read(
            MathOp::SetAddrPC,
            MathOp::ReadSecond,
            MathOp::SetPc(Register::First, Register::Second),
        ),
    );
    proof {
        assert(r@ =~= spec_jsr());
    }
    r
}

/// RTS: the return address is pulled low-then-high and stepped past the
/// operand byte JSR left it on.
pub open spec fn spec_rts() -> Seq<Cycle> {
    seq![
        Cycle::Read(MathOp::SetAddrPC, MathOp::Nop, MathOp::Nop),
        Cycle::Read(
            MathOp::SetAddr(Register::Sp, Register::Const(1)),
            MathOp::Inc(Register::Sp, false),
            MathOp::Nop,
        ),
        Cycle::Read(
            MathOp::SetAddr(Register::Sp, Register::Const(1)),
            MathOp::Mv(Register::Bus, Register::Pcl),
            MathOp::Inc(Register::Sp, false),
        ),
        Cycle::Read(
            MathOp::SetAddr(Register::Sp, Register::Const(1)),
            MathOp::Mv(Register::Bus, Register::Pch),
            MathOp::Nop,
        ),
        Cycle::Read(MathOp::Nop, MathOp::IncPC, MathOp::Nop),
    ]
}

/// See `spec_rts`.
pub fn rts() -> (r: Vec<Cycle>)
    ensures
        r@ == spec_rts(),
{
    let mut r: Vec<Cycle> = Vec::new();
    r.push(Cycle::Read(MathOp::SetAddrPC, MathOp::Nop, MathOp::Nop));
    r.push(
        Cycle::Read(
            MathOp::SetAddr(Register::Sp, Register::Const(1)),
            MathOp::Inc(Register::Sp, false),
            MathOp::Nop,
        ),
    );
    r.push(
        Cycle::Read(
            MathOp::SetAddr(Register::Sp, Register::Const(1)),
            MathOp::Mv(Register::Bus, Register::Pcl),
            MathOp::Inc(Register::Sp, false),
        ),
    );
    r.push(
        Cycle::Read(
            MathOp::SetAddr(Register::Sp, Register::Const(1)),
            MathOp::Mv(Register::Bus, Register::Pch),
            MathOp::Nop,
        ),
    );
    r.push(Cycle::Read(MathOp::Nop, MathOp::IncPC, MathOp::Nop));
    proof {
        assert(r@ =~= spec_rts());
    }
    r
}

/// BRK: the return address and the flags (with the break bit set) are
/// pushed, interrupts are disabled, and the IRQ vector is followed.
pub open spec fn spec_brk_instr() -> Seq<Cycle> {
    seq![
        Cycle::Read(MathOp::SetAddrPC, MathOp::IncPC, MathOp::Nop),
        Cycle::Write(MathOp::PushStack(Register::Pch), MathOp::Nop, MathOp::Nop),
        Cycle::Write(MathOp::PushStack(Register::Pcl), MathOp::Nop, MathOp::Nop),
        Cycle::Write(MathOp::PushStack(Register::FlagsPushed), MathOp::Nop, MathOp::Nop),
        Cycle::Read(
            MathOp::SetAddr(Register::Const(0xFE), Register::Const(0xFF)),
            MathOp::Mv(Register::Bus, Register::Pcl),
            MathOp::Brk,
        ),
        Cycle::Read(
            MathOp::SetAddr(Register::Const(0xFF), Register::Const(0xFF)),
            MathOp::Mv(Register::Bus, Register::Pch),
            MathOp::Nop,
        ),
    ]
}

/// See `spec_brk_instr`.
pub fn brk_instr() -> (r: Vec<Cycle>)
    ensures
        r@ == spec_brk_instr(),
{
    let mut r: Vec<Cycle> = Vec::new();
    r.push(Cycle::Read(MathOp::SetAddrPC, MathOp::IncPC, MathOp::Nop));
    r.push(Cycle::Write(MathOp::PushStack(Register::Pch), MathOp::Nop, MathOp::Nop));
    r.push(Cycle::Write(MathOp::PushStack(Register::Pcl), MathOp::Nop, MathOp::Nop));
    r.push(Cycle::Write(MathOp::PushStack(Register::FlagsPushed), MathOp::Nop, MathOp::Nop));
    r.push(
        Cycle::Read(
            MathOp::SetAddr(Register::Const(0xFE), Register::Const(0xFF)),
            MathOp::Mv(Register::Bus, Register::Pcl),
            MathOp::Brk,
        ),
    );
    r.push(
        Cycle::Read(
            MathOp::SetAddr(Register::Const(0xFF), Register::Const(0xFF)),
            MathOp::Mv(Register::Bus, Register::Pch),
            MathOp::Nop,
        ),
    );
    proof {
        assert(r@ =~= spec_brk_instr());
    }
    r
}

/// RTI: the flags are pulled (break discarded), then the return address,
/// which is not stepped further.
pub open spec fn spec_rti() -> Seq<Cycle> {
    seq![
        Cycle::Read(MathOp::SetAddrPC, MathOp::Nop, MathOp::Nop),
        Cycle::Read(
            MathOp::SetAddr(Register::Sp, Register::Const(1)),
            MathOp::Inc(Register::Sp, false),
            MathOp::Nop,
        ),
        Cycle::Read(
            MathOp::SetAddr(Register::Sp, Register::Const(1)),
            MathOp::Mv(Register::Bus, Register::FlagsPulled),
            MathOp::Inc(Register::Sp, false),
        ),
        Cycle::Read(
            MathOp::SetAddr(Register::Sp, Register::Const(1)),
            MathOp::Mv(Register::Bus, Register::Pcl),
            MathOp::Inc(Register::Sp, false),
        ),
        Cycle::Read(
            MathOp::SetAddr(Register::Sp, Register::Const(1)),
            MathOp::Mv(Register::Bus, Register::Pch),
            MathOp::Nop,
        ),
    ]
}

/// See `spec_rti`.
pub fn rti() -> (r: Vec<Cycle>)
    ensures
        r@ == spec_rti(),
{
    let mut r: Vec<Cycle> = Vec::new();
    r.push(Cycle::Read(MathOp::SetAddrPC, MathOp::Nop, MathOp::Nop));
    r.push(
        Cycle::Read(
            MathOp::SetAddr(Register::Sp, Register::Const(1)),
            MathOp::Inc(Register::Sp, false),
            MathOp::Nop,
        ),
    );
    r.push(
        Cycle::Read(
            MathOp::SetAddr(Register::Sp, Register::Const(1)),
            MathOp::Mv(Register::Bus, Register::FlagsPulled),
            MathOp::Inc(Register::Sp, false),
        ),
    );
    r.push(
        Cycle::Read(
            MathOp::SetAddr(Register::Sp, Register::Const(1)),
            MathOp::Mv(Register::Bus, Register::Pcl),
            MathOp::Inc(Register::Sp, false),
        ),
    );
    r.push(
        Cycle::Read(
            MathOp::SetAddr(Register::Sp, Register::Const(1)),
            MathOp::Mv(Register::Bus, Register::Pch),
            MathOp::Nop,
        ),
    );
    proof {
        assert(r@ =~= spec_rti());
    }
    r
}

impl Cycle {
    /// Run this cycle against the machine state.
    pub fn exec(self, state: &mut State)
        requires
            old(state)@.mem.wf(),
        ensures
            final(state)@ == spec_cycle(old(state)@, self),
    {
        proof {
            reveal(spec_cycle);
        }
        match self {
            Cycle::Read(b, a1, a2) => read(state, b, a1, a2),
            Cycle::Write(b, a1, a2) => write(state, b, a1, a2),
            Cycle::OptRead(b, a1, a2) => opt_read(state, b, a1, a2),
            Cycle::CheckCross => check_pagecross(state),
            Cycle::BranchIf(f, want) => Branch::exec(state, f, want),
        }
    }
}

} // verus!
