//! Machine-wide laws: determinism of the per-cycle semantics, the cycle
//! accounting of the scheduler, and the cycle-exact behaviour of whole
//! instructions run from an idle machine, including the stack round trips
//! and the absolute-indirect jump's page-boundary quirk.

use vstd::prelude::*;

use crate::cpu::{dec8, inc8, inc16, CpuFlags, CPU, CPUIO};
use crate::instructions::math::{apply_op_s, op_apply, MathOp};
use crate::instructions::reg::Register;
use crate::instructions::table::{
    instruction_spec, spec_decode_q0, spec_decode_q1, spec_decode_q2, spec_decode_q3,
};
use crate::instructions::{spec_cycle, Cycle};
use crate::{
    inc_usize, spec_count_cycle, spec_fetch, spec_mem_read, tick_ok, tick_spec, OpState, StateV,
};

verus! {

/// The machine is deterministic: the cycle relation is a function, so two
/// equal pre-states tick to equal post-states.  Together with the contract
/// of `State::step` (the post-state is exactly `tick_spec` of the
/// pre-state), every observable of an instruction — flags included — is a
/// function of the pre-state alone.
pub proof fn lemma_tick_deterministic(s1: StateV, s2: StateV)
    requires
        s1 == s2,
    ensures
        tick_spec(s1) == tick_spec(s2),
        tick_ok(s1) == tick_ok(s2),
{
}

/// Micro-operations never touch memory or the scheduler: what one does is a
/// function of the register file and the sticky page-cross bit alone, and
/// only those change.  Bytes read from memory reach an operation only over
/// the wire, explicitly.
pub proof fn lemma_op_frame(s1: StateV, s2: StateV, op: MathOp)
    requires
        s1.cpu == s2.cpu,
        s1.op_state.page_cross == s2.op_state.page_cross,
    ensures
        apply_op_s(s1, op).cpu == apply_op_s(s2, op).cpu,
        apply_op_s(s1, op).op_state.page_cross == apply_op_s(s2, op).op_state.page_cross,
        apply_op_s(s1, op).mem == s1.mem,
        apply_op_s(s1, op).cycle_idx == s1.cycle_idx,
        apply_op_s(s1, op).cycle_count == s1.cycle_count,
        apply_op_s(s1, op).op_state.active == s1.op_state.active,
        apply_op_s(s1, op).op_state.branching == s1.op_state.branching,
{
    assert(op_apply(s1.cpu, s1.op_state.page_cross, op) == op_apply(
        s2.cpu,
        s2.op_state.page_cross,
        op,
    ));
}

/// Every productive tick advances the cycle counter by exactly one; the
/// tick that dispatches an empty sequence (and reports failure) leaves the
/// machine unchanged.
pub proof fn lemma_tick_counts_one_cycle(s: StateV)
    requires
        s.cycle_count < u64::MAX,
    ensures
        tick_ok(s) ==> tick_spec(s).cycle_count == s.cycle_count + 1,
        !tick_ok(s) ==> tick_spec(s) == s,
{
    reveal(crate::tick_spec);
    reveal(crate::instructions::spec_cycle);
}

/// A machine between instructions, with none of the sticky bits raised.
pub open spec fn idle(s: StateV) -> bool {
    !s.op_state.active && !s.op_state.page_cross && !s.op_state.branching
}

/// Room in the counters for one instruction of at most `n` cycles.
pub open spec fn counters_roomy(s: StateV, n: int) -> bool {
    s.cycle_count + n <= u64::MAX && s.instr_count + 1 <= u64::MAX
}

/// The fetch tick, spelled out: from an idle machine, one tick reads the
/// opcode at the program counter, steps past it, clears the operand
/// scratch registers and activates the instruction.
pub proof fn lemma_fetch(s: StateV)
    requires
        idle(s),
        s.cycle_count < u64::MAX,
        s.instr_count < u64::MAX,
    ensures
        tick_spec(s) == (StateV {
            cpu: CPU {
                pc: inc16(s.cpu.pc),
                first: None,
                second: None,
                io: CPUIO {
                    low: (s.cpu.pc % 0x100) as u8,
                    high: (s.cpu.pc / 0x100) as u8,
                    wire: spec_mem_read(s.mem, s.cpu.pc),
                },
                ..s.cpu
            },
            instr_indx: spec_mem_read(s.mem, s.cpu.pc),
            cycle_idx: 0,
            op_state: OpState { active: true, ..s.op_state },
            cycle_count: (s.cycle_count + 1) as u64,
            instr_count: (s.instr_count + 1) as u64,
            ..s
        }),
{
    reveal(crate::tick_spec);
    let s0 = crate::spec_set_bus_addr(s, s.cpu.pc);
    assert(crate::cpu::bus_addr(s0.cpu.io) == s.cpu.pc) by {
        assert(s.cpu.pc / 0x100 * 0x100 + s.cpu.pc % 0x100 == s.cpu.pc);
    };
}

/// One tick of an active instruction, spelled out: the cycle at the current
/// position runs, the position advances, and the instruction deactivates
/// after its last cycle.
pub proof fn lemma_active_tick(s: StateV, cs: Seq<Cycle>)
    requires
        instruction_spec(s.instr_indx) == cs,
        s.op_state.active,
        0 < cs.len(),
        s.cycle_idx == 0 || s.cycle_idx < cs.len(),
        s.cycle_count < u64::MAX,
    ensures
        tick_spec(s) == ({
            let s1 = spec_cycle(s, cs[s.cycle_idx as int]);
            let idx2 = inc_usize(s1.cycle_idx);
            spec_count_cycle(
                StateV {
                    cycle_idx: idx2,
                    op_state: OpState {
                        active: if cs.len() == idx2 {
                            false
                        } else {
                            s1.op_state.active
                        },
                        ..s1.op_state
                    },
                    ..s1
                },
            )
        }),
{
    reveal(crate::tick_spec);
}

/// The common premises of the per-cycle lemmas below: an instruction is
/// active, its sequence is `cs`, the position is inside it, and there is
/// room in the counters.
pub open spec fn mid_instr(s: StateV, cs: Seq<Cycle>) -> bool {
    instruction_spec(s.instr_indx) == cs && s.op_state.active && !s.op_state.page_cross
        && s.cycle_idx < cs.len() && s.cycle_idx < 0xFFFF && s.cycle_count < u64::MAX
}

/// The scheduler bookkeeping every in-sequence cycle gets: position up by
/// one, instruction deactivated after the last cycle.
pub open spec fn stepped(s: StateV, cs: Seq<Cycle>) -> StateV {
    StateV {
        cycle_idx: (s.cycle_idx + 1) as usize,
        op_state: OpState { active: s.cycle_idx + 1 != cs.len(), ..s.op_state },
        cycle_count: (s.cycle_count + 1) as u64,
        ..s
    }
}

/// A cycle that fetches an operand byte into `first`.
#[verifier::rlimit(100)]
#[verifier::spinoff_prover]
proof fn lemma_tick_read_pc_first(s: StateV, cs: Seq<Cycle>)
    requires
        mid_instr(s, cs),
        cs[s.cycle_idx as int] == Cycle::Read(MathOp::SetAddrPC, MathOp::ReadFirst, MathOp::Nop),
    ensures
        tick_spec(s) == stepped(
            StateV {
                cpu: CPU {
                    pc: inc16(s.cpu.pc),
                    first: Some(spec_mem_read(s.mem, s.cpu.pc)),
                    io: CPUIO {
                        low: (s.cpu.pc % 0x100) as u8,
                        high: (s.cpu.pc / 0x100) as u8,
                        wire: spec_mem_read(s.mem, s.cpu.pc),
                    },
                    ..s.cpu
                },
                ..s
            },
            cs,
        ),
{
    reveal(crate::instructions::spec_cycle);
    lemma_active_tick(s, cs);
    assert(s.cpu.pc / 0x100 * 0x100 + s.cpu.pc % 0x100 == s.cpu.pc);
}

/// A cycle that fetches an operand byte into `second`.
#[verifier::rlimit(100)]
#[verifier::spinoff_prover]
proof fn lemma_tick_read_pc_second(s: StateV, cs: Seq<Cycle>)
    requires
        mid_instr(s, cs),
        cs[s.cycle_idx as int] == Cycle::Read(MathOp::SetAddrPC, MathOp::ReadSecond, MathOp::Nop),
    ensures
        tick_spec(s) == stepped(
            StateV {
                cpu: CPU {
                    pc: inc16(s.cpu.pc),
                    second: Some(spec_mem_read(s.mem, s.cpu.pc)),
                    io: CPUIO {
                        low: (s.cpu.pc % 0x100) as u8,
                        high: (s.cpu.pc / 0x100) as u8,
                        wire: spec_mem_read(s.mem, s.cpu.pc),
                    },
                    ..s.cpu
                },
                ..s
            },
            cs,
        ),
{
    reveal(crate::instructions::spec_cycle);
    lemma_active_tick(s, cs);
    assert(s.cpu.pc / 0x100 * 0x100 + s.cpu.pc % 0x100 == s.cpu.pc);
}

/// The dummy read at the program counter that one-byte instructions issue.
#[verifier::rlimit(100)]
#[verifier::spinoff_prover]
proof fn lemma_tick_dummy_read_pc(s: StateV, cs: Seq<Cycle>)
    requires
        mid_instr(s, cs),
        cs[s.cycle_idx as int] == Cycle::Read(MathOp::SetAddrPC, MathOp::Nop, MathOp::Nop),
    ensures
        tick_spec(s) == stepped(
            StateV {
                cpu: CPU {
                    io: CPUIO {
                        low: (s.cpu.pc % 0x100) as u8,
                        high: (s.cpu.pc / 0x100) as u8,
                        wire: spec_mem_read(s.mem, s.cpu.pc),
                    },
                    ..s.cpu
                },
                ..s
            },
            cs,
        ),
{
    reveal(crate::instructions::spec_cycle);
    lemma_active_tick(s, cs);
    assert(s.cpu.pc / 0x100 * 0x100 + s.cpu.pc % 0x100 == s.cpu.pc);
}

/// A push cycle: the stack address is programmed from `SP`, the register's
/// byte goes out on the wire into RAM, and `SP` steps down.
#[verifier::rlimit(100)]
#[verifier::spinoff_prover]
proof fn lemma_tick_push(s: StateV, cs: Seq<Cycle>, r: Register)
    requires
        mid_instr(s, cs),
        cs[s.cycle_idx as int] == Cycle::Write(MathOp::PushStack(r), MathOp::Nop, MathOp::Nop),
        r == Register::Acc || r == Register::Pcl || r == Register::Pch
            || r == Register::FlagsPushed,
    ensures
        tick_spec(s) == stepped(
            StateV {
                cpu: CPU {
                    sp: dec8(s.cpu.sp),
                    io: CPUIO {
                        low: s.cpu.sp,
                        high: 1,
                        wire: crate::instructions::reg::reg_get(s.cpu, r),
                    },
                    ..s.cpu
                },
                mem: crate::spec_mem_write(
                    s.mem,
                    (0x100 + s.cpu.sp) as u16,
                    crate::instructions::reg::reg_get(s.cpu, r),
                ),
                ..s
            },
            cs,
        ),
{
    reveal(crate::instructions::spec_cycle);
    lemma_active_tick(s, cs);
}

/// A dummy read at the stack address, as JSR's internal cycle issues.
#[verifier::rlimit(100)]
#[verifier::spinoff_prover]
proof fn lemma_tick_dummy_read_stack(s: StateV, cs: Seq<Cycle>)
    requires
        mid_instr(s, cs),
        cs[s.cycle_idx as int] == Cycle::Read(
            MathOp::SetAddr(Register::Sp, Register::Const(1)),
            MathOp::Nop,
            MathOp::Nop,
        ),
    ensures
        tick_spec(s) == stepped(
            StateV {
                cpu: CPU {
                    io: CPUIO {
                        low: s.cpu.sp,
                        high: 1,
                        wire: spec_mem_read(s.mem, (0x100 + s.cpu.sp) as u16),
                    },
                    ..s.cpu
                },
                ..s
            },
            cs,
        ),
{
    reveal(crate::instructions::spec_cycle);
    lemma_active_tick(s, cs);
}

/// The pre-increment cycle of the pulls: a dummy read at the stack address
/// while `SP` steps up.
#[verifier::rlimit(100)]
#[verifier::spinoff_prover]
proof fn lemma_tick_stack_inc(s: StateV, cs: Seq<Cycle>)
    requires
        mid_instr(s, cs),
        cs[s.cycle_idx as int] == Cycle::Read(
            MathOp::SetAddr(Register::Sp, Register::Const(1)),
            MathOp::Inc(Register::Sp, false),
            MathOp::Nop,
        ),
    ensures
        tick_spec(s) == stepped(
            StateV {
                cpu: CPU {
                    sp: inc8(s.cpu.sp),
                    io: CPUIO {
                        low: s.cpu.sp,
                        high: 1,
                        wire: spec_mem_read(s.mem, (0x100 + s.cpu.sp) as u16),
                    },
                    ..s.cpu
                },
                ..s
            },
            cs,
        ),
{
    reveal(crate::instructions::spec_cycle);
    lemma_active_tick(s, cs);
}

/// A pull cycle into `PCL`, stepping `SP` up afterwards.
#[verifier::rlimit(100)]
#[verifier::spinoff_prover]
proof fn lemma_tick_pull_pcl_inc(s: StateV, cs: Seq<Cycle>)
    requires
        mid_instr(s, cs),
        cs[s.cycle_idx as int] == Cycle::Read(
            MathOp::SetAddr(Register::Sp, Register::Const(1)),
            MathOp::Mv(Register::Bus, Register::Pcl),
            MathOp::Inc(Register::Sp, false),
        ),
    ensures
        tick_spec(s) == stepped(
            StateV {
                cpu: CPU {
                    pc: (s.cpu.pc / 0x100 * 0x100 + spec_mem_read(
                        s.mem,
                        (0x100 + s.cpu.sp) as u16,
                    )) as u16,
                    sp: inc8(s.cpu.sp),
                    io: CPUIO {
                        low: s.cpu.sp,
                        high: 1,
                        wire: spec_mem_read(s.mem, (0x100 + s.cpu.sp) as u16),
                    },
                    ..s.cpu
                },
                ..s
            },
            cs,
        ),
{
    reveal(crate::instructions::spec_cycle);
    lemma_active_tick(s, cs);
}

/// A pull cycle into `PCH`.
#[verifier::rlimit(100)]
#[verifier::spinoff_prover]
proof fn lemma_tick_pull_pch(s: StateV, cs: Seq<Cycle>)
    requires
        mid_instr(s, cs),
        cs[s.cycle_idx as int] == Cycle::Read(
            MathOp::SetAddr(Register::Sp, Register::Const(1)),
            MathOp::Mv(Register::Bus, Register::Pch),
            MathOp::Nop,
        ),
    ensures
        tick_spec(s) == stepped(
            StateV {
                cpu: CPU {
                    pc: (s.cpu.pc % 0x100 + spec_mem_read(s.mem, (0x100 + s.cpu.sp) as u16)
                        * 0x100) as u16,
                    io: CPUIO {
                        low: s.cpu.sp,
                        high: 1,
                        wire: spec_mem_read(s.mem, (0x100 + s.cpu.sp) as u16),
                    },
                    ..s.cpu
                },
                ..s
            },
            cs,
        ),
{
    reveal(crate::instructions::spec_cycle);
    lemma_active_tick(s, cs);
}

/// A dummy read at the current bus address while `SP` steps up, as the
/// second cycle of the pulls issues.
#[verifier::rlimit(100)]
#[verifier::spinoff_prover]
proof fn lemma_tick_nop_read_inc_sp(s: StateV, cs: Seq<Cycle>)
    requires
        mid_instr(s, cs),
        cs[s.cycle_idx as int] == Cycle::Read(
            MathOp::Nop,
            MathOp::Inc(Register::Sp, false),
            MathOp::Nop,
        ),
    ensures
        tick_spec(s) == stepped(
            StateV {
                cpu: CPU {
                    sp: inc8(s.cpu.sp),
                    io: CPUIO {
                        wire: spec_mem_read(s.mem, crate::cpu::bus_addr(s.cpu.io)),
                        ..s.cpu.io
                    },
                    ..s.cpu
                },
                ..s
            },
            cs,
        ),
{
    reveal(crate::instructions::spec_cycle);
    lemma_active_tick(s, cs);
    let m = spec_mem_read(s.mem, crate::cpu::bus_addr(s.cpu.io));
    let u0 = apply_op_s(s, MathOp::Nop);
    assert(u0 == s);
    let u1 = crate::spec_bus_read(u0);
    assert(u1 == (StateV {
        cpu: CPU { io: CPUIO { wire: m, ..s.cpu.io }, ..s.cpu },
        ..s
    }));
    let u2 = apply_op_s(u1, MathOp::Inc(Register::Sp, false));
    assert(u2 == (StateV {
        cpu: CPU { sp: inc8(s.cpu.sp), io: CPUIO { wire: m, ..s.cpu.io }, ..s.cpu },
        ..s
    }));
    let u3 = apply_op_s(u2, MathOp::Nop);
    assert(spec_cycle(s, cs[s.cycle_idx as int]) == u3);
}

/// A dummy read at the current bus address while the program counter steps
/// past the operand byte JSR left under it, as RTS's last cycle issues.
#[verifier::rlimit(100)]
#[verifier::spinoff_prover]
proof fn lemma_tick_nop_read_incpc(s: StateV, cs: Seq<Cycle>)
    requires
        mid_instr(s, cs),
        cs[s.cycle_idx as int] == Cycle::Read(MathOp::Nop, MathOp::IncPC, MathOp::Nop),
    ensures
        tick_spec(s) == stepped(
            StateV {
                cpu: CPU {
                    pc: inc16(s.cpu.pc),
                    io: CPUIO {
                        wire: spec_mem_read(s.mem, crate::cpu::bus_addr(s.cpu.io)),
                        ..s.cpu.io
                    },
                    ..s.cpu
                },
                ..s
            },
            cs,
        ),
{
    reveal(crate::instructions::spec_cycle);
    lemma_active_tick(s, cs);
}

/// The pull cycle of PLA: the byte at the stack address lands in the
/// accumulator and Z/N describe it.
#[verifier::rlimit(100)]
#[verifier::spinoff_prover]
proof fn lemma_tick_pull_acc(s: StateV, cs: Seq<Cycle>)
    requires
        mid_instr(s, cs),
        cs[s.cycle_idx as int] == Cycle::Read(
            MathOp::SetAddr(Register::Sp, Register::Const(1)),
            MathOp::Mv(Register::Bus, Register::Acc),
            MathOp::SetDefaultFlags(Register::Acc),
        ),
    ensures
        ({
            let m = spec_mem_read(s.mem, (0x100 + s.cpu.sp) as u16);
            tick_spec(s) == stepped(
                StateV {
                    cpu: CPU {
                        a: m,
                        flags: CpuFlags { z: m == 0, n: m >= 0x80, ..s.cpu.flags },
                        io: CPUIO { low: s.cpu.sp, high: 1, wire: m },
                        ..s.cpu
                    },
                    ..s
                },
                cs,
            )
        }),
{
    reveal(crate::instructions::spec_cycle);
    lemma_active_tick(s, cs);
}

/// The pull cycle of PLP: the byte at the stack address is decoded into
/// the live flags, with the break and unused bits discarded.
#[verifier::rlimit(100)]
#[verifier::spinoff_prover]
proof fn lemma_tick_pull_flags(s: StateV, cs: Seq<Cycle>)
    requires
        mid_instr(s, cs),
        cs[s.cycle_idx as int] == Cycle::Read(
            MathOp::SetAddr(Register::Sp, Register::Const(1)),
            MathOp::Mv(Register::Bus, Register::FlagsPulled),
            MathOp::Nop,
        ),
    ensures
        ({
            let m = spec_mem_read(s.mem, (0x100 + s.cpu.sp) as u16);
            tick_spec(s) == stepped(
                StateV {
                    cpu: CPU {
                        flags: crate::cpu::flags_from_byte(m),
                        io: CPUIO { low: s.cpu.sp, high: 1, wire: m },
                        ..s.cpu
                    },
                    ..s
                },
                cs,
            )
        }),
{
    reveal(crate::instructions::spec_cycle);
    lemma_active_tick(s, cs);
}

/// The pull cycle of RTI's flags, which also steps `SP` up.
#[verifier::rlimit(100)]
#[verifier::spinoff_prover]
proof fn lemma_tick_pull_flags_inc(s: StateV, cs: Seq<Cycle>)
    requires
        mid_instr(s, cs),
        cs[s.cycle_idx as int] == Cycle::Read(
            MathOp::SetAddr(Register::Sp, Register::Const(1)),
            MathOp::Mv(Register::Bus, Register::FlagsPulled),
            MathOp::Inc(Register::Sp, false),
        ),
    ensures
        ({
            let m = spec_mem_read(s.mem, (0x100 + s.cpu.sp) as u16);
            tick_spec(s) == stepped(
                StateV {
                    cpu: CPU {
                        flags: crate::cpu::flags_from_byte(m),
                        sp: inc8(s.cpu.sp),
                        io: CPUIO { low: s.cpu.sp, high: 1, wire: m },
                        ..s.cpu
                    },
                    ..s
                },
                cs,
            )
        }),
{
    reveal(crate::instructions::spec_cycle);
    lemma_active_tick(s, cs);
}

/// The last addressing cycle of JSR: the high target byte is fetched and
/// the jump lands, assembled from the staged low byte and the wire.
#[verifier::rlimit(100)]
#[verifier::spinoff_prover]
proof fn lemma_tick_jsr_jump(s: StateV, cs: Seq<Cycle>)
    requires
        mid_instr(s, cs),
        cs[s.cycle_idx as int] == Cycle::Read(
            MathOp::SetAddrPC,
            MathOp::ReadSecond,
            MathOp::SetPc(Register::First, Register::Second),
        ),
    ensures
        ({
            let w = spec_mem_read(s.mem, s.cpu.pc);
            let f = crate::instructions::reg::reg_get(s.cpu, Register::First);
            tick_spec(s) == stepped(
                StateV {
                    cpu: CPU {
                        pc: (f + w * 0x100) as u16,
                        second: Some(w),
                        io: CPUIO {
                            low: (s.cpu.pc % 0x100) as u8,
                            high: (s.cpu.pc / 0x100) as u8,
                            wire: w,
                        },
                        ..s.cpu
                    },
                    ..s
                },
                cs,
            )
        }),
{
    reveal(crate::instructions::spec_cycle);
    lemma_active_tick(s, cs);
    assert(s.cpu.pc / 0x100 * 0x100 + s.cpu.pc % 0x100 == s.cpu.pc);
}

/// BRK's first cycle: a dummy read at the program counter, which then
/// steps once more, so the pushed return address skips a padding byte.
#[verifier::rlimit(100)]
#[verifier::spinoff_prover]
proof fn lemma_tick_read_pc_incpc(s: StateV, cs: Seq<Cycle>)
    requires
        mid_instr(s, cs),
        cs[s.cycle_idx as int] == Cycle::Read(MathOp::SetAddrPC, MathOp::IncPC, MathOp::Nop),
    ensures
        tick_spec(s) == stepped(
            StateV {
                cpu: CPU {
                    pc: inc16(s.cpu.pc),
                    io: CPUIO {
                        low: (s.cpu.pc % 0x100) as u8,
                        high: (s.cpu.pc / 0x100) as u8,
                        wire: spec_mem_read(s.mem, s.cpu.pc),
                    },
                    ..s.cpu
                },
                ..s
            },
            cs,
        ),
{
    reveal(crate::instructions::spec_cycle);
    lemma_active_tick(s, cs);
    assert(s.cpu.pc / 0x100 * 0x100 + s.cpu.pc % 0x100 == s.cpu.pc);
}

/// BRK's fifth cycle: the low interrupt-vector byte replaces `PCL` and the
/// interrupt-disable flag is raised.
#[verifier::rlimit(100)]
#[verifier::spinoff_prover]
proof fn lemma_tick_brk_vector_low(s: StateV, cs: Seq<Cycle>)
    requires
        mid_instr(s, cs),
        cs[s.cycle_idx as int] == Cycle::Read(
            MathOp::SetAddr(Register::Const(0xFE), Register::Const(0xFF)),
            MathOp::Mv(Register::Bus, Register::Pcl),
            MathOp::Brk,
        ),
    ensures
        ({
            let m = spec_mem_read(s.mem, 0xFFFE);
            tick_spec(s) == stepped(
                StateV {
                    cpu: CPU {
                        pc: (s.cpu.pc / 0x100 * 0x100 + m) as u16,
                        flags: CpuFlags { i: true, ..s.cpu.flags },
                        io: CPUIO { low: 0xFE, high: 0xFF, wire: m },
                        ..s.cpu
                    },
                    ..s
                },
                cs,
            )
        }),
{
    reveal(crate::instructions::spec_cycle);
    lemma_active_tick(s, cs);
}

/// BRK's last cycle: the high interrupt-vector byte replaces `PCH`.
#[verifier::rlimit(100)]
#[verifier::spinoff_prover]
proof fn lemma_tick_brk_vector_high(s: StateV, cs: Seq<Cycle>)
    requires
        mid_instr(s, cs),
        cs[s.cycle_idx as int] == Cycle::Read(
            MathOp::SetAddr(Register::Const(0xFF), Register::Const(0xFF)),
            MathOp::Mv(Register::Bus, Register::Pch),
            MathOp::Nop,
        ),
    ensures
        ({
            let m = spec_mem_read(s.mem, 0xFFFF);
            tick_spec(s) == stepped(
                StateV {
                    cpu: CPU {
                        pc: (s.cpu.pc % 0x100 + m * 0x100) as u16,
                        io: CPUIO { low: 0xFF, high: 0xFF, wire: m },
                        ..s.cpu
                    },
                    ..s
                },
                cs,
            )
        }),
{
    reveal(crate::instructions::spec_cycle);
    lemma_active_tick(s, cs);
    let m = spec_mem_read(s.mem, 0xFFFF);
    assert(spec_cycle(s, cs[s.cycle_idx as int]) == (StateV {
        cpu: CPU {
            pc: (s.cpu.pc % 0x100 + m * 0x100) as u16,
            io: CPUIO { low: 0xFF, high: 0xFF, wire: m },
            ..s.cpu
        },
        ..s
    }));
}

/// The pointer-read cycle of the absolute-indirect JMP: the bus is
/// programmed from the two operands and the destination's low byte lands in
/// the latch.
#[verifier::rlimit(100)]
#[verifier::spinoff_prover]
proof fn lemma_tick_jmp_read_low(s: StateV, cs: Seq<Cycle>)
    requires
        mid_instr(s, cs),
        cs[s.cycle_idx as int] == Cycle::Read(
            MathOp::SetAddr(Register::First, Register::Second),
            MathOp::Mv(Register::Bus, Register::Latch),
            MathOp::Nop,
        ),
    ensures
        ({
            let f = crate::instructions::reg::reg_get(s.cpu, Register::First);
            let g = crate::instructions::reg::reg_get(s.cpu, Register::Second);
            let m = spec_mem_read(s.mem, (g * 0x100 + f) as u16);
            tick_spec(s) == stepped(
                StateV {
                    cpu: CPU { latch: m, io: CPUIO { low: f, high: g, wire: m }, ..s.cpu },
                    ..s
                },
                cs,
            )
        }),
{
    reveal(crate::instructions::spec_cycle);
    lemma_active_tick(s, cs);
}

/// The final cycle of the absolute-indirect JMP: the low address byte
/// increments without carry into the high byte, the destination's high
/// byte is read there, and the program counter is assembled from it and
/// the latch.
#[verifier::rlimit(100)]
#[verifier::spinoff_prover]
proof fn lemma_tick_jmp_read_high(s: StateV, cs: Seq<Cycle>)
    requires
        mid_instr(s, cs),
        cs[s.cycle_idx as int] == Cycle::Read(
            MathOp::Inc(Register::AddrLow, false),
            MathOp::Mv(Register::Bus, Register::Pch),
            MathOp::Mv(Register::Latch, Register::Pcl),
        ),
    ensures
        ({
            let m = spec_mem_read(
                s.mem,
                (s.cpu.io.high * 0x100 + inc8(s.cpu.io.low)) as u16,
            );
            tick_spec(s) == stepped(
                StateV {
                    cpu: CPU {
                        pc: (m * 0x100 + s.cpu.latch) as u16,
                        io: CPUIO { low: inc8(s.cpu.io.low), high: s.cpu.io.high, wire: m },
                        ..s.cpu
                    },
                    ..s
                },
                cs,
            )
        }),
{
    reveal(crate::instructions::spec_cycle);
    lemma_active_tick(s, cs);
    let m = spec_mem_read(s.mem, (s.cpu.io.high * 0x100 + inc8(s.cpu.io.low)) as u16);
    assert((s.cpu.pc % 0x100 + m * 0x100) as u16 / 0x100 == m);
}

/// LDA immediate (`$A9`) decodes to a single body cycle.
proof fn lemma_decode_lda_imm()
    ensures
        instruction_spec(0xA9) == seq![
            Cycle::Read(MathOp::SetAddrPC, MathOp::ReadFirst, MathOp::Ldf(Register::Acc)),
        ],
{
    reveal(spec_decode_q2);
    assert(instruction_spec(0xA9) =~= seq![
        Cycle::Read(MathOp::SetAddrPC, MathOp::ReadFirst, MathOp::Ldf(Register::Acc)),
    ]);
}

/// LDA immediate (`$A9`), run from an idle machine: two cycles, after which
/// the operand byte sits in the accumulator, Z and N describe it, and the
/// program counter has moved past the two instruction bytes.  Memory and
/// the other registers are untouched.
#[verifier::rlimit(100)]
#[verifier::spinoff_prover]
pub proof fn lemma_lda_immediate(s: StateV)
    requires
        s.wf(),
        idle(s),
        counters_roomy(s, 2),
        s.cpu.pc < 0xFFFE,
        spec_mem_read(s.mem, s.cpu.pc) == 0xA9,
    ensures
        ({
            let t = tick_spec(tick_spec(s));
            let v = spec_mem_read(s.mem, (s.cpu.pc + 1) as u16);
            t.cpu.a == v && t.cpu.flags == (CpuFlags {
                z: v == 0,
                n: v >= 0x80,
                ..s.cpu.flags
            }) && t.cpu.pc == s.cpu.pc + 2 && t.cpu.x == s.cpu.x && t.cpu.y == s.cpu.y
                && t.cpu.sp == s.cpu.sp && t.mem == s.mem && idle(t) && t.wf()
                && t.cycle_count == s.cycle_count + 2 && t.instr_count == s.instr_count + 1
        }),
{
    reveal(crate::instructions::spec_cycle);
    lemma_fetch(s);
    lemma_decode_lda_imm();
    let cs = instruction_spec(0xA9);
    let t1 = tick_spec(s);
    let pc1 = (s.cpu.pc + 1) as u16;
    let v = spec_mem_read(s.mem, pc1);
    lemma_active_tick(t1, cs);
    let u0 = apply_op_s(t1, MathOp::SetAddrPC);
    assert(crate::cpu::bus_addr(u0.cpu.io) == pc1) by {
        assert(pc1 / 0x100 * 0x100 + pc1 % 0x100 == pc1);
    };
    let u1 = crate::spec_bus_read(u0);
    assert(u1.cpu.io.wire == v);
    let u2 = apply_op_s(u1, MathOp::ReadFirst);
    let u3 = apply_op_s(u2, MathOp::Ldf(Register::Acc));
    assert(u3.cpu.a == v);
    assert(tick_spec(t1) == spec_count_cycle(
        StateV { cycle_idx: 1, op_state: OpState { active: false, ..u3.op_state }, ..u3 },
    ));
}

/// Absolute-indirect JMP (`$6C`) decodes to its four addressing cycles.
proof fn lemma_decode_jmp_ind()
    ensures
        instruction_spec(0x6C) == seq![
            Cycle::Read(MathOp::SetAddrPC, MathOp::ReadFirst, MathOp::Nop),
            Cycle::Read(MathOp::SetAddrPC, MathOp::ReadSecond, MathOp::Nop),
            Cycle::Read(
                MathOp::SetAddr(Register::First, Register::Second),
                MathOp::Mv(Register::Bus, Register::Latch),
                MathOp::Nop,
            ),
            Cycle::Read(
                MathOp::Inc(Register::AddrLow, false),
                MathOp::Mv(Register::Bus, Register::Pch),
                MathOp::Mv(Register::Latch, Register::Pcl),
            ),
        ],
{
    reveal(spec_decode_q1);
    assert(instruction_spec(0x6C) =~= seq![
        Cycle::Read(MathOp::SetAddrPC, MathOp::ReadFirst, MathOp::Nop),
        Cycle::Read(MathOp::SetAddrPC, MathOp::ReadSecond, MathOp::Nop),
        Cycle::Read(
            MathOp::SetAddr(Register::First, Register::Second),
            MathOp::Mv(Register::Bus, Register::Latch),
            MathOp::Nop,
        ),
        Cycle::Read(
            MathOp::Inc(Register::AddrLow, false),
            MathOp::Mv(Register::Bus, Register::Pch),
            MathOp::Mv(Register::Latch, Register::Pcl),
        ),
    ]);
}

/// The first three ticks of an absolute-indirect JMP: the opcode fetch and
/// the two pointer-operand fetches.
#[verifier::rlimit(100)]
#[verifier::spinoff_prover]
proof fn lemma_jmp_indirect_operands(s: StateV)
    requires
        s.wf(),
        idle(s),
        counters_roomy(s, 5),
        s.cpu.pc < 0xFFFD,
        spec_mem_read(s.mem, s.cpu.pc) == 0x6C,
    ensures
        tick_spec(tick_spec(tick_spec(s))) == (StateV {
            cpu: CPU {
                pc: (s.cpu.pc + 3) as u16,
                first: Some(spec_mem_read(s.mem, (s.cpu.pc + 1) as u16)),
                second: Some(spec_mem_read(s.mem, (s.cpu.pc + 2) as u16)),
                io: CPUIO {
                    low: (((s.cpu.pc + 2) as u16) % 0x100) as u8,
                    high: (((s.cpu.pc + 2) as u16) / 0x100) as u8,
                    wire: spec_mem_read(s.mem, (s.cpu.pc + 2) as u16),
                },
                ..s.cpu
            },
            instr_indx: 0x6C,
            cycle_idx: 2,
            op_state: OpState { active: true, ..s.op_state },
            cycle_count: (s.cycle_count + 3) as u64,
            instr_count: (s.instr_count + 1) as u64,
            ..s
        }),
{
    lemma_fetch(s);
    lemma_decode_jmp_ind();
    let cs = instruction_spec(0x6C);
    let t1 = tick_spec(s);
    lemma_tick_read_pc_first(t1, cs);
    let t2 = tick_spec(t1);
    lemma_tick_read_pc_second(t2, cs);
}

/// Absolute-indirect JMP (`$6C`), run from an idle machine: five cycles.
/// The destination's low byte is read through the pointer, but the
/// pointer's low byte increments without carrying into its high byte, so
/// the destination's high byte is read from the start of the same page.
#[verifier::rlimit(100)]
#[verifier::spinoff_prover]
pub proof fn lemma_jmp_indirect(s: StateV)
    requires
        s.wf(),
        idle(s),
        counters_roomy(s, 5),
        s.cpu.pc < 0xFFFD,
        spec_mem_read(s.mem, s.cpu.pc) == 0x6C,
    ensures
        ({
            let t = tick_spec(tick_spec(tick_spec(tick_spec(tick_spec(s)))));
            let lo = spec_mem_read(s.mem, (s.cpu.pc + 1) as u16);
            let hi = spec_mem_read(s.mem, (s.cpu.pc + 2) as u16);
            let dest_lo = spec_mem_read(s.mem, (hi * 0x100 + lo) as u16);
            let dest_hi = spec_mem_read(s.mem, (hi * 0x100 + inc8(lo)) as u16);
            t.cpu.pc == dest_hi * 0x100 + dest_lo && t.mem == s.mem && idle(t) && t.wf()
                && t.cycle_count == s.cycle_count + 5 && t.instr_count == s.instr_count + 1
                && t.cpu.a == s.cpu.a && t.cpu.x == s.cpu.x && t.cpu.y == s.cpu.y && t.cpu.sp
                == s.cpu.sp && t.cpu.flags == s.cpu.flags
        }),
{
    lemma_jmp_indirect_operands(s);
    lemma_decode_jmp_ind();
    let cs = instruction_spec(0x6C);
    let t3 = tick_spec(tick_spec(tick_spec(s)));
    lemma_tick_jmp_read_low(t3, cs);
    let t4 = tick_spec(t3);
    lemma_tick_jmp_read_high(t4, cs);
}

/// The page-boundary quirk itself: a pointer at `$XXFF` takes the
/// destination's high byte from `$XX00`, not from the next page.
pub proof fn lemma_jmp_indirect_page_bug(s: StateV)
    requires
        s.wf(),
        idle(s),
        counters_roomy(s, 5),
        s.cpu.pc < 0xFFFD,
        spec_mem_read(s.mem, s.cpu.pc) == 0x6C,
        spec_mem_read(s.mem, (s.cpu.pc + 1) as u16) == 0xFF,
    ensures
        ({
            let t = tick_spec(tick_spec(tick_spec(tick_spec(tick_spec(s)))));
            let hi = spec_mem_read(s.mem, (s.cpu.pc + 2) as u16);
            let dest_lo = spec_mem_read(s.mem, (hi * 0x100 + 0xFF) as u16);
            let dest_hi = spec_mem_read(s.mem, (hi * 0x100) as u16);
            t.cpu.pc == dest_hi * 0x100 + dest_lo
        }),
{
    lemma_jmp_indirect(s);
}

/// PHA (`$48`) pushes the accumulator; PHP (`$08`) pushes the status byte
/// with the break bit set.  Both decode to a dummy read and a push.
proof fn lemma_decode_push(opcode: u8, r: Register)
    requires
        opcode == 0x48 && r == Register::Acc || opcode == 0x08 && r == Register::FlagsPushed,
    ensures
        instruction_spec(opcode) == seq![
            Cycle::Read(MathOp::SetAddrPC, MathOp::Nop, MathOp::Nop),
            Cycle::Write(MathOp::PushStack(r), MathOp::Nop, MathOp::Nop),
        ],
{
    reveal(spec_decode_q0);
    reveal(spec_decode_q1);
    assert(instruction_spec(opcode) =~= seq![
        Cycle::Read(MathOp::SetAddrPC, MathOp::Nop, MathOp::Nop),
        Cycle::Write(MathOp::PushStack(r), MathOp::Nop, MathOp::Nop),
    ]);
}

/// PLA (`$68`) and PLP (`$28`) decode to a dummy read, the stack-pointer
/// step, and the pull.
proof fn lemma_decode_pull(opcode: u8, r: Register, e: MathOp)
    requires
        opcode == 0x68 && r == Register::Acc && e == MathOp::SetDefaultFlags(Register::Acc)
            || opcode == 0x28 && r == Register::FlagsPulled && e == MathOp::Nop,
    ensures
        instruction_spec(opcode) == seq![
            Cycle::Read(MathOp::SetAddrPC, MathOp::Nop, MathOp::Nop),
            Cycle::Read(MathOp::Nop, MathOp::Inc(Register::Sp, false), MathOp::Nop),
            Cycle::Read(
                MathOp::SetAddr(Register::Sp, Register::Const(1)),
                MathOp::Mv(Register::Bus, r),
                e,
            ),
        ],
{
    reveal(spec_decode_q0);
    reveal(spec_decode_q1);
    assert(instruction_spec(opcode) =~= seq![
        Cycle::Read(MathOp::SetAddrPC, MathOp::Nop, MathOp::Nop),
        Cycle::Read(MathOp::Nop, MathOp::Inc(Register::Sp, false), MathOp::Nop),
        Cycle::Read(
            MathOp::SetAddr(Register::Sp, Register::Const(1)),
            MathOp::Mv(Register::Bus, r),
            e,
        ),
    ]);
}

/// A push instruction (PHA or PHP), run from an idle machine: three
/// cycles; the pushed byte lands at `$0100 + SP` and `SP` steps down.
#[verifier::rlimit(100)]
#[verifier::spinoff_prover]
proof fn lemma_push_instruction(s: StateV, opcode: u8, r: Register)
    requires
        s.wf(),
        idle(s),
        s.cycle_count + 3 <= u64::MAX,
        s.instr_count + 1 <= u64::MAX,
        s.cpu.pc < 0xFFFF,
        spec_mem_read(s.mem, s.cpu.pc) == opcode,
        opcode == 0x48 && r == Register::Acc || opcode == 0x08 && r == Register::FlagsPushed,
    ensures
        tick_spec(tick_spec(tick_spec(s))) == (StateV {
            cpu: CPU {
                pc: (s.cpu.pc + 1) as u16,
                first: None,
                second: None,
                sp: dec8(s.cpu.sp),
                io: CPUIO {
                    low: s.cpu.sp,
                    high: 1,
                    wire: crate::instructions::reg::reg_get(s.cpu, r),
                },
                ..s.cpu
            },
            mem: crate::spec_mem_write(
                s.mem,
                (0x100 + s.cpu.sp) as u16,
                crate::instructions::reg::reg_get(s.cpu, r),
            ),
            instr_indx: opcode,
            cycle_idx: 2,
            op_state: s.op_state,
            cycle_count: (s.cycle_count + 3) as u64,
            instr_count: (s.instr_count + 1) as u64,
            ..s
        }),
{
    lemma_fetch(s);
    lemma_decode_push(opcode, r);
    let cs = instruction_spec(opcode);
    let t1 = tick_spec(s);
    lemma_tick_dummy_read_pc(t1, cs);
    let t2 = tick_spec(t1);
    lemma_tick_push(t2, cs, r);
}

/// PLA (`$68`), run from an idle machine: four cycles; the byte above the
/// stack pointer lands in the accumulator, Z/N describe it, and `SP` steps
/// up.
#[verifier::rlimit(100)]
#[verifier::spinoff_prover]
proof fn lemma_pla(s: StateV)
    requires
        s.wf(),
        idle(s),
        s.cycle_count + 4 <= u64::MAX,
        s.instr_count + 1 <= u64::MAX,
        s.cpu.pc < 0xFFFF,
        spec_mem_read(s.mem, s.cpu.pc) == 0x68,
    ensures
        ({
            let m = spec_mem_read(s.mem, (0x100 + inc8(s.cpu.sp)) as u16);
            tick_spec(tick_spec(tick_spec(tick_spec(s)))) == (StateV {
                cpu: CPU {
                    a: m,
                    flags: CpuFlags { z: m == 0, n: m >= 0x80, ..s.cpu.flags },
                    pc: (s.cpu.pc + 1) as u16,
                    first: None,
                    second: None,
                    sp: inc8(s.cpu.sp),
                    io: CPUIO { low: inc8(s.cpu.sp), high: 1, wire: m },
                    ..s.cpu
                },
                instr_indx: 0x68,
                cycle_idx: 3,
                op_state: s.op_state,
                cycle_count: (s.cycle_count + 4) as u64,
                instr_count: (s.instr_count + 1) as u64,
                ..s
            })
        }),
{
    lemma_fetch(s);
    lemma_decode_pull(0x68, Register::Acc, MathOp::SetDefaultFlags(Register::Acc));
    let cs = instruction_spec(0x68);
    let t1 = tick_spec(s);
    lemma_tick_dummy_read_pc(t1, cs);
    let t2 = tick_spec(t1);
    lemma_tick_nop_read_inc_sp(t2, cs);
    let t3 = tick_spec(t2);
    lemma_tick_pull_acc(t3, cs);
}

/// PLP (`$28`), run from an idle machine: four cycles; the byte above the
/// stack pointer becomes the status register, break and unused discarded.
#[verifier::rlimit(100)]
#[verifier::spinoff_prover]
proof fn lemma_plp(s: StateV)
    requires
        s.wf(),
        idle(s),
        s.cycle_count + 4 <= u64::MAX,
        s.instr_count + 1 <= u64::MAX,
        s.cpu.pc < 0xFFFF,
        spec_mem_read(s.mem, s.cpu.pc) == 0x28,
    ensures
        ({
            let m = spec_mem_read(s.mem, (0x100 + inc8(s.cpu.sp)) as u16);
            tick_spec(tick_spec(tick_spec(tick_spec(s)))) == (StateV {
                cpu: CPU {
                    flags: crate::cpu::flags_from_byte(m),
                    pc: (s.cpu.pc + 1) as u16,
                    first: None,
                    second: None,
                    sp: inc8(s.cpu.sp),
                    io: CPUIO { low: inc8(s.cpu.sp), high: 1, wire: m },
                    ..s.cpu
                },
                instr_indx: 0x28,
                cycle_idx: 3,
                op_state: s.op_state,
                cycle_count: (s.cycle_count + 4) as u64,
                instr_count: (s.instr_count + 1) as u64,
                ..s
            })
        }),
{
    lemma_fetch(s);
    lemma_decode_pull(0x28, Register::FlagsPulled, MathOp::Nop);
    let cs = instruction_spec(0x28);
    let t1 = tick_spec(s);
    lemma_tick_dummy_read_pc(t1, cs);
    let t2 = tick_spec(t1);
    lemma_tick_nop_read_inc_sp(t2, cs);
    let t3 = tick_spec(t2);
    lemma_tick_pull_flags(t3, cs);
}

/// PHA immediately followed by PLA restores the accumulator and the stack
/// pointer exactly: seven cycles in all, with the pushed byte left behind
/// on the stack page and Z/N recomputed from the restored value.
#[verifier::rlimit(100)]
#[verifier::spinoff_prover]
pub proof fn lemma_pha_pla(s: StateV)
    requires
        s.wf(),
        idle(s),
        s.cycle_count + 7 <= u64::MAX,
        s.instr_count + 2 <= u64::MAX,
        0x4020 <= s.cpu.pc < 0xFFFE,
        spec_mem_read(s.mem, s.cpu.pc) == 0x48,
        spec_mem_read(s.mem, (s.cpu.pc + 1) as u16) == 0x68,
    ensures
        ({
            let t = tick_spec(
                tick_spec(
                    tick_spec(tick_spec(tick_spec(tick_spec(tick_spec(s))))),
                ),
            );
            t.cpu.a == s.cpu.a && t.cpu.sp == s.cpu.sp && t.cpu.x == s.cpu.x && t.cpu.y
                == s.cpu.y && t.cpu.flags == (CpuFlags {
                z: s.cpu.a == 0,
                n: s.cpu.a >= 0x80,
                ..s.cpu.flags
            }) && t.cpu.pc == s.cpu.pc + 2 && t.mem == crate::spec_mem_write(
                s.mem,
                (0x100 + s.cpu.sp) as u16,
                s.cpu.a,
            ) && idle(t) && t.wf() && t.cycle_count == s.cycle_count + 7 && t.instr_count
                == s.instr_count + 2
        }),
{
    lemma_push_instruction(s, 0x48, Register::Acc);
    let t3 = tick_spec(tick_spec(tick_spec(s)));
    assert(inc8(dec8(s.cpu.sp)) == s.cpu.sp);
    assert(spec_mem_read(t3.mem, t3.cpu.pc) == 0x68);
    lemma_pla(t3);
    assert(spec_mem_read(t3.mem, (0x100 + s.cpu.sp) as u16) == s.cpu.a);
}

/// PHP immediately followed by PLP restores the status register exactly:
/// the break bit travels only inside the pushed copy and is discarded on
/// the way back.  Seven cycles in all; `SP` returns to its old value.
#[verifier::rlimit(100)]
#[verifier::spinoff_prover]
pub proof fn lemma_php_plp(s: StateV)
    requires
        s.wf(),
        idle(s),
        s.cycle_count + 7 <= u64::MAX,
        s.instr_count + 2 <= u64::MAX,
        0x4020 <= s.cpu.pc < 0xFFFE,
        spec_mem_read(s.mem, s.cpu.pc) == 0x08,
        spec_mem_read(s.mem, (s.cpu.pc + 1) as u16) == 0x28,
    ensures
        ({
            let t = tick_spec(
                tick_spec(
                    tick_spec(tick_spec(tick_spec(tick_spec(tick_spec(s))))),
                ),
            );
            t.cpu.flags == s.cpu.flags && t.cpu.sp == s.cpu.sp && t.cpu.a == s.cpu.a && t.cpu.x
                == s.cpu.x && t.cpu.y == s.cpu.y && t.cpu.pc == s.cpu.pc + 2 && t.mem
                == crate::spec_mem_write(
                s.mem,
                (0x100 + s.cpu.sp) as u16,
                crate::cpu::flags_to_byte(s.cpu.flags, true),
            ) && idle(t) && t.wf() && t.cycle_count == s.cycle_count + 7 && t.instr_count
                == s.instr_count + 2
        }),
{
    lemma_push_instruction(s, 0x08, Register::FlagsPushed);
    let t3 = tick_spec(tick_spec(tick_spec(s)));
    assert(inc8(dec8(s.cpu.sp)) == s.cpu.sp);
    assert(spec_mem_read(t3.mem, t3.cpu.pc) == 0x28);
    lemma_plp(t3);
    assert(spec_mem_read(t3.mem, (0x100 + s.cpu.sp) as u16) == crate::cpu::flags_to_byte(
        s.cpu.flags,
        true,
    ));
    crate::cpu::lemma_flags_round_trip(s.cpu.flags, true);
}

/// JSR (`$20`) decodes to its five body cycles.
proof fn lemma_decode_jsr()
    ensures
        instruction_spec(0x20) == seq![
            Cycle::Read(MathOp::SetAddrPC, MathOp::ReadFirst, MathOp::Nop),
            Cycle::Read(
                MathOp::SetAddr(Register::Sp, Register::Const(1)),
                MathOp::Nop,
                MathOp::Nop,
            ),
            Cycle::Write(MathOp::PushStack(Register::Pch), MathOp::Nop, MathOp::Nop),
            Cycle::Write(MathOp::PushStack(Register::Pcl), MathOp::Nop, MathOp::Nop),
            Cycle::Read(
                MathOp::SetAddrPC,
                MathOp::ReadSecond,
                MathOp::SetPc(Register::First, Register::Second),
            ),
        ],
{
    reveal(spec_decode_q0);
    assert(instruction_spec(0x20) =~= seq![
        Cycle::Read(MathOp::SetAddrPC, MathOp::ReadFirst, MathOp::Nop),
        Cycle::Read(MathOp::SetAddr(Register::Sp, Register::Const(1)), MathOp::Nop, MathOp::Nop),
        Cycle::Write(MathOp::PushStack(Register::Pch), MathOp::Nop, MathOp::Nop),
        Cycle::Write(MathOp::PushStack(Register::Pcl), MathOp::Nop, MathOp::Nop),
        Cycle::Read(
            MathOp::SetAddrPC,
            MathOp::ReadSecond,
            MathOp::SetPc(Register::First, Register::Second),
        ),
    ]);
}

/// RTS (`$60`) decodes to its five body cycles.
proof fn lemma_decode_rts()
    ensures
        instruction_spec(0x60) == seq![
            Cycle::Read(MathOp::SetAddrPC, MathOp::Nop, MathOp::Nop),
            Cycle::Read(
                MathOp::SetAddr(Register::Sp, Register::Const(1)),
                MathOp::Inc(Register::Sp, false),
                MathOp::Nop,
            ),
            Cycle::Read(
                MathOp::SetAddr(Register::Sp, Register::Const(1)),
                MathOp::Mv(Register::Bus, Register::Pcl),
                MathOp::Inc(Register::Sp, false),
            ),
            Cycle::Read(
                MathOp::SetAddr(Register::Sp, Register::Const(1)),
                MathOp::Mv(Register::Bus, Register::Pch),
                MathOp::Nop,
            ),
            Cycle::Read(MathOp::Nop, MathOp::IncPC, MathOp::Nop),
        ],
{
    reveal(spec_decode_q1);
    assert(instruction_spec(0x60) =~= seq![
        Cycle::Read(MathOp::SetAddrPC, MathOp::Nop, MathOp::Nop),
        Cycle::Read(
            MathOp::SetAddr(Register::Sp, Register::Const(1)),
            MathOp::Inc(Register::Sp, false),
            MathOp::Nop,
        ),
        Cycle::Read(
            MathOp::SetAddr(Register::Sp, Register::Const(1)),
            MathOp::Mv(Register::Bus, Register::Pcl),
            MathOp::Inc(Register::Sp, false),
        ),
        Cycle::Read(
            MathOp::SetAddr(Register::Sp, Register::Const(1)),
            MathOp::Mv(Register::Bus, Register::Pch),
            MathOp::Nop,
        ),
        Cycle::Read(MathOp::Nop, MathOp::IncPC, MathOp::Nop),
    ]);
}

/// JSR (`$20`), run from an idle machine: six cycles.  The address of the
/// last operand byte is pushed high-then-low, `SP` drops by two, and the
/// jump lands on the operand target.
#[verifier::rlimit(100)]
#[verifier::spinoff_prover]
pub proof fn lemma_jsr(s: StateV)
    requires
        s.wf(),
        idle(s),
        s.cycle_count + 6 <= u64::MAX,
        s.instr_count + 1 <= u64::MAX,
        0x4020 <= s.cpu.pc < 0xFFFD,
        spec_mem_read(s.mem, s.cpu.pc) == 0x20,
    ensures
        ({
            let ret = (s.cpu.pc + 2) as u16;
            let lo = spec_mem_read(s.mem, (s.cpu.pc + 1) as u16);
            let hi = spec_mem_read(s.mem, ret);
            let pushed = crate::spec_mem_write(
                crate::spec_mem_write(s.mem, (0x100 + s.cpu.sp) as u16, (ret / 0x100) as u8),
                (0x100 + dec8(s.cpu.sp)) as u16,
                (ret % 0x100) as u8,
            );
            tick_spec(
                tick_spec(tick_spec(tick_spec(tick_spec(tick_spec(s))))),
            ) == (StateV {
                cpu: CPU {
                    pc: (lo + hi * 0x100) as u16,
                    first: Some(lo),
                    second: Some(hi),
                    sp: dec8(dec8(s.cpu.sp)),
                    io: CPUIO {
                        low: (ret % 0x100) as u8,
                        high: (ret / 0x100) as u8,
                        wire: hi,
                    },
                    ..s.cpu
                },
                mem: pushed,
                instr_indx: 0x20,
                cycle_idx: 5,
                op_state: s.op_state,
                cycle_count: (s.cycle_count + 6) as u64,
                instr_count: (s.instr_count + 1) as u64,
                ..s
            })
        }),
{
    lemma_fetch(s);
    lemma_decode_jsr();
    let cs = instruction_spec(0x20);
    let t1 = tick_spec(s);
    lemma_tick_read_pc_first(t1, cs);
    let t2 = tick_spec(t1);
    lemma_tick_dummy_read_stack(t2, cs);
    let t3 = tick_spec(t2);
    lemma_tick_push(t3, cs, Register::Pch);
    let t4 = tick_spec(t3);
    lemma_tick_push(t4, cs, Register::Pcl);
    let t5 = tick_spec(t4);
    assert(spec_mem_read(t5.mem, t5.cpu.pc) == spec_mem_read(s.mem, (s.cpu.pc + 2) as u16));
    lemma_tick_jsr_jump(t5, cs);
}

/// RTS (`$60`), run from an idle machine: six cycles.  The return address
/// is pulled from above the stack pointer, stepped once, and `SP` rises by
/// two.  Nothing else changes.
#[verifier::rlimit(100)]
#[verifier::spinoff_prover]
pub proof fn lemma_rts(s: StateV)
    requires
        s.wf(),
        idle(s),
        s.cycle_count + 6 <= u64::MAX,
        s.instr_count + 1 <= u64::MAX,
        s.cpu.pc < 0xFFFF,
        spec_mem_read(s.mem, s.cpu.pc) == 0x60,
    ensures
        ({
            let rl = spec_mem_read(s.mem, (0x100 + inc8(s.cpu.sp)) as u16);
            let rh = spec_mem_read(s.mem, (0x100 + inc8(inc8(s.cpu.sp))) as u16);
            tick_spec(
                tick_spec(tick_spec(tick_spec(tick_spec(tick_spec(s))))),
            ) == (StateV {
                cpu: CPU {
                    pc: inc16((rl + rh * 0x100) as u16),
                    first: None,
                    second: None,
                    sp: inc8(inc8(s.cpu.sp)),
                    io: CPUIO { low: inc8(inc8(s.cpu.sp)), high: 1, wire: rh },
                    ..s.cpu
                },
                instr_indx: 0x60,
                cycle_idx: 5,
                op_state: s.op_state,
                cycle_count: (s.cycle_count + 6) as u64,
                instr_count: (s.instr_count + 1) as u64,
                ..s
            })
        }),
{
    lemma_fetch(s);
    lemma_decode_rts();
    let cs = instruction_spec(0x60);
    let rl = spec_mem_read(s.mem, (0x100 + inc8(s.cpu.sp)) as u16);
    let rh = spec_mem_read(s.mem, (0x100 + inc8(inc8(s.cpu.sp))) as u16);
    let t1 = tick_spec(s);
    lemma_tick_dummy_read_pc(t1, cs);
    let t2 = tick_spec(t1);
    lemma_tick_stack_inc(t2, cs);
    let t3 = tick_spec(t2);
    lemma_tick_pull_pcl_inc(t3, cs);
    let t4 = tick_spec(t3);
    assert(t4.cpu.pc == ((s.cpu.pc + 1) as u16) / 0x100 * 0x100 + rl);
    lemma_tick_pull_pch(t4, cs);
    let t5 = tick_spec(t4);
    assert((((s.cpu.pc + 1) as u16) / 0x100 * 0x100 + rl) % 0x100 == rl);
    assert(t5.cpu.pc == (rl + rh * 0x100) as u16);
    lemma_tick_nop_read_incpc(t5, cs);
}

/// JSR immediately answered by RTS at the target returns the program
/// counter to the instruction after the call and restores `SP` exactly:
/// twelve cycles in all, with the address of JSR's last operand byte left
/// on the stack page (high byte on top).
#[verifier::rlimit(100)]
#[verifier::spinoff_prover]
pub proof fn lemma_jsr_rts(s: StateV)
    requires
        s.wf(),
        idle(s),
        s.cycle_count + 12 <= u64::MAX,
        s.instr_count + 2 <= u64::MAX,
        0x4020 <= s.cpu.pc < 0xFFFD,
        spec_mem_read(s.mem, s.cpu.pc) == 0x20,
        ({
            let dest = spec_mem_read(s.mem, (s.cpu.pc + 1) as u16) + spec_mem_read(
                s.mem,
                (s.cpu.pc + 2) as u16,
            ) * 0x100;
            0x4020 <= dest < 0xFFFF && spec_mem_read(s.mem, dest as u16) == 0x60
        }),
    ensures
        ({
            let t = tick_spec(
                tick_spec(
                    tick_spec(
                        tick_spec(
                            tick_spec(
                                tick_spec(
                                    tick_spec(
                                        tick_spec(
                                            tick_spec(
                                                tick_spec(tick_spec(tick_spec(s))),
                                            ),
                                        ),
                                    ),
                                ),
                            ),
                        ),
                    ),
                ),
            );
            let ret = (s.cpu.pc + 2) as u16;
            t.cpu.pc == s.cpu.pc + 3 && t.cpu.sp == s.cpu.sp && t.cpu.a == s.cpu.a && t.cpu.x
                == s.cpu.x && t.cpu.y == s.cpu.y && t.cpu.flags == s.cpu.flags && idle(t)
                && t.wf() && t.cycle_count == s.cycle_count + 12 && t.instr_count
                == s.instr_count + 2 && spec_mem_read(t.mem, (0x100 + s.cpu.sp) as u16) == ret
                / 0x100 && spec_mem_read(t.mem, (0x100 + dec8(s.cpu.sp)) as u16) == ret % 0x100
        }),
{
    lemma_jsr(s);
    let t6 = tick_spec(tick_spec(tick_spec(tick_spec(tick_spec(tick_spec(s))))));
    let ret = (s.cpu.pc + 2) as u16;
    let lo = spec_mem_read(s.mem, (s.cpu.pc + 1) as u16);
    let hi = spec_mem_read(s.mem, ret);
    assert(dec8(s.cpu.sp) != s.cpu.sp);
    assert(spec_mem_read(t6.mem, t6.cpu.pc) == 0x60);
    lemma_rts(t6);
    assert(inc8(dec8(dec8(s.cpu.sp))) == dec8(s.cpu.sp));
    assert(inc8(inc8(dec8(dec8(s.cpu.sp)))) == s.cpu.sp);
    assert(spec_mem_read(t6.mem, (0x100 + dec8(s.cpu.sp)) as u16) == ret % 0x100);
    assert(spec_mem_read(t6.mem, (0x100 + s.cpu.sp) as u16) == ret / 0x100);
    assert((ret % 0x100) + (ret / 0x100) * 0x100 == ret);
}

/// BRK (`$00`) decodes to its six body cycles.
proof fn lemma_decode_brk()
    ensures
        instruction_spec(0x00) == seq![
            Cycle::Read(MathOp::SetAddrPC, MathOp::IncPC, MathOp::Nop),
            Cycle::Write(MathOp::PushStack(Register::Pch), MathOp::Nop, MathOp::Nop),
            Cycle::Write(MathOp::PushStack(Register::Pcl), MathOp::Nop, MathOp::Nop),
            Cycle::Write(MathOp::PushStack(Register::FlagsPushed), MathOp::Nop, MathOp::Nop),
            Cycle::Read(
                MathOp::SetAddr(Register::Const(0xFE), Register::Const(0xFF)),
                MathOp::Mv(Register::Bus, Register::Pcl),
                MathOp::Brk,
            ),
            Cycle::Read(
                MathOp::SetAddr(Register::Const(0xFF), Register::Const(0xFF)),
                MathOp::Mv(Register::Bus, Register::Pch),
                MathOp::Nop,
            ),
        ],
{
    reveal(spec_decode_q0);
    assert(instruction_spec(0x00) =~= seq![
        Cycle::Read(MathOp::SetAddrPC, MathOp::IncPC, MathOp::Nop),
        Cycle::Write(MathOp::PushStack(Register::Pch), MathOp::Nop, MathOp::Nop),
        Cycle::Write(MathOp::PushStack(Register::Pcl), MathOp::Nop, MathOp::Nop),
        Cycle::Write(MathOp::PushStack(Register::FlagsPushed), MathOp::Nop, MathOp::Nop),
        Cycle::Read(
            MathOp::SetAddr(Register::Const(0xFE), Register::Const(0xFF)),
            MathOp::Mv(Register::Bus, Register::Pcl),
            MathOp::Brk,
        ),
        Cycle::Read(
            MathOp::SetAddr(Register::Const(0xFF), Register::Const(0xFF)),
            MathOp::Mv(Register::Bus, Register::Pch),
            MathOp::Nop,
        ),
    ]);
}

/// RTI (`$40`) decodes to its five body cycles.
proof fn lemma_decode_rti()
    ensures
        instruction_spec(0x40) == seq![
            Cycle::Read(MathOp::SetAddrPC, MathOp::Nop, MathOp::Nop),
            Cycle::Read(
                MathOp::SetAddr(Register::Sp, Register::Const(1)),
                MathOp::Inc(Register::Sp, false),
                MathOp::Nop,
            ),
            Cycle::Read(
                MathOp::SetAddr(Register::Sp, Register::Const(1)),
                MathOp::Mv(Register::Bus, Register::FlagsPulled),
                MathOp::Inc(Register::Sp, false),
            ),
            Cycle::Read(
                MathOp::SetAddr(Register::Sp, Register::Const(1)),
                MathOp::Mv(Register::Bus, Register::Pcl),
                MathOp::Inc(Register::Sp, false),
            ),
            Cycle::Read(
                MathOp::SetAddr(Register::Sp, Register::Const(1)),
                MathOp::Mv(Register::Bus, Register::Pch),
                MathOp::Nop,
            ),
        ],
{
    reveal(spec_decode_q1);
    assert(instruction_spec(0x40) =~= seq![
        Cycle::Read(MathOp::SetAddrPC, MathOp::Nop, MathOp::Nop),
        Cycle::Read(
            MathOp::SetAddr(Register::Sp, Register::Const(1)),
            MathOp::Inc(Register::Sp, false),
            MathOp::Nop,
        ),
        Cycle::Read(
            MathOp::SetAddr(Register::Sp, Register::Const(1)),
            MathOp::Mv(Register::Bus, Register::FlagsPulled),
            MathOp::Inc(Register::Sp, false),
        ),
        Cycle::Read(
            MathOp::SetAddr(Register::Sp, Register::Const(1)),
            MathOp::Mv(Register::Bus, Register::Pcl),
            MathOp::Inc(Register::Sp, false),
        ),
        Cycle::Read(
            MathOp::SetAddr(Register::Sp, Register::Const(1)),
            MathOp::Mv(Register::Bus, Register::Pch),
            MathOp::Nop,
        ),
    ]);
}

/// BRK (`$00`), run from an idle machine: seven cycles.  The address of
/// the byte after the padding byte is pushed, then the status byte with
/// the break bit set; interrupts are disabled and the IRQ vector at
/// `$FFFE/$FFFF` is followed.
#[verifier::rlimit(100)]
#[verifier::spinoff_prover]
pub proof fn lemma_brk(s: StateV)
    requires
        s.wf(),
        idle(s),
        s.cycle_count + 7 <= u64::MAX,
        s.instr_count + 1 <= u64::MAX,
        s.cpu.pc < 0xFFFE,
        spec_mem_read(s.mem, s.cpu.pc) == 0x00,
    ensures
        ({
            let ret = (s.cpu.pc + 2) as u16;
            let vl = spec_mem_read(s.mem, 0xFFFE);
            let vh = spec_mem_read(s.mem, 0xFFFF);
            let pushed = crate::spec_mem_write(
                crate::spec_mem_write(
                    crate::spec_mem_write(
                        s.mem,
                        (0x100 + s.cpu.sp) as u16,
                        (ret / 0x100) as u8,
                    ),
                    (0x100 + dec8(s.cpu.sp)) as u16,
                    (ret % 0x100) as u8,
                ),
                (0x100 + dec8(dec8(s.cpu.sp))) as u16,
                crate::cpu::flags_to_byte(s.cpu.flags, true),
            );
            tick_spec(
                tick_spec(
                    tick_spec(tick_spec(tick_spec(tick_spec(tick_spec(s))))),
                ),
            ) == (StateV {
                cpu: CPU {
                    pc: (vl + vh * 0x100) as u16,
                    first: None,
                    second: None,
                    sp: dec8(dec8(dec8(s.cpu.sp))),
                    flags: CpuFlags { i: true, ..s.cpu.flags },
                    io: CPUIO { low: 0xFF, high: 0xFF, wire: vh },
                    ..s.cpu
                },
                mem: pushed,
                instr_indx: 0x00,
                cycle_idx: 6,
                op_state: s.op_state,
                cycle_count: (s.cycle_count + 7) as u64,
                instr_count: (s.instr_count + 1) as u64,
                ..s
            })
        }),
{
    lemma_fetch(s);
    lemma_decode_brk();
    let cs = instruction_spec(0x00);
    let ret = (s.cpu.pc + 2) as u16;
    let vl = spec_mem_read(s.mem, 0xFFFE);
    let vh = spec_mem_read(s.mem, 0xFFFF);
    let t1 = tick_spec(s);
    lemma_tick_read_pc_incpc(t1, cs);
    let t2 = tick_spec(t1);
    lemma_tick_push(t2, cs, Register::Pch);
    let t3 = tick_spec(t2);
    lemma_tick_push(t3, cs, Register::Pcl);
    let t4 = tick_spec(t3);
    lemma_tick_push(t4, cs, Register::FlagsPushed);
    let t5 = tick_spec(t4);
    assert(spec_mem_read(t5.mem, 0xFFFE) == vl);
    assert(spec_mem_read(t5.mem, 0xFFFF) == vh);
    lemma_tick_brk_vector_low(t5, cs);
    let t6 = tick_spec(t5);
    assert(t6.cpu.pc == ret / 0x100 * 0x100 + vl);
    lemma_tick_brk_vector_high(t6, cs);
    assert((ret / 0x100 * 0x100 + vl) % 0x100 == vl);
}

/// RTI (`$40`), run from an idle machine: six cycles.  The status byte is
/// pulled first (break and unused discarded), then the return address,
/// which is not stepped further.  `SP` rises by three.
#[verifier::rlimit(100)]
#[verifier::spinoff_prover]
pub proof fn lemma_rti(s: StateV)
    requires
        s.wf(),
        idle(s),
        s.cycle_count + 6 <= u64::MAX,
        s.instr_count + 1 <= u64::MAX,
        s.cpu.pc < 0xFFFF,
        spec_mem_read(s.mem, s.cpu.pc) == 0x40,
    ensures
        ({
            let fb = spec_mem_read(s.mem, (0x100 + inc8(s.cpu.sp)) as u16);
            let rl = spec_mem_read(s.mem, (0x100 + inc8(inc8(s.cpu.sp))) as u16);
            let rh = spec_mem_read(s.mem, (0x100 + inc8(inc8(inc8(s.cpu.sp)))) as u16);
            tick_spec(
                tick_spec(tick_spec(tick_spec(tick_spec(tick_spec(s))))),
            ) == (StateV {
                cpu: CPU {
                    pc: (rl + rh * 0x100) as u16,
                    first: None,
                    second: None,
                    sp: inc8(inc8(inc8(s.cpu.sp))),
                    flags: crate::cpu::flags_from_byte(fb),
                    io: CPUIO { low: inc8(inc8(inc8(s.cpu.sp))), high: 1, wire: rh },
                    ..s.cpu
                },
                instr_indx: 0x40,
                cycle_idx: 5,
                op_state: s.op_state,
                cycle_count: (s.cycle_count + 6) as u64,
                instr_count: (s.instr_count + 1) as u64,
                ..s
            })
        }),
{
    lemma_fetch(s);
    lemma_decode_rti();
    let cs = instruction_spec(0x40);
    let rl = spec_mem_read(s.mem, (0x100 + inc8(inc8(s.cpu.sp))) as u16);
    let rh = spec_mem_read(s.mem, (0x100 + inc8(inc8(inc8(s.cpu.sp)))) as u16);
    let t1 = tick_spec(s);
    lemma_tick_dummy_read_pc(t1, cs);
    let t2 = tick_spec(t1);
    lemma_tick_stack_inc(t2, cs);
    let t3 = tick_spec(t2);
    lemma_tick_pull_flags_inc(t3, cs);
    let t4 = tick_spec(t3);
    lemma_tick_pull_pcl_inc(t4, cs);
    let t5 = tick_spec(t4);
    assert(t5.cpu.pc == ((s.cpu.pc + 1) as u16) / 0x100 * 0x100 + rl);
    lemma_tick_pull_pch(t5, cs);
    assert((((s.cpu.pc + 1) as u16) / 0x100 * 0x100 + rl) % 0x100 == rl);
}

/// BRK answered by RTI at the interrupt vector returns the program counter
/// to the pushed address exactly and restores `SP` and the whole status
/// register: the interrupt-disable bit raised by BRK is undone by the pull,
/// and the break bit existed only in the pushed copy.  Thirteen cycles.
#[verifier::rlimit(100)]
#[verifier::spinoff_prover]
pub proof fn lemma_brk_rti(s: StateV)
    requires
        s.wf(),
        idle(s),
        s.cycle_count + 13 <= u64::MAX,
        s.instr_count + 2 <= u64::MAX,
        s.cpu.pc < 0xFFFE,
        spec_mem_read(s.mem, s.cpu.pc) == 0x00,
        ({
            let vec = spec_mem_read(s.mem, 0xFFFE) + spec_mem_read(s.mem, 0xFFFF) * 0x100;
            0x4020 <= vec < 0xFFFF && spec_mem_read(s.mem, vec as u16) == 0x40
        }),
    ensures
        ({
            let t = tick_spec(
                tick_spec(
                    tick_spec(
                        tick_spec(
                            tick_spec(
                                tick_spec(
                                    tick_spec(
                                        tick_spec(
                                            tick_spec(
                                                tick_spec(
                                                    tick_spec(
                                                        tick_spec(tick_spec(s)),
                                                    ),
                                                ),
                                            ),
                                        ),
                                    ),
                                ),
                            ),
                        ),
                    ),
                ),
            );
            t.cpu.pc == s.cpu.pc + 2 && t.cpu.sp == s.cpu.sp && t.cpu.flags == s.cpu.flags
                && t.cpu.a == s.cpu.a && t.cpu.x == s.cpu.x && t.cpu.y == s.cpu.y && idle(t)
                && t.wf() && t.cycle_count == s.cycle_count + 13 && t.instr_count
                == s.instr_count + 2
        }),
{
    lemma_brk(s);
    let t7 = tick_spec(
        tick_spec(tick_spec(tick_spec(tick_spec(tick_spec(tick_spec(s)))))),
    );
    let ret = (s.cpu.pc + 2) as u16;
    let sp = s.cpu.sp;
    assert(dec8(sp) != sp);
    assert(dec8(dec8(sp)) != sp && dec8(dec8(sp)) != dec8(sp));
    assert(spec_mem_read(t7.mem, t7.cpu.pc) == 0x40);
    lemma_rti(t7);
    assert(inc8(dec8(dec8(dec8(sp)))) == dec8(dec8(sp)));
    assert(inc8(inc8(dec8(dec8(dec8(sp))))) == dec8(sp));
    assert(inc8(inc8(inc8(dec8(dec8(dec8(sp)))))) == sp);
    assert(spec_mem_read(t7.mem, (0x100 + dec8(dec8(sp))) as u16) == crate::cpu::flags_to_byte(
        s.cpu.flags,
        true,
    ));
    assert(spec_mem_read(t7.mem, (0x100 + dec8(sp)) as u16) == ret % 0x100);
    assert(spec_mem_read(t7.mem, (0x100 + sp) as u16) == ret / 0x100);
    crate::cpu::lemma_flags_round_trip(s.cpu.flags, true);
    assert((ret % 0x100) + (ret / 0x100) * 0x100 == ret);
}

/// The eight conditional branches decode to a single branch cycle.
pub proof fn lemma_decode_branch(opcode: u8, f: crate::cpu::Flag, want: bool)
    requires
        opcode == 0x10 && f == crate::cpu::Flag::Negative && !want || opcode == 0x30 && f
            == crate::cpu::Flag::Negative && want || opcode == 0x50 && f
            == crate::cpu::Flag::Overflow && !want || opcode == 0x70 && f
            == crate::cpu::Flag::Overflow && want || opcode == 0x90 && f
            == crate::cpu::Flag::Carry && !want || opcode == 0xB0 && f == crate::cpu::Flag::Carry
            && want || opcode == 0xD0 && f == crate::cpu::Flag::Zero && !want || opcode == 0xF0
            && f == crate::cpu::Flag::Zero && want,
    ensures
        instruction_spec(opcode) == seq![Cycle::BranchIf(f, want)],
{
    reveal(spec_decode_q0);
    reveal(spec_decode_q1);
    reveal(spec_decode_q2);
    reveal(spec_decode_q3);
    assert(instruction_spec(opcode) =~= seq![Cycle::BranchIf(f, want)]);
}

/// The branch cycle when the tested flag misses: the operand is read and
/// stepped past, and nothing else happens.
#[verifier::rlimit(100)]
#[verifier::spinoff_prover]
proof fn lemma_tick_branch_miss(s: StateV, cs: Seq<Cycle>, f: crate::cpu::Flag, want: bool)
    requires
        mid_instr(s, cs),
        cs[s.cycle_idx as int] == Cycle::BranchIf(f, want),
        crate::cpu::flag_get(s.cpu.flags, f) != want,
    ensures
        tick_spec(s) == stepped(
            StateV {
                cpu: CPU {
                    pc: inc16(s.cpu.pc),
                    first: Some(spec_mem_read(s.mem, s.cpu.pc)),
                    io: CPUIO {
                        low: (s.cpu.pc % 0x100) as u8,
                        high: (s.cpu.pc / 0x100) as u8,
                        wire: spec_mem_read(s.mem, s.cpu.pc),
                    },
                    ..s.cpu
                },
                ..s
            },
            cs,
        ),
{
    reveal(crate::instructions::spec_cycle);
    lemma_active_tick(s, cs);
    assert(s.cpu.pc / 0x100 * 0x100 + s.cpu.pc % 0x100 == s.cpu.pc);
}

/// A branch whose condition misses, run from an idle machine: two cycles,
/// and the program counter just steps past the operand.
#[verifier::rlimit(100)]
#[verifier::spinoff_prover]
pub proof fn lemma_branch_not_taken(s: StateV, opcode: u8, f: crate::cpu::Flag, want: bool)
    requires
        s.wf(),
        idle(s),
        counters_roomy(s, 2),
        s.cpu.pc < 0xFFFE,
        spec_mem_read(s.mem, s.cpu.pc) == opcode,
        instruction_spec(opcode) == seq![Cycle::BranchIf(f, want)],
        crate::cpu::flag_get(s.cpu.flags, f) != want,
    ensures
        ({
            let t = tick_spec(tick_spec(s));
            t.cpu.pc == s.cpu.pc + 2 && t.cpu.flags == s.cpu.flags && t.cpu.a == s.cpu.a
                && t.cpu.sp == s.cpu.sp && t.mem == s.mem && idle(t) && t.wf() && t.cycle_count
                == s.cycle_count + 2 && t.instr_count == s.instr_count + 1
        }),
{
    lemma_fetch(s);
    let cs = instruction_spec(opcode);
    let t1 = tick_spec(s);
    lemma_tick_branch_miss(t1, cs, f, want);
}

} // verus!
