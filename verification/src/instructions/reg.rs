//! Named accessors over the register file.  A micro-operation names its
//! sources and targets with `Register` values; `get` and `set` route them to
//! the right field of the `CPU`, including the two program-counter halves,
//! the bus lines, and the pushed/pulled images of the status register.

use vstd::prelude::*;

use crate::cpu::{flags_from_byte, flags_to_byte, CpuFlags, CPU, CPUIO};

verus! {

/// A register name: a capability to read and write one 8-bit slot of the
/// register file or bus.
#[derive(Clone, Copy, PartialEq, Eq, Debug, Structural)]
pub enum Register {
    /// Accumulator.
    Acc,
    /// X index register.
    X,
    /// Y index register.
    Y,
    /// Stack pointer.
    Sp,
    /// Low half of the program counter.
    Pcl,
    /// High half of the program counter.
    Pch,
    /// Indirect-addressing scratch byte.
    Latch,
    /// First operand of the current instruction.
    First,
    /// Second operand of the current instruction.
    Second,
    /// Status register as pushed on the stack: unused and break bits set.
    FlagsPushed,
    /// Status register as pulled from the stack: break bit discarded on
    /// write, read back with the break bit clear.
    FlagsPulled,
    /// The data line of the bus.
    Bus,
    /// Low byte of the address bus.
    AddrLow,
    /// High byte of the address bus.
    AddrHigh,
    /// A constant source; writes to it are dropped.
    Const(u8),
}

/// The byte a register name reads.
pub open spec fn reg_get(c: CPU, r: Register) -> u8 {
    match r {
        Register::Acc => c.a,
        Register::X => c.x,
        Register::Y => c.y,
        Register::Sp => c.sp,
        Register::Pcl => (c.pc % 0x100) as u8,
        Register::Pch => (c.pc / 0x100) as u8,
        Register::Latch => c.latch,
        Register::First => match c.first {
            Some(v) => v,
            None => 0,
        },
        Register::Second => match c.second {
            Some(v) => v,
            None => 0,
        },
        Register::FlagsPushed => flags_to_byte(c.flags, true),
        Register::FlagsPulled => flags_to_byte(c.flags, false),
        Register::Bus => c.io.wire,
        Register::AddrLow => c.io.low,
        Register::AddrHigh => c.io.high,
        Register::Const(k) => k,
    }
}

/// The register file after writing a byte through a register name.
pub open spec fn reg_set(c: CPU, r: Register, v: u8) -> CPU {
    match r {
        Register::Acc => CPU { a: v, ..c },
        Register::X => CPU { x: v, ..c },
        Register::Y => CPU { y: v, ..c },
        Register::Sp => CPU { sp: v, ..c },
        Register::Pcl => CPU { pc: ((c.pc / 0x100) * 0x100 + v) as u16, ..c },
        Register::Pch => CPU { pc: (c.pc % 0x100 + (v as u16) * 0x100) as u16, ..c },
        Register::Latch => CPU { latch: v, ..c },
        Register::First => CPU { first: Some(v), ..c },
        Register::Second => CPU { second: Some(v), ..c },
        Register::FlagsPushed => CPU { flags: flags_from_byte(v), ..c },
        Register::FlagsPulled => CPU { flags: flags_from_byte(v), ..c },
        Register::Bus => CPU { io: CPUIO { wire: v, ..c.io }, ..c },
        Register::AddrLow => CPU { io: CPUIO { low: v, ..c.io }, ..c },
        Register::AddrHigh => CPU { io: CPUIO { high: v, ..c.io }, ..c },
        Register::Const(_) => c,
    }
}

impl Register {
    /// Read the byte this register name designates.
    pub fn get(self, cpu: &CPU) -> (v: u8)
        ensures
            v == reg_get(*cpu, self),
    {
        match self {
            Register::Acc => cpu.a,
            Register::X => cpu.x,
            Register::Y => cpu.y,
            Register::Sp => cpu.sp,
            Register::Pcl => (cpu.pc % 0x100) as u8,
            Register::Pch => (cpu.pc / 0x100) as u8,
            Register::Latch => cpu.latch,
            Register::First => match cpu.first {
                Some(v) => v,
                None => 0,
            },
            Register::Second => match cpu.second {
                Some(v) => v,
                None => 0,
            },
            Register::FlagsPushed => cpu.flags.to_byte(true),
            Register::FlagsPulled => cpu.flags.to_byte(false),
            Register::Bus => cpu.io.wire,
            Register::AddrLow => cpu.io.low,
            Register::AddrHigh => cpu.io.high,
            Register::Const(k) => k,
        }
    }

    /// Write a byte through this register name.
    pub fn set(self, cpu: &mut CPU, v: u8)
        ensures
            *final(cpu) == reg_set(*old(cpu), self, v),
    {
        match self {
            Register::Acc => cpu.a = v,
            Register::X => cpu.x = v,
            Register::Y => cpu.y = v,
            Register::Sp => cpu.sp = v,
            Register::Pcl => cpu.pc = (cpu.pc / 0x100) * 0x100 + v as u16,
            Register::Pch => cpu.pc = cpu.pc % 0x100 + (v as u16) * 0x100,
            Register::Latch => cpu.latch = v,
            Register::First => cpu.first = Some(v),
            Register::Second => cpu.second = Some(v),
            Register::FlagsPushed => cpu.flags = CpuFlags::from_byte(v),
            Register::FlagsPulled => cpu.flags = CpuFlags::from_byte(v),
            Register::Bus => cpu.io.wire = v,
            Register::AddrLow => cpu.io.low = v,
            Register::AddrHigh => cpu.io.high = v,
            Register::Const(_) => {},
        }
    }
}

} // verus!
