//! CPU register file, status flags and the bus triple.
//!
//! The 6502 status register is modelled as one boolean per live flag.  The
//! `Unused` bit always reads back as 1 and the `Break` bit exists only in the
//! copies of the register that are pushed on the stack, so neither is stored
//! here; both are materialized by `to_byte` and stripped again by `from_byte`.

use vstd::prelude::*;

verus! {

/// One of the live 6502 status flags.
#[derive(Clone, Copy, PartialEq, Eq, Debug, Structural)]
pub enum Flag {
    Negative,
    Overflow,
    Decimal,
    InterruptDisable,
    Zero,
    Carry,
}

/// The 6502 status register: bits N V - B D I Z C, with the reserved bit
/// always 1 and the break bit present only in pushed copies.
#[derive(Clone, Copy, PartialEq, Eq, Debug, Structural)]
pub struct CpuFlags {
    pub n: bool,
    pub v: bool,
    pub d: bool,
    pub i: bool,
    pub z: bool,
    pub c: bool,
}

/// The value of one flag.
pub open spec fn flag_get(f: CpuFlags, which: Flag) -> bool {
    match which {
        Flag::Negative => f.n,
        Flag::Overflow => f.v,
        Flag::Decimal => f.d,
        Flag::InterruptDisable => f.i,
        Flag::Zero => f.z,
        Flag::Carry => f.c,
    }
}

/// The flags with one flag replaced.
pub open spec fn flag_put(f: CpuFlags, which: Flag, val: bool) -> CpuFlags {
    match which {
        Flag::Negative => CpuFlags { n: val, ..f },
        Flag::Overflow => CpuFlags { v: val, ..f },
        Flag::Decimal => CpuFlags { d: val, ..f },
        Flag::InterruptDisable => CpuFlags { i: val, ..f },
        Flag::Zero => CpuFlags { z: val, ..f },
        Flag::Carry => CpuFlags { c: val, ..f },
    }
}

/// Byte image of the status register as pushed on the stack: bit 5 (unused)
/// is always 1 and bit 4 (break) is 1 exactly when `brk` is set.
pub open spec fn flags_to_byte(f: CpuFlags, brk: bool) -> u8 {
    ((if f.n { 0x80u8 } else { 0u8 }) + (if f.v { 0x40u8 } else { 0u8 }) + 0x20u8
        + (if brk { 0x10u8 } else { 0u8 }) + (if f.d { 0x08u8 } else { 0u8 })
        + (if f.i { 0x04u8 } else { 0u8 }) + (if f.z { 0x02u8 } else { 0u8 })
        + (if f.c { 0x01u8 } else { 0u8 })) as u8
}

/// Live flags decoded from a byte pulled off the stack: the break and unused
/// bits are discarded.
pub open spec fn flags_from_byte(b: u8) -> CpuFlags {
    CpuFlags {
        n: b / 0x80 % 2 == 1,
        v: b / 0x40 % 2 == 1,
        d: b / 0x08 % 2 == 1,
        i: b / 0x04 % 2 == 1,
        z: b / 0x02 % 2 == 1,
        c: b % 2 == 1,
    }
}

impl CpuFlags {
    /// All flags clear, the power-on default.
    pub fn new() -> (f: CpuFlags)
        ensures
            f == (CpuFlags { n: false, v: false, d: false, i: false, z: false, c: false }),
    {
        CpuFlags { n: false, v: false, d: false, i: false, z: false, c: false }
    }

    /// Whether one flag is set.
    pub fn contains(&self, which: Flag) -> (r: bool)
        ensures
            r == flag_get(*self, which),
    {
        match which {
            Flag::Negative => self.n,
            Flag::Overflow => self.v,
            Flag::Decimal => self.d,
            Flag::InterruptDisable => self.i,
            Flag::Zero => self.z,
            Flag::Carry => self.c,
        }
    }

    /// Set or clear one flag.
    pub fn set(&mut self, which: Flag, val: bool)
        ensures
            *final(self) == flag_put(*old(self), which, val),
    {
        match which {
            Flag::Negative => self.n = val,
            Flag::Overflow => self.v = val,
            Flag::Decimal => self.d = val,
            Flag::InterruptDisable => self.i = val,
            Flag::Zero => self.z = val,
            Flag::Carry => self.c = val,
        }
    }

    /// Byte image as pushed on the stack, with the break bit as given.
    pub fn to_byte(self, brk: bool) -> (b: u8)
        ensures
            b == flags_to_byte(self, brk),
    {
        let mut b: u8 = 0x20;
        if self.n {
            b = b + 0x80;
        }
        if self.v {
            b = b + 0x40;
        }
        if brk {
            b = b + 0x10;
        }
        if self.d {
            b = b + 0x08;
        }
        if self.i {
            b = b + 0x04;
        }
        if self.z {
            b = b + 0x02;
        }
        if self.c {
            b = b + 0x01;
        }
        b
    }

    /// Live flags decoded from a pulled byte; break and unused are dropped.
    pub fn from_byte(b: u8) -> (f: CpuFlags)
        ensures
            f == flags_from_byte(b),
    {
        CpuFlags {
            n: b / 0x80 % 2 == 1,
            v: b / 0x40 % 2 == 1,
            d: b / 0x08 % 2 == 1,
            i: b / 0x04 % 2 == 1,
            z: b / 0x02 % 2 == 1,
            c: b % 2 == 1,
        }
    }
}

/// Decoding a pushed status byte restores the live flags exactly, whatever
/// the break bit was in the pushed copy.  This is the flags half of the
/// push/pull balance of PHP/PLP and BRK/RTI.
pub proof fn lemma_flags_round_trip(f: CpuFlags, brk: bool)
    ensures
        flags_from_byte(flags_to_byte(f, brk)) == f,
{
    let nn: u8 = if f.n { 1 } else { 0 };
    let vv: u8 = if f.v { 1 } else { 0 };
    let bb: u8 = if brk { 1 } else { 0 };
    let dd: u8 = if f.d { 1 } else { 0 };
    let ii: u8 = if f.i { 1 } else { 0 };
    let zz: u8 = if f.z { 1 } else { 0 };
    let cc: u8 = if f.c { 1 } else { 0 };
    let s: u8 = flags_to_byte(f, brk);
    assert(s == (nn * 0x80 + vv * 0x40 + 0x20 + bb * 0x10 + dd * 8 + ii * 4 + zz * 2
        + cc) as u8);
    assert((nn <= 1 && vv <= 1 && bb <= 1 && dd <= 1 && ii <= 1 && zz <= 1 && cc <= 1) ==> {
        let t = (nn * 0x80 + vv * 0x40 + 0x20 + bb * 0x10 + dd * 8 + ii * 4 + zz * 2 + cc) as u8;
        t / 0x80 % 2 == nn && t / 0x40 % 2 == vv && t / 8 % 2 == dd && t / 4 % 2 == ii && t / 2 % 2
            == zz && t % 2 == cc
    }) by (bit_vector);
}

/// An 8-bit value incremented with wrap-around.
pub open spec fn inc8(x: u8) -> u8 {
    if x == 0xFF {
        0
    } else {
        (x + 1) as u8
    }
}

/// An 8-bit value decremented with wrap-around.
pub open spec fn dec8(x: u8) -> u8 {
    if x == 0 {
        0xFF
    } else {
        (x - 1) as u8
    }
}

/// A 16-bit value incremented with wrap-around.
pub open spec fn inc16(x: u16) -> u16 {
    if x == 0xFFFF {
        0
    } else {
        (x + 1) as u16
    }
}

/// The bus triple: every memory transaction programs `low`/`high` and either
/// fills `wire` from memory (read) or drains `wire` into memory (write).
#[derive(Clone, Copy, PartialEq, Eq, Debug, Structural)]
pub struct CPUIO {
    /// Lower 8 bits of the address bus.
    pub low: u8,
    /// Upper 8 bits of the address bus.
    pub high: u8,
    /// The data line.
    pub wire: u8,
}

/// The 16-bit address currently on the bus.
pub open spec fn bus_addr(io: CPUIO) -> u16 {
    ((io.high as u16) * 0x100 + (io.low as u16)) as u16
}

impl CPUIO {
    /// A bus with all lines low.
    pub fn new() -> (io: CPUIO)
        ensures
            io == (CPUIO { low: 0, high: 0, wire: 0 }),
    {
        CPUIO { low: 0, high: 0, wire: 0 }
    }

    /// Program the address lines from a 16-bit address.
    pub fn set(&mut self, addr: u16)
        ensures
            final(self).low == addr % 0x100,
            final(self).high == addr / 0x100,
            final(self).wire == old(self).wire,
            bus_addr(*final(self)) == addr,
    {
        self.low = (addr % 0x100) as u8;
        self.high = (addr / 0x100) as u8;
    }
}

/// The CPU register file.
#[derive(Clone, Copy, PartialEq, Eq, Debug, Structural)]
pub struct CPU {
    /// Accumulator.
    pub a: u8,
    /// X index register.
    pub x: u8,
    /// Y index register.
    pub y: u8,
    /// Status flags.
    pub flags: CpuFlags,
    /// Program counter.
    pub pc: u16,
    /// Stack pointer; the stack lives at `0x0100 + sp`.
    pub sp: u8,
    /// Scratch byte staged between the cycles of indirect addressing.
    pub latch: u8,
    /// First operand of the current instruction, cleared on each fetch.
    pub first: Option<u8>,
    /// Second operand of the current instruction, cleared on each fetch.
    pub second: Option<u8>,
    /// Effective address used by the last memory operand, for tracing.
    pub eff_addr: Option<u16>,
    /// The bus triple.
    pub io: CPUIO,
}

impl CPU {
    /// A register file with everything zeroed.
    pub fn new() -> (c: CPU)
        ensures
            c == cpu_zero(),
    {
        CPU {
            a: 0,
            x: 0,
            y: 0,
            flags: CpuFlags::new(),
            pc: 0,
            sp: 0,
            latch: 0,
            first: None,
            second: None,
            eff_addr: None,
            io: CPUIO::new(),
        }
    }

    /// The program counter as little-endian bytes.
    pub fn pc_get(&self) -> (r: [u8; 2])
        ensures
            r[0] == self.pc % 0x100,
            r[1] == self.pc / 0x100,
    {
        [(self.pc % 0x100) as u8, (self.pc / 0x100) as u8]
    }

    /// Set the program counter from little-endian bytes.
    pub fn pc_set(&mut self, pc: [u8; 2])
        ensures
            *final(self) == (CPU { pc: (pc[0] as u16 + pc[1] as u16 * 0x100) as u16, ..*old(self) }),
    {
        let lo = pc[0];
        let hi = pc[1];
        self.pc = lo as u16 + hi as u16 * 0x100;
    }
}

/// The all-zero register file.
pub open spec fn cpu_zero() -> CPU {
    CPU {
        a: 0,
        x: 0,
        y: 0,
        flags: CpuFlags { n: false, v: false, d: false, i: false, z: false, c: false },
        pc: 0,
        sp: 0,
        latch: 0,
        first: None,
        second: None,
        eff_addr: None,
        io: CPUIO { low: 0, high: 0, wire: 0 },
    }
}

} // verus!
