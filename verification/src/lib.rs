//! A cycle-accurate core for the MOS 6502 as wired into the NES: the register
//! file and flag semantics, the address-routed memory map, a micro-operation
//! interpreter that advances one cycle per `tick`, the full table of official
//! opcodes, and an iNES image loader.

#![allow(non_camel_case_types)]

pub mod cpu;
pub mod instructions;
pub mod laws;
pub mod rom;

use vstd::prelude::*;

use crate::cpu::{bus_addr, inc16, CpuFlags, CPU, CPUIO};
use crate::instructions::table::{instruction, instruction_spec};
use crate::instructions::{spec_cross_fixup, spec_cycle};

verus! {

/// The byte behind an address, after range routing and mirroring.
pub open spec fn spec_mem_read(m: MemV, addr: u16) -> u8 {
    if addr < 0x2000 {
        m.ram[addr as int % 0x0800]
    } else if addr < 0x4000 {
        m.ppu[(addr - 0x2000) % 8]
    } else if addr < 0x4018 {
        m.apu[addr - 0x4000]
    } else if addr < 0x4020 {
        m.test[addr - 0x4018]
    } else {
        m.cartridge[addr - 0x4020]
    }
}

/// The memory after a store, routed the same way as `spec_mem_read`.
pub open spec fn spec_mem_write(m: MemV, addr: u16, val: u8) -> MemV {
    if addr < 0x2000 {
        MemV { ram: m.ram.update(addr as int % 0x0800, val), ..m }
    } else if addr < 0x4000 {
        MemV { ppu: m.ppu.update((addr - 0x2000) % 8, val), ..m }
    } else if addr < 0x4018 {
        MemV { apu: m.apu.update(addr - 0x4000, val), ..m }
    } else if addr < 0x4020 {
        MemV { test: m.test.update(addr - 0x4018, val), ..m }
    } else {
        MemV { cartridge: m.cartridge.update(addr - 0x4020, val), ..m }
    }
}

/// Mathematical contents of the memory map.
pub struct MemV {
    pub ram: Seq<u8>,
    pub ppu: Seq<u8>,
    pub apu: Seq<u8>,
    pub test: Seq<u8>,
    pub cartridge: Seq<u8>,
    pub bytes_unused: u16,
}

impl MemV {
    /// The buffer sizes fixed by the memory map.
    pub open spec fn wf(self) -> bool {
        self.ram.len() == 0x0800 && self.ppu.len() == 8 && self.apu.len() == 0x18
            && self.test.len() == 8 && self.cartridge.len() == 0xBFE0
    }
}

/// The CPU-visible memory map: internal RAM, the PPU and APU register stubs,
/// the test region, and cartridge space.
pub struct Memory {
    /// 2 KiB of internal RAM, mirrored over `$0000-$1FFF`.
    pub ram: Vec<u8>,
    /// The eight PPU registers, mirrored over `$2000-$3FFF`.
    pub ppu: Vec<u8>,
    /// APU and I/O registers at `$4000-$4017`.
    pub apu: Vec<u8>,
    /// Test-mode registers at `$4018-$401F`.
    pub test: Vec<u8>,
    /// Cartridge space `$4020-$FFFF`.
    pub cartridge: Vec<u8>,
    /// Bytes at the start of cartridge space not covered by the loaded image.
    pub bytes_unused: u16,
}

impl View for Memory {
    type V = MemV;

    open spec fn view(&self) -> MemV {
        MemV {
            ram: self.ram@,
            ppu: self.ppu@,
            apu: self.apu@,
            test: self.test@,
            cartridge: self.cartridge@,
            bytes_unused: self.bytes_unused,
        }
    }
}

/// A zero-filled byte buffer.
fn zero_bytes(n: usize) -> (v: Vec<u8>)
    ensures
        v@.len() == n,
        forall|i: int| 0 <= i < n ==> v@[i] == 0u8,
{
    let mut v: Vec<u8> = Vec::new();
    let mut k: usize = 0;
    while k < n
        invariant
            k <= n,
            v@.len() == k,
            forall|i: int| 0 <= i < k ==> v@[i] == 0u8,
        decreases n - k,
    {
        v.push(0u8);
        k = k + 1;
    }
    v
}

impl Memory {
    /// All regions zero-filled; nothing of cartridge space is covered yet.
    pub fn new() -> (m: Memory)
        ensures
            m@.wf(),
            forall|a: u16| spec_mem_read(m@, a) == 0u8,
            m@.bytes_unused == 0xBFE0,
    {
        let m = Memory {
            ram: zero_bytes(0x0800),
            ppu: zero_bytes(8),
            apu: zero_bytes(0x18),
            test: zero_bytes(8),
            cartridge: zero_bytes(0xBFE0),
            bytes_unused: 0xBFE0,
        };
        m
    }

    /// Translate a bus address to an offset into the loaded image, if the
    /// address falls inside it.
    pub fn mem_to_rom(&self, addr: u16) -> (r: Option<u16>)
        ensures
            r matches Some(off) <==> 0x4020 + self.bytes_unused <= addr as int,
            r matches Some(off) ==> off == addr - (0x4020 + self.bytes_unused) + 0x10,
    {
        let rom_start: u32 = 0x4020u32 + self.bytes_unused as u32;
        if addr as u32 >= rom_start {
            Some((addr as u32 - rom_start + 0x10) as u16)
        } else {
            None
        }
    }

    /// Read the byte behind an address.
    pub fn read(&mut self, addr: u16) -> (r: u8)
        requires
            old(self)@.wf(),
        ensures
            *final(self) == *old(self),
            r == spec_mem_read(old(self)@, addr),
    {
        if addr < 0x2000 {
            self.ram[(addr as usize) % 0x0800]
        } else if addr < 0x4000 {
            self.ppu[(addr as usize - 0x2000) % 8]
        } else if addr < 0x4018 {
            self.apu[addr as usize - 0x4000]
        } else if addr < 0x4020 {
            self.test[addr as usize - 0x4018]
        } else {
            self.cartridge[addr as usize - 0x4020]
        }
    }

    /// Store a byte behind an address.
    pub fn write(&mut self, addr: u16, val: u8)
        requires
            old(self)@.wf(),
        ensures
            final(self)@ == spec_mem_write(old(self)@, addr, val),
            final(self)@.wf(),
    {
        if addr < 0x2000 {
            let i = (addr as usize) % 0x0800;
            self.ram.set(i, val);
        } else if addr < 0x4000 {
            let i = (addr as usize - 0x2000) % 8;
            self.ppu.set(i, val);
        } else if addr < 0x4018 {
            self.apu.set(addr as usize - 0x4000, val);
        } else if addr < 0x4020 {
            self.test.set(addr as usize - 0x4018, val);
        } else {
            self.cartridge.set(addr as usize - 0x4020, val);
        }
    }
}

/// Internal RAM is mirrored four times over `$0000-$1FFF`: any address below
/// `$2000` reads the same cell as that address reduced mod `$0800`.
pub proof fn lemma_ram_mirroring(m: MemV, a: u16)
    requires
        a < 0x2000,
    ensures
        spec_mem_read(m, a) == spec_mem_read(m, (a % 0x0800) as u16),
{
}

/// The eight PPU registers repeat every eight bytes over `$2000-$3FFF`.
pub proof fn lemma_ppu_mirroring(m: MemV, a: u16)
    requires
        0x2000 <= a < 0x4000,
    ensures
        spec_mem_read(m, a) == spec_mem_read(m, (0x2000 + (a - 0x2000) % 8) as u16),
{
}

/// Writes obey the same mirroring as reads: storing anywhere below `$2000`
/// and reading any alias of the same cell returns the stored byte.
pub proof fn lemma_ram_mirroring_write(m: MemV, a: u16, b: u16, val: u8)
    requires
        m.wf(),
        a < 0x2000,
        b < 0x2000,
        a % 0x0800 == b % 0x0800,
    ensures
        spec_mem_read(spec_mem_write(m, a, val), b) == val,
{
}

/// Placeholder for the picture processing unit, which this core sees only as
/// a memory-mapped register stub.
pub struct PPUState {}

/// The sticky bits a micro-operation leaves for the scheduler: whether an
/// instruction body is running, whether an index addition crossed a page,
/// and whether a taken branch owes its extra cycle.
#[derive(Clone, Copy, PartialEq, Eq, Debug, Structural)]
pub struct OpState {
    pub active: bool,
    pub page_cross: bool,
    pub branching: bool,
}

impl OpState {
    /// All bits clear: between instructions.
    pub fn new() -> (o: OpState)
        ensures
            o == (OpState { active: false, page_cross: false, branching: false }),
    {
        OpState { active: false, page_cross: false, branching: false }
    }
}

/// Mathematical image of the whole machine.
pub struct StateV {
    pub mem: MemV,
    pub cpu: CPU,
    pub instr_indx: u8,
    pub cycle_idx: usize,
    pub op_state: OpState,
    pub cycle_count: u64,
    pub instr_count: u64,
}

/// The whole machine: memory, the register file, and the scheduler that
/// drives one micro-operation per cycle.
pub struct State {
    pub mem: Memory,
    pub cpu: CPU,
    /// Opcode of the instruction currently dispatched.
    pub instr_indx: u8,
    /// Position within the instruction's micro-operation sequence.
    pub cycle_idx: usize,
    pub op_state: OpState,
    /// Monotonic cycle counter.
    pub cycle_count: u64,
    /// Number of opcode fetches performed.
    pub instr_count: u64,
}

impl View for State {
    type V = StateV;

    open spec fn view(&self) -> StateV {
        StateV {
            mem: self.mem@,
            cpu: self.cpu,
            instr_indx: self.instr_indx,
            cycle_idx: self.cycle_idx,
            op_state: self.op_state,
            cycle_count: self.cycle_count,
            instr_count: self.instr_count,
        }
    }
}

/// A bus read: the byte behind the programmed address lands on the wire.
pub open spec fn spec_bus_read(s: StateV) -> StateV {
    StateV {
        cpu: CPU {
            io: CPUIO { wire: spec_mem_read(s.mem, bus_addr(s.cpu.io)), ..s.cpu.io },
            ..s.cpu
        },
        ..s
    }
}

/// A bus write: the wire is stored behind the programmed address.
pub open spec fn spec_bus_write(s: StateV) -> StateV {
    StateV { mem: spec_mem_write(s.mem, bus_addr(s.cpu.io), s.cpu.io.wire), ..s }
}

/// `cycle_idx` stepped forward one position, undoing a re-run step-back.
pub open spec fn inc_usize(x: usize) -> usize {
    if x == usize::MAX {
        0
    } else {
        (x + 1) as usize
    }
}

impl StateV {
    /// The machine is well formed: the memory buffers have their mapped
    /// sizes, and while an instruction is active the cycle position points
    /// into its sequence (or at its start, for an empty sequence).
    pub open spec fn wf(self) -> bool {
        self.mem.wf() && (self.op_state.active ==> (self.cycle_idx == 0 || self.cycle_idx
            < instruction_spec(self.instr_indx).len()))
    }
}

/// An opcode fetch: the byte at the program counter becomes the dispatched
/// opcode, the cycle position resets, the operand scratch registers clear,
/// and an instruction becomes active.
pub open spec fn spec_fetch(s: StateV) -> StateV {
    let s1 = spec_bus_read(spec_set_bus_addr(s, s.cpu.pc));
    StateV {
        cpu: CPU { pc: inc16(s1.cpu.pc), first: None, second: None, ..s1.cpu },
        instr_indx: s1.cpu.io.wire,
        cycle_idx: 0,
        op_state: OpState { active: true, ..s1.op_state },
        instr_count: (s1.instr_count + 1) as u64,
        ..s1
    }
}

/// The state with the cycle counter advanced by one.
pub open spec fn spec_count_cycle(s: StateV) -> StateV {
    StateV { cycle_count: (s.cycle_count + 1) as u64, ..s }
}

/// Whether a tick makes progress: it does not exactly when an instruction
/// with an empty micro-operation sequence has been dispatched.
pub open spec fn tick_ok(s: StateV) -> bool {
    !(s.op_state.active && instruction_spec(s.instr_indx).len() == 0)
}

/// One cycle of the machine.
///
/// While an instruction is active, its cycle at `cycle_idx` runs (the cycle
/// itself may step `cycle_idx` back to ask for a re-run), the position
/// advances, and the instruction deactivates after its last cycle.  With no
/// instruction active, a pending taken-branch penalty or page-cross fixup
/// consumes the cycle; otherwise the next opcode is fetched.  Every
/// productive tick advances `cycle_count` by exactly one; a tick that
/// dispatches an empty sequence changes nothing.
#[verifier::opaque]
pub open spec fn tick_spec(s: StateV) -> StateV {
    if s.op_state.active {
        let seq = instruction_spec(s.instr_indx);
        if seq.len() == 0 {
            s
        } else {
            let s1 = spec_cycle(s, seq[s.cycle_idx as int]);
            let idx2 = inc_usize(s1.cycle_idx);
            let s2 = StateV {
                cycle_idx: idx2,
                op_state: OpState {
                    active: if seq.len() == idx2 {
                        false
                    } else {
                        s1.op_state.active
                    },
                    ..s1.op_state
                },
                ..s1
            };
            spec_count_cycle(s2)
        }
    } else if s.op_state.branching {
        spec_count_cycle(
            StateV { op_state: OpState { branching: false, active: false, ..s.op_state }, ..s },
        )
    } else if s.op_state.page_cross {
        spec_count_cycle(spec_cross_fixup(s))
    } else {
        spec_count_cycle(spec_fetch(s))
    }
}

/// A power-on reset: the program counter from the reset vector, `SP` at
/// `$FD`, only the interrupt-disable flag raised, the cycle counter at 7,
/// and the bus left on the initial dummy read of `$FFFD`.
pub open spec fn spec_reset(s: StateV) -> StateV {
    let lo = spec_mem_read(s.mem, 0xFFFC);
    let hi = spec_mem_read(s.mem, 0xFFFD);
    StateV {
        cpu: CPU {
            pc: (lo + hi * 0x100) as u16,
            sp: 0xFD,
            flags: CpuFlags { n: false, v: false, d: false, i: true, z: false, c: false },
            io: CPUIO { low: 0xFD, high: 0xFF, wire: hi },
            ..s.cpu
        },
        cycle_count: 7,
        instr_count: 0,
        ..s
    }
}

/// The state with the address lines programmed from a 16-bit address.
pub open spec fn spec_set_bus_addr(s: StateV, addr: u16) -> StateV {
    StateV {
        cpu: CPU {
            io: CPUIO { low: (addr % 0x100) as u8, high: (addr / 0x100) as u8, ..s.cpu.io },
            ..s.cpu
        },
        ..s
    }
}

impl State {
    /// A machine with zeroed registers, cleared memory and idle scheduler.
    pub fn new() -> (s: State)
        ensures
            s@.mem.wf(),
            forall|a: u16| spec_mem_read(s@.mem, a) == 0u8,
            s@.mem.bytes_unused == 0xBFE0,
            s@.cpu == crate::cpu::cpu_zero(),
            s@.instr_indx == 0,
            s@.cycle_idx == 0,
            s@.op_state == (OpState { active: false, page_cross: false, branching: false }),
            s@.cycle_count == 0,
            s@.instr_count == 0,
    {
        State {
            mem: Memory::new(),
            cpu: CPU::new(),
            instr_indx: 0,
            cycle_idx: 0,
            op_state: OpState::new(),
            cycle_count: 0,
            instr_count: 0,
        }
    }

    /// Read the byte behind the address currently on the bus into the wire.
    pub fn read(&mut self)
        requires
            old(self)@.mem.wf(),
        ensures
            final(self)@ == spec_bus_read(old(self)@),
    {
        let addr: u16 = (self.cpu.io.high as u16) * 0x100 + self.cpu.io.low as u16;
        let v = self.mem.read(addr);
        self.cpu.io.wire = v;
    }

    /// Program the bus with an address and read the byte behind it.
    pub fn read_at(&mut self, addr: u16) -> (r: u8)
        requires
            old(self)@.mem.wf(),
        ensures
            final(self)@ == spec_bus_read(spec_set_bus_addr(old(self)@, addr)),
            r == spec_mem_read(old(self)@.mem, addr),
    {
        self.cpu.io.set(addr);
        self.read();
        self.cpu.io.wire
    }

    /// Fetch the next opcode: read it at the program counter, reset the
    /// cycle position, clear the operand scratch registers, and mark an
    /// instruction active.
    pub fn read_instr(&mut self)
        requires
            old(self)@.mem.wf(),
            old(self)@.instr_count < u64::MAX,
        ensures
            final(self)@ == spec_fetch(old(self)@),
    {
        let pc = self.cpu.pc;
        let opcode = self.read_at(pc);
        self.instr_indx = opcode;
        self.cycle_idx = 0;
        self.instr_count = self.instr_count + 1;
        self.cpu.pc = if self.cpu.pc == 0xFFFF {
            0
        } else {
            self.cpu.pc + 1
        };
        self.cpu.first = None;
        self.cpu.second = None;
        self.op_state.active = true;
    }

    /// Advance the machine by one cycle.
    ///
    /// The post-state is exactly `tick_spec` of the pre-state: a pending
    /// instruction cycle runs, or a branch/page-cross penalty cycle is
    /// consumed, or the next opcode is fetched; `cycle_count` rises by one.
    /// Returns `false`, leaving the state untouched, exactly when the
    /// dispatched opcode has no micro-operation sequence (an unofficial
    /// opcode).
    #[verifier::rlimit(100)]
    #[verifier::spinoff_prover]
    pub fn step(&mut self) -> (r: bool)
        requires
            old(self)@.wf(),
            old(self)@.cycle_count < u64::MAX,
            old(self)@.instr_count < u64::MAX,
        ensures
            final(self)@ == tick_spec(old(self)@),
            r == tick_ok(old(self)@),
            final(self)@.wf(),
    {
        proof {
            reveal(tick_spec);
            reveal(crate::instructions::spec_cycle);
        }
        if self.op_state.active {
            let seq = instruction(self.instr_indx);
            if seq.len() == 0 {
                return false;
            }
            let c = seq[self.cycle_idx];
            c.exec(self);
            self.cycle_idx = if self.cycle_idx == usize::MAX {
                0
            } else {
                self.cycle_idx + 1
            };
            if seq.len() == self.cycle_idx {
                self.op_state.active = false;
            }
        } else if self.op_state.branching {
            self.op_state.branching = false;
            self.op_state.active = false;
        } else if self.op_state.page_cross {
            self.cpu.io.high = if self.cpu.io.high == 0xFF {
                0
            } else {
                self.cpu.io.high + 1
            };
            self.op_state.page_cross = false;
            self.read();
        } else {
            self.read_instr();
        }
        self.cycle_count = self.cycle_count + 1;
        true
    }

    /// Power-on reset: load the program counter from the reset vector at
    /// `$FFFC/$FFFD`, set `SP` to `$FD`, raise the interrupt-disable flag,
    /// start the cycle counter at 7, and issue the initial dummy read.
    pub fn reset(&mut self)
        requires
            old(self)@.mem.wf(),
        ensures
            final(self)@ == spec_reset(old(self)@),
    {
        self.instr_count = 0;
        let low = self.read_at(0xFFFC);
        let high = self.read_at(0xFFFD);
        self.cpu.pc = low as u16 + (high as u16) * 0x100;
        self.cycle_count = 7;
        self.cpu.flags = CpuFlags { n: false, v: false, d: false, i: true, z: false, c: false };
        self.cpu.sp = 0xFD;
        self.read();
    }

    /// Store the wire behind the address currently on the bus.
    pub fn write(&mut self)
        requires
            old(self)@.mem.wf(),
        ensures
            final(self)@ == spec_bus_write(old(self)@),
            final(self)@.mem.wf(),
    {
        let addr: u16 = (self.cpu.io.high as u16) * 0x100 + self.cpu.io.low as u16;
        let wire = self.cpu.io.wire;
        self.mem.write(addr, wire);
    }
}

} // verus!
