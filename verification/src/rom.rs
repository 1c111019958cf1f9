//! The iNES image loader: a 16-byte header (magic `NES\x1A`, bank counts and
//! flag bytes), an optional 512-byte trainer, and flat PRG data that is
//! copied into cartridge space.  With mapper 0, a single 16 KiB PRG bank is
//! mirrored into both halves of `$8000-$FFFF`; two banks fill it linearly.

use vstd::prelude::*;

use crate::{MemV, State};

verus! {

/// Why an image could not be loaded.
#[derive(Clone, Copy, PartialEq, Eq, Debug)]
pub enum ROMError {
    /// The image could not be read in full: it is shorter than its own
    /// header and data promise.
    IOError,
    /// The first four bytes are not `NES\x1A`; they are carried along.
    InvalidMagicValue([u8; 4]),
}

/// The fixed-size iNES header fields this core reads.
#[derive(Clone, Copy, PartialEq, Eq, Debug, Structural)]
pub struct InesHeader {
    /// Number of 16 KiB PRG banks.
    pub prg_banks: u8,
    /// Number of 8 KiB CHR banks (delivered to the PPU, not mapped here).
    pub chr_banks: u8,
    /// Flags byte 6: mirroring, battery, trainer, four-screen, mapper low.
    pub flags6: u8,
    /// Flags byte 7: VS/PlayChoice, NES 2.0 selector, mapper high.
    pub flags7: u8,
}

/// The image begins with the iNES magic bytes.
pub open spec fn spec_magic_ok(rom: Seq<u8>) -> bool {
    rom.len() >= 4 && rom[0] == 0x4E && rom[1] == 0x45 && rom[2] == 0x53 && rom[3] == 0x1A
}

/// Where PRG data starts: after the header, and after the 512-byte trainer
/// when flags byte 6 announces one.
pub open spec fn spec_prg_offset(rom: Seq<u8>) -> int {
    if rom.len() >= 16 && rom[6] / 4 % 2 == 1 {
        528int
    } else {
        16int
    }
}

/// How many PRG bytes are mapped: one bank mirrored, or two linearly.
pub open spec fn spec_prg_span(rom: Seq<u8>) -> int {
    if rom.len() >= 16 && rom[4] >= 2 {
        0x8000int
    } else {
        0x4000int
    }
}

/// The image parses and holds all the PRG data it announces.
pub open spec fn spec_rom_loadable(rom: Seq<u8>) -> bool {
    spec_magic_ok(rom) && rom.len() >= 16 && spec_prg_offset(rom) + spec_prg_span(rom) <= rom.len()
}

/// Cartridge space after a single PRG bank is mirrored into `$8000-$BFFF`
/// and `$C000-$FFFF` (offsets `0x3FE0` and `0x7FE0` within the buffer).
pub open spec fn spec_cart_one_bank(cart: Seq<u8>, prg: Seq<u8>) -> Seq<u8> {
    Seq::new(
        cart.len(),
        |i: int|
            if 0x3FE0 <= i < 0x7FE0 {
                prg[i - 0x3FE0]
            } else if 0x7FE0 <= i < 0xBFE0 {
                prg[i - 0x7FE0]
            } else {
                cart[i]
            },
    )
}

/// Cartridge space after two PRG banks fill `$8000-$FFFF` linearly.
pub open spec fn spec_cart_two_banks(cart: Seq<u8>, prg: Seq<u8>) -> Seq<u8> {
    Seq::new(
        cart.len(),
        |i: int|
            if 0x3FE0 <= i < 0xBFE0 {
                prg[i - 0x3FE0]
            } else {
                cart[i]
            },
    )
}

/// The memory map after loading an image.
pub open spec fn spec_loaded_mem(m: MemV, rom: Seq<u8>) -> MemV {
    let prg = rom.subrange(spec_prg_offset(rom), spec_prg_offset(rom) + spec_prg_span(rom));
    if rom.len() >= 16 && rom[4] >= 2 {
        MemV { cartridge: spec_cart_two_banks(m.cartridge, prg), bytes_unused: 0x3FE0, ..m }
    } else {
        MemV { cartridge: spec_cart_one_bank(m.cartridge, prg), bytes_unused: 0x7FE0, ..m }
    }
}

impl InesHeader {
    /// The mapper number: high nibble of flags byte 7 over the high nibble
    /// of flags byte 6.
    pub fn mapper(&self) -> (m: u8)
        ensures
            m == self.flags7 / 16 * 16 + self.flags6 / 16,
    {
        self.flags7 / 16 * 16 + self.flags6 / 16
    }

    /// Whether a 512-byte trainer precedes the PRG data.
    pub fn trainer(&self) -> (t: bool)
        ensures
            t == (self.flags6 / 4 % 2 == 1),
    {
        self.flags6 / 4 % 2 == 1
    }

    /// Whether the nametables are mirrored vertically.
    pub fn vertical_mirroring(&self) -> (v: bool)
        ensures
            v == (self.flags6 % 2 == 1),
    {
        self.flags6 % 2 == 1
    }

    /// Whether the cartridge carries battery-backed RAM.
    pub fn battery(&self) -> (b: bool)
        ensures
            b == (self.flags6 / 2 % 2 == 1),
    {
        self.flags6 / 2 % 2 == 1
    }

    /// Whether the image declares the NES 2.0 extension (selector `10`).
    pub fn nes2(&self) -> (b: bool)
        ensures
            b == (self.flags7 / 4 % 4 == 2),
    {
        self.flags7 / 4 % 4 == 2
    }
}

/// Parse the 16-byte header.  Succeeds exactly on images that start with
/// the iNES magic and are long enough to hold a header; a too-short image
/// is unreadable, and wrong magic bytes are reported with their values.
pub fn parse_header(rom: &Vec<u8>) -> (r: Result<InesHeader, ROMError>)
    ensures
        r matches Ok(h) <==> spec_magic_ok(rom@) && rom@.len() >= 16,
        r matches Ok(h) ==> h == (InesHeader {
            prg_banks: rom@[4],
            chr_banks: rom@[5],
            flags6: rom@[6],
            flags7: rom@[7],
        }),
        r matches Err(e) ==> (e matches ROMError::InvalidMagicValue(m) <==> !spec_magic_ok(rom@)
            && rom@.len() >= 4),
        r matches Err(ROMError::InvalidMagicValue(m)) ==> m@ == rom@.subrange(0, 4),
{
    if rom.len() < 4 {
        return Err(ROMError::IOError);
    }
    if !(rom[0] == 0x4E && rom[1] == 0x45 && rom[2] == 0x53 && rom[3] == 0x1A) {
        let m = [rom[0], rom[1], rom[2], rom[3]];
        proof {
            assert(m@ =~= rom@.subrange(0, 4));
        }
        return Err(ROMError::InvalidMagicValue(m));
    }
    if rom.len() < 16 {
        return Err(ROMError::IOError);
    }
    Ok(InesHeader { prg_banks: rom[4], chr_banks: rom[5], flags6: rom[6], flags7: rom[7] })
}

/// Load an iNES image into cartridge space.
///
/// Succeeds exactly when the image parses and holds the PRG data it
/// announces; on failure the machine is left untouched.  On success a
/// single 16 KiB bank is mirrored into both halves of `$8000-$FFFF`, two or
/// more banks are copied linearly, and `bytes_unused` records where the
/// mapped image begins.
pub fn load_rom(rom: &Vec<u8>, state: &mut State) -> (r: Result<(), ROMError>)
    requires
        old(state)@.mem.wf(),
    ensures
        r matches Ok(()) <==> spec_rom_loadable(rom@),
        r matches Err(e) ==> *final(state) == *old(state) && (e matches
            ROMError::InvalidMagicValue(m) <==> !spec_magic_ok(rom@) && rom@.len() >= 4),
        r matches Err(ROMError::InvalidMagicValue(m)) ==> m@ == rom@.subrange(0, 4),
        r matches Ok(()) ==> final(state)@ == (crate::StateV {
            mem: spec_loaded_mem(old(state)@.mem, rom@),
            ..old(state)@
        }),
        final(state)@.mem.wf(),
{
    let header = match parse_header(rom) {
        Ok(h) => h,
        Err(e) => {
            return Err(e);
        },
    };
    let off: usize = if header.trainer() {
        16 + 512
    } else {
        16
    };
    let span: usize = if header.prg_banks >= 2 {
        0x8000
    } else {
        0x4000
    };
    if rom.len() < off + span {
        return Err(ROMError::IOError);
    }
    let ghost prg = rom@.subrange(spec_prg_offset(rom@), spec_prg_offset(rom@) + spec_prg_span(rom@));
    if header.prg_banks >= 2 {
        let mut i: usize = 0;
        while i < 0x8000
            invariant
                off == spec_prg_offset(rom@),
                rom@.len() >= off + 0x8000,
                prg == rom@.subrange(off as int, off + 0x8000),
                i <= 0x8000,
                state@.cpu == old(state)@.cpu,
                state@.instr_indx == old(state)@.instr_indx,
                state@.cycle_idx == old(state)@.cycle_idx,
                state@.op_state == old(state)@.op_state,
                state@.cycle_count == old(state)@.cycle_count,
                state@.instr_count == old(state)@.instr_count,
                state@.mem.ram == old(state)@.mem.ram,
                state@.mem.ppu == old(state)@.mem.ppu,
                state@.mem.apu == old(state)@.mem.apu,
                state@.mem.test == old(state)@.mem.test,
                state@.mem.bytes_unused == old(state)@.mem.bytes_unused,
                state@.mem.cartridge.len() == 0xBFE0,
                old(state)@.mem.cartridge.len() == 0xBFE0,
                forall|j: int|
                    0x3FE0 <= j < 0x3FE0 + i ==> state@.mem.cartridge[j] == prg[j - 0x3FE0],
                forall|j: int|
                    0 <= j < 0xBFE0 && !(0x3FE0 <= j < 0x3FE0 + i) ==> state@.mem.cartridge[j]
                        == old(state)@.mem.cartridge[j],
            decreases 0x8000 - i,
        {
            let b = rom[off + i];
            state.mem.cartridge.set(0x3FE0 + i, b);
            i = i + 1;
        }
        state.mem.bytes_unused = 0x3FE0;
        proof {
            assert(state@.mem.cartridge =~= spec_cart_two_banks(old(state)@.mem.cartridge, prg));
            assert(state@.mem =~= spec_loaded_mem(old(state)@.mem, rom@));
            assert(state@ =~= (crate::StateV {
                mem: spec_loaded_mem(old(state)@.mem, rom@),
                ..old(state)@
            }));
        }
    } else {
        let mut i: usize = 0;
        while i < 0x4000
            invariant
                off == spec_prg_offset(rom@),
                rom@.len() >= off + 0x4000,
                prg == rom@.subrange(off as int, off + 0x4000),
                i <= 0x4000,
                state@.cpu == old(state)@.cpu,
                state@.instr_indx == old(state)@.instr_indx,
                state@.cycle_idx == old(state)@.cycle_idx,
                state@.op_state == old(state)@.op_state,
                state@.cycle_count == old(state)@.cycle_count,
                state@.instr_count == old(state)@.instr_count,
                state@.mem.ram == old(state)@.mem.ram,
                state@.mem.ppu == old(state)@.mem.ppu,
                state@.mem.apu == old(state)@.mem.apu,
                state@.mem.test == old(state)@.mem.test,
                state@.mem.bytes_unused == old(state)@.mem.bytes_unused,
                state@.mem.cartridge.len() == 0xBFE0,
                old(state)@.mem.cartridge.len() == 0xBFE0,
                forall|j: int|
                    0x3FE0 <= j < 0x3FE0 + i ==> state@.mem.cartridge[j] == prg[j - 0x3FE0],
                forall|j: int|
                    0x7FE0 <= j < 0x7FE0 + i ==> state@.mem.cartridge[j] == prg[j - 0x7FE0],
                forall|j: int|
                    0 <= j < 0xBFE0 && !(0x3FE0 <= j < 0x3FE0 + i) && !(0x7FE0 <= j < 0x7FE0 + i)
                        ==> state@.mem.cartridge[j] == old(state)@.mem.cartridge[j],
            decreases 0x4000 - i,
        {
            let b = rom[off + i];
            state.mem.cartridge.set(0x3FE0 + i, b);
            state.mem.cartridge.set(0x7FE0 + i, b);
            i = i + 1;
        }
        state.mem.bytes_unused = 0x7FE0;
        proof {
            assert(state@.mem.cartridge =~= spec_cart_one_bank(old(state)@.mem.cartridge, prg));
            assert(state@.mem =~= spec_loaded_mem(old(state)@.mem, rom@));
            assert(state@ =~= (crate::StateV {
                mem: spec_loaded_mem(old(state)@.mem, rom@),
                ..old(state)@
            }));
        }
    }
    Ok(())
}

} // verus!
