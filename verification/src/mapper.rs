//! The polymorphic `Mapper` interface for cartridge bank switching, and its
//! NROM variant, which mirrors a single 16 KiB program bank across the CPU's
//! 32 KiB cartridge window.

use vstd::prelude::*;

verus! {

/// A bank-switching strategy: a pure mapping from a CPU or PPU address to
/// an offset into the cartridge's program or character memory.  `None` means
/// the mapper does not claim the address, and the bus must try its built-in
/// RAM and PPU ranges instead.
pub trait Mapper {
    /// What `cpu_map_read` returns.
    spec fn cpu_read_map(&self, addr: u16) -> Option<u16>;

    /// What `cpu_map_write` returns.
    spec fn cpu_write_map(&self, addr: u16) -> Option<u16>;

    /// What `ppu_map_read` returns.
    spec fn ppu_read_map(&self, addr: u16) -> Option<u16>;

    /// What `ppu_map_write` returns.
    spec fn ppu_write_map(&self, addr: u16) -> Option<u16>;

    /// Maps a CPU read address to a program-memory offset.
    fn cpu_map_read(&self, addr: u16) -> (r: Option<u16>)
        ensures
            r == self.cpu_read_map(addr),
    ;

    /// Maps a CPU write address to a program-memory offset.
    fn cpu_map_write(&self, addr: u16) -> (r: Option<u16>)
        ensures
            r == self.cpu_write_map(addr),
    ;

    /// Maps a PPU read address to a character-memory offset.
    fn ppu_map_read(&self, addr: u16) -> (r: Option<u16>)
        ensures
            r == self.ppu_read_map(addr),
    ;

    /// Maps a PPU write address to a character-memory offset.
    fn ppu_map_write(&self, addr: u16) -> (r: Option<u16>)
        ensures
            r == self.ppu_write_map(addr),
    ;
}

/// Mapper 0 (NROM): no bank switching.  CPU addresses at `0x8000` and above
/// land in program memory, masked to 32 KiB when more than one program bank
/// is present and to 16 KiB otherwise, which mirrors a single bank across the
/// window.  PPU addresses below `0x2000` pass through to character memory;
/// writes there are only claimed when the cartridge has no character banks,
/// in which case character memory acts as RAM.
#[derive(Debug, Clone, Copy)]
pub struct Mapper0 {
    pub prg_banks: u8,
    pub chr_banks: u8,
}

/// The CPU-side address mask of an NROM cartridge: 32 KiB with more than one
/// program bank, 16 KiB otherwise.
pub open spec fn nrom_cpu_mask(prg_banks: u8) -> u16 {
    if prg_banks > 1 {
        0x7fff
    } else {
        0x3fff
    }
}

/// NROM's CPU-side mapping, shared by reads and writes: addresses from
/// `0x8000` up are claimed and masked, everything below is not claimed.
pub open spec fn nrom_cpu_map(prg_banks: u8, addr: u16) -> Option<u16> {
    if addr >= 0x8000 {
        Some(addr & nrom_cpu_mask(prg_banks))
    } else {
        None
    }
}

/// NROM's PPU-side read mapping: pattern-table addresses below `0x2000`
/// pass through unchanged.
pub open spec fn nrom_ppu_read_map(addr: u16) -> Option<u16> {
    if addr < 0x2000 {
        Some(addr)
    } else {
        None
    }
}

/// NROM's PPU-side write mapping: claimed only when character memory is
/// RAM-backed, that is when the cartridge declares no character banks.
pub open spec fn nrom_ppu_write_map(chr_banks: u8, addr: u16) -> Option<u16> {
    if addr < 0x2000 && chr_banks == 0 {
        Some(addr)
    } else {
        None
    }
}

impl Mapper for Mapper0 {
    open spec fn cpu_read_map(&self, addr: u16) -> Option<u16> {
        nrom_cpu_map(self.prg_banks, addr)
    }

    open spec fn cpu_write_map(&self, addr: u16) -> Option<u16> {
        nrom_cpu_map(self.prg_banks, addr)
    }

    open spec fn ppu_read_map(&self, addr: u16) -> Option<u16> {
        nrom_ppu_read_map(addr)
    }

    open spec fn ppu_write_map(&self, addr: u16) -> Option<u16> {
        nrom_ppu_write_map(self.chr_banks, addr)
    }

    fn cpu_map_read(&self, addr: u16) -> (r: Option<u16>) {
        if addr >= 0x8000 {
            let mask: u16 = if self.prg_banks > 1 {
                0x7fff
            } else {
                0x3fff
            };
            Some(addr & mask)
        } else {
            None
        }
    }

    fn cpu_map_write(&self, addr: u16) -> (r: Option<u16>) {
        if addr >= 0x8000 {
            let mask: u16 = if self.prg_banks > 1 {
                0x7fff
            } else {
                0x3fff
            };
            Some(addr & mask)
        } else {
            None
        }
    }

    fn ppu_map_read(&self, addr: u16) -> (r: Option<u16>) {
        if addr < 0x2000 {
            Some(addr)
        } else {
            None
        }
    }

    fn ppu_map_write(&self, addr: u16) -> (r: Option<u16>) {
        if addr < 0x2000 && self.chr_banks == 0 {
            Some(addr)
        } else {
            None
        }
    }
}

impl Mapper0 {
    pub fn new(prg_banks: u8, chr_banks: u8) -> (r: Mapper0)
        ensures
            r.prg_banks == prg_banks,
            r.chr_banks == chr_banks,
    {
        Mapper0 { prg_banks, chr_banks }
    }
}

/// With a single program bank, the two 16 KiB halves of the CPU window
/// mirror each other: a claimed address and that address with bit 14
/// flipped map to the same program offset.
pub proof fn lemma_nrom_single_bank_mirrors(addr: u16)
    requires
        addr >= 0x8000,
    ensures
        nrom_cpu_map(1, addr) == nrom_cpu_map(1, addr ^ 0x4000),
{
    assert(addr ^ 0x4000 >= 0x8000 && (addr & 0x3fff) == ((addr ^ 0x4000) & 0x3fff))
        by (bit_vector)
        requires
            addr >= 0x8000,
    ;
}

/// Any offset an NROM mapper hands out on the CPU side stays under its mask,
/// so a program memory at least as long as the mask admits it.
pub proof fn lemma_nrom_cpu_map_bounded(prg_banks: u8, addr: u16)
    ensures
        nrom_cpu_map(prg_banks, addr) matches Some(o) ==> o <= nrom_cpu_mask(prg_banks),
{
    let m = nrom_cpu_mask(prg_banks);
    assert(addr & m <= m) by (bit_vector);
}

} // verus!
