//! The cartridge: program and character memory parsed from an iNES image,
//! with address mapping delegated to its mapper.

use vstd::prelude::*;
use crate::mapper::Mapper;
use crate::mapper::Mapper0;
use crate::mapper::lemma_nrom_cpu_map_bounded;
use crate::mapper::nrom_cpu_map;
use crate::mapper::nrom_cpu_mask;
use crate::mapper::nrom_ppu_read_map;
use crate::mapper::nrom_ppu_write_map;

verus! {

/// Bytes in an iNES header.
pub const INES_HEADER_LEN: usize = 16;

/// Bytes in one program-memory bank.
pub const PRG_BANK_SIZE: usize = 0x4000;

/// Bytes in one character-memory bank.
pub const CHR_BANK_SIZE: usize = 0x2000;

/// Why an iNES image was rejected at construction time.  These are fatal:
/// nothing can run without the image's data.
#[derive(Debug, Clone, Copy, PartialEq, Eq, Structural)]
pub enum LoadError {
    /// The image is shorter than its header, or than the bank sizes the
    /// header declares.
    Truncated,
    /// The four magic bytes are not those of an iNES image.
    BadMagic,
    /// The flag bytes declare an extended image layout, not plain iNES.
    UnsupportedFileType,
    /// The header names a mapper other than NROM, carried here.
    UnsupportedMapper(u8),
    /// The header declares no program banks, leaving nothing to execute.
    NoPrgBanks,
}

/// The mathematical content of a cartridge: its two byte buffers and the
/// bank counts its mapper was built with.
#[verifier::ext_equal]
pub struct CartSnap {
    pub prg: Seq<u8>,
    pub chr: Seq<u8>,
    pub prg_banks: u8,
    pub chr_banks: u8,
}

impl CartSnap {
    /// Program memory is long enough for every offset the mapper can hand
    /// out on the CPU side.
    pub open spec fn cpu_ok(self) -> bool {
        self.prg.len() > nrom_cpu_mask(self.prg_banks)
    }

    /// Character memory is long enough for every offset the mapper can hand
    /// out on the PPU side.
    pub open spec fn ppu_ok(self) -> bool {
        self.chr.len() >= 0x2000
    }

    /// What a CPU-side read returns: the mapped program byte, or `None` when
    /// the mapper does not claim the address.
    pub open spec fn cpu_read_spec(self, addr: u16) -> Option<u8> {
        match nrom_cpu_map(self.prg_banks, addr) {
            Some(o) => Some(self.prg[o as int]),
            None => None,
        }
    }

    /// What a CPU-side write does: the cartridge afterwards, and whether the
    /// mapper claimed the address.
    pub open spec fn cpu_write_spec(self, addr: u16, value: u8) -> (CartSnap, bool) {
        match nrom_cpu_map(self.prg_banks, addr) {
            Some(o) => (CartSnap { prg: self.prg.update(o as int, value), ..self }, true),
            None => (self, false),
        }
    }

    /// What a PPU-side read returns.
    pub open spec fn ppu_read_spec(self, addr: u16) -> Option<u8> {
        match nrom_ppu_read_map(addr) {
            Some(o) => Some(self.chr[o as int]),
            None => None,
        }
    }

    /// What a PPU-side write does.
    pub open spec fn ppu_write_spec(self, addr: u16, value: u8) -> (CartSnap, bool) {
        match nrom_ppu_write_map(self.chr_banks, addr) {
            Some(o) => (CartSnap { chr: self.chr.update(o as int, value), ..self }, true),
            None => (self, false),
        }
    }
}

/// Owns the program and character memory of one cartridge and the NROM
/// mapper that turns bus addresses into offsets.
pub struct Cartridge {
    pub prg_memory: Vec<u8>,
    pub chr_memory: Vec<u8>,
    pub mapper: Mapper0,
}

impl View for Cartridge {
    type V = CartSnap;

    open spec fn view(&self) -> CartSnap {
        CartSnap {
            prg: self.prg_memory@,
            chr: self.chr_memory@,
            prg_banks: self.mapper.prg_banks,
            chr_banks: self.mapper.chr_banks,
        }
    }
}

/// The magic bytes, bank counts and flags of an iNES header, read straight
/// from the image's first bytes.
pub open spec fn ines_magic_ok(b: Seq<u8>) -> bool {
    b[0] == 0x4e && b[1] == 0x45 && b[2] == 0x53 && b[3] == 0x1a
}

/// The mapper number: the high nibbles of the two mapper bytes combined.
pub open spec fn ines_mapper_id(b: Seq<u8>) -> u8 {
    (((b[7] as u8) >> 4) << 4) | ((b[6] as u8) >> 4)
}

/// Whether the second flag byte declares an extended (non-iNES) layout.
pub open spec fn ines_extended_layout(b: Seq<u8>) -> bool {
    (b[7] as u8) & 0x0c == 0x08
}

/// The character memory a parsed image yields: the declared banks, or one
/// zeroed bank of character RAM when the header declares none.
pub open spec fn parsed_chr(b: Seq<u8>, prg_banks: u8, chr_banks: u8) -> Seq<u8> {
    if chr_banks == 0 {
        Seq::new(CHR_BANK_SIZE as nat, |i: int| 0u8)
    } else {
        b.subrange(
            INES_HEADER_LEN + prg_banks * PRG_BANK_SIZE,
            INES_HEADER_LEN + prg_banks * PRG_BANK_SIZE + chr_banks * CHR_BANK_SIZE,
        )
    }
}

/// What parsing an iNES image yields: the cartridge content, or the error
/// naming the first check that failed.  Checks run in this order: header
/// present, magic bytes, plain-iNES layout, mapper number, at least one
/// program bank, data as long as the declared banks.
pub open spec fn parse_rom_spec(b: Seq<u8>) -> Result<CartSnap, LoadError> {
    if b.len() < INES_HEADER_LEN {
        Err(LoadError::Truncated)
    } else if !ines_magic_ok(b) {
        Err(LoadError::BadMagic)
    } else if ines_extended_layout(b) {
        Err(LoadError::UnsupportedFileType)
    } else if ines_mapper_id(b) != 0 {
        Err(LoadError::UnsupportedMapper(ines_mapper_id(b)))
    } else if b[4] == 0 {
        Err(LoadError::NoPrgBanks)
    } else if b.len() < INES_HEADER_LEN + b[4] * PRG_BANK_SIZE + b[5] * CHR_BANK_SIZE {
        Err(LoadError::Truncated)
    } else {
        Ok(
            CartSnap {
                prg: b.subrange(
                    INES_HEADER_LEN as int,
                    INES_HEADER_LEN + b[4] * PRG_BANK_SIZE,
                ),
                chr: parsed_chr(b, b[4] as u8, b[5] as u8),
                prg_banks: b[4] as u8,
                chr_banks: b[5] as u8,
            },
        )
    }
}

/// A copy of `src[start..start + len]`.
fn copy_range(src: &Vec<u8>, start: usize, len: usize) -> (r: Vec<u8>)
    requires
        start + len <= src@.len(),
    ensures
        r@ == src@.subrange(start as int, start + len),
{
    let n: usize = src.len();
    let mut out: Vec<u8> = Vec::new();
    let mut i: usize = 0;
    while i < len
        invariant
            i <= len,
            start + len <= n,
            n == src@.len(),
            out@ == src@.subrange(start as int, start + i),
        decreases len - i,
    {
        out.push(src[start + i]);
        proof {
            assert(out@ =~= src@.subrange(start as int, start + i + 1));
        }
        i = i + 1;
    }
    out
}

/// A zeroed buffer of the given length.
pub(crate) fn zeroed(len: usize) -> (r: Vec<u8>)
    ensures
        r@ == Seq::new(len as nat, |i: int| 0u8),
{
    let mut out: Vec<u8> = Vec::new();
    let mut i: usize = 0;
    while i < len
        invariant
            i <= len,
            out@ == Seq::new(i as nat, |j: int| 0u8),
        decreases len - i,
    {
        out.push(0);
        proof {
            assert(out@ =~= Seq::new((i + 1) as nat, |j: int| 0u8));
        }
        i = i + 1;
    }
    out
}

impl Cartridge {
    /// Wraps a raw program image with a single-bank NROM mapper and no
    /// character memory, for programs that need no character data.
    pub fn from_rom(rom: Vec<u8>) -> (r: Cartridge)
        ensures
            r@ == (CartSnap { prg: rom@, chr: Seq::empty(), prg_banks: 1, chr_banks: 0 }),
    {
        let r = Cartridge {
            chr_memory: Vec::new(),
            prg_memory: rom,
            mapper: Mapper0::new(1, 0),
        };
        proof {
            assert(r@ =~= CartSnap { prg: r.prg_memory@, chr: Seq::empty(), prg_banks: 1, chr_banks: 0 });
        }
        r
    }

    /// Parses an iNES image: the fixed header, then the declared program
    /// banks, then the declared character banks.  A header that declares no
    /// character banks yields one bank of zeroed character RAM, which the
    /// mapper then accepts writes into.  Succeeds exactly when
    /// `parse_rom_spec` does, and the cartridge then satisfies both bus
    /// well-formedness conditions.
    pub fn from_bytes(bytes: &Vec<u8>) -> (r: Result<Cartridge, LoadError>)
        ensures
            match r {
                Ok(c) => parse_rom_spec(bytes@) == Ok::<CartSnap, LoadError>(c@) && c@.cpu_ok()
                    && c@.ppu_ok(),
                Err(e) => parse_rom_spec(bytes@) == Err::<CartSnap, LoadError>(e),
            },
    {
        if bytes.len() < INES_HEADER_LEN {
            return Err(LoadError::Truncated);
        }
        if !(bytes[0] == 0x4e && bytes[1] == 0x45 && bytes[2] == 0x53 && bytes[3] == 0x1a) {
            return Err(LoadError::BadMagic);
        }
        if bytes[7] & 0x0c == 0x08 {
            return Err(LoadError::UnsupportedFileType);
        }
        let mapper_id: u8 = ((bytes[7] >> 4) << 4) | (bytes[6] >> 4);
        if mapper_id != 0 {
            return Err(LoadError::UnsupportedMapper(mapper_id));
        }
        let prg_banks: u8 = bytes[4];
        let chr_banks: u8 = bytes[5];
        if prg_banks == 0 {
            return Err(LoadError::NoPrgBanks);
        }
        let prg_len: usize = prg_banks as usize * PRG_BANK_SIZE;
        let chr_len: usize = chr_banks as usize * CHR_BANK_SIZE;
        if bytes.len() < INES_HEADER_LEN + prg_len + chr_len {
            return Err(LoadError::Truncated);
        }
        let prg_memory = copy_range(bytes, INES_HEADER_LEN, prg_len);
        let chr_memory = if chr_banks == 0 {
            zeroed(CHR_BANK_SIZE)
        } else {
            copy_range(bytes, INES_HEADER_LEN + prg_len, chr_len)
        };
        let c = Cartridge { prg_memory, chr_memory, mapper: Mapper0::new(prg_banks, chr_banks) };
        proof {
            assert(parse_rom_spec(bytes@) matches Ok(s) && s =~= c@);
        }
        Ok(c)
    }

    /// Reads the program byte the mapper maps the address to, or `None`
    /// when the mapper does not claim the address.
    pub fn cpu_read(&self, addr: u16) -> (r: Option<u8>)
        requires
            self@.cpu_ok(),
        ensures
            r == self@.cpu_read_spec(addr),
    {
        if let Some(mapped_address) = self.mapper.cpu_map_read(addr) {
            proof {
                lemma_nrom_cpu_map_bounded(self.mapper.prg_banks, addr);
            }
            Some(self.prg_memory[mapped_address as usize])
        } else {
            None
        }
    }

    /// Writes through the mapper into program memory; `true` exactly when
    /// the mapper claimed the address.
    pub fn cpu_write(&mut self, addr: u16, value: u8) -> (r: bool)
        requires
            old(self)@.cpu_ok(),
        ensures
            (final(self)@, r) == old(self)@.cpu_write_spec(addr, value),
            final(self)@.cpu_ok() == old(self)@.cpu_ok(),
            final(self)@.ppu_ok() == old(self)@.ppu_ok(),
    {
        if let Some(mapped_address) = self.mapper.cpu_map_write(addr) {
            proof {
                lemma_nrom_cpu_map_bounded(self.mapper.prg_banks, addr);
            }
            self.prg_memory.set(mapped_address as usize, value);
            proof {
                assert(self@ =~= old(self)@.cpu_write_spec(addr, value).0);
            }
            true
        } else {
            false
        }
    }

    /// Reads the character byte the mapper maps the address to, or `None`
    /// when the mapper does not claim the address.
    pub fn ppu_read(&self, addr: u16) -> (r: Option<u8>)
        requires
            self@.ppu_ok(),
        ensures
            r == self@.ppu_read_spec(addr),
    {
        if let Some(mapped_address) = self.mapper.ppu_map_read(addr) {
            Some(self.chr_memory[mapped_address as usize])
        } else {
            None
        }
    }

    /// Writes through the mapper into character memory; `true` exactly when
    /// the mapper claimed the address, which NROM only does for RAM-backed
    /// character memory.
    pub fn ppu_write(&mut self, addr: u16, value: u8) -> (r: bool)
        requires
            old(self)@.ppu_ok(),
        ensures
            (final(self)@, r) == old(self)@.ppu_write_spec(addr, value),
            final(self)@.cpu_ok() == old(self)@.cpu_ok(),
            final(self)@.ppu_ok() == old(self)@.ppu_ok(),
    {
        if let Some(mapped_address) = self.mapper.ppu_map_write(addr) {
            self.chr_memory.set(mapped_address as usize, value);
            proof {
                assert(self@ =~= old(self)@.ppu_write_spec(addr, value).0);
            }
            true
        } else {
            false
        }
    }
}

} // verus!
