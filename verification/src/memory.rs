//! The bus: arbitrates every CPU address into exactly one of the cartridge,
//! the mirrored internal RAM, or the PPU register window.  The cartridge is
//! tried first, so a mapper may override the built-in ranges.

use vstd::prelude::*;
use crate::cartridge::CartSnap;
use crate::cartridge::Cartridge;
use crate::cartridge::zeroed;
use crate::ppu::PPU;
use crate::ppu::PpuSnap;
use crate::ppu::ppu_reg_read_spec;

verus! {

/// The mathematical content of the bus: RAM plus the two collaborators it
/// owns.
#[verifier::ext_equal]
pub struct MemSnap {
    pub ram: Seq<u8>,
    pub cart: CartSnap,
    pub ppu: PpuSnap,
}

impl MemSnap {
    /// RAM has its fixed 2 KiB size and the cartridge can serve every
    /// CPU-side address its mapper claims.
    pub open spec fn wf(self) -> bool {
        &&& self.ram.len() == 0x800
        &&& self.cart.cpu_ok()
    }
}

/// What a CPU read of the bus returns: the cartridge first; else RAM,
/// mirrored every 2 KiB, below `0x2000`; else the PPU register window,
/// mirrored every 8 bytes, up to `0x3fff`.  `None` reports an unmapped
/// address or an unimplemented PPU register.
pub open spec fn mem_read_spec(m: MemSnap, address: u16) -> Option<u8> {
    match m.cart.cpu_read_spec(address) {
        Some(value) => Some(value),
        None => if address < 0x2000 {
            Some(m.ram[(address & 0x7ff) as int])
        } else if address <= 0x3fff {
            ppu_reg_read_spec((address & 0x7) as u16)
        } else {
            None
        },
    }
}

/// What a CPU write to the bus does, with the same precedence as reads, and
/// whether any collaborator claimed the address.  The PPU window claims its
/// range, so a write there reports `true` even though no register write is
/// implemented yet and the value is dropped; writes to unmapped space are
/// dropped and report `false`.
pub open spec fn mem_write_spec(m: MemSnap, address: u16, data: u8) -> (MemSnap, bool) {
    let (c2, handled) = m.cart.cpu_write_spec(address, data);
    if handled {
        (MemSnap { cart: c2, ..m }, true)
    } else if address < 0x2000 {
        (MemSnap { ram: m.ram.update((address & 0x7ff) as int, data), ..m }, true)
    } else if address <= 0x3fff {
        (m, true)
    } else {
        (m, false)
    }
}

/// A bus write preserves well-formedness - both buffers keep their length -
/// and never touches the PPU's own state.
pub proof fn lemma_mem_write_preserves_wf(m: MemSnap, address: u16, data: u8)
    requires
        m.wf(),
    ensures
        mem_write_spec(m, address, data).0.wf(),
        mem_write_spec(m, address, data).0.ppu == m.ppu,
{
    crate::mapper::lemma_nrom_cpu_map_bounded(m.cart.prg_banks, address);
    assert(address & 0x7ff < 0x800) by (bit_vector);
}

/// Owns the internal RAM, the cartridge and the PPU, and routes CPU and PPU
/// bus traffic among them.
pub struct Memory {
    pub ram: Vec<u8>,
    pub cartridge: Cartridge,
    pub ppu: PPU,
}

impl View for Memory {
    type V = MemSnap;

    open spec fn view(&self) -> MemSnap {
        MemSnap { ram: self.ram@, cart: self.cartridge@, ppu: self.ppu@ }
    }
}

impl Memory {
    pub open spec fn wf(&self) -> bool {
        self@.wf()
    }

    /// Takes ownership of the cartridge and the PPU, with zeroed RAM.
    pub fn new(cartridge: Cartridge, ppu: PPU) -> (r: Memory)
        ensures
            r@.ram == Seq::new(0x800nat, |i: int| 0u8),
            r@.cart == cartridge@,
            r@.ppu == ppu@,
    {
        Memory { ram: zeroed(0x800), cartridge, ppu }
    }

    /// A CPU write: cartridge first, then the RAM mirror, then the PPU
    /// register window.  Returns whether any collaborator claimed the
    /// address; a write into the window is claimed but dropped while the
    /// register is unimplemented, which the PPU's own return value records,
    /// and a write to unmapped space is dropped outright.
    pub fn cpu_write(&mut self, address: u16, data: u8) -> (r: bool)
        requires
            old(self).wf(),
        ensures
            final(self).wf(),
            (final(self)@, r) == mem_write_spec(old(self)@, address, data),
            final(self)@.ppu == old(self)@.ppu,
    {
        proof {
            assert(address & 0x7ff < 0x800 && address & 0x7 < 8) by (bit_vector);
        }
        if self.cartridge.cpu_write(address, data) {
            proof {
                assert(self@ =~= mem_write_spec(old(self)@, address, data).0);
            }
            true
        } else if address < 0x2000 {
            self.ram.set((address & 0x7ff) as usize, data);
            proof {
                assert(self@ =~= mem_write_spec(old(self)@, address, data).0);
            }
            true
        } else if address <= 0x3fff {
            let _ = self.ppu.cpu_write(address & 0x7, data);
            true
        } else {
            false
        }
    }

    /// A CPU read, with the same precedence as `cpu_write`.
    pub fn cpu_read(&self, address: u16) -> (r: Option<u8>)
        requires
            self.wf(),
        ensures
            r == mem_read_spec(self@, address),
    {
        proof {
            assert(address & 0x7ff < 0x800 && address & 0x7 < 8) by (bit_vector);
        }
        if let Some(value) = self.cartridge.cpu_read(address) {
            Some(value)
        } else if address < 0x2000 {
            Some(self.ram[(address & 0x7ff) as usize])
        } else if address <= 0x3fff {
            self.ppu.cpu_read(address & 0x7)
        } else {
            None
        }
    }

    /// A PPU-side read: only the cartridge's character memory answers, and
    /// only below the pattern-table boundary.
    pub fn ppu_read(&self, address: u16) -> (r: Option<u8>)
        requires
            self@.cart.ppu_ok(),
        ensures
            r == (if address < 0x1fff {
                self@.cart.ppu_read_spec(address)
            } else {
                Option::<u8>::None
            }),
    {
        if address < 0x1fff {
            self.cartridge.ppu_read(address)
        } else {
            None
        }
    }

    /// A PPU-side write: only the cartridge's character memory can take it,
    /// and only below the pattern-table boundary.
    pub fn ppu_write(&mut self, address: u16, data: u8) -> (r: bool)
        requires
            old(self)@.cart.ppu_ok(),
        ensures
            final(self)@.cart.ppu_ok(),
            final(self)@.wf() == old(self)@.wf(),
            final(self)@.ram == old(self)@.ram,
            final(self)@.ppu == old(self)@.ppu,
            (final(self)@.cart, r) == (if address < 0x1fff {
                old(self)@.cart.ppu_write_spec(address, data)
            } else {
                (old(self)@.cart, false)
            }),
    {
        if address < 0x1fff {
            self.cartridge.ppu_write(address, data)
        } else {
            false
        }
    }
}

} // verus!
