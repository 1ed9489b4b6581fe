//! The picture processing unit: a clocked two-counter state machine with its
//! own palette and pattern memory, a CPU-facing register window, and pure
//! pattern-table decoding queries for a presentation layer.

use vstd::prelude::*;
use crate::cartridge::CartSnap;
use crate::cartridge::Cartridge;
use crate::cartridge::zeroed;

verus! {

/// One RGB color.
#[derive(Debug, Clone, Copy, PartialEq, Eq, Structural)]
pub struct Color {
    pub r: u8,
    pub g: u8,
    pub b: u8,
}

impl Color {
    pub fn new(r: u8, g: u8, b: u8) -> (c: Color)
        ensures
            c == (Color { r, g, b }),
    {
        Color { r, g, b }
    }

    /// A gray level: the same value on all three channels.
    pub fn from_scalar(s: u8) -> (c: Color)
        ensures
            c == (Color { r: s, g: s, b: s }),
    {
        Color { r: s, g: s, b: s }
    }
}

/// The mathematical content of the PPU: its two memories, the raster
/// counters and the frame-complete latch.
#[verifier::ext_equal]
pub struct PpuSnap {
    pub palette: Seq<u8>,
    pub chr: Seq<u8>,
    pub frame_complete: bool,
    pub scanline: i16,
    pub cycle: u16,
}

impl PpuSnap {
    /// The memories have their fixed sizes and the raster counters sit in
    /// their ranges: cycle 0..=340, scanline -1..=260.
    pub open spec fn wf(self) -> bool {
        &&& self.palette.len() == 32
        &&& self.chr.len() == 0x2000
        &&& self.cycle <= 340
        &&& -1 <= self.scanline <= 260
    }
}

/// One PPU tick: the cycle counter ripples into the scanline counter, and a
/// full sweep of all 262 scanlines latches `frame_complete`.
pub open spec fn ppu_run_spec(p: PpuSnap) -> PpuSnap {
    let c = (p.cycle + 1) as u16;
    if c >= 341 {
        let s = (p.scanline + 1) as i16;
        if s >= 261 {
            PpuSnap { cycle: 0, scanline: -1i16, frame_complete: true, ..p }
        } else {
            PpuSnap { cycle: 0, scanline: s, ..p }
        }
    } else {
        PpuSnap { cycle: c, ..p }
    }
}

/// The PPU after `n` ticks.
pub open spec fn run_n(p: PpuSnap, n: nat) -> PpuSnap
    decreases n,
{
    if n == 0 {
        p
    } else {
        ppu_run_spec(run_n(p, (n - 1) as nat))
    }
}

/// How far into the 262-scanline sweep the raster counters stand, in ticks:
/// each tick advances this by one until the sweep ends.
pub open spec fn raster_progress(p: PpuSnap) -> int {
    (p.scanline + 1) * 341 + p.cycle
}

/// Frame law: from any well-formed mid-frame state, the frame-complete
/// latch is set by exactly the tick that finishes the sweep - the one that
/// leaves cycle 340 of scanline 260, after `262 * 341 - raster_progress`
/// ticks - and every earlier tick leaves it clear.  The memories are not
/// touched by ticking.
pub proof fn lemma_frame_completes_once(p: PpuSnap, k: nat)
    requires
        p.wf(),
        !p.frame_complete,
        k <= 262 * 341 - raster_progress(p),
    ensures
        k < 262 * 341 - raster_progress(p) ==> ({
            let q = run_n(p, k);
            &&& !q.frame_complete
            &&& q.wf()
            &&& raster_progress(q) == raster_progress(p) + k
            &&& q.palette == p.palette
            &&& q.chr == p.chr
        }),
        k == 262 * 341 - raster_progress(p) ==> ({
            let q = run_n(p, k);
            &&& q.frame_complete
            &&& q.cycle == 0
            &&& q.scanline == -1
            &&& q.palette == p.palette
            &&& q.chr == p.chr
        }),
    decreases k,
{
    if k > 0 {
        lemma_frame_completes_once(p, (k - 1) as nat);
    }
}

/// What a CPU read of a PPU register returns: only the status register is
/// implemented, reporting the vblank bit; every other register yields `None`
/// to flag the access as not implemented rather than feigning data.
pub open spec fn ppu_reg_read_spec(reg: u16) -> Option<u8> {
    if reg == 2 {
        Some(0x80)
    } else {
        None
    }
}

/// A read in PPU address space: the cartridge is consulted first, then the
/// pattern memory below `0x2000`, then the palette memory near the top of
/// the mirrored 14-bit space; anything else reads as zero.
pub open spec fn ppu_space_read_spec(p: PpuSnap, c: CartSnap, address: u16) -> u8 {
    let a = address & 0x3fff;
    match c.ppu_read_spec(a) {
        Some(data) => data,
        None => if a < 0x2000 {
            p.chr[(a & 0x1fff) as int]
        } else if 0x30ff < a && a < 0x4000 {
            p.palette[(a & 0xf) as int]
        } else {
            0
        },
    }
}

/// A write in PPU address space, with the same precedence as reads; writes
/// outside the handled ranges are dropped.
pub open spec fn ppu_space_write_spec(p: PpuSnap, c: CartSnap, address: u16, data: u8) -> (
    PpuSnap,
    CartSnap,
) {
    let a = address & 0x3fff;
    let (c2, handled) = c.ppu_write_spec(a, data);
    if handled {
        (p, c2)
    } else if a < 0x2000 {
        (PpuSnap { chr: p.chr.update((a & 0x1fff) as int, data), ..p }, c)
    } else if 0x30ff < a && a < 0x4000 {
        (PpuSnap { palette: p.palette.update((a & 0xf) as int, data), ..p }, c)
    } else {
        (p, c)
    }
}

/// The color a palette entry selects for a 2-bit pixel: the palette RAM
/// entry at `0x3f00` plus the palette's offset, masked into the fixed
/// background color table.
pub open spec fn color_from_palette_spec(p: PpuSnap, c: CartSnap, palette: u8, pixel: u8) -> Color {
    spec_background_color(
        ppu_space_read_spec(p, c, (0x3f00 + ((palette as u16) << 2) + pixel as u16) as u16),
    )
}

/// The two pattern-plane bytes of a tile row combine, bit by bit from the
/// most significant column down, into per-pixel values; the value at output
/// column x uses bit 7 - x % 8 of each plane.
pub open spec fn pattern_pixel_value(p: PpuSnap, c: CartSnap, i: u8, y: int, x: int) -> u8 {
    let base = (i as u16 as int * 0x1000 + (y / 8) * 256 + (x / 8) * 16 + (y % 8)) as u16;
    let lsb = ppu_space_read_spec(p, c, base);
    let msb = ppu_space_read_spec(p, c, (base + 8) as u16);
    let shift = (7 - x % 8) as u8;
    (((lsb >> shift) & 1) + ((msb >> shift) & 1)) as u8
}

/// The color of output pixel (y, x) of a decoded 128 by 128 pattern table.
pub open spec fn pattern_pixel_color(
    p: PpuSnap,
    c: CartSnap,
    i: u8,
    palette: u8,
    y: int,
    x: int,
) -> Color {
    color_from_palette_spec(p, c, palette, pattern_pixel_value(p, c, i, y, x))
}

/// The PPU: palette memory, two flattened 4 KiB pattern banks, the raster
/// counters and the frame-complete latch.  It holds no cartridge handle;
/// operations that reach character memory borrow the cartridge for the call.
pub struct PPU {
    pub palette_table: Vec<u8>,
    pub chr_table: Vec<u8>,
    pub frame_complete: bool,
    pub scanline: i16,
    pub cycle: u16,
}

impl View for PPU {
    type V = PpuSnap;

    open spec fn view(&self) -> PpuSnap {
        PpuSnap {
            palette: self.palette_table@,
            chr: self.chr_table@,
            frame_complete: self.frame_complete,
            scanline: self.scanline,
            cycle: self.cycle,
        }
    }
}

impl PPU {
    /// A powered-on PPU: zeroed memories, the raster counters at the start
    /// of the pre-render scanline, frame not complete.  From here a full
    /// sweep of all 262 scanlines - 262 times 341 ticks - ends in exactly
    /// the tick that latches `frame_complete`.
    pub fn new() -> (r: PPU)
        ensures
            r@.wf(),
            r@.palette == Seq::new(32nat, |i: int| 0u8),
            r@.chr == Seq::new(0x2000nat, |i: int| 0u8),
            r@.frame_complete == false,
            r@.scanline == -1,
            r@.cycle == 0,
    {
        PPU {
            palette_table: zeroed(32),
            chr_table: zeroed(0x2000),
            frame_complete: false,
            scanline: -1,
            cycle: 0,
        }
    }

    /// One clock tick of the raster counters.  The frame-complete latch is
    /// set exactly by the tick that leaves cycle 340 of scanline 260, and is
    /// never cleared here: the consumer observes and resets it.
    pub fn run(&mut self)
        requires
            old(self)@.wf(),
        ensures
            final(self)@.wf(),
            final(self)@ == ppu_run_spec(old(self)@),
            final(self)@.frame_complete == (old(self)@.frame_complete || (old(self)@.cycle == 340
                && old(self)@.scanline == 260)),
    {
        self.cycle = self.cycle + 1;
        if self.cycle >= 341 {
            self.cycle = 0;
            self.scanline = self.scanline + 1;
            if self.scanline >= 261 {
                self.scanline = -1;
                self.frame_complete = true;
            }
        }
    }

    /// A CPU read of a PPU register, after the bus has masked the address to
    /// the 8-register window.  `None` marks a register this design has not
    /// implemented; the bus reports such a read as unhandled instead of
    /// inventing a value.
    pub fn cpu_read(&self, address: u16) -> (r: Option<u8>)
        requires
            address < 8,
        ensures
            r == ppu_reg_read_spec(address),
    {
        if address == 2 {
            Some(0x80)
        } else {
            None
        }
    }

    /// A CPU write of a PPU register.  No register write is implemented yet;
    /// the state is left untouched and `false` reports the access as
    /// unhandled, so the bus can surface the diagnostic.
    pub fn cpu_write(&mut self, address: u16, value: u8) -> (r: bool)
        requires
            address < 8,
        ensures
            *final(self) == *old(self),
            r == false,
    {
        let _ = address;
        let _ = value;
        false
    }

    /// Reads PPU address space through the cartridge, pattern memory and
    /// palette memory, in that order of precedence.
    pub fn ppu_read(&self, cart: &Cartridge, address: u16) -> (r: u8)
        requires
            self@.wf(),
            cart@.ppu_ok(),
        ensures
            r == ppu_space_read_spec(self@, cart@, address),
    {
        let a = address & 0x3fff;
        proof {
            assert(a & 0x1fff < 0x2000 && a & 0xf < 0x10) by (bit_vector);
        }
        if let Some(data) = cart.ppu_read(a) {
            data
        } else if a < 0x2000 {
            self.chr_table[(a & 0x1fff) as usize]
        } else if a > 0x30ff && a < 0x4000 {
            self.palette_table[(a & 0xf) as usize]
        } else {
            0
        }
    }

    /// Writes PPU address space with the same precedence as `ppu_read`.
    pub fn ppu_write(&mut self, cart: &mut Cartridge, address: u16, data: u8)
        requires
            old(self)@.wf(),
            old(cart)@.ppu_ok(),
        ensures
            final(self)@.wf(),
            final(cart)@.ppu_ok() == old(cart)@.ppu_ok(),
            final(cart)@.cpu_ok() == old(cart)@.cpu_ok(),
            (final(self)@, final(cart)@) == ppu_space_write_spec(old(self)@, old(cart)@, address, data),
    {
        let a = address & 0x3fff;
        proof {
            assert(a & 0x1fff < 0x2000 && a & 0xf < 0x10) by (bit_vector);
        }
        let interested = cart.ppu_write(a, data);
        if interested {
            return ;
        }
        if a < 0x2000 {
            self.chr_table.set((a & 0x1fff) as usize, data);
        } else if a > 0x30ff && a < 0x4000 {
            self.palette_table.set((a & 0xf) as usize, data);
        }
    }

    /// The color a palette entry selects for a 2-bit pixel value.
    pub fn get_color_from_palette_ram(&self, cart: &Cartridge, palette: u8, pixel: u8) -> (r:
        Color)
        requires
            self@.wf(),
            cart@.ppu_ok(),
        ensures
            r == color_from_palette_spec(self@, cart@, palette, pixel),
    {
        proof {
            assert(((palette as u16) << 2) <= 0x3fc) by (bit_vector);
        }
        let address: u16 = 0x3f00 + ((palette as u16) << 2) + pixel as u16;
        background_color(self.ppu_read(cart, address))
    }

    /// Decodes one 128 by 128 pattern table: 16 by 16 tiles of 8 by 8
    /// pixels, each pixel the sum of its two plane bits pushed through the
    /// palette.  A pure query: neither the PPU nor the cartridge changes.
    pub fn get_pattern_tables(&self, cart: &Cartridge, i: u8, palette: u8) -> (r: Vec<Vec<Color>>)
        requires
            self@.wf(),
            cart@.ppu_ok(),
            i <= 1,
        ensures
            r@.len() == 128,
            forall|y: int| 0 <= y < 128 ==> #[trigger] r@[y]@.len() == 128,
            forall|y: int, x: int|
                0 <= y < 128 && 0 <= x < 128 ==> #[trigger] r@[y]@[x] == pattern_pixel_color(
                    self@,
                    cart@,
                    i,
                    palette,
                    y,
                    x,
                ),
    {
        let mut result: Vec<Vec<Color>> = Vec::new();
        let mut y: usize = 0;
        while y < 128
            invariant
                self@.wf(),
                cart@.ppu_ok(),
                i <= 1,
                y <= 128,
                result@.len() == y,
                forall|yy: int| 0 <= yy < y ==> #[trigger] result@[yy]@.len() == 128,
                forall|yy: int, x: int|
                    0 <= yy < y && 0 <= x < 128 ==> #[trigger] result@[yy]@[x]
                        == pattern_pixel_color(self@, cart@, i, palette, yy, x),
            decreases 128 - y,
        {
            let mut row: Vec<Color> = Vec::new();
            let mut x: usize = 0;
            while x < 128
                invariant
                    self@.wf(),
                    cart@.ppu_ok(),
                    i <= 1,
                    y < 128,
                    x <= 128,
                    row@.len() == x,
                    forall|xx: int|
                        0 <= xx < x ==> #[trigger] row@[xx] == pattern_pixel_color(
                            self@,
                            cart@,
                            i,
                            palette,
                            y as int,
                            xx,
                        ),
                decreases 128 - x,
            {
                let base: u16 = (i as u16) * 0x1000 + ((y as u16) / 8) * 256 + ((x as u16) / 8)
                    * 16 + (y as u16) % 8;
                let lsb = self.ppu_read(cart, base);
                let msb = self.ppu_read(cart, base + 8);
                let shift: u8 = 7 - (x as u8) % 8;
                proof {
                    assert((lsb >> shift) & 1 <= 1 && (msb >> shift) & 1 <= 1) by (bit_vector);
                }
                let pixel: u8 = ((lsb >> shift) & 1) + ((msb >> shift) & 1);
                row.push(self.get_color_from_palette_ram(cart, palette, pixel));
                x = x + 1;
            }
            result.push(row);
            y = y + 1;
        }
        result
    }
}

/// The fixed 64-entry background color table of the PPU, by masked
/// palette index.
pub open spec fn spec_background_color(index: u8) -> Color {
    match index & 0x3f {
        0 => Color { r: 84, g: 84, b: 84 },
        1 => Color { r: 0, g: 30, b: 116 },
        2 => Color { r: 8, g: 16, b: 144 },
        3 => Color { r: 48, g: 0, b: 136 },
        4 => Color { r: 68, g: 0, b: 100 },
        5 => Color { r: 92, g: 0, b: 48 },
        6 => Color { r: 84, g: 4, b: 0 },
        7 => Color { r: 60, g: 24, b: 0 },
        8 => Color { r: 32, g: 42, b: 0 },
        9 => Color { r: 8, g: 58, b: 0 },
        10 => Color { r: 0, g: 64, b: 0 },
        11 => Color { r: 0, g: 60, b: 0 },
        12 => Color { r: 0, g: 50, b: 60 },
        13 => Color { r: 0, g: 0, b: 0 },
        14 => Color { r: 0, g: 0, b: 0 },
        15 => Color { r: 0, g: 0, b: 0 },
        16 => Color { r: 152, g: 150, b: 152 },
        17 => Color { r: 8, g: 76, b: 196 },
        18 => Color { r: 48, g: 50, b: 236 },
        19 => Color { r: 92, g: 30, b: 228 },
        20 => Color { r: 136, g: 20, b: 176 },
        21 => Color { r: 160, g: 20, b: 100 },
        22 => Color { r: 152, g: 34, b: 32 },
        23 => Color { r: 120, g: 60, b: 0 },
        24 => Color { r: 84, g: 90, b: 0 },
        25 => Color { r: 40, g: 114, b: 0 },
        26 => Color { r: 8, g: 124, b: 0 },
        27 => Color { r: 0, g: 118, b: 40 },
        28 => Color { r: 0, g: 102, b: 120 },
        29 => Color { r: 0, g: 0, b: 0 },
        30 => Color { r: 0, g: 0, b: 0 },
        31 => Color { r: 0, g: 0, b: 0 },
        32 => Color { r: 236, g: 238, b: 236 },
        33 => Color { r: 76, g: 154, b: 236 },
        34 => Color { r: 120, g: 124, b: 236 },
        35 => Color { r: 176, g: 98, b: 236 },
        36 => Color { r: 228, g: 84, b: 236 },
        37 => Color { r: 236, g: 88, b: 180 },
        38 => Color { r: 236, g: 106, b: 100 },
        39 => Color { r: 212, g: 136, b: 32 },
        40 => Color { r: 160, g: 170, b: 0 },
        41 => Color { r: 116, g: 196, b: 0 },
        42 => Color { r: 76, g: 208, b: 32 },
        43 => Color { r: 56, g: 204, b: 108 },
        44 => Color { r: 56, g: 180, b: 204 },
        45 => Color { r: 60, g: 60, b: 60 },
        46 => Color { r: 0, g: 0, b: 0 },
        47 => Color { r: 0, g: 0, b: 0 },
        48 => Color { r: 236, g: 238, b: 236 },
        49 => Color { r: 168, g: 204, b: 236 },
        50 => Color { r: 188, g: 188, b: 236 },
        51 => Color { r: 212, g: 178, b: 236 },
        52 => Color { r: 236, g: 174, b: 236 },
        53 => Color { r: 236, g: 174, b: 212 },
        54 => Color { r: 236, g: 180, b: 176 },
        55 => Color { r: 228, g: 196, b: 144 },
        56 => Color { r: 204, g: 210, b: 120 },
        57 => Color { r: 180, g: 222, b: 120 },
        58 => Color { r: 168, g: 226, b: 144 },
        59 => Color { r: 152, g: 226, b: 180 },
        60 => Color { r: 160, g: 214, b: 228 },
        61 => Color { r: 160, g: 162, b: 160 },
        62 => Color { r: 0, g: 0, b: 0 },
        _ => Color { r: 0, g: 0, b: 0 },
    }
}

/// Looks up the fixed background color table; the index is masked to
/// its six meaningful bits.
pub fn background_color(index: u8) -> (r: Color)
    ensures
        r == spec_background_color(index),
{
    match index & 0x3f {
        0 => Color { r: 84, g: 84, b: 84 },
        1 => Color { r: 0, g: 30, b: 116 },
        2 => Color { r: 8, g: 16, b: 144 },
        3 => Color { r: 48, g: 0, b: 136 },
        4 => Color { r: 68, g: 0, b: 100 },
        5 => Color { r: 92, g: 0, b: 48 },
        6 => Color { r: 84, g: 4, b: 0 },
        7 => Color { r: 60, g: 24, b: 0 },
        8 => Color { r: 32, g: 42, b: 0 },
        9 => Color { r: 8, g: 58, b: 0 },
        10 => Color { r: 0, g: 64, b: 0 },
        11 => Color { r: 0, g: 60, b: 0 },
        12 => Color { r: 0, g: 50, b: 60 },
        13 => Color { r: 0, g: 0, b: 0 },
        14 => Color { r: 0, g: 0, b: 0 },
        15 => Color { r: 0, g: 0, b: 0 },
        16 => Color { r: 152, g: 150, b: 152 },
        17 => Color { r: 8, g: 76, b: 196 },
        18 => Color { r: 48, g: 50, b: 236 },
        19 => Color { r: 92, g: 30, b: 228 },
        20 => Color { r: 136, g: 20, b: 176 },
        21 => Color { r: 160, g: 20, b: 100 },
        22 => Color { r: 152, g: 34, b: 32 },
        23 => Color { r: 120, g: 60, b: 0 },
        24 => Color { r: 84, g: 90, b: 0 },
        25 => Color { r: 40, g: 114, b: 0 },
        26 => Color { r: 8, g: 124, b: 0 },
        27 => Color { r: 0, g: 118, b: 40 },
        28 => Color { r: 0, g: 102, b: 120 },
        29 => Color { r: 0, g: 0, b: 0 },
        30 => Color { r: 0, g: 0, b: 0 },
        31 => Color { r: 0, g: 0, b: 0 },
        32 => Color { r: 236, g: 238, b: 236 },
        33 => Color { r: 76, g: 154, b: 236 },
        34 => Color { r: 120, g: 124, b: 236 },
        35 => Color { r: 176, g: 98, b: 236 },
        36 => Color { r: 228, g: 84, b: 236 },
        37 => Color { r: 236, g: 88, b: 180 },
        38 => Color { r: 236, g: 106, b: 100 },
        39 => Color { r: 212, g: 136, b: 32 },
        40 => Color { r: 160, g: 170, b: 0 },
        41 => Color { r: 116, g: 196, b: 0 },
        42 => Color { r: 76, g: 208, b: 32 },
        43 => Color { r: 56, g: 204, b: 108 },
        44 => Color { r: 56, g: 180, b: 204 },
        45 => Color { r: 60, g: 60, b: 60 },
        46 => Color { r: 0, g: 0, b: 0 },
        47 => Color { r: 0, g: 0, b: 0 },
        48 => Color { r: 236, g: 238, b: 236 },
        49 => Color { r: 168, g: 204, b: 236 },
        50 => Color { r: 188, g: 188, b: 236 },
        51 => Color { r: 212, g: 178, b: 236 },
        52 => Color { r: 236, g: 174, b: 236 },
        53 => Color { r: 236, g: 174, b: 212 },
        54 => Color { r: 236, g: 180, b: 176 },
        55 => Color { r: 228, g: 196, b: 144 },
        56 => Color { r: 204, g: 210, b: 120 },
        57 => Color { r: 180, g: 222, b: 120 },
        58 => Color { r: 168, g: 226, b: 144 },
        59 => Color { r: 152, g: 226, b: 180 },
        60 => Color { r: 160, g: 214, b: 228 },
        61 => Color { r: 160, g: 162, b: 160 },
        62 => Color { r: 0, g: 0, b: 0 },
        _ => Color { r: 0, g: 0, b: 0 },
    }
}
} // verus!
