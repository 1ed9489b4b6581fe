//! The CPU: the fetch-decode-execute engine over its registers and the bus
//! it owns.  Every instruction's effect is stated against the specification
//! machine of `isa`, and `exec` is proved to perform exactly one `isa::step`.

use vstd::prelude::*;
use crate::cartridge::CartSnap;
use crate::cartridge::Cartridge;
use crate::isa;
use crate::isa::Machine;
use crate::mapper::Mapper0;
use crate::memory::Memory;
use crate::ppu::PPU;
use crate::registers::Registers;
use crate::registers::initial_registers;

verus! {

/// The rule for computing an instruction's operand address from the bytes
/// after the opcode and the index registers.
#[derive(Debug)]
pub enum AddressingMode {
    Immediate,
    ZeroPage,
    ZeroPageX,
    ZeroPageY,
    Absolute,
    AbsoluteX,
    AbsoluteY,
    Indirect,
    IndirectX,
    IndirectY,
    NoneAddressing,
}

/// A program image padded with zero bytes up to the given size; an image
/// already that long is kept as it is.
pub open spec fn padded_prg(rom: Seq<u8>, size: nat) -> Seq<u8> {
    if rom.len() >= size {
        rom
    } else {
        rom + Seq::new((size - rom.len()) as nat, |i: int| 0u8)
    }
}

/// The fetch-decode-execute engine: the register file, the bus it owns, and
/// the cycle budget left for the instruction in flight.
pub struct CPU {
    pub registers: Registers,
    pub memory: Memory,
    pub remaining_cycles: u32,
}

impl CPU {
    /// The specification machine this CPU embodies.
    pub open spec fn snap(self) -> Machine {
        Machine { regs: self.registers, mem: self.memory@, cycles: self.remaining_cycles }
    }

    /// The bus is well formed: RAM has its size and the cartridge covers
    /// what its mapper claims.
    pub open spec fn wf(self) -> bool {
        self.memory@.wf()
    }

    /// A CPU over an already-built bus, with power-on registers.
    pub fn new(memory: Memory) -> (r: CPU)
        ensures
            r.registers == initial_registers(),
            r.memory == memory,
            r.remaining_cycles == 0,
    {
        CPU { registers: Registers::new(), memory, remaining_cycles: 0 }
    }

    /// A complete machine around a bare program image: the image, padded to
    /// one 16 KiB bank, becomes a single-bank cartridge mirrored across the
    /// CPU window, with a fresh PPU and zeroed RAM.
    pub fn from_rom(rom: &[u8]) -> (r: CPU)
        ensures
            r.wf(),
            r.registers == initial_registers(),
            r.remaining_cycles == 0,
            r.memory@.ram == Seq::new(0x800nat, |i: int| 0u8),
            r.memory@.cart == (CartSnap {
                prg: padded_prg(rom@, 0x4000),
                chr: Seq::empty(),
                prg_banks: 1,
                chr_banks: 0,
            }),
    {
        let mut prg: Vec<u8> = Vec::new();
        let n: usize = rom.len();
        let mut i: usize = 0;
        while i < n
            invariant
                i <= n,
                n == rom@.len(),
                prg@ == rom@.subrange(0, i as int),
            decreases n - i,
        {
            prg.push(rom[i]);
            proof {
                assert(prg@ =~= rom@.subrange(0, i + 1));
            }
            i = i + 1;
        }
        proof {
            assert(prg@ =~= rom@);
        }
        while prg.len() < 0x4000
            invariant
                prg@.len() >= rom@.len(),
                prg@.len() <= 0x4000 || prg@.len() == rom@.len(),
                prg@ == padded_prg(rom@, prg@.len()),
            decreases 0x4000 - prg@.len(),
        {
            prg.push(0);
            proof {
                assert(prg@ =~= padded_prg(rom@, prg@.len()));
            }
        }
        proof {
            assert(prg@ =~= padded_prg(rom@, 0x4000));
        }
        let cartridge = Cartridge {
            prg_memory: prg,
            chr_memory: Vec::new(),
            mapper: Mapper0::new(1, 0),
        };
        let r = CPU {
            registers: Registers::new(),
            memory: Memory::new(cartridge, PPU::new()),
            remaining_cycles: 0,
        };
        proof {
            assert(r.memory@.cart =~= CartSnap {
                prg: padded_prg(rom@, 0x4000),
                chr: Seq::empty(),
                prg_banks: 1,
                chr_banks: 0,
            });
        }
        r
    }

    /// A complete machine around a 32 KiB program window: the image, padded
    /// with a zero byte to two full banks, fills the CPU window without
    /// mirroring.
    pub fn with_rom(rom: [u8; 0x7fff]) -> (r: CPU)
        ensures
            r.wf(),
            r.registers == initial_registers(),
            r.remaining_cycles == 0,
            r.memory@.ram == Seq::new(0x800nat, |i: int| 0u8),
            r.memory@.cart == (CartSnap {
                prg: padded_prg(rom@, 0x8000),
                chr: Seq::empty(),
                prg_banks: 2,
                chr_banks: 0,
            }),
    {
        let mut prg: Vec<u8> = Vec::new();
        let mut i: usize = 0;
        while i < 0x7fff
            invariant
                i <= 0x7fff,
                prg@ == rom@.subrange(0, i as int),
            decreases 0x7fff - i,
        {
            prg.push(rom[i]);
            proof {
                assert(prg@ =~= rom@.subrange(0, i + 1));
            }
            i = i + 1;
        }
        prg.push(0);
        proof {
            assert(rom@.subrange(0, 0x7fff) =~= rom@);
            assert(prg@ =~= padded_prg(rom@, 0x8000));
        }
        let cartridge = Cartridge {
            prg_memory: prg,
            chr_memory: Vec::new(),
            mapper: Mapper0::new(2, 0),
        };
        let r = CPU {
            registers: Registers::new(),
            memory: Memory::new(cartridge, PPU::new()),
            remaining_cycles: 0,
        };
        proof {
            assert(r.memory@.cart =~= CartSnap {
                prg: padded_prg(rom@, 0x8000),
                chr: Seq::empty(),
                prg_banks: 2,
                chr_banks: 0,
            });
        }
        r
    }

    /// Seeds the program counter from the 16-bit little-endian reset vector
    /// at `0xfffc`/`0xfffd`.  This is the only sanctioned way to start
    /// execution; call it once before the first `exec`.
    pub fn init(&mut self)
        requires
            old(self).wf(),
        ensures
            final(self).wf(),
            final(self).registers == (Registers {
                program_counter: isa::read16(old(self).memory@, 0xfffc),
                ..old(self).registers
            }),
            final(self).memory == old(self).memory,
            final(self).remaining_cycles == old(self).remaining_cycles,
    {
        let low_byte = self.read(0xfffc);
        let high_byte = self.read(0xfffd);
        self.registers.program_counter = low_byte as u16 | (high_byte as u16) << 8;
    }

    /// One external clock tick: spends a remaining cycle if the last
    /// instruction still owes some, else executes the next instruction.
    pub fn clock(&mut self)
        requires
            old(self).wf(),
        ensures
            final(self).wf(),
            final(self).memory@.ppu == old(self).memory@.ppu,
            final(self).snap() == isa::clock_spec(old(self).snap()),
    {
        if self.remaining_cycles > 0 {
            self.remaining_cycles = self.remaining_cycles - 1;
        } else {
            self.exec();
        }
    }

    /// A bus read as the CPU sees it: an unmapped or unimplemented address
    /// reads as zero.
    pub fn read(&self, address: u16) -> (r: u8)
        requires
            self.wf(),
        ensures
            r == isa::read8(self.memory@, address),
    {
        match self.memory.cpu_read(address) {
            Some(value) => value,
            None => 0,
        }
    }

    /// A little-endian 16-bit read of two consecutive addresses.
    pub fn read_u16(&self, addr: u16) -> (r: u16)
        requires
            self.wf(),
        ensures
            r == isa::read16(self.memory@, addr),
    {
        self.read(addr) as u16 | (self.read(addr.wrapping_add(1)) as u16) << 8
    }

    /// A bus write; whether any collaborator claimed the address is left to
    /// the bus, and an unclaimed write is dropped.
    pub fn write(&mut self, address: u16, data: u8)
        requires
            old(self).wf(),
        ensures
            final(self).wf(),
            final(self).registers == old(self).registers,
            final(self).remaining_cycles == old(self).remaining_cycles,
            final(self).memory@ == crate::memory::mem_write_spec(old(self).memory@, address, data).0,
    {
        let _ = self.memory.cpu_write(address, data);
    }

    /// Pushes a value onto the stack page.
    pub fn push(&mut self, value: u8)
        requires
            old(self).wf(),
        ensures
            final(self).wf(),
            final(self).snap() == isa::push_spec(old(self).snap(), value),
    {
        self.registers.stack_pointer = self.registers.stack_pointer.wrapping_sub(1);
        self.write(self.registers.stack_pointer as u16 + 0x100, value);
    }

    /// Pops the value on top of the stack; the vacated slot is zeroed, a
    /// deliberate simplification this machine's round-trip behavior relies
    /// on.
    pub fn pop(&mut self) -> (r: u8)
        requires
            old(self).wf(),
        ensures
            final(self).wf(),
            r == isa::pop_value(old(self).snap()),
            final(self).snap() == isa::pop_spec(old(self).snap()),
    {
        let old_sp = self.registers.stack_pointer;
        self.registers.stack_pointer = old_sp.wrapping_add(1);
        let value = self.read(old_sp as u16 + 0x100);
        self.write(old_sp as u16 + 0x100, 0);
        value
    }

    /// Resolves an operand address, consuming the operand bytes.
    fn get_operand_address(&mut self, mode: AddressingMode) -> (r: u16)
        requires
            old(self).wf(),
            !(mode is NoneAddressing),
        ensures
            final(self).wf(),
            r == isa::operand_addr(mode, old(self).registers, old(self).memory@),
            final(self).registers == isa::regs_after_operand(mode, old(self).registers),
            final(self).memory == old(self).memory,
            final(self).remaining_cycles == old(self).remaining_cycles,
    {
        match mode {
            AddressingMode::Indirect => {
                let ptr_to_ptr = self.read_u16(self.registers.program_counter);
                let r = self.read_u16(ptr_to_ptr);
                self.registers.program_counter = self.registers.program_counter.wrapping_add(2);
                r
            },
            AddressingMode::Immediate => {
                let r = self.registers.program_counter;
                self.registers.program_counter = self.registers.program_counter.wrapping_add(1);
                r
            },
            AddressingMode::ZeroPage => {
                let r = self.read(self.registers.program_counter) as u16;
                self.registers.program_counter = self.registers.program_counter.wrapping_add(1);
                r
            },
            AddressingMode::Absolute => {
                let r = self.read_u16(self.registers.program_counter);
                self.registers.program_counter = self.registers.program_counter.wrapping_add(2);
                r
            },
            AddressingMode::ZeroPageX => {
                let pos = self.read(self.registers.program_counter);
                self.registers.program_counter = self.registers.program_counter.wrapping_add(1);
                pos.wrapping_add(self.registers.x) as u16
            },
            AddressingMode::ZeroPageY => {
                let pos = self.read(self.registers.program_counter);
                self.registers.program_counter = self.registers.program_counter.wrapping_add(1);
                pos.wrapping_add(self.registers.y) as u16
            },
            AddressingMode::AbsoluteX => {
                let base = self.read_u16(self.registers.program_counter);
                self.registers.program_counter = self.registers.program_counter.wrapping_add(2);
                base.wrapping_add(self.registers.x as u16)
            },
            AddressingMode::AbsoluteY => {
                let base = self.read_u16(self.registers.program_counter);
                self.registers.program_counter = self.registers.program_counter.wrapping_add(2);
                base.wrapping_add(self.registers.y as u16)
            },
            AddressingMode::IndirectX => {
                let base = self.read(self.registers.program_counter);
                self.registers.program_counter = self.registers.program_counter.wrapping_add(1);
                let ptr: u8 = base.wrapping_add(self.registers.x);
                let lo = self.read(ptr as u16);
                let hi = self.read(ptr.wrapping_add(1) as u16);
                (hi as u16) << 8 | lo as u16
            },
            AddressingMode::IndirectY => {
                let base = self.read(self.registers.program_counter);
                self.registers.program_counter = self.registers.program_counter.wrapping_add(1);
                let lo = self.read(base as u16);
                let hi = self.read(base.wrapping_add(1) as u16);
                let deref_base = (hi as u16) << 8 | lo as u16;
                deref_base.wrapping_add(self.registers.y as u16)
            },
            AddressingMode::NoneAddressing => {
                // excluded by the precondition; matches the specification's value
                0
            },
        }
    }

    // Each instruction helper performs its effect on the real machine; its
    // contract ties the outcome to the matching specification function in
    // `isa`, which `exec`'s own contract then assembles into `isa::step`.
    fn lda(&mut self, mode: AddressingMode)
        requires
            old(self).wf(),
            !(mode is NoneAddressing),
        ensures
            final(self).wf(),
            final(self).snap() == isa::lda_spec(old(self).snap(), mode),
    {
        let addr = self.get_operand_address(mode);
        let value = self.read(addr);
        self.registers.a = value;
        self.registers.zero = value == 0;
        self.registers.negative = value >= 0x80;
    }

    fn ldx(&mut self, mode: AddressingMode)
        requires
            old(self).wf(),
            !(mode is NoneAddressing),
        ensures
            final(self).wf(),
            final(self).snap() == isa::ldx_spec(old(self).snap(), mode),
    {
        let addr = self.get_operand_address(mode);
        let value = self.read(addr);
        self.registers.x = value;
        self.registers.zero = value == 0;
        self.registers.negative = value >= 0x80;
    }

    fn ldy(&mut self, mode: AddressingMode)
        requires
            old(self).wf(),
            !(mode is NoneAddressing),
        ensures
            final(self).wf(),
            final(self).snap() == isa::ldy_spec(old(self).snap(), mode),
    {
        let addr = self.get_operand_address(mode);
        let value = self.read(addr);
        self.registers.y = value;
        self.registers.zero = value == 0;
        self.registers.negative = value >= 0x80;
    }

    fn sta(&mut self, mode: AddressingMode)
        requires
            old(self).wf(),
            !(mode is NoneAddressing),
        ensures
            final(self).wf(),
            final(self).snap() == isa::sta_spec(old(self).snap(), mode),
    {
        let value = self.registers.a;
        let addr = self.get_operand_address(mode);
        self.write(addr, value);
    }

    fn stx(&mut self, mode: AddressingMode)
        requires
            old(self).wf(),
            !(mode is NoneAddressing),
        ensures
            final(self).wf(),
            final(self).snap() == isa::stx_spec(old(self).snap(), mode),
    {
        let value = self.registers.x;
        let addr = self.get_operand_address(mode);
        self.write(addr, value);
    }

    fn sty(&mut self, mode: AddressingMode)
        requires
            old(self).wf(),
            !(mode is NoneAddressing),
        ensures
            final(self).wf(),
            final(self).snap() == isa::sty_spec(old(self).snap(), mode),
    {
        let value = self.registers.y;
        let addr = self.get_operand_address(mode);
        self.write(addr, value);
    }

    fn and(&mut self, mode: AddressingMode)
        requires
            old(self).wf(),
            !(mode is NoneAddressing),
        ensures
            final(self).wf(),
            final(self).snap() == isa::and_spec(old(self).snap(), mode),
    {
        let addr = self.get_operand_address(mode);
        let value = self.read(addr);
        self.registers.a = self.registers.a & value;
        self.registers.zero = self.registers.a == 0;
        self.registers.negative = self.registers.a >= 0x80;
    }

    fn ora(&mut self, mode: AddressingMode)
        requires
            old(self).wf(),
            !(mode is NoneAddressing),
        ensures
            final(self).wf(),
            final(self).snap() == isa::ora_spec(old(self).snap(), mode),
    {
        let addr = self.get_operand_address(mode);
        let value = self.read(addr);
        self.registers.a = self.registers.a | value;
        self.registers.zero = self.registers.a == 0;
        self.registers.negative = self.registers.a >= 0x80;
    }

    fn xor(&mut self, mode: AddressingMode)
        requires
            old(self).wf(),
            !(mode is NoneAddressing),
        ensures
            final(self).wf(),
            final(self).snap() == isa::xor_spec(old(self).snap(), mode),
    {
        let addr = self.get_operand_address(mode);
        let value = self.read(addr);
        self.registers.a = self.registers.a ^ value;
        self.registers.zero = self.registers.a == 0;
        self.registers.negative = self.registers.a >= 0x80;
    }

    fn adc(&mut self, mode: AddressingMode)
        requires
            old(self).wf(),
            !(mode is NoneAddressing),
        ensures
            final(self).wf(),
            final(self).snap() == isa::adc_spec(old(self).snap(), mode),
    {
        let addr = self.get_operand_address(mode);
        let value = self.read(addr);
        let sum: u16 = self.registers.a as u16 + value as u16 + (if self.registers.carry {
            1
        } else {
            0
        });
        let result: u8 = (sum & 0xff) as u8;
        let a_sign = self.registers.a & 0x80 > 0;
        let value_sign = value & 0x80 > 0;
        let result_sign = result & 0x80 > 0;
        self.registers.overflow = (a_sign != result_sign) && (a_sign == value_sign);
        self.registers.a = result;
        self.registers.carry = sum > 0xff;
        self.registers.zero = result == 0;
        self.registers.negative = result >= 0x80;
    }

    fn sbc(&mut self, mode: AddressingMode)
        requires
            old(self).wf(),
            !(mode is NoneAddressing),
        ensures
            final(self).wf(),
            final(self).snap() == isa::sbc_spec(old(self).snap(), mode),
    {
        let addr = self.get_operand_address(mode);
        let value = !self.read(addr);
        let sum: u16 = self.registers.a as u16 + value as u16 + (if self.registers.carry {
            1
        } else {
            0
        });
        let result: u8 = (sum & 0xff) as u8;
        let a_sign = self.registers.a & 0x80 > 0;
        let value_sign = value & 0x80 > 0;
        let result_sign = result & 0x80 > 0;
        self.registers.overflow = (a_sign != result_sign) && (a_sign == value_sign);
        self.registers.a = result;
        self.registers.carry = sum > 0xff;
        self.registers.zero = result == 0;
        self.registers.negative = result >= 0x80;
    }

    fn bcc(&mut self)
        requires
            old(self).wf(),
        ensures
            final(self).wf(),
            final(self).snap() == isa::bcc_spec(old(self).snap()),
    {
        if !self.registers.carry {
            let value = self.read(self.registers.program_counter);
            if value > 0x7f {
                self.registers.program_counter = self.registers.program_counter.wrapping_sub(
                    (!value).wrapping_add(1) as u16,
                );
            } else {
                self.registers.program_counter = self.registers.program_counter.wrapping_add(
                    value as u16,
                );
            }
        }
        self.registers.program_counter = self.registers.program_counter.wrapping_add(1);
    }

    fn bcs(&mut self)
        requires
            old(self).wf(),
        ensures
            final(self).wf(),
            final(self).snap() == isa::bcs_spec(old(self).snap()),
    {
        if self.registers.carry {
            let value = self.read(self.registers.program_counter);
            if value > 0x7f {
                self.registers.program_counter = self.registers.program_counter.wrapping_sub(
                    (!value).wrapping_add(1) as u16,
                );
            } else {
                self.registers.program_counter = self.registers.program_counter.wrapping_add(
                    value as u16,
                );
            }
        }
        self.registers.program_counter = self.registers.program_counter.wrapping_add(1);
    }

    fn bvc(&mut self)
        requires
            old(self).wf(),
        ensures
            final(self).wf(),
            final(self).snap() == isa::bvc_spec(old(self).snap()),
    {
        if !self.registers.overflow {
            let value = self.read(self.registers.program_counter);
            if value > 0x7f {
                self.registers.program_counter = self.registers.program_counter.wrapping_sub(
                    (!value).wrapping_add(1) as u16,
                );
            } else {
                self.registers.program_counter = self.registers.program_counter.wrapping_add(
                    value as u16,
                );
            }
        }
        self.registers.program_counter = self.registers.program_counter.wrapping_add(1);
    }

    fn bvs(&mut self)
        requires
            old(self).wf(),
        ensures
            final(self).wf(),
            final(self).snap() == isa::bvs_spec(old(self).snap()),
    {
        if self.registers.overflow {
            let value = self.read(self.registers.program_counter);
            if value > 0x7f {
                self.registers.program_counter = self.registers.program_counter.wrapping_sub(
                    (!value).wrapping_add(1) as u16,
                );
            } else {
                self.registers.program_counter = self.registers.program_counter.wrapping_add(
                    value as u16,
                );
            }
        }
        self.registers.program_counter = self.registers.program_counter.wrapping_add(1);
    }

    fn beq(&mut self)
        requires
            old(self).wf(),
        ensures
            final(self).wf(),
            final(self).snap() == isa::beq_spec(old(self).snap()),
    {
        if self.registers.zero {
            let value = self.read(self.registers.program_counter);
            if value > 0x7f {
                self.registers.program_counter = self.registers.program_counter.wrapping_sub(
                    (!value).wrapping_add(1) as u16,
                );
            } else {
                self.registers.program_counter = self.registers.program_counter.wrapping_add(
                    value as u16,
                );
            }
        }
        self.registers.program_counter = self.registers.program_counter.wrapping_add(1);
    }

    fn bne(&mut self)
        requires
            old(self).wf(),
        ensures
            final(self).wf(),
            final(self).snap() == isa::bne_spec(old(self).snap()),
    {
        if !self.registers.zero {
            let value = self.read(self.registers.program_counter);
            if value > 0x7f {
                self.registers.program_counter = self.registers.program_counter.wrapping_sub(
                    (!value).wrapping_add(1) as u16,
                );
            } else {
                self.registers.program_counter = self.registers.program_counter.wrapping_add(
                    value as u16,
                );
            }
        }
        self.registers.program_counter = self.registers.program_counter.wrapping_add(1);
    }

    fn bpl(&mut self)
        requires
            old(self).wf(),
        ensures
            final(self).wf(),
            final(self).snap() == isa::bpl_spec(old(self).snap()),
    {
        if !self.registers.negative {
            let value = self.read(self.registers.program_counter);
            if value > 0x7f {
                self.registers.program_counter = self.registers.program_counter.wrapping_sub(
                    (!value).wrapping_add(1) as u16,
                );
            } else {
                self.registers.program_counter = self.registers.program_counter.wrapping_add(
                    value as u16,
                );
            }
        }
        self.registers.program_counter = self.registers.program_counter.wrapping_add(1);
    }

    fn bmi(&mut self)
        requires
            old(self).wf(),
        ensures
            final(self).wf(),
            final(self).snap() == isa::bmi_spec(old(self).snap()),
    {
        if self.registers.negative {
            let value = self.read(self.registers.program_counter);
            if value > 0x7f {
                self.registers.program_counter = self.registers.program_counter.wrapping_sub(
                    (!value).wrapping_add(1) as u16,
                );
            } else {
                self.registers.program_counter = self.registers.program_counter.wrapping_add(
                    value as u16,
                );
            }
        }
        self.registers.program_counter = self.registers.program_counter.wrapping_add(1);
    }

    fn inx(&mut self)
        requires
            old(self).wf(),
        ensures
            final(self).wf(),
            final(self).snap() == isa::inx_spec(old(self).snap()),
    {
        self.registers.x = self.registers.x.wrapping_add(1);
        self.registers.zero = self.registers.x == 0;
        self.registers.negative = self.registers.x >= 0x80;
    }

    fn iny(&mut self)
        requires
            old(self).wf(),
        ensures
            final(self).wf(),
            final(self).snap() == isa::iny_spec(old(self).snap()),
    {
        self.registers.y = self.registers.y.wrapping_add(1);
        self.registers.zero = self.registers.y == 0;
        self.registers.negative = self.registers.y >= 0x80;
    }

    fn dex(&mut self)
        requires
            old(self).wf(),
        ensures
            final(self).wf(),
            final(self).snap() == isa::dex_spec(old(self).snap()),
    {
        self.registers.x = self.registers.x.wrapping_sub(1);
        self.registers.zero = self.registers.x == 0;
        self.registers.negative = self.registers.x >= 0x80;
    }

    fn dey(&mut self)
        requires
            old(self).wf(),
        ensures
            final(self).wf(),
            final(self).snap() == isa::dey_spec(old(self).snap()),
    {
        self.registers.y = self.registers.y.wrapping_sub(1);
        self.registers.zero = self.registers.y == 0;
        self.registers.negative = self.registers.y >= 0x80;
    }

    fn inc(&mut self, mode: AddressingMode)
        requires
            old(self).wf(),
            !(mode is NoneAddressing),
        ensures
            final(self).wf(),
            final(self).snap() == isa::inc_spec(old(self).snap(), mode),
    {
        let addr = self.get_operand_address(mode);
        let value = self.read(addr).wrapping_add(1);
        self.write(addr, value);
        self.registers.zero = value == 0;
        self.registers.negative = value >= 0x80;
    }

    fn dec(&mut self, mode: AddressingMode)
        requires
            old(self).wf(),
            !(mode is NoneAddressing),
        ensures
            final(self).wf(),
            final(self).snap() == isa::dec_spec(old(self).snap(), mode),
    {
        let addr = self.get_operand_address(mode);
        let value = self.read(addr).wrapping_sub(1);
        self.write(addr, value);
        self.registers.zero = value == 0;
        self.registers.negative = value >= 0x80;
    }

    fn cmp(&mut self, mode: AddressingMode)
        requires
            old(self).wf(),
            !(mode is NoneAddressing),
        ensures
            final(self).wf(),
            final(self).snap() == isa::cmp_spec(old(self).snap(), mode),
    {
        let addr = self.get_operand_address(mode);
        let value = self.read(addr);
        self.registers.zero = value == self.registers.a;
        self.registers.negative = self.registers.a >= 0x80;
    }

    fn cpx(&mut self, mode: AddressingMode)
        requires
            old(self).wf(),
            !(mode is NoneAddressing),
        ensures
            final(self).wf(),
            final(self).snap() == isa::cpx_spec(old(self).snap(), mode),
    {
        let addr = self.get_operand_address(mode);
        let value = self.read(addr);
        self.registers.zero = value == self.registers.x;
        self.registers.negative = self.registers.x >= 0x80;
    }

    fn cpy(&mut self, mode: AddressingMode)
        requires
            old(self).wf(),
            !(mode is NoneAddressing),
        ensures
            final(self).wf(),
            final(self).snap() == isa::cpy_spec(old(self).snap(), mode),
    {
        let addr = self.get_operand_address(mode);
        let value = self.read(addr);
        self.registers.zero = value == self.registers.y;
        self.registers.negative = self.registers.y >= 0x80;
    }

    fn bit(&mut self, mode: AddressingMode)
        requires
            old(self).wf(),
            !(mode is NoneAddressing),
        ensures
            final(self).wf(),
            final(self).snap() == isa::bit_spec(old(self).snap(), mode),
    {
        let addr = self.get_operand_address(mode);
        let value = self.read(addr);
        self.registers.zero = self.registers.a & value == 0;
        self.registers.negative = value & 0x80 != 0;
        self.registers.overflow = value & 0x40 != 0;
    }

    fn asl(&mut self, mode: AddressingMode)
        requires
            old(self).wf(),
        ensures
            final(self).wf(),
            final(self).snap() == isa::asl_spec(old(self).snap(), mode),
    {
        match mode {
            AddressingMode::NoneAddressing => {
                self.registers.carry = self.registers.a >= 0x80;
                self.registers.a = self.registers.a << 1;
            },
            _ => {
                let addr = self.get_operand_address(mode);
                let value = self.read(addr);
                self.write(addr, value << 1);
                self.registers.carry = value >= 0x80;
            },
        }
    }

    fn lsr(&mut self, mode: AddressingMode)
        requires
            old(self).wf(),
        ensures
            final(self).wf(),
            final(self).snap() == isa::lsr_spec(old(self).snap(), mode),
    {
        match mode {
            AddressingMode::NoneAddressing => {
                let value = self.registers.a;
                self.registers.carry = value & 1 == 1;
                self.registers.negative = value >= 0x80;
                self.registers.zero = value == 1;
                self.registers.a = value >> 1;
            },
            _ => {
                let addr = self.get_operand_address(mode);
                let value = self.read(addr);
                self.write(addr, value >> 1);
                self.registers.carry = value & 1 == 1;
                self.registers.negative = value >= 0x80;
                self.registers.zero = value == 1;
            },
        }
    }

    fn rol(&mut self, mode: AddressingMode)
        requires
            old(self).wf(),
        ensures
            final(self).wf(),
            final(self).snap() == isa::rol_spec(old(self).snap(), mode),
    {
        match mode {
            AddressingMode::NoneAddressing => {
                let carry = self.registers.a >= 0x80;
                self.registers.carry = carry;
                self.registers.a = (self.registers.a << 1) | (if carry {
                    1
                } else {
                    0
                });
            },
            _ => {
                let addr = self.get_operand_address(mode);
                let value = self.read(addr);
                let carry = value >= 0x80;
                self.registers.carry = carry;
                self.write(addr, (value << 1) | (if carry {
                    1
                } else {
                    0
                }));
            },
        }
    }

    fn ror(&mut self, mode: AddressingMode)
        requires
            old(self).wf(),
        ensures
            final(self).wf(),
            final(self).snap() == isa::ror_spec(old(self).snap(), mode),
    {
        match mode {
            AddressingMode::NoneAddressing => {
                let carry = self.registers.a & 1 > 0;
                self.registers.carry = carry;
                self.registers.a = (self.registers.a >> 1) | (if carry {
                    0x80
                } else {
                    0
                });
            },
            _ => {
                let addr = self.get_operand_address(mode);
                let value = self.read(addr);
                let carry = value & 1 > 0;
                self.registers.carry = carry;
                self.write(addr, (value >> 1) | (if carry {
                    0x80
                } else {
                    0
                }));
            },
        }
    }

    fn tax(&mut self)
        requires
            old(self).wf(),
        ensures
            final(self).wf(),
            final(self).snap() == isa::tax_spec(old(self).snap()),
    {
        self.registers.x = self.registers.a;
    }

    fn txa(&mut self)
        requires
            old(self).wf(),
        ensures
            final(self).wf(),
            final(self).snap() == isa::txa_spec(old(self).snap()),
    {
        self.registers.a = self.registers.x;
    }

    fn tay(&mut self)
        requires
            old(self).wf(),
        ensures
            final(self).wf(),
            final(self).snap() == isa::tay_spec(old(self).snap()),
    {
        self.registers.y = self.registers.a;
    }

    fn tya(&mut self)
        requires
            old(self).wf(),
        ensures
            final(self).wf(),
            final(self).snap() == isa::tya_spec(old(self).snap()),
    {
        self.registers.a = self.registers.y;
    }

    fn txs(&mut self)
        requires
            old(self).wf(),
        ensures
            final(self).wf(),
            final(self).snap() == isa::txs_spec(old(self).snap()),
    {
        self.registers.stack_pointer = self.registers.x;
    }

    fn tsx(&mut self)
        requires
            old(self).wf(),
        ensures
            final(self).wf(),
            final(self).snap() == isa::tsx_spec(old(self).snap()),
    {
        self.registers.x = self.registers.stack_pointer;
    }

    fn clc(&mut self)
        requires
            old(self).wf(),
        ensures
            final(self).wf(),
            final(self).snap() == isa::clc_spec(old(self).snap()),
    {
        self.registers.carry = false;
    }

    fn sec(&mut self)
        requires
            old(self).wf(),
        ensures
            final(self).wf(),
            final(self).snap() == isa::sec_spec(old(self).snap()),
    {
        self.registers.carry = true;
    }

    fn clv(&mut self)
        requires
            old(self).wf(),
        ensures
            final(self).wf(),
            final(self).snap() == isa::clv_spec(old(self).snap()),
    {
        self.registers.overflow = false;
    }

    fn sei(&mut self)
        requires
            old(self).wf(),
        ensures
            final(self).wf(),
            final(self).snap() == isa::sei_spec(old(self).snap()),
    {
        self.registers.interrupt_disable = true;
    }

    fn cli(&mut self)
        requires
            old(self).wf(),
        ensures
            final(self).wf(),
            final(self).snap() == isa::cli_spec(old(self).snap()),
    {
        self.registers.interrupt_disable = false;
    }

    fn pha(&mut self)
        requires
            old(self).wf(),
        ensures
            final(self).wf(),
            final(self).snap() == isa::pha_spec(old(self).snap()),
    {
        let value = self.registers.a;
        self.push(value);
    }

    fn pla(&mut self)
        requires
            old(self).wf(),
        ensures
            final(self).wf(),
            final(self).snap() == isa::pla_spec(old(self).snap()),
    {
        let value = self.pop();
        self.registers.a = value;
        self.registers.negative = value >= 0x80;
        self.registers.zero = value == 0;
    }

    fn php(&mut self)
        requires
            old(self).wf(),
        ensures
            final(self).wf(),
            final(self).snap() == isa::php_spec(old(self).snap()),
    {
        let flags = self.registers.get_flags();
        self.push(flags);
    }

    fn plp(&mut self)
        requires
            old(self).wf(),
        ensures
            final(self).wf(),
            final(self).snap() == isa::plp_spec(old(self).snap()),
    {
        let flags = self.pop();
        self.registers.set_flags_from_byte(flags);
    }

    fn jsr(&mut self)
        requires
            old(self).wf(),
        ensures
            final(self).wf(),
            final(self).snap() == isa::jsr_spec(old(self).snap()),
    {
        let ret = self.registers.program_counter.wrapping_add(1);
        self.push(((ret & 0xff00) >> 8) as u8);
        self.push(ret as u8);
        let target = self.get_operand_address(AddressingMode::Absolute);
        self.registers.program_counter = target;
    }

    fn rts(&mut self)
        requires
            old(self).wf(),
        ensures
            final(self).wf(),
            final(self).snap() == isa::rts_spec(old(self).snap()),
    {
        let lo = self.pop();
        let hi = self.pop();
        self.registers.program_counter = ((hi as u16) << 8 | lo as u16).wrapping_add(1);
    }

    fn rti(&mut self)
        requires
            old(self).wf(),
        ensures
            final(self).wf(),
            final(self).snap() == isa::rti_spec(old(self).snap()),
    {
        let flags = self.pop();
        self.registers.set_flags_from_byte(flags);
        self.rts();
    }

    fn irq(&mut self)
        requires
            old(self).wf(),
        ensures
            final(self).wf(),
            final(self).snap() == isa::irq_spec(old(self).snap()),
    {
        if self.registers.interrupt_disable {
            return ;
        }
        let pc = self.registers.program_counter;
        self.push(((pc & 0xff00) >> 8) as u8);
        self.push(pc as u8);
        let flags = self.registers.get_flags();
        self.push(flags);
        let new_pc = self.read_u16(0xfffe);
        self.registers.program_counter = new_pc;
    }

    /// The non-maskable interrupt entry, kept for an interrupt line a
    /// future orchestrator may drive; no opcode dispatches to it.
    #[allow(dead_code)]
    fn nmi(&mut self)
        requires
            old(self).wf(),
        ensures
            final(self).wf(),
            final(self).snap() == isa::nmi_spec(old(self).snap()),
    {
        let pc = self.registers.program_counter;
        self.push(((pc & 0xff00) >> 8) as u8);
        self.push(pc as u8);
        let flags = self.registers.get_flags();
        self.push(flags);
        self.registers.interrupt_disable = true;
        let new_pc = self.read_u16(0xfffa);
        self.registers.program_counter = new_pc;
    }

    fn jmp(&mut self, mode: AddressingMode)
        requires
            old(self).wf(),
            !(mode is NoneAddressing),
        ensures
            final(self).wf(),
            final(self).snap() == isa::jmp_spec(old(self).snap(), mode),
    {
        let addr = self.get_operand_address(mode);
        let new_pc = self.read_u16(addr);
        self.registers.program_counter = new_pc;
    }

    /// Decodes and performs one opcode in `0x00..0x40`.
    #[verifier::rlimit(100)]
    #[verifier::spinoff_prover]
    fn exec_op_00_3f(&mut self, opcode: u8)
        requires
            old(self).wf(),
            0x00 <= opcode < 0x40,
        ensures
            final(self).wf(),
            final(self).memory@.ppu == old(self).memory@.ppu,
            final(self).snap() == isa::apply_op(old(self).snap(), opcode),
    {
        proof {
            reveal(crate::isa::apply_op);
        }
        match opcode {
            0x09 => {
                self.ora(AddressingMode::Immediate);
                self.remaining_cycles = 2;
            },
            0x05 => {
                self.ora(AddressingMode::ZeroPage);
                self.remaining_cycles = 3;
            },
            0x15 => {
                self.ora(AddressingMode::ZeroPageX);
                self.remaining_cycles = 4;
            },
            0x0d => {
                self.ora(AddressingMode::Absolute);
                self.remaining_cycles = 4;
            },
            0x1d => {
                self.ora(AddressingMode::AbsoluteX);
                self.remaining_cycles = 4;
            },
            0x19 => {
                self.ora(AddressingMode::AbsoluteY);
                self.remaining_cycles = 4;
            },
            0x01 => {
                self.ora(AddressingMode::IndirectX);
                self.remaining_cycles = 4;
            },
            0x11 => {
                self.ora(AddressingMode::IndirectY);
                self.remaining_cycles = 4;
            },
            0x29 => {
                self.and(AddressingMode::Immediate);
                self.remaining_cycles = 2;
            },
            0x25 => {
                self.and(AddressingMode::ZeroPage);
                self.remaining_cycles = 3;
            },
            0x35 => {
                self.and(AddressingMode::ZeroPageX);
                self.remaining_cycles = 4;
            },
            0x2d => {
                self.and(AddressingMode::Absolute);
                self.remaining_cycles = 4;
            },
            0x3d => {
                self.and(AddressingMode::AbsoluteX);
                self.remaining_cycles = 4;
            },
            0x39 => {
                self.and(AddressingMode::AbsoluteY);
                self.remaining_cycles = 4;
            },
            0x21 => {
                self.and(AddressingMode::IndirectX);
                self.remaining_cycles = 6;
            },
            0x31 => {
                self.and(AddressingMode::IndirectY);
                self.remaining_cycles = 5;
            },
            0x0a => {
                self.asl(AddressingMode::NoneAddressing);
                self.remaining_cycles = 2;
            },
            0x06 => {
                self.asl(AddressingMode::ZeroPage);
                self.remaining_cycles = 5;
            },
            0x16 => {
                self.asl(AddressingMode::ZeroPageX);
                self.remaining_cycles = 6;
            },
            0x0e => {
                self.asl(AddressingMode::Absolute);
                self.remaining_cycles = 6;
            },
            0x1e => {
                self.asl(AddressingMode::AbsoluteX);
                self.remaining_cycles = 7;
            },
            0x10 => {
                self.bpl();
                self.remaining_cycles = 2;
            },
            0x30 => {
                self.bmi();
                self.remaining_cycles = 2;
            },
            0x20 => {
                self.jsr();
                self.remaining_cycles = 6;
            },
            0x18 => {
                self.clc();
                self.remaining_cycles = 2;
            },
            0x38 => {
                self.sec();
                self.remaining_cycles = 2;
            },
            0x08 => {
                self.php();
                self.remaining_cycles = 3;
            },
            0x28 => {
                self.plp();
                self.remaining_cycles = 3;
            },
            0x24 => {
                self.bit(AddressingMode::ZeroPage);
                self.remaining_cycles = 3;
            },
            0x2c => {
                self.bit(AddressingMode::Absolute);
                self.remaining_cycles = 4;
            },
            0x00 => {
                self.irq();
                self.remaining_cycles = 7;
            },
            0x2a => {
                self.rol(AddressingMode::NoneAddressing);
                self.remaining_cycles = 2;
            },
            0x26 => {
                self.rol(AddressingMode::ZeroPage);
                self.remaining_cycles = 5;
            },
            0x36 => {
                self.rol(AddressingMode::ZeroPageX);
                self.remaining_cycles = 6;
            },
            0x2e => {
                self.rol(AddressingMode::Absolute);
                self.remaining_cycles = 6;
            },
            0x3e => {
                self.rol(AddressingMode::AbsoluteX);
                self.remaining_cycles = 7;
            },
            _ => {
            },
        }
    }

    /// Decodes and performs one opcode in `0x40..0x80`.
    #[verifier::rlimit(100)]
    #[verifier::spinoff_prover]
    fn exec_op_40_7f(&mut self, opcode: u8)
        requires
            old(self).wf(),
            0x40 <= opcode < 0x80,
        ensures
            final(self).wf(),
            final(self).memory@.ppu == old(self).memory@.ppu,
            final(self).snap() == isa::apply_op(old(self).snap(), opcode),
    {
        proof {
            reveal(crate::isa::apply_op);
        }
        match opcode {
            0x69 => {
                self.adc(AddressingMode::Immediate);
                self.remaining_cycles = 2;
            },
            0x65 => {
                self.adc(AddressingMode::ZeroPage);
                self.remaining_cycles = 3;
            },
            0x75 => {
                self.adc(AddressingMode::ZeroPageX);
                self.remaining_cycles = 4;
            },
            0x6d => {
                self.adc(AddressingMode::Absolute);
                self.remaining_cycles = 4;
            },
            0x7d => {
                self.adc(AddressingMode::AbsoluteX);
                self.remaining_cycles = 4;
            },
            0x79 => {
                self.adc(AddressingMode::AbsoluteY);
                self.remaining_cycles = 4;
            },
            0x61 => {
                self.adc(AddressingMode::IndirectX);
                self.remaining_cycles = 6;
            },
            0x71 => {
                self.adc(AddressingMode::IndirectY);
                self.remaining_cycles = 5;
            },
            0x49 => {
                self.xor(AddressingMode::Immediate);
                self.remaining_cycles = 2;
            },
            0x45 => {
                self.xor(AddressingMode::ZeroPage);
                self.remaining_cycles = 3;
            },
            0x55 => {
                self.xor(AddressingMode::ZeroPageX);
                self.remaining_cycles = 4;
            },
            0x4d => {
                self.xor(AddressingMode::Absolute);
                self.remaining_cycles = 4;
            },
            0x5d => {
                self.xor(AddressingMode::AbsoluteX);
                self.remaining_cycles = 4;
            },
            0x59 => {
                self.xor(AddressingMode::AbsoluteY);
                self.remaining_cycles = 4;
            },
            0x41 => {
                self.xor(AddressingMode::IndirectX);
                self.remaining_cycles = 6;
            },
            0x51 => {
                self.xor(AddressingMode::IndirectY);
                self.remaining_cycles = 5;
            },
            0x4a => {
                self.lsr(AddressingMode::NoneAddressing);
                self.remaining_cycles = 2;
            },
            0x46 => {
                self.lsr(AddressingMode::ZeroPage);
                self.remaining_cycles = 5;
            },
            0x56 => {
                self.lsr(AddressingMode::ZeroPageX);
                self.remaining_cycles = 6;
            },
            0x4e => {
                self.lsr(AddressingMode::Absolute);
                self.remaining_cycles = 6;
            },
            0x5e => {
                self.lsr(AddressingMode::AbsoluteX);
                self.remaining_cycles = 7;
            },
            0x50 => {
                self.bvc();
                self.remaining_cycles = 2;
            },
            0x70 => {
                self.bvs();
                self.remaining_cycles = 2;
            },
            0x58 => {
                self.cli();
                self.remaining_cycles = 2;
            },
            0x78 => {
                self.sei();
                self.remaining_cycles = 2;
            },
            0x60 => {
                self.rts();
                self.remaining_cycles = 6;
            },
            0x48 => {
                self.pha();
                self.remaining_cycles = 3;
            },
            0x68 => {
                self.pla();
                self.remaining_cycles = 4;
            },
            0x4c => {
                self.jmp(AddressingMode::Absolute);
                self.remaining_cycles = 3;
            },
            0x6c => {
                self.jmp(AddressingMode::Indirect);
                self.remaining_cycles = 3;
            },
            0x6a => {
                self.ror(AddressingMode::NoneAddressing);
                self.remaining_cycles = 2;
            },
            0x66 => {
                self.ror(AddressingMode::ZeroPage);
                self.remaining_cycles = 5;
            },
            0x76 => {
                self.ror(AddressingMode::ZeroPageX);
                self.remaining_cycles = 6;
            },
            0x6e => {
                self.ror(AddressingMode::Absolute);
                self.remaining_cycles = 6;
            },
            0x7e => {
                self.ror(AddressingMode::AbsoluteX);
                self.remaining_cycles = 7;
            },
            0x40 => {
                self.rti();
                self.remaining_cycles = 6;
            },
            _ => {
            },
        }
    }

    /// Decodes and performs one opcode in `0x80..0xc0`.
    #[verifier::rlimit(100)]
    #[verifier::spinoff_prover]
    fn exec_op_80_bf(&mut self, opcode: u8)
        requires
            old(self).wf(),
            0x80 <= opcode < 0xc0,
        ensures
            final(self).wf(),
            final(self).memory@.ppu == old(self).memory@.ppu,
            final(self).snap() == isa::apply_op(old(self).snap(), opcode),
    {
        proof {
            reveal(crate::isa::apply_op);
        }
        match opcode {
            0xa9 => {
                self.lda(AddressingMode::Immediate);
                self.remaining_cycles = 2;
            },
            0xa5 => {
                self.lda(AddressingMode::ZeroPage);
                self.remaining_cycles = 3;
            },
            0xb5 => {
                self.lda(AddressingMode::ZeroPageX);
                self.remaining_cycles = 4;
            },
            0xad => {
                self.lda(AddressingMode::Absolute);
                self.remaining_cycles = 4;
            },
            0xbd => {
                self.lda(AddressingMode::AbsoluteX);
                self.remaining_cycles = 4;
            },
            0xb9 => {
                self.lda(AddressingMode::AbsoluteY);
                self.remaining_cycles = 4;
            },
            0xa1 => {
                self.lda(AddressingMode::IndirectX);
                self.remaining_cycles = 6;
            },
            0xb1 => {
                self.lda(AddressingMode::IndirectY);
                self.remaining_cycles = 5;
            },
            0xa2 => {
                self.ldx(AddressingMode::Immediate);
                self.remaining_cycles = 2;
            },
            0xa6 => {
                self.ldx(AddressingMode::ZeroPage);
                self.remaining_cycles = 3;
            },
            0xb6 => {
                self.ldx(AddressingMode::ZeroPageY);
                self.remaining_cycles = 4;
            },
            0xae => {
                self.ldx(AddressingMode::Absolute);
                self.remaining_cycles = 4;
            },
            0xbe => {
                self.ldx(AddressingMode::AbsoluteY);
                self.remaining_cycles = 4;
            },
            0xa0 => {
                self.ldy(AddressingMode::Immediate);
                self.remaining_cycles = 2;
            },
            0xa4 => {
                self.ldy(AddressingMode::ZeroPage);
                self.remaining_cycles = 3;
            },
            0xb4 => {
                self.ldy(AddressingMode::ZeroPageX);
                self.remaining_cycles = 4;
            },
            0xac => {
                self.ldy(AddressingMode::Absolute);
                self.remaining_cycles = 4;
            },
            0xbc => {
                self.ldy(AddressingMode::AbsoluteX);
                self.remaining_cycles = 4;
            },
            0x90 => {
                self.bcc();
                self.remaining_cycles = 2;
            },
            0xb0 => {
                self.bcs();
                self.remaining_cycles = 2;
            },
            0xb8 => {
                self.clv();
                self.remaining_cycles = 2;
            },
            0x9a => {
                self.txs();
                self.remaining_cycles = 2;
            },
            0xba => {
                self.tsx();
                self.remaining_cycles = 2;
            },
            0xaa => {
                self.tax();
                self.remaining_cycles = 2;
            },
            0x8a => {
                self.txa();
                self.remaining_cycles = 2;
            },
            0xa8 => {
                self.tay();
                self.remaining_cycles = 2;
            },
            0x98 => {
                self.tya();
                self.remaining_cycles = 2;
            },
            0x85 => {
                self.sta(AddressingMode::ZeroPage);
                self.remaining_cycles = 3;
            },
            0x95 => {
                self.sta(AddressingMode::ZeroPageX);
                self.remaining_cycles = 4;
            },
            0x8d => {
                self.sta(AddressingMode::Absolute);
                self.remaining_cycles = 4;
            },
            0x9d => {
                self.sta(AddressingMode::AbsoluteX);
                self.remaining_cycles = 5;
            },
            0x99 => {
                self.sta(AddressingMode::AbsoluteY);
                self.remaining_cycles = 5;
            },
            0x81 => {
                self.sta(AddressingMode::IndirectX);
                self.remaining_cycles = 6;
            },
            0x91 => {
                self.sta(AddressingMode::IndirectY);
                self.remaining_cycles = 6;
            },
            0x86 => {
                self.stx(AddressingMode::ZeroPage);
                self.remaining_cycles = 3;
            },
            0x96 => {
                self.stx(AddressingMode::ZeroPageY);
                self.remaining_cycles = 4;
            },
            0x8e => {
                self.stx(AddressingMode::Absolute);
                self.remaining_cycles = 4;
            },
            0x84 => {
                self.sty(AddressingMode::ZeroPage);
                self.remaining_cycles = 3;
            },
            0x94 => {
                self.sty(AddressingMode::ZeroPageX);
                self.remaining_cycles = 4;
            },
            0x8c => {
                self.sty(AddressingMode::Absolute);
                self.remaining_cycles = 4;
            },
            0x88 => {
                self.dey();
                self.remaining_cycles = 2;
            },
            _ => {
            },
        }
    }

    /// Decodes and performs one opcode in `0xc0..0x100`.
    #[verifier::rlimit(100)]
    #[verifier::spinoff_prover]
    fn exec_op_c0_ff(&mut self, opcode: u8)
        requires
            old(self).wf(),
            0xc0 <= opcode < 0x100,
        ensures
            final(self).wf(),
            final(self).memory@.ppu == old(self).memory@.ppu,
            final(self).snap() == isa::apply_op(old(self).snap(), opcode),
    {
        proof {
            reveal(crate::isa::apply_op);
        }
        match opcode {
            0xea => {
                self.remaining_cycles = 2;
            },
            0xf0 => {
                self.beq();
                self.remaining_cycles = 2;
            },
            0xd0 => {
                self.bne();
                self.remaining_cycles = 2;
            },
            0xc9 => {
                self.cmp(AddressingMode::Immediate);
                self.remaining_cycles = 2;
            },
            0xc5 => {
                self.cmp(AddressingMode::ZeroPage);
                self.remaining_cycles = 3;
            },
            0xd5 => {
                self.cmp(AddressingMode::ZeroPageX);
                self.remaining_cycles = 4;
            },
            0xcd => {
                self.cmp(AddressingMode::Absolute);
                self.remaining_cycles = 4;
            },
            0xdd => {
                self.cmp(AddressingMode::AbsoluteX);
                self.remaining_cycles = 4;
            },
            0xd9 => {
                self.cmp(AddressingMode::AbsoluteY);
                self.remaining_cycles = 4;
            },
            0xc1 => {
                self.cmp(AddressingMode::IndirectX);
                self.remaining_cycles = 6;
            },
            0xd1 => {
                self.cmp(AddressingMode::IndirectY);
                self.remaining_cycles = 5;
            },
            0xe0 => {
                self.cpx(AddressingMode::Immediate);
                self.remaining_cycles = 2;
            },
            0xe4 => {
                self.cpx(AddressingMode::ZeroPage);
                self.remaining_cycles = 3;
            },
            0xec => {
                self.cpx(AddressingMode::Absolute);
                self.remaining_cycles = 4;
            },
            0xc0 => {
                self.cpy(AddressingMode::Immediate);
                self.remaining_cycles = 2;
            },
            0xc4 => {
                self.cpy(AddressingMode::ZeroPage);
                self.remaining_cycles = 3;
            },
            0xcc => {
                self.cpy(AddressingMode::Absolute);
                self.remaining_cycles = 4;
            },
            0xc6 => {
                self.dec(AddressingMode::ZeroPage);
                self.remaining_cycles = 5;
            },
            0xd6 => {
                self.dec(AddressingMode::ZeroPageX);
                self.remaining_cycles = 5;
            },
            0xce => {
                self.dec(AddressingMode::Absolute);
                self.remaining_cycles = 5;
            },
            0xde => {
                self.dec(AddressingMode::AbsoluteX);
                self.remaining_cycles = 5;
            },
            0xe6 => {
                self.inc(AddressingMode::ZeroPage);
                self.remaining_cycles = 5;
            },
            0xf6 => {
                self.inc(AddressingMode::ZeroPageX);
                self.remaining_cycles = 6;
            },
            0xee => {
                self.inc(AddressingMode::Absolute);
                self.remaining_cycles = 6;
            },
            0xfe => {
                self.inc(AddressingMode::AbsoluteX);
                self.remaining_cycles = 7;
            },
            0xe9 => {
                self.sbc(AddressingMode::Immediate);
                self.remaining_cycles = 2;
            },
            0xe5 => {
                self.sbc(AddressingMode::ZeroPage);
                self.remaining_cycles = 3;
            },
            0xf5 => {
                self.sbc(AddressingMode::ZeroPageX);
                self.remaining_cycles = 4;
            },
            0xed => {
                self.sbc(AddressingMode::Absolute);
                self.remaining_cycles = 4;
            },
            0xfd => {
                self.sbc(AddressingMode::AbsoluteX);
                self.remaining_cycles = 4;
            },
            0xf9 => {
                self.sbc(AddressingMode::AbsoluteY);
                self.remaining_cycles = 4;
            },
            0xe1 => {
                self.sbc(AddressingMode::IndirectX);
                self.remaining_cycles = 6;
            },
            0xf1 => {
                self.sbc(AddressingMode::IndirectY);
                self.remaining_cycles = 5;
            },
            0xca => {
                self.dex();
                self.remaining_cycles = 2;
            },
            0xe8 => {
                self.inx();
                self.remaining_cycles = 2;
            },
            0xc8 => {
                self.iny();
                self.remaining_cycles = 2;
            },
            0xd8 => {
                self.remaining_cycles = 2;
            },
            0xf8 => {
                self.remaining_cycles = 2;
            },
            _ => {
            },
        }
    }

    /// Executes the instruction at the program counter: exactly one
    /// `isa::step` of the specification machine.  Opcodes outside the
    /// implemented set consume only the opcode byte and change nothing
    /// else.
    pub fn exec(&mut self)
        requires
            old(self).wf(),
        ensures
            final(self).wf(),
            final(self).memory@.ppu == old(self).memory@.ppu,
            final(self).snap() == isa::step(old(self).snap()),
    {
        let instruction = self.read(self.registers.program_counter);
        self.registers.program_counter = self.registers.program_counter.wrapping_add(1);
        if instruction < 0x40 {
            self.exec_op_00_3f(instruction);
        } else if instruction < 0x80 {
            self.exec_op_40_7f(instruction);
        } else if instruction < 0xc0 {
            self.exec_op_80_bf(instruction);
        } else {
            self.exec_op_c0_ff(instruction);
        }
    }
}

} // verus!
