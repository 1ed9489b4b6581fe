//! A verified core of a Nintendo Entertainment System emulator: the 6502-style
//! CPU with its registers and instruction engine, the bus that arbitrates
//! between internal RAM, the cartridge and the PPU register window, the
//! cartridge with its NROM mapper, and the PPU's clocked counter unit.

pub mod cartridge;
pub mod cpu;
pub mod isa;
pub mod laws;
pub mod mapper;
pub mod memory;
pub mod nes;
pub mod ppu;
pub mod registers;

pub use cartridge::Cartridge;
pub use cartridge::LoadError;
pub use cpu::AddressingMode;
pub use cpu::CPU;
pub use mapper::Mapper;
pub use mapper::Mapper0;
pub use memory::Memory;
pub use nes::NES;
pub use ppu::Color;
pub use ppu::PPU;
pub use registers::Registers;
