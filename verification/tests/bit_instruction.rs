use yane::CPU;
use yane::Cartridge;
use yane::Memory;
use yane::PPU;

#[test]
fn bit_zp() {
    let mut rom = [0u8; 0x7fff];

    rom[0x3FFC] = 0x00;
    rom[0x3FFD] = 0x80;
    rom[0] = 0x24;
    rom[1] = 0x10;

    
    let mut cpu = CPU::new(Memory::new(Cartridge::from_rom(rom.to_vec()), PPU::new()));
    cpu.registers.a = 0xF;
    cpu.write(0x0010, 0b11000000);
    cpu.init();
    cpu.exec();
    assert!(cpu.registers.zero);
    assert!(cpu.registers.negative);
    assert!(cpu.registers.overflow);
}

#[test]
fn bit_abs() {
    let mut rom = [0u8; 0x7fff];

    rom[0x3FFC] = 0x00;
    rom[0x3FFD] = 0x80;

    rom[0] = 0x2C;
    rom[1] = 0x10;
    rom[2] = 0x10;


    let mut cpu = CPU::new(Memory::new(Cartridge::from_rom(rom.to_vec()), PPU::new()));
    cpu.registers.a = 0xF;
    cpu.write(0x1010, 0b11000000);
    cpu.init();
    cpu.exec();
    assert!(cpu.registers.zero);
    assert!(cpu.registers.negative);
    assert!(cpu.registers.overflow);
}
