use yane::CPU;

#[test]
fn lda_instruction_immediate() {
    let mut rom = [0u8; 0x7fff];

    rom[0xFFFC - 0x8000] = 0x00;
    rom[0xFFFD - 0x8000] = 0x80;
    rom[0] = 0xA9;
    rom[1] = 0x10;
    let mut cpu = CPU::with_rom(rom);
    cpu.init();
    cpu.exec();
    assert_eq!(cpu.registers.a, 0x10);
}

#[test]
fn lda_instruction_zero_page() {
    let mut rom = [0u8; 0x7fff];

    rom[0xFFFC - 0x8000] = 0x00;
    rom[0xFFFD - 0x8000] = 0x80;
    rom[0] = 0xA5;
    rom[1] = 0x10;
    let mut cpu = CPU::with_rom(rom);
    cpu.write(0x10, 0x4);
    cpu.init();
    cpu.exec();
    assert_eq!(cpu.registers.a, 0x4);
}

#[test]
fn lda_instruction_zero_page_x() {
    let mut rom = [0u8; 0x7fff];

    rom[0xFFFC - 0x8000] = 0x00;
    rom[0xFFFD - 0x8000] = 0x80;
    rom[0] = 0xB5;
    rom[1] = 0x10;
    let mut cpu = CPU::with_rom(rom);
    cpu.registers.x = 2;
    cpu.write(0x12, 0x4);
    cpu.init();
    cpu.exec();
    assert_eq!(cpu.registers.a, 0x4);
}

#[test]
fn lda_instruction_abs() {
    let mut rom = [0u8; 0x7fff];

    rom[0xFFFC - 0x8000] = 0x00;
    rom[0xFFFD - 0x8000] = 0x80;
    rom[0] = 0xAD;
    rom[1] = 0x00;
    rom[2] = 0x10;
    let mut cpu = CPU::with_rom(rom);
    cpu.write(0x1000, 0x4);
    cpu.init();
    cpu.exec();
    assert_eq!(cpu.registers.a, 0x4);
}

#[test]
fn lda_instruction_abs_x() {
    let mut rom = [0u8; 0x7fff];

    rom[0xFFFC - 0x8000] = 0x00;
    rom[0xFFFD - 0x8000] = 0x80;
    rom[0] = 0xBD;
    rom[1] = 0x00;
    rom[2] = 0x10;
    let mut cpu = CPU::with_rom(rom);
    cpu.registers.x = 2;
    cpu.write(0x1002, 0x4);
    cpu.init();
    cpu.exec();
    assert_eq!(cpu.registers.a, 0x4);
}

#[test]
fn lda_instruction_abs_y() {
    let mut rom = [0u8; 0x7fff];

    rom[0xFFFC - 0x8000] = 0x00;
    rom[0xFFFD - 0x8000] = 0x80;
    rom[0] = 0xB9;
    rom[1] = 0x00;
    rom[2] = 0x10;
    let mut cpu = CPU::with_rom(rom);
    cpu.registers.y = 2;
    cpu.write(0x1002, 0x4);
    cpu.init();
    cpu.exec();
    assert_eq!(cpu.registers.a, 0x4);
}

#[test]
fn lda_instruction_indirect_x() {
    let mut rom = [0u8; 0x7fff];

    rom[0xFFFC - 0x8000] = 0x00;
    rom[0xFFFD - 0x8000] = 0x80;
    rom[0] = 0xA1;
    rom[1] = 0x10;
    let mut cpu = CPU::with_rom(rom);
    cpu.registers.x = 2;
    cpu.write(0x12, 0x00);
    cpu.write(0x13, 0x04);
    cpu.write(0x400, 4);
    cpu.init();
    cpu.exec();
    assert_eq!(cpu.registers.a, 0x4);
}

#[test]
fn lda_instruction_indirect_y() {
    let mut rom = [0u8; 0x7fff];

    rom[0xFFFC - 0x8000] = 0x00;
    rom[0xFFFD - 0x8000] = 0x80;
    rom[0] = 0xB1;
    rom[1] = 0x10;
    let mut cpu = CPU::with_rom(rom);
    cpu.registers.y = 2;
    cpu.write(0x10, 0x00);
    cpu.write(0x11, 0x04);
    cpu.write(0x402, 4);
    cpu.init();
    cpu.exec();
    assert_eq!(cpu.registers.a, 0x4);
}

#[test]
fn ldx_instruction_immediate() {
    let mut rom = [0u8; 0x7fff];

    rom[0xFFFC - 0x8000] = 0x00;
    rom[0xFFFD - 0x8000] = 0x80;
    rom[0] = 0xA2;
    rom[1] = 0x10;
    let mut cpu = CPU::with_rom(rom);
    cpu.init();
    cpu.exec();
    assert_eq!(cpu.registers.x, 0x10);
}

#[test]
fn ldx_instruction_zero_page() {
    let mut rom = [0u8; 0x7fff];

    rom[0xFFFC - 0x8000] = 0x00;
    rom[0xFFFD - 0x8000] = 0x80;
    rom[0] = 0xA6;
    rom[1] = 0x10;
    let mut cpu = CPU::with_rom(rom);
    cpu.write(0x10, 0x4);
    cpu.init();
    cpu.exec();
    assert_eq!(cpu.registers.x, 0x4);
}

#[test]
fn ldx_instruction_zero_page_y() {
    let mut rom = [0u8; 0x7fff];

    rom[0xFFFC - 0x8000] = 0x00;
    rom[0xFFFD - 0x8000] = 0x80;
    rom[0] = 0xB6;
    rom[1] = 0x10;
    let mut cpu = CPU::with_rom(rom);
    cpu.registers.y = 2;
    cpu.write(0x12, 0x4);
    cpu.init();
    cpu.exec();
    assert_eq!(cpu.registers.x, 0x4);
}

#[test]
fn ldx_instruction_abs() {
    let mut rom = [0u8; 0x7fff];

    rom[0xFFFC - 0x8000] = 0x00;
    rom[0xFFFD - 0x8000] = 0x80;
    rom[0] = 0xAE;
    rom[1] = 0x00;
    rom[2] = 0x10;
    let mut cpu = CPU::with_rom(rom);
    cpu.write(0x1000, 0x4);
    cpu.init();
    cpu.exec();
    assert_eq!(cpu.registers.x, 0x4);
}

#[test]
fn ldx_instruction_abs_y() {
    let mut rom = [0u8; 0x7fff];

    rom[0xFFFC - 0x8000] = 0x00;
    rom[0xFFFD - 0x8000] = 0x80;
    rom[0] = 0xBE;
    rom[1] = 0x00;
    rom[2] = 0x10;
    let mut cpu = CPU::with_rom(rom);
    cpu.registers.y = 2;
    cpu.write(0x1002, 0x4);
    cpu.init();
    cpu.exec();
    assert_eq!(cpu.registers.x, 0x4);
}

#[test]
fn ldy_instruction_immediate() {
    let mut rom = [0u8; 0x7fff];

    rom[0xFFFC - 0x8000] = 0x00;
    rom[0xFFFD - 0x8000] = 0x80;
    rom[0] = 0xA0;
    rom[1] = 0x10;
    let mut cpu = CPU::with_rom(rom);
    cpu.init();
    cpu.exec();
    assert_eq!(cpu.registers.y, 0x10);
}

#[test]
fn ldy_instruction_zero_page() {
    let mut rom = [0u8; 0x7fff];

    rom[0xFFFC - 0x8000] = 0x00;
    rom[0xFFFD - 0x8000] = 0x80;
    rom[0] = 0xA4;
    rom[1] = 0x10;
    let mut cpu = CPU::with_rom(rom);
    cpu.write(0x10, 0x4);
    cpu.init();
    cpu.exec();
    assert_eq!(cpu.registers.y, 0x4);
}

#[test]
fn ldy_instruction_zero_page_x() {
    let mut rom = [0u8; 0x7fff];

    rom[0xFFFC - 0x8000] = 0x00;
    rom[0xFFFD - 0x8000] = 0x80;
    rom[0] = 0xB4;
    rom[1] = 0x10;
    let mut cpu = CPU::with_rom(rom);
    cpu.registers.x = 2;
    cpu.write(0x12, 0x4);
    cpu.init();
    cpu.exec();
    assert_eq!(cpu.registers.y, 0x4);
}

#[test]
fn ldy_instruction_abs() {
    let mut rom = [0u8; 0x7fff];

    rom[0xFFFC - 0x8000] = 0x00;
    rom[0xFFFD - 0x8000] = 0x80;
    rom[0] = 0xAC;
    rom[1] = 0x00;
    rom[2] = 0x10;
    let mut cpu = CPU::with_rom(rom);
    cpu.write(0x1000, 0x4);
    cpu.init();
    cpu.exec();
    assert_eq!(cpu.registers.y, 0x4);
}

#[test]
fn ldy_instruction_abs_x() {
    let mut rom = [0u8; 0x7fff];

    rom[0xFFFC - 0x8000] = 0x00;
    rom[0xFFFD - 0x8000] = 0x80;
    rom[0] = 0xBC;
    rom[1] = 0x00;
    rom[2] = 0x10;
    let mut cpu = CPU::with_rom(rom);
    cpu.registers.x = 2;
    cpu.write(0x1002, 0x4);
    cpu.init();
    cpu.exec();
    assert_eq!(cpu.registers.y, 0x4);
}
