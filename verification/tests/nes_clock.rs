use yane::Cartridge;
use yane::NES;

fn nop_cartridge() -> Cartridge {
    let mut rom = vec![0u8; 0x4000];
    rom[0x3ffc] = 0x00;
    rom[0x3ffd] = 0x80;
    rom[0] = 0xea;
    rom[1] = 0xea;
    Cartridge::from_rom(rom)
}

#[test]
fn the_reset_vector_seeds_the_program_counter() {
    let nes = NES::new(nop_cartridge());
    assert_eq!(nes.cpu.registers.program_counter, 0x8000);
}

#[test]
fn the_cpu_steps_once_for_every_three_ppu_ticks() {
    let mut nes = NES::new(nop_cartridge());
    // tick 1: the CPU executes the first NOP and owes two cycles
    nes.clock();
    assert_eq!(nes.cpu.registers.program_counter, 0x8001);
    assert_eq!(nes.cpu.remaining_cycles, 2);
    assert_eq!(nes.ppu().cycle, 1);
    // ticks 2 and 3 clock only the PPU
    nes.clock();
    nes.clock();
    assert_eq!(nes.cpu.registers.program_counter, 0x8001);
    assert_eq!(nes.cpu.remaining_cycles, 2);
    assert_eq!(nes.ppu().cycle, 3);
    // ticks 4 and 7 pay down the NOP's cycle debt
    for _ in 0..6 {
        nes.clock();
    }
    assert_eq!(nes.cpu.registers.program_counter, 0x8001);
    assert_eq!(nes.cpu.remaining_cycles, 0);
    // tick 10 executes the second NOP
    nes.clock();
    assert_eq!(nes.cpu.registers.program_counter, 0x8002);
    assert_eq!(nes.ppu().cycle, 10);
}

#[test]
fn accessors_reach_the_owned_collaborators() {
    let nes = NES::new(nop_cartridge());
    assert_eq!(nes.cartridge().cpu_read(0x8000), Some(0xea));
    assert_eq!(nes.memory().cpu_read(0x2002), Some(0x80));
    assert!(!nes.ppu().frame_complete);
}
