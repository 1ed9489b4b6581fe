use yane::Cartridge;
use yane::Memory;
use yane::PPU;

fn bus() -> Memory {
    Memory::new(Cartridge::from_rom(vec![0; 0x4000]), PPU::new())
}

#[test]
fn cartridge_claims_win_over_every_fallback() {
    let mut m = bus();
    assert!(m.cpu_write(0x8000, 7));
    assert_eq!(m.cpu_read(0x8000), Some(7));
    for i in 0..0x800 {
        assert_eq!(m.ram[i], 0);
    }
}

#[test]
fn ram_serves_low_addresses_with_mirroring() {
    let mut m = bus();
    assert!(m.cpu_write(0x0004, 10));
    assert_eq!(m.cpu_read(0x0004), Some(10));
    assert_eq!(m.cpu_read(0x0804), Some(10));
    assert_eq!(m.cpu_read(0x1804), Some(10));
    assert_eq!(m.ram[4], 10);
}

#[test]
fn the_ppu_status_register_reads_through_its_mirrored_window() {
    let m = bus();
    assert_eq!(m.cpu_read(0x2002), Some(0x80));
    assert_eq!(m.cpu_read(0x3ffa), Some(0x80));
    assert_eq!(m.cpu_read(0x2000), None);
    assert_eq!(m.cpu_read(0x2007), None);
}

#[test]
fn ppu_register_writes_are_claimed_but_dropped() {
    let mut m = bus();
    assert!(m.cpu_write(0x2005, 1));
    assert_eq!(m.cpu_read(0x2005), None);
}

#[test]
fn unmapped_addresses_read_none_and_drop_writes() {
    let mut m = bus();
    assert_eq!(m.cpu_read(0x5000), None);
    assert!(!m.cpu_write(0x5000, 3));
    assert_eq!(m.cpu_read(0x5000), None);
}

#[test]
fn the_ppu_side_of_the_bus_only_reaches_character_memory() {
    let mut bytes = vec![0x4e, 0x45, 0x53, 0x1a, 1, 0, 0, 0];
    bytes.resize(16 + 0x4000, 0);
    let cart = Cartridge::from_bytes(&bytes).unwrap();
    let mut m = Memory::new(cart, PPU::new());
    assert!(m.ppu_write(0x0040, 0x33));
    assert_eq!(m.ppu_read(0x0040), Some(0x33));
    assert_eq!(m.ppu_read(0x2000), None);
    assert!(!m.ppu_write(0x2000, 1));
}
