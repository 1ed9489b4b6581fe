use yane::Mapper;
use yane::Mapper0;

#[test]
fn single_bank_maps_the_mirror_to_the_same_offset() {
    let m = Mapper0::new(1, 0);
    assert_eq!(m.cpu_map_read(0xc000), m.cpu_map_read(0x8000));
    assert_eq!(m.cpu_map_read(0x8000), Some(0x0000));
}

#[test]
fn two_banks_map_the_mirror_addresses_apart() {
    let m = Mapper0::new(2, 0);
    assert_eq!(m.cpu_map_read(0x8000), Some(0x0000));
    assert_eq!(m.cpu_map_read(0xc000), Some(0x4000));
    assert_ne!(m.cpu_map_read(0xc000), m.cpu_map_read(0x8000));
}

#[test]
fn addresses_below_the_cartridge_window_are_not_claimed() {
    let m = Mapper0::new(1, 0);
    assert_eq!(m.cpu_map_read(0x7fff), None);
    assert_eq!(m.cpu_map_write(0x0000), None);
    assert_eq!(m.cpu_map_write(0x8000), Some(0x0000));
}

#[test]
fn pattern_reads_pass_through_and_writes_need_character_ram() {
    let rom = Mapper0::new(1, 1);
    assert_eq!(rom.ppu_map_read(0x1fff), Some(0x1fff));
    assert_eq!(rom.ppu_map_read(0x2000), None);
    assert_eq!(rom.ppu_map_write(0x1fff), None);
    let ram = Mapper0::new(1, 0);
    assert_eq!(ram.ppu_map_write(0x1fff), Some(0x1fff));
    assert_eq!(ram.ppu_map_write(0x2000), None);
}
