use yane::Cartridge;
use yane::LoadError;

fn ines_image(prg_banks: u8, chr_banks: u8, mapper1: u8, mapper2: u8) -> Vec<u8> {
    let mut bytes = vec![0x4e, 0x45, 0x53, 0x1a, prg_banks, chr_banks, mapper1, mapper2];
    bytes.resize(16, 0);
    bytes.resize(16 + prg_banks as usize * 0x4000 + chr_banks as usize * 0x2000, 0);
    bytes
}

#[test]
fn parses_a_plain_image_and_serves_program_bytes() {
    let mut bytes = ines_image(1, 1, 0, 0);
    bytes[16] = 0xab;
    bytes[16 + 0x4000] = 0xcd;
    let cart = Cartridge::from_bytes(&bytes).unwrap();
    assert_eq!(cart.cpu_read(0x8000), Some(0xab));
    assert_eq!(cart.ppu_read(0x0000), Some(0xcd));
    assert_eq!(cart.cpu_read(0x7fff), None);
}

#[test]
fn single_bank_image_mirrors_across_the_cpu_window() {
    let mut bytes = ines_image(1, 1, 0, 0);
    bytes[16] = 0x5a;
    let cart = Cartridge::from_bytes(&bytes).unwrap();
    assert_eq!(cart.cpu_read(0xc000), cart.cpu_read(0x8000));
}

#[test]
fn two_bank_image_does_not_mirror() {
    let mut bytes = ines_image(2, 1, 0, 0);
    bytes[16] = 0x11;
    bytes[16 + 0x4000] = 0x22;
    let cart = Cartridge::from_bytes(&bytes).unwrap();
    assert_eq!(cart.cpu_read(0x8000), Some(0x11));
    assert_eq!(cart.cpu_read(0xc000), Some(0x22));
}

#[test]
fn an_image_without_character_banks_gets_character_ram() {
    let bytes = ines_image(1, 0, 0, 0);
    let mut cart = Cartridge::from_bytes(&bytes).unwrap();
    assert_eq!(cart.ppu_read(0x0123), Some(0));
    assert!(cart.ppu_write(0x0123, 9));
    assert_eq!(cart.ppu_read(0x0123), Some(9));
}

#[test]
fn character_rom_rejects_writes() {
    let bytes = ines_image(1, 1, 0, 0);
    let mut cart = Cartridge::from_bytes(&bytes).unwrap();
    assert!(!cart.ppu_write(0x0123, 9));
    assert_eq!(cart.ppu_read(0x0123), Some(0));
}

#[test]
fn a_header_shorter_than_sixteen_bytes_is_truncated() {
    assert_eq!(Cartridge::from_bytes(&vec![0x4e, 0x45, 0x53]).err(), Some(LoadError::Truncated));
}

#[test]
fn wrong_magic_bytes_are_rejected() {
    let mut bytes = ines_image(1, 1, 0, 0);
    bytes[0] = 0x4d;
    assert_eq!(Cartridge::from_bytes(&bytes).err(), Some(LoadError::BadMagic));
}

#[test]
fn an_extended_layout_flag_is_rejected() {
    let bytes = ines_image(1, 1, 0, 0x08);
    assert_eq!(Cartridge::from_bytes(&bytes).err(), Some(LoadError::UnsupportedFileType));
}

#[test]
fn a_mapper_other_than_nrom_is_rejected_with_its_number() {
    let bytes = ines_image(1, 1, 0x10, 0);
    assert_eq!(Cartridge::from_bytes(&bytes).err(), Some(LoadError::UnsupportedMapper(1)));
}

#[test]
fn a_header_declaring_no_program_banks_is_rejected() {
    let bytes = ines_image(0, 1, 0, 0);
    assert_eq!(Cartridge::from_bytes(&bytes).err(), Some(LoadError::NoPrgBanks));
}

#[test]
fn data_shorter_than_the_declared_banks_is_truncated() {
    let mut bytes = ines_image(1, 1, 0, 0);
    bytes.truncate(100);
    assert_eq!(Cartridge::from_bytes(&bytes).err(), Some(LoadError::Truncated));
}
