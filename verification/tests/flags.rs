use yane::Registers;

#[test]
fn flag_byte_round_trips_for_every_byte() {
    for b in 0..=255u8 {
        let mut r = Registers::new();
        r.set_flags_from_byte(b);
        assert_eq!(r.get_flags(), b & 0b1110_0011);
    }
}

#[test]
fn packing_then_unpacking_keeps_every_flag() {
    for b in 0..=255u8 {
        let mut r = Registers::new();
        r.set_flags_from_byte(b);
        let (n, v, i, z, c) = (r.negative, r.overflow, r.interrupt_disable, r.zero, r.carry);
        let packed = r.get_flags();
        r.set_flags_from_byte(packed);
        assert_eq!((r.negative, r.overflow, r.interrupt_disable, r.zero, r.carry), (n, v, i, z, c));
    }
}

#[test]
fn flag_byte_layout_matches_the_documented_bits() {
    let mut r = Registers::new();
    r.set_flags_from_byte(0);
    r.negative = true;
    assert_eq!(r.get_flags(), 0b0000_0001);
    r.negative = false;
    r.overflow = true;
    assert_eq!(r.get_flags(), 0b0000_0010);
    r.overflow = false;
    r.interrupt_disable = true;
    assert_eq!(r.get_flags(), 0b0010_0000);
    r.interrupt_disable = false;
    r.zero = true;
    assert_eq!(r.get_flags(), 0b0100_0000);
    r.zero = false;
    r.carry = true;
    assert_eq!(r.get_flags(), 0b1000_0000);
}
