use midi2::bit_ops::{
    field_mask, half, nibble, octet, read_bits, set_half, set_nibble, set_octet, write_bits,
};
use midi2::numeric_types::{U10, U14, U20, U4, U7, U9};

#[test]
fn checked_narrowing_rejects_what_does_not_fit() {
    assert_eq!(U4::try_new(0xF), Some(U4::new(0xF)));
    assert_eq!(U4::try_new(0x10), None);
    assert_eq!(U7::try_new(0x7F), Some(U7::new(0x7F)));
    assert_eq!(U7::try_new(0x80), None);
    assert_eq!(U9::try_new(0x1FF), Some(U9::new(0x1FF)));
    assert_eq!(U9::try_new(0x200), None);
    assert_eq!(U10::try_new(0x3FF), Some(U10::new(0x3FF)));
    assert_eq!(U10::try_new(0x400), None);
    assert_eq!(U14::try_new(0x3FFF), Some(U14::new(0x3FFF)));
    assert_eq!(U14::try_new(0x4000), None);
    assert_eq!(U20::try_new(0xF_FFFF), Some(U20::new(0xF_FFFF)));
    assert_eq!(U20::try_new(0x10_0000), None);
}

#[test]
fn truncation_drops_the_high_bits() {
    assert_eq!(U4::truncate(0x1234_5678), U4::new(0x8));
    assert_eq!(U7::truncate(0xFFFF_FFFF), U7::new(0x7F));
    assert_eq!(U9::truncate(0x3333), U9::new(0x133));
    assert_eq!(U10::truncate(0xFFFF), U10::new(0x3FF));
    assert_eq!(U14::truncate(0xFFFF), U14::new(0x3FFF));
    assert_eq!(U20::truncate(0xFFF0_0001), U20::new(0x1));
}

#[test]
fn widening_gives_the_held_number() {
    assert_eq!(U4::new(0xA).value(), 0xA_u8);
    assert_eq!(U7::new(0x63).as_u32(), 0x63_u32);
    assert_eq!(U14::new(0x367D).value(), 0x367D_u16);
    assert_eq!(U20::new(0xF_0000).value(), 0xF_0000_u32);
}

#[test]
fn bit_fields_of_a_word() {
    assert_eq!(field_mask(0), 0x0);
    assert_eq!(field_mask(7), 0x7F);
    assert_eq!(field_mask(32), 0xFFFF_FFFF);
    assert_eq!(read_bits(0x2AB7_3637, 8, 7), 0x36);
    assert_eq!(read_bits(0x2AB7_3637, 0, 32), 0x2AB7_3637);
    assert_eq!(write_bits(0xFFFF_FFFF, 8, 7, 0x00), 0xFFFF_80FF);
    assert_eq!(write_bits(0x0000_0000, 8, 7, 0xFF), 0x0000_7F00);
}

#[test]
fn named_parts_of_a_word() {
    let word = 0x2AB7_3637_u32;
    assert_eq!(nibble(word, 0), U4::new(0x2));
    assert_eq!(nibble(word, 1), U4::new(0xA));
    assert_eq!(nibble(word, 7), U4::new(0x7));
    assert_eq!(octet(word, 0), 0x2A);
    assert_eq!(octet(word, 3), 0x37);
    assert_eq!(half(word, 0), 0x2AB7);
    assert_eq!(half(word, 1), 0x3637);
    let mut word = 0x0_u32;
    set_nibble(&mut word, 1, U4::new(0xA));
    set_octet(&mut word, 2, 0x36);
    set_half(&mut word, 0, 0x2AB7);
    set_octet(&mut word, 3, 0x37);
    assert_eq!(word, 0x2AB7_3637);
}
