use oled_player::color::Color;

fn encode_word(r: u8, g: u8, b: u8) -> u16 {
    Color::new(r, g, b).to_word()
}

#[test]
fn encode_white_saturates_every_field() {
    assert_eq!(encode_word(0xff, 0xff, 0xff), 0xffff);
}

#[test]
fn encode_black_is_zero() {
    assert_eq!(encode_word(0, 0, 0), 0);
}

#[test]
fn encode_exact_packing() {
    // r = 0x12 -> top 5 bits 0b00010 at bits 8..13
    // g = 0x34 -> top 3 bits 0b001 at bits 0..3 and 13..16
    // b = 0x56 -> top 5 bits 0b01010 at bits 3..8
    assert_eq!(encode_word(0x12, 0x34, 0x56), 0x2251);
}

#[test]
fn encode_pure_red_green_blue() {
    assert_eq!(encode_word(0xff, 0, 0), 0x1f00);
    assert_eq!(encode_word(0, 0xff, 0), 0xe007);
    assert_eq!(encode_word(0, 0, 0xff), 0x00f8);
}

#[test]
fn encode_truncates_low_order_channel_bits() {
    // Channels that differ only below the stored width encode identically.
    assert_eq!(encode_word(0x10, 0x20, 0x08), encode_word(0x17, 0x3f, 0x0f));
    assert_ne!(encode_word(0x10, 0x20, 0x08), encode_word(0x18, 0x20, 0x08));
}

#[test]
fn encode_deterministic() {
    for &(r, g, b) in &[(1u8, 2u8, 3u8), (200, 100, 50), (255, 0, 255)] {
        assert_eq!(encode_word(r, g, b), encode_word(r, g, b));
    }
}

#[test]
fn encode_idempotent_under_decoding() {
    for &(r, g, b) in &[(0u8, 0u8, 0u8), (0x12, 0x34, 0x56), (255, 255, 255), (31, 224, 7)] {
        let w = encode_word(r, g, b);
        let r2 = (((w >> 8) & 0x1f) << 3) as u8;
        let g2 = ((w & 0x7) << 5) as u8;
        let b2 = (((w >> 3) & 0x1f) << 3) as u8;
        assert_eq!(encode_word(r2, g2, b2), w);
        // The two green fields of the word agree.
        assert_eq!(w >> 13, w & 0x7);
    }
}
