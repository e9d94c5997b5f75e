use oled_player::color::Color;
use oled_player::framebuffer::{FrameBuffer, WIDTH, HEIGHT};

#[test]
fn new_buffer_is_zeroed_and_sized() {
    let fb = FrameBuffer::new();
    let raw = fb.raw_bytes();
    assert_eq!(raw.len(), WIDTH * HEIGHT * 2);
    assert!(raw.iter().all(|&b| b == 0));
}

#[test]
fn set_writes_big_endian_pair_at_offset() {
    let mut fb = FrameBuffer::new();
    let c = Color::new(0x12, 0x34, 0x56);
    let w = c.to_word();
    assert!(fb.set(1, 2, c).is_ok());
    let idx = (2 * WIDTH + 1) * 2;
    let raw = fb.raw_bytes();
    assert_eq!(raw[idx], (w >> 8) as u8);
    assert_eq!(raw[idx + 1], (w & 0xff) as u8);
    // Reading the pair back high byte first recovers the pixel word.
    assert_eq!(((raw[idx] as u16) << 8) | raw[idx + 1] as u16, w);
    // No other byte was touched.
    for (i, &b) in raw.iter().enumerate() {
        if i != idx && i != idx + 1 {
            assert_eq!(b, 0);
        }
    }
}

#[test]
fn set_corners() {
    let mut fb = FrameBuffer::new();
    let c = Color::new(0xff, 0xff, 0xff);
    assert!(fb.set(0, 0, c).is_ok());
    assert!(fb.set(WIDTH - 1, HEIGHT - 1, c).is_ok());
    let raw = fb.raw_bytes();
    assert_eq!(raw[0], 0xff);
    assert_eq!(raw[1], 0xff);
    assert_eq!(raw[raw.len() - 2], 0xff);
    assert_eq!(raw[raw.len() - 1], 0xff);
}

#[test]
fn set_out_of_bounds_fails_and_leaves_buffer_unmodified() {
    let mut fb = FrameBuffer::new();
    let c = Color::new(0xff, 0xff, 0xff);
    assert!(fb.set(WIDTH, 0, c).is_err());
    assert!(fb.set(0, HEIGHT, c).is_err());
    assert!(fb.set(usize::MAX, usize::MAX, c).is_err());
    assert!(fb.raw_bytes().iter().all(|&b| b == 0));
}
