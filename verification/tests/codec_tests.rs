use ax206lcd::codec::{decode_rgb565, encode_rgb565, rgba_to_rgb565, solid_rgb565};
use ax206lcd::frame::RgbaFrame;

#[test]
fn encode_packs_five_six_five() {
    assert_eq!(encode_rgb565(0xFF, 0xFF, 0xFF), (0xFF, 0xFF));
    assert_eq!(encode_rgb565(0, 0, 0), (0, 0));
    assert_eq!(encode_rgb565(0xFF, 0, 0), (0xF8, 0x00));
    assert_eq!(encode_rgb565(0, 0xFF, 0), (0x07, 0xE0));
    assert_eq!(encode_rgb565(0, 0, 0xFF), (0x00, 0x1F));
    // 0x12 = 0001_0010, 0x34 = 0011_0100, 0x56 = 0101_0110
    assert_eq!(encode_rgb565(0x12, 0x34, 0x56), (0x11, 0xAA));
}

#[test]
fn encode_drops_low_bits_only() {
    assert_eq!(encode_rgb565(0x07, 0x03, 0x07), (0, 0));
    assert_eq!(encode_rgb565(0x08, 0x04, 0x08), (0x08, 0x21));
}

#[test]
fn decode_replicates_top_bits() {
    assert_eq!(decode_rgb565(0xFF, 0xFF), (0xFF, 0xFF, 0xFF));
    assert_eq!(decode_rgb565(0, 0), (0, 0, 0));
    assert_eq!(decode_rgb565(0xF8, 0x00), (0xFF, 0, 0));
    assert_eq!(decode_rgb565(0x07, 0xE0), (0, 0xFF, 0));
    assert_eq!(decode_rgb565(0x00, 0x1F), (0, 0, 0xFF));
    assert_eq!(decode_rgb565(0x11, 0xAA), (0x10, 0x34, 0x52));
}

#[test]
fn round_trip_stays_within_bounds() {
    for r in 0..=255u8 {
        for g in 0..=255u8 {
            for b in (0..=255u8).step_by(3) {
                let (b0, b1) = encode_rgb565(r, g, b);
                let (r2, g2, b2) = decode_rgb565(b0, b1);
                assert!((r as i32 - r2 as i32).abs() <= 7);
                assert!((g as i32 - g2 as i32).abs() <= 3);
                assert!((b as i32 - b2 as i32).abs() <= 7);
            }
        }
    }
}

#[test]
fn frame_is_packed_in_order_without_alpha() {
    let pixels = vec![
        0xFF, 0x00, 0x00, 0x10, // red
        0x00, 0xFF, 0x00, 0x20, // green
        0x00, 0x00, 0xFF, 0x30, // blue
        0x12, 0x34, 0x56, 0x00, // translucent: alpha does not matter
    ];
    let frame = RgbaFrame::new(2, 2, pixels).unwrap();
    assert_eq!(
        rgba_to_rgb565(&frame),
        vec![0xF8, 0x00, 0x07, 0xE0, 0x00, 0x1F, 0x11, 0xAA]
    );
}

#[test]
fn empty_frame_packs_to_nothing() {
    let frame = RgbaFrame::new(0, 7, Vec::new()).unwrap();
    assert_eq!(rgba_to_rgb565(&frame), Vec::<u8>::new());
}

#[test]
fn solid_buffer_repeats_one_pixel() {
    assert_eq!(solid_rgb565(3, 0x12, 0x34, 0x56), vec![0x11, 0xAA, 0x11, 0xAA, 0x11, 0xAA]);
    assert_eq!(solid_rgb565(0, 1, 2, 3), Vec::<u8>::new());
}

#[test]
fn frame_rejects_wrong_buffer_length() {
    assert!(RgbaFrame::new(2, 2, vec![0; 15]).is_none());
    assert!(RgbaFrame::new(2, 2, vec![0; 17]).is_none());
    assert!(RgbaFrame::new(2, 2, vec![0; 16]).is_some());
    assert!(RgbaFrame::new(0, 0, Vec::new()).is_some());
}

#[test]
fn black_frame_is_opaque_black() {
    let frame = RgbaFrame::black(3, 2);
    assert_eq!(frame.width(), 3);
    assert_eq!(frame.height(), 2);
    assert_eq!(frame.pixels().len(), 24);
    for px in frame.pixels().chunks(4) {
        assert_eq!(px, &[0, 0, 0, 255]);
    }
}
