use ax206lcd::command::{parse_dimensions, CommandBlock};
use ax206lcd::error::AX206Error;

#[test]
fn dimension_query_block() {
    let block = CommandBlock::query_dimensions();
    assert_eq!(block.bytes(), &[0xCD, 0, 0, 0, 0, 0x02, 0, 0, 0, 0, 0, 0, 0, 0, 0, 0]);
}

#[test]
fn backlight_block_carries_level() {
    for level in 0..=7u8 {
        let block = CommandBlock::backlight(level).unwrap();
        assert_eq!(
            block.bytes(),
            &[0xCD, 0, 0, 0, 0, 0x06, 0x01, 0x01, 0x00, level, 0, 0, 0, 0, 0, 0]
        );
    }
}

#[test]
fn backlight_block_refuses_levels_above_seven() {
    for level in 8..=255u8 {
        match CommandBlock::backlight(level) {
            Err(e) => assert_eq!(e, AX206Error::InvalidBrightness(level)),
            Ok(_) => panic!("level {} was accepted", level),
        }
    }
}

#[test]
fn blit_block_packs_little_endian_corners() {
    let block = CommandBlock::blit(0, 0, 479, 319);
    assert_eq!(
        block.bytes(),
        &[0xCD, 0, 0, 0, 0, 0x06, 0x12, 0x00, 0x00, 0x00, 0x00, 0xDF, 0x01, 0x3F, 0x01, 0x00]
    );
    let block = CommandBlock::blit(0x0102, 0x0304, 0xFFFE, 0xABCD);
    assert_eq!(
        block.bytes(),
        &[0xCD, 0, 0, 0, 0, 0x06, 0x12, 0x02, 0x01, 0x04, 0x03, 0xFE, 0xFF, 0xCD, 0xAB, 0x00]
    );
}

#[test]
fn every_block_starts_with_the_protocol_tag() {
    assert_eq!(CommandBlock::query_dimensions().bytes()[0], 0xCD);
    assert_eq!(CommandBlock::backlight(0).unwrap().bytes()[0], 0xCD);
    assert_eq!(CommandBlock::blit(1, 2, 3, 4).bytes()[0], 0xCD);
}

#[test]
fn dimension_response_decodes_to_480_by_320() {
    assert_eq!(parse_dimensions(&[0xE0, 0x01, 0x40, 0x01, 0xFF]), (480, 320));
}

#[test]
fn dimension_response_ignores_the_reserved_byte() {
    assert_eq!(parse_dimensions(&[0x01, 0x00, 0x02, 0x00, 0x00]), (1, 2));
    assert_eq!(parse_dimensions(&[0x01, 0x00, 0x02, 0x00, 0x77]), (1, 2));
    assert_eq!(parse_dimensions(&[0xFF, 0xFF, 0xFF, 0xFF, 0x00]), (65535, 65535));
}

#[test]
fn short_dimension_response_counts_missing_bytes_as_zero() {
    assert_eq!(parse_dimensions(&[]), (0, 0));
    assert_eq!(parse_dimensions(&[0xE0]), (0xE0, 0));
    assert_eq!(parse_dimensions(&[0xE0, 0x01, 0x40]), (480, 0x40));
}
