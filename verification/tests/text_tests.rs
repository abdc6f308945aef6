use ax206lcd::text::{parse_u16, same_text, to_decimal, to_hex4};

#[test]
fn decimal_text_of_numbers() {
    assert_eq!(to_decimal(0), "0");
    assert_eq!(to_decimal(7), "7");
    assert_eq!(to_decimal(10), "10");
    assert_eq!(to_decimal(12345), "12345");
    assert_eq!(to_decimal(u64::MAX), "18446744073709551615");
}

#[test]
fn decimal_text_agrees_with_the_standard_library() {
    let mut n: u64 = 0;
    for step in 0..2000u64 {
        assert_eq!(to_decimal(n), n.to_string());
        n = n.wrapping_mul(31).wrapping_add(step * step + 1);
    }
}

#[test]
fn hex_text_has_prefix_and_four_digits() {
    assert_eq!(to_hex4(0x1908), "0x1908");
    assert_eq!(to_hex4(0x0102), "0x0102");
    assert_eq!(to_hex4(0), "0x0000");
    assert_eq!(to_hex4(0xABCD), "0xabcd");
    assert_eq!(to_hex4(0xFFFF), "0xffff");
}

#[test]
fn hex_text_agrees_with_the_standard_library() {
    for v in 0..=u16::MAX {
        assert_eq!(to_hex4(v), format!("{:#06x}", v));
    }
}

#[test]
fn numbers_are_read_in_decimal() {
    assert_eq!(parse_u16("0", 10), Some(0));
    assert_eq!(parse_u16("6408", 10), Some(6408));
    assert_eq!(parse_u16("65535", 10), Some(65535));
    assert_eq!(parse_u16("+12", 10), Some(12));
    assert_eq!(parse_u16("000012", 10), Some(12));
}

#[test]
fn numbers_are_read_in_hexadecimal() {
    assert_eq!(parse_u16("1908", 16), Some(0x1908));
    assert_eq!(parse_u16("abcd", 16), Some(0xABCD));
    assert_eq!(parse_u16("ABCD", 16), Some(0xABCD));
    assert_eq!(parse_u16("ffff", 16), Some(0xFFFF));
    assert_eq!(parse_u16("+f", 16), Some(15));
}

#[test]
fn text_that_is_no_number_is_refused() {
    for text in ["", "+", "-", "-1", " 1", "1 ", "1_0", "12a", "0x10", "++1", "١٢", "1.0"] {
        assert_eq!(parse_u16(text, 10), None, "{:?}", text);
    }
    for text in ["", "+", "g", "0x10", "-f", "ff ", "f_f"] {
        assert_eq!(parse_u16(text, 16), None, "{:?}", text);
    }
}

#[test]
fn numbers_beyond_sixteen_bits_are_refused() {
    assert_eq!(parse_u16("65536", 10), None);
    assert_eq!(parse_u16("99999999999999999999999999", 10), None);
    assert_eq!(parse_u16("10000", 16), None);
    assert_eq!(parse_u16("fffffffffffffffffffff", 16), None);
}

#[test]
fn reading_agrees_with_the_standard_library() {
    let samples = [
        "", "0", "1", "9", "10", "255", "256", "65535", "65536", "70000", "+0", "+65535", "+65536",
        "-0", "a", "f", "F", "ff", "FFFF", "10000", "1g", "g1", "0x1", "007", "+", "++", "+-1",
        " 12", "12 ", "1 2", "é", "12é", "١", "0000000000000000000012", "0000000000000000065536",
    ];
    for text in samples {
        assert_eq!(parse_u16(text, 10), u16::from_str_radix(text, 10).ok(), "{:?}", text);
        assert_eq!(parse_u16(text, 16), u16::from_str_radix(text, 16).ok(), "{:?}", text);
        assert_eq!(parse_u16(text, 10), text.parse::<u16>().ok(), "{:?}", text);
    }
    for v in (0..=u16::MAX).step_by(7) {
        assert_eq!(parse_u16(&v.to_string(), 10), Some(v));
        assert_eq!(parse_u16(&format!("{:x}", v), 16), Some(v));
        assert_eq!(parse_u16(&format!("{:X}", v), 16), Some(v));
    }
}

#[test]
fn same_text_compares_characters() {
    assert!(same_text("", ""));
    assert!(same_text("info", "info"));
    assert!(!same_text("info", "Info"));
    assert!(!same_text("info", "inf"));
}
