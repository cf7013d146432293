use tag_editor::decimal::{format_i32, format_u16, parse_i32, parse_u16, parse_usize};

fn samples() -> Vec<&'static str> {
    vec![
    "", "0", "7", "007", "+7", "-7", "+", "-", "+-7", "--7", "++7", "-0", "+0", "12a", "a12", " 12",
    "12 ", "1 2", "1_000", "65535", "65536", "+65535", "-65535", "2147483647", "2147483648",
    "-2147483648", "-2147483649", "+2147483647", "99999999999999999999999999", "-99999999999999999999",
    "18446744073709551615", "18446744073709551616", "0000000000000000000000000000000001", "abc",
    "١٢٣", "1.5", "1e3", "0x10", "٣", "é",
    ]
}

#[test]
fn parse_i32_agrees_with_the_standard_library() {
    for s in samples() {
        assert_eq!(parse_i32(s), s.parse::<i32>().ok(), "input {:?}", s);
    }
}

#[test]
fn parse_u16_agrees_with_the_standard_library() {
    for s in samples() {
        assert_eq!(parse_u16(s), s.parse::<u16>().ok(), "input {:?}", s);
    }
}

#[test]
fn parse_usize_agrees_with_the_standard_library() {
    for s in samples() {
        assert_eq!(parse_usize(s), s.parse::<usize>().ok(), "input {:?}", s);
    }
}

#[test]
fn parse_i32_reads_signed_numbers() {
    assert_eq!(parse_i32("1999"), Some(1999));
    assert_eq!(parse_i32("-44"), Some(-44));
    assert_eq!(parse_i32("+2024"), Some(2024));
    assert_eq!(parse_i32("-2147483648"), Some(i32::MIN));
    assert_eq!(parse_i32("2147483647"), Some(i32::MAX));
}

#[test]
fn parse_i32_rejects_what_is_no_number() {
    assert_eq!(parse_i32("abc"), None);
    assert_eq!(parse_i32(""), None);
    assert_eq!(parse_i32("-"), None);
    assert_eq!(parse_i32("19 99"), None);
    assert_eq!(parse_i32("2147483648"), None);
    assert_eq!(parse_i32("-2147483649"), None);
}

#[test]
fn parse_u16_takes_no_minus_sign() {
    assert_eq!(parse_u16("12"), Some(12));
    assert_eq!(parse_u16("+12"), Some(12));
    assert_eq!(parse_u16("-12"), None);
    assert_eq!(parse_u16("-0"), None);
    assert_eq!(parse_u16("65535"), Some(u16::MAX));
    assert_eq!(parse_u16("65536"), None);
}

#[test]
fn parse_usize_reads_up_to_the_largest() {
    assert_eq!(parse_usize("0"), Some(0));
    assert_eq!(parse_usize("3"), Some(3));
    assert_eq!(parse_usize(&usize::MAX.to_string()), Some(usize::MAX));
    assert_eq!(parse_usize("340282366920938463463374607431768211456"), None);
}

#[test]
fn format_writes_plain_decimal_text() {
    assert_eq!(format_i32(0), "0");
    assert_eq!(format_i32(1999), "1999");
    assert_eq!(format_i32(-5), "-5");
    assert_eq!(format_i32(i32::MIN), "-2147483648");
    assert_eq!(format_i32(i32::MAX), "2147483647");
    assert_eq!(format_u16(0), "0");
    assert_eq!(format_u16(10), "10");
    assert_eq!(format_u16(u16::MAX), "65535");
}

#[test]
fn format_agrees_with_the_standard_library() {
    for v in [0, 1, 9, 10, 11, 99, 100, 101, 1000, 12345, 65535, -1, -9, -10, -65536, i32::MAX, i32::MIN] {
        assert_eq!(format_i32(v), v.to_string());
    }
    for v in 0..=u16::MAX {
        assert_eq!(format_u16(v), v.to_string());
    }
}

#[test]
fn reading_the_text_of_a_number_gives_it_back() {
    for v in [0, 1, -1, 7, 10, 1999, -1999, i32::MAX, i32::MIN] {
        assert_eq!(parse_i32(&format_i32(v)), Some(v));
    }
    for v in [0u16, 1, 9, 10, 255, 256, 65535] {
        assert_eq!(parse_u16(&format_u16(v)), Some(v));
    }
}
