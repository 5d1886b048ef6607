use snescli::num::parse_num;

#[test]
fn decimal_simple() {
    assert_eq!(parse_num("123"), Some(123));
}

#[test]
fn decimal_zero() {
    assert_eq!(parse_num("0"), Some(0));
}

#[test]
fn decimal_leading_zero() {
    assert_eq!(parse_num("010"), Some(10));
}

#[test]
fn hex_simple() {
    assert_eq!(parse_num("0x1F"), Some(31));
}

#[test]
fn hex_lowercase_digits() {
    assert_eq!(parse_num("0xff"), Some(255));
}

#[test]
fn hex_address_sized() {
    assert_eq!(parse_num("0xF50010"), Some(0xF50010));
}

#[test]
fn decimal_max() {
    assert_eq!(parse_num("4294967295"), Some(u32::MAX));
}

#[test]
fn hex_max() {
    assert_eq!(parse_num("0xFFFFFFFF"), Some(u32::MAX));
}

#[test]
fn decimal_overflow() {
    assert_eq!(parse_num("4294967296"), None);
}

#[test]
fn hex_overflow() {
    assert_eq!(parse_num("0x100000000"), None);
}

#[test]
fn empty_input() {
    assert_eq!(parse_num(""), None);
}

#[test]
fn bare_hex_prefix() {
    assert_eq!(parse_num("0x"), None);
}

#[test]
fn stray_letter() {
    assert_eq!(parse_num("12a"), None);
}

#[test]
fn hex_digit_without_prefix() {
    assert_eq!(parse_num("1F"), None);
}

#[test]
fn negative_rejected() {
    assert_eq!(parse_num("-1"), None);
}
