use markdown_checker::text::{push_code_point, push_decimal, push_upper_hex};

fn decimal(n: usize) -> String {
    let mut out = String::new();
    push_decimal(&mut out, n);
    out
}

fn hex(n: u32) -> String {
    let mut out = String::new();
    push_upper_hex(&mut out, n);
    out
}

fn code_point(c: char) -> String {
    let mut out = String::new();
    push_code_point(&mut out, c);
    out
}

#[test]
fn decimal_has_no_leading_zeros() {
    assert_eq!(decimal(0), "0");
    assert_eq!(decimal(7), "7");
    assert_eq!(decimal(10), "10");
    assert_eq!(decimal(1234567890), "1234567890");
    assert_eq!(decimal(usize::MAX), usize::MAX.to_string());
}

#[test]
fn decimal_is_appended_to_what_is_there() {
    let mut out = String::from("Line ");
    push_decimal(&mut out, 42);
    assert_eq!(out, "Line 42");
}

#[test]
fn hex_is_upper_case_without_leading_zeros() {
    assert_eq!(hex(0), "0");
    assert_eq!(hex(0xA), "A");
    assert_eq!(hex(0xFF), "FF");
    assert_eq!(hex(0x2500), "2500");
    assert_eq!(hex(0xABCDEF), "ABCDEF");
    assert_eq!(hex(u32::MAX), "FFFFFFFF");
}

#[test]
fn code_points_have_at_least_four_digits() {
    assert_eq!(code_point('\0'), "0000");
    assert_eq!(code_point('\u{7}'), "0007");
    assert_eq!(code_point('A'), "0041");
    assert_eq!(code_point('é'), "00E9");
    assert_eq!(code_point('\u{FFF}'), "0FFF");
    assert_eq!(code_point('├'), "251C");
    assert_eq!(code_point('\u{FFFF}'), "FFFF");
    assert_eq!(code_point('👋'), "1F44B");
    assert_eq!(code_point('\u{10FFFF}'), "10FFFF");
}

#[test]
fn code_points_agree_with_the_standard_formatting() {
    for c in ['\0', ' ', '~', '\u{80}', 'ÿ', 'Ā', '\u{FFF}', '\u{1000}', '─', '\u{10000}'] {
        assert_eq!(code_point(c), format!("{:04X}", c as u32));
    }
}
