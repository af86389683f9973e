use gfycat_transfer::text::decimal;
use gfycat_transfer::text::joined;

#[test]
fn decimal_numerals() {
    assert_eq!(decimal(0), "0");
    assert_eq!(decimal(7), "7");
    assert_eq!(decimal(9), "9");
    assert_eq!(decimal(10), "10");
    assert_eq!(decimal(101), "101");
    assert_eq!(decimal(65535), "65535");
    assert_eq!(decimal(1234567890), "1234567890");
    assert_eq!(decimal(u64::MAX), "18446744073709551615");
}

#[test]
fn decimal_agrees_with_the_standard_formatting() {
    let mut n: u64 = 1;
    for _ in 0..64 {
        assert_eq!(decimal(n), format!("{}", n));
        assert_eq!(decimal(n - 1), format!("{}", n - 1));
        n = n.wrapping_mul(2);
    }
}

#[test]
fn joined_puts_one_text_behind_another() {
    assert_eq!(joined("abc", "def"), "abcdef");
    assert_eq!(joined("", "x"), "x");
    assert_eq!(joined("x", ""), "x");
    assert_eq!(joined("", ""), "");
}

#[test]
fn trim_takes_white_space_off_both_ends() {
    assert_eq!(gfycat_transfer::text::trim("  a b \t\r\n"), "a b");
    assert_eq!(gfycat_transfer::text::trim("a"), "a");
    assert_eq!(gfycat_transfer::text::trim(""), "");
    assert_eq!(gfycat_transfer::text::trim(" \n\t "), "");
    assert_eq!(gfycat_transfer::text::trim("\u{3000}caf\u{e9}\u{a0}x\u{2028}"), "caf\u{e9}\u{a0}x");
    assert_eq!(gfycat_transfer::text::trim("x\u{200b}"), "x\u{200b}");
    for line in ["  id\n", "\u{1f600} ", " a  b ", "\u{85}z\u{85}"] {
        assert_eq!(gfycat_transfer::text::trim(line), line.trim());
    }
}
