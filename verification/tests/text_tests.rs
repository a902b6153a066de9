use reaper_core::numeric::{
    parse_hex_u64, parse_i32, parse_u16, parse_u32, parse_u64, write_decimal, write_lower_hex,
    write_signed_decimal,
};
use reaper_core::split::{join_with, split_fields, split_lines};
use reaper_core::text::{
    chars_of, contains_pattern, find_at_or_after, find_first, find_last, has_prefix,
    is_whitespace, matches_at_index, same_chars, slice_of, trimmed,
};

fn c(s: &str) -> Vec<char> {
    s.chars().collect()
}

fn s(v: &Vec<char>) -> String {
    v.iter().collect()
}

fn strings(v: &Vec<Vec<char>>) -> Vec<String> {
    v.iter().map(s).collect()
}

#[test]
fn test_chars_of() {
    assert_eq!(chars_of("héllo"), vec!['h', 'é', 'l', 'l', 'o']);
    assert!(chars_of("").is_empty());
}

#[test]
fn test_find() {
    assert_eq!(find_first(&c("abcabc"), &c("bc")), Some(1));
    assert_eq!(find_last(&c("abcabc"), &c("bc")), Some(4));
    assert_eq!(find_first(&c("abcabc"), &c("x")), None);
    assert_eq!(find_last(&c("abcabc"), &c("x")), None);
    assert_eq!(find_first(&c("abc"), &c("")), Some(0));
    assert_eq!(find_last(&c("abc"), &c("")), Some(3));
    assert_eq!(find_first(&c(""), &c("")), Some(0));
    assert_eq!(find_first(&c("ab"), &c("abc")), None);
    assert_eq!(find_last(&c("ab"), &c("abc")), None);
    assert_eq!(find_at_or_after(&c("abcabc"), &c("a"), 1), Some(3));
    assert_eq!(find_at_or_after(&c("abcabc"), &c("a"), 4), None);
    assert_eq!(find_at_or_after(&c("abc"), &c("a"), 10), None);
    assert!(contains_pattern(&c("hello world"), &c("o w")));
    assert!(!contains_pattern(&c("hello world"), &c("ow")));
    assert!(has_prefix(&c("Thread 1"), &c("Thread ")));
    assert!(!has_prefix(&c(" Thread 1"), &c("Thread ")));
    assert!(matches_at_index(&c("abc"), &c("bc"), 1));
    assert!(!matches_at_index(&c("abc"), &c("bc"), 2));
    assert!(same_chars(&c("x"), &c("x")));
    assert!(!same_chars(&c("x"), &c("xy")));
    assert_eq!(s(&slice_of(&c("hello"), 1, 3)), "el");
}

#[test]
fn test_trim() {
    assert_eq!(s(&trimmed(&c("  a b \t\r\n"))), "a b");
    assert_eq!(s(&trimmed(&c("\u{3000}x\u{a0}"))), "x");
    assert_eq!(s(&trimmed(&c("   "))), "");
    assert_eq!(s(&trimmed(&c(""))), "");
    assert_eq!(s(&trimmed(&c("x"))), "x");
    for ch in ['\t', '\n', '\u{b}', '\u{c}', '\r', ' ', '\u{85}', '\u{a0}', '\u{1680}', '\u{2000}',
        '\u{200a}', '\u{2028}', '\u{2029}', '\u{202f}', '\u{205f}', '\u{3000}']
    {
        assert!(is_whitespace(ch));
    }
    for ch in ['a', '\u{8}', '\u{e}', '\u{200b}', '\u{180e}', '0', '\u{feff}'] {
        assert!(!is_whitespace(ch));
    }
    for code in 0..0x3100u32 {
        if let Some(ch) = char::from_u32(code) {
            assert_eq!(is_whitespace(ch), ch.is_whitespace(), "U+{:04X}", code);
        }
    }
}

#[test]
fn test_lines() {
    for text in ["", "a", "a\n", "a\nb", "a\r\nb\r\n", "\n", "\n\n", "a\n\nb", "a\r", "\r\n", "a\rb\nc", "x\n\r"] {
        let expected: Vec<String> = text.lines().map(|l| l.to_string()).collect();
        assert_eq!(strings(&split_lines(&c(text))), expected, "{:?}", text);
    }
}

#[test]
fn test_fields() {
    for text in ["", " ", "a", "  a  b\tc\n", "one", " lead", "trail ", "a\u{a0}b"] {
        let expected: Vec<String> = text.split_whitespace().map(|l| l.to_string()).collect();
        assert_eq!(strings(&split_fields(&c(text))), expected, "{:?}", text);
    }
}

#[test]
fn test_join() {
    assert_eq!(s(&join_with(&vec![], &c(", "))), "");
    assert_eq!(s(&join_with(&vec![c("a")], &c(", "))), "a");
    assert_eq!(s(&join_with(&vec![c("a"), c(""), c("b")], &c(", "))), "a, , b");
}

#[test]
fn test_parse_unsigned() {
    assert_eq!(parse_u64(&c("0")), Some(0));
    assert_eq!(parse_u64(&c("007")), Some(7));
    assert_eq!(parse_u64(&c("+7")), Some(7));
    assert_eq!(parse_u64(&c("18446744073709551615")), Some(u64::MAX));
    assert_eq!(parse_u64(&c("18446744073709551616")), None);
    assert_eq!(parse_u64(&c("99999999999999999999999")), None);
    assert_eq!(parse_u64(&c("")), None);
    assert_eq!(parse_u64(&c("+")), None);
    assert_eq!(parse_u64(&c("-1")), None);
    assert_eq!(parse_u64(&c("1 ")), None);
    assert_eq!(parse_u64(&c("++1")), None);
    assert_eq!(parse_u64(&c("1a")), None);
    assert_eq!(parse_u32(&c("4294967295")), Some(u32::MAX));
    assert_eq!(parse_u32(&c("4294967296")), None);
    assert_eq!(parse_u16(&c("65535")), Some(65535));
    assert_eq!(parse_u16(&c("65536")), None);
    assert_eq!(parse_u16(&c("٣")), None);
    assert_eq!(parse_hex_u64(&c("ff")), Some(255));
    assert_eq!(parse_hex_u64(&c("FfFf")), Some(65535));
    assert_eq!(parse_hex_u64(&c("ffffffffffffffff")), Some(u64::MAX));
    assert_eq!(parse_hex_u64(&c("10000000000000000")), None);
    assert_eq!(parse_hex_u64(&c("0x10")), None);
    assert_eq!(parse_hex_u64(&c("g")), None);
    assert_eq!(parse_hex_u64(&c("")), None);
    for text in ["12", "+12", "0", "", "+", "-", "abc", "65535", "65536", "000001"] {
        assert_eq!(parse_u16(&c(text)), text.parse::<u16>().ok(), "{:?}", text);
        assert_eq!(parse_hex_u64(&c(text)), u64::from_str_radix(text, 16).ok(), "{:?}", text);
    }
}

#[test]
fn test_parse_signed() {
    for text in ["0", "-0", "+0", "5", "-5", "+5", "2147483647", "2147483648", "-2147483648",
        "-2147483649", "", "-", "+", "--1", "-+1", "+-1", "1-", " 1", "00012", "-00012"]
    {
        assert_eq!(parse_i32(&c(text)), text.parse::<i32>().ok(), "{:?}", text);
    }
}

#[test]
fn test_write_numbers() {
    for n in [0u64, 1, 9, 10, 15, 16, 255, 256, 1000, 4095, 4096, u32::MAX as u64, u64::MAX] {
        assert_eq!(s(&write_decimal(n)), format!("{}", n));
        assert_eq!(s(&write_lower_hex(n)), format!("{:x}", n));
        assert_eq!(parse_u64(&write_decimal(n)), Some(n));
        assert_eq!(parse_hex_u64(&write_lower_hex(n)), Some(n));
    }
    for n in [0i64, -1, 1, -10, i64::MIN, i64::MAX, i32::MIN as i64] {
        assert_eq!(s(&write_signed_decimal(n)), format!("{}", n));
    }
}
