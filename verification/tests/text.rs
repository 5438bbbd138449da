//! Characters, words and numbers.
use nanochrono::bytes::{bytes_are, test32, test64, twelve_bytes, until_nul};
use nanochrono::num::{div_ceil_8, min_usize, saturating_mul, saturating_mul_u64};
use nanochrono::text::{
    any_is, chars_of, contains, cut_before, decimal_text, find, lines, lower, parse_i32,
    parse_i64, parse_unsigned, push_decimal_left, push_hex, push_hex_0x, push_hex_raised,
    push_padded_left, push_padded_right, push_raised, push_repeated, push_signed,
    push_thousandths, push_two_digits, same_text, space, split_last, split_once, split_words,
    starts_with, string_of, strip_prefix, to_lower, trim, Trim,
};

fn text(chars: &[char]) -> String {
    string_of(chars)
}

#[test]
fn parts_are_split_at_the_first_and_at_the_last() {
    let s = chars_of("a=b=c");
    let (key, value) = split_once(&s, '=').expect("a key");
    assert_eq!((text(key), text(value)), ("a".to_string(), "b=c".to_string()));
    let (name, last) = split_last(&s, '=').expect("a name");
    assert_eq!((text(name), text(last)), ("a=b".to_string(), "c".to_string()));
    assert!(split_once(&s, ';').is_none() && split_last(&s, ';').is_none());
    assert_eq!(find(&s, '='), 1);
    assert_eq!(find(&s, ';'), 5);
}

#[test]
fn lines_and_words_are_taken_apart() {
    let s = chars_of("one two\r\n\n three");
    let all: Vec<String> = lines(&s).into_iter().map(text).collect();
    assert_eq!(all, vec!["one two", "", " three"]);
    let words: Vec<String> = split_words(&s).into_iter().map(text).collect();
    assert_eq!(words, vec!["one", "two", "three"]);
    assert!(any_is(&split_words(&s), "two") && !any_is(&split_words(&s), "tw"));
}

#[test]
fn white_space_is_trimmed() {
    assert_eq!(text(trim(&chars_of(" \t a b \n"), Trim::Space)), "a b");
    assert_eq!(text(trim(&chars_of("\0 a\0"), Trim::SpaceOrNul)), "a");
    assert_eq!(text(trim(&chars_of("\0 a\0"), Trim::Nul)), " a");
    assert!(space('\u{a0}') && space('\u{2003}') && !space('x'));
}

#[test]
fn case_is_folded() {
    assert_eq!(text(&to_lower(&chars_of("KVM-Clock 2"))), "kvm-clock 2");
    assert_eq!(lower('Z'), 'z');
    let mut out = String::new();
    push_raised(&mut out, "avx2");
    assert_eq!(out, "AVX2");
}

#[test]
fn parts_are_found_inside() {
    let s = chars_of("Standard PC (Q35)");
    assert!(contains(&s, "PC") && !contains(&s, "pc") && contains(&s, ""));
    assert!(starts_with(&s, "Stand") && !starts_with(&s, "and"));
    assert_eq!(strip_prefix(&s, "Standard ").map(text).as_deref(), Some("PC (Q35)"));
    assert_eq!(text(cut_before(&s, " (")), "Standard PC");
    assert_eq!(text(cut_before(&s, "?")), "Standard PC (Q35)");
    assert!(same_text("abc", "abc") && !same_text("abc", "abd"));
}

#[test]
fn numbers_are_read_or_refused() {
    assert_eq!(parse_unsigned(&chars_of("512000000"), 10, u64::MAX), Some(512_000_000));
    assert_eq!(parse_unsigned(&chars_of("+5"), 10, 10), Some(5));
    assert_eq!(parse_unsigned(&chars_of("ff"), 16, u64::MAX), Some(255));
    assert_eq!(parse_unsigned(&chars_of("11"), 10, 10), None);
    assert_eq!(parse_unsigned(&chars_of(""), 10, 10), None);
    assert_eq!(parse_unsigned(&chars_of("18446744073709551616"), 10, u64::MAX), None);
    assert_eq!(parse_i64(&chars_of("-1000")), Some(-1000));
    assert_eq!(parse_i64(&chars_of("-9223372036854775808")), Some(i64::MIN));
    assert_eq!(parse_i32(&chars_of("2147483648")), None);
    assert_eq!(parse_i32(&chars_of("-")), None);
}

#[test]
fn numbers_are_written() {
    assert_eq!(decimal_text(0), "0");
    assert_eq!(decimal_text(u64::MAX), "18446744073709551615");
    let mut out = String::new();
    push_signed(&mut out, i64::MIN);
    assert_eq!(out, "-9223372036854775808");
    let mut out = String::new();
    push_hex(&mut out, 0xAB, 4);
    push_hex_raised(&mut out, 0xCD, 2);
    push_hex_0x(&mut out, 0x10);
    assert_eq!(out, format!("{:04x}{:02X}{:#x}", 0xAB, 0xCD, 0x10));
    let mut out = String::new();
    push_two_digits(&mut out, 7);
    push_decimal_left(&mut out, 42, 5);
    push_thousandths(&mut out, 7);
    assert_eq!(out, format!("{:02}{:>5}{:03}", 7, 42, 7));
}

#[test]
fn columns_are_padded() {
    let mut out = String::new();
    push_padded_right(&mut out, "ab", 4);
    push_padded_left(&mut out, "cd", 4);
    push_padded_right(&mut out, "longer", 3);
    push_repeated(&mut out, '=', 3);
    assert_eq!(out, "ab    cdlonger===");
}

#[test]
fn bytes_and_bits_are_read() {
    assert!(test32(0x8000_0000, 31) && !test32(0x8000_0000, 30));
    assert!(test64(1 << 40, 40));
    assert_eq!(&twelve_bytes(0x6441_4141, 0, 1)[..5], b"AAAd\0");
    assert!(bytes_are(b"sha256", "sha256") && !bytes_are(b"sha25", "sha256"));
    assert_eq!(until_nul(b"ab\0cd"), b"ab");
    assert_eq!(until_nul(b"ab"), b"ab");
}

#[test]
fn sums_stay_in_range() {
    assert_eq!(saturating_mul(usize::MAX, 2), usize::MAX);
    assert_eq!(saturating_mul_u64(3, 4), 12);
    assert_eq!(min_usize(3, 4), 3);
    assert_eq!(div_ceil_8(9), 2);
}
