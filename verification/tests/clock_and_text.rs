//! Calendar time, identifiers and pieces of text.

use agentforce_a2a::clock::{is_leap, iso_timestamp, unix_to_ymdhms};
use agentforce_a2a::encoding::{fresh_id, hex_text};
use agentforce_a2a::text::{
    cut_at, decimal_text, eq_ignore_case, first_chars, is_blank, padded_text, parse_u32,
    signed_decimal_text, split, trim, trim_end_char, trim_start_char, truncate,
};

#[test]
fn moments_have_their_date() {
    assert_eq!(unix_to_ymdhms(0), (1970, 1, 1, 0, 0, 0));
    assert_eq!(unix_to_ymdhms(86_399), (1970, 1, 1, 23, 59, 59));
    assert_eq!(unix_to_ymdhms(951_782_400), (2000, 2, 29, 0, 0, 0));
    assert_eq!(unix_to_ymdhms(1_709_164_799), (2024, 2, 28, 23, 59, 59));
    assert_eq!(unix_to_ymdhms(1_735_689_599), (2024, 12, 31, 23, 59, 59));
    assert_eq!(unix_to_ymdhms(4_107_542_400), (2100, 3, 1, 0, 0, 0));
}

#[test]
fn timestamps_are_padded() {
    assert_eq!(iso_timestamp(0), "1970-01-01T00:00:00Z");
    assert_eq!(iso_timestamp(1_778_198_400), "2026-05-08T00:00:00Z");
    assert_eq!(iso_timestamp(1_000_000_000), "2001-09-09T01:46:40Z");
}

#[test]
fn leap_years_follow_the_calendar() {
    assert!(is_leap(2000));
    assert!(is_leap(2024));
    assert!(!is_leap(1900));
    assert!(!is_leap(2023));
    assert!(is_leap(-4));
    assert!(is_leap(0));
}

#[test]
fn identifiers_look_like_uuids() {
    let id = fresh_id();
    assert_eq!(id.len(), 36);
    let marks: Vec<usize> = vec![8, 13, 18, 23];
    for (i, c) in id.chars().enumerate() {
        if marks.contains(&i) {
            assert_eq!(c, '-');
        } else {
            assert!(c.is_ascii_hexdigit() && !c.is_ascii_uppercase());
        }
    }
    assert_ne!(fresh_id(), id);
}

#[test]
fn bytes_are_written_in_hex() {
    assert_eq!(hex_text(&[0, 15, 16, 255]), "000f10ff");
    assert_eq!(hex_text(&[]), "");
}

#[test]
fn numbers_are_written_and_read() {
    assert_eq!(decimal_text(0), "0");
    assert_eq!(decimal_text(u64::MAX), "18446744073709551615");
    assert_eq!(signed_decimal_text(i64::MIN), "-9223372036854775808");
    assert_eq!(signed_decimal_text(7), "7");
    assert_eq!(padded_text(7, 4), "0007");
    assert_eq!(padded_text(12345, 4), "12345");
    assert_eq!(parse_u32("0"), Some(0));
    assert_eq!(parse_u32("+12"), None);
    assert_eq!(parse_u32("007"), Some(7));
    assert_eq!(parse_u32("4294967295"), Some(u32::MAX));
    assert_eq!(parse_u32("4294967296"), None);
    assert_eq!(parse_u32("99999999999999999999999"), None);
    assert_eq!(parse_u32(""), None);
    assert_eq!(parse_u32("+"), None);
    assert_eq!(parse_u32("-1"), None);
    assert_eq!(parse_u32("1a"), None);
}

#[test]
fn text_is_cut_and_trimmed() {
    assert_eq!(trim(" \t a b\u{3000}\n"), "a b");
    assert_eq!(trim("   "), "");
    assert!(is_blank("\u{2003}\r"));
    assert!(!is_blank("\u{200b}"));
    assert_eq!(cut_at("a?b?c", '?'), "a");
    assert_eq!(cut_at("abc", '?'), "abc");
    assert_eq!(trim_end_char("/a//", '/'), "/a");
    assert_eq!(trim_start_char("//a/", '/'), "a/");
    assert_eq!(split("a,,b", ','), vec!["a", "", "b"]);
    assert_eq!(split("", ','), vec![""]);
    assert!(eq_ignore_case("pOsT", "POST"));
    assert!(!eq_ignore_case("POSTS", "POST"));
    assert!(!eq_ignore_case("é", "É"));
}

#[test]
fn long_text_is_cut_between_characters() {
    assert_eq!(truncate("short", 5), "short");
    assert_eq!(truncate("longer", 5), "longe...");
    assert_eq!(truncate("ab\u{20ac}cd", 4), "ab...");
    assert_eq!(truncate("ab\u{20ac}cd", 5), "ab\u{20ac}...");
    assert_eq!(first_chars("a\u{20ac}b", 2), "a\u{20ac}");
    assert_eq!(first_chars("ab", 9), "ab");
}
