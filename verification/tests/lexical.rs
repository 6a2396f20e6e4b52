use schematis::lexical::{parse_u32, same_text};
use schematis::particles::{MaxOccurs, UNBOUNDED};

#[test]
fn parse_u32_reads_plain_digits() {
    assert_eq!(parse_u32("0"), Some(0));
    assert_eq!(parse_u32("7"), Some(7));
    assert_eq!(parse_u32("12"), Some(12));
    assert_eq!(parse_u32("1024"), Some(1024));
}

#[test]
fn parse_u32_keeps_the_order_of_digits() {
    assert_eq!(parse_u32("123"), Some(123));
    assert_eq!(parse_u32("321"), Some(321));
}

#[test]
fn parse_u32_accepts_leading_zeros() {
    assert_eq!(parse_u32("007"), Some(7));
    assert_eq!(parse_u32("0000000000000000000000"), Some(0));
}

#[test]
fn parse_u32_accepts_one_plus_sign() {
    assert_eq!(parse_u32("+5"), Some(5));
    assert_eq!(parse_u32("+0"), Some(0));
    assert_eq!(parse_u32("++5"), None);
    assert_eq!(parse_u32("5+"), None);
}

#[test]
fn parse_u32_rejects_empty_and_bare_sign() {
    assert_eq!(parse_u32(""), None);
    assert_eq!(parse_u32("+"), None);
    assert_eq!(parse_u32("-"), None);
}

#[test]
fn parse_u32_rejects_negative_numbers() {
    assert_eq!(parse_u32("-1"), None);
    assert_eq!(parse_u32("-0"), None);
    assert_eq!(parse_u32("-42"), None);
}

#[test]
fn parse_u32_rejects_what_is_no_number() {
    assert_eq!(parse_u32("abc"), None);
    assert_eq!(parse_u32("1a"), None);
    assert_eq!(parse_u32("a1"), None);
    assert_eq!(parse_u32(" 1"), None);
    assert_eq!(parse_u32("1 "), None);
    assert_eq!(parse_u32("1.0"), None);
    assert_eq!(parse_u32("0x10"), None);
    assert_eq!(parse_u32("1_000"), None);
    assert_eq!(parse_u32("unbounded"), None);
}

#[test]
fn parse_u32_rejects_digits_outside_ascii() {
    assert_eq!(parse_u32("\u{661}\u{662}"), None);
    assert_eq!(parse_u32("1\u{662}"), None);
    assert_eq!(parse_u32("\u{ff11}"), None);
    assert_eq!(parse_u32("+\u{e9}"), None);
}

#[test]
fn parse_u32_stops_at_the_range_of_the_type() {
    assert_eq!(parse_u32("4294967295"), Some(u32::MAX));
    assert_eq!(parse_u32("4294967296"), None);
    assert_eq!(parse_u32("4294967300"), None);
    assert_eq!(parse_u32("42949672950"), None);
    assert_eq!(parse_u32("99999999999999999999999999999999"), None);
    assert_eq!(parse_u32("+4294967295"), Some(u32::MAX));
    assert_eq!(parse_u32("0004294967295"), Some(u32::MAX));
}

#[test]
fn parse_u32_agrees_with_the_standard_parser() {
    let samples = [
        "", "0", "1", "9", "10", "99", "100", "+1", "-1", "+", "-", "00", "1e3", "4294967295",
        "4294967296", "18446744073709551616", " 5", "5 ", "\u{663}", "12a", "+-1", "+00012",
    ];
    for text in samples {
        assert_eq!(parse_u32(text), text.parse::<u32>().ok(), "on {:?}", text);
    }
}

#[test]
fn same_text_compares_character_for_character() {
    assert!(same_text("", ""));
    assert!(same_text("unbounded", "unbounded"));
    assert!(!same_text("unbounded", "unbounde"));
    assert!(!same_text("unbounde", "unbounded"));
    assert!(!same_text("unbounded", "Unbounded"));
    assert!(!same_text("unbounded", "unbounden"));
    assert!(!same_text("", "a"));
    assert!(same_text("h\u{e9}llo", "h\u{e9}llo"));
    assert!(!same_text("h\u{e9}llo", "hello"));
}

#[test]
fn max_occurs_unbounded_keyword() {
    assert_eq!(
        MaxOccurs::parse("unbounded"),
        Some(MaxOccurs::Unbounded("unbounded".to_string()))
    );
    assert_eq!(UNBOUNDED, "unbounded");
}

#[test]
fn max_occurs_keyword_is_matched_exactly() {
    assert_eq!(MaxOccurs::parse("Unbounded"), None);
    assert_eq!(MaxOccurs::parse("UNBOUNDED"), None);
    assert_eq!(MaxOccurs::parse("unbounded "), None);
    assert_eq!(MaxOccurs::parse(" unbounded"), None);
    assert_eq!(MaxOccurs::parse("unbound"), None);
    assert_eq!(MaxOccurs::parse("infinite"), None);
    assert_eq!(MaxOccurs::parse("*"), None);
}

#[test]
fn max_occurs_bounded_numbers() {
    assert_eq!(MaxOccurs::parse("0"), Some(MaxOccurs::Bounded(0)));
    assert_eq!(MaxOccurs::parse("1"), Some(MaxOccurs::Bounded(1)));
    assert_eq!(MaxOccurs::parse("42"), Some(MaxOccurs::Bounded(42)));
    assert_eq!(MaxOccurs::parse("4294967295"), Some(MaxOccurs::Bounded(u32::MAX)));
}

#[test]
fn max_occurs_rejects_negative_and_non_numeric() {
    assert_eq!(MaxOccurs::parse("-1"), None);
    assert_eq!(MaxOccurs::parse("-0"), None);
    assert_eq!(MaxOccurs::parse("many"), None);
    assert_eq!(MaxOccurs::parse(""), None);
    assert_eq!(MaxOccurs::parse("1.5"), None);
    assert_eq!(MaxOccurs::parse("2x"), None);
}

#[test]
fn max_occurs_rejects_numbers_out_of_range() {
    assert_eq!(MaxOccurs::parse("4294967296"), None);
    assert_eq!(MaxOccurs::parse("100000000000"), None);
}
