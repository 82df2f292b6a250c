//! Text, identifiers, dates and times.

use screenguard::clock::{
    describe_moment, parse_time, weekday_for_date, TimeOfDay,
};
use screenguard::ids::{read_id, NIL};
use screenguard::text;

#[test]
fn text_is_searched() {
    assert!(text::same("a", "a") && !text::same("a", "b"));
    assert!(text::starts_with("sqlite:x", "sqlite") && !text::starts_with("sql", "sqlite"));
    assert_eq!(text::strip_prefix("Bearer x", "Bearer ").as_deref(), Some("x"));
    assert_eq!(text::strip_prefix("bearer x", "Bearer "), None);
    assert_eq!(text::find_last("abcabc", "bc"), Some(4));
    assert_eq!(text::find_last("żółć", "ł"), Some(2));
    assert_eq!(text::find_last("a", "aa"), None);
    assert!(text::contains("x >= 0", ">= 0") && !text::contains("x > 0", ">= 0"));
}

#[test]
fn text_is_trimmed_and_split() {
    assert_eq!(text::trim(" \t\u{3000}a b\n"), "a b");
    assert_eq!(text::trim("  "), "");
    assert_eq!(text::trim_of("//a/b/", '/'), "a/b");
    assert_eq!(text::split("a,,b,", ','), vec!["a", "", "b", ""]);
    assert_eq!(text::split("", ','), vec![""]);
    assert_eq!(text::lines("x\ny\n"), vec!["x", "y"]);
    assert!(text::is_white_space(' ') && !text::is_white_space('_'));
}

#[test]
fn numbers_are_read() {
    assert_eq!(text::parse_i32("42"), Some(42));
    assert_eq!(text::parse_i32("+7"), Some(7));
    assert_eq!(text::parse_i32("-2147483648"), Some(i32::MIN));
    assert_eq!(text::parse_i32("2147483647"), Some(i32::MAX));
    assert_eq!(text::parse_i32("2147483648"), None);
    assert_eq!(text::parse_i32("-2147483649"), None);
    assert_eq!(text::parse_i32("00000000000012"), Some(12));
    for bad in ["", "-", "+", "1.5", " 1", "1a", "--1", "٣"] {
        assert_eq!(text::parse_i32(bad), None);
    }
}

#[test]
fn copies_are_equal() {
    assert_eq!(text::copy_opt(&Some("a".to_string())).as_deref(), Some("a"));
    assert_eq!(text::copy_opt(&None), None);
    assert_eq!(text::own_opt(Some("a")).as_deref(), Some("a"));
    assert_eq!(text::copy_texts(&vec!["a".to_string()]), vec!["a"]);
}

#[test]
fn identifiers_are_read_back() {
    let id = read_id("12345678-9abc-4def-8123-456789abcdef");
    assert_eq!(id, 0x1234_5678_9abc_4def_8123_4567_89ab_cdef);
    assert_eq!(read_id("123456789ABC4DEF8123456789ABCDEF"), id);
    assert_eq!(read_id("no id"), NIL);
}

#[test]
fn days_of_the_week_are_counted_from_monday() {
    assert_eq!(weekday_for_date("2024-01-01"), 0);
    assert_eq!(weekday_for_date("2024-02-29"), 3);
    assert_eq!(weekday_for_date("2000-12-31"), 6);
    assert_eq!(weekday_for_date("1900-03-01"), 3);
    assert_eq!(weekday_for_date("2023-02-29"), 0);
    assert_eq!(weekday_for_date("soon"), 0);
}

#[test]
fn times_of_day_are_read() {
    assert_eq!(parse_time("07:05"), Some(TimeOfDay { hour: 7, minute: 5 }));
    assert_eq!(parse_time("23:59"), Some(TimeOfDay { hour: 23, minute: 59 }));
    assert_eq!(parse_time("24:00"), None);
    assert_eq!(parse_time("12"), None);
}

#[test]
fn moments_are_described() {
    assert_eq!(describe_moment(0), "1970-01-01T00:00:00+00:00");
    assert_eq!(describe_moment(1_700_000_000), "2023-11-14T22:13:20+00:00");
    assert_eq!(describe_moment(i64::MAX), "1970-01-01T00:00:00+00:00");
}
