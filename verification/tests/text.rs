use afisha_bot::text::{parse_clock_field, parse_u32, split_str, str_eq, trim_str};

#[test]
fn split_keeps_every_token_in_order() {
    assert_eq!(split_str("a,b,,c", ','), vec!["a", "b", "", "c"]);
}

#[test]
fn input_without_separator_is_one_token() {
    assert_eq!(split_str("abc", ','), vec!["abc"]);
    assert_eq!(split_str("", ','), vec![""]);
}

#[test]
fn edge_separators_make_empty_tokens() {
    assert_eq!(split_str(",a,", ','), vec!["", "a", ""]);
}

#[test]
fn split_works_for_colons_too() {
    assert_eq!(split_str("19:00", ':'), vec!["19", "00"]);
}

#[test]
fn trim_strips_blanks_on_both_ends_only() {
    assert_eq!(trim_str("  a b \t"), "a b");
    assert_eq!(trim_str("\n x \r"), "x");
    assert_eq!(trim_str("x"), "x");
    assert_eq!(trim_str("   "), "");
    assert_eq!(trim_str(""), "");
}

#[test]
fn numbers_parse_exactly_or_not_at_all() {
    assert_eq!(parse_u32("0"), Some(0));
    assert_eq!(parse_u32("007"), Some(7));
    assert_eq!(parse_u32("4294967295"), Some(u32::MAX));
    assert_eq!(parse_u32("4294967296"), None);
    assert_eq!(parse_u32(""), None);
    assert_eq!(parse_u32("12a"), None);
    assert_eq!(parse_u32("-1"), None);
}

#[test]
fn clock_fields_report_everything_above_59_alike() {
    assert_eq!(parse_clock_field("23"), Some(23));
    assert_eq!(parse_clock_field("59"), Some(59));
    assert_eq!(parse_clock_field("60"), Some(60));
    assert_eq!(parse_clock_field("99999"), Some(60));
    assert_eq!(parse_clock_field("007"), Some(7));
    assert_eq!(parse_clock_field(""), None);
    assert_eq!(parse_clock_field("5x"), None);
}

#[test]
fn string_equality_is_by_characters() {
    assert!(str_eq("cinema", "cinema"));
    assert!(!str_eq("cinema", "cinemas"));
    assert!(!str_eq("Cinema", "cinema"));
    assert!(str_eq("", ""));
}
