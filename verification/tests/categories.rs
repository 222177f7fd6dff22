use afisha_bot::api::CATEGORIES;
use afisha_bot::dialogue::parse_categories;

fn strings(v: &[&str]) -> Vec<String> {
    v.iter().map(|s| s.to_string()).collect()
}

#[test]
fn plain_list_parses() {
    assert_eq!(parse_categories("cinema,concert"), Ok(strings(&["cinema", "concert"])));
}

#[test]
fn surrounding_whitespace_is_trimmed() {
    assert_eq!(
        parse_categories("  cinema ,\tconcert ,  art"),
        Ok(strings(&["cinema", "concert", "art"]))
    );
}

#[test]
fn single_token_with_newline_is_trimmed() {
    assert_eq!(parse_categories("\nquest\n"), Ok(strings(&["quest"])));
}

#[test]
fn every_vocabulary_member_is_accepted() {
    for cat in CATEGORIES {
        assert_eq!(parse_categories(cat), Ok(strings(&[cat])));
    }
    assert_eq!(CATEGORIES.len(), 7);
}

#[test]
fn order_is_kept() {
    assert_eq!(
        parse_categories("quest, art, cinema"),
        Ok(strings(&["quest", "art", "cinema"]))
    );
}

#[test]
fn first_offending_token_is_named() {
    assert_eq!(parse_categories("cinema, cinma, art"), Err("cinma".to_string()));
}

#[test]
fn later_offenders_do_not_mask_the_first() {
    assert_eq!(parse_categories("opera, cinma"), Err("opera".to_string()));
}

#[test]
fn case_matters() {
    assert_eq!(parse_categories("Cinema"), Err("Cinema".to_string()));
}

#[test]
fn inner_spaces_are_not_trimmed() {
    assert_eq!(parse_categories("cin ema"), Err("cin ema".to_string()));
}

#[test]
fn empty_input_is_rejected() {
    assert_eq!(parse_categories(""), Err("".to_string()));
}

#[test]
fn trailing_comma_is_rejected() {
    assert_eq!(parse_categories("cinema,"), Err("".to_string()));
}

#[test]
fn non_ascii_token_is_rejected_whole() {
    assert_eq!(parse_categories("кино"), Err("кино".to_string()));
}
