use scrbrd::inning::{extract_inning, parse_u32, tokenize};

#[test]
fn ordinal_in_text() {
    assert_eq!(extract_inning("Top 3rd"), Some(3));
}

#[test]
fn number_next_to_inning_word() {
    assert_eq!(extract_inning("inning 12"), Some(12));
    assert_eq!(extract_inning("12 inning"), Some(12));
    assert_eq!(extract_inning("now in inn 7 already"), Some(7));
}

#[test]
fn no_information_yields_nothing() {
    assert_eq!(extract_inning("no info here"), None);
    assert_eq!(extract_inning(""), None);
    assert_eq!(extract_inning("42 without the magic word"), None);
}

#[test]
fn ordinal_table_covers_extra_innings() {
    assert_eq!(extract_inning("1st"), Some(1));
    assert_eq!(extract_inning("2nd"), Some(2));
    assert_eq!(extract_inning("bottom of the 9th"), Some(9));
    assert_eq!(extract_inning("10th"), Some(10));
    assert_eq!(extract_inning("13th"), Some(13));
}

#[test]
fn ordinal_pass_wins_over_word_pass() {
    assert_eq!(extract_inning("2nd inning 7"), Some(2));
}

#[test]
fn ordinal_table_is_ascending_first_match() {
    assert_eq!(extract_inning("3rd or 5th"), Some(3));
    // The ascending scan also means a low ordinal that is a substring of a
    // higher one wins: "5th" is checked before, and occurs in, "15th".
    assert_eq!(extract_inning("15th"), Some(5));
}

#[test]
fn ordinal_match_is_case_sensitive() {
    assert_eq!(extract_inning("Top 3RD"), None);
}

#[test]
fn inning_word_is_case_insensitive() {
    assert_eq!(extract_inning("INNING 6"), Some(6));
}

#[test]
fn number_too_large_is_not_accepted() {
    assert_eq!(extract_inning("inning 99999999999"), None);
    assert_eq!(extract_inning("inning 4294967295"), Some(4294967295));
    assert_eq!(extract_inning("inning 4294967296"), None);
}

#[test]
fn tokenize_splits_on_whitespace_runs() {
    assert_eq!(
        tokenize("  Top of\tthe 3rd "),
        vec![
            "Top".to_string(),
            "of".to_string(),
            "the".to_string(),
            "3rd".to_string(),
        ]
    );
    assert_eq!(tokenize(""), Vec::<String>::new());
    assert_eq!(tokenize("   "), Vec::<String>::new());
}

#[test]
fn parse_u32_accepts_plain_decimals_only() {
    assert_eq!(parse_u32("12"), Some(12));
    assert_eq!(parse_u32("0"), Some(0));
    assert_eq!(parse_u32("007"), Some(7));
    assert_eq!(parse_u32(""), None);
    assert_eq!(parse_u32("12a"), None);
    assert_eq!(parse_u32("-3"), None);
    assert_eq!(parse_u32("4294967295"), Some(u32::MAX));
    assert_eq!(parse_u32("4294967296"), None);
}
