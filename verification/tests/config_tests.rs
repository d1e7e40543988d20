use opfs_store::config::{CsvConfig, parser_settings};

fn config(
    delimiter: &str,
    quote: &str,
    comment: &str,
    escape: &str,
    null_regex: &str,
    truncated: bool,
) -> CsvConfig {
    CsvConfig {
        delimiter: delimiter.to_string(),
        quote: quote.to_string(),
        comment: comment.to_string(),
        escape: escape.to_string(),
        null_regex: null_regex.to_string(),
        truncated,
    }
}

#[test]
fn single_characters_are_taken() {
    let s = parser_settings(&config(";", "'", "#", "\\", "NA", true));
    assert_eq!(s.delimiter, b';');
    assert_eq!(s.quote, Some(b'\''));
    assert_eq!(s.comment, Some(b'#'));
    assert_eq!(s.escape, Some(b'\\'));
    assert_eq!(s.null_regex.as_deref(), Some("NA"));
    assert!(s.truncated);
}

#[test]
fn empty_fields_disable_features() {
    let s = parser_settings(&config("", "", "", "", "", false));
    assert_eq!(s.delimiter, b',');
    assert_eq!(s.quote, None);
    assert_eq!(s.comment, None);
    assert_eq!(s.escape, None);
    assert_eq!(s.null_regex, None);
    assert!(!s.truncated);
}

#[test]
fn multi_character_fields_fall_back() {
    let s = parser_settings(&config(";;", "''", "##", "\\\\", "NA", false));
    assert_eq!(s.delimiter, b',');
    assert_eq!(s.quote, None);
    assert_eq!(s.comment, None);
    assert_eq!(s.escape, None);
}

#[test]
fn non_ascii_character_falls_back() {
    let s = parser_settings(&config("\u{e9}", "\u{e9}", "", "", "", false));
    assert_eq!(s.delimiter, b',');
    assert_eq!(s.quote, None);
}

#[test]
fn null_pattern_kept_up_to_32_chars() {
    let pattern = "x".repeat(32);
    let s = parser_settings(&config(",", "", "", "", &pattern, false));
    assert_eq!(s.null_regex.as_deref(), Some(pattern.as_str()));
}

#[test]
fn invalid_null_pattern_disables_matching() {
    let s = parser_settings(&config(",", "", "", "", "(", false));
    assert_eq!(s.null_regex, None);
}

#[test]
fn null_pattern_over_32_chars_disabled() {
    let pattern = "x".repeat(33);
    let s = parser_settings(&config(",", "", "", "", &pattern, false));
    assert_eq!(s.null_regex, None);
}
