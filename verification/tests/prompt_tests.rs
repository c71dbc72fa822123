use pacs_merge::prompt::trim_whitespace;

#[test]
fn prompt_trimming() {
    assert_eq!(trim_whitespace("  abc123  \n"), "abc123");
}

#[test]
fn trimming_keeps_inner_whitespace() {
    assert_eq!(trim_whitespace("\tstudy one \r\n"), "study one");
}

#[test]
fn trimming_of_clean_input_changes_nothing() {
    assert_eq!(trim_whitespace("abc123"), "abc123");
}

#[test]
fn trimming_of_blank_input_yields_empty() {
    assert_eq!(trim_whitespace("   \n"), "");
    assert_eq!(trim_whitespace(""), "");
}

#[test]
fn trimming_strips_unicode_whitespace() {
    assert_eq!(trim_whitespace("\u{00A0}abc123\u{00A0}"), "abc123");
    assert_eq!(trim_whitespace("\u{0085}\u{1680}abc\u{2000}\u{200A}\u{3000}"), "abc");
    assert_eq!(trim_whitespace("\u{2028}\u{2029}\u{202F}\u{205F}x"), "x");
}

#[test]
fn trimming_keeps_non_whitespace_format_characters() {
    assert_eq!(trim_whitespace("\u{200B}abc\u{200B}"), "\u{200B}abc\u{200B}");
}
