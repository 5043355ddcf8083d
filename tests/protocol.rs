use peer_session::protocol::parse_file_meta;
use peer_session::selection::get_text;

#[test]
fn meta_with_name_and_size() {
    assert_eq!(parse_file_meta("report.csv<|>2048"), Some(("report.csv".to_string(), 2048)));
    assert_eq!(parse_file_meta("a b<|> -5\t"), Some(("a b".to_string(), -5)));
    assert_eq!(parse_file_meta("<|>+7"), Some(("".to_string(), 7)));
    assert_eq!(
        parse_file_meta("big<|>9223372036854775807"),
        Some(("big".to_string(), i64::MAX))
    );
    assert_eq!(
        parse_file_meta("small<|>-9223372036854775808"),
        Some(("small".to_string(), i64::MIN))
    );
}

#[test]
fn meta_rejected() {
    assert_eq!(parse_file_meta("report.csv"), None);
    assert_eq!(parse_file_meta("report.csv<|2048"), None);
    assert_eq!(parse_file_meta("a<|>b<|>3"), None);
    assert_eq!(parse_file_meta("a<|>3<|>"), None);
    assert_eq!(parse_file_meta("a<|>"), None);
    assert_eq!(parse_file_meta("a<|>-"), None);
    assert_eq!(parse_file_meta("a<|>1.5"), None);
    assert_eq!(parse_file_meta("a<|>9223372036854775808"), None);
    assert_eq!(parse_file_meta(""), None);
}

#[test]
fn selection_is_trimmed() {
    assert_eq!(get_text("  hello world \n"), "hello world");
    assert_eq!(get_text("\u{3000}x\u{a0}"), "x");
    assert_eq!(get_text(" \t "), "");
    assert_eq!(get_text(""), "");
}
