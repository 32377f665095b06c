use wxorca_agents::text::{
    clip, clone_texts, contains_any, decimal_string, excerpt_of, join2, join3, lowercase_all,
    parse_port, read_port_or, text_or,
};

#[test]
fn numbers_are_written_in_decimal() {
    assert_eq!(decimal_string(0), "0");
    assert_eq!(decimal_string(7), "7");
    assert_eq!(decimal_string(10), "10");
    assert_eq!(decimal_string(8000), "8000");
    assert_eq!(decimal_string(65535), "65535");
    assert_eq!(decimal_string(u64::MAX), "18446744073709551615");
}

#[test]
fn ports_are_read_as_the_standard_library_reads_them() {
    for text in [
        "0", "1", "8000", "65535", "65536", "+80", "+", "", "-1", "08000", "00000000080", " 80",
        "80 ", "8o", "1e3", "655350", "99999999999999999999", "++1", "\u{661}",
    ] {
        assert_eq!(parse_port(text), text.parse::<u16>().ok(), "{:?}", text);
    }
    assert_eq!(parse_port("8000"), Some(8000));
    assert_eq!(parse_port("65536"), None);
}

#[test]
fn settings_fall_back_to_defaults() {
    assert_eq!(read_port_or(&Some("9000".to_string()), 8000), 9000);
    assert_eq!(read_port_or(&Some("ninety".to_string()), 8000), 8000);
    assert_eq!(read_port_or(&None, 8000), 8000);
    assert_eq!(text_or(Some("x".to_string()), "d"), "x");
    assert_eq!(text_or(None, "d"), "d");
}

#[test]
fn texts_are_joined() {
    assert_eq!(join2("a", "b"), "ab");
    assert_eq!(join2("", ""), "");
    assert_eq!(join3("a", "-", "b"), "a-b");
}

#[test]
fn excerpts_keep_whole_characters() {
    assert_eq!(excerpt_of("hello", 5), "hello");
    assert_eq!(excerpt_of("hello!", 5), "hello...");
    assert_eq!(excerpt_of("", 0), "");
    assert_eq!(excerpt_of("a", 0), "...");
    // The second character takes bytes two and three.
    assert_eq!(excerpt_of("a\u{e9}b", 2), "a...");
    assert_eq!(excerpt_of("a\u{e9}b", 3), "a\u{e9}...");
    assert_eq!(clip("a\u{1f4da}b", 4), "a");
    assert_eq!(clip("a\u{1f4da}b", 5), "a\u{1f4da}");
    assert_eq!(clip("abc", 0), "");
    assert_eq!(clip("abc", 3), "abc");
    assert_eq!(clip("abc", 10), "abc");
    assert_eq!(clip("", 4), "");
}

#[test]
fn runs_of_strings() {
    let v = vec!["Alpha".to_string(), "BETA".to_string()];
    assert_eq!(clone_texts(&v), v);
    assert_eq!(lowercase_all(&v), vec!["alpha", "beta"]);
    assert!(contains_any(&v, "ET"));
    assert!(!contains_any(&v, "et"));
    assert!(contains_any(&v, ""));
    assert!(!contains_any(&Vec::new(), ""));
}
