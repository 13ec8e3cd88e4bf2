use cloudpipe::text::{
    bytes_in, contains, decimal_text, ends_with, is_whitespace, lowercase, parse_port, same,
    strip_suffix, trimmed, truncate, without_trailing,
};

#[test]
fn white_space_is_that_of_char() {
    for n in 0u32..=0x10ffff {
        if let Some(c) = char::from_u32(n) {
            assert_eq!(is_whitespace(c), c.is_whitespace(), "at {n}");
        }
    }
}

#[test]
fn trimming_is_that_of_str() {
    for s in [
        "", " ", "a", " a", "a ", "  a b  ", "\t\n x \r\n", "\u{a0}x\u{3000}", "\u{200b}x",
    ] {
        assert_eq!(trimmed(s), s.trim());
    }
}

#[test]
fn ports_are_parsed_as_by_u16() {
    for s in [
        "", "0", "1", "+1", "++1", "+", "-", "-1", "-0", "65535", "65536", "0065535", "99999999999999999999",
        "1 ", " 1", "1a", "8080", "٣", "00000000000000000000001",
    ] {
        assert_eq!(parse_port(s), s.parse::<u16>().ok(), "for {s:?}");
    }
}

#[test]
fn numbers_are_written_in_decimal() {
    for n in [0u64, 1, 9, 10, 99, 100, 8080, 18446744073709551615] {
        assert_eq!(decimal_text(n), n.to_string());
    }
}

#[test]
fn case_folding_is_ascii_only() {
    for s in ["", "ABCxyz", "ÄÖÜ", "K", "a1-B2"] {
        assert_eq!(lowercase(s), s.to_ascii_lowercase());
    }
}

#[test]
fn parts_are_found() {
    assert!(contains("hello", "ell"));
    assert!(contains("hello", ""));
    assert!(!contains("hello", "elo"));
    assert!(!contains("", "x"));
    assert!(ends_with("a.tgz", ".tgz"));
    assert!(!ends_with("tgz", ".tgz"));
    assert_eq!(strip_suffix("abc", "bc"), Some("a".to_string()));
    assert_eq!(strip_suffix("abc", "x"), None);
    assert!(same("a", "a"));
    assert!(!same("a", "b"));
    assert!(!same("a", "aa"));
    assert_eq!(without_trailing("a///", '/'), "a");
    assert_eq!(without_trailing("///", '/'), "");
}

#[test]
fn truncation_keeps_whole_characters() {
    assert_eq!(truncate("hello", 5), "hello");
    assert_eq!(truncate("hello", 4), "hell…");
    assert_eq!(truncate("aé", 2), "a…");
    assert_eq!(truncate("aé", 3), "aé");
    assert_eq!(truncate("🚀x", 3), "…");
    assert_eq!(truncate("", 0), "");
    let long = "ü".repeat(400);
    let cut = truncate(&long, 513);
    assert_eq!(cut, format!("{}…", "ü".repeat(256)));
    assert_eq!(bytes_in(&cut), cut.len());
    assert_eq!(bytes_in("aé€🚀"), "aé€🚀".len());
}
