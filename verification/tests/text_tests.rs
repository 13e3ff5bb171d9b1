use sys_stats::text::{
    cat, ends_with, join_path, lit, pad2, starts_with, strip_prefix, trim, trim_end_char,
};

#[test]
fn trim_removes_ascii_and_unicode_whitespace() {
    assert_eq!(trim("  abc \n"), "abc");
    assert_eq!(trim("\u{3000}\u{00A0}tok\u{2009}"), "tok");
    assert_eq!(trim("   "), "");
    assert_eq!(trim(""), "");
    assert_eq!(trim("a b"), "a b");
}

#[test]
fn trim_matches_std_trim() {
    for s in ["", " x ", "\t\r\nline\n", "\u{85}mid\u{85}", "no-space", "\u{200B}zw\u{200B}"] {
        assert_eq!(trim(s), s.trim());
    }
}

#[test]
fn trim_is_idempotent_on_examples() {
    for s in ["  a  ", "\n\tb", "c\u{3000}"] {
        let once = trim(s);
        assert_eq!(trim(&once), once);
    }
}

#[test]
fn trim_end_char_drops_only_the_trailing_run() {
    assert_eq!(trim_end_char("https://x.dev///", '/'), "https://x.dev");
    assert_eq!(trim_end_char("/a/b", '/'), "/a/b");
    assert_eq!(trim_end_char("///", '/'), "");
}

#[test]
fn prefix_and_suffix_tests() {
    assert!(starts_with("Bearer abc", "Bearer "));
    assert!(!starts_with("Bear", "Bearer "));
    assert!(starts_with("x", ""));
    assert!(ends_with("u@placeholder.com", "@placeholder.com"));
    assert!(!ends_with("u@example.com", "@placeholder.com"));
    assert_eq!(strip_prefix("Bearer tok", "Bearer "), Some("tok".to_string()));
    assert_eq!(strip_prefix("Basic tok", "Bearer "), None);
}

#[test]
fn join_path_inserts_one_separator() {
    assert_eq!(join_path("/home/u", "x", false), "/home/u/x");
    assert_eq!(join_path("/home/u/", "x", false), "/home/u/x");
    assert_eq!(join_path("", "x", false), "x");
    assert_eq!(join_path("C:\\Users\\u", "x", false), "C:\\Users\\u/x");
}

#[test]
fn join_path_uses_windows_separators() {
    assert_eq!(join_path("C:\\Users\\u\\AppData\\Roaming", "sys_stats", true), "C:\\Users\\u\\AppData\\Roaming\\sys_stats");
    assert_eq!(join_path("C:\\Users\\u\\", "x", true), "C:\\Users\\u\\x");
    assert_eq!(join_path("C:/Users/u/", "x", true), "C:/Users/u/x");
    assert_eq!(join_path("C:", "x", true), "C:x");
    assert_eq!(join_path("1:", "x", true), "1:\\x");
    assert_eq!(join_path("", "x", true), "x");
}

#[test]
fn pad2_pads_single_digits() {
    assert_eq!(pad2(0), "00");
    assert_eq!(pad2(7), "07");
    assert_eq!(pad2(59), "59");
    assert_eq!(lit("q"), "q");
    assert_eq!(cat("a", "b"), "ab");
}
