use rmdb::text::{
    contains_str, contains_str_ci, eq_ignore_case, parse_u32_dec, split_char, split_lines,
    split_ws_tokens, starts_with_str, str_eq, trim,
};
use rmdb::utils::{truncate_string, truncate_string_exact};

#[test]
fn trim_removes_surrounding_whitespace() {
    assert_eq!(trim("  web01 \t\r\n"), "web01");
    assert_eq!(trim("web01"), "web01");
    assert_eq!(trim("   "), "");
    assert_eq!(trim(""), "");
    assert_eq!(trim(" a b "), "a b");
}

#[test]
fn string_equality_and_prefix() {
    assert!(str_eq("abc", "abc"));
    assert!(!str_eq("abc", "abd"));
    assert!(!str_eq("abc", "ab"));
    assert!(starts_with_str("lxc-start", "lxc"));
    assert!(!starts_with_str("lx", "lxc"));
    assert!(starts_with_str("anything", ""));
}

#[test]
fn substring_search() {
    assert!(contains_str("not found", "found"));
    assert!(contains_str("abc", ""));
    assert!(!contains_str("abc", "abcd"));
    assert!(contains_str("xxerrorxx", "error"));
    assert!(!contains_str("eror", "error"));
    assert!(contains_str_ci("PermISSion DENied", "permission denied"));
    assert!(contains_str_ci("ERROR: boom", "error"));
    assert!(!contains_str_ci("fine", "error"));
    assert!(eq_ignore_case("RUNNING", "running"));
    assert!(!eq_ignore_case("RUNNING", "runnin"));
}

#[test]
fn splitting_lines_and_fields() {
    let lines = split_lines("a\nb\n\nc\n");
    assert_eq!(lines, vec!["a", "b", "", "c"]);
    assert_eq!(split_lines("a\nb"), vec!["a", "b"]);
    assert_eq!(split_lines(""), Vec::<String>::new());
    assert_eq!(split_lines("\n"), vec![""]);

    assert_eq!(split_char("1.21.0", '.'), vec!["1", "21", "0"]);
    assert_eq!(split_char("a,,b", ','), vec!["a", "", "b"]);
    assert_eq!(split_char("", ','), vec![""]);
    assert_eq!(split_char("x,", ','), vec!["x", ""]);
}

#[test]
fn whitespace_tokens() {
    assert_eq!(
        split_ws_tokens("go version go1.22.1 linux/amd64"),
        vec!["go", "version", "go1.22.1", "linux/amd64"]
    );
    assert_eq!(split_ws_tokens("  rustc   1.74.0\t(abc)\n"), vec!["rustc", "1.74.0", "(abc)"]);
    assert_eq!(split_ws_tokens("   "), Vec::<String>::new());
    assert_eq!(split_ws_tokens(""), Vec::<String>::new());
}

#[test]
fn decimal_parsing() {
    assert_eq!(parse_u32_dec("0"), Some(0));
    assert_eq!(parse_u32_dec("1234"), Some(1234));
    assert_eq!(parse_u32_dec("4294967295"), Some(u32::MAX));
    assert_eq!(parse_u32_dec("4294967296"), None);
    assert_eq!(parse_u32_dec(""), None);
    assert_eq!(parse_u32_dec("12a"), None);
    assert_eq!(parse_u32_dec("-1"), None);
}

#[test]
fn truncation() {
    assert_eq!(truncate_string("short", 10), "short");
    assert_eq!(truncate_string("exactly-10", 10), "exactly-10");
    assert_eq!(truncate_string("a very long label", 10), "a very ...");
    assert_eq!(truncate_string("abcdef", 2), "...");
    assert_eq!(truncate_string_exact("abcdef", 4), "abcd");
    assert_eq!(truncate_string_exact("ab", 4), "ab");
}
