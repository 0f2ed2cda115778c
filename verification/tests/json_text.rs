//! Tests of the JSON emission helpers.

use matroskin::json::{append_json_string, join_comma, u64_to_dec};

#[test]
fn decimal_rendering_exact_values() {
    assert_eq!(u64_to_dec(0), "0");
    assert_eq!(u64_to_dec(7), "7");
    assert_eq!(u64_to_dec(10), "10");
    assert_eq!(u64_to_dec(1_700_000_000), "1700000000");
    assert_eq!(u64_to_dec(u64::MAX), "18446744073709551615");
}

#[test]
fn join_comma_cases() {
    let empty: Vec<&str> = Vec::new();
    assert_eq!(join_comma(&empty), "");
    assert_eq!(join_comma(&vec!["a"]), "a");
    assert_eq!(join_comma(&vec!["a", "b", "c"]), "a,b,c");
    assert_eq!(join_comma(&vec!["", ""]), ",");
}

fn quoted(s: &str) -> String {
    let mut out = String::new();
    append_json_string(&mut out, s);
    out
}

#[test]
fn string_escaping_matches_json() {
    assert_eq!(quoted("plain"), "\"plain\"");
    assert_eq!(quoted("a\"b"), "\"a\\\"b\"");
    assert_eq!(quoted("a\\b"), "\"a\\\\b\"");
    assert_eq!(quoted("line\nbreak"), "\"line\\nbreak\"");
    assert_eq!(quoted("tab\there"), "\"tab\\there\"");
    assert_eq!(quoted("cr\rlf"), "\"cr\\rlf\"");
    assert_eq!(quoted("\u{8}\u{c}"), "\"\\b\\f\"");
    assert_eq!(quoted("\u{1}\u{1f}"), "\"\\u0001\\u001f\"");
    assert_eq!(quoted("unicode é ✓"), "\"unicode é ✓\"");
}

#[test]
fn escaping_agrees_with_serde_json() {
    let cases = ["plain", "a\"b\\c", "new\nline\t\r", "\u{1}\u{1f}\u{8}\u{c}", "é✓"];
    for s in cases {
        let ours = quoted(s);
        let theirs = serde_json::to_string(s).unwrap();
        assert_eq!(ours, theirs, "escaping differs for {:?}", s);
    }
}
