use grove::json;
use grove::table::Table;
use grove::text::{
    after_prefix, any_control, begins_with, finds, join_path, join_words, number, parse, to_lower,
    trim,
};

#[test]
fn text_is_trimmed_folded_and_searched_as_std_does_it() {
    for s in ["", " ", "\t a b \n", "\u{a0}x\u{3000}", "\u{2028}", "x", "\u{200b}x"] {
        assert_eq!(trim(s), s.trim());
    }
    for s in ["", "ABC xyz", "ÄÖ Q", "日本 Z"] {
        assert_eq!(to_lower(s), s.to_ascii_lowercase());
    }
    for (hay, needle) in [("abcabd", "abd"), ("", ""), ("a", ""), ("", "a"), ("aab", "ab"), ("日本", "本")] {
        assert_eq!(finds(hay, needle), hay.contains(needle));
        assert_eq!(begins_with(hay, needle), hay.starts_with(needle));
        assert_eq!(after_prefix(hay, needle), hay.strip_prefix(needle));
    }
    for s in ["", "plain", "tab\t", "\u{7f}", "\u{85}", "\u{a0}"] {
        assert_eq!(any_control(s), s.chars().any(char::is_control));
    }
}

#[test]
fn numbers_are_written_and_read_as_std_does_it() {
    for n in [0u64, 7, 10, 42, 1_000_000, u64::MAX] {
        assert_eq!(number(n), n.to_string());
    }
    for s in ["", "+", "-1", "0", "007", "+5", "12a", " 1", "4294967295", "4294967296"] {
        assert_eq!(parse(s, u32::MAX as u64), s.parse::<u32>().ok().map(u64::from));
    }
    assert_eq!(parse("18446744073709551615", u64::MAX), Some(u64::MAX));
    assert_eq!(parse("18446744073709551616", u64::MAX), None);
    assert_eq!(parse("3", 2), None);
}

#[test]
fn words_and_paths_are_put_together() {
    let words: Vec<String> = ["a", "b", "c"].iter().map(|s| s.to_string()).collect();
    assert_eq!(join_words(&words, ", "), "a, b, c");
    assert_eq!(join_words(&Vec::new(), ", "), "");
    assert_eq!(join_path("/a", "b"), "/a/b");
    assert_eq!(join_path("/a/", "b"), "/a/b");
    assert_eq!(join_path("/a", "/b"), "/b");
    assert_eq!(join_path("", "b"), "b");
}

#[test]
fn a_table_holds_one_value_per_key() {
    let mut table = Table::new();
    assert!(table.is_empty());
    table.insert("a".to_string(), 1);
    table.insert("b".to_string(), 2);
    table.insert("a".to_string(), 3);
    assert_eq!(table.len(), 2);
    assert_eq!(table.get("a"), Some(&3));
    assert_eq!(table.get("c"), None);
    let mut keys: Table<bool> = Table::new();
    keys.insert("b".to_string(), true);
    table.restrict_to(&keys);
    assert!(!table.contains("a"));
    assert_eq!(table.remove("b"), Some(2));
    assert_eq!(table.remove("b"), None);
    assert!(table.drain().is_empty());
}

#[test]
fn json_is_read_as_serde_holds_it() {
    let value = |text: &str| serde_json::from_str::<serde_json::Value>(text).expect("JSON");
    assert!(json::blank(&value("null")));
    assert!(json::blank(&value("{}")));
    for other in ["[]", "0", "\"\"", "false", "{\"a\": null}"] {
        assert!(!json::blank(&value(other)), "{other}");
    }
    assert!(json::member_is(&value(r#"{"a": "x", "b": 1}"#), "a", "x"));
    assert!(!json::member_is(&value(r#"{"a": "x"}"#), "a", "y"));
    assert!(!json::member_is(&value(r#"{"a": 1}"#), "a", "1"));
    assert_eq!(json::only_number(&value(r#"{"a": 7}"#), "a"), Some(7));
    assert_eq!(json::only_number(&value(r#"{"a": 7, "b": 1}"#), "a"), None);
    assert_eq!(json::only_number(&value(r#"{"b": 7}"#), "a"), None);
    assert_eq!(json::only_number(&value(r#"{"a": 7.5}"#), "a"), None);
    assert_eq!(json::only_number(&value("7"), "a"), None);
}
