use yaak_http::json::{get_bool, get_str, get_str_h, has_member, JsonValue};
use yaak_http::text::{chars_of, ends_with, is_blank, join, starts_with};

fn s(v: &str) -> JsonValue {
    JsonValue::Str(v.to_string())
}

fn obj(members: Vec<(&str, JsonValue)>) -> JsonValue {
    JsonValue::Object(members.into_iter().map(|(k, v)| (k.to_string(), v)).collect())
}

#[test]
fn prefixes_and_suffixes() {
    assert!(starts_with("https://x", "https://"));
    assert!(!starts_with("http", "https://"));
    assert!(starts_with("abc", ""));
    assert!(ends_with("site.dev", ".dev"));
    assert!(!ends_with("dev", ".dev"));
    assert_eq!(join("ab", "cd"), "abcd");
    assert_eq!(chars_of("héllo"), vec!['h', 'é', 'l', 'l', 'o']);
}

#[test]
fn blank_text() {
    assert!(is_blank(""));
    assert!(is_blank(" \t\n"));
    assert!(is_blank("\u{3000}\u{a0}"));
    assert!(!is_blank(" x "));
    assert!(!is_blank("{}"));
}

#[test]
fn string_and_flag_fields() {
    let v = obj(vec![("name", s("a")), ("enabled", JsonValue::Bool(false)), ("n", JsonValue::Number("3".to_string()))]);
    assert_eq!(get_str(&v, "name"), "a");
    assert_eq!(get_str(&v, "n"), "");
    assert_eq!(get_str(&v, "missing"), "");
    assert!(!get_bool(&v, "enabled", true));
    assert!(get_bool(&v, "missing", true));
    assert!(!get_bool(&v, "name", false));
    assert_eq!(get_str(&s("x"), "name"), "");
    assert!(get_bool(&JsonValue::Null, "enabled", true));
}

#[test]
fn first_member_of_a_name_wins() {
    let members = vec![("k".to_string(), s("first")), ("k".to_string(), s("second"))];
    assert_eq!(get_str_h(&members, "k"), "first");
    assert!(has_member(&members, "k"));
    assert!(!has_member(&members, "K"));
}
