use steward_harness::json::member_text;
use steward_harness::text::{
    chars_of, concat2, concat3, concat4, concat5, contains_lowered, contains_text, decimal, extend,
    hex, join, lines, repeat, rsplit_once, same_text, split_once, starts_with, text_is_before,
    texts, trim, trim_final_newlines,
};

#[test]
fn texts_are_searched() {
    assert!(contains_text("naïve café", "ve ca"));
    assert!(contains_text("", ""));
    assert!(!contains_text("ab", "abc"));
    assert!(contains_lowered("LOCATION: X", "location: x"));
    assert!(!contains_lowered("location", "LOCATION"));
    assert!(starts_with("kind-steward-a", "kind-"));
    assert!(starts_with("a", ""));
    assert!(!starts_with("a", "ab"));
    assert!(same_text("é", "é"));
    assert!(!same_text("e", "é"));
    assert_eq!(chars_of("aé"), vec!['a', 'é']);
}

#[test]
fn texts_are_split() {
    assert_eq!(split_once("a=b=c", "="), Some(("a", "b=c")));
    assert_eq!(rsplit_once("a=b=c", "="), Some(("a=b", "c")));
    assert_eq!(rsplit_once("aaa", "aa"), Some(("a", "")));
    assert_eq!(split_once("aaa", "aa"), Some(("", "a")));
    assert_eq!(split_once("é→ü", "→"), Some(("é", "ü")));
    assert_eq!(split_once("abc", "x"), None);
    assert_eq!(rsplit_once("", "x"), None);
    for text in ["a\nb\r\nc", "\n\n", "", "a\r", "a\r\r\n", "x\n"] {
        assert_eq!(lines(text), text.lines().collect::<Vec<_>>());
    }
}

#[test]
fn texts_are_trimmed() {
    for text in ["", " a b ", "\u{2003}x\u{3000}", "\u{200b}y", "\t\r\n", "\u{85}z\u{a0}"] {
        assert_eq!(trim(text), text.trim());
    }
    assert_eq!(trim_final_newlines("a\n\r\n\n"), "a\n\r");
    assert_eq!(trim_final_newlines("\n\n"), "");
}

#[test]
fn numbers_and_bytes_are_written() {
    for number in [0, 9, 10, 65_535, u128::MAX] {
        assert_eq!(decimal(number), number.to_string());
    }
    assert_eq!(hex(&[0, 15, 16, 255]), "000f10ff");
    assert_eq!(hex(&[]), "");
    assert_eq!(repeat("é", 3), "ééé");
    assert_eq!(repeat("x", 0), "");
}

#[test]
fn texts_are_put_together() {
    assert_eq!(join(&["a", "b", "c"], ", "), "a, b, c");
    assert_eq!(join(&[], ", "), "");
    assert_eq!(concat2("a", "b"), "ab");
    assert_eq!(concat3("a", "b", "c"), "abc");
    assert_eq!(concat4("a", "b", "c", "d"), "abcd");
    assert_eq!(concat5("a", "b", "c", "d", "e"), "abcde");
    let mut all = texts(&["a"]);
    extend(&mut all, texts(&["b", "c"]));
    assert_eq!(all, vec!["a", "b", "c"]);
}

#[test]
fn texts_have_the_order_of_their_code_points() {
    let words = ["", "PROJ-1000", "PROJ-123", "PROJ-99", "a", "ab", "é", "\u{10000}"];
    for left in words {
        for right in words {
            assert_eq!(text_is_before(left, right), left < right);
        }
    }
}

#[test]
fn a_text_member_is_found() {
    let value: serde_json::Value = serde_json::from_str("{\"a\":\"x\",\"b\":1}").unwrap();
    assert_eq!(member_text(&value, "a"), Some("x"));
    assert_eq!(member_text(&value, "b"), None);
    assert_eq!(member_text(&value, "c"), None);
    assert_eq!(member_text(&serde_json::Value::Null, "a"), None);
}
