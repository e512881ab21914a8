use game_sync::text::{comes_before, copy_text, copy_texts, join, same_texts, strip_prefix};

fn texts(values: &[&str]) -> Vec<String> {
    values.iter().map(|value| value.to_string()).collect()
}

#[test]
fn order_is_that_of_the_bytes() {
    assert!(comes_before("a", "b"));
    assert!(!comes_before("b", "a"));
    assert!(!comes_before("a", "a"));
    assert!(comes_before("", "a"));
    assert!(!comes_before("a", ""));
    assert!(comes_before("ab", "abc"));
    assert!(comes_before("Z", "a"));
    assert!(comes_before("2024-01-09", "2024-01-10"));
    assert!(comes_before("z", "\u{e9}"));
    assert!(comes_before("\u{ffff}", "\u{10000}"));
}

#[test]
fn order_agrees_with_the_standard_one() {
    let all = ["", "a", "aa", "ab", "b", "B", "\u{e9}", "\u{20ac}", "\u{1f600}", "~", "0"];
    for a in all {
        for b in all {
            assert_eq!(comes_before(a, b), a < b);
        }
    }
}

#[test]
fn order_is_total_and_passes_along() {
    let all = ["", "a", "ab", "b", "\u{e9}", "\u{1f600}"];
    for a in all {
        for b in all {
            assert_eq!(a != b, comes_before(a, b) != comes_before(b, a));
            for c in all {
                if comes_before(a, b) && comes_before(b, c) {
                    assert!(comes_before(a, c));
                }
            }
        }
    }
}

#[test]
fn prefixes_are_stripped_once() {
    assert_eq!(strip_prefix("drive-file:abc", "drive-file:"), Some("abc".to_string()));
    assert_eq!(strip_prefix("aab", "a"), Some("ab".to_string()));
    assert_eq!(strip_prefix("abc", ""), Some("abc".to_string()));
    assert_eq!(strip_prefix("abc", "abc"), Some(String::new()));
    assert_eq!(strip_prefix("abc", "abcd"), None);
    assert_eq!(strip_prefix("xbc", "ab"), None);
    assert_eq!(strip_prefix("\u{e9}t\u{e9}", "\u{e9}"), Some("t\u{e9}".to_string()));
}

#[test]
fn texts_are_joined_and_copied() {
    assert_eq!(join("ab", "cd"), "abcd");
    assert_eq!(join("", ""), "");
    assert_eq!(copy_text(&Some("x".to_string())), Some("x".to_string()));
    assert_eq!(copy_text(&None), None);
    assert_eq!(copy_texts(&texts(&["a", "b"])), texts(&["a", "b"]));
}

#[test]
fn lists_of_texts_are_the_same_by_content_and_order() {
    assert!(same_texts(&texts(&[]), &texts(&[])));
    assert!(same_texts(&texts(&["a", "b"]), &texts(&["a", "b"])));
    assert!(!same_texts(&texts(&["a", "b"]), &texts(&["b", "a"])));
    assert!(!same_texts(&texts(&["a"]), &texts(&["a", "a"])));
    assert!(!same_texts(&texts(&["a"]), &texts(&["b"])));
}
