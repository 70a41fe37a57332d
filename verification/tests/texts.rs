use docrender::text::{chars_of, lowercased, matches_at, split_text, text_of};

#[test]
fn chars_and_back() {
    let chars = chars_of("a\u{e9}z");
    assert_eq!(chars, vec!['a', '\u{e9}', 'z']);
    assert_eq!(text_of(&chars, 0, 3), "a\u{e9}z");
    assert_eq!(text_of(&chars, 1, 2), "\u{e9}");
    assert_eq!(text_of(&chars, 2, 2), "");
}

#[test]
fn matches_at_a_position() {
    let hay = chars_of("abcabc");
    let needle = chars_of("bc");
    assert!(matches_at(&hay, &needle, 1));
    assert!(matches_at(&hay, &needle, 4));
    assert!(!matches_at(&hay, &needle, 0));
    assert!(!matches_at(&hay, &needle, 5));
    assert!(!matches_at(&hay, &needle, 60));
    assert!(matches_at(&hay, &chars_of(""), 6));
    assert!(!matches_at(&hay, &chars_of(""), 7));
}

#[test]
fn split_at_every_occurrence() {
    assert_eq!(split_text("a==b==c", "=="), vec!["a", "b", "c"]);
    assert_eq!(split_text("==a==", "=="), vec!["", "a", ""]);
    assert_eq!(split_text("a====b", "=="), vec!["a", "", "b"]);
}

#[test]
fn split_takes_the_leftmost_occurrences() {
    assert_eq!(split_text("aaa", "aa"), vec!["", "a"]);
    assert_eq!(split_text("abababa", "aba"), vec!["", "b", ""]);
}

#[test]
fn split_without_an_occurrence_is_the_text() {
    assert_eq!(split_text("abc", "=="), vec!["abc"]);
    assert_eq!(split_text("", "=="), vec![""]);
    assert_eq!(split_text("=", "=="), vec!["="]);
}

#[test]
fn split_by_an_empty_delimiter_cuts_at_every_character() {
    assert_eq!(split_text("abc", ""), vec!["", "a", "b", "c", ""]);
    assert_eq!(split_text("", ""), vec!["", ""]);
    assert_eq!(split_text("\u{e9}", ""), vec!["", "\u{e9}", ""]);
}

#[test]
fn split_agrees_with_the_standard_library() {
    let texts = ["a==b==c", "==a==", "a====b", "aaa", "abc", "", "caf\u{e9}==\u{e9}"];
    for text in texts {
        for delimiter in ["==", "a", "aa", "\u{e9}", ""] {
            let expected: Vec<String> = text.split(delimiter).map(str::to_string).collect();
            assert_eq!(split_text(text, delimiter), expected);
        }
    }
}

#[test]
fn pieces_joined_by_the_delimiter_are_the_text() {
    for text in ["a==b==c", "==a==", "a====b", "=", ""] {
        assert_eq!(split_text(text, "==").join("=="), text);
    }
}

#[test]
fn lowercased_turns_ascii_capitals() {
    assert_eq!(lowercased("YAML"), "yaml");
    assert_eq!(lowercased("Toml-2 \u{c9}"), "toml-2 \u{c9}");
    assert_eq!(lowercased(""), "");
}
