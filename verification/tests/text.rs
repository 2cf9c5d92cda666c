use sticker_bot::text::{
    chars_of, contains_chars, decimal_string, matches_at, push_decimal, push_signed_decimal,
    same_chars, split_chars, starts_with_chars, string_from, string_of,
};

fn chars(s: &str) -> Vec<char> {
    s.chars().collect()
}

#[test]
fn characters_and_back() {
    assert_eq!(chars_of("a\u{e9}\u{1f600}"), vec!['a', '\u{e9}', '\u{1f600}']);
    assert_eq!(chars_of(""), Vec::<char>::new());
    assert_eq!(string_from(&chars("a\u{e9}\u{1f600}")), "a\u{e9}\u{1f600}");
    assert_eq!(string_of(&chars("sticker"), 1, 4), "tic");
    assert_eq!(string_of(&chars("sticker"), 3, 3), "");
}

#[test]
fn pieces_between_separators() {
    let pieces = |s: &str| -> Vec<String> {
        split_chars(&chars(s), '/').iter().map(|p| p.iter().collect()).collect()
    };
    assert_eq!(pieces("a/b/c"), vec!["a", "b", "c"]);
    assert_eq!(pieces(""), vec![""]);
    assert_eq!(pieces("/"), vec!["", ""]);
    assert_eq!(pieces("a//b/"), vec!["a", "", "b", ""]);
    assert_eq!(pieces("abc"), vec!["abc"]);
    for s in ["", "/", "a/b", "//a//", "https://p.com/u/b/"] {
        assert_eq!(pieces(s), s.split('/').collect::<Vec<_>>());
        assert_eq!(pieces(s).join("/"), s);
    }
}

#[test]
fn text_within_text() {
    assert!(contains_chars(&chars("www.pinterest.com"), &chars("pinterest")));
    assert!(contains_chars(&chars("pinterest"), &chars("pinterest")));
    assert!(!contains_chars(&chars("pinteres"), &chars("pinterest")));
    assert!(!contains_chars(&chars("pinter-est"), &chars("pinterest")));
    assert!(contains_chars(&chars("abc"), &chars("")));
    assert!(contains_chars(&chars(""), &chars("")));
    assert!(!contains_chars(&chars(""), &chars("a")));
    assert!(contains_chars(&chars("aab"), &chars("ab")));
    assert!(matches_at(&chars("aab"), &chars("ab"), 1));
    assert!(!matches_at(&chars("aab"), &chars("ab"), 0));
}

#[test]
fn text_at_the_start_and_equal_texts() {
    assert!(starts_with_chars(&chars("set-1"), &chars("set")));
    assert!(starts_with_chars(&chars("set"), &chars("set")));
    assert!(!starts_with_chars(&chars("se"), &chars("set")));
    assert!(!starts_with_chars(&chars("reset"), &chars("set")));
    assert!(same_chars(&chars("abc"), &chars("abc")));
    assert!(!same_chars(&chars("abc"), &chars("abd")));
    assert!(!same_chars(&chars("abc"), &chars("ab")));
    assert!(same_chars(&chars(""), &chars("")));
}

#[test]
fn numbers_in_decimal() {
    assert_eq!(decimal_string(0), "0");
    assert_eq!(decimal_string(7), "7");
    assert_eq!(decimal_string(10), "10");
    assert_eq!(decimal_string(288), "288");
    assert_eq!(decimal_string(1_000_000), "1000000");
    assert_eq!(decimal_string(u128::MAX), u128::MAX.to_string());
    let mut out = String::from("n=");
    push_decimal(&mut out, 4096);
    push_signed_decimal(&mut out, -12);
    push_signed_decimal(&mut out, 0);
    assert_eq!(out, "n=4096-120");
}
