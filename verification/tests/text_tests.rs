use claudio::text::{
    chars_of, contains, push_decimal, push_str, starts_with, str_eq, string_from_chars,
    trim,
};

#[test]
fn trim_removes_surrounding_whitespace() {
    assert_eq!(trim("  a b \t\n"), "a b");
    assert_eq!(trim("\u{3000}x\u{a0}"), "x");
    assert_eq!(trim("   "), "");
    assert_eq!(trim(""), "");
    assert_eq!(trim("no-space"), "no-space");
}

#[test]
fn trim_agrees_with_std() {
    for s in ["\u{2028} mid dle \u{85}", "\t\u{205f}q", "a\u{200b}", "\u{1680}z\u{202f}"] {
        assert_eq!(trim(s), s.trim());
    }
}

#[test]
fn contains_finds_substrings() {
    assert!(contains("hello world", "lo w"));
    assert!(contains("abc", ""));
    assert!(!contains("abc", "abcd"));
    assert!(!contains("abc", "cb"));
    assert!(contains("正在播放：x", "播放"));
}

#[test]
fn starts_with_and_equality() {
    assert!(starts_with("longxiaoxia", "long"));
    assert!(!starts_with("lon", "long"));
    assert!(str_eq("light", "light"));
    assert!(!str_eq("light", "Light"));
    assert!(!str_eq("light", "lights"));
}

#[test]
fn decimal_text_of_numbers() {
    let mut s = String::new();
    push_decimal(&mut s, 0);
    assert_eq!(s, "0");
    let mut s = String::from("n=");
    push_decimal(&mut s, 12345);
    assert_eq!(s, "n=12345");
    let mut s = String::new();
    push_decimal(&mut s, u128::MAX);
    assert_eq!(s, u128::MAX.to_string());
}

#[test]
fn chars_round_trip() {
    let cs = chars_of("日本 ok");
    assert_eq!(cs, vec!['日', '本', ' ', 'o', 'k']);
    assert_eq!(string_from_chars(&cs), "日本 ok");
    let mut out = String::from("a");
    push_str(&mut out, "βc");
    assert_eq!(out, "aβc");
}
