use taurigon::text::{
    char_is_ws, chars_of, str_concat, contains_str, join_strings, remove_char_str, replace_str,
    split_chars, split_ws_chars, str_eq, str_eq_ignore_ascii_case, string_of,
    trim_char_chars, trim_str, u64_to_string,
};

fn words(v: Vec<Vec<char>>) -> Vec<String> {
    v.into_iter().map(|w| w.into_iter().collect()).collect()
}

#[test]
fn trimming() {
    assert_eq!(trim_str("  a b \t\r\n"), "a b");
    assert_eq!(trim_str("\u{3000}x\u{a0}"), "x");
    assert_eq!(trim_str("   "), "");
    assert_eq!(trim_str(""), "");
    let t: String = trim_char_chars(&chars_of("\"\"x\"y\""), '\"').into_iter().collect();
    assert_eq!(t, "x\"y");
    assert!(char_is_ws('\u{2028}'));
    assert!(!char_is_ws('\u{200b}'));
}

#[test]
fn splitting() {
    assert_eq!(words(split_chars(&chars_of("a\nb\n"), '\n')), vec!["a", "b", ""]);
    assert_eq!(words(split_chars(&chars_of(""), '\n')), vec![""]);
    assert_eq!(words(split_ws_chars(&chars_of("  a \t b  "))), vec!["a", "b"]);
    assert!(split_ws_chars(&chars_of("   ")).is_empty());
}

#[test]
fn replacing() {
    assert_eq!(replace_str("aaa", "aa", "b"), "ba");
    assert_eq!(replace_str("x{path}y{path}", "{path}", "P"), "xPyP");
    assert_eq!(replace_str("abc", "z", "q"), "abc");
    assert_eq!(replace_str("abc", "", "-"), "abc".replace("", "-"));
    assert_eq!(replace_str("abc", "", "-"), "-a-b-c-");
    assert_eq!(replace_str("", "", "x"), "x");
    assert_eq!(remove_char_str("8.3.1", '.'), "831");
    assert!(contains_str("code {path}", "{path}"));
    assert!(!contains_str("code", "{path}"));
    assert!(contains_str("x", ""));
}

#[test]
fn joining_and_numbers() {
    let v = vec!["a".to_string(), "b".to_string(), "c".to_string()];
    assert_eq!(join_strings(&v, " "), "a b c");
    assert_eq!(join_strings(&vec![], " "), "");
    assert_eq!(u64_to_string(0), "0");
    assert_eq!(u64_to_string(8306), "8306");
    assert_eq!(u64_to_string(u64::MAX), u64::MAX.to_string());
    assert_eq!(str_concat("a", "b"), "ab");
    assert_eq!(string_of(&['x', 'y']), "xy");
}

#[test]
fn comparing() {
    assert!(str_eq("abc", "abc"));
    assert!(!str_eq("abc", "abd"));
    assert!(str_eq_ignore_ascii_case("CachyOS", "cachyos"));
    assert!(!str_eq_ignore_ascii_case("Ä", "ä"));
}
