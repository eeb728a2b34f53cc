use ggufy::text::{
    chars_of, contains_char, contains_chars, contains_str, decimal_string, eq_ignore_ascii_case,
    join, lower_ascii, matches_at, replace_char, rscan, scan, starts_with,
};

fn chars(s: &str) -> Vec<char> {
    s.chars().collect()
}

fn strings(items: &[&str]) -> Vec<String> {
    items.iter().map(|s| s.to_string()).collect()
}

#[test]
fn chars_of_gives_every_character() {
    assert_eq!(chars_of("aé:"), vec!['a', 'é', ':']);
    assert_eq!(chars_of(""), Vec::<char>::new());
}

#[test]
fn scan_finds_first_from_position() {
    let c = chars("a:b:c");
    assert_eq!(scan(&c, ':', 0), 1);
    assert_eq!(scan(&c, ':', 1), 1);
    assert_eq!(scan(&c, ':', 2), 3);
    assert_eq!(scan(&c, ':', 4), 5);
    assert_eq!(scan(&c, ':', 5), 5);
    assert_eq!(scan(&c, 'x', 0), 5);
}

#[test]
fn rscan_finds_last() {
    assert_eq!(rscan(&chars("a/b/c"), '/'), Some(3));
    assert_eq!(rscan(&chars("/"), '/'), Some(0));
    assert_eq!(rscan(&chars("abc"), '/'), None);
    assert_eq!(rscan(&chars(""), '/'), None);
}

#[test]
fn matches_at_compares_in_place() {
    let hay = chars("hello");
    assert!(matches_at(&hay, &chars("ell"), 1));
    assert!(!matches_at(&hay, &chars("ell"), 0));
    assert!(matches_at(&hay, &chars(""), 5));
}

#[test]
fn contains_finds_substrings() {
    assert!(contains_str("use tts now", "tts"));
    assert!(contains_str("tts", "tts"));
    assert!(contains_str("abc", ""));
    assert!(contains_str("", ""));
    assert!(!contains_str("", "a"));
    assert!(!contains_str("tt", "tts"));
    assert!(!contains_str("t-t-s", "tts"));
    assert!(contains_str("xxaudio", "audio"));
    assert!(contains_chars(&chars("aab"), &chars("ab")));
}

#[test]
fn contains_char_tells_presence() {
    assert!(contains_char("a:b", ':'));
    assert!(!contains_char("ab", ':'));
    assert!(!contains_char("", ':'));
}

#[test]
fn prefix_is_compared_in_full() {
    assert!(starts_with("sha256:abc", "sha256:"));
    assert!(!starts_with("sha256", "sha256:"));
    assert!(!starts_with("xsha256:abc", "sha256:"));
    assert!(starts_with("abc", ""));
    assert!(starts_with("", ""));
    assert!(!starts_with("", "a"));
}

#[test]
fn lower_ascii_touches_capitals_only() {
    assert_eq!(lower_ascii('A'), 'a');
    assert_eq!(lower_ascii('Z'), 'z');
    assert_eq!(lower_ascii('a'), 'a');
    assert_eq!(lower_ascii('@'), '@');
    assert_eq!(lower_ascii('['), '[');
    assert_eq!(lower_ascii('É'), 'É');
    assert_eq!(lower_ascii('5'), '5');
}

#[test]
fn eq_ignore_ascii_case_agrees_with_std() {
    for (a, b) in [("cloud", "CLOUD"), ("a", "b"), ("", ""), ("É", "é"), ("ab", "abc"), ("Ab", "aB")] {
        assert_eq!(eq_ignore_ascii_case(a, b), a.eq_ignore_ascii_case(b));
    }
}

#[test]
fn replace_char_turns_every_occurrence() {
    assert_eq!(replace_char("sha256:ab:cd", ':', "-"), "sha256-ab-cd");
    assert_eq!(replace_char("::", ':', "-"), "--");
    assert_eq!(replace_char("abc", ':', "-"), "abc");
    assert_eq!(replace_char("", ':', "-"), "");
}

#[test]
fn join_puts_separator_between_parts() {
    assert_eq!(join(&strings(&["a", "b", "c"]), " "), "a b c");
    assert_eq!(join(&strings(&["a"]), " "), "a");
    assert_eq!(join(&strings(&[]), " "), "");
    assert_eq!(join(&strings(&["", ""]), ", "), ", ");
}

#[test]
fn decimal_string_writes_base_ten() {
    assert_eq!(decimal_string(0), "0");
    assert_eq!(decimal_string(7), "7");
    assert_eq!(decimal_string(10), "10");
    assert_eq!(decimal_string(11434), "11434");
    assert_eq!(decimal_string(12434), "12434");
    assert_eq!(decimal_string(65535), "65535");
    assert_eq!(decimal_string(1000), "1000");
}
