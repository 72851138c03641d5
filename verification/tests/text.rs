use wasmrunner::text::{chars_of, split_first, str_contains, str_starts_with};

#[test]
fn characters_of_a_string() {
    assert_eq!(chars_of("añb"), vec!['a', 'ñ', 'b']);
    assert_eq!(chars_of(""), Vec::<char>::new());
}

#[test]
fn piece_is_found_anywhere() {
    assert!(str_contains("threads support is not enabled", "not enabled"));
    assert!(str_contains("not enabled", "not enabled"));
    assert!(str_contains("abc", "c"));
    assert!(str_contains("abc", "a"));
    assert!(str_contains("abc", ""));
    assert!(str_contains("", ""));
    assert!(!str_contains("", "a"));
    assert!(!str_contains("abc", "abcd"));
    assert!(!str_contains("not enable", "not enabled"));
    assert!(!str_contains("aab", "aba"));
    assert!(str_contains("aaab", "aab"));
    assert!(str_contains("größe", "öß"));
    assert!(!str_contains("große", "öß"));
}

#[test]
fn prefix_is_found_at_the_start_only() {
    assert!(str_starts_with("sock_accept", "sock_"));
    assert!(str_starts_with("sock_", "sock_"));
    assert!(str_starts_with("anything", ""));
    assert!(str_starts_with("", ""));
    assert!(!str_starts_with("sock", "sock_"));
    assert!(!str_starts_with("a_sock_b", "sock_"));
    assert!(!str_starts_with("", "x"));
    assert!(str_starts_with("öl", "ö"));
}

#[test]
fn string_is_split_at_the_first_delimiter() {
    assert_eq!(split_first("a=b=c", '='), Some(("a".to_string(), "b=c".to_string())));
    assert_eq!(split_first("abc", '='), None);
    assert_eq!(split_first("=", '='), Some((String::new(), String::new())));
}
