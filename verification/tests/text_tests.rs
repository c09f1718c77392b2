use simulador::text::{chars_of, contains, is_blank_str, starts_with, str_eq, str_less, string_of, trim_str};

#[test]
fn trim_matches_std() {
    for s in ["", "  ", " a ", "\u{3000}nombre\t\n", "a b", "\u{a0}x\u{85}", "x"] {
        assert_eq!(trim_str(s), s.trim());
    }
}

#[test]
fn blank_detection() {
    assert!(is_blank_str(""));
    assert!(is_blank_str(" \t\n"));
    assert!(!is_blank_str(" 0 "));
}

#[test]
fn search_and_prefix() {
    assert!(contains("proyecto zona norte", "zona"));
    assert!(contains("abc", ""));
    assert!(!contains("ab", "abc"));
    assert!(!contains("zona", "Zona"));
    assert!(starts_with("https://x", "https://"));
    assert!(!starts_with("http", "https"));
}

#[test]
fn equality_and_order() {
    assert!(str_eq("año", "año"));
    assert!(!str_eq("a", "b"));
    assert!(str_less("2024-05-01", "2024-05-02"));
    assert!(!str_less("2024-05-02", "2024-05-02"));
    assert!(str_less("2024-05", "2024-05-01"));
    assert!(!str_less("b", "a"));
    for (a, b) in [("z", "é"), ("ab", "a"), ("", "x"), ("x", "")] {
        assert_eq!(str_less(a, b), a < b);
    }
}

#[test]
fn chars_round_trip() {
    let v = chars_of("ñandú");
    assert_eq!(v, vec!['ñ', 'a', 'n', 'd', 'ú']);
    assert_eq!(string_of(&v), "ñandú");
}
