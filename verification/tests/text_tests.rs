use cathode::text::{
    byte_length, chars_of, decimal_string, same_chars, split_lines, split_whitespace,
    string_of, tokenize, trim_non_alphanumeric, trim_whitespace, two_digit_string,
};

#[test]
fn tokenize_trims_lowercases_and_drops_short_words() {
    let t = tokenize("  Rust, the Programming-Language!  a bc (Déjà)  ");
    assert_eq!(t, vec!["rust", "the", "programming-language", "déjà"]);
}

#[test]
fn tokenize_counts_bytes_not_characters() {
    // "éa" is three bytes long, "ab" only two
    assert_eq!(tokenize("éa ab"), vec!["éa"]);
}

#[test]
fn tokenize_of_blank_text_is_empty() {
    assert!(tokenize("   \t\n ").is_empty());
    assert!(tokenize("").is_empty());
}

#[test]
fn tokenize_matches_std_pipeline() {
    let title = "Why Rust's borrow checker... (2024) — explained!! Ünïcode words";
    let expected: Vec<String> = title
        .split_whitespace()
        .map(|w| w.trim_matches(|c: char| !c.is_alphanumeric()).to_lowercase())
        .filter(|w| w.len() >= 3)
        .collect();
    assert_eq!(tokenize(title), expected);
}

#[test]
fn split_whitespace_matches_std() {
    let text = " a\u{3000}bb\tccc\n\u{85}d ";
    let ws: Vec<String> = split_whitespace(&chars_of(text)).iter().map(|w| string_of(w)).collect();
    let expected: Vec<&str> = text.split_whitespace().collect();
    assert_eq!(ws, expected);
}

#[test]
fn trim_non_alphanumeric_keeps_inner_punctuation() {
    let r = trim_non_alphanumeric(&chars_of("--a-b!?"));
    assert_eq!(string_of(&r), "a-b");
    assert_eq!(string_of(&trim_non_alphanumeric(&chars_of("!!!"))), "");
}

#[test]
fn lines_follow_std_lines() {
    for text in ["a\nb", "a\r\nb\r\n", "a\n\nb\n", "", "\n", "x\r", "one\r\r\ntwo"] {
        let expected: Vec<&str> = text.lines().collect();
        assert_eq!(split_lines(text), expected, "for {:?}", text);
    }
}

#[test]
fn decimal_and_two_digits() {
    assert_eq!(decimal_string(0), "0");
    assert_eq!(decimal_string(7), "7");
    assert_eq!(decimal_string(1234567890), "1234567890");
    assert_eq!(decimal_string(u64::MAX), u64::MAX.to_string());
    assert_eq!(two_digit_string(5), "05");
    assert_eq!(two_digit_string(42), "42");
}

#[test]
fn byte_length_is_utf8_length() {
    let s = "aé€😀";
    assert_eq!(byte_length(&chars_of(s)), s.len());
}

#[test]
fn same_chars_compares_text() {
    assert!(same_chars("abc", "abc"));
    assert!(!same_chars("abc", "abd"));
    assert!(!same_chars("abc", "ab"));
}

#[test]
fn trim_whitespace_matches_std() {
    for text in ["  12345\n", "\t\u{2003}x y\u{3000}", "", "   "] {
        assert_eq!(trim_whitespace(text), text.trim());
    }
}

