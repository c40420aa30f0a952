use wordbot::text::{
    begins_with_punctuation, count_words, ends_sentence, is_punctuation_char,
    is_whitespace_char, join_with_spaces, parse_i64, same_text,
};

#[test]
fn whitespace_matches_std_on_every_char() {
    for u in 0u32..=0x10FFFF {
        if let Some(c) = char::from_u32(u) {
            assert_eq!(is_whitespace_char(c), c.is_whitespace(), "char {:#x}", u);
        }
    }
}

#[test]
fn parse_matches_std() {
    let cases = [
        "0", "1", "-1", "+1", "42", "-42", "007", "", "+", "-", "--1", "+-1", " 1", "1 ", "1a",
        "abc", "9223372036854775807", "9223372036854775808", "-9223372036854775808",
        "-9223372036854775809", "99999999999999999999999", "١", "12.5", "1_000",
        "00000000000000000000000000009",
    ];
    for s in cases {
        assert_eq!(parse_i64(s), s.parse::<i64>().ok(), "input {:?}", s);
    }
}

#[test]
fn parse_exact_values() {
    assert_eq!(parse_i64("-42"), Some(-42));
    assert_eq!(parse_i64("+17"), Some(17));
    assert_eq!(parse_i64("9223372036854775807"), Some(i64::MAX));
    assert_eq!(parse_i64("-9223372036854775808"), Some(i64::MIN));
    assert_eq!(parse_i64("9223372036854775808"), None);
    assert_eq!(parse_i64("twelve"), None);
}

#[test]
fn word_count_matches_split_whitespace() {
    let cases = [
        "", " ", "word", " word", "word ", "two words", "a\tb", "a\u{3000}b", "\u{a0}x\u{a0}",
        "hello,world", "  many   spaced   words  ", "\n", "é",
    ];
    for s in cases {
        assert_eq!(count_words(s), s.split_whitespace().count(), "input {:?}", s);
    }
}

#[test]
fn punctuation_and_sentence_ends() {
    for c in "!\"#$%&'()*+, -./:;<=>?@[\\]^_`{|}~".chars() {
        assert!(is_punctuation_char(c));
    }
    assert!(!is_punctuation_char('a'));
    assert!(!is_punctuation_char('\t'));
    assert!(begins_with_punctuation("?what"));
    assert!(begins_with_punctuation(" what"));
    assert!(!begins_with_punctuation("what?"));
    assert!(!begins_with_punctuation(""));
    assert!(ends_sentence("end."));
    assert!(ends_sentence("!start"));
    assert!(ends_sentence("why?"));
    assert!(!ends_sentence("go,"));
    assert!(!ends_sentence(""));
}

#[test]
fn join_and_compare() {
    let words = vec!["Once".to_string(), "upon".to_string(), "a".to_string(), "time.".to_string()];
    assert_eq!(join_with_spaces(&words), "Once upon a time.");
    assert_eq!(join_with_spaces(&Vec::new()), "");
    assert_eq!(join_with_spaces(&vec!["solo".to_string()]), "solo");
    assert!(same_text("see", "see"));
    assert!(!same_text("see", "sea"));
    assert!(!same_text("see", "seen"));
}
