use logpv2::text::chars_of;
use logpv2::text::clone_texts;
use logpv2::text::contains;
use logpv2::text::strip_trailing_separator;

#[test]
fn contains_finds_a_word_anywhere() {
    assert!(contains("prometheus-midlayer-0", "midlayer"));
    assert!(contains("midlayer-prometheus", "midlayer"));
    assert!(contains("x-session", "session"));
    assert!(contains("titan-ns", "titan-ns"));
}

#[test]
fn contains_rejects_what_is_not_there() {
    assert!(!contains("prometheus-0", "midlayer"));
    assert!(!contains("mid-layer", "midlayer"));
    assert!(!contains("midlaye", "midlayer"));
    assert!(!contains("", "a"));
}

#[test]
fn contains_finds_the_empty_text_everywhere() {
    assert!(contains("abc", ""));
    assert!(contains("", ""));
}

#[test]
fn contains_handles_repeated_prefixes() {
    assert!(contains("aaab", "aab"));
    assert!(contains("ababac", "abac"));
    assert!(!contains("ababab", "abac"));
}

#[test]
fn contains_works_beyond_ascii() {
    assert!(contains("naïve-pod", "ïve"));
    assert!(!contains("naive-pod", "ïve"));
}

#[test]
fn strip_trailing_separator_removes_one_separator() {
    assert_eq!(strip_trailing_separator("/tmp/out/"), "/tmp/out");
    assert_eq!(strip_trailing_separator("/tmp/out//"), "/tmp/out/");
    assert_eq!(strip_trailing_separator("/"), "");
}

#[test]
fn strip_trailing_separator_keeps_other_paths() {
    assert_eq!(strip_trailing_separator("/tmp/out"), "/tmp/out");
    assert_eq!(strip_trailing_separator(""), "");
    assert_eq!(strip_trailing_separator("répertoire"), "répertoire");
}

#[test]
fn chars_of_lists_every_character() {
    assert_eq!(chars_of("aé/"), vec!['a', 'é', '/']);
    assert_eq!(chars_of(""), Vec::<char>::new());
}

#[test]
fn clone_texts_copies_in_order() {
    let texts = vec!["one".to_string(), "two".to_string()];
    assert_eq!(clone_texts(&texts), texts);
    assert_eq!(clone_texts(&Vec::new()), Vec::<String>::new());
}
