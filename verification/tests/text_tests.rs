use coding_tutor::text::contains_str;
use coding_tutor::text::has_prefix_str;
use coding_tutor::text::split_lines_str;
use coding_tutor::text::trim_str;
use coding_tutor::tutor::detect_challenge_offer;

#[test]
fn substring_search_matches_rust_semantics() {
    assert!(contains_str("hello world", "o w"));
    assert!(contains_str("hello", ""));
    assert!(!contains_str("hello", "world"));
    assert!(!contains_str("ab", "abc"));
}

#[test]
fn challenge_markers_are_detected_case_insensitively() {
    assert!(detect_challenge_offer("Here is a CHALLENGE for you"));
    assert!(detect_challenge_offer("Now TRY TO write it yourself"));
    assert!(detect_challenge_offer("Your Task: sum the list"));
    assert!(!detect_challenge_offer("Let's keep studying variables"));
}

#[test]
fn trimming_removes_surrounding_whitespace_only() {
    assert_eq!(trim_str("  hello \t"), "hello");
    assert_eq!(trim_str("a b"), "a b");
    assert_eq!(trim_str("   "), "");
    assert_eq!(trim_str(""), "");
}

#[test]
fn line_splitting_matches_str_lines() {
    let cases = [
        "a\nb",
        "a\r\nb\n",
        "one line",
        "",
        "\n",
        "a\n\nb",
        "trailing\r",
    ];
    for s in cases {
        let expected: Vec<String> = s.lines().map(|l| l.to_string()).collect();
        assert_eq!(split_lines_str(s), expected, "case {s:?}");
    }
}

#[test]
fn prefix_test_matches_rust_semantics() {
    assert!(has_prefix_str("FEEDBACK: good", "FEEDBACK:"));
    assert!(!has_prefix_str("notes FEEDBACK:", "FEEDBACK:"));
    assert!(has_prefix_str("anything", ""));
}
