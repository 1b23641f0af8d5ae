use schedule_bot::matcher::{answer_found, contains_answer, normalized_words, tokens_of_lowered};

fn words(v: &[&str]) -> Vec<String> {
    v.iter().map(|s| s.to_string()).collect()
}

#[test]
fn single_word_answer_found_among_words() {
    assert!(answer_found("ok, sure", "ok"));
    assert_eq!(normalized_words("ok, sure"), words(&["ok", "sure"]));
}

#[test]
fn multi_word_answer_found_contiguously() {
    assert!(answer_found("oh the blue   sky today", "blue sky"));
}

#[test]
fn multi_word_answer_out_of_order_is_rejected() {
    assert!(!answer_found("sky is very blue", "blue sky"));
}

#[test]
fn answer_longer_than_message_never_matches() {
    assert!(!answer_found("blue", "blue sky"));
    assert!(!contains_answer(&words(&["a"]), &words(&["a", "b"])));
    assert!(!contains_answer(&words(&[]), &words(&["a"])));
}

#[test]
fn empty_answer_matches_nothing() {
    assert!(!contains_answer(&words(&["a", "b"]), &words(&[])));
    assert!(!answer_found("anything", " ... "));
}

#[test]
fn single_word_matches_anywhere() {
    assert!(contains_answer(&words(&["x", "y", "ok"]), &words(&["ok"])));
    assert!(!contains_answer(&words(&["x", "y"]), &words(&["ok"])));
}

#[test]
fn window_at_the_end_matches() {
    assert!(contains_answer(&words(&["a", "b", "c"]), &words(&["b", "c"])));
    assert!(contains_answer(&words(&["b", "c"]), &words(&["b", "c"])));
    assert!(!contains_answer(&words(&["b", "x", "c"]), &words(&["b", "c"])));
}

#[test]
fn case_is_ignored() {
    assert!(answer_found("The BLUE Sky!", "blue sky"));
    assert_eq!(normalized_words("HeLLo"), words(&["hello"]));
}

#[test]
fn punctuation_and_whitespace_split_words() {
    assert_eq!(
        tokens_of_lowered("a-b,c.d!e?f:g\nh\ti  j"),
        words(&["a", "b", "c", "d", "e", "f", "g", "h", "i", "j"])
    );
    assert_eq!(tokens_of_lowered(""), words(&[]));
    assert_eq!(tokens_of_lowered("  .. "), words(&[]));
    assert!(answer_found("the answer is: forty-two", "Forty Two"));
}

#[test]
fn unicode_whitespace_splits_words() {
    assert_eq!(tokens_of_lowered("blue\u{3000}sky\u{a0}x"), words(&["blue", "sky", "x"]));
    assert_eq!(tokens_of_lowered("a\u{200b}b"), words(&["a\u{200b}b"]));
}
