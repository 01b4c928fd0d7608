use passcheck::analysis::{
    classify, has_lower, has_number, has_symbol, has_upper, score, score_password, suggestions,
    valid_length, Label, MIN_LENGTH,
};

#[test]
fn score_is_count_of_true_predicates() {
    // All five criteria hold.
    let r = score("Tr0ub4dor&3xyz");
    assert!(r.has_min_length);
    assert!(r.has_upper);
    assert!(r.has_lower);
    assert!(r.has_digit);
    assert!(r.has_symbol);
    assert_eq!(r.score, 5);

    // Only the lowercase criterion holds.
    let r = score("abc");
    assert!(!r.has_min_length);
    assert!(!r.has_upper);
    assert!(r.has_lower);
    assert!(!r.has_digit);
    assert!(!r.has_symbol);
    assert_eq!(r.score, 1);
}

#[test]
fn empty_string_scores_zero() {
    let r = score("");
    assert_eq!(r.score, 0);
    assert!(!r.has_min_length);
    assert!(!r.has_upper);
    assert!(!r.has_lower);
    assert!(!r.has_digit);
    assert!(!r.has_symbol);
    assert_eq!(score_password(""), 0);
}

#[test]
fn predicates_on_single_classes() {
    assert!(has_upper("A"));
    assert!(!has_upper("a1_."));
    assert!(has_lower("z"));
    assert!(!has_lower("A1_."));
    assert!(has_number("5"));
    assert!(!has_number("Aa_."));
    assert!(has_symbol("."));
    assert!(!has_symbol("Aa1"));
}

#[test]
fn underscore_is_not_a_symbol() {
    assert!(!has_symbol("_"));
    assert!(!has_symbol("Aa1_Aa1_Aa1_"));
    assert_eq!(score_password("Aa1_Aa1_Aa1_"), 4);
}

#[test]
fn non_ascii_letter_counts_as_symbol() {
    // Outside ASCII letters, digits and underscore, so a symbol for the
    // evaluator.
    assert!(has_symbol("é"));
}

#[test]
fn length_is_counted_in_characters() {
    assert_eq!(MIN_LENGTH, 10);
    assert!(!valid_length("aaaaaaaaa")); // 9 chars
    assert!(valid_length("aaaaaaaaaa")); // 10 chars
    // 10 characters, more than 10 bytes.
    assert!(valid_length("ßßßßßßßßßß"));
}

#[test]
fn classify_boundaries() {
    assert_eq!(classify(0), Label::Weak);
    assert_eq!(classify(1), Label::Weak);
    assert_eq!(classify(2), Label::Weak);
    assert_eq!(classify(3), Label::Medium);
    assert_eq!(classify(4), Label::Strong);
    assert_eq!(classify(5), Label::Strong);
}

#[test]
fn classify_is_monotonic_across_scores() {
    let rank = |l: Label| match l {
        Label::Weak => 0,
        Label::Medium => 1,
        Label::Strong => 2,
    };
    for s1 in 0..=5u8 {
        for s2 in s1..=5u8 {
            assert!(rank(classify(s1)) <= rank(classify(s2)));
        }
    }
}

#[test]
fn label_names() {
    assert_eq!(Label::Weak.as_str(), "Weak");
    assert_eq!(Label::Medium.as_str(), "Medium");
    assert_eq!(Label::Strong.as_str(), "Strong");
}

#[test]
fn strong_candidate_has_no_suggestions() {
    let lines = suggestions("Tr0ub4dor&3xyz");
    assert!(lines.is_empty());
}

#[test]
fn suggestions_are_the_complement_of_true_predicates() {
    // "abc" fails length, upper, digit and symbol; passes lower.
    let lines = suggestions("abc");
    assert_eq!(
        lines,
        vec![
            "- Make it at least 10 characters long.".to_string(),
            "- Include at least one uppercase letter.".to_string(),
            "- Include at least one number.".to_string(),
            "- Include at least one special character (e.g., !@#$%^&*).".to_string(),
        ]
    );

    // "ABCDEFGHIJK" passes length and upper; fails lower, digit, symbol.
    let lines = suggestions("ABCDEFGHIJK");
    assert_eq!(
        lines,
        vec![
            "- Include at least one lowercase letter.".to_string(),
            "- Include at least one number.".to_string(),
            "- Include at least one special character (e.g., !@#$%^&*).".to_string(),
        ]
    );
}
