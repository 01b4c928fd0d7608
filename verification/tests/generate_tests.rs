use std::collections::HashSet;

use passcheck::analysis::{score, score_password};
use passcheck::generate::{generate_password, PasswordError, DEFAULT_LENGTH, GENERATED_MIN};

const POOL: &str = "abcdefghijklmnopqrstuvwxyzABCDEFGHIJKLMNOPQRSTUVWXYZ0123456789!@#$%^&*()-+=.";

#[test]
fn generated_password_has_exact_length_and_full_score() {
    for length in [10usize, 12, DEFAULT_LENGTH, 32, 64] {
        let p = generate_password(length).unwrap();
        assert_eq!(p.chars().count(), length);
        assert_eq!(score_password(&p), 5);
    }
}

#[test]
fn generated_password_at_minimum_length_has_all_classes() {
    assert_eq!(GENERATED_MIN, 4);
    let p = generate_password(GENERATED_MIN).unwrap();
    assert_eq!(p.chars().count(), 4);
    let r = score(&p);
    assert!(r.has_upper);
    assert!(r.has_lower);
    assert!(r.has_digit);
    assert!(r.has_symbol);
    // Four characters cannot reach the ten-character length criterion.
    assert!(!r.has_min_length);
    assert_eq!(r.score, 4);
}

#[test]
fn generated_characters_come_from_the_pools() {
    let pool: HashSet<char> = POOL.chars().collect();
    for length in [4usize, 16, 40] {
        let p = generate_password(length).unwrap();
        for c in p.chars() {
            assert!(pool.contains(&c), "unexpected character {c:?}");
        }
        // The pool deliberately has no underscore: the evaluator does not
        // count it as a symbol.
        assert!(!p.contains('_'));
    }
}

#[test]
fn too_short_requests_fail_with_invalid_length() {
    assert_eq!(generate_password(3), Err(PasswordError::InvalidLength));
    assert_eq!(generate_password(2), Err(PasswordError::InvalidLength));
    assert_eq!(generate_password(1), Err(PasswordError::InvalidLength));
    assert_eq!(generate_password(0), Err(PasswordError::InvalidLength));
}

#[test]
fn generation_is_nondeterministic() {
    // Two successive draws of 16 characters from a 76-character pool
    // collide with negligible probability; so do ten thousand.
    let mut seen: HashSet<String> = HashSet::new();
    for _ in 0..10_000 {
        let p = generate_password(DEFAULT_LENGTH).unwrap();
        assert!(seen.insert(p), "a generated password repeated");
    }
}

#[test]
fn default_length_is_sixteen() {
    assert_eq!(DEFAULT_LENGTH, 16);
}
