use distro_manifesto::text::decimal;
use distro_manifesto::validate::{
    is_acceptable, too_long_text, validate_answer, Validation, MAX_ANSWER_CHARS,
};

#[test]
fn limit_is_140_characters() {
    assert_eq!(MAX_ANSWER_CHARS, 140);
}

#[test]
fn empty_answer_is_valid() {
    assert_eq!(validate_answer(""), Validation::Valid);
    assert!(is_acceptable(""));
}

#[test]
fn answer_of_140_characters_is_valid() {
    let answer = "a".repeat(140);
    assert_eq!(validate_answer(&answer), Validation::Valid);
    assert!(is_acceptable(&answer));
}

#[test]
fn answer_of_141_characters_is_refused_with_the_message() {
    let answer = "a".repeat(141);
    assert_eq!(
        validate_answer(&answer),
        Validation::Invalid("You're only allowed 140 characters.".to_string())
    );
    assert!(!is_acceptable(&answer));
}

#[test]
fn every_short_answer_is_valid_and_every_long_one_refused() {
    for length in 0..=300usize {
        let answer = "x".repeat(length);
        let verdict = validate_answer(&answer);
        if length <= 140 {
            assert_eq!(verdict, Validation::Valid);
        } else {
            assert_eq!(verdict, Validation::Invalid(too_long_text()));
        }
    }
}

#[test]
fn characters_are_counted_and_not_bytes() {
    let answer = "\u{e9}".repeat(140);
    assert_eq!(answer.len(), 280);
    assert_eq!(validate_answer(&answer), Validation::Valid);
    let longer = "\u{1f600}".repeat(141);
    assert_eq!(
        validate_answer(&longer),
        Validation::Invalid("You're only allowed 140 characters.".to_string())
    );
}

#[test]
fn too_long_text_is_the_fixed_message() {
    assert_eq!(too_long_text(), "You're only allowed 140 characters.");
}

#[test]
fn decimal_writes_single_digits() {
    let written: Vec<String> = (0..10usize).map(decimal).collect();
    assert_eq!(written, vec!["0", "1", "2", "3", "4", "5", "6", "7", "8", "9"]);
}

#[test]
fn decimal_writes_longer_numbers_without_leading_zeros() {
    assert_eq!(decimal(10), "10");
    assert_eq!(decimal(11), "11");
    assert_eq!(decimal(100), "100");
    assert_eq!(decimal(1009), "1009");
    assert_eq!(decimal(4096), "4096");
    assert_eq!(decimal(1234567890), "1234567890");
}

#[test]
fn decimal_agrees_with_the_standard_formatting() {
    for n in 0..2000usize {
        assert_eq!(decimal(n), format!("{}", n));
    }
    assert_eq!(decimal(usize::MAX), format!("{}", usize::MAX));
}
