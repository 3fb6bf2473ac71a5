use pwd_helper::{
    generate, suggest, GenerationError, GenerationSpec, PasswordLevel, PasswordPolicyKind,
};

fn is_symbol(c: char) -> bool {
    matches!(c, '!'..='/' | ':'..='@' | '['..='`' | '{'..='~')
}

fn none_enabled(length: usize) -> GenerationSpec {
    GenerationSpec {
        length,
        numbers: false,
        lowercase_letters: false,
        uppercase_letters: false,
        symbols: false,
        spaces: false,
        exclude_similar_characters: false,
        strict: false,
    }
}

#[test]
fn every_level_and_length_gives_exact_size() {
    for level in [PasswordPolicyKind::Random, PasswordPolicyKind::NumericOnly, PasswordPolicyKind::AlphaNumeric] {
        for length in 8usize..=16 {
            let s = generate(&level.resolve(length)).unwrap();
            assert_eq!(s.chars().count(), length);
        }
    }
}

#[test]
fn numeric_only_gives_digits() {
    for length in 8usize..=16 {
        let s = generate(&PasswordPolicyKind::NumericOnly.resolve(length)).unwrap();
        assert!(s.chars().all(|c| c.is_ascii_digit()));
    }
}

#[test]
fn alphanumeric_gives_letters_and_digits() {
    for _ in 0..20 {
        let s = generate(&PasswordPolicyKind::AlphaNumeric.resolve(16)).unwrap();
        assert!(s.chars().all(|c| c.is_ascii_alphanumeric()));
        assert!(!s.chars().any(is_symbol));
    }
}

#[test]
fn random_gives_printable_characters_without_spaces() {
    for _ in 0..20 {
        let s = generate(&PasswordPolicyKind::Random.resolve(16)).unwrap();
        assert!(s.chars().all(|c| c.is_ascii_alphanumeric() || is_symbol(c)));
        assert!(!s.contains(' '));
    }
}

#[test]
fn boundary_lengths_give_valid_output() {
    for level in [PasswordPolicyKind::Random, PasswordPolicyKind::NumericOnly, PasswordPolicyKind::AlphaNumeric] {
        assert_eq!(generate(&level.resolve(8)).unwrap().chars().count(), 8);
        assert_eq!(generate(&level.resolve(16)).unwrap().chars().count(), 16);
    }
}

#[test]
fn no_class_enabled_is_an_error() {
    assert_eq!(generate(&none_enabled(12)), Err(GenerationError::NoCharacterClassEnabled));
    assert_eq!(generate(&none_enabled(0)), Err(GenerationError::NoCharacterClassEnabled));
}

#[test]
fn zero_length_is_rejected() {
    let mut spec = PasswordPolicyKind::Random.resolve(8);
    spec.length = 0;
    assert_eq!(generate(&spec), Err(GenerationError::Rejected));
}

#[test]
fn strict_mode_too_short_is_rejected() {
    let mut spec = PasswordPolicyKind::Random.resolve(8);
    spec.strict = true;
    spec.length = 3;
    assert_eq!(generate(&spec), Err(GenerationError::Rejected));
}

#[test]
fn strict_mode_places_every_enabled_class() {
    let mut spec = PasswordPolicyKind::AlphaNumeric.resolve(8);
    spec.strict = true;
    let s = generate(&spec).unwrap();
    assert_eq!(s.chars().count(), 8);
    assert!(s.chars().all(|c| c.is_ascii_alphanumeric()));
}

#[test]
fn spaces_only_gives_spaces() {
    let mut spec = none_enabled(9);
    spec.spaces = true;
    assert_eq!(generate(&spec), Ok(" ".repeat(9)));
}

#[test]
fn suggest_defaults_to_random_and_twelve() {
    let s = suggest(None, None);
    assert_eq!(s.chars().count(), 12);
    assert!(s.chars().all(|c| c.is_ascii_alphanumeric() || is_symbol(c)));
}

#[test]
fn suggest_follows_level_and_length() {
    let s = suggest(Some(PasswordLevel(PasswordPolicyKind::NumericOnly)), Some(9));
    assert_eq!(s.chars().count(), 9);
    assert!(s.chars().all(|c| c.is_ascii_digit()));
}
