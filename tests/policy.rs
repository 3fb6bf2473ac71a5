use pwd_helper::{
    GenerationSpec, PasswordLevel, PasswordPolicyKind, DEFAULT_LENGTH, MAX_LENGTH, MIN_LENGTH,
};

fn expected(length: usize, letters: bool, symbols: bool) -> GenerationSpec {
    GenerationSpec {
        length,
        numbers: true,
        lowercase_letters: letters,
        uppercase_letters: letters,
        symbols,
        spaces: false,
        exclude_similar_characters: false,
        strict: false,
    }
}

#[test]
fn resolve_random_enables_every_printable_class() {
    assert_eq!(PasswordPolicyKind::Random.resolve(12), expected(12, true, true));
}

#[test]
fn resolve_numeric_only_enables_digits_alone() {
    assert_eq!(PasswordPolicyKind::NumericOnly.resolve(10), expected(10, false, false));
}

#[test]
fn resolve_alphanumeric_leaves_out_symbols() {
    assert_eq!(PasswordPolicyKind::AlphaNumeric.resolve(16), expected(16, true, false));
}

#[test]
fn resolve_twice_gives_the_same_spec() {
    for level in [PasswordPolicyKind::Random, PasswordPolicyKind::NumericOnly, PasswordPolicyKind::AlphaNumeric] {
        for length in 8usize..=16 {
            assert_eq!(level.resolve(length), level.resolve(length));
        }
    }
}

#[test]
fn labels_name_each_level() {
    assert_eq!(PasswordLevel(PasswordPolicyKind::Random).label(), "随机生成");
    assert_eq!(PasswordLevel(PasswordPolicyKind::NumericOnly).label(), "纯数字");
    assert_eq!(PasswordLevel(PasswordPolicyKind::AlphaNumeric).label(), "字母与数字");
}

#[test]
fn length_bounds_and_default() {
    assert_eq!(MIN_LENGTH, 8);
    assert_eq!(MAX_LENGTH, 16);
    assert_eq!(DEFAULT_LENGTH, 12);
}

#[test]
fn picker_entry_resolves_its_kind() {
    let level = PasswordLevel(PasswordPolicyKind::NumericOnly);
    assert_eq!(level.get_pwd_generator(11), expected(11, false, false));
}
