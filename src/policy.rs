use vstd::prelude::*;

verus! {

/// Shortest password length that the form offers.
pub const MIN_LENGTH: u32 = 8;

/// Longest password length that the form offers.
pub const MAX_LENGTH: u32 = 16;

/// Length used until the user picks one.
pub const DEFAULT_LENGTH: u32 = 12;

/// The style of password to suggest.
#[derive(Debug, Clone, Copy, PartialEq, Eq, Structural)]
pub enum PasswordPolicyKind {
    /// Digits, letters of both cases and symbols.
    Random,
    /// Digits only.
    NumericOnly,
    /// Digits and letters of both cases.
    AlphaNumeric,
}

/// One entry of the level picker: the policy kind it selects.
#[derive(Debug, Clone, Copy, PartialEq, Eq, Structural)]
pub struct PasswordLevel(pub PasswordPolicyKind);

/// The resolved character classes and length handed to the generator.
#[derive(Debug, Clone, Copy, PartialEq, Eq, Structural)]
pub struct GenerationSpec {
    pub length: usize,
    pub numbers: bool,
    pub lowercase_letters: bool,
    pub uppercase_letters: bool,
    pub symbols: bool,
    pub spaces: bool,
    pub exclude_similar_characters: bool,
    pub strict: bool,
}

/// The spec that a level resolves to for a given length.
pub open spec fn resolve_spec(kind: PasswordPolicyKind, length: usize) -> GenerationSpec {
    GenerationSpec {
        length,
        numbers: true,
        lowercase_letters: kind != PasswordPolicyKind::NumericOnly,
        uppercase_letters: kind != PasswordPolicyKind::NumericOnly,
        symbols: kind == PasswordPolicyKind::Random,
        spaces: false,
        exclude_similar_characters: false,
        strict: false,
    }
}

/// The kind that a selection stands for; an unset one stands for the first.
pub open spec fn level_or_default(level: Option<PasswordLevel>) -> PasswordPolicyKind {
    match level {
        Some(l) => l.0,
        None => PasswordPolicyKind::Random,
    }
}

/// The length that an unset length stands for.
pub open spec fn length_or_default(length: Option<u32>) -> u32 {
    match length {
        Some(n) => n,
        None => DEFAULT_LENGTH,
    }
}

/// A length that the form's slider can produce.
pub open spec fn length_in_range(length: int) -> bool {
    MIN_LENGTH <= length <= MAX_LENGTH
}

impl PasswordPolicyKind {
    /// The generation spec for this kind and the given length.
    pub fn resolve(&self, length: usize) -> (r: GenerationSpec)
        requires
            length_in_range(length as int),
        ensures
            r == resolve_spec(*self, length),
    {
        GenerationSpec {
            length,
            numbers: true,
            lowercase_letters: *self != PasswordPolicyKind::NumericOnly,
            uppercase_letters: *self != PasswordPolicyKind::NumericOnly,
            symbols: *self == PasswordPolicyKind::Random,
            spaces: false,
            exclude_similar_characters: false,
            strict: false,
        }
    }
}

impl PasswordLevel {
    /// The generation spec for this entry's kind and the given length.
    pub fn get_pwd_generator(&self, expect_len: usize) -> (r: GenerationSpec)
        requires
            length_in_range(expect_len as int),
        ensures
            r == resolve_spec(self.0, expect_len),
    {
        self.0.resolve(expect_len)
    }

    /// The text that the picker shows for this entry.
    pub fn label(&self) -> (r: &'static str)
        ensures
            self.0 == PasswordPolicyKind::Random ==> r@ == "随机生成"@,
            self.0 == PasswordPolicyKind::NumericOnly ==> r@ == "纯数字"@,
            self.0 == PasswordPolicyKind::AlphaNumeric ==> r@ == "字母与数字"@,
    {
        match self.0 {
            PasswordPolicyKind::Random => "随机生成",
            PasswordPolicyKind::NumericOnly => "纯数字",
            PasswordPolicyKind::AlphaNumeric => "字母与数字",
        }
    }
}

/// Resolution is a function of the level and the length: two resolutions of
/// the same pair give the same spec.
pub proof fn resolution_is_deterministic(
    kind: PasswordPolicyKind,
    length: usize,
    first: GenerationSpec,
    second: GenerationSpec,
)
    requires
        first == resolve_spec(kind, length),
        second == resolve_spec(kind, length),
    ensures
        first == second,
{
}

/// The picker entry that a selection shows; an unset one shows the first.
pub fn selected_or_default(level: Option<PasswordLevel>) -> (r: PasswordLevel)
    ensures
        r.0 == level_or_default(level),
        level matches Some(l) ==> r == l,
{
    match level {
        Some(l) => l,
        None => PasswordLevel(PasswordPolicyKind::Random),
    }
}

} // verus!
