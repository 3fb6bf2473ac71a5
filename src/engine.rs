use vstd::prelude::*;

use crate::policy::{
    length_in_range, length_or_default, level_or_default, resolve_spec, selected_or_default,
    GenerationSpec, PasswordLevel, PasswordPolicyKind, DEFAULT_LENGTH,
};

verus! {

pub open spec fn is_digit(c: char) -> bool {
    '0' <= c <= '9'
}

pub open spec fn is_lowercase(c: char) -> bool {
    'a' <= c <= 'z'
}

pub open spec fn is_uppercase(c: char) -> bool {
    'A' <= c <= 'Z'
}

/// The printable ASCII punctuation characters.
pub open spec fn is_symbol(c: char) -> bool {
    ('!' <= c <= '/') || (':' <= c <= '@') || ('[' <= c <= '`') || ('{' <= c <= '~')
}

/// Whether `c` belongs to a character class that `spec` enables.
pub open spec fn allowed_char(spec: GenerationSpec, c: char) -> bool {
    ||| (spec.numbers && is_digit(c))
    ||| (spec.lowercase_letters && is_lowercase(c))
    ||| (spec.uppercase_letters && is_uppercase(c))
    ||| (spec.symbols && is_symbol(c))
    ||| (spec.spaces && c == ' ')
}

/// Whether `spec` enables at least one character class.
pub open spec fn any_class_enabled(spec: GenerationSpec) -> bool {
    spec.numbers || spec.lowercase_letters || spec.uppercase_letters || spec.symbols || spec.spaces
}

/// How many character classes `spec` enables.
pub open spec fn enabled_class_count(spec: GenerationSpec) -> nat {
    (if spec.numbers { 1nat } else { 0nat }) + (if spec.lowercase_letters { 1nat } else { 0nat })
        + (if spec.uppercase_letters { 1nat } else { 0nat }) + (if spec.symbols { 1nat } else { 0nat })
        + (if spec.spaces { 1nat } else { 0nat })
}

/// Whether the generator produces a password for `spec` at all.
pub open spec fn generator_accepts(spec: GenerationSpec) -> bool {
    &&& spec.length > 0
    &&& any_class_enabled(spec)
    &&& !(spec.strict && spec.length < enabled_class_count(spec))
}

/// Whether `s` is a password that `spec` describes: exactly `spec.length`
/// characters, each from an enabled class.
pub open spec fn fits_spec(spec: GenerationSpec, s: Seq<char>) -> bool {
    &&& s.len() == spec.length
    &&& forall|i: int| 0 <= i < s.len() ==> #[trigger] allowed_char(spec, s[i])
}

/// Why no password was generated.
#[derive(Debug, Clone, Copy, PartialEq, Eq, Structural)]
pub enum GenerationError {
    /// The spec enables no character class.
    NoCharacterClassEnabled,
    /// The generator refused the spec: its length is zero, or too short for
    /// strict mode to place one character of each enabled class.
    Rejected,
}

/// Relies on `passwords::PasswordGenerator::generate_one`: it fails exactly
/// when the length is zero, no class is enabled, or strict mode asks for more
/// classes than the length holds; otherwise it draws `length` characters, each
/// from the pools of the enabled classes.
#[verifier::external_body]
fn generate_one(spec: &GenerationSpec) -> (r: Result<String, &'static str>)
    ensures
        r is Ok <==> generator_accepts(*spec),
        r matches Ok(s) ==> fits_spec(*spec, s@),
{
    passwords::PasswordGenerator {
        length: spec.length,
        numbers: spec.numbers,
        lowercase_letters: spec.lowercase_letters,
        uppercase_letters: spec.uppercase_letters,
        symbols: spec.symbols,
        spaces: spec.spaces,
        exclude_similar_characters: spec.exclude_similar_characters,
        strict: spec.strict,
    }.generate_one()
}

/// Draws one random password that fits `spec`.
pub fn generate(spec: &GenerationSpec) -> (r: Result<String, GenerationError>)
    ensures
        !any_class_enabled(*spec) <==> r == Err::<String, GenerationError>(
            GenerationError::NoCharacterClassEnabled,
        ),
        (any_class_enabled(*spec) && !generator_accepts(*spec)) <==> r == Err::<
            String,
            GenerationError,
        >(GenerationError::Rejected),
        r is Ok <==> generator_accepts(*spec),
        r matches Ok(s) ==> fits_spec(*spec, s@),
{
    if !(spec.numbers || spec.lowercase_letters || spec.uppercase_letters || spec.symbols
        || spec.spaces) {
        return Err(GenerationError::NoCharacterClassEnabled);
    }
    match generate_one(spec) {
        Ok(s) => Ok(s),
        Err(_) => Err(GenerationError::Rejected),
    }
}

/// A password that a form with this selection and length may suggest.
pub open spec fn fits_selection(
    level: Option<PasswordLevel>,
    length: Option<u32>,
    s: Seq<char>,
) -> bool {
    fits_spec(resolve_spec(level_or_default(level), length_or_default(length) as usize), s)
}

/// Every kind resolves, at every length in range, to a spec that the
/// generator accepts: generation then yields a password of exactly that
/// length.
pub proof fn resolved_spec_generates(kind: PasswordPolicyKind, length: usize)
    requires
        length_in_range(length as int),
    ensures
        generator_accepts(resolve_spec(kind, length)),
        forall|s: Seq<char>| #[trigger] fits_spec(resolve_spec(kind, length), s) ==> s.len() == length,
{
}

/// A numeric-only password consists of digits alone.
pub proof fn numeric_only_yields_digits(length: usize, s: Seq<char>)
    requires
        fits_spec(resolve_spec(PasswordPolicyKind::NumericOnly, length), s),
    ensures
        s.len() == length,
        forall|i: int| 0 <= i < s.len() ==> is_digit(#[trigger] s[i]),
{
    assert forall|i: int| 0 <= i < s.len() implies is_digit(#[trigger] s[i]) by {
        assert(allowed_char(resolve_spec(PasswordPolicyKind::NumericOnly, length), s[i]));
    }
}

/// An alphanumeric password consists of letters and digits, and holds no
/// symbol.
pub proof fn alphanumeric_has_no_symbols(length: usize, s: Seq<char>)
    requires
        fits_spec(resolve_spec(PasswordPolicyKind::AlphaNumeric, length), s),
    ensures
        s.len() == length,
        forall|i: int|
            0 <= i < s.len() ==> (is_digit(#[trigger] s[i]) || is_lowercase(s[i]) || is_uppercase(
                s[i],
            )) && !is_symbol(s[i]),
{
    assert forall|i: int| 0 <= i < s.len() implies (is_digit(#[trigger] s[i]) || is_lowercase(s[i])
        || is_uppercase(s[i])) && !is_symbol(s[i]) by {
        assert(allowed_char(resolve_spec(PasswordPolicyKind::AlphaNumeric, length), s[i]));
    }
}

/// A random-level password draws each character from the digits, the
/// letters of both cases and the symbols, and never a space.
pub proof fn random_draws_from_all_classes(length: usize, s: Seq<char>)
    requires
        fits_spec(resolve_spec(PasswordPolicyKind::Random, length), s),
    ensures
        s.len() == length,
        forall|i: int|
            0 <= i < s.len() ==> (is_digit(#[trigger] s[i]) || is_lowercase(s[i]) || is_uppercase(
                s[i],
            ) || is_symbol(s[i])) && s[i] != ' ',
{
    assert forall|i: int| 0 <= i < s.len() implies (is_digit(#[trigger] s[i]) || is_lowercase(s[i])
        || is_uppercase(s[i]) || is_symbol(s[i])) && s[i] != ' ' by {
        assert(allowed_char(resolve_spec(PasswordPolicyKind::Random, length), s[i]));
    }
}

/// Draws a suggestion for the selected level (random when unset) and length
/// (twelve when unset).
pub fn suggest(level: Option<PasswordLevel>, length: Option<u32>) -> (r: String)
    requires
        length_in_range(length_or_default(length) as int),
    ensures
        fits_selection(level, length, r@),
{
    let n: u32 = match length {
        Some(n) => n,
        None => DEFAULT_LENGTH,
    };
    let spec = selected_or_default(level).get_pwd_generator(n as usize);
    proof {
        resolved_spec_generates(level_or_default(level), n as usize);
    }
    match generate(&spec) {
        Ok(s) => s,
        Err(_) => String::new(),
    }
}

} // verus!
