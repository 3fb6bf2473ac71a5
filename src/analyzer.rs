use vstd::prelude::*;

verus! {

/// The score, from 0 to 100, that the `passwords` scorer gives a password.
pub uninterp spec fn score_of(s: Seq<char>) -> u32;

/// Whether a password stands in the common-password table.
pub uninterp spec fn is_common_of(s: Seq<char>) -> bool;

/// What the analyzer says of one password.
#[derive(Debug, Clone, Copy, PartialEq, Eq, Structural)]
pub struct StrengthReport {
    /// Strength on a scale from 0 to 100.
    pub score: u32,
    /// Whether the password is a commonly used one.
    pub is_common: bool,
}

/// The report that `analyze` gives for a password.
pub open spec fn report_of(s: Seq<char>) -> StrengthReport {
    if s.len() == 0 {
        StrengthReport { score: 0, is_common: false }
    } else {
        StrengthReport { score: score_of(s), is_common: is_common_of(s) }
    }
}

/// Relies on `passwords::analyzer::analyze` followed by
/// `passwords::scorer::score`: the score depends on the password alone, is
/// clamped to 100, and a common password has its score divided by five.
#[verifier::external_body]
fn password_score(s: &str) -> (r: u32)
    ensures
        r == score_of(s@),
        r <= 100,
        is_common_of(s@) ==> r <= 20,
{
    passwords::scorer::score(&passwords::analyzer::analyze(s)) as u32
}

/// Relies on `passwords::analyzer::analyze` and `AnalyzedPassword::is_common`:
/// whether the password stands in the crate's common-password table.
#[verifier::external_body]
fn common_password(s: &str) -> (r: bool)
    ensures
        r == is_common_of(s@),
{
    passwords::analyzer::analyze(s).is_common()
}

/// Rates a password. The empty password gets score 0 and is not common.
pub fn analyze(password: &str) -> (r: StrengthReport)
    ensures
        r == report_of(password@),
        r.score <= 100,
        r.is_common ==> r.score <= 20,
{
    if password.is_empty() {
        return StrengthReport { score: 0, is_common: false };
    }
    let score = password_score(password);
    let is_common = common_password(password);
    StrengthReport { score, is_common }
}

} // verus!
