use pwd_helper::{analyze, StrengthReport};

#[test]
fn empty_password_scores_zero() {
    assert_eq!(analyze(""), StrengthReport { score: 0, is_common: false });
}

#[test]
fn uncommon_password_has_documented_score() {
    assert_eq!(analyze("kq4zpz13"), StrengthReport { score: 62, is_common: false });
}

#[test]
fn common_password_score_is_divided_by_five() {
    assert_eq!(analyze("feelings"), StrengthReport { score: 11, is_common: true });
}

#[test]
fn password_is_common_and_weak() {
    let r = analyze("password");
    assert!(r.is_common);
    assert!(r.score <= 20);
}

#[test]
fn longer_password_of_same_classes_scores_no_lower() {
    let short = analyze("kq4zpz13");
    let long = analyze("kq4zpz13mw");
    assert!(!long.is_common);
    assert!(long.score >= short.score);
}

#[test]
fn scores_stay_within_one_hundred() {
    for p in ["a", "Zx9!", "ZYX[$BCkQB}%A_3456]  H(g", "中文中文中文中文中文"] {
        assert!(analyze(p).score <= 100);
    }
}
