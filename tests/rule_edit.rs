use music_sheet_gen::error::AppError;
use music_sheet_gen::lsystem::rule_edit::check_probability_sums;
use music_sheet_gen::lsystem::{CSSLRule, CSSLRuleSet, LRule, Probability, RuleEditState};

fn state(text: &str) -> RuleEditState {
    let mut s = RuleEditState::new();
    s.text = text.to_owned();
    s.update_rules();
    s
}

#[test]
fn rule_edit_valid_sums() {
    let s = state("F -> F % 1/2\n\n  F -> FF % 1/2  \nF+G -> X % 1/1\n");
    assert_eq!(s.rules.len(), 3);
    assert_eq!(s.check(), Ok(()));
}

#[test]
fn rule_edit_thirds_within_tolerance() {
    let s = state("F -> A % 1/3\nF -> B % 1/3\nF -> C % 1/3");
    assert_eq!(s.check(), Ok(()));
}

#[test]
fn rule_edit_sum_not_one() {
    let s = state("a -> b % 1/2\nb -> c % 1/1");
    assert_eq!(s.check(), Err(AppError::CSSRuleSumNotOne('a', Probability { num: 1, den: 1000 })));
}

#[test]
fn rule_edit_bad_line_reported_and_skipped() {
    let s = state("F -> F % 1/1\nnot a rule\n");
    assert_eq!(s.rules.len(), 1);
    match s.check() {
        Err(AppError::CSSRuleParse(t)) => assert_eq!(t, "not a rule"),
        other => panic!("unexpected {other:?}"),
    }
}

#[test]
fn rule_edit_with_rules_round_trip() {
    let set = CSSLRuleSet::from_str_rules(&["F -> F % 1/2", "F -> F+F % 1/2"]).unwrap();
    let s = RuleEditState::new().with_rules(&set);
    assert_eq!(s.text, "F -> F % 1/2\nF -> F+F % 1/2\n");
    assert_eq!(s.rules.len(), 2);
    let again = state(&s.text);
    assert_eq!(again.rules.len(), 2);
    assert_eq!(again.rules[1].right(), "F+F");
}

#[test]
fn probability_sums_direct() {
    let rules = vec![
        CSSLRule::new("xF", "a", Probability { num: 999, den: 1000 }),
        CSSLRule::new("F", "b", Probability { num: 1, den: 2000 }),
    ];
    assert_eq!(check_probability_sums(&rules), Ok(()));
    let rules = vec![CSSLRule::new("F", "b", Probability { num: 99, den: 100 })];
    assert_eq!(check_probability_sums(&rules), Err(AppError::CSSRuleSumNotOne('F', Probability { num: 1, den: 1000 })));
}
