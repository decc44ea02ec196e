use music_sheet_gen::error::AppError;
use music_sheet_gen::lsystem::{CSSLRule, CSSLRuleSet, LRule, LRuleSet, Probability};

fn p(num: u32, den: u32) -> Probability {
    Probability { num, den }
}

fn create_basic_set() -> CSSLRuleSet {
    CSSLRuleSet::new(vec![
        CSSLRule::new("a", "b", p(1, 2)),
        CSSLRule::new("a", "c", p(1, 2)),
        CSSLRule::new("b", "d", p(1, 1)),
    ])
}

fn create_context_set() -> CSSLRuleSet {
    CSSLRuleSet::new(vec![
        CSSLRule::new("F", "AA", p(1, 4)),
        CSSLRule::new("+F", "BB", p(1, 4)),
        CSSLRule::new("F+F", "CC", p(1, 4)),
        CSSLRule::new("F-F", "DD", p(1, 4)),
    ])
}

fn assert_rule_eq(rule: &impl LRule, left: &str, right: &str) {
    assert_eq!(rule.left(), left);
    assert_eq!(rule.right(), right);
}

fn assert_rule_any(rule: &impl LRule, rules: &[(&str, &str)]) {
    assert!(rules
        .iter()
        .any(|r| rule.left() == r.0 && rule.right() == r.1));
}

fn assert_many_times<F: Fn()>(times: i32, func: F) {
    for _ in 0..times {
        func()
    }
}

#[test]
pub fn select_simple1() {
    let set = create_basic_set();

    let rule1 = set.select("a");
    let rule2 = set.select("b");
    let rule3 = set.select("ab");
    let rule4 = set.select("ba");
    let rule5 = set.select("abc");

    assert_many_times(5, || {
        assert_rule_any(rule1.unwrap(), &[("a", "b"), ("a", "c")])
    });
    assert_rule_eq(rule2.unwrap(), "b", "d");
    assert_rule_eq(rule3.unwrap(), "b", "d");
    assert_many_times(5, || {
        assert_rule_any(rule4.unwrap(), &[("a", "b"), ("a", "c")])
    });
    assert!(rule5.is_none());
}

#[test]
fn select_simple2() {
    let set = CSSLRuleSet::new(
        ["a -> 1 % 1/1", "b -> 2 % 1/1", "d -> 3 % 1/1"]
            .iter()
            .map(|r| CSSLRule::from(r).unwrap())
            .collect(),
    );

    let res1 = set.select("bac");
    let res2 = set.select("aslkdbca");
    let res3 = set.select("ca");
    let res4 = set.select("a");
    let res5 = set.select("bad");

    assert!(res1.is_none());
    assert_rule_eq(res2.unwrap(), "a", "1");
    assert_rule_eq(res3.unwrap(), "a", "1");
    assert_rule_eq(res4.unwrap(), "a", "1");
    assert_rule_eq(res5.unwrap(), "d", "3");
}

#[test]
pub fn select_context() {
    let set = create_context_set();

    assert_many_times(10, || assert_rule_eq(set.select("FFF").unwrap(), "F", "AA"));
    assert_many_times(10, || {
        assert_rule_any(
            set.select("F-F+F").unwrap(),
            &[("F", "AA"), ("+F", "BB"), ("F+F", "CC")],
        )
    });
    assert_many_times(10, || {
        assert_rule_any(set.select("F-F").unwrap(), &[("F", "AA"), ("F-F", "DD")])
    });
    assert_many_times(10, || {
        assert_rule_any(set.select("--F").unwrap(), &[("F", "AA")])
    });
    assert_many_times(10, || {
        assert_rule_any(set.select("++F").unwrap(), &[("F", "AA"), ("+F", "BB")])
    });
}

#[test]
fn select_weighted_halves() {
    let set = create_basic_set();
    let trials = 4000;
    let mut to_b = 0;
    for _ in 0..trials {
        let r = set.select("xa").unwrap();
        assert_eq!(r.left(), "a");
        if r.right() == "b" {
            to_b += 1;
        }
    }
    let share = to_b as f64 / trials as f64;
    assert!(share > 0.4 && share < 0.6, "share of the first rule: {share}");
}

#[test]
fn select_no_match_is_none() {
    let set = create_basic_set();
    assert!(set.select("c").is_none());
    assert!(set.select("").is_none());
    let empty = CSSLRuleSet::new(vec![]);
    assert!(empty.select("a").is_none());
    let zero = CSSLRuleSet::new(vec![CSSLRule::new("a", "b", p(0, 1))]);
    assert!(zero.select("a").is_none());
}

#[test]
fn select_in_draw_intervals() {
    let set = create_basic_set();
    let ctx: Vec<char> = "a".chars().collect();
    let half: u128 = 1u128 << 31;
    assert_eq!(set.select_in(&ctx, 0, 1, 0), Some(0));
    assert_eq!(set.select_in(&ctx, 0, 1, half - 1), Some(0));
    assert_eq!(set.select_in(&ctx, 0, 1, half), Some(1));
    assert_eq!(set.select_in(&ctx, 0, 1, 2 * half), Some(0));
    let other: Vec<char> = "c".chars().collect();
    assert_eq!(set.select_in(&other, 0, 1, 7), None);
}

#[test]
fn rule_suffix_matching() {
    let r = CSSLRule::new("ab", "cd", p(1, 1));
    assert!(r.matches("ab"));
    assert!(r.matches("12345ab"));
    assert!(!r.matches("b"));
    assert!(!r.matches("ab1234b"));
}

#[test]
fn rule_parse_fraction_and_decimal() {
    let r = CSSLRule::from("a->b%1/2").unwrap();
    assert_eq!(r.left(), "a");
    assert_eq!(r.right(), "b");
    assert_eq!(r.p().num as f32 / r.p().den as f32, 0.5);

    let r = CSSLRule::from("abc -> def % 1/4").unwrap();
    assert_eq!(r.left(), "abc");
    assert_eq!(r.right(), "def");
    assert_eq!(r.p().num as f32 / r.p().den as f32, 0.25);

    let r = CSSLRule::from("abc -> def % 0.125").unwrap();
    assert_eq!(r.left(), "abc");
    assert_eq!(r.right(), "def");
    assert_eq!(r.p().num as f32 / r.p().den as f32, 0.125);
    assert_eq!(r.p(), p(125, 1000));
}

#[test]
fn rule_parse_empty_right_and_text() {
    let r = CSSLRule::from("F+F -> % 1/3").unwrap();
    assert_eq!(r.left(), "F+F");
    assert_eq!(r.right(), "");
    assert_eq!(r.to_string(), "F+F ->  % 1/3");
    let again = CSSLRule::from(&r.to_string()).unwrap();
    assert_eq!(again.p(), r.p());
}

#[test]
fn rule_parse_errors() {
    match CSSLRule::from("ab") {
        Err(AppError::CSSRuleParse(t)) => assert_eq!(t, "ab"),
        other => panic!("unexpected {other:?}"),
    }
    match CSSLRule::from("-> b % 1/2") {
        Err(AppError::CSSRuleParse(_)) => {}
        other => panic!("unexpected {other:?}"),
    }
    match CSSLRule::from("a -> b % x/2") {
        Err(AppError::CSSRuleParseNum(t, why)) => {
            assert_eq!(t, "a -> b % x/2");
            assert_eq!(why, "invalid digit found in string");
        }
        other => panic!("unexpected {other:?}"),
    }
    match CSSLRule::from("a -> b % 1/0") {
        Err(AppError::CSSRuleParseNum(_, why)) => assert_eq!(why, "denominator is zero"),
        other => panic!("unexpected {other:?}"),
    }
    match CSSLRule::from("a -> b % 1.2.3") {
        Err(AppError::CSSRuleParseNum(_, why)) => assert_eq!(why, "invalid float literal"),
        other => panic!("unexpected {other:?}"),
    }
    match CSSLRule::from("a -> b % 1/99999999999") {
        Err(AppError::CSSRuleParseNum(_, why)) => {
            assert_eq!(why, "number too large to fit in target type")
        }
        other => panic!("unexpected {other:?}"),
    }
}

#[test]
fn rule_set_from_texts() {
    let set = CSSLRuleSet::from_str_rules(&["F -> F % 1/2", "F -> FF % 1/2"]).unwrap();
    assert_eq!(set.rules().len(), 2);
    assert_eq!(set.to_string(), "{ F -> F % 1/2, F -> FF % 1/2 }");
    assert!(CSSLRuleSet::from_str_rules(&["F -> F % 1/2", "nonsense"]).is_err());
}

#[test]
fn probability_weight_units() {
    assert_eq!(p(1, 2).weight_units(), 1u64 << 31);
    assert_eq!(p(1, 1).weight_units(), 1u64 << 32);
    assert_eq!(p(3, 0).weight_units(), 0);
}

#[test]
fn rule_parse_whitespace_and_stripped_form() {
    let r = CSSLRule::from("a\t->\u{a0}b %\n1/2").unwrap();
    assert_eq!(r.left(), "a");
    assert_eq!(r.right(), "b");
    let r = CSSLRule::from_stripped("ab->c%0.5", "ab -> c % 0.5").unwrap();
    assert_eq!(r.left(), "ab");
    assert_eq!(r.p(), p(5, 10));
    match CSSLRule::from_stripped("ab", "a b") {
        Err(AppError::CSSRuleParse(t)) => assert_eq!(t, "a b"),
        other => panic!("unexpected {other:?}"),
    }
}

#[test]
fn rule_parse_decimal_limits() {
    match CSSLRule::from("a->b%0.0000000001") {
        Err(AppError::CSSRuleParseNum(_, why)) => assert_eq!(why, "more than 9 fraction digits"),
        other => panic!("unexpected {other:?}"),
    }
    let r = CSSLRule::from("a->b%0.000000001").unwrap();
    assert_eq!(r.p(), p(1, 1000000000));
    match CSSLRule::from("a->b%99999999999") {
        Err(AppError::CSSRuleParseNum(_, why)) => {
            assert_eq!(why, "number too large for a probability")
        }
        other => panic!("unexpected {other:?}"),
    }
}
