use music_sheet_gen::lsystem::{CSSLRewriter, CSSLRuleSet, LRewriter, LRule, ToCSSLRule};

fn rules(texts: &[&str]) -> CSSLRuleSet {
    CSSLRuleSet::new(texts.iter().map(|r| r.to_csslrule().unwrap()).collect())
}

fn create_rewriter_simple() -> CSSLRewriter {
    CSSLRewriter::new(rules(&["a -> 1 % 1/1", "b -> 2 % 1/1", "d -> 3 % 1/1"]))
}

fn create_rewriter_complex() -> CSSLRewriter {
    CSSLRewriter::new(rules(&[
        "def -> 11 % 1/1",
        "bcd -> 22 % 1/1",
        " bc -> 33 % 1/1",
        " ab -> 44 % 1/1",
        "  a -> 55 % 1/1",
    ]))
}

#[test]
fn rewrite_simple() {
    let re = create_rewriter_simple();
    let res = re.rewrite("abcdef").0;
    assert_eq!("12c3ef", res);
}

#[test]
fn rewrite_complex() {
    let re = create_rewriter_complex();
    let res = re.rewrite("abcdef").0;
    assert_eq!("553311", res);
}

#[test]
fn rewrite_doc_example() {
    let re = CSSLRewriter::new(rules(&[
        "2h -> 1 % 1/1",
        "efg -> 2 % 1/1",
        "def -> 3 % 1/1",
        "bcd -> 4 % 1/1",
    ]));
    let res = re.rewrite("abcdefgh").0;
    assert_eq!(res, "a42h");
}

#[test]
fn rewrite_reports_used_rules_left_to_right() {
    let re = create_rewriter_simple();
    let (word, used) = re.rewrite("abcdef");
    assert_eq!(word, "12c3ef");
    let lefts: Vec<&str> = used.iter().map(|r| r.left()).collect();
    assert_eq!(lefts, vec!["a", "b", "d"]);
}

#[test]
fn rewrite_empty_word() {
    let re = create_rewriter_complex();
    let (word, used) = re.rewrite("");
    assert_eq!(word, "");
    assert!(used.is_empty());
}

#[test]
fn rewrite_with_draws_picks_by_weight_interval() {
    let re = CSSLRewriter::new(rules(&["F -> X % 1/2", "F -> Y % 1/2"]));
    let half: u128 = 1u128 << 31;
    let (word, _) = re.rewrite_with("FF", &vec![0, half]);
    assert_eq!(word, "XY");
    let (word, _) = re.rewrite_with("FF", &vec![half + 5, 3]);
    assert_eq!(word, "YX");
    assert_eq!(re.max_lside_len(), 3);
}

#[test]
fn rewrite_unicode_passes_through() {
    let re = create_rewriter_simple();
    let (word, _) = re.rewrite("éaß");
    assert_eq!(word, "é1ß");
}
