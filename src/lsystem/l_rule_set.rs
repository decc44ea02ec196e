//! Rule sets and the probability-weighted choice among matching rules.

use vstd::prelude::*;

use crate::error::AppError;
use crate::lsystem::l_rule::{read_rule, suffix_match, CSSLRule, RuleText};
use crate::text::{chars_of, strip_whitespace};

verus! {

/// Relies on `rand::random`: a value drawn from the thread-local generator,
/// of which nothing is promised.
#[verifier::external_body]
pub(crate) fn random_draw() -> (r: u128) {
    rand::random::<u128>()
}

/// The texts of the rules, separated by commas.
pub open spec fn rules_text(rs: Seq<CSSLRule>) -> Seq<char>
    decreases rs.len(),
{
    if rs.len() == 0 {
        Seq::empty()
    } else if rs.len() == 1 {
        rs[0].text()
    } else {
        rules_text(rs.drop_last()) + ", "@ + rs.last().text()
    }
}

/// Sum of the weights of `rules[0..k]` that match `ctx`.
pub open spec fn matched_weight(rules: Seq<CSSLRule>, ctx: Seq<char>, k: int) -> nat
    decreases k,
{
    if k <= 0 || k > rules.len() {
        0
    } else {
        matched_weight(rules, ctx, k - 1) + if suffix_match(rules[k - 1].left_view(), ctx) {
            rules[k - 1].weight()
        } else {
            0
        }
    }
}

/// Sum of the weights of all rules that match `ctx`.
pub open spec fn total_weight(rules: Seq<CSSLRule>, ctx: Seq<char>) -> nat {
    matched_weight(rules, ctx, rules.len() as int)
}

/// The first index `k >= i` whose running weight exceeds `r`.
pub open spec fn pick_from(rules: Seq<CSSLRule>, ctx: Seq<char>, r: nat, i: int) -> Option<int>
    decreases rules.len() - i,
{
    if i < 0 || i >= rules.len() {
        None
    } else if matched_weight(rules, ctx, i + 1) > r {
        Some(i)
    } else {
        pick_from(rules, ctx, r, i + 1)
    }
}

/// The rule that a draw selects for a context: the draw, reduced modulo the
/// total weight of the matching rules, falls in the weight interval of exactly
/// one of them; no rule when that total is zero.
pub open spec fn chosen(rules: Seq<CSSLRule>, ctx: Seq<char>, draw: nat) -> Option<int> {
    let total = total_weight(rules, ctx);
    if total == 0 {
        None
    } else {
        pick_from(rules, ctx, draw % total, 0)
    }
}

proof fn lemma_matched_weight_mono(rules: Seq<CSSLRule>, ctx: Seq<char>, i: int, j: int)
    requires
        0 <= i <= j <= rules.len(),
    ensures
        matched_weight(rules, ctx, i) <= matched_weight(rules, ctx, j),
    decreases j - i,
{
    if i < j {
        lemma_matched_weight_mono(rules, ctx, i, j - 1);
    }
}

proof fn lemma_matched_weight_bound(rules: Seq<CSSLRule>, ctx: Seq<char>, k: int)
    requires
        0 <= k <= rules.len(),
        forall|i: int| 0 <= i < rules.len() ==> #[trigger] rules[i].weight() < 18446744073709551616,
    ensures
        matched_weight(rules, ctx, k) <= k * 18446744073709551615,
    decreases k,
{
    if k > 0 {
        lemma_matched_weight_bound(rules, ctx, k - 1);
    }
}

proof fn lemma_weight_bound(r: CSSLRule)
    ensures
        r.weight() < 18446744073709551616,
{
    let p = r.probability();
    if p.den != 0 {
        assert(p.num as nat * 4294967296 < 18446744073709551616) by (nonlinear_arith)
            requires
                p.num < 4294967296,
        ;
        assert((p.num as nat * 4294967296) / (p.den as nat) <= p.num as nat * 4294967296) by (
        nonlinear_arith)
            requires
                p.den >= 1,
        ;
    }
}

/// What `pick_from` finds: the unique index whose weight interval holds `r`.
proof fn lemma_pick(rules: Seq<CSSLRule>, ctx: Seq<char>, r: nat, i: int)
    requires
        0 <= i <= rules.len(),
        matched_weight(rules, ctx, i) <= r,
    ensures
        match pick_from(rules, ctx, r, i) {
            Some(k) => i <= k < rules.len() && matched_weight(rules, ctx, k) <= r < matched_weight(
                rules,
                ctx,
                k + 1,
            ) && suffix_match(rules[k].left_view(), ctx) && rules[k].weight() > 0,
            None => total_weight(rules, ctx) <= r,
        },
    decreases rules.len() - i,
{
    if i < rules.len() && matched_weight(rules, ctx, i + 1) <= r {
        lemma_pick(rules, ctx, r, i + 1);
    }
}

/// A context that no rule matches selects no rule, whatever the draw: the
/// total weight of the matching rules is zero.
pub proof fn lemma_no_match_selects_nothing(rules: Seq<CSSLRule>, ctx: Seq<char>, draw: nat)
    requires
        forall|i: int| 0 <= i < rules.len() ==> !suffix_match(#[trigger] rules[i].left_view(), ctx),
    ensures
        total_weight(rules, ctx) == 0,
        chosen(rules, ctx, draw) is None,
{
    lemma_no_match_weight(rules, ctx, rules.len() as int);
}

proof fn lemma_no_match_weight(rules: Seq<CSSLRule>, ctx: Seq<char>, k: int)
    requires
        0 <= k <= rules.len(),
        forall|i: int| 0 <= i < rules.len() ==> !suffix_match(#[trigger] rules[i].left_view(), ctx),
    ensures
        matched_weight(rules, ctx, k) == 0,
    decreases k,
{
    if k > 0 {
        lemma_no_match_weight(rules, ctx, k - 1);
    }
}

/// A selected rule always matches the context and has a positive weight.
pub proof fn lemma_chosen_matches(rules: Seq<CSSLRule>, ctx: Seq<char>, draw: nat)
    ensures
        chosen(rules, ctx, draw) matches Some(k) ==> 0 <= k < rules.len() && suffix_match(
            rules[k].left_view(),
            ctx,
        ) && rules[k].weight() > 0,
{
    let total = total_weight(rules, ctx);
    if total > 0 {
        lemma_pick(rules, ctx, draw % total, 0);
    }
}

/// The draws below the total weight that select rule `k` are those in its
/// weight interval.
proof fn lemma_chosen_interval(rules: Seq<CSSLRule>, ctx: Seq<char>, k: int, d: int)
    requires
        0 <= k < rules.len(),
        0 <= d < total_weight(rules, ctx),
    ensures
        chosen(rules, ctx, d as nat) == Some(k) <==> matched_weight(rules, ctx, k) <= d
            < matched_weight(rules, ctx, k + 1),
{
    let total = total_weight(rules, ctx);
    assert((d as nat) % total == d as nat) by {
        vstd::arithmetic::div_mod::lemma_small_mod(d as nat, total);
    }
    lemma_pick(rules, ctx, d as nat, 0);
    match chosen(rules, ctx, d as nat) {
        Some(j) => {
            if j < k {
                lemma_matched_weight_mono(rules, ctx, j + 1, k);
            } else if j > k {
                lemma_matched_weight_mono(rules, ctx, k + 1, j);
            }
        },
        None => {
            lemma_matched_weight_mono(rules, ctx, k + 1, rules.len() as int);
        },
    }
}

/// Selection is weighted by probability: of the draws below the total
/// weight of the matching rules, exactly as many select a rule as its weight
/// when it matches, and none when it does not. Two matching rules of equal
/// probability thus share the draws evenly.
pub proof fn lemma_selection_share(rules: Seq<CSSLRule>, ctx: Seq<char>, k: int)
    requires
        0 <= k < rules.len(),
    ensures
        Set::new(|d: int| 0 <= d < total_weight(rules, ctx) && chosen(rules, ctx, d as nat) == Some(k)).finite(),
        Set::new(|d: int| 0 <= d < total_weight(rules, ctx) && chosen(rules, ctx, d as nat) == Some(k)).len()
            == if suffix_match(rules[k].left_view(), ctx) {
            rules[k].weight()
        } else {
            0
        },
{
    let total = total_weight(rules, ctx);
    let lo = matched_weight(rules, ctx, k) as int;
    let hi = matched_weight(rules, ctx, k + 1) as int;
    lemma_matched_weight_mono(rules, ctx, k + 1, rules.len() as int);
    let sel = Set::new(|d: int| 0 <= d < total && chosen(rules, ctx, d as nat) == Some(k));
    assert forall|d: int| sel.contains(d) <==> vstd::set_lib::set_int_range(lo, hi).contains(d) by {
        if 0 <= d < total {
            lemma_chosen_interval(rules, ctx, k, d);
        }
    }
    assert(sel =~= vstd::set_lib::set_int_range(lo, hi));
    vstd::set_lib::lemma_int_range(lo, hi);
}

/// Common behaviour of rule sets.
pub trait LRuleSet {
    spec fn rule_seq(&self) -> Seq<CSSLRule>;

    /// Select a matching rule for the context `left`, weighted by probability.
    fn select(&self, left: &str) -> (r: Option<&CSSLRule>)
        ensures
            r is None <==> total_weight(self.rule_seq(), left@) == 0,
            r matches Some(rule) ==> exists|k: int|
                0 <= k < self.rule_seq().len() && *rule == self.rule_seq()[k] && suffix_match(
                    self.rule_seq()[k].left_view(),
                    left@,
                ) && self.rule_seq()[k].weight() > 0,
    ;

    fn rules(&self) -> (r: &Vec<CSSLRule>)
        ensures
            r@ == self.rule_seq(),
    ;
}

/// The rules of a context-sensitive stochastic L-system, in order.
#[derive(Debug, Clone)]
pub struct CSSLRuleSet {
    rules: Vec<CSSLRule>,
}

/// The rules that the texts stand for, or the error of the first that does not parse.
pub open spec fn read_rules(texts: Seq<Seq<char>>) -> Result<Seq<CSSLRule>, int>
    decreases texts.len(),
{
    if texts.len() == 0 {
        Ok(Seq::empty())
    } else {
        match read_rules(texts.drop_last()) {
            Err(i) => Err(i),
            Ok(rs) => match read_rule(strip_whitespace(texts.last())) {
                RuleText::Parsed(_, _, _) => Ok(rs),
                _ => Err(texts.len() - 1),
            },
        }
    }
}

impl CSSLRuleSet {
    pub closed spec fn rule_view(&self) -> Seq<CSSLRule> {
        self.rules@
    }

    pub fn new(rules: Vec<CSSLRule>) -> (r: Self)
        ensures
            r.rule_view() == rules@,
    {
        CSSLRuleSet { rules }
    }

    /// Parse each text as a rule; the first that fails gives the error.
    pub fn from_str_rules(texts: &[&str]) -> (r: Result<Self, AppError>)
        ensures
            match r {
                Ok(set) => set.rule_view().len() == texts@.len() && forall|i: int|
                    0 <= i < texts@.len() ==> read_rule(strip_whitespace(texts@[i]@))
                        == RuleText::Parsed(
                        #[trigger] set.rule_view()[i].left_view(),
                        set.rule_view()[i].right_view(),
                        set.rule_view()[i].probability(),
                    ),
                Err(e) => exists|i: int|
                    0 <= i < texts@.len() && (forall|j: int|
                        0 <= j < i ==> #[trigger] read_rule(strip_whitespace(texts@[j]@)) is Parsed)
                        && !(read_rule(strip_whitespace(texts@[i]@)) is Parsed) && match read_rule(
                        strip_whitespace(texts@[i]@),
                    ) {
                        RuleText::Malformed => e matches AppError::CSSRuleParse(t) && t@
                            == texts@[i]@,
                        RuleText::BadNumber(reason) => e matches AppError::CSSRuleParseNum(t, why)
                            && t@ == texts@[i]@ && why@ == reason,
                        _ => false,
                    },
            },
    {
        let mut rules: Vec<CSSLRule> = Vec::new();
        for i in 0..texts.len()
            invariant
                rules@.len() == i,
                forall|j: int|
                    0 <= j < i ==> read_rule(strip_whitespace(texts@[j]@)) == RuleText::Parsed(
                        #[trigger] rules@[j].left_view(),
                        rules@[j].right_view(),
                        rules@[j].probability(),
                    ),
        {
            match CSSLRule::from(texts[i]) {
                Ok(rule) => rules.push(rule),
                Err(e) => {
                    assert forall|j: int| 0 <= j < i implies #[trigger] read_rule(
                        strip_whitespace(texts@[j]@),
                    ) is Parsed by {
                        assert(read_rule(strip_whitespace(texts@[j]@)) == RuleText::Parsed(
                            rules@[j].left_view(),
                            rules@[j].right_view(),
                            rules@[j].probability(),
                        ));
                    }
                    return Err(e);
                },
            }
        }
        Ok(CSSLRuleSet { rules })
    }

    pub fn css_rules(&self) -> (r: &Vec<CSSLRule>)
        ensures
            r@ == self.rule_view(),
    {
        &self.rules
    }

    /// The index of the rule that `draw` selects for the context `ctx[from..to]`.
    pub fn select_in(&self, ctx: &Vec<char>, from: usize, to: usize, draw: u128) -> (r: Option<
        usize,
    >)
        requires
            from <= to <= ctx@.len(),
        ensures
            match r {
                Some(k) => chosen(self.rule_view(), ctx@.subrange(from as int, to as int), draw as nat)
                    == Some(k as int) && k < self.rule_view().len() && suffix_match(
                    self.rule_view()[k as int].left_view(),
                    ctx@.subrange(from as int, to as int),
                ) && self.rule_view()[k as int].weight() > 0,
                None => chosen(self.rule_view(), ctx@.subrange(from as int, to as int), draw as nat)
                    is None && total_weight(self.rule_view(), ctx@.subrange(from as int, to as int))
                    == 0,
            },
    {
        let ghost rs = self.rules@;
        let ghost window = ctx@.subrange(from as int, to as int);
        let n = self.rules.len();
        let mut total: u128 = 0;
        let mut i: usize = 0;
        while i < n
            invariant
                n == rs.len(),
                rs == self.rules@,
                from <= to <= ctx@.len(),
                window == ctx@.subrange(from as int, to as int),
                i <= n,
                total == matched_weight(rs, window, i as int),
            decreases n - i,
        {
            proof {
                lemma_matched_weight_bound(rs, window, i as int);
                lemma_weight_bound(rs[i as int]);
                assert(i * 18446744073709551615 + 18446744073709551615 < 340282366920938463463374607431768211455)
                    by (nonlinear_arith)
                    requires
                        i < 18446744073709551616,
                ;
            }
            if self.rules[i].matches_range(ctx, from, to) {
                total = total + self.rules[i].weight_units() as u128;
            }
            i = i + 1;
        }
        if total == 0 {
            return None;
        }
        let r = draw % total;
        proof {
            lemma_pick(rs, window, r as nat, 0);
        }
        let mut acc: u128 = 0;
        let mut i: usize = 0;
        while i < n
            invariant
                n == rs.len(),
                rs == self.rules@,
                from <= to <= ctx@.len(),
                window == ctx@.subrange(from as int, to as int),
                i <= n,
                acc == matched_weight(rs, window, i as int),
                acc <= r,
                r < total,
                r == draw % total,
                total == total_weight(rs, window),
                pick_from(rs, window, r as nat, 0) == pick_from(rs, window, r as nat, i as int),
            decreases n - i,
        {
            proof {
                lemma_matched_weight_mono(rs, window, i + 1, n as int);
            }
            if self.rules[i].matches_range(ctx, from, to) {
                acc = acc + self.rules[i].weight_units() as u128;
                assert(acc == matched_weight(rs, window, i + 1));
                if acc > r {
                    assert(pick_from(rs, window, r as nat, i as int) == Some(i as int));
                    assert((draw as nat) % (total as nat) == r as nat);
                    assert(chosen(rs, window, draw as nat) == Some(i as int));
                    return Some(i);
                }
            } else {
                assert(acc == matched_weight(rs, window, i + 1));
            }
            i = i + 1;
        }
        None
    }

    /// The rules as text: `{ rule, rule }`.
    pub fn to_string(&self) -> (r: String)
        ensures
            r@ == "{ "@ + rules_text(self.rule_view()) + " }"@,
    {
        let mut r = String::new();
        r.append("{ ");
        let mut body = String::new();
        for i in 0..self.rules.len()
            invariant
                body@ == rules_text(self.rules@.subrange(0, i as int)),
        {
            let ghost pre = self.rules@.subrange(0, i as int);
            assert(self.rules@.subrange(0, i + 1).drop_last() == pre);
            if i > 0 {
                body.append(", ");
            }
            let s = self.rules[i].to_string();
            body.append(s.as_str());
        }
        assert(self.rules@.subrange(0, self.rules@.len() as int) == self.rules@);
        r.append(body.as_str());
        r.append(" }");
        r
    }
}

impl LRuleSet for CSSLRuleSet {
    open spec fn rule_seq(&self) -> Seq<CSSLRule> {
        self.rule_view()
    }

    /// Select a rule by drawing a number in the range of the summed weights
    /// of the matching rules.
    fn select(&self, left: &str) -> (r: Option<&CSSLRule>) {
        let cs = chars_of(left);
        assert(cs@.subrange(0, cs@.len() as int) == cs@);
        let draw = random_draw();
        match self.select_in(&cs, 0, cs.len(), draw) {
            Some(k) => {
                let rule = &self.rules[k];
                assert(*rule == self.rule_seq()[k as int]);
                Some(rule)
            },
            None => None,
        }
    }

    fn rules(&self) -> (r: &Vec<CSSLRule>) {
        &self.rules
    }
}

} // verus!
