//! Editing rules as text, one rule per line, and validating them.

use vstd::prelude::*;

use crate::error::AppError;
use crate::lsystem::l_rule::{find_char, read_rule, CSSLRule, Probability, RuleText};
use crate::lsystem::l_rule_set::CSSLRuleSet;
use crate::text::{chars_of, string_of_range, strip_whitespace};

verus! {

/// How far, in units of 2^-32, a sum of probabilities may lie from one: a
/// thousandth, rounded down.
pub const RULE_EPS_UNITS: u64 = 4294967;

/// The tolerance of a sum of probabilities: a thousandth.
pub open spec fn rule_tolerance() -> Probability {
    Probability { num: 1, den: 1000 }
}

/// Whether a summed weight is one within the tolerance.
pub open spec fn sum_is_one(w: nat) -> bool {
    4294967296 - RULE_EPS_UNITS <= w <= 4294967296 + RULE_EPS_UNITS
}

/// Sum of the weights of the rules in `rules[0..k]` that rewrite `c`.
pub open spec fn context_weight(rules: Seq<CSSLRule>, c: char, k: int) -> nat
    decreases k,
{
    if k <= 0 || k > rules.len() {
        0
    } else {
        context_weight(rules, c, k - 1) + if rules[k - 1].left_view().len() >= 1
            && rules[k - 1].left_view().last() == c {
            rules[k - 1].weight()
        } else {
            0
        }
    }
}

/// From position `i`, the character of the first rule whose context's
/// probabilities do not sum to one.
pub open spec fn first_bad_context(rules: Seq<CSSLRule>, i: int) -> Option<char>
    decreases rules.len() - i,
{
    if i < 0 || i >= rules.len() {
        None
    } else if rules[i].left_view().len() >= 1 && !sum_is_one(
        context_weight(rules, rules[i].left_view().last(), rules.len() as int),
    ) {
        Some(rules[i].left_view().last())
    } else {
        first_bad_context(rules, i + 1)
    }
}

/// The end of the line that starts at `start`: the next newline, or the end.
pub open spec fn line_end(s: Seq<char>, start: int) -> int {
    let k = find_char(s, '\n', start);
    if k < 0 {
        s.len() as int
    } else {
        k
    }
}

/// Whether a line holds anything besides whitespace.
pub open spec fn is_blank(line: Seq<char>) -> bool {
    strip_whitespace(line).len() == 0
}

/// From the line at `start` on, the first non-blank line that is no rule.
pub open spec fn first_bad_line(s: Seq<char>, start: int) -> Option<Seq<char>>
    decreases s.len() - start,
{
    if start < 0 || start > s.len() {
        None
    } else {
        let end = line_end(s, start);
        let line = s.subrange(start, end);
        if !is_blank(line) && !(read_rule(strip_whitespace(line)) is Parsed) {
            Some(line)
        } else if end >= s.len() || end < start {
            None
        } else {
            first_bad_line(s, end + 1)
        }
    }
}

/// From the line at `start` on, the rules of the lines that are rules.
pub open spec fn good_lines(s: Seq<char>, start: int) -> Seq<(Seq<char>, Seq<char>, Probability)>
    decreases s.len() - start,
{
    if start < 0 || start > s.len() {
        Seq::empty()
    } else {
        let end = line_end(s, start);
        let line = s.subrange(start, end);
        let rest = if end >= s.len() || end < start {
            Seq::empty()
        } else {
            good_lines(s, end + 1)
        };
        match read_rule(strip_whitespace(line)) {
            RuleText::Parsed(l, r, p) => if !is_blank(line) {
                seq![(l, r, p)] + rest
            } else {
                rest
            },
            _ => rest,
        }
    }
}

proof fn lemma_line_end(s: Seq<char>, start: int)
    requires
        0 <= start <= s.len(),
    ensures
        start <= line_end(s, start) <= s.len(),
        line_end(s, start) < s.len() ==> s[line_end(s, start)] == '\n',
    decreases s.len() - start,
{
    if start < s.len() && s[start] != '\n' {
        lemma_line_end(s, start + 1);
    }
}

fn find_newline(s: &Vec<char>, start: usize) -> (r: usize)
    requires
        start <= s@.len(),
    ensures
        r == line_end(s@, start as int),
{
    let mut i: usize = start;
    while i < s.len()
        invariant
            start <= i <= s@.len(),
            find_char(s@, '\n', start as int) == find_char(s@, '\n', i as int),
        decreases s@.len() - i,
    {
        if s[i] == '\n' {
            return i;
        }
        i = i + 1;
    }
    s.len()
}

/// Check that the probabilities of the rules of each context character sum
/// to one; the first rule, in order, whose character's sum does not, gives the error.
pub fn check_probability_sums(rules: &Vec<CSSLRule>) -> (r: Result<(), AppError>)
    ensures
        match r {
            Ok(()) => first_bad_context(rules@, 0) is None,
            Err(e) => first_bad_context(rules@, 0) matches Some(c) && e == AppError::CSSRuleSumNotOne(
                c,
                rule_tolerance(),
            ),
        },
{
    let n = rules.len();
    let mut i: usize = 0;
    while i < n
        invariant
            n == rules@.len(),
            i <= n,
            first_bad_context(rules@, 0) == first_bad_context(rules@, i as int),
        decreases n - i,
    {
        if let Some(c) = rules[i].context_char() {
            let mut sum: u128 = 0;
            let mut j: usize = 0;
            while j < n
                invariant
                    n == rules@.len(),
                    j <= n,
                    sum == context_weight(rules@, c, j as int),
                    sum <= j * 18446744073709551616,
                decreases n - j,
            {
                if let Some(d) = rules[j].context_char() {
                    if d == c {
                        let w = rules[j].weight_units();
                        assert(j * 18446744073709551616 + 18446744073709551616 <= 340282366920938463463374607431768211455)
                            by (nonlinear_arith)
                            requires
                                j < n,
                                n <= usize::MAX,
                        ;
                        sum = sum + w as u128;
                    }
                }
                j = j + 1;
            }
            if !(4294967296 - RULE_EPS_UNITS as u128 <= sum && sum <= 4294967296 + RULE_EPS_UNITS as u128) {
                return Err(AppError::CSSRuleSumNotOne(c, Probability { num: 1, den: 1000 }));
            }
        }
        i = i + 1;
    }
    Ok(())
}

/// The texts of the rules, each followed by a newline.
pub open spec fn rules_lines(rs: Seq<CSSLRule>) -> Seq<char>
    decreases rs.len(),
{
    if rs.len() == 0 {
        Seq::empty()
    } else {
        (rules_lines(rs.drop_last()) + rs.last().text()).push('\n')
    }
}

/// The rules of a rule editor: their text, one per line, and the rules of
/// the lines that parse.
#[derive(Debug)]
pub struct RuleEditState {
    pub text: String,
    pub rules: Vec<CSSLRule>,
}

impl RuleEditState {
    pub fn new() -> (r: Self)
        ensures
            r.text@.len() == 0,
            r.rules@.len() == 0,
    {
        RuleEditState { text: String::new(), rules: Vec::new() }
    }

    /// The state for the rules of a rule set: each rule's text on a line.
    pub fn with_rules(self, ruleset: &CSSLRuleSet) -> (r: Self)
        ensures
            r.rules@ == ruleset.rule_view(),
            r.text@ == rules_lines(ruleset.rule_view()),
    {
        let rs = ruleset.css_rules();
        let mut text = String::new();
        let mut rules: Vec<CSSLRule> = Vec::new();
        for i in 0..rs.len()
            invariant
                rs@ == ruleset.rule_view(),
                rules@ == rs@.subrange(0, i as int),
                text@ == rules_lines(rs@.subrange(0, i as int)),
        {
            assert(rs@.subrange(0, i + 1).drop_last() =~= rs@.subrange(0, i as int));
            let line = rs[i].to_string();
            text.append(line.as_str());
            crate::text::push_char(&mut text, '\n');
            rules.push(rs[i].duplicate());
            assert(rs@.subrange(0, i + 1) == rs@.subrange(0, i as int).push(rs@[i as int]));
        }
        assert(rs@.subrange(0, rs@.len() as int) == rs@);
        RuleEditState { text, rules }
    }

    /// Replace the rules with those of the lines of the text that parse,
    /// skipping the others.
    pub fn update_rules(&mut self)
        ensures
            final(self).text == old(self).text,
            final(self).rules@.len() == good_lines(old(self).text@, 0).len(),
            forall|i: int|
                0 <= i < final(self).rules@.len() ==> ((#[trigger] final(self).rules@[i]).left_view(),
                final(self).rules@[i].right_view(), final(self).rules@[i].probability())
                    == good_lines(old(self).text@, 0)[i],
    {
        let s = chars_of(self.text.as_str());
        let ghost sv = s@;
        let mut rules: Vec<CSSLRule> = Vec::new();
        let mut start: usize = 0;
        let ghost mut acc: Seq<(Seq<char>, Seq<char>, Probability)> = Seq::empty();
        assert(good_lines(sv, 0) =~= acc + good_lines(sv, start as int));
        loop
            invariant_except_break
                start <= sv.len(),
                good_lines(sv, 0) == acc + good_lines(sv, start as int),
            invariant
                s@ == sv,
                sv == self.text@,
                rules@.len() == acc.len(),
                forall|i: int|
                    0 <= i < rules@.len() ==> ((#[trigger] rules@[i]).left_view(),
                    rules@[i].right_view(), rules@[i].probability()) == acc[i],
            ensures
                good_lines(sv, 0) == acc,
            decreases sv.len() - start,
        {
            let end = find_newline(&s, start);
            proof {
                lemma_line_end(sv, start as int);
            }
            let line = string_of_range(&s, start, end);
            let ghost rest = if end >= sv.len() {
                Seq::empty()
            } else {
                good_lines(sv, end + 1)
            };
            let blank = crate::text::is_blank_str(line.as_str());
            match CSSLRule::from(line.as_str()) {
                Ok(rule) => {
                    if !blank {
                        proof {
                            acc = acc.push(
                                (rule.left_view(), rule.right_view(), rule.probability()),
                            );
                        }
                        rules.push(rule);
                    }
                },
                Err(_) => {},
            }
            assert(good_lines(sv, 0) =~= acc + rest);
            if end >= s.len() {
                assert(acc + rest =~= acc);
                break;
            }
            start = end + 1;
        }
        self.rules = rules;
    }

    /// Check that every non-blank line of the text is a rule, then that the
    /// probabilities of the rules sum to one for each context character.
    pub fn check(&self) -> (r: Result<(), AppError>)
        ensures
            match r {
                Ok(()) => first_bad_line(self.text@, 0) is None && first_bad_context(self.rules@, 0) is None,
                Err(AppError::CSSRuleSumNotOne(c, tolerance)) => first_bad_line(self.text@, 0) is None
                    && first_bad_context(self.rules@, 0) == Some(c) && tolerance == rule_tolerance(),
                Err(e) => first_bad_line(self.text@, 0) matches Some(line) && match read_rule(
                    strip_whitespace(line),
                ) {
                    RuleText::Malformed => e matches AppError::CSSRuleParse(t) && t@ == line,
                    RuleText::BadNumber(why) => e matches AppError::CSSRuleParseNum(t, w) && t@
                        == line && w@ == why,
                    _ => false,
                },
            },
    {
        let s = chars_of(self.text.as_str());
        let ghost sv = s@;
        let mut start: usize = 0;
        loop
            invariant_except_break
                start <= sv.len(),
                first_bad_line(sv, 0) == first_bad_line(sv, start as int),
            invariant
                s@ == sv,
                sv == self.text@,
            ensures
                first_bad_line(sv, 0) is None,
            decreases sv.len() - start,
        {
            let end = find_newline(&s, start);
            proof {
                lemma_line_end(sv, start as int);
            }
            let line = string_of_range(&s, start, end);
            if !crate::text::is_blank_str(line.as_str()) {
                match CSSLRule::from(line.as_str()) {
                    Ok(_) => {},
                    Err(e) => {
                        return Err(e);
                    },
                }
            }
            if end >= s.len() {
                break;
            }
            start = end + 1;
        }
        check_probability_sums(&self.rules)
    }
}

} // verus!
