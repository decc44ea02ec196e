//! The L-system: start word, current word, iteration counter and rewriter.

use vstd::prelude::*;

use crate::lsystem::l_rewriter::{rewritten, CSSLRewriter, LRewriter};
use crate::lsystem::l_rule::{read_rule, CSSLRule, RuleText};
use crate::lsystem::l_rule_set::CSSLRuleSet;
use crate::text::strip_whitespace;

verus! {

/// The iteration number and the word of an L-system.
#[derive(Debug)]
pub struct LSystemState {
    iter_num: i32,
    word: String,
}

impl LSystemState {
    pub closed spec fn iter_view(&self) -> int {
        self.iter_num as int
    }

    pub closed spec fn word_view(&self) -> Seq<char> {
        self.word@
    }

    pub fn iter_num(&self) -> (r: &i32)
        ensures
            *r == self.iter_view(),
    {
        &self.iter_num
    }

    pub fn word(&self) -> (r: &String)
        ensures
            r@ == self.word_view(),
    {
        &self.word
    }

    pub fn set_iter_num(&mut self, new_iter_num: i32) -> (r: &mut Self)
        ensures
            r.iter_view() == new_iter_num,
            r.word_view() == old(self).word_view(),
            *final(self) == *final(r),
    {
        self.iter_num = new_iter_num;
        self
    }

    pub fn set_word(&mut self, new_word: String) -> (r: &mut Self)
        ensures
            r.word_view() == new_word@,
            r.iter_view() == old(self).iter_view(),
            *final(self) == *final(r),
    {
        self.word = new_word;
        self
    }

    /// The state as text: `(iter n): word`.
    pub fn to_string(&self) -> (r: String)
        ensures
            r@ == "(iter "@ + crate::text::signed_decimal(self.iter_view()) + "): "@
                + self.word_view(),
    {
        let mut r = String::new();
        r.append("(iter ");
        crate::text::push_signed_decimal(&mut r, self.iter_num as i64);
        r.append("): ");
        r.append(self.word.as_str());
        r
    }
}

/// The rules used in each step of a history.
pub open spec fn used_views(h: Seq<Vec<CSSLRule>>) -> Seq<Seq<CSSLRule>> {
    h.map_values(|u: Vec<CSSLRule>| u@)
}

/// `w1` and `used` are the rewriting of `w0` under some draws.
pub open spec fn rewrites_to(
    rules: Seq<CSSLRule>,
    w0: Seq<char>,
    w1: Seq<char>,
    used: Seq<CSSLRule>,
) -> bool {
    exists|d: Seq<u128>| d.len() == w0.len() && (w1, used) == rewritten(rules, w0, d)
}

/// Each word is the rewriting of the one before it, with the rules used
/// listed in `used`.
pub open spec fn derivation(
    rules: Seq<CSSLRule>,
    words: Seq<Seq<char>>,
    used: Seq<Seq<CSSLRule>>,
) -> bool {
    &&& words.len() == used.len() + 1
    &&& forall|k: int|
        0 <= k < used.len() ==> #[trigger] rewrites_to(rules, words[k], words[k + 1], used[k])
}

/// Common behaviour of L-systems.
pub trait LSystem {
    spec fn rule_seq(&self) -> Seq<CSSLRule>;

    spec fn start_view(&self) -> Seq<char>;

    spec fn state_view(&self) -> (int, Seq<char>);

    /// Advance the system by rewriting its word once; returns the rules used.
    fn step(&mut self) -> (r: Vec<CSSLRule>)
        requires
            old(self).state_view().0 < i32::MAX,
        ensures
            final(self).rule_seq() == old(self).rule_seq(),
            final(self).start_view() == old(self).start_view(),
            final(self).state_view().0 == old(self).state_view().0 + 1,
            exists|d: Seq<u128>|
                d.len() == old(self).state_view().1.len() && (final(self).state_view().1, r@)
                    == rewritten(old(self).rule_seq(), old(self).state_view().1, d),
    ;

    fn state(&self) -> (r: &LSystemState)
        ensures
            (r.iter_view(), r.word_view()) == self.state_view(),
    ;

    fn rewriter(&self) -> (r: &CSSLRewriter)
        ensures
            r.rule_view() == self.rule_seq(),
    ;
}

/// A context-sensitive stochastic L-system.
#[derive(Debug)]
pub struct CSSLSystem {
    rewriter: CSSLRewriter,
    start_word: String,
    state: LSystemState,
}

impl CSSLSystem {
    /// Create a system from its start word and the texts of its rules, each of
    /// which must parse.
    pub fn from(start_word: String, rules: &[&str]) -> (r: Self)
        requires
            forall|i: int|
                0 <= i < rules@.len() ==> #[trigger] read_rule(strip_whitespace(rules@[i]@)) is Parsed,
        ensures
            r.start_view() == start_word@,
            r.state_view() == (0int, start_word@),
            r.rule_seq().len() == rules@.len(),
            forall|i: int|
                0 <= i < rules@.len() ==> read_rule(strip_whitespace(rules@[i]@)) == RuleText::Parsed(
                    #[trigger] r.rule_seq()[i].left_view(),
                    r.rule_seq()[i].right_view(),
                    r.rule_seq()[i].probability(),
                ),
    {
        let mut parsed: Vec<CSSLRule> = Vec::new();
        for i in 0..rules.len()
            invariant
                parsed@.len() == i,
                forall|i: int|
                    0 <= i < rules@.len() ==> #[trigger] read_rule(strip_whitespace(rules@[i]@)) is Parsed,
                forall|j: int|
                    0 <= j < i ==> read_rule(strip_whitespace(rules@[j]@)) == RuleText::Parsed(
                        #[trigger] parsed@[j].left_view(),
                        parsed@[j].right_view(),
                        parsed@[j].probability(),
                    ),
        {
            match CSSLRule::from(rules[i]) {
                Ok(rule) => parsed.push(rule),
                Err(_) => {
                    assert(read_rule(strip_whitespace(rules@[i as int]@)) is Parsed);
                },
            }
        }
        CSSLSystem::new(start_word, CSSLRuleSet::new(parsed))
    }

    /// Create a system from its start word and rule set, at iteration 0.
    pub fn new(start_word: String, ruleset: CSSLRuleSet) -> (r: Self)
        ensures
            r.start_view() == start_word@,
            r.state_view() == (0int, start_word@),
            r.rule_seq() == ruleset.rule_view(),
    {
        let word = start_word.clone();
        CSSLSystem {
            rewriter: CSSLRewriter::new(ruleset),
            start_word,
            state: LSystemState { iter_num: 0, word },
        }
    }

    /// The system as text: its start word and its rules.
    pub fn to_string(&self) -> (r: String)
        ensures
            r@ == "CSSLSystem: {\n\tstart = "@ + self.start_view() + "\n\trules = "@ + "{ "@
                + crate::lsystem::l_rule_set::rules_text(self.rule_seq()) + " }"@ + "\n}"@,
    {
        let mut r = String::new();
        r.append("CSSLSystem: {\n\tstart = ");
        r.append(self.start_word.as_str());
        r.append("\n\trules = ");
        let rules = self.rewriter.rules().to_string();
        r.append(rules.as_str());
        r.append("\n}");
        r
    }

    /// The state, for the caller to change.
    pub fn state_mut(&mut self) -> (r: &mut LSystemState)
        ensures
            (r.iter_view(), r.word_view()) == old(self).state_view(),
            (final(r).iter_view(), final(r).word_view()) == final(self).state_view(),
            final(self).rule_seq() == old(self).rule_seq(),
            final(self).start_view() == old(self).start_view(),
    {
        &mut self.state
    }

    /// Start again from the start word at iteration 0.
    pub fn reset(&mut self)
        ensures
            final(self).rule_seq() == old(self).rule_seq(),
            final(self).start_view() == old(self).start_view(),
            final(self).state_view() == (0int, old(self).start_view()),
    {
        self.state = LSystemState { iter_num: 0, word: self.start_word.clone() };
    }

    /// Undo one step: restore the word that the caller kept from before it.
    pub fn rollback(&mut self, prev_word: String)
        requires
            old(self).state_view().0 >= 1,
        ensures
            final(self).rule_seq() == old(self).rule_seq(),
            final(self).start_view() == old(self).start_view(),
            final(self).state_view() == (old(self).state_view().0 - 1, prev_word@),
    {
        self.state.iter_num = self.state.iter_num - 1;
        self.state.word = prev_word;
    }

    /// Apply `n` steps; returns the rules used in each.
    pub fn steps(&mut self, n: usize) -> (r: Vec<Vec<CSSLRule>>)
        requires
            old(self).state_view().0 + n <= i32::MAX,
        ensures
            r@.len() == n,
            final(self).rule_seq() == old(self).rule_seq(),
            final(self).start_view() == old(self).start_view(),
            final(self).state_view().0 == old(self).state_view().0 + n,
            exists|words: Seq<Seq<char>>|
                #[trigger] derivation(
                    old(self).rule_seq(),
                    words,
                    used_views(r@),
                ) && words.len() == n + 1 && words[0] == old(self).state_view().1 && words[n as int]
                    == final(self).state_view().1,
    {
        let mut history: Vec<Vec<CSSLRule>> = Vec::new();
        let ghost start = *self;
        let ghost mut words: Seq<Seq<char>> = seq![self.state_view().1];
        for i in 0..n
            invariant
                history@.len() == i,
                self.rule_seq() == start.rule_seq(),
                self.start_view() == start.start_view(),
                self.state_view().0 == start.state_view().0 + i,
                start.state_view().0 + n <= i32::MAX,
                words.len() == i + 1,
                words[0] == start.state_view().1,
                words[i as int] == self.state_view().1,
                derivation(start.rule_seq(), words, used_views(history@)),
        {
            let ghost before = self.state_view().1;
            let ghost hist0 = used_views(history@);
            let used = self.step();
            let ghost after = self.state_view().1;
            history.push(used);
            proof {
                let hist1 = used_views(history@);
                assert(hist1 =~= hist0.push(used@));
                let words1 = words.push(after);
                assert forall|k: int| 0 <= k < hist1.len() implies #[trigger] rewrites_to(
                    start.rule_seq(),
                    words1[k],
                    words1[k + 1],
                    hist1[k],
                ) by {
                    if k < hist0.len() {
                        assert(words1[k] == words[k] && words1[k + 1] == words[k + 1]);
                        assert(rewrites_to(start.rule_seq(), words[k], words[k + 1], hist0[k]));
                    } else {
                        assert(words1[k] == before);
                    }
                }
                words = words1;
            }
        }
        history
    }
}

impl LSystem for CSSLSystem {
    closed spec fn rule_seq(&self) -> Seq<CSSLRule> {
        self.rewriter.rule_view()
    }

    closed spec fn start_view(&self) -> Seq<char> {
        self.start_word@
    }

    closed spec fn state_view(&self) -> (int, Seq<char>) {
        (self.state.iter_num as int, self.state.word@)
    }

    fn step(&mut self) -> (r: Vec<CSSLRule>) {
        let ghost old_word = self.state.word@;
        let ghost old_self = *self;
        let (word, used) = self.rewriter.rewrite(self.state.word.as_str());
        let ghost d = choose|d: Seq<u128>|
            d.len() == old_word.len() && (word@, used@) == rewritten(
                self.rewriter.rule_view(),
                old_word,
                d,
            );
        self.state.word = word;
        self.state.iter_num = self.state.iter_num + 1;
        assert(d.len() == old_self.state_view().1.len() && (self.state_view().1, used@) == rewritten(
            old_self.rule_seq(),
            old_self.state_view().1,
            d,
        ));
        used
    }

    fn state(&self) -> (r: &LSystemState) {
        &self.state
    }

    fn rewriter(&self) -> (r: &CSSLRewriter) {
        &self.rewriter
    }
}

} // verus!
