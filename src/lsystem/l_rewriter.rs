//! Rewriting a word with a rule set: right derivation with left contexts.

use vstd::prelude::*;

use crate::lsystem::l_rule::{CSSLRule, LRule};
use crate::lsystem::l_rule_set::{chosen, random_draw, CSSLRuleSet};
use crate::text::chars_of;

verus! {

/// Longest left side, context included, that a rule may have to match.
pub const MAX_LSIDE_LEN: usize = 3;

/// The rewriting of `w[0..n]`, scanning from the right: the last at most
/// `MAX_LSIDE_LEN` characters form the window; the rule chosen for it by the draw of its
/// last position replaces as many characters as its left side holds; with no
/// rule, the last character is kept. Returns the word and the rules used, in
/// order from left to right.
pub open spec fn rewrite_prefix(
    rules: Seq<CSSLRule>,
    w: Seq<char>,
    draws: Seq<u128>,
    n: int,
) -> (Seq<char>, Seq<CSSLRule>)
    decreases n,
{
    if n <= 0 || n > w.len() {
        (Seq::empty(), Seq::empty())
    } else {
        let j = if n - MAX_LSIDE_LEN > 0 {
            n - MAX_LSIDE_LEN
        } else {
            0
        };
        let draw = if n - 1 < draws.len() {
            draws[n - 1]
        } else {
            0
        };
        match chosen(rules, w.subrange(j, n), draw as nat) {
            Some(k) => {
                let m = rules[k].left_view().len();
                let next = if 1 <= m <= n {
                    n - m
                } else {
                    n - 1
                };
                let prev = rewrite_prefix(rules, w, draws, next);
                (prev.0 + rules[k].right_view(), prev.1.push(rules[k]))
            },
            None => {
                let prev = rewrite_prefix(rules, w, draws, n - 1);
                (prev.0.push(w[n - 1]), prev.1)
            },
        }
    }
}

/// The rewriting of a whole word under the given draws.
pub open spec fn rewritten(rules: Seq<CSSLRule>, w: Seq<char>, draws: Seq<u128>) -> (
    Seq<char>,
    Seq<CSSLRule>,
) {
    rewrite_prefix(rules, w, draws, w.len() as int)
}

/// A step of the scan: a rule applied, or a character kept.
enum Piece {
    Replaced(usize),
    Kept(char),
}

spec fn piece_text(rules: Seq<CSSLRule>, p: Piece) -> Seq<char> {
    match p {
        Piece::Replaced(k) => rules[k as int].right_view(),
        Piece::Kept(c) => seq![c],
    }
}

spec fn piece_rules(rules: Seq<CSSLRule>, p: Piece) -> Seq<CSSLRule> {
    match p {
        Piece::Replaced(k) => seq![rules[k as int]],
        Piece::Kept(_) => Seq::empty(),
    }
}

/// Output of pieces recorded from right to left.
spec fn pieces_text(rules: Seq<CSSLRule>, ps: Seq<Piece>) -> Seq<char>
    decreases ps.len(),
{
    if ps.len() == 0 {
        Seq::empty()
    } else {
        piece_text(rules, ps.last()) + pieces_text(rules, ps.drop_last())
    }
}

spec fn pieces_rules(rules: Seq<CSSLRule>, ps: Seq<Piece>) -> Seq<CSSLRule>
    decreases ps.len(),
{
    if ps.len() == 0 {
        Seq::empty()
    } else {
        piece_rules(rules, ps.last()) + pieces_rules(rules, ps.drop_last())
    }
}

proof fn lemma_push_piece(rules: Seq<CSSLRule>, ps: Seq<Piece>, x: Piece)
    ensures
        pieces_text(rules, ps.push(x)) == piece_text(rules, x) + pieces_text(rules, ps),
        pieces_rules(rules, ps.push(x)) == piece_rules(rules, x) + pieces_rules(rules, ps),
{
    assert(ps.push(x).drop_last() =~= ps);
}

spec fn pieces_valid(rules: Seq<CSSLRule>, ps: Seq<Piece>) -> bool {
    forall|i: int|
        0 <= i < ps.len() ==> (#[trigger] ps[i] matches Piece::Replaced(k) ==> k < rules.len())
}

/// Keeping the last character when no rule is chosen.
proof fn lemma_keep_step(
    rules: Seq<CSSLRule>,
    ws: Seq<char>,
    draws: Seq<u128>,
    n: int,
    ps: Seq<Piece>,
    full: (Seq<char>, Seq<CSSLRule>),
)
    requires
        1 <= n <= ws.len(),
        chosen(
            rules,
            ws.subrange(
                if n - MAX_LSIDE_LEN > 0 {
                    n - MAX_LSIDE_LEN
                } else {
                    0
                },
                n,
            ),
            (if n - 1 < draws.len() {
                draws[n - 1]
            } else {
                0
            }) as nat,
        ) is None,
        full.0 == rewrite_prefix(rules, ws, draws, n).0 + pieces_text(rules, ps),
        full.1 == rewrite_prefix(rules, ws, draws, n).1 + pieces_rules(rules, ps),
        pieces_valid(rules, ps),
    ensures
        full.0 == rewrite_prefix(rules, ws, draws, n - 1).0 + pieces_text(
            rules,
            ps.push(Piece::Kept(ws[n - 1])),
        ),
        full.1 == rewrite_prefix(rules, ws, draws, n - 1).1 + pieces_rules(
            rules,
            ps.push(Piece::Kept(ws[n - 1])),
        ),
        pieces_valid(rules, ps.push(Piece::Kept(ws[n - 1]))),
{
    let x = Piece::Kept(ws[n - 1]);
    lemma_push_piece(rules, ps, x);
    let prev = rewrite_prefix(rules, ws, draws, n - 1);
    assert(full.0 =~= prev.0 + pieces_text(rules, ps.push(x)));
    assert(full.1 =~= prev.1 + pieces_rules(rules, ps.push(x)));
    lemma_valid_push(rules, ps, x);
}

proof fn lemma_valid_push(rules: Seq<CSSLRule>, ps: Seq<Piece>, x: Piece)
    requires
        pieces_valid(rules, ps),
        x matches Piece::Replaced(k) ==> k < rules.len(),
    ensures
        pieces_valid(rules, ps.push(x)),
{
    assert forall|i: int|
        0 <= i < ps.push(x).len() implies (#[trigger] ps.push(x)[i] matches Piece::Replaced(k) ==> k
        < rules.len()) by {
        if i < ps.len() {
            assert(ps.push(x)[i] == ps[i]);
        }
    }
}

/// Rewriting of words.
pub trait LRewriter {
    spec fn rule_seq(&self) -> Seq<CSSLRule>;

    fn rules(&self) -> (r: &CSSLRuleSet)
        ensures
            r.rule_view() == self.rule_seq(),
    ;

    fn max_lside_len(&self) -> (r: usize)
        ensures
            r == 3,
    ;

    /// Rewrite a word; returns the new word and the rules used, left to right.
    /// The choice among matching rules is random: the result is the rewriting
    /// under some draws.
    fn rewrite(&self, s: &str) -> (r: (String, Vec<CSSLRule>))
        ensures
            exists|d: Seq<u128>|
                d.len() == s@.len() && (r.0@, r.1@) == rewritten(self.rule_seq(), s@, d),
    ;
}

/// The rewriter of a context-sensitive stochastic L-system.
#[derive(Debug, Clone)]
pub struct CSSLRewriter {
    rules: CSSLRuleSet,
}

impl Default for CSSLRewriter {
    fn default() -> (r: Self)
        ensures
            r.rule_view().len() == 0,
    {
        CSSLRewriter { rules: CSSLRuleSet::new(Vec::new()) }
    }
}

impl CSSLRewriter {
    pub closed spec fn rule_view(&self) -> Seq<CSSLRule> {
        self.rules.rule_view()
    }

    pub fn new(rules: CSSLRuleSet) -> (r: Self)
        ensures
            r.rule_view() == rules.rule_view(),
    {
        CSSLRewriter { rules }
    }

    /// Rewrite a word with the given draws, one for each position of the
    /// word; the draw of the last position of a window chooses its rule.
    pub fn rewrite_with(&self, s: &str, draws: &Vec<u128>) -> (r: (String, Vec<CSSLRule>))
        ensures
            (r.0@, r.1@) == rewritten(self.rule_view(), s@, draws@),
    {
        let ghost rules = self.rules.rule_view();
        let w = chars_of(s);
        let ghost ws = w@;
        let ghost full = rewrite_prefix(rules, ws, draws@, ws.len() as int);
        let mut pieces: Vec<Piece> = Vec::new();
        let mut n: usize = w.len();
        assert(pieces_text(rules, pieces@) == Seq::<char>::empty());
        assert(full.0 == rewrite_prefix(rules, ws, draws@, n as int).0 + pieces_text(
            rules,
            pieces@,
        ));
        assert(full.1 == rewrite_prefix(rules, ws, draws@, n as int).1 + pieces_rules(
            rules,
            pieces@,
        ));
        while n > 0
            invariant
                n <= ws.len(),
                w@ == ws,
                rules == self.rules.rule_view(),
                full.0 == rewrite_prefix(rules, ws, draws@, n as int).0 + pieces_text(
                    rules,
                    pieces@,
                ),
                full.1 == rewrite_prefix(rules, ws, draws@, n as int).1 + pieces_rules(
                    rules,
                    pieces@,
                ),
                pieces_valid(rules, pieces@),
            decreases n,
        {
            let j: usize = if n > MAX_LSIDE_LEN {
                n - MAX_LSIDE_LEN
            } else {
                0
            };
            let draw: u128 = if n - 1 < draws.len() {
                draws[n - 1]
            } else {
                0
            };
            let ghost prev_pieces = pieces@;
            match self.rules.select_in(&w, j, n, draw) {
                Some(k) => {
                    let rule = &self.rules.css_rules()[k];
                    let m = rule.left_len();
                    let step: usize = if m >= 1 {
                        m
                    } else {
                        1
                    };
                    pieces.push(Piece::Replaced(k));
                    assert(m <= n - j);
                    let ghost prev = rewrite_prefix(rules, ws, draws@, n - step);
                    assert(rewrite_prefix(rules, ws, draws@, n as int) == (
                        prev.0 + rules[k as int].right_view(),
                        prev.1.push(rules[k as int]),
                    ));
                    proof {
                        lemma_push_piece(rules, prev_pieces, Piece::Replaced(k));
                        assert forall|i: int|
                            0 <= i < pieces@.len() implies (#[trigger] pieces@[i] matches Piece::Replaced(kk)
                                ==> kk < rules.len()) by {
                            if i < prev_pieces.len() {
                                assert(pieces@[i] == prev_pieces[i]);
                            }
                        }
                    }
                    assert(full.0 =~= prev.0 + pieces_text(rules, pieces@));
                    assert(full.1 =~= prev.1 + pieces_rules(rules, pieces@));
                    n = n - step;
                },
                None => {
                    let c = w[n - 1];
                    pieces.push(Piece::Kept(c));
                    proof {
                        lemma_keep_step(rules, ws, draws@, n as int, prev_pieces, full);
                    }
                    n = n - 1;
                },
            }
        }
        let mut out = String::new();
        let mut used: Vec<CSSLRule> = Vec::new();
        let mut i: usize = pieces.len();
        assert(pieces@.subrange(0, i as int) =~= pieces@);
        assert(full.0 =~= out@ + pieces_text(rules, pieces@.subrange(0, i as int)));
        assert(full.1 =~= used@ + pieces_rules(rules, pieces@.subrange(0, i as int)));
        while i > 0
            invariant
                i <= pieces@.len(),
                rules == self.rules.rule_view(),
                full.0 == out@ + pieces_text(rules, pieces@.subrange(0, i as int)),
                full.1 == used@ + pieces_rules(rules, pieces@.subrange(0, i as int)),
                forall|i: int|
                    0 <= i < pieces@.len() ==> (#[trigger] pieces@[i] matches Piece::Replaced(k)
                        ==> k < rules.len()),
            decreases i,
        {
            let ghost sub = pieces@.subrange(0, i as int);
            let ghost out0 = out@;
            let ghost used0 = used@;
            assert(sub.drop_last() =~= pieces@.subrange(0, i - 1));
            assert(sub.last() == pieces@[i - 1]);
            match &pieces[i - 1] {
                Piece::Replaced(k) => {
                    let rule = &self.rules.css_rules()[*k];
                    out.append(rule.right());
                    used.push(rule.duplicate());
                },
                Piece::Kept(c) => {
                    crate::text::push_char(&mut out, *c);
                },
            }
            assert(full.0 =~= out@ + pieces_text(rules, pieces@.subrange(0, i - 1)));
            assert(full.1 =~= used@ + pieces_rules(rules, pieces@.subrange(0, i - 1)));
            i = i - 1;
        }
        (out, used)
    }
}

impl LRewriter for CSSLRewriter {
    open spec fn rule_seq(&self) -> Seq<CSSLRule> {
        self.rule_view()
    }

    fn rules(&self) -> (r: &CSSLRuleSet) {
        &self.rules
    }

    fn max_lside_len(&self) -> (r: usize) {
        MAX_LSIDE_LEN
    }

    fn rewrite(&self, s: &str) -> (r: (String, Vec<CSSLRule>)) {
        let n = s.unicode_len();
        let mut draws: Vec<u128> = Vec::new();
        for i in 0..n
            invariant
                draws@.len() == i,
        {
            draws.push(random_draw());
        }
        let r = self.rewrite_with(s, &draws);
        assert(draws@.len() == s@.len() && (r.0@, r.1@) == rewritten(self.rule_seq(), s@, draws@));
        r
    }
}

} // verus!
