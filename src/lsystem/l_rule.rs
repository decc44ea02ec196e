//! A single rule of a context-sensitive stochastic L-system.

use vstd::prelude::*;

use crate::error::AppError;
use crate::text::{chars_of, decimal, push_decimal, strip_whitespace, WithoutWhitespaces};

verus! {

/// A probability held exactly as a fraction.
#[derive(Debug, Clone, Copy, PartialEq, Eq, Structural)]
pub struct Probability {
    pub num: u32,
    pub den: u32,
}

impl Probability {
    /// The probability in units of 2^-32, rounded down; zero for a zero denominator.
    pub open spec fn weight(self) -> nat {
        if self.den == 0 {
            0
        } else {
            (self.num as nat * 4294967296) / (self.den as nat)
        }
    }

    /// The probability in units of 2^-32, rounded down.
    pub fn weight_units(&self) -> (r: u64)
        ensures
            r == self.weight(),
    {
        if self.den == 0 {
            0
        } else {
            let scaled: u64 = self.num as u64 * 4294967296u64;
            scaled / self.den as u64
        }
    }
}

/// Whether `left` is non-empty and a suffix of `ctx`.
pub open spec fn suffix_match(left: Seq<char>, ctx: Seq<char>) -> bool {
    &&& 1 <= left.len() <= ctx.len()
    &&& ctx.subrange(ctx.len() - left.len(), ctx.len() as int) == left
}

/// Common behaviour of L-system rules.
pub trait LRule {
    spec fn left_side(&self) -> Seq<char>;

    spec fn right_side(&self) -> Seq<char>;

    /// Whether the rule applies at the end of `s`.
    fn matches(&self, s: &str) -> (r: bool)
        ensures
            r == suffix_match(self.left_side(), s@),
    ;

    fn left(&self) -> (r: &str)
        ensures
            r@ == self.left_side(),
    ;

    fn right(&self) -> (r: &str)
        ensures
            r@ == self.right_side(),
    ;
}

/// A rule `left -> right % p`: the last character of `left` is rewritten to
/// `right` where the characters before it are its left context.
#[derive(Debug, Clone)]
pub struct CSSLRule {
    left: String,
    right: String,
    p: Probability,
}

impl CSSLRule {
    pub closed spec fn left_view(&self) -> Seq<char> {
        self.left@
    }

    pub closed spec fn right_view(&self) -> Seq<char> {
        self.right@
    }

    pub closed spec fn probability(&self) -> Probability {
        self.p
    }

    /// The chance of the rule among those that match, in units of 2^-32.
    pub open spec fn weight(&self) -> nat {
        self.probability().weight()
    }

    pub fn new(left: &str, right: &str, p: Probability) -> (r: Self)
        requires
            left@.len() >= 1,
        ensures
            r.left_view() == left@,
            r.right_view() == right@,
            r.probability() == p,
    {
        CSSLRule { left: left.to_owned(), right: right.to_owned(), p }
    }

    /// Number of characters of the left side.
    pub fn left_len(&self) -> (r: usize)
        ensures
            r == self.left_view().len(),
    {
        self.left.as_str().unicode_len()
    }

    /// The character that the rule rewrites: the last of its left side.
    pub fn context_char(&self) -> (r: Option<char>)
        ensures
            match r {
                Some(c) => self.left_view().len() >= 1 && c == self.left_view().last(),
                None => self.left_view().len() == 0,
            },
    {
        let left = self.left.as_str();
        let n = left.unicode_len();
        if n == 0 {
            None
        } else {
            Some(left.get_char(n - 1))
        }
    }

    pub fn p(&self) -> (r: Probability)
        ensures
            r == self.probability(),
    {
        self.p
    }

    pub fn weight_units(&self) -> (r: u64)
        ensures
            r == self.weight(),
    {
        self.p.weight_units()
    }

    /// A copy of the rule.
    pub fn duplicate(&self) -> (r: Self)
        ensures
            r == *self,
    {
        CSSLRule { left: self.left.clone(), right: self.right.clone(), p: self.p }
    }

    /// Whether the left side is a suffix of `ctx[from..to]`.
    pub fn matches_range(&self, ctx: &Vec<char>, from: usize, to: usize) -> (r: bool)
        requires
            from <= to <= ctx@.len(),
        ensures
            r == suffix_match(self.left_view(), ctx@.subrange(from as int, to as int)),
    {
        let left = self.left.as_str();
        let n = left.unicode_len();
        if n == 0 || n > to - from {
            return false;
        }
        let start = to - n;
        let ghost window = ctx@.subrange(from as int, to as int);
        let ghost tail = window.subrange(window.len() - n, window.len() as int);
        assert(tail == ctx@.subrange(start as int, to as int));
        let mut i: usize = 0;
        while i < n
            invariant
                n == left@.len(),
                left@ == self.left@,
                start + n == to <= ctx@.len(),
                tail == ctx@.subrange(start as int, to as int),
                window == ctx@.subrange(from as int, to as int),
                tail == window.subrange(window.len() - n, window.len() as int),
                i <= n,
                forall|k: int| 0 <= k < i ==> left@[k] == ctx@[start + k],
            decreases n - i,
        {
            if left.get_char(i) != ctx[start + i] {
                assert(tail[i as int] != left@[i as int]);
                return false;
            }
            i = i + 1;
        }
        assert(tail == left@);
        true
    }

    /// The rule as text: `left -> right % num/den`.
    pub open spec fn text(&self) -> Seq<char> {
        self.left_view() + " -> "@ + self.right_view() + " % "@ + decimal(
            self.probability().num as nat,
        ) + "/"@ + decimal(self.probability().den as nat)
    }

    /// The rule as text: `left -> right % num/den`.
    pub fn to_string(&self) -> (r: String)
        ensures
            r@ == self.text(),
    {
        let mut r = self.left.clone();
        r.append(" -> ");
        r.append(self.right.as_str());
        r.append(" % ");
        push_decimal(&mut r, self.p.num as u64);
        r.append("/");
        push_decimal(&mut r, self.p.den as u64);
        r
    }
}

impl LRule for CSSLRule {
    open spec fn left_side(&self) -> Seq<char> {
        self.left_view()
    }

    open spec fn right_side(&self) -> Seq<char> {
        self.right_view()
    }

    /// Check if the string ends with the left side of the rule.
    fn matches(&self, s: &str) -> (r: bool) {
        let cs = chars_of(s);
        assert(cs@.subrange(0, cs@.len() as int) == cs@);
        self.matches_range(&cs, 0, cs.len())
    }

    fn left(&self) -> (r: &str) {
        self.left.as_str()
    }

    fn right(&self) -> (r: &str) {
        self.right.as_str()
    }
}

pub open spec fn is_digit(c: char) -> bool {
    '0' <= c <= '9'
}

pub open spec fn all_digits(s: Seq<char>) -> bool {
    forall|i: int| 0 <= i < s.len() ==> is_digit(#[trigger] s[i])
}

/// The value of a string of decimal digits.
pub open spec fn digits_value(s: Seq<char>) -> nat
    decreases s.len(),
{
    if s.len() == 0 {
        0
    } else {
        digits_value(s.drop_last()) * 10 + (s.last() as nat - '0' as nat) as nat
    }
}

pub open spec fn pow10(n: nat) -> nat
    decreases n,
{
    if n == 0 {
        1
    } else {
        10 * pow10((n - 1) as nat)
    }
}

/// The first position `j >= i` where `->` starts, or -1.
pub open spec fn find_arrow(t: Seq<char>, i: int) -> int
    decreases t.len() - i,
{
    if i < 0 || i + 1 >= t.len() {
        -1
    } else if t[i] == '-' && t[i + 1] == '>' {
        i
    } else {
        find_arrow(t, i + 1)
    }
}

/// The first position `j >= i` of `c`, or -1.
pub open spec fn find_char(t: Seq<char>, c: char, i: int) -> int
    decreases t.len() - i,
{
    if i < 0 || i >= t.len() {
        -1
    } else if t[i] == c {
        i
    } else {
        find_char(t, c, i + 1)
    }
}

/// The last position `j < i` of `c`, or -1.
pub open spec fn find_last(t: Seq<char>, c: char, i: int) -> int
    decreases i,
{
    if i <= 0 || i > t.len() {
        -1
    } else if t[i - 1] == c {
        i - 1
    } else {
        find_last(t, c, i - 1)
    }
}

/// What the text of a rule, without whitespace, stands for.
pub enum RuleText {
    /// A rule with its left side, right side and probability.
    Parsed(Seq<char>, Seq<char>, Probability),
    /// Text of neither form, or with an empty left side.
    Malformed,
    /// A number that does not parse, with the reason.
    BadNumber(Seq<char>),
}

/// Why a count (numerator or denominator) does not parse, if it does not.
pub open spec fn count_problem(s: Seq<char>) -> Option<Seq<char>> {
    if s.len() == 0 {
        Some("cannot parse integer from empty string"@)
    } else if !all_digits(s) {
        Some("invalid digit found in string"@)
    } else if digits_value(s) > u32::MAX {
        Some("number too large to fit in target type"@)
    } else {
        None
    }
}

/// Integer and fraction digits of a decimal: split at its first dot.
pub open spec fn decimal_parts(s: Seq<char>) -> (Seq<char>, Seq<char>) {
    let k = find_char(s, '.', 0);
    if k < 0 {
        (s, Seq::empty())
    } else {
        (s.subrange(0, k), s.subrange(k + 1, s.len() as int))
    }
}

/// The probability that a decimal stands for, or why it does not parse. The
/// probability is held as a fraction of two 32-bit numbers, so a decimal has
/// at most 9 fraction digits and at most 9 or 10 digits in all.
pub open spec fn decimal_probability(s: Seq<char>) -> Result<Probability, Seq<char>> {
    let (ip, fp) = decimal_parts(s);
    let value = digits_value(ip) * pow10(fp.len()) + digits_value(fp);
    if !all_digits(ip) || !all_digits(fp) || ip.len() + fp.len() == 0 {
        Err("invalid float literal"@)
    } else if fp.len() > 9 {
        Err("more than 9 fraction digits"@)
    } else if value > u32::MAX {
        Err("number too large for a probability"@)
    } else {
        Ok(Probability { num: value as u32, den: pow10(fp.len()) as u32 })
    }
}

/// The reading of a rule text without whitespace. The fraction form is
/// `left->right%num/den`, split at the first `->`, the first `%` after it and
/// the first `/` after that; else the decimal form is `left->right%decimal`,
/// split at the first `->` and the last `%`, with only digits and dots after it.
pub open spec fn read_rule(t: Seq<char>) -> RuleText {
    let a = find_arrow(t, 0);
    let b = find_char(t, '%', a + 2);
    let c = find_char(t, '/', b + 1);
    let bl = find_last(t, '%', t.len() as int);
    if a >= 0 && b >= 0 && c >= 0 {
        let nom = t.subrange(b + 1, c);
        let den = t.subrange(c + 1, t.len() as int);
        if a == 0 {
            RuleText::Malformed
        } else if count_problem(nom) is Some {
            RuleText::BadNumber(count_problem(nom)->0)
        } else if count_problem(den) is Some {
            RuleText::BadNumber(count_problem(den)->0)
        } else if digits_value(den) == 0 {
            RuleText::BadNumber("denominator is zero"@)
        } else {
            RuleText::Parsed(
                t.subrange(0, a),
                t.subrange(a + 2, b),
                Probability { num: digits_value(nom) as u32, den: digits_value(den) as u32 },
            )
        }
    } else if a >= 0 && bl >= a + 2 && (forall|i: int|
        bl < i < t.len() ==> is_digit(#[trigger] t[i]) || t[i] == '.') {
        let d = t.subrange(bl + 1, t.len() as int);
        if a == 0 {
            RuleText::Malformed
        } else {
            match decimal_probability(d) {
                Ok(p) => RuleText::Parsed(t.subrange(0, a), t.subrange(a + 2, bl), p),
                Err(reason) => RuleText::BadNumber(reason),
            }
        }
    } else {
        RuleText::Malformed
    }
}

fn find_arrow_in(t: &Vec<char>) -> (r: Option<usize>)
    ensures
        match r {
            Some(i) => i == find_arrow(t@, 0),
            None => find_arrow(t@, 0) == -1,
        },
{
    let mut i: usize = 0;
    while i < t.len() && i + 1 < t.len()
        invariant
            i <= t@.len(),
            find_arrow(t@, 0) == find_arrow(t@, i as int),
        decreases t@.len() - i,
    {
        if t[i] == '-' && t[i + 1] == '>' {
            return Some(i);
        }
        i = i + 1;
    }
    None
}

fn find_char_in(t: &Vec<char>, c: char, from: usize) -> (r: Option<usize>)
    ensures
        match r {
            Some(i) => i == find_char(t@, c, from as int),
            None => find_char(t@, c, from as int) == -1,
        },
{
    let mut i: usize = from;
    while i < t.len()
        invariant
            from <= i,
            find_char(t@, c, from as int) == find_char(t@, c, i as int),
        decreases t@.len() - i,
    {
        if t[i] == c {
            return Some(i);
        }
        i = i + 1;
    }
    None
}

fn find_last_in(t: &Vec<char>, c: char) -> (r: Option<usize>)
    ensures
        match r {
            Some(i) => i == find_last(t@, c, t@.len() as int),
            None => find_last(t@, c, t@.len() as int) == -1,
        },
{
    let mut i: usize = t.len();
    while i > 0
        invariant
            i <= t@.len(),
            find_last(t@, c, t@.len() as int) == find_last(t@, c, i as int),
        decreases i,
    {
        if t[i - 1] == c {
            return Some(i - 1);
        }
        i = i - 1;
    }
    None
}

proof fn lemma_find_bounds(t: Seq<char>, c: char, i: int)
    ensures
        find_char(t, c, i) == -1 || (i <= find_char(t, c, i) < t.len() && t[find_char(t, c, i)]
            == c),
    decreases t.len() - i,
{
    if 0 <= i < t.len() && t[i] != c {
        lemma_find_bounds(t, c, i + 1);
    }
}

proof fn lemma_find_arrow_bounds(t: Seq<char>, i: int)
    ensures
        find_arrow(t, i) == -1 || (i <= find_arrow(t, i) && find_arrow(t, i) + 1 < t.len()),
    decreases t.len() - i,
{
    if 0 <= i && i + 1 < t.len() && !(t[i] == '-' && t[i + 1] == '>') {
        lemma_find_arrow_bounds(t, i + 1);
    }
}

proof fn lemma_find_last_bounds(t: Seq<char>, c: char, i: int)
    ensures
        find_last(t, c, i) == -1 || (0 <= find_last(t, c, i) < i && find_last(t, c, i) < t.len()),
    decreases i,
{
    if 0 < i <= t.len() && t[i - 1] != c {
        lemma_find_last_bounds(t, c, i - 1);
    }
}

/// The value of the digits `t[from..to]`, or 2^32 if it is larger than that.
fn capped_value(t: &Vec<char>, from: usize, to: usize) -> (r: u64)
    requires
        from <= to <= t@.len(),
        all_digits(t@.subrange(from as int, to as int)),
    ensures
        r == if digits_value(t@.subrange(from as int, to as int)) < 4294967296 {
            digits_value(t@.subrange(from as int, to as int))
        } else {
            4294967296
        },
{
    let mut acc: u64 = 0;
    let mut i: usize = from;
    while i < to
        invariant
            from <= i <= to <= t@.len(),
            all_digits(t@.subrange(from as int, to as int)),
            acc == if digits_value(t@.subrange(from as int, i as int)) < 4294967296 {
                digits_value(t@.subrange(from as int, i as int))
            } else {
                4294967296
            },
        decreases to - i,
    {
        let ghost pre = t@.subrange(from as int, i as int);
        let ghost next = t@.subrange(from as int, i + 1);
        assert(next.drop_last() == pre);
        assert(t@.subrange(from as int, to as int)[i - from] == t@[i as int]);
        let d = (t[i] as u32 - '0' as u32) as u64;
        if acc >= 4294967296 {
            acc = 4294967296;
        } else {
            acc = acc * 10 + d;
            if acc >= 4294967296 {
                acc = 4294967296;
            }
        }
        i = i + 1;
    }
    acc
}

fn check_digits(t: &Vec<char>, from: usize, to: usize) -> (r: bool)
    requires
        from <= to <= t@.len(),
    ensures
        r == all_digits(t@.subrange(from as int, to as int)),
{
    let mut i: usize = from;
    while i < to
        invariant
            from <= i <= to <= t@.len(),
            forall|k: int| from <= k < i ==> is_digit(t@[k]),
        decreases to - i,
    {
        if !('0' <= t[i] && t[i] <= '9') {
            assert(t@.subrange(from as int, to as int)[i - from] == t@[i as int]);
            return false;
        }
        i = i + 1;
    }
    assert forall|k: int| 0 <= k < to - from implies is_digit(
        #[trigger] t@.subrange(from as int, to as int)[k],
    ) by {
        assert(t@.subrange(from as int, to as int)[k] == t@[from + k]);
    }
    true
}

/// A count from `t[from..to]`, or why it does not parse.
fn parse_count(t: &Vec<char>, from: usize, to: usize) -> (r: Result<u32, &'static str>)
    requires
        from <= to <= t@.len(),
    ensures
        match r {
            Ok(v) => count_problem(t@.subrange(from as int, to as int)) is None && v
                == digits_value(t@.subrange(from as int, to as int)),
            Err(reason) => count_problem(t@.subrange(from as int, to as int)) == Some(reason@),
        },
{
    if from == to {
        return Err("cannot parse integer from empty string");
    }
    if !check_digits(t, from, to) {
        return Err("invalid digit found in string");
    }
    let v = capped_value(t, from, to);
    if v > 4294967295 {
        return Err("number too large to fit in target type");
    }
    Ok(v as u32)
}

fn pow10_of(n: usize) -> (r: u32)
    requires
        n <= 9,
    ensures
        r == pow10(n as nat),
        r <= 1000000000,
{
    let mut r: u32 = 1;
    let mut i: usize = 0;
    while i < n
        invariant
            i <= n <= 9,
            r == pow10(i as nat),
            r <= 1000000000,
        decreases n - i,
    {
        assert(pow10((i + 1) as nat) == 10 * pow10(i as nat));
        assert(i + 1 <= 9 ==> pow10(i as nat) <= 100000000) by {
            lemma_pow10_le(i as nat);
        }
        r = r * 10;
        i = i + 1;
    }
    r
}

proof fn lemma_pow10_le(n: nat)
    requires
        n <= 8,
    ensures
        pow10(n) <= 100000000,
    decreases n,
{
    reveal_with_fuel(pow10, 10);
}

/// The probability of a decimal in `t[from..]`, or why it does not parse.
fn parse_decimal(t: &Vec<char>, from: usize) -> (r: Result<Probability, &'static str>)
    requires
        from <= t@.len(),
    ensures
        match r {
            Ok(p) => decimal_probability(t@.subrange(from as int, t@.len() as int)) == Ok::<
                Probability,
                Seq<char>,
            >(p),
            Err(reason) => decimal_probability(t@.subrange(from as int, t@.len() as int)) == Err::<
                Probability,
                Seq<char>,
            >(reason@),
        },
{
    let ghost d = t@.subrange(from as int, t@.len() as int);
    let k = find_char_in(t, '.', from);
    proof {
        lemma_find_bounds(t@, '.', from as int);
        lemma_shift_find(t@, '.', from as int, from as int);
    }
    let (ie, fs) = match k {
        None => (t.len(), t.len()),
        Some(k) => {
            let n = t.len();
            assert(k < n);
            (k, k + 1)
        },
    };
    proof {
        match k {
            None => {
                assert(d == t@.subrange(from as int, ie as int));
                assert(t@.subrange(fs as int, t@.len() as int) =~= Seq::<char>::empty());
            },
            Some(k) => {
                assert(find_char(d, '.', 0) == k - from);
                assert(d.subrange(0, k - from) =~= t@.subrange(from as int, ie as int));
                assert(d.subrange(k - from + 1, d.len() as int) =~= t@.subrange(
                    fs as int,
                    t@.len() as int,
                ));
            },
        }
    }
    let ghost ip = t@.subrange(from as int, ie as int);
    let ghost fp = t@.subrange(fs as int, t@.len() as int);
    assert(decimal_parts(d) == (ip, fp));
    if !check_digits(t, from, ie) || !check_digits(t, fs, t.len()) || (ie - from) + (t.len() - fs)
        == 0 {
        return Err("invalid float literal");
    }
    let flen = t.len() - fs;
    if flen > 9 {
        return Err("more than 9 fraction digits");
    }
    let iv = capped_value(t, from, ie);
    let fv = capped_value(t, fs, t.len());
    let scale = pow10_of(flen);
    if iv >= 4294967296 || fv >= 4294967296 {
        proof {
            lemma_pow10_pos(flen as nat);
            assert(digits_value(ip) * pow10(fp.len()) >= digits_value(ip)) by (nonlinear_arith)
                requires
                    pow10(fp.len()) >= 1,
            ;
        }
        return Err("number too large for a probability");
    }
    assert(iv * scale <= 4294967295 * 1000000000) by (nonlinear_arith)
        requires
            iv <= 4294967295,
            scale <= 1000000000,
    ;
    let value: u64 = iv * scale as u64 + fv;
    if value > 4294967295 {
        return Err("number too large for a probability");
    }
    Ok(Probability { num: value as u32, den: scale })
}

proof fn lemma_pow10_pos(n: nat)
    ensures
        pow10(n) >= 1,
    decreases n,
{
    if n > 0 {
        lemma_pow10_pos((n - 1) as nat);
    }
}

proof fn lemma_shift_find(t: Seq<char>, c: char, from: int, i: int)
    requires
        0 <= from <= i <= t.len(),
    ensures
        find_char(t.subrange(from, t.len() as int), c, i - from) == if find_char(t, c, i) < 0 {
            -1
        } else {
            find_char(t, c, i) - from
        },
    decreases t.len() - i,
{
    if i < t.len() && t[i] != c {
        lemma_shift_find(t, c, from, i + 1);
    }
}

/// `r` is what parsing the rule text `s` gives: the rule it reads, or the
/// error, which carries the text.
pub open spec fn parsed_as(s: Seq<char>, r: Result<CSSLRule, AppError>) -> bool {
    read_as(strip_whitespace(s), s, r)
}

/// `r` is what reading the whitespace-free rule text `t` gives: the rule it
/// stands for, or the error, which carries `s`.
pub open spec fn read_as(t: Seq<char>, s: Seq<char>, r: Result<CSSLRule, AppError>) -> bool {
    match read_rule(t) {
        RuleText::Parsed(l, rt, p) => r matches Ok(rule) && rule.left_view() == l
            && rule.right_view() == rt && rule.probability() == p,
        RuleText::Malformed => r matches Err(AppError::CSSRuleParse(text)) && text@ == s,
        RuleText::BadNumber(reason) => r matches Err(AppError::CSSRuleParseNum(text, why))
            && text@ == s && why@ == reason,
    }
}

/// Parsing text as a rule.
pub trait ToCSSLRule {
    spec fn rule_text(&self) -> Seq<char>;

    fn to_csslrule(&self) -> (r: Result<CSSLRule, AppError>)
        ensures
            parsed_as(self.rule_text(), r),
    ;
}

impl ToCSSLRule for str {
    open spec fn rule_text(&self) -> Seq<char> {
        self@
    }

    /// Parse the text with `CSSLRule::from`.
    fn to_csslrule(&self) -> (r: Result<CSSLRule, AppError>) {
        CSSLRule::from(self)
    }
}

/// The first position from `from` on that holds neither a digit nor a dot.
fn first_non_decimal(t: &Vec<char>, from: usize) -> (r: Option<usize>)
    ensures
        match r {
            Some(k) => from <= k < t@.len() && !(is_digit(t@[k as int]) || t@[k as int] == '.'),
            None => forall|i: int| from <= i < t@.len() ==> is_digit(#[trigger] t@[i]) || t@[i] == '.',
        },
{
    let mut k: usize = from;
    while k < t.len()
        invariant
            from <= k,
            forall|i: int| from <= i < k && i < t@.len() ==> is_digit(#[trigger] t@[i]) || t@[i] == '.',
        decreases t@.len() - k,
    {
        if !(('0' <= t[k] && t[k] <= '9') || t[k] == '.') {
            return Some(k);
        }
        k = k + 1;
    }
    None
}

impl CSSLRule {
    /// Parse a rule written `left -> right % num/den` or `left -> right % decimal`.
    /// Whitespace anywhere is ignored.
    pub fn from(s: &str) -> (r: Result<CSSLRule, AppError>)
        ensures
            parsed_as(s@, r),
    {
        let stripped = s.without_whitespaces();
        CSSLRule::from_stripped(stripped.as_str(), s)
    }

    /// Parse rule text that holds no whitespace; an error carries `text`.
    pub fn from_stripped(stripped: &str, text: &str) -> (r: Result<CSSLRule, AppError>)
        ensures
            read_as(stripped@, text@, r),
    {
        let t = chars_of(stripped);
        let ghost ts = t@;
        proof {
            lemma_find_arrow_bounds(ts, 0);
            lemma_find_last_bounds(ts, '%', ts.len() as int);
        }
        let bl = find_last_in(&t, '%');
        if let Some(au) = find_arrow_in(&t) {
            proof {
                lemma_find_bounds(ts, '%', au + 2);
            }
            if let Some(bu) = find_char_in(&t, '%', au + 2) {
                proof {
                    lemma_find_bounds(ts, '/', bu + 1);
                }
                if let Some(cu) = find_char_in(&t, '/', bu + 1) {
                    let tl = t.len();
                    assert(cu < tl);
                    if au == 0 {
                        return Err(AppError::CSSRuleParse(text.to_owned()));
                    }
                    let nom = match parse_count(&t, bu + 1, cu) {
                        Ok(v) => v,
                        Err(why) => {
                            return Err(AppError::CSSRuleParseNum(text.to_owned(), why.to_owned()));
                        },
                    };
                    let den = match parse_count(&t, cu + 1, t.len()) {
                        Ok(v) => v,
                        Err(why) => {
                            return Err(AppError::CSSRuleParseNum(text.to_owned(), why.to_owned()));
                        },
                    };
                    if den == 0 {
                        return Err(
                            AppError::CSSRuleParseNum(text.to_owned(), "denominator is zero".to_owned()),
                        );
                    }
                    let left = crate::text::string_of_range(&t, 0, au);
                    let right = crate::text::string_of_range(&t, au + 2, bu);
                    return Ok(CSSLRule { left, right, p: Probability { num: nom, den } });
                }
            }
            if let Some(blu) = bl {
                if blu >= au + 2 {
                    if let Some(k) = first_non_decimal(&t, blu + 1) {
                        assert(!(is_digit(ts[k as int]) || ts[k as int] == '.'));
                        return Err(AppError::CSSRuleParse(text.to_owned()));
                    }
                    if au == 0 {
                        return Err(AppError::CSSRuleParse(text.to_owned()));
                    }
                    return match parse_decimal(&t, blu + 1) {
                        Ok(p) => {
                            let left = crate::text::string_of_range(&t, 0, au);
                            let right = crate::text::string_of_range(&t, au + 2, blu);
                            Ok(CSSLRule { left, right, p })
                        },
                        Err(why) => Err(AppError::CSSRuleParseNum(text.to_owned(), why.to_owned())),
                    };
                }
            }
        }
        Err(AppError::CSSRuleParse(text.to_owned()))
    }
}

} // verus!
