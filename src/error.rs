//! Errors of the library.

use vstd::prelude::*;

use crate::lsystem::l_rule::Probability;

verus! {

#[derive(Debug, Clone, PartialEq, Eq)]
pub enum AppError {
    /// The rule text matches neither accepted form; carries the text.
    CSSRuleParse(String),
    /// A number of the rule text does not parse; carries the text and the reason.
    CSSRuleParseNum(String, String),
    /// A stave holds no key signature.
    StaveKeyNotFound,
    /// A note or chord comes before the first key signature of its stave.
    FoundNoteWithoutKey,
    /// The probabilities of the rules that rewrite this character do not sum to
    /// one within the tolerance it carries.
    CSSRuleSumNotOne(char, Probability),
    /// A stave that needs line breaks has no time signature.
    MissingTimeSignature,
}

} // verus!
