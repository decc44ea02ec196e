//! LilyPond staves.

use vstd::prelude::*;

use crate::lily::lily_symbol::{convertible, LilySymbol};
use crate::notation::Stave;

verus! {

#[derive(Debug, Clone)]
pub struct LilyStave {
    pub symbols: Vec<LilySymbol>,
}

/// The texts of the symbols, separated by spaces.
pub open spec fn symbols_text(syms: Seq<LilySymbol>) -> Seq<char>
    decreases syms.len(),
{
    if syms.len() == 0 {
        Seq::empty()
    } else if syms.len() == 1 {
        syms[0].text()
    } else {
        symbols_text(syms.drop_last()) + " "@ + syms.last().text()
    }
}

impl LilyStave {
    /// A staff: `\new Staff { symbols }` on a line of its own.
    pub open spec fn text(self) -> Seq<char> {
        "\n\\new Staff { "@ + symbols_text(self.symbols@) + " }\n"@
    }

    /// The staff of a stave without chords or rests.
    pub fn from(stave: &Stave) -> (r: Self)
        requires
            forall|i: int| 0 <= i < stave.symbols@.len() ==> convertible(#[trigger] stave.symbols@[i]),
        ensures
            r.symbols@ == stave.symbols@.map_values(|s| LilySymbol::of(s)),
    {
        let mut symbols: Vec<LilySymbol> = Vec::new();
        for i in 0..stave.symbols.len()
            invariant
                forall|i: int|
                    0 <= i < stave.symbols@.len() ==> convertible(#[trigger] stave.symbols@[i]),
                symbols@ == stave.symbols@.subrange(0, i as int).map_values(|s| LilySymbol::of(s)),
        {
            symbols.push(LilySymbol::from(&stave.symbols[i]));
            assert(stave.symbols@.subrange(0, i + 1) == stave.symbols@.subrange(0, i as int).push(
                stave.symbols@[i as int],
            ));
        }
        assert(stave.symbols@.subrange(0, stave.symbols@.len() as int) == stave.symbols@);
        LilyStave { symbols }
    }

    pub fn to_string(&self) -> (r: String)
        ensures
            r@ == self.text(),
    {
        let mut body = String::new();
        for i in 0..self.symbols.len()
            invariant
                body@ == symbols_text(self.symbols@.subrange(0, i as int)),
        {
            assert(self.symbols@.subrange(0, i + 1).drop_last() == self.symbols@.subrange(0, i as int));
            if i > 0 {
                body.append(" ");
            }
            let s = self.symbols[i].to_string();
            body.append(s.as_str());
        }
        assert(self.symbols@.subrange(0, self.symbols@.len() as int) == self.symbols@);
        let mut r = String::new();
        r.append("\n\\new Staff { ");
        r.append(body.as_str());
        r.append(" }\n");
        r
    }
}

} // verus!
