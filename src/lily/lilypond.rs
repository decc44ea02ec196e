//! A LilyPond score file.

use vstd::prelude::*;

use crate::lily::lily_stave::LilyStave;
use crate::lily::lily_symbol::{convertible, LilySymbol};
use crate::notation::Score;

verus! {

#[derive(Debug, Clone)]
pub struct Lilypond {
    pub version: String,
    pub language: String,
    pub staves: Vec<LilyStave>,
}

/// The texts of the staves, one after another.
pub open spec fn staves_text(staves: Seq<LilyStave>) -> Seq<char>
    decreases staves.len(),
{
    if staves.len() == 0 {
        Seq::empty()
    } else {
        staves_text(staves.drop_last()) + staves.last().text()
    }
}

/// Whether every symbol of every stave of the score has a LilyPond symbol.
pub open spec fn score_convertible(score: Score) -> bool {
    forall|i: int, j: int|
        0 <= i < score.staves@.len() && 0 <= j < score.staves@[i].symbols@.len() ==> convertible(
            #[trigger] score.staves@[i].symbols@[j],
        )
}

impl Default for Lilypond {
    fn default() -> (r: Self)
        ensures
            r.version@ == "2.25.20"@,
            r.language@ == "deutsch"@,
            r.staves@.len() == 0,
    {
        Lilypond {
            version: "2.25.20".to_owned(),
            language: "deutsch".to_owned(),
            staves: Vec::new(),
        }
    }
}

impl Lilypond {
    /// The file: version and language headers, then the score with its
    /// staves, a layout block and a MIDI block.
    pub open spec fn text(self) -> Seq<char> {
        "\\version \""@ + self.version@ + "\"\n\\language \""@ + self.language@
            + "\"\n\\score{"@ + staves_text(self.staves@) + "\\layout{}\\midi{}}"@
    }

    /// The file of a score without chords or rests, with the default headers.
    pub fn from(score: &Score) -> (r: Self)
        requires
            score_convertible(*score),
        ensures
            r.version@ == "2.25.20"@,
            r.language@ == "deutsch"@,
            r.staves@.len() == score.staves@.len(),
            forall|i: int|
                0 <= i < score.staves@.len() ==> (#[trigger] r.staves@[i]).symbols@
                    == score.staves@[i].symbols@.map_values(|s| LilySymbol::of(s)),
    {
        let mut staves: Vec<LilyStave> = Vec::new();
        for i in 0..score.staves.len()
            invariant
                score_convertible(*score),
                staves@.len() == i,
                forall|k: int|
                    0 <= k < i ==> (#[trigger] staves@[k]).symbols@
                        == score.staves@[k].symbols@.map_values(|s| LilySymbol::of(s)),
        {
            assert forall|j: int| 0 <= j < score.staves@[i as int].symbols@.len() implies convertible(
                #[trigger] score.staves@[i as int].symbols@[j],
            ) by {}
            staves.push(LilyStave::from(&score.staves[i]));
        }
        let d = Lilypond::default();
        Lilypond { version: d.version, language: d.language, staves }
    }

    pub fn to_string(&self) -> (r: String)
        ensures
            r@ == self.text(),
    {
        let mut body = String::new();
        for i in 0..self.staves.len()
            invariant
                body@ == staves_text(self.staves@.subrange(0, i as int)),
        {
            assert(self.staves@.subrange(0, i + 1).drop_last() == self.staves@.subrange(0, i as int));
            let s = self.staves[i].to_string();
            body.append(s.as_str());
        }
        assert(self.staves@.subrange(0, self.staves@.len() as int) == self.staves@);
        let mut r = String::new();
        r.append("\\version \"");
        r.append(self.version.as_str());
        r.append("\"\n\\language \"");
        r.append(self.language.as_str());
        r.append("\"\n\\score{");
        r.append(body.as_str());
        r.append("\\layout{}\\midi{}}");
        r
    }
}

} // verus!
