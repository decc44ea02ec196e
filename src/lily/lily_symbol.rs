//! LilyPond symbols of a stave.

use vstd::prelude::*;

use crate::lily::lily_note::LilyNote;
use crate::lily::{LilyClef, LilyKey, LilyTempo, LilyTime};
use crate::notation::Symbol;

verus! {

#[derive(Debug, Clone, Copy, PartialEq, Eq, Structural)]
pub enum LilySymbol {
    Clef(LilyClef),
    Key(LilyKey),
    Time(LilyTime),
    Note(LilyNote),
    Tempo(LilyTempo),
    Break,
}

/// Whether a symbol of a score has a LilyPond symbol: all but chords and rests.
pub open spec fn convertible(sym: Symbol) -> bool {
    !(sym is Chord || sym is Rest)
}

impl LilySymbol {
    pub open spec fn text(self) -> Seq<char> {
        match self {
            LilySymbol::Clef(s) => s.text(),
            LilySymbol::Key(s) => s.text(),
            LilySymbol::Time(s) => s.text(),
            LilySymbol::Note(s) => s.text(),
            LilySymbol::Tempo(s) => s.text(),
            LilySymbol::Break => "\\break"@,
        }
    }

    pub open spec fn of(sym: Symbol) -> LilySymbol {
        match sym {
            Symbol::Clef(c) => LilySymbol::Clef(
                match c {
                    crate::notation::Clef::Treble => LilyClef::Treble,
                    crate::notation::Clef::Bass => LilyClef::Bass,
                },
            ),
            Symbol::TimeSignature(t) => LilySymbol::Time(
                LilyTime {
                    nom: t.beat_count,
                    denom: crate::lily::LilyNoteLength::of(t.single_beat_note),
                },
            ),
            Symbol::KeySignature(k) => LilySymbol::Key(
                LilyKey {
                    note: crate::lily::LilyNoteName::of(k.ext.accidental, k.ext.note_name),
                    key_type: match k.signature_type {
                        crate::notation::KeySignatureType::Maj => crate::lily::LilyKeyType::Major,
                        crate::notation::KeySignatureType::Min => crate::lily::LilyKeyType::Minor,
                    },
                },
            ),
            Symbol::Note(n) => LilySymbol::Note(LilyNote::of(n)),
            Symbol::Tempo(t) => LilySymbol::Tempo(
                LilyTempo {
                    note_length: crate::lily::LilyNoteLength::of(t.note_length),
                    speed: t.speed,
                },
            ),
            _ => LilySymbol::Break,
        }
    }

    /// The LilyPond symbol of a score symbol other than a chord or a rest.
    pub fn from(sym: &Symbol) -> (r: Self)
        requires
            convertible(*sym),
        ensures
            r == LilySymbol::of(*sym),
    {
        match sym {
            Symbol::Clef(clef) => LilySymbol::Clef(LilyClef::from(*clef)),
            Symbol::TimeSignature(time) => LilySymbol::Time(LilyTime::from(*time)),
            Symbol::KeySignature(key) => LilySymbol::Key(LilyKey::from(*key)),
            Symbol::Note(note) => LilySymbol::Note(LilyNote::from(*note)),
            Symbol::Tempo(tempo) => LilySymbol::Tempo(LilyTempo::from(*tempo)),
            _ => LilySymbol::Break,
        }
    }

    pub fn to_string(&self) -> (r: String)
        ensures
            r@ == self.text(),
    {
        match self {
            LilySymbol::Clef(s) => s.to_string(),
            LilySymbol::Key(s) => s.to_string(),
            LilySymbol::Time(s) => s.to_string(),
            LilySymbol::Note(s) => s.to_string(),
            LilySymbol::Tempo(s) => s.to_string(),
            LilySymbol::Break => "\\break".to_owned(),
        }
    }
}

} // verus!
