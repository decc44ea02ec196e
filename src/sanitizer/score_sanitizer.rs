//! Respelling the pitches of a score with the accidentals its keys prefer.

use vstd::prelude::*;

use crate::error::AppError;
use crate::notation::{Accidental, Chord, KeySignature, Note, NoteName, Pitch, Score, Stave, Symbol};
use crate::sanitizer::to_pref_synonym::{pref_synonym, ToPrefSynonym};
use crate::sanitizer::{get_pref_accidental, preferred_accidental, Sanitizer};

verus! {

/// The spelling of a pitch in a stave that prefers `pref`.
pub open spec fn pitch_pref(pref: Option<Accidental>, p: Pitch) -> Pitch {
    let n = p.ext.note_name;
    let a = p.ext.accidental;
    match pref {
        Some(Accidental::Sharp) => if a == None::<Accidental> && (n == NoteName::C || n
            == NoteName::F) {
            p
        } else if a == Some(Accidental::Sharp) && (n == NoteName::B || n == NoteName::E) {
            pref_synonym(p, None)
        } else {
            pref_synonym(p, pref)
        },
        Some(Accidental::Flat) => if a == None::<Accidental> && (n == NoteName::E || n
            == NoteName::B) {
            p
        } else if a == Some(Accidental::Flat) && (n == NoteName::F || n == NoteName::C) {
            pref_synonym(p, None)
        } else {
            pref_synonym(p, pref)
        },
        None => pref_synonym(p, None),
    }
}

/// Scanning from `i`: the position of the first key signature, or the error
/// for a stave without one or with a note or chord before it.
pub open spec fn key_scan(syms: Seq<Symbol>, i: int) -> Result<int, AppError>
    decreases syms.len() - i,
{
    if i < 0 || i >= syms.len() {
        Err(AppError::StaveKeyNotFound)
    } else {
        match syms[i] {
            Symbol::Note(_) | Symbol::Chord(_) => Err(AppError::FoundNoteWithoutKey),
            Symbol::KeySignature(_) => Ok(i),
            _ => key_scan(syms, i + 1),
        }
    }
}

/// The last key signature before position `i`.
pub open spec fn last_key_before(syms: Seq<Symbol>, i: int) -> Option<KeySignature>
    decreases i,
{
    if i <= 0 || i > syms.len() {
        None
    } else {
        match syms[i - 1] {
            Symbol::KeySignature(k) => Some(k),
            _ => last_key_before(syms, i - 1),
        }
    }
}

/// The accidental preferred at position `i`, by the last key before it.
pub open spec fn pref_at(syms: Seq<Symbol>, i: int) -> Option<Accidental> {
    match last_key_before(syms, i) {
        Some(k) => preferred_accidental(k),
        None => None,
    }
}

/// `new` is `old` with its pitches respelled for `pref`.
pub open spec fn symbol_respelled(old: Symbol, new: Symbol, pref: Option<Accidental>) -> bool {
    match old {
        Symbol::Note(n) => new == Symbol::Note(
            Note { pitch: pitch_pref(pref, n.pitch), duration: n.duration },
        ),
        Symbol::Chord(c) => match new {
            Symbol::Chord(c2) => c2.duration == c.duration && c2.pitches@ == c.pitches@.map_values(
                |p: Pitch| pitch_pref(pref, p),
            ),
            _ => false,
        },
        _ => new == old,
    }
}

/// `new` is the sanitized stave `old`: symbols up to the first key stay, and
/// each later note and chord is respelled for the key in force.
pub open spec fn stave_sanitized(old: Seq<Symbol>, new: Seq<Symbol>) -> bool {
    match key_scan(old, 0) {
        Ok(k) => {
            &&& new.len() == old.len()
            &&& forall|i: int| 0 <= i <= k ==> new[i] == old[i]
            &&& forall|i: int|
                k < i < old.len() ==> symbol_respelled(#[trigger] old[i], new[i], pref_at(old, i))
        },
        Err(_) => false,
    }
}

/// The error of the first stave that cannot be sanitized, from position `i`.
pub open spec fn staves_failure(staves: Seq<Stave>, i: int) -> Option<AppError>
    decreases staves.len() - i,
{
    if i < 0 || i >= staves.len() {
        None
    } else {
        match key_scan(staves[i].symbols@, 0) {
            Err(e) => Some(e),
            Ok(_) => staves_failure(staves, i + 1),
        }
    }
}

/// Sanitizer of the pitches of a score.
#[derive(Debug, Clone, Copy)]
pub struct ScoreSanitizer;

impl ScoreSanitizer {
    /// Convert a pitch to its preferred spelling.
    pub fn pitch_to_pref(&self, pref: Option<Accidental>, pitch: &mut Pitch)
        ensures
            *final(pitch) == pitch_pref(pref, *old(pitch)),
    {
        let n = pitch.ext.note_name;
        let a = pitch.ext.accidental;
        match pref {
            Some(Accidental::Sharp) => {
                if a == None::<Accidental> && (n == NoteName::C || n == NoteName::F) {
                } else if a == Some(Accidental::Sharp) && (n == NoteName::B || n == NoteName::E) {
                    pitch.to_pref_synonym(None);
                } else {
                    pitch.to_pref_synonym(pref);
                }
            },
            Some(Accidental::Flat) => {
                if a == None::<Accidental> && (n == NoteName::E || n == NoteName::B) {
                } else if a == Some(Accidental::Flat) && (n == NoteName::F || n == NoteName::C) {
                    pitch.to_pref_synonym(None);
                } else {
                    pitch.to_pref_synonym(pref);
                }
            },
            None => pitch.to_pref_synonym(None),
        }
    }

    /// Find the first key signature of the stave and its position.
    pub fn find_first_key(&self, stave: &Stave) -> (r: Result<(KeySignature, usize), AppError>)
        ensures
            match r {
                Ok((k, i)) => key_scan(stave.symbols@, 0) == Ok::<int, AppError>(i as int)
                    && i < stave.symbols@.len() && stave.symbols@[i as int]
                    == Symbol::KeySignature(k),
                Err(e) => key_scan(stave.symbols@, 0) == Err::<int, AppError>(e),
            },
    {
        let mut i: usize = 0;
        while i < stave.symbols.len()
            invariant
                i <= stave.symbols@.len(),
                key_scan(stave.symbols@, 0) == key_scan(stave.symbols@, i as int),
            decreases stave.symbols@.len() - i,
        {
            match &stave.symbols[i] {
                Symbol::Note(_) | Symbol::Chord(_) => {
                    return Err(AppError::FoundNoteWithoutKey);
                },
                Symbol::KeySignature(k) => {
                    return Ok((*k, i));
                },
                _ => {},
            }
            i = i + 1;
        }
        Err(AppError::StaveKeyNotFound)
    }

    fn respell_all(&self, pref: Option<Accidental>, pitches: &Vec<Pitch>) -> (r: Vec<Pitch>)
        ensures
            r@ == pitches@.map_values(|p: Pitch| pitch_pref(pref, p)),
    {
        let mut r: Vec<Pitch> = Vec::new();
        for j in 0..pitches.len()
            invariant
                r@ == pitches@.subrange(0, j as int).map_values(|p: Pitch| pitch_pref(pref, p)),
        {
            let mut p = pitches[j];
            self.pitch_to_pref(pref, &mut p);
            r.push(p);
            assert(pitches@.subrange(0, j + 1) == pitches@.subrange(0, j as int).push(pitches@[j as int]));
        }
        assert(pitches@.subrange(0, pitches@.len() as int) == pitches@);
        r
    }

    /// Sanitize all symbols of a stave.
    pub fn sanitize_stave(&self, stave: &mut Stave) -> (r: Result<(), AppError>)
        ensures
            match r {
                Ok(()) => key_scan(old(stave).symbols@, 0) is Ok && stave_sanitized(
                    old(stave).symbols@,
                    final(stave).symbols@,
                ),
                Err(e) => key_scan(old(stave).symbols@, 0) == Err::<int, AppError>(e)
                    && *final(stave) == *old(stave),
            },
    {
        let ghost old_syms = stave.symbols@;
        let (key, pos) = match self.find_first_key(stave) {
            Ok(found) => found,
            Err(e) => {
                return Err(e);
            },
        };
        let mut pref = get_pref_accidental(&key);
        let len = stave.symbols.len();
        assert(pos < len);
        let mut i: usize = pos + 1;
        assert(last_key_before(old_syms, pos + 1) == Some(key));
        while i < stave.symbols.len()
            invariant
                key_scan(old_syms, 0) == Ok::<int, AppError>(pos as int),
                pos < i <= old_syms.len(),
                stave.symbols@.len() == old_syms.len(),
                pref == pref_at(old_syms, i as int),
                forall|j: int| 0 <= j <= pos ==> stave.symbols@[j] == old_syms[j],
                forall|j: int|
                    pos < j < i ==> symbol_respelled(
                        #[trigger] old_syms[j],
                        stave.symbols@[j],
                        pref_at(old_syms, j),
                    ),
                forall|j: int| i <= j < old_syms.len() ==> stave.symbols@[j] == old_syms[j],
            decreases old_syms.len() - i,
        {
            let mut replacement: Option<Symbol> = None;
            match &stave.symbols[i] {
                Symbol::KeySignature(sig) => {
                    pref = get_pref_accidental(sig);
                },
                Symbol::Note(n) => {
                    let mut note = *n;
                    self.pitch_to_pref(pref, &mut note.pitch);
                    replacement = Some(Symbol::Note(note));
                },
                Symbol::Chord(c) => {
                    let pitches = self.respell_all(pref, &c.pitches);
                    replacement = Some(Symbol::Chord(Chord { pitches, duration: c.duration }));
                },
                _ => {},
            }
            if let Some(s) = replacement {
                stave.symbols.set(i, s);
            }
            i = i + 1;
        }
        Ok(())
    }
}

impl Sanitizer<Score> for ScoreSanitizer {
    open spec fn sanitizes(&self, old: Score, new: Score) -> bool {
        &&& new.info == old.info
        &&& new.tempo == old.tempo
        &&& new.staves@.len() == old.staves@.len()
        &&& forall|i: int|
            0 <= i < old.staves@.len() ==> stave_sanitized(
                #[trigger] old.staves@[i].symbols@,
                new.staves@[i].symbols@,
            )
    }

    open spec fn failure(&self, t: Score) -> Option<AppError> {
        staves_failure(t.staves@, 0)
    }

    fn sanitize(&self, score: &mut Score) -> (r: Result<(), AppError>) {
        let mut i: usize = 0;
        while i < score.staves.len()
            invariant
                i <= score.staves@.len(),
                staves_failure(score.staves@, 0) == staves_failure(score.staves@, i as int),
                forall|j: int| 0 <= j < i ==> key_scan(#[trigger] score.staves@[j].symbols@, 0) is Ok,
            decreases score.staves@.len() - i,
        {
            match self.find_first_key(&score.staves[i]) {
                Err(e) => {
                    return Err(e);
                },
                Ok(_) => {},
            }
            i = i + 1;
        }
        let ghost old_score = *score;
        let mut i: usize = 0;
        while i < score.staves.len()
            invariant
                i <= score.staves@.len(),
                score.staves@.len() == old_score.staves@.len(),
                score.info == old_score.info,
                score.tempo == old_score.tempo,
                forall|j: int|
                    0 <= j < old_score.staves@.len() ==> key_scan(
                        #[trigger] old_score.staves@[j].symbols@,
                        0,
                    ) is Ok,
                forall|j: int|
                    0 <= j < i ==> stave_sanitized(
                        #[trigger] old_score.staves@[j].symbols@,
                        score.staves@[j].symbols@,
                    ),
                forall|j: int| i <= j < old_score.staves@.len() ==> score.staves@[j] == old_score.staves@[j],
            decreases old_score.staves@.len() - i,
        {
            let _ = self.sanitize_stave(&mut score.staves[i]);
            i = i + 1;
        }
        Ok(())
    }
}

impl Score {
    /// The score with its pitches respelled, or the first stave's error.
    pub fn sanitized(self) -> (r: Result<Self, AppError>)
        ensures
            match r {
                Ok(s) => staves_failure(self.staves@, 0) is None && ScoreSanitizer.sanitizes(
                    self,
                    s,
                ),
                Err(e) => staves_failure(self.staves@, 0) == Some(e),
            },
    {
        let mut score = self;
        match ScoreSanitizer.sanitize(&mut score) {
            Ok(()) => Ok(score),
            Err(e) => Err(e),
        }
    }
}

} // verus!
