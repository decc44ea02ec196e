//! Musical interpretation of L-system words: a cursor note moved through a
//! scale, a stack to save and restore it, and the notes written.

use vstd::prelude::*;

pub mod scale;

pub use scale::ScaleType;

use crate::lsystem::interpret::scale::{
    basic_up_step, basic_down_step, can_lower, can_lower_by, can_raise, can_raise_by,
    jazz_down_step, jazz_up_step, lowered, raised, rank, BasicScale, JazzLikeScale, Scale,
};
use crate::notation::{
    Clef, ExtNoteName, KeySignature, KeySignatureType, Note, NoteLength, NoteName, Octave, Pitch,
    Score, ScoreInfo, Stave, Symbol, Tempo, TimeSignature,
};
use crate::text::chars_of;

verus! {

/// Initial information for the interpretation of a word.
#[derive(Debug, Clone, Copy)]
pub struct MusicIntInfo {
    pub clef: Clef,
    pub key_signature: KeySignature,
    pub first_note: Note,
    pub time_signature: TimeSignature,
    pub tempo: Tempo,
    pub scale_type: ScaleType,
}

impl Default for MusicIntInfo {
    /// C major, treble clef, common time, starting on a whole C4.
    fn default() -> (r: Self)
        ensures
            r.clef == Clef::Treble,
            r.key_signature == (KeySignature {
                ext: ExtNoteName { note_name: NoteName::C, accidental: None },
                signature_type: KeySignatureType::Maj,
            }),
            r.first_note.pitch == Pitch::spec_new(NoteName::C, Octave::O4, None),
            r.first_note.duration == NoteLength::L1,
            r.time_signature.beat_count == 4,
            r.time_signature.single_beat_note == NoteLength::L4,
            r.tempo.note_length == NoteLength::L4,
            r.tempo.speed == 100,
            r.scale_type == ScaleType::Basic,
    {
        MusicIntInfo {
            clef: Clef::Treble,
            key_signature: KeySignature {
                ext: ExtNoteName { note_name: NoteName::C, accidental: None },
                signature_type: KeySignatureType::Maj,
            },
            first_note: Note {
                pitch: Pitch::new(NoteName::C, Octave::O4, None),
                duration: NoteLength::L1,
            },
            time_signature: TimeSignature::c(),
            tempo: Tempo::default(),
            scale_type: ScaleType::Basic,
        }
    }
}

/// The state of an interpretation: the cursor note, the saved notes and the
/// notes written so far.
pub struct Run {
    pub cursor: Note,
    pub stack: Seq<Note>,
    pub notes: Seq<Note>,
}

/// Halftones from `p` to the next degree of the scale of `info`.
pub open spec fn up_step(info: MusicIntInfo, p: Pitch) -> int {
    match info.scale_type {
        ScaleType::Basic => basic_up_step(
            info.key_signature.signature_type,
            rank(info.key_signature, p),
        ),
        ScaleType::JazzLike => jazz_up_step(rank(info.key_signature, p)),
    }
}

/// Halftones from `p` down to the previous degree of the scale of `info`.
pub open spec fn down_step(info: MusicIntInfo, p: Pitch) -> int {
    match info.scale_type {
        ScaleType::Basic => basic_down_step(
            info.key_signature.signature_type,
            rank(info.key_signature, p),
        ),
        ScaleType::JazzLike => jazz_down_step(rank(info.key_signature, p)),
    }
}

/// Whether the scale of `info` has tables for its key.
pub open spec fn scale_supported(info: MusicIntInfo) -> bool {
    info.scale_type == ScaleType::Basic || info.key_signature.signature_type
        == KeySignatureType::Maj
}

/// One symbol of the word: `F` writes the cursor, `+` and `-` move it a degree
/// up and down, `d` halves its length, `[` saves it and `]` restores the last
/// saved note. Any other symbol, a `]` with nothing saved, or a move out of
/// the octave range leaves the run undefined.
pub open spec fn act(info: MusicIntInfo, st: Run, c: char) -> Option<Run> {
    let p = st.cursor.pitch;
    if c == 'F' {
        Some(Run { notes: st.notes.push(st.cursor), ..st })
    } else if c == '+' {
        if scale_supported(info) && can_raise(p, up_step(info, p)) {
            Some(
                Run {
                    cursor: Note { pitch: raised(p, up_step(info, p)), ..st.cursor },
                    ..st
                },
            )
        } else {
            None
        }
    } else if c == '-' {
        if scale_supported(info) && can_lower(p, down_step(info, p)) {
            Some(
                Run {
                    cursor: Note { pitch: lowered(p, down_step(info, p)), ..st.cursor },
                    ..st
                },
            )
        } else {
            None
        }
    } else if c == 'd' {
        Some(
            Run {
                cursor: Note {
                    duration: match st.cursor.duration.spec_half() {
                        Some(l) => l,
                        None => st.cursor.duration,
                    },
                    ..st.cursor
                },
                ..st
            },
        )
    } else if c == '[' {
        Some(Run { stack: st.stack.push(st.cursor), ..st })
    } else if c == ']' {
        if st.stack.len() == 0 {
            None
        } else {
            Some(Run { cursor: st.stack.last(), stack: st.stack.drop_last(), ..st })
        }
    } else {
        None
    }
}

/// The run after the first `n` symbols of `word`.
pub open spec fn run_prefix(info: MusicIntInfo, word: Seq<char>, n: int) -> Option<Run>
    decreases n,
{
    if n <= 0 || n > word.len() {
        Some(Run { cursor: info.first_note, stack: Seq::empty(), notes: Seq::empty() })
    } else {
        match run_prefix(info, word, n - 1) {
            Some(st) => act(info, st, word[n - 1]),
            None => None,
        }
    }
}

/// The run over the whole word.
pub open spec fn run(info: MusicIntInfo, word: Seq<char>) -> Option<Run> {
    run_prefix(info, word, word.len() as int)
}

/// The stave symbols of an interpreted word: clef, key, tempo and time, then the notes.
pub open spec fn translated_symbols(info: MusicIntInfo, notes: Seq<Note>, syms: Seq<Symbol>) -> bool {
    &&& syms.len() == 4 + notes.len()
    &&& syms[0] == Symbol::Clef(info.clef)
    &&& syms[1] == Symbol::KeySignature(info.key_signature)
    &&& syms[2] == Symbol::Tempo(info.tempo)
    &&& syms[3] == Symbol::TimeSignature(info.time_signature)
    &&& forall|i: int| 0 <= i < notes.len() ==> syms[4 + i] == Symbol::Note(#[trigger] notes[i])
}

/// Interpretation of words as scores.
pub trait Interpret<T> {
    /// Whether the interpretation of `word` is defined.
    spec fn defined(&self, word: Seq<char>) -> bool;

    /// `out` is the interpretation of `word`.
    spec fn translates(&self, word: Seq<char>, out: T) -> bool;

    fn translate(&self, string: &str) -> (r: T)
        requires
            self.defined(string@),
        ensures
            self.translates(string@, r),
    ;
}

#[derive(Debug, Clone, Copy)]
pub struct MusicInterpret {
    pub int_info: MusicIntInfo,
}

impl MusicInterpret {
    pub fn new(int_info: MusicIntInfo) -> (r: Self)
        ensures
            r.int_info == int_info,
    {
        MusicInterpret { int_info }
    }

    /// Whether one symbol can be applied: a known symbol, a `]` with a saved
    /// note, a move that stays in the octave range of a supported scale.
    fn action_defined(&self, note: &Note, stack: &Vec<Note>, notes: &Vec<Note>, symbol: char) -> (r: bool)
        ensures
            r == act(self.int_info, Run { cursor: *note, stack: stack@, notes: notes@ }, symbol) is Some,
    {
        let info = self.int_info;
        let key = info.key_signature;
        let supported = info.scale_type == ScaleType::Basic || key.signature_type
            == KeySignatureType::Maj;
        if symbol == 'F' || symbol == 'd' || symbol == '[' {
            true
        } else if symbol == '+' {
            if !supported {
                return false;
            }
            let n = match info.scale_type {
                ScaleType::Basic => BasicScale::new(key).up_halftones(&note.pitch),
                ScaleType::JazzLike => JazzLikeScale::new(key).up_halftones(&note.pitch),
            };
            can_raise_by(&note.pitch, n)
        } else if symbol == '-' {
            if !supported {
                return false;
            }
            let n = match info.scale_type {
                ScaleType::Basic => BasicScale::new(key).down_halftones(&note.pitch),
                ScaleType::JazzLike => JazzLikeScale::new(key).down_halftones(&note.pitch),
            };
            can_lower_by(&note.pitch, n)
        } else if symbol == ']' {
            stack.len() > 0
        } else {
            false
        }
    }

    /// Whether the interpretation of `word` is defined.
    pub fn is_defined(&self, word: &str) -> (r: bool)
        ensures
            r == (run(self.int_info, word@) is Some),
    {
        let w = chars_of(word);
        let mut note = self.int_info.first_note;
        let mut stack: Vec<Note> = Vec::new();
        let mut notes: Vec<Note> = Vec::new();
        let mut i: usize = 0;
        while i < w.len()
            invariant
                i <= w@.len(),
                w@ == word@,
                run_prefix(self.int_info, w@, i as int) == Some(
                    Run { cursor: note, stack: stack@, notes: notes@ },
                ),
            decreases w@.len() - i,
        {
            if !self.action_defined(&note, &stack, &notes, w[i]) {
                proof {
                    if run(self.int_info, w@) is Some {
                        lemma_run_prefix_defined(self.int_info, w@, w@.len() as int);
                        assert(run_prefix(self.int_info, w@, i + 1) is Some);
                    }
                }
                return false;
            }
            self.action(&mut note, &mut stack, &mut notes, w[i]);
            i = i + 1;
        }
        true
    }

    /// The score of `word`, or nothing when its interpretation is not defined.
    pub fn try_translate(&self, word: &str) -> (r: Option<Score>)
        ensures
            r is Some <==> run(self.int_info, word@) is Some,
            r matches Some(score) ==> self.translates(word@, score),
    {
        if self.is_defined(word) {
            Some(self.translate(word))
        } else {
            None
        }
    }

    /// Apply one symbol to the cursor, the stack and the notes.
    fn action(&self, note: &mut Note, stack: &mut Vec<Note>, notes: &mut Vec<Note>, symbol: char)
        requires
            act(
                self.int_info,
                Run { cursor: *old(note), stack: old(stack)@, notes: old(notes)@ },
                symbol,
            ) is Some,
        ensures
            act(
                self.int_info,
                Run { cursor: *old(note), stack: old(stack)@, notes: old(notes)@ },
                symbol,
            ) == Some(Run { cursor: *final(note), stack: final(stack)@, notes: final(notes)@ }),
    {
        let key = self.int_info.key_signature;
        if symbol == 'F' {
            notes.push(*note);
        } else if symbol == '+' {
            match self.int_info.scale_type {
                ScaleType::Basic => BasicScale::new(key).advance(&mut note.pitch),
                ScaleType::JazzLike => JazzLikeScale::new(key).advance(&mut note.pitch),
            }
        } else if symbol == '-' {
            match self.int_info.scale_type {
                ScaleType::Basic => BasicScale::new(key).recede(&mut note.pitch),
                ScaleType::JazzLike => JazzLikeScale::new(key).recede(&mut note.pitch),
            }
        } else if symbol == 'd' {
            note.duration.halve();
        } else if symbol == '[' {
            stack.push(*note);
        } else {
            match stack.pop() {
                Some(n) => *note = n,
                None => {},
            }
        }
    }
}

impl Interpret<Score> for MusicInterpret {
    open spec fn defined(&self, word: Seq<char>) -> bool {
        run(self.int_info, word) is Some
    }

    open spec fn translates(&self, word: Seq<char>, out: Score) -> bool {
        &&& out.staves@.len() == 1
        &&& translated_symbols(self.int_info, run(self.int_info, word)->0.notes, out.staves@[0].symbols@)
        &&& out.tempo == 90
        &&& out.info.name is None && out.info.author is None && out.info.transcriber is None
    }

    fn translate(&self, string: &str) -> (r: Score) {
        let word = chars_of(string);
        let mut note = self.int_info.first_note;
        let mut stack: Vec<Note> = Vec::new();
        let mut notes: Vec<Note> = Vec::new();
        let mut i: usize = 0;
        proof {
            lemma_run_prefix_defined(self.int_info, word@, word@.len() as int);
        }
        while i < word.len()
            invariant
                i <= word@.len(),
                word@ == string@,
                run(self.int_info, word@) is Some,
                forall|k: int| 0 <= k <= word@.len() ==> #[trigger] run_prefix(self.int_info, word@, k) is Some,
                run_prefix(self.int_info, word@, i as int) == Some(
                    Run { cursor: note, stack: stack@, notes: notes@ },
                ),
            decreases word@.len() - i,
        {
            assert(run_prefix(self.int_info, word@, i + 1) is Some);
            self.action(&mut note, &mut stack, &mut notes, word[i]);
            i = i + 1;
        }
        let mut symbols: Vec<Symbol> = Vec::new();
        symbols.push(Symbol::Clef(self.int_info.clef));
        symbols.push(Symbol::KeySignature(self.int_info.key_signature));
        symbols.push(Symbol::Tempo(self.int_info.tempo));
        symbols.push(Symbol::TimeSignature(self.int_info.time_signature));
        for j in 0..notes.len()
            invariant
                symbols@.len() == 4 + j,
                symbols@[0] == Symbol::Clef(self.int_info.clef),
                symbols@[1] == Symbol::KeySignature(self.int_info.key_signature),
                symbols@[2] == Symbol::Tempo(self.int_info.tempo),
                symbols@[3] == Symbol::TimeSignature(self.int_info.time_signature),
                forall|k: int| 0 <= k < j ==> symbols@[4 + k] == Symbol::Note(#[trigger] notes@[k]),
        {
            symbols.push(Symbol::Note(notes[j]));
        }
        let mut staves: Vec<Stave> = Vec::new();
        staves.push(Stave { symbols });
        Score { staves, info: ScoreInfo::default(), tempo: 90 }
    }
}

/// A defined run is defined on every prefix.
proof fn lemma_run_prefix_defined(info: MusicIntInfo, word: Seq<char>, n: int)
    requires
        0 <= n <= word.len(),
        run_prefix(info, word, n) is Some,
    ensures
        forall|k: int| 0 <= k <= n ==> #[trigger] run_prefix(info, word, k) is Some,
    decreases n,
{
    if n > 0 {
        lemma_run_prefix_defined(info, word, n - 1);
    }
    assert forall|k: int| 0 <= k <= n implies #[trigger] run_prefix(info, word, k) is Some by {
        if k < n {
        }
    }
}

/// The run from state `st` over the symbols `u`.
pub open spec fn run_from(info: MusicIntInfo, st: Run, u: Seq<char>) -> Option<Run>
    decreases u.len(),
{
    if u.len() == 0 {
        Some(st)
    } else {
        match run_from(info, st, u.drop_last()) {
            Some(s) => act(info, s, u.last()),
            None => None,
        }
    }
}

/// Saves minus restores in `u`.
pub open spec fn depth(u: Seq<char>) -> int
    decreases u.len(),
{
    if u.len() == 0 {
        0
    } else {
        depth(u.drop_last()) + if u.last() == '[' {
            1
        } else if u.last() == ']' {
            -1
        } else {
            0
        }
    }
}

/// No prefix of `u` restores more than it saves.
pub open spec fn never_below(u: Seq<char>) -> bool {
    forall|k: int| 0 <= k <= u.len() ==> depth(#[trigger] u.subrange(0, k)) >= 0
}

/// Every restore in `u` matches a save in `u`, and every save is restored.
pub open spec fn balanced(u: Seq<char>) -> bool {
    never_below(u) && depth(u) == 0
}

/// Running over `a + b` is running over `a`, then over `b`.
pub proof fn lemma_run_from_concat(info: MusicIntInfo, st: Run, a: Seq<char>, b: Seq<char>)
    ensures
        run_from(info, st, a + b) == match run_from(info, st, a) {
            Some(s) => run_from(info, s, b),
            None => None,
        },
    decreases b.len(),
{
    if b.len() == 0 {
        assert(a + b =~= a);
    } else {
        assert((a + b).drop_last() =~= a + b.drop_last());
        assert((a + b).last() == b.last());
        lemma_run_from_concat(info, st, a, b.drop_last());
    }
}

/// A segment that never restores more than it saves leaves the saved notes
/// below it alone, and adds as many as its depth.
proof fn lemma_stack_frame(info: MusicIntInfo, st: Run, u: Seq<char>)
    requires
        never_below(u),
        run_from(info, st, u) is Some,
    ensures
        run_from(info, st, u)->0.stack.len() == st.stack.len() + depth(u),
        run_from(info, st, u)->0.stack.subrange(0, st.stack.len() as int) == st.stack,
    decreases u.len(),
{
    if u.len() > 0 {
        let v = u.drop_last();
        assert forall|k: int| 0 <= k <= v.len() implies depth(#[trigger] v.subrange(0, k)) >= 0 by {
            assert(v.subrange(0, k) =~= u.subrange(0, k));
        }
        assert(u.subrange(0, u.len() as int) =~= u);
        lemma_stack_frame(info, st, v);
        let s1 = run_from(info, st, v)->0;
        let s2 = run_from(info, st, u)->0;
        if u.last() == '[' {
            assert(s2.stack =~= s1.stack.push(s1.cursor));
            assert(s2.stack.subrange(0, st.stack.len() as int) =~= s1.stack.subrange(
                0,
                st.stack.len() as int,
            ));
        } else if u.last() == ']' {
            assert(s2.stack =~= s1.stack.drop_last());
            assert(s2.stack.subrange(0, st.stack.len() as int) =~= s1.stack.subrange(
                0,
                st.stack.len() as int,
            ));
        }
    }
}

/// Stack discipline: around a balanced segment, `[` and `]` give back the
/// cursor note and the saved notes from before the `[`.
pub proof fn lemma_bracket_restores(info: MusicIntInfo, st: Run, u: Seq<char>)
    requires
        balanced(u),
        run_from(info, st, seq!['['] + u + seq![']']) is Some,
    ensures
        run_from(info, st, seq!['['] + u + seq![']'])->0.cursor == st.cursor,
        run_from(info, st, seq!['['] + u + seq![']'])->0.stack == st.stack,
{
    let open = seq!['['];
    let close = seq![']'];
    lemma_run_from_concat(info, st, open + u, close);
    lemma_run_from_concat(info, st, open, u);
    assert(open.drop_last() =~= Seq::<char>::empty());
    assert(open.len() == 1 && open.last() == '[');
    assert(run_from(info, st, open.drop_last()) == Some(st));
    let s1 = run_from(info, st, open)->0;
    assert(s1.stack == st.stack.push(st.cursor));
    lemma_stack_frame(info, s1, u);
    let s2 = run_from(info, s1, u)->0;
    assert(s2.stack =~= s1.stack);
    assert(close.drop_last() =~= Seq::<char>::empty());
    assert(close.len() == 1 && close.last() == ']');
    assert(run_from(info, s2, close.drop_last()) == Some(s2));
}

/// The run of a whole word is the run from the first note over it.
pub proof fn lemma_run_is_run_from(info: MusicIntInfo, word: Seq<char>, n: int)
    requires
        0 <= n <= word.len(),
    ensures
        run_prefix(info, word, n) == run_from(
            info,
            Run { cursor: info.first_note, stack: Seq::empty(), notes: Seq::empty() },
            word.subrange(0, n),
        ),
    decreases n,
{
    if n > 0 {
        lemma_run_is_run_from(info, word, n - 1);
        assert(word.subrange(0, n).drop_last() =~= word.subrange(0, n - 1));
    }
}

} // verus!
