//! LilyPond notation of scores.

use vstd::prelude::*;

pub mod lily_note;
pub mod lily_stave;
pub mod lily_symbol;
pub mod lilypond;

pub use lily_note::LilyNote;
pub use lily_stave::LilyStave;
pub use lily_symbol::LilySymbol;
pub use lilypond::Lilypond;

use crate::notation::{
    Accidental, Clef, KeySignature, KeySignatureType, NoteLength, NoteName, Octave, Pitch, Tempo,
    TimeSignature,
};
use crate::text::{decimal, push_decimal};

verus! {

#[derive(Debug, Clone, Copy, PartialEq, Eq, Structural)]
pub enum LilyClef {
    Treble,
    Bass,
}

impl LilyClef {
    pub open spec fn text(self) -> Seq<char> {
        match self {
            LilyClef::Treble => "\\clef treble"@,
            LilyClef::Bass => "\\clef bass"@,
        }
    }

    pub fn from(clef: Clef) -> (r: Self)
        ensures
            r == (match clef {
                Clef::Treble => LilyClef::Treble,
                Clef::Bass => LilyClef::Bass,
            }),
    {
        match clef {
            Clef::Treble => LilyClef::Treble,
            Clef::Bass => LilyClef::Bass,
        }
    }

    pub fn to_string(&self) -> (r: String)
        ensures
            r@ == self.text(),
    {
        match self {
            LilyClef::Treble => "\\clef treble".to_owned(),
            LilyClef::Bass => "\\clef bass".to_owned(),
        }
    }
}

/// Note names in the German convention, where H is B and B flat is Hes.
#[derive(Debug, Clone, Copy, PartialEq, Eq, Structural)]
pub enum LilyNoteName {
    Ces,
    C,
    Cis,
    Des,
    D,
    Dis,
    Es,
    E,
    Eis,
    Fes,
    F,
    Fis,
    Ges,
    G,
    Gis,
    As,
    A,
    Ais,
    Hes,
    H,
    His,
}

impl LilyNoteName {
    pub open spec fn of(accidental: Option<Accidental>, name: NoteName) -> LilyNoteName {
        let pick = |n: LilyNoteName, sharp: LilyNoteName, flat: LilyNoteName|
            match accidental {
                Some(Accidental::Sharp) => sharp,
                Some(Accidental::Flat) => flat,
                None => n,
            };
        match name {
            NoteName::C => pick(LilyNoteName::C, LilyNoteName::Cis, LilyNoteName::Ces),
            NoteName::D => pick(LilyNoteName::D, LilyNoteName::Dis, LilyNoteName::Des),
            NoteName::E => pick(LilyNoteName::E, LilyNoteName::Eis, LilyNoteName::Es),
            NoteName::F => pick(LilyNoteName::F, LilyNoteName::Fis, LilyNoteName::Fes),
            NoteName::G => pick(LilyNoteName::G, LilyNoteName::Gis, LilyNoteName::Ges),
            NoteName::A => pick(LilyNoteName::A, LilyNoteName::Ais, LilyNoteName::As),
            NoteName::B => pick(LilyNoteName::H, LilyNoteName::His, LilyNoteName::Hes),
        }
    }

    pub open spec fn text(self) -> Seq<char> {
        match self {
            LilyNoteName::Ces => "ces"@,
            LilyNoteName::C => "c"@,
            LilyNoteName::Cis => "cis"@,
            LilyNoteName::Des => "des"@,
            LilyNoteName::D => "d"@,
            LilyNoteName::Dis => "dis"@,
            LilyNoteName::Es => "es"@,
            LilyNoteName::E => "e"@,
            LilyNoteName::Eis => "eis"@,
            LilyNoteName::Fes => "fes"@,
            LilyNoteName::F => "f"@,
            LilyNoteName::Fis => "fis"@,
            LilyNoteName::Ges => "ges"@,
            LilyNoteName::G => "g"@,
            LilyNoteName::Gis => "gis"@,
            LilyNoteName::As => "as"@,
            LilyNoteName::A => "a"@,
            LilyNoteName::Ais => "ais"@,
            LilyNoteName::Hes => "hes"@,
            LilyNoteName::H => "h"@,
            LilyNoteName::His => "his"@,
        }
    }

    fn pick(
        accidental: Option<Accidental>,
        n: LilyNoteName,
        sharp: LilyNoteName,
        flat: LilyNoteName,
    ) -> (r: LilyNoteName)
        ensures
            r == match accidental {
                Some(Accidental::Sharp) => sharp,
                Some(Accidental::Flat) => flat,
                None => n,
            },
    {
        match accidental {
            Some(Accidental::Sharp) => sharp,
            Some(Accidental::Flat) => flat,
            None => n,
        }
    }

    /// The name of a note name with an accidental.
    pub fn from(value: (Option<Accidental>, NoteName)) -> (r: Self)
        ensures
            r == LilyNoteName::of(value.0, value.1),
    {
        let a = value.0;
        match value.1 {
            NoteName::C => Self::pick(a, LilyNoteName::C, LilyNoteName::Cis, LilyNoteName::Ces),
            NoteName::D => Self::pick(a, LilyNoteName::D, LilyNoteName::Dis, LilyNoteName::Des),
            NoteName::E => Self::pick(a, LilyNoteName::E, LilyNoteName::Eis, LilyNoteName::Es),
            NoteName::F => Self::pick(a, LilyNoteName::F, LilyNoteName::Fis, LilyNoteName::Fes),
            NoteName::G => Self::pick(a, LilyNoteName::G, LilyNoteName::Gis, LilyNoteName::Ges),
            NoteName::A => Self::pick(a, LilyNoteName::A, LilyNoteName::Ais, LilyNoteName::As),
            NoteName::B => Self::pick(a, LilyNoteName::H, LilyNoteName::His, LilyNoteName::Hes),
        }
    }

    /// The name of the spelling of a pitch.
    pub fn from_pitch(pitch: Pitch) -> (r: Self)
        ensures
            r == LilyNoteName::of(pitch.ext.accidental, pitch.ext.note_name),
    {
        LilyNoteName::from((pitch.ext.accidental, pitch.ext.note_name))
    }

    pub fn as_str(&self) -> (r: &'static str)
        ensures
            r@ == self.text(),
    {
        match self {
            LilyNoteName::Ces => "ces",
            LilyNoteName::C => "c",
            LilyNoteName::Cis => "cis",
            LilyNoteName::Des => "des",
            LilyNoteName::D => "d",
            LilyNoteName::Dis => "dis",
            LilyNoteName::Es => "es",
            LilyNoteName::E => "e",
            LilyNoteName::Eis => "eis",
            LilyNoteName::Fes => "fes",
            LilyNoteName::F => "f",
            LilyNoteName::Fis => "fis",
            LilyNoteName::Ges => "ges",
            LilyNoteName::G => "g",
            LilyNoteName::Gis => "gis",
            LilyNoteName::As => "as",
            LilyNoteName::A => "a",
            LilyNoteName::Ais => "ais",
            LilyNoteName::Hes => "hes",
            LilyNoteName::H => "h",
            LilyNoteName::His => "his",
        }
    }

    pub fn to_string(&self) -> (r: String)
        ensures
            r@ == self.text(),
    {
        self.as_str().to_owned()
    }
}

#[derive(Debug, Clone, Copy, PartialEq, Eq, Structural)]
pub enum LilyKeyType {
    Major,
    Minor,
}

impl LilyKeyType {
    pub open spec fn text(self) -> Seq<char> {
        match self {
            LilyKeyType::Major => "\\major"@,
            LilyKeyType::Minor => "\\minor"@,
        }
    }

    pub fn from(sig_type: KeySignatureType) -> (r: Self)
        ensures
            r == (match sig_type {
                KeySignatureType::Maj => LilyKeyType::Major,
                KeySignatureType::Min => LilyKeyType::Minor,
            }),
    {
        match sig_type {
            KeySignatureType::Maj => LilyKeyType::Major,
            KeySignatureType::Min => LilyKeyType::Minor,
        }
    }

    pub fn as_str(&self) -> (r: &'static str)
        ensures
            r@ == self.text(),
    {
        match self {
            LilyKeyType::Major => "\\major",
            LilyKeyType::Minor => "\\minor",
        }
    }

    pub fn to_string(&self) -> (r: String)
        ensures
            r@ == self.text(),
    {
        self.as_str().to_owned()
    }
}

#[derive(Debug, Clone, Copy, PartialEq, Eq, Structural)]
pub enum LilyNoteLength {
    L1,
    L2,
    L4,
    L8,
    L16,
    L32,
    L64,
    L128,
}

impl LilyNoteLength {
    pub open spec fn of(duration: NoteLength) -> LilyNoteLength {
        match duration {
            NoteLength::L1 => LilyNoteLength::L1,
            NoteLength::L2 => LilyNoteLength::L2,
            NoteLength::L4 => LilyNoteLength::L4,
            NoteLength::L8 => LilyNoteLength::L8,
            NoteLength::L16 => LilyNoteLength::L16,
            NoteLength::L32 => LilyNoteLength::L32,
            NoteLength::L64 => LilyNoteLength::L64,
            NoteLength::L128 => LilyNoteLength::L128,
        }
    }

    pub open spec fn denominator(self) -> nat {
        match self {
            LilyNoteLength::L1 => 1,
            LilyNoteLength::L2 => 2,
            LilyNoteLength::L4 => 4,
            LilyNoteLength::L8 => 8,
            LilyNoteLength::L16 => 16,
            LilyNoteLength::L32 => 32,
            LilyNoteLength::L64 => 64,
            LilyNoteLength::L128 => 128,
        }
    }

    /// The length in 128th notes.
    pub open spec fn in_128ths(self) -> nat {
        128nat / self.denominator()
    }

    pub open spec fn text(self) -> Seq<char> {
        decimal(self.denominator())
    }

    pub fn from(duration: NoteLength) -> (r: Self)
        ensures
            r == LilyNoteLength::of(duration),
    {
        match duration {
            NoteLength::L1 => LilyNoteLength::L1,
            NoteLength::L2 => LilyNoteLength::L2,
            NoteLength::L4 => LilyNoteLength::L4,
            NoteLength::L8 => LilyNoteLength::L8,
            NoteLength::L16 => LilyNoteLength::L16,
            NoteLength::L32 => LilyNoteLength::L32,
            NoteLength::L64 => LilyNoteLength::L64,
            NoteLength::L128 => LilyNoteLength::L128,
        }
    }

    pub fn value(&self) -> (r: u8)
        ensures
            r == self.denominator(),
    {
        match self {
            LilyNoteLength::L1 => 1,
            LilyNoteLength::L2 => 2,
            LilyNoteLength::L4 => 4,
            LilyNoteLength::L8 => 8,
            LilyNoteLength::L16 => 16,
            LilyNoteLength::L32 => 32,
            LilyNoteLength::L64 => 64,
            LilyNoteLength::L128 => 128,
        }
    }

    /// The length in 128th notes.
    pub fn value_128(&self) -> (r: u16)
        ensures
            r == self.in_128ths(),
    {
        match self {
            LilyNoteLength::L1 => 128,
            LilyNoteLength::L2 => 64,
            LilyNoteLength::L4 => 32,
            LilyNoteLength::L8 => 16,
            LilyNoteLength::L16 => 8,
            LilyNoteLength::L32 => 4,
            LilyNoteLength::L64 => 2,
            LilyNoteLength::L128 => 1,
        }
    }

    pub fn push_text(&self, s: &mut String)
        ensures
            final(s)@ == old(s)@ + self.text(),
    {
        push_decimal(s, self.value() as u64);
    }

    pub fn to_string(&self) -> (r: String)
        ensures
            r@ == self.text(),
    {
        let mut r = String::new();
        self.push_text(&mut r);
        r
    }
}

/// A time signature: beats per bar and the length of a beat.
#[derive(Debug, Clone, Copy, PartialEq, Eq, Structural)]
pub struct LilyTime {
    pub nom: u8,
    pub denom: LilyNoteLength,
}

impl LilyTime {
    pub open spec fn text(self) -> Seq<char> {
        "\\time "@ + decimal(self.nom as nat) + "/"@ + self.denom.text()
    }

    /// Common time, four quarters.
    pub fn c() -> (r: Self)
        ensures
            r.nom == 4,
            r.denom == LilyNoteLength::L4,
    {
        LilyTime { nom: 4, denom: LilyNoteLength::L4 }
    }

    pub fn from(time: TimeSignature) -> (r: Self)
        ensures
            r.nom == time.beat_count,
            r.denom == LilyNoteLength::of(time.single_beat_note),
    {
        LilyTime { nom: time.beat_count, denom: LilyNoteLength::from(time.single_beat_note) }
    }

    pub fn to_string(&self) -> (r: String)
        ensures
            r@ == self.text(),
    {
        let mut r = String::new();
        r.append("\\time ");
        push_decimal(&mut r, self.nom as u64);
        r.append("/");
        self.denom.push_text(&mut r);
        r
    }
}

#[derive(Debug, Clone, Copy, PartialEq, Eq, Structural)]
pub struct LilyKey {
    pub note: LilyNoteName,
    pub key_type: LilyKeyType,
}

impl LilyKey {
    pub open spec fn text(self) -> Seq<char> {
        "\\key "@ + self.note.text() + " "@ + self.key_type.text()
    }

    pub fn from(key: KeySignature) -> (r: Self)
        ensures
            r.note == LilyNoteName::of(key.ext.accidental, key.ext.note_name),
            r.key_type == (match key.signature_type {
                KeySignatureType::Maj => LilyKeyType::Major,
                KeySignatureType::Min => LilyKeyType::Minor,
            }),
    {
        LilyKey {
            note: LilyNoteName::from((key.ext.accidental, key.ext.note_name)),
            key_type: LilyKeyType::from(key.signature_type),
        }
    }

    pub fn to_string(&self) -> (r: String)
        ensures
            r@ == self.text(),
    {
        let mut r = String::new();
        r.append("\\key ");
        r.append(self.note.as_str());
        r.append(" ");
        r.append(self.key_type.as_str());
        r
    }
}

/// A tempo mark: a beat length and beats per minute.
#[derive(Debug, Clone, Copy, PartialEq, Eq, Structural)]
pub struct LilyTempo {
    pub note_length: LilyNoteLength,
    pub speed: u8,
}

impl LilyTempo {
    pub open spec fn text(self) -> Seq<char> {
        "\\tempo "@ + self.note_length.text() + " = "@ + decimal(self.speed as nat)
    }

    pub fn from(tempo: Tempo) -> (r: Self)
        ensures
            r.note_length == LilyNoteLength::of(tempo.note_length),
            r.speed == tempo.speed,
    {
        LilyTempo { note_length: LilyNoteLength::from(tempo.note_length), speed: tempo.speed }
    }

    pub fn to_string(&self) -> (r: String)
        ensures
            r@ == self.text(),
    {
        let mut r = String::new();
        r.append("\\tempo ");
        self.note_length.push_text(&mut r);
        r.append(" = ");
        push_decimal(&mut r, self.speed as u64);
        r
    }
}

/// An octave relative to the one of the unmarked note (octave 3): apostrophes
/// raise, commas lower.
#[derive(Debug, Clone, Copy, PartialEq, Eq, Structural)]
pub enum OctaveRelative {
    Up(u8),
    Down(u8),
}

impl OctaveRelative {
    pub open spec fn of(octave: Octave) -> OctaveRelative {
        if octave.index() >= 3 {
            OctaveRelative::Up((octave.index() - 3) as u8)
        } else {
            OctaveRelative::Down((3 - octave.index()) as u8)
        }
    }

    pub open spec fn text(self) -> Seq<char> {
        match self {
            OctaveRelative::Up(n) => Seq::new(n as nat, |i: int| '\''),
            OctaveRelative::Down(n) => Seq::new(n as nat, |i: int| ','),
        }
    }

    pub fn from(octave: Octave) -> (r: Self)
        ensures
            r == OctaveRelative::of(octave),
    {
        match octave {
            Octave::O0 => OctaveRelative::Down(3),
            Octave::O1 => OctaveRelative::Down(2),
            Octave::O2 => OctaveRelative::Down(1),
            Octave::O3 => OctaveRelative::Up(0),
            Octave::O4 => OctaveRelative::Up(1),
            Octave::O5 => OctaveRelative::Up(2),
            Octave::O6 => OctaveRelative::Up(3),
            Octave::O7 => OctaveRelative::Up(4),
            Octave::O8 => OctaveRelative::Up(5),
            Octave::O9 => OctaveRelative::Up(6),
        }
    }

    pub fn push_text(&self, s: &mut String)
        ensures
            final(s)@ == old(s)@ + self.text(),
    {
        let (c, times) = match self {
            OctaveRelative::Up(times) => ('\'', *times),
            OctaveRelative::Down(times) => (',', *times),
        };
        let ghost start = s@;
        let mut i: u8 = 0;
        while i < times
            invariant
                i <= times,
                s@ == start + Seq::new(i as nat, |k: int| c),
                self.text() == Seq::new(times as nat, |k: int| c),
            decreases times - i,
        {
            crate::text::push_char(s, c);
            assert(Seq::new((i + 1) as nat, |k: int| c) =~= Seq::new(i as nat, |k: int| c).push(c));
            i = i + 1;
        }
    }

    pub fn to_string(&self) -> (r: String)
        ensures
            r@ == self.text(),
    {
        let mut r = String::new();
        self.push_text(&mut r);
        r
    }
}

} // verus!
