//! The stored structure of a score: note names, octaves, lengths, keys.

use vstd::prelude::*;

pub mod score;
pub mod symbol;

pub use score::Score;
pub use score::ScoreInfo;
pub use score::Stave;
pub use symbol::Chord;
pub use symbol::Note;
pub use symbol::Pitch;
pub use symbol::Symbol;

verus! {

#[derive(Debug, Clone, Copy, PartialEq, Eq, Structural)]
pub enum Clef {
    Treble,
    Bass,
}

#[derive(Debug, Clone, Copy, PartialEq, Eq, Structural)]
pub enum KeySignatureType {
    Maj,
    Min,
}

#[derive(Debug, Clone, Copy, PartialEq, Eq, Structural)]
pub enum NoteName {
    C,
    D,
    E,
    F,
    G,
    A,
    B,
}

#[derive(Debug, Clone, Copy, PartialEq, Eq, Structural)]
pub enum Octave {
    O0,
    O1,
    O2,
    O3,
    O4,
    O5,
    O6,
    O7,
    O8,
    O9,
}

#[derive(Debug, Clone, Copy, PartialEq, Eq, Structural)]
pub enum Accidental {
    Sharp,
    Flat,
}

#[derive(Debug, Clone, Copy, PartialEq, Eq, Structural)]
pub enum NoteLength {
    L1,
    L2,
    L4,
    L8,
    L16,
    L32,
    L64,
    L128,
}

/// A note name together with its accidental.
#[derive(Debug, Clone, Copy, PartialEq, Eq, Structural)]
pub struct ExtNoteName {
    pub note_name: NoteName,
    pub accidental: Option<Accidental>,
}

#[derive(Debug, Clone, Copy, PartialEq, Eq, Structural)]
pub struct KeySignature {
    pub ext: ExtNoteName,
    pub signature_type: KeySignatureType,
}

#[derive(Debug, Clone, Copy)]
pub struct TimeSignature {
    pub beat_count: u8,
    pub single_beat_note: NoteLength,
}

#[derive(Debug, Clone, Copy)]
pub struct Tempo {
    pub note_length: NoteLength,
    pub speed: u8,
}

impl Default for Tempo {
    fn default() -> (r: Self)
        ensures
            r.note_length == NoteLength::L4,
            r.speed == 100,
    {
        Tempo { note_length: NoteLength::L4, speed: 100 }
    }
}

/// Halftones that an accidental adds to a note name.
pub open spec fn accidental_shift(a: Option<Accidental>) -> int {
    match a {
        Some(Accidental::Sharp) => 1,
        Some(Accidental::Flat) => -1,
        None => 0,
    }
}

impl NoteName {
    /// Position of the name in the cycle C, D, E, F, G, A, B.
    pub open spec fn index(self) -> int {
        match self {
            NoteName::C => 0,
            NoteName::D => 1,
            NoteName::E => 2,
            NoteName::F => 3,
            NoteName::G => 4,
            NoteName::A => 5,
            NoteName::B => 6,
        }
    }

    /// Halftones of the natural note above C.
    pub open spec fn halftone(self) -> int {
        match self {
            NoteName::C => 0,
            NoteName::D => 2,
            NoteName::E => 4,
            NoteName::F => 5,
            NoteName::G => 7,
            NoteName::A => 9,
            NoteName::B => 11,
        }
    }

    pub open spec fn spec_next(self) -> NoteName {
        match self {
            NoteName::C => NoteName::D,
            NoteName::D => NoteName::E,
            NoteName::E => NoteName::F,
            NoteName::F => NoteName::G,
            NoteName::G => NoteName::A,
            NoteName::A => NoteName::B,
            NoteName::B => NoteName::C,
        }
    }

    pub open spec fn spec_prev(self) -> NoteName {
        match self {
            NoteName::C => NoteName::B,
            NoteName::D => NoteName::C,
            NoteName::E => NoteName::D,
            NoteName::F => NoteName::E,
            NoteName::G => NoteName::F,
            NoteName::A => NoteName::G,
            NoteName::B => NoteName::A,
        }
    }

    /// The next name in the cycle, B wrapping to C.
    pub fn next(&self) -> (r: Self)
        ensures
            r == self.spec_next(),
            r.index() == (self.index() + 1) % 7,
    {
        match self {
            NoteName::C => NoteName::D,
            NoteName::D => NoteName::E,
            NoteName::E => NoteName::F,
            NoteName::F => NoteName::G,
            NoteName::G => NoteName::A,
            NoteName::A => NoteName::B,
            NoteName::B => NoteName::C,
        }
    }

    /// The previous name in the cycle, C wrapping to B.
    pub fn prev(&self) -> (r: Self)
        ensures
            r == self.spec_prev(),
            r.index() == (self.index() + 6) % 7,
    {
        match self {
            NoteName::C => NoteName::B,
            NoteName::D => NoteName::C,
            NoteName::E => NoteName::D,
            NoteName::F => NoteName::E,
            NoteName::G => NoteName::F,
            NoteName::A => NoteName::G,
            NoteName::B => NoteName::A,
        }
    }

    pub fn value(&self) -> (r: u8)
        ensures
            r == self.index(),
    {
        match self {
            NoteName::C => 0,
            NoteName::D => 1,
            NoteName::E => 2,
            NoteName::F => 3,
            NoteName::G => 4,
            NoteName::A => 5,
            NoteName::B => 6,
        }
    }

    pub fn value_halftone(&self) -> (r: u8)
        ensures
            r == self.halftone(),
    {
        match self {
            NoteName::C => 0,
            NoteName::D => 2,
            NoteName::E => 4,
            NoteName::F => 5,
            NoteName::G => 7,
            NoteName::A => 9,
            NoteName::B => 11,
        }
    }
}

impl Octave {
    pub open spec fn index(self) -> int {
        match self {
            Octave::O0 => 0,
            Octave::O1 => 1,
            Octave::O2 => 2,
            Octave::O3 => 3,
            Octave::O4 => 4,
            Octave::O5 => 5,
            Octave::O6 => 6,
            Octave::O7 => 7,
            Octave::O8 => 8,
            Octave::O9 => 9,
        }
    }

    pub open spec fn spec_next(self) -> Octave {
        match self {
            Octave::O0 => Octave::O1,
            Octave::O1 => Octave::O2,
            Octave::O2 => Octave::O3,
            Octave::O3 => Octave::O4,
            Octave::O4 => Octave::O5,
            Octave::O5 => Octave::O6,
            Octave::O6 => Octave::O7,
            Octave::O7 => Octave::O8,
            Octave::O8 => Octave::O9,
            Octave::O9 => Octave::O9,
        }
    }

    pub open spec fn spec_prev(self) -> Octave {
        match self {
            Octave::O0 => Octave::O0,
            Octave::O1 => Octave::O0,
            Octave::O2 => Octave::O1,
            Octave::O3 => Octave::O2,
            Octave::O4 => Octave::O3,
            Octave::O5 => Octave::O4,
            Octave::O6 => Octave::O5,
            Octave::O7 => Octave::O6,
            Octave::O8 => Octave::O7,
            Octave::O9 => Octave::O8,
        }
    }

    /// The octave above, if there is one.
    pub fn try_next(&self) -> (r: Option<Self>)
        ensures
            match r {
                Some(o) => self.index() < 9 && o.index() == self.index() + 1 && o == self.spec_next(),
                None => self.index() == 9,
            },
    {
        match self {
            Octave::O0 => Some(Octave::O1),
            Octave::O1 => Some(Octave::O2),
            Octave::O2 => Some(Octave::O3),
            Octave::O3 => Some(Octave::O4),
            Octave::O4 => Some(Octave::O5),
            Octave::O5 => Some(Octave::O6),
            Octave::O6 => Some(Octave::O7),
            Octave::O7 => Some(Octave::O8),
            Octave::O8 => Some(Octave::O9),
            Octave::O9 => None,
        }
    }

    /// The octave below, if there is one.
    pub fn try_prev(&self) -> (r: Option<Self>)
        ensures
            match r {
                Some(o) => self.index() > 0 && o.index() == self.index() - 1 && o == self.spec_prev(),
                None => self.index() == 0,
            },
    {
        match self {
            Octave::O0 => None,
            Octave::O1 => Some(Octave::O0),
            Octave::O2 => Some(Octave::O1),
            Octave::O3 => Some(Octave::O2),
            Octave::O4 => Some(Octave::O3),
            Octave::O5 => Some(Octave::O4),
            Octave::O6 => Some(Octave::O5),
            Octave::O7 => Some(Octave::O6),
            Octave::O8 => Some(Octave::O7),
            Octave::O9 => Some(Octave::O8),
        }
    }

    /// Number of tones in one octave.
    pub fn tone_count() -> (r: u8)
        ensures
            r == 7,
    {
        7
    }

    /// Number of halftones in one octave.
    pub fn halftone_count() -> (r: u8)
        ensures
            r == 12,
    {
        12
    }
}

impl NoteLength {
    /// The denominator of the length as a fraction of a whole note.
    pub open spec fn denominator(self) -> int {
        match self {
            NoteLength::L1 => 1,
            NoteLength::L2 => 2,
            NoteLength::L4 => 4,
            NoteLength::L8 => 8,
            NoteLength::L16 => 16,
            NoteLength::L32 => 32,
            NoteLength::L64 => 64,
            NoteLength::L128 => 128,
        }
    }

    /// The length in 128th notes.
    pub open spec fn in_128ths(self) -> int {
        128int / self.denominator()
    }

    pub open spec fn spec_half(self) -> Option<NoteLength> {
        match self {
            NoteLength::L1 => Some(NoteLength::L2),
            NoteLength::L2 => Some(NoteLength::L4),
            NoteLength::L4 => Some(NoteLength::L8),
            NoteLength::L8 => Some(NoteLength::L16),
            NoteLength::L16 => Some(NoteLength::L32),
            NoteLength::L32 => Some(NoteLength::L64),
            NoteLength::L64 => Some(NoteLength::L128),
            NoteLength::L128 => None,
        }
    }

    /// The length of half the duration, if it is still supported.
    pub fn half(&self) -> (r: Option<Self>)
        ensures
            r == self.spec_half(),
            match r {
                Some(l) => l.denominator() == 2 * self.denominator(),
                None => *self == NoteLength::L128,
            },
    {
        match self {
            NoteLength::L1 => Some(NoteLength::L2),
            NoteLength::L2 => Some(NoteLength::L4),
            NoteLength::L4 => Some(NoteLength::L8),
            NoteLength::L8 => Some(NoteLength::L16),
            NoteLength::L16 => Some(NoteLength::L32),
            NoteLength::L32 => Some(NoteLength::L64),
            NoteLength::L64 => Some(NoteLength::L128),
            NoteLength::L128 => None,
        }
    }

    /// Halve the duration; the shortest length, a 128th, stays as it is.
    pub fn halve(&mut self)
        ensures
            *final(self) == match old(self).spec_half() {
                Some(l) => l,
                None => *old(self),
            },
    {
        match self.half() {
            Some(l) => *self = l,
            None => {},
        }
    }

    /// The length in 128th notes.
    pub fn value_128(&self) -> (r: u16)
        ensures
            r == self.in_128ths(),
    {
        match self {
            NoteLength::L1 => 128,
            NoteLength::L2 => 64,
            NoteLength::L4 => 32,
            NoteLength::L8 => 16,
            NoteLength::L16 => 8,
            NoteLength::L32 => 4,
            NoteLength::L64 => 2,
            NoteLength::L128 => 1,
        }
    }
}

impl ExtNoteName {
    /// Pitch class (0 to 11) after applying the accidental.
    pub open spec fn pitch_class(self) -> int {
        (self.note_name.halftone() + 12 + accidental_shift(self.accidental)) % 12
    }

    pub fn value_halftone(&self) -> (r: u8)
        ensures
            r == self.pitch_class(),
    {
        let v: u8 = self.note_name.value_halftone() + 12;
        let h: u8 = match self.accidental {
            Some(Accidental::Sharp) => v + 1,
            Some(Accidental::Flat) => v - 1,
            None => v,
        };
        h % 12
    }
}

impl TimeSignature {
    /// Common time, four quarters.
    pub fn c() -> (r: Self)
        ensures
            r.beat_count == 4,
            r.single_beat_note == NoteLength::L4,
    {
        TimeSignature { beat_count: 4, single_beat_note: NoteLength::L4 }
    }
}

} // verus!
