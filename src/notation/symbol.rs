//! Pitches, notes, chords and the symbols of a stave.

use vstd::prelude::*;

use crate::notation::{
    accidental_shift, Accidental, Clef, ExtNoteName, KeySignature, NoteLength, NoteName, Octave,
    Tempo, TimeSignature,
};

verus! {

/// A spelled pitch: note name, accidental and octave.
///
/// Two pitches are equal when they sound the same, whatever their spelling.
#[derive(Debug, Clone, Copy, Eq)]
pub struct Pitch {
    pub ext: ExtNoteName,
    pub octave: Octave,
}

impl Pitch {
    /// Halftones above C in octave 0; C flat in octave 0 is -1.
    pub open spec fn absolute(self) -> int {
        12 * self.octave.index() + self.ext.note_name.halftone() + accidental_shift(
            self.ext.accidental,
        )
    }

    /// Pitch class after applying the accidental.
    pub open spec fn pitch_class(self) -> int {
        self.ext.pitch_class()
    }

    /// Octave in which the pitch sounds: C flat belongs to the octave below,
    /// B sharp to the octave above.
    pub open spec fn sounding_octave(self) -> int {
        if self.ext.note_name == NoteName::C && self.ext.accidental == Some(Accidental::Flat) {
            self.octave.index() - 1
        } else if self.ext.note_name == NoteName::B && self.ext.accidental == Some(
            Accidental::Sharp,
        ) {
            self.octave.index() + 1
        } else {
            self.octave.index()
        }
    }

    pub open spec fn spec_new(
        note_name: NoteName,
        octave: Octave,
        accidental: Option<Accidental>,
    ) -> Pitch {
        Pitch { ext: ExtNoteName { note_name, accidental }, octave }
    }

    pub open spec fn can_move_up(self) -> bool {
        !(self.ext.note_name == NoteName::B && self.ext.accidental == Some(Accidental::Sharp)
            && self.octave == Octave::O9)
    }

    pub open spec fn can_move_down(self) -> bool {
        !(self.ext.note_name == NoteName::C && self.ext.accidental == Some(Accidental::Flat)
            && self.octave == Octave::O0)
    }

    /// The spelling after one halftone up: a natural gets a sharp, a flat is
    /// dropped, a sharp moves to the next letter (E sharp and B sharp keep it).
    pub open spec fn halftone_up(self) -> Pitch {
        match self.ext.accidental {
            Some(Accidental::Sharp) => Pitch {
                ext: ExtNoteName {
                    note_name: self.ext.note_name.spec_next(),
                    accidental: if self.ext.note_name == NoteName::B || self.ext.note_name
                        == NoteName::E {
                        Some(Accidental::Sharp)
                    } else {
                        None
                    },
                },
                octave: if self.ext.note_name == NoteName::B {
                    self.octave.spec_next()
                } else {
                    self.octave
                },
            },
            Some(Accidental::Flat) => Pitch {
                ext: ExtNoteName { note_name: self.ext.note_name, accidental: None },
                octave: self.octave,
            },
            None => Pitch {
                ext: ExtNoteName {
                    note_name: self.ext.note_name,
                    accidental: Some(Accidental::Sharp),
                },
                octave: self.octave,
            },
        }
    }

    /// The spelling after one halftone down, the mirror of `halftone_up`.
    pub open spec fn halftone_down(self) -> Pitch {
        match self.ext.accidental {
            Some(Accidental::Flat) => Pitch {
                ext: ExtNoteName {
                    note_name: self.ext.note_name.spec_prev(),
                    accidental: if self.ext.note_name == NoteName::C || self.ext.note_name
                        == NoteName::F {
                        Some(Accidental::Flat)
                    } else {
                        None
                    },
                },
                octave: if self.ext.note_name == NoteName::C {
                    self.octave.spec_prev()
                } else {
                    self.octave
                },
            },
            Some(Accidental::Sharp) => Pitch {
                ext: ExtNoteName { note_name: self.ext.note_name, accidental: None },
                octave: self.octave,
            },
            None => Pitch {
                ext: ExtNoteName {
                    note_name: self.ext.note_name,
                    accidental: Some(Accidental::Flat),
                },
                octave: self.octave,
            },
        }
    }

    pub open spec fn tone_up(self) -> Pitch {
        self.halftone_up().halftone_up()
    }

    pub open spec fn tone_down(self) -> Pitch {
        self.halftone_down().halftone_down()
    }

    pub open spec fn can_tone_up(self) -> bool {
        self.can_move_up() && self.halftone_up().can_move_up()
    }

    pub open spec fn can_tone_down(self) -> bool {
        self.can_move_down() && self.halftone_down().can_move_down()
    }

    pub fn new(note_name: NoteName, octave: Octave, accidental: Option<Accidental>) -> (r: Self)
        ensures
            r == Pitch::spec_new(note_name, octave, accidental),
    {
        Pitch { ext: ExtNoteName { note_name, accidental }, octave }
    }

    pub fn note_name(&self) -> (r: NoteName)
        ensures
            r == self.ext.note_name,
    {
        self.ext.note_name
    }

    pub fn accidental(&self) -> (r: Option<Accidental>)
        ensures
            r == self.ext.accidental,
    {
        self.ext.accidental
    }

    /// Halftone value (0 to 11) after applying the accidental.
    pub fn value_halftone(&self) -> (r: u8)
        ensures
            r == self.pitch_class(),
            r == self.absolute() % 12,
    {
        proof {
            lemma_absolute_split(*self);
        }
        self.ext.value_halftone()
    }

    /// Octave after applying the accidental.
    pub fn real_octave(&self) -> (r: Octave)
        requires
            0 <= self.sounding_octave() <= 9,
        ensures
            r.index() == self.sounding_octave(),
    {
        if self.ext.note_name == NoteName::C && self.ext.accidental == Some(Accidental::Flat) {
            match self.octave.try_prev() {
                Some(o) => o,
                None => self.octave,
            }
        } else if self.ext.note_name == NoteName::B && self.ext.accidental == Some(
            Accidental::Sharp,
        ) {
            match self.octave.try_next() {
                Some(o) => o,
                None => self.octave,
            }
        } else {
            self.octave
        }
    }

    /// Sounding value in halftones above C in octave 0.
    pub fn absolute_value(&self) -> (r: i16)
        ensures
            r == self.absolute(),
    {
        let o: i16 = match self.octave {
            Octave::O0 => 0,
            Octave::O1 => 1,
            Octave::O2 => 2,
            Octave::O3 => 3,
            Octave::O4 => 4,
            Octave::O5 => 5,
            Octave::O6 => 6,
            Octave::O7 => 7,
            Octave::O8 => 8,
            Octave::O9 => 9,
        };
        let s: i16 = match self.ext.accidental {
            Some(Accidental::Sharp) => 1,
            Some(Accidental::Flat) => -1,
            None => 0,
        };
        12 * o + self.ext.note_name.value_halftone() as i16 + s
    }

    /// Move the pitch a halftone up.
    pub fn move_halftone_up(&mut self)
        requires
            old(self).can_move_up(),
        ensures
            *final(self) == old(self).halftone_up(),
            final(self).absolute() == old(self).absolute() + 1,
    {
        match self.ext.accidental {
            Some(Accidental::Sharp) => {
                if self.ext.note_name == NoteName::B {
                    self.octave = match self.octave.try_next() {
                        Some(o) => o,
                        None => self.octave,
                    };
                } else if self.ext.note_name != NoteName::E {
                    self.ext.accidental = None;
                }
                self.ext.note_name = self.ext.note_name.next();
            },
            Some(Accidental::Flat) => self.ext.accidental = None,
            None => self.ext.accidental = Some(Accidental::Sharp),
        }
    }

    /// Move the pitch a halftone down.
    pub fn move_halftone_down(&mut self)
        requires
            old(self).can_move_down(),
        ensures
            *final(self) == old(self).halftone_down(),
            final(self).absolute() == old(self).absolute() - 1,
    {
        match self.ext.accidental {
            Some(Accidental::Sharp) => self.ext.accidental = None,
            Some(Accidental::Flat) => {
                if self.ext.note_name == NoteName::C {
                    self.octave = match self.octave.try_prev() {
                        Some(o) => o,
                        None => self.octave,
                    };
                } else if self.ext.note_name != NoteName::F {
                    self.ext.accidental = None;
                }
                self.ext.note_name = self.ext.note_name.prev();
            },
            None => self.ext.accidental = Some(Accidental::Flat),
        }
    }

    /// Move the pitch a tone up.
    pub fn move_tone_up(&mut self)
        requires
            old(self).can_tone_up(),
        ensures
            *final(self) == old(self).tone_up(),
            final(self).absolute() == old(self).absolute() + 2,
    {
        self.move_halftone_up();
        self.move_halftone_up();
    }

    /// Move the pitch a tone down.
    pub fn move_tone_down(&mut self)
        requires
            old(self).can_tone_down(),
        ensures
            *final(self) == old(self).tone_down(),
            final(self).absolute() == old(self).absolute() - 2,
    {
        self.move_halftone_down();
        self.move_halftone_down();
    }
}

/// The sounding value splits into the sounding octave and the pitch class.
pub proof fn lemma_absolute_split(p: Pitch)
    ensures
        p.absolute() == 12 * p.sounding_octave() + p.pitch_class(),
        p.pitch_class() == p.absolute() % 12,
        0 <= p.pitch_class() < 12,
{
    let o = p.octave.index();
    assert(12 * o % 12 == 0) by (nonlinear_arith);
    assert((12 * o + 11) % 12 == 11) by (nonlinear_arith);
    assert((12 * o - 1) % 12 == 11) by (nonlinear_arith);
    assert((12 * o + 12) % 12 == 0) by (nonlinear_arith);
    assert forall|k: int| 0 <= k < 12 implies #[trigger] ((12 * o + k) % 12) == k by {
        assert((12 * o + k) % 12 == k) by (nonlinear_arith)
            requires
                0 <= k < 12,
        ;
    }
}

impl PartialEq for Pitch {
    /// Enharmonic equality: the same sounding octave and pitch class.
    fn eq(&self, other: &Pitch) -> (r: bool) {
        self.absolute_value() == other.absolute_value()
    }
}

impl vstd::std_specs::cmp::PartialEqSpecImpl for Pitch {
    open spec fn obeys_eq_spec() -> bool {
        true
    }

    open spec fn eq_spec(&self, other: &Pitch) -> bool {
        self.absolute() == other.absolute()
    }
}

/// A pitch with a duration.
#[derive(Debug, Clone, Copy)]
pub struct Note {
    pub pitch: Pitch,
    pub duration: NoteLength,
}

/// A chord of pitches that share one length.
#[derive(Debug, Clone)]
pub struct Chord {
    pub pitches: Vec<Pitch>,
    pub duration: NoteLength,
}

#[derive(Debug, Clone)]
pub enum Symbol {
    Clef(Clef),
    TimeSignature(TimeSignature),
    KeySignature(KeySignature),
    Chord(Chord),
    Note(Note),
    Rest(NoteLength),
    Tempo(Tempo),
}

} // verus!
