//! LilyPond notes.

use vstd::prelude::*;

use crate::lily::{LilyNoteLength, LilyNoteName, OctaveRelative};
use crate::notation::Note;

verus! {

#[derive(Debug, Clone, Copy, PartialEq, Eq, Structural)]
pub struct LilyNote {
    pub note_name: LilyNoteName,
    pub octave_relative: OctaveRelative,
    pub length: LilyNoteLength,
}

impl LilyNote {
    pub open spec fn of(note: Note) -> LilyNote {
        LilyNote {
            note_name: LilyNoteName::of(note.pitch.ext.accidental, note.pitch.ext.note_name),
            octave_relative: OctaveRelative::of(note.pitch.octave),
            length: LilyNoteLength::of(note.duration),
        }
    }

    /// Name, octave marks and length, as in `des''8`.
    pub open spec fn text(self) -> Seq<char> {
        self.note_name.text() + self.octave_relative.text() + self.length.text()
    }

    pub fn from(note: Note) -> (r: Self)
        ensures
            r == LilyNote::of(note),
    {
        LilyNote {
            note_name: LilyNoteName::from_pitch(note.pitch),
            length: LilyNoteLength::from(note.duration),
            octave_relative: OctaveRelative::from(note.pitch.octave),
        }
    }

    pub fn push_text(&self, s: &mut String)
        ensures
            final(s)@ == old(s)@ + self.text(),
    {
        s.append(self.note_name.as_str());
        self.octave_relative.push_text(s);
        self.length.push_text(s);
    }

    pub fn to_string(&self) -> (r: String)
        ensures
            r@ == self.text(),
    {
        let mut r = String::new();
        self.push_text(&mut r);
        r
    }
}

} // verus!
