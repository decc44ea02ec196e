//! Respelling a pitch with a preferred accidental.

use vstd::prelude::*;

use crate::notation::{Accidental, NoteName, Octave, Pitch};

verus! {

/// The spelling of `p` with the preferred accidental.
///
/// Preferring sharps, a flat becomes the sharp of the letter below (C flat and
/// F flat become the naturals B and E); preferring flats, a sharp becomes the
/// flat of the letter above (B sharp and E sharp become C and F); preferring
/// neither, only E sharp, F flat, B sharp and C flat are resolved to naturals.
/// A pitch whose synonym would fall outside the octave range keeps its spelling.
pub open spec fn pref_synonym(p: Pitch, preffer: Option<Accidental>) -> Pitch {
    let n = p.ext.note_name;
    let a = p.ext.accidental;
    let o = p.octave;
    let sharp = Some(Accidental::Sharp);
    let flat = Some(Accidental::Flat);
    if a == flat && n == NoteName::C && o != Octave::O0 && preffer != flat {
        Pitch::spec_new(NoteName::B, o.spec_prev(), None)
    } else if a == flat && n == NoteName::F && preffer != flat {
        Pitch::spec_new(NoteName::E, o, None)
    } else if a == flat && n != NoteName::C && preffer == sharp {
        Pitch::spec_new(n.spec_prev(), o, sharp)
    } else if a == sharp && n == NoteName::B && o != Octave::O9 && preffer != sharp {
        Pitch::spec_new(NoteName::C, o.spec_next(), None)
    } else if a == sharp && n == NoteName::E && preffer != sharp {
        Pitch::spec_new(NoteName::F, o, None)
    } else if a == sharp && n != NoteName::B && preffer == flat {
        Pitch::spec_new(n.spec_next(), o, flat)
    } else {
        p
    }
}

pub trait ToPrefSynonym: Sized {
    spec fn spec_pref_synonym(self, preffer: Option<Accidental>) -> Self;

    /// Convert to the equivalent spelling with the given accidental.
    fn to_pref_synonym(&mut self, preffer: Option<Accidental>)
        ensures
            *final(self) == old(self).spec_pref_synonym(preffer),
    ;
}

impl ToPrefSynonym for Pitch {
    open spec fn spec_pref_synonym(self, preffer: Option<Accidental>) -> Pitch {
        pref_synonym(self, preffer)
    }

    fn to_pref_synonym(&mut self, preffer: Option<Accidental>) {
        let n = self.ext.note_name;
        let o = self.octave;
        match (preffer, self.ext.accidental) {
            (Some(Accidental::Sharp), Some(Accidental::Flat)) => {
                if n == NoteName::C {
                    if let Some(po) = o.try_prev() {
                        *self = Pitch::new(NoteName::B, po, None);
                    }
                } else if n == NoteName::F {
                    *self = Pitch::new(NoteName::E, o, None);
                } else {
                    *self = Pitch::new(n.prev(), o, Some(Accidental::Sharp));
                }
            },
            (Some(Accidental::Flat), Some(Accidental::Sharp)) => {
                if n == NoteName::B {
                    if let Some(no) = o.try_next() {
                        *self = Pitch::new(NoteName::C, no, None);
                    }
                } else if n == NoteName::E {
                    *self = Pitch::new(NoteName::F, o, None);
                } else {
                    *self = Pitch::new(n.next(), o, Some(Accidental::Flat));
                }
            },
            (None, Some(Accidental::Sharp)) => {
                if n == NoteName::E {
                    *self = Pitch::new(NoteName::F, o, None);
                } else if n == NoteName::B {
                    if let Some(no) = o.try_next() {
                        *self = Pitch::new(NoteName::C, no, None);
                    }
                }
            },
            (None, Some(Accidental::Flat)) => {
                if n == NoteName::F {
                    *self = Pitch::new(NoteName::E, o, None);
                } else if n == NoteName::C {
                    if let Some(po) = o.try_prev() {
                        *self = Pitch::new(NoteName::B, po, None);
                    }
                }
            },
            _ => {},
        }
    }
}

/// Respelling keeps the sound: the synonym is enharmonically equal.
pub proof fn lemma_pref_synonym_enharmonic(p: Pitch, preffer: Option<Accidental>)
    ensures
        pref_synonym(p, preffer).absolute() == p.absolute(),
{
}

} // verus!
