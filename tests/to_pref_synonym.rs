use music_sheet_gen::notation::{
    Accidental::{self, Flat, Sharp},
    NoteName::{self, B, C, D, E, F},
    Octave::{self, O0, O3, O4, O5, O9},
    Pitch,
};
use music_sheet_gen::sanitizer::ToPrefSynonym;

fn pitch_eq(pitch: Pitch, to: (NoteName, Octave, Option<Accidental>)) -> bool {
    pitch.note_name() == to.0 && pitch.octave == to.1 && pitch.accidental() == to.2
}

#[test]
fn preffer_none() {
    let mut bis = Pitch::new(B, O4, Some(Sharp));
    let mut cis = Pitch::new(C, O4, Some(Sharp));
    let mut eis = Pitch::new(E, O4, Some(Sharp));
    let mut ces = Pitch::new(C, O5, Some(Flat));
    let mut es = Pitch::new(E, O4, Some(Flat));
    let mut fes = Pitch::new(F, O4, Some(Flat));

    bis.to_pref_synonym(None);
    cis.to_pref_synonym(None);
    eis.to_pref_synonym(None);
    ces.to_pref_synonym(None);
    es.to_pref_synonym(None);
    fes.to_pref_synonym(None);

    assert!(pitch_eq(bis, (C, O5, None)));
    assert!(pitch_eq(cis, (C, O4, Some(Sharp))));
    assert!(pitch_eq(eis, (F, O4, None)));
    assert!(pitch_eq(ces, (B, O4, None)));
    assert!(pitch_eq(es, (E, O4, Some(Flat))));
    assert!(pitch_eq(fes, (E, O4, None)));
}

#[test]
fn preffer_sharp() {
    let mut ces = Pitch::new(C, O4, Some(Flat));
    let mut des = Pitch::new(D, O4, Some(Flat));
    let mut fes = Pitch::new(F, O4, Some(Flat));
    let mut e = Pitch::new(E, O4, None);

    ces.to_pref_synonym(Some(Sharp));
    des.to_pref_synonym(Some(Sharp));
    fes.to_pref_synonym(Some(Sharp));
    e.to_pref_synonym(Some(Sharp));

    assert!(pitch_eq(ces, (B, O3, None)));
    assert!(pitch_eq(des, (C, O4, Some(Sharp))));
    assert!(pitch_eq(fes, (E, O4, None)));
    assert!(pitch_eq(e, (E, O4, None)));
}

#[test]
fn preffer_flat() {
    let mut bis = Pitch::new(B, O4, Some(Sharp));
    let mut cis = Pitch::new(C, O4, Some(Sharp));
    let mut eis = Pitch::new(E, O4, Some(Sharp));
    let mut f = Pitch::new(F, O4, None);

    bis.to_pref_synonym(Some(Flat));
    cis.to_pref_synonym(Some(Flat));
    eis.to_pref_synonym(Some(Flat));
    f.to_pref_synonym(Some(Flat));

    assert!(pitch_eq(bis, (C, O5, None)));
    assert!(pitch_eq(cis, (D, O4, Some(Flat))));
    assert!(pitch_eq(eis, (F, O4, None)));
    assert!(pitch_eq(f, (F, O4, None)));
}

#[test]
fn synonym_at_octave_edge_keeps_spelling() {
    let mut ces = Pitch::new(C, O0, Some(Flat));
    ces.to_pref_synonym(Some(Sharp));
    assert!(pitch_eq(ces, (C, O0, Some(Flat))));
    let mut his = Pitch::new(B, O9, Some(Sharp));
    his.to_pref_synonym(None);
    assert!(pitch_eq(his, (B, O9, Some(Sharp))));
}
