use music_sheet_gen::lsystem::interpret::scale::{BasicScale, JazzLikeScale, Scale};
use music_sheet_gen::notation::Accidental::{Flat, Sharp};
use music_sheet_gen::notation::KeySignatureType::{Maj, Min};
use music_sheet_gen::notation::NoteName::{A, B, C, D, E, F, G};
use music_sheet_gen::notation::Octave::{O3, O4, O5};
use music_sheet_gen::notation::{ExtNoteName, KeySignature, Pitch};

fn next(scale: &impl Scale, pitch: &Pitch) -> Pitch {
    let mut p = *pitch;
    scale.advance(&mut p);
    p
}

fn prev(scale: &impl Scale, pitch: &Pitch) -> Pitch {
    let mut p = *pitch;
    scale.recede(&mut p);
    p
}

#[test]
fn advance_maj() {
    let e_dur = KeySignature {
        ext: ExtNoteName {
            note_name: E,
            accidental: None,
        },
        signature_type: Maj,
    };
    let scale = BasicScale { key: e_dur };
    let n1 = Pitch {
        ext: ExtNoteName {
            note_name: G,
            accidental: Some(Sharp),
        },
        octave: O4,
    };

    let n2 = next(&scale, &n1);
    let n3 = next(&scale, &n2);
    let n4 = next(&scale, &n3);
    let n5 = next(&scale, &n4);
    let n6 = next(&scale, &n5);
    let n7 = next(&scale, &n6);

    assert_eq!(n2, Pitch::new(A, O4, None));
    assert_eq!(n3, Pitch::new(B, O4, None));
    assert_eq!(n4, Pitch::new(C, O5, Some(Sharp)));
    assert_eq!(n5, Pitch::new(D, O5, Some(Sharp)));
    assert_eq!(n6, Pitch::new(E, O5, None));
    assert_eq!(n7, Pitch::new(F, O5, Some(Sharp)));
}

#[test]
fn recede_maj() {
    let e_dur = KeySignature {
        ext: ExtNoteName {
            note_name: E,
            accidental: None,
        },
        signature_type: Maj,
    };
    let scale = BasicScale { key: e_dur };
    let n1 = Pitch {
        ext: ExtNoteName {
            note_name: G,
            accidental: Some(Sharp),
        },
        octave: O5,
    };

    let n2 = prev(&scale, &n1);
    let n3 = prev(&scale, &n2);
    let n4 = prev(&scale, &n3);
    let n5 = prev(&scale, &n4);
    let n6 = prev(&scale, &n5);
    let n7 = prev(&scale, &n6);

    assert_eq!(n2, Pitch::new(F, O5, Some(Sharp)));
    assert_eq!(n3, Pitch::new(E, O5, None));
    assert_eq!(n4, Pitch::new(D, O5, Some(Sharp)));
    assert_eq!(n5, Pitch::new(C, O5, Some(Sharp)));
    assert_eq!(n6, Pitch::new(B, O4, None));
    assert_eq!(n7, Pitch::new(A, O4, None));
}

#[test]
fn advance_min() {
    let c_min = KeySignature {
        ext: ExtNoteName {
            note_name: C,
            accidental: None,
        },
        signature_type: Min,
    };
    let scale = BasicScale { key: c_min };
    let n1 = Pitch {
        ext: ExtNoteName {
            note_name: C,
            accidental: None,
        },
        octave: O4,
    };

    let n2 = next(&scale, &n1);
    let n3 = next(&scale, &n2);
    let n4 = next(&scale, &n3);
    let n5 = next(&scale, &n4);
    let n6 = next(&scale, &n5);
    let n7 = next(&scale, &n6);

    assert_eq!(n2, Pitch::new(D, O4, None));
    assert_eq!(n3, Pitch::new(E, O4, Some(Flat)));
    assert_eq!(n4, Pitch::new(F, O4, None));
    assert_eq!(n5, Pitch::new(G, O4, None));
    assert_eq!(n6, Pitch::new(A, O4, Some(Flat)));
    assert_eq!(n7, Pitch::new(B, O4, None));
}

#[test]
fn recede_min() {
    let c_min = KeySignature {
        ext: ExtNoteName {
            note_name: C,
            accidental: None,
        },
        signature_type: Min,
    };
    let scale = BasicScale { key: c_min };
    let n1 = Pitch {
        ext: ExtNoteName {
            note_name: C,
            accidental: None,
        },
        octave: O5,
    };

    let n2 = prev(&scale, &n1);
    let n3 = prev(&scale, &n2);
    let n4 = prev(&scale, &n3);
    let n5 = prev(&scale, &n4);
    let n6 = prev(&scale, &n5);
    let n7 = prev(&scale, &n6);

    assert_eq!(n2, Pitch::new(B, O4, None));
    assert_eq!(n3, Pitch::new(A, O4, Some(Flat)));
    assert_eq!(n4, Pitch::new(G, O4, None));
    assert_eq!(n5, Pitch::new(F, O4, None));
    assert_eq!(n6, Pitch::new(E, O4, Some(Flat)));
    assert_eq!(n7, Pitch::new(D, O4, None));
}

#[test]
fn advance_jazz() {
    let c_jazz = KeySignature {
        ext: ExtNoteName {
            note_name: C,
            accidental: Some(Sharp),
        },
        signature_type: Maj,
    };
    let scale = JazzLikeScale { key: c_jazz };
    let n1 = Pitch {
        ext: ExtNoteName {
            note_name: C,
            accidental: Some(Sharp),
        },
        octave: O4,
    };

    let n2 = next(&scale, &n1);
    let n3 = next(&scale, &n2);
    let n4 = next(&scale, &n3);
    let n5 = next(&scale, &n4);
    let n6 = next(&scale, &n5);

    assert_eq!(n2, Pitch::new(D, O4, Some(Sharp)));
    assert_eq!(n3, Pitch::new(F, O4, Some(Sharp)));
    assert_eq!(n4, Pitch::new(G, O4, Some(Sharp)));
    assert_eq!(n5, Pitch::new(A, O4, None));
    assert_eq!(n6, Pitch::new(A, O4, Some(Sharp)));
}

#[test]
fn recede_jazz() {
    let c_jazz = KeySignature {
        ext: ExtNoteName {
            note_name: C,
            accidental: Some(Sharp),
        },
        signature_type: Maj,
    };
    let scale = JazzLikeScale { key: c_jazz };
    let n1 = Pitch {
        ext: ExtNoteName {
            note_name: C,
            accidental: Some(Sharp),
        },
        octave: O5,
    };

    let n2 = prev(&scale, &n1);
    let n3 = prev(&scale, &n2);
    let n4 = prev(&scale, &n3);
    let n5 = prev(&scale, &n4);
    let n6 = prev(&scale, &n5);

    assert_eq!(n2, Pitch::new(B, O4, Some(Flat)));
    assert_eq!(n3, Pitch::new(A, O4, None));
    assert_eq!(n4, Pitch::new(G, O4, Some(Sharp)));
    assert_eq!(n5, Pitch::new(F, O4, Some(Sharp)));
    assert_eq!(n6, Pitch::new(D, O4, Some(Sharp)));
}

#[test]
fn scale_round_trip_on_every_degree() {
    for (t, degrees) in [(Maj, vec![0u8, 2, 4, 5, 7, 9, 11]), (Min, vec![0, 2, 3, 5, 7, 8, 11])] {
        let key = KeySignature {
            ext: ExtNoteName {
                note_name: D,
                accidental: None,
            },
            signature_type: t,
        };
        let scale = BasicScale::new(key);
        let tonic = Pitch::new(D, O4, None);
        let mut p = tonic;
        for _ in 0..14 {
            let rank = (p.value_halftone() + 12 - 2) % 12;
            assert!(degrees.contains(&rank));
            assert_eq!(prev(&scale, &next(&scale, &p)), p);
            assert_eq!(next(&scale, &prev(&scale, &p)), p);
            p = next(&scale, &p);
        }
    }
}

#[test]
fn scale_minor_tonic_round_trip() {
    let key = KeySignature {
        ext: ExtNoteName {
            note_name: C,
            accidental: None,
        },
        signature_type: Min,
    };
    let scale = BasicScale::new(key);
    let c = Pitch::new(C, O5, None);
    let below = prev(&scale, &c);
    assert_eq!(below, Pitch::new(B, O4, None));
    assert_eq!(next(&scale, &below), c);
    assert_eq!(next(&scale, &Pitch::new(B, O4, None)), Pitch::new(C, O5, None));
}

#[test]
fn enharmonic_equivalence() {
    assert_eq!(Pitch::new(C, O4, Some(Flat)), Pitch::new(B, O3, None));
    assert_eq!(Pitch::new(B, O3, Some(Sharp)), Pitch::new(C, O4, None));
    assert_ne!(Pitch::new(C, O4, Some(Flat)), Pitch::new(B, O4, None));
    assert_eq!(Pitch::new(C, O4, Some(Flat)).real_octave(), O3);
    assert_eq!(Pitch::new(B, O3, Some(Sharp)).real_octave(), O4);
    assert_eq!(Pitch::new(C, O4, Some(Flat)).value_halftone(), 11);
    assert_eq!(Pitch::new(A, O3, Some(Sharp)).value_halftone(), 10);
}

#[test]
fn halftone_moves() {
    let mut c = Pitch::new(C, O4, None);
    let mut his = Pitch::new(B, O3, Some(Sharp));
    let mut fes = Pitch::new(F, O4, Some(Flat));
    c.move_halftone_up();
    his.move_halftone_up();
    fes.move_halftone_up();
    assert_eq!(c, Pitch::new(C, O4, Some(Sharp)));
    assert_eq!(his, Pitch::new(C, O4, Some(Sharp)));
    assert_eq!(fes, Pitch::new(F, O4, None));

    let mut c = Pitch::new(C, O4, None);
    let mut ges = Pitch::new(G, O4, Some(Flat));
    c.move_halftone_down();
    ges.move_halftone_down();
    assert_eq!(c, Pitch::new(B, O3, None));
    assert_eq!(ges, Pitch::new(F, O4, None));
    assert_eq!(ges.accidental(), None);
    assert_eq!(ges.note_name(), F);

    let mut e = Pitch::new(E, O4, None);
    e.move_tone_up();
    assert_eq!(e.note_name(), F);
    assert_eq!(e.accidental(), Some(Sharp));
}
