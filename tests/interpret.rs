use music_sheet_gen::lsystem::interpret::{Interpret, MusicIntInfo, MusicInterpret, ScaleType};
use music_sheet_gen::notation::{
    Accidental, Clef, ExtNoteName, KeySignature, KeySignatureType, Note, NoteLength, NoteName,
    Octave, Pitch, Symbol,
};

fn notes_of(word: &str, info: MusicIntInfo) -> Vec<Note> {
    let score = MusicInterpret::new(info).translate(word);
    assert_eq!(score.staves.len(), 1);
    let syms = &score.staves[0].symbols;
    assert!(matches!(syms[0], Symbol::Clef(Clef::Treble)));
    assert!(matches!(syms[1], Symbol::KeySignature(_)));
    assert!(matches!(syms[2], Symbol::Tempo(_)));
    assert!(matches!(syms[3], Symbol::TimeSignature(_)));
    syms[4..]
        .iter()
        .map(|s| match s {
            Symbol::Note(n) => *n,
            _ => panic!("note expected"),
        })
        .collect()
}

#[test]
fn interpreter_stack_discipline() {
    let notes = notes_of("F[F+F]F", MusicIntInfo::default());
    assert_eq!(notes.len(), 4);
    assert_eq!(notes[1].pitch, notes[3].pitch);
    assert_eq!(notes[0].pitch, Pitch::new(NoteName::C, Octave::O4, None));
    assert_eq!(notes[2].pitch, Pitch::new(NoteName::D, Octave::O4, None));
}

#[test]
fn interpreter_moves_and_durations() {
    let notes = notes_of("F-FdF+dFddddddddF", MusicIntInfo::default());
    assert_eq!(notes[0].pitch, Pitch::new(NoteName::C, Octave::O4, None));
    assert_eq!(notes[1].pitch, Pitch::new(NoteName::B, Octave::O3, None));
    assert_eq!(notes[2].duration, NoteLength::L2);
    assert_eq!(notes[3].pitch, Pitch::new(NoteName::C, Octave::O4, None));
    assert_eq!(notes[3].duration, NoteLength::L4);
    assert_eq!(notes[4].duration, NoteLength::L128);
}

#[test]
fn interpreter_jazz_scale() {
    let info = MusicIntInfo {
        key_signature: KeySignature {
            ext: ExtNoteName {
                note_name: NoteName::C,
                accidental: Some(Accidental::Sharp),
            },
            signature_type: KeySignatureType::Maj,
        },
        first_note: Note {
            pitch: Pitch::new(NoteName::C, Octave::O4, Some(Accidental::Sharp)),
            duration: NoteLength::L4,
        },
        scale_type: ScaleType::JazzLike,
        ..MusicIntInfo::default()
    };
    let notes = notes_of("+F+F", info);
    assert_eq!(notes[0].pitch, Pitch::new(NoteName::D, Octave::O4, Some(Accidental::Sharp)));
    assert_eq!(notes[1].pitch, Pitch::new(NoteName::F, Octave::O4, Some(Accidental::Sharp)));
}

#[test]
fn interpreter_empty_word() {
    let notes = notes_of("", MusicIntInfo::default());
    assert!(notes.is_empty());
}

#[test]
fn interpreter_checked_entry() {
    let m = MusicInterpret::new(MusicIntInfo::default());
    assert!(m.is_defined("F[F+F]F"));
    assert!(m.try_translate("F[F+F]F").is_some());
    assert!(m.try_translate("FxF").is_none());
    assert!(m.try_translate("F]").is_none());
    assert!(!m.is_defined("F]["));
    let high = MusicIntInfo {
        first_note: Note {
            pitch: Pitch::new(NoteName::A, Octave::O9, None),
            duration: NoteLength::L4,
        },
        ..MusicIntInfo::default()
    };
    let m = MusicInterpret::new(high);
    assert!(m.try_translate("F+F").is_some());
    assert!(m.try_translate("F++F").is_some());
    assert!(m.try_translate("F+++F").is_none());
}

#[test]
fn jazz_scale_minor_key_is_undefined() {
    let info = MusicIntInfo {
        key_signature: KeySignature {
            ext: ExtNoteName {
                note_name: NoteName::A,
                accidental: None,
            },
            signature_type: KeySignatureType::Min,
        },
        scale_type: ScaleType::JazzLike,
        ..MusicIntInfo::default()
    };
    let m = MusicInterpret::new(info);
    assert!(m.try_translate("FdF[F]").is_some());
    assert!(m.try_translate("F+F").is_none());
}
