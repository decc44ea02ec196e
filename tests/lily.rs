use music_sheet_gen::lily::{
    LilyClef, LilyKey, LilyKeyType, LilyNote, LilyNoteLength, LilyNoteName, LilyStave, LilySymbol,
    LilyTime, Lilypond, OctaveRelative,
};
use music_sheet_gen::lily::LilyNoteName::{A, C, D, E, Fis, G, H};
use music_sheet_gen::lily::LilyTempo;
use music_sheet_gen::notation::{
    Accidental, ExtNoteName, KeySignature, KeySignatureType, Note, NoteLength, NoteName, Octave,
    Pitch,
};

fn stave_d_maj() -> (LilyStave, &'static str) {
    let d_maj_def = [
        LilySymbol::Clef(LilyClef::Treble),
        LilySymbol::Key(LilyKey {
            note: D,
            key_type: LilyKeyType::Major,
        }),
    ];
    let d_maj_notes = [D, E, Fis, G, A, H, C].iter().map(|n| {
        LilySymbol::Note(LilyNote {
            note_name: *n,
            octave_relative: OctaveRelative::Up(1),
            length: LilyNoteLength::L4,
        })
    });
    let d_maj = LilyStave {
        symbols: d_maj_def.iter().cloned().chain(d_maj_notes).collect(),
    };

    (
        d_maj,
        "\\new Staff { \\clef treble \\key d \\major d'4 e'4 fis'4 g'4 a'4 h'4 c'4 }",
    )
}

#[test]
fn to_string_octave_relative_up() {
    assert_eq!(OctaveRelative::Up(0).to_string(), "");
    assert_eq!(OctaveRelative::Up(1).to_string(), "'");
    assert_eq!(OctaveRelative::Up(3).to_string(), "'''");
    assert_eq!(OctaveRelative::Up(5).to_string(), "'''''");
}

#[test]
fn to_string_octave_relative_down() {
    assert_eq!(OctaveRelative::Down(0).to_string(), "");
    assert_eq!(OctaveRelative::Down(1).to_string(), ",");
    assert_eq!(OctaveRelative::Down(3).to_string(), ",,,");
    assert_eq!(OctaveRelative::Down(5).to_string(), ",,,,,");
}

#[test]
fn to_string_clef() {
    assert_eq!(LilyClef::Treble.to_string(), "\\clef treble");
    assert_eq!(LilyClef::Bass.to_string(), "\\clef bass");
}

#[test]
fn to_string_key() {
    assert_eq!(
        LilyKey {
            note: LilyNoteName::Cis,
            key_type: LilyKeyType::Major
        }
        .to_string(),
        "\\key cis \\major"
    );

    assert_eq!(
        LilyKey {
            note: LilyNoteName::A,
            key_type: LilyKeyType::Minor
        }
        .to_string(),
        "\\key a \\minor"
    );
}

#[test]
fn to_string_time() {
    assert_eq!(
        LilyTime {
            nom: 3,
            denom: LilyNoteLength::L4
        }
        .to_string(),
        "\\time 3/4"
    );

    assert_eq!(
        LilyTime {
            nom: 6,
            denom: LilyNoteLength::L8
        }
        .to_string(),
        "\\time 6/8"
    );
}

fn key(note_name: NoteName, accidental: Option<Accidental>, t: KeySignatureType) -> KeySignature {
    KeySignature {
        ext: ExtNoteName {
            note_name,
            accidental,
        },
        signature_type: t,
    }
}

#[test]
fn key_into_lily() {
    assert_eq!(
        LilyKey::from(key(NoteName::G, None, KeySignatureType::Maj)),
        LilyKey {
            note: LilyNoteName::G,
            key_type: LilyKeyType::Major
        }
    );
    assert_eq!(
        LilyKey::from(key(
            NoteName::F,
            Some(Accidental::Sharp),
            KeySignatureType::Min
        )),
        LilyKey {
            note: LilyNoteName::Fis,
            key_type: LilyKeyType::Minor
        }
    );
    assert_eq!(
        LilyKey::from(key(
            NoteName::B,
            Some(Accidental::Flat),
            KeySignatureType::Maj
        )),
        LilyKey {
            note: LilyNoteName::Hes,
            key_type: LilyKeyType::Major
        }
    );
}

#[test]
fn lily_note_to_string() {
    assert_eq!(
        LilyNote {
            note_name: LilyNoteName::Des,
            octave_relative: OctaveRelative::Up(2),
            length: LilyNoteLength::L8,
        }
        .to_string(),
        "des''8"
    );

    assert_eq!(
        LilyNote {
            note_name: LilyNoteName::C,
            octave_relative: OctaveRelative::Down(1),
            length: LilyNoteLength::L1,
        }
        .to_string(),
        "c,1"
    );
}

#[test]
fn lily_stave_to_string() {
    let (d_maj, d_maj_str) = stave_d_maj();
    assert_eq!(d_maj.to_string().trim(), d_maj_str);
}

#[test]
fn lily_symbol_to_string() {
    let key_c_major = LilyKey {
        note: LilyNoteName::C,
        key_type: LilyKeyType::Major,
    };
    let note_c1_4 = LilyNote {
        note_name: LilyNoteName::C,
        octave_relative: OctaveRelative::Up(1),
        length: LilyNoteLength::L4,
    };

    assert_eq!(
        LilySymbol::Clef(LilyClef::Treble).to_string(),
        LilyClef::Treble.to_string()
    );
    assert_eq!(
        LilySymbol::Key(key_c_major).to_string(),
        key_c_major.to_string()
    );
    assert_eq!(LilySymbol::Time(LilyTime::c()).to_string(), "\\time 4/4");
    assert_eq!(
        LilySymbol::Note(note_c1_4).to_string(),
        note_c1_4.to_string()
    );
}

#[test]
fn lilypond_to_string() {
    let (d_maj, _) = stave_d_maj();
    let lilypond = Lilypond {
        version: "1.2.3".to_owned(),
        language: "english".to_owned(),
        staves: vec![d_maj.clone(), d_maj.clone()],
    };
    let d = d_maj.to_string();

    assert_eq!(
        lilypond.to_string().trim(),
        format!("\\version \"1.2.3\"\n\\language \"english\"\n\\score{{{d}{d}\\layout{{}}\\midi{{}}}}")
    );
}

#[test]
fn lily_tempo_and_break_text() {
    let tempo = LilyTempo {
        note_length: LilyNoteLength::L4,
        speed: 100,
    };
    assert_eq!(tempo.to_string(), "\\tempo 4 = 100");
    assert_eq!(LilySymbol::Break.to_string(), "\\break");
    assert_eq!(LilyNoteLength::L128.to_string(), "128");
}

#[test]
fn lily_note_from_pitch_spelling() {
    let note = Note {
        pitch: Pitch::new(NoteName::E, Octave::O5, Some(Accidental::Flat)),
        duration: NoteLength::L16,
    };
    assert_eq!(LilyNote::from(note).to_string(), "es''16");
    let low = Note {
        pitch: Pitch::new(NoteName::B, Octave::O0, None),
        duration: NoteLength::L2,
    };
    assert_eq!(LilyNote::from(low).to_string(), "h,,,2");
}
