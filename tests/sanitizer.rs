use music_sheet_gen::error::AppError;
use music_sheet_gen::lily::{LilyNote, LilyNoteLength, LilyNoteName, LilyStave, LilySymbol, LilyTime, Lilypond, OctaveRelative};
use music_sheet_gen::notation::{
    Accidental, Chord, Clef, ExtNoteName, KeySignature, KeySignatureType, Note, NoteLength,
    NoteName, Octave, Pitch, Score, Stave, Symbol, TimeSignature,
};
use music_sheet_gen::sanitizer::{LilySanitizer, Sanitizer, ScoreSanitizer};

fn key(n: NoteName, a: Option<Accidental>, t: KeySignatureType) -> Symbol {
    Symbol::KeySignature(KeySignature {
        ext: ExtNoteName {
            note_name: n,
            accidental: a,
        },
        signature_type: t,
    })
}

fn note(n: NoteName, o: Octave, a: Option<Accidental>) -> Symbol {
    Symbol::Note(Note {
        pitch: Pitch::new(n, o, a),
        duration: NoteLength::L4,
    })
}

fn score_of(symbols: Vec<Symbol>) -> Score {
    Score {
        staves: vec![Stave { symbols }],
        ..Default::default()
    }
}

fn pitch_of(sym: &Symbol) -> Pitch {
    match sym {
        Symbol::Note(n) => n.pitch,
        _ => panic!("not a note"),
    }
}

fn same_spelling(p: Pitch, n: NoteName, o: Octave, a: Option<Accidental>) -> bool {
    p.note_name() == n && p.octave == o && p.accidental() == a
}

#[test]
fn sanitize_d_major_prefers_sharps() {
    let score = score_of(vec![
        Symbol::Clef(Clef::Treble),
        key(NoteName::D, None, KeySignatureType::Maj),
        note(NoteName::E, Octave::O4, Some(Accidental::Flat)),
        note(NoteName::F, Octave::O4, None),
    ]);
    let s = score.sanitized().unwrap();
    let syms = &s.staves[0].symbols;
    assert!(same_spelling(pitch_of(&syms[2]), NoteName::D, Octave::O4, Some(Accidental::Sharp)));
    assert!(same_spelling(pitch_of(&syms[3]), NoteName::F, Octave::O4, None));
}

#[test]
fn sanitize_flat_key_and_key_change() {
    let score = score_of(vec![
        key(NoteName::F, None, KeySignatureType::Maj),
        note(NoteName::C, Octave::O4, Some(Accidental::Sharp)),
        key(NoteName::A, None, KeySignatureType::Min),
        note(NoteName::E, Octave::O4, Some(Accidental::Sharp)),
        Symbol::Chord(Chord {
            pitches: vec![
                Pitch::new(NoteName::B, Octave::O4, Some(Accidental::Sharp)),
                Pitch::new(NoteName::D, Octave::O4, Some(Accidental::Flat)),
            ],
            duration: NoteLength::L2,
        }),
    ]);
    let s = score.sanitized().unwrap();
    let syms = &s.staves[0].symbols;
    assert!(same_spelling(pitch_of(&syms[1]), NoteName::D, Octave::O4, Some(Accidental::Flat)));
    assert!(same_spelling(pitch_of(&syms[3]), NoteName::F, Octave::O4, None));
    match &syms[4] {
        Symbol::Chord(c) => {
            assert!(same_spelling(c.pitches[0], NoteName::C, Octave::O5, None));
            assert!(same_spelling(c.pitches[1], NoteName::D, Octave::O4, Some(Accidental::Flat)));
        }
        _ => panic!("chord expected"),
    }
}

#[test]
fn sanitize_missing_key() {
    let score = score_of(vec![Symbol::Clef(Clef::Bass), Symbol::Rest(NoteLength::L4)]);
    assert_eq!(score.sanitized().unwrap_err(), AppError::StaveKeyNotFound);
}

#[test]
fn sanitize_note_before_key() {
    let mut score = score_of(vec![
        note(NoteName::E, Octave::O4, Some(Accidental::Flat)),
        key(NoteName::D, None, KeySignatureType::Maj),
    ]);
    let r = ScoreSanitizer.sanitize(&mut score);
    assert_eq!(r, Err(AppError::FoundNoteWithoutKey));
    assert!(same_spelling(
        pitch_of(&score.staves[0].symbols[0]),
        NoteName::E,
        Octave::O4,
        Some(Accidental::Flat)
    ));
}

#[test]
fn sanitize_leaves_earlier_staves_alone_on_error() {
    let mut score = Score {
        staves: vec![
            Stave {
                symbols: vec![
                    key(NoteName::D, None, KeySignatureType::Maj),
                    note(NoteName::E, Octave::O4, Some(Accidental::Flat)),
                ],
            },
            Stave { symbols: vec![] },
        ],
        ..Default::default()
    };
    assert_eq!(ScoreSanitizer.sanitize(&mut score), Err(AppError::StaveKeyNotFound));
    assert!(same_spelling(
        pitch_of(&score.staves[0].symbols[1]),
        NoteName::E,
        Octave::O4,
        Some(Accidental::Flat)
    ));
}

fn lily_note(length: LilyNoteLength) -> LilySymbol {
    LilySymbol::Note(LilyNote {
        note_name: LilyNoteName::C,
        octave_relative: OctaveRelative::Up(1),
        length,
    })
}

#[test]
fn lily_sanitizer_breaks_after_bars() {
    let mut symbols = vec![LilySymbol::Time(LilyTime::c())];
    for _ in 0..4 {
        symbols.push(lily_note(LilyNoteLength::L1));
    }
    let mut ly = Lilypond {
        version: "2".to_owned(),
        language: "deutsch".to_owned(),
        staves: vec![LilyStave { symbols }],
    };
    let s = LilySanitizer {
        max_line_notes: 45,
        max_line_bars: 2,
    };
    s.sanitize(&mut ly).unwrap();
    let syms = &ly.staves[0].symbols;
    assert_eq!(syms.len(), 7);
    assert_eq!(syms[3], LilySymbol::Break);
    assert_eq!(syms[6], LilySymbol::Break);
}

#[test]
fn lily_sanitizer_breaks_after_notes() {
    let mut symbols = vec![LilySymbol::Time(LilyTime::c())];
    for _ in 0..5 {
        symbols.push(lily_note(LilyNoteLength::L8));
    }
    let mut stave = LilyStave { symbols };
    let s = LilySanitizer {
        max_line_notes: 2,
        max_line_bars: 7,
    };
    s.sanitize_stave(&mut stave).unwrap();
    let breaks: Vec<usize> = stave
        .symbols
        .iter()
        .enumerate()
        .filter(|(_, x)| **x == LilySymbol::Break)
        .map(|(i, _)| i)
        .collect();
    assert_eq!(breaks, vec![3, 6]);
}

#[test]
fn lily_sanitizer_missing_time() {
    let mut ly = Lilypond {
        version: "2".to_owned(),
        language: "deutsch".to_owned(),
        staves: vec![LilyStave {
            symbols: vec![lily_note(LilyNoteLength::L4)],
        }],
    };
    let d = LilySanitizer::default();
    assert_eq!(d.max_line_notes, 45);
    assert_eq!(d.max_line_bars, 7);
    assert_eq!(d.sanitize(&mut ly), Err(AppError::MissingTimeSignature));
    assert_eq!(ly.staves[0].symbols.len(), 1);
}

#[test]
fn lilypond_from_score() {
    let score = score_of(vec![
        Symbol::Clef(Clef::Treble),
        key(NoteName::D, None, KeySignatureType::Maj),
        Symbol::TimeSignature(TimeSignature::c()),
        note(NoteName::F, Octave::O4, Some(Accidental::Sharp)),
    ]);
    let ly = Lilypond::from(&score);
    assert_eq!(ly.version, "2.25.20");
    assert_eq!(ly.language, "deutsch");
    assert_eq!(
        ly.staves[0].to_string(),
        "\n\\new Staff { \\clef treble \\key d \\major \\time 4/4 fis'4 }\n"
    );
}
