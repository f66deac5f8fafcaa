use capo::chord::{Chord, InvalidChordName};

const ALL: [Chord; 12] = [
    Chord::C,
    Chord::Db,
    Chord::D,
    Chord::Eb,
    Chord::E,
    Chord::F,
    Chord::Gb,
    Chord::G,
    Chord::Ab,
    Chord::A,
    Chord::Bb,
    Chord::B,
];

const NAMES: [&str; 12] = ["C", "Db", "D", "Eb", "E", "F", "Gb", "G", "Ab", "A", "Bb", "B"];

#[test]
fn names_are_the_flat_spellings() {
    for (chord, name) in ALL.iter().zip(NAMES.iter()) {
        assert_eq!(chord.to_str(), *name);
    }
}

#[test]
fn every_name_reads_back_as_its_chord() {
    for (chord, name) in ALL.iter().zip(NAMES.iter()) {
        assert_eq!(Chord::from_str(name), Ok(*chord));
        assert_eq!(Chord::from_str(chord.to_str()), Ok(*chord));
    }
}

#[test]
fn name_of_a_read_name_is_that_name() {
    for name in NAMES.iter() {
        let chord = Chord::from_str(name).unwrap();
        assert_eq!(chord.to_str(), *name);
    }
}

#[test]
fn sharps_read_as_the_flat_above() {
    assert_eq!(Chord::from_str("C#"), Ok(Chord::Db));
    assert_eq!(Chord::from_str("D#"), Ok(Chord::Eb));
    assert_eq!(Chord::from_str("F#"), Ok(Chord::Gb));
    assert_eq!(Chord::from_str("G#"), Ok(Chord::Ab));
    assert_eq!(Chord::from_str("A#"), Ok(Chord::Bb));
}

#[test]
fn sharp_and_flat_spellings_agree() {
    assert_eq!(Chord::from_str("C#"), Chord::from_str("Db"));
    assert_eq!(Chord::from_str("D#"), Chord::from_str("Eb"));
    assert_eq!(Chord::from_str("F#"), Chord::from_str("Gb"));
    assert_eq!(Chord::from_str("G#"), Chord::from_str("Ab"));
    assert_eq!(Chord::from_str("A#"), Chord::from_str("Bb"));
}

#[test]
fn sharp_spelling_is_not_the_name() {
    assert_eq!(Chord::from_str("C#").unwrap().to_str(), "Db");
    assert_eq!(Chord::from_str("A#").unwrap().to_str(), "Bb");
}

#[test]
fn unknown_name_is_rejected_with_the_name() {
    assert_eq!(
        Chord::from_str("H"),
        Err(InvalidChordName { name: String::from("H") })
    );
}

#[test]
fn rejection_message_holds_the_name() {
    let error = Chord::from_str("H").unwrap_err();
    assert_eq!(error.name, "H");
    assert_eq!(error.message(), "Unknown chord: H");
}

#[test]
fn near_misses_are_rejected() {
    let rejected = [
        "", " ", "c", "db", "DB", "Cb", "Fb", "E#", "B#", "H", "C ", " C", "C##", "Dbb", "Do",
        "b", "#", "#C", "bD", "Cm", "C7", "É", "D♭", "C♯", "CC",
    ];
    for name in rejected.iter() {
        let result = Chord::from_str(name);
        assert_eq!(result, Err(InvalidChordName { name: String::from(*name) }));
    }
}

#[test]
fn names_are_case_sensitive() {
    assert!(Chord::from_str("a").is_err());
    assert!(Chord::from_str("bb").is_err());
    assert!(Chord::from_str("BB").is_err());
    assert_eq!(Chord::from_str("Bb"), Ok(Chord::Bb));
}

#[test]
fn positions_run_from_c_to_b() {
    for (position, chord) in ALL.iter().enumerate() {
        assert_eq!(usize::from(chord.to_u8()), position);
    }
}

#[test]
fn position_and_chord_correspond() {
    for (position, chord) in (0u8..12u8).zip(ALL.iter()) {
        assert_eq!(Chord::from_u8(position), *chord);
        assert_eq!(Chord::from_u8(chord.to_u8()), *chord);
        assert_eq!(Chord::from_u8(position).to_u8(), position);
    }
}

#[test]
fn advancing_by_no_fret_changes_nothing() {
    for chord in ALL.iter() {
        assert_eq!(chord.advance_frets(0), *chord);
    }
}

#[test]
fn advancing_by_twelve_frets_leads_back() {
    for chord in ALL.iter() {
        assert_eq!(chord.advance_frets(12), *chord);
        assert_eq!(chord.advance_frets(24), *chord);
        assert_eq!(chord.advance_frets(252), *chord);
    }
}

#[test]
fn advancing_twice_adds_the_frets() {
    for chord in ALL.iter() {
        for a in 0u8..=127u8 {
            for b in 0u8..=127u8 {
                assert_eq!(chord.advance_frets(a).advance_frets(b), chord.advance_frets(a + b));
            }
        }
    }
}

#[test]
fn advancing_goes_up_the_scale() {
    assert_eq!(Chord::C.advance_frets(1), Chord::Db);
    assert_eq!(Chord::F.advance_frets(1), Chord::Gb);
    assert_eq!(Chord::F.advance_frets(2), Chord::G);
    assert_eq!(Chord::A.advance_frets(3), Chord::C);
    assert_eq!(Chord::B.advance_frets(1), Chord::C);
    assert_eq!(Chord::Db.advance_frets(11), Chord::C);
}

#[test]
fn large_fret_counts_wrap() {
    // 255 = 21 * 12 + 3
    assert_eq!(Chord::C.advance_frets(255), Chord::Eb);
    assert_eq!(Chord::B.advance_frets(255), Chord::D);
    assert_eq!(Chord::Bb.advance_frets(250), Chord::Ab);
    for chord in ALL.iter() {
        for frets in 0u8..=255u8 {
            assert_eq!(chord.advance_frets(frets), chord.advance_frets(frets % 12));
            let position: u16 = (u16::from(chord.to_u8()) + u16::from(frets)) % 12;
            assert_eq!(u16::from(chord.advance_frets(frets).to_u8()), position);
        }
    }
}

#[test]
fn six_chords_are_open_and_six_need_a_barre() {
    assert!(!Chord::C.is_barre_chord());
    assert!(!Chord::D.is_barre_chord());
    assert!(!Chord::Eb.is_barre_chord());
    assert!(!Chord::E.is_barre_chord());
    assert!(!Chord::G.is_barre_chord());
    assert!(!Chord::A.is_barre_chord());
    assert!(Chord::Db.is_barre_chord());
    assert!(Chord::F.is_barre_chord());
    assert!(Chord::Gb.is_barre_chord());
    assert!(Chord::Ab.is_barre_chord());
    assert!(Chord::Bb.is_barre_chord());
    assert!(Chord::B.is_barre_chord());
}
