use midilab::music::ChordRowSequence;
use midilab::music::ChordVoicing;
use midilab::music::Octave;
use midilab::music::Pitch;
use midilab::music::PitchClass;
use midilab::music::ScaleKind;
use midilab::music::ScaleSequence;
use midilab::music::SequenceDirection;

#[test]
fn music_test_default_scale_sequence() {
    let ss = ScaleSequence::default();
    let notes = ss.as_midi_notes();

    assert_eq!(notes.len(), 64);
    assert_eq!(notes[0], 60);
    assert_eq!(notes[63], 123);
}

#[test]
fn music_test_major_scale_c4_16_notes() {
    let ss = ScaleSequence {
        tonic: PitchClass::C,
        scale: ScaleKind::Major,
        direction: SequenceDirection::Ascending,
        octave: Octave::O4,
        length: 16,
    };
    let notes: Vec<u8> = ss.as_midi_notes();

    assert_eq!(
        notes,
        vec![
            60, 62, 64, 65, 67, 69, 71, 72, 74, 76, 77, 79, 81, 83, 84, 86
        ]
    );
}

#[test]
fn music_test_natural_minor_a4_16_notes() {
    let ss = ScaleSequence {
        tonic: PitchClass::A,
        scale: ScaleKind::NaturalMinor,
        direction: SequenceDirection::Ascending,
        octave: Octave::O4,
        length: 16,
    };
    let notes = ss.as_midi_notes();

    assert_eq!(
        notes,
        vec![
            69, 71, 72, 74, 76, 77, 79, 81, 83, 84, 86, 88, 89, 91, 93, 95
        ]
    );
}

#[test]
fn music_test_descending_major_c5_16_notes() {
    let ss = ScaleSequence {
        tonic: PitchClass::C,
        scale: ScaleKind::Major,
        direction: SequenceDirection::Descending,
        octave: Octave::O5,
        length: 16,
    };
    let notes = ss.as_midi_notes();

    assert_eq!(
        notes,
        vec![
            72, 71, 69, 67, 65, 64, 62, 60, 59, 57, 55, 53, 52, 50, 48, 47
        ]
    );
}

#[test]
fn music_test_major_pentatonic_c4_16_notes() {
    let ss = ScaleSequence {
        tonic: PitchClass::C,
        scale: ScaleKind::MajorPentatonic,
        direction: SequenceDirection::Ascending,
        octave: Octave::O4,
        length: 16,
    };
    let notes = ss.as_midi_notes();

    assert_eq!(
        notes,
        vec![
            60, 62, 64, 67, 69, 72, 74, 76, 79, 81, 84, 86, 88, 91, 93, 96
        ]
    );
}

#[test]
fn music_test_chromatic_c4_16_notes() {
    let ss = ScaleSequence {
        tonic: PitchClass::C,
        scale: ScaleKind::Chromatic,
        direction: SequenceDirection::Ascending,
        octave: Octave::O4,
        length: 16,
    };
    let notes = ss.as_midi_notes();

    assert_eq!(
        notes,
        vec![
            60, 61, 62, 63, 64, 65, 66, 67, 68, 69, 70, 71, 72, 73, 74, 75
        ]
    );
}

#[test]
fn music_test_pitch_class_add_semitones() {
    assert_eq!(PitchClass::C.add_semitones(0), PitchClass::C);
    assert_eq!(PitchClass::C.add_semitones(1), PitchClass::Cs);
    assert_eq!(PitchClass::C.add_semitones(12), PitchClass::C);
    assert_eq!(PitchClass::B.add_semitones(1), PitchClass::C);
    assert_eq!(PitchClass::G.add_semitones(5), PitchClass::C);
}

#[test]
fn music_test_pitch_classes_from_tonic() {
    let c_major = ScaleKind::Major.pitch_classes_from_tonic(&PitchClass::C);
    assert_eq!(
        c_major,
        vec![
            PitchClass::C,
            PitchClass::D,
            PitchClass::E,
            PitchClass::F,
            PitchClass::G,
            PitchClass::A,
            PitchClass::B,
        ]
    );
}

#[test]
fn music_test_chord_row_c_major_seventh() {
    let seq = ChordRowSequence {
        tonic: PitchClass::C,
        scale: ScaleKind::Major,
        octave: Octave::O4,
        voicing: ChordVoicing::Seventh,
        direction: SequenceDirection::Ascending,
        length: 8,
    };
    let notes = seq.as_midi_notes();
    // Cmaj7: C4(60), E4(64), G4(67), B4(71)
    // Dm7:   D4(62), F4(65), A4(69), C5(72)
    assert_eq!(notes, vec![60, 64, 67, 71, 62, 65, 69, 72]);
}

#[test]
fn music_test_chord_row_c_major_triad() {
    let seq = ChordRowSequence {
        tonic: PitchClass::C,
        scale: ScaleKind::Major,
        octave: Octave::O4,
        voicing: ChordVoicing::Triad,
        direction: SequenceDirection::Ascending,
        length: 8,
    };
    let notes = seq.as_midi_notes();
    // C triad + root octave: C4(60), E4(64), G4(67), C5(72)
    // D triad + root octave: D4(62), F4(65), A4(69), D5(74)
    assert_eq!(notes, vec![60, 64, 67, 72, 62, 65, 69, 74]);
}

#[test]
fn music_test_chord_row_saturates() {
    let seq = ChordRowSequence {
        tonic: PitchClass::C,
        scale: ScaleKind::Major,
        octave: Octave::O9,
        voicing: ChordVoicing::Seventh,
        direction: SequenceDirection::Ascending,
        length: 16,
    };
    let notes = seq.as_midi_notes();
    assert_eq!(notes.len(), 16);
    // Should not panic and all notes should be <= 127
    for &n in &notes {
        assert!(n <= 127);
    }
}

#[test]
fn music_test_chord_row_inversion1() {
    let seq = ChordRowSequence {
        tonic: PitchClass::C,
        scale: ScaleKind::Major,
        octave: Octave::O4,
        voicing: ChordVoicing::Inversion1,
        direction: SequenceDirection::Ascending,
        length: 8,
    };
    let notes = seq.as_midi_notes();
    assert_eq!(notes, vec![64, 67, 71, 72, 65, 69, 72, 74]);
}

#[test]
fn music_test_chord_row_inversion2() {
    let seq = ChordRowSequence {
        tonic: PitchClass::C,
        scale: ScaleKind::Major,
        octave: Octave::O4,
        voicing: ChordVoicing::Inversion2,
        direction: SequenceDirection::Ascending,
        length: 8,
    };
    let notes = seq.as_midi_notes();
    assert_eq!(notes, vec![67, 71, 72, 76, 69, 72, 74, 77]);
}

#[test]
fn music_test_chord_row_inversion3() {
    let seq = ChordRowSequence {
        tonic: PitchClass::C,
        scale: ScaleKind::Major,
        octave: Octave::O4,
        voicing: ChordVoicing::Inversion3,
        direction: SequenceDirection::Ascending,
        length: 8,
    };
    let notes = seq.as_midi_notes();
    assert_eq!(notes, vec![71, 72, 76, 79, 72, 74, 77, 81]);
}

#[test]
fn music_test_chord_row_drop2() {
    let seq = ChordRowSequence {
        tonic: PitchClass::C,
        scale: ScaleKind::Major,
        octave: Octave::O4,
        voicing: ChordVoicing::Drop2,
        direction: SequenceDirection::Ascending,
        length: 8,
    };
    let notes = seq.as_midi_notes();
    assert_eq!(notes, vec![55, 60, 64, 71, 57, 62, 65, 72]);
}

#[test]
fn music_test_chord_row_quartal() {
    let seq = ChordRowSequence {
        tonic: PitchClass::C,
        scale: ScaleKind::Major,
        octave: Octave::O4,
        voicing: ChordVoicing::Quartal,
        direction: SequenceDirection::Ascending,
        length: 8,
    };
    let notes = seq.as_midi_notes();
    assert_eq!(notes, vec![60, 65, 71, 76, 62, 67, 72, 77]);
}

#[test]
fn music_test_chord_row_shell() {
    let seq = ChordRowSequence {
        tonic: PitchClass::C,
        scale: ScaleKind::Major,
        octave: Octave::O4,
        voicing: ChordVoicing::Shell,
        direction: SequenceDirection::Ascending,
        length: 8,
    };
    let notes = seq.as_midi_notes();
    assert_eq!(notes, vec![60, 64, 71, 72, 62, 65, 72, 74]);
}

#[test]
fn music_test_chord_row_power() {
    let seq = ChordRowSequence {
        tonic: PitchClass::C,
        scale: ScaleKind::Major,
        octave: Octave::O4,
        voicing: ChordVoicing::Power,
        direction: SequenceDirection::Ascending,
        length: 8,
    };
    let notes = seq.as_midi_notes();
    assert_eq!(notes, vec![60, 67, 72, 79, 62, 69, 74, 81]);
}

#[test]
fn music_test_chord_row_add9() {
    let seq = ChordRowSequence {
        tonic: PitchClass::C,
        scale: ScaleKind::Major,
        octave: Octave::O4,
        voicing: ChordVoicing::Add9,
        direction: SequenceDirection::Ascending,
        length: 8,
    };
    let notes = seq.as_midi_notes();
    assert_eq!(notes, vec![60, 64, 67, 74, 62, 65, 69, 76]);
}

#[test]
fn music_test_chord_row_ninth_no5() {
    let seq = ChordRowSequence {
        tonic: PitchClass::C,
        scale: ScaleKind::Major,
        octave: Octave::O4,
        voicing: ChordVoicing::NinthNo5,
        direction: SequenceDirection::Ascending,
        length: 8,
    };
    let notes = seq.as_midi_notes();
    assert_eq!(notes, vec![60, 64, 71, 74, 62, 65, 72, 76]);
}

#[test]
fn music_test_different_octaves() {
    let o2 = ScaleSequence {
        tonic: PitchClass::C,
        scale: ScaleKind::Chromatic,
        direction: SequenceDirection::Ascending,
        octave: Octave::O2,
        length: 1,
    };
    let o6 = ScaleSequence {
        tonic: PitchClass::C,
        scale: ScaleKind::Chromatic,
        direction: SequenceDirection::Ascending,
        octave: Octave::O6,
        length: 1,
    };

    assert_eq!(o2.as_midi_notes()[0], 36);
    assert_eq!(o6.as_midi_notes()[0], 84);
}

#[test]
fn music_test_negative_octaves_no_overflow() {
    // Osub1: 12 * (-1 + 1) + 0 = 0
    assert_eq!(
        Pitch {
            class: PitchClass::C,
            octave: Octave::Osub1
        }
        .as_midi_note(),
        0
    );
    // Osub1: C# = 1
    assert_eq!(
        Pitch {
            class: PitchClass::Cs,
            octave: Octave::Osub1
        }
        .as_midi_note(),
        1
    );
    // Osub2: 12 * (-2 + 1) + 0 = -12 → clamps to 0
    assert_eq!(
        Pitch {
            class: PitchClass::C,
            octave: Octave::Osub2
        }
        .as_midi_note(),
        0
    );
    // Osub2: B = 11 → 12 * (-1) + 11 = -1 → clamps to 0
    assert_eq!(
        Pitch {
            class: PitchClass::B,
            octave: Octave::Osub2
        }
        .as_midi_note(),
        0
    );
}

#[test]
fn chord_row_notes_come_from_scale_walk() {
    let row = ChordRowSequence::default();
    let walk = ScaleSequence {
        tonic: row.tonic,
        scale: row.scale,
        direction: row.direction,
        octave: row.octave,
        length: row.length / 4 + 12,
    }
    .as_pitches();
    let row_pitches = row.as_pitches();
    let offsets = [0usize, 2, 4, 6];
    for k in 0..row.length {
        assert_eq!(row_pitches[k], walk[k / 4 + offsets[k % 4]]);
    }
}
