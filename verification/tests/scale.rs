use midilab::midi::Note;
use midilab::scale::ChordRowSequence;
use midilab::scale::ChordVoicing;
use midilab::scale::IntervalRowSequence;
use midilab::scale::Octave;
use midilab::scale::OctaveRowSequence;
use midilab::scale::PitchClass;
use midilab::scale::ScaleKind;
use midilab::scale::ScaleSequence;
use midilab::scale::SequenceDirection;

#[test]
fn scale_test_default_scale_sequence() {
    let ss = ScaleSequence::default();
    let notes = ss.as_midi_notes();

    assert_eq!(notes.len(), 64);
    assert_eq!(notes[0], 60);
    assert_eq!(notes[63], 123);
}

#[test]
fn scale_test_major_scale_c4_16_notes() {
    let ss = ScaleSequence {
        tonic: PitchClass::C,
        scale: ScaleKind::Major,
        direction: SequenceDirection::Ascending,
        octave: Octave::O4,
        length: 16,
    };
    let notes = ss.as_midi_notes();

    assert_eq!(
        notes,
        vec![
            60, 62, 64, 65, 67, 69, 71, 73, 75, 76, 78, 80, 82, 84, 86, 87
        ]
    );
}

#[test]
fn scale_test_natural_minor_a4_16_notes() {
    let ss = ScaleSequence {
        tonic: PitchClass::A,
        scale: ScaleKind::NaturalMinor,
        direction: SequenceDirection::Ascending,
        octave: Octave::O4,
        length: 16,
    };
    let notes = ss.as_midi_notes();

    assert_eq!(
        notes,
        vec![
            69, 71, 72, 74, 76, 77, 79, 81, 82, 84, 86, 87, 89, 91, 92, 94
        ]
    );
}

#[test]
fn scale_test_descending_major_c5_16_notes() {
    let ss = ScaleSequence {
        tonic: PitchClass::C,
        scale: ScaleKind::Major,
        direction: SequenceDirection::Descending,
        octave: Octave::O5,
        length: 16,
    };
    let notes = ss.as_midi_notes();

    assert_eq!(
        notes,
        vec![
            72, 70, 68, 67, 65, 63, 61, 59, 57, 56, 54, 52, 50, 48, 46, 45
        ]
    );
}

#[test]
fn scale_test_major_pentatonic_c4_16_notes() {
    let ss = ScaleSequence {
        tonic: PitchClass::C,
        scale: ScaleKind::MajorPentatonic,
        direction: SequenceDirection::Ascending,
        octave: Octave::O4,
        length: 16,
    };
    let notes = ss.as_midi_notes();

    assert_eq!(
        notes,
        vec![
            60, 62, 64, 67, 69, 71, 73, 76, 78, 80, 82, 85, 87, 89, 91, 94
        ]
    );
}

#[test]
fn scale_test_chromatic_c4_16_notes() {
    let ss = ScaleSequence {
        tonic: PitchClass::C,
        scale: ScaleKind::Chromatic,
        direction: SequenceDirection::Ascending,
        octave: Octave::O4,
        length: 16,
    };
    let notes = ss.as_midi_notes();

    assert_eq!(
        notes,
        vec![
            60, 61, 62, 63, 64, 65, 66, 67, 68, 69, 70, 71, 72, 73, 74, 75
        ]
    );
}

#[test]
fn scale_test_pitch_class_add_semitones() {
    assert_eq!(PitchClass::C.add_semitones(0), PitchClass::C);
    assert_eq!(PitchClass::C.add_semitones(1), PitchClass::Cs);
    assert_eq!(PitchClass::C.add_semitones(12), PitchClass::C);
    assert_eq!(PitchClass::B.add_semitones(1), PitchClass::C);
    assert_eq!(PitchClass::G.add_semitones(5), PitchClass::C);
}

#[test]
fn scale_test_pitch_classes_from_tonic() {
    let c_major = ScaleKind::Major.pitch_classes_from_tonic(&PitchClass::C);
    assert_eq!(
        c_major,
        vec![
            PitchClass::C,
            PitchClass::D,
            PitchClass::E,
            PitchClass::F,
            PitchClass::G,
            PitchClass::A,
            PitchClass::B,
        ]
    );
}

#[test]
fn test_interval_row_fourths() {
    let seq = IntervalRowSequence {
        base_note: Note::N60,
        interval: 5,
        direction: SequenceDirection::Ascending,
        length: 16,
    };
    let notes = seq.as_midi_notes();
    assert_eq!(
        notes,
        vec![
            60, 60, 60, 60, 65, 65, 65, 65, 70, 70, 70, 70, 75, 75, 75, 75
        ]
    );
}

#[test]
fn test_interval_row_saturates() {
    let seq = IntervalRowSequence {
        base_note: Note::N120,
        interval: 5,
        direction: SequenceDirection::Ascending,
        length: 16,
    };
    let notes = seq.as_midi_notes();
    assert_eq!(notes.len(), 16);
    assert_eq!(&notes[0..4], &[120, 120, 120, 120]);
    assert_eq!(&notes[4..8], &[125, 125, 125, 125]);
    // 130 > 127 so saturates at 125
    assert_eq!(&notes[8..12], &[125, 125, 125, 125]);
    assert_eq!(&notes[12..16], &[125, 125, 125, 125]);
}

#[test]
fn test_interval_row_octave_matches_octave_row() {
    let interval_seq = IntervalRowSequence {
        base_note: Note::N36,
        interval: 12,
        direction: SequenceDirection::Ascending,
        length: 64,
    };
    let octave_seq = OctaveRowSequence {
        base_note: Note::N36,
        direction: SequenceDirection::Ascending,
        length: 64,
    };
    assert_eq!(interval_seq.as_midi_notes(), octave_seq.as_midi_notes());
}

#[test]
fn scale_test_chord_row_c_major_seventh() {
    let seq = ChordRowSequence {
        tonic: PitchClass::C,
        scale: ScaleKind::Major,
        octave: Octave::O4,
        voicing: ChordVoicing::Seventh,
        direction: SequenceDirection::Ascending,
        length: 8,
    };
    let notes = seq.as_midi_notes();
    // Cmaj7: C4(60), E4(64), G4(67), B4(71)
    // Dm7:   D4(62), F4(65), A4(69), C5(72)
    assert_eq!(notes, vec![60, 64, 67, 71, 62, 65, 69, 72]);
}

#[test]
fn scale_test_chord_row_c_major_triad() {
    let seq = ChordRowSequence {
        tonic: PitchClass::C,
        scale: ScaleKind::Major,
        octave: Octave::O4,
        voicing: ChordVoicing::Triad,
        direction: SequenceDirection::Ascending,
        length: 8,
    };
    let notes = seq.as_midi_notes();
    // C triad + root octave: C4(60), E4(64), G4(67), C5(72)
    // D triad + root octave: D4(62), F4(65), A4(69), D5(74)
    assert_eq!(notes, vec![60, 64, 67, 72, 62, 65, 69, 74]);
}

#[test]
fn scale_test_chord_row_saturates() {
    let seq = ChordRowSequence {
        tonic: PitchClass::C,
        scale: ScaleKind::Major,
        octave: Octave::O9,
        voicing: ChordVoicing::Seventh,
        direction: SequenceDirection::Ascending,
        length: 16,
    };
    let notes = seq.as_midi_notes();
    assert_eq!(notes.len(), 16);
    // Should not panic and all notes should be <= 127
    for &n in &notes {
        assert!(n <= 127);
    }
}

#[test]
fn scale_test_chord_row_inversion1() {
    let seq = ChordRowSequence {
        tonic: PitchClass::C,
        scale: ScaleKind::Major,
        octave: Octave::O4,
        voicing: ChordVoicing::Inversion1,
        direction: SequenceDirection::Ascending,
        length: 8,
    };
    let notes = seq.as_midi_notes();
    assert_eq!(notes, vec![64, 67, 71, 72, 65, 69, 72, 74]);
}

#[test]
fn scale_test_chord_row_inversion2() {
    let seq = ChordRowSequence {
        tonic: PitchClass::C,
        scale: ScaleKind::Major,
        octave: Octave::O4,
        voicing: ChordVoicing::Inversion2,
        direction: SequenceDirection::Ascending,
        length: 8,
    };
    let notes = seq.as_midi_notes();
    assert_eq!(notes, vec![67, 71, 72, 76, 69, 72, 74, 77]);
}

#[test]
fn scale_test_chord_row_inversion3() {
    let seq = ChordRowSequence {
        tonic: PitchClass::C,
        scale: ScaleKind::Major,
        octave: Octave::O4,
        voicing: ChordVoicing::Inversion3,
        direction: SequenceDirection::Ascending,
        length: 8,
    };
    let notes = seq.as_midi_notes();
    assert_eq!(notes, vec![71, 72, 76, 79, 72, 74, 77, 81]);
}

#[test]
fn scale_test_chord_row_drop2() {
    let seq = ChordRowSequence {
        tonic: PitchClass::C,
        scale: ScaleKind::Major,
        octave: Octave::O4,
        voicing: ChordVoicing::Drop2,
        direction: SequenceDirection::Ascending,
        length: 8,
    };
    let notes = seq.as_midi_notes();
    assert_eq!(notes, vec![55, 60, 64, 71, 57, 62, 65, 72]);
}

#[test]
fn scale_test_chord_row_quartal() {
    let seq = ChordRowSequence {
        tonic: PitchClass::C,
        scale: ScaleKind::Major,
        octave: Octave::O4,
        voicing: ChordVoicing::Quartal,
        direction: SequenceDirection::Ascending,
        length: 8,
    };
    let notes = seq.as_midi_notes();
    assert_eq!(notes, vec![60, 65, 71, 76, 62, 67, 72, 77]);
}

#[test]
fn scale_test_chord_row_shell() {
    let seq = ChordRowSequence {
        tonic: PitchClass::C,
        scale: ScaleKind::Major,
        octave: Octave::O4,
        voicing: ChordVoicing::Shell,
        direction: SequenceDirection::Ascending,
        length: 8,
    };
    let notes = seq.as_midi_notes();
    assert_eq!(notes, vec![60, 64, 71, 72, 62, 65, 72, 74]);
}

#[test]
fn scale_test_chord_row_power() {
    let seq = ChordRowSequence {
        tonic: PitchClass::C,
        scale: ScaleKind::Major,
        octave: Octave::O4,
        voicing: ChordVoicing::Power,
        direction: SequenceDirection::Ascending,
        length: 8,
    };
    let notes = seq.as_midi_notes();
    assert_eq!(notes, vec![60, 67, 72, 79, 62, 69, 74, 81]);
}

#[test]
fn scale_test_chord_row_add9() {
    let seq = ChordRowSequence {
        tonic: PitchClass::C,
        scale: ScaleKind::Major,
        octave: Octave::O4,
        voicing: ChordVoicing::Add9,
        direction: SequenceDirection::Ascending,
        length: 8,
    };
    let notes = seq.as_midi_notes();
    assert_eq!(notes, vec![60, 64, 67, 74, 62, 65, 69, 76]);
}

#[test]
fn scale_test_chord_row_ninth_no5() {
    let seq = ChordRowSequence {
        tonic: PitchClass::C,
        scale: ScaleKind::Major,
        octave: Octave::O4,
        voicing: ChordVoicing::NinthNo5,
        direction: SequenceDirection::Ascending,
        length: 8,
    };
    let notes = seq.as_midi_notes();
    assert_eq!(notes, vec![60, 64, 71, 74, 62, 65, 72, 76]);
}

#[test]
fn scale_test_different_octaves() {
    let o2 = ScaleSequence {
        tonic: PitchClass::C,
        scale: ScaleKind::Chromatic,
        direction: SequenceDirection::Ascending,
        octave: Octave::O2,
        length: 1,
    };
    let o6 = ScaleSequence {
        tonic: PitchClass::C,
        scale: ScaleKind::Chromatic,
        direction: SequenceDirection::Ascending,
        octave: Octave::O6,
        length: 1,
    };

    assert_eq!(o2.as_midi_notes()[0], 36);
    assert_eq!(o6.as_midi_notes()[0], 84);
}
