use midilab::midi::generation::MidiNoteSequence;
use midilab::music::generation::ChordRowSequence;
use midilab::music::generation::PitchPattern;
use midilab::music::generation::ScaleSequence;
use midilab::music::generation::SequenceDirection;
use midilab::music::theory;
use midilab::music::theory::ChordVoicing;
use midilab::music::theory::PitchClass;
use midilab::music::theory::ScaleKind;


#[test]
fn generation_test_default_scale_sequence() {
    let ss = ScaleSequence::default();
    let notes = MidiNoteSequence::from(ss.as_pitches()).0;

    assert_eq!(notes.len(), 64);
    assert_eq!(notes[0].as_u8(), 60);
    assert_eq!(notes[63].as_u8(), 123);
}

#[test]
fn generation_test_major_scale_c4_16_notes() {
    let ss = ScaleSequence {
        tonic: PitchClass::C,
        scale: ScaleKind::Major,
        direction: SequenceDirection::Ascending,
        octave: theory::Octave(4),
        length: 16,
    };
    let notes: Vec<u8> = MidiNoteSequence::from(ss.as_pitches())
        .0
        .into_iter()
        .map(u8::from)
        .collect();

    assert_eq!(
        notes,
        vec![
            60, 62, 64, 65, 67, 69, 71, 72, 74, 76, 77, 79, 81, 83, 84, 86
        ]
    );
}

#[test]
fn generation_test_natural_minor_a4_16_notes() {
    let ss = ScaleSequence {
        tonic: PitchClass::A,
        scale: ScaleKind::NaturalMinor,
        direction: SequenceDirection::Ascending,
        octave: theory::Octave(4),
        length: 16,
    };
    let notes: Vec<u8> = MidiNoteSequence::from(ss.as_pitches())
        .0
        .into_iter()
        .map(u8::from)
        .collect();

    assert_eq!(
        notes,
        vec![
            69, 71, 72, 74, 76, 77, 79, 81, 83, 84, 86, 88, 89, 91, 93, 95
        ]
    );
}

#[test]
fn generation_test_descending_major_c5_16_notes() {
    let ss = ScaleSequence {
        tonic: PitchClass::C,
        scale: ScaleKind::Major,
        direction: SequenceDirection::Descending,
        octave: theory::Octave(5),
        length: 16,
    };
    let notes: Vec<u8> = MidiNoteSequence::from(ss.as_pitches())
        .0
        .into_iter()
        .map(u8::from)
        .collect();

    assert_eq!(
        notes,
        vec![
            72, 71, 69, 67, 65, 64, 62, 60, 59, 57, 55, 53, 52, 50, 48, 47
        ]
    );
}

#[test]
fn generation_test_major_pentatonic_c4_16_notes() {
    let ss = ScaleSequence {
        tonic: PitchClass::C,
        scale: ScaleKind::MajorPentatonic,
        direction: SequenceDirection::Ascending,
        octave: theory::Octave(4),
        length: 16,
    };
    let notes: Vec<u8> = MidiNoteSequence::from(ss.as_pitches())
        .0
        .into_iter()
        .map(u8::from)
        .collect();

    assert_eq!(
        notes,
        vec![
            60, 62, 64, 67, 69, 72, 74, 76, 79, 81, 84, 86, 88, 91, 93, 96
        ]
    );
}

#[test]
fn generation_test_chromatic_c4_16_notes() {
    let ss = ScaleSequence {
        tonic: PitchClass::C,
        scale: ScaleKind::Chromatic,
        direction: SequenceDirection::Ascending,
        octave: theory::Octave(4),
        length: 16,
    };
    let notes: Vec<u8> = MidiNoteSequence::from(ss.as_pitches())
        .0
        .into_iter()
        .map(u8::from)
        .collect();

    assert_eq!(
        notes,
        vec![
            60, 61, 62, 63, 64, 65, 66, 67, 68, 69, 70, 71, 72, 73, 74, 75
        ]
    );
}

#[test]
fn generation_test_chord_row_c_major_seventh() {
    let seq = ChordRowSequence {
        tonic: PitchClass::C,
        scale: ScaleKind::Major,
        octave: theory::Octave(4),
        voicing: ChordVoicing::Seventh,
        direction: SequenceDirection::Ascending,
        length: 8,
    };
    let notes: Vec<u8> = MidiNoteSequence::from(seq.as_pitches())
        .0
        .into_iter()
        .map(u8::from)
        .collect();
    // Cmaj7: C4(60), E4(64), G4(67), B4(71)
    // Dm7:   D4(62), F4(65), A4(69), C5(72)
    assert_eq!(notes, vec![60, 64, 67, 71, 62, 65, 69, 72]);
}

#[test]
fn generation_test_chord_row_c_major_triad() {
    let seq = ChordRowSequence {
        tonic: PitchClass::C,
        scale: ScaleKind::Major,
        octave: theory::Octave(4),
        voicing: ChordVoicing::Triad,
        direction: SequenceDirection::Ascending,
        length: 8,
    };
    let notes: Vec<u8> = MidiNoteSequence::from(seq.as_pitches())
        .0
        .into_iter()
        .map(u8::from)
        .collect();
    // C triad + root octave: C4(60), E4(64), G4(67), C5(72)
    // D triad + root octave: D4(62), F4(65), A4(69), D5(74)
    assert_eq!(notes, vec![60, 64, 67, 72, 62, 65, 69, 74]);
}

#[test]
fn generation_test_chord_row_saturates() {
    let seq = ChordRowSequence {
        tonic: PitchClass::C,
        scale: ScaleKind::Major,
        octave: theory::Octave(9),
        voicing: ChordVoicing::Seventh,
        direction: SequenceDirection::Ascending,
        length: 16,
    };
    let notes = MidiNoteSequence::from(seq.as_pitches()).0;
    assert_eq!(notes.len(), 16);
    // Should not panic and all notes should be <= 127
    for n in &notes {
        assert!(n.as_u8() <= 127);
    }
}

#[test]
fn generation_test_chord_row_inversion1() {
    let seq = ChordRowSequence {
        tonic: PitchClass::C,
        scale: ScaleKind::Major,
        octave: theory::Octave(4),
        voicing: ChordVoicing::Inversion1,
        direction: SequenceDirection::Ascending,
        length: 8,
    };
    let notes: Vec<u8> = MidiNoteSequence::from(seq.as_pitches())
        .0
        .into_iter()
        .map(u8::from)
        .collect();
    assert_eq!(notes, vec![64, 67, 71, 72, 65, 69, 72, 74]);
}

#[test]
fn generation_test_chord_row_inversion2() {
    let seq = ChordRowSequence {
        tonic: PitchClass::C,
        scale: ScaleKind::Major,
        octave: theory::Octave(4),
        voicing: ChordVoicing::Inversion2,
        direction: SequenceDirection::Ascending,
        length: 8,
    };
    let notes: Vec<u8> = MidiNoteSequence::from(seq.as_pitches())
        .0
        .into_iter()
        .map(u8::from)
        .collect();
    assert_eq!(notes, vec![67, 71, 72, 76, 69, 72, 74, 77]);
}

#[test]
fn generation_test_chord_row_inversion3() {
    let seq = ChordRowSequence {
        tonic: PitchClass::C,
        scale: ScaleKind::Major,
        octave: theory::Octave(4),
        voicing: ChordVoicing::Inversion3,
        direction: SequenceDirection::Ascending,
        length: 8,
    };
    let notes: Vec<u8> = MidiNoteSequence::from(seq.as_pitches())
        .0
        .into_iter()
        .map(u8::from)
        .collect();
    assert_eq!(notes, vec![71, 72, 76, 79, 72, 74, 77, 81]);
}

#[test]
fn generation_test_chord_row_drop2() {
    let seq = ChordRowSequence {
        tonic: PitchClass::C,
        scale: ScaleKind::Major,
        octave: theory::Octave(4),
        voicing: ChordVoicing::Drop2,
        direction: SequenceDirection::Ascending,
        length: 8,
    };
    let notes: Vec<u8> = MidiNoteSequence::from(seq.as_pitches())
        .0
        .into_iter()
        .map(u8::from)
        .collect();
    assert_eq!(notes, vec![55, 60, 64, 71, 57, 62, 65, 72]);
}

#[test]
fn generation_test_chord_row_quartal() {
    let seq = ChordRowSequence {
        tonic: PitchClass::C,
        scale: ScaleKind::Major,
        octave: theory::Octave(4),
        voicing: ChordVoicing::Quartal,
        direction: SequenceDirection::Ascending,
        length: 8,
    };
    let notes: Vec<u8> = MidiNoteSequence::from(seq.as_pitches())
        .0
        .into_iter()
        .map(u8::from)
        .collect();
    assert_eq!(notes, vec![60, 65, 71, 76, 62, 67, 72, 77]);
}

#[test]
fn generation_test_chord_row_shell() {
    let seq = ChordRowSequence {
        tonic: PitchClass::C,
        scale: ScaleKind::Major,
        octave: theory::Octave(4),
        voicing: ChordVoicing::Shell,
        direction: SequenceDirection::Ascending,
        length: 8,
    };
    let notes: Vec<u8> = MidiNoteSequence::from(seq.as_pitches())
        .0
        .into_iter()
        .map(u8::from)
        .collect();
    assert_eq!(notes, vec![60, 64, 71, 72, 62, 65, 72, 74]);
}

#[test]
fn generation_test_chord_row_power() {
    let seq = ChordRowSequence {
        tonic: PitchClass::C,
        scale: ScaleKind::Major,
        octave: theory::Octave(4),
        voicing: ChordVoicing::Power,
        direction: SequenceDirection::Ascending,
        length: 8,
    };
    let notes: Vec<u8> = MidiNoteSequence::from(seq.as_pitches())
        .0
        .into_iter()
        .map(u8::from)
        .collect();
    assert_eq!(notes, vec![60, 67, 72, 79, 62, 69, 74, 81]);
}

#[test]
fn generation_test_chord_row_add9() {
    let seq = ChordRowSequence {
        tonic: PitchClass::C,
        scale: ScaleKind::Major,
        octave: theory::Octave(4),
        voicing: ChordVoicing::Add9,
        direction: SequenceDirection::Ascending,
        length: 8,
    };
    let notes: Vec<u8> = MidiNoteSequence::from(seq.as_pitches())
        .0
        .into_iter()
        .map(u8::from)
        .collect();
    assert_eq!(notes, vec![60, 64, 67, 74, 62, 65, 69, 76]);
}

#[test]
fn generation_test_chord_row_ninth_no5() {
    let seq = ChordRowSequence {
        tonic: PitchClass::C,
        scale: ScaleKind::Major,
        octave: theory::Octave(4),
        voicing: ChordVoicing::NinthNo5,
        direction: SequenceDirection::Ascending,
        length: 8,
    };
    let notes: Vec<u8> = MidiNoteSequence::from(seq.as_pitches())
        .0
        .into_iter()
        .map(u8::from)
        .collect();
    assert_eq!(notes, vec![60, 64, 71, 74, 62, 65, 72, 76]);
}

#[test]
fn generation_test_different_octaves() {
    let o2 = ScaleSequence {
        tonic: PitchClass::C,
        scale: ScaleKind::Chromatic,
        direction: SequenceDirection::Ascending,
        octave: theory::Octave(2),
        length: 1,
    };
    let o6 = ScaleSequence {
        tonic: PitchClass::C,
        scale: ScaleKind::Chromatic,
        direction: SequenceDirection::Ascending,
        octave: theory::Octave(6),
        length: 1,
    };

    assert_eq!(MidiNoteSequence::from(o2.as_pitches()).0[0].as_u8(), 36);
    assert_eq!(MidiNoteSequence::from(o6.as_pitches()).0[0].as_u8(), 84);
}

#[test]
fn test_scale_sequence_length_one() {
    let ss = ScaleSequence {
        tonic: PitchClass::C,
        scale: ScaleKind::Major,
        direction: SequenceDirection::Ascending,
        octave: theory::Octave(4),
        length: 1,
    };
    let pitches = ss.as_pitches();
    assert_eq!(pitches.len(), 1);
    assert_eq!(pitches.as_vec()[0].class, PitchClass::C);
}

#[test]
fn test_scale_sequence_length_zero() {
    let ss = ScaleSequence {
        tonic: PitchClass::C,
        scale: ScaleKind::Major,
        direction: SequenceDirection::Ascending,
        octave: theory::Octave(4),
        length: 0,
    };
    let pitches = ss.as_pitches();
    assert_eq!(pitches.len(), 0);
    assert!(pitches.is_empty());
}

#[test]
fn test_chord_row_descending_c4_8_notes() {
    let seq = ChordRowSequence {
        tonic: PitchClass::C,
        scale: ScaleKind::Major,
        octave: theory::Octave(4),
        voicing: ChordVoicing::Seventh,
        direction: SequenceDirection::Descending,
        length: 8,
    };
    let notes: Vec<u8> = MidiNoteSequence::from(seq.as_pitches())
        .0
        .into_iter()
        .map(u8::from)
        .collect();
    assert_eq!(notes.len(), 8);
}

#[test]
fn test_pitch_pattern_is_empty() {
    let scale = ScaleSequence {
        tonic: PitchClass::C,
        scale: ScaleKind::Major,
        direction: SequenceDirection::Ascending,
        octave: theory::Octave(4),
        length: 0,
    };
    let pattern = PitchPattern::Scale(scale);
    assert!(pattern.is_empty());
    assert_eq!(pattern.len(), 0);
}

#[test]
fn test_pitch_sequence_len_and_is_empty() {
    let seq = ScaleSequence {
        tonic: PitchClass::C,
        scale: ScaleKind::Major,
        direction: SequenceDirection::Ascending,
        octave: theory::Octave(4),
        length: 10,
    };
    let pitches = seq.as_pitches();
    assert_eq!(pitches.len(), 10);
    assert!(!pitches.is_empty());
    assert_eq!(pitches.as_vec().len(), 10);
}

#[test]
fn test_chord_row_high_octave_all_notes_valid() {
    let seq = ChordRowSequence {
        tonic: PitchClass::C,
        scale: ScaleKind::Major,
        octave: theory::Octave(8),
        voicing: ChordVoicing::Seventh,
        direction: SequenceDirection::Ascending,
        length: 4,
    };
    let notes = MidiNoteSequence::from(seq.as_pitches()).0;
    assert_eq!(notes.len(), 4);
    for n in &notes {
        assert!(n.as_u8() <= 127);
    }
}
