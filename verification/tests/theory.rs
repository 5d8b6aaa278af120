use midilab::midi::Note;
use midilab::music::theory::Octave;
use midilab::music::theory::Pitch;
use midilab::music::theory::PitchClass;
use midilab::music::theory::ScaleKind;


#[test]
fn theory_test_pitch_class_add_semitones() {
    assert_eq!(PitchClass::C.add_semitones(0), PitchClass::C);
    assert_eq!(PitchClass::C.add_semitones(1), PitchClass::Cs);
    assert_eq!(PitchClass::C.add_semitones(12), PitchClass::C);
    assert_eq!(PitchClass::B.add_semitones(1), PitchClass::C);
    assert_eq!(PitchClass::G.add_semitones(5), PitchClass::C);
}

#[test]
fn theory_test_pitch_classes_from_tonic() {
    let c_major = ScaleKind::Major.pitch_classes_from_tonic(&PitchClass::C);
    assert_eq!(
        c_major,
        vec![
            PitchClass::C,
            PitchClass::D,
            PitchClass::E,
            PitchClass::F,
            PitchClass::G,
            PitchClass::A,
            PitchClass::B,
        ]
    );
}

#[test]
fn theory_test_negative_octaves_no_overflow() {
    // Osub1: 12 * (-1 + 1) + 0 = 0
    assert_eq!(
        Note::from(&Pitch {
            class: PitchClass::C,
            octave: Octave(-1)
        })
        .as_u8(),
        0
    );
    // Osub1: C# = 1
    assert_eq!(
        Note::from(&Pitch {
            class: PitchClass::Cs,
            octave: Octave(-1)
        })
        .as_u8(),
        1
    );
    // Osub2: 12 * (-2 + 1) + 0 = -12 → clamps to 0
    assert_eq!(
        Note::from(&Pitch {
            class: PitchClass::C,
            octave: Octave(-2)
        })
        .as_u8(),
        0
    );
    // Osub2: B = 11 → 12 * (-1) + 11 = -1 → clamps to 0
    assert_eq!(
        Note::from(&Pitch {
            class: PitchClass::B,
            octave: Octave(-2)
        })
        .as_u8(),
        0
    );
}
