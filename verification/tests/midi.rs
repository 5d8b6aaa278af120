use midilab::midi::Note;

#[test]
fn test_midi_notes() {
    let note = Note::from(0);
    assert_eq!(note.to_string(), "C⁻¹");

    let note = Note::from(60);
    assert_eq!(note.to_string(), "C⁴");

    let note = Note::from(127);
    assert_eq!(note.to_string(), "G⁹");
}
