use vstd::prelude::*;

use crate::midi::Note;
use crate::midi::midi_of_pitch;
use crate::midi::note_of;
use crate::music::generation::PitchSequence;

verus! {

/// A sequence of MIDI notes.
pub struct MidiNoteSequence(pub Vec<Note>);

impl MidiNoteSequence {
    /// The MIDI notes of a pitch sequence; pitches outside the MIDI range
    /// saturate at 0 and 127.
    pub fn from_pitches(pitches: &PitchSequence) -> (res: Self)
        ensures
            res.0@.len() == pitches.0@.len(),
            forall|i: int|
                0 <= i < pitches.0@.len() ==> res.0@[i] == note_of(midi_of_pitch(pitches.0@[i])),
    {
        let mut notes: Vec<Note> = Vec::new();
        let mut i: usize = 0;
        while i < pitches.0.len()
            invariant
                i <= pitches.0@.len(),
                notes@.len() == i,
                forall|j: int| 0 <= j < i ==> notes@[j] == note_of(midi_of_pitch(pitches.0@[j])),
            decreases pitches.0@.len() - i,
        {
            notes.push(Note::from(&pitches.0[i]));
            i = i + 1;
        }
        MidiNoteSequence(notes)
    }
}

impl From<PitchSequence> for MidiNoteSequence {
    fn from(pitches: PitchSequence) -> (res: Self)
        ensures
            res.0@.len() == pitches.0@.len(),
            forall|i: int|
                0 <= i < pitches.0@.len() ==> res.0@[i] == note_of(midi_of_pitch(pitches.0@[i])),
    {
        MidiNoteSequence::from_pitches(&pitches)
    }
}

/// The conversion goes through [`MidiNoteSequence::from_pitches`], whose
/// contract states the result. This spec impl opts out of the
/// std contract; the conversion's own `ensures` states the result.
impl vstd::std_specs::convert::FromSpecImpl<PitchSequence> for MidiNoteSequence {
    open spec fn obeys_from_spec() -> bool {
        false
    }

    closed spec fn from_spec(pitches: PitchSequence) -> Self {
        arbitrary()
    }
}

} // verus!
