//! Pitches bounded to the MIDI range, and the scale and chord patterns built
//! on them.

use vstd::prelude::*;

pub mod generation;
pub mod theory;

pub use crate::midi::Octave;
pub use crate::music::generation::SequenceDirection;
pub use crate::music::theory::ChordVoicing;
pub use crate::music::theory::PitchClass;
pub use crate::music::theory::ScaleKind;

use crate::midi::octave_number;
use crate::midi::octave_saturating;
use crate::music::theory::clamp_int;
use crate::music::theory::class_of_index;
use crate::music::theory::scale_intervals;
use crate::music::theory::voicing_offsets;

verus! {

/// A pitch whose octave is bounded to the octaves of the MIDI range.
#[derive(Clone, Copy, Debug, PartialEq, Eq, Structural)]
pub struct Pitch {
    pub class: PitchClass,
    pub octave: Octave,
}

/// The MIDI note number of a pitch, saturated to 0 ..= 127.
pub open spec fn note_number(p: Pitch) -> int {
    clamp_int(12 * (octave_number(p.octave) + 1) + p.class as int, 0, 127)
}

/// The pitch of MIDI note number `v`; note 0 is C in octave -1.
pub open spec fn pitch_at(v: u8) -> Pitch {
    Pitch { class: class_of_index((v % 12) as int), octave: octave_saturating(v / 12 - 1) }
}

/// The pitch reached from `p` by moving `step` semitones in `direction`,
/// saturated to the MIDI range.
pub open spec fn advanced(p: Pitch, direction: SequenceDirection, step: u8) -> Pitch {
    let n = note_number(p);
    match direction {
        SequenceDirection::Ascending => pitch_at(clamp_int(n + step, 0, 127) as u8),
        SequenceDirection::Descending => pitch_at(clamp_int(n - step, 0, 127) as u8),
    }
}

impl From<u8> for Pitch {
    fn from(value: u8) -> (res: Self) {
        let octave = Octave::from((value / 12) as i8 - 1);
        let class = PitchClass::from_midi_note(value);
        Self { class, octave }
    }
}

impl vstd::std_specs::convert::FromSpecImpl<u8> for Pitch {
    open spec fn obeys_from_spec() -> bool {
        true
    }

    open spec fn from_spec(value: u8) -> Self {
        pitch_at(value)
    }
}

impl Pitch {
    /// The MIDI note number of the pitch, saturated to 0 ..= 127.
    pub fn as_midi_note(&self) -> (res: u8)
        ensures
            res == note_number(*self),
    {
        let octave: i16 = self.octave.value() as i16;
        let class: i16 = self.class as i16;
        let n: i16 = 12 * (octave + 1) + class;
        if n < 0 {
            0
        } else if n > 127 {
            127
        } else {
            n as u8
        }
    }

    /// The pitch `step` semitones away in `direction`, saturated to the MIDI
    /// range. The tonic plays no part in the step.
    pub fn advance(&self, _tonic: PitchClass, direction: SequenceDirection, step: u8) -> (res: Self)
        ensures
            res == advanced(*self, direction, step),
    {
        let current_midi = self.as_midi_note();
        let new_midi: u8 = match direction {
            SequenceDirection::Ascending => {
                let up = current_midi.saturating_add(step);
                if up < 127 {
                    up
                } else {
                    127
                }
            },
            SequenceDirection::Descending => current_midi.saturating_sub(step),
        };
        Pitch::from(new_midi)
    }
}

/// The step taken after the `i`-th note of a walk through scale `k`: the
/// intervals in order going up, in reverse order going down.
pub open spec fn step_after(k: ScaleKind, direction: SequenceDirection, i: nat) -> u8 {
    let iv = scale_intervals(k);
    let n = iv.len();
    match direction {
        SequenceDirection::Ascending => iv[(i % n) as int],
        SequenceDirection::Descending => iv[(n - 1 - (i % n)) as int],
    }
}

/// The `i`-th pitch of a walk through scale `k` that starts at `start`.
pub open spec fn walk(start: Pitch, k: ScaleKind, direction: SequenceDirection, i: nat) -> Pitch
    decreases i,
{
    if i == 0 {
        start
    } else {
        advanced(
            walk(start, k, direction, (i - 1) as nat),
            direction,
            step_after(k, direction, (i - 1) as nat),
        )
    }
}

/// A walk through the notes of a scale.
#[derive(Clone, Copy, Debug, PartialEq)]
pub struct ScaleSequence {
    /// the tonic of the scale
    pub tonic: PitchClass,
    /// the scale, which decides the steps
    pub scale: ScaleKind,
    /// whether the walk goes up or down
    pub direction: SequenceDirection,
    /// the octave of the first note
    pub octave: Octave,
    /// how many notes the walk produces
    pub length: usize,
}

impl Default for ScaleSequence {
    fn default() -> (res: Self)
        ensures
            res == (ScaleSequence {
                tonic: PitchClass::C,
                scale: ScaleKind::Chromatic,
                direction: SequenceDirection::Ascending,
                octave: Octave::O4,
                length: 64,
            }),
    {
        Self {
            tonic: PitchClass::C,
            scale: ScaleKind::Chromatic,
            direction: SequenceDirection::Ascending,
            octave: Octave::O4,
            length: 64,
        }
    }
}

/// Writes the MIDI note number of each pitch.
fn note_numbers(pitches: &Vec<Pitch>) -> (res: Vec<u8>)
    ensures
        res@.len() == pitches@.len(),
        forall|i: int| 0 <= i < pitches@.len() ==> res@[i] == note_number(#[trigger] pitches@[i]),
{
    let mut notes: Vec<u8> = Vec::new();
    let mut i: usize = 0;
    while i < pitches.len()
        invariant
            i <= pitches@.len(),
            notes@.len() == i,
            forall|j: int| 0 <= j < i ==> notes@[j] == note_number(#[trigger] pitches@[j]),
        decreases pitches@.len() - i,
    {
        notes.push(pitches[i].as_midi_note());
        i = i + 1;
    }
    notes
}

impl ScaleSequence {
    /// The MIDI note numbers of the walk.
    pub fn as_midi_notes(&self) -> (res: Vec<u8>)
        ensures
            res@.len() == self.length,
            forall|i: int|
                0 <= i < self.length ==> res@[i] == note_number(
                    walk(Pitch { class: self.tonic, octave: self.octave }, self.scale, self.direction, i as nat),
                ),
    {
        let pitches = self.as_pitches();
        let res = note_numbers(&pitches);
        assert forall|i: int| 0 <= i < self.length implies res@[i] == note_number(
            walk(Pitch { class: self.tonic, octave: self.octave }, self.scale, self.direction, i as nat),
        ) by {
            assert(res@[i] == note_number(pitches@[i]));
        }
        res
    }

    /// The first `length` pitches of the walk through the scale.
    pub fn as_pitches(&self) -> (res: Vec<Pitch>)
        ensures
            res@.len() == self.length,
            forall|i: int|
                0 <= i < self.length ==> res@[i] == walk(
                    Pitch { class: self.tonic, octave: self.octave },
                    self.scale,
                    self.direction,
                    i as nat,
                ),
    {
        let intervals = self.scale.intervals();
        let n = intervals.len();
        let start = Pitch { class: self.tonic, octave: self.octave };
        let mut pitches: Vec<Pitch> = Vec::new();
        let mut current_pitch = start;
        let mut i: usize = 0;
        while i < self.length
            invariant
                intervals@ == scale_intervals(self.scale),
                n == intervals@.len(),
                n >= 5,
                i <= self.length,
                pitches@.len() == i,
                current_pitch == walk(start, self.scale, self.direction, i as nat),
                forall|j: int|
                    0 <= j < i ==> #[trigger] pitches@[j] == walk(start, self.scale, self.direction, j as nat),
            decreases self.length - i,
        {
            pitches.push(current_pitch);
            let step = match self.direction {
                SequenceDirection::Ascending => intervals[i % n],
                SequenceDirection::Descending => intervals[(n - 1) - (i % n)],
            };
            current_pitch = current_pitch.advance(self.tonic, self.direction, step);
            i = i + 1;
        }
        pitches
    }
}

/// A chord voiced on every scale degree in turn; each degree gives four
/// notes.
#[derive(Clone, Copy, Debug, PartialEq)]
pub struct ChordRowSequence {
    pub tonic: PitchClass,
    pub scale: ScaleKind,
    pub octave: Octave,
    pub voicing: ChordVoicing,
    pub direction: SequenceDirection,
    pub length: usize,
}

impl Default for ChordRowSequence {
    fn default() -> (res: Self)
        ensures
            res == (ChordRowSequence {
                tonic: PitchClass::C,
                scale: ScaleKind::Major,
                octave: Octave::O4,
                voicing: ChordVoicing::Seventh,
                direction: SequenceDirection::Ascending,
                length: 64,
            }),
    {
        Self {
            tonic: PitchClass::C,
            scale: ScaleKind::Major,
            octave: Octave::O4,
            voicing: ChordVoicing::Seventh,
            direction: SequenceDirection::Ascending,
            length: 64,
        }
    }
}

/// The `k`-th note of a chord row: voice `k % 4` of the chord on degree
/// `k / 4`, taken from the walk through the scale, its octave moved by the
/// voice's shift and saturated to the MIDI octaves.
pub open spec fn chord_pitch(s: ChordRowSequence, k: nat) -> Pitch {
    let (off, shift) = voicing_offsets(s.voicing)[(k % 4) as int];
    let base = walk(Pitch { class: s.tonic, octave: s.octave }, s.scale, s.direction, (k / 4 + off) as nat);
    Pitch { class: base.class, octave: octave_saturating(octave_number(base.octave) + shift / 12) }
}

/// A chord row is built on the walk through its scale: its note `k` is
/// voice `k % 4` of the chord on degree `k / 4`, on the note of the scale
/// walk of `length / 4 + 12` notes from the same tonic, octave and
/// direction that the voice's offset picks, its octave moved by the voice's
/// shift; that note lies within the walk.
pub proof fn lemma_chord_row_from_scale_walk(s: ChordRowSequence, k: nat)
    requires
        k < s.length,
    ensures
        ({
            let walk_seq = ScaleSequence {
                tonic: s.tonic,
                scale: s.scale,
                direction: s.direction,
                octave: s.octave,
                length: (s.length / 4 + 12) as usize,
            };
            let (off, shift) = voicing_offsets(s.voicing)[(k % 4) as int];
            let base = walk(
                Pitch { class: walk_seq.tonic, octave: walk_seq.octave },
                walk_seq.scale,
                walk_seq.direction,
                (k / 4 + off) as nat,
            );
            &&& k / 4 + off < walk_seq.length
            &&& chord_pitch(s, k) == (Pitch {
                class: base.class,
                octave: octave_saturating(octave_number(base.octave) + shift / 12),
            })
        }),
{
    let j = (k % 4) as int;
    assert(voicing_offsets(s.voicing)[j].0 <= 11);
}

impl ChordRowSequence {
    /// The MIDI note numbers of the chord row.
    pub fn as_midi_notes(&self) -> (res: Vec<u8>)
        ensures
            res@.len() == self.length,
            forall|k: int| 0 <= k < self.length ==> res@[k] == note_number(chord_pitch(*self, k as nat)),
    {
        let pitches = self.as_pitches();
        let res = note_numbers(&pitches);
        assert forall|k: int| 0 <= k < self.length implies res@[k] == note_number(
            chord_pitch(*self, k as nat),
        ) by {
            assert(res@[k] == note_number(pitches@[k]));
        }
        res
    }

    /// The `length` pitches of the chord row.
    pub fn as_pitches(&self) -> (res: Vec<Pitch>)
        ensures
            res@.len() == self.length,
            forall|k: int| 0 <= k < self.length ==> res@[k] == chord_pitch(*self, k as nat),
    {
        let intervals = self.scale.intervals();
        let n = intervals.len();
        let needed_degrees: usize = self.length / 4 + 12;
        let start = Pitch { class: self.tonic, octave: self.octave };
        let mut scale_pitches: Vec<Pitch> = Vec::new();
        let mut current_pitch = start;
        scale_pitches.push(current_pitch);
        let mut i: usize = 0;
        while scale_pitches.len() < needed_degrees
            invariant
                intervals@ == scale_intervals(self.scale),
                n == intervals@.len(),
                n >= 5,
                scale_pitches@.len() == i + 1,
                i + 1 <= needed_degrees,
                current_pitch == walk(start, self.scale, self.direction, i as nat),
                forall|j: int|
                    0 <= j < scale_pitches@.len() ==> #[trigger] scale_pitches@[j] == walk(
                        start,
                        self.scale,
                        self.direction,
                        j as nat,
                    ),
            decreases needed_degrees - scale_pitches@.len(),
        {
            let step = match self.direction {
                SequenceDirection::Ascending => intervals[i % n],
                SequenceDirection::Descending => intervals[(n - 1) - (i % n)],
            };
            current_pitch = current_pitch.advance(self.tonic, self.direction, step);
            scale_pitches.push(current_pitch);
            i = i + 1;
        }
        let offsets = self.voicing.chord_offsets();
        let mut pitches: Vec<Pitch> = Vec::new();
        let mut k: usize = 0;
        while k < self.length
            invariant
                offsets@ == voicing_offsets(self.voicing),
                start == (Pitch { class: self.tonic, octave: self.octave }),
                forall|j: int| 0 <= j < 4 ==> offsets@[j].0 <= 11,
                forall|j: int| 0 <= j < 4 ==> -12 <= #[trigger] offsets@[j].1 <= 12,
                scale_pitches@.len() == needed_degrees,
                needed_degrees == self.length / 4 + 12,
                k <= self.length,
                pitches@.len() == k,
                forall|j: int|
                    0 <= j < scale_pitches@.len() ==> #[trigger] scale_pitches@[j] == walk(
                        start,
                        self.scale,
                        self.direction,
                        j as nat,
                    ),
                forall|j: int| 0 <= j < k ==> pitches@[j] == chord_pitch(*self, j as nat),
            decreases self.length - k,
        {
            let degree = k / 4;
            let (off, shift) = offsets[k % 4];
            let base = scale_pitches[degree + off];
            proof {
                let j = (k % 4) as int;
                assert(offsets@[j] == (off, shift));
                assert(-12 <= offsets@[j].1 <= 12);
            }
            let pitch = Pitch { class: base.class, octave: Octave::from(base.octave.value() + shift / 12) };
            pitches.push(pitch);
            k = k + 1;
        }
        pitches
    }
}

/// A pattern that generates pitches.
#[derive(Clone, Copy, Debug, PartialEq)]
pub enum NotePattern {
    Scale(ScaleSequence),
    ChordRow(ChordRowSequence),
}

impl NotePattern {
    /// The configured length of the underlying sequence.
    pub open spec fn spec_len(&self) -> usize {
        match self {
            NotePattern::Scale(s) => s.length,
            NotePattern::ChordRow(s) => s.length,
        }
    }

    /// The `i`-th pitch of the pattern.
    pub open spec fn pitch(&self, i: nat) -> Pitch {
        match self {
            NotePattern::Scale(s) => walk(Pitch { class: s.tonic, octave: s.octave }, s.scale, s.direction, i),
            NotePattern::ChordRow(s) => chord_pitch(*s, i),
        }
    }

    /// The pitches of the underlying sequence.
    pub fn as_pitches(&self) -> (res: Vec<Pitch>)
        ensures
            res@.len() == self.spec_len(),
            forall|i: int| 0 <= i < self.spec_len() ==> res@[i] == self.pitch(i as nat),
    {
        match self {
            NotePattern::Scale(sequence) => sequence.as_pitches(),
            NotePattern::ChordRow(sequence) => sequence.as_pitches(),
        }
    }

    /// The MIDI note numbers of the underlying sequence.
    pub fn as_midi_notes(&self) -> (res: Vec<u8>)
        ensures
            res@.len() == self.spec_len(),
            forall|i: int| 0 <= i < self.spec_len() ==> res@[i] == note_number(self.pitch(i as nat)),
    {
        match self {
            NotePattern::Scale(seq) => seq.as_midi_notes(),
            NotePattern::ChordRow(seq) => seq.as_midi_notes(),
        }
    }

    /// The configured length of the underlying sequence.
    pub fn len(&self) -> (res: usize)
        ensures
            res == self.spec_len(),
    {
        match self {
            NotePattern::Scale(sequence) => sequence.length,
            NotePattern::ChordRow(sequence) => sequence.length,
        }
    }
}

} // verus!
