use vstd::prelude::*;

use crate::music::theory;
use crate::music::theory::ChordVoicing;
use crate::music::theory::Pitch;
use crate::music::theory::PitchClass;
use crate::music::theory::ScaleKind;
use crate::music::theory::clamp_int;
use crate::music::theory::class_of_index;
use crate::music::theory::pitch_of_midi;
use crate::music::theory::pitch_position;
use crate::music::theory::scale_intervals;
use crate::music::theory::voicing_offsets;

verus! {

/// An ordered sequence of pitches produced by a scale or chord pattern.
#[derive(Clone, Debug, PartialEq, Eq)]
pub struct PitchSequence(pub Vec<Pitch>);

impl PitchSequence {
    /// The number of pitches.
    pub fn len(&self) -> (res: usize)
        ensures
            res == self.0@.len(),
    {
        self.0.len()
    }

    /// Whether the sequence holds no pitch.
    pub fn is_empty(&self) -> (res: bool)
        ensures
            res == (self.0@.len() == 0),
    {
        self.0.len() == 0
    }

    /// The pitches in order.
    pub fn as_vec(&self) -> (res: &[Pitch])
        ensures
            res@ == self.0@,
    {
        self.0.as_slice()
    }
}

/// The direction in which a sequence moves.
#[derive(Clone, Copy, Debug, PartialEq, Eq, Structural)]
pub enum SequenceDirection {
    Ascending,
    Descending,
}

impl PitchClass {
    /// The neighbouring pitch class in `direction`, wrapping between B and C.
    pub fn next(&self, direction: SequenceDirection) -> (res: Self)
        ensures
            direction == SequenceDirection::Ascending ==> res as int == (*self as int + 1) % 12,
            direction == SequenceDirection::Descending ==> res as int == (*self as int + 11) % 12,
    {
        match direction {
            SequenceDirection::Ascending => match self {
                PitchClass::C => PitchClass::Cs,
                PitchClass::Cs => PitchClass::D,
                PitchClass::D => PitchClass::Ds,
                PitchClass::Ds => PitchClass::E,
                PitchClass::E => PitchClass::F,
                PitchClass::F => PitchClass::Fs,
                PitchClass::Fs => PitchClass::G,
                PitchClass::G => PitchClass::Gs,
                PitchClass::Gs => PitchClass::A,
                PitchClass::A => PitchClass::As,
                PitchClass::As => PitchClass::B,
                PitchClass::B => PitchClass::C,
            },
            SequenceDirection::Descending => match self {
                PitchClass::C => PitchClass::B,
                PitchClass::Cs => PitchClass::C,
                PitchClass::D => PitchClass::Cs,
                PitchClass::Ds => PitchClass::D,
                PitchClass::E => PitchClass::Ds,
                PitchClass::F => PitchClass::E,
                PitchClass::Fs => PitchClass::F,
                PitchClass::G => PitchClass::Fs,
                PitchClass::Gs => PitchClass::G,
                PitchClass::A => PitchClass::Gs,
                PitchClass::As => PitchClass::A,
                PitchClass::B => PitchClass::As,
            },
        }
    }
}

/// The signed semitone step taken after the `i`-th note of a walk through
/// scale `k`: the intervals in order going up, in reverse order going down.
pub open spec fn walk_step(k: ScaleKind, direction: SequenceDirection, i: nat) -> int {
    let iv = scale_intervals(k);
    let n = iv.len();
    match direction {
        SequenceDirection::Ascending => iv[(i % n) as int] as int,
        SequenceDirection::Descending => -(iv[(n - 1 - (i % n)) as int] as int),
    }
}

/// The pitch `semitones` away from `p`, saturated to the MIDI note range.
pub open spec fn shifted(p: Pitch, semitones: int) -> Pitch {
    pitch_of_midi(clamp_int(pitch_position(p) + semitones, 0, 127) as u8)
}

/// The `i`-th pitch of a walk through scale `k` that starts at `start`.
pub open spec fn scale_walk(start: Pitch, k: ScaleKind, direction: SequenceDirection, i: nat) -> Pitch
    decreases i,
{
    if i == 0 {
        start
    } else {
        shifted(
            scale_walk(start, k, direction, (i - 1) as nat),
            walk_step(k, direction, (i - 1) as nat),
        )
    }
}

/// A chord voiced on every scale degree in turn; each degree gives four
/// notes.
#[derive(Clone, Copy, Debug, PartialEq)]
pub struct ChordRowSequence {
    pub tonic: PitchClass,
    pub scale: ScaleKind,
    pub octave: theory::Octave,
    pub voicing: ChordVoicing,
    pub direction: SequenceDirection,
    pub length: usize,
}

impl Default for ChordRowSequence {
    fn default() -> (res: Self)
        ensures
            res == (ChordRowSequence {
                tonic: PitchClass::C,
                scale: ScaleKind::Major,
                octave: theory::Octave(4),
                voicing: ChordVoicing::Seventh,
                direction: SequenceDirection::Ascending,
                length: 64,
            }),
    {
        Self {
            tonic: PitchClass::C,
            scale: ScaleKind::Major,
            octave: theory::Octave(4),
            voicing: ChordVoicing::Seventh,
            direction: SequenceDirection::Ascending,
            length: 64,
        }
    }
}

/// The `k`-th note of a chord row: voice `k % 4` of the chord on degree
/// `k / 4`, taken from the walk through the scale and moved by the voice's
/// octave shift.
pub open spec fn chord_row_pitch(s: ChordRowSequence, k: nat) -> Pitch {
    let (off, shift) = voicing_offsets(s.voicing)[(k % 4) as int];
    let base = scale_walk(
        Pitch { class: s.tonic, octave: s.octave },
        s.scale,
        s.direction,
        (k / 4 + off) as nat,
    );
    Pitch { class: base.class, octave: theory::Octave((base.octave.0 + shift / 12) as i8) }
}

/// Every pitch of a walk after the first lies in the MIDI range.
proof fn lemma_walk_octave(start: Pitch, k: ScaleKind, direction: SequenceDirection, i: nat)
    requires
        i > 0,
    ensures
        -1 <= scale_walk(start, k, direction, i).octave.0 <= 9,
{
}

impl ChordRowSequence {
    /// Whether the octave shift of the first chord stays within `i8`.
    pub open spec fn octave_fits(&self) -> bool {
        !(self.voicing == ChordVoicing::Triad && self.length > 3 && self.octave.0 == 127)
    }

    /// The `length` notes of the chord row.
    pub fn as_pitches(&self) -> (res: PitchSequence)
        requires
            self.octave_fits(),
        ensures
            res.0@.len() == self.length,
            forall|k: int| 0 <= k < self.length ==> res.0@[k] == chord_row_pitch(*self, k as nat),
    {
        let intervals = self.scale.intervals();
        let n = intervals.len();
        let needed_degrees: usize = self.length / 4 + 12;
        let start = Pitch { class: self.tonic, octave: self.octave };
        let mut scale_pitches: Vec<Pitch> = Vec::new();
        let mut current_pitch = start;
        scale_pitches.push(current_pitch);
        let mut i: usize = 0;
        while scale_pitches.len() < needed_degrees
            invariant
                intervals@ == scale_intervals(self.scale),
                n == intervals@.len(),
                n >= 5,
                forall|j: int| 0 <= j < n ==> 1 <= #[trigger] intervals@[j] <= 3,
                scale_pitches@.len() == i + 1,
                i + 1 <= needed_degrees,
                current_pitch == scale_walk(start, self.scale, self.direction, i as nat),
                forall|j: int|
                    0 <= j < scale_pitches@.len() ==> #[trigger] scale_pitches@[j] == scale_walk(
                        start,
                        self.scale,
                        self.direction,
                        j as nat,
                    ),
            decreases needed_degrees - scale_pitches@.len(),
        {
            let signed_step: i8 = match self.direction {
                SequenceDirection::Ascending => intervals[i % n] as i8,
                SequenceDirection::Descending => -(intervals[(n - 1) - (i % n)] as i8),
            };
            current_pitch = current_pitch.add_semitones(signed_step);
            scale_pitches.push(current_pitch);
            i = i + 1;
        }
        let offsets = self.voicing.chord_offsets();
        let mut pitches: Vec<Pitch> = Vec::new();
        let mut k: usize = 0;
        while k < self.length
            invariant
                offsets@ == voicing_offsets(self.voicing),
                start == (Pitch { class: self.tonic, octave: self.octave }),
                forall|j: int| 0 <= j < 4 ==> offsets@[j].0 <= 11,
                forall|j: int|
                    0 <= j < 4 ==> offsets@[j].1 == 0 || (offsets@[j].1 == 12 && self.voicing
                        == ChordVoicing::Triad && j == 3 && offsets@[j].0 == 0) || (offsets@[j].1
                        == -12 && offsets@[j].0 > 0),
                scale_pitches@.len() == needed_degrees,
                needed_degrees == self.length / 4 + 12,
                self.octave_fits(),
                k <= self.length,
                pitches@.len() == k,
                forall|j: int|
                    0 <= j < scale_pitches@.len() ==> #[trigger] scale_pitches@[j] == scale_walk(
                        start,
                        self.scale,
                        self.direction,
                        j as nat,
                    ),
                forall|j: int| 0 <= j < k ==> pitches@[j] == chord_row_pitch(*self, j as nat),
            decreases self.length - k,
        {
            let degree = k / 4;
            let (off, shift) = offsets[k % 4];
            let base = scale_pitches[degree + off];
            proof {
                let j = (k % 4) as int;
                assert(offsets@[j] == (off, shift));
                assert(0 <= j < 4);
                assert(offsets@[j].1 == 0 || (offsets@[j].1 == 12 && self.voicing
                    == ChordVoicing::Triad && j == 3 && offsets@[j].0 == 0) || (offsets@[j].1
                    == -12 && offsets@[j].0 > 0));
                assert(voicing_offsets(self.voicing)[j] == (off, shift));
                assert(base == scale_walk(start, self.scale, self.direction, (degree + off) as nat));
                if degree + off > 0 {
                    lemma_walk_octave(start, self.scale, self.direction, (degree + off) as nat);
                } else {
                    assert(base == start);
                    if shift == 12 {
                        assert(k == 3);
                        assert(self.voicing == ChordVoicing::Triad);
                        assert(self.length > 3);
                        assert(self.octave.0 != 127);
                        assert(base.octave == self.octave);
                        assert(base.octave.0 < 127);
                    }
                }
                assert(shift == 0 || shift == 12 || shift == -12);
                assert(shift / 12 == 0 || shift / 12 == 1 || shift / 12 == -1);
                assert(-128 <= base.octave.0 + shift / 12 <= 127);
            }
            let pitch = Pitch {
                class: base.class,
                octave: theory::Octave(base.octave.0 + shift / 12),
            };
            pitches.push(pitch);
            proof {
                let cp = chord_row_pitch(*self, k as nat);
                assert(cp.class == pitch.class);
                assert(cp.octave == pitch.octave);
            }
            assert(pitches@[k as int] == chord_row_pitch(*self, k as nat));
            k = k + 1;
        }
        PitchSequence(pitches)
    }
}

/// A walk through the notes of a scale.
#[derive(Clone, Copy, Debug, PartialEq)]
pub struct ScaleSequence {
    /// the tonic of the scale
    pub tonic: PitchClass,
    /// the scale, which decides the steps
    pub scale: ScaleKind,
    /// whether the walk goes up or down
    pub direction: SequenceDirection,
    /// the octave of the first note
    pub octave: theory::Octave,
    /// how many notes the walk produces
    pub length: usize,
}

impl Default for ScaleSequence {
    fn default() -> (res: Self)
        ensures
            res == (ScaleSequence {
                tonic: PitchClass::C,
                scale: ScaleKind::Chromatic,
                direction: SequenceDirection::Ascending,
                octave: theory::Octave(4),
                length: 64,
            }),
    {
        Self {
            tonic: PitchClass::C,
            scale: ScaleKind::Chromatic,
            direction: SequenceDirection::Ascending,
            octave: theory::Octave(4),
            length: 64,
        }
    }
}

impl ScaleSequence {
    /// The first `length` pitches of the walk through the scale.
    pub fn as_pitches(&self) -> (res: PitchSequence)
        ensures
            res.0@.len() == self.length,
            forall|i: int|
                0 <= i < self.length ==> res.0@[i] == scale_walk(
                    Pitch { class: self.tonic, octave: self.octave },
                    self.scale,
                    self.direction,
                    i as nat,
                ),
    {
        let intervals = self.scale.intervals();
        let n = intervals.len();
        let start = Pitch { class: self.tonic, octave: self.octave };
        let mut pitches: Vec<Pitch> = Vec::new();
        let mut current_pitch = start;
        let mut i: usize = 0;
        while i < self.length
            invariant
                intervals@ == scale_intervals(self.scale),
                n == intervals@.len(),
                n >= 5,
                forall|j: int| 0 <= j < n ==> 1 <= #[trigger] intervals@[j] <= 3,
                i <= self.length,
                pitches@.len() == i,
                current_pitch == scale_walk(start, self.scale, self.direction, i as nat),
                forall|j: int|
                    0 <= j < i ==> #[trigger] pitches@[j] == scale_walk(
                        start,
                        self.scale,
                        self.direction,
                        j as nat,
                    ),
            decreases self.length - i,
        {
            pitches.push(current_pitch);
            let signed_step: i8 = match self.direction {
                SequenceDirection::Ascending => intervals[i % n] as i8,
                SequenceDirection::Descending => -(intervals[(n - 1) - (i % n)] as i8),
            };
            current_pitch = current_pitch.add_semitones(signed_step);
            i = i + 1;
        }
        PitchSequence(pitches)
    }
}

/// A pattern that generates a pitch sequence.
#[derive(Clone, Copy, Debug, PartialEq)]
pub enum PitchPattern {
    Scale(ScaleSequence),
    ChordRow(ChordRowSequence),
}

impl PitchPattern {
    /// The configured length of the underlying sequence.
    pub open spec fn spec_len(&self) -> usize {
        match self {
            PitchPattern::Scale(s) => s.length,
            PitchPattern::ChordRow(s) => s.length,
        }
    }

    /// The pitches of the underlying sequence.
    pub fn as_pitches(&self) -> (res: PitchSequence)
        requires
            self matches PitchPattern::ChordRow(s) ==> s.octave_fits(),
        ensures
            res.0@.len() == self.spec_len(),
            self matches PitchPattern::Scale(s) ==> forall|i: int|
                0 <= i < s.length ==> res.0@[i] == scale_walk(
                    Pitch { class: s.tonic, octave: s.octave },
                    s.scale,
                    s.direction,
                    i as nat,
                ),
            self matches PitchPattern::ChordRow(s) ==> forall|k: int|
                0 <= k < s.length ==> res.0@[k] == chord_row_pitch(*s, k as nat),
    {
        match self {
            PitchPattern::Scale(sequence) => sequence.as_pitches(),
            PitchPattern::ChordRow(sequence) => sequence.as_pitches(),
        }
    }

    /// The configured length: notes for a scale, degrees for a chord row.
    pub fn len(&self) -> (res: usize)
        ensures
            res == self.spec_len(),
    {
        match self {
            PitchPattern::Scale(sequence) => sequence.length,
            PitchPattern::ChordRow(sequence) => sequence.length,
        }
    }

    /// Whether the pattern produces no note.
    pub fn is_empty(&self) -> (res: bool)
        ensures
            res == (self.spec_len() == 0),
    {
        self.len() == 0
    }
}

} // verus!
