//! Note patterns computed directly on MIDI note numbers: scale walks, chord
//! rows and rows of repeated notes.

use vstd::prelude::*;

pub use crate::midi::Octave;
pub use crate::music::generation::SequenceDirection;
pub use crate::music::theory::ChordVoicing;
pub use crate::music::theory::PitchClass;

use crate::midi::Note;
use crate::midi::octave_number;
use crate::music::theory::clamp_int;
use crate::music::theory::class_of_index;
use crate::music::theory::voicing_offsets;
use crate::sysex::extend_bytes;

verus! {

/// The value of row `r` of a row pattern: `r` steps of `interval` from
/// `base` in `direction`.
pub open spec fn row_value(base: int, interval: int, direction: SequenceDirection, r: int) -> int {
    match direction {
        SequenceDirection::Ascending => base + r * interval,
        SequenceDirection::Descending => base - r * interval,
    }
}

/// The last row of a row pattern that stays in the MIDI range, for a
/// positive interval.
pub open spec fn last_row(base: int, interval: int, direction: SequenceDirection) -> int {
    match direction {
        SequenceDirection::Ascending => (127 - base) / interval,
        SequenceDirection::Descending => base / interval,
    }
}

/// The `k`-th note of a row pattern: rows of four equal notes, each row
/// `interval` semitones from the one before; once a row would leave the MIDI
/// range the last row in range repeats.
pub open spec fn row_note(base: u8, interval: u8, direction: SequenceDirection, k: nat) -> int {
    let r = (k / 4) as int;
    if interval == 0 {
        base as int
    } else {
        let lim = last_row(base as int, interval as int, direction);
        row_value(base as int, interval as int, direction, if r <= lim { r } else { lim })
    }
}

/// The `k`-th note of an octave row pattern: rows of four equal notes, each
/// an octave from the one before, the last row in range repeating.
pub open spec fn octave_row_note(base: u8, direction: SequenceDirection, k: nat) -> int {
    let r = (k / 4) as int;
    match direction {
        SequenceDirection::Ascending => {
            let lim: int = (127 - base) / 12;
            base + 12 * (if r <= lim { r } else { lim })
        },
        SequenceDirection::Descending => {
            let lim: int = base as int / 12;
            base - 12 * (if r <= lim { r } else { lim })
        },
    }
}

/// For a positive step `d`, `r` steps fit in `x` exactly when `r` is at most
/// `x / d`.
proof fn lemma_steps_fit(x: int, d: int, r: int)
    requires
        d > 0,
        x >= 0,
        r >= 0,
    ensures
        (r * d <= x) <==> (r <= x / d),
{
    let q = x / d;
    vstd::arithmetic::div_mod::lemma_fundamental_div_mod(x, d);
    assert(0 <= x % d < d) by {
        vstd::arithmetic::div_mod::lemma_mod_bound(x, d);
    }
    if r <= q {
        assert(r * d <= q * d) by (nonlinear_arith)
            requires
                r <= q,
                d > 0,
        ;
        assert(q * d == d * q) by (nonlinear_arith);
    } else {
        assert(r * d >= (q + 1) * d) by (nonlinear_arith)
            requires
                r >= q + 1,
                d > 0,
        ;
        assert((q + 1) * d == d * q + d) by (nonlinear_arith);
    }
}

/// Rows of a row pattern in the MIDI range are exactly those up to its last
/// row.
proof fn lemma_row_in_range(base: int, interval: int, direction: SequenceDirection, r: int)
    requires
        0 <= base <= 127,
        interval > 0,
        r >= 0,
    ensures
        (0 <= row_value(base, interval, direction, r) <= 127) <==> (r <= last_row(
            base,
            interval,
            direction,
        )),
{
    assert(r * interval >= 0) by (nonlinear_arith)
        requires
            r >= 0,
            interval > 0,
    ;
    match direction {
        SequenceDirection::Ascending => lemma_steps_fit(127 - base, interval, r),
        SequenceDirection::Descending => lemma_steps_fit(base, interval, r),
    }
}

/// Fills rows of four notes, `interval` apart, until `length` notes.
fn fill_rows(base: u8, interval: u8, direction: SequenceDirection, length: usize) -> (res: Vec<u8>)
    requires
        base <= 127,
    ensures
        res@.len() == length,
        forall|k: int| 0 <= k < length ==> res@[k] == row_note(base, interval, direction, k as nat),
{
    let mut notes: Vec<u8> = Vec::new();
    let mut row_note_value: i16 = base as i16;
    let mut last_valid_note: i16 = row_note_value;
    let ghost mut r: int = 0;
    while notes.len() < length
        invariant
            base <= 127,
            r >= 0,
            notes@.len() <= length,
            notes@.len() < length ==> notes@.len() == 4 * r,
            row_note_value == row_value(base as int, interval as int, direction, r),
            interval > 0 ==> r <= last_row(base as int, interval as int, direction) + 1,
            interval == 0 ==> row_note_value == base,
            r > 0 ==> last_valid_note == row_value(base as int, interval as int, direction, r - 1),
            r == 0 ==> last_valid_note == base,
            forall|j: int|
                0 <= j < notes@.len() ==> notes@[j] == row_note(base, interval, direction, j as nat),
        decreases length - notes@.len(),
    {
        if interval > 0 {
            proof {
                lemma_row_in_range(base as int, interval as int, direction, r);
            }
        }
        if 0 <= row_note_value && row_note_value <= 127 {
            last_valid_note = row_note_value;
            let mut c: usize = 0;
            while c < 4
                invariant
                    base <= 127,
                    r >= 0,
                    c <= 4,
                    0 <= row_note_value <= 127,
                    notes@.len() <= length,
                    notes@.len() < length ==> notes@.len() == 4 * r + c,
                    notes@.len() >= 4 * r || notes@.len() == length,
                    row_note_value == row_value(base as int, interval as int, direction, r),
                    interval > 0 ==> r <= last_row(base as int, interval as int, direction),
                    interval == 0 ==> row_note_value == base,
                    forall|j: int|
                        0 <= j < notes@.len() ==> notes@[j] == row_note(
                            base,
                            interval,
                            direction,
                            j as nat,
                        ),
                decreases 4 - c,
            {
                if notes.len() < length {
                    proof {
                        let j = notes@.len() as int;
                        assert(j / 4 == r);
                    }
                    notes.push(row_note_value as u8);
                }
                c = c + 1;
            }
            row_note_value = match direction {
                SequenceDirection::Ascending => row_note_value + interval as i16,
                SequenceDirection::Descending => row_note_value - interval as i16,
            };
            proof {
                assert(row_value(base as int, interval as int, direction, r + 1) == row_value(
                    base as int,
                    interval as int,
                    direction,
                    r,
                ) + (match direction {
                    SequenceDirection::Ascending => interval as int,
                    SequenceDirection::Descending => -(interval as int),
                })) by (nonlinear_arith);
                r = r + 1;
            }
        } else {
            proof {
                assert(interval > 0);
                assert(r > 0);
                assert(r - 1 == last_row(base as int, interval as int, direction));
                lemma_row_in_range(base as int, interval as int, direction, r - 1);
            }
            while notes.len() < length
                invariant
                    notes@.len() <= length,
                    notes@.len() >= 4 * r,
                    interval > 0,
                    r - 1 == last_row(base as int, interval as int, direction),
                    last_valid_note == row_value(base as int, interval as int, direction, r - 1),
                    0 <= last_valid_note <= 127,
                    forall|j: int|
                        0 <= j < notes@.len() ==> notes@[j] == row_note(
                            base,
                            interval,
                            direction,
                            j as nat,
                        ),
                decreases length - notes@.len(),
            {
                notes.push(last_valid_note as u8);
            }
        }
    }
    notes
}

/// Rows of four equal notes, each row `interval` semitones from the one
/// before.
#[derive(Clone, Copy, Debug)]
pub struct IntervalRowSequence {
    pub base_note: Note,
    /// semitones between rows (e.g. 5 = perfect 4th, 7 = perfect 5th, 12 = octave)
    pub interval: u8,
    pub direction: SequenceDirection,
    pub length: usize,
}

impl Default for IntervalRowSequence {
    fn default() -> (res: Self)
        ensures
            res.base_note == Note::N36,
            res.interval == 5,
            res.direction == SequenceDirection::Ascending,
            res.length == 64,
    {
        Self { base_note: Note::N36, interval: 5, direction: SequenceDirection::Ascending, length: 64 }
    }
}

impl IntervalRowSequence {
    /// The `length` notes of the pattern; once a row would leave the MIDI
    /// range the last row in range repeats.
    pub fn as_midi_notes(&self) -> (res: Vec<u8>)
        ensures
            res@.len() == self.length,
            forall|k: int|
                0 <= k < self.length ==> res@[k] == row_note(
                    self.base_note as u8,
                    self.interval,
                    self.direction,
                    k as nat,
                ),
    {
        let base: u8 = self.base_note.into();
        fill_rows(base, self.interval, self.direction, self.length)
    }
}

/// Rows of four equal notes, each row an octave from the one before.
#[derive(Clone, Copy, Debug)]
pub struct OctaveRowSequence {
    pub base_note: Note,
    pub direction: SequenceDirection,
    pub length: usize,
}

impl Default for OctaveRowSequence {
    fn default() -> (res: Self)
        ensures
            res.base_note == Note::N36,
            res.direction == SequenceDirection::Ascending,
            res.length == 64,
    {
        Self { base_note: Note::N36, direction: SequenceDirection::Ascending, length: 64 }
    }
}

impl OctaveRowSequence {
    /// The `length` notes of the pattern; once a row would leave the MIDI
    /// range the last row in range repeats.
    pub fn as_midi_notes(&self) -> (res: Vec<u8>)
        ensures
            res@.len() == self.length,
            forall|k: int|
                0 <= k < self.length ==> res@[k] == octave_row_note(
                    self.base_note as u8,
                    self.direction,
                    k as nat,
                ),
    {
        let base: u8 = self.base_note.into();
        let res = fill_rows(base, 12, self.direction, self.length);
        assert forall|k: int| 0 <= k < self.length implies res@[k] == octave_row_note(
            base,
            self.direction,
            k as nat,
        ) by {
            assert(res@[k] == row_note(base, 12, self.direction, k as nat));
        }
        res
    }
}

/// An interval row whose interval is an octave gives the same notes as the
/// octave row on the same base note and direction.
pub proof fn lemma_octave_interval_row(base: Note, direction: SequenceDirection, k: nat)
    ensures
        row_note(base as u8, 12, direction, k) == octave_row_note(base as u8, direction, k),
{
}

/// Scale variants used for note generation.
#[derive(Clone, Copy, Debug, Eq, PartialEq, Structural)]
pub enum ScaleKind {
    Major,
    NaturalMinor,
    HarmonicMinor,
    MelodicMinor,
    Dorian,
    Phrygian,
    Lydian,
    Mixolydian,
    Locrian,
    MajorPentatonic,
    MinorPentatonic,
    WholeTone,
    DiminishedHalfWhole,
    DiminishedWholeHalf,
    Chromatic,
}

/// The steps of a scale from its tonic, without the closing step back to
/// the tonic.
pub open spec fn partial_intervals(k: ScaleKind) -> Seq<u8> {
    match k {
        ScaleKind::Major => seq![2, 2, 1, 2, 2, 2],
        ScaleKind::NaturalMinor => seq![2, 1, 2, 2, 1, 2],
        ScaleKind::HarmonicMinor => seq![2, 1, 2, 2, 1, 3],
        ScaleKind::MelodicMinor => seq![2, 1, 2, 2, 2, 2],
        ScaleKind::Dorian => seq![2, 1, 2, 2, 2, 1],
        ScaleKind::Phrygian => seq![1, 2, 2, 2, 1, 2],
        ScaleKind::Lydian => seq![2, 2, 2, 1, 2, 2],
        ScaleKind::Mixolydian => seq![2, 2, 1, 2, 2, 1],
        ScaleKind::Locrian => seq![1, 2, 2, 1, 2, 2],
        ScaleKind::MajorPentatonic => seq![2, 2, 3, 2],
        ScaleKind::MinorPentatonic => seq![3, 2, 2, 3],
        ScaleKind::WholeTone => seq![2, 2, 2, 2, 2],
        ScaleKind::DiminishedHalfWhole => seq![1, 2, 1, 2, 1, 2, 1],
        ScaleKind::DiminishedWholeHalf => seq![2, 1, 2, 1, 2, 1, 2],
        ScaleKind::Chromatic => seq![1, 1, 1, 1, 1, 1, 1, 1, 1, 1, 1],
    }
}

/// The sum of a sequence of steps.
pub open spec fn seq_sum(s: Seq<u8>) -> int
    decreases s.len(),
{
    if s.len() == 0 {
        0
    } else {
        seq_sum(s.drop_last()) + s.last()
    }
}

/// The same scale among the scale kinds of the music theory module.
pub open spec fn theory_kind(k: ScaleKind) -> crate::music::theory::ScaleKind {
    match k {
        ScaleKind::Major => crate::music::theory::ScaleKind::Major,
        ScaleKind::NaturalMinor => crate::music::theory::ScaleKind::NaturalMinor,
        ScaleKind::HarmonicMinor => crate::music::theory::ScaleKind::HarmonicMinor,
        ScaleKind::MelodicMinor => crate::music::theory::ScaleKind::MelodicMinor,
        ScaleKind::Dorian => crate::music::theory::ScaleKind::Dorian,
        ScaleKind::Phrygian => crate::music::theory::ScaleKind::Phrygian,
        ScaleKind::Lydian => crate::music::theory::ScaleKind::Lydian,
        ScaleKind::Mixolydian => crate::music::theory::ScaleKind::Mixolydian,
        ScaleKind::Locrian => crate::music::theory::ScaleKind::Locrian,
        ScaleKind::MajorPentatonic => crate::music::theory::ScaleKind::MajorPentatonic,
        ScaleKind::MinorPentatonic => crate::music::theory::ScaleKind::MinorPentatonic,
        ScaleKind::WholeTone => crate::music::theory::ScaleKind::WholeTone,
        ScaleKind::DiminishedHalfWhole => crate::music::theory::ScaleKind::DiminishedHalfWhole,
        ScaleKind::DiminishedWholeHalf => crate::music::theory::ScaleKind::DiminishedWholeHalf,
        ScaleKind::Chromatic => crate::music::theory::ScaleKind::Chromatic,
    }
}

/// The steps of a scale here are the steps of the same scale in the music
/// theory module without the closing step back to the tonic, and those make
/// up an octave of twelve semitones.
pub proof fn lemma_intervals_agree(k: ScaleKind)
    ensures
        partial_intervals(k) == crate::music::theory::scale_intervals(theory_kind(k)).drop_last(),
        seq_sum(crate::music::theory::scale_intervals(theory_kind(k))) == 12,
        seq_sum(partial_intervals(k)) < 12,
{
    reveal_with_fuel(seq_sum, 13);
    assert(partial_intervals(k) =~= crate::music::theory::scale_intervals(theory_kind(k)).drop_last());
}

/// The steps of one octave of a scale: the partial steps and, where they
/// fall short of twelve semitones, the closing step back to the tonic.
pub open spec fn closed_intervals(k: ScaleKind) -> Seq<u8> {
    let p = partial_intervals(k);
    let closing = 12 - seq_sum(p);
    if closing > 0 {
        p.push(closing as u8)
    } else {
        p
    }
}

/// The pitch classes reached from `tonic` by the first `n` of `steps`.
pub open spec fn classes_along(tonic: PitchClass, steps: Seq<u8>, n: nat) -> Seq<PitchClass>
    decreases n,
{
    if n == 0 {
        seq![tonic]
    } else {
        let prev = classes_along(tonic, steps, (n - 1) as nat);
        prev.push(class_of_index((prev.last() as int + steps[n - 1]) % 12))
    }
}

impl ScaleKind {
    /// The steps of the scale without the closing step back to the tonic.
    pub fn intervals(self) -> (res: &'static [u8])
        ensures
            res@ == partial_intervals(self),
            4 <= res@.len() <= 11,
            forall|i: int| 0 <= i < res@.len() ==> 1 <= #[trigger] res@[i] <= 3,
    {
        let res: &'static [u8] = match self {
            ScaleKind::Major => &[2, 2, 1, 2, 2, 2],
            ScaleKind::NaturalMinor => &[2, 1, 2, 2, 1, 2],
            ScaleKind::HarmonicMinor => &[2, 1, 2, 2, 1, 3],
            ScaleKind::MelodicMinor => &[2, 1, 2, 2, 2, 2],
            ScaleKind::Dorian => &[2, 1, 2, 2, 2, 1],
            ScaleKind::Phrygian => &[1, 2, 2, 2, 1, 2],
            ScaleKind::Lydian => &[2, 2, 2, 1, 2, 2],
            ScaleKind::Mixolydian => &[2, 2, 1, 2, 2, 1],
            ScaleKind::Locrian => &[1, 2, 2, 1, 2, 2],
            ScaleKind::MajorPentatonic => &[2, 2, 3, 2],
            ScaleKind::MinorPentatonic => &[3, 2, 2, 3],
            ScaleKind::WholeTone => &[2, 2, 2, 2, 2],
            ScaleKind::DiminishedHalfWhole => &[1, 2, 1, 2, 1, 2, 1],
            ScaleKind::DiminishedWholeHalf => &[2, 1, 2, 1, 2, 1, 2],
            ScaleKind::Chromatic => &[1, 1, 1, 1, 1, 1, 1, 1, 1, 1, 1],
        };
        assert(res@ =~= partial_intervals(self));
        res
    }

    /// The pitch classes of the scale starting from `tonic`.
    pub fn pitch_classes_from_tonic(self, tonic: &PitchClass) -> (res: Vec<PitchClass>)
        ensures
            res@ == classes_along(*tonic, partial_intervals(self), partial_intervals(self).len()),
    {
        let intervals = self.intervals();
        let mut pitch_classes: Vec<PitchClass> = Vec::new();
        let mut current_pitch = *tonic;
        pitch_classes.push(current_pitch);
        let mut i: usize = 0;
        while i < intervals.len()
            invariant
                intervals@ == partial_intervals(self),
                i <= intervals@.len(),
                pitch_classes@ == classes_along(*tonic, intervals@, i as nat),
                current_pitch == pitch_classes@.last(),
            decreases intervals@.len() - i,
        {
            current_pitch = current_pitch.add_semitones(intervals[i]);
            pitch_classes.push(current_pitch);
            i = i + 1;
        }
        pitch_classes
    }
}

/// The MIDI note number of the tonic in `octave`, for octaves from -1 up.
pub open spec fn start_note(tonic: PitchClass, octave: Octave) -> int {
    12 * (octave_number(octave) + 1) + tonic as int
}

/// The MIDI note number of `tonic` in `octave`; the octave must be -1 or
/// higher.
fn start_of(tonic: PitchClass, octave: Octave) -> (res: u8)
    requires
        octave != Octave::Osub2,
    ensures
        res == start_note(tonic, octave),
        res <= 131,
{
    let o: u8 = (octave.value() + 1) as u8;
    12 * o + tonic as u8
}

/// The `i`-th note of a walk through scale steps `steps` from `start`, each
/// step saturating at 0 and 255.
pub open spec fn byte_walk(start: int, steps: Seq<u8>, direction: SequenceDirection, i: nat) -> int
    decreases i,
{
    if i == 0 {
        start
    } else {
        let prev = byte_walk(start, steps, direction, (i - 1) as nat);
        let step = steps[(i - 1) % (steps.len() as int)] as int;
        match direction {
            SequenceDirection::Ascending => clamp_int(prev + step, 0, 255),
            SequenceDirection::Descending => clamp_int(prev - step, 0, 255),
        }
    }
}

/// The `i`-th note of a walk through scale steps `steps` from `start`,
/// saturating at 127 going up and at 0 going down.
pub open spec fn midi_walk(start: int, steps: Seq<u8>, direction: SequenceDirection, i: nat) -> int
    decreases i,
{
    if i == 0 {
        start
    } else {
        let prev = midi_walk(start, steps, direction, (i - 1) as nat);
        let step = steps[(i - 1) % (steps.len() as int)] as int;
        match direction {
            SequenceDirection::Ascending => if prev + step < 127 { prev + step } else { 127 },
            SequenceDirection::Descending => if prev - step > 0 { prev - step } else { 0 },
        }
    }
}

/// A walk through the notes of a scale, on MIDI note numbers.
#[derive(Clone, Copy, Debug)]
pub struct ScaleSequence {
    /// the tonic of the scale
    pub tonic: PitchClass,
    /// the scale, which decides the steps
    pub scale: ScaleKind,
    /// whether the walk goes up or down
    pub direction: SequenceDirection,
    /// the octave of the first note
    pub octave: Octave,
    /// how many notes the walk produces
    pub length: usize,
}

impl Default for ScaleSequence {
    fn default() -> (res: Self)
        ensures
            res.tonic == PitchClass::C,
            res.scale == ScaleKind::Chromatic,
            res.direction == SequenceDirection::Ascending,
            res.octave == Octave::O4,
            res.length == 64,
    {
        Self {
            tonic: PitchClass::C,
            scale: ScaleKind::Chromatic,
            direction: SequenceDirection::Ascending,
            octave: Octave::O4,
            length: 64,
        }
    }
}

impl ScaleSequence {
    /// The `length` notes of the walk from the tonic in the chosen octave;
    /// each step saturates at 0 and 255. The octave must be -1 or higher.
    pub fn as_midi_notes(&self) -> (res: Vec<u8>)
        requires
            self.octave != Octave::Osub2,
        ensures
            res@.len() == self.length,
            forall|i: int|
                0 <= i < self.length ==> res@[i] == byte_walk(
                    start_note(self.tonic, self.octave),
                    partial_intervals(self.scale),
                    self.direction,
                    i as nat,
                ),
    {
        let start = start_of(self.tonic, self.octave);
        let intervals = self.scale.intervals();
        let n = intervals.len();
        let mut notes: Vec<u8> = Vec::new();
        let mut cur = start;
        let mut i: usize = 0;
        while i < self.length
            invariant
                intervals@ == partial_intervals(self.scale),
                n == intervals@.len(),
                n >= 4,
                start == start_note(self.tonic, self.octave),
                i <= self.length,
                notes@.len() == i,
                cur == byte_walk(start as int, intervals@, self.direction, i as nat),
                forall|j: int|
                    0 <= j < i ==> #[trigger] notes@[j] == byte_walk(
                        start as int,
                        intervals@,
                        self.direction,
                        j as nat,
                    ),
            decreases self.length - i,
        {
            notes.push(cur);
            let step = intervals[i % n];
            match self.direction {
                SequenceDirection::Ascending => cur = cur.saturating_add(step),
                SequenceDirection::Descending => cur = cur.saturating_sub(step),
            }
            i = i + 1;
        }
        notes
    }
}

/// A chord voiced on every scale degree in turn, on MIDI note numbers; each
/// degree gives four notes.
#[derive(Clone, Copy, Debug)]
pub struct ChordRowSequence {
    pub tonic: PitchClass,
    pub scale: ScaleKind,
    pub octave: Octave,
    pub voicing: ChordVoicing,
    pub direction: SequenceDirection,
    pub length: usize,
}

impl Default for ChordRowSequence {
    fn default() -> (res: Self)
        ensures
            res.tonic == PitchClass::C,
            res.scale == ScaleKind::Major,
            res.octave == Octave::O4,
            res.voicing == ChordVoicing::Seventh,
            res.direction == SequenceDirection::Ascending,
            res.length == 64,
    {
        Self {
            tonic: PitchClass::C,
            scale: ScaleKind::Major,
            octave: Octave::O4,
            voicing: ChordVoicing::Seventh,
            direction: SequenceDirection::Ascending,
            length: 64,
        }
    }
}

/// The `k`-th note of a chord row: voice `k % 4` of the chord on degree
/// `k / 4` of the walk through the closed scale steps, shifted and saturated
/// to the MIDI range.
pub open spec fn chord_note(s: ChordRowSequence, k: nat) -> int {
    let (off, shift) = voicing_offsets(s.voicing)[(k % 4) as int];
    let base = midi_walk(
        start_note(s.tonic, s.octave),
        closed_intervals(s.scale),
        s.direction,
        (k / 4 + off) as nat,
    );
    clamp_int(base + shift, 0, 127)
}

impl ChordRowSequence {
    /// The `length` notes of the chord row. The octave must be -1 or higher.
    pub fn as_midi_notes(&self) -> (res: Vec<u8>)
        requires
            self.octave != Octave::Osub2,
        ensures
            res@.len() == self.length,
            forall|k: int| 0 <= k < self.length ==> res@[k] == chord_note(*self, k as nat),
    {
        let start = start_of(self.tonic, self.octave);
        let partial = self.scale.intervals();
        let mut partial_sum: u8 = 0;
        let mut i: usize = 0;
        while i < partial.len()
            invariant
                partial@ == partial_intervals(self.scale),
                partial@.len() <= 11,
                forall|j: int| 0 <= j < partial@.len() ==> 1 <= #[trigger] partial@[j] <= 3,
                i <= partial@.len(),
                partial_sum == seq_sum(partial@.take(i as int)),
                partial_sum <= 3 * i,
            decreases partial@.len() - i,
        {
            assert(partial@.take(i + 1).drop_last() =~= partial@.take(i as int));
            partial_sum = partial_sum + partial[i];
            i = i + 1;
        }
        assert(partial@.take(partial@.len() as int) =~= partial@);
        let closing_interval = 12u8.saturating_sub(partial_sum);
        let mut full_intervals: Vec<u8> = Vec::new();
        extend_bytes(&mut full_intervals, partial);
        if closing_interval > 0 {
            full_intervals.push(closing_interval);
        }
        assert(full_intervals@ =~= closed_intervals(self.scale));
        let n = full_intervals.len();
        let needed_degrees: usize = self.length / 4 + 12;
        let mut scale_notes: Vec<u8> = Vec::new();
        let mut cur = start;
        scale_notes.push(cur);
        let mut d: usize = 0;
        while scale_notes.len() < needed_degrees
            invariant
                full_intervals@ == closed_intervals(self.scale),
                n == full_intervals@.len(),
                n >= 4,
                start == start_note(self.tonic, self.octave),
                start <= 131,
                scale_notes@.len() == d + 1,
                d + 1 <= needed_degrees,
                cur == midi_walk(start as int, full_intervals@, self.direction, d as nat),
                cur <= 131,
                forall|j: int|
                    0 <= j < scale_notes@.len() ==> #[trigger] scale_notes@[j] == midi_walk(
                        start as int,
                        full_intervals@,
                        self.direction,
                        j as nat,
                    ),
            decreases needed_degrees - scale_notes@.len(),
        {
            let step = full_intervals[d % n];
            cur = match self.direction {
                SequenceDirection::Ascending => {
                    let up = cur.saturating_add(step);
                    if up < 127 {
                        up
                    } else {
                        127
                    }
                },
                SequenceDirection::Descending => cur.saturating_sub(step),
            };
            scale_notes.push(cur);
            d = d + 1;
        }
        let offsets = self.voicing.chord_offsets();
        let mut notes: Vec<u8> = Vec::new();
        let mut k: usize = 0;
        while k < self.length
            invariant
                offsets@ == voicing_offsets(self.voicing),
                full_intervals@ == closed_intervals(self.scale),
                start == start_note(self.tonic, self.octave),
                forall|j: int| 0 <= j < 4 ==> offsets@[j].0 <= 11,
                forall|j: int| 0 <= j < 4 ==> -12 <= #[trigger] offsets@[j].1 <= 12,
                scale_notes@.len() == needed_degrees,
                needed_degrees == self.length / 4 + 12,
                k <= self.length,
                notes@.len() == k,
                forall|j: int|
                    0 <= j < scale_notes@.len() ==> #[trigger] scale_notes@[j] == midi_walk(
                        start as int,
                        full_intervals@,
                        self.direction,
                        j as nat,
                    ),
                forall|j: int| 0 <= j < k ==> notes@[j] == chord_note(*self, j as nat),
            decreases self.length - k,
        {
            let (off, shift) = offsets[k % 4];
            proof {
                let j = (k % 4) as int;
                assert(offsets@[j] == (off, shift));
                assert(-12 <= offsets@[j].1 <= 12);
            }
            let v: i16 = scale_notes[k / 4 + off] as i16 + shift as i16;
            let note: u8 = if v < 0 {
                0
            } else if v > 127 {
                127
            } else {
                v as u8
            };
            notes.push(note);
            k = k + 1;
        }
        notes
    }
}


/// The steps of each scale here reach its textbook degrees, in semitones
/// above the tonic, one per note of the octave (see
/// [`crate::music::theory::lemma_scale_degrees`] for the same degrees).
#[verifier::spinoff_prover]
#[verifier::rlimit(100)]
pub proof fn lemma_partial_degrees(k: ScaleKind)
    ensures
        crate::music::theory::step_degrees(partial_intervals(k), 0) == (match k {
            ScaleKind::Major => seq![0int, 2, 4, 5, 7, 9, 11],
            ScaleKind::NaturalMinor => seq![0int, 2, 3, 5, 7, 8, 10],
            ScaleKind::HarmonicMinor => seq![0int, 2, 3, 5, 7, 8, 11],
            ScaleKind::MelodicMinor => seq![0int, 2, 3, 5, 7, 9, 11],
            ScaleKind::Dorian => seq![0int, 2, 3, 5, 7, 9, 10],
            ScaleKind::Phrygian => seq![0int, 1, 3, 5, 7, 8, 10],
            ScaleKind::Lydian => seq![0int, 2, 4, 6, 7, 9, 11],
            ScaleKind::Mixolydian => seq![0int, 2, 4, 5, 7, 9, 10],
            ScaleKind::Locrian => seq![0int, 1, 3, 5, 6, 8, 10],
            ScaleKind::MajorPentatonic => seq![0int, 2, 4, 7, 9],
            ScaleKind::MinorPentatonic => seq![0int, 3, 5, 7, 10],
            ScaleKind::WholeTone => seq![0int, 2, 4, 6, 8, 10],
            ScaleKind::DiminishedHalfWhole => seq![0int, 1, 3, 4, 6, 7, 9, 10],
            ScaleKind::DiminishedWholeHalf => seq![0int, 2, 3, 5, 6, 8, 9, 11],
            ScaleKind::Chromatic => seq![0int, 1, 2, 3, 4, 5, 6, 7, 8, 9, 10, 11],
        }),
{
    reveal_with_fuel(crate::music::theory::step_degrees, 13);
    assert(crate::music::theory::step_degrees(partial_intervals(k), 0) =~= (match k {
            ScaleKind::Major => seq![0int, 2, 4, 5, 7, 9, 11],
            ScaleKind::NaturalMinor => seq![0int, 2, 3, 5, 7, 8, 10],
            ScaleKind::HarmonicMinor => seq![0int, 2, 3, 5, 7, 8, 11],
            ScaleKind::MelodicMinor => seq![0int, 2, 3, 5, 7, 9, 11],
            ScaleKind::Dorian => seq![0int, 2, 3, 5, 7, 9, 10],
            ScaleKind::Phrygian => seq![0int, 1, 3, 5, 7, 8, 10],
            ScaleKind::Lydian => seq![0int, 2, 4, 6, 7, 9, 11],
            ScaleKind::Mixolydian => seq![0int, 2, 4, 5, 7, 9, 10],
            ScaleKind::Locrian => seq![0int, 1, 3, 5, 6, 8, 10],
            ScaleKind::MajorPentatonic => seq![0int, 2, 4, 7, 9],
            ScaleKind::MinorPentatonic => seq![0int, 3, 5, 7, 10],
            ScaleKind::WholeTone => seq![0int, 2, 4, 6, 8, 10],
            ScaleKind::DiminishedHalfWhole => seq![0int, 1, 3, 4, 6, 7, 9, 10],
            ScaleKind::DiminishedWholeHalf => seq![0int, 2, 3, 5, 6, 8, 9, 11],
            ScaleKind::Chromatic => seq![0int, 1, 2, 3, 4, 5, 6, 7, 8, 9, 10, 11],
        }));
}

} // verus!
