use vstd::prelude::*;
use vstd::string::StringExecFns;

use crate::midi::Note;

verus! {

/// Ways to arrange the four voices of a chord.
#[derive(Clone, Copy, Debug, PartialEq, Eq, Structural)]
pub enum ChordVoicing {
    Triad,
    Seventh,
    Inversion1,
    Inversion2,
    Inversion3,
    Drop2,
    Quartal,
    Shell,
    Power,
    Add9,
    NinthNo5,
}

/// The (scale degree offset, semitone shift) of each of the four voices of a
/// voicing; the shift is a whole number of octaves.
pub open spec fn voicing_offsets(v: ChordVoicing) -> Seq<(usize, i8)> {
    match v {
        ChordVoicing::Triad => seq![(0, 0), (2, 0), (4, 0), (0, 12)],
        ChordVoicing::Seventh => seq![(0, 0), (2, 0), (4, 0), (6, 0)],
        ChordVoicing::Inversion1 => seq![(2, 0), (4, 0), (6, 0), (7, 0)],
        ChordVoicing::Inversion2 => seq![(4, 0), (6, 0), (7, 0), (9, 0)],
        ChordVoicing::Inversion3 => seq![(6, 0), (7, 0), (9, 0), (11, 0)],
        ChordVoicing::Drop2 => seq![(4, -12i8), (0, 0), (2, 0), (6, 0)],
        ChordVoicing::Quartal => seq![(0, 0), (3, 0), (6, 0), (9, 0)],
        ChordVoicing::Shell => seq![(0, 0), (2, 0), (6, 0), (7, 0)],
        ChordVoicing::Power => seq![(0, 0), (4, 0), (7, 0), (11, 0)],
        ChordVoicing::Add9 => seq![(0, 0), (2, 0), (4, 0), (8, 0)],
        ChordVoicing::NinthNo5 => seq![(0, 0), (2, 0), (6, 0), (8, 0)],
    }
}

impl ChordVoicing {
    /// The (scale degree offset, semitone shift) of each of the four voices.
    pub(crate) fn chord_offsets(self) -> (res: [(usize, i8); 4])
        ensures
            res@ == voicing_offsets(self),
            forall|i: int| 0 <= i < 4 ==> res@[i].0 <= 11,
            forall|i: int|
                0 <= i < 4 ==> res@[i].1 == 0 || (res@[i].1 == 12 && self == ChordVoicing::Triad
                    && i == 3 && res@[i].0 == 0) || (res@[i].1 == -12 && res@[i].0 > 0),
    {
        let res = match self {
            ChordVoicing::Triad => [(0, 0), (2, 0), (4, 0), (0, 12)],
            ChordVoicing::Seventh => [(0, 0), (2, 0), (4, 0), (6, 0)],
            ChordVoicing::Inversion1 => [(2, 0), (4, 0), (6, 0), (7, 0)],
            ChordVoicing::Inversion2 => [(4, 0), (6, 0), (7, 0), (9, 0)],
            ChordVoicing::Inversion3 => [(6, 0), (7, 0), (9, 0), (11, 0)],
            ChordVoicing::Drop2 => [(4, -12), (0, 0), (2, 0), (6, 0)],
            ChordVoicing::Quartal => [(0, 0), (3, 0), (6, 0), (9, 0)],
            ChordVoicing::Shell => [(0, 0), (2, 0), (6, 0), (7, 0)],
            ChordVoicing::Power => [(0, 0), (4, 0), (7, 0), (11, 0)],
            ChordVoicing::Add9 => [(0, 0), (2, 0), (4, 0), (8, 0)],
            ChordVoicing::NinthNo5 => [(0, 0), (2, 0), (6, 0), (8, 0)],
        };
        assert(res@ =~= voicing_offsets(self));
        res
    }
}

/// An octave in scientific pitch notation; any `i8` is valid.
#[derive(Copy, Clone, Debug, PartialEq, Eq, Structural)]
pub struct Octave(pub i8);

impl From<i8> for Octave {
    fn from(value: i8) -> (res: Self) {
        Self(value)
    }
}

impl vstd::std_specs::convert::FromSpecImpl<i8> for Octave {
    open spec fn obeys_from_spec() -> bool {
        true
    }

    open spec fn from_spec(value: i8) -> Self {
        Octave(value)
    }
}

/// A pitch class and the octave it sits in.
#[derive(Clone, Copy, Debug, PartialEq, Eq, Structural)]
pub struct Pitch {
    pub class: PitchClass,
    pub octave: Octave,
}

/// The pitch class of MIDI note number `v`.
pub open spec fn class_of_midi(v: u8) -> PitchClass {
    class_of_index((v % 12) as int)
}

/// The pitch class with index `i` (0 = C), for `0 <= i < 12`.
pub open spec fn class_of_index(i: int) -> PitchClass {
    if i == 0 {
        PitchClass::C
    } else if i == 1 {
        PitchClass::Cs
    } else if i == 2 {
        PitchClass::D
    } else if i == 3 {
        PitchClass::Ds
    } else if i == 4 {
        PitchClass::E
    } else if i == 5 {
        PitchClass::F
    } else if i == 6 {
        PitchClass::Fs
    } else if i == 7 {
        PitchClass::G
    } else if i == 8 {
        PitchClass::Gs
    } else if i == 9 {
        PitchClass::A
    } else if i == 10 {
        PitchClass::As
    } else {
        PitchClass::B
    }
}

/// The pitch of MIDI note number `v`; note 0 is C in octave -1.
pub open spec fn pitch_of_midi(v: u8) -> Pitch {
    Pitch { class: class_of_midi(v), octave: Octave((v / 12 - 1) as i8) }
}

/// The position of a pitch counted in semitones from C in octave -1.
pub open spec fn pitch_position(p: Pitch) -> int {
    12 * (p.octave.0 + 1) + p.class as int
}

/// `v` saturated to `lo ..= hi`.
pub open spec fn clamp_int(v: int, lo: int, hi: int) -> int {
    if v < lo {
        lo
    } else if v > hi {
        hi
    } else {
        v
    }
}

impl From<u8> for Pitch {
    fn from(value: u8) -> (res: Self) {
        let octave = Octave((value / 12) as i8 - 1);
        let class = PitchClass::from_midi_note(value);
        Self { class, octave }
    }
}

impl vstd::std_specs::convert::FromSpecImpl<u8> for Pitch {
    open spec fn obeys_from_spec() -> bool {
        true
    }

    open spec fn from_spec(value: u8) -> Self {
        pitch_of_midi(value)
    }
}

/// The name of a pitch class, such as "C#".
pub open spec fn class_text(c: PitchClass) -> Seq<char> {
    match c {
        PitchClass::C => "C"@,
        PitchClass::Cs => "C#"@,
        PitchClass::D => "D"@,
        PitchClass::Ds => "D#"@,
        PitchClass::E => "E"@,
        PitchClass::F => "F"@,
        PitchClass::Fs => "F#"@,
        PitchClass::G => "G"@,
        PitchClass::Gs => "G#"@,
        PitchClass::A => "A"@,
        PitchClass::As => "A#"@,
        PitchClass::B => "B"@,
    }
}

/// The superscript form of a decimal digit.
pub open spec fn superscript_digit(d: int) -> Seq<char> {
    if d == 0 {
        "\u{2070}"@
    } else if d == 1 {
        "\u{b9}"@
    } else if d == 2 {
        "\u{b2}"@
    } else if d == 3 {
        "\u{b3}"@
    } else if d == 4 {
        "\u{2074}"@
    } else if d == 5 {
        "\u{2075}"@
    } else if d == 6 {
        "\u{2076}"@
    } else if d == 7 {
        "\u{2077}"@
    } else if d == 8 {
        "\u{2078}"@
    } else {
        "\u{2079}"@
    }
}

/// The decimal digits of `n` in superscript.
pub open spec fn superscript_nat(n: nat) -> Seq<char>
    decreases n,
{
    if n < 10 {
        superscript_digit(n as int)
    } else {
        superscript_nat(n / 10) + superscript_digit((n % 10) as int)
    }
}

/// `n` in superscript, with a superscript minus sign when negative.
pub open spec fn superscript_int(n: int) -> Seq<char> {
    if n < 0 {
        "\u{207b}"@ + superscript_nat((-n) as nat)
    } else {
        superscript_nat(n as nat)
    }
}

/// A pitch written in scientific pitch notation with a superscript octave.
pub open spec fn pitch_text(p: Pitch) -> Seq<char> {
    class_text(p.class) + superscript_int(p.octave.0 as int)
}

fn superscript_digit_str(d: u8) -> (res: &'static str)
    requires
        d < 10,
    ensures
        res@ == superscript_digit(d as int),
{
    if d == 0 {
        "\u{2070}"
    } else if d == 1 {
        "\u{b9}"
    } else if d == 2 {
        "\u{b2}"
    } else if d == 3 {
        "\u{b3}"
    } else if d == 4 {
        "\u{2074}"
    } else if d == 5 {
        "\u{2075}"
    } else if d == 6 {
        "\u{2076}"
    } else if d == 7 {
        "\u{2077}"
    } else if d == 8 {
        "\u{2078}"
    } else {
        "\u{2079}"
    }
}

fn push_superscript_nat(s: &mut String, n: u8)
    ensures
        final(s)@ == old(s)@ + superscript_nat(n as nat),
    decreases n,
{
    if n < 10 {
        s.append(superscript_digit_str(n));
    } else {
        push_superscript_nat(s, n / 10);
        s.append(superscript_digit_str(n % 10));
    }
}

impl Pitch {
    /// The pitch `semitones` away, saturated to the MIDI note range.
    pub fn add_semitones(self, semitones: i8) -> (res: Self)
        ensures
            res == pitch_of_midi(
                clamp_int(pitch_position(self) + semitones, 0, 127) as u8,
            ),
    {
        let absolute: i16 = 12 * (self.octave.0 as i16 + 1) + self.class as i16;
        let sum: i16 = absolute + semitones as i16;
        let new_absolute: u8 = if sum < 0 {
            0
        } else if sum > 127 {
            127
        } else {
            sum as u8
        };
        Pitch::from(new_absolute)
    }

    /// The pitch in scientific pitch notation with a superscript octave, such
    /// as "C#⁴".
    pub fn to_string(&self) -> (res: String)
        ensures
            res@ == pitch_text(*self),
    {
        let mut s = String::new();
        s.append(self.class.name());
        let o = self.octave.0;
        if o < 0 {
            s.append("\u{207b}");
            let m: u8 = if o == -128 {
                128
            } else {
                (-o) as u8
            };
            push_superscript_nat(&mut s, m);
        } else {
            push_superscript_nat(&mut s, o as u8);
        }
        assert(s@ =~= pitch_text(*self));
        s
    }
}

/// The twelve pitch classes of equal temperament.
#[derive(Clone, Copy, Debug, Eq, PartialEq, Default, Hash, Structural)]
pub enum PitchClass {
    #[default]
    C,
    Cs,
    D,
    Ds,
    E,
    F,
    Fs,
    G,
    Gs,
    A,
    As,
    B,
}

impl PitchClass {
    /// The pitch class with index `i` (0 = C), for `i < 12`.
    pub fn from_index(i: u8) -> (res: Self)
        requires
            i < 12,
        ensures
            res == class_of_index(i as int),
            res as u8 == i,
    {
        if i == 0 {
            PitchClass::C
        } else if i == 1 {
            PitchClass::Cs
        } else if i == 2 {
            PitchClass::D
        } else if i == 3 {
            PitchClass::Ds
        } else if i == 4 {
            PitchClass::E
        } else if i == 5 {
            PitchClass::F
        } else if i == 6 {
            PitchClass::Fs
        } else if i == 7 {
            PitchClass::G
        } else if i == 8 {
            PitchClass::Gs
        } else if i == 9 {
            PitchClass::A
        } else if i == 10 {
            PitchClass::As
        } else {
            PitchClass::B
        }
    }

    /// The pitch class of a MIDI note number.
    pub fn from_midi_note(val: u8) -> (res: Self)
        ensures
            res == class_of_midi(val),
            res as u8 == val % 12,
    {
        PitchClass::from_index(val % 12)
    }

    /// The pitch class `semitones` above this one.
    pub fn add_semitones(self, semitones: u8) -> (res: Self)
        ensures
            res == class_of_index((self as int + semitones) % 12),
            res as int == (self as int + semitones) % 12,
    {
        let new_value = ((self as u16 + semitones as u16) % 12) as u8;
        PitchClass::from_index(new_value)
    }

    /// The name of the pitch class, such as "C#".
    pub fn name(&self) -> (res: &'static str)
        ensures
            res@ == class_text(*self),
    {
        match self {
            PitchClass::C => "C",
            PitchClass::Cs => "C#",
            PitchClass::D => "D",
            PitchClass::Ds => "D#",
            PitchClass::E => "E",
            PitchClass::F => "F",
            PitchClass::Fs => "F#",
            PitchClass::G => "G",
            PitchClass::Gs => "G#",
            PitchClass::A => "A",
            PitchClass::As => "A#",
            PitchClass::B => "B",
        }
    }
}

impl From<PitchClass> for u8 {
    fn from(c: PitchClass) -> (res: u8) {
        c as u8
    }
}

impl vstd::std_specs::convert::FromSpecImpl<PitchClass> for u8 {
    open spec fn obeys_from_spec() -> bool {
        true
    }

    open spec fn from_spec(c: PitchClass) -> u8 {
        c as u8
    }
}

impl From<Note> for PitchClass {
    fn from(note: Note) -> (res: Self) {
        PitchClass::from_midi_note(note.as_u8())
    }
}

impl vstd::std_specs::convert::FromSpecImpl<Note> for PitchClass {
    open spec fn obeys_from_spec() -> bool {
        true
    }

    open spec fn from_spec(note: Note) -> Self {
        class_of_midi(note as u8)
    }
}

/// Scale variants used for note generation.
#[derive(Clone, Copy, Debug, Eq, PartialEq, Structural)]
pub enum ScaleKind {
    Major,
    NaturalMinor,
    HarmonicMinor,
    MelodicMinor,
    Dorian,
    Phrygian,
    Lydian,
    Mixolydian,
    Locrian,
    MajorPentatonic,
    MinorPentatonic,
    WholeTone,
    DiminishedHalfWhole,
    DiminishedWholeHalf,
    Chromatic,
}

/// The semitone steps of one octave of a scale, ending back on the tonic.
pub open spec fn scale_intervals(k: ScaleKind) -> Seq<u8> {
    match k {
        ScaleKind::Major => seq![2, 2, 1, 2, 2, 2, 1],
        ScaleKind::NaturalMinor => seq![2, 1, 2, 2, 1, 2, 2],
        ScaleKind::HarmonicMinor => seq![2, 1, 2, 2, 1, 3, 1],
        ScaleKind::MelodicMinor => seq![2, 1, 2, 2, 2, 2, 1],
        ScaleKind::Dorian => seq![2, 1, 2, 2, 2, 1, 2],
        ScaleKind::Phrygian => seq![1, 2, 2, 2, 1, 2, 2],
        ScaleKind::Lydian => seq![2, 2, 2, 1, 2, 2, 1],
        ScaleKind::Mixolydian => seq![2, 2, 1, 2, 2, 1, 2],
        ScaleKind::Locrian => seq![1, 2, 2, 1, 2, 2, 2],
        ScaleKind::MajorPentatonic => seq![2, 2, 3, 2, 3],
        ScaleKind::MinorPentatonic => seq![3, 2, 2, 3, 2],
        ScaleKind::WholeTone => seq![2, 2, 2, 2, 2, 2],
        ScaleKind::DiminishedHalfWhole => seq![1, 2, 1, 2, 1, 2, 1, 2],
        ScaleKind::DiminishedWholeHalf => seq![2, 1, 2, 1, 2, 1, 2, 1],
        ScaleKind::Chromatic => seq![1, 1, 1, 1, 1, 1, 1, 1, 1, 1, 1, 1],
    }
}

/// The pitch classes of a scale from its tonic: the tonic, then each class a
/// step further, without the closing step back to the tonic.
pub open spec fn scale_classes(k: ScaleKind, tonic: PitchClass, n: nat) -> Seq<PitchClass>
    decreases n,
{
    if n == 0 {
        seq![tonic]
    } else {
        let prev = scale_classes(k, tonic, (n - 1) as nat);
        prev.push(class_of_index((prev.last() as int + scale_intervals(k)[n - 1]) % 12))
    }
}

impl ScaleKind {
    /// The steps of the scale without the closing step back to the tonic.
    pub fn sequence_intervals(self) -> (res: &'static [u8])
        ensures
            res@ == scale_intervals(self).drop_last(),
    {
        let intervals = self.intervals();
        let res = &intervals[0..intervals.len() - 1];
        assert(res@ =~= scale_intervals(self).drop_last());
        res
    }

    /// The semitone steps of one octave of the scale.
    pub fn intervals(self) -> (res: &'static [u8])
        ensures
            res@ == scale_intervals(self),
            res@.len() >= 5,
            forall|i: int| 0 <= i < res@.len() ==> 1 <= #[trigger] res@[i] <= 3,
    {
        let res: &'static [u8] = match self {
            ScaleKind::Major => &[2, 2, 1, 2, 2, 2, 1],
            ScaleKind::NaturalMinor => &[2, 1, 2, 2, 1, 2, 2],
            ScaleKind::HarmonicMinor => &[2, 1, 2, 2, 1, 3, 1],
            ScaleKind::MelodicMinor => &[2, 1, 2, 2, 2, 2, 1],
            ScaleKind::Dorian => &[2, 1, 2, 2, 2, 1, 2],
            ScaleKind::Phrygian => &[1, 2, 2, 2, 1, 2, 2],
            ScaleKind::Lydian => &[2, 2, 2, 1, 2, 2, 1],
            ScaleKind::Mixolydian => &[2, 2, 1, 2, 2, 1, 2],
            ScaleKind::Locrian => &[1, 2, 2, 1, 2, 2, 2],
            ScaleKind::MajorPentatonic => &[2, 2, 3, 2, 3],
            ScaleKind::MinorPentatonic => &[3, 2, 2, 3, 2],
            ScaleKind::WholeTone => &[2, 2, 2, 2, 2, 2],
            ScaleKind::DiminishedHalfWhole => &[1, 2, 1, 2, 1, 2, 1, 2],
            ScaleKind::DiminishedWholeHalf => &[2, 1, 2, 1, 2, 1, 2, 1],
            ScaleKind::Chromatic => &[1, 1, 1, 1, 1, 1, 1, 1, 1, 1, 1, 1],
        };
        assert(res@ =~= scale_intervals(self));
        res
    }

    /// The pitch classes of the scale starting from `tonic`.
    pub fn pitch_classes_from_tonic(self, tonic: &PitchClass) -> (res: Vec<PitchClass>)
        ensures
            res@ == scale_classes(self, *tonic, (scale_intervals(self).len() - 1) as nat),
    {
        let intervals = self.sequence_intervals();
        let mut pitch_classes: Vec<PitchClass> = Vec::new();
        let mut current_pitch = *tonic;
        pitch_classes.push(current_pitch);
        let mut i: usize = 0;
        while i < intervals.len()
            invariant
                intervals@ == scale_intervals(self).drop_last(),
                i <= intervals@.len(),
                pitch_classes@ == scale_classes(self, *tonic, i as nat),
                current_pitch == pitch_classes@.last(),
            decreases intervals@.len() - i,
        {
            current_pitch = current_pitch.add_semitones(intervals[i]);
            pitch_classes.push(current_pitch);
            i = i + 1;
        }
        pitch_classes
    }
}


/// The semitones above the tonic that a walk reaches by `steps`, starting
/// `from` semitones above it: the start, then each running total.
pub open spec fn step_degrees(steps: Seq<u8>, from: int) -> Seq<int>
    decreases steps.len(),
{
    if steps.len() == 0 {
        seq![from]
    } else {
        seq![from] + step_degrees(steps.drop_first(), from + steps[0])
    }
}

/// The steps of each scale reach the textbook degrees of that scale, in
/// semitones above the tonic, and close on the octave: major 0 2 4 5 7 9 11,
/// natural minor 0 2 3 5 7 8 10, harmonic minor 0 2 3 5 7 8 11, melodic minor
/// 0 2 3 5 7 9 11, dorian 0 2 3 5 7 9 10, phrygian 0 1 3 5 7 8 10, lydian
/// 0 2 4 6 7 9 11, mixolydian 0 2 4 5 7 9 10, locrian 0 1 3 5 6 8 10, major
/// pentatonic 0 2 4 7 9, minor pentatonic 0 3 5 7 10, whole tone 0 2 4 6 8 10,
/// half-whole diminished 0 1 3 4 6 7 9 10, whole-half diminished
/// 0 2 3 5 6 8 9 11, chromatic every semitone.
#[verifier::spinoff_prover]
#[verifier::rlimit(100)]
pub proof fn lemma_scale_degrees(k: ScaleKind)
    ensures
        step_degrees(scale_intervals(k), 0) == (match k {
            ScaleKind::Major => seq![0int, 2, 4, 5, 7, 9, 11, 12],
            ScaleKind::NaturalMinor => seq![0int, 2, 3, 5, 7, 8, 10, 12],
            ScaleKind::HarmonicMinor => seq![0int, 2, 3, 5, 7, 8, 11, 12],
            ScaleKind::MelodicMinor => seq![0int, 2, 3, 5, 7, 9, 11, 12],
            ScaleKind::Dorian => seq![0int, 2, 3, 5, 7, 9, 10, 12],
            ScaleKind::Phrygian => seq![0int, 1, 3, 5, 7, 8, 10, 12],
            ScaleKind::Lydian => seq![0int, 2, 4, 6, 7, 9, 11, 12],
            ScaleKind::Mixolydian => seq![0int, 2, 4, 5, 7, 9, 10, 12],
            ScaleKind::Locrian => seq![0int, 1, 3, 5, 6, 8, 10, 12],
            ScaleKind::MajorPentatonic => seq![0int, 2, 4, 7, 9, 12],
            ScaleKind::MinorPentatonic => seq![0int, 3, 5, 7, 10, 12],
            ScaleKind::WholeTone => seq![0int, 2, 4, 6, 8, 10, 12],
            ScaleKind::DiminishedHalfWhole => seq![0int, 1, 3, 4, 6, 7, 9, 10, 12],
            ScaleKind::DiminishedWholeHalf => seq![0int, 2, 3, 5, 6, 8, 9, 11, 12],
            ScaleKind::Chromatic => seq![0int, 1, 2, 3, 4, 5, 6, 7, 8, 9, 10, 11, 12],
        }),
{
    reveal_with_fuel(step_degrees, 13);
    assert(step_degrees(scale_intervals(k), 0) =~= (match k {
            ScaleKind::Major => seq![0int, 2, 4, 5, 7, 9, 11, 12],
            ScaleKind::NaturalMinor => seq![0int, 2, 3, 5, 7, 8, 10, 12],
            ScaleKind::HarmonicMinor => seq![0int, 2, 3, 5, 7, 8, 11, 12],
            ScaleKind::MelodicMinor => seq![0int, 2, 3, 5, 7, 9, 11, 12],
            ScaleKind::Dorian => seq![0int, 2, 3, 5, 7, 9, 10, 12],
            ScaleKind::Phrygian => seq![0int, 1, 3, 5, 7, 8, 10, 12],
            ScaleKind::Lydian => seq![0int, 2, 4, 6, 7, 9, 11, 12],
            ScaleKind::Mixolydian => seq![0int, 2, 4, 5, 7, 9, 10, 12],
            ScaleKind::Locrian => seq![0int, 1, 3, 5, 6, 8, 10, 12],
            ScaleKind::MajorPentatonic => seq![0int, 2, 4, 7, 9, 12],
            ScaleKind::MinorPentatonic => seq![0int, 3, 5, 7, 10, 12],
            ScaleKind::WholeTone => seq![0int, 2, 4, 6, 8, 10, 12],
            ScaleKind::DiminishedHalfWhole => seq![0int, 1, 3, 4, 6, 7, 9, 10, 12],
            ScaleKind::DiminishedWholeHalf => seq![0int, 2, 3, 5, 6, 8, 9, 11, 12],
            ScaleKind::Chromatic => seq![0int, 1, 2, 3, 4, 5, 6, 7, 8, 9, 10, 11, 12],
        }));
}


/// The superscript digits are the Unicode superscript characters: zero and
/// four to nine at U+2070 plus the digit, one at U+00B9, two and three at
/// U+00B0 plus the digit; each digit is written as one character.
pub proof fn lemma_superscript_code_points(d: int)
    requires
        0 <= d <= 9,
    ensures
        superscript_digit(d).len() == 1,
        superscript_digit(d)[0] as u32 == (if d == 1 {
            0xB9int
        } else if d == 2 || d == 3 {
            0xB0 + d
        } else {
            0x2070 + d
        }),
{
    reveal_strlit("\u{2070}");
    reveal_strlit("\u{b9}");
    reveal_strlit("\u{b2}");
    reveal_strlit("\u{b3}");
    reveal_strlit("\u{2074}");
    reveal_strlit("\u{2075}");
    reveal_strlit("\u{2076}");
    reveal_strlit("\u{2077}");
    reveal_strlit("\u{2078}");
    reveal_strlit("\u{2079}");
}


/// The name of the pitch class `c` semitones above C: its letter, the
/// letter of the natural at or below it in C D E F G A B, followed by '#'
/// exactly for the five classes between naturals (1, 3, 6, 8 and 10).
pub proof fn lemma_class_text_letters(c: PitchClass)
    ensures
        class_text(c)[0] == seq!['C', 'C', 'D', 'D', 'E', 'F', 'F', 'G', 'G', 'A', 'A', 'B'][c as int],
        class_text(c).len() == (if c as u8 == 1 || c as u8 == 3 || c as u8 == 6 || c as u8 == 8 || c as u8 == 10 {
            2int
        } else {
            1int
        }),
        class_text(c).len() == 2 ==> class_text(c)[1] == '#',
{
    reveal_strlit("C");
    reveal_strlit("C#");
    reveal_strlit("D");
    reveal_strlit("D#");
    reveal_strlit("E");
    reveal_strlit("F");
    reveal_strlit("F#");
    reveal_strlit("G");
    reveal_strlit("G#");
    reveal_strlit("A");
    reveal_strlit("A#");
    reveal_strlit("B");
}


/// The pitch of MIDI note `v` sits `v` semitones above C in octave -1: its
/// class is the one `v % 12` semitones above C and its octave is
/// `v / 12 - 1`.
pub proof fn lemma_pitch_of_midi_position(v: u8)
    ensures
        pitch_of_midi(v).class as u8 == v % 12,
        pitch_of_midi(v).octave.0 == v / 12 - 1,
        pitch_position(pitch_of_midi(v)) == v,
{
}


/// The four voices of each chord voicing, as (scale steps above the chord's
/// root, semitone shift): a triad is root, third, fifth and the root an
/// octave up; a seventh chord stacks root, third, fifth and seventh; the
/// inversions start on the third, fifth and seventh; drop 2 moves the fifth
/// an octave down; quartal stacks fourths; a shell keeps root, third,
/// seventh and octave; a power chord root, fifth, octave and fifth above;
/// add 9 and ninth-no-five add the ninth.
pub proof fn lemma_voicing_voices(v: ChordVoicing)
    ensures
        voicing_offsets(v) == (match v {
            ChordVoicing::Triad => seq![(0usize, 0i8), (2, 0), (4, 0), (0, 12)],
            ChordVoicing::Seventh => seq![(0usize, 0i8), (2, 0), (4, 0), (6, 0)],
            ChordVoicing::Inversion1 => seq![(2usize, 0i8), (4, 0), (6, 0), (7, 0)],
            ChordVoicing::Inversion2 => seq![(4usize, 0i8), (6, 0), (7, 0), (9, 0)],
            ChordVoicing::Inversion3 => seq![(6usize, 0i8), (7, 0), (9, 0), (11, 0)],
            ChordVoicing::Drop2 => seq![(4usize, -12i8), (0, 0), (2, 0), (6, 0)],
            ChordVoicing::Quartal => seq![(0usize, 0i8), (3, 0), (6, 0), (9, 0)],
            ChordVoicing::Shell => seq![(0usize, 0i8), (2, 0), (6, 0), (7, 0)],
            ChordVoicing::Power => seq![(0usize, 0i8), (4, 0), (7, 0), (11, 0)],
            ChordVoicing::Add9 => seq![(0usize, 0i8), (2, 0), (4, 0), (8, 0)],
            ChordVoicing::NinthNo5 => seq![(0usize, 0i8), (2, 0), (6, 0), (8, 0)],
        }),
{
}

} // verus!
