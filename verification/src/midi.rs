use vstd::prelude::*;

use crate::music::theory;
use crate::music::theory::Pitch;

pub mod generation;

verus! {

/// The octave in scientific pitch notation, bounded to the range of MIDI
/// notes (-2 ..= 9).
#[derive(Copy, Clone, Debug, PartialEq, Eq, Structural)]
pub enum Octave {
    Osub2,
    Osub1,
    O0,
    O1,
    O2,
    O3,
    O4,
    O5,
    O6,
    O7,
    O8,
    O9,
}

/// The octave number of a bounded octave.
pub open spec fn octave_number(o: Octave) -> int {
    (o as int) - 2
}

/// The bounded octave nearest to `v`.
pub open spec fn octave_saturating(v: int) -> Octave {
    if v <= -2 {
        Octave::Osub2
    } else if v == -1 {
        Octave::Osub1
    } else if v == 0 {
        Octave::O0
    } else if v == 1 {
        Octave::O1
    } else if v == 2 {
        Octave::O2
    } else if v == 3 {
        Octave::O3
    } else if v == 4 {
        Octave::O4
    } else if v == 5 {
        Octave::O5
    } else if v == 6 {
        Octave::O6
    } else if v == 7 {
        Octave::O7
    } else if v == 8 {
        Octave::O8
    } else {
        Octave::O9
    }
}

impl Octave {
    /// The octave number, -2 ..= 9.
    pub fn value(&self) -> (res: i8)
        ensures
            res == octave_number(*self),
            -2 <= res <= 9,
    {
        (*self as i8) - 2
    }

}

/// Saturates at `Osub2` below and at `O9` above.
impl From<i8> for Octave {
    fn from(value: i8) -> (res: Self) {
        if value <= -2 {
            Octave::Osub2
        } else if value == -1 {
            Octave::Osub1
        } else if value == 0 {
            Octave::O0
        } else if value == 1 {
            Octave::O1
        } else if value == 2 {
            Octave::O2
        } else if value == 3 {
            Octave::O3
        } else if value == 4 {
            Octave::O4
        } else if value == 5 {
            Octave::O5
        } else if value == 6 {
            Octave::O6
        } else if value == 7 {
            Octave::O7
        } else if value == 8 {
            Octave::O8
        } else {
            Octave::O9
        }
    }
}

impl vstd::std_specs::convert::FromSpecImpl<i8> for Octave {
    open spec fn obeys_from_spec() -> bool {
        true
    }

    open spec fn from_spec(value: i8) -> Self {
        octave_saturating(value as int)
    }
}

/// A MIDI data value, 0 ..= 127.
#[derive(Default, Clone, Copy, Debug, PartialEq, Eq, Hash, Structural)]
pub struct Value(u8);

impl View for Value {
    type V = u8;

    closed spec fn view(&self) -> u8 {
        self.0
    }
}

/// `v` saturated to the MIDI data range.
pub open spec fn clamp_midi(v: u8) -> u8 {
    if v > 127 {
        127
    } else {
        v
    }
}

impl Value {
    pub const MIN: u8 = 0;
    pub const MAX: u8 = 127;

    pub closed spec fn wf(&self) -> bool {
        self.0 <= 127
    }

    /// A well-formed value is at most 127, and values are equal when they
    /// view as the same number.
    pub proof fn lemma_view(a: Value, b: Value)
        ensures
            a.wf() ==> a@ <= 127,
            a@ == b@ ==> a == b,
    {
    }

    pub fn as_u8(&self) -> (res: u8)
        ensures
            res == self@,
    {
        self.0
    }

    /// The value, saturated at 127.
    pub fn new(value: u8) -> (res: Self)
        ensures
            res@ == clamp_midi(value),
            res.wf(),
    {
        if value > 127 {
            Value(127)
        } else {
            Value(value)
        }
    }
}

impl From<u8> for Value {
    fn from(value: u8) -> (res: Self) {
        Value::new(value)
    }
}

impl vstd::std_specs::convert::FromSpecImpl<u8> for Value {
    open spec fn obeys_from_spec() -> bool {
        true
    }

    closed spec fn from_spec(value: u8) -> Self {
        Value(clamp_midi(value))
    }
}

impl From<Value> for u8 {
    fn from(val: Value) -> (res: u8) {
        val.0
    }
}

impl vstd::std_specs::convert::FromSpecImpl<Value> for u8 {
    open spec fn obeys_from_spec() -> bool {
        true
    }

    open spec fn from_spec(val: Value) -> u8 {
        val@
    }
}

/// A MIDI data byte, as the controller settings store it.
pub type MidiValue = u8;

/// A MIDI note number, 0 ..= 127.
#[derive(Clone, Copy, Debug, PartialEq, Eq, Hash, Structural)]
pub enum Note {
    N0,
    N1,
    N2,
    N3,
    N4,
    N5,
    N6,
    N7,
    N8,
    N9,
    N10,
    N11,
    N12,
    N13,
    N14,
    N15,
    N16,
    N17,
    N18,
    N19,
    N20,
    N21,
    N22,
    N23,
    N24,
    N25,
    N26,
    N27,
    N28,
    N29,
    N30,
    N31,
    N32,
    N33,
    N34,
    N35,
    N36,
    N37,
    N38,
    N39,
    N40,
    N41,
    N42,
    N43,
    N44,
    N45,
    N46,
    N47,
    N48,
    N49,
    N50,
    N51,
    N52,
    N53,
    N54,
    N55,
    N56,
    N57,
    N58,
    N59,
    N60,
    N61,
    N62,
    N63,
    N64,
    N65,
    N66,
    N67,
    N68,
    N69,
    N70,
    N71,
    N72,
    N73,
    N74,
    N75,
    N76,
    N77,
    N78,
    N79,
    N80,
    N81,
    N82,
    N83,
    N84,
    N85,
    N86,
    N87,
    N88,
    N89,
    N90,
    N91,
    N92,
    N93,
    N94,
    N95,
    N96,
    N97,
    N98,
    N99,
    N100,
    N101,
    N102,
    N103,
    N104,
    N105,
    N106,
    N107,
    N108,
    N109,
    N110,
    N111,
    N112,
    N113,
    N114,
    N115,
    N116,
    N117,
    N118,
    N119,
    N120,
    N121,
    N122,
    N123,
    N124,
    N125,
    N126,
    N127,
}

/// A MIDI note, named after the role it plays in a sequence.
pub type MidiNote = Note;

/// The note with number `v`, saturated at 127.
pub open spec fn note_of(v: u8) -> Note {
    match v {
        0 => Note::N0,
        1 => Note::N1,
        2 => Note::N2,
        3 => Note::N3,
        4 => Note::N4,
        5 => Note::N5,
        6 => Note::N6,
        7 => Note::N7,
        8 => Note::N8,
        9 => Note::N9,
        10 => Note::N10,
        11 => Note::N11,
        12 => Note::N12,
        13 => Note::N13,
        14 => Note::N14,
        15 => Note::N15,
        16 => Note::N16,
        17 => Note::N17,
        18 => Note::N18,
        19 => Note::N19,
        20 => Note::N20,
        21 => Note::N21,
        22 => Note::N22,
        23 => Note::N23,
        24 => Note::N24,
        25 => Note::N25,
        26 => Note::N26,
        27 => Note::N27,
        28 => Note::N28,
        29 => Note::N29,
        30 => Note::N30,
        31 => Note::N31,
        32 => Note::N32,
        33 => Note::N33,
        34 => Note::N34,
        35 => Note::N35,
        36 => Note::N36,
        37 => Note::N37,
        38 => Note::N38,
        39 => Note::N39,
        40 => Note::N40,
        41 => Note::N41,
        42 => Note::N42,
        43 => Note::N43,
        44 => Note::N44,
        45 => Note::N45,
        46 => Note::N46,
        47 => Note::N47,
        48 => Note::N48,
        49 => Note::N49,
        50 => Note::N50,
        51 => Note::N51,
        52 => Note::N52,
        53 => Note::N53,
        54 => Note::N54,
        55 => Note::N55,
        56 => Note::N56,
        57 => Note::N57,
        58 => Note::N58,
        59 => Note::N59,
        60 => Note::N60,
        61 => Note::N61,
        62 => Note::N62,
        63 => Note::N63,
        64 => Note::N64,
        65 => Note::N65,
        66 => Note::N66,
        67 => Note::N67,
        68 => Note::N68,
        69 => Note::N69,
        70 => Note::N70,
        71 => Note::N71,
        72 => Note::N72,
        73 => Note::N73,
        74 => Note::N74,
        75 => Note::N75,
        76 => Note::N76,
        77 => Note::N77,
        78 => Note::N78,
        79 => Note::N79,
        80 => Note::N80,
        81 => Note::N81,
        82 => Note::N82,
        83 => Note::N83,
        84 => Note::N84,
        85 => Note::N85,
        86 => Note::N86,
        87 => Note::N87,
        88 => Note::N88,
        89 => Note::N89,
        90 => Note::N90,
        91 => Note::N91,
        92 => Note::N92,
        93 => Note::N93,
        94 => Note::N94,
        95 => Note::N95,
        96 => Note::N96,
        97 => Note::N97,
        98 => Note::N98,
        99 => Note::N99,
        100 => Note::N100,
        101 => Note::N101,
        102 => Note::N102,
        103 => Note::N103,
        104 => Note::N104,
        105 => Note::N105,
        106 => Note::N106,
        107 => Note::N107,
        108 => Note::N108,
        109 => Note::N109,
        110 => Note::N110,
        111 => Note::N111,
        112 => Note::N112,
        113 => Note::N113,
        114 => Note::N114,
        115 => Note::N115,
        116 => Note::N116,
        117 => Note::N117,
        118 => Note::N118,
        119 => Note::N119,
        120 => Note::N120,
        121 => Note::N121,
        122 => Note::N122,
        123 => Note::N123,
        124 => Note::N124,
        125 => Note::N125,
        126 => Note::N126,
        _ => Note::N127,
    }
}

impl Default for Note {
    fn default() -> (res: Self)
        ensures
            res == Note::N0,
    {
        Note::N0
    }
}

/// A note number up to 127 names the note with that number.
pub proof fn lemma_note_of_number(v: u8)
    requires
        v <= 127,
    ensures
        note_of(v) as u8 == v,
{
}

/// The number of a note is at most 127 and names the note.
pub proof fn lemma_number_of_note(n: Note)
    ensures
        (n as u8) <= 127,
        note_of(n as u8) == n,
{
}

impl Note {
    /// The note with number `value`, if it is at most 127.
    pub fn try_from_u8(value: u8) -> (res: Option<Self>)
        ensures
            value <= 127 ==> res == Some(note_of(value)),
            value > 127 ==> res is None,
    {
        if value <= 127 {
            Some(Note::from_u8(value))
        } else {
            None
        }
    }

    pub fn as_u8(&self) -> (res: u8)
        ensures
            res == *self as u8,
            res <= 127,
    {
        *self as u8
    }

    /// The note with number `value`, saturated at 127.
    pub fn from_u8(value: u8) -> (res: Self)
        ensures
            res == note_of(value),
            res as u8 == clamp_midi(value),
    {
        match value {
        0 => Note::N0,
        1 => Note::N1,
        2 => Note::N2,
        3 => Note::N3,
        4 => Note::N4,
        5 => Note::N5,
        6 => Note::N6,
        7 => Note::N7,
        8 => Note::N8,
        9 => Note::N9,
        10 => Note::N10,
        11 => Note::N11,
        12 => Note::N12,
        13 => Note::N13,
        14 => Note::N14,
        15 => Note::N15,
        16 => Note::N16,
        17 => Note::N17,
        18 => Note::N18,
        19 => Note::N19,
        20 => Note::N20,
        21 => Note::N21,
        22 => Note::N22,
        23 => Note::N23,
        24 => Note::N24,
        25 => Note::N25,
        26 => Note::N26,
        27 => Note::N27,
        28 => Note::N28,
        29 => Note::N29,
        30 => Note::N30,
        31 => Note::N31,
        32 => Note::N32,
        33 => Note::N33,
        34 => Note::N34,
        35 => Note::N35,
        36 => Note::N36,
        37 => Note::N37,
        38 => Note::N38,
        39 => Note::N39,
        40 => Note::N40,
        41 => Note::N41,
        42 => Note::N42,
        43 => Note::N43,
        44 => Note::N44,
        45 => Note::N45,
        46 => Note::N46,
        47 => Note::N47,
        48 => Note::N48,
        49 => Note::N49,
        50 => Note::N50,
        51 => Note::N51,
        52 => Note::N52,
        53 => Note::N53,
        54 => Note::N54,
        55 => Note::N55,
        56 => Note::N56,
        57 => Note::N57,
        58 => Note::N58,
        59 => Note::N59,
        60 => Note::N60,
        61 => Note::N61,
        62 => Note::N62,
        63 => Note::N63,
        64 => Note::N64,
        65 => Note::N65,
        66 => Note::N66,
        67 => Note::N67,
        68 => Note::N68,
        69 => Note::N69,
        70 => Note::N70,
        71 => Note::N71,
        72 => Note::N72,
        73 => Note::N73,
        74 => Note::N74,
        75 => Note::N75,
        76 => Note::N76,
        77 => Note::N77,
        78 => Note::N78,
        79 => Note::N79,
        80 => Note::N80,
        81 => Note::N81,
        82 => Note::N82,
        83 => Note::N83,
        84 => Note::N84,
        85 => Note::N85,
        86 => Note::N86,
        87 => Note::N87,
        88 => Note::N88,
        89 => Note::N89,
        90 => Note::N90,
        91 => Note::N91,
        92 => Note::N92,
        93 => Note::N93,
        94 => Note::N94,
        95 => Note::N95,
        96 => Note::N96,
        97 => Note::N97,
        98 => Note::N98,
        99 => Note::N99,
        100 => Note::N100,
        101 => Note::N101,
        102 => Note::N102,
        103 => Note::N103,
        104 => Note::N104,
        105 => Note::N105,
        106 => Note::N106,
        107 => Note::N107,
        108 => Note::N108,
        109 => Note::N109,
        110 => Note::N110,
        111 => Note::N111,
        112 => Note::N112,
        113 => Note::N113,
        114 => Note::N114,
        115 => Note::N115,
        116 => Note::N116,
        117 => Note::N117,
        118 => Note::N118,
        119 => Note::N119,
        120 => Note::N120,
        121 => Note::N121,
        122 => Note::N122,
        123 => Note::N123,
        124 => Note::N124,
        125 => Note::N125,
        126 => Note::N126,
            _ => Note::N127,
        }
    }

    /// The note written in scientific pitch notation, such as "C⁴".
    pub fn to_string(&self) -> (res: String)
        ensures
            res@ == theory::pitch_text(theory::pitch_of_midi(*self as u8)),
    {
        let pitch = Pitch::from(self.as_u8());
        pitch.to_string()
    }
}

impl From<u8> for Note {
    fn from(value: u8) -> (res: Self) {
        Note::from_u8(value)
    }
}

impl vstd::std_specs::convert::FromSpecImpl<u8> for Note {
    open spec fn obeys_from_spec() -> bool {
        true
    }

    open spec fn from_spec(value: u8) -> Self {
        note_of(value)
    }
}

impl From<Note> for u8 {
    fn from(note: Note) -> (res: u8) {
        note.as_u8()
    }
}

impl vstd::std_specs::convert::FromSpecImpl<Note> for u8 {
    open spec fn obeys_from_spec() -> bool {
        true
    }

    open spec fn from_spec(note: Note) -> u8 {
        note as u8
    }
}

impl From<Value> for Note {
    fn from(value: Value) -> (res: Self) {
        Note::from_u8(value.as_u8())
    }
}

impl vstd::std_specs::convert::FromSpecImpl<Value> for Note {
    open spec fn obeys_from_spec() -> bool {
        true
    }

    open spec fn from_spec(value: Value) -> Self {
        note_of(value@)
    }
}

impl From<Note> for Value {
    fn from(note: Note) -> (res: Self) {
        Value(note.as_u8())
    }
}

impl vstd::std_specs::convert::FromSpecImpl<Note> for Value {
    open spec fn obeys_from_spec() -> bool {
        true
    }

    closed spec fn from_spec(note: Note) -> Self {
        Value(note as u8)
    }
}

/// The MIDI note of a pitch: 12 per octave above octave -1, saturated to
/// 0 ..= 127.
pub open spec fn midi_of_pitch(p: Pitch) -> u8 {
    let v = 12 * (p.octave.0 + 1) + p.class as int;
    if v < 0 {
        0
    } else if v > 127 {
        127
    } else {
        v as u8
    }
}

impl<'a> From<&'a Pitch> for Note {
    fn from(pitch: &'a Pitch) -> (res: Self) {
        let v: i16 = 12 * (pitch.octave.0 as i16 + 1) + pitch.class as i16;
        let c: u8 = if v < 0 {
            0
        } else if v > 127 {
            127
        } else {
            v as u8
        };
        Note::from_u8(c)
    }
}

impl<'a> vstd::std_specs::convert::FromSpecImpl<&'a Pitch> for Note {
    open spec fn obeys_from_spec() -> bool {
        true
    }

    open spec fn from_spec(pitch: &'a Pitch) -> Self {
        note_of(midi_of_pitch(*pitch))
    }
}

impl<'a> From<&'a Note> for Pitch {
    fn from(note: &'a Note) -> (res: Self) {
        Pitch::from(note.as_u8())
    }
}

impl<'a> vstd::std_specs::convert::FromSpecImpl<&'a Note> for Pitch {
    open spec fn obeys_from_spec() -> bool {
        true
    }

    open spec fn from_spec(note: &'a Note) -> Self {
        theory::pitch_of_midi(*note as u8)
    }
}

/// Converts a bounded octave into an unbounded one.
impl From<Octave> for theory::Octave {
    fn from(o: Octave) -> (res: Self) {
        theory::Octave(o.value())
    }
}

impl vstd::std_specs::convert::FromSpecImpl<Octave> for theory::Octave {
    open spec fn obeys_from_spec() -> bool {
        true
    }

    open spec fn from_spec(o: Octave) -> Self {
        theory::Octave(octave_number(o) as i8)
    }
}

} // verus!
