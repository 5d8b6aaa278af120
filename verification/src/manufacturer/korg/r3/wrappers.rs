//! The R3 parameters as typed values: ranged numbers, named choices and
//! the program, global and formant-motion records built from them.

use vstd::prelude::*;

pub use crate::manufacturer::korg::r3::raw::RawArpeggio;
pub use crate::manufacturer::korg::r3::raw::RawGlobal;
pub use crate::manufacturer::korg::r3::raw::RawInsertFx;
pub use crate::manufacturer::korg::r3::raw::RawMasterFx;
pub use crate::manufacturer::korg::r3::raw::RawMotionSeq;
pub use crate::manufacturer::korg::r3::raw::RawProgram;
pub use crate::manufacturer::korg::r3::raw::RawTimbre;
pub use crate::manufacturer::korg::r3::raw::RawTimbreProgram;
pub use crate::manufacturer::korg::r3::raw::RawVocoder;

use crate::IntoEnumIterator;
use crate::manufacturer::korg::r3::raw::RawFormantStep;
use crate::manufacturer::korg::r3::raw::is_neutral_timbre_program;
use crate::manufacturer::korg::r3::raw::is_neutral_vocoder;
use crate::manufacturer::korg::r3::raw::octave_sw_of;
use crate::manufacturer::korg::r3::raw::tempo_of;
use crate::manufacturer::korg::r3::raw::with_octave_sw;
use crate::manufacturer::korg::r3::raw::with_tempo;
use crate::sysex::decimal;
use crate::sysex::extend_bytes;
use crate::sysex::push_decimal;
use vstd::array::spec_array_update;
use vstd::string::StrSliceExecFns;
use vstd::string::StringExecFns;
use vstd::utf8::encode_utf8;
use crate::manufacturer::korg::r3::raw::field_bits;
use crate::manufacturer::korg::r3::raw::flag_bit;
use crate::manufacturer::korg::r3::raw::set_bits;
use crate::manufacturer::korg::r3::raw::with_field_bits;
use crate::music::theory::clamp_int;

verus! {

/// `v` saturated to `lo ..= hi`.
fn clamp_i16(v: i16, lo: i16, hi: i16) -> (res: i16)
    requires
        lo <= hi,
    ensures
        res == clamp_int(v as int, lo as int, hi as int),
{
    if v < lo {
        lo
    } else if v > hi {
        hi
    } else {
        v
    }
}

/// `v` saturated to `lo ..= hi`.
fn clamp_u8(v: u8, lo: u8, hi: u8) -> (res: u8)
    requires
        lo <= hi,
    ensures
        res == clamp_int(v as int, lo as int, hi as int),
{
    if v < lo {
        lo
    } else if v > hi {
        hi
    } else {
        v
    }
}

/// A byte read as a two's-complement signed number.
pub open spec fn signed_byte(b: u8) -> int {
    if b < 128 {
        b as int
    } else {
        b - 256
    }
}

/// The byte that holds a small signed number in two's complement.
pub open spec fn byte_of_signed(v: int) -> int {
    if v >= 0 {
        v
    } else {
        v + 256
    }
}

fn byte_as_signed(b: u8) -> (res: i16)
    ensures
        res == signed_byte(b),
{
    if b < 128 {
        b as i16
    } else {
        b as i16 - 256
    }
}

fn signed_as_byte(v: i16) -> (res: u8)
    requires
        -128 <= v <= 127,
    ensures
        res == byte_of_signed(v as int),
{
    if v >= 0 {
        v as u8
    } else {
        (v + 256) as u8
    }
}

/// The global transpose in semitones, -12 ..= 12, sent in two's
/// complement.
#[derive(Clone, Copy, Debug, PartialEq, Eq)]
pub struct GlobalTranspose12(i16);

impl View for GlobalTranspose12 {
    type V = int;

    closed spec fn view(&self) -> int {
        self.0 as int
    }
}

impl GlobalTranspose12 {
    pub const LO: i16 = -12;
    pub const HI: i16 = 12;

    #[verifier::type_invariant]
    closed spec fn in_range(&self) -> bool {
        -12 <= self.0 <= 12
    }

    /// `v` saturated to the range.
    pub fn new(v: i16) -> (res: Self)
        ensures
            res@ == clamp_int(v as int, -12, 12),
    {
        Self(clamp_i16(v, -12, 12))
    }

    /// The value sent as byte `b`, saturated to the range.
    pub fn from_wire(b: u8) -> (res: Self)
        ensures
            res@ == clamp_int(signed_byte(b), -12, 12),
    {
        Self::new(byte_as_signed(b))
    }

    /// The byte that sends the value.
    pub fn to_wire(self) -> (res: u8)
        ensures
            res == byte_of_signed(self@),
    {
        proof {
            use_type_invariant(&self);
        }
        signed_as_byte(self.0)
    }

    pub fn get(self) -> (res: i16)
        ensures
            res == self@,
    {
        self.0
    }

    /// Sets the value to `v` saturated to the range.
    pub fn set(&mut self, v: i16)
        ensures
            final(self)@ == clamp_int(v as int, -12, 12),
    {
        *self = Self::new(v);
    }
}

impl Default for GlobalTranspose12 {
    fn default() -> (res: Self)
        ensures
            res@ == 0,
    {
        Self(0)
    }
}

/// The labels of the sync note values.
pub const SYNC_NOTE_LABELS: [&'static str; 17] = [
    "8/1",
    "4/1",
    "2/1",
    "1/1",
    "3/4",
    "1/2",
    "3/8",
    "1/3",
    "1/4",
    "3/16",
    "1/6",
    "1/8",
    "1/12",
    "1/16",
    "1/24",
    "1/32",
    "1/64",
];

/// The labels of the arpeggiator resolutions.
pub const ARP_RES_LABELS: [&'static str; 9] = [
    "1/32",
    "1/24",
    "1/16",
    "1/12",
    "1/8",
    "1/6",
    "1/4",
    "1/2",
    "1/1",
];

/// A pan position, -63 (left) ..= 63 (right), sent as 1 ..= 127.
#[derive(Clone, Copy, Debug, PartialEq, Eq, Default)]
pub struct Pan(i16);

impl View for Pan {
    type V = int;

    closed spec fn view(&self) -> int {
        self.0 as int
    }
}

impl Pan {
    #[verifier::type_invariant]
    closed spec fn in_range(&self) -> bool {
        -63 <= self.0 <= 63
    }

    /// `v` saturated to -63 ..= 63.
    pub fn new(v: i16) -> (res: Self)
        ensures
            res@ == clamp_int(v as int, -63, 63),
    {
        Self(clamp_i16(v, -63, 63))
    }

    /// The position sent as byte `b`; 0 reads as 1, the leftmost.
    pub fn from_wire(b: u8) -> (res: Self)
        ensures
            res@ == clamp_int((if b < 1 { 1 } else { b as int }) - 64, -63, 63),
    {
        let m: u8 = if b < 1 {
            1
        } else {
            b
        };
        Self::new(m as i16 - 64)
    }

    /// The byte that sends the position.
    pub fn to_wire(self) -> (res: u8)
        ensures
            res == self@ + 64,
            1 <= res <= 127,
    {
        proof {
            use_type_invariant(&self);
        }
        clamp_i16(self.0 + 64, 1, 127) as u8
    }

    pub fn get(self) -> (res: i16)
        ensures
            res == self@,
    {
        self.0
    }
}

/// A tempo in beats per minute, 20 ..= 300.
#[derive(Clone, Copy, Debug, PartialEq, Eq)]
pub struct Tempo(u16);

impl View for Tempo {
    type V = int;

    closed spec fn view(&self) -> int {
        self.0 as int
    }
}

impl Tempo {
    #[verifier::type_invariant]
    closed spec fn in_range(&self) -> bool {
        20 <= self.0 <= 300
    }

    /// `v` saturated to 20 ..= 300.
    pub fn new(v: u16) -> (res: Self)
        ensures
            res@ == clamp_int(v as int, 20, 300),
    {
        let t: u16 = if v < 20 {
            20
        } else if v > 300 {
            300
        } else {
            v
        };
        Self(t)
    }

    /// The tempo as stored; a stored 0 reads as 120.
    pub fn from_wire(v: u16) -> (res: Self)
        ensures
            res@ == clamp_int(if v == 0 { 120 } else { v as int }, 20, 300),
    {
        Self::new(
            if v == 0 {
                120
            } else {
                v
            },
        )
    }

    /// The tempo as stored.
    pub fn to_wire(self) -> (res: u16)
        ensures
            res == self@,
            20 <= res <= 300,
    {
        proof {
            use_type_invariant(&self);
        }
        self.0
    }

    pub fn bpm(self) -> (res: u16)
        ensures
            res == self@,
    {
        self.0
    }
}

impl Default for Tempo {
    fn default() -> (res: Self)
        ensures
            res@ == 120,
    {
        Self(120)
    }
}

/// The master tune in cents, -100 ..= 100, sent in two's complement.
#[derive(Clone, Copy, Debug, PartialEq, Eq, Default)]
pub struct MasterTune(i16);

impl View for MasterTune {
    type V = int;

    closed spec fn view(&self) -> int {
        self.0 as int
    }
}

impl MasterTune {
    #[verifier::type_invariant]
    closed spec fn in_range(&self) -> bool {
        -100 <= self.0 <= 100
    }

    /// `v` saturated to -100 ..= 100.
    pub fn new(v: i16) -> (res: Self)
        ensures
            res@ == clamp_int(v as int, -100, 100),
    {
        Self(clamp_i16(v, -100, 100))
    }

    /// The value sent as byte `b`, saturated to the range.
    pub fn from_wire(b: u8) -> (res: Self)
        ensures
            res@ == clamp_int(signed_byte(b), -100, 100),
    {
        Self::new(byte_as_signed(b))
    }

    /// The byte that sends the value.
    pub fn to_wire(self) -> (res: u8)
        ensures
            res == byte_of_signed(self@),
    {
        proof {
            use_type_invariant(&self);
        }
        signed_as_byte(self.0)
    }

    pub fn get(self) -> (res: i16)
        ensures
            res == self@,
    {
        self.0
    }
}

/// One of the 128 program slots, eight to a bank; banks run from A.
#[derive(Debug, Clone, Copy, PartialEq, Eq, Default)]
pub struct ProgramSlot(u16);

impl View for ProgramSlot {
    type V = int;

    closed spec fn view(&self) -> int {
        self.0 as int
    }
}

impl ProgramSlot {
    pub const COUNT: u16 = 128;
    pub const MAX: u16 = 127;

    #[verifier::type_invariant]
    closed spec fn in_range(&self) -> bool {
        self.0 <= 127
    }

    /// Slot `n`, or the last slot when `n` is past it.
    pub fn new(n: u16) -> (res: Self)
        ensures
            res@ == if n < 127 { n as int } else { 127 },
    {
        Self(
            if n < Self::MAX {
                n
            } else {
                Self::MAX
            },
        )
    }

    pub fn as_u16(self) -> (res: u16)
        ensures
            res == self@,
            res <= 127,
    {
        proof {
            use_type_invariant(&self);
        }
        self.0
    }

    /// The bank letter, 'A' ..= 'P'.
    pub fn bank(self) -> (res: char)
        ensures
            res as int == 65 + self@ / 8,
    {
        proof {
            use_type_invariant(&self);
        }
        (65u8 + (self.0 / 8) as u8) as char
    }

    /// The position within the bank, 1 ..= 8.
    pub fn position(self) -> (res: u8)
        ensures
            res == self@ % 8 + 1,
    {
        (self.0 % 8) as u8 + 1
    }

    /// Whether the slot is one of the vocoder programs, from slot 112 on.
    pub fn is_vocoder(self) -> (res: bool)
        ensures
            res == (self@ >= 112),
    {
        self.0 >= 112
    }
}

/// A signed value -63 ..= 63, sent as its offset from 64.
#[derive(Clone, Copy, Debug, PartialEq, Eq)]
pub struct Centered63(i16);

impl View for Centered63 {
    type V = int;

    closed spec fn view(&self) -> int {
        self.0 as int
    }
}

impl Centered63 {
    pub const LO: i16 = -63;
    pub const HI: i16 = 63;
    pub const CENTER: i16 = 64;

    #[verifier::type_invariant]
    closed spec fn in_range(&self) -> bool {
        -63 <= self.0 <= 63
    }

    /// `v` saturated to the range.
    pub fn new(v: i16) -> (res: Self)
        ensures
            res@ == clamp_int(v as int, -63, 63),
    {
        Self(clamp_i16(v, -63, 63))
    }

    /// The value sent as byte `b`, saturated to the range.
    pub fn from_wire(b: u8) -> (res: Self)
        ensures
            res@ == clamp_int(b - 64, -63, 63),
    {
        Self::new(b as i16 - 64)
    }

    /// The byte that sends the value.
    pub fn to_wire(self) -> (res: u8)
        ensures
            res == self@ + 64,
            clamp_int(res - 64, -63, 63) == self@,
    {
        proof {
            use_type_invariant(&self);
        }
        clamp_i16(self.0 + 64, 0, 127) as u8
    }

    pub fn get(self) -> (res: i16)
        ensures
            res == self@,
            -63 <= res <= 63,
    {
        proof {
            use_type_invariant(&self);
        }
        self.0
    }

    /// Sets the value to `v` saturated to the range.
    pub fn set(&mut self, v: i16)
        ensures
            final(self)@ == clamp_int(v as int, -63, 63),
    {
        *self = Self::new(v);
    }

}

impl Default for Centered63 {
    fn default() -> (res: Self)
        ensures
            res@ == 0,
    {
        Self(0)
    }
}

/// A signed value -48 ..= 48, sent as its offset from 64.
#[derive(Clone, Copy, Debug, PartialEq, Eq)]
pub struct Transpose48(i16);

impl View for Transpose48 {
    type V = int;

    closed spec fn view(&self) -> int {
        self.0 as int
    }
}

impl Transpose48 {
    pub const LO: i16 = -48;
    pub const HI: i16 = 48;
    pub const CENTER: i16 = 64;

    #[verifier::type_invariant]
    closed spec fn in_range(&self) -> bool {
        -48 <= self.0 <= 48
    }

    /// `v` saturated to the range.
    pub fn new(v: i16) -> (res: Self)
        ensures
            res@ == clamp_int(v as int, -48, 48),
    {
        Self(clamp_i16(v, -48, 48))
    }

    /// The value sent as byte `b`, saturated to the range.
    pub fn from_wire(b: u8) -> (res: Self)
        ensures
            res@ == clamp_int(b - 64, -48, 48),
    {
        Self::new(b as i16 - 64)
    }

    /// The byte that sends the value.
    pub fn to_wire(self) -> (res: u8)
        ensures
            res == self@ + 64,
            clamp_int(res - 64, -48, 48) == self@,
    {
        proof {
            use_type_invariant(&self);
        }
        clamp_i16(self.0 + 64, 0, 127) as u8
    }

    pub fn get(self) -> (res: i16)
        ensures
            res == self@,
            -48 <= res <= 48,
    {
        proof {
            use_type_invariant(&self);
        }
        self.0
    }

    /// Sets the value to `v` saturated to the range.
    pub fn set(&mut self, v: i16)
        ensures
            final(self)@ == clamp_int(v as int, -48, 48),
    {
        *self = Self::new(v);
    }

}

impl Default for Transpose48 {
    fn default() -> (res: Self)
        ensures
            res@ == 0,
    {
        Self(0)
    }
}

/// A signed value -24 ..= 24, sent as its offset from 64.
#[derive(Clone, Copy, Debug, PartialEq, Eq)]
pub struct Semitone24(i16);

impl View for Semitone24 {
    type V = int;

    closed spec fn view(&self) -> int {
        self.0 as int
    }
}

impl Semitone24 {
    pub const LO: i16 = -24;
    pub const HI: i16 = 24;
    pub const CENTER: i16 = 64;

    #[verifier::type_invariant]
    closed spec fn in_range(&self) -> bool {
        -24 <= self.0 <= 24
    }

    /// `v` saturated to the range.
    pub fn new(v: i16) -> (res: Self)
        ensures
            res@ == clamp_int(v as int, -24, 24),
    {
        Self(clamp_i16(v, -24, 24))
    }

    /// The value sent as byte `b`, saturated to the range.
    pub fn from_wire(b: u8) -> (res: Self)
        ensures
            res@ == clamp_int(b - 64, -24, 24),
    {
        Self::new(b as i16 - 64)
    }

    /// The byte that sends the value.
    pub fn to_wire(self) -> (res: u8)
        ensures
            res == self@ + 64,
            clamp_int(res - 64, -24, 24) == self@,
    {
        proof {
            use_type_invariant(&self);
        }
        clamp_i16(self.0 + 64, 0, 127) as u8
    }

    pub fn get(self) -> (res: i16)
        ensures
            res == self@,
            -24 <= res <= 24,
    {
        proof {
            use_type_invariant(&self);
        }
        self.0
    }

    /// Sets the value to `v` saturated to the range.
    pub fn set(&mut self, v: i16)
        ensures
            final(self)@ == clamp_int(v as int, -24, 24),
    {
        *self = Self::new(v);
    }

}

impl Default for Semitone24 {
    fn default() -> (res: Self)
        ensures
            res@ == 0,
    {
        Self(0)
    }
}

/// A signed value -50 ..= 50, sent as its offset from 64.
#[derive(Clone, Copy, Debug, PartialEq, Eq)]
pub struct Detune50(i16);

impl View for Detune50 {
    type V = int;

    closed spec fn view(&self) -> int {
        self.0 as int
    }
}

impl Detune50 {
    pub const LO: i16 = -50;
    pub const HI: i16 = 50;
    pub const CENTER: i16 = 64;

    #[verifier::type_invariant]
    closed spec fn in_range(&self) -> bool {
        -50 <= self.0 <= 50
    }

    /// `v` saturated to the range.
    pub fn new(v: i16) -> (res: Self)
        ensures
            res@ == clamp_int(v as int, -50, 50),
    {
        Self(clamp_i16(v, -50, 50))
    }

    /// The value sent as byte `b`, saturated to the range.
    pub fn from_wire(b: u8) -> (res: Self)
        ensures
            res@ == clamp_int(b - 64, -50, 50),
    {
        Self::new(b as i16 - 64)
    }

    /// The byte that sends the value.
    pub fn to_wire(self) -> (res: u8)
        ensures
            res == self@ + 64,
            clamp_int(res - 64, -50, 50) == self@,
    {
        proof {
            use_type_invariant(&self);
        }
        clamp_i16(self.0 + 64, 0, 127) as u8
    }

    pub fn get(self) -> (res: i16)
        ensures
            res == self@,
            -50 <= res <= 50,
    {
        proof {
            use_type_invariant(&self);
        }
        self.0
    }

    /// Sets the value to `v` saturated to the range.
    pub fn set(&mut self, v: i16)
        ensures
            final(self)@ == clamp_int(v as int, -50, 50),
    {
        *self = Self::new(v);
    }

}

impl Default for Detune50 {
    fn default() -> (res: Self)
        ensures
            res@ == 0,
    {
        Self(0)
    }
}

/// A signed value -12 ..= 12, sent as its offset from 64.
#[derive(Clone, Copy, Debug, PartialEq, Eq)]
pub struct BendRange12(i16);

impl View for BendRange12 {
    type V = int;

    closed spec fn view(&self) -> int {
        self.0 as int
    }
}

impl BendRange12 {
    pub const LO: i16 = -12;
    pub const HI: i16 = 12;
    pub const CENTER: i16 = 64;

    #[verifier::type_invariant]
    closed spec fn in_range(&self) -> bool {
        -12 <= self.0 <= 12
    }

    /// `v` saturated to the range.
    pub fn new(v: i16) -> (res: Self)
        ensures
            res@ == clamp_int(v as int, -12, 12),
    {
        Self(clamp_i16(v, -12, 12))
    }

    /// The value sent as byte `b`, saturated to the range.
    pub fn from_wire(b: u8) -> (res: Self)
        ensures
            res@ == clamp_int(b - 64, -12, 12),
    {
        Self::new(b as i16 - 64)
    }

    /// The byte that sends the value.
    pub fn to_wire(self) -> (res: u8)
        ensures
            res == self@ + 64,
            clamp_int(res - 64, -12, 12) == self@,
    {
        proof {
            use_type_invariant(&self);
        }
        clamp_i16(self.0 + 64, 0, 127) as u8
    }

    pub fn get(self) -> (res: i16)
        ensures
            res == self@,
            -12 <= res <= 12,
    {
        proof {
            use_type_invariant(&self);
        }
        self.0
    }

    /// Sets the value to `v` saturated to the range.
    pub fn set(&mut self, v: i16)
        ensures
            final(self)@ == clamp_int(v as int, -12, 12),
    {
        *self = Self::new(v);
    }

}

impl Default for BendRange12 {
    fn default() -> (res: Self)
        ensures
            res@ == 0,
    {
        Self(0)
    }
}

/// A signed value -50 ..= 50, sent as its offset from 64.
#[derive(Clone, Copy, Debug, PartialEq, Eq)]
pub struct Swing50(i16);

impl View for Swing50 {
    type V = int;

    closed spec fn view(&self) -> int {
        self.0 as int
    }
}

impl Swing50 {
    pub const LO: i16 = -50;
    pub const HI: i16 = 50;
    pub const CENTER: i16 = 64;

    #[verifier::type_invariant]
    closed spec fn in_range(&self) -> bool {
        -50 <= self.0 <= 50
    }

    /// `v` saturated to the range.
    pub fn new(v: i16) -> (res: Self)
        ensures
            res@ == clamp_int(v as int, -50, 50),
    {
        Self(clamp_i16(v, -50, 50))
    }

    /// The value sent as byte `b`, saturated to the range.
    pub fn from_wire(b: u8) -> (res: Self)
        ensures
            res@ == clamp_int(b - 64, -50, 50),
    {
        Self::new(b as i16 - 64)
    }

    /// The byte that sends the value.
    pub fn to_wire(self) -> (res: u8)
        ensures
            res == self@ + 64,
            clamp_int(res - 64, -50, 50) == self@,
    {
        proof {
            use_type_invariant(&self);
        }
        clamp_i16(self.0 + 64, 0, 127) as u8
    }

    pub fn get(self) -> (res: i16)
        ensures
            res == self@,
            -50 <= res <= 50,
    {
        proof {
            use_type_invariant(&self);
        }
        self.0
    }

    /// Sets the value to `v` saturated to the range.
    pub fn set(&mut self, v: i16)
        ensures
            final(self)@ == clamp_int(v as int, -50, 50),
    {
        *self = Self::new(v);
    }

}

impl Default for Swing50 {
    fn default() -> (res: Self)
        ensures
            res@ == 0,
    {
        Self(0)
    }
}

/// A signed value -30 ..= 30, sent as its offset from 64.
#[derive(Clone, Copy, Debug, PartialEq, Eq)]
pub struct EqGain30(i16);

impl View for EqGain30 {
    type V = int;

    closed spec fn view(&self) -> int {
        self.0 as int
    }
}

impl EqGain30 {
    pub const LO: i16 = -30;
    pub const HI: i16 = 30;
    pub const CENTER: i16 = 64;

    #[verifier::type_invariant]
    closed spec fn in_range(&self) -> bool {
        -30 <= self.0 <= 30
    }

    /// `v` saturated to the range.
    pub fn new(v: i16) -> (res: Self)
        ensures
            res@ == clamp_int(v as int, -30, 30),
    {
        Self(clamp_i16(v, -30, 30))
    }

    /// The value sent as byte `b`, saturated to the range.
    pub fn from_wire(b: u8) -> (res: Self)
        ensures
            res@ == clamp_int(b - 64, -30, 30),
    {
        Self::new(b as i16 - 64)
    }

    /// The byte that sends the value.
    pub fn to_wire(self) -> (res: u8)
        ensures
            res == self@ + 64,
            clamp_int(res - 64, -30, 30) == self@,
    {
        proof {
            use_type_invariant(&self);
        }
        clamp_i16(self.0 + 64, 0, 127) as u8
    }

    pub fn get(self) -> (res: i16)
        ensures
            res == self@,
            -30 <= res <= 30,
    {
        proof {
            use_type_invariant(&self);
        }
        self.0
    }

    /// Sets the value to `v` saturated to the range.
    pub fn set(&mut self, v: i16)
        ensures
            final(self)@ == clamp_int(v as int, -30, 30),
    {
        *self = Self::new(v);
    }

}

impl Default for EqGain30 {
    fn default() -> (res: Self)
        ensures
            res@ == 0,
    {
        Self(0)
    }
}

/// An unsigned value 0 ..= 127, sent as is.
#[derive(Clone, Copy, Debug, PartialEq, Eq)]
pub struct U7(u8);

impl View for U7 {
    type V = int;

    closed spec fn view(&self) -> int {
        self.0 as int
    }
}

impl U7 {
    pub const LO: u8 = 0;
    pub const HI: u8 = 127;

    #[verifier::type_invariant]
    closed spec fn in_range(&self) -> bool {
        0 <= self.0 <= 127
    }

    /// `v` saturated to the range.
    pub fn new(v: u8) -> (res: Self)
        ensures
            res@ == clamp_int(v as int, 0, 127),
    {
        Self(clamp_u8(v, 0, 127))
    }

    /// The value sent as byte `b`, saturated to the range.
    pub fn from_wire(b: u8) -> (res: Self)
        ensures
            res@ == clamp_int(b as int, 0, 127),
    {
        Self::new(b)
    }

    /// The byte that sends the value.
    pub fn to_wire(self) -> (res: u8)
        ensures
            res == self@,
            res <= 127,
            clamp_int(res as int, 0, 127) == self@,
    {
        proof {
            use_type_invariant(&self);
        }
        self.0
    }

    pub fn get(self) -> (res: u8)
        ensures
            res == self@,
            0 <= res <= 127,
    {
        proof {
            use_type_invariant(&self);
        }
        self.0
    }

    /// Sets the value to `v` saturated to the range.
    pub fn set(&mut self, v: u8)
        ensures
            final(self)@ == clamp_int(v as int, 0, 127),
    {
        *self = Self::new(v);
    }

}

impl Default for U7 {
    fn default() -> (res: Self)
        ensures
            res@ == 0,
    {
        Self(0)
    }
}

/// An unsigned value 0 ..= 99, sent as is.
#[derive(Clone, Copy, Debug, PartialEq, Eq)]
pub struct UnisonDetune(u8);

impl View for UnisonDetune {
    type V = int;

    closed spec fn view(&self) -> int {
        self.0 as int
    }
}

impl UnisonDetune {
    pub const LO: u8 = 0;
    pub const HI: u8 = 99;

    #[verifier::type_invariant]
    closed spec fn in_range(&self) -> bool {
        0 <= self.0 <= 99
    }

    /// `v` saturated to the range.
    pub fn new(v: u8) -> (res: Self)
        ensures
            res@ == clamp_int(v as int, 0, 99),
    {
        Self(clamp_u8(v, 0, 99))
    }

    /// The value sent as byte `b`, saturated to the range.
    pub fn from_wire(b: u8) -> (res: Self)
        ensures
            res@ == clamp_int(b as int, 0, 99),
    {
        Self::new(b)
    }

    /// The byte that sends the value.
    pub fn to_wire(self) -> (res: u8)
        ensures
            res == self@,
            res <= 99,
            clamp_int(res as int, 0, 99) == self@,
    {
        proof {
            use_type_invariant(&self);
        }
        self.0
    }

    pub fn get(self) -> (res: u8)
        ensures
            res == self@,
            0 <= res <= 99,
    {
        proof {
            use_type_invariant(&self);
        }
        self.0
    }

    /// Sets the value to `v` saturated to the range.
    pub fn set(&mut self, v: u8)
        ensures
            final(self)@ == clamp_int(v as int, 0, 99),
    {
        *self = Self::new(v);
    }

}

impl Default for UnisonDetune {
    fn default() -> (res: Self)
        ensures
            res@ == 0,
    {
        Self(0)
    }
}

/// An unsigned value 0 ..= 64, sent as is.
#[derive(Clone, Copy, Debug, PartialEq, Eq)]
pub struct Dwgs(u8);

impl View for Dwgs {
    type V = int;

    closed spec fn view(&self) -> int {
        self.0 as int
    }
}

impl Dwgs {
    pub const LO: u8 = 0;
    pub const HI: u8 = 64;

    #[verifier::type_invariant]
    closed spec fn in_range(&self) -> bool {
        0 <= self.0 <= 64
    }

    /// `v` saturated to the range.
    pub fn new(v: u8) -> (res: Self)
        ensures
            res@ == clamp_int(v as int, 0, 64),
    {
        Self(clamp_u8(v, 0, 64))
    }

    /// The value sent as byte `b`, saturated to the range.
    pub fn from_wire(b: u8) -> (res: Self)
        ensures
            res@ == clamp_int(b as int, 0, 64),
    {
        Self::new(b)
    }

    /// The byte that sends the value.
    pub fn to_wire(self) -> (res: u8)
        ensures
            res == self@,
            res <= 64,
            clamp_int(res as int, 0, 64) == self@,
    {
        proof {
            use_type_invariant(&self);
        }
        self.0
    }

    pub fn get(self) -> (res: u8)
        ensures
            res == self@,
            0 <= res <= 64,
    {
        proof {
            use_type_invariant(&self);
        }
        self.0
    }

    /// Sets the value to `v` saturated to the range.
    pub fn set(&mut self, v: u8)
        ensures
            final(self)@ == clamp_int(v as int, 0, 64),
    {
        *self = Self::new(v);
    }

}

impl Default for Dwgs {
    fn default() -> (res: Self)
        ensures
            res@ == 0,
    {
        Self(0)
    }
}

/// An unsigned value 0 ..= 100, sent as is.
#[derive(Clone, Copy, Debug, PartialEq, Eq)]
pub struct GateTime(u8);

impl View for GateTime {
    type V = int;

    closed spec fn view(&self) -> int {
        self.0 as int
    }
}

impl GateTime {
    pub const LO: u8 = 0;
    pub const HI: u8 = 100;

    #[verifier::type_invariant]
    closed spec fn in_range(&self) -> bool {
        0 <= self.0 <= 100
    }

    /// `v` saturated to the range.
    pub fn new(v: u8) -> (res: Self)
        ensures
            res@ == clamp_int(v as int, 0, 100),
    {
        Self(clamp_u8(v, 0, 100))
    }

    /// The value sent as byte `b`, saturated to the range.
    pub fn from_wire(b: u8) -> (res: Self)
        ensures
            res@ == clamp_int(b as int, 0, 100),
    {
        Self::new(b)
    }

    /// The byte that sends the value.
    pub fn to_wire(self) -> (res: u8)
        ensures
            res == self@,
            res <= 100,
            clamp_int(res as int, 0, 100) == self@,
    {
        proof {
            use_type_invariant(&self);
        }
        self.0
    }

    pub fn get(self) -> (res: u8)
        ensures
            res == self@,
            0 <= res <= 100,
    {
        proof {
            use_type_invariant(&self);
        }
        self.0
    }

    /// Sets the value to `v` saturated to the range.
    pub fn set(&mut self, v: u8)
        ensures
            final(self)@ == clamp_int(v as int, 0, 100),
    {
        *self = Self::new(v);
    }

}

impl Default for GateTime {
    fn default() -> (res: Self)
        ensures
            res@ == 0,
    {
        Self(0)
    }
}

/// An unsigned value 0 ..= 15, sent as is.
#[derive(Clone, Copy, Debug, PartialEq, Eq)]
pub struct Category(u8);

impl View for Category {
    type V = int;

    closed spec fn view(&self) -> int {
        self.0 as int
    }
}

impl Category {
    pub const LO: u8 = 0;
    pub const HI: u8 = 15;

    #[verifier::type_invariant]
    closed spec fn in_range(&self) -> bool {
        0 <= self.0 <= 15
    }

    /// `v` saturated to the range.
    pub fn new(v: u8) -> (res: Self)
        ensures
            res@ == clamp_int(v as int, 0, 15),
    {
        Self(clamp_u8(v, 0, 15))
    }

    /// The value sent as byte `b`, saturated to the range.
    pub fn from_wire(b: u8) -> (res: Self)
        ensures
            res@ == clamp_int(b as int, 0, 15),
    {
        Self::new(b)
    }

    /// The byte that sends the value.
    pub fn to_wire(self) -> (res: u8)
        ensures
            res == self@,
            res <= 15,
            clamp_int(res as int, 0, 15) == self@,
    {
        proof {
            use_type_invariant(&self);
        }
        self.0
    }

    pub fn get(self) -> (res: u8)
        ensures
            res == self@,
            0 <= res <= 15,
    {
        proof {
            use_type_invariant(&self);
        }
        self.0
    }

    /// Sets the value to `v` saturated to the range.
    pub fn set(&mut self, v: u8)
        ensures
            final(self)@ == clamp_int(v as int, 0, 15),
    {
        *self = Self::new(v);
    }

}

impl Default for Category {
    fn default() -> (res: Self)
        ensures
            res@ == 0,
    {
        Self(0)
    }
}

/// An unsigned value 0 ..= 55, sent as is.
#[derive(Clone, Copy, Debug, PartialEq, Eq)]
pub struct KnobAssign(u8);

impl View for KnobAssign {
    type V = int;

    closed spec fn view(&self) -> int {
        self.0 as int
    }
}

impl KnobAssign {
    pub const LO: u8 = 0;
    pub const HI: u8 = 55;

    #[verifier::type_invariant]
    closed spec fn in_range(&self) -> bool {
        0 <= self.0 <= 55
    }

    /// `v` saturated to the range.
    pub fn new(v: u8) -> (res: Self)
        ensures
            res@ == clamp_int(v as int, 0, 55),
    {
        Self(clamp_u8(v, 0, 55))
    }

    /// The value sent as byte `b`, saturated to the range.
    pub fn from_wire(b: u8) -> (res: Self)
        ensures
            res@ == clamp_int(b as int, 0, 55),
    {
        Self::new(b)
    }

    /// The byte that sends the value.
    pub fn to_wire(self) -> (res: u8)
        ensures
            res == self@,
            res <= 55,
            clamp_int(res as int, 0, 55) == self@,
    {
        proof {
            use_type_invariant(&self);
        }
        self.0
    }

    pub fn get(self) -> (res: u8)
        ensures
            res == self@,
            0 <= res <= 55,
    {
        proof {
            use_type_invariant(&self);
        }
        self.0
    }

    /// Sets the value to `v` saturated to the range.
    pub fn set(&mut self, v: u8)
        ensures
            final(self)@ == clamp_int(v as int, 0, 55),
    {
        *self = Self::new(v);
    }

}

impl Default for KnobAssign {
    fn default() -> (res: Self)
        ensures
            res@ == 0,
    {
        Self(0)
    }
}

/// An unsigned value 0 ..= 16, sent as is.
#[derive(Clone, Copy, Debug, PartialEq, Eq)]
pub struct SyncNote(u8);

impl View for SyncNote {
    type V = int;

    closed spec fn view(&self) -> int {
        self.0 as int
    }
}

impl SyncNote {
    pub const LO: u8 = 0;
    pub const HI: u8 = 16;

    #[verifier::type_invariant]
    closed spec fn in_range(&self) -> bool {
        0 <= self.0 <= 16
    }

    /// `v` saturated to the range.
    pub fn new(v: u8) -> (res: Self)
        ensures
            res@ == clamp_int(v as int, 0, 16),
    {
        Self(clamp_u8(v, 0, 16))
    }

    /// The value sent as byte `b`, saturated to the range.
    pub fn from_wire(b: u8) -> (res: Self)
        ensures
            res@ == clamp_int(b as int, 0, 16),
    {
        Self::new(b)
    }

    /// The byte that sends the value.
    pub fn to_wire(self) -> (res: u8)
        ensures
            res == self@,
            res <= 16,
            clamp_int(res as int, 0, 16) == self@,
    {
        proof {
            use_type_invariant(&self);
        }
        self.0
    }

    pub fn get(self) -> (res: u8)
        ensures
            res == self@,
            0 <= res <= 16,
    {
        proof {
            use_type_invariant(&self);
        }
        self.0
    }

    /// Sets the value to `v` saturated to the range.
    pub fn set(&mut self, v: u8)
        ensures
            final(self)@ == clamp_int(v as int, 0, 16),
    {
        *self = Self::new(v);
    }

}

impl Default for SyncNote {
    fn default() -> (res: Self)
        ensures
            res@ == 0,
    {
        Self(0)
    }
}

/// An unsigned value 0 ..= 12, sent as is.
#[derive(Clone, Copy, Debug, PartialEq, Eq)]
pub struct WaveShape(u8);

impl View for WaveShape {
    type V = int;

    closed spec fn view(&self) -> int {
        self.0 as int
    }
}

impl WaveShape {
    pub const LO: u8 = 0;
    pub const HI: u8 = 12;

    #[verifier::type_invariant]
    closed spec fn in_range(&self) -> bool {
        0 <= self.0 <= 12
    }

    /// `v` saturated to the range.
    pub fn new(v: u8) -> (res: Self)
        ensures
            res@ == clamp_int(v as int, 0, 12),
    {
        Self(clamp_u8(v, 0, 12))
    }

    /// The value sent as byte `b`, saturated to the range.
    pub fn from_wire(b: u8) -> (res: Self)
        ensures
            res@ == clamp_int(b as int, 0, 12),
    {
        Self::new(b)
    }

    /// The byte that sends the value.
    pub fn to_wire(self) -> (res: u8)
        ensures
            res == self@,
            res <= 12,
            clamp_int(res as int, 0, 12) == self@,
    {
        proof {
            use_type_invariant(&self);
        }
        self.0
    }

    pub fn get(self) -> (res: u8)
        ensures
            res == self@,
            0 <= res <= 12,
    {
        proof {
            use_type_invariant(&self);
        }
        self.0
    }

    /// Sets the value to `v` saturated to the range.
    pub fn set(&mut self, v: u8)
        ensures
            final(self)@ == clamp_int(v as int, 0, 12),
    {
        *self = Self::new(v);
    }

}

impl Default for WaveShape {
    fn default() -> (res: Self)
        ensures
            res@ == 0,
    {
        Self(0)
    }
}

/// An unsigned value 0 ..= 4, sent as is.
#[derive(Clone, Copy, Debug, PartialEq, Eq)]
pub struct MotionSeqType(u8);

impl View for MotionSeqType {
    type V = int;

    closed spec fn view(&self) -> int {
        self.0 as int
    }
}

impl MotionSeqType {
    pub const LO: u8 = 0;
    pub const HI: u8 = 4;

    #[verifier::type_invariant]
    closed spec fn in_range(&self) -> bool {
        0 <= self.0 <= 4
    }

    /// `v` saturated to the range.
    pub fn new(v: u8) -> (res: Self)
        ensures
            res@ == clamp_int(v as int, 0, 4),
    {
        Self(clamp_u8(v, 0, 4))
    }

    /// The value sent as byte `b`, saturated to the range.
    pub fn from_wire(b: u8) -> (res: Self)
        ensures
            res@ == clamp_int(b as int, 0, 4),
    {
        Self::new(b)
    }

    /// The byte that sends the value.
    pub fn to_wire(self) -> (res: u8)
        ensures
            res == self@,
            res <= 4,
            clamp_int(res as int, 0, 4) == self@,
    {
        proof {
            use_type_invariant(&self);
        }
        self.0
    }

    pub fn get(self) -> (res: u8)
        ensures
            res == self@,
            0 <= res <= 4,
    {
        proof {
            use_type_invariant(&self);
        }
        self.0
    }

    /// Sets the value to `v` saturated to the range.
    pub fn set(&mut self, v: u8)
        ensures
            final(self)@ == clamp_int(v as int, 0, 4),
    {
        *self = Self::new(v);
    }

}

impl Default for MotionSeqType {
    fn default() -> (res: Self)
        ensures
            res@ == 0,
    {
        Self(0)
    }
}

/// An unsigned value 0 ..= 8, sent as is.
#[derive(Clone, Copy, Debug, PartialEq, Eq)]
pub struct ArpResolution(u8);

impl View for ArpResolution {
    type V = int;

    closed spec fn view(&self) -> int {
        self.0 as int
    }
}

impl ArpResolution {
    pub const LO: u8 = 0;
    pub const HI: u8 = 8;

    #[verifier::type_invariant]
    closed spec fn in_range(&self) -> bool {
        0 <= self.0 <= 8
    }

    /// `v` saturated to the range.
    pub fn new(v: u8) -> (res: Self)
        ensures
            res@ == clamp_int(v as int, 0, 8),
    {
        Self(clamp_u8(v, 0, 8))
    }

    /// The value sent as byte `b`, saturated to the range.
    pub fn from_wire(b: u8) -> (res: Self)
        ensures
            res@ == clamp_int(b as int, 0, 8),
    {
        Self::new(b)
    }

    /// The byte that sends the value.
    pub fn to_wire(self) -> (res: u8)
        ensures
            res == self@,
            res <= 8,
            clamp_int(res as int, 0, 8) == self@,
    {
        proof {
            use_type_invariant(&self);
        }
        self.0
    }

    pub fn get(self) -> (res: u8)
        ensures
            res == self@,
            0 <= res <= 8,
    {
        proof {
            use_type_invariant(&self);
        }
        self.0
    }

    /// Sets the value to `v` saturated to the range.
    pub fn set(&mut self, v: u8)
        ensures
            final(self)@ == clamp_int(v as int, 0, 8),
    {
        *self = Self::new(v);
    }

}

impl Default for ArpResolution {
    fn default() -> (res: Self)
        ensures
            res@ == 6,
    {
        Self(6)
    }
}

/// An unsigned value 0 ..= 15, sent as is.
#[derive(Clone, Copy, Debug, PartialEq, Eq)]
pub struct MotionSeqResolution(u8);

impl View for MotionSeqResolution {
    type V = int;

    closed spec fn view(&self) -> int {
        self.0 as int
    }
}

impl MotionSeqResolution {
    pub const LO: u8 = 0;
    pub const HI: u8 = 15;

    #[verifier::type_invariant]
    closed spec fn in_range(&self) -> bool {
        0 <= self.0 <= 15
    }

    /// `v` saturated to the range.
    pub fn new(v: u8) -> (res: Self)
        ensures
            res@ == clamp_int(v as int, 0, 15),
    {
        Self(clamp_u8(v, 0, 15))
    }

    /// The value sent as byte `b`, saturated to the range.
    pub fn from_wire(b: u8) -> (res: Self)
        ensures
            res@ == clamp_int(b as int, 0, 15),
    {
        Self::new(b)
    }

    /// The byte that sends the value.
    pub fn to_wire(self) -> (res: u8)
        ensures
            res == self@,
            res <= 15,
            clamp_int(res as int, 0, 15) == self@,
    {
        proof {
            use_type_invariant(&self);
        }
        self.0
    }

    pub fn get(self) -> (res: u8)
        ensures
            res == self@,
            0 <= res <= 15,
    {
        proof {
            use_type_invariant(&self);
        }
        self.0
    }

    /// Sets the value to `v` saturated to the range.
    pub fn set(&mut self, v: u8)
        ensures
            final(self)@ == clamp_int(v as int, 0, 15),
    {
        *self = Self::new(v);
    }

}

impl Default for MotionSeqResolution {
    fn default() -> (res: Self)
        ensures
            res@ == 0,
    {
        Self(0)
    }
}

/// An unsigned value 0 ..= 115, sent as is.
#[derive(Clone, Copy, Debug, PartialEq, Eq)]
pub struct MidiCtrlNo(u8);

impl View for MidiCtrlNo {
    type V = int;

    closed spec fn view(&self) -> int {
        self.0 as int
    }
}

impl MidiCtrlNo {
    pub const LO: u8 = 0;
    pub const HI: u8 = 115;

    #[verifier::type_invariant]
    closed spec fn in_range(&self) -> bool {
        0 <= self.0 <= 115
    }

    /// `v` saturated to the range.
    pub fn new(v: u8) -> (res: Self)
        ensures
            res@ == clamp_int(v as int, 0, 115),
    {
        Self(clamp_u8(v, 0, 115))
    }

    /// The value sent as byte `b`, saturated to the range.
    pub fn from_wire(b: u8) -> (res: Self)
        ensures
            res@ == clamp_int(b as int, 0, 115),
    {
        Self::new(b)
    }

    /// The byte that sends the value.
    pub fn to_wire(self) -> (res: u8)
        ensures
            res == self@,
            res <= 115,
            clamp_int(res as int, 0, 115) == self@,
    {
        proof {
            use_type_invariant(&self);
        }
        self.0
    }

    pub fn get(self) -> (res: u8)
        ensures
            res == self@,
            0 <= res <= 115,
    {
        proof {
            use_type_invariant(&self);
        }
        self.0
    }

    /// Sets the value to `v` saturated to the range.
    pub fn set(&mut self, v: u8)
        ensures
            final(self)@ == clamp_int(v as int, 0, 115),
    {
        *self = Self::new(v);
    }

}

impl Default for MidiCtrlNo {
    fn default() -> (res: Self)
        ensures
            res@ == 0,
    {
        Self(0)
    }
}

/// An unsigned value 0 ..= 127, sent as is.
#[derive(Clone, Copy, Debug, PartialEq, Eq)]
pub struct FxParam(u8);

impl View for FxParam {
    type V = int;

    closed spec fn view(&self) -> int {
        self.0 as int
    }
}

impl FxParam {
    pub const LO: u8 = 0;
    pub const HI: u8 = 127;

    #[verifier::type_invariant]
    closed spec fn in_range(&self) -> bool {
        0 <= self.0 <= 127
    }

    /// `v` saturated to the range.
    pub fn new(v: u8) -> (res: Self)
        ensures
            res@ == clamp_int(v as int, 0, 127),
    {
        Self(clamp_u8(v, 0, 127))
    }

    /// The value sent as byte `b`, saturated to the range.
    pub fn from_wire(b: u8) -> (res: Self)
        ensures
            res@ == clamp_int(b as int, 0, 127),
    {
        Self::new(b)
    }

    /// The byte that sends the value.
    pub fn to_wire(self) -> (res: u8)
        ensures
            res == self@,
            res <= 127,
            clamp_int(res as int, 0, 127) == self@,
    {
        proof {
            use_type_invariant(&self);
        }
        self.0
    }

    pub fn get(self) -> (res: u8)
        ensures
            res == self@,
            0 <= res <= 127,
    {
        proof {
            use_type_invariant(&self);
        }
        self.0
    }

    /// Sets the value to `v` saturated to the range.
    pub fn set(&mut self, v: u8)
        ensures
            final(self)@ == clamp_int(v as int, 0, 127),
    {
        *self = Self::new(v);
    }

}

impl Default for FxParam {
    fn default() -> (res: Self)
        ensures
            res@ == 0,
    {
        Self(0)
    }
}

#[derive(Debug, PartialEq, Eq, Clone, Copy, Structural)]
pub enum VoiceMode {
    Single,
    Layer,
    Split,
    Multi,
}

impl Default for VoiceMode {
    fn default() -> (res: Self)
        ensures
            res == VoiceMode::Single,
    {
        VoiceMode::Single
    }
}

impl From<VoiceMode> for u8 {
    fn from(v: VoiceMode) -> (res: u8) {
        v as u8
    }
}

impl vstd::std_specs::convert::FromSpecImpl<VoiceMode> for u8 {
    open spec fn obeys_from_spec() -> bool {
        true
    }

    open spec fn from_spec(v: VoiceMode) -> u8 {
        v as u8
    }
}

impl VoiceMode {
    /// The variant with number `b`, if there is one.
    pub fn from_code(b: u8) -> (res: Option<Self>)
        ensures
            b < 4 <==> res is Some,
            res matches Some(v) ==> v as u8 == b,
    {
        if b == 0 {
            Some(VoiceMode::Single)
        } else if b == 1 {
            Some(VoiceMode::Layer)
        } else if b == 2 {
            Some(VoiceMode::Split)
        } else if b == 3 {
            Some(VoiceMode::Multi)
        } else {
            None
        }
    }

    /// The variant with number `b`, or the first variant when there is none.
    pub open spec fn decoded(b: u8) -> Self {
        if b == 0 {
            VoiceMode::Single
        } else if b == 1 {
            VoiceMode::Layer
        } else if b == 2 {
            VoiceMode::Split
        } else if b == 3 {
            VoiceMode::Multi
        } else {
            VoiceMode::Single
        }
    }

    /// The variant with number `b`, or the first variant when there is none.
    pub fn decode(b: u8) -> (res: Self)
        ensures
            res == Self::decoded(b),
            b < 4 ==> res as u8 == b,
            b >= 4 ==> res == VoiceMode::Single,
    {
        match Self::from_code(b) {
            Some(v) => v,
            None => VoiceMode::Single,
        }
    }

    /// Every variant, in order.
    pub fn all() -> (res: Vec<Self>)
        ensures
            res@.len() == 4,
            forall|i: int| 0 <= i < 4 ==> #[trigger] res@[i] as int == i,
    {
        let res = vec![VoiceMode::Single, VoiceMode::Layer, VoiceMode::Split, VoiceMode::Multi];
        res
    }
}

impl IntoEnumIterator for VoiceMode {
    fn iter() -> std::vec::IntoIter<Self> {
        Self::all().into_iter()
    }
}

#[derive(Debug, PartialEq, Eq, Clone, Copy, Structural)]
pub enum ArpTimbre {
    Timbre1,
    Timbre2,
    Both,
}

impl Default for ArpTimbre {
    fn default() -> (res: Self)
        ensures
            res == ArpTimbre::Timbre1,
    {
        ArpTimbre::Timbre1
    }
}

impl From<ArpTimbre> for u8 {
    fn from(v: ArpTimbre) -> (res: u8) {
        v as u8
    }
}

impl vstd::std_specs::convert::FromSpecImpl<ArpTimbre> for u8 {
    open spec fn obeys_from_spec() -> bool {
        true
    }

    open spec fn from_spec(v: ArpTimbre) -> u8 {
        v as u8
    }
}

impl ArpTimbre {
    /// The variant with number `b`, if there is one.
    pub fn from_code(b: u8) -> (res: Option<Self>)
        ensures
            b < 3 <==> res is Some,
            res matches Some(v) ==> v as u8 == b,
    {
        if b == 0 {
            Some(ArpTimbre::Timbre1)
        } else if b == 1 {
            Some(ArpTimbre::Timbre2)
        } else if b == 2 {
            Some(ArpTimbre::Both)
        } else {
            None
        }
    }

    /// The variant with number `b`, or the first variant when there is none.
    pub open spec fn decoded(b: u8) -> Self {
        if b == 0 {
            ArpTimbre::Timbre1
        } else if b == 1 {
            ArpTimbre::Timbre2
        } else if b == 2 {
            ArpTimbre::Both
        } else {
            ArpTimbre::Timbre1
        }
    }

    /// The variant with number `b`, or the first variant when there is none.
    pub fn decode(b: u8) -> (res: Self)
        ensures
            res == Self::decoded(b),
            b < 3 ==> res as u8 == b,
            b >= 3 ==> res == ArpTimbre::Timbre1,
    {
        match Self::from_code(b) {
            Some(v) => v,
            None => ArpTimbre::Timbre1,
        }
    }

    /// Every variant, in order.
    pub fn all() -> (res: Vec<Self>)
        ensures
            res@.len() == 3,
            forall|i: int| 0 <= i < 3 ==> #[trigger] res@[i] as int == i,
    {
        let res = vec![ArpTimbre::Timbre1, ArpTimbre::Timbre2, ArpTimbre::Both];
        res
    }
}

impl IntoEnumIterator for ArpTimbre {
    fn iter() -> std::vec::IntoIter<Self> {
        Self::all().into_iter()
    }
}

#[derive(Debug, PartialEq, Eq, Clone, Copy, Structural)]
pub enum VoiceAssign {
    Mono1,
    Mono2,
    Poly,
}

impl Default for VoiceAssign {
    fn default() -> (res: Self)
        ensures
            res == VoiceAssign::Mono1,
    {
        VoiceAssign::Mono1
    }
}

impl From<VoiceAssign> for u8 {
    fn from(v: VoiceAssign) -> (res: u8) {
        v as u8
    }
}

impl vstd::std_specs::convert::FromSpecImpl<VoiceAssign> for u8 {
    open spec fn obeys_from_spec() -> bool {
        true
    }

    open spec fn from_spec(v: VoiceAssign) -> u8 {
        v as u8
    }
}

impl VoiceAssign {
    /// The variant with number `b`, if there is one.
    pub fn from_code(b: u8) -> (res: Option<Self>)
        ensures
            b < 3 <==> res is Some,
            res matches Some(v) ==> v as u8 == b,
    {
        if b == 0 {
            Some(VoiceAssign::Mono1)
        } else if b == 1 {
            Some(VoiceAssign::Mono2)
        } else if b == 2 {
            Some(VoiceAssign::Poly)
        } else {
            None
        }
    }

    /// The variant with number `b`, or the first variant when there is none.
    pub open spec fn decoded(b: u8) -> Self {
        if b == 0 {
            VoiceAssign::Mono1
        } else if b == 1 {
            VoiceAssign::Mono2
        } else if b == 2 {
            VoiceAssign::Poly
        } else {
            VoiceAssign::Mono1
        }
    }

    /// The variant with number `b`, or the first variant when there is none.
    pub fn decode(b: u8) -> (res: Self)
        ensures
            res == Self::decoded(b),
            b < 3 ==> res as u8 == b,
            b >= 3 ==> res == VoiceAssign::Mono1,
    {
        match Self::from_code(b) {
            Some(v) => v,
            None => VoiceAssign::Mono1,
        }
    }

    /// Every variant, in order.
    pub fn all() -> (res: Vec<Self>)
        ensures
            res@.len() == 3,
            forall|i: int| 0 <= i < 3 ==> #[trigger] res@[i] as int == i,
    {
        let res = vec![VoiceAssign::Mono1, VoiceAssign::Mono2, VoiceAssign::Poly];
        res
    }
}

impl IntoEnumIterator for VoiceAssign {
    fn iter() -> std::vec::IntoIter<Self> {
        Self::all().into_iter()
    }
}

#[derive(Debug, PartialEq, Eq, Clone, Copy, Structural)]
pub enum UnisonVoice {
    Off,
    Two,
    Three,
    Four,
}

impl Default for UnisonVoice {
    fn default() -> (res: Self)
        ensures
            res == UnisonVoice::Off,
    {
        UnisonVoice::Off
    }
}

impl From<UnisonVoice> for u8 {
    fn from(v: UnisonVoice) -> (res: u8) {
        v as u8
    }
}

impl vstd::std_specs::convert::FromSpecImpl<UnisonVoice> for u8 {
    open spec fn obeys_from_spec() -> bool {
        true
    }

    open spec fn from_spec(v: UnisonVoice) -> u8 {
        v as u8
    }
}

impl UnisonVoice {
    /// The variant with number `b`, if there is one.
    pub fn from_code(b: u8) -> (res: Option<Self>)
        ensures
            b < 4 <==> res is Some,
            res matches Some(v) ==> v as u8 == b,
    {
        if b == 0 {
            Some(UnisonVoice::Off)
        } else if b == 1 {
            Some(UnisonVoice::Two)
        } else if b == 2 {
            Some(UnisonVoice::Three)
        } else if b == 3 {
            Some(UnisonVoice::Four)
        } else {
            None
        }
    }

    /// The variant with number `b`, or the first variant when there is none.
    pub open spec fn decoded(b: u8) -> Self {
        if b == 0 {
            UnisonVoice::Off
        } else if b == 1 {
            UnisonVoice::Two
        } else if b == 2 {
            UnisonVoice::Three
        } else if b == 3 {
            UnisonVoice::Four
        } else {
            UnisonVoice::Off
        }
    }

    /// The variant with number `b`, or the first variant when there is none.
    pub fn decode(b: u8) -> (res: Self)
        ensures
            res == Self::decoded(b),
            b < 4 ==> res as u8 == b,
            b >= 4 ==> res == UnisonVoice::Off,
    {
        match Self::from_code(b) {
            Some(v) => v,
            None => UnisonVoice::Off,
        }
    }

    /// Every variant, in order.
    pub fn all() -> (res: Vec<Self>)
        ensures
            res@.len() == 4,
            forall|i: int| 0 <= i < 4 ==> #[trigger] res@[i] as int == i,
    {
        let res = vec![UnisonVoice::Off, UnisonVoice::Two, UnisonVoice::Three, UnisonVoice::Four];
        res
    }
}

impl IntoEnumIterator for UnisonVoice {
    fn iter() -> std::vec::IntoIter<Self> {
        Self::all().into_iter()
    }
}

#[derive(Debug, PartialEq, Eq, Clone, Copy, Structural)]
pub enum OscMod {
    Waveform,
    Cross,
    Unison,
    Vpm,
}

impl Default for OscMod {
    fn default() -> (res: Self)
        ensures
            res == OscMod::Waveform,
    {
        OscMod::Waveform
    }
}

impl From<OscMod> for u8 {
    fn from(v: OscMod) -> (res: u8) {
        v as u8
    }
}

impl vstd::std_specs::convert::FromSpecImpl<OscMod> for u8 {
    open spec fn obeys_from_spec() -> bool {
        true
    }

    open spec fn from_spec(v: OscMod) -> u8 {
        v as u8
    }
}

impl OscMod {
    /// The variant with number `b`, if there is one.
    pub fn from_code(b: u8) -> (res: Option<Self>)
        ensures
            b < 4 <==> res is Some,
            res matches Some(v) ==> v as u8 == b,
    {
        if b == 0 {
            Some(OscMod::Waveform)
        } else if b == 1 {
            Some(OscMod::Cross)
        } else if b == 2 {
            Some(OscMod::Unison)
        } else if b == 3 {
            Some(OscMod::Vpm)
        } else {
            None
        }
    }

    /// The variant with number `b`, or the first variant when there is none.
    pub open spec fn decoded(b: u8) -> Self {
        if b == 0 {
            OscMod::Waveform
        } else if b == 1 {
            OscMod::Cross
        } else if b == 2 {
            OscMod::Unison
        } else if b == 3 {
            OscMod::Vpm
        } else {
            OscMod::Waveform
        }
    }

    /// The variant with number `b`, or the first variant when there is none.
    pub fn decode(b: u8) -> (res: Self)
        ensures
            res == Self::decoded(b),
            b < 4 ==> res as u8 == b,
            b >= 4 ==> res == OscMod::Waveform,
    {
        match Self::from_code(b) {
            Some(v) => v,
            None => OscMod::Waveform,
        }
    }

    /// Every variant, in order.
    pub fn all() -> (res: Vec<Self>)
        ensures
            res@.len() == 4,
            forall|i: int| 0 <= i < 4 ==> #[trigger] res@[i] as int == i,
    {
        let res = vec![OscMod::Waveform, OscMod::Cross, OscMod::Unison, OscMod::Vpm];
        res
    }
}

impl IntoEnumIterator for OscMod {
    fn iter() -> std::vec::IntoIter<Self> {
        Self::all().into_iter()
    }
}

#[derive(Debug, PartialEq, Eq, Clone, Copy, Structural)]
pub enum Osc2Mod {
    Off,
    Ring,
    Sync,
    RingSync,
}

impl Default for Osc2Mod {
    fn default() -> (res: Self)
        ensures
            res == Osc2Mod::Off,
    {
        Osc2Mod::Off
    }
}

impl From<Osc2Mod> for u8 {
    fn from(v: Osc2Mod) -> (res: u8) {
        v as u8
    }
}

impl vstd::std_specs::convert::FromSpecImpl<Osc2Mod> for u8 {
    open spec fn obeys_from_spec() -> bool {
        true
    }

    open spec fn from_spec(v: Osc2Mod) -> u8 {
        v as u8
    }
}

impl Osc2Mod {
    /// The variant with number `b`, if there is one.
    pub fn from_code(b: u8) -> (res: Option<Self>)
        ensures
            b < 4 <==> res is Some,
            res matches Some(v) ==> v as u8 == b,
    {
        if b == 0 {
            Some(Osc2Mod::Off)
        } else if b == 1 {
            Some(Osc2Mod::Ring)
        } else if b == 2 {
            Some(Osc2Mod::Sync)
        } else if b == 3 {
            Some(Osc2Mod::RingSync)
        } else {
            None
        }
    }

    /// The variant with number `b`, or the first variant when there is none.
    pub open spec fn decoded(b: u8) -> Self {
        if b == 0 {
            Osc2Mod::Off
        } else if b == 1 {
            Osc2Mod::Ring
        } else if b == 2 {
            Osc2Mod::Sync
        } else if b == 3 {
            Osc2Mod::RingSync
        } else {
            Osc2Mod::Off
        }
    }

    /// The variant with number `b`, or the first variant when there is none.
    pub fn decode(b: u8) -> (res: Self)
        ensures
            res == Self::decoded(b),
            b < 4 ==> res as u8 == b,
            b >= 4 ==> res == Osc2Mod::Off,
    {
        match Self::from_code(b) {
            Some(v) => v,
            None => Osc2Mod::Off,
        }
    }

    /// Every variant, in order.
    pub fn all() -> (res: Vec<Self>)
        ensures
            res@.len() == 4,
            forall|i: int| 0 <= i < 4 ==> #[trigger] res@[i] as int == i,
    {
        let res = vec![Osc2Mod::Off, Osc2Mod::Ring, Osc2Mod::Sync, Osc2Mod::RingSync];
        res
    }
}

impl IntoEnumIterator for Osc2Mod {
    fn iter() -> std::vec::IntoIter<Self> {
        Self::all().into_iter()
    }
}

#[derive(Debug, PartialEq, Eq, Clone, Copy, Structural)]
pub enum Osc2Wave {
    Saw,
    Square,
    Triangle,
    Sine,
}

impl Default for Osc2Wave {
    fn default() -> (res: Self)
        ensures
            res == Osc2Wave::Saw,
    {
        Osc2Wave::Saw
    }
}

impl From<Osc2Wave> for u8 {
    fn from(v: Osc2Wave) -> (res: u8) {
        v as u8
    }
}

impl vstd::std_specs::convert::FromSpecImpl<Osc2Wave> for u8 {
    open spec fn obeys_from_spec() -> bool {
        true
    }

    open spec fn from_spec(v: Osc2Wave) -> u8 {
        v as u8
    }
}

impl Osc2Wave {
    /// The variant with number `b`, if there is one.
    pub fn from_code(b: u8) -> (res: Option<Self>)
        ensures
            b < 4 <==> res is Some,
            res matches Some(v) ==> v as u8 == b,
    {
        if b == 0 {
            Some(Osc2Wave::Saw)
        } else if b == 1 {
            Some(Osc2Wave::Square)
        } else if b == 2 {
            Some(Osc2Wave::Triangle)
        } else if b == 3 {
            Some(Osc2Wave::Sine)
        } else {
            None
        }
    }

    /// The variant with number `b`, or the first variant when there is none.
    pub open spec fn decoded(b: u8) -> Self {
        if b == 0 {
            Osc2Wave::Saw
        } else if b == 1 {
            Osc2Wave::Square
        } else if b == 2 {
            Osc2Wave::Triangle
        } else if b == 3 {
            Osc2Wave::Sine
        } else {
            Osc2Wave::Saw
        }
    }

    /// The variant with number `b`, or the first variant when there is none.
    pub fn decode(b: u8) -> (res: Self)
        ensures
            res == Self::decoded(b),
            b < 4 ==> res as u8 == b,
            b >= 4 ==> res == Osc2Wave::Saw,
    {
        match Self::from_code(b) {
            Some(v) => v,
            None => Osc2Wave::Saw,
        }
    }

    /// Every variant, in order.
    pub fn all() -> (res: Vec<Self>)
        ensures
            res@.len() == 4,
            forall|i: int| 0 <= i < 4 ==> #[trigger] res@[i] as int == i,
    {
        let res = vec![Osc2Wave::Saw, Osc2Wave::Square, Osc2Wave::Triangle, Osc2Wave::Sine];
        res
    }
}

impl IntoEnumIterator for Osc2Wave {
    fn iter() -> std::vec::IntoIter<Self> {
        Self::all().into_iter()
    }
}

#[derive(Debug, PartialEq, Eq, Clone, Copy, Structural)]
pub enum Filter2Type {
    Lpf,
    Hpf,
    Bpf,
    Comb,
}

impl Default for Filter2Type {
    fn default() -> (res: Self)
        ensures
            res == Filter2Type::Lpf,
    {
        Filter2Type::Lpf
    }
}

impl From<Filter2Type> for u8 {
    fn from(v: Filter2Type) -> (res: u8) {
        v as u8
    }
}

impl vstd::std_specs::convert::FromSpecImpl<Filter2Type> for u8 {
    open spec fn obeys_from_spec() -> bool {
        true
    }

    open spec fn from_spec(v: Filter2Type) -> u8 {
        v as u8
    }
}

impl Filter2Type {
    /// The variant with number `b`, if there is one.
    pub fn from_code(b: u8) -> (res: Option<Self>)
        ensures
            b < 4 <==> res is Some,
            res matches Some(v) ==> v as u8 == b,
    {
        if b == 0 {
            Some(Filter2Type::Lpf)
        } else if b == 1 {
            Some(Filter2Type::Hpf)
        } else if b == 2 {
            Some(Filter2Type::Bpf)
        } else if b == 3 {
            Some(Filter2Type::Comb)
        } else {
            None
        }
    }

    /// The variant with number `b`, or the first variant when there is none.
    pub open spec fn decoded(b: u8) -> Self {
        if b == 0 {
            Filter2Type::Lpf
        } else if b == 1 {
            Filter2Type::Hpf
        } else if b == 2 {
            Filter2Type::Bpf
        } else if b == 3 {
            Filter2Type::Comb
        } else {
            Filter2Type::Lpf
        }
    }

    /// The variant with number `b`, or the first variant when there is none.
    pub fn decode(b: u8) -> (res: Self)
        ensures
            res == Self::decoded(b),
            b < 4 ==> res as u8 == b,
            b >= 4 ==> res == Filter2Type::Lpf,
    {
        match Self::from_code(b) {
            Some(v) => v,
            None => Filter2Type::Lpf,
        }
    }

    /// Every variant, in order.
    pub fn all() -> (res: Vec<Self>)
        ensures
            res@.len() == 4,
            forall|i: int| 0 <= i < 4 ==> #[trigger] res@[i] as int == i,
    {
        let res = vec![Filter2Type::Lpf, Filter2Type::Hpf, Filter2Type::Bpf, Filter2Type::Comb];
        res
    }
}

impl IntoEnumIterator for Filter2Type {
    fn iter() -> std::vec::IntoIter<Self> {
        Self::all().into_iter()
    }
}

#[derive(Debug, PartialEq, Eq, Clone, Copy, Structural)]
pub enum FilterRouting {
    Single,
    Serial,
    Parallel,
    Individual,
}

impl Default for FilterRouting {
    fn default() -> (res: Self)
        ensures
            res == FilterRouting::Single,
    {
        FilterRouting::Single
    }
}

impl From<FilterRouting> for u8 {
    fn from(v: FilterRouting) -> (res: u8) {
        v as u8
    }
}

impl vstd::std_specs::convert::FromSpecImpl<FilterRouting> for u8 {
    open spec fn obeys_from_spec() -> bool {
        true
    }

    open spec fn from_spec(v: FilterRouting) -> u8 {
        v as u8
    }
}

impl FilterRouting {
    /// The variant with number `b`, if there is one.
    pub fn from_code(b: u8) -> (res: Option<Self>)
        ensures
            b < 4 <==> res is Some,
            res matches Some(v) ==> v as u8 == b,
    {
        if b == 0 {
            Some(FilterRouting::Single)
        } else if b == 1 {
            Some(FilterRouting::Serial)
        } else if b == 2 {
            Some(FilterRouting::Parallel)
        } else if b == 3 {
            Some(FilterRouting::Individual)
        } else {
            None
        }
    }

    /// The variant with number `b`, or the first variant when there is none.
    pub open spec fn decoded(b: u8) -> Self {
        if b == 0 {
            FilterRouting::Single
        } else if b == 1 {
            FilterRouting::Serial
        } else if b == 2 {
            FilterRouting::Parallel
        } else if b == 3 {
            FilterRouting::Individual
        } else {
            FilterRouting::Single
        }
    }

    /// The variant with number `b`, or the first variant when there is none.
    pub fn decode(b: u8) -> (res: Self)
        ensures
            res == Self::decoded(b),
            b < 4 ==> res as u8 == b,
            b >= 4 ==> res == FilterRouting::Single,
    {
        match Self::from_code(b) {
            Some(v) => v,
            None => FilterRouting::Single,
        }
    }

    /// Every variant, in order.
    pub fn all() -> (res: Vec<Self>)
        ensures
            res@.len() == 4,
            forall|i: int| 0 <= i < 4 ==> #[trigger] res@[i] as int == i,
    {
        let res = vec![FilterRouting::Single, FilterRouting::Serial, FilterRouting::Parallel, FilterRouting::Individual];
        res
    }
}

impl IntoEnumIterator for FilterRouting {
    fn iter() -> std::vec::IntoIter<Self> {
        Self::all().into_iter()
    }
}

#[derive(Debug, PartialEq, Eq, Clone, Copy, Structural)]
pub enum LfoKeySync {
    Off,
    Timbre,
    Voice,
}

impl Default for LfoKeySync {
    fn default() -> (res: Self)
        ensures
            res == LfoKeySync::Off,
    {
        LfoKeySync::Off
    }
}

impl From<LfoKeySync> for u8 {
    fn from(v: LfoKeySync) -> (res: u8) {
        v as u8
    }
}

impl vstd::std_specs::convert::FromSpecImpl<LfoKeySync> for u8 {
    open spec fn obeys_from_spec() -> bool {
        true
    }

    open spec fn from_spec(v: LfoKeySync) -> u8 {
        v as u8
    }
}

impl LfoKeySync {
    /// The variant with number `b`, if there is one.
    pub fn from_code(b: u8) -> (res: Option<Self>)
        ensures
            b < 3 <==> res is Some,
            res matches Some(v) ==> v as u8 == b,
    {
        if b == 0 {
            Some(LfoKeySync::Off)
        } else if b == 1 {
            Some(LfoKeySync::Timbre)
        } else if b == 2 {
            Some(LfoKeySync::Voice)
        } else {
            None
        }
    }

    /// The variant with number `b`, or the first variant when there is none.
    pub open spec fn decoded(b: u8) -> Self {
        if b == 0 {
            LfoKeySync::Off
        } else if b == 1 {
            LfoKeySync::Timbre
        } else if b == 2 {
            LfoKeySync::Voice
        } else {
            LfoKeySync::Off
        }
    }

    /// The variant with number `b`, or the first variant when there is none.
    pub fn decode(b: u8) -> (res: Self)
        ensures
            res == Self::decoded(b),
            b < 3 ==> res as u8 == b,
            b >= 3 ==> res == LfoKeySync::Off,
    {
        match Self::from_code(b) {
            Some(v) => v,
            None => LfoKeySync::Off,
        }
    }

    /// Every variant, in order.
    pub fn all() -> (res: Vec<Self>)
        ensures
            res@.len() == 3,
            forall|i: int| 0 <= i < 3 ==> #[trigger] res@[i] as int == i,
    {
        let res = vec![LfoKeySync::Off, LfoKeySync::Timbre, LfoKeySync::Voice];
        res
    }
}

impl IntoEnumIterator for LfoKeySync {
    fn iter() -> std::vec::IntoIter<Self> {
        Self::all().into_iter()
    }
}

#[derive(Debug, PartialEq, Eq, Clone, Copy, Structural)]
pub enum WaveShapePosition {
    PreFilter1,
    PreAmp,
}

impl Default for WaveShapePosition {
    fn default() -> (res: Self)
        ensures
            res == WaveShapePosition::PreFilter1,
    {
        WaveShapePosition::PreFilter1
    }
}

impl From<WaveShapePosition> for u8 {
    fn from(v: WaveShapePosition) -> (res: u8) {
        v as u8
    }
}

impl vstd::std_specs::convert::FromSpecImpl<WaveShapePosition> for u8 {
    open spec fn obeys_from_spec() -> bool {
        true
    }

    open spec fn from_spec(v: WaveShapePosition) -> u8 {
        v as u8
    }
}

impl WaveShapePosition {
    /// The variant with number `b`, if there is one.
    pub fn from_code(b: u8) -> (res: Option<Self>)
        ensures
            b < 2 <==> res is Some,
            res matches Some(v) ==> v as u8 == b,
    {
        if b == 0 {
            Some(WaveShapePosition::PreFilter1)
        } else if b == 1 {
            Some(WaveShapePosition::PreAmp)
        } else {
            None
        }
    }

    /// The variant with number `b`, or the first variant when there is none.
    pub open spec fn decoded(b: u8) -> Self {
        if b == 0 {
            WaveShapePosition::PreFilter1
        } else if b == 1 {
            WaveShapePosition::PreAmp
        } else {
            WaveShapePosition::PreFilter1
        }
    }

    /// The variant with number `b`, or the first variant when there is none.
    pub fn decode(b: u8) -> (res: Self)
        ensures
            res == Self::decoded(b),
            b < 2 ==> res as u8 == b,
            b >= 2 ==> res == WaveShapePosition::PreFilter1,
    {
        match Self::from_code(b) {
            Some(v) => v,
            None => WaveShapePosition::PreFilter1,
        }
    }

    /// Every variant, in order.
    pub fn all() -> (res: Vec<Self>)
        ensures
            res@.len() == 2,
            forall|i: int| 0 <= i < 2 ==> #[trigger] res@[i] as int == i,
    {
        let res = vec![WaveShapePosition::PreFilter1, WaveShapePosition::PreAmp];
        res
    }
}

impl IntoEnumIterator for WaveShapePosition {
    fn iter() -> std::vec::IntoIter<Self> {
        Self::all().into_iter()
    }
}

#[derive(Debug, PartialEq, Eq, Clone, Copy, Structural)]
pub enum ArpType {
    Up,
    Down,
    Alt1,
    Alt2,
    Random,
    Trigger,
}

impl Default for ArpType {
    fn default() -> (res: Self)
        ensures
            res == ArpType::Up,
    {
        ArpType::Up
    }
}

impl From<ArpType> for u8 {
    fn from(v: ArpType) -> (res: u8) {
        v as u8
    }
}

impl vstd::std_specs::convert::FromSpecImpl<ArpType> for u8 {
    open spec fn obeys_from_spec() -> bool {
        true
    }

    open spec fn from_spec(v: ArpType) -> u8 {
        v as u8
    }
}

impl ArpType {
    /// The variant with number `b`, if there is one.
    pub fn from_code(b: u8) -> (res: Option<Self>)
        ensures
            b < 6 <==> res is Some,
            res matches Some(v) ==> v as u8 == b,
    {
        if b == 0 {
            Some(ArpType::Up)
        } else if b == 1 {
            Some(ArpType::Down)
        } else if b == 2 {
            Some(ArpType::Alt1)
        } else if b == 3 {
            Some(ArpType::Alt2)
        } else if b == 4 {
            Some(ArpType::Random)
        } else if b == 5 {
            Some(ArpType::Trigger)
        } else {
            None
        }
    }

    /// The variant with number `b`, or the first variant when there is none.
    pub open spec fn decoded(b: u8) -> Self {
        if b == 0 {
            ArpType::Up
        } else if b == 1 {
            ArpType::Down
        } else if b == 2 {
            ArpType::Alt1
        } else if b == 3 {
            ArpType::Alt2
        } else if b == 4 {
            ArpType::Random
        } else if b == 5 {
            ArpType::Trigger
        } else {
            ArpType::Up
        }
    }

    /// The variant with number `b`, or the first variant when there is none.
    pub fn decode(b: u8) -> (res: Self)
        ensures
            res == Self::decoded(b),
            b < 6 ==> res as u8 == b,
            b >= 6 ==> res == ArpType::Up,
    {
        match Self::from_code(b) {
            Some(v) => v,
            None => ArpType::Up,
        }
    }

    /// Every variant, in order.
    pub fn all() -> (res: Vec<Self>)
        ensures
            res@.len() == 6,
            forall|i: int| 0 <= i < 6 ==> #[trigger] res@[i] as int == i,
    {
        let res = vec![ArpType::Up, ArpType::Down, ArpType::Alt1, ArpType::Alt2, ArpType::Random, ArpType::Trigger];
        res
    }
}

impl IntoEnumIterator for ArpType {
    fn iter() -> std::vec::IntoIter<Self> {
        Self::all().into_iter()
    }
}

#[derive(Debug, PartialEq, Eq, Clone, Copy, Structural)]
pub enum VelCurve {
    Curve1,
    Curve2,
    Curve3,
    Curve4,
    Curve5,
    Curve6,
    Curve7,
    Curve8,
    Const127,
}

impl Default for VelCurve {
    fn default() -> (res: Self)
        ensures
            res == VelCurve::Curve1,
    {
        VelCurve::Curve1
    }
}

impl From<VelCurve> for u8 {
    fn from(v: VelCurve) -> (res: u8) {
        v as u8
    }
}

impl vstd::std_specs::convert::FromSpecImpl<VelCurve> for u8 {
    open spec fn obeys_from_spec() -> bool {
        true
    }

    open spec fn from_spec(v: VelCurve) -> u8 {
        v as u8
    }
}

impl VelCurve {
    /// The variant with number `b`, if there is one.
    pub fn from_code(b: u8) -> (res: Option<Self>)
        ensures
            b < 9 <==> res is Some,
            res matches Some(v) ==> v as u8 == b,
    {
        if b == 0 {
            Some(VelCurve::Curve1)
        } else if b == 1 {
            Some(VelCurve::Curve2)
        } else if b == 2 {
            Some(VelCurve::Curve3)
        } else if b == 3 {
            Some(VelCurve::Curve4)
        } else if b == 4 {
            Some(VelCurve::Curve5)
        } else if b == 5 {
            Some(VelCurve::Curve6)
        } else if b == 6 {
            Some(VelCurve::Curve7)
        } else if b == 7 {
            Some(VelCurve::Curve8)
        } else if b == 8 {
            Some(VelCurve::Const127)
        } else {
            None
        }
    }

    /// The variant with number `b`, or the first variant when there is none.
    pub open spec fn decoded(b: u8) -> Self {
        if b == 0 {
            VelCurve::Curve1
        } else if b == 1 {
            VelCurve::Curve2
        } else if b == 2 {
            VelCurve::Curve3
        } else if b == 3 {
            VelCurve::Curve4
        } else if b == 4 {
            VelCurve::Curve5
        } else if b == 5 {
            VelCurve::Curve6
        } else if b == 6 {
            VelCurve::Curve7
        } else if b == 7 {
            VelCurve::Curve8
        } else if b == 8 {
            VelCurve::Const127
        } else {
            VelCurve::Curve1
        }
    }

    /// The variant with number `b`, or the first variant when there is none.
    pub fn decode(b: u8) -> (res: Self)
        ensures
            res == Self::decoded(b),
            b < 9 ==> res as u8 == b,
            b >= 9 ==> res == VelCurve::Curve1,
    {
        match Self::from_code(b) {
            Some(v) => v,
            None => VelCurve::Curve1,
        }
    }

    /// Every variant, in order.
    pub fn all() -> (res: Vec<Self>)
        ensures
            res@.len() == 9,
            forall|i: int| 0 <= i < 9 ==> #[trigger] res@[i] as int == i,
    {
        let res = vec![VelCurve::Curve1, VelCurve::Curve2, VelCurve::Curve3, VelCurve::Curve4, VelCurve::Curve5, VelCurve::Curve6, VelCurve::Curve7, VelCurve::Curve8, VelCurve::Const127];
        res
    }
}

impl IntoEnumIterator for VelCurve {
    fn iter() -> std::vec::IntoIter<Self> {
        Self::all().into_iter()
    }
}

#[derive(Debug, PartialEq, Eq, Clone, Copy, Structural)]
pub enum Osc1Wave {
    Saw,
    Pulse,
    Triangle,
    SinCross,
    Noise,
    Formant,
    Dwgs,
    Pcm,
    AudioIn,
}

impl Default for Osc1Wave {
    fn default() -> (res: Self)
        ensures
            res == Osc1Wave::Saw,
    {
        Osc1Wave::Saw
    }
}

impl From<Osc1Wave> for u8 {
    fn from(v: Osc1Wave) -> (res: u8) {
        v as u8
    }
}

impl vstd::std_specs::convert::FromSpecImpl<Osc1Wave> for u8 {
    open spec fn obeys_from_spec() -> bool {
        true
    }

    open spec fn from_spec(v: Osc1Wave) -> u8 {
        v as u8
    }
}

impl Osc1Wave {
    /// The variant with number `b`, if there is one.
    pub fn from_code(b: u8) -> (res: Option<Self>)
        ensures
            b < 9 <==> res is Some,
            res matches Some(v) ==> v as u8 == b,
    {
        if b == 0 {
            Some(Osc1Wave::Saw)
        } else if b == 1 {
            Some(Osc1Wave::Pulse)
        } else if b == 2 {
            Some(Osc1Wave::Triangle)
        } else if b == 3 {
            Some(Osc1Wave::SinCross)
        } else if b == 4 {
            Some(Osc1Wave::Noise)
        } else if b == 5 {
            Some(Osc1Wave::Formant)
        } else if b == 6 {
            Some(Osc1Wave::Dwgs)
        } else if b == 7 {
            Some(Osc1Wave::Pcm)
        } else if b == 8 {
            Some(Osc1Wave::AudioIn)
        } else {
            None
        }
    }

    /// The variant with number `b`, or the first variant when there is none.
    pub open spec fn decoded(b: u8) -> Self {
        if b == 0 {
            Osc1Wave::Saw
        } else if b == 1 {
            Osc1Wave::Pulse
        } else if b == 2 {
            Osc1Wave::Triangle
        } else if b == 3 {
            Osc1Wave::SinCross
        } else if b == 4 {
            Osc1Wave::Noise
        } else if b == 5 {
            Osc1Wave::Formant
        } else if b == 6 {
            Osc1Wave::Dwgs
        } else if b == 7 {
            Osc1Wave::Pcm
        } else if b == 8 {
            Osc1Wave::AudioIn
        } else {
            Osc1Wave::Saw
        }
    }

    /// The variant with number `b`, or the first variant when there is none.
    pub fn decode(b: u8) -> (res: Self)
        ensures
            res == Self::decoded(b),
            b < 9 ==> res as u8 == b,
            b >= 9 ==> res == Osc1Wave::Saw,
    {
        match Self::from_code(b) {
            Some(v) => v,
            None => Osc1Wave::Saw,
        }
    }

    /// Every variant, in order.
    pub fn all() -> (res: Vec<Self>)
        ensures
            res@.len() == 9,
            forall|i: int| 0 <= i < 9 ==> #[trigger] res@[i] as int == i,
    {
        let res = vec![Osc1Wave::Saw, Osc1Wave::Pulse, Osc1Wave::Triangle, Osc1Wave::SinCross, Osc1Wave::Noise, Osc1Wave::Formant, Osc1Wave::Dwgs, Osc1Wave::Pcm, Osc1Wave::AudioIn];
        res
    }
}

impl IntoEnumIterator for Osc1Wave {
    fn iter() -> std::vec::IntoIter<Self> {
        Self::all().into_iter()
    }
}

#[derive(Debug, PartialEq, Eq, Clone, Copy, Structural)]
pub enum Lfo1Wave {
    Saw,
    Square,
    Triangle,
    SampleHold,
    Random,
}

impl Default for Lfo1Wave {
    fn default() -> (res: Self)
        ensures
            res == Lfo1Wave::Saw,
    {
        Lfo1Wave::Saw
    }
}

impl From<Lfo1Wave> for u8 {
    fn from(v: Lfo1Wave) -> (res: u8) {
        v as u8
    }
}

impl vstd::std_specs::convert::FromSpecImpl<Lfo1Wave> for u8 {
    open spec fn obeys_from_spec() -> bool {
        true
    }

    open spec fn from_spec(v: Lfo1Wave) -> u8 {
        v as u8
    }
}

impl Lfo1Wave {
    /// The variant with number `b`, if there is one.
    pub fn from_code(b: u8) -> (res: Option<Self>)
        ensures
            b < 5 <==> res is Some,
            res matches Some(v) ==> v as u8 == b,
    {
        if b == 0 {
            Some(Lfo1Wave::Saw)
        } else if b == 1 {
            Some(Lfo1Wave::Square)
        } else if b == 2 {
            Some(Lfo1Wave::Triangle)
        } else if b == 3 {
            Some(Lfo1Wave::SampleHold)
        } else if b == 4 {
            Some(Lfo1Wave::Random)
        } else {
            None
        }
    }

    /// The variant with number `b`, or the first variant when there is none.
    pub open spec fn decoded(b: u8) -> Self {
        if b == 0 {
            Lfo1Wave::Saw
        } else if b == 1 {
            Lfo1Wave::Square
        } else if b == 2 {
            Lfo1Wave::Triangle
        } else if b == 3 {
            Lfo1Wave::SampleHold
        } else if b == 4 {
            Lfo1Wave::Random
        } else {
            Lfo1Wave::Saw
        }
    }

    /// The variant with number `b`, or the first variant when there is none.
    pub fn decode(b: u8) -> (res: Self)
        ensures
            res == Self::decoded(b),
            b < 5 ==> res as u8 == b,
            b >= 5 ==> res == Lfo1Wave::Saw,
    {
        match Self::from_code(b) {
            Some(v) => v,
            None => Lfo1Wave::Saw,
        }
    }

    /// Every variant, in order.
    pub fn all() -> (res: Vec<Self>)
        ensures
            res@.len() == 5,
            forall|i: int| 0 <= i < 5 ==> #[trigger] res@[i] as int == i,
    {
        let res = vec![Lfo1Wave::Saw, Lfo1Wave::Square, Lfo1Wave::Triangle, Lfo1Wave::SampleHold, Lfo1Wave::Random];
        res
    }
}

impl IntoEnumIterator for Lfo1Wave {
    fn iter() -> std::vec::IntoIter<Self> {
        Self::all().into_iter()
    }
}

#[derive(Debug, PartialEq, Eq, Clone, Copy, Structural)]
pub enum Lfo2Wave {
    Saw,
    Square,
    Sine,
    SampleHold,
    Random,
}

impl Default for Lfo2Wave {
    fn default() -> (res: Self)
        ensures
            res == Lfo2Wave::Saw,
    {
        Lfo2Wave::Saw
    }
}

impl From<Lfo2Wave> for u8 {
    fn from(v: Lfo2Wave) -> (res: u8) {
        v as u8
    }
}

impl vstd::std_specs::convert::FromSpecImpl<Lfo2Wave> for u8 {
    open spec fn obeys_from_spec() -> bool {
        true
    }

    open spec fn from_spec(v: Lfo2Wave) -> u8 {
        v as u8
    }
}

impl Lfo2Wave {
    /// The variant with number `b`, if there is one.
    pub fn from_code(b: u8) -> (res: Option<Self>)
        ensures
            b < 5 <==> res is Some,
            res matches Some(v) ==> v as u8 == b,
    {
        if b == 0 {
            Some(Lfo2Wave::Saw)
        } else if b == 1 {
            Some(Lfo2Wave::Square)
        } else if b == 2 {
            Some(Lfo2Wave::Sine)
        } else if b == 3 {
            Some(Lfo2Wave::SampleHold)
        } else if b == 4 {
            Some(Lfo2Wave::Random)
        } else {
            None
        }
    }

    /// The variant with number `b`, or the first variant when there is none.
    pub open spec fn decoded(b: u8) -> Self {
        if b == 0 {
            Lfo2Wave::Saw
        } else if b == 1 {
            Lfo2Wave::Square
        } else if b == 2 {
            Lfo2Wave::Sine
        } else if b == 3 {
            Lfo2Wave::SampleHold
        } else if b == 4 {
            Lfo2Wave::Random
        } else {
            Lfo2Wave::Saw
        }
    }

    /// The variant with number `b`, or the first variant when there is none.
    pub fn decode(b: u8) -> (res: Self)
        ensures
            res == Self::decoded(b),
            b < 5 ==> res as u8 == b,
            b >= 5 ==> res == Lfo2Wave::Saw,
    {
        match Self::from_code(b) {
            Some(v) => v,
            None => Lfo2Wave::Saw,
        }
    }

    /// Every variant, in order.
    pub fn all() -> (res: Vec<Self>)
        ensures
            res@.len() == 5,
            forall|i: int| 0 <= i < 5 ==> #[trigger] res@[i] as int == i,
    {
        let res = vec![Lfo2Wave::Saw, Lfo2Wave::Square, Lfo2Wave::Sine, Lfo2Wave::SampleHold, Lfo2Wave::Random];
        res
    }
}

impl IntoEnumIterator for Lfo2Wave {
    fn iter() -> std::vec::IntoIter<Self> {
        Self::all().into_iter()
    }
}

#[derive(Debug, PartialEq, Eq, Clone, Copy, Structural)]
pub enum PatchSource {
    Eg1,
    Eg2,
    Eg3,
    Lfo1,
    Lfo2,
    Velocity,
    PitchBend,
    ModWheel,
    KeyTrack,
    Midi1,
    Midi2,
    Midi3,
}

impl Default for PatchSource {
    fn default() -> (res: Self)
        ensures
            res == PatchSource::Eg1,
    {
        PatchSource::Eg1
    }
}

impl From<PatchSource> for u8 {
    fn from(v: PatchSource) -> (res: u8) {
        v as u8
    }
}

impl vstd::std_specs::convert::FromSpecImpl<PatchSource> for u8 {
    open spec fn obeys_from_spec() -> bool {
        true
    }

    open spec fn from_spec(v: PatchSource) -> u8 {
        v as u8
    }
}

impl PatchSource {
    /// The variant with number `b`, if there is one.
    pub fn from_code(b: u8) -> (res: Option<Self>)
        ensures
            b < 12 <==> res is Some,
            res matches Some(v) ==> v as u8 == b,
    {
        if b == 0 {
            Some(PatchSource::Eg1)
        } else if b == 1 {
            Some(PatchSource::Eg2)
        } else if b == 2 {
            Some(PatchSource::Eg3)
        } else if b == 3 {
            Some(PatchSource::Lfo1)
        } else if b == 4 {
            Some(PatchSource::Lfo2)
        } else if b == 5 {
            Some(PatchSource::Velocity)
        } else if b == 6 {
            Some(PatchSource::PitchBend)
        } else if b == 7 {
            Some(PatchSource::ModWheel)
        } else if b == 8 {
            Some(PatchSource::KeyTrack)
        } else if b == 9 {
            Some(PatchSource::Midi1)
        } else if b == 10 {
            Some(PatchSource::Midi2)
        } else if b == 11 {
            Some(PatchSource::Midi3)
        } else {
            None
        }
    }

    /// The variant with number `b`, or the first variant when there is none.
    pub open spec fn decoded(b: u8) -> Self {
        if b == 0 {
            PatchSource::Eg1
        } else if b == 1 {
            PatchSource::Eg2
        } else if b == 2 {
            PatchSource::Eg3
        } else if b == 3 {
            PatchSource::Lfo1
        } else if b == 4 {
            PatchSource::Lfo2
        } else if b == 5 {
            PatchSource::Velocity
        } else if b == 6 {
            PatchSource::PitchBend
        } else if b == 7 {
            PatchSource::ModWheel
        } else if b == 8 {
            PatchSource::KeyTrack
        } else if b == 9 {
            PatchSource::Midi1
        } else if b == 10 {
            PatchSource::Midi2
        } else if b == 11 {
            PatchSource::Midi3
        } else {
            PatchSource::Eg1
        }
    }

    /// The variant with number `b`, or the first variant when there is none.
    pub fn decode(b: u8) -> (res: Self)
        ensures
            res == Self::decoded(b),
            b < 12 ==> res as u8 == b,
            b >= 12 ==> res == PatchSource::Eg1,
    {
        match Self::from_code(b) {
            Some(v) => v,
            None => PatchSource::Eg1,
        }
    }

    /// Every variant, in order.
    pub fn all() -> (res: Vec<Self>)
        ensures
            res@.len() == 12,
            forall|i: int| 0 <= i < 12 ==> #[trigger] res@[i] as int == i,
    {
        let res = vec![PatchSource::Eg1, PatchSource::Eg2, PatchSource::Eg3, PatchSource::Lfo1, PatchSource::Lfo2, PatchSource::Velocity, PatchSource::PitchBend, PatchSource::ModWheel, PatchSource::KeyTrack, PatchSource::Midi1, PatchSource::Midi2, PatchSource::Midi3];
        res
    }
}

impl IntoEnumIterator for PatchSource {
    fn iter() -> std::vec::IntoIter<Self> {
        Self::all().into_iter()
    }
}

#[derive(Debug, PartialEq, Eq, Clone, Copy, Structural)]
pub enum PatchDest {
    Pitch,
    Osc2Pitch,
    Osc1Ctrl1,
    Osc1Level,
    Osc2Level,
    NoiseLevel,
    Flt1Type,
    Flt1Cutoff,
    Flt1Resonance,
    Flt2Cutoff,
    DriveWsDepth,
    Amp,
    Pan,
    Lfo1Freq,
    Lfo2Freq,
}

impl Default for PatchDest {
    fn default() -> (res: Self)
        ensures
            res == PatchDest::Pitch,
    {
        PatchDest::Pitch
    }
}

impl From<PatchDest> for u8 {
    fn from(v: PatchDest) -> (res: u8) {
        v as u8
    }
}

impl vstd::std_specs::convert::FromSpecImpl<PatchDest> for u8 {
    open spec fn obeys_from_spec() -> bool {
        true
    }

    open spec fn from_spec(v: PatchDest) -> u8 {
        v as u8
    }
}

impl PatchDest {
    /// The variant with number `b`, if there is one.
    pub fn from_code(b: u8) -> (res: Option<Self>)
        ensures
            b < 15 <==> res is Some,
            res matches Some(v) ==> v as u8 == b,
    {
        if b == 0 {
            Some(PatchDest::Pitch)
        } else if b == 1 {
            Some(PatchDest::Osc2Pitch)
        } else if b == 2 {
            Some(PatchDest::Osc1Ctrl1)
        } else if b == 3 {
            Some(PatchDest::Osc1Level)
        } else if b == 4 {
            Some(PatchDest::Osc2Level)
        } else if b == 5 {
            Some(PatchDest::NoiseLevel)
        } else if b == 6 {
            Some(PatchDest::Flt1Type)
        } else if b == 7 {
            Some(PatchDest::Flt1Cutoff)
        } else if b == 8 {
            Some(PatchDest::Flt1Resonance)
        } else if b == 9 {
            Some(PatchDest::Flt2Cutoff)
        } else if b == 10 {
            Some(PatchDest::DriveWsDepth)
        } else if b == 11 {
            Some(PatchDest::Amp)
        } else if b == 12 {
            Some(PatchDest::Pan)
        } else if b == 13 {
            Some(PatchDest::Lfo1Freq)
        } else if b == 14 {
            Some(PatchDest::Lfo2Freq)
        } else {
            None
        }
    }

    /// The variant with number `b`, or the first variant when there is none.
    pub open spec fn decoded(b: u8) -> Self {
        if b == 0 {
            PatchDest::Pitch
        } else if b == 1 {
            PatchDest::Osc2Pitch
        } else if b == 2 {
            PatchDest::Osc1Ctrl1
        } else if b == 3 {
            PatchDest::Osc1Level
        } else if b == 4 {
            PatchDest::Osc2Level
        } else if b == 5 {
            PatchDest::NoiseLevel
        } else if b == 6 {
            PatchDest::Flt1Type
        } else if b == 7 {
            PatchDest::Flt1Cutoff
        } else if b == 8 {
            PatchDest::Flt1Resonance
        } else if b == 9 {
            PatchDest::Flt2Cutoff
        } else if b == 10 {
            PatchDest::DriveWsDepth
        } else if b == 11 {
            PatchDest::Amp
        } else if b == 12 {
            PatchDest::Pan
        } else if b == 13 {
            PatchDest::Lfo1Freq
        } else if b == 14 {
            PatchDest::Lfo2Freq
        } else {
            PatchDest::Pitch
        }
    }

    /// The variant with number `b`, or the first variant when there is none.
    pub fn decode(b: u8) -> (res: Self)
        ensures
            res == Self::decoded(b),
            b < 15 ==> res as u8 == b,
            b >= 15 ==> res == PatchDest::Pitch,
    {
        match Self::from_code(b) {
            Some(v) => v,
            None => PatchDest::Pitch,
        }
    }

    /// Every variant, in order.
    pub fn all() -> (res: Vec<Self>)
        ensures
            res@.len() == 15,
            forall|i: int| 0 <= i < 15 ==> #[trigger] res@[i] as int == i,
    {
        let res = vec![PatchDest::Pitch, PatchDest::Osc2Pitch, PatchDest::Osc1Ctrl1, PatchDest::Osc1Level, PatchDest::Osc2Level, PatchDest::NoiseLevel, PatchDest::Flt1Type, PatchDest::Flt1Cutoff, PatchDest::Flt1Resonance, PatchDest::Flt2Cutoff, PatchDest::DriveWsDepth, PatchDest::Amp, PatchDest::Pan, PatchDest::Lfo1Freq, PatchDest::Lfo2Freq];
        res
    }
}

impl IntoEnumIterator for PatchDest {
    fn iter() -> std::vec::IntoIter<Self> {
        Self::all().into_iter()
    }
}

#[derive(Debug, PartialEq, Eq, Clone, Copy, Structural)]
pub enum FxType {
    NoEffect,
    StCompressor,
    StLimiter,
    StGate,
    StFilter,
    StWah,
    StBandEq,
    Distortion,
    CabinetSim,
    TubePreamp,
    StDecimator,
    Reverb,
    EarlyReflect,
    LcrDelay,
    StDelay,
    AutoPanDelay,
    StAutoPanDelay,
    ModDelay,
    StModDelay,
    TapeEcho,
    StChorus,
    Ensemble,
    StFlanger,
    StPhaser,
    StTremolo,
    StRingMod,
    PitchShifter,
    GrainShifter,
    StVibrato,
    RotarySpeaker,
    TalkingMod,
}

impl Default for FxType {
    fn default() -> (res: Self)
        ensures
            res == FxType::NoEffect,
    {
        FxType::NoEffect
    }
}

impl From<FxType> for u8 {
    fn from(v: FxType) -> (res: u8) {
        v as u8
    }
}

impl vstd::std_specs::convert::FromSpecImpl<FxType> for u8 {
    open spec fn obeys_from_spec() -> bool {
        true
    }

    open spec fn from_spec(v: FxType) -> u8 {
        v as u8
    }
}

impl FxType {
    /// The variant with number `b`, if there is one.
    pub fn from_code(b: u8) -> (res: Option<Self>)
        ensures
            b < 31 <==> res is Some,
            res matches Some(v) ==> v as u8 == b,
    {
        if b == 0 {
            Some(FxType::NoEffect)
        } else if b == 1 {
            Some(FxType::StCompressor)
        } else if b == 2 {
            Some(FxType::StLimiter)
        } else if b == 3 {
            Some(FxType::StGate)
        } else if b == 4 {
            Some(FxType::StFilter)
        } else if b == 5 {
            Some(FxType::StWah)
        } else if b == 6 {
            Some(FxType::StBandEq)
        } else if b == 7 {
            Some(FxType::Distortion)
        } else if b == 8 {
            Some(FxType::CabinetSim)
        } else if b == 9 {
            Some(FxType::TubePreamp)
        } else if b == 10 {
            Some(FxType::StDecimator)
        } else if b == 11 {
            Some(FxType::Reverb)
        } else if b == 12 {
            Some(FxType::EarlyReflect)
        } else if b == 13 {
            Some(FxType::LcrDelay)
        } else if b == 14 {
            Some(FxType::StDelay)
        } else if b == 15 {
            Some(FxType::AutoPanDelay)
        } else if b == 16 {
            Some(FxType::StAutoPanDelay)
        } else if b == 17 {
            Some(FxType::ModDelay)
        } else if b == 18 {
            Some(FxType::StModDelay)
        } else if b == 19 {
            Some(FxType::TapeEcho)
        } else if b == 20 {
            Some(FxType::StChorus)
        } else if b == 21 {
            Some(FxType::Ensemble)
        } else if b == 22 {
            Some(FxType::StFlanger)
        } else if b == 23 {
            Some(FxType::StPhaser)
        } else if b == 24 {
            Some(FxType::StTremolo)
        } else if b == 25 {
            Some(FxType::StRingMod)
        } else if b == 26 {
            Some(FxType::PitchShifter)
        } else if b == 27 {
            Some(FxType::GrainShifter)
        } else if b == 28 {
            Some(FxType::StVibrato)
        } else if b == 29 {
            Some(FxType::RotarySpeaker)
        } else if b == 30 {
            Some(FxType::TalkingMod)
        } else {
            None
        }
    }

    /// The variant with number `b`, or the first variant when there is none.
    pub open spec fn decoded(b: u8) -> Self {
        if b == 0 {
            FxType::NoEffect
        } else if b == 1 {
            FxType::StCompressor
        } else if b == 2 {
            FxType::StLimiter
        } else if b == 3 {
            FxType::StGate
        } else if b == 4 {
            FxType::StFilter
        } else if b == 5 {
            FxType::StWah
        } else if b == 6 {
            FxType::StBandEq
        } else if b == 7 {
            FxType::Distortion
        } else if b == 8 {
            FxType::CabinetSim
        } else if b == 9 {
            FxType::TubePreamp
        } else if b == 10 {
            FxType::StDecimator
        } else if b == 11 {
            FxType::Reverb
        } else if b == 12 {
            FxType::EarlyReflect
        } else if b == 13 {
            FxType::LcrDelay
        } else if b == 14 {
            FxType::StDelay
        } else if b == 15 {
            FxType::AutoPanDelay
        } else if b == 16 {
            FxType::StAutoPanDelay
        } else if b == 17 {
            FxType::ModDelay
        } else if b == 18 {
            FxType::StModDelay
        } else if b == 19 {
            FxType::TapeEcho
        } else if b == 20 {
            FxType::StChorus
        } else if b == 21 {
            FxType::Ensemble
        } else if b == 22 {
            FxType::StFlanger
        } else if b == 23 {
            FxType::StPhaser
        } else if b == 24 {
            FxType::StTremolo
        } else if b == 25 {
            FxType::StRingMod
        } else if b == 26 {
            FxType::PitchShifter
        } else if b == 27 {
            FxType::GrainShifter
        } else if b == 28 {
            FxType::StVibrato
        } else if b == 29 {
            FxType::RotarySpeaker
        } else if b == 30 {
            FxType::TalkingMod
        } else {
            FxType::NoEffect
        }
    }

    /// The variant with number `b`, or the first variant when there is none.
    pub fn decode(b: u8) -> (res: Self)
        ensures
            res == Self::decoded(b),
            b < 31 ==> res as u8 == b,
            b >= 31 ==> res == FxType::NoEffect,
    {
        match Self::from_code(b) {
            Some(v) => v,
            None => FxType::NoEffect,
        }
    }

    /// Every variant, in order.
    pub fn all() -> (res: Vec<Self>)
        ensures
            res@.len() == 31,
            forall|i: int| 0 <= i < 31 ==> #[trigger] res@[i] as int == i,
    {
        let res = vec![FxType::NoEffect, FxType::StCompressor, FxType::StLimiter, FxType::StGate, FxType::StFilter, FxType::StWah, FxType::StBandEq, FxType::Distortion, FxType::CabinetSim, FxType::TubePreamp, FxType::StDecimator, FxType::Reverb, FxType::EarlyReflect, FxType::LcrDelay, FxType::StDelay, FxType::AutoPanDelay, FxType::StAutoPanDelay, FxType::ModDelay, FxType::StModDelay, FxType::TapeEcho, FxType::StChorus, FxType::Ensemble, FxType::StFlanger, FxType::StPhaser, FxType::StTremolo, FxType::StRingMod, FxType::PitchShifter, FxType::GrainShifter, FxType::StVibrato, FxType::RotarySpeaker, FxType::TalkingMod];
        res
    }
}

impl IntoEnumIterator for FxType {
    fn iter() -> std::vec::IntoIter<Self> {
        Self::all().into_iter()
    }
}

#[derive(Debug, PartialEq, Eq, Clone, Copy, Structural)]
pub enum Timbre2MidiCh {
    Ch1,
    Ch2,
    Ch3,
    Ch4,
    Ch5,
    Ch6,
    Ch7,
    Ch8,
    Ch9,
    Ch10,
    Ch11,
    Ch12,
    Ch13,
    Ch14,
    Ch15,
    Ch16,
    Global,
}

impl Default for Timbre2MidiCh {
    fn default() -> (res: Self)
        ensures
            res == Timbre2MidiCh::Ch1,
    {
        Timbre2MidiCh::Ch1
    }
}

impl From<Timbre2MidiCh> for u8 {
    fn from(v: Timbre2MidiCh) -> (res: u8) {
        v as u8
    }
}

impl vstd::std_specs::convert::FromSpecImpl<Timbre2MidiCh> for u8 {
    open spec fn obeys_from_spec() -> bool {
        true
    }

    open spec fn from_spec(v: Timbre2MidiCh) -> u8 {
        v as u8
    }
}

impl Timbre2MidiCh {
    /// The variant with number `b`, if there is one.
    pub fn from_code(b: u8) -> (res: Option<Self>)
        ensures
            b < 17 <==> res is Some,
            res matches Some(v) ==> v as u8 == b,
    {
        if b == 0 {
            Some(Timbre2MidiCh::Ch1)
        } else if b == 1 {
            Some(Timbre2MidiCh::Ch2)
        } else if b == 2 {
            Some(Timbre2MidiCh::Ch3)
        } else if b == 3 {
            Some(Timbre2MidiCh::Ch4)
        } else if b == 4 {
            Some(Timbre2MidiCh::Ch5)
        } else if b == 5 {
            Some(Timbre2MidiCh::Ch6)
        } else if b == 6 {
            Some(Timbre2MidiCh::Ch7)
        } else if b == 7 {
            Some(Timbre2MidiCh::Ch8)
        } else if b == 8 {
            Some(Timbre2MidiCh::Ch9)
        } else if b == 9 {
            Some(Timbre2MidiCh::Ch10)
        } else if b == 10 {
            Some(Timbre2MidiCh::Ch11)
        } else if b == 11 {
            Some(Timbre2MidiCh::Ch12)
        } else if b == 12 {
            Some(Timbre2MidiCh::Ch13)
        } else if b == 13 {
            Some(Timbre2MidiCh::Ch14)
        } else if b == 14 {
            Some(Timbre2MidiCh::Ch15)
        } else if b == 15 {
            Some(Timbre2MidiCh::Ch16)
        } else if b == 16 {
            Some(Timbre2MidiCh::Global)
        } else {
            None
        }
    }

    /// The variant with number `b`, or the first variant when there is none.
    pub open spec fn decoded(b: u8) -> Self {
        if b == 0 {
            Timbre2MidiCh::Ch1
        } else if b == 1 {
            Timbre2MidiCh::Ch2
        } else if b == 2 {
            Timbre2MidiCh::Ch3
        } else if b == 3 {
            Timbre2MidiCh::Ch4
        } else if b == 4 {
            Timbre2MidiCh::Ch5
        } else if b == 5 {
            Timbre2MidiCh::Ch6
        } else if b == 6 {
            Timbre2MidiCh::Ch7
        } else if b == 7 {
            Timbre2MidiCh::Ch8
        } else if b == 8 {
            Timbre2MidiCh::Ch9
        } else if b == 9 {
            Timbre2MidiCh::Ch10
        } else if b == 10 {
            Timbre2MidiCh::Ch11
        } else if b == 11 {
            Timbre2MidiCh::Ch12
        } else if b == 12 {
            Timbre2MidiCh::Ch13
        } else if b == 13 {
            Timbre2MidiCh::Ch14
        } else if b == 14 {
            Timbre2MidiCh::Ch15
        } else if b == 15 {
            Timbre2MidiCh::Ch16
        } else if b == 16 {
            Timbre2MidiCh::Global
        } else {
            Timbre2MidiCh::Ch1
        }
    }

    /// The variant with number `b`, or the first variant when there is none.
    pub fn decode(b: u8) -> (res: Self)
        ensures
            res == Self::decoded(b),
            b < 17 ==> res as u8 == b,
            b >= 17 ==> res == Timbre2MidiCh::Ch1,
    {
        match Self::from_code(b) {
            Some(v) => v,
            None => Timbre2MidiCh::Ch1,
        }
    }

    /// Every variant, in order.
    pub fn all() -> (res: Vec<Self>)
        ensures
            res@.len() == 17,
            forall|i: int| 0 <= i < 17 ==> #[trigger] res@[i] as int == i,
    {
        let res = vec![Timbre2MidiCh::Ch1, Timbre2MidiCh::Ch2, Timbre2MidiCh::Ch3, Timbre2MidiCh::Ch4, Timbre2MidiCh::Ch5, Timbre2MidiCh::Ch6, Timbre2MidiCh::Ch7, Timbre2MidiCh::Ch8, Timbre2MidiCh::Ch9, Timbre2MidiCh::Ch10, Timbre2MidiCh::Ch11, Timbre2MidiCh::Ch12, Timbre2MidiCh::Ch13, Timbre2MidiCh::Ch14, Timbre2MidiCh::Ch15, Timbre2MidiCh::Ch16, Timbre2MidiCh::Global];
        res
    }
}

impl IntoEnumIterator for Timbre2MidiCh {
    fn iter() -> std::vec::IntoIter<Self> {
        Self::all().into_iter()
    }
}

#[derive(Debug, PartialEq, Eq, Clone, Copy, Structural)]
pub enum MidiChannelR3 {
    Ch1,
    Ch2,
    Ch3,
    Ch4,
    Ch5,
    Ch6,
    Ch7,
    Ch8,
    Ch9,
    Ch10,
    Ch11,
    Ch12,
    Ch13,
    Ch14,
    Ch15,
    Ch16,
}

impl Default for MidiChannelR3 {
    fn default() -> (res: Self)
        ensures
            res == MidiChannelR3::Ch1,
    {
        MidiChannelR3::Ch1
    }
}

impl From<MidiChannelR3> for u8 {
    fn from(v: MidiChannelR3) -> (res: u8) {
        v as u8
    }
}

impl vstd::std_specs::convert::FromSpecImpl<MidiChannelR3> for u8 {
    open spec fn obeys_from_spec() -> bool {
        true
    }

    open spec fn from_spec(v: MidiChannelR3) -> u8 {
        v as u8
    }
}

impl MidiChannelR3 {
    /// The variant with number `b`, if there is one.
    pub fn from_code(b: u8) -> (res: Option<Self>)
        ensures
            b < 16 <==> res is Some,
            res matches Some(v) ==> v as u8 == b,
    {
        if b == 0 {
            Some(MidiChannelR3::Ch1)
        } else if b == 1 {
            Some(MidiChannelR3::Ch2)
        } else if b == 2 {
            Some(MidiChannelR3::Ch3)
        } else if b == 3 {
            Some(MidiChannelR3::Ch4)
        } else if b == 4 {
            Some(MidiChannelR3::Ch5)
        } else if b == 5 {
            Some(MidiChannelR3::Ch6)
        } else if b == 6 {
            Some(MidiChannelR3::Ch7)
        } else if b == 7 {
            Some(MidiChannelR3::Ch8)
        } else if b == 8 {
            Some(MidiChannelR3::Ch9)
        } else if b == 9 {
            Some(MidiChannelR3::Ch10)
        } else if b == 10 {
            Some(MidiChannelR3::Ch11)
        } else if b == 11 {
            Some(MidiChannelR3::Ch12)
        } else if b == 12 {
            Some(MidiChannelR3::Ch13)
        } else if b == 13 {
            Some(MidiChannelR3::Ch14)
        } else if b == 14 {
            Some(MidiChannelR3::Ch15)
        } else if b == 15 {
            Some(MidiChannelR3::Ch16)
        } else {
            None
        }
    }

    /// The variant with number `b`, or the first variant when there is none.
    pub open spec fn decoded(b: u8) -> Self {
        if b == 0 {
            MidiChannelR3::Ch1
        } else if b == 1 {
            MidiChannelR3::Ch2
        } else if b == 2 {
            MidiChannelR3::Ch3
        } else if b == 3 {
            MidiChannelR3::Ch4
        } else if b == 4 {
            MidiChannelR3::Ch5
        } else if b == 5 {
            MidiChannelR3::Ch6
        } else if b == 6 {
            MidiChannelR3::Ch7
        } else if b == 7 {
            MidiChannelR3::Ch8
        } else if b == 8 {
            MidiChannelR3::Ch9
        } else if b == 9 {
            MidiChannelR3::Ch10
        } else if b == 10 {
            MidiChannelR3::Ch11
        } else if b == 11 {
            MidiChannelR3::Ch12
        } else if b == 12 {
            MidiChannelR3::Ch13
        } else if b == 13 {
            MidiChannelR3::Ch14
        } else if b == 14 {
            MidiChannelR3::Ch15
        } else if b == 15 {
            MidiChannelR3::Ch16
        } else {
            MidiChannelR3::Ch1
        }
    }

    /// The variant with number `b`, or the first variant when there is none.
    pub fn decode(b: u8) -> (res: Self)
        ensures
            res == Self::decoded(b),
            b < 16 ==> res as u8 == b,
            b >= 16 ==> res == MidiChannelR3::Ch1,
    {
        match Self::from_code(b) {
            Some(v) => v,
            None => MidiChannelR3::Ch1,
        }
    }

    /// Every variant, in order.
    pub fn all() -> (res: Vec<Self>)
        ensures
            res@.len() == 16,
            forall|i: int| 0 <= i < 16 ==> #[trigger] res@[i] as int == i,
    {
        let res = vec![MidiChannelR3::Ch1, MidiChannelR3::Ch2, MidiChannelR3::Ch3, MidiChannelR3::Ch4, MidiChannelR3::Ch5, MidiChannelR3::Ch6, MidiChannelR3::Ch7, MidiChannelR3::Ch8, MidiChannelR3::Ch9, MidiChannelR3::Ch10, MidiChannelR3::Ch11, MidiChannelR3::Ch12, MidiChannelR3::Ch13, MidiChannelR3::Ch14, MidiChannelR3::Ch15, MidiChannelR3::Ch16];
        res
    }
}

impl IntoEnumIterator for MidiChannelR3 {
    fn iter() -> std::vec::IntoIter<Self> {
        Self::all().into_iter()
    }
}

#[derive(Clone, Copy, Debug, Default)]
pub struct Osc1 {
    pub wave: Osc1Wave,
    pub osc_mod: OscMod,
    pub ctrl1: U7,
    pub ctrl2: U7,
    pub dwgs: Dwgs,
}

#[derive(Clone, Copy, Debug, Default)]
pub struct Osc2 {
    pub wave: Osc2Wave,
    pub osc_mod: Osc2Mod,
    pub semitone: Semitone24,
    pub tune: Detune50,
}

#[derive(Clone, Copy, Debug, Default)]
pub struct Mixer {
    pub osc1_level: U7,
    pub osc2_level: U7,
    pub noise_level: U7,
}

#[derive(Clone, Copy, Debug, Default)]
pub struct Filter {
    pub routing: FilterRouting,
    pub filter2_type: Filter2Type,
    pub balance: U7,
    pub cutoff1: U7,
    pub resonance1: U7,
    pub eg1_int1: Centered63,
    pub key_track1: Centered63,
    pub velo_sens1: Centered63,
    pub cutoff2: U7,
    pub resonance2: U7,
    pub eg1_int2: Centered63,
    pub key_track2: Centered63,
    pub velo_sens2: Centered63,
}

#[derive(Clone, Copy, Debug, Default)]
pub struct Amp {
    pub level: U7,
    pub ws_position: WaveShapePosition,
    pub ws_type: WaveShape,
    pub ws_depth: U7,
    pub pan: Pan,
    pub key_track: Centered63,
    pub punch_level: U7,
}

#[derive(Clone, Copy, Debug, Default)]
pub struct Eg {
    pub attack: U7,
    pub decay: U7,
    pub sustain: U7,
    pub release: U7,
    pub level_velo: Centered63,
}

#[derive(Clone, Copy, Debug, Default)]
pub struct Lfo {
    pub wave: u8,
    pub freq: U7,
    pub bpm_sync: bool,
    pub key_sync: LfoKeySync,
    pub sync_note: SyncNote,
}

#[derive(Clone, Copy, Debug, Default)]
pub struct Patch {
    pub src: PatchSource,
    pub dst: PatchDest,
    pub int: Centered63,
}

#[derive(Clone, Copy, Debug, Default)]
pub struct InsertFx {
    pub fx1_type: FxType,
    pub fx1_knob: u8,
    pub fx1_params: [FxParam; 20],
    pub fx2_type: FxType,
    pub fx2_knob: u8,
    pub fx2_params: [FxParam; 20],
    pub eq_low_freq: u8,
    pub eq_low_gain: EqGain30,
    pub eq_hi_freq: u8,
    pub eq_hi_gain: EqGain30,
}

#[derive(Clone, Copy, Debug, Default)]
pub struct MotionSeq {
    pub on: bool,
    pub seq_type: MotionSeqType,
    pub last_step: u8,
    pub key_sync: LfoKeySync,
    pub resolution: MotionSeqResolution,
    pub seq_params: [u8; 18],
}

#[derive(Clone, Copy, Debug)]
pub struct Timbre {
    pub knob_assigns: [KnobAssign; 4],
    pub unison_voice: UnisonVoice,
    pub unison_detune: UnisonDetune,
    pub unison_spread: U7,
    pub voice_assign: VoiceAssign,
    pub analog_tuning: U7,
    pub transpose: Transpose48,
    pub detune: Detune50,
    pub vibrato_int: Centered63,
    pub bend_range: BendRange12,
    pub portamento: U7,
    pub osc1: Osc1,
    pub osc2: Osc2,
    pub mixer: Mixer,
    pub filter: Filter,
    pub amp: Amp,
    pub eg: [Eg; 3],
    pub lfo: [Lfo; 2],
    pub patches: [Patch; 6],
    pub insert_fx: InsertFx,
    pub motion_seq: MotionSeq,
}

/// Whether `t` is the typed reading of the raw timbre `r`: every field
/// decoded from its byte or bits, saturated to its range, an unknown choice
/// read as the first.
pub open spec fn decodes_timbre(t: Timbre, r: RawTimbre) -> bool {
    &&& forall|i: int| 0 <= i < 4 ==> #[trigger] t.knob_assigns[i]@ == clamp_int(r.program.knob_assigns[i] as int, 0, 55)
    &&& t.unison_voice == UnisonVoice::decoded(field_bits(r.program.voice_unison, 0, 0xf))
    &&& t.unison_detune@ == clamp_int(r.program.unison_detune as int, 0, 99)
    &&& t.unison_spread@ == clamp_int(r.program.unison_spread as int, 0, 127)
    &&& t.voice_assign == VoiceAssign::decoded(field_bits(r.program.voice_assign, 6, 0x3))
    &&& t.analog_tuning@ == clamp_int(r.program.analog_tuning as int, 0, 127)
    &&& t.transpose@ == clamp_int(r.program.transpose - 64, -48, 48)
    &&& t.detune@ == clamp_int(r.program.detune - 64, -50, 50)
    &&& t.vibrato_int@ == clamp_int(r.program.vibrato_int - 64, -63, 63)
    &&& t.bend_range@ == clamp_int(r.program.bend_range - 64, -12, 12)
    &&& t.portamento@ == clamp_int(r.program.portamento as int, 0, 127)
    &&& t.osc1.wave == Osc1Wave::decoded(field_bits(r.program.osc1_wave_mod, 0, 0xf))
    &&& t.osc1.osc_mod == OscMod::decoded(field_bits(r.program.osc1_wave_mod, 4, 0x3))
    &&& t.osc1.ctrl1@ == clamp_int(r.program.osc1_ctrl1 as int, 0, 127)
    &&& t.osc1.ctrl2@ == clamp_int(r.program.osc1_ctrl2 as int, 0, 127)
    &&& t.osc1.dwgs@ == clamp_int(r.program.osc1_dwgs as int, 0, 64)
    &&& t.osc2.wave == Osc2Wave::decoded(field_bits(r.program.osc2_wave_mod, 0, 0x3))
    &&& t.osc2.osc_mod == Osc2Mod::decoded(field_bits(r.program.osc2_wave_mod, 4, 0x3))
    &&& t.osc2.semitone@ == clamp_int(r.program.osc2_semitone - 64, -24, 24)
    &&& t.osc2.tune@ == clamp_int(r.program.osc2_tune - 64, -50, 50)
    &&& t.mixer.osc1_level@ == clamp_int(r.program.osc1_level as int, 0, 127)
    &&& t.mixer.osc2_level@ == clamp_int(r.program.osc2_level as int, 0, 127)
    &&& t.mixer.noise_level@ == clamp_int(r.program.noise_level as int, 0, 127)
    &&& t.filter.routing == FilterRouting::decoded(field_bits(r.program.filter_routing_type2, 0, 0x3))
    &&& t.filter.filter2_type == Filter2Type::decoded(field_bits(r.program.filter_routing_type2, 4, 0x3))
    &&& t.filter.balance@ == clamp_int(r.program.filter1_balance as int, 0, 127)
    &&& t.filter.cutoff1@ == clamp_int(r.program.filter1_cutoff as int, 0, 127)
    &&& t.filter.resonance1@ == clamp_int(r.program.filter1_resonance as int, 0, 127)
    &&& t.filter.eg1_int1@ == clamp_int(r.program.filter1_eg1_int - 64, -63, 63)
    &&& t.filter.key_track1@ == clamp_int(r.program.filter1_key_track - 64, -63, 63)
    &&& t.filter.velo_sens1@ == clamp_int(r.program.filter1_velo_sens - 64, -63, 63)
    &&& t.filter.cutoff2@ == clamp_int(r.program.filter2_cutoff as int, 0, 127)
    &&& t.filter.resonance2@ == clamp_int(r.program.filter2_resonance as int, 0, 127)
    &&& t.filter.eg1_int2@ == clamp_int(r.program.filter2_eg1_int - 64, -63, 63)
    &&& t.filter.key_track2@ == clamp_int(r.program.filter2_key_track - 64, -63, 63)
    &&& t.filter.velo_sens2@ == clamp_int(r.program.filter2_velo_sens - 64, -63, 63)
    &&& t.amp.level@ == clamp_int(r.program.amp_level as int, 0, 127)
    &&& t.amp.ws_position == WaveShapePosition::decoded(field_bits(r.program.amp_ws_position, 4, 0x3))
    &&& t.amp.ws_type@ == clamp_int(field_bits(r.program.amp_ws_type, 0, 0xf) as int, 0, 12)
    &&& t.amp.ws_depth@ == clamp_int(r.program.amp_ws_depth as int, 0, 127)
    &&& t.amp.pan@ == clamp_int((if r.program.amp_panpot < 1 { 1 } else { r.program.amp_panpot as int }) - 64, -63, 63)
    &&& t.amp.key_track@ == clamp_int(r.program.amp_key_track - 64, -63, 63)
    &&& t.amp.punch_level@ == clamp_int(r.program.punch_level as int, 0, 127)
    &&& t.eg[0].attack@ == clamp_int(r.program.eg1_attack as int, 0, 127)
    &&& t.eg[0].decay@ == clamp_int(r.program.eg1_decay as int, 0, 127)
    &&& t.eg[0].sustain@ == clamp_int(r.program.eg1_sustain as int, 0, 127)
    &&& t.eg[0].release@ == clamp_int(r.program.eg1_release as int, 0, 127)
    &&& t.eg[0].level_velo@ == clamp_int(r.program.eg1_level_velo - 64, -63, 63)
    &&& t.eg[1].attack@ == clamp_int(r.program.eg2_attack as int, 0, 127)
    &&& t.eg[1].decay@ == clamp_int(r.program.eg2_decay as int, 0, 127)
    &&& t.eg[1].sustain@ == clamp_int(r.program.eg2_sustain as int, 0, 127)
    &&& t.eg[1].release@ == clamp_int(r.program.eg2_release as int, 0, 127)
    &&& t.eg[1].level_velo@ == clamp_int(r.program.eg2_level_velo - 64, -63, 63)
    &&& t.eg[2].attack@ == clamp_int(r.program.eg3_attack as int, 0, 127)
    &&& t.eg[2].decay@ == clamp_int(r.program.eg3_decay as int, 0, 127)
    &&& t.eg[2].sustain@ == clamp_int(r.program.eg3_sustain as int, 0, 127)
    &&& t.eg[2].release@ == clamp_int(r.program.eg3_release as int, 0, 127)
    &&& t.eg[2].level_velo@ == clamp_int(r.program.eg3_level_velo - 64, -63, 63)
    &&& t.lfo[0].wave == field_bits(r.program.lfo1_wave, 0, 0xf)
    &&& t.lfo[0].freq@ == clamp_int(r.program.lfo1_freq as int, 0, 127)
    &&& t.lfo[0].bpm_sync == (field_bits(r.program.lfo1_sync, 7, 1) == 1)
    &&& t.lfo[0].key_sync == LfoKeySync::decoded(field_bits(r.program.lfo1_sync, 5, 0x3))
    &&& t.lfo[0].sync_note@ == clamp_int(field_bits(r.program.lfo1_sync_note, 0, 0x1f) as int, 0, 16)
    &&& t.lfo[1].wave == field_bits(r.program.lfo2_wave, 0, 0xf)
    &&& t.lfo[1].freq@ == clamp_int(r.program.lfo2_freq as int, 0, 127)
    &&& t.lfo[1].bpm_sync == (field_bits(r.program.lfo2_sync, 7, 1) == 1)
    &&& t.lfo[1].key_sync == LfoKeySync::decoded(field_bits(r.program.lfo2_sync, 5, 0x3))
    &&& t.lfo[1].sync_note@ == clamp_int(field_bits(r.program.lfo2_sync_note, 0, 0x1f) as int, 0, 16)
    &&& t.patches[0].src == PatchSource::decoded(r.program.patch1_src)
    &&& t.patches[0].dst == PatchDest::decoded(r.program.patch1_dst)
    &&& t.patches[0].int@ == clamp_int(r.program.patch1_int - 64, -63, 63)
    &&& t.patches[1].src == PatchSource::decoded(r.program.patch2_src)
    &&& t.patches[1].dst == PatchDest::decoded(r.program.patch2_dst)
    &&& t.patches[1].int@ == clamp_int(r.program.patch2_int - 64, -63, 63)
    &&& t.patches[2].src == PatchSource::decoded(r.program.patch3_src)
    &&& t.patches[2].dst == PatchDest::decoded(r.program.patch3_dst)
    &&& t.patches[2].int@ == clamp_int(r.program.patch3_int - 64, -63, 63)
    &&& t.patches[3].src == PatchSource::decoded(r.program.patch4_src)
    &&& t.patches[3].dst == PatchDest::decoded(r.program.patch4_dst)
    &&& t.patches[3].int@ == clamp_int(r.program.patch4_int - 64, -63, 63)
    &&& t.patches[4].src == PatchSource::decoded(r.program.patch5_src)
    &&& t.patches[4].dst == PatchDest::decoded(r.program.patch5_dst)
    &&& t.patches[4].int@ == clamp_int(r.program.patch5_int - 64, -63, 63)
    &&& t.patches[5].src == PatchSource::decoded(r.program.patch6_src)
    &&& t.patches[5].dst == PatchDest::decoded(r.program.patch6_dst)
    &&& t.patches[5].int@ == clamp_int(r.program.patch6_int - 64, -63, 63)
    &&& t.insert_fx.fx1_type == FxType::decoded(field_bits(r.insert_fx.fx1_type, 0, 0x7f))
    &&& t.insert_fx.fx1_knob == r.insert_fx.fx1_knob_assign & 0x1f
    &&& forall|i: int| 0 <= i < 20 ==> #[trigger] t.insert_fx.fx1_params[i]@ == clamp_int(r.insert_fx.fx1_params[i] as int, 0, 127)
    &&& t.insert_fx.fx2_type == FxType::decoded(field_bits(r.insert_fx.fx2_type, 0, 0x7f))
    &&& t.insert_fx.fx2_knob == r.insert_fx.fx2_knob_assign & 0x1f
    &&& forall|i: int| 0 <= i < 20 ==> #[trigger] t.insert_fx.fx2_params[i]@ == clamp_int(r.insert_fx.fx2_params[i] as int, 0, 127)
    &&& t.insert_fx.eq_low_freq == r.insert_fx.eq_low_freq
    &&& t.insert_fx.eq_low_gain@ == clamp_int(r.insert_fx.eq_low_gain - 64, -30, 30)
    &&& t.insert_fx.eq_hi_freq == r.insert_fx.eq_hi_freq
    &&& t.insert_fx.eq_hi_gain@ == clamp_int(r.insert_fx.eq_hi_gain - 64, -30, 30)
    &&& t.motion_seq.on == (field_bits(r.motion_seq.flags, 7, 1) == 1)
    &&& t.motion_seq.seq_type@ == clamp_int(field_bits(r.motion_seq.flags, 4, 0x3) as int, 0, 4)
    &&& t.motion_seq.last_step == field_bits(r.motion_seq.flags, 0, 0xf)
    &&& t.motion_seq.key_sync == LfoKeySync::decoded(field_bits(r.motion_seq.sync_res, 4, 0x3))
    &&& t.motion_seq.resolution@ == clamp_int(field_bits(r.motion_seq.sync_res, 0, 0xf) as int, 0, 15)
    &&& t.motion_seq.seq_params == r.motion_seq.seq_params
}

/// The conversion's own contract, [`decodes_timbre`], states the result;
/// this impl states no result of its own.
impl<'a> vstd::std_specs::convert::FromSpecImpl<&'a RawTimbre> for Timbre {
    open spec fn obeys_from_spec() -> bool {
        false
    }

    closed spec fn from_spec(raw: &'a RawTimbre) -> Self {
        arbitrary()
    }
}

impl<'a> From<&'a RawTimbre> for Timbre {
    fn from(raw: &'a RawTimbre) -> (res: Self)
        ensures
            decodes_timbre(res, *raw),
    {
        Timbre {
            knob_assigns: [KnobAssign::from_wire(raw.program.knob_assigns[0]), KnobAssign::from_wire(raw.program.knob_assigns[1]), KnobAssign::from_wire(raw.program.knob_assigns[2]), KnobAssign::from_wire(raw.program.knob_assigns[3])],
            unison_voice: UnisonVoice::decode(raw.program.unison_voice()),
            unison_detune: UnisonDetune::from_wire(raw.program.unison_detune),
            unison_spread: U7::from_wire(raw.program.unison_spread),
            voice_assign: VoiceAssign::decode(raw.program.voice_assign_val()),
            analog_tuning: U7::from_wire(raw.program.analog_tuning),
            transpose: Transpose48::from_wire(raw.program.transpose),
            detune: Detune50::from_wire(raw.program.detune),
            vibrato_int: Centered63::from_wire(raw.program.vibrato_int),
            bend_range: BendRange12::from_wire(raw.program.bend_range),
            portamento: U7::from_wire(raw.program.portamento),
            osc1: Osc1 {
                wave: Osc1Wave::decode(raw.program.osc1_wave()),
                osc_mod: OscMod::decode(raw.program.osc1_mod()),
                ctrl1: U7::from_wire(raw.program.osc1_ctrl1),
                ctrl2: U7::from_wire(raw.program.osc1_ctrl2),
                dwgs: Dwgs::from_wire(raw.program.osc1_dwgs),
            },
            osc2: Osc2 {
                wave: Osc2Wave::decode(raw.program.osc2_wave()),
                osc_mod: Osc2Mod::decode(raw.program.osc2_mod()),
                semitone: Semitone24::from_wire(raw.program.osc2_semitone),
                tune: Detune50::from_wire(raw.program.osc2_tune),
            },
            mixer: Mixer {
                osc1_level: U7::from_wire(raw.program.osc1_level),
                osc2_level: U7::from_wire(raw.program.osc2_level),
                noise_level: U7::from_wire(raw.program.noise_level),
            },
            filter: Filter {
                routing: FilterRouting::decode(raw.program.filter_routing()),
                filter2_type: Filter2Type::decode(raw.program.filter2_type()),
                balance: U7::from_wire(raw.program.filter1_balance),
                cutoff1: U7::from_wire(raw.program.filter1_cutoff),
                resonance1: U7::from_wire(raw.program.filter1_resonance),
                eg1_int1: Centered63::from_wire(raw.program.filter1_eg1_int),
                key_track1: Centered63::from_wire(raw.program.filter1_key_track),
                velo_sens1: Centered63::from_wire(raw.program.filter1_velo_sens),
                cutoff2: U7::from_wire(raw.program.filter2_cutoff),
                resonance2: U7::from_wire(raw.program.filter2_resonance),
                eg1_int2: Centered63::from_wire(raw.program.filter2_eg1_int),
                key_track2: Centered63::from_wire(raw.program.filter2_key_track),
                velo_sens2: Centered63::from_wire(raw.program.filter2_velo_sens),
            },
            amp: Amp {
                level: U7::from_wire(raw.program.amp_level),
                ws_position: WaveShapePosition::decode(raw.program.ws_position()),
                ws_type: WaveShape::from_wire(raw.program.ws_type()),
                ws_depth: U7::from_wire(raw.program.amp_ws_depth),
                pan: Pan::from_wire(raw.program.amp_panpot),
                key_track: Centered63::from_wire(raw.program.amp_key_track),
                punch_level: U7::from_wire(raw.program.punch_level),
            },
            eg: [
                Eg {
                    attack: U7::from_wire(raw.program.eg1_attack),
                    decay: U7::from_wire(raw.program.eg1_decay),
                    sustain: U7::from_wire(raw.program.eg1_sustain),
                    release: U7::from_wire(raw.program.eg1_release),
                    level_velo: Centered63::from_wire(raw.program.eg1_level_velo),
                },
                Eg {
                    attack: U7::from_wire(raw.program.eg2_attack),
                    decay: U7::from_wire(raw.program.eg2_decay),
                    sustain: U7::from_wire(raw.program.eg2_sustain),
                    release: U7::from_wire(raw.program.eg2_release),
                    level_velo: Centered63::from_wire(raw.program.eg2_level_velo),
                },
                Eg {
                    attack: U7::from_wire(raw.program.eg3_attack),
                    decay: U7::from_wire(raw.program.eg3_decay),
                    sustain: U7::from_wire(raw.program.eg3_sustain),
                    release: U7::from_wire(raw.program.eg3_release),
                    level_velo: Centered63::from_wire(raw.program.eg3_level_velo),
                },
            ],
            lfo: [
                Lfo {
                    wave: raw.program.lfo1_wave_val(),
                    freq: U7::from_wire(raw.program.lfo1_freq),
                    bpm_sync: raw.program.lfo1_bpm_sync(),
                    key_sync: LfoKeySync::decode(raw.program.lfo1_key_sync()),
                    sync_note: SyncNote::from_wire(raw.program.lfo1_sync_note_val()),
                },
                Lfo {
                    wave: raw.program.lfo2_wave_val(),
                    freq: U7::from_wire(raw.program.lfo2_freq),
                    bpm_sync: raw.program.lfo2_bpm_sync(),
                    key_sync: LfoKeySync::decode(raw.program.lfo2_key_sync()),
                    sync_note: SyncNote::from_wire(raw.program.lfo2_sync_note_val()),
                },
            ],
            patches: [
                Patch {
                    src: PatchSource::decode(raw.program.patch1_src),
                    dst: PatchDest::decode(raw.program.patch1_dst),
                    int: Centered63::from_wire(raw.program.patch1_int),
                },
                Patch {
                    src: PatchSource::decode(raw.program.patch2_src),
                    dst: PatchDest::decode(raw.program.patch2_dst),
                    int: Centered63::from_wire(raw.program.patch2_int),
                },
                Patch {
                    src: PatchSource::decode(raw.program.patch3_src),
                    dst: PatchDest::decode(raw.program.patch3_dst),
                    int: Centered63::from_wire(raw.program.patch3_int),
                },
                Patch {
                    src: PatchSource::decode(raw.program.patch4_src),
                    dst: PatchDest::decode(raw.program.patch4_dst),
                    int: Centered63::from_wire(raw.program.patch4_int),
                },
                Patch {
                    src: PatchSource::decode(raw.program.patch5_src),
                    dst: PatchDest::decode(raw.program.patch5_dst),
                    int: Centered63::from_wire(raw.program.patch5_int),
                },
                Patch {
                    src: PatchSource::decode(raw.program.patch6_src),
                    dst: PatchDest::decode(raw.program.patch6_dst),
                    int: Centered63::from_wire(raw.program.patch6_int),
                },
            ],
            insert_fx: InsertFx {
                fx1_type: FxType::decode(raw.insert_fx.fx1_type_val()),
                fx1_knob: raw.insert_fx.fx1_knob_assign & 0x1F,
                fx1_params: [FxParam::from_wire(raw.insert_fx.fx1_params[0]), FxParam::from_wire(raw.insert_fx.fx1_params[1]), FxParam::from_wire(raw.insert_fx.fx1_params[2]), FxParam::from_wire(raw.insert_fx.fx1_params[3]), FxParam::from_wire(raw.insert_fx.fx1_params[4]), FxParam::from_wire(raw.insert_fx.fx1_params[5]), FxParam::from_wire(raw.insert_fx.fx1_params[6]), FxParam::from_wire(raw.insert_fx.fx1_params[7]), FxParam::from_wire(raw.insert_fx.fx1_params[8]), FxParam::from_wire(raw.insert_fx.fx1_params[9]), FxParam::from_wire(raw.insert_fx.fx1_params[10]), FxParam::from_wire(raw.insert_fx.fx1_params[11]), FxParam::from_wire(raw.insert_fx.fx1_params[12]), FxParam::from_wire(raw.insert_fx.fx1_params[13]), FxParam::from_wire(raw.insert_fx.fx1_params[14]), FxParam::from_wire(raw.insert_fx.fx1_params[15]), FxParam::from_wire(raw.insert_fx.fx1_params[16]), FxParam::from_wire(raw.insert_fx.fx1_params[17]), FxParam::from_wire(raw.insert_fx.fx1_params[18]), FxParam::from_wire(raw.insert_fx.fx1_params[19])],
                fx2_type: FxType::decode(raw.insert_fx.fx2_type_val()),
                fx2_knob: raw.insert_fx.fx2_knob_assign & 0x1F,
                fx2_params: [FxParam::from_wire(raw.insert_fx.fx2_params[0]), FxParam::from_wire(raw.insert_fx.fx2_params[1]), FxParam::from_wire(raw.insert_fx.fx2_params[2]), FxParam::from_wire(raw.insert_fx.fx2_params[3]), FxParam::from_wire(raw.insert_fx.fx2_params[4]), FxParam::from_wire(raw.insert_fx.fx2_params[5]), FxParam::from_wire(raw.insert_fx.fx2_params[6]), FxParam::from_wire(raw.insert_fx.fx2_params[7]), FxParam::from_wire(raw.insert_fx.fx2_params[8]), FxParam::from_wire(raw.insert_fx.fx2_params[9]), FxParam::from_wire(raw.insert_fx.fx2_params[10]), FxParam::from_wire(raw.insert_fx.fx2_params[11]), FxParam::from_wire(raw.insert_fx.fx2_params[12]), FxParam::from_wire(raw.insert_fx.fx2_params[13]), FxParam::from_wire(raw.insert_fx.fx2_params[14]), FxParam::from_wire(raw.insert_fx.fx2_params[15]), FxParam::from_wire(raw.insert_fx.fx2_params[16]), FxParam::from_wire(raw.insert_fx.fx2_params[17]), FxParam::from_wire(raw.insert_fx.fx2_params[18]), FxParam::from_wire(raw.insert_fx.fx2_params[19])],
                eq_low_freq: raw.insert_fx.eq_low_freq,
                eq_low_gain: EqGain30::from_wire(raw.insert_fx.eq_low_gain),
                eq_hi_freq: raw.insert_fx.eq_hi_freq,
                eq_hi_gain: EqGain30::from_wire(raw.insert_fx.eq_hi_gain),
            },
            motion_seq: MotionSeq {
                on: raw.motion_seq.seq_on(),
                seq_type: MotionSeqType::from_wire(raw.motion_seq.seq_type()),
                last_step: raw.motion_seq.last_step(),
                key_sync: LfoKeySync::decode(raw.motion_seq.key_sync()),
                resolution: MotionSeqResolution::from_wire(raw.motion_seq.resolution()),
                seq_params: raw.motion_seq.seq_params,
            },
        }
    }
}

/// Whether the raw timbre `a` is `b` with every field of `t` written into
/// its byte or bits; bytes and bits that no field owns keep their value.
#[verifier::opaque]
pub open spec fn encodes_timbre(a: RawTimbre, t: Timbre, b: RawTimbre) -> bool {
    &&& encodes_timbre_program(a.program, t, b.program)
    &&& encodes_insert_fx(a.insert_fx, t, b.insert_fx)
    &&& encodes_motion_seq(a.motion_seq, t, b.motion_seq)
}

/// The program part of [`encodes_timbre`].
pub open spec fn encodes_timbre_program(a: RawTimbreProgram, t: Timbre, b: RawTimbreProgram) -> bool {
    &&& a.voice_unison == with_field_bits(b.voice_unison, 0, 0xf, t.unison_voice as u8)
    &&& a.unison_detune == t.unison_detune@ as u8
    &&& a.unison_spread == t.unison_spread@ as u8
    &&& a.voice_assign == with_field_bits(b.voice_assign, 6, 0x3, t.voice_assign as u8)
    &&& a._dummy8 == b._dummy8
    &&& a.analog_tuning == t.analog_tuning@ as u8
    &&& a.transpose == (t.transpose@ + 64) as u8
    &&& a.detune == (t.detune@ + 64) as u8
    &&& a.vibrato_int == (t.vibrato_int@ + 64) as u8
    &&& a.bend_range == (t.bend_range@ + 64) as u8
    &&& a.portamento == t.portamento@ as u8
    &&& a._dummy15 == b._dummy15
    &&& a.osc1_wave_mod == with_field_bits(with_field_bits(b.osc1_wave_mod, 0, 0xf, t.osc1.wave as u8), 4, 0x3, t.osc1.osc_mod as u8)
    &&& a.osc1_ctrl1 == t.osc1.ctrl1@ as u8
    &&& a.osc1_ctrl2 == t.osc1.ctrl2@ as u8
    &&& a.osc1_dwgs == t.osc1.dwgs@ as u8
    &&& a._dummy20 == b._dummy20
    &&& a.osc2_wave_mod == with_field_bits(with_field_bits(b.osc2_wave_mod, 0, 0x3, t.osc2.wave as u8), 4, 0x3, t.osc2.osc_mod as u8)
    &&& a.osc2_semitone == (t.osc2.semitone@ + 64) as u8
    &&& a.osc2_tune == (t.osc2.tune@ + 64) as u8
    &&& a.osc1_level == t.mixer.osc1_level@ as u8
    &&& a.osc2_level == t.mixer.osc2_level@ as u8
    &&& a.noise_level == t.mixer.noise_level@ as u8
    &&& a._dummy27 == b._dummy27
    &&& a.filter_routing_type2 == with_field_bits(with_field_bits(b.filter_routing_type2, 0, 0x3, t.filter.routing as u8), 4, 0x3, t.filter.filter2_type as u8)
    &&& a.filter1_balance == t.filter.balance@ as u8
    &&& a.filter1_cutoff == t.filter.cutoff1@ as u8
    &&& a.filter1_resonance == t.filter.resonance1@ as u8
    &&& a.filter1_eg1_int == (t.filter.eg1_int1@ + 64) as u8
    &&& a.filter1_key_track == (t.filter.key_track1@ + 64) as u8
    &&& a.filter1_velo_sens == (t.filter.velo_sens1@ + 64) as u8
    &&& a.filter2_cutoff == t.filter.cutoff2@ as u8
    &&& a.filter2_resonance == t.filter.resonance2@ as u8
    &&& a.filter2_eg1_int == (t.filter.eg1_int2@ + 64) as u8
    &&& a.filter2_key_track == (t.filter.key_track2@ + 64) as u8
    &&& a.filter2_velo_sens == (t.filter.velo_sens2@ + 64) as u8
    &&& a.amp_level == t.amp.level@ as u8
    &&& a.amp_ws_position == with_field_bits(b.amp_ws_position, 4, 0x3, t.amp.ws_position as u8)
    &&& a.amp_ws_type == with_field_bits(b.amp_ws_type, 0, 0xf, t.amp.ws_type@ as u8)
    &&& a.amp_ws_depth == t.amp.ws_depth@ as u8
    &&& a.amp_panpot == (t.amp.pan@ + 64) as u8
    &&& a.amp_key_track == (t.amp.key_track@ + 64) as u8
    &&& a.punch_level == t.amp.punch_level@ as u8
    &&& a._dummy47 == b._dummy47
    &&& a.eg1_attack == t.eg[0].attack@ as u8
    &&& a.eg1_decay == t.eg[0].decay@ as u8
    &&& a.eg1_sustain == t.eg[0].sustain@ as u8
    &&& a.eg1_release == t.eg[0].release@ as u8
    &&& a.eg1_level_velo == (t.eg[0].level_velo@ + 64) as u8
    &&& a._dummy53 == b._dummy53
    &&& a.eg2_attack == t.eg[1].attack@ as u8
    &&& a.eg2_decay == t.eg[1].decay@ as u8
    &&& a.eg2_sustain == t.eg[1].sustain@ as u8
    &&& a.eg2_release == t.eg[1].release@ as u8
    &&& a.eg2_level_velo == (t.eg[1].level_velo@ + 64) as u8
    &&& a._dummy59 == b._dummy59
    &&& a.eg3_attack == t.eg[2].attack@ as u8
    &&& a.eg3_decay == t.eg[2].decay@ as u8
    &&& a.eg3_sustain == t.eg[2].sustain@ as u8
    &&& a.eg3_release == t.eg[2].release@ as u8
    &&& a.eg3_level_velo == (t.eg[2].level_velo@ + 64) as u8
    &&& a._dummy65 == b._dummy65
    &&& a.lfo1_wave == with_field_bits(b.lfo1_wave, 0, 0xf, t.lfo[0].wave)
    &&& a.lfo1_freq == t.lfo[0].freq@ as u8
    &&& a.lfo1_sync == with_field_bits(with_field_bits(b.lfo1_sync, 7, 0x1, flag_bit(t.lfo[0].bpm_sync)), 5, 0x3, t.lfo[0].key_sync as u8)
    &&& a.lfo1_sync_note == with_field_bits(b.lfo1_sync_note, 0, 0x1f, t.lfo[0].sync_note@ as u8)
    &&& a.lfo2_wave == with_field_bits(b.lfo2_wave, 0, 0xf, t.lfo[1].wave)
    &&& a.lfo2_freq == t.lfo[1].freq@ as u8
    &&& a.lfo2_sync == with_field_bits(with_field_bits(b.lfo2_sync, 7, 0x1, flag_bit(t.lfo[1].bpm_sync)), 5, 0x3, t.lfo[1].key_sync as u8)
    &&& a.lfo2_sync_note == with_field_bits(b.lfo2_sync_note, 0, 0x1f, t.lfo[1].sync_note@ as u8)
    &&& a.patch1_src == t.patches[0].src as u8
    &&& a.patch1_dst == t.patches[0].dst as u8
    &&& a.patch1_int == (t.patches[0].int@ + 64) as u8
    &&& a.patch2_src == t.patches[1].src as u8
    &&& a.patch2_dst == t.patches[1].dst as u8
    &&& a.patch2_int == (t.patches[1].int@ + 64) as u8
    &&& a.patch3_src == t.patches[2].src as u8
    &&& a.patch3_dst == t.patches[2].dst as u8
    &&& a.patch3_int == (t.patches[2].int@ + 64) as u8
    &&& a.patch4_src == t.patches[3].src as u8
    &&& a.patch4_dst == t.patches[3].dst as u8
    &&& a.patch4_int == (t.patches[3].int@ + 64) as u8
    &&& a.patch5_src == t.patches[4].src as u8
    &&& a.patch5_dst == t.patches[4].dst as u8
    &&& a.patch5_int == (t.patches[4].int@ + 64) as u8
    &&& a.patch6_src == t.patches[5].src as u8
    &&& a.patch6_dst == t.patches[5].dst as u8
    &&& a.patch6_int == (t.patches[5].int@ + 64) as u8
    &&& forall|i: int| 0 <= i < 4 ==> #[trigger] a.knob_assigns[i] == t.knob_assigns[i]@ as u8
}

/// The insert effect part of [`encodes_timbre`].
pub open spec fn encodes_insert_fx(a: RawInsertFx, t: Timbre, b: RawInsertFx) -> bool {
    &&& a.fx1_type == with_field_bits(b.fx1_type, 0, 0x7f, t.insert_fx.fx1_type as u8)
    &&& a._dummy1 == b._dummy1
    &&& a.fx1_knob_assign == t.insert_fx.fx1_knob & 0x1f
    &&& a._dummy3 == b._dummy3
    &&& a.fx2_type == with_field_bits(b.fx2_type, 0, 0x7f, t.insert_fx.fx2_type as u8)
    &&& a._dummy25 == b._dummy25
    &&& a.fx2_knob_assign == t.insert_fx.fx2_knob & 0x1f
    &&& a._dummy27 == b._dummy27
    &&& a.eq_low_freq == t.insert_fx.eq_low_freq
    &&& a.eq_low_gain == (t.insert_fx.eq_low_gain@ + 64) as u8
    &&& a.eq_hi_freq == t.insert_fx.eq_hi_freq
    &&& a.eq_hi_gain == (t.insert_fx.eq_hi_gain@ + 64) as u8
    &&& forall|i: int| 0 <= i < 20 ==> #[trigger] a.fx1_params[i] == t.insert_fx.fx1_params[i]@ as u8
    &&& forall|i: int| 0 <= i < 20 ==> #[trigger] a.fx2_params[i] == t.insert_fx.fx2_params[i]@ as u8
}

/// The motion sequence part of [`encodes_timbre`].
pub open spec fn encodes_motion_seq(a: RawMotionSeq, t: Timbre, b: RawMotionSeq) -> bool {
    &&& a.flags == with_field_bits(with_field_bits(with_field_bits(b.flags, 7, 0x1, flag_bit(t.motion_seq.on)), 4, 0x3, t.motion_seq.seq_type@ as u8), 0, 0xf, t.motion_seq.last_step)
    &&& a.sync_res == with_field_bits(with_field_bits(b.sync_res, 4, 0x3, t.motion_seq.key_sync as u8), 0, 0xf, t.motion_seq.resolution@ as u8)
    &&& a.seq_params == t.motion_seq.seq_params
}

impl Timbre {
    /// Writes every field into the raw timbre, keeping the bytes and bits
    /// that no field owns.
    pub fn apply_to(&self, raw: &mut RawTimbre)
        ensures
            encodes_timbre(*final(raw), *self, *old(raw)),
    {
        self.apply_program_to(&mut raw.program);
        self.apply_insert_fx_to(&mut raw.insert_fx);
        self.apply_motion_seq_to(&mut raw.motion_seq);
        proof {
            reveal(encodes_timbre);
        }
    }

    /// Writes the fields stored in the program part of a timbre.
    #[verifier::spinoff_prover]
    #[verifier::rlimit(100)]
    fn apply_program_to(&self, p: &mut RawTimbreProgram)
        ensures
            encodes_timbre_program(*final(p), *self, *old(p)),
    {
        p.knob_assigns[0] = self.knob_assigns[0].to_wire();
        p.knob_assigns[1] = self.knob_assigns[1].to_wire();
        p.knob_assigns[2] = self.knob_assigns[2].to_wire();
        p.knob_assigns[3] = self.knob_assigns[3].to_wire();
        p.set_unison_voice(self.unison_voice.into());
        p.unison_detune = self.unison_detune.to_wire();
        p.unison_spread = self.unison_spread.to_wire();
        p.set_voice_assign_val(self.voice_assign.into());
        p.analog_tuning = self.analog_tuning.to_wire();
        p.transpose = self.transpose.to_wire();
        p.detune = self.detune.to_wire();
        p.vibrato_int = self.vibrato_int.to_wire();
        p.bend_range = self.bend_range.to_wire();
        p.portamento = self.portamento.to_wire();
        p.set_osc1_wave(self.osc1.wave.into());
        p.set_osc1_mod(self.osc1.osc_mod.into());
        p.osc1_ctrl1 = self.osc1.ctrl1.to_wire();
        p.osc1_ctrl2 = self.osc1.ctrl2.to_wire();
        p.osc1_dwgs = self.osc1.dwgs.to_wire();
        p.set_osc2_wave(self.osc2.wave.into());
        p.set_osc2_mod(self.osc2.osc_mod.into());
        p.osc2_semitone = self.osc2.semitone.to_wire();
        p.osc2_tune = self.osc2.tune.to_wire();
        p.osc1_level = self.mixer.osc1_level.to_wire();
        p.osc2_level = self.mixer.osc2_level.to_wire();
        p.noise_level = self.mixer.noise_level.to_wire();
        p.set_filter_routing(self.filter.routing.into());
        p.set_filter2_type(self.filter.filter2_type.into());
        p.filter1_balance = self.filter.balance.to_wire();
        p.filter1_cutoff = self.filter.cutoff1.to_wire();
        p.filter1_resonance = self.filter.resonance1.to_wire();
        p.filter1_eg1_int = self.filter.eg1_int1.to_wire();
        p.filter1_key_track = self.filter.key_track1.to_wire();
        p.filter1_velo_sens = self.filter.velo_sens1.to_wire();
        p.filter2_cutoff = self.filter.cutoff2.to_wire();
        p.filter2_resonance = self.filter.resonance2.to_wire();
        p.filter2_eg1_int = self.filter.eg1_int2.to_wire();
        p.filter2_key_track = self.filter.key_track2.to_wire();
        p.filter2_velo_sens = self.filter.velo_sens2.to_wire();
        p.amp_level = self.amp.level.to_wire();
        p.set_ws_position(self.amp.ws_position.into());
        p.set_ws_type(self.amp.ws_type.to_wire());
        p.amp_ws_depth = self.amp.ws_depth.to_wire();
        p.amp_panpot = self.amp.pan.to_wire();
        p.amp_key_track = self.amp.key_track.to_wire();
        p.punch_level = self.amp.punch_level.to_wire();
        p.eg1_attack = self.eg[0].attack.to_wire();
        p.eg1_decay = self.eg[0].decay.to_wire();
        p.eg1_sustain = self.eg[0].sustain.to_wire();
        p.eg1_release = self.eg[0].release.to_wire();
        p.eg1_level_velo = self.eg[0].level_velo.to_wire();
        p.eg2_attack = self.eg[1].attack.to_wire();
        p.eg2_decay = self.eg[1].decay.to_wire();
        p.eg2_sustain = self.eg[1].sustain.to_wire();
        p.eg2_release = self.eg[1].release.to_wire();
        p.eg2_level_velo = self.eg[1].level_velo.to_wire();
        p.eg3_attack = self.eg[2].attack.to_wire();
        p.eg3_decay = self.eg[2].decay.to_wire();
        p.eg3_sustain = self.eg[2].sustain.to_wire();
        p.eg3_release = self.eg[2].release.to_wire();
        p.eg3_level_velo = self.eg[2].level_velo.to_wire();
        p.set_lfo1_wave_val(self.lfo[0].wave);
        p.lfo1_freq = self.lfo[0].freq.to_wire();
        p.set_lfo1_bpm_sync(self.lfo[0].bpm_sync);
        p.set_lfo1_key_sync(self.lfo[0].key_sync.into());
        p.set_lfo1_sync_note_val(self.lfo[0].sync_note.to_wire());
        p.set_lfo2_wave_val(self.lfo[1].wave);
        p.lfo2_freq = self.lfo[1].freq.to_wire();
        p.set_lfo2_bpm_sync(self.lfo[1].bpm_sync);
        p.set_lfo2_key_sync(self.lfo[1].key_sync.into());
        p.set_lfo2_sync_note_val(self.lfo[1].sync_note.to_wire());
        p.patch1_src = self.patches[0].src.into();
        p.patch1_dst = self.patches[0].dst.into();
        p.patch1_int = self.patches[0].int.to_wire();
        p.patch2_src = self.patches[1].src.into();
        p.patch2_dst = self.patches[1].dst.into();
        p.patch2_int = self.patches[1].int.to_wire();
        p.patch3_src = self.patches[2].src.into();
        p.patch3_dst = self.patches[2].dst.into();
        p.patch3_int = self.patches[2].int.to_wire();
        p.patch4_src = self.patches[3].src.into();
        p.patch4_dst = self.patches[3].dst.into();
        p.patch4_int = self.patches[3].int.to_wire();
        p.patch5_src = self.patches[4].src.into();
        p.patch5_dst = self.patches[4].dst.into();
        p.patch5_int = self.patches[4].int.to_wire();
        p.patch6_src = self.patches[5].src.into();
        p.patch6_dst = self.patches[5].dst.into();
        p.patch6_int = self.patches[5].int.to_wire();
    }

    /// Writes the insert effect fields.
    #[verifier::spinoff_prover]
    #[verifier::rlimit(60)]
    fn apply_insert_fx_to(&self, fx: &mut RawInsertFx)
        ensures
            encodes_insert_fx(*final(fx), *self, *old(fx)),
    {
        fx.set_fx1_type_val(self.insert_fx.fx1_type.into());
        fx.fx1_knob_assign = self.insert_fx.fx1_knob & 0x1F;
        fx.fx1_params[0] = self.insert_fx.fx1_params[0].to_wire();
        fx.fx1_params[1] = self.insert_fx.fx1_params[1].to_wire();
        fx.fx1_params[2] = self.insert_fx.fx1_params[2].to_wire();
        fx.fx1_params[3] = self.insert_fx.fx1_params[3].to_wire();
        fx.fx1_params[4] = self.insert_fx.fx1_params[4].to_wire();
        fx.fx1_params[5] = self.insert_fx.fx1_params[5].to_wire();
        fx.fx1_params[6] = self.insert_fx.fx1_params[6].to_wire();
        fx.fx1_params[7] = self.insert_fx.fx1_params[7].to_wire();
        fx.fx1_params[8] = self.insert_fx.fx1_params[8].to_wire();
        fx.fx1_params[9] = self.insert_fx.fx1_params[9].to_wire();
        fx.fx1_params[10] = self.insert_fx.fx1_params[10].to_wire();
        fx.fx1_params[11] = self.insert_fx.fx1_params[11].to_wire();
        fx.fx1_params[12] = self.insert_fx.fx1_params[12].to_wire();
        fx.fx1_params[13] = self.insert_fx.fx1_params[13].to_wire();
        fx.fx1_params[14] = self.insert_fx.fx1_params[14].to_wire();
        fx.fx1_params[15] = self.insert_fx.fx1_params[15].to_wire();
        fx.fx1_params[16] = self.insert_fx.fx1_params[16].to_wire();
        fx.fx1_params[17] = self.insert_fx.fx1_params[17].to_wire();
        fx.fx1_params[18] = self.insert_fx.fx1_params[18].to_wire();
        fx.fx1_params[19] = self.insert_fx.fx1_params[19].to_wire();
        fx.set_fx2_type_val(self.insert_fx.fx2_type.into());
        fx.fx2_knob_assign = self.insert_fx.fx2_knob & 0x1F;
        fx.fx2_params[0] = self.insert_fx.fx2_params[0].to_wire();
        fx.fx2_params[1] = self.insert_fx.fx2_params[1].to_wire();
        fx.fx2_params[2] = self.insert_fx.fx2_params[2].to_wire();
        fx.fx2_params[3] = self.insert_fx.fx2_params[3].to_wire();
        fx.fx2_params[4] = self.insert_fx.fx2_params[4].to_wire();
        fx.fx2_params[5] = self.insert_fx.fx2_params[5].to_wire();
        fx.fx2_params[6] = self.insert_fx.fx2_params[6].to_wire();
        fx.fx2_params[7] = self.insert_fx.fx2_params[7].to_wire();
        fx.fx2_params[8] = self.insert_fx.fx2_params[8].to_wire();
        fx.fx2_params[9] = self.insert_fx.fx2_params[9].to_wire();
        fx.fx2_params[10] = self.insert_fx.fx2_params[10].to_wire();
        fx.fx2_params[11] = self.insert_fx.fx2_params[11].to_wire();
        fx.fx2_params[12] = self.insert_fx.fx2_params[12].to_wire();
        fx.fx2_params[13] = self.insert_fx.fx2_params[13].to_wire();
        fx.fx2_params[14] = self.insert_fx.fx2_params[14].to_wire();
        fx.fx2_params[15] = self.insert_fx.fx2_params[15].to_wire();
        fx.fx2_params[16] = self.insert_fx.fx2_params[16].to_wire();
        fx.fx2_params[17] = self.insert_fx.fx2_params[17].to_wire();
        fx.fx2_params[18] = self.insert_fx.fx2_params[18].to_wire();
        fx.fx2_params[19] = self.insert_fx.fx2_params[19].to_wire();
        fx.eq_low_freq = self.insert_fx.eq_low_freq;
        fx.eq_low_gain = self.insert_fx.eq_low_gain.to_wire();
        fx.eq_hi_freq = self.insert_fx.eq_hi_freq;
        fx.eq_hi_gain = self.insert_fx.eq_hi_gain.to_wire();
    }

    /// Writes the motion sequence fields.
    #[verifier::spinoff_prover]
    #[verifier::rlimit(60)]
    fn apply_motion_seq_to(&self, m: &mut RawMotionSeq)
        ensures
            encodes_motion_seq(*final(m), *self, *old(m)),
    {
        m.set_seq_on(self.motion_seq.on);
        m.set_seq_type(self.motion_seq.seq_type.to_wire());
        m.set_last_step(self.motion_seq.last_step);
        m.set_key_sync(self.motion_seq.key_sync.into());
        m.set_resolution(self.motion_seq.resolution.to_wire());
        m.seq_params = self.motion_seq.seq_params;
    }
}

#[derive(Clone, Copy, Debug)]
pub struct Vocoder {
    pub on: bool,
    pub source_formant_rec: bool,
    pub hpf_gate: bool,
    pub formant_trig_reset: bool,
    pub select_timbre2: bool,
    pub gate_sens: U7,
    pub threshold: U7,
    pub hpf_level: U7,
    pub direct_level: U7,
    pub timbre1_level: U7,
    pub input1_level: U7,
    pub vocoder_level: U7,
    pub band_pans: [Pan; 16],
    pub band_levels: [U7; 16],
    pub fc_mod_src: PatchSource,
    pub cutoff_offset: Centered63,
    pub resonance: U7,
    pub fc_mod_int: Centered63,
    pub ef_sens: U7,
}

/// Whether `t` is the typed reading of the raw vocoder `r`.
pub open spec fn decodes_vocoder(t: Vocoder, r: RawVocoder) -> bool {
    &&& t.on == (field_bits(r.sw_flags, 7, 1) == 1)
    &&& t.source_formant_rec == (field_bits(r.sw_flags, 6, 0x1) != 0)
    &&& t.hpf_gate == (field_bits(r.sw_flags, 5, 1) == 1)
    &&& t.formant_trig_reset == (field_bits(r.sw_flags, 4, 0x1) != 0)
    &&& t.select_timbre2 == (field_bits(r.sw_flags, 0, 0x3) != 0)
    &&& t.gate_sens@ == clamp_int(r.gate_sens as int, 0, 127)
    &&& t.threshold@ == clamp_int(r.threshold as int, 0, 127)
    &&& t.hpf_level@ == clamp_int(r.hpf_level as int, 0, 127)
    &&& t.direct_level@ == clamp_int(r.direct_level as int, 0, 127)
    &&& t.timbre1_level@ == clamp_int(r.timbre1_level as int, 0, 127)
    &&& t.input1_level@ == clamp_int(r.input1_level as int, 0, 127)
    &&& t.vocoder_level@ == clamp_int(r.vocoder_level as int, 0, 127)
    &&& forall|i: int| 0 <= i < 16 ==> #[trigger] t.band_pans[i]@ == clamp_int((if r.bands[2 * i + 0] < 1 { 1 } else { r.bands[2 * i + 0] as int }) - 64, -63, 63)
    &&& forall|i: int| 0 <= i < 16 ==> #[trigger] t.band_levels[i]@ == clamp_int(r.bands[2 * i + 1] as int, 0, 127)
    &&& t.fc_mod_src == PatchSource::decoded(field_bits(r.shift_fcmodsrc, 0, 0xf))
    &&& t.cutoff_offset@ == clamp_int(r.cutoff_offset - 64, -63, 63)
    &&& t.resonance@ == clamp_int(r.resonance as int, 0, 127)
    &&& t.fc_mod_int@ == clamp_int(r.fc_mod_int - 64, -63, 63)
    &&& t.ef_sens@ == clamp_int(r.ef_sens as int, 0, 127)
}

/// The conversion's own contract, [`decodes_vocoder`], states the result;
/// this impl states no result of its own.
impl<'a> vstd::std_specs::convert::FromSpecImpl<&'a RawVocoder> for Vocoder {
    open spec fn obeys_from_spec() -> bool {
        false
    }

    closed spec fn from_spec(raw: &'a RawVocoder) -> Self {
        arbitrary()
    }
}

impl<'a> From<&'a RawVocoder> for Vocoder {
    #[verifier::spinoff_prover]
    #[verifier::rlimit(60)]
    fn from(raw: &'a RawVocoder) -> (res: Self)
        ensures
            decodes_vocoder(res, *raw),
    {
        Vocoder {
            on: raw.sw_on(),
            source_formant_rec: raw.source() != 0,
            hpf_gate: raw.hpf_gate(),
            formant_trig_reset: raw.formant_data_play() != 0,
            select_timbre2: raw.select() != 0,
            gate_sens: U7::from_wire(raw.gate_sens),
            threshold: U7::from_wire(raw.threshold),
            hpf_level: U7::from_wire(raw.hpf_level),
            direct_level: U7::from_wire(raw.direct_level),
            timbre1_level: U7::from_wire(raw.timbre1_level),
            input1_level: U7::from_wire(raw.input1_level),
            vocoder_level: U7::from_wire(raw.vocoder_level),
            band_pans: [Pan::from_wire(raw.band_pan(0)), Pan::from_wire(raw.band_pan(1)), Pan::from_wire(raw.band_pan(2)), Pan::from_wire(raw.band_pan(3)), Pan::from_wire(raw.band_pan(4)), Pan::from_wire(raw.band_pan(5)), Pan::from_wire(raw.band_pan(6)), Pan::from_wire(raw.band_pan(7)), Pan::from_wire(raw.band_pan(8)), Pan::from_wire(raw.band_pan(9)), Pan::from_wire(raw.band_pan(10)), Pan::from_wire(raw.band_pan(11)), Pan::from_wire(raw.band_pan(12)), Pan::from_wire(raw.band_pan(13)), Pan::from_wire(raw.band_pan(14)), Pan::from_wire(raw.band_pan(15))],
            band_levels: [U7::from_wire(raw.band_level(0)), U7::from_wire(raw.band_level(1)), U7::from_wire(raw.band_level(2)), U7::from_wire(raw.band_level(3)), U7::from_wire(raw.band_level(4)), U7::from_wire(raw.band_level(5)), U7::from_wire(raw.band_level(6)), U7::from_wire(raw.band_level(7)), U7::from_wire(raw.band_level(8)), U7::from_wire(raw.band_level(9)), U7::from_wire(raw.band_level(10)), U7::from_wire(raw.band_level(11)), U7::from_wire(raw.band_level(12)), U7::from_wire(raw.band_level(13)), U7::from_wire(raw.band_level(14)), U7::from_wire(raw.band_level(15))],
            fc_mod_src: PatchSource::decode(raw.fc_mod_src()),
            cutoff_offset: Centered63::from_wire(raw.cutoff_offset),
            resonance: U7::from_wire(raw.resonance),
            fc_mod_int: Centered63::from_wire(raw.fc_mod_int),
            ef_sens: U7::from_wire(raw.ef_sens),
        }
    }
}

/// Whether the raw vocoder `a` is `b` with every field of `t` written into
/// its byte or bits; bits that no field owns keep their value.
#[verifier::opaque]
pub open spec fn encodes_vocoder(a: RawVocoder, t: Vocoder, b: RawVocoder) -> bool {
    &&& a.sw_flags == with_field_bits(with_field_bits(with_field_bits(with_field_bits(with_field_bits(b.sw_flags, 7, 0x1, flag_bit(t.on)), 6, 0x1, flag_bit(t.source_formant_rec)), 5, 0x1, flag_bit(t.hpf_gate)), 4, 0x1, flag_bit(t.formant_trig_reset)), 0, 0x3, flag_bit(t.select_timbre2))
    &&& a.gate_sens == t.gate_sens@ as u8
    &&& a.threshold == t.threshold@ as u8
    &&& a.hpf_level == t.hpf_level@ as u8
    &&& a.direct_level == t.direct_level@ as u8
    &&& a.timbre1_level == t.timbre1_level@ as u8
    &&& a.input1_level == t.input1_level@ as u8
    &&& a.vocoder_level == t.vocoder_level@ as u8
    &&& a.shift_fcmodsrc == with_field_bits(b.shift_fcmodsrc, 0, 0xf, t.fc_mod_src as u8)
    &&& a.fm_select == b.fm_select
    &&& a.cutoff_offset == (t.cutoff_offset@ + 64) as u8
    &&& a.resonance == t.resonance@ as u8
    &&& a.fc_mod_int == (t.fc_mod_int@ + 64) as u8
    &&& a.ef_sens == t.ef_sens@ as u8
    &&& a.formant_hold == b.formant_hold
    &&& forall|i: int| 0 <= i < 16 ==> #[trigger] a.bands[2 * i] == (t.band_pans[i]@ + 64) as u8 && a.bands[2 * i + 1] == t.band_levels[i]@ as u8
    &&& a.bands@.len() == 32
}

impl Vocoder {
    /// Writes every field into the raw vocoder, keeping the bits that no field
    /// owns.
    #[verifier::spinoff_prover]
    #[verifier::rlimit(60)]
    pub fn apply_to(&self, raw: &mut RawVocoder)
        ensures
            encodes_vocoder(*final(raw), *self, *old(raw)),
    {
        proof {
            reveal(encodes_vocoder);
        }
        raw.set_sw_on(self.on);
        raw.set_source(if self.source_formant_rec { 1 } else { 0 });
        raw.set_hpf_gate(self.hpf_gate);
        raw.set_formant_data_play(if self.formant_trig_reset { 1 } else { 0 });
        raw.set_select(if self.select_timbre2 { 1 } else { 0 });
        raw.gate_sens = self.gate_sens.to_wire();
        raw.threshold = self.threshold.to_wire();
        raw.hpf_level = self.hpf_level.to_wire();
        raw.direct_level = self.direct_level.to_wire();
        raw.timbre1_level = self.timbre1_level.to_wire();
        raw.input1_level = self.input1_level.to_wire();
        raw.vocoder_level = self.vocoder_level.to_wire();
        raw.set_band_pan(0, self.band_pans[0].to_wire());
        raw.set_band_pan(1, self.band_pans[1].to_wire());
        raw.set_band_pan(2, self.band_pans[2].to_wire());
        raw.set_band_pan(3, self.band_pans[3].to_wire());
        raw.set_band_pan(4, self.band_pans[4].to_wire());
        raw.set_band_pan(5, self.band_pans[5].to_wire());
        raw.set_band_pan(6, self.band_pans[6].to_wire());
        raw.set_band_pan(7, self.band_pans[7].to_wire());
        raw.set_band_pan(8, self.band_pans[8].to_wire());
        raw.set_band_pan(9, self.band_pans[9].to_wire());
        raw.set_band_pan(10, self.band_pans[10].to_wire());
        raw.set_band_pan(11, self.band_pans[11].to_wire());
        raw.set_band_pan(12, self.band_pans[12].to_wire());
        raw.set_band_pan(13, self.band_pans[13].to_wire());
        raw.set_band_pan(14, self.band_pans[14].to_wire());
        raw.set_band_pan(15, self.band_pans[15].to_wire());
        raw.set_band_level(0, self.band_levels[0].to_wire());
        raw.set_band_level(1, self.band_levels[1].to_wire());
        raw.set_band_level(2, self.band_levels[2].to_wire());
        raw.set_band_level(3, self.band_levels[3].to_wire());
        raw.set_band_level(4, self.band_levels[4].to_wire());
        raw.set_band_level(5, self.band_levels[5].to_wire());
        raw.set_band_level(6, self.band_levels[6].to_wire());
        raw.set_band_level(7, self.band_levels[7].to_wire());
        raw.set_band_level(8, self.band_levels[8].to_wire());
        raw.set_band_level(9, self.band_levels[9].to_wire());
        raw.set_band_level(10, self.band_levels[10].to_wire());
        raw.set_band_level(11, self.band_levels[11].to_wire());
        raw.set_band_level(12, self.band_levels[12].to_wire());
        raw.set_band_level(13, self.band_levels[13].to_wire());
        raw.set_band_level(14, self.band_levels[14].to_wire());
        raw.set_band_level(15, self.band_levels[15].to_wire());
        raw.shift_fcmodsrc = set_bits(raw.shift_fcmodsrc, 0, 0x0F, self.fc_mod_src.into());
        raw.cutoff_offset = self.cutoff_offset.to_wire();
        raw.resonance = self.resonance.to_wire();
        raw.fc_mod_int = self.fc_mod_int.to_wire();
        raw.ef_sens = self.ef_sens.to_wire();
    }
}

#[derive(Clone, Copy, Debug, Default)]
pub struct MasterFx {
    pub fx_type: FxType,
    pub knob_assign: u8,
    pub params: [FxParam; 20],
}

#[derive(Clone, Copy, Debug, Default)]
pub struct Arpeggio {
    pub on: bool,
    pub key_sync: bool,
    pub resolution: ArpResolution,
    pub arp_type: ArpType,
    pub latch: bool,
    pub octave_range: u8,
    pub last_step: u8,
    pub gate_time: GateTime,
    pub swing: Swing50,
    pub step_switches: u8,
}

/// A program: its name, slot and typed parameters, kept beside the raw
/// record it was read from so that bytes no parameter owns survive a round
/// trip.
#[derive(Clone, Debug)]
pub struct Program {
    pub name: String,
    pub slot: ProgramSlot,
    pub voice_mode: VoiceMode,
    pub arp_timbre: ArpTimbre,
    pub vcd_knob_assigns: [KnobAssign; 4],
    pub timbre2_midi_ch: Timbre2MidiCh,
    pub center_key: u8,
    pub octave_sw: i8,
    pub category: Category,
    pub timbre1: Timbre,
    pub timbre2: Timbre,
    pub vocoder: Vocoder,
    pub master_fx: MasterFx,
    pub tempo: Tempo,
    pub arp: Arpeggio,
    /// The raw record the program was read from.
    pub backing: Box<RawProgram>,
}

/// `String::push` of std: appends one character.
#[verifier::external_body]
pub(crate) fn push_char(s: &mut String, c: char)
    ensures
        final(s)@ == old(s)@.push(c),
{
    s.push(c);
}

/// The text of a stored name: its bytes up to the first zero, each read as
/// the character with the same code.
pub open spec fn name_text(bytes: Seq<u8>) -> Seq<char>
    decreases bytes.len(),
{
    if bytes.len() == 0 || bytes[0] == 0 {
        Seq::empty()
    } else {
        seq![bytes[0] as char] + name_text(bytes.drop_first())
    }
}

/// The eight stored bytes of a name: the first eight bytes of its UTF-8
/// encoding, padded with zeros.
pub open spec fn name_bytes(text: Seq<char>) -> Seq<u8> {
    let b = encode_utf8(text);
    Seq::new(8, |i: int| if i < b.len() { b[i] } else { 0u8 })
}

fn text_of_name(name: &[u8; 8]) -> (res: String)
    ensures
        res@ == name_text(name@),
{
    let mut s = String::new();
    let mut i: usize = 0;
    assert(name@.skip(0) =~= name@);
    assert(s@ + name_text(name@) =~= name_text(name@));
    while i < 8 && name[i] != 0
        invariant
            i <= 8,
            name@.len() == 8,
            forall|j: int| 0 <= j < i ==> name@[j] != 0,
            name_text(name@) == s@ + name_text(name@.skip(i as int)),
        decreases 8 - i,
    {
        let c = name[i] as char;
        proof {
            let rest = name@.skip(i as int);
            assert(rest.drop_first() =~= name@.skip(i + 1));
            assert(name_text(rest) == seq![c] + name_text(rest.drop_first()));
            assert(s@.push(c) + name_text(name@.skip(i + 1)) =~= s@ + (seq![c] + name_text(
                name@.skip(i + 1),
            )));
        }
        push_char(&mut s, c);
        i = i + 1;
    }
    proof {
        let rest = name@.skip(i as int);
        assert(name_text(rest) =~= Seq::<char>::empty());
        assert(s@ + Seq::<char>::empty() =~= s@);
    }
    s
}

/// The stored bytes of a name.
pub fn str_to_8(s: &str) -> (res: [u8; 8])
    ensures
        res@ == name_bytes(s@),
{
    let bytes = s.as_bytes();
    let len = if bytes.len() < 8 {
        bytes.len()
    } else {
        8
    };
    let mut buf = [0u8; 8];
    let mut i: usize = 0;
    while i < len
        invariant
            i <= len <= 8,
            len <= bytes@.len(),
            bytes@ == encode_utf8(s@),
            len == (if bytes@.len() < 8 { bytes@.len() } else { 8 }),
            forall|j: int| 0 <= j < i ==> buf@[j] == bytes@[j],
            forall|j: int| i <= j < 8 ==> buf@[j] == 0,
        decreases len - i,
    {
        buf[i] = bytes[i];
        i = i + 1;
    }
    assert(buf@ =~= name_bytes(s@));
    buf
}

/// Whether `p` is the typed reading of the raw program `r`; the slot is
/// the first, and the raw record is kept.
pub open spec fn decodes_program(p: Program, r: RawProgram) -> bool {
    &&& p.name@ == name_text(r.name@)
    &&& p.slot@ == 0
    &&& p.voice_mode == VoiceMode::decoded(field_bits(r.voice_arp, 6, 3))
    &&& p.arp_timbre == ArpTimbre::decoded(field_bits(r.voice_arp, 4, 3))
    &&& forall|i: int| 0 <= i < 4 ==> #[trigger] p.vcd_knob_assigns[i]@ == clamp_int(r.vcd_knob_assigns[i] as int, 0, 55)
    &&& p.timbre2_midi_ch == Timbre2MidiCh::decoded(if r.timbre2_midi_ch < 16 { r.timbre2_midi_ch } else { 16 })
    &&& p.center_key == r.center_key
    &&& p.octave_sw == octave_sw_of(r)
    &&& p.category@ == clamp_int(field_bits(r.octave_category, 0, 0x0F) as int, 0, 15)
    &&& decodes_timbre(p.timbre1, r.timbre1)
    &&& decodes_timbre(p.timbre2, r.timbre2)
    &&& decodes_vocoder(p.vocoder, r.vocoder)
    &&& p.master_fx.fx_type == FxType::decoded(field_bits(r.master_fx.fx_type, 0, 0x7F))
    &&& p.master_fx.knob_assign == r.master_fx.knob_assign & 0x1F
    &&& forall|i: int| 0 <= i < 20 ==> #[trigger] p.master_fx.params[i]@ == clamp_int(r.master_fx.params[i] as int, 0, 127)
    &&& p.tempo@ == clamp_int(if tempo_of(r) == 0 { 120 } else { tempo_of(r) as int }, 20, 300)
    &&& p.arp.on == (field_bits(r.arp_flags, 7, 1) == 1)
    &&& p.arp.key_sync == (field_bits(r.arp_flags, 6, 1) == 1)
    &&& p.arp.resolution@ == clamp_int(field_bits(r.arpeggio.res_type, 4, 0x0F) as int, 0, 8)
    &&& p.arp.arp_type == ArpType::decoded(field_bits(r.arpeggio.res_type, 0, 7))
    &&& p.arp.latch == (field_bits(r.arpeggio.latch_oct_last, 7, 1) == 1)
    &&& p.arp.octave_range == field_bits(r.arpeggio.latch_oct_last, 5, 3)
    &&& p.arp.last_step == field_bits(r.arpeggio.latch_oct_last, 0, 0x1F)
    &&& p.arp.gate_time@ == clamp_int(r.arpeggio.gate_time as int, 0, 100)
    &&& p.arp.swing@ == clamp_int(r.arpeggio.swing - 64, -50, 50)
    &&& p.arp.step_switches == r.arpeggio.step_switches
    &&& p.backing() == r
}

/// The stored arpeggiator byte of latch, octave range and last step.
pub open spec fn latch_oct_last_of(a: Arpeggio) -> u8 {
    ((a.last_step & 0x1F) | (if a.latch { 0x80u8 } else { 0u8 })) | ((a.octave_range & 0x03) << 5)
}

/// Whether the raw program `a` is `b` with every parameter of `p` written
/// into its byte or bits; bytes and bits that no parameter owns keep their
/// value. An octave switch above 119 is written as 119.
pub open spec fn encodes_program(a: RawProgram, p: Program, b: RawProgram) -> bool {
    &&& a.name@ == name_bytes(p.name@)
    &&& a.voice_arp == with_field_bits(with_field_bits(b.voice_arp, 6, 3, p.voice_mode as u8), 4, 3, p.arp_timbre as u8)
    &&& forall|i: int| 0 <= i < 4 ==> #[trigger] a.vcd_knob_assigns[i] == p.vcd_knob_assigns[i]@ as u8
    &&& a.timbre2_midi_ch == p.timbre2_midi_ch as u8
    &&& a.center_key == p.center_key
    &&& a.octave_category == with_field_bits(
        with_octave_sw(b, if p.octave_sw <= 119 { p.octave_sw } else { 119 }).octave_category,
        0,
        0x0F,
        p.category@ as u8,
    )
    &&& encodes_timbre(a.timbre1, p.timbre1, b.timbre1)
    &&& encodes_timbre(a.timbre2, p.timbre2, b.timbre2)
    &&& encodes_vocoder(a.vocoder, p.vocoder, b.vocoder)
    &&& a.master_fx.fx_type == with_field_bits(b.master_fx.fx_type, 0, 0x7F, p.master_fx.fx_type as u8)
    &&& a.master_fx.knob_assign == p.master_fx.knob_assign & 0x1F
    &&& forall|i: int| 0 <= i < 20 ==> #[trigger] a.master_fx.params[i] == p.master_fx.params[i]@ as u8
    &&& a.tempo == with_tempo(b, p.tempo@ as u16).tempo
    &&& a.arp_flags == with_field_bits(with_field_bits(b.arp_flags, 7, 1, flag_bit(p.arp.on)), 6, 1, flag_bit(p.arp.key_sync))
    &&& a._dummy_447 == b._dummy_447
    &&& a.arpeggio.res_type == with_field_bits(with_field_bits(b.arpeggio.res_type, 4, 0x0F, p.arp.resolution@ as u8), 0, 7, p.arp.arp_type as u8)
    &&& a.arpeggio.latch_oct_last == latch_oct_last_of(p.arp)
    &&& a.arpeggio.gate_time == p.arp.gate_time@ as u8
    &&& a.arpeggio.swing == (p.arp.swing@ + 64) as u8
    &&& a.arpeggio.step_switches == p.arp.step_switches
    &&& a.arpeggio._dummy == b.arpeggio._dummy
}

impl Program {
    /// The raw record the program was read from.
    pub open spec fn backing(&self) -> RawProgram {
        *self.backing
    }

    /// The typed reading of a raw program, in the first slot.
    #[verifier::spinoff_prover]
    #[verifier::rlimit(60)]
    pub fn from_raw(raw: RawProgram) -> (res: Self)
        ensures
            decodes_program(res, raw),
    {
        let name = text_of_name(&raw.name);
        let mfx = &raw.master_fx;
        let arp = &raw.arpeggio;
        let t2: u8 = if raw.timbre2_midi_ch < 16 {
            raw.timbre2_midi_ch
        } else {
            16
        };
        Program {
            name,
            slot: ProgramSlot::new(0),
            voice_mode: VoiceMode::decode(raw.voice_mode()),
            arp_timbre: ArpTimbre::decode(raw.arp_timb_select()),
            vcd_knob_assigns: [
                KnobAssign::from_wire(raw.vcd_knob_assigns[0]),
                KnobAssign::from_wire(raw.vcd_knob_assigns[1]),
                KnobAssign::from_wire(raw.vcd_knob_assigns[2]),
                KnobAssign::from_wire(raw.vcd_knob_assigns[3]),
            ],
            timbre2_midi_ch: Timbre2MidiCh::decode(t2),
            center_key: raw.center_key,
            octave_sw: raw.octave_sw(),
            category: Category::from_wire(raw.category()),
            timbre1: Timbre::from(&raw.timbre1),
            timbre2: Timbre::from(&raw.timbre2),
            vocoder: Vocoder::from(&raw.vocoder),
            master_fx: MasterFx {
                fx_type: FxType::decode(mfx.fx_type_val()),
                knob_assign: mfx.knob_assign & 0x1F,
                params: [
                    FxParam::from_wire(mfx.params[0]),
                    FxParam::from_wire(mfx.params[1]),
                    FxParam::from_wire(mfx.params[2]),
                    FxParam::from_wire(mfx.params[3]),
                    FxParam::from_wire(mfx.params[4]),
                    FxParam::from_wire(mfx.params[5]),
                    FxParam::from_wire(mfx.params[6]),
                    FxParam::from_wire(mfx.params[7]),
                    FxParam::from_wire(mfx.params[8]),
                    FxParam::from_wire(mfx.params[9]),
                    FxParam::from_wire(mfx.params[10]),
                    FxParam::from_wire(mfx.params[11]),
                    FxParam::from_wire(mfx.params[12]),
                    FxParam::from_wire(mfx.params[13]),
                    FxParam::from_wire(mfx.params[14]),
                    FxParam::from_wire(mfx.params[15]),
                    FxParam::from_wire(mfx.params[16]),
                    FxParam::from_wire(mfx.params[17]),
                    FxParam::from_wire(mfx.params[18]),
                    FxParam::from_wire(mfx.params[19]),
                ],
            },
            tempo: Tempo::from_wire(raw.tempo_raw()),
            arp: Arpeggio {
                on: raw.arp_on(),
                key_sync: raw.arp_key_sync(),
                resolution: ArpResolution::from_wire(arp.resolution()),
                arp_type: ArpType::decode(arp.arp_type()),
                latch: arp.latch(),
                octave_range: arp.octave_range(),
                last_step: arp.last_step(),
                gate_time: GateTime::from_wire(arp.gate_time),
                swing: Swing50::from_wire(arp.swing),
                step_switches: arp.step_switches,
            },
            backing: Box::new(raw),
        }
    }

    /// Writes every parameter into the raw record the program was read from;
    /// bytes and bits that no parameter owns keep their value. An octave
    /// switch above 119 is written as 119.
    #[verifier::spinoff_prover]
    #[verifier::rlimit(100)]
    pub fn to_raw(&self) -> (res: RawProgram)
        ensures
            encodes_program(res, *self, self.backing()),
    {
        let mut raw = *self.backing;
        raw.name = str_to_8(self.name.as_str());
        raw.set_voice_mode(self.voice_mode.into());
        raw.set_arp_timb_select(self.arp_timbre.into());
        raw.vcd_knob_assigns[0] = self.vcd_knob_assigns[0].to_wire();
        raw.vcd_knob_assigns[1] = self.vcd_knob_assigns[1].to_wire();
        raw.vcd_knob_assigns[2] = self.vcd_knob_assigns[2].to_wire();
        raw.vcd_knob_assigns[3] = self.vcd_knob_assigns[3].to_wire();
        raw.timbre2_midi_ch = self.timbre2_midi_ch.into();
        raw.center_key = self.center_key;
        let octave: i8 = if self.octave_sw <= 119 {
            self.octave_sw
        } else {
            119
        };
        raw.set_octave_sw(octave);
        raw.set_category(self.category.to_wire());
        self.timbre1.apply_to(&mut raw.timbre1);
        self.timbre2.apply_to(&mut raw.timbre2);
        self.vocoder.apply_to(&mut raw.vocoder);
        raw.master_fx.set_fx_type_val(self.master_fx.fx_type.into());
        raw.master_fx.knob_assign = self.master_fx.knob_assign & 0x1F;
        raw.master_fx.params[0] = self.master_fx.params[0].to_wire();
        raw.master_fx.params[1] = self.master_fx.params[1].to_wire();
        raw.master_fx.params[2] = self.master_fx.params[2].to_wire();
        raw.master_fx.params[3] = self.master_fx.params[3].to_wire();
        raw.master_fx.params[4] = self.master_fx.params[4].to_wire();
        raw.master_fx.params[5] = self.master_fx.params[5].to_wire();
        raw.master_fx.params[6] = self.master_fx.params[6].to_wire();
        raw.master_fx.params[7] = self.master_fx.params[7].to_wire();
        raw.master_fx.params[8] = self.master_fx.params[8].to_wire();
        raw.master_fx.params[9] = self.master_fx.params[9].to_wire();
        raw.master_fx.params[10] = self.master_fx.params[10].to_wire();
        raw.master_fx.params[11] = self.master_fx.params[11].to_wire();
        raw.master_fx.params[12] = self.master_fx.params[12].to_wire();
        raw.master_fx.params[13] = self.master_fx.params[13].to_wire();
        raw.master_fx.params[14] = self.master_fx.params[14].to_wire();
        raw.master_fx.params[15] = self.master_fx.params[15].to_wire();
        raw.master_fx.params[16] = self.master_fx.params[16].to_wire();
        raw.master_fx.params[17] = self.master_fx.params[17].to_wire();
        raw.master_fx.params[18] = self.master_fx.params[18].to_wire();
        raw.master_fx.params[19] = self.master_fx.params[19].to_wire();
        raw.set_tempo_raw(self.tempo.to_wire());
        raw.set_arp_on(self.arp.on);
        raw.arpeggio.set_resolution(self.arp.resolution.to_wire());
        raw.arpeggio.set_arp_type(self.arp.arp_type.into());
        raw.arpeggio.gate_time = self.arp.gate_time.to_wire();
        raw.arpeggio.swing = self.arp.swing.to_wire();
        raw.arpeggio.step_switches = self.arp.step_switches;
        let latch_bit: u8 = if self.arp.latch {
            0x80
        } else {
            0
        };
        let lol = ((self.arp.last_step & 0x1F) | latch_bit) | ((self.arp.octave_range & 0x03) << 5);
        raw.arpeggio.latch_oct_last = lol;
        raw.arp_flags = set_bits(raw.arp_flags, 6, 1, if self.arp.key_sync { 1 } else { 0 });
        raw
    }

    /// A new program: "New Prog" on middle C, neutral timbres and vocoder, a
    /// tempo of 120, in the first slot.
    pub fn blank() -> (res: Self)
        ensures
            is_blank_raw_program(res.backing()),
            decodes_program(res, res.backing()),
    {
        Program::from_raw(default_raw_program())
    }
}

/// Whether `r` is the raw record of a new program: "New Prog" on middle C,
/// neutral timbres and vocoder, a tempo of 120, every other byte zero.
pub open spec fn is_blank_raw_program(r: RawProgram) -> bool {
    &&& r.name@ == name_bytes("New Program"@)
    &&& r.voice_arp == 0
    &&& r.vcd_knob_assigns@ == Seq::new(4, |i: int| 0u8)
    &&& r.timbre2_midi_ch == 0
    &&& r.center_key == 60
    &&& r.octave_category == 0
    &&& is_neutral_timbre_program(r.timbre1.program)
    &&& r.timbre1.insert_fx.bytes() == Seq::new(52, |i: int| 0u8)
    &&& r.timbre1.motion_seq.bytes() == Seq::new(20, |i: int| 0u8)
    &&& is_neutral_timbre_program(r.timbre2.program)
    &&& r.timbre2.insert_fx.bytes() == Seq::new(52, |i: int| 0u8)
    &&& r.timbre2.motion_seq.bytes() == Seq::new(20, |i: int| 0u8)
    &&& is_neutral_vocoder(r.vocoder)
    &&& r.master_fx.bytes() == Seq::new(22, |i: int| 0u8)
    &&& r.tempo@ == seq![120u8, 0u8]
    &&& r.arp_flags == 0
    &&& r._dummy_447 == 0
    &&& r.arpeggio.bytes() == Seq::new(8, |i: int| 0u8)
}

/// The raw record of a new program.
fn default_raw_program() -> (res: RawProgram)
    ensures
        is_blank_raw_program(res),
{
    let mut raw = RawProgram::zeroed();
    raw.name = str_to_8("New Program");
    raw.center_key = 60;
    raw.timbre1 = RawTimbre::default();
    raw.timbre2 = RawTimbre::default();
    raw.vocoder = RawVocoder::default();
    raw.set_tempo_raw(120);
    proof {
        let t = raw.tempo;
        assert((120u16 & 0x7F) as u8 == 120u8 && ((120u16 >> 7u16) & 0x7F) as u8 == 0u8) by (bit_vector);
        assert(raw.tempo@ =~= seq![120u8, 0u8]);
    }
    raw
}

impl Default for Program {
    fn default() -> (res: Self)
        ensures
            is_blank_raw_program(res.backing()),
            decodes_program(res, res.backing()),
    {
        Self::blank()
    }
}

/// The conversion goes through [`Program::from_raw`], whose contract states
/// the result. This spec impl opts out of the std contract;
/// the conversion's own `ensures` states the result.
impl vstd::std_specs::convert::TryFromSpecImpl<RawProgram> for Program {
    open spec fn obeys_try_from_spec() -> bool {
        false
    }

    closed spec fn try_from_spec(raw: RawProgram) -> Result<Self, String> {
        arbitrary()
    }
}

impl TryFrom<RawProgram> for Program {
    type Error = String;

    fn try_from(raw: RawProgram) -> (res: Result<Self, String>)
        ensures
            res matches Ok(p) && decodes_program(p, raw),
    {
        Ok(Program::from_raw(raw))
    }
}

/// The conversion goes through [`Program::to_raw`], whose contract states
/// the result; this impl states no result of its own.
impl<'a> vstd::std_specs::convert::FromSpecImpl<&'a Program> for RawProgram {
    open spec fn obeys_from_spec() -> bool {
        false
    }

    closed spec fn from_spec(prog: &'a Program) -> Self {
        arbitrary()
    }
}

impl<'a> From<&'a Program> for RawProgram {
    fn from(prog: &'a Program) -> (res: Self)
        ensures
            encodes_program(res, *prog, prog.backing()),
    {
        prog.to_raw()
    }
}

/// Whether a character is alphabetic or numeric in Unicode's sense.
pub uninterp spec fn alphanumeric(c: char) -> bool;

/// `char::is_alphanumeric` of std: whether `c` is alphabetic or numeric in
/// Unicode's sense. The Unicode property tables are not restated here; the
/// result is named [`alphanumeric`]. Among ASCII characters the Alphabetic
/// ones are the letters and the Numeric ones the digits, which the second
/// clause states.
#[verifier::external_body]
fn is_alphanumeric(c: char) -> (res: bool)
    ensures
        res == alphanumeric(c),
        c <= '\u{7f}' ==> (res <==> ('a' <= c <= 'z' || 'A' <= c <= 'Z' || '0' <= c <= '9')),
{
    c.is_alphanumeric()
}

/// A name with every character that is not alphanumeric, '_' or '-'
/// replaced by '_'.
pub open spec fn safe_name(text: Seq<char>) -> Seq<char> {
    Seq::new(
        text.len(),
        |i: int|
            if alphanumeric(text[i]) || text[i] == '_' || text[i] == '-' {
                text[i]
            } else {
                '_'
            },
    )
}

/// The file name under which a program is saved:
/// "korg_r3-NAME-BANKPOSITION.program".
pub open spec fn program_filename(name: Seq<char>, slot: int) -> Seq<char> {
    "korg_r3-"@ + safe_name(name) + "-"@ + seq![(65 + slot / 8) as char] + decimal((slot % 8 + 1) as nat)
        + ".program"@
}

impl Program {
    /// The file name under which the program is saved, such as
    /// "korg_r3-MySynth-A4.program".
    pub fn default_filename(&self) -> (res: String)
        ensures
            res@ == program_filename(self.name@, self.slot@),
    {
        let name = self.name.as_str();
        let n = name.unicode_len();
        let mut safe = String::new();
        let mut i: usize = 0;
        while i < n
            invariant
                i <= n,
                n == name@.len(),
                name@ == self.name@,
                safe@ == safe_name(self.name@).take(i as int),
            decreases n - i,
        {
            let c = name.get_char(i);
            let keep = is_alphanumeric(c) || c == '_' || c == '-';
            push_char(
                &mut safe,
                if keep {
                    c
                } else {
                    '_'
                },
            );
            assert(safe@ =~= safe_name(self.name@).take(i + 1));
            i = i + 1;
        }
        let mut s = String::new();
        s.append("korg_r3-");
        s.append(safe.as_str());
        s.append("-");
        push_char(&mut s, self.slot.bank());
        push_decimal(&mut s, self.slot.position() as usize);
        s.append(".program");
        assert(safe_name(self.name@).take(n as int) =~= safe_name(self.name@));
        assert(s@ =~= program_filename(self.name@, self.slot@));
        s
    }

    /// Writes every parameter into the raw record and returns its bytes.
    pub fn as_bytes(&self) -> (res: Vec<u8>)
        ensures
            exists|r: RawProgram| encodes_program(r, *self, self.backing()) && res@ == r.bytes(),
    {
        let raw = self.to_raw();
        raw.as_bytes()
    }
}

/// The global settings.
#[derive(Clone, Debug)]
pub struct Global {
    pub master_tune: MasterTune,
    pub transpose: GlobalTranspose12,
    pub velocity_curve: VelCurve,
    pub midi_channel: MidiChannelR3,
    pub midi_ctrl: [MidiCtrlNo; 3],
    pub memory_protect: bool,
    pub local_ctrl: bool,
    pub cc_map: Vec<(u8, u8)>,
    /// The raw record the settings were read from.
    pub backing: Box<RawGlobal>,
}

/// The mapped controllers of one part of the map: the entries among the
/// first `n` that are not zero, as (controller, destination), the
/// controller counted from `base`.
pub open spec fn cc_entries(map: Seq<u8>, base: int, n: nat) -> Seq<(u8, u8)>
    decreases n,
{
    if n == 0 {
        Seq::empty()
    } else {
        let prev = cc_entries(map, base, (n - 1) as nat);
        if map[n - 1] != 0 {
            prev.push(((base + n - 1) as u8, map[n - 1]))
        } else {
            prev
        }
    }
}

/// The mapped controllers of a raw global record, lowest controller first.
pub open spec fn cc_map_of(r: RawGlobal) -> Seq<(u8, u8)> {
    cc_entries(r.cc_map_lo@, 0, 32) + cc_entries(r.cc_map_mid@, 32, 32) + cc_entries(r.cc_map_hi@, 64, 3)
}

/// The three parts of the controller map after writing `entries` in order;
/// controllers past 66 are ignored.
pub open spec fn cc_written(
    lo: Seq<u8>,
    mid: Seq<u8>,
    hi: Seq<u8>,
    entries: Seq<(u8, u8)>,
) -> (Seq<u8>, Seq<u8>, Seq<u8>)
    decreases entries.len(),
{
    if entries.len() == 0 {
        (lo, mid, hi)
    } else {
        let (l, m, h) = cc_written(lo, mid, hi, entries.drop_last());
        let (cc, dest) = entries.last();
        if cc <= 31 {
            (l.update(cc as int, dest), m, h)
        } else if cc <= 63 {
            (l, m.update(cc - 32, dest), h)
        } else if cc <= 66 {
            (l, m, h.update(cc - 64, dest))
        } else {
            (l, m, h)
        }
    }
}

/// Whether `g` is the typed reading of the raw global record `r`; the raw
/// record is kept.
pub open spec fn decodes_global(g: Global, r: RawGlobal) -> bool {
    &&& g.master_tune@ == clamp_int(signed_byte(r.master_tune), -100, 100)
    &&& g.transpose@ == clamp_int(signed_byte(r.transpose), -12, 12)
    &&& g.velocity_curve == VelCurve::decoded(r.vel_curve & 0x0F)
    &&& g.midi_channel == MidiChannelR3::decoded(r.midi_channel & 0x0F)
    &&& forall|i: int| 0 <= i < 3 ==> #[trigger] g.midi_ctrl[i]@ == clamp_int(r.midi_ctrl[i] as int, 0, 115)
    &&& g.memory_protect == (r.flags_2 & 0x80 != 0)
    &&& g.local_ctrl == (r.flags_5 & 0x80 != 0)
    &&& g.cc_map@ == cc_map_of(r)
    &&& g.backing() == r
}

/// Whether the raw global record `a` is `b` with every setting of `g`
/// written; bytes and bits that no setting owns keep their value.
pub open spec fn encodes_global(a: RawGlobal, g: Global, b: RawGlobal) -> bool {
    let (lo, mid, hi) = cc_written(b.cc_map_lo@, b.cc_map_mid@, b.cc_map_hi@, g.cc_map@);
    &&& a.master_tune == byte_of_signed(g.master_tune@) as u8
    &&& a.transpose == byte_of_signed(g.transpose@) as u8
    &&& a.flags_2 == with_field_bits(b.flags_2, 7, 1, flag_bit(g.memory_protect))
    &&& a.vel_curve == with_field_bits(b.vel_curve, 0, 0x0F, g.velocity_curve as u8)
    &&& a.midi_channel == with_field_bits(b.midi_channel, 0, 0x0F, g.midi_channel as u8)
    &&& a.flags_5 == with_field_bits(b.flags_5, 7, 1, flag_bit(g.local_ctrl))
    &&& forall|i: int| 0 <= i < 3 ==> #[trigger] a.midi_ctrl[i] == g.midi_ctrl[i]@ as u8
    &&& a.filters == b.filters
    &&& a.ass_pedal == b.ass_pedal
    &&& a.ass_switch == b.ass_switch
    &&& a.cc_map_lo@ == lo
    &&& a.cc_map_mid@ == mid
    &&& a.cc_map_hi@ == hi
    &&& a._dummy_79 == b._dummy_79
}

fn cc_part(map: &[u8], base: u8, out: &mut Vec<(u8, u8)>)
    requires
        base as int + map@.len() <= 256,
    ensures
        final(out)@ == old(out)@ + cc_entries(map@, base as int, map@.len()),
{
    let mut i: usize = 0;
    while i < map.len()
        invariant
            i <= map@.len(),
            base as int + map@.len() <= 256,
            out@ == old(out)@ + cc_entries(map@, base as int, i as nat),
        decreases map@.len() - i,
    {
        if map[i] != 0 {
            out.push((base + i as u8, map[i]));
        }
        i = i + 1;
    }
}

impl Global {
    /// The raw record the settings were read from.
    pub open spec fn backing(&self) -> RawGlobal {
        *self.backing
    }

    /// The typed reading of a raw global record.
    pub fn from_raw(raw: RawGlobal) -> (res: Self)
        ensures
            decodes_global(res, raw),
    {
        let mut cc_map: Vec<(u8, u8)> = Vec::new();
        cc_part(raw.cc_map_lo.as_slice(), 0, &mut cc_map);
        cc_part(raw.cc_map_mid.as_slice(), 32, &mut cc_map);
        cc_part(raw.cc_map_hi.as_slice(), 64, &mut cc_map);
        Global {
            master_tune: MasterTune::from_wire(raw.master_tune),
            transpose: GlobalTranspose12::from_wire(raw.transpose),
            velocity_curve: VelCurve::decode(raw.vel_curve & 0x0F),
            midi_channel: MidiChannelR3::decode(raw.midi_channel & 0x0F),
            midi_ctrl: [
                MidiCtrlNo::from_wire(raw.midi_ctrl[0]),
                MidiCtrlNo::from_wire(raw.midi_ctrl[1]),
                MidiCtrlNo::from_wire(raw.midi_ctrl[2]),
            ],
            memory_protect: raw.flags_2 & 0x80 != 0,
            local_ctrl: raw.flags_5 & 0x80 != 0,
            cc_map,
            backing: Box::new(raw),
        }
    }

    /// Writes every setting into the raw record the settings were read from.
    pub fn to_raw(&self) -> (res: RawGlobal)
        ensures
            encodes_global(res, *self, self.backing()),
    {
        let mut raw = *self.backing;
        raw.master_tune = self.master_tune.to_wire();
        raw.transpose = self.transpose.to_wire();
        raw.vel_curve = set_bits(raw.vel_curve, 0, 0x0F, self.velocity_curve.into());
        raw.midi_channel = set_bits(raw.midi_channel, 0, 0x0F, self.midi_channel.into());
        raw.midi_ctrl[0] = self.midi_ctrl[0].to_wire();
        raw.midi_ctrl[1] = self.midi_ctrl[1].to_wire();
        raw.midi_ctrl[2] = self.midi_ctrl[2].to_wire();
        raw.flags_2 = set_bits(raw.flags_2, 7, 1, if self.memory_protect { 1 } else { 0 });
        raw.flags_5 = set_bits(raw.flags_5, 7, 1, if self.local_ctrl { 1 } else { 0 });
        let ghost before = raw;
        let mut i: usize = 0;
        while i < self.cc_map.len()
            invariant
                i <= self.cc_map@.len(),
                raw.master_tune == before.master_tune,
                raw.transpose == before.transpose,
                raw.flags_2 == before.flags_2,
                raw.vel_curve == before.vel_curve,
                raw.midi_channel == before.midi_channel,
                raw.flags_5 == before.flags_5,
                raw.midi_ctrl == before.midi_ctrl,
                raw.filters == before.filters,
                raw.ass_pedal == before.ass_pedal,
                raw.ass_switch == before.ass_switch,
                raw._dummy_79 == before._dummy_79,
                (raw.cc_map_lo@, raw.cc_map_mid@, raw.cc_map_hi@) == cc_written(
                    before.cc_map_lo@,
                    before.cc_map_mid@,
                    before.cc_map_hi@,
                    self.cc_map@.take(i as int),
                ),
            decreases self.cc_map@.len() - i,
        {
            let (cc, dest) = self.cc_map[i];
            assert(self.cc_map@.take(i + 1).drop_last() =~= self.cc_map@.take(i as int));
            if cc <= 31 {
                raw.cc_map_lo[cc as usize] = dest;
            } else if cc <= 63 {
                raw.cc_map_mid[(cc - 32) as usize] = dest;
            } else if cc <= 66 {
                raw.cc_map_hi[(cc - 64) as usize] = dest;
            }
            i = i + 1;
        }
        assert(self.cc_map@.take(self.cc_map@.len() as int) =~= self.cc_map@);
        raw
    }

    /// Writes every setting into the raw record and returns its bytes.
    pub fn as_bytes(&self) -> (res: Vec<u8>)
        ensures
            exists|r: RawGlobal| encodes_global(r, *self, self.backing()) && res@ == r.bytes(),
    {
        let raw = self.to_raw();
        raw.as_bytes()
    }

    /// The file name under which the global settings are saved.
    pub fn default_filename(&self) -> (res: String)
        ensures
            res@ == "korg_r3.global"@,
    {
        String::from_str("korg_r3.global")
    }
}

impl Default for Global {
    /// Neutral settings, local control on, nothing mapped, over a zeroed raw
    /// record.
    fn default() -> (res: Self)
        ensures
            res.master_tune@ == 0,
            res.transpose@ == 0,
            res.velocity_curve == VelCurve::Curve1,
            res.midi_channel == MidiChannelR3::Ch1,
            forall|i: int| 0 <= i < 3 ==> #[trigger] res.midi_ctrl[i]@ == 0,
            !res.memory_protect,
            res.local_ctrl,
            res.cc_map@.len() == 0,
            res.backing().bytes() == Seq::new(80, |i: int| 0u8),
    {
        Self {
            master_tune: MasterTune::new(0),
            transpose: GlobalTranspose12::new(0),
            velocity_curve: VelCurve::Curve1,
            midi_channel: MidiChannelR3::Ch1,
            midi_ctrl: [MidiCtrlNo::new(0), MidiCtrlNo::new(0), MidiCtrlNo::new(0)],
            memory_protect: false,
            local_ctrl: true,
            cc_map: Vec::new(),
            backing: Box::new(RawGlobal::zeroed()),
        }
    }
}

/// The conversion goes through [`Global::from_raw`], whose contract states
/// the result. This spec impl opts out of the std contract;
/// the conversion's own `ensures` states the result.
impl vstd::std_specs::convert::TryFromSpecImpl<RawGlobal> for Global {
    open spec fn obeys_try_from_spec() -> bool {
        false
    }

    closed spec fn try_from_spec(raw: RawGlobal) -> Result<Self, String> {
        arbitrary()
    }
}

impl TryFrom<RawGlobal> for Global {
    type Error = String;

    fn try_from(raw: RawGlobal) -> (res: Result<Self, String>)
        ensures
            res matches Ok(g) && decodes_global(g, raw),
    {
        Ok(Global::from_raw(raw))
    }
}

/// The conversion goes through [`Global::to_raw`], whose contract states the
/// result; this impl states no result of its own.
impl<'a> vstd::std_specs::convert::FromSpecImpl<&'a Global> for RawGlobal {
    open spec fn obeys_from_spec() -> bool {
        false
    }

    closed spec fn from_spec(g: &'a Global) -> Self {
        arbitrary()
    }
}

impl<'a> From<&'a Global> for RawGlobal {
    fn from(g: &'a Global) -> (res: Self)
        ensures
            encodes_global(res, *g, g.backing()),
    {
        g.to_raw()
    }
}

/// The number of vocoder bands in a formant step.
pub const FORMANT_BANDS: usize = 16;

/// The most steps a formant motion holds.
pub const FORMANT_MAX_FRAMES: usize = 750;

/// One step of a formant motion: the level of each band.
#[derive(Debug, Clone, Copy, PartialEq, Eq)]
pub struct FormantStep {
    pub bands: [u8; 16],
}

/// A recorded formant motion: its slot, if it came from one, and its steps.
#[derive(Debug, Clone, Default, PartialEq, Eq)]
pub struct FormantMotion {
    pub motion_no: Option<u8>,
    pub steps: Vec<FormantStep>,
}

/// The bytes of formant steps, sixteen per step, in order.
pub open spec fn formant_bytes(steps: Seq<FormantStep>) -> Seq<u8>
    decreases steps.len(),
{
    if steps.len() == 0 {
        Seq::empty()
    } else {
        formant_bytes(steps.drop_last()) + steps.last().bands@
    }
}

/// Whether every band of a formant step is silent.
pub open spec fn is_silent(step: FormantStep) -> bool {
    step.bands@ == Seq::new(16, |i: int| 0u8)
}

/// A formant step with every band silent.
fn silent_step() -> (res: FormantStep)
    ensures
        is_silent(res),
{
    let res = FormantStep { bands: [0u8, 0, 0, 0, 0, 0, 0, 0, 0, 0, 0, 0, 0, 0, 0, 0] };
    assert(res.bands@ =~= Seq::new(16, |i: int| 0u8));
    res
}

impl FormantMotion {
    /// The motion made of raw steps.
    pub fn from_raw(motion_no: Option<u8>, steps: &[RawFormantStep]) -> (res: Self)
        ensures
            res.motion_no == motion_no,
            res.steps@.len() == steps@.len(),
            forall|i: int| 0 <= i < steps@.len() ==> #[trigger] res.steps@[i].bands == steps@[i].bands,
    {
        let mut out: Vec<FormantStep> = Vec::new();
        let mut i: usize = 0;
        while i < steps.len()
            invariant
                i <= steps@.len(),
                out@.len() == i,
                forall|j: int| 0 <= j < i ==> #[trigger] out@[j].bands == steps@[j].bands,
            decreases steps@.len() - i,
        {
            out.push(FormantStep { bands: steps[i].bands });
            i = i + 1;
        }
        Self { motion_no, steps: out }
    }

    /// Whether the motion has no step.
    pub fn is_empty(&self) -> (res: bool)
        ensures
            res == (self.steps@.len() == 0),
    {
        self.steps.len() == 0
    }

    /// The level of one band over the whole motion.
    pub fn band_envelope(&self, band: usize) -> (res: Vec<u8>)
        requires
            band < 16,
        ensures
            res@.len() == self.steps@.len(),
            forall|i: int| 0 <= i < self.steps@.len() ==> #[trigger] res@[i] == self.steps@[i].bands[band as int],
    {
        let mut out: Vec<u8> = Vec::new();
        let mut i: usize = 0;
        while i < self.steps.len()
            invariant
                band < 16,
                i <= self.steps@.len(),
                out@.len() == i,
                forall|j: int| 0 <= j < i ==> #[trigger] out@[j] == self.steps@[j].bands[band as int],
            decreases self.steps@.len() - i,
        {
            out.push(self.steps[i].bands[band]);
            i = i + 1;
        }
        out
    }

    /// The raw steps of the motion.
    pub fn to_raw(&self) -> (res: Vec<RawFormantStep>)
        ensures
            res@.len() == self.steps@.len(),
            forall|i: int| 0 <= i < self.steps@.len() ==> #[trigger] res@[i].bands == self.steps@[i].bands,
    {
        let mut out: Vec<RawFormantStep> = Vec::new();
        let mut i: usize = 0;
        while i < self.steps.len()
            invariant
                i <= self.steps@.len(),
                out@.len() == i,
                forall|j: int| 0 <= j < i ==> #[trigger] out@[j].bands == self.steps@[j].bands,
            decreases self.steps@.len() - i,
        {
            out.push(RawFormantStep { bands: self.steps[i].bands });
            i = i + 1;
        }
        out
    }

    /// The step count as sent, cut to 16 bits.
    pub fn size(&self) -> (res: u16)
        ensures
            res == self.steps@.len() as u16,
    {
        self.steps.len() as u16
    }

    /// The bytes of the steps, sixteen per step.
    pub fn as_bytes(&self) -> (res: Vec<u8>)
        ensures
            res@ == formant_bytes(self.steps@),
    {
        let mut out: Vec<u8> = Vec::new();
        let mut i: usize = 0;
        while i < self.steps.len()
            invariant
                i <= self.steps@.len(),
                out@ == formant_bytes(self.steps@.take(i as int)),
            decreases self.steps@.len() - i,
        {
            extend_bytes(&mut out, self.steps[i].bands.as_slice());
            assert(self.steps@.take(i + 1).drop_last() =~= self.steps@.take(i as int));
            i = i + 1;
        }
        assert(self.steps@.take(self.steps@.len() as int) =~= self.steps@);
        out
    }

    /// The motion whose step bytes are `bytes`; fails unless the bytes make
    /// whole steps.
    pub fn from_bytes(motion_no: Option<u8>, bytes: &[u8]) -> (res: Result<Self, String>)
        ensures
            bytes@.len() % 16 == 0 <==> res is Ok,
            res matches Ok(m) ==> m.motion_no == motion_no && formant_bytes(m.steps@) == bytes@,
    {
        if bytes.len() % 16 != 0 {
            return Err(String::from_str("formant data is not a whole number of steps"));
        }
        let n = bytes.len() / 16;
        let mut out: Vec<FormantStep> = Vec::new();
        let mut i: usize = 0;
        while i < n
            invariant
                n == bytes@.len() / 16,
                bytes@.len() % 16 == 0,
                i <= n,
                out@.len() == i,
                formant_bytes(out@) == bytes@.take(16 * i),
            decreases n - i,
        {
            let len = bytes.len();
            assert(16 * i + 16 <= len) by (nonlinear_arith)
                requires
                    i < n,
                    n == len / 16,
            ;
            let s = 16 * i;
            let step = FormantStep {
                bands: [
                    bytes[s + 0],
                    bytes[s + 1],
                    bytes[s + 2],
                    bytes[s + 3],
                    bytes[s + 4],
                    bytes[s + 5],
                    bytes[s + 6],
                    bytes[s + 7],
                    bytes[s + 8],
                    bytes[s + 9],
                    bytes[s + 10],
                    bytes[s + 11],
                    bytes[s + 12],
                    bytes[s + 13],
                    bytes[s + 14],
                    bytes[s + 15],
                ],
            };
            let ghost prev = out@;
            out.push(step);
            assert(out@.drop_last() =~= prev);
            assert(step.bands@ =~= bytes@.subrange(16 * i, 16 * i + 16));
            assert(bytes@.take(16 * (i + 1)) =~= bytes@.take(16 * i) + bytes@.subrange(16 * i, 16 * i + 16));
            i = i + 1;
        }
        assert(bytes@.take(16 * n) =~= bytes@);
        Ok(Self { motion_no, steps: out })
    }

    /// A silent motion of `frames` steps, at most 750.
    pub fn blank(motion_no: Option<u8>, frames: usize) -> (res: Self)
        ensures
            res.motion_no == motion_no,
            res.steps@.len() == if frames < 750 { frames } else { 750 },
            forall|i: int| 0 <= i < res.steps@.len() ==> is_silent(#[trigger] res.steps@[i]),
    {
        let frames = if frames < FORMANT_MAX_FRAMES {
            frames
        } else {
            FORMANT_MAX_FRAMES
        };
        let mut steps: Vec<FormantStep> = Vec::new();
        let mut i: usize = 0;
        while i < frames
            invariant
                i <= frames,
                steps@.len() == i,
                forall|j: int| 0 <= j < i ==> is_silent(#[trigger] steps@[j]),
            decreases frames - i,
        {
            steps.push(silent_step());
            i = i + 1;
        }
        Self { motion_no, steps }
    }

    /// Cuts or extends the motion to `frames` steps, at most 750; new steps
    /// are silent.
    pub fn resize(&mut self, frames: usize)
        ensures
            final(self).motion_no == old(self).motion_no,
            final(self).steps@.len() == if frames < 750 { frames } else { 750 },
            forall|i: int|
                0 <= i < final(self).steps@.len() ==> (i < old(self).steps@.len()
                    ==> #[trigger] final(self).steps@[i] == old(self).steps@[i]) && (i >= old(
                    self,
                ).steps@.len() ==> is_silent(final(self).steps@[i])),
    {
        let frames = if frames < FORMANT_MAX_FRAMES {
            frames
        } else {
            FORMANT_MAX_FRAMES
        };
        if self.steps.len() > frames {
            self.steps.truncate(frames);
        }
        while self.steps.len() < frames
            invariant
                self.motion_no == old(self).motion_no,
                self.steps@.len() <= frames,
                self.steps@.len() >= (if frames < old(self).steps@.len() { frames } else { old(self).steps@.len() as usize }),
                forall|i: int|
                    0 <= i < self.steps@.len() ==> (i < old(self).steps@.len() ==> #[trigger] self.steps@[i]
                        == old(self).steps@[i]) && (i >= old(self).steps@.len() ==> is_silent(
                        self.steps@[i],
                    )),
            decreases frames - self.steps@.len(),
        {
            self.steps.push(silent_step());
        }
    }

    /// Silences every band of every step.
    pub fn clear_levels(&mut self)
        ensures
            final(self).motion_no == old(self).motion_no,
            final(self).steps@.len() == old(self).steps@.len(),
            forall|i: int| 0 <= i < final(self).steps@.len() ==> is_silent(#[trigger] final(self).steps@[i]),
    {
        let mut i: usize = 0;
        while i < self.steps.len()
            invariant
                self.motion_no == old(self).motion_no,
                self.steps@.len() == old(self).steps@.len(),
                i <= self.steps@.len(),
                forall|j: int| 0 <= j < i ==> is_silent(#[trigger] self.steps@[j]),
            decreases self.steps@.len() - i,
        {
            self.steps.set(i, silent_step());
            i = i + 1;
        }
    }

    /// The level of `band` at step `frame`, or 0 when either is out of
    /// range.
    pub fn band_at(&self, frame: usize, band: usize) -> (res: u8)
        ensures
            res == if frame < self.steps@.len() && band < 16 {
                self.steps@[frame as int].bands[band as int]
            } else {
                0
            },
    {
        if frame < self.steps.len() && band < FORMANT_BANDS {
            self.steps[frame].bands[band]
        } else {
            0
        }
    }

    /// Sets the level of `band` at step `frame`, saturated to 127; does
    /// nothing when either is out of range.
    pub fn set_band(&mut self, frame: usize, band: usize, level: u8)
        ensures
            final(self).motion_no == old(self).motion_no,
            frame < old(self).steps@.len() && band < 16 ==> final(self).steps@ == old(self).steps@.update(
                frame as int,
                FormantStep {
                    bands: spec_array_update(
                        old(self).steps@[frame as int].bands,
                        band as int,
                        if level < 127 { level } else { 127 },
                    ),
                },
            ),
            !(frame < old(self).steps@.len() && band < 16) ==> final(self).steps@ == old(self).steps@,
    {
        if frame < self.steps.len() && band < FORMANT_BANDS {
            let mut step = self.steps[frame];
            step.bands[band] = if level < 127 {
                level
            } else {
                127
            };
            self.steps.set(frame, step);
        }
    }
}

} // verus!
