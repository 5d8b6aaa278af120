//! The values that MPD226 controls and settings take.

use vstd::prelude::*;

use crate::IntoEnumIterator;
use crate::manufacturer::akai::mpd226::error::PresetParseError;
use crate::manufacturer::akai::mpd226::error::PresetSettingsParseError;
use crate::music::theory::clamp_int;
use crate::sysex::extend_bytes;
use crate::sysex::lemma_unpack_pack_u14;
use crate::sysex::pack_u14;
use crate::sysex::packed_u14;
use crate::sysex::unpack_u14;
use crate::sysex::unpacked_u14;

verus! {

/// A MIDI channel of a control: the common channel, or one of sixteen on
/// port A or port B.
#[derive(Debug, Clone, Copy, PartialEq, Eq, Structural)]
pub enum MidiChannel {
    COMMON,
    A1,
    A2,
    A3,
    A4,
    A5,
    A6,
    A7,
    A8,
    A9,
    A10,
    A11,
    A12,
    A13,
    A14,
    A15,
    A16,
    B1,
    B2,
    B3,
    B4,
    B5,
    B6,
    B7,
    B8,
    B9,
    B10,
    B11,
    B12,
    B13,
    B14,
    B15,
    B16,
}

impl MidiChannel {
    /// The byte that stands for the value.
    pub open spec fn code(self) -> u8 {
        match self {
            MidiChannel::COMMON => 0,
            MidiChannel::A1 => 1,
            MidiChannel::A2 => 2,
            MidiChannel::A3 => 3,
            MidiChannel::A4 => 4,
            MidiChannel::A5 => 5,
            MidiChannel::A6 => 6,
            MidiChannel::A7 => 7,
            MidiChannel::A8 => 8,
            MidiChannel::A9 => 9,
            MidiChannel::A10 => 10,
            MidiChannel::A11 => 11,
            MidiChannel::A12 => 12,
            MidiChannel::A13 => 13,
            MidiChannel::A14 => 14,
            MidiChannel::A15 => 15,
            MidiChannel::A16 => 16,
            MidiChannel::B1 => 17,
            MidiChannel::B2 => 18,
            MidiChannel::B3 => 19,
            MidiChannel::B4 => 20,
            MidiChannel::B5 => 21,
            MidiChannel::B6 => 22,
            MidiChannel::B7 => 23,
            MidiChannel::B8 => 24,
            MidiChannel::B9 => 25,
            MidiChannel::B10 => 26,
            MidiChannel::B11 => 27,
            MidiChannel::B12 => 28,
            MidiChannel::B13 => 29,
            MidiChannel::B14 => 30,
            MidiChannel::B15 => 31,
            MidiChannel::B16 => 32,
        }
    }

    /// The value that byte `b` stands for, if any.
    pub open spec fn of_code(b: u8) -> Option<Self> {
        if b == 0 {
            Some(MidiChannel::COMMON)
        } else if b == 1 {
            Some(MidiChannel::A1)
        } else if b == 2 {
            Some(MidiChannel::A2)
        } else if b == 3 {
            Some(MidiChannel::A3)
        } else if b == 4 {
            Some(MidiChannel::A4)
        } else if b == 5 {
            Some(MidiChannel::A5)
        } else if b == 6 {
            Some(MidiChannel::A6)
        } else if b == 7 {
            Some(MidiChannel::A7)
        } else if b == 8 {
            Some(MidiChannel::A8)
        } else if b == 9 {
            Some(MidiChannel::A9)
        } else if b == 10 {
            Some(MidiChannel::A10)
        } else if b == 11 {
            Some(MidiChannel::A11)
        } else if b == 12 {
            Some(MidiChannel::A12)
        } else if b == 13 {
            Some(MidiChannel::A13)
        } else if b == 14 {
            Some(MidiChannel::A14)
        } else if b == 15 {
            Some(MidiChannel::A15)
        } else if b == 16 {
            Some(MidiChannel::A16)
        } else if b == 17 {
            Some(MidiChannel::B1)
        } else if b == 18 {
            Some(MidiChannel::B2)
        } else if b == 19 {
            Some(MidiChannel::B3)
        } else if b == 20 {
            Some(MidiChannel::B4)
        } else if b == 21 {
            Some(MidiChannel::B5)
        } else if b == 22 {
            Some(MidiChannel::B6)
        } else if b == 23 {
            Some(MidiChannel::B7)
        } else if b == 24 {
            Some(MidiChannel::B8)
        } else if b == 25 {
            Some(MidiChannel::B9)
        } else if b == 26 {
            Some(MidiChannel::B10)
        } else if b == 27 {
            Some(MidiChannel::B11)
        } else if b == 28 {
            Some(MidiChannel::B12)
        } else if b == 29 {
            Some(MidiChannel::B13)
        } else if b == 30 {
            Some(MidiChannel::B14)
        } else if b == 31 {
            Some(MidiChannel::B15)
        } else if b == 32 {
            Some(MidiChannel::B16)
        } else {
            None
        }
    }

    /// The byte that stands for the value.
    pub fn as_u8(self) -> (res: u8)
        ensures
            res == self.code(),
    {
        match self {
            MidiChannel::COMMON => 0,
            MidiChannel::A1 => 1,
            MidiChannel::A2 => 2,
            MidiChannel::A3 => 3,
            MidiChannel::A4 => 4,
            MidiChannel::A5 => 5,
            MidiChannel::A6 => 6,
            MidiChannel::A7 => 7,
            MidiChannel::A8 => 8,
            MidiChannel::A9 => 9,
            MidiChannel::A10 => 10,
            MidiChannel::A11 => 11,
            MidiChannel::A12 => 12,
            MidiChannel::A13 => 13,
            MidiChannel::A14 => 14,
            MidiChannel::A15 => 15,
            MidiChannel::A16 => 16,
            MidiChannel::B1 => 17,
            MidiChannel::B2 => 18,
            MidiChannel::B3 => 19,
            MidiChannel::B4 => 20,
            MidiChannel::B5 => 21,
            MidiChannel::B6 => 22,
            MidiChannel::B7 => 23,
            MidiChannel::B8 => 24,
            MidiChannel::B9 => 25,
            MidiChannel::B10 => 26,
            MidiChannel::B11 => 27,
            MidiChannel::B12 => 28,
            MidiChannel::B13 => 29,
            MidiChannel::B14 => 30,
            MidiChannel::B15 => 31,
            MidiChannel::B16 => 32,
        }
    }

    /// The value that byte `b` stands for, if any.
    pub fn from_code(b: u8) -> (res: Option<Self>)
        ensures
            res == Self::of_code(b),
            res matches Some(v) ==> v.code() == b,
    {
        if b == 0 {
            Some(MidiChannel::COMMON)
        } else if b == 1 {
            Some(MidiChannel::A1)
        } else if b == 2 {
            Some(MidiChannel::A2)
        } else if b == 3 {
            Some(MidiChannel::A3)
        } else if b == 4 {
            Some(MidiChannel::A4)
        } else if b == 5 {
            Some(MidiChannel::A5)
        } else if b == 6 {
            Some(MidiChannel::A6)
        } else if b == 7 {
            Some(MidiChannel::A7)
        } else if b == 8 {
            Some(MidiChannel::A8)
        } else if b == 9 {
            Some(MidiChannel::A9)
        } else if b == 10 {
            Some(MidiChannel::A10)
        } else if b == 11 {
            Some(MidiChannel::A11)
        } else if b == 12 {
            Some(MidiChannel::A12)
        } else if b == 13 {
            Some(MidiChannel::A13)
        } else if b == 14 {
            Some(MidiChannel::A14)
        } else if b == 15 {
            Some(MidiChannel::A15)
        } else if b == 16 {
            Some(MidiChannel::A16)
        } else if b == 17 {
            Some(MidiChannel::B1)
        } else if b == 18 {
            Some(MidiChannel::B2)
        } else if b == 19 {
            Some(MidiChannel::B3)
        } else if b == 20 {
            Some(MidiChannel::B4)
        } else if b == 21 {
            Some(MidiChannel::B5)
        } else if b == 22 {
            Some(MidiChannel::B6)
        } else if b == 23 {
            Some(MidiChannel::B7)
        } else if b == 24 {
            Some(MidiChannel::B8)
        } else if b == 25 {
            Some(MidiChannel::B9)
        } else if b == 26 {
            Some(MidiChannel::B10)
        } else if b == 27 {
            Some(MidiChannel::B11)
        } else if b == 28 {
            Some(MidiChannel::B12)
        } else if b == 29 {
            Some(MidiChannel::B13)
        } else if b == 30 {
            Some(MidiChannel::B14)
        } else if b == 31 {
            Some(MidiChannel::B15)
        } else if b == 32 {
            Some(MidiChannel::B16)
        } else {
            None
        }
    }

    /// A byte that stands for a value is that value's byte, and a value's
    /// byte stands for it.
    pub proof fn lemma_code(b: u8, v: Self)
        ensures
            Self::of_code(b) matches Some(x) ==> x.code() == b,
            Self::of_code(v.code()) == Some(v),
    {
    }

    /// Every value, in order.
    pub fn all() -> (res: Vec<Self>)
        ensures
            res@ == seq![MidiChannel::COMMON, MidiChannel::A1, MidiChannel::A2, MidiChannel::A3, MidiChannel::A4, MidiChannel::A5, MidiChannel::A6, MidiChannel::A7, MidiChannel::A8, MidiChannel::A9, MidiChannel::A10, MidiChannel::A11, MidiChannel::A12, MidiChannel::A13, MidiChannel::A14, MidiChannel::A15, MidiChannel::A16, MidiChannel::B1, MidiChannel::B2, MidiChannel::B3, MidiChannel::B4, MidiChannel::B5, MidiChannel::B6, MidiChannel::B7, MidiChannel::B8, MidiChannel::B9, MidiChannel::B10, MidiChannel::B11, MidiChannel::B12, MidiChannel::B13, MidiChannel::B14, MidiChannel::B15, MidiChannel::B16],
    {
        let res = vec![MidiChannel::COMMON, MidiChannel::A1, MidiChannel::A2, MidiChannel::A3, MidiChannel::A4, MidiChannel::A5, MidiChannel::A6, MidiChannel::A7, MidiChannel::A8, MidiChannel::A9, MidiChannel::A10, MidiChannel::A11, MidiChannel::A12, MidiChannel::A13, MidiChannel::A14, MidiChannel::A15, MidiChannel::A16, MidiChannel::B1, MidiChannel::B2, MidiChannel::B3, MidiChannel::B4, MidiChannel::B5, MidiChannel::B6, MidiChannel::B7, MidiChannel::B8, MidiChannel::B9, MidiChannel::B10, MidiChannel::B11, MidiChannel::B12, MidiChannel::B13, MidiChannel::B14, MidiChannel::B15, MidiChannel::B16];
        res
    }

}

impl From<MidiChannel> for u8 {
    fn from(v: MidiChannel) -> (res: u8) {
        v.as_u8()
    }
}

impl vstd::std_specs::convert::FromSpecImpl<MidiChannel> for u8 {
    open spec fn obeys_from_spec() -> bool {
        true
    }

    open spec fn from_spec(v: MidiChannel) -> u8 {
        v.code()
    }
}

impl TryFrom<u8> for MidiChannel {
    type Error = u8;

    fn try_from(b: u8) -> (res: Result<Self, u8>) {
        match Self::from_code(b) {
            Some(v) => Ok(v),
            None => Err(b),
        }
    }
}

impl vstd::std_specs::convert::TryFromSpecImpl<u8> for MidiChannel {
    open spec fn obeys_try_from_spec() -> bool {
        true
    }

    open spec fn try_from_spec(b: u8) -> Result<Self, u8> {
        match Self::of_code(b) {
            Some(v) => Ok(v),
            None => Err(b),
        }
    }
}

impl Default for MidiChannel {
    fn default() -> (res: Self)
        ensures
            res == MidiChannel::COMMON,
    {
        MidiChannel::COMMON
    }
}

impl IntoEnumIterator for MidiChannel {
    fn iter() -> std::vec::IntoIter<Self> {
        Self::all().into_iter()
    }
}

/// A USB MIDI channel: one of sixteen on port A or port B.
#[derive(Debug, Clone, Copy, PartialEq, Eq, Structural)]
pub enum UsbChannel {
    A1,
    A2,
    A3,
    A4,
    A5,
    A6,
    A7,
    A8,
    A9,
    A10,
    A11,
    A12,
    A13,
    A14,
    A15,
    A16,
    B1,
    B2,
    B3,
    B4,
    B5,
    B6,
    B7,
    B8,
    B9,
    B10,
    B11,
    B12,
    B13,
    B14,
    B15,
    B16,
}

impl UsbChannel {
    /// The byte that stands for the value.
    pub open spec fn code(self) -> u8 {
        match self {
            UsbChannel::A1 => 0,
            UsbChannel::A2 => 1,
            UsbChannel::A3 => 2,
            UsbChannel::A4 => 3,
            UsbChannel::A5 => 4,
            UsbChannel::A6 => 5,
            UsbChannel::A7 => 6,
            UsbChannel::A8 => 7,
            UsbChannel::A9 => 8,
            UsbChannel::A10 => 9,
            UsbChannel::A11 => 10,
            UsbChannel::A12 => 11,
            UsbChannel::A13 => 12,
            UsbChannel::A14 => 13,
            UsbChannel::A15 => 14,
            UsbChannel::A16 => 15,
            UsbChannel::B1 => 16,
            UsbChannel::B2 => 17,
            UsbChannel::B3 => 18,
            UsbChannel::B4 => 19,
            UsbChannel::B5 => 20,
            UsbChannel::B6 => 21,
            UsbChannel::B7 => 22,
            UsbChannel::B8 => 23,
            UsbChannel::B9 => 24,
            UsbChannel::B10 => 25,
            UsbChannel::B11 => 26,
            UsbChannel::B12 => 27,
            UsbChannel::B13 => 28,
            UsbChannel::B14 => 29,
            UsbChannel::B15 => 30,
            UsbChannel::B16 => 31,
        }
    }

    /// The value that byte `b` stands for, if any.
    pub open spec fn of_code(b: u8) -> Option<Self> {
        if b == 0 {
            Some(UsbChannel::A1)
        } else if b == 1 {
            Some(UsbChannel::A2)
        } else if b == 2 {
            Some(UsbChannel::A3)
        } else if b == 3 {
            Some(UsbChannel::A4)
        } else if b == 4 {
            Some(UsbChannel::A5)
        } else if b == 5 {
            Some(UsbChannel::A6)
        } else if b == 6 {
            Some(UsbChannel::A7)
        } else if b == 7 {
            Some(UsbChannel::A8)
        } else if b == 8 {
            Some(UsbChannel::A9)
        } else if b == 9 {
            Some(UsbChannel::A10)
        } else if b == 10 {
            Some(UsbChannel::A11)
        } else if b == 11 {
            Some(UsbChannel::A12)
        } else if b == 12 {
            Some(UsbChannel::A13)
        } else if b == 13 {
            Some(UsbChannel::A14)
        } else if b == 14 {
            Some(UsbChannel::A15)
        } else if b == 15 {
            Some(UsbChannel::A16)
        } else if b == 16 {
            Some(UsbChannel::B1)
        } else if b == 17 {
            Some(UsbChannel::B2)
        } else if b == 18 {
            Some(UsbChannel::B3)
        } else if b == 19 {
            Some(UsbChannel::B4)
        } else if b == 20 {
            Some(UsbChannel::B5)
        } else if b == 21 {
            Some(UsbChannel::B6)
        } else if b == 22 {
            Some(UsbChannel::B7)
        } else if b == 23 {
            Some(UsbChannel::B8)
        } else if b == 24 {
            Some(UsbChannel::B9)
        } else if b == 25 {
            Some(UsbChannel::B10)
        } else if b == 26 {
            Some(UsbChannel::B11)
        } else if b == 27 {
            Some(UsbChannel::B12)
        } else if b == 28 {
            Some(UsbChannel::B13)
        } else if b == 29 {
            Some(UsbChannel::B14)
        } else if b == 30 {
            Some(UsbChannel::B15)
        } else if b == 31 {
            Some(UsbChannel::B16)
        } else {
            None
        }
    }

    /// The byte that stands for the value.
    pub fn as_u8(self) -> (res: u8)
        ensures
            res == self.code(),
    {
        match self {
            UsbChannel::A1 => 0,
            UsbChannel::A2 => 1,
            UsbChannel::A3 => 2,
            UsbChannel::A4 => 3,
            UsbChannel::A5 => 4,
            UsbChannel::A6 => 5,
            UsbChannel::A7 => 6,
            UsbChannel::A8 => 7,
            UsbChannel::A9 => 8,
            UsbChannel::A10 => 9,
            UsbChannel::A11 => 10,
            UsbChannel::A12 => 11,
            UsbChannel::A13 => 12,
            UsbChannel::A14 => 13,
            UsbChannel::A15 => 14,
            UsbChannel::A16 => 15,
            UsbChannel::B1 => 16,
            UsbChannel::B2 => 17,
            UsbChannel::B3 => 18,
            UsbChannel::B4 => 19,
            UsbChannel::B5 => 20,
            UsbChannel::B6 => 21,
            UsbChannel::B7 => 22,
            UsbChannel::B8 => 23,
            UsbChannel::B9 => 24,
            UsbChannel::B10 => 25,
            UsbChannel::B11 => 26,
            UsbChannel::B12 => 27,
            UsbChannel::B13 => 28,
            UsbChannel::B14 => 29,
            UsbChannel::B15 => 30,
            UsbChannel::B16 => 31,
        }
    }

    /// The value that byte `b` stands for, if any.
    pub fn from_code(b: u8) -> (res: Option<Self>)
        ensures
            res == Self::of_code(b),
            res matches Some(v) ==> v.code() == b,
    {
        if b == 0 {
            Some(UsbChannel::A1)
        } else if b == 1 {
            Some(UsbChannel::A2)
        } else if b == 2 {
            Some(UsbChannel::A3)
        } else if b == 3 {
            Some(UsbChannel::A4)
        } else if b == 4 {
            Some(UsbChannel::A5)
        } else if b == 5 {
            Some(UsbChannel::A6)
        } else if b == 6 {
            Some(UsbChannel::A7)
        } else if b == 7 {
            Some(UsbChannel::A8)
        } else if b == 8 {
            Some(UsbChannel::A9)
        } else if b == 9 {
            Some(UsbChannel::A10)
        } else if b == 10 {
            Some(UsbChannel::A11)
        } else if b == 11 {
            Some(UsbChannel::A12)
        } else if b == 12 {
            Some(UsbChannel::A13)
        } else if b == 13 {
            Some(UsbChannel::A14)
        } else if b == 14 {
            Some(UsbChannel::A15)
        } else if b == 15 {
            Some(UsbChannel::A16)
        } else if b == 16 {
            Some(UsbChannel::B1)
        } else if b == 17 {
            Some(UsbChannel::B2)
        } else if b == 18 {
            Some(UsbChannel::B3)
        } else if b == 19 {
            Some(UsbChannel::B4)
        } else if b == 20 {
            Some(UsbChannel::B5)
        } else if b == 21 {
            Some(UsbChannel::B6)
        } else if b == 22 {
            Some(UsbChannel::B7)
        } else if b == 23 {
            Some(UsbChannel::B8)
        } else if b == 24 {
            Some(UsbChannel::B9)
        } else if b == 25 {
            Some(UsbChannel::B10)
        } else if b == 26 {
            Some(UsbChannel::B11)
        } else if b == 27 {
            Some(UsbChannel::B12)
        } else if b == 28 {
            Some(UsbChannel::B13)
        } else if b == 29 {
            Some(UsbChannel::B14)
        } else if b == 30 {
            Some(UsbChannel::B15)
        } else if b == 31 {
            Some(UsbChannel::B16)
        } else {
            None
        }
    }

    /// A byte that stands for a value is that value's byte, and a value's
    /// byte stands for it.
    pub proof fn lemma_code(b: u8, v: Self)
        ensures
            Self::of_code(b) matches Some(x) ==> x.code() == b,
            Self::of_code(v.code()) == Some(v),
    {
    }

    /// Every value, in order.
    pub fn all() -> (res: Vec<Self>)
        ensures
            res@ == seq![UsbChannel::A1, UsbChannel::A2, UsbChannel::A3, UsbChannel::A4, UsbChannel::A5, UsbChannel::A6, UsbChannel::A7, UsbChannel::A8, UsbChannel::A9, UsbChannel::A10, UsbChannel::A11, UsbChannel::A12, UsbChannel::A13, UsbChannel::A14, UsbChannel::A15, UsbChannel::A16, UsbChannel::B1, UsbChannel::B2, UsbChannel::B3, UsbChannel::B4, UsbChannel::B5, UsbChannel::B6, UsbChannel::B7, UsbChannel::B8, UsbChannel::B9, UsbChannel::B10, UsbChannel::B11, UsbChannel::B12, UsbChannel::B13, UsbChannel::B14, UsbChannel::B15, UsbChannel::B16],
    {
        let res = vec![UsbChannel::A1, UsbChannel::A2, UsbChannel::A3, UsbChannel::A4, UsbChannel::A5, UsbChannel::A6, UsbChannel::A7, UsbChannel::A8, UsbChannel::A9, UsbChannel::A10, UsbChannel::A11, UsbChannel::A12, UsbChannel::A13, UsbChannel::A14, UsbChannel::A15, UsbChannel::A16, UsbChannel::B1, UsbChannel::B2, UsbChannel::B3, UsbChannel::B4, UsbChannel::B5, UsbChannel::B6, UsbChannel::B7, UsbChannel::B8, UsbChannel::B9, UsbChannel::B10, UsbChannel::B11, UsbChannel::B12, UsbChannel::B13, UsbChannel::B14, UsbChannel::B15, UsbChannel::B16];
        res
    }

}

impl From<UsbChannel> for u8 {
    fn from(v: UsbChannel) -> (res: u8) {
        v.as_u8()
    }
}

impl vstd::std_specs::convert::FromSpecImpl<UsbChannel> for u8 {
    open spec fn obeys_from_spec() -> bool {
        true
    }

    open spec fn from_spec(v: UsbChannel) -> u8 {
        v.code()
    }
}

impl TryFrom<u8> for UsbChannel {
    type Error = u8;

    fn try_from(b: u8) -> (res: Result<Self, u8>) {
        match Self::from_code(b) {
            Some(v) => Ok(v),
            None => Err(b),
        }
    }
}

impl vstd::std_specs::convert::TryFromSpecImpl<u8> for UsbChannel {
    open spec fn obeys_try_from_spec() -> bool {
        true
    }

    open spec fn try_from_spec(b: u8) -> Result<Self, u8> {
        match Self::of_code(b) {
            Some(v) => Ok(v),
            None => Err(b),
        }
    }
}

impl Default for UsbChannel {
    fn default() -> (res: Self)
        ensures
            res == UsbChannel::A1,
    {
        UsbChannel::A1
    }
}

impl IntoEnumIterator for UsbChannel {
    fn iter() -> std::vec::IntoIter<Self> {
        Self::all().into_iter()
    }
}

/// What a switch sends.
#[derive(Debug, Clone, Copy, PartialEq, Eq, Structural)]
pub enum SwitchKind {
    CC,
    Aftertouch,
    Program,
    Bank,
    Key,
}

impl SwitchKind {
    /// The byte that stands for the value.
    pub open spec fn code(self) -> u8 {
        match self {
            SwitchKind::CC => 0,
            SwitchKind::Aftertouch => 1,
            SwitchKind::Program => 2,
            SwitchKind::Bank => 3,
            SwitchKind::Key => 4,
        }
    }

    /// The value that byte `b` stands for, if any.
    pub open spec fn of_code(b: u8) -> Option<Self> {
        if b == 0 {
            Some(SwitchKind::CC)
        } else if b == 1 {
            Some(SwitchKind::Aftertouch)
        } else if b == 2 {
            Some(SwitchKind::Program)
        } else if b == 3 {
            Some(SwitchKind::Bank)
        } else if b == 4 {
            Some(SwitchKind::Key)
        } else {
            None
        }
    }

    /// The byte that stands for the value.
    pub fn as_u8(self) -> (res: u8)
        ensures
            res == self.code(),
    {
        match self {
            SwitchKind::CC => 0,
            SwitchKind::Aftertouch => 1,
            SwitchKind::Program => 2,
            SwitchKind::Bank => 3,
            SwitchKind::Key => 4,
        }
    }

    /// The value that byte `b` stands for, if any.
    pub fn from_code(b: u8) -> (res: Option<Self>)
        ensures
            res == Self::of_code(b),
            res matches Some(v) ==> v.code() == b,
    {
        if b == 0 {
            Some(SwitchKind::CC)
        } else if b == 1 {
            Some(SwitchKind::Aftertouch)
        } else if b == 2 {
            Some(SwitchKind::Program)
        } else if b == 3 {
            Some(SwitchKind::Bank)
        } else if b == 4 {
            Some(SwitchKind::Key)
        } else {
            None
        }
    }

    /// A byte that stands for a value is that value's byte, and a value's
    /// byte stands for it.
    pub proof fn lemma_code(b: u8, v: Self)
        ensures
            Self::of_code(b) matches Some(x) ==> x.code() == b,
            Self::of_code(v.code()) == Some(v),
    {
    }

    /// Every value, in order.
    pub fn all() -> (res: Vec<Self>)
        ensures
            res@ == seq![SwitchKind::CC, SwitchKind::Aftertouch, SwitchKind::Program, SwitchKind::Bank, SwitchKind::Key],
    {
        let res = vec![SwitchKind::CC, SwitchKind::Aftertouch, SwitchKind::Program, SwitchKind::Bank, SwitchKind::Key];
        res
    }

}

impl From<SwitchKind> for u8 {
    fn from(v: SwitchKind) -> (res: u8) {
        v.as_u8()
    }
}

impl vstd::std_specs::convert::FromSpecImpl<SwitchKind> for u8 {
    open spec fn obeys_from_spec() -> bool {
        true
    }

    open spec fn from_spec(v: SwitchKind) -> u8 {
        v.code()
    }
}

impl TryFrom<u8> for SwitchKind {
    type Error = u8;

    fn try_from(b: u8) -> (res: Result<Self, u8>) {
        match Self::from_code(b) {
            Some(v) => Ok(v),
            None => Err(b),
        }
    }
}

impl vstd::std_specs::convert::TryFromSpecImpl<u8> for SwitchKind {
    open spec fn obeys_try_from_spec() -> bool {
        true
    }

    open spec fn try_from_spec(b: u8) -> Result<Self, u8> {
        match Self::of_code(b) {
            Some(v) => Ok(v),
            None => Err(b),
        }
    }
}

impl Default for SwitchKind {
    fn default() -> (res: Self)
        ensures
            res == SwitchKind::CC,
    {
        SwitchKind::CC
    }
}

impl IntoEnumIterator for SwitchKind {
    fn iter() -> std::vec::IntoIter<Self> {
        Self::all().into_iter()
    }
}

/// The modifier keys a key switch holds.
#[derive(Debug, Clone, Copy, PartialEq, Eq, Structural)]
#[allow(non_camel_case_types)]
pub enum KeyModifier {
    NONE,
    CTRL,
    SHIFT,
    ALT,
    OPT,
    CTRL_SHIFT,
    CTRL_ALT,
    CTRL_OPT,
    SHIFT_ALT,
    SHIFT_OPT,
    ALT_OPT,
    CTRL_ALT_OP,
    CTRL_SH_ALT,
    CTRL_SH_OPT,
}

impl KeyModifier {
    /// The byte that stands for the value.
    pub open spec fn code(self) -> u8 {
        match self {
            KeyModifier::NONE => 0,
            KeyModifier::CTRL => 1,
            KeyModifier::SHIFT => 2,
            KeyModifier::ALT => 3,
            KeyModifier::OPT => 4,
            KeyModifier::CTRL_SHIFT => 5,
            KeyModifier::CTRL_ALT => 6,
            KeyModifier::CTRL_OPT => 7,
            KeyModifier::SHIFT_ALT => 8,
            KeyModifier::SHIFT_OPT => 9,
            KeyModifier::ALT_OPT => 10,
            KeyModifier::CTRL_ALT_OP => 11,
            KeyModifier::CTRL_SH_ALT => 12,
            KeyModifier::CTRL_SH_OPT => 13,
        }
    }

    /// The value that byte `b` stands for, if any.
    pub open spec fn of_code(b: u8) -> Option<Self> {
        if b == 0 {
            Some(KeyModifier::NONE)
        } else if b == 1 {
            Some(KeyModifier::CTRL)
        } else if b == 2 {
            Some(KeyModifier::SHIFT)
        } else if b == 3 {
            Some(KeyModifier::ALT)
        } else if b == 4 {
            Some(KeyModifier::OPT)
        } else if b == 5 {
            Some(KeyModifier::CTRL_SHIFT)
        } else if b == 6 {
            Some(KeyModifier::CTRL_ALT)
        } else if b == 7 {
            Some(KeyModifier::CTRL_OPT)
        } else if b == 8 {
            Some(KeyModifier::SHIFT_ALT)
        } else if b == 9 {
            Some(KeyModifier::SHIFT_OPT)
        } else if b == 10 {
            Some(KeyModifier::ALT_OPT)
        } else if b == 11 {
            Some(KeyModifier::CTRL_ALT_OP)
        } else if b == 12 {
            Some(KeyModifier::CTRL_SH_ALT)
        } else if b == 13 {
            Some(KeyModifier::CTRL_SH_OPT)
        } else {
            None
        }
    }

    /// The byte that stands for the value.
    pub fn as_u8(self) -> (res: u8)
        ensures
            res == self.code(),
    {
        match self {
            KeyModifier::NONE => 0,
            KeyModifier::CTRL => 1,
            KeyModifier::SHIFT => 2,
            KeyModifier::ALT => 3,
            KeyModifier::OPT => 4,
            KeyModifier::CTRL_SHIFT => 5,
            KeyModifier::CTRL_ALT => 6,
            KeyModifier::CTRL_OPT => 7,
            KeyModifier::SHIFT_ALT => 8,
            KeyModifier::SHIFT_OPT => 9,
            KeyModifier::ALT_OPT => 10,
            KeyModifier::CTRL_ALT_OP => 11,
            KeyModifier::CTRL_SH_ALT => 12,
            KeyModifier::CTRL_SH_OPT => 13,
        }
    }

    /// The value that byte `b` stands for, if any.
    pub fn from_code(b: u8) -> (res: Option<Self>)
        ensures
            res == Self::of_code(b),
            res matches Some(v) ==> v.code() == b,
    {
        if b == 0 {
            Some(KeyModifier::NONE)
        } else if b == 1 {
            Some(KeyModifier::CTRL)
        } else if b == 2 {
            Some(KeyModifier::SHIFT)
        } else if b == 3 {
            Some(KeyModifier::ALT)
        } else if b == 4 {
            Some(KeyModifier::OPT)
        } else if b == 5 {
            Some(KeyModifier::CTRL_SHIFT)
        } else if b == 6 {
            Some(KeyModifier::CTRL_ALT)
        } else if b == 7 {
            Some(KeyModifier::CTRL_OPT)
        } else if b == 8 {
            Some(KeyModifier::SHIFT_ALT)
        } else if b == 9 {
            Some(KeyModifier::SHIFT_OPT)
        } else if b == 10 {
            Some(KeyModifier::ALT_OPT)
        } else if b == 11 {
            Some(KeyModifier::CTRL_ALT_OP)
        } else if b == 12 {
            Some(KeyModifier::CTRL_SH_ALT)
        } else if b == 13 {
            Some(KeyModifier::CTRL_SH_OPT)
        } else {
            None
        }
    }

    /// A byte that stands for a value is that value's byte, and a value's
    /// byte stands for it.
    pub proof fn lemma_code(b: u8, v: Self)
        ensures
            Self::of_code(b) matches Some(x) ==> x.code() == b,
            Self::of_code(v.code()) == Some(v),
    {
    }

    /// Every value, in order.
    pub fn all() -> (res: Vec<Self>)
        ensures
            res@ == seq![KeyModifier::NONE, KeyModifier::CTRL, KeyModifier::SHIFT, KeyModifier::ALT, KeyModifier::OPT, KeyModifier::CTRL_SHIFT, KeyModifier::CTRL_ALT, KeyModifier::CTRL_OPT, KeyModifier::SHIFT_ALT, KeyModifier::SHIFT_OPT, KeyModifier::ALT_OPT, KeyModifier::CTRL_ALT_OP, KeyModifier::CTRL_SH_ALT, KeyModifier::CTRL_SH_OPT],
    {
        let res = vec![KeyModifier::NONE, KeyModifier::CTRL, KeyModifier::SHIFT, KeyModifier::ALT, KeyModifier::OPT, KeyModifier::CTRL_SHIFT, KeyModifier::CTRL_ALT, KeyModifier::CTRL_OPT, KeyModifier::SHIFT_ALT, KeyModifier::SHIFT_OPT, KeyModifier::ALT_OPT, KeyModifier::CTRL_ALT_OP, KeyModifier::CTRL_SH_ALT, KeyModifier::CTRL_SH_OPT];
        res
    }

}

impl From<KeyModifier> for u8 {
    fn from(v: KeyModifier) -> (res: u8) {
        v.as_u8()
    }
}

impl vstd::std_specs::convert::FromSpecImpl<KeyModifier> for u8 {
    open spec fn obeys_from_spec() -> bool {
        true
    }

    open spec fn from_spec(v: KeyModifier) -> u8 {
        v.code()
    }
}

impl TryFrom<u8> for KeyModifier {
    type Error = u8;

    fn try_from(b: u8) -> (res: Result<Self, u8>) {
        match Self::from_code(b) {
            Some(v) => Ok(v),
            None => Err(b),
        }
    }
}

impl vstd::std_specs::convert::TryFromSpecImpl<u8> for KeyModifier {
    open spec fn obeys_try_from_spec() -> bool {
        true
    }

    open spec fn try_from_spec(b: u8) -> Result<Self, u8> {
        match Self::of_code(b) {
            Some(v) => Ok(v),
            None => Err(b),
        }
    }
}

impl Default for KeyModifier {
    fn default() -> (res: Self)
        ensures
            res == KeyModifier::NONE,
    {
        KeyModifier::NONE
    }
}

impl IntoEnumIterator for KeyModifier {
    fn iter() -> std::vec::IntoIter<Self> {
        Self::all().into_iter()
    }
}

/// Where a preset is stored: the working memory or one of twenty slots.
#[derive(Debug, Clone, Copy, PartialEq, Eq, Structural)]
pub enum PresetSlot {
    RAM,
    Slot1,
    Slot2,
    Slot3,
    Slot4,
    Slot5,
    Slot6,
    Slot7,
    Slot8,
    Slot9,
    Slot10,
    Slot11,
    Slot12,
    Slot13,
    Slot14,
    Slot15,
    Slot16,
    Slot17,
    Slot18,
    Slot19,
    Slot20,
}

impl PresetSlot {
    /// The byte that stands for the value.
    pub open spec fn code(self) -> u8 {
        match self {
            PresetSlot::RAM => 0,
            PresetSlot::Slot1 => 1,
            PresetSlot::Slot2 => 2,
            PresetSlot::Slot3 => 3,
            PresetSlot::Slot4 => 4,
            PresetSlot::Slot5 => 5,
            PresetSlot::Slot6 => 6,
            PresetSlot::Slot7 => 7,
            PresetSlot::Slot8 => 8,
            PresetSlot::Slot9 => 9,
            PresetSlot::Slot10 => 10,
            PresetSlot::Slot11 => 11,
            PresetSlot::Slot12 => 12,
            PresetSlot::Slot13 => 13,
            PresetSlot::Slot14 => 14,
            PresetSlot::Slot15 => 15,
            PresetSlot::Slot16 => 16,
            PresetSlot::Slot17 => 17,
            PresetSlot::Slot18 => 18,
            PresetSlot::Slot19 => 19,
            PresetSlot::Slot20 => 20,
        }
    }

    /// The value that byte `b` stands for, if any.
    pub open spec fn of_code(b: u8) -> Option<Self> {
        if b == 0 {
            Some(PresetSlot::RAM)
        } else if b == 1 {
            Some(PresetSlot::Slot1)
        } else if b == 2 {
            Some(PresetSlot::Slot2)
        } else if b == 3 {
            Some(PresetSlot::Slot3)
        } else if b == 4 {
            Some(PresetSlot::Slot4)
        } else if b == 5 {
            Some(PresetSlot::Slot5)
        } else if b == 6 {
            Some(PresetSlot::Slot6)
        } else if b == 7 {
            Some(PresetSlot::Slot7)
        } else if b == 8 {
            Some(PresetSlot::Slot8)
        } else if b == 9 {
            Some(PresetSlot::Slot9)
        } else if b == 10 {
            Some(PresetSlot::Slot10)
        } else if b == 11 {
            Some(PresetSlot::Slot11)
        } else if b == 12 {
            Some(PresetSlot::Slot12)
        } else if b == 13 {
            Some(PresetSlot::Slot13)
        } else if b == 14 {
            Some(PresetSlot::Slot14)
        } else if b == 15 {
            Some(PresetSlot::Slot15)
        } else if b == 16 {
            Some(PresetSlot::Slot16)
        } else if b == 17 {
            Some(PresetSlot::Slot17)
        } else if b == 18 {
            Some(PresetSlot::Slot18)
        } else if b == 19 {
            Some(PresetSlot::Slot19)
        } else if b == 20 {
            Some(PresetSlot::Slot20)
        } else {
            None
        }
    }

    /// The byte that stands for the value.
    pub fn as_u8(self) -> (res: u8)
        ensures
            res == self.code(),
    {
        match self {
            PresetSlot::RAM => 0,
            PresetSlot::Slot1 => 1,
            PresetSlot::Slot2 => 2,
            PresetSlot::Slot3 => 3,
            PresetSlot::Slot4 => 4,
            PresetSlot::Slot5 => 5,
            PresetSlot::Slot6 => 6,
            PresetSlot::Slot7 => 7,
            PresetSlot::Slot8 => 8,
            PresetSlot::Slot9 => 9,
            PresetSlot::Slot10 => 10,
            PresetSlot::Slot11 => 11,
            PresetSlot::Slot12 => 12,
            PresetSlot::Slot13 => 13,
            PresetSlot::Slot14 => 14,
            PresetSlot::Slot15 => 15,
            PresetSlot::Slot16 => 16,
            PresetSlot::Slot17 => 17,
            PresetSlot::Slot18 => 18,
            PresetSlot::Slot19 => 19,
            PresetSlot::Slot20 => 20,
        }
    }

    /// The value that byte `b` stands for, if any.
    pub fn from_code(b: u8) -> (res: Option<Self>)
        ensures
            res == Self::of_code(b),
            res matches Some(v) ==> v.code() == b,
    {
        if b == 0 {
            Some(PresetSlot::RAM)
        } else if b == 1 {
            Some(PresetSlot::Slot1)
        } else if b == 2 {
            Some(PresetSlot::Slot2)
        } else if b == 3 {
            Some(PresetSlot::Slot3)
        } else if b == 4 {
            Some(PresetSlot::Slot4)
        } else if b == 5 {
            Some(PresetSlot::Slot5)
        } else if b == 6 {
            Some(PresetSlot::Slot6)
        } else if b == 7 {
            Some(PresetSlot::Slot7)
        } else if b == 8 {
            Some(PresetSlot::Slot8)
        } else if b == 9 {
            Some(PresetSlot::Slot9)
        } else if b == 10 {
            Some(PresetSlot::Slot10)
        } else if b == 11 {
            Some(PresetSlot::Slot11)
        } else if b == 12 {
            Some(PresetSlot::Slot12)
        } else if b == 13 {
            Some(PresetSlot::Slot13)
        } else if b == 14 {
            Some(PresetSlot::Slot14)
        } else if b == 15 {
            Some(PresetSlot::Slot15)
        } else if b == 16 {
            Some(PresetSlot::Slot16)
        } else if b == 17 {
            Some(PresetSlot::Slot17)
        } else if b == 18 {
            Some(PresetSlot::Slot18)
        } else if b == 19 {
            Some(PresetSlot::Slot19)
        } else if b == 20 {
            Some(PresetSlot::Slot20)
        } else {
            None
        }
    }

    /// A byte that stands for a value is that value's byte, and a value's
    /// byte stands for it.
    pub proof fn lemma_code(b: u8, v: Self)
        ensures
            Self::of_code(b) matches Some(x) ==> x.code() == b,
            Self::of_code(v.code()) == Some(v),
    {
    }

    /// Every value, in order.
    pub fn all() -> (res: Vec<Self>)
        ensures
            res@ == seq![PresetSlot::RAM, PresetSlot::Slot1, PresetSlot::Slot2, PresetSlot::Slot3, PresetSlot::Slot4, PresetSlot::Slot5, PresetSlot::Slot6, PresetSlot::Slot7, PresetSlot::Slot8, PresetSlot::Slot9, PresetSlot::Slot10, PresetSlot::Slot11, PresetSlot::Slot12, PresetSlot::Slot13, PresetSlot::Slot14, PresetSlot::Slot15, PresetSlot::Slot16, PresetSlot::Slot17, PresetSlot::Slot18, PresetSlot::Slot19, PresetSlot::Slot20],
    {
        let res = vec![PresetSlot::RAM, PresetSlot::Slot1, PresetSlot::Slot2, PresetSlot::Slot3, PresetSlot::Slot4, PresetSlot::Slot5, PresetSlot::Slot6, PresetSlot::Slot7, PresetSlot::Slot8, PresetSlot::Slot9, PresetSlot::Slot10, PresetSlot::Slot11, PresetSlot::Slot12, PresetSlot::Slot13, PresetSlot::Slot14, PresetSlot::Slot15, PresetSlot::Slot16, PresetSlot::Slot17, PresetSlot::Slot18, PresetSlot::Slot19, PresetSlot::Slot20];
        res
    }

}

impl From<PresetSlot> for u8 {
    fn from(v: PresetSlot) -> (res: u8) {
        v.as_u8()
    }
}

impl vstd::std_specs::convert::FromSpecImpl<PresetSlot> for u8 {
    open spec fn obeys_from_spec() -> bool {
        true
    }

    open spec fn from_spec(v: PresetSlot) -> u8 {
        v.code()
    }
}

impl TryFrom<u8> for PresetSlot {
    type Error = u8;

    fn try_from(b: u8) -> (res: Result<Self, u8>) {
        match Self::from_code(b) {
            Some(v) => Ok(v),
            None => Err(b),
        }
    }
}

impl vstd::std_specs::convert::TryFromSpecImpl<u8> for PresetSlot {
    open spec fn obeys_try_from_spec() -> bool {
        true
    }

    open spec fn try_from_spec(b: u8) -> Result<Self, u8> {
        match Self::of_code(b) {
            Some(v) => Ok(v),
            None => Err(b),
        }
    }
}

impl Default for PresetSlot {
    fn default() -> (res: Self)
        ensures
            res == PresetSlot::RAM,
    {
        PresetSlot::RAM
    }
}

impl IntoEnumIterator for PresetSlot {
    fn iter() -> std::vec::IntoIter<Self> {
        Self::all().into_iter()
    }
}

/// Whether a control acts while held or toggles.
#[derive(Debug, Clone, Copy, PartialEq, Eq, Structural)]
pub enum TriggerKind {
    Momentary,
    Toggle,
}

impl TriggerKind {
    /// The byte that stands for the value.
    pub open spec fn code(self) -> u8 {
        match self {
            TriggerKind::Momentary => 0,
            TriggerKind::Toggle => 1,
        }
    }

    /// The value that byte `b` stands for, if any.
    pub open spec fn of_code(b: u8) -> Option<Self> {
        if b == 0 {
            Some(TriggerKind::Momentary)
        } else if b == 1 {
            Some(TriggerKind::Toggle)
        } else {
            None
        }
    }

    /// The byte that stands for the value.
    pub fn as_u8(self) -> (res: u8)
        ensures
            res == self.code(),
    {
        match self {
            TriggerKind::Momentary => 0,
            TriggerKind::Toggle => 1,
        }
    }

    /// The value that byte `b` stands for, if any.
    pub fn from_code(b: u8) -> (res: Option<Self>)
        ensures
            res == Self::of_code(b),
            res matches Some(v) ==> v.code() == b,
    {
        if b == 0 {
            Some(TriggerKind::Momentary)
        } else if b == 1 {
            Some(TriggerKind::Toggle)
        } else {
            None
        }
    }

    /// A byte that stands for a value is that value's byte, and a value's
    /// byte stands for it.
    pub proof fn lemma_code(b: u8, v: Self)
        ensures
            Self::of_code(b) matches Some(x) ==> x.code() == b,
            Self::of_code(v.code()) == Some(v),
    {
    }

    /// Every value, in order.
    pub fn all() -> (res: Vec<Self>)
        ensures
            res@ == seq![TriggerKind::Momentary, TriggerKind::Toggle],
    {
        let res = vec![TriggerKind::Momentary, TriggerKind::Toggle];
        res
    }

}

impl From<TriggerKind> for u8 {
    fn from(v: TriggerKind) -> (res: u8) {
        v.as_u8()
    }
}

impl vstd::std_specs::convert::FromSpecImpl<TriggerKind> for u8 {
    open spec fn obeys_from_spec() -> bool {
        true
    }

    open spec fn from_spec(v: TriggerKind) -> u8 {
        v.code()
    }
}

impl TryFrom<u8> for TriggerKind {
    type Error = u8;

    fn try_from(b: u8) -> (res: Result<Self, u8>) {
        match Self::from_code(b) {
            Some(v) => Ok(v),
            None => Err(b),
        }
    }
}

impl vstd::std_specs::convert::TryFromSpecImpl<u8> for TriggerKind {
    open spec fn obeys_try_from_spec() -> bool {
        true
    }

    open spec fn try_from_spec(b: u8) -> Result<Self, u8> {
        match Self::of_code(b) {
            Some(v) => Ok(v),
            None => Err(b),
        }
    }
}

impl Default for TriggerKind {
    fn default() -> (res: Self)
        ensures
            res == TriggerKind::Momentary,
    {
        TriggerKind::Momentary
    }
}

impl IntoEnumIterator for TriggerKind {
    fn iter() -> std::vec::IntoIter<Self> {
        Self::all().into_iter()
    }
}

/// The note-repeat time division.
#[derive(Debug, Clone, Copy, PartialEq, Eq, Structural)]
pub enum TimeDivision {
    Div1_4,
    Div1_4t,
    Div1_8,
    Div1_8t,
    Div1_16,
    Div1_16t,
    Div1_32,
    Div1_32t,
}

impl TimeDivision {
    /// The byte that stands for the value.
    pub open spec fn code(self) -> u8 {
        match self {
            TimeDivision::Div1_4 => 0,
            TimeDivision::Div1_4t => 1,
            TimeDivision::Div1_8 => 2,
            TimeDivision::Div1_8t => 3,
            TimeDivision::Div1_16 => 4,
            TimeDivision::Div1_16t => 5,
            TimeDivision::Div1_32 => 6,
            TimeDivision::Div1_32t => 7,
        }
    }

    /// The value that byte `b` stands for, if any.
    pub open spec fn of_code(b: u8) -> Option<Self> {
        if b == 0 {
            Some(TimeDivision::Div1_4)
        } else if b == 1 {
            Some(TimeDivision::Div1_4t)
        } else if b == 2 {
            Some(TimeDivision::Div1_8)
        } else if b == 3 {
            Some(TimeDivision::Div1_8t)
        } else if b == 4 {
            Some(TimeDivision::Div1_16)
        } else if b == 5 {
            Some(TimeDivision::Div1_16t)
        } else if b == 6 {
            Some(TimeDivision::Div1_32)
        } else if b == 7 {
            Some(TimeDivision::Div1_32t)
        } else {
            None
        }
    }

    /// The byte that stands for the value.
    pub fn as_u8(self) -> (res: u8)
        ensures
            res == self.code(),
    {
        match self {
            TimeDivision::Div1_4 => 0,
            TimeDivision::Div1_4t => 1,
            TimeDivision::Div1_8 => 2,
            TimeDivision::Div1_8t => 3,
            TimeDivision::Div1_16 => 4,
            TimeDivision::Div1_16t => 5,
            TimeDivision::Div1_32 => 6,
            TimeDivision::Div1_32t => 7,
        }
    }

    /// The value that byte `b` stands for, if any.
    pub fn from_code(b: u8) -> (res: Option<Self>)
        ensures
            res == Self::of_code(b),
            res matches Some(v) ==> v.code() == b,
    {
        if b == 0 {
            Some(TimeDivision::Div1_4)
        } else if b == 1 {
            Some(TimeDivision::Div1_4t)
        } else if b == 2 {
            Some(TimeDivision::Div1_8)
        } else if b == 3 {
            Some(TimeDivision::Div1_8t)
        } else if b == 4 {
            Some(TimeDivision::Div1_16)
        } else if b == 5 {
            Some(TimeDivision::Div1_16t)
        } else if b == 6 {
            Some(TimeDivision::Div1_32)
        } else if b == 7 {
            Some(TimeDivision::Div1_32t)
        } else {
            None
        }
    }

    /// A byte that stands for a value is that value's byte, and a value's
    /// byte stands for it.
    pub proof fn lemma_code(b: u8, v: Self)
        ensures
            Self::of_code(b) matches Some(x) ==> x.code() == b,
            Self::of_code(v.code()) == Some(v),
    {
    }

    /// Every value, in order.
    pub fn all() -> (res: Vec<Self>)
        ensures
            res@ == seq![TimeDivision::Div1_4, TimeDivision::Div1_4t, TimeDivision::Div1_8, TimeDivision::Div1_8t, TimeDivision::Div1_16, TimeDivision::Div1_16t, TimeDivision::Div1_32, TimeDivision::Div1_32t],
    {
        let res = vec![TimeDivision::Div1_4, TimeDivision::Div1_4t, TimeDivision::Div1_8, TimeDivision::Div1_8t, TimeDivision::Div1_16, TimeDivision::Div1_16t, TimeDivision::Div1_32, TimeDivision::Div1_32t];
        res
    }

}

impl From<TimeDivision> for u8 {
    fn from(v: TimeDivision) -> (res: u8) {
        v.as_u8()
    }
}

impl vstd::std_specs::convert::FromSpecImpl<TimeDivision> for u8 {
    open spec fn obeys_from_spec() -> bool {
        true
    }

    open spec fn from_spec(v: TimeDivision) -> u8 {
        v.code()
    }
}

impl TryFrom<u8> for TimeDivision {
    type Error = u8;

    fn try_from(b: u8) -> (res: Result<Self, u8>) {
        match Self::from_code(b) {
            Some(v) => Ok(v),
            None => Err(b),
        }
    }
}

impl vstd::std_specs::convert::TryFromSpecImpl<u8> for TimeDivision {
    open spec fn obeys_try_from_spec() -> bool {
        true
    }

    open spec fn try_from_spec(b: u8) -> Result<Self, u8> {
        match Self::of_code(b) {
            Some(v) => Ok(v),
            None => Err(b),
        }
    }
}

impl Default for TimeDivision {
    fn default() -> (res: Self)
        ensures
            res == TimeDivision::Div1_16,
    {
        TimeDivision::Div1_16
    }
}

impl IntoEnumIterator for TimeDivision {
    fn iter() -> std::vec::IntoIter<Self> {
        Self::all().into_iter()
    }
}

/// The swing amount: off (50) or 51 ..= 75 percent.
#[derive(Debug, Clone, Copy, PartialEq, Eq, Structural)]
pub enum SwingKind {
    Off,
    Swing51,
    Swing52,
    Swing53,
    Swing54,
    Swing55,
    Swing56,
    Swing57,
    Swing58,
    Swing59,
    Swing60,
    Swing61,
    Swing62,
    Swing63,
    Swing64,
    Swing65,
    Swing66,
    Swing67,
    Swing68,
    Swing69,
    Swing70,
    Swing71,
    Swing72,
    Swing73,
    Swing74,
    Swing75,
}

impl SwingKind {
    /// The byte that stands for the value.
    pub open spec fn code(self) -> u8 {
        match self {
            SwingKind::Off => 50,
            SwingKind::Swing51 => 51,
            SwingKind::Swing52 => 52,
            SwingKind::Swing53 => 53,
            SwingKind::Swing54 => 54,
            SwingKind::Swing55 => 55,
            SwingKind::Swing56 => 56,
            SwingKind::Swing57 => 57,
            SwingKind::Swing58 => 58,
            SwingKind::Swing59 => 59,
            SwingKind::Swing60 => 60,
            SwingKind::Swing61 => 61,
            SwingKind::Swing62 => 62,
            SwingKind::Swing63 => 63,
            SwingKind::Swing64 => 64,
            SwingKind::Swing65 => 65,
            SwingKind::Swing66 => 66,
            SwingKind::Swing67 => 67,
            SwingKind::Swing68 => 68,
            SwingKind::Swing69 => 69,
            SwingKind::Swing70 => 70,
            SwingKind::Swing71 => 71,
            SwingKind::Swing72 => 72,
            SwingKind::Swing73 => 73,
            SwingKind::Swing74 => 74,
            SwingKind::Swing75 => 75,
        }
    }

    /// The value that byte `b` stands for, if any.
    pub open spec fn of_code(b: u8) -> Option<Self> {
        if b == 50 {
            Some(SwingKind::Off)
        } else if b == 51 {
            Some(SwingKind::Swing51)
        } else if b == 52 {
            Some(SwingKind::Swing52)
        } else if b == 53 {
            Some(SwingKind::Swing53)
        } else if b == 54 {
            Some(SwingKind::Swing54)
        } else if b == 55 {
            Some(SwingKind::Swing55)
        } else if b == 56 {
            Some(SwingKind::Swing56)
        } else if b == 57 {
            Some(SwingKind::Swing57)
        } else if b == 58 {
            Some(SwingKind::Swing58)
        } else if b == 59 {
            Some(SwingKind::Swing59)
        } else if b == 60 {
            Some(SwingKind::Swing60)
        } else if b == 61 {
            Some(SwingKind::Swing61)
        } else if b == 62 {
            Some(SwingKind::Swing62)
        } else if b == 63 {
            Some(SwingKind::Swing63)
        } else if b == 64 {
            Some(SwingKind::Swing64)
        } else if b == 65 {
            Some(SwingKind::Swing65)
        } else if b == 66 {
            Some(SwingKind::Swing66)
        } else if b == 67 {
            Some(SwingKind::Swing67)
        } else if b == 68 {
            Some(SwingKind::Swing68)
        } else if b == 69 {
            Some(SwingKind::Swing69)
        } else if b == 70 {
            Some(SwingKind::Swing70)
        } else if b == 71 {
            Some(SwingKind::Swing71)
        } else if b == 72 {
            Some(SwingKind::Swing72)
        } else if b == 73 {
            Some(SwingKind::Swing73)
        } else if b == 74 {
            Some(SwingKind::Swing74)
        } else if b == 75 {
            Some(SwingKind::Swing75)
        } else {
            None
        }
    }

    /// The byte that stands for the value.
    pub fn as_u8(self) -> (res: u8)
        ensures
            res == self.code(),
    {
        match self {
            SwingKind::Off => 50,
            SwingKind::Swing51 => 51,
            SwingKind::Swing52 => 52,
            SwingKind::Swing53 => 53,
            SwingKind::Swing54 => 54,
            SwingKind::Swing55 => 55,
            SwingKind::Swing56 => 56,
            SwingKind::Swing57 => 57,
            SwingKind::Swing58 => 58,
            SwingKind::Swing59 => 59,
            SwingKind::Swing60 => 60,
            SwingKind::Swing61 => 61,
            SwingKind::Swing62 => 62,
            SwingKind::Swing63 => 63,
            SwingKind::Swing64 => 64,
            SwingKind::Swing65 => 65,
            SwingKind::Swing66 => 66,
            SwingKind::Swing67 => 67,
            SwingKind::Swing68 => 68,
            SwingKind::Swing69 => 69,
            SwingKind::Swing70 => 70,
            SwingKind::Swing71 => 71,
            SwingKind::Swing72 => 72,
            SwingKind::Swing73 => 73,
            SwingKind::Swing74 => 74,
            SwingKind::Swing75 => 75,
        }
    }

    /// The value that byte `b` stands for, if any.
    pub fn from_code(b: u8) -> (res: Option<Self>)
        ensures
            res == Self::of_code(b),
            res matches Some(v) ==> v.code() == b,
    {
        if b == 50 {
            Some(SwingKind::Off)
        } else if b == 51 {
            Some(SwingKind::Swing51)
        } else if b == 52 {
            Some(SwingKind::Swing52)
        } else if b == 53 {
            Some(SwingKind::Swing53)
        } else if b == 54 {
            Some(SwingKind::Swing54)
        } else if b == 55 {
            Some(SwingKind::Swing55)
        } else if b == 56 {
            Some(SwingKind::Swing56)
        } else if b == 57 {
            Some(SwingKind::Swing57)
        } else if b == 58 {
            Some(SwingKind::Swing58)
        } else if b == 59 {
            Some(SwingKind::Swing59)
        } else if b == 60 {
            Some(SwingKind::Swing60)
        } else if b == 61 {
            Some(SwingKind::Swing61)
        } else if b == 62 {
            Some(SwingKind::Swing62)
        } else if b == 63 {
            Some(SwingKind::Swing63)
        } else if b == 64 {
            Some(SwingKind::Swing64)
        } else if b == 65 {
            Some(SwingKind::Swing65)
        } else if b == 66 {
            Some(SwingKind::Swing66)
        } else if b == 67 {
            Some(SwingKind::Swing67)
        } else if b == 68 {
            Some(SwingKind::Swing68)
        } else if b == 69 {
            Some(SwingKind::Swing69)
        } else if b == 70 {
            Some(SwingKind::Swing70)
        } else if b == 71 {
            Some(SwingKind::Swing71)
        } else if b == 72 {
            Some(SwingKind::Swing72)
        } else if b == 73 {
            Some(SwingKind::Swing73)
        } else if b == 74 {
            Some(SwingKind::Swing74)
        } else if b == 75 {
            Some(SwingKind::Swing75)
        } else {
            None
        }
    }

    /// A byte that stands for a value is that value's byte, and a value's
    /// byte stands for it.
    pub proof fn lemma_code(b: u8, v: Self)
        ensures
            Self::of_code(b) matches Some(x) ==> x.code() == b,
            Self::of_code(v.code()) == Some(v),
    {
    }

    /// Every value, in order.
    pub fn all() -> (res: Vec<Self>)
        ensures
            res@ == seq![SwingKind::Off, SwingKind::Swing51, SwingKind::Swing52, SwingKind::Swing53, SwingKind::Swing54, SwingKind::Swing55, SwingKind::Swing56, SwingKind::Swing57, SwingKind::Swing58, SwingKind::Swing59, SwingKind::Swing60, SwingKind::Swing61, SwingKind::Swing62, SwingKind::Swing63, SwingKind::Swing64, SwingKind::Swing65, SwingKind::Swing66, SwingKind::Swing67, SwingKind::Swing68, SwingKind::Swing69, SwingKind::Swing70, SwingKind::Swing71, SwingKind::Swing72, SwingKind::Swing73, SwingKind::Swing74, SwingKind::Swing75],
    {
        let res = vec![SwingKind::Off, SwingKind::Swing51, SwingKind::Swing52, SwingKind::Swing53, SwingKind::Swing54, SwingKind::Swing55, SwingKind::Swing56, SwingKind::Swing57, SwingKind::Swing58, SwingKind::Swing59, SwingKind::Swing60, SwingKind::Swing61, SwingKind::Swing62, SwingKind::Swing63, SwingKind::Swing64, SwingKind::Swing65, SwingKind::Swing66, SwingKind::Swing67, SwingKind::Swing68, SwingKind::Swing69, SwingKind::Swing70, SwingKind::Swing71, SwingKind::Swing72, SwingKind::Swing73, SwingKind::Swing74, SwingKind::Swing75];
        res
    }

}

impl From<SwingKind> for u8 {
    fn from(v: SwingKind) -> (res: u8) {
        v.as_u8()
    }
}

impl vstd::std_specs::convert::FromSpecImpl<SwingKind> for u8 {
    open spec fn obeys_from_spec() -> bool {
        true
    }

    open spec fn from_spec(v: SwingKind) -> u8 {
        v.code()
    }
}

impl TryFrom<u8> for SwingKind {
    type Error = u8;

    fn try_from(b: u8) -> (res: Result<Self, u8>) {
        match Self::from_code(b) {
            Some(v) => Ok(v),
            None => Err(b),
        }
    }
}

impl vstd::std_specs::convert::TryFromSpecImpl<u8> for SwingKind {
    open spec fn obeys_try_from_spec() -> bool {
        true
    }

    open spec fn try_from_spec(b: u8) -> Result<Self, u8> {
        match Self::of_code(b) {
            Some(v) => Ok(v),
            None => Err(b),
        }
    }
}

impl Default for SwingKind {
    fn default() -> (res: Self)
        ensures
            res == SwingKind::Off,
    {
        SwingKind::Off
    }
}

impl IntoEnumIterator for SwingKind {
    fn iter() -> std::vec::IntoIter<Self> {
        Self::all().into_iter()
    }
}

/// What the transport buttons send.
#[derive(Debug, Clone, Copy, PartialEq, Eq, Structural)]
pub enum TransportKind {
    MCC,
    MCCMIDI,
    MIDI,
    CTRL,
    PTEX,
}

impl TransportKind {
    /// The byte that stands for the value.
    pub open spec fn code(self) -> u8 {
        match self {
            TransportKind::MCC => 0,
            TransportKind::MCCMIDI => 1,
            TransportKind::MIDI => 2,
            TransportKind::CTRL => 3,
            TransportKind::PTEX => 4,
        }
    }

    /// The value that byte `b` stands for, if any.
    pub open spec fn of_code(b: u8) -> Option<Self> {
        if b == 0 {
            Some(TransportKind::MCC)
        } else if b == 1 {
            Some(TransportKind::MCCMIDI)
        } else if b == 2 {
            Some(TransportKind::MIDI)
        } else if b == 3 {
            Some(TransportKind::CTRL)
        } else if b == 4 {
            Some(TransportKind::PTEX)
        } else {
            None
        }
    }

    /// The byte that stands for the value.
    pub fn as_u8(self) -> (res: u8)
        ensures
            res == self.code(),
    {
        match self {
            TransportKind::MCC => 0,
            TransportKind::MCCMIDI => 1,
            TransportKind::MIDI => 2,
            TransportKind::CTRL => 3,
            TransportKind::PTEX => 4,
        }
    }

    /// The value that byte `b` stands for, if any.
    pub fn from_code(b: u8) -> (res: Option<Self>)
        ensures
            res == Self::of_code(b),
            res matches Some(v) ==> v.code() == b,
    {
        if b == 0 {
            Some(TransportKind::MCC)
        } else if b == 1 {
            Some(TransportKind::MCCMIDI)
        } else if b == 2 {
            Some(TransportKind::MIDI)
        } else if b == 3 {
            Some(TransportKind::CTRL)
        } else if b == 4 {
            Some(TransportKind::PTEX)
        } else {
            None
        }
    }

    /// A byte that stands for a value is that value's byte, and a value's
    /// byte stands for it.
    pub proof fn lemma_code(b: u8, v: Self)
        ensures
            Self::of_code(b) matches Some(x) ==> x.code() == b,
            Self::of_code(v.code()) == Some(v),
    {
    }

    /// Every value, in order.
    pub fn all() -> (res: Vec<Self>)
        ensures
            res@ == seq![TransportKind::MCC, TransportKind::MCCMIDI, TransportKind::MIDI, TransportKind::CTRL, TransportKind::PTEX],
    {
        let res = vec![TransportKind::MCC, TransportKind::MCCMIDI, TransportKind::MIDI, TransportKind::CTRL, TransportKind::PTEX];
        res
    }

}

impl From<TransportKind> for u8 {
    fn from(v: TransportKind) -> (res: u8) {
        v.as_u8()
    }
}

impl vstd::std_specs::convert::FromSpecImpl<TransportKind> for u8 {
    open spec fn obeys_from_spec() -> bool {
        true
    }

    open spec fn from_spec(v: TransportKind) -> u8 {
        v.code()
    }
}

impl TryFrom<u8> for TransportKind {
    type Error = u8;

    fn try_from(b: u8) -> (res: Result<Self, u8>) {
        match Self::from_code(b) {
            Some(v) => Ok(v),
            None => Err(b),
        }
    }
}

impl vstd::std_specs::convert::TryFromSpecImpl<u8> for TransportKind {
    open spec fn obeys_try_from_spec() -> bool {
        true
    }

    open spec fn try_from_spec(b: u8) -> Result<Self, u8> {
        match Self::of_code(b) {
            Some(v) => Ok(v),
            None => Err(b),
        }
    }
}

impl Default for TransportKind {
    fn default() -> (res: Self)
        ensures
            res == TransportKind::CTRL,
    {
        TransportKind::CTRL
    }
}

impl IntoEnumIterator for TransportKind {
    fn iter() -> std::vec::IntoIter<Self> {
        Self::all().into_iter()
    }
}

/// What a pad sends.
#[derive(Debug, Clone, Copy, PartialEq, Eq, Structural)]
pub enum PadKind {
    Note,
    Prog,
    Bank,
}

impl PadKind {
    /// The byte that stands for the value.
    pub open spec fn code(self) -> u8 {
        match self {
            PadKind::Note => 0,
            PadKind::Prog => 1,
            PadKind::Bank => 2,
        }
    }

    /// The value that byte `b` stands for, if any.
    pub open spec fn of_code(b: u8) -> Option<Self> {
        if b == 0 {
            Some(PadKind::Note)
        } else if b == 1 {
            Some(PadKind::Prog)
        } else if b == 2 {
            Some(PadKind::Bank)
        } else {
            None
        }
    }

    /// The byte that stands for the value.
    pub fn as_u8(self) -> (res: u8)
        ensures
            res == self.code(),
    {
        match self {
            PadKind::Note => 0,
            PadKind::Prog => 1,
            PadKind::Bank => 2,
        }
    }

    /// The value that byte `b` stands for, if any.
    pub fn from_code(b: u8) -> (res: Option<Self>)
        ensures
            res == Self::of_code(b),
            res matches Some(v) ==> v.code() == b,
    {
        if b == 0 {
            Some(PadKind::Note)
        } else if b == 1 {
            Some(PadKind::Prog)
        } else if b == 2 {
            Some(PadKind::Bank)
        } else {
            None
        }
    }

    /// A byte that stands for a value is that value's byte, and a value's
    /// byte stands for it.
    pub proof fn lemma_code(b: u8, v: Self)
        ensures
            Self::of_code(b) matches Some(x) ==> x.code() == b,
            Self::of_code(v.code()) == Some(v),
    {
    }

    /// Every value, in order.
    pub fn all() -> (res: Vec<Self>)
        ensures
            res@ == seq![PadKind::Note, PadKind::Prog, PadKind::Bank],
    {
        let res = vec![PadKind::Note, PadKind::Prog, PadKind::Bank];
        res
    }

}

impl From<PadKind> for u8 {
    fn from(v: PadKind) -> (res: u8) {
        v.as_u8()
    }
}

impl vstd::std_specs::convert::FromSpecImpl<PadKind> for u8 {
    open spec fn obeys_from_spec() -> bool {
        true
    }

    open spec fn from_spec(v: PadKind) -> u8 {
        v.code()
    }
}

impl TryFrom<u8> for PadKind {
    type Error = u8;

    fn try_from(b: u8) -> (res: Result<Self, u8>) {
        match Self::from_code(b) {
            Some(v) => Ok(v),
            None => Err(b),
        }
    }
}

impl vstd::std_specs::convert::TryFromSpecImpl<u8> for PadKind {
    open spec fn obeys_try_from_spec() -> bool {
        true
    }

    open spec fn try_from_spec(b: u8) -> Result<Self, u8> {
        match Self::of_code(b) {
            Some(v) => Ok(v),
            None => Err(b),
        }
    }
}

impl Default for PadKind {
    fn default() -> (res: Self)
        ensures
            res == PadKind::Note,
    {
        PadKind::Note
    }
}

impl IntoEnumIterator for PadKind {
    fn iter() -> std::vec::IntoIter<Self> {
        Self::all().into_iter()
    }
}

/// The aftertouch a pad sends.
#[derive(Debug, Clone, Copy, PartialEq, Eq, Structural)]
pub enum AfterTouchKind {
    Off,
    Channel,
    Poly,
}

impl AfterTouchKind {
    /// The byte that stands for the value.
    pub open spec fn code(self) -> u8 {
        match self {
            AfterTouchKind::Off => 0,
            AfterTouchKind::Channel => 1,
            AfterTouchKind::Poly => 2,
        }
    }

    /// The value that byte `b` stands for, if any.
    pub open spec fn of_code(b: u8) -> Option<Self> {
        if b == 0 {
            Some(AfterTouchKind::Off)
        } else if b == 1 {
            Some(AfterTouchKind::Channel)
        } else if b == 2 {
            Some(AfterTouchKind::Poly)
        } else {
            None
        }
    }

    /// The byte that stands for the value.
    pub fn as_u8(self) -> (res: u8)
        ensures
            res == self.code(),
    {
        match self {
            AfterTouchKind::Off => 0,
            AfterTouchKind::Channel => 1,
            AfterTouchKind::Poly => 2,
        }
    }

    /// The value that byte `b` stands for, if any.
    pub fn from_code(b: u8) -> (res: Option<Self>)
        ensures
            res == Self::of_code(b),
            res matches Some(v) ==> v.code() == b,
    {
        if b == 0 {
            Some(AfterTouchKind::Off)
        } else if b == 1 {
            Some(AfterTouchKind::Channel)
        } else if b == 2 {
            Some(AfterTouchKind::Poly)
        } else {
            None
        }
    }

    /// A byte that stands for a value is that value's byte, and a value's
    /// byte stands for it.
    pub proof fn lemma_code(b: u8, v: Self)
        ensures
            Self::of_code(b) matches Some(x) ==> x.code() == b,
            Self::of_code(v.code()) == Some(v),
    {
    }

    /// Every value, in order.
    pub fn all() -> (res: Vec<Self>)
        ensures
            res@ == seq![AfterTouchKind::Off, AfterTouchKind::Channel, AfterTouchKind::Poly],
    {
        let res = vec![AfterTouchKind::Off, AfterTouchKind::Channel, AfterTouchKind::Poly];
        res
    }

}

impl From<AfterTouchKind> for u8 {
    fn from(v: AfterTouchKind) -> (res: u8) {
        v.as_u8()
    }
}

impl vstd::std_specs::convert::FromSpecImpl<AfterTouchKind> for u8 {
    open spec fn obeys_from_spec() -> bool {
        true
    }

    open spec fn from_spec(v: AfterTouchKind) -> u8 {
        v.code()
    }
}

impl TryFrom<u8> for AfterTouchKind {
    type Error = u8;

    fn try_from(b: u8) -> (res: Result<Self, u8>) {
        match Self::from_code(b) {
            Some(v) => Ok(v),
            None => Err(b),
        }
    }
}

impl vstd::std_specs::convert::TryFromSpecImpl<u8> for AfterTouchKind {
    open spec fn obeys_try_from_spec() -> bool {
        true
    }

    open spec fn try_from_spec(b: u8) -> Result<Self, u8> {
        match Self::of_code(b) {
            Some(v) => Ok(v),
            None => Err(b),
        }
    }
}

impl Default for AfterTouchKind {
    fn default() -> (res: Self)
        ensures
            res == AfterTouchKind::Channel,
    {
        AfterTouchKind::Channel
    }
}

impl IntoEnumIterator for AfterTouchKind {
    fn iter() -> std::vec::IntoIter<Self> {
        Self::all().into_iter()
    }
}

/// The light of a pad.
#[derive(Debug, Clone, Copy, PartialEq, Eq, Structural)]
pub enum PadColor {
    Off,
    Red,
    Orange,
    Amber,
    Yellow,
    Green,
    GreenBlue,
    Aqua,
    LightBlue,
    Blue,
    Purple,
    Pink,
    HotPink,
    LightPurple,
    LightGreen,
    LightPink,
    Grey,
}

impl PadColor {
    /// The byte that stands for the value.
    pub open spec fn code(self) -> u8 {
        match self {
            PadColor::Off => 0,
            PadColor::Red => 1,
            PadColor::Orange => 2,
            PadColor::Amber => 3,
            PadColor::Yellow => 4,
            PadColor::Green => 5,
            PadColor::GreenBlue => 6,
            PadColor::Aqua => 7,
            PadColor::LightBlue => 8,
            PadColor::Blue => 9,
            PadColor::Purple => 10,
            PadColor::Pink => 11,
            PadColor::HotPink => 12,
            PadColor::LightPurple => 13,
            PadColor::LightGreen => 14,
            PadColor::LightPink => 15,
            PadColor::Grey => 16,
        }
    }

    /// The value that byte `b` stands for, if any.
    pub open spec fn of_code(b: u8) -> Option<Self> {
        if b == 0 {
            Some(PadColor::Off)
        } else if b == 1 {
            Some(PadColor::Red)
        } else if b == 2 {
            Some(PadColor::Orange)
        } else if b == 3 {
            Some(PadColor::Amber)
        } else if b == 4 {
            Some(PadColor::Yellow)
        } else if b == 5 {
            Some(PadColor::Green)
        } else if b == 6 {
            Some(PadColor::GreenBlue)
        } else if b == 7 {
            Some(PadColor::Aqua)
        } else if b == 8 {
            Some(PadColor::LightBlue)
        } else if b == 9 {
            Some(PadColor::Blue)
        } else if b == 10 {
            Some(PadColor::Purple)
        } else if b == 11 {
            Some(PadColor::Pink)
        } else if b == 12 {
            Some(PadColor::HotPink)
        } else if b == 13 {
            Some(PadColor::LightPurple)
        } else if b == 14 {
            Some(PadColor::LightGreen)
        } else if b == 15 {
            Some(PadColor::LightPink)
        } else if b == 16 {
            Some(PadColor::Grey)
        } else {
            None
        }
    }

    /// The byte that stands for the value.
    pub fn as_u8(self) -> (res: u8)
        ensures
            res == self.code(),
    {
        match self {
            PadColor::Off => 0,
            PadColor::Red => 1,
            PadColor::Orange => 2,
            PadColor::Amber => 3,
            PadColor::Yellow => 4,
            PadColor::Green => 5,
            PadColor::GreenBlue => 6,
            PadColor::Aqua => 7,
            PadColor::LightBlue => 8,
            PadColor::Blue => 9,
            PadColor::Purple => 10,
            PadColor::Pink => 11,
            PadColor::HotPink => 12,
            PadColor::LightPurple => 13,
            PadColor::LightGreen => 14,
            PadColor::LightPink => 15,
            PadColor::Grey => 16,
        }
    }

    /// The value that byte `b` stands for, if any.
    pub fn from_code(b: u8) -> (res: Option<Self>)
        ensures
            res == Self::of_code(b),
            res matches Some(v) ==> v.code() == b,
    {
        if b == 0 {
            Some(PadColor::Off)
        } else if b == 1 {
            Some(PadColor::Red)
        } else if b == 2 {
            Some(PadColor::Orange)
        } else if b == 3 {
            Some(PadColor::Amber)
        } else if b == 4 {
            Some(PadColor::Yellow)
        } else if b == 5 {
            Some(PadColor::Green)
        } else if b == 6 {
            Some(PadColor::GreenBlue)
        } else if b == 7 {
            Some(PadColor::Aqua)
        } else if b == 8 {
            Some(PadColor::LightBlue)
        } else if b == 9 {
            Some(PadColor::Blue)
        } else if b == 10 {
            Some(PadColor::Purple)
        } else if b == 11 {
            Some(PadColor::Pink)
        } else if b == 12 {
            Some(PadColor::HotPink)
        } else if b == 13 {
            Some(PadColor::LightPurple)
        } else if b == 14 {
            Some(PadColor::LightGreen)
        } else if b == 15 {
            Some(PadColor::LightPink)
        } else if b == 16 {
            Some(PadColor::Grey)
        } else {
            None
        }
    }

    /// A byte that stands for a value is that value's byte, and a value's
    /// byte stands for it.
    pub proof fn lemma_code(b: u8, v: Self)
        ensures
            Self::of_code(b) matches Some(x) ==> x.code() == b,
            Self::of_code(v.code()) == Some(v),
    {
    }

    /// Every value, in order.
    pub fn all() -> (res: Vec<Self>)
        ensures
            res@ == seq![PadColor::Off, PadColor::Red, PadColor::Orange, PadColor::Amber, PadColor::Yellow, PadColor::Green, PadColor::GreenBlue, PadColor::Aqua, PadColor::LightBlue, PadColor::Blue, PadColor::Purple, PadColor::Pink, PadColor::HotPink, PadColor::LightPurple, PadColor::LightGreen, PadColor::LightPink, PadColor::Grey],
    {
        let res = vec![PadColor::Off, PadColor::Red, PadColor::Orange, PadColor::Amber, PadColor::Yellow, PadColor::Green, PadColor::GreenBlue, PadColor::Aqua, PadColor::LightBlue, PadColor::Blue, PadColor::Purple, PadColor::Pink, PadColor::HotPink, PadColor::LightPurple, PadColor::LightGreen, PadColor::LightPink, PadColor::Grey];
        res
    }

}

impl From<PadColor> for u8 {
    fn from(v: PadColor) -> (res: u8) {
        v.as_u8()
    }
}

impl vstd::std_specs::convert::FromSpecImpl<PadColor> for u8 {
    open spec fn obeys_from_spec() -> bool {
        true
    }

    open spec fn from_spec(v: PadColor) -> u8 {
        v.code()
    }
}

impl TryFrom<u8> for PadColor {
    type Error = u8;

    fn try_from(b: u8) -> (res: Result<Self, u8>) {
        match Self::from_code(b) {
            Some(v) => Ok(v),
            None => Err(b),
        }
    }
}

impl vstd::std_specs::convert::TryFromSpecImpl<u8> for PadColor {
    open spec fn obeys_try_from_spec() -> bool {
        true
    }

    open spec fn try_from_spec(b: u8) -> Result<Self, u8> {
        match Self::of_code(b) {
            Some(v) => Ok(v),
            None => Err(b),
        }
    }
}

impl Default for PadColor {
    fn default() -> (res: Self)
        ensures
            res == PadColor::Off,
    {
        PadColor::Off
    }
}

impl IntoEnumIterator for PadColor {
    fn iter() -> std::vec::IntoIter<Self> {
        Self::all().into_iter()
    }
}

/// What a fader sends.
#[derive(Debug, Clone, Copy, PartialEq, Eq, Structural)]
pub enum FaderKind {
    CC,
    Aftertouch,
}

impl FaderKind {
    /// The byte that stands for the value.
    pub open spec fn code(self) -> u8 {
        match self {
            FaderKind::CC => 0,
            FaderKind::Aftertouch => 1,
        }
    }

    /// The value that byte `b` stands for, if any.
    pub open spec fn of_code(b: u8) -> Option<Self> {
        if b == 0 {
            Some(FaderKind::CC)
        } else if b == 1 {
            Some(FaderKind::Aftertouch)
        } else {
            None
        }
    }

    /// The byte that stands for the value.
    pub fn as_u8(self) -> (res: u8)
        ensures
            res == self.code(),
    {
        match self {
            FaderKind::CC => 0,
            FaderKind::Aftertouch => 1,
        }
    }

    /// The value that byte `b` stands for, if any.
    pub fn from_code(b: u8) -> (res: Option<Self>)
        ensures
            res == Self::of_code(b),
            res matches Some(v) ==> v.code() == b,
    {
        if b == 0 {
            Some(FaderKind::CC)
        } else if b == 1 {
            Some(FaderKind::Aftertouch)
        } else {
            None
        }
    }

    /// A byte that stands for a value is that value's byte, and a value's
    /// byte stands for it.
    pub proof fn lemma_code(b: u8, v: Self)
        ensures
            Self::of_code(b) matches Some(x) ==> x.code() == b,
            Self::of_code(v.code()) == Some(v),
    {
    }

    /// Every value, in order.
    pub fn all() -> (res: Vec<Self>)
        ensures
            res@ == seq![FaderKind::CC, FaderKind::Aftertouch],
    {
        let res = vec![FaderKind::CC, FaderKind::Aftertouch];
        res
    }

}

impl From<FaderKind> for u8 {
    fn from(v: FaderKind) -> (res: u8) {
        v.as_u8()
    }
}

impl vstd::std_specs::convert::FromSpecImpl<FaderKind> for u8 {
    open spec fn obeys_from_spec() -> bool {
        true
    }

    open spec fn from_spec(v: FaderKind) -> u8 {
        v.code()
    }
}

impl TryFrom<u8> for FaderKind {
    type Error = u8;

    fn try_from(b: u8) -> (res: Result<Self, u8>) {
        match Self::from_code(b) {
            Some(v) => Ok(v),
            None => Err(b),
        }
    }
}

impl vstd::std_specs::convert::TryFromSpecImpl<u8> for FaderKind {
    open spec fn obeys_try_from_spec() -> bool {
        true
    }

    open spec fn try_from_spec(b: u8) -> Result<Self, u8> {
        match Self::of_code(b) {
            Some(v) => Ok(v),
            None => Err(b),
        }
    }
}

impl Default for FaderKind {
    fn default() -> (res: Self)
        ensures
            res == FaderKind::CC,
    {
        FaderKind::CC
    }
}

impl IntoEnumIterator for FaderKind {
    fn iter() -> std::vec::IntoIter<Self> {
        Self::all().into_iter()
    }
}

/// What a dial sends.
#[derive(Debug, Clone, Copy, PartialEq, Eq, Structural)]
pub enum DialKind {
    CC,
    Aftertouch,
    IncDec1,
    IncDec2,
}

impl DialKind {
    /// The byte that stands for the value.
    pub open spec fn code(self) -> u8 {
        match self {
            DialKind::CC => 0,
            DialKind::Aftertouch => 1,
            DialKind::IncDec1 => 2,
            DialKind::IncDec2 => 3,
        }
    }

    /// The value that byte `b` stands for, if any.
    pub open spec fn of_code(b: u8) -> Option<Self> {
        if b == 0 {
            Some(DialKind::CC)
        } else if b == 1 {
            Some(DialKind::Aftertouch)
        } else if b == 2 {
            Some(DialKind::IncDec1)
        } else if b == 3 {
            Some(DialKind::IncDec2)
        } else {
            None
        }
    }

    /// The byte that stands for the value.
    pub fn as_u8(self) -> (res: u8)
        ensures
            res == self.code(),
    {
        match self {
            DialKind::CC => 0,
            DialKind::Aftertouch => 1,
            DialKind::IncDec1 => 2,
            DialKind::IncDec2 => 3,
        }
    }

    /// The value that byte `b` stands for, if any.
    pub fn from_code(b: u8) -> (res: Option<Self>)
        ensures
            res == Self::of_code(b),
            res matches Some(v) ==> v.code() == b,
    {
        if b == 0 {
            Some(DialKind::CC)
        } else if b == 1 {
            Some(DialKind::Aftertouch)
        } else if b == 2 {
            Some(DialKind::IncDec1)
        } else if b == 3 {
            Some(DialKind::IncDec2)
        } else {
            None
        }
    }

    /// A byte that stands for a value is that value's byte, and a value's
    /// byte stands for it.
    pub proof fn lemma_code(b: u8, v: Self)
        ensures
            Self::of_code(b) matches Some(x) ==> x.code() == b,
            Self::of_code(v.code()) == Some(v),
    {
    }

    /// Every value, in order.
    pub fn all() -> (res: Vec<Self>)
        ensures
            res@ == seq![DialKind::CC, DialKind::Aftertouch, DialKind::IncDec1, DialKind::IncDec2],
    {
        let res = vec![DialKind::CC, DialKind::Aftertouch, DialKind::IncDec1, DialKind::IncDec2];
        res
    }

}

impl From<DialKind> for u8 {
    fn from(v: DialKind) -> (res: u8) {
        v.as_u8()
    }
}

impl vstd::std_specs::convert::FromSpecImpl<DialKind> for u8 {
    open spec fn obeys_from_spec() -> bool {
        true
    }

    open spec fn from_spec(v: DialKind) -> u8 {
        v.code()
    }
}

impl TryFrom<u8> for DialKind {
    type Error = u8;

    fn try_from(b: u8) -> (res: Result<Self, u8>) {
        match Self::from_code(b) {
            Some(v) => Ok(v),
            None => Err(b),
        }
    }
}

impl vstd::std_specs::convert::TryFromSpecImpl<u8> for DialKind {
    open spec fn obeys_try_from_spec() -> bool {
        true
    }

    open spec fn try_from_spec(b: u8) -> Result<Self, u8> {
        match Self::of_code(b) {
            Some(v) => Ok(v),
            None => Err(b),
        }
    }
}

impl Default for DialKind {
    fn default() -> (res: Self)
        ensures
            res == DialKind::CC,
    {
        DialKind::CC
    }
}

impl IntoEnumIterator for DialKind {
    fn iter() -> std::vec::IntoIter<Self> {
        Self::all().into_iter()
    }
}

/// Whether a setting is on.
#[derive(Debug, Clone, Copy, PartialEq, Eq, Structural)]
pub enum ActiveState {
    Off,
    On,
}

impl ActiveState {
    /// The byte that stands for the value.
    pub open spec fn code(self) -> u8 {
        match self {
            ActiveState::Off => 0,
            ActiveState::On => 1,
        }
    }

    /// The value that byte `b` stands for, if any.
    pub open spec fn of_code(b: u8) -> Option<Self> {
        if b == 0 {
            Some(ActiveState::Off)
        } else if b == 1 {
            Some(ActiveState::On)
        } else {
            None
        }
    }

    /// The byte that stands for the value.
    pub fn as_u8(self) -> (res: u8)
        ensures
            res == self.code(),
    {
        match self {
            ActiveState::Off => 0,
            ActiveState::On => 1,
        }
    }

    /// The value that byte `b` stands for, if any.
    pub fn from_code(b: u8) -> (res: Option<Self>)
        ensures
            res == Self::of_code(b),
            res matches Some(v) ==> v.code() == b,
    {
        if b == 0 {
            Some(ActiveState::Off)
        } else if b == 1 {
            Some(ActiveState::On)
        } else {
            None
        }
    }

    /// A byte that stands for a value is that value's byte, and a value's
    /// byte stands for it.
    pub proof fn lemma_code(b: u8, v: Self)
        ensures
            Self::of_code(b) matches Some(x) ==> x.code() == b,
            Self::of_code(v.code()) == Some(v),
    {
    }

    /// Every value, in order.
    pub fn all() -> (res: Vec<Self>)
        ensures
            res@ == seq![ActiveState::Off, ActiveState::On],
    {
        let res = vec![ActiveState::Off, ActiveState::On];
        res
    }

}

impl From<ActiveState> for u8 {
    fn from(v: ActiveState) -> (res: u8) {
        v.as_u8()
    }
}

impl vstd::std_specs::convert::FromSpecImpl<ActiveState> for u8 {
    open spec fn obeys_from_spec() -> bool {
        true
    }

    open spec fn from_spec(v: ActiveState) -> u8 {
        v.code()
    }
}

impl TryFrom<u8> for ActiveState {
    type Error = u8;

    fn try_from(b: u8) -> (res: Result<Self, u8>) {
        match Self::from_code(b) {
            Some(v) => Ok(v),
            None => Err(b),
        }
    }
}

impl vstd::std_specs::convert::TryFromSpecImpl<u8> for ActiveState {
    open spec fn obeys_try_from_spec() -> bool {
        true
    }

    open spec fn try_from_spec(b: u8) -> Result<Self, u8> {
        match Self::of_code(b) {
            Some(v) => Ok(v),
            None => Err(b),
        }
    }
}

impl Default for ActiveState {
    fn default() -> (res: Self)
        ensures
            res == ActiveState::Off,
    {
        ActiveState::Off
    }
}

impl IntoEnumIterator for ActiveState {
    fn iter() -> std::vec::IntoIter<Self> {
        Self::all().into_iter()
    }
}

/// How notes are shown.
#[derive(Debug, Clone, Copy, PartialEq, Eq, Structural)]
pub enum NoteDisplay {
    Value,
    Number,
}

impl NoteDisplay {
    /// The byte that stands for the value.
    pub open spec fn code(self) -> u8 {
        match self {
            NoteDisplay::Value => 0,
            NoteDisplay::Number => 1,
        }
    }

    /// The value that byte `b` stands for, if any.
    pub open spec fn of_code(b: u8) -> Option<Self> {
        if b == 0 {
            Some(NoteDisplay::Value)
        } else if b == 1 {
            Some(NoteDisplay::Number)
        } else {
            None
        }
    }

    /// The byte that stands for the value.
    pub fn as_u8(self) -> (res: u8)
        ensures
            res == self.code(),
    {
        match self {
            NoteDisplay::Value => 0,
            NoteDisplay::Number => 1,
        }
    }

    /// The value that byte `b` stands for, if any.
    pub fn from_code(b: u8) -> (res: Option<Self>)
        ensures
            res == Self::of_code(b),
            res matches Some(v) ==> v.code() == b,
    {
        if b == 0 {
            Some(NoteDisplay::Value)
        } else if b == 1 {
            Some(NoteDisplay::Number)
        } else {
            None
        }
    }

    /// A byte that stands for a value is that value's byte, and a value's
    /// byte stands for it.
    pub proof fn lemma_code(b: u8, v: Self)
        ensures
            Self::of_code(b) matches Some(x) ==> x.code() == b,
            Self::of_code(v.code()) == Some(v),
    {
    }

    /// Every value, in order.
    pub fn all() -> (res: Vec<Self>)
        ensures
            res@ == seq![NoteDisplay::Value, NoteDisplay::Number],
    {
        let res = vec![NoteDisplay::Value, NoteDisplay::Number];
        res
    }

}

impl From<NoteDisplay> for u8 {
    fn from(v: NoteDisplay) -> (res: u8) {
        v.as_u8()
    }
}

impl vstd::std_specs::convert::FromSpecImpl<NoteDisplay> for u8 {
    open spec fn obeys_from_spec() -> bool {
        true
    }

    open spec fn from_spec(v: NoteDisplay) -> u8 {
        v.code()
    }
}

impl TryFrom<u8> for NoteDisplay {
    type Error = u8;

    fn try_from(b: u8) -> (res: Result<Self, u8>) {
        match Self::from_code(b) {
            Some(v) => Ok(v),
            None => Err(b),
        }
    }
}

impl vstd::std_specs::convert::TryFromSpecImpl<u8> for NoteDisplay {
    open spec fn obeys_try_from_spec() -> bool {
        true
    }

    open spec fn try_from_spec(b: u8) -> Result<Self, u8> {
        match Self::of_code(b) {
            Some(v) => Ok(v),
            None => Err(b),
        }
    }
}

impl Default for NoteDisplay {
    fn default() -> (res: Self)
        ensures
            res == NoteDisplay::Value,
    {
        NoteDisplay::Value
    }
}

impl IntoEnumIterator for NoteDisplay {
    fn iter() -> std::vec::IntoIter<Self> {
        Self::all().into_iter()
    }
}

/// How many taps the tap tempo averages.
#[derive(Debug, Clone, Copy, PartialEq, Eq, Structural)]
pub enum TapAverage {
    Tap2,
    Tap3,
    Tap4,
}

impl TapAverage {
    /// The byte that stands for the value.
    pub open spec fn code(self) -> u8 {
        match self {
            TapAverage::Tap2 => 2,
            TapAverage::Tap3 => 3,
            TapAverage::Tap4 => 4,
        }
    }

    /// The value that byte `b` stands for, if any.
    pub open spec fn of_code(b: u8) -> Option<Self> {
        if b == 2 {
            Some(TapAverage::Tap2)
        } else if b == 3 {
            Some(TapAverage::Tap3)
        } else if b == 4 {
            Some(TapAverage::Tap4)
        } else {
            None
        }
    }

    /// The byte that stands for the value.
    pub fn as_u8(self) -> (res: u8)
        ensures
            res == self.code(),
    {
        match self {
            TapAverage::Tap2 => 2,
            TapAverage::Tap3 => 3,
            TapAverage::Tap4 => 4,
        }
    }

    /// The value that byte `b` stands for, if any.
    pub fn from_code(b: u8) -> (res: Option<Self>)
        ensures
            res == Self::of_code(b),
            res matches Some(v) ==> v.code() == b,
    {
        if b == 2 {
            Some(TapAverage::Tap2)
        } else if b == 3 {
            Some(TapAverage::Tap3)
        } else if b == 4 {
            Some(TapAverage::Tap4)
        } else {
            None
        }
    }

    /// A byte that stands for a value is that value's byte, and a value's
    /// byte stands for it.
    pub proof fn lemma_code(b: u8, v: Self)
        ensures
            Self::of_code(b) matches Some(x) ==> x.code() == b,
            Self::of_code(v.code()) == Some(v),
    {
    }

    /// Every value, in order.
    pub fn all() -> (res: Vec<Self>)
        ensures
            res@ == seq![TapAverage::Tap2, TapAverage::Tap3, TapAverage::Tap4],
    {
        let res = vec![TapAverage::Tap2, TapAverage::Tap3, TapAverage::Tap4];
        res
    }

}

impl From<TapAverage> for u8 {
    fn from(v: TapAverage) -> (res: u8) {
        v.as_u8()
    }
}

impl vstd::std_specs::convert::FromSpecImpl<TapAverage> for u8 {
    open spec fn obeys_from_spec() -> bool {
        true
    }

    open spec fn from_spec(v: TapAverage) -> u8 {
        v.code()
    }
}

impl TryFrom<u8> for TapAverage {
    type Error = u8;

    fn try_from(b: u8) -> (res: Result<Self, u8>) {
        match Self::from_code(b) {
            Some(v) => Ok(v),
            None => Err(b),
        }
    }
}

impl vstd::std_specs::convert::TryFromSpecImpl<u8> for TapAverage {
    open spec fn obeys_try_from_spec() -> bool {
        true
    }

    open spec fn try_from_spec(b: u8) -> Result<Self, u8> {
        match Self::of_code(b) {
            Some(v) => Ok(v),
            None => Err(b),
        }
    }
}

impl Default for TapAverage {
    fn default() -> (res: Self)
        ensures
            res == TapAverage::Tap3,
    {
        TapAverage::Tap3
    }
}

impl IntoEnumIterator for TapAverage {
    fn iter() -> std::vec::IntoIter<Self> {
        Self::all().into_iter()
    }
}

/// The velocity curve of the pads.
#[derive(Debug, Clone, Copy, PartialEq, Eq, Structural)]
pub enum PadCurve {
    Linear,
    SCurve,
    Log1,
    Log2,
    Exp1,
    Exp2,
}

impl PadCurve {
    /// The byte that stands for the value.
    pub open spec fn code(self) -> u8 {
        match self {
            PadCurve::Linear => 0,
            PadCurve::SCurve => 1,
            PadCurve::Log1 => 2,
            PadCurve::Log2 => 3,
            PadCurve::Exp1 => 4,
            PadCurve::Exp2 => 5,
        }
    }

    /// The value that byte `b` stands for, if any.
    pub open spec fn of_code(b: u8) -> Option<Self> {
        if b == 0 {
            Some(PadCurve::Linear)
        } else if b == 1 {
            Some(PadCurve::SCurve)
        } else if b == 2 {
            Some(PadCurve::Log1)
        } else if b == 3 {
            Some(PadCurve::Log2)
        } else if b == 4 {
            Some(PadCurve::Exp1)
        } else if b == 5 {
            Some(PadCurve::Exp2)
        } else {
            None
        }
    }

    /// The byte that stands for the value.
    pub fn as_u8(self) -> (res: u8)
        ensures
            res == self.code(),
    {
        match self {
            PadCurve::Linear => 0,
            PadCurve::SCurve => 1,
            PadCurve::Log1 => 2,
            PadCurve::Log2 => 3,
            PadCurve::Exp1 => 4,
            PadCurve::Exp2 => 5,
        }
    }

    /// The value that byte `b` stands for, if any.
    pub fn from_code(b: u8) -> (res: Option<Self>)
        ensures
            res == Self::of_code(b),
            res matches Some(v) ==> v.code() == b,
    {
        if b == 0 {
            Some(PadCurve::Linear)
        } else if b == 1 {
            Some(PadCurve::SCurve)
        } else if b == 2 {
            Some(PadCurve::Log1)
        } else if b == 3 {
            Some(PadCurve::Log2)
        } else if b == 4 {
            Some(PadCurve::Exp1)
        } else if b == 5 {
            Some(PadCurve::Exp2)
        } else {
            None
        }
    }

    /// A byte that stands for a value is that value's byte, and a value's
    /// byte stands for it.
    pub proof fn lemma_code(b: u8, v: Self)
        ensures
            Self::of_code(b) matches Some(x) ==> x.code() == b,
            Self::of_code(v.code()) == Some(v),
    {
    }

    /// Every value, in order.
    pub fn all() -> (res: Vec<Self>)
        ensures
            res@ == seq![PadCurve::Linear, PadCurve::SCurve, PadCurve::Log1, PadCurve::Log2, PadCurve::Exp1, PadCurve::Exp2],
    {
        let res = vec![PadCurve::Linear, PadCurve::SCurve, PadCurve::Log1, PadCurve::Log2, PadCurve::Exp1, PadCurve::Exp2];
        res
    }

}

impl From<PadCurve> for u8 {
    fn from(v: PadCurve) -> (res: u8) {
        v.as_u8()
    }
}

impl vstd::std_specs::convert::FromSpecImpl<PadCurve> for u8 {
    open spec fn obeys_from_spec() -> bool {
        true
    }

    open spec fn from_spec(v: PadCurve) -> u8 {
        v.code()
    }
}

impl TryFrom<u8> for PadCurve {
    type Error = u8;

    fn try_from(b: u8) -> (res: Result<Self, u8>) {
        match Self::from_code(b) {
            Some(v) => Ok(v),
            None => Err(b),
        }
    }
}

impl vstd::std_specs::convert::TryFromSpecImpl<u8> for PadCurve {
    open spec fn obeys_try_from_spec() -> bool {
        true
    }

    open spec fn try_from_spec(b: u8) -> Result<Self, u8> {
        match Self::of_code(b) {
            Some(v) => Ok(v),
            None => Err(b),
        }
    }
}

impl Default for PadCurve {
    fn default() -> (res: Self)
        ensures
            res == PadCurve::Linear,
    {
        PadCurve::Linear
    }
}

impl IntoEnumIterator for PadCurve {
    fn iter() -> std::vec::IntoIter<Self> {
        Self::all().into_iter()
    }
}

/// Where the MIDI clock comes from.
#[derive(Debug, Clone, Copy, PartialEq, Eq, Structural)]
pub enum MidiClock {
    Internal,
    External,
}

impl MidiClock {
    /// The byte that stands for the value.
    pub open spec fn code(self) -> u8 {
        match self {
            MidiClock::Internal => 0,
            MidiClock::External => 1,
        }
    }

    /// The value that byte `b` stands for, if any.
    pub open spec fn of_code(b: u8) -> Option<Self> {
        if b == 0 {
            Some(MidiClock::Internal)
        } else if b == 1 {
            Some(MidiClock::External)
        } else {
            None
        }
    }

    /// The byte that stands for the value.
    pub fn as_u8(self) -> (res: u8)
        ensures
            res == self.code(),
    {
        match self {
            MidiClock::Internal => 0,
            MidiClock::External => 1,
        }
    }

    /// The value that byte `b` stands for, if any.
    pub fn from_code(b: u8) -> (res: Option<Self>)
        ensures
            res == Self::of_code(b),
            res matches Some(v) ==> v.code() == b,
    {
        if b == 0 {
            Some(MidiClock::Internal)
        } else if b == 1 {
            Some(MidiClock::External)
        } else {
            None
        }
    }

    /// A byte that stands for a value is that value's byte, and a value's
    /// byte stands for it.
    pub proof fn lemma_code(b: u8, v: Self)
        ensures
            Self::of_code(b) matches Some(x) ==> x.code() == b,
            Self::of_code(v.code()) == Some(v),
    {
    }

    /// Every value, in order.
    pub fn all() -> (res: Vec<Self>)
        ensures
            res@ == seq![MidiClock::Internal, MidiClock::External],
    {
        let res = vec![MidiClock::Internal, MidiClock::External];
        res
    }

}

impl From<MidiClock> for u8 {
    fn from(v: MidiClock) -> (res: u8) {
        v.as_u8()
    }
}

impl vstd::std_specs::convert::FromSpecImpl<MidiClock> for u8 {
    open spec fn obeys_from_spec() -> bool {
        true
    }

    open spec fn from_spec(v: MidiClock) -> u8 {
        v.code()
    }
}

impl TryFrom<u8> for MidiClock {
    type Error = u8;

    fn try_from(b: u8) -> (res: Result<Self, u8>) {
        match Self::from_code(b) {
            Some(v) => Ok(v),
            None => Err(b),
        }
    }
}

impl vstd::std_specs::convert::TryFromSpecImpl<u8> for MidiClock {
    open spec fn obeys_try_from_spec() -> bool {
        true
    }

    open spec fn try_from_spec(b: u8) -> Result<Self, u8> {
        match Self::of_code(b) {
            Some(v) => Ok(v),
            None => Err(b),
        }
    }
}

impl Default for MidiClock {
    fn default() -> (res: Self)
        ensures
            res == MidiClock::Internal,
    {
        MidiClock::Internal
    }
}

impl IntoEnumIterator for MidiClock {
    fn iter() -> std::vec::IntoIter<Self> {
        Self::all().into_iter()
    }
}

/// The tempo a new preset starts with.
pub const DEFAULT_TEMPO: u16 = 120;

/// The eight characters of a preset name.
#[derive(Clone, Copy, Debug, PartialEq)]
pub struct PresetName(pub [u8; 8]);

impl Default for PresetName {
    /// "Midilab ".
    fn default() -> (res: Self)
        ensures
            res.0@ == seq![77u8, 105, 100, 105, 108, 97, 98, 32],
    {
        let res = Self([77u8, 105, 100, 105, 108, 97, 98, 32]);
        assert(res.0@ =~= seq![77u8, 105, 100, 105, 108, 97, 98, 32]);
        res
    }
}

impl PresetName {
    /// The stored bytes of the name.
    pub fn as_bytes(&self) -> (res: Vec<u8>)
        ensures
            res@ == self.0@,
    {
        let mut out: Vec<u8> = Vec::new();
        extend_bytes(&mut out, self.0.as_slice());
        out
    }
}

/// A tempo in beats per minute, sent as 14 bits.
#[derive(Clone, Copy, Debug, PartialEq)]
pub struct Tempo(pub u16);

impl Tempo {
    /// The tempo as two 7-bit bytes, high part first.
    pub fn to_packed_bytes(&self) -> (res: [u8; 2])
        ensures
            res@ == packed_u14(self.0),
    {
        pack_u14(self.0)
    }

    /// The tempo carried by two 7-bit bytes, high part first.
    pub fn from_packed_bytes(bytes: [u8; 2]) -> (res: Self)
        ensures
            res.0 == unpacked_u14(bytes@[0], bytes@[1]),
    {
        Self(unpack_u14(bytes))
    }
}

/// Packing a tempo and reading it back gives the tempo, for tempos below
/// 16384.
pub proof fn lemma_tempo_round_trip(t: Tempo)
    requires
        t.0 < 16384,
    ensures
        unpacked_u14(packed_u14(t.0)[0], packed_u14(t.0)[1]) == t.0,
{
    lemma_unpack_pack_u14(t.0);
}

impl Default for Tempo {
    fn default() -> (res: Self)
        ensures
            res.0 == 120,
    {
        Self(DEFAULT_TEMPO)
    }
}

/// A gate length, 1 ..= 99 percent.
#[derive(Clone, Copy, Debug, PartialEq)]
pub struct Gate {
    pub value: u8,
}

impl Gate {
    pub const MIN_CLAMP: u8 = 1;
    pub const MAX_CLAMP: u8 = 99;
}

impl From<u8> for Gate {
    /// `value` saturated to 1 ..= 99.
    fn from(value: u8) -> (res: Self) {
        let value = if value < Self::MIN_CLAMP {
            Self::MIN_CLAMP
        } else if value > Self::MAX_CLAMP {
            Self::MAX_CLAMP
        } else {
            value
        };
        Self { value }
    }
}

impl vstd::std_specs::convert::FromSpecImpl<u8> for Gate {
    open spec fn obeys_from_spec() -> bool {
        true
    }

    open spec fn from_spec(value: u8) -> Self {
        Gate { value: clamp_int(value as int, 1, 99) as u8 }
    }
}

impl From<Gate> for u8 {
    fn from(val: Gate) -> (res: u8) {
        val.value
    }
}

impl vstd::std_specs::convert::FromSpecImpl<Gate> for u8 {
    open spec fn obeys_from_spec() -> bool {
        true
    }

    open spec fn from_spec(val: Gate) -> u8 {
        val.value
    }
}

/// A colour as red, green and blue, 0 ..= 255 each.
#[derive(Copy, Clone, Debug)]
pub struct RGBColor(pub (u8, u8, u8));

impl std::ops::Deref for RGBColor {
    type Target = (u8, u8, u8);

    fn deref(&self) -> (res: &(u8, u8, u8))
        ensures
            *res == self.0,
    {
        &self.0
    }
}

/// The red, green and blue of a pad colour.
pub open spec fn rgb_of(c: PadColor) -> (u8, u8, u8) {
    match c {
        PadColor::Off => (0, 0, 0),
        PadColor::Red => (255, 0, 0),
        PadColor::Orange => (255, 100, 0),
        PadColor::Amber => (255, 176, 0),
        PadColor::Yellow => (255, 255, 0),
        PadColor::Green => (0, 255, 0),
        PadColor::GreenBlue => (0, 255, 128),
        PadColor::Aqua => (0, 255, 255),
        PadColor::LightBlue => (0, 176, 255),
        PadColor::Blue => (0, 0, 255),
        PadColor::Purple => (128, 0, 255),
        PadColor::Pink => (255, 105, 180),
        PadColor::HotPink => (255, 20, 147),
        PadColor::LightPurple => (200, 162, 255),
        PadColor::LightGreen => (128, 255, 128),
        PadColor::LightPink => (255, 182, 193),
        PadColor::Grey => (128, 128, 128),
    }
}

impl PadColor {
    /// The red, green and blue that the pad light shows.
    pub fn as_rgb_color(&self) -> (res: RGBColor)
        ensures
            res.0 == rgb_of(*self),
    {
        match self {
            Self::Off => RGBColor((0, 0, 0)),
            Self::Red => RGBColor((255, 0, 0)),
            Self::Orange => RGBColor((255, 100, 0)),
            Self::Amber => RGBColor((255, 176, 0)),
            Self::Yellow => RGBColor((255, 255, 0)),
            Self::Green => RGBColor((0, 255, 0)),
            Self::GreenBlue => RGBColor((0, 255, 128)),
            Self::Aqua => RGBColor((0, 255, 255)),
            Self::LightBlue => RGBColor((0, 176, 255)),
            Self::Blue => RGBColor((0, 0, 255)),
            Self::Purple => RGBColor((128, 0, 255)),
            Self::Pink => RGBColor((255, 105, 180)),
            Self::HotPink => RGBColor((255, 20, 147)),
            Self::LightPurple => RGBColor((200, 162, 255)),
            Self::LightGreen => RGBColor((128, 255, 128)),
            Self::LightPink => RGBColor((255, 182, 193)),
            Self::Grey => RGBColor((128, 128, 128)),
        }
    }
}

impl PresetSlot {
    /// The slot named by a preset acknowledgement: two bytes, the slot first.
    pub fn from_ack(value: &[u8]) -> (res: Result<Self, PresetParseError>)
        ensures
            value@.len() != 2 ==> (res matches Err(
                PresetParseError::PresetSettings(PresetSettingsParseError::PresetSlotData(d)),
            ) && d@ == value@),
            value@.len() == 2 ==> (match PresetSlot::of_code(value@[0]) {
                Some(s) => res == Ok::<PresetSlot, PresetParseError>(s),
                None => res matches Err(
                    PresetParseError::PresetSettings(PresetSettingsParseError::PresetSlot(b)),
                ) && b == value@[0],
            }),
    {
        if value.len() != 2 {
            let mut data: Vec<u8> = Vec::new();
            extend_bytes(&mut data, value);
            Err(PresetParseError::PresetSettings(PresetSettingsParseError::PresetSlotData(data)))
        } else {
            match PresetSlot::from_code(value[0]) {
                Some(s) => Ok(s),
                None => Err(
                    PresetParseError::PresetSettings(PresetSettingsParseError::PresetSlot(value[0])),
                ),
            }
        }
    }
}

/// The conversion goes through [`PresetSlot::from_ack`], whose contract
/// states the result. This spec impl opts out of the
/// std contract; the conversion's own `ensures` states the result.
impl<'a> vstd::std_specs::convert::TryFromSpecImpl<&'a [u8]> for PresetSlot {
    open spec fn obeys_try_from_spec() -> bool {
        false
    }

    closed spec fn try_from_spec(value: &'a [u8]) -> Result<Self, PresetParseError> {
        arbitrary()
    }
}

impl<'a> TryFrom<&'a [u8]> for PresetSlot {
    type Error = PresetParseError;

    fn try_from(value: &'a [u8]) -> (res: Result<Self, PresetParseError>)
        ensures
            value@.len() != 2 ==> (res matches Err(
                PresetParseError::PresetSettings(PresetSettingsParseError::PresetSlotData(d)),
            ) && d@ == value@),
            value@.len() == 2 ==> (match PresetSlot::of_code(value@[0]) {
                Some(s) => res == Ok::<PresetSlot, PresetParseError>(s),
                None => res matches Err(
                    PresetParseError::PresetSettings(PresetSettingsParseError::PresetSlot(b)),
                ) && b == value@[0],
            }),
    {
        PresetSlot::from_ack(value)
    }
}


/// The byte of a [`MidiChannel`] is its place in declaration order, and exactly
/// the bytes below 33 stand for a variant, the one in that place.
pub proof fn lemma_midi_channel_code_is_place(v: MidiChannel, b: u8)
    ensures
        v.code() == v as u8,
        (MidiChannel::of_code(b) is Some) == (b < 33),
        MidiChannel::of_code(b) matches Some(w) ==> w as u8 == b,
{
}

/// The byte of a [`UsbChannel`] is its place in declaration order, and exactly
/// the bytes below 32 stand for a variant, the one in that place.
pub proof fn lemma_usb_channel_code_is_place(v: UsbChannel, b: u8)
    ensures
        v.code() == v as u8,
        (UsbChannel::of_code(b) is Some) == (b < 32),
        UsbChannel::of_code(b) matches Some(w) ==> w as u8 == b,
{
}

/// The byte of a [`SwitchKind`] is its place in declaration order, and exactly
/// the bytes below 5 stand for a variant, the one in that place.
pub proof fn lemma_switch_kind_code_is_place(v: SwitchKind, b: u8)
    ensures
        v.code() == v as u8,
        (SwitchKind::of_code(b) is Some) == (b < 5),
        SwitchKind::of_code(b) matches Some(w) ==> w as u8 == b,
{
}

/// The byte of a [`KeyModifier`] is its place in declaration order, and exactly
/// the bytes below 14 stand for a variant, the one in that place.
pub proof fn lemma_key_modifier_code_is_place(v: KeyModifier, b: u8)
    ensures
        v.code() == v as u8,
        (KeyModifier::of_code(b) is Some) == (b < 14),
        KeyModifier::of_code(b) matches Some(w) ==> w as u8 == b,
{
}

/// The byte of a [`PresetSlot`] is its place in declaration order, and exactly
/// the bytes below 21 stand for a variant, the one in that place.
pub proof fn lemma_preset_slot_code_is_place(v: PresetSlot, b: u8)
    ensures
        v.code() == v as u8,
        (PresetSlot::of_code(b) is Some) == (b < 21),
        PresetSlot::of_code(b) matches Some(w) ==> w as u8 == b,
{
}

/// The byte of a [`TriggerKind`] is its place in declaration order, and exactly
/// the bytes below 2 stand for a variant, the one in that place.
pub proof fn lemma_trigger_kind_code_is_place(v: TriggerKind, b: u8)
    ensures
        v.code() == v as u8,
        (TriggerKind::of_code(b) is Some) == (b < 2),
        TriggerKind::of_code(b) matches Some(w) ==> w as u8 == b,
{
}

/// The byte of a [`TimeDivision`] is its place in declaration order, and exactly
/// the bytes below 8 stand for a variant, the one in that place.
pub proof fn lemma_time_division_code_is_place(v: TimeDivision, b: u8)
    ensures
        v.code() == v as u8,
        (TimeDivision::of_code(b) is Some) == (b < 8),
        TimeDivision::of_code(b) matches Some(w) ==> w as u8 == b,
{
}

/// The byte of a [`SwingKind`] is 50 plus its place in declaration order, and
/// exactly the bytes from 50 to 75 stand for a variant.
pub proof fn lemma_swing_kind_code_is_place(v: SwingKind, b: u8)
    ensures
        v.code() == v as u8 + 50,
        (SwingKind::of_code(b) is Some) == (50 <= b < 76),
        SwingKind::of_code(b) matches Some(w) ==> w as u8 + 50 == b,
{
}

/// The byte of a [`TransportKind`] is its place in declaration order, and exactly
/// the bytes below 5 stand for a variant, the one in that place.
pub proof fn lemma_transport_kind_code_is_place(v: TransportKind, b: u8)
    ensures
        v.code() == v as u8,
        (TransportKind::of_code(b) is Some) == (b < 5),
        TransportKind::of_code(b) matches Some(w) ==> w as u8 == b,
{
}

/// The byte of a [`PadKind`] is its place in declaration order, and exactly
/// the bytes below 3 stand for a variant, the one in that place.
pub proof fn lemma_pad_kind_code_is_place(v: PadKind, b: u8)
    ensures
        v.code() == v as u8,
        (PadKind::of_code(b) is Some) == (b < 3),
        PadKind::of_code(b) matches Some(w) ==> w as u8 == b,
{
}

/// The byte of a [`AfterTouchKind`] is its place in declaration order, and exactly
/// the bytes below 3 stand for a variant, the one in that place.
pub proof fn lemma_after_touch_kind_code_is_place(v: AfterTouchKind, b: u8)
    ensures
        v.code() == v as u8,
        (AfterTouchKind::of_code(b) is Some) == (b < 3),
        AfterTouchKind::of_code(b) matches Some(w) ==> w as u8 == b,
{
}

/// The byte of a [`PadColor`] is its place in declaration order, and exactly
/// the bytes below 17 stand for a variant, the one in that place.
pub proof fn lemma_pad_color_code_is_place(v: PadColor, b: u8)
    ensures
        v.code() == v as u8,
        (PadColor::of_code(b) is Some) == (b < 17),
        PadColor::of_code(b) matches Some(w) ==> w as u8 == b,
{
}

/// The byte of a [`FaderKind`] is its place in declaration order, and exactly
/// the bytes below 2 stand for a variant, the one in that place.
pub proof fn lemma_fader_kind_code_is_place(v: FaderKind, b: u8)
    ensures
        v.code() == v as u8,
        (FaderKind::of_code(b) is Some) == (b < 2),
        FaderKind::of_code(b) matches Some(w) ==> w as u8 == b,
{
}

/// The byte of a [`DialKind`] is its place in declaration order, and exactly
/// the bytes below 4 stand for a variant, the one in that place.
pub proof fn lemma_dial_kind_code_is_place(v: DialKind, b: u8)
    ensures
        v.code() == v as u8,
        (DialKind::of_code(b) is Some) == (b < 4),
        DialKind::of_code(b) matches Some(w) ==> w as u8 == b,
{
}

/// The byte of a [`ActiveState`] is its place in declaration order, and exactly
/// the bytes below 2 stand for a variant, the one in that place.
pub proof fn lemma_active_state_code_is_place(v: ActiveState, b: u8)
    ensures
        v.code() == v as u8,
        (ActiveState::of_code(b) is Some) == (b < 2),
        ActiveState::of_code(b) matches Some(w) ==> w as u8 == b,
{
}

/// The byte of a [`NoteDisplay`] is its place in declaration order, and exactly
/// the bytes below 2 stand for a variant, the one in that place.
pub proof fn lemma_note_display_code_is_place(v: NoteDisplay, b: u8)
    ensures
        v.code() == v as u8,
        (NoteDisplay::of_code(b) is Some) == (b < 2),
        NoteDisplay::of_code(b) matches Some(w) ==> w as u8 == b,
{
}

/// The byte of a [`TapAverage`] is 2 plus its place in declaration order, and
/// exactly the bytes from 2 to 4 stand for a variant.
pub proof fn lemma_tap_average_code_is_place(v: TapAverage, b: u8)
    ensures
        v.code() == v as u8 + 2,
        (TapAverage::of_code(b) is Some) == (2 <= b < 5),
        TapAverage::of_code(b) matches Some(w) ==> w as u8 + 2 == b,
{
}

/// The byte of a [`PadCurve`] is its place in declaration order, and exactly
/// the bytes below 6 stand for a variant, the one in that place.
pub proof fn lemma_pad_curve_code_is_place(v: PadCurve, b: u8)
    ensures
        v.code() == v as u8,
        (PadCurve::of_code(b) is Some) == (b < 6),
        PadCurve::of_code(b) matches Some(w) ==> w as u8 == b,
{
}

/// The byte of a [`MidiClock`] is its place in declaration order, and exactly
/// the bytes below 2 stand for a variant, the one in that place.
pub proof fn lemma_midi_clock_code_is_place(v: MidiClock, b: u8)
    ensures
        v.code() == v as u8,
        (MidiClock::of_code(b) is Some) == (b < 2),
        MidiClock::of_code(b) matches Some(w) ==> w as u8 == b,
{
}

} // verus!
