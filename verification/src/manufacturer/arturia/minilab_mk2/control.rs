//! The controls of the MiniLab mkII.

use vstd::prelude::*;

use crate::IntoEnumIterator;
use crate::manufacturer::arturia::minilab_mk2::ParamId;
use crate::manufacturer::arturia::minilab_mk2::raw::RawControl;
use crate::manufacturer::arturia::minilab_mk2::raw::RawPad;
use crate::midi::Note;
use crate::midi::Value;
use crate::midi::clamp_midi;
use crate::midi::lemma_number_of_note;

pub mod value_kind;

verus! {

/// A control of the MiniLab mkII, by the byte that addresses it.
#[derive(Debug, Clone, Copy, PartialEq, Eq, Hash, Structural)]
pub enum ControlId {
    Knob2,
    Knob3,
    Knob4,
    Knob5,
    Knob6,
    Knob7,
    Knob8,
    Knob10,
    Knob11,
    Knob12,
    Knob13,
    Knob14,
    Knob15,
    Knob16,
    OctaveMinus,
    OctavePlus,
    Knob1,
    Knob1Switch,
    Knob1Shift,
    Knob9,
    Knob9Switch,
    Knob9Shift,
    ModWheel,
    PitchBend,
    SustainPedal,
    Pad1,
    Pad2,
    Pad3,
    Pad4,
    Pad5,
    Pad6,
    Pad7,
    Pad8,
    Pad9,
    Pad10,
    Pad11,
    Pad12,
    Pad13,
    Pad14,
    Pad15,
    Pad16,
}

impl ControlId {
    /// The byte that stands for the value.
    pub open spec fn code(self) -> u8 {
        match self {
            ControlId::Knob2 => 1,
            ControlId::Knob3 => 2,
            ControlId::Knob4 => 3,
            ControlId::Knob5 => 4,
            ControlId::Knob6 => 5,
            ControlId::Knob7 => 6,
            ControlId::Knob8 => 7,
            ControlId::Knob10 => 8,
            ControlId::Knob11 => 9,
            ControlId::Knob12 => 10,
            ControlId::Knob13 => 11,
            ControlId::Knob14 => 12,
            ControlId::Knob15 => 13,
            ControlId::Knob16 => 14,
            ControlId::OctaveMinus => 16,
            ControlId::OctavePlus => 17,
            ControlId::Knob1 => 48,
            ControlId::Knob1Switch => 49,
            ControlId::Knob1Shift => 50,
            ControlId::Knob9 => 51,
            ControlId::Knob9Switch => 52,
            ControlId::Knob9Shift => 53,
            ControlId::ModWheel => 64,
            ControlId::PitchBend => 65,
            ControlId::SustainPedal => 80,
            ControlId::Pad1 => 112,
            ControlId::Pad2 => 113,
            ControlId::Pad3 => 114,
            ControlId::Pad4 => 115,
            ControlId::Pad5 => 116,
            ControlId::Pad6 => 117,
            ControlId::Pad7 => 118,
            ControlId::Pad8 => 119,
            ControlId::Pad9 => 120,
            ControlId::Pad10 => 121,
            ControlId::Pad11 => 122,
            ControlId::Pad12 => 123,
            ControlId::Pad13 => 124,
            ControlId::Pad14 => 125,
            ControlId::Pad15 => 126,
            ControlId::Pad16 => 127,
        }
    }

    /// The value that byte `b` stands for, if any.
    pub open spec fn of_code(b: u8) -> Option<Self> {
        if b == 1 {
            Some(ControlId::Knob2)
        } else if b == 2 {
            Some(ControlId::Knob3)
        } else if b == 3 {
            Some(ControlId::Knob4)
        } else if b == 4 {
            Some(ControlId::Knob5)
        } else if b == 5 {
            Some(ControlId::Knob6)
        } else if b == 6 {
            Some(ControlId::Knob7)
        } else if b == 7 {
            Some(ControlId::Knob8)
        } else if b == 8 {
            Some(ControlId::Knob10)
        } else if b == 9 {
            Some(ControlId::Knob11)
        } else if b == 10 {
            Some(ControlId::Knob12)
        } else if b == 11 {
            Some(ControlId::Knob13)
        } else if b == 12 {
            Some(ControlId::Knob14)
        } else if b == 13 {
            Some(ControlId::Knob15)
        } else if b == 14 {
            Some(ControlId::Knob16)
        } else if b == 16 {
            Some(ControlId::OctaveMinus)
        } else if b == 17 {
            Some(ControlId::OctavePlus)
        } else if b == 48 {
            Some(ControlId::Knob1)
        } else if b == 49 {
            Some(ControlId::Knob1Switch)
        } else if b == 50 {
            Some(ControlId::Knob1Shift)
        } else if b == 51 {
            Some(ControlId::Knob9)
        } else if b == 52 {
            Some(ControlId::Knob9Switch)
        } else if b == 53 {
            Some(ControlId::Knob9Shift)
        } else if b == 64 {
            Some(ControlId::ModWheel)
        } else if b == 65 {
            Some(ControlId::PitchBend)
        } else if b == 80 {
            Some(ControlId::SustainPedal)
        } else if b == 112 {
            Some(ControlId::Pad1)
        } else if b == 113 {
            Some(ControlId::Pad2)
        } else if b == 114 {
            Some(ControlId::Pad3)
        } else if b == 115 {
            Some(ControlId::Pad4)
        } else if b == 116 {
            Some(ControlId::Pad5)
        } else if b == 117 {
            Some(ControlId::Pad6)
        } else if b == 118 {
            Some(ControlId::Pad7)
        } else if b == 119 {
            Some(ControlId::Pad8)
        } else if b == 120 {
            Some(ControlId::Pad9)
        } else if b == 121 {
            Some(ControlId::Pad10)
        } else if b == 122 {
            Some(ControlId::Pad11)
        } else if b == 123 {
            Some(ControlId::Pad12)
        } else if b == 124 {
            Some(ControlId::Pad13)
        } else if b == 125 {
            Some(ControlId::Pad14)
        } else if b == 126 {
            Some(ControlId::Pad15)
        } else if b == 127 {
            Some(ControlId::Pad16)
        } else {
            None
        }
    }

    /// The byte that stands for the value.
    pub fn as_u8(self) -> (res: u8)
        ensures
            res == self.code(),
    {
        match self {
            ControlId::Knob2 => 1,
            ControlId::Knob3 => 2,
            ControlId::Knob4 => 3,
            ControlId::Knob5 => 4,
            ControlId::Knob6 => 5,
            ControlId::Knob7 => 6,
            ControlId::Knob8 => 7,
            ControlId::Knob10 => 8,
            ControlId::Knob11 => 9,
            ControlId::Knob12 => 10,
            ControlId::Knob13 => 11,
            ControlId::Knob14 => 12,
            ControlId::Knob15 => 13,
            ControlId::Knob16 => 14,
            ControlId::OctaveMinus => 16,
            ControlId::OctavePlus => 17,
            ControlId::Knob1 => 48,
            ControlId::Knob1Switch => 49,
            ControlId::Knob1Shift => 50,
            ControlId::Knob9 => 51,
            ControlId::Knob9Switch => 52,
            ControlId::Knob9Shift => 53,
            ControlId::ModWheel => 64,
            ControlId::PitchBend => 65,
            ControlId::SustainPedal => 80,
            ControlId::Pad1 => 112,
            ControlId::Pad2 => 113,
            ControlId::Pad3 => 114,
            ControlId::Pad4 => 115,
            ControlId::Pad5 => 116,
            ControlId::Pad6 => 117,
            ControlId::Pad7 => 118,
            ControlId::Pad8 => 119,
            ControlId::Pad9 => 120,
            ControlId::Pad10 => 121,
            ControlId::Pad11 => 122,
            ControlId::Pad12 => 123,
            ControlId::Pad13 => 124,
            ControlId::Pad14 => 125,
            ControlId::Pad15 => 126,
            ControlId::Pad16 => 127,
        }
    }

    /// The value that byte `b` stands for, if any.
    pub fn from_code(b: u8) -> (res: Option<Self>)
        ensures
            res == Self::of_code(b),
            res matches Some(v) ==> v.code() == b,
    {
        if b == 1 {
            Some(ControlId::Knob2)
        } else if b == 2 {
            Some(ControlId::Knob3)
        } else if b == 3 {
            Some(ControlId::Knob4)
        } else if b == 4 {
            Some(ControlId::Knob5)
        } else if b == 5 {
            Some(ControlId::Knob6)
        } else if b == 6 {
            Some(ControlId::Knob7)
        } else if b == 7 {
            Some(ControlId::Knob8)
        } else if b == 8 {
            Some(ControlId::Knob10)
        } else if b == 9 {
            Some(ControlId::Knob11)
        } else if b == 10 {
            Some(ControlId::Knob12)
        } else if b == 11 {
            Some(ControlId::Knob13)
        } else if b == 12 {
            Some(ControlId::Knob14)
        } else if b == 13 {
            Some(ControlId::Knob15)
        } else if b == 14 {
            Some(ControlId::Knob16)
        } else if b == 16 {
            Some(ControlId::OctaveMinus)
        } else if b == 17 {
            Some(ControlId::OctavePlus)
        } else if b == 48 {
            Some(ControlId::Knob1)
        } else if b == 49 {
            Some(ControlId::Knob1Switch)
        } else if b == 50 {
            Some(ControlId::Knob1Shift)
        } else if b == 51 {
            Some(ControlId::Knob9)
        } else if b == 52 {
            Some(ControlId::Knob9Switch)
        } else if b == 53 {
            Some(ControlId::Knob9Shift)
        } else if b == 64 {
            Some(ControlId::ModWheel)
        } else if b == 65 {
            Some(ControlId::PitchBend)
        } else if b == 80 {
            Some(ControlId::SustainPedal)
        } else if b == 112 {
            Some(ControlId::Pad1)
        } else if b == 113 {
            Some(ControlId::Pad2)
        } else if b == 114 {
            Some(ControlId::Pad3)
        } else if b == 115 {
            Some(ControlId::Pad4)
        } else if b == 116 {
            Some(ControlId::Pad5)
        } else if b == 117 {
            Some(ControlId::Pad6)
        } else if b == 118 {
            Some(ControlId::Pad7)
        } else if b == 119 {
            Some(ControlId::Pad8)
        } else if b == 120 {
            Some(ControlId::Pad9)
        } else if b == 121 {
            Some(ControlId::Pad10)
        } else if b == 122 {
            Some(ControlId::Pad11)
        } else if b == 123 {
            Some(ControlId::Pad12)
        } else if b == 124 {
            Some(ControlId::Pad13)
        } else if b == 125 {
            Some(ControlId::Pad14)
        } else if b == 126 {
            Some(ControlId::Pad15)
        } else if b == 127 {
            Some(ControlId::Pad16)
        } else {
            None
        }
    }

    /// A byte that stands for a value is that value's byte, and a value's
    /// byte stands for it.
    pub proof fn lemma_code(b: u8, v: Self)
        ensures
            Self::of_code(b) matches Some(x) ==> x.code() == b,
            Self::of_code(v.code()) == Some(v),
    {
    }

    /// Every value, in order.
    pub fn all() -> (res: Vec<Self>)
        ensures
            res@ == seq![ControlId::Knob2, ControlId::Knob3, ControlId::Knob4, ControlId::Knob5, ControlId::Knob6, ControlId::Knob7, ControlId::Knob8, ControlId::Knob10, ControlId::Knob11, ControlId::Knob12, ControlId::Knob13, ControlId::Knob14, ControlId::Knob15, ControlId::Knob16, ControlId::OctaveMinus, ControlId::OctavePlus, ControlId::Knob1, ControlId::Knob1Switch, ControlId::Knob1Shift, ControlId::Knob9, ControlId::Knob9Switch, ControlId::Knob9Shift, ControlId::ModWheel, ControlId::PitchBend, ControlId::SustainPedal, ControlId::Pad1, ControlId::Pad2, ControlId::Pad3, ControlId::Pad4, ControlId::Pad5, ControlId::Pad6, ControlId::Pad7, ControlId::Pad8, ControlId::Pad9, ControlId::Pad10, ControlId::Pad11, ControlId::Pad12, ControlId::Pad13, ControlId::Pad14, ControlId::Pad15, ControlId::Pad16],
    {
        let res = vec![ControlId::Knob2, ControlId::Knob3, ControlId::Knob4, ControlId::Knob5, ControlId::Knob6, ControlId::Knob7, ControlId::Knob8, ControlId::Knob10, ControlId::Knob11, ControlId::Knob12, ControlId::Knob13, ControlId::Knob14, ControlId::Knob15, ControlId::Knob16, ControlId::OctaveMinus, ControlId::OctavePlus, ControlId::Knob1, ControlId::Knob1Switch, ControlId::Knob1Shift, ControlId::Knob9, ControlId::Knob9Switch, ControlId::Knob9Shift, ControlId::ModWheel, ControlId::PitchBend, ControlId::SustainPedal, ControlId::Pad1, ControlId::Pad2, ControlId::Pad3, ControlId::Pad4, ControlId::Pad5, ControlId::Pad6, ControlId::Pad7, ControlId::Pad8, ControlId::Pad9, ControlId::Pad10, ControlId::Pad11, ControlId::Pad12, ControlId::Pad13, ControlId::Pad14, ControlId::Pad15, ControlId::Pad16];
        res
    }

}

impl From<ControlId> for u8 {
    fn from(v: ControlId) -> (res: u8) {
        v.as_u8()
    }
}

impl vstd::std_specs::convert::FromSpecImpl<ControlId> for u8 {
    open spec fn obeys_from_spec() -> bool {
        true
    }

    open spec fn from_spec(v: ControlId) -> u8 {
        v.code()
    }
}

impl TryFrom<u8> for ControlId {
    type Error = u8;

    fn try_from(b: u8) -> (res: Result<Self, u8>) {
        match Self::from_code(b) {
            Some(v) => Ok(v),
            None => Err(b),
        }
    }
}

impl vstd::std_specs::convert::TryFromSpecImpl<u8> for ControlId {
    open spec fn obeys_try_from_spec() -> bool {
        true
    }

    open spec fn try_from_spec(b: u8) -> Result<Self, u8> {
        match Self::of_code(b) {
            Some(v) => Ok(v),
            None => Err(b),
        }
    }
}

impl IntoEnumIterator for ControlId {
    fn iter() -> std::vec::IntoIter<Self> {
        Self::all().into_iter()
    }
}

impl ControlId {
    /// The sixteen knobs, in order.
    pub open spec fn knobs_spec() -> Seq<ControlId> {
        seq![ControlId::Knob1, ControlId::Knob2, ControlId::Knob3, ControlId::Knob4, ControlId::Knob5, ControlId::Knob6, ControlId::Knob7, ControlId::Knob8, ControlId::Knob9, ControlId::Knob10, ControlId::Knob11, ControlId::Knob12, ControlId::Knob13, ControlId::Knob14, ControlId::Knob15, ControlId::Knob16]
    }

    /// The sixteen knobs, in order.
    pub fn knobs() -> (res: [ControlId; 16])
        ensures
            res@ == Self::knobs_spec(),
    {
        let res = [ControlId::Knob1, ControlId::Knob2, ControlId::Knob3, ControlId::Knob4, ControlId::Knob5, ControlId::Knob6, ControlId::Knob7, ControlId::Knob8, ControlId::Knob9, ControlId::Knob10, ControlId::Knob11, ControlId::Knob12, ControlId::Knob13, ControlId::Knob14, ControlId::Knob15, ControlId::Knob16];
        assert(res@ =~= Self::knobs_spec());
        res
    }

    /// The two knobs as turned with shift held, in order.
    pub open spec fn shift_knobs_spec() -> Seq<ControlId> {
        seq![ControlId::Knob1Shift, ControlId::Knob9Shift]
    }

    /// The two knobs as turned with shift held, in order.
    pub fn shift_knobs() -> (res: [ControlId; 2])
        ensures
            res@ == Self::shift_knobs_spec(),
    {
        let res = [ControlId::Knob1Shift, ControlId::Knob9Shift];
        assert(res@ =~= Self::shift_knobs_spec());
        res
    }

    /// The four buttons, in order.
    pub open spec fn buttons_spec() -> Seq<ControlId> {
        seq![ControlId::Knob1Switch, ControlId::Knob9Switch, ControlId::OctaveMinus, ControlId::OctavePlus]
    }

    /// The four buttons, in order.
    pub fn buttons() -> (res: [ControlId; 4])
        ensures
            res@ == Self::buttons_spec(),
    {
        let res = [ControlId::Knob1Switch, ControlId::Knob9Switch, ControlId::OctaveMinus, ControlId::OctavePlus];
        assert(res@ =~= Self::buttons_spec());
        res
    }

    /// The sixteen pads, in order.
    pub open spec fn pads_spec() -> Seq<ControlId> {
        seq![ControlId::Pad1, ControlId::Pad2, ControlId::Pad3, ControlId::Pad4, ControlId::Pad5, ControlId::Pad6, ControlId::Pad7, ControlId::Pad8, ControlId::Pad9, ControlId::Pad10, ControlId::Pad11, ControlId::Pad12, ControlId::Pad13, ControlId::Pad14, ControlId::Pad15, ControlId::Pad16]
    }

    /// The sixteen pads, in order.
    pub fn pads() -> (res: [ControlId; 16])
        ensures
            res@ == Self::pads_spec(),
    {
        let res = [ControlId::Pad1, ControlId::Pad2, ControlId::Pad3, ControlId::Pad4, ControlId::Pad5, ControlId::Pad6, ControlId::Pad7, ControlId::Pad8, ControlId::Pad9, ControlId::Pad10, ControlId::Pad11, ControlId::Pad12, ControlId::Pad13, ControlId::Pad14, ControlId::Pad15, ControlId::Pad16];
        assert(res@ =~= Self::pads_spec());
        res
    }
}

/// A control's stored parameters with every data byte cut to a MIDI value,
/// as a control read from them keeps them; mode and channel codes are kept
/// as they are.
pub open spec fn clamped_control(raw: RawControl) -> RawControl {
    RawControl {
        mode: raw.mode,
        channel: raw.channel,
        data1: clamp_midi(raw.data1),
        data2: clamp_midi(raw.data2),
        data3: clamp_midi(raw.data3),
        option: clamp_midi(raw.option),
    }
}

/// A pad's stored parameters with every data byte cut to a MIDI value; mode,
/// channel and colour codes are kept as they are.
pub open spec fn clamped_pad(raw: RawPad) -> RawPad {
    RawPad {
        mode: raw.mode,
        channel: raw.channel,
        data1: clamp_midi(raw.data1),
        data2: clamp_midi(raw.data2),
        data3: clamp_midi(raw.data3),
        option: clamp_midi(raw.option),
        color: raw.color,
    }
}

/// The six parameters of a control with their bytes: mode, channel, the
/// three data bytes and the option byte.
pub open spec fn six_pairs(r: RawControl) -> Seq<(ParamId, u8)> {
    seq![
        (ParamId::Mode, r.mode),
        (ParamId::Channel, r.channel),
        (ParamId::Data1, r.data1),
        (ParamId::Data2, r.data2),
        (ParamId::Data3, r.data3),
        (ParamId::Option, r.option),
    ]
}

fn six_pairs_of(r: RawControl) -> (res: Vec<(ParamId, u8)>)
    ensures
        res@ == six_pairs(r),
{
    let res = vec![
        (ParamId::Mode, r.mode),
        (ParamId::Channel, r.channel),
        (ParamId::Data1, r.data1),
        (ParamId::Data2, r.data2),
        (ParamId::Data3, r.data3),
        (ParamId::Option, r.option),
    ];
    assert(res@ =~= six_pairs(r));
    res
}

/// A knob: the control it is, its mode and MIDI channel as their stored
/// codes, its controller number, its range and its option byte.
#[derive(Clone, Copy, Debug, PartialEq, Eq)]
pub struct Knob {
    pub id: ControlId,
    pub mode: u8,
    pub channel: u8,
    pub cc: Value,
    pub min: Value,
    pub max: Value,
    pub option: Value,
}

impl Knob {
    /// Whether every value of the knob is a MIDI value.
    pub open spec fn wf(self) -> bool {
        self.cc.wf() && self.min.wf() && self.max.wf() && self.option.wf()
    }

    /// A knob with MIDI values is stored as it reads back, and two knobs of
    /// one control with the same stored parameters are equal.
    pub proof fn lemma_raw(a: Self, b: Self)
        ensures
            a.wf() ==> clamped_control(a.raw_spec()) == a.raw_spec(),
            a.id == b.id && a.raw_spec() == b.raw_spec() ==> a == b,
    {
        Value::lemma_view(a.cc, b.cc);
        Value::lemma_view(a.min, b.min);
        Value::lemma_view(a.max, b.max);
        Value::lemma_view(a.option, b.option);
    }

    /// The stored parameters of the knob.
    pub open spec fn raw_spec(self) -> RawControl {
        RawControl {
            mode: self.mode,
            channel: self.channel,
            data1: self.cc@,
            data2: self.min@,
            data3: self.max@,
            option: self.option@,
        }
    }

    /// The stored parameters of the knob.
    pub fn to_raw(&self) -> (res: RawControl)
        ensures
            res == self.raw_spec(),
    {
        RawControl {
            mode: self.mode,
            channel: self.channel,
            data1: self.cc.as_u8(),
            data2: self.min.as_u8(),
            data3: self.max.as_u8(),
            option: self.option.as_u8(),
        }
    }

    /// Knob `id` as stored parameters describe it; a data byte above 127
    /// reads as 127.
    pub fn from_raw(id: ControlId, raw: RawControl) -> (res: Self)
        ensures
            res.id == id,
            res.raw_spec() == clamped_control(raw),
    {
        Knob {
            id,
            mode: raw.mode,
            channel: raw.channel,
            cc: Value::new(raw.data1),
            min: Value::new(raw.data2),
            max: Value::new(raw.data3),
            option: Value::new(raw.option),
        }
    }

    /// The knob's parameters with their bytes, in the order they are sent.
    pub fn param_pairs(&self) -> (res: Vec<(ParamId, u8)>)
        ensures
            res@ == six_pairs(self.raw_spec()),
    {
        six_pairs_of(self.to_raw())
    }
}

/// A button: the control it is, its mode and MIDI channel as their stored
/// codes, its note, the values it sends when released and pressed, and its
/// option byte.
#[derive(Clone, Copy, Debug, PartialEq, Eq)]
pub struct Button {
    pub id: ControlId,
    pub mode: u8,
    pub channel: u8,
    pub note: Note,
    pub off_value: Value,
    pub on_value: Value,
    pub option: Value,
}

impl Button {
    /// Whether every value of the button is a MIDI value.
    pub open spec fn wf(self) -> bool {
        self.off_value.wf() && self.on_value.wf() && self.option.wf()
    }

    /// A button with MIDI values is stored as it reads back, and two buttons
    /// of one control with the same stored parameters are equal.
    pub proof fn lemma_raw(a: Self, b: Self)
        ensures
            a.wf() ==> clamped_control(a.raw_spec()) == a.raw_spec(),
            a.id == b.id && a.raw_spec() == b.raw_spec() ==> a == b,
    {
        Value::lemma_view(a.off_value, b.off_value);
        Value::lemma_view(a.on_value, b.on_value);
        Value::lemma_view(a.option, b.option);
        lemma_number_of_note(a.note);
        lemma_number_of_note(b.note);
    }

    /// The stored parameters of the button.
    pub open spec fn raw_spec(self) -> RawControl {
        RawControl {
            mode: self.mode,
            channel: self.channel,
            data1: self.note as u8,
            data2: self.off_value@,
            data3: self.on_value@,
            option: self.option@,
        }
    }

    /// The stored parameters of the button.
    pub fn to_raw(&self) -> (res: RawControl)
        ensures
            res == self.raw_spec(),
    {
        RawControl {
            mode: self.mode,
            channel: self.channel,
            data1: self.note.as_u8(),
            data2: self.off_value.as_u8(),
            data3: self.on_value.as_u8(),
            option: self.option.as_u8(),
        }
    }

    /// Button `id` as stored parameters describe it; a data byte above 127
    /// reads as 127.
    pub fn from_raw(id: ControlId, raw: RawControl) -> (res: Self)
        ensures
            res.id == id,
            res.raw_spec() == clamped_control(raw),
    {
        Button {
            id,
            mode: raw.mode,
            channel: raw.channel,
            note: Note::from_u8(raw.data1),
            off_value: Value::new(raw.data2),
            on_value: Value::new(raw.data3),
            option: Value::new(raw.option),
        }
    }

    /// The button's parameters with their bytes, in the order they are sent.
    pub fn param_pairs(&self) -> (res: Vec<(ParamId, u8)>)
        ensures
            res@ == six_pairs(self.raw_spec()),
    {
        six_pairs_of(self.to_raw())
    }
}

/// The mod wheel: its mode and MIDI channel as their stored codes, its
/// controller number, its range and its option byte.
#[derive(Clone, Copy, Debug, PartialEq, Eq)]
pub struct ModWheel {
    pub mode: u8,
    pub channel: u8,
    pub cc: Value,
    pub min: Value,
    pub max: Value,
    pub option: Value,
}

impl ModWheel {
    /// Whether every value of the mod wheel is a MIDI value.
    pub open spec fn wf(self) -> bool {
        self.cc.wf() && self.min.wf() && self.max.wf() && self.option.wf()
    }

    /// A mod wheel with MIDI values is stored as it reads back, and two mod
    /// wheels with the same stored parameters are equal.
    pub proof fn lemma_raw(a: Self, b: Self)
        ensures
            a.wf() ==> clamped_control(a.raw_spec()) == a.raw_spec(),
            a.raw_spec() == b.raw_spec() ==> a == b,
    {
        Value::lemma_view(a.cc, b.cc);
        Value::lemma_view(a.min, b.min);
        Value::lemma_view(a.max, b.max);
        Value::lemma_view(a.option, b.option);
    }

    /// The stored parameters of the mod wheel.
    pub open spec fn raw_spec(self) -> RawControl {
        RawControl {
            mode: self.mode,
            channel: self.channel,
            data1: self.cc@,
            data2: self.min@,
            data3: self.max@,
            option: self.option@,
        }
    }

    /// The stored parameters of the mod wheel.
    pub fn to_raw(&self) -> (res: RawControl)
        ensures
            res == self.raw_spec(),
    {
        RawControl {
            mode: self.mode,
            channel: self.channel,
            data1: self.cc.as_u8(),
            data2: self.min.as_u8(),
            data3: self.max.as_u8(),
            option: self.option.as_u8(),
        }
    }

    /// The mod wheel as stored parameters describe it; a data byte above 127
    /// reads as 127.
    pub fn from_raw(raw: RawControl) -> (res: Self)
        ensures
            res.raw_spec() == clamped_control(raw),
    {
        ModWheel {
            mode: raw.mode,
            channel: raw.channel,
            cc: Value::new(raw.data1),
            min: Value::new(raw.data2),
            max: Value::new(raw.data3),
            option: Value::new(raw.option),
        }
    }

    /// The mod wheel's parameters with their bytes, in the order they are
    /// sent.
    pub fn param_pairs(&self) -> (res: Vec<(ParamId, u8)>)
        ensures
            res@ == six_pairs(self.raw_spec()),
    {
        six_pairs_of(self.to_raw())
    }
}

/// The pitch bend wheel: its mode and MIDI channel as their stored codes and
/// its option byte; it has no data bytes.
#[derive(Clone, Copy, Debug, PartialEq, Eq)]
pub struct PitchBend {
    pub mode: u8,
    pub channel: u8,
    pub option: Value,
}

impl PitchBend {
    /// Whether the option of the pitch bend wheel is a MIDI value.
    pub open spec fn wf(self) -> bool {
        self.option.wf()
    }

    /// Two pitch bend wheels with the same stored parameters are equal, and
    /// the option of a well-formed one reads back as it is.
    pub proof fn lemma_raw(a: Self, b: Self)
        ensures
            a.wf() ==> clamp_midi(a.option@) == a.option@,
            a.raw_spec() == b.raw_spec() ==> a == b,
    {
        Value::lemma_view(a.option, b.option);
    }

    /// The stored parameters of the pitch bend wheel; its data bytes are
    /// zero.
    pub open spec fn raw_spec(self) -> RawControl {
        RawControl { mode: self.mode, channel: self.channel, data1: 0, data2: 0, data3: 0, option: self.option@ }
    }

    /// The stored parameters of the pitch bend wheel.
    pub fn to_raw(&self) -> (res: RawControl)
        ensures
            res == self.raw_spec(),
    {
        RawControl { mode: self.mode, channel: self.channel, data1: 0, data2: 0, data3: 0, option: self.option.as_u8() }
    }

    /// The pitch bend wheel as stored parameters describe it: its mode,
    /// channel and option byte, cut to a MIDI value.
    pub fn from_raw(raw: RawControl) -> (res: Self)
        ensures
            res.mode == raw.mode,
            res.channel == raw.channel,
            res.option@ == clamp_midi(raw.option),
    {
        PitchBend { mode: raw.mode, channel: raw.channel, option: Value::new(raw.option) }
    }

    /// The pitch bend wheel's three parameters with their bytes: mode,
    /// channel and option.
    pub fn param_pairs(&self) -> (res: Vec<(ParamId, u8)>)
        ensures
            res@ == seq![(ParamId::Mode, self.mode), (ParamId::Channel, self.channel), (ParamId::Option, self.option@)],
    {
        let res = vec![(ParamId::Mode, self.mode), (ParamId::Channel, self.channel), (ParamId::Option, self.option.as_u8())];
        assert(res@ =~= seq![(ParamId::Mode, self.mode), (ParamId::Channel, self.channel), (ParamId::Option, self.option@)]);
        res
    }
}

/// The sustain pedal: its mode and MIDI channel as their stored codes, its
/// controller number, the values it sends when released and pressed, and its
/// option byte.
#[derive(Clone, Copy, Debug, PartialEq, Eq)]
pub struct SustainPedal {
    pub mode: u8,
    pub channel: u8,
    pub cc: Value,
    pub off_value: Value,
    pub on_value: Value,
    pub option: Value,
}

impl SustainPedal {
    /// Whether every value of the sustain pedal is a MIDI value.
    pub open spec fn wf(self) -> bool {
        self.cc.wf() && self.off_value.wf() && self.on_value.wf() && self.option.wf()
    }

    /// A sustain pedal with MIDI values is stored as it reads back, and two
    /// sustain pedals with the same stored parameters are equal.
    pub proof fn lemma_raw(a: Self, b: Self)
        ensures
            a.wf() ==> clamped_control(a.raw_spec()) == a.raw_spec(),
            a.raw_spec() == b.raw_spec() ==> a == b,
    {
        Value::lemma_view(a.cc, b.cc);
        Value::lemma_view(a.off_value, b.off_value);
        Value::lemma_view(a.on_value, b.on_value);
        Value::lemma_view(a.option, b.option);
    }

    /// The stored parameters of the sustain pedal.
    pub open spec fn raw_spec(self) -> RawControl {
        RawControl {
            mode: self.mode,
            channel: self.channel,
            data1: self.cc@,
            data2: self.off_value@,
            data3: self.on_value@,
            option: self.option@,
        }
    }

    /// The stored parameters of the sustain pedal.
    pub fn to_raw(&self) -> (res: RawControl)
        ensures
            res == self.raw_spec(),
    {
        RawControl {
            mode: self.mode,
            channel: self.channel,
            data1: self.cc.as_u8(),
            data2: self.off_value.as_u8(),
            data3: self.on_value.as_u8(),
            option: self.option.as_u8(),
        }
    }

    /// The sustain pedal as stored parameters describe it; a data byte above
    /// 127 reads as 127.
    pub fn from_raw(raw: RawControl) -> (res: Self)
        ensures
            res.raw_spec() == clamped_control(raw),
    {
        SustainPedal {
            mode: raw.mode,
            channel: raw.channel,
            cc: Value::new(raw.data1),
            off_value: Value::new(raw.data2),
            on_value: Value::new(raw.data3),
            option: Value::new(raw.option),
        }
    }

    /// The sustain pedal's parameters with their bytes, in the order they are
    /// sent.
    pub fn param_pairs(&self) -> (res: Vec<(ParamId, u8)>)
        ensures
            res@ == six_pairs(self.raw_spec()),
    {
        six_pairs_of(self.to_raw())
    }
}

/// A pad: the control it is, its mode and MIDI channel as their stored
/// codes, its note, the values it sends when released and pressed, its
/// option byte and its colour code.
#[derive(Clone, Copy, Debug, PartialEq, Eq)]
pub struct Pad {
    pub id: ControlId,
    pub mode: u8,
    pub channel: u8,
    pub note: Note,
    pub off_value: Value,
    pub on_value: Value,
    pub option: Value,
    pub color: u8,
}

/// The seven parameters of a pad with their bytes: those of a control, then
/// its colour.
pub open spec fn pad_pairs(r: RawPad) -> Seq<(ParamId, u8)> {
    seq![
        (ParamId::Mode, r.mode),
        (ParamId::Channel, r.channel),
        (ParamId::Data1, r.data1),
        (ParamId::Data2, r.data2),
        (ParamId::Data3, r.data3),
        (ParamId::Option, r.option),
        (ParamId::PadColor, r.color),
    ]
}

impl Pad {
    /// Whether every value of the pad is a MIDI value.
    pub open spec fn wf(self) -> bool {
        self.off_value.wf() && self.on_value.wf() && self.option.wf()
    }

    /// A pad with MIDI values is stored as it reads back, and two pads of one
    /// control with the same stored parameters are equal.
    pub proof fn lemma_raw(a: Self, b: Self)
        ensures
            a.wf() ==> clamped_pad(a.raw_spec()) == a.raw_spec(),
            a.id == b.id && a.raw_spec() == b.raw_spec() ==> a == b,
    {
        Value::lemma_view(a.off_value, b.off_value);
        Value::lemma_view(a.on_value, b.on_value);
        Value::lemma_view(a.option, b.option);
        lemma_number_of_note(a.note);
        lemma_number_of_note(b.note);
    }

    /// The stored parameters of the pad.
    pub open spec fn raw_spec(self) -> RawPad {
        RawPad {
            mode: self.mode,
            channel: self.channel,
            data1: self.note as u8,
            data2: self.off_value@,
            data3: self.on_value@,
            option: self.option@,
            color: self.color,
        }
    }

    /// The stored parameters of the pad.
    pub fn to_raw(&self) -> (res: RawPad)
        ensures
            res == self.raw_spec(),
    {
        RawPad {
            mode: self.mode,
            channel: self.channel,
            data1: self.note.as_u8(),
            data2: self.off_value.as_u8(),
            data3: self.on_value.as_u8(),
            option: self.option.as_u8(),
            color: self.color,
        }
    }

    /// Pad `id` as stored parameters describe it; a data byte above 127
    /// reads as 127.
    pub fn from_raw(id: ControlId, raw: RawPad) -> (res: Self)
        ensures
            res.id == id,
            res.raw_spec() == clamped_pad(raw),
    {
        Pad {
            id,
            mode: raw.mode,
            channel: raw.channel,
            note: Note::from_u8(raw.data1),
            off_value: Value::new(raw.data2),
            on_value: Value::new(raw.data3),
            option: Value::new(raw.option),
            color: raw.color,
        }
    }

    /// The pad's parameters with their bytes, in the order they are sent.
    pub fn param_pairs(&self) -> (res: Vec<(ParamId, u8)>)
        ensures
            res@ == pad_pairs(self.raw_spec()),
    {
        let r = self.to_raw();
        let res = vec![
            (ParamId::Mode, r.mode),
            (ParamId::Channel, r.channel),
            (ParamId::Data1, r.data1),
            (ParamId::Data2, r.data2),
            (ParamId::Data3, r.data3),
            (ParamId::Option, r.option),
            (ParamId::PadColor, r.color),
        ];
        assert(res@ =~= pad_pairs(r));
        res
    }
}


/// The bytes of the [`ControlId`] variants, as the device defines them; no
/// other byte stands for a variant.
pub proof fn lemma_control_id_code_table(v: ControlId, b: u8)
    ensures
        v.code() == (match v {
            ControlId::Knob2 => 0x1u8,
            ControlId::Knob3 => 0x2u8,
            ControlId::Knob4 => 0x3u8,
            ControlId::Knob5 => 0x4u8,
            ControlId::Knob6 => 0x5u8,
            ControlId::Knob7 => 0x6u8,
            ControlId::Knob8 => 0x7u8,
            ControlId::Knob10 => 0x8u8,
            ControlId::Knob11 => 0x9u8,
            ControlId::Knob12 => 0xau8,
            ControlId::Knob13 => 0xbu8,
            ControlId::Knob14 => 0xcu8,
            ControlId::Knob15 => 0xdu8,
            ControlId::Knob16 => 0xeu8,
            ControlId::OctaveMinus => 0x10u8,
            ControlId::OctavePlus => 0x11u8,
            ControlId::Knob1 => 0x30u8,
            ControlId::Knob1Switch => 0x31u8,
            ControlId::Knob1Shift => 0x32u8,
            ControlId::Knob9 => 0x33u8,
            ControlId::Knob9Switch => 0x34u8,
            ControlId::Knob9Shift => 0x35u8,
            ControlId::ModWheel => 0x40u8,
            ControlId::PitchBend => 0x41u8,
            ControlId::SustainPedal => 0x50u8,
            ControlId::Pad1 => 0x70u8,
            ControlId::Pad2 => 0x71u8,
            ControlId::Pad3 => 0x72u8,
            ControlId::Pad4 => 0x73u8,
            ControlId::Pad5 => 0x74u8,
            ControlId::Pad6 => 0x75u8,
            ControlId::Pad7 => 0x76u8,
            ControlId::Pad8 => 0x77u8,
            ControlId::Pad9 => 0x78u8,
            ControlId::Pad10 => 0x79u8,
            ControlId::Pad11 => 0x7au8,
            ControlId::Pad12 => 0x7bu8,
            ControlId::Pad13 => 0x7cu8,
            ControlId::Pad14 => 0x7du8,
            ControlId::Pad15 => 0x7eu8,
            ControlId::Pad16 => 0x7fu8,
        }),
        (ControlId::of_code(b) is Some) == (b == 0x1 || b == 0x2 || b == 0x3 || b == 0x4 || b == 0x5 || b == 0x6 || b == 0x7 || b == 0x8 || b == 0x9 || b == 0xa || b == 0xb || b == 0xc || b == 0xd || b == 0xe || b == 0x10 || b == 0x11 || b == 0x30 || b == 0x31 || b == 0x32 || b == 0x33 || b == 0x34 || b == 0x35 || b == 0x40 || b == 0x41 || b == 0x50 || b == 0x70 || b == 0x71 || b == 0x72 || b == 0x73 || b == 0x74 || b == 0x75 || b == 0x76 || b == 0x77 || b == 0x78 || b == 0x79 || b == 0x7a || b == 0x7b || b == 0x7c || b == 0x7d || b == 0x7e || b == 0x7f),
{
}

} // verus!
