//! The Akai MPD226 pad controller: its presets, global parameters and the
//! system-exclusive messages that carry them.

use vstd::prelude::*;

use std::collections::HashMap;

use crate::manufacturer::akai::SYSEX_MANUFACTURER_ID;
use crate::manufacturer::akai::mpd226::control::value_kind::ActiveState;
use crate::manufacturer::akai::mpd226::control::value_kind::MidiClock;
use crate::manufacturer::akai::mpd226::control::value_kind::NoteDisplay;
use crate::manufacturer::akai::mpd226::control::value_kind::PadColor;
use crate::manufacturer::akai::mpd226::control::value_kind::PadCurve;
use crate::manufacturer::akai::mpd226::control::value_kind::TapAverage;
use crate::manufacturer::akai::mpd226::control::value_kind::UsbChannel;
use crate::error::DeviceStatusParseError;
use crate::manufacturer::akai::mpd226::control::value_kind::PresetSlot;
use crate::manufacturer::akai::mpd226::error::GlobalAckParseError;
use crate::manufacturer::akai::mpd226::error::GlobalParseError;
use crate::manufacturer::akai::mpd226::error::PresetAckParseError;
use crate::manufacturer::akai::mpd226::raw::RawGlobalParamAck;
use crate::manufacturer::akai::mpd226::raw::RawPresetAck;
use crate::sysex::unpack_u14;
use crate::sysex::unpacked_u14;
use vstd::std_specs::convert::TryFromSpec;
use crate::manufacturer::akai::mpd226::raw::RawGlobal;
use crate::manufacturer::akai::mpd226::control::Dial;
use crate::manufacturer::akai::mpd226::control::Fader;
use crate::manufacturer::akai::mpd226::control::Pad;
use crate::manufacturer::akai::mpd226::control::PresetSettings;
use crate::manufacturer::akai::mpd226::control::Switch;
use crate::manufacturer::akai::mpd226::control::dial_bytes;
use crate::manufacturer::akai::mpd226::control::dial_decoded;
use crate::manufacturer::akai::mpd226::control::fader_decoded;
use crate::manufacturer::akai::mpd226::control::lemma_dial_encode_decode;
use crate::manufacturer::akai::mpd226::control::lemma_fader_encode_decode;
use crate::manufacturer::akai::mpd226::control::lemma_pad_encode_decode;
use crate::manufacturer::akai::mpd226::control::lemma_settings_encode_decode;
use crate::manufacturer::akai::mpd226::control::lemma_switch_encode_decode;
use crate::manufacturer::akai::mpd226::control::pad_decoded;
use crate::manufacturer::akai::mpd226::control::switch_decoded;
use crate::manufacturer::akai::mpd226::error::DialParseError;
use crate::manufacturer::akai::mpd226::error::FaderParseError;
use crate::manufacturer::akai::mpd226::error::PadParseError;
use crate::manufacturer::akai::mpd226::error::SwitchParseError;
use crate::manufacturer::akai::mpd226::control::fresh_dial;
use crate::manufacturer::akai::mpd226::control::fresh_fader;
use crate::manufacturer::akai::mpd226::control::fresh_pad;
use crate::manufacturer::akai::mpd226::control::fresh_switch;
use crate::manufacturer::akai::mpd226::control::is_default_settings;
use crate::manufacturer::akai::mpd226::control::fader_bytes;
use crate::manufacturer::akai::mpd226::control::pad_bytes;
use crate::manufacturer::akai::mpd226::control::settings_decoded;
use crate::manufacturer::akai::mpd226::control::stores_settings;
use crate::manufacturer::akai::mpd226::control::switch_bytes;
use crate::manufacturer::akai::mpd226::error::PresetParseError;
use crate::manufacturer::akai::mpd226::error::PresetSettingsParseError;
use crate::manufacturer::akai::mpd226::raw::RawDial;
use crate::manufacturer::akai::mpd226::raw::RawDials;
use crate::manufacturer::akai::mpd226::raw::RawFader;
use crate::manufacturer::akai::mpd226::raw::RawFaders;
use crate::manufacturer::akai::mpd226::raw::RawHeader;
use crate::manufacturer::akai::mpd226::raw::RawPad;
use crate::manufacturer::akai::mpd226::raw::RawPads;
use crate::manufacturer::akai::mpd226::raw::RawSwitch;
use crate::manufacturer::akai::mpd226::raw::RawSwitches;
use crate::manufacturer::akai::mpd226::repository::DialRepository;
use crate::manufacturer::akai::mpd226::repository::FaderRepository;
use crate::manufacturer::akai::mpd226::repository::PadRepository;
use crate::manufacturer::akai::mpd226::repository::SwitchRepository;
use crate::manufacturer::akai::mpd226::repository::dials_all_read;
use crate::manufacturer::akai::mpd226::repository::dials_fail;
use crate::manufacturer::akai::mpd226::repository::dials_read;
use crate::manufacturer::akai::mpd226::repository::faders_all_read;
use crate::manufacturer::akai::mpd226::repository::is_default_pads;
use crate::manufacturer::akai::mpd226::repository::faders_fail;
use crate::manufacturer::akai::mpd226::repository::faders_read;
use crate::manufacturer::akai::mpd226::repository::lemma_dials_fail;
use crate::manufacturer::akai::mpd226::repository::lemma_dials_read;
use crate::manufacturer::akai::mpd226::repository::lemma_faders_fail;
use crate::manufacturer::akai::mpd226::repository::lemma_faders_read;
use crate::manufacturer::akai::mpd226::repository::lemma_pads_fail;
use crate::manufacturer::akai::mpd226::repository::lemma_pads_read;
use crate::manufacturer::akai::mpd226::repository::lemma_switches_fail;
use crate::manufacturer::akai::mpd226::repository::pads_all_read;
use crate::manufacturer::akai::mpd226::repository::pads_fail;
use crate::manufacturer::akai::mpd226::repository::pads_read;
use crate::manufacturer::akai::mpd226::repository::switches_all_read;
use crate::manufacturer::akai::mpd226::repository::switches_fail;
use crate::manufacturer::akai::mpd226::repository::switches_read;
use crate::midi::note_of;
use crate::music::generation::PitchPattern;
use crate::music::generation::chord_row_pitch;
use crate::music::generation::scale_walk;
use crate::music::theory::ChordVoicing;
use crate::music::theory::Pitch;
use crate::sysex::packed_u14;
use crate::manufacturer::akai::mpd226::raw::RawPreset;
use crate::scale::ScaleSequence;
use crate::sysex::Sysex;
use crate::sysex::extend_bytes;
use crate::sysex::framed;
use crate::sysex::parse_frame;

pub mod control;
pub mod error;
pub mod raw;
pub mod repository;

verus! {

pub const DEVICE_ID: u8 = 0x35;

/// The number of pads.
pub const TOTAL_PADS: usize = 64;

/// The address of a global parameter.
#[derive(Debug, Clone, Copy, PartialEq, Eq, Structural)]
pub enum GlobalParamCmdId {
    CommonChannel,
    LcdContrast,
    TapAverage,
    TempoLed,
    MidiClock,
    TransportToDIN,
    PadThreshold,
    Unknown08,
    PadCurve,
    PadGain,
    NoteDisplay,
}

impl GlobalParamCmdId {
    /// The byte that stands for the value.
    pub open spec fn code(self) -> u8 {
        match self {
            GlobalParamCmdId::CommonChannel => 1,
            GlobalParamCmdId::LcdContrast => 2,
            GlobalParamCmdId::TapAverage => 3,
            GlobalParamCmdId::TempoLed => 4,
            GlobalParamCmdId::MidiClock => 5,
            GlobalParamCmdId::TransportToDIN => 6,
            GlobalParamCmdId::PadThreshold => 7,
            GlobalParamCmdId::Unknown08 => 8,
            GlobalParamCmdId::PadCurve => 9,
            GlobalParamCmdId::PadGain => 10,
            GlobalParamCmdId::NoteDisplay => 11,
        }
    }

    /// The value that byte `b` stands for, if any.
    pub open spec fn of_code(b: u8) -> Option<Self> {
        if b == 1 {
            Some(GlobalParamCmdId::CommonChannel)
        } else if b == 2 {
            Some(GlobalParamCmdId::LcdContrast)
        } else if b == 3 {
            Some(GlobalParamCmdId::TapAverage)
        } else if b == 4 {
            Some(GlobalParamCmdId::TempoLed)
        } else if b == 5 {
            Some(GlobalParamCmdId::MidiClock)
        } else if b == 6 {
            Some(GlobalParamCmdId::TransportToDIN)
        } else if b == 7 {
            Some(GlobalParamCmdId::PadThreshold)
        } else if b == 8 {
            Some(GlobalParamCmdId::Unknown08)
        } else if b == 9 {
            Some(GlobalParamCmdId::PadCurve)
        } else if b == 10 {
            Some(GlobalParamCmdId::PadGain)
        } else if b == 11 {
            Some(GlobalParamCmdId::NoteDisplay)
        } else {
            None
        }
    }

    /// The byte that stands for the value.
    pub fn as_u8(self) -> (res: u8)
        ensures
            res == self.code(),
    {
        match self {
            GlobalParamCmdId::CommonChannel => 1,
            GlobalParamCmdId::LcdContrast => 2,
            GlobalParamCmdId::TapAverage => 3,
            GlobalParamCmdId::TempoLed => 4,
            GlobalParamCmdId::MidiClock => 5,
            GlobalParamCmdId::TransportToDIN => 6,
            GlobalParamCmdId::PadThreshold => 7,
            GlobalParamCmdId::Unknown08 => 8,
            GlobalParamCmdId::PadCurve => 9,
            GlobalParamCmdId::PadGain => 10,
            GlobalParamCmdId::NoteDisplay => 11,
        }
    }

    /// The value that byte `b` stands for, if any.
    pub fn from_code(b: u8) -> (res: Option<Self>)
        ensures
            res == Self::of_code(b),
            res matches Some(v) ==> v.code() == b,
    {
        if b == 1 {
            Some(GlobalParamCmdId::CommonChannel)
        } else if b == 2 {
            Some(GlobalParamCmdId::LcdContrast)
        } else if b == 3 {
            Some(GlobalParamCmdId::TapAverage)
        } else if b == 4 {
            Some(GlobalParamCmdId::TempoLed)
        } else if b == 5 {
            Some(GlobalParamCmdId::MidiClock)
        } else if b == 6 {
            Some(GlobalParamCmdId::TransportToDIN)
        } else if b == 7 {
            Some(GlobalParamCmdId::PadThreshold)
        } else if b == 8 {
            Some(GlobalParamCmdId::Unknown08)
        } else if b == 9 {
            Some(GlobalParamCmdId::PadCurve)
        } else if b == 10 {
            Some(GlobalParamCmdId::PadGain)
        } else if b == 11 {
            Some(GlobalParamCmdId::NoteDisplay)
        } else {
            None
        }
    }

    /// A byte that stands for a value is that value's byte, and a value's
    /// byte stands for it.
    pub proof fn lemma_code(b: u8, v: Self)
        ensures
            Self::of_code(b) matches Some(x) ==> x.code() == b,
            Self::of_code(v.code()) == Some(v),
    {
    }

}

impl From<GlobalParamCmdId> for u8 {
    fn from(v: GlobalParamCmdId) -> (res: u8) {
        v.as_u8()
    }
}

impl vstd::std_specs::convert::FromSpecImpl<GlobalParamCmdId> for u8 {
    open spec fn obeys_from_spec() -> bool {
        true
    }

    open spec fn from_spec(v: GlobalParamCmdId) -> u8 {
        v.code()
    }
}

impl TryFrom<u8> for GlobalParamCmdId {
    type Error = u8;

    fn try_from(b: u8) -> (res: Result<Self, u8>) {
        match Self::from_code(b) {
            Some(v) => Ok(v),
            None => Err(b),
        }
    }
}

impl vstd::std_specs::convert::TryFromSpecImpl<u8> for GlobalParamCmdId {
    open spec fn obeys_try_from_spec() -> bool {
        true
    }

    open spec fn try_from_spec(b: u8) -> Result<Self, u8> {
        match Self::of_code(b) {
            Some(v) => Ok(v),
            None => Err(b),
        }
    }
}

/// Messages that the MPD226 sends.
#[derive(Debug, Clone, Copy, PartialEq, Eq, Structural)]
pub enum DeviceStatusId {
    WritePreset,
    PresetAck,
    WriteGlobal,
    GlobalAck,
}

impl DeviceStatusId {
    /// The byte that stands for the value.
    pub open spec fn code(self) -> u8 {
        match self {
            DeviceStatusId::WritePreset => 16,
            DeviceStatusId::PresetAck => 17,
            DeviceStatusId::WriteGlobal => 52,
            DeviceStatusId::GlobalAck => 60,
        }
    }

    /// The value that byte `b` stands for, if any.
    pub open spec fn of_code(b: u8) -> Option<Self> {
        if b == 16 {
            Some(DeviceStatusId::WritePreset)
        } else if b == 17 {
            Some(DeviceStatusId::PresetAck)
        } else if b == 52 {
            Some(DeviceStatusId::WriteGlobal)
        } else if b == 60 {
            Some(DeviceStatusId::GlobalAck)
        } else {
            None
        }
    }

    /// The byte that stands for the value.
    pub fn as_u8(self) -> (res: u8)
        ensures
            res == self.code(),
    {
        match self {
            DeviceStatusId::WritePreset => 16,
            DeviceStatusId::PresetAck => 17,
            DeviceStatusId::WriteGlobal => 52,
            DeviceStatusId::GlobalAck => 60,
        }
    }

    /// The value that byte `b` stands for, if any.
    pub fn from_code(b: u8) -> (res: Option<Self>)
        ensures
            res == Self::of_code(b),
            res matches Some(v) ==> v.code() == b,
    {
        if b == 16 {
            Some(DeviceStatusId::WritePreset)
        } else if b == 17 {
            Some(DeviceStatusId::PresetAck)
        } else if b == 52 {
            Some(DeviceStatusId::WriteGlobal)
        } else if b == 60 {
            Some(DeviceStatusId::GlobalAck)
        } else {
            None
        }
    }

    /// A byte that stands for a value is that value's byte, and a value's
    /// byte stands for it.
    pub proof fn lemma_code(b: u8, v: Self)
        ensures
            Self::of_code(b) matches Some(x) ==> x.code() == b,
            Self::of_code(v.code()) == Some(v),
    {
    }

}

impl From<DeviceStatusId> for u8 {
    fn from(v: DeviceStatusId) -> (res: u8) {
        v.as_u8()
    }
}

impl vstd::std_specs::convert::FromSpecImpl<DeviceStatusId> for u8 {
    open spec fn obeys_from_spec() -> bool {
        true
    }

    open spec fn from_spec(v: DeviceStatusId) -> u8 {
        v.code()
    }
}

impl TryFrom<u8> for DeviceStatusId {
    type Error = u8;

    fn try_from(b: u8) -> (res: Result<Self, u8>) {
        match Self::from_code(b) {
            Some(v) => Ok(v),
            None => Err(b),
        }
    }
}

impl vstd::std_specs::convert::TryFromSpecImpl<u8> for DeviceStatusId {
    open spec fn obeys_try_from_spec() -> bool {
        true
    }

    open spec fn try_from_spec(b: u8) -> Result<Self, u8> {
        match Self::of_code(b) {
            Some(v) => Ok(v),
            None => Err(b),
        }
    }
}

/// Requests that the MPD226 answers.
#[derive(Debug, Clone, Copy, PartialEq, Eq, Structural)]
pub enum DeviceCommandId {
    WritePreset,
    DumpPreset,
    DumpGlobal,
    WriteGlobal,
}

impl DeviceCommandId {
    /// The byte that stands for the value.
    pub open spec fn code(self) -> u8 {
        match self {
            DeviceCommandId::WritePreset => 16,
            DeviceCommandId::DumpPreset => 18,
            DeviceCommandId::DumpGlobal => 36,
            DeviceCommandId::WriteGlobal => 52,
        }
    }

    /// The value that byte `b` stands for, if any.
    pub open spec fn of_code(b: u8) -> Option<Self> {
        if b == 16 {
            Some(DeviceCommandId::WritePreset)
        } else if b == 18 {
            Some(DeviceCommandId::DumpPreset)
        } else if b == 36 {
            Some(DeviceCommandId::DumpGlobal)
        } else if b == 52 {
            Some(DeviceCommandId::WriteGlobal)
        } else {
            None
        }
    }

    /// The byte that stands for the value.
    pub fn as_u8(self) -> (res: u8)
        ensures
            res == self.code(),
    {
        match self {
            DeviceCommandId::WritePreset => 16,
            DeviceCommandId::DumpPreset => 18,
            DeviceCommandId::DumpGlobal => 36,
            DeviceCommandId::WriteGlobal => 52,
        }
    }

    /// The value that byte `b` stands for, if any.
    pub fn from_code(b: u8) -> (res: Option<Self>)
        ensures
            res == Self::of_code(b),
            res matches Some(v) ==> v.code() == b,
    {
        if b == 16 {
            Some(DeviceCommandId::WritePreset)
        } else if b == 18 {
            Some(DeviceCommandId::DumpPreset)
        } else if b == 36 {
            Some(DeviceCommandId::DumpGlobal)
        } else if b == 52 {
            Some(DeviceCommandId::WriteGlobal)
        } else {
            None
        }
    }

    /// A byte that stands for a value is that value's byte, and a value's
    /// byte stands for it.
    pub proof fn lemma_code(b: u8, v: Self)
        ensures
            Self::of_code(b) matches Some(x) ==> x.code() == b,
            Self::of_code(v.code()) == Some(v),
    {
    }

}

impl From<DeviceCommandId> for u8 {
    fn from(v: DeviceCommandId) -> (res: u8) {
        v.as_u8()
    }
}

impl vstd::std_specs::convert::FromSpecImpl<DeviceCommandId> for u8 {
    open spec fn obeys_from_spec() -> bool {
        true
    }

    open spec fn from_spec(v: DeviceCommandId) -> u8 {
        v.code()
    }
}

impl TryFrom<u8> for DeviceCommandId {
    type Error = u8;

    fn try_from(b: u8) -> (res: Result<Self, u8>) {
        match Self::from_code(b) {
            Some(v) => Ok(v),
            None => Err(b),
        }
    }
}

impl vstd::std_specs::convert::TryFromSpecImpl<u8> for DeviceCommandId {
    open spec fn obeys_try_from_spec() -> bool {
        true
    }

    open spec fn try_from_spec(b: u8) -> Result<Self, u8> {
        match Self::of_code(b) {
            Some(v) => Ok(v),
            None => Err(b),
        }
    }
}

/// The six header bytes of a message: manufacturer, a zero byte, device,
/// command and the two length bytes.
pub open spec fn header_bytes(cmd: u8, length: Seq<u8>) -> Seq<u8> {
    seq![SYSEX_MANUFACTURER_ID, 0u8, DEVICE_ID, cmd] + length
}

/// The header of a preset write: command 0x10, length 1075 as two 7-bit bytes.
pub open spec fn write_preset_header() -> Seq<u8> {
    header_bytes(0x10, seq![0x08u8, 0x33u8])
}

/// The message that writes global parameter `addr`.
pub open spec fn global_param_message(addr: u8, value: u8) -> Seq<u8> {
    framed(header_bytes(0x34, seq![0x00u8, 0x04u8]) + seq![0x01u8, 0x00u8, addr, value])
}

/// The request for the preset in `slot`.
pub fn dump_preset_from_device(slot: u8) -> (res: Vec<u8>)
    ensures
        res@ == framed(header_bytes(0x12, seq![0x00u8, 0x01u8]).push(slot)),
{
    let header = RawHeader::dump_preset();
    let mut payload = header.as_bytes();
    payload.push(slot);
    let res = Sysex::new(payload).as_bytes();
    assert(header.bytes() =~= header_bytes(0x12, seq![0x00u8, 0x01u8]));
    res
}

/// The message that writes `preset` to the device.
pub fn write_preset_to_device(preset: &RawPreset) -> (res: Vec<u8>)
    ensures
        res@ == framed(write_preset_header() + preset.bytes()),
{
    let header = RawHeader::write_preset();
    let mut payload = header.as_bytes();
    let body = preset.as_bytes();
    extend_bytes(&mut payload, body.as_slice());
    assert(header.bytes() =~= write_preset_header());
    Sysex::new(payload).as_bytes()
}

/// The request for the global parameters.
pub fn dump_global_from_device() -> (res: Vec<u8>)
    ensures
        res@ == framed(header_bytes(0x24, seq![0x00u8, 0x03u8]) + seq![0x0Bu8, 0x00u8, 0x01u8]),
{
    let header = RawHeader {
        mfg_id: SYSEX_MANUFACTURER_ID,
        _unknown: 0,
        device_id: DEVICE_ID,
        cmd: DeviceCommandId::DumpGlobal.as_u8(),
        length: [0x00, 0x03],
    };
    let mut payload = header.as_bytes();
    payload.push(0x0B);
    payload.push(0x00);
    payload.push(0x01);
    assert(payload@ =~= header_bytes(0x24, seq![0x00u8, 0x03u8]) + seq![0x0Bu8, 0x00u8, 0x01u8]);
    Sysex::new(payload).as_bytes()
}

/// The message that writes `value` to global parameter `addr`.
pub fn write_global_param_to_device(addr: u8, value: u8) -> (res: Vec<u8>)
    ensures
        res@ == global_param_message(addr, value),
{
    let header = RawHeader {
        mfg_id: SYSEX_MANUFACTURER_ID,
        _unknown: 0,
        device_id: DEVICE_ID,
        cmd: DeviceCommandId::WriteGlobal.as_u8(),
        length: [0x00, 0x04],
    };
    let mut payload = header.as_bytes();
    payload.push(0x01);
    payload.push(0x00);
    payload.push(addr);
    payload.push(value);
    assert(payload@ =~= header_bytes(0x34, seq![0x00u8, 0x04u8]) + seq![0x01u8, 0x00u8, addr, value]);
    Sysex::new(payload).as_bytes()
}

/// The command and length of a message.
#[derive(Debug, PartialEq, Clone, Copy)]
pub struct DeviceHeader<C> {
    pub cmd: C,
    pub message_length: u16,
}

/// A message: its header and the bytes after it.
#[derive(Debug, Clone)]
pub struct DeviceMessagePayload<C> {
    pub header: DeviceHeader<C>,
    pub data: Vec<u8>,
}

/// Whether a payload starts with a header of this device: at least six
/// bytes, the manufacturer id first and the device id third.
pub open spec fn header_valid(p: Seq<u8>) -> bool {
    &&& p.len() >= 6
    &&& p[0] == SYSEX_MANUFACTURER_ID
    &&& p[2] == DEVICE_ID
}

impl<C: TryFrom<u8>> DeviceMessagePayload<C> {
    /// Splits the payload of a message into header and data; the command
    /// byte is read as a `C`.
    pub fn from_sysex(value: &Sysex) -> (res: Result<Self, DeviceStatusParseError>)
        ensures
            !header_valid(value@) ==> (res matches Err(DeviceStatusParseError::InvalidHeader)),
            header_valid(value@) ==> match res {
                Ok(m) => {
                    &&& m.header.message_length == unpacked_u14(value@[4], value@[5])
                    &&& m.data@ == value@.subrange(6, value@.len() as int)
                    &&& C::obeys_try_from_spec() ==> (C::try_from_spec(value@[3]) matches Ok(c) && c == m.header.cmd)
                },
                Err(e) => {
                    &&& e == DeviceStatusParseError::InvalidCommand(value@[3])
                    &&& C::obeys_try_from_spec() ==> C::try_from_spec(value@[3]) is Err
                },
            },
    {
        let p = value.payload();
        if p.len() < RawHeader::SIZE {
            return Err(DeviceStatusParseError::InvalidHeader);
        }
        let raw_header = RawHeader::from_bytes(&p[0..6]);
        assert(raw_header.bytes() == p@.subrange(0, 6));
        assert(raw_header.bytes()[0] == p@[0] && raw_header.bytes()[2] == p@[2]);
        assert(raw_header.bytes()[3] == p@[3] && raw_header.bytes()[4] == p@[4] && raw_header.bytes()[5] == p@[5]);
        assert(raw_header.length@ =~= seq![p@[4], p@[5]]);
        if raw_header.mfg_id != SYSEX_MANUFACTURER_ID {
            return Err(DeviceStatusParseError::InvalidHeader);
        }
        if raw_header.device_id != DEVICE_ID {
            return Err(DeviceStatusParseError::InvalidHeader);
        }
        let cmd = match C::try_from(raw_header.cmd) {
            Ok(c) => c,
            Err(_) => {
                return Err(DeviceStatusParseError::InvalidCommand(raw_header.cmd));
            },
        };
        let length = unpack_u14(raw_header.length);
        let mut data: Vec<u8> = Vec::new();
        extend_bytes(&mut data, &p[6..p.len()]);
        Ok(DeviceMessagePayload { header: DeviceHeader { cmd, message_length: length }, data })
    }

    /// Reads a framed message and splits its payload.
    pub fn from_bytes(value: &[u8]) -> (res: Result<Self, DeviceStatusParseError>)
        ensures
            parse_frame(value@) matches Err(e) ==> res == Err::<Self, DeviceStatusParseError>(
                DeviceStatusParseError::InvalidSysex(e),
            ),
            parse_frame(value@) matches Ok(p) ==> {
                &&& !header_valid(p) ==> (res matches Err(DeviceStatusParseError::InvalidHeader))
                &&& header_valid(p) ==> match res {
                    Ok(m) => {
                        &&& m.header.message_length == unpacked_u14(p[4], p[5])
                        &&& m.data@ == p.subrange(6, p.len() as int)
                        &&& C::obeys_try_from_spec() ==> (C::try_from_spec(p[3]) matches Ok(c) && c == m.header.cmd)
                    },
                    Err(e) => {
                        &&& e == DeviceStatusParseError::InvalidCommand(p[3])
                        &&& C::obeys_try_from_spec() ==> C::try_from_spec(p[3]) is Err
                    },
                }
            },
    {
        match Sysex::from_bytes(value) {
            Ok(s) => Self::from_sysex(&s),
            Err(e) => Err(DeviceStatusParseError::InvalidSysex(e)),
        }
    }
}

/// The conversion goes through [`DeviceMessagePayload::from_bytes`], whose
/// contract states the result.
impl<'a, C: TryFrom<u8>> vstd::std_specs::convert::TryFromSpecImpl<&'a [u8]> for DeviceMessagePayload<C> {
    open spec fn obeys_try_from_spec() -> bool {
        false
    }

    closed spec fn try_from_spec(value: &'a [u8]) -> Result<Self, DeviceStatusParseError> {
        arbitrary()
    }
}

impl<'a, C: TryFrom<u8>> TryFrom<&'a [u8]> for DeviceMessagePayload<C> {
    type Error = DeviceStatusParseError;

    fn try_from(value: &'a [u8]) -> (res: Result<Self, DeviceStatusParseError>)
        ensures
            parse_frame(value@) matches Err(e) ==> res == Err::<Self, DeviceStatusParseError>(
                DeviceStatusParseError::InvalidSysex(e),
            ),
            parse_frame(value@) matches Ok(p) ==> {
                &&& !header_valid(p) ==> (res matches Err(DeviceStatusParseError::InvalidHeader))
                &&& header_valid(p) ==> match res {
                    Ok(m) => {
                        &&& m.header.message_length == unpacked_u14(p[4], p[5])
                        &&& m.data@ == p.subrange(6, p.len() as int)
                        &&& C::obeys_try_from_spec() ==> (C::try_from_spec(p[3]) matches Ok(c) && c == m.header.cmd)
                    },
                    Err(e) => {
                        &&& e == DeviceStatusParseError::InvalidCommand(p[3])
                        &&& C::obeys_try_from_spec() ==> C::try_from_spec(p[3]) is Err
                    },
                }
            },
    {
        Self::from_bytes(value)
    }
}

/// The conversion goes through [`DeviceMessagePayload::from_sysex`], whose
/// contract states the result.
impl<C: TryFrom<u8>> vstd::std_specs::convert::TryFromSpecImpl<Sysex> for DeviceMessagePayload<C> {
    open spec fn obeys_try_from_spec() -> bool {
        false
    }

    closed spec fn try_from_spec(value: Sysex) -> Result<Self, DeviceStatusParseError> {
        arbitrary()
    }
}

impl<C: TryFrom<u8>> TryFrom<Sysex> for DeviceMessagePayload<C> {
    type Error = DeviceStatusParseError;

    fn try_from(value: Sysex) -> (res: Result<Self, DeviceStatusParseError>)
        ensures
            !header_valid(value@) ==> (res matches Err(DeviceStatusParseError::InvalidHeader)),
            header_valid(value@) ==> match res {
                Ok(m) => {
                    &&& m.header.message_length == unpacked_u14(value@[4], value@[5])
                    &&& m.data@ == value@.subrange(6, value@.len() as int)
                    &&& C::obeys_try_from_spec() ==> (C::try_from_spec(value@[3]) matches Ok(c) && c == m.header.cmd)
                },
                Err(e) => {
                    &&& e == DeviceStatusParseError::InvalidCommand(value@[3])
                    &&& C::obeys_try_from_spec() ==> C::try_from_spec(value@[3]) is Err
                },
            },
    {
        Self::from_sysex(&value)
    }
}

/// The acknowledgement of a global parameter write.
#[derive(Debug, Clone, Copy, PartialEq, Eq, Structural)]
pub struct GlobalParamAck {
    pub addr: GlobalParamCmdId,
    pub status: u8,
}

/// What a stored acknowledgement reads as.
pub open spec fn global_ack_decoded(r: RawGlobalParamAck) -> Result<GlobalParamAck, GlobalAckParseError> {
    match GlobalParamCmdId::of_code(r.addr) {
        Some(addr) => Ok(GlobalParamAck { addr, status: r.status }),
        None => Err(GlobalAckParseError::InvalidAddr(r.addr)),
    }
}

/// What the four bytes of an acknowledgement read as: the third is the
/// address, the fourth the status; any other length is refused.
pub open spec fn global_ack_bytes_decoded(data: Seq<u8>) -> Result<GlobalParamAck, GlobalAckParseError> {
    if data.len() != 4 {
        Err(GlobalAckParseError::InvalidLength(data.len() as usize))
    } else {
        match GlobalParamCmdId::of_code(data[2]) {
            Some(addr) => Ok(GlobalParamAck { addr, status: data[3] }),
            None => Err(GlobalAckParseError::InvalidAddr(data[2])),
        }
    }
}

impl GlobalParamAck {
    /// Reads a stored acknowledgement.
    pub fn from_raw(value: RawGlobalParamAck) -> (res: Result<Self, GlobalAckParseError>)
        ensures
            res == global_ack_decoded(value),
    {
        match GlobalParamCmdId::from_code(value.addr) {
            Some(addr) => Ok(Self { addr, status: value.status }),
            None => Err(GlobalAckParseError::InvalidAddr(value.addr)),
        }
    }

    /// Reads the bytes of an acknowledgement.
    pub fn from_bytes(value: &[u8]) -> (res: Result<Self, GlobalAckParseError>)
        ensures
            res == global_ack_bytes_decoded(value@),
    {
        if value.len() != RawGlobalParamAck::SIZE {
            return Err(GlobalAckParseError::InvalidLength(value.len()));
        }
        let raw = RawGlobalParamAck::from_bytes(value);
        assert(raw.addr == value@[2] && raw.status == value@[3]);
        Self::from_raw(raw)
    }
}

impl vstd::std_specs::convert::TryFromSpecImpl<RawGlobalParamAck> for GlobalParamAck {
    open spec fn obeys_try_from_spec() -> bool {
        true
    }

    open spec fn try_from_spec(value: RawGlobalParamAck) -> Result<Self, GlobalAckParseError> {
        global_ack_decoded(value)
    }
}

impl TryFrom<RawGlobalParamAck> for GlobalParamAck {
    type Error = GlobalAckParseError;

    fn try_from(value: RawGlobalParamAck) -> (res: Result<Self, GlobalAckParseError>) {
        Self::from_raw(value)
    }
}

impl<'a> vstd::std_specs::convert::TryFromSpecImpl<&'a [u8]> for GlobalParamAck {
    open spec fn obeys_try_from_spec() -> bool {
        true
    }

    open spec fn try_from_spec(value: &'a [u8]) -> Result<Self, GlobalAckParseError> {
        global_ack_bytes_decoded(value@)
    }
}

impl<'a> TryFrom<&'a [u8]> for GlobalParamAck {
    type Error = GlobalAckParseError;

    fn try_from(value: &'a [u8]) -> (res: Result<Self, GlobalAckParseError>) {
        Self::from_bytes(value)
    }
}

/// The acknowledgement of a preset write: the slot written.
#[derive(Debug, Clone, Copy, PartialEq, Eq, Structural)]
pub struct PresetAck {
    pub slot: PresetSlot,
}

/// What a stored preset acknowledgement reads as.
pub open spec fn preset_ack_decoded(r: RawPresetAck) -> Result<PresetAck, PresetAckParseError> {
    match PresetSlot::of_code(r.slot) {
        Some(slot) => Ok(PresetAck { slot }),
        None => Err(PresetAckParseError::InvalidSlot(r.slot)),
    }
}

/// What the two bytes of a preset acknowledgement read as: the first is the
/// slot; any other length is refused.
pub open spec fn preset_ack_bytes_decoded(data: Seq<u8>) -> Result<PresetAck, PresetAckParseError> {
    if data.len() != 2 {
        Err(PresetAckParseError::InvalidLength(data.len() as usize))
    } else {
        match PresetSlot::of_code(data[0]) {
            Some(slot) => Ok(PresetAck { slot }),
            None => Err(PresetAckParseError::InvalidSlot(data[0])),
        }
    }
}

impl PresetAck {
    /// Reads a stored preset acknowledgement.
    pub fn from_raw(value: RawPresetAck) -> (res: Result<Self, PresetAckParseError>)
        ensures
            res == preset_ack_decoded(value),
    {
        match PresetSlot::from_code(value.slot) {
            Some(slot) => Ok(Self { slot }),
            None => Err(PresetAckParseError::InvalidSlot(value.slot)),
        }
    }

    /// Reads the bytes of a preset acknowledgement.
    pub fn from_bytes(value: &[u8]) -> (res: Result<Self, PresetAckParseError>)
        ensures
            res == preset_ack_bytes_decoded(value@),
    {
        if value.len() != RawPresetAck::SIZE {
            return Err(PresetAckParseError::InvalidLength(value.len()));
        }
        let raw = RawPresetAck::from_bytes(value);
        assert(raw.slot == value@[0]);
        Self::from_raw(raw)
    }
}

impl vstd::std_specs::convert::TryFromSpecImpl<RawPresetAck> for PresetAck {
    open spec fn obeys_try_from_spec() -> bool {
        true
    }

    open spec fn try_from_spec(value: RawPresetAck) -> Result<Self, PresetAckParseError> {
        preset_ack_decoded(value)
    }
}

impl TryFrom<RawPresetAck> for PresetAck {
    type Error = PresetAckParseError;

    fn try_from(value: RawPresetAck) -> (res: Result<Self, PresetAckParseError>) {
        Self::from_raw(value)
    }
}

impl<'a> vstd::std_specs::convert::TryFromSpecImpl<&'a [u8]> for PresetAck {
    open spec fn obeys_try_from_spec() -> bool {
        true
    }

    open spec fn try_from_spec(value: &'a [u8]) -> Result<Self, PresetAckParseError> {
        preset_ack_bytes_decoded(value@)
    }
}

impl<'a> TryFrom<&'a [u8]> for PresetAck {
    type Error = PresetAckParseError;

    fn try_from(value: &'a [u8]) -> (res: Result<Self, PresetAckParseError>) {
        Self::from_bytes(value)
    }
}

/// The global parameters of the device.
#[derive(Clone, Copy, Debug, PartialEq, Eq, Structural)]
pub struct Global {
    pub common_channel: UsbChannel,
    pub lcd_contrast: u8,
    pub tap_average: TapAverage,
    pub tempo_led: ActiveState,
    pub note_display: NoteDisplay,
    pub pad_threshold: u8,
    pub pad_curve: PadCurve,
    pub pad_gain: u8,
    pub midi_clock: MidiClock,
}

impl Default for Global {
    /// Channel A1, contrast 50, three taps, tempo light on, values shown, pad
    /// gain 0, pad threshold 1, linear pads, internal clock.
    fn default() -> (res: Self)
        ensures
            res == (Global {
                common_channel: UsbChannel::A1,
                lcd_contrast: 50,
                tap_average: TapAverage::Tap3,
                tempo_led: ActiveState::On,
                note_display: NoteDisplay::Value,
                pad_threshold: 1,
                pad_curve: PadCurve::Linear,
                pad_gain: 0,
                midi_clock: MidiClock::Internal,
            }),
    {
        Self {
            common_channel: UsbChannel::default(),
            lcd_contrast: 50,
            tap_average: TapAverage::default(),
            tempo_led: ActiveState::On,
            note_display: NoteDisplay::default(),
            pad_gain: 0,
            pad_threshold: 1,
            pad_curve: PadCurve::default(),
            midi_clock: MidiClock::default(),
        }
    }
}

/// What stored global parameters read as, or the first parameter that names
/// no known value; the transport byte and the unknown byte are not read.
pub open spec fn global_decoded(r: RawGlobal) -> Result<Global, GlobalParseError> {
    match (
        UsbChannel::of_code(r.common_channel),
        TapAverage::of_code(r.tap_average),
        ActiveState::of_code(r.tempo_led),
        NoteDisplay::of_code(r.note_display),
        PadCurve::of_code(r.pad_curve),
        MidiClock::of_code(r.midi_clock),
    ) {
        (None, _, _, _, _, _) => Err(GlobalParseError::CommonChannel(r.common_channel)),
        (_, None, _, _, _, _) => Err(GlobalParseError::TapAverage(r.tap_average)),
        (_, _, None, _, _, _) => Err(GlobalParseError::TempoLed(r.tempo_led)),
        (_, _, _, None, _, _) => Err(GlobalParseError::NoteDisplay(r.note_display)),
        (_, _, _, _, None, _) => Err(GlobalParseError::PadCurve(r.pad_curve)),
        (_, _, _, _, _, None) => Err(GlobalParseError::MidiClock(r.midi_clock)),
        (Some(common_channel), Some(tap_average), Some(tempo_led), Some(note_display), Some(pad_curve), Some(midi_clock)) => Ok(
            Global {
                common_channel,
                lcd_contrast: r.lcd_contrast,
                tap_average,
                tempo_led,
                note_display,
                pad_threshold: r.pad_threshold,
                pad_curve,
                pad_gain: r.pad_gain,
                midi_clock,
            },
        ),
    }
}

/// The stored form of global parameters: the transport byte and the
/// unknown byte zero.
pub open spec fn global_raw(g: Global) -> RawGlobal {
    RawGlobal {
        common_channel: g.common_channel.code(),
        lcd_contrast: g.lcd_contrast,
        tap_average: g.tap_average.code(),
        tempo_led: g.tempo_led.code(),
        midi_clock: g.midi_clock.code(),
        transport_to_din: 0,
        pad_threshold: g.pad_threshold,
        _unknown_08: 0,
        pad_curve: g.pad_curve.code(),
        pad_gain: g.pad_gain,
        note_display: g.note_display.code(),
    }
}

/// The record whose bytes are the 11 bytes `s`.
pub open spec fn raw_global_of(s: Seq<u8>) -> RawGlobal {
    RawGlobal {
        common_channel: s[0],
        lcd_contrast: s[1],
        tap_average: s[2],
        tempo_led: s[3],
        midi_clock: s[4],
        transport_to_din: s[5],
        pad_threshold: s[6],
        _unknown_08: s[7],
        pad_curve: s[8],
        pad_gain: s[9],
        note_display: s[10],
    }
}

/// What a global dump body reads as: three bytes that are skipped, then the
/// 11 parameters; any other length is refused with that length.
pub open spec fn global_bytes_decoded(data: Seq<u8>) -> Result<Global, GlobalParseError> {
    if data.len() != 14 {
        Err(GlobalParseError::InvalidLength(data.len() as usize))
    } else {
        global_decoded(raw_global_of(data.subrange(3, 14)))
    }
}

impl Global {
    /// Reads stored global parameters.
    pub fn from_raw(raw: RawGlobal) -> (res: Result<Self, GlobalParseError>)
        ensures
            res == global_decoded(raw),
    {
        let common_channel = match UsbChannel::from_code(raw.common_channel) {
            Some(v) => v,
            None => {
                return Err(GlobalParseError::CommonChannel(raw.common_channel));
            },
        };
        let tap_average = match TapAverage::from_code(raw.tap_average) {
            Some(v) => v,
            None => {
                return Err(GlobalParseError::TapAverage(raw.tap_average));
            },
        };
        let tempo_led = match ActiveState::from_code(raw.tempo_led) {
            Some(v) => v,
            None => {
                return Err(GlobalParseError::TempoLed(raw.tempo_led));
            },
        };
        let note_display = match NoteDisplay::from_code(raw.note_display) {
            Some(v) => v,
            None => {
                return Err(GlobalParseError::NoteDisplay(raw.note_display));
            },
        };
        let pad_curve = match PadCurve::from_code(raw.pad_curve) {
            Some(v) => v,
            None => {
                return Err(GlobalParseError::PadCurve(raw.pad_curve));
            },
        };
        let midi_clock = match MidiClock::from_code(raw.midi_clock) {
            Some(v) => v,
            None => {
                return Err(GlobalParseError::MidiClock(raw.midi_clock));
            },
        };
        Ok(
            Global {
                common_channel,
                lcd_contrast: raw.lcd_contrast,
                tap_average,
                tempo_led,
                note_display,
                pad_threshold: raw.pad_threshold,
                pad_curve,
                pad_gain: raw.pad_gain,
                midi_clock,
            },
        )
    }

    /// The stored form of the parameters.
    pub fn to_raw(&self) -> (res: RawGlobal)
        ensures
            res == global_raw(*self),
    {
        RawGlobal {
            common_channel: self.common_channel.as_u8(),
            lcd_contrast: self.lcd_contrast,
            tap_average: self.tap_average.as_u8(),
            tempo_led: self.tempo_led.as_u8(),
            note_display: self.note_display.as_u8(),
            transport_to_din: 0,
            midi_clock: self.midi_clock.as_u8(),
            _unknown_08: 0,
            pad_threshold: self.pad_threshold,
            pad_curve: self.pad_curve.as_u8(),
            pad_gain: self.pad_gain,
        }
    }

    /// Reads the body of a global dump: three bytes that are skipped, then
    /// the parameters.
    pub fn from_bytes(value: &[u8]) -> (res: Result<Self, GlobalParseError>)
        ensures
            res == global_bytes_decoded(value@),
    {
        if value.len() != 14 {
            return Err(GlobalParseError::InvalidLength(value.len()));
        }
        let raw = RawGlobal::from_bytes(&value[3..14]);
        assert(raw == raw_global_of(value@.subrange(3, 14)));
        Self::from_raw(raw)
    }
}

/// The record built from the bytes of a record is that record.
pub proof fn lemma_raw_global_of(r: RawGlobal)
    ensures
        raw_global_of(r.bytes()) == r,
{
}

/// Storing global parameters and reading them back gives the same parameters.
pub proof fn lemma_global_round_trip(g: Global)
    ensures
        global_decoded(global_raw(g)) == Ok::<Global, GlobalParseError>(g),
{
    UsbChannel::lemma_code(0, g.common_channel);
    TapAverage::lemma_code(0, g.tap_average);
    ActiveState::lemma_code(0, g.tempo_led);
    NoteDisplay::lemma_code(0, g.note_display);
    PadCurve::lemma_code(0, g.pad_curve);
    MidiClock::lemma_code(0, g.midi_clock);
}

/// Reading stored parameters and storing them again gives back the same
/// record, but for the transport byte and the unknown byte, which become
/// zero.
pub proof fn lemma_global_decode_encode(r: RawGlobal)
    ensures
        global_decoded(r) matches Ok(g) ==> global_raw(g) == (RawGlobal { transport_to_din: 0, _unknown_08: 0, ..r }),
{
    if let Ok(g) = global_decoded(r) {
        UsbChannel::lemma_code(r.common_channel, g.common_channel);
        TapAverage::lemma_code(r.tap_average, g.tap_average);
        ActiveState::lemma_code(r.tempo_led, g.tempo_led);
        NoteDisplay::lemma_code(r.note_display, g.note_display);
        PadCurve::lemma_code(r.pad_curve, g.pad_curve);
        MidiClock::lemma_code(r.midi_clock, g.midi_clock);
    }
}

/// The conversion goes through [`Global::from_raw`].
impl vstd::std_specs::convert::TryFromSpecImpl<RawGlobal> for Global {
    open spec fn obeys_try_from_spec() -> bool {
        true
    }

    open spec fn try_from_spec(raw: RawGlobal) -> Result<Self, GlobalParseError> {
        global_decoded(raw)
    }
}

impl TryFrom<RawGlobal> for Global {
    type Error = GlobalParseError;

    fn try_from(raw: RawGlobal) -> (res: Result<Self, GlobalParseError>) {
        Global::from_raw(raw)
    }
}

/// The conversion goes through [`Global::from_bytes`].
impl<'a> vstd::std_specs::convert::TryFromSpecImpl<&'a [u8]> for Global {
    open spec fn obeys_try_from_spec() -> bool {
        true
    }

    open spec fn try_from_spec(value: &'a [u8]) -> Result<Self, GlobalParseError> {
        global_bytes_decoded(value@)
    }
}

impl<'a> TryFrom<&'a [u8]> for Global {
    type Error = GlobalParseError;

    fn try_from(value: &'a [u8]) -> (res: Result<Self, GlobalParseError>) {
        Global::from_bytes(value)
    }
}

/// The conversion goes through [`Global::to_raw`].
impl<'a> vstd::std_specs::convert::FromSpecImpl<&'a Global> for RawGlobal {
    open spec fn obeys_from_spec() -> bool {
        true
    }

    open spec fn from_spec(g: &'a Global) -> Self {
        global_raw(*g)
    }
}

impl<'a> From<&'a Global> for RawGlobal {
    fn from(g: &'a Global) -> (res: Self) {
        g.to_raw()
    }
}

/// The stored bytes of preset settings; the unused bytes are zero.
pub open spec fn settings_bytes(s: PresetSettings) -> Seq<u8> {
    seq![s.preset_slot.code()] + s.preset_name.0@ + seq![0u8] + packed_u14(s.tempo.0) + seq![
        s.time_division_switch.code(),
        s.time_division.code(),
        s.note_repeat_switch.code(),
        s.gate.value,
        s.swing.code(),
        0u8,
        0u8,
        0u8,
        0u8,
        0u8,
        s.transport.code(),
    ]
}

/// The fixed bytes that end a stored preset.
pub open spec fn footer_bytes() -> Seq<u8> {
    seq![4u8, 0u8, 0u8, 4u8, 0u8, 2u8, 4u8, 0u8, 4u8, 4u8, 0u8, 6u8]
}

/// The stored bytes of pads one after another.
pub open spec fn pads_bytes(s: Seq<Pad>) -> Seq<u8>
    decreases s.len(),
{
    if s.len() == 0 {
        Seq::empty()
    } else {
        pads_bytes(s.drop_last()) + pad_bytes(s.last())
    }
}

/// Records that store pads one for one hold their bytes.
proof fn lemma_pads_bytes(r: Seq<RawPad>, s: Seq<Pad>)
    requires
        r.len() == s.len(),
        forall|i: int| 0 <= i < r.len() ==> (#[trigger] r[i]).bytes() == pad_bytes(s[i]),
    ensures
        RawPad::seq_bytes(r) == pads_bytes(s),
    decreases r.len(),
{
    if r.len() > 0 {
        lemma_pads_bytes(r.drop_last(), s.drop_last());
    }
}

/// The stored records of pads, one for one.
fn raw_pads(s: &[Pad; 64]) -> (res: [RawPad; 64])
    ensures
        forall|i: int| 0 <= i < 64 ==> (#[trigger] res@[i]).bytes() == pad_bytes(s@[i]),
{
    let first = RawPad::from_bytes(s[0].as_bytes().as_slice());
    let mut res = [first; 64];
    let mut i: usize = 1;
    while i < 64
        invariant
            1 <= i <= 64,
            res@.len() == 64,
            forall|j: int| 0 <= j < i ==> (#[trigger] res@[j]).bytes() == pad_bytes(s@[j]),
        decreases 64 - i,
    {
        let b = s[i].as_bytes();
        res[i] = RawPad::from_bytes(b.as_slice());
        i = i + 1;
    }
    res
}

/// The stored bytes of dials one after another.
pub open spec fn dials_bytes(s: Seq<Dial>) -> Seq<u8>
    decreases s.len(),
{
    if s.len() == 0 {
        Seq::empty()
    } else {
        dials_bytes(s.drop_last()) + dial_bytes(s.last())
    }
}

/// Records that store dials one for one hold their bytes.
proof fn lemma_dials_bytes(r: Seq<RawDial>, s: Seq<Dial>)
    requires
        r.len() == s.len(),
        forall|i: int| 0 <= i < r.len() ==> (#[trigger] r[i]).bytes() == dial_bytes(s[i]),
    ensures
        RawDial::seq_bytes(r) == dials_bytes(s),
    decreases r.len(),
{
    if r.len() > 0 {
        lemma_dials_bytes(r.drop_last(), s.drop_last());
    }
}

/// The stored records of dials, one for one.
fn raw_dials(s: &[Dial; 12]) -> (res: [RawDial; 12])
    ensures
        forall|i: int| 0 <= i < 12 ==> (#[trigger] res@[i]).bytes() == dial_bytes(s@[i]),
{
    let first = RawDial::from_bytes(s[0].as_bytes().as_slice());
    let mut res = [first; 12];
    let mut i: usize = 1;
    while i < 12
        invariant
            1 <= i <= 12,
            res@.len() == 12,
            forall|j: int| 0 <= j < i ==> (#[trigger] res@[j]).bytes() == dial_bytes(s@[j]),
        decreases 12 - i,
    {
        let b = s[i].as_bytes();
        res[i] = RawDial::from_bytes(b.as_slice());
        i = i + 1;
    }
    res
}

/// The stored bytes of faders one after another.
pub open spec fn faders_bytes(s: Seq<Fader>) -> Seq<u8>
    decreases s.len(),
{
    if s.len() == 0 {
        Seq::empty()
    } else {
        faders_bytes(s.drop_last()) + fader_bytes(s.last())
    }
}

/// Records that store faders one for one hold their bytes.
proof fn lemma_faders_bytes(r: Seq<RawFader>, s: Seq<Fader>)
    requires
        r.len() == s.len(),
        forall|i: int| 0 <= i < r.len() ==> (#[trigger] r[i]).bytes() == fader_bytes(s[i]),
    ensures
        RawFader::seq_bytes(r) == faders_bytes(s),
    decreases r.len(),
{
    if r.len() > 0 {
        lemma_faders_bytes(r.drop_last(), s.drop_last());
    }
}

/// The stored records of faders, one for one.
fn raw_faders(s: &[Fader; 12]) -> (res: [RawFader; 12])
    ensures
        forall|i: int| 0 <= i < 12 ==> (#[trigger] res@[i]).bytes() == fader_bytes(s@[i]),
{
    let first = RawFader::from_bytes(s[0].as_bytes().as_slice());
    let mut res = [first; 12];
    let mut i: usize = 1;
    while i < 12
        invariant
            1 <= i <= 12,
            res@.len() == 12,
            forall|j: int| 0 <= j < i ==> (#[trigger] res@[j]).bytes() == fader_bytes(s@[j]),
        decreases 12 - i,
    {
        let b = s[i].as_bytes();
        res[i] = RawFader::from_bytes(b.as_slice());
        i = i + 1;
    }
    res
}

/// The stored bytes of switches one after another.
pub open spec fn switches_bytes(s: Seq<Switch>) -> Seq<u8>
    decreases s.len(),
{
    if s.len() == 0 {
        Seq::empty()
    } else {
        switches_bytes(s.drop_last()) + switch_bytes(s.last())
    }
}

/// Records that store switches one for one hold their bytes.
proof fn lemma_switches_bytes(r: Seq<RawSwitch>, s: Seq<Switch>)
    requires
        r.len() == s.len(),
        forall|i: int| 0 <= i < r.len() ==> (#[trigger] r[i]).bytes() == switch_bytes(s[i]),
    ensures
        RawSwitch::seq_bytes(r) == switches_bytes(s),
    decreases r.len(),
{
    if r.len() > 0 {
        lemma_switches_bytes(r.drop_last(), s.drop_last());
    }
}

/// The stored records of switches, one for one.
fn raw_switches(s: &[Switch; 12]) -> (res: [RawSwitch; 12])
    ensures
        forall|i: int| 0 <= i < 12 ==> (#[trigger] res@[i]).bytes() == switch_bytes(s@[i]),
{
    let first = RawSwitch::from_bytes(s[0].as_bytes().as_slice());
    let mut res = [first; 12];
    let mut i: usize = 1;
    while i < 12
        invariant
            1 <= i <= 12,
            res@.len() == 12,
            forall|j: int| 0 <= j < i ==> (#[trigger] res@[j]).bytes() == switch_bytes(s@[j]),
        decreases 12 - i,
    {
        let b = s[i].as_bytes();
        res[i] = RawSwitch::from_bytes(b.as_slice());
        i = i + 1;
    }
    res
}

/// A preset: its settings and its controls.
#[derive(Clone, Copy, Debug)]
pub struct Preset {
    pub settings: PresetSettings,
    pub pads: PadRepository,
    pub dials: DialRepository,
    pub faders: FaderRepository,
    pub switches: SwitchRepository,
}

/// The stored bytes of a preset: settings, pads, dials, faders, switches and
/// the fixed footer.
pub open spec fn preset_bytes(p: Preset) -> Seq<u8> {
    settings_bytes(p.settings) + pads_bytes(p.pads.pads@) + dials_bytes(p.dials.0@) + faders_bytes(p.faders.0@)
        + switches_bytes(p.switches.0@) + footer_bytes()
}

/// Whether `r` stores the preset `p`.
pub open spec fn stores_preset(r: RawPreset, p: Preset) -> bool {
    &&& stores_settings(r.settings, p.settings)
    &&& forall|i: int| 0 <= i < 64 ==> (#[trigger] r.pads@[i]).bytes() == pad_bytes(p.pads.pads@[i])
    &&& forall|i: int| 0 <= i < 12 ==> (#[trigger] r.dials@[i]).bytes() == dial_bytes(p.dials.0@[i])
    &&& forall|i: int| 0 <= i < 12 ==> (#[trigger] r.faders@[i]).bytes() == fader_bytes(p.faders.0@[i])
    &&& forall|i: int| 0 <= i < 12 ==> (#[trigger] r.switches@[i]).bytes() == switch_bytes(p.switches.0@[i])
    &&& r.footer_magic@ == footer_bytes()
}

/// A record that stores a preset holds the preset's bytes.
pub proof fn lemma_stored_preset_bytes(r: RawPreset, p: Preset)
    requires
        stores_preset(r, p),
    ensures
        r.bytes() == preset_bytes(p),
{
    assert(r.settings.bytes() =~= settings_bytes(p.settings));
    lemma_pads_bytes(r.pads@, p.pads.pads@);
    lemma_dials_bytes(r.dials@, p.dials.0@);
    lemma_faders_bytes(r.faders@, p.faders.0@);
    lemma_switches_bytes(r.switches@, p.switches.0@);
}

/// What a stored preset reads as: every part reads.
pub open spec fn preset_read(r: RawPreset, p: Preset) -> bool {
    &&& settings_decoded(r.settings) == Ok::<PresetSettings, PresetSettingsParseError>(p.settings)
    &&& pads_read(r.pads@, p.pads.pads@)
    &&& dials_read(r.dials@, p.dials.0@)
    &&& faders_read(r.faders@, p.faders.0@)
    &&& switches_read(r.switches@, p.switches.0@)
}

/// Why a stored preset cannot be read: the first part that cannot be read,
/// in the order settings, pads, dials, faders, switches.
pub open spec fn preset_fail(r: RawPreset, e: PresetParseError) -> bool {
    match settings_decoded(r.settings) {
        Err(se) => e == PresetParseError::PresetSettings(se),
        Ok(_) => if !pads_all_read(r.pads@) {
            pads_fail(r.pads@, e)
        } else if !dials_all_read(r.dials@) {
            dials_fail(r.dials@, e)
        } else if !faders_all_read(r.faders@) {
            faders_fail(r.faders@, e)
        } else {
            !switches_all_read(r.switches@) && switches_fail(r.switches@, e)
        },
    }
}

impl Preset {
    /// The stored form of the preset.
    pub fn to_raw(&self) -> (res: RawPreset)
        ensures
            stores_preset(res, *self),
    {
        let res = RawPreset {
            settings: self.settings.to_raw(),
            pads: raw_pads(&self.pads.pads),
            dials: raw_dials(&self.dials.0),
            faders: raw_faders(&self.faders.0),
            switches: raw_switches(&self.switches.0),
            footer_magic: [4, 0, 0, 4, 0, 2, 4, 0, 4, 4, 0, 6],
        };
        assert(res.footer_magic@ =~= footer_bytes());
        res
    }

    /// The stored bytes of the preset.
    pub fn as_bytes(&self) -> (res: Vec<u8>)
        ensures
            res@ == preset_bytes(*self),
    {
        let raw = self.to_raw();
        proof {
            lemma_stored_preset_bytes(raw, *self);
        }
        raw.as_bytes()
    }

    /// The message payload that writes the preset: the write header, then
    /// the stored bytes.
    pub fn as_sysex_write(&self) -> (res: Sysex)
        ensures
            res@ == write_preset_header() + preset_bytes(*self),
    {
        let preset = self.as_bytes();
        let header = RawHeader::write_preset();
        let mut bytes = header.as_bytes();
        extend_bytes(&mut bytes, preset.as_slice());
        assert(header.bytes() =~= write_preset_header());
        Sysex::new(bytes)
    }

    /// Reads a stored preset; fails with the first part that cannot be read.
    pub fn from_raw(raw: RawPreset) -> (res: Result<Self, PresetParseError>)
        ensures
            match res {
                Ok(p) => preset_read(raw, p),
                Err(e) => preset_fail(raw, e),
            },
    {
        let settings = match PresetSettings::from_raw(raw.settings) {
            Ok(s) => s,
            Err(e) => {
                return Err(PresetParseError::PresetSettings(e));
            },
        };
        let pads = match PadRepository::from_raw(RawPads(raw.pads)) {
            Ok(p) => p,
            Err(e) => {
                proof {
                    lemma_pads_fail(raw.pads@, e);
                }
                return Err(e);
            },
        };
        proof {
            lemma_pads_read(raw.pads@, pads.pads@);
        }
        let dials = match DialRepository::from_raw(RawDials(raw.dials)) {
            Ok(d) => d,
            Err(e) => {
                proof {
                    lemma_dials_fail(raw.dials@, e);
                }
                return Err(e);
            },
        };
        proof {
            lemma_dials_read(raw.dials@, dials.0@);
        }
        let faders = match FaderRepository::from_raw(RawFaders(raw.faders)) {
            Ok(f) => f,
            Err(e) => {
                proof {
                    lemma_faders_fail(raw.faders@, e);
                }
                return Err(e);
            },
        };
        proof {
            lemma_faders_read(raw.faders@, faders.0@);
        }
        let switches = match SwitchRepository::from_raw(RawSwitches(raw.switches)) {
            Ok(w) => w,
            Err(e) => {
                proof {
                    lemma_switches_fail(raw.switches@, e);
                }
                return Err(e);
            },
        };
        Ok(Preset { settings, pads, dials, faders, switches })
    }

    /// Reads the 1075 stored bytes of a preset.
    pub fn from_bytes(value: &[u8]) -> (res: Result<Self, PresetParseError>)
        requires
            value@.len() == RawPreset::SIZE,
        ensures
            exists|r: RawPreset|
                #[trigger] r.bytes() == value@ && match res {
                    Ok(p) => preset_read(r, p),
                    Err(e) => preset_fail(r, e),
                },
    {
        let raw = RawPreset::from_bytes(value);
        let res = Self::from_raw(raw);
        assert(raw.bytes() == value@);
        res
    }
}

/// The conversion goes through [`Preset::from_raw`], whose contract states
/// the result.
impl vstd::std_specs::convert::TryFromSpecImpl<RawPreset> for Preset {
    open spec fn obeys_try_from_spec() -> bool {
        false
    }

    closed spec fn try_from_spec(raw: RawPreset) -> Result<Self, PresetParseError> {
        arbitrary()
    }
}

impl TryFrom<RawPreset> for Preset {
    type Error = PresetParseError;

    fn try_from(raw: RawPreset) -> (res: Result<Self, PresetParseError>)
        ensures
            match res {
                Ok(p) => preset_read(raw, p),
                Err(e) => preset_fail(raw, e),
            },
    {
        Preset::from_raw(raw)
    }
}

/// The conversion goes through [`Preset::to_raw`], whose contract states the
/// result.
impl<'a> vstd::std_specs::convert::FromSpecImpl<&'a Preset> for RawPreset {
    open spec fn obeys_from_spec() -> bool {
        false
    }

    closed spec fn from_spec(p: &'a Preset) -> Self {
        arbitrary()
    }
}

impl<'a> From<&'a Preset> for RawPreset {
    fn from(p: &'a Preset) -> (res: Self)
        ensures
            stores_preset(res, *p),
    {
        p.to_raw()
    }
}

/// The controllers of the dials of a new preset.
pub open spec fn generic_dial_cc() -> Seq<u8> {
    seq![3u8, 9u8, 14u8, 15u8, 52u8, 53u8, 54u8, 55u8, 83u8, 85u8, 86u8, 87u8]
}

/// The controllers of the faders of a new preset.
pub open spec fn generic_fader_cc() -> Seq<u8> {
    seq![20u8, 21u8, 22u8, 23u8, 61u8, 62u8, 63u8, 70u8, 92u8, 93u8, 94u8, 95u8]
}

/// The controllers of the switches of a new preset.
pub open spec fn generic_switch_cc() -> Seq<u8> {
    seq![28u8, 29u8, 30u8, 31u8, 75u8, 76u8, 77u8, 78u8, 106u8, 107u8, 108u8, 109u8]
}

/// The unlit colours of the pads of a new preset, one for each four pads.
pub open spec fn default_off_colors() -> Seq<PadColor> {
    seq![
        PadColor::Red,
        PadColor::Green,
        PadColor::Blue,
        PadColor::LightPurple,
        PadColor::Orange,
        PadColor::GreenBlue,
        PadColor::Purple,
        PadColor::LightGreen,
        PadColor::Amber,
        PadColor::Aqua,
        PadColor::Pink,
        PadColor::LightPink,
        PadColor::Yellow,
        PadColor::LightBlue,
        PadColor::HotPink,
        PadColor::Grey,
    ]
}

/// The lit colours of the pads of a new preset, one for each four pads.
pub open spec fn default_on_colors() -> Seq<PadColor> {
    seq![
        PadColor::Green,
        PadColor::Blue,
        PadColor::LightPurple,
        PadColor::Orange,
        PadColor::GreenBlue,
        PadColor::Purple,
        PadColor::LightGreen,
        PadColor::Amber,
        PadColor::Aqua,
        PadColor::Pink,
        PadColor::LightPink,
        PadColor::Yellow,
        PadColor::LightBlue,
        PadColor::HotPink,
        PadColor::Grey,
        PadColor::Yellow,
    ]
}

/// Whether the dials, faders and switches are those of a new preset.
pub open spec fn has_generic_controls(p: Preset) -> bool {
    &&& forall|i: int| 0 <= i < 12 ==> #[trigger] p.dials.0@[i] == (Dial { midicc: generic_dial_cc()[i], ..fresh_dial() })
    &&& forall|i: int| 0 <= i < 12 ==> #[trigger] p.faders.0@[i] == (Fader { midicc: generic_fader_cc()[i], ..fresh_fader() })
    &&& forall|i: int| 0 <= i < 12 ==> #[trigger] p.switches.0@[i] == (Switch { midicc: generic_switch_cc()[i], ..fresh_switch() })
}

/// Runs of four pads each: a run covers four places, and the place `pos`
/// has the colour of run `pos / 4`.
proof fn lemma_runs_of_four(runs: Seq<ColorSequence>, pos: int)
    requires
        forall|k: int| 0 <= k < runs.len() ==> (#[trigger] runs[k]).len == 4,
        0 <= pos < 4 * runs.len(),
    ensures
        cycle_len(runs) == 4 * runs.len(),
        color_in(runs, pos) == runs[pos / 4].color,
    decreases runs.len(),
{
    lemma_cycle_len_fours(runs);
    if pos >= 4 {
        let rest = runs.subrange(1, runs.len() as int);
        lemma_runs_of_four(rest, pos - 4);
        assert(rest[(pos - 4) / 4] == runs[pos / 4]);
    }
}

/// Runs of four pads each cover four pads a run.
proof fn lemma_cycle_len_fours(runs: Seq<ColorSequence>)
    requires
        forall|k: int| 0 <= k < runs.len() ==> (#[trigger] runs[k]).len == 4,
    ensures
        cycle_len(runs) == 4 * runs.len(),
    decreases runs.len(),
{
    if runs.len() > 0 {
        lemma_cycle_len_fours(runs.drop_last());
    }
}

/// A repeating pattern of runs of four pads with the given colours.
fn runs_of_four(colors: Vec<PadColor>) -> (res: ColorPattern)
    ensures
        res.runs().len() == colors@.len(),
        forall|k: int| 0 <= k < colors@.len() ==> #[trigger] res.runs()[k] == (ColorSequence { len: 4, color: colors@[k] }),
{
    let mut runs: Vec<ColorSequence> = Vec::new();
    let mut k: usize = 0;
    while k < colors.len()
        invariant
            k <= colors@.len(),
            runs@.len() == k,
            forall|j: int| 0 <= j < k ==> #[trigger] runs@[j] == (ColorSequence { len: 4, color: colors@[j] }),
        decreases colors@.len() - k,
    {
        runs.push(ColorSequence { len: 4, color: colors[k] });
        k = k + 1;
    }
    ColorPattern::Repeating(runs)
}

/// A pattern of 16 runs of four pads gives pad `i` the colour of run `i / 4`.
proof fn lemma_pattern_of_fours(pattern: ColorPattern, colors: Seq<PadColor>, i: int)
    requires
        colors.len() == 16,
        pattern.runs().len() == 16,
        forall|k: int| 0 <= k < 16 ==> #[trigger] pattern.runs()[k] == (ColorSequence { len: 4, color: colors[k] }),
        0 <= i < 64,
    ensures
        pattern.cycle_fits(),
        pattern_color(pattern, i) == colors[i / 4],
{
    let runs = pattern.runs();
    assert forall|k: int| 0 <= k < runs.len() implies (#[trigger] runs[k]).len == 4 by {
        assert(runs[k] == (ColorSequence { len: 4, color: colors[k] }));
    }
    lemma_runs_of_four(runs, i);
    assert(cycle_len(runs) == 64);
    assert(i % 64 == i);
    assert(pattern_color(pattern, i) == color_in(runs, i));
    assert(runs[i / 4] == (ColorSequence { len: 4, color: colors[i / 4] }));
}

impl Preset {
    /// A preset with new settings, the chromatic scale up from middle C on
    /// the pads, unlit, and the generic controllers on dials, faders and
    /// switches.
    pub fn blank() -> (res: Self)
        ensures
            is_default_settings(res.settings),
            is_default_pads(res.pads.pads@),
            has_generic_controls(res),
    {
        let settings = PresetSettings::default();
        let pads = PadRepository::default();
        let dials = DialRepository::with_cc_values([3, 9, 14, 15, 52, 53, 54, 55, 83, 85, 86, 87]);
        let faders = FaderRepository::with_cc_values([20, 21, 22, 23, 61, 62, 63, 70, 92, 93, 94, 95]);
        let switches = SwitchRepository::with_cc_values([28, 29, 30, 31, 75, 76, 77, 78, 106, 107, 108, 109]);
        Self { settings, pads, dials, faders, switches }
    }
}

/// A new preset: blank, with its pads coloured in groups of four.
pub open spec fn is_default_preset(p: Preset) -> bool {
    &&& is_default_settings(p.settings)
    &&& forall|i: int|
        0 <= i < 64 ==> #[trigger] p.pads.pads@[i] == (Pad {
            note: note_of((60 + i) as u8),
            off_color: default_off_colors()[i / 4],
            on_color: default_on_colors()[i / 4],
            ..fresh_pad(i as usize)
        })
    &&& has_generic_controls(p)
}

impl Default for Preset {
    /// A blank preset whose pads are coloured in groups of four.
    fn default() -> (res: Self)
        ensures
            is_default_preset(res),
    {
        let mut preset = Preset::blank();
        let off = runs_of_four(
            vec![
                PadColor::Red,
                PadColor::Green,
                PadColor::Blue,
                PadColor::LightPurple,
                PadColor::Orange,
                PadColor::GreenBlue,
                PadColor::Purple,
                PadColor::LightGreen,
                PadColor::Amber,
                PadColor::Aqua,
                PadColor::Pink,
                PadColor::LightPink,
                PadColor::Yellow,
                PadColor::LightBlue,
                PadColor::HotPink,
                PadColor::Grey,
            ],
        );
        let on = runs_of_four(
            vec![
                PadColor::Green,
                PadColor::Blue,
                PadColor::LightPurple,
                PadColor::Orange,
                PadColor::GreenBlue,
                PadColor::Purple,
                PadColor::LightGreen,
                PadColor::Amber,
                PadColor::Aqua,
                PadColor::Pink,
                PadColor::LightPink,
                PadColor::Yellow,
                PadColor::LightBlue,
                PadColor::HotPink,
                PadColor::Grey,
                PadColor::Yellow,
            ],
        );
        proof {
            lemma_pattern_of_fours(off, default_off_colors(), 0);
            lemma_pattern_of_fours(on, default_on_colors(), 0);
        }
        let ghost before = preset.pads.pads@;
        preset.pads.set_off_color_pattern(0, 64, off);
        let ghost middle = preset.pads.pads@;
        preset.pads.set_on_color_pattern(0, 64, on);
        proof {
            assert forall|i: int| 0 <= i < 64 implies #[trigger] preset.pads.pads@[i] == (Pad {
                note: note_of((60 + i) as u8),
                off_color: default_off_colors()[i / 4],
                on_color: default_on_colors()[i / 4],
                ..fresh_pad(i as usize)
            }) by {
                lemma_pattern_of_fours(off, default_off_colors(), i);
                lemma_pattern_of_fours(on, default_on_colors(), i);
                assert(before[i] == (Pad { note: note_of((60 + i) as u8), ..fresh_pad(i as usize) }));
            }
        }
        preset
    }
}

/// What the device sent.
#[derive(Debug, Clone)]
pub enum DeviceStatus {
    ReceivedPresetAck(PresetAck),
    PresetData(Box<Preset>),
    GlobalData(Box<Global>),
    GlobalParamAck(GlobalParamAck),
}

/// What the data of a message with status `cmd` reads as: a preset dump must
/// hold 1075 bytes.
pub open spec fn status_outcome(
    cmd: DeviceStatusId,
    data: Seq<u8>,
    res: Result<DeviceStatus, DeviceStatusParseError>,
) -> bool {
    match cmd {
        DeviceStatusId::WritePreset => if data.len() != 1075 {
            res == Err::<DeviceStatus, DeviceStatusParseError>(DeviceStatusParseError::InvalidMsg)
        } else {
            exists|r: RawPreset|
                #[trigger] r.bytes() == data && match res {
                    Ok(DeviceStatus::PresetData(p)) => preset_read(r, *p),
                    Err(DeviceStatusParseError::PresetDeserialization(e)) => preset_fail(r, e),
                    _ => false,
                }
        },
        DeviceStatusId::PresetAck => match preset_ack_bytes_decoded(data) {
            Ok(a) => res == Ok::<DeviceStatus, DeviceStatusParseError>(DeviceStatus::ReceivedPresetAck(a)),
            Err(e) => res == Err::<DeviceStatus, DeviceStatusParseError>(DeviceStatusParseError::PresetAck(e)),
        },
        DeviceStatusId::WriteGlobal => match global_bytes_decoded(data) {
            Ok(g) => res matches Ok(DeviceStatus::GlobalData(b)) && *b == g,
            Err(e) => res == Err::<DeviceStatus, DeviceStatusParseError>(
                DeviceStatusParseError::GlobalDeserialization(e),
            ),
        },
        DeviceStatusId::GlobalAck => match global_ack_bytes_decoded(data) {
            Ok(a) => res == Ok::<DeviceStatus, DeviceStatusParseError>(DeviceStatus::GlobalParamAck(a)),
            Err(e) => res == Err::<DeviceStatus, DeviceStatusParseError>(DeviceStatusParseError::GlobalAck(e)),
        },
    }
}

/// What a message payload reads as: a header of this device, a known status,
/// then the data for that status.
pub open spec fn payload_outcome(p: Seq<u8>, res: Result<DeviceStatus, DeviceStatusParseError>) -> bool {
    if !header_valid(p) {
        res == Err::<DeviceStatus, DeviceStatusParseError>(DeviceStatusParseError::InvalidHeader)
    } else {
        match DeviceStatusId::of_code(p[3]) {
            None => res == Err::<DeviceStatus, DeviceStatusParseError>(DeviceStatusParseError::InvalidCommand(p[3])),
            Some(cmd) => status_outcome(cmd, p.subrange(6, p.len() as int), res),
        }
    }
}

impl DeviceStatus {
    /// Reads the data of a message by its status.
    pub fn from_payload(value: DeviceMessagePayload<DeviceStatusId>) -> (res: Result<Self, DeviceStatusParseError>)
        ensures
            status_outcome(value.header.cmd, value.data@, res),
    {
        match value.header.cmd {
            DeviceStatusId::WritePreset => {
                if value.data.len() != RawPreset::SIZE {
                    return Err(DeviceStatusParseError::InvalidMsg);
                }
                match Preset::from_bytes(value.data.as_slice()) {
                    Ok(p) => Ok(DeviceStatus::PresetData(Box::new(p))),
                    Err(e) => Err(DeviceStatusParseError::PresetDeserialization(e)),
                }
            },
            DeviceStatusId::PresetAck => match PresetAck::from_bytes(value.data.as_slice()) {
                Ok(a) => Ok(DeviceStatus::ReceivedPresetAck(a)),
                Err(e) => Err(DeviceStatusParseError::PresetAck(e)),
            },
            DeviceStatusId::WriteGlobal => match Global::from_bytes(value.data.as_slice()) {
                Ok(g) => Ok(DeviceStatus::GlobalData(Box::new(g))),
                Err(e) => Err(DeviceStatusParseError::GlobalDeserialization(e)),
            },
            DeviceStatusId::GlobalAck => match GlobalParamAck::from_bytes(value.data.as_slice()) {
                Ok(a) => Ok(DeviceStatus::GlobalParamAck(a)),
                Err(e) => Err(DeviceStatusParseError::GlobalAck(e)),
            },
        }
    }

    /// Reads a framed message from the device.
    pub fn from_bytes(value: &[u8]) -> (res: Result<Self, DeviceStatusParseError>)
        ensures
            match parse_frame(value@) {
                Err(e) => res == Err::<DeviceStatus, DeviceStatusParseError>(DeviceStatusParseError::InvalidSysex(e)),
                Ok(p) => payload_outcome(p, res),
            },
    {
        let payload: DeviceMessagePayload<DeviceStatusId> = match DeviceMessagePayload::from_bytes(value) {
            Ok(m) => m,
            Err(e) => {
                return Err(e);
            },
        };
        Self::from_payload(payload)
    }

    /// Reads a message from the device; a payload that is not a message of
    /// this device with a known status is refused as an invalid header.
    pub fn from_sysex(value: Sysex) -> (res: Result<Self, DeviceStatusParseError>)
        ensures
            header_valid(value@) && DeviceStatusId::of_code(value@[3]) is None ==> res
                == Err::<DeviceStatus, DeviceStatusParseError>(DeviceStatusParseError::InvalidHeader),
            !(header_valid(value@) && DeviceStatusId::of_code(value@[3]) is None) ==> payload_outcome(value@, res),
    {
        let payload: DeviceMessagePayload<DeviceStatusId> = match DeviceMessagePayload::from_sysex(&value) {
            Ok(m) => m,
            Err(_) => {
                return Err(DeviceStatusParseError::InvalidHeader);
            },
        };
        Self::from_payload(payload)
    }
}

/// The conversion goes through [`DeviceStatus::from_bytes`], whose contract
/// states the result.
impl<'a> vstd::std_specs::convert::TryFromSpecImpl<&'a [u8]> for DeviceStatus {
    open spec fn obeys_try_from_spec() -> bool {
        false
    }

    closed spec fn try_from_spec(value: &'a [u8]) -> Result<Self, DeviceStatusParseError> {
        arbitrary()
    }
}

impl<'a> TryFrom<&'a [u8]> for DeviceStatus {
    type Error = DeviceStatusParseError;

    fn try_from(value: &'a [u8]) -> (res: Result<Self, DeviceStatusParseError>)
        ensures
            match parse_frame(value@) {
                Err(e) => res == Err::<DeviceStatus, DeviceStatusParseError>(DeviceStatusParseError::InvalidSysex(e)),
                Ok(p) => payload_outcome(p, res),
            },
    {
        DeviceStatus::from_bytes(value)
    }
}

/// The conversion goes through [`DeviceStatus::from_payload`], whose
/// contract states the result.
impl vstd::std_specs::convert::TryFromSpecImpl<DeviceMessagePayload<DeviceStatusId>> for DeviceStatus {
    open spec fn obeys_try_from_spec() -> bool {
        false
    }

    closed spec fn try_from_spec(value: DeviceMessagePayload<DeviceStatusId>) -> Result<Self, DeviceStatusParseError> {
        arbitrary()
    }
}

impl TryFrom<DeviceMessagePayload<DeviceStatusId>> for DeviceStatus {
    type Error = DeviceStatusParseError;

    fn try_from(value: DeviceMessagePayload<DeviceStatusId>) -> (res: Result<Self, DeviceStatusParseError>)
        ensures
            status_outcome(value.header.cmd, value.data@, res),
    {
        DeviceStatus::from_payload(value)
    }
}

/// The conversion goes through [`DeviceStatus::from_sysex`], whose contract
/// states the result.
impl vstd::std_specs::convert::TryFromSpecImpl<Sysex> for DeviceStatus {
    open spec fn obeys_try_from_spec() -> bool {
        false
    }

    closed spec fn try_from_spec(value: Sysex) -> Result<Self, DeviceStatusParseError> {
        arbitrary()
    }
}

impl TryFrom<Sysex> for DeviceStatus {
    type Error = DeviceStatusParseError;

    fn try_from(value: Sysex) -> (res: Result<Self, DeviceStatusParseError>)
        ensures
            header_valid(value@) && DeviceStatusId::of_code(value@[3]) is None ==> res
                == Err::<DeviceStatus, DeviceStatusParseError>(DeviceStatusParseError::InvalidHeader),
            !(header_valid(value@) && DeviceStatusId::of_code(value@[3]) is None) ==> payload_outcome(value@, res),
    {
        DeviceStatus::from_sysex(value)
    }
}

/// Stored pads take 11 bytes each.
proof fn lemma_pads_bytes_len(s: Seq<Pad>)
    ensures
        pads_bytes(s).len() == 11 * s.len(),
    decreases s.len(),
{
    if s.len() > 0 {
        lemma_pads_bytes_len(s.drop_last());
    }
}

/// Stored dials take 9 bytes each.
proof fn lemma_dials_bytes_len(s: Seq<Dial>)
    ensures
        dials_bytes(s).len() == 9 * s.len(),
    decreases s.len(),
{
    if s.len() > 0 {
        lemma_dials_bytes_len(s.drop_last());
    }
}

/// Stored faders take 6 bytes each.
proof fn lemma_faders_bytes_len(s: Seq<Fader>)
    ensures
        faders_bytes(s).len() == 6 * s.len(),
    decreases s.len(),
{
    if s.len() > 0 {
        lemma_faders_bytes_len(s.drop_last());
    }
}

/// Stored switches take 13 bytes each.
proof fn lemma_switches_bytes_len(s: Seq<Switch>)
    ensures
        switches_bytes(s).len() == 13 * s.len(),
    decreases s.len(),
{
    if s.len() > 0 {
        lemma_switches_bytes_len(s.drop_last());
    }
}

/// Every preset is stored in 1075 bytes.
pub proof fn lemma_preset_bytes_len(p: Preset)
    ensures
        preset_bytes(p).len() == RawPreset::SIZE,
{
    lemma_pads_bytes_len(p.pads.pads@);
    lemma_dials_bytes_len(p.dials.0@);
    lemma_faders_bytes_len(p.faders.0@);
    lemma_switches_bytes_len(p.switches.0@);
}

/// Whether the stored form of a preset reads back as the same preset: pad
/// ids equal their places, a gate from 1 to 99, a tempo below 16384.
pub open spec fn preset_storable(p: Preset) -> bool {
    &&& forall|i: int| 0 <= i < 64 ==> (#[trigger] p.pads.pads@[i]).id == i
    &&& 1 <= p.settings.gate.value <= 99
    &&& p.settings.tempo.0 < 16384
}

/// The stored form of a preset with pad ids equal to their places, a gate
/// from 1 to 99 and a tempo below 16384 reads back as the preset.
pub proof fn lemma_preset_round_trip(p: Preset, r: RawPreset)
    requires
        stores_preset(r, p),
        preset_storable(p),
    ensures
        preset_read(r, p),
{
    lemma_settings_encode_decode(p.settings, r.settings);
    assert forall|i: int| 0 <= i < 64 implies pad_decoded(i as usize, r.pads@[i]) == Ok::<Pad, PadParseError>(
        #[trigger] p.pads.pads@[i],
    ) by {
        lemma_pad_encode_decode(p.pads.pads@[i], r.pads@[i]);
    }
    assert forall|i: int| 0 <= i < 12 implies dial_decoded(r.dials@[i]) == Ok::<Dial, DialParseError>(
        #[trigger] p.dials.0@[i],
    ) by {
        lemma_dial_encode_decode(p.dials.0@[i], r.dials@[i]);
    }
    assert forall|i: int| 0 <= i < 12 implies fader_decoded(r.faders@[i]) == Ok::<Fader, FaderParseError>(
        #[trigger] p.faders.0@[i],
    ) by {
        lemma_fader_encode_decode(p.faders.0@[i], r.faders@[i]);
    }
    assert forall|i: int| 0 <= i < 12 implies switch_decoded(r.switches@[i]) == Ok::<Switch, SwitchParseError>(
        #[trigger] p.switches.0@[i],
    ) by {
        lemma_switch_encode_decode(p.switches.0@[i], r.switches@[i]);
    }
}

/// The payload of a preset write starts with a header of this device with
/// the write command and length 1075, and the stored preset follows it.
pub proof fn lemma_write_preset_payload(p: Preset)
    ensures
        ({
            let q = write_preset_header() + preset_bytes(p);
            &&& header_valid(q)
            &&& q[3] == DeviceCommandId::WritePreset.code()
            &&& unpacked_u14(q[4], q[5]) == RawPreset::SIZE
            &&& q.subrange(6, q.len() as int) == preset_bytes(p)
        }),
{
    let q = write_preset_header() + preset_bytes(p);
    assert(q.subrange(6, q.len() as int) =~= preset_bytes(p));
}

/// A global dump body of three skipped bytes and stored parameters reads as
/// the parameters.
pub proof fn lemma_global_dump_reads_back(prefix: Seq<u8>, g: Global)
    requires
        prefix.len() == 3,
    ensures
        global_bytes_decoded(prefix + global_raw(g).bytes()) == Ok::<Global, GlobalParseError>(g),
{
    let d = prefix + global_raw(g).bytes();
    assert(raw_global_of(d.subrange(3, 14)) == global_raw(g));
    lemma_global_round_trip(g);
}

/// The colours of the pitch classes, keyed by the number of the class
/// (0 = C).
#[derive(Clone, Debug)]
pub struct NoteColorMap(pub HashMap<u8, PadColor>);

/// The colours of the default map: a gradient over the twelve classes.
pub open spec fn chromatic_gradient() -> Map<u8, PadColor> {
    map![
        0u8 => PadColor::Red,
        1u8 => PadColor::HotPink,
        2u8 => PadColor::Pink,
        3u8 => PadColor::LightPurple,
        4u8 => PadColor::Purple,
        5u8 => PadColor::Blue,
        6u8 => PadColor::LightBlue,
        7u8 => PadColor::Aqua,
        8u8 => PadColor::GreenBlue,
        9u8 => PadColor::Green,
        10u8 => PadColor::Yellow,
        11u8 => PadColor::Orange,
    ]
}

impl NoteColorMap {
    /// A gradient from red through purple, blue and green to orange over
    /// the twelve classes from C up.
    pub fn default_chromatic_gradient() -> (res: Self)
        ensures
            res.0@ == chromatic_gradient(),
    {
        broadcast use vstd::std_specs::hash::group_hash_axioms;

        let mut hm: HashMap<u8, PadColor> = HashMap::with_capacity(12);
        hm.insert(0, PadColor::Red);
        hm.insert(1, PadColor::HotPink);
        hm.insert(2, PadColor::Pink);
        hm.insert(3, PadColor::LightPurple);
        hm.insert(4, PadColor::Purple);
        hm.insert(5, PadColor::Blue);
        hm.insert(6, PadColor::LightBlue);
        hm.insert(7, PadColor::Aqua);
        hm.insert(8, PadColor::GreenBlue);
        hm.insert(9, PadColor::Green);
        hm.insert(10, PadColor::Yellow);
        hm.insert(11, PadColor::Orange);
        assert(hm@ =~= chromatic_gradient());
        Self(hm)
    }
}

impl Default for NoteColorMap {
    fn default() -> (res: Self)
        ensures
            res.0@ == chromatic_gradient(),
    {
        Self::default_chromatic_gradient()
    }
}

/// The `i`-th pitch of a pitch pattern.
pub open spec fn pattern_pitch(np: PitchPattern, i: nat) -> Pitch {
    match np {
        PitchPattern::Scale(s) => scale_walk(Pitch { class: s.tonic, octave: s.octave }, s.scale, s.direction, i),
        PitchPattern::ChordRow(s) => chord_row_pitch(s, i),
    }
}

/// One run of one pad for each pitch whose class has a colour, in order;
/// pitches without a colour are skipped.
pub open spec fn mapped_runs(pitches: Seq<Pitch>, colors: Map<u8, PadColor>) -> Seq<ColorSequence>
    decreases pitches.len(),
{
    if pitches.len() == 0 {
        Seq::empty()
    } else {
        let rest = mapped_runs(pitches.drop_last(), colors);
        let key = pitches.last().class as u8;
        if colors.contains_key(key) {
            rest.push(ColorSequence { len: 1, color: colors[key] })
        } else {
            rest
        }
    }
}

impl ColorPattern {
    /// The colours of the pitches of a pattern, one pad each, skipping
    /// pitches whose class has no colour.
    pub fn from_pitches(np: PitchPattern, m: &NoteColorMap) -> (res: ColorPattern)
        requires
            np matches PitchPattern::ChordRow(s) ==> s.octave_fits(),
        ensures
            res.runs() == mapped_runs(Seq::new(np.spec_len() as nat, |i: int| pattern_pitch(np, i as nat)), m.0@),
    {
        broadcast use vstd::std_specs::hash::group_hash_axioms;

        let pcs = np.as_pitches();
        let ghost pitches = Seq::new(np.spec_len() as nat, |i: int| pattern_pitch(np, i as nat));
        assert(pcs.0@ =~= pitches);
        let mut pattern: Vec<ColorSequence> = Vec::new();
        let mut k: usize = 0;
        while k < pcs.0.len()
            invariant
                k <= pcs.0@.len(),
                pcs.0@ == pitches,
                pattern@ == mapped_runs(pitches.take(k as int), m.0@),
            decreases pcs.0@.len() - k,
        {
            let key = u8::from(pcs.0[k].class);
            assert(pitches.take(k + 1).drop_last() =~= pitches.take(k as int));
            match m.0.get(&key) {
                Some(c) => {
                    pattern.push(ColorSequence { len: 1, color: *c });
                },
                None => {},
            }
            k = k + 1;
        }
        assert(pitches.take(pitches.len() as int) =~= pitches);
        ColorPattern::Repeating(pattern)
    }
}

/// The conversion goes through [`ColorPattern::from_pitches`], whose
/// contract states the result.
impl vstd::std_specs::convert::FromSpecImpl<(PitchPattern, NoteColorMap)> for ColorPattern {
    open spec fn obeys_from_spec() -> bool {
        false
    }

    closed spec fn from_spec(value: (PitchPattern, NoteColorMap)) -> Self {
        arbitrary()
    }
}

impl From<(PitchPattern, NoteColorMap)> for ColorPattern {
    /// Chord rows whose octave does not fit give no colours.
    fn from(value: (PitchPattern, NoteColorMap)) -> (res: Self)
        ensures
            (value.0 matches PitchPattern::ChordRow(s) ==> s.octave_fits()) ==> res.runs() == mapped_runs(
                Seq::new(value.0.spec_len() as nat, |i: int| pattern_pitch(value.0, i as nat)),
                value.1.0@,
            ),
    {
        let (np, m) = value;
        let fits = match np {
            PitchPattern::Scale(_) => true,
            PitchPattern::ChordRow(s) => match s.voicing {
                ChordVoicing::Triad => !(s.length > 3 && s.octave.0 == 127),
                _ => true,
            },
        };
        if fits {
            ColorPattern::from_pitches(np, &m)
        } else {
            ColorPattern::Repeating(Vec::new())
        }
    }
}

/// The notes that a row of pads can be given.
#[derive(Clone, Copy, Debug)]
pub enum NotePattern {
    Scale(ScaleSequence),
}

/// `len` pads in a row that share one colour.
#[derive(Clone, Copy, Debug, PartialEq, Eq, Structural)]
pub struct ColorSequence {
    pub len: usize,
    pub color: PadColor,
}

/// Colours laid over a row of pads.
#[derive(Clone, Debug)]
pub enum ColorPattern {
    /// The runs of colour in turn, the whole cycle over again.
    Repeating(Vec<ColorSequence>),
}

/// The number of pads that the runs cover together.
pub open spec fn cycle_len(runs: Seq<ColorSequence>) -> nat
    decreases runs.len(),
{
    if runs.len() == 0 {
        0
    } else {
        cycle_len(runs.drop_last()) + runs.last().len as nat
    }
}

/// The colour of the pad `pos` places into the runs: that of the run which
/// covers it; `Off` past the last run.
pub open spec fn color_in(runs: Seq<ColorSequence>, pos: int) -> PadColor
    decreases runs.len(),
{
    if runs.len() == 0 {
        PadColor::Off
    } else if pos < runs[0].len {
        runs[0].color
    } else {
        color_in(runs.subrange(1, runs.len() as int), pos - runs[0].len)
    }
}

/// The colour that a pattern gives the pad `index` places from its start:
/// the runs repeat; a pattern that covers no pad gives `Off`.
pub open spec fn pattern_color(pattern: ColorPattern, index: int) -> PadColor {
    let runs = pattern.runs();
    if cycle_len(runs) == 0 {
        PadColor::Off
    } else {
        color_in(runs, index % (cycle_len(runs) as int))
    }
}

/// A prefix of the runs covers no more pads than all of them.
pub proof fn lemma_cycle_len_prefix(runs: Seq<ColorSequence>, k: int)
    requires
        0 <= k <= runs.len(),
    ensures
        cycle_len(runs.take(k)) <= cycle_len(runs),
    decreases runs.len(),
{
    if k < runs.len() {
        assert(runs.drop_last().take(k) =~= runs.take(k));
        lemma_cycle_len_prefix(runs.drop_last(), k);
    } else {
        assert(runs.take(k) =~= runs);
    }
}

/// One more run adds its length to the prefix.
proof fn lemma_cycle_len_step(runs: Seq<ColorSequence>, k: int)
    requires
        0 <= k < runs.len(),
    ensures
        cycle_len(runs.take(k + 1)) == cycle_len(runs.take(k)) + runs[k].len,
{
    assert(runs.take(k + 1).drop_last() =~= runs.take(k));
}

impl ColorPattern {
    /// The runs of the pattern.
    pub open spec fn runs(self) -> Seq<ColorSequence> {
        match self {
            ColorPattern::Repeating(v) => v@,
        }
    }

    /// Whether the pattern has no run.
    pub open spec fn is_empty(self) -> bool {
        self.runs().len() == 0
    }

    /// Whether the number of pads a cycle covers fits in a `usize`.
    pub open spec fn cycle_fits(self) -> bool {
        cycle_len(self.runs()) <= usize::MAX
    }

    /// Whether the pattern has no run.
    pub fn is_empty_pattern(&self) -> (res: bool)
        ensures
            res == self.is_empty(),
    {
        match self {
            ColorPattern::Repeating(v) => v.len() == 0,
        }
    }

    /// The colour of the pad `index` places from the start of the pattern.
    pub fn color_at_index(&self, index: usize) -> (res: PadColor)
        requires
            self.cycle_fits(),
        ensures
            res == pattern_color(*self, index as int),
    {
        match self {
            ColorPattern::Repeating(sequences) => {
                let ghost runs = sequences@;
                if sequences.len() == 0 {
                    return PadColor::Off;
                }
                let mut total: usize = 0;
                let mut k: usize = 0;
                while k < sequences.len()
                    invariant
                        runs == sequences@,
                        k <= runs.len(),
                        cycle_len(runs) <= usize::MAX,
                        total == cycle_len(runs.take(k as int)),
                    decreases runs.len() - k,
                {
                    proof {
                        lemma_cycle_len_step(runs, k as int);
                        lemma_cycle_len_prefix(runs, k as int + 1);
                    }
                    total = total + sequences[k].len;
                    k = k + 1;
                }
                assert(runs.take(runs.len() as int) =~= runs);
                if total == 0 {
                    return PadColor::Off;
                }
                let position = index % total;
                assert(pattern_color(*self, index as int) == color_in(runs, position as int));
                let mut accumulated: usize = 0;
                let mut k: usize = 0;
                while k < sequences.len()
                    invariant
                        runs == sequences@,
                        k <= runs.len(),
                        cycle_len(runs) == total,
                        total <= usize::MAX,
                        position < total,
                        pattern_color(*self, index as int) == color_in(runs, position as int),
                        accumulated == cycle_len(runs.take(k as int)),
                        accumulated <= position,
                        color_in(runs, position as int) == color_in(
                            runs.subrange(k as int, runs.len() as int),
                            position - accumulated,
                        ),
                    decreases runs.len() - k,
                {
                    proof {
                        lemma_cycle_len_step(runs, k as int);
                        lemma_cycle_len_prefix(runs, k as int + 1);
                    }
                    let len = sequences[k].len;
                    let ghost rest = runs.subrange(k as int, runs.len() as int);
                    assert(rest[0] == runs[k as int]);
                    if position < accumulated + len {
                        assert(color_in(rest, position - accumulated) == rest[0].color);
                        return sequences[k].color;
                    }
                    assert(rest.subrange(1, rest.len() as int) =~= runs.subrange(
                        k + 1,
                        runs.len() as int,
                    ));
                    accumulated = accumulated + len;
                    k = k + 1;
                }
                proof {
                    assert(runs.take(runs.len() as int) =~= runs);
                }
                sequences[sequences.len() - 1].color
            },
        }
    }
}


/// The byte of a [`GlobalParamCmdId`] is 1 plus its place in declaration order, and
/// exactly the bytes from 1 to 11 stand for a variant.
pub proof fn lemma_global_param_cmd_id_code_is_place(v: GlobalParamCmdId, b: u8)
    ensures
        v.code() == v as u8 + 1,
        (GlobalParamCmdId::of_code(b) is Some) == (1 <= b < 12),
        GlobalParamCmdId::of_code(b) matches Some(w) ==> w as u8 + 1 == b,
{
}

/// The bytes of the [`DeviceStatusId`] variants, as the device defines them; no
/// other byte stands for a variant.
pub proof fn lemma_device_status_id_code_table(v: DeviceStatusId, b: u8)
    ensures
        v.code() == (match v {
            DeviceStatusId::WritePreset => 0x10u8,
            DeviceStatusId::PresetAck => 0x11u8,
            DeviceStatusId::WriteGlobal => 0x34u8,
            DeviceStatusId::GlobalAck => 0x3cu8,
        }),
        (DeviceStatusId::of_code(b) is Some) == (b == 0x10 || b == 0x11 || b == 0x34 || b == 0x3c),
{
}

/// The bytes of the [`DeviceCommandId`] variants, as the device defines them; no
/// other byte stands for a variant.
pub proof fn lemma_device_command_id_code_table(v: DeviceCommandId, b: u8)
    ensures
        v.code() == (match v {
            DeviceCommandId::WritePreset => 0x10u8,
            DeviceCommandId::DumpPreset => 0x12u8,
            DeviceCommandId::DumpGlobal => 0x24u8,
            DeviceCommandId::WriteGlobal => 0x34u8,
        }),
        (DeviceCommandId::of_code(b) is Some) == (b == 0x10 || b == 0x12 || b == 0x24 || b == 0x34),
{
}

} // verus!
