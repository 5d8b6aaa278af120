//! The Arturia MiniLab mkII: its command messages, the replies it sends,
//! and a store of the parameter values it reported.

use std::collections::HashMap;

use vstd::prelude::*;
use vstd::string::StringExecFns;

use crate::IntoEnumIterator;
use crate::manufacturer::arturia::minilab_mk2::control::Button;
use crate::manufacturer::arturia::minilab_mk2::control::ControlId;
use crate::manufacturer::arturia::minilab_mk2::control::Knob;
use crate::manufacturer::arturia::minilab_mk2::control::ModWheel;
use crate::manufacturer::arturia::minilab_mk2::control::Pad;
use crate::manufacturer::arturia::minilab_mk2::control::PitchBend;
use crate::manufacturer::arturia::minilab_mk2::control::SustainPedal;
use crate::manufacturer::arturia::minilab_mk2::control::clamped_control;
use crate::manufacturer::arturia::minilab_mk2::control::clamped_pad;
use crate::midi::clamp_midi;
use crate::manufacturer::arturia::minilab_mk2::control::value_kind::MemorySlot;
use crate::manufacturer::arturia::minilab_mk2::error::DeviceStatusParseError;
use crate::manufacturer::arturia::minilab_mk2::error::GlobalParseError;
use crate::manufacturer::arturia::minilab_mk2::error::PresetParseError;
use crate::manufacturer::arturia::minilab_mk2::raw::RawControl;
use crate::manufacturer::arturia::minilab_mk2::raw::RawGlobal;
use crate::manufacturer::arturia::minilab_mk2::raw::RawPad;
use crate::manufacturer::arturia::minilab_mk2::raw::RawPreset;
use crate::sysex::Sysex;
use crate::sysex::extend_bytes;
use crate::sysex::framed;
use crate::sysex::lemma_parse_framed;
use crate::sysex::parse_frame;

pub mod control;
pub mod error;
pub mod raw;

verus! {

/// The number of knobs.
pub const TOTAL_KNOBS: usize = 16;

/// The number of knobs that also act with shift held.
pub const TOTAL_SHIFT_KNOBS: usize = 2;

/// The number of pads.
pub const TOTAL_PADS: usize = 16;

/// The parameter byte that marks a global parameter.
pub const GLOBAL_PARAM_MARKER: u8 = 0x40;

/// The first payload byte of an identity request or reply.
pub const IDENTITY_HEADER: u8 = 0x7E;

/// The payload length of an identity reply.
pub const IDENTITY_REPLY_LEN: usize = 15;

/// The manufacturer id of Arturia.
pub open spec fn manufacturer_id() -> Seq<u8> {
    seq![0x00, 0x20, 0x6B]
}

/// The bytes that open the payload of every command message.
pub open spec fn command_header() -> Seq<u8> {
    manufacturer_id() + seq![0x7F, 0x42]
}

/// The bytes that open the payload of every command message.
pub fn sysex_command_header() -> (res: [u8; 5])
    ensures
        res@ == command_header(),
{
    let res: [u8; 5] = [0x00, 0x20, 0x6B, 0x7F, 0x42];
    assert(res@ =~= command_header());
    res
}

/// What a command message asks of the device.
#[derive(Debug, Clone, Copy, PartialEq, Eq, Structural)]
pub enum OpCode {
    ReadParam,
    WriteParam,
    RecallMemory,
    StoreMemory,
}

impl OpCode {
    /// The byte that stands for the value.
    pub open spec fn code(self) -> u8 {
        match self {
            OpCode::ReadParam => 1,
            OpCode::WriteParam => 2,
            OpCode::RecallMemory => 5,
            OpCode::StoreMemory => 6,
        }
    }

    /// The value that byte `b` stands for, if any.
    pub open spec fn of_code(b: u8) -> Option<Self> {
        if b == 1 {
            Some(OpCode::ReadParam)
        } else if b == 2 {
            Some(OpCode::WriteParam)
        } else if b == 5 {
            Some(OpCode::RecallMemory)
        } else if b == 6 {
            Some(OpCode::StoreMemory)
        } else {
            None
        }
    }

    /// The byte that stands for the value.
    pub fn as_u8(self) -> (res: u8)
        ensures
            res == self.code(),
    {
        match self {
            OpCode::ReadParam => 1,
            OpCode::WriteParam => 2,
            OpCode::RecallMemory => 5,
            OpCode::StoreMemory => 6,
        }
    }

    /// The value that byte `b` stands for, if any.
    pub fn from_code(b: u8) -> (res: Option<Self>)
        ensures
            res == Self::of_code(b),
            res matches Some(v) ==> v.code() == b,
    {
        if b == 1 {
            Some(OpCode::ReadParam)
        } else if b == 2 {
            Some(OpCode::WriteParam)
        } else if b == 5 {
            Some(OpCode::RecallMemory)
        } else if b == 6 {
            Some(OpCode::StoreMemory)
        } else {
            None
        }
    }

    /// A byte that stands for a value is that value's byte, and a value's
    /// byte stands for it.
    pub proof fn lemma_code(b: u8, v: Self)
        ensures
            Self::of_code(b) matches Some(x) ==> x.code() == b,
            Self::of_code(v.code()) == Some(v),
    {
    }

}

impl From<OpCode> for u8 {
    fn from(v: OpCode) -> (res: u8) {
        v.as_u8()
    }
}

impl vstd::std_specs::convert::FromSpecImpl<OpCode> for u8 {
    open spec fn obeys_from_spec() -> bool {
        true
    }

    open spec fn from_spec(v: OpCode) -> u8 {
        v.code()
    }
}

impl TryFrom<u8> for OpCode {
    type Error = u8;

    fn try_from(b: u8) -> (res: Result<Self, u8>) {
        match Self::from_code(b) {
            Some(v) => Ok(v),
            None => Err(b),
        }
    }
}

impl vstd::std_specs::convert::TryFromSpecImpl<u8> for OpCode {
    open spec fn obeys_try_from_spec() -> bool {
        true
    }

    open spec fn try_from_spec(b: u8) -> Result<Self, u8> {
        match Self::of_code(b) {
            Some(v) => Ok(v),
            None => Err(b),
        }
    }
}

/// A parameter of a control.
#[derive(Debug, Clone, Copy, PartialEq, Eq, Hash, Structural)]
pub enum ParamId {
    Mode,
    Channel,
    Data1,
    Data2,
    Data3,
    Option,
    PadColorLive,
    PadColor,
}

impl ParamId {
    /// The byte that stands for the value.
    pub open spec fn code(self) -> u8 {
        match self {
            ParamId::Mode => 1,
            ParamId::Channel => 2,
            ParamId::Data1 => 3,
            ParamId::Data2 => 4,
            ParamId::Data3 => 5,
            ParamId::Option => 6,
            ParamId::PadColorLive => 16,
            ParamId::PadColor => 17,
        }
    }

    /// The value that byte `b` stands for, if any.
    pub open spec fn of_code(b: u8) -> Option<Self> {
        if b == 1 {
            Some(ParamId::Mode)
        } else if b == 2 {
            Some(ParamId::Channel)
        } else if b == 3 {
            Some(ParamId::Data1)
        } else if b == 4 {
            Some(ParamId::Data2)
        } else if b == 5 {
            Some(ParamId::Data3)
        } else if b == 6 {
            Some(ParamId::Option)
        } else if b == 16 {
            Some(ParamId::PadColorLive)
        } else if b == 17 {
            Some(ParamId::PadColor)
        } else {
            None
        }
    }

    /// The byte that stands for the value.
    pub fn as_u8(self) -> (res: u8)
        ensures
            res == self.code(),
    {
        match self {
            ParamId::Mode => 1,
            ParamId::Channel => 2,
            ParamId::Data1 => 3,
            ParamId::Data2 => 4,
            ParamId::Data3 => 5,
            ParamId::Option => 6,
            ParamId::PadColorLive => 16,
            ParamId::PadColor => 17,
        }
    }

    /// The value that byte `b` stands for, if any.
    pub fn from_code(b: u8) -> (res: Option<Self>)
        ensures
            res == Self::of_code(b),
            res matches Some(v) ==> v.code() == b,
    {
        if b == 1 {
            Some(ParamId::Mode)
        } else if b == 2 {
            Some(ParamId::Channel)
        } else if b == 3 {
            Some(ParamId::Data1)
        } else if b == 4 {
            Some(ParamId::Data2)
        } else if b == 5 {
            Some(ParamId::Data3)
        } else if b == 6 {
            Some(ParamId::Option)
        } else if b == 16 {
            Some(ParamId::PadColorLive)
        } else if b == 17 {
            Some(ParamId::PadColor)
        } else {
            None
        }
    }

    /// A byte that stands for a value is that value's byte, and a value's
    /// byte stands for it.
    pub proof fn lemma_code(b: u8, v: Self)
        ensures
            Self::of_code(b) matches Some(x) ==> x.code() == b,
            Self::of_code(v.code()) == Some(v),
    {
    }

    /// Every value, in order.
    pub fn all() -> (res: Vec<Self>)
        ensures
            res@ == seq![ParamId::Mode, ParamId::Channel, ParamId::Data1, ParamId::Data2, ParamId::Data3, ParamId::Option, ParamId::PadColorLive, ParamId::PadColor],
    {
        let res = vec![ParamId::Mode, ParamId::Channel, ParamId::Data1, ParamId::Data2, ParamId::Data3, ParamId::Option, ParamId::PadColorLive, ParamId::PadColor];
        res
    }

}

impl From<ParamId> for u8 {
    fn from(v: ParamId) -> (res: u8) {
        v.as_u8()
    }
}

impl vstd::std_specs::convert::FromSpecImpl<ParamId> for u8 {
    open spec fn obeys_from_spec() -> bool {
        true
    }

    open spec fn from_spec(v: ParamId) -> u8 {
        v.code()
    }
}

impl TryFrom<u8> for ParamId {
    type Error = u8;

    fn try_from(b: u8) -> (res: Result<Self, u8>) {
        match Self::from_code(b) {
            Some(v) => Ok(v),
            None => Err(b),
        }
    }
}

impl vstd::std_specs::convert::TryFromSpecImpl<u8> for ParamId {
    open spec fn obeys_try_from_spec() -> bool {
        true
    }

    open spec fn try_from_spec(b: u8) -> Result<Self, u8> {
        match Self::of_code(b) {
            Some(v) => Ok(v),
            None => Err(b),
        }
    }
}

impl IntoEnumIterator for ParamId {
    fn iter() -> std::vec::IntoIter<Self> {
        Self::all().into_iter()
    }
}

/// A global parameter of the device.
#[derive(Debug, Clone, Copy, PartialEq, Eq, Hash, Structural)]
pub enum GlobalParamId {
    KeyboardChannel,
    KeyVelocityCurve,
    PadVelocityCurve,
    KnobAcceleration,
    OctaveButtonBlink,
    PadOffBacklight,
}

impl GlobalParamId {
    /// The byte that stands for the value.
    pub open spec fn code(self) -> u8 {
        match self {
            GlobalParamId::KeyboardChannel => 6,
            GlobalParamId::KeyVelocityCurve => 25,
            GlobalParamId::PadVelocityCurve => 26,
            GlobalParamId::KnobAcceleration => 27,
            GlobalParamId::OctaveButtonBlink => 29,
            GlobalParamId::PadOffBacklight => 30,
        }
    }

    /// The value that byte `b` stands for, if any.
    pub open spec fn of_code(b: u8) -> Option<Self> {
        if b == 6 {
            Some(GlobalParamId::KeyboardChannel)
        } else if b == 25 {
            Some(GlobalParamId::KeyVelocityCurve)
        } else if b == 26 {
            Some(GlobalParamId::PadVelocityCurve)
        } else if b == 27 {
            Some(GlobalParamId::KnobAcceleration)
        } else if b == 29 {
            Some(GlobalParamId::OctaveButtonBlink)
        } else if b == 30 {
            Some(GlobalParamId::PadOffBacklight)
        } else {
            None
        }
    }

    /// The byte that stands for the value.
    pub fn as_u8(self) -> (res: u8)
        ensures
            res == self.code(),
    {
        match self {
            GlobalParamId::KeyboardChannel => 6,
            GlobalParamId::KeyVelocityCurve => 25,
            GlobalParamId::PadVelocityCurve => 26,
            GlobalParamId::KnobAcceleration => 27,
            GlobalParamId::OctaveButtonBlink => 29,
            GlobalParamId::PadOffBacklight => 30,
        }
    }

    /// The value that byte `b` stands for, if any.
    pub fn from_code(b: u8) -> (res: Option<Self>)
        ensures
            res == Self::of_code(b),
            res matches Some(v) ==> v.code() == b,
    {
        if b == 6 {
            Some(GlobalParamId::KeyboardChannel)
        } else if b == 25 {
            Some(GlobalParamId::KeyVelocityCurve)
        } else if b == 26 {
            Some(GlobalParamId::PadVelocityCurve)
        } else if b == 27 {
            Some(GlobalParamId::KnobAcceleration)
        } else if b == 29 {
            Some(GlobalParamId::OctaveButtonBlink)
        } else if b == 30 {
            Some(GlobalParamId::PadOffBacklight)
        } else {
            None
        }
    }

    /// A byte that stands for a value is that value's byte, and a value's
    /// byte stands for it.
    pub proof fn lemma_code(b: u8, v: Self)
        ensures
            Self::of_code(b) matches Some(x) ==> x.code() == b,
            Self::of_code(v.code()) == Some(v),
    {
    }

    /// Every value, in order.
    pub fn all() -> (res: Vec<Self>)
        ensures
            res@ == seq![GlobalParamId::KeyboardChannel, GlobalParamId::KeyVelocityCurve, GlobalParamId::PadVelocityCurve, GlobalParamId::KnobAcceleration, GlobalParamId::OctaveButtonBlink, GlobalParamId::PadOffBacklight],
    {
        let res = vec![GlobalParamId::KeyboardChannel, GlobalParamId::KeyVelocityCurve, GlobalParamId::PadVelocityCurve, GlobalParamId::KnobAcceleration, GlobalParamId::OctaveButtonBlink, GlobalParamId::PadOffBacklight];
        res
    }

}

impl From<GlobalParamId> for u8 {
    fn from(v: GlobalParamId) -> (res: u8) {
        v.as_u8()
    }
}

impl vstd::std_specs::convert::FromSpecImpl<GlobalParamId> for u8 {
    open spec fn obeys_from_spec() -> bool {
        true
    }

    open spec fn from_spec(v: GlobalParamId) -> u8 {
        v.code()
    }
}

impl TryFrom<u8> for GlobalParamId {
    type Error = u8;

    fn try_from(b: u8) -> (res: Result<Self, u8>) {
        match Self::from_code(b) {
            Some(v) => Ok(v),
            None => Err(b),
        }
    }
}

impl vstd::std_specs::convert::TryFromSpecImpl<u8> for GlobalParamId {
    open spec fn obeys_try_from_spec() -> bool {
        true
    }

    open spec fn try_from_spec(b: u8) -> Result<Self, u8> {
        match Self::of_code(b) {
            Some(v) => Ok(v),
            None => Err(b),
        }
    }
}

impl IntoEnumIterator for GlobalParamId {
    fn iter() -> std::vec::IntoIter<Self> {
        Self::all().into_iter()
    }
}

/// The bytes of a command message with the given body.
pub open spec fn command_bytes(body: Seq<u8>) -> Seq<u8> {
    framed(command_header() + body)
}

/// The bytes of a message that writes `value` to parameter `param` of
/// control `control`.
pub open spec fn write_value_bytes(param: u8, control: u8, value: u8) -> Seq<u8> {
    command_bytes(seq![OpCode::WriteParam.code(), 0x00, param, control, value])
}

/// The bytes of an identity reply that reports `firmware`.
pub open spec fn identity_reply_bytes(firmware: Seq<u8>) -> Seq<u8> {
    framed(seq![IDENTITY_HEADER, 0x00, 0x06, 0x02] + manufacturer_id() + seq![0x02, 0x00, 0x04, 0x02]
        + firmware)
}

fn command_message(body: &[u8]) -> (res: Vec<u8>)
    ensures
        res@ == command_bytes(body@),
{
    let header = sysex_command_header();
    let mut payload: Vec<u8> = Vec::new();
    extend_bytes(&mut payload, &header);
    extend_bytes(&mut payload, body);
    Sysex::new(payload).as_bytes()
}

/// The message that asks for parameter `param` of control `control`.
pub fn read_param_message(param: ParamId, control: ControlId) -> (res: Vec<u8>)
    ensures
        res@ == command_bytes(seq![OpCode::ReadParam.code(), 0x00, param.code(), control.code()]),
{
    let body = [OpCode::ReadParam.as_u8(), 0x00, param.as_u8(), control.as_u8()];
    assert(body@ =~= seq![OpCode::ReadParam.code(), 0x00, param.code(), control.code()]);
    command_message(&body)
}

/// The message that writes `value` to parameter `param` of control `control`.
pub fn write_param_message(param: ParamId, control: ControlId, value: u8) -> (res: Vec<u8>)
    ensures
        res@ == write_value_bytes(param.code(), control.code(), value),
{
    write_value_message(param.as_u8(), control.as_u8(), value)
}

/// The message that lights pad `pad` in colour number `color` at once,
/// without storing it in the preset.
pub fn set_pad_live_color_message(pad: ControlId, color: u8) -> (res: Vec<u8>)
    ensures
        res@ == write_value_bytes(ParamId::PadColorLive.code(), pad.code(), color),
{
    write_param_message(ParamId::PadColorLive, pad, color)
}

/// The message that writes `value` to parameter byte `param` of control
/// byte `control`.
pub fn write_value_message(param: u8, control: u8, value: u8) -> (res: Vec<u8>)
    ensures
        res@ == write_value_bytes(param, control, value),
{
    let body = [OpCode::WriteParam.as_u8(), 0x00, param, control, value];
    assert(body@ =~= seq![OpCode::WriteParam.code(), 0x00, param, control, value]);
    command_message(&body)
}

/// The message that asks for global parameter `param`.
pub fn read_global_message(param: GlobalParamId) -> (res: Vec<u8>)
    ensures
        res@ == command_bytes(seq![OpCode::ReadParam.code(), 0x00, GLOBAL_PARAM_MARKER, param.code()]),
{
    let body = [OpCode::ReadParam.as_u8(), 0x00, GLOBAL_PARAM_MARKER, param.as_u8()];
    assert(body@ =~= seq![OpCode::ReadParam.code(), 0x00, GLOBAL_PARAM_MARKER, param.code()]);
    command_message(&body)
}

/// The message that writes `value` to global parameter `param`.
pub fn write_global_message(param: GlobalParamId, value: u8) -> (res: Vec<u8>)
    ensures
        res@ == write_value_bytes(GLOBAL_PARAM_MARKER, param.code(), value),
{
    write_value_message(GLOBAL_PARAM_MARKER, param.as_u8(), value)
}

/// The message that makes memory `slot` the working parameters.
pub fn recall_memory_message(slot: MemorySlot) -> (res: Vec<u8>)
    ensures
        res@ == command_bytes(seq![OpCode::RecallMemory.code(), slot.code()]),
{
    let body = [OpCode::RecallMemory.as_u8(), slot.as_u8()];
    assert(body@ =~= seq![OpCode::RecallMemory.code(), slot.code()]);
    command_message(&body)
}

/// The message that stores the working parameters in memory `slot`.
pub fn store_memory_message(slot: MemorySlot) -> (res: Vec<u8>)
    ensures
        res@ == command_bytes(seq![OpCode::StoreMemory.code(), slot.code()]),
{
    let body = [OpCode::StoreMemory.as_u8(), slot.as_u8()];
    assert(body@ =~= seq![OpCode::StoreMemory.code(), slot.code()]);
    command_message(&body)
}

/// The universal identity request.
pub fn identity_request_message() -> (res: Vec<u8>)
    ensures
        res@ == framed(seq![IDENTITY_HEADER, 0x7F, 0x06, 0x01]),
{
    let payload: Vec<u8> = vec![IDENTITY_HEADER, 0x7F, 0x06, 0x01];
    assert(payload@ =~= seq![IDENTITY_HEADER, 0x7F, 0x06, 0x01]);
    Sysex::new(payload).as_bytes()
}

/// The identity reply of a MiniLab mkII with the given firmware version.
pub fn identity_reply_message(firmware: [u8; 4]) -> (res: Vec<u8>)
    ensures
        res@ == identity_reply_bytes(firmware@),
{
    let mut payload: Vec<u8> = vec![IDENTITY_HEADER, 0x00, 0x06, 0x02, 0x00, 0x20, 0x6B, 0x02, 0x00, 0x04, 0x02];
    assert(payload@ =~= seq![IDENTITY_HEADER, 0x00, 0x06, 0x02] + manufacturer_id() + seq![0x02, 0x00, 0x04, 0x02]);
    extend_bytes(&mut payload, &firmware);
    Sysex::new(payload).as_bytes()
}

/// A parameter value that the device reported.
#[derive(Debug, Clone, Copy, PartialEq, Eq, Structural)]
pub struct ParamValue {
    pub param: ParamId,
    pub control: ControlId,
    pub value: u8,
}

/// A global parameter value that the device reported.
#[derive(Debug, Clone, Copy, PartialEq, Eq, Structural)]
pub struct GlobalValue {
    pub param: GlobalParamId,
    pub value: u8,
}

/// The firmware version that the device reported.
#[derive(Debug, Clone, Copy, PartialEq, Eq)]
pub struct IdentityReply {
    pub firmware: [u8; 4],
}

/// A message from the device.
#[derive(Debug, Clone, Copy, PartialEq, Eq)]
pub enum DeviceStatus {
    ParamValue(ParamValue),
    GlobalValue(GlobalValue),
    IdentityReply(IdentityReply),
}

/// Whether a payload opens with the command header.
pub open spec fn has_command_header(p: Seq<u8>) -> bool {
    &&& p.len() >= 5
    &&& p[0] == 0x00
    &&& p[1] == 0x20
    &&& p[2] == 0x6B
    &&& p[3] == 0x7F
    &&& p[4] == 0x42
}

/// Whether an identity reply payload of the right length names Arturia as
/// its maker.
pub open spec fn identity_header_valid(p: Seq<u8>) -> bool {
    &&& p[2] == 0x06
    &&& p[3] == 0x02
    &&& p[4] == 0x00
    &&& p[5] == 0x20
    &&& p[6] == 0x6B
}

/// What the body of a command message (after the header) reads as.
pub open spec fn command_status(body: Seq<u8>) -> Result<DeviceStatus, DeviceStatusParseError> {
    if body.len() != 5 {
        Err(DeviceStatusParseError::InvalidLength(body.len() as usize))
    } else if body[0] != OpCode::WriteParam.code() {
        Err(DeviceStatusParseError::InvalidOpCode(body[0]))
    } else if body[2] == GLOBAL_PARAM_MARKER {
        match GlobalParamId::of_code(body[3]) {
            Some(param) => Ok(DeviceStatus::GlobalValue(GlobalValue { param, value: body[4] })),
            None => Err(DeviceStatusParseError::InvalidGlobalParam(body[3])),
        }
    } else {
        match ParamId::of_code(body[2]) {
            None => Err(DeviceStatusParseError::InvalidParam(body[2])),
            Some(param) => match ControlId::of_code(body[3]) {
                None => Err(DeviceStatusParseError::InvalidControl(body[3])),
                Some(control) => Ok(DeviceStatus::ParamValue(ParamValue { param, control, value: body[4] })),
            },
        }
    }
}

/// What a payload read as an identity reply gives: its length must be that
/// of a reply, then its header bytes must match, then it carries the
/// firmware version.
pub open spec fn identity_outcome(p: Seq<u8>, res: Result<DeviceStatus, DeviceStatusParseError>) -> bool {
    if p.len() != IDENTITY_REPLY_LEN {
        res == Err::<DeviceStatus, DeviceStatusParseError>(DeviceStatusParseError::InvalidLength(p.len() as usize))
    } else if !identity_header_valid(p) {
        res == Err::<DeviceStatus, DeviceStatusParseError>(DeviceStatusParseError::InvalidHeader)
    } else {
        res matches Ok(DeviceStatus::IdentityReply(r)) && r.firmware@ == p.subrange(11, 15)
    }
}

/// What a message payload reads as: an identity reply when it opens with the
/// identity byte, else a parameter value written back by the device.
pub open spec fn status_outcome(p: Seq<u8>, res: Result<DeviceStatus, DeviceStatusParseError>) -> bool {
    if p.len() > 0 && p[0] == IDENTITY_HEADER {
        identity_outcome(p, res)
    } else if !has_command_header(p) {
        res == Err::<DeviceStatus, DeviceStatusParseError>(DeviceStatusParseError::InvalidHeader)
    } else {
        res == command_status(p.skip(5))
    }
}

/// What a framed message reads as.
pub open spec fn bytes_outcome(data: Seq<u8>, res: Result<DeviceStatus, DeviceStatusParseError>) -> bool {
    match parse_frame(data) {
        Err(e) => res == Err::<DeviceStatus, DeviceStatusParseError>(DeviceStatusParseError::InvalidSysex(e)),
        Ok(p) => status_outcome(p, res),
    }
}

/// Reads the payload of an identity reply: its length, its header bytes,
/// then the firmware version.
pub fn parse_identity_reply(payload: &[u8]) -> (res: Result<DeviceStatus, DeviceStatusParseError>)
    ensures
        identity_outcome(payload@, res),
{
    if payload.len() != IDENTITY_REPLY_LEN {
        return Err(DeviceStatusParseError::InvalidLength(payload.len()));
    }
    if payload[2] != 0x06 || payload[3] != 0x02 {
        return Err(DeviceStatusParseError::InvalidHeader);
    }
    if payload[4] != 0x00 || payload[5] != 0x20 || payload[6] != 0x6B {
        return Err(DeviceStatusParseError::InvalidHeader);
    }
    let firmware: [u8; 4] = [payload[11], payload[12], payload[13], payload[14]];
    assert(firmware@ =~= payload@.subrange(11, 15));
    Ok(DeviceStatus::IdentityReply(IdentityReply { firmware }))
}

impl DeviceStatus {
    /// Reads the payload of a message from the device.
    pub fn from_sysex(value: &Sysex) -> (res: Result<Self, DeviceStatusParseError>)
        ensures
            status_outcome(value@, res),
    {
        let payload = value.payload();
        if payload.len() > 0 && payload[0] == IDENTITY_HEADER {
            return parse_identity_reply(payload);
        }
        if !(payload.len() >= 5 && payload[0] == 0x00 && payload[1] == 0x20 && payload[2] == 0x6B
            && payload[3] == 0x7F && payload[4] == 0x42) {
            return Err(DeviceStatusParseError::InvalidHeader);
        }
        let ghost body = payload@.skip(5);
        let len = payload.len() - 5;
        if len != 5 {
            return Err(DeviceStatusParseError::InvalidLength(len));
        }
        let op = payload[5];
        let param = payload[7];
        let control = payload[8];
        let value = payload[9];
        assert(body[0] == op && body[2] == param && body[3] == control && body[4] == value);
        match OpCode::from_code(op) {
            None => {
                return Err(DeviceStatusParseError::InvalidOpCode(op));
            },
            Some(o) => {
                if o != OpCode::WriteParam {
                    return Err(DeviceStatusParseError::InvalidOpCode(o.as_u8()));
                }
            },
        }
        if param == GLOBAL_PARAM_MARKER {
            return match GlobalParamId::from_code(control) {
                Some(p) => Ok(DeviceStatus::GlobalValue(GlobalValue { param: p, value })),
                None => Err(DeviceStatusParseError::InvalidGlobalParam(control)),
            };
        }
        let p = match ParamId::from_code(param) {
            Some(p) => p,
            None => {
                return Err(DeviceStatusParseError::InvalidParam(param));
            },
        };
        let c = match ControlId::from_code(control) {
            Some(c) => c,
            None => {
                return Err(DeviceStatusParseError::InvalidControl(control));
            },
        };
        Ok(DeviceStatus::ParamValue(ParamValue { param: p, control: c, value }))
    }

    /// Reads a framed message from the device.
    pub fn from_bytes(value: &[u8]) -> (res: Result<Self, DeviceStatusParseError>)
        ensures
            bytes_outcome(value@, res),
    {
        match Sysex::from_bytes(value) {
            Ok(s) => Self::from_sysex(&s),
            Err(e) => Err(DeviceStatusParseError::InvalidSysex(e)),
        }
    }
}

/// The conversion goes through [`DeviceStatus::from_bytes`], whose contract
/// states the result.
impl<'a> vstd::std_specs::convert::TryFromSpecImpl<&'a [u8]> for DeviceStatus {
    open spec fn obeys_try_from_spec() -> bool {
        false
    }

    closed spec fn try_from_spec(value: &'a [u8]) -> Result<Self, DeviceStatusParseError> {
        arbitrary()
    }
}

impl<'a> TryFrom<&'a [u8]> for DeviceStatus {
    type Error = DeviceStatusParseError;

    fn try_from(value: &'a [u8]) -> (res: Result<Self, DeviceStatusParseError>)
        ensures
            bytes_outcome(value@, res),
    {
        Self::from_bytes(value)
    }
}

/// The conversion goes through [`DeviceStatus::from_sysex`], whose contract
/// states the result.
impl vstd::std_specs::convert::TryFromSpecImpl<Sysex> for DeviceStatus {
    open spec fn obeys_try_from_spec() -> bool {
        false
    }

    closed spec fn try_from_spec(value: Sysex) -> Result<Self, DeviceStatusParseError> {
        arbitrary()
    }
}

impl TryFrom<Sysex> for DeviceStatus {
    type Error = DeviceStatusParseError;

    fn try_from(value: Sysex) -> (res: Result<Self, DeviceStatusParseError>)
        ensures
            status_outcome(value@, res),
    {
        Self::from_sysex(&value)
    }
}

/// A message that writes a control's parameter reads back as that parameter
/// value.
pub proof fn lemma_param_message_reads_back(
    param: ParamId,
    control: ControlId,
    value: u8,
    res: Result<DeviceStatus, DeviceStatusParseError>,
)
    requires
        bytes_outcome(write_value_bytes(param.code(), control.code(), value), res),
    ensures
        res == Ok::<DeviceStatus, DeviceStatusParseError>(
            DeviceStatus::ParamValue(ParamValue { param, control, value }),
        ),
{
    let body = seq![OpCode::WriteParam.code(), 0x00, param.code(), control.code(), value];
    let p = command_header() + body;
    lemma_parse_framed(p);
    assert(p.skip(5) =~= body);
    ParamId::lemma_code(param.code(), param);
    ControlId::lemma_code(control.code(), control);
}

/// A message that writes a global parameter reads back as that global value.
pub proof fn lemma_global_message_reads_back(
    param: GlobalParamId,
    value: u8,
    res: Result<DeviceStatus, DeviceStatusParseError>,
)
    requires
        bytes_outcome(write_value_bytes(GLOBAL_PARAM_MARKER, param.code(), value), res),
    ensures
        res == Ok::<DeviceStatus, DeviceStatusParseError>(
            DeviceStatus::GlobalValue(GlobalValue { param, value }),
        ),
{
    let body = seq![OpCode::WriteParam.code(), 0x00, GLOBAL_PARAM_MARKER, param.code(), value];
    let p = command_header() + body;
    lemma_parse_framed(p);
    assert(p.skip(5) =~= body);
    GlobalParamId::lemma_code(param.code(), param);
}

/// An identity reply reads back as the firmware version it reports.
pub proof fn lemma_identity_reply_reads_back(
    firmware: Seq<u8>,
    res: Result<DeviceStatus, DeviceStatusParseError>,
)
    requires
        firmware.len() == 4,
        bytes_outcome(identity_reply_bytes(firmware), res),
    ensures
        res matches Ok(DeviceStatus::IdentityReply(r)) && r.firmware@ == firmware,
{
    let p = seq![IDENTITY_HEADER, 0x00, 0x06, 0x02] + manufacturer_id() + seq![0x02, 0x00, 0x04, 0x02]
        + firmware;
    lemma_parse_framed(p);
    assert(p.subrange(11, 15) =~= firmware);
}

// ---------------------------------------------------------------------------
// The parameter store
// ---------------------------------------------------------------------------

/// The key under which a store keeps parameter byte `param` of control byte
/// `control`.
pub open spec fn param_key(param: u8, control: u8) -> u16 {
    (param * 256 + control) as u16
}

fn key_of(param: u8, control: u8) -> (res: u16)
    ensures
        res == param_key(param, control),
{
    (param as u16) * 256 + (control as u16)
}

/// Distinct parameter and control bytes are kept under distinct keys.
pub proof fn lemma_param_key_injective(p1: u8, c1: u8, p2: u8, c2: u8)
    ensures
        param_key(p1, c1) == param_key(p2, c2) ==> p1 == p2 && c1 == c2,
{
}

/// What a store holds after taking in a message from the device: a parameter
/// or global value is kept under its key, an identity reply changes nothing.
pub open spec fn applied(m: Map<u16, u8>, status: DeviceStatus) -> Map<u16, u8> {
    match status {
        DeviceStatus::ParamValue(pv) => m.insert(param_key(pv.param.code(), pv.control.code()), pv.value),
        DeviceStatus::GlobalValue(gv) => m.insert(param_key(GLOBAL_PARAM_MARKER, gv.param.code()), gv.value),
        DeviceStatus::IdentityReply(_) => m,
    }
}

/// Parameter values that the device reported, by parameter and control.
#[derive(Debug)]
pub struct ParamStore(HashMap<u16, u8>);

impl Clone for ParamStore {
    fn clone(&self) -> (res: Self)
        ensures
            res@ == self@,
    {
        ParamStore(self.0.clone())
    }
}

impl View for ParamStore {
    type V = Map<u16, u8>;

    closed spec fn view(&self) -> Map<u16, u8> {
        self.0@
    }
}

impl Default for ParamStore {
    fn default() -> (res: Self)
        ensures
            res@ == Map::<u16, u8>::empty(),
    {
        ParamStore(HashMap::new())
    }
}

/// The `k`-th of the six parameters of control byte `c` (mode, channel, the
/// three data bytes, option).
pub open spec fn control_key(c: u8, k: int) -> u16 {
    param_key((k + 1) as u8, c)
}

/// The `k`-th of the seven parameters of pad byte `c`: those of a control,
/// then its color.
pub open spec fn pad_key(c: u8, k: int) -> u16 {
    if k < 6 {
        control_key(c, k)
    } else {
        param_key(ParamId::PadColor.code(), c)
    }
}

/// The controls read with all six parameters: knobs, shift knobs, buttons
/// and the mod wheel.
pub open spec fn six_param_controls() -> Seq<ControlId> {
    ControlId::knobs_spec() + ControlId::shift_knobs_spec() + ControlId::buttons_spec() + seq![
        ControlId::ModWheel,
    ]
}

/// The number of parameters a preset is assembled from.
pub const PRESET_PARAMS: usize = 259;

/// The key of the `t`-th parameter a preset is assembled from: knobs, shift
/// knobs, buttons and mod wheel with six parameters each, the pitch bend with
/// mode, channel and option, the sustain pedal with six, then the pads with
/// seven each.
pub open spec fn preset_key(t: int) -> u16 {
    if t < 138 {
        control_key(six_param_controls()[t / 6].code(), t % 6)
    } else if t < 141 {
        control_key(ControlId::PitchBend.code(), if t == 138 { 0 } else if t == 139 { 1 } else { 5 })
    } else if t < 147 {
        control_key(ControlId::SustainPedal.code(), t - 141)
    } else {
        pad_key(ControlId::pads_spec()[(t - 147) / 7].code(), (t - 147) % 7)
    }
}

/// Whether the `k`-th parameter of control byte `c` is the first that `m`
/// lacks.
pub open spec fn control_gap(m: Map<u16, u8>, c: u8, k: int) -> bool {
    &&& 0 <= k
    &&& !m.contains_key(control_key(c, k))
    &&& forall|s: int| 0 <= s < k ==> m.contains_key(#[trigger] control_key(c, s))
}

/// Whether the `k`-th parameter of pad byte `c` is the first that `m` lacks.
pub open spec fn pad_gap(m: Map<u16, u8>, c: u8, k: int) -> bool {
    &&& 0 <= k
    &&& !m.contains_key(pad_key(c, k))
    &&& forall|s: int| 0 <= s < k ==> m.contains_key(#[trigger] pad_key(c, s))
}

/// Whether the `t`-th parameter of a preset is the first that `m` lacks.
pub open spec fn preset_gap(m: Map<u16, u8>, t: int) -> bool {
    &&& 0 <= t
    &&& !m.contains_key(preset_key(t))
    &&& forall|s: int| 0 <= s < t ==> m.contains_key(#[trigger] preset_key(s))
}

/// At most one index is the first gap of a store: the error of an
/// incomplete store names exactly the first missing parameter.
pub proof fn lemma_preset_gap_unique(m: Map<u16, u8>, t1: int, t2: int)
    requires
        preset_gap(m, t1),
        preset_gap(m, t2),
    ensures
        t1 == t2,
{
    if t1 < t2 {
        assert(m.contains_key(preset_key(t1)));
    } else if t2 < t1 {
        assert(m.contains_key(preset_key(t2)));
    }
}

/// Whether `e` names the parameter kept under key `k` as missing.
pub open spec fn names_missing(e: PresetParseError, k: u16) -> bool {
    e matches PresetParseError::MissingParam { param, control } && param_key(param, control) == k
}

/// The control that the six parameters of control byte `c` in `m` make.
pub open spec fn control_from(m: Map<u16, u8>, c: u8) -> RawControl {
    RawControl {
        mode: m[control_key(c, 0)],
        channel: m[control_key(c, 1)],
        data1: m[control_key(c, 2)],
        data2: m[control_key(c, 3)],
        data3: m[control_key(c, 4)],
        option: m[control_key(c, 5)],
    }
}

/// The pad that the seven parameters of pad byte `c` in `m` make.
pub open spec fn pad_from(m: Map<u16, u8>, c: u8) -> RawPad {
    RawPad {
        mode: m[pad_key(c, 0)],
        channel: m[pad_key(c, 1)],
        data1: m[pad_key(c, 2)],
        data2: m[pad_key(c, 3)],
        data3: m[pad_key(c, 4)],
        option: m[pad_key(c, 5)],
        color: m[pad_key(c, 6)],
    }
}

/// The pitch bend that its mode, channel and option in `m` make; its data
/// bytes are zero.
pub open spec fn pitch_bend_from(m: Map<u16, u8>) -> RawControl {
    let c = ControlId::PitchBend.code();
    RawControl {
        mode: m[control_key(c, 0)],
        channel: m[control_key(c, 1)],
        data1: 0,
        data2: 0,
        data3: 0,
        option: m[control_key(c, 5)],
    }
}

/// Whether `raw` is the preset that the parameters in `m` make.
pub open spec fn preset_read(m: Map<u16, u8>, raw: RawPreset) -> bool {
    &&& forall|j: int| 0 <= j < 16 ==> #[trigger] raw.knobs@[j] == control_from(m, ControlId::knobs_spec()[j].code())
    &&& forall|j: int| 0 <= j < 2 ==> #[trigger] raw.shift_knobs@[j] == control_from(m, ControlId::shift_knobs_spec()[j].code())
    &&& forall|j: int| 0 <= j < 4 ==> #[trigger] raw.buttons@[j] == control_from(m, ControlId::buttons_spec()[j].code())
    &&& raw.mod_wheel == control_from(m, ControlId::ModWheel.code())
    &&& raw.pitch_bend == pitch_bend_from(m)
    &&& raw.sustain_pedal == control_from(m, ControlId::SustainPedal.code())
    &&& forall|j: int| 0 <= j < 16 ==> #[trigger] raw.pads@[j] == pad_from(m, ControlId::pads_spec()[j].code())
}

/// The global parameters in the order they are stored.
pub open spec fn global_param_ids() -> Seq<GlobalParamId> {
    seq![
        GlobalParamId::KeyboardChannel,
        GlobalParamId::KeyVelocityCurve,
        GlobalParamId::PadVelocityCurve,
        GlobalParamId::KnobAcceleration,
        GlobalParamId::OctaveButtonBlink,
        GlobalParamId::PadOffBacklight,
    ]
}

/// The key of the `t`-th global parameter.
pub open spec fn global_key(t: int) -> u16 {
    param_key(GLOBAL_PARAM_MARKER, global_param_ids()[t].code())
}


/// Whether the `t`-th parameter of a preset is the first that `m` lacks
/// among those from the `base`-th on.
pub open spec fn segment_gap(m: Map<u16, u8>, base: int, t: int) -> bool {
    &&& base <= t
    &&& !m.contains_key(preset_key(t))
    &&& forall|s: int| base <= s < t ==> m.contains_key(#[trigger] preset_key(s))
}

proof fn lemma_six_key(i: int, k: int)
    requires
        0 <= i < 23,
        0 <= k < 6,
    ensures
        preset_key(6 * i + k) == control_key(six_param_controls()[i].code(), k),
{
    lemma_div_mod(6 * i + k, 6, i, k);
}

proof fn lemma_pad_key(j: int, k: int)
    requires
        0 <= j < 16,
        0 <= k < 7,
    ensures
        preset_key(147 + 7 * j + k) == pad_key(ControlId::pads_spec()[j].code(), k),
{
    lemma_div_mod(7 * j + k, 7, j, k);
}

proof fn lemma_join_gap(m: Map<u16, u8>, base: int, t: int)
    requires
        forall|s: int| 0 <= s < base ==> m.contains_key(#[trigger] preset_key(s)),
        segment_gap(m, base, t),
        0 <= base,
    ensures
        preset_gap(m, t),
{
    assert forall|s: int| 0 <= s < t implies m.contains_key(#[trigger] preset_key(s)) by {
        if s >= base {
            assert(m.contains_key(preset_key(s)));
        }
    }
}


/// Whether the `t`-th global parameter is the first that `m` lacks.
pub open spec fn global_gap(m: Map<u16, u8>, t: int) -> bool {
    &&& 0 <= t
    &&& !m.contains_key(global_key(t))
    &&& forall|s: int| 0 <= s < t ==> m.contains_key(#[trigger] global_key(s))
}

/// At most one global parameter is the first one missing from a store.
pub proof fn lemma_global_gap_unique(m: Map<u16, u8>, t1: int, t2: int)
    requires
        global_gap(m, t1),
        global_gap(m, t2),
    ensures
        t1 == t2,
{
    if t1 < t2 {
        assert(m.contains_key(global_key(t1)));
    } else if t2 < t1 {
        assert(m.contains_key(global_key(t2)));
    }
}

/// The values kept for the global parameters, in their order.
pub open spec fn global_values(m: Map<u16, u8>) -> Seq<u8> {
    Seq::new(6, |t: int| m[global_key(t)])
}

proof fn lemma_div_mod(t: int, n: int, q: int, r: int)
    requires
        n > 0,
        0 <= r < n,
        t == q * n + r,
    ensures
        t / n == q,
        t % n == r,
{
    vstd::arithmetic::div_mod::lemma_fundamental_div_mod_converse(t, n, q, r);
}

/// The byte of `raw` that the `t`-th parameter of a preset holds.
pub open spec fn preset_byte(raw: RawPreset, t: int) -> u8 {
    if t < 96 {
        raw.knobs@[t / 6].bytes()[t % 6]
    } else if t < 108 {
        raw.shift_knobs@[(t - 96) / 6].bytes()[(t - 96) % 6]
    } else if t < 132 {
        raw.buttons@[(t - 108) / 6].bytes()[(t - 108) % 6]
    } else if t < 138 {
        raw.mod_wheel.bytes()[t - 132]
    } else if t == 138 {
        raw.pitch_bend.mode
    } else if t == 139 {
        raw.pitch_bend.channel
    } else if t == 140 {
        raw.pitch_bend.option
    } else if t < 147 {
        raw.sustain_pedal.bytes()[t - 141]
    } else {
        raw.pads@[(t - 147) / 7].bytes()[(t - 147) % 7]
    }
}

/// Whether `m` keeps, for every parameter of a preset, the byte of `raw`
/// that it holds.
pub open spec fn holds_preset(m: Map<u16, u8>, raw: RawPreset) -> bool {
    forall|t: int| 0 <= t < PRESET_PARAMS ==> m.contains_key(#[trigger] preset_key(t)) && m[preset_key(t)] == preset_byte(raw, t)
}

proof fn lemma_holds_control(m: Map<u16, u8>, raw: RawPreset, i: int, r: RawControl)
    requires
        holds_preset(m, raw),
        0 <= i < 23,
        forall|k: int| 0 <= k < 6 ==> #[trigger] preset_byte(raw, 6 * i + k) == r.bytes()[k],
    ensures
        r == control_from(m, six_param_controls()[i].code()),
{
    let c = six_param_controls()[i].code();
    assert forall|k: int| 0 <= k < 6 implies m[control_key(c, k)] == r.bytes()[k] by {
        lemma_six_key(i, k);
        assert(m[preset_key(6 * i + k)] == preset_byte(raw, 6 * i + k));
    }
    assert(m[control_key(c, 0)] == r.bytes()[0]);
    assert(m[control_key(c, 1)] == r.bytes()[1]);
    assert(m[control_key(c, 2)] == r.bytes()[2]);
    assert(m[control_key(c, 3)] == r.bytes()[3]);
    assert(m[control_key(c, 4)] == r.bytes()[4]);
    assert(m[control_key(c, 5)] == r.bytes()[5]);
}

proof fn lemma_holds_pad(m: Map<u16, u8>, raw: RawPreset, j: int)
    requires
        holds_preset(m, raw),
        0 <= j < 16,
    ensures
        raw.pads@[j] == pad_from(m, ControlId::pads_spec()[j].code()),
{
    let c = ControlId::pads_spec()[j].code();
    let r = raw.pads@[j];
    assert forall|k: int| 0 <= k < 7 implies m[pad_key(c, k)] == r.bytes()[k] by {
        lemma_pad_key(j, k);
        lemma_div_mod(7 * j + k, 7, j, k);
        assert(m[preset_key(147 + 7 * j + k)] == preset_byte(raw, 147 + 7 * j + k));
    }
    assert(m[pad_key(c, 0)] == r.bytes()[0]);
    assert(m[pad_key(c, 1)] == r.bytes()[1]);
    assert(m[pad_key(c, 2)] == r.bytes()[2]);
    assert(m[pad_key(c, 3)] == r.bytes()[3]);
    assert(m[pad_key(c, 4)] == r.bytes()[4]);
    assert(m[pad_key(c, 5)] == r.bytes()[5]);
    assert(m[pad_key(c, 6)] == r.bytes()[6]);
}

/// A store that keeps every parameter of a preset reads back exactly that
/// preset, provided the pitch bend's data bytes are zero (they are not
/// parameters of the pitch bend, and read as zero).
#[verifier::spinoff_prover]
pub proof fn lemma_store_reads_back_preset(m: Map<u16, u8>, raw: RawPreset)
    requires
        holds_preset(m, raw),
        raw.pitch_bend.data1 == 0,
        raw.pitch_bend.data2 == 0,
        raw.pitch_bend.data3 == 0,
    ensures
        forall|t: int| 0 <= t < PRESET_PARAMS ==> m.contains_key(#[trigger] preset_key(t)),
        preset_read(m, raw),
        forall|r: RawPreset| preset_read(m, r) ==> r == raw,
{
    assert forall|j: int| 0 <= j < 16 implies #[trigger] raw.knobs@[j] == control_from(m, ControlId::knobs_spec()[j].code()) by {
        assert forall|k: int| 0 <= k < 6 implies #[trigger] preset_byte(raw, 6 * j + k) == raw.knobs@[j].bytes()[k] by {
            lemma_div_mod(6 * j + k, 6, j, k);
        }
        lemma_holds_control(m, raw, j, raw.knobs@[j]);
    }
    assert forall|j: int| 0 <= j < 2 implies #[trigger] raw.shift_knobs@[j] == control_from(m, ControlId::shift_knobs_spec()[j].code()) by {
        assert forall|k: int| 0 <= k < 6 implies #[trigger] preset_byte(raw, 6 * (16 + j) + k) == raw.shift_knobs@[j].bytes()[k] by {
            lemma_div_mod(6 * j + k, 6, j, k);
        }
        lemma_holds_control(m, raw, 16 + j, raw.shift_knobs@[j]);
    }
    assert forall|j: int| 0 <= j < 4 implies #[trigger] raw.buttons@[j] == control_from(m, ControlId::buttons_spec()[j].code()) by {
        assert forall|k: int| 0 <= k < 6 implies #[trigger] preset_byte(raw, 6 * (18 + j) + k) == raw.buttons@[j].bytes()[k] by {
            lemma_div_mod(6 * j + k, 6, j, k);
        }
        lemma_holds_control(m, raw, 18 + j, raw.buttons@[j]);
    }
    assert forall|k: int| 0 <= k < 6 implies #[trigger] preset_byte(raw, 6 * 22 + k) == raw.mod_wheel.bytes()[k] by {}
    lemma_holds_control(m, raw, 22, raw.mod_wheel);
    assert(m[preset_key(138)] == preset_byte(raw, 138));
    assert(m[preset_key(139)] == preset_byte(raw, 139));
    assert(m[preset_key(140)] == preset_byte(raw, 140));
    let sc = ControlId::SustainPedal.code();
    assert forall|k: int| 0 <= k < 6 implies m[control_key(sc, k)] == raw.sustain_pedal.bytes()[k] by {
        assert(m[preset_key(141 + k)] == preset_byte(raw, 141 + k));
    }
    assert(m[control_key(sc, 0)] == raw.sustain_pedal.bytes()[0]);
    assert(m[control_key(sc, 1)] == raw.sustain_pedal.bytes()[1]);
    assert(m[control_key(sc, 2)] == raw.sustain_pedal.bytes()[2]);
    assert(m[control_key(sc, 3)] == raw.sustain_pedal.bytes()[3]);
    assert(m[control_key(sc, 4)] == raw.sustain_pedal.bytes()[4]);
    assert(m[control_key(sc, 5)] == raw.sustain_pedal.bytes()[5]);
    assert forall|j: int| 0 <= j < 16 implies #[trigger] raw.pads@[j] == pad_from(m, ControlId::pads_spec()[j].code()) by {
        lemma_holds_pad(m, raw, j);
    }
    assert forall|r: RawPreset| preset_read(m, r) implies r == raw by {
        assert(r.knobs =~= raw.knobs);
        assert(r.shift_knobs =~= raw.shift_knobs);
        assert(r.buttons =~= raw.buttons);
        assert(r.pads =~= raw.pads);
    }
}

/// A store that keeps every global parameter of `raw` reads back exactly
/// `raw`.
pub proof fn lemma_store_reads_back_global(m: Map<u16, u8>, raw: RawGlobal)
    requires
        forall|t: int| 0 <= t < 6 ==> m.contains_key(#[trigger] global_key(t)) && m[global_key(t)] == raw.bytes()[t],
    ensures
        forall|t: int| 0 <= t < 6 ==> m.contains_key(#[trigger] global_key(t)),
        global_values(m) == raw.bytes(),
        forall|r: RawGlobal| r.bytes() == global_values(m) ==> r == raw,
{
    assert(global_values(m) =~= raw.bytes());
    assert forall|r: RawGlobal| r.bytes() == global_values(m) implies r == raw by {
        assert(r.bytes()[0] == raw.bytes()[0]);
        assert(r.bytes()[1] == raw.bytes()[1]);
        assert(r.bytes()[2] == raw.bytes()[2]);
        assert(r.bytes()[3] == raw.bytes()[3]);
        assert(r.bytes()[4] == raw.bytes()[4]);
        assert(r.bytes()[5] == raw.bytes()[5]);
    }
}

/// Taking in the device's reply to a parameter write keeps the written
/// value under that parameter's key.
pub proof fn lemma_apply_param_message(
    m: Map<u16, u8>,
    param: ParamId,
    control: ControlId,
    value: u8,
    res: Result<DeviceStatus, DeviceStatusParseError>,
)
    requires
        bytes_outcome(write_value_bytes(param.code(), control.code(), value), res),
    ensures
        res matches Ok(status) && applied(m, status) == m.insert(param_key(param.code(), control.code()), value),
{
    lemma_param_message_reads_back(param, control, value, res);
}

/// Taking in the device's reply to a global parameter write keeps the
/// written value under that global parameter's key.
pub proof fn lemma_apply_global_message(
    m: Map<u16, u8>,
    param: GlobalParamId,
    value: u8,
    res: Result<DeviceStatus, DeviceStatusParseError>,
)
    requires
        bytes_outcome(write_value_bytes(GLOBAL_PARAM_MARKER, param.code(), value), res),
    ensures
        res matches Ok(status) && applied(m, status) == m.insert(param_key(GLOBAL_PARAM_MARKER, param.code()), value),
{
    lemma_global_message_reads_back(param, value, res);
}

/// Reading a parameter gives the value last set for it, and setting one
/// parameter leaves every other parameter as it was.
pub proof fn lemma_set_then_get(m: Map<u16, u8>, param: u8, control: u8, value: u8, p2: u8, c2: u8)
    ensures
        m.insert(param_key(param, control), value)[param_key(param, control)] == value,
        (p2 != param || c2 != control) ==> (m.insert(param_key(param, control), value).contains_key(
            param_key(p2, c2),
        ) == m.contains_key(param_key(p2, c2)) && m.insert(param_key(param, control), value)[param_key(
            p2,
            c2,
        )] == m[param_key(p2, c2)]),
{
    lemma_param_key_injective(param, control, p2, c2);
}

// ---------------------------------------------------------------------------
// The messages of a whole preset
// ---------------------------------------------------------------------------

/// The parameter byte of store key `k`.
pub open spec fn key_param(k: u16) -> u8 {
    (k / 256) as u8
}

/// The control byte of store key `k`.
pub open spec fn key_control(k: u16) -> u8 {
    (k % 256) as u8
}

/// A store key is made of its parameter and control bytes.
pub proof fn lemma_key_parts(param: u8, control: u8)
    ensures
        key_param(param_key(param, control)) == param,
        key_control(param_key(param, control)) == control,
{
    lemma_div_mod(param * 256 + control, 256, param as int, control as int);
}

fn six_param_control_ids() -> (res: [ControlId; 23])
    ensures
        res@ == six_param_controls(),
{
    let res = [ControlId::Knob1, ControlId::Knob2, ControlId::Knob3, ControlId::Knob4, ControlId::Knob5, ControlId::Knob6, ControlId::Knob7, ControlId::Knob8, ControlId::Knob9, ControlId::Knob10, ControlId::Knob11, ControlId::Knob12, ControlId::Knob13, ControlId::Knob14, ControlId::Knob15, ControlId::Knob16, ControlId::Knob1Shift, ControlId::Knob9Shift, ControlId::Knob1Switch, ControlId::Knob9Switch, ControlId::OctaveMinus, ControlId::OctavePlus, ControlId::ModWheel];
    assert(res@ =~= six_param_controls());
    res
}

/// The parameter and control bytes of the `t`-th parameter of a preset.
fn preset_key_at(t: usize) -> (res: (u8, u8))
    requires
        t < PRESET_PARAMS,
    ensures
        param_key(res.0, res.1) == preset_key(t as int),
{
    if t < 138 {
        let ids = six_param_control_ids();
        let k = t % 6;
        (k as u8 + 1, ids[t / 6].as_u8())
    } else if t < 141 {
        let p: u8 = if t == 138 { 1 } else if t == 139 { 2 } else { 6 };
        (p, ControlId::PitchBend.as_u8())
    } else if t < 147 {
        ((t - 141) as u8 + 1, ControlId::SustainPedal.as_u8())
    } else {
        let ids = ControlId::pads();
        let k = (t - 147) % 7;
        let p: u8 = if k < 6 { k as u8 + 1 } else { ParamId::PadColor.as_u8() };
        (p, ids[(t - 147) / 7].as_u8())
    }
}

/// The byte of `raw` that the `t`-th parameter of a preset holds.
fn preset_byte_at(raw: &RawPreset, t: usize) -> (res: u8)
    requires
        t < PRESET_PARAMS,
    ensures
        res == preset_byte(*raw, t as int),
{
    if t < 96 {
        raw.knobs[t / 6].as_bytes()[t % 6]
    } else if t < 108 {
        raw.shift_knobs[(t - 96) / 6].as_bytes()[(t - 96) % 6]
    } else if t < 132 {
        raw.buttons[(t - 108) / 6].as_bytes()[(t - 108) % 6]
    } else if t < 138 {
        raw.mod_wheel.as_bytes()[t - 132]
    } else if t == 138 {
        raw.pitch_bend.mode
    } else if t == 139 {
        raw.pitch_bend.channel
    } else if t == 140 {
        raw.pitch_bend.option
    } else if t < 147 {
        raw.sustain_pedal.as_bytes()[t - 141]
    } else {
        raw.pads[(t - 147) / 7].as_bytes()[(t - 147) % 7]
    }
}

impl RawPreset {
    /// The requests for every parameter of a preset, in the order a preset is
    /// assembled from them.
    pub fn read_messages() -> (res: Vec<Vec<u8>>)
        ensures
            res@.len() == PRESET_PARAMS,
            forall|t: int|
                0 <= t < PRESET_PARAMS ==> (#[trigger] res@[t])@ == command_bytes(
                    seq![OpCode::ReadParam.code(), 0x00, key_param(preset_key(t)), key_control(preset_key(t))],
                ),
    {
        let mut res: Vec<Vec<u8>> = Vec::new();
        let mut t: usize = 0;
        while t < PRESET_PARAMS
            invariant
                t <= PRESET_PARAMS,
                res@.len() == t,
                forall|s: int|
                    0 <= s < t ==> (#[trigger] res@[s])@ == command_bytes(
                        seq![OpCode::ReadParam.code(), 0x00, key_param(preset_key(s)), key_control(preset_key(s))],
                    ),
            decreases PRESET_PARAMS - t,
        {
            let (p, c) = preset_key_at(t);
            proof {
                lemma_key_parts(p, c);
            }
            let body = [OpCode::ReadParam.as_u8(), 0x00, p, c];
            assert(body@ =~= seq![OpCode::ReadParam.code(), 0x00, p, c]);
            res.push(command_message(&body));
            t = t + 1;
        }
        res
    }

    /// The writes of every parameter of this preset, in the order a preset is
    /// assembled from them.
    pub fn send_messages(&self) -> (res: Vec<Vec<u8>>)
        ensures
            res@.len() == PRESET_PARAMS,
            forall|t: int|
                0 <= t < PRESET_PARAMS ==> (#[trigger] res@[t])@ == write_value_bytes(
                    key_param(preset_key(t)),
                    key_control(preset_key(t)),
                    preset_byte(*self, t),
                ),
    {
        let mut res: Vec<Vec<u8>> = Vec::new();
        let mut t: usize = 0;
        while t < PRESET_PARAMS
            invariant
                t <= PRESET_PARAMS,
                res@.len() == t,
                forall|s: int|
                    0 <= s < t ==> (#[trigger] res@[s])@ == write_value_bytes(
                        key_param(preset_key(s)),
                        key_control(preset_key(s)),
                        preset_byte(*self, s),
                    ),
            decreases PRESET_PARAMS - t,
        {
            let (p, c) = preset_key_at(t);
            proof {
                lemma_key_parts(p, c);
            }
            let v = preset_byte_at(self, t);
            res.push(write_value_message(p, c, v));
            t = t + 1;
        }
        res
    }
}

/// A preset: every control of the MiniLab mkII with its settings, each
/// named by the control it is.
#[derive(Clone, Copy, Debug, PartialEq, Eq)]
pub struct Preset {
    pub knobs: [Knob; 16],
    pub shift_knobs: [Knob; 2],
    pub buttons: [Button; 4],
    pub mod_wheel: ModWheel,
    pub pitch_bend: PitchBend,
    pub sustain_pedal: SustainPedal,
    pub pads: [Pad; 16],
}

/// Whether `raw` is the stored form of preset `p`.
pub open spec fn stores_preset(raw: RawPreset, p: Preset) -> bool {
    &&& forall|j: int| 0 <= j < 16 ==> #[trigger] raw.knobs@[j] == p.knobs@[j].raw_spec()
    &&& forall|j: int| 0 <= j < 2 ==> #[trigger] raw.shift_knobs@[j] == p.shift_knobs@[j].raw_spec()
    &&& forall|j: int| 0 <= j < 4 ==> #[trigger] raw.buttons@[j] == p.buttons@[j].raw_spec()
    &&& raw.mod_wheel == p.mod_wheel.raw_spec()
    &&& raw.pitch_bend == p.pitch_bend.raw_spec()
    &&& raw.sustain_pedal == p.sustain_pedal.raw_spec()
    &&& forall|j: int| 0 <= j < 16 ==> #[trigger] raw.pads@[j] == p.pads@[j].raw_spec()
}

/// Whether `p` is the preset that the stored preset `raw` describes: each
/// control named by its place, every data byte cut to a MIDI value, and the
/// pitch bend's data bytes left out.
pub open spec fn reads_preset(p: Preset, raw: RawPreset) -> bool {
    &&& forall|j: int|
        0 <= j < 16 ==> (#[trigger] p.knobs@[j]).id == ControlId::knobs_spec()[j] && p.knobs@[j].raw_spec()
            == clamped_control(raw.knobs@[j])
    &&& forall|j: int|
        0 <= j < 2 ==> (#[trigger] p.shift_knobs@[j]).id == ControlId::shift_knobs_spec()[j]
            && p.shift_knobs@[j].raw_spec() == clamped_control(raw.shift_knobs@[j])
    &&& forall|j: int|
        0 <= j < 4 ==> (#[trigger] p.buttons@[j]).id == ControlId::buttons_spec()[j] && p.buttons@[j].raw_spec()
            == clamped_control(raw.buttons@[j])
    &&& p.mod_wheel.raw_spec() == clamped_control(raw.mod_wheel)
    &&& p.pitch_bend.mode == raw.pitch_bend.mode
    &&& p.pitch_bend.channel == raw.pitch_bend.channel
    &&& p.pitch_bend.option@ == clamp_midi(raw.pitch_bend.option)
    &&& p.sustain_pedal.raw_spec() == clamped_control(raw.sustain_pedal)
    &&& forall|j: int|
        0 <= j < 16 ==> (#[trigger] p.pads@[j]).id == ControlId::pads_spec()[j] && p.pads@[j].raw_spec()
            == clamped_pad(raw.pads@[j])
}

/// The control that the `t`-th parameter of preset `p` is sent to: the
/// control its knob, button or pad names, or the wheel or pedal itself.
pub open spec fn preset_id_at(p: Preset, t: int) -> ControlId {
    if t < 96 {
        p.knobs@[t / 6].id
    } else if t < 108 {
        p.shift_knobs@[(t - 96) / 6].id
    } else if t < 132 {
        p.buttons@[(t - 108) / 6].id
    } else if t < 138 {
        ControlId::ModWheel
    } else if t < 141 {
        ControlId::PitchBend
    } else if t < 147 {
        ControlId::SustainPedal
    } else {
        p.pads@[(t - 147) / 7].id
    }
}

impl Preset {
    /// The stored form of the preset.
    pub fn to_raw(&self) -> (res: RawPreset)
        ensures
            stores_preset(res, *self),
    {
        let res = RawPreset {
            knobs: [self.knobs[0].to_raw(), self.knobs[1].to_raw(), self.knobs[2].to_raw(), self.knobs[3].to_raw(), self.knobs[4].to_raw(), self.knobs[5].to_raw(), self.knobs[6].to_raw(), self.knobs[7].to_raw(), self.knobs[8].to_raw(), self.knobs[9].to_raw(), self.knobs[10].to_raw(), self.knobs[11].to_raw(), self.knobs[12].to_raw(), self.knobs[13].to_raw(), self.knobs[14].to_raw(), self.knobs[15].to_raw()],
            shift_knobs: [self.shift_knobs[0].to_raw(), self.shift_knobs[1].to_raw()],
            buttons: [self.buttons[0].to_raw(), self.buttons[1].to_raw(), self.buttons[2].to_raw(), self.buttons[3].to_raw()],
            mod_wheel: self.mod_wheel.to_raw(),
            pitch_bend: self.pitch_bend.to_raw(),
            sustain_pedal: self.sustain_pedal.to_raw(),
            pads: [self.pads[0].to_raw(), self.pads[1].to_raw(), self.pads[2].to_raw(), self.pads[3].to_raw(), self.pads[4].to_raw(), self.pads[5].to_raw(), self.pads[6].to_raw(), self.pads[7].to_raw(), self.pads[8].to_raw(), self.pads[9].to_raw(), self.pads[10].to_raw(), self.pads[11].to_raw(), self.pads[12].to_raw(), self.pads[13].to_raw(), self.pads[14].to_raw(), self.pads[15].to_raw()],
        };
        assert(stores_preset(res, *self));
        res
    }

    /// The preset that a stored preset describes, each control named by its
    /// place.
    pub fn from_raw(raw: RawPreset) -> (res: Self)
        ensures
            reads_preset(res, raw),
    {
        let knob_ids = ControlId::knobs();
        let shift_ids = ControlId::shift_knobs();
        let button_ids = ControlId::buttons();
        let pad_ids = ControlId::pads();
        let res = Preset {
            knobs: [Knob::from_raw(knob_ids[0], raw.knobs[0]), Knob::from_raw(knob_ids[1], raw.knobs[1]), Knob::from_raw(knob_ids[2], raw.knobs[2]), Knob::from_raw(knob_ids[3], raw.knobs[3]), Knob::from_raw(knob_ids[4], raw.knobs[4]), Knob::from_raw(knob_ids[5], raw.knobs[5]), Knob::from_raw(knob_ids[6], raw.knobs[6]), Knob::from_raw(knob_ids[7], raw.knobs[7]), Knob::from_raw(knob_ids[8], raw.knobs[8]), Knob::from_raw(knob_ids[9], raw.knobs[9]), Knob::from_raw(knob_ids[10], raw.knobs[10]), Knob::from_raw(knob_ids[11], raw.knobs[11]), Knob::from_raw(knob_ids[12], raw.knobs[12]), Knob::from_raw(knob_ids[13], raw.knobs[13]), Knob::from_raw(knob_ids[14], raw.knobs[14]), Knob::from_raw(knob_ids[15], raw.knobs[15])],
            shift_knobs: [Knob::from_raw(shift_ids[0], raw.shift_knobs[0]), Knob::from_raw(shift_ids[1], raw.shift_knobs[1])],
            buttons: [Button::from_raw(button_ids[0], raw.buttons[0]), Button::from_raw(button_ids[1], raw.buttons[1]), Button::from_raw(button_ids[2], raw.buttons[2]), Button::from_raw(button_ids[3], raw.buttons[3])],
            mod_wheel: ModWheel::from_raw(raw.mod_wheel),
            pitch_bend: PitchBend::from_raw(raw.pitch_bend),
            sustain_pedal: SustainPedal::from_raw(raw.sustain_pedal),
            pads: [Pad::from_raw(pad_ids[0], raw.pads[0]), Pad::from_raw(pad_ids[1], raw.pads[1]), Pad::from_raw(pad_ids[2], raw.pads[2]), Pad::from_raw(pad_ids[3], raw.pads[3]), Pad::from_raw(pad_ids[4], raw.pads[4]), Pad::from_raw(pad_ids[5], raw.pads[5]), Pad::from_raw(pad_ids[6], raw.pads[6]), Pad::from_raw(pad_ids[7], raw.pads[7]), Pad::from_raw(pad_ids[8], raw.pads[8]), Pad::from_raw(pad_ids[9], raw.pads[9]), Pad::from_raw(pad_ids[10], raw.pads[10]), Pad::from_raw(pad_ids[11], raw.pads[11]), Pad::from_raw(pad_ids[12], raw.pads[12]), Pad::from_raw(pad_ids[13], raw.pads[13]), Pad::from_raw(pad_ids[14], raw.pads[14]), Pad::from_raw(pad_ids[15], raw.pads[15])],
        };
        assert(reads_preset(res, raw));
        res
    }

    /// The requests for every parameter of a preset, in the order a preset
    /// is assembled from them.
    pub fn read_messages() -> (res: Vec<Vec<u8>>)
        ensures
            res@.len() == PRESET_PARAMS,
            forall|t: int|
                0 <= t < PRESET_PARAMS ==> (#[trigger] res@[t])@ == command_bytes(
                    seq![OpCode::ReadParam.code(), 0x00, key_param(preset_key(t)), key_control(preset_key(t))],
                ),
    {
        RawPreset::read_messages()
    }

    /// The control that the `t`-th parameter of the preset is sent to.
    fn id_at(&self, t: usize) -> (res: ControlId)
        requires
            t < PRESET_PARAMS,
        ensures
            res == preset_id_at(*self, t as int),
    {
        if t < 96 {
            self.knobs[t / 6].id
        } else if t < 108 {
            self.shift_knobs[(t - 96) / 6].id
        } else if t < 132 {
            self.buttons[(t - 108) / 6].id
        } else if t < 138 {
            ControlId::ModWheel
        } else if t < 141 {
            ControlId::PitchBend
        } else if t < 147 {
            ControlId::SustainPedal
        } else {
            self.pads[(t - 147) / 7].id
        }
    }

    /// The writes of every parameter of the preset, in the order a preset is
    /// assembled from them, each sent to the control that its knob, button
    /// or pad names.
    pub fn send_messages(&self) -> (res: Vec<Vec<u8>>)
        ensures
            res@.len() == PRESET_PARAMS,
            forall|raw: RawPreset, t: int|
                stores_preset(raw, *self) && 0 <= t < PRESET_PARAMS ==> (#[trigger] res@[t])@ == write_value_bytes(
                    key_param(preset_key(t)),
                    preset_id_at(*self, t).code(),
                    #[trigger] preset_byte(raw, t),
                ),
    {
        let raw = self.to_raw();
        let mut res: Vec<Vec<u8>> = Vec::new();
        let mut t: usize = 0;
        while t < PRESET_PARAMS
            invariant
                t <= PRESET_PARAMS,
                stores_preset(raw, *self),
                res@.len() == t,
                forall|s: int|
                    0 <= s < t ==> (#[trigger] res@[s])@ == write_value_bytes(
                        key_param(preset_key(s)),
                        preset_id_at(*self, s).code(),
                        preset_byte(raw, s),
                    ),
            decreases PRESET_PARAMS - t,
        {
            let (p, c) = preset_key_at(t);
            proof {
                lemma_key_parts(p, c);
            }
            let id = self.id_at(t);
            let v = preset_byte_at(&raw, t);
            res.push(write_value_message(p, id.as_u8(), v));
            t = t + 1;
        }
        proof {
            assert forall|r: RawPreset, t: int| stores_preset(r, *self) && 0 <= t < PRESET_PARAMS implies preset_byte(r, t)
                == preset_byte(raw, t) by {
                lemma_stored_form_unique(r, raw, *self);
            }
        }
        res
    }

    /// The file name under which a preset is saved.
    pub fn default_filename(&self) -> (res: String)
        ensures
            res@ == "arturia_minilab_mk2.preset"@,
    {
        String::from_str("arturia_minilab_mk2.preset")
    }
}

/// Whether every control of a preset carries the id of its place and every
/// value is a MIDI value, as in a preset read from a store.
pub open spec fn preset_wf(p: Preset) -> bool {
    &&& forall|j: int| 0 <= j < 16 ==> (#[trigger] p.knobs@[j]).id == ControlId::knobs_spec()[j] && p.knobs@[j].wf()
    &&& forall|j: int|
        0 <= j < 2 ==> (#[trigger] p.shift_knobs@[j]).id == ControlId::shift_knobs_spec()[j] && p.shift_knobs@[j].wf()
    &&& forall|j: int| 0 <= j < 4 ==> (#[trigger] p.buttons@[j]).id == ControlId::buttons_spec()[j] && p.buttons@[j].wf()
    &&& p.mod_wheel.wf()
    &&& p.pitch_bend.wf()
    &&& p.sustain_pedal.wf()
    &&& forall|j: int| 0 <= j < 16 ==> (#[trigger] p.pads@[j]).id == ControlId::pads_spec()[j] && p.pads@[j].wf()
}

/// The messages of a preset whose controls carry the ids of their places
/// are the messages of its stored form: each is sent to the control byte of
/// the store key it writes.
pub proof fn lemma_preset_send_ids(p: Preset, t: int)
    requires
        preset_wf(p),
        0 <= t < PRESET_PARAMS,
    ensures
        preset_id_at(p, t).code() == key_control(preset_key(t)),
{
    if t < 138 {
        let i = t / 6;
        let k = t % 6;
        lemma_div_mod_parts(t, 6);
        lemma_six_key(i, k);
        lemma_key_parts((k + 1) as u8, six_param_controls()[i].code());
        assert(6 * i + k == t);
        if t < 96 {
            assert(six_param_controls()[i] == ControlId::knobs_spec()[i]);
        } else if t < 108 {
            assert((t - 96) / 6 == i - 16);
            assert(six_param_controls()[i] == ControlId::shift_knobs_spec()[i - 16]);
        } else if t < 132 {
            assert((t - 108) / 6 == i - 18);
            assert(six_param_controls()[i] == ControlId::buttons_spec()[i - 18]);
        } else {
            assert(six_param_controls()[i] == ControlId::ModWheel);
        }
    } else if t < 141 {
        let k: u8 = if t == 138 { 1 } else if t == 139 { 2 } else { 6 };
        lemma_key_parts(k, ControlId::PitchBend.code());
    } else if t < 147 {
        lemma_key_parts((t - 141 + 1) as u8, ControlId::SustainPedal.code());
    } else {
        let j = (t - 147) / 7;
        let k = (t - 147) % 7;
        lemma_div_mod_parts(t - 147, 7);
        lemma_pad_key(j, k);
        assert(147 + 7 * j + k == t);
        let c = ControlId::pads_spec()[j].code();
        if k < 6 {
            lemma_key_parts((k + 1) as u8, c);
        } else {
            lemma_key_parts(ParamId::PadColor.code(), c);
        }
    }
}

/// The quotient and remainder of `a` by `m`.
proof fn lemma_div_mod_parts(a: int, m: int)
    requires
        0 <= a,
        m > 0,
    ensures
        a == m * (a / m) + a % m,
        0 <= a % m < m,
        0 <= a / m,
{
    vstd::arithmetic::div_mod::lemma_fundamental_div_mod(a, m);
    vstd::arithmetic::div_mod::lemma_mod_pos_bound(a, m);
    vstd::arithmetic::div_mod::lemma_div_pos_is_pos(a, m);
}

/// A preset whose controls carry the ids of their places, written into any
/// store by its messages and read back, is that very preset.
pub proof fn lemma_typed_preset_round_trip(m: Map<u16, u8>, p: Preset, raw: RawPreset, r2: RawPreset, q: Preset)
    requires
        preset_wf(p),
        stores_preset(raw, p),
        preset_read(preset_written(m, raw, PRESET_PARAMS as nat), r2),
        reads_preset(q, r2),
    ensures
        q == p,
{
    lemma_send_messages_round_trip(m, raw);
    assert(r2 == raw);
    assert forall|j: int| 0 <= j < 16 implies q.knobs@[j] == p.knobs@[j] by {
        Knob::lemma_raw(p.knobs@[j], q.knobs@[j]);
        Knob::lemma_raw(q.knobs@[j], p.knobs@[j]);
    }
    assert forall|j: int| 0 <= j < 2 implies q.shift_knobs@[j] == p.shift_knobs@[j] by {
        Knob::lemma_raw(p.shift_knobs@[j], q.shift_knobs@[j]);
        Knob::lemma_raw(q.shift_knobs@[j], p.shift_knobs@[j]);
    }
    assert forall|j: int| 0 <= j < 4 implies q.buttons@[j] == p.buttons@[j] by {
        Button::lemma_raw(p.buttons@[j], q.buttons@[j]);
        Button::lemma_raw(q.buttons@[j], p.buttons@[j]);
    }
    assert forall|j: int| 0 <= j < 16 implies q.pads@[j] == p.pads@[j] by {
        Pad::lemma_raw(p.pads@[j], q.pads@[j]);
        Pad::lemma_raw(q.pads@[j], p.pads@[j]);
    }
    ModWheel::lemma_raw(p.mod_wheel, q.mod_wheel);
    ModWheel::lemma_raw(q.mod_wheel, p.mod_wheel);
    PitchBend::lemma_raw(p.pitch_bend, q.pitch_bend);
    PitchBend::lemma_raw(q.pitch_bend, p.pitch_bend);
    SustainPedal::lemma_raw(p.sustain_pedal, q.sustain_pedal);
    SustainPedal::lemma_raw(q.sustain_pedal, p.sustain_pedal);
    assert(q.knobs =~= p.knobs);
    assert(q.shift_knobs =~= p.shift_knobs);
    assert(q.buttons =~= p.buttons);
    assert(q.pads =~= p.pads);
}

/// The store that the first `n` global writes of `raw` leave, starting from
/// `m`.
pub open spec fn global_written(m: Map<u16, u8>, raw: RawGlobal, n: nat) -> Map<u16, u8>
    decreases n,
{
    if n == 0 {
        m
    } else {
        global_written(m, raw, (n - 1) as nat).insert(global_key(n - 1), raw.bytes()[n - 1])
    }
}

proof fn lemma_global_keys_distinct(t1: int, t2: int)
    requires
        0 <= t1 < t2 < 6,
    ensures
        global_key(t1) != global_key(t2),
{
    lemma_key_parts(GLOBAL_PARAM_MARKER, global_param_ids()[t1].code());
    lemma_key_parts(GLOBAL_PARAM_MARKER, global_param_ids()[t2].code());
}

proof fn lemma_global_written_holds(m: Map<u16, u8>, raw: RawGlobal, n: nat)
    requires
        n <= 6,
    ensures
        forall|t: int|
            0 <= t < n ==> global_written(m, raw, n).contains_key(#[trigger] global_key(t))
                && global_written(m, raw, n)[global_key(t)] == raw.bytes()[t],
    decreases n,
{
    if n > 0 {
        lemma_global_written_holds(m, raw, (n - 1) as nat);
        assert forall|t: int| 0 <= t < n implies global_written(m, raw, n).contains_key(#[trigger] global_key(t))
            && global_written(m, raw, n)[global_key(t)] == raw.bytes()[t] by {
            if t < n - 1 {
                lemma_global_keys_distinct(t, n - 1);
            }
        }
    }
}

/// Whatever a store held, after the six global writes of `raw` it reads
/// back exactly `raw`.
pub proof fn lemma_global_send_round_trip(m: Map<u16, u8>, raw: RawGlobal)
    ensures
        forall|t: int| 0 <= t < 6 ==> global_written(m, raw, 6).contains_key(#[trigger] global_key(t)),
        forall|r: RawGlobal| r.bytes() == global_values(global_written(m, raw, 6)) ==> r == raw,
{
    lemma_global_written_holds(m, raw, 6);
    lemma_store_reads_back_global(global_written(m, raw, 6), raw);
}

impl RawGlobal {
    /// The requests for the six global parameters, in their order.
    pub fn read_messages() -> (res: Vec<Vec<u8>>)
        ensures
            res@.len() == 6,
            forall|t: int|
                0 <= t < 6 ==> (#[trigger] res@[t])@ == command_bytes(
                    seq![OpCode::ReadParam.code(), 0x00, GLOBAL_PARAM_MARKER, global_param_ids()[t].code()],
                ),
    {
        let params = GlobalParamId::all();
        let mut res: Vec<Vec<u8>> = Vec::new();
        let mut t: usize = 0;
        while t < 6
            invariant
                t <= 6,
                params@ == global_param_ids(),
                res@.len() == t,
                forall|s: int|
                    0 <= s < t ==> (#[trigger] res@[s])@ == command_bytes(
                        seq![OpCode::ReadParam.code(), 0x00, GLOBAL_PARAM_MARKER, global_param_ids()[s].code()],
                    ),
            decreases 6 - t,
        {
            res.push(read_global_message(params[t]));
            t = t + 1;
        }
        res
    }

    /// The writes of the six global parameters, in their order.
    pub fn send_messages(&self) -> (res: Vec<Vec<u8>>)
        ensures
            res@.len() == 6,
            forall|t: int|
                0 <= t < 6 ==> (#[trigger] res@[t])@ == write_value_bytes(
                    GLOBAL_PARAM_MARKER,
                    global_param_ids()[t].code(),
                    self.bytes()[t],
                ),
    {
        let params = GlobalParamId::all();
        let values = self.as_bytes();
        let mut res: Vec<Vec<u8>> = Vec::new();
        let mut t: usize = 0;
        while t < 6
            invariant
                t <= 6,
                params@ == global_param_ids(),
                values@ == self.bytes(),
                res@.len() == t,
                forall|s: int|
                    0 <= s < t ==> (#[trigger] res@[s])@ == write_value_bytes(
                        GLOBAL_PARAM_MARKER,
                        global_param_ids()[s].code(),
                        self.bytes()[s],
                    ),
            decreases 6 - t,
        {
            res.push(write_global_message(params[t], values[t]));
            t = t + 1;
        }
        res
    }
}

/// The message that writes global parameter `param` is the sysex frame of
/// Arturia's command header, the write opcode 0x02, 0x00, the global marker
/// 0x40, the device's address of the parameter (keyboard channel 0x06, key
/// velocity curve 0x19, pad velocity curve 0x1A, knob acceleration 0x1B,
/// octave button blink 0x1D, pad-off backlight 0x1E) and the value.
pub proof fn lemma_global_message_bytes(param: GlobalParamId, value: u8)
    ensures
        write_value_bytes(GLOBAL_PARAM_MARKER, param.code(), value) == seq![
            0xF0u8,
            0x00,
            0x20,
            0x6B,
            0x7F,
            0x42,
            0x02,
            0x00,
            0x40,
            match param {
                GlobalParamId::KeyboardChannel => 0x06u8,
                GlobalParamId::KeyVelocityCurve => 0x19u8,
                GlobalParamId::PadVelocityCurve => 0x1Au8,
                GlobalParamId::KnobAcceleration => 0x1Bu8,
                GlobalParamId::OctaveButtonBlink => 0x1Du8,
                GlobalParamId::PadOffBacklight => 0x1Eu8,
            },
            value,
            0xF7,
        ],
{
    assert(write_value_bytes(GLOBAL_PARAM_MARKER, param.code(), value) =~= seq![
        0xF0u8,
        0x00,
        0x20,
        0x6B,
        0x7F,
        0x42,
        0x02,
        0x00,
        0x40,
        param.code(),
        value,
        0xF7,
    ]);
}

/// A preset has one stored form.
proof fn lemma_stored_form_unique(r1: RawPreset, r2: RawPreset, p: Preset)
    requires
        stores_preset(r1, p),
        stores_preset(r2, p),
    ensures
        r1 == r2,
{
    assert(r1.knobs@ =~= r2.knobs@);
    assert(r1.shift_knobs@ =~= r2.shift_knobs@);
    assert(r1.buttons@ =~= r2.buttons@);
    assert(r1.pads@ =~= r2.pads@);
    assert(r1.knobs =~= r2.knobs);
    assert(r1.shift_knobs =~= r2.shift_knobs);
    assert(r1.buttons =~= r2.buttons);
    assert(r1.pads =~= r2.pads);
}

/// The place among the controls read with six parameters of control byte
/// `c`, or -1.
pub open spec fn six_index(c: u8) -> int {
    if c == 48 {
        0
    } else if c == 1 {
        1
    } else if c == 2 {
        2
    } else if c == 3 {
        3
    } else if c == 4 {
        4
    } else if c == 5 {
        5
    } else if c == 6 {
        6
    } else if c == 7 {
        7
    } else if c == 51 {
        8
    } else if c == 8 {
        9
    } else if c == 9 {
        10
    } else if c == 10 {
        11
    } else if c == 11 {
        12
    } else if c == 12 {
        13
    } else if c == 13 {
        14
    } else if c == 14 {
        15
    } else if c == 50 {
        16
    } else if c == 53 {
        17
    } else if c == 49 {
        18
    } else if c == 52 {
        19
    } else if c == 16 {
        20
    } else if c == 17 {
        21
    } else if c == 64 {
        22
    } else {
        -1
    }
}

/// The place in preset order of store key `k`, or -1 when a preset has no
/// parameter there.
pub open spec fn preset_index(k: u16) -> int {
    let p = key_param(k);
    let c = key_control(k);
    if six_index(c) >= 0 && 1 <= p <= 6 {
        6 * six_index(c) + p - 1
    } else if c == ControlId::PitchBend.code() && (p == 1 || p == 2 || p == 6) {
        if p == 1 { 138 } else if p == 2 { 139 } else { 140 }
    } else if c == ControlId::SustainPedal.code() && 1 <= p <= 6 {
        141 + p - 1
    } else if 0x70 <= c <= 0x7F && 1 <= p <= 6 {
        147 + 7 * (c - 0x70) + p - 1
    } else if 0x70 <= c <= 0x7F && p == ParamId::PadColor.code() {
        147 + 7 * (c - 0x70) + 6
    } else {
        -1
    }
}

/// The parameter with code `k + 1`, for `k` in 0 ..= 5.
pub open spec fn param_of_index(k: int) -> ParamId {
    if k == 0 {
        ParamId::Mode
    } else if k == 1 {
        ParamId::Channel
    } else if k == 2 {
        ParamId::Data1
    } else if k == 3 {
        ParamId::Data2
    } else if k == 4 {
        ParamId::Data3
    } else {
        ParamId::Option
    }
}

proof fn lemma_six_index(j: int)
    requires
        0 <= j < 23,
    ensures
        six_index(six_param_controls()[j].code()) == j,
{
    assert(six_param_controls() =~= seq![ControlId::Knob1, ControlId::Knob2, ControlId::Knob3, ControlId::Knob4, ControlId::Knob5, ControlId::Knob6, ControlId::Knob7, ControlId::Knob8, ControlId::Knob9, ControlId::Knob10, ControlId::Knob11, ControlId::Knob12, ControlId::Knob13, ControlId::Knob14, ControlId::Knob15, ControlId::Knob16, ControlId::Knob1Shift, ControlId::Knob9Shift, ControlId::Knob1Switch, ControlId::Knob9Switch, ControlId::OctaveMinus, ControlId::OctavePlus, ControlId::ModWheel]);
}

/// Every parameter of a preset is kept under a parameter and a control of
/// the device, and its key leads back to its place in preset order.
pub proof fn lemma_preset_key_ids(t: int) -> (ids: (ParamId, ControlId))
    requires
        0 <= t < PRESET_PARAMS,
    ensures
        preset_key(t) == param_key(ids.0.code(), ids.1.code()),
        preset_index(preset_key(t)) == t,
{
    if t < 138 {
        let j = t / 6;
        let k = t % 6;
        lemma_div_mod(t, 6, j, k);
        lemma_six_index(j);
        let c = six_param_controls()[j];
        lemma_key_parts((k + 1) as u8, c.code());
        (param_of_index(k), c)
    } else if t < 141 {
        let p = if t == 138 { ParamId::Mode } else if t == 139 { ParamId::Channel } else { ParamId::Option };
        lemma_key_parts(p.code(), ControlId::PitchBend.code());
        (p, ControlId::PitchBend)
    } else if t < 147 {
        lemma_key_parts((t - 141 + 1) as u8, ControlId::SustainPedal.code());
        (param_of_index(t - 141), ControlId::SustainPedal)
    } else {
        let j = (t - 147) / 7;
        let k = (t - 147) % 7;
        lemma_div_mod(t - 147, 7, j, k);
        let c = ControlId::pads_spec()[j];
        assert(c.code() == 0x70 + j);
        let p = if k < 6 { param_of_index(k) } else { ParamId::PadColor };
        lemma_key_parts(p.code(), c.code());
        (p, c)
    }
}

/// No two parameters of a preset are kept under the same key.
pub proof fn lemma_preset_keys_distinct(t1: int, t2: int)
    requires
        0 <= t1 < PRESET_PARAMS,
        0 <= t2 < PRESET_PARAMS,
        t1 != t2,
    ensures
        preset_key(t1) != preset_key(t2),
{
    lemma_preset_key_ids(t1);
    lemma_preset_key_ids(t2);
}

/// The device's reply to the `t`-th write of a preset, taken into a store,
/// keeps that parameter's byte under its key.
pub proof fn lemma_send_message_applies(
    raw: RawPreset,
    t: int,
    m: Map<u16, u8>,
    res: Result<DeviceStatus, DeviceStatusParseError>,
)
    requires
        0 <= t < PRESET_PARAMS,
        bytes_outcome(
            write_value_bytes(key_param(preset_key(t)), key_control(preset_key(t)), preset_byte(raw, t)),
            res,
        ),
    ensures
        res matches Ok(status) && applied(m, status) == m.insert(preset_key(t), preset_byte(raw, t)),
{
    let (pid, cid) = lemma_preset_key_ids(t);
    lemma_key_parts(pid.code(), cid.code());
    lemma_param_message_reads_back(pid, cid, preset_byte(raw, t), res);
}

/// The store that the first `n` writes of a preset leave, starting from `m`.
pub open spec fn preset_written(m: Map<u16, u8>, raw: RawPreset, n: nat) -> Map<u16, u8>
    decreases n,
{
    if n == 0 {
        m
    } else {
        preset_written(m, raw, (n - 1) as nat).insert(preset_key(n - 1), preset_byte(raw, n - 1))
    }
}

proof fn lemma_preset_written_holds(m: Map<u16, u8>, raw: RawPreset, n: nat)
    requires
        n <= PRESET_PARAMS,
    ensures
        forall|t: int|
            0 <= t < n ==> preset_written(m, raw, n).contains_key(#[trigger] preset_key(t))
                && preset_written(m, raw, n)[preset_key(t)] == preset_byte(raw, t),
    decreases n,
{
    if n > 0 {
        lemma_preset_written_holds(m, raw, (n - 1) as nat);
        assert forall|t: int| 0 <= t < n implies preset_written(m, raw, n).contains_key(#[trigger] preset_key(t))
            && preset_written(m, raw, n)[preset_key(t)] == preset_byte(raw, t) by {
            if t < n - 1 {
                lemma_preset_keys_distinct(t, n - 1);
            }
        }
    }
}

/// Whatever a store held, after all the writes of a preset it holds that
/// preset, and it reads back as that preset when the pitch bend's data bytes
/// are zero.
pub proof fn lemma_send_messages_round_trip(m: Map<u16, u8>, raw: RawPreset)
    ensures
        holds_preset(preset_written(m, raw, PRESET_PARAMS as nat), raw),
        raw.pitch_bend.data1 == 0 && raw.pitch_bend.data2 == 0 && raw.pitch_bend.data3 == 0 ==> forall|
            r: RawPreset,
        |
            preset_read(preset_written(m, raw, PRESET_PARAMS as nat), r) ==> r == raw,
{
    lemma_preset_written_holds(m, raw, PRESET_PARAMS as nat);
    if raw.pitch_bend.data1 == 0 && raw.pitch_bend.data2 == 0 && raw.pitch_bend.data3 == 0 {
        lemma_store_reads_back_preset(preset_written(m, raw, PRESET_PARAMS as nat), raw);
    }
}

impl ParamStore {
    /// Keeps the value that a message from the device reports.
    pub fn apply(&mut self, status: &DeviceStatus)
        ensures
            final(self)@ == applied(old(self)@, *status),
    {
        broadcast use vstd::std_specs::hash::group_hash_axioms;
        match status {
            DeviceStatus::ParamValue(pv) => {
                self.0.insert(key_of(pv.param.as_u8(), pv.control.as_u8()), pv.value);
            },
            DeviceStatus::GlobalValue(gv) => {
                self.0.insert(key_of(GLOBAL_PARAM_MARKER, gv.param.as_u8()), gv.value);
            },
            DeviceStatus::IdentityReply(_) => {},
        }
    }

    /// The number of values kept.
    pub fn len(&self) -> (res: usize)
        ensures
            res == self@.len(),
    {
        broadcast use vstd::std_specs::hash::group_hash_axioms;
        self.0.len()
    }

    /// Whether no value is kept.
    pub fn is_empty(&self) -> (res: bool)
        ensures
            res == self@.is_empty(),
    {
        self.0.is_empty()
    }

    /// The value kept for parameter byte `param` of control byte `control`.
    pub fn get(&self, param: u8, control: u8) -> (res: Option<u8>)
        ensures
            res == (if self@.contains_key(param_key(param, control)) {
                Some(self@[param_key(param, control)])
            } else {
                None
            }),
    {
        broadcast use vstd::std_specs::hash::group_hash_axioms;
        match self.0.get(&key_of(param, control)) {
            Some(v) => Some(*v),
            None => None,
        }
    }

    /// Keeps `value` for parameter byte `param` of control byte `control`.
    pub fn set(&mut self, param: u8, control: u8, value: u8)
        ensures
            final(self)@ == old(self)@.insert(param_key(param, control), value),
    {
        broadcast use vstd::std_specs::hash::group_hash_axioms;
        self.0.insert(key_of(param, control), value);
    }

    fn require(&self, param: u8, control: u8) -> (res: Result<u8, PresetParseError>)
        ensures
            match res {
                Ok(v) => self@.contains_key(param_key(param, control)) && v == self@[param_key(param, control)],
                Err(e) => !self@.contains_key(param_key(param, control))
                    && e == PresetParseError::MissingParam { param, control },
            },
    {
        match self.get(param, control) {
            Some(v) => Ok(v),
            None => Err(PresetParseError::MissingParam { param, control }),
        }
    }

    fn raw_control(&self, control: u8) -> (res: Result<RawControl, PresetParseError>)
        ensures
            match res {
                Ok(r) => {
                    &&& forall|k: int| 0 <= k < 6 ==> self@.contains_key(#[trigger] control_key(control, k))
                    &&& r == control_from(self@, control)
                },
                Err(e) => exists|k: int|
                    0 <= k < 6 && control_gap(self@, control, k)
                        && names_missing(e, control_key(control, k)),
            },
    {
        let mode = match self.require(1, control) {
            Ok(v) => v,
            Err(e) => {
                assert(control_gap(self@, control, 0));
                return Err(e);
            },
        };
        let channel = match self.require(2, control) {
            Ok(v) => v,
            Err(e) => {
                assert(control_gap(self@, control, 1));
                return Err(e);
            },
        };
        let data1 = match self.require(3, control) {
            Ok(v) => v,
            Err(e) => {
                assert(control_gap(self@, control, 2));
                return Err(e);
            },
        };
        let data2 = match self.require(4, control) {
            Ok(v) => v,
            Err(e) => {
                assert(control_gap(self@, control, 3));
                return Err(e);
            },
        };
        let data3 = match self.require(5, control) {
            Ok(v) => v,
            Err(e) => {
                assert(control_gap(self@, control, 4));
                return Err(e);
            },
        };
        let option = match self.require(6, control) {
            Ok(v) => v,
            Err(e) => {
                assert(control_gap(self@, control, 5));
                return Err(e);
            },
        };
        Ok(RawControl { mode, channel, data1, data2, data3, option })
    }

    fn raw_pad(&self, control: u8) -> (res: Result<RawPad, PresetParseError>)
        ensures
            match res {
                Ok(r) => {
                    &&& forall|k: int| 0 <= k < 7 ==> self@.contains_key(#[trigger] pad_key(control, k))
                    &&& r == pad_from(self@, control)
                },
                Err(e) => exists|k: int|
                    0 <= k < 7 && pad_gap(self@, control, k)
                        && names_missing(e, pad_key(control, k)),
            },
    {
        let raw = match self.raw_control(control) {
            Ok(r) => r,
            Err(e) => {
                let ghost k = choose|k: int|
                    0 <= k < 6 && control_gap(self@, control, k)
                        && names_missing(e, control_key(control, k));
                assert(pad_gap(self@, control, k)) by {
                    assert forall|s: int| 0 <= s < k implies self@.contains_key(#[trigger] pad_key(control, s)) by {
                        assert(self@.contains_key(control_key(control, s)));
                    }
                }
                return Err(e);
            },
        };
        let color = match self.require(ParamId::PadColor.as_u8(), control) {
            Ok(v) => v,
            Err(e) => {
                assert(pad_gap(self@, control, 6)) by {
                    assert forall|s: int| 0 <= s < 6 implies self@.contains_key(#[trigger] pad_key(control, s)) by {
                        assert(self@.contains_key(control_key(control, s)));
                    }
                }
                return Err(e);
            },
        };
        assert forall|k: int| 0 <= k < 7 implies self@.contains_key(#[trigger] pad_key(control, k)) by {
            if k < 6 {
                assert(pad_key(control, k) == control_key(control, k));
            }
        }
        Ok(RawPad {
            mode: raw.mode,
            channel: raw.channel,
            data1: raw.data1,
            data2: raw.data2,
            data3: raw.data3,
            option: raw.option,
            color,
        })
    }

    /// Reads the knobs.
    fn read_knobs(&self) -> (res: Result<[RawControl; 16], PresetParseError>)
        ensures
            match res {
                Ok(arr) => {
                    &&& forall|s: int| 0 <= s < 96 ==> self@.contains_key(#[trigger] preset_key(s))
                    &&& forall|j: int| 0 <= j < 16 ==> #[trigger] arr@[j] == control_from(self@, ControlId::knobs_spec()[j].code())
                },
                Err(e) => exists|t: int| t < 96 && segment_gap(self@, 0, t) && names_missing(e, preset_key(t)),
            },
    {
        let zero = RawControl { mode: 0, channel: 0, data1: 0, data2: 0, data3: 0, option: 0 };
        let mut arr = [zero; 16];
        let ids = ControlId::knobs();
        let mut i: usize = 0;
        while i < 16
            invariant
                i <= 16,
                ids@ == ControlId::knobs_spec(),
                forall|s: int| 0 <= s < 0 + 6 * i ==> self@.contains_key(#[trigger] preset_key(s)),
                forall|j: int| 0 <= j < i ==> #[trigger] arr@[j] == control_from(self@, ControlId::knobs_spec()[j].code()),
            decreases 16 - i,
        {
            let c = ids[i].as_u8();
            proof {
                assert(six_param_controls()[0 + i] == ControlId::knobs_spec()[i as int]);
            }
            match self.raw_control(c) {
                Ok(r) => {
                    proof {
                        assert forall|s: int| 0 <= s < 0 + 6 * (i + 1) implies self@.contains_key(#[trigger] preset_key(s)) by {
                            if s >= 0 + 6 * i {
                                lemma_six_key(0 + i, s - 0 - 6 * i);
                                assert(self@.contains_key(control_key(c, s - 0 - 6 * i)));
                            }
                        }
                    }
                    arr[i] = r;
                },
                Err(e) => {
                    proof {
                        let k = choose|k: int| 0 <= k < 6 && control_gap(self@, c, k) && names_missing(e, control_key(c, k));
                        let t = 0 + 6 * i + k;
                        lemma_six_key(0 + i, k);
                        assert forall|s: int| 0 <= s < t implies self@.contains_key(#[trigger] preset_key(s)) by {
                            if s >= 0 + 6 * i {
                                lemma_six_key(0 + i, s - 0 - 6 * i);
                                assert(self@.contains_key(control_key(c, s - 0 - 6 * i)));
                            }
                        }
                        assert(segment_gap(self@, 0, t));
                    }
                    return Err(e);
                },
            }
            i = i + 1;
        }
        Ok(arr)
    }

    /// Reads the knobs as turned with shift held.
    fn read_shift_knobs(&self) -> (res: Result<[RawControl; 2], PresetParseError>)
        ensures
            match res {
                Ok(arr) => {
                    &&& forall|s: int| 96 <= s < 108 ==> self@.contains_key(#[trigger] preset_key(s))
                    &&& forall|j: int| 0 <= j < 2 ==> #[trigger] arr@[j] == control_from(self@, ControlId::shift_knobs_spec()[j].code())
                },
                Err(e) => exists|t: int| t < 108 && segment_gap(self@, 96, t) && names_missing(e, preset_key(t)),
            },
    {
        let zero = RawControl { mode: 0, channel: 0, data1: 0, data2: 0, data3: 0, option: 0 };
        let mut arr = [zero; 2];
        let ids = ControlId::shift_knobs();
        let mut i: usize = 0;
        while i < 2
            invariant
                i <= 2,
                ids@ == ControlId::shift_knobs_spec(),
                forall|s: int| 96 <= s < 96 + 6 * i ==> self@.contains_key(#[trigger] preset_key(s)),
                forall|j: int| 0 <= j < i ==> #[trigger] arr@[j] == control_from(self@, ControlId::shift_knobs_spec()[j].code()),
            decreases 2 - i,
        {
            let c = ids[i].as_u8();
            proof {
                assert(six_param_controls()[16 + i] == ControlId::shift_knobs_spec()[i as int]);
            }
            match self.raw_control(c) {
                Ok(r) => {
                    proof {
                        assert forall|s: int| 96 <= s < 96 + 6 * (i + 1) implies self@.contains_key(#[trigger] preset_key(s)) by {
                            if s >= 96 + 6 * i {
                                lemma_six_key(16 + i, s - 96 - 6 * i);
                                assert(self@.contains_key(control_key(c, s - 96 - 6 * i)));
                            }
                        }
                    }
                    arr[i] = r;
                },
                Err(e) => {
                    proof {
                        let k = choose|k: int| 0 <= k < 6 && control_gap(self@, c, k) && names_missing(e, control_key(c, k));
                        let t = 96 + 6 * i + k;
                        lemma_six_key(16 + i, k);
                        assert forall|s: int| 96 <= s < t implies self@.contains_key(#[trigger] preset_key(s)) by {
                            if s >= 96 + 6 * i {
                                lemma_six_key(16 + i, s - 96 - 6 * i);
                                assert(self@.contains_key(control_key(c, s - 96 - 6 * i)));
                            }
                        }
                        assert(segment_gap(self@, 96, t));
                    }
                    return Err(e);
                },
            }
            i = i + 1;
        }
        Ok(arr)
    }

    /// Reads the buttons.
    fn read_buttons(&self) -> (res: Result<[RawControl; 4], PresetParseError>)
        ensures
            match res {
                Ok(arr) => {
                    &&& forall|s: int| 108 <= s < 132 ==> self@.contains_key(#[trigger] preset_key(s))
                    &&& forall|j: int| 0 <= j < 4 ==> #[trigger] arr@[j] == control_from(self@, ControlId::buttons_spec()[j].code())
                },
                Err(e) => exists|t: int| t < 132 && segment_gap(self@, 108, t) && names_missing(e, preset_key(t)),
            },
    {
        let zero = RawControl { mode: 0, channel: 0, data1: 0, data2: 0, data3: 0, option: 0 };
        let mut arr = [zero; 4];
        let ids = ControlId::buttons();
        let mut i: usize = 0;
        while i < 4
            invariant
                i <= 4,
                ids@ == ControlId::buttons_spec(),
                forall|s: int| 108 <= s < 108 + 6 * i ==> self@.contains_key(#[trigger] preset_key(s)),
                forall|j: int| 0 <= j < i ==> #[trigger] arr@[j] == control_from(self@, ControlId::buttons_spec()[j].code()),
            decreases 4 - i,
        {
            let c = ids[i].as_u8();
            proof {
                assert(six_param_controls()[18 + i] == ControlId::buttons_spec()[i as int]);
            }
            match self.raw_control(c) {
                Ok(r) => {
                    proof {
                        assert forall|s: int| 108 <= s < 108 + 6 * (i + 1) implies self@.contains_key(#[trigger] preset_key(s)) by {
                            if s >= 108 + 6 * i {
                                lemma_six_key(18 + i, s - 108 - 6 * i);
                                assert(self@.contains_key(control_key(c, s - 108 - 6 * i)));
                            }
                        }
                    }
                    arr[i] = r;
                },
                Err(e) => {
                    proof {
                        let k = choose|k: int| 0 <= k < 6 && control_gap(self@, c, k) && names_missing(e, control_key(c, k));
                        let t = 108 + 6 * i + k;
                        lemma_six_key(18 + i, k);
                        assert forall|s: int| 108 <= s < t implies self@.contains_key(#[trigger] preset_key(s)) by {
                            if s >= 108 + 6 * i {
                                lemma_six_key(18 + i, s - 108 - 6 * i);
                                assert(self@.contains_key(control_key(c, s - 108 - 6 * i)));
                            }
                        }
                        assert(segment_gap(self@, 108, t));
                    }
                    return Err(e);
                },
            }
            i = i + 1;
        }
        Ok(arr)
    }

    /// Reads the pads.
    fn read_pads(&self) -> (res: Result<[RawPad; 16], PresetParseError>)
        ensures
            match res {
                Ok(arr) => {
                    &&& forall|s: int| 147 <= s < 259 ==> self@.contains_key(#[trigger] preset_key(s))
                    &&& forall|j: int| 0 <= j < 16 ==> #[trigger] arr@[j] == pad_from(self@, ControlId::pads_spec()[j].code())
                },
                Err(e) => exists|t: int| t < 259 && segment_gap(self@, 147, t) && names_missing(e, preset_key(t)),
            },
    {
        let zero = RawPad { mode: 0, channel: 0, data1: 0, data2: 0, data3: 0, option: 0, color: 0 };
        let mut arr = [zero; 16];
        let ids = ControlId::pads();
        let mut i: usize = 0;
        while i < 16
            invariant
                i <= 16,
                ids@ == ControlId::pads_spec(),
                forall|s: int| 147 <= s < 147 + 7 * i ==> self@.contains_key(#[trigger] preset_key(s)),
                forall|j: int| 0 <= j < i ==> #[trigger] arr@[j] == pad_from(self@, ControlId::pads_spec()[j].code()),
            decreases 16 - i,
        {
            let c = ids[i].as_u8();
            match self.raw_pad(c) {
                Ok(r) => {
                    proof {
                        assert forall|s: int| 147 <= s < 147 + 7 * (i + 1) implies self@.contains_key(#[trigger] preset_key(s)) by {
                            if s >= 147 + 7 * i {
                                lemma_pad_key(i as int, s - 147 - 7 * i);
                                assert(self@.contains_key(pad_key(c, s - 147 - 7 * i)));
                            }
                        }
                    }
                    arr[i] = r;
                },
                Err(e) => {
                    proof {
                        let k = choose|k: int| 0 <= k < 7 && pad_gap(self@, c, k) && names_missing(e, pad_key(c, k));
                        let t = 147 + 7 * i + k;
                        lemma_pad_key(i as int, k);
                        assert forall|s: int| 147 <= s < t implies self@.contains_key(#[trigger] preset_key(s)) by {
                            if s >= 147 + 7 * i {
                                lemma_pad_key(i as int, s - 147 - 7 * i);
                                assert(self@.contains_key(pad_key(c, s - 147 - 7 * i)));
                            }
                        }
                        assert(segment_gap(self@, 147, t));
                    }
                    return Err(e);
                },
            }
            i = i + 1;
        }
        Ok(arr)
    }

    /// Reads a control with all six parameters whose keys are the
    /// parameters from the `base`-th on.
    fn read_single(&self, control: ControlId, base: Ghost<int>) -> (res: Result<RawControl, PresetParseError>)
        requires
            base@ == 132 && control == ControlId::ModWheel || base@ == 141 && control == ControlId::SustainPedal,
        ensures
            match res {
                Ok(r) => {
                    &&& forall|s: int| base@ <= s < base@ + 6 ==> self@.contains_key(#[trigger] preset_key(s))
                    &&& r == control_from(self@, control.code())
                },
                Err(e) => exists|t: int| t < base@ + 6 && segment_gap(self@, base@, t) && names_missing(e, preset_key(t)),
            },
    {
        let c = control.as_u8();
        proof {
            assert(six_param_controls()[22] == ControlId::ModWheel);
            assert forall|k: int| 0 <= k < 6 implies preset_key(base@ + k) == control_key(c, k) by {
                if base@ == 132 {
                    lemma_six_key(22, k);
                }
            }
        }
        match self.raw_control(c) {
            Ok(r) => {
                proof {
                    assert forall|s: int| base@ <= s < base@ + 6 implies self@.contains_key(#[trigger] preset_key(s)) by {
                        assert(preset_key(base@ + (s - base@)) == control_key(c, s - base@));
                        assert(self@.contains_key(control_key(c, s - base@)));
                    }
                }
                Ok(r)
            },
            Err(e) => {
                proof {
                    let k = choose|k: int| 0 <= k < 6 && control_gap(self@, c, k) && names_missing(e, control_key(c, k));
                    let t = base@ + k;
                    assert(preset_key(base@ + k) == control_key(c, k));
                    assert forall|s: int| base@ <= s < t implies self@.contains_key(#[trigger] preset_key(s)) by {
                        assert(preset_key(base@ + (s - base@)) == control_key(c, s - base@));
                        assert(self@.contains_key(control_key(c, s - base@)));
                    }
                    assert(segment_gap(self@, base@, t));
                }
                Err(e)
            },
        }
    }

    /// Reads the pitch bend: its mode, channel and option.
    fn read_pitch_bend(&self) -> (res: Result<RawControl, PresetParseError>)
        ensures
            match res {
                Ok(r) => {
                    &&& forall|s: int| 138 <= s < 141 ==> self@.contains_key(#[trigger] preset_key(s))
                    &&& r == pitch_bend_from(self@)
                },
                Err(e) => exists|t: int| t < 141 && segment_gap(self@, 138, t) && names_missing(e, preset_key(t)),
            },
    {
        let c = ControlId::PitchBend.as_u8();
        let mode = match self.require(ParamId::Mode.as_u8(), c) {
            Ok(v) => v,
            Err(e) => {
                assert(segment_gap(self@, 138, 138));
                return Err(e);
            },
        };
        let channel = match self.require(ParamId::Channel.as_u8(), c) {
            Ok(v) => v,
            Err(e) => {
                assert(segment_gap(self@, 138, 139));
                return Err(e);
            },
        };
        let option = match self.require(ParamId::Option.as_u8(), c) {
            Ok(v) => v,
            Err(e) => {
                assert(segment_gap(self@, 138, 140));
                return Err(e);
            },
        };
        Ok(RawControl { mode, channel, data1: 0, data2: 0, data3: 0, option })
    }

    /// Assembles the stored preset from the kept values: every control's
    /// parameters in order, failing at the first that is missing (the one
    /// index `t` of which `preset_gap` holds, see [`lemma_preset_gap_unique`]).
    #[verifier::spinoff_prover]
    pub fn try_into_raw_preset(&self) -> (res: Result<RawPreset, PresetParseError>)
        ensures
            match res {
                Ok(raw) => {
                    &&& forall|t: int| 0 <= t < PRESET_PARAMS ==> self@.contains_key(#[trigger] preset_key(t))
                    &&& preset_read(self@, raw)
                },
                Err(e) => exists|t: int| t < PRESET_PARAMS && preset_gap(self@, t) && names_missing(e, preset_key(t)),
            },
    {
        let knobs = match self.read_knobs() {
            Ok(a) => a,
            Err(e) => {
                proof {
                    let t = choose|t: int| t < 96 && segment_gap(self@, 0, t) && names_missing(e, preset_key(t));
                    lemma_join_gap(self@, 0, t);
                }
                return Err(e);
            },
        };
        let shift_knobs = match self.read_shift_knobs() {
            Ok(a) => a,
            Err(e) => {
                proof {
                    let t = choose|t: int| t < 108 && segment_gap(self@, 96, t) && names_missing(e, preset_key(t));
                    lemma_join_gap(self@, 96, t);
                }
                return Err(e);
            },
        };
        let buttons = match self.read_buttons() {
            Ok(a) => a,
            Err(e) => {
                proof {
                    let t = choose|t: int| t < 132 && segment_gap(self@, 108, t) && names_missing(e, preset_key(t));
                    lemma_join_gap(self@, 108, t);
                }
                return Err(e);
            },
        };
        let mod_wheel = match self.read_single(ControlId::ModWheel, Ghost(132)) {
            Ok(a) => a,
            Err(e) => {
                proof {
                    let t = choose|t: int| t < 138 && segment_gap(self@, 132, t) && names_missing(e, preset_key(t));
                    lemma_join_gap(self@, 132, t);
                }
                return Err(e);
            },
        };
        let pitch_bend = match self.read_pitch_bend() {
            Ok(a) => a,
            Err(e) => {
                proof {
                    let t = choose|t: int| t < 141 && segment_gap(self@, 138, t) && names_missing(e, preset_key(t));
                    lemma_join_gap(self@, 138, t);
                }
                return Err(e);
            },
        };
        let sustain_pedal = match self.read_single(ControlId::SustainPedal, Ghost(141)) {
            Ok(a) => a,
            Err(e) => {
                proof {
                    let t = choose|t: int| t < 147 && segment_gap(self@, 141, t) && names_missing(e, preset_key(t));
                    lemma_join_gap(self@, 141, t);
                }
                return Err(e);
            },
        };
        let pads = match self.read_pads() {
            Ok(a) => a,
            Err(e) => {
                proof {
                    let t = choose|t: int| t < 259 && segment_gap(self@, 147, t) && names_missing(e, preset_key(t));
                    lemma_join_gap(self@, 147, t);
                }
                return Err(e);
            },
        };
        let raw = RawPreset { knobs, shift_knobs, buttons, mod_wheel, pitch_bend, sustain_pedal, pads };
        proof {
            assert forall|t: int| 0 <= t < PRESET_PARAMS implies self@.contains_key(#[trigger] preset_key(t)) by {
                if t < 96 {
                } else if t < 108 {
                } else if t < 132 {
                } else if t < 138 {
                } else if t < 141 {
                } else if t < 147 {
                } else {
                }
            }
        }
        Ok(raw)
    }

    /// The preset that the kept values make up, each control named by its
    /// place, failing at the first parameter that is missing (the one index
    /// `t` of which `preset_gap` holds).
    pub fn try_into_preset(&self) -> (res: Result<Preset, PresetParseError>)
        ensures
            match res {
                Ok(p) => {
                    &&& forall|t: int| 0 <= t < PRESET_PARAMS ==> self@.contains_key(#[trigger] preset_key(t))
                    &&& exists|raw: RawPreset| #[trigger] preset_read(self@, raw) && reads_preset(p, raw)
                },
                Err(e) => exists|t: int| t < PRESET_PARAMS && preset_gap(self@, t) && names_missing(e, preset_key(t)),
            },
    {
        match self.try_into_raw_preset() {
            Ok(raw) => {
                let p = Preset::from_raw(raw);
                assert(preset_read(self@, raw) && reads_preset(p, raw));
                assert(exists|r: RawPreset| #[trigger] preset_read(self@, r) && reads_preset(p, r));
                assert(forall|t: int| 0 <= t < PRESET_PARAMS ==> self@.contains_key(#[trigger] preset_key(t)));
                Ok(p)
            },
            Err(e) => Err(e),
        }
    }

    /// Assembles the global parameters from the kept values, in their order,
    /// failing at the first that is missing (the one index `t` of which
    /// `global_gap` holds, see [`lemma_global_gap_unique`]).
    pub fn try_into_raw_global(&self) -> (res: Result<RawGlobal, GlobalParseError>)
        ensures
            match res {
                Ok(raw) => {
                    &&& forall|t: int| 0 <= t < 6 ==> self@.contains_key(#[trigger] global_key(t))
                    &&& raw.bytes() == global_values(self@)
                },
                Err(e) => exists|t: int|
                    0 <= t < 6 && global_gap(self@, t)
                        && e == (GlobalParseError::MissingParam { param: global_param_ids()[t].code() }),
            },
    {
        let params = GlobalParamId::all();
        let mut values: [u8; 6] = [0u8; 6];
        let mut i: usize = 0;
        while i < 6
            invariant
                i <= 6,
                params@ == global_param_ids(),
                forall|s: int| 0 <= s < i ==> self@.contains_key(#[trigger] global_key(s)),
                forall|s: int| 0 <= s < i ==> #[trigger] values@[s] == self@[global_key(s)],
            decreases 6 - i,
        {
            let param = params[i];
            match self.get(GLOBAL_PARAM_MARKER, param.as_u8()) {
                Some(v) => {
                    values[i] = v;
                },
                None => {
                    assert(global_gap(self@, i as int));
                    return Err(GlobalParseError::MissingParam { param: param.as_u8() });
                },
            }
            i = i + 1;
        }
        let raw = RawGlobal {
            keyboard_channel: values[0],
            key_velocity_curve: values[1],
            pad_velocity_curve: values[2],
            knob_acceleration: values[3],
            octave_button_blink: values[4],
            pad_off_backlight: values[5],
        };
        assert(raw.bytes() =~= global_values(self@));
        Ok(raw)
    }
}


/// The bytes of the [`OpCode`] variants, as the device defines them; no
/// other byte stands for a variant.
pub proof fn lemma_op_code_code_table(v: OpCode, b: u8)
    ensures
        v.code() == (match v {
            OpCode::ReadParam => 0x1u8,
            OpCode::WriteParam => 0x2u8,
            OpCode::RecallMemory => 0x5u8,
            OpCode::StoreMemory => 0x6u8,
        }),
        (OpCode::of_code(b) is Some) == (b == 0x1 || b == 0x2 || b == 0x5 || b == 0x6),
{
}

/// The bytes of the [`ParamId`] variants, as the device defines them; no
/// other byte stands for a variant.
pub proof fn lemma_param_id_code_table(v: ParamId, b: u8)
    ensures
        v.code() == (match v {
            ParamId::Mode => 0x1u8,
            ParamId::Channel => 0x2u8,
            ParamId::Data1 => 0x3u8,
            ParamId::Data2 => 0x4u8,
            ParamId::Data3 => 0x5u8,
            ParamId::Option => 0x6u8,
            ParamId::PadColorLive => 0x10u8,
            ParamId::PadColor => 0x11u8,
        }),
        (ParamId::of_code(b) is Some) == (b == 0x1 || b == 0x2 || b == 0x3 || b == 0x4 || b == 0x5 || b == 0x6 || b == 0x10 || b == 0x11),
{
}

/// The bytes of the [`GlobalParamId`] variants, as the device defines them; no
/// other byte stands for a variant.
pub proof fn lemma_global_param_id_code_table(v: GlobalParamId, b: u8)
    ensures
        v.code() == (match v {
            GlobalParamId::KeyboardChannel => 0x6u8,
            GlobalParamId::KeyVelocityCurve => 0x19u8,
            GlobalParamId::PadVelocityCurve => 0x1au8,
            GlobalParamId::KnobAcceleration => 0x1bu8,
            GlobalParamId::OctaveButtonBlink => 0x1du8,
            GlobalParamId::PadOffBacklight => 0x1eu8,
        }),
        (GlobalParamId::of_code(b) is Some) == (b == 0x6 || b == 0x19 || b == 0x1a || b == 0x1b || b == 0x1d || b == 0x1e),
{
}

} // verus!
