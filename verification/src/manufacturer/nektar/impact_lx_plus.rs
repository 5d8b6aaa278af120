//! The Nektar Impact LX+ series (LX25+/49+/61+/88+): its port, message
//! checksum and identifiers.
//!
//! Every message, both directions, is framed as
//! `F0 00 01 77 7F 01 <type> <section> <id> <TLV...> <checksum> F7`, where the
//! TLV block is a sequence of `[param, 0x01, value]` groups separated by
//! `0x00`.

use std::collections::HashMap;

use vstd::prelude::*;
use vstd::string::StrSliceExecFns;

use crate::IntoEnumIterator;
use crate::manufacturer::nektar::impact_lx_plus::error::DeviceStatusParseError;
use crate::manufacturer::nektar::impact_lx_plus::raw::RawControl;
use crate::manufacturer::nektar::impact_lx_plus::raw::RawPad;
use crate::sysex::Sysex;
use crate::sysex::extend_bytes;
use crate::sysex::framed;
use crate::sysex::lemma_parse_framed;
use crate::sysex::parse_frame;

pub mod dump;
pub mod error;
pub mod raw;

verus! {

pub const TOTAL_FADERS: usize = 9;

pub const TOTAL_POTS: usize = 8;

pub const TOTAL_FADER_BUTTONS: usize = 9;

pub const TOTAL_PRESET_CONTROLS: usize = TOTAL_FADERS + TOTAL_POTS + TOTAL_FADER_BUTTONS;

pub const TOTAL_PADS: usize = 8;

pub const TOTAL_PRESETS: usize = 5;

pub const TOTAL_PAD_MAPS: usize = 4;

pub const TOTAL_SETTINGS: usize = 11;

pub const TOTAL_TRANSPORT_BUTTONS: usize = 6;

pub const TOTAL_GLOBAL_CONTROLS: usize = TOTAL_TRANSPORT_BUTTONS + 3;

/// The number of messages in one full memory dump.
pub const DUMP_MESSAGE_COUNT: usize = TOTAL_PRESETS * TOTAL_PRESET_CONTROLS + TOTAL_PAD_MAPS * TOTAL_PADS
    + TOTAL_SETTINGS + TOTAL_GLOBAL_CONTROLS;

/// Whether `needle` occurs in `hay` starting at position `i`.
pub open spec fn occurs_at(hay: Seq<char>, needle: Seq<char>, i: int) -> bool {
    &&& 0 <= i
    &&& i + needle.len() <= hay.len()
    &&& hay.subrange(i, i + needle.len()) == needle
}

/// Whether `needle` occurs somewhere in `hay`.
pub open spec fn occurs_in(hay: Seq<char>, needle: Seq<char>) -> bool {
    exists|i: int| occurs_at(hay, needle, i)
}

fn chars_of(s: &str) -> (res: Vec<char>)
    ensures
        res@ == s@,
{
    let n = s.unicode_len();
    let mut res: Vec<char> = Vec::new();
    let mut i: usize = 0;
    while i < n
        invariant
            n == s@.len(),
            i <= n,
            res@ == s@.take(i as int),
        decreases n - i,
    {
        res.push(s.get_char(i));
        assert(s@.take(i + 1) =~= s@.take(i as int).push(s@[i as int]));
        i = i + 1;
    }
    assert(s@.take(n as int) =~= s@);
    res
}

fn matches_at(hay: &Vec<char>, needle: &Vec<char>, i: usize) -> (res: bool)
    requires
        i + needle@.len() <= hay@.len(),
    ensures
        res == occurs_at(hay@, needle@, i as int),
{
    let hl = hay.len();
    let mut j: usize = 0;
    while j < needle.len()
        invariant
            hl == hay@.len(),
            i + needle@.len() <= hay@.len(),
            j <= needle@.len(),
            forall|k: int| 0 <= k < j ==> hay@[i + k] == needle@[k],
        decreases needle@.len() - j,
    {
        if hay[i + j] != needle[j] {
            assert(hay@.subrange(i as int, i + needle@.len())[j as int] != needle@[j as int]);
            return false;
        }
        j = j + 1;
    }
    assert(hay@.subrange(i as int, i + needle@.len()) =~= needle@);
    true
}

fn contains_chars(hay: &Vec<char>, needle: &Vec<char>) -> (res: bool)
    ensures
        res == occurs_in(hay@, needle@),
{
    if needle.len() > hay.len() {
        return false;
    }
    let last = hay.len() - needle.len();
    let mut i: usize = 0;
    while i <= last
        invariant
            last + needle@.len() == hay@.len(),
            i <= last,
            forall|k: int| 0 <= k < i ==> !occurs_at(hay@, needle@, k),
        decreases last - i,
    {
        if matches_at(hay, needle, i) {
            return true;
        }
        if i == last {
            return false;
        }
        i = i + 1;
    }
    false
}

/// Whether a port name is the sysex port of an Impact LX+ device (any
/// model), as opposed to its DAW-integration `MIDI2` port: it names
/// "Impact LX" and "MIDI1".
pub fn is_sysex_port(name: &str) -> (res: bool)
    ensures
        res == (occurs_in(name@, "Impact LX"@) && occurs_in(name@, "MIDI1"@)),
{
    let hay = chars_of(name);
    let model = chars_of("Impact LX");
    let port = chars_of("MIDI1");
    contains_chars(&hay, &model) && contains_chars(&hay, &port)
}

/// The sum of the bytes.
pub open spec fn byte_sum(s: Seq<u8>) -> nat
    decreases s.len(),
{
    if s.len() == 0 {
        0
    } else {
        byte_sum(s.drop_last()) + s.last() as nat
    }
}

/// The 7-bit checksum of a message body (the object-type byte through the
/// last TLV byte): the low seven bits of the one's complement of the byte sum
/// modulo 256.
pub open spec fn checksum_of(body: Seq<u8>) -> u8 {
    ((255 - byte_sum(body) % 256) % 128) as u8
}

/// The 7-bit checksum over the object-type byte through the last TLV byte:
/// the low seven bits of the one's complement of the byte sum.
pub fn checksum(body: &[u8]) -> (res: u8)
    ensures
        res == checksum_of(body@),
{
    let mut sum: u8 = 0;
    let mut i: usize = 0;
    while i < body.len()
        invariant
            i <= body@.len(),
            sum == byte_sum(body@.take(i as int)) % 256,
        decreases body@.len() - i,
    {
        let b = body[i];
        assert(body@.take(i + 1).drop_last() =~= body@.take(i as int));
        assert(sum.wrapping_add(b) == (sum + b) % 256);
        sum = sum.wrapping_add(b);
        i = i + 1;
    }
    assert(body@.take(body@.len() as int) =~= body@);
    assert((!sum) & 0x7F == (255 - sum) % 128) by (bit_vector);
    (!sum) & 0x7F
}

/// The kind of object a message addresses.
#[derive(Debug, Clone, Copy, PartialEq, Eq, Structural)]
pub enum ObjectType {
    PresetControl,
    Pad,
    Global,
}

impl ObjectType {
    /// The byte that stands for the value.
    pub open spec fn code(self) -> u8 {
        match self {
            ObjectType::PresetControl => 1,
            ObjectType::Pad => 2,
            ObjectType::Global => 5,
        }
    }

    /// The value that byte `b` stands for, if any.
    pub open spec fn of_code(b: u8) -> Option<Self> {
        if b == 1 {
            Some(ObjectType::PresetControl)
        } else if b == 2 {
            Some(ObjectType::Pad)
        } else if b == 5 {
            Some(ObjectType::Global)
        } else {
            None
        }
    }

    /// The byte that stands for the value.
    pub fn as_u8(self) -> (res: u8)
        ensures
            res == self.code(),
    {
        match self {
            ObjectType::PresetControl => 1,
            ObjectType::Pad => 2,
            ObjectType::Global => 5,
        }
    }

    /// The value that byte `b` stands for, if any.
    pub fn from_code(b: u8) -> (res: Option<Self>)
        ensures
            res == Self::of_code(b),
            res matches Some(v) ==> v.code() == b,
    {
        if b == 1 {
            Some(ObjectType::PresetControl)
        } else if b == 2 {
            Some(ObjectType::Pad)
        } else if b == 5 {
            Some(ObjectType::Global)
        } else {
            None
        }
    }

    /// A byte that stands for a value is that value's byte, and a value's
    /// byte stands for it.
    pub proof fn lemma_code(b: u8, v: Self)
        ensures
            Self::of_code(b) matches Some(x) ==> x.code() == b,
            Self::of_code(v.code()) == Some(v),
    {
    }

}

impl From<ObjectType> for u8 {
    fn from(v: ObjectType) -> (res: u8) {
        v.as_u8()
    }
}

impl vstd::std_specs::convert::FromSpecImpl<ObjectType> for u8 {
    open spec fn obeys_from_spec() -> bool {
        true
    }

    open spec fn from_spec(v: ObjectType) -> u8 {
        v.code()
    }
}

impl TryFrom<u8> for ObjectType {
    type Error = u8;

    fn try_from(b: u8) -> (res: Result<Self, u8>) {
        match Self::from_code(b) {
            Some(v) => Ok(v),
            None => Err(b),
        }
    }
}

impl vstd::std_specs::convert::TryFromSpecImpl<u8> for ObjectType {
    open spec fn obeys_try_from_spec() -> bool {
        true
    }

    open spec fn try_from_spec(b: u8) -> Result<Self, u8> {
        match Self::of_code(b) {
            Some(v) => Ok(v),
            None => Err(b),
        }
    }
}

/// A parameter of a control or pad.
#[derive(Debug, Clone, Copy, PartialEq, Eq, Hash, Structural)]
pub enum ParamId {
    Channel,
    Kind,
    Data1,
    Min,
    Max,
    Note,
}

impl ParamId {
    /// The byte that stands for the value.
    pub open spec fn code(self) -> u8 {
        match self {
            ParamId::Channel => 1,
            ParamId::Kind => 2,
            ParamId::Data1 => 3,
            ParamId::Min => 4,
            ParamId::Max => 5,
            ParamId::Note => 6,
        }
    }

    /// The value that byte `b` stands for, if any.
    pub open spec fn of_code(b: u8) -> Option<Self> {
        if b == 1 {
            Some(ParamId::Channel)
        } else if b == 2 {
            Some(ParamId::Kind)
        } else if b == 3 {
            Some(ParamId::Data1)
        } else if b == 4 {
            Some(ParamId::Min)
        } else if b == 5 {
            Some(ParamId::Max)
        } else if b == 6 {
            Some(ParamId::Note)
        } else {
            None
        }
    }

    /// The byte that stands for the value.
    pub fn as_u8(self) -> (res: u8)
        ensures
            res == self.code(),
    {
        match self {
            ParamId::Channel => 1,
            ParamId::Kind => 2,
            ParamId::Data1 => 3,
            ParamId::Min => 4,
            ParamId::Max => 5,
            ParamId::Note => 6,
        }
    }

    /// The value that byte `b` stands for, if any.
    pub fn from_code(b: u8) -> (res: Option<Self>)
        ensures
            res == Self::of_code(b),
            res matches Some(v) ==> v.code() == b,
    {
        if b == 1 {
            Some(ParamId::Channel)
        } else if b == 2 {
            Some(ParamId::Kind)
        } else if b == 3 {
            Some(ParamId::Data1)
        } else if b == 4 {
            Some(ParamId::Min)
        } else if b == 5 {
            Some(ParamId::Max)
        } else if b == 6 {
            Some(ParamId::Note)
        } else {
            None
        }
    }

    /// A byte that stands for a value is that value's byte, and a value's
    /// byte stands for it.
    pub proof fn lemma_code(b: u8, v: Self)
        ensures
            Self::of_code(b) matches Some(x) ==> x.code() == b,
            Self::of_code(v.code()) == Some(v),
    {
    }

    /// Every value, in order.
    pub fn all() -> (res: Vec<Self>)
        ensures
            res@ == seq![ParamId::Channel, ParamId::Kind, ParamId::Data1, ParamId::Min, ParamId::Max, ParamId::Note],
    {
        let res = vec![ParamId::Channel, ParamId::Kind, ParamId::Data1, ParamId::Min, ParamId::Max, ParamId::Note];
        res
    }

}

impl From<ParamId> for u8 {
    fn from(v: ParamId) -> (res: u8) {
        v.as_u8()
    }
}

impl vstd::std_specs::convert::FromSpecImpl<ParamId> for u8 {
    open spec fn obeys_from_spec() -> bool {
        true
    }

    open spec fn from_spec(v: ParamId) -> u8 {
        v.code()
    }
}

impl TryFrom<u8> for ParamId {
    type Error = u8;

    fn try_from(b: u8) -> (res: Result<Self, u8>) {
        match Self::from_code(b) {
            Some(v) => Ok(v),
            None => Err(b),
        }
    }
}

impl vstd::std_specs::convert::TryFromSpecImpl<u8> for ParamId {
    open spec fn obeys_try_from_spec() -> bool {
        true
    }

    open spec fn try_from_spec(b: u8) -> Result<Self, u8> {
        match Self::of_code(b) {
            Some(v) => Ok(v),
            None => Err(b),
        }
    }
}

impl IntoEnumIterator for ParamId {
    fn iter() -> std::vec::IntoIter<Self> {
        Self::all().into_iter()
    }
}

/// A global setting; the declaration order is the order of a memory dump
/// (`0x0F` comes last, after `0x12`).
#[derive(Debug, Clone, Copy, PartialEq, Eq, Hash, Structural)]
pub enum GlobalSettingId {
    MidiChannel,
    Unknown04,
    Unknown05,
    Unknown06,
    Unknown07,
    Unknown08,
    Unknown09,
    Unknown10,
    Unknown11,
    Unknown12,
    Unknown0F,
}

impl GlobalSettingId {
    /// The byte that stands for the value.
    pub open spec fn code(self) -> u8 {
        match self {
            GlobalSettingId::MidiChannel => 1,
            GlobalSettingId::Unknown04 => 4,
            GlobalSettingId::Unknown05 => 5,
            GlobalSettingId::Unknown06 => 6,
            GlobalSettingId::Unknown07 => 7,
            GlobalSettingId::Unknown08 => 8,
            GlobalSettingId::Unknown09 => 9,
            GlobalSettingId::Unknown10 => 16,
            GlobalSettingId::Unknown11 => 17,
            GlobalSettingId::Unknown12 => 18,
            GlobalSettingId::Unknown0F => 15,
        }
    }

    /// The value that byte `b` stands for, if any.
    pub open spec fn of_code(b: u8) -> Option<Self> {
        if b == 1 {
            Some(GlobalSettingId::MidiChannel)
        } else if b == 4 {
            Some(GlobalSettingId::Unknown04)
        } else if b == 5 {
            Some(GlobalSettingId::Unknown05)
        } else if b == 6 {
            Some(GlobalSettingId::Unknown06)
        } else if b == 7 {
            Some(GlobalSettingId::Unknown07)
        } else if b == 8 {
            Some(GlobalSettingId::Unknown08)
        } else if b == 9 {
            Some(GlobalSettingId::Unknown09)
        } else if b == 16 {
            Some(GlobalSettingId::Unknown10)
        } else if b == 17 {
            Some(GlobalSettingId::Unknown11)
        } else if b == 18 {
            Some(GlobalSettingId::Unknown12)
        } else if b == 15 {
            Some(GlobalSettingId::Unknown0F)
        } else {
            None
        }
    }

    /// The byte that stands for the value.
    pub fn as_u8(self) -> (res: u8)
        ensures
            res == self.code(),
    {
        match self {
            GlobalSettingId::MidiChannel => 1,
            GlobalSettingId::Unknown04 => 4,
            GlobalSettingId::Unknown05 => 5,
            GlobalSettingId::Unknown06 => 6,
            GlobalSettingId::Unknown07 => 7,
            GlobalSettingId::Unknown08 => 8,
            GlobalSettingId::Unknown09 => 9,
            GlobalSettingId::Unknown10 => 16,
            GlobalSettingId::Unknown11 => 17,
            GlobalSettingId::Unknown12 => 18,
            GlobalSettingId::Unknown0F => 15,
        }
    }

    /// The value that byte `b` stands for, if any.
    pub fn from_code(b: u8) -> (res: Option<Self>)
        ensures
            res == Self::of_code(b),
            res matches Some(v) ==> v.code() == b,
    {
        if b == 1 {
            Some(GlobalSettingId::MidiChannel)
        } else if b == 4 {
            Some(GlobalSettingId::Unknown04)
        } else if b == 5 {
            Some(GlobalSettingId::Unknown05)
        } else if b == 6 {
            Some(GlobalSettingId::Unknown06)
        } else if b == 7 {
            Some(GlobalSettingId::Unknown07)
        } else if b == 8 {
            Some(GlobalSettingId::Unknown08)
        } else if b == 9 {
            Some(GlobalSettingId::Unknown09)
        } else if b == 16 {
            Some(GlobalSettingId::Unknown10)
        } else if b == 17 {
            Some(GlobalSettingId::Unknown11)
        } else if b == 18 {
            Some(GlobalSettingId::Unknown12)
        } else if b == 15 {
            Some(GlobalSettingId::Unknown0F)
        } else {
            None
        }
    }

    /// A byte that stands for a value is that value's byte, and a value's
    /// byte stands for it.
    pub proof fn lemma_code(b: u8, v: Self)
        ensures
            Self::of_code(b) matches Some(x) ==> x.code() == b,
            Self::of_code(v.code()) == Some(v),
    {
    }

    /// Every value, in order.
    pub fn all() -> (res: Vec<Self>)
        ensures
            res@ == seq![GlobalSettingId::MidiChannel, GlobalSettingId::Unknown04, GlobalSettingId::Unknown05, GlobalSettingId::Unknown06, GlobalSettingId::Unknown07, GlobalSettingId::Unknown08, GlobalSettingId::Unknown09, GlobalSettingId::Unknown10, GlobalSettingId::Unknown11, GlobalSettingId::Unknown12, GlobalSettingId::Unknown0F],
    {
        let res = vec![GlobalSettingId::MidiChannel, GlobalSettingId::Unknown04, GlobalSettingId::Unknown05, GlobalSettingId::Unknown06, GlobalSettingId::Unknown07, GlobalSettingId::Unknown08, GlobalSettingId::Unknown09, GlobalSettingId::Unknown10, GlobalSettingId::Unknown11, GlobalSettingId::Unknown12, GlobalSettingId::Unknown0F];
        res
    }

}

impl From<GlobalSettingId> for u8 {
    fn from(v: GlobalSettingId) -> (res: u8) {
        v.as_u8()
    }
}

impl vstd::std_specs::convert::FromSpecImpl<GlobalSettingId> for u8 {
    open spec fn obeys_from_spec() -> bool {
        true
    }

    open spec fn from_spec(v: GlobalSettingId) -> u8 {
        v.code()
    }
}

impl TryFrom<u8> for GlobalSettingId {
    type Error = u8;

    fn try_from(b: u8) -> (res: Result<Self, u8>) {
        match Self::from_code(b) {
            Some(v) => Ok(v),
            None => Err(b),
        }
    }
}

impl vstd::std_specs::convert::TryFromSpecImpl<u8> for GlobalSettingId {
    open spec fn obeys_try_from_spec() -> bool {
        true
    }

    open spec fn try_from_spec(b: u8) -> Result<Self, u8> {
        match Self::of_code(b) {
            Some(v) => Ok(v),
            None => Err(b),
        }
    }
}

impl IntoEnumIterator for GlobalSettingId {
    fn iter() -> std::vec::IntoIter<Self> {
        Self::all().into_iter()
    }
}

// ---------------------------------------------------------------------------
// Messages
// ---------------------------------------------------------------------------

/// The manufacturer id of Nektar.
pub open spec fn manufacturer_id() -> Seq<u8> {
    seq![0x00, 0x01, 0x77]
}

/// The bytes that open the payload of every message.
pub open spec fn command_header() -> Seq<u8> {
    manufacturer_id() + seq![0x7F, 0x01]
}

/// The bytes that open the payload of every message.
pub fn sysex_command_header() -> (res: [u8; 5])
    ensures
        res@ == command_header(),
{
    let res: [u8; 5] = [0x00, 0x01, 0x77, 0x7F, 0x01];
    assert(res@ =~= command_header());
    res
}

/// The TLV groups `[param, 0x01, value]` of `params`, each but the first
/// preceded by a `0x00` when `lead` holds for it.
pub open spec fn tlv_from(params: Seq<(u8, u8)>, lead: bool) -> Seq<u8>
    decreases params.len(),
{
    if params.len() == 0 {
        seq![]
    } else {
        (if lead { seq![0x00u8] } else { seq![] }) + seq![params[0].0, 0x01, params[0].1] + tlv_from(
            params.drop_first(),
            true,
        )
    }
}

/// The TLV block of `params`: their groups separated by `0x00`.
pub open spec fn tlv(params: Seq<(u8, u8)>) -> Seq<u8> {
    tlv_from(params, false)
}

/// The body of a message: object type, section, id and TLV block.
pub open spec fn message_body(object: u8, section: u8, id: u8, params: Seq<(u8, u8)>) -> Seq<u8> {
    seq![object, section, id] + tlv(params)
}

/// The payload of a message: header, body, and the body's checksum.
pub open spec fn message_payload(object: u8, section: u8, id: u8, params: Seq<(u8, u8)>) -> Seq<u8> {
    command_header() + message_body(object, section, id, params) + seq![
        checksum_of(message_body(object, section, id, params)),
    ]
}

fn command_message(object: ObjectType, section: u8, id: u8, params: &[(u8, u8)]) -> (res: Vec<u8>)
    ensures
        res@ == framed(message_payload(object.code(), section, id, params@)),
{
    let n = params.len();
    let mut body: Vec<u8> = vec![object.as_u8(), section, id];
    let ghost head = seq![object.code(), section, id];
    assert(body@ =~= head);
    assert(params@.skip(0) =~= params@);
    let mut k: usize = 0;
    while k < n
        invariant
            n == params@.len(),
            k <= n,
            body@ + tlv_from(params@.skip(k as int), k > 0) == head + tlv(params@),
        decreases n - k,
    {
        let (param, value) = params[k];
        let ghost before = body@;
        let ghost rest = params@.skip(k as int);
        assert(rest[0] == (param, value));
        assert(rest.drop_first() =~= params@.skip(k + 1));
        if k > 0 {
            body.push(0x00);
        }
        body.push(param);
        body.push(0x01);
        body.push(value);
        assert(body@ + tlv_from(params@.skip(k + 1), true) =~= before + tlv_from(rest, k > 0));
        k = k + 1;
    }
    assert(params@.skip(n as int) =~= Seq::<(u8, u8)>::empty());
    assert(body@ =~= message_body(object.code(), section, id, params@));
    let sum = checksum(body.as_slice());
    let header = sysex_command_header();
    let mut payload: Vec<u8> = Vec::new();
    extend_bytes(&mut payload, &header);
    extend_bytes(&mut payload, body.as_slice());
    payload.push(sum);
    assert(payload@ =~= message_payload(object.code(), section, id, params@));
    Sysex::new(payload).as_bytes()
}

/// The parameters of a control, by id: channel, kind, data 1, min, max.
pub open spec fn control_params(value: RawControl) -> Seq<(u8, u8)> {
    seq![(1u8, value.channel), (2u8, value.kind), (3u8, value.data1), (4u8, value.min), (5u8, value.max)]
}

/// The parameters of a pad, by id: those of a control, then its note.
pub open spec fn pad_params(value: RawPad) -> Seq<(u8, u8)> {
    seq![
        (1u8, value.channel),
        (2u8, value.kind),
        (3u8, value.data1),
        (4u8, value.min),
        (5u8, value.max),
        (6u8, value.note),
    ]
}

fn control_param_list(value: &RawControl) -> (res: [(u8, u8); 5])
    ensures
        res@ == control_params(*value),
{
    let res = [
        (ParamId::Channel.as_u8(), value.channel),
        (ParamId::Kind.as_u8(), value.kind),
        (ParamId::Data1.as_u8(), value.data1),
        (ParamId::Min.as_u8(), value.min),
        (ParamId::Max.as_u8(), value.max),
    ];
    assert(res@ =~= control_params(*value));
    res
}

/// The message that writes control `control` of preset `preset` (the
/// section and id bytes of the message).
pub fn preset_control_message(preset: u8, control: u8, value: &RawControl) -> (res: Vec<u8>)
    ensures
        res@ == framed(message_payload(ObjectType::PresetControl.code(), preset, control, control_params(*value))),
{
    let params = control_param_list(value);
    command_message(ObjectType::PresetControl, preset, control, &params)
}

/// The message that writes pad `pad` of pad map `map` (the section and id
/// bytes of the message).
pub fn pad_message(map: u8, pad: u8, value: &RawPad) -> (res: Vec<u8>)
    ensures
        res@ == framed(message_payload(ObjectType::Pad.code(), map, pad, pad_params(*value))),
{
    let params = [
        (ParamId::Channel.as_u8(), value.channel),
        (ParamId::Kind.as_u8(), value.kind),
        (ParamId::Data1.as_u8(), value.data1),
        (ParamId::Min.as_u8(), value.min),
        (ParamId::Max.as_u8(), value.max),
        (ParamId::Note.as_u8(), value.note),
    ];
    assert(params@ =~= pad_params(*value));
    command_message(ObjectType::Pad, map, pad, &params)
}

/// The message that writes a global setting: a single TLV group whose param
/// id is the setting id itself, with message id `0x01`.
pub fn global_setting_message(setting: GlobalSettingId, value: u8) -> (res: Vec<u8>)
    ensures
        res@ == framed(message_payload(ObjectType::Global.code(), 0x00, 0x01, seq![(setting.code(), value)])),
{
    let params = [(setting.as_u8(), value)];
    assert(params@ =~= seq![(setting.code(), value)]);
    command_message(ObjectType::Global, 0x00, 0x01, &params)
}

/// The message that writes global control `control` (the id byte of the
/// message).
pub fn global_control_message(control: u8, value: &RawControl) -> (res: Vec<u8>)
    ensures
        res@ == framed(message_payload(ObjectType::Global.code(), 0x00, control, control_params(*value))),
{
    let params = control_param_list(value);
    command_message(ObjectType::Global, 0x00, control, &params)
}

// ---------------------------------------------------------------------------
// Reading messages
// ---------------------------------------------------------------------------

/// A message of the device: a written preset control, pad, global setting
/// or global control. Presets, pad maps and controls are named by the
/// section and id bytes of the message.
#[derive(Debug, Clone, Copy, PartialEq, Eq, Structural)]
pub enum DeviceStatus {
    PresetControl { preset: u8, control: u8, value: RawControl },
    Pad { map: u8, pad: u8, value: RawPad },
    GlobalSetting { setting: GlobalSettingId, value: u8 },
    GlobalControl { control: u8, value: RawControl },
}

/// `r` with `xs` put in front of its parameters.
pub open spec fn prepend(
    xs: Seq<(u8, u8)>,
    r: Result<Seq<(u8, u8)>, DeviceStatusParseError>,
) -> Result<Seq<(u8, u8)>, DeviceStatusParseError> {
    match r {
        Ok(ps) => Ok(xs + ps),
        Err(e) => Err(e),
    }
}

/// The parameters a TLV block holds: groups `[param, 0x01, value]`, each
/// optionally followed by a `0x00` separator.
pub open spec fn tlv_params(t: Seq<u8>) -> Result<Seq<(u8, u8)>, DeviceStatusParseError>
    decreases t.len(),
{
    if t.len() == 0 {
        Ok(seq![])
    } else if t.len() < 2 {
        Err(DeviceStatusParseError::InvalidTlv)
    } else if t[1] != 0x01 {
        Err(DeviceStatusParseError::InvalidParamLength(t[1]))
    } else if t.len() < 3 {
        Err(DeviceStatusParseError::InvalidTlv)
    } else {
        let rest = if t.len() > 3 && t[3] == 0x00 { t.skip(4) } else { t.skip(3) };
        prepend(seq![(t[0], t[2])], tlv_params(rest))
    }
}

/// The value of the first parameter `id` among `ps`, if any.
pub open spec fn first_value(ps: Seq<(u8, u8)>, id: u8) -> Option<u8>
    decreases ps.len(),
{
    if ps.len() == 0 {
        None
    } else if ps[0].0 == id {
        Some(ps[0].1)
    } else {
        first_value(ps.drop_first(), id)
    }
}

/// The control that parameters `ps` describe, or the first of channel, kind,
/// data 1, min and max that they lack.
pub open spec fn control_of_params(ps: Seq<(u8, u8)>) -> Result<RawControl, DeviceStatusParseError> {
    match (first_value(ps, 1), first_value(ps, 2), first_value(ps, 3), first_value(ps, 4), first_value(ps, 5)) {
        (None, _, _, _, _) => Err(DeviceStatusParseError::MissingParam(1)),
        (Some(_), None, _, _, _) => Err(DeviceStatusParseError::MissingParam(2)),
        (Some(_), Some(_), None, _, _) => Err(DeviceStatusParseError::MissingParam(3)),
        (Some(_), Some(_), Some(_), None, _) => Err(DeviceStatusParseError::MissingParam(4)),
        (Some(_), Some(_), Some(_), Some(_), None) => Err(DeviceStatusParseError::MissingParam(5)),
        (Some(channel), Some(kind), Some(data1), Some(min), Some(max)) => Ok(
            RawControl { channel, kind, data1, min, max },
        ),
    }
}

/// The pad that parameters `ps` describe, or the first parameter they lack.
pub open spec fn pad_of_params(ps: Seq<(u8, u8)>) -> Result<RawPad, DeviceStatusParseError> {
    match control_of_params(ps) {
        Err(e) => Err(e),
        Ok(c) => match first_value(ps, 6) {
            None => Err(DeviceStatusParseError::MissingParam(6)),
            Some(note) => Ok(
                RawPad {
                    channel: c.channel,
                    kind: c.kind,
                    data1: c.data1,
                    min: c.min,
                    max: c.max,
                    note,
                },
            ),
        },
    }
}

/// Whether a payload opens with the command header.
pub open spec fn has_command_header(p: Seq<u8>) -> bool {
    &&& p.len() >= 5
    &&& p[0] == 0x00
    &&& p[1] == 0x01
    &&& p[2] == 0x77
    &&& p[3] == 0x7F
    &&& p[4] == 0x01
}

/// What a message body (object type through the last TLV byte) reads as.
pub open spec fn body_status(body: Seq<u8>) -> Result<DeviceStatus, DeviceStatusParseError> {
    match ObjectType::of_code(body[0]) {
        None => Err(DeviceStatusParseError::InvalidObjectType(body[0])),
        Some(object) => match tlv_params(body.skip(3)) {
            Err(e) => Err(e),
            Ok(ps) => match object {
                ObjectType::PresetControl => match control_of_params(ps) {
                    Ok(value) => Ok(DeviceStatus::PresetControl { preset: body[1], control: body[2], value }),
                    Err(e) => Err(e),
                },
                ObjectType::Pad => match pad_of_params(ps) {
                    Ok(value) => Ok(DeviceStatus::Pad { map: body[1], pad: body[2], value }),
                    Err(e) => Err(e),
                },
                ObjectType::Global => if body[1] != 0x00 {
                    Err(DeviceStatusParseError::InvalidSection(body[1]))
                } else if body[2] == 0x01 {
                    if ps.len() != 1 {
                        Err(DeviceStatusParseError::InvalidTlv)
                    } else {
                        match GlobalSettingId::of_code(ps[0].0) {
                            None => Err(DeviceStatusParseError::InvalidSettingId(ps[0].0)),
                            Some(setting) => Ok(DeviceStatus::GlobalSetting { setting, value: ps[0].1 }),
                        }
                    }
                } else {
                    match control_of_params(ps) {
                        Ok(value) => Ok(DeviceStatus::GlobalControl { control: body[2], value }),
                        Err(e) => Err(e),
                    }
                },
            },
        },
    }
}

/// What a message payload reads as: the command header, at least seven more
/// bytes, a body whose checksum is the last byte, then the body itself.
pub open spec fn status_of(p: Seq<u8>) -> Result<DeviceStatus, DeviceStatusParseError> {
    if !has_command_header(p) {
        Err(DeviceStatusParseError::InvalidHeader)
    } else if p.len() < 12 {
        Err(DeviceStatusParseError::InvalidLength(p.len() as usize))
    } else if p.last() != checksum_of(p.subrange(5, p.len() - 1)) {
        Err(DeviceStatusParseError::ChecksumMismatch {
            expected: checksum_of(p.subrange(5, p.len() - 1)),
            actual: p.last(),
        })
    } else {
        body_status(p.subrange(5, p.len() - 1))
    }
}

/// What a framed message reads as.
pub open spec fn bytes_status(data: Seq<u8>) -> Result<DeviceStatus, DeviceStatusParseError> {
    match parse_frame(data) {
        Err(e) => Err(DeviceStatusParseError::InvalidSysex(e)),
        Ok(p) => status_of(p),
    }
}

fn parse_tlv(t: &[u8]) -> (res: Result<Vec<(u8, u8)>, DeviceStatusParseError>)
    ensures
        match res {
            Ok(ps) => tlv_params(t@) == Ok::<Seq<(u8, u8)>, DeviceStatusParseError>(ps@),
            Err(e) => tlv_params(t@) == Err::<Seq<(u8, u8)>, DeviceStatusParseError>(e),
        },
{
    let n = t.len();
    let mut params: Vec<(u8, u8)> = Vec::new();
    let mut pos: usize = 0;
    assert(t@.skip(0) =~= t@);
    while pos < n
        invariant
            n == t@.len(),
            pos <= n,
            tlv_params(t@) == prepend(params@, tlv_params(t@.skip(pos as int))),
        decreases n - pos,
    {
        let ghost rest = t@.skip(pos as int);
        if n - pos < 2 {
            return Err(DeviceStatusParseError::InvalidTlv);
        }
        if t[pos + 1] != 0x01 {
            return Err(DeviceStatusParseError::InvalidParamLength(t[pos + 1]));
        }
        if n - pos < 3 {
            return Err(DeviceStatusParseError::InvalidTlv);
        }
        let ghost before = params@;
        params.push((t[pos], t[pos + 2]));
        let next = if n - pos > 3 && t[pos + 3] == 0x00 { pos + 4 } else { pos + 3 };
        assert(rest[0] == t@[pos as int] && rest[1] == t@[pos + 1] && rest[2] == t@[pos + 2]);
        if n - pos > 3 {
            assert(rest[3] == t@[pos + 3]);
        }
        assert(rest.skip(next - pos) =~= t@.skip(next as int));
        assert(params@ =~= before + seq![(t@[pos as int], t@[pos + 2])]);
        assert(prepend(params@, tlv_params(t@.skip(next as int))) == prepend(
            before,
            tlv_params(rest),
        )) by {
            assert(before + (seq![(t@[pos as int], t@[pos + 2])] + Seq::<(u8, u8)>::empty()) =~= params@);
            match tlv_params(t@.skip(next as int)) {
                Ok(ps) => {
                    assert(before + (seq![(t@[pos as int], t@[pos + 2])] + ps) =~= params@ + ps);
                },
                Err(_) => {},
            }
        }
        pos = next;
    }
    assert(t@.skip(n as int) =~= Seq::<u8>::empty());
    assert(params@ + Seq::<(u8, u8)>::empty() =~= params@);
    Ok(params)
}

fn find_value(ps: &Vec<(u8, u8)>, id: u8) -> (res: Option<u8>)
    ensures
        res == first_value(ps@, id),
{
    let mut i: usize = 0;
    assert(ps@.skip(0) =~= ps@);
    while i < ps.len()
        invariant
            i <= ps@.len(),
            first_value(ps@, id) == first_value(ps@.skip(i as int), id),
        decreases ps@.len() - i,
    {
        assert(ps@.skip(i as int)[0] == ps@[i as int]);
        assert(ps@.skip(i as int).drop_first() =~= ps@.skip(i + 1));
        if ps[i].0 == id {
            return Some(ps[i].1);
        }
        i = i + 1;
    }
    None
}

fn require(ps: &Vec<(u8, u8)>, id: u8) -> (res: Result<u8, DeviceStatusParseError>)
    ensures
        match first_value(ps@, id) {
            Some(v) => res == Ok::<u8, DeviceStatusParseError>(v),
            None => res == Err::<u8, DeviceStatusParseError>(DeviceStatusParseError::MissingParam(id)),
        },
{
    match find_value(ps, id) {
        Some(v) => Ok(v),
        None => Err(DeviceStatusParseError::MissingParam(id)),
    }
}

fn control_from_params(ps: &Vec<(u8, u8)>) -> (res: Result<RawControl, DeviceStatusParseError>)
    ensures
        res == control_of_params(ps@),
{
    let channel = match require(ps, ParamId::Channel.as_u8()) {
        Ok(v) => v,
        Err(e) => {
            return Err(e);
        },
    };
    let kind = match require(ps, ParamId::Kind.as_u8()) {
        Ok(v) => v,
        Err(e) => {
            return Err(e);
        },
    };
    let data1 = match require(ps, ParamId::Data1.as_u8()) {
        Ok(v) => v,
        Err(e) => {
            return Err(e);
        },
    };
    let min = match require(ps, ParamId::Min.as_u8()) {
        Ok(v) => v,
        Err(e) => {
            return Err(e);
        },
    };
    let max = match require(ps, ParamId::Max.as_u8()) {
        Ok(v) => v,
        Err(e) => {
            return Err(e);
        },
    };
    Ok(RawControl { channel, kind, data1, min, max })
}

fn pad_from_params(ps: &Vec<(u8, u8)>) -> (res: Result<RawPad, DeviceStatusParseError>)
    ensures
        res == pad_of_params(ps@),
{
    let c = match control_from_params(ps) {
        Ok(c) => c,
        Err(e) => {
            return Err(e);
        },
    };
    let note = match require(ps, ParamId::Note.as_u8()) {
        Ok(v) => v,
        Err(e) => {
            return Err(e);
        },
    };
    Ok(RawPad { channel: c.channel, kind: c.kind, data1: c.data1, min: c.min, max: c.max, note })
}

impl DeviceStatus {
    /// Reads the payload of a message from the device.
    #[verifier::spinoff_prover]
    pub fn from_sysex(value: &Sysex) -> (res: Result<Self, DeviceStatusParseError>)
        ensures
            res == status_of(value@),
    {
        let payload = value.payload();
        let n = payload.len();
        if !(n >= 5 && payload[0] == 0x00 && payload[1] == 0x01 && payload[2] == 0x77 && payload[3] == 0x7F
            && payload[4] == 0x01) {
            return Err(DeviceStatusParseError::InvalidHeader);
        }
        if n < 12 {
            return Err(DeviceStatusParseError::InvalidLength(n));
        }
        let body = &payload[5..n - 1];
        assert(body@ == payload@.subrange(5, n - 1));
        let actual = payload[n - 1];
        let expected = checksum(body);
        if actual != expected {
            return Err(DeviceStatusParseError::ChecksumMismatch { expected, actual });
        }
        let object = match ObjectType::from_code(body[0]) {
            Some(o) => o,
            None => {
                return Err(DeviceStatusParseError::InvalidObjectType(body[0]));
            },
        };
        let section = body[1];
        let id = body[2];
        let tlv_bytes = &body[3..body.len()];
        assert(tlv_bytes@ == body@.skip(3));
        let params = match parse_tlv(tlv_bytes) {
            Ok(ps) => ps,
            Err(e) => {
                return Err(e);
            },
        };
        match object {
            ObjectType::PresetControl => match control_from_params(&params) {
                Ok(value) => Ok(DeviceStatus::PresetControl { preset: section, control: id, value }),
                Err(e) => Err(e),
            },
            ObjectType::Pad => match pad_from_params(&params) {
                Ok(value) => Ok(DeviceStatus::Pad { map: section, pad: id, value }),
                Err(e) => Err(e),
            },
            ObjectType::Global => {
                if section != 0x00 {
                    return Err(DeviceStatusParseError::InvalidSection(section));
                }
                if id == 0x01 {
                    if params.len() != 1 {
                        return Err(DeviceStatusParseError::InvalidTlv);
                    }
                    let (setting, value) = params[0];
                    return match GlobalSettingId::from_code(setting) {
                        Some(s) => Ok(DeviceStatus::GlobalSetting { setting: s, value }),
                        None => Err(DeviceStatusParseError::InvalidSettingId(setting)),
                    };
                }
                match control_from_params(&params) {
                    Ok(value) => Ok(DeviceStatus::GlobalControl { control: id, value }),
                    Err(e) => Err(e),
                }
            },
        }
    }

    /// Reads a framed message from the device.
    pub fn from_bytes(value: &[u8]) -> (res: Result<Self, DeviceStatusParseError>)
        ensures
            res == bytes_status(value@),
    {
        match Sysex::from_bytes(value) {
            Ok(s) => Self::from_sysex(&s),
            Err(e) => Err(DeviceStatusParseError::InvalidSysex(e)),
        }
    }
}

impl<'a> vstd::std_specs::convert::TryFromSpecImpl<&'a [u8]> for DeviceStatus {
    open spec fn obeys_try_from_spec() -> bool {
        true
    }

    open spec fn try_from_spec(value: &'a [u8]) -> Result<Self, DeviceStatusParseError> {
        bytes_status(value@)
    }
}

impl<'a> TryFrom<&'a [u8]> for DeviceStatus {
    type Error = DeviceStatusParseError;

    fn try_from(value: &'a [u8]) -> (res: Result<Self, DeviceStatusParseError>) {
        Self::from_bytes(value)
    }
}

impl vstd::std_specs::convert::TryFromSpecImpl<Sysex> for DeviceStatus {
    open spec fn obeys_try_from_spec() -> bool {
        true
    }

    open spec fn try_from_spec(value: Sysex) -> Result<Self, DeviceStatusParseError> {
        status_of(value@)
    }
}

impl TryFrom<Sysex> for DeviceStatus {
    type Error = DeviceStatusParseError;

    fn try_from(value: Sysex) -> (res: Result<Self, DeviceStatusParseError>) {
        Self::from_sysex(&value)
    }
}

/// The payload of the message that writes what `s` reports.
pub open spec fn status_payload(s: DeviceStatus) -> Seq<u8> {
    match s {
        DeviceStatus::PresetControl { preset, control, value } => message_payload(
            ObjectType::PresetControl.code(),
            preset,
            control,
            control_params(value),
        ),
        DeviceStatus::Pad { map, pad, value } => message_payload(ObjectType::Pad.code(), map, pad, pad_params(value)),
        DeviceStatus::GlobalSetting { setting, value } => message_payload(
            ObjectType::Global.code(),
            0x00,
            0x01,
            seq![(setting.code(), value)],
        ),
        DeviceStatus::GlobalControl { control, value } => message_payload(
            ObjectType::Global.code(),
            0x00,
            control,
            control_params(value),
        ),
    }
}

impl DeviceStatus {
    /// The message that writes what this status reports.
    pub fn message(&self) -> (res: Vec<u8>)
        ensures
            res@ == framed(status_payload(*self)),
    {
        match self {
            DeviceStatus::PresetControl { preset, control, value } => preset_control_message(*preset, *control, value),
            DeviceStatus::Pad { map, pad, value } => pad_message(*map, *pad, value),
            DeviceStatus::GlobalSetting { setting, value } => global_setting_message(*setting, *value),
            DeviceStatus::GlobalControl { control, value } => global_control_message(*control, value),
        }
    }
}

proof fn lemma_tlv_from_lead(params: Seq<(u8, u8)>)
    requires
        params.len() > 0,
    ensures
        tlv_from(params, true) == seq![0x00u8] + tlv_from(params, false),
{
    assert(tlv_from(params, true) =~= seq![0x00u8] + tlv_from(params, false));
}

/// The TLV block of any parameters reads back as those parameters.
pub proof fn lemma_tlv_round_trip(params: Seq<(u8, u8)>)
    ensures
        tlv_params(tlv(params)) == Ok::<Seq<(u8, u8)>, DeviceStatusParseError>(params),
    decreases params.len(),
{
    if params.len() > 0 {
        let rest = params.drop_first();
        lemma_tlv_round_trip(rest);
        let t = tlv(params);
        let tail = tlv_from(rest, true);
        assert(t =~= seq![params[0].0, 0x01u8, params[0].1] + tail);
        if rest.len() > 0 {
            lemma_tlv_from_lead(rest);
            assert(t.len() > 3 && t[3] == 0x00);
            assert(t.skip(4) =~= tlv(rest));
        } else {
            assert(t.skip(3) =~= tlv(rest));
        }
        assert(t[0] == params[0].0 && t[1] == 0x01 && t[2] == params[0].1);
        assert(tlv_params(t) == prepend(seq![(t[0], t[2])], tlv_params(tlv(rest))));
        assert(seq![(t[0], t[2])] + rest =~= params);
    } else {
        assert(params =~= Seq::<(u8, u8)>::empty());
    }
}

proof fn lemma_payload_reads(object: u8, section: u8, id: u8, params: Seq<(u8, u8)>)
    requires
        params.len() > 0,
    ensures
        bytes_status(framed(message_payload(object, section, id, params))) == body_status(
            message_body(object, section, id, params),
        ),
        message_body(object, section, id, params)[0] == object,
        message_body(object, section, id, params)[1] == section,
        message_body(object, section, id, params)[2] == id,
        tlv_params(message_body(object, section, id, params).skip(3)) == Ok::<
            Seq<(u8, u8)>,
            DeviceStatusParseError,
        >(params),
{
    let p = message_payload(object, section, id, params);
    let body = message_body(object, section, id, params);
    lemma_parse_framed(p);
    lemma_tlv_round_trip(params);
    assert(tlv(params) =~= seq![params[0].0, 0x01u8, params[0].1] + tlv_from(params.drop_first(), true));
    assert(p.subrange(5, p.len() - 1) =~= body);
    assert(body.skip(3) =~= tlv(params));
}

proof fn lemma_control_params_read(value: RawControl)
    ensures
        control_of_params(control_params(value)) == Ok::<RawControl, DeviceStatusParseError>(value),
{
    reveal_with_fuel(first_value, 6);
}

proof fn lemma_pad_params_read(value: RawPad)
    ensures
        pad_of_params(pad_params(value)) == Ok::<RawPad, DeviceStatusParseError>(value),
{
    reveal_with_fuel(first_value, 7);
}

/// The message that writes a status reads back as that status, for every
/// status but a global control with id `0x01`, the id of the global setting
/// messages.
pub proof fn lemma_status_message_reads_back(s: DeviceStatus)
    requires
        s matches DeviceStatus::GlobalControl { control, .. } ==> control != 0x01,
    ensures
        bytes_status(framed(status_payload(s))) == Ok::<DeviceStatus, DeviceStatusParseError>(s),
{
    match s {
        DeviceStatus::PresetControl { preset, control, value } => {
            lemma_payload_reads(ObjectType::PresetControl.code(), preset, control, control_params(value));
            lemma_control_params_read(value);
        },
        DeviceStatus::Pad { map, pad, value } => {
            lemma_payload_reads(ObjectType::Pad.code(), map, pad, pad_params(value));
            lemma_pad_params_read(value);
        },
        DeviceStatus::GlobalSetting { setting, value } => {
            lemma_payload_reads(ObjectType::Global.code(), 0x00, 0x01, seq![(setting.code(), value)]);
            GlobalSettingId::lemma_code(setting.code(), setting);
        },
        DeviceStatus::GlobalControl { control, value } => {
            lemma_payload_reads(ObjectType::Global.code(), 0x00, control, control_params(value));
            lemma_control_params_read(value);
        },
    }
}

/// Reading a message that writes a status, then writing the status read,
/// gives the same message, for every status but a global control with id
/// `0x01`.
pub proof fn lemma_message_reencodes(s0: DeviceStatus, s: DeviceStatus)
    requires
        s0 matches DeviceStatus::GlobalControl { control, .. } ==> control != 0x01,
        bytes_status(framed(status_payload(s0))) == Ok::<DeviceStatus, DeviceStatusParseError>(s),
    ensures
        s == s0,
        framed(status_payload(s)) == framed(status_payload(s0)),
{
    lemma_status_message_reads_back(s0);
}

// ---------------------------------------------------------------------------
// Collecting a memory dump
// ---------------------------------------------------------------------------

/// The key under which a control or pad is kept: its section byte, then its
/// id byte.
pub open spec fn object_key(section: u8, id: u8) -> u16 {
    (section * 256 + id) as u16
}

fn object_key_of(section: u8, id: u8) -> (res: u16)
    ensures
        res == object_key(section, id),
{
    (section as u16) * 256 + (id as u16)
}

/// Dump messages taken in, in any order: the last value of every preset
/// control, pad, global setting and global control.
#[derive(Debug)]
pub struct DumpAssembler {
    preset_controls: HashMap<u16, RawControl>,
    pads: HashMap<u16, RawPad>,
    settings: HashMap<u8, u8>,
    global_controls: HashMap<u8, RawControl>,
}

/// What a dump assembler holds: preset controls and pads by section and id,
/// global settings by setting id, global controls by id.
#[verifier::ext_equal]
pub struct DumpContents {
    pub preset_controls: Map<u16, RawControl>,
    pub pads: Map<u16, RawPad>,
    pub settings: Map<u8, u8>,
    pub global_controls: Map<u8, RawControl>,
}

impl View for DumpAssembler {
    type V = DumpContents;

    closed spec fn view(&self) -> DumpContents {
        DumpContents {
            preset_controls: self.preset_controls@,
            pads: self.pads@,
            settings: self.settings@,
            global_controls: self.global_controls@,
        }
    }
}

/// The number of values an assembler holds.
pub open spec fn dump_len(d: DumpContents) -> nat {
    d.preset_controls.len() + d.pads.len() + d.settings.len() + d.global_controls.len()
}

/// Whether an assembler holds as many values of each kind as a full dump.
pub open spec fn dump_complete(d: DumpContents) -> bool {
    &&& d.preset_controls.len() == TOTAL_PRESETS * TOTAL_PRESET_CONTROLS
    &&& d.pads.len() == TOTAL_PAD_MAPS * TOTAL_PADS
    &&& d.settings.len() == TOTAL_SETTINGS
    &&& d.global_controls.len() == TOTAL_GLOBAL_CONTROLS
}

/// What an assembler holds after taking in `s`: its value replaces any
/// earlier one for the same object.
pub open spec fn dump_applied(d: DumpContents, s: DeviceStatus) -> DumpContents {
    match s {
        DeviceStatus::PresetControl { preset, control, value } => DumpContents {
            preset_controls: d.preset_controls.insert(object_key(preset, control), value),
            ..d
        },
        DeviceStatus::Pad { map, pad, value } => DumpContents { pads: d.pads.insert(object_key(map, pad), value), ..d },
        DeviceStatus::GlobalSetting { setting, value } => DumpContents {
            settings: d.settings.insert(setting.code(), value),
            ..d
        },
        DeviceStatus::GlobalControl { control, value } => DumpContents {
            global_controls: d.global_controls.insert(control, value),
            ..d
        },
    }
}

/// The object a status writes: its kind (0 preset control, 1 pad, 2 global
/// setting, 3 global control) and its key.
pub open spec fn written_object(s: DeviceStatus) -> (int, int) {
    match s {
        DeviceStatus::PresetControl { preset, control, .. } => (0, object_key(preset, control) as int),
        DeviceStatus::Pad { map, pad, .. } => (1, object_key(map, pad) as int),
        DeviceStatus::GlobalSetting { setting, .. } => (2, setting.code() as int),
        DeviceStatus::GlobalControl { control, .. } => (3, control as int),
    }
}

/// Dump messages about different objects can be taken in in either order:
/// the assembler ends up holding the same values.
pub proof fn lemma_apply_commutes(d: DumpContents, s1: DeviceStatus, s2: DeviceStatus)
    requires
        written_object(s1) != written_object(s2),
    ensures
        dump_applied(dump_applied(d, s1), s2) == dump_applied(dump_applied(d, s2), s1),
{
    assert(dump_applied(dump_applied(d, s1), s2) =~= dump_applied(dump_applied(d, s2), s1));
}

/// A later message about the same object replaces the earlier one.
pub proof fn lemma_apply_last_wins(d: DumpContents, s1: DeviceStatus, s2: DeviceStatus)
    requires
        written_object(s1) == written_object(s2),
    ensures
        dump_applied(dump_applied(d, s1), s2) == dump_applied(d, s2),
{
    assert(dump_applied(dump_applied(d, s1), s2) =~= dump_applied(d, s2));
}

impl Default for DumpAssembler {
    fn default() -> (res: Self)
        ensures
            res@.preset_controls == Map::<u16, RawControl>::empty(),
            res@.pads == Map::<u16, RawPad>::empty(),
            res@.settings == Map::<u8, u8>::empty(),
            res@.global_controls == Map::<u8, RawControl>::empty(),
    {
        DumpAssembler {
            preset_controls: HashMap::new(),
            pads: HashMap::new(),
            settings: HashMap::new(),
            global_controls: HashMap::new(),
        }
    }
}

impl DumpAssembler {
    /// Takes in a dump message: its value replaces any earlier one for the
    /// same object.
    pub fn apply(&mut self, status: &DeviceStatus)
        ensures
            final(self)@ == dump_applied(old(self)@, *status),
    {
        broadcast use vstd::std_specs::hash::group_hash_axioms;
        match status {
            DeviceStatus::PresetControl { preset, control, value } => {
                self.preset_controls.insert(object_key_of(*preset, *control), *value);
            },
            DeviceStatus::Pad { map, pad, value } => {
                self.pads.insert(object_key_of(*map, *pad), *value);
            },
            DeviceStatus::GlobalSetting { setting, value } => {
                self.settings.insert(setting.as_u8(), *value);
            },
            DeviceStatus::GlobalControl { control, value } => {
                self.global_controls.insert(*control, *value);
            },
        }
    }

    /// The number of values held.
    pub fn len(&self) -> (res: usize)
        requires
            dump_len(self@) <= usize::MAX,
        ensures
            res == dump_len(self@),
    {
        broadcast use vstd::std_specs::hash::group_hash_axioms;
        self.preset_controls.len() + self.pads.len() + self.settings.len() + self.global_controls.len()
    }

    /// Whether no value is held.
    pub fn is_empty(&self) -> (res: bool)
        requires
            dump_len(self@) <= usize::MAX,
        ensures
            res == (dump_len(self@) == 0),
    {
        self.len() == 0
    }

    /// The value held for the preset control with section `preset` and id
    /// `control`, if any.
    pub fn preset_control(&self, preset: u8, control: u8) -> (res: Option<RawControl>)
        ensures
            res == (if self@.preset_controls.contains_key(object_key(preset, control)) {
                Some(self@.preset_controls[object_key(preset, control)])
            } else {
                None
            }),
    {
        broadcast use vstd::std_specs::hash::group_hash_axioms;
        match self.preset_controls.get(&object_key_of(preset, control)) {
            Some(v) => Some(*v),
            None => None,
        }
    }

    /// The value held for the pad with section `map` and id `pad`, if any.
    pub fn pad(&self, map: u8, pad: u8) -> (res: Option<RawPad>)
        ensures
            res == (if self@.pads.contains_key(object_key(map, pad)) {
                Some(self@.pads[object_key(map, pad)])
            } else {
                None
            }),
    {
        broadcast use vstd::std_specs::hash::group_hash_axioms;
        match self.pads.get(&object_key_of(map, pad)) {
            Some(v) => Some(*v),
            None => None,
        }
    }

    /// The value held for the global setting with id byte `setting`, if any.
    pub fn setting(&self, setting: u8) -> (res: Option<u8>)
        ensures
            res == (if self@.settings.contains_key(setting) {
                Some(self@.settings[setting])
            } else {
                None
            }),
    {
        broadcast use vstd::std_specs::hash::group_hash_axioms;
        match self.settings.get(&setting) {
            Some(v) => Some(*v),
            None => None,
        }
    }

    /// The value held for the global control with id `control`, if any.
    pub fn global_control(&self, control: u8) -> (res: Option<RawControl>)
        ensures
            res == (if self@.global_controls.contains_key(control) {
                Some(self@.global_controls[control])
            } else {
                None
            }),
    {
        broadcast use vstd::std_specs::hash::group_hash_axioms;
        match self.global_controls.get(&control) {
            Some(v) => Some(*v),
            None => None,
        }
    }

    /// Whether as many values of each kind are held as a full dump has.
    pub fn is_complete(&self) -> (res: bool)
        ensures
            res == dump_complete(self@),
    {
        broadcast use vstd::std_specs::hash::group_hash_axioms;
        self.preset_controls.len() == TOTAL_PRESETS * TOTAL_PRESET_CONTROLS && self.pads.len()
            == TOTAL_PAD_MAPS * TOTAL_PADS && self.settings.len() == TOTAL_SETTINGS
            && self.global_controls.len() == TOTAL_GLOBAL_CONTROLS
    }
}


/// The bytes of the [`ObjectType`] variants, as the device defines them; no
/// other byte stands for a variant.
pub proof fn lemma_object_type_code_table(v: ObjectType, b: u8)
    ensures
        v.code() == (match v {
            ObjectType::PresetControl => 0x1u8,
            ObjectType::Pad => 0x2u8,
            ObjectType::Global => 0x5u8,
        }),
        (ObjectType::of_code(b) is Some) == (b == 0x1 || b == 0x2 || b == 0x5),
{
}

/// The byte of a [`ParamId`] is 1 plus its place in declaration order, and
/// exactly the bytes from 1 to 6 stand for a variant.
pub proof fn lemma_param_id_code_is_place(v: ParamId, b: u8)
    ensures
        v.code() == v as u8 + 1,
        (ParamId::of_code(b) is Some) == (1 <= b < 7),
        ParamId::of_code(b) matches Some(w) ==> w as u8 + 1 == b,
{
}

/// The bytes of the [`GlobalSettingId`] variants, as the device defines them; no
/// other byte stands for a variant.
pub proof fn lemma_global_setting_id_code_table(v: GlobalSettingId, b: u8)
    ensures
        v.code() == (match v {
            GlobalSettingId::MidiChannel => 0x1u8,
            GlobalSettingId::Unknown04 => 0x4u8,
            GlobalSettingId::Unknown05 => 0x5u8,
            GlobalSettingId::Unknown06 => 0x6u8,
            GlobalSettingId::Unknown07 => 0x7u8,
            GlobalSettingId::Unknown08 => 0x8u8,
            GlobalSettingId::Unknown09 => 0x9u8,
            GlobalSettingId::Unknown10 => 0x10u8,
            GlobalSettingId::Unknown11 => 0x11u8,
            GlobalSettingId::Unknown12 => 0x12u8,
            GlobalSettingId::Unknown0F => 0xfu8,
        }),
        (GlobalSettingId::of_code(b) is Some) == (b == 0x1 || b == 0x4 || b == 0x5 || b == 0x6 || b == 0x7 || b == 0x8 || b == 0x9 || b == 0x10 || b == 0x11 || b == 0x12 || b == 0xf),
{
}


/// The checksum completes the body's byte sum: the sum of the body and the
/// checksum is 127 modulo 128, and the checksum is a 7-bit value.
pub proof fn lemma_checksum_completes_sum(body: Seq<u8>)
    ensures
        (byte_sum(body) + checksum_of(body)) % 128 == 127,
        checksum_of(body) < 128,
{
    let s = byte_sum(body) as int;
    assert((s + (255 - s % 256) % 128) % 128 == 127) by (nonlinear_arith)
        requires
            s >= 0,
    ;
}

} // verus!
