//! The Korg R3 synthesizer and vocoder: the system-exclusive requests it
//! answers, the dumps it sends and reads, and their parsing.

use vstd::prelude::*;

pub mod live;
pub mod raw;
pub mod round_trip;
pub mod wrappers;

use crate::error::SysexParseError;
use crate::manufacturer::korg::SYSEX_MANUFACTURER_ID;
use crate::manufacturer::korg::r3::raw::RawFormantStep;
use crate::manufacturer::korg::r3::raw::RawGlobal;
use crate::manufacturer::korg::r3::raw::RawParameterChange;
use crate::manufacturer::korg::r3::raw::RawProgram;
use crate::sysex::Sysex;
use crate::sysex::extend_bytes;
use crate::sysex::framed;
use crate::sysex::lemma_parse_framed;
use crate::sysex::lemma_unpack_pack_u7;
use crate::sysex::pack_u14;
use crate::sysex::pack_u7;
use crate::sysex::packed_u14;
use crate::sysex::packed_u7;
use crate::sysex::parse_frame;
use crate::sysex::unpack_u14;
use crate::sysex::unpack_u7;
use crate::sysex::unpacked_u14;
use crate::sysex::unpacked_u7;

verus! {

pub const DEVICE_ID: u8 = 0x7D;

pub const PORT_MIDI_IN: &'static str = "R3 MIDI IN";

pub const PORT_MIDI_OUT: &'static str = "R3 MIDI OUT";

pub const PORT_SOUND: &'static str = "R3 SOUND";

pub const PORT_KBD_KNOB: &'static str = "R3 KBD/KNOB";

/// The high nibble of the second header byte; the low nibble is the channel.
pub const CHANNEL_PREFIX: u8 = 0x30;

/// Requests that the R3 answers.
#[derive(Debug, PartialEq, Eq, Clone, Copy, Structural)]
pub enum DeviceCommandId {
    CurrentProgramDumpRequest,
    ProgramWriteRequest,
    CurrentFormantMotionDumpRequest,
    FormantMotionWriteRequest,
    GlobalDumpRequest,
    FormantMotionDumpRequest,
    ProgramDumpRequest,
}

/// The function byte of a request.
pub open spec fn command_code(c: DeviceCommandId) -> u8 {
    match c {
        DeviceCommandId::CurrentProgramDumpRequest => 0x10,
        DeviceCommandId::ProgramWriteRequest => 0x11,
        DeviceCommandId::CurrentFormantMotionDumpRequest => 0x13,
        DeviceCommandId::FormantMotionWriteRequest => 0x03,
        DeviceCommandId::GlobalDumpRequest => 0x0E,
        DeviceCommandId::FormantMotionDumpRequest => 0x18,
        DeviceCommandId::ProgramDumpRequest => 0x1C,
    }
}

impl From<DeviceCommandId> for u8 {
    fn from(c: DeviceCommandId) -> (res: u8) {
        match c {
            DeviceCommandId::CurrentProgramDumpRequest => 0x10,
            DeviceCommandId::ProgramWriteRequest => 0x11,
            DeviceCommandId::CurrentFormantMotionDumpRequest => 0x13,
            DeviceCommandId::FormantMotionWriteRequest => 0x03,
            DeviceCommandId::GlobalDumpRequest => 0x0E,
            DeviceCommandId::FormantMotionDumpRequest => 0x18,
            DeviceCommandId::ProgramDumpRequest => 0x1C,
        }
    }
}

impl vstd::std_specs::convert::FromSpecImpl<DeviceCommandId> for u8 {
    open spec fn obeys_from_spec() -> bool {
        true
    }

    open spec fn from_spec(c: DeviceCommandId) -> u8 {
        command_code(c)
    }
}

/// Messages that the R3 sends.
#[derive(Debug, PartialEq, Eq, Clone, Copy, Structural)]
pub enum DeviceStatusId {
    WriteCompleted,
    WriteError,
    DataLoadCompleted,
    DataLoadError,
    DataFormatError,
    CurrentProgramDump,
    ParameterChange,
    CurrentFormantMotionDump,
    FormantMotionDump,
    ProgramDump,
    GlobalDump,
}

/// The function byte of a device message.
pub open spec fn status_code(s: DeviceStatusId) -> u8 {
    match s {
        DeviceStatusId::WriteCompleted => 0x21,
        DeviceStatusId::WriteError => 0x22,
        DeviceStatusId::DataLoadCompleted => 0x23,
        DeviceStatusId::DataLoadError => 0x24,
        DeviceStatusId::DataFormatError => 0x26,
        DeviceStatusId::CurrentProgramDump => 0x40,
        DeviceStatusId::ParameterChange => 0x41,
        DeviceStatusId::CurrentFormantMotionDump => 0x43,
        DeviceStatusId::FormantMotionDump => 0x48,
        DeviceStatusId::ProgramDump => 0x4C,
        DeviceStatusId::GlobalDump => 0x51,
    }
}

/// The device message with function byte `b`, if there is one.
pub open spec fn status_of(b: u8) -> Option<DeviceStatusId> {
    if b == 0x21 {
        Some(DeviceStatusId::WriteCompleted)
    } else if b == 0x22 {
        Some(DeviceStatusId::WriteError)
    } else if b == 0x23 {
        Some(DeviceStatusId::DataLoadCompleted)
    } else if b == 0x24 {
        Some(DeviceStatusId::DataLoadError)
    } else if b == 0x26 {
        Some(DeviceStatusId::DataFormatError)
    } else if b == 0x40 {
        Some(DeviceStatusId::CurrentProgramDump)
    } else if b == 0x41 {
        Some(DeviceStatusId::ParameterChange)
    } else if b == 0x43 {
        Some(DeviceStatusId::CurrentFormantMotionDump)
    } else if b == 0x48 {
        Some(DeviceStatusId::FormantMotionDump)
    } else if b == 0x4C {
        Some(DeviceStatusId::ProgramDump)
    } else if b == 0x51 {
        Some(DeviceStatusId::GlobalDump)
    } else {
        None
    }
}

impl From<DeviceStatusId> for u8 {
    fn from(s: DeviceStatusId) -> (res: u8) {
        match s {
            DeviceStatusId::WriteCompleted => 0x21,
            DeviceStatusId::WriteError => 0x22,
            DeviceStatusId::DataLoadCompleted => 0x23,
            DeviceStatusId::DataLoadError => 0x24,
            DeviceStatusId::DataFormatError => 0x26,
            DeviceStatusId::CurrentProgramDump => 0x40,
            DeviceStatusId::ParameterChange => 0x41,
            DeviceStatusId::CurrentFormantMotionDump => 0x43,
            DeviceStatusId::FormantMotionDump => 0x48,
            DeviceStatusId::ProgramDump => 0x4C,
            DeviceStatusId::GlobalDump => 0x51,
        }
    }
}

impl vstd::std_specs::convert::FromSpecImpl<DeviceStatusId> for u8 {
    open spec fn obeys_from_spec() -> bool {
        true
    }

    open spec fn from_spec(s: DeviceStatusId) -> u8 {
        status_code(s)
    }
}

impl DeviceStatusId {
    /// The device message with function byte `b`, if there is one.
    pub fn from_code(b: u8) -> (res: Option<Self>)
        ensures
            res == status_of(b),
    {
        if b == 0x21 {
            Some(DeviceStatusId::WriteCompleted)
        } else if b == 0x22 {
            Some(DeviceStatusId::WriteError)
        } else if b == 0x23 {
            Some(DeviceStatusId::DataLoadCompleted)
        } else if b == 0x24 {
            Some(DeviceStatusId::DataLoadError)
        } else if b == 0x26 {
            Some(DeviceStatusId::DataFormatError)
        } else if b == 0x40 {
            Some(DeviceStatusId::CurrentProgramDump)
        } else if b == 0x41 {
            Some(DeviceStatusId::ParameterChange)
        } else if b == 0x43 {
            Some(DeviceStatusId::CurrentFormantMotionDump)
        } else if b == 0x48 {
            Some(DeviceStatusId::FormantMotionDump)
        } else if b == 0x4C {
            Some(DeviceStatusId::ProgramDump)
        } else if b == 0x51 {
            Some(DeviceStatusId::GlobalDump)
        } else {
            None
        }
    }
}

/// A message read from the R3.
#[derive(Debug)]
pub enum KorgR3Message {
    CurrentProgramDump(Box<RawProgram>),
    ProgramDump { program_no: u16, program: Box<RawProgram> },
    CurrentFormantMotionDump { size: u16, steps: Vec<RawFormantStep> },
    FormantMotionDump { motion_no: u8, size: u16, steps: Vec<RawFormantStep> },
    GlobalDump(Box<RawGlobal>),
    ParameterChange(RawParameterChange),
    DataLoadCompleted,
    DataLoadError,
    WriteCompleted,
    WriteError,
    DataFormatError,
}

/// Why a message from the R3 could not be read.
#[derive(Debug, Clone, Copy, PartialEq, Eq)]
pub enum ParseError {
    Sysex(SysexParseError),
    TooShort(usize),
    InvalidManufacturer(u8),
    InvalidDevice(u8),
    UnknownFunction(u8),
    InvalidPayloadSize { context: &'static str, expected: usize, actual: usize },
}

impl From<SysexParseError> for ParseError {
    fn from(e: SysexParseError) -> (res: Self) {
        ParseError::Sysex(e)
    }
}

impl vstd::std_specs::convert::FromSpecImpl<SysexParseError> for ParseError {
    open spec fn obeys_from_spec() -> bool {
        true
    }

    open spec fn from_spec(e: SysexParseError) -> Self {
        ParseError::Sysex(e)
    }
}

/// The four header bytes of every R3 message: manufacturer, channel,
/// device and function.
pub open spec fn header(channel: u8, func_id: u8) -> Seq<u8> {
    seq![SYSEX_MANUFACTURER_ID, CHANNEL_PREFIX | (channel & 0x0F), DEVICE_ID, func_id]
}

/// The low 14 bits of `v` as two 7-bit bytes, low part first.
pub open spec fn low_first(v: u16) -> Seq<u8> {
    seq![packed_u14(v)[1], packed_u14(v)[0]]
}

/// The header of an R3 message.
pub fn sysex_header(channel: u8, func_id: u8) -> (res: Vec<u8>)
    ensures
        res@ == header(channel, func_id),
{
    let res = vec![SYSEX_MANUFACTURER_ID, CHANNEL_PREFIX | (channel & 0x0F), DEVICE_ID, func_id];
    assert(res@ =~= header(channel, func_id));
    res
}

fn push_low_first(payload: &mut Vec<u8>, v: u16)
    ensures
        final(payload)@ == old(payload)@ + low_first(v),
{
    let packed = pack_u14(v);
    payload.push(packed[1]);
    payload.push(packed[0]);
    assert(final(payload)@ =~= old(payload)@ + low_first(v));
}

/// A request without arguments.
fn plain_request(channel: u8, command: DeviceCommandId) -> (res: Vec<u8>)
    ensures
        res@ == framed(header(channel, command_code(command))),
{
    let payload = sysex_header(channel, command.into());
    Sysex::new(payload).as_bytes()
}

/// A request with one 14-bit number, low part first.
fn numbered_request(channel: u8, command: DeviceCommandId, n: u16) -> (res: Vec<u8>)
    ensures
        res@ == framed(header(channel, command_code(command)) + low_first(n)),
{
    let mut payload = sysex_header(channel, command.into());
    push_low_first(&mut payload, n);
    Sysex::new(payload).as_bytes()
}

/// Asks for the program being edited.
pub fn current_program_dump_request(channel: u8) -> (res: Vec<u8>)
    ensures
        res@ == framed(header(channel, 0x10)),
{
    plain_request(channel, DeviceCommandId::CurrentProgramDumpRequest)
}

/// Asks for the program stored in slot `program_no`.
pub fn program_dump_request(channel: u8, program_no: u16) -> (res: Vec<u8>)
    ensures
        res@ == framed(header(channel, 0x1C) + low_first(program_no)),
{
    numbered_request(channel, DeviceCommandId::ProgramDumpRequest, program_no)
}

/// Asks for the formant motion being edited.
pub fn current_formant_motion_dump_request(channel: u8) -> (res: Vec<u8>)
    ensures
        res@ == framed(header(channel, 0x13)),
{
    plain_request(channel, DeviceCommandId::CurrentFormantMotionDumpRequest)
}

/// Asks for the formant motion stored in slot `motion_no`.
pub fn formant_motion_dump_request(channel: u8, motion_no: u8) -> (res: Vec<u8>)
    ensures
        res@ == framed(header(channel, 0x18) + low_first(motion_no as u16)),
{
    numbered_request(channel, DeviceCommandId::FormantMotionDumpRequest, motion_no as u16)
}

/// Asks for the global settings.
pub fn global_dump_request(channel: u8) -> (res: Vec<u8>)
    ensures
        res@ == framed(header(channel, 0x0E)),
{
    plain_request(channel, DeviceCommandId::GlobalDumpRequest)
}

/// Asks the R3 to store the program being edited in slot `dest_program_no`.
pub fn program_write_request(channel: u8, dest_program_no: u16) -> (res: Vec<u8>)
    ensures
        res@ == framed(header(channel, 0x11) + low_first(dest_program_no)),
{
    numbered_request(channel, DeviceCommandId::ProgramWriteRequest, dest_program_no)
}

/// Asks the R3 to store the formant motion being edited in slot
/// `dest_motion_no`.
pub fn formant_motion_write_request(channel: u8, dest_motion_no: u8) -> (res: Vec<u8>)
    ensures
        res@ == framed(header(channel, 0x03) + low_first(dest_motion_no as u16)),
{
    numbered_request(channel, DeviceCommandId::FormantMotionWriteRequest, dest_motion_no as u16)
}

/// The bytes of formant steps, one after another.
pub open spec fn steps_bytes(steps: Seq<RawFormantStep>) -> Seq<u8>
    decreases steps.len(),
{
    if steps.len() == 0 {
        Seq::empty()
    } else {
        steps_bytes(steps.drop_last()) + steps.last().bytes()
    }
}

/// The bytes of formant steps have sixteen bytes per step, step `i` at
/// `16 * i`.
pub proof fn lemma_steps_bytes(steps: Seq<RawFormantStep>)
    ensures
        steps_bytes(steps).len() == 16 * steps.len(),
        forall|i: int|
            0 <= i < steps.len() ==> steps_bytes(steps).subrange(16 * i, 16 * i + 16)
                == #[trigger] steps[i].bytes(),
    decreases steps.len(),
{
    if steps.len() > 0 {
        let init = steps.drop_last();
        lemma_steps_bytes(init);
        let b = steps_bytes(steps);
        assert forall|i: int| 0 <= i < steps.len() implies b.subrange(16 * i, 16 * i + 16)
            == #[trigger] steps[i].bytes() by {
            if i < init.len() {
                assert(init[i] == steps[i]);
                assert(b.subrange(16 * i, 16 * i + 16) =~= steps_bytes(init).subrange(
                    16 * i,
                    16 * i + 16,
                ));
            } else {
                assert(b.subrange(16 * i, 16 * i + 16) =~= steps.last().bytes());
            }
        }
    }
}

fn push_steps(out: &mut Vec<u8>, steps: &[RawFormantStep])
    ensures
        final(out)@ == old(out)@ + steps_bytes(steps@),
{
    let mut i: usize = 0;
    while i < steps.len()
        invariant
            i <= steps@.len(),
            out@ == old(out)@ + steps_bytes(steps@.take(i as int)),
        decreases steps@.len() - i,
    {
        let b = steps[i].as_bytes();
        extend_bytes(out, b.as_slice());
        assert(steps@.take(i + 1).drop_last() =~= steps@.take(i as int));
        assert(out@ =~= old(out)@ + steps_bytes(steps@.take(i + 1)));
        i = i + 1;
    }
    assert(steps@.take(steps@.len() as int) =~= steps@);
}

/// The message that carries the program being edited.
pub open spec fn current_program_dump_bytes(channel: u8, program: RawProgram) -> Seq<u8> {
    framed(header(channel, 0x40) + packed_u7(program.bytes()))
}

/// The message that carries the program of slot `program_no`.
pub open spec fn program_dump_bytes(channel: u8, program_no: u16, program: RawProgram) -> Seq<u8> {
    framed(header(channel, 0x4C) + low_first(program_no) + packed_u7(program.bytes()))
}

/// The message that carries the global settings.
pub open spec fn global_dump_bytes(channel: u8, global: RawGlobal) -> Seq<u8> {
    framed(header(channel, 0x51) + packed_u7(global.bytes()))
}

/// The message that carries a formant motion: a motion number byte, the
/// step count as a 14-bit number low part first, a zero byte and the packed
/// steps.
pub open spec fn formant_dump_bytes(
    channel: u8,
    func_id: u8,
    motion_no: u8,
    steps: Seq<RawFormantStep>,
) -> Seq<u8> {
    framed(
        header(channel, func_id) + seq![motion_no] + low_first(steps.len() as u16) + seq![0u8]
            + packed_u7(steps_bytes(steps)),
    )
}

/// The message that changes one parameter.
pub open spec fn parameter_change_bytes(channel: u8, param_id: u16, sub_id: u16, value: u16) -> Seq<
    u8,
> {
    framed(header(channel, 0x41) + low_first(param_id) + low_first(sub_id) + low_first(value))
}

/// Sends the program being edited.
pub fn current_program_dump_message(channel: u8, program: &RawProgram) -> (res: Vec<u8>)
    ensures
        res@ == current_program_dump_bytes(channel, *program),
{
    let mut payload = sysex_header(channel, DeviceStatusId::CurrentProgramDump.into());
    let bytes = program.as_bytes();
    let packed = pack_u7(bytes.as_slice());
    extend_bytes(&mut payload, packed.as_slice());
    Sysex::new(payload).as_bytes()
}

/// Sends the program of slot `program_no`.
pub fn program_dump_message(channel: u8, program_no: u16, program: &RawProgram) -> (res: Vec<u8>)
    ensures
        res@ == program_dump_bytes(channel, program_no, *program),
{
    let mut payload = sysex_header(channel, DeviceStatusId::ProgramDump.into());
    push_low_first(&mut payload, program_no);
    let bytes = program.as_bytes();
    let packed = pack_u7(bytes.as_slice());
    extend_bytes(&mut payload, packed.as_slice());
    Sysex::new(payload).as_bytes()
}

/// Sends the global settings.
pub fn global_dump_message(channel: u8, global: &RawGlobal) -> (res: Vec<u8>)
    ensures
        res@ == global_dump_bytes(channel, *global),
{
    let mut payload = sysex_header(channel, DeviceStatusId::GlobalDump.into());
    let bytes = global.as_bytes();
    let packed = pack_u7(bytes.as_slice());
    extend_bytes(&mut payload, packed.as_slice());
    Sysex::new(payload).as_bytes()
}

fn formant_dump(channel: u8, func_id: u8, motion_no: u8, steps: &[RawFormantStep]) -> (res: Vec<u8>)
    ensures
        res@ == formant_dump_bytes(channel, func_id, motion_no, steps@),
{
    let mut payload = sysex_header(channel, func_id);
    let size = steps.len() as u16;
    let packed_size = pack_u14(size);
    payload.push(motion_no);
    payload.push(packed_size[1]);
    payload.push(packed_size[0]);
    payload.push(0x00);
    let mut flat: Vec<u8> = Vec::new();
    push_steps(&mut flat, steps);
    assert(flat@ =~= steps_bytes(steps@));
    let packed = pack_u7(flat.as_slice());
    extend_bytes(&mut payload, packed.as_slice());
    assert(payload@ =~= header(channel, func_id) + seq![motion_no] + low_first(steps@.len() as u16)
        + seq![0u8] + packed_u7(steps_bytes(steps@)));
    Sysex::new(payload).as_bytes()
}

/// Sends the formant motion being edited; its motion byte is zero.
pub fn current_formant_motion_dump_message(channel: u8, steps: &[RawFormantStep]) -> (res: Vec<u8>)
    ensures
        res@ == formant_dump_bytes(channel, 0x43, 0, steps@),
{
    formant_dump(channel, DeviceStatusId::CurrentFormantMotionDump.into(), 0x00, steps)
}

/// Sends the formant motion of slot `motion_no`.
pub fn formant_motion_dump_message(channel: u8, motion_no: u8, steps: &[RawFormantStep]) -> (res:
    Vec<u8>)
    ensures
        res@ == formant_dump_bytes(channel, 0x48, motion_no, steps@),
{
    formant_dump(channel, DeviceStatusId::FormantMotionDump.into(), motion_no, steps)
}

/// Changes one parameter; each number is sent as 14 bits, low part first.
pub fn parameter_change_message(channel: u8, param_id: u16, sub_id: u16, value: u16) -> (res: Vec<
    u8,
>)
    ensures
        res@ == parameter_change_bytes(channel, param_id, sub_id, value),
{
    let mut payload = sysex_header(channel, DeviceStatusId::ParameterChange.into());
    push_low_first(&mut payload, param_id);
    push_low_first(&mut payload, sub_id);
    push_low_first(&mut payload, value);
    Sysex::new(payload).as_bytes()
}

/// The part of a formant payload after its motion byte, if there is one.
pub open spec fn after_motion_byte(body: Seq<u8>) -> Seq<u8> {
    if body.len() >= 1 {
        body.skip(1)
    } else {
        Seq::empty()
    }
}

/// Whether `size` and `steps` are what a formant payload `rest` holds: the
/// step count as a 14-bit number low part first, one more byte, then the
/// packed steps, sixteen bytes each; a trailing partial step is dropped. A
/// payload of fewer than three bytes holds nothing.
pub open spec fn formant_payload(rest: Seq<u8>, size: u16, steps: Seq<RawFormantStep>) -> bool {
    if rest.len() < 3 {
        size == 0 && steps.len() == 0
    } else {
        let unpacked = unpacked_u7(rest.skip(3));
        &&& size == unpacked_u14(rest[1], rest[0])
        &&& steps.len() == unpacked.len() / 16
        &&& forall|i: int|
            0 <= i < steps.len() ==> #[trigger] steps[i].bytes() == unpacked.subrange(
                16 * i,
                16 * i + 16,
            )
    }
}

/// The program size in bytes.
pub open spec fn program_size() -> nat {
    456
}

/// The global settings size in bytes.
pub open spec fn global_size() -> nat {
    80
}

/// Why the body of a device message with function `status` cannot be read,
/// if it cannot.
pub open spec fn body_failure(status: DeviceStatusId, body: Seq<u8>) -> Option<ParseError> {
    match status {
        DeviceStatusId::CurrentProgramDump => if unpacked_u7(body).len() < 456 {
            Some(
                ParseError::InvalidPayloadSize {
                    context: "current program dump",
                    expected: 456,
                    actual: unpacked_u7(body).len() as usize,
                },
            )
        } else {
            None
        },
        DeviceStatusId::ProgramDump => if body.len() < 2 {
            Some(ParseError::TooShort(body.len() as usize))
        } else if unpacked_u7(body.skip(2)).len() < 456 {
            Some(
                ParseError::InvalidPayloadSize {
                    context: "program dump",
                    expected: 456,
                    actual: unpacked_u7(body.skip(2)).len() as usize,
                },
            )
        } else {
            None
        },
        DeviceStatusId::FormantMotionDump => if body.len() == 0 {
            Some(ParseError::TooShort(0))
        } else {
            None
        },
        DeviceStatusId::GlobalDump => if unpacked_u7(body).len() < 80 {
            Some(
                ParseError::InvalidPayloadSize {
                    context: "global dump",
                    expected: 80,
                    actual: unpacked_u7(body).len() as usize,
                },
            )
        } else {
            None
        },
        DeviceStatusId::ParameterChange => if body.len() < 6 {
            Some(
                ParseError::InvalidPayloadSize {
                    context: "parameter change",
                    expected: 6,
                    actual: body.len() as usize,
                },
            )
        } else {
            None
        },
        _ => None,
    }
}

/// Why `data` cannot be read as a message from the R3, if it cannot.
pub open spec fn parse_failure(data: Seq<u8>) -> Option<ParseError> {
    match parse_frame(data) {
        Err(e) => Some(ParseError::Sysex(e)),
        Ok(p) => if p.len() < 4 {
            Some(ParseError::TooShort(p.len() as usize))
        } else if p[0] != SYSEX_MANUFACTURER_ID {
            Some(ParseError::InvalidManufacturer(p[0]))
        } else if p[2] != DEVICE_ID {
            Some(ParseError::InvalidDevice(p[2]))
        } else {
            match status_of(p[3]) {
                None => Some(ParseError::UnknownFunction(p[3])),
                Some(s) => body_failure(s, p.skip(4)),
            }
        },
    }
}

/// Whether `m` is the message carried by the payload `p` of a frame that
/// reads without failure.
pub open spec fn carries(p: Seq<u8>, m: KorgR3Message) -> bool {
    let body = p.skip(4);
    match m {
        KorgR3Message::CurrentProgramDump(program) => p[3] == 0x40 && program.bytes()
            == unpacked_u7(body).take(456),
        KorgR3Message::ProgramDump { program_no, program } => p[3] == 0x4C && program_no
            == unpacked_u14(body[1], body[0]) && program.bytes() == unpacked_u7(body.skip(2)).take(
            456,
        ),
        KorgR3Message::CurrentFormantMotionDump { size, steps } => p[3] == 0x43 && formant_payload(
            after_motion_byte(body),
            size,
            steps@,
        ),
        KorgR3Message::FormantMotionDump { motion_no, size, steps } => p[3] == 0x48 && motion_no
            == body[0] && formant_payload(after_motion_byte(body), size, steps@),
        KorgR3Message::GlobalDump(global) => p[3] == 0x51 && global.bytes() == unpacked_u7(
            body,
        ).take(80),
        KorgR3Message::ParameterChange(raw) => p[3] == 0x41 && raw.bytes() == body.take(6),
        KorgR3Message::DataLoadCompleted => p[3] == 0x23,
        KorgR3Message::DataLoadError => p[3] == 0x24,
        KorgR3Message::WriteCompleted => p[3] == 0x21,
        KorgR3Message::WriteError => p[3] == 0x22,
        KorgR3Message::DataFormatError => p[3] == 0x26,
    }
}

/// The payload of a framed payload is the payload, and reading the frame
/// gives it back.
proof fn lemma_frame_payload(payload: Seq<u8>)
    ensures
        parse_frame(framed(payload)) == Ok::<Seq<u8>, SysexParseError>(payload),
        frame_payload(framed(payload)) == payload,
{
    lemma_parse_framed(payload);
    assert(frame_payload(framed(payload)) =~= payload);
}

/// Reading the message that carries the program being edited gives that
/// program back.
pub proof fn lemma_current_program_dump_round_trip(channel: u8, program: RawProgram)
    ensures
        parse_failure(current_program_dump_bytes(channel, program)) is None,
        forall|m: KorgR3Message|
            carries(frame_payload(current_program_dump_bytes(channel, program)), m) ==> (
            m matches KorgR3Message::CurrentProgramDump(q) && *q == program),
{
    let payload = header(channel, 0x40) + packed_u7(program.bytes());
    lemma_frame_payload(payload);
    assert(payload.skip(4) =~= packed_u7(program.bytes()));
    lemma_unpack_pack_u7(program.bytes());
    assert(program.bytes().take(456) =~= program.bytes());
    assert forall|m: KorgR3Message| carries(payload, m) implies (
    m matches KorgR3Message::CurrentProgramDump(q) && *q == program) by {
        if let KorgR3Message::CurrentProgramDump(q) = m {
            RawProgram::lemma_bytes_injective(*q, program);
        }
    }
}

/// Reading the message that carries the program of a slot gives that
/// program and the slot number, cut to 14 bits, back.
pub proof fn lemma_program_dump_round_trip(channel: u8, program_no: u16, program: RawProgram)
    ensures
        parse_failure(program_dump_bytes(channel, program_no, program)) is None,
        forall|m: KorgR3Message|
            carries(frame_payload(program_dump_bytes(channel, program_no, program)), m) ==> (
            m matches KorgR3Message::ProgramDump { program_no: n, program: q } && n == program_no
                % 16384 && *q == program),
{
    let payload = header(channel, 0x4C) + low_first(program_no) + packed_u7(program.bytes());
    lemma_frame_payload(payload);
    let body = payload.skip(4);
    assert(body.skip(2) =~= packed_u7(program.bytes()));
    assert(body[0] == packed_u14(program_no)[1] && body[1] == packed_u14(program_no)[0]);
    crate::sysex::lemma_unpack_pack_u14(program_no);
    lemma_unpack_pack_u7(program.bytes());
    assert(program.bytes().take(456) =~= program.bytes());
    assert forall|m: KorgR3Message| carries(payload, m) implies (
    m matches KorgR3Message::ProgramDump { program_no: n, program: q } && n == program_no % 16384
        && *q == program) by {
        if let KorgR3Message::ProgramDump { program_no: n, program: q } = m {
            RawProgram::lemma_bytes_injective(*q, program);
        }
    }
}

/// Reading the message that carries the global settings gives them back.
pub proof fn lemma_global_dump_round_trip(channel: u8, global: RawGlobal)
    ensures
        parse_failure(global_dump_bytes(channel, global)) is None,
        forall|m: KorgR3Message|
            carries(frame_payload(global_dump_bytes(channel, global)), m) ==> (
            m matches KorgR3Message::GlobalDump(g) && *g == global),
{
    let payload = header(channel, 0x51) + packed_u7(global.bytes());
    lemma_frame_payload(payload);
    assert(payload.skip(4) =~= packed_u7(global.bytes()));
    lemma_unpack_pack_u7(global.bytes());
    assert(global.bytes().take(80) =~= global.bytes());
    assert forall|m: KorgR3Message| carries(payload, m) implies (
    m matches KorgR3Message::GlobalDump(g) && *g == global) by {
        if let KorgR3Message::GlobalDump(g) = m {
            RawGlobal::lemma_bytes_injective(*g, global);
        }
    }
}

/// Reading a parameter change gives back its parameter, sub-parameter and
/// value, each cut to 14 bits.
pub proof fn lemma_parameter_change_round_trip(channel: u8, param_id: u16, sub_id: u16, value: u16)
    ensures
        parse_failure(parameter_change_bytes(channel, param_id, sub_id, value)) is None,
        forall|m: KorgR3Message|
            carries(frame_payload(parameter_change_bytes(channel, param_id, sub_id, value)), m) ==> (
            m matches KorgR3Message::ParameterChange(r) && unpacked_u14(r.param_id[1], r.param_id[0])
                == param_id % 16384 && unpacked_u14(r.sub_id[1], r.sub_id[0]) == sub_id % 16384
                && unpacked_u14(r.value[1], r.value[0]) == value % 16384),
{
    let payload = header(channel, 0x41) + low_first(param_id) + low_first(sub_id) + low_first(value);
    lemma_frame_payload(payload);
    let body = payload.skip(4);
    assert(body.len() == 6);
    crate::sysex::lemma_unpack_pack_u14(param_id);
    crate::sysex::lemma_unpack_pack_u14(sub_id);
    crate::sysex::lemma_unpack_pack_u14(value);
    assert forall|m: KorgR3Message| carries(payload, m) implies (
    m matches KorgR3Message::ParameterChange(r) && unpacked_u14(r.param_id[1], r.param_id[0])
        == param_id % 16384 && unpacked_u14(r.sub_id[1], r.sub_id[0]) == sub_id % 16384
        && unpacked_u14(r.value[1], r.value[0]) == value % 16384) by {
        if let KorgR3Message::ParameterChange(r) = m {
            assert(r.bytes() == body.take(6));
            assert(r.bytes()[0] == r.param_id[0] && r.bytes()[1] == r.param_id[1]);
            assert(r.bytes()[2] == r.sub_id[0] && r.bytes()[3] == r.sub_id[1]);
            assert(r.bytes()[4] == r.value[0] && r.bytes()[5] == r.value[1]);
        }
    }
}

/// Reading the message that carries a formant motion gives the steps back,
/// with the step count cut to 14 bits.
pub proof fn lemma_formant_dump_round_trip(channel: u8, motion_no: u8, steps: Seq<RawFormantStep>)
    ensures
        parse_failure(formant_dump_bytes(channel, 0x48, motion_no, steps)) is None,
        forall|m: KorgR3Message|
            carries(frame_payload(formant_dump_bytes(channel, 0x48, motion_no, steps)), m) ==> (
            m matches KorgR3Message::FormantMotionDump { motion_no: n, size, steps: got } && n
                == motion_no && size == (steps.len() as u16) % 16384 && got@ == steps),
{
    let payload = header(channel, 0x48) + seq![motion_no] + low_first(steps.len() as u16) + seq![
        0u8,
    ] + packed_u7(steps_bytes(steps));
    lemma_frame_payload(payload);
    let body = payload.skip(4);
    let rest = after_motion_byte(body);
    assert(rest.skip(3) =~= packed_u7(steps_bytes(steps)));
    assert(rest[0] == packed_u14(steps.len() as u16)[1] && rest[1] == packed_u14(steps.len() as u16)[0]);
    crate::sysex::lemma_unpack_pack_u14(steps.len() as u16);
    lemma_unpack_pack_u7(steps_bytes(steps));
    lemma_steps_bytes(steps);
    assert forall|m: KorgR3Message| carries(payload, m) implies (
    m matches KorgR3Message::FormantMotionDump { motion_no: n, size, steps: got } && n == motion_no
        && size == (steps.len() as u16) % 16384 && got@ == steps) by {
        if let KorgR3Message::FormantMotionDump { motion_no: n, size, steps: got } = m {
            assert(got@.len() == steps.len());
            assert forall|i: int| 0 <= i < steps.len() implies got@[i] == steps[i] by {
                assert(got@[i].bytes() == steps_bytes(steps).subrange(16 * i, 16 * i + 16));
                RawFormantStep::lemma_bytes_injective(got@[i], steps[i]);
            }
            assert(got@ =~= steps);
        }
    }
}

/// The payload of a frame: the bytes between its first and last.
pub open spec fn frame_payload(data: Seq<u8>) -> Seq<u8> {
    data.subrange(1, data.len() - 1)
}

/// Reads the size and steps of a formant payload.
pub fn parse_formant_payload(rest: &[u8]) -> (res: (u16, Vec<RawFormantStep>))
    ensures
        formant_payload(rest@, res.0, res.1@),
{
    if rest.len() < 3 {
        return (0, Vec::new());
    }
    let size = unpack_u14([rest[1], rest[0]]);
    let unpacked = unpack_u7(&rest[3..rest.len()]);
    assert(rest@.subrange(3, rest@.len() as int) =~= rest@.skip(3));
    let count = unpacked.len() / 16;
    let mut steps: Vec<RawFormantStep> = Vec::new();
    let mut i: usize = 0;
    while i < count
        invariant
            count == unpacked@.len() / 16,
            unpacked@ == unpacked_u7(rest@.skip(3)),
            i <= count,
            steps@.len() == i,
            forall|j: int|
                0 <= j < i ==> #[trigger] steps@[j].bytes() == unpacked@.subrange(16 * j, 16 * j + 16),
        decreases count - i,
    {
        let len = unpacked.len();
        assert(16 * i + 16 <= len) by (nonlinear_arith)
            requires
                i < count,
                count == len / 16,
        ;
        let start = 16 * i;
        let step = RawFormantStep::from_bytes(&unpacked.as_slice()[start..start + 16]);
        steps.push(step);
        i = i + 1;
    }
    (size, steps)
}

impl KorgR3Message {
    /// Reads a message from the R3; fails on a broken frame, a short
    /// payload, a foreign manufacturer or device, an unknown function or a
    /// body too short for its function.
    pub fn parse(data: &[u8]) -> (res: Result<Self, ParseError>)
        ensures
            match res {
                Ok(m) => parse_failure(data@) is None && carries(frame_payload(data@), m),
                Err(e) => parse_failure(data@) == Some(e),
            },
    {
        let sysex = match Sysex::from_bytes(data) {
            Ok(s) => s,
            Err(e) => {
                return Err(ParseError::Sysex(e));
            },
        };
        let payload = sysex.payload();
        if payload.len() < 4 {
            return Err(ParseError::TooShort(payload.len()));
        }
        if payload[0] != SYSEX_MANUFACTURER_ID {
            return Err(ParseError::InvalidManufacturer(payload[0]));
        }
        if payload[2] != DEVICE_ID {
            return Err(ParseError::InvalidDevice(payload[2]));
        }
        let func_id = match DeviceStatusId::from_code(payload[3]) {
            Some(f) => f,
            None => {
                return Err(ParseError::UnknownFunction(payload[3]));
            },
        };
        let body = &payload[4..payload.len()];
        assert(body@ =~= payload@.skip(4));
        match func_id {
            DeviceStatusId::CurrentProgramDump => {
                let unpacked = unpack_u7(body);
                if unpacked.len() < RawProgram::SIZE {
                    return Err(
                        ParseError::InvalidPayloadSize {
                            context: "current program dump",
                            expected: RawProgram::SIZE,
                            actual: unpacked.len(),
                        },
                    );
                }
                let program = RawProgram::from_bytes(&unpacked.as_slice()[0..RawProgram::SIZE]);
                assert(unpacked@.subrange(0, 456) =~= unpacked@.take(456));
                Ok(KorgR3Message::CurrentProgramDump(Box::new(program)))
            },
            DeviceStatusId::ProgramDump => {
                if body.len() < 2 {
                    return Err(ParseError::TooShort(body.len()));
                }
                let program_no = unpack_u14([body[1], body[0]]);
                let unpacked = unpack_u7(&body[2..body.len()]);
                assert(body@.subrange(2, body@.len() as int) =~= body@.skip(2));
                if unpacked.len() < RawProgram::SIZE {
                    return Err(
                        ParseError::InvalidPayloadSize {
                            context: "program dump",
                            expected: RawProgram::SIZE,
                            actual: unpacked.len(),
                        },
                    );
                }
                let program = RawProgram::from_bytes(&unpacked.as_slice()[0..RawProgram::SIZE]);
                assert(unpacked@.subrange(0, 456) =~= unpacked@.take(456));
                Ok(KorgR3Message::ProgramDump { program_no, program: Box::new(program) })
            },
            DeviceStatusId::CurrentFormantMotionDump => {
                let rest: &[u8] = if body.len() >= 1 {
                    &body[1..body.len()]
                } else {
                    &[]
                };
                assert(rest@ =~= after_motion_byte(body@));
                let (size, steps) = parse_formant_payload(rest);
                Ok(KorgR3Message::CurrentFormantMotionDump { size, steps })
            },
            DeviceStatusId::FormantMotionDump => {
                if body.len() == 0 {
                    return Err(ParseError::TooShort(0));
                }
                let motion_no = body[0];
                let rest: &[u8] = &body[1..body.len()];
                assert(rest@ =~= after_motion_byte(body@));
                let (size, steps) = parse_formant_payload(rest);
                Ok(KorgR3Message::FormantMotionDump { motion_no, size, steps })
            },
            DeviceStatusId::GlobalDump => {
                let unpacked = unpack_u7(body);
                if unpacked.len() < RawGlobal::SIZE {
                    return Err(
                        ParseError::InvalidPayloadSize {
                            context: "global dump",
                            expected: RawGlobal::SIZE,
                            actual: unpacked.len(),
                        },
                    );
                }
                let global = RawGlobal::from_bytes(&unpacked.as_slice()[0..RawGlobal::SIZE]);
                assert(unpacked@.subrange(0, 80) =~= unpacked@.take(80));
                Ok(KorgR3Message::GlobalDump(Box::new(global)))
            },
            DeviceStatusId::ParameterChange => {
                if body.len() < RawParameterChange::SIZE {
                    return Err(
                        ParseError::InvalidPayloadSize {
                            context: "parameter change",
                            expected: RawParameterChange::SIZE,
                            actual: body.len(),
                        },
                    );
                }
                let raw = RawParameterChange::from_bytes(&body[0..RawParameterChange::SIZE]);
                assert(body@.subrange(0, 6) =~= body@.take(6));
                Ok(KorgR3Message::ParameterChange(raw))
            },
            DeviceStatusId::DataLoadCompleted => Ok(KorgR3Message::DataLoadCompleted),
            DeviceStatusId::DataLoadError => Ok(KorgR3Message::DataLoadError),
            DeviceStatusId::WriteCompleted => Ok(KorgR3Message::WriteCompleted),
            DeviceStatusId::WriteError => Ok(KorgR3Message::WriteError),
            DeviceStatusId::DataFormatError => Ok(KorgR3Message::DataFormatError),
        }
    }
}

/// The conversion goes through [`KorgR3Message::parse`], whose contract
/// states the result. This spec impl opts out of the
/// std contract; the conversion's own `ensures` states the result.
impl<'a> vstd::std_specs::convert::TryFromSpecImpl<&'a [u8]> for KorgR3Message {
    open spec fn obeys_try_from_spec() -> bool {
        false
    }

    open spec fn try_from_spec(data: &'a [u8]) -> Result<Self, ParseError> {
        Err(ParseError::TooShort(0))
    }
}

impl<'a> TryFrom<&'a [u8]> for KorgR3Message {
    type Error = ParseError;

    fn try_from(data: &'a [u8]) -> (res: Result<Self, ParseError>)
        ensures
            match res {
                Ok(m) => parse_failure(data@) is None && carries(frame_payload(data@), m),
                Err(e) => parse_failure(data@) == Some(e),
            },
    {
        KorgR3Message::parse(data)
    }
}

} // verus!
