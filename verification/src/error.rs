use vstd::prelude::*;

use crate::manufacturer::akai::mpd226::error::GlobalAckParseError;
use crate::manufacturer::akai::mpd226::error::GlobalParseError;
use crate::manufacturer::akai::mpd226::error::PresetAckParseError;
use crate::manufacturer::akai::mpd226::error::PresetParseError;

verus! {

/// Error states of MIDI communication.
#[derive(Debug)]
pub enum MidiError {
    WritePreset,
    DumpPreset,
    OutputConnection(String),
    InputConnection(String),
    ResponseTimeout,
    ChannelClosed,
}

/// Error states of sysex framing.
#[derive(Debug, Clone, Copy, PartialEq, Eq)]
pub enum SysexParseError {
    InvalidStart(u8),
    InvalidEnding(u8),
    MissingEnding,
    Empty,
}

/// Error states of reading a message from an MPD226.
#[derive(Debug, Clone, PartialEq, Eq)]
pub enum DeviceStatusParseError {
    InvalidSysex(SysexParseError),
    InvalidMsg,
    InvalidHeader,
    InvalidCommand(u8),
    PresetDeserialization(PresetParseError),
    GlobalDeserialization(GlobalParseError),
    GlobalAck(GlobalAckParseError),
    PresetAck(PresetAckParseError),
}

impl From<SysexParseError> for DeviceStatusParseError {
    fn from(e: SysexParseError) -> (res: Self) {
        DeviceStatusParseError::InvalidSysex(e)
    }
}

impl vstd::std_specs::convert::FromSpecImpl<SysexParseError> for DeviceStatusParseError {
    open spec fn obeys_from_spec() -> bool {
        true
    }

    open spec fn from_spec(e: SysexParseError) -> Self {
        DeviceStatusParseError::InvalidSysex(e)
    }
}

impl From<PresetParseError> for DeviceStatusParseError {
    fn from(e: PresetParseError) -> (res: Self) {
        DeviceStatusParseError::PresetDeserialization(e)
    }
}

impl vstd::std_specs::convert::FromSpecImpl<PresetParseError> for DeviceStatusParseError {
    open spec fn obeys_from_spec() -> bool {
        true
    }

    open spec fn from_spec(e: PresetParseError) -> Self {
        DeviceStatusParseError::PresetDeserialization(e)
    }
}

impl From<GlobalParseError> for DeviceStatusParseError {
    fn from(e: GlobalParseError) -> (res: Self) {
        DeviceStatusParseError::GlobalDeserialization(e)
    }
}

impl vstd::std_specs::convert::FromSpecImpl<GlobalParseError> for DeviceStatusParseError {
    open spec fn obeys_from_spec() -> bool {
        true
    }

    open spec fn from_spec(e: GlobalParseError) -> Self {
        DeviceStatusParseError::GlobalDeserialization(e)
    }
}

impl From<GlobalAckParseError> for DeviceStatusParseError {
    fn from(e: GlobalAckParseError) -> (res: Self) {
        DeviceStatusParseError::GlobalAck(e)
    }
}

impl vstd::std_specs::convert::FromSpecImpl<GlobalAckParseError> for DeviceStatusParseError {
    open spec fn obeys_from_spec() -> bool {
        true
    }

    open spec fn from_spec(e: GlobalAckParseError) -> Self {
        DeviceStatusParseError::GlobalAck(e)
    }
}

impl From<PresetAckParseError> for DeviceStatusParseError {
    fn from(e: PresetAckParseError) -> (res: Self) {
        DeviceStatusParseError::PresetAck(e)
    }
}

impl vstd::std_specs::convert::FromSpecImpl<PresetAckParseError> for DeviceStatusParseError {
    open spec fn obeys_from_spec() -> bool {
        true
    }

    open spec fn from_spec(e: PresetAckParseError) -> Self {
        DeviceStatusParseError::PresetAck(e)
    }
}

} // verus!
