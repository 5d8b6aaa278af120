//! Why Impact LX+ data could not be read.

use vstd::prelude::*;

use crate::error::SysexParseError;

verus! {

/// Why a message from the device could not be read.
#[derive(Debug, Clone, Copy, PartialEq, Eq)]
pub enum DeviceStatusParseError {
    InvalidSysex(SysexParseError),
    InvalidHeader,
    InvalidLength(usize),
    ChecksumMismatch { expected: u8, actual: u8 },
    InvalidObjectType(u8),
    InvalidSection(u8),
    InvalidSettingId(u8),
    InvalidTlv,
    InvalidParamLength(u8),
    MissingParam(u8),
}

/// Why the messages taken in do not make up a full dump: the first object,
/// in dump order, that no message wrote.
#[derive(Debug, Clone, Copy, PartialEq, Eq, Structural)]
pub enum DumpParseError {
    MissingPresetControl { preset: u8, control: u8 },
    MissingPad { map: u8, pad: u8 },
    MissingSetting { setting: u8 },
    MissingGlobalControl { control: u8 },
}

impl From<SysexParseError> for DeviceStatusParseError {
    fn from(e: SysexParseError) -> (res: Self) {
        DeviceStatusParseError::InvalidSysex(e)
    }
}

impl vstd::std_specs::convert::FromSpecImpl<SysexParseError> for DeviceStatusParseError {
    open spec fn obeys_from_spec() -> bool {
        true
    }

    open spec fn from_spec(e: SysexParseError) -> Self {
        DeviceStatusParseError::InvalidSysex(e)
    }
}

} // verus!
