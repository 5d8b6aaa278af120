//! Why MiniLab mkII data could not be read.

use vstd::prelude::*;

use crate::error::SysexParseError;

verus! {

/// Why a message from the device could not be read.
#[derive(Debug, Clone, Copy, PartialEq, Eq)]
pub enum DeviceStatusParseError {
    InvalidSysex(SysexParseError),
    InvalidHeader,
    InvalidOpCode(u8),
    InvalidParam(u8),
    InvalidControl(u8),
    InvalidGlobalParam(u8),
    InvalidLength(usize),
}

impl From<SysexParseError> for DeviceStatusParseError {
    fn from(e: SysexParseError) -> (res: Self) {
        DeviceStatusParseError::InvalidSysex(e)
    }
}

impl vstd::std_specs::convert::FromSpecImpl<SysexParseError> for DeviceStatusParseError {
    open spec fn obeys_from_spec() -> bool {
        true
    }

    open spec fn from_spec(e: SysexParseError) -> Self {
        DeviceStatusParseError::InvalidSysex(e)
    }
}

/// Why a preset could not be assembled from stored parameters.
#[derive(Debug, Clone, Copy, PartialEq, Eq)]
pub enum PresetParseError {
    MissingParam { param: u8, control: u8 },
    InvalidLength(usize),
}

/// Why the global parameters could not be assembled from stored parameters.
#[derive(Debug, Clone, Copy, PartialEq, Eq)]
pub enum GlobalParseError {
    MissingParam { param: u8 },
    InvalidLength(usize),
}

} // verus!
