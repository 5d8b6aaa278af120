//! Why MPD226 data could not be read. Where a byte names no known value,
//! the error holds that byte.

use vstd::prelude::*;

verus! {

/// Why a stored preset could not be read.
#[derive(Debug, Clone, PartialEq, Eq)]
pub enum PresetParseError {
    PresetSettings(PresetSettingsParseError),
    Pad { index: usize, source: PadParseError },
    Dial { index: usize, source: DialParseError },
    Fader { index: usize, source: FaderParseError },
    Switch { index: usize, source: SwitchParseError },
}

/// Why the settings of a stored preset could not be read.
#[derive(Debug, Clone, PartialEq, Eq)]
pub enum PresetSettingsParseError {
    PresetSlotData(Vec<u8>),
    PresetSlot(u8),
    TimeDivisionSwitch(u8),
    TimeDivision(u8),
    NoteRepeatSwitch(u8),
    Swing(u8),
    Transport(u8),
}

/// Why a stored pad could not be read.
#[derive(Debug, Clone, Copy, PartialEq, Eq)]
pub enum PadParseError {
    Kind(u8),
    Channel(u8),
    Note(u8),
    Midi2Din(u8),
    Trigger(u8),
    Aftertouch(u8),
    OffColor(u8),
    OnColor(u8),
}

/// Why a stored dial could not be read.
#[derive(Debug, Clone, Copy, PartialEq, Eq)]
pub enum DialParseError {
    Kind(u8),
    Channel(u8),
    Midi2Din(u8),
}

/// Why a stored fader could not be read.
#[derive(Debug, Clone, Copy, PartialEq, Eq)]
pub enum FaderParseError {
    Kind(u8),
    Channel(u8),
    Midi2Din(u8),
}

/// Why a stored switch could not be read.
#[derive(Debug, Clone, Copy, PartialEq, Eq)]
pub enum SwitchParseError {
    Kind(u8),
    Channel(u8),
    Mode(u8),
    Midi2Din(u8),
    Invert(u8),
    Key2(u8),
}

/// Why the global parameters could not be read.
#[derive(Debug, Clone, Copy, PartialEq, Eq)]
pub enum GlobalParseError {
    CommonChannel(u8),
    TapAverage(u8),
    TempoLed(u8),
    NoteDisplay(u8),
    TransportToDin(u8),
    PadCurve(u8),
    MidiClock(u8),
    InvalidLength(usize),
}

/// Why a global parameter acknowledgement could not be read.
#[derive(Debug, Clone, Copy, PartialEq, Eq)]
pub enum GlobalAckParseError {
    InvalidAddr(u8),
    InvalidLength(usize),
}

/// Why a preset acknowledgement could not be read.
#[derive(Debug, Clone, Copy, PartialEq, Eq)]
pub enum PresetAckParseError {
    InvalidSlot(u8),
    InvalidLength(usize),
}

} // verus!
