//! The MiniLab mkII's parameters as the bytes that the device stores.

use vstd::prelude::*;

verus! {

/// The number of buttons.
pub const TOTAL_BUTTONS: usize = 4;

/// The six parameter bytes of a knob, button, wheel or pedal.
#[derive(Copy, Clone, Debug, Default, PartialEq, Eq, Structural)]
pub struct RawControl {
    pub mode: u8,
    pub channel: u8,
    pub data1: u8,
    pub data2: u8,
    pub data3: u8,
    pub option: u8,
}

/// The seven parameter bytes of a pad: those of a control, then its color.
#[derive(Copy, Clone, Debug, Default, PartialEq, Eq, Structural)]
pub struct RawPad {
    pub mode: u8,
    pub channel: u8,
    pub data1: u8,
    pub data2: u8,
    pub data3: u8,
    pub option: u8,
    pub color: u8,
}

impl RawControl {
    /// The bytes in parameter order.
    pub open spec fn bytes(self) -> Seq<u8> {
        seq![self.mode, self.channel, self.data1, self.data2, self.data3, self.option]
    }

    /// The bytes in parameter order.
    pub fn as_bytes(&self) -> (res: [u8; 6])
        ensures
            res@ == self.bytes(),
    {
        let res = [self.mode, self.channel, self.data1, self.data2, self.data3, self.option];
        assert(res@ =~= self.bytes());
        res
    }
}

impl RawPad {
    /// The bytes in parameter order.
    pub open spec fn bytes(self) -> Seq<u8> {
        seq![self.mode, self.channel, self.data1, self.data2, self.data3, self.option, self.color]
    }

    /// The bytes in parameter order.
    pub fn as_bytes(&self) -> (res: [u8; 7])
        ensures
            res@ == self.bytes(),
    {
        let res = [
            self.mode,
            self.channel,
            self.data1,
            self.data2,
            self.data3,
            self.option,
            self.color,
        ];
        assert(res@ =~= self.bytes());
        res
    }
}

/// Every control of a preset, as stored.
#[derive(Copy, Clone, Debug, Default, PartialEq, Eq)]
pub struct RawPreset {
    pub knobs: [RawControl; 16],
    pub shift_knobs: [RawControl; 2],
    pub buttons: [RawControl; 4],
    pub mod_wheel: RawControl,
    pub pitch_bend: RawControl,
    pub sustain_pedal: RawControl,
    pub pads: [RawPad; 16],
}

/// The global parameters, as stored.
#[derive(Copy, Clone, Debug, Default, PartialEq, Eq, Structural)]
pub struct RawGlobal {
    pub keyboard_channel: u8,
    pub key_velocity_curve: u8,
    pub pad_velocity_curve: u8,
    pub knob_acceleration: u8,
    pub octave_button_blink: u8,
    pub pad_off_backlight: u8,
}

impl RawGlobal {
    /// The bytes in the order of the global parameters.
    pub open spec fn bytes(self) -> Seq<u8> {
        seq![
            self.keyboard_channel,
            self.key_velocity_curve,
            self.pad_velocity_curve,
            self.knob_acceleration,
            self.octave_button_blink,
            self.pad_off_backlight,
        ]
    }

    /// The bytes in the order of the global parameters.
    pub fn as_bytes(&self) -> (res: [u8; 6])
        ensures
            res@ == self.bytes(),
    {
        let res = [
            self.keyboard_channel,
            self.key_velocity_curve,
            self.pad_velocity_curve,
            self.knob_acceleration,
            self.octave_button_blink,
            self.pad_off_backlight,
        ];
        assert(res@ =~= self.bytes());
        res
    }
}

} // verus!
