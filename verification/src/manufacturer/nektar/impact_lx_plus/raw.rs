//! The Impact LX+ parameters of a control or pad as the bytes they travel as.

use vstd::prelude::*;

verus! {

/// The parameters of a fader, pot, button or wheel.
#[derive(Copy, Clone, Debug, Default, PartialEq, Eq, Structural)]
pub struct RawControl {
    pub channel: u8,
    pub kind: u8,
    pub data1: u8,
    pub min: u8,
    pub max: u8,
}

/// The parameters of a pad: those of a control, then its note.
#[derive(Copy, Clone, Debug, Default, PartialEq, Eq, Structural)]
pub struct RawPad {
    pub channel: u8,
    pub kind: u8,
    pub data1: u8,
    pub min: u8,
    pub max: u8,
    pub note: u8,
}

impl RawControl {
    /// The bytes in parameter order.
    pub open spec fn bytes(self) -> Seq<u8> {
        seq![self.channel, self.kind, self.data1, self.min, self.max]
    }

    /// The bytes in parameter order.
    pub fn as_bytes(&self) -> (res: [u8; 5])
        ensures
            res@ == self.bytes(),
    {
        let res = [self.channel, self.kind, self.data1, self.min, self.max];
        assert(res@ =~= self.bytes());
        res
    }
}

impl RawPad {
    /// The bytes in parameter order.
    pub open spec fn bytes(self) -> Seq<u8> {
        seq![self.channel, self.kind, self.data1, self.min, self.max, self.note]
    }

    /// The bytes in parameter order.
    pub fn as_bytes(&self) -> (res: [u8; 6])
        ensures
            res@ == self.bytes(),
    {
        let res = [self.channel, self.kind, self.data1, self.min, self.max, self.note];
        assert(res@ =~= self.bytes());
        res
    }
}

} // verus!
