//! The MPD226 parameter records as laid out on the wire.

use vstd::prelude::*;

use crate::manufacturer::akai::SYSEX_MANUFACTURER_ID;
use crate::manufacturer::akai::mpd226::DEVICE_ID;
use crate::manufacturer::akai::mpd226::DeviceCommandId;
use crate::manufacturer::akai::mpd226::DeviceHeader;
use vstd::std_specs::convert::IntoSpec;
use crate::manufacturer::akai::mpd226::global_param_message;
use crate::manufacturer::akai::mpd226::write_global_param_to_device;
use crate::sysex::extend_bytes;

verus! {

/// An acknowledgement of a global parameter write.
#[derive(Debug, Copy, Clone)]
pub struct RawGlobalParamAck {
    pub _unknown1: u8,
    pub _unknown2: u8,
    pub addr: u8,
    pub status: u8,
}

impl RawGlobalParamAck {
    /// The size of the record in bytes.
    pub const SIZE: usize = 4;

    /// The bytes of the record, fields in declaration order.
    pub open spec fn bytes(&self) -> Seq<u8> {
        seq![self._unknown1, self._unknown2, self.addr, self.status]
    }

    /// The bytes of the record, fields in declaration order.
    #[verifier::spinoff_prover]
    #[verifier::rlimit(40)]
    pub fn as_bytes(&self) -> (res: Vec<u8>)
        ensures
            res@ == self.bytes(),
    {
        let mut out: Vec<u8> = Vec::new();
        out.push(self._unknown1);
        out.push(self._unknown2);
        out.push(self.addr);
        out.push(self.status);
        assert(out@ =~= self.bytes());
        out
    }

    /// The record whose bytes are `data`.
    #[verifier::spinoff_prover]
    #[verifier::rlimit(40)]
    pub fn from_bytes(data: &[u8]) -> (res: Self)
        requires
            data@.len() == Self::SIZE,
        ensures
            res.bytes() == data@,
    {
        let res = RawGlobalParamAck {
            _unknown1: data[0],
            _unknown2: data[1],
            addr: data[2],
            status: data[3],
        };
        assert(res.bytes() =~= data@);
        res
    }
}

/// An acknowledgement of a preset write.
#[derive(Debug, Copy, Clone)]
pub struct RawPresetAck {
    pub slot: u8,
    pub _unknown1: u8,
}

impl RawPresetAck {
    /// The size of the record in bytes.
    pub const SIZE: usize = 2;

    /// The bytes of the record, fields in declaration order.
    pub open spec fn bytes(&self) -> Seq<u8> {
        seq![self.slot, self._unknown1]
    }

    /// The bytes of the record, fields in declaration order.
    #[verifier::spinoff_prover]
    #[verifier::rlimit(40)]
    pub fn as_bytes(&self) -> (res: Vec<u8>)
        ensures
            res@ == self.bytes(),
    {
        let mut out: Vec<u8> = Vec::new();
        out.push(self.slot);
        out.push(self._unknown1);
        assert(out@ =~= self.bytes());
        out
    }

    /// The record whose bytes are `data`.
    #[verifier::spinoff_prover]
    #[verifier::rlimit(40)]
    pub fn from_bytes(data: &[u8]) -> (res: Self)
        requires
            data@.len() == Self::SIZE,
        ensures
            res.bytes() == data@,
    {
        let res = RawPresetAck {
            slot: data[0],
            _unknown1: data[1],
        };
        assert(res.bytes() =~= data@);
        res
    }
}

/// The header of every MPD226 message.
#[derive(Debug, Copy, Clone)]
pub struct RawHeader {
    pub mfg_id: u8,
    pub _unknown: u8,
    pub device_id: u8,
    pub cmd: u8,
    pub length: [u8; 2],
}

impl RawHeader {
    /// The size of the record in bytes.
    pub const SIZE: usize = 6;

    /// The bytes of the record, fields in declaration order.
    pub open spec fn bytes(&self) -> Seq<u8> {
        seq![self.mfg_id, self._unknown, self.device_id, self.cmd]
            + self.length@
    }

    /// The bytes of the record, fields in declaration order.
    #[verifier::spinoff_prover]
    #[verifier::rlimit(40)]
    pub fn as_bytes(&self) -> (res: Vec<u8>)
        ensures
            res@ == self.bytes(),
    {
        let mut out: Vec<u8> = Vec::new();
        out.push(self.mfg_id);
        out.push(self._unknown);
        out.push(self.device_id);
        out.push(self.cmd);
        extend_bytes(&mut out, self.length.as_slice());
        assert(out@ =~= self.bytes());
        out
    }

    /// The record whose bytes are `data`.
    #[verifier::spinoff_prover]
    #[verifier::rlimit(40)]
    pub fn from_bytes(data: &[u8]) -> (res: Self)
        requires
            data@.len() == Self::SIZE,
        ensures
            res.bytes() == data@,
    {
        let res = RawHeader {
            mfg_id: data[0],
            _unknown: data[1],
            device_id: data[2],
            cmd: data[3],
            length: [data[4], data[5]],
        };
        assert(res.bytes() =~= data@);
        res
    }
}

/// The settings part of a stored preset.
#[derive(Debug, Copy, Clone)]
pub struct RawPresetSettings {
    pub preset: u8,
    pub name: [u8; 8],
    pub un1: u8,
    pub tempo: [u8; 2],
    pub time_division_switch: u8,
    pub division: u8,
    pub note_repeat_switch: u8,
    pub gate: u8,
    pub swing: u8,
    pub un5: u8,
    pub un6: u8,
    pub un7: u8,
    pub un8: u8,
    pub un9: u8,
    pub transport: u8,
}

impl RawPresetSettings {
    /// The size of the record in bytes.
    pub const SIZE: usize = 23;

    /// The bytes of the record, fields in declaration order.
    pub open spec fn bytes(&self) -> Seq<u8> {
        seq![self.preset]
            + self.name@
            + seq![self.un1]
            + self.tempo@
            + seq![self.time_division_switch, self.division, self.note_repeat_switch, self.gate, self.swing, self.un5, self.un6, self.un7, self.un8, self.un9, self.transport]
    }

    /// The bytes of the record, fields in declaration order.
    #[verifier::spinoff_prover]
    #[verifier::rlimit(40)]
    pub fn as_bytes(&self) -> (res: Vec<u8>)
        ensures
            res@ == self.bytes(),
    {
        let mut out: Vec<u8> = Vec::new();
        out.push(self.preset);
        extend_bytes(&mut out, self.name.as_slice());
        out.push(self.un1);
        extend_bytes(&mut out, self.tempo.as_slice());
        out.push(self.time_division_switch);
        out.push(self.division);
        out.push(self.note_repeat_switch);
        out.push(self.gate);
        out.push(self.swing);
        out.push(self.un5);
        out.push(self.un6);
        out.push(self.un7);
        out.push(self.un8);
        out.push(self.un9);
        out.push(self.transport);
        assert(out@ =~= self.bytes());
        out
    }

    /// The record whose bytes are `data`.
    #[verifier::spinoff_prover]
    #[verifier::rlimit(40)]
    pub fn from_bytes(data: &[u8]) -> (res: Self)
        requires
            data@.len() == Self::SIZE,
        ensures
            res.bytes() == data@,
    {
        let res = RawPresetSettings {
            preset: data[0],
            name: [data[1], data[2], data[3], data[4], data[5], data[6], data[7], data[8]],
            un1: data[9],
            tempo: [data[10], data[11]],
            time_division_switch: data[12],
            division: data[13],
            note_repeat_switch: data[14],
            gate: data[15],
            swing: data[16],
            un5: data[17],
            un6: data[18],
            un7: data[19],
            un8: data[20],
            un9: data[21],
            transport: data[22],
        };
        assert(res.bytes() =~= data@);
        res
    }
}

/// A stored dial.
#[derive(Debug, Copy, Clone)]
pub struct RawDial {
    pub kind: u8,
    pub channel: u8,
    pub midicc: u8,
    pub min: u8,
    pub max: u8,
    pub midi2din: u8,
    pub msb: u8,
    pub lsb: u8,
    pub value: u8,
}

impl RawDial {
    /// The size of the record in bytes.
    pub const SIZE: usize = 9;

    /// The bytes of the record, fields in declaration order.
    pub open spec fn bytes(&self) -> Seq<u8> {
        seq![self.kind, self.channel, self.midicc, self.min, self.max, self.midi2din, self.msb, self.lsb, self.value]
    }

    /// The bytes of records one after another.
    pub open spec fn seq_bytes(s: Seq<RawDial>) -> Seq<u8>
        decreases s.len(),
    {
        if s.len() == 0 {
            Seq::empty()
        } else {
            Self::seq_bytes(s.drop_last()) + s.last().bytes()
        }
    }

    /// Records one after another take 9 bytes each, record `i` at
    /// `9 * i`.
    pub proof fn lemma_seq_bytes(s: Seq<RawDial>)
        ensures
            Self::seq_bytes(s).len() == 9 * s.len(),
            forall|i: int|
                0 <= i < s.len() ==> Self::seq_bytes(s).subrange(9 * i, 9 * i + 9)
                    == #[trigger] s[i].bytes(),
        decreases s.len(),
    {
        if s.len() > 0 {
            let init = s.drop_last();
            Self::lemma_seq_bytes(init);
            let b = Self::seq_bytes(s);
            assert forall|i: int| 0 <= i < s.len() implies b.subrange(9 * i, 9 * i + 9)
                == #[trigger] s[i].bytes() by {
                if i < init.len() {
                    assert(init[i] == s[i]);
                    assert(b.subrange(9 * i, 9 * i + 9) =~= Self::seq_bytes(init).subrange(
                        9 * i,
                        9 * i + 9,
                    ));
                } else {
                    assert(b.subrange(9 * i, 9 * i + 9) =~= s.last().bytes());
                }
            }
        }
    }

    /// Appends the bytes of records one after another.
    pub fn push_all(out: &mut Vec<u8>, s: &[RawDial])
        ensures
            final(out)@ == old(out)@ + Self::seq_bytes(s@),
    {
        let mut i: usize = 0;
        while i < s.len()
            invariant
                i <= s@.len(),
                out@ == old(out)@ + Self::seq_bytes(s@.take(i as int)),
            decreases s@.len() - i,
        {
            let b = s[i].as_bytes();
            extend_bytes(out, b.as_slice());
            assert(s@.take(i + 1).drop_last() =~= s@.take(i as int));
            assert(out@ =~= old(out)@ + Self::seq_bytes(s@.take(i + 1)));
            i = i + 1;
        }
        assert(s@.take(s@.len() as int) =~= s@);
    }

    /// The bytes of the record, fields in declaration order.
    #[verifier::spinoff_prover]
    #[verifier::rlimit(40)]
    pub fn as_bytes(&self) -> (res: Vec<u8>)
        ensures
            res@ == self.bytes(),
    {
        let mut out: Vec<u8> = Vec::new();
        out.push(self.kind);
        out.push(self.channel);
        out.push(self.midicc);
        out.push(self.min);
        out.push(self.max);
        out.push(self.midi2din);
        out.push(self.msb);
        out.push(self.lsb);
        out.push(self.value);
        assert(out@ =~= self.bytes());
        out
    }

    /// The record whose bytes are `data`.
    #[verifier::spinoff_prover]
    #[verifier::rlimit(40)]
    pub fn from_bytes(data: &[u8]) -> (res: Self)
        requires
            data@.len() == Self::SIZE,
        ensures
            res.bytes() == data@,
    {
        let res = RawDial {
            kind: data[0],
            channel: data[1],
            midicc: data[2],
            min: data[3],
            max: data[4],
            midi2din: data[5],
            msb: data[6],
            lsb: data[7],
            value: data[8],
        };
        assert(res.bytes() =~= data@);
        res
    }
}

/// A stored fader.
#[derive(Debug, Copy, Clone)]
pub struct RawFader {
    pub kind: u8,
    pub channel: u8,
    pub midicc: u8,
    pub min: u8,
    pub max: u8,
    pub midi2din: u8,
}

impl RawFader {
    /// The size of the record in bytes.
    pub const SIZE: usize = 6;

    /// The bytes of the record, fields in declaration order.
    pub open spec fn bytes(&self) -> Seq<u8> {
        seq![self.kind, self.channel, self.midicc, self.min, self.max, self.midi2din]
    }

    /// The bytes of records one after another.
    pub open spec fn seq_bytes(s: Seq<RawFader>) -> Seq<u8>
        decreases s.len(),
    {
        if s.len() == 0 {
            Seq::empty()
        } else {
            Self::seq_bytes(s.drop_last()) + s.last().bytes()
        }
    }

    /// Records one after another take 6 bytes each, record `i` at
    /// `6 * i`.
    pub proof fn lemma_seq_bytes(s: Seq<RawFader>)
        ensures
            Self::seq_bytes(s).len() == 6 * s.len(),
            forall|i: int|
                0 <= i < s.len() ==> Self::seq_bytes(s).subrange(6 * i, 6 * i + 6)
                    == #[trigger] s[i].bytes(),
        decreases s.len(),
    {
        if s.len() > 0 {
            let init = s.drop_last();
            Self::lemma_seq_bytes(init);
            let b = Self::seq_bytes(s);
            assert forall|i: int| 0 <= i < s.len() implies b.subrange(6 * i, 6 * i + 6)
                == #[trigger] s[i].bytes() by {
                if i < init.len() {
                    assert(init[i] == s[i]);
                    assert(b.subrange(6 * i, 6 * i + 6) =~= Self::seq_bytes(init).subrange(
                        6 * i,
                        6 * i + 6,
                    ));
                } else {
                    assert(b.subrange(6 * i, 6 * i + 6) =~= s.last().bytes());
                }
            }
        }
    }

    /// Appends the bytes of records one after another.
    pub fn push_all(out: &mut Vec<u8>, s: &[RawFader])
        ensures
            final(out)@ == old(out)@ + Self::seq_bytes(s@),
    {
        let mut i: usize = 0;
        while i < s.len()
            invariant
                i <= s@.len(),
                out@ == old(out)@ + Self::seq_bytes(s@.take(i as int)),
            decreases s@.len() - i,
        {
            let b = s[i].as_bytes();
            extend_bytes(out, b.as_slice());
            assert(s@.take(i + 1).drop_last() =~= s@.take(i as int));
            assert(out@ =~= old(out)@ + Self::seq_bytes(s@.take(i + 1)));
            i = i + 1;
        }
        assert(s@.take(s@.len() as int) =~= s@);
    }

    /// The bytes of the record, fields in declaration order.
    #[verifier::spinoff_prover]
    #[verifier::rlimit(40)]
    pub fn as_bytes(&self) -> (res: Vec<u8>)
        ensures
            res@ == self.bytes(),
    {
        let mut out: Vec<u8> = Vec::new();
        out.push(self.kind);
        out.push(self.channel);
        out.push(self.midicc);
        out.push(self.min);
        out.push(self.max);
        out.push(self.midi2din);
        assert(out@ =~= self.bytes());
        out
    }

    /// The record whose bytes are `data`.
    #[verifier::spinoff_prover]
    #[verifier::rlimit(40)]
    pub fn from_bytes(data: &[u8]) -> (res: Self)
        requires
            data@.len() == Self::SIZE,
        ensures
            res.bytes() == data@,
    {
        let res = RawFader {
            kind: data[0],
            channel: data[1],
            midicc: data[2],
            min: data[3],
            max: data[4],
            midi2din: data[5],
        };
        assert(res.bytes() =~= data@);
        res
    }
}

/// A stored switch.
#[derive(Debug, Copy, Clone)]
pub struct RawSwitch {
    pub kind: u8,
    pub channel: u8,
    pub midicc: u8,
    pub mode: u8,
    pub prog: u8,
    pub msb: u8,
    pub lsb: u8,
    pub midi2din: u8,
    pub note: u8,
    pub velo: u8,
    pub invert: u8,
    pub key1: u8,
    pub key2: u8,
}

impl RawSwitch {
    /// The size of the record in bytes.
    pub const SIZE: usize = 13;

    /// The bytes of the record, fields in declaration order.
    pub open spec fn bytes(&self) -> Seq<u8> {
        seq![self.kind, self.channel, self.midicc, self.mode, self.prog, self.msb, self.lsb, self.midi2din, self.note, self.velo, self.invert, self.key1, self.key2]
    }

    /// The bytes of records one after another.
    pub open spec fn seq_bytes(s: Seq<RawSwitch>) -> Seq<u8>
        decreases s.len(),
    {
        if s.len() == 0 {
            Seq::empty()
        } else {
            Self::seq_bytes(s.drop_last()) + s.last().bytes()
        }
    }

    /// Records one after another take 13 bytes each, record `i` at
    /// `13 * i`.
    pub proof fn lemma_seq_bytes(s: Seq<RawSwitch>)
        ensures
            Self::seq_bytes(s).len() == 13 * s.len(),
            forall|i: int|
                0 <= i < s.len() ==> Self::seq_bytes(s).subrange(13 * i, 13 * i + 13)
                    == #[trigger] s[i].bytes(),
        decreases s.len(),
    {
        if s.len() > 0 {
            let init = s.drop_last();
            Self::lemma_seq_bytes(init);
            let b = Self::seq_bytes(s);
            assert forall|i: int| 0 <= i < s.len() implies b.subrange(13 * i, 13 * i + 13)
                == #[trigger] s[i].bytes() by {
                if i < init.len() {
                    assert(init[i] == s[i]);
                    assert(b.subrange(13 * i, 13 * i + 13) =~= Self::seq_bytes(init).subrange(
                        13 * i,
                        13 * i + 13,
                    ));
                } else {
                    assert(b.subrange(13 * i, 13 * i + 13) =~= s.last().bytes());
                }
            }
        }
    }

    /// Appends the bytes of records one after another.
    pub fn push_all(out: &mut Vec<u8>, s: &[RawSwitch])
        ensures
            final(out)@ == old(out)@ + Self::seq_bytes(s@),
    {
        let mut i: usize = 0;
        while i < s.len()
            invariant
                i <= s@.len(),
                out@ == old(out)@ + Self::seq_bytes(s@.take(i as int)),
            decreases s@.len() - i,
        {
            let b = s[i].as_bytes();
            extend_bytes(out, b.as_slice());
            assert(s@.take(i + 1).drop_last() =~= s@.take(i as int));
            assert(out@ =~= old(out)@ + Self::seq_bytes(s@.take(i + 1)));
            i = i + 1;
        }
        assert(s@.take(s@.len() as int) =~= s@);
    }

    /// The bytes of the record, fields in declaration order.
    #[verifier::spinoff_prover]
    #[verifier::rlimit(40)]
    pub fn as_bytes(&self) -> (res: Vec<u8>)
        ensures
            res@ == self.bytes(),
    {
        let mut out: Vec<u8> = Vec::new();
        out.push(self.kind);
        out.push(self.channel);
        out.push(self.midicc);
        out.push(self.mode);
        out.push(self.prog);
        out.push(self.msb);
        out.push(self.lsb);
        out.push(self.midi2din);
        out.push(self.note);
        out.push(self.velo);
        out.push(self.invert);
        out.push(self.key1);
        out.push(self.key2);
        assert(out@ =~= self.bytes());
        out
    }

    /// The record whose bytes are `data`.
    #[verifier::spinoff_prover]
    #[verifier::rlimit(40)]
    pub fn from_bytes(data: &[u8]) -> (res: Self)
        requires
            data@.len() == Self::SIZE,
        ensures
            res.bytes() == data@,
    {
        let res = RawSwitch {
            kind: data[0],
            channel: data[1],
            midicc: data[2],
            mode: data[3],
            prog: data[4],
            msb: data[5],
            lsb: data[6],
            midi2din: data[7],
            note: data[8],
            velo: data[9],
            invert: data[10],
            key1: data[11],
            key2: data[12],
        };
        assert(res.bytes() =~= data@);
        res
    }
}

/// A stored pad.
#[derive(Debug, Copy, Clone)]
pub struct RawPad {
    pub kind: u8,
    pub channel: u8,
    pub note: u8,
    pub midi2din: u8,
    pub trigger: u8,
    pub aftertouch: u8,
    pub program: u8,
    pub msb: u8,
    pub lsb: u8,
    pub off_color: u8,
    pub on_color: u8,
}

impl RawPad {
    /// The size of the record in bytes.
    pub const SIZE: usize = 11;

    /// The bytes of the record, fields in declaration order.
    pub open spec fn bytes(&self) -> Seq<u8> {
        seq![self.kind, self.channel, self.note, self.midi2din, self.trigger, self.aftertouch, self.program, self.msb, self.lsb, self.off_color, self.on_color]
    }

    /// The bytes of records one after another.
    pub open spec fn seq_bytes(s: Seq<RawPad>) -> Seq<u8>
        decreases s.len(),
    {
        if s.len() == 0 {
            Seq::empty()
        } else {
            Self::seq_bytes(s.drop_last()) + s.last().bytes()
        }
    }

    /// Records one after another take 11 bytes each, record `i` at
    /// `11 * i`.
    pub proof fn lemma_seq_bytes(s: Seq<RawPad>)
        ensures
            Self::seq_bytes(s).len() == 11 * s.len(),
            forall|i: int|
                0 <= i < s.len() ==> Self::seq_bytes(s).subrange(11 * i, 11 * i + 11)
                    == #[trigger] s[i].bytes(),
        decreases s.len(),
    {
        if s.len() > 0 {
            let init = s.drop_last();
            Self::lemma_seq_bytes(init);
            let b = Self::seq_bytes(s);
            assert forall|i: int| 0 <= i < s.len() implies b.subrange(11 * i, 11 * i + 11)
                == #[trigger] s[i].bytes() by {
                if i < init.len() {
                    assert(init[i] == s[i]);
                    assert(b.subrange(11 * i, 11 * i + 11) =~= Self::seq_bytes(init).subrange(
                        11 * i,
                        11 * i + 11,
                    ));
                } else {
                    assert(b.subrange(11 * i, 11 * i + 11) =~= s.last().bytes());
                }
            }
        }
    }

    /// Appends the bytes of records one after another.
    pub fn push_all(out: &mut Vec<u8>, s: &[RawPad])
        ensures
            final(out)@ == old(out)@ + Self::seq_bytes(s@),
    {
        let mut i: usize = 0;
        while i < s.len()
            invariant
                i <= s@.len(),
                out@ == old(out)@ + Self::seq_bytes(s@.take(i as int)),
            decreases s@.len() - i,
        {
            let b = s[i].as_bytes();
            extend_bytes(out, b.as_slice());
            assert(s@.take(i + 1).drop_last() =~= s@.take(i as int));
            assert(out@ =~= old(out)@ + Self::seq_bytes(s@.take(i + 1)));
            i = i + 1;
        }
        assert(s@.take(s@.len() as int) =~= s@);
    }

    /// The bytes of the record, fields in declaration order.
    #[verifier::spinoff_prover]
    #[verifier::rlimit(40)]
    pub fn as_bytes(&self) -> (res: Vec<u8>)
        ensures
            res@ == self.bytes(),
    {
        let mut out: Vec<u8> = Vec::new();
        out.push(self.kind);
        out.push(self.channel);
        out.push(self.note);
        out.push(self.midi2din);
        out.push(self.trigger);
        out.push(self.aftertouch);
        out.push(self.program);
        out.push(self.msb);
        out.push(self.lsb);
        out.push(self.off_color);
        out.push(self.on_color);
        assert(out@ =~= self.bytes());
        out
    }

    /// The record whose bytes are `data`.
    #[verifier::spinoff_prover]
    #[verifier::rlimit(40)]
    pub fn from_bytes(data: &[u8]) -> (res: Self)
        requires
            data@.len() == Self::SIZE,
        ensures
            res.bytes() == data@,
    {
        let res = RawPad {
            kind: data[0],
            channel: data[1],
            note: data[2],
            midi2din: data[3],
            trigger: data[4],
            aftertouch: data[5],
            program: data[6],
            msb: data[7],
            lsb: data[8],
            off_color: data[9],
            on_color: data[10],
        };
        assert(res.bytes() =~= data@);
        res
    }
}

/// A stored preset: settings, 64 pads, 12 dials, 12 faders, 12 switches and a fixed footer.
#[derive(Debug, Copy, Clone)]
pub struct RawPreset {
    pub settings: RawPresetSettings,
    pub pads: [RawPad; 64],
    pub dials: [RawDial; 12],
    pub faders: [RawFader; 12],
    pub switches: [RawSwitch; 12],
    pub footer_magic: [u8; 12],
}

impl RawPreset {
    /// The size of the record in bytes.
    pub const SIZE: usize = 1075;

    /// The bytes of the record, fields in declaration order.
    pub open spec fn bytes(&self) -> Seq<u8> {
        self.settings.bytes()
            + RawPad::seq_bytes(self.pads@)
            + RawDial::seq_bytes(self.dials@)
            + RawFader::seq_bytes(self.faders@)
            + RawSwitch::seq_bytes(self.switches@)
            + self.footer_magic@
    }

    /// The bytes of the record, fields in declaration order.
    #[verifier::spinoff_prover]
    #[verifier::rlimit(40)]
    pub fn as_bytes(&self) -> (res: Vec<u8>)
        ensures
            res@ == self.bytes(),
    {
        let mut out: Vec<u8> = Vec::new();
        let part = self.settings.as_bytes();
        extend_bytes(&mut out, part.as_slice());
        RawPad::push_all(&mut out, self.pads.as_slice());
        RawDial::push_all(&mut out, self.dials.as_slice());
        RawFader::push_all(&mut out, self.faders.as_slice());
        RawSwitch::push_all(&mut out, self.switches.as_slice());
        extend_bytes(&mut out, self.footer_magic.as_slice());
        assert(out@ =~= self.bytes());
        out
    }

    /// The record whose bytes are `data`.
    #[verifier::spinoff_prover]
    #[verifier::rlimit(40)]
    pub fn from_bytes(data: &[u8]) -> (res: Self)
        requires
            data@.len() == Self::SIZE,
        ensures
            res.bytes() == data@,
    {
        let settings = RawPresetSettings::from_bytes(&data[0..23]);
        let pads = RawPad::array_from_bytes_64(&data[23..727]);
        let dials = RawDial::array_from_bytes_12(&data[727..835]);
        let faders = RawFader::array_from_bytes_12(&data[835..907]);
        let switches = RawSwitch::array_from_bytes_12(&data[907..1063]);
        let res = RawPreset {
            settings,
            pads,
            dials,
            faders,
            switches,
            footer_magic: [data[1063], data[1064], data[1065], data[1066], data[1067], data[1068], data[1069], data[1070], data[1071], data[1072], data[1073], data[1074]],
        };
        assert(res.bytes() =~= data@);
        res
    }
}

/// The global parameters in address order, 0x01 ..= 0x0B.
#[derive(Debug, Copy, Clone)]
pub struct RawGlobal {
    pub common_channel: u8,
    pub lcd_contrast: u8,
    pub tap_average: u8,
    pub tempo_led: u8,
    pub midi_clock: u8,
    pub transport_to_din: u8,
    pub pad_threshold: u8,
    pub _unknown_08: u8,
    pub pad_curve: u8,
    pub pad_gain: u8,
    pub note_display: u8,
}

impl RawGlobal {
    /// The size of the record in bytes.
    pub const SIZE: usize = 11;

    /// The bytes of the record, fields in declaration order.
    pub open spec fn bytes(&self) -> Seq<u8> {
        seq![self.common_channel, self.lcd_contrast, self.tap_average, self.tempo_led, self.midi_clock, self.transport_to_din, self.pad_threshold, self._unknown_08, self.pad_curve, self.pad_gain, self.note_display]
    }

    /// The bytes of the record, fields in declaration order.
    #[verifier::spinoff_prover]
    #[verifier::rlimit(40)]
    pub fn as_bytes(&self) -> (res: Vec<u8>)
        ensures
            res@ == self.bytes(),
    {
        let mut out: Vec<u8> = Vec::new();
        out.push(self.common_channel);
        out.push(self.lcd_contrast);
        out.push(self.tap_average);
        out.push(self.tempo_led);
        out.push(self.midi_clock);
        out.push(self.transport_to_din);
        out.push(self.pad_threshold);
        out.push(self._unknown_08);
        out.push(self.pad_curve);
        out.push(self.pad_gain);
        out.push(self.note_display);
        assert(out@ =~= self.bytes());
        out
    }

    /// The record whose bytes are `data`.
    #[verifier::spinoff_prover]
    #[verifier::rlimit(40)]
    pub fn from_bytes(data: &[u8]) -> (res: Self)
        requires
            data@.len() == Self::SIZE,
        ensures
            res.bytes() == data@,
    {
        let res = RawGlobal {
            common_channel: data[0],
            lcd_contrast: data[1],
            tap_average: data[2],
            tempo_led: data[3],
            midi_clock: data[4],
            transport_to_din: data[5],
            pad_threshold: data[6],
            _unknown_08: data[7],
            pad_curve: data[8],
            pad_gain: data[9],
            note_display: data[10],
        };
        assert(res.bytes() =~= data@);
        res
    }
}

impl RawPad {
    /// 64 records read one after another from `data`.
    pub fn array_from_bytes_64(data: &[u8]) -> (res: [RawPad; 64])
        requires
            data@.len() == 704,
        ensures
            RawPad::seq_bytes(res@) == data@,
    {
        let first = RawPad::from_bytes(&data[0..11]);
        let mut res = [first; 64];
        let mut i: usize = 1;
        while i < 64
            invariant
                1 <= i <= 64,
                data@.len() == 704,
                res@.len() == 64,
                forall|j: int| 0 <= j < i ==> #[trigger] res@[j].bytes() == data@.subrange(11 * j, 11 * j + 11),
            decreases 64 - i,
        {
            let r = RawPad::from_bytes(&data[11 * i..11 * i + 11]);
            res[i] = r;
            i = i + 1;
        }
        proof {
            RawPad::lemma_seq_bytes(res@);
            assert(RawPad::seq_bytes(res@) =~= data@) by {
                assert forall|x: int| 0 <= x < 704 implies RawPad::seq_bytes(res@)[x] == data@[x] by {
                    let j = x / 11;
                    assert(11 * j <= x < 11 * j + 11) by (nonlinear_arith)
                        requires
                            j == x / 11,
                            0 <= x,
                    ;
                    assert(res@[j].bytes() == data@.subrange(11 * j, 11 * j + 11));
                    assert(RawPad::seq_bytes(res@).subrange(11 * j, 11 * j + 11)[x - 11 * j] == RawPad::seq_bytes(res@)[x]);
                    assert(data@.subrange(11 * j, 11 * j + 11)[x - 11 * j] == data@[x]);
                }
            }
        }
        res
    }
}

impl RawDial {
    /// 12 records read one after another from `data`.
    pub fn array_from_bytes_12(data: &[u8]) -> (res: [RawDial; 12])
        requires
            data@.len() == 108,
        ensures
            RawDial::seq_bytes(res@) == data@,
    {
        let first = RawDial::from_bytes(&data[0..9]);
        let mut res = [first; 12];
        let mut i: usize = 1;
        while i < 12
            invariant
                1 <= i <= 12,
                data@.len() == 108,
                res@.len() == 12,
                forall|j: int| 0 <= j < i ==> #[trigger] res@[j].bytes() == data@.subrange(9 * j, 9 * j + 9),
            decreases 12 - i,
        {
            let r = RawDial::from_bytes(&data[9 * i..9 * i + 9]);
            res[i] = r;
            i = i + 1;
        }
        proof {
            RawDial::lemma_seq_bytes(res@);
            assert(RawDial::seq_bytes(res@) =~= data@) by {
                assert forall|x: int| 0 <= x < 108 implies RawDial::seq_bytes(res@)[x] == data@[x] by {
                    let j = x / 9;
                    assert(9 * j <= x < 9 * j + 9) by (nonlinear_arith)
                        requires
                            j == x / 9,
                            0 <= x,
                    ;
                    assert(res@[j].bytes() == data@.subrange(9 * j, 9 * j + 9));
                    assert(RawDial::seq_bytes(res@).subrange(9 * j, 9 * j + 9)[x - 9 * j] == RawDial::seq_bytes(res@)[x]);
                    assert(data@.subrange(9 * j, 9 * j + 9)[x - 9 * j] == data@[x]);
                }
            }
        }
        res
    }
}

impl RawFader {
    /// 12 records read one after another from `data`.
    pub fn array_from_bytes_12(data: &[u8]) -> (res: [RawFader; 12])
        requires
            data@.len() == 72,
        ensures
            RawFader::seq_bytes(res@) == data@,
    {
        let first = RawFader::from_bytes(&data[0..6]);
        let mut res = [first; 12];
        let mut i: usize = 1;
        while i < 12
            invariant
                1 <= i <= 12,
                data@.len() == 72,
                res@.len() == 12,
                forall|j: int| 0 <= j < i ==> #[trigger] res@[j].bytes() == data@.subrange(6 * j, 6 * j + 6),
            decreases 12 - i,
        {
            let r = RawFader::from_bytes(&data[6 * i..6 * i + 6]);
            res[i] = r;
            i = i + 1;
        }
        proof {
            RawFader::lemma_seq_bytes(res@);
            assert(RawFader::seq_bytes(res@) =~= data@) by {
                assert forall|x: int| 0 <= x < 72 implies RawFader::seq_bytes(res@)[x] == data@[x] by {
                    let j = x / 6;
                    assert(6 * j <= x < 6 * j + 6) by (nonlinear_arith)
                        requires
                            j == x / 6,
                            0 <= x,
                    ;
                    assert(res@[j].bytes() == data@.subrange(6 * j, 6 * j + 6));
                    assert(RawFader::seq_bytes(res@).subrange(6 * j, 6 * j + 6)[x - 6 * j] == RawFader::seq_bytes(res@)[x]);
                    assert(data@.subrange(6 * j, 6 * j + 6)[x - 6 * j] == data@[x]);
                }
            }
        }
        res
    }
}

impl RawSwitch {
    /// 12 records read one after another from `data`.
    pub fn array_from_bytes_12(data: &[u8]) -> (res: [RawSwitch; 12])
        requires
            data@.len() == 156,
        ensures
            RawSwitch::seq_bytes(res@) == data@,
    {
        let first = RawSwitch::from_bytes(&data[0..13]);
        let mut res = [first; 12];
        let mut i: usize = 1;
        while i < 12
            invariant
                1 <= i <= 12,
                data@.len() == 156,
                res@.len() == 12,
                forall|j: int| 0 <= j < i ==> #[trigger] res@[j].bytes() == data@.subrange(13 * j, 13 * j + 13),
            decreases 12 - i,
        {
            let r = RawSwitch::from_bytes(&data[13 * i..13 * i + 13]);
            res[i] = r;
            i = i + 1;
        }
        proof {
            RawSwitch::lemma_seq_bytes(res@);
            assert(RawSwitch::seq_bytes(res@) =~= data@) by {
                assert forall|x: int| 0 <= x < 156 implies RawSwitch::seq_bytes(res@)[x] == data@[x] by {
                    let j = x / 13;
                    assert(13 * j <= x < 13 * j + 13) by (nonlinear_arith)
                        requires
                            j == x / 13,
                            0 <= x,
                    ;
                    assert(res@[j].bytes() == data@.subrange(13 * j, 13 * j + 13));
                    assert(RawSwitch::seq_bytes(res@).subrange(13 * j, 13 * j + 13)[x - 13 * j] == RawSwitch::seq_bytes(res@)[x]);
                    assert(data@.subrange(13 * j, 13 * j + 13)[x - 13 * j] == data@[x]);
                }
            }
        }
        res
    }
}
/// The 64 stored pads.
#[derive(Copy, Clone)]
pub struct RawPads(pub [RawPad; 64]);

/// The 12 stored dials.
#[derive(Copy, Clone)]
pub struct RawDials(pub [RawDial; 12]);

/// The 12 stored faders.
#[derive(Copy, Clone)]
pub struct RawFaders(pub [RawFader; 12]);

/// The 12 stored switches.
#[derive(Copy, Clone)]
pub struct RawSwitches(pub [RawSwitch; 12]);

impl Default for RawGlobal {
    /// Every parameter zero.
    fn default() -> (res: Self)
        ensures
            res.bytes() == Seq::new(11, |i: int| 0u8),
    {
        let res = RawGlobal {
            common_channel: 0,
            lcd_contrast: 0,
            tap_average: 0,
            tempo_led: 0,
            midi_clock: 0,
            transport_to_din: 0,
            pad_threshold: 0,
            _unknown_08: 0,
            pad_curve: 0,
            pad_gain: 0,
            note_display: 0,
        };
        assert(res.bytes() =~= Seq::new(11, |i: int| 0u8));
        res
    }
}

impl RawHeader {
    /// The header of a preset write: length 1075 as two 7-bit bytes.
    pub fn write_preset() -> (res: Self)
        ensures
            res.mfg_id == SYSEX_MANUFACTURER_ID,
            res._unknown == 0,
            res.device_id == DEVICE_ID,
            res.cmd == DeviceCommandId::WritePreset.code(),
            res.length@ == seq![0x08u8, 0x33u8],
    {
        RawHeader {
            mfg_id: SYSEX_MANUFACTURER_ID,
            _unknown: 0,
            device_id: DEVICE_ID,
            cmd: DeviceCommandId::WritePreset.as_u8(),
            length: [0x08, 0x33],
        }
    }

    /// The header of a preset request: length 1.
    pub fn dump_preset() -> (res: Self)
        ensures
            res.mfg_id == SYSEX_MANUFACTURER_ID,
            res._unknown == 0,
            res.device_id == DEVICE_ID,
            res.cmd == DeviceCommandId::DumpPreset.code(),
            res.length@ == seq![0x00u8, 0x01u8],
    {
        RawHeader {
            mfg_id: SYSEX_MANUFACTURER_ID,
            _unknown: 0,
            device_id: DEVICE_ID,
            cmd: DeviceCommandId::DumpPreset.as_u8(),
            length: [0x00, 0x01],
        }
    }
}

impl RawGlobal {
    /// The parameters with their addresses, in address order.
    fn param_pairs(&self) -> (res: [(u8, u8); 11])
        ensures
            forall|i: int| 0 <= i < 11 ==> #[trigger] res@[i] == ((i + 1) as u8, self.bytes()[i]),
    {
        [
            (0x01, self.common_channel),
            (0x02, self.lcd_contrast),
            (0x03, self.tap_average),
            (0x04, self.tempo_led),
            (0x05, self.midi_clock),
            (0x06, self.transport_to_din),
            (0x07, self.pad_threshold),
            (0x08, self._unknown_08),
            (0x09, self.pad_curve),
            (0x0A, self.pad_gain),
            (0x0B, self.note_display),
        ]
    }

    /// One message per parameter, in address order, each writing the
    /// parameter's value to its address.
    pub fn global_send_messages(&self) -> (res: Vec<Vec<u8>>)
        ensures
            res@.len() == 11,
            forall|i: int| 0 <= i < 11 ==> (#[trigger] res@[i])@ == global_param_message((i + 1) as u8, self.bytes()[i]),
    {
        let pairs = self.param_pairs();
        let mut res: Vec<Vec<u8>> = Vec::new();
        let mut i: usize = 0;
        while i < 11
            invariant
                i <= 11,
                res@.len() == i,
                forall|j: int| 0 <= j < 11 ==> #[trigger] pairs@[j] == ((j + 1) as u8, self.bytes()[j]),
                forall|j: int| 0 <= j < i ==> (#[trigger] res@[j])@ == global_param_message((j + 1) as u8, self.bytes()[j]),
            decreases 11 - i,
        {
            let (addr, value) = pairs[i];
            res.push(Self::global_write_param(addr, value));
            i = i + 1;
        }
        res
    }

    /// The message that writes `value` to address `addr`.
    fn global_write_param(addr: u8, value: u8) -> (res: Vec<u8>)
        ensures
            res@ == global_param_message(addr, value),
    {
        write_global_param_to_device(addr, value)
    }
}

/// The conversion goes through the impl below, whose contract states the
/// result.
impl<'a, C: Into<u8> + Copy> vstd::std_specs::convert::FromSpecImpl<&'a DeviceHeader<C>> for RawHeader {
    open spec fn obeys_from_spec() -> bool {
        false
    }

    closed spec fn from_spec(value: &'a DeviceHeader<C>) -> Self {
        arbitrary()
    }
}

impl<'a, C: Into<u8> + Copy> From<&'a DeviceHeader<C>> for RawHeader {
    /// The header of this device with the command's byte and the length in
    /// little-endian order.
    fn from(value: &'a DeviceHeader<C>) -> (res: Self)
        ensures
            res.mfg_id == SYSEX_MANUFACTURER_ID,
            res._unknown == 0,
            res.device_id == DEVICE_ID,
            C::obeys_into_spec() ==> res.cmd == value.cmd.into_spec(),
            res.length@ == seq![(value.message_length % 256) as u8, (value.message_length / 256) as u8],
    {
        let len = value.message_length;
        let low = (len & 0xff) as u8;
        let high = (len >> 8) as u8;
        assert((len & 0xff) == len % 256) by (bit_vector);
        assert((len >> 8) == len / 256) by (bit_vector);
        let length = [low, high];
        assert(length@ =~= seq![(len % 256) as u8, (len / 256) as u8]);
        RawHeader {
            mfg_id: SYSEX_MANUFACTURER_ID,
            _unknown: 0,
            device_id: DEVICE_ID,
            cmd: value.cmd.into(),
            length,
        }
    }
}

impl RawPad {
    /// Records with the same bytes are the same record.
    pub proof fn lemma_bytes_injective(a: Self, b: Self)
        requires
            a.bytes() == b.bytes(),
        ensures
            a == b,
    {
        assert(a.bytes()[0] == b.bytes()[0]);
        assert(a.bytes()[1] == b.bytes()[1]);
        assert(a.bytes()[2] == b.bytes()[2]);
        assert(a.bytes()[3] == b.bytes()[3]);
        assert(a.bytes()[4] == b.bytes()[4]);
        assert(a.bytes()[5] == b.bytes()[5]);
        assert(a.bytes()[6] == b.bytes()[6]);
        assert(a.bytes()[7] == b.bytes()[7]);
        assert(a.bytes()[8] == b.bytes()[8]);
        assert(a.bytes()[9] == b.bytes()[9]);
        assert(a.bytes()[10] == b.bytes()[10]);
    }

    /// Sequences of records with the same bytes are the same sequence.
    pub proof fn lemma_seq_bytes_injective(a: Seq<Self>, b: Seq<Self>)
        requires
            a.len() == b.len(),
            Self::seq_bytes(a) == Self::seq_bytes(b),
        ensures
            a == b,
    {
        Self::lemma_seq_bytes(a);
        Self::lemma_seq_bytes(b);
        assert forall|i: int| 0 <= i < a.len() implies a[i] == b[i] by {
            assert(a[i].bytes() == b[i].bytes());
            Self::lemma_bytes_injective(a[i], b[i]);
        }
        assert(a =~= b);
    }
}

impl RawDial {
    /// Records with the same bytes are the same record.
    pub proof fn lemma_bytes_injective(a: Self, b: Self)
        requires
            a.bytes() == b.bytes(),
        ensures
            a == b,
    {
        assert(a.bytes()[0] == b.bytes()[0]);
        assert(a.bytes()[1] == b.bytes()[1]);
        assert(a.bytes()[2] == b.bytes()[2]);
        assert(a.bytes()[3] == b.bytes()[3]);
        assert(a.bytes()[4] == b.bytes()[4]);
        assert(a.bytes()[5] == b.bytes()[5]);
        assert(a.bytes()[6] == b.bytes()[6]);
        assert(a.bytes()[7] == b.bytes()[7]);
        assert(a.bytes()[8] == b.bytes()[8]);
    }

    /// Sequences of records with the same bytes are the same sequence.
    pub proof fn lemma_seq_bytes_injective(a: Seq<Self>, b: Seq<Self>)
        requires
            a.len() == b.len(),
            Self::seq_bytes(a) == Self::seq_bytes(b),
        ensures
            a == b,
    {
        Self::lemma_seq_bytes(a);
        Self::lemma_seq_bytes(b);
        assert forall|i: int| 0 <= i < a.len() implies a[i] == b[i] by {
            assert(a[i].bytes() == b[i].bytes());
            Self::lemma_bytes_injective(a[i], b[i]);
        }
        assert(a =~= b);
    }
}

impl RawFader {
    /// Records with the same bytes are the same record.
    pub proof fn lemma_bytes_injective(a: Self, b: Self)
        requires
            a.bytes() == b.bytes(),
        ensures
            a == b,
    {
        assert(a.bytes()[0] == b.bytes()[0]);
        assert(a.bytes()[1] == b.bytes()[1]);
        assert(a.bytes()[2] == b.bytes()[2]);
        assert(a.bytes()[3] == b.bytes()[3]);
        assert(a.bytes()[4] == b.bytes()[4]);
        assert(a.bytes()[5] == b.bytes()[5]);
    }

    /// Sequences of records with the same bytes are the same sequence.
    pub proof fn lemma_seq_bytes_injective(a: Seq<Self>, b: Seq<Self>)
        requires
            a.len() == b.len(),
            Self::seq_bytes(a) == Self::seq_bytes(b),
        ensures
            a == b,
    {
        Self::lemma_seq_bytes(a);
        Self::lemma_seq_bytes(b);
        assert forall|i: int| 0 <= i < a.len() implies a[i] == b[i] by {
            assert(a[i].bytes() == b[i].bytes());
            Self::lemma_bytes_injective(a[i], b[i]);
        }
        assert(a =~= b);
    }
}

impl RawSwitch {
    /// Records with the same bytes are the same record.
    pub proof fn lemma_bytes_injective(a: Self, b: Self)
        requires
            a.bytes() == b.bytes(),
        ensures
            a == b,
    {
        assert(a.bytes()[0] == b.bytes()[0]);
        assert(a.bytes()[1] == b.bytes()[1]);
        assert(a.bytes()[2] == b.bytes()[2]);
        assert(a.bytes()[3] == b.bytes()[3]);
        assert(a.bytes()[4] == b.bytes()[4]);
        assert(a.bytes()[5] == b.bytes()[5]);
        assert(a.bytes()[6] == b.bytes()[6]);
        assert(a.bytes()[7] == b.bytes()[7]);
        assert(a.bytes()[8] == b.bytes()[8]);
        assert(a.bytes()[9] == b.bytes()[9]);
        assert(a.bytes()[10] == b.bytes()[10]);
        assert(a.bytes()[11] == b.bytes()[11]);
        assert(a.bytes()[12] == b.bytes()[12]);
    }

    /// Sequences of records with the same bytes are the same sequence.
    pub proof fn lemma_seq_bytes_injective(a: Seq<Self>, b: Seq<Self>)
        requires
            a.len() == b.len(),
            Self::seq_bytes(a) == Self::seq_bytes(b),
        ensures
            a == b,
    {
        Self::lemma_seq_bytes(a);
        Self::lemma_seq_bytes(b);
        assert forall|i: int| 0 <= i < a.len() implies a[i] == b[i] by {
            assert(a[i].bytes() == b[i].bytes());
            Self::lemma_bytes_injective(a[i], b[i]);
        }
        assert(a =~= b);
    }
}

impl RawPresetSettings {
    /// Records with the same bytes are the same record.
    pub proof fn lemma_bytes_injective(a: Self, b: Self)
        requires
            a.bytes() == b.bytes(),
        ensures
            a == b,
    {
        assert(a.bytes()[0] == a.preset && b.bytes()[0] == b.preset);
        assert(a.bytes()[9] == a.un1 && b.bytes()[9] == b.un1);
        assert(a.bytes()[12] == a.time_division_switch && b.bytes()[12] == b.time_division_switch);
        assert(a.bytes()[13] == a.division && b.bytes()[13] == b.division);
        assert(a.bytes()[14] == a.note_repeat_switch && b.bytes()[14] == b.note_repeat_switch);
        assert(a.bytes()[15] == a.gate && b.bytes()[15] == b.gate);
        assert(a.bytes()[16] == a.swing && b.bytes()[16] == b.swing);
        assert(a.bytes()[17] == a.un5 && b.bytes()[17] == b.un5);
        assert(a.bytes()[18] == a.un6 && b.bytes()[18] == b.un6);
        assert(a.bytes()[19] == a.un7 && b.bytes()[19] == b.un7);
        assert(a.bytes()[20] == a.un8 && b.bytes()[20] == b.un8);
        assert(a.bytes()[21] == a.un9 && b.bytes()[21] == b.un9);
        assert(a.bytes()[22] == a.transport && b.bytes()[22] == b.transport);
        assert(a.bytes().subrange(1, 9) =~= a.name@ && b.bytes().subrange(1, 9) =~= b.name@);
        assert(a.name =~= b.name);
        assert(a.bytes().subrange(10, 12) =~= a.tempo@ && b.bytes().subrange(10, 12) =~= b.tempo@);
        assert(a.tempo =~= b.tempo);
    }
}

impl RawPreset {
    /// Records with the same bytes are the same record: a stored preset is
    /// determined by its bytes.
    #[verifier::spinoff_prover]
    #[verifier::rlimit(40)]
    pub proof fn lemma_bytes_injective(a: Self, b: Self)
        requires
            a.bytes() == b.bytes(),
        ensures
            a == b,
    {
        RawPad::lemma_seq_bytes(a.pads@);
        RawPad::lemma_seq_bytes(b.pads@);
        RawDial::lemma_seq_bytes(a.dials@);
        RawDial::lemma_seq_bytes(b.dials@);
        RawFader::lemma_seq_bytes(a.faders@);
        RawFader::lemma_seq_bytes(b.faders@);
        RawSwitch::lemma_seq_bytes(a.switches@);
        RawSwitch::lemma_seq_bytes(b.switches@);
        let x = a.bytes();
        assert(x.subrange(0, 23) =~= a.settings.bytes() && x.subrange(0, 23) =~= b.settings.bytes());
        RawPresetSettings::lemma_bytes_injective(a.settings, b.settings);
        assert(x.subrange(23, 727) =~= RawPad::seq_bytes(a.pads@));
        assert(x.subrange(23, 727) =~= RawPad::seq_bytes(b.pads@));
        RawPad::lemma_seq_bytes_injective(a.pads@, b.pads@);
        assert(a.pads =~= b.pads);
        assert(x.subrange(727, 835) =~= RawDial::seq_bytes(a.dials@));
        assert(x.subrange(727, 835) =~= RawDial::seq_bytes(b.dials@));
        RawDial::lemma_seq_bytes_injective(a.dials@, b.dials@);
        assert(a.dials =~= b.dials);
        assert(x.subrange(835, 907) =~= RawFader::seq_bytes(a.faders@));
        assert(x.subrange(835, 907) =~= RawFader::seq_bytes(b.faders@));
        RawFader::lemma_seq_bytes_injective(a.faders@, b.faders@);
        assert(a.faders =~= b.faders);
        assert(x.subrange(907, 1063) =~= RawSwitch::seq_bytes(a.switches@));
        assert(x.subrange(907, 1063) =~= RawSwitch::seq_bytes(b.switches@));
        RawSwitch::lemma_seq_bytes_injective(a.switches@, b.switches@);
        assert(a.switches =~= b.switches);
        assert(x.subrange(1063, 1075) =~= a.footer_magic@ && x.subrange(1063, 1075) =~= b.footer_magic@);
        assert(a.footer_magic =~= b.footer_magic);
    }
}

} // verus!
