//! Live editing: every parameter of a program is addressed by an id and a
//! sub id and sent in a parameter change message of its own.

use vstd::prelude::*;

use crate::manufacturer::korg::r3::KorgR3Message;
use crate::manufacturer::korg::r3::carries;
use crate::manufacturer::korg::r3::frame_payload;
use crate::manufacturer::korg::r3::lemma_parameter_change_round_trip;
use crate::manufacturer::korg::r3::parameter_change_bytes;
use crate::manufacturer::korg::r3::parameter_change_message;
use crate::manufacturer::korg::r3::raw::RawParameterChange;
use crate::manufacturer::korg::r3::wrappers::Arpeggio;
use crate::manufacturer::korg::r3::wrappers::MasterFx;
use crate::manufacturer::korg::r3::wrappers::Vocoder;
use crate::manufacturer::korg::r3::wrappers::Osc1;
use crate::manufacturer::korg::r3::wrappers::Osc2;
use crate::manufacturer::korg::r3::wrappers::Mixer;
use crate::manufacturer::korg::r3::wrappers::Filter;
use crate::manufacturer::korg::r3::wrappers::Amp;
use crate::manufacturer::korg::r3::wrappers::Eg;
use crate::manufacturer::korg::r3::wrappers::Lfo;
use crate::manufacturer::korg::r3::wrappers::Patch;
use crate::manufacturer::korg::r3::wrappers::InsertFx;
use crate::manufacturer::korg::r3::wrappers::MotionSeq;
use crate::manufacturer::korg::r3::wrappers::ArpResolution;
use crate::manufacturer::korg::r3::wrappers::ArpTimbre;
use crate::manufacturer::korg::r3::wrappers::ArpType;
use crate::manufacturer::korg::r3::wrappers::BendRange12;
use crate::manufacturer::korg::r3::wrappers::Category;
use crate::manufacturer::korg::r3::wrappers::Centered63;
use crate::manufacturer::korg::r3::wrappers::Detune50;
use crate::manufacturer::korg::r3::wrappers::Dwgs;
use crate::manufacturer::korg::r3::wrappers::EqGain30;
use crate::manufacturer::korg::r3::wrappers::Filter2Type;
use crate::manufacturer::korg::r3::wrappers::FilterRouting;
use crate::manufacturer::korg::r3::wrappers::FxParam;
use crate::manufacturer::korg::r3::wrappers::FxType;
use crate::manufacturer::korg::r3::wrappers::GateTime;
use crate::manufacturer::korg::r3::wrappers::KnobAssign;
use crate::manufacturer::korg::r3::wrappers::LfoKeySync;
use crate::manufacturer::korg::r3::wrappers::MotionSeqResolution;
use crate::manufacturer::korg::r3::wrappers::MotionSeqType;
use crate::manufacturer::korg::r3::wrappers::Osc1Wave;
use crate::manufacturer::korg::r3::wrappers::Osc2Mod;
use crate::manufacturer::korg::r3::wrappers::Osc2Wave;
use crate::manufacturer::korg::r3::wrappers::OscMod;
use crate::manufacturer::korg::r3::wrappers::Pan;
use crate::manufacturer::korg::r3::wrappers::PatchDest;
use crate::manufacturer::korg::r3::wrappers::PatchSource;
use crate::manufacturer::korg::r3::wrappers::Program;
use crate::manufacturer::korg::r3::wrappers::Semitone24;
use crate::manufacturer::korg::r3::wrappers::SyncNote;
use crate::manufacturer::korg::r3::wrappers::Swing50;
use crate::manufacturer::korg::r3::wrappers::Tempo;
use crate::manufacturer::korg::r3::wrappers::Timbre;
use crate::manufacturer::korg::r3::wrappers::Timbre2MidiCh;
use crate::manufacturer::korg::r3::wrappers::Transpose48;
use crate::manufacturer::korg::r3::wrappers::U7;
use crate::manufacturer::korg::r3::wrappers::UnisonDetune;
use crate::manufacturer::korg::r3::wrappers::UnisonVoice;
use crate::manufacturer::korg::r3::wrappers::VoiceAssign;
use crate::manufacturer::korg::r3::wrappers::VoiceMode;
use crate::manufacturer::korg::r3::wrappers::WaveShape;
use crate::manufacturer::korg::r3::wrappers::WaveShapePosition;
use crate::music::theory::clamp_int;
use crate::sysex::unpack_u14;
use crate::sysex::unpacked_u14;

verus! {

/// The parameters outside the two timbres.
pub const GLOBAL_PARAMS: usize = 98;

/// The parameters of one timbre.
pub const TIMBRE_PARAMS: usize = 142;

/// The parameters of a program: the global ones, then those of timbre 1,
/// then those of timbre 2.
pub const PROGRAM_PARAMS: usize = 382;

/// Where a parameter lives: its id and sub id.
#[derive(Clone, Copy, Debug, PartialEq, Eq, Structural)]
pub struct ParamAddr {
    pub id: u16,
    pub sub: u16,
}

impl ParamAddr {
    pub fn new(id: u16, sub: u16) -> (res: Self)
        ensures
            res == (ParamAddr { id, sub }),
    {
        Self { id, sub }
    }
}

/// A parameter and the value it is set to.
#[derive(Clone, Copy, Debug, PartialEq, Eq, Structural)]
pub struct LiveParam {
    pub addr: ParamAddr,
    pub value: u16,
}

impl LiveParam {
    /// The parameter change message that sets the parameter on `channel`.
    pub fn to_sysex(&self, channel: u8) -> (res: Vec<u8>)
        ensures
            res@ == parameter_change_bytes(channel, self.addr.id, self.addr.sub, self.value),
    {
        parameter_change_message(channel, self.addr.id, self.addr.sub, self.value)
    }
}

/// How a parameter's value is sent and how a received value is stored.
#[derive(Clone, Copy, Debug, PartialEq, Eq, Structural)]
pub enum ParamKind {
    /// A value 0 ..= `max`; a larger byte is saturated.
    Unsigned(u8),
    /// A value -`h` ..= `h` sent with 64 added; a byte out of range is saturated.
    Signed(u8),
    /// A pan position -63 ..= 63 sent with 64 added; 0 counts as 1.
    Pan,
    /// A tempo 20 ..= 300; 0 counts as 120, other values are saturated.
    Tempo,
    /// A switch sent as 0 or 1; any value but 0 turns it on.
    Flag,
    /// A byte sent as it is.
    Byte,
    /// A byte of which only the bits in the mask are kept.
    Masked(u8),
    /// One bit of a byte, sent as 0 or 1; any value but 0 sets it.
    Bit,
    /// One of `n` choices sent by number; an unknown number picks the first.
    Choice(u8),
    /// The MIDI channel of timbre 2: 0 ..= 15, or 16 for the global channel,
    /// which larger values also pick.
    MidiChannel,
}

/// The value that a parameter of kind `kind` sends after `v` was received
/// for it; only the low byte of `v` counts, but for tempos.
pub open spec fn stored(kind: ParamKind, v: u16) -> u16 {
    let b = v as u8;
    match kind {
        ParamKind::Unsigned(m) => clamp_int(b as int, 0, m as int) as u16,
        ParamKind::Signed(h) => (clamp_int(b - 64, -(h as int), h as int) + 64) as u16,
        ParamKind::Pan => (clamp_int((if b < 1 { 1 } else { b as int }) - 64, -63, 63) + 64) as u16,
        ParamKind::Tempo => clamp_int(if v == 0 { 120 } else { v as int }, 20, 300) as u16,
        ParamKind::Flag => if v != 0 { 1 } else { 0 },
        ParamKind::Byte => b as u16,
        ParamKind::Masked(m) => (b & m) as u16,
        ParamKind::Bit => if v != 0 { 1 } else { 0 },
        ParamKind::Choice(n) => if b < n { b as u16 } else { 0 },
        ParamKind::MidiChannel => if b < 16 { b as u16 } else { 16 },
    }
}

/// The values that a parameter of kind `kind` can send.
pub open spec fn in_range(kind: ParamKind, v: u16) -> bool {
    match kind {
        ParamKind::Unsigned(m) => v <= m,
        ParamKind::Signed(h) => 64 - h <= v <= 64 + h && v <= 255,
        ParamKind::Pan => 1 <= v <= 127,
        ParamKind::Tempo => 20 <= v <= 300,
        ParamKind::Flag => v <= 1,
        ParamKind::Byte => v <= 255,
        ParamKind::Masked(m) => v <= 255 && (v as u8) & m == v as u8,
        ParamKind::Bit => v <= 1,
        ParamKind::Choice(n) => v < n,
        ParamKind::MidiChannel => v <= 16,
    }
}

/// A value that a parameter can send is stored as that very value: what is
/// sent for a parameter and received back sets the parameter to what it was.
pub proof fn lemma_stored_read_back(kind: ParamKind, v: u16)
    requires
        in_range(kind, v),
    ensures
        stored(kind, v) == v,
{
    assert(v <= 300);
    if v <= 255 {
        assert((v as u8) as u16 == v) by (bit_vector)
            requires
                v <= 255,
        ;
    }
}

/// Setting or clearing a bit reads back as 1 or 0 and keeps the other
/// bits.
proof fn lemma_bit_write(s: u8, bit: u8)
    requires
        bit < 8,
    ensures
        ((s | (1u8 << bit)) >> bit) & 1u8 == 1u8,
        ((s & !(1u8 << bit)) >> bit) & 1u8 == 0u8,
        (s | (1u8 << bit)) & !(1u8 << bit) == s & !(1u8 << bit),
        (s & !(1u8 << bit)) & !(1u8 << bit) == s & !(1u8 << bit),
{
    assert((s | (1u8 << bit)) & !(1u8 << bit) == s & !(1u8 << bit)) by (bit_vector);
    assert((s & !(1u8 << bit)) & !(1u8 << bit) == s & !(1u8 << bit)) by (bit_vector);
    assert(((s | (1u8 << bit)) >> bit) & 1u8 == 1u8) by (bit_vector)
        requires
            bit < 8,
    ;
    assert(((s & !(1u8 << bit)) >> bit) & 1u8 == 0u8) by (bit_vector)
        requires
            bit < 8,
    ;
}

/// A bit read from a byte is 0 or 1.
proof fn lemma_bit_read(s: u8)
    ensures
        forall|b: u8| #[trigger] ((s >> b) & 1u8) <= 1u8,
{
    assert(forall|b: u8| #[trigger] ((s >> b) & 1u8) <= 1u8) by (bit_vector);
}

/// The id offset of a timbre block from the timbre's base id.
pub open spec fn block_offset(block: u8) -> u16 {
    if block == 0 {
        0
    } else if block == 1 {
        1
    } else if block == 2 {
        3
    } else {
        4
    }
}

/// The address of global parameter `k`.
pub open spec fn global_addr(k: usize) -> ParamAddr {
    match k {
        0 => ParamAddr { id: 0x00, sub: 0x19 },
        1 => ParamAddr { id: 0x00, sub: 0x18 },
        2 => ParamAddr { id: 0x00, sub: 0x14 },
        3 => ParamAddr { id: 0x00, sub: 0x15 },
        4 => ParamAddr { id: 0x00, sub: 0x16 },
        5 => ParamAddr { id: 0x00, sub: 0x17 },
        6 => ParamAddr { id: 0x00, sub: 0x1A },
        7 => ParamAddr { id: 0x00, sub: 0x1B },
        8 => ParamAddr { id: 0x00, sub: 0x1C },
        9 => ParamAddr { id: 0x60, sub: 0x00 },
        10 => ParamAddr { id: 0x60, sub: 0x01 },
        11 => ParamAddr { id: 0x60, sub: 0x02 },
        12 => ParamAddr { id: 0x61, sub: 0x00 },
        13 => ParamAddr { id: 0x61, sub: 0x01 },
        14 => ParamAddr { id: 0x61, sub: 0x02 },
        15 => ParamAddr { id: 0x61, sub: 0x03 },
        16 => ParamAddr { id: 0x61, sub: 0x04 },
        17 => ParamAddr { id: 0x61, sub: 0x05 },
        18 => ParamAddr { id: 0x61, sub: 0x06 },
        19 => ParamAddr { id: 0x61, sub: 0x10 },
        20 => ParamAddr { id: 0x61, sub: 0x11 },
        21 => ParamAddr { id: 0x61, sub: 0x12 },
        22 => ParamAddr { id: 0x61, sub: 0x13 },
        23 => ParamAddr { id: 0x61, sub: 0x14 },
        24 => ParamAddr { id: 0x61, sub: 0x15 },
        25 => ParamAddr { id: 0x61, sub: 0x16 },
        26 => ParamAddr { id: 0x61, sub: 0x17 },
        27 => ParamAddr { id: 0x50, sub: 0x01 },
        28 => ParamAddr { id: 0x50, sub: 0x02 },
        29 => ParamAddr { id: 0x51, sub: 0x00 },
        30 => ParamAddr { id: 0x51, sub: 0x01 },
        31 => ParamAddr { id: 0x51, sub: 0x02 },
        32 => ParamAddr { id: 0x51, sub: 0x03 },
        33 => ParamAddr { id: 0x51, sub: 0x04 },
        34 => ParamAddr { id: 0x51, sub: 0x05 },
        35 => ParamAddr { id: 0x51, sub: 0x06 },
        36 => ParamAddr { id: 0x51, sub: 0x07 },
        37 => ParamAddr { id: 0x51, sub: 0x08 },
        38 => ParamAddr { id: 0x51, sub: 0x09 },
        39 => ParamAddr { id: 0x51, sub: 0x0A },
        40 => ParamAddr { id: 0x51, sub: 0x0B },
        41 => ParamAddr { id: 0x51, sub: 0x0C },
        42 => ParamAddr { id: 0x51, sub: 0x0D },
        43 => ParamAddr { id: 0x51, sub: 0x0E },
        44 => ParamAddr { id: 0x51, sub: 0x0F },
        45 => ParamAddr { id: 0x51, sub: 0x10 },
        46 => ParamAddr { id: 0x51, sub: 0x11 },
        47 => ParamAddr { id: 0x51, sub: 0x12 },
        48 => ParamAddr { id: 0x51, sub: 0x13 },
        49 => ParamAddr { id: 0x40, sub: 0x00 },
        50 => ParamAddr { id: 0x40, sub: 0x05 },
        51 => ParamAddr { id: 0x40, sub: 0x04 },
        52 => ParamAddr { id: 0x40, sub: 0x03 },
        53 => ParamAddr { id: 0x40, sub: 0x01 },
        54 => ParamAddr { id: 0x40, sub: 0x06 },
        55 => ParamAddr { id: 0x40, sub: 0x07 },
        56 => ParamAddr { id: 0x40, sub: 0x08 },
        57 => ParamAddr { id: 0x40, sub: 0x09 },
        58 => ParamAddr { id: 0x40, sub: 0x0A },
        59 => ParamAddr { id: 0x40, sub: 0x0B },
        60 => ParamAddr { id: 0x40, sub: 0x0C },
        61 => ParamAddr { id: 0x41, sub: 0x00 },
        62 => ParamAddr { id: 0x41, sub: 0x01 },
        63 => ParamAddr { id: 0x41, sub: 0x02 },
        64 => ParamAddr { id: 0x41, sub: 0x03 },
        65 => ParamAddr { id: 0x41, sub: 0x04 },
        66 => ParamAddr { id: 0x41, sub: 0x05 },
        67 => ParamAddr { id: 0x41, sub: 0x06 },
        68 => ParamAddr { id: 0x41, sub: 0x07 },
        69 => ParamAddr { id: 0x41, sub: 0x08 },
        70 => ParamAddr { id: 0x41, sub: 0x09 },
        71 => ParamAddr { id: 0x41, sub: 0x0A },
        72 => ParamAddr { id: 0x41, sub: 0x0B },
        73 => ParamAddr { id: 0x41, sub: 0x0C },
        74 => ParamAddr { id: 0x41, sub: 0x0D },
        75 => ParamAddr { id: 0x41, sub: 0x0E },
        76 => ParamAddr { id: 0x41, sub: 0x0F },
        77 => ParamAddr { id: 0x41, sub: 0x10 },
        78 => ParamAddr { id: 0x41, sub: 0x11 },
        79 => ParamAddr { id: 0x41, sub: 0x12 },
        80 => ParamAddr { id: 0x41, sub: 0x13 },
        81 => ParamAddr { id: 0x41, sub: 0x14 },
        82 => ParamAddr { id: 0x41, sub: 0x15 },
        83 => ParamAddr { id: 0x41, sub: 0x16 },
        84 => ParamAddr { id: 0x41, sub: 0x17 },
        85 => ParamAddr { id: 0x41, sub: 0x18 },
        86 => ParamAddr { id: 0x41, sub: 0x19 },
        87 => ParamAddr { id: 0x41, sub: 0x1A },
        88 => ParamAddr { id: 0x41, sub: 0x1B },
        89 => ParamAddr { id: 0x41, sub: 0x1C },
        90 => ParamAddr { id: 0x41, sub: 0x1D },
        91 => ParamAddr { id: 0x41, sub: 0x1E },
        92 => ParamAddr { id: 0x41, sub: 0x1F },
        93 => ParamAddr { id: 0x42, sub: 0x00 },
        94 => ParamAddr { id: 0x42, sub: 0x10 },
        95 => ParamAddr { id: 0x42, sub: 0x11 },
        96 => ParamAddr { id: 0x42, sub: 0x12 },
        97 => ParamAddr { id: 0x42, sub: 0x13 },
        _ => ParamAddr { id: 0, sub: 0 },
    }
}

/// The block (0: program, 1: patches, 2: insert effects, 3: motion
/// sequence header) and sub id of timbre parameter `j`.
pub open spec fn timbre_slot(j: usize) -> (u8, u16) {
    match j {
        0 => (0u8, 0x00u16),
        1 => (0u8, 0x01u16),
        2 => (0u8, 0x02u16),
        3 => (0u8, 0x03u16),
        4 => (0u8, 0x08u16),
        5 => (0u8, 0x09u16),
        6 => (0u8, 0x0Au16),
        7 => (0u8, 0x0Bu16),
        8 => (0u8, 0x13u16),
        9 => (0u8, 0x14u16),
        10 => (0u8, 0x15u16),
        11 => (0u8, 0x16u16),
        12 => (0u8, 0x10u16),
        13 => (0u8, 0x11u16),
        14 => (0u8, 0x17u16),
        15 => (0u8, 0x18u16),
        16 => (0u8, 0x19u16),
        17 => (0u8, 0x1Au16),
        18 => (0u8, 0x1Bu16),
        19 => (0u8, 0x20u16),
        20 => (0u8, 0x21u16),
        21 => (0u8, 0x22u16),
        22 => (0u8, 0x23u16),
        23 => (0u8, 0x28u16),
        24 => (0u8, 0x29u16),
        25 => (0u8, 0x2Au16),
        26 => (0u8, 0x30u16),
        27 => (0u8, 0x40u16),
        28 => (0u8, 0x31u16),
        29 => (0u8, 0x32u16),
        30 => (0u8, 0x33u16),
        31 => (0u8, 0x34u16),
        32 => (0u8, 0x35u16),
        33 => (0u8, 0x36u16),
        34 => (0u8, 0x42u16),
        35 => (0u8, 0x43u16),
        36 => (0u8, 0x44u16),
        37 => (0u8, 0x45u16),
        38 => (0u8, 0x46u16),
        39 => (0u8, 0x50u16),
        40 => (0u8, 0x52u16),
        41 => (0u8, 0x51u16),
        42 => (0u8, 0x54u16),
        43 => (0u8, 0x55u16),
        44 => (0u8, 0x56u16),
        45 => (0u8, 0x57u16),
        46 => (0u8, 0x60u16),
        47 => (0u8, 0x61u16),
        48 => (0u8, 0x62u16),
        49 => (0u8, 0x63u16),
        50 => (0u8, 0x64u16),
        51 => (0u8, 0x70u16),
        52 => (0u8, 0x71u16),
        53 => (0u8, 0x72u16),
        54 => (0u8, 0x73u16),
        55 => (0u8, 0x74u16),
        56 => (0u8, 0x80u16),
        57 => (0u8, 0x81u16),
        58 => (0u8, 0x82u16),
        59 => (0u8, 0x83u16),
        60 => (0u8, 0x84u16),
        61 => (0u8, 0x90u16),
        62 => (0u8, 0x92u16),
        63 => (0u8, 0x93u16),
        64 => (0u8, 0x94u16),
        65 => (0u8, 0x96u16),
        66 => (0u8, 0xA0u16),
        67 => (0u8, 0xA2u16),
        68 => (0u8, 0xA3u16),
        69 => (0u8, 0xA4u16),
        70 => (0u8, 0xA6u16),
        71 => (1u8, 0x00u16),
        72 => (1u8, 0x01u16),
        73 => (1u8, 0x02u16),
        74 => (1u8, 0x04u16),
        75 => (1u8, 0x05u16),
        76 => (1u8, 0x06u16),
        77 => (1u8, 0x08u16),
        78 => (1u8, 0x09u16),
        79 => (1u8, 0x0Au16),
        80 => (1u8, 0x0Cu16),
        81 => (1u8, 0x0Du16),
        82 => (1u8, 0x0Eu16),
        83 => (1u8, 0x10u16),
        84 => (1u8, 0x11u16),
        85 => (1u8, 0x12u16),
        86 => (1u8, 0x14u16),
        87 => (1u8, 0x15u16),
        88 => (1u8, 0x16u16),
        89 => (2u8, 0x01u16),
        90 => (2u8, 0x02u16),
        91 => (2u8, 0x31u16),
        92 => (2u8, 0x32u16),
        93 => (2u8, 0x10u16),
        94 => (2u8, 0x40u16),
        95 => (2u8, 0x11u16),
        96 => (2u8, 0x41u16),
        97 => (2u8, 0x12u16),
        98 => (2u8, 0x42u16),
        99 => (2u8, 0x13u16),
        100 => (2u8, 0x43u16),
        101 => (2u8, 0x14u16),
        102 => (2u8, 0x44u16),
        103 => (2u8, 0x15u16),
        104 => (2u8, 0x45u16),
        105 => (2u8, 0x16u16),
        106 => (2u8, 0x46u16),
        107 => (2u8, 0x17u16),
        108 => (2u8, 0x47u16),
        109 => (2u8, 0x18u16),
        110 => (2u8, 0x48u16),
        111 => (2u8, 0x19u16),
        112 => (2u8, 0x49u16),
        113 => (2u8, 0x1Au16),
        114 => (2u8, 0x4Au16),
        115 => (2u8, 0x1Bu16),
        116 => (2u8, 0x4Bu16),
        117 => (2u8, 0x1Cu16),
        118 => (2u8, 0x4Cu16),
        119 => (2u8, 0x1Du16),
        120 => (2u8, 0x4Du16),
        121 => (2u8, 0x1Eu16),
        122 => (2u8, 0x4Eu16),
        123 => (2u8, 0x1Fu16),
        124 => (2u8, 0x4Fu16),
        125 => (2u8, 0x20u16),
        126 => (2u8, 0x50u16),
        127 => (2u8, 0x21u16),
        128 => (2u8, 0x51u16),
        129 => (2u8, 0x22u16),
        130 => (2u8, 0x52u16),
        131 => (2u8, 0x23u16),
        132 => (2u8, 0x53u16),
        133 => (2u8, 0x60u16),
        134 => (2u8, 0x61u16),
        135 => (2u8, 0x62u16),
        136 => (2u8, 0x63u16),
        137 => (3u8, 0x00u16),
        138 => (3u8, 0x01u16),
        139 => (3u8, 0x02u16),
        140 => (3u8, 0x04u16),
        141 => (3u8, 0x05u16),
        _ => (0u8, 0u16),
    }
}

/// The kind of global parameter `k`.
pub open spec fn global_kind(k: usize) -> ParamKind {
    match k {
        0 => ParamKind::Choice(4u8),
        1 => ParamKind::Choice(3u8),
        2 => ParamKind::Unsigned(55u8),
        3 => ParamKind::Unsigned(55u8),
        4 => ParamKind::Unsigned(55u8),
        5 => ParamKind::Unsigned(55u8),
        6 => ParamKind::MidiChannel,
        7 => ParamKind::Byte,
        8 => ParamKind::Unsigned(15u8),
        9 => ParamKind::Tempo,
        10 => ParamKind::Flag,
        11 => ParamKind::Flag,
        12 => ParamKind::Choice(6u8),
        13 => ParamKind::Unsigned(8u8),
        14 => ParamKind::Masked(3u8),
        15 => ParamKind::Masked(7u8),
        16 => ParamKind::Unsigned(100u8),
        17 => ParamKind::Signed(50u8),
        18 => ParamKind::Flag,
        19 => ParamKind::Bit,
        20 => ParamKind::Bit,
        21 => ParamKind::Bit,
        22 => ParamKind::Bit,
        23 => ParamKind::Bit,
        24 => ParamKind::Bit,
        25 => ParamKind::Bit,
        26 => ParamKind::Bit,
        27 => ParamKind::Choice(31u8),
        28 => ParamKind::Masked(31u8),
        29 => ParamKind::Unsigned(127u8),
        30 => ParamKind::Unsigned(127u8),
        31 => ParamKind::Unsigned(127u8),
        32 => ParamKind::Unsigned(127u8),
        33 => ParamKind::Unsigned(127u8),
        34 => ParamKind::Unsigned(127u8),
        35 => ParamKind::Unsigned(127u8),
        36 => ParamKind::Unsigned(127u8),
        37 => ParamKind::Unsigned(127u8),
        38 => ParamKind::Unsigned(127u8),
        39 => ParamKind::Unsigned(127u8),
        40 => ParamKind::Unsigned(127u8),
        41 => ParamKind::Unsigned(127u8),
        42 => ParamKind::Unsigned(127u8),
        43 => ParamKind::Unsigned(127u8),
        44 => ParamKind::Unsigned(127u8),
        45 => ParamKind::Unsigned(127u8),
        46 => ParamKind::Unsigned(127u8),
        47 => ParamKind::Unsigned(127u8),
        48 => ParamKind::Unsigned(127u8),
        49 => ParamKind::Flag,
        50 => ParamKind::Flag,
        51 => ParamKind::Flag,
        52 => ParamKind::Flag,
        53 => ParamKind::Flag,
        54 => ParamKind::Unsigned(127u8),
        55 => ParamKind::Unsigned(127u8),
        56 => ParamKind::Unsigned(127u8),
        57 => ParamKind::Unsigned(127u8),
        58 => ParamKind::Unsigned(127u8),
        59 => ParamKind::Unsigned(127u8),
        60 => ParamKind::Unsigned(127u8),
        61 => ParamKind::Pan,
        62 => ParamKind::Unsigned(127u8),
        63 => ParamKind::Pan,
        64 => ParamKind::Unsigned(127u8),
        65 => ParamKind::Pan,
        66 => ParamKind::Unsigned(127u8),
        67 => ParamKind::Pan,
        68 => ParamKind::Unsigned(127u8),
        69 => ParamKind::Pan,
        70 => ParamKind::Unsigned(127u8),
        71 => ParamKind::Pan,
        72 => ParamKind::Unsigned(127u8),
        73 => ParamKind::Pan,
        74 => ParamKind::Unsigned(127u8),
        75 => ParamKind::Pan,
        76 => ParamKind::Unsigned(127u8),
        77 => ParamKind::Pan,
        78 => ParamKind::Unsigned(127u8),
        79 => ParamKind::Pan,
        80 => ParamKind::Unsigned(127u8),
        81 => ParamKind::Pan,
        82 => ParamKind::Unsigned(127u8),
        83 => ParamKind::Pan,
        84 => ParamKind::Unsigned(127u8),
        85 => ParamKind::Pan,
        86 => ParamKind::Unsigned(127u8),
        87 => ParamKind::Pan,
        88 => ParamKind::Unsigned(127u8),
        89 => ParamKind::Pan,
        90 => ParamKind::Unsigned(127u8),
        91 => ParamKind::Pan,
        92 => ParamKind::Unsigned(127u8),
        93 => ParamKind::Choice(12u8),
        94 => ParamKind::Signed(63u8),
        95 => ParamKind::Unsigned(127u8),
        96 => ParamKind::Signed(63u8),
        97 => ParamKind::Unsigned(127u8),
        _ => ParamKind::Byte,
    }
}

/// The kind of timbre parameter `j`.
pub open spec fn timbre_kind(j: usize) -> ParamKind {
    match j {
        0 => ParamKind::Unsigned(55u8),
        1 => ParamKind::Unsigned(55u8),
        2 => ParamKind::Unsigned(55u8),
        3 => ParamKind::Unsigned(55u8),
        4 => ParamKind::Choice(4u8),
        5 => ParamKind::Unsigned(99u8),
        6 => ParamKind::Unsigned(127u8),
        7 => ParamKind::Choice(3u8),
        8 => ParamKind::Unsigned(127u8),
        9 => ParamKind::Signed(48u8),
        10 => ParamKind::Signed(50u8),
        11 => ParamKind::Signed(63u8),
        12 => ParamKind::Signed(12u8),
        13 => ParamKind::Unsigned(127u8),
        14 => ParamKind::Choice(9u8),
        15 => ParamKind::Choice(4u8),
        16 => ParamKind::Unsigned(127u8),
        17 => ParamKind::Unsigned(127u8),
        18 => ParamKind::Unsigned(64u8),
        19 => ParamKind::Choice(4u8),
        20 => ParamKind::Choice(4u8),
        21 => ParamKind::Signed(24u8),
        22 => ParamKind::Signed(50u8),
        23 => ParamKind::Unsigned(127u8),
        24 => ParamKind::Unsigned(127u8),
        25 => ParamKind::Unsigned(127u8),
        26 => ParamKind::Choice(4u8),
        27 => ParamKind::Choice(4u8),
        28 => ParamKind::Unsigned(127u8),
        29 => ParamKind::Unsigned(127u8),
        30 => ParamKind::Unsigned(127u8),
        31 => ParamKind::Signed(63u8),
        32 => ParamKind::Signed(63u8),
        33 => ParamKind::Signed(63u8),
        34 => ParamKind::Unsigned(127u8),
        35 => ParamKind::Unsigned(127u8),
        36 => ParamKind::Signed(63u8),
        37 => ParamKind::Signed(63u8),
        38 => ParamKind::Signed(63u8),
        39 => ParamKind::Unsigned(127u8),
        40 => ParamKind::Choice(2u8),
        41 => ParamKind::Unsigned(12u8),
        42 => ParamKind::Unsigned(127u8),
        43 => ParamKind::Pan,
        44 => ParamKind::Signed(63u8),
        45 => ParamKind::Unsigned(127u8),
        46 => ParamKind::Unsigned(127u8),
        47 => ParamKind::Unsigned(127u8),
        48 => ParamKind::Unsigned(127u8),
        49 => ParamKind::Unsigned(127u8),
        50 => ParamKind::Signed(63u8),
        51 => ParamKind::Unsigned(127u8),
        52 => ParamKind::Unsigned(127u8),
        53 => ParamKind::Unsigned(127u8),
        54 => ParamKind::Unsigned(127u8),
        55 => ParamKind::Signed(63u8),
        56 => ParamKind::Unsigned(127u8),
        57 => ParamKind::Unsigned(127u8),
        58 => ParamKind::Unsigned(127u8),
        59 => ParamKind::Unsigned(127u8),
        60 => ParamKind::Signed(63u8),
        61 => ParamKind::Byte,
        62 => ParamKind::Unsigned(127u8),
        63 => ParamKind::Flag,
        64 => ParamKind::Choice(3u8),
        65 => ParamKind::Unsigned(16u8),
        66 => ParamKind::Byte,
        67 => ParamKind::Unsigned(127u8),
        68 => ParamKind::Flag,
        69 => ParamKind::Choice(3u8),
        70 => ParamKind::Unsigned(16u8),
        71 => ParamKind::Choice(12u8),
        72 => ParamKind::Choice(15u8),
        73 => ParamKind::Signed(63u8),
        74 => ParamKind::Choice(12u8),
        75 => ParamKind::Choice(15u8),
        76 => ParamKind::Signed(63u8),
        77 => ParamKind::Choice(12u8),
        78 => ParamKind::Choice(15u8),
        79 => ParamKind::Signed(63u8),
        80 => ParamKind::Choice(12u8),
        81 => ParamKind::Choice(15u8),
        82 => ParamKind::Signed(63u8),
        83 => ParamKind::Choice(12u8),
        84 => ParamKind::Choice(15u8),
        85 => ParamKind::Signed(63u8),
        86 => ParamKind::Choice(12u8),
        87 => ParamKind::Choice(15u8),
        88 => ParamKind::Signed(63u8),
        89 => ParamKind::Choice(31u8),
        90 => ParamKind::Masked(31u8),
        91 => ParamKind::Choice(31u8),
        92 => ParamKind::Masked(31u8),
        93 => ParamKind::Unsigned(127u8),
        94 => ParamKind::Unsigned(127u8),
        95 => ParamKind::Unsigned(127u8),
        96 => ParamKind::Unsigned(127u8),
        97 => ParamKind::Unsigned(127u8),
        98 => ParamKind::Unsigned(127u8),
        99 => ParamKind::Unsigned(127u8),
        100 => ParamKind::Unsigned(127u8),
        101 => ParamKind::Unsigned(127u8),
        102 => ParamKind::Unsigned(127u8),
        103 => ParamKind::Unsigned(127u8),
        104 => ParamKind::Unsigned(127u8),
        105 => ParamKind::Unsigned(127u8),
        106 => ParamKind::Unsigned(127u8),
        107 => ParamKind::Unsigned(127u8),
        108 => ParamKind::Unsigned(127u8),
        109 => ParamKind::Unsigned(127u8),
        110 => ParamKind::Unsigned(127u8),
        111 => ParamKind::Unsigned(127u8),
        112 => ParamKind::Unsigned(127u8),
        113 => ParamKind::Unsigned(127u8),
        114 => ParamKind::Unsigned(127u8),
        115 => ParamKind::Unsigned(127u8),
        116 => ParamKind::Unsigned(127u8),
        117 => ParamKind::Unsigned(127u8),
        118 => ParamKind::Unsigned(127u8),
        119 => ParamKind::Unsigned(127u8),
        120 => ParamKind::Unsigned(127u8),
        121 => ParamKind::Unsigned(127u8),
        122 => ParamKind::Unsigned(127u8),
        123 => ParamKind::Unsigned(127u8),
        124 => ParamKind::Unsigned(127u8),
        125 => ParamKind::Unsigned(127u8),
        126 => ParamKind::Unsigned(127u8),
        127 => ParamKind::Unsigned(127u8),
        128 => ParamKind::Unsigned(127u8),
        129 => ParamKind::Unsigned(127u8),
        130 => ParamKind::Unsigned(127u8),
        131 => ParamKind::Unsigned(127u8),
        132 => ParamKind::Unsigned(127u8),
        133 => ParamKind::Byte,
        134 => ParamKind::Signed(30u8),
        135 => ParamKind::Byte,
        136 => ParamKind::Signed(30u8),
        137 => ParamKind::Flag,
        138 => ParamKind::Byte,
        139 => ParamKind::Unsigned(4u8),
        140 => ParamKind::Choice(3u8),
        141 => ParamKind::Unsigned(15u8),
        _ => ParamKind::Byte,
    }
}

/// The value that global parameter `k` of `p` sends.
pub open spec fn global_value(p: Program, k: usize) -> u16 {
    match k {
        0 => (p.voice_mode as u8) as u16,
        1 => (p.arp_timbre as u8) as u16,
        2 => p.vcd_knob_assigns[0]@ as u16,
        3 => p.vcd_knob_assigns[1]@ as u16,
        4 => p.vcd_knob_assigns[2]@ as u16,
        5 => p.vcd_knob_assigns[3]@ as u16,
        6 => (p.timbre2_midi_ch as u8) as u16,
        7 => p.center_key as u16,
        8 => p.category@ as u16,
        9 => p.tempo@ as u16,
        10 => if p.arp.on { 1u16 } else { 0u16 },
        11 => if p.arp.key_sync { 1u16 } else { 0u16 },
        12 => (p.arp.arp_type as u8) as u16,
        13 => p.arp.resolution@ as u16,
        14 => p.arp.octave_range as u16,
        15 => p.arp.last_step as u16,
        16 => p.arp.gate_time@ as u16,
        17 => (p.arp.swing@ + 64) as u16,
        18 => if p.arp.latch { 1u16 } else { 0u16 },
        19 => ((p.arp.step_switches >> 7u8) & 1u8) as u16,
        20 => ((p.arp.step_switches >> 6u8) & 1u8) as u16,
        21 => ((p.arp.step_switches >> 5u8) & 1u8) as u16,
        22 => ((p.arp.step_switches >> 4u8) & 1u8) as u16,
        23 => ((p.arp.step_switches >> 3u8) & 1u8) as u16,
        24 => ((p.arp.step_switches >> 2u8) & 1u8) as u16,
        25 => ((p.arp.step_switches >> 1u8) & 1u8) as u16,
        26 => ((p.arp.step_switches >> 0u8) & 1u8) as u16,
        27 => (p.master_fx.fx_type as u8) as u16,
        28 => p.master_fx.knob_assign as u16,
        29 => p.master_fx.params[0]@ as u16,
        30 => p.master_fx.params[1]@ as u16,
        31 => p.master_fx.params[2]@ as u16,
        32 => p.master_fx.params[3]@ as u16,
        33 => p.master_fx.params[4]@ as u16,
        34 => p.master_fx.params[5]@ as u16,
        35 => p.master_fx.params[6]@ as u16,
        36 => p.master_fx.params[7]@ as u16,
        37 => p.master_fx.params[8]@ as u16,
        38 => p.master_fx.params[9]@ as u16,
        39 => p.master_fx.params[10]@ as u16,
        40 => p.master_fx.params[11]@ as u16,
        41 => p.master_fx.params[12]@ as u16,
        42 => p.master_fx.params[13]@ as u16,
        43 => p.master_fx.params[14]@ as u16,
        44 => p.master_fx.params[15]@ as u16,
        45 => p.master_fx.params[16]@ as u16,
        46 => p.master_fx.params[17]@ as u16,
        47 => p.master_fx.params[18]@ as u16,
        48 => p.master_fx.params[19]@ as u16,
        49 => if p.vocoder.on { 1u16 } else { 0u16 },
        50 => if p.vocoder.source_formant_rec { 1u16 } else { 0u16 },
        51 => if p.vocoder.hpf_gate { 1u16 } else { 0u16 },
        52 => if p.vocoder.formant_trig_reset { 1u16 } else { 0u16 },
        53 => if p.vocoder.select_timbre2 { 1u16 } else { 0u16 },
        54 => p.vocoder.gate_sens@ as u16,
        55 => p.vocoder.threshold@ as u16,
        56 => p.vocoder.hpf_level@ as u16,
        57 => p.vocoder.direct_level@ as u16,
        58 => p.vocoder.timbre1_level@ as u16,
        59 => p.vocoder.input1_level@ as u16,
        60 => p.vocoder.vocoder_level@ as u16,
        61 => (p.vocoder.band_pans[0]@ + 64) as u16,
        62 => p.vocoder.band_levels[0]@ as u16,
        63 => (p.vocoder.band_pans[1]@ + 64) as u16,
        64 => p.vocoder.band_levels[1]@ as u16,
        65 => (p.vocoder.band_pans[2]@ + 64) as u16,
        66 => p.vocoder.band_levels[2]@ as u16,
        67 => (p.vocoder.band_pans[3]@ + 64) as u16,
        68 => p.vocoder.band_levels[3]@ as u16,
        69 => (p.vocoder.band_pans[4]@ + 64) as u16,
        70 => p.vocoder.band_levels[4]@ as u16,
        71 => (p.vocoder.band_pans[5]@ + 64) as u16,
        72 => p.vocoder.band_levels[5]@ as u16,
        73 => (p.vocoder.band_pans[6]@ + 64) as u16,
        74 => p.vocoder.band_levels[6]@ as u16,
        75 => (p.vocoder.band_pans[7]@ + 64) as u16,
        76 => p.vocoder.band_levels[7]@ as u16,
        77 => (p.vocoder.band_pans[8]@ + 64) as u16,
        78 => p.vocoder.band_levels[8]@ as u16,
        79 => (p.vocoder.band_pans[9]@ + 64) as u16,
        80 => p.vocoder.band_levels[9]@ as u16,
        81 => (p.vocoder.band_pans[10]@ + 64) as u16,
        82 => p.vocoder.band_levels[10]@ as u16,
        83 => (p.vocoder.band_pans[11]@ + 64) as u16,
        84 => p.vocoder.band_levels[11]@ as u16,
        85 => (p.vocoder.band_pans[12]@ + 64) as u16,
        86 => p.vocoder.band_levels[12]@ as u16,
        87 => (p.vocoder.band_pans[13]@ + 64) as u16,
        88 => p.vocoder.band_levels[13]@ as u16,
        89 => (p.vocoder.band_pans[14]@ + 64) as u16,
        90 => p.vocoder.band_levels[14]@ as u16,
        91 => (p.vocoder.band_pans[15]@ + 64) as u16,
        92 => p.vocoder.band_levels[15]@ as u16,
        93 => (p.vocoder.fc_mod_src as u8) as u16,
        94 => (p.vocoder.cutoff_offset@ + 64) as u16,
        95 => p.vocoder.resonance@ as u16,
        96 => (p.vocoder.fc_mod_int@ + 64) as u16,
        97 => p.vocoder.ef_sens@ as u16,
        _ => 0,
    }
}

/// The value that timbre parameter `j` of `t` sends.
pub open spec fn timbre_value(t: Timbre, j: usize) -> u16 {
    match j {
        0 => t.knob_assigns[0]@ as u16,
        1 => t.knob_assigns[1]@ as u16,
        2 => t.knob_assigns[2]@ as u16,
        3 => t.knob_assigns[3]@ as u16,
        4 => (t.unison_voice as u8) as u16,
        5 => t.unison_detune@ as u16,
        6 => t.unison_spread@ as u16,
        7 => (t.voice_assign as u8) as u16,
        8 => t.analog_tuning@ as u16,
        9 => (t.transpose@ + 64) as u16,
        10 => (t.detune@ + 64) as u16,
        11 => (t.vibrato_int@ + 64) as u16,
        12 => (t.bend_range@ + 64) as u16,
        13 => t.portamento@ as u16,
        14 => (t.osc1.wave as u8) as u16,
        15 => (t.osc1.osc_mod as u8) as u16,
        16 => t.osc1.ctrl1@ as u16,
        17 => t.osc1.ctrl2@ as u16,
        18 => t.osc1.dwgs@ as u16,
        19 => (t.osc2.wave as u8) as u16,
        20 => (t.osc2.osc_mod as u8) as u16,
        21 => (t.osc2.semitone@ + 64) as u16,
        22 => (t.osc2.tune@ + 64) as u16,
        23 => t.mixer.osc1_level@ as u16,
        24 => t.mixer.osc2_level@ as u16,
        25 => t.mixer.noise_level@ as u16,
        26 => (t.filter.routing as u8) as u16,
        27 => (t.filter.filter2_type as u8) as u16,
        28 => t.filter.balance@ as u16,
        29 => t.filter.cutoff1@ as u16,
        30 => t.filter.resonance1@ as u16,
        31 => (t.filter.eg1_int1@ + 64) as u16,
        32 => (t.filter.key_track1@ + 64) as u16,
        33 => (t.filter.velo_sens1@ + 64) as u16,
        34 => t.filter.cutoff2@ as u16,
        35 => t.filter.resonance2@ as u16,
        36 => (t.filter.eg1_int2@ + 64) as u16,
        37 => (t.filter.key_track2@ + 64) as u16,
        38 => (t.filter.velo_sens2@ + 64) as u16,
        39 => t.amp.level@ as u16,
        40 => (t.amp.ws_position as u8) as u16,
        41 => t.amp.ws_type@ as u16,
        42 => t.amp.ws_depth@ as u16,
        43 => (t.amp.pan@ + 64) as u16,
        44 => (t.amp.key_track@ + 64) as u16,
        45 => t.amp.punch_level@ as u16,
        46 => t.eg[0].attack@ as u16,
        47 => t.eg[0].decay@ as u16,
        48 => t.eg[0].sustain@ as u16,
        49 => t.eg[0].release@ as u16,
        50 => (t.eg[0].level_velo@ + 64) as u16,
        51 => t.eg[1].attack@ as u16,
        52 => t.eg[1].decay@ as u16,
        53 => t.eg[1].sustain@ as u16,
        54 => t.eg[1].release@ as u16,
        55 => (t.eg[1].level_velo@ + 64) as u16,
        56 => t.eg[2].attack@ as u16,
        57 => t.eg[2].decay@ as u16,
        58 => t.eg[2].sustain@ as u16,
        59 => t.eg[2].release@ as u16,
        60 => (t.eg[2].level_velo@ + 64) as u16,
        61 => t.lfo[0].wave as u16,
        62 => t.lfo[0].freq@ as u16,
        63 => if t.lfo[0].bpm_sync { 1u16 } else { 0u16 },
        64 => (t.lfo[0].key_sync as u8) as u16,
        65 => t.lfo[0].sync_note@ as u16,
        66 => t.lfo[1].wave as u16,
        67 => t.lfo[1].freq@ as u16,
        68 => if t.lfo[1].bpm_sync { 1u16 } else { 0u16 },
        69 => (t.lfo[1].key_sync as u8) as u16,
        70 => t.lfo[1].sync_note@ as u16,
        71 => (t.patches[0].src as u8) as u16,
        72 => (t.patches[0].dst as u8) as u16,
        73 => (t.patches[0].int@ + 64) as u16,
        74 => (t.patches[1].src as u8) as u16,
        75 => (t.patches[1].dst as u8) as u16,
        76 => (t.patches[1].int@ + 64) as u16,
        77 => (t.patches[2].src as u8) as u16,
        78 => (t.patches[2].dst as u8) as u16,
        79 => (t.patches[2].int@ + 64) as u16,
        80 => (t.patches[3].src as u8) as u16,
        81 => (t.patches[3].dst as u8) as u16,
        82 => (t.patches[3].int@ + 64) as u16,
        83 => (t.patches[4].src as u8) as u16,
        84 => (t.patches[4].dst as u8) as u16,
        85 => (t.patches[4].int@ + 64) as u16,
        86 => (t.patches[5].src as u8) as u16,
        87 => (t.patches[5].dst as u8) as u16,
        88 => (t.patches[5].int@ + 64) as u16,
        89 => (t.insert_fx.fx1_type as u8) as u16,
        90 => t.insert_fx.fx1_knob as u16,
        91 => (t.insert_fx.fx2_type as u8) as u16,
        92 => t.insert_fx.fx2_knob as u16,
        93 => t.insert_fx.fx1_params[0]@ as u16,
        94 => t.insert_fx.fx2_params[0]@ as u16,
        95 => t.insert_fx.fx1_params[1]@ as u16,
        96 => t.insert_fx.fx2_params[1]@ as u16,
        97 => t.insert_fx.fx1_params[2]@ as u16,
        98 => t.insert_fx.fx2_params[2]@ as u16,
        99 => t.insert_fx.fx1_params[3]@ as u16,
        100 => t.insert_fx.fx2_params[3]@ as u16,
        101 => t.insert_fx.fx1_params[4]@ as u16,
        102 => t.insert_fx.fx2_params[4]@ as u16,
        103 => t.insert_fx.fx1_params[5]@ as u16,
        104 => t.insert_fx.fx2_params[5]@ as u16,
        105 => t.insert_fx.fx1_params[6]@ as u16,
        106 => t.insert_fx.fx2_params[6]@ as u16,
        107 => t.insert_fx.fx1_params[7]@ as u16,
        108 => t.insert_fx.fx2_params[7]@ as u16,
        109 => t.insert_fx.fx1_params[8]@ as u16,
        110 => t.insert_fx.fx2_params[8]@ as u16,
        111 => t.insert_fx.fx1_params[9]@ as u16,
        112 => t.insert_fx.fx2_params[9]@ as u16,
        113 => t.insert_fx.fx1_params[10]@ as u16,
        114 => t.insert_fx.fx2_params[10]@ as u16,
        115 => t.insert_fx.fx1_params[11]@ as u16,
        116 => t.insert_fx.fx2_params[11]@ as u16,
        117 => t.insert_fx.fx1_params[12]@ as u16,
        118 => t.insert_fx.fx2_params[12]@ as u16,
        119 => t.insert_fx.fx1_params[13]@ as u16,
        120 => t.insert_fx.fx2_params[13]@ as u16,
        121 => t.insert_fx.fx1_params[14]@ as u16,
        122 => t.insert_fx.fx2_params[14]@ as u16,
        123 => t.insert_fx.fx1_params[15]@ as u16,
        124 => t.insert_fx.fx2_params[15]@ as u16,
        125 => t.insert_fx.fx1_params[16]@ as u16,
        126 => t.insert_fx.fx2_params[16]@ as u16,
        127 => t.insert_fx.fx1_params[17]@ as u16,
        128 => t.insert_fx.fx2_params[17]@ as u16,
        129 => t.insert_fx.fx1_params[18]@ as u16,
        130 => t.insert_fx.fx2_params[18]@ as u16,
        131 => t.insert_fx.fx1_params[19]@ as u16,
        132 => t.insert_fx.fx2_params[19]@ as u16,
        133 => t.insert_fx.eq_low_freq as u16,
        134 => (t.insert_fx.eq_low_gain@ + 64) as u16,
        135 => t.insert_fx.eq_hi_freq as u16,
        136 => (t.insert_fx.eq_hi_gain@ + 64) as u16,
        137 => if t.motion_seq.on { 1u16 } else { 0u16 },
        138 => t.motion_seq.last_step as u16,
        139 => t.motion_seq.seq_type@ as u16,
        140 => (t.motion_seq.key_sync as u8) as u16,
        141 => t.motion_seq.resolution@ as u16,
        _ => 0,
    }
}

/// The value that global parameter `k` sends.
#[verifier::spinoff_prover]
#[verifier::rlimit(60)]
fn read_global(p: &Program, k: usize) -> (res: u16)
    requires
        k < GLOBAL_PARAMS,
    ensures
        res == global_value(*p, k),
        global_kind(k) !is Masked ==> in_range(global_kind(k), res),
{
    proof {
        lemma_bit_read(p.arp.step_switches);
    }
    match k {
        0 => u8::from(p.voice_mode) as u16,
        1 => u8::from(p.arp_timbre) as u16,
        2 => p.vcd_knob_assigns[0].to_wire() as u16,
        3 => p.vcd_knob_assigns[1].to_wire() as u16,
        4 => p.vcd_knob_assigns[2].to_wire() as u16,
        5 => p.vcd_knob_assigns[3].to_wire() as u16,
        6 => u8::from(p.timbre2_midi_ch) as u16,
        7 => p.center_key as u16,
        8 => p.category.to_wire() as u16,
        9 => p.tempo.to_wire(),
        10 => if p.arp.on { 1u16 } else { 0u16 },
        11 => if p.arp.key_sync { 1u16 } else { 0u16 },
        12 => u8::from(p.arp.arp_type) as u16,
        13 => p.arp.resolution.to_wire() as u16,
        14 => p.arp.octave_range as u16,
        15 => p.arp.last_step as u16,
        16 => p.arp.gate_time.to_wire() as u16,
        17 => p.arp.swing.to_wire() as u16,
        18 => if p.arp.latch { 1u16 } else { 0u16 },
        19 => ((p.arp.step_switches >> 7u8) & 1u8) as u16,
        20 => ((p.arp.step_switches >> 6u8) & 1u8) as u16,
        21 => ((p.arp.step_switches >> 5u8) & 1u8) as u16,
        22 => ((p.arp.step_switches >> 4u8) & 1u8) as u16,
        23 => ((p.arp.step_switches >> 3u8) & 1u8) as u16,
        24 => ((p.arp.step_switches >> 2u8) & 1u8) as u16,
        25 => ((p.arp.step_switches >> 1u8) & 1u8) as u16,
        26 => ((p.arp.step_switches >> 0u8) & 1u8) as u16,
        27 => u8::from(p.master_fx.fx_type) as u16,
        28 => p.master_fx.knob_assign as u16,
        29 => p.master_fx.params[0].to_wire() as u16,
        30 => p.master_fx.params[1].to_wire() as u16,
        31 => p.master_fx.params[2].to_wire() as u16,
        32 => p.master_fx.params[3].to_wire() as u16,
        33 => p.master_fx.params[4].to_wire() as u16,
        34 => p.master_fx.params[5].to_wire() as u16,
        35 => p.master_fx.params[6].to_wire() as u16,
        36 => p.master_fx.params[7].to_wire() as u16,
        37 => p.master_fx.params[8].to_wire() as u16,
        38 => p.master_fx.params[9].to_wire() as u16,
        39 => p.master_fx.params[10].to_wire() as u16,
        40 => p.master_fx.params[11].to_wire() as u16,
        41 => p.master_fx.params[12].to_wire() as u16,
        42 => p.master_fx.params[13].to_wire() as u16,
        43 => p.master_fx.params[14].to_wire() as u16,
        44 => p.master_fx.params[15].to_wire() as u16,
        45 => p.master_fx.params[16].to_wire() as u16,
        46 => p.master_fx.params[17].to_wire() as u16,
        47 => p.master_fx.params[18].to_wire() as u16,
        48 => p.master_fx.params[19].to_wire() as u16,
        49 => if p.vocoder.on { 1u16 } else { 0u16 },
        50 => if p.vocoder.source_formant_rec { 1u16 } else { 0u16 },
        51 => if p.vocoder.hpf_gate { 1u16 } else { 0u16 },
        52 => if p.vocoder.formant_trig_reset { 1u16 } else { 0u16 },
        53 => if p.vocoder.select_timbre2 { 1u16 } else { 0u16 },
        54 => p.vocoder.gate_sens.to_wire() as u16,
        55 => p.vocoder.threshold.to_wire() as u16,
        56 => p.vocoder.hpf_level.to_wire() as u16,
        57 => p.vocoder.direct_level.to_wire() as u16,
        58 => p.vocoder.timbre1_level.to_wire() as u16,
        59 => p.vocoder.input1_level.to_wire() as u16,
        60 => p.vocoder.vocoder_level.to_wire() as u16,
        61 => p.vocoder.band_pans[0].to_wire() as u16,
        62 => p.vocoder.band_levels[0].to_wire() as u16,
        63 => p.vocoder.band_pans[1].to_wire() as u16,
        64 => p.vocoder.band_levels[1].to_wire() as u16,
        65 => p.vocoder.band_pans[2].to_wire() as u16,
        66 => p.vocoder.band_levels[2].to_wire() as u16,
        67 => p.vocoder.band_pans[3].to_wire() as u16,
        68 => p.vocoder.band_levels[3].to_wire() as u16,
        69 => p.vocoder.band_pans[4].to_wire() as u16,
        70 => p.vocoder.band_levels[4].to_wire() as u16,
        71 => p.vocoder.band_pans[5].to_wire() as u16,
        72 => p.vocoder.band_levels[5].to_wire() as u16,
        73 => p.vocoder.band_pans[6].to_wire() as u16,
        74 => p.vocoder.band_levels[6].to_wire() as u16,
        75 => p.vocoder.band_pans[7].to_wire() as u16,
        76 => p.vocoder.band_levels[7].to_wire() as u16,
        77 => p.vocoder.band_pans[8].to_wire() as u16,
        78 => p.vocoder.band_levels[8].to_wire() as u16,
        79 => p.vocoder.band_pans[9].to_wire() as u16,
        80 => p.vocoder.band_levels[9].to_wire() as u16,
        81 => p.vocoder.band_pans[10].to_wire() as u16,
        82 => p.vocoder.band_levels[10].to_wire() as u16,
        83 => p.vocoder.band_pans[11].to_wire() as u16,
        84 => p.vocoder.band_levels[11].to_wire() as u16,
        85 => p.vocoder.band_pans[12].to_wire() as u16,
        86 => p.vocoder.band_levels[12].to_wire() as u16,
        87 => p.vocoder.band_pans[13].to_wire() as u16,
        88 => p.vocoder.band_levels[13].to_wire() as u16,
        89 => p.vocoder.band_pans[14].to_wire() as u16,
        90 => p.vocoder.band_levels[14].to_wire() as u16,
        91 => p.vocoder.band_pans[15].to_wire() as u16,
        92 => p.vocoder.band_levels[15].to_wire() as u16,
        93 => u8::from(p.vocoder.fc_mod_src) as u16,
        94 => p.vocoder.cutoff_offset.to_wire() as u16,
        95 => p.vocoder.resonance.to_wire() as u16,
        96 => p.vocoder.fc_mod_int.to_wire() as u16,
        97 => p.vocoder.ef_sens.to_wire() as u16,
        _ => 0,
    }
}

/// The value that timbre parameter `j` sends.
#[verifier::spinoff_prover]
#[verifier::rlimit(60)]
fn read_timbre(t: &Timbre, j: usize) -> (res: u16)
    requires
        j < TIMBRE_PARAMS,
    ensures
        res == timbre_value(*t, j),
        timbre_kind(j) !is Masked ==> in_range(timbre_kind(j), res),
{
    match j {
        0 => t.knob_assigns[0].to_wire() as u16,
        1 => t.knob_assigns[1].to_wire() as u16,
        2 => t.knob_assigns[2].to_wire() as u16,
        3 => t.knob_assigns[3].to_wire() as u16,
        4 => u8::from(t.unison_voice) as u16,
        5 => t.unison_detune.to_wire() as u16,
        6 => t.unison_spread.to_wire() as u16,
        7 => u8::from(t.voice_assign) as u16,
        8 => t.analog_tuning.to_wire() as u16,
        9 => t.transpose.to_wire() as u16,
        10 => t.detune.to_wire() as u16,
        11 => t.vibrato_int.to_wire() as u16,
        12 => t.bend_range.to_wire() as u16,
        13 => t.portamento.to_wire() as u16,
        14 => u8::from(t.osc1.wave) as u16,
        15 => u8::from(t.osc1.osc_mod) as u16,
        16 => t.osc1.ctrl1.to_wire() as u16,
        17 => t.osc1.ctrl2.to_wire() as u16,
        18 => t.osc1.dwgs.to_wire() as u16,
        19 => u8::from(t.osc2.wave) as u16,
        20 => u8::from(t.osc2.osc_mod) as u16,
        21 => t.osc2.semitone.to_wire() as u16,
        22 => t.osc2.tune.to_wire() as u16,
        23 => t.mixer.osc1_level.to_wire() as u16,
        24 => t.mixer.osc2_level.to_wire() as u16,
        25 => t.mixer.noise_level.to_wire() as u16,
        26 => u8::from(t.filter.routing) as u16,
        27 => u8::from(t.filter.filter2_type) as u16,
        28 => t.filter.balance.to_wire() as u16,
        29 => t.filter.cutoff1.to_wire() as u16,
        30 => t.filter.resonance1.to_wire() as u16,
        31 => t.filter.eg1_int1.to_wire() as u16,
        32 => t.filter.key_track1.to_wire() as u16,
        33 => t.filter.velo_sens1.to_wire() as u16,
        34 => t.filter.cutoff2.to_wire() as u16,
        35 => t.filter.resonance2.to_wire() as u16,
        36 => t.filter.eg1_int2.to_wire() as u16,
        37 => t.filter.key_track2.to_wire() as u16,
        38 => t.filter.velo_sens2.to_wire() as u16,
        39 => t.amp.level.to_wire() as u16,
        40 => u8::from(t.amp.ws_position) as u16,
        41 => t.amp.ws_type.to_wire() as u16,
        42 => t.amp.ws_depth.to_wire() as u16,
        43 => t.amp.pan.to_wire() as u16,
        44 => t.amp.key_track.to_wire() as u16,
        45 => t.amp.punch_level.to_wire() as u16,
        46 => t.eg[0].attack.to_wire() as u16,
        47 => t.eg[0].decay.to_wire() as u16,
        48 => t.eg[0].sustain.to_wire() as u16,
        49 => t.eg[0].release.to_wire() as u16,
        50 => t.eg[0].level_velo.to_wire() as u16,
        51 => t.eg[1].attack.to_wire() as u16,
        52 => t.eg[1].decay.to_wire() as u16,
        53 => t.eg[1].sustain.to_wire() as u16,
        54 => t.eg[1].release.to_wire() as u16,
        55 => t.eg[1].level_velo.to_wire() as u16,
        56 => t.eg[2].attack.to_wire() as u16,
        57 => t.eg[2].decay.to_wire() as u16,
        58 => t.eg[2].sustain.to_wire() as u16,
        59 => t.eg[2].release.to_wire() as u16,
        60 => t.eg[2].level_velo.to_wire() as u16,
        61 => t.lfo[0].wave as u16,
        62 => t.lfo[0].freq.to_wire() as u16,
        63 => if t.lfo[0].bpm_sync { 1u16 } else { 0u16 },
        64 => u8::from(t.lfo[0].key_sync) as u16,
        65 => t.lfo[0].sync_note.to_wire() as u16,
        66 => t.lfo[1].wave as u16,
        67 => t.lfo[1].freq.to_wire() as u16,
        68 => if t.lfo[1].bpm_sync { 1u16 } else { 0u16 },
        69 => u8::from(t.lfo[1].key_sync) as u16,
        70 => t.lfo[1].sync_note.to_wire() as u16,
        71 => u8::from(t.patches[0].src) as u16,
        72 => u8::from(t.patches[0].dst) as u16,
        73 => t.patches[0].int.to_wire() as u16,
        74 => u8::from(t.patches[1].src) as u16,
        75 => u8::from(t.patches[1].dst) as u16,
        76 => t.patches[1].int.to_wire() as u16,
        77 => u8::from(t.patches[2].src) as u16,
        78 => u8::from(t.patches[2].dst) as u16,
        79 => t.patches[2].int.to_wire() as u16,
        80 => u8::from(t.patches[3].src) as u16,
        81 => u8::from(t.patches[3].dst) as u16,
        82 => t.patches[3].int.to_wire() as u16,
        83 => u8::from(t.patches[4].src) as u16,
        84 => u8::from(t.patches[4].dst) as u16,
        85 => t.patches[4].int.to_wire() as u16,
        86 => u8::from(t.patches[5].src) as u16,
        87 => u8::from(t.patches[5].dst) as u16,
        88 => t.patches[5].int.to_wire() as u16,
        89 => u8::from(t.insert_fx.fx1_type) as u16,
        90 => t.insert_fx.fx1_knob as u16,
        91 => u8::from(t.insert_fx.fx2_type) as u16,
        92 => t.insert_fx.fx2_knob as u16,
        93 => t.insert_fx.fx1_params[0].to_wire() as u16,
        94 => t.insert_fx.fx2_params[0].to_wire() as u16,
        95 => t.insert_fx.fx1_params[1].to_wire() as u16,
        96 => t.insert_fx.fx2_params[1].to_wire() as u16,
        97 => t.insert_fx.fx1_params[2].to_wire() as u16,
        98 => t.insert_fx.fx2_params[2].to_wire() as u16,
        99 => t.insert_fx.fx1_params[3].to_wire() as u16,
        100 => t.insert_fx.fx2_params[3].to_wire() as u16,
        101 => t.insert_fx.fx1_params[4].to_wire() as u16,
        102 => t.insert_fx.fx2_params[4].to_wire() as u16,
        103 => t.insert_fx.fx1_params[5].to_wire() as u16,
        104 => t.insert_fx.fx2_params[5].to_wire() as u16,
        105 => t.insert_fx.fx1_params[6].to_wire() as u16,
        106 => t.insert_fx.fx2_params[6].to_wire() as u16,
        107 => t.insert_fx.fx1_params[7].to_wire() as u16,
        108 => t.insert_fx.fx2_params[7].to_wire() as u16,
        109 => t.insert_fx.fx1_params[8].to_wire() as u16,
        110 => t.insert_fx.fx2_params[8].to_wire() as u16,
        111 => t.insert_fx.fx1_params[9].to_wire() as u16,
        112 => t.insert_fx.fx2_params[9].to_wire() as u16,
        113 => t.insert_fx.fx1_params[10].to_wire() as u16,
        114 => t.insert_fx.fx2_params[10].to_wire() as u16,
        115 => t.insert_fx.fx1_params[11].to_wire() as u16,
        116 => t.insert_fx.fx2_params[11].to_wire() as u16,
        117 => t.insert_fx.fx1_params[12].to_wire() as u16,
        118 => t.insert_fx.fx2_params[12].to_wire() as u16,
        119 => t.insert_fx.fx1_params[13].to_wire() as u16,
        120 => t.insert_fx.fx2_params[13].to_wire() as u16,
        121 => t.insert_fx.fx1_params[14].to_wire() as u16,
        122 => t.insert_fx.fx2_params[14].to_wire() as u16,
        123 => t.insert_fx.fx1_params[15].to_wire() as u16,
        124 => t.insert_fx.fx2_params[15].to_wire() as u16,
        125 => t.insert_fx.fx1_params[16].to_wire() as u16,
        126 => t.insert_fx.fx2_params[16].to_wire() as u16,
        127 => t.insert_fx.fx1_params[17].to_wire() as u16,
        128 => t.insert_fx.fx2_params[17].to_wire() as u16,
        129 => t.insert_fx.fx1_params[18].to_wire() as u16,
        130 => t.insert_fx.fx2_params[18].to_wire() as u16,
        131 => t.insert_fx.fx1_params[19].to_wire() as u16,
        132 => t.insert_fx.fx2_params[19].to_wire() as u16,
        133 => t.insert_fx.eq_low_freq as u16,
        134 => t.insert_fx.eq_low_gain.to_wire() as u16,
        135 => t.insert_fx.eq_hi_freq as u16,
        136 => t.insert_fx.eq_hi_gain.to_wire() as u16,
        137 => if t.motion_seq.on { 1u16 } else { 0u16 },
        138 => t.motion_seq.last_step as u16,
        139 => t.motion_seq.seq_type.to_wire() as u16,
        140 => u8::from(t.motion_seq.key_sync) as u16,
        141 => t.motion_seq.resolution.to_wire() as u16,
        _ => 0,
    }
}

/// Writes `v` into global parameter `k`.
#[verifier::spinoff_prover]
#[verifier::rlimit(100)]
/// Whether `new` differs from `old` at most in the field that holds global
/// parameter `k`: every other field, every other element of an array, and
/// for a step switch every other bit of its byte, keeps its value.
pub open spec fn global_frame(old: Program, new: Program, k: usize) -> bool {
    match k {
        0 => new == (Program { voice_mode: new.voice_mode, ..old }),
        1 => new == (Program { arp_timbre: new.arp_timbre, ..old }),
        2 => new == (Program { vcd_knob_assigns: new.vcd_knob_assigns, ..old }) && new.vcd_knob_assigns@ == old.vcd_knob_assigns@.update(0, new.vcd_knob_assigns[0]),
        3 => new == (Program { vcd_knob_assigns: new.vcd_knob_assigns, ..old }) && new.vcd_knob_assigns@ == old.vcd_knob_assigns@.update(1, new.vcd_knob_assigns[1]),
        4 => new == (Program { vcd_knob_assigns: new.vcd_knob_assigns, ..old }) && new.vcd_knob_assigns@ == old.vcd_knob_assigns@.update(2, new.vcd_knob_assigns[2]),
        5 => new == (Program { vcd_knob_assigns: new.vcd_knob_assigns, ..old }) && new.vcd_knob_assigns@ == old.vcd_knob_assigns@.update(3, new.vcd_knob_assigns[3]),
        6 => new == (Program { timbre2_midi_ch: new.timbre2_midi_ch, ..old }),
        7 => new == (Program { center_key: new.center_key, ..old }),
        8 => new == (Program { category: new.category, ..old }),
        9 => new == (Program { tempo: new.tempo, ..old }),
        10 => new == (Program { arp: new.arp, ..old }) && new.arp == (Arpeggio { on: new.arp.on, ..old.arp }),
        11 => new == (Program { arp: new.arp, ..old }) && new.arp == (Arpeggio { key_sync: new.arp.key_sync, ..old.arp }),
        12 => new == (Program { arp: new.arp, ..old }) && new.arp == (Arpeggio { arp_type: new.arp.arp_type, ..old.arp }),
        13 => new == (Program { arp: new.arp, ..old }) && new.arp == (Arpeggio { resolution: new.arp.resolution, ..old.arp }),
        14 => new == (Program { arp: new.arp, ..old }) && new.arp == (Arpeggio { octave_range: new.arp.octave_range, ..old.arp }),
        15 => new == (Program { arp: new.arp, ..old }) && new.arp == (Arpeggio { last_step: new.arp.last_step, ..old.arp }),
        16 => new == (Program { arp: new.arp, ..old }) && new.arp == (Arpeggio { gate_time: new.arp.gate_time, ..old.arp }),
        17 => new == (Program { arp: new.arp, ..old }) && new.arp == (Arpeggio { swing: new.arp.swing, ..old.arp }),
        18 => new == (Program { arp: new.arp, ..old }) && new.arp == (Arpeggio { latch: new.arp.latch, ..old.arp }),
        19 => new == (Program { arp: new.arp, ..old }) && new.arp == (Arpeggio { step_switches: new.arp.step_switches, ..old.arp }) && new.arp.step_switches & !(1u8 << 7u8) == old.arp.step_switches & !(1u8 << 7u8),
        20 => new == (Program { arp: new.arp, ..old }) && new.arp == (Arpeggio { step_switches: new.arp.step_switches, ..old.arp }) && new.arp.step_switches & !(1u8 << 6u8) == old.arp.step_switches & !(1u8 << 6u8),
        21 => new == (Program { arp: new.arp, ..old }) && new.arp == (Arpeggio { step_switches: new.arp.step_switches, ..old.arp }) && new.arp.step_switches & !(1u8 << 5u8) == old.arp.step_switches & !(1u8 << 5u8),
        22 => new == (Program { arp: new.arp, ..old }) && new.arp == (Arpeggio { step_switches: new.arp.step_switches, ..old.arp }) && new.arp.step_switches & !(1u8 << 4u8) == old.arp.step_switches & !(1u8 << 4u8),
        23 => new == (Program { arp: new.arp, ..old }) && new.arp == (Arpeggio { step_switches: new.arp.step_switches, ..old.arp }) && new.arp.step_switches & !(1u8 << 3u8) == old.arp.step_switches & !(1u8 << 3u8),
        24 => new == (Program { arp: new.arp, ..old }) && new.arp == (Arpeggio { step_switches: new.arp.step_switches, ..old.arp }) && new.arp.step_switches & !(1u8 << 2u8) == old.arp.step_switches & !(1u8 << 2u8),
        25 => new == (Program { arp: new.arp, ..old }) && new.arp == (Arpeggio { step_switches: new.arp.step_switches, ..old.arp }) && new.arp.step_switches & !(1u8 << 1u8) == old.arp.step_switches & !(1u8 << 1u8),
        26 => new == (Program { arp: new.arp, ..old }) && new.arp == (Arpeggio { step_switches: new.arp.step_switches, ..old.arp }) && new.arp.step_switches & !(1u8 << 0u8) == old.arp.step_switches & !(1u8 << 0u8),
        27 => new == (Program { master_fx: new.master_fx, ..old }) && new.master_fx == (MasterFx { fx_type: new.master_fx.fx_type, ..old.master_fx }),
        28 => new == (Program { master_fx: new.master_fx, ..old }) && new.master_fx == (MasterFx { knob_assign: new.master_fx.knob_assign, ..old.master_fx }),
        29 => new == (Program { master_fx: new.master_fx, ..old }) && new.master_fx == (MasterFx { params: new.master_fx.params, ..old.master_fx }) && new.master_fx.params@ == old.master_fx.params@.update(0, new.master_fx.params[0]),
        30 => new == (Program { master_fx: new.master_fx, ..old }) && new.master_fx == (MasterFx { params: new.master_fx.params, ..old.master_fx }) && new.master_fx.params@ == old.master_fx.params@.update(1, new.master_fx.params[1]),
        31 => new == (Program { master_fx: new.master_fx, ..old }) && new.master_fx == (MasterFx { params: new.master_fx.params, ..old.master_fx }) && new.master_fx.params@ == old.master_fx.params@.update(2, new.master_fx.params[2]),
        32 => new == (Program { master_fx: new.master_fx, ..old }) && new.master_fx == (MasterFx { params: new.master_fx.params, ..old.master_fx }) && new.master_fx.params@ == old.master_fx.params@.update(3, new.master_fx.params[3]),
        33 => new == (Program { master_fx: new.master_fx, ..old }) && new.master_fx == (MasterFx { params: new.master_fx.params, ..old.master_fx }) && new.master_fx.params@ == old.master_fx.params@.update(4, new.master_fx.params[4]),
        34 => new == (Program { master_fx: new.master_fx, ..old }) && new.master_fx == (MasterFx { params: new.master_fx.params, ..old.master_fx }) && new.master_fx.params@ == old.master_fx.params@.update(5, new.master_fx.params[5]),
        35 => new == (Program { master_fx: new.master_fx, ..old }) && new.master_fx == (MasterFx { params: new.master_fx.params, ..old.master_fx }) && new.master_fx.params@ == old.master_fx.params@.update(6, new.master_fx.params[6]),
        36 => new == (Program { master_fx: new.master_fx, ..old }) && new.master_fx == (MasterFx { params: new.master_fx.params, ..old.master_fx }) && new.master_fx.params@ == old.master_fx.params@.update(7, new.master_fx.params[7]),
        37 => new == (Program { master_fx: new.master_fx, ..old }) && new.master_fx == (MasterFx { params: new.master_fx.params, ..old.master_fx }) && new.master_fx.params@ == old.master_fx.params@.update(8, new.master_fx.params[8]),
        38 => new == (Program { master_fx: new.master_fx, ..old }) && new.master_fx == (MasterFx { params: new.master_fx.params, ..old.master_fx }) && new.master_fx.params@ == old.master_fx.params@.update(9, new.master_fx.params[9]),
        39 => new == (Program { master_fx: new.master_fx, ..old }) && new.master_fx == (MasterFx { params: new.master_fx.params, ..old.master_fx }) && new.master_fx.params@ == old.master_fx.params@.update(10, new.master_fx.params[10]),
        40 => new == (Program { master_fx: new.master_fx, ..old }) && new.master_fx == (MasterFx { params: new.master_fx.params, ..old.master_fx }) && new.master_fx.params@ == old.master_fx.params@.update(11, new.master_fx.params[11]),
        41 => new == (Program { master_fx: new.master_fx, ..old }) && new.master_fx == (MasterFx { params: new.master_fx.params, ..old.master_fx }) && new.master_fx.params@ == old.master_fx.params@.update(12, new.master_fx.params[12]),
        42 => new == (Program { master_fx: new.master_fx, ..old }) && new.master_fx == (MasterFx { params: new.master_fx.params, ..old.master_fx }) && new.master_fx.params@ == old.master_fx.params@.update(13, new.master_fx.params[13]),
        43 => new == (Program { master_fx: new.master_fx, ..old }) && new.master_fx == (MasterFx { params: new.master_fx.params, ..old.master_fx }) && new.master_fx.params@ == old.master_fx.params@.update(14, new.master_fx.params[14]),
        44 => new == (Program { master_fx: new.master_fx, ..old }) && new.master_fx == (MasterFx { params: new.master_fx.params, ..old.master_fx }) && new.master_fx.params@ == old.master_fx.params@.update(15, new.master_fx.params[15]),
        45 => new == (Program { master_fx: new.master_fx, ..old }) && new.master_fx == (MasterFx { params: new.master_fx.params, ..old.master_fx }) && new.master_fx.params@ == old.master_fx.params@.update(16, new.master_fx.params[16]),
        46 => new == (Program { master_fx: new.master_fx, ..old }) && new.master_fx == (MasterFx { params: new.master_fx.params, ..old.master_fx }) && new.master_fx.params@ == old.master_fx.params@.update(17, new.master_fx.params[17]),
        47 => new == (Program { master_fx: new.master_fx, ..old }) && new.master_fx == (MasterFx { params: new.master_fx.params, ..old.master_fx }) && new.master_fx.params@ == old.master_fx.params@.update(18, new.master_fx.params[18]),
        48 => new == (Program { master_fx: new.master_fx, ..old }) && new.master_fx == (MasterFx { params: new.master_fx.params, ..old.master_fx }) && new.master_fx.params@ == old.master_fx.params@.update(19, new.master_fx.params[19]),
        49 => new == (Program { vocoder: new.vocoder, ..old }) && new.vocoder == (Vocoder { on: new.vocoder.on, ..old.vocoder }),
        50 => new == (Program { vocoder: new.vocoder, ..old }) && new.vocoder == (Vocoder { source_formant_rec: new.vocoder.source_formant_rec, ..old.vocoder }),
        51 => new == (Program { vocoder: new.vocoder, ..old }) && new.vocoder == (Vocoder { hpf_gate: new.vocoder.hpf_gate, ..old.vocoder }),
        52 => new == (Program { vocoder: new.vocoder, ..old }) && new.vocoder == (Vocoder { formant_trig_reset: new.vocoder.formant_trig_reset, ..old.vocoder }),
        53 => new == (Program { vocoder: new.vocoder, ..old }) && new.vocoder == (Vocoder { select_timbre2: new.vocoder.select_timbre2, ..old.vocoder }),
        54 => new == (Program { vocoder: new.vocoder, ..old }) && new.vocoder == (Vocoder { gate_sens: new.vocoder.gate_sens, ..old.vocoder }),
        55 => new == (Program { vocoder: new.vocoder, ..old }) && new.vocoder == (Vocoder { threshold: new.vocoder.threshold, ..old.vocoder }),
        56 => new == (Program { vocoder: new.vocoder, ..old }) && new.vocoder == (Vocoder { hpf_level: new.vocoder.hpf_level, ..old.vocoder }),
        57 => new == (Program { vocoder: new.vocoder, ..old }) && new.vocoder == (Vocoder { direct_level: new.vocoder.direct_level, ..old.vocoder }),
        58 => new == (Program { vocoder: new.vocoder, ..old }) && new.vocoder == (Vocoder { timbre1_level: new.vocoder.timbre1_level, ..old.vocoder }),
        59 => new == (Program { vocoder: new.vocoder, ..old }) && new.vocoder == (Vocoder { input1_level: new.vocoder.input1_level, ..old.vocoder }),
        60 => new == (Program { vocoder: new.vocoder, ..old }) && new.vocoder == (Vocoder { vocoder_level: new.vocoder.vocoder_level, ..old.vocoder }),
        61 => new == (Program { vocoder: new.vocoder, ..old }) && new.vocoder == (Vocoder { band_pans: new.vocoder.band_pans, ..old.vocoder }) && new.vocoder.band_pans@ == old.vocoder.band_pans@.update(0, new.vocoder.band_pans[0]),
        62 => new == (Program { vocoder: new.vocoder, ..old }) && new.vocoder == (Vocoder { band_levels: new.vocoder.band_levels, ..old.vocoder }) && new.vocoder.band_levels@ == old.vocoder.band_levels@.update(0, new.vocoder.band_levels[0]),
        63 => new == (Program { vocoder: new.vocoder, ..old }) && new.vocoder == (Vocoder { band_pans: new.vocoder.band_pans, ..old.vocoder }) && new.vocoder.band_pans@ == old.vocoder.band_pans@.update(1, new.vocoder.band_pans[1]),
        64 => new == (Program { vocoder: new.vocoder, ..old }) && new.vocoder == (Vocoder { band_levels: new.vocoder.band_levels, ..old.vocoder }) && new.vocoder.band_levels@ == old.vocoder.band_levels@.update(1, new.vocoder.band_levels[1]),
        65 => new == (Program { vocoder: new.vocoder, ..old }) && new.vocoder == (Vocoder { band_pans: new.vocoder.band_pans, ..old.vocoder }) && new.vocoder.band_pans@ == old.vocoder.band_pans@.update(2, new.vocoder.band_pans[2]),
        66 => new == (Program { vocoder: new.vocoder, ..old }) && new.vocoder == (Vocoder { band_levels: new.vocoder.band_levels, ..old.vocoder }) && new.vocoder.band_levels@ == old.vocoder.band_levels@.update(2, new.vocoder.band_levels[2]),
        67 => new == (Program { vocoder: new.vocoder, ..old }) && new.vocoder == (Vocoder { band_pans: new.vocoder.band_pans, ..old.vocoder }) && new.vocoder.band_pans@ == old.vocoder.band_pans@.update(3, new.vocoder.band_pans[3]),
        68 => new == (Program { vocoder: new.vocoder, ..old }) && new.vocoder == (Vocoder { band_levels: new.vocoder.band_levels, ..old.vocoder }) && new.vocoder.band_levels@ == old.vocoder.band_levels@.update(3, new.vocoder.band_levels[3]),
        69 => new == (Program { vocoder: new.vocoder, ..old }) && new.vocoder == (Vocoder { band_pans: new.vocoder.band_pans, ..old.vocoder }) && new.vocoder.band_pans@ == old.vocoder.band_pans@.update(4, new.vocoder.band_pans[4]),
        70 => new == (Program { vocoder: new.vocoder, ..old }) && new.vocoder == (Vocoder { band_levels: new.vocoder.band_levels, ..old.vocoder }) && new.vocoder.band_levels@ == old.vocoder.band_levels@.update(4, new.vocoder.band_levels[4]),
        71 => new == (Program { vocoder: new.vocoder, ..old }) && new.vocoder == (Vocoder { band_pans: new.vocoder.band_pans, ..old.vocoder }) && new.vocoder.band_pans@ == old.vocoder.band_pans@.update(5, new.vocoder.band_pans[5]),
        72 => new == (Program { vocoder: new.vocoder, ..old }) && new.vocoder == (Vocoder { band_levels: new.vocoder.band_levels, ..old.vocoder }) && new.vocoder.band_levels@ == old.vocoder.band_levels@.update(5, new.vocoder.band_levels[5]),
        73 => new == (Program { vocoder: new.vocoder, ..old }) && new.vocoder == (Vocoder { band_pans: new.vocoder.band_pans, ..old.vocoder }) && new.vocoder.band_pans@ == old.vocoder.band_pans@.update(6, new.vocoder.band_pans[6]),
        74 => new == (Program { vocoder: new.vocoder, ..old }) && new.vocoder == (Vocoder { band_levels: new.vocoder.band_levels, ..old.vocoder }) && new.vocoder.band_levels@ == old.vocoder.band_levels@.update(6, new.vocoder.band_levels[6]),
        75 => new == (Program { vocoder: new.vocoder, ..old }) && new.vocoder == (Vocoder { band_pans: new.vocoder.band_pans, ..old.vocoder }) && new.vocoder.band_pans@ == old.vocoder.band_pans@.update(7, new.vocoder.band_pans[7]),
        76 => new == (Program { vocoder: new.vocoder, ..old }) && new.vocoder == (Vocoder { band_levels: new.vocoder.band_levels, ..old.vocoder }) && new.vocoder.band_levels@ == old.vocoder.band_levels@.update(7, new.vocoder.band_levels[7]),
        77 => new == (Program { vocoder: new.vocoder, ..old }) && new.vocoder == (Vocoder { band_pans: new.vocoder.band_pans, ..old.vocoder }) && new.vocoder.band_pans@ == old.vocoder.band_pans@.update(8, new.vocoder.band_pans[8]),
        78 => new == (Program { vocoder: new.vocoder, ..old }) && new.vocoder == (Vocoder { band_levels: new.vocoder.band_levels, ..old.vocoder }) && new.vocoder.band_levels@ == old.vocoder.band_levels@.update(8, new.vocoder.band_levels[8]),
        79 => new == (Program { vocoder: new.vocoder, ..old }) && new.vocoder == (Vocoder { band_pans: new.vocoder.band_pans, ..old.vocoder }) && new.vocoder.band_pans@ == old.vocoder.band_pans@.update(9, new.vocoder.band_pans[9]),
        80 => new == (Program { vocoder: new.vocoder, ..old }) && new.vocoder == (Vocoder { band_levels: new.vocoder.band_levels, ..old.vocoder }) && new.vocoder.band_levels@ == old.vocoder.band_levels@.update(9, new.vocoder.band_levels[9]),
        81 => new == (Program { vocoder: new.vocoder, ..old }) && new.vocoder == (Vocoder { band_pans: new.vocoder.band_pans, ..old.vocoder }) && new.vocoder.band_pans@ == old.vocoder.band_pans@.update(10, new.vocoder.band_pans[10]),
        82 => new == (Program { vocoder: new.vocoder, ..old }) && new.vocoder == (Vocoder { band_levels: new.vocoder.band_levels, ..old.vocoder }) && new.vocoder.band_levels@ == old.vocoder.band_levels@.update(10, new.vocoder.band_levels[10]),
        83 => new == (Program { vocoder: new.vocoder, ..old }) && new.vocoder == (Vocoder { band_pans: new.vocoder.band_pans, ..old.vocoder }) && new.vocoder.band_pans@ == old.vocoder.band_pans@.update(11, new.vocoder.band_pans[11]),
        84 => new == (Program { vocoder: new.vocoder, ..old }) && new.vocoder == (Vocoder { band_levels: new.vocoder.band_levels, ..old.vocoder }) && new.vocoder.band_levels@ == old.vocoder.band_levels@.update(11, new.vocoder.band_levels[11]),
        85 => new == (Program { vocoder: new.vocoder, ..old }) && new.vocoder == (Vocoder { band_pans: new.vocoder.band_pans, ..old.vocoder }) && new.vocoder.band_pans@ == old.vocoder.band_pans@.update(12, new.vocoder.band_pans[12]),
        86 => new == (Program { vocoder: new.vocoder, ..old }) && new.vocoder == (Vocoder { band_levels: new.vocoder.band_levels, ..old.vocoder }) && new.vocoder.band_levels@ == old.vocoder.band_levels@.update(12, new.vocoder.band_levels[12]),
        87 => new == (Program { vocoder: new.vocoder, ..old }) && new.vocoder == (Vocoder { band_pans: new.vocoder.band_pans, ..old.vocoder }) && new.vocoder.band_pans@ == old.vocoder.band_pans@.update(13, new.vocoder.band_pans[13]),
        88 => new == (Program { vocoder: new.vocoder, ..old }) && new.vocoder == (Vocoder { band_levels: new.vocoder.band_levels, ..old.vocoder }) && new.vocoder.band_levels@ == old.vocoder.band_levels@.update(13, new.vocoder.band_levels[13]),
        89 => new == (Program { vocoder: new.vocoder, ..old }) && new.vocoder == (Vocoder { band_pans: new.vocoder.band_pans, ..old.vocoder }) && new.vocoder.band_pans@ == old.vocoder.band_pans@.update(14, new.vocoder.band_pans[14]),
        90 => new == (Program { vocoder: new.vocoder, ..old }) && new.vocoder == (Vocoder { band_levels: new.vocoder.band_levels, ..old.vocoder }) && new.vocoder.band_levels@ == old.vocoder.band_levels@.update(14, new.vocoder.band_levels[14]),
        91 => new == (Program { vocoder: new.vocoder, ..old }) && new.vocoder == (Vocoder { band_pans: new.vocoder.band_pans, ..old.vocoder }) && new.vocoder.band_pans@ == old.vocoder.band_pans@.update(15, new.vocoder.band_pans[15]),
        92 => new == (Program { vocoder: new.vocoder, ..old }) && new.vocoder == (Vocoder { band_levels: new.vocoder.band_levels, ..old.vocoder }) && new.vocoder.band_levels@ == old.vocoder.band_levels@.update(15, new.vocoder.band_levels[15]),
        93 => new == (Program { vocoder: new.vocoder, ..old }) && new.vocoder == (Vocoder { fc_mod_src: new.vocoder.fc_mod_src, ..old.vocoder }),
        94 => new == (Program { vocoder: new.vocoder, ..old }) && new.vocoder == (Vocoder { cutoff_offset: new.vocoder.cutoff_offset, ..old.vocoder }),
        95 => new == (Program { vocoder: new.vocoder, ..old }) && new.vocoder == (Vocoder { resonance: new.vocoder.resonance, ..old.vocoder }),
        96 => new == (Program { vocoder: new.vocoder, ..old }) && new.vocoder == (Vocoder { fc_mod_int: new.vocoder.fc_mod_int, ..old.vocoder }),
        97 => new == (Program { vocoder: new.vocoder, ..old }) && new.vocoder == (Vocoder { ef_sens: new.vocoder.ef_sens, ..old.vocoder }),
        _ => new == old,
    }
}

/// Whether `new` differs from `old` at most in the field that holds timbre
/// parameter `j`: every other field, and every other element of an array,
/// keeps its value.
pub open spec fn timbre_frame(old: Timbre, new: Timbre, j: usize) -> bool {
    match j {
        0 => new == (Timbre { knob_assigns: new.knob_assigns, ..old }) && new.knob_assigns@ == old.knob_assigns@.update(0, new.knob_assigns[0]),
        1 => new == (Timbre { knob_assigns: new.knob_assigns, ..old }) && new.knob_assigns@ == old.knob_assigns@.update(1, new.knob_assigns[1]),
        2 => new == (Timbre { knob_assigns: new.knob_assigns, ..old }) && new.knob_assigns@ == old.knob_assigns@.update(2, new.knob_assigns[2]),
        3 => new == (Timbre { knob_assigns: new.knob_assigns, ..old }) && new.knob_assigns@ == old.knob_assigns@.update(3, new.knob_assigns[3]),
        4 => new == (Timbre { unison_voice: new.unison_voice, ..old }),
        5 => new == (Timbre { unison_detune: new.unison_detune, ..old }),
        6 => new == (Timbre { unison_spread: new.unison_spread, ..old }),
        7 => new == (Timbre { voice_assign: new.voice_assign, ..old }),
        8 => new == (Timbre { analog_tuning: new.analog_tuning, ..old }),
        9 => new == (Timbre { transpose: new.transpose, ..old }),
        10 => new == (Timbre { detune: new.detune, ..old }),
        11 => new == (Timbre { vibrato_int: new.vibrato_int, ..old }),
        12 => new == (Timbre { bend_range: new.bend_range, ..old }),
        13 => new == (Timbre { portamento: new.portamento, ..old }),
        14 => new == (Timbre { osc1: new.osc1, ..old }) && new.osc1 == (Osc1 { wave: new.osc1.wave, ..old.osc1 }),
        15 => new == (Timbre { osc1: new.osc1, ..old }) && new.osc1 == (Osc1 { osc_mod: new.osc1.osc_mod, ..old.osc1 }),
        16 => new == (Timbre { osc1: new.osc1, ..old }) && new.osc1 == (Osc1 { ctrl1: new.osc1.ctrl1, ..old.osc1 }),
        17 => new == (Timbre { osc1: new.osc1, ..old }) && new.osc1 == (Osc1 { ctrl2: new.osc1.ctrl2, ..old.osc1 }),
        18 => new == (Timbre { osc1: new.osc1, ..old }) && new.osc1 == (Osc1 { dwgs: new.osc1.dwgs, ..old.osc1 }),
        19 => new == (Timbre { osc2: new.osc2, ..old }) && new.osc2 == (Osc2 { wave: new.osc2.wave, ..old.osc2 }),
        20 => new == (Timbre { osc2: new.osc2, ..old }) && new.osc2 == (Osc2 { osc_mod: new.osc2.osc_mod, ..old.osc2 }),
        21 => new == (Timbre { osc2: new.osc2, ..old }) && new.osc2 == (Osc2 { semitone: new.osc2.semitone, ..old.osc2 }),
        22 => new == (Timbre { osc2: new.osc2, ..old }) && new.osc2 == (Osc2 { tune: new.osc2.tune, ..old.osc2 }),
        23 => new == (Timbre { mixer: new.mixer, ..old }) && new.mixer == (Mixer { osc1_level: new.mixer.osc1_level, ..old.mixer }),
        24 => new == (Timbre { mixer: new.mixer, ..old }) && new.mixer == (Mixer { osc2_level: new.mixer.osc2_level, ..old.mixer }),
        25 => new == (Timbre { mixer: new.mixer, ..old }) && new.mixer == (Mixer { noise_level: new.mixer.noise_level, ..old.mixer }),
        26 => new == (Timbre { filter: new.filter, ..old }) && new.filter == (Filter { routing: new.filter.routing, ..old.filter }),
        27 => new == (Timbre { filter: new.filter, ..old }) && new.filter == (Filter { filter2_type: new.filter.filter2_type, ..old.filter }),
        28 => new == (Timbre { filter: new.filter, ..old }) && new.filter == (Filter { balance: new.filter.balance, ..old.filter }),
        29 => new == (Timbre { filter: new.filter, ..old }) && new.filter == (Filter { cutoff1: new.filter.cutoff1, ..old.filter }),
        30 => new == (Timbre { filter: new.filter, ..old }) && new.filter == (Filter { resonance1: new.filter.resonance1, ..old.filter }),
        31 => new == (Timbre { filter: new.filter, ..old }) && new.filter == (Filter { eg1_int1: new.filter.eg1_int1, ..old.filter }),
        32 => new == (Timbre { filter: new.filter, ..old }) && new.filter == (Filter { key_track1: new.filter.key_track1, ..old.filter }),
        33 => new == (Timbre { filter: new.filter, ..old }) && new.filter == (Filter { velo_sens1: new.filter.velo_sens1, ..old.filter }),
        34 => new == (Timbre { filter: new.filter, ..old }) && new.filter == (Filter { cutoff2: new.filter.cutoff2, ..old.filter }),
        35 => new == (Timbre { filter: new.filter, ..old }) && new.filter == (Filter { resonance2: new.filter.resonance2, ..old.filter }),
        36 => new == (Timbre { filter: new.filter, ..old }) && new.filter == (Filter { eg1_int2: new.filter.eg1_int2, ..old.filter }),
        37 => new == (Timbre { filter: new.filter, ..old }) && new.filter == (Filter { key_track2: new.filter.key_track2, ..old.filter }),
        38 => new == (Timbre { filter: new.filter, ..old }) && new.filter == (Filter { velo_sens2: new.filter.velo_sens2, ..old.filter }),
        39 => new == (Timbre { amp: new.amp, ..old }) && new.amp == (Amp { level: new.amp.level, ..old.amp }),
        40 => new == (Timbre { amp: new.amp, ..old }) && new.amp == (Amp { ws_position: new.amp.ws_position, ..old.amp }),
        41 => new == (Timbre { amp: new.amp, ..old }) && new.amp == (Amp { ws_type: new.amp.ws_type, ..old.amp }),
        42 => new == (Timbre { amp: new.amp, ..old }) && new.amp == (Amp { ws_depth: new.amp.ws_depth, ..old.amp }),
        43 => new == (Timbre { amp: new.amp, ..old }) && new.amp == (Amp { pan: new.amp.pan, ..old.amp }),
        44 => new == (Timbre { amp: new.amp, ..old }) && new.amp == (Amp { key_track: new.amp.key_track, ..old.amp }),
        45 => new == (Timbre { amp: new.amp, ..old }) && new.amp == (Amp { punch_level: new.amp.punch_level, ..old.amp }),
        46 => new == (Timbre { eg: new.eg, ..old }) && new.eg@ == old.eg@.update(0, new.eg[0]) && new.eg[0] == (Eg { attack: new.eg[0].attack, ..old.eg[0] }),
        47 => new == (Timbre { eg: new.eg, ..old }) && new.eg@ == old.eg@.update(0, new.eg[0]) && new.eg[0] == (Eg { decay: new.eg[0].decay, ..old.eg[0] }),
        48 => new == (Timbre { eg: new.eg, ..old }) && new.eg@ == old.eg@.update(0, new.eg[0]) && new.eg[0] == (Eg { sustain: new.eg[0].sustain, ..old.eg[0] }),
        49 => new == (Timbre { eg: new.eg, ..old }) && new.eg@ == old.eg@.update(0, new.eg[0]) && new.eg[0] == (Eg { release: new.eg[0].release, ..old.eg[0] }),
        50 => new == (Timbre { eg: new.eg, ..old }) && new.eg@ == old.eg@.update(0, new.eg[0]) && new.eg[0] == (Eg { level_velo: new.eg[0].level_velo, ..old.eg[0] }),
        51 => new == (Timbre { eg: new.eg, ..old }) && new.eg@ == old.eg@.update(1, new.eg[1]) && new.eg[1] == (Eg { attack: new.eg[1].attack, ..old.eg[1] }),
        52 => new == (Timbre { eg: new.eg, ..old }) && new.eg@ == old.eg@.update(1, new.eg[1]) && new.eg[1] == (Eg { decay: new.eg[1].decay, ..old.eg[1] }),
        53 => new == (Timbre { eg: new.eg, ..old }) && new.eg@ == old.eg@.update(1, new.eg[1]) && new.eg[1] == (Eg { sustain: new.eg[1].sustain, ..old.eg[1] }),
        54 => new == (Timbre { eg: new.eg, ..old }) && new.eg@ == old.eg@.update(1, new.eg[1]) && new.eg[1] == (Eg { release: new.eg[1].release, ..old.eg[1] }),
        55 => new == (Timbre { eg: new.eg, ..old }) && new.eg@ == old.eg@.update(1, new.eg[1]) && new.eg[1] == (Eg { level_velo: new.eg[1].level_velo, ..old.eg[1] }),
        56 => new == (Timbre { eg: new.eg, ..old }) && new.eg@ == old.eg@.update(2, new.eg[2]) && new.eg[2] == (Eg { attack: new.eg[2].attack, ..old.eg[2] }),
        57 => new == (Timbre { eg: new.eg, ..old }) && new.eg@ == old.eg@.update(2, new.eg[2]) && new.eg[2] == (Eg { decay: new.eg[2].decay, ..old.eg[2] }),
        58 => new == (Timbre { eg: new.eg, ..old }) && new.eg@ == old.eg@.update(2, new.eg[2]) && new.eg[2] == (Eg { sustain: new.eg[2].sustain, ..old.eg[2] }),
        59 => new == (Timbre { eg: new.eg, ..old }) && new.eg@ == old.eg@.update(2, new.eg[2]) && new.eg[2] == (Eg { release: new.eg[2].release, ..old.eg[2] }),
        60 => new == (Timbre { eg: new.eg, ..old }) && new.eg@ == old.eg@.update(2, new.eg[2]) && new.eg[2] == (Eg { level_velo: new.eg[2].level_velo, ..old.eg[2] }),
        61 => new == (Timbre { lfo: new.lfo, ..old }) && new.lfo@ == old.lfo@.update(0, new.lfo[0]) && new.lfo[0] == (Lfo { wave: new.lfo[0].wave, ..old.lfo[0] }),
        62 => new == (Timbre { lfo: new.lfo, ..old }) && new.lfo@ == old.lfo@.update(0, new.lfo[0]) && new.lfo[0] == (Lfo { freq: new.lfo[0].freq, ..old.lfo[0] }),
        63 => new == (Timbre { lfo: new.lfo, ..old }) && new.lfo@ == old.lfo@.update(0, new.lfo[0]) && new.lfo[0] == (Lfo { bpm_sync: new.lfo[0].bpm_sync, ..old.lfo[0] }),
        64 => new == (Timbre { lfo: new.lfo, ..old }) && new.lfo@ == old.lfo@.update(0, new.lfo[0]) && new.lfo[0] == (Lfo { key_sync: new.lfo[0].key_sync, ..old.lfo[0] }),
        65 => new == (Timbre { lfo: new.lfo, ..old }) && new.lfo@ == old.lfo@.update(0, new.lfo[0]) && new.lfo[0] == (Lfo { sync_note: new.lfo[0].sync_note, ..old.lfo[0] }),
        66 => new == (Timbre { lfo: new.lfo, ..old }) && new.lfo@ == old.lfo@.update(1, new.lfo[1]) && new.lfo[1] == (Lfo { wave: new.lfo[1].wave, ..old.lfo[1] }),
        67 => new == (Timbre { lfo: new.lfo, ..old }) && new.lfo@ == old.lfo@.update(1, new.lfo[1]) && new.lfo[1] == (Lfo { freq: new.lfo[1].freq, ..old.lfo[1] }),
        68 => new == (Timbre { lfo: new.lfo, ..old }) && new.lfo@ == old.lfo@.update(1, new.lfo[1]) && new.lfo[1] == (Lfo { bpm_sync: new.lfo[1].bpm_sync, ..old.lfo[1] }),
        69 => new == (Timbre { lfo: new.lfo, ..old }) && new.lfo@ == old.lfo@.update(1, new.lfo[1]) && new.lfo[1] == (Lfo { key_sync: new.lfo[1].key_sync, ..old.lfo[1] }),
        70 => new == (Timbre { lfo: new.lfo, ..old }) && new.lfo@ == old.lfo@.update(1, new.lfo[1]) && new.lfo[1] == (Lfo { sync_note: new.lfo[1].sync_note, ..old.lfo[1] }),
        71 => new == (Timbre { patches: new.patches, ..old }) && new.patches@ == old.patches@.update(0, new.patches[0]) && new.patches[0] == (Patch { src: new.patches[0].src, ..old.patches[0] }),
        72 => new == (Timbre { patches: new.patches, ..old }) && new.patches@ == old.patches@.update(0, new.patches[0]) && new.patches[0] == (Patch { dst: new.patches[0].dst, ..old.patches[0] }),
        73 => new == (Timbre { patches: new.patches, ..old }) && new.patches@ == old.patches@.update(0, new.patches[0]) && new.patches[0] == (Patch { int: new.patches[0].int, ..old.patches[0] }),
        74 => new == (Timbre { patches: new.patches, ..old }) && new.patches@ == old.patches@.update(1, new.patches[1]) && new.patches[1] == (Patch { src: new.patches[1].src, ..old.patches[1] }),
        75 => new == (Timbre { patches: new.patches, ..old }) && new.patches@ == old.patches@.update(1, new.patches[1]) && new.patches[1] == (Patch { dst: new.patches[1].dst, ..old.patches[1] }),
        76 => new == (Timbre { patches: new.patches, ..old }) && new.patches@ == old.patches@.update(1, new.patches[1]) && new.patches[1] == (Patch { int: new.patches[1].int, ..old.patches[1] }),
        77 => new == (Timbre { patches: new.patches, ..old }) && new.patches@ == old.patches@.update(2, new.patches[2]) && new.patches[2] == (Patch { src: new.patches[2].src, ..old.patches[2] }),
        78 => new == (Timbre { patches: new.patches, ..old }) && new.patches@ == old.patches@.update(2, new.patches[2]) && new.patches[2] == (Patch { dst: new.patches[2].dst, ..old.patches[2] }),
        79 => new == (Timbre { patches: new.patches, ..old }) && new.patches@ == old.patches@.update(2, new.patches[2]) && new.patches[2] == (Patch { int: new.patches[2].int, ..old.patches[2] }),
        80 => new == (Timbre { patches: new.patches, ..old }) && new.patches@ == old.patches@.update(3, new.patches[3]) && new.patches[3] == (Patch { src: new.patches[3].src, ..old.patches[3] }),
        81 => new == (Timbre { patches: new.patches, ..old }) && new.patches@ == old.patches@.update(3, new.patches[3]) && new.patches[3] == (Patch { dst: new.patches[3].dst, ..old.patches[3] }),
        82 => new == (Timbre { patches: new.patches, ..old }) && new.patches@ == old.patches@.update(3, new.patches[3]) && new.patches[3] == (Patch { int: new.patches[3].int, ..old.patches[3] }),
        83 => new == (Timbre { patches: new.patches, ..old }) && new.patches@ == old.patches@.update(4, new.patches[4]) && new.patches[4] == (Patch { src: new.patches[4].src, ..old.patches[4] }),
        84 => new == (Timbre { patches: new.patches, ..old }) && new.patches@ == old.patches@.update(4, new.patches[4]) && new.patches[4] == (Patch { dst: new.patches[4].dst, ..old.patches[4] }),
        85 => new == (Timbre { patches: new.patches, ..old }) && new.patches@ == old.patches@.update(4, new.patches[4]) && new.patches[4] == (Patch { int: new.patches[4].int, ..old.patches[4] }),
        86 => new == (Timbre { patches: new.patches, ..old }) && new.patches@ == old.patches@.update(5, new.patches[5]) && new.patches[5] == (Patch { src: new.patches[5].src, ..old.patches[5] }),
        87 => new == (Timbre { patches: new.patches, ..old }) && new.patches@ == old.patches@.update(5, new.patches[5]) && new.patches[5] == (Patch { dst: new.patches[5].dst, ..old.patches[5] }),
        88 => new == (Timbre { patches: new.patches, ..old }) && new.patches@ == old.patches@.update(5, new.patches[5]) && new.patches[5] == (Patch { int: new.patches[5].int, ..old.patches[5] }),
        89 => new == (Timbre { insert_fx: new.insert_fx, ..old }) && new.insert_fx == (InsertFx { fx1_type: new.insert_fx.fx1_type, ..old.insert_fx }),
        90 => new == (Timbre { insert_fx: new.insert_fx, ..old }) && new.insert_fx == (InsertFx { fx1_knob: new.insert_fx.fx1_knob, ..old.insert_fx }),
        91 => new == (Timbre { insert_fx: new.insert_fx, ..old }) && new.insert_fx == (InsertFx { fx2_type: new.insert_fx.fx2_type, ..old.insert_fx }),
        92 => new == (Timbre { insert_fx: new.insert_fx, ..old }) && new.insert_fx == (InsertFx { fx2_knob: new.insert_fx.fx2_knob, ..old.insert_fx }),
        93 => new == (Timbre { insert_fx: new.insert_fx, ..old }) && new.insert_fx == (InsertFx { fx1_params: new.insert_fx.fx1_params, ..old.insert_fx }) && new.insert_fx.fx1_params@ == old.insert_fx.fx1_params@.update(0, new.insert_fx.fx1_params[0]),
        94 => new == (Timbre { insert_fx: new.insert_fx, ..old }) && new.insert_fx == (InsertFx { fx2_params: new.insert_fx.fx2_params, ..old.insert_fx }) && new.insert_fx.fx2_params@ == old.insert_fx.fx2_params@.update(0, new.insert_fx.fx2_params[0]),
        95 => new == (Timbre { insert_fx: new.insert_fx, ..old }) && new.insert_fx == (InsertFx { fx1_params: new.insert_fx.fx1_params, ..old.insert_fx }) && new.insert_fx.fx1_params@ == old.insert_fx.fx1_params@.update(1, new.insert_fx.fx1_params[1]),
        96 => new == (Timbre { insert_fx: new.insert_fx, ..old }) && new.insert_fx == (InsertFx { fx2_params: new.insert_fx.fx2_params, ..old.insert_fx }) && new.insert_fx.fx2_params@ == old.insert_fx.fx2_params@.update(1, new.insert_fx.fx2_params[1]),
        97 => new == (Timbre { insert_fx: new.insert_fx, ..old }) && new.insert_fx == (InsertFx { fx1_params: new.insert_fx.fx1_params, ..old.insert_fx }) && new.insert_fx.fx1_params@ == old.insert_fx.fx1_params@.update(2, new.insert_fx.fx1_params[2]),
        98 => new == (Timbre { insert_fx: new.insert_fx, ..old }) && new.insert_fx == (InsertFx { fx2_params: new.insert_fx.fx2_params, ..old.insert_fx }) && new.insert_fx.fx2_params@ == old.insert_fx.fx2_params@.update(2, new.insert_fx.fx2_params[2]),
        99 => new == (Timbre { insert_fx: new.insert_fx, ..old }) && new.insert_fx == (InsertFx { fx1_params: new.insert_fx.fx1_params, ..old.insert_fx }) && new.insert_fx.fx1_params@ == old.insert_fx.fx1_params@.update(3, new.insert_fx.fx1_params[3]),
        100 => new == (Timbre { insert_fx: new.insert_fx, ..old }) && new.insert_fx == (InsertFx { fx2_params: new.insert_fx.fx2_params, ..old.insert_fx }) && new.insert_fx.fx2_params@ == old.insert_fx.fx2_params@.update(3, new.insert_fx.fx2_params[3]),
        101 => new == (Timbre { insert_fx: new.insert_fx, ..old }) && new.insert_fx == (InsertFx { fx1_params: new.insert_fx.fx1_params, ..old.insert_fx }) && new.insert_fx.fx1_params@ == old.insert_fx.fx1_params@.update(4, new.insert_fx.fx1_params[4]),
        102 => new == (Timbre { insert_fx: new.insert_fx, ..old }) && new.insert_fx == (InsertFx { fx2_params: new.insert_fx.fx2_params, ..old.insert_fx }) && new.insert_fx.fx2_params@ == old.insert_fx.fx2_params@.update(4, new.insert_fx.fx2_params[4]),
        103 => new == (Timbre { insert_fx: new.insert_fx, ..old }) && new.insert_fx == (InsertFx { fx1_params: new.insert_fx.fx1_params, ..old.insert_fx }) && new.insert_fx.fx1_params@ == old.insert_fx.fx1_params@.update(5, new.insert_fx.fx1_params[5]),
        104 => new == (Timbre { insert_fx: new.insert_fx, ..old }) && new.insert_fx == (InsertFx { fx2_params: new.insert_fx.fx2_params, ..old.insert_fx }) && new.insert_fx.fx2_params@ == old.insert_fx.fx2_params@.update(5, new.insert_fx.fx2_params[5]),
        105 => new == (Timbre { insert_fx: new.insert_fx, ..old }) && new.insert_fx == (InsertFx { fx1_params: new.insert_fx.fx1_params, ..old.insert_fx }) && new.insert_fx.fx1_params@ == old.insert_fx.fx1_params@.update(6, new.insert_fx.fx1_params[6]),
        106 => new == (Timbre { insert_fx: new.insert_fx, ..old }) && new.insert_fx == (InsertFx { fx2_params: new.insert_fx.fx2_params, ..old.insert_fx }) && new.insert_fx.fx2_params@ == old.insert_fx.fx2_params@.update(6, new.insert_fx.fx2_params[6]),
        107 => new == (Timbre { insert_fx: new.insert_fx, ..old }) && new.insert_fx == (InsertFx { fx1_params: new.insert_fx.fx1_params, ..old.insert_fx }) && new.insert_fx.fx1_params@ == old.insert_fx.fx1_params@.update(7, new.insert_fx.fx1_params[7]),
        108 => new == (Timbre { insert_fx: new.insert_fx, ..old }) && new.insert_fx == (InsertFx { fx2_params: new.insert_fx.fx2_params, ..old.insert_fx }) && new.insert_fx.fx2_params@ == old.insert_fx.fx2_params@.update(7, new.insert_fx.fx2_params[7]),
        109 => new == (Timbre { insert_fx: new.insert_fx, ..old }) && new.insert_fx == (InsertFx { fx1_params: new.insert_fx.fx1_params, ..old.insert_fx }) && new.insert_fx.fx1_params@ == old.insert_fx.fx1_params@.update(8, new.insert_fx.fx1_params[8]),
        110 => new == (Timbre { insert_fx: new.insert_fx, ..old }) && new.insert_fx == (InsertFx { fx2_params: new.insert_fx.fx2_params, ..old.insert_fx }) && new.insert_fx.fx2_params@ == old.insert_fx.fx2_params@.update(8, new.insert_fx.fx2_params[8]),
        111 => new == (Timbre { insert_fx: new.insert_fx, ..old }) && new.insert_fx == (InsertFx { fx1_params: new.insert_fx.fx1_params, ..old.insert_fx }) && new.insert_fx.fx1_params@ == old.insert_fx.fx1_params@.update(9, new.insert_fx.fx1_params[9]),
        112 => new == (Timbre { insert_fx: new.insert_fx, ..old }) && new.insert_fx == (InsertFx { fx2_params: new.insert_fx.fx2_params, ..old.insert_fx }) && new.insert_fx.fx2_params@ == old.insert_fx.fx2_params@.update(9, new.insert_fx.fx2_params[9]),
        113 => new == (Timbre { insert_fx: new.insert_fx, ..old }) && new.insert_fx == (InsertFx { fx1_params: new.insert_fx.fx1_params, ..old.insert_fx }) && new.insert_fx.fx1_params@ == old.insert_fx.fx1_params@.update(10, new.insert_fx.fx1_params[10]),
        114 => new == (Timbre { insert_fx: new.insert_fx, ..old }) && new.insert_fx == (InsertFx { fx2_params: new.insert_fx.fx2_params, ..old.insert_fx }) && new.insert_fx.fx2_params@ == old.insert_fx.fx2_params@.update(10, new.insert_fx.fx2_params[10]),
        115 => new == (Timbre { insert_fx: new.insert_fx, ..old }) && new.insert_fx == (InsertFx { fx1_params: new.insert_fx.fx1_params, ..old.insert_fx }) && new.insert_fx.fx1_params@ == old.insert_fx.fx1_params@.update(11, new.insert_fx.fx1_params[11]),
        116 => new == (Timbre { insert_fx: new.insert_fx, ..old }) && new.insert_fx == (InsertFx { fx2_params: new.insert_fx.fx2_params, ..old.insert_fx }) && new.insert_fx.fx2_params@ == old.insert_fx.fx2_params@.update(11, new.insert_fx.fx2_params[11]),
        117 => new == (Timbre { insert_fx: new.insert_fx, ..old }) && new.insert_fx == (InsertFx { fx1_params: new.insert_fx.fx1_params, ..old.insert_fx }) && new.insert_fx.fx1_params@ == old.insert_fx.fx1_params@.update(12, new.insert_fx.fx1_params[12]),
        118 => new == (Timbre { insert_fx: new.insert_fx, ..old }) && new.insert_fx == (InsertFx { fx2_params: new.insert_fx.fx2_params, ..old.insert_fx }) && new.insert_fx.fx2_params@ == old.insert_fx.fx2_params@.update(12, new.insert_fx.fx2_params[12]),
        119 => new == (Timbre { insert_fx: new.insert_fx, ..old }) && new.insert_fx == (InsertFx { fx1_params: new.insert_fx.fx1_params, ..old.insert_fx }) && new.insert_fx.fx1_params@ == old.insert_fx.fx1_params@.update(13, new.insert_fx.fx1_params[13]),
        120 => new == (Timbre { insert_fx: new.insert_fx, ..old }) && new.insert_fx == (InsertFx { fx2_params: new.insert_fx.fx2_params, ..old.insert_fx }) && new.insert_fx.fx2_params@ == old.insert_fx.fx2_params@.update(13, new.insert_fx.fx2_params[13]),
        121 => new == (Timbre { insert_fx: new.insert_fx, ..old }) && new.insert_fx == (InsertFx { fx1_params: new.insert_fx.fx1_params, ..old.insert_fx }) && new.insert_fx.fx1_params@ == old.insert_fx.fx1_params@.update(14, new.insert_fx.fx1_params[14]),
        122 => new == (Timbre { insert_fx: new.insert_fx, ..old }) && new.insert_fx == (InsertFx { fx2_params: new.insert_fx.fx2_params, ..old.insert_fx }) && new.insert_fx.fx2_params@ == old.insert_fx.fx2_params@.update(14, new.insert_fx.fx2_params[14]),
        123 => new == (Timbre { insert_fx: new.insert_fx, ..old }) && new.insert_fx == (InsertFx { fx1_params: new.insert_fx.fx1_params, ..old.insert_fx }) && new.insert_fx.fx1_params@ == old.insert_fx.fx1_params@.update(15, new.insert_fx.fx1_params[15]),
        124 => new == (Timbre { insert_fx: new.insert_fx, ..old }) && new.insert_fx == (InsertFx { fx2_params: new.insert_fx.fx2_params, ..old.insert_fx }) && new.insert_fx.fx2_params@ == old.insert_fx.fx2_params@.update(15, new.insert_fx.fx2_params[15]),
        125 => new == (Timbre { insert_fx: new.insert_fx, ..old }) && new.insert_fx == (InsertFx { fx1_params: new.insert_fx.fx1_params, ..old.insert_fx }) && new.insert_fx.fx1_params@ == old.insert_fx.fx1_params@.update(16, new.insert_fx.fx1_params[16]),
        126 => new == (Timbre { insert_fx: new.insert_fx, ..old }) && new.insert_fx == (InsertFx { fx2_params: new.insert_fx.fx2_params, ..old.insert_fx }) && new.insert_fx.fx2_params@ == old.insert_fx.fx2_params@.update(16, new.insert_fx.fx2_params[16]),
        127 => new == (Timbre { insert_fx: new.insert_fx, ..old }) && new.insert_fx == (InsertFx { fx1_params: new.insert_fx.fx1_params, ..old.insert_fx }) && new.insert_fx.fx1_params@ == old.insert_fx.fx1_params@.update(17, new.insert_fx.fx1_params[17]),
        128 => new == (Timbre { insert_fx: new.insert_fx, ..old }) && new.insert_fx == (InsertFx { fx2_params: new.insert_fx.fx2_params, ..old.insert_fx }) && new.insert_fx.fx2_params@ == old.insert_fx.fx2_params@.update(17, new.insert_fx.fx2_params[17]),
        129 => new == (Timbre { insert_fx: new.insert_fx, ..old }) && new.insert_fx == (InsertFx { fx1_params: new.insert_fx.fx1_params, ..old.insert_fx }) && new.insert_fx.fx1_params@ == old.insert_fx.fx1_params@.update(18, new.insert_fx.fx1_params[18]),
        130 => new == (Timbre { insert_fx: new.insert_fx, ..old }) && new.insert_fx == (InsertFx { fx2_params: new.insert_fx.fx2_params, ..old.insert_fx }) && new.insert_fx.fx2_params@ == old.insert_fx.fx2_params@.update(18, new.insert_fx.fx2_params[18]),
        131 => new == (Timbre { insert_fx: new.insert_fx, ..old }) && new.insert_fx == (InsertFx { fx1_params: new.insert_fx.fx1_params, ..old.insert_fx }) && new.insert_fx.fx1_params@ == old.insert_fx.fx1_params@.update(19, new.insert_fx.fx1_params[19]),
        132 => new == (Timbre { insert_fx: new.insert_fx, ..old }) && new.insert_fx == (InsertFx { fx2_params: new.insert_fx.fx2_params, ..old.insert_fx }) && new.insert_fx.fx2_params@ == old.insert_fx.fx2_params@.update(19, new.insert_fx.fx2_params[19]),
        133 => new == (Timbre { insert_fx: new.insert_fx, ..old }) && new.insert_fx == (InsertFx { eq_low_freq: new.insert_fx.eq_low_freq, ..old.insert_fx }),
        134 => new == (Timbre { insert_fx: new.insert_fx, ..old }) && new.insert_fx == (InsertFx { eq_low_gain: new.insert_fx.eq_low_gain, ..old.insert_fx }),
        135 => new == (Timbre { insert_fx: new.insert_fx, ..old }) && new.insert_fx == (InsertFx { eq_hi_freq: new.insert_fx.eq_hi_freq, ..old.insert_fx }),
        136 => new == (Timbre { insert_fx: new.insert_fx, ..old }) && new.insert_fx == (InsertFx { eq_hi_gain: new.insert_fx.eq_hi_gain, ..old.insert_fx }),
        137 => new == (Timbre { motion_seq: new.motion_seq, ..old }) && new.motion_seq == (MotionSeq { on: new.motion_seq.on, ..old.motion_seq }),
        138 => new == (Timbre { motion_seq: new.motion_seq, ..old }) && new.motion_seq == (MotionSeq { last_step: new.motion_seq.last_step, ..old.motion_seq }),
        139 => new == (Timbre { motion_seq: new.motion_seq, ..old }) && new.motion_seq == (MotionSeq { seq_type: new.motion_seq.seq_type, ..old.motion_seq }),
        140 => new == (Timbre { motion_seq: new.motion_seq, ..old }) && new.motion_seq == (MotionSeq { key_sync: new.motion_seq.key_sync, ..old.motion_seq }),
        141 => new == (Timbre { motion_seq: new.motion_seq, ..old }) && new.motion_seq == (MotionSeq { resolution: new.motion_seq.resolution, ..old.motion_seq }),
        _ => new == old,
    }
}

/// Whether `new` differs from `old` at most in the field that holds program
/// parameter `k`.
pub open spec fn param_frame(old: Program, new: Program, k: usize) -> bool {
    if k < 98 {
        global_frame(old, new, k)
    } else if k < 240 {
        new == (Program { timbre1: new.timbre1, ..old }) && timbre_frame(old.timbre1, new.timbre1, timbre_index(k))
    } else {
        new == (Program { timbre2: new.timbre2, ..old }) && timbre_frame(old.timbre2, new.timbre2, timbre_index(k))
    }
}

fn write_global(p: &mut Program, k: usize, v: u16)
    requires
        k < GLOBAL_PARAMS,
    ensures
        global_value(*final(p), k) == stored(global_kind(k), v),
        global_frame(*old(p), *final(p), k),
        final(p).timbre1 == old(p).timbre1,
        final(p).timbre2 == old(p).timbre2,
{
    if k < 16 {
        write_global_0(p, k, v);
    } else if k < 33 {
        write_global_1(p, k, v);
    } else if k < 50 {
        write_global_2(p, k, v);
    } else if k < 66 {
        write_global_3(p, k, v);
    } else if k < 82 {
        write_global_4(p, k, v);
    } else {
        write_global_5(p, k, v);
    }
}

/// Writes global parameters 0 ..< 16.
#[verifier::spinoff_prover]
#[verifier::rlimit(60)]
fn write_global_0(p: &mut Program, k: usize, v: u16)
    requires
        0 <= k < 16,
    ensures
        global_value(*final(p), k) == stored(global_kind(k), v),
        global_frame(*old(p), *final(p), k),
        final(p).timbre1 == old(p).timbre1,
        final(p).timbre2 == old(p).timbre2,
{
    match k {
        0 => {
            p.voice_mode = VoiceMode::decode(v as u8);
        },
        1 => {
            p.arp_timbre = ArpTimbre::decode(v as u8);
        },
        2 => {
            p.vcd_knob_assigns[0] = KnobAssign::from_wire(v as u8);
        },
        3 => {
            p.vcd_knob_assigns[1] = KnobAssign::from_wire(v as u8);
        },
        4 => {
            p.vcd_knob_assigns[2] = KnobAssign::from_wire(v as u8);
        },
        5 => {
            p.vcd_knob_assigns[3] = KnobAssign::from_wire(v as u8);
        },
        6 => {
            let c: u8 = if (v as u8) < 16u8 { v as u8 } else { 16u8 };
            p.timbre2_midi_ch = Timbre2MidiCh::decode(c);
        },
        7 => {
            p.center_key = v as u8;
        },
        8 => {
            p.category = Category::from_wire(v as u8);
        },
        9 => {
            p.tempo = Tempo::from_wire(v);
        },
        10 => {
            p.arp.on = v != 0;
        },
        11 => {
            p.arp.key_sync = v != 0;
        },
        12 => {
            p.arp.arp_type = ArpType::decode(v as u8);
        },
        13 => {
            p.arp.resolution = ArpResolution::from_wire(v as u8);
        },
        14 => {
            p.arp.octave_range = (v as u8) & 0x03u8;
        },
        15 => {
            p.arp.last_step = (v as u8) & 0x07u8;
        },
        _ => {},
    }
}

/// Writes global parameters 16 ..< 33.
#[verifier::spinoff_prover]
#[verifier::rlimit(60)]
fn write_global_1(p: &mut Program, k: usize, v: u16)
    requires
        16 <= k < 33,
    ensures
        global_value(*final(p), k) == stored(global_kind(k), v),
        global_frame(*old(p), *final(p), k),
        final(p).timbre1 == old(p).timbre1,
        final(p).timbre2 == old(p).timbre2,
{
    match k {
        16 => {
            p.arp.gate_time = GateTime::from_wire(v as u8);
        },
        17 => {
            p.arp.swing = Swing50::from_wire(v as u8);
        },
        18 => {
            p.arp.latch = v != 0;
        },
        19 => {
            let mask: u8 = 1u8 << 7u8;
            proof {
                lemma_bit_write(p.arp.step_switches, 7u8);
            }
            if v != 0 {
                p.arp.step_switches = p.arp.step_switches | mask;
            } else {
                p.arp.step_switches = p.arp.step_switches & !mask;
            }
        },
        20 => {
            let mask: u8 = 1u8 << 6u8;
            proof {
                lemma_bit_write(p.arp.step_switches, 6u8);
            }
            if v != 0 {
                p.arp.step_switches = p.arp.step_switches | mask;
            } else {
                p.arp.step_switches = p.arp.step_switches & !mask;
            }
        },
        21 => {
            let mask: u8 = 1u8 << 5u8;
            proof {
                lemma_bit_write(p.arp.step_switches, 5u8);
            }
            if v != 0 {
                p.arp.step_switches = p.arp.step_switches | mask;
            } else {
                p.arp.step_switches = p.arp.step_switches & !mask;
            }
        },
        22 => {
            let mask: u8 = 1u8 << 4u8;
            proof {
                lemma_bit_write(p.arp.step_switches, 4u8);
            }
            if v != 0 {
                p.arp.step_switches = p.arp.step_switches | mask;
            } else {
                p.arp.step_switches = p.arp.step_switches & !mask;
            }
        },
        23 => {
            let mask: u8 = 1u8 << 3u8;
            proof {
                lemma_bit_write(p.arp.step_switches, 3u8);
            }
            if v != 0 {
                p.arp.step_switches = p.arp.step_switches | mask;
            } else {
                p.arp.step_switches = p.arp.step_switches & !mask;
            }
        },
        24 => {
            let mask: u8 = 1u8 << 2u8;
            proof {
                lemma_bit_write(p.arp.step_switches, 2u8);
            }
            if v != 0 {
                p.arp.step_switches = p.arp.step_switches | mask;
            } else {
                p.arp.step_switches = p.arp.step_switches & !mask;
            }
        },
        25 => {
            let mask: u8 = 1u8 << 1u8;
            proof {
                lemma_bit_write(p.arp.step_switches, 1u8);
            }
            if v != 0 {
                p.arp.step_switches = p.arp.step_switches | mask;
            } else {
                p.arp.step_switches = p.arp.step_switches & !mask;
            }
        },
        26 => {
            let mask: u8 = 1u8 << 0u8;
            proof {
                lemma_bit_write(p.arp.step_switches, 0u8);
            }
            if v != 0 {
                p.arp.step_switches = p.arp.step_switches | mask;
            } else {
                p.arp.step_switches = p.arp.step_switches & !mask;
            }
        },
        27 => {
            p.master_fx.fx_type = FxType::decode(v as u8);
        },
        28 => {
            p.master_fx.knob_assign = (v as u8) & 0x1Fu8;
        },
        29 => {
            p.master_fx.params[0] = FxParam::from_wire(v as u8);
        },
        30 => {
            p.master_fx.params[1] = FxParam::from_wire(v as u8);
        },
        31 => {
            p.master_fx.params[2] = FxParam::from_wire(v as u8);
        },
        32 => {
            p.master_fx.params[3] = FxParam::from_wire(v as u8);
        },
        _ => {},
    }
}

/// Writes global parameters 33 ..< 50.
#[verifier::spinoff_prover]
#[verifier::rlimit(60)]
fn write_global_2(p: &mut Program, k: usize, v: u16)
    requires
        33 <= k < 50,
    ensures
        global_value(*final(p), k) == stored(global_kind(k), v),
        global_frame(*old(p), *final(p), k),
        final(p).timbre1 == old(p).timbre1,
        final(p).timbre2 == old(p).timbre2,
{
    match k {
        33 => {
            p.master_fx.params[4] = FxParam::from_wire(v as u8);
        },
        34 => {
            p.master_fx.params[5] = FxParam::from_wire(v as u8);
        },
        35 => {
            p.master_fx.params[6] = FxParam::from_wire(v as u8);
        },
        36 => {
            p.master_fx.params[7] = FxParam::from_wire(v as u8);
        },
        37 => {
            p.master_fx.params[8] = FxParam::from_wire(v as u8);
        },
        38 => {
            p.master_fx.params[9] = FxParam::from_wire(v as u8);
        },
        39 => {
            p.master_fx.params[10] = FxParam::from_wire(v as u8);
        },
        40 => {
            p.master_fx.params[11] = FxParam::from_wire(v as u8);
        },
        41 => {
            p.master_fx.params[12] = FxParam::from_wire(v as u8);
        },
        42 => {
            p.master_fx.params[13] = FxParam::from_wire(v as u8);
        },
        43 => {
            p.master_fx.params[14] = FxParam::from_wire(v as u8);
        },
        44 => {
            p.master_fx.params[15] = FxParam::from_wire(v as u8);
        },
        45 => {
            p.master_fx.params[16] = FxParam::from_wire(v as u8);
        },
        46 => {
            p.master_fx.params[17] = FxParam::from_wire(v as u8);
        },
        47 => {
            p.master_fx.params[18] = FxParam::from_wire(v as u8);
        },
        48 => {
            p.master_fx.params[19] = FxParam::from_wire(v as u8);
        },
        49 => {
            p.vocoder.on = v != 0;
        },
        _ => {},
    }
}

/// Writes global parameters 50 ..< 66.
#[verifier::spinoff_prover]
#[verifier::rlimit(60)]
fn write_global_3(p: &mut Program, k: usize, v: u16)
    requires
        50 <= k < 66,
    ensures
        global_value(*final(p), k) == stored(global_kind(k), v),
        global_frame(*old(p), *final(p), k),
        final(p).timbre1 == old(p).timbre1,
        final(p).timbre2 == old(p).timbre2,
{
    match k {
        50 => {
            p.vocoder.source_formant_rec = v != 0;
        },
        51 => {
            p.vocoder.hpf_gate = v != 0;
        },
        52 => {
            p.vocoder.formant_trig_reset = v != 0;
        },
        53 => {
            p.vocoder.select_timbre2 = v != 0;
        },
        54 => {
            p.vocoder.gate_sens = U7::from_wire(v as u8);
        },
        55 => {
            p.vocoder.threshold = U7::from_wire(v as u8);
        },
        56 => {
            p.vocoder.hpf_level = U7::from_wire(v as u8);
        },
        57 => {
            p.vocoder.direct_level = U7::from_wire(v as u8);
        },
        58 => {
            p.vocoder.timbre1_level = U7::from_wire(v as u8);
        },
        59 => {
            p.vocoder.input1_level = U7::from_wire(v as u8);
        },
        60 => {
            p.vocoder.vocoder_level = U7::from_wire(v as u8);
        },
        61 => {
            p.vocoder.band_pans[0] = Pan::from_wire(v as u8);
        },
        62 => {
            p.vocoder.band_levels[0] = U7::from_wire(v as u8);
        },
        63 => {
            p.vocoder.band_pans[1] = Pan::from_wire(v as u8);
        },
        64 => {
            p.vocoder.band_levels[1] = U7::from_wire(v as u8);
        },
        65 => {
            p.vocoder.band_pans[2] = Pan::from_wire(v as u8);
        },
        _ => {},
    }
}

/// Writes global parameters 66 ..< 82.
#[verifier::spinoff_prover]
#[verifier::rlimit(60)]
fn write_global_4(p: &mut Program, k: usize, v: u16)
    requires
        66 <= k < 82,
    ensures
        global_value(*final(p), k) == stored(global_kind(k), v),
        global_frame(*old(p), *final(p), k),
        final(p).timbre1 == old(p).timbre1,
        final(p).timbre2 == old(p).timbre2,
{
    match k {
        66 => {
            p.vocoder.band_levels[2] = U7::from_wire(v as u8);
        },
        67 => {
            p.vocoder.band_pans[3] = Pan::from_wire(v as u8);
        },
        68 => {
            p.vocoder.band_levels[3] = U7::from_wire(v as u8);
        },
        69 => {
            p.vocoder.band_pans[4] = Pan::from_wire(v as u8);
        },
        70 => {
            p.vocoder.band_levels[4] = U7::from_wire(v as u8);
        },
        71 => {
            p.vocoder.band_pans[5] = Pan::from_wire(v as u8);
        },
        72 => {
            p.vocoder.band_levels[5] = U7::from_wire(v as u8);
        },
        73 => {
            p.vocoder.band_pans[6] = Pan::from_wire(v as u8);
        },
        74 => {
            p.vocoder.band_levels[6] = U7::from_wire(v as u8);
        },
        75 => {
            p.vocoder.band_pans[7] = Pan::from_wire(v as u8);
        },
        76 => {
            p.vocoder.band_levels[7] = U7::from_wire(v as u8);
        },
        77 => {
            p.vocoder.band_pans[8] = Pan::from_wire(v as u8);
        },
        78 => {
            p.vocoder.band_levels[8] = U7::from_wire(v as u8);
        },
        79 => {
            p.vocoder.band_pans[9] = Pan::from_wire(v as u8);
        },
        80 => {
            p.vocoder.band_levels[9] = U7::from_wire(v as u8);
        },
        81 => {
            p.vocoder.band_pans[10] = Pan::from_wire(v as u8);
        },
        _ => {},
    }
}

/// Writes global parameters 82 ..< 98.
#[verifier::spinoff_prover]
#[verifier::rlimit(60)]
fn write_global_5(p: &mut Program, k: usize, v: u16)
    requires
        82 <= k < 98,
    ensures
        global_value(*final(p), k) == stored(global_kind(k), v),
        global_frame(*old(p), *final(p), k),
        final(p).timbre1 == old(p).timbre1,
        final(p).timbre2 == old(p).timbre2,
{
    match k {
        82 => {
            p.vocoder.band_levels[10] = U7::from_wire(v as u8);
        },
        83 => {
            p.vocoder.band_pans[11] = Pan::from_wire(v as u8);
        },
        84 => {
            p.vocoder.band_levels[11] = U7::from_wire(v as u8);
        },
        85 => {
            p.vocoder.band_pans[12] = Pan::from_wire(v as u8);
        },
        86 => {
            p.vocoder.band_levels[12] = U7::from_wire(v as u8);
        },
        87 => {
            p.vocoder.band_pans[13] = Pan::from_wire(v as u8);
        },
        88 => {
            p.vocoder.band_levels[13] = U7::from_wire(v as u8);
        },
        89 => {
            p.vocoder.band_pans[14] = Pan::from_wire(v as u8);
        },
        90 => {
            p.vocoder.band_levels[14] = U7::from_wire(v as u8);
        },
        91 => {
            p.vocoder.band_pans[15] = Pan::from_wire(v as u8);
        },
        92 => {
            p.vocoder.band_levels[15] = U7::from_wire(v as u8);
        },
        93 => {
            p.vocoder.fc_mod_src = PatchSource::decode(v as u8);
        },
        94 => {
            p.vocoder.cutoff_offset = Centered63::from_wire(v as u8);
        },
        95 => {
            p.vocoder.resonance = U7::from_wire(v as u8);
        },
        96 => {
            p.vocoder.fc_mod_int = Centered63::from_wire(v as u8);
        },
        97 => {
            p.vocoder.ef_sens = U7::from_wire(v as u8);
        },
        _ => {},
    }
}

/// Writes `v` into timbre parameter `j`.
fn write_timbre(t: &mut Timbre, j: usize, v: u16)
    requires
        j < TIMBRE_PARAMS,
    ensures
        timbre_value(*final(t), j) == stored(timbre_kind(j), v),
        timbre_frame(*old(t), *final(t), j),
{
    if j < 36 {
        write_timbre_0(t, j, v);
    } else if j < 72 {
        write_timbre_1(t, j, v);
    } else if j < 108 {
        write_timbre_2(t, j, v);
    } else {
        write_timbre_3(t, j, v);
    }
}

/// Writes `v` into timbre parameter `j`, one of 0 ..= 35.
#[verifier::spinoff_prover]
#[verifier::rlimit(60)]
fn write_timbre_0(t: &mut Timbre, j: usize, v: u16)
    requires
        0 <= j < 36,
    ensures
        timbre_value(*final(t), j) == stored(timbre_kind(j), v),
        timbre_frame(*old(t), *final(t), j),
{
    match j {
        0 => {
            t.knob_assigns[0] = KnobAssign::from_wire(v as u8);
        },
        1 => {
            t.knob_assigns[1] = KnobAssign::from_wire(v as u8);
        },
        2 => {
            t.knob_assigns[2] = KnobAssign::from_wire(v as u8);
        },
        3 => {
            t.knob_assigns[3] = KnobAssign::from_wire(v as u8);
        },
        4 => {
            t.unison_voice = UnisonVoice::decode(v as u8);
        },
        5 => {
            t.unison_detune = UnisonDetune::from_wire(v as u8);
        },
        6 => {
            t.unison_spread = U7::from_wire(v as u8);
        },
        7 => {
            t.voice_assign = VoiceAssign::decode(v as u8);
        },
        8 => {
            t.analog_tuning = U7::from_wire(v as u8);
        },
        9 => {
            t.transpose = Transpose48::from_wire(v as u8);
        },
        10 => {
            t.detune = Detune50::from_wire(v as u8);
        },
        11 => {
            t.vibrato_int = Centered63::from_wire(v as u8);
        },
        12 => {
            t.bend_range = BendRange12::from_wire(v as u8);
        },
        13 => {
            t.portamento = U7::from_wire(v as u8);
        },
        14 => {
            t.osc1.wave = Osc1Wave::decode(v as u8);
        },
        15 => {
            t.osc1.osc_mod = OscMod::decode(v as u8);
        },
        16 => {
            t.osc1.ctrl1 = U7::from_wire(v as u8);
        },
        17 => {
            t.osc1.ctrl2 = U7::from_wire(v as u8);
        },
        18 => {
            t.osc1.dwgs = Dwgs::from_wire(v as u8);
        },
        19 => {
            t.osc2.wave = Osc2Wave::decode(v as u8);
        },
        20 => {
            t.osc2.osc_mod = Osc2Mod::decode(v as u8);
        },
        21 => {
            t.osc2.semitone = Semitone24::from_wire(v as u8);
        },
        22 => {
            t.osc2.tune = Detune50::from_wire(v as u8);
        },
        23 => {
            t.mixer.osc1_level = U7::from_wire(v as u8);
        },
        24 => {
            t.mixer.osc2_level = U7::from_wire(v as u8);
        },
        25 => {
            t.mixer.noise_level = U7::from_wire(v as u8);
        },
        26 => {
            t.filter.routing = FilterRouting::decode(v as u8);
        },
        27 => {
            t.filter.filter2_type = Filter2Type::decode(v as u8);
        },
        28 => {
            t.filter.balance = U7::from_wire(v as u8);
        },
        29 => {
            t.filter.cutoff1 = U7::from_wire(v as u8);
        },
        30 => {
            t.filter.resonance1 = U7::from_wire(v as u8);
        },
        31 => {
            t.filter.eg1_int1 = Centered63::from_wire(v as u8);
        },
        32 => {
            t.filter.key_track1 = Centered63::from_wire(v as u8);
        },
        33 => {
            t.filter.velo_sens1 = Centered63::from_wire(v as u8);
        },
        34 => {
            t.filter.cutoff2 = U7::from_wire(v as u8);
        },
        35 => {
            t.filter.resonance2 = U7::from_wire(v as u8);
        },
        _ => {},
    }
}

/// Writes `v` into timbre parameter `j`, one of 36 ..= 71.
#[verifier::spinoff_prover]
#[verifier::rlimit(60)]
fn write_timbre_1(t: &mut Timbre, j: usize, v: u16)
    requires
        36 <= j < 72,
    ensures
        timbre_value(*final(t), j) == stored(timbre_kind(j), v),
        timbre_frame(*old(t), *final(t), j),
{
    match j {
        36 => {
            t.filter.eg1_int2 = Centered63::from_wire(v as u8);
        },
        37 => {
            t.filter.key_track2 = Centered63::from_wire(v as u8);
        },
        38 => {
            t.filter.velo_sens2 = Centered63::from_wire(v as u8);
        },
        39 => {
            t.amp.level = U7::from_wire(v as u8);
        },
        40 => {
            t.amp.ws_position = WaveShapePosition::decode(v as u8);
        },
        41 => {
            t.amp.ws_type = WaveShape::from_wire(v as u8);
        },
        42 => {
            t.amp.ws_depth = U7::from_wire(v as u8);
        },
        43 => {
            t.amp.pan = Pan::from_wire(v as u8);
        },
        44 => {
            t.amp.key_track = Centered63::from_wire(v as u8);
        },
        45 => {
            t.amp.punch_level = U7::from_wire(v as u8);
        },
        46 => {
            t.eg[0].attack = U7::from_wire(v as u8);
        },
        47 => {
            t.eg[0].decay = U7::from_wire(v as u8);
        },
        48 => {
            t.eg[0].sustain = U7::from_wire(v as u8);
        },
        49 => {
            t.eg[0].release = U7::from_wire(v as u8);
        },
        50 => {
            t.eg[0].level_velo = Centered63::from_wire(v as u8);
        },
        51 => {
            t.eg[1].attack = U7::from_wire(v as u8);
        },
        52 => {
            t.eg[1].decay = U7::from_wire(v as u8);
        },
        53 => {
            t.eg[1].sustain = U7::from_wire(v as u8);
        },
        54 => {
            t.eg[1].release = U7::from_wire(v as u8);
        },
        55 => {
            t.eg[1].level_velo = Centered63::from_wire(v as u8);
        },
        56 => {
            t.eg[2].attack = U7::from_wire(v as u8);
        },
        57 => {
            t.eg[2].decay = U7::from_wire(v as u8);
        },
        58 => {
            t.eg[2].sustain = U7::from_wire(v as u8);
        },
        59 => {
            t.eg[2].release = U7::from_wire(v as u8);
        },
        60 => {
            t.eg[2].level_velo = Centered63::from_wire(v as u8);
        },
        61 => {
            t.lfo[0].wave = v as u8;
        },
        62 => {
            t.lfo[0].freq = U7::from_wire(v as u8);
        },
        63 => {
            t.lfo[0].bpm_sync = v != 0;
        },
        64 => {
            t.lfo[0].key_sync = LfoKeySync::decode(v as u8);
        },
        65 => {
            t.lfo[0].sync_note = SyncNote::from_wire(v as u8);
        },
        66 => {
            t.lfo[1].wave = v as u8;
        },
        67 => {
            t.lfo[1].freq = U7::from_wire(v as u8);
        },
        68 => {
            t.lfo[1].bpm_sync = v != 0;
        },
        69 => {
            t.lfo[1].key_sync = LfoKeySync::decode(v as u8);
        },
        70 => {
            t.lfo[1].sync_note = SyncNote::from_wire(v as u8);
        },
        71 => {
            t.patches[0].src = PatchSource::decode(v as u8);
        },
        _ => {},
    }
}

/// Writes `v` into timbre parameter `j`, one of 72 ..= 107.
#[verifier::spinoff_prover]
#[verifier::rlimit(60)]
fn write_timbre_2(t: &mut Timbre, j: usize, v: u16)
    requires
        72 <= j < 108,
    ensures
        timbre_value(*final(t), j) == stored(timbre_kind(j), v),
        timbre_frame(*old(t), *final(t), j),
{
    match j {
        72 => {
            t.patches[0].dst = PatchDest::decode(v as u8);
        },
        73 => {
            t.patches[0].int = Centered63::from_wire(v as u8);
        },
        74 => {
            t.patches[1].src = PatchSource::decode(v as u8);
        },
        75 => {
            t.patches[1].dst = PatchDest::decode(v as u8);
        },
        76 => {
            t.patches[1].int = Centered63::from_wire(v as u8);
        },
        77 => {
            t.patches[2].src = PatchSource::decode(v as u8);
        },
        78 => {
            t.patches[2].dst = PatchDest::decode(v as u8);
        },
        79 => {
            t.patches[2].int = Centered63::from_wire(v as u8);
        },
        80 => {
            t.patches[3].src = PatchSource::decode(v as u8);
        },
        81 => {
            t.patches[3].dst = PatchDest::decode(v as u8);
        },
        82 => {
            t.patches[3].int = Centered63::from_wire(v as u8);
        },
        83 => {
            t.patches[4].src = PatchSource::decode(v as u8);
        },
        84 => {
            t.patches[4].dst = PatchDest::decode(v as u8);
        },
        85 => {
            t.patches[4].int = Centered63::from_wire(v as u8);
        },
        86 => {
            t.patches[5].src = PatchSource::decode(v as u8);
        },
        87 => {
            t.patches[5].dst = PatchDest::decode(v as u8);
        },
        88 => {
            t.patches[5].int = Centered63::from_wire(v as u8);
        },
        89 => {
            t.insert_fx.fx1_type = FxType::decode(v as u8);
        },
        90 => {
            t.insert_fx.fx1_knob = (v as u8) & 0x1Fu8;
        },
        91 => {
            t.insert_fx.fx2_type = FxType::decode(v as u8);
        },
        92 => {
            t.insert_fx.fx2_knob = (v as u8) & 0x1Fu8;
        },
        93 => {
            t.insert_fx.fx1_params[0] = FxParam::from_wire(v as u8);
        },
        94 => {
            t.insert_fx.fx2_params[0] = FxParam::from_wire(v as u8);
        },
        95 => {
            t.insert_fx.fx1_params[1] = FxParam::from_wire(v as u8);
        },
        96 => {
            t.insert_fx.fx2_params[1] = FxParam::from_wire(v as u8);
        },
        97 => {
            t.insert_fx.fx1_params[2] = FxParam::from_wire(v as u8);
        },
        98 => {
            t.insert_fx.fx2_params[2] = FxParam::from_wire(v as u8);
        },
        99 => {
            t.insert_fx.fx1_params[3] = FxParam::from_wire(v as u8);
        },
        100 => {
            t.insert_fx.fx2_params[3] = FxParam::from_wire(v as u8);
        },
        101 => {
            t.insert_fx.fx1_params[4] = FxParam::from_wire(v as u8);
        },
        102 => {
            t.insert_fx.fx2_params[4] = FxParam::from_wire(v as u8);
        },
        103 => {
            t.insert_fx.fx1_params[5] = FxParam::from_wire(v as u8);
        },
        104 => {
            t.insert_fx.fx2_params[5] = FxParam::from_wire(v as u8);
        },
        105 => {
            t.insert_fx.fx1_params[6] = FxParam::from_wire(v as u8);
        },
        106 => {
            t.insert_fx.fx2_params[6] = FxParam::from_wire(v as u8);
        },
        107 => {
            t.insert_fx.fx1_params[7] = FxParam::from_wire(v as u8);
        },
        _ => {},
    }
}

/// Writes `v` into timbre parameter `j`, one of 108 ..= 141.
#[verifier::spinoff_prover]
#[verifier::rlimit(60)]
fn write_timbre_3(t: &mut Timbre, j: usize, v: u16)
    requires
        108 <= j < 142,
    ensures
        timbre_value(*final(t), j) == stored(timbre_kind(j), v),
        timbre_frame(*old(t), *final(t), j),
{
    match j {
        108 => {
            t.insert_fx.fx2_params[7] = FxParam::from_wire(v as u8);
        },
        109 => {
            t.insert_fx.fx1_params[8] = FxParam::from_wire(v as u8);
        },
        110 => {
            t.insert_fx.fx2_params[8] = FxParam::from_wire(v as u8);
        },
        111 => {
            t.insert_fx.fx1_params[9] = FxParam::from_wire(v as u8);
        },
        112 => {
            t.insert_fx.fx2_params[9] = FxParam::from_wire(v as u8);
        },
        113 => {
            t.insert_fx.fx1_params[10] = FxParam::from_wire(v as u8);
        },
        114 => {
            t.insert_fx.fx2_params[10] = FxParam::from_wire(v as u8);
        },
        115 => {
            t.insert_fx.fx1_params[11] = FxParam::from_wire(v as u8);
        },
        116 => {
            t.insert_fx.fx2_params[11] = FxParam::from_wire(v as u8);
        },
        117 => {
            t.insert_fx.fx1_params[12] = FxParam::from_wire(v as u8);
        },
        118 => {
            t.insert_fx.fx2_params[12] = FxParam::from_wire(v as u8);
        },
        119 => {
            t.insert_fx.fx1_params[13] = FxParam::from_wire(v as u8);
        },
        120 => {
            t.insert_fx.fx2_params[13] = FxParam::from_wire(v as u8);
        },
        121 => {
            t.insert_fx.fx1_params[14] = FxParam::from_wire(v as u8);
        },
        122 => {
            t.insert_fx.fx2_params[14] = FxParam::from_wire(v as u8);
        },
        123 => {
            t.insert_fx.fx1_params[15] = FxParam::from_wire(v as u8);
        },
        124 => {
            t.insert_fx.fx2_params[15] = FxParam::from_wire(v as u8);
        },
        125 => {
            t.insert_fx.fx1_params[16] = FxParam::from_wire(v as u8);
        },
        126 => {
            t.insert_fx.fx2_params[16] = FxParam::from_wire(v as u8);
        },
        127 => {
            t.insert_fx.fx1_params[17] = FxParam::from_wire(v as u8);
        },
        128 => {
            t.insert_fx.fx2_params[17] = FxParam::from_wire(v as u8);
        },
        129 => {
            t.insert_fx.fx1_params[18] = FxParam::from_wire(v as u8);
        },
        130 => {
            t.insert_fx.fx2_params[18] = FxParam::from_wire(v as u8);
        },
        131 => {
            t.insert_fx.fx1_params[19] = FxParam::from_wire(v as u8);
        },
        132 => {
            t.insert_fx.fx2_params[19] = FxParam::from_wire(v as u8);
        },
        133 => {
            t.insert_fx.eq_low_freq = v as u8;
        },
        134 => {
            t.insert_fx.eq_low_gain = EqGain30::from_wire(v as u8);
        },
        135 => {
            t.insert_fx.eq_hi_freq = v as u8;
        },
        136 => {
            t.insert_fx.eq_hi_gain = EqGain30::from_wire(v as u8);
        },
        137 => {
            t.motion_seq.on = v != 0;
        },
        138 => {
            t.motion_seq.last_step = v as u8;
        },
        139 => {
            t.motion_seq.seq_type = MotionSeqType::from_wire(v as u8);
        },
        140 => {
            t.motion_seq.key_sync = LfoKeySync::decode(v as u8);
        },
        141 => {
            t.motion_seq.resolution = MotionSeqResolution::from_wire(v as u8);
        },
        _ => {},
    }
}

/// The address of global parameter `k`.
fn global_addr_of(k: usize) -> (res: ParamAddr)
    requires
        k < GLOBAL_PARAMS,
    ensures
        res == global_addr(k),
{
    match k {
        0 => ParamAddr { id: 0x00, sub: 0x19 },
        1 => ParamAddr { id: 0x00, sub: 0x18 },
        2 => ParamAddr { id: 0x00, sub: 0x14 },
        3 => ParamAddr { id: 0x00, sub: 0x15 },
        4 => ParamAddr { id: 0x00, sub: 0x16 },
        5 => ParamAddr { id: 0x00, sub: 0x17 },
        6 => ParamAddr { id: 0x00, sub: 0x1A },
        7 => ParamAddr { id: 0x00, sub: 0x1B },
        8 => ParamAddr { id: 0x00, sub: 0x1C },
        9 => ParamAddr { id: 0x60, sub: 0x00 },
        10 => ParamAddr { id: 0x60, sub: 0x01 },
        11 => ParamAddr { id: 0x60, sub: 0x02 },
        12 => ParamAddr { id: 0x61, sub: 0x00 },
        13 => ParamAddr { id: 0x61, sub: 0x01 },
        14 => ParamAddr { id: 0x61, sub: 0x02 },
        15 => ParamAddr { id: 0x61, sub: 0x03 },
        16 => ParamAddr { id: 0x61, sub: 0x04 },
        17 => ParamAddr { id: 0x61, sub: 0x05 },
        18 => ParamAddr { id: 0x61, sub: 0x06 },
        19 => ParamAddr { id: 0x61, sub: 0x10 },
        20 => ParamAddr { id: 0x61, sub: 0x11 },
        21 => ParamAddr { id: 0x61, sub: 0x12 },
        22 => ParamAddr { id: 0x61, sub: 0x13 },
        23 => ParamAddr { id: 0x61, sub: 0x14 },
        24 => ParamAddr { id: 0x61, sub: 0x15 },
        25 => ParamAddr { id: 0x61, sub: 0x16 },
        26 => ParamAddr { id: 0x61, sub: 0x17 },
        27 => ParamAddr { id: 0x50, sub: 0x01 },
        28 => ParamAddr { id: 0x50, sub: 0x02 },
        29 => ParamAddr { id: 0x51, sub: 0x00 },
        30 => ParamAddr { id: 0x51, sub: 0x01 },
        31 => ParamAddr { id: 0x51, sub: 0x02 },
        32 => ParamAddr { id: 0x51, sub: 0x03 },
        33 => ParamAddr { id: 0x51, sub: 0x04 },
        34 => ParamAddr { id: 0x51, sub: 0x05 },
        35 => ParamAddr { id: 0x51, sub: 0x06 },
        36 => ParamAddr { id: 0x51, sub: 0x07 },
        37 => ParamAddr { id: 0x51, sub: 0x08 },
        38 => ParamAddr { id: 0x51, sub: 0x09 },
        39 => ParamAddr { id: 0x51, sub: 0x0A },
        40 => ParamAddr { id: 0x51, sub: 0x0B },
        41 => ParamAddr { id: 0x51, sub: 0x0C },
        42 => ParamAddr { id: 0x51, sub: 0x0D },
        43 => ParamAddr { id: 0x51, sub: 0x0E },
        44 => ParamAddr { id: 0x51, sub: 0x0F },
        45 => ParamAddr { id: 0x51, sub: 0x10 },
        46 => ParamAddr { id: 0x51, sub: 0x11 },
        47 => ParamAddr { id: 0x51, sub: 0x12 },
        48 => ParamAddr { id: 0x51, sub: 0x13 },
        49 => ParamAddr { id: 0x40, sub: 0x00 },
        50 => ParamAddr { id: 0x40, sub: 0x05 },
        51 => ParamAddr { id: 0x40, sub: 0x04 },
        52 => ParamAddr { id: 0x40, sub: 0x03 },
        53 => ParamAddr { id: 0x40, sub: 0x01 },
        54 => ParamAddr { id: 0x40, sub: 0x06 },
        55 => ParamAddr { id: 0x40, sub: 0x07 },
        56 => ParamAddr { id: 0x40, sub: 0x08 },
        57 => ParamAddr { id: 0x40, sub: 0x09 },
        58 => ParamAddr { id: 0x40, sub: 0x0A },
        59 => ParamAddr { id: 0x40, sub: 0x0B },
        60 => ParamAddr { id: 0x40, sub: 0x0C },
        61 => ParamAddr { id: 0x41, sub: 0x00 },
        62 => ParamAddr { id: 0x41, sub: 0x01 },
        63 => ParamAddr { id: 0x41, sub: 0x02 },
        64 => ParamAddr { id: 0x41, sub: 0x03 },
        65 => ParamAddr { id: 0x41, sub: 0x04 },
        66 => ParamAddr { id: 0x41, sub: 0x05 },
        67 => ParamAddr { id: 0x41, sub: 0x06 },
        68 => ParamAddr { id: 0x41, sub: 0x07 },
        69 => ParamAddr { id: 0x41, sub: 0x08 },
        70 => ParamAddr { id: 0x41, sub: 0x09 },
        71 => ParamAddr { id: 0x41, sub: 0x0A },
        72 => ParamAddr { id: 0x41, sub: 0x0B },
        73 => ParamAddr { id: 0x41, sub: 0x0C },
        74 => ParamAddr { id: 0x41, sub: 0x0D },
        75 => ParamAddr { id: 0x41, sub: 0x0E },
        76 => ParamAddr { id: 0x41, sub: 0x0F },
        77 => ParamAddr { id: 0x41, sub: 0x10 },
        78 => ParamAddr { id: 0x41, sub: 0x11 },
        79 => ParamAddr { id: 0x41, sub: 0x12 },
        80 => ParamAddr { id: 0x41, sub: 0x13 },
        81 => ParamAddr { id: 0x41, sub: 0x14 },
        82 => ParamAddr { id: 0x41, sub: 0x15 },
        83 => ParamAddr { id: 0x41, sub: 0x16 },
        84 => ParamAddr { id: 0x41, sub: 0x17 },
        85 => ParamAddr { id: 0x41, sub: 0x18 },
        86 => ParamAddr { id: 0x41, sub: 0x19 },
        87 => ParamAddr { id: 0x41, sub: 0x1A },
        88 => ParamAddr { id: 0x41, sub: 0x1B },
        89 => ParamAddr { id: 0x41, sub: 0x1C },
        90 => ParamAddr { id: 0x41, sub: 0x1D },
        91 => ParamAddr { id: 0x41, sub: 0x1E },
        92 => ParamAddr { id: 0x41, sub: 0x1F },
        93 => ParamAddr { id: 0x42, sub: 0x00 },
        94 => ParamAddr { id: 0x42, sub: 0x10 },
        95 => ParamAddr { id: 0x42, sub: 0x11 },
        96 => ParamAddr { id: 0x42, sub: 0x12 },
        97 => ParamAddr { id: 0x42, sub: 0x13 },
        _ => ParamAddr { id: 0, sub: 0 },
    }
}

/// The block and sub id of timbre parameter `j`.
fn timbre_slot_of(j: usize) -> (res: (u8, u16))
    requires
        j < TIMBRE_PARAMS,
    ensures
        res == timbre_slot(j),
{
    match j {
        0 => (0, 0x00),
        1 => (0, 0x01),
        2 => (0, 0x02),
        3 => (0, 0x03),
        4 => (0, 0x08),
        5 => (0, 0x09),
        6 => (0, 0x0A),
        7 => (0, 0x0B),
        8 => (0, 0x13),
        9 => (0, 0x14),
        10 => (0, 0x15),
        11 => (0, 0x16),
        12 => (0, 0x10),
        13 => (0, 0x11),
        14 => (0, 0x17),
        15 => (0, 0x18),
        16 => (0, 0x19),
        17 => (0, 0x1A),
        18 => (0, 0x1B),
        19 => (0, 0x20),
        20 => (0, 0x21),
        21 => (0, 0x22),
        22 => (0, 0x23),
        23 => (0, 0x28),
        24 => (0, 0x29),
        25 => (0, 0x2A),
        26 => (0, 0x30),
        27 => (0, 0x40),
        28 => (0, 0x31),
        29 => (0, 0x32),
        30 => (0, 0x33),
        31 => (0, 0x34),
        32 => (0, 0x35),
        33 => (0, 0x36),
        34 => (0, 0x42),
        35 => (0, 0x43),
        36 => (0, 0x44),
        37 => (0, 0x45),
        38 => (0, 0x46),
        39 => (0, 0x50),
        40 => (0, 0x52),
        41 => (0, 0x51),
        42 => (0, 0x54),
        43 => (0, 0x55),
        44 => (0, 0x56),
        45 => (0, 0x57),
        46 => (0, 0x60),
        47 => (0, 0x61),
        48 => (0, 0x62),
        49 => (0, 0x63),
        50 => (0, 0x64),
        51 => (0, 0x70),
        52 => (0, 0x71),
        53 => (0, 0x72),
        54 => (0, 0x73),
        55 => (0, 0x74),
        56 => (0, 0x80),
        57 => (0, 0x81),
        58 => (0, 0x82),
        59 => (0, 0x83),
        60 => (0, 0x84),
        61 => (0, 0x90),
        62 => (0, 0x92),
        63 => (0, 0x93),
        64 => (0, 0x94),
        65 => (0, 0x96),
        66 => (0, 0xA0),
        67 => (0, 0xA2),
        68 => (0, 0xA3),
        69 => (0, 0xA4),
        70 => (0, 0xA6),
        71 => (1, 0x00),
        72 => (1, 0x01),
        73 => (1, 0x02),
        74 => (1, 0x04),
        75 => (1, 0x05),
        76 => (1, 0x06),
        77 => (1, 0x08),
        78 => (1, 0x09),
        79 => (1, 0x0A),
        80 => (1, 0x0C),
        81 => (1, 0x0D),
        82 => (1, 0x0E),
        83 => (1, 0x10),
        84 => (1, 0x11),
        85 => (1, 0x12),
        86 => (1, 0x14),
        87 => (1, 0x15),
        88 => (1, 0x16),
        89 => (2, 0x01),
        90 => (2, 0x02),
        91 => (2, 0x31),
        92 => (2, 0x32),
        93 => (2, 0x10),
        94 => (2, 0x40),
        95 => (2, 0x11),
        96 => (2, 0x41),
        97 => (2, 0x12),
        98 => (2, 0x42),
        99 => (2, 0x13),
        100 => (2, 0x43),
        101 => (2, 0x14),
        102 => (2, 0x44),
        103 => (2, 0x15),
        104 => (2, 0x45),
        105 => (2, 0x16),
        106 => (2, 0x46),
        107 => (2, 0x17),
        108 => (2, 0x47),
        109 => (2, 0x18),
        110 => (2, 0x48),
        111 => (2, 0x19),
        112 => (2, 0x49),
        113 => (2, 0x1A),
        114 => (2, 0x4A),
        115 => (2, 0x1B),
        116 => (2, 0x4B),
        117 => (2, 0x1C),
        118 => (2, 0x4C),
        119 => (2, 0x1D),
        120 => (2, 0x4D),
        121 => (2, 0x1E),
        122 => (2, 0x4E),
        123 => (2, 0x1F),
        124 => (2, 0x4F),
        125 => (2, 0x20),
        126 => (2, 0x50),
        127 => (2, 0x21),
        128 => (2, 0x51),
        129 => (2, 0x22),
        130 => (2, 0x52),
        131 => (2, 0x23),
        132 => (2, 0x53),
        133 => (2, 0x60),
        134 => (2, 0x61),
        135 => (2, 0x62),
        136 => (2, 0x63),
        137 => (3, 0x00),
        138 => (3, 0x01),
        139 => (3, 0x02),
        140 => (3, 0x04),
        141 => (3, 0x05),
        _ => (0, 0),
    }
}

/// The place in its timbre of program parameter `k`, past the global ones.
pub open spec fn timbre_index(k: usize) -> usize {
    if k < 240 {
        (k - 98) as usize
    } else {
        (k - 240) as usize
    }
}

/// The address of program parameter `k`: the global ones, then those of
/// timbre 1 (ids 0x10 ..= 0x14), then those of timbre 2 (ids 0x20 ..= 0x24).
pub open spec fn param_addr(k: usize) -> ParamAddr {
    if k < 98 {
        global_addr(k)
    } else {
        let base: u16 = if k < 240 { 0x10 } else { 0x20 };
        let slot = timbre_slot(timbre_index(k));
        ParamAddr { id: (base + block_offset(slot.0)) as u16, sub: slot.1 }
    }
}

/// The kind of program parameter `k`.
pub open spec fn param_kind(k: usize) -> ParamKind {
    if k < 98 {
        global_kind(k)
    } else {
        timbre_kind(timbre_index(k))
    }
}

/// The value that program parameter `k` of `p` sends.
pub open spec fn param_value(p: Program, k: usize) -> u16 {
    if k < 98 {
        global_value(p, k)
    } else if k < 240 {
        timbre_value(p.timbre1, timbre_index(k))
    } else {
        timbre_value(p.timbre2, timbre_index(k))
    }
}

/// The address of program parameter `k`.
fn param_addr_of(k: usize) -> (res: ParamAddr)
    requires
        k < PROGRAM_PARAMS,
    ensures
        res == param_addr(k),
{
    if k < GLOBAL_PARAMS {
        global_addr_of(k)
    } else {
        let base: u16 = if k < 240 {
            0x10
        } else {
            0x20
        };
        let j: usize = if k < 240 {
            k - 98
        } else {
            k - 240
        };
        let (block, sub) = timbre_slot_of(j);
        let off: u16 = if block == 0 {
            0
        } else if block == 1 {
            1
        } else if block == 2 {
            3
        } else {
            4
        };
        ParamAddr { id: base + off, sub }
    }
}

/// The value that program parameter `k` sends.
fn read_param(p: &Program, k: usize) -> (res: u16)
    requires
        k < PROGRAM_PARAMS,
    ensures
        res == param_value(*p, k),
        param_kind(k) !is Masked ==> in_range(param_kind(k), res),
{
    if k < GLOBAL_PARAMS {
        read_global(p, k)
    } else if k < 240 {
        read_timbre(&p.timbre1, k - 98)
    } else {
        read_timbre(&p.timbre2, k - 240)
    }
}

/// Writes `v` into program parameter `k`.
fn write_param(p: &mut Program, k: usize, v: u16)
    requires
        k < PROGRAM_PARAMS,
    ensures
        param_value(*final(p), k) == stored(param_kind(k), v),
        param_frame(*old(p), *final(p), k),
{
    if k < GLOBAL_PARAMS {
        write_global(p, k, v);
    } else if k < 240 {
        write_timbre(&mut p.timbre1, k - 98, v);
    } else {
        write_timbre(&mut p.timbre2, k - 240, v);
    }
}

/// The parameters whose values differ between `old` and `new` among the
/// first `n`, in order, each with its value in `new`.
pub open spec fn changed_params(old: Program, new: Program, n: nat) -> Seq<LiveParam>
    decreases n,
{
    if n == 0 {
        Seq::empty()
    } else {
        let k = (n - 1) as usize;
        let rest = changed_params(old, new, (n - 1) as nat);
        if param_value(old, k) != param_value(new, k) {
            rest.push(LiveParam { addr: param_addr(k), value: param_value(new, k) })
        } else {
            rest
        }
    }
}

/// The first `n` parameters of `new`, each paired with the same parameter of
/// `old`.
pub open spec fn param_pairs(old: Program, new: Program, n: nat) -> Seq<(LiveParam, LiveParam)> {
    Seq::new(
        n,
        |k: int|
            (
                LiveParam { addr: param_addr(k as usize), value: param_value(new, k as usize) },
                LiveParam { addr: param_addr(k as usize), value: param_value(old, k as usize) },
            ),
    )
}

/// The parameters of `new` among the first `n` whose values differ from
/// those of `old`, picked from the pairs of both.
pub open spec fn diff_by_filter(old: Program, new: Program, n: nat) -> Seq<LiveParam> {
    param_pairs(old, new, n).filter(|pr: (LiveParam, LiveParam)| pr.0.value != pr.1.value).map_values(
        |pr: (LiveParam, LiveParam)| pr.0,
    )
}

/// The differing parameters are those of `new`, paired with the same
/// parameters of `old`, whose values differ, in order.
pub proof fn lemma_diff_is_filter(old: Program, new: Program, n: nat)
    ensures
        changed_params(old, new, n) == diff_by_filter(old, new, n),
    decreases n,
{
    reveal(Seq::filter);
    let pred = |pr: (LiveParam, LiveParam)| pr.0.value != pr.1.value;
    let first = |pr: (LiveParam, LiveParam)| pr.0;
    if n == 0 {
        assert(param_pairs(old, new, 0).filter(pred) =~= Seq::<(LiveParam, LiveParam)>::empty());
        assert(diff_by_filter(old, new, 0) =~= Seq::<LiveParam>::empty());
    } else {
        let m = (n - 1) as nat;
        lemma_diff_is_filter(old, new, m);
        let s = param_pairs(old, new, n);
        assert(s.drop_last() =~= param_pairs(old, new, m));
        let x = s.last();
        let prev = param_pairs(old, new, m).filter(pred);
        assert(s.filter(pred) == if pred(x) { prev.push(x) } else { prev });
        if pred(x) {
            assert(prev.push(x).map_values(first) =~= prev.map_values(first).push(first(x)));
        }
    }
}

/// The parameters that differ between `old` and `new`, in program order,
/// each with its value in `new`.
pub fn program_diff(old: &Program, new: &Program) -> (res: Vec<LiveParam>)
    ensures
        res@ == changed_params(*old, *new, PROGRAM_PARAMS as nat),
{
    let mut res: Vec<LiveParam> = Vec::new();
    let mut k: usize = 0;
    while k < PROGRAM_PARAMS
        invariant
            k <= PROGRAM_PARAMS,
            res@ == changed_params(*old, *new, k as nat),
        decreases PROGRAM_PARAMS - k,
    {
        let nv = read_param(new, k);
        let ov = read_param(old, k);
        if ov != nv {
            let addr = param_addr_of(k);
            res.push(LiveParam { addr, value: nv });
        }
        k = k + 1;
    }
    res
}

/// Every parameter of the program with its value, in program order; every
/// value but that of a masked byte is one that its parameter can send, and
/// so is that of a masked byte that keeps to its mask.
pub fn program_params(prog: &Program) -> (res: Vec<LiveParam>)
    ensures
        res@.len() == PROGRAM_PARAMS,
        masked_bytes_fit(*prog) ==> forall|k: int|
            0 <= k < PROGRAM_PARAMS ==> in_range(param_kind(k as usize), #[trigger] res@[k].value),
        forall|k: int|
            0 <= k < PROGRAM_PARAMS ==> #[trigger] res@[k] == (LiveParam {
                addr: param_addr(k as usize),
                value: param_value(*prog, k as usize),
            }),
        forall|k: int|
            0 <= k < PROGRAM_PARAMS && param_kind(k as usize) !is Masked ==> in_range(
                param_kind(k as usize),
                #[trigger] res@[k].value,
            ),
{
    let mut res: Vec<LiveParam> = Vec::new();
    let mut k: usize = 0;
    while k < PROGRAM_PARAMS
        invariant
            k <= PROGRAM_PARAMS,
            res@.len() == k,
            forall|j: int|
                0 <= j < k ==> #[trigger] res@[j] == (LiveParam {
                    addr: param_addr(j as usize),
                    value: param_value(*prog, j as usize),
                }),
            forall|j: int|
                0 <= j < k && param_kind(j as usize) !is Masked ==> in_range(
                    param_kind(j as usize),
                    #[trigger] res@[j].value,
                ),
        decreases PROGRAM_PARAMS - k,
    {
        let value = read_param(prog, k);
        let addr = param_addr_of(k);
        res.push(LiveParam { addr, value });
        k = k + 1;
    }
    proof {
        if masked_bytes_fit(*prog) {
            assert forall|k: int| 0 <= k < PROGRAM_PARAMS implies in_range(
                param_kind(k as usize),
                #[trigger] res@[k].value,
            ) by {
                if param_kind(k as usize) is Masked {
                    lemma_masked_param_in_range(*prog, k as usize);
                }
            }
        }
    }
    res
}

/// The address that a parameter change names; its numbers are sent low part
/// first.
pub open spec fn change_addr(raw: RawParameterChange) -> ParamAddr {
    ParamAddr {
        id: unpacked_u14(raw.param_id[1], raw.param_id[0]),
        sub: unpacked_u14(raw.sub_id[1], raw.sub_id[0]),
    }
}

/// The value that a parameter change carries.
pub open spec fn change_value(raw: RawParameterChange) -> u16 {
    unpacked_u14(raw.value[1], raw.value[0])
}

/// Whether `new`, with result `res`, is `old` after the change `raw` was
/// applied: the first parameter at the named address takes the stored form
/// of the value and no other field of the program changes, and an address
/// that no parameter has leaves the program as it was and gives false.
pub open spec fn change_applied(old: Program, raw: RawParameterChange, new: Program, res: bool) -> bool {
    &&& res == exists|k: usize| k < PROGRAM_PARAMS && #[trigger] param_addr(k) == change_addr(raw)
    &&& !res ==> new == old
    &&& res ==> exists|k: usize|
        #![trigger param_addr(k)]
        k < PROGRAM_PARAMS && param_addr(k) == change_addr(raw) && (forall|j: usize|
            j < k ==> #[trigger] param_addr(j) != change_addr(raw)) && param_value(new, k) == stored(
            param_kind(k),
            change_value(raw),
        ) && param_frame(old, new, k)
}

/// Applies a received parameter change to the program.
pub fn apply_parameter_change(prog: &mut Program, raw: &RawParameterChange) -> (res: bool)
    ensures
        change_applied(*old(prog), *raw, *final(prog), res),
{
    let id = unpack_u14([raw.param_id[1], raw.param_id[0]]);
    let sub = unpack_u14([raw.sub_id[1], raw.sub_id[0]]);
    let val = unpack_u14([raw.value[1], raw.value[0]]);
    let target = ParamAddr { id, sub };
    assert(target == change_addr(*raw));
    let mut k: usize = 0;
    while k < PROGRAM_PARAMS
        invariant
            k <= PROGRAM_PARAMS,
            target == change_addr(*raw),
            val == change_value(*raw),
            *prog == *old(prog),
            forall|j: usize| j < k ==> #[trigger] param_addr(j) != target,
        decreases PROGRAM_PARAMS - k,
    {
        let a = param_addr_of(k);
        if a == target {
            write_param(prog, k, val);
            return true;
        }
        k = k + 1;
    }
    false
}

/// The place in program order of the parameter at address `a`, or -1 when
/// no parameter has it.
pub open spec fn param_index(a: ParamAddr) -> int {
    match (a.id, a.sub) {
        (0x00u16, 0x19u16) => 0,
        (0x00u16, 0x18u16) => 1,
        (0x00u16, 0x14u16) => 2,
        (0x00u16, 0x15u16) => 3,
        (0x00u16, 0x16u16) => 4,
        (0x00u16, 0x17u16) => 5,
        (0x00u16, 0x1Au16) => 6,
        (0x00u16, 0x1Bu16) => 7,
        (0x00u16, 0x1Cu16) => 8,
        (0x60u16, 0x00u16) => 9,
        (0x60u16, 0x01u16) => 10,
        (0x60u16, 0x02u16) => 11,
        (0x61u16, 0x00u16) => 12,
        (0x61u16, 0x01u16) => 13,
        (0x61u16, 0x02u16) => 14,
        (0x61u16, 0x03u16) => 15,
        (0x61u16, 0x04u16) => 16,
        (0x61u16, 0x05u16) => 17,
        (0x61u16, 0x06u16) => 18,
        (0x61u16, 0x10u16) => 19,
        (0x61u16, 0x11u16) => 20,
        (0x61u16, 0x12u16) => 21,
        (0x61u16, 0x13u16) => 22,
        (0x61u16, 0x14u16) => 23,
        (0x61u16, 0x15u16) => 24,
        (0x61u16, 0x16u16) => 25,
        (0x61u16, 0x17u16) => 26,
        (0x50u16, 0x01u16) => 27,
        (0x50u16, 0x02u16) => 28,
        (0x51u16, 0x00u16) => 29,
        (0x51u16, 0x01u16) => 30,
        (0x51u16, 0x02u16) => 31,
        (0x51u16, 0x03u16) => 32,
        (0x51u16, 0x04u16) => 33,
        (0x51u16, 0x05u16) => 34,
        (0x51u16, 0x06u16) => 35,
        (0x51u16, 0x07u16) => 36,
        (0x51u16, 0x08u16) => 37,
        (0x51u16, 0x09u16) => 38,
        (0x51u16, 0x0Au16) => 39,
        (0x51u16, 0x0Bu16) => 40,
        (0x51u16, 0x0Cu16) => 41,
        (0x51u16, 0x0Du16) => 42,
        (0x51u16, 0x0Eu16) => 43,
        (0x51u16, 0x0Fu16) => 44,
        (0x51u16, 0x10u16) => 45,
        (0x51u16, 0x11u16) => 46,
        (0x51u16, 0x12u16) => 47,
        (0x51u16, 0x13u16) => 48,
        (0x40u16, 0x00u16) => 49,
        (0x40u16, 0x05u16) => 50,
        (0x40u16, 0x04u16) => 51,
        (0x40u16, 0x03u16) => 52,
        (0x40u16, 0x01u16) => 53,
        (0x40u16, 0x06u16) => 54,
        (0x40u16, 0x07u16) => 55,
        (0x40u16, 0x08u16) => 56,
        (0x40u16, 0x09u16) => 57,
        (0x40u16, 0x0Au16) => 58,
        (0x40u16, 0x0Bu16) => 59,
        (0x40u16, 0x0Cu16) => 60,
        (0x41u16, 0x00u16) => 61,
        (0x41u16, 0x01u16) => 62,
        (0x41u16, 0x02u16) => 63,
        (0x41u16, 0x03u16) => 64,
        (0x41u16, 0x04u16) => 65,
        (0x41u16, 0x05u16) => 66,
        (0x41u16, 0x06u16) => 67,
        (0x41u16, 0x07u16) => 68,
        (0x41u16, 0x08u16) => 69,
        (0x41u16, 0x09u16) => 70,
        (0x41u16, 0x0Au16) => 71,
        (0x41u16, 0x0Bu16) => 72,
        (0x41u16, 0x0Cu16) => 73,
        (0x41u16, 0x0Du16) => 74,
        (0x41u16, 0x0Eu16) => 75,
        (0x41u16, 0x0Fu16) => 76,
        (0x41u16, 0x10u16) => 77,
        (0x41u16, 0x11u16) => 78,
        (0x41u16, 0x12u16) => 79,
        (0x41u16, 0x13u16) => 80,
        (0x41u16, 0x14u16) => 81,
        (0x41u16, 0x15u16) => 82,
        (0x41u16, 0x16u16) => 83,
        (0x41u16, 0x17u16) => 84,
        (0x41u16, 0x18u16) => 85,
        (0x41u16, 0x19u16) => 86,
        (0x41u16, 0x1Au16) => 87,
        (0x41u16, 0x1Bu16) => 88,
        (0x41u16, 0x1Cu16) => 89,
        (0x41u16, 0x1Du16) => 90,
        (0x41u16, 0x1Eu16) => 91,
        (0x41u16, 0x1Fu16) => 92,
        (0x42u16, 0x00u16) => 93,
        (0x42u16, 0x10u16) => 94,
        (0x42u16, 0x11u16) => 95,
        (0x42u16, 0x12u16) => 96,
        (0x42u16, 0x13u16) => 97,
        (0x10u16, 0x00u16) => 98,
        (0x10u16, 0x01u16) => 99,
        (0x10u16, 0x02u16) => 100,
        (0x10u16, 0x03u16) => 101,
        (0x10u16, 0x08u16) => 102,
        (0x10u16, 0x09u16) => 103,
        (0x10u16, 0x0Au16) => 104,
        (0x10u16, 0x0Bu16) => 105,
        (0x10u16, 0x13u16) => 106,
        (0x10u16, 0x14u16) => 107,
        (0x10u16, 0x15u16) => 108,
        (0x10u16, 0x16u16) => 109,
        (0x10u16, 0x10u16) => 110,
        (0x10u16, 0x11u16) => 111,
        (0x10u16, 0x17u16) => 112,
        (0x10u16, 0x18u16) => 113,
        (0x10u16, 0x19u16) => 114,
        (0x10u16, 0x1Au16) => 115,
        (0x10u16, 0x1Bu16) => 116,
        (0x10u16, 0x20u16) => 117,
        (0x10u16, 0x21u16) => 118,
        (0x10u16, 0x22u16) => 119,
        (0x10u16, 0x23u16) => 120,
        (0x10u16, 0x28u16) => 121,
        (0x10u16, 0x29u16) => 122,
        (0x10u16, 0x2Au16) => 123,
        (0x10u16, 0x30u16) => 124,
        (0x10u16, 0x40u16) => 125,
        (0x10u16, 0x31u16) => 126,
        (0x10u16, 0x32u16) => 127,
        (0x10u16, 0x33u16) => 128,
        (0x10u16, 0x34u16) => 129,
        (0x10u16, 0x35u16) => 130,
        (0x10u16, 0x36u16) => 131,
        (0x10u16, 0x42u16) => 132,
        (0x10u16, 0x43u16) => 133,
        (0x10u16, 0x44u16) => 134,
        (0x10u16, 0x45u16) => 135,
        (0x10u16, 0x46u16) => 136,
        (0x10u16, 0x50u16) => 137,
        (0x10u16, 0x52u16) => 138,
        (0x10u16, 0x51u16) => 139,
        (0x10u16, 0x54u16) => 140,
        (0x10u16, 0x55u16) => 141,
        (0x10u16, 0x56u16) => 142,
        (0x10u16, 0x57u16) => 143,
        (0x10u16, 0x60u16) => 144,
        (0x10u16, 0x61u16) => 145,
        (0x10u16, 0x62u16) => 146,
        (0x10u16, 0x63u16) => 147,
        (0x10u16, 0x64u16) => 148,
        (0x10u16, 0x70u16) => 149,
        (0x10u16, 0x71u16) => 150,
        (0x10u16, 0x72u16) => 151,
        (0x10u16, 0x73u16) => 152,
        (0x10u16, 0x74u16) => 153,
        (0x10u16, 0x80u16) => 154,
        (0x10u16, 0x81u16) => 155,
        (0x10u16, 0x82u16) => 156,
        (0x10u16, 0x83u16) => 157,
        (0x10u16, 0x84u16) => 158,
        (0x10u16, 0x90u16) => 159,
        (0x10u16, 0x92u16) => 160,
        (0x10u16, 0x93u16) => 161,
        (0x10u16, 0x94u16) => 162,
        (0x10u16, 0x96u16) => 163,
        (0x10u16, 0xA0u16) => 164,
        (0x10u16, 0xA2u16) => 165,
        (0x10u16, 0xA3u16) => 166,
        (0x10u16, 0xA4u16) => 167,
        (0x10u16, 0xA6u16) => 168,
        (0x11u16, 0x00u16) => 169,
        (0x11u16, 0x01u16) => 170,
        (0x11u16, 0x02u16) => 171,
        (0x11u16, 0x04u16) => 172,
        (0x11u16, 0x05u16) => 173,
        (0x11u16, 0x06u16) => 174,
        (0x11u16, 0x08u16) => 175,
        (0x11u16, 0x09u16) => 176,
        (0x11u16, 0x0Au16) => 177,
        (0x11u16, 0x0Cu16) => 178,
        (0x11u16, 0x0Du16) => 179,
        (0x11u16, 0x0Eu16) => 180,
        (0x11u16, 0x10u16) => 181,
        (0x11u16, 0x11u16) => 182,
        (0x11u16, 0x12u16) => 183,
        (0x11u16, 0x14u16) => 184,
        (0x11u16, 0x15u16) => 185,
        (0x11u16, 0x16u16) => 186,
        (0x13u16, 0x01u16) => 187,
        (0x13u16, 0x02u16) => 188,
        (0x13u16, 0x31u16) => 189,
        (0x13u16, 0x32u16) => 190,
        (0x13u16, 0x10u16) => 191,
        (0x13u16, 0x40u16) => 192,
        (0x13u16, 0x11u16) => 193,
        (0x13u16, 0x41u16) => 194,
        (0x13u16, 0x12u16) => 195,
        (0x13u16, 0x42u16) => 196,
        (0x13u16, 0x13u16) => 197,
        (0x13u16, 0x43u16) => 198,
        (0x13u16, 0x14u16) => 199,
        (0x13u16, 0x44u16) => 200,
        (0x13u16, 0x15u16) => 201,
        (0x13u16, 0x45u16) => 202,
        (0x13u16, 0x16u16) => 203,
        (0x13u16, 0x46u16) => 204,
        (0x13u16, 0x17u16) => 205,
        (0x13u16, 0x47u16) => 206,
        (0x13u16, 0x18u16) => 207,
        (0x13u16, 0x48u16) => 208,
        (0x13u16, 0x19u16) => 209,
        (0x13u16, 0x49u16) => 210,
        (0x13u16, 0x1Au16) => 211,
        (0x13u16, 0x4Au16) => 212,
        (0x13u16, 0x1Bu16) => 213,
        (0x13u16, 0x4Bu16) => 214,
        (0x13u16, 0x1Cu16) => 215,
        (0x13u16, 0x4Cu16) => 216,
        (0x13u16, 0x1Du16) => 217,
        (0x13u16, 0x4Du16) => 218,
        (0x13u16, 0x1Eu16) => 219,
        (0x13u16, 0x4Eu16) => 220,
        (0x13u16, 0x1Fu16) => 221,
        (0x13u16, 0x4Fu16) => 222,
        (0x13u16, 0x20u16) => 223,
        (0x13u16, 0x50u16) => 224,
        (0x13u16, 0x21u16) => 225,
        (0x13u16, 0x51u16) => 226,
        (0x13u16, 0x22u16) => 227,
        (0x13u16, 0x52u16) => 228,
        (0x13u16, 0x23u16) => 229,
        (0x13u16, 0x53u16) => 230,
        (0x13u16, 0x60u16) => 231,
        (0x13u16, 0x61u16) => 232,
        (0x13u16, 0x62u16) => 233,
        (0x13u16, 0x63u16) => 234,
        (0x14u16, 0x00u16) => 235,
        (0x14u16, 0x01u16) => 236,
        (0x14u16, 0x02u16) => 237,
        (0x14u16, 0x04u16) => 238,
        (0x14u16, 0x05u16) => 239,
        (0x20u16, 0x00u16) => 240,
        (0x20u16, 0x01u16) => 241,
        (0x20u16, 0x02u16) => 242,
        (0x20u16, 0x03u16) => 243,
        (0x20u16, 0x08u16) => 244,
        (0x20u16, 0x09u16) => 245,
        (0x20u16, 0x0Au16) => 246,
        (0x20u16, 0x0Bu16) => 247,
        (0x20u16, 0x13u16) => 248,
        (0x20u16, 0x14u16) => 249,
        (0x20u16, 0x15u16) => 250,
        (0x20u16, 0x16u16) => 251,
        (0x20u16, 0x10u16) => 252,
        (0x20u16, 0x11u16) => 253,
        (0x20u16, 0x17u16) => 254,
        (0x20u16, 0x18u16) => 255,
        (0x20u16, 0x19u16) => 256,
        (0x20u16, 0x1Au16) => 257,
        (0x20u16, 0x1Bu16) => 258,
        (0x20u16, 0x20u16) => 259,
        (0x20u16, 0x21u16) => 260,
        (0x20u16, 0x22u16) => 261,
        (0x20u16, 0x23u16) => 262,
        (0x20u16, 0x28u16) => 263,
        (0x20u16, 0x29u16) => 264,
        (0x20u16, 0x2Au16) => 265,
        (0x20u16, 0x30u16) => 266,
        (0x20u16, 0x40u16) => 267,
        (0x20u16, 0x31u16) => 268,
        (0x20u16, 0x32u16) => 269,
        (0x20u16, 0x33u16) => 270,
        (0x20u16, 0x34u16) => 271,
        (0x20u16, 0x35u16) => 272,
        (0x20u16, 0x36u16) => 273,
        (0x20u16, 0x42u16) => 274,
        (0x20u16, 0x43u16) => 275,
        (0x20u16, 0x44u16) => 276,
        (0x20u16, 0x45u16) => 277,
        (0x20u16, 0x46u16) => 278,
        (0x20u16, 0x50u16) => 279,
        (0x20u16, 0x52u16) => 280,
        (0x20u16, 0x51u16) => 281,
        (0x20u16, 0x54u16) => 282,
        (0x20u16, 0x55u16) => 283,
        (0x20u16, 0x56u16) => 284,
        (0x20u16, 0x57u16) => 285,
        (0x20u16, 0x60u16) => 286,
        (0x20u16, 0x61u16) => 287,
        (0x20u16, 0x62u16) => 288,
        (0x20u16, 0x63u16) => 289,
        (0x20u16, 0x64u16) => 290,
        (0x20u16, 0x70u16) => 291,
        (0x20u16, 0x71u16) => 292,
        (0x20u16, 0x72u16) => 293,
        (0x20u16, 0x73u16) => 294,
        (0x20u16, 0x74u16) => 295,
        (0x20u16, 0x80u16) => 296,
        (0x20u16, 0x81u16) => 297,
        (0x20u16, 0x82u16) => 298,
        (0x20u16, 0x83u16) => 299,
        (0x20u16, 0x84u16) => 300,
        (0x20u16, 0x90u16) => 301,
        (0x20u16, 0x92u16) => 302,
        (0x20u16, 0x93u16) => 303,
        (0x20u16, 0x94u16) => 304,
        (0x20u16, 0x96u16) => 305,
        (0x20u16, 0xA0u16) => 306,
        (0x20u16, 0xA2u16) => 307,
        (0x20u16, 0xA3u16) => 308,
        (0x20u16, 0xA4u16) => 309,
        (0x20u16, 0xA6u16) => 310,
        (0x21u16, 0x00u16) => 311,
        (0x21u16, 0x01u16) => 312,
        (0x21u16, 0x02u16) => 313,
        (0x21u16, 0x04u16) => 314,
        (0x21u16, 0x05u16) => 315,
        (0x21u16, 0x06u16) => 316,
        (0x21u16, 0x08u16) => 317,
        (0x21u16, 0x09u16) => 318,
        (0x21u16, 0x0Au16) => 319,
        (0x21u16, 0x0Cu16) => 320,
        (0x21u16, 0x0Du16) => 321,
        (0x21u16, 0x0Eu16) => 322,
        (0x21u16, 0x10u16) => 323,
        (0x21u16, 0x11u16) => 324,
        (0x21u16, 0x12u16) => 325,
        (0x21u16, 0x14u16) => 326,
        (0x21u16, 0x15u16) => 327,
        (0x21u16, 0x16u16) => 328,
        (0x23u16, 0x01u16) => 329,
        (0x23u16, 0x02u16) => 330,
        (0x23u16, 0x31u16) => 331,
        (0x23u16, 0x32u16) => 332,
        (0x23u16, 0x10u16) => 333,
        (0x23u16, 0x40u16) => 334,
        (0x23u16, 0x11u16) => 335,
        (0x23u16, 0x41u16) => 336,
        (0x23u16, 0x12u16) => 337,
        (0x23u16, 0x42u16) => 338,
        (0x23u16, 0x13u16) => 339,
        (0x23u16, 0x43u16) => 340,
        (0x23u16, 0x14u16) => 341,
        (0x23u16, 0x44u16) => 342,
        (0x23u16, 0x15u16) => 343,
        (0x23u16, 0x45u16) => 344,
        (0x23u16, 0x16u16) => 345,
        (0x23u16, 0x46u16) => 346,
        (0x23u16, 0x17u16) => 347,
        (0x23u16, 0x47u16) => 348,
        (0x23u16, 0x18u16) => 349,
        (0x23u16, 0x48u16) => 350,
        (0x23u16, 0x19u16) => 351,
        (0x23u16, 0x49u16) => 352,
        (0x23u16, 0x1Au16) => 353,
        (0x23u16, 0x4Au16) => 354,
        (0x23u16, 0x1Bu16) => 355,
        (0x23u16, 0x4Bu16) => 356,
        (0x23u16, 0x1Cu16) => 357,
        (0x23u16, 0x4Cu16) => 358,
        (0x23u16, 0x1Du16) => 359,
        (0x23u16, 0x4Du16) => 360,
        (0x23u16, 0x1Eu16) => 361,
        (0x23u16, 0x4Eu16) => 362,
        (0x23u16, 0x1Fu16) => 363,
        (0x23u16, 0x4Fu16) => 364,
        (0x23u16, 0x20u16) => 365,
        (0x23u16, 0x50u16) => 366,
        (0x23u16, 0x21u16) => 367,
        (0x23u16, 0x51u16) => 368,
        (0x23u16, 0x22u16) => 369,
        (0x23u16, 0x52u16) => 370,
        (0x23u16, 0x23u16) => 371,
        (0x23u16, 0x53u16) => 372,
        (0x23u16, 0x60u16) => 373,
        (0x23u16, 0x61u16) => 374,
        (0x23u16, 0x62u16) => 375,
        (0x23u16, 0x63u16) => 376,
        (0x24u16, 0x00u16) => 377,
        (0x24u16, 0x01u16) => 378,
        (0x24u16, 0x02u16) => 379,
        (0x24u16, 0x04u16) => 380,
        (0x24u16, 0x05u16) => 381,
        _ => -1,
    }
}

/// Parameters 0 ..= 24 lead back from their addresses.
#[verifier::spinoff_prover]
proof fn lemma_addresses_0()
    ensures
        forall|k: usize| 0 <= k < 25 ==> #[trigger] param_index(param_addr(k)) == k,
{
    assert forall|k: usize| 0 <= k < 25 implies #[trigger] param_index(param_addr(k)) == k by {
        if k == 0 {
        } else if k == 1 {
        } else if k == 2 {
        } else if k == 3 {
        } else if k == 4 {
        } else if k == 5 {
        } else if k == 6 {
        } else if k == 7 {
        } else if k == 8 {
        } else if k == 9 {
        } else if k == 10 {
        } else if k == 11 {
        } else if k == 12 {
        } else if k == 13 {
        } else if k == 14 {
        } else if k == 15 {
        } else if k == 16 {
        } else if k == 17 {
        } else if k == 18 {
        } else if k == 19 {
        } else if k == 20 {
        } else if k == 21 {
        } else if k == 22 {
        } else if k == 23 {
        } else if k == 24 {
        }
    }
}

/// Parameters 25 ..= 49 lead back from their addresses.
#[verifier::spinoff_prover]
proof fn lemma_addresses_1()
    ensures
        forall|k: usize| 25 <= k < 50 ==> #[trigger] param_index(param_addr(k)) == k,
{
    assert forall|k: usize| 25 <= k < 50 implies #[trigger] param_index(param_addr(k)) == k by {
        if k == 25 {
        } else if k == 26 {
        } else if k == 27 {
        } else if k == 28 {
        } else if k == 29 {
        } else if k == 30 {
        } else if k == 31 {
        } else if k == 32 {
        } else if k == 33 {
        } else if k == 34 {
        } else if k == 35 {
        } else if k == 36 {
        } else if k == 37 {
        } else if k == 38 {
        } else if k == 39 {
        } else if k == 40 {
        } else if k == 41 {
        } else if k == 42 {
        } else if k == 43 {
        } else if k == 44 {
        } else if k == 45 {
        } else if k == 46 {
        } else if k == 47 {
        } else if k == 48 {
        } else if k == 49 {
        }
    }
}

/// Parameters 50 ..= 74 lead back from their addresses.
#[verifier::spinoff_prover]
proof fn lemma_addresses_2()
    ensures
        forall|k: usize| 50 <= k < 75 ==> #[trigger] param_index(param_addr(k)) == k,
{
    assert forall|k: usize| 50 <= k < 75 implies #[trigger] param_index(param_addr(k)) == k by {
        if k == 50 {
        } else if k == 51 {
        } else if k == 52 {
        } else if k == 53 {
        } else if k == 54 {
        } else if k == 55 {
        } else if k == 56 {
        } else if k == 57 {
        } else if k == 58 {
        } else if k == 59 {
        } else if k == 60 {
        } else if k == 61 {
        } else if k == 62 {
        } else if k == 63 {
        } else if k == 64 {
        } else if k == 65 {
        } else if k == 66 {
        } else if k == 67 {
        } else if k == 68 {
        } else if k == 69 {
        } else if k == 70 {
        } else if k == 71 {
        } else if k == 72 {
        } else if k == 73 {
        } else if k == 74 {
        }
    }
}

/// Parameters 75 ..= 99 lead back from their addresses.
#[verifier::spinoff_prover]
proof fn lemma_addresses_3()
    ensures
        forall|k: usize| 75 <= k < 100 ==> #[trigger] param_index(param_addr(k)) == k,
{
    assert forall|k: usize| 75 <= k < 100 implies #[trigger] param_index(param_addr(k)) == k by {
        if k == 75 {
        } else if k == 76 {
        } else if k == 77 {
        } else if k == 78 {
        } else if k == 79 {
        } else if k == 80 {
        } else if k == 81 {
        } else if k == 82 {
        } else if k == 83 {
        } else if k == 84 {
        } else if k == 85 {
        } else if k == 86 {
        } else if k == 87 {
        } else if k == 88 {
        } else if k == 89 {
        } else if k == 90 {
        } else if k == 91 {
        } else if k == 92 {
        } else if k == 93 {
        } else if k == 94 {
        } else if k == 95 {
        } else if k == 96 {
        } else if k == 97 {
        } else if k == 98 {
        } else if k == 99 {
        }
    }
}

/// Parameters 100 ..= 124 lead back from their addresses.
#[verifier::spinoff_prover]
proof fn lemma_addresses_4()
    ensures
        forall|k: usize| 100 <= k < 125 ==> #[trigger] param_index(param_addr(k)) == k,
{
    assert forall|k: usize| 100 <= k < 125 implies #[trigger] param_index(param_addr(k)) == k by {
        if k == 100 {
        } else if k == 101 {
        } else if k == 102 {
        } else if k == 103 {
        } else if k == 104 {
        } else if k == 105 {
        } else if k == 106 {
        } else if k == 107 {
        } else if k == 108 {
        } else if k == 109 {
        } else if k == 110 {
        } else if k == 111 {
        } else if k == 112 {
        } else if k == 113 {
        } else if k == 114 {
        } else if k == 115 {
        } else if k == 116 {
        } else if k == 117 {
        } else if k == 118 {
        } else if k == 119 {
        } else if k == 120 {
        } else if k == 121 {
        } else if k == 122 {
        } else if k == 123 {
        } else if k == 124 {
        }
    }
}

/// Parameters 125 ..= 149 lead back from their addresses.
#[verifier::spinoff_prover]
proof fn lemma_addresses_5()
    ensures
        forall|k: usize| 125 <= k < 150 ==> #[trigger] param_index(param_addr(k)) == k,
{
    assert forall|k: usize| 125 <= k < 150 implies #[trigger] param_index(param_addr(k)) == k by {
        if k == 125 {
        } else if k == 126 {
        } else if k == 127 {
        } else if k == 128 {
        } else if k == 129 {
        } else if k == 130 {
        } else if k == 131 {
        } else if k == 132 {
        } else if k == 133 {
        } else if k == 134 {
        } else if k == 135 {
        } else if k == 136 {
        } else if k == 137 {
        } else if k == 138 {
        } else if k == 139 {
        } else if k == 140 {
        } else if k == 141 {
        } else if k == 142 {
        } else if k == 143 {
        } else if k == 144 {
        } else if k == 145 {
        } else if k == 146 {
        } else if k == 147 {
        } else if k == 148 {
        } else if k == 149 {
        }
    }
}

/// Parameters 150 ..= 174 lead back from their addresses.
#[verifier::spinoff_prover]
proof fn lemma_addresses_6()
    ensures
        forall|k: usize| 150 <= k < 175 ==> #[trigger] param_index(param_addr(k)) == k,
{
    assert forall|k: usize| 150 <= k < 175 implies #[trigger] param_index(param_addr(k)) == k by {
        if k == 150 {
        } else if k == 151 {
        } else if k == 152 {
        } else if k == 153 {
        } else if k == 154 {
        } else if k == 155 {
        } else if k == 156 {
        } else if k == 157 {
        } else if k == 158 {
        } else if k == 159 {
        } else if k == 160 {
        } else if k == 161 {
        } else if k == 162 {
        } else if k == 163 {
        } else if k == 164 {
        } else if k == 165 {
        } else if k == 166 {
        } else if k == 167 {
        } else if k == 168 {
        } else if k == 169 {
        } else if k == 170 {
        } else if k == 171 {
        } else if k == 172 {
        } else if k == 173 {
        } else if k == 174 {
        }
    }
}

/// Parameters 175 ..= 199 lead back from their addresses.
#[verifier::spinoff_prover]
proof fn lemma_addresses_7()
    ensures
        forall|k: usize| 175 <= k < 200 ==> #[trigger] param_index(param_addr(k)) == k,
{
    assert forall|k: usize| 175 <= k < 200 implies #[trigger] param_index(param_addr(k)) == k by {
        if k == 175 {
        } else if k == 176 {
        } else if k == 177 {
        } else if k == 178 {
        } else if k == 179 {
        } else if k == 180 {
        } else if k == 181 {
        } else if k == 182 {
        } else if k == 183 {
        } else if k == 184 {
        } else if k == 185 {
        } else if k == 186 {
        } else if k == 187 {
        } else if k == 188 {
        } else if k == 189 {
        } else if k == 190 {
        } else if k == 191 {
        } else if k == 192 {
        } else if k == 193 {
        } else if k == 194 {
        } else if k == 195 {
        } else if k == 196 {
        } else if k == 197 {
        } else if k == 198 {
        } else if k == 199 {
        }
    }
}

/// Parameters 200 ..= 224 lead back from their addresses.
#[verifier::spinoff_prover]
proof fn lemma_addresses_8()
    ensures
        forall|k: usize| 200 <= k < 225 ==> #[trigger] param_index(param_addr(k)) == k,
{
    assert forall|k: usize| 200 <= k < 225 implies #[trigger] param_index(param_addr(k)) == k by {
        if k == 200 {
        } else if k == 201 {
        } else if k == 202 {
        } else if k == 203 {
        } else if k == 204 {
        } else if k == 205 {
        } else if k == 206 {
        } else if k == 207 {
        } else if k == 208 {
        } else if k == 209 {
        } else if k == 210 {
        } else if k == 211 {
        } else if k == 212 {
        } else if k == 213 {
        } else if k == 214 {
        } else if k == 215 {
        } else if k == 216 {
        } else if k == 217 {
        } else if k == 218 {
        } else if k == 219 {
        } else if k == 220 {
        } else if k == 221 {
        } else if k == 222 {
        } else if k == 223 {
        } else if k == 224 {
        }
    }
}

/// Parameters 225 ..= 249 lead back from their addresses.
#[verifier::spinoff_prover]
proof fn lemma_addresses_9()
    ensures
        forall|k: usize| 225 <= k < 250 ==> #[trigger] param_index(param_addr(k)) == k,
{
    assert forall|k: usize| 225 <= k < 250 implies #[trigger] param_index(param_addr(k)) == k by {
        if k == 225 {
        } else if k == 226 {
        } else if k == 227 {
        } else if k == 228 {
        } else if k == 229 {
        } else if k == 230 {
        } else if k == 231 {
        } else if k == 232 {
        } else if k == 233 {
        } else if k == 234 {
        } else if k == 235 {
        } else if k == 236 {
        } else if k == 237 {
        } else if k == 238 {
        } else if k == 239 {
        } else if k == 240 {
        } else if k == 241 {
        } else if k == 242 {
        } else if k == 243 {
        } else if k == 244 {
        } else if k == 245 {
        } else if k == 246 {
        } else if k == 247 {
        } else if k == 248 {
        } else if k == 249 {
        }
    }
}

/// Parameters 250 ..= 274 lead back from their addresses.
#[verifier::spinoff_prover]
proof fn lemma_addresses_10()
    ensures
        forall|k: usize| 250 <= k < 275 ==> #[trigger] param_index(param_addr(k)) == k,
{
    assert forall|k: usize| 250 <= k < 275 implies #[trigger] param_index(param_addr(k)) == k by {
        if k == 250 {
        } else if k == 251 {
        } else if k == 252 {
        } else if k == 253 {
        } else if k == 254 {
        } else if k == 255 {
        } else if k == 256 {
        } else if k == 257 {
        } else if k == 258 {
        } else if k == 259 {
        } else if k == 260 {
        } else if k == 261 {
        } else if k == 262 {
        } else if k == 263 {
        } else if k == 264 {
        } else if k == 265 {
        } else if k == 266 {
        } else if k == 267 {
        } else if k == 268 {
        } else if k == 269 {
        } else if k == 270 {
        } else if k == 271 {
        } else if k == 272 {
        } else if k == 273 {
        } else if k == 274 {
        }
    }
}

/// Parameters 275 ..= 299 lead back from their addresses.
#[verifier::spinoff_prover]
proof fn lemma_addresses_11()
    ensures
        forall|k: usize| 275 <= k < 300 ==> #[trigger] param_index(param_addr(k)) == k,
{
    assert forall|k: usize| 275 <= k < 300 implies #[trigger] param_index(param_addr(k)) == k by {
        if k == 275 {
        } else if k == 276 {
        } else if k == 277 {
        } else if k == 278 {
        } else if k == 279 {
        } else if k == 280 {
        } else if k == 281 {
        } else if k == 282 {
        } else if k == 283 {
        } else if k == 284 {
        } else if k == 285 {
        } else if k == 286 {
        } else if k == 287 {
        } else if k == 288 {
        } else if k == 289 {
        } else if k == 290 {
        } else if k == 291 {
        } else if k == 292 {
        } else if k == 293 {
        } else if k == 294 {
        } else if k == 295 {
        } else if k == 296 {
        } else if k == 297 {
        } else if k == 298 {
        } else if k == 299 {
        }
    }
}

/// Parameters 300 ..= 324 lead back from their addresses.
#[verifier::spinoff_prover]
proof fn lemma_addresses_12()
    ensures
        forall|k: usize| 300 <= k < 325 ==> #[trigger] param_index(param_addr(k)) == k,
{
    assert forall|k: usize| 300 <= k < 325 implies #[trigger] param_index(param_addr(k)) == k by {
        if k == 300 {
        } else if k == 301 {
        } else if k == 302 {
        } else if k == 303 {
        } else if k == 304 {
        } else if k == 305 {
        } else if k == 306 {
        } else if k == 307 {
        } else if k == 308 {
        } else if k == 309 {
        } else if k == 310 {
        } else if k == 311 {
        } else if k == 312 {
        } else if k == 313 {
        } else if k == 314 {
        } else if k == 315 {
        } else if k == 316 {
        } else if k == 317 {
        } else if k == 318 {
        } else if k == 319 {
        } else if k == 320 {
        } else if k == 321 {
        } else if k == 322 {
        } else if k == 323 {
        } else if k == 324 {
        }
    }
}

/// Parameters 325 ..= 349 lead back from their addresses.
#[verifier::spinoff_prover]
proof fn lemma_addresses_13()
    ensures
        forall|k: usize| 325 <= k < 350 ==> #[trigger] param_index(param_addr(k)) == k,
{
    assert forall|k: usize| 325 <= k < 350 implies #[trigger] param_index(param_addr(k)) == k by {
        if k == 325 {
        } else if k == 326 {
        } else if k == 327 {
        } else if k == 328 {
        } else if k == 329 {
        } else if k == 330 {
        } else if k == 331 {
        } else if k == 332 {
        } else if k == 333 {
        } else if k == 334 {
        } else if k == 335 {
        } else if k == 336 {
        } else if k == 337 {
        } else if k == 338 {
        } else if k == 339 {
        } else if k == 340 {
        } else if k == 341 {
        } else if k == 342 {
        } else if k == 343 {
        } else if k == 344 {
        } else if k == 345 {
        } else if k == 346 {
        } else if k == 347 {
        } else if k == 348 {
        } else if k == 349 {
        }
    }
}

/// Parameters 350 ..= 374 lead back from their addresses.
#[verifier::spinoff_prover]
proof fn lemma_addresses_14()
    ensures
        forall|k: usize| 350 <= k < 375 ==> #[trigger] param_index(param_addr(k)) == k,
{
    assert forall|k: usize| 350 <= k < 375 implies #[trigger] param_index(param_addr(k)) == k by {
        if k == 350 {
        } else if k == 351 {
        } else if k == 352 {
        } else if k == 353 {
        } else if k == 354 {
        } else if k == 355 {
        } else if k == 356 {
        } else if k == 357 {
        } else if k == 358 {
        } else if k == 359 {
        } else if k == 360 {
        } else if k == 361 {
        } else if k == 362 {
        } else if k == 363 {
        } else if k == 364 {
        } else if k == 365 {
        } else if k == 366 {
        } else if k == 367 {
        } else if k == 368 {
        } else if k == 369 {
        } else if k == 370 {
        } else if k == 371 {
        } else if k == 372 {
        } else if k == 373 {
        } else if k == 374 {
        }
    }
}

/// Parameters 375 ..= 381 lead back from their addresses.
#[verifier::spinoff_prover]
proof fn lemma_addresses_15()
    ensures
        forall|k: usize| 375 <= k < 382 ==> #[trigger] param_index(param_addr(k)) == k,
{
    assert forall|k: usize| 375 <= k < 382 implies #[trigger] param_index(param_addr(k)) == k by {
        if k == 375 {
        } else if k == 376 {
        } else if k == 377 {
        } else if k == 378 {
        } else if k == 379 {
        } else if k == 380 {
        } else if k == 381 {
        }
    }
}

/// No two parameters share an address: the address of parameter `k` leads
/// back to `k`.
pub proof fn lemma_addresses_distinct()
    ensures
        forall|k: usize| k < PROGRAM_PARAMS ==> #[trigger] param_index(param_addr(k)) == k,
{
    lemma_addresses_0();
    lemma_addresses_1();
    lemma_addresses_2();
    lemma_addresses_3();
    lemma_addresses_4();
    lemma_addresses_5();
    lemma_addresses_6();
    lemma_addresses_7();
    lemma_addresses_8();
    lemma_addresses_9();
    lemma_addresses_10();
    lemma_addresses_11();
    lemma_addresses_12();
    lemma_addresses_13();
    lemma_addresses_14();
    lemma_addresses_15();
}

/// The value that parameter `k` sends, received back in a parameter change
/// and applied to any program, sets parameter `k` of that program to that
/// value.
pub proof fn lemma_apply_inverts_emit(k: usize, raw: RawParameterChange, old: Program, new: Program, res: bool)
    requires
        k < PROGRAM_PARAMS,
        change_addr(raw) == param_addr(k),
        in_range(param_kind(k), change_value(raw)),
        change_applied(old, raw, new, res),
    ensures
        res,
        param_value(new, k) == change_value(raw),
{
    lemma_addresses_distinct();
    lemma_stored_read_back(param_kind(k), change_value(raw));
    assert(param_addr(k) == change_addr(raw));
    let i = choose|i: usize|
        #![trigger param_addr(i)]
        i < PROGRAM_PARAMS && param_addr(i) == change_addr(raw) && (forall|j: usize|
            j < i ==> #[trigger] param_addr(j) != change_addr(raw)) && param_value(new, i) == stored(
            param_kind(i),
            change_value(raw),
        ) && param_frame(old, new, i);
    assert(param_index(param_addr(i)) == i);
    assert(param_index(param_addr(k)) == k);
}

/// Whether the bytes of the program that are sent through a mask keep to
/// it: the arpeggiator's octave range and last step, and the knob
/// assignments of the master and insert effects.
pub open spec fn masked_bytes_fit(p: Program) -> bool {
    &&& p.arp.octave_range <= 3
    &&& p.arp.last_step <= 7
    &&& p.master_fx.knob_assign <= 0x1F
    &&& p.timbre1.insert_fx.fx1_knob <= 0x1F
    &&& p.timbre1.insert_fx.fx2_knob <= 0x1F
    &&& p.timbre2.insert_fx.fx1_knob <= 0x1F
    &&& p.timbre2.insert_fx.fx2_knob <= 0x1F
}

/// A masked byte that keeps to its mask is a value its parameter can send.
pub proof fn lemma_masked_param_in_range(p: Program, k: usize)
    requires
        k < PROGRAM_PARAMS,
        param_kind(k) is Masked,
        masked_bytes_fit(p),
    ensures
        in_range(param_kind(k), param_value(p, k)),
{
    assert(forall|x: u8, m: u8|
        x <= m && (m == 3 || m == 7 || m == 31) ==> #[trigger] (x & m) == x && ((x as u16) as u8) == x)
        by (bit_vector);
    if k < 98 {
        assert(k == 14 || k == 15 || k == 28);
    } else {
        assert(timbre_index(k) == 90 || timbre_index(k) == 92);
    }
}

/// Every address of a program parameter fits in 14 bits, as a parameter
/// change sends it.
proof fn lemma_param_addr_small(k: usize)
    requires
        k < PROGRAM_PARAMS,
    ensures
        param_addr(k).id < 16384,
        param_addr(k).sub < 16384,
{
    if k < 98 {
        assert(global_addr(k).id < 128 && global_addr(k).sub < 128);
    } else {
        let j = timbre_index(k);
        assert(timbre_slot(j).0 <= 3 && timbre_slot(j).1 < 0x100);
    }
}

/// A value that parameter `k` can send, sent as a parameter change message,
/// read back and applied to any program, sets parameter `k` of that program
/// to that value.
#[verifier::spinoff_prover]
#[verifier::rlimit(60)]
pub proof fn lemma_sent_change_sets_param(
    k: usize,
    channel: u8,
    value: u16,
    raw: RawParameterChange,
    old: Program,
    new: Program,
    res: bool,
)
    requires
        k < PROGRAM_PARAMS,
        in_range(param_kind(k), value),
        carries(
            frame_payload(parameter_change_bytes(channel, param_addr(k).id, param_addr(k).sub, value)),
            KorgR3Message::ParameterChange(raw),
        ),
        change_applied(old, raw, new, res),
    ensures
        res,
        param_value(new, k) == value,
{
    let addr = param_addr(k);
    lemma_param_addr_small(k);
    assert(value <= 300);
    assert(change_addr(raw) == addr && change_value(raw) == value) by {
        lemma_parameter_change_round_trip(channel, addr.id, addr.sub, value);
        let m = KorgR3Message::ParameterChange(raw);
        assert(m matches KorgR3Message::ParameterChange(r) && unpacked_u14(r.param_id[1], r.param_id[0])
            == addr.id % 16384 && unpacked_u14(r.sub_id[1], r.sub_id[0]) == addr.sub % 16384
            && unpacked_u14(r.value[1], r.value[0]) == value % 16384);
    }
    lemma_apply_inverts_emit(k, raw, old, new, res);
}

/// Two equal programs differ in no parameter.
pub proof fn lemma_no_diff_for_equal_programs(p: Program, n: nat)
    ensures
        changed_params(p, p, n) == Seq::<LiveParam>::empty(),
    decreases n,
{
    if n > 0 {
        lemma_no_diff_for_equal_programs(p, (n - 1) as nat);
    }
}

/// Program parameters 0 to 31: the address each is sent to, its kind,
/// and the field of the program it carries.
#[verifier::spinoff_prover]
#[verifier::rlimit(60)]
pub proof fn lemma_param_table_0(p: Program)
    ensures
        param_addr(0) == (ParamAddr { id: 0x00, sub: 0x19 }),
        param_kind(0) == ParamKind::Choice(4u8),
        param_value(p, 0) == (p.voice_mode as u8) as u16,
        param_addr(1) == (ParamAddr { id: 0x00, sub: 0x18 }),
        param_kind(1) == ParamKind::Choice(3u8),
        param_value(p, 1) == (p.arp_timbre as u8) as u16,
        param_addr(2) == (ParamAddr { id: 0x00, sub: 0x14 }),
        param_kind(2) == ParamKind::Unsigned(55u8),
        param_value(p, 2) == p.vcd_knob_assigns[0]@ as u16,
        param_addr(3) == (ParamAddr { id: 0x00, sub: 0x15 }),
        param_kind(3) == ParamKind::Unsigned(55u8),
        param_value(p, 3) == p.vcd_knob_assigns[1]@ as u16,
        param_addr(4) == (ParamAddr { id: 0x00, sub: 0x16 }),
        param_kind(4) == ParamKind::Unsigned(55u8),
        param_value(p, 4) == p.vcd_knob_assigns[2]@ as u16,
        param_addr(5) == (ParamAddr { id: 0x00, sub: 0x17 }),
        param_kind(5) == ParamKind::Unsigned(55u8),
        param_value(p, 5) == p.vcd_knob_assigns[3]@ as u16,
        param_addr(6) == (ParamAddr { id: 0x00, sub: 0x1A }),
        param_kind(6) == ParamKind::MidiChannel,
        param_value(p, 6) == (p.timbre2_midi_ch as u8) as u16,
        param_addr(7) == (ParamAddr { id: 0x00, sub: 0x1B }),
        param_kind(7) == ParamKind::Byte,
        param_value(p, 7) == p.center_key as u16,
        param_addr(8) == (ParamAddr { id: 0x00, sub: 0x1C }),
        param_kind(8) == ParamKind::Unsigned(15u8),
        param_value(p, 8) == p.category@ as u16,
        param_addr(9) == (ParamAddr { id: 0x60, sub: 0x00 }),
        param_kind(9) == ParamKind::Tempo,
        param_value(p, 9) == p.tempo@ as u16,
        param_addr(10) == (ParamAddr { id: 0x60, sub: 0x01 }),
        param_kind(10) == ParamKind::Flag,
        param_value(p, 10) == if p.arp.on { 1u16 } else { 0u16 },
        param_addr(11) == (ParamAddr { id: 0x60, sub: 0x02 }),
        param_kind(11) == ParamKind::Flag,
        param_value(p, 11) == if p.arp.key_sync { 1u16 } else { 0u16 },
        param_addr(12) == (ParamAddr { id: 0x61, sub: 0x00 }),
        param_kind(12) == ParamKind::Choice(6u8),
        param_value(p, 12) == (p.arp.arp_type as u8) as u16,
        param_addr(13) == (ParamAddr { id: 0x61, sub: 0x01 }),
        param_kind(13) == ParamKind::Unsigned(8u8),
        param_value(p, 13) == p.arp.resolution@ as u16,
        param_addr(14) == (ParamAddr { id: 0x61, sub: 0x02 }),
        param_kind(14) == ParamKind::Masked(3u8),
        param_value(p, 14) == p.arp.octave_range as u16,
        param_addr(15) == (ParamAddr { id: 0x61, sub: 0x03 }),
        param_kind(15) == ParamKind::Masked(7u8),
        param_value(p, 15) == p.arp.last_step as u16,
        param_addr(16) == (ParamAddr { id: 0x61, sub: 0x04 }),
        param_kind(16) == ParamKind::Unsigned(100u8),
        param_value(p, 16) == p.arp.gate_time@ as u16,
        param_addr(17) == (ParamAddr { id: 0x61, sub: 0x05 }),
        param_kind(17) == ParamKind::Signed(50u8),
        param_value(p, 17) == (p.arp.swing@ + 64) as u16,
        param_addr(18) == (ParamAddr { id: 0x61, sub: 0x06 }),
        param_kind(18) == ParamKind::Flag,
        param_value(p, 18) == if p.arp.latch { 1u16 } else { 0u16 },
        param_addr(19) == (ParamAddr { id: 0x61, sub: 0x10 }),
        param_kind(19) == ParamKind::Bit,
        param_value(p, 19) == ((p.arp.step_switches >> 7u8) & 1u8) as u16,
        param_addr(20) == (ParamAddr { id: 0x61, sub: 0x11 }),
        param_kind(20) == ParamKind::Bit,
        param_value(p, 20) == ((p.arp.step_switches >> 6u8) & 1u8) as u16,
        param_addr(21) == (ParamAddr { id: 0x61, sub: 0x12 }),
        param_kind(21) == ParamKind::Bit,
        param_value(p, 21) == ((p.arp.step_switches >> 5u8) & 1u8) as u16,
        param_addr(22) == (ParamAddr { id: 0x61, sub: 0x13 }),
        param_kind(22) == ParamKind::Bit,
        param_value(p, 22) == ((p.arp.step_switches >> 4u8) & 1u8) as u16,
        param_addr(23) == (ParamAddr { id: 0x61, sub: 0x14 }),
        param_kind(23) == ParamKind::Bit,
        param_value(p, 23) == ((p.arp.step_switches >> 3u8) & 1u8) as u16,
        param_addr(24) == (ParamAddr { id: 0x61, sub: 0x15 }),
        param_kind(24) == ParamKind::Bit,
        param_value(p, 24) == ((p.arp.step_switches >> 2u8) & 1u8) as u16,
        param_addr(25) == (ParamAddr { id: 0x61, sub: 0x16 }),
        param_kind(25) == ParamKind::Bit,
        param_value(p, 25) == ((p.arp.step_switches >> 1u8) & 1u8) as u16,
        param_addr(26) == (ParamAddr { id: 0x61, sub: 0x17 }),
        param_kind(26) == ParamKind::Bit,
        param_value(p, 26) == ((p.arp.step_switches >> 0u8) & 1u8) as u16,
        param_addr(27) == (ParamAddr { id: 0x50, sub: 0x01 }),
        param_kind(27) == ParamKind::Choice(31u8),
        param_value(p, 27) == (p.master_fx.fx_type as u8) as u16,
        param_addr(28) == (ParamAddr { id: 0x50, sub: 0x02 }),
        param_kind(28) == ParamKind::Masked(31u8),
        param_value(p, 28) == p.master_fx.knob_assign as u16,
        param_addr(29) == (ParamAddr { id: 0x51, sub: 0x00 }),
        param_kind(29) == ParamKind::Unsigned(127u8),
        param_value(p, 29) == p.master_fx.params[0]@ as u16,
        param_addr(30) == (ParamAddr { id: 0x51, sub: 0x01 }),
        param_kind(30) == ParamKind::Unsigned(127u8),
        param_value(p, 30) == p.master_fx.params[1]@ as u16,
        param_addr(31) == (ParamAddr { id: 0x51, sub: 0x02 }),
        param_kind(31) == ParamKind::Unsigned(127u8),
        param_value(p, 31) == p.master_fx.params[2]@ as u16,
{
}

/// Program parameters 32 to 63: the address each is sent to, its kind,
/// and the field of the program it carries.
#[verifier::spinoff_prover]
#[verifier::rlimit(60)]
pub proof fn lemma_param_table_1(p: Program)
    ensures
        param_addr(32) == (ParamAddr { id: 0x51, sub: 0x03 }),
        param_kind(32) == ParamKind::Unsigned(127u8),
        param_value(p, 32) == p.master_fx.params[3]@ as u16,
        param_addr(33) == (ParamAddr { id: 0x51, sub: 0x04 }),
        param_kind(33) == ParamKind::Unsigned(127u8),
        param_value(p, 33) == p.master_fx.params[4]@ as u16,
        param_addr(34) == (ParamAddr { id: 0x51, sub: 0x05 }),
        param_kind(34) == ParamKind::Unsigned(127u8),
        param_value(p, 34) == p.master_fx.params[5]@ as u16,
        param_addr(35) == (ParamAddr { id: 0x51, sub: 0x06 }),
        param_kind(35) == ParamKind::Unsigned(127u8),
        param_value(p, 35) == p.master_fx.params[6]@ as u16,
        param_addr(36) == (ParamAddr { id: 0x51, sub: 0x07 }),
        param_kind(36) == ParamKind::Unsigned(127u8),
        param_value(p, 36) == p.master_fx.params[7]@ as u16,
        param_addr(37) == (ParamAddr { id: 0x51, sub: 0x08 }),
        param_kind(37) == ParamKind::Unsigned(127u8),
        param_value(p, 37) == p.master_fx.params[8]@ as u16,
        param_addr(38) == (ParamAddr { id: 0x51, sub: 0x09 }),
        param_kind(38) == ParamKind::Unsigned(127u8),
        param_value(p, 38) == p.master_fx.params[9]@ as u16,
        param_addr(39) == (ParamAddr { id: 0x51, sub: 0x0A }),
        param_kind(39) == ParamKind::Unsigned(127u8),
        param_value(p, 39) == p.master_fx.params[10]@ as u16,
        param_addr(40) == (ParamAddr { id: 0x51, sub: 0x0B }),
        param_kind(40) == ParamKind::Unsigned(127u8),
        param_value(p, 40) == p.master_fx.params[11]@ as u16,
        param_addr(41) == (ParamAddr { id: 0x51, sub: 0x0C }),
        param_kind(41) == ParamKind::Unsigned(127u8),
        param_value(p, 41) == p.master_fx.params[12]@ as u16,
        param_addr(42) == (ParamAddr { id: 0x51, sub: 0x0D }),
        param_kind(42) == ParamKind::Unsigned(127u8),
        param_value(p, 42) == p.master_fx.params[13]@ as u16,
        param_addr(43) == (ParamAddr { id: 0x51, sub: 0x0E }),
        param_kind(43) == ParamKind::Unsigned(127u8),
        param_value(p, 43) == p.master_fx.params[14]@ as u16,
        param_addr(44) == (ParamAddr { id: 0x51, sub: 0x0F }),
        param_kind(44) == ParamKind::Unsigned(127u8),
        param_value(p, 44) == p.master_fx.params[15]@ as u16,
        param_addr(45) == (ParamAddr { id: 0x51, sub: 0x10 }),
        param_kind(45) == ParamKind::Unsigned(127u8),
        param_value(p, 45) == p.master_fx.params[16]@ as u16,
        param_addr(46) == (ParamAddr { id: 0x51, sub: 0x11 }),
        param_kind(46) == ParamKind::Unsigned(127u8),
        param_value(p, 46) == p.master_fx.params[17]@ as u16,
        param_addr(47) == (ParamAddr { id: 0x51, sub: 0x12 }),
        param_kind(47) == ParamKind::Unsigned(127u8),
        param_value(p, 47) == p.master_fx.params[18]@ as u16,
        param_addr(48) == (ParamAddr { id: 0x51, sub: 0x13 }),
        param_kind(48) == ParamKind::Unsigned(127u8),
        param_value(p, 48) == p.master_fx.params[19]@ as u16,
        param_addr(49) == (ParamAddr { id: 0x40, sub: 0x00 }),
        param_kind(49) == ParamKind::Flag,
        param_value(p, 49) == if p.vocoder.on { 1u16 } else { 0u16 },
        param_addr(50) == (ParamAddr { id: 0x40, sub: 0x05 }),
        param_kind(50) == ParamKind::Flag,
        param_value(p, 50) == if p.vocoder.source_formant_rec { 1u16 } else { 0u16 },
        param_addr(51) == (ParamAddr { id: 0x40, sub: 0x04 }),
        param_kind(51) == ParamKind::Flag,
        param_value(p, 51) == if p.vocoder.hpf_gate { 1u16 } else { 0u16 },
        param_addr(52) == (ParamAddr { id: 0x40, sub: 0x03 }),
        param_kind(52) == ParamKind::Flag,
        param_value(p, 52) == if p.vocoder.formant_trig_reset { 1u16 } else { 0u16 },
        param_addr(53) == (ParamAddr { id: 0x40, sub: 0x01 }),
        param_kind(53) == ParamKind::Flag,
        param_value(p, 53) == if p.vocoder.select_timbre2 { 1u16 } else { 0u16 },
        param_addr(54) == (ParamAddr { id: 0x40, sub: 0x06 }),
        param_kind(54) == ParamKind::Unsigned(127u8),
        param_value(p, 54) == p.vocoder.gate_sens@ as u16,
        param_addr(55) == (ParamAddr { id: 0x40, sub: 0x07 }),
        param_kind(55) == ParamKind::Unsigned(127u8),
        param_value(p, 55) == p.vocoder.threshold@ as u16,
        param_addr(56) == (ParamAddr { id: 0x40, sub: 0x08 }),
        param_kind(56) == ParamKind::Unsigned(127u8),
        param_value(p, 56) == p.vocoder.hpf_level@ as u16,
        param_addr(57) == (ParamAddr { id: 0x40, sub: 0x09 }),
        param_kind(57) == ParamKind::Unsigned(127u8),
        param_value(p, 57) == p.vocoder.direct_level@ as u16,
        param_addr(58) == (ParamAddr { id: 0x40, sub: 0x0A }),
        param_kind(58) == ParamKind::Unsigned(127u8),
        param_value(p, 58) == p.vocoder.timbre1_level@ as u16,
        param_addr(59) == (ParamAddr { id: 0x40, sub: 0x0B }),
        param_kind(59) == ParamKind::Unsigned(127u8),
        param_value(p, 59) == p.vocoder.input1_level@ as u16,
        param_addr(60) == (ParamAddr { id: 0x40, sub: 0x0C }),
        param_kind(60) == ParamKind::Unsigned(127u8),
        param_value(p, 60) == p.vocoder.vocoder_level@ as u16,
        param_addr(61) == (ParamAddr { id: 0x41, sub: 0x00 }),
        param_kind(61) == ParamKind::Pan,
        param_value(p, 61) == (p.vocoder.band_pans[0]@ + 64) as u16,
        param_addr(62) == (ParamAddr { id: 0x41, sub: 0x01 }),
        param_kind(62) == ParamKind::Unsigned(127u8),
        param_value(p, 62) == p.vocoder.band_levels[0]@ as u16,
        param_addr(63) == (ParamAddr { id: 0x41, sub: 0x02 }),
        param_kind(63) == ParamKind::Pan,
        param_value(p, 63) == (p.vocoder.band_pans[1]@ + 64) as u16,
{
}

/// Program parameters 64 to 95: the address each is sent to, its kind,
/// and the field of the program it carries.
#[verifier::spinoff_prover]
#[verifier::rlimit(60)]
pub proof fn lemma_param_table_2(p: Program)
    ensures
        param_addr(64) == (ParamAddr { id: 0x41, sub: 0x03 }),
        param_kind(64) == ParamKind::Unsigned(127u8),
        param_value(p, 64) == p.vocoder.band_levels[1]@ as u16,
        param_addr(65) == (ParamAddr { id: 0x41, sub: 0x04 }),
        param_kind(65) == ParamKind::Pan,
        param_value(p, 65) == (p.vocoder.band_pans[2]@ + 64) as u16,
        param_addr(66) == (ParamAddr { id: 0x41, sub: 0x05 }),
        param_kind(66) == ParamKind::Unsigned(127u8),
        param_value(p, 66) == p.vocoder.band_levels[2]@ as u16,
        param_addr(67) == (ParamAddr { id: 0x41, sub: 0x06 }),
        param_kind(67) == ParamKind::Pan,
        param_value(p, 67) == (p.vocoder.band_pans[3]@ + 64) as u16,
        param_addr(68) == (ParamAddr { id: 0x41, sub: 0x07 }),
        param_kind(68) == ParamKind::Unsigned(127u8),
        param_value(p, 68) == p.vocoder.band_levels[3]@ as u16,
        param_addr(69) == (ParamAddr { id: 0x41, sub: 0x08 }),
        param_kind(69) == ParamKind::Pan,
        param_value(p, 69) == (p.vocoder.band_pans[4]@ + 64) as u16,
        param_addr(70) == (ParamAddr { id: 0x41, sub: 0x09 }),
        param_kind(70) == ParamKind::Unsigned(127u8),
        param_value(p, 70) == p.vocoder.band_levels[4]@ as u16,
        param_addr(71) == (ParamAddr { id: 0x41, sub: 0x0A }),
        param_kind(71) == ParamKind::Pan,
        param_value(p, 71) == (p.vocoder.band_pans[5]@ + 64) as u16,
        param_addr(72) == (ParamAddr { id: 0x41, sub: 0x0B }),
        param_kind(72) == ParamKind::Unsigned(127u8),
        param_value(p, 72) == p.vocoder.band_levels[5]@ as u16,
        param_addr(73) == (ParamAddr { id: 0x41, sub: 0x0C }),
        param_kind(73) == ParamKind::Pan,
        param_value(p, 73) == (p.vocoder.band_pans[6]@ + 64) as u16,
        param_addr(74) == (ParamAddr { id: 0x41, sub: 0x0D }),
        param_kind(74) == ParamKind::Unsigned(127u8),
        param_value(p, 74) == p.vocoder.band_levels[6]@ as u16,
        param_addr(75) == (ParamAddr { id: 0x41, sub: 0x0E }),
        param_kind(75) == ParamKind::Pan,
        param_value(p, 75) == (p.vocoder.band_pans[7]@ + 64) as u16,
        param_addr(76) == (ParamAddr { id: 0x41, sub: 0x0F }),
        param_kind(76) == ParamKind::Unsigned(127u8),
        param_value(p, 76) == p.vocoder.band_levels[7]@ as u16,
        param_addr(77) == (ParamAddr { id: 0x41, sub: 0x10 }),
        param_kind(77) == ParamKind::Pan,
        param_value(p, 77) == (p.vocoder.band_pans[8]@ + 64) as u16,
        param_addr(78) == (ParamAddr { id: 0x41, sub: 0x11 }),
        param_kind(78) == ParamKind::Unsigned(127u8),
        param_value(p, 78) == p.vocoder.band_levels[8]@ as u16,
        param_addr(79) == (ParamAddr { id: 0x41, sub: 0x12 }),
        param_kind(79) == ParamKind::Pan,
        param_value(p, 79) == (p.vocoder.band_pans[9]@ + 64) as u16,
        param_addr(80) == (ParamAddr { id: 0x41, sub: 0x13 }),
        param_kind(80) == ParamKind::Unsigned(127u8),
        param_value(p, 80) == p.vocoder.band_levels[9]@ as u16,
        param_addr(81) == (ParamAddr { id: 0x41, sub: 0x14 }),
        param_kind(81) == ParamKind::Pan,
        param_value(p, 81) == (p.vocoder.band_pans[10]@ + 64) as u16,
        param_addr(82) == (ParamAddr { id: 0x41, sub: 0x15 }),
        param_kind(82) == ParamKind::Unsigned(127u8),
        param_value(p, 82) == p.vocoder.band_levels[10]@ as u16,
        param_addr(83) == (ParamAddr { id: 0x41, sub: 0x16 }),
        param_kind(83) == ParamKind::Pan,
        param_value(p, 83) == (p.vocoder.band_pans[11]@ + 64) as u16,
        param_addr(84) == (ParamAddr { id: 0x41, sub: 0x17 }),
        param_kind(84) == ParamKind::Unsigned(127u8),
        param_value(p, 84) == p.vocoder.band_levels[11]@ as u16,
        param_addr(85) == (ParamAddr { id: 0x41, sub: 0x18 }),
        param_kind(85) == ParamKind::Pan,
        param_value(p, 85) == (p.vocoder.band_pans[12]@ + 64) as u16,
        param_addr(86) == (ParamAddr { id: 0x41, sub: 0x19 }),
        param_kind(86) == ParamKind::Unsigned(127u8),
        param_value(p, 86) == p.vocoder.band_levels[12]@ as u16,
        param_addr(87) == (ParamAddr { id: 0x41, sub: 0x1A }),
        param_kind(87) == ParamKind::Pan,
        param_value(p, 87) == (p.vocoder.band_pans[13]@ + 64) as u16,
        param_addr(88) == (ParamAddr { id: 0x41, sub: 0x1B }),
        param_kind(88) == ParamKind::Unsigned(127u8),
        param_value(p, 88) == p.vocoder.band_levels[13]@ as u16,
        param_addr(89) == (ParamAddr { id: 0x41, sub: 0x1C }),
        param_kind(89) == ParamKind::Pan,
        param_value(p, 89) == (p.vocoder.band_pans[14]@ + 64) as u16,
        param_addr(90) == (ParamAddr { id: 0x41, sub: 0x1D }),
        param_kind(90) == ParamKind::Unsigned(127u8),
        param_value(p, 90) == p.vocoder.band_levels[14]@ as u16,
        param_addr(91) == (ParamAddr { id: 0x41, sub: 0x1E }),
        param_kind(91) == ParamKind::Pan,
        param_value(p, 91) == (p.vocoder.band_pans[15]@ + 64) as u16,
        param_addr(92) == (ParamAddr { id: 0x41, sub: 0x1F }),
        param_kind(92) == ParamKind::Unsigned(127u8),
        param_value(p, 92) == p.vocoder.band_levels[15]@ as u16,
        param_addr(93) == (ParamAddr { id: 0x42, sub: 0x00 }),
        param_kind(93) == ParamKind::Choice(12u8),
        param_value(p, 93) == (p.vocoder.fc_mod_src as u8) as u16,
        param_addr(94) == (ParamAddr { id: 0x42, sub: 0x10 }),
        param_kind(94) == ParamKind::Signed(63u8),
        param_value(p, 94) == (p.vocoder.cutoff_offset@ + 64) as u16,
        param_addr(95) == (ParamAddr { id: 0x42, sub: 0x11 }),
        param_kind(95) == ParamKind::Unsigned(127u8),
        param_value(p, 95) == p.vocoder.resonance@ as u16,
{
}

/// Program parameters 96 to 127: the address each is sent to, its kind,
/// and the field of the program it carries.
#[verifier::spinoff_prover]
#[verifier::rlimit(60)]
pub proof fn lemma_param_table_3(p: Program)
    ensures
        param_addr(96) == (ParamAddr { id: 0x42, sub: 0x12 }),
        param_kind(96) == ParamKind::Signed(63u8),
        param_value(p, 96) == (p.vocoder.fc_mod_int@ + 64) as u16,
        param_addr(97) == (ParamAddr { id: 0x42, sub: 0x13 }),
        param_kind(97) == ParamKind::Unsigned(127u8),
        param_value(p, 97) == p.vocoder.ef_sens@ as u16,
        param_addr(98) == (ParamAddr { id: 0x10, sub: 0x00 }),
        param_kind(98) == ParamKind::Unsigned(55u8),
        param_value(p, 98) == p.timbre1.knob_assigns[0]@ as u16,
        param_addr(99) == (ParamAddr { id: 0x10, sub: 0x01 }),
        param_kind(99) == ParamKind::Unsigned(55u8),
        param_value(p, 99) == p.timbre1.knob_assigns[1]@ as u16,
        param_addr(100) == (ParamAddr { id: 0x10, sub: 0x02 }),
        param_kind(100) == ParamKind::Unsigned(55u8),
        param_value(p, 100) == p.timbre1.knob_assigns[2]@ as u16,
        param_addr(101) == (ParamAddr { id: 0x10, sub: 0x03 }),
        param_kind(101) == ParamKind::Unsigned(55u8),
        param_value(p, 101) == p.timbre1.knob_assigns[3]@ as u16,
        param_addr(102) == (ParamAddr { id: 0x10, sub: 0x08 }),
        param_kind(102) == ParamKind::Choice(4u8),
        param_value(p, 102) == (p.timbre1.unison_voice as u8) as u16,
        param_addr(103) == (ParamAddr { id: 0x10, sub: 0x09 }),
        param_kind(103) == ParamKind::Unsigned(99u8),
        param_value(p, 103) == p.timbre1.unison_detune@ as u16,
        param_addr(104) == (ParamAddr { id: 0x10, sub: 0x0A }),
        param_kind(104) == ParamKind::Unsigned(127u8),
        param_value(p, 104) == p.timbre1.unison_spread@ as u16,
        param_addr(105) == (ParamAddr { id: 0x10, sub: 0x0B }),
        param_kind(105) == ParamKind::Choice(3u8),
        param_value(p, 105) == (p.timbre1.voice_assign as u8) as u16,
        param_addr(106) == (ParamAddr { id: 0x10, sub: 0x13 }),
        param_kind(106) == ParamKind::Unsigned(127u8),
        param_value(p, 106) == p.timbre1.analog_tuning@ as u16,
        param_addr(107) == (ParamAddr { id: 0x10, sub: 0x14 }),
        param_kind(107) == ParamKind::Signed(48u8),
        param_value(p, 107) == (p.timbre1.transpose@ + 64) as u16,
        param_addr(108) == (ParamAddr { id: 0x10, sub: 0x15 }),
        param_kind(108) == ParamKind::Signed(50u8),
        param_value(p, 108) == (p.timbre1.detune@ + 64) as u16,
        param_addr(109) == (ParamAddr { id: 0x10, sub: 0x16 }),
        param_kind(109) == ParamKind::Signed(63u8),
        param_value(p, 109) == (p.timbre1.vibrato_int@ + 64) as u16,
        param_addr(110) == (ParamAddr { id: 0x10, sub: 0x10 }),
        param_kind(110) == ParamKind::Signed(12u8),
        param_value(p, 110) == (p.timbre1.bend_range@ + 64) as u16,
        param_addr(111) == (ParamAddr { id: 0x10, sub: 0x11 }),
        param_kind(111) == ParamKind::Unsigned(127u8),
        param_value(p, 111) == p.timbre1.portamento@ as u16,
        param_addr(112) == (ParamAddr { id: 0x10, sub: 0x17 }),
        param_kind(112) == ParamKind::Choice(9u8),
        param_value(p, 112) == (p.timbre1.osc1.wave as u8) as u16,
        param_addr(113) == (ParamAddr { id: 0x10, sub: 0x18 }),
        param_kind(113) == ParamKind::Choice(4u8),
        param_value(p, 113) == (p.timbre1.osc1.osc_mod as u8) as u16,
        param_addr(114) == (ParamAddr { id: 0x10, sub: 0x19 }),
        param_kind(114) == ParamKind::Unsigned(127u8),
        param_value(p, 114) == p.timbre1.osc1.ctrl1@ as u16,
        param_addr(115) == (ParamAddr { id: 0x10, sub: 0x1A }),
        param_kind(115) == ParamKind::Unsigned(127u8),
        param_value(p, 115) == p.timbre1.osc1.ctrl2@ as u16,
        param_addr(116) == (ParamAddr { id: 0x10, sub: 0x1B }),
        param_kind(116) == ParamKind::Unsigned(64u8),
        param_value(p, 116) == p.timbre1.osc1.dwgs@ as u16,
        param_addr(117) == (ParamAddr { id: 0x10, sub: 0x20 }),
        param_kind(117) == ParamKind::Choice(4u8),
        param_value(p, 117) == (p.timbre1.osc2.wave as u8) as u16,
        param_addr(118) == (ParamAddr { id: 0x10, sub: 0x21 }),
        param_kind(118) == ParamKind::Choice(4u8),
        param_value(p, 118) == (p.timbre1.osc2.osc_mod as u8) as u16,
        param_addr(119) == (ParamAddr { id: 0x10, sub: 0x22 }),
        param_kind(119) == ParamKind::Signed(24u8),
        param_value(p, 119) == (p.timbre1.osc2.semitone@ + 64) as u16,
        param_addr(120) == (ParamAddr { id: 0x10, sub: 0x23 }),
        param_kind(120) == ParamKind::Signed(50u8),
        param_value(p, 120) == (p.timbre1.osc2.tune@ + 64) as u16,
        param_addr(121) == (ParamAddr { id: 0x10, sub: 0x28 }),
        param_kind(121) == ParamKind::Unsigned(127u8),
        param_value(p, 121) == p.timbre1.mixer.osc1_level@ as u16,
        param_addr(122) == (ParamAddr { id: 0x10, sub: 0x29 }),
        param_kind(122) == ParamKind::Unsigned(127u8),
        param_value(p, 122) == p.timbre1.mixer.osc2_level@ as u16,
        param_addr(123) == (ParamAddr { id: 0x10, sub: 0x2A }),
        param_kind(123) == ParamKind::Unsigned(127u8),
        param_value(p, 123) == p.timbre1.mixer.noise_level@ as u16,
        param_addr(124) == (ParamAddr { id: 0x10, sub: 0x30 }),
        param_kind(124) == ParamKind::Choice(4u8),
        param_value(p, 124) == (p.timbre1.filter.routing as u8) as u16,
        param_addr(125) == (ParamAddr { id: 0x10, sub: 0x40 }),
        param_kind(125) == ParamKind::Choice(4u8),
        param_value(p, 125) == (p.timbre1.filter.filter2_type as u8) as u16,
        param_addr(126) == (ParamAddr { id: 0x10, sub: 0x31 }),
        param_kind(126) == ParamKind::Unsigned(127u8),
        param_value(p, 126) == p.timbre1.filter.balance@ as u16,
        param_addr(127) == (ParamAddr { id: 0x10, sub: 0x32 }),
        param_kind(127) == ParamKind::Unsigned(127u8),
        param_value(p, 127) == p.timbre1.filter.cutoff1@ as u16,
{
}

/// Program parameters 128 to 159: the address each is sent to, its kind,
/// and the field of the program it carries.
#[verifier::spinoff_prover]
#[verifier::rlimit(60)]
pub proof fn lemma_param_table_4(p: Program)
    ensures
        param_addr(128) == (ParamAddr { id: 0x10, sub: 0x33 }),
        param_kind(128) == ParamKind::Unsigned(127u8),
        param_value(p, 128) == p.timbre1.filter.resonance1@ as u16,
        param_addr(129) == (ParamAddr { id: 0x10, sub: 0x34 }),
        param_kind(129) == ParamKind::Signed(63u8),
        param_value(p, 129) == (p.timbre1.filter.eg1_int1@ + 64) as u16,
        param_addr(130) == (ParamAddr { id: 0x10, sub: 0x35 }),
        param_kind(130) == ParamKind::Signed(63u8),
        param_value(p, 130) == (p.timbre1.filter.key_track1@ + 64) as u16,
        param_addr(131) == (ParamAddr { id: 0x10, sub: 0x36 }),
        param_kind(131) == ParamKind::Signed(63u8),
        param_value(p, 131) == (p.timbre1.filter.velo_sens1@ + 64) as u16,
        param_addr(132) == (ParamAddr { id: 0x10, sub: 0x42 }),
        param_kind(132) == ParamKind::Unsigned(127u8),
        param_value(p, 132) == p.timbre1.filter.cutoff2@ as u16,
        param_addr(133) == (ParamAddr { id: 0x10, sub: 0x43 }),
        param_kind(133) == ParamKind::Unsigned(127u8),
        param_value(p, 133) == p.timbre1.filter.resonance2@ as u16,
        param_addr(134) == (ParamAddr { id: 0x10, sub: 0x44 }),
        param_kind(134) == ParamKind::Signed(63u8),
        param_value(p, 134) == (p.timbre1.filter.eg1_int2@ + 64) as u16,
        param_addr(135) == (ParamAddr { id: 0x10, sub: 0x45 }),
        param_kind(135) == ParamKind::Signed(63u8),
        param_value(p, 135) == (p.timbre1.filter.key_track2@ + 64) as u16,
        param_addr(136) == (ParamAddr { id: 0x10, sub: 0x46 }),
        param_kind(136) == ParamKind::Signed(63u8),
        param_value(p, 136) == (p.timbre1.filter.velo_sens2@ + 64) as u16,
        param_addr(137) == (ParamAddr { id: 0x10, sub: 0x50 }),
        param_kind(137) == ParamKind::Unsigned(127u8),
        param_value(p, 137) == p.timbre1.amp.level@ as u16,
        param_addr(138) == (ParamAddr { id: 0x10, sub: 0x52 }),
        param_kind(138) == ParamKind::Choice(2u8),
        param_value(p, 138) == (p.timbre1.amp.ws_position as u8) as u16,
        param_addr(139) == (ParamAddr { id: 0x10, sub: 0x51 }),
        param_kind(139) == ParamKind::Unsigned(12u8),
        param_value(p, 139) == p.timbre1.amp.ws_type@ as u16,
        param_addr(140) == (ParamAddr { id: 0x10, sub: 0x54 }),
        param_kind(140) == ParamKind::Unsigned(127u8),
        param_value(p, 140) == p.timbre1.amp.ws_depth@ as u16,
        param_addr(141) == (ParamAddr { id: 0x10, sub: 0x55 }),
        param_kind(141) == ParamKind::Pan,
        param_value(p, 141) == (p.timbre1.amp.pan@ + 64) as u16,
        param_addr(142) == (ParamAddr { id: 0x10, sub: 0x56 }),
        param_kind(142) == ParamKind::Signed(63u8),
        param_value(p, 142) == (p.timbre1.amp.key_track@ + 64) as u16,
        param_addr(143) == (ParamAddr { id: 0x10, sub: 0x57 }),
        param_kind(143) == ParamKind::Unsigned(127u8),
        param_value(p, 143) == p.timbre1.amp.punch_level@ as u16,
        param_addr(144) == (ParamAddr { id: 0x10, sub: 0x60 }),
        param_kind(144) == ParamKind::Unsigned(127u8),
        param_value(p, 144) == p.timbre1.eg[0].attack@ as u16,
        param_addr(145) == (ParamAddr { id: 0x10, sub: 0x61 }),
        param_kind(145) == ParamKind::Unsigned(127u8),
        param_value(p, 145) == p.timbre1.eg[0].decay@ as u16,
        param_addr(146) == (ParamAddr { id: 0x10, sub: 0x62 }),
        param_kind(146) == ParamKind::Unsigned(127u8),
        param_value(p, 146) == p.timbre1.eg[0].sustain@ as u16,
        param_addr(147) == (ParamAddr { id: 0x10, sub: 0x63 }),
        param_kind(147) == ParamKind::Unsigned(127u8),
        param_value(p, 147) == p.timbre1.eg[0].release@ as u16,
        param_addr(148) == (ParamAddr { id: 0x10, sub: 0x64 }),
        param_kind(148) == ParamKind::Signed(63u8),
        param_value(p, 148) == (p.timbre1.eg[0].level_velo@ + 64) as u16,
        param_addr(149) == (ParamAddr { id: 0x10, sub: 0x70 }),
        param_kind(149) == ParamKind::Unsigned(127u8),
        param_value(p, 149) == p.timbre1.eg[1].attack@ as u16,
        param_addr(150) == (ParamAddr { id: 0x10, sub: 0x71 }),
        param_kind(150) == ParamKind::Unsigned(127u8),
        param_value(p, 150) == p.timbre1.eg[1].decay@ as u16,
        param_addr(151) == (ParamAddr { id: 0x10, sub: 0x72 }),
        param_kind(151) == ParamKind::Unsigned(127u8),
        param_value(p, 151) == p.timbre1.eg[1].sustain@ as u16,
        param_addr(152) == (ParamAddr { id: 0x10, sub: 0x73 }),
        param_kind(152) == ParamKind::Unsigned(127u8),
        param_value(p, 152) == p.timbre1.eg[1].release@ as u16,
        param_addr(153) == (ParamAddr { id: 0x10, sub: 0x74 }),
        param_kind(153) == ParamKind::Signed(63u8),
        param_value(p, 153) == (p.timbre1.eg[1].level_velo@ + 64) as u16,
        param_addr(154) == (ParamAddr { id: 0x10, sub: 0x80 }),
        param_kind(154) == ParamKind::Unsigned(127u8),
        param_value(p, 154) == p.timbre1.eg[2].attack@ as u16,
        param_addr(155) == (ParamAddr { id: 0x10, sub: 0x81 }),
        param_kind(155) == ParamKind::Unsigned(127u8),
        param_value(p, 155) == p.timbre1.eg[2].decay@ as u16,
        param_addr(156) == (ParamAddr { id: 0x10, sub: 0x82 }),
        param_kind(156) == ParamKind::Unsigned(127u8),
        param_value(p, 156) == p.timbre1.eg[2].sustain@ as u16,
        param_addr(157) == (ParamAddr { id: 0x10, sub: 0x83 }),
        param_kind(157) == ParamKind::Unsigned(127u8),
        param_value(p, 157) == p.timbre1.eg[2].release@ as u16,
        param_addr(158) == (ParamAddr { id: 0x10, sub: 0x84 }),
        param_kind(158) == ParamKind::Signed(63u8),
        param_value(p, 158) == (p.timbre1.eg[2].level_velo@ + 64) as u16,
        param_addr(159) == (ParamAddr { id: 0x10, sub: 0x90 }),
        param_kind(159) == ParamKind::Byte,
        param_value(p, 159) == p.timbre1.lfo[0].wave as u16,
{
}

/// Program parameters 160 to 191: the address each is sent to, its kind,
/// and the field of the program it carries.
#[verifier::spinoff_prover]
#[verifier::rlimit(60)]
pub proof fn lemma_param_table_5(p: Program)
    ensures
        param_addr(160) == (ParamAddr { id: 0x10, sub: 0x92 }),
        param_kind(160) == ParamKind::Unsigned(127u8),
        param_value(p, 160) == p.timbre1.lfo[0].freq@ as u16,
        param_addr(161) == (ParamAddr { id: 0x10, sub: 0x93 }),
        param_kind(161) == ParamKind::Flag,
        param_value(p, 161) == if p.timbre1.lfo[0].bpm_sync { 1u16 } else { 0u16 },
        param_addr(162) == (ParamAddr { id: 0x10, sub: 0x94 }),
        param_kind(162) == ParamKind::Choice(3u8),
        param_value(p, 162) == (p.timbre1.lfo[0].key_sync as u8) as u16,
        param_addr(163) == (ParamAddr { id: 0x10, sub: 0x96 }),
        param_kind(163) == ParamKind::Unsigned(16u8),
        param_value(p, 163) == p.timbre1.lfo[0].sync_note@ as u16,
        param_addr(164) == (ParamAddr { id: 0x10, sub: 0xA0 }),
        param_kind(164) == ParamKind::Byte,
        param_value(p, 164) == p.timbre1.lfo[1].wave as u16,
        param_addr(165) == (ParamAddr { id: 0x10, sub: 0xA2 }),
        param_kind(165) == ParamKind::Unsigned(127u8),
        param_value(p, 165) == p.timbre1.lfo[1].freq@ as u16,
        param_addr(166) == (ParamAddr { id: 0x10, sub: 0xA3 }),
        param_kind(166) == ParamKind::Flag,
        param_value(p, 166) == if p.timbre1.lfo[1].bpm_sync { 1u16 } else { 0u16 },
        param_addr(167) == (ParamAddr { id: 0x10, sub: 0xA4 }),
        param_kind(167) == ParamKind::Choice(3u8),
        param_value(p, 167) == (p.timbre1.lfo[1].key_sync as u8) as u16,
        param_addr(168) == (ParamAddr { id: 0x10, sub: 0xA6 }),
        param_kind(168) == ParamKind::Unsigned(16u8),
        param_value(p, 168) == p.timbre1.lfo[1].sync_note@ as u16,
        param_addr(169) == (ParamAddr { id: 0x11, sub: 0x00 }),
        param_kind(169) == ParamKind::Choice(12u8),
        param_value(p, 169) == (p.timbre1.patches[0].src as u8) as u16,
        param_addr(170) == (ParamAddr { id: 0x11, sub: 0x01 }),
        param_kind(170) == ParamKind::Choice(15u8),
        param_value(p, 170) == (p.timbre1.patches[0].dst as u8) as u16,
        param_addr(171) == (ParamAddr { id: 0x11, sub: 0x02 }),
        param_kind(171) == ParamKind::Signed(63u8),
        param_value(p, 171) == (p.timbre1.patches[0].int@ + 64) as u16,
        param_addr(172) == (ParamAddr { id: 0x11, sub: 0x04 }),
        param_kind(172) == ParamKind::Choice(12u8),
        param_value(p, 172) == (p.timbre1.patches[1].src as u8) as u16,
        param_addr(173) == (ParamAddr { id: 0x11, sub: 0x05 }),
        param_kind(173) == ParamKind::Choice(15u8),
        param_value(p, 173) == (p.timbre1.patches[1].dst as u8) as u16,
        param_addr(174) == (ParamAddr { id: 0x11, sub: 0x06 }),
        param_kind(174) == ParamKind::Signed(63u8),
        param_value(p, 174) == (p.timbre1.patches[1].int@ + 64) as u16,
        param_addr(175) == (ParamAddr { id: 0x11, sub: 0x08 }),
        param_kind(175) == ParamKind::Choice(12u8),
        param_value(p, 175) == (p.timbre1.patches[2].src as u8) as u16,
        param_addr(176) == (ParamAddr { id: 0x11, sub: 0x09 }),
        param_kind(176) == ParamKind::Choice(15u8),
        param_value(p, 176) == (p.timbre1.patches[2].dst as u8) as u16,
        param_addr(177) == (ParamAddr { id: 0x11, sub: 0x0A }),
        param_kind(177) == ParamKind::Signed(63u8),
        param_value(p, 177) == (p.timbre1.patches[2].int@ + 64) as u16,
        param_addr(178) == (ParamAddr { id: 0x11, sub: 0x0C }),
        param_kind(178) == ParamKind::Choice(12u8),
        param_value(p, 178) == (p.timbre1.patches[3].src as u8) as u16,
        param_addr(179) == (ParamAddr { id: 0x11, sub: 0x0D }),
        param_kind(179) == ParamKind::Choice(15u8),
        param_value(p, 179) == (p.timbre1.patches[3].dst as u8) as u16,
        param_addr(180) == (ParamAddr { id: 0x11, sub: 0x0E }),
        param_kind(180) == ParamKind::Signed(63u8),
        param_value(p, 180) == (p.timbre1.patches[3].int@ + 64) as u16,
        param_addr(181) == (ParamAddr { id: 0x11, sub: 0x10 }),
        param_kind(181) == ParamKind::Choice(12u8),
        param_value(p, 181) == (p.timbre1.patches[4].src as u8) as u16,
        param_addr(182) == (ParamAddr { id: 0x11, sub: 0x11 }),
        param_kind(182) == ParamKind::Choice(15u8),
        param_value(p, 182) == (p.timbre1.patches[4].dst as u8) as u16,
        param_addr(183) == (ParamAddr { id: 0x11, sub: 0x12 }),
        param_kind(183) == ParamKind::Signed(63u8),
        param_value(p, 183) == (p.timbre1.patches[4].int@ + 64) as u16,
        param_addr(184) == (ParamAddr { id: 0x11, sub: 0x14 }),
        param_kind(184) == ParamKind::Choice(12u8),
        param_value(p, 184) == (p.timbre1.patches[5].src as u8) as u16,
        param_addr(185) == (ParamAddr { id: 0x11, sub: 0x15 }),
        param_kind(185) == ParamKind::Choice(15u8),
        param_value(p, 185) == (p.timbre1.patches[5].dst as u8) as u16,
        param_addr(186) == (ParamAddr { id: 0x11, sub: 0x16 }),
        param_kind(186) == ParamKind::Signed(63u8),
        param_value(p, 186) == (p.timbre1.patches[5].int@ + 64) as u16,
        param_addr(187) == (ParamAddr { id: 0x13, sub: 0x01 }),
        param_kind(187) == ParamKind::Choice(31u8),
        param_value(p, 187) == (p.timbre1.insert_fx.fx1_type as u8) as u16,
        param_addr(188) == (ParamAddr { id: 0x13, sub: 0x02 }),
        param_kind(188) == ParamKind::Masked(31u8),
        param_value(p, 188) == p.timbre1.insert_fx.fx1_knob as u16,
        param_addr(189) == (ParamAddr { id: 0x13, sub: 0x31 }),
        param_kind(189) == ParamKind::Choice(31u8),
        param_value(p, 189) == (p.timbre1.insert_fx.fx2_type as u8) as u16,
        param_addr(190) == (ParamAddr { id: 0x13, sub: 0x32 }),
        param_kind(190) == ParamKind::Masked(31u8),
        param_value(p, 190) == p.timbre1.insert_fx.fx2_knob as u16,
        param_addr(191) == (ParamAddr { id: 0x13, sub: 0x10 }),
        param_kind(191) == ParamKind::Unsigned(127u8),
        param_value(p, 191) == p.timbre1.insert_fx.fx1_params[0]@ as u16,
{
}

/// Program parameters 192 to 223: the address each is sent to, its kind,
/// and the field of the program it carries.
#[verifier::spinoff_prover]
#[verifier::rlimit(60)]
pub proof fn lemma_param_table_6(p: Program)
    ensures
        param_addr(192) == (ParamAddr { id: 0x13, sub: 0x40 }),
        param_kind(192) == ParamKind::Unsigned(127u8),
        param_value(p, 192) == p.timbre1.insert_fx.fx2_params[0]@ as u16,
        param_addr(193) == (ParamAddr { id: 0x13, sub: 0x11 }),
        param_kind(193) == ParamKind::Unsigned(127u8),
        param_value(p, 193) == p.timbre1.insert_fx.fx1_params[1]@ as u16,
        param_addr(194) == (ParamAddr { id: 0x13, sub: 0x41 }),
        param_kind(194) == ParamKind::Unsigned(127u8),
        param_value(p, 194) == p.timbre1.insert_fx.fx2_params[1]@ as u16,
        param_addr(195) == (ParamAddr { id: 0x13, sub: 0x12 }),
        param_kind(195) == ParamKind::Unsigned(127u8),
        param_value(p, 195) == p.timbre1.insert_fx.fx1_params[2]@ as u16,
        param_addr(196) == (ParamAddr { id: 0x13, sub: 0x42 }),
        param_kind(196) == ParamKind::Unsigned(127u8),
        param_value(p, 196) == p.timbre1.insert_fx.fx2_params[2]@ as u16,
        param_addr(197) == (ParamAddr { id: 0x13, sub: 0x13 }),
        param_kind(197) == ParamKind::Unsigned(127u8),
        param_value(p, 197) == p.timbre1.insert_fx.fx1_params[3]@ as u16,
        param_addr(198) == (ParamAddr { id: 0x13, sub: 0x43 }),
        param_kind(198) == ParamKind::Unsigned(127u8),
        param_value(p, 198) == p.timbre1.insert_fx.fx2_params[3]@ as u16,
        param_addr(199) == (ParamAddr { id: 0x13, sub: 0x14 }),
        param_kind(199) == ParamKind::Unsigned(127u8),
        param_value(p, 199) == p.timbre1.insert_fx.fx1_params[4]@ as u16,
        param_addr(200) == (ParamAddr { id: 0x13, sub: 0x44 }),
        param_kind(200) == ParamKind::Unsigned(127u8),
        param_value(p, 200) == p.timbre1.insert_fx.fx2_params[4]@ as u16,
        param_addr(201) == (ParamAddr { id: 0x13, sub: 0x15 }),
        param_kind(201) == ParamKind::Unsigned(127u8),
        param_value(p, 201) == p.timbre1.insert_fx.fx1_params[5]@ as u16,
        param_addr(202) == (ParamAddr { id: 0x13, sub: 0x45 }),
        param_kind(202) == ParamKind::Unsigned(127u8),
        param_value(p, 202) == p.timbre1.insert_fx.fx2_params[5]@ as u16,
        param_addr(203) == (ParamAddr { id: 0x13, sub: 0x16 }),
        param_kind(203) == ParamKind::Unsigned(127u8),
        param_value(p, 203) == p.timbre1.insert_fx.fx1_params[6]@ as u16,
        param_addr(204) == (ParamAddr { id: 0x13, sub: 0x46 }),
        param_kind(204) == ParamKind::Unsigned(127u8),
        param_value(p, 204) == p.timbre1.insert_fx.fx2_params[6]@ as u16,
        param_addr(205) == (ParamAddr { id: 0x13, sub: 0x17 }),
        param_kind(205) == ParamKind::Unsigned(127u8),
        param_value(p, 205) == p.timbre1.insert_fx.fx1_params[7]@ as u16,
        param_addr(206) == (ParamAddr { id: 0x13, sub: 0x47 }),
        param_kind(206) == ParamKind::Unsigned(127u8),
        param_value(p, 206) == p.timbre1.insert_fx.fx2_params[7]@ as u16,
        param_addr(207) == (ParamAddr { id: 0x13, sub: 0x18 }),
        param_kind(207) == ParamKind::Unsigned(127u8),
        param_value(p, 207) == p.timbre1.insert_fx.fx1_params[8]@ as u16,
        param_addr(208) == (ParamAddr { id: 0x13, sub: 0x48 }),
        param_kind(208) == ParamKind::Unsigned(127u8),
        param_value(p, 208) == p.timbre1.insert_fx.fx2_params[8]@ as u16,
        param_addr(209) == (ParamAddr { id: 0x13, sub: 0x19 }),
        param_kind(209) == ParamKind::Unsigned(127u8),
        param_value(p, 209) == p.timbre1.insert_fx.fx1_params[9]@ as u16,
        param_addr(210) == (ParamAddr { id: 0x13, sub: 0x49 }),
        param_kind(210) == ParamKind::Unsigned(127u8),
        param_value(p, 210) == p.timbre1.insert_fx.fx2_params[9]@ as u16,
        param_addr(211) == (ParamAddr { id: 0x13, sub: 0x1A }),
        param_kind(211) == ParamKind::Unsigned(127u8),
        param_value(p, 211) == p.timbre1.insert_fx.fx1_params[10]@ as u16,
        param_addr(212) == (ParamAddr { id: 0x13, sub: 0x4A }),
        param_kind(212) == ParamKind::Unsigned(127u8),
        param_value(p, 212) == p.timbre1.insert_fx.fx2_params[10]@ as u16,
        param_addr(213) == (ParamAddr { id: 0x13, sub: 0x1B }),
        param_kind(213) == ParamKind::Unsigned(127u8),
        param_value(p, 213) == p.timbre1.insert_fx.fx1_params[11]@ as u16,
        param_addr(214) == (ParamAddr { id: 0x13, sub: 0x4B }),
        param_kind(214) == ParamKind::Unsigned(127u8),
        param_value(p, 214) == p.timbre1.insert_fx.fx2_params[11]@ as u16,
        param_addr(215) == (ParamAddr { id: 0x13, sub: 0x1C }),
        param_kind(215) == ParamKind::Unsigned(127u8),
        param_value(p, 215) == p.timbre1.insert_fx.fx1_params[12]@ as u16,
        param_addr(216) == (ParamAddr { id: 0x13, sub: 0x4C }),
        param_kind(216) == ParamKind::Unsigned(127u8),
        param_value(p, 216) == p.timbre1.insert_fx.fx2_params[12]@ as u16,
        param_addr(217) == (ParamAddr { id: 0x13, sub: 0x1D }),
        param_kind(217) == ParamKind::Unsigned(127u8),
        param_value(p, 217) == p.timbre1.insert_fx.fx1_params[13]@ as u16,
        param_addr(218) == (ParamAddr { id: 0x13, sub: 0x4D }),
        param_kind(218) == ParamKind::Unsigned(127u8),
        param_value(p, 218) == p.timbre1.insert_fx.fx2_params[13]@ as u16,
        param_addr(219) == (ParamAddr { id: 0x13, sub: 0x1E }),
        param_kind(219) == ParamKind::Unsigned(127u8),
        param_value(p, 219) == p.timbre1.insert_fx.fx1_params[14]@ as u16,
        param_addr(220) == (ParamAddr { id: 0x13, sub: 0x4E }),
        param_kind(220) == ParamKind::Unsigned(127u8),
        param_value(p, 220) == p.timbre1.insert_fx.fx2_params[14]@ as u16,
        param_addr(221) == (ParamAddr { id: 0x13, sub: 0x1F }),
        param_kind(221) == ParamKind::Unsigned(127u8),
        param_value(p, 221) == p.timbre1.insert_fx.fx1_params[15]@ as u16,
        param_addr(222) == (ParamAddr { id: 0x13, sub: 0x4F }),
        param_kind(222) == ParamKind::Unsigned(127u8),
        param_value(p, 222) == p.timbre1.insert_fx.fx2_params[15]@ as u16,
        param_addr(223) == (ParamAddr { id: 0x13, sub: 0x20 }),
        param_kind(223) == ParamKind::Unsigned(127u8),
        param_value(p, 223) == p.timbre1.insert_fx.fx1_params[16]@ as u16,
{
}

/// Program parameters 224 to 255: the address each is sent to, its kind,
/// and the field of the program it carries.
#[verifier::spinoff_prover]
#[verifier::rlimit(60)]
pub proof fn lemma_param_table_7(p: Program)
    ensures
        param_addr(224) == (ParamAddr { id: 0x13, sub: 0x50 }),
        param_kind(224) == ParamKind::Unsigned(127u8),
        param_value(p, 224) == p.timbre1.insert_fx.fx2_params[16]@ as u16,
        param_addr(225) == (ParamAddr { id: 0x13, sub: 0x21 }),
        param_kind(225) == ParamKind::Unsigned(127u8),
        param_value(p, 225) == p.timbre1.insert_fx.fx1_params[17]@ as u16,
        param_addr(226) == (ParamAddr { id: 0x13, sub: 0x51 }),
        param_kind(226) == ParamKind::Unsigned(127u8),
        param_value(p, 226) == p.timbre1.insert_fx.fx2_params[17]@ as u16,
        param_addr(227) == (ParamAddr { id: 0x13, sub: 0x22 }),
        param_kind(227) == ParamKind::Unsigned(127u8),
        param_value(p, 227) == p.timbre1.insert_fx.fx1_params[18]@ as u16,
        param_addr(228) == (ParamAddr { id: 0x13, sub: 0x52 }),
        param_kind(228) == ParamKind::Unsigned(127u8),
        param_value(p, 228) == p.timbre1.insert_fx.fx2_params[18]@ as u16,
        param_addr(229) == (ParamAddr { id: 0x13, sub: 0x23 }),
        param_kind(229) == ParamKind::Unsigned(127u8),
        param_value(p, 229) == p.timbre1.insert_fx.fx1_params[19]@ as u16,
        param_addr(230) == (ParamAddr { id: 0x13, sub: 0x53 }),
        param_kind(230) == ParamKind::Unsigned(127u8),
        param_value(p, 230) == p.timbre1.insert_fx.fx2_params[19]@ as u16,
        param_addr(231) == (ParamAddr { id: 0x13, sub: 0x60 }),
        param_kind(231) == ParamKind::Byte,
        param_value(p, 231) == p.timbre1.insert_fx.eq_low_freq as u16,
        param_addr(232) == (ParamAddr { id: 0x13, sub: 0x61 }),
        param_kind(232) == ParamKind::Signed(30u8),
        param_value(p, 232) == (p.timbre1.insert_fx.eq_low_gain@ + 64) as u16,
        param_addr(233) == (ParamAddr { id: 0x13, sub: 0x62 }),
        param_kind(233) == ParamKind::Byte,
        param_value(p, 233) == p.timbre1.insert_fx.eq_hi_freq as u16,
        param_addr(234) == (ParamAddr { id: 0x13, sub: 0x63 }),
        param_kind(234) == ParamKind::Signed(30u8),
        param_value(p, 234) == (p.timbre1.insert_fx.eq_hi_gain@ + 64) as u16,
        param_addr(235) == (ParamAddr { id: 0x14, sub: 0x00 }),
        param_kind(235) == ParamKind::Flag,
        param_value(p, 235) == if p.timbre1.motion_seq.on { 1u16 } else { 0u16 },
        param_addr(236) == (ParamAddr { id: 0x14, sub: 0x01 }),
        param_kind(236) == ParamKind::Byte,
        param_value(p, 236) == p.timbre1.motion_seq.last_step as u16,
        param_addr(237) == (ParamAddr { id: 0x14, sub: 0x02 }),
        param_kind(237) == ParamKind::Unsigned(4u8),
        param_value(p, 237) == p.timbre1.motion_seq.seq_type@ as u16,
        param_addr(238) == (ParamAddr { id: 0x14, sub: 0x04 }),
        param_kind(238) == ParamKind::Choice(3u8),
        param_value(p, 238) == (p.timbre1.motion_seq.key_sync as u8) as u16,
        param_addr(239) == (ParamAddr { id: 0x14, sub: 0x05 }),
        param_kind(239) == ParamKind::Unsigned(15u8),
        param_value(p, 239) == p.timbre1.motion_seq.resolution@ as u16,
        param_addr(240) == (ParamAddr { id: 0x20, sub: 0x00 }),
        param_kind(240) == ParamKind::Unsigned(55u8),
        param_value(p, 240) == p.timbre2.knob_assigns[0]@ as u16,
        param_addr(241) == (ParamAddr { id: 0x20, sub: 0x01 }),
        param_kind(241) == ParamKind::Unsigned(55u8),
        param_value(p, 241) == p.timbre2.knob_assigns[1]@ as u16,
        param_addr(242) == (ParamAddr { id: 0x20, sub: 0x02 }),
        param_kind(242) == ParamKind::Unsigned(55u8),
        param_value(p, 242) == p.timbre2.knob_assigns[2]@ as u16,
        param_addr(243) == (ParamAddr { id: 0x20, sub: 0x03 }),
        param_kind(243) == ParamKind::Unsigned(55u8),
        param_value(p, 243) == p.timbre2.knob_assigns[3]@ as u16,
        param_addr(244) == (ParamAddr { id: 0x20, sub: 0x08 }),
        param_kind(244) == ParamKind::Choice(4u8),
        param_value(p, 244) == (p.timbre2.unison_voice as u8) as u16,
        param_addr(245) == (ParamAddr { id: 0x20, sub: 0x09 }),
        param_kind(245) == ParamKind::Unsigned(99u8),
        param_value(p, 245) == p.timbre2.unison_detune@ as u16,
        param_addr(246) == (ParamAddr { id: 0x20, sub: 0x0A }),
        param_kind(246) == ParamKind::Unsigned(127u8),
        param_value(p, 246) == p.timbre2.unison_spread@ as u16,
        param_addr(247) == (ParamAddr { id: 0x20, sub: 0x0B }),
        param_kind(247) == ParamKind::Choice(3u8),
        param_value(p, 247) == (p.timbre2.voice_assign as u8) as u16,
        param_addr(248) == (ParamAddr { id: 0x20, sub: 0x13 }),
        param_kind(248) == ParamKind::Unsigned(127u8),
        param_value(p, 248) == p.timbre2.analog_tuning@ as u16,
        param_addr(249) == (ParamAddr { id: 0x20, sub: 0x14 }),
        param_kind(249) == ParamKind::Signed(48u8),
        param_value(p, 249) == (p.timbre2.transpose@ + 64) as u16,
        param_addr(250) == (ParamAddr { id: 0x20, sub: 0x15 }),
        param_kind(250) == ParamKind::Signed(50u8),
        param_value(p, 250) == (p.timbre2.detune@ + 64) as u16,
        param_addr(251) == (ParamAddr { id: 0x20, sub: 0x16 }),
        param_kind(251) == ParamKind::Signed(63u8),
        param_value(p, 251) == (p.timbre2.vibrato_int@ + 64) as u16,
        param_addr(252) == (ParamAddr { id: 0x20, sub: 0x10 }),
        param_kind(252) == ParamKind::Signed(12u8),
        param_value(p, 252) == (p.timbre2.bend_range@ + 64) as u16,
        param_addr(253) == (ParamAddr { id: 0x20, sub: 0x11 }),
        param_kind(253) == ParamKind::Unsigned(127u8),
        param_value(p, 253) == p.timbre2.portamento@ as u16,
        param_addr(254) == (ParamAddr { id: 0x20, sub: 0x17 }),
        param_kind(254) == ParamKind::Choice(9u8),
        param_value(p, 254) == (p.timbre2.osc1.wave as u8) as u16,
        param_addr(255) == (ParamAddr { id: 0x20, sub: 0x18 }),
        param_kind(255) == ParamKind::Choice(4u8),
        param_value(p, 255) == (p.timbre2.osc1.osc_mod as u8) as u16,
{
}

/// Program parameters 256 to 287: the address each is sent to, its kind,
/// and the field of the program it carries.
#[verifier::spinoff_prover]
#[verifier::rlimit(60)]
pub proof fn lemma_param_table_8(p: Program)
    ensures
        param_addr(256) == (ParamAddr { id: 0x20, sub: 0x19 }),
        param_kind(256) == ParamKind::Unsigned(127u8),
        param_value(p, 256) == p.timbre2.osc1.ctrl1@ as u16,
        param_addr(257) == (ParamAddr { id: 0x20, sub: 0x1A }),
        param_kind(257) == ParamKind::Unsigned(127u8),
        param_value(p, 257) == p.timbre2.osc1.ctrl2@ as u16,
        param_addr(258) == (ParamAddr { id: 0x20, sub: 0x1B }),
        param_kind(258) == ParamKind::Unsigned(64u8),
        param_value(p, 258) == p.timbre2.osc1.dwgs@ as u16,
        param_addr(259) == (ParamAddr { id: 0x20, sub: 0x20 }),
        param_kind(259) == ParamKind::Choice(4u8),
        param_value(p, 259) == (p.timbre2.osc2.wave as u8) as u16,
        param_addr(260) == (ParamAddr { id: 0x20, sub: 0x21 }),
        param_kind(260) == ParamKind::Choice(4u8),
        param_value(p, 260) == (p.timbre2.osc2.osc_mod as u8) as u16,
        param_addr(261) == (ParamAddr { id: 0x20, sub: 0x22 }),
        param_kind(261) == ParamKind::Signed(24u8),
        param_value(p, 261) == (p.timbre2.osc2.semitone@ + 64) as u16,
        param_addr(262) == (ParamAddr { id: 0x20, sub: 0x23 }),
        param_kind(262) == ParamKind::Signed(50u8),
        param_value(p, 262) == (p.timbre2.osc2.tune@ + 64) as u16,
        param_addr(263) == (ParamAddr { id: 0x20, sub: 0x28 }),
        param_kind(263) == ParamKind::Unsigned(127u8),
        param_value(p, 263) == p.timbre2.mixer.osc1_level@ as u16,
        param_addr(264) == (ParamAddr { id: 0x20, sub: 0x29 }),
        param_kind(264) == ParamKind::Unsigned(127u8),
        param_value(p, 264) == p.timbre2.mixer.osc2_level@ as u16,
        param_addr(265) == (ParamAddr { id: 0x20, sub: 0x2A }),
        param_kind(265) == ParamKind::Unsigned(127u8),
        param_value(p, 265) == p.timbre2.mixer.noise_level@ as u16,
        param_addr(266) == (ParamAddr { id: 0x20, sub: 0x30 }),
        param_kind(266) == ParamKind::Choice(4u8),
        param_value(p, 266) == (p.timbre2.filter.routing as u8) as u16,
        param_addr(267) == (ParamAddr { id: 0x20, sub: 0x40 }),
        param_kind(267) == ParamKind::Choice(4u8),
        param_value(p, 267) == (p.timbre2.filter.filter2_type as u8) as u16,
        param_addr(268) == (ParamAddr { id: 0x20, sub: 0x31 }),
        param_kind(268) == ParamKind::Unsigned(127u8),
        param_value(p, 268) == p.timbre2.filter.balance@ as u16,
        param_addr(269) == (ParamAddr { id: 0x20, sub: 0x32 }),
        param_kind(269) == ParamKind::Unsigned(127u8),
        param_value(p, 269) == p.timbre2.filter.cutoff1@ as u16,
        param_addr(270) == (ParamAddr { id: 0x20, sub: 0x33 }),
        param_kind(270) == ParamKind::Unsigned(127u8),
        param_value(p, 270) == p.timbre2.filter.resonance1@ as u16,
        param_addr(271) == (ParamAddr { id: 0x20, sub: 0x34 }),
        param_kind(271) == ParamKind::Signed(63u8),
        param_value(p, 271) == (p.timbre2.filter.eg1_int1@ + 64) as u16,
        param_addr(272) == (ParamAddr { id: 0x20, sub: 0x35 }),
        param_kind(272) == ParamKind::Signed(63u8),
        param_value(p, 272) == (p.timbre2.filter.key_track1@ + 64) as u16,
        param_addr(273) == (ParamAddr { id: 0x20, sub: 0x36 }),
        param_kind(273) == ParamKind::Signed(63u8),
        param_value(p, 273) == (p.timbre2.filter.velo_sens1@ + 64) as u16,
        param_addr(274) == (ParamAddr { id: 0x20, sub: 0x42 }),
        param_kind(274) == ParamKind::Unsigned(127u8),
        param_value(p, 274) == p.timbre2.filter.cutoff2@ as u16,
        param_addr(275) == (ParamAddr { id: 0x20, sub: 0x43 }),
        param_kind(275) == ParamKind::Unsigned(127u8),
        param_value(p, 275) == p.timbre2.filter.resonance2@ as u16,
        param_addr(276) == (ParamAddr { id: 0x20, sub: 0x44 }),
        param_kind(276) == ParamKind::Signed(63u8),
        param_value(p, 276) == (p.timbre2.filter.eg1_int2@ + 64) as u16,
        param_addr(277) == (ParamAddr { id: 0x20, sub: 0x45 }),
        param_kind(277) == ParamKind::Signed(63u8),
        param_value(p, 277) == (p.timbre2.filter.key_track2@ + 64) as u16,
        param_addr(278) == (ParamAddr { id: 0x20, sub: 0x46 }),
        param_kind(278) == ParamKind::Signed(63u8),
        param_value(p, 278) == (p.timbre2.filter.velo_sens2@ + 64) as u16,
        param_addr(279) == (ParamAddr { id: 0x20, sub: 0x50 }),
        param_kind(279) == ParamKind::Unsigned(127u8),
        param_value(p, 279) == p.timbre2.amp.level@ as u16,
        param_addr(280) == (ParamAddr { id: 0x20, sub: 0x52 }),
        param_kind(280) == ParamKind::Choice(2u8),
        param_value(p, 280) == (p.timbre2.amp.ws_position as u8) as u16,
        param_addr(281) == (ParamAddr { id: 0x20, sub: 0x51 }),
        param_kind(281) == ParamKind::Unsigned(12u8),
        param_value(p, 281) == p.timbre2.amp.ws_type@ as u16,
        param_addr(282) == (ParamAddr { id: 0x20, sub: 0x54 }),
        param_kind(282) == ParamKind::Unsigned(127u8),
        param_value(p, 282) == p.timbre2.amp.ws_depth@ as u16,
        param_addr(283) == (ParamAddr { id: 0x20, sub: 0x55 }),
        param_kind(283) == ParamKind::Pan,
        param_value(p, 283) == (p.timbre2.amp.pan@ + 64) as u16,
        param_addr(284) == (ParamAddr { id: 0x20, sub: 0x56 }),
        param_kind(284) == ParamKind::Signed(63u8),
        param_value(p, 284) == (p.timbre2.amp.key_track@ + 64) as u16,
        param_addr(285) == (ParamAddr { id: 0x20, sub: 0x57 }),
        param_kind(285) == ParamKind::Unsigned(127u8),
        param_value(p, 285) == p.timbre2.amp.punch_level@ as u16,
        param_addr(286) == (ParamAddr { id: 0x20, sub: 0x60 }),
        param_kind(286) == ParamKind::Unsigned(127u8),
        param_value(p, 286) == p.timbre2.eg[0].attack@ as u16,
        param_addr(287) == (ParamAddr { id: 0x20, sub: 0x61 }),
        param_kind(287) == ParamKind::Unsigned(127u8),
        param_value(p, 287) == p.timbre2.eg[0].decay@ as u16,
{
}

/// Program parameters 288 to 319: the address each is sent to, its kind,
/// and the field of the program it carries.
#[verifier::spinoff_prover]
#[verifier::rlimit(60)]
pub proof fn lemma_param_table_9(p: Program)
    ensures
        param_addr(288) == (ParamAddr { id: 0x20, sub: 0x62 }),
        param_kind(288) == ParamKind::Unsigned(127u8),
        param_value(p, 288) == p.timbre2.eg[0].sustain@ as u16,
        param_addr(289) == (ParamAddr { id: 0x20, sub: 0x63 }),
        param_kind(289) == ParamKind::Unsigned(127u8),
        param_value(p, 289) == p.timbre2.eg[0].release@ as u16,
        param_addr(290) == (ParamAddr { id: 0x20, sub: 0x64 }),
        param_kind(290) == ParamKind::Signed(63u8),
        param_value(p, 290) == (p.timbre2.eg[0].level_velo@ + 64) as u16,
        param_addr(291) == (ParamAddr { id: 0x20, sub: 0x70 }),
        param_kind(291) == ParamKind::Unsigned(127u8),
        param_value(p, 291) == p.timbre2.eg[1].attack@ as u16,
        param_addr(292) == (ParamAddr { id: 0x20, sub: 0x71 }),
        param_kind(292) == ParamKind::Unsigned(127u8),
        param_value(p, 292) == p.timbre2.eg[1].decay@ as u16,
        param_addr(293) == (ParamAddr { id: 0x20, sub: 0x72 }),
        param_kind(293) == ParamKind::Unsigned(127u8),
        param_value(p, 293) == p.timbre2.eg[1].sustain@ as u16,
        param_addr(294) == (ParamAddr { id: 0x20, sub: 0x73 }),
        param_kind(294) == ParamKind::Unsigned(127u8),
        param_value(p, 294) == p.timbre2.eg[1].release@ as u16,
        param_addr(295) == (ParamAddr { id: 0x20, sub: 0x74 }),
        param_kind(295) == ParamKind::Signed(63u8),
        param_value(p, 295) == (p.timbre2.eg[1].level_velo@ + 64) as u16,
        param_addr(296) == (ParamAddr { id: 0x20, sub: 0x80 }),
        param_kind(296) == ParamKind::Unsigned(127u8),
        param_value(p, 296) == p.timbre2.eg[2].attack@ as u16,
        param_addr(297) == (ParamAddr { id: 0x20, sub: 0x81 }),
        param_kind(297) == ParamKind::Unsigned(127u8),
        param_value(p, 297) == p.timbre2.eg[2].decay@ as u16,
        param_addr(298) == (ParamAddr { id: 0x20, sub: 0x82 }),
        param_kind(298) == ParamKind::Unsigned(127u8),
        param_value(p, 298) == p.timbre2.eg[2].sustain@ as u16,
        param_addr(299) == (ParamAddr { id: 0x20, sub: 0x83 }),
        param_kind(299) == ParamKind::Unsigned(127u8),
        param_value(p, 299) == p.timbre2.eg[2].release@ as u16,
        param_addr(300) == (ParamAddr { id: 0x20, sub: 0x84 }),
        param_kind(300) == ParamKind::Signed(63u8),
        param_value(p, 300) == (p.timbre2.eg[2].level_velo@ + 64) as u16,
        param_addr(301) == (ParamAddr { id: 0x20, sub: 0x90 }),
        param_kind(301) == ParamKind::Byte,
        param_value(p, 301) == p.timbre2.lfo[0].wave as u16,
        param_addr(302) == (ParamAddr { id: 0x20, sub: 0x92 }),
        param_kind(302) == ParamKind::Unsigned(127u8),
        param_value(p, 302) == p.timbre2.lfo[0].freq@ as u16,
        param_addr(303) == (ParamAddr { id: 0x20, sub: 0x93 }),
        param_kind(303) == ParamKind::Flag,
        param_value(p, 303) == if p.timbre2.lfo[0].bpm_sync { 1u16 } else { 0u16 },
        param_addr(304) == (ParamAddr { id: 0x20, sub: 0x94 }),
        param_kind(304) == ParamKind::Choice(3u8),
        param_value(p, 304) == (p.timbre2.lfo[0].key_sync as u8) as u16,
        param_addr(305) == (ParamAddr { id: 0x20, sub: 0x96 }),
        param_kind(305) == ParamKind::Unsigned(16u8),
        param_value(p, 305) == p.timbre2.lfo[0].sync_note@ as u16,
        param_addr(306) == (ParamAddr { id: 0x20, sub: 0xA0 }),
        param_kind(306) == ParamKind::Byte,
        param_value(p, 306) == p.timbre2.lfo[1].wave as u16,
        param_addr(307) == (ParamAddr { id: 0x20, sub: 0xA2 }),
        param_kind(307) == ParamKind::Unsigned(127u8),
        param_value(p, 307) == p.timbre2.lfo[1].freq@ as u16,
        param_addr(308) == (ParamAddr { id: 0x20, sub: 0xA3 }),
        param_kind(308) == ParamKind::Flag,
        param_value(p, 308) == if p.timbre2.lfo[1].bpm_sync { 1u16 } else { 0u16 },
        param_addr(309) == (ParamAddr { id: 0x20, sub: 0xA4 }),
        param_kind(309) == ParamKind::Choice(3u8),
        param_value(p, 309) == (p.timbre2.lfo[1].key_sync as u8) as u16,
        param_addr(310) == (ParamAddr { id: 0x20, sub: 0xA6 }),
        param_kind(310) == ParamKind::Unsigned(16u8),
        param_value(p, 310) == p.timbre2.lfo[1].sync_note@ as u16,
        param_addr(311) == (ParamAddr { id: 0x21, sub: 0x00 }),
        param_kind(311) == ParamKind::Choice(12u8),
        param_value(p, 311) == (p.timbre2.patches[0].src as u8) as u16,
        param_addr(312) == (ParamAddr { id: 0x21, sub: 0x01 }),
        param_kind(312) == ParamKind::Choice(15u8),
        param_value(p, 312) == (p.timbre2.patches[0].dst as u8) as u16,
        param_addr(313) == (ParamAddr { id: 0x21, sub: 0x02 }),
        param_kind(313) == ParamKind::Signed(63u8),
        param_value(p, 313) == (p.timbre2.patches[0].int@ + 64) as u16,
        param_addr(314) == (ParamAddr { id: 0x21, sub: 0x04 }),
        param_kind(314) == ParamKind::Choice(12u8),
        param_value(p, 314) == (p.timbre2.patches[1].src as u8) as u16,
        param_addr(315) == (ParamAddr { id: 0x21, sub: 0x05 }),
        param_kind(315) == ParamKind::Choice(15u8),
        param_value(p, 315) == (p.timbre2.patches[1].dst as u8) as u16,
        param_addr(316) == (ParamAddr { id: 0x21, sub: 0x06 }),
        param_kind(316) == ParamKind::Signed(63u8),
        param_value(p, 316) == (p.timbre2.patches[1].int@ + 64) as u16,
        param_addr(317) == (ParamAddr { id: 0x21, sub: 0x08 }),
        param_kind(317) == ParamKind::Choice(12u8),
        param_value(p, 317) == (p.timbre2.patches[2].src as u8) as u16,
        param_addr(318) == (ParamAddr { id: 0x21, sub: 0x09 }),
        param_kind(318) == ParamKind::Choice(15u8),
        param_value(p, 318) == (p.timbre2.patches[2].dst as u8) as u16,
        param_addr(319) == (ParamAddr { id: 0x21, sub: 0x0A }),
        param_kind(319) == ParamKind::Signed(63u8),
        param_value(p, 319) == (p.timbre2.patches[2].int@ + 64) as u16,
{
}

/// Program parameters 320 to 351: the address each is sent to, its kind,
/// and the field of the program it carries.
#[verifier::spinoff_prover]
#[verifier::rlimit(60)]
pub proof fn lemma_param_table_10(p: Program)
    ensures
        param_addr(320) == (ParamAddr { id: 0x21, sub: 0x0C }),
        param_kind(320) == ParamKind::Choice(12u8),
        param_value(p, 320) == (p.timbre2.patches[3].src as u8) as u16,
        param_addr(321) == (ParamAddr { id: 0x21, sub: 0x0D }),
        param_kind(321) == ParamKind::Choice(15u8),
        param_value(p, 321) == (p.timbre2.patches[3].dst as u8) as u16,
        param_addr(322) == (ParamAddr { id: 0x21, sub: 0x0E }),
        param_kind(322) == ParamKind::Signed(63u8),
        param_value(p, 322) == (p.timbre2.patches[3].int@ + 64) as u16,
        param_addr(323) == (ParamAddr { id: 0x21, sub: 0x10 }),
        param_kind(323) == ParamKind::Choice(12u8),
        param_value(p, 323) == (p.timbre2.patches[4].src as u8) as u16,
        param_addr(324) == (ParamAddr { id: 0x21, sub: 0x11 }),
        param_kind(324) == ParamKind::Choice(15u8),
        param_value(p, 324) == (p.timbre2.patches[4].dst as u8) as u16,
        param_addr(325) == (ParamAddr { id: 0x21, sub: 0x12 }),
        param_kind(325) == ParamKind::Signed(63u8),
        param_value(p, 325) == (p.timbre2.patches[4].int@ + 64) as u16,
        param_addr(326) == (ParamAddr { id: 0x21, sub: 0x14 }),
        param_kind(326) == ParamKind::Choice(12u8),
        param_value(p, 326) == (p.timbre2.patches[5].src as u8) as u16,
        param_addr(327) == (ParamAddr { id: 0x21, sub: 0x15 }),
        param_kind(327) == ParamKind::Choice(15u8),
        param_value(p, 327) == (p.timbre2.patches[5].dst as u8) as u16,
        param_addr(328) == (ParamAddr { id: 0x21, sub: 0x16 }),
        param_kind(328) == ParamKind::Signed(63u8),
        param_value(p, 328) == (p.timbre2.patches[5].int@ + 64) as u16,
        param_addr(329) == (ParamAddr { id: 0x23, sub: 0x01 }),
        param_kind(329) == ParamKind::Choice(31u8),
        param_value(p, 329) == (p.timbre2.insert_fx.fx1_type as u8) as u16,
        param_addr(330) == (ParamAddr { id: 0x23, sub: 0x02 }),
        param_kind(330) == ParamKind::Masked(31u8),
        param_value(p, 330) == p.timbre2.insert_fx.fx1_knob as u16,
        param_addr(331) == (ParamAddr { id: 0x23, sub: 0x31 }),
        param_kind(331) == ParamKind::Choice(31u8),
        param_value(p, 331) == (p.timbre2.insert_fx.fx2_type as u8) as u16,
        param_addr(332) == (ParamAddr { id: 0x23, sub: 0x32 }),
        param_kind(332) == ParamKind::Masked(31u8),
        param_value(p, 332) == p.timbre2.insert_fx.fx2_knob as u16,
        param_addr(333) == (ParamAddr { id: 0x23, sub: 0x10 }),
        param_kind(333) == ParamKind::Unsigned(127u8),
        param_value(p, 333) == p.timbre2.insert_fx.fx1_params[0]@ as u16,
        param_addr(334) == (ParamAddr { id: 0x23, sub: 0x40 }),
        param_kind(334) == ParamKind::Unsigned(127u8),
        param_value(p, 334) == p.timbre2.insert_fx.fx2_params[0]@ as u16,
        param_addr(335) == (ParamAddr { id: 0x23, sub: 0x11 }),
        param_kind(335) == ParamKind::Unsigned(127u8),
        param_value(p, 335) == p.timbre2.insert_fx.fx1_params[1]@ as u16,
        param_addr(336) == (ParamAddr { id: 0x23, sub: 0x41 }),
        param_kind(336) == ParamKind::Unsigned(127u8),
        param_value(p, 336) == p.timbre2.insert_fx.fx2_params[1]@ as u16,
        param_addr(337) == (ParamAddr { id: 0x23, sub: 0x12 }),
        param_kind(337) == ParamKind::Unsigned(127u8),
        param_value(p, 337) == p.timbre2.insert_fx.fx1_params[2]@ as u16,
        param_addr(338) == (ParamAddr { id: 0x23, sub: 0x42 }),
        param_kind(338) == ParamKind::Unsigned(127u8),
        param_value(p, 338) == p.timbre2.insert_fx.fx2_params[2]@ as u16,
        param_addr(339) == (ParamAddr { id: 0x23, sub: 0x13 }),
        param_kind(339) == ParamKind::Unsigned(127u8),
        param_value(p, 339) == p.timbre2.insert_fx.fx1_params[3]@ as u16,
        param_addr(340) == (ParamAddr { id: 0x23, sub: 0x43 }),
        param_kind(340) == ParamKind::Unsigned(127u8),
        param_value(p, 340) == p.timbre2.insert_fx.fx2_params[3]@ as u16,
        param_addr(341) == (ParamAddr { id: 0x23, sub: 0x14 }),
        param_kind(341) == ParamKind::Unsigned(127u8),
        param_value(p, 341) == p.timbre2.insert_fx.fx1_params[4]@ as u16,
        param_addr(342) == (ParamAddr { id: 0x23, sub: 0x44 }),
        param_kind(342) == ParamKind::Unsigned(127u8),
        param_value(p, 342) == p.timbre2.insert_fx.fx2_params[4]@ as u16,
        param_addr(343) == (ParamAddr { id: 0x23, sub: 0x15 }),
        param_kind(343) == ParamKind::Unsigned(127u8),
        param_value(p, 343) == p.timbre2.insert_fx.fx1_params[5]@ as u16,
        param_addr(344) == (ParamAddr { id: 0x23, sub: 0x45 }),
        param_kind(344) == ParamKind::Unsigned(127u8),
        param_value(p, 344) == p.timbre2.insert_fx.fx2_params[5]@ as u16,
        param_addr(345) == (ParamAddr { id: 0x23, sub: 0x16 }),
        param_kind(345) == ParamKind::Unsigned(127u8),
        param_value(p, 345) == p.timbre2.insert_fx.fx1_params[6]@ as u16,
        param_addr(346) == (ParamAddr { id: 0x23, sub: 0x46 }),
        param_kind(346) == ParamKind::Unsigned(127u8),
        param_value(p, 346) == p.timbre2.insert_fx.fx2_params[6]@ as u16,
        param_addr(347) == (ParamAddr { id: 0x23, sub: 0x17 }),
        param_kind(347) == ParamKind::Unsigned(127u8),
        param_value(p, 347) == p.timbre2.insert_fx.fx1_params[7]@ as u16,
        param_addr(348) == (ParamAddr { id: 0x23, sub: 0x47 }),
        param_kind(348) == ParamKind::Unsigned(127u8),
        param_value(p, 348) == p.timbre2.insert_fx.fx2_params[7]@ as u16,
        param_addr(349) == (ParamAddr { id: 0x23, sub: 0x18 }),
        param_kind(349) == ParamKind::Unsigned(127u8),
        param_value(p, 349) == p.timbre2.insert_fx.fx1_params[8]@ as u16,
        param_addr(350) == (ParamAddr { id: 0x23, sub: 0x48 }),
        param_kind(350) == ParamKind::Unsigned(127u8),
        param_value(p, 350) == p.timbre2.insert_fx.fx2_params[8]@ as u16,
        param_addr(351) == (ParamAddr { id: 0x23, sub: 0x19 }),
        param_kind(351) == ParamKind::Unsigned(127u8),
        param_value(p, 351) == p.timbre2.insert_fx.fx1_params[9]@ as u16,
{
}

/// Program parameters 352 to 381: the address each is sent to, its kind,
/// and the field of the program it carries.
#[verifier::spinoff_prover]
#[verifier::rlimit(60)]
pub proof fn lemma_param_table_11(p: Program)
    ensures
        param_addr(352) == (ParamAddr { id: 0x23, sub: 0x49 }),
        param_kind(352) == ParamKind::Unsigned(127u8),
        param_value(p, 352) == p.timbre2.insert_fx.fx2_params[9]@ as u16,
        param_addr(353) == (ParamAddr { id: 0x23, sub: 0x1A }),
        param_kind(353) == ParamKind::Unsigned(127u8),
        param_value(p, 353) == p.timbre2.insert_fx.fx1_params[10]@ as u16,
        param_addr(354) == (ParamAddr { id: 0x23, sub: 0x4A }),
        param_kind(354) == ParamKind::Unsigned(127u8),
        param_value(p, 354) == p.timbre2.insert_fx.fx2_params[10]@ as u16,
        param_addr(355) == (ParamAddr { id: 0x23, sub: 0x1B }),
        param_kind(355) == ParamKind::Unsigned(127u8),
        param_value(p, 355) == p.timbre2.insert_fx.fx1_params[11]@ as u16,
        param_addr(356) == (ParamAddr { id: 0x23, sub: 0x4B }),
        param_kind(356) == ParamKind::Unsigned(127u8),
        param_value(p, 356) == p.timbre2.insert_fx.fx2_params[11]@ as u16,
        param_addr(357) == (ParamAddr { id: 0x23, sub: 0x1C }),
        param_kind(357) == ParamKind::Unsigned(127u8),
        param_value(p, 357) == p.timbre2.insert_fx.fx1_params[12]@ as u16,
        param_addr(358) == (ParamAddr { id: 0x23, sub: 0x4C }),
        param_kind(358) == ParamKind::Unsigned(127u8),
        param_value(p, 358) == p.timbre2.insert_fx.fx2_params[12]@ as u16,
        param_addr(359) == (ParamAddr { id: 0x23, sub: 0x1D }),
        param_kind(359) == ParamKind::Unsigned(127u8),
        param_value(p, 359) == p.timbre2.insert_fx.fx1_params[13]@ as u16,
        param_addr(360) == (ParamAddr { id: 0x23, sub: 0x4D }),
        param_kind(360) == ParamKind::Unsigned(127u8),
        param_value(p, 360) == p.timbre2.insert_fx.fx2_params[13]@ as u16,
        param_addr(361) == (ParamAddr { id: 0x23, sub: 0x1E }),
        param_kind(361) == ParamKind::Unsigned(127u8),
        param_value(p, 361) == p.timbre2.insert_fx.fx1_params[14]@ as u16,
        param_addr(362) == (ParamAddr { id: 0x23, sub: 0x4E }),
        param_kind(362) == ParamKind::Unsigned(127u8),
        param_value(p, 362) == p.timbre2.insert_fx.fx2_params[14]@ as u16,
        param_addr(363) == (ParamAddr { id: 0x23, sub: 0x1F }),
        param_kind(363) == ParamKind::Unsigned(127u8),
        param_value(p, 363) == p.timbre2.insert_fx.fx1_params[15]@ as u16,
        param_addr(364) == (ParamAddr { id: 0x23, sub: 0x4F }),
        param_kind(364) == ParamKind::Unsigned(127u8),
        param_value(p, 364) == p.timbre2.insert_fx.fx2_params[15]@ as u16,
        param_addr(365) == (ParamAddr { id: 0x23, sub: 0x20 }),
        param_kind(365) == ParamKind::Unsigned(127u8),
        param_value(p, 365) == p.timbre2.insert_fx.fx1_params[16]@ as u16,
        param_addr(366) == (ParamAddr { id: 0x23, sub: 0x50 }),
        param_kind(366) == ParamKind::Unsigned(127u8),
        param_value(p, 366) == p.timbre2.insert_fx.fx2_params[16]@ as u16,
        param_addr(367) == (ParamAddr { id: 0x23, sub: 0x21 }),
        param_kind(367) == ParamKind::Unsigned(127u8),
        param_value(p, 367) == p.timbre2.insert_fx.fx1_params[17]@ as u16,
        param_addr(368) == (ParamAddr { id: 0x23, sub: 0x51 }),
        param_kind(368) == ParamKind::Unsigned(127u8),
        param_value(p, 368) == p.timbre2.insert_fx.fx2_params[17]@ as u16,
        param_addr(369) == (ParamAddr { id: 0x23, sub: 0x22 }),
        param_kind(369) == ParamKind::Unsigned(127u8),
        param_value(p, 369) == p.timbre2.insert_fx.fx1_params[18]@ as u16,
        param_addr(370) == (ParamAddr { id: 0x23, sub: 0x52 }),
        param_kind(370) == ParamKind::Unsigned(127u8),
        param_value(p, 370) == p.timbre2.insert_fx.fx2_params[18]@ as u16,
        param_addr(371) == (ParamAddr { id: 0x23, sub: 0x23 }),
        param_kind(371) == ParamKind::Unsigned(127u8),
        param_value(p, 371) == p.timbre2.insert_fx.fx1_params[19]@ as u16,
        param_addr(372) == (ParamAddr { id: 0x23, sub: 0x53 }),
        param_kind(372) == ParamKind::Unsigned(127u8),
        param_value(p, 372) == p.timbre2.insert_fx.fx2_params[19]@ as u16,
        param_addr(373) == (ParamAddr { id: 0x23, sub: 0x60 }),
        param_kind(373) == ParamKind::Byte,
        param_value(p, 373) == p.timbre2.insert_fx.eq_low_freq as u16,
        param_addr(374) == (ParamAddr { id: 0x23, sub: 0x61 }),
        param_kind(374) == ParamKind::Signed(30u8),
        param_value(p, 374) == (p.timbre2.insert_fx.eq_low_gain@ + 64) as u16,
        param_addr(375) == (ParamAddr { id: 0x23, sub: 0x62 }),
        param_kind(375) == ParamKind::Byte,
        param_value(p, 375) == p.timbre2.insert_fx.eq_hi_freq as u16,
        param_addr(376) == (ParamAddr { id: 0x23, sub: 0x63 }),
        param_kind(376) == ParamKind::Signed(30u8),
        param_value(p, 376) == (p.timbre2.insert_fx.eq_hi_gain@ + 64) as u16,
        param_addr(377) == (ParamAddr { id: 0x24, sub: 0x00 }),
        param_kind(377) == ParamKind::Flag,
        param_value(p, 377) == if p.timbre2.motion_seq.on { 1u16 } else { 0u16 },
        param_addr(378) == (ParamAddr { id: 0x24, sub: 0x01 }),
        param_kind(378) == ParamKind::Byte,
        param_value(p, 378) == p.timbre2.motion_seq.last_step as u16,
        param_addr(379) == (ParamAddr { id: 0x24, sub: 0x02 }),
        param_kind(379) == ParamKind::Unsigned(4u8),
        param_value(p, 379) == p.timbre2.motion_seq.seq_type@ as u16,
        param_addr(380) == (ParamAddr { id: 0x24, sub: 0x04 }),
        param_kind(380) == ParamKind::Choice(3u8),
        param_value(p, 380) == (p.timbre2.motion_seq.key_sync as u8) as u16,
        param_addr(381) == (ParamAddr { id: 0x24, sub: 0x05 }),
        param_kind(381) == ParamKind::Unsigned(15u8),
        param_value(p, 381) == p.timbre2.motion_seq.resolution@ as u16,
{
}

} // verus!
