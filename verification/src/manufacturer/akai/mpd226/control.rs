//! The controls of an MPD226 preset: pads, dials, faders and switches, and
//! the preset settings.

use vstd::prelude::*;

pub mod value_kind;

use crate::manufacturer::akai::mpd226::control::value_kind::ActiveState;
use crate::manufacturer::akai::mpd226::control::value_kind::AfterTouchKind;
use crate::manufacturer::akai::mpd226::control::value_kind::DialKind;
use crate::manufacturer::akai::mpd226::control::value_kind::FaderKind;
use crate::manufacturer::akai::mpd226::control::value_kind::Gate;
use crate::manufacturer::akai::mpd226::control::value_kind::KeyModifier;
use crate::manufacturer::akai::mpd226::control::value_kind::MidiChannel;
use crate::manufacturer::akai::mpd226::control::value_kind::PadColor;
use crate::manufacturer::akai::mpd226::control::value_kind::PadKind;
use crate::manufacturer::akai::mpd226::control::value_kind::PresetName;
use crate::manufacturer::akai::mpd226::control::value_kind::PresetSlot;
use crate::manufacturer::akai::mpd226::control::value_kind::SwingKind;
use crate::manufacturer::akai::mpd226::control::value_kind::SwitchKind;
use crate::manufacturer::akai::mpd226::control::value_kind::Tempo;
use crate::manufacturer::akai::mpd226::control::value_kind::lemma_tempo_round_trip;
use crate::manufacturer::akai::mpd226::control::value_kind::TimeDivision;
use crate::manufacturer::akai::mpd226::control::value_kind::TransportKind;
use crate::manufacturer::akai::mpd226::control::value_kind::TriggerKind;
use crate::manufacturer::akai::mpd226::error::DialParseError;
use crate::manufacturer::akai::mpd226::error::FaderParseError;
use crate::manufacturer::akai::mpd226::error::PadParseError;
use crate::manufacturer::akai::mpd226::error::PresetSettingsParseError;
use crate::manufacturer::akai::mpd226::error::SwitchParseError;
use crate::manufacturer::akai::mpd226::raw::RawDial;
use crate::manufacturer::akai::mpd226::raw::RawFader;
use crate::manufacturer::akai::mpd226::raw::RawPad;
use crate::manufacturer::akai::mpd226::raw::RawPresetSettings;
use crate::manufacturer::akai::mpd226::raw::RawSwitch;
use crate::midi::MidiValue;
use crate::midi::Note;
use crate::midi::lemma_note_of_number;
use crate::midi::lemma_number_of_note;
use crate::midi::note_of;
use crate::music::theory::clamp_int;
use crate::sysex::packed_u14;
use crate::sysex::unpacked_u14;

verus! {

/// A pad and what it sends.
#[derive(Clone, Copy, Debug, PartialEq)]
pub struct Pad {
    pub id: usize,
    pub kind: PadKind,
    pub channel: MidiChannel,
    pub note: Note,
    pub midi2din: ActiveState,
    pub trigger: TriggerKind,
    pub aftertouch: AfterTouchKind,
    pub program: MidiValue,
    pub msb: MidiValue,
    pub lsb: MidiValue,
    pub off_color: PadColor,
    pub on_color: PadColor,
}

/// The stored bytes of a pad.
pub open spec fn pad_bytes(p: Pad) -> Seq<u8> {
    seq![
        p.kind.code(),
        p.channel.code(),
        p.note as u8,
        p.midi2din.code(),
        p.trigger.code(),
        p.aftertouch.code(),
        p.program,
        p.msb,
        p.lsb,
        p.off_color.code(),
        p.on_color.code(),
    ]
}

/// The pad with number `id` and the settings of a new pad: notes on the
/// common channel, note 0, momentary, channel aftertouch, unlit.
pub open spec fn fresh_pad(id: usize) -> Pad {
    Pad {
        id,
        kind: PadKind::Note,
        channel: MidiChannel::COMMON,
        note: Note::N0,
        midi2din: ActiveState::Off,
        trigger: TriggerKind::Momentary,
        aftertouch: AfterTouchKind::Channel,
        program: 0,
        msb: 0,
        lsb: 0,
        off_color: PadColor::Off,
        on_color: PadColor::Off,
    }
}

impl Default for Pad {
    fn default() -> (res: Self)
        ensures
            res == fresh_pad(0),
    {
        Pad::new(0)
    }
}

/// What a stored pad reads as, as pad `index`, or the first field that
/// names no known value.
pub open spec fn pad_decoded(index: usize, r: RawPad) -> Result<Pad, PadParseError> {
    match (
        PadKind::of_code(r.kind),
        MidiChannel::of_code(r.channel),
        ActiveState::of_code(r.midi2din),
        TriggerKind::of_code(r.trigger),
        AfterTouchKind::of_code(r.aftertouch),
        PadColor::of_code(r.off_color),
        PadColor::of_code(r.on_color),
    ) {
        (None, _, _, _, _, _, _) => Err(PadParseError::Kind(r.kind)),
        (_, None, _, _, _, _, _) => Err(PadParseError::Channel(r.channel)),
        (_, _, _, _, _, _, _) if r.note > 127 => Err(PadParseError::Note(r.note)),
        (_, _, None, _, _, _, _) => Err(PadParseError::Midi2Din(r.midi2din)),
        (_, _, _, None, _, _, _) => Err(PadParseError::Trigger(r.trigger)),
        (_, _, _, _, None, _, _) => Err(PadParseError::Aftertouch(r.aftertouch)),
        (_, _, _, _, _, None, _) => Err(PadParseError::OffColor(r.off_color)),
        (_, _, _, _, _, _, None) => Err(PadParseError::OnColor(r.on_color)),
        (
            Some(kind),
            Some(channel),
            Some(midi2din),
            Some(trigger),
            Some(aftertouch),
            Some(off_color),
            Some(on_color),
        ) => Ok(
            Pad {
                id: index,
                kind,
                channel,
                note: note_of(r.note),
                midi2din,
                trigger,
                aftertouch,
                program: r.program,
                msb: r.msb,
                lsb: r.lsb,
                off_color,
                on_color,
            },
        ),
    }
}

impl Pad {
    /// Pad `id` with the settings of a new pad.
    pub fn new(id: usize) -> (res: Self)
        ensures
            res == fresh_pad(id),
    {
        Pad {
            id,
            kind: PadKind::Note,
            channel: MidiChannel::COMMON,
            note: Note::N0,
            midi2din: ActiveState::Off,
            trigger: TriggerKind::Momentary,
            aftertouch: AfterTouchKind::Channel,
            program: 0,
            msb: 0,
            lsb: 0,
            off_color: PadColor::Off,
            on_color: PadColor::Off,
        }
    }

    /// The bytes that store the pad in a preset.
    pub fn sysex_payload(&self) -> (res: Vec<u8>)
        ensures
            res@ == pad_bytes(*self),
    {
        self.as_bytes()
    }

    /// The bytes that store the pad in a preset.
    pub fn as_bytes(&self) -> (res: Vec<u8>)
        ensures
            res@ == pad_bytes(*self),
    {
        let res = vec![
            self.kind.as_u8(),
            self.channel.as_u8(),
            self.note.as_u8(),
            self.midi2din.as_u8(),
            self.trigger.as_u8(),
            self.aftertouch.as_u8(),
            self.program,
            self.msb,
            self.lsb,
            self.off_color.as_u8(),
            self.on_color.as_u8(),
        ];
        assert(res@ =~= pad_bytes(*self));
        res
    }

    /// Reads a stored pad as pad `index`.
    pub fn from_raw(index: usize, raw: RawPad) -> (res: Result<Self, PadParseError>)
        ensures
            res == pad_decoded(index, raw),
    {
        let kind = match PadKind::from_code(raw.kind) {
            Some(v) => v,
            None => {
                return Err(PadParseError::Kind(raw.kind));
            },
        };
        let channel = match MidiChannel::from_code(raw.channel) {
            Some(v) => v,
            None => {
                return Err(PadParseError::Channel(raw.channel));
            },
        };
        let note = match Note::try_from_u8(raw.note) {
            Some(v) => v,
            None => {
                return Err(PadParseError::Note(raw.note));
            },
        };
        let midi2din = match ActiveState::from_code(raw.midi2din) {
            Some(v) => v,
            None => {
                return Err(PadParseError::Midi2Din(raw.midi2din));
            },
        };
        let trigger = match TriggerKind::from_code(raw.trigger) {
            Some(v) => v,
            None => {
                return Err(PadParseError::Trigger(raw.trigger));
            },
        };
        let aftertouch = match AfterTouchKind::from_code(raw.aftertouch) {
            Some(v) => v,
            None => {
                return Err(PadParseError::Aftertouch(raw.aftertouch));
            },
        };
        let off_color = match PadColor::from_code(raw.off_color) {
            Some(v) => v,
            None => {
                return Err(PadParseError::OffColor(raw.off_color));
            },
        };
        let on_color = match PadColor::from_code(raw.on_color) {
            Some(v) => v,
            None => {
                return Err(PadParseError::OnColor(raw.on_color));
            },
        };
        Ok(
            Pad {
                id: index,
                kind,
                channel,
                note,
                midi2din,
                trigger,
                aftertouch,
                program: raw.program,
                msb: raw.msb,
                lsb: raw.lsb,
                off_color,
                on_color,
            },
        )
    }
}

/// Reading a stored pad and storing it again gives back the same bytes.
pub proof fn lemma_pad_decode_encode(index: usize, r: RawPad)
    ensures
        pad_decoded(index, r) matches Ok(p) ==> pad_bytes(p) == r.bytes(),
{
    if let Ok(p) = pad_decoded(index, r) {
        PadKind::lemma_code(r.kind, p.kind);
        MidiChannel::lemma_code(r.channel, p.channel);
        ActiveState::lemma_code(r.midi2din, p.midi2din);
        TriggerKind::lemma_code(r.trigger, p.trigger);
        AfterTouchKind::lemma_code(r.aftertouch, p.aftertouch);
        PadColor::lemma_code(r.off_color, p.off_color);
        PadColor::lemma_code(r.on_color, p.on_color);
        lemma_note_of_number(r.note);
        assert(pad_bytes(p) =~= r.bytes());
    }
}

/// The conversion goes through [`Pad::from_raw`], whose contract states the
/// result.
impl vstd::std_specs::convert::TryFromSpecImpl<(usize, RawPad)> for Pad {
    open spec fn obeys_try_from_spec() -> bool {
        true
    }

    open spec fn try_from_spec(value: (usize, RawPad)) -> Result<Self, PadParseError> {
        pad_decoded(value.0, value.1)
    }
}

impl TryFrom<(usize, RawPad)> for Pad {
    type Error = PadParseError;

    fn try_from(value: (usize, RawPad)) -> (res: Result<Self, PadParseError>) {
        let (index, raw) = value;
        Pad::from_raw(index, raw)
    }
}

/// A dial and what it sends.
#[derive(Debug, Clone, Copy, PartialEq, Eq)]
pub struct Dial {
    pub kind: DialKind,
    pub channel: MidiChannel,
    pub midicc: MidiValue,
    pub min: MidiValue,
    pub max: MidiValue,
    pub midi2din: ActiveState,
    pub msb: MidiValue,
    pub lsb: MidiValue,
    pub value: MidiValue,
}

/// The settings of a new dial: controller 0 on the common channel over the
/// full range.
pub open spec fn fresh_dial() -> Dial {
    Dial {
        kind: DialKind::CC,
        channel: MidiChannel::COMMON,
        midicc: 0,
        min: 0,
        max: 127,
        midi2din: ActiveState::Off,
        msb: 0,
        lsb: 0,
        value: 0,
    }
}

impl Default for Dial {
    fn default() -> (res: Self)
        ensures
            res == fresh_dial(),
    {
        Self {
            kind: DialKind::CC,
            channel: MidiChannel::COMMON,
            midicc: 0,
            min: 0,
            max: 127,
            midi2din: ActiveState::Off,
            msb: 0,
            lsb: 0,
            value: 0,
        }
    }
}

/// The stored bytes of a dial.
pub open spec fn dial_bytes(d: Dial) -> Seq<u8> {
    seq![d.kind.code(), d.channel.code(), d.midicc, d.min, d.max, d.midi2din.code(), d.msb, d.lsb, d.value]
}

/// What a stored dial reads as, or the first field that names no known
/// value.
pub open spec fn dial_decoded(r: RawDial) -> Result<Dial, DialParseError> {
    match (DialKind::of_code(r.kind), MidiChannel::of_code(r.channel), ActiveState::of_code(r.midi2din)) {
        (None, _, _) => Err(DialParseError::Kind(r.kind)),
        (_, None, _) => Err(DialParseError::Channel(r.channel)),
        (_, _, None) => Err(DialParseError::Midi2Din(r.midi2din)),
        (Some(kind), Some(channel), Some(midi2din)) => Ok(
            Dial {
                kind,
                channel,
                midicc: r.midicc,
                min: r.min,
                max: r.max,
                midi2din,
                msb: r.msb,
                lsb: r.lsb,
                value: r.value,
            },
        ),
    }
}

impl Dial {
    /// The bytes that store the dial in a preset.
    pub fn as_bytes(&self) -> (res: Vec<u8>)
        ensures
            res@ == dial_bytes(*self),
    {
        let res = vec![
            self.kind.as_u8(),
            self.channel.as_u8(),
            self.midicc,
            self.min,
            self.max,
            self.midi2din.as_u8(),
            self.msb,
            self.lsb,
            self.value,
        ];
        assert(res@ =~= dial_bytes(*self));
        res
    }

    /// Reads a stored dial.
    pub fn from_raw(raw: RawDial) -> (res: Result<Self, DialParseError>)
        ensures
            res == dial_decoded(raw),
    {
        let kind = match DialKind::from_code(raw.kind) {
            Some(v) => v,
            None => {
                return Err(DialParseError::Kind(raw.kind));
            },
        };
        let channel = match MidiChannel::from_code(raw.channel) {
            Some(v) => v,
            None => {
                return Err(DialParseError::Channel(raw.channel));
            },
        };
        let midi2din = match ActiveState::from_code(raw.midi2din) {
            Some(v) => v,
            None => {
                return Err(DialParseError::Midi2Din(raw.midi2din));
            },
        };
        Ok(
            Dial {
                kind,
                channel,
                midicc: raw.midicc,
                min: raw.min,
                max: raw.max,
                midi2din,
                msb: raw.msb,
                lsb: raw.lsb,
                value: raw.value,
            },
        )
    }
}

/// Reading a stored dial and storing it again gives back the same bytes.
pub proof fn lemma_dial_decode_encode(r: RawDial)
    ensures
        dial_decoded(r) matches Ok(d) ==> dial_bytes(d) == r.bytes(),
{
    if let Ok(d) = dial_decoded(r) {
        DialKind::lemma_code(r.kind, d.kind);
        MidiChannel::lemma_code(r.channel, d.channel);
        ActiveState::lemma_code(r.midi2din, d.midi2din);
        assert(dial_bytes(d) =~= r.bytes());
    }
}

impl vstd::std_specs::convert::TryFromSpecImpl<RawDial> for Dial {
    open spec fn obeys_try_from_spec() -> bool {
        true
    }

    open spec fn try_from_spec(raw: RawDial) -> Result<Self, DialParseError> {
        dial_decoded(raw)
    }
}

impl TryFrom<RawDial> for Dial {
    type Error = DialParseError;

    fn try_from(raw: RawDial) -> (res: Result<Self, DialParseError>) {
        Dial::from_raw(raw)
    }
}

/// A fader and what it sends.
#[derive(Debug, Clone, Copy, PartialEq, Eq)]
pub struct Fader {
    pub kind: FaderKind,
    pub channel: MidiChannel,
    pub midicc: MidiValue,
    pub min: MidiValue,
    pub max: MidiValue,
    pub midi2din: ActiveState,
}

/// The settings of a new fader: controller 0 on the common channel over the
/// full range.
pub open spec fn fresh_fader() -> Fader {
    Fader {
        kind: FaderKind::CC,
        channel: MidiChannel::COMMON,
        midicc: 0,
        min: 0,
        max: 127,
        midi2din: ActiveState::Off,
    }
}

impl Default for Fader {
    fn default() -> (res: Self)
        ensures
            res == fresh_fader(),
    {
        Self {
            kind: FaderKind::CC,
            channel: MidiChannel::COMMON,
            midicc: 0,
            min: 0,
            max: 127,
            midi2din: ActiveState::Off,
        }
    }
}

/// The stored bytes of a fader.
pub open spec fn fader_bytes(f: Fader) -> Seq<u8> {
    seq![f.kind.code(), f.channel.code(), f.midicc, f.min, f.max, f.midi2din.code()]
}

/// What a stored fader reads as, or the first field that names no known
/// value.
pub open spec fn fader_decoded(r: RawFader) -> Result<Fader, FaderParseError> {
    match (FaderKind::of_code(r.kind), MidiChannel::of_code(r.channel), ActiveState::of_code(r.midi2din)) {
        (None, _, _) => Err(FaderParseError::Kind(r.kind)),
        (_, None, _) => Err(FaderParseError::Channel(r.channel)),
        (_, _, None) => Err(FaderParseError::Midi2Din(r.midi2din)),
        (Some(kind), Some(channel), Some(midi2din)) => Ok(
            Fader { kind, channel, midicc: r.midicc, min: r.min, max: r.max, midi2din },
        ),
    }
}

impl Fader {
    /// The bytes that store the fader in a preset.
    pub fn as_bytes(&self) -> (res: Vec<u8>)
        ensures
            res@ == fader_bytes(*self),
    {
        let res = vec![
            self.kind.as_u8(),
            self.channel.as_u8(),
            self.midicc,
            self.min,
            self.max,
            self.midi2din.as_u8(),
        ];
        assert(res@ =~= fader_bytes(*self));
        res
    }

    /// Reads a stored fader.
    pub fn from_raw(raw: RawFader) -> (res: Result<Self, FaderParseError>)
        ensures
            res == fader_decoded(raw),
    {
        let kind = match FaderKind::from_code(raw.kind) {
            Some(v) => v,
            None => {
                return Err(FaderParseError::Kind(raw.kind));
            },
        };
        let channel = match MidiChannel::from_code(raw.channel) {
            Some(v) => v,
            None => {
                return Err(FaderParseError::Channel(raw.channel));
            },
        };
        let midi2din = match ActiveState::from_code(raw.midi2din) {
            Some(v) => v,
            None => {
                return Err(FaderParseError::Midi2Din(raw.midi2din));
            },
        };
        Ok(Fader { kind, channel, midicc: raw.midicc, min: raw.min, max: raw.max, midi2din })
    }
}

/// Reading a stored fader and storing it again gives back the same bytes.
pub proof fn lemma_fader_decode_encode(r: RawFader)
    ensures
        fader_decoded(r) matches Ok(f) ==> fader_bytes(f) == r.bytes(),
{
    if let Ok(f) = fader_decoded(r) {
        FaderKind::lemma_code(r.kind, f.kind);
        MidiChannel::lemma_code(r.channel, f.channel);
        ActiveState::lemma_code(r.midi2din, f.midi2din);
        assert(fader_bytes(f) =~= r.bytes());
    }
}

impl vstd::std_specs::convert::TryFromSpecImpl<RawFader> for Fader {
    open spec fn obeys_try_from_spec() -> bool {
        true
    }

    open spec fn try_from_spec(raw: RawFader) -> Result<Self, FaderParseError> {
        fader_decoded(raw)
    }
}

impl TryFrom<RawFader> for Fader {
    type Error = FaderParseError;

    fn try_from(raw: RawFader) -> (res: Result<Self, FaderParseError>) {
        Fader::from_raw(raw)
    }
}

/// A switch and what it sends.
#[derive(Clone, Copy, Debug)]
pub struct Switch {
    pub kind: SwitchKind,
    pub channel: MidiChannel,
    pub midicc: MidiValue,
    pub mode: TriggerKind,
    pub prog: MidiValue,
    pub msb: MidiValue,
    pub lsb: MidiValue,
    pub midi2din: ActiveState,
    pub note: u8,
    pub velo: MidiValue,
    pub invert: ActiveState,
    pub key1: u8,
    pub key2: KeyModifier,
}

/// The settings of a new switch: controller 0 on the common channel,
/// momentary, velocity 100, no key.
pub open spec fn fresh_switch() -> Switch {
    Switch {
        kind: SwitchKind::CC,
        channel: MidiChannel::COMMON,
        midicc: 0,
        mode: TriggerKind::Momentary,
        prog: 0,
        msb: 0,
        lsb: 0,
        midi2din: ActiveState::Off,
        note: 0,
        velo: 100,
        invert: ActiveState::Off,
        key1: 0,
        key2: KeyModifier::NONE,
    }
}

impl Default for Switch {
    fn default() -> (res: Self)
        ensures
            res == fresh_switch(),
    {
        Self {
            kind: SwitchKind::CC,
            channel: MidiChannel::COMMON,
            midicc: 0,
            mode: TriggerKind::Momentary,
            prog: 0,
            msb: 0,
            lsb: 0,
            midi2din: ActiveState::Off,
            note: 0,
            velo: 100,
            invert: ActiveState::Off,
            key1: 0,
            key2: KeyModifier::NONE,
        }
    }
}

/// The stored bytes of a switch.
pub open spec fn switch_bytes(s: Switch) -> Seq<u8> {
    seq![
        s.kind.code(),
        s.channel.code(),
        s.midicc,
        s.mode.code(),
        s.prog,
        s.msb,
        s.lsb,
        s.midi2din.code(),
        s.note,
        s.velo,
        s.invert.code(),
        s.key1,
        s.key2.code(),
    ]
}

/// What a stored switch reads as, or the first field that names no known
/// value.
pub open spec fn switch_decoded(r: RawSwitch) -> Result<Switch, SwitchParseError> {
    match (
        SwitchKind::of_code(r.kind),
        MidiChannel::of_code(r.channel),
        TriggerKind::of_code(r.mode),
        ActiveState::of_code(r.midi2din),
        ActiveState::of_code(r.invert),
        KeyModifier::of_code(r.key2),
    ) {
        (None, _, _, _, _, _) => Err(SwitchParseError::Kind(r.kind)),
        (_, None, _, _, _, _) => Err(SwitchParseError::Channel(r.channel)),
        (_, _, None, _, _, _) => Err(SwitchParseError::Mode(r.mode)),
        (_, _, _, None, _, _) => Err(SwitchParseError::Midi2Din(r.midi2din)),
        (_, _, _, _, None, _) => Err(SwitchParseError::Invert(r.invert)),
        (_, _, _, _, _, None) => Err(SwitchParseError::Key2(r.key2)),
        (Some(kind), Some(channel), Some(mode), Some(midi2din), Some(invert), Some(key2)) => Ok(
            Switch {
                kind,
                channel,
                midicc: r.midicc,
                mode,
                prog: r.prog,
                msb: r.msb,
                lsb: r.lsb,
                midi2din,
                note: r.note,
                velo: r.velo,
                invert,
                key1: r.key1,
                key2,
            },
        ),
    }
}

impl Switch {
    /// The bytes that store the switch in a preset.
    pub fn as_bytes(&self) -> (res: Vec<u8>)
        ensures
            res@ == switch_bytes(*self),
    {
        let res = vec![
            self.kind.as_u8(),
            self.channel.as_u8(),
            self.midicc,
            self.mode.as_u8(),
            self.prog,
            self.msb,
            self.lsb,
            self.midi2din.as_u8(),
            self.note,
            self.velo,
            self.invert.as_u8(),
            self.key1,
            self.key2.as_u8(),
        ];
        assert(res@ =~= switch_bytes(*self));
        res
    }

    /// Reads a stored switch.
    pub fn from_raw(raw: RawSwitch) -> (res: Result<Self, SwitchParseError>)
        ensures
            res == switch_decoded(raw),
    {
        let kind = match SwitchKind::from_code(raw.kind) {
            Some(v) => v,
            None => {
                return Err(SwitchParseError::Kind(raw.kind));
            },
        };
        let channel = match MidiChannel::from_code(raw.channel) {
            Some(v) => v,
            None => {
                return Err(SwitchParseError::Channel(raw.channel));
            },
        };
        let mode = match TriggerKind::from_code(raw.mode) {
            Some(v) => v,
            None => {
                return Err(SwitchParseError::Mode(raw.mode));
            },
        };
        let midi2din = match ActiveState::from_code(raw.midi2din) {
            Some(v) => v,
            None => {
                return Err(SwitchParseError::Midi2Din(raw.midi2din));
            },
        };
        let invert = match ActiveState::from_code(raw.invert) {
            Some(v) => v,
            None => {
                return Err(SwitchParseError::Invert(raw.invert));
            },
        };
        let key2 = match KeyModifier::from_code(raw.key2) {
            Some(v) => v,
            None => {
                return Err(SwitchParseError::Key2(raw.key2));
            },
        };
        Ok(
            Switch {
                kind,
                channel,
                midicc: raw.midicc,
                mode,
                prog: raw.prog,
                msb: raw.msb,
                lsb: raw.lsb,
                midi2din,
                note: raw.note,
                velo: raw.velo,
                invert,
                key1: raw.key1,
                key2,
            },
        )
    }
}

/// Reading a stored switch and storing it again gives back the same bytes.
pub proof fn lemma_switch_decode_encode(r: RawSwitch)
    ensures
        switch_decoded(r) matches Ok(s) ==> switch_bytes(s) == r.bytes(),
{
    if let Ok(s) = switch_decoded(r) {
        SwitchKind::lemma_code(r.kind, s.kind);
        MidiChannel::lemma_code(r.channel, s.channel);
        TriggerKind::lemma_code(r.mode, s.mode);
        ActiveState::lemma_code(r.midi2din, s.midi2din);
        ActiveState::lemma_code(r.invert, s.invert);
        KeyModifier::lemma_code(r.key2, s.key2);
        assert(switch_bytes(s) =~= r.bytes());
    }
}

impl vstd::std_specs::convert::TryFromSpecImpl<RawSwitch> for Switch {
    open spec fn obeys_try_from_spec() -> bool {
        true
    }

    open spec fn try_from_spec(raw: RawSwitch) -> Result<Self, SwitchParseError> {
        switch_decoded(raw)
    }
}

impl TryFrom<RawSwitch> for Switch {
    type Error = SwitchParseError;

    fn try_from(raw: RawSwitch) -> (res: Result<Self, SwitchParseError>) {
        Switch::from_raw(raw)
    }
}

/// The settings of a preset.
#[derive(Clone, Copy, Debug, PartialEq)]
pub struct PresetSettings {
    pub preset_slot: PresetSlot,
    pub preset_name: PresetName,
    pub tempo: Tempo,
    pub time_division_switch: TriggerKind,
    pub time_division: TimeDivision,
    pub note_repeat_switch: TriggerKind,
    pub gate: Gate,
    pub swing: SwingKind,
    pub transport: TransportKind,
}

/// The settings of a new preset: the working memory, "Midilab ", 120 beats
/// per minute, toggled sixteenths at half gate, no swing, transport sending
/// controllers.
pub open spec fn is_default_settings(s: PresetSettings) -> bool {
    &&& s.preset_slot == PresetSlot::RAM
    &&& s.preset_name.0@ == seq![77u8, 105, 100, 105, 108, 97, 98, 32]
    &&& s.tempo.0 == 120
    &&& s.time_division_switch == TriggerKind::Toggle
    &&& s.time_division == TimeDivision::Div1_16
    &&& s.note_repeat_switch == TriggerKind::Toggle
    &&& s.gate.value == 50
    &&& s.swing == SwingKind::Off
    &&& s.transport == TransportKind::CTRL
}

impl Default for PresetSettings {
    fn default() -> (res: Self)
        ensures
            is_default_settings(res),
    {
        Self {
            preset_slot: PresetSlot::default(),
            preset_name: PresetName::default(),
            tempo: Tempo::default(),
            time_division_switch: TriggerKind::Toggle,
            time_division: TimeDivision::default(),
            note_repeat_switch: TriggerKind::Toggle,
            gate: Gate::from(50),
            swing: SwingKind::default(),
            transport: TransportKind::default(),
        }
    }
}

/// What stored preset settings read as, or the first field that names no
/// known value.
pub open spec fn settings_decoded(r: RawPresetSettings) -> Result<PresetSettings, PresetSettingsParseError> {
    match (
        PresetSlot::of_code(r.preset),
        TriggerKind::of_code(r.time_division_switch),
        TimeDivision::of_code(r.division),
        TriggerKind::of_code(r.note_repeat_switch),
        SwingKind::of_code(r.swing),
        TransportKind::of_code(r.transport),
    ) {
        (None, _, _, _, _, _) => Err(PresetSettingsParseError::PresetSlot(r.preset)),
        (_, None, _, _, _, _) => Err(PresetSettingsParseError::TimeDivisionSwitch(r.time_division_switch)),
        (_, _, None, _, _, _) => Err(PresetSettingsParseError::TimeDivision(r.division)),
        (_, _, _, None, _, _) => Err(PresetSettingsParseError::NoteRepeatSwitch(r.note_repeat_switch)),
        (_, _, _, _, None, _) => Err(PresetSettingsParseError::Swing(r.swing)),
        (_, _, _, _, _, None) => Err(PresetSettingsParseError::Transport(r.transport)),
        (Some(slot), Some(tds), Some(division), Some(nrs), Some(swing), Some(transport)) => Ok(
            PresetSettings {
                preset_slot: slot,
                preset_name: PresetName(r.name),
                tempo: Tempo(unpacked_u14(r.tempo[0], r.tempo[1])),
                time_division_switch: tds,
                time_division: division,
                note_repeat_switch: nrs,
                gate: Gate { value: clamp_int(r.gate as int, 1, 99) as u8 },
                swing,
                transport,
            },
        ),
    }
}

/// Whether `r` stores the preset settings `s`: every unused byte zero.
pub open spec fn stores_settings(r: RawPresetSettings, s: PresetSettings) -> bool {
    &&& r.preset == s.preset_slot.code()
    &&& r.name == s.preset_name.0
    &&& r.un1 == 0
    &&& r.tempo@ == packed_u14(s.tempo.0)
    &&& r.time_division_switch == s.time_division_switch.code()
    &&& r.division == s.time_division.code()
    &&& r.note_repeat_switch == s.note_repeat_switch.code()
    &&& r.gate == s.gate.value
    &&& r.swing == s.swing.code()
    &&& r.un5 == 0
    &&& r.un6 == 0
    &&& r.un7 == 0
    &&& r.un8 == 0
    &&& r.un9 == 0
    &&& r.transport == s.transport.code()
}

impl PresetSettings {
    /// Reads stored preset settings.
    pub fn from_raw(raw: RawPresetSettings) -> (res: Result<Self, PresetSettingsParseError>)
        ensures
            res == settings_decoded(raw),
    {
        let preset_slot = match PresetSlot::from_code(raw.preset) {
            Some(v) => v,
            None => {
                return Err(PresetSettingsParseError::PresetSlot(raw.preset));
            },
        };
        let time_division_switch = match TriggerKind::from_code(raw.time_division_switch) {
            Some(v) => v,
            None => {
                return Err(PresetSettingsParseError::TimeDivisionSwitch(raw.time_division_switch));
            },
        };
        let time_division = match TimeDivision::from_code(raw.division) {
            Some(v) => v,
            None => {
                return Err(PresetSettingsParseError::TimeDivision(raw.division));
            },
        };
        let note_repeat_switch = match TriggerKind::from_code(raw.note_repeat_switch) {
            Some(v) => v,
            None => {
                return Err(PresetSettingsParseError::NoteRepeatSwitch(raw.note_repeat_switch));
            },
        };
        let swing = match SwingKind::from_code(raw.swing) {
            Some(v) => v,
            None => {
                return Err(PresetSettingsParseError::Swing(raw.swing));
            },
        };
        let transport = match TransportKind::from_code(raw.transport) {
            Some(v) => v,
            None => {
                return Err(PresetSettingsParseError::Transport(raw.transport));
            },
        };
        Ok(
            PresetSettings {
                preset_slot,
                preset_name: PresetName(raw.name),
                tempo: Tempo::from_packed_bytes(raw.tempo),
                time_division_switch,
                time_division,
                note_repeat_switch,
                gate: Gate::from(raw.gate),
                swing,
                transport,
            },
        )
    }

    /// The stored form of the settings.
    pub fn to_raw(&self) -> (res: RawPresetSettings)
        ensures
            stores_settings(res, *self),
    {
        RawPresetSettings {
            preset: self.preset_slot.as_u8(),
            name: self.preset_name.0,
            un1: 0,
            tempo: self.tempo.to_packed_bytes(),
            time_division_switch: self.time_division_switch.as_u8(),
            division: self.time_division.as_u8(),
            note_repeat_switch: self.note_repeat_switch.as_u8(),
            gate: self.gate.value,
            swing: self.swing.as_u8(),
            un5: 0,
            un6: 0,
            un7: 0,
            un8: 0,
            un9: 0,
            transport: self.transport.as_u8(),
        }
    }
}

impl vstd::std_specs::convert::TryFromSpecImpl<RawPresetSettings> for PresetSettings {
    open spec fn obeys_try_from_spec() -> bool {
        true
    }

    open spec fn try_from_spec(raw: RawPresetSettings) -> Result<Self, PresetSettingsParseError> {
        settings_decoded(raw)
    }
}

impl TryFrom<RawPresetSettings> for PresetSettings {
    type Error = PresetSettingsParseError;

    fn try_from(raw: RawPresetSettings) -> (res: Result<Self, PresetSettingsParseError>) {
        PresetSettings::from_raw(raw)
    }
}

/// The conversion goes through [`PresetSettings::to_raw`], whose contract
/// states the result.
impl<'a> vstd::std_specs::convert::FromSpecImpl<&'a PresetSettings> for RawPresetSettings {
    open spec fn obeys_from_spec() -> bool {
        false
    }

    closed spec fn from_spec(settings: &'a PresetSettings) -> Self {
        arbitrary()
    }
}

impl<'a> From<&'a PresetSettings> for RawPresetSettings {
    fn from(settings: &'a PresetSettings) -> (res: Self)
        ensures
            stores_settings(res, *settings),
    {
        settings.to_raw()
    }
}

/// Storing a pad and reading the record back as pad `p.id` gives the pad.
pub proof fn lemma_pad_encode_decode(p: Pad, r: RawPad)
    requires
        r.bytes() == pad_bytes(p),
    ensures
        pad_decoded(p.id, r) == Ok::<Pad, PadParseError>(p),
{
    assert(r.bytes()[0] == r.kind && r.bytes()[1] == r.channel && r.bytes()[2] == r.note);
    assert(r.bytes()[3] == r.midi2din && r.bytes()[4] == r.trigger && r.bytes()[5] == r.aftertouch);
    assert(r.bytes()[6] == r.program && r.bytes()[7] == r.msb && r.bytes()[8] == r.lsb);
    assert(r.bytes()[9] == r.off_color && r.bytes()[10] == r.on_color);
    PadKind::lemma_code(0, p.kind);
    MidiChannel::lemma_code(0, p.channel);
    ActiveState::lemma_code(0, p.midi2din);
    TriggerKind::lemma_code(0, p.trigger);
    AfterTouchKind::lemma_code(0, p.aftertouch);
    PadColor::lemma_code(0, p.off_color);
    PadColor::lemma_code(0, p.on_color);
    lemma_number_of_note(p.note);
}

/// Storing a dial and reading the record back gives the dial.
pub proof fn lemma_dial_encode_decode(d: Dial, r: RawDial)
    requires
        r.bytes() == dial_bytes(d),
    ensures
        dial_decoded(r) == Ok::<Dial, DialParseError>(d),
{
    assert(r.bytes()[0] == r.kind && r.bytes()[1] == r.channel && r.bytes()[2] == r.midicc);
    assert(r.bytes()[3] == r.min && r.bytes()[4] == r.max && r.bytes()[5] == r.midi2din);
    assert(r.bytes()[6] == r.msb && r.bytes()[7] == r.lsb && r.bytes()[8] == r.value);
    DialKind::lemma_code(0, d.kind);
    MidiChannel::lemma_code(0, d.channel);
    ActiveState::lemma_code(0, d.midi2din);
}

/// Storing a fader and reading the record back gives the fader.
pub proof fn lemma_fader_encode_decode(f: Fader, r: RawFader)
    requires
        r.bytes() == fader_bytes(f),
    ensures
        fader_decoded(r) == Ok::<Fader, FaderParseError>(f),
{
    assert(r.bytes()[0] == r.kind && r.bytes()[1] == r.channel && r.bytes()[2] == r.midicc);
    assert(r.bytes()[3] == r.min && r.bytes()[4] == r.max && r.bytes()[5] == r.midi2din);
    FaderKind::lemma_code(0, f.kind);
    MidiChannel::lemma_code(0, f.channel);
    ActiveState::lemma_code(0, f.midi2din);
}

/// Storing a switch and reading the record back gives the switch.
pub proof fn lemma_switch_encode_decode(s: Switch, r: RawSwitch)
    requires
        r.bytes() == switch_bytes(s),
    ensures
        switch_decoded(r) == Ok::<Switch, SwitchParseError>(s),
{
    assert(r.bytes()[0] == r.kind && r.bytes()[1] == r.channel && r.bytes()[2] == r.midicc);
    assert(r.bytes()[3] == r.mode && r.bytes()[4] == r.prog && r.bytes()[5] == r.msb);
    assert(r.bytes()[6] == r.lsb && r.bytes()[7] == r.midi2din && r.bytes()[8] == r.note);
    assert(r.bytes()[9] == r.velo && r.bytes()[10] == r.invert && r.bytes()[11] == r.key1);
    assert(r.bytes()[12] == r.key2);
    SwitchKind::lemma_code(0, s.kind);
    MidiChannel::lemma_code(0, s.channel);
    TriggerKind::lemma_code(0, s.mode);
    ActiveState::lemma_code(0, s.midi2din);
    ActiveState::lemma_code(0, s.invert);
    KeyModifier::lemma_code(0, s.key2);
}

/// Storing settings whose gate is within 1 ..= 99 and whose tempo fits in
/// 14 bits, and reading the record back, gives the settings.
pub proof fn lemma_settings_encode_decode(s: PresetSettings, r: RawPresetSettings)
    requires
        stores_settings(r, s),
        1 <= s.gate.value <= 99,
        s.tempo.0 < 16384,
    ensures
        settings_decoded(r) == Ok::<PresetSettings, PresetSettingsParseError>(s),
{
    PresetSlot::lemma_code(0, s.preset_slot);
    TriggerKind::lemma_code(0, s.time_division_switch);
    TimeDivision::lemma_code(0, s.time_division);
    TriggerKind::lemma_code(0, s.note_repeat_switch);
    SwingKind::lemma_code(0, s.swing);
    TransportKind::lemma_code(0, s.transport);
    lemma_tempo_round_trip(s.tempo);
    assert(r.tempo@[0] == packed_u14(s.tempo.0)[0] && r.tempo@[1] == packed_u14(s.tempo.0)[1]);
}

} // verus!
