use midilab::manufacturer::akai::mpd226::control::Dial;
use midilab::manufacturer::akai::mpd226::control::Fader;
use midilab::manufacturer::akai::mpd226::control::Pad;
use midilab::manufacturer::akai::mpd226::control::PresetSettings;
use midilab::manufacturer::akai::mpd226::control::Switch;
use midilab::manufacturer::akai::mpd226::control::value_kind::ActiveState;
use midilab::manufacturer::akai::mpd226::control::value_kind::AfterTouchKind;
use midilab::manufacturer::akai::mpd226::control::value_kind::DialKind;
use midilab::manufacturer::akai::mpd226::control::value_kind::FaderKind;
use midilab::manufacturer::akai::mpd226::control::value_kind::Gate;
use midilab::manufacturer::akai::mpd226::control::value_kind::KeyModifier;
use midilab::manufacturer::akai::mpd226::control::value_kind::MidiChannel;
use midilab::manufacturer::akai::mpd226::control::value_kind::PadColor;
use midilab::manufacturer::akai::mpd226::control::value_kind::PadKind;
use midilab::manufacturer::akai::mpd226::control::value_kind::PresetSlot;
use midilab::manufacturer::akai::mpd226::control::value_kind::SwitchKind;
use midilab::manufacturer::akai::mpd226::control::value_kind::Tempo;
use midilab::manufacturer::akai::mpd226::control::value_kind::TimeDivision;
use midilab::manufacturer::akai::mpd226::control::value_kind::TriggerKind;
use midilab::manufacturer::akai::mpd226::raw::RawDial;
use midilab::manufacturer::akai::mpd226::raw::RawFader;
use midilab::manufacturer::akai::mpd226::raw::RawPad;
use midilab::manufacturer::akai::mpd226::raw::RawSwitch;
use midilab::midi::MidiValue;
use midilab::midi::Note;

#[test]
fn test_pad_new() {
    let pad = Pad::new(5);
    assert_eq!(pad.id, 5);
    assert_eq!(pad.kind, PadKind::default());
    assert_eq!(pad.note, Note::default());
}

#[test]
fn test_pad_as_bytes() {
    let pad = Pad {
        id: 0,
        kind: PadKind::Note,
        channel: MidiChannel::COMMON,
        note: Note::N60,
        midi2din: ActiveState::Off,
        trigger: TriggerKind::Momentary,
        aftertouch: AfterTouchKind::Channel,
        program: MidiValue::default(),
        msb: MidiValue::default(),
        lsb: MidiValue::default(),
        off_color: PadColor::Red,
        on_color: PadColor::Green,
    };

    let bytes = pad.as_bytes();
    assert_eq!(bytes.len(), 11);
    assert_eq!(bytes[0], PadKind::Note as u8);
    assert_eq!(bytes[1], MidiChannel::COMMON as u8);
    assert_eq!(bytes[2], Note::N60 as u8);
    assert_eq!(bytes[9], PadColor::Red as u8);
    assert_eq!(bytes[10], PadColor::Green as u8);
}

#[test]
fn test_pad_try_from_raw() {
    let raw = RawPad {
        kind: 0,
        channel: 5,
        note: 72,
        midi2din: 0,
        trigger: 1,
        aftertouch: 2,
        program: 10,
        msb: 0,
        lsb: 0,
        off_color: 3,
        on_color: 5,
    };

    let pad = Pad::try_from((3, raw)).unwrap();
    assert_eq!(pad.id, 3);
    assert_eq!(pad.kind, PadKind::Note);
    assert_eq!(pad.channel, MidiChannel::A5);
    assert_eq!(pad.note, Note::N72);
    assert_eq!(pad.trigger, TriggerKind::Toggle);
    assert_eq!(pad.aftertouch, AfterTouchKind::Poly);
    assert_eq!(pad.off_color, PadColor::Amber);
    assert_eq!(pad.on_color, PadColor::Green);
}

#[test]
fn test_pad_try_from_raw_invalid_kind() {
    let raw = RawPad {
        kind: 255,
        channel: 0,
        note: 60,
        midi2din: 0,
        trigger: 0,
        aftertouch: 0,
        program: 0,
        msb: 0,
        lsb: 0,
        off_color: 0,
        on_color: 0,
    };

    let result = Pad::try_from((0, raw));
    assert!(result.is_err());
}

#[test]
fn test_pad_sysex_payload() {
    let pad = Pad::new(0);
    let payload = pad.sysex_payload();
    assert_eq!(payload.len(), 11);
}

#[test]
fn test_dial_default() {
    let dial = Dial::default();
    assert_eq!(dial.kind, DialKind::CC);
    assert_eq!(dial.channel, MidiChannel::COMMON);
}

#[test]
fn test_dial_as_bytes() {
    let dial = Dial {
        kind: DialKind::CC,
        channel: MidiChannel::A1,
        midicc: 74.into(),
        min: 0.into(),
        max: 127.into(),
        midi2din: ActiveState::On,
        msb: 0.into(),
        lsb: 0.into(),
        value: 0.into(),
    };

    let bytes = dial.as_bytes();
    assert_eq!(bytes.len(), 9);
    assert_eq!(bytes[0], DialKind::CC as u8);
    assert_eq!(bytes[1], 1);
    assert_eq!(bytes[2], 74);
    assert_eq!(bytes[3], 0);
    assert_eq!(bytes[4], 127);
}

#[test]
fn test_dial_try_from_raw() {
    let raw = RawDial {
        kind: 2,
        channel: 3,
        midicc: 50,
        min: 10,
        max: 100,
        midi2din: 1,
        msb: 5,
        lsb: 6,
        value: 64,
    };

    let dial = Dial::try_from(raw).unwrap();
    assert_eq!(dial.kind, DialKind::IncDec1);
    assert_eq!(dial.channel, MidiChannel::A3);
    assert_eq!(dial.midicc, 50.into());
    assert_eq!(dial.midi2din, ActiveState::On);
}

#[test]
fn test_dial_try_from_raw_invalid() {
    let raw = RawDial {
        kind: 255,
        channel: 0,
        midicc: 0,
        min: 0,
        max: 127,
        midi2din: 0,
        msb: 0,
        lsb: 0,
        value: 0,
    };

    let result = Dial::try_from(raw);
    assert!(result.is_err());
}

#[test]
fn test_fader_default() {
    let fader = Fader::default();
    assert_eq!(fader.kind, FaderKind::CC);
}

#[test]
fn test_fader_as_bytes() {
    let fader = Fader {
        kind: FaderKind::Aftertouch,
        channel: MidiChannel::A2,
        midicc: 7.into(),
        min: 0.into(),
        max: 127.into(),
        midi2din: ActiveState::Off,
    };

    let bytes = fader.as_bytes();
    assert_eq!(bytes.len(), 6);
    assert_eq!(bytes[0], FaderKind::Aftertouch as u8);
    assert_eq!(bytes[1], MidiChannel::A2 as u8);
    assert_eq!(bytes[2], 7);
}

#[test]
fn test_fader_try_from_raw() {
    let raw = RawFader {
        kind: 1,
        channel: 5,
        midicc: 11,
        min: 20,
        max: 100,
        midi2din: 0,
    };

    let fader = Fader::try_from(raw).unwrap();
    assert_eq!(fader.kind, FaderKind::Aftertouch);
    assert_eq!(fader.channel, MidiChannel::A5);
    assert_eq!(fader.midicc, 11.into());
    assert_eq!(fader.min, 20.into());
    assert_eq!(fader.max, 100.into());
}

#[test]
fn test_fader_try_from_raw_invalid() {
    let raw = RawFader {
        kind: 255,
        channel: 0,
        midicc: 0,
        min: 0,
        max: 127,
        midi2din: 0,
    };

    let result = Fader::try_from(raw);
    assert!(result.is_err());
}

#[test]
fn test_switch_default() {
    let switch = Switch::default();
    assert_eq!(switch.kind, SwitchKind::CC);
}

#[test]
fn test_switch_as_bytes() {
    let switch = Switch {
        kind: SwitchKind::Program,
        channel: MidiChannel::A1,
        midicc: 64.into(),
        mode: TriggerKind::Toggle,
        prog: 5.into(),
        msb: 0.into(),
        lsb: 0.into(),
        midi2din: ActiveState::On,
        note: 60,
        velo: 100.into(),
        invert: ActiveState::Off,
        key1: 0,
        key2: KeyModifier::CTRL,
    };

    let bytes = switch.as_bytes();
    assert_eq!(bytes.len(), 13);
    assert_eq!(bytes[0], SwitchKind::Program as u8);
    assert_eq!(bytes[3], TriggerKind::Toggle as u8);
    assert_eq!(bytes[12], KeyModifier::CTRL as u8);
}

#[test]
fn test_switch_try_from_raw() {
    let raw = RawSwitch {
        kind: 2,
        channel: 3,
        midicc: 65,
        mode: 1,
        prog: 10,
        msb: 0,
        lsb: 1,
        midi2din: 1,
        note: 72,
        velo: 127,
        invert: 0,
        key1: 65,
        key2: 5,
    };

    let switch = Switch::try_from(raw).unwrap();
    assert_eq!(switch.kind, SwitchKind::Program);
    assert_eq!(switch.mode, TriggerKind::Toggle);
    assert_eq!(switch.key2, KeyModifier::CTRL_SHIFT);
}

#[test]
fn test_switch_try_from_raw_invalid() {
    let raw = RawSwitch {
        kind: 255,
        channel: 0,
        midicc: 0,
        mode: 0,
        prog: 0,
        msb: 0,
        lsb: 0,
        midi2din: 0,
        note: 0,
        velo: 0,
        invert: 0,
        key1: 0,
        key2: 0,
    };

    let result = Switch::try_from(raw);
    assert!(result.is_err());
}

#[test]
fn test_preset_settings_default() {
    let preset_settings = PresetSettings::default();
    assert_eq!(preset_settings.preset_slot, PresetSlot::RAM);
    assert_eq!(preset_settings.tempo, Tempo(120));
    assert_eq!(preset_settings.time_division, TimeDivision::Div1_16);
    assert_eq!(preset_settings.gate, Gate::from(50));
}

#[test]
fn test_preset_settings_direct_mutation() {
    let mut preset_settings = PresetSettings::default();
    assert_eq!(preset_settings.tempo, Tempo(120));

    preset_settings.tempo = Tempo(140);
    assert_eq!(preset_settings.tempo, Tempo(140));
}
