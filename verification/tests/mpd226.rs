use midilab::error::DeviceStatusParseError;
use midilab::error::SysexParseError;
use midilab::manufacturer::akai::mpd226::ColorPattern;
use midilab::manufacturer::akai::mpd226::ColorSequence;
use midilab::manufacturer::akai::mpd226::NoteColorMap;
use midilab::manufacturer::akai::mpd226::control::value_kind::PadColor;
use midilab::manufacturer::akai::mpd226::DeviceCommandId;
use midilab::manufacturer::akai::mpd226::DeviceMessagePayload;
use midilab::manufacturer::akai::mpd226::DeviceStatus;
use midilab::manufacturer::akai::mpd226::Global;
use midilab::manufacturer::akai::mpd226::GlobalParamCmdId;
use midilab::manufacturer::akai::mpd226::Preset;
use midilab::manufacturer::akai::mpd226::PresetAck;
use midilab::manufacturer::akai::mpd226::control::Pad;
use midilab::manufacturer::akai::mpd226::control::value_kind::ActiveState;
use midilab::manufacturer::akai::mpd226::control::value_kind::MidiChannel;
use midilab::manufacturer::akai::mpd226::control::value_kind::MidiClock;
use midilab::manufacturer::akai::mpd226::control::value_kind::NoteDisplay;
use midilab::manufacturer::akai::mpd226::control::value_kind::PadCurve;
use midilab::manufacturer::akai::mpd226::control::value_kind::PresetSlot;
use midilab::manufacturer::akai::mpd226::control::value_kind::TapAverage;
use midilab::manufacturer::akai::mpd226::control::value_kind::Tempo;
use midilab::manufacturer::akai::mpd226::control::value_kind::UsbChannel;
use midilab::manufacturer::akai::mpd226::dump_global_from_device;
use midilab::manufacturer::akai::mpd226::raw::RawGlobal;
use midilab::manufacturer::akai::mpd226::raw::RawPreset;
use midilab::manufacturer::akai::mpd226::raw::RawPresetSettings;
use midilab::manufacturer::akai::mpd226::repository::PadRepository;
use midilab::manufacturer::akai::mpd226::write_global_param_to_device;
use midilab::manufacturer::akai::mpd226::write_preset_to_device;
use midilab::midi::MidiNote;
use midilab::midi::generation::MidiNoteSequence;
use midilab::music::generation::PitchPattern;
use midilab::music::generation::ScaleSequence;
use midilab::sysex::Sysex;

#[test]
fn test_pad_repository_direct_mutation() {
    let mut repo = PadRepository::default();
    assert_eq!(repo.pads[0].note, MidiNote::from(60));

    repo.pads[0].note = MidiNote::from(105);
    assert_eq!(repo.pads[0].note, MidiNote::from(105));
}

#[test]
fn test_note_mapping() {
    let seq = ScaleSequence {
        length: 1,
        ..Default::default()
    };

    assert_eq!(MidiNoteSequence::from(seq.as_pitches()).0.len(), 1);
}

#[test]
fn test_tempo_encoding_round_trip() {
    for bpm in [30, 60, 90, 120, 140, 180, 200, 250, 300] {
        let tempo = Tempo(bpm);
        let packed = tempo.to_packed_bytes();
        let decoded = Tempo::from_packed_bytes(packed);
        assert_eq!(tempo, decoded);
    }
}

#[test]
fn test_global_default() {

    let global = Global::default();

    assert_eq!(
        global.common_channel,
        UsbChannel::A1
    );
    assert_eq!(global.lcd_contrast, 50);
    assert_eq!(global.tap_average, TapAverage::Tap3);
    assert_eq!(global.tempo_led, ActiveState::On);
    assert_eq!(global.note_display, NoteDisplay::Value);
    assert_eq!(global.pad_gain, 0);
    assert_eq!(global.pad_threshold, 1);
    assert_eq!(global.pad_curve, PadCurve::Linear);
    assert_eq!(global.midi_clock, MidiClock::Internal);
}

#[test]
fn test_global_round_trip_conversion() {

    let global = Global {
        common_channel: UsbChannel::A5,
        lcd_contrast: 42,
        tap_average: TapAverage::Tap4,
        tempo_led: ActiveState::Off,
        note_display: NoteDisplay::Number,
        pad_gain: 15,
        pad_threshold: 8,
        pad_curve: PadCurve::Exp2,
        midi_clock: MidiClock::Internal,
    };

    let raw = RawGlobal::from(&global);
    let restored = Global::try_from(raw).unwrap();

    assert_eq!(global, restored);
}

#[test]
fn mpd226_test_global_dump_request_format() {
    let request = dump_global_from_device();

    assert_eq!(request.len(), 11);
    assert_eq!(request[0], 0xF0);
    assert_eq!(request[1], 0x47);
    assert_eq!(request[2], 0x00);
    assert_eq!(request[3], 0x35);
    assert_eq!(request[4], 0x24);
    assert_eq!(request[5], 0x00);
    assert_eq!(request[6], 0x03);
    assert_eq!(request[7], 0x0B);
    assert_eq!(request[8], 0x00);
    assert_eq!(request[9], 0x01);
    assert_eq!(request[10], 0xF7);
}

#[test]
fn test_global_write_param_format() {
    let msg = write_global_param_to_device(0x02, 50);

    assert_eq!(msg.len(), 12);
    assert_eq!(msg[0], 0xF0);
    assert_eq!(msg[1], 0x47);
    assert_eq!(msg[2], 0x00);
    assert_eq!(msg[3], 0x35);
    assert_eq!(msg[4], 0x34);
    assert_eq!(msg[5], 0x00);
    assert_eq!(msg[6], 0x04);
    assert_eq!(msg[7], 0x01);
    assert_eq!(msg[8], 0x00);
    assert_eq!(msg[9], 0x02);
    assert_eq!(msg[10], 50);
    assert_eq!(msg[11], 0xF7);
}

#[test]
fn test_global_send_messages_count() {

    let raw = RawGlobal::default();
    let messages = raw.global_send_messages();

    assert_eq!(messages.len(), 11);

    for msg in &messages {
        assert_eq!(msg.len(), 12);
    }
}

#[test]
fn trace_preset_channel_bytes() {

    let a1_raw = MidiChannel::A1 as u8;
    assert_eq!(a1_raw, 1);

    let a12_raw = MidiChannel::A12 as u8;
    assert_eq!(a12_raw, 12);

    let mut pad = Pad::new(0);
    pad.channel = MidiChannel::A1;
    let pad_bytes = pad.as_bytes();
    assert_eq!(pad_bytes[1], 1,);

    let mut preset = Preset::default();
    for pad in preset.pads.pads.iter_mut() {
        pad.channel = MidiChannel::A1;
    }
    for dial in preset.dials.0.iter_mut() {
        dial.channel = MidiChannel::A1;
    }
    for fader in preset.faders.0.iter_mut() {
        fader.channel = MidiChannel::A1;
    }
    for switch in preset.switches.0.iter_mut() {
        switch.channel = MidiChannel::A1;
    }

    let raw = RawPreset::from(&preset);
    let raw_bytes = raw.as_bytes();

    let settings_size = std::mem::size_of::<RawPresetSettings>();
    let pad_channel_offset = settings_size + 1;
    assert_eq!(raw_bytes[pad_channel_offset], 1,);

    let dials_start = settings_size + (64 * 11);
    let dial_channel_offset = dials_start + 1;
    assert_eq!(raw_bytes[dial_channel_offset], 1,);

    let raw2: RawPreset = RawPreset::from_bytes(&raw_bytes);
    let preset2 = Preset::try_from(raw2).unwrap();

    assert_eq!(preset2.pads.pads[0].channel, MidiChannel::A1,);
    assert_eq!(preset2.dials.0[0].channel, MidiChannel::A1,);
    assert_eq!(preset2.faders.0[0].channel, MidiChannel::A1,);
    assert_eq!(preset2.switches.0[0].channel, MidiChannel::A1,);

    let sysex_bytes = write_preset_to_device(&raw);

    let data_start = 1 + 6;
    let data_end = sysex_bytes.len() - 1;
    let data = &sysex_bytes[data_start..data_end];

    assert_eq!(data.len(), std::mem::size_of::<RawPreset>(),);

    let raw3: RawPreset = RawPreset::from_bytes(data);
    let preset3 = Preset::try_from(raw3).unwrap();

    assert_eq!(preset3.pads.pads[0].channel, MidiChannel::A1,);
}

#[test]
fn trace_global_dump_response_strips_prefix() {

    let common_channel_a1: u8 = 0;

    let device_response = vec![
        0xF0,
        0x47,
        0x00,
        0x35,
        0x34,
        0x00,
        0x0E,
        0x0B,
        0x00,
        0x01,
        common_channel_a1,
        0x32,
        0x03,
        0x01,
        0x00,
        0x00,
        0x05,
        0x00,
        0x00,
        0x00,
        0x00,
        0xF7,
    ];

    let status = DeviceStatus::try_from(device_response.as_slice()).unwrap();

    match status {
        DeviceStatus::GlobalData(global) => {
            assert_eq!(global.common_channel, UsbChannel::A1,);
            assert_eq!(global.lcd_contrast, 50);
            assert_eq!(global.pad_threshold, 5);
        }
        _ => panic!("wrong variant"),
    }
}

#[test]
fn test_device_status_global_ack_parsing() {

    let bytes = vec![
        0xF0, 0x47, 0x00, 0x35, 0x3C, 0x04, 0x00, 0x01, 0x00, 0x02, 0x00, 0xF7,
    ];

    let sysex = Sysex::try_from(bytes.as_slice()).unwrap();
    let status = DeviceStatus::try_from(sysex).unwrap();

    let ack = match status {
        DeviceStatus::GlobalParamAck(ack) => ack,
        _ => panic!("wrong variant"),
    };

    assert_eq!(ack.addr, GlobalParamCmdId::try_from(0x02).unwrap());
    assert_eq!(ack.status, 0x00);
}

#[test]
fn test_preset_ack_ram_slot_parsed_correctly() {
    let ack = PresetAck::try_from([0x00u8, 0x01u8].as_ref()).unwrap();
    assert_eq!(ack.slot, PresetSlot::RAM);
}

#[test]
fn test_note_pattern_scale_delegates() {
    let seq = ScaleSequence::default();
    let pattern = PitchPattern::Scale(seq);
    assert_eq!(
        MidiNoteSequence::from(pattern.as_pitches()).0,
        MidiNoteSequence::from(seq.as_pitches()).0
    );
}

#[test]
fn test_preset_as_bytes_size() {
    let preset = Preset::default();
    assert_eq!(
        preset.as_bytes().len(),
        std::mem::size_of::<RawPreset>()
    );
}

#[test]
fn test_preset_as_sysex_write() {
    let preset = Preset::default();
    let sysex = preset.as_sysex_write();

    let payload: DeviceMessagePayload<DeviceCommandId> =
        DeviceMessagePayload::try_from(sysex).unwrap();

    assert_eq!(payload.header.cmd, DeviceCommandId::WritePreset);
    assert_eq!(
        payload.header.message_length as usize,
        std::mem::size_of::<RawPreset>()
    );
}

#[test]
fn test_color_pattern_cycles_through_runs() {

    let pattern = ColorPattern::Repeating(vec![
        ColorSequence { len: 2, color: PadColor::Red },
        ColorSequence { len: 1, color: PadColor::Blue },
    ]);
    let colors: Vec<PadColor> = (0..7).map(|i| pattern.color_at_index(i)).collect();
    assert_eq!(
        colors,
        vec![
            PadColor::Red,
            PadColor::Red,
            PadColor::Blue,
            PadColor::Red,
            PadColor::Red,
            PadColor::Blue,
            PadColor::Red
        ]
    );
    assert_eq!(ColorPattern::Repeating(vec![]).color_at_index(4), PadColor::Off);
}

#[test]
fn test_chromatic_gradient_colors_scale_pitches() {

    let map = NoteColorMap::default_chromatic_gradient();
    assert_eq!(map.0.len(), 12);
    assert_eq!(map.0.get(&0), Some(&PadColor::Red));
    let pattern = ColorPattern::from((PitchPattern::Scale(ScaleSequence::default()), map));
    assert_eq!(pattern.color_at_index(0), PadColor::Red);
    assert_eq!(pattern.color_at_index(1), PadColor::HotPink);
    assert_eq!(pattern.color_at_index(12), PadColor::Red);
}

#[test]
fn test_device_status_error_kinds() {

    assert!(matches!(
        DeviceStatus::try_from(&[][..]),
        Err(DeviceStatusParseError::InvalidSysex(SysexParseError::Empty))
    ));
    assert!(matches!(
        DeviceStatus::try_from(&[0xF0, 0x42, 0x00, 0x35, 0x10, 0x00, 0x00, 0xF7][..]),
        Err(DeviceStatusParseError::InvalidHeader)
    ));
    assert!(matches!(
        DeviceStatus::try_from(&[0xF0, 0x47, 0x00, 0x35, 0x7E, 0x00, 0x00, 0xF7][..]),
        Err(DeviceStatusParseError::InvalidCommand(0x7E))
    ));
    assert!(matches!(
        DeviceStatus::try_from(&[0xF0, 0x47, 0x00, 0x35, 0x10, 0x00, 0x01, 0x00, 0xF7][..]),
        Err(DeviceStatusParseError::InvalidMsg)
    ));
}
