use std::mem::size_of;

use midilab::IntoEnumIterator;
use midilab::manufacturer::arturia::minilab_mk2::DeviceStatus;
use midilab::manufacturer::arturia::minilab_mk2::GlobalParamId;
use midilab::manufacturer::arturia::minilab_mk2::GlobalValue;
use midilab::manufacturer::arturia::minilab_mk2::IdentityReply;
use midilab::manufacturer::arturia::minilab_mk2::ParamId;
use midilab::manufacturer::arturia::minilab_mk2::ParamStore;
use midilab::manufacturer::arturia::minilab_mk2::ParamValue;
use midilab::manufacturer::arturia::minilab_mk2::Preset;
use midilab::manufacturer::arturia::minilab_mk2::control::ControlId;
use midilab::manufacturer::arturia::minilab_mk2::control::value_kind::MemorySlot;
use midilab::manufacturer::arturia::minilab_mk2::recall_memory_message;
use midilab::manufacturer::arturia::minilab_mk2::store_memory_message;
use midilab::manufacturer::arturia::minilab_mk2::error::DeviceStatusParseError;
use midilab::manufacturer::arturia::minilab_mk2::error::GlobalParseError;
use midilab::manufacturer::arturia::minilab_mk2::error::PresetParseError;
use midilab::manufacturer::arturia::minilab_mk2::identity_reply_message;
use midilab::manufacturer::arturia::minilab_mk2::identity_request_message;
use midilab::manufacturer::arturia::minilab_mk2::parse_identity_reply;
use midilab::manufacturer::arturia::minilab_mk2::raw::RawControl;
use midilab::manufacturer::arturia::minilab_mk2::raw::RawGlobal;
use midilab::manufacturer::arturia::minilab_mk2::raw::RawPad;
use midilab::manufacturer::arturia::minilab_mk2::raw::RawPreset;
use midilab::manufacturer::arturia::minilab_mk2::read_global_message;
use midilab::manufacturer::arturia::minilab_mk2::read_param_message;
use midilab::manufacturer::arturia::minilab_mk2::write_global_message;
use midilab::manufacturer::arturia::minilab_mk2::set_pad_live_color_message;
use midilab::manufacturer::arturia::minilab_mk2::write_param_message;
use midilab::manufacturer::arturia::minilab_mk2::write_value_message;
use midilab::midi::Note;
use midilab::midi::Value;
use midilab::sysex::Sysex;

const YELLOW: u8 = 0x05;

#[test]
fn test_read_param_message_format() {
    let msg = read_param_message(ParamId::Mode, ControlId::Knob2);

    assert_eq!(
        msg,
        vec![0xF0, 0x00, 0x20, 0x6B, 0x7F, 0x42, 0x01, 0x00, 0x01, 0x01, 0xF7]
    );
}

#[test]
fn test_write_param_message_format() {
    let msg = write_param_message(ParamId::PadColor, ControlId::Pad1, YELLOW);

    assert_eq!(
        msg,
        vec![0xF0, 0x00, 0x20, 0x6B, 0x7F, 0x42, 0x02, 0x00, 0x11, 0x70, 0x05, 0xF7]
    );
}

#[test]
fn test_read_global_message_format() {
    let msg = read_global_message(GlobalParamId::KeyboardChannel);

    assert_eq!(
        msg,
        vec![0xF0, 0x00, 0x20, 0x6B, 0x7F, 0x42, 0x01, 0x00, 0x40, 0x06, 0xF7]
    );
}

#[test]
fn test_write_global_message_format() {
    let msg = write_global_message(GlobalParamId::KnobAcceleration, 0x02);

    assert_eq!(
        msg,
        vec![0xF0, 0x00, 0x20, 0x6B, 0x7F, 0x42, 0x02, 0x00, 0x40, 0x1B, 0x02, 0xF7]
    );
}

#[test]
fn test_recall_memory_message_format() {
    let msg = recall_memory_message(MemorySlot::Slot2);

    assert_eq!(msg, vec![0xF0, 0x00, 0x20, 0x6B, 0x7F, 0x42, 0x05, 0x02, 0xF7]);
}

#[test]
fn test_store_memory_message_format() {
    let msg = store_memory_message(MemorySlot::Slot8);

    assert_eq!(msg, vec![0xF0, 0x00, 0x20, 0x6B, 0x7F, 0x42, 0x06, 0x08, 0xF7]);
}

#[test]
fn test_identity_request_message_format() {
    assert_eq!(
        identity_request_message(),
        vec![0xF0, 0x7E, 0x7F, 0x06, 0x01, 0xF7]
    );
}

#[test]
fn test_device_status_param_value_parse() {
    let bytes = vec![
        0xF0, 0x00, 0x20, 0x6B, 0x7F, 0x42, 0x02, 0x00, 0x03, 0x01, 0x4A, 0xF7,
    ];

    let status = DeviceStatus::try_from(bytes.as_slice()).unwrap();

    assert_eq!(
        status,
        DeviceStatus::ParamValue(ParamValue {
            param: ParamId::Data1,
            control: ControlId::Knob2,
            value: 0x4A,
        })
    );
}

#[test]
fn test_device_status_global_value_parse() {
    let bytes = vec![
        0xF0, 0x00, 0x20, 0x6B, 0x7F, 0x42, 0x02, 0x00, 0x40, 0x19, 0x01, 0xF7,
    ];

    let status = DeviceStatus::try_from(bytes.as_slice()).unwrap();

    assert_eq!(
        status,
        DeviceStatus::GlobalValue(GlobalValue {
            param: GlobalParamId::KeyVelocityCurve,
            value: 0x01,
        })
    );
}

#[test]
fn test_device_status_identity_reply_parse() {
    let bytes = vec![
        0xF0, 0x7E, 0x00, 0x06, 0x02, 0x00, 0x20, 0x6B, 0x02, 0x00, 0x04, 0x02, 0x01, 0x00, 0x02,
        0x05, 0xF7,
    ];

    let status = DeviceStatus::try_from(bytes.as_slice()).unwrap();

    assert_eq!(
        status,
        DeviceStatus::IdentityReply(IdentityReply {
            firmware: [0x01, 0x00, 0x02, 0x05],
        })
    );
}

#[test]
fn test_identity_reply_message_round_trip() {
    let firmware = [0x01, 0x00, 0x02, 0x05];
    let bytes = identity_reply_message(firmware);

    let status = DeviceStatus::try_from(bytes.as_slice()).unwrap();
    assert_eq!(status, DeviceStatus::IdentityReply(IdentityReply { firmware }));
}

#[test]
fn minilab_mk2_test_device_status_rejects_unknown_header() {
    let bytes = vec![0xF0, 0x47, 0x00, 0x35, 0x24, 0xF7];

    assert!(matches!(
        DeviceStatus::try_from(bytes.as_slice()),
        Err(DeviceStatusParseError::InvalidHeader)
    ));
}

#[test]
fn test_global_raw_field_order_matches_param_order() {
    let raw = RawGlobal {
        keyboard_channel: 0,
        key_velocity_curve: 1,
        pad_velocity_curve: 2,
        knob_acceleration: 2,
        octave_button_blink: 0x7F,
        pad_off_backlight: 0,
    };

    let params: Vec<GlobalParamId> = GlobalParamId::iter().collect();
    assert_eq!(params[0], GlobalParamId::KeyboardChannel);
    assert_eq!(params[5], GlobalParamId::PadOffBacklight);
    assert_eq!(raw.as_bytes(), [0, 1, 2, 2, 0x7F, 0]);
}

#[test]
fn test_raw_control_size() {
    assert_eq!(size_of::<RawControl>(), 6);
}

#[test]
fn test_raw_pad_size() {
    assert_eq!(size_of::<RawPad>(), 7);
}

#[test]
fn test_raw_preset_size() {
    assert_eq!(size_of::<RawPreset>(), 25 * 6 + 16 * 7);
}

#[test]
fn raw_test_raw_global_size() {
    assert_eq!(size_of::<RawGlobal>(), 6);
}

// ---------------------------------------------------------------------------

fn apply_message(store: &mut ParamStore, message: &[u8]) {
    let status = DeviceStatus::try_from(message).unwrap();
    store.apply(&status);
}

fn control_with(seed: u8) -> RawControl {
    RawControl {
        mode: seed,
        channel: seed.wrapping_add(1) % 128,
        data1: seed.wrapping_add(2) % 128,
        data2: seed.wrapping_add(3) % 128,
        data3: seed.wrapping_add(4) % 128,
        option: seed.wrapping_add(5) % 128,
    }
}

fn write_control(store: &mut ParamStore, id: ControlId, raw: &RawControl) {
    let params = [
        ParamId::Mode,
        ParamId::Channel,
        ParamId::Data1,
        ParamId::Data2,
        ParamId::Data3,
        ParamId::Option,
    ];
    for (param, value) in params.iter().zip(raw.as_bytes()) {
        apply_message(store, &write_param_message(*param, id, value));
    }
}

#[test]
fn test_param_store_raw_preset_round_trip() {
    let mut raw = RawPreset::default();
    for (i, knob) in raw.knobs.iter_mut().enumerate() {
        *knob = control_with(i as u8);
    }
    for (i, knob) in raw.shift_knobs.iter_mut().enumerate() {
        *knob = control_with(20 + i as u8);
    }
    for (i, button) in raw.buttons.iter_mut().enumerate() {
        *button = control_with(30 + i as u8);
    }
    raw.mod_wheel = control_with(40);
    raw.pitch_bend = RawControl { mode: 1, channel: 15, data1: 0, data2: 0, data3: 0, option: 3 };
    raw.sustain_pedal = control_with(50);
    for (i, pad) in raw.pads.iter_mut().enumerate() {
        let c = control_with(60 + i as u8);
        *pad = RawPad {
            mode: c.mode,
            channel: c.channel,
            data1: c.data1,
            data2: c.data2,
            data3: c.data3,
            option: c.option,
            color: (i as u8) % 8,
        };
    }

    let mut store = ParamStore::default();
    let knobs = ControlId::knobs();
    for (id, knob) in knobs.iter().zip(raw.knobs.iter()) {
        write_control(&mut store, *id, knob);
    }
    for (id, knob) in ControlId::shift_knobs().iter().zip(raw.shift_knobs.iter()) {
        write_control(&mut store, *id, knob);
    }
    for (id, button) in ControlId::buttons().iter().zip(raw.buttons.iter()) {
        write_control(&mut store, *id, button);
    }
    write_control(&mut store, ControlId::ModWheel, &raw.mod_wheel);
    apply_message(&mut store, &write_param_message(ParamId::Mode, ControlId::PitchBend, 1));
    apply_message(&mut store, &write_param_message(ParamId::Channel, ControlId::PitchBend, 15));
    apply_message(&mut store, &write_param_message(ParamId::Option, ControlId::PitchBend, 3));
    write_control(&mut store, ControlId::SustainPedal, &raw.sustain_pedal);
    for (id, pad) in ControlId::pads().iter().zip(raw.pads.iter()) {
        let bytes = pad.as_bytes();
        let control = RawControl {
            mode: bytes[0],
            channel: bytes[1],
            data1: bytes[2],
            data2: bytes[3],
            data3: bytes[4],
            option: bytes[5],
        };
        write_control(&mut store, *id, &control);
        apply_message(&mut store, &write_param_message(ParamId::PadColor, *id, bytes[6]));
    }

    assert_eq!(store.len(), 259);
    assert_eq!(store.try_into_raw_preset(), Ok(raw));
}

#[test]
fn test_param_store_missing_param_reports_first_gap() {
    let store = ParamStore::default();
    assert_eq!(
        store.try_into_raw_preset(),
        Err(PresetParseError::MissingParam { param: 0x01, control: 0x30 })
    );

    let mut store = ParamStore::default();
    for param in 1..=6u8 {
        store.set(param, 0x30, 0);
    }
    store.set(0x01, 0x01, 0);
    assert_eq!(
        store.try_into_raw_preset(),
        Err(PresetParseError::MissingParam { param: 0x02, control: 0x01 })
    );
}

#[test]
fn test_param_store_raw_global_round_trip() {
    let raw = RawGlobal {
        keyboard_channel: 2,
        key_velocity_curve: 1,
        pad_velocity_curve: 3,
        knob_acceleration: 2,
        octave_button_blink: 0,
        pad_off_backlight: 0x7F,
    };

    let mut store = ParamStore::default();
    for (param, value) in GlobalParamId::iter().zip(raw.as_bytes()) {
        apply_message(&mut store, &write_global_message(param, value));
    }

    assert_eq!(store.len(), 6);
    assert_eq!(store.try_into_raw_global(), Ok(raw));
}

#[test]
fn test_param_store_missing_global_param() {
    let mut store = ParamStore::default();
    store.set(0x40, 0x06, 1);
    store.set(0x40, 0x19, 1);
    assert_eq!(
        store.try_into_raw_global(),
        Err(GlobalParseError::MissingParam { param: 0x1A })
    );
}

#[test]
fn test_param_store_get_set_and_identity() {
    let mut store = ParamStore::default();
    assert!(store.is_empty());
    assert_eq!(store.get(0x01, 0x30), None);

    store.set(0x01, 0x30, 9);
    assert_eq!(store.get(0x01, 0x30), Some(9));
    assert_eq!(store.get(0x30, 0x01), None);

    let reply = DeviceStatus::try_from(identity_reply_message([1, 0, 2, 5]).as_slice()).unwrap();
    store.apply(&reply);
    assert_eq!(store.len(), 1);
    assert!(!store.is_empty());
}

#[test]
fn test_device_status_errors() {
    assert_eq!(
        DeviceStatus::try_from(&[0x00u8, 0x01][..]),
        Err(DeviceStatusParseError::InvalidSysex(
            midilab::error::SysexParseError::InvalidStart(0x00)
        ))
    );
    // read requests are not replies
    assert_eq!(
        DeviceStatus::try_from(read_param_message(ParamId::Mode, ControlId::Knob1).as_slice()),
        Err(DeviceStatusParseError::InvalidLength(4))
    );
    assert_eq!(
        DeviceStatus::try_from(write_value_message(0x01, 0x30, 5).as_slice()).unwrap(),
        DeviceStatus::ParamValue(ParamValue {
            param: ParamId::Mode,
            control: ControlId::Knob1,
            value: 5,
        })
    );
    let mut recall = write_value_message(0x01, 0x30, 5);
    recall[6] = 0x05;
    assert_eq!(
        DeviceStatus::try_from(recall.as_slice()),
        Err(DeviceStatusParseError::InvalidOpCode(0x05))
    );
    recall[6] = 0x09;
    assert_eq!(
        DeviceStatus::try_from(recall.as_slice()),
        Err(DeviceStatusParseError::InvalidOpCode(0x09))
    );
    assert_eq!(
        DeviceStatus::try_from(write_value_message(0x07, 0x30, 5).as_slice()),
        Err(DeviceStatusParseError::InvalidParam(0x07))
    );
    assert_eq!(
        DeviceStatus::try_from(write_value_message(0x01, 0x0F, 5).as_slice()),
        Err(DeviceStatusParseError::InvalidControl(0x0F))
    );
    assert_eq!(
        DeviceStatus::try_from(write_value_message(0x40, 0x07, 5).as_slice()),
        Err(DeviceStatusParseError::InvalidGlobalParam(0x07))
    );
    let short_identity = Sysex::new(vec![0x7E, 0x00, 0x06, 0x02]);
    assert_eq!(
        DeviceStatus::try_from(short_identity),
        Err(DeviceStatusParseError::InvalidLength(4))
    );
    let mut other_maker = identity_reply_message([1, 0, 2, 5]);
    other_maker[6] = 0x21;
    assert_eq!(
        DeviceStatus::try_from(other_maker.as_slice()),
        Err(DeviceStatusParseError::InvalidHeader)
    );
}

#[test]
fn test_control_id_codes() {
    assert_eq!(u8::from(ControlId::Knob1), 0x30);
    assert_eq!(u8::from(ControlId::Pad16), 0x7F);
    assert_eq!(ControlId::try_from(0x41u8), Ok(ControlId::PitchBend));
    assert_eq!(ControlId::try_from(0x0Fu8), Err(0x0F));
    assert_eq!(ControlId::iter().count(), 41);
    assert_eq!(ControlId::knobs()[8], ControlId::Knob9);
}

#[test]
fn test_raw_preset_message_counts() {
    let expected = 18 * 6 + 4 * 6 + 6 + 3 + 6 + 16 * 7;
    assert_eq!(RawPreset::read_messages().len(), expected);
    assert_eq!(RawPreset::default().send_messages().len(), expected);
    assert_eq!(
        RawPreset::read_messages()[0],
        read_param_message(ParamId::Mode, ControlId::Knob1)
    );
    assert_eq!(
        RawPreset::read_messages()[expected - 1],
        read_param_message(ParamId::PadColor, ControlId::Pad16)
    );
}

#[test]
fn test_param_store_raw_preset_send_messages_round_trip() {
    let mut raw = RawPreset::default();
    raw.knobs[7].data1 = 42;
    raw.shift_knobs[1].mode = 3;
    raw.pads[15].color = 0x7F;
    raw.pitch_bend.channel = 9;

    let mut store = ParamStore::default();
    for message in raw.send_messages() {
        let status = DeviceStatus::try_from(message.as_slice()).unwrap();
        store.apply(&status);
    }
    assert_eq!(store.len(), 259);
    assert_eq!(store.try_into_raw_preset(), Ok(raw));
}

#[test]
fn identity_reply_payload_parses_and_rejects() {
    let payload = [0x7E, 0x00, 0x06, 0x02, 0x00, 0x20, 0x6B, 0x02, 0x00, 0x04, 0x02, 1, 2, 3, 4];
    assert_eq!(
        parse_identity_reply(&payload),
        Ok(DeviceStatus::IdentityReply(IdentityReply { firmware: [1, 2, 3, 4] }))
    );
    assert_eq!(parse_identity_reply(&payload[..14]), Err(DeviceStatusParseError::InvalidLength(14)));
    let mut bad = payload;
    bad[3] = 0x01;
    assert_eq!(parse_identity_reply(&bad), Err(DeviceStatusParseError::InvalidHeader));
    let mut bad_maker = payload;
    bad_maker[5] = 0x21;
    assert_eq!(parse_identity_reply(&bad_maker), Err(DeviceStatusParseError::InvalidHeader));
}

#[test]
fn test_set_pad_live_color_message_format() {
    // colour number 0x14 is cyan
    let msg = set_pad_live_color_message(ControlId::Pad16, 0x14);

    assert_eq!(
        msg,
        vec![
            0xF0, 0x00, 0x20, 0x6B, 0x7F, 0x42, 0x02, 0x00, 0x10, 0x7F, 0x14, 0xF7
        ]
    );
}

#[test]
fn identity_reply_payload_of_any_start_is_read() {
    assert_eq!(parse_identity_reply(&[]), Err(DeviceStatusParseError::InvalidLength(0)));
    let mut payload = [0x7E, 0x00, 0x06, 0x02, 0x00, 0x20, 0x6B, 0x02, 0x00, 0x04, 0x02, 1, 2, 3, 4];
    payload[0] = 0x00;
    assert_eq!(
        parse_identity_reply(&payload),
        Ok(DeviceStatus::IdentityReply(IdentityReply { firmware: [1, 2, 3, 4] }))
    );
}

fn sample_typed_preset() -> Preset {
    let mut raw = RawPreset::default();
    for (i, knob) in raw.knobs.iter_mut().enumerate() {
        knob.data1 = 102 + i as u8;
        knob.data3 = 127;
    }
    for pad in raw.pads.iter_mut() {
        pad.data1 = 36;
        pad.data3 = 127;
    }
    Preset::from_raw(raw)
}

#[test]
fn test_param_store_missing_param_errors() {
    let store = ParamStore::default();

    assert!(matches!(
        store.try_into_preset(),
        Err(PresetParseError::MissingParam { .. })
    ));
}

#[test]
fn typed_preset_message_counts() {
    let expected = 18 * 6 + 4 * 6 + 6 + 3 + 6 + 16 * 7;
    assert_eq!(Preset::read_messages().len(), expected);
    assert_eq!(sample_typed_preset().send_messages().len(), expected);
}

#[test]
fn typed_preset_store_round_trip() {
    let mut preset = sample_typed_preset();
    preset.knobs[7].cc = Value::from(42);
    preset.knobs[0].mode = 2;
    preset.knobs[0].channel = 4;
    preset.shift_knobs[1].mode = 0;
    preset.pads[15].color = 0x7F;
    preset.pads[3].note = Note::from(60);
    preset.pitch_bend.channel = 15;

    let mut store = ParamStore::default();
    for message in preset.send_messages() {
        let status = DeviceStatus::try_from(message.as_slice()).unwrap();
        store.apply(&status);
    }

    let restored = store.try_into_preset().unwrap();
    assert_eq!(preset, restored);
}

#[test]
fn typed_preset_raw_round_trip() {
    let mut preset = sample_typed_preset();
    preset.buttons[2].on_value = Value::from(100);
    preset.sustain_pedal.cc = Value::from(64);
    let raw = preset.to_raw();
    assert_eq!(raw.buttons[2].data3, 100);
    assert_eq!(Preset::from_raw(raw), preset);
    assert_eq!(preset.knobs[3].id, ControlId::Knob4);
    assert_eq!(preset.knobs[3].param_pairs()[2], (ParamId::Data1, 105));
    assert_eq!(preset.pads[0].param_pairs().len(), 7);
    assert_eq!(preset.pitch_bend.param_pairs().len(), 3);
    assert_eq!(preset.default_filename(), "arturia_minilab_mk2.preset");
}

#[test]
fn typed_controls_cut_data_bytes_to_midi_values() {
    let raw = RawControl { mode: 9, channel: 200, data1: 200, data2: 128, data3: 5, option: 255 };
    let preset = Preset::from_raw(RawPreset { mod_wheel: raw, ..RawPreset::default() });
    let back = preset.mod_wheel.to_raw();
    assert_eq!(back, RawControl { mode: 9, channel: 200, data1: 127, data2: 127, data3: 5, option: 127 });
}

#[test]
fn raw_global_message_counts() {
    let raw = RawGlobal {
        keyboard_channel: 2,
        key_velocity_curve: 1,
        pad_velocity_curve: 3,
        knob_acceleration: 2,
        octave_button_blink: 0,
        pad_off_backlight: 0x7F,
    };
    assert_eq!(RawGlobal::read_messages().len(), 6);
    assert_eq!(raw.send_messages().len(), 6);
    assert_eq!(RawGlobal::read_messages()[0], read_global_message(GlobalParamId::KeyboardChannel));
    assert_eq!(raw.send_messages()[5], write_global_message(GlobalParamId::PadOffBacklight, 0x7F));
}

#[test]
fn raw_global_store_round_trip() {
    let raw = RawGlobal {
        keyboard_channel: 2,
        key_velocity_curve: 1,
        pad_velocity_curve: 3,
        knob_acceleration: 2,
        octave_button_blink: 0,
        pad_off_backlight: 0x7F,
    };
    let mut store = ParamStore::default();
    for message in raw.send_messages() {
        let status = DeviceStatus::try_from(message.as_slice()).unwrap();
        store.apply(&status);
    }
    assert_eq!(store.try_into_raw_global(), Ok(raw));
}
