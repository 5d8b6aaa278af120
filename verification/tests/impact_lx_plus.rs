use midilab::IntoEnumIterator;
use midilab::manufacturer::nektar::impact_lx_plus::DUMP_MESSAGE_COUNT;
use midilab::manufacturer::nektar::impact_lx_plus::DeviceStatus;
use midilab::manufacturer::nektar::impact_lx_plus::DumpAssembler;
use midilab::manufacturer::nektar::impact_lx_plus::dump::DumpIds;
use midilab::manufacturer::nektar::impact_lx_plus::dump::RawDump;
use midilab::manufacturer::nektar::impact_lx_plus::dump::factory_pads;
use midilab::manufacturer::nektar::impact_lx_plus::dump::factory_settings;
use midilab::manufacturer::nektar::impact_lx_plus::error::DeviceStatusParseError;
use midilab::manufacturer::nektar::impact_lx_plus::error::DumpParseError;
use midilab::manufacturer::nektar::impact_lx_plus::global_control_message;
use midilab::manufacturer::nektar::impact_lx_plus::global_setting_message;
use midilab::manufacturer::nektar::impact_lx_plus::pad_message;
use midilab::manufacturer::nektar::impact_lx_plus::preset_control_message;
use midilab::manufacturer::nektar::impact_lx_plus::raw::RawControl;
use midilab::manufacturer::nektar::impact_lx_plus::raw::RawPad;
use midilab::sysex::Sysex;
use midilab::manufacturer::nektar::impact_lx_plus::GlobalSettingId;
use midilab::manufacturer::nektar::impact_lx_plus::ObjectType;
use midilab::manufacturer::nektar::impact_lx_plus::ParamId;
use midilab::manufacturer::nektar::impact_lx_plus::checksum;
use midilab::manufacturer::nektar::impact_lx_plus::is_sysex_port;

const FACTORY_FADER1: [u8; 30] = [
    0xF0, 0x00, 0x01, 0x77, 0x7F, 0x01, 0x01, 0x01, 0x02, 0x01, 0x01, 0x00, 0x00, 0x02, 0x01,
    0x00, 0x00, 0x03, 0x01, 0x49, 0x00, 0x04, 0x01, 0x00, 0x00, 0x05, 0x01, 0x7F, 0x1F, 0xF7,
];

const FACTORY_MIDI_CHANNEL: [u8; 14] = [
    0xF0, 0x00, 0x01, 0x77, 0x7F, 0x01, 0x05, 0x00, 0x01, 0x01, 0x01, 0x01, 0x76, 0xF7,
];

const FACTORY_MOD_WHEEL: [u8; 30] = [
    0xF0, 0x00, 0x01, 0x77, 0x7F, 0x01, 0x05, 0x00, 0x09, 0x01, 0x01, 0x00, 0x00, 0x02, 0x01,
    0x00, 0x00, 0x03, 0x01, 0x01, 0x00, 0x04, 0x01, 0x00, 0x00, 0x05, 0x01, 0x7F, 0x5D, 0xF7,
];

const FACTORY_PAD1: [u8; 34] = [
    0xF0, 0x00, 0x01, 0x77, 0x7F, 0x01, 0x02, 0x01, 0x03, 0x01, 0x01, 0x00, 0x00, 0x02, 0x01,
    0x02, 0x00, 0x03, 0x01, 0x00, 0x00, 0x04, 0x01, 0x00, 0x00, 0x05, 0x01, 0x7F, 0x00, 0x06,
    0x01, 0x24, 0x39, 0xF7,
];

fn stated_checksum(frame: &[u8]) -> (u8, u8) {
    let n = frame.len();
    (checksum(&frame[6..n - 2]), frame[n - 2])
}

#[test]
fn test_global_setting_iter_order_is_dump_order() {
    let order: Vec<u8> = GlobalSettingId::iter().map(u8::from).collect();
    assert_eq!(
        order,
        vec![0x01, 0x04, 0x05, 0x06, 0x07, 0x08, 0x09, 0x10, 0x11, 0x12, 0x0F]
    );
}

#[test]
fn test_is_sysex_port() {
    assert!(is_sysex_port("Impact LX61+ MIDI1"));
    assert!(is_sysex_port("Impact LX49+ MIDI1"));
    assert!(!is_sysex_port("Impact LX61+ MIDI2"));
    assert!(!is_sysex_port("Arturia MiniLab mkII"));
}

#[test]
fn test_is_sysex_port_edges() {
    assert!(is_sysex_port("MIDI1 of Impact LX25+"));
    assert!(!is_sysex_port("Impact L MIDI1"));
    assert!(!is_sysex_port(""));
    assert!(!is_sysex_port("MIDI1"));
}

#[test]
fn test_checksum_of_captured_messages() {
    for frame in [
        &FACTORY_FADER1[..],
        &FACTORY_MIDI_CHANNEL[..],
        &FACTORY_MOD_WHEEL[..],
        &FACTORY_PAD1[..],
    ] {
        let (computed, stated) = stated_checksum(frame);
        assert_eq!(computed, stated);
    }
}

#[test]
fn test_checksum_values() {
    assert_eq!(checksum(&[]), 0x7F);
    assert_eq!(checksum(&[0x05, 0x00, 0x01, 0x01, 0x01, 0x01]), 0x76);
    // the sum wraps modulo 256 before it is complemented
    assert_eq!(checksum(&[0xFF, 0x02]), 0x7E);
    assert_eq!(checksum(&[0x80]), 0x7F);
}

#[test]
fn test_identifier_codes() {
    assert_eq!(u8::from(ObjectType::Global), 0x05);
    assert_eq!(ObjectType::try_from(0x02u8), Ok(ObjectType::Pad));
    assert_eq!(ObjectType::try_from(0x03u8), Err(0x03));
    let params: Vec<u8> = ParamId::iter().map(u8::from).collect();
    assert_eq!(params, vec![1, 2, 3, 4, 5, 6]);
    assert_eq!(DUMP_MESSAGE_COUNT, 5 * 26 + 4 * 8 + 11 + 9);
}

const PRESET1: u8 = 0x01;
const FADER1: u8 = 0x02;
const MOD_WHEEL: u8 = 0x09;
const MAP1: u8 = 0x01;
const PAD1: u8 = 0x03;

#[test]
fn test_preset_control_message_format() {
    let value = RawControl { channel: 0, kind: 0, data1: 73, min: 0, max: 127 };
    let msg = preset_control_message(PRESET1, FADER1, &value);
    assert_eq!(msg, FACTORY_FADER1);
}

#[test]
fn test_global_setting_message_format() {
    let msg = global_setting_message(GlobalSettingId::MidiChannel, 0x01);
    assert_eq!(msg, FACTORY_MIDI_CHANNEL);
}

#[test]
fn test_global_control_message_format() {
    let value = RawControl { channel: 0, kind: 0, data1: 1, min: 0, max: 127 };
    let msg = global_control_message(MOD_WHEEL, &value);
    assert_eq!(msg, FACTORY_MOD_WHEEL);
}

#[test]
fn test_pad_message_format() {
    let value = RawPad { channel: 0, kind: 2, data1: 0, min: 0, max: 127, note: 36 };
    let msg = pad_message(MAP1, PAD1, &value);
    assert_eq!(msg, FACTORY_PAD1);
}

#[test]
fn test_device_status_preset_control_parse() {
    let status = DeviceStatus::try_from(FACTORY_FADER1.as_slice()).unwrap();
    assert_eq!(
        status,
        DeviceStatus::PresetControl {
            preset: PRESET1,
            control: FADER1,
            value: RawControl { channel: 0, kind: 0, data1: 73, min: 0, max: 127 },
        }
    );
}

#[test]
fn test_device_status_global_setting_parse() {
    let status = DeviceStatus::try_from(FACTORY_MIDI_CHANNEL.as_slice()).unwrap();
    assert_eq!(
        status,
        DeviceStatus::GlobalSetting { setting: GlobalSettingId::MidiChannel, value: 0x01 }
    );
}

#[test]
fn test_device_status_pad_parse() {
    let status = DeviceStatus::try_from(FACTORY_PAD1.as_slice()).unwrap();
    assert_eq!(
        status,
        DeviceStatus::Pad {
            map: MAP1,
            pad: PAD1,
            value: RawPad { channel: 0, kind: 2, data1: 0, min: 0, max: 127, note: 36 },
        }
    );
}

#[test]
fn test_device_status_rejects_bad_checksum() {
    let mut bytes = FACTORY_FADER1;
    bytes[28] ^= 0x01;
    assert!(matches!(
        DeviceStatus::try_from(bytes.as_slice()),
        Err(DeviceStatusParseError::ChecksumMismatch { .. })
    ));
}

#[test]
fn impact_lx_plus_test_device_status_rejects_unknown_header() {
    let bytes = [0xF0, 0x47, 0x00, 0x35, 0x24, 0xF7];
    assert!(matches!(
        DeviceStatus::try_from(bytes.as_slice()),
        Err(DeviceStatusParseError::InvalidHeader)
    ));
}

#[test]
fn test_device_status_message_round_trip() {
    let statuses = [
        DeviceStatus::try_from(FACTORY_FADER1.as_slice()).unwrap(),
        DeviceStatus::try_from(FACTORY_MIDI_CHANNEL.as_slice()).unwrap(),
        DeviceStatus::try_from(FACTORY_MOD_WHEEL.as_slice()).unwrap(),
        DeviceStatus::try_from(FACTORY_PAD1.as_slice()).unwrap(),
    ];
    for (status, frame) in statuses.iter().zip([
        &FACTORY_FADER1[..],
        &FACTORY_MIDI_CHANNEL[..],
        &FACTORY_MOD_WHEEL[..],
        &FACTORY_PAD1[..],
    ]) {
        let message = status.message();
        assert_eq!(message, frame);
        let sysex = Sysex::try_from(message.as_slice()).unwrap();
        assert_eq!(DeviceStatus::try_from(sysex).unwrap(), *status);
    }
}

#[test]
fn impact_lx_plus_device_status_error_kinds() {
    let frame = |payload: &[u8]| {
        let mut bytes = vec![0xF0];
        bytes.extend_from_slice(payload);
        bytes.push(0xF7);
        bytes
    };
    let with_checksum = |body: &[u8]| {
        let mut payload = vec![0x00, 0x01, 0x77, 0x7F, 0x01];
        payload.extend_from_slice(body);
        payload.push(checksum(body));
        frame(&payload)
    };
    assert_eq!(
        DeviceStatus::try_from(frame(&[0x00, 0x01, 0x77, 0x7F, 0x01, 0x01]).as_slice()),
        Err(DeviceStatusParseError::InvalidLength(6))
    );
    assert_eq!(
        DeviceStatus::try_from(with_checksum(&[0x03, 0x01, 0x02, 0x01, 0x01, 0x00]).as_slice()),
        Err(DeviceStatusParseError::InvalidObjectType(0x03))
    );
    assert_eq!(
        DeviceStatus::try_from(with_checksum(&[0x01, 0x01, 0x02, 0x01, 0x02, 0x00]).as_slice()),
        Err(DeviceStatusParseError::InvalidParamLength(0x02))
    );
    assert_eq!(
        DeviceStatus::try_from(with_checksum(&[0x01, 0x01, 0x02, 0x01, 0x01, 0x00, 0x00, 0x02]).as_slice()),
        Err(DeviceStatusParseError::InvalidTlv)
    );
    assert_eq!(
        DeviceStatus::try_from(with_checksum(&[0x01, 0x01, 0x02, 0x01, 0x01, 0x00]).as_slice()),
        Err(DeviceStatusParseError::MissingParam(0x02))
    );
    assert_eq!(
        DeviceStatus::try_from(with_checksum(&[0x05, 0x02, 0x01, 0x01, 0x01, 0x01]).as_slice()),
        Err(DeviceStatusParseError::InvalidSection(0x02))
    );
    assert_eq!(
        DeviceStatus::try_from(with_checksum(&[0x05, 0x00, 0x01, 0x02, 0x01, 0x01]).as_slice()),
        Err(DeviceStatusParseError::InvalidSettingId(0x02))
    );
    assert_eq!(
        DeviceStatus::try_from(
            with_checksum(&[0x05, 0x00, 0x01, 0x01, 0x01, 0x01, 0x00, 0x04, 0x01, 0x01]).as_slice()
        ),
        Err(DeviceStatusParseError::InvalidTlv)
    );
}

#[test]
fn dump_assembler_collects_in_any_order() {
    let statuses: Vec<DeviceStatus> = [
        &FACTORY_FADER1[..],
        &FACTORY_MIDI_CHANNEL[..],
        &FACTORY_MOD_WHEEL[..],
        &FACTORY_PAD1[..],
    ]
    .iter()
    .map(|frame| DeviceStatus::try_from(*frame).unwrap())
    .collect();

    let mut forward = DumpAssembler::default();
    assert!(forward.is_empty());
    for status in &statuses {
        forward.apply(status);
    }
    let mut backward = DumpAssembler::default();
    for status in statuses.iter().rev() {
        backward.apply(status);
    }
    assert_eq!(forward.len(), 4);
    assert_eq!(backward.len(), 4);
    assert!(!forward.is_complete());

    // the same object again replaces the earlier value
    forward.apply(&statuses[0]);
    assert_eq!(forward.len(), 4);
    assert!(!forward.is_empty());
}

// Ids for the dump tests: preset 1, fader 1, pad map 1, pad 1 and the mod
// wheel carry the ids of the captured messages; the others are chosen here.
fn sample_ids() -> DumpIds {
    DumpIds {
        presets: [1, 2, 3, 4, 5],
        preset_controls: std::array::from_fn(|i| 2 + i as u8),
        pad_maps: [1, 2, 3, 4],
        pads: std::array::from_fn(|i| 3 + i as u8),
        global_controls: [2, 3, 4, 5, 6, 7, 8, 9, 10],
    }
}

fn sample_dump() -> RawDump {
    let mut preset_controls = [RawControl { channel: 0, kind: 0, data1: 0, min: 0, max: 127 }; 130];
    for (i, control) in preset_controls.iter_mut().enumerate() {
        control.channel = (i % 17) as u8;
        control.data1 = i as u8;
    }
    preset_controls[0].data1 = 73;
    let mut global_controls = [RawControl { channel: 16, kind: 1, data1: 102, min: 0, max: 127 }; 9];
    global_controls[7] = RawControl { channel: 0, kind: 0, data1: 1, min: 0, max: 127 };
    RawDump { preset_controls, pads: factory_pads(), settings: factory_settings(), global_controls }
}

#[test]
fn raw_dump_messages_replay_into_the_same_dump() {
    let ids = sample_ids();
    let dump = sample_dump();
    let messages = dump.to_messages(&ids);
    assert_eq!(messages.len(), DUMP_MESSAGE_COUNT);
    assert_eq!(messages[0], FACTORY_FADER1);
    assert_eq!(messages[130], FACTORY_PAD1);
    assert_eq!(messages[162], FACTORY_MIDI_CHANNEL);
    assert_eq!(messages[180], FACTORY_MOD_WHEEL);

    let mut assembler = DumpAssembler::default();
    assert!(assembler.is_empty());
    for message in &messages {
        let status = DeviceStatus::try_from(message.as_slice()).unwrap();
        assert_eq!(&status.message(), message);
        assembler.apply(&status);
    }
    assert_eq!(assembler.len(), DUMP_MESSAGE_COUNT);
    assert!(assembler.is_complete());
    assert_eq!(assembler.try_into_raw_dump(&ids), Ok(dump));
}

#[test]
fn raw_dump_read_names_the_first_missing_object() {
    let ids = sample_ids();
    let empty = DumpAssembler::default();
    assert!(!empty.is_complete());
    assert_eq!(
        empty.try_into_raw_dump(&ids),
        Err(DumpParseError::MissingPresetControl { preset: 1, control: 2 })
    );

    let messages = sample_dump().to_messages(&ids);
    let mut assembler = DumpAssembler::default();
    for (index, message) in messages.iter().enumerate() {
        if index != 140 && index != 170 {
            assembler.apply(&DeviceStatus::try_from(message.as_slice()).unwrap());
        }
    }
    assert_eq!(assembler.try_into_raw_dump(&ids), Err(DumpParseError::MissingPad { map: 2, pad: 5 }));

    let mut assembler = DumpAssembler::default();
    for (index, message) in messages.iter().enumerate() {
        if index != 170 {
            assembler.apply(&DeviceStatus::try_from(message.as_slice()).unwrap());
        }
    }
    assert_eq!(assembler.try_into_raw_dump(&ids), Err(DumpParseError::MissingSetting { setting: 0x11 }));
}

#[test]
fn factory_pad_maps_and_settings() {
    let pads = factory_pads();
    assert_eq!(pad_message(1, 3, &pads[0]), FACTORY_PAD1);
    assert_eq!(pads[16].note, 60);
    assert_eq!(pads[31].note, 49);
    let settings = factory_settings();
    assert_eq!(global_setting_message(GlobalSettingId::MidiChannel, settings[0]), FACTORY_MIDI_CHANNEL);
    assert_eq!(settings, [1, 0, 0, 0, 1, 1, 0, 1, 0, 0, 0]);
}
