use midilab::manufacturer::akai::SYSEX_MANUFACTURER_ID;
use midilab::manufacturer::akai::mpd226::DEVICE_ID;
use midilab::manufacturer::akai::mpd226::DeviceCommandId;
use midilab::manufacturer::akai::mpd226::TOTAL_PADS;
use midilab::manufacturer::akai::mpd226::dump_preset_from_device;
use midilab::manufacturer::akai::mpd226::raw::RawDial;
use midilab::manufacturer::akai::mpd226::raw::RawDials;
use midilab::manufacturer::akai::mpd226::raw::RawFader;
use midilab::manufacturer::akai::mpd226::raw::RawFaders;
use midilab::manufacturer::akai::mpd226::raw::RawGlobal;
use midilab::manufacturer::akai::mpd226::raw::RawHeader;
use midilab::manufacturer::akai::mpd226::raw::RawPad;
use midilab::manufacturer::akai::mpd226::raw::RawPads;
use midilab::manufacturer::akai::mpd226::raw::RawPreset;
use midilab::manufacturer::akai::mpd226::raw::RawPresetAck;
use midilab::manufacturer::akai::mpd226::raw::RawPresetSettings;
use midilab::manufacturer::akai::mpd226::raw::RawSwitch;
use midilab::manufacturer::akai::mpd226::raw::RawSwitches;

#[test]
fn test_raw_header_size() {
    assert_eq!(std::mem::size_of::<RawHeader>(), 6);
}

#[test]
fn test_raw_preset_settings_data_size() {
    assert_eq!(std::mem::size_of::<RawPresetSettings>(), 23);
}

#[test]
fn raw_test_raw_pad_size() {
    assert_eq!(std::mem::size_of::<RawPad>(), 11);
}

#[test]
fn test_raw_dial_size() {
    assert_eq!(std::mem::size_of::<RawDial>(), 9);
}

#[test]
fn test_raw_fader_size() {
    assert_eq!(std::mem::size_of::<RawFader>(), 6);
}

#[test]
fn test_raw_switch_size() {
    assert_eq!(std::mem::size_of::<RawSwitch>(), 13);
}

#[test]
fn raw_test_raw_preset_size() {
    assert_eq!(std::mem::size_of::<RawPreset>(), 1075);
}

#[test]
fn test_raw_pads_array_size() {
    assert_eq!(std::mem::size_of::<RawPads>(), 11 * TOTAL_PADS);
}

#[test]
fn test_raw_dials_array_size() {
    assert_eq!(std::mem::size_of::<RawDials>(), 9 * 12);
}

#[test]
fn test_raw_faders_array_size() {
    assert_eq!(std::mem::size_of::<RawFaders>(), 6 * 12);
}

#[test]
fn test_raw_switches_array_size() {
    assert_eq!(std::mem::size_of::<RawSwitches>(), 13 * 12);
}

#[test]
fn test_raw_header_fields() {
    let header = RawHeader {
        mfg_id: 0x47,
        _unknown: 0x00,
        device_id: 0x35,
        cmd: 0x10,
        length: [0x08, 0x33],
    };

    assert_eq!(header.mfg_id, 0x47);
    assert_eq!(header._unknown, 0x00);
    assert_eq!(header.device_id, 0x35);
    assert_eq!(header.cmd, 0x10);
}

#[test]
fn test_raw_preset_settings_data_fields() {
    let preset_settings = RawPresetSettings {
        preset: 5,
        name: *b"MyPreset",
        un1: 0,
        tempo: [1, 64],
        time_division_switch: 1,
        division: 2,
        note_repeat_switch: 0,
        gate: 75,
        swing: 56,
        un5: 0,
        un6: 0,
        un7: 0,
        un8: 0,
        un9: 0,
        transport: 2,
    };

    assert_eq!(preset_settings.preset, 5);
    assert_eq!(&preset_settings.name, b"MyPreset");
    assert_eq!(preset_settings.gate, 75);
    assert_eq!(preset_settings.swing, 56);
}

#[test]
fn test_preset_dump_request_ram() {
    let request = dump_preset_from_device(0x00);

    assert_eq!(request.len(), 9);
    assert_eq!(request[0], 0xF0);
    assert_eq!(request[1], 0x47);
    assert_eq!(request[2], 0x00);
    assert_eq!(request[3], 0x35);
    assert_eq!(request[4], u8::from(DeviceCommandId::DumpPreset));
    assert_eq!(request[5], 0x00);
    assert_eq!(request[6], 0x01);
    assert_eq!(request[7], 0x00);
    assert_eq!(request[8], 0xF7);
}

#[test]
fn test_preset_dump_request_slot_0() {
    let request = dump_preset_from_device(0x00);

    assert_eq!(request.len(), 9);
    assert_eq!(request[7], 0x00);
}

#[test]
fn test_raw_global_size() {
    assert_eq!(std::mem::size_of::<RawGlobal>(), 11);
}

#[test]
fn test_raw_preset_ack_size() {
    assert_eq!(std::mem::size_of::<RawPresetAck>(), 2);
}

#[test]
fn test_raw_preset_ack_slot_is_byte_0() {
    let bytes = [0x00u8, 0x01u8];
    let ack: &RawPresetAck = &RawPresetAck::from_bytes(&bytes);
    assert_eq!(ack.slot, 0);
    assert_eq!(ack._unknown1, 1);
}

#[test]
fn test_raw_header_write_preset() {
    let header = RawHeader::write_preset();
    assert_eq!(header.mfg_id, SYSEX_MANUFACTURER_ID);
    assert_eq!(header._unknown, 0);
    assert_eq!(header.device_id, DEVICE_ID);
    assert_eq!(header.cmd, u8::from(DeviceCommandId::WritePreset));
    // 1075 (RawPreset size) encoded as MIDI 14-bit: high 7 bits = 0x08, low 7 bits = 0x33
    assert_eq!(header.length, 0x3308_u16.to_le_bytes());
}

#[test]
fn test_raw_header_dump_preset() {
    let header = RawHeader::dump_preset();
    assert_eq!(header.mfg_id, SYSEX_MANUFACTURER_ID);
    assert_eq!(header._unknown, 0);
    assert_eq!(header.device_id, DEVICE_ID);
    assert_eq!(header.cmd, u8::from(DeviceCommandId::DumpPreset));
    assert_eq!(header.length, 0x0100_u16.to_le_bytes());
}
