use midilab::manufacturer::korg::r3::DeviceStatusId;
use midilab::manufacturer::korg::r3::KorgR3Message;
use midilab::manufacturer::korg::r3::ParseError;
use midilab::manufacturer::korg::r3::current_program_dump_message;
use midilab::manufacturer::korg::r3::current_program_dump_request;
use midilab::manufacturer::korg::r3::current_formant_motion_dump_message;
use midilab::manufacturer::korg::r3::formant_motion_dump_message;
use midilab::manufacturer::korg::r3::formant_motion_dump_request;
use midilab::manufacturer::korg::r3::global_dump_message;
use midilab::manufacturer::korg::r3::global_dump_request;
use midilab::manufacturer::korg::r3::parameter_change_message;
use midilab::manufacturer::korg::r3::parse_formant_payload;
use midilab::manufacturer::korg::r3::program_dump_message;
use midilab::manufacturer::korg::r3::program_dump_request;
use midilab::manufacturer::korg::r3::program_write_request;
use midilab::manufacturer::korg::r3::raw::RawFormantStep;
use midilab::manufacturer::korg::r3::raw::RawGlobal;
use midilab::manufacturer::korg::r3::raw::RawProgram;
use midilab::manufacturer::korg::r3::sysex_header;
use midilab::sysex::Sysex;
use midilab::sysex::pack_u7;
use midilab::sysex::unpack_u14;
use midilab::sysex::unpack_u7;



#[test]
fn test_sysex_header_format() {
    let header = sysex_header(0x05, 0x10);
    assert_eq!(header, vec![0x42, 0x35, 0x7D, 0x10]);
}

#[test]
fn test_sysex_header_channel_masking() {
    let header = sysex_header(0xFF, 0x10);
    assert_eq!(header[1], 0x3F);
}

#[test]
fn test_current_program_dump_request_format() {
    let msg = current_program_dump_request(0x00);
    assert_eq!(msg[0], 0xF0);
    assert_eq!(msg[1], 0x42);
    assert_eq!(msg[2], 0x30);
    assert_eq!(msg[3], 0x7D);
    assert_eq!(msg[4], 0x10);
    assert_eq!(msg[5], 0xF7);
    assert_eq!(msg.len(), 6);
}

#[test]
fn test_program_dump_request_format() {
    let msg = program_dump_request(0x00, 0);
    assert_eq!(msg[0], 0xF0);
    assert_eq!(msg[1], 0x42);
    assert_eq!(msg[2], 0x30);
    assert_eq!(msg[3], 0x7D);
    assert_eq!(msg[4], 0x1C);
    assert_eq!(msg[5], 0x00);
    assert_eq!(msg[6], 0x00);
    assert_eq!(msg[7], 0xF7);
}

#[test]
fn test_program_dump_request_program_number() {
    let msg = program_dump_request(0x00, 128);
    assert_eq!(msg[5], 0x00);
    assert_eq!(msg[6], 0x01);
}

#[test]
fn r3_test_global_dump_request_format() {
    let msg = global_dump_request(0x00);
    assert_eq!(msg[0], 0xF0);
    assert_eq!(msg[1], 0x42);
    assert_eq!(msg[2], 0x30);
    assert_eq!(msg[3], 0x7D);
    assert_eq!(msg[4], 0x0E);
    assert_eq!(msg[5], 0xF7);
}

#[test]
fn test_formant_motion_dump_request_format() {
    let msg = formant_motion_dump_request(0x00, 3);
    assert_eq!(msg[0], 0xF0);
    assert_eq!(msg[1], 0x42);
    assert_eq!(msg[2], 0x30);
    assert_eq!(msg[3], 0x7D);
    assert_eq!(msg[4], 0x18);
    assert_eq!(msg[5], 3);
    assert_eq!(msg[6], 0x00);
    assert_eq!(msg[7], 0xF7);
}

#[test]
fn test_program_write_request_format() {
    let msg = program_write_request(0x00, 5);
    assert_eq!(msg[0], 0xF0);
    assert_eq!(msg[1], 0x42);
    assert_eq!(msg[2], 0x30);
    assert_eq!(msg[3], 0x7D);
    assert_eq!(msg[4], 0x11);
    assert_eq!(msg[5], 0x05);
    assert_eq!(msg[6], 0x00);
    assert_eq!(msg[7], 0xF7);
}

#[test]
fn test_parameter_change_message_format() {
    let msg = parameter_change_message(0x00, 0x01, 0x02, 0x03);
    assert_eq!(msg[0], 0xF0);
    assert_eq!(msg[1], 0x42);
    assert_eq!(msg[2], 0x30);
    assert_eq!(msg[3], 0x7D);
    assert_eq!(msg[4], 0x41);
    assert_eq!(msg[5], 0x01);
    assert_eq!(msg[6], 0x00);
    assert_eq!(msg[7], 0x02);
    assert_eq!(msg[8], 0x00);
    assert_eq!(msg[9], 0x03);
    assert_eq!(msg[10], 0x00);
    assert_eq!(msg[11], 0xF7);
}

#[test]
fn test_current_program_dump_message_starts_correctly() {
    let program = RawProgram::zeroed();
    let msg = current_program_dump_message(0x00, &program);

    assert_eq!(msg[0], 0xF0);
    assert_eq!(msg[1], 0x42);
    assert_eq!(msg[2], 0x30);
    assert_eq!(msg[3], 0x7D);
    assert_eq!(msg[4], 0x40);
    assert_eq!(*msg.last().unwrap(), 0xF7);
}

#[test]
fn test_program_dump_packed_size() {
    let program = RawProgram::zeroed();
    let packed = pack_u7(&program.as_bytes());
    assert_eq!(packed.len(), 522);
}

#[test]
fn test_global_dump_packed_size() {
    let global = RawGlobal::zeroed();
    let packed = pack_u7(&global.as_bytes());
    assert_eq!(packed.len(), 92);
}

#[test]
fn test_program_round_trip() {
    let mut program = RawProgram::zeroed();
    program.name = *b"TestProg";
    program.voice_arp = 0x42;
    program.timbre1.program.osc1_wave_mod = 3;
    program.timbre2.program.filter1_cutoff = 100;
    program.vocoder.threshold = 50;
    program.master_fx.fx_type = 2;
    program.arpeggio.gate_time = 80;

    let packed = pack_u7(&program.as_bytes());
    let unpacked = unpack_u7(&packed);

    assert!(unpacked.len() >= RawProgram::SIZE);
    let restored = RawProgram::from_bytes(&unpacked[..RawProgram::SIZE]);

    assert_eq!(restored.name, *b"TestProg");
    assert_eq!(restored.voice_arp, 0x42);
    assert_eq!(restored.timbre1.program.osc1_wave_mod, 3);
    assert_eq!(restored.timbre2.program.filter1_cutoff, 100);
    assert_eq!(restored.vocoder.threshold, 50);
    assert_eq!(restored.master_fx.fx_type, 2);
    assert_eq!(restored.arpeggio.gate_time, 80);
}

#[test]
fn test_global_round_trip() {
    let mut global = RawGlobal::zeroed();
    global.master_tune = 64;
    global.transpose = 12;
    global.midi_channel = 5;
    global.vel_curve = 2;
    global.cc_map_lo[0] = 74;

    let packed = pack_u7(&global.as_bytes());
    let unpacked = unpack_u7(&packed);

    assert!(unpacked.len() >= RawGlobal::SIZE);
    let restored = RawGlobal::from_bytes(&unpacked[..RawGlobal::SIZE]);

    assert_eq!(restored.master_tune, 64);
    assert_eq!(restored.transpose, 12);
    assert_eq!(restored.midi_channel, 5);
    assert_eq!(restored.vel_curve, 2);
    assert_eq!(restored.cc_map_lo[0], 74);
}

#[test]
fn test_pack_u7_known_vector() {
    let input = [0x80, 0x00, 0x81, 0x00, 0x00, 0x00, 0x00];
    let packed = pack_u7(&input);

    assert_eq!(packed.len(), 8);
    assert_eq!(packed[0], 0x05);
    assert_eq!(packed[1], 0x00);
    assert_eq!(packed[2], 0x00);
    assert_eq!(packed[3], 0x01);
    assert_eq!(packed[4], 0x00);
    assert_eq!(packed[5], 0x00);
    assert_eq!(packed[6], 0x00);
    assert_eq!(packed[7], 0x00);

    let unpacked = unpack_u7(&packed);
    assert_eq!(unpacked, input);
}

#[test]
fn test_parse_current_program_dump() {
    let mut program = RawProgram::zeroed();
    program.name = *b"ParseTst";

    let msg = current_program_dump_message(0x00, &program);
    let parsed = KorgR3Message::try_from(msg.as_slice()).unwrap();

    match parsed {
        KorgR3Message::CurrentProgramDump(p) => {
            assert_eq!(p.name, *b"ParseTst");
        }
        _ => panic!("expected CurrentProgramDump"),
    }
}

#[test]
fn test_parse_program_dump() {
    let mut program = RawProgram::zeroed();
    program.name = *b"SlotTest";

    let msg = program_dump_message(0x00, 42, &program);
    let parsed = KorgR3Message::try_from(msg.as_slice()).unwrap();

    match parsed {
        KorgR3Message::ProgramDump {
            program_no,
            program: p,
        } => {
            assert_eq!(program_no, 42);
            assert_eq!(p.name, *b"SlotTest");
        }
        _ => panic!("expected ProgramDump"),
    }
}

#[test]
fn test_parse_global_dump() {
    let mut global = RawGlobal::zeroed();
    global.master_tune = 64;
    global.transpose = 12;

    let msg = global_dump_message(0x00, &global);
    let parsed = KorgR3Message::try_from(msg.as_slice()).unwrap();

    match parsed {
        KorgR3Message::GlobalDump(g) => {
            assert_eq!(g.master_tune, 64);
            assert_eq!(g.transpose, 12);
        }
        _ => panic!("expected GlobalDump"),
    }
}

#[test]
fn test_parse_parameter_change() {
    let msg = parameter_change_message(0x00, 0x100, 0x02, 0x7F);
    let parsed = KorgR3Message::try_from(msg.as_slice()).unwrap();

    match parsed {
        KorgR3Message::ParameterChange(raw) => {
            let param = unpack_u14([raw.param_id[1], raw.param_id[0]]);
            let sub = unpack_u14([raw.sub_id[1], raw.sub_id[0]]);
            let val = unpack_u14([raw.value[1], raw.value[0]]);
            assert_eq!(param, 0x100);
            assert_eq!(sub, 0x02);
            assert_eq!(val, 0x7F);
        }
        _ => panic!("expected ParameterChange"),
    }
}

#[test]
fn test_parse_status_messages() {
    for (func_id, expected_name) in [
        (DeviceStatusId::DataLoadCompleted, "DataLoadCompleted"),
        (DeviceStatusId::DataLoadError, "DataLoadError"),
        (DeviceStatusId::WriteCompleted, "WriteCompleted"),
        (DeviceStatusId::WriteError, "WriteError"),
        (DeviceStatusId::DataFormatError, "DataFormatError"),
    ] {
        let payload = sysex_header(0x00, func_id.into());
        let msg = Sysex::new(payload).as_bytes();
        let parsed = KorgR3Message::try_from(msg.as_slice()).unwrap();

        let name = format!("{parsed:?}");
        assert!(
            name.contains(expected_name),
            "expected {expected_name} in {name}"
        );
    }
}

#[test]
fn test_parse_invalid_manufacturer() {
    let data = vec![0xF0, 0x43, 0x30, 0x7D, 0x40, 0xF7];
    let err = KorgR3Message::try_from(data.as_slice()).unwrap_err();
    assert!(matches!(err, ParseError::InvalidManufacturer(0x43)));
}

#[test]
fn test_parse_invalid_device() {
    let data = vec![0xF0, 0x42, 0x30, 0x7E, 0x40, 0xF7];
    let err = KorgR3Message::try_from(data.as_slice()).unwrap_err();
    assert!(matches!(err, ParseError::InvalidDevice(0x7E)));
}

#[test]
fn test_parse_unknown_function() {
    let data = vec![0xF0, 0x42, 0x30, 0x7D, 0x7F, 0xF7];
    let err = KorgR3Message::try_from(data.as_slice()).unwrap_err();
    assert!(matches!(err, ParseError::UnknownFunction(0x7F)));
}

#[test]
fn test_parse_formant_payload_short_no_panic() {
    let (size, steps) = parse_formant_payload(&[0x00, 0x01]);
    assert_eq!(steps.len(), 0);
    assert_eq!(size, 0);
}

#[test]
fn test_parse_empty_formant_dump_no_panic() {
    let payload = sysex_header(0x00, DeviceStatusId::CurrentFormantMotionDump.into());
    let msg = Sysex::new(payload).as_bytes();
    match KorgR3Message::try_from(msg.as_slice()).unwrap() {
        KorgR3Message::CurrentFormantMotionDump { steps, .. } => assert!(steps.is_empty()),
        other => panic!("expected CurrentFormantMotionDump, got {other:?}"),
    }
}

#[test]
fn test_parse_too_short() {
    let data = vec![0xF0, 0x42, 0x30, 0xF7];
    let err = KorgR3Message::try_from(data.as_slice()).unwrap_err();
    assert!(matches!(err, ParseError::TooShort(_)));
}

#[test]
fn test_program_full_round_trip_via_sysex() {
    let mut program = RawProgram::zeroed();
    program.name = *b"FullTrip";
    program.timbre1.program.filter1_cutoff = 127;
    program.timbre2.insert_fx.fx1_params[0] = 64;
    program.vocoder.bands[15] = 100;
    program.tempo = [120, 0];
    program.arp_flags = 0x80;

    let msg = current_program_dump_message(0x05, &program);

    assert_eq!(msg[1], 0x42);
    assert_eq!(msg[2], 0x35);
    let parsed = KorgR3Message::try_from(msg.as_slice()).unwrap();
    match parsed {
        KorgR3Message::CurrentProgramDump(p) => {
            assert_eq!(p.name, *b"FullTrip");
            assert_eq!(p.timbre1.program.filter1_cutoff, 127);
            assert_eq!(p.timbre2.insert_fx.fx1_params[0], 64);
            assert_eq!(p.vocoder.bands[15], 100);
            assert_eq!(p.tempo, [120, 0]);
            assert_eq!(p.arp_flags, 0x80);
        }
        _ => panic!("expected CurrentProgramDump"),
    }
}

#[test]
fn test_global_full_round_trip_via_sysex() {
    let mut global = RawGlobal::zeroed();
    global.master_tune = 64;
    global.transpose = 12;
    global.flags_2 = 0x88;
    global.vel_curve = 3;
    global.midi_channel = 9;
    global.filters = 0x39;
    global.cc_map_lo[0] = 74;
    global.cc_map_hi[2] = 127;

    let msg = global_dump_message(0x0A, &global);

    assert_eq!(msg[1], 0x42);
    assert_eq!(msg[2], 0x3A);
    let parsed = KorgR3Message::try_from(msg.as_slice()).unwrap();
    match parsed {
        KorgR3Message::GlobalDump(g) => {
            assert_eq!(g.master_tune, 64);
            assert_eq!(g.transpose, 12);
            assert_eq!(g.flags_2, 0x88);
            assert_eq!(g.vel_curve, 3);
            assert_eq!(g.midi_channel, 9);
            assert_eq!(g.filters, 0x39);
            assert_eq!(g.cc_map_lo[0], 74);
            assert_eq!(g.cc_map_hi[2], 127);
        }
        _ => panic!("expected GlobalDump"),
    }
}

#[test]
fn test_current_formant_motion_dump_message_roundtrip() {
    let mut steps = vec![RawFormantStep::zeroed(); 3];
    steps[0].bands[0] = 0xFF;
    steps[1].bands[5] = 0x80;
    steps[2].bands[15] = 0x7F;

    let msg = current_formant_motion_dump_message(0x00, &steps);
    let parsed = KorgR3Message::try_from(msg.as_slice()).unwrap();

    match parsed {
        KorgR3Message::CurrentFormantMotionDump { size, steps: out } => {
            assert_eq!(size, 3);
            assert_eq!(out.len(), 3);
            assert_eq!(out[0].bands[0], 0xFF);
            assert_eq!(out[1].bands[5], 0x80);
            assert_eq!(out[2].bands[15], 0x7F);
        }
        _ => panic!("expected CurrentFormantMotionDump"),
    }
}

#[test]
fn test_formant_motion_dump_message_roundtrip() {
    let mut steps = vec![RawFormantStep::zeroed(); 3];
    steps[0].bands[0] = 0xFF;
    steps[1].bands[5] = 0x80;
    steps[2].bands[15] = 0x7F;

    let msg = formant_motion_dump_message(0x00, 5, &steps);
    let parsed = KorgR3Message::try_from(msg.as_slice()).unwrap();

    match parsed {
        KorgR3Message::FormantMotionDump {
            motion_no,
            size,
            steps: out,
        } => {
            assert_eq!(motion_no, 5);
            assert_eq!(size, 3);
            assert_eq!(out.len(), 3);
            assert_eq!(out[0].bands[0], 0xFF);
            assert_eq!(out[1].bands[5], 0x80);
            assert_eq!(out[2].bands[15], 0x7F);
        }
        _ => panic!("expected FormantMotionDump"),
    }
}
