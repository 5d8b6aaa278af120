use midilab::manufacturer::akai::mpd226::DeviceStatus;
use midilab::manufacturer::akai::mpd226::Global;
use midilab::manufacturer::akai::mpd226::Preset;
use midilab::manufacturer::akai::mpd226::control::value_kind::PadColor;
use midilab::manufacturer::akai::mpd226::control::value_kind::PresetSlot;
use midilab::manufacturer::akai::mpd226::control::value_kind::UsbChannel;
use midilab::manufacturer::akai::mpd226::dump_global_from_device;
use midilab::manufacturer::akai::mpd226::dump_preset_from_device;
use midilab::manufacturer::akai::mpd226::write_global_param_to_device;
use midilab::sim::Mpd226Sim;
use midilab::sim::SimEffect;
use midilab::sim::SimMsg;
use midilab::sysex::Sysex;

fn send(sim: &mut Mpd226Sim, bytes: &[u8]) -> Option<Vec<u8>> {
    let sysex = Sysex::try_from(bytes).unwrap();
    match sim.update(SimMsg::SysexReceived(sysex)) {
        SimEffect::SendSysex(s) => Some(s.as_bytes()),
        SimEffect::Noop => None,
    }
}

#[test]
fn sim_write_then_dump_preset_reads_back() {
    let mut sim = Mpd226Sim::default();
    let mut preset = Preset::default();
    preset.settings.preset_slot = PresetSlot::Slot7;
    preset.pads.pads[3].off_color = PadColor::Aqua;
    preset.dials.0[2].midicc = 99;

    let write = preset.as_sysex_write().as_bytes();
    let ack = send(&mut sim, &write).expect("write is acknowledged");
    match DeviceStatus::try_from(ack.as_slice()).unwrap() {
        DeviceStatus::ReceivedPresetAck(a) => assert_eq!(a.slot, PresetSlot::Slot7),
        _ => panic!("expected a preset acknowledgement"),
    }

    let dump = send(&mut sim, &dump_preset_from_device(7)).expect("dump is answered");
    match DeviceStatus::try_from(dump.as_slice()).unwrap() {
        DeviceStatus::PresetData(p) => {
            assert_eq!(p.settings, preset.settings);
            assert_eq!(p.pads.pads[3].off_color, PadColor::Aqua);
            assert_eq!(p.dials.0[2].midicc, 99);
            assert_eq!(p.as_bytes(), preset.as_bytes());
        }
        _ => panic!("expected preset data"),
    }
}

#[test]
fn sim_write_then_dump_global_reads_back() {
    let mut sim = Mpd226Sim::default();
    let ack = send(&mut sim, &write_global_param_to_device(0x01, 4)).expect("acknowledged");
    match DeviceStatus::try_from(ack.as_slice()).unwrap() {
        DeviceStatus::GlobalParamAck(a) => {
            assert_eq!(u8::from(a.addr), 0x01);
            assert_eq!(a.status, 0);
        }
        _ => panic!("expected a global acknowledgement"),
    }
    let dump = send(&mut sim, &dump_global_from_device()).expect("dump is answered");
    match DeviceStatus::try_from(dump.as_slice()).unwrap() {
        DeviceStatus::GlobalData(g) => {
            let mut expected = Global::default();
            expected.common_channel = UsbChannel::A5;
            assert_eq!(*g, expected);
        }
        _ => panic!("expected global data"),
    }
}

#[test]
fn sim_refuses_unknown_global_value_silently() {
    let mut sim = Mpd226Sim::default();
    // 0x7F is no tap average
    assert!(send(&mut sim, &write_global_param_to_device(0x03, 0x7F)).is_none());
    let dump = send(&mut sim, &dump_global_from_device()).unwrap();
    match DeviceStatus::try_from(dump.as_slice()).unwrap() {
        DeviceStatus::GlobalData(g) => assert_eq!(*g, Global::default()),
        _ => panic!("expected global data"),
    }
}

#[test]
fn sim_ignores_foreign_messages() {
    let mut sim = Mpd226Sim::default();
    assert!(send(&mut sim, &[0xF0, 0x42, 0x30, 0x7D, 0x41, 0xF7]).is_none());
    // unknown command byte
    assert!(send(&mut sim, &[0xF0, 0x47, 0x00, 0x35, 0x77, 0x00, 0x00, 0xF7]).is_none());
}

#[test]
fn sim_dump_of_unknown_slot_is_not_answered() {
    let mut sim = Mpd226Sim::default();
    assert!(send(&mut sim, &dump_preset_from_device(21)).is_none());
    assert!(send(&mut sim, &dump_preset_from_device(20)).is_some());
}
