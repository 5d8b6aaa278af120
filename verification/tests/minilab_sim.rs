use midilab::manufacturer::arturia::minilab_mk2::DeviceStatus;
use midilab::manufacturer::arturia::minilab_mk2::GlobalParamId;
use midilab::manufacturer::arturia::minilab_mk2::ParamId;
use midilab::manufacturer::arturia::minilab_mk2::ParamStore;
use midilab::manufacturer::arturia::minilab_mk2::control::ControlId;
use midilab::manufacturer::arturia::minilab_mk2::control::value_kind::MemorySlot;
use midilab::manufacturer::arturia::minilab_mk2::recall_memory_message;
use midilab::manufacturer::arturia::minilab_mk2::store_memory_message;
use midilab::manufacturer::arturia::minilab_mk2::identity_request_message;
use midilab::manufacturer::arturia::minilab_mk2::read_global_message;
use midilab::manufacturer::arturia::minilab_mk2::read_param_message;
use midilab::manufacturer::arturia::minilab_mk2::write_global_message;
use midilab::manufacturer::arturia::minilab_mk2::write_param_message;
use midilab::sim::minilab_mk2::MinilabMk2Sim;
use midilab::sim::minilab_mk2::SimEffect;
use midilab::sim::minilab_mk2::SimMsg;
use midilab::sysex::Sysex;

fn sim_request(sim: &mut MinilabMk2Sim, message: Vec<u8>) -> SimEffect {
    let sysex = Sysex::try_from(message.as_slice()).unwrap();
    sim.update(SimMsg::SysexReceived(sysex))
}

fn expect_status(effect: SimEffect) -> DeviceStatus {
    match effect {
        SimEffect::SendSysex(s) => DeviceStatus::try_from(s).unwrap(),
        SimEffect::Noop => panic!("expected SendSysex"),
    }
}

fn seeded_sim() -> MinilabMk2Sim {
    let mut store = ParamStore::default();
    store.set(0x03, 0x30, 102);
    MinilabMk2Sim::new(store)
}

fn command(body: &[u8]) -> Vec<u8> {
    let mut bytes = vec![0xF0, 0x00, 0x20, 0x6B, 0x7F, 0x42];
    bytes.extend_from_slice(body);
    bytes.push(0xF7);
    bytes
}

#[test]
fn sim_answers_identity_request() {
    let mut sim = seeded_sim();
    let status = expect_status(sim_request(&mut sim, identity_request_message()));
    match status {
        DeviceStatus::IdentityReply(reply) => assert_eq!(reply.firmware, [0x01, 0x00, 0x02, 0x05]),
        _ => panic!("expected IdentityReply"),
    }
}

#[test]
fn sim_reads_seeded_param() {
    let mut sim = seeded_sim();
    let status = expect_status(sim_request(
        &mut sim,
        read_param_message(ParamId::Data1, ControlId::Knob1),
    ));
    match status {
        DeviceStatus::ParamValue(pv) => {
            assert_eq!(pv.param, ParamId::Data1);
            assert_eq!(pv.control, ControlId::Knob1);
            assert_eq!(pv.value, 102);
        }
        _ => panic!("expected ParamValue"),
    }
}

#[test]
fn sim_write_then_read_param() {
    let mut sim = seeded_sim();
    let effect = sim_request(&mut sim, write_param_message(ParamId::PadColor, ControlId::Pad3, 0x11));
    assert!(matches!(effect, SimEffect::Noop));

    let status = expect_status(sim_request(
        &mut sim,
        read_param_message(ParamId::PadColor, ControlId::Pad3),
    ));
    match status {
        DeviceStatus::ParamValue(pv) => assert_eq!(pv.value, 0x11),
        _ => panic!("expected ParamValue"),
    }
}

#[test]
fn sim_global_round_trip() {
    let mut sim = seeded_sim();
    let effect = sim_request(&mut sim, write_global_message(GlobalParamId::KnobAcceleration, 2));
    assert!(matches!(effect, SimEffect::Noop));
    let status = expect_status(sim_request(
        &mut sim,
        read_global_message(GlobalParamId::KnobAcceleration),
    ));
    assert_eq!(
        status,
        DeviceStatus::GlobalValue(midilab::manufacturer::arturia::minilab_mk2::GlobalValue {
            param: GlobalParamId::KnobAcceleration,
            value: 2,
        })
    );
}

#[test]
fn sim_store_and_recall_memory() {
    let mut sim = seeded_sim();
    sim_request(&mut sim, write_param_message(ParamId::Data1, ControlId::Knob2, 11));
    assert!(matches!(sim_request(&mut sim, store_memory_message(MemorySlot::Slot3)), SimEffect::Noop));
    sim_request(&mut sim, write_param_message(ParamId::Data1, ControlId::Knob2, 22));

    let read = || read_param_message(ParamId::Data1, ControlId::Knob2);
    match expect_status(sim_request(&mut sim, read())) {
        DeviceStatus::ParamValue(pv) => assert_eq!(pv.value, 22),
        _ => panic!("expected ParamValue"),
    }

    assert!(matches!(sim_request(&mut sim, recall_memory_message(MemorySlot::Slot3)), SimEffect::Noop));
    match expect_status(sim_request(&mut sim, read())) {
        DeviceStatus::ParamValue(pv) => assert_eq!(pv.value, 11),
        _ => panic!("expected ParamValue"),
    }

    // memory 1 still holds the seeded parameters
    sim_request(&mut sim, recall_memory_message(MemorySlot::Slot1));
    assert!(matches!(sim_request(&mut sim, read()), SimEffect::Noop));
}

#[test]
fn sim_ignores_what_it_cannot_take() {
    let mut sim = seeded_sim();
    // unknown param
    assert!(matches!(
        sim_request(&mut sim, read_param_message(ParamId::Mode, ControlId::Pad1)),
        SimEffect::Noop
    ));
    // memory slots outside 1 ..= 8
    assert!(matches!(sim_request(&mut sim, command(&[0x05, 0x00])), SimEffect::Noop));
    assert!(matches!(sim_request(&mut sim, command(&[0x06, 0x09])), SimEffect::Noop));
    // unknown op, empty body, foreign header
    assert!(matches!(sim_request(&mut sim, command(&[0x03, 0x00])), SimEffect::Noop));
    assert!(matches!(sim_request(&mut sim, command(&[])), SimEffect::Noop));
    assert!(matches!(
        sim_request(&mut sim, vec![0xF0, 0x47, 0x00, 0x35, 0xF7]),
        SimEffect::Noop
    ));
    assert_eq!(sim.working.len(), 1);
}
