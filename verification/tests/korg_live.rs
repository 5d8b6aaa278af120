use midilab::manufacturer::korg::r3::KorgR3Message;
use midilab::manufacturer::korg::r3::live::LiveParam;
use midilab::manufacturer::korg::r3::live::ParamAddr;
use midilab::manufacturer::korg::r3::live::apply_parameter_change;
use midilab::manufacturer::korg::r3::live::program_diff;
use midilab::manufacturer::korg::r3::live::program_params;
use midilab::manufacturer::korg::r3::wrappers::Centered63;
use midilab::manufacturer::korg::r3::wrappers::FxParam;
use midilab::manufacturer::korg::r3::wrappers::Osc1Wave;
use midilab::manufacturer::korg::r3::wrappers::Pan;
use midilab::manufacturer::korg::r3::wrappers::Program;
use midilab::manufacturer::korg::r3::wrappers::Swing50;
use midilab::manufacturer::korg::r3::wrappers::Tempo;
use midilab::manufacturer::korg::r3::wrappers::U7;

fn prog() -> Program {
    Program::blank()
}

#[test]
fn no_diff_for_identical_programs() {
    assert!(program_diff(&prog(), &prog()).is_empty());
}

#[test]
fn diff_emits_exactly_one_param_for_one_field() {
    let a = prog();
    let mut b = a.clone();
    b.timbre1.filter.cutoff1 = U7::new(99);
    let changes = program_diff(&a, &b);
    assert_eq!(changes.len(), 1);
    assert_eq!(changes[0].addr, ParamAddr::new(0x10, 0x32));
    assert_eq!(changes[0].value, 99);
}

#[test]
fn timbre2_uses_0x2x_id_base() {
    let a = prog();
    let mut b = a.clone();
    b.timbre2.filter.cutoff1 = U7::new(42);
    let changes = program_diff(&a, &b);
    assert_eq!(changes.len(), 1);
    assert_eq!(changes[0].addr, ParamAddr::new(0x20, 0x32));
}

#[test]
fn centered_param_travels_64_centered() {
    let a = prog();
    let mut b = a.clone();
    b.timbre1.filter.eg1_int1 = Centered63::new(0);
    b.timbre1.filter.eg1_int1 = Centered63::new(10);
    let changes = program_diff(&a, &b);
    let c = changes
        .iter()
        .find(|c| c.addr == ParamAddr::new(0x10, 0x34))
        .unwrap();
    assert_eq!(c.value, 74);
}

#[test]
fn sysex_bytes_are_well_formed() {
    let lp = LiveParam {
        addr: ParamAddr::new(0x10, 0x32),
        value: 99,
    };
    let msg = lp.to_sysex(0x00);
    assert_eq!(&msg[0..5], &[0xF0, 0x42, 0x30, 0x7D, 0x41]);
    assert_eq!(&msg[5..11], &[0x10, 0x00, 0x32, 0x00, 0x63, 0x00]);
    assert_eq!(*msg.last().unwrap(), 0xF7);
}

#[test]
fn tempo_is_14_bit() {
    let a = prog();
    let mut b = a.clone();
    b.tempo = Tempo::new(200);
    let changes = program_diff(&a, &b);
    let c = changes
        .iter()
        .find(|c| c.addr == ParamAddr::new(0x60, 0x00))
        .unwrap();
    assert_eq!(c.value, 200);
    let msg = c.to_sysex(0);
    assert_eq!(&msg[9..11], &[0x48, 0x01]);
}

#[test]
fn apply_inverts_emit_for_all_params() {
    let mut src = prog();
    src.timbre1.filter.cutoff1 = U7::new(120);
    src.timbre1.osc1.wave = Osc1Wave::Dwgs;
    src.timbre1.amp.pan = Pan::new(-40);
    src.timbre2.eg[1].attack = U7::new(77);
    src.vocoder.band_levels[5] = U7::new(33);
    src.master_fx.params[3] = FxParam::new(64);
    src.arp.swing = Swing50::new(-20);
    src.tempo = Tempo::new(176);

    for lp in program_params(&src) {
        let bytes = lp.to_sysex(0x00);
        let parsed = KorgR3Message::try_from(bytes.as_slice()).expect("valid sysex");
        let raw = match parsed {
            KorgR3Message::ParameterChange(r) => r,
            other => panic!("expected ParameterChange, got {other:?}"),
        };
        let mut dst = prog();
        assert!(
            apply_parameter_change(&mut dst, &raw),
            "addr {:?} unmapped",
            lp.addr
        );
        let params = program_params(&dst);
        let d = params.iter().find(|d| d.addr == lp.addr).unwrap();
        assert_eq!(
            d.value,
            lp.value,
            "round-trip mismatch at {:?}",
            lp.addr
        );
    }
}

#[test]
fn unmapped_address_is_ignored() {
    let mut p = prog();
    let raw = match KorgR3Message::try_from(
        LiveParam {
            addr: ParamAddr::new(0x7F, 0x7F),
            value: 1,
        }
        .to_sysex(0)
        .as_slice(),
    )
    .unwrap()
    {
        KorgR3Message::ParameterChange(r) => r,
        _ => unreachable!(),
    };
    assert!(!apply_parameter_change(&mut p, &raw));
}

#[test]
fn applied_change_leaves_other_params_alone() {
    let mut src = prog();
    src.timbre1.filter.cutoff1 = U7::new(12);
    src.arp.octave_range = 3;
    src.arp.last_step = 5;
    let before = program_params(&prog());
    for lp in program_params(&src) {
        let bytes = lp.to_sysex(0x00);
        let raw = match KorgR3Message::try_from(bytes.as_slice()).unwrap() {
            KorgR3Message::ParameterChange(r) => r,
            other => panic!("expected ParameterChange, got {other:?}"),
        };
        let mut dst = prog();
        assert!(apply_parameter_change(&mut dst, &raw));
        let after = program_params(&dst);
        for (b, a) in before.iter().zip(after.iter()) {
            if b.addr != lp.addr {
                assert_eq!(b.value, a.value, "{:?} changed by {:?}", b.addr, lp.addr);
            }
        }
    }
}
