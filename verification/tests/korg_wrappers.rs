use std::mem::size_of;

use midilab::IntoEnumIterator;
use midilab::manufacturer::korg::r3::wrappers::Centered63;
use midilab::manufacturer::korg::r3::wrappers::FORMANT_BANDS;
use midilab::manufacturer::korg::r3::wrappers::FORMANT_MAX_FRAMES;
use midilab::manufacturer::korg::r3::wrappers::FormantMotion;
use midilab::manufacturer::korg::r3::wrappers::FormantStep;
use midilab::manufacturer::korg::r3::wrappers::FxType;
use midilab::manufacturer::korg::r3::wrappers::Global;
use midilab::manufacturer::korg::r3::wrappers::GlobalTranspose12;
use midilab::manufacturer::korg::r3::wrappers::MasterTune;
use midilab::manufacturer::korg::r3::wrappers::Osc1Wave;
use midilab::manufacturer::korg::r3::wrappers::Pan;
use midilab::manufacturer::korg::r3::wrappers::PatchDest;
use midilab::manufacturer::korg::r3::wrappers::PatchSource;
use midilab::manufacturer::korg::r3::wrappers::Program;
use midilab::manufacturer::korg::r3::wrappers::ProgramSlot;
use midilab::manufacturer::korg::r3::wrappers::RawGlobal;
use midilab::manufacturer::korg::r3::wrappers::RawProgram;
use midilab::manufacturer::korg::r3::wrappers::Tempo;
use midilab::manufacturer::korg::r3::wrappers::Timbre2MidiCh;
use midilab::manufacturer::korg::r3::wrappers::U7;
use midilab::manufacturer::korg::r3::wrappers::UnisonDetune;
use midilab::manufacturer::korg::r3::wrappers::VelCurve;
use midilab::manufacturer::korg::r3::wrappers::VoiceMode;


#[test]
fn formant_motion_file_round_trip() {
    let steps = vec![
        FormantStep {
            bands: [0xFF; FORMANT_BANDS],
        },
        FormantStep {
            bands: [0x80, 1, 2, 3, 4, 5, 6, 7, 8, 9, 10, 11, 12, 13, 14, 0x7F],
        },
        FormantStep {
            bands: [0; FORMANT_BANDS],
        },
    ];
    let motion = FormantMotion {
        motion_no: Some(3),
        steps,
    };
    let bytes = motion.as_bytes();
    assert_eq!(bytes.len(), 3 * FORMANT_BANDS);

    let loaded = FormantMotion::from_bytes(None, &bytes).unwrap();
    assert_eq!(loaded.motion_no, None);
    assert_eq!(loaded.steps, motion.steps);
}

#[test]
fn formant_motion_from_bytes_rejects_misaligned() {
    assert!(FormantMotion::from_bytes(None, &[0u8; 17]).is_err());
}

#[test]
fn formant_motion_authoring() {
    let mut m = FormantMotion::blank(Some(2), 4);
    assert_eq!(m.steps.len(), 4);
    assert!(m.steps.iter().all(|s| s.bands == [0; FORMANT_BANDS]));

    m.set_band(1, 3, 200);
    assert_eq!(m.band_at(1, 3), 127);
    m.set_band(2, 0, 64);
    assert_eq!(m.band_at(2, 0), 64);

    m.resize(2);
    assert_eq!(m.steps.len(), 2);
    assert_eq!(m.band_at(1, 3), 127);
    m.resize(5);
    assert_eq!(m.steps.len(), 5);
    assert_eq!(m.band_at(4, 0), 0);

    m.clear_levels();
    assert!(m.steps.iter().all(|s| s.bands == [0; FORMANT_BANDS]));
    assert_eq!(m.steps.len(), 5);

    let mut big = FormantMotion::blank(None, FORMANT_MAX_FRAMES + 100);
    assert_eq!(big.steps.len(), FORMANT_MAX_FRAMES);
    big.resize(FORMANT_MAX_FRAMES + 50);
    assert_eq!(big.steps.len(), FORMANT_MAX_FRAMES);

    m.set_band(99, 0, 50);
    assert_eq!(m.band_at(99, 0), 0);
}

#[test]
fn newtypes_clamp() {
    assert_eq!(Centered63::new(999).get(), 63);
    assert_eq!(Centered63::new(-999).get(), -63);
    assert_eq!(Centered63::from_wire(64).get(), 0);
    assert_eq!(Centered63::new(10).to_wire(), 74);
    assert_eq!(U7::new(200).get(), 127);
    assert_eq!(UnisonDetune::new(200).get(), 99);
    assert_eq!(Tempo::new(5000).to_wire(), 300);
    assert_eq!(Tempo::new(5).to_wire(), 20);
    assert_eq!(Pan::from_wire(0).get(), -63);
    assert_eq!(Pan::from_wire(64).get(), 0);
}

#[test]
fn enums_only_valid_discriminants() {
    for b in 0u8..=255 {
        let _: Osc1Wave = Osc1Wave::decode(b);
        let _: PatchSource = PatchSource::decode(b);
        let _: PatchDest = PatchDest::decode(b);
        let _: FxType = FxType::decode(b);
    }
    assert_eq!(Osc1Wave::iter().count(), 9);
    assert_eq!(PatchSource::iter().count(), 12);
    assert_eq!(PatchDest::iter().count(), 15);
    assert_eq!(FxType::iter().count(), 31);
    assert_eq!(VoiceMode::iter().count(), 4);
    assert_eq!(VelCurve::iter().count(), 9);
    assert_eq!(Timbre2MidiCh::iter().count(), 17);
}

#[test]
fn program_round_trip_zeroed() {
    let raw = RawProgram::zeroed();
    let prog: Program = raw.try_into().unwrap();
    let back: RawProgram = (&prog).into();
    let prog2: Program = back.try_into().unwrap();
    assert_eq!(prog.name, prog2.name);
    assert_eq!(prog.timbre1.filter.cutoff1, prog2.timbre1.filter.cutoff1);
}

#[test]
fn program_byte_round_trip_preserves_meaningful_bytes() {
    let prog = Program::blank();
    let raw: RawProgram = (&prog).into();
    let prog2: Program = raw.try_into().unwrap();
    let raw2: RawProgram = (&prog2).into();
    assert_eq!(raw.as_bytes(), raw2.as_bytes());
}

#[test]
fn osc1_wave_decodes_per_spec() {
    let mut raw = RawProgram::zeroed();
    raw.timbre1.program.set_osc1_wave(6);
    let prog: Program = raw.try_into().unwrap();
    assert_eq!(prog.timbre1.osc1.wave, Osc1Wave::Dwgs);
}

#[test]
fn voice_mode_split_decodes() {
    let mut raw = RawProgram::zeroed();
    raw.set_voice_mode(2);
    assert_eq!(Program::try_from(raw).unwrap().voice_mode, VoiceMode::Split);
}

#[test]
fn wrappers_global_round_trip() {
    let mut raw = RawGlobal::zeroed();
    raw.master_tune = 64;
    raw.transpose = 64;
    raw.midi_channel = 5;
    let g: Global = raw.try_into().unwrap();
    let back: RawGlobal = (&g).into();
    assert_eq!(back.midi_channel, 5);
    assert_eq!(back.master_tune, 64);
}

#[test]
fn global_cc_map_round_trip() {
    let mut raw = RawGlobal::zeroed();
    raw.cc_map_lo[0] = 74;
    raw.cc_map_hi[2] = 100;
    let g: Global = raw.try_into().unwrap();
    assert!(g.cc_map.contains(&(0, 74)));
    assert!(g.cc_map.contains(&(66, 100)));
    let back: RawGlobal = (&g).into();
    assert_eq!(back.cc_map_lo[0], 74);
    assert_eq!(back.cc_map_hi[2], 100);
}

#[test]
fn program_as_bytes_size() {
    assert_eq!(Program::blank().as_bytes().len(), size_of::<RawProgram>());
}
#[test]
fn global_as_bytes_size() {
    assert_eq!(Global::default().as_bytes().len(), size_of::<RawGlobal>());
}
#[test]
fn default_filename() {
    let mut p = Program::blank();
    p.name = "MySynth".into();
    p.slot = ProgramSlot::new(3);
    assert_eq!(p.default_filename(), "korg_r3-MySynth-A4.program");
}

#[test]
fn edited_program_round_trip_gives_same_bytes() {
    let mut prog = Program::blank();
    prog.name = String::from("Bass 01");
    prog.voice_mode = VoiceMode::Multi;
    prog.timbre2_midi_ch = Timbre2MidiCh::Ch1;
    prog.octave_sw = -3;
    prog.tempo = Tempo::new(140);
    prog.master_fx.knob_assign = 5;
    prog.arp.octave_range = 2;
    prog.arp.last_step = 6;
    prog.arp.latch = true;
    prog.timbre1.osc1.wave = Osc1Wave::Dwgs;
    prog.timbre1.filter.cutoff1 = U7::new(30);
    prog.timbre1.amp.pan = Pan::new(-20);
    prog.timbre1.vibrato_int = Centered63::new(12);
    prog.timbre1.patches[2].src = PatchSource::iter().last().unwrap();
    prog.timbre1.patches[2].dst = PatchDest::iter().last().unwrap();
    prog.timbre2.insert_fx.fx1_type = FxType::iter().last().unwrap();
    prog.timbre2.insert_fx.fx1_knob = 9;
    prog.timbre2.motion_seq.last_step = 11;
    let raw: RawProgram = (&prog).into();
    let prog2: Program = raw.try_into().unwrap();
    assert_eq!(prog2.name, "Bass 01");
    assert_eq!(prog2.octave_sw, -3);
    assert_eq!(prog2.tempo.bpm(), 140);
    assert_eq!(prog2.timbre1.osc1.wave, Osc1Wave::Dwgs);
    let raw2: RawProgram = (&prog2).into();
    assert_eq!(raw.as_bytes(), raw2.as_bytes());
}

#[test]
fn edited_global_round_trip_gives_same_bytes() {
    let mut g = Global::default();
    g.master_tune = MasterTune::new(-37);
    g.transpose = GlobalTranspose12::new(5);
    g.velocity_curve = VelCurve::iter().last().unwrap();
    g.memory_protect = true;
    g.cc_map = vec![(5, 20), (40, 7), (66, 1)];
    let raw: RawGlobal = (&g).into();
    let g2: Global = raw.try_into().unwrap();
    assert_eq!(g2.cc_map, vec![(5, 20), (40, 7), (66, 1)]);
    assert_eq!(g2.master_tune.get(), -37);
    let raw2: RawGlobal = (&g2).into();
    assert_eq!(raw.as_bytes(), raw2.as_bytes());
}
