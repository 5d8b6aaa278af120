use std::mem::size_of;

use midilab::manufacturer::korg::r3::raw::RawArpeggio;
use midilab::manufacturer::korg::r3::raw::RawFormantStep;
use midilab::manufacturer::korg::r3::raw::RawGlobal;
use midilab::manufacturer::korg::r3::raw::RawInsertFx;
use midilab::manufacturer::korg::r3::raw::RawMasterFx;
use midilab::manufacturer::korg::r3::raw::RawMotionSeq;
use midilab::manufacturer::korg::r3::raw::RawParameterChange;
use midilab::manufacturer::korg::r3::raw::RawProgram;
use midilab::manufacturer::korg::r3::raw::RawTimbre;
use midilab::manufacturer::korg::r3::raw::RawTimbreProgram;
use midilab::manufacturer::korg::r3::raw::RawVocoder;

fn timbre_program_offset(mark: impl Fn(&mut RawTimbreProgram)) -> usize {
    let zero = RawTimbreProgram::zeroed();
    let mut r = zero;
    mark(&mut r);
    marked_offset(&zero.as_bytes(), &r.as_bytes())
}

fn program_offset(mark: impl Fn(&mut RawProgram)) -> usize {
    let zero = RawProgram::zeroed();
    let mut r = zero;
    mark(&mut r);
    marked_offset(&zero.as_bytes(), &r.as_bytes())
}

fn timbre_offset(mark: impl Fn(&mut RawTimbre)) -> usize {
    let zero = RawTimbre::zeroed();
    let mut r = zero;
    mark(&mut r);
    marked_offset(&zero.as_bytes(), &r.as_bytes())
}

fn insert_fx_offset(mark: impl Fn(&mut RawInsertFx)) -> usize {
    let zero = RawInsertFx::zeroed();
    let mut r = zero;
    mark(&mut r);
    marked_offset(&zero.as_bytes(), &r.as_bytes())
}

fn vocoder_offset(mark: impl Fn(&mut RawVocoder)) -> usize {
    let zero = RawVocoder::zeroed();
    let mut r = zero;
    mark(&mut r);
    marked_offset(&zero.as_bytes(), &r.as_bytes())
}

/// The offset of the first byte that differs between a zeroed record and one
/// with a single field marked.
fn marked_offset(zero: &[u8], marked: &[u8]) -> usize {
    zero.iter().zip(marked.iter()).position(|(a, b)| a != b).unwrap()
}


#[test]
fn test_raw_timbre_program_size() {
    assert_eq!(size_of::<RawTimbreProgram>(), 92);
}
#[test]
fn test_raw_insert_fx_size() {
    assert_eq!(size_of::<RawInsertFx>(), 52);
}
#[test]
fn test_raw_motion_seq_size() {
    assert_eq!(size_of::<RawMotionSeq>(), 20);
}
#[test]
fn test_raw_timbre_size() {
    assert_eq!(size_of::<RawTimbre>(), 164);
}
#[test]
fn test_raw_vocoder_size() {
    assert_eq!(size_of::<RawVocoder>(), 78);
}
#[test]
fn test_raw_master_fx_size() {
    assert_eq!(size_of::<RawMasterFx>(), 22);
}
#[test]
fn test_raw_arpeggio_size() {
    assert_eq!(size_of::<RawArpeggio>(), 8);
}
#[test]
fn test_raw_program_size() {
    assert_eq!(size_of::<RawProgram>(), 456);
}
#[test]
fn korg_raw_test_raw_global_size() {
    assert_eq!(size_of::<RawGlobal>(), 80);
}
#[test]
fn test_raw_formant_step_size() {
    assert_eq!(size_of::<RawFormantStep>(), 16);
}
#[test]
fn test_raw_parameter_change_size() {
    assert_eq!(size_of::<RawParameterChange>(), 6);
}

#[test]
fn test_timbre_program_offsets() {
    assert_eq!(timbre_program_offset(|r| r.voice_unison = 1), 4);
    assert_eq!(timbre_program_offset(|r| r.unison_spread = 1), 6);
    assert_eq!(timbre_program_offset(|r| r.voice_assign = 1), 7);
    assert_eq!(timbre_program_offset(|r| r.analog_tuning = 1), 9);
    assert_eq!(timbre_program_offset(|r| r.portamento = 1), 14);
    assert_eq!(timbre_program_offset(|r| r.osc1_wave_mod = 1), 16);
    assert_eq!(timbre_program_offset(|r| r.osc2_wave_mod = 1), 21);
    assert_eq!(timbre_program_offset(|r| r.osc1_level = 1), 24);
    assert_eq!(timbre_program_offset(|r| r.filter_routing_type2 = 1), 28);
    assert_eq!(timbre_program_offset(|r| r.filter1_balance = 1), 29);
    assert_eq!(timbre_program_offset(|r| r.filter1_cutoff = 1), 30);
    assert_eq!(timbre_program_offset(|r| r.filter1_velo_sens = 1), 34);
    assert_eq!(timbre_program_offset(|r| r.filter2_velo_sens = 1), 39);
    assert_eq!(timbre_program_offset(|r| r.amp_level = 1), 40);
    assert_eq!(timbre_program_offset(|r| r.punch_level = 1), 46);
    assert_eq!(timbre_program_offset(|r| r.eg1_attack = 1), 48);
    assert_eq!(timbre_program_offset(|r| r.eg3_level_velo = 1), 64);
    assert_eq!(timbre_program_offset(|r| r.lfo1_wave = 1), 66);
    assert_eq!(timbre_program_offset(|r| r.lfo2_sync_note = 1), 73);
    assert_eq!(timbre_program_offset(|r| r.patch1_src = 1), 74);
    assert_eq!(timbre_program_offset(|r| r.patch6_int = 1), 91);
}

#[test]
fn test_program_region_offsets() {
    assert_eq!(program_offset(|r| r.timbre1.program.knob_assigns[0] = 1), 16);
    assert_eq!(program_offset(|r| r.timbre2.program.knob_assigns[0] = 1), 180);
    assert_eq!(program_offset(|r| r.vocoder.sw_flags = 1), 344);
    assert_eq!(program_offset(|r| r.master_fx.fx_type = 1), 422);
    assert_eq!(program_offset(|r| r.tempo[0] = 1), 444);
    assert_eq!(program_offset(|r| r.arpeggio.res_type = 1), 448);
    assert_eq!(timbre_offset(|r| r.insert_fx.fx1_type = 1), 92);
    assert_eq!(timbre_offset(|r| r.motion_seq.flags = 1), 144);
    assert_eq!(insert_fx_offset(|r| r.eq_low_freq = 1), 48);
    assert_eq!(vocoder_offset(|r| r.shift_fcmodsrc = 1), 40);
    assert_eq!(vocoder_offset(|r| r.formant_hold[0] = 1), 46);
}

#[test]
fn test_packed_accessors() {
    let mut p = RawTimbreProgram::zeroed();
    p.set_osc1_wave(6);
    p.set_osc1_mod(3);
    assert_eq!(p.osc1_wave(), 6);
    assert_eq!(p.osc1_mod(), 3);
    assert_eq!(p.osc1_wave_mod, 0x36);
    p.set_filter_routing(1);
    p.set_filter2_type(2);
    assert_eq!(p.filter_routing(), 1);
    assert_eq!(p.filter2_type(), 2);
    p.set_lfo1_bpm_sync(true);
    p.set_lfo1_key_sync(2);
    assert!(p.lfo1_bpm_sync());
    assert_eq!(p.lfo1_key_sync(), 2);

    let mut prog = RawProgram::zeroed();
    prog.set_voice_mode(2);
    prog.set_arp_timb_select(1);
    assert_eq!(prog.voice_mode(), 2);
    assert_eq!(prog.arp_timb_select(), 1);
    prog.set_octave_sw(-3);
    assert_eq!(prog.octave_sw(), -3);
    prog.set_octave_sw(3);
    assert_eq!(prog.octave_sw(), 3);
    prog.set_tempo_raw(1450);
    assert_eq!(prog.tempo_raw(), 1450);
}
