//! Reading a raw R3 record into its typed form and writing it back: on a
//! record that a typed value was written into, the round trip gives back the
//! same bytes.

use vstd::prelude::*;

use crate::manufacturer::korg::r3::raw::field_bits;
use crate::manufacturer::korg::r3::raw::field_fits;
use crate::manufacturer::korg::r3::raw::flag_bit;
use crate::manufacturer::korg::r3::raw::lemma_field_read_after_write;
use crate::manufacturer::korg::r3::raw::lemma_field_write_keeps_others;
use crate::manufacturer::korg::r3::raw::with_field_bits;
use crate::manufacturer::korg::r3::wrappers::ArpTimbre;
use crate::manufacturer::korg::r3::wrappers::ArpType;
use crate::manufacturer::korg::r3::wrappers::Filter2Type;
use crate::manufacturer::korg::r3::wrappers::FilterRouting;
use crate::manufacturer::korg::r3::wrappers::FxType;
use crate::manufacturer::korg::r3::wrappers::LfoKeySync;
use crate::manufacturer::korg::r3::wrappers::MidiChannelR3;
use crate::manufacturer::korg::r3::wrappers::Osc1Wave;
use crate::manufacturer::korg::r3::wrappers::Osc2Mod;
use crate::manufacturer::korg::r3::wrappers::Osc2Wave;
use crate::manufacturer::korg::r3::wrappers::OscMod;
use crate::manufacturer::korg::r3::wrappers::PatchDest;
use crate::manufacturer::korg::r3::wrappers::PatchSource;
use crate::manufacturer::korg::r3::wrappers::RawTimbre;
use crate::manufacturer::korg::r3::wrappers::RawVocoder;
use crate::manufacturer::korg::r3::wrappers::Timbre;
use crate::manufacturer::korg::r3::wrappers::Timbre2MidiCh;
use crate::manufacturer::korg::r3::wrappers::UnisonVoice;
use crate::manufacturer::korg::r3::wrappers::VelCurve;
use crate::manufacturer::korg::r3::wrappers::Vocoder;
use crate::manufacturer::korg::r3::wrappers::VoiceAssign;
use crate::manufacturer::korg::r3::wrappers::VoiceMode;
use crate::manufacturer::korg::r3::wrappers::WaveShapePosition;
use crate::manufacturer::korg::r3::wrappers::decodes_timbre;
use crate::manufacturer::korg::r3::wrappers::decodes_vocoder;
use crate::manufacturer::korg::r3::wrappers::encodes_insert_fx;
use crate::manufacturer::korg::r3::wrappers::encodes_motion_seq;
use crate::manufacturer::korg::r3::wrappers::encodes_timbre;
use crate::manufacturer::korg::r3::wrappers::encodes_vocoder;
use crate::manufacturer::korg::r3::wrappers::encodes_timbre_program;
use crate::manufacturer::korg::r3::raw::lemma_tempo_round_trip;
use crate::manufacturer::korg::r3::raw::tempo_of;
use crate::manufacturer::korg::r3::raw::with_tempo;
use crate::manufacturer::korg::r3::wrappers::Arpeggio;
use crate::manufacturer::korg::r3::wrappers::Program;
use crate::manufacturer::korg::r3::wrappers::RawProgram;
use crate::manufacturer::korg::r3::wrappers::decodes_program;
use crate::manufacturer::korg::r3::wrappers::encodes_program;
use crate::manufacturer::korg::r3::wrappers::latch_oct_last_of;
use crate::manufacturer::korg::r3::wrappers::name_bytes;
use crate::manufacturer::korg::r3::wrappers::name_text;
use crate::manufacturer::korg::r3::wrappers::Global;
use crate::manufacturer::korg::r3::wrappers::RawGlobal;
use crate::manufacturer::korg::r3::wrappers::cc_entries;
use crate::manufacturer::korg::r3::wrappers::cc_map_of;
use crate::manufacturer::korg::r3::wrappers::cc_written;
use crate::manufacturer::korg::r3::wrappers::decodes_global;
use crate::manufacturer::korg::r3::wrappers::encodes_global;
use crate::music::theory::clamp_int;
use vstd::utf8::encode_utf8;
use vstd::utf8::is_ascii_chars_encode_utf8;

verus! {

/// The widths of the packed fields: a run of low bits.
pub open spec fn low_mask(m: u8) -> bool {
    m == 0x01 || m == 0x03 || m == 0x07 || m == 0x0F || m == 0x1F || m == 0x7F
}

/// The packed fields of the records fit their bytes, and the fields that
/// share a byte do not overlap.
proof fn lemma_shapes()
    by (bit_vector)
    ensures
        field_fits(0, 0x01),
        field_fits(0, 0x03),
        field_fits(0, 0x07),
        field_fits(0, 0x0F),
        field_fits(0, 0x1F),
        field_fits(0, 0x7F),
        field_fits(4, 0x01),
        field_fits(4, 0x03),
        field_fits(4, 0x0F),
        field_fits(5, 0x01),
        field_fits(5, 0x03),
        field_fits(6, 0x01),
        field_fits(6, 0x03),
        field_fits(7, 0x01),
        (0x03u8 << 4u8) & (0x0Fu8 << 0u8) == 0,
        (0x03u8 << 4u8) & (0x03u8 << 0u8) == 0,
        (0x03u8 << 4u8) & (0x03u8 << 6u8) == 0,
        (0x0Fu8 << 0u8) & (0x03u8 << 4u8) == 0,
        (0x07u8 << 0u8) & (0x0Fu8 << 4u8) == 0,
{
}

/// A value no wider than its field reads back unchanged.
proof fn lemma_read_written(b: u8, s: u8, m: u8, v: u8)
    requires
        field_fits(s, m),
        low_mask(m),
        v <= m,
    ensures
        field_bits(with_field_bits(b, s, m, v), s, m) == v,
        v & m == v,
{
    lemma_field_read_after_write(b, s, m, v);
    lemma_small_and(v, m);
}

/// A value no wider than a field keeps all its bits under the field's mask.
proof fn lemma_small_and(v: u8, m: u8)
    requires
        low_mask(m),
        v <= m,
    ensures
        v & m == v,
{
    assert((m == 0x01 || m == 0x03 || m == 0x07 || m == 0x0F || m == 0x1F || m == 0x7F) && v <= m
        ==> v & m == v) by (bit_vector);
}

/// A packed field is no wider than its mask.
proof fn lemma_field_le(x: u8, s: u8, m: u8)
    ensures
        field_bits(x, s, m) <= m,
{
    assert((x >> s) & m <= m) by (bit_vector);
}

/// Writing into a field the value it already holds leaves the byte as it
/// was.
proof fn lemma_rewrite(x: u8, s: u8, m: u8, w: u8)
    requires
        field_fits(s, m),
        w & m == field_bits(x, s, m),
    ensures
        with_field_bits(x, s, m, w) == x,
{
    assert(s < 8 && m <= (0xFFu8 >> s) && w & m == (x >> s) & m ==> ((x & !(m << s)) | ((w & m)
        << s)) == x) by (bit_vector);
}

/// Masking twice is masking once.
proof fn lemma_and_idem(k: u8, m: u8)
    ensures
        (k & m) & m == k & m,
{
    assert((k & m) & m == k & m) by (bit_vector);
}

/// Decoding the number of a [`VoiceMode`] gives the variant back.
pub proof fn lemma_voice_mode_code(e: VoiceMode)
    ensures
        VoiceMode::decoded(e as u8) == e,
        (e as u8) < 4,
{
}

/// Decoding the number of a [`ArpTimbre`] gives the variant back.
pub proof fn lemma_arp_timbre_code(e: ArpTimbre)
    ensures
        ArpTimbre::decoded(e as u8) == e,
        (e as u8) < 3,
{
}

/// Decoding the number of a [`VoiceAssign`] gives the variant back.
pub proof fn lemma_voice_assign_code(e: VoiceAssign)
    ensures
        VoiceAssign::decoded(e as u8) == e,
        (e as u8) < 3,
{
}

/// Decoding the number of a [`UnisonVoice`] gives the variant back.
pub proof fn lemma_unison_voice_code(e: UnisonVoice)
    ensures
        UnisonVoice::decoded(e as u8) == e,
        (e as u8) < 4,
{
}

/// Decoding the number of a [`OscMod`] gives the variant back.
pub proof fn lemma_osc_mod_code(e: OscMod)
    ensures
        OscMod::decoded(e as u8) == e,
        (e as u8) < 4,
{
}

/// Decoding the number of a [`Osc2Mod`] gives the variant back.
pub proof fn lemma_osc2_mod_code(e: Osc2Mod)
    ensures
        Osc2Mod::decoded(e as u8) == e,
        (e as u8) < 4,
{
}

/// Decoding the number of a [`Osc2Wave`] gives the variant back.
pub proof fn lemma_osc2_wave_code(e: Osc2Wave)
    ensures
        Osc2Wave::decoded(e as u8) == e,
        (e as u8) < 4,
{
}

/// Decoding the number of a [`Filter2Type`] gives the variant back.
pub proof fn lemma_filter2_type_code(e: Filter2Type)
    ensures
        Filter2Type::decoded(e as u8) == e,
        (e as u8) < 4,
{
}

/// Decoding the number of a [`FilterRouting`] gives the variant back.
pub proof fn lemma_filter_routing_code(e: FilterRouting)
    ensures
        FilterRouting::decoded(e as u8) == e,
        (e as u8) < 4,
{
}

/// Decoding the number of a [`LfoKeySync`] gives the variant back.
pub proof fn lemma_lfo_key_sync_code(e: LfoKeySync)
    ensures
        LfoKeySync::decoded(e as u8) == e,
        (e as u8) < 3,
{
}

/// Decoding the number of a [`WaveShapePosition`] gives the variant back.
pub proof fn lemma_wave_shape_position_code(e: WaveShapePosition)
    ensures
        WaveShapePosition::decoded(e as u8) == e,
        (e as u8) < 2,
{
}

/// Decoding the number of a [`ArpType`] gives the variant back.
pub proof fn lemma_arp_type_code(e: ArpType)
    ensures
        ArpType::decoded(e as u8) == e,
        (e as u8) < 6,
{
}

/// Decoding the number of a [`VelCurve`] gives the variant back.
pub proof fn lemma_vel_curve_code(e: VelCurve)
    ensures
        VelCurve::decoded(e as u8) == e,
        (e as u8) < 9,
{
}

/// Decoding the number of a [`Osc1Wave`] gives the variant back.
pub proof fn lemma_osc1_wave_code(e: Osc1Wave)
    ensures
        Osc1Wave::decoded(e as u8) == e,
        (e as u8) < 9,
{
}

/// Decoding the number of a [`PatchSource`] gives the variant back.
pub proof fn lemma_patch_source_code(e: PatchSource)
    ensures
        PatchSource::decoded(e as u8) == e,
        (e as u8) < 12,
{
}

/// Decoding the number of a [`PatchDest`] gives the variant back.
pub proof fn lemma_patch_dest_code(e: PatchDest)
    ensures
        PatchDest::decoded(e as u8) == e,
        (e as u8) < 15,
{
}

/// Decoding the number of a [`FxType`] gives the variant back.
pub proof fn lemma_fx_type_code(e: FxType)
    ensures
        FxType::decoded(e as u8) == e,
        (e as u8) < 31,
{
}

/// Decoding the number of a [`Timbre2MidiCh`] gives the variant back.
pub proof fn lemma_timbre2_midi_ch_code(e: Timbre2MidiCh)
    ensures
        Timbre2MidiCh::decoded(e as u8) == e,
        (e as u8) < 17,
{
}

/// Decoding the number of a [`MidiChannelR3`] gives the variant back.
pub proof fn lemma_midi_channel_r3_code(e: MidiChannelR3)
    ensures
        MidiChannelR3::decoded(e as u8) == e,
        (e as u8) < 16,
{
}

/// Whether every ranged field of the timbre lies in its range.
pub open spec fn timbre_in_range(t: Timbre) -> bool {
    &&& forall|i: int| 0 <= i < 4 ==> 0 <= #[trigger] t.knob_assigns[i]@ <= 55
    &&& 0 <= t.unison_detune@ <= 99
    &&& 0 <= t.unison_spread@ <= 127
    &&& 0 <= t.analog_tuning@ <= 127
    &&& -48 <= t.transpose@ <= 48
    &&& -50 <= t.detune@ <= 50
    &&& -63 <= t.vibrato_int@ <= 63
    &&& -12 <= t.bend_range@ <= 12
    &&& 0 <= t.portamento@ <= 127
    &&& 0 <= t.osc1.ctrl1@ <= 127
    &&& 0 <= t.osc1.ctrl2@ <= 127
    &&& 0 <= t.osc1.dwgs@ <= 64
    &&& -24 <= t.osc2.semitone@ <= 24
    &&& -50 <= t.osc2.tune@ <= 50
    &&& 0 <= t.mixer.osc1_level@ <= 127
    &&& 0 <= t.mixer.osc2_level@ <= 127
    &&& 0 <= t.mixer.noise_level@ <= 127
    &&& 0 <= t.filter.balance@ <= 127
    &&& 0 <= t.filter.cutoff1@ <= 127
    &&& 0 <= t.filter.resonance1@ <= 127
    &&& -63 <= t.filter.eg1_int1@ <= 63
    &&& -63 <= t.filter.key_track1@ <= 63
    &&& -63 <= t.filter.velo_sens1@ <= 63
    &&& 0 <= t.filter.cutoff2@ <= 127
    &&& 0 <= t.filter.resonance2@ <= 127
    &&& -63 <= t.filter.eg1_int2@ <= 63
    &&& -63 <= t.filter.key_track2@ <= 63
    &&& -63 <= t.filter.velo_sens2@ <= 63
    &&& 0 <= t.amp.level@ <= 127
    &&& 0 <= t.amp.ws_type@ <= 12
    &&& 0 <= t.amp.ws_depth@ <= 127
    &&& -63 <= t.amp.pan@ <= 63
    &&& -63 <= t.amp.key_track@ <= 63
    &&& 0 <= t.amp.punch_level@ <= 127
    &&& 0 <= t.eg[0].attack@ <= 127
    &&& 0 <= t.eg[0].decay@ <= 127
    &&& 0 <= t.eg[0].sustain@ <= 127
    &&& 0 <= t.eg[0].release@ <= 127
    &&& -63 <= t.eg[0].level_velo@ <= 63
    &&& 0 <= t.eg[1].attack@ <= 127
    &&& 0 <= t.eg[1].decay@ <= 127
    &&& 0 <= t.eg[1].sustain@ <= 127
    &&& 0 <= t.eg[1].release@ <= 127
    &&& -63 <= t.eg[1].level_velo@ <= 63
    &&& 0 <= t.eg[2].attack@ <= 127
    &&& 0 <= t.eg[2].decay@ <= 127
    &&& 0 <= t.eg[2].sustain@ <= 127
    &&& 0 <= t.eg[2].release@ <= 127
    &&& -63 <= t.eg[2].level_velo@ <= 63
    &&& 0 <= t.lfo[0].freq@ <= 127
    &&& 0 <= t.lfo[0].sync_note@ <= 16
    &&& 0 <= t.lfo[1].freq@ <= 127
    &&& 0 <= t.lfo[1].sync_note@ <= 16
    &&& -63 <= t.patches[0].int@ <= 63
    &&& -63 <= t.patches[1].int@ <= 63
    &&& -63 <= t.patches[2].int@ <= 63
    &&& -63 <= t.patches[3].int@ <= 63
    &&& -63 <= t.patches[4].int@ <= 63
    &&& -63 <= t.patches[5].int@ <= 63
    &&& forall|i: int| 0 <= i < 20 ==> 0 <= #[trigger] t.insert_fx.fx1_params[i]@ <= 127
    &&& forall|i: int| 0 <= i < 20 ==> 0 <= #[trigger] t.insert_fx.fx2_params[i]@ <= 127
    &&& -30 <= t.insert_fx.eq_low_gain@ <= 30
    &&& -30 <= t.insert_fx.eq_hi_gain@ <= 30
    &&& 0 <= t.motion_seq.seq_type@ <= 4
    &&& 0 <= t.motion_seq.resolution@ <= 15
}

/// Whether every ranged field of the vocoder lies in its range.
pub open spec fn vocoder_in_range(t: Vocoder) -> bool {
    &&& 0 <= t.gate_sens@ <= 127
    &&& 0 <= t.threshold@ <= 127
    &&& 0 <= t.hpf_level@ <= 127
    &&& 0 <= t.direct_level@ <= 127
    &&& 0 <= t.timbre1_level@ <= 127
    &&& 0 <= t.input1_level@ <= 127
    &&& 0 <= t.vocoder_level@ <= 127
    &&& forall|i: int| 0 <= i < 16 ==> -63 <= #[trigger] t.band_pans[i]@ <= 63
    &&& forall|i: int| 0 <= i < 16 ==> 0 <= #[trigger] t.band_levels[i]@ <= 127
    &&& -63 <= t.cutoff_offset@ <= 63
    &&& 0 <= t.resonance@ <= 127
    &&& -63 <= t.fc_mod_int@ <= 63
    &&& 0 <= t.ef_sens@ <= 127
}

/// The program part of a timbre reads back as written.
#[verifier::spinoff_prover]
#[verifier::rlimit(100)]
proof fn lemma_timbre_program_round_trip(t: Timbre, b: RawTimbre, a: RawTimbre, u: Timbre, c: RawTimbre)
    requires
        timbre_in_range(t),
        encodes_timbre_program(a.program, t, b.program),
        decodes_timbre(u, a),
        encodes_timbre_program(c.program, u, a.program),
    ensures
        c.program == a.program,
{
    let ap = a.program;
    let bp = b.program;
    let cp = c.program;
    lemma_shapes();
    // one enumerated field
    lemma_unison_voice_code(t.unison_voice);
    lemma_read_written(bp.voice_unison, 0, 0x0F, t.unison_voice as u8);
    lemma_rewrite(ap.voice_unison, 0, 0x0F, u.unison_voice as u8);
    lemma_voice_assign_code(t.voice_assign);
    lemma_read_written(bp.voice_assign, 6, 0x03, t.voice_assign as u8);
    lemma_rewrite(ap.voice_assign, 6, 0x03, u.voice_assign as u8);
    lemma_wave_shape_position_code(t.amp.ws_position);
    lemma_read_written(bp.amp_ws_position, 4, 0x03, t.amp.ws_position as u8);
    lemma_rewrite(ap.amp_ws_position, 4, 0x03, u.amp.ws_position as u8);
    // two enumerated fields sharing a byte
    lemma_osc1_wave_code(t.osc1.wave);
    lemma_osc_mod_code(t.osc1.osc_mod);
    lemma_read_written(bp.osc1_wave_mod, 0, 0x0F, t.osc1.wave as u8);
    let mid = with_field_bits(bp.osc1_wave_mod, 0, 0x0F, t.osc1.wave as u8);
    lemma_field_write_keeps_others(mid, 4, 0x03, t.osc1.osc_mod as u8, 0, 0x0F);
    lemma_read_written(mid, 4, 0x03, t.osc1.osc_mod as u8);
    lemma_rewrite(ap.osc1_wave_mod, 0, 0x0F, u.osc1.wave as u8);
    lemma_rewrite(ap.osc1_wave_mod, 4, 0x03, u.osc1.osc_mod as u8);
    lemma_osc2_wave_code(t.osc2.wave);
    lemma_osc2_mod_code(t.osc2.osc_mod);
    lemma_read_written(bp.osc2_wave_mod, 0, 0x03, t.osc2.wave as u8);
    let mid = with_field_bits(bp.osc2_wave_mod, 0, 0x03, t.osc2.wave as u8);
    lemma_field_write_keeps_others(mid, 4, 0x03, t.osc2.osc_mod as u8, 0, 0x03);
    lemma_read_written(mid, 4, 0x03, t.osc2.osc_mod as u8);
    lemma_rewrite(ap.osc2_wave_mod, 0, 0x03, u.osc2.wave as u8);
    lemma_rewrite(ap.osc2_wave_mod, 4, 0x03, u.osc2.osc_mod as u8);
    lemma_filter_routing_code(t.filter.routing);
    lemma_filter2_type_code(t.filter.filter2_type);
    lemma_read_written(bp.filter_routing_type2, 0, 0x03, t.filter.routing as u8);
    let mid = with_field_bits(bp.filter_routing_type2, 0, 0x03, t.filter.routing as u8);
    lemma_field_write_keeps_others(mid, 4, 0x03, t.filter.filter2_type as u8, 0, 0x03);
    lemma_read_written(mid, 4, 0x03, t.filter.filter2_type as u8);
    lemma_rewrite(ap.filter_routing_type2, 0, 0x03, u.filter.routing as u8);
    lemma_rewrite(ap.filter_routing_type2, 4, 0x03, u.filter.filter2_type as u8);
    // ranged fields narrower than their bits
    lemma_read_written(bp.amp_ws_type, 0, 0x0F, t.amp.ws_type@ as u8);
    lemma_small_and(t.amp.ws_type@ as u8, 0x0F);
    lemma_rewrite(ap.amp_ws_type, 0, 0x0F, u.amp.ws_type@ as u8);
    lemma_read_written(bp.lfo1_sync_note, 0, 0x1F, t.lfo[0].sync_note@ as u8);
    lemma_small_and(t.lfo[0].sync_note@ as u8, 0x1F);
    lemma_rewrite(ap.lfo1_sync_note, 0, 0x1F, u.lfo[0].sync_note@ as u8);
    lemma_read_written(bp.lfo2_sync_note, 0, 0x1F, t.lfo[1].sync_note@ as u8);
    lemma_small_and(t.lfo[1].sync_note@ as u8, 0x1F);
    lemma_rewrite(ap.lfo2_sync_note, 0, 0x1F, u.lfo[1].sync_note@ as u8);
    // whole fields
    lemma_field_le(ap.lfo1_wave, 0, 0x0F);
    lemma_small_and(field_bits(ap.lfo1_wave, 0, 0x0F), 0x0F);
    lemma_rewrite(ap.lfo1_wave, 0, 0x0F, u.lfo[0].wave);
    lemma_field_le(ap.lfo2_wave, 0, 0x0F);
    lemma_small_and(field_bits(ap.lfo2_wave, 0, 0x0F), 0x0F);
    lemma_rewrite(ap.lfo2_wave, 0, 0x0F, u.lfo[1].wave);
    // a flag under an enumerated field
    lemma_lfo_key_sync_code(t.lfo[0].key_sync);
    let mid = with_field_bits(bp.lfo1_sync, 7, 0x01, flag_bit(t.lfo[0].bpm_sync));
    lemma_read_written(mid, 5, 0x03, t.lfo[0].key_sync as u8);
    lemma_field_le(ap.lfo1_sync, 7, 0x01);
    lemma_small_and(flag_bit(u.lfo[0].bpm_sync), 0x01);
    lemma_rewrite(ap.lfo1_sync, 7, 0x01, flag_bit(u.lfo[0].bpm_sync));
    lemma_rewrite(ap.lfo1_sync, 5, 0x03, u.lfo[0].key_sync as u8);
    lemma_lfo_key_sync_code(t.lfo[1].key_sync);
    let mid = with_field_bits(bp.lfo2_sync, 7, 0x01, flag_bit(t.lfo[1].bpm_sync));
    lemma_read_written(mid, 5, 0x03, t.lfo[1].key_sync as u8);
    lemma_field_le(ap.lfo2_sync, 7, 0x01);
    lemma_small_and(flag_bit(u.lfo[1].bpm_sync), 0x01);
    lemma_rewrite(ap.lfo2_sync, 7, 0x01, flag_bit(u.lfo[1].bpm_sync));
    lemma_rewrite(ap.lfo2_sync, 5, 0x03, u.lfo[1].key_sync as u8);
    // modulation patches
    lemma_patch_source_code(t.patches[0].src);
    lemma_patch_source_code(t.patches[1].src);
    lemma_patch_source_code(t.patches[2].src);
    lemma_patch_source_code(t.patches[3].src);
    lemma_patch_source_code(t.patches[4].src);
    lemma_patch_source_code(t.patches[5].src);
    lemma_patch_dest_code(t.patches[0].dst);
    lemma_patch_dest_code(t.patches[1].dst);
    lemma_patch_dest_code(t.patches[2].dst);
    lemma_patch_dest_code(t.patches[3].dst);
    lemma_patch_dest_code(t.patches[4].dst);
    lemma_patch_dest_code(t.patches[5].dst);
    assert(cp.knob_assigns =~= ap.knob_assigns);
}

/// The insert effect of a timbre reads back as written.
#[verifier::spinoff_prover]
#[verifier::rlimit(60)]
proof fn lemma_insert_fx_round_trip(t: Timbre, b: RawTimbre, a: RawTimbre, u: Timbre, c: RawTimbre)
    requires
        timbre_in_range(t),
        encodes_insert_fx(a.insert_fx, t, b.insert_fx),
        decodes_timbre(u, a),
        encodes_insert_fx(c.insert_fx, u, a.insert_fx),
    ensures
        c.insert_fx == a.insert_fx,
{
    let af = a.insert_fx;
    let bf = b.insert_fx;
    let cf = c.insert_fx;
    lemma_shapes();
    lemma_fx_type_code(t.insert_fx.fx1_type);
    lemma_read_written(bf.fx1_type, 0, 0x7F, t.insert_fx.fx1_type as u8);
    lemma_rewrite(af.fx1_type, 0, 0x7F, u.insert_fx.fx1_type as u8);
    lemma_fx_type_code(t.insert_fx.fx2_type);
    lemma_read_written(bf.fx2_type, 0, 0x7F, t.insert_fx.fx2_type as u8);
    lemma_rewrite(af.fx2_type, 0, 0x7F, u.insert_fx.fx2_type as u8);
    lemma_and_idem(t.insert_fx.fx1_knob, 0x1F);
    lemma_and_idem(t.insert_fx.fx2_knob, 0x1F);
    assert(cf.fx1_params =~= af.fx1_params);
    assert(cf.fx2_params =~= af.fx2_params);
}

/// The motion sequence of a timbre reads back as written.
#[verifier::spinoff_prover]
#[verifier::rlimit(60)]
proof fn lemma_motion_seq_round_trip(t: Timbre, b: RawTimbre, a: RawTimbre, u: Timbre, c: RawTimbre)
    requires
        encodes_motion_seq(a.motion_seq, t, b.motion_seq),
        decodes_timbre(u, a),
        encodes_motion_seq(c.motion_seq, u, a.motion_seq),
    ensures
        c.motion_seq == a.motion_seq,
{
    let am = a.motion_seq;
    let bm = b.motion_seq;
    lemma_shapes();
    lemma_field_le(am.flags, 7, 0x01);
    lemma_small_and(flag_bit(u.motion_seq.on), 0x01);
    lemma_rewrite(am.flags, 7, 0x01, flag_bit(u.motion_seq.on));
    lemma_field_le(am.flags, 4, 0x03);
    lemma_small_and(field_bits(am.flags, 4, 0x03), 0x03);
    lemma_rewrite(am.flags, 4, 0x03, u.motion_seq.seq_type@ as u8);
    lemma_field_le(am.flags, 0, 0x0F);
    lemma_small_and(field_bits(am.flags, 0, 0x0F), 0x0F);
    lemma_rewrite(am.flags, 0, 0x0F, u.motion_seq.last_step);
    lemma_lfo_key_sync_code(t.motion_seq.key_sync);
    lemma_read_written(bm.sync_res, 4, 0x03, t.motion_seq.key_sync as u8);
    let mid = with_field_bits(bm.sync_res, 4, 0x03, t.motion_seq.key_sync as u8);
    lemma_field_write_keeps_others(mid, 0, 0x0F, t.motion_seq.resolution@ as u8, 4, 0x03);
    lemma_rewrite(am.sync_res, 4, 0x03, u.motion_seq.key_sync as u8);
    lemma_field_le(am.sync_res, 0, 0x0F);
    lemma_small_and(field_bits(am.sync_res, 0, 0x0F), 0x0F);
    lemma_rewrite(am.sync_res, 0, 0x0F, u.motion_seq.resolution@ as u8);
}

/// A timbre written into a raw timbre reads back as a timbre that writes
/// the same bytes.
pub proof fn lemma_timbre_round_trip(t: Timbre, b: RawTimbre, a: RawTimbre, u: Timbre, c: RawTimbre)
    requires
        timbre_in_range(t),
        encodes_timbre(a, t, b),
        decodes_timbre(u, a),
        encodes_timbre(c, u, a),
    ensures
        c == a,
{
    reveal(encodes_timbre);
    lemma_timbre_program_round_trip(t, b, a, u, c);
    lemma_insert_fx_round_trip(t, b, a, u, c);
    lemma_motion_seq_round_trip(t, b, a, u, c);
}

/// A vocoder written into a raw vocoder reads back as a vocoder that
/// writes the same bytes.
#[verifier::spinoff_prover]
#[verifier::rlimit(60)]
pub proof fn lemma_vocoder_round_trip(t: Vocoder, b: RawVocoder, a: RawVocoder, u: Vocoder, c: RawVocoder)
    requires
        vocoder_in_range(t),
        encodes_vocoder(a, t, b),
        decodes_vocoder(u, a),
        encodes_vocoder(c, u, a),
    ensures
        c == a,
{
    reveal(encodes_vocoder);
    lemma_shapes();
    lemma_field_le(a.sw_flags, 7, 0x01);
    lemma_small_and(flag_bit(u.on), 0x01);
    lemma_rewrite(a.sw_flags, 7, 0x01, flag_bit(u.on));
    lemma_field_le(a.sw_flags, 6, 0x01);
    lemma_small_and(flag_bit(u.source_formant_rec), 0x01);
    lemma_rewrite(a.sw_flags, 6, 0x01, flag_bit(u.source_formant_rec));
    lemma_field_le(a.sw_flags, 5, 0x01);
    lemma_small_and(flag_bit(u.hpf_gate), 0x01);
    lemma_rewrite(a.sw_flags, 5, 0x01, flag_bit(u.hpf_gate));
    lemma_field_le(a.sw_flags, 4, 0x01);
    lemma_small_and(flag_bit(u.formant_trig_reset), 0x01);
    lemma_rewrite(a.sw_flags, 4, 0x01, flag_bit(u.formant_trig_reset));
    let mid = with_field_bits(with_field_bits(with_field_bits(with_field_bits(b.sw_flags, 7, 0x1, flag_bit(t.on)), 6, 0x1, flag_bit(t.source_formant_rec)), 5, 0x1, flag_bit(t.hpf_gate)), 4, 0x1, flag_bit(t.formant_trig_reset));
    lemma_read_written(mid, 0, 0x03, flag_bit(t.select_timbre2));
    lemma_rewrite(a.sw_flags, 0, 0x03, flag_bit(u.select_timbre2));
    lemma_patch_source_code(t.fc_mod_src);
    lemma_read_written(b.shift_fcmodsrc, 0, 0x0F, t.fc_mod_src as u8);
    lemma_rewrite(a.shift_fcmodsrc, 0, 0x0F, u.fc_mod_src as u8);
    assert forall|i: int| 0 <= i < 32 implies c.bands[i] == a.bands[i] by {
        let k = i / 2;
        assert(i == 2 * k || i == 2 * k + 1);
        assert(c.bands[2 * k] == (u.band_pans[k]@ + 64) as u8);
        assert(a.bands[2 * k] == (t.band_pans[k]@ + 64) as u8);
    }
    assert(c.bands =~= a.bands);
}

/// Whether every character of a name is a nonzero ASCII character: such a
/// name is stored byte for byte.
pub open spec fn is_plain_name(s: Seq<char>) -> bool {
    forall|i: int| 0 <= i < s.len() ==> '\u{1}' <= #[trigger] s[i] <= '\u{7f}'
}

/// The text of stored name bytes whose first zero is at `k` (or that hold
/// none, `k` being their length) is their first `k` bytes as characters.
proof fn lemma_name_text(bytes: Seq<u8>, k: int)
    requires
        0 <= k <= bytes.len(),
        forall|i: int| 0 <= i < k ==> bytes[i] != 0,
        k == bytes.len() || bytes[k] == 0,
    ensures
        name_text(bytes) == Seq::new(k as nat, |i: int| bytes[i] as char),
    decreases bytes.len(),
{
    if bytes.len() == 0 || bytes[0] == 0 {
        assert(name_text(bytes) =~= Seq::new(k as nat, |i: int| bytes[i] as char));
    } else {
        lemma_name_text(bytes.drop_first(), k - 1);
        assert(name_text(bytes) =~= Seq::new(k as nat, |i: int| bytes[i] as char));
    }
}

/// Storing a plain name, reading it back and storing it again gives the
/// same bytes.
pub proof fn lemma_name_round_trip(s: Seq<char>)
    requires
        is_plain_name(s),
    ensures
        name_bytes(name_text(name_bytes(s))) == name_bytes(s),
{
    is_ascii_chars_encode_utf8(s);
    let e = encode_utf8(s);
    let nb = name_bytes(s);
    let k: int = if s.len() < 8 { s.len() as int } else { 8 };
    assert forall|i: int| 0 <= i < k implies nb[i] != 0 && nb[i] < 128 by {
        assert(nb[i] == e[i]);
        assert(e[i] == s[i] as u8);
    }
    lemma_name_text(nb, k);
    let t = name_text(nb);
    assert forall|i: int| 0 <= i < t.len() implies '\0' <= #[trigger] t[i] <= '\u{7f}' by {
        assert(t[i] == nb[i] as char);
    }
    is_ascii_chars_encode_utf8(t);
    let f = encode_utf8(t);
    assert forall|i: int| 0 <= i < 8 implies #[trigger] name_bytes(t)[i] == nb[i] by {
        if i < k {
            assert(f[i] == t[i] as u8);
        }
    }
    assert(name_bytes(t) =~= nb);
}

/// The arpeggiator byte of latch, octave range and last step, read into
/// its fields and stored again, is unchanged.
proof fn lemma_latch_oct_last(x: u8, a: Arpeggio)
    requires
        a.latch == (field_bits(x, 7, 1) == 1),
        a.octave_range == field_bits(x, 5, 3),
        a.last_step == field_bits(x, 0, 0x1F),
    ensures
        latch_oct_last_of(a) == x,
{
    assert(((x >> 7u8) & 1u8) == 1u8 ==> ((((x >> 0u8) & 0x1Fu8) & 0x1Fu8) | 0x80u8) | ((((x
        >> 5u8) & 3u8) & 0x03u8) << 5u8) == x) by (bit_vector);
    assert(((x >> 7u8) & 1u8) != 1u8 ==> ((((x >> 0u8) & 0x1Fu8) & 0x1Fu8) | 0u8) | ((((x
        >> 5u8) & 3u8) & 0x03u8) << 5u8) == x) by (bit_vector);
}

/// Whether every ranged parameter of the program lies in its range.
pub open spec fn program_in_range(p: Program) -> bool {
    &&& forall|i: int| 0 <= i < 4 ==> 0 <= #[trigger] p.vcd_knob_assigns[i]@ <= 55
    &&& 0 <= p.category@ <= 15
    &&& forall|i: int| 0 <= i < 20 ==> 0 <= #[trigger] p.master_fx.params[i]@ <= 127
    &&& 20 <= p.tempo@ <= 300
    &&& 0 <= p.arp.resolution@ <= 8
    &&& 0 <= p.arp.gate_time@ <= 100
    &&& -50 <= p.arp.swing@ <= 50
    &&& timbre_in_range(p.timbre1)
    &&& timbre_in_range(p.timbre2)
    &&& vocoder_in_range(p.vocoder)
}

/// A program with a plain name, written into its raw record and read back,
/// writes the same bytes again: decoding an encoded program and encoding it
/// once more gives back the encoded record.
#[verifier::spinoff_prover]
#[verifier::rlimit(100)]
pub proof fn lemma_program_round_trip(p: Program, r: RawProgram, q: Program, r2: RawProgram)
    requires
        program_in_range(p),
        is_plain_name(p.name@),
        encodes_program(r, p, p.backing()),
        decodes_program(q, r),
        encodes_program(r2, q, q.backing()),
    ensures
        r2 == r,
{
    let b = p.backing();
    lemma_timbre_round_trip(p.timbre1, b.timbre1, r.timbre1, q.timbre1, r2.timbre1);
    lemma_timbre_round_trip(p.timbre2, b.timbre2, r.timbre2, q.timbre2, r2.timbre2);
    lemma_vocoder_round_trip(p.vocoder, b.vocoder, r.vocoder, q.vocoder, r2.vocoder);
    lemma_name_round_trip(p.name@);
    assert(r2.name =~= r.name);
    lemma_shapes();
    lemma_voice_mode_code(p.voice_mode);
    lemma_arp_timbre_code(p.arp_timbre);
    lemma_read_written(b.voice_arp, 6, 0x03, p.voice_mode as u8);
    let mid = with_field_bits(b.voice_arp, 6, 0x03, p.voice_mode as u8);
    lemma_field_write_keeps_others(mid, 4, 0x03, p.arp_timbre as u8, 6, 0x03);
    lemma_read_written(mid, 4, 0x03, p.arp_timbre as u8);
    lemma_rewrite(r.voice_arp, 6, 0x03, q.voice_mode as u8);
    lemma_rewrite(r.voice_arp, 4, 0x03, q.arp_timbre as u8);
    assert(r2.vcd_knob_assigns =~= r.vcd_knob_assigns);
    lemma_timbre2_midi_ch_code(p.timbre2_midi_ch);
    lemma_field_le(r.octave_category, 4, 0x0F);
    lemma_small_and(field_bits(r.octave_category, 4, 0x0F), 0x0F);
    lemma_rewrite(r.octave_category, 4, 0x0F, clamp_int(q.octave_sw + 8, 0, 15) as u8);
    lemma_field_le(r.octave_category, 0, 0x0F);
    lemma_small_and(field_bits(r.octave_category, 0, 0x0F), 0x0F);
    lemma_rewrite(r.octave_category, 0, 0x0F, q.category@ as u8);
    lemma_fx_type_code(p.master_fx.fx_type);
    lemma_read_written(b.master_fx.fx_type, 0, 0x7F, p.master_fx.fx_type as u8);
    lemma_rewrite(r.master_fx.fx_type, 0, 0x7F, q.master_fx.fx_type as u8);
    lemma_and_idem(p.master_fx.knob_assign, 0x1F);
    assert(r2.master_fx.params =~= r.master_fx.params);
    let tempo = p.tempo@ as u16;
    lemma_tempo_round_trip(b, tempo);
    assert(tempo <= 300 ==> tempo & 0x3FFF == tempo) by (bit_vector);
    assert(tempo_of(r) == tempo_of(with_tempo(b, tempo)));
    assert(r2.tempo =~= r.tempo);
    lemma_field_le(r.arp_flags, 7, 0x01);
    lemma_small_and(flag_bit(q.arp.on), 0x01);
    lemma_rewrite(r.arp_flags, 7, 0x01, flag_bit(q.arp.on));
    lemma_field_le(r.arp_flags, 6, 0x01);
    lemma_small_and(flag_bit(q.arp.key_sync), 0x01);
    lemma_rewrite(r.arp_flags, 6, 0x01, flag_bit(q.arp.key_sync));
    lemma_arp_type_code(p.arp.arp_type);
    lemma_read_written(b.arpeggio.res_type, 4, 0x0F, p.arp.resolution@ as u8);
    let mid = with_field_bits(b.arpeggio.res_type, 4, 0x0F, p.arp.resolution@ as u8);
    lemma_field_write_keeps_others(mid, 0, 0x07, p.arp.arp_type as u8, 4, 0x0F);
    lemma_read_written(mid, 0, 0x07, p.arp.arp_type as u8);
    lemma_rewrite(r.arpeggio.res_type, 4, 0x0F, q.arp.resolution@ as u8);
    lemma_rewrite(r.arpeggio.res_type, 0, 0x07, q.arp.arp_type as u8);
    lemma_latch_oct_last(r.arpeggio.latch_oct_last, q.arp);
    assert(r2.arpeggio =~= r.arpeggio);
}

/// Whether every ranged setting of the global record lies in its range.
pub open spec fn global_in_range(g: Global) -> bool {
    &&& -100 <= g.master_tune@ <= 100
    &&& -12 <= g.transpose@ <= 12
    &&& forall|i: int| 0 <= i < 3 ==> 0 <= #[trigger] g.midi_ctrl[i]@ <= 115
}

/// Whether the controller map parts already hold the entry `e`.
pub open spec fn cc_entry_stored(lo: Seq<u8>, mid: Seq<u8>, hi: Seq<u8>, e: (u8, u8)) -> bool {
    if e.0 <= 31 {
        lo[e.0 as int] == e.1
    } else if e.0 <= 63 {
        mid[e.0 - 32] == e.1
    } else if e.0 <= 66 {
        hi[e.0 - 64] == e.1
    } else {
        true
    }
}

/// Writing entries that the map already holds leaves it unchanged.
proof fn lemma_cc_rewrite(lo: Seq<u8>, mid: Seq<u8>, hi: Seq<u8>, entries: Seq<(u8, u8)>)
    requires
        lo.len() == 32,
        mid.len() == 32,
        hi.len() == 3,
        forall|i: int| 0 <= i < entries.len() ==> cc_entry_stored(lo, mid, hi, #[trigger] entries[i]),
    ensures
        cc_written(lo, mid, hi, entries) == (lo, mid, hi),
    decreases entries.len(),
{
    if entries.len() > 0 {
        let n = entries.len() - 1;
        assert forall|i: int| 0 <= i < entries.drop_last().len() implies cc_entry_stored(lo, mid, hi, #[trigger] entries.drop_last()[i]) by {
            assert(entries.drop_last()[i] == entries[i]);
        }
        lemma_cc_rewrite(lo, mid, hi, entries.drop_last());
        assert(cc_entry_stored(lo, mid, hi, entries[n]));
        let (cc, dest) = entries.last();
        if cc <= 31 {
            assert(lo.update(cc as int, dest) =~= lo);
        } else if cc <= 63 {
            assert(mid.update(cc - 32, dest) =~= mid);
        } else if cc <= 66 {
            assert(hi.update(cc - 64, dest) =~= hi);
        }
    }
}

/// The entries read from one part of the map are held by the map.
proof fn lemma_cc_entries_stored(lo: Seq<u8>, mid: Seq<u8>, hi: Seq<u8>, map: Seq<u8>, base: int, n: nat)
    requires
        n <= map.len(),
        forall|k: int| 0 <= k < n ==> cc_entry_stored(lo, mid, hi, ((base + k) as u8, #[trigger] map[k])),
    ensures
        forall|i: int| 0 <= i < cc_entries(map, base, n).len() ==> cc_entry_stored(lo, mid, hi, #[trigger] cc_entries(map, base, n)[i]),
    decreases n,
{
    if n > 0 {
        lemma_cc_entries_stored(lo, mid, hi, map, base, (n - 1) as nat);
        let prev = cc_entries(map, base, (n - 1) as nat);
        assert(cc_entry_stored(lo, mid, hi, ((base + n - 1) as u8, map[n - 1])));
        if map[n - 1] != 0 {
            let cur = prev.push(((base + n - 1) as u8, map[n - 1]));
            assert forall|i: int| 0 <= i < cur.len() implies cc_entry_stored(lo, mid, hi, #[trigger] cur[i]) by {
                if i < prev.len() {
                    assert(cur[i] == prev[i]);
                }
            }
        }
    }
}

/// Writing back the controller map read from a record leaves the record's
/// map unchanged.
proof fn lemma_cc_map_round_trip(r: RawGlobal)
    ensures
        cc_written(r.cc_map_lo@, r.cc_map_mid@, r.cc_map_hi@, cc_map_of(r)) == (r.cc_map_lo@, r.cc_map_mid@, r.cc_map_hi@),
{
    let lo = r.cc_map_lo@;
    let mid = r.cc_map_mid@;
    let hi = r.cc_map_hi@;
    assert forall|k: int| 0 <= k < 32 implies cc_entry_stored(lo, mid, hi, ((0 + k) as u8, #[trigger] lo[k])) by {}
    assert forall|k: int| 0 <= k < 32 implies cc_entry_stored(lo, mid, hi, ((32 + k) as u8, #[trigger] mid[k])) by {}
    assert forall|k: int| 0 <= k < 3 implies cc_entry_stored(lo, mid, hi, ((64 + k) as u8, #[trigger] hi[k])) by {}
    lemma_cc_entries_stored(lo, mid, hi, lo, 0, 32);
    lemma_cc_entries_stored(lo, mid, hi, mid, 32, 32);
    lemma_cc_entries_stored(lo, mid, hi, hi, 64, 3);
    let e1 = cc_entries(lo, 0, 32);
    let e2 = cc_entries(mid, 32, 32);
    let e3 = cc_entries(hi, 64, 3);
    let all = e1 + e2 + e3;
    assert forall|i: int| 0 <= i < all.len() implies cc_entry_stored(lo, mid, hi, #[trigger] all[i]) by {
        if i < e1.len() {
            assert(all[i] == e1[i]);
        } else if i < e1.len() + e2.len() {
            assert(all[i] == e2[i - e1.len()]);
        } else {
            assert(all[i] == e3[i - e1.len() - e2.len()]);
        }
    }
    lemma_cc_rewrite(lo, mid, hi, all);
}

/// Bit 7 of a byte is set exactly when its top one-bit field is 1.
proof fn lemma_top_bit(x: u8)
    ensures
        (x & 0x80 != 0) == (field_bits(x, 7, 1) == 1),
        x & 0x0F == field_bits(x, 0, 0x0F),
{
    assert((x & 0x80u8 != 0u8) == (((x >> 7u8) & 1u8) == 1u8)) by (bit_vector);
    assert(x & 0x0Fu8 == (x >> 0u8) & 0x0Fu8) by (bit_vector);
}

/// Global settings written into a raw record and read back write the same
/// bytes again: decoding an encoded record and encoding it once more gives
/// back the encoded record.
#[verifier::spinoff_prover]
#[verifier::rlimit(60)]
pub proof fn lemma_global_round_trip(g: Global, r: RawGlobal, h: Global, r2: RawGlobal)
    requires
        global_in_range(g),
        encodes_global(r, g, g.backing()),
        decodes_global(h, r),
        encodes_global(r2, h, h.backing()),
    ensures
        r2 == r,
{
    let b = g.backing();
    lemma_shapes();
    lemma_top_bit(r.flags_2);
    lemma_field_le(r.flags_2, 7, 0x01);
    lemma_small_and(flag_bit(h.memory_protect), 0x01);
    lemma_rewrite(r.flags_2, 7, 0x01, flag_bit(h.memory_protect));
    lemma_top_bit(r.flags_5);
    lemma_field_le(r.flags_5, 7, 0x01);
    lemma_small_and(flag_bit(h.local_ctrl), 0x01);
    lemma_rewrite(r.flags_5, 7, 0x01, flag_bit(h.local_ctrl));
    lemma_vel_curve_code(g.velocity_curve);
    lemma_read_written(b.vel_curve, 0, 0x0F, g.velocity_curve as u8);
    lemma_top_bit(r.vel_curve);
    lemma_rewrite(r.vel_curve, 0, 0x0F, h.velocity_curve as u8);
    lemma_midi_channel_r3_code(g.midi_channel);
    lemma_read_written(b.midi_channel, 0, 0x0F, g.midi_channel as u8);
    lemma_top_bit(r.midi_channel);
    lemma_rewrite(r.midi_channel, 0, 0x0F, h.midi_channel as u8);
    assert(r2.midi_ctrl =~= r.midi_ctrl);
    lemma_cc_map_round_trip(r);
    assert(r2.cc_map_lo =~= r.cc_map_lo);
    assert(r2.cc_map_mid =~= r.cc_map_mid);
    assert(r2.cc_map_hi =~= r.cc_map_hi);
}

/// Every typed reading of a raw timbre has its fields in range.
pub proof fn lemma_decoded_timbre_in_range(t: Timbre, r: RawTimbre)
    requires
        decodes_timbre(t, r),
    ensures
        timbre_in_range(t),
{
}

/// Every typed reading of a raw vocoder has its fields in range.
pub proof fn lemma_decoded_vocoder_in_range(t: Vocoder, r: RawVocoder)
    requires
        decodes_vocoder(t, r),
    ensures
        vocoder_in_range(t),
{
}

/// Every typed reading of a raw program has its parameters in range.
#[verifier::spinoff_prover]
#[verifier::rlimit(60)]
pub proof fn lemma_decoded_program_in_range(p: Program, r: RawProgram)
    requires
        decodes_program(p, r),
    ensures
        program_in_range(p),
{
    lemma_decoded_timbre_in_range(p.timbre1, r.timbre1);
    lemma_decoded_timbre_in_range(p.timbre2, r.timbre2);
    lemma_decoded_vocoder_in_range(p.vocoder, r.vocoder);
}

/// Every typed reading of a raw global record has its settings in range.
pub proof fn lemma_decoded_global_in_range(g: Global, r: RawGlobal)
    requires
        decodes_global(g, r),
    ensures
        global_in_range(g),
{
}

} // verus!
