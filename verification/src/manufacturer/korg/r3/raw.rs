//! The R3 parameter records as laid out in memory and on the wire, with
//! accessors for the fields packed into bits.

use vstd::prelude::*;

use crate::music::theory::clamp_int;
use crate::sysex::extend_bytes;

verus! {

/// The field of `byte` that starts at bit `shift` and is `mask` wide.
pub open spec fn field_bits(byte: u8, shift: u8, mask: u8) -> u8 {
    (byte >> shift) & mask
}

/// `byte` with the field that starts at bit `shift` and is `mask` wide
/// replaced by `v` cut to that width.
pub open spec fn with_field_bits(byte: u8, shift: u8, mask: u8, v: u8) -> u8 {
    (byte & !(mask << shift)) | ((v & mask) << shift)
}

/// The bit that stores a flag.
pub open spec fn flag_bit(on: bool) -> u8 {
    if on {
        1
    } else {
        0
    }
}

/// Whether a field `mask` wide fits in a byte from bit `shift` up.
pub open spec fn field_fits(shift: u8, mask: u8) -> bool {
    shift < 8 && mask <= (0xFFu8 >> shift)
}

pub(crate) fn get_bits(byte: u8, shift: u8, mask: u8) -> (res: u8)
    requires
        shift < 8,
    ensures
        res == field_bits(byte, shift, mask),
        res <= mask,
{
    let res = (byte >> shift) & mask;
    assert(((byte >> shift) & mask) <= mask) by (bit_vector);
    res
}

pub(crate) fn set_bits(byte: u8, shift: u8, mask: u8, v: u8) -> (res: u8)
    requires
        shift < 8,
    ensures
        res == with_field_bits(byte, shift, mask, v),
{
    (byte & !(mask << shift)) | ((v & mask) << shift)
}

/// Reading a packed field after writing it gives the written value cut to
/// the field's width.
pub proof fn lemma_field_read_after_write(byte: u8, shift: u8, mask: u8, v: u8)
    requires
        field_fits(shift, mask),
    ensures
        field_bits(with_field_bits(byte, shift, mask, v), shift, mask) == v & mask,
{
    assert(shift < 8 && mask <= (0xFFu8 >> shift) ==> ((((byte & !(mask << shift)) | ((v & mask)
        << shift)) >> shift) & mask) == v & mask) by (bit_vector);
}

/// Writing a packed field leaves every field of the same byte that does not
/// overlap it unchanged.
pub proof fn lemma_field_write_keeps_others(
    byte: u8,
    shift: u8,
    mask: u8,
    v: u8,
    other_shift: u8,
    other_mask: u8,
)
    requires
        field_fits(shift, mask),
        field_fits(other_shift, other_mask),
        (mask << shift) & (other_mask << other_shift) == 0,
    ensures
        field_bits(with_field_bits(byte, shift, mask, v), other_shift, other_mask) == field_bits(
            byte,
            other_shift,
            other_mask,
        ),
{
    assert(shift < 8 && mask <= (0xFFu8 >> shift) && other_shift < 8 && other_mask <= (0xFFu8
        >> other_shift) && (mask << shift) & (other_mask << other_shift) == 0 ==> ((((byte & !(mask
        << shift)) | ((v & mask) << shift)) >> other_shift) & other_mask) == ((byte >> other_shift)
        & other_mask)) by (bit_vector);
}

#[derive(Debug, Copy, Clone, PartialEq, Eq)]
pub struct RawTimbreProgram {
    pub knob_assigns: [u8; 4],
    pub voice_unison: u8,
    pub unison_detune: u8,
    pub unison_spread: u8,
    pub voice_assign: u8,
    pub _dummy8: u8,
    pub analog_tuning: u8,
    pub transpose: u8,
    pub detune: u8,
    pub vibrato_int: u8,
    pub bend_range: u8,
    pub portamento: u8,
    pub _dummy15: u8,
    pub osc1_wave_mod: u8,
    pub osc1_ctrl1: u8,
    pub osc1_ctrl2: u8,
    pub osc1_dwgs: u8,
    pub _dummy20: u8,
    pub osc2_wave_mod: u8,
    pub osc2_semitone: u8,
    pub osc2_tune: u8,
    pub osc1_level: u8,
    pub osc2_level: u8,
    pub noise_level: u8,
    pub _dummy27: u8,
    pub filter_routing_type2: u8,
    pub filter1_balance: u8,
    pub filter1_cutoff: u8,
    pub filter1_resonance: u8,
    pub filter1_eg1_int: u8,
    pub filter1_key_track: u8,
    pub filter1_velo_sens: u8,
    pub filter2_cutoff: u8,
    pub filter2_resonance: u8,
    pub filter2_eg1_int: u8,
    pub filter2_key_track: u8,
    pub filter2_velo_sens: u8,
    pub amp_level: u8,
    pub amp_ws_position: u8,
    pub amp_ws_type: u8,
    pub amp_ws_depth: u8,
    pub amp_panpot: u8,
    pub amp_key_track: u8,
    pub punch_level: u8,
    pub _dummy47: u8,
    pub eg1_attack: u8,
    pub eg1_decay: u8,
    pub eg1_sustain: u8,
    pub eg1_release: u8,
    pub eg1_level_velo: u8,
    pub _dummy53: u8,
    pub eg2_attack: u8,
    pub eg2_decay: u8,
    pub eg2_sustain: u8,
    pub eg2_release: u8,
    pub eg2_level_velo: u8,
    pub _dummy59: u8,
    pub eg3_attack: u8,
    pub eg3_decay: u8,
    pub eg3_sustain: u8,
    pub eg3_release: u8,
    pub eg3_level_velo: u8,
    pub _dummy65: u8,
    pub lfo1_wave: u8,
    pub lfo1_freq: u8,
    pub lfo1_sync: u8,
    pub lfo1_sync_note: u8,
    pub lfo2_wave: u8,
    pub lfo2_freq: u8,
    pub lfo2_sync: u8,
    pub lfo2_sync_note: u8,
    pub patch1_src: u8,
    pub patch1_dst: u8,
    pub patch1_int: u8,
    pub patch2_src: u8,
    pub patch2_dst: u8,
    pub patch2_int: u8,
    pub patch3_src: u8,
    pub patch3_dst: u8,
    pub patch3_int: u8,
    pub patch4_src: u8,
    pub patch4_dst: u8,
    pub patch4_int: u8,
    pub patch5_src: u8,
    pub patch5_dst: u8,
    pub patch5_int: u8,
    pub patch6_src: u8,
    pub patch6_dst: u8,
    pub patch6_int: u8,
}

impl RawTimbreProgram {
    /// The size of the record in bytes.
    pub const SIZE: usize = 92;

    /// The bytes of the record, fields in declaration order.
    pub open spec fn bytes(&self) -> Seq<u8> {
        self.knob_assigns@
            + seq![self.voice_unison, self.unison_detune, self.unison_spread, self.voice_assign, self._dummy8, self.analog_tuning, self.transpose, self.detune, self.vibrato_int, self.bend_range, self.portamento, self._dummy15, self.osc1_wave_mod, self.osc1_ctrl1, self.osc1_ctrl2, self.osc1_dwgs, self._dummy20, self.osc2_wave_mod, self.osc2_semitone, self.osc2_tune, self.osc1_level, self.osc2_level, self.noise_level, self._dummy27, self.filter_routing_type2, self.filter1_balance, self.filter1_cutoff, self.filter1_resonance, self.filter1_eg1_int, self.filter1_key_track, self.filter1_velo_sens, self.filter2_cutoff, self.filter2_resonance, self.filter2_eg1_int, self.filter2_key_track, self.filter2_velo_sens, self.amp_level, self.amp_ws_position, self.amp_ws_type, self.amp_ws_depth, self.amp_panpot, self.amp_key_track, self.punch_level, self._dummy47, self.eg1_attack, self.eg1_decay, self.eg1_sustain, self.eg1_release, self.eg1_level_velo, self._dummy53, self.eg2_attack, self.eg2_decay, self.eg2_sustain, self.eg2_release, self.eg2_level_velo, self._dummy59, self.eg3_attack, self.eg3_decay, self.eg3_sustain, self.eg3_release, self.eg3_level_velo, self._dummy65, self.lfo1_wave, self.lfo1_freq, self.lfo1_sync, self.lfo1_sync_note, self.lfo2_wave, self.lfo2_freq, self.lfo2_sync, self.lfo2_sync_note, self.patch1_src, self.patch1_dst, self.patch1_int, self.patch2_src, self.patch2_dst, self.patch2_int, self.patch3_src, self.patch3_dst, self.patch3_int, self.patch4_src, self.patch4_dst, self.patch4_int, self.patch5_src, self.patch5_dst, self.patch5_int, self.patch6_src, self.patch6_dst, self.patch6_int]
    }

    /// The bytes of the record, fields in declaration order.
    #[verifier::spinoff_prover]
    #[verifier::rlimit(40)]
    pub fn as_bytes(&self) -> (res: Vec<u8>)
        ensures
            res@ == self.bytes(),
            res@.len() == Self::SIZE,
    {
        let mut out: Vec<u8> = Vec::new();
        extend_bytes(&mut out, self.knob_assigns.as_slice());
        out.push(self.voice_unison);
        out.push(self.unison_detune);
        out.push(self.unison_spread);
        out.push(self.voice_assign);
        out.push(self._dummy8);
        out.push(self.analog_tuning);
        out.push(self.transpose);
        out.push(self.detune);
        out.push(self.vibrato_int);
        out.push(self.bend_range);
        out.push(self.portamento);
        out.push(self._dummy15);
        out.push(self.osc1_wave_mod);
        out.push(self.osc1_ctrl1);
        out.push(self.osc1_ctrl2);
        out.push(self.osc1_dwgs);
        out.push(self._dummy20);
        out.push(self.osc2_wave_mod);
        out.push(self.osc2_semitone);
        out.push(self.osc2_tune);
        out.push(self.osc1_level);
        out.push(self.osc2_level);
        out.push(self.noise_level);
        out.push(self._dummy27);
        out.push(self.filter_routing_type2);
        out.push(self.filter1_balance);
        out.push(self.filter1_cutoff);
        out.push(self.filter1_resonance);
        out.push(self.filter1_eg1_int);
        out.push(self.filter1_key_track);
        out.push(self.filter1_velo_sens);
        out.push(self.filter2_cutoff);
        out.push(self.filter2_resonance);
        out.push(self.filter2_eg1_int);
        out.push(self.filter2_key_track);
        out.push(self.filter2_velo_sens);
        out.push(self.amp_level);
        out.push(self.amp_ws_position);
        out.push(self.amp_ws_type);
        out.push(self.amp_ws_depth);
        out.push(self.amp_panpot);
        out.push(self.amp_key_track);
        out.push(self.punch_level);
        out.push(self._dummy47);
        out.push(self.eg1_attack);
        out.push(self.eg1_decay);
        out.push(self.eg1_sustain);
        out.push(self.eg1_release);
        out.push(self.eg1_level_velo);
        out.push(self._dummy53);
        out.push(self.eg2_attack);
        out.push(self.eg2_decay);
        out.push(self.eg2_sustain);
        out.push(self.eg2_release);
        out.push(self.eg2_level_velo);
        out.push(self._dummy59);
        out.push(self.eg3_attack);
        out.push(self.eg3_decay);
        out.push(self.eg3_sustain);
        out.push(self.eg3_release);
        out.push(self.eg3_level_velo);
        out.push(self._dummy65);
        out.push(self.lfo1_wave);
        out.push(self.lfo1_freq);
        out.push(self.lfo1_sync);
        out.push(self.lfo1_sync_note);
        out.push(self.lfo2_wave);
        out.push(self.lfo2_freq);
        out.push(self.lfo2_sync);
        out.push(self.lfo2_sync_note);
        out.push(self.patch1_src);
        out.push(self.patch1_dst);
        out.push(self.patch1_int);
        out.push(self.patch2_src);
        out.push(self.patch2_dst);
        out.push(self.patch2_int);
        out.push(self.patch3_src);
        out.push(self.patch3_dst);
        out.push(self.patch3_int);
        out.push(self.patch4_src);
        out.push(self.patch4_dst);
        out.push(self.patch4_int);
        out.push(self.patch5_src);
        out.push(self.patch5_dst);
        out.push(self.patch5_int);
        out.push(self.patch6_src);
        out.push(self.patch6_dst);
        out.push(self.patch6_int);
        assert(out@ =~= self.bytes());
        out
    }

    /// The record whose bytes are `data`.
    #[verifier::spinoff_prover]
    #[verifier::rlimit(40)]
    pub fn from_bytes(data: &[u8]) -> (res: Self)
        requires
            data@.len() == Self::SIZE,
        ensures
            res.bytes() == data@,
    {
        let res = RawTimbreProgram {
            knob_assigns: [data[0], data[1], data[2], data[3]],
            voice_unison: data[4],
            unison_detune: data[5],
            unison_spread: data[6],
            voice_assign: data[7],
            _dummy8: data[8],
            analog_tuning: data[9],
            transpose: data[10],
            detune: data[11],
            vibrato_int: data[12],
            bend_range: data[13],
            portamento: data[14],
            _dummy15: data[15],
            osc1_wave_mod: data[16],
            osc1_ctrl1: data[17],
            osc1_ctrl2: data[18],
            osc1_dwgs: data[19],
            _dummy20: data[20],
            osc2_wave_mod: data[21],
            osc2_semitone: data[22],
            osc2_tune: data[23],
            osc1_level: data[24],
            osc2_level: data[25],
            noise_level: data[26],
            _dummy27: data[27],
            filter_routing_type2: data[28],
            filter1_balance: data[29],
            filter1_cutoff: data[30],
            filter1_resonance: data[31],
            filter1_eg1_int: data[32],
            filter1_key_track: data[33],
            filter1_velo_sens: data[34],
            filter2_cutoff: data[35],
            filter2_resonance: data[36],
            filter2_eg1_int: data[37],
            filter2_key_track: data[38],
            filter2_velo_sens: data[39],
            amp_level: data[40],
            amp_ws_position: data[41],
            amp_ws_type: data[42],
            amp_ws_depth: data[43],
            amp_panpot: data[44],
            amp_key_track: data[45],
            punch_level: data[46],
            _dummy47: data[47],
            eg1_attack: data[48],
            eg1_decay: data[49],
            eg1_sustain: data[50],
            eg1_release: data[51],
            eg1_level_velo: data[52],
            _dummy53: data[53],
            eg2_attack: data[54],
            eg2_decay: data[55],
            eg2_sustain: data[56],
            eg2_release: data[57],
            eg2_level_velo: data[58],
            _dummy59: data[59],
            eg3_attack: data[60],
            eg3_decay: data[61],
            eg3_sustain: data[62],
            eg3_release: data[63],
            eg3_level_velo: data[64],
            _dummy65: data[65],
            lfo1_wave: data[66],
            lfo1_freq: data[67],
            lfo1_sync: data[68],
            lfo1_sync_note: data[69],
            lfo2_wave: data[70],
            lfo2_freq: data[71],
            lfo2_sync: data[72],
            lfo2_sync_note: data[73],
            patch1_src: data[74],
            patch1_dst: data[75],
            patch1_int: data[76],
            patch2_src: data[77],
            patch2_dst: data[78],
            patch2_int: data[79],
            patch3_src: data[80],
            patch3_dst: data[81],
            patch3_int: data[82],
            patch4_src: data[83],
            patch4_dst: data[84],
            patch4_int: data[85],
            patch5_src: data[86],
            patch5_dst: data[87],
            patch5_int: data[88],
            patch6_src: data[89],
            patch6_dst: data[90],
            patch6_int: data[91],
        };
        assert(res.bytes() =~= data@);
        res
    }

    /// The record with every byte zero.
    pub fn zeroed() -> (res: Self)
        ensures
            res.bytes() == Seq::new(Self::SIZE as nat, |i: int| 0u8),
            res.knob_assigns@ == Seq::new(4, |i: int| 0u8),
            res.voice_unison == 0,
            res.unison_detune == 0,
            res.unison_spread == 0,
            res.voice_assign == 0,
            res._dummy8 == 0,
            res.analog_tuning == 0,
            res.transpose == 0,
            res.detune == 0,
            res.vibrato_int == 0,
            res.bend_range == 0,
            res.portamento == 0,
            res._dummy15 == 0,
            res.osc1_wave_mod == 0,
            res.osc1_ctrl1 == 0,
            res.osc1_ctrl2 == 0,
            res.osc1_dwgs == 0,
            res._dummy20 == 0,
            res.osc2_wave_mod == 0,
            res.osc2_semitone == 0,
            res.osc2_tune == 0,
            res.osc1_level == 0,
            res.osc2_level == 0,
            res.noise_level == 0,
            res._dummy27 == 0,
            res.filter_routing_type2 == 0,
            res.filter1_balance == 0,
            res.filter1_cutoff == 0,
            res.filter1_resonance == 0,
            res.filter1_eg1_int == 0,
            res.filter1_key_track == 0,
            res.filter1_velo_sens == 0,
            res.filter2_cutoff == 0,
            res.filter2_resonance == 0,
            res.filter2_eg1_int == 0,
            res.filter2_key_track == 0,
            res.filter2_velo_sens == 0,
            res.amp_level == 0,
            res.amp_ws_position == 0,
            res.amp_ws_type == 0,
            res.amp_ws_depth == 0,
            res.amp_panpot == 0,
            res.amp_key_track == 0,
            res.punch_level == 0,
            res._dummy47 == 0,
            res.eg1_attack == 0,
            res.eg1_decay == 0,
            res.eg1_sustain == 0,
            res.eg1_release == 0,
            res.eg1_level_velo == 0,
            res._dummy53 == 0,
            res.eg2_attack == 0,
            res.eg2_decay == 0,
            res.eg2_sustain == 0,
            res.eg2_release == 0,
            res.eg2_level_velo == 0,
            res._dummy59 == 0,
            res.eg3_attack == 0,
            res.eg3_decay == 0,
            res.eg3_sustain == 0,
            res.eg3_release == 0,
            res.eg3_level_velo == 0,
            res._dummy65 == 0,
            res.lfo1_wave == 0,
            res.lfo1_freq == 0,
            res.lfo1_sync == 0,
            res.lfo1_sync_note == 0,
            res.lfo2_wave == 0,
            res.lfo2_freq == 0,
            res.lfo2_sync == 0,
            res.lfo2_sync_note == 0,
            res.patch1_src == 0,
            res.patch1_dst == 0,
            res.patch1_int == 0,
            res.patch2_src == 0,
            res.patch2_dst == 0,
            res.patch2_int == 0,
            res.patch3_src == 0,
            res.patch3_dst == 0,
            res.patch3_int == 0,
            res.patch4_src == 0,
            res.patch4_dst == 0,
            res.patch4_int == 0,
            res.patch5_src == 0,
            res.patch5_dst == 0,
            res.patch5_int == 0,
            res.patch6_src == 0,
            res.patch6_dst == 0,
            res.patch6_int == 0,
    {
        let res = RawTimbreProgram {
            knob_assigns: [0; 4],
            voice_unison: 0,
            unison_detune: 0,
            unison_spread: 0,
            voice_assign: 0,
            _dummy8: 0,
            analog_tuning: 0,
            transpose: 0,
            detune: 0,
            vibrato_int: 0,
            bend_range: 0,
            portamento: 0,
            _dummy15: 0,
            osc1_wave_mod: 0,
            osc1_ctrl1: 0,
            osc1_ctrl2: 0,
            osc1_dwgs: 0,
            _dummy20: 0,
            osc2_wave_mod: 0,
            osc2_semitone: 0,
            osc2_tune: 0,
            osc1_level: 0,
            osc2_level: 0,
            noise_level: 0,
            _dummy27: 0,
            filter_routing_type2: 0,
            filter1_balance: 0,
            filter1_cutoff: 0,
            filter1_resonance: 0,
            filter1_eg1_int: 0,
            filter1_key_track: 0,
            filter1_velo_sens: 0,
            filter2_cutoff: 0,
            filter2_resonance: 0,
            filter2_eg1_int: 0,
            filter2_key_track: 0,
            filter2_velo_sens: 0,
            amp_level: 0,
            amp_ws_position: 0,
            amp_ws_type: 0,
            amp_ws_depth: 0,
            amp_panpot: 0,
            amp_key_track: 0,
            punch_level: 0,
            _dummy47: 0,
            eg1_attack: 0,
            eg1_decay: 0,
            eg1_sustain: 0,
            eg1_release: 0,
            eg1_level_velo: 0,
            _dummy53: 0,
            eg2_attack: 0,
            eg2_decay: 0,
            eg2_sustain: 0,
            eg2_release: 0,
            eg2_level_velo: 0,
            _dummy59: 0,
            eg3_attack: 0,
            eg3_decay: 0,
            eg3_sustain: 0,
            eg3_release: 0,
            eg3_level_velo: 0,
            _dummy65: 0,
            lfo1_wave: 0,
            lfo1_freq: 0,
            lfo1_sync: 0,
            lfo1_sync_note: 0,
            lfo2_wave: 0,
            lfo2_freq: 0,
            lfo2_sync: 0,
            lfo2_sync_note: 0,
            patch1_src: 0,
            patch1_dst: 0,
            patch1_int: 0,
            patch2_src: 0,
            patch2_dst: 0,
            patch2_int: 0,
            patch3_src: 0,
            patch3_dst: 0,
            patch3_int: 0,
            patch4_src: 0,
            patch4_dst: 0,
            patch4_int: 0,
            patch5_src: 0,
            patch5_dst: 0,
            patch5_int: 0,
            patch6_src: 0,
            patch6_dst: 0,
            patch6_int: 0,
        };
        assert(res.bytes() =~= Seq::new(Self::SIZE as nat, |i: int| 0u8));
        res
    }

    /// Records with the same bytes are equal.
    #[verifier::spinoff_prover]
    #[verifier::rlimit(60)]
    pub proof fn lemma_bytes_injective(a: Self, b: Self)
        requires
            a.bytes() == b.bytes(),
        ensures
            a == b,
    {
        assert(a.bytes().subrange(0, 4) == a.knob_assigns@ && b.bytes().subrange(0, 4) == b.knob_assigns@);
        assert(a.knob_assigns =~= b.knob_assigns);
        assert(a.bytes()[4] == a.voice_unison && b.bytes()[4] == b.voice_unison);
        assert(a.bytes()[5] == a.unison_detune && b.bytes()[5] == b.unison_detune);
        assert(a.bytes()[6] == a.unison_spread && b.bytes()[6] == b.unison_spread);
        assert(a.bytes()[7] == a.voice_assign && b.bytes()[7] == b.voice_assign);
        assert(a.bytes()[8] == a._dummy8 && b.bytes()[8] == b._dummy8);
        assert(a.bytes()[9] == a.analog_tuning && b.bytes()[9] == b.analog_tuning);
        assert(a.bytes()[10] == a.transpose && b.bytes()[10] == b.transpose);
        assert(a.bytes()[11] == a.detune && b.bytes()[11] == b.detune);
        assert(a.bytes()[12] == a.vibrato_int && b.bytes()[12] == b.vibrato_int);
        assert(a.bytes()[13] == a.bend_range && b.bytes()[13] == b.bend_range);
        assert(a.bytes()[14] == a.portamento && b.bytes()[14] == b.portamento);
        assert(a.bytes()[15] == a._dummy15 && b.bytes()[15] == b._dummy15);
        assert(a.bytes()[16] == a.osc1_wave_mod && b.bytes()[16] == b.osc1_wave_mod);
        assert(a.bytes()[17] == a.osc1_ctrl1 && b.bytes()[17] == b.osc1_ctrl1);
        assert(a.bytes()[18] == a.osc1_ctrl2 && b.bytes()[18] == b.osc1_ctrl2);
        assert(a.bytes()[19] == a.osc1_dwgs && b.bytes()[19] == b.osc1_dwgs);
        assert(a.bytes()[20] == a._dummy20 && b.bytes()[20] == b._dummy20);
        assert(a.bytes()[21] == a.osc2_wave_mod && b.bytes()[21] == b.osc2_wave_mod);
        assert(a.bytes()[22] == a.osc2_semitone && b.bytes()[22] == b.osc2_semitone);
        assert(a.bytes()[23] == a.osc2_tune && b.bytes()[23] == b.osc2_tune);
        assert(a.bytes()[24] == a.osc1_level && b.bytes()[24] == b.osc1_level);
        assert(a.bytes()[25] == a.osc2_level && b.bytes()[25] == b.osc2_level);
        assert(a.bytes()[26] == a.noise_level && b.bytes()[26] == b.noise_level);
        assert(a.bytes()[27] == a._dummy27 && b.bytes()[27] == b._dummy27);
        assert(a.bytes()[28] == a.filter_routing_type2 && b.bytes()[28] == b.filter_routing_type2);
        assert(a.bytes()[29] == a.filter1_balance && b.bytes()[29] == b.filter1_balance);
        assert(a.bytes()[30] == a.filter1_cutoff && b.bytes()[30] == b.filter1_cutoff);
        assert(a.bytes()[31] == a.filter1_resonance && b.bytes()[31] == b.filter1_resonance);
        assert(a.bytes()[32] == a.filter1_eg1_int && b.bytes()[32] == b.filter1_eg1_int);
        assert(a.bytes()[33] == a.filter1_key_track && b.bytes()[33] == b.filter1_key_track);
        assert(a.bytes()[34] == a.filter1_velo_sens && b.bytes()[34] == b.filter1_velo_sens);
        assert(a.bytes()[35] == a.filter2_cutoff && b.bytes()[35] == b.filter2_cutoff);
        assert(a.bytes()[36] == a.filter2_resonance && b.bytes()[36] == b.filter2_resonance);
        assert(a.bytes()[37] == a.filter2_eg1_int && b.bytes()[37] == b.filter2_eg1_int);
        assert(a.bytes()[38] == a.filter2_key_track && b.bytes()[38] == b.filter2_key_track);
        assert(a.bytes()[39] == a.filter2_velo_sens && b.bytes()[39] == b.filter2_velo_sens);
        assert(a.bytes()[40] == a.amp_level && b.bytes()[40] == b.amp_level);
        assert(a.bytes()[41] == a.amp_ws_position && b.bytes()[41] == b.amp_ws_position);
        assert(a.bytes()[42] == a.amp_ws_type && b.bytes()[42] == b.amp_ws_type);
        assert(a.bytes()[43] == a.amp_ws_depth && b.bytes()[43] == b.amp_ws_depth);
        assert(a.bytes()[44] == a.amp_panpot && b.bytes()[44] == b.amp_panpot);
        assert(a.bytes()[45] == a.amp_key_track && b.bytes()[45] == b.amp_key_track);
        assert(a.bytes()[46] == a.punch_level && b.bytes()[46] == b.punch_level);
        assert(a.bytes()[47] == a._dummy47 && b.bytes()[47] == b._dummy47);
        assert(a.bytes()[48] == a.eg1_attack && b.bytes()[48] == b.eg1_attack);
        assert(a.bytes()[49] == a.eg1_decay && b.bytes()[49] == b.eg1_decay);
        assert(a.bytes()[50] == a.eg1_sustain && b.bytes()[50] == b.eg1_sustain);
        assert(a.bytes()[51] == a.eg1_release && b.bytes()[51] == b.eg1_release);
        assert(a.bytes()[52] == a.eg1_level_velo && b.bytes()[52] == b.eg1_level_velo);
        assert(a.bytes()[53] == a._dummy53 && b.bytes()[53] == b._dummy53);
        assert(a.bytes()[54] == a.eg2_attack && b.bytes()[54] == b.eg2_attack);
        assert(a.bytes()[55] == a.eg2_decay && b.bytes()[55] == b.eg2_decay);
        assert(a.bytes()[56] == a.eg2_sustain && b.bytes()[56] == b.eg2_sustain);
        assert(a.bytes()[57] == a.eg2_release && b.bytes()[57] == b.eg2_release);
        assert(a.bytes()[58] == a.eg2_level_velo && b.bytes()[58] == b.eg2_level_velo);
        assert(a.bytes()[59] == a._dummy59 && b.bytes()[59] == b._dummy59);
        assert(a.bytes()[60] == a.eg3_attack && b.bytes()[60] == b.eg3_attack);
        assert(a.bytes()[61] == a.eg3_decay && b.bytes()[61] == b.eg3_decay);
        assert(a.bytes()[62] == a.eg3_sustain && b.bytes()[62] == b.eg3_sustain);
        assert(a.bytes()[63] == a.eg3_release && b.bytes()[63] == b.eg3_release);
        assert(a.bytes()[64] == a.eg3_level_velo && b.bytes()[64] == b.eg3_level_velo);
        assert(a.bytes()[65] == a._dummy65 && b.bytes()[65] == b._dummy65);
        assert(a.bytes()[66] == a.lfo1_wave && b.bytes()[66] == b.lfo1_wave);
        assert(a.bytes()[67] == a.lfo1_freq && b.bytes()[67] == b.lfo1_freq);
        assert(a.bytes()[68] == a.lfo1_sync && b.bytes()[68] == b.lfo1_sync);
        assert(a.bytes()[69] == a.lfo1_sync_note && b.bytes()[69] == b.lfo1_sync_note);
        assert(a.bytes()[70] == a.lfo2_wave && b.bytes()[70] == b.lfo2_wave);
        assert(a.bytes()[71] == a.lfo2_freq && b.bytes()[71] == b.lfo2_freq);
        assert(a.bytes()[72] == a.lfo2_sync && b.bytes()[72] == b.lfo2_sync);
        assert(a.bytes()[73] == a.lfo2_sync_note && b.bytes()[73] == b.lfo2_sync_note);
        assert(a.bytes()[74] == a.patch1_src && b.bytes()[74] == b.patch1_src);
        assert(a.bytes()[75] == a.patch1_dst && b.bytes()[75] == b.patch1_dst);
        assert(a.bytes()[76] == a.patch1_int && b.bytes()[76] == b.patch1_int);
        assert(a.bytes()[77] == a.patch2_src && b.bytes()[77] == b.patch2_src);
        assert(a.bytes()[78] == a.patch2_dst && b.bytes()[78] == b.patch2_dst);
        assert(a.bytes()[79] == a.patch2_int && b.bytes()[79] == b.patch2_int);
        assert(a.bytes()[80] == a.patch3_src && b.bytes()[80] == b.patch3_src);
        assert(a.bytes()[81] == a.patch3_dst && b.bytes()[81] == b.patch3_dst);
        assert(a.bytes()[82] == a.patch3_int && b.bytes()[82] == b.patch3_int);
        assert(a.bytes()[83] == a.patch4_src && b.bytes()[83] == b.patch4_src);
        assert(a.bytes()[84] == a.patch4_dst && b.bytes()[84] == b.patch4_dst);
        assert(a.bytes()[85] == a.patch4_int && b.bytes()[85] == b.patch4_int);
        assert(a.bytes()[86] == a.patch5_src && b.bytes()[86] == b.patch5_src);
        assert(a.bytes()[87] == a.patch5_dst && b.bytes()[87] == b.patch5_dst);
        assert(a.bytes()[88] == a.patch5_int && b.bytes()[88] == b.patch5_int);
        assert(a.bytes()[89] == a.patch6_src && b.bytes()[89] == b.patch6_src);
        assert(a.bytes()[90] == a.patch6_dst && b.bytes()[90] == b.patch6_dst);
        assert(a.bytes()[91] == a.patch6_int && b.bytes()[91] == b.patch6_int);
    }

}

#[derive(Debug, Copy, Clone, PartialEq, Eq)]
pub struct RawInsertFx {
    pub fx1_type: u8,
    pub _dummy1: u8,
    pub fx1_knob_assign: u8,
    pub _dummy3: u8,
    pub fx1_params: [u8; 20],
    pub fx2_type: u8,
    pub _dummy25: u8,
    pub fx2_knob_assign: u8,
    pub _dummy27: u8,
    pub fx2_params: [u8; 20],
    pub eq_low_freq: u8,
    pub eq_low_gain: u8,
    pub eq_hi_freq: u8,
    pub eq_hi_gain: u8,
}

impl RawInsertFx {
    /// The size of the record in bytes.
    pub const SIZE: usize = 52;

    /// The bytes of the record, fields in declaration order.
    pub open spec fn bytes(&self) -> Seq<u8> {
        seq![self.fx1_type, self._dummy1, self.fx1_knob_assign, self._dummy3]
            + self.fx1_params@
            + seq![self.fx2_type, self._dummy25, self.fx2_knob_assign, self._dummy27]
            + self.fx2_params@
            + seq![self.eq_low_freq, self.eq_low_gain, self.eq_hi_freq, self.eq_hi_gain]
    }

    /// The bytes of the record, fields in declaration order.
    #[verifier::spinoff_prover]
    #[verifier::rlimit(40)]
    pub fn as_bytes(&self) -> (res: Vec<u8>)
        ensures
            res@ == self.bytes(),
            res@.len() == Self::SIZE,
    {
        let mut out: Vec<u8> = Vec::new();
        out.push(self.fx1_type);
        out.push(self._dummy1);
        out.push(self.fx1_knob_assign);
        out.push(self._dummy3);
        extend_bytes(&mut out, self.fx1_params.as_slice());
        out.push(self.fx2_type);
        out.push(self._dummy25);
        out.push(self.fx2_knob_assign);
        out.push(self._dummy27);
        extend_bytes(&mut out, self.fx2_params.as_slice());
        out.push(self.eq_low_freq);
        out.push(self.eq_low_gain);
        out.push(self.eq_hi_freq);
        out.push(self.eq_hi_gain);
        assert(out@ =~= self.bytes());
        out
    }

    /// The record whose bytes are `data`.
    #[verifier::spinoff_prover]
    #[verifier::rlimit(40)]
    pub fn from_bytes(data: &[u8]) -> (res: Self)
        requires
            data@.len() == Self::SIZE,
        ensures
            res.bytes() == data@,
    {
        let res = RawInsertFx {
            fx1_type: data[0],
            _dummy1: data[1],
            fx1_knob_assign: data[2],
            _dummy3: data[3],
            fx1_params: [data[4], data[5], data[6], data[7], data[8], data[9], data[10], data[11], data[12], data[13], data[14], data[15], data[16], data[17], data[18], data[19], data[20], data[21], data[22], data[23]],
            fx2_type: data[24],
            _dummy25: data[25],
            fx2_knob_assign: data[26],
            _dummy27: data[27],
            fx2_params: [data[28], data[29], data[30], data[31], data[32], data[33], data[34], data[35], data[36], data[37], data[38], data[39], data[40], data[41], data[42], data[43], data[44], data[45], data[46], data[47]],
            eq_low_freq: data[48],
            eq_low_gain: data[49],
            eq_hi_freq: data[50],
            eq_hi_gain: data[51],
        };
        assert(res.bytes() =~= data@);
        res
    }

    /// The record with every byte zero.
    pub fn zeroed() -> (res: Self)
        ensures
            res.bytes() == Seq::new(Self::SIZE as nat, |i: int| 0u8),
            res.fx1_type == 0,
            res._dummy1 == 0,
            res.fx1_knob_assign == 0,
            res._dummy3 == 0,
            res.fx1_params@ == Seq::new(20, |i: int| 0u8),
            res.fx2_type == 0,
            res._dummy25 == 0,
            res.fx2_knob_assign == 0,
            res._dummy27 == 0,
            res.fx2_params@ == Seq::new(20, |i: int| 0u8),
            res.eq_low_freq == 0,
            res.eq_low_gain == 0,
            res.eq_hi_freq == 0,
            res.eq_hi_gain == 0,
    {
        let res = RawInsertFx {
            fx1_type: 0,
            _dummy1: 0,
            fx1_knob_assign: 0,
            _dummy3: 0,
            fx1_params: [0; 20],
            fx2_type: 0,
            _dummy25: 0,
            fx2_knob_assign: 0,
            _dummy27: 0,
            fx2_params: [0; 20],
            eq_low_freq: 0,
            eq_low_gain: 0,
            eq_hi_freq: 0,
            eq_hi_gain: 0,
        };
        assert(res.bytes() =~= Seq::new(Self::SIZE as nat, |i: int| 0u8));
        res
    }

    /// Records with the same bytes are equal.
    #[verifier::spinoff_prover]
    #[verifier::rlimit(60)]
    pub proof fn lemma_bytes_injective(a: Self, b: Self)
        requires
            a.bytes() == b.bytes(),
        ensures
            a == b,
    {
        assert(a.bytes()[0] == a.fx1_type && b.bytes()[0] == b.fx1_type);
        assert(a.bytes()[1] == a._dummy1 && b.bytes()[1] == b._dummy1);
        assert(a.bytes()[2] == a.fx1_knob_assign && b.bytes()[2] == b.fx1_knob_assign);
        assert(a.bytes()[3] == a._dummy3 && b.bytes()[3] == b._dummy3);
        assert(a.bytes().subrange(4, 24) == a.fx1_params@ && b.bytes().subrange(4, 24) == b.fx1_params@);
        assert(a.fx1_params =~= b.fx1_params);
        assert(a.bytes()[24] == a.fx2_type && b.bytes()[24] == b.fx2_type);
        assert(a.bytes()[25] == a._dummy25 && b.bytes()[25] == b._dummy25);
        assert(a.bytes()[26] == a.fx2_knob_assign && b.bytes()[26] == b.fx2_knob_assign);
        assert(a.bytes()[27] == a._dummy27 && b.bytes()[27] == b._dummy27);
        assert(a.bytes().subrange(28, 48) == a.fx2_params@ && b.bytes().subrange(28, 48) == b.fx2_params@);
        assert(a.fx2_params =~= b.fx2_params);
        assert(a.bytes()[48] == a.eq_low_freq && b.bytes()[48] == b.eq_low_freq);
        assert(a.bytes()[49] == a.eq_low_gain && b.bytes()[49] == b.eq_low_gain);
        assert(a.bytes()[50] == a.eq_hi_freq && b.bytes()[50] == b.eq_hi_freq);
        assert(a.bytes()[51] == a.eq_hi_gain && b.bytes()[51] == b.eq_hi_gain);
    }

}

#[derive(Debug, Copy, Clone, PartialEq, Eq)]
pub struct RawMotionSeq {
    pub flags: u8,
    pub sync_res: u8,
    pub seq_params: [u8; 18],
}

impl RawMotionSeq {
    /// The size of the record in bytes.
    pub const SIZE: usize = 20;

    /// The bytes of the record, fields in declaration order.
    pub open spec fn bytes(&self) -> Seq<u8> {
        seq![self.flags, self.sync_res]
            + self.seq_params@
    }

    /// The bytes of the record, fields in declaration order.
    #[verifier::spinoff_prover]
    #[verifier::rlimit(40)]
    pub fn as_bytes(&self) -> (res: Vec<u8>)
        ensures
            res@ == self.bytes(),
            res@.len() == Self::SIZE,
    {
        let mut out: Vec<u8> = Vec::new();
        out.push(self.flags);
        out.push(self.sync_res);
        extend_bytes(&mut out, self.seq_params.as_slice());
        assert(out@ =~= self.bytes());
        out
    }

    /// The record whose bytes are `data`.
    #[verifier::spinoff_prover]
    #[verifier::rlimit(40)]
    pub fn from_bytes(data: &[u8]) -> (res: Self)
        requires
            data@.len() == Self::SIZE,
        ensures
            res.bytes() == data@,
    {
        let res = RawMotionSeq {
            flags: data[0],
            sync_res: data[1],
            seq_params: [data[2], data[3], data[4], data[5], data[6], data[7], data[8], data[9], data[10], data[11], data[12], data[13], data[14], data[15], data[16], data[17], data[18], data[19]],
        };
        assert(res.bytes() =~= data@);
        res
    }

    /// The record with every byte zero.
    pub fn zeroed() -> (res: Self)
        ensures
            res.bytes() == Seq::new(Self::SIZE as nat, |i: int| 0u8),
            res.flags == 0,
            res.sync_res == 0,
            res.seq_params@ == Seq::new(18, |i: int| 0u8),
    {
        let res = RawMotionSeq {
            flags: 0,
            sync_res: 0,
            seq_params: [0; 18],
        };
        assert(res.bytes() =~= Seq::new(Self::SIZE as nat, |i: int| 0u8));
        res
    }

    /// Records with the same bytes are equal.
    #[verifier::spinoff_prover]
    #[verifier::rlimit(60)]
    pub proof fn lemma_bytes_injective(a: Self, b: Self)
        requires
            a.bytes() == b.bytes(),
        ensures
            a == b,
    {
        assert(a.bytes()[0] == a.flags && b.bytes()[0] == b.flags);
        assert(a.bytes()[1] == a.sync_res && b.bytes()[1] == b.sync_res);
        assert(a.bytes().subrange(2, 20) == a.seq_params@ && b.bytes().subrange(2, 20) == b.seq_params@);
        assert(a.seq_params =~= b.seq_params);
    }

}

#[derive(Debug, Copy, Clone, PartialEq, Eq)]
pub struct RawTimbre {
    pub program: RawTimbreProgram,
    pub insert_fx: RawInsertFx,
    pub motion_seq: RawMotionSeq,
}

impl RawTimbre {
    /// The size of the record in bytes.
    pub const SIZE: usize = 164;

    /// The bytes of the record, fields in declaration order.
    pub open spec fn bytes(&self) -> Seq<u8> {
        self.program.bytes()
            + self.insert_fx.bytes()
            + self.motion_seq.bytes()
    }

    /// The bytes of the record, fields in declaration order.
    #[verifier::spinoff_prover]
    #[verifier::rlimit(40)]
    pub fn as_bytes(&self) -> (res: Vec<u8>)
        ensures
            res@ == self.bytes(),
            res@.len() == Self::SIZE,
    {
        let mut out: Vec<u8> = Vec::new();
        let part = self.program.as_bytes();
        extend_bytes(&mut out, part.as_slice());
        let part = self.insert_fx.as_bytes();
        extend_bytes(&mut out, part.as_slice());
        let part = self.motion_seq.as_bytes();
        extend_bytes(&mut out, part.as_slice());
        assert(out@ =~= self.bytes());
        out
    }

    /// The record whose bytes are `data`.
    #[verifier::spinoff_prover]
    #[verifier::rlimit(40)]
    pub fn from_bytes(data: &[u8]) -> (res: Self)
        requires
            data@.len() == Self::SIZE,
        ensures
            res.bytes() == data@,
    {
        let program = RawTimbreProgram::from_bytes(&data[0..92]);
        let insert_fx = RawInsertFx::from_bytes(&data[92..144]);
        let motion_seq = RawMotionSeq::from_bytes(&data[144..164]);
        let res = RawTimbre {
            program,
            insert_fx,
            motion_seq,
        };
        assert(res.bytes() =~= data@);
        res
    }

    /// The record with every byte zero.
    pub fn zeroed() -> (res: Self)
        ensures
            res.bytes() == Seq::new(Self::SIZE as nat, |i: int| 0u8),
            res.program.bytes() == Seq::new(RawTimbreProgram::SIZE as nat, |i: int| 0u8),
            res.insert_fx.bytes() == Seq::new(RawInsertFx::SIZE as nat, |i: int| 0u8),
            res.motion_seq.bytes() == Seq::new(RawMotionSeq::SIZE as nat, |i: int| 0u8),
    {
        let program = RawTimbreProgram::zeroed();
        let insert_fx = RawInsertFx::zeroed();
        let motion_seq = RawMotionSeq::zeroed();
        let res = RawTimbre {
            program,
            insert_fx,
            motion_seq,
        };
        assert(res.bytes() =~= Seq::new(Self::SIZE as nat, |i: int| 0u8));
        res
    }

    /// Records with the same bytes are equal.
    #[verifier::spinoff_prover]
    #[verifier::rlimit(60)]
    pub proof fn lemma_bytes_injective(a: Self, b: Self)
        requires
            a.bytes() == b.bytes(),
        ensures
            a == b,
    {
        assert(a.bytes().subrange(0, 92) == a.program.bytes() && b.bytes().subrange(0, 92) == b.program.bytes());
        RawTimbreProgram::lemma_bytes_injective(a.program, b.program);
        assert(a.bytes().subrange(92, 144) == a.insert_fx.bytes() && b.bytes().subrange(92, 144) == b.insert_fx.bytes());
        RawInsertFx::lemma_bytes_injective(a.insert_fx, b.insert_fx);
        assert(a.bytes().subrange(144, 164) == a.motion_seq.bytes() && b.bytes().subrange(144, 164) == b.motion_seq.bytes());
        RawMotionSeq::lemma_bytes_injective(a.motion_seq, b.motion_seq);
    }

}

#[derive(Debug, Copy, Clone, PartialEq, Eq)]
pub struct RawVocoder {
    pub sw_flags: u8,
    pub gate_sens: u8,
    pub threshold: u8,
    pub hpf_level: u8,
    pub direct_level: u8,
    pub timbre1_level: u8,
    pub input1_level: u8,
    pub vocoder_level: u8,
    pub bands: [u8; 32],
    pub shift_fcmodsrc: u8,
    pub fm_select: u8,
    pub cutoff_offset: u8,
    pub resonance: u8,
    pub fc_mod_int: u8,
    pub ef_sens: u8,
    pub formant_hold: [u8; 32],
}

impl RawVocoder {
    /// The size of the record in bytes.
    pub const SIZE: usize = 78;

    /// The bytes of the record, fields in declaration order.
    pub open spec fn bytes(&self) -> Seq<u8> {
        seq![self.sw_flags, self.gate_sens, self.threshold, self.hpf_level, self.direct_level, self.timbre1_level, self.input1_level, self.vocoder_level]
            + self.bands@
            + seq![self.shift_fcmodsrc, self.fm_select, self.cutoff_offset, self.resonance, self.fc_mod_int, self.ef_sens]
            + self.formant_hold@
    }

    /// The bytes of the record, fields in declaration order.
    #[verifier::spinoff_prover]
    #[verifier::rlimit(40)]
    pub fn as_bytes(&self) -> (res: Vec<u8>)
        ensures
            res@ == self.bytes(),
            res@.len() == Self::SIZE,
    {
        let mut out: Vec<u8> = Vec::new();
        out.push(self.sw_flags);
        out.push(self.gate_sens);
        out.push(self.threshold);
        out.push(self.hpf_level);
        out.push(self.direct_level);
        out.push(self.timbre1_level);
        out.push(self.input1_level);
        out.push(self.vocoder_level);
        extend_bytes(&mut out, self.bands.as_slice());
        out.push(self.shift_fcmodsrc);
        out.push(self.fm_select);
        out.push(self.cutoff_offset);
        out.push(self.resonance);
        out.push(self.fc_mod_int);
        out.push(self.ef_sens);
        extend_bytes(&mut out, self.formant_hold.as_slice());
        assert(out@ =~= self.bytes());
        out
    }

    /// The record whose bytes are `data`.
    #[verifier::spinoff_prover]
    #[verifier::rlimit(40)]
    pub fn from_bytes(data: &[u8]) -> (res: Self)
        requires
            data@.len() == Self::SIZE,
        ensures
            res.bytes() == data@,
    {
        let res = RawVocoder {
            sw_flags: data[0],
            gate_sens: data[1],
            threshold: data[2],
            hpf_level: data[3],
            direct_level: data[4],
            timbre1_level: data[5],
            input1_level: data[6],
            vocoder_level: data[7],
            bands: [data[8], data[9], data[10], data[11], data[12], data[13], data[14], data[15], data[16], data[17], data[18], data[19], data[20], data[21], data[22], data[23], data[24], data[25], data[26], data[27], data[28], data[29], data[30], data[31], data[32], data[33], data[34], data[35], data[36], data[37], data[38], data[39]],
            shift_fcmodsrc: data[40],
            fm_select: data[41],
            cutoff_offset: data[42],
            resonance: data[43],
            fc_mod_int: data[44],
            ef_sens: data[45],
            formant_hold: [data[46], data[47], data[48], data[49], data[50], data[51], data[52], data[53], data[54], data[55], data[56], data[57], data[58], data[59], data[60], data[61], data[62], data[63], data[64], data[65], data[66], data[67], data[68], data[69], data[70], data[71], data[72], data[73], data[74], data[75], data[76], data[77]],
        };
        assert(res.bytes() =~= data@);
        res
    }

    /// The record with every byte zero.
    pub fn zeroed() -> (res: Self)
        ensures
            res.bytes() == Seq::new(Self::SIZE as nat, |i: int| 0u8),
            res.sw_flags == 0,
            res.gate_sens == 0,
            res.threshold == 0,
            res.hpf_level == 0,
            res.direct_level == 0,
            res.timbre1_level == 0,
            res.input1_level == 0,
            res.vocoder_level == 0,
            res.bands@ == Seq::new(32, |i: int| 0u8),
            res.shift_fcmodsrc == 0,
            res.fm_select == 0,
            res.cutoff_offset == 0,
            res.resonance == 0,
            res.fc_mod_int == 0,
            res.ef_sens == 0,
            res.formant_hold@ == Seq::new(32, |i: int| 0u8),
    {
        let res = RawVocoder {
            sw_flags: 0,
            gate_sens: 0,
            threshold: 0,
            hpf_level: 0,
            direct_level: 0,
            timbre1_level: 0,
            input1_level: 0,
            vocoder_level: 0,
            bands: [0; 32],
            shift_fcmodsrc: 0,
            fm_select: 0,
            cutoff_offset: 0,
            resonance: 0,
            fc_mod_int: 0,
            ef_sens: 0,
            formant_hold: [0; 32],
        };
        assert(res.bytes() =~= Seq::new(Self::SIZE as nat, |i: int| 0u8));
        res
    }

    /// Records with the same bytes are equal.
    #[verifier::spinoff_prover]
    #[verifier::rlimit(60)]
    pub proof fn lemma_bytes_injective(a: Self, b: Self)
        requires
            a.bytes() == b.bytes(),
        ensures
            a == b,
    {
        assert(a.bytes()[0] == a.sw_flags && b.bytes()[0] == b.sw_flags);
        assert(a.bytes()[1] == a.gate_sens && b.bytes()[1] == b.gate_sens);
        assert(a.bytes()[2] == a.threshold && b.bytes()[2] == b.threshold);
        assert(a.bytes()[3] == a.hpf_level && b.bytes()[3] == b.hpf_level);
        assert(a.bytes()[4] == a.direct_level && b.bytes()[4] == b.direct_level);
        assert(a.bytes()[5] == a.timbre1_level && b.bytes()[5] == b.timbre1_level);
        assert(a.bytes()[6] == a.input1_level && b.bytes()[6] == b.input1_level);
        assert(a.bytes()[7] == a.vocoder_level && b.bytes()[7] == b.vocoder_level);
        assert(a.bytes().subrange(8, 40) == a.bands@ && b.bytes().subrange(8, 40) == b.bands@);
        assert(a.bands =~= b.bands);
        assert(a.bytes()[40] == a.shift_fcmodsrc && b.bytes()[40] == b.shift_fcmodsrc);
        assert(a.bytes()[41] == a.fm_select && b.bytes()[41] == b.fm_select);
        assert(a.bytes()[42] == a.cutoff_offset && b.bytes()[42] == b.cutoff_offset);
        assert(a.bytes()[43] == a.resonance && b.bytes()[43] == b.resonance);
        assert(a.bytes()[44] == a.fc_mod_int && b.bytes()[44] == b.fc_mod_int);
        assert(a.bytes()[45] == a.ef_sens && b.bytes()[45] == b.ef_sens);
        assert(a.bytes().subrange(46, 78) == a.formant_hold@ && b.bytes().subrange(46, 78) == b.formant_hold@);
        assert(a.formant_hold =~= b.formant_hold);
    }

}

#[derive(Debug, Copy, Clone, PartialEq, Eq)]
pub struct RawMasterFx {
    pub fx_type: u8,
    pub knob_assign: u8,
    pub params: [u8; 20],
}

impl RawMasterFx {
    /// The size of the record in bytes.
    pub const SIZE: usize = 22;

    /// The bytes of the record, fields in declaration order.
    pub open spec fn bytes(&self) -> Seq<u8> {
        seq![self.fx_type, self.knob_assign]
            + self.params@
    }

    /// The bytes of the record, fields in declaration order.
    #[verifier::spinoff_prover]
    #[verifier::rlimit(40)]
    pub fn as_bytes(&self) -> (res: Vec<u8>)
        ensures
            res@ == self.bytes(),
            res@.len() == Self::SIZE,
    {
        let mut out: Vec<u8> = Vec::new();
        out.push(self.fx_type);
        out.push(self.knob_assign);
        extend_bytes(&mut out, self.params.as_slice());
        assert(out@ =~= self.bytes());
        out
    }

    /// The record whose bytes are `data`.
    #[verifier::spinoff_prover]
    #[verifier::rlimit(40)]
    pub fn from_bytes(data: &[u8]) -> (res: Self)
        requires
            data@.len() == Self::SIZE,
        ensures
            res.bytes() == data@,
    {
        let res = RawMasterFx {
            fx_type: data[0],
            knob_assign: data[1],
            params: [data[2], data[3], data[4], data[5], data[6], data[7], data[8], data[9], data[10], data[11], data[12], data[13], data[14], data[15], data[16], data[17], data[18], data[19], data[20], data[21]],
        };
        assert(res.bytes() =~= data@);
        res
    }

    /// The record with every byte zero.
    pub fn zeroed() -> (res: Self)
        ensures
            res.bytes() == Seq::new(Self::SIZE as nat, |i: int| 0u8),
            res.fx_type == 0,
            res.knob_assign == 0,
            res.params@ == Seq::new(20, |i: int| 0u8),
    {
        let res = RawMasterFx {
            fx_type: 0,
            knob_assign: 0,
            params: [0; 20],
        };
        assert(res.bytes() =~= Seq::new(Self::SIZE as nat, |i: int| 0u8));
        res
    }

    /// Records with the same bytes are equal.
    #[verifier::spinoff_prover]
    #[verifier::rlimit(60)]
    pub proof fn lemma_bytes_injective(a: Self, b: Self)
        requires
            a.bytes() == b.bytes(),
        ensures
            a == b,
    {
        assert(a.bytes()[0] == a.fx_type && b.bytes()[0] == b.fx_type);
        assert(a.bytes()[1] == a.knob_assign && b.bytes()[1] == b.knob_assign);
        assert(a.bytes().subrange(2, 22) == a.params@ && b.bytes().subrange(2, 22) == b.params@);
        assert(a.params =~= b.params);
    }

}

#[derive(Debug, Copy, Clone, PartialEq, Eq)]
pub struct RawArpeggio {
    pub res_type: u8,
    pub latch_oct_last: u8,
    pub gate_time: u8,
    pub swing: u8,
    pub step_switches: u8,
    pub _dummy: [u8; 3],
}

impl RawArpeggio {
    /// The size of the record in bytes.
    pub const SIZE: usize = 8;

    /// The bytes of the record, fields in declaration order.
    pub open spec fn bytes(&self) -> Seq<u8> {
        seq![self.res_type, self.latch_oct_last, self.gate_time, self.swing, self.step_switches]
            + self._dummy@
    }

    /// The bytes of the record, fields in declaration order.
    #[verifier::spinoff_prover]
    #[verifier::rlimit(40)]
    pub fn as_bytes(&self) -> (res: Vec<u8>)
        ensures
            res@ == self.bytes(),
            res@.len() == Self::SIZE,
    {
        let mut out: Vec<u8> = Vec::new();
        out.push(self.res_type);
        out.push(self.latch_oct_last);
        out.push(self.gate_time);
        out.push(self.swing);
        out.push(self.step_switches);
        extend_bytes(&mut out, self._dummy.as_slice());
        assert(out@ =~= self.bytes());
        out
    }

    /// The record whose bytes are `data`.
    #[verifier::spinoff_prover]
    #[verifier::rlimit(40)]
    pub fn from_bytes(data: &[u8]) -> (res: Self)
        requires
            data@.len() == Self::SIZE,
        ensures
            res.bytes() == data@,
    {
        let res = RawArpeggio {
            res_type: data[0],
            latch_oct_last: data[1],
            gate_time: data[2],
            swing: data[3],
            step_switches: data[4],
            _dummy: [data[5], data[6], data[7]],
        };
        assert(res.bytes() =~= data@);
        res
    }

    /// The record with every byte zero.
    pub fn zeroed() -> (res: Self)
        ensures
            res.bytes() == Seq::new(Self::SIZE as nat, |i: int| 0u8),
            res.res_type == 0,
            res.latch_oct_last == 0,
            res.gate_time == 0,
            res.swing == 0,
            res.step_switches == 0,
            res._dummy@ == Seq::new(3, |i: int| 0u8),
    {
        let res = RawArpeggio {
            res_type: 0,
            latch_oct_last: 0,
            gate_time: 0,
            swing: 0,
            step_switches: 0,
            _dummy: [0; 3],
        };
        assert(res.bytes() =~= Seq::new(Self::SIZE as nat, |i: int| 0u8));
        res
    }

    /// Records with the same bytes are equal.
    #[verifier::spinoff_prover]
    #[verifier::rlimit(60)]
    pub proof fn lemma_bytes_injective(a: Self, b: Self)
        requires
            a.bytes() == b.bytes(),
        ensures
            a == b,
    {
        assert(a.bytes()[0] == a.res_type && b.bytes()[0] == b.res_type);
        assert(a.bytes()[1] == a.latch_oct_last && b.bytes()[1] == b.latch_oct_last);
        assert(a.bytes()[2] == a.gate_time && b.bytes()[2] == b.gate_time);
        assert(a.bytes()[3] == a.swing && b.bytes()[3] == b.swing);
        assert(a.bytes()[4] == a.step_switches && b.bytes()[4] == b.step_switches);
        assert(a.bytes().subrange(5, 8) == a._dummy@ && b.bytes().subrange(5, 8) == b._dummy@);
        assert(a._dummy =~= b._dummy);
    }

}

#[derive(Debug, Copy, Clone, PartialEq, Eq)]
pub struct RawProgram {
    pub name: [u8; 8],
    pub voice_arp: u8,
    pub vcd_knob_assigns: [u8; 4],
    pub timbre2_midi_ch: u8,
    pub center_key: u8,
    pub octave_category: u8,
    pub timbre1: RawTimbre,
    pub timbre2: RawTimbre,
    pub vocoder: RawVocoder,
    pub master_fx: RawMasterFx,
    pub tempo: [u8; 2],
    pub arp_flags: u8,
    pub _dummy_447: u8,
    pub arpeggio: RawArpeggio,
}

impl RawProgram {
    /// The size of the record in bytes.
    pub const SIZE: usize = 456;

    /// The bytes of the record, fields in declaration order.
    pub open spec fn bytes(&self) -> Seq<u8> {
        self.name@
            + seq![self.voice_arp]
            + self.vcd_knob_assigns@
            + seq![self.timbre2_midi_ch, self.center_key, self.octave_category]
            + self.timbre1.bytes()
            + self.timbre2.bytes()
            + self.vocoder.bytes()
            + self.master_fx.bytes()
            + self.tempo@
            + seq![self.arp_flags, self._dummy_447]
            + self.arpeggio.bytes()
    }

    /// The bytes of the record, fields in declaration order.
    #[verifier::spinoff_prover]
    #[verifier::rlimit(40)]
    pub fn as_bytes(&self) -> (res: Vec<u8>)
        ensures
            res@ == self.bytes(),
            res@.len() == Self::SIZE,
    {
        let mut out: Vec<u8> = Vec::new();
        extend_bytes(&mut out, self.name.as_slice());
        out.push(self.voice_arp);
        extend_bytes(&mut out, self.vcd_knob_assigns.as_slice());
        out.push(self.timbre2_midi_ch);
        out.push(self.center_key);
        out.push(self.octave_category);
        let part = self.timbre1.as_bytes();
        extend_bytes(&mut out, part.as_slice());
        let part = self.timbre2.as_bytes();
        extend_bytes(&mut out, part.as_slice());
        let part = self.vocoder.as_bytes();
        extend_bytes(&mut out, part.as_slice());
        let part = self.master_fx.as_bytes();
        extend_bytes(&mut out, part.as_slice());
        extend_bytes(&mut out, self.tempo.as_slice());
        out.push(self.arp_flags);
        out.push(self._dummy_447);
        let part = self.arpeggio.as_bytes();
        extend_bytes(&mut out, part.as_slice());
        assert(out@ =~= self.bytes());
        out
    }

    /// The record whose bytes are `data`.
    #[verifier::spinoff_prover]
    #[verifier::rlimit(40)]
    pub fn from_bytes(data: &[u8]) -> (res: Self)
        requires
            data@.len() == Self::SIZE,
        ensures
            res.bytes() == data@,
    {
        let timbre1 = RawTimbre::from_bytes(&data[16..180]);
        let timbre2 = RawTimbre::from_bytes(&data[180..344]);
        let vocoder = RawVocoder::from_bytes(&data[344..422]);
        let master_fx = RawMasterFx::from_bytes(&data[422..444]);
        let arpeggio = RawArpeggio::from_bytes(&data[448..456]);
        let res = RawProgram {
            name: [data[0], data[1], data[2], data[3], data[4], data[5], data[6], data[7]],
            voice_arp: data[8],
            vcd_knob_assigns: [data[9], data[10], data[11], data[12]],
            timbre2_midi_ch: data[13],
            center_key: data[14],
            octave_category: data[15],
            timbre1,
            timbre2,
            vocoder,
            master_fx,
            tempo: [data[444], data[445]],
            arp_flags: data[446],
            _dummy_447: data[447],
            arpeggio,
        };
        assert(res.bytes() =~= data@);
        res
    }

    /// The record with every byte zero.
    pub fn zeroed() -> (res: Self)
        ensures
            res.bytes() == Seq::new(Self::SIZE as nat, |i: int| 0u8),
            res.name@ == Seq::new(8, |i: int| 0u8),
            res.voice_arp == 0,
            res.vcd_knob_assigns@ == Seq::new(4, |i: int| 0u8),
            res.timbre2_midi_ch == 0,
            res.center_key == 0,
            res.octave_category == 0,
            res.timbre1.bytes() == Seq::new(RawTimbre::SIZE as nat, |i: int| 0u8),
            res.timbre2.bytes() == Seq::new(RawTimbre::SIZE as nat, |i: int| 0u8),
            res.vocoder.bytes() == Seq::new(RawVocoder::SIZE as nat, |i: int| 0u8),
            res.master_fx.bytes() == Seq::new(RawMasterFx::SIZE as nat, |i: int| 0u8),
            res.tempo@ == Seq::new(2, |i: int| 0u8),
            res.arp_flags == 0,
            res._dummy_447 == 0,
            res.arpeggio.bytes() == Seq::new(RawArpeggio::SIZE as nat, |i: int| 0u8),
    {
        let timbre1 = RawTimbre::zeroed();
        let timbre2 = RawTimbre::zeroed();
        let vocoder = RawVocoder::zeroed();
        let master_fx = RawMasterFx::zeroed();
        let arpeggio = RawArpeggio::zeroed();
        let res = RawProgram {
            name: [0; 8],
            voice_arp: 0,
            vcd_knob_assigns: [0; 4],
            timbre2_midi_ch: 0,
            center_key: 0,
            octave_category: 0,
            timbre1,
            timbre2,
            vocoder,
            master_fx,
            tempo: [0; 2],
            arp_flags: 0,
            _dummy_447: 0,
            arpeggio,
        };
        assert(res.bytes() =~= Seq::new(Self::SIZE as nat, |i: int| 0u8));
        res
    }

    /// Records with the same bytes are equal.
    #[verifier::spinoff_prover]
    #[verifier::rlimit(60)]
    pub proof fn lemma_bytes_injective(a: Self, b: Self)
        requires
            a.bytes() == b.bytes(),
        ensures
            a == b,
    {
        assert(a.bytes().subrange(0, 8) == a.name@ && b.bytes().subrange(0, 8) == b.name@);
        assert(a.name =~= b.name);
        assert(a.bytes()[8] == a.voice_arp && b.bytes()[8] == b.voice_arp);
        assert(a.bytes().subrange(9, 13) == a.vcd_knob_assigns@ && b.bytes().subrange(9, 13) == b.vcd_knob_assigns@);
        assert(a.vcd_knob_assigns =~= b.vcd_knob_assigns);
        assert(a.bytes()[13] == a.timbre2_midi_ch && b.bytes()[13] == b.timbre2_midi_ch);
        assert(a.bytes()[14] == a.center_key && b.bytes()[14] == b.center_key);
        assert(a.bytes()[15] == a.octave_category && b.bytes()[15] == b.octave_category);
        assert(a.bytes().subrange(16, 180) == a.timbre1.bytes() && b.bytes().subrange(16, 180) == b.timbre1.bytes());
        RawTimbre::lemma_bytes_injective(a.timbre1, b.timbre1);
        assert(a.bytes().subrange(180, 344) == a.timbre2.bytes() && b.bytes().subrange(180, 344) == b.timbre2.bytes());
        RawTimbre::lemma_bytes_injective(a.timbre2, b.timbre2);
        assert(a.bytes().subrange(344, 422) == a.vocoder.bytes() && b.bytes().subrange(344, 422) == b.vocoder.bytes());
        RawVocoder::lemma_bytes_injective(a.vocoder, b.vocoder);
        assert(a.bytes().subrange(422, 444) == a.master_fx.bytes() && b.bytes().subrange(422, 444) == b.master_fx.bytes());
        RawMasterFx::lemma_bytes_injective(a.master_fx, b.master_fx);
        assert(a.bytes().subrange(444, 446) == a.tempo@ && b.bytes().subrange(444, 446) == b.tempo@);
        assert(a.tempo =~= b.tempo);
        assert(a.bytes()[446] == a.arp_flags && b.bytes()[446] == b.arp_flags);
        assert(a.bytes()[447] == a._dummy_447 && b.bytes()[447] == b._dummy_447);
        assert(a.bytes().subrange(448, 456) == a.arpeggio.bytes() && b.bytes().subrange(448, 456) == b.arpeggio.bytes());
        RawArpeggio::lemma_bytes_injective(a.arpeggio, b.arpeggio);
    }

}

#[derive(Debug, Copy, Clone, PartialEq, Eq)]
pub struct RawGlobal {
    pub master_tune: u8,
    pub transpose: u8,
    pub flags_2: u8,
    pub vel_curve: u8,
    pub midi_channel: u8,
    pub flags_5: u8,
    pub midi_ctrl: [u8; 3],
    pub filters: u8,
    pub ass_pedal: u8,
    pub ass_switch: u8,
    pub cc_map_lo: [u8; 32],
    pub cc_map_mid: [u8; 32],
    pub cc_map_hi: [u8; 3],
    pub _dummy_79: u8,
}

impl RawGlobal {
    /// The size of the record in bytes.
    pub const SIZE: usize = 80;

    /// The bytes of the record, fields in declaration order.
    pub open spec fn bytes(&self) -> Seq<u8> {
        seq![self.master_tune, self.transpose, self.flags_2, self.vel_curve, self.midi_channel, self.flags_5]
            + self.midi_ctrl@
            + seq![self.filters, self.ass_pedal, self.ass_switch]
            + self.cc_map_lo@
            + self.cc_map_mid@
            + self.cc_map_hi@
            + seq![self._dummy_79]
    }

    /// The bytes of the record, fields in declaration order.
    #[verifier::spinoff_prover]
    #[verifier::rlimit(40)]
    pub fn as_bytes(&self) -> (res: Vec<u8>)
        ensures
            res@ == self.bytes(),
            res@.len() == Self::SIZE,
    {
        let mut out: Vec<u8> = Vec::new();
        out.push(self.master_tune);
        out.push(self.transpose);
        out.push(self.flags_2);
        out.push(self.vel_curve);
        out.push(self.midi_channel);
        out.push(self.flags_5);
        extend_bytes(&mut out, self.midi_ctrl.as_slice());
        out.push(self.filters);
        out.push(self.ass_pedal);
        out.push(self.ass_switch);
        extend_bytes(&mut out, self.cc_map_lo.as_slice());
        extend_bytes(&mut out, self.cc_map_mid.as_slice());
        extend_bytes(&mut out, self.cc_map_hi.as_slice());
        out.push(self._dummy_79);
        assert(out@ =~= self.bytes());
        out
    }

    /// The record whose bytes are `data`.
    #[verifier::spinoff_prover]
    #[verifier::rlimit(40)]
    pub fn from_bytes(data: &[u8]) -> (res: Self)
        requires
            data@.len() == Self::SIZE,
        ensures
            res.bytes() == data@,
    {
        let res = RawGlobal {
            master_tune: data[0],
            transpose: data[1],
            flags_2: data[2],
            vel_curve: data[3],
            midi_channel: data[4],
            flags_5: data[5],
            midi_ctrl: [data[6], data[7], data[8]],
            filters: data[9],
            ass_pedal: data[10],
            ass_switch: data[11],
            cc_map_lo: [data[12], data[13], data[14], data[15], data[16], data[17], data[18], data[19], data[20], data[21], data[22], data[23], data[24], data[25], data[26], data[27], data[28], data[29], data[30], data[31], data[32], data[33], data[34], data[35], data[36], data[37], data[38], data[39], data[40], data[41], data[42], data[43]],
            cc_map_mid: [data[44], data[45], data[46], data[47], data[48], data[49], data[50], data[51], data[52], data[53], data[54], data[55], data[56], data[57], data[58], data[59], data[60], data[61], data[62], data[63], data[64], data[65], data[66], data[67], data[68], data[69], data[70], data[71], data[72], data[73], data[74], data[75]],
            cc_map_hi: [data[76], data[77], data[78]],
            _dummy_79: data[79],
        };
        assert(res.bytes() =~= data@);
        res
    }

    /// The record with every byte zero.
    pub fn zeroed() -> (res: Self)
        ensures
            res.bytes() == Seq::new(Self::SIZE as nat, |i: int| 0u8),
            res.master_tune == 0,
            res.transpose == 0,
            res.flags_2 == 0,
            res.vel_curve == 0,
            res.midi_channel == 0,
            res.flags_5 == 0,
            res.midi_ctrl@ == Seq::new(3, |i: int| 0u8),
            res.filters == 0,
            res.ass_pedal == 0,
            res.ass_switch == 0,
            res.cc_map_lo@ == Seq::new(32, |i: int| 0u8),
            res.cc_map_mid@ == Seq::new(32, |i: int| 0u8),
            res.cc_map_hi@ == Seq::new(3, |i: int| 0u8),
            res._dummy_79 == 0,
    {
        let res = RawGlobal {
            master_tune: 0,
            transpose: 0,
            flags_2: 0,
            vel_curve: 0,
            midi_channel: 0,
            flags_5: 0,
            midi_ctrl: [0; 3],
            filters: 0,
            ass_pedal: 0,
            ass_switch: 0,
            cc_map_lo: [0; 32],
            cc_map_mid: [0; 32],
            cc_map_hi: [0; 3],
            _dummy_79: 0,
        };
        assert(res.bytes() =~= Seq::new(Self::SIZE as nat, |i: int| 0u8));
        res
    }

    /// Records with the same bytes are equal.
    #[verifier::spinoff_prover]
    #[verifier::rlimit(60)]
    pub proof fn lemma_bytes_injective(a: Self, b: Self)
        requires
            a.bytes() == b.bytes(),
        ensures
            a == b,
    {
        assert(a.bytes()[0] == a.master_tune && b.bytes()[0] == b.master_tune);
        assert(a.bytes()[1] == a.transpose && b.bytes()[1] == b.transpose);
        assert(a.bytes()[2] == a.flags_2 && b.bytes()[2] == b.flags_2);
        assert(a.bytes()[3] == a.vel_curve && b.bytes()[3] == b.vel_curve);
        assert(a.bytes()[4] == a.midi_channel && b.bytes()[4] == b.midi_channel);
        assert(a.bytes()[5] == a.flags_5 && b.bytes()[5] == b.flags_5);
        assert(a.bytes().subrange(6, 9) == a.midi_ctrl@ && b.bytes().subrange(6, 9) == b.midi_ctrl@);
        assert(a.midi_ctrl =~= b.midi_ctrl);
        assert(a.bytes()[9] == a.filters && b.bytes()[9] == b.filters);
        assert(a.bytes()[10] == a.ass_pedal && b.bytes()[10] == b.ass_pedal);
        assert(a.bytes()[11] == a.ass_switch && b.bytes()[11] == b.ass_switch);
        assert(a.bytes().subrange(12, 44) == a.cc_map_lo@ && b.bytes().subrange(12, 44) == b.cc_map_lo@);
        assert(a.cc_map_lo =~= b.cc_map_lo);
        assert(a.bytes().subrange(44, 76) == a.cc_map_mid@ && b.bytes().subrange(44, 76) == b.cc_map_mid@);
        assert(a.cc_map_mid =~= b.cc_map_mid);
        assert(a.bytes().subrange(76, 79) == a.cc_map_hi@ && b.bytes().subrange(76, 79) == b.cc_map_hi@);
        assert(a.cc_map_hi =~= b.cc_map_hi);
        assert(a.bytes()[79] == a._dummy_79 && b.bytes()[79] == b._dummy_79);
    }

}

#[derive(Debug, Copy, Clone, PartialEq, Eq)]
pub struct RawFormantStep {
    pub bands: [u8; 16],
}

impl RawFormantStep {
    /// The size of the record in bytes.
    pub const SIZE: usize = 16;

    /// The bytes of the record, fields in declaration order.
    pub open spec fn bytes(&self) -> Seq<u8> {
        self.bands@
    }

    /// The bytes of the record, fields in declaration order.
    #[verifier::spinoff_prover]
    #[verifier::rlimit(40)]
    pub fn as_bytes(&self) -> (res: Vec<u8>)
        ensures
            res@ == self.bytes(),
            res@.len() == Self::SIZE,
    {
        let mut out: Vec<u8> = Vec::new();
        extend_bytes(&mut out, self.bands.as_slice());
        assert(out@ =~= self.bytes());
        out
    }

    /// The record whose bytes are `data`.
    #[verifier::spinoff_prover]
    #[verifier::rlimit(40)]
    pub fn from_bytes(data: &[u8]) -> (res: Self)
        requires
            data@.len() == Self::SIZE,
        ensures
            res.bytes() == data@,
    {
        let res = RawFormantStep {
            bands: [data[0], data[1], data[2], data[3], data[4], data[5], data[6], data[7], data[8], data[9], data[10], data[11], data[12], data[13], data[14], data[15]],
        };
        assert(res.bytes() =~= data@);
        res
    }

    /// The record with every byte zero.
    pub fn zeroed() -> (res: Self)
        ensures
            res.bytes() == Seq::new(Self::SIZE as nat, |i: int| 0u8),
            res.bands@ == Seq::new(16, |i: int| 0u8),
    {
        let res = RawFormantStep {
            bands: [0; 16],
        };
        assert(res.bytes() =~= Seq::new(Self::SIZE as nat, |i: int| 0u8));
        res
    }

    /// Records with the same bytes are equal.
    #[verifier::spinoff_prover]
    #[verifier::rlimit(60)]
    pub proof fn lemma_bytes_injective(a: Self, b: Self)
        requires
            a.bytes() == b.bytes(),
        ensures
            a == b,
    {
        assert(a.bytes().subrange(0, 16) == a.bands@ && b.bytes().subrange(0, 16) == b.bands@);
        assert(a.bands =~= b.bands);
    }

}

#[derive(Debug, Copy, Clone, PartialEq, Eq)]
pub struct RawParameterChange {
    pub param_id: [u8; 2],
    pub sub_id: [u8; 2],
    pub value: [u8; 2],
}

impl RawParameterChange {
    /// The size of the record in bytes.
    pub const SIZE: usize = 6;

    /// The bytes of the record, fields in declaration order.
    pub open spec fn bytes(&self) -> Seq<u8> {
        self.param_id@
            + self.sub_id@
            + self.value@
    }

    /// The bytes of the record, fields in declaration order.
    #[verifier::spinoff_prover]
    #[verifier::rlimit(40)]
    pub fn as_bytes(&self) -> (res: Vec<u8>)
        ensures
            res@ == self.bytes(),
            res@.len() == Self::SIZE,
    {
        let mut out: Vec<u8> = Vec::new();
        extend_bytes(&mut out, self.param_id.as_slice());
        extend_bytes(&mut out, self.sub_id.as_slice());
        extend_bytes(&mut out, self.value.as_slice());
        assert(out@ =~= self.bytes());
        out
    }

    /// The record whose bytes are `data`.
    #[verifier::spinoff_prover]
    #[verifier::rlimit(40)]
    pub fn from_bytes(data: &[u8]) -> (res: Self)
        requires
            data@.len() == Self::SIZE,
        ensures
            res.bytes() == data@,
    {
        let res = RawParameterChange {
            param_id: [data[0], data[1]],
            sub_id: [data[2], data[3]],
            value: [data[4], data[5]],
        };
        assert(res.bytes() =~= data@);
        res
    }

    /// The record with every byte zero.
    pub fn zeroed() -> (res: Self)
        ensures
            res.bytes() == Seq::new(Self::SIZE as nat, |i: int| 0u8),
            res.param_id@ == Seq::new(2, |i: int| 0u8),
            res.sub_id@ == Seq::new(2, |i: int| 0u8),
            res.value@ == Seq::new(2, |i: int| 0u8),
    {
        let res = RawParameterChange {
            param_id: [0; 2],
            sub_id: [0; 2],
            value: [0; 2],
        };
        assert(res.bytes() =~= Seq::new(Self::SIZE as nat, |i: int| 0u8));
        res
    }

    /// Records with the same bytes are equal.
    #[verifier::spinoff_prover]
    #[verifier::rlimit(60)]
    pub proof fn lemma_bytes_injective(a: Self, b: Self)
        requires
            a.bytes() == b.bytes(),
        ensures
            a == b,
    {
        assert(a.bytes().subrange(0, 2) == a.param_id@ && b.bytes().subrange(0, 2) == b.param_id@);
        assert(a.param_id =~= b.param_id);
        assert(a.bytes().subrange(2, 4) == a.sub_id@ && b.bytes().subrange(2, 4) == b.sub_id@);
        assert(a.sub_id =~= b.sub_id);
        assert(a.bytes().subrange(4, 6) == a.value@ && b.bytes().subrange(4, 6) == b.value@);
        assert(a.value =~= b.value);
    }

}

impl RawTimbreProgram {
    /// The packed field `unison_voice`: bits 0 and up of `voice_unison`, 0x0F wide.
    pub fn unison_voice(&self) -> (res: u8)
        ensures
            res == field_bits(self.voice_unison, 0, 0x0F),
    {
        get_bits(self.voice_unison, 0, 0x0F)
    }

    /// Writes the packed field `unison_voice`, keeping the other bits of `voice_unison`.
    pub fn set_unison_voice(&mut self, v: u8)
        ensures
            *final(self) == (RawTimbreProgram { voice_unison: with_field_bits(old(self).voice_unison, 0, 0x0F, v), ..*old(self) }),
    {
        self.voice_unison = set_bits(self.voice_unison, 0, 0x0F, v);
    }

    /// The packed field `voice_assign_val`: bits 6 and up of `voice_assign`, 0x03 wide.
    pub fn voice_assign_val(&self) -> (res: u8)
        ensures
            res == field_bits(self.voice_assign, 6, 0x03),
    {
        get_bits(self.voice_assign, 6, 0x03)
    }

    /// Writes the packed field `voice_assign_val`, keeping the other bits of `voice_assign`.
    pub fn set_voice_assign_val(&mut self, v: u8)
        ensures
            *final(self) == (RawTimbreProgram { voice_assign: with_field_bits(old(self).voice_assign, 6, 0x03, v), ..*old(self) }),
    {
        self.voice_assign = set_bits(self.voice_assign, 6, 0x03, v);
    }

    /// The packed field `osc1_wave`: bits 0 and up of `osc1_wave_mod`, 0x0F wide.
    pub fn osc1_wave(&self) -> (res: u8)
        ensures
            res == field_bits(self.osc1_wave_mod, 0, 0x0F),
    {
        get_bits(self.osc1_wave_mod, 0, 0x0F)
    }

    /// Writes the packed field `osc1_wave`, keeping the other bits of `osc1_wave_mod`.
    pub fn set_osc1_wave(&mut self, v: u8)
        ensures
            *final(self) == (RawTimbreProgram { osc1_wave_mod: with_field_bits(old(self).osc1_wave_mod, 0, 0x0F, v), ..*old(self) }),
    {
        self.osc1_wave_mod = set_bits(self.osc1_wave_mod, 0, 0x0F, v);
    }

    /// The packed field `osc1_mod`: bits 4 and up of `osc1_wave_mod`, 0x03 wide.
    pub fn osc1_mod(&self) -> (res: u8)
        ensures
            res == field_bits(self.osc1_wave_mod, 4, 0x03),
    {
        get_bits(self.osc1_wave_mod, 4, 0x03)
    }

    /// Writes the packed field `osc1_mod`, keeping the other bits of `osc1_wave_mod`.
    pub fn set_osc1_mod(&mut self, v: u8)
        ensures
            *final(self) == (RawTimbreProgram { osc1_wave_mod: with_field_bits(old(self).osc1_wave_mod, 4, 0x03, v), ..*old(self) }),
    {
        self.osc1_wave_mod = set_bits(self.osc1_wave_mod, 4, 0x03, v);
    }

    /// The packed field `osc2_wave`: bits 0 and up of `osc2_wave_mod`, 0x03 wide.
    pub fn osc2_wave(&self) -> (res: u8)
        ensures
            res == field_bits(self.osc2_wave_mod, 0, 0x03),
    {
        get_bits(self.osc2_wave_mod, 0, 0x03)
    }

    /// Writes the packed field `osc2_wave`, keeping the other bits of `osc2_wave_mod`.
    pub fn set_osc2_wave(&mut self, v: u8)
        ensures
            *final(self) == (RawTimbreProgram { osc2_wave_mod: with_field_bits(old(self).osc2_wave_mod, 0, 0x03, v), ..*old(self) }),
    {
        self.osc2_wave_mod = set_bits(self.osc2_wave_mod, 0, 0x03, v);
    }

    /// The packed field `osc2_mod`: bits 4 and up of `osc2_wave_mod`, 0x03 wide.
    pub fn osc2_mod(&self) -> (res: u8)
        ensures
            res == field_bits(self.osc2_wave_mod, 4, 0x03),
    {
        get_bits(self.osc2_wave_mod, 4, 0x03)
    }

    /// Writes the packed field `osc2_mod`, keeping the other bits of `osc2_wave_mod`.
    pub fn set_osc2_mod(&mut self, v: u8)
        ensures
            *final(self) == (RawTimbreProgram { osc2_wave_mod: with_field_bits(old(self).osc2_wave_mod, 4, 0x03, v), ..*old(self) }),
    {
        self.osc2_wave_mod = set_bits(self.osc2_wave_mod, 4, 0x03, v);
    }

    /// The packed field `filter_routing`: bits 0 and up of `filter_routing_type2`, 0x03 wide.
    pub fn filter_routing(&self) -> (res: u8)
        ensures
            res == field_bits(self.filter_routing_type2, 0, 0x03),
    {
        get_bits(self.filter_routing_type2, 0, 0x03)
    }

    /// Writes the packed field `filter_routing`, keeping the other bits of `filter_routing_type2`.
    pub fn set_filter_routing(&mut self, v: u8)
        ensures
            *final(self) == (RawTimbreProgram { filter_routing_type2: with_field_bits(old(self).filter_routing_type2, 0, 0x03, v), ..*old(self) }),
    {
        self.filter_routing_type2 = set_bits(self.filter_routing_type2, 0, 0x03, v);
    }

    /// The packed field `filter2_type`: bits 4 and up of `filter_routing_type2`, 0x03 wide.
    pub fn filter2_type(&self) -> (res: u8)
        ensures
            res == field_bits(self.filter_routing_type2, 4, 0x03),
    {
        get_bits(self.filter_routing_type2, 4, 0x03)
    }

    /// Writes the packed field `filter2_type`, keeping the other bits of `filter_routing_type2`.
    pub fn set_filter2_type(&mut self, v: u8)
        ensures
            *final(self) == (RawTimbreProgram { filter_routing_type2: with_field_bits(old(self).filter_routing_type2, 4, 0x03, v), ..*old(self) }),
    {
        self.filter_routing_type2 = set_bits(self.filter_routing_type2, 4, 0x03, v);
    }

    /// The packed field `ws_position`: bits 4 and up of `amp_ws_position`, 0x03 wide.
    pub fn ws_position(&self) -> (res: u8)
        ensures
            res == field_bits(self.amp_ws_position, 4, 0x03),
    {
        get_bits(self.amp_ws_position, 4, 0x03)
    }

    /// Writes the packed field `ws_position`, keeping the other bits of `amp_ws_position`.
    pub fn set_ws_position(&mut self, v: u8)
        ensures
            *final(self) == (RawTimbreProgram { amp_ws_position: with_field_bits(old(self).amp_ws_position, 4, 0x03, v), ..*old(self) }),
    {
        self.amp_ws_position = set_bits(self.amp_ws_position, 4, 0x03, v);
    }

    /// The packed field `ws_type`: bits 0 and up of `amp_ws_type`, 0x0F wide.
    pub fn ws_type(&self) -> (res: u8)
        ensures
            res == field_bits(self.amp_ws_type, 0, 0x0F),
    {
        get_bits(self.amp_ws_type, 0, 0x0F)
    }

    /// Writes the packed field `ws_type`, keeping the other bits of `amp_ws_type`.
    pub fn set_ws_type(&mut self, v: u8)
        ensures
            *final(self) == (RawTimbreProgram { amp_ws_type: with_field_bits(old(self).amp_ws_type, 0, 0x0F, v), ..*old(self) }),
    {
        self.amp_ws_type = set_bits(self.amp_ws_type, 0, 0x0F, v);
    }

    /// The packed field `lfo1_wave_val`: bits 0 and up of `lfo1_wave`, 0x0F wide.
    pub fn lfo1_wave_val(&self) -> (res: u8)
        ensures
            res == field_bits(self.lfo1_wave, 0, 0x0F),
    {
        get_bits(self.lfo1_wave, 0, 0x0F)
    }

    /// Writes the packed field `lfo1_wave_val`, keeping the other bits of `lfo1_wave`.
    pub fn set_lfo1_wave_val(&mut self, v: u8)
        ensures
            *final(self) == (RawTimbreProgram { lfo1_wave: with_field_bits(old(self).lfo1_wave, 0, 0x0F, v), ..*old(self) }),
    {
        self.lfo1_wave = set_bits(self.lfo1_wave, 0, 0x0F, v);
    }

    /// The packed field `lfo2_wave_val`: bits 0 and up of `lfo2_wave`, 0x0F wide.
    pub fn lfo2_wave_val(&self) -> (res: u8)
        ensures
            res == field_bits(self.lfo2_wave, 0, 0x0F),
    {
        get_bits(self.lfo2_wave, 0, 0x0F)
    }

    /// Writes the packed field `lfo2_wave_val`, keeping the other bits of `lfo2_wave`.
    pub fn set_lfo2_wave_val(&mut self, v: u8)
        ensures
            *final(self) == (RawTimbreProgram { lfo2_wave: with_field_bits(old(self).lfo2_wave, 0, 0x0F, v), ..*old(self) }),
    {
        self.lfo2_wave = set_bits(self.lfo2_wave, 0, 0x0F, v);
    }

    /// The flag `lfo1_bpm_sync`: bit 7 of `lfo1_sync`.
    pub fn lfo1_bpm_sync(&self) -> (res: bool)
        ensures
            res == (field_bits(self.lfo1_sync, 7, 1) == 1),
    {
        get_bits(self.lfo1_sync, 7, 1) == 1
    }

    /// Writes the flag `lfo1_bpm_sync`, keeping the other bits of `lfo1_sync`.
    pub fn set_lfo1_bpm_sync(&mut self, on: bool)
        ensures
            *final(self) == (RawTimbreProgram { lfo1_sync: with_field_bits(old(self).lfo1_sync, 7, 1, flag_bit(on)), ..*old(self) }),
    {
        self.lfo1_sync = set_bits(self.lfo1_sync, 7, 1, if on { 1 } else { 0 });
    }

    /// The packed field `lfo1_key_sync`: bits 5 and up of `lfo1_sync`, 0x03 wide.
    pub fn lfo1_key_sync(&self) -> (res: u8)
        ensures
            res == field_bits(self.lfo1_sync, 5, 0x03),
    {
        get_bits(self.lfo1_sync, 5, 0x03)
    }

    /// Writes the packed field `lfo1_key_sync`, keeping the other bits of `lfo1_sync`.
    pub fn set_lfo1_key_sync(&mut self, v: u8)
        ensures
            *final(self) == (RawTimbreProgram { lfo1_sync: with_field_bits(old(self).lfo1_sync, 5, 0x03, v), ..*old(self) }),
    {
        self.lfo1_sync = set_bits(self.lfo1_sync, 5, 0x03, v);
    }

    /// The flag `lfo2_bpm_sync`: bit 7 of `lfo2_sync`.
    pub fn lfo2_bpm_sync(&self) -> (res: bool)
        ensures
            res == (field_bits(self.lfo2_sync, 7, 1) == 1),
    {
        get_bits(self.lfo2_sync, 7, 1) == 1
    }

    /// Writes the flag `lfo2_bpm_sync`, keeping the other bits of `lfo2_sync`.
    pub fn set_lfo2_bpm_sync(&mut self, on: bool)
        ensures
            *final(self) == (RawTimbreProgram { lfo2_sync: with_field_bits(old(self).lfo2_sync, 7, 1, flag_bit(on)), ..*old(self) }),
    {
        self.lfo2_sync = set_bits(self.lfo2_sync, 7, 1, if on { 1 } else { 0 });
    }

    /// The packed field `lfo2_key_sync`: bits 5 and up of `lfo2_sync`, 0x03 wide.
    pub fn lfo2_key_sync(&self) -> (res: u8)
        ensures
            res == field_bits(self.lfo2_sync, 5, 0x03),
    {
        get_bits(self.lfo2_sync, 5, 0x03)
    }

    /// Writes the packed field `lfo2_key_sync`, keeping the other bits of `lfo2_sync`.
    pub fn set_lfo2_key_sync(&mut self, v: u8)
        ensures
            *final(self) == (RawTimbreProgram { lfo2_sync: with_field_bits(old(self).lfo2_sync, 5, 0x03, v), ..*old(self) }),
    {
        self.lfo2_sync = set_bits(self.lfo2_sync, 5, 0x03, v);
    }

    /// The packed field `lfo1_sync_note_val`: bits 0 and up of `lfo1_sync_note`, 0x1F wide.
    pub fn lfo1_sync_note_val(&self) -> (res: u8)
        ensures
            res == field_bits(self.lfo1_sync_note, 0, 0x1F),
    {
        get_bits(self.lfo1_sync_note, 0, 0x1F)
    }

    /// Writes the packed field `lfo1_sync_note_val`, keeping the other bits of `lfo1_sync_note`.
    pub fn set_lfo1_sync_note_val(&mut self, v: u8)
        ensures
            *final(self) == (RawTimbreProgram { lfo1_sync_note: with_field_bits(old(self).lfo1_sync_note, 0, 0x1F, v), ..*old(self) }),
    {
        self.lfo1_sync_note = set_bits(self.lfo1_sync_note, 0, 0x1F, v);
    }

    /// The packed field `lfo2_sync_note_val`: bits 0 and up of `lfo2_sync_note`, 0x1F wide.
    pub fn lfo2_sync_note_val(&self) -> (res: u8)
        ensures
            res == field_bits(self.lfo2_sync_note, 0, 0x1F),
    {
        get_bits(self.lfo2_sync_note, 0, 0x1F)
    }

    /// Writes the packed field `lfo2_sync_note_val`, keeping the other bits of `lfo2_sync_note`.
    pub fn set_lfo2_sync_note_val(&mut self, v: u8)
        ensures
            *final(self) == (RawTimbreProgram { lfo2_sync_note: with_field_bits(old(self).lfo2_sync_note, 0, 0x1F, v), ..*old(self) }),
    {
        self.lfo2_sync_note = set_bits(self.lfo2_sync_note, 0, 0x1F, v);
    }
}

impl RawInsertFx {
    /// The packed field `fx1_type_val`: bits 0 and up of `fx1_type`, 0x7F wide.
    pub fn fx1_type_val(&self) -> (res: u8)
        ensures
            res == field_bits(self.fx1_type, 0, 0x7F),
    {
        get_bits(self.fx1_type, 0, 0x7F)
    }

    /// Writes the packed field `fx1_type_val`, keeping the other bits of `fx1_type`.
    pub fn set_fx1_type_val(&mut self, v: u8)
        ensures
            *final(self) == (RawInsertFx { fx1_type: with_field_bits(old(self).fx1_type, 0, 0x7F, v), ..*old(self) }),
    {
        self.fx1_type = set_bits(self.fx1_type, 0, 0x7F, v);
    }

    /// The packed field `fx2_type_val`: bits 0 and up of `fx2_type`, 0x7F wide.
    pub fn fx2_type_val(&self) -> (res: u8)
        ensures
            res == field_bits(self.fx2_type, 0, 0x7F),
    {
        get_bits(self.fx2_type, 0, 0x7F)
    }

    /// Writes the packed field `fx2_type_val`, keeping the other bits of `fx2_type`.
    pub fn set_fx2_type_val(&mut self, v: u8)
        ensures
            *final(self) == (RawInsertFx { fx2_type: with_field_bits(old(self).fx2_type, 0, 0x7F, v), ..*old(self) }),
    {
        self.fx2_type = set_bits(self.fx2_type, 0, 0x7F, v);
    }
}

impl RawMotionSeq {
    /// The flag `seq_on`: bit 7 of `flags`.
    pub fn seq_on(&self) -> (res: bool)
        ensures
            res == (field_bits(self.flags, 7, 1) == 1),
    {
        get_bits(self.flags, 7, 1) == 1
    }

    /// Writes the flag `seq_on`, keeping the other bits of `flags`.
    pub fn set_seq_on(&mut self, on: bool)
        ensures
            *final(self) == (RawMotionSeq { flags: with_field_bits(old(self).flags, 7, 1, flag_bit(on)), ..*old(self) }),
    {
        self.flags = set_bits(self.flags, 7, 1, if on { 1 } else { 0 });
    }

    /// The packed field `seq_type`: bits 4 and up of `flags`, 0x03 wide.
    pub fn seq_type(&self) -> (res: u8)
        ensures
            res == field_bits(self.flags, 4, 0x03),
    {
        get_bits(self.flags, 4, 0x03)
    }

    /// Writes the packed field `seq_type`, keeping the other bits of `flags`.
    pub fn set_seq_type(&mut self, v: u8)
        ensures
            *final(self) == (RawMotionSeq { flags: with_field_bits(old(self).flags, 4, 0x03, v), ..*old(self) }),
    {
        self.flags = set_bits(self.flags, 4, 0x03, v);
    }

    /// The packed field `last_step`: bits 0 and up of `flags`, 0x0F wide.
    pub fn last_step(&self) -> (res: u8)
        ensures
            res == field_bits(self.flags, 0, 0x0F),
    {
        get_bits(self.flags, 0, 0x0F)
    }

    /// Writes the packed field `last_step`, keeping the other bits of `flags`.
    pub fn set_last_step(&mut self, v: u8)
        ensures
            *final(self) == (RawMotionSeq { flags: with_field_bits(old(self).flags, 0, 0x0F, v), ..*old(self) }),
    {
        self.flags = set_bits(self.flags, 0, 0x0F, v);
    }

    /// The packed field `key_sync`: bits 4 and up of `sync_res`, 0x03 wide.
    pub fn key_sync(&self) -> (res: u8)
        ensures
            res == field_bits(self.sync_res, 4, 0x03),
    {
        get_bits(self.sync_res, 4, 0x03)
    }

    /// Writes the packed field `key_sync`, keeping the other bits of `sync_res`.
    pub fn set_key_sync(&mut self, v: u8)
        ensures
            *final(self) == (RawMotionSeq { sync_res: with_field_bits(old(self).sync_res, 4, 0x03, v), ..*old(self) }),
    {
        self.sync_res = set_bits(self.sync_res, 4, 0x03, v);
    }

    /// The packed field `resolution`: bits 0 and up of `sync_res`, 0x0F wide.
    pub fn resolution(&self) -> (res: u8)
        ensures
            res == field_bits(self.sync_res, 0, 0x0F),
    {
        get_bits(self.sync_res, 0, 0x0F)
    }

    /// Writes the packed field `resolution`, keeping the other bits of `sync_res`.
    pub fn set_resolution(&mut self, v: u8)
        ensures
            *final(self) == (RawMotionSeq { sync_res: with_field_bits(old(self).sync_res, 0, 0x0F, v), ..*old(self) }),
    {
        self.sync_res = set_bits(self.sync_res, 0, 0x0F, v);
    }
}

impl RawVocoder {
    /// The flag `sw_on`: bit 7 of `sw_flags`.
    pub fn sw_on(&self) -> (res: bool)
        ensures
            res == (field_bits(self.sw_flags, 7, 1) == 1),
    {
        get_bits(self.sw_flags, 7, 1) == 1
    }

    /// Writes the flag `sw_on`, keeping the other bits of `sw_flags`.
    pub fn set_sw_on(&mut self, on: bool)
        ensures
            *final(self) == (RawVocoder { sw_flags: with_field_bits(old(self).sw_flags, 7, 1, flag_bit(on)), ..*old(self) }),
    {
        self.sw_flags = set_bits(self.sw_flags, 7, 1, if on { 1 } else { 0 });
    }

    /// The packed field `source`: bits 6 and up of `sw_flags`, 0x01 wide.
    pub fn source(&self) -> (res: u8)
        ensures
            res == field_bits(self.sw_flags, 6, 0x01),
    {
        get_bits(self.sw_flags, 6, 0x01)
    }

    /// Writes the packed field `source`, keeping the other bits of `sw_flags`.
    pub fn set_source(&mut self, v: u8)
        ensures
            *final(self) == (RawVocoder { sw_flags: with_field_bits(old(self).sw_flags, 6, 0x01, v), ..*old(self) }),
    {
        self.sw_flags = set_bits(self.sw_flags, 6, 0x01, v);
    }

    /// The flag `hpf_gate`: bit 5 of `sw_flags`.
    pub fn hpf_gate(&self) -> (res: bool)
        ensures
            res == (field_bits(self.sw_flags, 5, 1) == 1),
    {
        get_bits(self.sw_flags, 5, 1) == 1
    }

    /// Writes the flag `hpf_gate`, keeping the other bits of `sw_flags`.
    pub fn set_hpf_gate(&mut self, on: bool)
        ensures
            *final(self) == (RawVocoder { sw_flags: with_field_bits(old(self).sw_flags, 5, 1, flag_bit(on)), ..*old(self) }),
    {
        self.sw_flags = set_bits(self.sw_flags, 5, 1, if on { 1 } else { 0 });
    }

    /// The packed field `formant_data_play`: bits 4 and up of `sw_flags`, 0x01 wide.
    pub fn formant_data_play(&self) -> (res: u8)
        ensures
            res == field_bits(self.sw_flags, 4, 0x01),
    {
        get_bits(self.sw_flags, 4, 0x01)
    }

    /// Writes the packed field `formant_data_play`, keeping the other bits of `sw_flags`.
    pub fn set_formant_data_play(&mut self, v: u8)
        ensures
            *final(self) == (RawVocoder { sw_flags: with_field_bits(old(self).sw_flags, 4, 0x01, v), ..*old(self) }),
    {
        self.sw_flags = set_bits(self.sw_flags, 4, 0x01, v);
    }

    /// The packed field `select`: bits 0 and up of `sw_flags`, 0x03 wide.
    pub fn select(&self) -> (res: u8)
        ensures
            res == field_bits(self.sw_flags, 0, 0x03),
    {
        get_bits(self.sw_flags, 0, 0x03)
    }

    /// Writes the packed field `select`, keeping the other bits of `sw_flags`.
    pub fn set_select(&mut self, v: u8)
        ensures
            *final(self) == (RawVocoder { sw_flags: with_field_bits(old(self).sw_flags, 0, 0x03, v), ..*old(self) }),
    {
        self.sw_flags = set_bits(self.sw_flags, 0, 0x03, v);
    }

    /// The packed field `shift`: bits 4 and up of `shift_fcmodsrc`, 0x07 wide.
    pub fn shift(&self) -> (res: u8)
        ensures
            res == field_bits(self.shift_fcmodsrc, 4, 0x07),
    {
        get_bits(self.shift_fcmodsrc, 4, 0x07)
    }

    /// The packed field `fc_mod_src`: bits 0 and up of `shift_fcmodsrc`, 0x0F wide.
    pub fn fc_mod_src(&self) -> (res: u8)
        ensures
            res == field_bits(self.shift_fcmodsrc, 0, 0x0F),
    {
        get_bits(self.shift_fcmodsrc, 0, 0x0F)
    }
}

impl RawMasterFx {
    /// The packed field `fx_type_val`: bits 0 and up of `fx_type`, 0x7F wide.
    pub fn fx_type_val(&self) -> (res: u8)
        ensures
            res == field_bits(self.fx_type, 0, 0x7F),
    {
        get_bits(self.fx_type, 0, 0x7F)
    }

    /// Writes the packed field `fx_type_val`, keeping the other bits of `fx_type`.
    pub fn set_fx_type_val(&mut self, v: u8)
        ensures
            *final(self) == (RawMasterFx { fx_type: with_field_bits(old(self).fx_type, 0, 0x7F, v), ..*old(self) }),
    {
        self.fx_type = set_bits(self.fx_type, 0, 0x7F, v);
    }
}

impl RawArpeggio {
    /// The packed field `resolution`: bits 4 and up of `res_type`, 0x0F wide.
    pub fn resolution(&self) -> (res: u8)
        ensures
            res == field_bits(self.res_type, 4, 0x0F),
    {
        get_bits(self.res_type, 4, 0x0F)
    }

    /// Writes the packed field `resolution`, keeping the other bits of `res_type`.
    pub fn set_resolution(&mut self, v: u8)
        ensures
            *final(self) == (RawArpeggio { res_type: with_field_bits(old(self).res_type, 4, 0x0F, v), ..*old(self) }),
    {
        self.res_type = set_bits(self.res_type, 4, 0x0F, v);
    }

    /// The packed field `arp_type`: bits 0 and up of `res_type`, 0x07 wide.
    pub fn arp_type(&self) -> (res: u8)
        ensures
            res == field_bits(self.res_type, 0, 0x07),
    {
        get_bits(self.res_type, 0, 0x07)
    }

    /// Writes the packed field `arp_type`, keeping the other bits of `res_type`.
    pub fn set_arp_type(&mut self, v: u8)
        ensures
            *final(self) == (RawArpeggio { res_type: with_field_bits(old(self).res_type, 0, 0x07, v), ..*old(self) }),
    {
        self.res_type = set_bits(self.res_type, 0, 0x07, v);
    }

    /// The flag `latch`: bit 7 of `latch_oct_last`.
    pub fn latch(&self) -> (res: bool)
        ensures
            res == (field_bits(self.latch_oct_last, 7, 1) == 1),
    {
        get_bits(self.latch_oct_last, 7, 1) == 1
    }

    /// The packed field `octave_range`: bits 5 and up of `latch_oct_last`, 0x03 wide.
    pub fn octave_range(&self) -> (res: u8)
        ensures
            res == field_bits(self.latch_oct_last, 5, 0x03),
    {
        get_bits(self.latch_oct_last, 5, 0x03)
    }

    /// The packed field `last_step`: bits 0 and up of `latch_oct_last`, 0x1F wide.
    pub fn last_step(&self) -> (res: u8)
        ensures
            res == field_bits(self.latch_oct_last, 0, 0x1F),
    {
        get_bits(self.latch_oct_last, 0, 0x1F)
    }
}

impl RawProgram {
    /// The packed field `voice_mode`: bits 6 and up of `voice_arp`, 0x03 wide.
    pub fn voice_mode(&self) -> (res: u8)
        ensures
            res == field_bits(self.voice_arp, 6, 0x03),
    {
        get_bits(self.voice_arp, 6, 0x03)
    }

    /// Writes the packed field `voice_mode`, keeping the other bits of `voice_arp`.
    pub fn set_voice_mode(&mut self, v: u8)
        ensures
            *final(self) == (RawProgram { voice_arp: with_field_bits(old(self).voice_arp, 6, 0x03, v), ..*old(self) }),
    {
        self.voice_arp = set_bits(self.voice_arp, 6, 0x03, v);
    }

    /// The packed field `arp_timb_select`: bits 4 and up of `voice_arp`, 0x03 wide.
    pub fn arp_timb_select(&self) -> (res: u8)
        ensures
            res == field_bits(self.voice_arp, 4, 0x03),
    {
        get_bits(self.voice_arp, 4, 0x03)
    }

    /// Writes the packed field `arp_timb_select`, keeping the other bits of `voice_arp`.
    pub fn set_arp_timb_select(&mut self, v: u8)
        ensures
            *final(self) == (RawProgram { voice_arp: with_field_bits(old(self).voice_arp, 4, 0x03, v), ..*old(self) }),
    {
        self.voice_arp = set_bits(self.voice_arp, 4, 0x03, v);
    }

    /// The packed field `category`: bits 0 and up of `octave_category`, 0x0F wide.
    pub fn category(&self) -> (res: u8)
        ensures
            res == field_bits(self.octave_category, 0, 0x0F),
    {
        get_bits(self.octave_category, 0, 0x0F)
    }

    /// Writes the packed field `category`, keeping the other bits of `octave_category`.
    pub fn set_category(&mut self, v: u8)
        ensures
            *final(self) == (RawProgram { octave_category: with_field_bits(old(self).octave_category, 0, 0x0F, v), ..*old(self) }),
    {
        self.octave_category = set_bits(self.octave_category, 0, 0x0F, v);
    }

    /// The flag `arp_on`: bit 7 of `arp_flags`.
    pub fn arp_on(&self) -> (res: bool)
        ensures
            res == (field_bits(self.arp_flags, 7, 1) == 1),
    {
        get_bits(self.arp_flags, 7, 1) == 1
    }

    /// Writes the flag `arp_on`, keeping the other bits of `arp_flags`.
    pub fn set_arp_on(&mut self, on: bool)
        ensures
            *final(self) == (RawProgram { arp_flags: with_field_bits(old(self).arp_flags, 7, 1, flag_bit(on)), ..*old(self) }),
    {
        self.arp_flags = set_bits(self.arp_flags, 7, 1, if on { 1 } else { 0 });
    }

    /// The flag `arp_key_sync`: bit 6 of `arp_flags`.
    pub fn arp_key_sync(&self) -> (res: bool)
        ensures
            res == (field_bits(self.arp_flags, 6, 1) == 1),
    {
        get_bits(self.arp_flags, 6, 1) == 1
    }
}

impl RawVocoder {
    /// The pan of band `i`, for the sixteen bands.
    pub fn band_pan(&self, i: usize) -> (res: u8)
        requires
            i < 16,
        ensures
            res == self.bands@[2 * i as int],
    {
        self.bands[i * 2]
    }

    /// The level of band `i`, for the sixteen bands.
    pub fn band_level(&self, i: usize) -> (res: u8)
        requires
            i < 16,
        ensures
            res == self.bands@[2 * i as int + 1],
    {
        self.bands[i * 2 + 1]
    }

    /// Writes the pan of band `i`.
    pub fn set_band_pan(&mut self, i: usize, v: u8)
        requires
            i < 16,
        ensures
            final(self).bands@ == old(self).bands@.update(2 * i as int, v),
            *final(self) == (RawVocoder { bands: final(self).bands, ..*old(self) }),
    {
        self.bands[i * 2] = v;
    }

    /// Writes the level of band `i`.
    pub fn set_band_level(&mut self, i: usize, v: u8)
        requires
            i < 16,
        ensures
            final(self).bands@ == old(self).bands@.update(2 * i as int + 1, v),
            *final(self) == (RawVocoder { bands: final(self).bands, ..*old(self) }),
    {
        self.bands[i * 2 + 1] = v;
    }
}

/// The octave switch of a program, -8 ..= 7.
pub open spec fn octave_sw_of(p: RawProgram) -> int {
    field_bits(p.octave_category, 4, 0x0F) - 8
}

/// The program with its octave switch set to `v`, saturated to -8 ..= 7.
pub open spec fn with_octave_sw(p: RawProgram, v: i8) -> RawProgram {
    RawProgram {
        octave_category: with_field_bits(p.octave_category, 4, 0x0F, clamp_int(v + 8, 0, 15) as u8),
        ..p
    }
}

/// The tempo of a program: a 14-bit number split into two 7-bit bytes, low
/// byte first.
pub open spec fn tempo_of(p: RawProgram) -> u16 {
    (p.tempo[0] as u16) | ((p.tempo[1] as u16) << 7)
}

/// The program with tempo `v`, cut to 14 bits.
pub open spec fn with_tempo(p: RawProgram, v: u16) -> RawProgram {
    RawProgram { tempo: [(v & 0x7F) as u8, ((v >> 7) & 0x7F) as u8], ..p }
}

impl RawProgram {
    /// The octave switch, -8 ..= 7.
    pub fn octave_sw(&self) -> (res: i8)
        ensures
            res == octave_sw_of(*self),
    {
        (get_bits(self.octave_category, 4, 0x0F) as i8) - 8
    }

    /// Writes the octave switch, saturated to -8 ..= 7.
    pub fn set_octave_sw(&mut self, v: i8)
        requires
            v <= 119,
        ensures
            *final(self) == with_octave_sw(*old(self), v),
    {
        let shifted: i8 = v + 8;
        let raw: u8 = if shifted < 0 {
            0
        } else if shifted > 15 {
            15
        } else {
            shifted as u8
        };
        self.octave_category = set_bits(self.octave_category, 4, 0x0F, raw);
    }

    /// The tempo as stored, 14 bits.
    pub fn tempo_raw(&self) -> (res: u16)
        ensures
            res == tempo_of(*self),
    {
        (self.tempo[0] as u16) | ((self.tempo[1] as u16) << 7)
    }

    /// Writes the tempo, cut to 14 bits.
    pub fn set_tempo_raw(&mut self, v: u16)
        ensures
            *final(self) == with_tempo(*old(self), v),
    {
        self.tempo[0] = (v & 0x7F) as u8;
        self.tempo[1] = ((v >> 7) & 0x7F) as u8;
        assert(self.tempo =~= [(v & 0x7F) as u8, ((v >> 7) & 0x7F) as u8]);
    }
}

/// Reading the octave switch after writing `v` gives `v` saturated to
/// -8 ..= 7.
pub proof fn lemma_octave_sw_round_trip(p: RawProgram, v: i8)
    ensures
        octave_sw_of(with_octave_sw(p, v)) == clamp_int(v as int, -8, 7),
{
    let raw = clamp_int(v + 8, 0, 15) as u8;
    assert(0xFFu8 >> 4u8 == 0x0Fu8) by (bit_vector);
    lemma_field_read_after_write(p.octave_category, 4, 0x0F, raw);
    assert(raw & 0x0F == raw) by (bit_vector)
        requires
            raw <= 15,
    ;
}

/// Reading the tempo after writing `v` gives the low 14 bits of `v`.
pub proof fn lemma_tempo_round_trip(p: RawProgram, v: u16)
    ensures
        tempo_of(with_tempo(p, v)) == v & 0x3FFF,
{
    let q = with_tempo(p, v);
    let lo = (v & 0x7F) as u8;
    let hi = ((v >> 7) & 0x7F) as u8;
    assert(q.tempo[0] == lo && q.tempo[1] == hi);
    assert(((((v & 0x7F) as u8) as u16) | (((((v >> 7) & 0x7F) as u8) as u16) << 7)) == v & 0x3FFF)
        by (bit_vector);
}

/// Whether `res` is the neutral timbre: centered offsets, open filters,
/// full levels and sustains, a bend range of two semitones; every other byte
/// zero.
pub open spec fn is_neutral_timbre_program(res: RawTimbreProgram) -> bool {
    &&& res.knob_assigns@ == Seq::new(4, |i: int| 0u8)
    &&& res.voice_unison == 0
    &&& res.unison_detune == 0
    &&& res.unison_spread == 0
    &&& res.voice_assign == 0
    &&& res._dummy8 == 0
    &&& res.analog_tuning == 0
    &&& res.transpose == 64
    &&& res.detune == 64
    &&& res.vibrato_int == 64
    &&& res.bend_range == 66
    &&& res.portamento == 0
    &&& res._dummy15 == 0
    &&& res.osc1_wave_mod == 0
    &&& res.osc1_ctrl1 == 0
    &&& res.osc1_ctrl2 == 0
    &&& res.osc1_dwgs == 0
    &&& res._dummy20 == 0
    &&& res.osc2_wave_mod == 0
    &&& res.osc2_semitone == 64
    &&& res.osc2_tune == 64
    &&& res.osc1_level == 127
    &&& res.osc2_level == 0
    &&& res.noise_level == 0
    &&& res._dummy27 == 0
    &&& res.filter_routing_type2 == 0
    &&& res.filter1_balance == 0
    &&& res.filter1_cutoff == 127
    &&& res.filter1_resonance == 0
    &&& res.filter1_eg1_int == 64
    &&& res.filter1_key_track == 64
    &&& res.filter1_velo_sens == 64
    &&& res.filter2_cutoff == 127
    &&& res.filter2_resonance == 0
    &&& res.filter2_eg1_int == 64
    &&& res.filter2_key_track == 64
    &&& res.filter2_velo_sens == 64
    &&& res.amp_level == 127
    &&& res.amp_ws_position == 0
    &&& res.amp_ws_type == 0
    &&& res.amp_ws_depth == 0
    &&& res.amp_panpot == 64
    &&& res.amp_key_track == 64
    &&& res.punch_level == 0
    &&& res._dummy47 == 0
    &&& res.eg1_attack == 0
    &&& res.eg1_decay == 64
    &&& res.eg1_sustain == 127
    &&& res.eg1_release == 0
    &&& res.eg1_level_velo == 64
    &&& res._dummy53 == 0
    &&& res.eg2_attack == 0
    &&& res.eg2_decay == 64
    &&& res.eg2_sustain == 127
    &&& res.eg2_release == 0
    &&& res.eg2_level_velo == 64
    &&& res._dummy59 == 0
    &&& res.eg3_attack == 0
    &&& res.eg3_decay == 64
    &&& res.eg3_sustain == 127
    &&& res.eg3_release == 0
    &&& res.eg3_level_velo == 64
    &&& res._dummy65 == 0
    &&& res.lfo1_wave == 0
    &&& res.lfo1_freq == 64
    &&& res.lfo1_sync == 0
    &&& res.lfo1_sync_note == 0
    &&& res.lfo2_wave == 0
    &&& res.lfo2_freq == 64
    &&& res.lfo2_sync == 0
    &&& res.lfo2_sync_note == 0
    &&& res.patch1_src == 0
    &&& res.patch1_dst == 0
    &&& res.patch1_int == 64
    &&& res.patch2_src == 0
    &&& res.patch2_dst == 0
    &&& res.patch2_int == 64
    &&& res.patch3_src == 0
    &&& res.patch3_dst == 0
    &&& res.patch3_int == 64
    &&& res.patch4_src == 0
    &&& res.patch4_dst == 0
    &&& res.patch4_int == 64
    &&& res.patch5_src == 0
    &&& res.patch5_dst == 0
    &&& res.patch5_int == 64
    &&& res.patch6_src == 0
    &&& res.patch6_dst == 0
    &&& res.patch6_int == 64
}

impl Default for RawTimbreProgram {
    fn default() -> (res: Self)
        ensures
            is_neutral_timbre_program(res),
    {
        let mut p = Self::zeroed();
        p.transpose = 64;
        p.detune = 64;
        p.vibrato_int = 64;
        p.bend_range = 66;
        p.osc2_semitone = 64;
        p.osc2_tune = 64;
        p.osc1_level = 127;
        p.filter1_cutoff = 127;
        p.filter1_eg1_int = 64;
        p.filter1_key_track = 64;
        p.filter1_velo_sens = 64;
        p.filter2_cutoff = 127;
        p.filter2_eg1_int = 64;
        p.filter2_key_track = 64;
        p.filter2_velo_sens = 64;
        p.amp_level = 127;
        p.amp_panpot = 64;
        p.amp_key_track = 64;
        p.eg1_decay = 64;
        p.eg1_sustain = 127;
        p.eg1_level_velo = 64;
        p.eg2_decay = 64;
        p.eg2_sustain = 127;
        p.eg2_level_velo = 64;
        p.eg3_decay = 64;
        p.eg3_sustain = 127;
        p.eg3_level_velo = 64;
        p.lfo1_freq = 64;
        p.lfo2_freq = 64;
        p.patch1_int = 64;
        p.patch2_int = 64;
        p.patch3_int = 64;
        p.patch4_int = 64;
        p.patch5_int = 64;
        p.patch6_int = 64;
        p
    }
}

impl Default for RawInsertFx {
    /// Every byte zero.
    fn default() -> (res: Self)
        ensures
            res.bytes() == Seq::new(RawInsertFx::SIZE as nat, |i: int| 0u8),
    {
        Self::zeroed()
    }
}

impl Default for RawMotionSeq {
    /// Every byte zero.
    fn default() -> (res: Self)
        ensures
            res.bytes() == Seq::new(RawMotionSeq::SIZE as nat, |i: int| 0u8),
    {
        Self::zeroed()
    }
}

impl Default for RawMasterFx {
    /// Every byte zero.
    fn default() -> (res: Self)
        ensures
            res.bytes() == Seq::new(RawMasterFx::SIZE as nat, |i: int| 0u8),
    {
        Self::zeroed()
    }
}

impl Default for RawArpeggio {
    /// Every byte zero.
    fn default() -> (res: Self)
        ensures
            res.bytes() == Seq::new(RawArpeggio::SIZE as nat, |i: int| 0u8),
    {
        Self::zeroed()
    }
}

impl Default for RawTimbre {
    /// The neutral timbre program with zeroed effects and motion sequence.
    fn default() -> (res: Self)
        ensures
            is_neutral_timbre_program(res.program),
            res.insert_fx.bytes() == Seq::new(RawInsertFx::SIZE as nat, |i: int| 0u8),
            res.motion_seq.bytes() == Seq::new(RawMotionSeq::SIZE as nat, |i: int| 0u8),
    {
        RawTimbre {
            program: RawTimbreProgram::default(),
            insert_fx: RawInsertFx::default(),
            motion_seq: RawMotionSeq::default(),
        }
    }
}

/// Whether `res` is the neutral vocoder: centered gate, cutoff offset and
/// modulation, full direct and vocoder levels, a shift of 4, every band
/// centered and at full level; every other byte zero.
pub open spec fn is_neutral_vocoder(res: RawVocoder) -> bool {
    &&& res.sw_flags == 0
    &&& res.gate_sens == 64
    &&& res.threshold == 64
    &&& res.hpf_level == 0
    &&& res.direct_level == 127
    &&& res.timbre1_level == 0
    &&& res.input1_level == 0
    &&& res.vocoder_level == 127
    &&& forall|i: int| 0 <= i < 16 ==> #[trigger] res.bands[2 * i] == 64 && res.bands[2 * i + 1] == 127
    &&& res.shift_fcmodsrc == 64
    &&& res.fm_select == 0
    &&& res.cutoff_offset == 64
    &&& res.resonance == 0
    &&& res.fc_mod_int == 64
    &&& res.ef_sens == 0
    &&& res.formant_hold@ == Seq::new(32, |i: int| 0u8)
}

impl Default for RawVocoder {
    fn default() -> (res: Self)
        ensures
            is_neutral_vocoder(res),
    {
        let mut v = Self::zeroed();
        v.gate_sens = 64;
        v.threshold = 64;
        v.direct_level = 127;
        v.vocoder_level = 127;
        v.shift_fcmodsrc = 0x40;
        v.cutoff_offset = 64;
        v.fc_mod_int = 64;
        let mut i: usize = 0;
        while i < 16
            invariant
                i <= 16,
                v.sw_flags == 0,
                v.gate_sens == 64,
                v.threshold == 64,
                v.hpf_level == 0,
                v.direct_level == 127,
                v.timbre1_level == 0,
                v.input1_level == 0,
                v.vocoder_level == 127,
                forall|j: int| 0 <= j < i ==> #[trigger] v.bands[2 * j] == 64 && v.bands[2 * j + 1] == 127,
                v.shift_fcmodsrc == 64,
                v.fm_select == 0,
                v.cutoff_offset == 64,
                v.resonance == 0,
                v.fc_mod_int == 64,
                v.ef_sens == 0,
                v.formant_hold@ == Seq::new(32, |i: int| 0u8),
            decreases 16 - i,
        {
            v.set_band_pan(i, 64);
            v.set_band_level(i, 127);
            i = i + 1;
        }
        v
    }
}

} // verus!
