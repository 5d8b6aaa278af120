//! The controls of a preset, grouped by kind.

use vstd::prelude::*;

use crate::manufacturer::akai::mpd226::ColorPattern;
use crate::manufacturer::akai::mpd226::NotePattern;
use crate::manufacturer::akai::mpd226::TOTAL_PADS;
use crate::manufacturer::akai::mpd226::control::Dial;
use crate::manufacturer::akai::mpd226::control::Fader;
use crate::manufacturer::akai::mpd226::control::Pad;
use crate::manufacturer::akai::mpd226::control::Switch;
use crate::manufacturer::akai::mpd226::control::dial_decoded;
use crate::manufacturer::akai::mpd226::control::fader_decoded;
use crate::manufacturer::akai::mpd226::control::fresh_dial;
use crate::manufacturer::akai::mpd226::control::fresh_fader;
use crate::manufacturer::akai::mpd226::control::fresh_pad;
use crate::manufacturer::akai::mpd226::control::fresh_switch;
use crate::manufacturer::akai::mpd226::control::pad_decoded;
use crate::manufacturer::akai::mpd226::control::switch_decoded;
use crate::manufacturer::akai::mpd226::control::value_kind::PadColor;
use crate::manufacturer::akai::mpd226::error::PresetParseError;
use crate::manufacturer::akai::mpd226::pattern_color;
use crate::manufacturer::akai::mpd226::error::DialParseError;
use crate::manufacturer::akai::mpd226::error::FaderParseError;
use crate::manufacturer::akai::mpd226::error::PadParseError;
use crate::manufacturer::akai::mpd226::error::SwitchParseError;
use crate::manufacturer::akai::mpd226::raw::RawDial;
use crate::manufacturer::akai::mpd226::raw::RawDials;
use crate::manufacturer::akai::mpd226::raw::RawFader;
use crate::manufacturer::akai::mpd226::raw::RawPad;
use crate::manufacturer::akai::mpd226::raw::RawSwitch;
use crate::manufacturer::akai::mpd226::raw::RawFaders;
use crate::manufacturer::akai::mpd226::raw::RawPads;
use crate::manufacturer::akai::mpd226::raw::RawSwitches;
use crate::midi::Note;
use crate::midi::note_of;
use crate::music::theory::class_of_midi;
use crate::scale::Octave;
use crate::scale::PitchClass;
use crate::scale::ScaleKind;
use crate::scale::ScaleSequence;
use crate::scale::SequenceDirection;
use crate::scale::byte_walk;
use crate::scale::partial_intervals;
use crate::scale::start_note;

verus! {

/// The 64 pads of a preset.
#[derive(Clone, Copy, Debug)]
pub struct PadRepository {
    pub pads: [Pad; 64],
}

/// The first pad a range starting at `start` reaches: `start`, at most 64.
pub open spec fn first_pad(start: usize) -> int {
    if start < 64 {
        start as int
    } else {
        64
    }
}

/// The pad after the last that a range of `length` pads from `start`
/// reaches, at most 64.
pub open spec fn end_pad(start: usize, length: usize) -> int {
    if first_pad(start) + length < 64 {
        first_pad(start) + length
    } else {
        64
    }
}

/// The note numbers of a note pattern.
pub open spec fn pattern_notes(pattern: NotePattern, i: int) -> int {
    match pattern {
        NotePattern::Scale(s) => byte_walk(
            start_note(s.tonic, s.octave),
            partial_intervals(s.scale),
            s.direction,
            i as nat,
        ),
    }
}

/// The number of notes of a note pattern.
pub open spec fn pattern_len(pattern: NotePattern) -> int {
    match pattern {
        NotePattern::Scale(s) => s.length as int,
    }
}

/// Whether a note pattern can be computed: its first note is a byte.
pub open spec fn pattern_playable(pattern: NotePattern) -> bool {
    match pattern {
        NotePattern::Scale(s) => s.octave != Octave::Osub2,
    }
}

/// Whether `s` is `f` applied to the pads of `o` from `lo` up to `hi`, every
/// other pad unchanged.
pub open spec fn pads_changed(
    s: Seq<Pad>,
    o: Seq<Pad>,
    lo: int,
    hi: int,
    f: spec_fn(int, Pad) -> Pad,
) -> bool {
    &&& s.len() == o.len()
    &&& forall|i: int| 0 <= i < s.len() ==> #[trigger] s[i] == if lo <= i < hi { f(i, o[i]) } else { o[i] }
}

/// Whether every stored pad reads as the pad at its place.
pub open spec fn pads_read(raw: Seq<RawPad>, pads: Seq<Pad>) -> bool {
    forall|i: int| 0 <= i < 64 ==> pad_decoded(i as usize, raw[i]) == Ok::<Pad, PadParseError>(#[trigger] pads[i])
}

/// Whether every stored pad can be read.
pub open spec fn pads_all_read(raw: Seq<RawPad>) -> bool {
    forall|i: int| 0 <= i < 64 ==> (#[trigger] pad_decoded(i as usize, raw[i])) is Ok
}

/// Whether `e` names the first stored pad that cannot be read.
pub open spec fn pads_fail(raw: Seq<RawPad>, e: PresetParseError) -> bool {
    exists|i: int|
        #![trigger raw[i]]
        0 <= i < 64 && (forall|j: int| 0 <= j < i ==> (#[trigger] pad_decoded(j as usize, raw[j])) is Ok) && (pad_decoded(i as usize, raw[i]) matches Err(source)
            && e == PresetParseError::Pad { index: i as usize, source })
}

/// Whether every stored dial reads as the dial at its place.
pub open spec fn dials_read(raw: Seq<RawDial>, dials: Seq<Dial>) -> bool {
    forall|i: int| 0 <= i < 12 ==> dial_decoded(raw[i]) == Ok::<Dial, DialParseError>(#[trigger] dials[i])
}

/// Whether every stored dial can be read.
pub open spec fn dials_all_read(raw: Seq<RawDial>) -> bool {
    forall|i: int| 0 <= i < 12 ==> (#[trigger] dial_decoded(raw[i])) is Ok
}

/// Whether `e` names the first stored dial that cannot be read.
pub open spec fn dials_fail(raw: Seq<RawDial>, e: PresetParseError) -> bool {
    exists|i: int|
        #![trigger raw[i]]
        0 <= i < 12 && (forall|j: int| 0 <= j < i ==> (#[trigger] dial_decoded(raw[j])) is Ok) && (dial_decoded(raw[i]) matches Err(source)
            && e == PresetParseError::Dial { index: i as usize, source })
}

/// Whether every stored fader reads as the fader at its place.
pub open spec fn faders_read(raw: Seq<RawFader>, faders: Seq<Fader>) -> bool {
    forall|i: int| 0 <= i < 12 ==> fader_decoded(raw[i]) == Ok::<Fader, FaderParseError>(#[trigger] faders[i])
}

/// Whether every stored fader can be read.
pub open spec fn faders_all_read(raw: Seq<RawFader>) -> bool {
    forall|i: int| 0 <= i < 12 ==> (#[trigger] fader_decoded(raw[i])) is Ok
}

/// Whether `e` names the first stored fader that cannot be read.
pub open spec fn faders_fail(raw: Seq<RawFader>, e: PresetParseError) -> bool {
    exists|i: int|
        #![trigger raw[i]]
        0 <= i < 12 && (forall|j: int| 0 <= j < i ==> (#[trigger] fader_decoded(raw[j])) is Ok) && (fader_decoded(raw[i]) matches Err(source)
            && e == PresetParseError::Fader { index: i as usize, source })
}

/// Whether every stored switch reads as the switch at its place.
pub open spec fn switches_read(raw: Seq<RawSwitch>, switches: Seq<Switch>) -> bool {
    forall|i: int| 0 <= i < 12 ==> switch_decoded(raw[i]) == Ok::<Switch, SwitchParseError>(#[trigger] switches[i])
}

/// Whether every stored switch can be read.
pub open spec fn switches_all_read(raw: Seq<RawSwitch>) -> bool {
    forall|i: int| 0 <= i < 12 ==> (#[trigger] switch_decoded(raw[i])) is Ok
}

/// Whether `e` names the first stored switch that cannot be read.
pub open spec fn switches_fail(raw: Seq<RawSwitch>, e: PresetParseError) -> bool {
    exists|i: int|
        #![trigger raw[i]]
        0 <= i < 12 && (forall|j: int| 0 <= j < i ==> (#[trigger] switch_decoded(raw[j])) is Ok) && (switch_decoded(raw[i]) matches Err(source)
            && e == PresetParseError::Switch { index: i as usize, source })
}

/// Pads that read give every stored pad as read.
pub proof fn lemma_pads_read(raw: Seq<RawPad>, pads: Seq<Pad>)
    requires
        pads_read(raw, pads),
    ensures
        pads_all_read(raw),
{
    assert forall|i: int| 0 <= i < 64 implies (#[trigger] pad_decoded(i as usize, raw[i])) is Ok by {
        assert(pad_decoded(i as usize, raw[i]) == Ok::<Pad, PadParseError>(pads[i]));
    }
}

/// A stored pad that cannot be read means not every one reads.
pub proof fn lemma_pads_fail(raw: Seq<RawPad>, e: PresetParseError)
    requires
        pads_fail(raw, e),
    ensures
        !pads_all_read(raw),
{
}

/// Dials that read give every stored dial as read.
pub proof fn lemma_dials_read(raw: Seq<RawDial>, dials: Seq<Dial>)
    requires
        dials_read(raw, dials),
    ensures
        dials_all_read(raw),
{
    assert forall|i: int| 0 <= i < 12 implies (#[trigger] dial_decoded(raw[i])) is Ok by {
        assert(dial_decoded(raw[i]) == Ok::<Dial, DialParseError>(dials[i]));
    }
}

/// A stored dial that cannot be read means not every one reads.
pub proof fn lemma_dials_fail(raw: Seq<RawDial>, e: PresetParseError)
    requires
        dials_fail(raw, e),
    ensures
        !dials_all_read(raw),
{
}

/// Faders that read give every stored fader as read.
pub proof fn lemma_faders_read(raw: Seq<RawFader>, faders: Seq<Fader>)
    requires
        faders_read(raw, faders),
    ensures
        faders_all_read(raw),
{
    assert forall|i: int| 0 <= i < 12 implies (#[trigger] fader_decoded(raw[i])) is Ok by {
        assert(fader_decoded(raw[i]) == Ok::<Fader, FaderParseError>(faders[i]));
    }
}

/// A stored fader that cannot be read means not every one reads.
pub proof fn lemma_faders_fail(raw: Seq<RawFader>, e: PresetParseError)
    requires
        faders_fail(raw, e),
    ensures
        !faders_all_read(raw),
{
}

/// Switchs that read give every stored switch as read.
pub proof fn lemma_switches_read(raw: Seq<RawSwitch>, switches: Seq<Switch>)
    requires
        switches_read(raw, switches),
    ensures
        switches_all_read(raw),
{
    assert forall|i: int| 0 <= i < 12 implies (#[trigger] switch_decoded(raw[i])) is Ok by {
        assert(switch_decoded(raw[i]) == Ok::<Switch, SwitchParseError>(switches[i]));
    }
}

/// A stored switch that cannot be read means not every one reads.
pub proof fn lemma_switches_fail(raw: Seq<RawSwitch>, e: PresetParseError)
    requires
        switches_fail(raw, e),
    ensures
        !switches_all_read(raw),
{
}

impl PadRepository {
    /// Sets the notes of the pads from `starting_position` on to the notes of
    /// the pattern, one each; pads past the pattern's end, and pads whose note
    /// would be above 127, keep their note.
    pub fn set_note_pattern(&mut self, starting_position: usize, pattern: NotePattern)
        requires
            pattern_playable(pattern),
        ensures
            pads_changed(
                final(self).pads@,
                old(self).pads@,
                first_pad(starting_position),
                64,
                |i: int, p: Pad|
                    {
                        let k = i - first_pad(starting_position);
                        if k < pattern_len(pattern) && pattern_notes(pattern, k) <= 127 {
                            Pad { note: note_of(pattern_notes(pattern, k) as u8), ..p }
                        } else {
                            p
                        }
                    },
            ),
    {
        let start: usize = if starting_position < TOTAL_PADS {
            starting_position
        } else {
            TOTAL_PADS
        };
        match pattern {
            NotePattern::Scale(scale_sequence) => {
                let notes = scale_sequence.as_midi_notes();
                let mut i: usize = start;
                while i < TOTAL_PADS
                    invariant
                        start == first_pad(starting_position),
                        start <= i <= 64,
                        pattern == NotePattern::Scale(scale_sequence),
                        notes@.len() == scale_sequence.length,
                        forall|j: int|
                            0 <= j < scale_sequence.length ==> notes@[j] == pattern_notes(pattern, j),
                        self.pads@.len() == 64,
                        forall|j: int|
                            0 <= j < 64 ==> #[trigger] self.pads@[j] == if start <= j < i {
                                let k = j - start;
                                if k < pattern_len(pattern) && pattern_notes(pattern, k) <= 127 {
                                    Pad { note: note_of(pattern_notes(pattern, k) as u8), ..old(self).pads@[j] }
                                } else {
                                    old(self).pads@[j]
                                }
                            } else {
                                old(self).pads@[j]
                            },
                    decreases 64 - i,
                {
                    let rel = i - start;
                    if rel < notes.len() {
                        match Note::try_from_u8(notes[rel]) {
                            Some(note) => {
                                self.pads[i].note = note;
                            },
                            None => {},
                        }
                    }
                    i = i + 1;
                }
            },
        }
    }

    /// Sets the unlit colours of `length` pads from `starting_position` on to
    /// the colours of the pattern; an empty pattern changes nothing.
    pub fn set_off_color_pattern(
        &mut self,
        starting_position: usize,
        length: usize,
        pattern: ColorPattern,
    )
        requires
            pattern.cycle_fits(),
            first_pad(starting_position) + length <= usize::MAX,
        ensures
            pattern.is_empty() ==> final(self).pads@ == old(self).pads@,
            !pattern.is_empty() ==> pads_changed(
                final(self).pads@,
                old(self).pads@,
                first_pad(starting_position),
                end_pad(starting_position, length),
                |i: int, p: Pad|
                    Pad { off_color: pattern_color(pattern, i - first_pad(starting_position)), ..p },
            ),
    {
        if pattern.is_empty_pattern() {
            return;
        }
        let start: usize = if starting_position < TOTAL_PADS {
            starting_position
        } else {
            TOTAL_PADS
        };
        let end: usize = if start + length < TOTAL_PADS {
            start + length
        } else {
            TOTAL_PADS
        };
        let mut i: usize = start;
        while i < end
            invariant
                start == first_pad(starting_position),
                end == end_pad(starting_position, length),
                start <= i <= end <= 64,
                pattern.cycle_fits(),
                self.pads@.len() == 64,
                forall|j: int|
                    0 <= j < 64 ==> #[trigger] self.pads@[j] == if start <= j < i {
                        Pad { off_color: pattern_color(pattern, j - start), ..old(self).pads@[j] }
                    } else {
                        old(self).pads@[j]
                    },
            decreases end - i,
        {
            let c = pattern.color_at_index(i - start);
            self.pads[i].off_color = c;
            i = i + 1;
        }
    }

    /// Sets the lit colours of `length` pads from `starting_position` on to
    /// the colours of the pattern; an empty pattern changes nothing.
    pub fn set_on_color_pattern(
        &mut self,
        starting_position: usize,
        length: usize,
        pattern: ColorPattern,
    )
        requires
            pattern.cycle_fits(),
            first_pad(starting_position) + length <= usize::MAX,
        ensures
            pattern.is_empty() ==> final(self).pads@ == old(self).pads@,
            !pattern.is_empty() ==> pads_changed(
                final(self).pads@,
                old(self).pads@,
                first_pad(starting_position),
                end_pad(starting_position, length),
                |i: int, p: Pad|
                    Pad { on_color: pattern_color(pattern, i - first_pad(starting_position)), ..p },
            ),
    {
        if pattern.is_empty_pattern() {
            return;
        }
        let start: usize = if starting_position < TOTAL_PADS {
            starting_position
        } else {
            TOTAL_PADS
        };
        let end: usize = if start + length < TOTAL_PADS {
            start + length
        } else {
            TOTAL_PADS
        };
        let mut i: usize = start;
        while i < end
            invariant
                start == first_pad(starting_position),
                end == end_pad(starting_position, length),
                start <= i <= end <= 64,
                pattern.cycle_fits(),
                self.pads@.len() == 64,
                forall|j: int|
                    0 <= j < 64 ==> #[trigger] self.pads@[j] == if start <= j < i {
                        Pad { on_color: pattern_color(pattern, j - start), ..old(self).pads@[j] }
                    } else {
                        old(self).pads@[j]
                    },
            decreases end - i,
        {
            let c = pattern.color_at_index(i - start);
            self.pads[i].on_color = c;
            i = i + 1;
        }
    }

    /// Sets the unlit colour of every pad among `length` from
    /// `starting_position` whose note has the given pitch class.
    pub fn highlight_tonics(
        &mut self,
        starting_position: usize,
        length: usize,
        tonic_color: (PitchClass, PadColor),
    )
        requires
            first_pad(starting_position) + length <= usize::MAX,
        ensures
            pads_changed(
                final(self).pads@,
                old(self).pads@,
                first_pad(starting_position),
                end_pad(starting_position, length),
                |i: int, p: Pad|
                    if class_of_midi(p.note as u8) == tonic_color.0 {
                        Pad { off_color: tonic_color.1, ..p }
                    } else {
                        p
                    },
            ),
    {
        let start: usize = if starting_position < TOTAL_PADS {
            starting_position
        } else {
            TOTAL_PADS
        };
        let end: usize = if start + length < TOTAL_PADS {
            start + length
        } else {
            TOTAL_PADS
        };
        let (tonic, color) = tonic_color;
        let mut i: usize = start;
        while i < end
            invariant
                start == first_pad(starting_position),
                end == end_pad(starting_position, length),
                start <= i <= end <= 64,
                tonic_color == (tonic, color),
                self.pads@.len() == 64,
                forall|j: int|
                    0 <= j < 64 ==> #[trigger] self.pads@[j] == if start <= j < i {
                        if class_of_midi(old(self).pads@[j].note as u8) == tonic {
                            Pad { off_color: color, ..old(self).pads@[j] }
                        } else {
                            old(self).pads@[j]
                        }
                    } else {
                        old(self).pads@[j]
                    },
            decreases end - i,
        {
            let pitch_class = PitchClass::from(self.pads[i].note);
            if pitch_class == tonic {
                self.pads[i].off_color = color;
            }
            i = i + 1;
        }
    }

    /// Reads the stored pads; fails with the first pad that cannot be read.
    pub fn from_raw(raw: RawPads) -> (res: Result<Self, PresetParseError>)
        ensures
            match res {
                Ok(repo) => pads_read(raw.0@, repo.pads@),
                Err(e) => pads_fail(raw.0@, e),
            },
    {
        let mut pad_repo = PadRepository::default();
        let mut i: usize = 0;
        while i < TOTAL_PADS
            invariant
                i <= 64,
                pad_repo.pads@.len() == 64,
                forall|j: int|
                    0 <= j < i ==> pad_decoded(j as usize, raw.0@[j]) == Ok::<Pad, crate::manufacturer::akai::mpd226::error::PadParseError>(
                        #[trigger] pad_repo.pads@[j],
                    ),
            decreases 64 - i,
        {
            match Pad::from_raw(i, raw.0[i]) {
                Ok(p) => {
                    pad_repo.pads[i] = p;
                },
                Err(source) => {
                    assert forall|j: int| 0 <= j < i implies (#[trigger] pad_decoded(j as usize, raw.0@[j])) is Ok by {
                        assert(pad_decoded(j as usize, raw.0@[j]) == Ok::<Pad, crate::manufacturer::akai::mpd226::error::PadParseError>(pad_repo.pads@[j]));
                    }
                    return Err(PresetParseError::Pad { index: i, source });
                },
            }
            i = i + 1;
        }
        Ok(pad_repo)
    }
}

/// The pads of a new preset: pad `i` has the settings of a new pad and note
/// 60 + `i`, the chromatic scale up from middle C.
pub open spec fn is_default_pads(pads: Seq<Pad>) -> bool {
    &&& pads.len() == 64
    &&& forall|i: int| 0 <= i < 64 ==> #[trigger] pads[i] == Pad { note: note_of((60 + i) as u8), ..fresh_pad(i as usize) }
}

/// The chromatic walk up from middle C reaches 60 + `i` after `i` steps.
proof fn lemma_chromatic_walk(i: nat)
    requires
        i <= 64,
    ensures
        byte_walk(60, partial_intervals(ScaleKind::Chromatic), SequenceDirection::Ascending, i) == 60 + i,
    decreases i,
{
    if i > 0 {
        lemma_chromatic_walk((i - 1) as nat);
        let steps = partial_intervals(ScaleKind::Chromatic);
        assert(steps[(i - 1) % (steps.len() as int)] == 1);
    }
}

impl Default for PadRepository {
    fn default() -> (res: Self)
        ensures
            is_default_pads(res.pads@),
    {
        let p0 = Pad::new(0);
        let mut pads = [p0; 64];
        let mut i: usize = 1;
        while i < TOTAL_PADS
            invariant
                1 <= i <= 64,
                pads@.len() == 64,
                forall|j: int| 0 <= j < i ==> #[trigger] pads@[j] == fresh_pad(j as usize),
            decreases 64 - i,
        {
            pads[i] = Pad::new(i);
            i = i + 1;
        }
        let mut repo = PadRepository { pads };
        let seq = ScaleSequence::default();
        let pattern = NotePattern::Scale(seq);
        repo.set_note_pattern(0, pattern);
        proof {
            assert forall|j: int| 0 <= j < 64 implies #[trigger] repo.pads@[j] == Pad {
                note: note_of((60 + j) as u8),
                ..fresh_pad(j as usize)
            } by {
                lemma_chromatic_walk(j as nat);
                assert(start_note(PitchClass::C, Octave::O4) == 60);
                assert(pattern_notes(pattern, j) == 60 + j);
            }
        }
        repo
    }
}

/// The conversion goes through [`PadRepository::from_raw`], whose contract
/// states the result.
impl vstd::std_specs::convert::TryFromSpecImpl<RawPads> for PadRepository {
    open spec fn obeys_try_from_spec() -> bool {
        false
    }

    closed spec fn try_from_spec(raw: RawPads) -> Result<Self, PresetParseError> {
        arbitrary()
    }
}

impl TryFrom<RawPads> for PadRepository {
    type Error = PresetParseError;

    fn try_from(raw: RawPads) -> (res: Result<Self, PresetParseError>)
        ensures
            match res {
                Ok(repo) => pads_read(raw.0@, repo.pads@),
                Err(e) => pads_fail(raw.0@, e),
            },
    {
        PadRepository::from_raw(raw)
    }
}

/// The 12 faders of a preset.
#[derive(Clone, Copy, Debug)]
pub struct FaderRepository(pub [Fader; 12]);

impl Default for FaderRepository {
    fn default() -> (res: Self)
        ensures
            forall|i: int| 0 <= i < 12 ==> #[trigger] res.0@[i] == fresh_fader(),
    {
        let f = Fader::default();
        let res = FaderRepository([f; 12]);
        res
    }
}

impl FaderRepository {
    /// New faders sending the given controllers.
    pub fn with_cc_values(values: [u8; 12]) -> (res: Self)
        ensures
            forall|i: int| 0 <= i < 12 ==> #[trigger] res.0@[i] == (Fader { midicc: values@[i], ..fresh_fader() }),
    {
        let mut repo = Self::default();
        let mut i: usize = 0;
        while i < 12
            invariant
                i <= 12,
                repo.0@.len() == 12,
                forall|j: int|
                    0 <= j < 12 ==> #[trigger] repo.0@[j] == if j < i {
                        Fader { midicc: values@[j], ..fresh_fader() }
                    } else {
                        fresh_fader()
                    },
            decreases 12 - i,
        {
            repo.0[i].midicc = values[i];
            i = i + 1;
        }
        repo
    }

    /// Reads the stored faders; fails with the first fader that cannot be
    /// read.
    pub fn from_raw(raw: RawFaders) -> (res: Result<Self, PresetParseError>)
        ensures
            match res {
                Ok(repo) => faders_read(raw.0@, repo.0@),
                Err(e) => faders_fail(raw.0@, e),
            },
    {
        let mut repo = Self::default();
        let mut i: usize = 0;
        while i < 12
            invariant
                i <= 12,
                repo.0@.len() == 12,
                forall|j: int|
                    0 <= j < i ==> fader_decoded(raw.0@[j]) == Ok::<Fader, crate::manufacturer::akai::mpd226::error::FaderParseError>(
                        #[trigger] repo.0@[j],
                    ),
            decreases 12 - i,
        {
            match Fader::from_raw(raw.0[i]) {
                Ok(f) => {
                    repo.0[i] = f;
                },
                Err(source) => {
                    assert forall|j: int| 0 <= j < i implies (#[trigger] fader_decoded(raw.0@[j])) is Ok by {
                        assert(fader_decoded(raw.0@[j]) == Ok::<Fader, crate::manufacturer::akai::mpd226::error::FaderParseError>(repo.0@[j]));
                    }
                    return Err(PresetParseError::Fader { index: i, source });
                },
            }
            i = i + 1;
        }
        Ok(repo)
    }
}

impl vstd::std_specs::convert::TryFromSpecImpl<RawFaders> for FaderRepository {
    open spec fn obeys_try_from_spec() -> bool {
        false
    }

    closed spec fn try_from_spec(raw: RawFaders) -> Result<Self, PresetParseError> {
        arbitrary()
    }
}

impl TryFrom<RawFaders> for FaderRepository {
    type Error = PresetParseError;

    fn try_from(raw: RawFaders) -> (res: Result<Self, PresetParseError>)
        ensures
            match res {
                Ok(repo) => faders_read(raw.0@, repo.0@),
                Err(e) => faders_fail(raw.0@, e),
            },
    {
        FaderRepository::from_raw(raw)
    }
}

/// The 12 switches of a preset.
#[derive(Clone, Copy, Debug)]
pub struct SwitchRepository(pub [Switch; 12]);

impl Default for SwitchRepository {
    fn default() -> (res: Self)
        ensures
            forall|i: int| 0 <= i < 12 ==> #[trigger] res.0@[i] == fresh_switch(),
    {
        let s = Switch::default();
        SwitchRepository([s; 12])
    }
}

impl SwitchRepository {
    /// New switches sending the given controllers.
    pub fn with_cc_values(values: [u8; 12]) -> (res: Self)
        ensures
            forall|i: int| 0 <= i < 12 ==> #[trigger] res.0@[i] == (Switch { midicc: values@[i], ..fresh_switch() }),
    {
        let mut repo = Self::default();
        let mut i: usize = 0;
        while i < 12
            invariant
                i <= 12,
                repo.0@.len() == 12,
                forall|j: int|
                    0 <= j < 12 ==> #[trigger] repo.0@[j] == if j < i {
                        Switch { midicc: values@[j], ..fresh_switch() }
                    } else {
                        fresh_switch()
                    },
            decreases 12 - i,
        {
            repo.0[i].midicc = values[i];
            i = i + 1;
        }
        repo
    }

    /// Reads the stored switches; fails with the first switch that cannot be
    /// read.
    pub fn from_raw(raw: RawSwitches) -> (res: Result<Self, PresetParseError>)
        ensures
            match res {
                Ok(repo) => switches_read(raw.0@, repo.0@),
                Err(e) => switches_fail(raw.0@, e),
            },
    {
        let mut repo = Self::default();
        let mut i: usize = 0;
        while i < 12
            invariant
                i <= 12,
                repo.0@.len() == 12,
                forall|j: int|
                    0 <= j < i ==> switch_decoded(raw.0@[j]) == Ok::<Switch, crate::manufacturer::akai::mpd226::error::SwitchParseError>(
                        #[trigger] repo.0@[j],
                    ),
            decreases 12 - i,
        {
            match Switch::from_raw(raw.0[i]) {
                Ok(s) => {
                    repo.0[i] = s;
                },
                Err(source) => {
                    assert forall|j: int| 0 <= j < i implies (#[trigger] switch_decoded(raw.0@[j])) is Ok by {
                        assert(switch_decoded(raw.0@[j]) == Ok::<Switch, crate::manufacturer::akai::mpd226::error::SwitchParseError>(repo.0@[j]));
                    }
                    return Err(PresetParseError::Switch { index: i, source });
                },
            }
            i = i + 1;
        }
        Ok(repo)
    }
}

impl vstd::std_specs::convert::TryFromSpecImpl<RawSwitches> for SwitchRepository {
    open spec fn obeys_try_from_spec() -> bool {
        false
    }

    closed spec fn try_from_spec(raw: RawSwitches) -> Result<Self, PresetParseError> {
        arbitrary()
    }
}

impl TryFrom<RawSwitches> for SwitchRepository {
    type Error = PresetParseError;

    fn try_from(raw: RawSwitches) -> (res: Result<Self, PresetParseError>)
        ensures
            match res {
                Ok(repo) => switches_read(raw.0@, repo.0@),
                Err(e) => switches_fail(raw.0@, e),
            },
    {
        SwitchRepository::from_raw(raw)
    }
}

/// The 12 dials of a preset.
#[derive(Clone, Copy, Debug)]
pub struct DialRepository(pub [Dial; 12]);

impl Default for DialRepository {
    fn default() -> (res: Self)
        ensures
            forall|i: int| 0 <= i < 12 ==> #[trigger] res.0@[i] == fresh_dial(),
    {
        let d = Dial::default();
        DialRepository([d; 12])
    }
}

impl DialRepository {
    /// New dials sending the given controllers.
    pub fn with_cc_values(values: [u8; 12]) -> (res: Self)
        ensures
            forall|i: int| 0 <= i < 12 ==> #[trigger] res.0@[i] == (Dial { midicc: values@[i], ..fresh_dial() }),
    {
        let mut repo = Self::default();
        let mut i: usize = 0;
        while i < 12
            invariant
                i <= 12,
                repo.0@.len() == 12,
                forall|j: int|
                    0 <= j < 12 ==> #[trigger] repo.0@[j] == if j < i {
                        Dial { midicc: values@[j], ..fresh_dial() }
                    } else {
                        fresh_dial()
                    },
            decreases 12 - i,
        {
            repo.0[i].midicc = values[i];
            i = i + 1;
        }
        repo
    }

    /// Reads the stored dials; fails with the first dial that cannot be read.
    pub fn from_raw(raw: RawDials) -> (res: Result<Self, PresetParseError>)
        ensures
            match res {
                Ok(repo) => dials_read(raw.0@, repo.0@),
                Err(e) => dials_fail(raw.0@, e),
            },
    {
        let mut repo = Self::default();
        let mut i: usize = 0;
        while i < 12
            invariant
                i <= 12,
                repo.0@.len() == 12,
                forall|j: int|
                    0 <= j < i ==> dial_decoded(raw.0@[j]) == Ok::<Dial, crate::manufacturer::akai::mpd226::error::DialParseError>(
                        #[trigger] repo.0@[j],
                    ),
            decreases 12 - i,
        {
            match Dial::from_raw(raw.0[i]) {
                Ok(d) => {
                    repo.0[i] = d;
                },
                Err(source) => {
                    assert forall|j: int| 0 <= j < i implies (#[trigger] dial_decoded(raw.0@[j])) is Ok by {
                        assert(dial_decoded(raw.0@[j]) == Ok::<Dial, crate::manufacturer::akai::mpd226::error::DialParseError>(repo.0@[j]));
                    }
                    return Err(PresetParseError::Dial { index: i, source });
                },
            }
            i = i + 1;
        }
        Ok(repo)
    }
}

impl vstd::std_specs::convert::TryFromSpecImpl<RawDials> for DialRepository {
    open spec fn obeys_try_from_spec() -> bool {
        false
    }

    closed spec fn try_from_spec(raw: RawDials) -> Result<Self, PresetParseError> {
        arbitrary()
    }
}

impl TryFrom<RawDials> for DialRepository {
    type Error = PresetParseError;

    fn try_from(raw: RawDials) -> (res: Result<Self, PresetParseError>)
        ensures
            match res {
                Ok(repo) => dials_read(raw.0@, repo.0@),
                Err(e) => dials_fail(raw.0@, e),
            },
    {
        DialRepository::from_raw(raw)
    }
}

} // verus!
