//! A full memory dump of an Impact LX+: the stored values of its five
//! presets, four pad maps, global settings and global controls, the
//! messages that write them in dump order, and reading them back from the
//! messages a device sends.
//!
//! A dump names its presets, preset controls, pad maps, pads and global
//! controls by id bytes; [`DumpIds`] holds them, in dump order.

use vstd::prelude::*;

use crate::manufacturer::nektar::impact_lx_plus::DeviceStatus;
use crate::manufacturer::nektar::impact_lx_plus::DumpAssembler;
use crate::manufacturer::nektar::impact_lx_plus::DumpContents;
use crate::manufacturer::nektar::impact_lx_plus::GlobalSettingId;
use crate::manufacturer::nektar::impact_lx_plus::bytes_status;
use crate::manufacturer::nektar::impact_lx_plus::dump_applied;
use crate::manufacturer::nektar::impact_lx_plus::dump_complete;
use crate::manufacturer::nektar::impact_lx_plus::lemma_status_message_reads_back;
use crate::manufacturer::nektar::impact_lx_plus::object_key;
use crate::manufacturer::nektar::impact_lx_plus::status_payload;
use crate::manufacturer::nektar::impact_lx_plus::written_object;
use crate::manufacturer::nektar::impact_lx_plus::error::DumpParseError;
use crate::manufacturer::nektar::impact_lx_plus::raw::RawControl;
use crate::manufacturer::nektar::impact_lx_plus::raw::RawPad;
use crate::sysex::framed;
use vstd::relations::injective_on;
use vstd::set_lib::lemma_int_range;
use vstd::set_lib::lemma_len_subset;
use vstd::set_lib::lemma_map_size;
use vstd::set_lib::lemma_subset_equality;
use vstd::set_lib::set_int_range;

verus! {

/// The id bytes a dump names its objects by, each list in dump order: the
/// section byte of each preset, the id of each of the 26 controls of a
/// preset (nine faders, eight pots, nine fader buttons), the section byte of
/// each pad map, the id of each of its eight pads, and the id of each global
/// control (six transport buttons, then the pitch wheel, the mod wheel and
/// the foot switch).
#[derive(Clone, Copy, Debug, PartialEq, Eq)]
pub struct DumpIds {
    pub presets: [u8; 5],
    pub preset_controls: [u8; 26],
    pub pad_maps: [u8; 4],
    pub pads: [u8; 8],
    pub global_controls: [u8; 9],
}

/// Whether no byte occurs twice in `s`.
pub open spec fn distinct_bytes(s: Seq<u8>) -> bool {
    forall|i: int, j: int| 0 <= i < j < s.len() ==> s[i] != s[j]
}

/// Whether the ids name every object of a dump apart from every other: no
/// list repeats an id, and no global control has the id `0x01` of the
/// global setting messages.
pub open spec fn ids_valid(ids: DumpIds) -> bool {
    &&& distinct_bytes(ids.presets@)
    &&& distinct_bytes(ids.preset_controls@)
    &&& distinct_bytes(ids.pad_maps@)
    &&& distinct_bytes(ids.pads@)
    &&& distinct_bytes(ids.global_controls@)
    &&& forall|i: int| 0 <= i < 9 ==> ids.global_controls[i] != 0x01
}

/// The stored values of a whole device, each list in dump order: the 26
/// controls of each preset in turn, the eight pads of each pad map in turn,
/// the eleven global settings in the order of [`GlobalSettingId`], and the
/// nine global controls.
#[derive(Clone, Copy, Debug, PartialEq, Eq)]
pub struct RawDump {
    pub preset_controls: [RawControl; 130],
    pub pads: [RawPad; 32],
    pub settings: [u8; 11],
    pub global_controls: [RawControl; 9],
}

/// The global settings in dump order.
pub open spec fn setting_order() -> Seq<GlobalSettingId> {
    seq![
        GlobalSettingId::MidiChannel,
        GlobalSettingId::Unknown04,
        GlobalSettingId::Unknown05,
        GlobalSettingId::Unknown06,
        GlobalSettingId::Unknown07,
        GlobalSettingId::Unknown08,
        GlobalSettingId::Unknown09,
        GlobalSettingId::Unknown10,
        GlobalSettingId::Unknown11,
        GlobalSettingId::Unknown12,
        GlobalSettingId::Unknown0F,
    ]
}

/// The key of preset control `j` of a dump (control `j % 26` of preset
/// `j / 26`).
pub open spec fn preset_control_key(ids: DumpIds, j: int) -> u16 {
    object_key(ids.presets[j / 26], ids.preset_controls[j % 26])
}

/// The key of pad `j` of a dump (pad `j % 8` of pad map `j / 8`).
pub open spec fn pad_key(ids: DumpIds, j: int) -> u16 {
    object_key(ids.pad_maps[j / 8], ids.pads[j % 8])
}

/// The status that writes object `k` of the dump, objects counted in dump
/// order: 130 preset controls, 32 pads, 11 global settings, 9 global
/// controls.
pub open spec fn dump_status(d: RawDump, ids: DumpIds, k: int) -> DeviceStatus {
    if k < 130 {
        DeviceStatus::PresetControl {
            preset: ids.presets[k / 26],
            control: ids.preset_controls[k % 26],
            value: d.preset_controls[k],
        }
    } else if k < 162 {
        DeviceStatus::Pad {
            map: ids.pad_maps[(k - 130) / 8],
            pad: ids.pads[(k - 130) % 8],
            value: d.pads[k - 130],
        }
    } else if k < 173 {
        DeviceStatus::GlobalSetting { setting: setting_order()[k - 162], value: d.settings[k - 162] }
    } else {
        DeviceStatus::GlobalControl { control: ids.global_controls[k - 173], value: d.global_controls[k - 173] }
    }
}

/// Whether an assembler holds the value that `s` reports, for the object
/// that `s` writes.
pub open spec fn holds_status(c: DumpContents, s: DeviceStatus) -> bool {
    match s {
        DeviceStatus::PresetControl { preset, control, value } => {
            &&& c.preset_controls.contains_key(object_key(preset, control))
            &&& c.preset_controls[object_key(preset, control)] == value
        },
        DeviceStatus::Pad { map, pad, value } => {
            &&& c.pads.contains_key(object_key(map, pad))
            &&& c.pads[object_key(map, pad)] == value
        },
        DeviceStatus::GlobalSetting { setting, value } => {
            &&& c.settings.contains_key(setting.code())
            &&& c.settings[setting.code()] == value
        },
        DeviceStatus::GlobalControl { control, value } => {
            &&& c.global_controls.contains_key(control)
            &&& c.global_controls[control] == value
        },
    }
}

/// Whether an assembler holds a value for object `k` of the dump.
pub open spec fn object_held(c: DumpContents, ids: DumpIds, k: int) -> bool {
    if k < 130 {
        c.preset_controls.contains_key(preset_control_key(ids, k))
    } else if k < 162 {
        c.pads.contains_key(pad_key(ids, k - 130))
    } else if k < 173 {
        c.settings.contains_key(setting_order()[k - 162].code())
    } else {
        c.global_controls.contains_key(ids.global_controls[k - 173])
    }
}

/// The error that names object `k` of the dump as missing.
pub open spec fn missing_error(ids: DumpIds, k: int) -> DumpParseError {
    if k < 130 {
        DumpParseError::MissingPresetControl { preset: ids.presets[k / 26], control: ids.preset_controls[k % 26] }
    } else if k < 162 {
        DumpParseError::MissingPad { map: ids.pad_maps[(k - 130) / 8], pad: ids.pads[(k - 130) % 8] }
    } else if k < 173 {
        DumpParseError::MissingSetting { setting: setting_order()[k - 162].code() }
    } else {
        DumpParseError::MissingGlobalControl { control: ids.global_controls[k - 173] }
    }
}

/// Whether object `k` is the first object of the dump, in dump order, that
/// an assembler holds no value for.
pub open spec fn dump_gap(c: DumpContents, ids: DumpIds, k: int) -> bool {
    &&& 0 <= k < 182
    &&& !object_held(c, ids, k)
    &&& forall|j: int| 0 <= j < k ==> object_held(c, ids, j)
}

/// What reading a dump from an assembler gives: the dump whose every object
/// has the value held for it, when a value is held for every object; else
/// the error that names the first object without one.
pub open spec fn dump_read_outcome(c: DumpContents, ids: DumpIds, r: Result<RawDump, DumpParseError>) -> bool {
    match r {
        Ok(d) => forall|k: int| 0 <= k < 182 ==> holds_status(c, #[trigger] dump_status(d, ids, k)),
        Err(e) => exists|k: int| dump_gap(c, ids, k) && e == missing_error(ids, k),
    }
}

/// What an assembler holds after taking in the first `n` statuses of dump
/// `d`, in dump order, starting from `c`.
pub open spec fn replayed(c: DumpContents, d: RawDump, ids: DumpIds, n: nat) -> DumpContents
    decreases n,
{
    if n == 0 {
        c
    } else {
        dump_applied(replayed(c, d, ids, (n - 1) as nat), dump_status(d, ids, n - 1))
    }
}

fn blank_control() -> (res: RawControl)
    ensures
        res == (RawControl { channel: 0, kind: 0, data1: 0, min: 0, max: 0 }),
{
    RawControl { channel: 0, kind: 0, data1: 0, min: 0, max: 0 }
}

fn blank_pad() -> (res: RawPad)
    ensures
        res == (RawPad { channel: 0, kind: 0, data1: 0, min: 0, max: 0, note: 0 }),
{
    RawPad { channel: 0, kind: 0, data1: 0, min: 0, max: 0, note: 0 }
}

/// The notes of the 32 pads of the four factory pad maps, in dump order:
/// map 1 plays notes 36 to 43, map 2 notes 44 to 51, map 3 the white keys
/// from 60 to 72, map 4 a GM drum layout.
pub open spec fn factory_pad_notes() -> Seq<u8> {
    seq![
        36u8, 37, 38, 39, 40, 41, 42, 43,
        44, 45, 46, 47, 48, 49, 50, 51,
        60, 62, 64, 65, 67, 69, 71, 72,
        36, 38, 42, 46, 43, 45, 37, 49,
    ]
}

/// The stored values of a factory pad: a note pad on the global channel
/// over the full velocity range, playing `note`.
pub open spec fn factory_pad(note: u8) -> RawPad {
    RawPad { channel: 0, kind: 2, data1: 0, min: 0, max: 127, note }
}

/// The stored pads of the four factory pad maps, in dump order.
pub fn factory_pads() -> (res: [RawPad; 32])
    ensures
        forall|j: int| 0 <= j < 32 ==> #[trigger] res[j] == factory_pad(factory_pad_notes()[j]),
{
    let notes: [u8; 32] = [
        36, 37, 38, 39, 40, 41, 42, 43,
        44, 45, 46, 47, 48, 49, 50, 51,
        60, 62, 64, 65, 67, 69, 71, 72,
        36, 38, 42, 46, 43, 45, 37, 49,
    ];
    assert(notes@ =~= factory_pad_notes());
    let mut res = [blank_pad(); 32];
    let mut j: usize = 0;
    while j < 32
        invariant
            j <= 32,
            notes@ == factory_pad_notes(),
            forall|i: int| 0 <= i < j ==> #[trigger] res[i] == factory_pad(factory_pad_notes()[i]),
        decreases 32 - j,
    {
        res[j] = RawPad { channel: 0, kind: 2, data1: 0, min: 0, max: 127, note: notes[j] };
        j = j + 1;
    }
    res
}

/// The stored global settings of the factory state, in the order of
/// [`GlobalSettingId`]: global MIDI channel 1, then the ten settings whose
/// meaning is not known, as the factory stores them.
pub fn factory_settings() -> (res: [u8; 11])
    ensures
        res@ == seq![1u8, 0, 0, 0, 1, 1, 0, 1, 0, 0, 0],
{
    let res: [u8; 11] = [1, 0, 0, 0, 1, 1, 0, 1, 0, 0, 0];
    assert(res@ =~= seq![1u8, 0, 0, 0, 1, 1, 0, 1, 0, 0, 0]);
    res
}

impl RawDump {
    /// The status that writes object `k` of the dump.
    pub fn status_at(&self, ids: &DumpIds, k: usize) -> (res: DeviceStatus)
        requires
            k < 182,
        ensures
            res == dump_status(*self, *ids, k as int),
    {
        if k < 130 {
            DeviceStatus::PresetControl {
                preset: ids.presets[k / 26],
                control: ids.preset_controls[k % 26],
                value: self.preset_controls[k],
            }
        } else if k < 162 {
            DeviceStatus::Pad {
                map: ids.pad_maps[(k - 130) / 8],
                pad: ids.pads[(k - 130) % 8],
                value: self.pads[k - 130],
            }
        } else if k < 173 {
            let order = GlobalSettingId::all();
            assert(order@ =~= setting_order());
            DeviceStatus::GlobalSetting { setting: order[k - 162], value: self.settings[k - 162] }
        } else {
            DeviceStatus::GlobalControl { control: ids.global_controls[k - 173], value: self.global_controls[k - 173] }
        }
    }

    /// All 182 write messages of the dump in dump order: the controls of
    /// each preset, the pads of each pad map, the global settings, then the
    /// global controls.
    pub fn to_messages(&self, ids: &DumpIds) -> (res: Vec<Vec<u8>>)
        ensures
            res@.len() == 182,
            forall|k: int| 0 <= k < 182 ==> (#[trigger] res@[k])@ == framed(status_payload(dump_status(*self, *ids, k))),
    {
        let mut res: Vec<Vec<u8>> = Vec::new();
        let mut k: usize = 0;
        while k < 182
            invariant
                k <= 182,
                res@.len() == k,
                forall|j: int| 0 <= j < k ==> (#[trigger] res@[j])@ == framed(status_payload(dump_status(*self, *ids, j))),
            decreases 182 - k,
        {
            let status = self.status_at(ids, k);
            res.push(status.message());
            k = k + 1;
        }
        res
    }
}

impl DumpAssembler {
    /// The dump that the messages taken in make up, or the error that names
    /// the first object, in dump order, that no message wrote.
    pub fn try_into_raw_dump(&self, ids: &DumpIds) -> (res: Result<RawDump, DumpParseError>)
        ensures
            dump_read_outcome(self@, *ids, res),
    {
        let mut preset_controls = [blank_control(); 130];
        let mut i: usize = 0;
        while i < 130
            invariant
                i <= 130,
                forall|j: int|
                    0 <= j < i ==> self@.preset_controls.contains_key(#[trigger] preset_control_key(*ids, j))
                        && self@.preset_controls[preset_control_key(*ids, j)] == preset_controls[j],
            decreases 130 - i,
        {
            match self.preset_control(ids.presets[i / 26], ids.preset_controls[i % 26]) {
                Some(v) => {
                    preset_controls[i] = v;
                },
                None => {
                    proof {
                        assert(dump_gap(self@, *ids, i as int)) by {
                            assert forall|j: int| 0 <= j < i implies object_held(self@, *ids, j) by {
                                assert(self@.preset_controls.contains_key(preset_control_key(*ids, j)));
                            }
                        }
                    }
                    let e = DumpParseError::MissingPresetControl {
                        preset: ids.presets[i / 26],
                        control: ids.preset_controls[i % 26],
                    };
                    assert(e == missing_error(*ids, i as int));
                    return Err(e);
                },
            }
            i = i + 1;
        }
        let mut pads = [blank_pad(); 32];
        let mut i: usize = 0;
        while i < 32
            invariant
                i <= 32,
                forall|j: int|
                    0 <= j < 130 ==> self@.preset_controls.contains_key(#[trigger] preset_control_key(*ids, j))
                        && self@.preset_controls[preset_control_key(*ids, j)] == preset_controls[j],
                forall|j: int|
                    0 <= j < i ==> self@.pads.contains_key(#[trigger] pad_key(*ids, j)) && self@.pads[pad_key(*ids, j)]
                        == pads[j],
            decreases 32 - i,
        {
            match self.pad(ids.pad_maps[i / 8], ids.pads[i % 8]) {
                Some(v) => {
                    pads[i] = v;
                },
                None => {
                    proof {
                        assert(dump_gap(self@, *ids, 130 + i)) by {
                            assert forall|j: int| 0 <= j < 130 + i implies object_held(self@, *ids, j) by {
                                if j < 130 {
                                    assert(self@.preset_controls.contains_key(preset_control_key(*ids, j)));
                                } else {
                                    assert(self@.pads.contains_key(pad_key(*ids, j - 130)));
                                }
                            }
                            assert((130 + i - 130) as int == i as int);
                        }
                    }
                    let e = DumpParseError::MissingPad { map: ids.pad_maps[i / 8], pad: ids.pads[i % 8] };
                    assert(e == missing_error(*ids, 130 + i));
                    return Err(e);
                },
            }
            i = i + 1;
        }
        let order = GlobalSettingId::all();
        assert(order@ =~= setting_order());
        let mut settings = [0u8; 11];
        let mut i: usize = 0;
        while i < 11
            invariant
                i <= 11,
                order@ == setting_order(),
                forall|j: int|
                    0 <= j < 130 ==> self@.preset_controls.contains_key(#[trigger] preset_control_key(*ids, j))
                        && self@.preset_controls[preset_control_key(*ids, j)] == preset_controls[j],
                forall|j: int|
                    0 <= j < 32 ==> self@.pads.contains_key(#[trigger] pad_key(*ids, j)) && self@.pads[pad_key(*ids, j)]
                        == pads[j],
                forall|j: int|
                    0 <= j < i ==> self@.settings.contains_key((#[trigger] setting_order()[j]).code())
                        && self@.settings[setting_order()[j].code()] == settings[j],
            decreases 11 - i,
        {
            let code = order[i].as_u8();
            match self.setting(code) {
                Some(v) => {
                    settings[i] = v;
                },
                None => {
                    proof {
                        assert(dump_gap(self@, *ids, 162 + i)) by {
                            assert forall|j: int| 0 <= j < 162 + i implies object_held(self@, *ids, j) by {
                                if j < 130 {
                                    assert(self@.preset_controls.contains_key(preset_control_key(*ids, j)));
                                } else if j < 162 {
                                    assert(self@.pads.contains_key(pad_key(*ids, j - 130)));
                                } else {
                                    assert(self@.settings.contains_key(setting_order()[j - 162].code()));
                                }
                            }
                        }
                    }
                    let e = DumpParseError::MissingSetting { setting: code };
                    assert(e == missing_error(*ids, 162 + i));
                    return Err(e);
                },
            }
            i = i + 1;
        }
        let mut global_controls = [blank_control(); 9];
        let mut i: usize = 0;
        while i < 9
            invariant
                i <= 9,
                forall|j: int|
                    0 <= j < 130 ==> self@.preset_controls.contains_key(#[trigger] preset_control_key(*ids, j))
                        && self@.preset_controls[preset_control_key(*ids, j)] == preset_controls[j],
                forall|j: int|
                    0 <= j < 32 ==> self@.pads.contains_key(#[trigger] pad_key(*ids, j)) && self@.pads[pad_key(*ids, j)]
                        == pads[j],
                forall|j: int|
                    0 <= j < 11 ==> self@.settings.contains_key((#[trigger] setting_order()[j]).code())
                        && self@.settings[setting_order()[j].code()] == settings[j],
                forall|j: int|
                    0 <= j < i ==> self@.global_controls.contains_key(#[trigger] ids.global_controls[j])
                        && self@.global_controls[ids.global_controls[j]] == global_controls[j],
            decreases 9 - i,
        {
            match self.global_control(ids.global_controls[i]) {
                Some(v) => {
                    global_controls[i] = v;
                },
                None => {
                    proof {
                        assert(dump_gap(self@, *ids, 173 + i)) by {
                            assert forall|j: int| 0 <= j < 173 + i implies object_held(self@, *ids, j) by {
                                if j < 130 {
                                    assert(self@.preset_controls.contains_key(preset_control_key(*ids, j)));
                                } else if j < 162 {
                                    assert(self@.pads.contains_key(pad_key(*ids, j - 130)));
                                } else if j < 173 {
                                    assert(self@.settings.contains_key(setting_order()[j - 162].code()));
                                } else {
                                    assert(self@.global_controls.contains_key(ids.global_controls[j - 173]));
                                }
                            }
                        }
                    }
                    let e = DumpParseError::MissingGlobalControl { control: ids.global_controls[i] };
                    assert(e == missing_error(*ids, 173 + i));
                    return Err(e);
                },
            }
            i = i + 1;
        }
        let d = RawDump { preset_controls, pads, settings, global_controls };
        proof {
            assert forall|k: int| 0 <= k < 182 implies holds_status(self@, #[trigger] dump_status(d, *ids, k)) by {
                if k < 130 {
                    assert(self@.preset_controls.contains_key(preset_control_key(*ids, k)));
                } else if k < 162 {
                    assert(self@.pads.contains_key(pad_key(*ids, k - 130)));
                } else if k < 173 {
                    assert(self@.settings.contains_key(setting_order()[k - 162].code()));
                } else {
                    assert(self@.global_controls.contains_key(ids.global_controls[k - 173]));
                }
            }
        }
        Ok(d)
    }
}


/// Different section and id bytes make different keys.
proof fn lemma_object_key_injective(s1: u8, i1: u8, s2: u8, i2: u8)
    requires
        object_key(s1, i1) == object_key(s2, i2),
    ensures
        s1 == s2,
        i1 == i2,
{
    assert(s1 * 256 + i1 <= 65535) by (nonlinear_arith)
        requires
            s1 <= 255,
            i1 <= 255,
    ;
    assert(s2 * 256 + i2 <= 65535) by (nonlinear_arith)
        requires
            s2 <= 255,
            i2 <= 255,
    ;
    assert(s1 * 256 + i1 == s2 * 256 + i2);
    assert(s1 == s2) by (nonlinear_arith)
        requires
            s1 * 256 + i1 == s2 * 256 + i2,
            0 <= i1 <= 255,
            0 <= i2 <= 255,
    ;
}

/// The eleven global settings have eleven different id bytes.
proof fn lemma_setting_codes_distinct(i: int, j: int)
    requires
        0 <= i < j < 11,
    ensures
        setting_order()[i].code() != setting_order()[j].code(),
{
    assert(setting_order()[0].code() == 1 && setting_order()[1].code() == 4 && setting_order()[2].code() == 5
        && setting_order()[3].code() == 6 && setting_order()[4].code() == 7 && setting_order()[5].code() == 8
        && setting_order()[6].code() == 9 && setting_order()[7].code() == 16 && setting_order()[8].code() == 17
        && setting_order()[9].code() == 18 && setting_order()[10].code() == 15);
}

/// Two different indices below `n * m` have different (quotient,
/// remainder) pairs by `m`.
proof fn lemma_div_mod_apart(a: int, b: int, m: int)
    requires
        0 <= a,
        0 <= b,
        a != b,
        m > 0,
    ensures
        a / m != b / m || a % m != b % m,
{
    vstd::arithmetic::div_mod::lemma_fundamental_div_mod(a, m);
    vstd::arithmetic::div_mod::lemma_fundamental_div_mod(b, m);
}

/// Under valid ids, the objects of a dump are all different: no two
/// statuses of a dump write the same object.
proof fn lemma_dump_objects_distinct(d: RawDump, ids: DumpIds, k1: int, k2: int)
    requires
        ids_valid(ids),
        0 <= k1 < k2 < 182,
    ensures
        written_object(dump_status(d, ids, k1)) != written_object(dump_status(d, ids, k2)),
{
    if k2 < 130 {
        lemma_div_mod_apart(k1, k2, 26);
        vstd::arithmetic::div_mod::lemma_div_pos_is_pos(k1, 26);
        vstd::arithmetic::div_mod::lemma_div_pos_is_pos(k2, 26);
        vstd::arithmetic::div_mod::lemma_div_is_ordered(k2, 129, 26);
        vstd::arithmetic::div_mod::lemma_div_is_ordered(k1, 129, 26);
        vstd::arithmetic::div_mod::lemma_mod_pos_bound(k1, 26);
        vstd::arithmetic::div_mod::lemma_mod_pos_bound(k2, 26);
        let (p1, c1) = (ids.presets[k1 / 26], ids.preset_controls[k1 % 26]);
        let (p2, c2) = (ids.presets[k2 / 26], ids.preset_controls[k2 % 26]);
        assert(p1 != p2 || c1 != c2) by {
            if k1 / 26 != k2 / 26 {
                if k1 / 26 < k2 / 26 {
                    assert(ids.presets@[k1 / 26] != ids.presets@[k2 / 26]);
                } else {
                    assert(ids.presets@[k2 / 26] != ids.presets@[k1 / 26]);
                }
            } else {
                if k1 % 26 < k2 % 26 {
                    assert(ids.preset_controls@[k1 % 26] != ids.preset_controls@[k2 % 26]);
                } else {
                    assert(ids.preset_controls@[k2 % 26] != ids.preset_controls@[k1 % 26]);
                }
            }
        }
        if object_key(p1, c1) == object_key(p2, c2) {
            lemma_object_key_injective(p1, c1, p2, c2);
        }
    } else if k1 >= 130 && k2 < 162 {
        let (a, b) = (k1 - 130, k2 - 130);
        lemma_div_mod_apart(a, b, 8);
        vstd::arithmetic::div_mod::lemma_div_pos_is_pos(a, 8);
        vstd::arithmetic::div_mod::lemma_div_pos_is_pos(b, 8);
        vstd::arithmetic::div_mod::lemma_div_is_ordered(a, 31, 8);
        vstd::arithmetic::div_mod::lemma_div_is_ordered(b, 31, 8);
        vstd::arithmetic::div_mod::lemma_mod_pos_bound(a, 8);
        vstd::arithmetic::div_mod::lemma_mod_pos_bound(b, 8);
        let (p1, c1) = (ids.pad_maps[a / 8], ids.pads[a % 8]);
        let (p2, c2) = (ids.pad_maps[b / 8], ids.pads[b % 8]);
        assert(p1 != p2 || c1 != c2) by {
            if a / 8 != b / 8 {
                if a / 8 < b / 8 {
                    assert(ids.pad_maps@[a / 8] != ids.pad_maps@[b / 8]);
                } else {
                    assert(ids.pad_maps@[b / 8] != ids.pad_maps@[a / 8]);
                }
            } else {
                if a % 8 < b % 8 {
                    assert(ids.pads@[a % 8] != ids.pads@[b % 8]);
                } else {
                    assert(ids.pads@[b % 8] != ids.pads@[a % 8]);
                }
            }
        }
        if object_key(p1, c1) == object_key(p2, c2) {
            lemma_object_key_injective(p1, c1, p2, c2);
        }
    } else if k1 >= 162 && k2 < 173 {
        lemma_setting_codes_distinct(k1 - 162, k2 - 162);
    } else if k1 >= 173 {
        assert(ids.global_controls@[k1 - 173] != ids.global_controls@[k2 - 173]);
    }
}

/// Taking in a status leaves the assembler holding its value, and keeps
/// every value held for another object.
proof fn lemma_applied_holds(c: DumpContents, s: DeviceStatus, t: DeviceStatus)
    ensures
        holds_status(dump_applied(c, s), s),
        written_object(s) != written_object(t) && holds_status(c, t) ==> holds_status(dump_applied(c, s), t),
{
}

/// After the first `n` statuses of a dump, an assembler holds the value of
/// each of them.
proof fn lemma_replayed_holds(c: DumpContents, d: RawDump, ids: DumpIds, n: nat)
    requires
        ids_valid(ids),
        n <= 182,
    ensures
        forall|k: int| 0 <= k < n ==> holds_status(replayed(c, d, ids, n), #[trigger] dump_status(d, ids, k)),
    decreases n,
{
    if n > 0 {
        lemma_replayed_holds(c, d, ids, (n - 1) as nat);
        let prev = replayed(c, d, ids, (n - 1) as nat);
        let s = dump_status(d, ids, n - 1);
        lemma_applied_holds(prev, s, s);
        assert forall|k: int| 0 <= k < n implies holds_status(replayed(c, d, ids, n), #[trigger] dump_status(d, ids, k)) by {
            if k < n - 1 {
                lemma_dump_objects_distinct(d, ids, k, n - 1);
                lemma_applied_holds(prev, s, dump_status(d, ids, k));
            }
        }
    }
}

/// An assembler that holds the values of two dumps for every object holds
/// the same dump twice.
proof fn lemma_dump_determined(c: DumpContents, ids: DumpIds, d1: RawDump, d2: RawDump)
    requires
        forall|k: int| 0 <= k < 182 ==> holds_status(c, #[trigger] dump_status(d1, ids, k)),
        forall|k: int| 0 <= k < 182 ==> holds_status(c, #[trigger] dump_status(d2, ids, k)),
    ensures
        d1 == d2,
{
    assert forall|j: int| 0 <= j < 130 implies d1.preset_controls[j] == d2.preset_controls[j] by {
        assert(holds_status(c, dump_status(d1, ids, j)));
        assert(holds_status(c, dump_status(d2, ids, j)));
    }
    assert forall|j: int| 0 <= j < 32 implies d1.pads[j] == d2.pads[j] by {
        assert(holds_status(c, dump_status(d1, ids, j + 130)));
        assert(holds_status(c, dump_status(d2, ids, j + 130)));
    }
    assert forall|j: int| 0 <= j < 11 implies d1.settings[j] == d2.settings[j] by {
        assert(holds_status(c, dump_status(d1, ids, j + 162)));
        assert(holds_status(c, dump_status(d2, ids, j + 162)));
    }
    assert forall|j: int| 0 <= j < 9 implies d1.global_controls[j] == d2.global_controls[j] by {
        assert(holds_status(c, dump_status(d1, ids, j + 173)));
        assert(holds_status(c, dump_status(d2, ids, j + 173)));
    }
    assert(d1.preset_controls =~= d2.preset_controls);
    assert(d1.pads =~= d2.pads);
    assert(d1.settings =~= d2.settings);
    assert(d1.global_controls =~= d2.global_controls);
}

/// Replaying the 182 statuses of a dump, in dump order, into an assembler
/// that holds anything, and reading the dump back, gives that very dump:
/// taking in the messages of a dump restores it.
pub proof fn lemma_replay_reads_back(c: DumpContents, d: RawDump, ids: DumpIds, r: Result<RawDump, DumpParseError>)
    requires
        ids_valid(ids),
        dump_read_outcome(replayed(c, d, ids, 182), ids, r),
    ensures
        r == Ok::<RawDump, DumpParseError>(d),
{
    let full = replayed(c, d, ids, 182);
    lemma_replayed_holds(c, d, ids, 182);
    match r {
        Ok(d2) => {
            lemma_dump_determined(full, ids, d, d2);
        },
        Err(e) => {
            let k = choose|k: int| dump_gap(full, ids, k) && e == missing_error(ids, k);
            assert(holds_status(full, dump_status(d, ids, k)));
        },
    }
}

/// Each message of a dump reads back as the status that wrote it, so an
/// assembler that takes in the messages read back takes in the dump's
/// statuses.
pub proof fn lemma_dump_message_reads_back(d: RawDump, ids: DumpIds, k: int)
    requires
        ids_valid(ids),
        0 <= k < 182,
    ensures
        bytes_status(framed(status_payload(dump_status(d, ids, k)))) == Ok::<DeviceStatus, crate::manufacturer::nektar::impact_lx_plus::error::DeviceStatusParseError>(
            dump_status(d, ids, k),
        ),
{
    lemma_status_message_reads_back(dump_status(d, ids, k));
}

/// At most one object is the first gap of an assembler, so the error of an
/// incomplete dump names exactly one object.
pub proof fn lemma_dump_gap_unique(c: DumpContents, ids: DumpIds, k1: int, k2: int)
    requires
        dump_gap(c, ids, k1),
        dump_gap(c, ids, k2),
    ensures
        k1 == k2,
{
    if k1 < k2 {
        assert(object_held(c, ids, k1));
    } else if k2 < k1 {
        assert(object_held(c, ids, k2));
    }
}

/// Whether every value an assembler holds is for an object of the dump that
/// `ids` name.
pub open spec fn holds_only_dump_objects(c: DumpContents, ids: DumpIds) -> bool {
    &&& forall|key: u16|
        #[trigger] c.preset_controls.contains_key(key) ==> exists|j: int| 0 <= j < 130 && key == preset_control_key(ids, j)
    &&& forall|key: u16| #[trigger] c.pads.contains_key(key) ==> exists|j: int| 0 <= j < 32 && key == pad_key(ids, j)
    &&& forall|key: u8|
        #[trigger] c.settings.contains_key(key) ==> exists|j: int| 0 <= j < 11 && key == setting_order()[j].code()
    &&& forall|key: u8|
        #[trigger] c.global_controls.contains_key(key) ==> exists|j: int| 0 <= j < 9 && key == ids.global_controls[j]
}

/// A map whose keys all lie among `n` different keys and that holds `n`
/// of them holds every one of them.
proof fn lemma_full_domain<K, V>(m: Map<K, V>, n: int, f: spec_fn(int) -> K)
    requires
        0 <= n,
        injective_on(f, set_int_range(0, n)),
        forall|key: K| #[trigger] m.contains_key(key) ==> exists|j: int| 0 <= j < n && key == #[trigger] f(j),
        m.len() == n,
    ensures
        forall|j: int| 0 <= j < n ==> m.contains_key(#[trigger] f(j)),
{
    let range = set_int_range(0, n);
    let keys = range.map(f);
    lemma_int_range(0, n);
    lemma_map_size(range, keys, f);
    assert(m.dom().subset_of(keys)) by {
        assert forall|key: K| m.dom().contains(key) implies keys.contains(key) by {
            let j = choose|j: int| 0 <= j < n && key == #[trigger] f(j);
            assert(range.contains(j));
        }
    }
    lemma_len_subset(m.dom(), keys);
    lemma_subset_equality(m.dom(), keys);
    assert forall|j: int| 0 <= j < n implies m.contains_key(#[trigger] f(j)) by {
        assert(range.contains(j));
        assert(keys.contains(f(j)));
    }
}

/// An assembler that holds values only for objects of the dump, and as
/// many of each kind as a full dump has, holds a value for every object:
/// reading the dump from it succeeds.
pub proof fn lemma_complete_dump_reads(c: DumpContents, ids: DumpIds, r: Result<RawDump, DumpParseError>)
    requires
        ids_valid(ids),
        holds_only_dump_objects(c, ids),
        dump_complete(c),
        dump_read_outcome(c, ids, r),
    ensures
        forall|k: int| 0 <= k < 182 ==> object_held(c, ids, k),
        r is Ok,
{
    let d: RawDump = arbitrary();
    let fp = |j: int| preset_control_key(ids, j);
    assert(injective_on(fp, set_int_range(0, 130))) by {
        assert forall|a: int, b: int|
            set_int_range(0, 130).contains(a) && set_int_range(0, 130).contains(b) && #[trigger] fp(a) == #[trigger] fp(b)
                implies a == b by {
            if a < b {
                lemma_dump_objects_distinct(d, ids, a, b);
            } else if b < a {
                lemma_dump_objects_distinct(d, ids, b, a);
            }
        }
    }
    assert forall|key: u16| #[trigger] c.preset_controls.contains_key(key) implies exists|j: int|
        0 <= j < 130 && key == #[trigger] fp(j) by {
        let j = choose|j: int| 0 <= j < 130 && key == preset_control_key(ids, j);
        assert(key == fp(j));
    }
    lemma_full_domain(c.preset_controls, 130, fp);
    let fd = |j: int| pad_key(ids, j);
    assert(injective_on(fd, set_int_range(0, 32))) by {
        assert forall|a: int, b: int|
            set_int_range(0, 32).contains(a) && set_int_range(0, 32).contains(b) && #[trigger] fd(a) == #[trigger] fd(b)
                implies a == b by {
            if a < b {
                lemma_dump_objects_distinct(d, ids, a + 130, b + 130);
            } else if b < a {
                lemma_dump_objects_distinct(d, ids, b + 130, a + 130);
            }
        }
    }
    assert forall|key: u16| #[trigger] c.pads.contains_key(key) implies exists|j: int|
        0 <= j < 32 && key == #[trigger] fd(j) by {
        let j = choose|j: int| 0 <= j < 32 && key == pad_key(ids, j);
        assert(key == fd(j));
    }
    lemma_full_domain(c.pads, 32, fd);
    let fs = |j: int| setting_order()[j].code();
    assert(injective_on(fs, set_int_range(0, 11))) by {
        assert forall|a: int, b: int|
            set_int_range(0, 11).contains(a) && set_int_range(0, 11).contains(b) && #[trigger] fs(a) == #[trigger] fs(b)
                implies a == b by {
            if a < b {
                lemma_setting_codes_distinct(a, b);
            } else if b < a {
                lemma_setting_codes_distinct(b, a);
            }
        }
    }
    assert forall|key: u8| #[trigger] c.settings.contains_key(key) implies exists|j: int|
        0 <= j < 11 && key == #[trigger] fs(j) by {
        let j = choose|j: int| 0 <= j < 11 && key == setting_order()[j].code();
        assert(key == fs(j));
    }
    lemma_full_domain(c.settings, 11, fs);
    let fg = |j: int| ids.global_controls[j];
    assert(injective_on(fg, set_int_range(0, 9))) by {
        assert forall|a: int, b: int|
            set_int_range(0, 9).contains(a) && set_int_range(0, 9).contains(b) && #[trigger] fg(a) == #[trigger] fg(b)
                implies a == b by {
            if a < b {
                assert(ids.global_controls@[a] != ids.global_controls@[b]);
            } else if b < a {
                assert(ids.global_controls@[b] != ids.global_controls@[a]);
            }
        }
    }
    assert forall|key: u8| #[trigger] c.global_controls.contains_key(key) implies exists|j: int|
        0 <= j < 9 && key == #[trigger] fg(j) by {
        let j = choose|j: int| 0 <= j < 9 && key == ids.global_controls[j];
        assert(key == fg(j));
    }
    lemma_full_domain(c.global_controls, 9, fg);
    assert forall|k: int| 0 <= k < 182 implies object_held(c, ids, k) by {
        if k < 130 {
            assert(c.preset_controls.contains_key(fp(k)));
        } else if k < 162 {
            assert(c.pads.contains_key(fd(k - 130)));
        } else if k < 173 {
            assert(c.settings.contains_key(fs(k - 162)));
        } else {
            assert(c.global_controls.contains_key(fg(k - 173)));
        }
    }
    if let Err(e) = r {
        let k = choose|k: int| dump_gap(c, ids, k) && e == missing_error(ids, k);
        assert(object_held(c, ids, k));
    }
}

} // verus!
