//! A simulated MPD226: the memory of the device and how it answers the
//! messages it receives.

use vstd::prelude::*;

use crate::manufacturer::akai::SYSEX_MANUFACTURER_ID;
use crate::manufacturer::akai::mpd226::DEVICE_ID;
use crate::manufacturer::akai::mpd226::DeviceCommandId;
use crate::manufacturer::akai::mpd226::DeviceMessagePayload;
use crate::manufacturer::akai::mpd226::DeviceStatusId;
use crate::manufacturer::akai::mpd226::Global;
use crate::manufacturer::akai::mpd226::Preset;
use crate::manufacturer::akai::mpd226::global_decoded;
use crate::manufacturer::akai::mpd226::global_raw;
use crate::manufacturer::akai::mpd226::is_default_preset;
use crate::manufacturer::akai::mpd226::lemma_global_decode_encode;
use crate::manufacturer::akai::mpd226::lemma_raw_global_of;
use crate::manufacturer::akai::mpd226::repository::lemma_dials_read;
use crate::manufacturer::akai::mpd226::repository::lemma_faders_read;
use crate::manufacturer::akai::mpd226::repository::lemma_pads_read;
use crate::manufacturer::akai::mpd226::repository::lemma_switches_fail;
use crate::manufacturer::akai::mpd226::repository::lemma_switches_read;
use crate::manufacturer::akai::mpd226::header_bytes;
use crate::manufacturer::akai::mpd226::header_valid;
use crate::manufacturer::akai::mpd226::lemma_preset_round_trip;
use crate::manufacturer::akai::mpd226::lemma_stored_preset_bytes;
use crate::manufacturer::akai::mpd226::preset_bytes;
use crate::manufacturer::akai::mpd226::preset_fail;
use crate::manufacturer::akai::mpd226::preset_read;
use crate::manufacturer::akai::mpd226::preset_storable;
use crate::manufacturer::akai::mpd226::raw_global_of;
use crate::manufacturer::akai::mpd226::stores_preset;
use crate::manufacturer::akai::mpd226::write_preset_header;
use crate::manufacturer::akai::mpd226::control::value_kind::ActiveState;
use crate::manufacturer::akai::mpd226::control::value_kind::MidiClock;
use crate::manufacturer::akai::mpd226::control::value_kind::NoteDisplay;
use crate::manufacturer::akai::mpd226::control::value_kind::PadCurve;
use crate::manufacturer::akai::mpd226::control::value_kind::PresetSlot;
use crate::manufacturer::akai::mpd226::control::value_kind::TapAverage;
use crate::manufacturer::akai::mpd226::control::value_kind::UsbChannel;
use crate::manufacturer::akai::mpd226::raw::RawGlobal;
use crate::manufacturer::akai::mpd226::raw::RawHeader;
use crate::manufacturer::akai::mpd226::raw::RawPreset;
use crate::sysex::Sysex;
use crate::sysex::extend_bytes;
use crate::sysex::pack_u14;
use crate::sysex::packed_u14;

pub mod minilab_mk2;

verus! {

/// What reaches the simulated device.
pub enum SimMsg {
    SysexReceived(Sysex),
}

/// What the simulated device does in answer.
pub enum SimEffect {
    SendSysex(Sysex),
    Noop,
}

/// The memory of a simulated MPD226: a preset for each slot, the working
/// memory first, and the global parameters.
pub struct Mpd226Sim {
    pub presets: [Preset; 21],
    pub global: Global,
}

impl Default for Mpd226Sim {
    /// Every slot holds a default preset; default global parameters.
    fn default() -> (res: Self)
        ensures
            forall|i: int| 0 <= i < 21 ==> is_default_preset(#[trigger] res.presets@[i]),
            res.global == (Global {
                common_channel: UsbChannel::A1,
                lcd_contrast: 50,
                tap_average: TapAverage::Tap3,
                tempo_led: ActiveState::On,
                note_display: NoteDisplay::Value,
                pad_threshold: 1,
                pad_curve: PadCurve::Linear,
                pad_gain: 0,
                midi_clock: MidiClock::Internal,
            }),
    {
        let p = Preset::default();
        Mpd226Sim { presets: [p; 21], global: Global::default() }
    }
}

/// The payload acknowledging a preset written to slot `slot`.
pub open spec fn ack_preset_payload(slot: u8) -> Seq<u8> {
    header_bytes(DeviceStatusId::PresetAck.code(), packed_u14(2)) + seq![slot, 0u8]
}

/// The payload that dumps a stored preset.
pub open spec fn dump_preset_payload(stored: Seq<u8>) -> Seq<u8> {
    write_preset_header() + stored
}

/// The payload that dumps the stored global parameters, after three fixed
/// bytes.
pub open spec fn dump_global_payload(raw: RawGlobal) -> Seq<u8> {
    header_bytes(DeviceStatusId::WriteGlobal.code(), packed_u14(14)) + seq![0x0Bu8, 0x00u8, 0x01u8] + raw.bytes()
}

/// The payload acknowledging a write to global parameter `addr`.
pub open spec fn ack_global_payload(addr: u8) -> Seq<u8> {
    header_bytes(DeviceStatusId::GlobalAck.code(), packed_u14(4)) + seq![0x01u8, 0x00u8, addr, 0x00u8]
}

/// The payload an effect sends, if any.
pub open spec fn effect_payload(e: SimEffect) -> Option<Seq<u8>> {
    match e {
        SimEffect::SendSysex(s) => Some(s@),
        SimEffect::Noop => None,
    }
}

/// The data of a message: what follows its six header bytes.
pub open spec fn message_data(p: Seq<u8>) -> Seq<u8> {
    p.subrange(6, p.len() as int)
}

/// Whether the simulated device cannot take the message at all: an empty
/// preset request, a preset write of other than 1075 bytes, a global write
/// shorter than four bytes or to an address outside 1 ..= 11.
pub open spec fn sim_refuses(p: Seq<u8>) -> bool {
    header_valid(p) && match DeviceCommandId::of_code(p[3]) {
        Some(DeviceCommandId::DumpPreset) => message_data(p).len() == 0,
        Some(DeviceCommandId::WritePreset) => message_data(p).len() != 1075,
        Some(DeviceCommandId::WriteGlobal) => message_data(p).len() < 4 || message_data(p)[2] == 0
            || message_data(p)[2] > 11,
        _ => false,
    }
}

/// Whether the device goes from `old` to `new`, answering `eff`, on the
/// message payload `p`.
pub open spec fn sim_step(old: Mpd226Sim, p: Seq<u8>, new: Mpd226Sim, eff: Option<Seq<u8>>) -> bool {
    if !header_valid(p) {
        new == old && eff is None
    } else {
        let data = message_data(p);
        match DeviceCommandId::of_code(p[3]) {
            None => new == old && eff is None,
            Some(DeviceCommandId::DumpPreset) => match PresetSlot::of_code(data[0]) {
                None => new == old && eff is None,
                Some(slot) => new == old && eff == Some(
                    dump_preset_payload(preset_bytes(old.presets@[slot.code() as int])),
                ),
            },
            Some(DeviceCommandId::WritePreset) => exists|r: RawPreset|
                #[trigger] r.bytes() == data && ((exists|q: Preset|
                    #[trigger] preset_read(r, q) && new.global == old.global && new.presets@ == old.presets@.update(
                        q.settings.preset_slot.code() as int,
                        q,
                    ) && eff == Some(ack_preset_payload(q.settings.preset_slot.code()))) || (exists|e|
                    #[trigger] preset_fail(r, e) && new == old && eff is None)),
            Some(DeviceCommandId::DumpGlobal) => new == old && eff == Some(dump_global_payload(global_raw(old.global))),
            Some(DeviceCommandId::WriteGlobal) => {
                let raw = raw_global_of(global_raw(old.global).bytes().update(data[2] - 1, data[3]));
                match global_decoded(raw) {
                    Ok(g) => new.presets == old.presets && new.global == g && eff == Some(
                        ack_global_payload(data[2]),
                    ),
                    Err(_) => new == old && eff is None,
                }
            },
        }
    }
}

/// The payload acknowledging a preset written to `slot`.
fn ack_preset(slot: PresetSlot) -> (res: Vec<u8>)
    ensures
        res@ == ack_preset_payload(slot.code()),
{
    let header = RawHeader {
        mfg_id: SYSEX_MANUFACTURER_ID,
        _unknown: 0,
        device_id: DEVICE_ID,
        cmd: DeviceStatusId::PresetAck.as_u8(),
        length: pack_u14(2),
    };
    let mut payload = header.as_bytes();
    payload.push(slot.as_u8());
    payload.push(0x00);
    assert(header.bytes() =~= header_bytes(DeviceStatusId::PresetAck.code(), packed_u14(2)));
    assert(payload@ =~= ack_preset_payload(slot.code()));
    payload
}

/// The payload that dumps a stored preset.
fn dump_preset(raw: &RawPreset) -> (res: Vec<u8>)
    ensures
        res@ == dump_preset_payload(raw.bytes()),
{
    let header = RawHeader::write_preset();
    let mut payload = header.as_bytes();
    let body = raw.as_bytes();
    extend_bytes(&mut payload, body.as_slice());
    assert(header.bytes() =~= write_preset_header());
    payload
}

/// The payload that dumps the stored global parameters.
fn dump_global(raw: &RawGlobal) -> (res: Vec<u8>)
    ensures
        res@ == dump_global_payload(*raw),
{
    let header = RawHeader {
        mfg_id: SYSEX_MANUFACTURER_ID,
        _unknown: 0,
        device_id: DEVICE_ID,
        cmd: DeviceStatusId::WriteGlobal.as_u8(),
        length: pack_u14(14),
    };
    let mut payload = header.as_bytes();
    payload.push(0x0B);
    payload.push(0x00);
    payload.push(0x01);
    let body = raw.as_bytes();
    extend_bytes(&mut payload, body.as_slice());
    assert(header.bytes() =~= header_bytes(DeviceStatusId::WriteGlobal.code(), packed_u14(14)));
    assert(payload@ =~= dump_global_payload(*raw));
    payload
}

/// The payload acknowledging a write to global parameter `addr`.
fn ack_global(addr: u8) -> (res: Vec<u8>)
    ensures
        res@ == ack_global_payload(addr),
{
    let header = RawHeader {
        mfg_id: SYSEX_MANUFACTURER_ID,
        _unknown: 0,
        device_id: DEVICE_ID,
        cmd: DeviceStatusId::GlobalAck.as_u8(),
        length: pack_u14(4),
    };
    let mut payload = header.as_bytes();
    payload.push(0x01);
    payload.push(0x00);
    payload.push(addr);
    payload.push(0x00);
    assert(header.bytes() =~= header_bytes(DeviceStatusId::GlobalAck.code(), packed_u14(4)));
    assert(payload@ =~= ack_global_payload(addr));
    payload
}

impl Mpd226Sim {
    /// Answers a message: dumps and writes presets and global parameters,
    /// acknowledging each write; a message it cannot read changes nothing
    /// and is not answered.
    pub fn update(&mut self, msg: SimMsg) -> (res: SimEffect)
        requires
            msg matches SimMsg::SysexReceived(s) && !sim_refuses(s@),
        ensures
            msg matches SimMsg::SysexReceived(s) && sim_step(*old(self), s@, *final(self), effect_payload(res)),
    {
        match msg {
            SimMsg::SysexReceived(sysex) => {
                let payload: DeviceMessagePayload<DeviceCommandId> = match DeviceMessagePayload::from_sysex(&sysex) {
                    Ok(h) => h,
                    Err(_) => {
                        return SimEffect::Noop;
                    },
                };
                let ghost p = sysex@;
                assert(payload.data@ == message_data(p));
                match payload.header.cmd {
                    DeviceCommandId::DumpPreset => {
                        let slot = match PresetSlot::from_code(payload.data[0]) {
                            Some(s) => s,
                            None => {
                                return SimEffect::Noop;
                            },
                        };
                        let preset = self.presets[slot.as_u8() as usize];
                        let raw = preset.to_raw();
                        proof {
                            lemma_stored_preset_bytes(raw, preset);
                        }
                        SimEffect::SendSysex(Sysex::new(dump_preset(&raw)))
                    },
                    DeviceCommandId::WritePreset => {
                        let raw = RawPreset::from_bytes(payload.data.as_slice());
                        let preset = match Preset::from_raw(raw) {
                            Ok(q) => q,
                            Err(e) => {
                                assert(preset_fail(raw, e));
                                return SimEffect::Noop;
                            },
                        };
                        let slot = preset.settings.preset_slot;
                        self.presets[slot.as_u8() as usize] = preset;
                        assert(preset_read(raw, preset));
                        SimEffect::SendSysex(Sysex::new(ack_preset(slot)))
                    },
                    DeviceCommandId::DumpGlobal => {
                        let raw = self.global.to_raw();
                        SimEffect::SendSysex(Sysex::new(dump_global(&raw)))
                    },
                    DeviceCommandId::WriteGlobal => {
                        let addr = payload.data[2];
                        let value = payload.data[3];
                        let idx: usize = (addr - 1) as usize;
                        let raw = self.global.to_raw();
                        let mut bytes = raw.as_bytes();
                        bytes.set(idx, value);
                        let raw2 = RawGlobal::from_bytes(bytes.as_slice());
                        proof {
                            lemma_raw_global_of(raw2);
                        }
                        assert(raw2 == raw_global_of(global_raw(old(self).global).bytes().update(addr - 1, value)));
                        match Global::from_raw(raw2) {
                            Ok(g) => {
                                self.global = g;
                                SimEffect::SendSysex(Sysex::new(ack_global(addr)))
                            },
                            Err(_) => SimEffect::Noop,
                        }
                    },
                }
            },
        }
    }
}

/// A preset written to the device is dumped back from its slot: the write is
/// acknowledged with the slot, and a request for that slot answers with the
/// stored bytes of the preset; nothing else changes. A preset that reads
/// back as itself (pad ids equal to their places, a gate from 1 to 99, a
/// tempo below 16384) is what the written record reads as.
pub proof fn lemma_write_then_dump_preset(
    s0: Mpd226Sim,
    r: RawPreset,
    p: Preset,
    s1: Mpd226Sim,
    e1: Option<Seq<u8>>,
    s2: Mpd226Sim,
    e2: Option<Seq<u8>>,
)
    requires
        stores_preset(r, p),
        preset_storable(p),
        sim_step(s0, write_preset_header() + r.bytes(), s1, e1),
        sim_step(s1, header_bytes(0x12, seq![0x00u8, 0x01u8]).push(p.settings.preset_slot.code()), s2, e2),
    ensures
        e1 == Some(ack_preset_payload(p.settings.preset_slot.code())),
        s1.presets@[p.settings.preset_slot.code() as int] == p,
        s2 == s1,
        e2 == Some(dump_preset_payload(r.bytes())),
{
    let w = write_preset_header() + r.bytes();
    lemma_preset_round_trip(p, r);
    lemma_stored_preset_bytes(r, p);
    assert(message_data(w) =~= r.bytes());
    assert(DeviceCommandId::of_code(w[3]) == Some(DeviceCommandId::WritePreset));
    let r2 = choose|r2: RawPreset| #[trigger] r2.bytes() == message_data(w) && ((exists|q: Preset|
        #[trigger] preset_read(r2, q) && s1.global == s0.global && s1.presets@ == s0.presets@.update(
            q.settings.preset_slot.code() as int,
            q,
        ) && e1 == Some(ack_preset_payload(q.settings.preset_slot.code()))) || (exists|e|
        #[trigger] preset_fail(r2, e) && s1 == s0 && e1 is None));
    RawPreset::lemma_bytes_injective(r2, r);
    lemma_read_unique(r, p);
    let d = header_bytes(0x12, seq![0x00u8, 0x01u8]).push(p.settings.preset_slot.code());
    assert(DeviceCommandId::of_code(d[3]) == Some(DeviceCommandId::DumpPreset));
    assert(message_data(d)[0] == p.settings.preset_slot.code());
    PresetSlot::lemma_code(0, p.settings.preset_slot);
}

/// A record that reads as a preset reads as no other preset and fails to
/// read with no error.
proof fn lemma_read_unique(r: RawPreset, p: Preset)
    requires
        preset_read(r, p),
    ensures
        forall|q: Preset| #[trigger] preset_read(r, q) ==> q == p,
        forall|e| !#[trigger] preset_fail(r, e),
{
    lemma_pads_read(r.pads@, p.pads.pads@);
    lemma_dials_read(r.dials@, p.dials.0@);
    lemma_faders_read(r.faders@, p.faders.0@);
    lemma_switches_read(r.switches@, p.switches.0@);
    assert forall|q: Preset| #[trigger] preset_read(r, q) implies q == p by {
        assert(q.pads.pads@ =~= p.pads.pads@);
        assert(q.pads.pads =~= p.pads.pads);
        assert(q.dials.0@ =~= p.dials.0@);
        assert(q.dials.0 =~= p.dials.0);
        assert(q.faders.0@ =~= p.faders.0@);
        assert(q.faders.0 =~= p.faders.0);
        assert(q.switches.0@ =~= p.switches.0@);
        assert(q.switches.0 =~= p.switches.0);
    }
    assert forall|e| !#[trigger] preset_fail(r, e) by {
        if preset_fail(r, e) {
            lemma_switches_fail(r.switches@, e);
        }
    }
}

/// Global parameters written one at a time read back in a dump: a write to
/// an address from 1 to 11 of a byte that the parameter can hold is
/// acknowledged with the address, and a dump then sends the parameters with
/// that byte in place.
pub proof fn lemma_write_then_dump_global(
    s0: Mpd226Sim,
    addr: u8,
    value: u8,
    s1: Mpd226Sim,
    e1: Option<Seq<u8>>,
    s2: Mpd226Sim,
    e2: Option<Seq<u8>>,
)
    requires
        1 <= addr <= 11,
        sim_step(s0, header_bytes(0x34, seq![0x00u8, 0x04u8]) + seq![0x01u8, 0x00u8, addr, value], s1, e1),
        global_decoded(raw_global_of(global_raw(s0.global).bytes().update(addr - 1, value))) is Ok,
        sim_step(s1, header_bytes(0x24, seq![0x00u8, 0x03u8]) + seq![0x0Bu8, 0x00u8, 0x01u8], s2, e2),
    ensures
        e1 == Some(ack_global_payload(addr)),
        s2 == s1,
        e2 == Some(dump_global_payload(global_raw(s1.global))),
        addr != 6 && addr != 8 ==> global_raw(s1.global).bytes()[addr - 1] == value,
{
    let w = header_bytes(0x34, seq![0x00u8, 0x04u8]) + seq![0x01u8, 0x00u8, addr, value];
    assert(message_data(w) =~= seq![0x01u8, 0x00u8, addr, value]);
    assert(DeviceCommandId::of_code(w[3]) == Some(DeviceCommandId::WriteGlobal));
    let d = header_bytes(0x24, seq![0x00u8, 0x03u8]) + seq![0x0Bu8, 0x00u8, 0x01u8];
    assert(DeviceCommandId::of_code(d[3]) == Some(DeviceCommandId::DumpGlobal));
    let raw2 = raw_global_of(global_raw(s0.global).bytes().update(addr - 1, value));
    lemma_global_decode_encode(raw2);
    assert(raw2.bytes() =~= global_raw(s0.global).bytes().update(addr - 1, value));
}

} // verus!
