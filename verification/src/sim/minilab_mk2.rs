//! A simulated MiniLab mkII: its working parameters, its eight memories,
//! and how it answers the messages it receives.

use vstd::prelude::*;

use crate::manufacturer::arturia::minilab_mk2::IDENTITY_HEADER;
use crate::manufacturer::arturia::minilab_mk2::OpCode;
use crate::manufacturer::arturia::minilab_mk2::ParamStore;
use crate::manufacturer::arturia::minilab_mk2::command_header;
use crate::manufacturer::arturia::minilab_mk2::has_command_header;
use crate::manufacturer::arturia::minilab_mk2::manufacturer_id;
use crate::manufacturer::arturia::minilab_mk2::param_key;
use crate::manufacturer::arturia::minilab_mk2::sysex_command_header;
use crate::sysex::Sysex;
use crate::sysex::extend_bytes;

verus! {

/// The number of memories.
pub const TOTAL_MEMORIES: usize = 8;

/// What reaches the simulated device.
pub enum SimMsg {
    SysexReceived(Sysex),
}

/// What the simulated device does in answer.
pub enum SimEffect {
    SendSysex(Sysex),
    Noop,
}

/// The firmware version the simulated device reports.
pub open spec fn sim_firmware() -> Seq<u8> {
    seq![0x01, 0x00, 0x02, 0x05]
}

/// The payload of the universal identity request.
pub open spec fn identity_request_payload() -> Seq<u8> {
    seq![IDENTITY_HEADER, 0x7F, 0x06, 0x01]
}

/// The payload of the identity reply the simulated device sends.
pub open spec fn identity_reply_payload() -> Seq<u8> {
    seq![IDENTITY_HEADER, 0x00, 0x06, 0x02] + manufacturer_id() + seq![0x02, 0x00, 0x04, 0x02]
        + sim_firmware()
}

/// The payload of a message that reports `value` for parameter byte `param`
/// of control byte `control`.
pub open spec fn value_payload(param: u8, control: u8, value: u8) -> Seq<u8> {
    command_header() + seq![OpCode::WriteParam.code(), 0x00, param, control, value]
}

/// The payload of a request for parameter byte `param` of control byte
/// `control`.
pub open spec fn read_payload(param: u8, control: u8) -> Seq<u8> {
    command_header() + seq![OpCode::ReadParam.code(), 0x00, param, control]
}

/// The payload of a request to store the working parameters in memory
/// `slot`.
pub open spec fn store_payload(slot: u8) -> Seq<u8> {
    command_header() + seq![OpCode::StoreMemory.code(), slot]
}

/// The payload of a request to make memory `slot` the working parameters.
pub open spec fn recall_payload(slot: u8) -> Seq<u8> {
    command_header() + seq![OpCode::RecallMemory.code(), slot]
}

/// The memory a store or recall body names: slot 1 ..= 8 is memory 0 ..= 7.
pub open spec fn memory_slot(body: Seq<u8>) -> Option<int> {
    if body.len() == 2 && 1 <= body[1] <= TOTAL_MEMORIES {
        Some(body[1] - 1)
    } else {
        None
    }
}

/// The working parameters, the memories and the answer after the device
/// takes in payload `p`: it answers an identity request, reports a kept
/// parameter it is asked for, keeps a written parameter, and stores or
/// recalls a memory; it ignores anything else.
pub open spec fn sim_next(working: Map<u16, u8>, memories: Seq<Map<u16, u8>>, p: Seq<u8>) -> (
    Map<u16, u8>,
    Seq<Map<u16, u8>>,
    Option<Seq<u8>>,
) {
    if p == identity_request_payload() {
        (working, memories, Some(identity_reply_payload()))
    } else if !has_command_header(p) || p.len() == 5 {
        (working, memories, None)
    } else {
        let body = p.skip(5);
        match OpCode::of_code(body[0]) {
            None => (working, memories, None),
            Some(OpCode::ReadParam) => if body.len() == 4 && working.contains_key(param_key(body[2], body[3])) {
                (working, memories, Some(value_payload(body[2], body[3], working[param_key(body[2], body[3])])))
            } else {
                (working, memories, None)
            },
            Some(OpCode::WriteParam) => if body.len() == 5 {
                (working.insert(param_key(body[2], body[3]), body[4]), memories, None)
            } else {
                (working, memories, None)
            },
            Some(OpCode::RecallMemory) => match memory_slot(body) {
                Some(i) => (memories[i], memories, None),
                None => (working, memories, None),
            },
            Some(OpCode::StoreMemory) => match memory_slot(body) {
                Some(i) => (working, memories.update(i, working), None),
                None => (working, memories, None),
            },
        }
    }
}

/// A simulated MiniLab mkII.
pub struct MinilabMk2Sim {
    pub working: ParamStore,
    pub memories: Vec<ParamStore>,
}

/// The parameters kept in each memory.
pub open spec fn memory_views(memories: Seq<ParamStore>) -> Seq<Map<u16, u8>> {
    memories.map_values(|s: ParamStore| s@)
}

/// The payload an effect sends, if any.
pub open spec fn effect_payload(e: SimEffect) -> Option<Seq<u8>> {
    match e {
        SimEffect::SendSysex(s) => Some(s@),
        SimEffect::Noop => None,
    }
}

fn payload_with_header(body: &[u8]) -> (res: Vec<u8>)
    ensures
        res@ == command_header() + body@,
{
    let header = sysex_command_header();
    let mut payload: Vec<u8> = Vec::new();
    extend_bytes(&mut payload, &header);
    extend_bytes(&mut payload, body);
    payload
}

impl MinilabMk2Sim {
    /// A device whose working parameters and every memory are `store`.
    pub fn new(store: ParamStore) -> (res: Self)
        ensures
            res.working@ == store@,
            res.memories@.len() == TOTAL_MEMORIES,
            forall|i: int| 0 <= i < TOTAL_MEMORIES ==> (#[trigger] res.memories@[i])@ == store@,
    {
        let mut memories: Vec<ParamStore> = Vec::new();
        let mut i: usize = 0;
        while i < TOTAL_MEMORIES
            invariant
                i <= TOTAL_MEMORIES,
                memories@.len() == i,
                forall|j: int| 0 <= j < i ==> (#[trigger] memories@[j])@ == store@,
            decreases TOTAL_MEMORIES - i,
        {
            memories.push(store.clone());
            i = i + 1;
        }
        MinilabMk2Sim { working: store, memories }
    }

    /// Takes in a message and answers it.
    pub fn update(&mut self, msg: SimMsg) -> (res: SimEffect)
        requires
            old(self).memories@.len() == TOTAL_MEMORIES,
        ensures
            final(self).memories@.len() == TOTAL_MEMORIES,
            match msg {
                SimMsg::SysexReceived(s) => sim_next(old(self).working@, memory_views(old(self).memories@), s@) == (
                    final(self).working@,
                    memory_views(final(self).memories@),
                    effect_payload(res),
                ),
            },
    {
        match msg {
            SimMsg::SysexReceived(sysex) => self.handle_sysex(&sysex),
        }
    }

    fn handle_sysex(&mut self, sysex: &Sysex) -> (res: SimEffect)
        requires
            old(self).memories@.len() == TOTAL_MEMORIES,
        ensures
            final(self).memories@.len() == TOTAL_MEMORIES,
            sim_next(old(self).working@, memory_views(old(self).memories@), sysex@) == (
                final(self).working@,
                memory_views(final(self).memories@),
                effect_payload(res),
            ),
    {
        let payload = sysex.payload();
        let ghost mv = memory_views(self.memories@);
        if payload.len() == 4 && payload[0] == IDENTITY_HEADER && payload[1] == 0x7F && payload[2] == 0x06
            && payload[3] == 0x01 {
            assert(payload@ =~= identity_request_payload());
            let reply: Vec<u8> = vec![IDENTITY_HEADER, 0x00, 0x06, 0x02, 0x00, 0x20, 0x6B, 0x02, 0x00, 0x04, 0x02, 0x01, 0x00, 0x02, 0x05];
            assert(reply@ =~= identity_reply_payload());
            return SimEffect::SendSysex(Sysex::new(reply));
        }
        assert(payload@ != identity_request_payload()) by {
            if payload@ == identity_request_payload() {
                assert(payload@.len() == 4);
                assert(payload@[0] == IDENTITY_HEADER && payload@[1] == 0x7F && payload@[2] == 0x06 && payload@[3] == 0x01);
            }
        }
        if !(payload.len() > 5 && payload[0] == 0x00 && payload[1] == 0x20 && payload[2] == 0x6B
            && payload[3] == 0x7F && payload[4] == 0x42) {
            return SimEffect::Noop;
        }
        let ghost body = payload@.skip(5);
        let n = payload.len() - 5;
        assert(body.len() == n && body[0] == payload@[5]);
        let op = match OpCode::from_code(payload[5]) {
            Some(op) => op,
            None => {
                return SimEffect::Noop;
            },
        };
        match op {
            OpCode::ReadParam => {
                if n != 4 {
                    return SimEffect::Noop;
                }
                let param = payload[7];
                let control = payload[8];
                assert(body[2] == param && body[3] == control);
                match self.working.get(param, control) {
                    Some(value) => {
                        let body_out: [u8; 5] = [OpCode::WriteParam.as_u8(), 0x00, param, control, value];
                        let out = payload_with_header(&body_out);
                        assert(out@ =~= value_payload(param, control, value));
                        SimEffect::SendSysex(Sysex::new(out))
                    },
                    None => SimEffect::Noop,
                }
            },
            OpCode::WriteParam => {
                if n != 5 {
                    return SimEffect::Noop;
                }
                let param = payload[7];
                let control = payload[8];
                let value = payload[9];
                assert(body[2] == param && body[3] == control && body[4] == value);
                self.working.set(param, control, value);
                SimEffect::Noop
            },
            OpCode::RecallMemory => {
                if n != 2 || payload[6] < 1 || payload[6] as usize > TOTAL_MEMORIES {
                    return SimEffect::Noop;
                }
                let index = (payload[6] - 1) as usize;
                assert(body[1] == payload@[6]);
                self.working = self.memories[index].clone();
                SimEffect::Noop
            },
            OpCode::StoreMemory => {
                if n != 2 || payload[6] < 1 || payload[6] as usize > TOTAL_MEMORIES {
                    return SimEffect::Noop;
                }
                let index = (payload[6] - 1) as usize;
                assert(body[1] == payload@[6]);
                let copy = self.working.clone();
                self.memories.set(index, copy);
                assert(memory_views(self.memories@) =~= mv.update(index as int, self.working@));
                SimEffect::Noop
            },
        }
    }
}

/// A written parameter is reported back when it is asked for.
pub proof fn lemma_write_then_read(
    working: Map<u16, u8>,
    memories: Seq<Map<u16, u8>>,
    param: u8,
    control: u8,
    value: u8,
)
    ensures
        ({
            let (w1, m1, _) = sim_next(working, memories, value_payload(param, control, value));
            sim_next(w1, m1, read_payload(param, control)).2 == Some(value_payload(param, control, value))
        }),
{
    let wp = value_payload(param, control, value);
    let rp = read_payload(param, control);
    assert(wp.skip(5) =~= seq![OpCode::WriteParam.code(), 0x00, param, control, value]);
    assert(rp.skip(5) =~= seq![OpCode::ReadParam.code(), 0x00, param, control]);
    assert(wp != identity_request_payload()) by {
        assert(wp.len() != 4);
    }
    assert(rp != identity_request_payload()) by {
        assert(rp.len() != 4);
    }
}

/// A stored memory is recalled as it was stored, whatever the working
/// parameters became in between.
pub proof fn lemma_store_then_recall(
    working: Map<u16, u8>,
    memories: Seq<Map<u16, u8>>,
    slot: u8,
    later: Map<u16, u8>,
)
    requires
        memories.len() == TOTAL_MEMORIES,
        1 <= slot <= TOTAL_MEMORIES,
    ensures
        ({
            let (_, m1, _) = sim_next(working, memories, store_payload(slot));
            sim_next(later, m1, recall_payload(slot)).0 == working
        }),
{
    let sp = store_payload(slot);
    let rp = recall_payload(slot);
    assert(sp.skip(5) =~= seq![OpCode::StoreMemory.code(), slot]);
    assert(rp.skip(5) =~= seq![OpCode::RecallMemory.code(), slot]);
    assert(sp != identity_request_payload()) by {
        assert(sp.len() != 4);
    }
    assert(rp != identity_request_payload()) by {
        assert(rp.len() != 4);
    }
}

} // verus!
