//! The zone (world) sub-protocol's IPC tables. No zone opcode is modeled
//! yet, so both directions capture every payload as opaque bytes, exactly
//! as received, and re-emit them unchanged.
use crate::ipc::{IpcPayloadCodec, IpcSegment, MAX_IPC_PAYLOAD};
use crate::wire::push_bytes;
use vstd::prelude::*;

verus! {

/// Payloads sent by the server to a zone client.
#[derive(Debug, Clone)]
pub enum ServerZoneIpcData {
    Unknown { unk: Vec<u8> },
}

/// Payloads sent by a zone client to the server.
#[derive(Debug, Clone)]
pub enum ClientZoneIpcData {
    Unknown { unk: Vec<u8> },
}

pub type ServerZoneIpcSegment = IpcSegment<ServerZoneIpcData>;

pub type ClientZoneIpcSegment = IpcSegment<ClientZoneIpcData>;

impl IpcPayloadCodec for ServerZoneIpcData {
    open spec fn spec_payload(&self) -> Seq<u8> {
        match self {
            ServerZoneIpcData::Unknown { unk } => unk@,
        }
    }

    open spec fn payload_wf(&self) -> bool {
        match self {
            ServerZoneIpcData::Unknown { unk } => unk@.len() <= MAX_IPC_PAYLOAD,
        }
    }

    open spec fn payload_decode_ok(op: u16, p: Seq<u8>) -> bool {
        p.len() <= MAX_IPC_PAYLOAD
    }

    open spec fn is_payload_decode_of(&self, op: u16, p: Seq<u8>) -> bool {
        match self {
            ServerZoneIpcData::Unknown { unk } => unk@ == p,
        }
    }

    fn payload_size(&self) -> (r: u32)
    {
        match self {
            ServerZoneIpcData::Unknown { unk } => unk.len() as u32,
        }
    }

    fn encode_payload_into(&self, out: &mut Vec<u8>)
    {
        match self {
            ServerZoneIpcData::Unknown { unk } => push_bytes(out, unk.as_slice()),
        }
    }

    fn decode_payload(op: u16, p: &[u8]) -> (r: Option<Self>)
    {
        if p.len() > MAX_IPC_PAYLOAD as usize {
            return None;
        }
        Some(ServerZoneIpcData::Unknown { unk: vstd::slice::slice_to_vec(p) })
    }
}

impl IpcPayloadCodec for ClientZoneIpcData {
    open spec fn spec_payload(&self) -> Seq<u8> {
        match self {
            ClientZoneIpcData::Unknown { unk } => unk@,
        }
    }

    open spec fn payload_wf(&self) -> bool {
        match self {
            ClientZoneIpcData::Unknown { unk } => unk@.len() <= MAX_IPC_PAYLOAD,
        }
    }

    open spec fn payload_decode_ok(op: u16, p: Seq<u8>) -> bool {
        p.len() <= MAX_IPC_PAYLOAD
    }

    open spec fn is_payload_decode_of(&self, op: u16, p: Seq<u8>) -> bool {
        match self {
            ClientZoneIpcData::Unknown { unk } => unk@ == p,
        }
    }

    fn payload_size(&self) -> (r: u32)
    {
        match self {
            ClientZoneIpcData::Unknown { unk } => unk.len() as u32,
        }
    }

    fn encode_payload_into(&self, out: &mut Vec<u8>)
    {
        match self {
            ClientZoneIpcData::Unknown { unk } => push_bytes(out, unk.as_slice()),
        }
    }

    fn decode_payload(op: u16, p: &[u8]) -> (r: Option<Self>)
    {
        if p.len() > MAX_IPC_PAYLOAD as usize {
            return None;
        }
        Some(ClientZoneIpcData::Unknown { unk: vstd::slice::slice_to_vec(p) })
    }
}

impl Default for ServerZoneIpcSegment {
    /// An empty opaque segment with the reserved header constant.
    fn default() -> (r: Self)
        ensures
            r.unk1 == 0x14,
            r.unk2 == 0,
            r.op_code == 0,
            r.option == 0,
            r.timestamp == 0,
            r.data is Unknown,
            r.data.spec_payload() == Seq::<u8>::empty(),
    {
        IpcSegment {
            unk1: 0x14,
            unk2: 0,
            op_code: 0,
            option: 0,
            timestamp: 0,
            data: ServerZoneIpcData::Unknown { unk: Vec::new() },
        }
    }
}

impl Default for ClientZoneIpcSegment {
    /// An empty opaque segment with the reserved header constant.
    fn default() -> (r: Self)
        ensures
            r.unk1 == 0x14,
            r.unk2 == 0,
            r.op_code == 0,
            r.option == 0,
            r.timestamp == 0,
            r.data is Unknown,
            r.data.spec_payload() == Seq::<u8>::empty(),
    {
        IpcSegment {
            unk1: 0x14,
            unk2: 0,
            op_code: 0,
            option: 0,
            timestamp: 0,
            data: ClientZoneIpcData::Unknown { unk: Vec::new() },
        }
    }
}

} // verus!
