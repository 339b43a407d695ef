//! The generic opcode-tagged IPC envelope shared by every sub-protocol: a
//! common header (two reserved 16-bit fields, opcode, option, timestamp)
//! followed by an opcode-selected payload. Each sub-protocol supplies its
//! own payload table; the envelope, its size reporting and its decoding are
//! shared here.
use crate::wire::{push_u16_le, push_u32_le, read_u16_le, read_u32_le};
use vstd::bytes::{spec_u16_from_le_bytes, spec_u16_to_le_bytes, spec_u32_from_le_bytes,
    spec_u32_to_le_bytes};
use vstd::prelude::*;
use vstd::slice::slice_subrange;

verus! {

/// Serialized length of the common IPC header.
pub const IPC_HEADER_SIZE: u32 = 12;

/// Upper bound on one IPC payload, so that a segment always fits the
/// packet's 16-bit size fields.
pub const MAX_IPC_PAYLOAD: u32 = 0xFF00;

/// The common IPC header bytes: two reserved 16-bit fields, the opcode, an
/// option field and a 32-bit timestamp, all little-endian.
pub open spec fn spec_ipc_header(
    unk1: u16,
    unk2: u16,
    opcode: u16,
    option: u16,
    timestamp: u32,
) -> Seq<u8> {
    spec_u16_to_le_bytes(unk1) + spec_u16_to_le_bytes(unk2) + spec_u16_to_le_bytes(opcode)
        + spec_u16_to_le_bytes(option) + spec_u32_to_le_bytes(timestamp)
}

/// One sub-protocol's opcode-indexed payload table.
pub trait IpcPayloadCodec: Sized {
    /// The exact bytes the payload serializes to.
    spec fn spec_payload(&self) -> Seq<u8>;

    /// Whether the payload can be encoded: every fixed-layout payload can;
    /// an opaque captured payload must fit the wire's size fields.
    spec fn payload_wf(&self) -> bool;

    /// Whether a payload buffer under this opcode decodes to something.
    spec fn payload_decode_ok(op: u16, p: Seq<u8>) -> bool;

    /// Whether this payload is the decoding of the buffer under the opcode;
    /// for one buffer, all payloads satisfying this agree on every field.
    spec fn is_payload_decode_of(&self, op: u16, p: Seq<u8>) -> bool;

    /// The payload's declared byte size: exactly its serialized length.
    fn payload_size(&self) -> (r: u32)
        requires
            self.payload_wf(),
        ensures
            r as nat == self.spec_payload().len(),
            r <= MAX_IPC_PAYLOAD;

    /// Serializes the payload onto the end of a buffer.
    fn encode_payload_into(&self, out: &mut Vec<u8>)
        requires
            self.payload_wf(),
        ensures
            final(out)@ == old(out)@ + self.spec_payload();

    /// Decodes a payload buffer under an opcode. A table's unrecognized
    /// opcodes decode to its opaque catch-all variant, never to an error.
    fn decode_payload(op: u16, p: &[u8]) -> (r: Option<Self>)
        ensures
            r is Some <==> Self::payload_decode_ok(op, p@),
            r is Some ==> r.unwrap().is_payload_decode_of(op, p@) && r.unwrap().payload_wf()
                && r.unwrap().spec_payload().len() <= p@.len();
}

/// An IPC segment of one sub-protocol: the common header and a payload of
/// that sub-protocol's table.
#[derive(Debug, Clone)]
pub struct IpcSegment<D> {
    pub unk1: u16,
    pub unk2: u16,
    pub op_code: u16,
    pub option: u16,
    pub timestamp: u32,
    pub data: D,
}

impl<D: IpcPayloadCodec> IpcSegment<D> {
    /// Whether the segment can be encoded.
    pub open spec fn wf(&self) -> bool {
        self.data.payload_wf()
    }

    /// The exact bytes the segment serializes to: the common header with
    /// this segment's opcode field, then the payload.
    pub open spec fn spec_encoded(&self) -> Seq<u8> {
        spec_ipc_header(self.unk1, self.unk2, self.op_code, self.option, self.timestamp)
            + self.data.spec_payload()
    }

    /// Whether a byte buffer decodes to a segment of this table.
    pub open spec fn decode_ok(b: Seq<u8>) -> bool {
        &&& b.len() >= IPC_HEADER_SIZE
        &&& D::payload_decode_ok(spec_u16_from_le_bytes(b.subrange(4, 6)), b.skip(12))
    }

    /// Whether this segment is the decoding of the buffer.
    pub open spec fn is_decode_of(&self, b: Seq<u8>) -> bool {
        &&& b.len() >= IPC_HEADER_SIZE
        &&& self.unk1 == spec_u16_from_le_bytes(b.subrange(0, 2))
        &&& self.unk2 == spec_u16_from_le_bytes(b.subrange(2, 4))
        &&& self.op_code == spec_u16_from_le_bytes(b.subrange(4, 6))
        &&& self.option == spec_u16_from_le_bytes(b.subrange(6, 8))
        &&& self.timestamp == spec_u32_from_le_bytes(b.subrange(8, 12))
        &&& self.data.is_payload_decode_of(self.op_code, b.skip(12))
    }

    /// The segment's self-reported size: the common header plus the
    /// payload's declared size, always the exact serialized length.
    pub fn calc_size(&self) -> (r: u32)
        requires
            self.wf(),
        ensures
            r as nat == self.spec_encoded().len(),
            r <= IPC_HEADER_SIZE + MAX_IPC_PAYLOAD,
    {
        proof {
            vstd::bytes::lemma_auto_spec_u16_to_from_le_bytes();
            vstd::bytes::lemma_auto_spec_u32_to_from_le_bytes();
        }
        IPC_HEADER_SIZE + self.data.payload_size()
    }

    /// Serializes the segment onto the end of a buffer.
    pub fn encode_into(&self, out: &mut Vec<u8>)
        requires
            self.wf(),
        ensures
            final(out)@ == old(out)@ + self.spec_encoded(),
    {
        proof {
            vstd::bytes::lemma_auto_spec_u16_to_from_le_bytes();
            vstd::bytes::lemma_auto_spec_u32_to_from_le_bytes();
        }
        push_u16_le(out, self.unk1);
        push_u16_le(out, self.unk2);
        push_u16_le(out, self.op_code);
        push_u16_le(out, self.option);
        push_u32_le(out, self.timestamp);
        self.data.encode_payload_into(out);
    }

    /// Decodes a segment from a whole byte buffer.
    pub fn decode(b: &[u8]) -> (r: Option<Self>)
        ensures
            r is Some <==> Self::decode_ok(b@),
            r is Some ==> r.unwrap().is_decode_of(b@) && r.unwrap().wf()
                && r.unwrap().spec_encoded().len() <= b@.len(),
    {
        let n = b.len();
        if n < 12 {
            return None;
        }
        let unk1 = read_u16_le(b, 0);
        let unk2 = read_u16_le(b, 2);
        let op_code = read_u16_le(b, 4);
        let option = read_u16_le(b, 6);
        let timestamp = read_u32_le(b, 8);
        let payload = slice_subrange(b, 12, n);
        proof {
            assert(payload@ =~= b@.skip(12));
        }
        match D::decode_payload(op_code, payload) {
            Some(data) => Some(IpcSegment { unk1, unk2, op_code, option, timestamp, data }),
            None => None,
        }
    }
}

} // verus!
