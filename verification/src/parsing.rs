//! Packet framing: a fixed 16-byte header followed by self-describing
//! segments. Each segment carries its own size field, a kind tag, source and
//! target actor ids, and a payload selected by the kind. IPC payloads are
//! encrypted with the connection's session key from the byte after the
//! common IPC header; the internal control-plane carrier never is.
//!
//! Decoding is tolerant: on any hard parse error the whole packet degrades
//! to an empty segment list and the "none" connection kind, so a read loop
//! can safely continue.
use crate::blowfish::{spec_decrypt_bytes, spec_encrypt_bytes, spec_schedule, Cipher, Schedule};
use crate::common::{push_str_field, read_str_field, spec_read_str, str_field};
use crate::ipc::{IpcPayloadCodec, IpcSegment, IPC_HEADER_SIZE, MAX_IPC_PAYLOAD};
use crate::ipc_custom::{CustomIpcData, CustomIpcSegment};
use crate::wire::{fit_bytes, push_bytes, push_fit_bytes, push_u16_le, push_u32_le, push_u64_le,
    push_u8, push_zeroes, read_bytes, read_u16_le, read_u32_le, read_u64_le, read_u8, zeroes};
use vstd::bytes::{spec_u16_from_le_bytes, spec_u16_to_le_bytes, spec_u32_from_le_bytes,
    spec_u32_to_le_bytes, spec_u64_from_le_bytes, spec_u64_to_le_bytes};
use vstd::prelude::*;
use vstd::string::StringSliceAdditionalSpecFns;

verus! {

/// Which logical connection a packet belongs to.
#[derive(Debug, Clone, Copy, PartialEq, Eq, Structural)]
pub enum ConnectionType {
    NoConnection,
    Zone,
    Chat,
    Lobby,
}

/// The wire tag of each connection kind.
pub open spec fn spec_connection_type_u16(t: ConnectionType) -> u16 {
    match t {
        ConnectionType::NoConnection => 0,
        ConnectionType::Zone => 1,
        ConnectionType::Chat => 2,
        ConnectionType::Lobby => 3,
    }
}

/// The connection kind a wire tag decodes to, if any.
pub open spec fn spec_connection_type_of_u16(v: u16) -> Option<ConnectionType> {
    if v == 0 {
        Some(ConnectionType::NoConnection)
    } else if v == 1 {
        Some(ConnectionType::Zone)
    } else if v == 2 {
        Some(ConnectionType::Chat)
    } else if v == 3 {
        Some(ConnectionType::Lobby)
    } else {
        None
    }
}

pub fn connection_type_u16(t: ConnectionType) -> (r: u16)
    ensures
        r == spec_connection_type_u16(t),
{
    match t {
        ConnectionType::NoConnection => 0,
        ConnectionType::Zone => 1,
        ConnectionType::Chat => 2,
        ConnectionType::Lobby => 3,
    }
}

pub fn connection_type_of_u16(v: u16) -> (r: Option<ConnectionType>)
    ensures
        r == spec_connection_type_of_u16(v),
{
    if v == 0 {
        Some(ConnectionType::NoConnection)
    } else if v == 1 {
        Some(ConnectionType::Zone)
    } else if v == 2 {
        Some(ConnectionType::Chat)
    } else if v == 3 {
        Some(ConnectionType::Lobby)
    } else {
        None
    }
}

/// How a packet body is compressed. Compression is a pass-through today:
/// packets are written uncompressed, and a nonzero flag on a received
/// packet is not rejected.
#[derive(Debug, Clone, Copy, PartialEq, Eq, Structural)]
pub enum CompressionType {
    Uncompressed,
    ZLib,
    Oodle,
}

/// The kind tag of one segment.
#[derive(Debug, Clone, Copy, PartialEq, Eq, Structural, Default)]
pub enum SegmentType {
    #[default]
    NoSegment,
    Setup,
    Initialize,
    Ipc,
    KeepAliveRequest,
    KeepAliveResponse,
    SecuritySetup,
    SecurityInitialize,
    /// The reserved kind of the internal control-plane carrier.
    KodamaIpc,
}

/// The wire tag of each segment kind.
pub open spec fn spec_segment_type_u16(t: SegmentType) -> u16 {
    match t {
        SegmentType::NoSegment => 0x0,
        SegmentType::Setup => 0x1,
        SegmentType::Initialize => 0x2,
        SegmentType::Ipc => 0x3,
        SegmentType::KeepAliveRequest => 0x7,
        SegmentType::KeepAliveResponse => 0x8,
        SegmentType::SecuritySetup => 0x9,
        SegmentType::SecurityInitialize => 0xA,
        SegmentType::KodamaIpc => 0xAAAA,
    }
}

/// The segment kind a wire tag decodes to, if any.
pub open spec fn spec_segment_type_of_u16(v: u16) -> Option<SegmentType> {
    if v == 0x0 {
        Some(SegmentType::NoSegment)
    } else if v == 0x1 {
        Some(SegmentType::Setup)
    } else if v == 0x2 {
        Some(SegmentType::Initialize)
    } else if v == 0x3 {
        Some(SegmentType::Ipc)
    } else if v == 0x7 {
        Some(SegmentType::KeepAliveRequest)
    } else if v == 0x8 {
        Some(SegmentType::KeepAliveResponse)
    } else if v == 0x9 {
        Some(SegmentType::SecuritySetup)
    } else if v == 0xA {
        Some(SegmentType::SecurityInitialize)
    } else if v == 0xAAAA {
        Some(SegmentType::KodamaIpc)
    } else {
        None
    }
}

pub fn segment_type_u16(t: SegmentType) -> (r: u16)
    ensures
        r == spec_segment_type_u16(t),
{
    match t {
        SegmentType::NoSegment => 0x0,
        SegmentType::Setup => 0x1,
        SegmentType::Initialize => 0x2,
        SegmentType::Ipc => 0x3,
        SegmentType::KeepAliveRequest => 0x7,
        SegmentType::KeepAliveResponse => 0x8,
        SegmentType::SecuritySetup => 0x9,
        SegmentType::SecurityInitialize => 0xA,
        SegmentType::KodamaIpc => 0xAAAA,
    }
}

pub fn segment_type_of_u16(v: u16) -> (r: Option<SegmentType>)
    ensures
        r == spec_segment_type_of_u16(v),
{
    if v == 0x0 {
        Some(SegmentType::NoSegment)
    } else if v == 0x1 {
        Some(SegmentType::Setup)
    } else if v == 0x2 {
        Some(SegmentType::Initialize)
    } else if v == 0x3 {
        Some(SegmentType::Ipc)
    } else if v == 0x7 {
        Some(SegmentType::KeepAliveRequest)
    } else if v == 0x8 {
        Some(SegmentType::KeepAliveResponse)
    } else if v == 0x9 {
        Some(SegmentType::SecuritySetup)
    } else if v == 0xA {
        Some(SegmentType::SecurityInitialize)
    } else if v == 0xAAAA {
        Some(SegmentType::KodamaIpc)
    } else {
        None
    }
}

/// One segment's payload, shaped by the segment kind.
#[derive(Debug, Clone)]
pub enum SegmentData<D> {
    /// An empty segment.
    NoPayload,
    /// The client's session setup: a decimal-string actor id.
    Setup { actor_id: String },
    /// The server's session acknowledgement.
    Initialize { actor_id: u32, timestamp: u32 },
    /// The client's key-exchange request. The phrase is read from the wire
    /// but never re-emitted: encoding writes its field as zeroes.
    SecuritySetup { phrase: String, key: u32 },
    /// An opcode-tagged application message.
    Ipc { data: IpcSegment<D> },
    KeepAliveRequest { id: u32, timestamp: u32 },
    /// The server's key-exchange acknowledgement: an opaque ciphertext blob
    /// of 640 bytes.
    SecurityInitialize { data: Vec<u8> },
    KeepAliveResponse { id: u32, timestamp: u32 },
    /// The internal control-plane carrier; never encrypted.
    KodamaIpc { data: CustomIpcSegment },
}

/// Per-connection packet state: the session key, absent until the handshake
/// completes.
pub struct PacketState {
    pub client_key: Option<[u8; 16]>,
}

/// The key schedule a packet state decrypts and encrypts with, if any.
pub open spec fn spec_state_schedule(state: PacketState) -> Option<Schedule> {
    match state.client_key {
        Some(k) => Some(spec_schedule(k@)),
        None => None,
    }
}

/// An IPC blob with everything after the common IPC header encrypted, when
/// a key is present.
pub open spec fn spec_encrypted_ipc(b: Seq<u8>, key: Option<Schedule>) -> Seq<u8> {
    match key {
        Option::Some(s) => b.take(IPC_HEADER_SIZE as int) + spec_encrypt_bytes(
            s,
            b.skip(IPC_HEADER_SIZE as int),
        ),
        Option::None => b,
    }
}

/// One segment's payload bytes under a session key.
pub open spec fn spec_segment_payload<D: IpcPayloadCodec>(
    d: SegmentData<D>,
    key: Option<Schedule>,
) -> Seq<u8> {
    match d {
        SegmentData::NoPayload => Seq::<u8>::empty(),
        SegmentData::Setup { actor_id } => zeroes(4) + str_field(actor_id@, 36),
        SegmentData::Initialize { actor_id, timestamp } => spec_u32_to_le_bytes(actor_id)
            + spec_u32_to_le_bytes(timestamp) + zeroes(32),
        SegmentData::SecuritySetup { phrase, key: k } => zeroes(36) + zeroes(64)
            + spec_u32_to_le_bytes(k) + zeroes(512),
        SegmentData::Ipc { data } => spec_encrypted_ipc(data.spec_encoded(), key),
        SegmentData::KeepAliveRequest { id, timestamp } => spec_u32_to_le_bytes(id)
            + spec_u32_to_le_bytes(timestamp),
        SegmentData::SecurityInitialize { data } => fit_bytes(data@, 640),
        SegmentData::KeepAliveResponse { id, timestamp } => spec_u32_to_le_bytes(id)
            + spec_u32_to_le_bytes(timestamp),
        SegmentData::KodamaIpc { data } => data.spec_encoded(),
    }
}

/// One segment of a packet body.
#[derive(Debug, Clone)]
pub struct PacketSegment<D> {
    pub segment_type: SegmentType,
    pub source_actor: u32,
    pub target_actor: u32,
    pub data: SegmentData<D>,
}

impl<D: IpcPayloadCodec> PacketSegment<D> {
    /// Whether the segment can be encoded.
    pub open spec fn wf(&self) -> bool {
        match self.data {
            SegmentData::Ipc { data } => data.wf(),
            SegmentData::KodamaIpc { data } => data.wf(),
            _ => true,
        }
    }

    /// Whether the segment can be encrypted if a key is present: the bytes
    /// after an IPC payload's common header must fill whole cipher blocks.
    pub open spec fn cipher_aligned(&self) -> bool {
        match self.data {
            SegmentData::Ipc { data } => (data.spec_encoded().len() - IPC_HEADER_SIZE) % 8 == 0
                && data.spec_encoded().len() >= IPC_HEADER_SIZE,
            _ => true,
        }
    }

    /// The segment's declared size: its 16-byte header plus its payload,
    /// always the exact serialized length, whether or not a key is in use.
    pub open spec fn spec_size(&self) -> nat {
        16 + match self.data {
            SegmentData::NoPayload => 0,
            SegmentData::Setup { .. } => 40,
            SegmentData::Initialize { .. } => 40,
            SegmentData::SecuritySetup { .. } => 616,
            SegmentData::Ipc { data } => data.spec_encoded().len(),
            SegmentData::KeepAliveRequest { .. } => 8,
            SegmentData::SecurityInitialize { .. } => 640,
            SegmentData::KeepAliveResponse { .. } => 8,
            SegmentData::KodamaIpc { data } => data.spec_encoded().len(),
        }
    }

    /// The exact bytes the segment serializes to under a session key: its
    /// size field, kind tag, actor ids, four reserved bytes, then the
    /// payload.
    pub open spec fn spec_encoded(&self, key: Option<Schedule>) -> Seq<u8> {
        spec_u16_to_le_bytes(self.spec_size() as u16) + spec_u16_to_le_bytes(
            spec_segment_type_u16(self.segment_type),
        ) + spec_u32_to_le_bytes(self.source_actor) + spec_u32_to_le_bytes(self.target_actor)
            + zeroes(4) + spec_segment_payload(self.data, key)
    }

    /// The segment's self-reported size.
    pub fn calc_size(&self) -> (r: u32)
        requires
            self.wf(),
        ensures
            r as nat == self.spec_size(),
            r <= 0xFFFF,
    {
        proof {
            vstd::bytes::lemma_auto_spec_u16_to_from_le_bytes();
            vstd::bytes::lemma_auto_spec_u32_to_from_le_bytes();
        }
        16 + match &self.data {
            SegmentData::NoPayload => 0,
            SegmentData::Setup { .. } => 40,
            SegmentData::Initialize { .. } => 40,
            SegmentData::SecuritySetup { .. } => 616,
            SegmentData::Ipc { data } => data.calc_size(),
            SegmentData::KeepAliveRequest { .. } => 8,
            SegmentData::SecurityInitialize { .. } => 640,
            SegmentData::KeepAliveResponse { .. } => 8,
            SegmentData::KodamaIpc { data } => data.calc_size(),
        }
    }

    /// Serializes the segment onto the end of a buffer, encrypting an IPC
    /// payload with the session key when one is present. The serialized
    /// length always equals the declared size.
    #[verifier::rlimit(50)]
    pub fn encode_into(&self, out: &mut Vec<u8>, cipher: &Option<Cipher>)
        requires
            self.wf(),
            cipher is Some ==> self.cipher_aligned() && cipher.unwrap().wf(),
        ensures
            final(out)@ == old(out)@ + self.spec_encoded(spec_cipher_schedule(*cipher)),
            self.spec_encoded(spec_cipher_schedule(*cipher)).len() == self.spec_size(),
    {
        proof {
            broadcast use crate::wire::lemma_fit_bytes_len_auto;

            vstd::bytes::lemma_auto_spec_u16_to_from_le_bytes();
            vstd::bytes::lemma_auto_spec_u32_to_from_le_bytes();
        }
        let size = self.calc_size();
        push_u16_le(out, size as u16);
        push_u16_le(out, segment_type_u16(self.segment_type));
        push_u32_le(out, self.source_actor);
        push_u32_le(out, self.target_actor);
        push_zeroes(out, 4);
        match &self.data {
            SegmentData::NoPayload => {},
            SegmentData::Setup { actor_id } => {
                push_zeroes(out, 4);
                push_str_field(out, actor_id, 36);
            },
            SegmentData::Initialize { actor_id, timestamp } => {
                push_u32_le(out, *actor_id);
                push_u32_le(out, *timestamp);
                push_zeroes(out, 32);
            },
            SegmentData::SecuritySetup { phrase, key } => {
                push_zeroes(out, 36);
                push_zeroes(out, 64);
                push_u32_le(out, *key);
                push_zeroes(out, 512);
            },
            SegmentData::Ipc { data } => {
                let mut blob: Vec<u8> = Vec::new();
                data.encode_into(&mut blob);
                match cipher {
                    Some(c) => {
                        let head = read_bytes(blob.as_slice(), 0, IPC_HEADER_SIZE as usize);
                        let mut tail = read_bytes(
                            blob.as_slice(),
                            IPC_HEADER_SIZE as usize,
                            blob.len() - IPC_HEADER_SIZE as usize,
                        );
                        let res = c.encrypt(&mut tail);
                        proof {
                            assert(res is Ok);
                            crate::blowfish::lemma_enc_bytes_len(c@, blob@.skip(12));
                        }
                        push_bytes(out, head.as_slice());
                        push_bytes(out, tail.as_slice());
                        proof {
                            assert(blob@.take(12) =~= blob@.subrange(0, 12));
                            assert(blob@.skip(12) =~= blob@.subrange(12, blob@.len() as int));
                        }
                    },
                    None => {
                        push_bytes(out, blob.as_slice());
                    },
                }
            },
            SegmentData::KeepAliveRequest { id, timestamp } => {
                push_u32_le(out, *id);
                push_u32_le(out, *timestamp);
            },
            SegmentData::SecurityInitialize { data } => {
                push_fit_bytes(out, data.as_slice(), 640);
            },
            SegmentData::KeepAliveResponse { id, timestamp } => {
                push_u32_le(out, *id);
                push_u32_le(out, *timestamp);
            },
            SegmentData::KodamaIpc { data } => {
                data.encode_into(out);
            },
        }
        proof {
            assert(final(out)@ =~= old(out)@ + self.spec_encoded(spec_cipher_schedule(*cipher)));
        }
    }
}

impl<D: IpcPayloadCodec> Default for SegmentData<D> {
    /// The empty segment payload.
    fn default() -> (r: Self)
        ensures
            r is NoPayload,
    {
        SegmentData::NoPayload
    }
}

impl<D: IpcPayloadCodec> Default for PacketSegment<D> {
    /// An empty segment addressed from and to no actor.
    fn default() -> (r: Self)
        ensures
            r.segment_type == SegmentType::NoSegment,
            r.source_actor == 0,
            r.target_actor == 0,
            r.data is NoPayload,
            r.wf(),
            r.cipher_aligned(),
    {
        PacketSegment {
            segment_type: SegmentType::NoSegment,
            source_actor: 0,
            target_actor: 0,
            data: SegmentData::NoPayload,
        }
    }
}

/// The key schedule of an optional live cipher.
pub open spec fn spec_cipher_schedule(c: Option<Cipher>) -> Option<Schedule> {
    match c {
        Option::Some(c) => Some(c@),
        Option::None => None,
    }
}

/// The 16-byte packet header: an authenticated flag, a compression flag,
/// the connection kind, the total size (header included), the number of
/// segments, and a millisecond timestamp.
#[derive(Debug, Clone, Copy, PartialEq, Eq, Structural)]
pub struct PacketHeader {
    pub is_authenticated: u8,
    pub compressed_or_encoded: u8,
    pub connection_type: ConnectionType,
    pub size: u16,
    pub segment_count: u16,
    pub timestamp: u64,
}

impl PacketHeader {
    /// The exact 16 header bytes.
    pub open spec fn spec_encoded(&self) -> Seq<u8> {
        seq![self.is_authenticated, self.compressed_or_encoded] + spec_u16_to_le_bytes(
            spec_connection_type_u16(self.connection_type),
        ) + spec_u16_to_le_bytes(self.size) + spec_u16_to_le_bytes(self.segment_count)
            + spec_u64_to_le_bytes(self.timestamp)
    }

    /// Whether this header is what the first 16 bytes decode to.
    pub open spec fn is_decode_of(&self, b: Seq<u8>) -> bool {
        &&& b.len() >= 16
        &&& self.is_authenticated == b[0]
        &&& self.compressed_or_encoded == b[1]
        &&& Some(self.connection_type) == spec_connection_type_of_u16(
            spec_u16_from_le_bytes(b.subrange(2, 4)),
        )
        &&& self.size == spec_u16_from_le_bytes(b.subrange(4, 6))
        &&& self.segment_count == spec_u16_from_le_bytes(b.subrange(6, 8))
        &&& self.timestamp == spec_u64_from_le_bytes(b.subrange(8, 16))
    }

    /// Serializes the header onto the end of a buffer.
    pub fn encode_into(&self, out: &mut Vec<u8>)
        ensures
            final(out)@ == old(out)@ + self.spec_encoded(),
            self.spec_encoded().len() == 16,
    {
        proof {
            vstd::bytes::lemma_auto_spec_u16_to_from_le_bytes();
            vstd::bytes::lemma_auto_spec_u64_to_from_le_bytes();
        }
        push_u8(out, self.is_authenticated);
        push_u8(out, self.compressed_or_encoded);
        push_u16_le(out, connection_type_u16(self.connection_type));
        push_u16_le(out, self.size);
        push_u16_le(out, self.segment_count);
        push_u64_le(out, self.timestamp);
        proof {
            assert(final(out)@ =~= old(out)@ + self.spec_encoded());
        }
    }

    /// Decodes a header from the first 16 bytes of a buffer; fails exactly
    /// on an unknown connection kind.
    pub fn decode(b: &[u8]) -> (r: Option<Self>)
        requires
            b@.len() >= 16,
        ensures
            r is Some <==> spec_connection_type_of_u16(
                spec_u16_from_le_bytes(b@.subrange(2, 4)),
            ) is Some,
            r is Some ==> r.unwrap().is_decode_of(b@),
    {
        let is_authenticated = read_u8(b, 0);
        let compressed_or_encoded = read_u8(b, 1);
        let connection_type = match connection_type_of_u16(read_u16_le(b, 2)) {
            Some(t) => t,
            None => {
                return None;
            },
        };
        let size = read_u16_le(b, 4);
        let segment_count = read_u16_le(b, 6);
        let timestamp = read_u64_le(b, 8);
        Some(
            PacketHeader {
                is_authenticated,
                compressed_or_encoded,
                connection_type,
                size,
                segment_count,
                timestamp,
            },
        )
    }
}

/// Whether one segment span (its header and declared payload) decodes under
/// a session key.
pub open spec fn seg_decode_ok<D: IpcPayloadCodec>(b: Seq<u8>, key: Option<Schedule>) -> bool {
    &&& b.len() >= 16
    &&& match spec_segment_type_of_u16(spec_u16_from_le_bytes(b.subrange(2, 4))) {
        Option::Some(t) => match t {
            SegmentType::NoSegment => b.len() == 16,
            SegmentType::Setup => b.len() == 56,
            SegmentType::Initialize => b.len() == 56,
            SegmentType::SecuritySetup => b.len() == 632,
            SegmentType::SecurityInitialize => b.len() == 656,
            SegmentType::KeepAliveRequest => b.len() == 24,
            SegmentType::KeepAliveResponse => b.len() == 24,
            SegmentType::Ipc => {
                &&& b.len() >= 28
                &&& match key {
                    Option::Some(s) => (b.len() - 28) % 8 == 0
                        && IpcSegment::<D>::decode_ok(spec_plain_ipc(b, key)),
                    Option::None => IpcSegment::<D>::decode_ok(b.skip(16)),
                }
            },
            SegmentType::KodamaIpc => b.len() >= 28 && CustomIpcSegment::decode_ok(b.skip(16)),
        },
        Option::None => false,
    }
}

/// The plaintext IPC blob inside one segment span: the common IPC header in
/// the clear, the rest decrypted when a key is present.
pub open spec fn spec_plain_ipc(b: Seq<u8>, key: Option<Schedule>) -> Seq<u8> {
    match key {
        Option::Some(s) => b.subrange(16, 28) + spec_decrypt_bytes(s, b.skip(28)),
        Option::None => b.skip(16),
    }
}

/// Whether a segment is the decoding of one segment span under a key.
pub open spec fn is_seg_decode_of<D: IpcPayloadCodec>(
    seg: PacketSegment<D>,
    b: Seq<u8>,
    key: Option<Schedule>,
) -> bool {
    &&& b.len() >= 16
    &&& Some(seg.segment_type) == spec_segment_type_of_u16(
        spec_u16_from_le_bytes(b.subrange(2, 4)),
    )
    &&& seg.source_actor == spec_u32_from_le_bytes(b.subrange(4, 8))
    &&& seg.target_actor == spec_u32_from_le_bytes(b.subrange(8, 12))
    &&& match seg.data {
        SegmentData::NoPayload => seg.segment_type == SegmentType::NoSegment,
        SegmentData::Setup { actor_id } => seg.segment_type == SegmentType::Setup && actor_id@
            == spec_read_str(b, 20, 36),
        SegmentData::Initialize { actor_id, timestamp } => {
            &&& seg.segment_type == SegmentType::Initialize
            &&& actor_id == spec_u32_from_le_bytes(b.subrange(16, 20))
            &&& timestamp == spec_u32_from_le_bytes(b.subrange(20, 24))
        },
        SegmentData::SecuritySetup { phrase, key: k } => {
            &&& seg.segment_type == SegmentType::SecuritySetup
            &&& phrase@ == spec_read_str(b, 52, 64)
            &&& k == spec_u32_from_le_bytes(b.subrange(116, 120))
        },
        SegmentData::Ipc { data } => seg.segment_type == SegmentType::Ipc && data.is_decode_of(
            spec_plain_ipc(b, key),
        ),
        SegmentData::KeepAliveRequest { id, timestamp } => {
            &&& seg.segment_type == SegmentType::KeepAliveRequest
            &&& id == spec_u32_from_le_bytes(b.subrange(16, 20))
            &&& timestamp == spec_u32_from_le_bytes(b.subrange(20, 24))
        },
        SegmentData::SecurityInitialize { data } => seg.segment_type
            == SegmentType::SecurityInitialize && data@ == b.subrange(16, 656),
        SegmentData::KeepAliveResponse { id, timestamp } => {
            &&& seg.segment_type == SegmentType::KeepAliveResponse
            &&& id == spec_u32_from_le_bytes(b.subrange(16, 20))
            &&& timestamp == spec_u32_from_le_bytes(b.subrange(20, 24))
        },
        SegmentData::KodamaIpc { data } => seg.segment_type == SegmentType::KodamaIpc
            && data.is_decode_of(b.skip(16)),
    }
}

/// Decodes one segment whose span is `b`; fails exactly when the span does
/// not decode under the key.
fn decode_segment<D: IpcPayloadCodec>(b: &[u8], cipher: &Option<Cipher>) -> (r: Option<
    PacketSegment<D>,
>)
    requires
        cipher is Some ==> cipher.unwrap().wf(),
    ensures
        r is Some <==> seg_decode_ok::<D>(b@, spec_cipher_schedule(*cipher)),
        r is Some ==> is_seg_decode_of(r.unwrap(), b@, spec_cipher_schedule(*cipher))
            && r.unwrap().wf(),
{
    let n = b.len();
    if n < 16 {
        return None;
    }
    let type_tag = read_u16_le(b, 2);
    let segment_type = match segment_type_of_u16(type_tag) {
        Some(t) => t,
        None => {
            return None;
        },
    };
    let source_actor = read_u32_le(b, 4);
    let target_actor = read_u32_le(b, 8);
    let data: SegmentData<D> = match segment_type {
        SegmentType::NoSegment => {
            if n != 16 {
                return None;
            }
            SegmentData::NoPayload
        },
        SegmentType::Setup => {
            if n != 56 {
                return None;
            }
            SegmentData::Setup { actor_id: read_str_field(b, 20, 36) }
        },
        SegmentType::Initialize => {
            if n != 56 {
                return None;
            }
            SegmentData::Initialize {
                actor_id: read_u32_le(b, 16),
                timestamp: read_u32_le(b, 20),
            }
        },
        SegmentType::SecuritySetup => {
            if n != 632 {
                return None;
            }
            SegmentData::SecuritySetup {
                phrase: read_str_field(b, 52, 64),
                key: read_u32_le(b, 116),
            }
        },
        SegmentType::SecurityInitialize => {
            if n != 656 {
                return None;
            }
            SegmentData::SecurityInitialize { data: read_bytes(b, 16, 640) }
        },
        SegmentType::KeepAliveRequest => {
            if n != 24 {
                return None;
            }
            SegmentData::KeepAliveRequest {
                id: read_u32_le(b, 16),
                timestamp: read_u32_le(b, 20),
            }
        },
        SegmentType::KeepAliveResponse => {
            if n != 24 {
                return None;
            }
            SegmentData::KeepAliveResponse {
                id: read_u32_le(b, 16),
                timestamp: read_u32_le(b, 20),
            }
        },
        SegmentType::Ipc => {
            if n < 28 {
                return None;
            }
            let ipc = match cipher {
                Some(c) => {
                    if (n - 28) % 8 != 0 {
                        return None;
                    }
                    let mut plain = read_bytes(b, 16, 12);
                    let mut tail = read_bytes(b, 28, n - 28);
                    let res = c.decrypt(&mut tail);
                    proof {
                        assert(res is Ok);
                    }
                    plain.append(&mut tail);
                    proof {
                        assert(plain@ =~= spec_plain_ipc(
                            b@,
                            spec_cipher_schedule(*cipher),
                        ));
                    }
                    IpcSegment::<D>::decode(plain.as_slice())
                },
                None => {
                    let plain = read_bytes(b, 16, n - 16);
                    proof {
                        assert(plain@ =~= b@.skip(16));
                    }
                    IpcSegment::<D>::decode(plain.as_slice())
                },
            };
            match ipc {
                Some(data) => SegmentData::Ipc { data },
                None => {
                    return None;
                },
            }
        },
        SegmentType::KodamaIpc => {
            if n < 28 {
                return None;
            }
            let blob = read_bytes(b, 16, n - 16);
            proof {
                assert(blob@ =~= b@.skip(16));
            }
            match CustomIpcSegment::decode(blob.as_slice()) {
                Some(data) => SegmentData::KodamaIpc { data },
                None => {
                    return None;
                },
            }
        },
    };
    Some(PacketSegment { segment_type, source_actor, target_actor, data })
}

/// Whether `count` segments decode one after another from `pos` in a packet
/// body, each span bounded by its own size field.
pub open spec fn segs_decode_ok<D: IpcPayloadCodec>(
    b: Seq<u8>,
    pos: int,
    count: nat,
    key: Option<Schedule>,
) -> bool
    decreases count,
{
    if count == 0 {
        true
    } else {
        let size = spec_u16_from_le_bytes(b.subrange(pos, pos + 2)) as int;
        &&& 0 <= pos
        &&& pos + 16 <= b.len()
        &&& size >= 16
        &&& pos + size <= b.len()
        &&& seg_decode_ok::<D>(b.subrange(pos, pos + size), key)
        &&& segs_decode_ok::<D>(b, pos + size, (count - 1) as nat, key)
    }
}

/// Whether a segment list is the decoding of `count` consecutive segments
/// from `pos`.
pub open spec fn is_segs_decode_of<D: IpcPayloadCodec>(
    segs: Seq<PacketSegment<D>>,
    b: Seq<u8>,
    pos: int,
    count: nat,
    key: Option<Schedule>,
) -> bool
    decreases count,
{
    if count == 0 {
        segs.len() == 0
    } else {
        let size = spec_u16_from_le_bytes(b.subrange(pos, pos + 2)) as int;
        &&& segs.len() >= 1
        &&& is_seg_decode_of(segs[0], b.subrange(pos, pos + size), key)
        &&& is_segs_decode_of(segs.skip(1), b, pos + size, (count - 1) as nat, key)
    }
}

/// Decodes `count` consecutive segments from `pos`; fails exactly when any
/// of them fails.
fn decode_segments<D: IpcPayloadCodec>(
    b: &[u8],
    pos: usize,
    count: u16,
    cipher: &Option<Cipher>,
) -> (r: Option<Vec<PacketSegment<D>>>)
    requires
        pos <= b@.len(),
        cipher is Some ==> cipher.unwrap().wf(),
    ensures
        r is Some <==> segs_decode_ok::<D>(b@, pos as int, count as nat, spec_cipher_schedule(
            *cipher,
        )),
        r is Some ==> is_segs_decode_of(
            r.unwrap()@,
            b@,
            pos as int,
            count as nat,
            spec_cipher_schedule(*cipher),
        ) && r.unwrap()@.len() == count,
    decreases count,
{
    if count == 0 {
        let empty: Vec<PacketSegment<D>> = Vec::new();
        return Some(empty);
    }
    let n = b.len();
    if n - pos < 16 {
        return None;
    }
    let size = read_u16_le(b, pos) as usize;
    if size < 16 || size > n - pos {
        return None;
    }
    let span = vstd::slice::slice_subrange(b, pos, pos + size);
    proof {
        assert(span@ =~= b@.subrange(pos as int, pos as int + size as int));
    }
    let seg = match decode_segment::<D>(span, cipher) {
        Some(s) => s,
        None => {
            return None;
        },
    };
    match decode_segments::<D>(b, pos + size, count - 1, cipher) {
        Some(mut rest) => {
            let ghost prev = rest@;
            rest.insert(0, seg);
            proof {
                assert(rest@.skip(1) =~= prev);
            }
            Some(rest)
        },
        None => None,
    }
}

/// Whether a whole packet buffer decodes under a key: its header parses,
/// its declared size fits the buffer, and its declared number of segments
/// decode from its body.
pub open spec fn packet_decode_ok<D: IpcPayloadCodec>(b: Seq<u8>, key: Option<Schedule>) -> bool {
    &&& b.len() >= 16
    &&& spec_connection_type_of_u16(spec_u16_from_le_bytes(b.subrange(2, 4))) is Some
    &&& spec_u16_from_le_bytes(b.subrange(4, 6)) >= 16
    &&& spec_u16_from_le_bytes(b.subrange(4, 6)) <= b.len()
    &&& segs_decode_ok::<D>(
        b.subrange(16, spec_u16_from_le_bytes(b.subrange(4, 6)) as int),
        0,
        spec_u16_from_le_bytes(b.subrange(6, 8)) as nat,
        key,
    )
}

/// Parses a whole received packet into its segments and connection kind.
/// On any hard parse error it returns an empty segment list and the "none"
/// connection kind, so the caller's read loop can safely continue.
pub fn parse_packet<D: IpcPayloadCodec>(data: &[u8], state: &mut PacketState) -> (r: (
    Vec<PacketSegment<D>>,
    ConnectionType,
))
    ensures
        *final(state) == *old(state),
        packet_decode_ok::<D>(data@, spec_state_schedule(*old(state))) ==> {
            &&& Some(r.1) == spec_connection_type_of_u16(
                spec_u16_from_le_bytes(data@.subrange(2, 4)),
            )
            &&& is_segs_decode_of(
                r.0@,
                data@.subrange(16, spec_u16_from_le_bytes(data@.subrange(4, 6)) as int),
                0,
                spec_u16_from_le_bytes(data@.subrange(6, 8)) as nat,
                spec_state_schedule(*old(state)),
            )
            &&& r.0@.len() == spec_u16_from_le_bytes(data@.subrange(6, 8))
        },
        !packet_decode_ok::<D>(data@, spec_state_schedule(*old(state))) ==> r.0@.len() == 0 && r.1
            == ConnectionType::NoConnection,
{
    let n = data.len();
    if n < 16 {
        return (Vec::new(), ConnectionType::NoConnection);
    }
    let header = match PacketHeader::decode(data) {
        Some(h) => h,
        None => {
            return (Vec::new(), ConnectionType::NoConnection);
        },
    };
    let size = header.size as usize;
    if size < 16 || size > n {
        return (Vec::new(), ConnectionType::NoConnection);
    }
    let cipher: Option<Cipher> = match &state.client_key {
        Some(k) => Some(Cipher::new(k.as_slice())),
        None => None,
    };
    let body = vstd::slice::slice_subrange(data, 16, size);
    proof {
        assert(body@ =~= data@.subrange(16, size as int));
    }
    match decode_segments::<D>(body, 0, header.segment_count, &cipher) {
        Some(segments) => (segments, header.connection_type),
        None => (Vec::new(), ConnectionType::NoConnection),
    }
}

/// The concatenated encodings of a packet's segments under a key.
pub open spec fn spec_segments_bytes<D: IpcPayloadCodec>(
    segs: Seq<PacketSegment<D>>,
    key: Option<Schedule>,
) -> Seq<u8> {
    segs.fold_left(Seq::<u8>::empty(), |acc: Seq<u8>, s: PacketSegment<D>| acc + s.spec_encoded(key))
}

/// The summed declared sizes of a packet's segments.
pub open spec fn spec_segments_size<D: IpcPayloadCodec>(segs: Seq<PacketSegment<D>>) -> nat
    decreases segs.len(),
{
    if segs.len() == 0 {
        0
    } else {
        spec_segments_size(segs.drop_last()) + segs.last().spec_size()
    }
}

/// Serializes a whole packet: every segment, encrypted as the session key
/// demands, behind a header whose size and segment count are computed from
/// what was actually written, never pre-declared.
pub fn build_packet<D: IpcPayloadCodec>(
    state: &PacketState,
    connection_type: ConnectionType,
    compression_type: CompressionType,
    segments: &Vec<PacketSegment<D>>,
    timestamp: u64,
) -> (r: Vec<u8>)
    requires
        forall|i: int|
            0 <= i < segments@.len() ==> (#[trigger] segments@[i]).wf() && (
            state.client_key is Some ==> segments@[i].cipher_aligned()),
        16 + spec_segments_size(segments@) <= 0xFFFF,
        segments@.len() <= 0xFFFF,
    ensures
        r@ == (PacketHeader {
            is_authenticated: 0,
            compressed_or_encoded: 0,
            connection_type,
            size: (16 + spec_segments_size(segments@)) as u16,
            segment_count: segments@.len() as u16,
            timestamp,
        }).spec_encoded() + spec_segments_bytes(segments@, spec_state_schedule(*state)),
        r@.len() == 16 + spec_segments_size(segments@),
{
    proof {
        vstd::bytes::lemma_auto_spec_u16_to_from_le_bytes();
        vstd::bytes::lemma_auto_spec_u64_to_from_le_bytes();
    }
    let cipher: Option<Cipher> = match &state.client_key {
        Some(k) => Some(Cipher::new(k.as_slice())),
        None => None,
    };
    let mut body: Vec<u8> = Vec::new();
    let mut i: usize = 0;
    while i < segments.len()
        invariant
            i <= segments@.len(),
            forall|j: int|
                0 <= j < segments@.len() ==> (#[trigger] segments@[j]).wf() && (
                state.client_key is Some ==> segments@[j].cipher_aligned()),
            16 + spec_segments_size(segments@) <= 0xFFFF,
            cipher is Some <==> state.client_key is Some,
            cipher is Some ==> cipher.unwrap().wf(),
            spec_cipher_schedule(cipher) == spec_state_schedule(*state),
            body@ == spec_segments_bytes(segments@.take(i as int), spec_state_schedule(*state)),
            body@.len() == spec_segments_size(segments@.take(i as int)),
        decreases segments@.len() - i,
    {
        segments[i].encode_into(&mut body, &cipher);
        proof {
            assert(segments@.take(i + 1).drop_last() =~= segments@.take(i as int));
            assert(segments@.take(i + 1).last() == segments@[i as int]);
            lemma_segments_size_monotone(segments@, (i + 1) as int);
        }
        i = i + 1;
    }
    proof {
        assert(segments@.take(segments@.len() as int) =~= segments@);
    }
    let header = PacketHeader {
        is_authenticated: 0,
        compressed_or_encoded: 0,
        connection_type,
        size: (16 + body.len()) as u16,
        segment_count: segments.len() as u16,
        timestamp,
    };
    let mut out: Vec<u8> = Vec::new();
    header.encode_into(&mut out);
    push_bytes(&mut out, body.as_slice());
    out
}

/// The summed size of a prefix of segments never exceeds the whole sum.
proof fn lemma_segments_size_monotone<D: IpcPayloadCodec>(segs: Seq<PacketSegment<D>>, i: int)
    requires
        0 <= i <= segs.len(),
    ensures
        spec_segments_size(segs.take(i)) <= spec_segments_size(segs),
    decreases segs.len() - i,
{
    if i == segs.len() {
        assert(segs.take(i) =~= segs);
    } else {
        lemma_segments_size_monotone(segs, i + 1);
        assert(segs.take(i + 1).drop_last() =~= segs.take(i));
        assert(spec_segments_size(segs.take(i + 1)) == spec_segments_size(segs.take(i))
            + segs.take(i + 1).last().spec_size());
    }
}

} // verus!
