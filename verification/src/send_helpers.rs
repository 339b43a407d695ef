//! The verified halves of the packet send helpers: building the keep-alive
//! reply, framing an internal control-plane call, and extracting the reply's
//! first control-plane segment. The sockets around them live outside the
//! library.
use crate::ipc::IpcPayloadCodec;
use crate::ipc_custom::{CustomIpcData, CustomIpcSegment};
use crate::parsing::{PacketSegment, SegmentData, SegmentType};
use vstd::prelude::*;

verus! {

/// The keep-alive reply to a keep-alive request, echoing its id and
/// timestamp.
pub fn keep_alive_response_segment<D: IpcPayloadCodec>(id: u32, timestamp: u32) -> (r:
    PacketSegment<D>)
    ensures
        r.segment_type == SegmentType::KeepAliveResponse,
        r.source_actor == 0,
        r.target_actor == 0,
        r.wf(),
        r.cipher_aligned(),
        r.data == (SegmentData::<D>::KeepAliveResponse { id, timestamp }),
{
    PacketSegment {
        segment_type: SegmentType::KeepAliveResponse,
        source_actor: 0,
        target_actor: 0,
        data: SegmentData::KeepAliveResponse { id, timestamp },
    }
}

/// The id the server's own keep-alive requests carry.
pub const SERVER_KEEP_ALIVE_ID: u32 = 0xE0037603;

/// The keep-alive request the world server sends a client that is
/// initializing its zone session.
pub fn initial_keep_alive_segment<D: IpcPayloadCodec>(timestamp: u32) -> (r: PacketSegment<D>)
    ensures
        r.segment_type == SegmentType::KeepAliveRequest,
        r.wf(),
        r.cipher_aligned(),
        r.data == (SegmentData::<D>::KeepAliveRequest { id: SERVER_KEEP_ALIVE_ID, timestamp }),
{
    PacketSegment {
        segment_type: SegmentType::KeepAliveRequest,
        source_actor: 0,
        target_actor: 0,
        data: SegmentData::KeepAliveRequest { id: SERVER_KEEP_ALIVE_ID, timestamp },
    }
}

/// Wraps one control-plane segment for the internal unary RPC: one segment
/// of the reserved internal kind, addressed from and to no actor.
pub fn custom_ipc_packet_segment(segment: CustomIpcSegment) -> (r: PacketSegment<CustomIpcData>)
    requires
        segment.wf(),
    ensures
        r.segment_type == SegmentType::KodamaIpc,
        r.source_actor == 0,
        r.target_actor == 0,
        r.wf(),
        r.cipher_aligned(),
        r.data matches SegmentData::KodamaIpc { data } && data == segment,
{
    PacketSegment {
        segment_type: SegmentType::KodamaIpc,
        source_actor: 0,
        target_actor: 0,
        data: SegmentData::KodamaIpc { data: segment },
    }
}

/// The internal RPC's view of a reply packet: the first segment's
/// control-plane payload, or nothing when the reply holds none.
pub fn first_custom_ipc(mut segments: Vec<PacketSegment<CustomIpcData>>) -> (r: Option<
    CustomIpcSegment,
>)
    ensures
        r is Some <==> (segments@.len() > 0 && segments@[0].data matches SegmentData::KodamaIpc {
            ..
        }),
        r is Some ==> (segments@[0].data matches SegmentData::KodamaIpc { data } && r.unwrap()
            == data),
{
    if segments.len() == 0 {
        return None;
    }
    let first = segments.remove(0);
    match first.data {
        SegmentData::KodamaIpc { data } => Some(data),
        _ => None,
    }
}

} // verus!
