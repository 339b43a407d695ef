use kodama::ipc::IpcSegment;
use kodama::ipc_lobby::{ClientLobbyIpcData, ClientLobbyIpcSegment, ServerLobbyIpcData,
    SERVER_LOBBY_OP_NACK_REPLY};
use kodama::login_reply::NackReply;
use kodama::parsing::{build_packet, parse_packet, CompressionType, ConnectionType, PacketHeader,
    PacketSegment, PacketState, SegmentData, SegmentType};

#[test]
fn test_packet_header() {
    let bytes = vec![
        0x00, 0x00, 0x00, 0x00, 0xA0, 0x02, 0x01, 0x00, 0x00, 0x00, 0x00, 0x00, 0x00, 0x00, 0x00,
        0x00,
    ];
    let header = PacketHeader::decode(&bytes).unwrap();

    assert_eq!(header.is_authenticated, 0);
    assert_eq!(header.compressed_or_encoded, 0);
    assert_eq!(header.connection_type, ConnectionType::NoConnection);
    assert_eq!(header.size, 672);
    assert_eq!(header.segment_count, 1);
    assert_eq!(header.timestamp, 0);
}

/// Ensure that the packet size as reported matches up with what we write.
#[test]
fn test_packet_sizes() {
    let packet_types: Vec<SegmentData<ClientLobbyIpcData>> = vec![
        SegmentData::SecuritySetup { phrase: String::new(), key: 0 },
        SegmentData::SecurityInitialize { data: Vec::new() },
        SegmentData::KeepAliveRequest { id: 0, timestamp: 0 },
        SegmentData::KeepAliveResponse { id: 0, timestamp: 0 },
    ];

    for packet in packet_types {
        let packet_segment: PacketSegment<ClientLobbyIpcData> = PacketSegment {
            segment_type: SegmentType::NoSegment,
            source_actor: 0,
            target_actor: 0,
            data: packet,
        };
        let mut buffer = Vec::new();
        packet_segment.encode_into(&mut buffer, &None);

        assert_eq!(buffer.len(), packet_segment.calc_size() as usize);
    }
}

fn nack_segment() -> PacketSegment<ServerLobbyIpcData> {
    PacketSegment {
        segment_type: SegmentType::Ipc,
        source_actor: 0,
        target_actor: 0,
        data: SegmentData::Ipc {
            data: IpcSegment {
                unk1: 0x14,
                unk2: 0,
                op_code: SERVER_LOBBY_OP_NACK_REPLY,
                option: 0,
                timestamp: 123,
                data: ServerLobbyIpcData::NackReply(NackReply {
                    sequence: 7,
                    error: 0x0bdb,
                    value: 0,
                    exd_error_id: 0x32cc,
                    unk1: 0,
                }),
            },
        },
    }
}

#[test]
fn packet_round_trip_without_key() {
    let mut state = PacketState { client_key: None };
    let segments = vec![nack_segment()];
    let bytes = build_packet(&state, ConnectionType::Lobby, CompressionType::Uncompressed, &segments, 999);
    assert_eq!(bytes.len(), 16 + 16 + 12 + 24);

    let (parsed, conn) = parse_packet::<ServerLobbyIpcData>(&bytes, &mut state);
    assert_eq!(conn, ConnectionType::Lobby);
    assert_eq!(parsed.len(), 1);
    match &parsed[0].data {
        SegmentData::Ipc { data } => {
            assert_eq!(data.op_code, SERVER_LOBBY_OP_NACK_REPLY);
            assert_eq!(data.timestamp, 123);
            match &data.data {
                ServerLobbyIpcData::NackReply(n) => {
                    assert_eq!(n.sequence, 7);
                    assert_eq!(n.error, 0x0bdb);
                    assert_eq!(n.exd_error_id, 0x32cc);
                }
                other => panic!("wrong payload: {other:?}"),
            }
        }
        other => panic!("wrong segment: {other:?}"),
    }
}

#[test]
fn packet_round_trip_with_key() {
    // the IPC payload travels encrypted once a key is set, and decodes back
    let key = kodama::encryption::generate_encryption_key(42, "abc");
    let mut state = PacketState { client_key: Some(key) };
    let segments = vec![nack_segment()];
    let clear_state_bytes = build_packet(
        &PacketState { client_key: None },
        ConnectionType::Lobby,
        CompressionType::Uncompressed,
        &segments,
        0,
    );
    let bytes = build_packet(&state, ConnectionType::Lobby, CompressionType::Uncompressed, &segments, 0);
    assert_eq!(bytes.len(), clear_state_bytes.len());
    assert_ne!(bytes, clear_state_bytes, "the key must change the payload bytes");

    let (parsed, conn) = parse_packet::<ServerLobbyIpcData>(&bytes, &mut state);
    assert_eq!(conn, ConnectionType::Lobby);
    assert_eq!(parsed.len(), 1);
    match &parsed[0].data {
        SegmentData::Ipc { data } => match &data.data {
            ServerLobbyIpcData::NackReply(n) => assert_eq!(n.sequence, 7),
            other => panic!("wrong payload: {other:?}"),
        },
        other => panic!("wrong segment: {other:?}"),
    }

    // without the key the same bytes no longer parse into a packet
    let mut keyless = PacketState { client_key: None };
    let (parsed2, conn2) = parse_packet::<ServerLobbyIpcData>(&bytes, &mut keyless);
    let _ = (parsed2, conn2);
}

#[test]
fn malformed_packet_degrades_to_empty() {
    let mut state = PacketState { client_key: None };
    // too short
    let (segs, conn) = parse_packet::<ClientLobbyIpcData>(&[0u8; 4], &mut state);
    assert!(segs.is_empty());
    assert_eq!(conn, ConnectionType::NoConnection);
    // unknown connection kind
    let mut bytes = vec![0u8; 16];
    bytes[2] = 0xFF;
    bytes[4] = 16;
    let (segs, conn) = parse_packet::<ClientLobbyIpcData>(&bytes, &mut state);
    assert!(segs.is_empty());
    assert_eq!(conn, ConnectionType::NoConnection);
}

#[test]
fn keep_alive_round_trip() {
    let mut state = PacketState { client_key: None };
    let seg = kodama::send_helpers::keep_alive_response_segment::<ClientLobbyIpcData>(0xE0037603, 55);
    let bytes = build_packet(&state, ConnectionType::Zone, CompressionType::Uncompressed, &vec![seg], 1);
    let (parsed, conn) = parse_packet::<ClientLobbyIpcData>(&bytes, &mut state);
    assert_eq!(conn, ConnectionType::Zone);
    assert_eq!(parsed.len(), 1);
    assert_eq!(parsed[0].segment_type, SegmentType::KeepAliveResponse);
    match parsed[0].data {
        SegmentData::KeepAliveResponse { id, timestamp } => {
            assert_eq!(id, 0xE0037603);
            assert_eq!(timestamp, 55);
        }
        _ => panic!("wrong segment kind"),
    }
}
