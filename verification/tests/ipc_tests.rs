use kodama::chara_make::{CharaMake, LobbyCharacterActionKind};
use kodama::ipc::{IpcPayloadCodec, IpcSegment, IPC_HEADER_SIZE};
use kodama::ipc_lobby::{ClientLobbyIpcData, ClientLobbyIpcSegment, ServerLobbyIpcData,
    ServerLobbyIpcSegment, CLIENT_LOBBY_OP_CHARA_MAKE, CLIENT_LOBBY_OP_GAME_LOGIN,
    CLIENT_LOBBY_OP_LOGIN_EX, CLIENT_LOBBY_OP_SERVICE_LOGIN, SERVER_LOBBY_OP_CHARA_MAKE_REPLY,
    SERVER_LOBBY_OP_DIST_RETAINER_INFO, SERVER_LOBBY_OP_DIST_WORLD_INFO,
    SERVER_LOBBY_OP_GAME_LOGIN_REPLY, SERVER_LOBBY_OP_LOGIN_REPLY, SERVER_LOBBY_OP_NACK_REPLY,
    SERVER_LOBBY_OP_SERVICE_LOGIN_REPLY};
use kodama::ipc_zone::{ClientZoneIpcData, ServerZoneIpcData};
use kodama::login_reply::{DistRetainerInfo, LoginReply, NackReply};
use kodama::server_list::DistWorldInfo;
use kodama::service_login_reply::ServiceLoginReply;

/// Ensure that the IPC data size as reported matches up with what we write.
#[test]
fn server_lobby_ipc_sizes() {
    let ipc_types: Vec<(u16, ServerLobbyIpcData)> = vec![
        (
            SERVER_LOBBY_OP_NACK_REPLY,
            ServerLobbyIpcData::NackReply(NackReply::default()),
        ),
        (
            SERVER_LOBBY_OP_LOGIN_REPLY,
            ServerLobbyIpcData::LoginReply(LoginReply {
                sequence: 0,
                num_service_accounts: 0,
                unk1: 0,
                unk2: 0,
                service_accounts: Vec::new(),
            }),
        ),
        (
            SERVER_LOBBY_OP_SERVICE_LOGIN_REPLY,
            ServerLobbyIpcData::ServiceLoginReply(ServiceLoginReply {
                sequence: 0,
                counter: 0,
                num_in_packet: 0,
                unk1: 0,
                unk3: 0,
                characters: Vec::new(),
            }),
        ),
        (
            SERVER_LOBBY_OP_CHARA_MAKE_REPLY,
            ServerLobbyIpcData::CharaMakeReply {
                sequence: 0,
                unk1: 0,
                unk2: 0,
                action: LobbyCharacterActionKind::ReserveName,
                player_id: 0,
                unk3: 0,
                ticket: 0,
                character_name: String::default(),
                server_name: String::default(),
            },
        ),
        (
            SERVER_LOBBY_OP_GAME_LOGIN_REPLY,
            ServerLobbyIpcData::GameLoginReply {
                sequence: 0,
                actor_id: 0,
                content_id: 0,
                token: String::new(),
                port: 0,
                host: String::new(),
            },
        ),
        (
            SERVER_LOBBY_OP_DIST_WORLD_INFO,
            ServerLobbyIpcData::DistWorldInfo(DistWorldInfo {
                sequence: 0,
                offset: 0,
                num_servers: 0,
                servers: Vec::new(),
            }),
        ),
        (
            SERVER_LOBBY_OP_DIST_RETAINER_INFO,
            ServerLobbyIpcData::DistRetainerInfo(DistRetainerInfo::default()),
        ),
    ];

    for (opcode, ipc) in ipc_types {
        let ipc_segment = ServerLobbyIpcSegment {
            unk1: 0,
            unk2: 0,
            op_code: opcode,
            option: 0,
            timestamp: 0,
            data: ipc,
        };
        let mut buffer = Vec::new();
        ipc_segment.encode_into(&mut buffer);

        assert_eq!(
            buffer.len(),
            ipc_segment.calc_size() as usize,
            "opcode {opcode} did not match size!"
        );
    }
}

/// Ensure that the IPC data size as reported matches up with what we write.
#[test]
fn client_lobby_ipc_sizes() {
    let ipc_types: Vec<(u16, ClientLobbyIpcData)> = vec![
        (
            CLIENT_LOBBY_OP_SERVICE_LOGIN,
            ClientLobbyIpcData::ServiceLogin {
                sequence: 0,
                account_index: 0,
                unk1: 0,
                unk2: 0,
                account_id: 0,
            },
        ),
        (
            CLIENT_LOBBY_OP_GAME_LOGIN,
            ClientLobbyIpcData::GameLogin { sequence: 0, content_id: 0, unk1: 0, ticket: 0 },
        ),
        (
            CLIENT_LOBBY_OP_LOGIN_EX,
            ClientLobbyIpcData::LoginEx {
                sequence: 0,
                timestamp: 0,
                unk1: 0,
                session_id: String::default(),
                version_info: String::default(),
            },
        ),
        (
            CLIENT_LOBBY_OP_CHARA_MAKE,
            ClientLobbyIpcData::CharaMake(CharaMake {
                sequence: 0,
                content_id: 0,
                person_type: 0,
                action: LobbyCharacterActionKind::ReserveName,
                name: String::default(),
                encoded: String::default(),
            }),
        ),
    ];

    for (opcode, ipc) in ipc_types {
        let ipc_segment = ClientLobbyIpcSegment {
            unk1: 0,
            unk2: 0,
            op_code: opcode,
            option: 0,
            timestamp: 0,
            data: ipc,
        };
        let mut buffer = Vec::new();
        ipc_segment.encode_into(&mut buffer);

        assert_eq!(
            buffer.len(),
            ipc_segment.calc_size() as usize,
            "opcode {opcode} did not match size!"
        );
    }
}

#[test]
fn unknown_opcode_is_tolerated_exactly() {
    // an unrecognized opcode yields Unknown holding exactly
    // declared_size - header_size bytes, never an error
    let payload = vec![9u8, 8, 7, 6, 5];
    let mut bytes = Vec::new();
    let seg = ClientLobbyIpcSegment {
        unk1: 0x14,
        unk2: 0,
        op_code: 999,
        option: 0,
        timestamp: 0,
        data: ClientLobbyIpcData::Unknown { unk: payload.clone() },
    };
    seg.encode_into(&mut bytes);
    assert_eq!(bytes.len(), IPC_HEADER_SIZE as usize + payload.len());

    let decoded = IpcSegment::<ClientLobbyIpcData>::decode(&bytes).expect("must never error");
    assert_eq!(decoded.op_code, 999);
    match decoded.data {
        ClientLobbyIpcData::Unknown { unk } => {
            assert_eq!(unk.len(), bytes.len() - IPC_HEADER_SIZE as usize);
            assert_eq!(unk, payload);
        }
        other => panic!("expected the opaque capture, got {other:?}"),
    }
}

#[test]
fn unknown_opcode_zone_and_custom_tables() {
    let bytes = {
        let mut b = Vec::new();
        let seg = IpcSegment {
            unk1: 0,
            unk2: 0,
            op_code: 0x5555,
            option: 0,
            timestamp: 0,
            data: ServerZoneIpcData::Unknown { unk: vec![1, 2, 3] },
        };
        seg.encode_into(&mut b);
        b
    };
    let z = IpcSegment::<ClientZoneIpcData>::decode(&bytes).unwrap();
    match z.data {
        ClientZoneIpcData::Unknown { unk } => assert_eq!(unk, vec![1, 2, 3]),
    }
    let c = IpcSegment::<kodama::ipc_custom::CustomIpcData>::decode(&bytes).unwrap();
    match c.data {
        kodama::ipc_custom::CustomIpcData::Unknown { unk } => assert_eq!(unk, vec![1, 2, 3]),
        other => panic!("expected the opaque capture, got {other:?}"),
    }
}

#[test]
fn client_lobby_decode_round_trip() {
    let seg = ClientLobbyIpcSegment {
        unk1: 0x14,
        unk2: 0,
        op_code: CLIENT_LOBBY_OP_SERVICE_LOGIN,
        option: 0,
        timestamp: 77,
        data: ClientLobbyIpcData::ServiceLogin {
            sequence: 5,
            account_index: 1,
            unk1: 0,
            unk2: 0,
            account_id: 0xABCD,
        },
    };
    let mut bytes = Vec::new();
    seg.encode_into(&mut bytes);
    let back = IpcSegment::<ClientLobbyIpcData>::decode(&bytes).unwrap();
    assert_eq!(back.timestamp, 77);
    match back.data {
        ClientLobbyIpcData::ServiceLogin { sequence, account_index, account_id, .. } => {
            assert_eq!(sequence, 5);
            assert_eq!(account_index, 1);
            assert_eq!(account_id, 0xABCD);
        }
        other => panic!("wrong variant: {other:?}"),
    }
}

#[test]
fn custom_ipc_decode_round_trip() {
    let seg = kodama::ipc_custom::CustomIpcSegment {
        unk1: 0x14,
        unk2: 0,
        op_code: kodama::ipc_custom::CUSTOM_OP_GET_ACTOR_ID,
        option: 0,
        timestamp: 0,
        data: kodama::ipc_custom::CustomIpcData::GetActorId { content_id: 0x1122334455667788 },
    };
    let mut bytes = Vec::new();
    seg.encode_into(&mut bytes);
    let back = IpcSegment::<kodama::ipc_custom::CustomIpcData>::decode(&bytes).unwrap();
    match back.data {
        kodama::ipc_custom::CustomIpcData::GetActorId { content_id } => {
            assert_eq!(content_id, 0x1122334455667788)
        }
        other => panic!("wrong variant: {other:?}"),
    }
}
