use kodama::blowfish::Cipher;
use kodama::chara_make::{CharaMake, LobbyCharacterActionKind};
use kodama::encryption::generate_encryption_key;
use kodama::ipc_custom::CustomIpcData;
use kodama::ipc_lobby::ServerLobbyIpcData;
use kodama::lobby::{build_account_list_segment, build_character_list_replies, build_enter_world_segment,
    build_error_segment, build_retainer_list_segment, build_world_list_segment,
    chara_action_outcome, chara_action_rpc_request, security_setup_reply, CharaActionOutcome,
    NAME_TAKEN_ERROR, NAME_TAKEN_EXD_ERROR, SECURITY_ACK};
use kodama::login_reply::ServiceAccount;
use kodama::ipc_lobby::ClientLobbyIpcData;
use kodama::parsing::{build_packet, parse_packet, CompressionType, ConnectionType, PacketState,
    SegmentData, SegmentType};
use kodama::service_login_reply::CharacterDetails;

#[test]
fn security_setup_scenario() {
    // SecuritySetup { phrase: "abc", nonce: 42 } must be answered with one
    // SecurityInitialize segment of 640 bytes whose first four bytes, once
    // decrypted with the key derived from (42, "abc"), are the little-endian
    // acknowledgement constant
    let (session_key, segment) = security_setup_reply("abc", 42);
    assert_eq!(session_key, generate_encryption_key(42, "abc"));
    assert_eq!(segment.segment_type, SegmentType::SecurityInitialize);
    let mut blob = match segment.data {
        SegmentData::SecurityInitialize { data } => data,
        other => panic!("expected the acknowledgement blob, got {other:?}"),
    };
    assert_eq!(blob.len(), 640);
    assert_ne!(&blob[0..4], SECURITY_ACK.to_le_bytes().as_slice(), "the blob must be encrypted");
    let cipher = Cipher::new(&generate_encryption_key(42, "abc"));
    cipher.decrypt(&mut blob).unwrap();
    assert_eq!(&blob[0..4], SECURITY_ACK.to_le_bytes().as_slice());
    assert!(blob[4..].iter().all(|b| *b == 0));
}

#[test]
fn account_list_reply() {
    let accounts = vec![ServiceAccount {
        id: 9,
        unk1: 0,
        index: 0,
        name: "FINAL FANTASY XIV".to_string(),
    }];
    let seg = build_account_list_segment(accounts, 1000);
    match seg.data {
        SegmentData::Ipc { data } => match data.data {
            ServerLobbyIpcData::LoginReply(l) => {
                assert_eq!(l.num_service_accounts, 1);
                assert_eq!(l.unk1, 3);
                assert_eq!(l.unk2, 0x99);
                assert_eq!(l.service_accounts.len(), 1);
                assert_eq!(l.service_accounts[0].id, 9);
            }
            other => panic!("wrong payload: {other:?}"),
        },
        other => panic!("wrong segment: {other:?}"),
    }
}

#[test]
fn world_list_reply() {
    let seg = build_world_list_segment(63, &"Gilgamesh".to_string(), 5, 0);
    match seg.data {
        SegmentData::Ipc { data } => match data.data {
            ServerLobbyIpcData::DistWorldInfo(w) => {
                assert_eq!(w.sequence, 5);
                assert_eq!(w.num_servers, 1);
                assert_eq!(w.servers.len(), 6);
                assert_eq!(w.servers[0].id, 63);
                assert_eq!(w.servers[0].name, "Gilgamesh");
                assert!(w.servers[1..].iter().all(|s| s.id == 0 && s.name.is_empty()));
            }
            other => panic!("wrong payload: {other:?}"),
        },
        other => panic!("wrong segment: {other:?}"),
    }
}

#[test]
fn retainer_list_reply() {
    let seg = build_retainer_list_segment(3);
    match seg.data {
        SegmentData::Ipc { data } => match data.data {
            ServerLobbyIpcData::DistRetainerInfo(d) => assert_eq!(d.sequence, 0),
            other => panic!("wrong payload: {other:?}"),
        },
        other => panic!("wrong segment: {other:?}"),
    }
}

fn named_entry(name: &str) -> CharacterDetails {
    let mut c = CharacterDetails::new_empty();
    c.character_name = name.to_string();
    c
}

#[test]
fn character_list_is_chunked_into_four_replies() {
    let characters = vec![named_entry("A"), named_entry("B"), named_entry("C")];
    let replies = build_character_list_replies(11, &characters, 0);
    assert_eq!(replies.len(), 4);
    let mut counters = Vec::new();
    for (j, seg) in replies.iter().enumerate() {
        match &seg.data {
            SegmentData::Ipc { data } => match &data.data {
                ServerLobbyIpcData::ServiceLoginReply(slr) => {
                    assert_eq!(slr.sequence, 11);
                    assert_eq!(slr.num_in_packet, 2);
                    assert_eq!(slr.characters.len(), 2);
                    counters.push(slr.counter);
                    if j == 0 {
                        assert_eq!(slr.characters[0].character_name, "A");
                        assert_eq!(slr.characters[1].character_name, "B");
                    }
                    if j == 1 {
                        assert_eq!(slr.characters[0].character_name, "C");
                        assert_eq!(slr.characters[1].character_name, "");
                    }
                }
                other => panic!("wrong payload: {other:?}"),
            },
            other => panic!("wrong segment: {other:?}"),
        }
    }
    // the counter steps by four, with one added on the last chunk
    assert_eq!(counters, vec![0, 4, 8, 13]);
}

#[test]
fn enter_world_reply() {
    let seg = build_enter_world_segment(2, 0xC0FFEE, 1234, 7100, &"127.0.0.1".to_string(), 0);
    match seg.data {
        SegmentData::Ipc { data } => match data.data {
            ServerLobbyIpcData::GameLoginReply { sequence, actor_id, content_id, token, port, host } => {
                assert_eq!(sequence, 2);
                assert_eq!(actor_id, 1234);
                assert_eq!(content_id, 0xC0FFEE);
                assert!(token.is_empty());
                assert_eq!(port, 7100);
                assert_eq!(host, "127.0.0.1");
            }
            other => panic!("wrong payload: {other:?}"),
        },
        other => panic!("wrong segment: {other:?}"),
    }
}

#[test]
fn error_reply_carries_the_error() {
    let seg = build_error_segment(9, 0x00000bdb, 0x32cc, 0);
    match seg.data {
        SegmentData::Ipc { data } => match data.data {
            ServerLobbyIpcData::NackReply(n) => {
                assert_eq!(n.sequence, 9);
                assert_eq!(n.error, 0x00000bdb);
                assert_eq!(n.exd_error_id, 0x32cc);
            }
            other => panic!("wrong payload: {other:?}"),
        },
        other => panic!("wrong segment: {other:?}"),
    }
}

fn reserve_action() -> CharaMake {
    CharaMake {
        sequence: 40,
        content_id: 0,
        person_type: 55,
        action: LobbyCharacterActionKind::ReserveName,
        name: "Cloud".to_string(),
        encoded: String::new(),
    }
}

#[test]
fn reserve_name_asks_the_world_server() {
    let action = reserve_action();
    let req = chara_action_rpc_request(&action, 1, &String::new()).unwrap();
    match req.data {
        CustomIpcData::CheckNameIsAvailable { name } => assert_eq!(name, "Cloud"),
        other => panic!("wrong request: {other:?}"),
    }
}

#[test]
fn reserve_name_free_is_remembered_and_acknowledged() {
    let action = reserve_action();
    let outcome = chara_action_outcome(&action, &CustomIpcData::NameIsAvailableResponse { free: true }, 0);
    match outcome {
        CharaActionOutcome::NameReserved { name, segment } => {
            assert_eq!(name, "Cloud");
            match segment.data {
                SegmentData::Ipc { data } => match data.data {
                    ServerLobbyIpcData::CharaMakeReply { sequence, player_id, character_name, .. } => {
                        assert_eq!(sequence, 41);
                        assert_eq!(player_id, 55);
                        assert_eq!(character_name, "Cloud");
                    }
                    other => panic!("wrong payload: {other:?}"),
                },
                other => panic!("wrong segment: {other:?}"),
            }
        }
        _ => panic!("a free name must be reserved"),
    }
}

#[test]
fn reserve_name_taken_is_refused() {
    let action = reserve_action();
    let outcome = chara_action_outcome(&action, &CustomIpcData::NameIsAvailableResponse { free: false }, 0);
    match outcome {
        CharaActionOutcome::NameTaken { segment } => match segment.data {
            SegmentData::Ipc { data } => match data.data {
                ServerLobbyIpcData::NackReply(n) => {
                    assert_eq!(n.sequence, 40);
                    assert_eq!(n.error, NAME_TAKEN_ERROR);
                    assert_eq!(n.exd_error_id, NAME_TAKEN_EXD_ERROR);
                }
                other => panic!("wrong payload: {other:?}"),
            },
            other => panic!("wrong segment: {other:?}"),
        },
        _ => panic!("a taken name must be refused"),
    }
}

#[test]
fn mismatched_reply_is_recoverable() {
    // a reply whose shape does not fit the request is a protocol error, not
    // a crash
    let action = reserve_action();
    let outcome = chara_action_outcome(&action, &CustomIpcData::CharacterDeleted { deleted: 1 }, 0);
    assert!(matches!(outcome, CharaActionOutcome::ReplyMismatch));
}

#[test]
fn create_uses_the_new_actor_id() {
    let mut action = reserve_action();
    action.action = LobbyCharacterActionKind::Create;
    let outcome = chara_action_outcome(
        &action,
        &CustomIpcData::CharacterCreated { actor_id: 900, content_id: 901 },
        0,
    );
    match outcome {
        CharaActionOutcome::Acknowledged { segment } => match segment.data {
            SegmentData::Ipc { data } => match data.data {
                ServerLobbyIpcData::CharaMakeReply { player_id, .. } => assert_eq!(player_id, 900),
                other => panic!("wrong payload: {other:?}"),
            },
            other => panic!("wrong segment: {other:?}"),
        },
        _ => panic!("a creation must be acknowledged"),
    }
}

#[test]
fn unsupported_action_needs_no_call() {
    let mut action = reserve_action();
    action.action = LobbyCharacterActionKind::Rename;
    assert!(chara_action_rpc_request(&action, 1, &String::new()).is_none());
}

/// The whole handshake, at the byte level: a raw packet carrying
/// SecuritySetup { phrase: "abc", nonce: 42 } comes in, and the reply packet
/// carries exactly one SecurityInitialize segment of 640 bytes whose first
/// four bytes, decrypted with the key derived from (42, "abc"), are the
/// little-endian acknowledgement constant.
#[test]
fn security_handshake_end_to_end() {
    // segment span: 16-byte header, then 36 reserved bytes, the 64-byte
    // phrase field, the nonce, and 512 reserved bytes
    let mut segment = Vec::new();
    segment.extend_from_slice(&632u16.to_le_bytes()); // size
    segment.extend_from_slice(&9u16.to_le_bytes()); // SecuritySetup
    segment.extend_from_slice(&0u32.to_le_bytes()); // source actor
    segment.extend_from_slice(&0u32.to_le_bytes()); // target actor
    segment.extend_from_slice(&[0u8; 4]);
    segment.extend_from_slice(&[0u8; 36]);
    let mut phrase = [0u8; 64];
    phrase[..3].copy_from_slice(b"abc");
    segment.extend_from_slice(&phrase);
    segment.extend_from_slice(&42u32.to_le_bytes());
    segment.extend_from_slice(&[0u8; 512]);

    let mut packet = Vec::new();
    packet.push(0); // not authenticated
    packet.push(0); // not compressed
    packet.extend_from_slice(&3u16.to_le_bytes()); // lobby
    packet.extend_from_slice(&((16 + segment.len()) as u16).to_le_bytes());
    packet.extend_from_slice(&1u16.to_le_bytes()); // one segment
    packet.extend_from_slice(&0u64.to_le_bytes());
    packet.extend_from_slice(&segment);

    let mut state = PacketState { client_key: None };
    let (segments, conn) = parse_packet::<ClientLobbyIpcData>(&packet, &mut state);
    assert_eq!(conn, ConnectionType::Lobby);
    assert_eq!(segments.len(), 1);
    let (phrase, nonce) = match &segments[0].data {
        SegmentData::SecuritySetup { phrase, key } => (phrase.clone(), *key),
        other => panic!("expected the key exchange, got {other:?}"),
    };
    assert_eq!(phrase, "abc");
    assert_eq!(nonce, 42);

    // the server's reply, framed like the wire carries it
    let (session_key, reply) = security_setup_reply(&phrase, nonce);
    state.client_key = Some(session_key);
    let reply_packet = build_packet(
        &state,
        ConnectionType::Lobby,
        CompressionType::Uncompressed,
        &vec![reply],
        0,
    );
    let (reply_segments, _) = parse_packet::<ServerLobbyIpcData>(&reply_packet, &mut state);
    assert_eq!(reply_segments.len(), 1, "exactly one acknowledgement segment");
    let mut blob = match &reply_segments[0].data {
        SegmentData::SecurityInitialize { data } => data.clone(),
        other => panic!("expected the acknowledgement, got {other:?}"),
    };
    assert_eq!(blob.len(), 640);
    Cipher::new(&generate_encryption_key(42, "abc")).decrypt(&mut blob).unwrap();
    assert_eq!(&blob[0..4], SECURITY_ACK.to_le_bytes().as_slice());
}
