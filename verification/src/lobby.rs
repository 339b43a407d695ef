//! Lobby-server logic: the key-exchange reply, the reply builders for the
//! account, world, retainer and character lists, world entry and errors, and
//! the decision functions of the character-action flow. The sockets and the
//! internal RPC transport live outside the library and call these.
use crate::blowfish::{lemma_cipher_round_trip, spec_decrypt_bytes, spec_encrypt_bytes,
    spec_schedule, Cipher};
use crate::chara_make::{CharaMake, LobbyCharacterActionKind};
use crate::encryption::{generate_encryption_key, key_material, md5_digest_of};
use crate::ipc::IpcSegment;
use crate::ipc_custom::{CustomIpcData, CustomIpcSegment};
use crate::ipc_lobby::{ServerLobbyIpcData, SERVER_LOBBY_OP_CHARA_MAKE_REPLY,
    SERVER_LOBBY_OP_DIST_RETAINER_INFO, SERVER_LOBBY_OP_DIST_WORLD_INFO,
    SERVER_LOBBY_OP_GAME_LOGIN_REPLY, SERVER_LOBBY_OP_LOGIN_REPLY, SERVER_LOBBY_OP_NACK_REPLY,
    SERVER_LOBBY_OP_SERVICE_LOGIN_REPLY};
use crate::login_reply::{DistRetainerInfo, LoginReply, NackReply, ServiceAccount};
use crate::parsing::{PacketSegment, SegmentData, SegmentType};
use crate::server_list::{DistWorldInfo, Server};
use crate::service_login_reply::{CharacterDetails, ServiceLoginReply, CHARACTER_FLAG_NONE};
use crate::wire::zeroes;
use vstd::bytes::spec_u32_to_le_bytes;
use vstd::prelude::*;
use vstd::string::StringSliceAdditionalSpecFns;

verus! {

/// The acknowledgement constant the key-exchange reply carries, before
/// encryption.
pub const SECURITY_ACK: u32 = 0xE0003C2A;

/// The plaintext of the key-exchange acknowledgement blob: the constant,
/// little-endian, zero-padded to 640 bytes.
pub open spec fn security_ack_plaintext() -> Seq<u8> {
    spec_u32_to_le_bytes(SECURITY_ACK) + zeroes(636)
}

/// The server's whole key-exchange step: derives the session key from the
/// client's phrase and nonce, and builds the one acknowledgement segment
/// that is encrypted with the brand-new key before the client is told
/// encryption is active. Decrypting the reply's blob with the same derived
/// key gives back exactly the acknowledgement constant and its padding.
pub fn security_setup_reply(phrase: &str, key: u32) -> (r: ([u8; 16], PacketSegment<
    ServerLobbyIpcData,
>))
    ensures
        r.0@ == md5_digest_of(key_material(key, phrase.spec_bytes())),
        r.1.segment_type == SegmentType::SecurityInitialize,
        r.1.source_actor == 0,
        r.1.target_actor == 0,
        r.1.wf(),
        r.1.cipher_aligned(),
        ({
            let sched = spec_schedule(r.0@);
            &&& r.1.data matches SegmentData::SecurityInitialize { data } && data@
                == spec_encrypt_bytes(sched, security_ack_plaintext()) && data@.len() == 640
            &&& spec_decrypt_bytes(sched, spec_encrypt_bytes(sched, security_ack_plaintext()))
                == security_ack_plaintext()
        }),
{
    let session_key = generate_encryption_key(key, phrase);
    let mut data: Vec<u8> = Vec::new();
    crate::wire::push_u32_le(&mut data, SECURITY_ACK);
    crate::wire::push_zeroes(&mut data, 636);
    proof {
        vstd::bytes::lemma_auto_spec_u32_to_from_le_bytes();
        assert(data@ =~= security_ack_plaintext());
    }
    let cipher = Cipher::new(session_key.as_slice());
    let res = cipher.encrypt(&mut data);
    proof {
        assert(res is Ok);
        crate::blowfish::lemma_enc_bytes_len(cipher@, security_ack_plaintext());
        lemma_cipher_round_trip(cipher@, security_ack_plaintext());
    }
    let segment = PacketSegment {
        segment_type: SegmentType::SecurityInitialize,
        source_actor: 0,
        target_actor: 0,
        data: SegmentData::SecurityInitialize { data },
    };
    (session_key, segment)
}

/// Wraps a lobby reply payload in its IPC envelope and segment, addressed
/// from and to no actor, with the reserved header constant.
fn lobby_ipc_segment(data: ServerLobbyIpcData, op_code: u16, timestamp: u32) -> (r: PacketSegment<
    ServerLobbyIpcData,
>)
    requires
        crate::ipc::IpcPayloadCodec::payload_wf(&data),
    ensures
        r.segment_type == SegmentType::Ipc,
        r.source_actor == 0,
        r.target_actor == 0,
        r.wf(),
        r.data matches SegmentData::Ipc { data: seg } && seg.data == data && seg.op_code == op_code
            && seg.unk1 == 0x14 && seg.unk2 == 0 && seg.option == 0 && seg.timestamp == timestamp,
{
    PacketSegment {
        segment_type: SegmentType::Ipc,
        source_actor: 0,
        target_actor: 0,
        data: SegmentData::Ipc {
            data: IpcSegment { unk1: 0x14, unk2: 0, op_code, option: 0, timestamp, data },
        },
    }
}

/// The service-account list reply: up to eight accounts, with the fixed
/// header constants the client expects.
pub fn build_account_list_segment(service_accounts: Vec<ServiceAccount>, timestamp: u32) -> (r:
    PacketSegment<ServerLobbyIpcData>)
    requires
        service_accounts@.len() <= 8,
    ensures
        r.segment_type == SegmentType::Ipc,
        r.wf(),
        r.cipher_aligned(),
        match r.data {
            SegmentData::Ipc { data: seg } => {
                &&& seg.op_code == SERVER_LOBBY_OP_LOGIN_REPLY
                &&& seg.timestamp == timestamp
                &&& match seg.data {
                    ServerLobbyIpcData::LoginReply(l) => {
                        &&& l.sequence == 0
                        &&& l.num_service_accounts == service_accounts@.len()
                        &&& l.unk1 == 3
                        &&& l.unk2 == 0x99
                        &&& l.service_accounts@ == service_accounts@
                    },
                    _ => false,
                }
            },
            _ => false,
        },
{
    let num = service_accounts.len() as u8;
    let reply = ServerLobbyIpcData::LoginReply(
        LoginReply {
            sequence: 0,
            num_service_accounts: num,
            unk1: 3,
            unk2: 0x99,
            service_accounts,
        },
    );
    let r = lobby_ipc_segment(reply, SERVER_LOBBY_OP_LOGIN_REPLY, timestamp);
    proof {
        broadcast use crate::wire::lemma_fit_bytes_len_auto;

        vstd::bytes::lemma_auto_spec_u16_to_from_le_bytes();
        vstd::bytes::lemma_auto_spec_u32_to_from_le_bytes();
        vstd::bytes::lemma_auto_spec_u64_to_from_le_bytes();
    }
    r
}

/// The world list reply: the one live world under its id and name, the
/// remaining five slots empty.
pub fn build_world_list_segment(
    world_id: u16,
    world_name: &String,
    sequence: u64,
    timestamp: u32,
) -> (r: PacketSegment<ServerLobbyIpcData>)
    ensures
        r.segment_type == SegmentType::Ipc,
        r.wf(),
        r.cipher_aligned(),
        match r.data {
            SegmentData::Ipc { data: seg } => {
                &&& seg.op_code == SERVER_LOBBY_OP_DIST_WORLD_INFO
                &&& seg.timestamp == timestamp
                &&& match seg.data {
                    ServerLobbyIpcData::DistWorldInfo(w) => {
                        &&& w.sequence == sequence
                        &&& w.offset == 0
                        &&& w.num_servers == 1
                        &&& w.servers.len() == 6
                        &&& w.servers[0].id == world_id && w.servers[0].name@ == world_name@
                        &&& forall|j: int|
                            1 <= j < 6 ==> (#[trigger] w.servers[j]).id == 0 && w.servers[j].name@
                                == Seq::<char>::empty()
                    },
                    _ => false,
                }
            },
            _ => false,
        },
{
    let mut servers: Vec<Server> = Vec::new();
    servers.push(
        Server { id: world_id, index: 0, population: 0, unk1: 0, name: world_name.clone() },
    );
    let mut i: usize = 1;
    while i < 6
        invariant
            1 <= i <= 6,
            servers@.len() == i,
            servers@[0].id == world_id && servers@[0].name@ == world_name@,
            forall|j: int|
                1 <= j < i ==> (#[trigger] servers@[j]).id == 0 && servers@[j].name@
                    == Seq::<char>::empty(),
        decreases 6 - i,
    {
        servers.push(Server::new_empty());
        i = i + 1;
    }
    let reply = ServerLobbyIpcData::DistWorldInfo(
        DistWorldInfo { sequence, offset: 0, num_servers: 1, servers },
    );
    let r = lobby_ipc_segment(reply, SERVER_LOBBY_OP_DIST_WORLD_INFO, timestamp);
    proof {
        broadcast use crate::wire::lemma_fit_bytes_len_auto;

        vstd::bytes::lemma_auto_spec_u16_to_from_le_bytes();
        vstd::bytes::lemma_auto_spec_u32_to_from_le_bytes();
        vstd::bytes::lemma_auto_spec_u64_to_from_le_bytes();
    }
    r
}

/// The retainer list reply: empty today.
pub fn build_retainer_list_segment(timestamp: u32) -> (r: PacketSegment<ServerLobbyIpcData>)
    ensures
        r.segment_type == SegmentType::Ipc,
        r.wf(),
        r.cipher_aligned(),
        match r.data {
            SegmentData::Ipc { data: seg } => {
                &&& seg.op_code == SERVER_LOBBY_OP_DIST_RETAINER_INFO
                &&& seg.timestamp == timestamp
                &&& match seg.data {
                    ServerLobbyIpcData::DistRetainerInfo(d) => d.sequence == 0,
                    _ => false,
                }
            },
            _ => false,
        },
{
    let reply = ServerLobbyIpcData::DistRetainerInfo(DistRetainerInfo { sequence: 0 });
    let r = lobby_ipc_segment(reply, SERVER_LOBBY_OP_DIST_RETAINER_INFO, timestamp);
    proof {
        broadcast use crate::wire::lemma_fit_bytes_len_auto;

        vstd::bytes::lemma_auto_spec_u16_to_from_le_bytes();
        vstd::bytes::lemma_auto_spec_u32_to_from_le_bytes();
        vstd::bytes::lemma_auto_spec_u64_to_from_le_bytes();
    }
    r
}

/// An empty character-list slot.
pub open spec fn is_empty_entry(c: CharacterDetails) -> bool {
    &&& c.unk2 == 0
    &&& c.player_id == 0
    &&& c.index == 0
    &&& c.flags.0 == CHARACTER_FLAG_NONE
    &&& c.unk1 == 0
    &&& c.zone_id == 0
    &&& c.character_name@ == Seq::<char>::empty()
    &&& c.server_name@ == Seq::<char>::empty()
    &&& c.client_select_data@ == Seq::<char>::empty()
}

/// Whether one segment is the `j`-th chunk reply of a character list: an
/// IPC segment carrying a character-list reply whose two slots hold the
/// `j`-th pair of characters in list order, empty entries past the end, and
/// whose chunk counter steps by four with one added on the last chunk.
pub open spec fn is_charlist_reply(
    seg: PacketSegment<ServerLobbyIpcData>,
    sequence: u64,
    characters: Seq<CharacterDetails>,
    timestamp: u32,
    j: int,
) -> bool {
    &&& seg.segment_type == SegmentType::Ipc
    &&& seg.wf()
    &&& seg.cipher_aligned()
    &&& match seg.data {
        SegmentData::Ipc { data: ipc } => {
            &&& ipc.op_code == SERVER_LOBBY_OP_SERVICE_LOGIN_REPLY
            &&& ipc.timestamp == timestamp
            &&& match ipc.data {
                ServerLobbyIpcData::ServiceLoginReply(slr) => {
                    &&& slr.sequence == sequence
                    &&& slr.counter == (if j == 3 {
                        j * 4 + 1
                    } else {
                        j * 4
                    })
                    &&& slr.num_in_packet == 2
                    &&& slr.characters.len() == 2
                    &&& forall|k: int|
                        #![trigger slr.characters[k]]
                        0 <= k < 2 ==> if 2 * j + k < characters.len() {
                            slr.characters[k] == characters[2 * j + k]
                        } else {
                            is_empty_entry(slr.characters[k])
                        }
                },
                _ => false,
            }
        },
        _ => false,
    }
}

/// The character list is sent as four chunk replies of two slots each: the
/// characters two at a time in list order, the remaining slots empty, the
/// chunk counter stepping by four with one added on the last chunk.
pub fn build_character_list_replies(
    sequence: u64,
    characters: &Vec<CharacterDetails>,
    timestamp: u32,
) -> (r: Vec<PacketSegment<ServerLobbyIpcData>>)
    requires
        characters@.len() <= 8,
    ensures
        r@.len() == 4,
        forall|j: int|
            0 <= j < 4 ==> is_charlist_reply(#[trigger] r@[j], sequence, characters@, timestamp, j),
{
    let mut out: Vec<PacketSegment<ServerLobbyIpcData>> = Vec::new();
    let mut j: usize = 0;
    while j < 4
        invariant
            j <= 4,
            characters@.len() <= 8,
            out@.len() == j,
            forall|jj: int|
                0 <= jj < j ==> is_charlist_reply(
                    #[trigger] out@[jj],
                    sequence,
                    characters@,
                    timestamp,
                    jj,
                ),
        decreases 4 - j,
    {
        let mut chunk: Vec<CharacterDetails> = Vec::new();
        let mut k: usize = 0;
        while k < 2
            invariant
                k <= 2,
                j < 4,
                characters@.len() <= 8,
                chunk@.len() == k,
                forall|kk: int|
                    #![trigger chunk@[kk]]
                    0 <= kk < k ==> if 2 * (j as int) + kk < characters@.len() {
                        chunk@[kk] == characters@[2 * (j as int) + kk]
                    } else {
                        is_empty_entry(chunk@[kk])
                    },
            decreases 2 - k,
        {
            if 2 * j + k < characters.len() {
                let c = &characters[2 * j + k];
                chunk.push(
                    CharacterDetails {
                        unk2: c.unk2,
                        player_id: c.player_id,
                        index: c.index,
                        flags: c.flags,
                        unk1: c.unk1,
                        zone_id: c.zone_id,
                        character_name: c.character_name.clone(),
                        server_name: c.server_name.clone(),
                        client_select_data: c.client_select_data.clone(),
                    },
                );
            } else {
                chunk.push(CharacterDetails::new_empty());
            }
            k = k + 1;
        }
        let counter: u8 = if j == 3 {
            (j * 4 + 1) as u8
        } else {
            (j * 4) as u8
        };
        let reply = ServerLobbyIpcData::ServiceLoginReply(
            ServiceLoginReply { sequence, counter, num_in_packet: 2, unk1: 0, unk3: 0, characters: chunk },
        );
        let seg = lobby_ipc_segment(reply, SERVER_LOBBY_OP_SERVICE_LOGIN_REPLY, timestamp);
        proof {
            broadcast use crate::wire::lemma_fit_bytes_len_auto;

            vstd::bytes::lemma_auto_spec_u16_to_from_le_bytes();
            vstd::bytes::lemma_auto_spec_u32_to_from_le_bytes();
            vstd::bytes::lemma_auto_spec_u64_to_from_le_bytes();
        }
        out.push(seg);
        j = j + 1;
    }
    out
}

/// The world-entry reply: where the world server listens, and the entering
/// character's identifiers.
pub fn build_enter_world_segment(
    sequence: u64,
    content_id: u64,
    actor_id: u32,
    port: u16,
    host: &String,
    timestamp: u32,
) -> (r: PacketSegment<ServerLobbyIpcData>)
    ensures
        r.segment_type == SegmentType::Ipc,
        r.wf(),
        r.cipher_aligned(),
        match r.data {
            SegmentData::Ipc { data: seg } => {
                &&& seg.op_code == SERVER_LOBBY_OP_GAME_LOGIN_REPLY
                &&& seg.timestamp == timestamp
                &&& match seg.data {
                    ServerLobbyIpcData::GameLoginReply {
                        sequence: sq,
                        actor_id: a,
                        content_id: c,
                        ref token,
                        port: p,
                        host: ref h,
                    } => sq == sequence && a == actor_id && c == content_id && token@
                        == Seq::<char>::empty() && p == port && h@ == host@,
                    _ => false,
                }
            },
            _ => false,
        },
{
    let reply = ServerLobbyIpcData::GameLoginReply {
        sequence,
        actor_id,
        content_id,
        token: String::new(),
        port,
        host: host.clone(),
    };
    let r = lobby_ipc_segment(reply, SERVER_LOBBY_OP_GAME_LOGIN_REPLY, timestamp);
    proof {
        broadcast use crate::wire::lemma_fit_bytes_len_auto;

        vstd::bytes::lemma_auto_spec_u16_to_from_le_bytes();
        vstd::bytes::lemma_auto_spec_u32_to_from_le_bytes();
        vstd::bytes::lemma_auto_spec_u64_to_from_le_bytes();
    }
    r
}

/// A lobby error reply.
pub fn build_error_segment(sequence: u64, error: u32, exd_error: u16, timestamp: u32) -> (r:
    PacketSegment<ServerLobbyIpcData>)
    ensures
        r.segment_type == SegmentType::Ipc,
        r.wf(),
        r.cipher_aligned(),
        match r.data {
            SegmentData::Ipc { data: seg } => {
                &&& seg.op_code == SERVER_LOBBY_OP_NACK_REPLY
                &&& seg.timestamp == timestamp
                &&& match seg.data {
                    ServerLobbyIpcData::NackReply(n) => {
                        &&& n.sequence == sequence
                        &&& n.error == error
                        &&& n.exd_error_id == exd_error
                        &&& n.value == 0
                        &&& n.unk1 == 0
                    },
                    _ => false,
                }
            },
            _ => false,
        },
{
    let reply = ServerLobbyIpcData::NackReply(
        NackReply { sequence, error, value: 0, exd_error_id: exd_error, unk1: 0 },
    );
    let r = lobby_ipc_segment(reply, SERVER_LOBBY_OP_NACK_REPLY, timestamp);
    proof {
        broadcast use crate::wire::lemma_fit_bytes_len_auto;

        vstd::bytes::lemma_auto_spec_u16_to_from_le_bytes();
        vstd::bytes::lemma_auto_spec_u32_to_from_le_bytes();
        vstd::bytes::lemma_auto_spec_u64_to_from_le_bytes();
    }
    r
}

/// The character-action error shown when a requested name is already taken.
pub const NAME_TAKEN_ERROR: u32 = 0x00000bdb;

/// The client-side message id for the name-taken error.
pub const NAME_TAKEN_EXD_ERROR: u16 = 0x32cc;

/// The internal RPC a character action needs first: a name reservation asks
/// whether the name is free, creation asks the world server to create the
/// stored name with the submitted appearance, deletion asks it to delete.
/// The remaining action kinds are not handled and need no call.
pub fn chara_action_rpc_request(
    action: &CharaMake,
    selected_service_account: u32,
    stored_name: &String,
) -> (r: Option<CustomIpcSegment>)
    ensures
        r is Some ==> r.unwrap().wf(),
        match action.action {
            LobbyCharacterActionKind::ReserveName => r is Some && match r.unwrap().data {
                CustomIpcData::CheckNameIsAvailable { ref name } => name@ == action.name@,
                _ => false,
            } && r.unwrap().op_code == crate::ipc_custom::CUSTOM_OP_CHECK_NAME_IS_AVAILABLE,
            LobbyCharacterActionKind::Create => r is Some && match r.unwrap().data {
                CustomIpcData::RequestCreateCharacter { service_account_id, ref name, ref encoded } => {
                    &&& service_account_id == selected_service_account
                    &&& name@ == stored_name@
                    &&& encoded@ == action.encoded@
                },
                _ => false,
            } && r.unwrap().op_code == crate::ipc_custom::CUSTOM_OP_REQUEST_CREATE_CHARACTER,
            LobbyCharacterActionKind::Delete => r is Some && match r.unwrap().data {
                CustomIpcData::DeleteCharacter { content_id } => content_id == action.content_id,
                _ => false,
            } && r.unwrap().op_code == crate::ipc_custom::CUSTOM_OP_DELETE_CHARACTER,
            _ => r is None,
        },
{
    let data: CustomIpcData = match action.action {
        LobbyCharacterActionKind::ReserveName => CustomIpcData::CheckNameIsAvailable {
            name: action.name.clone(),
        },
        LobbyCharacterActionKind::Create => CustomIpcData::RequestCreateCharacter {
            service_account_id: selected_service_account,
            name: stored_name.clone(),
            encoded: action.encoded.clone(),
        },
        LobbyCharacterActionKind::Delete => CustomIpcData::DeleteCharacter {
            content_id: action.content_id,
        },
        _ => {
            return None;
        },
    };
    let op_code = crate::ipc_custom::custom_opcode(&data);
    Some(IpcSegment { unk1: 0x14, unk2: 0, op_code, option: 0, timestamp: 0, data })
}

/// What a character action concludes with once the world server answered.
pub enum CharaActionOutcome {
    /// The requested name is free: remember it for the coming creation and
    /// acknowledge.
    NameReserved { name: String, segment: PacketSegment<ServerLobbyIpcData> },
    /// The requested name is taken: tell the client.
    NameTaken { segment: PacketSegment<ServerLobbyIpcData> },
    /// The action went through: acknowledge it.
    Acknowledged { segment: PacketSegment<ServerLobbyIpcData> },
    /// The reply's shape did not fit the request: a recoverable protocol
    /// error, never a crash.
    ReplyMismatch,
}

/// Whether a segment is the character-action acknowledgement for an action,
/// carrying the given player id.
pub open spec fn is_chara_make_ack(
    seg: PacketSegment<ServerLobbyIpcData>,
    action: CharaMake,
    player_id: u64,
    timestamp: u32,
) -> bool {
    &&& seg.segment_type == SegmentType::Ipc
    &&& seg.wf()
    &&& seg.cipher_aligned()
    &&& match seg.data {
        SegmentData::Ipc { data: ipc } => {
            &&& ipc.op_code == SERVER_LOBBY_OP_CHARA_MAKE_REPLY
            &&& ipc.timestamp == timestamp
            &&& match ipc.data {
                ServerLobbyIpcData::CharaMakeReply {
                    sequence,
                    unk1,
                    unk2,
                    action: act,
                    player_id: pid,
                    unk3,
                    ticket,
                    ref character_name,
                    ref server_name,
                } => {
                    &&& sequence == action.sequence + 1
                    &&& unk1 == 1 && unk2 == 1
                    &&& act == LobbyCharacterActionKind::Create
                    &&& pid == player_id
                    &&& unk3 == 0x400017
                    &&& ticket == 1
                    &&& character_name@ == action.name@
                    &&& server_name@ == "Gilgamesh"@
                },
                _ => false,
            }
        },
        _ => false,
    }
}

/// Whether a segment is the name-taken refusal for a reservation request.
pub open spec fn is_name_taken_reply(
    seg: PacketSegment<ServerLobbyIpcData>,
    action: CharaMake,
    timestamp: u32,
) -> bool {
    &&& seg.segment_type == SegmentType::Ipc
    &&& seg.wf()
    &&& seg.cipher_aligned()
    &&& match seg.data {
        SegmentData::Ipc { data: ipc } => {
            &&& ipc.op_code == SERVER_LOBBY_OP_NACK_REPLY
            &&& ipc.timestamp == timestamp
            &&& match ipc.data {
                ServerLobbyIpcData::NackReply(n) => {
                    &&& n.sequence == action.sequence
                    &&& n.error == NAME_TAKEN_ERROR
                    &&& n.exd_error_id == NAME_TAKEN_EXD_ERROR
                },
                _ => false,
            }
        },
        _ => false,
    }
}

/// The outcome of a character action given the world server's reply: a free
/// name is remembered and acknowledged, a taken name is refused with the
/// name-taken error, a creation is acknowledged under the new actor id, a
/// deletion is acknowledged whatever came back, and a reply whose shape does
/// not fit the request is a recoverable mismatch.
pub fn chara_action_outcome(action: &CharaMake, response: &CustomIpcData, timestamp: u32) -> (r:
    CharaActionOutcome)
    requires
        action.sequence < u64::MAX,
    ensures
        match action.action {
            LobbyCharacterActionKind::ReserveName => match *response {
                CustomIpcData::NameIsAvailableResponse { free } => {
                    if free {
                        r matches CharaActionOutcome::NameReserved { ref name, segment } && name@
                            == action.name@ && is_chara_make_ack(
                            segment,
                            *action,
                            action.person_type,
                            timestamp,
                        )
                    } else {
                        r matches CharaActionOutcome::NameTaken { segment } && is_name_taken_reply(
                            segment,
                            *action,
                            timestamp,
                        )
                    }
                },
                _ => r is ReplyMismatch,
            },
            LobbyCharacterActionKind::Create => match *response {
                CustomIpcData::CharacterCreated { actor_id, content_id } => r
                    matches CharaActionOutcome::Acknowledged { segment } && is_chara_make_ack(
                    segment,
                    *action,
                    actor_id as u64,
                    timestamp,
                ),
                _ => r is ReplyMismatch,
            },
            LobbyCharacterActionKind::Delete => r matches CharaActionOutcome::Acknowledged {
                segment,
            } && is_chara_make_ack(segment, *action, action.person_type, timestamp),
            _ => r is ReplyMismatch,
        },
{
    match action.action {
        LobbyCharacterActionKind::ReserveName => match response {
            CustomIpcData::NameIsAvailableResponse { free } => {
                if *free {
                    let segment = chara_make_ack(action, action.person_type, timestamp);
                    CharaActionOutcome::NameReserved { name: action.name.clone(), segment }
                } else {
                    let segment = build_error_segment(
                        action.sequence,
                        NAME_TAKEN_ERROR,
                        NAME_TAKEN_EXD_ERROR,
                        timestamp,
                    );
                    CharaActionOutcome::NameTaken { segment }
                }
            },
            _ => CharaActionOutcome::ReplyMismatch,
        },
        LobbyCharacterActionKind::Create => match response {
            CustomIpcData::CharacterCreated { actor_id, content_id } => {
                let segment = chara_make_ack(action, *actor_id as u64, timestamp);
                CharaActionOutcome::Acknowledged { segment }
            },
            _ => CharaActionOutcome::ReplyMismatch,
        },
        LobbyCharacterActionKind::Delete => {
            let segment = chara_make_ack(action, action.person_type, timestamp);
            CharaActionOutcome::Acknowledged { segment }
        },
        _ => CharaActionOutcome::ReplyMismatch,
    }
}

/// The character-action acknowledgement segment.
fn chara_make_ack(action: &CharaMake, player_id: u64, timestamp: u32) -> (r: PacketSegment<
    ServerLobbyIpcData,
>)
    requires
        action.sequence < u64::MAX,
    ensures
        is_chara_make_ack(r, *action, player_id, timestamp),
{
    let server_name: String = gilgamesh_name();
    let reply = ServerLobbyIpcData::CharaMakeReply {
        sequence: action.sequence + 1,
        unk1: 1,
        unk2: 1,
        action: LobbyCharacterActionKind::Create,
        player_id,
        unk3: 0x400017,
        ticket: 1,
        character_name: action.name.clone(),
        server_name,
    };
    let r = lobby_ipc_segment(reply, SERVER_LOBBY_OP_CHARA_MAKE_REPLY, timestamp);
    proof {
        broadcast use crate::wire::lemma_fit_bytes_len_auto;

        vstd::bytes::lemma_auto_spec_u16_to_from_le_bytes();
        vstd::bytes::lemma_auto_spec_u32_to_from_le_bytes();
        vstd::bytes::lemma_auto_spec_u64_to_from_le_bytes();
    }
    r
}

/// The default world's name.
fn gilgamesh_name() -> (r: String)
    ensures
        r@ == "Gilgamesh"@,
{
    let s: &str = "Gilgamesh";
    s.to_owned()
}

} // verus!
