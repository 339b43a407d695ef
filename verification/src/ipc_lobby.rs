//! The lobby sub-protocol's IPC tables: what the client sends the lobby
//! server (login, character list and world entry requests, character
//! actions) and what the lobby server sends back.
use crate::chara_make::{spec_action_kind_of_u8, spec_action_kind_u8, action_kind_of_u8,
    action_kind_u8, CharaMake, LobbyCharacterActionKind, CHARA_MAKE_SIZE};
use crate::common::{push_str_field, read_str_field, spec_read_str, str_field};
use crate::ipc::{IpcPayloadCodec, IpcSegment, MAX_IPC_PAYLOAD};
use crate::login_reply::{DistRetainerInfo, LoginReply, NackReply};
use crate::server_list::DistWorldInfo;
use crate::service_login_reply::ServiceLoginReply;
use crate::wire::{push_bytes, push_u16_le, push_u32_le, push_u64_le, push_u8, push_zeroes,
    read_u16_le, read_u32_le, read_u64_le, read_u8, zeroes};
use vstd::bytes::{spec_u16_to_le_bytes, spec_u32_to_le_bytes, spec_u64_to_le_bytes};
use vstd::prelude::*;
use vstd::string::StringSliceAdditionalSpecFns;

verus! {

pub const CLIENT_LOBBY_OP_LOGIN_EX: u16 = 3;

pub const CLIENT_LOBBY_OP_SERVICE_LOGIN: u16 = 5;

pub const CLIENT_LOBBY_OP_CHARA_MAKE: u16 = 11;

pub const CLIENT_LOBBY_OP_GAME_LOGIN: u16 = 14;

/// Whether an opcode belongs to the client-to-lobby table.
pub open spec fn is_known_client_lobby_opcode(op: u16) -> bool {
    op == CLIENT_LOBBY_OP_LOGIN_EX || op == CLIENT_LOBBY_OP_SERVICE_LOGIN || op
        == CLIENT_LOBBY_OP_CHARA_MAKE || op == CLIENT_LOBBY_OP_GAME_LOGIN
}

pub const SERVER_LOBBY_OP_LOGIN_REPLY: u16 = 1;

pub const SERVER_LOBBY_OP_NACK_REPLY: u16 = 2;

pub const SERVER_LOBBY_OP_SERVICE_LOGIN_REPLY: u16 = 12;

pub const SERVER_LOBBY_OP_CHARA_MAKE_REPLY: u16 = 13;

pub const SERVER_LOBBY_OP_GAME_LOGIN_REPLY: u16 = 15;

pub const SERVER_LOBBY_OP_DIST_WORLD_INFO: u16 = 21;

pub const SERVER_LOBBY_OP_DIST_RETAINER_INFO: u16 = 22;

/// Whether an opcode belongs to the lobby-to-client table.
pub open spec fn is_known_server_lobby_opcode(op: u16) -> bool {
    op == SERVER_LOBBY_OP_LOGIN_REPLY || op == SERVER_LOBBY_OP_NACK_REPLY || op
        == SERVER_LOBBY_OP_SERVICE_LOGIN_REPLY || op == SERVER_LOBBY_OP_CHARA_MAKE_REPLY || op
        == SERVER_LOBBY_OP_GAME_LOGIN_REPLY || op == SERVER_LOBBY_OP_DIST_WORLD_INFO || op
        == SERVER_LOBBY_OP_DIST_RETAINER_INFO
}

/// Payloads sent by the client to the lobby server.
#[derive(Debug, Clone)]
pub enum ClientLobbyIpcData {
    /// Sent by the client when it requests the character list in the lobby.
    ServiceLogin { sequence: u64, account_index: u8, unk1: u8, unk2: u16, account_id: u32 },
    /// Sent by the client when it requests to enter a world.
    GameLogin { sequence: u64, content_id: u32, unk1: u32, ticket: u64 },
    /// Sent by the client after exchanging encryption information with the
    /// lobby server.
    LoginEx { sequence: u64, timestamp: u32, unk1: u32, session_id: String, version_info: String },
    /// Sent by the client when it requests something about a character,
    /// such as creation or deletion.
    CharaMake(CharaMake),
    /// Any opcode outside the table, captured without loss.
    Unknown { unk: Vec<u8> },
}

/// Payloads sent by the lobby server to the client.
#[derive(Debug, Clone)]
pub enum ServerLobbyIpcData {
    /// Sent by the server to indicate a lobby error occurred.
    NackReply(NackReply),
    /// Sent by the server to inform the client of their service accounts.
    LoginReply(LoginReply),
    /// Sent by the server to inform the client of their characters.
    ServiceLoginReply(ServiceLoginReply),
    /// Sent by the server to acknowledge a character action.
    CharaMakeReply {
        sequence: u64,
        unk1: u8,
        unk2: u8,
        action: LobbyCharacterActionKind,
        player_id: u64,
        unk3: u32,
        ticket: u32,
        character_name: String,
        server_name: String,
    },
    /// Sent by the server to tell the client how to connect to the world
    /// server.
    GameLoginReply { sequence: u64, actor_id: u32, content_id: u64, token: String, port: u16, host: String },
    /// Sent by the server to inform the client of the worlds.
    DistWorldInfo(DistWorldInfo),
    /// Sent by the server to inform the client of their retainers.
    DistRetainerInfo(DistRetainerInfo),
    /// Any opcode outside the table, captured without loss.
    Unknown { unk: Vec<u8> },
}

pub type ClientLobbyIpcSegment = IpcSegment<ClientLobbyIpcData>;

pub type ServerLobbyIpcSegment = IpcSegment<ServerLobbyIpcData>;

impl IpcPayloadCodec for ClientLobbyIpcData {
    open spec fn spec_payload(&self) -> Seq<u8> {
        match self {
            ClientLobbyIpcData::ServiceLogin { sequence, account_index, unk1, unk2, account_id } => {
                spec_u64_to_le_bytes(*sequence) + seq![*account_index, *unk1]
                    + spec_u16_to_le_bytes(*unk2) + spec_u32_to_le_bytes(*account_id)
            },
            ClientLobbyIpcData::GameLogin { sequence, content_id, unk1, ticket } => {
                spec_u64_to_le_bytes(*sequence) + spec_u32_to_le_bytes(*content_id)
                    + spec_u32_to_le_bytes(*unk1) + spec_u64_to_le_bytes(*ticket)
            },
            ClientLobbyIpcData::LoginEx { sequence, timestamp, unk1, session_id, version_info } => {
                spec_u64_to_le_bytes(*sequence) + spec_u32_to_le_bytes(*timestamp)
                    + spec_u32_to_le_bytes(*unk1) + str_field(session_id@, 64) + str_field(
                    version_info@,
                    32,
                )
            },
            ClientLobbyIpcData::CharaMake(c) => c.spec_encoded(),
            ClientLobbyIpcData::Unknown { unk } => unk@,
        }
    }

    open spec fn payload_wf(&self) -> bool {
        match self {
            ClientLobbyIpcData::Unknown { unk } => unk@.len() <= MAX_IPC_PAYLOAD,
            _ => true,
        }
    }

    open spec fn payload_decode_ok(op: u16, p: Seq<u8>) -> bool {
        if op == CLIENT_LOBBY_OP_SERVICE_LOGIN {
            p.len() == 16
        } else if op == CLIENT_LOBBY_OP_GAME_LOGIN {
            p.len() == 24
        } else if op == CLIENT_LOBBY_OP_LOGIN_EX {
            p.len() == 112
        } else if op == CLIENT_LOBBY_OP_CHARA_MAKE {
            CharaMake::decode_ok(p)
        } else {
            p.len() <= MAX_IPC_PAYLOAD
        }
    }

    /// An unrecognized opcode always decodes to `Unknown` holding exactly
    /// the payload bytes.
    open spec fn is_payload_decode_of(&self, op: u16, p: Seq<u8>) -> bool {
        match self {
            ClientLobbyIpcData::ServiceLogin { sequence, account_index, unk1, unk2, account_id } => {
                &&& op == CLIENT_LOBBY_OP_SERVICE_LOGIN
                &&& p.len() == 16
                &&& *sequence == vstd::bytes::spec_u64_from_le_bytes(p.subrange(0, 8))
                &&& *account_index == p[8]
                &&& *unk1 == p[9]
                &&& *unk2 == vstd::bytes::spec_u16_from_le_bytes(p.subrange(10, 12))
                &&& *account_id == vstd::bytes::spec_u32_from_le_bytes(p.subrange(12, 16))
            },
            ClientLobbyIpcData::GameLogin { sequence, content_id, unk1, ticket } => {
                &&& op == CLIENT_LOBBY_OP_GAME_LOGIN
                &&& p.len() == 24
                &&& *sequence == vstd::bytes::spec_u64_from_le_bytes(p.subrange(0, 8))
                &&& *content_id == vstd::bytes::spec_u32_from_le_bytes(p.subrange(8, 12))
                &&& *unk1 == vstd::bytes::spec_u32_from_le_bytes(p.subrange(12, 16))
                &&& *ticket == vstd::bytes::spec_u64_from_le_bytes(p.subrange(16, 24))
            },
            ClientLobbyIpcData::LoginEx { sequence, timestamp, unk1, session_id, version_info } => {
                &&& op == CLIENT_LOBBY_OP_LOGIN_EX
                &&& p.len() == 112
                &&& *sequence == vstd::bytes::spec_u64_from_le_bytes(p.subrange(0, 8))
                &&& *timestamp == vstd::bytes::spec_u32_from_le_bytes(p.subrange(8, 12))
                &&& *unk1 == vstd::bytes::spec_u32_from_le_bytes(p.subrange(12, 16))
                &&& session_id@ == spec_read_str(p, 16, 64)
                &&& version_info@ == spec_read_str(p, 80, 32)
            },
            ClientLobbyIpcData::CharaMake(c) => {
                &&& op == CLIENT_LOBBY_OP_CHARA_MAKE
                &&& c.is_decode_of(p)
            },
            ClientLobbyIpcData::Unknown { unk } => {
                &&& !is_known_client_lobby_opcode(op)
                &&& unk@ == p
            },
        }
    }

    fn payload_size(&self) -> (r: u32)
    {
        proof {
            broadcast use crate::wire::lemma_fit_bytes_len_auto;

            vstd::bytes::lemma_auto_spec_u16_to_from_le_bytes();
            vstd::bytes::lemma_auto_spec_u32_to_from_le_bytes();
            vstd::bytes::lemma_auto_spec_u64_to_from_le_bytes();
        }
        match self {
            ClientLobbyIpcData::ServiceLogin { .. } => 16,
            ClientLobbyIpcData::GameLogin { .. } => 24,
            ClientLobbyIpcData::LoginEx { .. } => 112,
            ClientLobbyIpcData::CharaMake(..) => CHARA_MAKE_SIZE as u32,
            ClientLobbyIpcData::Unknown { unk } => unk.len() as u32,
        }
    }

    fn encode_payload_into(&self, out: &mut Vec<u8>)
    {
        match self {
            ClientLobbyIpcData::ServiceLogin { sequence, account_index, unk1, unk2, account_id } => {
                push_u64_le(out, *sequence);
                push_u8(out, *account_index);
                push_u8(out, *unk1);
                push_u16_le(out, *unk2);
                push_u32_le(out, *account_id);
            },
            ClientLobbyIpcData::GameLogin { sequence, content_id, unk1, ticket } => {
                push_u64_le(out, *sequence);
                push_u32_le(out, *content_id);
                push_u32_le(out, *unk1);
                push_u64_le(out, *ticket);
            },
            ClientLobbyIpcData::LoginEx { sequence, timestamp, unk1, session_id, version_info } => {
                push_u64_le(out, *sequence);
                push_u32_le(out, *timestamp);
                push_u32_le(out, *unk1);
                push_str_field(out, session_id, 64);
                push_str_field(out, version_info, 32);
            },
            ClientLobbyIpcData::CharaMake(c) => c.encode_into(out),
            ClientLobbyIpcData::Unknown { unk } => push_bytes(out, unk.as_slice()),
        }
        proof {
            assert(final(out)@ =~= old(out)@ + self.spec_payload());
        }
    }

    fn decode_payload(op: u16, p: &[u8]) -> (r: Option<Self>)
    {
        proof {
            broadcast use crate::wire::lemma_fit_bytes_len_auto;

            vstd::bytes::lemma_auto_spec_u16_to_from_le_bytes();
            vstd::bytes::lemma_auto_spec_u32_to_from_le_bytes();
            vstd::bytes::lemma_auto_spec_u64_to_from_le_bytes();
        }
        let n = p.len();
        if op == CLIENT_LOBBY_OP_SERVICE_LOGIN {
            if n != 16 {
                return None;
            }
            Some(
                ClientLobbyIpcData::ServiceLogin {
                    sequence: read_u64_le(p, 0),
                    account_index: read_u8(p, 8),
                    unk1: read_u8(p, 9),
                    unk2: read_u16_le(p, 10),
                    account_id: read_u32_le(p, 12),
                },
            )
        } else if op == CLIENT_LOBBY_OP_GAME_LOGIN {
            if n != 24 {
                return None;
            }
            Some(
                ClientLobbyIpcData::GameLogin {
                    sequence: read_u64_le(p, 0),
                    content_id: read_u32_le(p, 8),
                    unk1: read_u32_le(p, 12),
                    ticket: read_u64_le(p, 16),
                },
            )
        } else if op == CLIENT_LOBBY_OP_LOGIN_EX {
            if n != 112 {
                return None;
            }
            Some(
                ClientLobbyIpcData::LoginEx {
                    sequence: read_u64_le(p, 0),
                    timestamp: read_u32_le(p, 8),
                    unk1: read_u32_le(p, 12),
                    session_id: read_str_field(p, 16, 64),
                    version_info: read_str_field(p, 80, 32),
                },
            )
        } else if op == CLIENT_LOBBY_OP_CHARA_MAKE {
            if n != CHARA_MAKE_SIZE {
                return None;
            }
            match CharaMake::decode(p) {
                Some(c) => Some(ClientLobbyIpcData::CharaMake(c)),
                None => None,
            }
        } else {
            if n > MAX_IPC_PAYLOAD as usize {
                return None;
            }
            Some(ClientLobbyIpcData::Unknown { unk: vstd::slice::slice_to_vec(p) })
        }
    }
}

/// Unknown-opcode tolerance: under any opcode outside the client-to-lobby
/// table, any payload buffer decodes, and only to the opaque variant holding
/// exactly the buffer's bytes.
pub proof fn lemma_client_lobby_unknown_opcode_tolerance(op: u16, p: Seq<u8>, d: ClientLobbyIpcData)
    requires
        !is_known_client_lobby_opcode(op),
        p.len() <= MAX_IPC_PAYLOAD,
    ensures
        ClientLobbyIpcData::payload_decode_ok(op, p),
        d.is_payload_decode_of(op, p) ==> (d matches ClientLobbyIpcData::Unknown { unk } && unk@
            == p),
{
}

impl IpcPayloadCodec for ServerLobbyIpcData {
    open spec fn spec_payload(&self) -> Seq<u8> {
        match self {
            ServerLobbyIpcData::NackReply(x) => x.spec_encoded(),
            ServerLobbyIpcData::LoginReply(x) => x.spec_encoded(),
            ServerLobbyIpcData::ServiceLoginReply(x) => x.spec_encoded(),
            ServerLobbyIpcData::CharaMakeReply {
                sequence,
                unk1,
                unk2,
                action,
                player_id,
                unk3,
                ticket,
                character_name,
                server_name,
            } => {
                spec_u64_to_le_bytes(*sequence) + seq![*unk1, *unk2, spec_action_kind_u8(*action)]
                    + zeroes(1) + spec_u64_to_le_bytes(*player_id) + spec_u32_to_le_bytes(*unk3)
                    + spec_u32_to_le_bytes(*ticket) + str_field(character_name@, 32) + str_field(
                    server_name@,
                    32,
                ) + zeroes(4)
            },
            ServerLobbyIpcData::GameLoginReply { sequence, actor_id, content_id, token, port, host } => {
                spec_u64_to_le_bytes(*sequence) + spec_u32_to_le_bytes(*actor_id) + zeroes(4)
                    + spec_u64_to_le_bytes(*content_id) + zeroes(4) + str_field(token@, 66)
                    + spec_u16_to_le_bytes(*port) + str_field(host@, 48) + zeroes(16)
            },
            ServerLobbyIpcData::DistWorldInfo(x) => x.spec_encoded(),
            ServerLobbyIpcData::DistRetainerInfo(x) => x.spec_encoded(),
            ServerLobbyIpcData::Unknown { unk } => unk@,
        }
    }

    open spec fn payload_wf(&self) -> bool {
        match self {
            ServerLobbyIpcData::LoginReply(x) => x.wf(),
            ServerLobbyIpcData::ServiceLoginReply(x) => x.wf(),
            ServerLobbyIpcData::DistWorldInfo(x) => x.wf(),
            ServerLobbyIpcData::Unknown { unk } => unk@.len() <= MAX_IPC_PAYLOAD,
            _ => true,
        }
    }

    open spec fn payload_decode_ok(op: u16, p: Seq<u8>) -> bool {
        if op == SERVER_LOBBY_OP_NACK_REPLY {
            p.len() == 24
        } else if op == SERVER_LOBBY_OP_LOGIN_REPLY {
            p.len() == 656
        } else if op == SERVER_LOBBY_OP_SERVICE_LOGIN_REPLY {
            p.len() == 944
        } else if op == SERVER_LOBBY_OP_CHARA_MAKE_REPLY {
            p.len() == 96 && spec_action_kind_of_u8(p[10]) is Some
        } else if op == SERVER_LOBBY_OP_GAME_LOGIN_REPLY {
            p.len() == 160
        } else if op == SERVER_LOBBY_OP_DIST_WORLD_INFO {
            p.len() == 496
        } else if op == SERVER_LOBBY_OP_DIST_RETAINER_INFO {
            p.len() == 72
        } else {
            p.len() <= MAX_IPC_PAYLOAD
        }
    }

    /// An unrecognized opcode always decodes to `Unknown` holding exactly
    /// the payload bytes.
    open spec fn is_payload_decode_of(&self, op: u16, p: Seq<u8>) -> bool {
        match self {
            ServerLobbyIpcData::NackReply(x) => {
                op == SERVER_LOBBY_OP_NACK_REPLY && x.is_decode_of(p)
            },
            ServerLobbyIpcData::LoginReply(x) => {
                op == SERVER_LOBBY_OP_LOGIN_REPLY && x.is_decode_of(p)
            },
            ServerLobbyIpcData::ServiceLoginReply(x) => {
                op == SERVER_LOBBY_OP_SERVICE_LOGIN_REPLY && x.is_decode_of(p)
            },
            ServerLobbyIpcData::CharaMakeReply {
                sequence,
                unk1,
                unk2,
                action,
                player_id,
                unk3,
                ticket,
                character_name,
                server_name,
            } => {
                &&& op == SERVER_LOBBY_OP_CHARA_MAKE_REPLY
                &&& p.len() == 96
                &&& *sequence == vstd::bytes::spec_u64_from_le_bytes(p.subrange(0, 8))
                &&& *unk1 == p[8]
                &&& *unk2 == p[9]
                &&& Some(*action) == spec_action_kind_of_u8(p[10])
                &&& *player_id == vstd::bytes::spec_u64_from_le_bytes(p.subrange(12, 20))
                &&& *unk3 == vstd::bytes::spec_u32_from_le_bytes(p.subrange(20, 24))
                &&& *ticket == vstd::bytes::spec_u32_from_le_bytes(p.subrange(24, 28))
                &&& character_name@ == spec_read_str(p, 28, 32)
                &&& server_name@ == spec_read_str(p, 60, 32)
            },
            ServerLobbyIpcData::GameLoginReply { sequence, actor_id, content_id, token, port, host } => {
                &&& op == SERVER_LOBBY_OP_GAME_LOGIN_REPLY
                &&& p.len() == 160
                &&& *sequence == vstd::bytes::spec_u64_from_le_bytes(p.subrange(0, 8))
                &&& *actor_id == vstd::bytes::spec_u32_from_le_bytes(p.subrange(8, 12))
                &&& *content_id == vstd::bytes::spec_u64_from_le_bytes(p.subrange(16, 24))
                &&& token@ == spec_read_str(p, 28, 66)
                &&& *port == vstd::bytes::spec_u16_from_le_bytes(p.subrange(94, 96))
                &&& host@ == spec_read_str(p, 96, 48)
            },
            ServerLobbyIpcData::DistWorldInfo(x) => {
                op == SERVER_LOBBY_OP_DIST_WORLD_INFO && x.is_decode_of(p)
            },
            ServerLobbyIpcData::DistRetainerInfo(x) => {
                op == SERVER_LOBBY_OP_DIST_RETAINER_INFO && x.is_decode_of(p)
            },
            ServerLobbyIpcData::Unknown { unk } => {
                &&& !is_known_server_lobby_opcode(op)
                &&& unk@ == p
            },
        }
    }

    fn payload_size(&self) -> (r: u32)
    {
        proof {
            broadcast use crate::wire::lemma_fit_bytes_len_auto;

            vstd::bytes::lemma_auto_spec_u16_to_from_le_bytes();
            vstd::bytes::lemma_auto_spec_u32_to_from_le_bytes();
            vstd::bytes::lemma_auto_spec_u64_to_from_le_bytes();
        }
        match self {
            ServerLobbyIpcData::NackReply(..) => 24,
            ServerLobbyIpcData::LoginReply(..) => 656,
            ServerLobbyIpcData::ServiceLoginReply(..) => 944,
            ServerLobbyIpcData::CharaMakeReply { .. } => 96,
            ServerLobbyIpcData::GameLoginReply { .. } => 160,
            ServerLobbyIpcData::DistWorldInfo(..) => 496,
            ServerLobbyIpcData::DistRetainerInfo(..) => 72,
            ServerLobbyIpcData::Unknown { unk } => unk.len() as u32,
        }
    }

    fn encode_payload_into(&self, out: &mut Vec<u8>)
    {
        match self {
            ServerLobbyIpcData::NackReply(x) => x.encode_into(out),
            ServerLobbyIpcData::LoginReply(x) => x.encode_into(out),
            ServerLobbyIpcData::ServiceLoginReply(x) => x.encode_into(out),
            ServerLobbyIpcData::CharaMakeReply {
                sequence,
                unk1,
                unk2,
                action,
                player_id,
                unk3,
                ticket,
                character_name,
                server_name,
            } => {
                push_u64_le(out, *sequence);
                push_u8(out, *unk1);
                push_u8(out, *unk2);
                push_u8(out, action_kind_u8(*action));
                push_zeroes(out, 1);
                push_u64_le(out, *player_id);
                push_u32_le(out, *unk3);
                push_u32_le(out, *ticket);
                push_str_field(out, character_name, 32);
                push_str_field(out, server_name, 32);
                push_zeroes(out, 4);
            },
            ServerLobbyIpcData::GameLoginReply { sequence, actor_id, content_id, token, port, host } => {
                push_u64_le(out, *sequence);
                push_u32_le(out, *actor_id);
                push_zeroes(out, 4);
                push_u64_le(out, *content_id);
                push_zeroes(out, 4);
                push_str_field(out, token, 66);
                push_u16_le(out, *port);
                push_str_field(out, host, 48);
                push_zeroes(out, 16);
            },
            ServerLobbyIpcData::DistWorldInfo(x) => x.encode_into(out),
            ServerLobbyIpcData::DistRetainerInfo(x) => x.encode_into(out),
            ServerLobbyIpcData::Unknown { unk } => push_bytes(out, unk.as_slice()),
        }
        proof {
            assert(final(out)@ =~= old(out)@ + self.spec_payload());
        }
    }

    fn decode_payload(op: u16, p: &[u8]) -> (r: Option<Self>)
    {
        proof {
            broadcast use crate::wire::lemma_fit_bytes_len_auto;

            vstd::bytes::lemma_auto_spec_u16_to_from_le_bytes();
            vstd::bytes::lemma_auto_spec_u32_to_from_le_bytes();
            vstd::bytes::lemma_auto_spec_u64_to_from_le_bytes();
        }
        let n = p.len();
        if op == SERVER_LOBBY_OP_NACK_REPLY {
            if n != 24 {
                return None;
            }
            Some(ServerLobbyIpcData::NackReply(NackReply::decode(p)))
        } else if op == SERVER_LOBBY_OP_LOGIN_REPLY {
            if n != 656 {
                return None;
            }
            Some(ServerLobbyIpcData::LoginReply(LoginReply::decode(p)))
        } else if op == SERVER_LOBBY_OP_SERVICE_LOGIN_REPLY {
            if n != 944 {
                return None;
            }
            Some(ServerLobbyIpcData::ServiceLoginReply(ServiceLoginReply::decode(p)))
        } else if op == SERVER_LOBBY_OP_CHARA_MAKE_REPLY {
            if n != 96 {
                return None;
            }
            let action = match action_kind_of_u8(read_u8(p, 10)) {
                Some(a) => a,
                None => {
                    return None;
                },
            };
            Some(
                ServerLobbyIpcData::CharaMakeReply {
                    sequence: read_u64_le(p, 0),
                    unk1: read_u8(p, 8),
                    unk2: read_u8(p, 9),
                    action,
                    player_id: read_u64_le(p, 12),
                    unk3: read_u32_le(p, 20),
                    ticket: read_u32_le(p, 24),
                    character_name: read_str_field(p, 28, 32),
                    server_name: read_str_field(p, 60, 32),
                },
            )
        } else if op == SERVER_LOBBY_OP_GAME_LOGIN_REPLY {
            if n != 160 {
                return None;
            }
            Some(
                ServerLobbyIpcData::GameLoginReply {
                    sequence: read_u64_le(p, 0),
                    actor_id: read_u32_le(p, 8),
                    content_id: read_u64_le(p, 16),
                    token: read_str_field(p, 28, 66),
                    port: read_u16_le(p, 94),
                    host: read_str_field(p, 96, 48),
                },
            )
        } else if op == SERVER_LOBBY_OP_DIST_WORLD_INFO {
            if n != 496 {
                return None;
            }
            Some(ServerLobbyIpcData::DistWorldInfo(DistWorldInfo::decode(p)))
        } else if op == SERVER_LOBBY_OP_DIST_RETAINER_INFO {
            if n != 72 {
                return None;
            }
            Some(ServerLobbyIpcData::DistRetainerInfo(DistRetainerInfo::decode(p)))
        } else {
            if n > MAX_IPC_PAYLOAD as usize {
                return None;
            }
            Some(ServerLobbyIpcData::Unknown { unk: vstd::slice::slice_to_vec(p) })
        }
    }
}

/// Unknown-opcode tolerance: under any opcode outside the lobby-to-client
/// table, any payload buffer decodes, and only to the opaque variant holding
/// exactly the buffer's bytes.
pub proof fn lemma_server_lobby_unknown_opcode_tolerance(op: u16, p: Seq<u8>, d: ServerLobbyIpcData)
    requires
        !is_known_server_lobby_opcode(op),
        p.len() <= MAX_IPC_PAYLOAD,
    ensures
        ServerLobbyIpcData::payload_decode_ok(op, p),
        d.is_payload_decode_of(op, p) ==> (d matches ServerLobbyIpcData::Unknown { unk } && unk@
            == p),
{
}

impl Default for ClientLobbyIpcSegment {
    /// A zeroed login request with the reserved header constant.
    fn default() -> (r: Self)
        ensures
            r.unk1 == 0x14,
            r.unk2 == 0,
            r.op_code == CLIENT_LOBBY_OP_LOGIN_EX,
            r.option == 0,
            r.timestamp == 0,
            r.data is LoginEx,
            r.wf(),
    {
        IpcSegment {
            unk1: 0x14,
            unk2: 0,
            op_code: CLIENT_LOBBY_OP_LOGIN_EX,
            option: 0,
            timestamp: 0,
            data: ClientLobbyIpcData::LoginEx {
                sequence: 0,
                timestamp: 0,
                unk1: 0,
                session_id: String::new(),
                version_info: String::new(),
            },
        }
    }
}

impl Default for ServerLobbyIpcSegment {
    /// A zeroed error reply with the reserved header constant.
    fn default() -> (r: Self)
        ensures
            r.unk1 == 0x14,
            r.unk2 == 0,
            r.op_code == SERVER_LOBBY_OP_NACK_REPLY,
            r.option == 0,
            r.timestamp == 0,
            r.data is NackReply,
            r.wf(),
    {
        IpcSegment {
            unk1: 0x14,
            unk2: 0,
            op_code: SERVER_LOBBY_OP_NACK_REPLY,
            option: 0,
            timestamp: 0,
            data: ServerLobbyIpcData::NackReply(
                NackReply { sequence: 0, error: 0, value: 0, exd_error_id: 0, unk1: 0 },
            ),
        }
    }
}

} // verus!
