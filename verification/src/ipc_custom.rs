//! The internal control-plane IPC table: the requests one server process
//! sends another (create or delete a character, resolve an actor id, check
//! a name, list characters) and their replies. Never encrypted; carried by
//! the reserved internal segment kind.
use crate::common::{push_str_field, read_str_field, spec_read_str, str_field};
use crate::ipc::{IpcPayloadCodec, IpcSegment, MAX_IPC_PAYLOAD};
use crate::service_login_reply::{CharacterDetails, CHARACTER_DETAILS_SIZE};
use crate::wire::{push_bytes, push_u32_le, push_u64_le, push_u8, push_zeroes, read_u32_le,
    read_u64_le, read_u8, zeroes};
use vstd::bytes::{spec_u32_to_le_bytes, spec_u64_to_le_bytes};
use vstd::prelude::*;
use vstd::string::StringSliceAdditionalSpecFns;

verus! {

pub const CUSTOM_OP_REQUEST_CREATE_CHARACTER: u16 = 1;

pub const CUSTOM_OP_CHARACTER_CREATED: u16 = 2;

pub const CUSTOM_OP_GET_ACTOR_ID: u16 = 3;

pub const CUSTOM_OP_ACTOR_ID_FOUND: u16 = 4;

pub const CUSTOM_OP_CHECK_NAME_IS_AVAILABLE: u16 = 5;

pub const CUSTOM_OP_NAME_IS_AVAILABLE_RESPONSE: u16 = 6;

pub const CUSTOM_OP_REQUEST_CHARACTER_LIST: u16 = 7;

pub const CUSTOM_OP_REQUEST_CHARACTER_LIST_RESPONSE: u16 = 8;

pub const CUSTOM_OP_DELETE_CHARACTER: u16 = 9;

pub const CUSTOM_OP_CHARACTER_DELETED: u16 = 10;

/// Whether an opcode belongs to the control-plane table.
pub open spec fn is_known_custom_opcode(op: u16) -> bool {
    1 <= op <= 10
}

/// Payloads of the internal control-plane sub-protocol.
#[derive(Debug, Clone)]
pub enum CustomIpcData {
    /// Ask the world server to create a character from a name and a base64
    /// appearance blob.
    RequestCreateCharacter { service_account_id: u32, name: String, encoded: String },
    /// The world server's reply: the new character's identifiers.
    CharacterCreated { actor_id: u32, content_id: u64 },
    /// Ask the world server which actor a content id belongs to.
    GetActorId { content_id: u64 },
    /// The world server's reply to an actor-id lookup.
    ActorIdFound { actor_id: u32 },
    /// Ask the world server whether a character name is still free.
    CheckNameIsAvailable { name: String },
    /// The world server's reply to a name check.
    NameIsAvailableResponse { free: bool },
    /// Ask the world server for a service account's character list.
    RequestCharacterList { service_account_id: u32 },
    /// The world server's reply: up to eight character-list entries.
    RequestCharacterListResponse { num_characters: u8, characters: Vec<CharacterDetails> },
    /// Ask the world server to delete a character.
    DeleteCharacter { content_id: u64 },
    /// The world server's reply to a deletion.
    CharacterDeleted { deleted: u8 },
    /// Any opcode outside the table, captured without loss.
    Unknown { unk: Vec<u8> },
}

pub type CustomIpcSegment = IpcSegment<CustomIpcData>;

/// The opcode each payload travels under.
pub open spec fn spec_custom_opcode(d: &CustomIpcData) -> u16 {
    match d {
        CustomIpcData::RequestCreateCharacter { .. } => CUSTOM_OP_REQUEST_CREATE_CHARACTER,
        CustomIpcData::CharacterCreated { .. } => CUSTOM_OP_CHARACTER_CREATED,
        CustomIpcData::GetActorId { .. } => CUSTOM_OP_GET_ACTOR_ID,
        CustomIpcData::ActorIdFound { .. } => CUSTOM_OP_ACTOR_ID_FOUND,
        CustomIpcData::CheckNameIsAvailable { .. } => CUSTOM_OP_CHECK_NAME_IS_AVAILABLE,
        CustomIpcData::NameIsAvailableResponse { .. } => CUSTOM_OP_NAME_IS_AVAILABLE_RESPONSE,
        CustomIpcData::RequestCharacterList { .. } => CUSTOM_OP_REQUEST_CHARACTER_LIST,
        CustomIpcData::RequestCharacterListResponse { .. } => CUSTOM_OP_REQUEST_CHARACTER_LIST_RESPONSE,
        CustomIpcData::DeleteCharacter { .. } => CUSTOM_OP_DELETE_CHARACTER,
        CustomIpcData::CharacterDeleted { .. } => CUSTOM_OP_CHARACTER_DELETED,
        CustomIpcData::Unknown { .. } => 0,
    }
}

/// The opcode each payload travels under.
pub fn custom_opcode(d: &CustomIpcData) -> (r: u16)
    ensures
        r == spec_custom_opcode(d),
{
    match d {
        CustomIpcData::RequestCreateCharacter { .. } => CUSTOM_OP_REQUEST_CREATE_CHARACTER,
        CustomIpcData::CharacterCreated { .. } => CUSTOM_OP_CHARACTER_CREATED,
        CustomIpcData::GetActorId { .. } => CUSTOM_OP_GET_ACTOR_ID,
        CustomIpcData::ActorIdFound { .. } => CUSTOM_OP_ACTOR_ID_FOUND,
        CustomIpcData::CheckNameIsAvailable { .. } => CUSTOM_OP_CHECK_NAME_IS_AVAILABLE,
        CustomIpcData::NameIsAvailableResponse { .. } => CUSTOM_OP_NAME_IS_AVAILABLE_RESPONSE,
        CustomIpcData::RequestCharacterList { .. } => CUSTOM_OP_REQUEST_CHARACTER_LIST,
        CustomIpcData::RequestCharacterListResponse { .. } => CUSTOM_OP_REQUEST_CHARACTER_LIST_RESPONSE,
        CustomIpcData::DeleteCharacter { .. } => CUSTOM_OP_DELETE_CHARACTER,
        CustomIpcData::CharacterDeleted { .. } => CUSTOM_OP_CHARACTER_DELETED,
        CustomIpcData::Unknown { .. } => 0,
    }
}

/// The concatenated character-list slots: the given entries, zero-padded to
/// eight slots.
pub open spec fn spec_charlist_slots(characters: Seq<CharacterDetails>) -> Seq<u8> {
    crate::wire::fit_bytes(
        characters.fold_left(Seq::<u8>::empty(), |acc: Seq<u8>, c: CharacterDetails| acc + c.spec_encoded()),
        (8 * CHARACTER_DETAILS_SIZE) as nat,
    )
}

impl IpcPayloadCodec for CustomIpcData {
    /// The exact payload bytes of each request and reply.
    open spec fn spec_payload(&self) -> Seq<u8> {
        match self {
            CustomIpcData::RequestCreateCharacter { service_account_id, name, encoded } => {
                spec_u32_to_le_bytes(*service_account_id) + zeroes(4) + str_field(name@, 32)
                    + str_field(encoded@, 416)
            },
            CustomIpcData::CharacterCreated { actor_id, content_id } => {
                spec_u32_to_le_bytes(*actor_id) + zeroes(4) + spec_u64_to_le_bytes(*content_id)
            },
            CustomIpcData::GetActorId { content_id } => spec_u64_to_le_bytes(*content_id),
            CustomIpcData::ActorIdFound { actor_id } => {
                spec_u32_to_le_bytes(*actor_id) + zeroes(4)
            },
            CustomIpcData::CheckNameIsAvailable { name } => str_field(name@, 32),
            CustomIpcData::NameIsAvailableResponse { free } => {
                seq![if *free { 1u8 } else { 0u8 }] + zeroes(7)
            },
            CustomIpcData::RequestCharacterList { service_account_id } => {
                spec_u32_to_le_bytes(*service_account_id) + zeroes(4)
            },
            CustomIpcData::RequestCharacterListResponse { num_characters, characters } => {
                seq![*num_characters] + zeroes(7) + spec_charlist_slots(characters@)
            },
            CustomIpcData::DeleteCharacter { content_id } => spec_u64_to_le_bytes(*content_id),
            CustomIpcData::CharacterDeleted { deleted } => seq![*deleted] + zeroes(7),
            CustomIpcData::Unknown { unk } => unk@,
        }
    }

    open spec fn payload_wf(&self) -> bool {
        match self {
            CustomIpcData::RequestCharacterListResponse { num_characters, characters } => {
                characters@.len() <= 8
            },
            CustomIpcData::Unknown { unk } => unk@.len() <= MAX_IPC_PAYLOAD,
            _ => true,
        }
    }

    open spec fn payload_decode_ok(op: u16, p: Seq<u8>) -> bool {
        if op == CUSTOM_OP_REQUEST_CREATE_CHARACTER {
            p.len() == 456
        } else if op == CUSTOM_OP_CHARACTER_CREATED {
            p.len() == 16
        } else if op == CUSTOM_OP_GET_ACTOR_ID {
            p.len() == 8
        } else if op == CUSTOM_OP_ACTOR_ID_FOUND {
            p.len() == 8
        } else if op == CUSTOM_OP_CHECK_NAME_IS_AVAILABLE {
            p.len() == 32
        } else if op == CUSTOM_OP_NAME_IS_AVAILABLE_RESPONSE {
            p.len() == 8
        } else if op == CUSTOM_OP_REQUEST_CHARACTER_LIST {
            p.len() == 8
        } else if op == CUSTOM_OP_REQUEST_CHARACTER_LIST_RESPONSE {
            p.len() == 8 + 8 * CHARACTER_DETAILS_SIZE
        } else if op == CUSTOM_OP_DELETE_CHARACTER {
            p.len() == 8
        } else if op == CUSTOM_OP_CHARACTER_DELETED {
            p.len() == 8
        } else {
            p.len() <= MAX_IPC_PAYLOAD
        }
    }

    /// An unrecognized opcode always decodes to `Unknown` holding exactly
    /// the payload bytes.
    open spec fn is_payload_decode_of(&self, op: u16, p: Seq<u8>) -> bool {
        match self {
            CustomIpcData::RequestCreateCharacter { service_account_id, name, encoded } => {
                &&& op == CUSTOM_OP_REQUEST_CREATE_CHARACTER
                &&& p.len() == 456
                &&& *service_account_id == vstd::bytes::spec_u32_from_le_bytes(p.subrange(0, 4))
                &&& name@ == spec_read_str(p, 8, 32)
                &&& encoded@ == spec_read_str(p, 40, 416)
            },
            CustomIpcData::CharacterCreated { actor_id, content_id } => {
                &&& op == CUSTOM_OP_CHARACTER_CREATED
                &&& p.len() == 16
                &&& *actor_id == vstd::bytes::spec_u32_from_le_bytes(p.subrange(0, 4))
                &&& *content_id == vstd::bytes::spec_u64_from_le_bytes(p.subrange(8, 16))
            },
            CustomIpcData::GetActorId { content_id } => {
                &&& op == CUSTOM_OP_GET_ACTOR_ID
                &&& p.len() == 8
                &&& *content_id == vstd::bytes::spec_u64_from_le_bytes(p.subrange(0, 8))
            },
            CustomIpcData::ActorIdFound { actor_id } => {
                &&& op == CUSTOM_OP_ACTOR_ID_FOUND
                &&& p.len() == 8
                &&& *actor_id == vstd::bytes::spec_u32_from_le_bytes(p.subrange(0, 4))
            },
            CustomIpcData::CheckNameIsAvailable { name } => {
                &&& op == CUSTOM_OP_CHECK_NAME_IS_AVAILABLE
                &&& p.len() == 32
                &&& name@ == spec_read_str(p, 0, 32)
            },
            CustomIpcData::NameIsAvailableResponse { free } => {
                &&& op == CUSTOM_OP_NAME_IS_AVAILABLE_RESPONSE
                &&& p.len() == 8
                &&& *free == (p[0] == 1)
            },
            CustomIpcData::RequestCharacterList { service_account_id } => {
                &&& op == CUSTOM_OP_REQUEST_CHARACTER_LIST
                &&& p.len() == 8
                &&& *service_account_id == vstd::bytes::spec_u32_from_le_bytes(p.subrange(0, 4))
            },
            CustomIpcData::RequestCharacterListResponse { num_characters, characters } => {
                &&& op == CUSTOM_OP_REQUEST_CHARACTER_LIST_RESPONSE
                &&& p.len() == 8 + 8 * CHARACTER_DETAILS_SIZE
                &&& *num_characters == p[0]
                &&& characters@.len() == 8
                &&& forall|j: int|
                    0 <= j < 8 ==> characters@[j].is_decode_of(
                        p.subrange(8 + 464 * j, 8 + 464 * (j + 1)),
                    )
            },
            CustomIpcData::DeleteCharacter { content_id } => {
                &&& op == CUSTOM_OP_DELETE_CHARACTER
                &&& p.len() == 8
                &&& *content_id == vstd::bytes::spec_u64_from_le_bytes(p.subrange(0, 8))
            },
            CustomIpcData::CharacterDeleted { deleted } => {
                &&& op == CUSTOM_OP_CHARACTER_DELETED
                &&& p.len() == 8
                &&& *deleted == p[0]
            },
            CustomIpcData::Unknown { unk } => {
                &&& !is_known_custom_opcode(op)
                &&& unk@ == p
            },
        }
    }

    fn payload_size(&self) -> (r: u32)
    {
        proof {
            broadcast use crate::wire::lemma_fit_bytes_len_auto;

            vstd::bytes::lemma_auto_spec_u32_to_from_le_bytes();
            vstd::bytes::lemma_auto_spec_u64_to_from_le_bytes();
        }
        match self {
            CustomIpcData::RequestCreateCharacter { .. } => 456,
            CustomIpcData::CharacterCreated { .. } => 16,
            CustomIpcData::GetActorId { .. } => 8,
            CustomIpcData::ActorIdFound { .. } => 8,
            CustomIpcData::CheckNameIsAvailable { .. } => 32,
            CustomIpcData::NameIsAvailableResponse { .. } => 8,
            CustomIpcData::RequestCharacterList { .. } => 8,
            CustomIpcData::RequestCharacterListResponse { num_characters, characters } => {
                proof {
                    crate::wire::lemma_fit_bytes_len(
                        characters@.fold_left(
                            Seq::<u8>::empty(),
                            |acc: Seq<u8>, c: CharacterDetails| acc + c.spec_encoded(),
                        ),
                        (8 * CHARACTER_DETAILS_SIZE) as nat,
                    );
                }
                8 + 8 * CHARACTER_DETAILS_SIZE as u32
            },
            CustomIpcData::DeleteCharacter { .. } => 8,
            CustomIpcData::CharacterDeleted { .. } => 8,
            CustomIpcData::Unknown { unk } => unk.len() as u32,
        }
    }

    fn encode_payload_into(&self, out: &mut Vec<u8>)
    {
        match self {
            CustomIpcData::RequestCreateCharacter { service_account_id, name, encoded } => {
                push_u32_le(out, *service_account_id);
                push_zeroes(out, 4);
                push_str_field(out, name, 32);
                push_str_field(out, encoded, 416);
            },
            CustomIpcData::CharacterCreated { actor_id, content_id } => {
                push_u32_le(out, *actor_id);
                push_zeroes(out, 4);
                push_u64_le(out, *content_id);
            },
            CustomIpcData::GetActorId { content_id } => push_u64_le(out, *content_id),
            CustomIpcData::ActorIdFound { actor_id } => {
                push_u32_le(out, *actor_id);
                push_zeroes(out, 4);
            },
            CustomIpcData::CheckNameIsAvailable { name } => push_str_field(out, name, 32),
            CustomIpcData::NameIsAvailableResponse { free } => {
                push_u8(out, if *free { 1 } else { 0 });
                push_zeroes(out, 7);
            },
            CustomIpcData::RequestCharacterList { service_account_id } => {
                push_u32_le(out, *service_account_id);
                push_zeroes(out, 4);
            },
            CustomIpcData::RequestCharacterListResponse { num_characters, characters } => {
                push_u8(out, *num_characters);
                push_zeroes(out, 7);
                let mut body: Vec<u8> = Vec::new();
                let mut i: usize = 0;
                while i < characters.len()
                    invariant
                        i <= characters@.len() <= 8,
                        body@ == characters@.take(i as int).fold_left(
                            Seq::<u8>::empty(),
                            |acc: Seq<u8>, c: CharacterDetails| acc + c.spec_encoded(),
                        ),
                        body@.len() == i * CHARACTER_DETAILS_SIZE,
                    decreases characters@.len() - i,
                {
                    characters[i].encode_into(&mut body);
                    proof {
                        assert(characters@.take(i + 1).drop_last() =~= characters@.take(i as int));
                        assert(characters@.take(i + 1).last() == characters@[i as int]);
                    }
                    i = i + 1;
                }
                proof {
                    assert(characters@.take(characters@.len() as int) =~= characters@);
                }
                crate::wire::push_fit_bytes(out, body.as_slice(), 8 * CHARACTER_DETAILS_SIZE);
            },
            CustomIpcData::DeleteCharacter { content_id } => push_u64_le(out, *content_id),
            CustomIpcData::CharacterDeleted { deleted } => {
                push_u8(out, *deleted);
                push_zeroes(out, 7);
            },
            CustomIpcData::Unknown { unk } => push_bytes(out, unk.as_slice()),
        }
        proof {
            assert(final(out)@ =~= old(out)@ + self.spec_payload());
        }
    }

    fn decode_payload(op: u16, p: &[u8]) -> (r: Option<Self>)
    {
        let n = p.len();
        if op == CUSTOM_OP_REQUEST_CREATE_CHARACTER {
            if n != 456 {
                return None;
            }
            Some(
                CustomIpcData::RequestCreateCharacter {
                    service_account_id: read_u32_le(p, 0),
                    name: read_str_field(p, 8, 32),
                    encoded: read_str_field(p, 40, 416),
                },
            )
        } else if op == CUSTOM_OP_CHARACTER_CREATED {
            if n != 16 {
                return None;
            }
            Some(
                CustomIpcData::CharacterCreated {
                    actor_id: read_u32_le(p, 0),
                    content_id: read_u64_le(p, 8),
                },
            )
        } else if op == CUSTOM_OP_GET_ACTOR_ID {
            if n != 8 {
                return None;
            }
            Some(CustomIpcData::GetActorId { content_id: read_u64_le(p, 0) })
        } else if op == CUSTOM_OP_ACTOR_ID_FOUND {
            if n != 8 {
                return None;
            }
            Some(CustomIpcData::ActorIdFound { actor_id: read_u32_le(p, 0) })
        } else if op == CUSTOM_OP_CHECK_NAME_IS_AVAILABLE {
            if n != 32 {
                return None;
            }
            Some(CustomIpcData::CheckNameIsAvailable { name: read_str_field(p, 0, 32) })
        } else if op == CUSTOM_OP_NAME_IS_AVAILABLE_RESPONSE {
            if n != 8 {
                return None;
            }
            Some(CustomIpcData::NameIsAvailableResponse { free: read_u8(p, 0) == 1 })
        } else if op == CUSTOM_OP_REQUEST_CHARACTER_LIST {
            if n != 8 {
                return None;
            }
            Some(CustomIpcData::RequestCharacterList { service_account_id: read_u32_le(p, 0) })
        } else if op == CUSTOM_OP_REQUEST_CHARACTER_LIST_RESPONSE {
            if n != 8 + 8 * CHARACTER_DETAILS_SIZE {
                return None;
            }
            let num_characters = read_u8(p, 0);
            let mut characters: Vec<CharacterDetails> = Vec::new();
            let mut i: usize = 0;
            while i < 8
                invariant
                    i <= 8,
                    p@.len() == 8 + 8 * CHARACTER_DETAILS_SIZE,
                    characters@.len() == i,
                    forall|j: int|
                        0 <= j < i ==> characters@[j].is_decode_of(
                            p@.subrange(8 + 464 * j, 8 + 464 * (j + 1)),
                        ),
                decreases 8 - i,
            {
                let c = CharacterDetails::decode_at(p, 8 + 464 * i);
                characters.push(c);
                i = i + 1;
            }
            Some(CustomIpcData::RequestCharacterListResponse { num_characters, characters })
        } else if op == CUSTOM_OP_DELETE_CHARACTER {
            if n != 8 {
                return None;
            }
            Some(CustomIpcData::DeleteCharacter { content_id: read_u64_le(p, 0) })
        } else if op == CUSTOM_OP_CHARACTER_DELETED {
            if n != 8 {
                return None;
            }
            Some(CustomIpcData::CharacterDeleted { deleted: read_u8(p, 0) })
        } else {
            if n > MAX_IPC_PAYLOAD as usize {
                return None;
            }
            Some(CustomIpcData::Unknown { unk: vstd::slice::slice_to_vec(p) })
        }
    }
}

/// Unknown-opcode tolerance: under any opcode outside the control-plane
/// table, any payload buffer decodes, and only to the opaque variant holding
/// exactly the buffer's bytes.
pub proof fn lemma_custom_unknown_opcode_tolerance(op: u16, p: Seq<u8>, d: CustomIpcData)
    requires
        !is_known_custom_opcode(op),
        p.len() <= MAX_IPC_PAYLOAD,
    ensures
        CustomIpcData::payload_decode_ok(op, p),
        d.is_payload_decode_of(op, p) ==> (d matches CustomIpcData::Unknown { unk } && unk@ == p),
{
}

impl Default for CustomIpcSegment {
    /// An empty opaque segment with the reserved header constant.
    fn default() -> (r: Self)
        ensures
            r.unk1 == 0x14,
            r.unk2 == 0,
            r.op_code == 0,
            r.option == 0,
            r.timestamp == 0,
            r.data is Unknown,
            r.data.spec_payload() == Seq::<u8>::empty(),
    {
        IpcSegment {
            unk1: 0x14,
            unk2: 0,
            op_code: 0,
            option: 0,
            timestamp: 0,
            data: CustomIpcData::Unknown { unk: Vec::new() },
        }
    }
}

} // verus!
