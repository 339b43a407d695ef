//! World-server logic: the decisions of the internal control-plane handler,
//! split from the storage collaborator that answers them, and the mapping
//! from a stored character record to the character-list entry the lobby
//! sends the client.
use crate::common::{b64_url_decode_of, b64_url_of, spec_decode_chara_info, CharaInfo,
    CHARA_INFO_SIZE};
use crate::ipc_custom::{CustomIpcData, CustomIpcSegment};
use crate::ipc::IpcSegment;
use crate::service_login_reply::{lp_str, CharacterDetails, CharacterFlag, FaceInfo,
    NeoClientSelectData, CHARACTER_FLAG_NONE};
use crate::wire::zeroes;
use vstd::bytes::{spec_u16_to_le_bytes, spec_u32_to_le_bytes};
use vstd::prelude::*;
use vstd::string::StringSliceAdditionalSpecFns;
use vstd::utf8::encode_utf8;

verus! {

/// One stored character record, as the persistence collaborator hands it
/// back: the identifying name and where the character lives.
#[derive(Debug, Clone)]
pub struct CharacterData {
    pub name: String,
    pub city_state: u8,
    pub zone_id: u16,
}

/// What the control-plane handler asks the persistence collaborator.
#[derive(Debug, Clone)]
pub enum StoreRequest {
    /// Insert a new character and hand back its identifiers.
    CreateCharacter { service_account_id: u32, name: String, chara_info: CharaInfo, city_state: u8, zone_id: u16 },
    /// Resolve the actor id a content id belongs to.
    FindActorId { content_id: u64 },
    /// Whether no character of this name exists yet.
    CheckName { name: String },
    /// All characters of one service account.
    ListCharacters { service_account_id: u32 },
    /// Remove a character and all its data.
    Delete { content_id: u64 },
}

/// What the persistence collaborator answered.
#[derive(Debug, Clone)]
pub enum StoreAnswer {
    Created { content_id: u64, actor_id: u32 },
    ActorId { actor_id: u32 },
    NameFree { free: bool },
    Characters { characters: Vec<CharacterDetails> },
    Deleted,
}

/// What the control-plane handler asks the store for one received request:
/// a creation request must carry a well-formed base64 appearance record of
/// the exact record size, or the request is dropped; replies and unknown
/// opcodes are never served.
pub fn custom_ipc_store_request(data: &CustomIpcData) -> (r: Option<StoreRequest>)
    ensures
        match *data {
            CustomIpcData::RequestCreateCharacter { service_account_id, ref name, ref encoded } => {
                &&& r is Some <==> (b64_url_decode_of(encoded@) is Some && b64_url_decode_of(
                    encoded@,
                ).unwrap().len() == CHARA_INFO_SIZE)
                &&& r is Some ==> match r.unwrap() {
                    StoreRequest::CreateCharacter {
                        service_account_id: s,
                        name: ref n,
                        chara_info,
                        city_state,
                        zone_id,
                    } => s == service_account_id && n@ == name@ && chara_info
                        == spec_decode_chara_info(b64_url_decode_of(encoded@).unwrap())
                        && city_state == chara_info.initial_town && zone_id == 0,
                    _ => false,
                }
            },
            CustomIpcData::GetActorId { content_id } => r == Some(
                StoreRequest::FindActorId { content_id },
            ),
            CustomIpcData::CheckNameIsAvailable { ref name } => {
                &&& r is Some
                &&& match r.unwrap() {
                    StoreRequest::CheckName { name: ref n } => n@ == name@,
                    _ => false,
                }
            },
            CustomIpcData::RequestCharacterList { service_account_id } => r == Some(
                StoreRequest::ListCharacters { service_account_id },
            ),
            CustomIpcData::DeleteCharacter { content_id } => r == Some(
                StoreRequest::Delete { content_id },
            ),
            _ => r is None,
        },
{
    match data {
        CustomIpcData::RequestCreateCharacter { service_account_id, name, encoded } => {
            let decoded = match crate::common::b64_url_decode(encoded.as_str()) {
                Some(d) => d,
                None => {
                    return None;
                },
            };
            let chara_info = match CharaInfo::decode(decoded.as_slice()) {
                Some(c) => c,
                None => {
                    return None;
                },
            };
            let city_state = chara_info.initial_town;
            Some(
                StoreRequest::CreateCharacter {
                    service_account_id: *service_account_id,
                    name: name.clone(),
                    chara_info,
                    city_state,
                    zone_id: 0,
                },
            )
        },
        CustomIpcData::GetActorId { content_id } => Some(
            StoreRequest::FindActorId { content_id: *content_id },
        ),
        CustomIpcData::CheckNameIsAvailable { name } => Some(
            StoreRequest::CheckName { name: name.clone() },
        ),
        CustomIpcData::RequestCharacterList { service_account_id } => Some(
            StoreRequest::ListCharacters { service_account_id: *service_account_id },
        ),
        CustomIpcData::DeleteCharacter { content_id } => Some(
            StoreRequest::Delete { content_id: *content_id },
        ),
        _ => None,
    }
}

/// The control-plane reply for one request and the store's answer to it: a
/// reply comes exactly when the answer's shape fits the request, so a
/// mismatched answer is a recoverable error, never a crash.
pub fn custom_ipc_reply(data: &CustomIpcData, answer: StoreAnswer) -> (r: Option<CustomIpcSegment>)
    ensures
        r is Some ==> r.unwrap().wf() && r.unwrap().op_code == crate::ipc_custom::spec_custom_opcode(
            &r.unwrap().data,
        ),
        match *data {
            CustomIpcData::RequestCreateCharacter { .. } => match answer {
                StoreAnswer::Created { content_id, actor_id } => r is Some && r.unwrap().data == (
                CustomIpcData::CharacterCreated { actor_id, content_id }),
                _ => r is None,
            },
            CustomIpcData::GetActorId { .. } => match answer {
                StoreAnswer::ActorId { actor_id } => r is Some && r.unwrap().data == (
                CustomIpcData::ActorIdFound { actor_id }),
                _ => r is None,
            },
            CustomIpcData::CheckNameIsAvailable { .. } => match answer {
                StoreAnswer::NameFree { free } => r is Some && r.unwrap().data == (
                CustomIpcData::NameIsAvailableResponse { free }),
                _ => r is None,
            },
            CustomIpcData::RequestCharacterList { .. } => match answer {
                StoreAnswer::Characters { characters } => {
                    &&& r is Some <==> characters@.len() <= 8
                    &&& r is Some ==> match r.unwrap().data {
                        CustomIpcData::RequestCharacterListResponse {
                            num_characters,
                            characters: ref cs,
                        } => cs@ == characters@ && num_characters == characters@.len(),
                        _ => false,
                    }
                },
                _ => r is None,
            },
            CustomIpcData::DeleteCharacter { .. } => match answer {
                StoreAnswer::Deleted => r is Some && r.unwrap().data == (
                CustomIpcData::CharacterDeleted { deleted: 1u8 }),
                _ => r is None,
            },
            _ => r is None,
        },
{
    let reply: CustomIpcData = match (data, answer) {
        (CustomIpcData::RequestCreateCharacter { .. }, StoreAnswer::Created { content_id, actor_id }) => {
            CustomIpcData::CharacterCreated { actor_id, content_id }
        },
        (CustomIpcData::GetActorId { .. }, StoreAnswer::ActorId { actor_id }) => {
            CustomIpcData::ActorIdFound { actor_id }
        },
        (CustomIpcData::CheckNameIsAvailable { .. }, StoreAnswer::NameFree { free }) => {
            CustomIpcData::NameIsAvailableResponse { free }
        },
        (CustomIpcData::RequestCharacterList { .. }, StoreAnswer::Characters { characters }) => {
            if characters.len() > 8 {
                return None;
            }
            let num_characters = characters.len() as u8;
            CustomIpcData::RequestCharacterListResponse { num_characters, characters }
        },
        (CustomIpcData::DeleteCharacter { .. }, StoreAnswer::Deleted) => {
            CustomIpcData::CharacterDeleted { deleted: 1 }
        },
        _ => {
            return None;
        },
    };
    let op_code = crate::ipc_custom::custom_opcode(&reply);
    Some(IpcSegment { unk1: 0x14, unk2: 0, op_code, option: 0, timestamp: 0, data: reply })
}

/// The character-select colors word: skin color in the low bits, the hair
/// style folded in at bit 10 (wrapping in its 16-bit field, as the wire
/// format does), the eye color at bit 20.
pub open spec fn spec_select_colors(c: CharaInfo) -> u32 {
    (c.skin_color as u32) | (((c.hair_style << 10) as u16) as u32) | ((c.eye_color as u32) << 20)
}

/// The character-select hair word.
pub open spec fn spec_select_hair(c: CharaInfo) -> u32 {
    (c.hair_highlight_color as u32) | (((c.hair_variation << 5) as u8) as u32) | (((c.hair_style
        << 10) as u16) as u32)
}

/// The packed face word of a stored appearance record.
pub open spec fn spec_select_face(c: CharaInfo) -> FaceInfo {
    FaceInfo {
        characteristics: c.characteristics,
        characteristics_color: c.characteristics_color,
        face_type: c.face_type,
        ears: c.ears,
        mouth: c.face_mouth,
        features: c.face_features,
        nose: c.face_nose,
        eye_shape: c.face_eye_shape,
        iris_size: c.face_iris_size,
        eyebrows: c.face_eyebrows,
        unknown: 0,
    }
}

/// One entry of the character list, built from a stored record: the list
/// index and actor id, the character's name, the world's name, and the
/// base64 select-data blob derived from the stored appearance record.
pub fn build_character_details(
    index: u8,
    actor_id: u32,
    name: &String,
    chara_info: &CharaInfo,
    world_name: &String,
) -> (r: CharacterDetails)
    requires
        encode_utf8(name@).len() + 1 < 0x1_0000_0000,
    ensures
        r.unk2 == 0,
        r.player_id == actor_id,
        r.index == index,
        r.flags.0 == CHARACTER_FLAG_NONE,
        r.zone_id == 0,
        r.unk1 == 0,
        r.character_name@ == name@,
        r.server_name@ == world_name@,
        r.client_select_data@ == b64_url_of(spec_select_bytes(name@, *chara_info)),
{
    let location1: String = location_literal_1();
    let location2: String = location_literal_2();
    let mut model_ids: Vec<u8> = Vec::new();
    let mut i: usize = 0;
    while i < 13
        invariant
            i <= 13,
            model_ids@ =~= crate::wire::zeroes(i as nat),
        decreases 13 - i,
    {
        model_ids.push(0);
        proof {
            assert(model_ids@ =~= crate::wire::zeroes((i + 1) as nat));
        }
        i = i + 1;
    }
    let neo = NeoClientSelectData {
        unk1: 0x000004c0,
        unk2: 0x232327ea,
        name: name.clone(),
        unk3: 0x1c,
        unk4: 0x04,
        model: 1,
        height: chara_info.size as u32,
        colors: (chara_info.skin_color as u32) | (((chara_info.hair_style << 10) as u16) as u32) | (
        (chara_info.eye_color as u32) << 20),
        face: FaceInfo {
            characteristics: chara_info.characteristics,
            characteristics_color: chara_info.characteristics_color,
            face_type: chara_info.face_type,
            ears: chara_info.ears,
            mouth: chara_info.face_mouth,
            features: chara_info.face_features,
            nose: chara_info.face_nose,
            eye_shape: chara_info.face_eye_shape,
            iris_size: chara_info.face_iris_size,
            eyebrows: chara_info.face_eyebrows,
            unknown: 0,
        },
        hair: (chara_info.hair_highlight_color as u32) | (((chara_info.hair_variation << 5) as u8)
            as u32) | (((chara_info.hair_style << 10) as u16) as u32),
        voice: chara_info.voice as u32,
        main_hand: 0,
        off_hand: 0,
        model_ids,
        unk5: 1,
        unk6: 1,
        current_class: 0,
        current_level: 0,
        current_job: 0,
        unk7: 1,
        tribe: chara_info.tribe,
        unk8: 0xe22222aa,
        location1,
        location2,
        guardian: chara_info.guardian,
        birth_month: chara_info.birth_month,
        birth_day: chara_info.birth_day,
        unk9: 0x17,
        unk10: 4,
        unk11: 4,
        city_state: chara_info.initial_town as u32,
        city_state_again: chara_info.initial_town as u32,
    };
    proof {
        reveal_strlit("prv0Inn01");
        reveal_strlit("defaultterritory");
        assert(neo.wf());
        assert(neo.spec_encoded() =~= spec_select_bytes(name@, *chara_info));
    }
    let client_select_data = neo.to_string();
    CharacterDetails {
        unk2: 0,
        player_id: actor_id,
        index,
        flags: CharacterFlag(crate::service_login_reply::CHARACTER_FLAG_NONE),
        unk1: 0,
        zone_id: 0,
        character_name: name.clone(),
        server_name: world_name.clone(),
        client_select_data,
    }
}

/// The serialized select data one stored record maps to: the fixed
/// constants the character list uses, the name and the two location strings
/// length-prefixed, and the appearance words derived from the record.
pub open spec fn spec_select_bytes(name: Seq<char>, c: CharaInfo) -> Seq<u8> {
    spec_u32_to_le_bytes(0x000004c0) + spec_u32_to_le_bytes(0x232327ea) + lp_str(name)
        + spec_u32_to_le_bytes(0x1c) + spec_u32_to_le_bytes(0x04) + spec_u32_to_le_bytes(1)
        + spec_u32_to_le_bytes(c.size as u32) + spec_u32_to_le_bytes(spec_select_colors(c))
        + spec_u32_to_le_bytes(spec_select_face(c).spec_packed()) + spec_u32_to_le_bytes(
        spec_select_hair(c),
    ) + spec_u32_to_le_bytes(c.voice as u32) + spec_u32_to_le_bytes(0) + spec_u32_to_le_bytes(0)
        + zeroes(5) + zeroes(13) + zeroes(8) + spec_u32_to_le_bytes(1) + spec_u32_to_le_bytes(1)
        + seq![0u8] + spec_u16_to_le_bytes(0) + seq![0u8] + spec_u16_to_le_bytes(1)
        + seq![c.tribe] + spec_u32_to_le_bytes(0xe22222aa) + lp_str("prv0Inn01"@) + lp_str(
        "defaultterritory"@,
    ) + seq![c.guardian, c.birth_month, c.birth_day] + spec_u16_to_le_bytes(0x17)
        + spec_u32_to_le_bytes(4) + spec_u32_to_le_bytes(4) + zeroes(16) + spec_u32_to_le_bytes(
        c.initial_town as u32,
    ) + spec_u32_to_le_bytes(c.initial_town as u32)
}

/// The inn room and default territory the character list places every
/// character in.
fn location_literal_1() -> (r: String)
    ensures
        r@ == "prv0Inn01"@,
        encode_utf8(r@).len() == r@.len(),
{
    let s: &str = "prv0Inn01";
    proof {
        reveal_strlit("prv0Inn01");
        assert(vstd::utf8::is_ascii_chars(s@));
        vstd::utf8::is_ascii_chars_encode_utf8(s@);
    }
    s.to_owned()
}

fn location_literal_2() -> (r: String)
    ensures
        r@ == "defaultterritory"@,
        encode_utf8(r@).len() == r@.len(),
{
    let s: &str = "defaultterritory";
    proof {
        reveal_strlit("defaultterritory");
        assert(vstd::utf8::is_ascii_chars(s@));
        vstd::utf8::is_ascii_chars_encode_utf8(s@);
    }
    s.to_owned()
}

} // verus!
