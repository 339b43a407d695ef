use kodama::common::{b64_url_encode, CharaInfo};
use kodama::ipc_custom::CustomIpcData;
use kodama::world::{build_character_details, custom_ipc_reply, custom_ipc_store_request,
    StoreAnswer, StoreRequest};

fn sample_chara_info() -> CharaInfo {
    CharaInfo {
        version: 1,
        unknown1: 0,
        tribe: 2,
        size: 55,
        hair_style: 3,
        hair_highlight_color: 1,
        hair_variation: 2,
        face_type: 1,
        characteristics: 4,
        characteristics_color: 2,
        unk1: 0,
        face_eyebrows: 1,
        face_iris_size: 0,
        face_eye_shape: 2,
        face_nose: 1,
        face_features: 0,
        face_mouth: 1,
        ears: 0,
        hair_color: 5,
        unk2: 0,
        skin_color: 3,
        eye_color: 2,
        voice: 1,
        guardian: 4,
        birth_month: 7,
        birth_day: 21,
        current_class: 1,
        unk3: 0,
        unk4: 0,
        unk5: 0,
        initial_town: 1,
    }
}

#[test]
fn create_request_decodes_the_appearance_blob() {
    let info = sample_chara_info();
    let encoded = b64_url_encode(&info.encode());
    let data = CustomIpcData::RequestCreateCharacter {
        service_account_id: 7,
        name: "Cloud".to_string(),
        encoded,
    };
    match custom_ipc_store_request(&data) {
        Some(StoreRequest::CreateCharacter { service_account_id, name, chara_info, city_state, zone_id }) => {
            assert_eq!(service_account_id, 7);
            assert_eq!(name, "Cloud");
            assert_eq!(chara_info, info);
            assert_eq!(city_state, 1);
            assert_eq!(zone_id, 0);
        }
        other => panic!("wrong request: {other:?}"),
    }
}

#[test]
fn create_request_with_bad_blob_is_dropped() {
    let data = CustomIpcData::RequestCreateCharacter {
        service_account_id: 7,
        name: "Cloud".to_string(),
        encoded: "!!!not base64!!!".to_string(),
    };
    assert!(custom_ipc_store_request(&data).is_none());
}

#[test]
fn responses_are_never_served() {
    assert!(custom_ipc_store_request(&CustomIpcData::CharacterDeleted { deleted: 1 }).is_none());
    assert!(custom_ipc_store_request(&CustomIpcData::Unknown { unk: vec![1] }).is_none());
}

#[test]
fn character_list_for_unknown_account_is_empty_not_an_error() {
    // an internal character-list call for a service account the store does
    // not know returns an empty list, never an error
    let request = CustomIpcData::RequestCharacterList { service_account_id: 0xDEAD };
    let store_request = custom_ipc_store_request(&request);
    assert!(matches!(
        store_request,
        Some(StoreRequest::ListCharacters { service_account_id: 0xDEAD })
    ));
    let reply = custom_ipc_reply(&request, StoreAnswer::Characters { characters: Vec::new() })
        .expect("an empty list is a valid reply");
    match reply.data {
        CustomIpcData::RequestCharacterListResponse { num_characters, characters } => {
            assert_eq!(num_characters, 0);
            assert!(characters.is_empty());
        }
        other => panic!("wrong reply: {other:?}"),
    }
}

#[test]
fn mismatched_store_answer_gives_no_reply() {
    let request = CustomIpcData::GetActorId { content_id: 5 };
    assert!(custom_ipc_reply(&request, StoreAnswer::Deleted).is_none());
    let reply = custom_ipc_reply(&request, StoreAnswer::ActorId { actor_id: 11 }).unwrap();
    match reply.data {
        CustomIpcData::ActorIdFound { actor_id } => assert_eq!(actor_id, 11),
        other => panic!("wrong reply: {other:?}"),
    }
}

#[test]
fn name_check_reply() {
    let request = CustomIpcData::CheckNameIsAvailable { name: "Cloud".to_string() };
    let reply = custom_ipc_reply(&request, StoreAnswer::NameFree { free: true }).unwrap();
    match reply.data {
        CustomIpcData::NameIsAvailableResponse { free } => assert!(free),
        other => panic!("wrong reply: {other:?}"),
    }
}

#[test]
fn character_details_mapping() {
    let info = sample_chara_info();
    let details = build_character_details(2, 0xBEEF, &"Cloud".to_string(), &info, &"Gilgamesh".to_string());
    assert_eq!(details.index, 2);
    assert_eq!(details.player_id, 0xBEEF);
    assert_eq!(details.character_name, "Cloud");
    assert_eq!(details.server_name, "Gilgamesh");
    assert_eq!(details.zone_id, 0);
    // the select data is a base64 blob derived from the record; the same
    // record maps to the same blob, another record to another one
    assert!(!details.client_select_data.is_empty());
    let again = build_character_details(2, 0xBEEF, &"Cloud".to_string(), &info, &"Gilgamesh".to_string());
    assert_eq!(details.client_select_data, again.client_select_data);
    let mut other_info = sample_chara_info();
    other_info.skin_color = 9;
    let other = build_character_details(2, 0xBEEF, &"Cloud".to_string(), &other_info, &"Gilgamesh".to_string());
    assert_ne!(details.client_select_data, other.client_select_data);
}
