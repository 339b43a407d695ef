use kodama::common::{value_to_flag_byte_index_value, CharaInfo};
use kodama::{read_bool_from, write_bool_as};

const DATA: [u8; 2] = [0u8, 1u8];

#[test]
fn read_bool_u8() {
    assert!(!read_bool_from(DATA[0]));
    assert!(read_bool_from(DATA[1]));
}

#[test]
fn write_bool_u8() {
    assert_eq!(write_bool_as(&false), DATA[0]);
    assert_eq!(write_bool_as(&true), DATA[1]);
}

// "FOO\0"
const STRING_DATA: [u8; 4] = [0x46u8, 0x4Fu8, 0x4Fu8, 0x0u8];

#[test]
fn read_string() {
    // The nul terminator is supposed to be removed
    assert_eq!(kodama::common::read_string(STRING_DATA.to_vec()), "FOO".to_string());
}

#[test]
fn write_string() {
    // Supposed to include the nul terminator
    assert_eq!(kodama::common::write_string(&"FOO".to_string()), STRING_DATA.to_vec());
}

#[test]
fn read_string_invalid_utf8_is_empty() {
    // an invalid UTF-8 field degrades to an empty string, not an error
    assert_eq!(kodama::common::read_string(vec![0xC3, 0x28, 0x00]), String::new());
}

#[test]
fn read_string_trims_leading_and_trailing_nuls() {
    assert_eq!(kodama::common::read_string(vec![0x00, 0x41, 0x42, 0x00, 0x00]), "AB".to_string());
}

#[test]
fn flag_byte_index() {
    assert_eq!(value_to_flag_byte_index_value(0), (1, 0));
    assert_eq!(value_to_flag_byte_index_value(9), (2, 1));
    assert_eq!(value_to_flag_byte_index_value(23), (0x80, 2));
}

fn sample_chara_info() -> CharaInfo {
    CharaInfo {
        version: 1,
        unknown1: 0,
        tribe: 3,
        size: 50,
        hair_style: 7,
        hair_highlight_color: 2,
        hair_variation: 1,
        face_type: 4,
        characteristics: 5,
        characteristics_color: 3,
        unk1: 0,
        face_eyebrows: 2,
        face_iris_size: 1,
        face_eye_shape: 3,
        face_nose: 2,
        face_features: 1,
        face_mouth: 2,
        ears: 1,
        hair_color: 12,
        unk2: 0,
        skin_color: 9,
        eye_color: 4,
        voice: 2,
        guardian: 6,
        birth_month: 5,
        birth_day: 14,
        current_class: 1,
        unk3: 0,
        unk4: 0,
        unk5: 0,
        initial_town: 2,
    }
}

#[test]
fn chara_info_round_trip() {
    let info = sample_chara_info();
    let bytes = info.encode();
    assert_eq!(bytes.len(), 72);
    let back = CharaInfo::decode(&bytes).expect("a 72-byte record must decode");
    assert_eq!(back, info);
}

#[test]
fn chara_info_wrong_size_fails() {
    assert!(CharaInfo::decode(&[0u8; 71]).is_none());
    assert!(CharaInfo::decode(&[0u8; 73]).is_none());
}

#[test]
fn base64_url_encode_is_not_identity() {
    // a wrapper that handed its input back unchanged would fail this
    let encoded = kodama::common::b64_url_encode(b"abc");
    assert_eq!(encoded, "YWJj");
    let decoded = kodama::common::b64_url_decode(&encoded).unwrap();
    assert_eq!(decoded, b"abc".to_vec());
    assert!(kodama::common::b64_url_decode("!!!").is_none());
}
