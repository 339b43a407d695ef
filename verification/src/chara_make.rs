//! The client's character-action request: reserve a name, create, rename or
//! delete a character, and the related management actions.
use crate::common::{push_str_field, read_str_field, spec_read_str, str_field};
use crate::wire::{push_u64_le, push_u8, push_zeroes, read_u64_le, read_u8, zeroes};
use vstd::bytes::spec_u64_to_le_bytes;
use vstd::prelude::*;
use vstd::string::StringSliceAdditionalSpecFns;

verus! {

/// What a character-action request asks for.
#[derive(Debug, Clone, Copy, PartialEq, Eq, Structural)]
pub enum LobbyCharacterActionKind {
    ReserveName,
    Create,
    Rename,
    Delete,
    Move,
    RemakeRetainer,
    RemakeChara,
    SettingsUploadBegin,
    SettingsUpload,
    WorldVisit,
    DataCenterToken,
    Request,
}

/// The wire byte of each action kind.
pub open spec fn spec_action_kind_u8(k: LobbyCharacterActionKind) -> u8 {
    match k {
        LobbyCharacterActionKind::ReserveName => 0x1,
        LobbyCharacterActionKind::Create => 0x2,
        LobbyCharacterActionKind::Rename => 0x3,
        LobbyCharacterActionKind::Delete => 0x4,
        LobbyCharacterActionKind::Move => 0x5,
        LobbyCharacterActionKind::RemakeRetainer => 0x6,
        LobbyCharacterActionKind::RemakeChara => 0x7,
        LobbyCharacterActionKind::SettingsUploadBegin => 0x8,
        LobbyCharacterActionKind::SettingsUpload => 0x9,
        LobbyCharacterActionKind::WorldVisit => 0xA,
        LobbyCharacterActionKind::DataCenterToken => 0xB,
        LobbyCharacterActionKind::Request => 0xC,
    }
}

/// The action kind a wire byte decodes to, if any.
pub open spec fn spec_action_kind_of_u8(v: u8) -> Option<LobbyCharacterActionKind> {
    if v == 0x1 {
        Some(LobbyCharacterActionKind::ReserveName)
    } else if v == 0x2 {
        Some(LobbyCharacterActionKind::Create)
    } else if v == 0x3 {
        Some(LobbyCharacterActionKind::Rename)
    } else if v == 0x4 {
        Some(LobbyCharacterActionKind::Delete)
    } else if v == 0x5 {
        Some(LobbyCharacterActionKind::Move)
    } else if v == 0x6 {
        Some(LobbyCharacterActionKind::RemakeRetainer)
    } else if v == 0x7 {
        Some(LobbyCharacterActionKind::RemakeChara)
    } else if v == 0x8 {
        Some(LobbyCharacterActionKind::SettingsUploadBegin)
    } else if v == 0x9 {
        Some(LobbyCharacterActionKind::SettingsUpload)
    } else if v == 0xA {
        Some(LobbyCharacterActionKind::WorldVisit)
    } else if v == 0xB {
        Some(LobbyCharacterActionKind::DataCenterToken)
    } else if v == 0xC {
        Some(LobbyCharacterActionKind::Request)
    } else {
        None
    }
}

/// Writes an action kind's wire byte.
pub fn action_kind_u8(k: LobbyCharacterActionKind) -> (r: u8)
    ensures
        r == spec_action_kind_u8(k),
{
    match k {
        LobbyCharacterActionKind::ReserveName => 0x1,
        LobbyCharacterActionKind::Create => 0x2,
        LobbyCharacterActionKind::Rename => 0x3,
        LobbyCharacterActionKind::Delete => 0x4,
        LobbyCharacterActionKind::Move => 0x5,
        LobbyCharacterActionKind::RemakeRetainer => 0x6,
        LobbyCharacterActionKind::RemakeChara => 0x7,
        LobbyCharacterActionKind::SettingsUploadBegin => 0x8,
        LobbyCharacterActionKind::SettingsUpload => 0x9,
        LobbyCharacterActionKind::WorldVisit => 0xA,
        LobbyCharacterActionKind::DataCenterToken => 0xB,
        LobbyCharacterActionKind::Request => 0xC,
    }
}

/// Reads an action kind from its wire byte.
pub fn action_kind_of_u8(v: u8) -> (r: Option<LobbyCharacterActionKind>)
    ensures
        r == spec_action_kind_of_u8(v),
{
    if v == 0x1 {
        Some(LobbyCharacterActionKind::ReserveName)
    } else if v == 0x2 {
        Some(LobbyCharacterActionKind::Create)
    } else if v == 0x3 {
        Some(LobbyCharacterActionKind::Rename)
    } else if v == 0x4 {
        Some(LobbyCharacterActionKind::Delete)
    } else if v == 0x5 {
        Some(LobbyCharacterActionKind::Move)
    } else if v == 0x6 {
        Some(LobbyCharacterActionKind::RemakeRetainer)
    } else if v == 0x7 {
        Some(LobbyCharacterActionKind::RemakeChara)
    } else if v == 0x8 {
        Some(LobbyCharacterActionKind::SettingsUploadBegin)
    } else if v == 0x9 {
        Some(LobbyCharacterActionKind::SettingsUpload)
    } else if v == 0xA {
        Some(LobbyCharacterActionKind::WorldVisit)
    } else if v == 0xB {
        Some(LobbyCharacterActionKind::DataCenterToken)
    } else if v == 0xC {
        Some(LobbyCharacterActionKind::Request)
    } else {
        None
    }
}

/// Serialized length of a character-action request payload.
pub const CHARA_MAKE_SIZE: usize = 480;

/// A character-action request: the action kind, the character it concerns,
/// its name, and the base64 appearance blob for creation.
#[derive(Debug, Clone)]
pub struct CharaMake {
    pub sequence: u64,
    pub content_id: u64,
    pub person_type: u64,
    pub action: LobbyCharacterActionKind,
    pub name: String,
    pub encoded: String,
}

impl CharaMake {
    /// The exact 480 payload bytes: the identifiers little-endian, the
    /// action byte with 7 reserved bytes, the name (32 bytes) and the
    /// appearance blob (416 bytes) as fixed NUL-padded fields.
    pub open spec fn spec_encoded(&self) -> Seq<u8> {
        spec_u64_to_le_bytes(self.sequence) + spec_u64_to_le_bytes(self.content_id)
            + spec_u64_to_le_bytes(self.person_type) + seq![spec_action_kind_u8(self.action)]
            + zeroes(7) + str_field(self.name@, 32) + str_field(self.encoded@, 416)
    }

    /// Whether this request is what the 480-byte payload decodes to.
    pub open spec fn is_decode_of(&self, b: Seq<u8>) -> bool {
        &&& b.len() == CHARA_MAKE_SIZE
        &&& self.sequence == vstd::bytes::spec_u64_from_le_bytes(b.subrange(0, 8))
        &&& self.content_id == vstd::bytes::spec_u64_from_le_bytes(b.subrange(8, 16))
        &&& self.person_type == vstd::bytes::spec_u64_from_le_bytes(b.subrange(16, 24))
        &&& Some(self.action) == spec_action_kind_of_u8(b[24])
        &&& self.name@ == spec_read_str(b, 32, 32)
        &&& self.encoded@ == spec_read_str(b, 64, 416)
    }

    /// Whether a 480-byte payload decodes at all: its action byte must name
    /// a known action.
    pub open spec fn decode_ok(b: Seq<u8>) -> bool {
        b.len() == CHARA_MAKE_SIZE && spec_action_kind_of_u8(b[24]) is Some
    }

    /// Serializes the request onto the end of a buffer.
    pub fn encode_into(&self, out: &mut Vec<u8>)
        ensures
            final(out)@ == old(out)@ + self.spec_encoded(),
            self.spec_encoded().len() == CHARA_MAKE_SIZE,
    {
        push_u64_le(out, self.sequence);
        push_u64_le(out, self.content_id);
        push_u64_le(out, self.person_type);
        push_u8(out, action_kind_u8(self.action));
        push_zeroes(out, 7);
        push_str_field(out, &self.name, 32);
        push_str_field(out, &self.encoded, 416);
        proof {
            assert(final(out)@ =~= old(out)@ + self.spec_encoded());
        }
    }

    /// Decodes the request from a 480-byte buffer; fails exactly on an
    /// unknown action byte.
    pub fn decode(b: &[u8]) -> (r: Option<Self>)
        requires
            b@.len() == CHARA_MAKE_SIZE,
        ensures
            r is Some <==> Self::decode_ok(b@),
            r is Some ==> r.unwrap().is_decode_of(b@),
    {
        let sequence = read_u64_le(b, 0);
        let content_id = read_u64_le(b, 8);
        let person_type = read_u64_le(b, 16);
        let action = match action_kind_of_u8(read_u8(b, 24)) {
            Some(a) => a,
            None => {
                return None;
            },
        };
        let name = read_str_field(b, 32, 32);
        let encoded = read_str_field(b, 64, 416);
        Some(CharaMake { sequence, content_id, person_type, action, name, encoded })
    }
}

} // verus!
