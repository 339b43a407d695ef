//! The lobby's character-list reply: per-character details, the packed
//! face-appearance bitfield, and the base64 select-data blob the client
//! renders the character list from.
use crate::common::{push_str_field, read_str_field, spec_read_str, str_field};
use crate::wire::{push_bytes, push_u16_le, push_u32_le, push_u64_le, push_u8, push_zeroes,
    read_u16_le, read_u32_le, read_u64_le, read_u8, zeroes};
use vstd::bytes::{spec_u16_to_le_bytes, spec_u32_to_le_bytes, spec_u64_to_le_bytes};
use vstd::prelude::*;
use vstd::string::StringSliceAdditionalSpecFns;
use vstd::utf8::encode_utf8;

verus! {

/// No character flag set.
pub const CHARACTER_FLAG_NONE: u8 = 0;

/// "You cannot select this character with your current account."
pub const CHARACTER_FLAG_LOCKED: u8 = 1;

/// "A name change is required to log in with this character."
pub const CHARACTER_FLAG_NAME_CHANGE_REQUIRED: u8 = 2;

/// Flag byte attached to one character-list entry.
#[derive(Debug, Clone, Copy, PartialEq, Eq, Structural)]
pub struct CharacterFlag(pub u8);

impl Default for CharacterFlag {
    /// No flag set.
    fn default() -> (r: Self)
        ensures
            r.0 == CHARACTER_FLAG_NONE,
    {
        CharacterFlag(CHARACTER_FLAG_NONE)
    }
}

/// The packed face-appearance bitfield, kept as explicit fields and packed
/// into one 32-bit word by shift and mask on encode.
#[derive(Debug, Clone, Copy, PartialEq, Eq, Structural, Default)]
pub struct FaceInfo {
    pub characteristics: u8,
    pub characteristics_color: u8,
    pub face_type: u8,
    pub ears: u8,
    pub mouth: u8,
    pub features: u8,
    pub nose: u8,
    pub eye_shape: u8,
    pub iris_size: u8,
    pub eyebrows: u8,
    pub unknown: u8,
}

impl FaceInfo {
    /// The packed 32-bit form: characteristics in bits 0-4, their color in
    /// 5-7, face type in 8-13, ears in 14-15, mouth in 16-17, features in
    /// 18-19, nose in 20-22, eye shape in 23-25, iris size in 26, eyebrows
    /// in 27-29 and the reserved field in 30-31; each field masked to its
    /// width.
    pub open spec fn spec_packed(&self) -> u32 {
        ((self.characteristics & 0x1f) as u32) | (((self.characteristics_color & 0x7) as u32) << 5)
            | (((self.face_type & 0x3f) as u32) << 8) | (((self.ears & 0x3) as u32) << 14) | (((
        self.mouth & 0x3) as u32) << 16) | (((self.features & 0x3) as u32) << 18) | (((self.nose
            & 0x7) as u32) << 20) | (((self.eye_shape & 0x7) as u32) << 23) | (((self.iris_size
            & 0x1) as u32) << 26) | (((self.eyebrows & 0x7) as u32) << 27) | (((self.unknown & 0x3)
            as u32) << 30)
    }

    /// Packs the fields into their wire word.
    pub fn packed(&self) -> (r: u32)
        ensures
            r == self.spec_packed(),
    {
        ((self.characteristics & 0x1f) as u32) | (((self.characteristics_color & 0x7) as u32) << 5)
            | (((self.face_type & 0x3f) as u32) << 8) | (((self.ears & 0x3) as u32) << 14) | (((
        self.mouth & 0x3) as u32) << 16) | (((self.features & 0x3) as u32) << 18) | (((self.nose
            & 0x7) as u32) << 20) | (((self.eye_shape & 0x7) as u32) << 23) | (((self.iris_size
            & 0x1) as u32) << 26) | (((self.eyebrows & 0x7) as u32) << 27) | (((self.unknown & 0x3)
            as u32) << 30)
    }

    /// An all-zero face.
    pub fn new() -> (r: Self)
        ensures
            r == (FaceInfo {
                characteristics: 0,
                characteristics_color: 0,
                face_type: 0,
                ears: 0,
                mouth: 0,
                features: 0,
                nose: 0,
                eye_shape: 0,
                iris_size: 0,
                eyebrows: 0,
                unknown: 0,
            }),
    {
        FaceInfo {
            characteristics: 0,
            characteristics_color: 0,
            face_type: 0,
            ears: 0,
            mouth: 0,
            features: 0,
            nose: 0,
            eye_shape: 0,
            iris_size: 0,
            eyebrows: 0,
            unknown: 0,
        }
    }

    pub fn with_characteristics(self, v: u8) -> (r: Self)
        ensures
            r == (FaceInfo { characteristics: v, ..self }),
    {
        FaceInfo { characteristics: v, ..self }
    }

    pub fn with_characteristics_color(self, v: u8) -> (r: Self)
        ensures
            r == (FaceInfo { characteristics_color: v, ..self }),
    {
        FaceInfo { characteristics_color: v, ..self }
    }

    pub fn with_face_type(self, v: u8) -> (r: Self)
        ensures
            r == (FaceInfo { face_type: v, ..self }),
    {
        FaceInfo { face_type: v, ..self }
    }

    pub fn with_ears(self, v: u8) -> (r: Self)
        ensures
            r == (FaceInfo { ears: v, ..self }),
    {
        FaceInfo { ears: v, ..self }
    }

    pub fn with_mouth(self, v: u8) -> (r: Self)
        ensures
            r == (FaceInfo { mouth: v, ..self }),
    {
        FaceInfo { mouth: v, ..self }
    }

    pub fn with_features(self, v: u8) -> (r: Self)
        ensures
            r == (FaceInfo { features: v, ..self }),
    {
        FaceInfo { features: v, ..self }
    }

    pub fn with_nose(self, v: u8) -> (r: Self)
        ensures
            r == (FaceInfo { nose: v, ..self }),
    {
        FaceInfo { nose: v, ..self }
    }

    pub fn with_eye_shape(self, v: u8) -> (r: Self)
        ensures
            r == (FaceInfo { eye_shape: v, ..self }),
    {
        FaceInfo { eye_shape: v, ..self }
    }

    pub fn with_iris_size(self, v: u8) -> (r: Self)
        ensures
            r == (FaceInfo { iris_size: v, ..self }),
    {
        FaceInfo { iris_size: v, ..self }
    }

    pub fn with_eyebrows(self, v: u8) -> (r: Self)
        ensures
            r == (FaceInfo { eyebrows: v, ..self }),
    {
        FaceInfo { eyebrows: v, ..self }
    }
}

/// A string written with a 32-bit length prefix: the byte length plus one
/// for the NUL terminator, then the bytes and the terminator.
pub open spec fn lp_str(s: Seq<char>) -> Seq<u8> {
    spec_u32_to_le_bytes((encode_utf8(s).len() + 1) as u32) + encode_utf8(s) + seq![0u8]
}

/// Appends a length-prefixed string.
pub fn push_lp_str(out: &mut Vec<u8>, s: &String)
    requires
        encode_utf8(s@).len() + 1 < 0x1_0000_0000,
    ensures
        final(out)@ == old(out)@ + lp_str(s@),
{
    let b = crate::common::write_string(s);
    push_u32_le(out, b.len() as u32);
    push_bytes(out, b.as_slice());
    proof {
        assert(final(out)@ =~= old(out)@ + lp_str(s@));
    }
}

/// The character data the client's character-select screen renders, sent as
/// a base64 blob inside a character-list entry.
#[derive(Debug, Clone)]
pub struct NeoClientSelectData {
    pub unk1: u32,
    pub unk2: u32,
    pub name: String,
    pub unk3: u32,
    pub unk4: u32,
    pub model: u32,
    pub height: u32,
    pub colors: u32,
    pub face: FaceInfo,
    pub hair: u32,
    pub voice: u32,
    pub main_hand: u32,
    pub off_hand: u32,
    pub model_ids: Vec<u8>,
    pub unk5: u32,
    pub unk6: u32,
    pub current_class: u8,
    pub current_level: u16,
    pub current_job: u8,
    pub unk7: u16,
    pub tribe: u8,
    pub unk8: u32,
    pub location1: String,
    pub location2: String,
    pub guardian: u8,
    pub birth_month: u8,
    pub birth_day: u8,
    pub unk9: u16,
    pub unk10: u32,
    pub unk11: u32,
    pub city_state: u32,
    pub city_state_again: u32,
}

impl NeoClientSelectData {
    /// Whether the select data can be serialized: its three strings fit
    /// their 32-bit length prefixes and the model id list has its 13 slots.
    pub open spec fn wf(&self) -> bool {
        &&& encode_utf8(self.name@).len() + 1 < 0x1_0000_0000
        &&& encode_utf8(self.location1@).len() + 1 < 0x1_0000_0000
        &&& encode_utf8(self.location2@).len() + 1 < 0x1_0000_0000
        &&& self.model_ids@.len() == 13
    }

    /// The exact bytes of the select data, little-endian, with the packed
    /// face word and the documented reserved padding runs.
    pub open spec fn spec_encoded(&self) -> Seq<u8> {
        spec_u32_to_le_bytes(self.unk1) + spec_u32_to_le_bytes(self.unk2) + lp_str(self.name@)
            + spec_u32_to_le_bytes(self.unk3) + spec_u32_to_le_bytes(self.unk4)
            + spec_u32_to_le_bytes(self.model) + spec_u32_to_le_bytes(self.height)
            + spec_u32_to_le_bytes(self.colors) + spec_u32_to_le_bytes(self.face.spec_packed())
            + spec_u32_to_le_bytes(self.hair) + spec_u32_to_le_bytes(self.voice)
            + spec_u32_to_le_bytes(self.main_hand) + spec_u32_to_le_bytes(self.off_hand) + zeroes(5)
            + self.model_ids@ + zeroes(8) + spec_u32_to_le_bytes(self.unk5) + spec_u32_to_le_bytes(
            self.unk6,
        ) + seq![self.current_class] + spec_u16_to_le_bytes(self.current_level)
            + seq![self.current_job] + spec_u16_to_le_bytes(self.unk7) + seq![self.tribe]
            + spec_u32_to_le_bytes(self.unk8) + lp_str(self.location1@) + lp_str(self.location2@)
            + seq![self.guardian, self.birth_month, self.birth_day] + spec_u16_to_le_bytes(
            self.unk9,
        ) + spec_u32_to_le_bytes(self.unk10) + spec_u32_to_le_bytes(self.unk11) + zeroes(16)
            + spec_u32_to_le_bytes(self.city_state) + spec_u32_to_le_bytes(self.city_state_again)
    }

    /// Serializes the select data.
    pub fn encode(&self) -> (r: Vec<u8>)
        requires
            self.wf(),
        ensures
            r@ == self.spec_encoded(),
    {
        let mut out: Vec<u8> = Vec::new();
        push_u32_le(&mut out, self.unk1);
        push_u32_le(&mut out, self.unk2);
        push_lp_str(&mut out, &self.name);
        push_u32_le(&mut out, self.unk3);
        push_u32_le(&mut out, self.unk4);
        push_u32_le(&mut out, self.model);
        push_u32_le(&mut out, self.height);
        push_u32_le(&mut out, self.colors);
        push_u32_le(&mut out, self.face.packed());
        push_u32_le(&mut out, self.hair);
        push_u32_le(&mut out, self.voice);
        push_u32_le(&mut out, self.main_hand);
        push_u32_le(&mut out, self.off_hand);
        push_zeroes(&mut out, 5);
        push_bytes(&mut out, self.model_ids.as_slice());
        push_zeroes(&mut out, 8);
        push_u32_le(&mut out, self.unk5);
        push_u32_le(&mut out, self.unk6);
        push_u8(&mut out, self.current_class);
        push_u16_le(&mut out, self.current_level);
        push_u8(&mut out, self.current_job);
        push_u16_le(&mut out, self.unk7);
        push_u8(&mut out, self.tribe);
        push_u32_le(&mut out, self.unk8);
        push_lp_str(&mut out, &self.location1);
        push_lp_str(&mut out, &self.location2);
        push_u8(&mut out, self.guardian);
        push_u8(&mut out, self.birth_month);
        push_u8(&mut out, self.birth_day);
        push_u16_le(&mut out, self.unk9);
        push_u32_le(&mut out, self.unk10);
        push_u32_le(&mut out, self.unk11);
        push_zeroes(&mut out, 16);
        push_u32_le(&mut out, self.city_state);
        push_u32_le(&mut out, self.city_state_again);
        proof {
            assert(out@ =~= self.spec_encoded());
        }
        out
    }

    /// The select data as the wire carries it: the base64 encoding of its
    /// serialized bytes.
    pub fn to_string(&self) -> (r: String)
        requires
            self.wf(),
        ensures
            r@ == crate::common::b64_url_of(self.spec_encoded()),
    {
        let bytes = self.encode();
        crate::common::b64_url_encode(bytes.as_slice())
    }
}

/// Serialized length of one character-list entry.
pub const CHARACTER_DETAILS_SIZE: usize = 464;

/// One entry of the character list sent to the lobby client.
#[derive(Debug, Clone)]
pub struct CharacterDetails {
    pub unk2: u32,
    pub player_id: u32,
    pub index: u8,
    pub flags: CharacterFlag,
    pub unk1: u16,
    pub zone_id: u32,
    pub character_name: String,
    pub server_name: String,
    pub client_select_data: String,
}

impl CharacterDetails {
    /// An empty entry.
    pub fn new_empty() -> (r: Self)
        ensures
            r.unk2 == 0,
            r.player_id == 0,
            r.index == 0,
            r.flags.0 == CHARACTER_FLAG_NONE,
            r.unk1 == 0,
            r.zone_id == 0,
            r.character_name@ == Seq::<char>::empty(),
            r.server_name@ == Seq::<char>::empty(),
            r.client_select_data@ == Seq::<char>::empty(),
    {
        CharacterDetails {
            unk2: 0,
            player_id: 0,
            index: 0,
            flags: CharacterFlag(CHARACTER_FLAG_NONE),
            unk1: 0,
            zone_id: 0,
            character_name: String::new(),
            server_name: String::new(),
            client_select_data: String::new(),
        }
    }

    /// The exact 464 bytes of one entry: the numeric fields little-endian,
    /// then the name (32 bytes), server name (14) and select data (402) as
    /// fixed NUL-padded fields.
    pub open spec fn spec_encoded(&self) -> Seq<u8> {
        spec_u32_to_le_bytes(self.unk2) + spec_u32_to_le_bytes(self.player_id) + seq![self.index]
            + seq![self.flags.0] + spec_u16_to_le_bytes(self.unk1) + spec_u32_to_le_bytes(
            self.zone_id,
        ) + str_field(self.character_name@, 32) + str_field(self.server_name@, 14) + str_field(
            self.client_select_data@,
            402,
        )
    }

    /// Whether this entry is what the 464-byte buffer decodes to.
    pub open spec fn is_decode_of(&self, b: Seq<u8>) -> bool {
        &&& b.len() == CHARACTER_DETAILS_SIZE
        &&& self.unk2 == vstd::bytes::spec_u32_from_le_bytes(b.subrange(0, 4))
        &&& self.player_id == vstd::bytes::spec_u32_from_le_bytes(b.subrange(4, 8))
        &&& self.index == b[8]
        &&& self.flags.0 == b[9]
        &&& self.unk1 == vstd::bytes::spec_u16_from_le_bytes(b.subrange(10, 12))
        &&& self.zone_id == vstd::bytes::spec_u32_from_le_bytes(b.subrange(12, 16))
        &&& self.character_name@ == spec_read_str(b, 16, 32)
        &&& self.server_name@ == spec_read_str(b, 48, 14)
        &&& self.client_select_data@ == spec_read_str(b, 62, 402)
    }

    /// Serializes one entry onto the end of a buffer.
    pub fn encode_into(&self, out: &mut Vec<u8>)
        ensures
            final(out)@ == old(out)@ + self.spec_encoded(),
            self.spec_encoded().len() == CHARACTER_DETAILS_SIZE,
    {
        push_u32_le(out, self.unk2);
        push_u32_le(out, self.player_id);
        push_u8(out, self.index);
        push_u8(out, self.flags.0);
        push_u16_le(out, self.unk1);
        push_u32_le(out, self.zone_id);
        push_str_field(out, &self.character_name, 32);
        push_str_field(out, &self.server_name, 14);
        push_str_field(out, &self.client_select_data, 402);
        proof {
            assert(final(out)@ =~= old(out)@ + self.spec_encoded());
        }
    }

    /// Decodes one entry from `off` in a buffer.
    pub fn decode_at(b: &[u8], off: usize) -> (r: Self)
        requires
            off + CHARACTER_DETAILS_SIZE <= b@.len(),
        ensures
            r.is_decode_of(b@.subrange(off as int, off as int + CHARACTER_DETAILS_SIZE as int)),
    {
        let n = b.len();
        let ghost sub = b@.subrange(off as int, off as int + CHARACTER_DETAILS_SIZE as int);
        let unk2 = read_u32_le(b, off);
        let player_id = read_u32_le(b, off + 4);
        let index = read_u8(b, off + 8);
        let flags = CharacterFlag(read_u8(b, off + 9));
        let unk1 = read_u16_le(b, off + 10);
        let zone_id = read_u32_le(b, off + 12);
        let character_name = read_str_field(b, off + 16, 32);
        let server_name = read_str_field(b, off + 48, 14);
        let client_select_data = read_str_field(b, off + 62, 402);
        proof {
            assert(sub.subrange(0, 4) =~= b@.subrange(off as int, off as int + 4));
            assert(sub.subrange(4, 8) =~= b@.subrange(off + 4, off + 8));
            assert(sub.subrange(10, 12) =~= b@.subrange(off + 10, off + 12));
            assert(sub.subrange(12, 16) =~= b@.subrange(off + 12, off + 16));
            assert(sub.subrange(16, 48) =~= b@.subrange(off + 16, off + 48));
            assert(sub.subrange(48, 62) =~= b@.subrange(off + 48, off + 62));
            assert(sub.subrange(62, 464) =~= b@.subrange(off + 62, off + 464));
        }
        CharacterDetails {
            unk2,
            player_id,
            index,
            flags,
            unk1,
            zone_id,
            character_name,
            server_name,
            client_select_data,
        }
    }
}

/// The character-list reply payload: a sequence counter, chunk bookkeeping,
/// and up to two character entries padded to two slots.
#[derive(Debug, Clone)]
pub struct ServiceLoginReply {
    pub sequence: u64,
    pub counter: u8,
    pub num_in_packet: u8,
    pub unk1: u8,
    pub unk3: u8,
    pub characters: Vec<CharacterDetails>,
}

impl ServiceLoginReply {
    /// The reply carries at most two entries per packet.
    pub open spec fn wf(&self) -> bool {
        self.characters@.len() <= 2
    }

    /// The exact payload bytes: the header fields, then the entries, the
    /// two slots zero-padded.
    pub open spec fn spec_encoded(&self) -> Seq<u8> {
        spec_u64_to_le_bytes(self.sequence) + seq![self.counter, self.num_in_packet, self.unk1, self.unk3]
            + zeroes(4) + crate::wire::fit_bytes(
            self.characters@.fold_left(Seq::<u8>::empty(), |acc: Seq<u8>, c: CharacterDetails| acc + c.spec_encoded()),
            (2 * CHARACTER_DETAILS_SIZE) as nat,
        )
    }

    /// Serializes the payload onto the end of a buffer.
    pub fn encode_into(&self, out: &mut Vec<u8>)
        requires
            self.wf(),
        ensures
            final(out)@ == old(out)@ + self.spec_encoded(),
            self.spec_encoded().len() == 944,
    {
        push_u64_le(out, self.sequence);
        push_u8(out, self.counter);
        push_u8(out, self.num_in_packet);
        push_u8(out, self.unk1);
        push_u8(out, self.unk3);
        push_zeroes(out, 4);
        let mut body: Vec<u8> = Vec::new();
        let mut i: usize = 0;
        while i < self.characters.len()
            invariant
                i <= self.characters@.len() <= 2,
                body@ == self.characters@.take(i as int).fold_left(
                    Seq::<u8>::empty(),
                    |acc: Seq<u8>, c: CharacterDetails| acc + c.spec_encoded(),
                ),
                body@.len() == i * CHARACTER_DETAILS_SIZE,
            decreases self.characters@.len() - i,
        {
            self.characters[i].encode_into(&mut body);
            proof {
                assert(self.characters@.take(i + 1).drop_last() =~= self.characters@.take(i as int));
                assert(self.characters@.take(i + 1).last() == self.characters@[i as int]);
            }
            i = i + 1;
        }
        proof {
            assert(self.characters@.take(self.characters@.len() as int) =~= self.characters@);
        }
        crate::wire::push_fit_bytes(out, body.as_slice(), 2 * CHARACTER_DETAILS_SIZE);
        proof {
            vstd::bytes::lemma_auto_spec_u64_to_from_le_bytes();
            assert(final(out)@ =~= old(out)@ + self.spec_encoded());
        }
    }

    /// Whether this reply is what the 944-byte payload decodes to: the two
    /// slots are always read back as two entries.
    pub open spec fn is_decode_of(&self, b: Seq<u8>) -> bool {
        &&& b.len() == 944
        &&& self.sequence == vstd::bytes::spec_u64_from_le_bytes(b.subrange(0, 8))
        &&& self.counter == b[8]
        &&& self.num_in_packet == b[9]
        &&& self.unk1 == b[10]
        &&& self.unk3 == b[11]
        &&& self.characters@.len() == 2
        &&& self.characters@[0].is_decode_of(b.subrange(16, 480))
        &&& self.characters@[1].is_decode_of(b.subrange(480, 944))
    }

    /// Decodes the payload from a 944-byte buffer.
    pub fn decode(b: &[u8]) -> (r: Self)
        requires
            b@.len() == 944,
        ensures
            r.is_decode_of(b@),
            r.wf(),
    {
        let sequence = read_u64_le(b, 0);
        let counter = read_u8(b, 8);
        let num_in_packet = read_u8(b, 9);
        let unk1 = read_u8(b, 10);
        let unk3 = read_u8(b, 11);
        let c0 = CharacterDetails::decode_at(b, 16);
        let c1 = CharacterDetails::decode_at(b, 480);
        let mut characters: Vec<CharacterDetails> = Vec::new();
        characters.push(c0);
        characters.push(c1);
        ServiceLoginReply { sequence, counter, num_in_packet, unk1, unk3, characters }
    }
}

} // verus!
