//! Items shared between the lobby and world servers: object identifiers,
//! NUL-trimmed wire strings, and the packed character-appearance record.
use crate::wire::{read_bytes, read_u16_le, read_u32_le, read_u8};
use vstd::prelude::*;
use vstd::slice::slice_to_vec;
use vstd::string::StringSliceAdditionalSpecFns;
use vstd::utf8::{decode_utf8, valid_utf8};

verus! {

/// An invalid actor/object id.
pub const INVALID_OBJECT_ID_VALUE: u32 = 0xE0000000;

/// Maximum length of a character's name.
pub const CHAR_NAME_MAX_LENGTH: usize = 32;

/// An actor/object identifier.
#[derive(Debug, Clone, Copy, PartialEq, Eq, Hash, Structural)]
pub struct ObjectId(pub u32);

impl Default for ObjectId {
    /// The default object id is the invalid id.
    fn default() -> (r: Self)
        ensures
            r.0 == INVALID_OBJECT_ID_VALUE,
    {
        ObjectId(INVALID_OBJECT_ID_VALUE)
    }
}

/// An object identifier together with its object type tag.
#[derive(Debug, Clone, Copy, PartialEq, Eq, Structural)]
pub struct ObjectTypeId {
    pub object_id: ObjectId,
    pub object_type: u8,
}

impl Default for ObjectTypeId {
    /// The default is the invalid id with a zero type tag.
    fn default() -> (r: Self)
        ensures
            r.object_id.0 == INVALID_OBJECT_ID_VALUE,
            r.object_type == 0,
    {
        ObjectTypeId { object_id: ObjectId(INVALID_OBJECT_ID_VALUE), object_type: 0 }
    }
}

/// Splits a flag value into the bit inside a byte and the index of that
/// byte, as the client's packed flag arrays expect.
pub fn value_to_flag_byte_index_value(in_value: u32) -> (r: (u8, u16))
    ensures
        r.0 == (1u8 << (in_value % 8)),
        r.1 == (in_value / 8) as u16,
{
    let bit_index = in_value % 8;
    (1u8 << bit_index, #[verifier::truncate] ((in_value / 8) as u16))
}

/// The byte sequence with its trailing NUL bytes removed.
pub open spec fn strip_trailing_nuls(b: Seq<u8>) -> Seq<u8>
    decreases b.len(),
{
    if b.len() > 0 && b[b.len() - 1] == 0 {
        strip_trailing_nuls(b.drop_last())
    } else {
        b
    }
}

/// The byte sequence with its leading NUL bytes removed.
pub open spec fn strip_leading_nuls(b: Seq<u8>) -> Seq<u8>
    decreases b.len(),
{
    if b.len() > 0 && b[0] == 0 {
        strip_leading_nuls(b.drop_first())
    } else {
        b
    }
}

/// The byte sequence with NUL padding removed from both ends.
pub open spec fn trim_nuls(b: Seq<u8>) -> Seq<u8> {
    strip_leading_nuls(strip_trailing_nuls(b))
}

/// The characters a byte field decodes to: its UTF-8 decoding if valid,
/// and the empty string otherwise.
pub open spec fn string_of_bytes(b: Seq<u8>) -> Seq<char> {
    if valid_utf8(b) {
        decode_utf8(b)
    } else {
        Seq::<char>::empty()
    }
}

proof fn lemma_strip_trailing_subrange(b: Seq<u8>, hi: int)
    requires
        0 <= hi <= b.len(),
        forall|k: int| hi <= k < b.len() ==> b[k] == 0,
        hi > 0 ==> b[hi - 1] != 0,
    ensures
        strip_trailing_nuls(b) == b.subrange(0, hi),
    decreases b.len(),
{
    if b.len() > hi {
        assert(b[b.len() - 1] == 0);
        let d = b.drop_last();
        assert(d =~= b.subrange(0, b.len() - 1));
        lemma_strip_trailing_subrange(d, hi);
        assert(d.subrange(0, hi) =~= b.subrange(0, hi));
    } else {
        if hi > 0 {
            assert(b[b.len() - 1] != 0);
        }
        assert(b.subrange(0, hi) =~= b);
    }
}

proof fn lemma_strip_leading_subrange(b: Seq<u8>, lo: int)
    requires
        0 <= lo <= b.len(),
        forall|k: int| 0 <= k < lo ==> b[k] == 0,
        lo < b.len() ==> b[lo] != 0,
    ensures
        strip_leading_nuls(b) == b.subrange(lo, b.len() as int),
    decreases b.len(),
{
    if lo > 0 {
        assert(b[0] == 0);
        let d = b.drop_first();
        assert(d =~= b.subrange(1, b.len() as int));
        lemma_strip_leading_subrange(d, lo - 1);
        assert(d.subrange(lo - 1, d.len() as int) =~= b.subrange(lo, b.len() as int));
    } else {
        assert(b.subrange(0, b.len() as int) =~= b);
    }
}

/// Relies on String::from_utf8: it succeeds exactly on valid UTF-8 input
/// and returns the string whose characters decode that input.
#[verifier::external_body]
fn bytes_to_string(v: Vec<u8>) -> (r: Option<String>)
    ensures
        r is Some <==> valid_utf8(v@),
        r is Some ==> r.unwrap()@ == decode_utf8(v@),
{
    match String::from_utf8(v) {
        Ok(s) => Some(s),
        Err(_) => None,
    }
}

/// Reads a wire string field: NUL padding is trimmed from both ends and the
/// rest is decoded as UTF-8; invalid UTF-8 degrades to an empty string
/// rather than failing the caller.
pub fn read_string(byte_stream: Vec<u8>) -> (r: String)
    ensures
        r@ == string_of_bytes(trim_nuls(byte_stream@)),
{
    let ghost b = byte_stream@;
    let n = byte_stream.len();
    let mut hi: usize = n;
    while hi > 0 && byte_stream[hi - 1] == 0
        invariant
            hi <= n,
            n == b.len(),
            byte_stream@ == b,
            forall|k: int| hi <= k < n ==> b[k] == 0,
        decreases hi,
    {
        hi = hi - 1;
    }
    let mut lo: usize = 0;
    while lo < hi && byte_stream[lo] == 0
        invariant
            lo <= hi <= n,
            n == b.len(),
            byte_stream@ == b,
            forall|k: int| 0 <= k < lo ==> b[k] == 0,
        decreases hi - lo,
    {
        lo = lo + 1;
    }
    proof {
        lemma_strip_trailing_subrange(b, hi as int);
        let t = b.subrange(0, hi as int);
        lemma_strip_leading_subrange(t, lo as int);
        assert(t.subrange(lo as int, t.len() as int) =~= b.subrange(lo as int, hi as int));
    }
    let trimmed = read_bytes(byte_stream.as_slice(), lo, hi - lo);
    match bytes_to_string(trimmed) {
        Some(s) => s,
        None => String::new(),
    }
}

/// Writes a string for the wire: its UTF-8 bytes followed by one NUL byte.
pub fn write_string(s: &String) -> (r: Vec<u8>)
    ensures
        r@ == vstd::utf8::encode_utf8(s@) + seq![0u8],
{
    let mut v = slice_to_vec(s.as_str().as_bytes());
    v.push(0);
    proof {
        assert(v@ =~= vstd::utf8::encode_utf8(s@) + seq![0u8]);
    }
    v
}

/// The URL-safe base64 encoding of a byte sequence; a pure function of the
/// bytes alone.
pub uninterp spec fn b64_url_of(b: Seq<u8>) -> Seq<char>;

/// What the URL-safe base64 decoder returns for a character sequence, if it
/// accepts it; a pure function of the characters alone.
pub uninterp spec fn b64_url_decode_of(s: Seq<char>) -> Option<Seq<u8>>;

/// Relies on base64's URL_SAFE engine encode: the output depends on the
/// input bytes alone, four characters for every started three-byte group.
#[verifier::external_body]
pub fn b64_url_encode(b: &[u8]) -> (r: String)
    ensures
        r@ == b64_url_of(b@),
        r@.len() == 4 * ((b@.len() + 2) / 3),
{
    base64::Engine::encode(&base64::engine::general_purpose::URL_SAFE, b)
}

/// Relies on base64's URL_SAFE engine decode: whether it succeeds and what
/// it returns depend on the input characters alone.
#[verifier::external_body]
pub fn b64_url_decode(s: &str) -> (r: Option<Vec<u8>>)
    ensures
        r is Some <==> b64_url_decode_of(s@) is Some,
        r is Some ==> r.unwrap()@ == b64_url_decode_of(s@).unwrap(),
{
    match base64::Engine::decode(&base64::engine::general_purpose::URL_SAFE, s.as_bytes()) {
        Ok(v) => Some(v),
        Err(_) => None,
    }
}

/// A fixed-width string field on the wire: the string's UTF-8 bytes and a
/// NUL terminator, truncated or zero-padded to exactly `w` bytes.
pub open spec fn str_field(s: Seq<char>, w: nat) -> Seq<u8> {
    crate::wire::fit_bytes(vstd::utf8::encode_utf8(s) + seq![0u8], w)
}

/// The characters a fixed-width field at `off` decodes to.
pub open spec fn spec_read_str(b: Seq<u8>, off: int, w: int) -> Seq<char> {
    string_of_bytes(trim_nuls(b.subrange(off, off + w)))
}

/// Appends a string as a fixed-width NUL-padded field.
pub fn push_str_field(out: &mut Vec<u8>, s: &String, w: usize)
    ensures
        final(out)@ == old(out)@ + str_field(s@, w as nat),
        str_field(s@, w as nat).len() == w,
{
    let b = write_string(s);
    crate::wire::push_fit_bytes(out, b.as_slice(), w);
}

/// Reads a fixed-width NUL-padded string field.
pub fn read_str_field(b: &[u8], off: usize, w: usize) -> (r: String)
    requires
        off + w <= b@.len(),
    ensures
        r@ == spec_read_str(b@, off as int, w as int),
{
    read_string(read_bytes(b, off, w))
}

/// Serialized length of a character-appearance record.
pub const CHARA_INFO_SIZE: usize = 72;

/// The character-appearance record the client submits at character creation,
/// as laid out on the wire.
#[derive(Debug, Clone, PartialEq, Eq, Structural)]
pub struct CharaInfo {
    pub version: u32,
    pub unknown1: u32,
    pub tribe: u8,
    pub size: u8,
    pub hair_style: u16,
    pub hair_highlight_color: u8,
    pub hair_variation: u8,
    pub face_type: u8,
    pub characteristics: u8,
    pub characteristics_color: u8,
    pub unk1: u32,
    pub face_eyebrows: u8,
    pub face_iris_size: u8,
    pub face_eye_shape: u8,
    pub face_nose: u8,
    pub face_features: u8,
    pub face_mouth: u8,
    pub ears: u8,
    pub hair_color: u16,
    pub unk2: u32,
    pub skin_color: u16,
    pub eye_color: u16,
    pub voice: u8,
    pub guardian: u8,
    pub birth_month: u8,
    pub birth_day: u8,
    pub current_class: u8,
    pub unk3: u32,
    pub unk4: u32,
    pub unk5: u32,
    pub initial_town: u8,
}

/// The record a 72-byte buffer decodes to, field by field, little-endian,
/// with 16 reserved bytes before the final field.
pub open spec fn spec_decode_chara_info(b: Seq<u8>) -> CharaInfo {
    CharaInfo {
        version: vstd::bytes::spec_u32_from_le_bytes(b.subrange(0, 4)),
        unknown1: vstd::bytes::spec_u32_from_le_bytes(b.subrange(4, 8)),
        tribe: b[8],
        size: b[9],
        hair_style: vstd::bytes::spec_u16_from_le_bytes(b.subrange(10, 12)),
        hair_highlight_color: b[12],
        hair_variation: b[13],
        face_type: b[14],
        characteristics: b[15],
        characteristics_color: b[16],
        unk1: vstd::bytes::spec_u32_from_le_bytes(b.subrange(17, 21)),
        face_eyebrows: b[21],
        face_iris_size: b[22],
        face_eye_shape: b[23],
        face_nose: b[24],
        face_features: b[25],
        face_mouth: b[26],
        ears: b[27],
        hair_color: vstd::bytes::spec_u16_from_le_bytes(b.subrange(28, 30)),
        unk2: vstd::bytes::spec_u32_from_le_bytes(b.subrange(30, 34)),
        skin_color: vstd::bytes::spec_u16_from_le_bytes(b.subrange(34, 36)),
        eye_color: vstd::bytes::spec_u16_from_le_bytes(b.subrange(36, 38)),
        voice: b[38],
        guardian: b[39],
        birth_month: b[40],
        birth_day: b[41],
        current_class: b[42],
        unk3: vstd::bytes::spec_u32_from_le_bytes(b.subrange(43, 47)),
        unk4: vstd::bytes::spec_u32_from_le_bytes(b.subrange(47, 51)),
        unk5: vstd::bytes::spec_u32_from_le_bytes(b.subrange(51, 55)),
        initial_town: b[71],
    }
}

impl CharaInfo {
    /// Decodes a character-appearance record; fails exactly when the buffer
    /// is not the record's fixed size.
    pub fn decode(b: &[u8]) -> (r: Option<CharaInfo>)
        ensures
            r is Some <==> b@.len() == CHARA_INFO_SIZE,
            r is Some ==> r.unwrap() == spec_decode_chara_info(b@),
    {
        if b.len() != CHARA_INFO_SIZE {
            return None;
        }
        Some(
            CharaInfo {
                version: read_u32_le(b, 0),
                unknown1: read_u32_le(b, 4),
                tribe: read_u8(b, 8),
                size: read_u8(b, 9),
                hair_style: read_u16_le(b, 10),
                hair_highlight_color: read_u8(b, 12),
                hair_variation: read_u8(b, 13),
                face_type: read_u8(b, 14),
                characteristics: read_u8(b, 15),
                characteristics_color: read_u8(b, 16),
                unk1: read_u32_le(b, 17),
                face_eyebrows: read_u8(b, 21),
                face_iris_size: read_u8(b, 22),
                face_eye_shape: read_u8(b, 23),
                face_nose: read_u8(b, 24),
                face_features: read_u8(b, 25),
                face_mouth: read_u8(b, 26),
                ears: read_u8(b, 27),
                hair_color: read_u16_le(b, 28),
                unk2: read_u32_le(b, 30),
                skin_color: read_u16_le(b, 34),
                eye_color: read_u16_le(b, 36),
                voice: read_u8(b, 38),
                guardian: read_u8(b, 39),
                birth_month: read_u8(b, 40),
                birth_day: read_u8(b, 41),
                current_class: read_u8(b, 42),
                unk3: read_u32_le(b, 43),
                unk4: read_u32_le(b, 47),
                unk5: read_u32_le(b, 51),
                initial_town: read_u8(b, 71),
            },
        )
    }

    /// Encodes a character-appearance record into its 72-byte layout.
    pub fn encode(&self) -> (r: Vec<u8>)
        ensures
            r@.len() == CHARA_INFO_SIZE,
            spec_decode_chara_info(r@) == *self,
    {
        let mut out: Vec<u8> = Vec::new();
        crate::wire::push_u32_le(&mut out, self.version);
        crate::wire::push_u32_le(&mut out, self.unknown1);
        crate::wire::push_u8(&mut out, self.tribe);
        crate::wire::push_u8(&mut out, self.size);
        crate::wire::push_u16_le(&mut out, self.hair_style);
        crate::wire::push_u8(&mut out, self.hair_highlight_color);
        crate::wire::push_u8(&mut out, self.hair_variation);
        crate::wire::push_u8(&mut out, self.face_type);
        crate::wire::push_u8(&mut out, self.characteristics);
        crate::wire::push_u8(&mut out, self.characteristics_color);
        crate::wire::push_u32_le(&mut out, self.unk1);
        crate::wire::push_u8(&mut out, self.face_eyebrows);
        crate::wire::push_u8(&mut out, self.face_iris_size);
        crate::wire::push_u8(&mut out, self.face_eye_shape);
        crate::wire::push_u8(&mut out, self.face_nose);
        crate::wire::push_u8(&mut out, self.face_features);
        crate::wire::push_u8(&mut out, self.face_mouth);
        crate::wire::push_u8(&mut out, self.ears);
        crate::wire::push_u16_le(&mut out, self.hair_color);
        crate::wire::push_u32_le(&mut out, self.unk2);
        crate::wire::push_u16_le(&mut out, self.skin_color);
        crate::wire::push_u16_le(&mut out, self.eye_color);
        crate::wire::push_u8(&mut out, self.voice);
        crate::wire::push_u8(&mut out, self.guardian);
        crate::wire::push_u8(&mut out, self.birth_month);
        crate::wire::push_u8(&mut out, self.birth_day);
        crate::wire::push_u8(&mut out, self.current_class);
        crate::wire::push_u32_le(&mut out, self.unk3);
        crate::wire::push_u32_le(&mut out, self.unk4);
        crate::wire::push_u32_le(&mut out, self.unk5);
        crate::wire::push_zeroes(&mut out, 16);
        crate::wire::push_u8(&mut out, self.initial_town);
        proof {
            vstd::bytes::lemma_auto_spec_u16_to_from_le_bytes();
            vstd::bytes::lemma_auto_spec_u32_to_from_le_bytes();
            assert(spec_decode_chara_info(out@) == *self) by {
                assert(out@.subrange(0, 4) =~= vstd::bytes::spec_u32_to_le_bytes(self.version));
                assert(out@.subrange(4, 8) =~= vstd::bytes::spec_u32_to_le_bytes(self.unknown1));
                assert(out@.subrange(10, 12) =~= vstd::bytes::spec_u16_to_le_bytes(
                    self.hair_style,
                ));
                assert(out@.subrange(17, 21) =~= vstd::bytes::spec_u32_to_le_bytes(self.unk1));
                assert(out@.subrange(28, 30) =~= vstd::bytes::spec_u16_to_le_bytes(
                    self.hair_color,
                ));
                assert(out@.subrange(30, 34) =~= vstd::bytes::spec_u32_to_le_bytes(self.unk2));
                assert(out@.subrange(34, 36) =~= vstd::bytes::spec_u16_to_le_bytes(
                    self.skin_color,
                ));
                assert(out@.subrange(36, 38) =~= vstd::bytes::spec_u16_to_le_bytes(
                    self.eye_color,
                ));
                assert(out@.subrange(43, 47) =~= vstd::bytes::spec_u32_to_le_bytes(self.unk3));
                assert(out@.subrange(47, 51) =~= vstd::bytes::spec_u32_to_le_bytes(self.unk4));
                assert(out@.subrange(51, 55) =~= vstd::bytes::spec_u32_to_le_bytes(self.unk5));
            }
        }
        out
    }
}

} // verus!
