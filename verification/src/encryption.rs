//! Session key derivation: a fixed prefix, the client nonce, the protocol
//! version and the shared phrase are packed into a 44-byte buffer whose
//! 128-bit digest is the session key.
use crate::wire::{fit_bytes, push_bytes, push_fit_bytes, push_u16_le, push_u32_le, push_u8,
    push_zeroes, zeroes};
use vstd::bytes::{spec_u16_to_le_bytes, spec_u32_to_le_bytes};
use vstd::prelude::*;
use vstd::string::StringSliceAdditionalSpecFns;

verus! {

/// The digest of the named bytes under the 128-bit hash the key derivation
/// uses; a pure function of its input.
pub uninterp spec fn md5_digest_of(data: Seq<u8>) -> Seq<u8>;

/// Relies on md5::compute: the 128-bit digest of the input bytes, which
/// depends on the bytes alone.
#[verifier::external_body]
fn md5_digest(data: &[u8]) -> (r: [u8; 16])
    ensures
        r@ == md5_digest_of(data@),
{
    md5::compute(data).0
}

/// The 44-byte buffer that is hashed into a session key: a fixed 4-byte
/// prefix, the little-endian nonce, the little-endian protocol version, two
/// zero bytes and the phrase bytes, truncated or zero-padded to 44 bytes.
pub open spec fn key_material(nonce: u32, phrase: Seq<u8>) -> Seq<u8> {
    fit_bytes(
        seq![0x78u8, 0x56u8, 0x34u8, 0x12u8] + spec_u32_to_le_bytes(nonce) + spec_u16_to_le_bytes(
            crate::GAME_VERSION,
        ) + zeroes(2) + phrase,
        44,
    )
}

/// Derives the 16-byte session key from the handshake nonce and phrase.
/// Deterministic: the result is a function of the two arguments alone.
pub fn generate_encryption_key(key: u32, phrase: &str) -> (r: [u8; 16])
    ensures
        r@ == md5_digest_of(key_material(key, phrase.spec_bytes())),
{
    let mut base: Vec<u8> = Vec::new();
    push_u8(&mut base, 0x78);
    push_u8(&mut base, 0x56);
    push_u8(&mut base, 0x34);
    push_u8(&mut base, 0x12);
    push_u32_le(&mut base, key);
    push_u16_le(&mut base, crate::GAME_VERSION);
    push_zeroes(&mut base, 2);
    push_bytes(&mut base, phrase.as_bytes());
    proof {
        assert(base@ =~= seq![0x78u8, 0x56u8, 0x34u8, 0x12u8] + spec_u32_to_le_bytes(key)
            + spec_u16_to_le_bytes(crate::GAME_VERSION) + zeroes(2) + phrase.spec_bytes());
    }
    let mut padded: Vec<u8> = Vec::new();
    push_fit_bytes(&mut padded, base.as_slice(), 44);
    md5_digest(padded.as_slice())
}

} // verus!
