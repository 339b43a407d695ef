use kodama::blowfish::{Cipher, CipherError};
use kodama::encryption::generate_encryption_key;

#[test]
fn test_encryption_key() {
    let key = generate_encryption_key(1752899183, "Test Ticket Data");
    assert_eq!(
        key,
        [220, 71, 191, 113, 220, 81, 26, 160, 233, 114, 234, 231, 242, 221, 168, 86]
    );
}

#[test]
fn key_derivation_is_deterministic() {
    let a = generate_encryption_key(42, "abc");
    let b = generate_encryption_key(42, "abc");
    assert_eq!(a, b);
    let c = generate_encryption_key(43, "abc");
    assert_ne!(a, c);
}

#[test]
fn cipher_round_trip() {
    let key = generate_encryption_key(42, "abc");
    let cipher = Cipher::new(&key);
    let original: Vec<u8> = (0u8..64).collect();
    let mut buffer = original.clone();
    cipher.encrypt(&mut buffer).unwrap();
    assert_ne!(buffer, original, "encryption must change the buffer");
    cipher.decrypt(&mut buffer).unwrap();
    assert_eq!(buffer, original);
}

#[test]
fn cipher_round_trip_fresh_cipher() {
    // a second cipher derived from the same key decrypts what the first
    // encrypted
    let key = generate_encryption_key(7, "phrase");
    let mut buffer = vec![0xABu8; 16];
    Cipher::new(&key).encrypt(&mut buffer).unwrap();
    Cipher::new(&key).decrypt(&mut buffer).unwrap();
    assert_eq!(buffer, vec![0xABu8; 16]);
}

#[test]
fn cipher_rejects_misaligned_buffer() {
    let key = generate_encryption_key(1, "x");
    let cipher = Cipher::new(&key);
    let mut buffer = vec![0u8; 13];
    assert_eq!(cipher.encrypt(&mut buffer), Err(CipherError::MalformedInput));
    assert_eq!(buffer, vec![0u8; 13], "a rejected buffer is left untouched");
    assert_eq!(cipher.decrypt(&mut buffer), Err(CipherError::MalformedInput));
}

#[test]
fn cipher_empty_buffer_is_fine() {
    let key = generate_encryption_key(1, "x");
    let cipher = Cipher::new(&key);
    let mut buffer: Vec<u8> = Vec::new();
    assert_eq!(cipher.encrypt(&mut buffer), Ok(()));
    assert!(buffer.is_empty());
}
