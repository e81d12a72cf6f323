use aes_gcm::aead::{Aead, KeyInit};
use crypto::bytes::{append_bytes, copy_bytes, wipe, zeroed};
use crypto::envelope::{is_encodable_len, Envelope};
use crypto::kdf::derive_key;
use crypto::nonce::{generate_nonce, generate_salt, random_bytes};
use crypto::seal::{open, seal};
use crypto::{ConsoleLogger, CryptoError};

fn hex(s: &str) -> Vec<u8> {
    (0..s.len()).step_by(2).map(|i| u8::from_str_radix(&s[i..i + 2], 16).unwrap()).collect()
}

#[test]
fn derive_key_matches_pbkdf2_over_password_and_pepper() {
    let salt = [5u8; 16];
    let key = derive_key(b"password", b"pepper", &salt, 3).unwrap();
    let mut expected = [0u8; 32];
    pbkdf2::pbkdf2_hmac::<sha2::Sha256>(b"passwordpepper", &salt, 3, &mut expected);
    assert_eq!(key, expected.to_vec());
    assert_ne!(key, derive_key(b"password", b"pepper", &[6u8; 16], 3).unwrap());
}

#[test]
fn derive_key_rejects_bad_parameters() {
    assert_eq!(derive_key(b"p", b"k", &[0; 15], 1), Err(CryptoError::InvalidInput));
    assert_eq!(derive_key(b"p", b"k", &[0; 16], 0), Err(CryptoError::InvalidInput));
}

#[test]
fn seal_known_answer() {
    // AES-256-GCM, zero key, zero nonce, one zero block.
    let (c, t) = seal(&[0; 32], &[0; 12], &[], &[0; 16]).unwrap();
    assert_eq!(c, hex("cea7403d4d606b6e074ec5d3baf39d18"));
    assert_eq!(t, hex("d0d1c8a799996bf0265b98b5d48ab919"));
}

#[test]
fn seal_agrees_with_aes_gcm_and_opens() {
    let key = [7u8; 32];
    let nonce = [8u8; 12];
    let (c, t) = seal(&key, &nonce, b"ad", b"plaintext").unwrap();
    let cipher = aes_gcm::Aes256Gcm::new(aes_gcm::Key::<aes_gcm::Aes256Gcm>::from_slice(&key));
    let whole = cipher
        .encrypt(aes_gcm::Nonce::from_slice(&nonce), aead::Payload { msg: b"plaintext", aad: b"ad" })
        .unwrap();
    let mut joined = c.clone();
    joined.extend_from_slice(&t);
    assert_eq!(joined, whole);
    assert_eq!(open(&key, &nonce, b"ad", &c, &t).unwrap(), b"plaintext".to_vec());
    assert_eq!(open(&key, &nonce, b"other", &c, &t), Err(CryptoError::AuthenticationFailed));
    let mut bad_tag = t.clone();
    bad_tag[15] ^= 0x80;
    assert_eq!(open(&key, &nonce, b"ad", &c, &bad_tag), Err(CryptoError::AuthenticationFailed));
}

#[test]
fn envelope_encoding_of_zero_header() {
    let e = Envelope { salt: vec![0; 16], nonce: vec![0; 12], tag: vec![0; 16], ciphertext: vec![] };
    // 44 bytes: fourteen full groups and one of two bytes, padded once.
    let text = format!("{}=", "A".repeat(59));
    assert_eq!(e.encode(), text);
    assert_eq!(e.to_bytes(), vec![0u8; 44]);
    assert_eq!(Envelope::decode(&text).unwrap(), e);
}

#[test]
fn envelope_fields_keep_their_order() {
    let e = Envelope { salt: vec![1; 16], nonce: vec![2; 12], tag: vec![3; 16], ciphertext: vec![4, 5] };
    let mut expected = vec![1u8; 16];
    expected.extend_from_slice(&[2; 12]);
    expected.extend_from_slice(&[3; 16]);
    expected.extend_from_slice(&[4, 5]);
    assert_eq!(e.to_bytes(), expected);
    let text = e.encode();
    assert_eq!(text.len(), 64);
    assert_eq!(Envelope::decode(&text).unwrap(), e);
}

#[test]
fn encodable_lengths() {
    assert!(is_encodable_len(0));
    assert!(is_encodable_len(44));
    assert!(is_encodable_len(usize::MAX / 4 * 3));
    assert!(!is_encodable_len(usize::MAX));
    assert!(!is_encodable_len(usize::MAX / 4 * 3 + 1));
}

#[test]
fn random_values_have_their_lengths() {
    assert_eq!(random_bytes(0).unwrap().len(), 0);
    assert_eq!(random_bytes(33).unwrap().len(), 33);
    let a = generate_nonce().unwrap();
    let b = generate_nonce().unwrap();
    assert_eq!(a.len(), 12);
    assert_ne!(a, b);
    assert_eq!(generate_salt().unwrap().len(), 16);
}

#[test]
fn byte_helpers() {
    let mut v = vec![1u8, 2];
    append_bytes(&mut v, &[3, 4]);
    assert_eq!(v, vec![1, 2, 3, 4]);
    assert_eq!(copy_bytes(&[9, 8]), vec![9, 8]);
    assert_eq!(zeroed(3), vec![0, 0, 0]);
    wipe(&mut v);
    assert_eq!(v, vec![0, 0, 0, 0]);
}

#[test]
fn console_logger_is_a_unit_value() {
    assert_eq!(ConsoleLogger, ConsoleLogger);
}
