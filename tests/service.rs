use base64::Engine;
use crypto::envelope::Envelope;
use crypto::service::{DEFAULT_ITERATIONS, EncryptionService};
use crypto::{decrypt, encrypt, CryptoError};
use std::collections::HashSet;

fn fast_service(pepper: &[u8]) -> EncryptionService {
    EncryptionService::new(pepper.to_vec(), 2).unwrap()
}

#[test]
fn concrete_scenario_round_trip() {
    let text = encrypt("abcdefg", &[0], "message").unwrap();
    assert!(text.len() >= 44);
    // 44 header bytes and 7 ciphertext bytes: 17 groups of three.
    assert_eq!(text.len(), 68);
    assert_eq!(decrypt("abcdefg", &[0], &text).unwrap(), "message");
}

#[test]
fn round_trip_various_messages() {
    let service = fast_service(b"pepper");
    for message in ["", "a", "message", "ünïcödé ✓", &"x".repeat(1000)] {
        let text = service.encrypt("password", None, message).unwrap();
        assert_eq!(service.decrypt("password", &text).unwrap(), message);
    }
}

#[test]
fn round_trip_empty_password_and_pepper() {
    let service = fast_service(b"");
    let text = service.encrypt("", None, "secret").unwrap();
    assert_eq!(service.decrypt("", &text).unwrap(), "secret");
}

#[test]
fn tamper_detection_every_bit() {
    let service = fast_service(b"k");
    let text = service.encrypt("pw", None, "hello").unwrap();
    let bytes = base64::engine::general_purpose::STANDARD.decode(&text).unwrap();
    assert_eq!(bytes.len(), 44 + 5);
    for i in 28..bytes.len() {
        for bit in 0..8 {
            let mut altered = bytes.clone();
            altered[i] ^= 1 << bit;
            let altered_text = base64::engine::general_purpose::STANDARD.encode(&altered);
            assert_eq!(
                service.decrypt("pw", &altered_text),
                Err(CryptoError::AuthenticationFailed)
            );
        }
    }
}

#[test]
fn wrong_password_rejected() {
    let service = fast_service(b"k");
    let text = service.encrypt("right", None, "hello").unwrap();
    assert_eq!(service.decrypt("wrong", &text), Err(CryptoError::AuthenticationFailed));
}

#[test]
fn wrong_pepper_rejected() {
    let text = fast_service(b"one").encrypt("pw", None, "hello").unwrap();
    assert_eq!(
        fast_service(b"two").decrypt("pw", &text),
        Err(CryptoError::AuthenticationFailed)
    );
}

#[test]
fn wrong_iterations_rejected() {
    let a = EncryptionService::new(vec![1], 2).unwrap();
    let b = EncryptionService::new(vec![1], 3).unwrap();
    let text = a.encrypt("pw", None, "hello").unwrap();
    assert_eq!(b.decrypt("pw", &text), Err(CryptoError::AuthenticationFailed));
}

#[test]
fn nonces_are_distinct_over_ten_thousand_calls() {
    let service = EncryptionService::new(vec![7], 1).unwrap();
    let salt = vec![3u8; 16];
    let mut nonces = HashSet::new();
    for _ in 0..10_000 {
        let text = service.encrypt("pw", Some(salt.clone()), "m").unwrap();
        let e = Envelope::decode(&text).unwrap();
        assert_eq!(e.nonce.len(), 12);
        nonces.insert(e.nonce);
    }
    assert_eq!(nonces.len(), 10_000);
}

#[test]
fn salt_is_embedded_and_reencoding_reproduces_text() {
    let service = fast_service(b"k");
    let salt: Vec<u8> = (0u8..16).collect();
    let text = service.encrypt("pw", Some(salt.clone()), "payload").unwrap();
    let e = Envelope::decode(&text).unwrap();
    assert_eq!(e.salt, salt);
    assert_eq!(e.encode(), text);
}

#[test]
fn generated_salts_differ() {
    let service = fast_service(b"k");
    let a = Envelope::decode(&service.encrypt("pw", None, "m").unwrap()).unwrap();
    let b = Envelope::decode(&service.encrypt("pw", None, "m").unwrap()).unwrap();
    assert_ne!(a.salt, b.salt);
}

#[test]
fn seal_envelope_is_deterministic_and_opens() {
    let service = fast_service(b"k");
    let salt = [9u8; 16];
    let nonce = [4u8; 12];
    let a = service.seal_envelope("pw", &salt, &nonce, "same").unwrap();
    let b = service.seal_envelope("pw", &salt, &nonce, "same").unwrap();
    assert_eq!(a, b);
    let e = Envelope::decode(&a).unwrap();
    assert_eq!(e.salt, salt.to_vec());
    assert_eq!(e.nonce, nonce.to_vec());
    assert_eq!(e.ciphertext.len(), 4);
    assert_eq!(service.decrypt("pw", &a).unwrap(), "same");
}

#[test]
fn invalid_inputs() {
    assert!(matches!(EncryptionService::new(vec![1], 0), Err(CryptoError::InvalidInput)));
    let service = fast_service(b"k");
    assert_eq!(
        service.encrypt("pw", Some(vec![0; 15]), "m"),
        Err(CryptoError::InvalidInput)
    );
    assert_eq!(
        service.seal_envelope("pw", &[0; 16], &[0; 11], "m"),
        Err(CryptoError::InvalidInput)
    );
    assert_eq!(
        service.seal_envelope("pw", &[0; 17], &[0; 12], "m"),
        Err(CryptoError::InvalidInput)
    );
}

#[test]
fn malformed_envelopes() {
    let service = fast_service(b"k");
    assert_eq!(service.decrypt("pw", ""), Err(CryptoError::MalformedEnvelope));
    assert_eq!(service.decrypt("pw", "not base64 at all!"), Err(CryptoError::MalformedEnvelope));
    let text = service.encrypt("pw", None, "hello").unwrap();
    assert_eq!(service.decrypt("pw", &text[..text.len() - 1]), Err(CryptoError::MalformedEnvelope));
    let short = base64::engine::general_purpose::STANDARD.encode([0u8; 43]);
    assert_eq!(service.decrypt("pw", &short), Err(CryptoError::MalformedEnvelope));
    assert!(matches!(Envelope::decode("é"), Err(CryptoError::MalformedEnvelope)));
}

#[test]
fn truncated_to_header_fails_authentication() {
    let service = fast_service(b"k");
    let text = service.encrypt("pw", None, "hello").unwrap();
    let bytes = base64::engine::general_purpose::STANDARD.decode(&text).unwrap();
    let header_only = base64::engine::general_purpose::STANDARD.encode(&bytes[..44]);
    assert_eq!(service.decrypt("pw", &header_only), Err(CryptoError::AuthenticationFailed));
}

#[test]
fn non_utf8_plaintext_is_reported_as_malformed() {
    let service = fast_service(b"k");
    let salt = [1u8; 16];
    let nonce = [2u8; 12];
    let mut secret = b"pw".to_vec();
    secret.extend_from_slice(b"k");
    let mut key = [0u8; 32];
    pbkdf2::pbkdf2_hmac::<sha2::Sha256>(&secret, &salt, 2, &mut key);
    let (ciphertext, tag) = crypto::seal::seal(&key, &nonce, &[], &[0xff, 0xfe]).unwrap();
    let e = Envelope { salt: salt.to_vec(), nonce: nonce.to_vec(), tag, ciphertext };
    assert_eq!(service.decrypt("pw", &e.encode()), Err(CryptoError::MalformedEnvelope));
}

#[test]
fn default_iteration_count() {
    assert_eq!(DEFAULT_ITERATIONS, 100_000);
    assert_eq!(fast_service(b"").iterations(), 2);
}

#[test]
fn user_messages_hide_the_failure_kind() {
    assert_eq!(CryptoError::AuthenticationFailed.user_message(), "decryption failed");
    assert_eq!(CryptoError::MalformedEnvelope.user_message(), "decryption failed");
    assert_eq!(CryptoError::InvalidInput.user_message(), "invalid input");
}
