//! The AEAD engine: AES-256-GCM with a 96-bit nonce and a 128-bit tag.
use vstd::prelude::*;
use aes_gcm::aead::{Aead, KeyInit};
use crate::error::CryptoError;
use crate::kdf::KEY_LEN;

verus! {

/// Length in bytes of a nonce.
pub const NONCE_LEN: usize = 12;

/// Length in bytes of an authentication tag.
pub const TAG_LEN: usize = 16;

/// The longest plaintext, and the longest associated data, that AES-GCM
/// seals (2^36 bytes).
pub const MAX_SEALED_INPUT: u64 = 68719476736;

/// What AES-256-GCM makes of `plaintext`: the ciphertext followed by the tag.
pub uninterp spec fn aes256gcm_sealed(key: Seq<u8>, nonce: Seq<u8>, aad: Seq<u8>, plaintext: Seq<u8>) -> Seq<u8>;

/// What AES-256-GCM makes of `ciphertext ‖ tag`: the plaintext, or nothing
/// where the tag does not verify.
pub uninterp spec fn aes256gcm_opened(key: Seq<u8>, nonce: Seq<u8>, aad: Seq<u8>, sealed: Seq<u8>) -> Option<Seq<u8>>;

#[verifier::external_type_specification]
#[verifier::external_body]
pub struct ExAeadError(aead::Error);

/// Relies on `Aead::encrypt` of `aes_gcm::Aes256Gcm`: it fails only where the
/// plaintext or the associated data is longer than 2^36 bytes; otherwise it
/// returns the ciphertext (as long as the plaintext) followed by the 16-byte
/// tag, which decryption with the same key, nonce and data accepts.
#[verifier::external_body]
fn aes256gcm_encrypt(key: &[u8], nonce: &[u8], aad: &[u8], plaintext: &[u8]) -> (r: Result<Vec<u8>, aead::Error>)
    requires
        key@.len() == KEY_LEN,
        nonce@.len() == NONCE_LEN,
    ensures
        r is Ok <==> (plaintext@.len() <= MAX_SEALED_INPUT && aad@.len() <= MAX_SEALED_INPUT),
        r matches Ok(c) ==> c@ == aes256gcm_sealed(key@, nonce@, aad@, plaintext@),
        r matches Ok(c) ==> c@.len() == plaintext@.len() + TAG_LEN,
        r matches Ok(c) ==> aes256gcm_opened(key@, nonce@, aad@, c@) == Some(plaintext@),
{
    let cipher = aes_gcm::Aes256Gcm::new(aes_gcm::Key::<aes_gcm::Aes256Gcm>::from_slice(key));
    cipher.encrypt(aes_gcm::Nonce::from_slice(nonce), aead::Payload { msg: plaintext, aad })
}

/// Relies on `Aead::decrypt` of `aes_gcm::Aes256Gcm`: it recomputes the tag
/// over the ciphertext and releases the plaintext only where it equals the
/// given tag, so an accepted input is exactly what encryption of the
/// returned plaintext produces.
#[verifier::external_body]
fn aes256gcm_decrypt(key: &[u8], nonce: &[u8], aad: &[u8], sealed: &[u8]) -> (r: Result<Vec<u8>, aead::Error>)
    requires
        key@.len() == KEY_LEN,
        nonce@.len() == NONCE_LEN,
    ensures
        r matches Ok(p) ==> aes256gcm_opened(key@, nonce@, aad@, sealed@) == Some(p@),
        r is Err ==> aes256gcm_opened(key@, nonce@, aad@, sealed@) is None,
        r matches Ok(p) ==> aes256gcm_sealed(key@, nonce@, aad@, p@) == sealed@,
{
    let cipher = aes_gcm::Aes256Gcm::new(aes_gcm::Key::<aes_gcm::Aes256Gcm>::from_slice(key));
    cipher.decrypt(aes_gcm::Nonce::from_slice(nonce), aead::Payload { msg: sealed, aad })
}

/// The ciphertext part of a sealed output (all but the trailing tag).
pub open spec fn ciphertext_part(sealed: Seq<u8>) -> Seq<u8> {
    sealed.subrange(0, sealed.len() - TAG_LEN)
}

/// The tag part of a sealed output (its last `TAG_LEN` bytes).
pub open spec fn tag_part(sealed: Seq<u8>) -> Seq<u8> {
    sealed.subrange(sealed.len() - TAG_LEN, sealed.len() as int)
}

/// Whether `seal` accepts a plaintext of this length.
pub open spec fn sealable_len(n: int) -> bool {
    n <= MAX_SEALED_INPUT
}

/// Encrypts and authenticates `plaintext` under `key` and `nonce`, binding
/// `aad` into the tag. Returns the ciphertext and the tag apart. A nonce must
/// never be used twice with one key.
pub fn seal(key: &[u8], nonce: &[u8], aad: &[u8], plaintext: &[u8]) -> (r: Result<(Vec<u8>, Vec<u8>), CryptoError>)
    requires
        key@.len() == KEY_LEN,
        nonce@.len() == NONCE_LEN,
        aad@.len() <= MAX_SEALED_INPUT,
    ensures
        r is Ok <==> sealable_len(plaintext@.len() as int),
        r matches Err(e) ==> e == CryptoError::EncryptionFailed,
        r matches Ok((c, t)) ==> c@ == ciphertext_part(aes256gcm_sealed(key@, nonce@, aad@, plaintext@))
            && t@ == tag_part(aes256gcm_sealed(key@, nonce@, aad@, plaintext@))
            && c@.len() == plaintext@.len() && t@.len() == TAG_LEN,
        r matches Ok((c, t)) ==> aes256gcm_opened(key@, nonce@, aad@, c@ + t@) == Some(plaintext@),
{
    match aes256gcm_encrypt(key, nonce, aad, plaintext) {
        Ok(sealed) => {
            let ghost whole = sealed@;
            let mut ciphertext = sealed;
            let tag = ciphertext.split_off(plaintext.len());
            assert(ciphertext@ + tag@ =~= whole);
            Ok((ciphertext, tag))
        },
        Err(_) => Err(CryptoError::EncryptionFailed),
    }
}

/// Verifies `tag` over `ciphertext` and decrypts it. No plaintext comes out
/// unless the tag verifies; what comes out seals back to exactly the input.
pub fn open(key: &[u8], nonce: &[u8], aad: &[u8], ciphertext: &[u8], tag: &[u8]) -> (r: Result<Vec<u8>, CryptoError>)
    requires
        key@.len() == KEY_LEN,
        nonce@.len() == NONCE_LEN,
    ensures
        r matches Ok(p) ==> aes256gcm_opened(key@, nonce@, aad@, ciphertext@ + tag@) == Some(p@),
        r is Err <==> aes256gcm_opened(key@, nonce@, aad@, ciphertext@ + tag@) is None,
        r matches Err(e) ==> e == CryptoError::AuthenticationFailed,
        r matches Ok(p) ==> aes256gcm_sealed(key@, nonce@, aad@, p@) == ciphertext@ + tag@,
{
    let mut sealed: Vec<u8> = crate::bytes::copy_bytes(ciphertext);
    crate::bytes::append_bytes(&mut sealed, tag);
    match aes256gcm_decrypt(key, nonce, aad, sealed.as_slice()) {
        Ok(p) => Ok(p),
        Err(_) => Err(CryptoError::AuthenticationFailed),
    }
}

} // verus!
