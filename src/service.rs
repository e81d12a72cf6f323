//! The encryption service: derive a key, seal under a fresh nonce, frame and
//! encode; and the reverse, releasing nothing unless the tag verifies.
use vstd::prelude::*;
use vstd::utf8::*;
use crate::bytes::{copy_bytes, wipe};
use crate::envelope::{
    base64_text, ciphertext_of, decoded_frame, encodable_len, frame, is_encodable_len, nonce_of,
    salt_of, tag_of, Envelope, HEADER_LEN,
};
use crate::error::CryptoError;
use crate::kdf::{derive_key, derived_key, SALT_LEN};
use crate::nonce::{generate_nonce, generate_salt};
use crate::seal::{
    aes256gcm_opened, aes256gcm_sealed, ciphertext_part, open, seal, sealable_len, tag_part,
    MAX_SEALED_INPUT, NONCE_LEN,
};

verus! {

broadcast use {encode_utf8_decode_utf8, encode_utf8_valid_utf8, decode_utf8_encode_utf8};

/// Iteration count of the key derivation where the caller names none.
pub const DEFAULT_ITERATIONS: u32 = 100000;

/// Relies on `String::from_utf8`: it accepts exactly the valid UTF-8 byte
/// sequences and keeps the characters they encode.
#[verifier::external_body]
fn string_from_utf8(bytes: Vec<u8>) -> (r: Option<String>)
    ensures
        r is Some <==> valid_utf8(bytes@),
        r matches Some(s) ==> s@ == decode_utf8(bytes@),
{
    String::from_utf8(bytes).ok()
}

/// Whether a plaintext of these bytes can be sealed and framed.
pub open spec fn encryptable(plaintext: Seq<u8>) -> bool {
    &&& sealable_len(plaintext.len() as int)
    &&& plaintext.len() + HEADER_LEN <= usize::MAX
    &&& encodable_len(plaintext.len() + HEADER_LEN)
}

/// The frame that sealing `plaintext` under this salt and nonce produces.
pub open spec fn envelope_frame(
    password: Seq<u8>,
    pepper: Seq<u8>,
    iterations: u32,
    salt: Seq<u8>,
    nonce: Seq<u8>,
    plaintext: Seq<u8>,
) -> Seq<u8> {
    let sealed = aes256gcm_sealed(derived_key(password, pepper, salt, iterations), nonce, Seq::empty(), plaintext);
    frame(salt, nonce, tag_part(sealed), ciphertext_part(sealed))
}

/// The bytes that opening an envelope text gives, or why it fails.
pub open spec fn opened_bytes(password: Seq<u8>, pepper: Seq<u8>, iterations: u32, text: Seq<char>) -> Result<Seq<u8>, CryptoError> {
    match decoded_frame(text) {
        None => Err(CryptoError::MalformedEnvelope),
        Some(b) => match aes256gcm_opened(
            derived_key(password, pepper, salt_of(b), iterations),
            nonce_of(b),
            Seq::empty(),
            ciphertext_of(b) + tag_of(b),
        ) {
            Some(p) => Ok(p),
            None => Err(CryptoError::AuthenticationFailed),
        },
    }
}

/// The text that decrypting an envelope gives, or why it fails.
pub open spec fn opened_text(password: Seq<char>, pepper: Seq<u8>, iterations: u32, text: Seq<char>) -> Result<Seq<char>, CryptoError> {
    match opened_bytes(encode_utf8(password), pepper, iterations, text) {
        Ok(p) => if valid_utf8(p) { Ok(decode_utf8(p)) } else { Err(CryptoError::MalformedEnvelope) },
        Err(e) => Err(e),
    }
}

/// The salt and nonce that a sealed envelope carries are the ones its key was
/// derived with and its message sealed under, so opening the frame re-derives
/// the same key.
pub proof fn lemma_salt_propagation(
    password: Seq<u8>,
    pepper: Seq<u8>,
    iterations: u32,
    salt: Seq<u8>,
    nonce: Seq<u8>,
    plaintext: Seq<u8>,
)
    requires
        salt.len() == SALT_LEN,
        nonce.len() == NONCE_LEN,
    ensures
        salt_of(envelope_frame(password, pepper, iterations, salt, nonce, plaintext)) == salt,
        nonce_of(envelope_frame(password, pepper, iterations, salt, nonce, plaintext)) == nonce,
        derived_key(password, pepper, salt_of(envelope_frame(password, pepper, iterations, salt, nonce, plaintext)), iterations)
            == derived_key(password, pepper, salt, iterations),
{
    let b = envelope_frame(password, pepper, iterations, salt, nonce, plaintext);
    assert(salt_of(b) =~= salt);
    assert(nonce_of(b) =~= nonce);
}

/// A text result seen as characters.
pub open spec fn text_result(r: Result<String, CryptoError>) -> Result<Seq<char>, CryptoError> {
    match r {
        Ok(s) => Ok(s@),
        Err(e) => Err(e),
    }
}

/// Tests `encryptable` on a plaintext length.
fn is_encryptable_len(n: usize) -> (r: bool)
    ensures
        r == (sealable_len(n as int) && n + HEADER_LEN <= usize::MAX && encodable_len(n + HEADER_LEN)),
{
    if n as u64 > MAX_SEALED_INPUT || n > usize::MAX - HEADER_LEN {
        return false;
    }
    is_encodable_len(n + HEADER_LEN)
}

/// Encrypts and decrypts with one pepper and one iteration count.
pub struct EncryptionService {
    pepper: Vec<u8>,
    iterations: u32,
}

impl EncryptionService {
    #[verifier::type_invariant]
    spec fn inv(&self) -> bool {
        self.iterations > 0
    }

    /// The pepper this service mixes into every key.
    pub closed spec fn pepper_view(&self) -> Seq<u8> {
        self.pepper@
    }

    /// The iteration count of this service's key derivation.
    pub closed spec fn iterations_view(&self) -> u32 {
        self.iterations
    }

    /// A service for this pepper. Fails with `InvalidInput` exactly where the
    /// iteration count is zero.
    pub fn new(pepper: Vec<u8>, iterations: u32) -> (r: Result<EncryptionService, CryptoError>)
        ensures
            r is Err <==> iterations == 0,
            r matches Err(e) ==> e == CryptoError::InvalidInput,
            r matches Ok(s) ==> s.pepper_view() == pepper@ && s.iterations_view() == iterations,
    {
        if iterations == 0 {
            return Err(CryptoError::InvalidInput);
        }
        Ok(EncryptionService { pepper, iterations })
    }

    pub fn iterations(&self) -> (r: u32)
        ensures
            r == self.iterations_view(),
            r > 0,
    {
        proof {
            use_type_invariant(self);
        }
        self.iterations
    }

    /// Seals `plaintext` under the given salt and nonce and returns the
    /// envelope text. The nonce must be fresh: `encrypt` draws one.
    pub fn seal_envelope(&self, password: &str, salt: &[u8], nonce: &[u8], plaintext: &str) -> (r: Result<String, CryptoError>)
        ensures
            !(salt@.len() == SALT_LEN && nonce@.len() == NONCE_LEN)
                ==> r == Err::<String, CryptoError>(CryptoError::InvalidInput),
            salt@.len() == SALT_LEN && nonce@.len() == NONCE_LEN && !encryptable(encode_utf8(plaintext@))
                ==> r == Err::<String, CryptoError>(CryptoError::EncryptionFailed),
            salt@.len() == SALT_LEN && nonce@.len() == NONCE_LEN && encryptable(encode_utf8(plaintext@))
                ==> r is Ok,
            r matches Ok(t) ==> t@ == base64_text(envelope_frame(
                encode_utf8(password@), self.pepper_view(), self.iterations_view(),
                salt@, nonce@, encode_utf8(plaintext@))),
            r matches Ok(t) ==> decoded_frame(t@) == Some(envelope_frame(
                encode_utf8(password@), self.pepper_view(), self.iterations_view(),
                salt@, nonce@, encode_utf8(plaintext@))),
            r matches Ok(t) ==> decoded_frame(t@) matches Some(b) && salt_of(b) == salt@ && nonce_of(b) == nonce@,
            r matches Ok(t) ==> opened_text(password@, self.pepper_view(), self.iterations_view(), t@) == Ok::<Seq<char>, CryptoError>(plaintext@),
    {
        proof {
            use_type_invariant(self);
        }
        if salt.len() != SALT_LEN || nonce.len() != NONCE_LEN {
            return Err(CryptoError::InvalidInput);
        }
        let message = plaintext.as_bytes();
        if !is_encryptable_len(message.len()) {
            return Err(CryptoError::EncryptionFailed);
        }
        let secret = password.as_bytes();
        let mut key = match derive_key(secret, self.pepper.as_slice(), salt, self.iterations) {
            Ok(k) => k,
            Err(e) => return Err(e),
        };
        let ghost k = key@;
        let aad: Vec<u8> = Vec::new();
        let sealed = seal(key.as_slice(), nonce, aad.as_slice(), message);
        wipe(&mut key);
        match sealed {
            Err(e) => Err(e),
            Ok((ciphertext, tag)) => {
                let e = Envelope { salt: copy_bytes(salt), nonce: copy_bytes(nonce), tag, ciphertext };
                let text = e.encode();
                proof {
                    let b = e.framed();
                    let whole = aes256gcm_sealed(k, nonce@, Seq::empty(), message@);
                    assert(aad@ =~= Seq::<u8>::empty());
                    assert(salt_of(b) =~= salt@);
                    assert(nonce_of(b) =~= nonce@);
                    assert(tag_of(b) =~= e.tag@);
                    assert(ciphertext_of(b) =~= e.ciphertext@);
                    assert(b =~= envelope_frame(secret@, self.pepper@, self.iterations, salt@, nonce@, message@));
                }
                Ok(text)
            },
        }
    }

    /// Encrypts `plaintext` under a fresh nonce, with the given salt or a
    /// fresh one, and returns the envelope text.
    pub fn encrypt(&self, password: &str, salt: Option<Vec<u8>>, plaintext: &str) -> (r: Result<String, CryptoError>)
        ensures
            salt matches Some(v) && v@.len() != SALT_LEN ==> r == Err::<String, CryptoError>(CryptoError::InvalidInput),
            !(salt matches Some(v) && v@.len() != SALT_LEN) && !encryptable(encode_utf8(plaintext@))
                ==> r == Err::<String, CryptoError>(CryptoError::EncryptionFailed),
            !(salt matches Some(v) && v@.len() != SALT_LEN) && encryptable(encode_utf8(plaintext@))
                ==> r is Ok || r == Err::<String, CryptoError>(CryptoError::RandomSourceUnavailable),
            r matches Ok(t) ==> exists|s: Seq<u8>, n: Seq<u8>|
                s.len() == SALT_LEN && n.len() == NONCE_LEN
                && (salt matches Some(v) ==> s == v@)
                && t@ == base64_text(envelope_frame(
                    encode_utf8(password@), self.pepper_view(), self.iterations_view(),
                    s, n, encode_utf8(plaintext@)))
                && decoded_frame(t@) == Some(envelope_frame(
                    encode_utf8(password@), self.pepper_view(), self.iterations_view(),
                    s, n, encode_utf8(plaintext@)))
                && salt_of(envelope_frame(
                    encode_utf8(password@), self.pepper_view(), self.iterations_view(),
                    s, n, encode_utf8(plaintext@))) == s,
            r matches Ok(t) ==> opened_text(password@, self.pepper_view(), self.iterations_view(), t@) == Ok::<Seq<char>, CryptoError>(plaintext@),
    {
        let salt = match salt {
            Some(v) => {
                if v.len() != SALT_LEN {
                    return Err(CryptoError::InvalidInput);
                }
                v
            },
            None => {
                if !is_encryptable_len(plaintext.as_bytes().len()) {
                    return Err(CryptoError::EncryptionFailed);
                }
                match generate_salt() {
                    Ok(s) => s,
                    Err(e) => return Err(e),
                }
            },
        };
        if !is_encryptable_len(plaintext.as_bytes().len()) {
            return Err(CryptoError::EncryptionFailed);
        }
        let nonce = match generate_nonce() {
            Ok(n) => n,
            Err(e) => return Err(e),
        };
        self.seal_envelope(password, salt.as_slice(), nonce.as_slice(), plaintext)
    }

    /// Decodes an envelope, re-derives its key from the embedded salt, checks
    /// the tag and returns the plaintext. Whatever it accepts is exactly what
    /// sealing the returned plaintext under the embedded salt and nonce gives.
    pub fn decrypt(&self, password: &str, envelope: &str) -> (r: Result<String, CryptoError>)
        ensures
            text_result(r) == opened_text(password@, self.pepper_view(), self.iterations_view(), envelope@),
            r matches Ok(m) ==> decoded_frame(envelope@) matches Some(b)
                && envelope_frame(encode_utf8(password@), self.pepper_view(), self.iterations_view(),
                    salt_of(b), nonce_of(b), encode_utf8(m@)) == b,
    {
        proof {
            use_type_invariant(self);
        }
        let e = match Envelope::decode(envelope) {
            Ok(e) => e,
            Err(err) => return Err(err),
        };
        let secret = password.as_bytes();
        let mut key = match derive_key(secret, self.pepper.as_slice(), e.salt.as_slice(), self.iterations) {
            Ok(k) => k,
            Err(err) => return Err(err),
        };
        let aad: Vec<u8> = Vec::new();
        assert(aad@ =~= Seq::<u8>::empty());
        let opened = open(key.as_slice(), e.nonce.as_slice(), aad.as_slice(), e.ciphertext.as_slice(), e.tag.as_slice());
        wipe(&mut key);
        match opened {
            Err(err) => Err(err),
            Ok(p) => {
                let ghost pb = p@;
                match string_from_utf8(p) {
                    Some(s) => {
                        proof {
                            let b = e.framed();
                            let sealed = e.ciphertext@ + e.tag@;
                            assert(encode_utf8(s@) == pb);
                            assert(tag_part(sealed) =~= e.tag@);
                            assert(ciphertext_part(sealed) =~= e.ciphertext@);
                        }
                        Ok(s)
                    },
                    None => Err(CryptoError::MalformedEnvelope),
                }
            },
        }
    }
}

/// Encrypts `plaintext` with a fresh salt and nonce and the default
/// iteration count.
pub fn encrypt(password: &str, pepper: &[u8], plaintext: &str) -> (r: Result<String, CryptoError>)
    ensures
        !encryptable(encode_utf8(plaintext@)) ==> r == Err::<String, CryptoError>(CryptoError::EncryptionFailed),
        encryptable(encode_utf8(plaintext@))
            ==> r is Ok || r == Err::<String, CryptoError>(CryptoError::RandomSourceUnavailable),
        r matches Ok(t) ==> exists|s: Seq<u8>, n: Seq<u8>|
            s.len() == SALT_LEN && n.len() == NONCE_LEN
            && t@ == base64_text(envelope_frame(
                encode_utf8(password@), pepper@, DEFAULT_ITERATIONS, s, n, encode_utf8(plaintext@)))
            && decoded_frame(t@) == Some(envelope_frame(
                encode_utf8(password@), pepper@, DEFAULT_ITERATIONS, s, n, encode_utf8(plaintext@))),
        r matches Ok(t) ==> opened_text(password@, pepper@, DEFAULT_ITERATIONS, t@) == Ok::<Seq<char>, CryptoError>(plaintext@),
{
    let service = match EncryptionService::new(copy_bytes(pepper), DEFAULT_ITERATIONS) {
        Ok(s) => s,
        Err(e) => return Err(e),
    };
    service.encrypt(password, None, plaintext)
}

/// Decrypts an envelope made by `encrypt` with the same pepper.
pub fn decrypt(password: &str, pepper: &[u8], envelope: &str) -> (r: Result<String, CryptoError>)
    ensures
        text_result(r) == opened_text(password@, pepper@, DEFAULT_ITERATIONS, envelope@),
{
    let service = match EncryptionService::new(copy_bytes(pepper), DEFAULT_ITERATIONS) {
        Ok(s) => s,
        Err(e) => return Err(e),
    };
    service.decrypt(password, envelope)
}

} // verus!
