//! Fresh random values: nonces and salts from the operating system.
use vstd::prelude::*;
use aead::rand_core::RngCore;
use crate::bytes::zeroed;
use crate::error::CryptoError;
use crate::kdf::SALT_LEN;
use crate::seal::NONCE_LEN;

verus! {

#[verifier::external_type_specification]
#[verifier::external_body]
pub struct ExRandError(aead::rand_core::Error);

/// Relies on `rand_core::OsRng::try_fill_bytes` (re-exported by `aead`): it
/// reads the operating system's entropy source into the buffer, or reports
/// that the source could not be read. The buffer keeps its length.
#[verifier::external_body]
fn os_fill(buf: &mut Vec<u8>) -> (r: Result<(), aead::rand_core::Error>)
    ensures
        final(buf)@.len() == old(buf)@.len(),
{
    aead::OsRng.try_fill_bytes(buf.as_mut_slice())
}

/// `len` bytes from the secure random source.
pub fn random_bytes(len: usize) -> (r: Result<Vec<u8>, CryptoError>)
    ensures
        r matches Ok(v) ==> v@.len() == len,
        r matches Err(e) ==> e == CryptoError::RandomSourceUnavailable,
{
    let mut buf = zeroed(len);
    match os_fill(&mut buf) {
        Ok(()) => Ok(buf),
        Err(_) => Err(CryptoError::RandomSourceUnavailable),
    }
}

/// A fresh nonce, drawn for exactly one sealing.
pub fn generate_nonce() -> (r: Result<Vec<u8>, CryptoError>)
    ensures
        r matches Ok(n) ==> n@.len() == NONCE_LEN,
        r matches Err(e) ==> e == CryptoError::RandomSourceUnavailable,
{
    random_bytes(NONCE_LEN)
}

/// A fresh salt for a new secret.
pub fn generate_salt() -> (r: Result<Vec<u8>, CryptoError>)
    ensures
        r matches Ok(s) ==> s@.len() == SALT_LEN,
        r matches Err(e) ==> e == CryptoError::RandomSourceUnavailable,
{
    random_bytes(SALT_LEN)
}

} // verus!
