//! Key derivation: PBKDF2 with HMAC-SHA-256 over `password ‖ pepper`,
//! salted and iterated.
use vstd::prelude::*;
use crate::bytes::{append_bytes, wipe, zeroed};
use crate::error::CryptoError;

verus! {

/// Length in bytes of a salt.
pub const SALT_LEN: usize = 16;

/// Length in bytes of a derived key (AES-256).
pub const KEY_LEN: usize = 32;

/// The `len` bytes that PBKDF2-HMAC-SHA-256 derives from `secret`, `salt`
/// and `rounds`.
pub uninterp spec fn pbkdf2_hmac_sha256(secret: Seq<u8>, salt: Seq<u8>, rounds: u32, len: nat) -> Seq<u8>;

/// Relies on `pbkdf2::pbkdf2_hmac::<sha2::Sha256>`: it fills the whole output
/// buffer with the derived bytes, and does not panic (HMAC takes keys of
/// any length).
#[verifier::external_body]
fn pbkdf2_sha256_into(secret: &[u8], salt: &[u8], rounds: u32, out: &mut Vec<u8>)
    ensures
        final(out)@.len() == old(out)@.len(),
        final(out)@ == pbkdf2_hmac_sha256(secret@, salt@, rounds, old(out)@.len()),
{
    pbkdf2::pbkdf2_hmac::<sha2::Sha256>(secret, salt, rounds, out.as_mut_slice())
}

/// The secret input of the derivation: the password followed by the pepper.
pub open spec fn secret_material(password: Seq<u8>, pepper: Seq<u8>) -> Seq<u8> {
    password + pepper
}

/// The key that `derive_key` produces for these inputs.
pub open spec fn derived_key(password: Seq<u8>, pepper: Seq<u8>, salt: Seq<u8>, iterations: u32) -> Seq<u8> {
    pbkdf2_hmac_sha256(secret_material(password, pepper), salt, iterations, KEY_LEN as nat)
}

/// Whether `derive_key` accepts a salt and an iteration count.
pub open spec fn valid_kdf_params(salt: Seq<u8>, iterations: u32) -> bool {
    salt.len() == SALT_LEN && iterations > 0
}

/// Stretches password and pepper into a key of `KEY_LEN` bytes. The
/// combined secret is wiped before returning; the caller wipes the key.
pub fn derive_key(password: &[u8], pepper: &[u8], salt: &[u8], iterations: u32) -> (r: Result<Vec<u8>, CryptoError>)
    ensures
        r is Ok <==> valid_kdf_params(salt@, iterations),
        r matches Err(e) ==> e == CryptoError::InvalidInput,
        r matches Ok(k) ==> k@ == derived_key(password@, pepper@, salt@, iterations),
        r matches Ok(k) ==> k@.len() == KEY_LEN,
{
    if salt.len() != SALT_LEN || iterations == 0 {
        return Err(CryptoError::InvalidInput);
    }
    let mut secret: Vec<u8> = Vec::new();
    append_bytes(&mut secret, password);
    append_bytes(&mut secret, pepper);
    assert(secret@ =~= secret_material(password@, pepper@));
    let mut key = zeroed(KEY_LEN);
    pbkdf2_sha256_into(secret.as_slice(), salt, iterations, &mut key);
    wipe(&mut secret);
    Ok(key)
}

} // verus!
