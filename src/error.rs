use vstd::prelude::*;

verus! {

/// The ways an operation of this library can fail.
#[derive(Debug, Clone, Copy, PartialEq, Eq, Structural)]
pub enum CryptoError {
    /// A parameter has the wrong shape: a salt or nonce of the wrong length,
    /// or an iteration count of zero.
    InvalidInput,
    /// The operating system's secure random source could not be read.
    RandomSourceUnavailable,
    /// The cipher refused to seal the message (it is too long to be sealed
    /// or to be framed).
    EncryptionFailed,
    /// The tag did not match: wrong password or pepper, or altered data.
    AuthenticationFailed,
    /// The envelope is not valid base64, or is shorter than its fixed header.
    MalformedEnvelope,
}

impl CryptoError {
    /// The text shown to users. Authentication and envelope problems read
    /// alike, so that the message tells an attacker nothing.
    pub fn user_message(&self) -> (r: &'static str)
        ensures
            (*self == CryptoError::AuthenticationFailed || *self == CryptoError::MalformedEnvelope)
                ==> r@ == "decryption failed"@,
    {
        match self {
            CryptoError::InvalidInput => "invalid input",
            CryptoError::RandomSourceUnavailable => "random source unavailable",
            CryptoError::EncryptionFailed => "encryption failed",
            CryptoError::AuthenticationFailed => "decryption failed",
            CryptoError::MalformedEnvelope => "decryption failed",
        }
    }
}

} // verus!
