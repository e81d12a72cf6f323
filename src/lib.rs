//! Password-based authenticated encryption: a key stretched from a password,
//! a deployment-wide pepper and a per-secret salt seals a message with
//! AES-256-GCM under a fresh random nonce, and the result travels as one
//! base64 envelope `salt ‖ nonce ‖ tag ‖ ciphertext`.
pub mod bytes;
pub mod envelope;
pub mod error;
pub mod kdf;
pub mod logger;
pub mod nonce;
pub mod seal;
pub mod service;

pub use error::CryptoError;
pub use logger::ConsoleLogger;

pub use service::{decrypt, encrypt, EncryptionService};
