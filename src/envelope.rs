//! The envelope: `salt ‖ nonce ‖ tag ‖ ciphertext` as one base64 text. The
//! three leading fields have fixed widths, so the ciphertext is whatever
//! follows them.
use vstd::prelude::*;
use base64::Engine;
use crate::bytes::{append_bytes, copy_bytes};
use crate::error::CryptoError;
use crate::kdf::SALT_LEN;
use crate::seal::{NONCE_LEN, TAG_LEN};

verus! {

/// Bytes in front of the ciphertext: salt, nonce and tag.
pub const HEADER_LEN: usize = SALT_LEN + NONCE_LEN + TAG_LEN;

/// The standard padded base64 text of `bytes`.
pub uninterp spec fn base64_text(bytes: Seq<u8>) -> Seq<char>;

/// The bytes that standard padded base64 decoding gives for `text`, or
/// nothing where `text` is not canonical base64.
pub uninterp spec fn base64_bytes(text: Seq<char>) -> Option<Seq<u8>>;

#[verifier::external_type_specification]
#[verifier::external_body]
pub struct ExDecodeError(base64::DecodeError);

/// The length of the padded base64 text of `n` bytes.
pub open spec fn base64_len(n: int) -> int {
    4 * ((n + 2) / 3)
}

/// Whether the base64 text of `n` bytes has a length that fits in `usize`.
pub open spec fn encodable_len(n: int) -> bool {
    base64_len(n) <= usize::MAX
}

/// Relies on `base64::engine::general_purpose::STANDARD.encode`: padded
/// output of four characters per started group of three bytes, which the same
/// engine decodes back to the input. It panics only where that length
/// overflows `usize`.
#[verifier::external_body]
fn base64_encode(bytes: &[u8]) -> (r: String)
    requires
        encodable_len(bytes@.len() as int),
    ensures
        r@ == base64_text(bytes@),
        r@.len() == base64_len(bytes@.len() as int),
        base64_bytes(r@) == Some(bytes@),
{
    base64::engine::general_purpose::STANDARD.encode(bytes)
}

/// Relies on `base64::engine::general_purpose::STANDARD.decode`: it fails on
/// text outside the alphabet, on bad padding and on non-canonical trailing
/// bits, and otherwise returns the decoded bytes.
#[verifier::external_body]
fn base64_decode(text: &str) -> (r: Result<Vec<u8>, base64::DecodeError>)
    ensures
        r matches Ok(v) ==> base64_bytes(text@) == Some(v@),
        r is Err ==> base64_bytes(text@) is None,
{
    base64::engine::general_purpose::STANDARD.decode(text)
}

/// Tests `encodable_len` without overflow.
pub fn is_encodable_len(n: usize) -> (r: bool)
    ensures
        r == encodable_len(n as int),
{
    let groups: usize = if n % 3 == 0 { n / 3 } else { n / 3 + 1 };
    assert(groups == (n + 2) / 3) by (nonlinear_arith)
        requires
            groups == (if n % 3 == 0 { (n / 3) as int } else { n / 3 + 1 }),
            n >= 0,
    ;
    let limit: usize = usize::MAX / 4;
    assert(groups <= limit <==> 4 * groups <= usize::MAX) by (nonlinear_arith)
        requires
            limit == usize::MAX / 4,
    ;
    groups <= limit
}

/// The frame that an envelope's text encodes.
pub open spec fn frame(salt: Seq<u8>, nonce: Seq<u8>, tag: Seq<u8>, ciphertext: Seq<u8>) -> Seq<u8> {
    salt + nonce + tag + ciphertext
}

/// The salt field of a frame.
pub open spec fn salt_of(frame: Seq<u8>) -> Seq<u8> {
    frame.subrange(0, SALT_LEN as int)
}

/// The nonce field of a frame.
pub open spec fn nonce_of(frame: Seq<u8>) -> Seq<u8> {
    frame.subrange(SALT_LEN as int, (SALT_LEN + NONCE_LEN) as int)
}

/// The tag field of a frame.
pub open spec fn tag_of(frame: Seq<u8>) -> Seq<u8> {
    frame.subrange((SALT_LEN + NONCE_LEN) as int, HEADER_LEN as int)
}

/// The ciphertext of a frame: everything after the header.
pub open spec fn ciphertext_of(frame: Seq<u8>) -> Seq<u8> {
    frame.subrange(HEADER_LEN as int, frame.len() as int)
}

/// The frame held by an envelope text: its base64 bytes, where they decode
/// and cover at least the header.
pub open spec fn decoded_frame(text: Seq<char>) -> Option<Seq<u8>> {
    match base64_bytes(text) {
        Some(b) => if b.len() >= HEADER_LEN { Some(b) } else { None },
        None => None,
    }
}

/// The parts of one sealed message.
#[derive(Debug, PartialEq, Eq)]
pub struct Envelope {
    pub salt: Vec<u8>,
    pub nonce: Vec<u8>,
    pub tag: Vec<u8>,
    pub ciphertext: Vec<u8>,
}

impl Envelope {
    /// The fixed-width fields have their widths.
    pub open spec fn wf(&self) -> bool {
        &&& self.salt@.len() == SALT_LEN
        &&& self.nonce@.len() == NONCE_LEN
        &&& self.tag@.len() == TAG_LEN
    }

    /// The bytes this envelope stands for.
    pub open spec fn framed(&self) -> Seq<u8> {
        frame(self.salt@, self.nonce@, self.tag@, self.ciphertext@)
    }

    /// The frame as bytes.
    pub fn to_bytes(&self) -> (r: Vec<u8>)
        ensures
            r@ == self.framed(),
    {
        let mut out = copy_bytes(self.salt.as_slice());
        append_bytes(&mut out, self.nonce.as_slice());
        append_bytes(&mut out, self.tag.as_slice());
        append_bytes(&mut out, self.ciphertext.as_slice());
        out
    }

    /// The envelope as text. Decoding that text gives this frame back, so
    /// decoding and encoding again reproduces the text.
    pub fn encode(&self) -> (r: String)
        requires
            self.wf(),
            encodable_len(self.framed().len() as int),
        ensures
            r@ == base64_text(self.framed()),
            decoded_frame(r@) == Some(self.framed()),
    {
        let bytes = self.to_bytes();
        base64_encode(bytes.as_slice())
    }

    /// Splits an envelope text into its fields. Fails with `MalformedEnvelope`
    /// exactly where the text is not base64 or decodes to fewer bytes than the
    /// header.
    pub fn decode(text: &str) -> (r: Result<Envelope, CryptoError>)
        ensures
            decoded_frame(text@) is None ==> r == Err::<Envelope, CryptoError>(CryptoError::MalformedEnvelope),
            decoded_frame(text@) matches Some(b) ==> r matches Ok(e) && e.wf() && e.framed() == b
                && e.salt@ == salt_of(b) && e.nonce@ == nonce_of(b) && e.tag@ == tag_of(b)
                && e.ciphertext@ == ciphertext_of(b),
    {
        match base64_decode(text) {
            Err(_) => Err(CryptoError::MalformedEnvelope),
            Ok(bytes) => {
                if bytes.len() < HEADER_LEN {
                    return Err(CryptoError::MalformedEnvelope);
                }
                let ghost b = bytes@;
                let mut salt = bytes;
                let ciphertext = salt.split_off(HEADER_LEN);
                let tag = salt.split_off(SALT_LEN + NONCE_LEN);
                let nonce = salt.split_off(SALT_LEN);
                let e = Envelope { salt, nonce, tag, ciphertext };
                assert(e.framed() =~= b);
                assert(e.salt@ =~= salt_of(b));
                assert(e.nonce@ =~= nonce_of(b));
                assert(e.tag@ =~= tag_of(b));
                assert(e.ciphertext@ =~= ciphertext_of(b));
                Ok(e)
            },
        }
    }
}

} // verus!
