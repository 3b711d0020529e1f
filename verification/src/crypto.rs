//! Ed25519 signatures and base64 text, as the outside crates compute them.

use base64::engine::general_purpose::STANDARD;
use base64::Engine;
use ed25519_dalek::{Keypair, PublicKey, SecretKey, Signer};
use vstd::prelude::*;

verus! {

/// The length of an Ed25519 secret key, in bytes.
pub const SECRET_KEY_LENGTH: usize = 32;

/// The length of an Ed25519 signature, in bytes.
pub const SIGNATURE_LENGTH: usize = 64;

/// `base64::DecodeError`, carried through unread.
#[verifier::external_type_specification]
#[verifier::external_body]
pub struct ExDecodeError(base64::DecodeError);

/// The Ed25519 signature of `message` under the key pair of `secret`.
pub uninterp spec fn ed25519_signature(secret: Seq<u8>, message: Seq<u8>) -> Seq<u8>;

/// The Ed25519 public key that belongs to `secret`.
pub uninterp spec fn ed25519_public_key(secret: Seq<u8>) -> Seq<u8>;

/// `bytes` in standard base64 with padding.
pub uninterp spec fn base64_text(bytes: Seq<u8>) -> Seq<char>;

/// The bytes that standard base64 `text` stands for, if it is well formed.
pub uninterp spec fn base64_bytes(text: Seq<char>) -> Option<Seq<u8>>;

/// `Signer::sign` of an `ed25519_dalek::Keypair` built from `secret` by
/// `SecretKey::from_bytes` and `PublicKey::from`. Signing is deterministic
/// and gives 64 bytes; a secret of 32 bytes is always accepted.
#[verifier::external_body]
pub(crate) fn sign_bytes(secret: &Vec<u8>, message: &Vec<u8>) -> (signature: Vec<u8>)
    requires
        secret@.len() == SECRET_KEY_LENGTH,
    ensures
        signature@ == ed25519_signature(secret@, message@),
        signature@.len() == SIGNATURE_LENGTH,
{
    let secret = SecretKey::from_bytes(secret).unwrap();
    let public = PublicKey::from(&secret);
    Keypair { secret, public }.sign(message).to_bytes().to_vec()
}

/// `PublicKey::from` on the `SecretKey` of `secret`, as 32 bytes.
#[verifier::external_body]
pub(crate) fn public_key_of(secret: &Vec<u8>) -> (public: Vec<u8>)
    requires
        secret@.len() == SECRET_KEY_LENGTH,
    ensures
        public@ == ed25519_public_key(secret@),
        public@.len() == 32,
{
    PublicKey::from(&SecretKey::from_bytes(secret).unwrap()).to_bytes().to_vec()
}

/// `Engine::encode` of base64's `STANDARD` engine. The length bound keeps
/// the size of the text within `usize`. With padding the text has four
/// characters for every three bytes begun.
#[verifier::external_body]
pub(crate) fn encode_base64(bytes: &Vec<u8>) -> (text: String)
    requires
        bytes@.len() / 3 * 4 + 4 <= usize::MAX,
    ensures
        text@ == base64_text(bytes@),
        text@.len() == (bytes@.len() + 2) / 3 * 4,
{
    STANDARD.encode(bytes)
}

/// `Engine::decode` of base64's `STANDARD` engine.
#[verifier::external_body]
pub(crate) fn decode_base64(text: &str) -> (r: Result<Vec<u8>, base64::DecodeError>)
    ensures
        match r {
            Ok(bytes) => base64_bytes(text@) == Some(bytes@),
            Err(_) => base64_bytes(text@) is None,
        },
{
    STANDARD.decode(text)
}

/// The text that `Display` of `base64::DecodeError` gives for `error`.
/// Nothing is claimed of it.
#[verifier::external_body]
pub(crate) fn decode_error_text(error: &base64::DecodeError) -> String {
    error.to_string()
}

} // verus!
