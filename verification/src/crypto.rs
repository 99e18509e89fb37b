//! The cryptographic boundary: named results and trusted wrappers over
//! the Ed25519 and base64 collaborators.

use vstd::prelude::*;

verus! {

/// The Ed25519 signature that signing `msg` with the 32-byte secret key
/// `sk` produces. Ed25519 signing is deterministic, so the signature is a
/// function of the key and message bytes alone.
pub uninterp spec fn signature_of(sk: Seq<u8>, msg: Seq<u8>) -> Seq<u8>;

/// The 32-byte Ed25519 verifying key derived from the 32-byte secret key
/// `sk`.
pub uninterp spec fn public_key_of(sk: Seq<u8>) -> Seq<u8>;

/// Whether Ed25519 verification of `sig` over `msg` succeeds under the
/// verifying key encoded by `pk`.
pub uninterp spec fn ed25519_verifies(pk: Seq<u8>, msg: Seq<u8>, sig: Seq<u8>) -> bool;

/// Whether 32 bytes are a valid Ed25519 verifying-key encoding, that is,
/// whether they decompress to a curve point.
pub uninterp spec fn is_valid_public_key(pk: Seq<u8>) -> bool;

/// What standard base64 decoding yields on `text`: the decoded bytes, or
/// nothing when the text is not valid base64.
pub uninterp spec fn base64_decoding(text: Seq<char>) -> Option<Seq<u8>>;

/// Relies on `ed25519_dalek::SigningKey::from_bytes` and the
/// `Signer::sign` impl for `SigningKey`: signing is deterministic
/// (RFC 8032), always yields 64 bytes, and the signature verifies under the
/// signing key's own verifying key, which is 32 bytes and a valid key
/// encoding.
#[verifier::external_body]
pub(crate) fn ed25519_sign(sk: &Vec<u8>, msg: &Vec<u8>) -> (sig: Vec<u8>)
    requires
        sk@.len() == 32,
    ensures
        sig@ == signature_of(sk@, msg@),
        sig@.len() == 64,
        ed25519_verifies(public_key_of(sk@), msg@, sig@),
{
    let key = ed25519_dalek::SigningKey::from_bytes(sk.as_slice().try_into().unwrap());
    ed25519_dalek::Signer::sign(&key, msg.as_slice()).to_vec()
}

/// Relies on `ed25519_dalek::SigningKey::verifying_key`: the verifying key
/// is derived from the secret key bytes alone; its 32-byte encoding
/// compresses an actual curve point, so it parses back as a valid key.
#[verifier::external_body]
pub(crate) fn ed25519_public_key(sk: &Vec<u8>) -> (pk: Vec<u8>)
    requires
        sk@.len() == 32,
    ensures
        pk@ == public_key_of(sk@),
        pk@.len() == 32,
        is_valid_public_key(pk@),
{
    let key = ed25519_dalek::SigningKey::from_bytes(sk.as_slice().try_into().unwrap());
    key.verifying_key().to_bytes().to_vec()
}

/// Relies on `ed25519_dalek::VerifyingKey::from_bytes`: it succeeds exactly
/// when the 32 bytes decompress to a curve point.
#[verifier::external_body]
pub(crate) fn ed25519_key_parses(pk: &Vec<u8>) -> (r: bool)
    requires
        pk@.len() == 32,
    ensures
        r == is_valid_public_key(pk@),
{
    ed25519_dalek::VerifyingKey::from_bytes(pk.as_slice().try_into().unwrap()).is_ok()
}

/// Relies on the `Verifier::verify` impl for
/// `ed25519_dalek::VerifyingKey`: verification is a deterministic function
/// of the key, message and signature bytes.
#[verifier::external_body]
pub(crate) fn ed25519_verify(pk: &Vec<u8>, msg: &Vec<u8>, sig: &Vec<u8>) -> (r: bool)
    requires
        pk@.len() == 32,
        sig@.len() == 64,
        is_valid_public_key(pk@),
    ensures
        r == ed25519_verifies(pk@, msg@, sig@),
{
    let key = ed25519_dalek::VerifyingKey::from_bytes(pk.as_slice().try_into().unwrap()).unwrap();
    let signature = ed25519_dalek::Signature::from_bytes(sig.as_slice().try_into().unwrap());
    ed25519_dalek::Verifier::verify(&key, msg.as_slice(), &signature).is_ok()
}

/// Relies on `base64::Engine::decode` with the standard alphabet: a pure
/// function of the input text that fails exactly on malformed base64.
#[verifier::external_body]
pub(crate) fn base64_decode(text: &str) -> (r: Option<Vec<u8>>)
    ensures
        match r {
            Some(v) => base64_decoding(text@) == Some(v@),
            None => base64_decoding(text@) is None,
        },
{
    base64::Engine::decode(&base64::engine::general_purpose::STANDARD, text).ok()
}

} // verus!
