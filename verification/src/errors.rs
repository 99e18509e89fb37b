//! The two error families: validation failures and authorization
//! refusals.

use vstd::prelude::*;
use vstd::string::StringExecFns;

use crate::ids::EntityId;

verus! {

/// The width every non-empty authentication token must reach.
pub const AUTH_DATA_LEN: usize = 80;

/// A typed failure of one token's verification.
///
/// None of these may be silently swallowed: each aborts authentication of
/// its token, and the whole request is then treated as unauthenticated.
/// `MalformedActorId` and `MalformedSignature` belong to the wire protocol's
/// error vocabulary; the fixed-width split performed here cannot produce
/// them. `RequestEncodingFailed` is raised by the caller that produces the
/// canonical request bytes when that encoding fails.
#[derive(Debug, PartialEq, Eq)]
pub enum ValidationError {
    /// A non-empty token shorter than the fixed 80-byte width.
    AuthDataTooShort { got: usize, expected: usize },
    /// The actor-id half of a token could not be read.
    MalformedActorId,
    /// The signature half of a token could not be read.
    MalformedSignature,
    /// The embedded actor id has no directory record.
    ActorNotFound(EntityId),
    /// The stored public key is not valid base64 text.
    InvalidPublicKeyEncoding,
    /// The stored public key does not decode to exactly 32 bytes.
    InvalidPublicKeyLength,
    /// The decoded bytes are not a valid Ed25519 verifying key.
    InvalidPublicKey,
    /// The request could not be canonically encoded.
    RequestEncodingFailed,
    /// The signature does not verify over the request bytes.
    SignatureInvalid,
}

/// An authorization refusal, distinct from a validation failure.
#[derive(Debug, PartialEq, Eq)]
pub enum AccessDenied {
    /// An anonymous context tried to write outside the identity collection.
    AnonymousCreateOnly,
    /// A message's owner reference could not be resolved to an actor id.
    InvalidActorReference,
    /// A message's resolved owner differs from the authenticated actor.
    OwnershipMismatch,
}

impl AccessDenied {
    /// The human-readable policy reason carried by this refusal.
    pub fn reason(&self) -> (r: String)
        ensures
            self is AnonymousCreateOnly ==> r@ == "anonymous may only create identity records"@,
            self is InvalidActorReference ==> r@ == "invalid actor reference"@,
            self is OwnershipMismatch ==> r@ == "ownership mismatch"@,
    {
        match self {
            AccessDenied::AnonymousCreateOnly => {
                String::from_str("anonymous may only create identity records")
            },
            AccessDenied::InvalidActorReference => String::from_str("invalid actor reference"),
            AccessDenied::OwnershipMismatch => String::from_str("ownership mismatch"),
        }
    }
}

} // verus!
