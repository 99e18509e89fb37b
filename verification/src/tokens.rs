//! The wire token format and the specification of what verifying one
//! token must yield.

use vstd::prelude::*;

use crate::context::{ContextView, MyContextData};
use crate::crypto::{base64_decoding, ed25519_verifies, is_valid_public_key, signature_of};
use crate::errors::ValidationError;

verus! {

/// One authentication token as it travels on the wire: either empty
/// (anonymous) or 16 bytes of actor id followed by a 64-byte signature.
#[derive(Debug, PartialEq, Eq)]
pub struct AuthData(pub Vec<u8>);

impl View for AuthData {
    type V = Seq<u8>;

    open spec fn view(&self) -> Seq<u8> {
        self.0@
    }
}

/// Why one token was rejected.
pub enum RejectReason {
    TooShort { got: nat },
    UnknownActor { actor: Seq<u8> },
    BadKeyEncoding,
    BadKeyLength,
    BadKey,
    BadSignature,
}

/// The token a client emits for one security context: empty for an
/// anonymous context, actor id plus signature for an authenticated one.
/// A privileged context is never signed.
pub open spec fn token_for_context(ctx: ContextView, sk: Seq<u8>, msg: Seq<u8>) -> Seq<u8> {
    match ctx {
        ContextView::Authenticated { actor } => actor + signature_of(sk, msg),
        ContextView::System => Seq::<u8>::empty(),
        ContextView::Anonymous => Seq::<u8>::empty(),
    }
}

/// What verifying one token must yield, given the directory's current
/// record for the embedded actor id (if any) and the canonical request
/// bytes.
///
/// An empty token yields the anonymous context. A non-empty token shorter
/// than 80 bytes is rejected. From 80 bytes on, the first 16 bytes name the
/// actor and the next 64 hold the signature; any trailing bytes are
/// ignored. The result is never the privileged context.
pub open spec fn token_check_spec(token: Seq<u8>, record: Option<Seq<char>>, msg: Seq<u8>) -> Result<
    ContextView,
    RejectReason,
> {
    if token.len() == 0 {
        Ok(ContextView::Anonymous)
    } else if token.len() < 80 {
        Err(RejectReason::TooShort { got: token.len() })
    } else {
        let actor = token.subrange(0, 16);
        let sig = token.subrange(16, 80);
        match record {
            None => Err(RejectReason::UnknownActor { actor }),
            Some(rec) => match base64_decoding(rec) {
                None => Err(RejectReason::BadKeyEncoding),
                Some(pk) => if pk.len() != 32 {
                    Err(RejectReason::BadKeyLength)
                } else if !is_valid_public_key(pk) {
                    Err(RejectReason::BadKey)
                } else if !ed25519_verifies(pk, msg, sig) {
                    Err(RejectReason::BadSignature)
                } else {
                    Ok(ContextView::Authenticated { actor })
                },
            },
        }
    }
}

/// Whether a concrete validation error reports the given rejection.
pub open spec fn error_matches(e: ValidationError, reason: RejectReason) -> bool {
    match reason {
        RejectReason::TooShort { got } => e matches ValidationError::AuthDataTooShort {
            got: g,
            expected,
        } && g == got && expected == 80,
        RejectReason::UnknownActor { actor } => e matches ValidationError::ActorNotFound(id)
            && id@ == actor,
        RejectReason::BadKeyEncoding => e == ValidationError::InvalidPublicKeyEncoding,
        RejectReason::BadKeyLength => e == ValidationError::InvalidPublicKeyLength,
        RejectReason::BadKey => e == ValidationError::InvalidPublicKey,
        RejectReason::BadSignature => e == ValidationError::SignatureInvalid,
    }
}

/// Whether a concrete verification outcome conforms to the specified one.
pub open spec fn verdict_matches(
    r: Result<MyContextData, ValidationError>,
    v: Result<ContextView, RejectReason>,
) -> bool {
    match v {
        Ok(ctx) => r matches Ok(c) && c@ == ctx,
        Err(reason) => r matches Err(e) && error_matches(e, reason),
    }
}

} // verus!
