//! The laws the library states of itself, proved once and for all
//! inputs.

use vstd::prelude::*;

use crate::context::ContextView;
use crate::crypto::{base64_decoding, ed25519_verifies, is_valid_public_key};
use crate::errors::AccessDenied;
use crate::models::EntityRecordView;
use crate::policy::{event_decision, is_message_collection, is_user_collection, resolved_owner};
use crate::tokens::{token_check_spec, RejectReason};

verus! {

/// Length boundaries of the wire token: the empty token yields the
/// anonymous context; a non-empty token shorter than 80 bytes is rejected
/// as too short; an 80-byte-or-longer token whose record resolves to a
/// valid key that verifies the embedded signature yields the embedded
/// actor; bytes past the first 80 are ignored.
pub proof fn lemma_token_length_boundaries(
    token: Seq<u8>,
    record: Option<Seq<char>>,
    msg: Seq<u8>,
)
    ensures
        token.len() == 0 ==> token_check_spec(token, record, msg) == Ok::<
            ContextView,
            RejectReason,
        >(ContextView::Anonymous),
        0 < token.len() < 80 ==> token_check_spec(token, record, msg) == Err::<
            ContextView,
            RejectReason,
        >(RejectReason::TooShort { got: token.len() }),
        token.len() >= 80 && (record matches Some(rec) && base64_decoding(rec) matches Some(pk)
            && pk.len() == 32 && is_valid_public_key(pk) && ed25519_verifies(
            pk,
            msg,
            token.subrange(16, 80),
        )) ==> token_check_spec(token, record, msg) == Ok::<ContextView, RejectReason>(
            ContextView::Authenticated { actor: token.subrange(0, 16) },
        ),
        token.len() > 80 ==> token_check_spec(token, record, msg) == token_check_spec(
            token.subrange(0, 80),
            record,
            msg,
        ),
{
    if token.len() > 80 {
        let front = token.subrange(0, 80);
        assert(front.subrange(0, 16) =~= token.subrange(0, 16));
        assert(front.subrange(16, 80) =~= token.subrange(16, 80));
    }
}

/// An 80-byte-or-longer token whose embedded actor id has no directory
/// record is rejected as an unknown actor: never an anonymous or
/// authenticated fallback.
pub proof fn lemma_unknown_actor(token: Seq<u8>, msg: Seq<u8>)
    ensures
        token.len() >= 80 ==> token_check_spec(token, None, msg) == Err::<
            ContextView,
            RejectReason,
        >(RejectReason::UnknownActor { actor: token.subrange(0, 16) }),
        token.len() >= 80 ==> !(token_check_spec(token, None, msg) is Ok),
{
}

/// Tamper detection, up to the cryptographic assumption: once the stored
/// key decodes to a valid verifying key, verification reports an invalid
/// signature exactly when Ed25519 verification fails over the presented
/// request bytes. That flipping any single bit of the signed bytes
/// falsifies Ed25519 verification is the signature scheme's guarantee,
/// exercised by test.
pub proof fn lemma_tampered_request_rejected(token: Seq<u8>, rec: Seq<char>, msg: Seq<u8>)
    ensures
        token.len() >= 80 && (base64_decoding(rec) matches Some(pk) && pk.len() == 32
            && is_valid_public_key(pk) && !ed25519_verifies(pk, msg, token.subrange(16, 80)))
            ==> token_check_spec(token, Some(rec), msg) == Err::<ContextView, RejectReason>(
            RejectReason::BadSignature,
        ),
        token_check_spec(token, Some(rec), msg) == Err::<ContextView, RejectReason>(
            RejectReason::BadSignature,
        ) ==> (base64_decoding(rec) matches Some(pk) && !ed25519_verifies(
            pk,
            msg,
            token.subrange(16, 80),
        )),
{
}

/// A verifier never yields the privileged context from inbound data,
/// whatever the token, record and request bytes.
pub proof fn lemma_verifier_never_yields_system(
    token: Seq<u8>,
    record: Option<Seq<char>>,
    msg: Seq<u8>,
)
    ensures
        token_check_spec(token, record, msg) matches Ok(ctx) ==> !(ctx is System),
{
}

/// Anonymous scope: an anonymous context may write the User-like
/// collection and nothing else; any other write is denied with the
/// anonymous-creation policy reason.
pub proof fn lemma_anonymous_scope(entity: EntityRecordView)
    ensures
        is_user_collection(entity.collection) ==> event_decision(ContextView::Anonymous, entity)
            is None,
        !is_user_collection(entity.collection) ==> event_decision(ContextView::Anonymous, entity)
            == Some(AccessDenied::AnonymousCreateOnly),
{
}

/// Ownership enforcement: an authenticated actor writing a Message-like
/// entity whose owner reference resolves to another actor is denied with
/// an ownership mismatch; one resolving to the actor itself is allowed.
pub proof fn lemma_ownership_enforcement(actor: Seq<u8>, entity: EntityRecordView)
    ensures
        is_message_collection(entity.collection) && (entity.user matches Some(reference)
            && resolved_owner(reference) matches Some(owner) && owner != actor) ==> event_decision(
            ContextView::Authenticated { actor },
            entity,
        ) == Some(AccessDenied::OwnershipMismatch),
        is_message_collection(entity.collection) && (entity.user matches Some(reference)
            && resolved_owner(reference) == Some(actor)) ==> event_decision(
            ContextView::Authenticated { actor },
            entity,
        ) is None,
{
}

/// System bypass: the privileged context is allowed at the mutation
/// checkpoint unconditionally; no ownership check applies.
pub proof fn lemma_system_bypass(entity: EntityRecordView)
    ensures
        event_decision(ContextView::System, entity) is None,
{
}

} // verus!
