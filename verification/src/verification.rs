//! The verifier role: recovering security contexts from inbound
//! tokens.

use vstd::prelude::*;

use crate::agent::UserKeyPairAgent;
use crate::context::MyContextData;
use crate::crypto::{base64_decode, ed25519_key_parses, ed25519_verify};
use crate::directory::ActorDirectory;
use crate::errors::{ValidationError, AUTH_DATA_LEN};
use crate::ids::EntityId;
use crate::tokens::{token_check_spec, verdict_matches, AuthData, RejectReason};

verus! {

/// The view of an optional directory record handed to `check_token`.
pub open spec fn record_view(record: Option<&String>) -> Option<Seq<char>> {
    match record {
        Some(s) => Some(s@),
        None => None,
    }
}

/// The directory record a token's embedded actor id selects: consulted
/// only once a token reaches the fixed 80-byte width.
pub open spec fn token_record_in(directory: ActorDirectory, token: Seq<u8>) -> Option<Seq<char>> {
    if token.len() >= 80 {
        directory.spec_record(token.subrange(0, 16))
    } else {
        None
    }
}

/// What verifying one token against the directory's current content must
/// yield.
pub open spec fn token_verdict_in(
    directory: ActorDirectory,
    token: Seq<u8>,
    msg: Seq<u8>,
) -> Result<crate::context::ContextView, RejectReason> {
    token_check_spec(token, token_record_in(directory, token), msg)
}

impl UserKeyPairAgent {
    /// Verify one authentication token, given the directory's current
    /// public-key record for its embedded actor id (if any) and the
    /// canonical request bytes.
    ///
    /// An empty token yields the anonymous context; a well-formed signed
    /// token yields the authenticated actor; every failure is reported as
    /// a typed validation error, never silently dropped. The result is
    /// never the privileged context.
    ///
    /// `record` is the directory's answer for the embedded actor id:
    /// `None` means the directory has no record. A lookup that failed or
    /// timed out is the caller's own verification failure and must not be
    /// passed here as an absent record.
    pub fn check_token(
        &self,
        token: &AuthData,
        record: Option<&String>,
        request_bytes: &Vec<u8>,
    ) -> (r: Result<MyContextData, ValidationError>)
        requires
            self.is_server(),
        ensures
            verdict_matches(r, token_check_spec(token@, record_view(record), request_bytes@)),
            r matches Ok(c) ==> !(c@ is System),
    {
        let bytes = &token.0;
        if bytes.len() == 0 {
            return Ok(MyContextData::Anonymous);
        }
        if bytes.len() < AUTH_DATA_LEN {
            return Err(ValidationError::AuthDataTooShort { got: bytes.len(), expected: AUTH_DATA_LEN });
        }
        let mut id_bytes: Vec<u8> = Vec::new();
        let mut i: usize = 0;
        while i < 16
            invariant
                i <= 16,
                bytes@.len() >= 80,
                id_bytes@ == bytes@.subrange(0, i as int),
            decreases 16 - i,
        {
            proof {
                assert(bytes@.subrange(0, i as int).push(bytes@[i as int]) =~= bytes@.subrange(
                    0,
                    i + 1 as int,
                ));
            }
            id_bytes.push(bytes[i]);
            i = i + 1;
        }
        let actor_id = EntityId::from_bytes(id_bytes);
        let mut sig: Vec<u8> = Vec::new();
        let mut j: usize = 16;
        while j < 80
            invariant
                16 <= j <= 80,
                bytes@.len() >= 80,
                sig@ == bytes@.subrange(16, j as int),
            decreases 80 - j,
        {
            proof {
                assert(bytes@.subrange(16, j as int).push(bytes@[j as int]) =~= bytes@.subrange(
                    16,
                    j + 1 as int,
                ));
            }
            sig.push(bytes[j]);
            j = j + 1;
        }
        let rec = match record {
            None => {
                return Err(ValidationError::ActorNotFound(actor_id));
            },
            Some(s) => s,
        };
        let pk = match base64_decode(rec.as_str()) {
            None => {
                return Err(ValidationError::InvalidPublicKeyEncoding);
            },
            Some(v) => v,
        };
        if pk.len() != 32 {
            return Err(ValidationError::InvalidPublicKeyLength);
        }
        if !ed25519_key_parses(&pk) {
            return Err(ValidationError::InvalidPublicKey);
        }
        if !ed25519_verify(&pk, request_bytes, &sig) {
            return Err(ValidationError::SignatureInvalid);
        }
        Ok(MyContextData::User(actor_id))
    }

    /// Recover the security context behind each token of an inbound
    /// request, in token order, against the directory's current content
    /// and the canonical request bytes.
    ///
    /// Success is owed exactly when every token passes; the first failing
    /// token's error is reported and no failure is skipped. The result
    /// never contains the privileged context. The privileged context must
    /// be initialized before any request carrying a signed token is
    /// checked.
    pub fn check_request(
        &self,
        auth: &Vec<AuthData>,
        request_bytes: &Vec<u8>,
        directory: &ActorDirectory,
    ) -> (r: Result<Vec<MyContextData>, ValidationError>)
        requires
            self.is_server(),
            (exists|i: int| 0 <= i < auth@.len() && auth@[i]@.len() >= 80)
                ==> self.root_initialized(),
        ensures
            r matches Ok(ctxs) ==> ctxs@.len() == auth@.len(),
            r matches Ok(ctxs) ==> forall|i: int|
                0 <= i < auth@.len() ==> #[trigger] verdict_matches(
                    Ok(ctxs@[i]),
                    token_verdict_in(*directory, auth@[i]@, request_bytes@),
                ),
            r matches Ok(ctxs) ==> forall|i: int|
                0 <= i < auth@.len() ==> !(#[trigger] ctxs@[i]@ is System),
            (r is Ok) == (forall|i: int|
                0 <= i < auth@.len() ==> !(#[trigger] token_verdict_in(
                    *directory,
                    auth@[i]@,
                    request_bytes@,
                ) is Err)),
            r matches Err(e) ==> exists|i: int|
                0 <= i < auth@.len() && (#[trigger] token_verdict_in(
                    *directory,
                    auth@[i]@,
                    request_bytes@,
                ) matches Err(reason) && crate::tokens::error_matches(e, reason)) && (forall|
                    j: int,
                |
                    0 <= j < i ==> !(#[trigger] token_verdict_in(
                        *directory,
                        auth@[j]@,
                        request_bytes@,
                    ) is Err)),
    {
        let mut contexts: Vec<MyContextData> = Vec::new();
        let mut idx: usize = 0;
        while idx < auth.len()
            invariant
                self.is_server(),
                (exists|i: int| 0 <= i < auth@.len() && auth@[i]@.len() >= 80)
                    ==> self.root_initialized(),
                idx <= auth@.len(),
                contexts@.len() == idx,
                forall|i: int|
                    0 <= i < idx ==> #[trigger] verdict_matches(
                        Ok(contexts@[i]),
                        token_verdict_in(*directory, auth@[i]@, request_bytes@),
                    ),
                forall|i: int|
                    0 <= i < idx ==> !(#[trigger] token_verdict_in(
                        *directory,
                        auth@[i]@,
                        request_bytes@,
                    ) is Err),
                forall|i: int| 0 <= i < idx ==> !(#[trigger] contexts@[i]@ is System),
            decreases auth@.len() - idx,
        {
            let token = &auth[idx];
            let record: Option<String> = if token.0.len() >= AUTH_DATA_LEN {
                let mut id_bytes: Vec<u8> = Vec::new();
                let mut i: usize = 0;
                while i < 16
                    invariant
                        i <= 16,
                        token.0@.len() >= 80,
                        id_bytes@ == token.0@.subrange(0, i as int),
                    decreases 16 - i,
                {
                    proof {
                        assert(token.0@.subrange(0, i as int).push(token.0@[i as int])
                            =~= token.0@.subrange(0, i + 1 as int));
                    }
                    id_bytes.push(token.0[i]);
                    i = i + 1;
                }
                let actor_id = EntityId::from_bytes(id_bytes);
                let root = self.get_root_context();
                directory.lookup(root, &actor_id)
            } else {
                None
            };
            let record_ref = record.as_ref();
            proof {
                assert(record_view(record_ref) == token_record_in(*directory, token@));
            }
            let outcome = self.check_token(token, record_ref, request_bytes);
            match outcome {
                Ok(ctx) => {
                    contexts.push(ctx);
                },
                Err(e) => {
                    proof {
                        let k = idx as int;
                        assert(token_verdict_in(*directory, auth@[k]@, request_bytes@) matches Err(
                            reason,
                        ) && crate::tokens::error_matches(e, reason));
                    }
                    return Err(e);
                },
            }
            idx = idx + 1;
        }
        Ok(contexts)
    }
}

} // verus!
