//! The authorization decider: the rule set applied at every policy
//! checkpoint.

use vstd::prelude::*;

use crate::agent::UserKeyPairAgent;
use crate::context::{ContextView, MyContextData};
use crate::crypto::{base64_decode, base64_decoding};
use crate::errors::AccessDenied;
use crate::ids::EntityId;
use crate::models::{
    Attestation, CausalAssertion, EntityRecord, EntityRecordView, EntityState, Event, Predicate,
};
use crate::text::{ascii_caseless_eq, str_caseless_eq};

verus! {

/// Whether a collection tag names the User-like collection, up to ASCII
/// case.
pub open spec fn is_user_collection(tag: Seq<char>) -> bool {
    ascii_caseless_eq(tag, "user"@)
}

/// Whether a collection tag names the Message-like collection, up to
/// ASCII case.
pub open spec fn is_message_collection(tag: Seq<char>) -> bool {
    ascii_caseless_eq(tag, "message"@)
}

/// The actor id a textual owner reference resolves to: its base64
/// decoding, provided that decoding yields exactly 16 bytes.
pub open spec fn resolved_owner(reference: Seq<char>) -> Option<Seq<u8>> {
    match base64_decoding(reference) {
        Some(bytes) => if bytes.len() == 16 {
            Some(bytes)
        } else {
            None
        },
        None => None,
    }
}

/// The authorization rule applied at the entity-mutation and
/// event-acceptance checkpoints, in precedence order.
///
/// The privileged context is allowed unconditionally. An anonymous
/// context may only write the User-like collection. An authenticated
/// context writing the Message-like collection must own it: a present
/// `user` field must resolve to the authenticated actor's id; writes to
/// every other collection are allowed (the open-policy default, kept
/// deliberately as an extension seam).
pub open spec fn event_decision(ctx: ContextView, entity: EntityRecordView) -> Option<
    AccessDenied,
> {
    match ctx {
        ContextView::System => None,
        ContextView::Anonymous => if is_user_collection(entity.collection) {
            None
        } else {
            Some(AccessDenied::AnonymousCreateOnly)
        },
        ContextView::Authenticated { actor } => if is_message_collection(entity.collection) {
            match entity.user {
                None => None,
                Some(reference) => match resolved_owner(reference) {
                    None => Some(AccessDenied::InvalidActorReference),
                    Some(owner) => if owner != actor {
                        Some(AccessDenied::OwnershipMismatch)
                    } else {
                        None
                    },
                },
            }
        } else {
            None
        },
    }
}

impl UserKeyPairAgent {
    /// Decide one entity mutation or event acceptance: the rule of
    /// `event_decision` applied to the entity state after the proposed
    /// change. Allowing never attaches an attestation in this design.
    pub fn check_event(
        &self,
        cdata: &MyContextData,
        _entity_before: &EntityRecord,
        entity_after: &EntityRecord,
        _event: &Event,
    ) -> (r: Result<Option<Attestation>, AccessDenied>)
        ensures
            match event_decision(cdata@, entity_after@) {
                None => r matches Ok(a) && a is None,
                Some(denial) => r matches Err(e) && e == denial,
            },
    {
        match cdata {
            MyContextData::Root => Ok(None),
            MyContextData::Anonymous => {
                if str_caseless_eq(entity_after.collection.as_str(), "user") {
                    Ok(None)
                } else {
                    Err(AccessDenied::AnonymousCreateOnly)
                }
            },
            MyContextData::User(authenticated_user) => {
                if str_caseless_eq(entity_after.collection.as_str(), "message") {
                    match &entity_after.user {
                        None => Ok(None),
                        Some(reference) => {
                            match base64_decode(reference.as_str()) {
                                None => Err(AccessDenied::InvalidActorReference),
                                Some(owner_bytes) => {
                                    if owner_bytes.len() != 16 {
                                        Err(AccessDenied::InvalidActorReference)
                                    } else {
                                        let owner = EntityId::from_bytes(owner_bytes);
                                        if owner.same_id(authenticated_user) {
                                            Ok(None)
                                        } else {
                                            Err(AccessDenied::OwnershipMismatch)
                                        }
                                    }
                                },
                            }
                        },
                    }
                } else {
                    Ok(None)
                }
            },
        }
    }

    /// Event ingestion from a peer: pass-through (extension seam).
    pub fn validate_received_event(
        &self,
        _received_from_node: &EntityId,
        _event: &Event,
    ) -> (r: Result<(), AccessDenied>)
        ensures
            r is Ok,
    {
        Ok(())
    }

    /// State attestation: this design never attests.
    pub fn attest_state(&self, _state: &EntityState) -> (r: Option<Attestation>)
        ensures
            r is None,
    {
        None
    }

    /// State ingestion from a peer: pass-through (extension seam).
    pub fn validate_received_state(
        &self,
        _received_from_node: &EntityId,
        _state: &EntityState,
    ) -> (r: Result<(), AccessDenied>)
        ensures
            r is Ok,
    {
        Ok(())
    }

    /// Collection access: pass-through (extension seam).
    pub fn can_access_collection(
        &self,
        _data: &Vec<MyContextData>,
        _collection: &String,
    ) -> (r: Result<(), AccessDenied>)
        ensures
            r is Ok,
    {
        Ok(())
    }

    /// Entity read: pass-through (extension seam).
    pub fn check_read(
        &self,
        _data: &Vec<MyContextData>,
        _id: &EntityId,
        _collection: &String,
        _state: &EntityState,
    ) -> (r: Result<(), AccessDenied>)
        ensures
            r is Ok,
    {
        Ok(())
    }

    /// Event read: pass-through (extension seam).
    pub fn check_read_event(
        &self,
        _data: &Vec<MyContextData>,
        _event: &Event,
    ) -> (r: Result<(), AccessDenied>)
        ensures
            r is Ok,
    {
        Ok(())
    }

    /// Entity write outside event acceptance: pass-through (extension
    /// seam).
    pub fn check_write(
        &self,
        _data: &MyContextData,
        _entity: &EntityRecord,
        _event: Option<&Event>,
    ) -> (r: Result<(), AccessDenied>)
        ensures
            r is Ok,
    {
        Ok(())
    }

    /// Causal assertion from a peer: pass-through (extension seam).
    pub fn validate_causal_assertion(
        &self,
        _peer_id: &EntityId,
        _assertion: &CausalAssertion,
    ) -> (r: Result<(), AccessDenied>)
        ensures
            r is Ok,
    {
        Ok(())
    }

    /// Predicate rewriting: the predicate passes unchanged (extension
    /// seam).
    pub fn filter_predicate(
        &self,
        _data: &Vec<MyContextData>,
        _collection: &String,
        predicate: Predicate,
    ) -> (r: Result<Predicate, AccessDenied>)
        ensures
            r matches Ok(p) && p == predicate,
    {
        Ok(predicate)
    }
}

} // verus!
