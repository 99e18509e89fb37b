//! The entity shapes this policy inspects, and the opaque payloads the
//! checkpoints pass through.

use vstd::prelude::*;
use vstd::string::StringExecFns;

verus! {

/// An actor's identity record: the User-like collection. `pub_key` holds
/// the base64 text of the actor's 32-byte Ed25519 verifying key.
#[derive(Debug, Clone, PartialEq, Eq)]
pub struct User {
    pub display_name: String,
    pub pub_key: String,
}

/// A chat room.
#[derive(Debug, Clone, PartialEq, Eq)]
pub struct Room {
    pub name: String,
}

/// A chat message: the Message-like collection. `user` holds a base64
/// actor-id reference naming the message's owner.
#[derive(Debug, Clone, PartialEq, Eq)]
pub struct Message {
    pub user: String,
    pub room: String,
    pub text: String,
    pub timestamp: i64,
    pub deleted: bool,
}

/// An entity as the authorization decider sees it: its collection tag and
/// the `user` field where the record carries one as text.
#[derive(Debug, Clone, PartialEq, Eq)]
pub struct EntityRecord {
    pub collection: String,
    pub user: Option<String>,
}

/// The mathematical view of an entity record.
pub struct EntityRecordView {
    pub collection: Seq<char>,
    pub user: Option<Seq<char>>,
}

impl View for EntityRecord {
    type V = EntityRecordView;

    open spec fn view(&self) -> EntityRecordView {
        EntityRecordView {
            collection: self.collection@,
            user: match self.user {
                Some(u) => Some(u@),
                None => None,
            },
        }
    }
}

impl User {
    /// This record as the authorization decider sees it.
    pub fn entity_record(&self) -> (r: EntityRecord)
        ensures
            r@.collection == "user"@,
            r@.user is None,
    {
        EntityRecord { collection: String::from_str("user"), user: None }
    }
}

impl Room {
    /// This record as the authorization decider sees it.
    pub fn entity_record(&self) -> (r: EntityRecord)
        ensures
            r@.collection == "room"@,
            r@.user is None,
    {
        EntityRecord { collection: String::from_str("room"), user: None }
    }
}

impl Message {
    /// This record as the authorization decider sees it.
    pub fn entity_record(&self) -> (r: EntityRecord)
        ensures
            r@.collection == "message"@,
            r@.user == Some(self.user@),
    {
        EntityRecord { collection: String::from_str("message"), user: Some(self.user.clone()) }
    }
}

/// An opaque entity-mutation event carried past the policy checkpoints.
#[derive(Debug, Clone, PartialEq, Eq)]
pub struct Event {
    pub payload: Vec<u8>,
}

/// An opaque entity state carried past the policy checkpoints.
#[derive(Debug, Clone, PartialEq, Eq)]
pub struct EntityState {
    pub payload: Vec<u8>,
}

/// An opaque causal assertion received from a peer node.
#[derive(Debug, Clone, PartialEq, Eq)]
pub struct CausalAssertion {
    pub payload: Vec<u8>,
}

/// A query predicate, open to rewriting at the predicate checkpoint.
#[derive(Debug, Clone, PartialEq, Eq)]
pub struct Predicate {
    pub expr: String,
}

/// A side value an allow decision may attach; this design never attaches
/// one.
#[derive(Debug, Clone, PartialEq, Eq)]
pub struct Attestation {
    pub payload: Vec<u8>,
}

} // verus!
