//! A pluggable security boundary for a distributed entity-synchronization
//! node.
//!
//! The crate authenticates the actor behind every inbound request with
//! Ed25519 signatures, derives a typed security context for that actor, and
//! authorizes entity-level operations against that context.
//!
//! The surrounding node is a collaborator, not part of this crate: it owns
//! storage, transport and the canonical request encoding. This library
//! receives the canonically encoded request as plain bytes; the signer and
//! the verifier must be handed byte-identical encodings of the same logical
//! request for a signature to validate.

pub mod agent;
pub mod context;
pub mod crypto;
pub mod directory;
pub mod errors;
pub mod ids;
pub mod laws;
pub mod models;
pub mod policy;
pub mod text;
pub mod tokens;
pub mod verification;

pub use agent::{RootContext, UserKeyPairAgent};
pub use context::{ContextView, MyContextData};
pub use directory::{ActorDirectory, UserRecord};
pub use errors::{AccessDenied, ValidationError};
pub use ids::EntityId;
pub use models::{
    Attestation, CausalAssertion, EntityRecord, EntityRecordView, EntityState, Event, Message,
    Predicate, Room, User,
};
pub use text::str_caseless_eq;
pub use tokens::AuthData;
