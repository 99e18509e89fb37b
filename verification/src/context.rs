//! The typed security-context model: who is asking.

use vstd::prelude::*;

use crate::ids::EntityId;

verus! {

/// The security context attached to a request or an operation: who is asking.
///
/// `Root` is the privileged context of the hosting process itself. It is
/// constructible locally only and must never be derived from data received
/// over the wire; the verifier never yields it.
#[derive(Debug, PartialEq, Eq, Hash)]
pub enum MyContextData {
    /// An actor authenticated by the entity id of its identity record.
    User(EntityId),
    /// The hosting process's own privileged context.
    Root,
    /// An actor with no identity yet; may only self-register.
    Anonymous,
}

/// The mathematical view of a security context.
pub enum ContextView {
    Authenticated { actor: Seq<u8> },
    System,
    Anonymous,
}

impl View for MyContextData {
    type V = ContextView;

    open spec fn view(&self) -> ContextView {
        match self {
            MyContextData::User(id) => ContextView::Authenticated { actor: id@ },
            MyContextData::Root => ContextView::System,
            MyContextData::Anonymous => ContextView::Anonymous,
        }
    }
}

impl MyContextData {
    /// Whether this context carries an authenticated actor.
    pub fn is_authenticated(&self) -> (r: bool)
        ensures
            r == (self@ is Authenticated),
    {
        match self {
            MyContextData::User(_) => true,
            _ => false,
        }
    }

    /// Whether this is the privileged context of the hosting process.
    pub fn is_system(&self) -> (r: bool)
        ensures
            r == (self@ is System),
    {
        match self {
            MyContextData::Root => true,
            _ => false,
        }
    }

    /// Whether this context is anonymous.
    pub fn is_anonymous(&self) -> (r: bool)
        ensures
            r == (self@ is Anonymous),
    {
        match self {
            MyContextData::Anonymous => true,
            _ => false,
        }
    }

    /// The authenticated actor's id.
    pub fn actor_id(&self) -> (r: &EntityId)
        requires
            self@ is Authenticated,
        ensures
            r@ == self@->Authenticated_actor,
    {
        match self {
            MyContextData::User(id) => id,
            _ => unreached(),
        }
    }
}

} // verus!
