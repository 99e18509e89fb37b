//! The actor directory: public-key records looked up by actor id
//! through the privileged context.

use vstd::prelude::*;

use crate::agent::RootContext;
use crate::ids::EntityId;

verus! {

/// One actor's public-key record: the actor's entity id and the base64
/// text of its 32-byte Ed25519 verifying key.
pub struct UserRecord {
    pub id: EntityId,
    pub pub_key: String,
}

/// The actor directory the verifier consults: the public-key records of
/// all registered actors, looked up by actor id.
///
/// The surrounding node owns the durable store; a value of this type is
/// the directory's current content as the verifier reads it. Lookups go
/// through the privileged context only.
pub struct ActorDirectory {
    entries: Vec<UserRecord>,
}

impl ActorDirectory {
    /// Each actor id holds at most one record.
    #[verifier::type_invariant]
    pub closed spec fn type_inv(self) -> bool {
        forall|i: int, j: int|
            0 <= i < j < self.entries@.len() ==> self.entries@[i].id@ != self.entries@[j].id@
    }

    /// Whether some actor has a record.
    pub closed spec fn spec_contains(&self, actor: Seq<u8>) -> bool {
        exists|i: int| 0 <= i < self.entries@.len() && self.entries@[i].id@ == actor
    }

    /// The base64 key text stored for an actor.
    pub closed spec fn spec_key(&self, actor: Seq<u8>) -> Seq<char>
        recommends
            self.spec_contains(actor),
    {
        self.entries@[choose|i: int|
            0 <= i < self.entries@.len() && self.entries@[i].id@ == actor].pub_key@
    }

    /// The record the directory yields for an actor, if any.
    pub open spec fn spec_record(&self, actor: Seq<u8>) -> Option<Seq<char>> {
        if self.spec_contains(actor) {
            Some(self.spec_key(actor))
        } else {
            None
        }
    }

    /// An empty directory.
    pub fn new() -> (r: ActorDirectory)
        ensures
            forall|actor: Seq<u8>| !r.spec_contains(actor),
    {
        ActorDirectory { entries: Vec::new() }
    }

    /// Record a newly self-registered actor's public key. Updates to an
    /// existing record are owned by the surrounding store, not by this
    /// core.
    pub fn register(&mut self, id: EntityId, pub_key: String)
        requires
            !old(self).spec_contains(id@),
        ensures
            final(self).spec_contains(id@),
            final(self).spec_key(id@) == pub_key@,
            forall|actor: Seq<u8>|
                actor != id@ ==> #[trigger] final(self).spec_contains(actor) == old(
                    self,
                ).spec_contains(actor),
            forall|actor: Seq<u8>|
                actor != id@ && old(self).spec_contains(actor)
                    ==> #[trigger] final(self).spec_key(actor) == old(self).spec_key(actor),
    {
        proof {
            use_type_invariant(&*self);
        }
        let ghost old_entries = self.entries@;
        let mut entries: Vec<UserRecord> = Vec::new();
        core::mem::swap(&mut entries, &mut self.entries);
        entries.push(UserRecord { id, pub_key });
        proof {
            let n = old_entries.len() as int;
            assert forall|p: int, q: int| 0 <= p < q < entries@.len() implies entries@[p].id@
                != entries@[q].id@ by {
                if q == n && entries@[p].id@ == id@ {
                    assert(old_entries[p].id@ == id@);
                    assert(old(self).spec_contains(id@));
                }
            }
        }
        core::mem::swap(&mut entries, &mut self.entries);
        proof {
            let n = old_entries.len() as int;
            assert(self.entries@[n].id@ == id@);
            assert forall|actor: Seq<u8>| actor != id@ implies #[trigger] self.spec_contains(actor)
                == old(self).spec_contains(actor) by {
                if old(self).spec_contains(actor) {
                    let i = choose|i: int|
                        0 <= i < old_entries.len() && old_entries[i].id@ == actor;
                    assert(self.entries@[i].id@ == actor);
                }
                if self.spec_contains(actor) {
                    let i = choose|i: int|
                        0 <= i < self.entries@.len() && self.entries@[i].id@ == actor;
                    assert(i < n);
                    assert(old_entries[i].id@ == actor);
                }
            }
            assert forall|actor: Seq<u8>|
                actor != id@ && old(self).spec_contains(actor) implies #[trigger] self.spec_key(
                actor,
            ) == old(self).spec_key(actor) by {
                let i = choose|i: int|
                    0 <= i < self.entries@.len() && self.entries@[i].id@ == actor;
                let j = choose|j: int| 0 <= j < old_entries.len() && old_entries[j].id@ == actor;
                assert(self.entries@[j].id@ == actor);
                assert(i < n);
                if i != j {
                    assert(self.entries@[i].id@ != self.entries@[j].id@);
                }
            }
        }
    }

    /// Fetch the current public-key record for an actor, through the
    /// privileged context.
    pub fn lookup(&self, root: &RootContext, id: &EntityId) -> (r: Option<String>)
        ensures
            match r {
                Some(key) => self.spec_contains(id@) && key@ == self.spec_key(id@),
                None => !self.spec_contains(id@),
            },
    {
        proof {
            use_type_invariant(self);
        }
        let _ = root.context_data();
        let mut i: usize = 0;
        while i < self.entries.len()
            invariant
                i <= self.entries@.len(),
                forall|j: int| 0 <= j < i ==> self.entries@[j].id@ != id@,
                forall|p: int, q: int|
                    0 <= p < q < self.entries@.len() ==> self.entries@[p].id@
                        != self.entries@[q].id@,
            decreases self.entries@.len() - i,
        {
            if self.entries[i].id.same_id(id) {
                proof {
                    let w = choose|w: int|
                        0 <= w < self.entries@.len() && self.entries@[w].id@ == id@;
                    if w != i as int {
                        assert(self.entries@[w].id@ != self.entries@[i as int].id@);
                    }
                }
                return Some(self.entries[i].pub_key.clone());
            }
            i = i + 1;
        }
        None
    }
}

} // verus!
