//! Entity identifiers.

use vstd::prelude::*;
use vstd::std_specs::cmp::PartialEqSpec;

verus! {

/// The number of bytes in an entity identifier.
pub const ENTITY_ID_LEN: usize = 16;

/// A 16-byte opaque entity identifier.
///
/// Every entity the node stores is addressed by such an identifier; actors
/// are identified by the id of their identity record.
#[derive(Debug, PartialEq, Eq, Hash)]
pub struct EntityId {
    bytes: Vec<u8>,
}

impl View for EntityId {
    type V = Seq<u8>;

    closed spec fn view(&self) -> Seq<u8> {
        self.bytes@
    }
}

impl EntityId {
    /// Every identifier is exactly 16 bytes wide.
    #[verifier::type_invariant]
    pub closed spec fn type_inv(self) -> bool {
        self.bytes@.len() == ENTITY_ID_LEN
    }

    /// Construct an identifier from its raw bytes.
    pub fn from_bytes(bytes: Vec<u8>) -> (r: EntityId)
        requires
            bytes@.len() == ENTITY_ID_LEN,
        ensures
            r@ == bytes@,
    {
        EntityId { bytes }
    }

    /// The raw bytes of this identifier.
    pub fn as_bytes(&self) -> (r: &Vec<u8>)
        ensures
            r@ == self@,
            r@.len() == ENTITY_ID_LEN,
    {
        proof {
            use_type_invariant(self);
        }
        &self.bytes
    }

    /// Whether two identifiers hold the same bytes.
    pub fn same_id(&self, other: &EntityId) -> (r: bool)
        ensures
            r == (self@ == other@),
    {
        let r = self.bytes == other.bytes;
        proof {
            if r {
                assert(self.bytes@ =~= other.bytes@);
            } else if self.bytes@ == other.bytes@ {
                assert(self.bytes.eq_spec(&other.bytes));
                assert(false);
            }
        }
        r
    }

    /// A copy of this identifier.
    pub fn duplicate(&self) -> (r: EntityId)
        ensures
            r@ == self@,
    {
        proof {
            use_type_invariant(self);
        }
        let mut bytes: Vec<u8> = Vec::new();
        let mut i: usize = 0;
        while i < self.bytes.len()
            invariant
                i <= self.bytes@.len(),
                bytes@ == self.bytes@.subrange(0, i as int),
            decreases self.bytes@.len() - i,
        {
            bytes.push(self.bytes[i]);
            i = i + 1;
        }
        assert(bytes@ =~= self.bytes@);
        EntityId { bytes }
    }
}

} // verus!
