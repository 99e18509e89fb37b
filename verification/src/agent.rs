//! The policy agent itself: its client and server roles, the privileged
//! context's once-only lifecycle, and request signing.

use vstd::prelude::*;

use crate::context::{ContextView, MyContextData};
use crate::crypto::{base64_decoding, ed25519_public_key, ed25519_sign, public_key_of};
use crate::tokens::{token_check_spec, token_for_context, AuthData, RejectReason};

verus! {

/// The privileged context handle a server-role agent holds for directory
/// lookups. It pairs the agent with the locally constructed `Root`
/// context; it is created only by `initialize_root_context`.
pub struct RootContext {
    data: MyContextData,
}

impl RootContext {
    /// The handle always carries the privileged context.
    #[verifier::type_invariant]
    pub closed spec fn type_inv(self) -> bool {
        self.data is Root
    }

    /// The security context this handle carries.
    pub fn context_data(&self) -> (r: &MyContextData)
        ensures
            r@ is System,
    {
        proof {
            use_type_invariant(self);
        }
        &self.data
    }
}

/// A policy agent backed by Ed25519 keypairs.
///
/// A client-role agent holds the session's 32-byte secret signing key and
/// produces one authentication token per active security context. A
/// server-role agent holds a lazily initialized privileged context and
/// recovers security contexts from inbound tokens.
pub struct UserKeyPairAgent {
    variant: AgentVariant,
}

enum AgentVariant {
    Client { signing_key: Vec<u8> },
    Server { root_context: Option<RootContext> },
}

impl UserKeyPairAgent {
    /// A client agent's signing key is exactly 32 bytes.
    #[verifier::type_invariant]
    pub closed spec fn type_inv(self) -> bool {
        match self.variant {
            AgentVariant::Client { signing_key } => signing_key@.len() == 32,
            AgentVariant::Server { .. } => true,
        }
    }

    /// Whether this agent holds a client role.
    pub closed spec fn is_client(&self) -> bool {
        self.variant is Client
    }

    /// Whether this agent holds a server role.
    pub closed spec fn is_server(&self) -> bool {
        self.variant is Server
    }

    /// The client role's secret signing key bytes.
    pub closed spec fn client_key(&self) -> Seq<u8>
        recommends
            self.is_client(),
    {
        self.variant->Client_signing_key@
    }

    /// Whether the server role's privileged context has been initialized.
    pub closed spec fn root_initialized(&self) -> bool {
        self.variant matches AgentVariant::Server { root_context: Some(_) }
    }

    /// The server role's privileged context handle.
    pub closed spec fn spec_root(&self) -> RootContext
        recommends
            self.root_initialized(),
    {
        self.variant->Server_root_context->0
    }

    /// Create a client agent from a 32-byte secret signing key.
    pub fn new_client(signing_key: Vec<u8>) -> (r: UserKeyPairAgent)
        requires
            signing_key@.len() == 32,
        ensures
            r.is_client(),
            !r.is_server(),
            r.client_key() == signing_key@,
    {
        UserKeyPairAgent { variant: AgentVariant::Client { signing_key } }
    }

    /// Create a server agent; its privileged context is initialized later,
    /// once the hosting node exists.
    pub fn new_server() -> (r: UserKeyPairAgent)
        ensures
            r.is_server(),
            !r.is_client(),
            !r.root_initialized(),
    {
        UserKeyPairAgent { variant: AgentVariant::Server { root_context: None } }
    }

    /// Initialize the server agent's privileged context.
    ///
    /// The first initialization wins; any later one keeps the existing
    /// context and is a no-op, as is the call on a client agent.
    pub fn initialize_root_context(&mut self)
        ensures
            final(self).is_client() == old(self).is_client(),
            final(self).is_server() == old(self).is_server(),
            old(self).is_client() ==> *final(self) == *old(self),
            old(self).root_initialized() ==> *final(self) == *old(self),
            old(self).is_server() ==> final(self).root_initialized(),
    {
        proof {
            use_type_invariant(&*self);
        }
        let uninitialized_server = match &self.variant {
            AgentVariant::Server { root_context } => root_context.is_none(),
            AgentVariant::Client { .. } => false,
        };
        if uninitialized_server {
            self.variant = AgentVariant::Server {
                root_context: Some(RootContext { data: MyContextData::Root }),
            };
        }
    }

    /// The server agent's privileged context, used only for directory
    /// lookups, never for authorizing a caller's operation. Reading it
    /// before initialization is a process-level contract violation.
    pub(crate) fn get_root_context(&self) -> (r: &RootContext)
        requires
            self.is_server(),
            self.root_initialized(),
        ensures
            *r == self.spec_root(),
    {
        match &self.variant {
            AgentVariant::Server { root_context } => match root_context {
                Some(root) => root,
                None => unreached(),
            },
            AgentVariant::Client { .. } => unreached(),
        }
    }

    /// The verifying key of this client's signing key, as raw bytes.
    pub fn client_public_key(&self) -> (r: Vec<u8>)
        requires
            self.is_client(),
        ensures
            r@ == public_key_of(self.client_key()),
            r@.len() == 32,
    {
        proof {
            use_type_invariant(self);
        }
        match &self.variant {
            AgentVariant::Client { signing_key } => ed25519_public_key(signing_key),
            AgentVariant::Server { .. } => unreached(),
        }
    }

    /// Produce one authentication token per active security context.
    ///
    /// A client agent signs the canonical request bytes for each
    /// authenticated context and emits an empty token for each anonymous
    /// one; the privileged context must never be signed and is excluded by
    /// contract. A server agent emits a single empty token.
    ///
    /// The last condition is the round trip: a token produced for an
    /// authenticated context passes verification, under any directory
    /// record that decodes to this client's public key, back to exactly
    /// that context.
    pub fn sign_request(&self, cdata: &Vec<MyContextData>, request_bytes: &Vec<u8>) -> (r: Vec<
        AuthData,
    >)
        requires
            self.is_client() ==> forall|i: int|
                0 <= i < cdata@.len() ==> !(#[trigger] cdata@[i]@ is System),
        ensures
            self.is_client() ==> r@.len() == cdata@.len(),
            self.is_client() ==> forall|i: int|
                0 <= i < cdata@.len() ==> #[trigger] r@[i]@ == token_for_context(
                    cdata@[i]@,
                    self.client_key(),
                    request_bytes@,
                ),
            self.is_server() ==> r@.len() == 1 && r@[0]@ == Seq::<u8>::empty(),
            self.is_client() ==> forall|i: int|
                0 <= i < cdata@.len() && #[trigger] cdata@[i]@ is Authenticated ==> r@[i]@.len()
                    == 80 && r@[i]@.subrange(0, 16) == cdata@[i]@->Authenticated_actor,
            self.is_client() ==> forall|i: int, rec: Seq<char>|
                0 <= i < cdata@.len() && cdata@[i]@ is Authenticated && base64_decoding(rec)
                    == Some(public_key_of(self.client_key()))
                    ==> #[trigger] token_check_spec(r@[i]@, Some(rec), request_bytes@)
                    == Ok::<ContextView, RejectReason>(cdata@[i]@),
    {
        proof {
            use_type_invariant(self);
        }
        match &self.variant {
            AgentVariant::Client { signing_key } => {
                let mut auth_datas: Vec<AuthData> = Vec::new();
                let mut idx: usize = 0;
                while idx < cdata.len()
                    invariant
                        idx <= cdata@.len(),
                        auth_datas@.len() == idx,
                        signing_key@.len() == 32,
                        signing_key@ == self.client_key(),
                        forall|i: int|
                            0 <= i < cdata@.len() ==> !(#[trigger] cdata@[i]@ is System),
                        forall|i: int|
                            0 <= i < idx ==> #[trigger] auth_datas@[i]@ == token_for_context(
                                cdata@[i]@,
                                signing_key@,
                                request_bytes@,
                            ),
                        forall|i: int|
                            0 <= i < idx && #[trigger] cdata@[i]@ is Authenticated
                                ==> auth_datas@[i]@.len() == 80 && auth_datas@[i]@.subrange(0, 16)
                                == cdata@[i]@->Authenticated_actor,
                        forall|i: int, rec: Seq<char>|
                            0 <= i < idx && cdata@[i]@ is Authenticated && base64_decoding(rec)
                                == Some(public_key_of(signing_key@))
                                ==> #[trigger] token_check_spec(
                                auth_datas@[i]@,
                                Some(rec),
                                request_bytes@,
                            ) == Ok::<ContextView, RejectReason>(cdata@[i]@),
                    decreases cdata@.len() - idx,
                {
                    match &cdata[idx] {
                        MyContextData::User(user_id) => {
                            proof {
                                use_type_invariant(user_id);
                            }
                            let signature = ed25519_sign(signing_key, request_bytes);
                            // Deriving the verifying key records that it is a
                            // valid 32-byte key encoding, which the round-trip
                            // condition depends on.
                            let _verifying_key = ed25519_public_key(signing_key);
                            let id_bytes = user_id.as_bytes();
                            let mut token: Vec<u8> = Vec::new();
                            let mut i: usize = 0;
                            while i < id_bytes.len()
                                invariant
                                    i <= id_bytes@.len(),
                                    token@ == id_bytes@.subrange(0, i as int),
                                decreases id_bytes@.len() - i,
                            {
                                token.push(id_bytes[i]);
                                i = i + 1;
                            }
                            assert(token@ =~= user_id@);
                            let mut j: usize = 0;
                            while j < signature.len()
                                invariant
                                    j <= signature@.len(),
                                    token@ == user_id@ + signature@.subrange(0, j as int),
                                decreases signature@.len() - j,
                            {
                                proof {
                                    assert((user_id@ + signature@.subrange(0, j as int)).push(
                                        signature@[j as int],
                                    ) =~= user_id@ + signature@.subrange(0, j + 1 as int));
                                }
                                token.push(signature[j]);
                                j = j + 1;
                            }
                            assert(token@ =~= user_id@ + signature@);
                            proof {
                                assert(token@.len() == 80);
                                assert(token@.subrange(0, 16) =~= user_id@);
                                assert(token@.subrange(16, 80) =~= signature@);
                            }
                            auth_datas.push(AuthData(token));
                        },
                        MyContextData::Anonymous => {
                            let empty: Vec<u8> = Vec::new();
                            assert(empty@ =~= Seq::<u8>::empty());
                            auth_datas.push(AuthData(empty));
                        },
                        MyContextData::Root => {
                            assert(cdata@[idx as int]@ is System);
                            unreached()
                        },
                    }
                    idx = idx + 1;
                }
                auth_datas
            },
            AgentVariant::Server { .. } => {
                let empty: Vec<u8> = Vec::new();
                assert(empty@ =~= Seq::<u8>::empty());
                let mut auth_datas: Vec<AuthData> = Vec::new();
                auth_datas.push(AuthData(empty));
                auth_datas
            },
        }
    }
}

} // verus!
