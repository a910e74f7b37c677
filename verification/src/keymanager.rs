//! Key-manager initialization: registration of the RPC surface with its
//! trust tags, binding of the per-call context initializer, and the
//! local-only KDF bootstrap path.

use vstd::prelude::*;

use crate::common::Namespace;
use crate::dispatcher::{
    spec_resolve, ContextInitializer, MethodDescriptor, MethodEntry, MethodHandler, ProtocolHandle,
    RpcContext, RpcDispatcher, RpcMethod,
};
use crate::kdf::{InitRequest, Kdf, SignedInitResponse};
use crate::policy::{
    spec_checksum, spec_policy_accepts, Policy, PolicyError, TrustedPolicySigners,
};

verus! {

/// Wire name of the remote key-creation method.
pub const METHOD_GET_OR_CREATE_KEYS: &'static str = "get_or_create_keys";

/// Wire name of the remote public-key retrieval method.
pub const METHOD_GET_PUBLIC_KEY: &'static str = "get_public_key";

/// Wire name of the remote master-secret replication method.
pub const METHOD_REPLICATE_MASTER_SECRET: &'static str = "replicate_master_secret";

/// Wire name of the local-only KDF initialization method.
pub const LOCAL_METHOD_INIT: &'static str = "init";

/// A bootstrap failure: the collaborator that rejected the call.
#[derive(Clone, Copy, Debug, PartialEq, Eq, Structural)]
pub enum KmError {
    /// The policy collaborator rejected the document.
    PolicyRejected,
    /// The KDF is already initialized under a conflicting checksum.
    ChecksumMismatch,
}

/// Initialize the KDF: validate the policy document to obtain its
/// checksum — the only way one is minted — then drive KDF initialization
/// bound to that checksum. The checksum binds the two steps: KDF state is
/// never initialized without a policy that passed validation in the same
/// call, and a policy rejection leaves the KDF state untouched.
pub fn init_kdf(req: &InitRequest, ctx: &RpcContext, policy: &Policy, kdf: &mut Kdf) -> (r: Result<
    SignedInitResponse,
    KmError,
>)
    ensures
        !spec_policy_accepts(policy.signers, req.policy) ==> (r matches Err(e) && e
            == KmError::PolicyRejected) && *final(kdf) == *old(kdf),
        spec_policy_accepts(policy.signers, req.policy) && (match old(kdf).checksum {
            Some(c0) => c0 != spec_checksum(req.policy),
            None => false,
        }) ==> (r matches Err(e) && e == KmError::ChecksumMismatch) && *final(kdf) == *old(kdf),
        spec_policy_accepts(policy.signers, req.policy) && (match old(kdf).checksum {
            Some(c0) => c0 == spec_checksum(req.policy),
            None => true,
        }) ==> r == Ok::<SignedInitResponse, KmError>(
            (SignedInitResponse { policy_checksum: spec_checksum(req.policy) }),
        ) && final(kdf).checksum == Some(spec_checksum(req.policy)),
{
    let policy_checksum = match policy.init(ctx, &req.policy) {
        Ok(c) => c,
        Err(PolicyError::InsufficientSignatures) => {
            return Err(KmError::PolicyRejected);
        },
    };
    match kdf.init(req, ctx, policy_checksum) {
        Ok(resp) => Ok(resp),
        Err(crate::kdf::KdfError::ChecksumMismatch) => Err(KmError::ChecksumMismatch),
    }
}

/// The routing table the key manager registers: three remote-callable
/// methods whose bodies are external collaborators, and the local-only
/// KDF initialization method.
pub open spec fn is_km_table(ms: Seq<MethodEntry>) -> bool {
    &&& ms.len() == 4
    &&& ms[0].method.descriptor.name@ == "get_or_create_keys"@
    &&& ms[0].method.handler == MethodHandler::GetOrCreateKeys
    &&& !ms[0].is_local
    &&& ms[1].method.descriptor.name@ == "get_public_key"@
    &&& ms[1].method.handler == MethodHandler::GetPublicKey
    &&& !ms[1].is_local
    &&& ms[2].method.descriptor.name@ == "replicate_master_secret"@
    &&& ms[2].method.handler == MethodHandler::ReplicateMasterSecret
    &&& !ms[2].is_local
    &&& ms[3].method.descriptor.name@ == "init"@
    &&& ms[3].method.handler == MethodHandler::InitKdf
    &&& ms[3].is_local
}

/// Trust-boundary law for the key manager's routing table: on the remote
/// path no name whatsoever reaches the local-only KDF bootstrap, and the
/// local path reaches it and nothing else. Remote names resolve exactly
/// to the three remote-callable methods.
pub proof fn lemma_trust_boundary(ms: Seq<MethodEntry>, name: Seq<char>)
    requires
        is_km_table(ms),
    ensures
        spec_resolve(ms, name, false) != Some(MethodHandler::InitKdf),
        spec_resolve(ms, name, true) matches Some(h) ==> h == MethodHandler::InitKdf,
        spec_resolve(ms, name, true) is Some <==> name == "init"@,
        spec_resolve(ms, name, false) is Some <==> (name == "get_or_create_keys"@ || name
            == "get_public_key"@ || name == "replicate_master_secret"@),
{
    reveal_with_fuel(crate::dispatcher::resolve_from, 6);
}

/// State handed to the initializer by the host: the runtime identity and
/// the transport protocol handle the context initializer is bound over.
#[derive(Clone, Copy, Debug, PartialEq, Eq, Structural)]
pub struct PreInitState {
    /// The runtime this process serves.
    pub runtime_id: Namespace,
    /// Handle to the underlying host transport.
    pub protocol: ProtocolHandle,
}

/// The serving-phase state produced by initialization: the immutable
/// routing table and the two bootstrap collaborators, explicitly owned
/// rather than process-wide singletons.
#[derive(Debug)]
pub struct PostInitState {
    /// The read-only routing table with its bound context initializer.
    pub rpc_dispatcher: RpcDispatcher,
    /// The policy validator, configured with the trusted signers.
    pub policy: Policy,
    /// The KDF, uninitialized until the local bootstrap call.
    pub kdf: Kdf,
}

/// The key-manager initializer: the trusted-signer configuration captured
/// at construction, applied during the one-time registration phase.
#[derive(Debug)]
pub struct KeyManagerInitializer {
    /// The trusted policy signers this key manager will accept.
    pub signers: TrustedPolicySigners,
}

/// Initialize a keymanager with trusted policy signers. The returned
/// initializer performs the registration phase when the host hands it the
/// pre-init state.
pub fn new_keymanager(signers: TrustedPolicySigners) -> (km: KeyManagerInitializer)
    ensures
        km.signers.signers@ == signers.signers@,
        km.signers.threshold == signers.threshold,
{
    KeyManagerInitializer { signers }
}

impl KeyManagerInitializer {
    /// The one-time registration phase, run before any request is served:
    /// register the three remote methods and the local-only bootstrap
    /// method, bind the context initializer over the runtime identity and
    /// protocol handle, and construct the policy and KDF collaborators.
    pub fn init(&self, state: PreInitState) -> (post: PostInitState)
        ensures
            is_km_table(post.rpc_dispatcher.methods@),
            post.rpc_dispatcher.ctx_init == Some(
                (
                    ContextInitializer { runtime_id: state.runtime_id, protocol: state.protocol }
                ),
            ),
            post.policy.signers.signers@ == self.signers.signers@,
            post.policy.signers.threshold == self.signers.threshold,
            post.kdf.checksum is None,
    {
        let mut rpc_dispatcher = RpcDispatcher::new();

        // Register RPC methods exposed to remote clients.
        rpc_dispatcher.add_method(
            RpcMethod::new(
                MethodDescriptor { name: METHOD_GET_OR_CREATE_KEYS.to_owned() },
                MethodHandler::GetOrCreateKeys,
            ),
            false,
        );
        rpc_dispatcher.add_method(
            RpcMethod::new(
                MethodDescriptor { name: METHOD_GET_PUBLIC_KEY.to_owned() },
                MethodHandler::GetPublicKey,
            ),
            false,
        );
        rpc_dispatcher.add_method(
            RpcMethod::new(
                MethodDescriptor { name: METHOD_REPLICATE_MASTER_SECRET.to_owned() },
                MethodHandler::ReplicateMasterSecret,
            ),
            false,
        );

        // Register the local method, for use by the node's own key-manager
        // component only.
        rpc_dispatcher.add_method(
            RpcMethod::new(
                MethodDescriptor { name: LOCAL_METHOD_INIT.to_owned() },
                MethodHandler::InitKdf,
            ),
            true,
        );

        // Bind the context initializer over the runtime identity and the
        // protocol handle; every inbound call gets a fresh context.
        rpc_dispatcher.set_context_initializer(
            ContextInitializer { runtime_id: state.runtime_id, protocol: state.protocol },
        );

        PostInitState {
            rpc_dispatcher,
            policy: Policy::new(self.signers.clone()),
            kdf: Kdf::new(),
        }
    }
}

} // verus!
