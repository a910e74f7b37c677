//! Scenario tests for the trust-boundary dispatcher and the key-manager
//! bootstrap: local-only methods are unreachable remotely and remote
//! methods unreachable locally, and KDF state is only ever initialized
//! under a policy that passed the signer threshold.

use trust_core::common::{Namespace, PublicKey};
use trust_core::dispatcher::{MethodHandler, ProtocolHandle, RpcDispatcher};
use trust_core::kdf::{InitRequest, Kdf};
use trust_core::keymanager::{
    init_kdf, new_keymanager, KmError, PreInitState, LOCAL_METHOD_INIT, METHOD_GET_OR_CREATE_KEYS,
    METHOD_GET_PUBLIC_KEY, METHOD_REPLICATE_MASTER_SECRET,
};
use trust_core::policy::{Policy, PolicyDocument, PolicyError, TrustedPolicySigners};

fn signers() -> TrustedPolicySigners {
    TrustedPolicySigners { signers: vec![PublicKey(1), PublicKey(2)], threshold: 2 }
}

fn pre_init() -> PreInitState {
    PreInitState { runtime_id: Namespace(9), protocol: ProtocolHandle { id: 4 } }
}

fn document(digest: u64, signed_by: Vec<u64>) -> PolicyDocument {
    PolicyDocument {
        serial: 1,
        digest,
        signatures: signed_by.into_iter().map(PublicKey).collect(),
    }
}

#[test]
fn local_methods_unreachable_remotely_and_vice_versa() {
    let post = new_keymanager(signers()).init(pre_init());
    let d = &post.rpc_dispatcher;

    let remote_names = [
        (METHOD_GET_OR_CREATE_KEYS, MethodHandler::GetOrCreateKeys),
        (METHOD_GET_PUBLIC_KEY, MethodHandler::GetPublicKey),
        (METHOD_REPLICATE_MASTER_SECRET, MethodHandler::ReplicateMasterSecret),
    ];
    for (name, handler) in remote_names {
        let name = name.to_string();
        // Reachable on the remote path, with the right handler.
        let (h, ctx) = d.dispatch_remote(&name).expect("remote method must dispatch");
        assert_eq!(h, handler);
        assert_eq!(ctx.runtime_id, Namespace(9));
        assert_eq!(ctx.protocol.id, 4);
        // Unreachable through the local-only dispatch path.
        assert!(d.dispatch_local(&name).is_none());
    }

    let init = LOCAL_METHOD_INIT.to_string();
    // The bootstrap method is reachable locally only.
    let (h, ctx) = d.dispatch_local(&init).expect("local method must dispatch");
    assert_eq!(h, MethodHandler::InitKdf);
    assert_eq!(ctx.runtime_id, Namespace(9));
    // And never through a (simulated) remote call path.
    assert!(d.dispatch_remote(&init).is_none());

    // Unregistered names resolve nowhere.
    let unknown = "generate_master_secret".to_string();
    assert!(d.dispatch_remote(&unknown).is_none());
    assert!(d.dispatch_local(&unknown).is_none());
}

#[test]
fn each_call_gets_a_fresh_context() {
    let post = new_keymanager(signers()).init(pre_init());
    let name = METHOD_GET_PUBLIC_KEY.to_string();
    let (_, ctx1) = post.rpc_dispatcher.dispatch_remote(&name).unwrap();
    let (_, ctx2) = post.rpc_dispatcher.dispatch_remote(&name).unwrap();
    // Two calls, two owned contexts with the same bound identity.
    assert_eq!(ctx1, ctx2);
}

#[test]
fn dispatch_without_context_initializer_serves_nothing() {
    let d = RpcDispatcher::new();
    assert!(d.dispatch_remote(&"init".to_string()).is_none());
    assert!(d.dispatch_local(&"init".to_string()).is_none());
}

#[test]
fn policy_threshold_counts_distinct_trusted_signers() {
    let policy = Policy::new(signers());
    let post = new_keymanager(signers()).init(pre_init());
    let ctx = post.rpc_dispatcher.dispatch_local(&LOCAL_METHOD_INIT.to_string()).unwrap().1;

    // One of two required signers: rejected.
    let r = policy.init(&ctx, &document(0x1111, vec![1]));
    assert_eq!(r, Err(PolicyError::InsufficientSignatures));
    // The same signer twice still counts once.
    let r = policy.init(&ctx, &document(0x1111, vec![1, 1]));
    assert_eq!(r, Err(PolicyError::InsufficientSignatures));
    // An untrusted signature does not count.
    let r = policy.init(&ctx, &document(0x1111, vec![1, 7]));
    assert_eq!(r, Err(PolicyError::InsufficientSignatures));
    // Two distinct trusted signers: the checksum is minted.
    let r = policy.init(&ctx, &document(0x1111, vec![1, 2]));
    assert_eq!(r, Ok(0x1111));
}

#[test]
fn rejected_policy_leaves_kdf_untouched() {
    let post = new_keymanager(signers()).init(pre_init());
    let ctx = post.rpc_dispatcher.dispatch_local(&LOCAL_METHOD_INIT.to_string()).unwrap().1;
    let policy = post.policy;
    let mut kdf = post.kdf;

    // Signed by 1 of the required 2 trusted signers: bootstrap fails and
    // KDF state is not mutated.
    let under_signed = InitRequest { policy: document(0x2222, vec![1]), may_generate: false };
    let r = init_kdf(&under_signed, &ctx, &policy, &mut kdf);
    assert_eq!(r, Err(KmError::PolicyRejected));
    assert_eq!(kdf.checksum, None);

    // The retry with a 2-of-2-signed document succeeds exactly once and
    // binds the KDF to the minted checksum.
    let well_signed = InitRequest { policy: document(0x2222, vec![1, 2]), may_generate: false };
    let r = init_kdf(&well_signed, &ctx, &policy, &mut kdf).expect("bootstrap must succeed");
    assert_eq!(r.policy_checksum, 0x2222);
    assert_eq!(kdf.checksum, Some(0x2222));

    // Re-initialization under the same checksum is an accepted no-op;
    // under a conflicting checksum it fails without mutating state.
    let r = init_kdf(&well_signed, &ctx, &policy, &mut kdf).expect("same checksum re-init");
    assert_eq!(r.policy_checksum, 0x2222);
    let conflicting = InitRequest { policy: document(0x3333, vec![1, 2]), may_generate: false };
    let r = init_kdf(&conflicting, &ctx, &policy, &mut kdf);
    assert_eq!(r, Err(KmError::ChecksumMismatch));
    assert_eq!(kdf.checksum, Some(0x2222));
}

#[test]
fn kdf_alone_enforces_checksum_binding() {
    let post = new_keymanager(signers()).init(pre_init());
    let ctx = post.rpc_dispatcher.dispatch_local(&LOCAL_METHOD_INIT.to_string()).unwrap().1;
    let mut kdf = Kdf::new();
    let req = InitRequest { policy: document(0x7777, vec![1, 2]), may_generate: true };
    assert!(kdf.init(&req, &ctx, 0x7777).is_ok());
    assert!(kdf.init(&req, &ctx, 0x7777).is_ok());
    assert!(kdf.init(&req, &ctx, 0x8888).is_err());
    assert_eq!(kdf.checksum, Some(0x7777));
}
