//! The key-derivation collaborator interface: its state is bound to the
//! checksum of the policy it was initialized under. Key material and the
//! derivation algorithm are out of scope; what is kept — and verified — is
//! the binding rule: initialization fails, and mutates nothing, when the
//! KDF is already initialized under a conflicting checksum.

use vstd::prelude::*;

use crate::dispatcher::RpcContext;
use crate::policy::PolicyDocument;

verus! {

/// A key-manager initialization request: the policy document to
/// initialize under, and whether this node may generate a master secret.
#[derive(Debug)]
pub struct InitRequest {
    /// The policy document driving initialization.
    pub policy: PolicyDocument,
    /// May this node generate a new master secret?
    pub may_generate: bool,
}

/// The signed response to a completed initialization: it echoes the
/// checksum of the policy the KDF is now bound to.
#[derive(Clone, Copy, Debug, PartialEq, Eq, Structural)]
pub struct SignedInitResponse {
    /// Checksum of the policy the KDF state is bound to.
    pub policy_checksum: u64,
}

/// KDF initialization failure: already initialized under a different
/// policy checksum.
#[derive(Clone, Copy, Debug, PartialEq, Eq, Structural)]
pub enum KdfError {
    ChecksumMismatch,
}

/// The key-derivation collaborator: its only state visible to this core
/// is the policy checksum it is bound to, if initialized.
#[derive(Clone, Copy, Debug, PartialEq, Eq, Structural)]
pub struct Kdf {
    /// Checksum of the policy the KDF was initialized under, once it was.
    pub checksum: Option<u64>,
}

impl Kdf {
    /// An uninitialized KDF.
    pub fn new() -> (r: Self)
        ensures
            r.checksum is None,
    {
        Kdf { checksum: None }
    }

    /// Complete initialization under a policy checksum. Fails, leaving the
    /// state untouched, when already initialized under a different
    /// checksum; re-initialization under the same checksum succeeds and is
    /// a no-op.
    pub fn init(&mut self, req: &InitRequest, ctx: &RpcContext, policy_checksum: u64) -> (r: Result<
        SignedInitResponse,
        KdfError,
    >)
        ensures
            (match old(self).checksum {
                Some(c0) => c0 != policy_checksum,
                None => false,
            }) ==> r == Err::<SignedInitResponse, KdfError>(KdfError::ChecksumMismatch) && *final(self)
                == *old(self),
            (match old(self).checksum {
                Some(c0) => c0 == policy_checksum,
                None => true,
            }) ==> r == Ok::<SignedInitResponse, KdfError>(
                (SignedInitResponse { policy_checksum }),
            ) && final(self).checksum == Some(policy_checksum),
    {
        let _ = req;
        let _ = ctx;
        match self.checksum {
            Some(c0) => {
                if c0 != policy_checksum {
                    return Err(KdfError::ChecksumMismatch);
                }
            },
            None => {},
        }
        self.checksum = Some(policy_checksum);
        Ok(SignedInitResponse { policy_checksum })
    }
}

} // verus!
