//! The policy collaborator interface: validating a key-manager policy
//! document against the configured trusted signers and minting the policy
//! checksum that binds KDF initialization to it.
//!
//! Signature cryptography is out of scope here: a signature is modelled by
//! the identity of the signer it verifiably came from, and the document's
//! checksum by its canonical 64-bit digest. The logic kept in scope — and
//! verified — is the threshold rule: a checksum is minted exactly when
//! enough distinct trusted signers signed the document.

use vstd::prelude::*;

use crate::common::PublicKey;
use crate::dispatcher::RpcContext;

verus! {

/// The set of trusted policy signers and the number of distinct trusted
/// signatures a policy document must carry.
#[derive(Debug)]
pub struct TrustedPolicySigners {
    /// The trusted signer identities.
    pub signers: Vec<PublicKey>,
    /// How many distinct trusted signers must have signed.
    pub threshold: u64,
}

impl Clone for TrustedPolicySigners {
    /// A copy equal to the original, signer for signer.
    fn clone(&self) -> (res: Self)
        ensures
            res.signers@ == self.signers@,
            res.threshold == self.threshold,
    {
        let mut signers: Vec<PublicKey> = Vec::new();
        let mut i: usize = 0;
        while i < self.signers.len()
            invariant
                i <= self.signers.len(),
                signers@ == self.signers@.subrange(0, i as int),
            decreases self.signers.len() - i,
        {
            signers.push(self.signers[i]);
            i = i + 1;
            proof {
                assert(signers@ =~= self.signers@.subrange(0, i as int));
            }
        }
        proof {
            assert(self.signers@.subrange(0, self.signers@.len() as int) =~= self.signers@);
        }
        TrustedPolicySigners { signers, threshold: self.threshold }
    }
}

/// A key-manager policy document, with the signatures attached to it. A
/// signature is modelled by the trusted identity it verifiably came from;
/// the digest is the document's canonical 64-bit checksum, computed by the
/// out-of-scope serialization layer.
#[derive(Debug)]
pub struct PolicyDocument {
    /// Monotonic serial number of the document.
    pub serial: u64,
    /// The document's canonical digest.
    pub digest: u64,
    /// Identities whose signature the document carries.
    pub signatures: Vec<PublicKey>,
}

/// The checksum minted for an accepted document: its canonical digest.
pub open spec fn spec_checksum(doc: PolicyDocument) -> u64 {
    doc.digest
}

/// How many distinct trusted signers appear among the signatures: each
/// signer is counted once, however often it signed.
pub open spec fn spec_valid_sig_count(signers: Seq<PublicKey>, sigs: Seq<PublicKey>) -> nat
    decreases sigs.len(),
{
    if sigs.len() == 0 {
        0
    } else {
        spec_valid_sig_count(signers, sigs.drop_last()) + (if signers.contains(sigs.last())
            && !sigs.drop_last().contains(sigs.last()) {
            1nat
        } else {
            0
        })
    }
}

/// Whether a document meets the signer threshold.
pub open spec fn spec_policy_accepts(signers: TrustedPolicySigners, doc: PolicyDocument) -> bool {
    spec_valid_sig_count(signers.signers@, doc.signatures@) >= signers.threshold
}

/// Policy rejection: the document does not carry enough distinct trusted
/// signatures.
#[derive(Clone, Copy, Debug, PartialEq, Eq, Structural)]
pub enum PolicyError {
    InsufficientSignatures,
}

/// Does the sequence hold the key? Scans the first `n` entries.
fn contains_key(v: &Vec<PublicKey>, k: PublicKey, n: usize) -> (r: bool)
    requires
        n <= v@.len(),
    ensures
        r == v@.subrange(0, n as int).contains(k),
{
    let mut i: usize = 0;
    while i < n
        invariant
            i <= n <= v@.len(),
            forall|j: int| 0 <= j < i ==> v@[j] != k,
        decreases n - i,
    {
        if v[i].0 == k.0 {
            proof {
                assert(v@.subrange(0, n as int)[i as int] == k);
            }
            return true;
        }
        i = i + 1;
    }
    proof {
        assert forall|j: int| 0 <= j < n implies v@.subrange(0, n as int)[j] != k by {
            assert(v@.subrange(0, n as int)[j] == v@[j]);
        }
    }
    false
}

/// The policy collaborator: holds the trusted signer configuration and
/// validates incoming policy documents against it.
#[derive(Debug)]
pub struct Policy {
    /// The configured trusted signers.
    pub signers: TrustedPolicySigners,
}

impl Policy {
    /// A policy validator over the given trusted signers.
    pub fn new(signers: TrustedPolicySigners) -> (r: Self)
        ensures
            r.signers.signers@ == signers.signers@,
            r.signers.threshold == signers.threshold,
    {
        Policy { signers }
    }

    /// Validate a policy document and mint its checksum. Succeeds exactly
    /// when the document carries at least the configured threshold of
    /// distinct trusted signatures; the returned checksum is the
    /// document's canonical digest. This is the only way a checksum is
    /// minted: holding one implies the document passed this check.
    pub fn init(&self, ctx: &RpcContext, document: &PolicyDocument) -> (r: Result<
        u64,
        PolicyError,
    >)
        ensures
            r is Ok <==> spec_policy_accepts(self.signers, *document),
            r matches Ok(c) ==> c == spec_checksum(*document),
            r matches Err(e) ==> e == PolicyError::InsufficientSignatures,
    {
        let _ = ctx;
        let sigs = &document.signatures;
        let mut count: u64 = 0;
        let mut i: usize = 0;
        while i < sigs.len()
            invariant
                i <= sigs@.len(),
                sigs@ == document.signatures@,
                count == spec_valid_sig_count(self.signers.signers@, sigs@.subrange(0, i as int)),
                count <= i,
            decreases sigs.len() - i,
        {
            let s = sigs[i];
            let trusted = contains_key(&self.signers.signers, s, self.signers.signers.len());
            let seen = contains_key(sigs, s, i);
            proof {
                let pre = sigs@.subrange(0, i as int);
                let post = sigs@.subrange(0, i as int + 1);
                assert(post.drop_last() =~= pre);
                assert(post.last() == sigs@[i as int]);
                assert(self.signers.signers@.subrange(
                    0,
                    self.signers.signers@.len() as int,
                ) =~= self.signers.signers@);
            }
            if trusted && !seen {
                count = count + 1;
            }
            i = i + 1;
        }
        proof {
            assert(sigs@.subrange(0, sigs@.len() as int) =~= sigs@);
        }
        if count >= self.signers.threshold {
            Ok(document.digest)
        } else {
            Err(PolicyError::InsufficientSignatures)
        }
    }
}

} // verus!
