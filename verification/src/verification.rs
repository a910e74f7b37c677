//! Consensus layer verification: the error taxonomy, the trust anchor, the
//! verifier contract, and state-freshness verification.

use vstd::prelude::*;

use crate::common::{Namespace, PublicKey, Rak, Version};
use crate::consensus::{
    spec_find_node, spec_first_tee_match, state_matches_block, ComputeResultsHeader,
    ConsensusState, EpochTime, Header, LightBlock,
};
use crate::types;

verus! {

/// Errors surfaced by consensus verification.
///
/// `Builder` marks a structural problem while constructing a verification
/// proof; `VerificationFailed` a cryptographic, consistency or attestation
/// mismatch (a security-relevant rejection); `TrustRootLoadingFailed` a
/// missing or unusable trust anchor; `Internal` an invariant violation
/// inside the verifier itself.
#[derive(Debug)]
pub enum Error {
    Builder(String),
    VerificationFailed(String),
    TrustRootLoadingFailed,
    Internal,
}

impl Error {
    /// The small stable numeric code of each variant, as seen on the wire.
    pub open spec fn spec_code(self) -> u32 {
        match self {
            Error::Builder(_) => 1,
            Error::VerificationFailed(_) => 2,
            Error::TrustRootLoadingFailed => 3,
            Error::Internal => 4,
        }
    }

    /// The human-readable message of each variant.
    pub open spec fn spec_message(self) -> Seq<char> {
        match self {
            Error::Builder(m) => "builder: "@ + m@,
            Error::VerificationFailed(m) => "verification: "@ + m@,
            Error::TrustRootLoadingFailed => "trust root loading failed"@,
            Error::Internal => "internal consensus verifier error"@,
        }
    }

    /// The stable numeric code of this error.
    pub fn code(&self) -> (c: u32)
        ensures
            c == self.spec_code(),
    {
        match self {
            Error::Builder(_) => 1,
            Error::VerificationFailed(_) => 2,
            Error::TrustRootLoadingFailed => 3,
            Error::Internal => 4,
        }
    }

    /// The human-readable message of this error.
    pub fn message(&self) -> (m: String)
        ensures
            m@ == self.spec_message(),
    {
        match self {
            Error::Builder(m) => {
                let mut s = "builder: ".to_owned();
                s.append(m.as_str());
                s
            },
            Error::VerificationFailed(m) => {
                let mut s = "verification: ".to_owned();
                s.append(m.as_str());
                s
            },
            Error::TrustRootLoadingFailed => "trust root loading failed".to_owned(),
            Error::Internal => "internal consensus verifier error".to_owned(),
        }
    }

    /// The wire-visible form: module name, stable code, message. This
    /// module/code pair lets operators tell bad configuration (3) from an
    /// active attack or stale state (2) and from a verifier bug (4).
    pub fn to_wire(self) -> (r: types::Error)
        ensures
            r.module@ == "verifier"@,
            r.code == self.spec_code(),
            r.message@ == self.spec_message(),
    {
        let code = self.code();
        let message = self.message();
        types::Error { module: "verifier".to_owned(), code, message }
    }
}

/// Consensus layer trust root: an immutable anchor supplied at deployment
/// time. A zero height means "no anchor configured" and every verification
/// attempt against it fails closed.
#[derive(Debug)]
pub struct TrustRoot {
    /// Known trusted height.
    pub height: u64,
    /// Known hex-encoded trusted consensus layer header hash.
    pub hash: String,
    /// Known runtime identifier.
    pub runtime_id: Namespace,
}

impl Clone for TrustRoot {
    /// A copy equal to the original.
    fn clone(&self) -> (res: Self)
        ensures
            res == *self,
    {
        TrustRoot { height: self.height, hash: self.hash.clone(), runtime_id: self.runtime_id }
    }
}

impl Default for TrustRoot {
    /// The empty anchor: zero height, empty hash, zero runtime identifier.
    /// It configures nothing and fails every verification closed.
    fn default() -> (res: Self)
        ensures
            res.height == 0,
            res.hash@ == Seq::<char>::empty(),
            res.runtime_id.0 == 0,
    {
        TrustRoot { height: 0, hash: String::new(), runtime_id: Namespace(0) }
    }
}

impl PartialEq for TrustRoot {
    fn eq(&self, other: &Self) -> (r: bool) {
        self.height == other.height && self.hash == other.hash && self.runtime_id.0
            == other.runtime_id.0
    }
}

impl vstd::std_specs::cmp::PartialEqSpecImpl for TrustRoot {
    open spec fn obeys_eq_spec() -> bool {
        true
    }

    open spec fn eq_spec(&self, other: &Self) -> bool {
        self.height == other.height && self.hash@ == other.hash@ && self.runtime_id
            == other.runtime_id
    }
}

/// Verifier is the consensus layer state verifier: it synchronizes
/// light-client state up to a height, verifies runtime headers against
/// consensus blocks, exposes verified and unverified state accessors, and
/// accumulates locally-computed trust facts. Its height watermark only ever
/// moves forward.
pub trait Verifier: Send + Sync {
    /// Well-formedness of the verifier's internal state; constructors
    /// establish it and every operation preserves it.
    spec fn wf(&self) -> bool;

    /// The height watermark: the highest height for which this verifier
    /// holds verified state.
    spec fn spec_latest_height(&self) -> u64;

    /// Acceptance predicate of the strict verification path.
    spec fn spec_verify_accepts(&self, block: LightBlock, header: Header, epoch: EpochTime) -> bool;

    /// Acceptance predicate of the relaxed path used for queries.
    spec fn spec_query_accepts(&self, block: LightBlock, header: Header) -> bool;

    /// Relaxation is freshness-only: any block and header the strict path
    /// accepts, the query path accepts as well.
    proof fn lemma_verify_implies_query(&self, block: LightBlock, header: Header, epoch: EpochTime)
        ensures
            self.spec_verify_accepts(block, header, epoch) ==> self.spec_query_accepts(
                block,
                header,
            ),
    ;

    /// Synchronize the verifier state up to and including the passed
    /// consensus height. Idempotent for heights already reached; the
    /// watermark never regresses.
    fn sync(&mut self, height: u64) -> (r: Result<(), Error>)
        requires
            old(self).wf(),
        ensures
            final(self).wf(),
            final(self).spec_latest_height() >= old(self).spec_latest_height(),
            r is Ok ==> final(self).spec_latest_height() >= height,
    ;

    /// Verify that the given runtime header is valid at the given consensus
    /// layer block and return the consensus layer state accessor for that
    /// block. This also verifies that the state is fresh.
    fn verify(
        &mut self,
        consensus_block: LightBlock,
        runtime_header: Header,
        epoch: EpochTime,
    ) -> (r: Result<ConsensusState, Error>)
        requires
            old(self).wf(),
        ensures
            final(self).wf(),
            final(self).spec_latest_height() >= old(self).spec_latest_height(),
            r is Ok <==> old(self).spec_verify_accepts(consensus_block, runtime_header, epoch),
            r matches Ok(s) ==> state_matches_block(s, consensus_block),
    ;

    /// Verify that the given runtime header is valid at the given consensus
    /// layer block and return the consensus layer state accessor for that
    /// block. This is a relaxed version of `verify` for verifying state in
    /// queries: it never relaxes the chain-of-custody check, only
    /// freshness.
    fn verify_for_query(
        &mut self,
        consensus_block: LightBlock,
        runtime_header: Header,
        epoch: EpochTime,
    ) -> (r: Result<ConsensusState, Error>)
        requires
            old(self).wf(),
        ensures
            final(self).wf(),
            final(self).spec_latest_height() >= old(self).spec_latest_height(),
            r is Ok <==> old(self).spec_query_accepts(consensus_block, runtime_header),
            r matches Ok(s) ==> state_matches_block(s, consensus_block),
    ;

    /// Return the consensus layer state accessor for the given consensus
    /// layer block WITHOUT performing any verification. Only for operations
    /// that do not require integrity guarantees.
    fn unverified_state(&self, consensus_block: LightBlock) -> (r: Result<ConsensusState, Error>)
        requires
            self.wf(),
        ensures
            r matches Ok(s) && state_matches_block(s, consensus_block),
    ;

    /// Return the latest verified consensus layer state.
    ///
    /// The state is not re-checked for freshness; use
    /// `verify_state_freshness` manually if needed.
    fn latest_state(&self) -> (r: Result<ConsensusState, Error>)
        requires
            self.wf(),
        ensures
            r matches Ok(s) ==> s.height == self.spec_latest_height(),
    ;

    /// Return the verified consensus layer state for a given height.
    ///
    /// The state is not re-checked for freshness; use
    /// `verify_state_freshness` manually if needed.
    fn state_at(&self, height: u64) -> (r: Result<ConsensusState, Error>)
        requires
            self.wf(),
        ensures
            r matches Ok(s) ==> s.height == height && height <= self.spec_latest_height(),
    ;

    /// Return the latest known consensus layer height.
    fn latest_height(&self) -> (r: Result<u64, Error>)
        requires
            self.wf(),
        ensures
            r matches Ok(h) && h == self.spec_latest_height(),
    ;

    /// Record the given locally computed, and thus already trusted, results
    /// header as a trust fact. The watermark is unaffected.
    fn trust(&mut self, header: &ComputeResultsHeader) -> (r: Result<(), Error>)
        requires
            old(self).wf(),
        ensures
            final(self).wf(),
            final(self).spec_latest_height() == old(self).spec_latest_height(),
    ;
}

/// The node identifier freshness verification resolves to, or `None` when
/// it must fail: with a cached identifier, that exact node must still be in
/// the registry and still match the enclave's identity; without one, the
/// first registry node whose TEE measurement matches is taken.
pub open spec fn spec_freshness_result(
    nodes: Seq<crate::consensus::NodeRecord>,
    runtime_id: Namespace,
    rak: Rak,
    version: Version,
    node_id: Option<PublicKey>,
) -> Option<PublicKey> {
    match node_id {
        Some(id) => match spec_find_node(nodes, id) {
            Some(n) => if n.spec_has_tee(rak, runtime_id, version) {
                Some(id)
            } else {
                None
            },
            None => None,
        },
        None => spec_first_tee_match(nodes, rak, runtime_id, version),
    }
}

/// A cached node identifier whose registry record still matches the
/// enclave's identity is confirmed as it stands: freshness resolves to the
/// very same identifier, whatever other nodes the registry holds — the
/// cached path never falls back to a scan.
pub proof fn lemma_freshness_cached_confirms(
    nodes: Seq<crate::consensus::NodeRecord>,
    runtime_id: Namespace,
    rak: Rak,
    version: Version,
    id: PublicKey,
)
    requires
        spec_find_node(nodes, id) matches Some(n) && n.spec_has_tee(rak, runtime_id, version),
    ensures
        spec_freshness_result(nodes, runtime_id, rak, version, Some(id)) == Some(id),
{
}

/// A stale cache is a hard failure: when the cached node is gone from the
/// registry, or its recorded measurement no longer matches, freshness
/// resolves to nothing — even when other registry nodes would match a
/// scan.
pub proof fn lemma_freshness_stale_cache_fails(
    nodes: Seq<crate::consensus::NodeRecord>,
    runtime_id: Namespace,
    rak: Rak,
    version: Version,
    id: PublicKey,
)
    requires
        match spec_find_node(nodes, id) {
            Some(n) => !n.spec_has_tee(rak, runtime_id, version),
            None => true,
        },
    ensures
        spec_freshness_result(nodes, runtime_id, rak, version, Some(id)) is None,
{
}

/// Verify consensus layer state freshness based on our internal state:
/// resolve the node this runtime is executing on and confirm the registry
/// still records a TEE measurement matching our own identity.
///
/// Returns the node ID of the node where this runtime is executing. The
/// same node ID may be passed in order to optimize discovery for subsequent
/// runs: a cached identifier is re-checked against the current registry
/// state and never triggers a full scan; a stale cache is a hard failure.
pub fn verify_state_freshness(
    state: &ConsensusState,
    trust_root: &TrustRoot,
    rak: &Rak,
    version: &Version,
    node_id: &Option<PublicKey>,
) -> (r: Result<Option<PublicKey>, Error>)
    ensures
        r is Ok <==> spec_freshness_result(
            state.nodes@,
            trust_root.runtime_id,
            *rak,
            *version,
            *node_id,
        ) is Some,
        r matches Ok(found) ==> found == spec_freshness_result(
            state.nodes@,
            trust_root.runtime_id,
            *rak,
            *version,
            *node_id,
        ) && found is Some,
        r matches Err(e) ==> e is VerificationFailed,
{
    match *node_id {
        // Node ID is cached, query the node and check for a matching RAK.
        Some(id) => {
            let node = match state.registry_node(&id) {
                Some(node) => node,
                None => {
                    return Err(
                        Error::VerificationFailed(
                            "own node ID not found in registry state".to_owned(),
                        ),
                    );
                },
            };
            if !node.has_tee(rak, &trust_root.runtime_id, version) {
                return Err(
                    Error::VerificationFailed("own RAK not found in registry state".to_owned()),
                );
            }
            Ok(Some(id))
        },
        // Node ID not cached, need to scan all registry nodes.
        None => {
            let nodes = state.registry_nodes();
            let ghost all = state.nodes@;
            let mut i: usize = 0;
            while i < nodes.len()
                invariant
                    i <= nodes.len(),
                    nodes@ == all,
                    all == state.nodes@,
                    (*node_id) is None,
                    spec_first_tee_match(all, *rak, trust_root.runtime_id, *version)
                        == crate::consensus::tee_match_from(
                        all,
                        *rak,
                        trust_root.runtime_id,
                        *version,
                        i as int,
                    ),
                decreases nodes.len() - i,
            {
                if nodes[i].has_tee(rak, &trust_root.runtime_id, version) {
                    proof {
                        assert(crate::consensus::tee_match_from(
                            all,
                            *rak,
                            trust_root.runtime_id,
                            *version,
                            i as int,
                        ) == Some(all[i as int].id));
                    }
                    // Cache this node ID to avoid re-scanning next time.
                    return Ok(Some(nodes[i].id));
                }
                i = i + 1;
            }
            proof {
                assert(crate::consensus::tee_match_from(
                    all,
                    *rak,
                    trust_root.runtime_id,
                    *version,
                    all.len() as int,
                ) is None);
            }
            Err(Error::VerificationFailed("own RAK not found in registry state".to_owned()))
        },
    }
}

} // verus!
