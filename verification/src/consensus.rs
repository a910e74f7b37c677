//! Consensus-layer data model: light blocks, runtime headers, registry node
//! records, and the height-addressed state accessor handed out by the
//! verifier.

use vstd::prelude::*;

use crate::common::{Namespace, PublicKey, Rak, Version};

verus! {

/// A consensus epoch number.
pub type EpochTime = u64;

/// A runtime block header, as committed into consensus-layer state. Digests
/// are modelled by their 64-bit values.
#[derive(Clone, Copy, Debug, PartialEq, Eq, Structural)]
pub struct Header {
    /// Runtime round number.
    pub round: u64,
    /// Digest of the previous runtime header.
    pub previous_hash: u64,
    /// Digest of the I/O merkle root.
    pub io_root: u64,
    /// Digest of the runtime state root.
    pub state_root: u64,
}

/// A locally-computed, already-trusted summary of a runtime computation,
/// fed into the verifier's trust-accumulation operation.
#[derive(Clone, Copy, Debug, PartialEq, Eq, Structural)]
pub struct ComputeResultsHeader {
    /// Runtime round number.
    pub round: u64,
    /// Digest of the previous runtime header.
    pub previous_hash: u64,
    /// Digest of the I/O merkle root.
    pub io_root: u64,
    /// Digest of the runtime state root.
    pub state_root: u64,
}

/// The TEE measurement a registry entry records for a node: the attestation
/// key it reported, and the runtime and software version it attested for.
#[derive(Clone, Copy, Debug, PartialEq, Eq, Structural)]
pub struct TeeIdentity {
    /// The attestation public key the node reported.
    pub rak: PublicKey,
    /// The runtime the measurement was taken for.
    pub runtime_id: Namespace,
    /// The software version the measurement corresponds to.
    pub version: Version,
}

/// A consensus registry record for one node.
#[derive(Clone, Copy, Debug, PartialEq, Eq)]
pub struct NodeRecord {
    /// The node's identifier.
    pub id: PublicKey,
    /// The TEE measurement recorded for the node, if it registered one.
    pub tee: Option<TeeIdentity>,
}

impl NodeRecord {
    /// Whether this record's TEE measurement corresponds to the given
    /// attestation key, runtime, and software version. This predicate is the
    /// attestation boundary: the single place that couples a
    /// registry-declared measurement to the enclave's own identity.
    pub open spec fn spec_has_tee(self, rak: Rak, runtime_id: Namespace, version: Version) -> bool {
        match self.tee {
            Some(t) => t.rak == rak.public_key && t.runtime_id == runtime_id && t.version
                == version,
            None => false,
        }
    }

    /// The attestation predicate: does this record match the given identity?
    pub fn has_tee(&self, rak: &Rak, runtime_id: &Namespace, version: &Version) -> (r: bool)
        ensures
            r == self.spec_has_tee(*rak, *runtime_id, *version),
    {
        match self.tee {
            Some(t) => t.rak.0 == rak.public_key.0 && t.runtime_id.0 == runtime_id.0
                && t.version.major == version.major && t.version.minor == version.minor
                && t.version.patch == version.patch,
            None => false,
        }
    }
}

/// A consensus-layer block header as seen by the light client. The state
/// committed by the block is carried in place of its merkle root: the model
/// treats the root digest as binding the snapshot it commits.
#[derive(Debug)]
pub struct LightBlock {
    /// Consensus height of this block.
    pub height: u64,
    /// Digest of this block's header.
    pub hash: u64,
    /// Digest of the previous block's header.
    pub previous_hash: u64,
    /// Consensus epoch this block belongs to.
    pub epoch: EpochTime,
    /// The runtime header committed into consensus state at this height.
    pub committed: Header,
    /// The registry node records committed at this height.
    pub nodes: Vec<NodeRecord>,
}

/// Field-wise equality of two light blocks, with the registry snapshot
/// compared element-wise.
pub open spec fn block_matches(a: LightBlock, b: LightBlock) -> bool {
    &&& a.height == b.height
    &&& a.hash == b.hash
    &&& a.previous_hash == b.previous_hash
    &&& a.epoch == b.epoch
    &&& a.committed == b.committed
    &&& a.nodes@ == b.nodes@
}

/// Copy a registry snapshot record by record.
pub fn copy_nodes(v: &Vec<NodeRecord>) -> (r: Vec<NodeRecord>)
    ensures
        r@ == v@,
{
    let mut r: Vec<NodeRecord> = Vec::new();
    let mut i: usize = 0;
    while i < v.len()
        invariant
            i <= v.len(),
            r@ == v@.subrange(0, i as int),
        decreases v.len() - i,
    {
        r.push(v[i]);
        i = i + 1;
        proof {
            assert(r@ =~= v@.subrange(0, i as int));
        }
    }
    proof {
        assert(v@.subrange(0, v@.len() as int) =~= v@);
    }
    r
}

impl Clone for LightBlock {
    /// A copy equal field by field to the original.
    fn clone(&self) -> (res: Self)
        ensures
            block_matches(res, *self),
    {
        LightBlock {
            height: self.height,
            hash: self.hash,
            previous_hash: self.previous_hash,
            epoch: self.epoch,
            committed: self.committed,
            nodes: copy_nodes(&self.nodes),
        }
    }
}

/// Exact equality test of two light blocks, registry snapshots included.
pub fn light_block_eq(a: &LightBlock, b: &LightBlock) -> (r: bool)
    ensures
        r == block_matches(*a, *b),
{
    if !(a.height == b.height && a.hash == b.hash && a.previous_hash == b.previous_hash && a.epoch
        == b.epoch && a.committed == b.committed) {
        return false;
    }
    if a.nodes.len() != b.nodes.len() {
        return false;
    }
    let mut i: usize = 0;
    while i < a.nodes.len()
        invariant
            i <= a.nodes.len(),
            a.nodes@.len() == b.nodes@.len(),
            forall|j: int| 0 <= j < i ==> a.nodes@[j] == b.nodes@[j],
        decreases a.nodes.len() - i,
    {
        let x = a.nodes[i];
        let y = b.nodes[i];
        let same = match (x.tee, y.tee) {
            (Some(t), Some(u)) => x.id.0 == y.id.0 && t.rak.0 == u.rak.0 && t.runtime_id.0
                == u.runtime_id.0 && t.version == u.version,
            (None, None) => x.id.0 == y.id.0,
            _ => false,
        };
        if !same {
            return false;
        }
        i = i + 1;
    }
    proof {
        assert(a.nodes@ =~= b.nodes@);
    }
    true
}

/// An opaque, height-addressed accessor into consensus-layer application
/// state, obtained through the verifier after successful verification of
/// the block it derives from, or explicitly through the unverified path.
#[derive(Debug)]
pub struct ConsensusState {
    /// The consensus height the snapshot was taken at.
    pub height: u64,
    /// The consensus epoch at that height.
    pub epoch: EpochTime,
    /// The registry node records at that height.
    pub nodes: Vec<NodeRecord>,
}

/// The state accessor derived from a light block.
pub open spec fn spec_state_of(b: LightBlock) -> ConsensusState {
    ConsensusState { height: b.height, epoch: b.epoch, nodes: b.nodes }
}

/// Whether a state accessor is the one a given light block commits.
pub open spec fn state_matches_block(s: ConsensusState, b: LightBlock) -> bool {
    s.height == b.height && s.epoch == b.epoch && s.nodes@ == b.nodes@
}

/// Derive the state accessor a light block commits.
pub fn state_of(b: &LightBlock) -> (s: ConsensusState)
    ensures
        state_matches_block(s, *b),
{
    ConsensusState { height: b.height, epoch: b.epoch, nodes: copy_nodes(&b.nodes) }
}

impl Clone for ConsensusState {
    /// A copy equal field by field to the original.
    fn clone(&self) -> (res: Self)
        ensures
            res.height == self.height,
            res.epoch == self.epoch,
            res.nodes@ == self.nodes@,
    {
        ConsensusState { height: self.height, epoch: self.epoch, nodes: copy_nodes(&self.nodes) }
    }
}

/// First registry record with the given node identifier, scanning from
/// index `i`.
pub open spec fn find_node_from(nodes: Seq<NodeRecord>, id: PublicKey, i: int) -> Option<NodeRecord>
    decreases nodes.len() - i,
{
    if i < 0 || i >= nodes.len() {
        None
    } else if nodes[i].id == id {
        Some(nodes[i])
    } else {
        find_node_from(nodes, id, i + 1)
    }
}

/// First registry record with the given node identifier.
pub open spec fn spec_find_node(nodes: Seq<NodeRecord>, id: PublicKey) -> Option<NodeRecord> {
    find_node_from(nodes, id, 0)
}

/// Identifier of the first registry record whose TEE measurement matches the
/// given identity, scanning from index `i`.
pub open spec fn tee_match_from(
    nodes: Seq<NodeRecord>,
    rak: Rak,
    runtime_id: Namespace,
    version: Version,
    i: int,
) -> Option<PublicKey>
    decreases nodes.len() - i,
{
    if i < 0 || i >= nodes.len() {
        None
    } else if nodes[i].spec_has_tee(rak, runtime_id, version) {
        Some(nodes[i].id)
    } else {
        tee_match_from(nodes, rak, runtime_id, version, i + 1)
    }
}

/// Identifier of the first registry record whose TEE measurement matches the
/// given identity.
pub open spec fn spec_first_tee_match(
    nodes: Seq<NodeRecord>,
    rak: Rak,
    runtime_id: Namespace,
    version: Version,
) -> Option<PublicKey> {
    tee_match_from(nodes, rak, runtime_id, version, 0)
}

impl ConsensusState {
    /// Registry read-only query: the record for one node identifier, or
    /// `None` when the registry holds no such node.
    pub fn registry_node(&self, id: &PublicKey) -> (r: Option<NodeRecord>)
        ensures
            r == spec_find_node(self.nodes@, *id),
    {
        let mut i: usize = 0;
        while i < self.nodes.len()
            invariant
                i <= self.nodes.len(),
                spec_find_node(self.nodes@, *id) == find_node_from(self.nodes@, *id, i as int),
            decreases self.nodes.len() - i,
        {
            if self.nodes[i].id.0 == id.0 {
                return Some(self.nodes[i]);
            }
            i = i + 1;
        }
        None
    }

    /// Registry read-only query: all node records, in registry order.
    pub fn registry_nodes(&self) -> (r: &Vec<NodeRecord>)
        ensures
            r@ == self.nodes@,
    {
        &self.nodes
    }
}

} // verus!
