//! The production consensus verifier: a light client that advances a chain
//! of verified headers from the trust anchor, one height at a time.
//!
//! The sync transport is an external collaborator: it fetches candidate
//! blocks and hands them in through `add_block`; every decision about them
//! is made here.

use vstd::prelude::*;

use crate::common::{PublicKey, Rak, Version};
use crate::consensus::{
    block_matches, state_matches_block, state_of, ComputeResultsHeader, ConsensusState, EpochTime,
    Header, LightBlock,
};
use crate::hex::{parse_hex64, spec_parse_hex64};
use crate::verification::{
    spec_freshness_result, verify_state_freshness, Error, TrustRoot, Verifier,
};

verus! {

/// The production implementation of the `Verifier` contract.
///
/// It holds the verified chain from the trust anchor upward at consecutive
/// heights, a pool of candidate blocks handed in by the sync transport, the
/// single-slot node identity cache, and the latest locally-computed trust
/// fact.
pub struct LightClientVerifier {
    /// The immutable trust anchor.
    pub trust_root: TrustRoot,
    /// The enclave's own runtime attestation key.
    pub rak: Rak,
    /// The running software version.
    pub version: Version,
    /// Single-slot cache: the last node identifier confirmed fresh.
    pub node_id: Option<PublicKey>,
    /// The verified chain: consecutive heights starting at the anchor.
    pub verified: Vec<LightBlock>,
    /// Candidate blocks handed in by the transport, not yet verified.
    pub pending: Vec<LightBlock>,
    /// The strongest locally-computed trust fact recorded so far.
    pub trusted: Option<ComputeResultsHeader>,
}

impl LightClientVerifier {
    /// Internal invariant of the verified chain: heights are consecutive
    /// from the anchor height, the first block carries the anchor digest,
    /// and every later block links to its predecessor by digest.
    pub open spec fn inv(&self) -> bool {
        &&& forall|i: int|
            0 <= i < self.verified@.len() ==> (#[trigger] self.verified@[i]).height
                == self.trust_root.height + i
        &&& self.verified@.len() > 0 ==> self.trust_root.height > 0
        &&& self.verified@.len() > 0 ==> spec_parse_hex64(self.trust_root.hash@) == Some(
            self.verified@[0].hash,
        )
        &&& forall|i: int|
            1 <= i < self.verified@.len() ==> (#[trigger] self.verified@[i]).previous_hash
                == self.verified@[i - 1].hash
    }

    /// The watermark: the anchor height until a block is verified, then the
    /// height of the newest verified block.
    pub open spec fn spec_latest(&self) -> u64 {
        if self.verified@.len() == 0 {
            self.trust_root.height
        } else {
            self.verified@.last().height
        }
    }

    /// A block directly extends the verified chain: the anchor block itself
    /// when nothing is verified yet, or the next height linking to the
    /// newest verified block.
    pub open spec fn spec_extends(&self, b: LightBlock) -> bool {
        if self.verified@.len() == 0 {
            b.height == self.trust_root.height && spec_parse_hex64(self.trust_root.hash@) == Some(
                b.hash,
            )
        } else {
            b.height == self.spec_latest() + 1 && b.previous_hash == self.verified@.last().hash
        }
    }

    /// A block is already on the verified chain, field for field.
    pub open spec fn spec_known(&self, b: LightBlock) -> bool {
        &&& self.trust_root.height <= b.height
        &&& b.height < self.trust_root.height + self.verified@.len()
        &&& block_matches(b, self.verified@[b.height - self.trust_root.height])
    }

    /// Chain of custody: the block either is on the verified chain or
    /// extends it.
    pub open spec fn spec_chain_ok(&self, b: LightBlock) -> bool {
        self.spec_known(b) || self.spec_extends(b)
    }

    /// Consistency with the accumulated trust fact: a header at the round
    /// of a locally-computed result must agree with it.
    pub open spec fn spec_trusted_ok(&self, h: Header) -> bool {
        match self.trusted {
            Some(t) => h.round == t.round ==> (h.previous_hash == t.previous_hash && h.io_root
                == t.io_root && h.state_root == t.state_root),
            None => true,
        }
    }

    /// Acceptance on the relaxed, query-time path: an anchor is configured
    /// and parsable, the block chains back to it, it commits exactly the
    /// claimed runtime header, and the header does not contradict a trust
    /// fact. Freshness is not required here.
    pub open spec fn spec_accepts_query(&self, b: LightBlock, h: Header) -> bool {
        &&& self.trust_root.height > 0
        &&& spec_parse_hex64(self.trust_root.hash@) is Some
        &&& self.spec_chain_ok(b)
        &&& b.committed == h
        &&& self.spec_trusted_ok(h)
    }

    /// Acceptance on the strict path: everything the query path checks,
    /// and in addition the state is fresh: the block's epoch is the
    /// current one and the registry still records a TEE measurement
    /// matching our own identity.
    pub open spec fn spec_accepts_verify(&self, b: LightBlock, h: Header, epoch: EpochTime) -> bool {
        &&& self.spec_accepts_query(b, h)
        &&& b.epoch == epoch
        &&& spec_freshness_result(
            b.nodes@,
            self.trust_root.runtime_id,
            self.rak,
            self.version,
            self.node_id,
        ) is Some
    }

    /// The next height `sync` has to verify: the anchor height itself
    /// while nothing is verified, then the height just above the
    /// watermark.
    pub open spec fn spec_sync_start(&self) -> int {
        if self.verified@.len() == 0 {
            self.trust_root.height as int
        } else {
            self.spec_latest() + 1
        }
    }

    /// How a candidate block must chain: by the anchor digest at the
    /// anchor height, to the verified tip just above the watermark, and
    /// to the pending candidate one height below everywhere else.
    pub open spec fn spec_pending_links(&self, b: LightBlock) -> bool {
        if b.height == self.trust_root.height {
            spec_parse_hex64(self.trust_root.hash@) == Some(b.hash)
        } else if self.verified@.len() > 0 && b.height == self.spec_latest() + 1 {
            b.previous_hash == self.verified@.last().hash
        } else {
            forall|j: int|
                0 <= j < self.pending@.len() && (#[trigger] self.pending@[j]).height + 1
                    == b.height ==> b.previous_hash == self.pending@[j].hash
        }
    }

    /// The pending pool holds exactly one candidate for height `h`, and
    /// it chains correctly.
    pub open spec fn spec_rung(&self, h: int) -> bool {
        &&& exists|i: int|
            0 <= i < self.pending@.len() && (#[trigger] self.pending@[i]).height == h
        &&& forall|i: int, j: int|
            0 <= i < self.pending@.len() && 0 <= j < self.pending@.len() && (
            #[trigger] self.pending@[i]).height == h && (#[trigger] self.pending@[j]).height == h
                ==> i == j
        &&& forall|i: int|
            0 <= i < self.pending@.len() && (#[trigger] self.pending@[i]).height == h
                ==> self.spec_pending_links(self.pending@[i])
    }

    /// The pending pool holds a full, unambiguous path of verified
    /// headers up to `height`: a usable anchor, and for every height from
    /// the next one to be verified up to `height` exactly one candidate,
    /// chaining to its predecessor. On such a pool `sync` is obliged to
    /// succeed.
    pub open spec fn spec_pending_path(&self, height: u64) -> bool {
        &&& self.trust_root.height > 0
        &&& spec_parse_hex64(self.trust_root.hash@) is Some
        &&& forall|h: int| self.spec_sync_start() <= h <= height ==> #[trigger] self.spec_rung(h)
    }

    /// A new verifier anchored at the given trust root, bound to the
    /// enclave's own attestation key and software version. Nothing is
    /// verified yet and the node identity cache is empty.
    pub fn new(trust_root: TrustRoot, rak: Rak, version: Version) -> (r: Self)
        ensures
            r.inv(),
            r.trust_root == trust_root,
            r.rak == rak,
            r.version == version,
            r.node_id is None,
            r.verified@.len() == 0,
            r.pending@.len() == 0,
            r.trusted is None,
    {
        LightClientVerifier {
            trust_root,
            rak,
            version,
            node_id: None,
            verified: Vec::new(),
            pending: Vec::new(),
            trusted: None,
        }
    }

    /// Hand in a candidate block fetched by the sync transport. No
    /// decision is taken here; `sync` verifies candidates when asked to
    /// advance.
    pub fn add_block(&mut self, block: LightBlock)
        requires
            old(self).inv(),
        ensures
            final(self).inv(),
            final(self).pending@ == old(self).pending@.push(block),
            final(self).verified@ == old(self).verified@,
            final(self).trust_root == old(self).trust_root,
            final(self).rak == old(self).rak,
            final(self).version == old(self).version,
            final(self).node_id == old(self).node_id,
            final(self).trusted == old(self).trusted,
    {
        self.pending.push(block);
    }

    /// The current watermark value.
    fn latest_val(&self) -> (h: u64)
        requires
            self.inv(),
        ensures
            h == self.spec_latest(),
    {
        if self.verified.len() == 0 {
            self.trust_root.height
        } else {
            self.verified[self.verified.len() - 1].height
        }
    }

    /// Does the block directly extend the verified chain? `anchor` is the
    /// parsed trust-root digest.
    fn extends_chain(&self, b: &LightBlock, anchor: u64) -> (r: bool)
        requires
            self.inv(),
            spec_parse_hex64(self.trust_root.hash@) == Some(anchor),
        ensures
            r == self.spec_extends(*b),
    {
        if self.verified.len() == 0 {
            b.height == self.trust_root.height && b.hash == anchor
        } else {
            let last = &self.verified[self.verified.len() - 1];
            if last.height == u64::MAX {
                false
            } else {
                b.height == last.height + 1 && b.previous_hash == last.hash
            }
        }
    }

    /// Chain-of-custody and consistency checks shared by the strict and
    /// the query path: anchor present, block on or extending the verified
    /// chain, committed header equal to the claimed one, trust facts
    /// respected. On success the block is absorbed if it extends the
    /// chain, and its state accessor is returned. Nothing is mutated on
    /// failure.
    fn accept_block(&mut self, block: LightBlock, header: &Header) -> (r: Result<
        ConsensusState,
        Error,
    >)
        requires
            old(self).inv(),
        ensures
            final(self).inv(),
            final(self).trust_root == old(self).trust_root,
            final(self).rak == old(self).rak,
            final(self).version == old(self).version,
            final(self).node_id == old(self).node_id,
            final(self).trusted == old(self).trusted,
            final(self).pending@ == old(self).pending@,
            final(self).spec_latest() >= old(self).spec_latest(),
            r is Ok <==> old(self).spec_accepts_query(block, *header),
            r matches Ok(s) ==> state_matches_block(s, block),
            r is Ok && old(self).spec_extends(block) ==> final(self).verified@ == old(
                self,
            ).verified@.push(block),
            r is Ok && !old(self).spec_extends(block) ==> final(self).verified@ == old(
                self,
            ).verified@,
            r is Err ==> final(self).verified@ == old(self).verified@,
            old(self).trust_root.height == 0 ==> (r matches Err(e) && e is TrustRootLoadingFailed),
            old(self).trust_root.height > 0 && spec_parse_hex64(old(self).trust_root.hash@)
                is None ==> (r matches Err(e) && e is Builder),
            old(self).trust_root.height > 0 && spec_parse_hex64(old(self).trust_root.hash@)
                is Some && r is Err ==> (r matches Err(e) && e is VerificationFailed),
    {
        if self.trust_root.height == 0 {
            return Err(Error::TrustRootLoadingFailed);
        }
        let anchor = match parse_hex64(self.trust_root.hash.as_str()) {
            Some(a) => a,
            None => {
                return Err(
                    Error::Builder("trust root hash is not a hex-encoded digest".to_owned()),
                );
            },
        };
        // Chain of custody: the block must be on the verified chain or
        // extend it.
        let mut extend = false;
        if self.verified.len() == 0 {
            if !(block.height == self.trust_root.height && block.hash == anchor) {
                return Err(
                    Error::VerificationFailed(
                        "block does not chain back to the trust root".to_owned(),
                    ),
                );
            }
            extend = true;
        } else if block.height >= self.trust_root.height && block.height - self.trust_root.height
            < self.verified.len() as u64 {
            let idx = (block.height - self.trust_root.height) as usize;
            if !crate::consensus::light_block_eq(&self.verified[idx], &block) {
                return Err(
                    Error::VerificationFailed(
                        "block conflicts with already verified block".to_owned(),
                    ),
                );
            }
        } else {
            let last_ok = self.extends_chain(&block, anchor);
            if !last_ok {
                return Err(
                    Error::VerificationFailed(
                        "block does not chain back to the trust root".to_owned(),
                    ),
                );
            }
            extend = true;
        }
        // The consensus block must commit exactly the claimed runtime
        // header.
        if !(block.committed == *header) {
            return Err(
                Error::VerificationFailed(
                    "runtime header does not match the state committed in the consensus block".to_owned(),
                ),
            );
        }
        // The header must not contradict a locally-computed trust fact.
        let trusted_ok = match self.trusted {
            Some(t) => !(header.round == t.round) || (header.previous_hash == t.previous_hash
                && header.io_root == t.io_root && header.state_root == t.state_root),
            None => true,
        };
        if !trusted_ok {
            return Err(
                Error::VerificationFailed(
                    "runtime header conflicts with a trusted compute results header".to_owned(),
                ),
            );
        }
        let state = state_of(&block);
        if extend {
            self.verified.push(block);
        }
        Ok(state)
    }
}

/// One step of the progress argument for `sync`: absorbing the pool's
/// unique candidate for the next height keeps the pool a full path for
/// the heights that remain.
proof fn lemma_pending_path_step(
    pre: LightClientVerifier,
    post: LightClientVerifier,
    chosen: int,
    height: u64,
)
    requires
        pre.inv(),
        pre.spec_pending_path(height),
        pre.spec_latest() < height,
        0 <= chosen < pre.pending@.len(),
        pre.spec_extends(pre.pending@[chosen]),
        post.trust_root == pre.trust_root,
        post.pending@ == pre.pending@,
        post.verified@.len() == pre.verified@.len() + 1,
        post.verified@.last().height == pre.pending@[chosen].height,
        post.verified@.last().hash == pre.pending@[chosen].hash,
    ensures
        post.spec_pending_path(height),
{
    let b = pre.pending@[chosen];
    if pre.verified@.len() > 0 {
        assert(pre.verified@[pre.verified@.len() - 1].height == pre.trust_root.height + (
        pre.verified@.len() - 1));
    }
    assert(pre.spec_sync_start() == b.height);
    assert(b.height >= pre.trust_root.height);
    assert(post.spec_latest() == b.height);
    assert forall|h: int| post.spec_sync_start() <= h <= height implies post.spec_rung(h) by {
        assert(h > b.height);
        assert(pre.spec_rung(h));
        // Chaining carries over: the pool is unchanged, and the one
        // candidate the watermark now rests on is the block absorbed.
        assert forall|i: int|
            0 <= i < post.pending@.len() && (#[trigger] post.pending@[i]).height
                == h implies post.spec_pending_links(post.pending@[i]) by {
            let c = pre.pending@[i];
            assert(post.pending@[i] == c);
            assert(pre.spec_pending_links(c));
            assert(c.height > pre.trust_root.height);
            if h == b.height + 1 {
                assert(pre.pending@[chosen].height + 1 == c.height);
                assert(c.previous_hash == pre.pending@[chosen].hash);
                assert(post.verified@.last().hash == b.hash);
                assert(post.spec_pending_links(c));
            } else {
                assert forall|j: int|
                    0 <= j < post.pending@.len() && (#[trigger] post.pending@[j]).height + 1
                        == c.height implies c.previous_hash == post.pending@[j].hash by {
                    assert(pre.pending@[j] == post.pending@[j]);
                };
                assert(post.spec_pending_links(c));
            }
        }
        assert(exists|i: int|
            0 <= i < post.pending@.len() && (#[trigger] post.pending@[i]).height == h) by {
            let w = choose|i: int|
                0 <= i < pre.pending@.len() && (#[trigger] pre.pending@[i]).height == h;
            assert(0 <= w < post.pending@.len() && post.pending@[w].height == h);
        };
        assert forall|i: int, j: int|
            0 <= i < post.pending@.len() && 0 <= j < post.pending@.len() && (
            #[trigger] post.pending@[i]).height == h && (#[trigger] post.pending@[j]).height
                == h implies i == j by {
            assert(pre.pending@[i].height == h);
            assert(pre.pending@[j].height == h);
        };
    }
}

/// The relaxation of the query path is freshness-only. Whatever the
/// strict path accepts, the query path accepts; whatever the query path
/// rejects — a chain-of-custody break, a header inconsistency, a
/// trust-fact conflict — the strict path rejects too; and on state the
/// query path accepts, the strict path asks for exactly the two freshness
/// facts more: the current epoch and a registry node matching our own
/// identity.
pub proof fn lemma_query_relaxes_only_freshness(
    v: LightClientVerifier,
    b: LightBlock,
    h: Header,
    epoch: EpochTime,
)
    ensures
        v.spec_accepts_verify(b, h, epoch) ==> v.spec_accepts_query(b, h),
        !v.spec_accepts_query(b, h) ==> !v.spec_accepts_verify(b, h, epoch),
        v.spec_accepts_query(b, h) && b.epoch == epoch && spec_freshness_result(
            b.nodes@,
            v.trust_root.runtime_id,
            v.rak,
            v.version,
            v.node_id,
        ) is Some ==> v.spec_accepts_verify(b, h, epoch),
{
}

impl Verifier for LightClientVerifier {
    open spec fn wf(&self) -> bool {
        self.inv()
    }

    open spec fn spec_latest_height(&self) -> u64 {
        self.spec_latest()
    }

    open spec fn spec_verify_accepts(&self, block: LightBlock, header: Header, epoch: EpochTime) -> bool {
        self.spec_accepts_verify(block, header, epoch)
    }

    open spec fn spec_query_accepts(&self, block: LightBlock, header: Header) -> bool {
        self.spec_accepts_query(block, header)
    }

    proof fn lemma_verify_implies_query(&self, block: LightBlock, header: Header, epoch: EpochTime) {
    }

    /// Advance the watermark to `height` by verifying candidate blocks
    /// from the pending pool, one height at a time. Succeeds exactly when
    /// the watermark reaches `height`; partial progress is kept, and the
    /// pool is obliged to be used: on a pool holding an unambiguous path
    /// of candidates up to `height`, sync succeeds. The pool itself is
    /// left as it is — an absorbed height can never match again.
    fn sync(&mut self, height: u64) -> (r: Result<(), Error>)
        ensures
            final(self).trust_root == old(self).trust_root,
            final(self).rak == old(self).rak,
            final(self).version == old(self).version,
            final(self).node_id == old(self).node_id,
            final(self).trusted == old(self).trusted,
            final(self).pending@ == old(self).pending@,
            r is Ok <==> final(self).spec_latest() >= height,
            old(self).spec_pending_path(height) ==> r is Ok,
            old(self).verified@.is_prefix_of(final(self).verified@),
            height <= old(self).spec_latest() ==> final(self).verified@ == old(self).verified@,
            height > old(self).spec_latest() && old(self).trust_root.height == 0 ==> (r matches
            Err(e) && e is TrustRootLoadingFailed),
            height > old(self).spec_latest() && old(self).trust_root.height > 0
                && spec_parse_hex64(old(self).trust_root.hash@) is None ==> (r matches Err(e)
                && e is Builder),
            r is Err && old(self).trust_root.height > 0 && spec_parse_hex64(
                old(self).trust_root.hash@,
            ) is Some ==> (r matches Err(e) && e is Internal),
    {
        let mut cur = self.latest_val();
        if height <= cur {
            return Ok(());
        }
        if self.trust_root.height == 0 {
            return Err(Error::TrustRootLoadingFailed);
        }
        let anchor = match parse_hex64(self.trust_root.hash.as_str()) {
            Some(a) => a,
            None => {
                return Err(
                    Error::Builder("trust root hash is not a hex-encoded digest".to_owned()),
                );
            },
        };
        while cur < height
            invariant
                self.inv(),
                cur == self.spec_latest(),
                self.trust_root == old(self).trust_root,
                self.rak == old(self).rak,
                self.version == old(self).version,
                self.node_id == old(self).node_id,
                self.trusted == old(self).trusted,
                self.pending@ == old(self).pending@,
                self.spec_latest() >= old(self).spec_latest(),
                old(self).verified@.is_prefix_of(self.verified@),
                self.trust_root.height > 0,
                spec_parse_hex64(self.trust_root.hash@) == Some(anchor),
                old(self).spec_pending_path(height) ==> self.spec_pending_path(height),
            decreases height - self.trust_root.height + 1 - self.verified@.len(),
        {
            let ghost pre = *self;
            // Look for a pending candidate that extends the chain.
            let n = self.pending.len();
            let mut chosen: usize = n;
            let mut j: usize = 0;
            while j < n
                invariant
                    self.inv(),
                    spec_parse_hex64(self.trust_root.hash@) == Some(anchor),
                    j <= n,
                    n == self.pending@.len(),
                    chosen <= n,
                    chosen < n ==> self.spec_extends(self.pending@[chosen as int]),
                    chosen == n ==> forall|k: int|
                        0 <= k < j ==> !(#[trigger] self.spec_extends(self.pending@[k])),
                decreases n - j,
            {
                if chosen == n {
                    if self.extends_chain(&self.pending[j], anchor) {
                        chosen = j;
                    }
                }
                j = j + 1;
            }
            if chosen == n {
                proof {
                    // A pool holding a full path always has an extending
                    // candidate for the next height, so this branch is
                    // unreachable under that obligation.
                    if old(self).spec_pending_path(height) {
                        let next = self.spec_sync_start();
                        if self.verified@.len() > 0 {
                            assert(self.verified@[self.verified@.len() - 1].height
                                == self.trust_root.height + (self.verified@.len() - 1));
                        }
                        assert(next <= height);
                        assert(self.spec_rung(next));
                        let i = choose|i: int|
                            0 <= i < self.pending@.len() && (#[trigger] self.pending@[i]).height
                                == next;
                        assert(self.spec_pending_links(self.pending@[i]));
                        assert(self.spec_extends(self.pending@[i]));
                        assert(false);
                    }
                }
                // No verified path forward: cannot make progress.
                return Err(Error::Internal);
            }
            let b = self.pending[chosen].clone();
            let h = b.height;
            proof {
                assert(self.spec_extends(b));
            }
            self.verified.push(b);
            proof {
                if old(self).spec_pending_path(height) {
                    lemma_pending_path_step(pre, *self, chosen as int, height);
                }
            }
            cur = h;
        }
        Ok(())
    }

    /// The strict verification path: chain of custody back to the anchor,
    /// header consistency with the committed state, trust-fact
    /// consistency, and state freshness at the current epoch. On success
    /// the node identity cache is refreshed with the resolved node.
    fn verify(
        &mut self,
        consensus_block: LightBlock,
        runtime_header: Header,
        epoch: EpochTime,
    ) -> (r: Result<ConsensusState, Error>)
        ensures
            final(self).trust_root == old(self).trust_root,
            final(self).rak == old(self).rak,
            final(self).version == old(self).version,
            final(self).trusted == old(self).trusted,
            final(self).pending@ == old(self).pending@,
            old(self).spec_accepts_query(consensus_block, runtime_header) && old(
                self,
            ).spec_extends(consensus_block) ==> final(self).verified@ == old(
                self,
            ).verified@.push(consensus_block),
            !(old(self).spec_accepts_query(consensus_block, runtime_header) && old(
                self,
            ).spec_extends(consensus_block)) ==> final(self).verified@ == old(self).verified@,
            r is Ok ==> final(self).node_id == spec_freshness_result(
                consensus_block.nodes@,
                old(self).trust_root.runtime_id,
                old(self).rak,
                old(self).version,
                old(self).node_id,
            ) && final(self).node_id is Some,
            r is Err ==> final(self).node_id == old(self).node_id,
            old(self).trust_root.height == 0 ==> (r matches Err(e) && e is TrustRootLoadingFailed),
            old(self).trust_root.height > 0 && spec_parse_hex64(old(self).trust_root.hash@)
                is None ==> (r matches Err(e) && e is Builder),
            r is Err && old(self).trust_root.height > 0 && spec_parse_hex64(
                old(self).trust_root.hash@,
            ) is Some ==> (r matches Err(e) && e is VerificationFailed),
    {
        let state = match self.accept_block(consensus_block, &runtime_header) {
            Ok(s) => s,
            Err(e) => {
                return Err(e);
            },
        };
        // Freshness: the verified state must belong to the current epoch.
        if state.epoch != epoch {
            return Err(Error::VerificationFailed("state is stale: epoch mismatch".to_owned()));
        }
        // Freshness: the registry at this state must still record a node
        // whose TEE measurement matches our own identity.
        let found = match verify_state_freshness(
            &state,
            &self.trust_root,
            &self.rak,
            &self.version,
            &self.node_id,
        ) {
            Ok(found) => found,
            Err(e) => {
                return Err(e);
            },
        };
        // Cache the resolved node identifier for the next freshness check.
        self.node_id = found;
        Ok(state)
    }

    /// The relaxed path for queries: identical chain-of-custody and
    /// consistency checks, with the freshness requirement dropped. The
    /// node identity cache is left untouched.
    fn verify_for_query(
        &mut self,
        consensus_block: LightBlock,
        runtime_header: Header,
        epoch: EpochTime,
    ) -> (r: Result<ConsensusState, Error>)
        ensures
            final(self).trust_root == old(self).trust_root,
            final(self).rak == old(self).rak,
            final(self).version == old(self).version,
            final(self).node_id == old(self).node_id,
            final(self).trusted == old(self).trusted,
            final(self).pending@ == old(self).pending@,
            r is Ok && old(self).spec_extends(consensus_block) ==> final(self).verified@ == old(
                self,
            ).verified@.push(consensus_block),
            r is Ok && !old(self).spec_extends(consensus_block) ==> final(self).verified@ == old(
                self,
            ).verified@,
            r is Err ==> final(self).verified@ == old(self).verified@,
            old(self).trust_root.height == 0 ==> (r matches Err(e) && e is TrustRootLoadingFailed),
            old(self).trust_root.height > 0 && spec_parse_hex64(old(self).trust_root.hash@)
                is None ==> (r matches Err(e) && e is Builder),
            r is Err && old(self).trust_root.height > 0 && spec_parse_hex64(
                old(self).trust_root.hash@,
            ) is Some ==> (r matches Err(e) && e is VerificationFailed),
    {
        let _ = epoch;
        self.accept_block(consensus_block, &runtime_header)
    }

    /// A state accessor with no integrity guarantee whatsoever: the block
    /// is taken at its word. Only for operations that accept that risk.
    fn unverified_state(&self, consensus_block: LightBlock) -> (r: Result<ConsensusState, Error>) {
        Ok(state_of(&consensus_block))
    }

    /// The most recently verified state. Fails with `Internal` while no
    /// block has been verified yet.
    fn latest_state(&self) -> (r: Result<ConsensusState, Error>)
        ensures
            r is Ok <==> self.verified@.len() > 0,
            r matches Ok(s) ==> state_matches_block(s, self.verified@.last()),
            r matches Err(e) ==> e is Internal,
    {
        if self.verified.len() == 0 {
            return Err(Error::Internal);
        }
        Ok(state_of(&self.verified[self.verified.len() - 1]))
    }

    /// The verified state at an exact height. Fails with `Internal` when
    /// that height has not been verified.
    fn state_at(&self, height: u64) -> (r: Result<ConsensusState, Error>)
        ensures
            r is Ok <==> self.verified@.len() > 0 && self.trust_root.height <= height
                && height < self.trust_root.height + self.verified@.len(),
            r matches Ok(s) ==> state_matches_block(
                s,
                self.verified@[height - self.trust_root.height],
            ),
            r matches Err(e) ==> e is Internal,
    {
        if self.verified.len() == 0 || height < self.trust_root.height || height
            - self.trust_root.height >= self.verified.len() as u64 {
            return Err(Error::Internal);
        }
        let idx = (height - self.trust_root.height) as usize;
        Ok(state_of(&self.verified[idx]))
    }

    /// The watermark. Never fails on this implementation.
    fn latest_height(&self) -> (r: Result<u64, Error>) {
        Ok(self.latest_val())
    }

    /// Record a locally-computed results header as a trust fact,
    /// monotonically: a newer round replaces the fact, an older or equal
    /// round is a no-op, and a conflicting fact at the same round is a
    /// hard `Internal` error — ambiguous facts never silently overwrite
    /// stronger ones.
    fn trust(&mut self, header: &ComputeResultsHeader) -> (r: Result<(), Error>)
        ensures
            final(self).trust_root == old(self).trust_root,
            final(self).rak == old(self).rak,
            final(self).version == old(self).version,
            final(self).node_id == old(self).node_id,
            final(self).verified@ == old(self).verified@,
            final(self).pending@ == old(self).pending@,
            match old(self).trusted {
                None => r is Ok && final(self).trusted == Some(*header),
                Some(t) => {
                    if header.round > t.round {
                        r is Ok && final(self).trusted == Some(*header)
                    } else if header.round < t.round || *header == t {
                        r is Ok && final(self).trusted == old(self).trusted
                    } else {
                        (r matches Err(e) && e is Internal) && final(self).trusted == old(
                            self,
                        ).trusted
                    }
                },
            },
    {
        match self.trusted {
            None => {
                self.trusted = Some(*header);
                Ok(())
            },
            Some(t) => {
                if header.round > t.round {
                    self.trusted = Some(*header);
                    Ok(())
                } else if header.round < t.round {
                    Ok(())
                } else if header.previous_hash == t.previous_hash && header.io_root == t.io_root
                    && header.state_root == t.state_root {
                    Ok(())
                } else {
                    Err(Error::Internal)
                }
            },
        }
    }
}

} // verus!
