//! A test-double implementation of the `Verifier` contract: it accepts
//! every block and hands out a fabricated, injected consensus state, so
//! that consumers of the contract can be exercised deterministically.

use vstd::prelude::*;

use crate::consensus::{
    state_matches_block, state_of, ComputeResultsHeader, ConsensusState, EpochTime, Header,
    LightBlock,
};
use crate::verification::{Error, Verifier};

verus! {

/// A verifier double that performs no verification at all: every block is
/// accepted, and the accessors serve the injected state.
pub struct MockVerifier {
    /// The fabricated state served by the accessors.
    pub state: ConsensusState,
    /// The latest locally-computed trust fact, stored as the production
    /// implementation would.
    pub trusted: Option<ComputeResultsHeader>,
}

impl MockVerifier {
    /// A double serving the given fabricated state.
    pub fn new(state: ConsensusState) -> (r: Self)
        ensures
            r.wf(),
            r.state.height == state.height,
            r.state.epoch == state.epoch,
            r.state.nodes@ == state.nodes@,
            r.trusted is None,
    {
        MockVerifier { state, trusted: None }
    }
}

impl Verifier for MockVerifier {
    open spec fn wf(&self) -> bool {
        true
    }

    open spec fn spec_latest_height(&self) -> u64 {
        self.state.height
    }

    open spec fn spec_verify_accepts(&self, block: LightBlock, header: Header, epoch: EpochTime) -> bool {
        true
    }

    open spec fn spec_query_accepts(&self, block: LightBlock, header: Header) -> bool {
        true
    }

    proof fn lemma_verify_implies_query(&self, block: LightBlock, header: Header, epoch: EpochTime) {
    }

    /// Pretend to synchronize: the watermark simply jumps to the requested
    /// height.
    fn sync(&mut self, height: u64) -> (r: Result<(), Error>)
        ensures
            r is Ok,
            final(self).state.height == (if height > old(self).state.height {
                height
            } else {
                old(self).state.height
            }),
            final(self).state.epoch == old(self).state.epoch,
            final(self).state.nodes@ == old(self).state.nodes@,
            final(self).trusted == old(self).trusted,
    {
        if height > self.state.height {
            self.state.height = height;
        }
        Ok(())
    }

    /// Accept unconditionally and hand out the block's own state.
    fn verify(
        &mut self,
        consensus_block: LightBlock,
        runtime_header: Header,
        epoch: EpochTime,
    ) -> (r: Result<ConsensusState, Error>) {
        Ok(state_of(&consensus_block))
    }

    /// Accept unconditionally and hand out the block's own state.
    fn verify_for_query(
        &mut self,
        consensus_block: LightBlock,
        runtime_header: Header,
        epoch: EpochTime,
    ) -> (r: Result<ConsensusState, Error>) {
        Ok(state_of(&consensus_block))
    }

    fn unverified_state(&self, consensus_block: LightBlock) -> (r: Result<ConsensusState, Error>) {
        Ok(state_of(&consensus_block))
    }

    /// Serve the injected state.
    fn latest_state(&self) -> (r: Result<ConsensusState, Error>)
        ensures
            r is Ok,
            r matches Ok(s) ==> s.epoch == self.state.epoch && s.nodes@ == self.state.nodes@,
    {
        Ok(self.state.clone())
    }

    /// Serve the injected state when its height is asked for.
    fn state_at(&self, height: u64) -> (r: Result<ConsensusState, Error>)
        ensures
            r is Ok <==> height == self.state.height,
            r matches Err(e) ==> e is Internal,
    {
        if height == self.state.height {
            Ok(self.state.clone())
        } else {
            Err(Error::Internal)
        }
    }

    fn latest_height(&self) -> (r: Result<u64, Error>) {
        Ok(self.state.height)
    }

    /// Record trust facts with the same monotonic discipline as the
    /// production implementation.
    fn trust(&mut self, header: &ComputeResultsHeader) -> (r: Result<(), Error>)
        ensures
            match old(self).trusted {
                None => r is Ok && final(self).trusted == Some(*header),
                Some(t) => {
                    if header.round > t.round {
                        r is Ok && final(self).trusted == Some(*header)
                    } else if header.round < t.round || *header == t {
                        r is Ok && final(self).trusted == old(self).trusted
                    } else {
                        (r matches Err(e) && e is Internal) && final(self).trusted == old(
                            self,
                        ).trusted
                    }
                },
            },
    {
        match self.trusted {
            None => {
                self.trusted = Some(*header);
                Ok(())
            },
            Some(t) => {
                if header.round > t.round {
                    self.trusted = Some(*header);
                    Ok(())
                } else if header.round < t.round {
                    Ok(())
                } else if header.previous_hash == t.previous_hash && header.io_root == t.io_root
                    && header.state_root == t.state_root {
                    Ok(())
                } else {
                    Err(Error::Internal)
                }
            },
        }
    }
}

} // verus!
