//! Scenario tests for the consensus verifier: trust-root gating, header
//! consistency, freshness relaxation, watermark monotonicity, and the
//! freshness verifier's cache behaviour.

use trust_core::common::{Namespace, PublicKey, Rak, Version};
use trust_core::consensus::{
    ComputeResultsHeader, ConsensusState, Header, LightBlock, NodeRecord, TeeIdentity,
};
use trust_core::hex::parse_hex64;
use trust_core::light_client::LightClientVerifier;
use trust_core::mock::MockVerifier;
use trust_core::verification::{verify_state_freshness, Error, TrustRoot, Verifier};

const RUNTIME: u64 = 9;
const OWN_RAK: u64 = 77;

fn version() -> Version {
    Version { major: 1, minor: 2, patch: 3 }
}

fn rak() -> Rak {
    Rak { public_key: PublicKey(OWN_RAK) }
}

fn matching_node(id: u64) -> NodeRecord {
    NodeRecord {
        id: PublicKey(id),
        tee: Some(TeeIdentity {
            rak: PublicKey(OWN_RAK),
            runtime_id: Namespace(RUNTIME),
            version: version(),
        }),
    }
}

fn other_node(id: u64) -> NodeRecord {
    NodeRecord {
        id: PublicKey(id),
        tee: Some(TeeIdentity {
            rak: PublicKey(id + 1000),
            runtime_id: Namespace(RUNTIME),
            version: version(),
        }),
    }
}

fn header(round: u64) -> Header {
    Header { round, previous_hash: 11, io_root: 22, state_root: 33 }
}

fn block(height: u64, hash: u64, previous_hash: u64, epoch: u64, committed: Header) -> LightBlock {
    LightBlock {
        height,
        hash,
        previous_hash,
        epoch,
        committed,
        nodes: vec![other_node(1), matching_node(2)],
    }
}

fn root() -> TrustRoot {
    TrustRoot {
        height: 100,
        hash: "00000000000000aa".to_string(),
        runtime_id: Namespace(RUNTIME),
    }
}

fn anchored_verifier() -> LightClientVerifier {
    LightClientVerifier::new(root(), rak(), version())
}

fn err_code<T>(r: Result<T, Error>) -> u32 {
    match r {
        Err(e) => e.code(),
        Ok(_) => panic!("expected an error"),
    }
}

#[test]
fn hex_parsing() {
    assert_eq!(parse_hex64("00000000000000aa"), Some(0xaa));
    assert_eq!(parse_hex64("00000000000000AA"), Some(0xaa));
    assert_eq!(parse_hex64("ffffffffffffffff"), Some(u64::MAX));
    assert_eq!(parse_hex64("0123456789abcdef"), Some(0x0123456789abcdef));
    assert_eq!(parse_hex64("aa"), None);
    assert_eq!(parse_hex64(""), None);
    assert_eq!(parse_hex64("00000000000000ag"), None);
    assert_eq!(parse_hex64("00000000000000aa0"), None);
}

#[test]
fn error_taxonomy_is_stable() {
    assert_eq!(Error::Builder("x".to_string()).code(), 1);
    assert_eq!(Error::VerificationFailed("y".to_string()).code(), 2);
    assert_eq!(Error::TrustRootLoadingFailed.code(), 3);
    assert_eq!(Error::Internal.code(), 4);
    assert_eq!(Error::Builder("x".to_string()).message(), "builder: x");
    assert_eq!(Error::VerificationFailed("y".to_string()).message(), "verification: y");
    assert_eq!(Error::TrustRootLoadingFailed.message(), "trust root loading failed");
    assert_eq!(Error::Internal.message(), "internal consensus verifier error");
    let wire = Error::TrustRootLoadingFailed.to_wire();
    assert_eq!(wire.module, "verifier");
    assert_eq!(wire.code, 3);
    assert_eq!(wire.message, "trust root loading failed");
}

#[test]
fn trust_root_hash_gates_verification() {
    // A block at the anchor height whose hash differs from the anchor
    // must be rejected as a verification failure.
    let mut v = anchored_verifier();
    let h = header(1);
    let bad = block(100, 0xbb, 0, 5, h);
    assert_eq!(err_code(v.verify(bad, h, 5)), 2);

    // The identical block carrying the anchor hash must be accepted.
    let mut v = anchored_verifier();
    let good = block(100, 0xaa, 0, 5, h);
    let state = v.verify(good, h, 5).expect("anchor block must verify");
    assert_eq!(state.height, 100);
    assert_eq!(v.latest_height().unwrap(), 100);
}

#[test]
fn unconfigured_trust_root_fails_closed() {
    let mut v = LightClientVerifier::new(
        TrustRoot {
            height: 0,
            hash: "00000000000000aa".to_string(),
            runtime_id: Namespace(RUNTIME),
        },
        rak(),
        version(),
    );
    let h = header(1);
    assert_eq!(err_code(v.verify(block(100, 0xaa, 0, 5, h), h, 5)), 3);
    v.add_block(block(100, 0xaa, 0, 5, h));
    assert_eq!(err_code(v.sync(100)), 3);
}

#[test]
fn malformed_trust_root_hash_is_a_builder_failure() {
    let mut v = LightClientVerifier::new(
        TrustRoot {
            height: 100,
            hash: "not-a-hex-digest".to_string(),
            runtime_id: Namespace(RUNTIME),
        },
        rak(),
        version(),
    );
    let h = header(1);
    assert_eq!(err_code(v.verify(block(100, 0xaa, 0, 5, h), h, 5)), 1);
}

#[test]
fn verify_rejects_mismatched_runtime_header() {
    // Round trip: a header committed by the block verifies against that
    // same block.
    let committed = header(7);
    let mut v = anchored_verifier();
    assert!(v.verify(block(100, 0xaa, 0, 5, committed), committed, 5).is_ok());

    // Mutating any single field of the claimed header makes verification
    // fail.
    let mutations = [
        Header { round: 8, ..committed },
        Header { previous_hash: 12, ..committed },
        Header { io_root: 23, ..committed },
        Header { state_root: 34, ..committed },
    ];
    for wrong in mutations {
        let mut v = anchored_verifier();
        assert_eq!(err_code(v.verify(block(100, 0xaa, 0, 5, committed), wrong, 5)), 2);
    }
}

#[test]
fn query_path_relaxes_only_freshness() {
    let h = header(1);
    // Stale epoch: the strict path rejects, the query path accepts.
    let mut v = anchored_verifier();
    assert_eq!(err_code(v.verify(block(100, 0xaa, 0, 5, h), h, 6)), 2);
    let mut v = anchored_verifier();
    let state = v
        .verify_for_query(block(100, 0xaa, 0, 5, h), h, 6)
        .expect("query path accepts stale state");
    assert_eq!(state.epoch, 5);

    // No registry node matches our identity: strict rejects, query accepts.
    let mut v = anchored_verifier();
    let mut stale = block(100, 0xaa, 0, 5, h);
    stale.nodes = vec![other_node(1), other_node(2)];
    assert_eq!(err_code(v.verify(stale, h, 5)), 2);
    let mut v = anchored_verifier();
    let mut stale = block(100, 0xaa, 0, 5, h);
    stale.nodes = vec![other_node(1), other_node(2)];
    assert!(v.verify_for_query(stale, h, 5).is_ok());

    // A chain-of-custody break is rejected on both paths.
    let mut v = anchored_verifier();
    assert_eq!(err_code(v.verify(block(100, 0xbb, 0, 5, h), h, 5)), 2);
    let mut v = anchored_verifier();
    assert_eq!(err_code(v.verify_for_query(block(100, 0xbb, 0, 5, h), h, 5)), 2);

    // A trust-fact conflict is a consistency ground: rejected on both
    // paths as well.
    let fact = ComputeResultsHeader { round: 1, previous_hash: 99, io_root: 22, state_root: 33 };
    let mut v = anchored_verifier();
    v.trust(&fact).unwrap();
    assert_eq!(err_code(v.verify(block(100, 0xaa, 0, 5, h), h, 5)), 2);
    let mut v = anchored_verifier();
    v.trust(&fact).unwrap();
    assert_eq!(err_code(v.verify_for_query(block(100, 0xaa, 0, 5, h), h, 5)), 2);

    // The relaxed path never touches the node identity cache.
    let mut v = anchored_verifier();
    assert!(v.verify_for_query(block(100, 0xaa, 0, 5, h), h, 5).is_ok());
    assert_eq!(v.node_id, None);
}

#[test]
fn sync_advances_watermark_monotonically() {
    let mut v = anchored_verifier();
    assert_eq!(v.latest_height().unwrap(), 100);
    // Heights already reached are a no-op.
    assert!(v.sync(50).is_ok());
    assert_eq!(v.latest_height().unwrap(), 100);

    let h = header(1);
    v.add_block(block(100, 0xaa, 0, 5, h));
    v.add_block(block(101, 0xab, 0xaa, 5, h));
    v.add_block(block(102, 0xac, 0xab, 6, h));
    assert!(v.sync(101).is_ok());
    let reached = v.latest_height().unwrap();
    assert!(reached >= 101);
    assert!(v.sync(102).is_ok());
    assert!(v.latest_height().unwrap() >= 102);
    // Idempotent for reached heights; the watermark never regresses.
    assert!(v.sync(101).is_ok());
    assert_eq!(v.latest_height().unwrap(), 102);
    // No path of verified headers to 110: Internal, partial progress kept.
    assert_eq!(err_code(v.sync(110)), 4);
    assert_eq!(v.latest_height().unwrap(), 102);
}

#[test]
fn sync_uses_the_pool_and_tolerates_strays() {
    // A pool holding one verifiable candidate per height must be used:
    // sync is obliged to succeed, stray candidates notwithstanding.
    let mut v = anchored_verifier();
    let h = header(1);
    v.add_block(block(500, 0x55, 0x54, 5, h)); // stray, far above the target
    v.add_block(block(100, 0xaa, 0, 5, h));
    v.add_block(block(101, 0xab, 0xaa, 5, h));
    assert!(v.sync(101).is_ok());
    assert_eq!(v.latest_height().unwrap(), 101);
    // The pool keeps its candidates; an absorbed height never matches
    // again, and later syncs continue from the watermark.
    v.add_block(block(102, 0xac, 0xab, 6, h));
    assert!(v.sync(102).is_ok());
    assert_eq!(v.latest_height().unwrap(), 102);
}

#[test]
fn sync_refuses_gaps_and_wrong_links() {
    let mut v = anchored_verifier();
    let h = header(1);
    // A candidate with the wrong anchor hash cannot start the chain.
    v.add_block(block(100, 0xbb, 0, 5, h));
    v.add_block(block(101, 0xab, 0xbb, 5, h));
    assert_eq!(err_code(v.sync(101)), 4);
    assert_eq!(v.latest_height().unwrap(), 100);
    // A candidate that does not link to its predecessor is not taken.
    let mut v = anchored_verifier();
    v.add_block(block(100, 0xaa, 0, 5, h));
    v.add_block(block(101, 0xab, 0xdead, 5, h));
    assert_eq!(err_code(v.sync(101)), 4);
    assert_eq!(v.latest_height().unwrap(), 100);
}

#[test]
fn state_accessors_serve_verified_heights() {
    let mut v = anchored_verifier();
    let h = header(1);
    v.add_block(block(100, 0xaa, 0, 5, h));
    v.add_block(block(101, 0xab, 0xaa, 6, h));
    // Nothing verified yet.
    assert_eq!(err_code(v.latest_state()), 4);
    assert!(v.sync(101).is_ok());
    let latest = v.latest_state().unwrap();
    assert_eq!(latest.height, 101);
    assert_eq!(latest.epoch, 6);
    let at = v.state_at(100).unwrap();
    assert_eq!(at.height, 100);
    assert_eq!(at.epoch, 5);
    assert_eq!(err_code(v.state_at(99)), 4);
    assert_eq!(err_code(v.state_at(102)), 4);
}

#[test]
fn unverified_state_carries_no_checks() {
    let v = anchored_verifier();
    let h = header(1);
    // A block that could never verify still yields an accessor here.
    let state = v.unverified_state(block(7, 0xdead, 0xbeef, 1, h)).unwrap();
    assert_eq!(state.height, 7);
    assert_eq!(state.epoch, 1);
}

#[test]
fn verify_is_idempotent_for_verified_blocks() {
    let mut v = anchored_verifier();
    let h = header(1);
    assert!(v.verify(block(100, 0xaa, 0, 5, h), h, 5).is_ok());
    // The same block again: accepted against the stored chain.
    assert!(v.verify(block(100, 0xaa, 0, 5, h), h, 5).is_ok());
    assert_eq!(v.latest_height().unwrap(), 100);
    // A different block claiming the same height conflicts.
    assert_eq!(err_code(v.verify(block(100, 0xaa, 0, 6, h), h, 6)), 2);
}

#[test]
fn trust_facts_are_monotonic() {
    let mut v = anchored_verifier();
    let fact5 = ComputeResultsHeader { round: 5, previous_hash: 1, io_root: 2, state_root: 3 };
    assert!(v.trust(&fact5).is_ok());
    // An older fact is a no-op.
    let fact4 = ComputeResultsHeader { round: 4, previous_hash: 9, io_root: 9, state_root: 9 };
    assert!(v.trust(&fact4).is_ok());
    // The identical fact is a no-op.
    assert!(v.trust(&fact5).is_ok());
    // A conflicting fact at the same round is a hard internal error.
    let conflict = ComputeResultsHeader { round: 5, previous_hash: 1, io_root: 2, state_root: 4 };
    assert_eq!(err_code(v.trust(&conflict)), 4);
    // A newer fact replaces the old one.
    let fact6 = ComputeResultsHeader { round: 6, previous_hash: 4, io_root: 5, state_root: 6 };
    assert!(v.trust(&fact6).is_ok());
}

#[test]
fn verify_honours_trust_facts() {
    let committed = header(7);
    let mut v = anchored_verifier();
    // Trust a conflicting result for round 7, then try to verify a block
    // committing a different header at that round.
    let fact = ComputeResultsHeader { round: 7, previous_hash: 99, io_root: 22, state_root: 33 };
    assert!(v.trust(&fact).is_ok());
    assert_eq!(err_code(v.verify(block(100, 0xaa, 0, 5, committed), committed, 5)), 2);

    // A header agreeing with the trusted fact verifies.
    let agreeing = Header { round: 7, previous_hash: 99, io_root: 22, state_root: 33 };
    let mut v = anchored_verifier();
    assert!(v.trust(&fact).is_ok());
    assert!(v.verify(block(100, 0xaa, 0, 5, agreeing), agreeing, 5).is_ok());
}

#[test]
fn freshness_cached_hit_confirms_without_scan() {
    // Both nodes match; a scan would find node 1 first. With node 2
    // cached, the cached identifier itself is confirmed: no scan ran.
    let state = ConsensusState {
        height: 100,
        epoch: 5,
        nodes: vec![matching_node(1), matching_node(2)],
    };
    let r = verify_state_freshness(&state, &root(), &rak(), &version(), &Some(PublicKey(2)));
    assert_eq!(r.unwrap(), Some(PublicKey(2)));
}

#[test]
fn freshness_scan_finds_the_one_matching_node() {
    let state = ConsensusState {
        height: 100,
        epoch: 5,
        nodes: vec![other_node(1), other_node(2), matching_node(3), other_node(4)],
    };
    let r = verify_state_freshness(&state, &root(), &rak(), &version(), &None);
    assert_eq!(r.unwrap(), Some(PublicKey(3)));
}

#[test]
fn freshness_scan_fails_when_nothing_matches() {
    let state = ConsensusState { height: 100, epoch: 5, nodes: vec![other_node(1), other_node(2)] };
    let r = verify_state_freshness(&state, &root(), &rak(), &version(), &None);
    assert_eq!(err_code(r), 2);
}

#[test]
fn freshness_couples_runtime_identity() {
    // The registry records measurements for a different runtime: even a
    // matching attestation key must not pass.
    let state = ConsensusState { height: 100, epoch: 5, nodes: vec![matching_node(1)] };
    let foreign_root = TrustRoot {
        height: 100,
        hash: "00000000000000aa".to_string(),
        runtime_id: Namespace(8),
    };
    let r = verify_state_freshness(&state, &foreign_root, &rak(), &version(), &None);
    assert_eq!(err_code(r), 2);
    // A wrong software version must not pass either.
    let old_version = Version { major: 1, minor: 2, patch: 2 };
    let r = verify_state_freshness(&state, &root(), &rak(), &old_version, &None);
    assert_eq!(err_code(r), 2);
}

#[test]
fn freshness_stale_cache_is_a_hard_failure() {
    // The cached node's measurement rotated; another node would match a
    // scan, but the stale cache must fail hard, not fall back to
    // scanning.
    let state = ConsensusState {
        height: 100,
        epoch: 5,
        nodes: vec![matching_node(1), other_node(2)],
    };
    let r = verify_state_freshness(&state, &root(), &rak(), &version(), &Some(PublicKey(2)));
    assert_eq!(err_code(r), 2);

    // A cached node missing from the registry fails the same way.
    let state = ConsensusState { height: 100, epoch: 5, nodes: vec![matching_node(1)] };
    let r = verify_state_freshness(&state, &root(), &rak(), &version(), &Some(PublicKey(9)));
    assert_eq!(err_code(r), 2);
}

#[test]
fn verify_refreshes_the_node_identity_cache() {
    let mut v = anchored_verifier();
    let h = header(1);
    assert!(v.node_id.is_none());
    assert!(v.verify(block(100, 0xaa, 0, 5, h), h, 5).is_ok());
    // The scan resolved the first matching node (id 2 in the fixture).
    assert_eq!(v.node_id, Some(PublicKey(2)));
}

#[test]
fn mock_verifier_injects_fabricated_state() {
    let fabricated = ConsensusState { height: 42, epoch: 7, nodes: vec![matching_node(1)] };
    let mut m = MockVerifier::new(fabricated);
    assert_eq!(m.latest_height().unwrap(), 42);
    assert!(m.sync(50).is_ok());
    assert_eq!(m.latest_height().unwrap(), 50);
    // The double accepts what the production verifier would reject.
    let h = header(1);
    assert!(m.verify(block(1, 2, 3, 4, h), h, 9).is_ok());
    assert_eq!(m.latest_state().unwrap().epoch, 7);
    assert!(m.state_at(50).is_ok());
    assert_eq!(err_code(m.state_at(49)), 4);
}

#[test]
fn trust_root_construction() {
    let tr = TrustRoot::default();
    assert_eq!(tr.height, 0);
    assert_eq!(tr.hash, "");
    assert_eq!(tr.runtime_id, Namespace(0));
    let tr = root();
    let copy = tr.clone();
    assert!(copy == tr);
    assert!(copy != TrustRoot::default());
}
