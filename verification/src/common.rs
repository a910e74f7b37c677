//! Common identity and version types shared by the verifier and the
//! key-manager trust boundary.

use vstd::prelude::*;

verus! {

/// An Ed25519-style public key, modelled by its 64-bit fingerprint.
#[derive(Clone, Copy, Debug, PartialEq, Eq, Structural)]
pub struct PublicKey(pub u64);

/// A fixed-size runtime namespace identifier, modelled by its 64-bit value.
#[derive(Clone, Copy, Debug, PartialEq, Eq, Structural)]
pub struct Namespace(pub u64);

/// A software version.
#[derive(Clone, Copy, Debug, PartialEq, Eq, Structural)]
pub struct Version {
    pub major: u16,
    pub minor: u16,
    pub patch: u16,
}

/// The runtime attestation key: the identity key of the currently executing
/// enclave, as reported through attestation.
#[derive(Clone, Copy, Debug, PartialEq, Eq, Structural)]
pub struct Rak {
    pub public_key: PublicKey,
}

} // verus!
