//! Trust-establishment core for a confidential-computing runtime.
//!
//! The crate decides two questions for code running inside a hardware
//! trusted-execution environment: whether a remote consensus-layer state
//! snapshot is authentic and fresh enough to rely on, and whether an RPC
//! caller is entitled to invoke sensitive key-management operations. Both
//! reduce to checking a claimed fact against a chain of evidence rooted in a
//! pre-agreed trust anchor.

pub mod common;
pub mod consensus;
pub mod dispatcher;
pub mod hex;
pub mod kdf;
pub mod keymanager;
pub mod light_client;
pub mod mock;
pub mod policy;
pub mod types;
pub mod verification;
