//! Wire-visible error representation.

use vstd::prelude::*;

verus! {

/// An error as surfaced to RPC callers: a module name, a small stable
/// numeric code, and a human-readable message. The module/code pair is the
/// wire-visible error taxonomy and must stay stable for client
/// compatibility.
pub struct Error {
    pub module: String,
    pub code: u32,
    pub message: String,
}

} // verus!
