//! The registry and its entry points.

use vstd::prelude::*;

verus! {

/// The attestation registry.
///
/// Each entry point works on the ledger as [`crate::env::Env`] shows it. One that
/// acts for an address needs that address to have authorized the request. A
/// request that is refused leaves the ledger as it was.
pub struct TrustLinkContract;

} // verus!
