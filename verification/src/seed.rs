//! Per-frame random seeds.

use vstd::prelude::*;

verus! {

/// Draws a seed with `rand::random::<u32>()`, which samples the thread-local
/// generator of the `rand` crate.
///
/// Trusted: the body is not verified. Nothing is claimed about the value, so
/// callers are proved correct for every seed that may come back.
#[verifier::external_body]
pub(crate) fn random_seed() -> (seed: u32) {
    rand::random::<u32>()
}

} // verus!
