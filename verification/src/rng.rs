//! The one random draw the engine makes, behind a trusted boundary.

use rand::Rng;
use vstd::prelude::*;

verus! {

/// Relies on rand's `Rng::random_range` on the thread-local generator, over
/// the inclusive range `lo..=hi`: a non-empty range is sampled uniformly and
/// the draw lies within its bounds. Nothing more is assumed of the outcome,
/// so callers must hold for every value in the range.
#[verifier::external_body]
pub fn rand_u64_inclusive(lo: u64, hi: u64) -> (r: u64)
    requires
        lo <= hi,
    ensures
        lo <= r <= hi,
{
    rand::rng().random_range(lo..=hi)
}

} // verus!
