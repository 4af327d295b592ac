//! The crate's single source of randomness: a thin trusted wrapper over the
//! `rand` crate.  Everything downstream of a draw is verified for every value
//! the wrapper can hand back, so only the range of the draw is relied on.

use vstd::prelude::*;

verus! {

/// Relies on `rand::Rng::gen_range` over the inclusive range `lo..=hi` on the
/// thread-local generator: it panics on an empty range (excluded by the
/// precondition) and otherwise returns a uniformly distributed value inside
/// the range.  Only membership in the range is relied on; nothing is assumed
/// about which value comes back.
#[verifier::external_body]
pub fn rand_i64_in(lo: i64, hi: i64) -> (r: i64)
    requires
        lo <= hi,
    ensures
        lo <= r <= hi,
{
    rand::Rng::gen_range(&mut rand::thread_rng(), lo..=hi)
}

} // verus!
