//! The one random capability the game needs: a uniform draw below a bound.

use vstd::prelude::*;
use rand::Rng;

verus! {

/// Relies on rand: `Rng::gen_range(0..bound)` on the thread-local generator
/// samples uniformly from the range, so the result is strictly below `bound`.
/// It panics on an empty range, which `1 <= bound` rules out. Nothing more is
/// assumed of the draw: every caller must be correct for every outcome.
#[verifier::external_body]
pub(crate) fn rand_below(bound: usize) -> (r: usize)
    requires
        1 <= bound,
    ensures
        r < bound,
{
    rand::thread_rng().gen_range(0..bound)
}

} // verus!
