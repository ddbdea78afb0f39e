//! Trusted access to the process-wide random number generator.

use vstd::prelude::*;
use rand::Rng;

verus! {

/// Relies on `rand::thread_rng` and `rand::Rng::gen_range`: a draw from the
/// uniform distribution over `0..bound` is strictly below `bound`. The range
/// must be non-empty, since `gen_range` panics on an empty range. Nothing
/// more is assumed: the draw may differ between two calls on the same bound.
#[verifier::external_body]
pub(crate) fn random_below(bound: usize) -> (r: usize)
    requires
        bound > 0,
    ensures
        r < bound,
{
    rand::thread_rng().gen_range(0..bound)
}

} // verus!
