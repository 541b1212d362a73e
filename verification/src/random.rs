//! Random placeholder values.

use rand::Rng;
use vstd::prelude::*;

verus! {

/// Draws a number from `0` up to, not including, `upper`.
///
/// Trusted, not proved: the body asks `rand::thread_rng` for the thread's generator and calls
/// `Rng::gen_range` on the range `0..upper`. That call panics on an empty range, which
/// the precondition rules out, and otherwise samples the range, so all that is claimed
/// of the number drawn is that it lies in the range. Two calls may differ.
#[verifier::external_body]
pub(crate) fn random_below(upper: u32) -> (drawn: u32)
    requires
        upper > 0,
    ensures
        drawn < upper,
{
    rand::thread_rng().gen_range(0..upper)
}

} // verus!
