//! The one source of randomness the library uses: star placement.

use rand::Rng;
use vstd::prelude::*;

verus! {

/// Relies on rand's `Rng::gen_range` over the half-open range `0..n`: for a
/// non-empty range the sample lies in the range (`gen_range` panics on an
/// empty one, which `n >= 1` rules out). Nothing more is assumed of the
/// value; two calls on the same input may differ.
#[verifier::external_body]
pub(crate) fn random_below(n: usize) -> (r: usize)
    requires
        n >= 1,
    ensures
        r < n,
{
    rand::thread_rng().gen_range(0..n)
}

} // verus!
