use vstd::prelude::*;

use rand::RngExt;
use rand::rngs::StdRng;

verus! {

/// The game's seeded random generator, rand's `StdRng`, carried through
/// opaquely.
#[verifier::external_type_specification]
#[verifier::external_body]
pub struct ExStdRng(StdRng);

/// rand's `RngExt::random_range` on the exclusive range `lo..hi` of `usize`.
/// Trusted: rand documents that it panics on an empty range (so `lo < hi` is
/// required) and that the sample lies in the range. Which value comes out
/// depends on the generator's state; nothing more is claimed.
#[verifier::external_body]
pub(crate) fn random_index(rng: &mut StdRng, lo: usize, hi: usize) -> (r: usize)
    requires
        lo < hi,
    ensures
        lo <= r < hi,
{
    rng.random_range(lo..hi)
}

/// rand's `RngExt::random_ratio`: a coin that shows `true` with probability
/// `numerator / denominator`. Trusted: rand documents that it panics when
/// `denominator == 0` or `numerator > denominator` (both excluded), that it
/// always gives `true` when the two are equal and always `false` when the
/// numerator is zero. Otherwise the outcome is left open.
#[verifier::external_body]
pub(crate) fn random_ratio(rng: &mut StdRng, numerator: u32, denominator: u32) -> (r: bool)
    requires
        0 < denominator,
        numerator <= denominator,
    ensures
        numerator == denominator ==> r,
        numerator == 0 ==> !r,
{
    rng.random_ratio(numerator, denominator)
}

} // verus!
