//! The random draws the lattice makes, each a single call into `rand`.
//!
//! Nothing here is proved: each contract repeats what `rand` documents of the
//! call, and a draw is never assumed to repeat.

use rand::Rng;
use vstd::prelude::*;

verus! {

/// A fair coin: `rand::Rng::gen::<bool>` on the thread's generator.
/// Nothing is claimed of the outcome.
#[verifier::external_body]
pub(crate) fn coin() -> bool {
    rand::thread_rng().gen::<bool>()
}

/// A uniform draw from `0..bound`: `rand::Rng::gen_range` on the thread's
/// generator. The call panics on an empty range, so `bound` must be positive;
/// the draw then lies in the range.
#[verifier::external_body]
pub(crate) fn below(bound: isize) -> (r: isize)
    requires
        bound > 0,
    ensures
        0 <= r < bound,
{
    rand::thread_rng().gen_range(0..bound)
}

/// A draw that is `true` with chance `numerator / denominator`:
/// `rand::Rng::gen_ratio` on the thread's generator. The call panics on a zero
/// denominator or a ratio above one. `rand` documents that equal numerator and
/// denominator always give `true` and that a zero numerator always gives
/// `false`; of the ratios between, nothing is claimed.
#[verifier::external_body]
pub(crate) fn ratio(numerator: u32, denominator: u32) -> (r: bool)
    requires
        denominator > 0,
        numerator <= denominator,
    ensures
        numerator == denominator ==> r,
        numerator == 0 ==> !r,
{
    rand::thread_rng().gen_ratio(numerator, denominator)
}

} // verus!
