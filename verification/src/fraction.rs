//! Exact ratios of integers, for observables that are means.

use vstd::prelude::*;

verus! {

/// The ratio `numerator / denominator`, kept exact. The denominator of a
/// fraction that this library hands out is positive.
#[derive(Clone, Copy, Debug, PartialEq, Eq, Structural)]
pub struct Fraction {
    pub numerator: i128,
    pub denominator: i128,
}

impl Fraction {
    /// Whether the fraction is the whole number `n`.
    pub open spec fn is_whole(self, n: int) -> bool {
        self.denominator > 0 && self.numerator == n * self.denominator
    }
}

} // verus!
