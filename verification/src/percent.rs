//! Percentages held exactly.
//!
//! An elapsed share of a time unit is a quotient of two whole numbers of
//! seconds. It is kept as that quotient, so that nothing is rounded before
//! the value is drawn.

use vstd::prelude::*;

verus! {

/// A number of percent, held exactly as `numerator / denominator`.
#[derive(Clone, Copy, Debug, PartialEq, Eq, Structural)]
pub struct Percent {
    pub numerator: u64,
    pub denominator: u64,
}

impl Percent {
    /// A percentage has a value only over a denominator that is not zero.
    pub open spec fn wf(self) -> bool {
        self.denominator > 0
    }

    /// The number of percent that `self` stands for.
    pub open spec fn value(self) -> real
        recommends
            self.wf(),
    {
        self.numerator as real / self.denominator as real
    }

    /// The percentage `numerator / denominator`; `None` exactly when the
    /// denominator is zero.
    pub fn new(numerator: u64, denominator: u64) -> (r: Option<Percent>)
        ensures
            r.is_some() <==> denominator > 0,
            r matches Some(p) ==> p.numerator == numerator && p.denominator == denominator
                && p.wf(),
    {
        if denominator > 0 {
            Some(Percent { numerator, denominator })
        } else {
            None
        }
    }
}

} // verus!
