use vstd::prelude::*;

verus! {

/// Parts per million in one.
pub const PARTS_PER_MILLION: i64 = 1_000_000;

/// An exact quotient `numerator / denominator`, kept as computed (not reduced).
#[derive(Debug, Clone, Copy, PartialEq, Eq, Structural)]
pub struct Quotient {
    pub numerator: i128,
    pub denominator: i128,
}

impl Quotient {
    /// The denominator is not zero.
    pub open spec fn wf(self) -> bool {
        self.denominator != 0
    }

    /// `self` and `other` stand for the same rational number.
    pub open spec fn same_value(self, other: Quotient) -> bool {
        self.numerator * other.denominator == other.numerator * self.denominator
    }

    /// The quotient `numerator / denominator`.
    pub fn new(numerator: i128, denominator: i128) -> (r: Quotient)
        requires
            denominator != 0,
        ensures
            r == (Quotient { numerator, denominator }),
            r.wf(),
    {
        Quotient { numerator, denominator }
    }
}

} // verus!
