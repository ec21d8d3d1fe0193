//! A range of numbers, used to bound the distances at which a hit counts.

use vstd::prelude::*;
use crate::scalar::Scalar;

verus! {

/// The numbers from `min` to `max`. Nothing checks that `min` is not above
/// `max`: then the range is empty.
#[derive(Clone, Copy, Debug, PartialEq, Eq, Structural)]
pub struct Interval {
    pub min: Scalar,
    pub max: Scalar,
}

impl Interval {
    /// `min <= num <= max`. No range holds what is no number.
    pub open spec fn spec_contains(&self, num: Scalar) -> bool {
        self.min.at_most(num) && num.at_most(self.max)
    }

    /// `min < num < max`. No range surrounds what is no number.
    pub open spec fn spec_surrounds(&self, num: Scalar) -> bool {
        self.min.below(num) && num.below(self.max)
    }

    /// The range between the two bounds.
    pub fn new(min: Scalar, max: Scalar) -> (r: Interval)
        ensures
            r == (Interval { min, max }),
    {
        Interval { min, max }
    }

    /// Whether `num` lies in the range, the bounds included.
    #[verifier::when_used_as_spec(spec_contains)]
    pub fn contains(&self, num: Scalar) -> (r: bool)
        ensures
            r == self.spec_contains(num),
    {
        num.ge(self.min) && num.le(self.max)
    }

    /// Whether `num` lies in the range, the bounds excluded.
    #[verifier::when_used_as_spec(spec_surrounds)]
    pub fn surrounds(&self, num: Scalar) -> (r: bool)
        ensures
            r == self.spec_surrounds(num),
    {
        num.gt(self.min) && num.lt(self.max)
    }
}

} // verus!
