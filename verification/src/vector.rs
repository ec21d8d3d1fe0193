//! Points, directions and colours: three numbers each.

use vstd::prelude::*;
use crate::scalar::Scalar;

verus! {

/// A point or a direction in space, or a colour by its red, green and blue parts.
#[derive(Clone, Copy, Debug, PartialEq, Eq, Structural)]
pub struct Vec3 {
    pub x: Scalar,
    pub y: Scalar,
    pub z: Scalar,
}

/// Reflectance or radiance per channel: `x` is red, `y` is green, `z` is blue.
pub type Color = Vec3;

impl Vec3 {
    /// Every part negated.
    pub open spec fn negated(self) -> Vec3 {
        Vec3 { x: self.x.negated(), y: self.y.negated(), z: self.z.negated() }
    }

    /// Part by part the greater one, `rhs` where the two do not compare.
    pub open spec fn spec_max(self, rhs: Vec3) -> Vec3 {
        Vec3 {
            x: if rhs.x.below(self.x) { self.x } else { rhs.x },
            y: if rhs.y.below(self.y) { self.y } else { rhs.y },
            z: if rhs.z.below(self.z) { self.z } else { rhs.z },
        }
    }

    /// Part by part the smaller one, `rhs` where the two do not compare.
    pub open spec fn spec_min(self, rhs: Vec3) -> Vec3 {
        Vec3 {
            x: if self.x.below(rhs.x) { self.x } else { rhs.x },
            y: if self.y.below(rhs.y) { self.y } else { rhs.y },
            z: if self.z.below(rhs.z) { self.z } else { rhs.z },
        }
    }

    /// Every part brought into the range from `min` to `max`: raised to `min`
    /// first, then lowered to `max`. A part that is no number becomes `min`.
    pub open spec fn spec_clamp(self, min: Vec3, max: Vec3) -> Vec3 {
        self.spec_max(min).spec_min(max)
    }

    /// All three parts `0.0`: the origin, or black.
    pub open spec fn spec_zero() -> Vec3 {
        Vec3 { x: Scalar::zero(), y: Scalar::zero(), z: Scalar::zero() }
    }

    /// All three parts `1.0`: white, as a reflectance.
    pub open spec fn spec_one() -> Vec3 {
        Vec3 { x: Scalar::one(), y: Scalar::one(), z: Scalar::one() }
    }

    /// All three parts `0.0`: the origin, or black.
    #[verifier::when_used_as_spec(spec_zero)]
    pub fn zero() -> (v: Vec3)
        ensures
            v == Vec3::spec_zero(),
    {
        Vec3 { x: Scalar::zero(), y: Scalar::zero(), z: Scalar::zero() }
    }

    /// All three parts `1.0`: white, as a reflectance.
    #[verifier::when_used_as_spec(spec_one)]
    pub fn one() -> (v: Vec3)
        ensures
            v == Vec3::spec_one(),
    {
        Vec3 { x: Scalar::one(), y: Scalar::one(), z: Scalar::one() }
    }

    /// The vector with the three given parts.
    pub fn new(x: Scalar, y: Scalar, z: Scalar) -> (v: Vec3)
        ensures
            v == (Vec3 { x, y, z }),
    {
        Vec3 { x, y, z }
    }

    /// Part by part the greater of `self` and `rhs`.
    #[verifier::when_used_as_spec(spec_max)]
    pub fn max(self, rhs: Vec3) -> (v: Vec3)
        ensures
            v == self.spec_max(rhs),
    {
        Vec3 {
            x: if self.x.gt(rhs.x) { self.x } else { rhs.x },
            y: if self.y.gt(rhs.y) { self.y } else { rhs.y },
            z: if self.z.gt(rhs.z) { self.z } else { rhs.z },
        }
    }

    /// Part by part the smaller of `self` and `rhs`.
    #[verifier::when_used_as_spec(spec_min)]
    pub fn min(self, rhs: Vec3) -> (v: Vec3)
        ensures
            v == self.spec_min(rhs),
    {
        Vec3 {
            x: if self.x.lt(rhs.x) { self.x } else { rhs.x },
            y: if self.y.lt(rhs.y) { self.y } else { rhs.y },
            z: if self.z.lt(rhs.z) { self.z } else { rhs.z },
        }
    }

    /// Every part brought into the range from `min` to `max`.
    #[verifier::when_used_as_spec(spec_clamp)]
    pub fn clamp(self, min: Vec3, max: Vec3) -> (v: Vec3)
        ensures
            v == self.spec_clamp(min, max),
    {
        self.max(min).min(max)
    }

    /// `-self`: the opposite direction.
    pub fn neg(self) -> (v: Vec3)
        ensures
            v == self.negated(),
    {
        Vec3 { x: self.x.neg(), y: self.y.neg(), z: self.z.neg() }
    }
}

/// A part clamped between two numbers in order lies between them, whatever
/// it was before.
pub proof fn lemma_clamp_bounds(v: Vec3, min: Vec3, max: Vec3)
    requires
        min.x.at_most(max.x),
        min.y.at_most(max.y),
        min.z.at_most(max.z),
    ensures
        min.x.at_most(v.clamp(min, max).x) && v.clamp(min, max).x.at_most(max.x),
        min.y.at_most(v.clamp(min, max).y) && v.clamp(min, max).y.at_most(max.y),
        min.z.at_most(v.clamp(min, max).z) && v.clamp(min, max).z.at_most(max.z),
{
}

} // verus!
