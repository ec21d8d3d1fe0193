//! Rays, and the record of a ray meeting a surface.

use vstd::prelude::*;
use crate::scalar::Scalar;
use crate::vector::Vec3;
use crate::vector::Color;

verus! {

/// A half-line: the points `origin + t * direction`. The direction need not
/// have length one, so `t` counts in lengths of `direction`.
#[derive(Clone, Copy, Debug, PartialEq, Eq, Structural)]
pub struct Ray {
    pub origin: Vec3,
    pub direction: Vec3,
}

impl Ray {
    /// The ray from `origin` along `direction`.
    pub fn new(origin: Vec3, direction: Vec3) -> (r: Ray)
        ensures
            r == (Ray { origin, direction }),
    {
        Ray { origin, direction }
    }
}

/// What is known where a ray meets a surface.
#[derive(Clone, Copy, Debug, PartialEq, Eq, Structural)]
pub struct Hit {
    /// The parameter of the ray at the meeting point.
    pub t: Scalar,
    pub position: Vec3,
    /// The surface normal, turned against the incoming ray.
    pub normal: Vec3,
    /// Whether the surface's own normal already opposed the ray.
    pub front_face: bool,
    pub albedo: Color,
    /// The ray that leaves the surface.
    pub outgoing: Ray,
    pub is_emitter: bool,
    pub emitted: Color,
}

impl Hit {
    /// Whether a normal opposes a ray, given `facing`, their dot product.
    pub open spec fn opposes(facing: Scalar) -> bool {
        facing.below(Scalar::zero())
    }

    /// The normal turned against the ray: itself where it opposes the ray, its
    /// negation where it does not, and also where `facing` is no number.
    pub open spec fn oriented(outward_normal: Vec3, facing: Scalar) -> Vec3 {
        if Hit::opposes(facing) {
            outward_normal
        } else {
            outward_normal.negated()
        }
    }

    /// The dot product of the oriented normal and the ray's direction:
    /// `facing` where the normal stayed, its negation where the normal was
    /// flipped, since negating a vector negates its dot products.
    pub open spec fn oriented_facing(facing: Scalar) -> Scalar {
        if Hit::opposes(facing) {
            facing
        } else {
            facing.negated()
        }
    }

    /// The record of a hit. `facing` is the dot product of `outward_normal`
    /// and the direction of the incoming ray, which the caller computes; the
    /// record's normal is `outward_normal` turned against that ray.
    pub fn new(
        facing: Scalar,
        t: Scalar,
        position: Vec3,
        outward_normal: Vec3,
        albedo: Color,
        outgoing: Ray,
        is_emitter: bool,
        emitted: Color,
    ) -> (hit: Hit)
        ensures
            hit.front_face == Hit::opposes(facing),
            hit.normal == Hit::oriented(outward_normal, facing),
            hit.t == t,
            hit.position == position,
            hit.albedo == albedo,
            hit.outgoing == outgoing,
            hit.is_emitter == is_emitter,
            hit.emitted == emitted,
    {
        let front_face = facing.lt(Scalar::zero());
        let normal = if front_face {
            outward_normal
        } else {
            outward_normal.neg()
        };
        Hit { t, position, normal, front_face, albedo, outgoing, is_emitter, emitted }
    }
}

/// The normal of a record never points along the ray: where the dot product
/// of the surface's normal and the ray's direction is a number, that of the
/// oriented normal is at most zero, and turning the oriented normal the way
/// `front_face` says gives the surface's normal back.
pub proof fn lemma_front_facing(outward_normal: Vec3, facing: Scalar)
    requires
        !facing.not_a_number(),
    ensures
        Hit::oriented_facing(facing).at_most(Scalar::zero()),
        Hit::opposes(facing) ==> Hit::oriented(outward_normal, facing) == outward_normal,
        !Hit::opposes(facing) ==> Hit::oriented(outward_normal, facing).negated() == outward_normal,
{
    crate::scalar::lemma_negated(facing);
    crate::scalar::lemma_negated(outward_normal.x);
    crate::scalar::lemma_negated(outward_normal.y);
    crate::scalar::lemma_negated(outward_normal.z);
}

} // verus!
