//! Boxes along the axes.

use vstd::prelude::*;
use crate::vector::Vec3;
use crate::interval::Interval;

verus! {

/// A box along the axes: one range per axis.
#[derive(Clone, Copy, Debug, PartialEq, Eq, Structural)]
pub struct BoundingBox {
    pub x: Interval,
    pub y: Interval,
    pub z: Interval,
}

impl BoundingBox {
    /// The box of the three ranges.
    pub fn new(x: Interval, y: Interval, z: Interval) -> (b: BoundingBox)
        ensures
            b == (BoundingBox { x, y, z }),
    {
        BoundingBox { x, y, z }
    }

    /// The box between two opposite corners, in whichever order they come.
    /// On every axis on which both corners are numbers, the box holds both.
    pub fn from_corners(c0: Vec3, c1: Vec3) -> (b: BoundingBox)
        ensures
            b == (BoundingBox {
                x: Interval { min: c0.x.lesser(c1.x), max: c0.x.greater(c1.x) },
                y: Interval { min: c0.y.lesser(c1.y), max: c0.y.greater(c1.y) },
                z: Interval { min: c0.z.lesser(c1.z), max: c0.z.greater(c1.z) },
            }),
            !c0.x.not_a_number() && !c1.x.not_a_number() ==> b.x.contains(c0.x) && b.x.contains(
                c1.x,
            ),
            !c0.y.not_a_number() && !c1.y.not_a_number() ==> b.y.contains(c0.y) && b.y.contains(
                c1.y,
            ),
            !c0.z.not_a_number() && !c1.z.not_a_number() ==> b.z.contains(c0.z) && b.z.contains(
                c1.z,
            ),
    {
        BoundingBox {
            x: Interval::new(c0.x.min(c1.x), c0.x.max(c1.x)),
            y: Interval::new(c0.y.min(c1.y), c0.y.max(c1.y)),
            z: Interval::new(c0.z.min(c1.z), c0.z.max(c1.z)),
        }
    }
}

} // verus!
