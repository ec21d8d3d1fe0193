//! Surface finishes: how much light a surface reflects, what it emits, and
//! where it sends a ray on.
//!
//! A finish bounces a ray from the point where it was hit. The random unit
//! vector that every bounce draws, and the sums and products made with it,
//! are the caller's; what this module decides is which of the candidate
//! directions the bounced ray takes.

use vstd::prelude::*;
use crate::scalar::Scalar;
use crate::vector::Vec3;
use crate::vector::Color;
use crate::interval::Interval;
use crate::ray::Ray;

verus! {

/// The encoding of `0.000001`: a direction whose parts all lie within this
/// distance of zero counts as vanishing.
pub const TINY: u32 = 0x3586_37bd;

/// A surface finish.
pub trait Material {
    /// The fraction of incoming light that is reflected, per channel.
    spec fn reflectance(&self) -> Color;

    /// Whether the finish gives off light of its own.
    spec fn glows(&self) -> bool;

    /// The light the finish gives off; black for one that does not glow.
    spec fn light(&self) -> Color;

    /// The fraction of incoming light that is reflected, per channel.
    fn albedo(&self) -> (c: Color)
        ensures
            c == self.reflectance(),
    ;

    /// Whether the finish gives off light of its own.
    fn is_emitter(&self) -> (b: bool)
        ensures
            b == self.glows(),
    ;

    /// The light the finish gives off.
    fn emit(&self) -> (c: Color)
        ensures
            c == self.light(),
    ;
}

/// The range from `-0.000001` to `0.000001`.
pub open spec fn tiny_range() -> Interval {
    Interval { min: Scalar { bits: 0xb586_37bd }, max: Scalar { bits: 0x3586_37bd } }
}

/// Whether all three parts of a vector lie within `0.000001` of zero.
pub open spec fn is_tiny(vec: Vec3) -> bool {
    tiny_range().contains(vec.x) && tiny_range().contains(vec.y) && tiny_range().contains(vec.z)
}

/// A vector on the side of a surface that its normal points to: `vector`
/// itself where `facing`, its dot product with the normal, is above zero, and
/// its negation otherwise.
pub open spec fn on_hemisphere(vector: Vec3, facing: Scalar) -> Vec3 {
    if Scalar::zero().below(facing) {
        vector
    } else {
        vector.negated()
    }
}

/// A direction that is safe to bounce along: `normalized` where `vec`
/// vanishes, `vec` otherwise.
pub open spec fn unless_tiny(vec: Vec3, normalized: Vec3) -> Vec3 {
    if is_tiny(vec) {
        normalized
    } else {
        vec
    }
}

/// Flips a sampled unit vector into the hemisphere of a normal. `facing` is
/// the dot product of `vector` and the normal. The sample is flipped, never
/// drawn again: one draw per call.
pub fn random_on_hemisphere(vector: Vec3, facing: Scalar) -> (direction: Vec3)
    ensures
        direction == on_hemisphere(vector, facing),
{
    if facing.gt(Scalar::zero()) {
        vector
    } else {
        vector.neg()
    }
}

/// Guards against a bounce along a vanishing direction. `normalized` is
/// `vec` scaled to length one; it is chosen where all parts of `vec` lie
/// within `0.000001` of zero, bounds included.
pub fn normalize_if_tiny(vec: Vec3, normalized: Vec3) -> (direction: Vec3)
    ensures
        direction == unless_tiny(vec, normalized),
{
    let interval = Interval::new(Scalar::from_bits(TINY).neg(), Scalar::from_bits(TINY));
    if interval.contains(vec.x) && interval.contains(vec.y) && interval.contains(vec.z) {
        normalized
    } else {
        vec
    }
}

/// A matt finish that scatters evenly over the hemisphere above the surface.
#[derive(Clone, Copy, Debug, PartialEq, Eq, Structural)]
pub struct Diffuse {
    pub color: Color,
}

impl Material for Diffuse {
    open spec fn reflectance(&self) -> Color {
        self.color
    }

    open spec fn glows(&self) -> bool {
        false
    }

    open spec fn light(&self) -> Color {
        Vec3::zero()
    }

    fn albedo(&self) -> (c: Color) {
        self.color
    }

    fn is_emitter(&self) -> (b: bool) {
        false
    }

    fn emit(&self) -> (c: Color) {
        Vec3::zero()
    }
}

impl Diffuse {
    /// A matt finish of the given colour.
    pub fn new(red: Scalar, green: Scalar, blue: Scalar) -> (m: Diffuse)
        ensures
            m.color == (Vec3 { x: red, y: green, z: blue }),
    {
        Diffuse { color: Vec3::new(red, green, blue) }
    }

    /// The ray that leaves `position`. `vector` is a random unit vector and
    /// `facing` its dot product with the surface normal.
    pub fn bounce(&self, position: Vec3, vector: Vec3, facing: Scalar) -> (outgoing: Ray)
        ensures
            outgoing == (Ray { origin: position, direction: on_hemisphere(vector, facing) }),
    {
        Ray::new(position, random_on_hemisphere(vector, facing))
    }
}

/// A matt finish that favours directions near the surface normal.
#[derive(Clone, Copy, Debug, PartialEq, Eq, Structural)]
pub struct Lambertian {
    pub color: Color,
}

impl Material for Lambertian {
    open spec fn reflectance(&self) -> Color {
        self.color
    }

    open spec fn glows(&self) -> bool {
        false
    }

    open spec fn light(&self) -> Color {
        Vec3::zero()
    }

    fn albedo(&self) -> (c: Color) {
        self.color
    }

    fn is_emitter(&self) -> (b: bool) {
        false
    }

    fn emit(&self) -> (c: Color) {
        Vec3::zero()
    }
}

impl Lambertian {
    /// A matt finish of the given colour.
    pub fn new(red: Scalar, green: Scalar, blue: Scalar) -> (m: Lambertian)
        ensures
            m.color == (Vec3 { x: red, y: green, z: blue }),
    {
        Lambertian { color: Vec3::new(red, green, blue) }
    }

    /// The ray that leaves `position`. `scattered` is the surface normal plus
    /// a random unit vector, `normalized` is `scattered` scaled to length one.
    pub fn bounce(&self, position: Vec3, scattered: Vec3, normalized: Vec3) -> (outgoing: Ray)
        ensures
            outgoing == (Ray { origin: position, direction: unless_tiny(scattered, normalized) }),
    {
        Ray::new(position, normalize_if_tiny(scattered, normalized))
    }
}

/// A mirror, blurred by `fuzz`.
#[derive(Clone, Copy, Debug, PartialEq, Eq, Structural)]
pub struct Metal {
    pub color: Color,
    /// How far a reflection may stray from the mirror direction: `0.0` is a
    /// perfect mirror.
    pub fuzz: Scalar,
}

impl Material for Metal {
    open spec fn reflectance(&self) -> Color {
        self.color
    }

    open spec fn glows(&self) -> bool {
        false
    }

    open spec fn light(&self) -> Color {
        Vec3::zero()
    }

    fn albedo(&self) -> (c: Color) {
        self.color
    }

    fn is_emitter(&self) -> (b: bool) {
        false
    }

    fn emit(&self) -> (c: Color) {
        Vec3::zero()
    }
}

impl Metal {
    /// A mirror of the given colour and blur.
    pub fn new(color: Color, fuzz: Scalar) -> (m: Metal)
        ensures
            m == (Metal { color, fuzz }),
    {
        Metal { color, fuzz }
    }

    /// The ray that leaves `position`. `reflected` is the mirror image of the
    /// incoming direction plus `fuzz` times a random unit vector, `normalized`
    /// is `reflected` scaled to length one.
    pub fn bounce(&self, position: Vec3, reflected: Vec3, normalized: Vec3) -> (outgoing: Ray)
        ensures
            outgoing == (Ray { origin: position, direction: unless_tiny(reflected, normalized) }),
    {
        Ray::new(position, normalize_if_tiny(reflected, normalized))
    }
}

/// A lamp: it gives off `light` and reflects everything.
#[derive(Clone, Copy, Debug, PartialEq, Eq, Structural)]
pub struct DiffuseLight {
    pub light: Color,
}

impl Material for DiffuseLight {
    open spec fn reflectance(&self) -> Color {
        Vec3::one()
    }

    open spec fn glows(&self) -> bool {
        true
    }

    open spec fn light(&self) -> Color {
        self.light
    }

    fn albedo(&self) -> (c: Color) {
        Vec3::one()
    }

    fn is_emitter(&self) -> (b: bool) {
        true
    }

    fn emit(&self) -> (c: Color) {
        self.light
    }
}

impl DiffuseLight {
    /// A lamp that gives off the given light.
    pub fn new(red: Scalar, green: Scalar, blue: Scalar) -> (m: DiffuseLight)
        ensures
            m.light == (Vec3 { x: red, y: green, z: blue }),
    {
        DiffuseLight { light: Vec3::new(red, green, blue) }
    }

    /// The ray that leaves `position`, scattered as by a matt finish.
    /// `vector` is a random unit vector and `facing` its dot product with the
    /// surface normal.
    pub fn bounce(&self, position: Vec3, vector: Vec3, facing: Scalar) -> (outgoing: Ray)
        ensures
            outgoing == (Ray { origin: position, direction: on_hemisphere(vector, facing) }),
    {
        Ray::new(position, random_on_hemisphere(vector, facing))
    }
}

} // verus!
