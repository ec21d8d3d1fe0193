//! Shapes a ray can meet: spheres and flat quads.
//!
//! Meeting a shape takes arithmetic and decisions in turn. The caller solves
//! the shape's equation for the ray; `intersect` decides whether, and at
//! which parameter, the ray counts as having hit; the caller then computes
//! the meeting point and bounces the ray off the finish; `hit` puts the
//! record together.

use vstd::prelude::*;
use crate::scalar::Scalar;
use crate::vector::Vec3;
use crate::vector::Color;
use crate::interval::Interval;
use crate::ray::Ray;
use crate::ray::Hit;
use crate::material::Material;

verus! {

/// The encoding of `0.000001`: a ray whose direction, projected on a quad's
/// normal, stays below this bound does not meet the quad.
pub const PARALLEL: u32 = 0x3586_37bd;

/// A shape with a finish.
pub trait Object {
    /// The fraction of incoming light that the shape's finish reflects.
    spec fn reflectance(&self) -> Color;

    /// Whether the shape's finish gives off light.
    spec fn glows(&self) -> bool;

    /// The light the shape's finish gives off.
    spec fn light(&self) -> Color;

    /// The fraction of incoming light that the shape's finish reflects.
    fn albedo(&self) -> (c: Color)
        ensures
            c == self.reflectance(),
    ;

    /// Whether the shape's finish gives off light.
    fn is_emitter(&self) -> (b: bool)
        ensures
            b == self.glows(),
    ;

    /// The light the shape's finish gives off.
    fn emit(&self) -> (c: Color)
        ensures
            c == self.light(),
    ;

    /// The record of a ray meeting the shape at parameter `t`. `facing` is the
    /// dot product of `outward_normal` and the direction of the incoming ray,
    /// `outgoing` the ray that the finish bounced. The record's normal is
    /// turned against the incoming ray; reflectance and light are the
    /// finish's.
    fn hit(
        &self,
        facing: Scalar,
        t: Scalar,
        position: Vec3,
        outward_normal: Vec3,
        outgoing: Ray,
    ) -> (hit: Hit)
        ensures
            hit == (Hit {
                t,
                position,
                normal: Hit::oriented(outward_normal, facing),
                front_face: Hit::opposes(facing),
                albedo: self.reflectance(),
                outgoing,
                is_emitter: self.glows(),
                emitted: self.light(),
            }),
    {
        Hit::new(
            facing,
            t,
            position,
            outward_normal,
            self.albedo(),
            outgoing,
            self.is_emitter(),
            self.emit(),
        )
    }
}

/// The root of a sphere's equation at which a ray counts as having hit: none
/// where the equation has no real root, else the nearer root if the window
/// surrounds it, else the farther root if the window surrounds that.
pub open spec fn sphere_root(
    discriminant: Scalar,
    near: Scalar,
    far: Scalar,
    window: Interval,
) -> Option<Scalar> {
    if discriminant.below(Scalar::zero()) {
        None
    } else if window.surrounds(near) {
        Some(near)
    } else if window.surrounds(far) {
        Some(far)
    } else {
        None
    }
}

/// The range from `0.0` to `1.0`, in which the planar coordinates of a point
/// of a quad lie.
pub open spec fn unit_range() -> Interval {
    Interval { min: Scalar::zero(), max: Scalar::one() }
}

/// The parameter at which a ray counts as having hit a quad: `t`, unless the
/// ray runs along the plane or comes from behind it (`divisor` below
/// `0.000001`), the window does not surround `t`, or the meeting point lies
/// off the quad.
pub open spec fn rect_root(
    divisor: Scalar,
    t: Scalar,
    alpha: Scalar,
    beta: Scalar,
    window: Interval,
) -> Option<Scalar> {
    if divisor.below(Scalar { bits: PARALLEL }) {
        None
    } else if !window.surrounds(t) {
        None
    } else if !unit_range().contains(alpha) || !unit_range().contains(beta) {
        None
    } else {
        Some(t)
    }
}

/// A sphere.
pub struct Sphere<T: Material> {
    pub center: Vec3,
    pub radius: Scalar,
    pub material: T,
}

impl<T: Material> Object for Sphere<T> {
    open spec fn reflectance(&self) -> Color {
        self.material.reflectance()
    }

    open spec fn glows(&self) -> bool {
        self.material.glows()
    }

    open spec fn light(&self) -> Color {
        self.material.light()
    }

    fn albedo(&self) -> (c: Color) {
        self.material.albedo()
    }

    fn is_emitter(&self) -> (b: bool) {
        let b = self.material.is_emitter();
        assert(self.glows() == self.material.glows());
        b
    }

    fn emit(&self) -> (c: Color) {
        let c = self.material.emit();
        assert(self.light() == self.material.light());
        c
    }
}

impl<T: Material> Sphere<T> {
    /// The sphere round `center`.
    pub fn new(center: Vec3, radius: Scalar, material: T) -> (s: Sphere<T>)
        ensures
            s.center == center,
            s.radius == radius,
            s.material == material,
    {
        Sphere { center, radius, material }
    }

    /// Decides where a ray hits the sphere, if it does.
    ///
    /// With `c` the vector from the centre to the ray's origin and `d` the
    /// ray's direction, the caller computes `half_p = d.c / |d|^2`,
    /// `q = (|c|^2 - radius^2) / |d|^2`, `discriminant = half_p^2 - q`, and
    /// the two roots `near = -half_p - sqrt(discriminant)` and
    /// `far = -half_p + sqrt(discriminant)`. The nearer root wins where the
    /// window surrounds it; the farther one serves a ray that starts inside
    /// the sphere.
    pub fn intersect(
        &self,
        discriminant: Scalar,
        near: Scalar,
        far: Scalar,
        hit_interval: &Interval,
    ) -> (t: Option<Scalar>)
        ensures
            t == sphere_root(discriminant, near, far, *hit_interval),
            t matches Some(at) ==> hit_interval.surrounds(at),
    {
        if discriminant.lt(Scalar::zero()) {
            return None;
        }
        let mut t = near;
        if !hit_interval.surrounds(t) {
            t = far;
            if !hit_interval.surrounds(t) {
                return None;
            }
        }
        Some(t)
    }
}

/// A flat quad: the points `origin + alpha * u + beta * v` with `alpha` and
/// `beta` between zero and one. It is seen from one side only.
pub struct Rect<T: Material> {
    /// A corner of the quad.
    pub origin: Vec3,
    /// The edge from the corner along which `alpha` counts.
    pub u: Vec3,
    /// The edge from the corner along which `beta` counts.
    pub v: Vec3,
    /// The unit normal of the quad's plane, the cross product of `v` and `u`
    /// scaled to length one.
    pub normal: Vec3,
    /// The offset of the plane: the dot product of `normal` and `origin`.
    pub d: Scalar,
    pub material: T,
}

impl<T: Material> Object for Rect<T> {
    open spec fn reflectance(&self) -> Color {
        self.material.reflectance()
    }

    open spec fn glows(&self) -> bool {
        self.material.glows()
    }

    open spec fn light(&self) -> Color {
        self.material.light()
    }

    fn albedo(&self) -> (c: Color) {
        self.material.albedo()
    }

    fn is_emitter(&self) -> (b: bool) {
        let b = self.material.is_emitter();
        assert(self.glows() == self.material.glows());
        b
    }

    fn emit(&self) -> (c: Color) {
        let c = self.material.emit();
        assert(self.light() == self.material.light());
        c
    }
}

impl<T: Material> Rect<T> {
    /// The quad spanned by `u` and `v` at `origin`. The caller derives the
    /// plane from them: `normal` is the cross product of `v` and `u` scaled to
    /// length one, `d` the dot product of `normal` and `origin`.
    pub fn new(origin: Vec3, u: Vec3, v: Vec3, normal: Vec3, d: Scalar, material: T) -> (r: Rect<T>)
        ensures
            r.origin == origin,
            r.u == u,
            r.v == v,
            r.normal == normal,
            r.d == d,
            r.material == material,
    {
        Rect { origin, u, v, normal, d, material }
    }

    /// The unit normal at any point of the quad.
    pub fn normal(&self, point: Vec3) -> (n: Vec3)
        ensures
            n == self.normal,
    {
        self.normal
    }

    /// Decides whether a ray hits the quad, and where.
    ///
    /// The caller computes `divisor`, the dot product of the normal and the
    /// ray's direction; `t = (d - normal.ray_origin) / divisor`; and, with `p`
    /// the vector from the quad's corner to the ray's point at `t`, the planar
    /// coordinates `alpha = p.u / |u|^2` and `beta = p.v / |v|^2`.
    pub fn intersect(
        &self,
        divisor: Scalar,
        t: Scalar,
        alpha: Scalar,
        beta: Scalar,
        hit_interval: &Interval,
    ) -> (at: Option<Scalar>)
        ensures
            at == rect_root(divisor, t, alpha, beta, *hit_interval),
            at matches Some(x) ==> x == t && hit_interval.surrounds(t),
    {
        if divisor.lt(Scalar::from_bits(PARALLEL)) {
            return None;
        }
        if !hit_interval.surrounds(t) {
            return None;
        }
        let coordinate_range = Interval::new(Scalar::zero(), Scalar::one());
        if !coordinate_range.contains(alpha) || !coordinate_range.contains(beta) {
            return None;
        }
        Some(t)
    }
}

} // verus!
