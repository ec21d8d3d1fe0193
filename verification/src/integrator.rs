//! The light that a ray brings back, as far as it is decided and not
//! computed: when a path ends, in which window a ray looks for a hit, what a
//! ray sees that hits nothing, and which bytes stand for a colour.

use vstd::prelude::*;
use crate::scalar::Scalar;
use crate::vector::Vec3;
use crate::vector::Color;
use crate::interval::Interval;
use crate::ray::Ray;

verus! {

/// The encoding of `0.001`: a hit nearer than this to the origin of a ray is
/// the ray meeting again the surface that it has just left, and does not
/// count.
pub const SHADOW_BIAS: u32 = 0x3a83_126f;

/// The encoding of the greatest finite number: no hit is too far away.
pub const FARTHEST: u32 = 0x7f7f_ffff;

/// The encoding of `0.4`: each part of the grey that a ray sees where it
/// hits nothing.
pub const BACKGROUND: u32 = 0x3ecc_cccd;

/// What to do with a ray.
#[derive(Clone, Copy, Debug, PartialEq, Eq, Structural)]
pub enum Trace {
    /// The path ends here with this light.
    Finished(Color),
    /// Look for the nearest hit inside `window`. Where there is one, the
    /// bounced ray is traced with `depth` bounces left, and its light, times
    /// the hit's reflectance, plus the hit's own light, is the light of this
    /// ray. Where there is none, the ray brings back the background.
    Query { window: Interval, depth: u32 },
}

/// The window in which a ray looks for a hit: from `0.001`, which keeps a
/// bounced ray off the surface it left, to the greatest number, both
/// excluded.
pub open spec fn reach() -> Interval {
    Interval { min: Scalar { bits: SHADOW_BIAS }, max: Scalar { bits: FARTHEST } }
}

/// What to do with a ray that has `depth` bounces left: with none left it
/// brings back black, whatever it would hit; else it looks for a hit, and a
/// bounced ray has one bounce less.
pub open spec fn trace_at(depth: u32) -> Trace {
    if depth == 0 {
        Trace::Finished(Vec3::zero())
    } else {
        Trace::Query { window: reach(), depth: (depth - 1) as u32 }
    }
}

/// The grey that a ray sees where it hits nothing.
pub open spec fn background() -> Color {
    Vec3 {
        x: Scalar { bits: BACKGROUND },
        y: Scalar { bits: BACKGROUND },
        z: Scalar { bits: BACKGROUND },
    }
}

/// Decides the next step for a ray with `depth` bounces left.
pub fn ray_to_color(depth: u32) -> (next: Trace)
    ensures
        next == trace_at(depth),
        depth == 0 ==> next == Trace::Finished(Vec3::zero()),
{
    if depth == 0 {
        return Trace::Finished(Vec3::zero());
    }
    Trace::Query {
        window: Interval::new(Scalar::from_bits(SHADOW_BIAS), Scalar::from_bits(FARTHEST)),
        depth: depth - 1,
    }
}

/// The light of a ray that hits nothing: the same grey in every direction.
pub fn background_gradient(ray: &Ray) -> (color: Color)
    ensures
        color == background(),
{
    let grey = Scalar::from_bits(BACKGROUND);
    Vec3::new(grey, grey, grey)
}

/// The bytes for red, green and blue of a colour. `scaled` is the colour,
/// clamped between black and white, times 255; each part is rounded to the
/// nearest integer and kept within the range of a byte.
pub fn color_to_bytes(scaled: Color) -> (bytes: (u8, u8, u8))
    ensures
        bytes.0 == scaled.x.rounded_byte(),
        bytes.1 == scaled.y.rounded_byte(),
        bytes.2 == scaled.z.rounded_byte(),
{
    (scaled.x.to_byte(), scaled.y.to_byte(), scaled.z.to_byte())
}

} // verus!
