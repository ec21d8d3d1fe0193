//! The decision kernel of a recursive Monte Carlo path tracer.
//!
//! Everything a path tracer decides by comparing numbers, by counting or by
//! laying out bytes is verified here: the hit-distance windows, the choice of
//! a root, the orientation of a normal, the nearest-hit scan, the depth
//! cut-off, the quantisation of a colour and the two raster containers.
//! Numbers are single-precision values of IEEE 754 held by their encodings;
//! arithmetic on them is left to the caller, who hands its results in.

pub mod scalar;
pub mod vector;
pub mod interval;
pub mod ray;
pub mod material;
pub mod object;
pub mod output;
pub mod camera;
pub mod scene;
pub mod integrator;
pub mod boundingbox;
