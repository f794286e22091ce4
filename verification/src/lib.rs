//! A small ray tracer: homogeneous tuple and matrix algebra, ray/shape
//! intersection over spheres and planes, Phong lighting with procedural
//! patterns, a scene ("world") with a single point light, and a camera that
//! maps pixels to rays.
//!
//! All geometry is computed over a fixed-point scalar type ([`fx::Fx`]),
//! so every arithmetic step has an exact mathematical description and the
//! whole pipeline is specified and verified end to end.

pub mod camera;
pub mod canvas;
pub mod color;
pub mod fx;
pub mod intersection;
pub mod laws;
pub mod light;
pub mod material;
pub mod matrix;
pub mod pattern;
pub mod ray;
pub mod shape;
pub mod trig;
pub mod tuple;
pub mod world;
