//! Mathematical foundations: fixed-point scalars, vectors, colors, rays, hits.

pub mod fixed;
pub mod space;
pub mod color;
pub mod ray;
pub mod hit;
