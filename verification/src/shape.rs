//! Intersection primitives and their boolean combinations.

pub mod sphere;
pub mod plane;
pub mod csg;
pub mod volume;
