//! Pseudo-random number sources, behind explicit generator handles.
//!
//! The shading and sampling code draws fixed-point values from a generator
//! that every caller passes in, making the dependency on randomness
//! visible in each operation's contract.

pub mod wyrand;
pub mod small;
