//! The discrete core of a ray tracer: everything the renderer decides without
//! doing arithmetic on real numbers. Distances enter as ordering keys, colours
//! leave as 8-bit channels, and the numeric work between the two is the
//! caller's.

pub mod frame;
pub mod intersection;
pub mod scene;
pub mod texture;
