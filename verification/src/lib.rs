//! Verified core of the `geon` ray tracer: the integer logic that decides
//! what a ray or a pixel is, and the procedural hashing of the sky.

pub mod training;
pub mod geodesic;
pub mod metric;
pub mod render;
pub mod sky;
