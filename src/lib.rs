//! The verified core of a ray tracer: pixel addressing and packing, ray
//! statistics, scene-graph flattening, and the decisions taken while a ray is
//! tested against primitives and lights.
pub mod bounds;
pub mod cube;
pub mod hit;
pub mod order;
pub mod pixel;
pub mod scene;
pub mod stats;
