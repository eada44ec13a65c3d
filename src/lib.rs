//! The discrete core of a path tracer for scenes of spheres: rays, emitter selection, the
//! integrator's per-bounce decisions, RGB8 texel lookup and the scanline layout of the
//! rendered picture.

pub mod integrator;
pub mod materials;
pub mod ray;
pub mod render;
pub mod sky;
pub mod texel;
