//! The float-free core of a recursive path tracer: component addressing of
//! three-component vectors, the ordered scene container and its nearest-hit
//! scan, the root and reflect/refract choices of the surface routines, and
//! the control of the light-transport integrator.
pub mod vectors;
pub mod rays;
pub mod geometry;
pub mod materials;
