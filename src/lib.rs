//! Discrete core of a Monte Carlo path tracer: output encoding, row
//! scheduling and assembly, the bounce-budget state machine, nearest-hit
//! resolution, the scatter decisions of the three materials, and the integer
//! render settings with per-pixel seeding.
//!
//! The floating-point geometry (vectors, rays, spheres, the camera) lives
//! outside this crate's verified part; it hands plain values in and takes
//! plain values back.
pub mod encode;
pub mod schedule;
pub mod collect;
pub mod path;
pub mod hit;
pub mod materials;
pub mod settings;
