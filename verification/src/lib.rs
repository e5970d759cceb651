//! The decision core of a Monte Carlo path tracer.
//!
//! Numbers are IEEE-754 binary64 values carried as bit patterns. The crate
//! compares, negates, selects and validates them; it never rounds. Whatever
//! needs floating-point arithmetic or random draws reaches it through the
//! [`objects::Hittable`] and [`materials::Material`] traits, or as measures the
//! caller has already computed.

pub mod scalar;
pub mod vec;
pub mod materials;
pub mod objects;
pub mod render;
pub mod camera;
pub mod util;
pub mod scene;
