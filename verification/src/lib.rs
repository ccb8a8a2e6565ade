//! A library for rendering "Chaos Game" fractals: a point is repeatedly
//! moved toward a randomly chosen polygon vertex, subject to an
//! acceptance rule over a bounded window of recently accepted vertices,
//! and the visited positions are accumulated into a raster image.
//!
//! All geometry and colour arithmetic is carried out in deterministic
//! fixed-point arithmetic (see [`fixed`]), so every step of the
//! algorithm is exactly specified. Command-line handling, progress-bar
//! rendering and image encoding are left to the callers of this crate.

pub mod colour;
pub mod fixed;
pub mod generator;
pub mod picker;
pub mod rules;
pub mod trig;
pub mod types;

pub use colour::hsv_to_rgb;
pub use generator::FractalGenerator;
pub use rules::get_rule_by_name;
