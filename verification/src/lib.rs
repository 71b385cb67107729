//! Selection of irradiance probe volumes ("cascades") for a renderer.
//!
//! A scene declares a small set of probe volumes, each a world-space box
//! sampled at regular intervals and baked offline into two textures. Every
//! frame, for every drawable object and once for the viewer position, the
//! renderer asks which volume best represents the lighting there. This
//! crate holds that logic: transforming object bounds into world space,
//! deriving the runtime form of a declared volume (probe counts, texel
//! sizes, texture paths), and scoring the volumes against a query box.
//!
//! All coordinates are integers in a caller-chosen world unit, so every
//! derived quantity is exact. The selector compares distances through
//! their squares, kept as exact rational numbers, so its ordering is the
//! ordering of the real distances with no rounding anywhere.

pub mod aabb;
pub mod arith;
pub mod cascade;
pub mod extract;
pub mod registry;
pub mod select;
pub mod transform;
pub mod vec3;
