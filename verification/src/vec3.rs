//! Integer three-component vectors, the coordinate type of the crate.
//!
//! Coordinates are plain `i64` values in a caller-chosen world unit. The
//! spatial reasoning of the selector needs exact arithmetic on products of
//! coordinates, so the parts of the world that cascades and queries may
//! occupy are kept inside a fixed bound, `COORD_LIMIT`.

use vstd::prelude::*;

verus! {

/// Largest magnitude a world coordinate may have, in world units.
///
/// Cascade placements and query boxes must stay inside this cube so that
/// every product formed while scoring cascades fits comfortably in `i128`.
pub const COORD_LIMIT: i64 = 4096;

/// Largest probe spacing a cascade may declare, in world units.
pub const SPACING_LIMIT: i64 = 8192;

/// The mathematical value of a [`Vec3`]: three unbounded integers.
pub struct SpecVec3 {
    pub x: int,
    pub y: int,
    pub z: int,
}

/// A point or extent in world space, one integer per axis.
#[derive(Clone, Copy, PartialEq, Eq, Structural, Debug)]
pub struct Vec3 {
    pub x: i64,
    pub y: i64,
    pub z: i64,
}

impl View for Vec3 {
    type V = SpecVec3;

    open spec fn view(&self) -> SpecVec3 {
        SpecVec3 { x: self.x as int, y: self.y as int, z: self.z as int }
    }
}

impl SpecVec3 {
    /// Every component has magnitude at most `b`.
    pub open spec fn in_bounds(self, b: int) -> bool {
        &&& -b <= self.x <= b
        &&& -b <= self.y <= b
        &&& -b <= self.z <= b
    }
}

} // verus!
