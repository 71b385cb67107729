//! Axis-aligned bounding boxes over integer world coordinates.
//!
//! A box is the closed region between `min` and `max`. Boxes are the
//! currency of the whole crate: object bounds, declared cascade volumes,
//! and selection queries are all boxes. The intersection of two boxes is
//! computed as a box of the component-wise tightest bounds; it describes a
//! real region exactly when it is `valid` (its `min` does not exceed its
//! `max` on any axis), mirroring how the selector decides overlap.

use vstd::prelude::*;

use crate::vec3::COORD_LIMIT;
use crate::vec3::SpecVec3;
use crate::vec3::Vec3;

verus! {

/// The mathematical value of an [`Aabb`]: two unbounded corner points.
pub struct SpecAabb {
    pub min: SpecVec3,
    pub max: SpecVec3,
}

/// A world-space axis-aligned box, the closed region from `min` to `max`.
#[derive(Clone, Copy, PartialEq, Eq, Structural, Debug)]
pub struct Aabb {
    pub min: Vec3,
    pub max: Vec3,
}

impl View for Aabb {
    type V = SpecAabb;

    open spec fn view(&self) -> SpecAabb {
        SpecAabb { min: self.min@, max: self.max@ }
    }
}

/// The smaller of two integers.
pub open spec fn spec_min(a: int, b: int) -> int {
    if a <= b {
        a
    } else {
        b
    }
}

/// The larger of two integers.
pub open spec fn spec_max(a: int, b: int) -> int {
    if a >= b {
        a
    } else {
        b
    }
}

impl SpecAabb {
    /// The box describes a real (possibly zero-thickness) region:
    /// no axis is inverted.
    pub open spec fn valid(self) -> bool {
        &&& self.min.x <= self.max.x
        &&& self.min.y <= self.max.y
        &&& self.min.z <= self.max.z
    }

    /// Both corners lie inside the world cube of half-extent `b`.
    pub open spec fn in_bounds(self, b: int) -> bool {
        self.min.in_bounds(b) && self.max.in_bounds(b)
    }

    /// The component-wise tightest bounds common to `self` and `other`.
    /// Describes the geometric intersection exactly when it is `valid`;
    /// an invalid result means the boxes are disjoint.
    pub open spec fn intersection(self, other: SpecAabb) -> SpecAabb {
        SpecAabb {
            min: SpecVec3 {
                x: spec_max(self.min.x, other.min.x),
                y: spec_max(self.min.y, other.min.y),
                z: spec_max(self.min.z, other.min.z),
            },
            max: SpecVec3 {
                x: spec_min(self.max.x, other.max.x),
                y: spec_min(self.max.y, other.max.y),
                z: spec_min(self.max.z, other.max.z),
            },
        }
    }

    /// The diagonal vector from `min` to `max`.
    pub open spec fn diagonal(self) -> SpecVec3 {
        SpecVec3 {
            x: self.max.x - self.min.x,
            y: self.max.y - self.min.y,
            z: self.max.z - self.min.z,
        }
    }

    /// Squared Euclidean length of the diagonal.
    pub open spec fn diag_sq(self) -> int {
        let d = self.diagonal();
        d.x * d.x + d.y * d.y + d.z * d.z
    }

    /// Twice the center point (kept doubled so it stays an integer).
    pub open spec fn center2(self) -> SpecVec3 {
        SpecVec3 {
            x: self.min.x + self.max.x,
            y: self.min.y + self.max.y,
            z: self.min.z + self.max.z,
        }
    }

    /// Every point of `inner` lies inside `self`.
    pub open spec fn contains_box(self, inner: SpecAabb) -> bool {
        &&& self.min.x <= inner.min.x
        &&& self.min.y <= inner.min.y
        &&& self.min.z <= inner.min.z
        &&& inner.max.x <= self.max.x
        &&& inner.max.y <= self.max.y
        &&& inner.max.z <= self.max.z
    }
}

/// A query box the selector accepts: well formed and inside the world cube.
pub open spec fn query_ok(q: SpecAabb) -> bool {
    q.valid() && q.in_bounds(COORD_LIMIT as int)
}

impl Aabb {
    /// A zero-diagonal box holding the single point `p`, as used for the
    /// viewer-position query.
    pub fn from_point(p: Vec3) -> (b: Aabb)
        ensures
            b@ == (SpecAabb { min: p@, max: p@ }),
    {
        Aabb { min: p, max: p }
    }

    /// Whether the box describes a real region (no axis inverted).
    pub fn valid(&self) -> (r: bool)
        ensures
            r == self@.valid(),
    {
        self.min.x <= self.max.x && self.min.y <= self.max.y && self.min.z <= self.max.z
    }

    /// The component-wise tightest common bounds; see
    /// [`SpecAabb::intersection`].
    pub fn intersection(&self, other: &Aabb) -> (r: Aabb)
        ensures
            r@ == self@.intersection(other@),
    {
        Aabb {
            min: Vec3 {
                x: if self.min.x >= other.min.x { self.min.x } else { other.min.x },
                y: if self.min.y >= other.min.y { self.min.y } else { other.min.y },
                z: if self.min.z >= other.min.z { self.min.z } else { other.min.z },
            },
            max: Vec3 {
                x: if self.max.x <= other.max.x { self.max.x } else { other.max.x },
                y: if self.max.y <= other.max.y { self.max.y } else { other.max.y },
                z: if self.max.z <= other.max.z { self.max.z } else { other.max.z },
            },
        }
    }

    /// Squared length of the diagonal, exact in `i128`.
    pub fn diag_sq(&self) -> (r: i128)
        requires
            self@.in_bounds(4 * COORD_LIMIT as int),
        ensures
            r == self@.diag_sq(),
    {
        let dx: i128 = self.max.x as i128 - self.min.x as i128;
        let dy: i128 = self.max.y as i128 - self.min.y as i128;
        let dz: i128 = self.max.z as i128 - self.min.z as i128;
        proof {
            let lim: int = 8 * COORD_LIMIT as int;
            crate::arith::lemma_square_bound(dx as int, lim);
            crate::arith::lemma_square_bound(dy as int, lim);
            crate::arith::lemma_square_bound(dz as int, lim);
        }
        dx * dx + dy * dy + dz * dz
    }
}

} // verus!
