//! Mapping local-space bounds through an affine transform.
//!
//! An object's bounds are authored in its local space; the renderer needs
//! a world-space box before it can pick a cascade for the object. The box
//! of a transformed box is found by transforming all eight corners and
//! taking the component-wise bounds — for an affine map this is exact,
//! since the extremes are always attained at corners.

use vstd::prelude::*;

use crate::aabb::Aabb;
use crate::aabb::SpecAabb;
use crate::aabb::spec_max;
use crate::aabb::spec_min;
use crate::arith::lemma_mul_bound;
use crate::vec3::SpecVec3;
use crate::vec3::Vec3;

verus! {

/// Largest magnitude a transform entry, a translation component or a
/// local coordinate may have for [`transform_aabb`]; keeps every product
/// inside `i64`.
pub const TRANSFORM_LIMIT: i64 = 1048576;

/// The mathematical value of an [`Affine`] transform.
pub struct SpecAffine {
    pub x_axis: SpecVec3,
    pub y_axis: SpecVec3,
    pub z_axis: SpecVec3,
    pub translation: SpecVec3,
}

/// An affine world-from-local transform with integer entries: three basis
/// columns and a translation. Covers translations, scales, axis swaps and
/// shears; a point `p` maps to
/// `x_axis * p.x + y_axis * p.y + z_axis * p.z + translation`.
#[derive(Clone, Copy, PartialEq, Eq, Structural, Debug)]
pub struct Affine {
    pub x_axis: Vec3,
    pub y_axis: Vec3,
    pub z_axis: Vec3,
    pub translation: Vec3,
}

impl View for Affine {
    type V = SpecAffine;

    open spec fn view(&self) -> SpecAffine {
        SpecAffine {
            x_axis: self.x_axis@,
            y_axis: self.y_axis@,
            z_axis: self.z_axis@,
            translation: self.translation@,
        }
    }
}

impl SpecAffine {
    /// All entries fit the bound accepted by [`transform_aabb`].
    pub open spec fn in_bounds(self) -> bool {
        &&& self.x_axis.in_bounds(TRANSFORM_LIMIT as int)
        &&& self.y_axis.in_bounds(TRANSFORM_LIMIT as int)
        &&& self.z_axis.in_bounds(TRANSFORM_LIMIT as int)
        &&& self.translation.in_bounds(TRANSFORM_LIMIT as int)
    }
}

/// The identity transform.
pub open spec fn spec_identity() -> SpecAffine {
    SpecAffine {
        x_axis: SpecVec3 { x: 1, y: 0, z: 0 },
        y_axis: SpecVec3 { x: 0, y: 1, z: 0 },
        z_axis: SpecVec3 { x: 0, y: 0, z: 1 },
        translation: SpecVec3 { x: 0, y: 0, z: 0 },
    }
}

/// A pure translation by `v`.
pub open spec fn spec_translation(v: SpecVec3) -> SpecAffine {
    SpecAffine {
        x_axis: SpecVec3 { x: 1, y: 0, z: 0 },
        y_axis: SpecVec3 { x: 0, y: 1, z: 0 },
        z_axis: SpecVec3 { x: 0, y: 0, z: 1 },
        translation: v,
    }
}

/// Where the affine map sends the point `p`.
pub open spec fn spec_transform_point(m: SpecAffine, p: SpecVec3) -> SpecVec3 {
    SpecVec3 {
        x: m.x_axis.x * p.x + m.y_axis.x * p.y + m.z_axis.x * p.z + m.translation.x,
        y: m.x_axis.y * p.x + m.y_axis.y * p.y + m.z_axis.y * p.z + m.translation.y,
        z: m.x_axis.z * p.x + m.y_axis.z * p.y + m.z_axis.z * p.z + m.translation.z,
    }
}

/// Corner `i` of the box, for `i` in `0..8`; bit 0 picks the x extreme,
/// bit 1 the y extreme, bit 2 the z extreme.
pub open spec fn spec_corner(b: SpecAabb, i: int) -> SpecVec3 {
    SpecVec3 {
        x: if i % 2 == 1 {
            b.max.x
        } else {
            b.min.x
        },
        y: if (i / 2) % 2 == 1 {
            b.max.y
        } else {
            b.min.y
        },
        z: if (i / 4) % 2 == 1 {
            b.max.z
        } else {
            b.min.z
        },
    }
}

/// The smallest of eight integers.
pub open spec fn spec_min8(
    a0: int,
    a1: int,
    a2: int,
    a3: int,
    a4: int,
    a5: int,
    a6: int,
    a7: int,
) -> int {
    spec_min(
        spec_min(spec_min(spec_min(spec_min(spec_min(spec_min(a0, a1), a2), a3), a4), a5), a6),
        a7,
    )
}

/// The largest of eight integers.
pub open spec fn spec_max8(
    a0: int,
    a1: int,
    a2: int,
    a3: int,
    a4: int,
    a5: int,
    a6: int,
    a7: int,
) -> int {
    spec_max(
        spec_max(spec_max(spec_max(spec_max(spec_max(spec_max(a0, a1), a2), a3), a4), a5), a6),
        a7,
    )
}

/// The component-wise bounds of the eight transformed corners of `b`:
/// the exact world-space box of the transformed local box.
pub open spec fn spec_transformed_bounds(m: SpecAffine, b: SpecAabb) -> SpecAabb {
    let c0 = spec_transform_point(m, spec_corner(b, 0));
    let c1 = spec_transform_point(m, spec_corner(b, 1));
    let c2 = spec_transform_point(m, spec_corner(b, 2));
    let c3 = spec_transform_point(m, spec_corner(b, 3));
    let c4 = spec_transform_point(m, spec_corner(b, 4));
    let c5 = spec_transform_point(m, spec_corner(b, 5));
    let c6 = spec_transform_point(m, spec_corner(b, 6));
    let c7 = spec_transform_point(m, spec_corner(b, 7));
    SpecAabb {
        min: SpecVec3 {
            x: spec_min8(c0.x, c1.x, c2.x, c3.x, c4.x, c5.x, c6.x, c7.x),
            y: spec_min8(c0.y, c1.y, c2.y, c3.y, c4.y, c5.y, c6.y, c7.y),
            z: spec_min8(c0.z, c1.z, c2.z, c3.z, c4.z, c5.z, c6.z, c7.z),
        },
        max: SpecVec3 {
            x: spec_max8(c0.x, c1.x, c2.x, c3.x, c4.x, c5.x, c6.x, c7.x),
            y: spec_max8(c0.y, c1.y, c2.y, c3.y, c4.y, c5.y, c6.y, c7.y),
            z: spec_max8(c0.z, c1.z, c2.z, c3.z, c4.z, c5.z, c6.z, c7.z),
        },
    }
}

impl Affine {
    /// The identity transform.
    pub fn identity() -> (m: Affine)
        ensures
            m@ == spec_identity(),
    {
        Affine {
            x_axis: Vec3 { x: 1, y: 0, z: 0 },
            y_axis: Vec3 { x: 0, y: 1, z: 0 },
            z_axis: Vec3 { x: 0, y: 0, z: 1 },
            translation: Vec3 { x: 0, y: 0, z: 0 },
        }
    }

    /// A pure translation by `v`.
    pub fn translation(v: Vec3) -> (m: Affine)
        ensures
            m@ == spec_translation(v@),
    {
        Affine {
            x_axis: Vec3 { x: 1, y: 0, z: 0 },
            y_axis: Vec3 { x: 0, y: 1, z: 0 },
            z_axis: Vec3 { x: 0, y: 0, z: 1 },
            translation: v,
        }
    }

    /// Where the affine map sends the point `p`.
    pub fn transform_point(&self, p: Vec3) -> (r: Vec3)
        requires
            self@.in_bounds(),
            p@.in_bounds(TRANSFORM_LIMIT as int),
        ensures
            r@ == spec_transform_point(self@, p@),
    {
        proof {
            let lim: int = TRANSFORM_LIMIT as int;
            lemma_mul_bound(self@.x_axis.x, p@.x, lim, lim);
            lemma_mul_bound(self@.y_axis.x, p@.y, lim, lim);
            lemma_mul_bound(self@.z_axis.x, p@.z, lim, lim);
            lemma_mul_bound(self@.x_axis.y, p@.x, lim, lim);
            lemma_mul_bound(self@.y_axis.y, p@.y, lim, lim);
            lemma_mul_bound(self@.z_axis.y, p@.z, lim, lim);
            lemma_mul_bound(self@.x_axis.z, p@.x, lim, lim);
            lemma_mul_bound(self@.y_axis.z, p@.y, lim, lim);
            lemma_mul_bound(self@.z_axis.z, p@.z, lim, lim);
        }
        Vec3 {
            x: self.x_axis.x * p.x + self.y_axis.x * p.y + self.z_axis.x * p.z
                + self.translation.x,
            y: self.x_axis.y * p.x + self.y_axis.y * p.y + self.z_axis.y * p.z
                + self.translation.y,
            z: self.x_axis.z * p.x + self.y_axis.z * p.y + self.z_axis.z * p.z
                + self.translation.z,
        }
    }
}

/// The point `p` lies inside the box `b`.
pub open spec fn in_box(b: SpecAabb, p: SpecVec3) -> bool {
    &&& b.min.x <= p.x <= b.max.x
    &&& b.min.y <= p.y <= b.max.y
    &&& b.min.z <= p.z <= b.max.z
}

/// Maps a local-space box through an affine transform to the exact
/// world-space box of its image: all eight corners are transformed and the
/// component-wise bounds accumulated. Degenerate input yields degenerate
/// output; there are no error cases.
#[verifier::rlimit(50)]
pub fn transform_aabb(world_from_local: Affine, aabb: Aabb) -> (r: Aabb)
    requires
        world_from_local@.in_bounds(),
        aabb@.in_bounds(TRANSFORM_LIMIT as int),
    ensures
        r@ == spec_transformed_bounds(world_from_local@, aabb@),
{
    let lo = aabb.min;
    let hi = aabb.max;
    let c0 = world_from_local.transform_point(Vec3 { x: lo.x, y: lo.y, z: lo.z });
    let c1 = world_from_local.transform_point(Vec3 { x: hi.x, y: lo.y, z: lo.z });
    let c2 = world_from_local.transform_point(Vec3 { x: lo.x, y: hi.y, z: lo.z });
    let c3 = world_from_local.transform_point(Vec3 { x: hi.x, y: hi.y, z: lo.z });
    let c4 = world_from_local.transform_point(Vec3 { x: lo.x, y: lo.y, z: hi.z });
    let c5 = world_from_local.transform_point(Vec3 { x: hi.x, y: lo.y, z: hi.z });
    let c6 = world_from_local.transform_point(Vec3 { x: lo.x, y: hi.y, z: hi.z });
    let c7 = world_from_local.transform_point(Vec3 { x: hi.x, y: hi.y, z: hi.z });
    let mut min_v = c0;
    let mut max_v = c0;
    min_v = min3(min_v, c1);
    max_v = max3(max_v, c1);
    min_v = min3(min_v, c2);
    max_v = max3(max_v, c2);
    min_v = min3(min_v, c3);
    max_v = max3(max_v, c3);
    min_v = min3(min_v, c4);
    max_v = max3(max_v, c4);
    min_v = min3(min_v, c5);
    max_v = max3(max_v, c5);
    min_v = min3(min_v, c6);
    max_v = max3(max_v, c6);
    min_v = min3(min_v, c7);
    max_v = max3(max_v, c7);
    Aabb { min: min_v, max: max_v }
}

/// Component-wise minimum of two points.
fn min3(a: Vec3, b: Vec3) -> (r: Vec3)
    ensures
        r@.x == spec_min(a@.x, b@.x),
        r@.y == spec_min(a@.y, b@.y),
        r@.z == spec_min(a@.z, b@.z),
{
    Vec3 {
        x: if a.x <= b.x { a.x } else { b.x },
        y: if a.y <= b.y { a.y } else { b.y },
        z: if a.z <= b.z { a.z } else { b.z },
    }
}

/// Component-wise maximum of two points.
fn max3(a: Vec3, b: Vec3) -> (r: Vec3)
    ensures
        r@.x == spec_max(a@.x, b@.x),
        r@.y == spec_max(a@.y, b@.y),
        r@.z == spec_max(a@.z, b@.z),
{
    Vec3 {
        x: if a.x >= b.x { a.x } else { b.x },
        y: if a.y >= b.y { a.y } else { b.y },
        z: if a.z >= b.z { a.z } else { b.z },
    }
}

/// The identity transform leaves any well-formed box unchanged.
pub proof fn lemma_transform_identity(b: SpecAabb)
    requires
        b.valid(),
    ensures
        spec_transformed_bounds(spec_identity(), b) == b,
{
}

/// A pure translation moves a well-formed box exactly by its vector.
pub proof fn lemma_transform_translation(v: SpecVec3, b: SpecAabb)
    requires
        b.valid(),
    ensures
        spec_transformed_bounds(spec_translation(v), b) == (SpecAabb {
            min: SpecVec3 { x: b.min.x + v.x, y: b.min.y + v.y, z: b.min.z + v.z },
            max: SpecVec3 { x: b.max.x + v.x, y: b.max.y + v.y, z: b.max.z + v.z },
        }),
{
}

/// A product with a factor from an interval lies between the products
/// with the interval's ends.
proof fn lemma_term_bounds(a: int, lo: int, hi: int, t: int)
    by (nonlinear_arith)
    requires
        lo <= t <= hi,
    ensures
        spec_min(a * lo, a * hi) <= a * t <= spec_max(a * lo, a * hi),
{
}

/// The transformed bounds are a true cover: every point of the local box
/// lands inside them. Together with the corners being transformed points
/// themselves, this makes [`transform_aabb`] exact, not conservative.
pub proof fn lemma_transform_covers(m: SpecAffine, b: SpecAabb, p: SpecVec3)
    requires
        b.valid(),
        in_box(b, p),
    ensures
        in_box(spec_transformed_bounds(m, b), spec_transform_point(m, p)),
{
    lemma_term_bounds(m.x_axis.x, b.min.x, b.max.x, p.x);
    lemma_term_bounds(m.y_axis.x, b.min.y, b.max.y, p.y);
    lemma_term_bounds(m.z_axis.x, b.min.z, b.max.z, p.z);
    lemma_term_bounds(m.x_axis.y, b.min.x, b.max.x, p.x);
    lemma_term_bounds(m.y_axis.y, b.min.y, b.max.y, p.y);
    lemma_term_bounds(m.z_axis.y, b.min.z, b.max.z, p.z);
    lemma_term_bounds(m.x_axis.z, b.min.x, b.max.x, p.x);
    lemma_term_bounds(m.y_axis.z, b.min.y, b.max.y, p.y);
    lemma_term_bounds(m.z_axis.z, b.min.z, b.max.z, p.z);
}

} // verus!
