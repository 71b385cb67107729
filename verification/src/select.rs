//! Picking the cascade that best represents lighting at a query box.
//!
//! Each cascade is scored against the query: a query overlapping the
//! cascade's enlarged influence region scores the ratio of the query
//! diagonal to the overlap diagonal (small is good), and a disjoint
//! cascade scores its ray-cast distance from the query center toward the
//! cascade, weighted to sort behind every overlapping candidate of
//! similar ratio. The best score wins; a near-tie (within ten percent)
//! goes to a genuinely overlapping cascade with more probes per world
//! unit, so finer detail is preferred without visible popping.
//!
//! Scores are real distances. To keep them exact the code carries their
//! squares as integer fractions ([`SpecDist`]); comparing squares orders
//! nonnegative distances exactly as the distances themselves.

use vstd::prelude::*;

use crate::aabb::Aabb;
use crate::aabb::SpecAabb;
use crate::aabb::query_ok;
use crate::arith::lemma_mul_bound;
use crate::arith::lemma_square_bound;
use crate::cascade::CascadeUniform;
use crate::cascade::Frac;
use crate::cascade::SpecFrac;
use crate::vec3::COORD_LIMIT;
use crate::vec3::SpecVec3;
use crate::vec3::Vec3;

verus! {

/// Weight applied to the ray-cast fallback distance of a cascade whose
/// enlarged box misses the query entirely, so such a cascade sorts behind
/// overlapping candidates with similar raw distance. A tuned constant;
/// revisions of the heuristic have used values between 10 and 100.
pub const OUTSIDE_WEIGHT: i64 = 100;

/// Upper bound on the numerator of any score produced under the world
/// bounds; keeps every comparison product inside `i128`.
pub const DIST_NUM_LIMIT: i128 = 0x100000000000000000000;

/// Upper bound on the denominator of any score produced under the world
/// bounds.
pub const DIST_DEN_LIMIT: i128 = 0x1000000000;

/// Bound on the numerator and denominator magnitudes of the slab
/// fractions met while ray-casting inside the world bounds.
pub const SLAB_LIMIT: i64 = 65536;

/// The square of a cascade's score: an exact nonnegative fraction, or
/// infinite for a cascade that offers no usable overlap and no ray hit.
pub enum SpecDist {
    Fin { num: int, den: int },
    Inf,
}

/// The score has a positive denominator and nonnegative numerator, as
/// every score built by [`dist_sq`] does.
pub open spec fn dist_wf(d: SpecDist) -> bool {
    d matches SpecDist::Fin { num, den } ==> num >= 0 && den >= 1
}

/// The score's parts are small enough for `i128` comparison arithmetic.
pub open spec fn dist_bounded(d: SpecDist) -> bool {
    d matches SpecDist::Fin { num, den } ==> 0 <= num <= DIST_NUM_LIMIT && 1 <= den
        <= DIST_DEN_LIMIT
}

/// `a < b` over squared scores: cross-multiplied for fractions, and
/// anything finite beats infinity.
pub open spec fn dist_lt(a: SpecDist, b: SpecDist) -> bool {
    match (a, b) {
        (SpecDist::Fin { num: an, den: ad }, SpecDist::Fin { num: bn, den: bd }) => an * bd < bn
            * ad,
        (SpecDist::Fin { .. }, SpecDist::Inf) => true,
        (SpecDist::Inf, _) => false,
    }
}

/// `a < 1.1 * b` over the underlying distances: squared, the margin is
/// `121/100`.
pub open spec fn dist_lt_margin(a: SpecDist, b: SpecDist) -> bool {
    match (a, b) {
        (SpecDist::Fin { num: an, den: ad }, SpecDist::Fin { num: bn, den: bd }) => 100 * (an * bd)
            < 121 * (bn * ad),
        (SpecDist::Fin { .. }, SpecDist::Inf) => true,
        (SpecDist::Inf, _) => false,
    }
}

/// `a < b` over fractions with positive denominators.
pub open spec fn frac_lt(a: SpecFrac, b: SpecFrac) -> bool {
    a.num * b.den < b.num * a.den
}

/// The larger of two fractions.
pub open spec fn frac_max(a: SpecFrac, b: SpecFrac) -> SpecFrac {
    if frac_lt(a, b) {
        b
    } else {
        a
    }
}

/// The smaller of two fractions.
pub open spec fn frac_min(a: SpecFrac, b: SpecFrac) -> SpecFrac {
    if frac_lt(a, b) {
        a
    } else {
        b
    }
}

/// The tight world-space box of a cascade's probe grid: its position plus
/// `resolution * spacing` per axis.
pub open spec fn cascade_box(c: CascadeUniform) -> SpecAabb {
    SpecAabb {
        min: c.cascade_position@,
        max: SpecVec3 {
            x: c.cascade_position@.x + c.cascade_res@.x * c.cascade_spacing@.x,
            y: c.cascade_position@.y + c.cascade_res@.y * c.cascade_spacing@.y,
            z: c.cascade_position@.z + c.cascade_res@.z * c.cascade_spacing@.z,
        },
    }
}

/// The cascade's practical influence region: the tight box grown by two
/// spacing steps on every face, since probe interpolation bleeds outward
/// roughly one cell in each direction.
pub open spec fn enlarged_box(c: CascadeUniform) -> SpecAabb {
    let b = cascade_box(c);
    SpecAabb {
        min: SpecVec3 {
            x: b.min.x - 2 * c.cascade_spacing@.x,
            y: b.min.y - 2 * c.cascade_spacing@.y,
            z: b.min.z - 2 * c.cascade_spacing@.z,
        },
        max: SpecVec3 {
            x: b.max.x + 2 * c.cascade_spacing@.x,
            y: b.max.y + 2 * c.cascade_spacing@.y,
            z: b.max.z + 2 * c.cascade_spacing@.z,
        },
    }
}

/// The query genuinely overlaps the cascade's tight probe grid (used only
/// by the tie-break).
pub open spec fn tight_intersects(c: CascadeUniform, q: SpecAabb) -> bool {
    cascade_box(c).intersection(q).valid()
}

/// Probe density per world unit: the largest `resolution / spacing` over
/// the three axes. Used only to break near-ties in favor of finer detail.
pub open spec fn relative_res(c: CascadeUniform) -> SpecFrac {
    let fx = SpecFrac { num: c.cascade_res@.x, den: c.cascade_spacing@.x };
    let fy = SpecFrac { num: c.cascade_res@.y, den: c.cascade_spacing@.y };
    let fz = SpecFrac { num: c.cascade_res@.z, den: c.cascade_spacing@.z };
    frac_max(frac_max(fx, fy), fz)
}

/// Slab constraints accumulated while intersecting a ray with a box, one
/// axis at a time. `miss` records an axis that rules the ray out; `has`
/// says whether any axis constrained the ray yet; `near`/`far` bound the
/// ray parameter where all axes seen so far are inside the box.
pub struct SpecSlab {
    pub miss: bool,
    pub has: bool,
    pub near: SpecFrac,
    pub far: SpecFrac,
}

/// Folds one axis into the slab state. The ray starts at the query center
/// and points at the box center; coordinates arrive doubled (`o2`, and
/// direction `v2`) so centers stay integers. An axis with no motion
/// (`v2 == 0`) either rules the ray out (origin outside the slab) or
/// constrains nothing.
pub open spec fn slab_axis(st: SpecSlab, lo: int, hi: int, o2: int, v2: int) -> SpecSlab {
    if v2 == 0 {
        if o2 < 2 * lo || o2 > 2 * hi {
            SpecSlab { miss: true, has: st.has, near: st.near, far: st.far }
        } else {
            st
        }
    } else {
        let near = if v2 > 0 {
            SpecFrac { num: 2 * lo - o2, den: v2 }
        } else {
            SpecFrac { num: o2 - 2 * hi, den: -v2 }
        };
        let far = if v2 > 0 {
            SpecFrac { num: 2 * hi - o2, den: v2 }
        } else {
            SpecFrac { num: o2 - 2 * lo, den: -v2 }
        };
        if st.has {
            SpecSlab {
                miss: st.miss,
                has: true,
                near: frac_max(st.near, near),
                far: frac_min(st.far, far),
            }
        } else {
            SpecSlab { miss: st.miss, has: true, near, far }
        }
    }
}

/// The squared, weighted ray-cast score of a disjoint cascade: cast from
/// the query center toward the tight box's center, intersect with the
/// tight box, and take the entry distance (clamped at zero) times
/// [`OUTSIDE_WEIGHT`]. Infinite when the ray misses. A degenerate cast
/// (query center exactly at the box center) scores zero.
pub open spec fn ray_dist_sq(c: CascadeUniform, q: SpecAabb) -> SpecDist {
    let b = cascade_box(c);
    let o2 = q.center2();
    let c2 = b.center2();
    let vx: int = c2.x - o2.x;
    let vy: int = c2.y - o2.y;
    let vz: int = c2.z - o2.z;
    let st0 = SpecSlab {
        miss: false,
        has: false,
        near: SpecFrac { num: 0, den: 1 },
        far: SpecFrac { num: 0, den: 1 },
    };
    let st1 = slab_axis(st0, b.min.x, b.max.x, o2.x, vx);
    let st2 = slab_axis(st1, b.min.y, b.max.y, o2.y, vy);
    let st = slab_axis(st2, b.min.z, b.max.z, o2.z, vz);
    if st.miss {
        SpecDist::Inf
    } else if !st.has {
        SpecDist::Fin { num: 0, den: 1 }
    } else if frac_lt(st.far, st.near) || st.far.num < 0 {
        SpecDist::Inf
    } else {
        let e = if st.near.num > 0 {
            st.near
        } else {
            SpecFrac { num: 0, den: 1 }
        };
        let v_sq: int = vx * vx + vy * vy + vz * vz;
        SpecDist::Fin {
            num: OUTSIDE_WEIGHT * OUTSIDE_WEIGHT * v_sq * (e.num * e.num),
            den: 4 * (e.den * e.den),
        }
    }
}

/// The squared score of one cascade against one query box.
///
/// Overlapping the enlarged influence region scores the squared ratio of
/// the query diagonal to the overlap diagonal: comfortably engulfed is
/// small, barely clipping is large, a ratio of zero over zero (a point
/// query touching the region in a single point) is a perfect match, and
/// a real query reduced to a zero overlap diagonal offers no usable
/// overlap and scores infinite. A disjoint cascade scores its weighted
/// ray-cast fallback.
pub open spec fn dist_sq(c: CascadeUniform, q: SpecAabb) -> SpecDist {
    let inter = enlarged_box(c).intersection(q);
    if inter.valid() {
        let qd: int = q.diag_sq();
        let id: int = inter.diag_sq();
        if id > 0 {
            SpecDist::Fin { num: qd, den: id }
        } else if qd == 0 {
            SpecDist::Fin { num: 0, den: 1 }
        } else {
            SpecDist::Inf
        }
    } else {
        ray_dist_sq(c, q)
    }
}

/// The running best while scanning the cascade list: index, squared
/// score, and probe density of the best cascade so far.
pub struct SpecBest {
    pub idx: int,
    pub dist: SpecDist,
    pub rel: SpecFrac,
}

/// Before any cascade is seen: index 0 with an infinite score, so the
/// first finite score always wins, and a zero density.
pub open spec fn init_best() -> SpecBest {
    SpecBest { idx: 0, dist: SpecDist::Inf, rel: SpecFrac { num: 0, den: 1 } }
}

/// The cascade displaces the running best: strictly better score, or a
/// near-tie (within ten percent) broken by genuine overlap with the
/// tight probe grid and strictly higher probe density.
pub open spec fn accepts(c: CascadeUniform, q: SpecAabb, b: SpecBest) -> bool {
    ||| dist_lt(dist_sq(c, q), b.dist)
    ||| (dist_lt_margin(dist_sq(c, q), b.dist) && tight_intersects(c, q) && frac_lt(
        b.rel,
        relative_res(c),
    ))
}

/// The running best after considering cascade `i`.
pub open spec fn step_best(cs: Seq<CascadeUniform>, q: SpecAabb, i: int, b: SpecBest) -> SpecBest {
    if accepts(cs[i], q, b) {
        SpecBest { idx: i, dist: dist_sq(cs[i], q), rel: relative_res(cs[i]) }
    } else {
        b
    }
}

/// The running best after considering cascades `i..`, starting from `b`.
pub open spec fn run_select(cs: Seq<CascadeUniform>, q: SpecAabb, i: int, b: SpecBest) -> SpecBest
    decreases cs.len() - i,
{
    if i < 0 || i >= cs.len() {
        b
    } else {
        run_select(cs, q, i + 1, step_best(cs, q, i, b))
    }
}

/// The index [`select_cascade`] returns: the best-scoring cascade over
/// the whole list, ties resolved by the scan order and the density
/// tie-break.
pub open spec fn spec_select(cs: Seq<CascadeUniform>, q: SpecAabb) -> int {
    run_select(cs, q, 0, init_best()).idx
}

/// The executable form of a squared score; its view is the [`SpecDist`]
/// it denotes.
pub enum DistSq {
    Fin { num: i128, den: i128 },
    Inf,
}

impl View for DistSq {
    type V = SpecDist;

    open spec fn view(&self) -> SpecDist {
        match *self {
            DistSq::Fin { num, den } => SpecDist::Fin { num: num as int, den: den as int },
            DistSq::Inf => SpecDist::Inf,
        }
    }
}

/// Compares two fractions with positive denominators by cross
/// multiplication.
fn frac_lt_exec(a: Frac, b: Frac) -> (r: bool)
    requires
        -(SLAB_LIMIT as int) <= a@.num <= SLAB_LIMIT as int,
        -(SLAB_LIMIT as int) <= b@.num <= SLAB_LIMIT as int,
        1 <= a@.den <= SLAB_LIMIT as int,
        1 <= b@.den <= SLAB_LIMIT as int,
    ensures
        r == frac_lt(a@, b@),
{
    proof {
        lemma_mul_bound(a@.num, b@.den, SLAB_LIMIT as int, SLAB_LIMIT as int);
        lemma_mul_bound(b@.num, a@.den, SLAB_LIMIT as int, SLAB_LIMIT as int);
    }
    a.num * b.den < b.num * a.den
}

/// The probe density used by the tie-break: the largest
/// `resolution / spacing` over the three axes, as an exact fraction.
fn relative_res_exec(c: &CascadeUniform) -> (r: Frac)
    requires
        c.wf(),
    ensures
        r@ == relative_res(*c),
        1 <= r@.num <= 4 * COORD_LIMIT as int,
        1 <= r@.den <= crate::vec3::SPACING_LIMIT as int,
{
    let fx = Frac { num: c.cascade_res.x, den: c.cascade_spacing.x };
    let fy = Frac { num: c.cascade_res.y, den: c.cascade_spacing.y };
    let fz = Frac { num: c.cascade_res.z, den: c.cascade_spacing.z };
    proof {
        lemma_res_bounded(*c);
    }
    let mxy = if frac_lt_exec(fx, fy) {
        fy
    } else {
        fx
    };
    if frac_lt_exec(mxy, fz) {
        fz
    } else {
        mxy
    }
}

/// A well-formed cascade has at most `SPAN_LIMIT` probes per axis, since
/// each axis spans at most that many world units at spacing at least one.
proof fn lemma_res_bounded(c: CascadeUniform)
    requires
        c.wf(),
    ensures
        c.cascade_res@.x <= 4 * COORD_LIMIT as int,
        c.cascade_res@.y <= 4 * COORD_LIMIT as int,
        c.cascade_res@.z <= 4 * COORD_LIMIT as int,
{
    assert(c.cascade_res@.x <= c.cascade_res@.x * c.cascade_spacing@.x) by (nonlinear_arith)
        requires
            1 <= c.cascade_res@.x,
            1 <= c.cascade_spacing@.x,
    ;
    assert(c.cascade_res@.y <= c.cascade_res@.y * c.cascade_spacing@.y) by (nonlinear_arith)
        requires
            1 <= c.cascade_res@.y,
            1 <= c.cascade_spacing@.y,
    ;
    assert(c.cascade_res@.z <= c.cascade_res@.z * c.cascade_spacing@.z) by (nonlinear_arith)
        requires
            1 <= c.cascade_res@.z,
            1 <= c.cascade_spacing@.z,
    ;
}

/// Builds the tight probe-grid box of a cascade.
fn cascade_box_exec(c: &CascadeUniform) -> (b: Aabb)
    requires
        c.wf(),
    ensures
        b@ == cascade_box(*c),
        b@.in_bounds(6 * COORD_LIMIT as int),
        b@.valid(),
{
    proof {
        lemma_res_bounded(*c);
        assert(1 <= c.cascade_res@.x * c.cascade_spacing@.x) by (nonlinear_arith)
            requires
                1 <= c.cascade_res@.x,
                1 <= c.cascade_spacing@.x,
        ;
        assert(1 <= c.cascade_res@.y * c.cascade_spacing@.y) by (nonlinear_arith)
            requires
                1 <= c.cascade_res@.y,
                1 <= c.cascade_spacing@.y,
        ;
        assert(1 <= c.cascade_res@.z * c.cascade_spacing@.z) by (nonlinear_arith)
            requires
                1 <= c.cascade_res@.z,
                1 <= c.cascade_spacing@.z,
        ;
    }
    let p = c.cascade_position;
    Aabb {
        min: p,
        max: Vec3 {
            x: p.x + c.cascade_res.x * c.cascade_spacing.x,
            y: p.y + c.cascade_res.y * c.cascade_spacing.y,
            z: p.z + c.cascade_res.z * c.cascade_spacing.z,
        },
    }
}

/// Grows the tight box by two spacing steps on every face.
fn enlarged_box_exec(c: &CascadeUniform) -> (b: Aabb)
    requires
        c.wf(),
    ensures
        b@ == enlarged_box(*c),
        b@.in_bounds(16 * COORD_LIMIT as int),
        b@.valid(),
{
    let t = cascade_box_exec(c);
    Aabb {
        min: Vec3 {
            x: t.min.x - 2 * c.cascade_spacing.x,
            y: t.min.y - 2 * c.cascade_spacing.y,
            z: t.min.z - 2 * c.cascade_spacing.z,
        },
        max: Vec3 {
            x: t.max.x + 2 * c.cascade_spacing.x,
            y: t.max.y + 2 * c.cascade_spacing.y,
            z: t.max.z + 2 * c.cascade_spacing.z,
        },
    }
}

/// Executable slab state; its parts mirror [`SpecSlab`].
struct Slab {
    miss: bool,
    has: bool,
    near: Frac,
    far: Frac,
}

impl Slab {
    spec fn view(self) -> SpecSlab {
        SpecSlab { miss: self.miss, has: self.has, near: self.near@, far: self.far@ }
    }

    /// The fractions stay inside the slab bounds with positive
    /// denominators.
    spec fn bounded(self) -> bool {
        &&& -(SLAB_LIMIT as int) <= self.near@.num <= SLAB_LIMIT as int
        &&& -(SLAB_LIMIT as int) <= self.far@.num <= SLAB_LIMIT as int
        &&& 1 <= self.near@.den <= SLAB_LIMIT as int
        &&& 1 <= self.far@.den <= SLAB_LIMIT as int
    }
}

/// Folds one axis of the tight box into the slab state; see
/// [`slab_axis`].
fn slab_axis_exec(st: Slab, lo: i64, hi: i64, o2: i64, v2: i64) -> (r: Slab)
    requires
        st.bounded(),
        -(6 * COORD_LIMIT as int) <= lo as int <= 6 * COORD_LIMIT as int,
        -(6 * COORD_LIMIT as int) <= hi as int <= 6 * COORD_LIMIT as int,
        -(2 * COORD_LIMIT as int) <= o2 as int <= 2 * COORD_LIMIT as int,
        -(14 * COORD_LIMIT as int) <= v2 as int <= 14 * COORD_LIMIT as int,
    ensures
        r.view() == slab_axis(st.view(), lo as int, hi as int, o2 as int, v2 as int),
        r.bounded(),
{
    if v2 == 0 {
        if o2 < 2 * lo || o2 > 2 * hi {
            Slab { miss: true, has: st.has, near: st.near, far: st.far }
        } else {
            st
        }
    } else {
        let near: Frac = if v2 > 0 {
            Frac { num: 2 * lo - o2, den: v2 }
        } else {
            Frac { num: o2 - 2 * hi, den: -v2 }
        };
        let far: Frac = if v2 > 0 {
            Frac { num: 2 * hi - o2, den: v2 }
        } else {
            Frac { num: o2 - 2 * lo, den: -v2 }
        };
        if st.has {
            let new_near = if frac_lt_exec(st.near, near) {
                near
            } else {
                st.near
            };
            let new_far = if frac_lt_exec(st.far, far) {
                st.far
            } else {
                far
            };
            Slab { miss: st.miss, has: true, near: new_near, far: new_far }
        } else {
            Slab { miss: st.miss, has: true, near, far }
        }
    }
}

/// Scores one cascade against the query box; see [`dist_sq`].
fn dist_sq_exec(c: &CascadeUniform, q: &Aabb) -> (d: DistSq)
    requires
        c.wf(),
        query_ok(q@),
    ensures
        d@ == dist_sq(*c, q@),
        dist_bounded(d@),
{
    let enl = enlarged_box_exec(c);
    let inter = enl.intersection(q);
    if inter.valid() {
        let qd: i128 = q.diag_sq();
        let id: i128 = inter.diag_sq();
        proof {
            lemma_square_bound(q@.diagonal().x, 2 * COORD_LIMIT as int);
            lemma_square_bound(q@.diagonal().y, 2 * COORD_LIMIT as int);
            lemma_square_bound(q@.diagonal().z, 2 * COORD_LIMIT as int);
            lemma_square_bound(inter@.diagonal().x, 2 * COORD_LIMIT as int);
            lemma_square_bound(inter@.diagonal().y, 2 * COORD_LIMIT as int);
            lemma_square_bound(inter@.diagonal().z, 2 * COORD_LIMIT as int);
        }
        if id > 0 {
            DistSq::Fin { num: qd, den: id }
        } else if qd == 0 {
            DistSq::Fin { num: 0, den: 1 }
        } else {
            DistSq::Inf
        }
    } else {
        ray_dist_sq_exec(c, q)
    }
}

/// Scores a disjoint cascade by the weighted ray cast; see
/// [`ray_dist_sq`].
#[verifier::rlimit(30)]
fn ray_dist_sq_exec(c: &CascadeUniform, q: &Aabb) -> (d: DistSq)
    requires
        c.wf(),
        query_ok(q@),
    ensures
        d@ == ray_dist_sq(*c, q@),
        dist_bounded(d@),
{
    {
        let tight = cascade_box_exec(c);
        let o2x: i64 = q.min.x + q.max.x;
        let o2y: i64 = q.min.y + q.max.y;
        let o2z: i64 = q.min.z + q.max.z;
        let vx: i64 = (tight.min.x + tight.max.x) - o2x;
        let vy: i64 = (tight.min.y + tight.max.y) - o2y;
        let vz: i64 = (tight.min.z + tight.max.z) - o2z;
        let st0 = Slab {
            miss: false,
            has: false,
            near: Frac { num: 0, den: 1 },
            far: Frac { num: 0, den: 1 },
        };
        let st1 = slab_axis_exec(st0, tight.min.x, tight.max.x, o2x, vx);
        let st2 = slab_axis_exec(st1, tight.min.y, tight.max.y, o2y, vy);
        let st = slab_axis_exec(st2, tight.min.z, tight.max.z, o2z, vz);
        if st.miss {
            DistSq::Inf
        } else if !st.has {
            DistSq::Fin { num: 0, den: 1 }
        } else if frac_lt_exec(st.far, st.near) || st.far.num < 0 {
            DistSq::Inf
        } else {
            let e: Frac = if st.near.num > 0 {
                st.near
            } else {
                Frac { num: 0, den: 1 }
            };
            proof {
                lemma_square_bound(vx as int, 14 * COORD_LIMIT as int);
                lemma_square_bound(vy as int, 14 * COORD_LIMIT as int);
                lemma_square_bound(vz as int, 14 * COORD_LIMIT as int);
                lemma_square_bound(e@.num, SLAB_LIMIT as int);
                lemma_square_bound(e@.den, SLAB_LIMIT as int);
            }
            let v_sq: i128 = (vx as i128) * (vx as i128) + (vy as i128) * (vy as i128) + (
            vz as i128) * (vz as i128);
            let e_num_sq: i128 = (e.num as i128) * (e.num as i128);
            let e_den_sq: i128 = (e.den as i128) * (e.den as i128);
            let w2: i128 = (OUTSIDE_WEIGHT * OUTSIDE_WEIGHT) as i128;
            proof {
                lemma_mul_bound(w2 as int, v_sq as int, 10000, 9865003008);
                lemma_mul_bound(w2 as int * v_sq as int, e_num_sq as int, 98650030080000,
                    0x1_0000_0000int);
                crate::arith::lemma_mul_nonneg(w2 as int, v_sq as int);
                crate::arith::lemma_mul_nonneg(w2 as int * v_sq as int, e_num_sq as int);
                assert(e_den_sq >= 1) by (nonlinear_arith)
                    requires
                        e_den_sq == e@.den * e@.den,
                        e@.den >= 1,
                ;
            }
            DistSq::Fin { num: w2 * v_sq * e_num_sq, den: 4 * e_den_sq }
        }
    }
}

/// Compares two squared scores; see [`dist_lt`].
fn dist_lt_exec(a: &DistSq, b: &DistSq) -> (r: bool)
    requires
        dist_bounded(a@),
        dist_bounded(b@),
    ensures
        r == dist_lt(a@, b@),
{
    match (a, b) {
        (DistSq::Fin { num: an, den: ad }, DistSq::Fin { num: bn, den: bd }) => {
            proof {
                lemma_mul_bound(*an as int, *bd as int, DIST_NUM_LIMIT as int,
                    DIST_DEN_LIMIT as int);
                lemma_mul_bound(*bn as int, *ad as int, DIST_NUM_LIMIT as int,
                    DIST_DEN_LIMIT as int);
            }
            *an * *bd < *bn * *ad
        },
        (DistSq::Fin { .. }, DistSq::Inf) => true,
        (DistSq::Inf, _) => false,
    }
}

/// Compares a squared score against eleven tenths of another; see
/// [`dist_lt_margin`].
fn dist_lt_margin_exec(a: &DistSq, b: &DistSq) -> (r: bool)
    requires
        dist_bounded(a@),
        dist_bounded(b@),
    ensures
        r == dist_lt_margin(a@, b@),
{
    match (a, b) {
        (DistSq::Fin { num: an, den: ad }, DistSq::Fin { num: bn, den: bd }) => {
            proof {
                lemma_mul_bound(*an as int, *bd as int, DIST_NUM_LIMIT as int,
                    DIST_DEN_LIMIT as int);
                lemma_mul_bound(*bn as int, *ad as int, DIST_NUM_LIMIT as int,
                    DIST_DEN_LIMIT as int);
            }
            100 * (*an * *bd) < 121 * (*bn * *ad)
        },
        (DistSq::Fin { .. }, DistSq::Inf) => true,
        (DistSq::Inf, _) => false,
    }
}

/// The query genuinely overlaps the cascade's tight probe grid.
fn tight_intersects_exec(c: &CascadeUniform, q: &Aabb) -> (r: bool)
    requires
        c.wf(),
        query_ok(q@),
    ensures
        r == tight_intersects(*c, q@),
{
    let tight = cascade_box_exec(c);
    tight.intersection(q).valid()
}

/// Returns the index of the cascade that best represents lighting inside
/// the query box, scanning the whole list and keeping the best score,
/// with near-ties broken toward higher probe density on genuine overlap.
/// The list must not be empty; ties and everything else are pinned down
/// by [`spec_select`]. Deterministic and free of side effects, so
/// per-draw calls may run in any order or in parallel over a list that
/// stays unchanged for the frame.
pub fn select_cascade(cascades: &Vec<CascadeUniform>, draw_aabb: Aabb) -> (idx: u32)
    requires
        cascades@.len() >= 1,
        cascades@.len() <= u32::MAX,
        forall|k: int| 0 <= k < cascades@.len() ==> (#[trigger] cascades@[k]).wf(),
        query_ok(draw_aabb@),
    ensures
        idx as int == spec_select(cascades@, draw_aabb@),
        (idx as int) < cascades@.len(),
{
    let ghost cs = cascades@;
    let ghost q = draw_aabb@;
    let mut best_i: usize = 0;
    let mut best_d: DistSq = DistSq::Inf;
    let mut best_r: Frac = Frac { num: 0, den: 1 };
    let mut i: usize = 0;
    while i < cascades.len()
        invariant
            cs == cascades@,
            q == draw_aabb@,
            0 <= i <= cs.len(),
            1 <= cs.len() <= u32::MAX,
            forall|k: int| 0 <= k < cs.len() ==> (#[trigger] cs[k]).wf(),
            query_ok(q),
            (best_i as int) < cs.len(),
            dist_bounded(best_d@),
            0 <= best_r@.num <= 4 * COORD_LIMIT as int,
            1 <= best_r@.den <= crate::vec3::SPACING_LIMIT as int,
            run_select(cs, q, i as int, SpecBest { idx: best_i as int, dist: best_d@, rel: best_r@ })
                == run_select(cs, q, 0, init_best()),
        decreases cs.len() - i,
    {
        let ghost before = SpecBest { idx: best_i as int, dist: best_d@, rel: best_r@ };
        let c = &cascades[i];
        let d = dist_sq_exec(c, &draw_aabb);
        let take = if dist_lt_exec(&d, &best_d) {
            true
        } else if dist_lt_margin_exec(&d, &best_d) && tight_intersects_exec(c, &draw_aabb) {
            let r = relative_res_exec(c);
            frac_lt_exec(best_r, r)
        } else {
            false
        };
        proof {
            assert(take == accepts(cs[i as int], q, before));
        }
        if take {
            best_i = i;
            best_d = d;
            let r = relative_res_exec(c);
            best_r = r;
        }
        proof {
            let after = SpecBest { idx: best_i as int, dist: best_d@, rel: best_r@ };
            assert(after == step_best(cs, q, i as int, before));
            assert(run_select(cs, q, i as int, before) == run_select(cs, q, i + 1, after));
        }
        i = i + 1;
    }
    proof {
        assert(run_select(cs, q, cs.len() as int, SpecBest {
            idx: best_i as int,
            dist: best_d@,
            rel: best_r@,
        }) == SpecBest { idx: best_i as int, dist: best_d@, rel: best_r@ });
    }
    best_i as u32
}

/// The checked form of [`select_cascade`] for callers that cannot rule
/// out an empty list themselves: an empty collection is answered with
/// `None` instead of an out-of-range index.
pub fn try_select_cascade(cascades: &Vec<CascadeUniform>, draw_aabb: Aabb) -> (r: Option<u32>)
    requires
        cascades@.len() <= u32::MAX,
        forall|k: int| 0 <= k < cascades@.len() ==> (#[trigger] cascades@[k]).wf(),
        query_ok(draw_aabb@),
    ensures
        r is Some <==> cascades@.len() >= 1,
        r matches Some(idx) ==> idx as int == spec_select(cascades@, draw_aabb@) && (idx as int)
            < cascades@.len(),
{
    if cascades.len() == 0 {
        None
    } else {
        Some(select_cascade(cascades, draw_aabb))
    }
}

/// Selects the cascade lighting a single world-space point — the form of
/// the query used for the viewer position. The point query is a
/// zero-diagonal box, so a cascade whose influence region reaches the
/// point counts as a perfect match.
pub fn select_cascade_for_point(cascades: &Vec<CascadeUniform>, p: Vec3) -> (idx: u32)
    requires
        cascades@.len() >= 1,
        cascades@.len() <= u32::MAX,
        forall|k: int| 0 <= k < cascades@.len() ==> (#[trigger] cascades@[k]).wf(),
        p@.in_bounds(COORD_LIMIT as int),
    ensures
        idx as int == spec_select(cascades@, SpecAabb { min: p@, max: p@ }),
        (idx as int) < cascades@.len(),
{
    let q = Aabb::from_point(p);
    select_cascade(cascades, q)
}

/// The prepare-stage batch form: one selection per drawable object's
/// world-space bounds, in draw order. Each draw's selection reads only
/// the frame's cascade list and its own box, so the per-draw results are
/// independent of each other.
pub fn select_for_draws(cascades: &Vec<CascadeUniform>, draw_bounds: &Vec<Aabb>) -> (v: Vec<u32>)
    requires
        cascades@.len() >= 1,
        cascades@.len() <= u32::MAX,
        forall|k: int| 0 <= k < cascades@.len() ==> (#[trigger] cascades@[k]).wf(),
        forall|k: int| 0 <= k < draw_bounds@.len() ==> query_ok((#[trigger] draw_bounds@[k])@),
    ensures
        v@.len() == draw_bounds@.len(),
        forall|k: int|
            0 <= k < draw_bounds@.len() ==> (#[trigger] v@[k]) as int == spec_select(
                cascades@,
                draw_bounds@[k]@,
            ),
{
    let mut v: Vec<u32> = Vec::new();
    let mut i: usize = 0;
    while i < draw_bounds.len()
        invariant
            cascades@.len() >= 1,
            cascades@.len() <= u32::MAX,
            forall|k: int| 0 <= k < cascades@.len() ==> (#[trigger] cascades@[k]).wf(),
            forall|k: int| 0 <= k < draw_bounds@.len() ==> query_ok((#[trigger] draw_bounds@[k])@),
            0 <= i <= draw_bounds@.len(),
            v@.len() == i,
            forall|k: int|
                0 <= k < i ==> (#[trigger] v@[k]) as int == spec_select(
                    cascades@,
                    draw_bounds@[k]@,
                ),
        decreases draw_bounds@.len() - i,
    {
        let idx = select_cascade(cascades, draw_bounds[i]);
        v.push(idx);
        i = i + 1;
    }
    v
}

/// Every score [`dist_sq`] builds is a nonnegative fraction over a
/// positive denominator (or infinite).
pub proof fn lemma_dist_sq_wf(c: CascadeUniform, q: SpecAabb)
    ensures
        dist_wf(dist_sq(c, q)),
{
    let inter = enlarged_box(c).intersection(q);
    if inter.valid() {
        let d = q.diagonal();
        assert(d.x * d.x >= 0) by (nonlinear_arith);
        assert(d.y * d.y >= 0) by (nonlinear_arith);
        assert(d.z * d.z >= 0) by (nonlinear_arith);
    } else {
        lemma_ray_dist_sq_wf(c, q);
    }
}

/// The ray-cast fallback score is well formed too.
proof fn lemma_ray_dist_sq_wf(c: CascadeUniform, q: SpecAabb)
    ensures
        dist_wf(ray_dist_sq(c, q)),
{
    let b = cascade_box(c);
    let o2 = q.center2();
    let c2 = b.center2();
    let vx: int = c2.x - o2.x;
    let vy: int = c2.y - o2.y;
    let vz: int = c2.z - o2.z;
    let st0 = SpecSlab {
        miss: false,
        has: false,
        near: SpecFrac { num: 0, den: 1 },
        far: SpecFrac { num: 0, den: 1 },
    };
    let st1 = slab_axis(st0, b.min.x, b.max.x, o2.x, vx);
    let st2 = slab_axis(st1, b.min.y, b.max.y, o2.y, vy);
    let st = slab_axis(st2, b.min.z, b.max.z, o2.z, vz);
    assert(st1.near.den >= 1 && st1.far.den >= 1);
    assert(st2.near.den >= 1 && st2.far.den >= 1);
    assert(st.near.den >= 1 && st.far.den >= 1);
    if !st.miss && st.has && !(frac_lt(st.far, st.near) || st.far.num < 0) {
        let e = if st.near.num > 0 {
            st.near
        } else {
            SpecFrac { num: 0, den: 1 }
        };
        let v_sq: int = vx * vx + vy * vy + vz * vz;
        assert(vx * vx >= 0) by (nonlinear_arith);
        assert(vy * vy >= 0) by (nonlinear_arith);
        assert(vz * vz >= 0) by (nonlinear_arith);
        assert(e.num * e.num >= 0) by (nonlinear_arith);
        crate::arith::lemma_mul_nonneg(100int * 100 * v_sq, e.num * e.num);
        crate::arith::lemma_mul_nonneg(100int * 100, v_sq);
        assert(e.den * e.den >= 1) by (nonlinear_arith)
            requires
                e.den >= 1,
        ;
    }
}

/// The selector's order is transitive: from `x <= y` and `y <= z`
/// (equivalently `y < z`) follows `x <= z`, over well-formed scores.
proof fn lemma_dist_order(x: SpecDist, y: SpecDist, z: SpecDist)
    requires
        dist_wf(x),
        dist_wf(y),
        dist_wf(z),
    ensures
        !dist_lt(y, x) && !dist_lt(z, y) ==> !dist_lt(z, x),
        !dist_lt(y, x) && dist_lt(y, z) ==> !dist_lt(z, x),
{
    if x is Fin && y is Fin && z is Fin {
        let xn = x->num;
        let xd = x->den;
        let yn = y->num;
        let yd = y->den;
        let zn = z->num;
        let zd = z->den;
        if !dist_lt(y, x) && !dist_lt(z, y) {
            assert(xn * zd <= zn * xd) by (nonlinear_arith)
                requires
                    xn * yd <= yn * xd,
                    yn * zd <= zn * yd,
                    xd >= 1,
                    yd >= 1,
                    zd >= 1,
            ;
        }
        if !dist_lt(y, x) && dist_lt(y, z) {
            assert(xn * zd < zn * xd) by (nonlinear_arith)
                requires
                    xn * yd <= yn * xd,
                    yn * zd < zn * yd,
                    xd >= 1,
                    yd >= 1,
                    zd >= 1,
            ;
        }
    }
}

/// After scanning cascades `i..` none of which genuinely overlaps the
/// query, the running best only ever improves, the final best is no
/// farther than any cascade scanned, and it is either the incoming best
/// or one of the scanned cascades with its own score.
proof fn lemma_run_select_min(cs: Seq<CascadeUniform>, q: SpecAabb, i: int, b: SpecBest)
    requires
        0 <= i <= cs.len(),
        forall|k: int| i <= k < cs.len() ==> !tight_intersects(#[trigger] cs[k], q),
        dist_wf(b.dist),
    ensures
        !dist_lt(b.dist, run_select(cs, q, i, b).dist),
        forall|k: int|
            i <= k < cs.len() ==> !dist_lt(
                dist_sq(#[trigger] cs[k], q),
                run_select(cs, q, i, b).dist,
            ),
        dist_wf(run_select(cs, q, i, b).dist),
        (run_select(cs, q, i, b).idx == b.idx && run_select(cs, q, i, b).dist == b.dist) || (i
            <= run_select(cs, q, i, b).idx < cs.len() && run_select(cs, q, i, b).dist == dist_sq(
            cs[run_select(cs, q, i, b).idx],
            q,
        )),
    decreases cs.len() - i,
{
    if i < cs.len() {
        let di = dist_sq(cs[i], q);
        lemma_dist_sq_wf(cs[i], q);
        let nb = step_best(cs, q, i, b);
        let r = run_select(cs, q, i + 1, nb);
        lemma_run_select_min(cs, q, i + 1, nb);
        if accepts(cs[i], q, b) {
            assert(dist_lt(di, b.dist));
            lemma_dist_order(r.dist, di, b.dist);
        } else {
            assert(!dist_lt(di, b.dist));
            lemma_dist_order(r.dist, b.dist, di);
        }
    }
}

/// When no cascade's enlarged influence region intersects the query, a
/// well-formed cascade's tight grid cannot intersect it either.
proof fn lemma_disjoint_tight(c: CascadeUniform, q: SpecAabb)
    requires
        c.wf(),
        !enlarged_box(c).intersection(q).valid(),
    ensures
        !tight_intersects(c, q),
{
}

/// When no cascade's enlarged influence region intersects the query box,
/// the selector returns the cascade whose weighted ray-cast score is
/// smallest: no cascade in the list scores strictly less than the
/// selected one.
pub proof fn lemma_disjoint_selects_nearest(cs: Seq<CascadeUniform>, q: SpecAabb)
    requires
        cs.len() >= 1,
        forall|k: int| 0 <= k < cs.len() ==> (#[trigger] cs[k]).wf(),
        forall|k: int|
            0 <= k < cs.len() ==> !enlarged_box(#[trigger] cs[k]).intersection(q).valid(),
    ensures
        0 <= spec_select(cs, q) < cs.len(),
        forall|j: int|
            0 <= j < cs.len() ==> !dist_lt(
                dist_sq(#[trigger] cs[j], q),
                dist_sq(cs[spec_select(cs, q)], q),
            ),
{
    assert forall|k: int| 0 <= k < cs.len() implies !tight_intersects(#[trigger] cs[k], q) by {
        lemma_disjoint_tight(cs[k], q);
    }
    lemma_run_select_idx(cs, q, 0, init_best());
    lemma_run_select_min(cs, q, 0, init_best());
    let r = run_select(cs, q, 0, init_best());
    if r.idx == 0 && r.dist == SpecDist::Inf {
        assert forall|j: int| 0 <= j < cs.len() implies !dist_lt(
            dist_sq(#[trigger] cs[j], q),
            dist_sq(cs[r.idx], q),
        ) by {
            assert(!dist_lt(dist_sq(cs[j], q), r.dist));
            assert(!dist_lt(dist_sq(cs[0], q), r.dist));
        }
    }
}

/// The selector's result always indexes into the list.
proof fn lemma_run_select_idx(cs: Seq<CascadeUniform>, q: SpecAabb, i: int, b: SpecBest)
    requires
        0 <= b.idx < cs.len(),
        0 <= i,
    ensures
        0 <= run_select(cs, q, i, b).idx < cs.len(),
    decreases cs.len() - i,
{
    if i < cs.len() {
        lemma_run_select_idx(cs, q, i + 1, step_best(cs, q, i, b));
    }
}

/// On a non-empty list the selected index is always in range.
pub proof fn lemma_select_in_range(cs: Seq<CascadeUniform>, q: SpecAabb)
    requires
        cs.len() >= 1,
    ensures
        0 <= spec_select(cs, q) < cs.len(),
{
    lemma_run_select_idx(cs, q, 0, init_best());
}

/// With a single candidate the selector can only answer index 0.
pub proof fn lemma_select_single(cs: Seq<CascadeUniform>, q: SpecAabb)
    requires
        cs.len() == 1,
    ensures
        spec_select(cs, q) == 0,
{
    lemma_select_in_range(cs, q);
}

/// The tie-break in the general two-candidate form: the second cascade
/// scores no better than the first (it would win outright if it did)
/// but within the ten-percent margin, genuinely overlaps the query's
/// probe grid, and offers strictly higher probe density — so the
/// selector prefers it.
pub proof fn lemma_tiebreak_prefers_density(c0: CascadeUniform, c1: CascadeUniform, q: SpecAabb)
    requires
        dist_sq(c0, q) is Fin,
        !dist_lt(dist_sq(c1, q), dist_sq(c0, q)),
        dist_lt_margin(dist_sq(c1, q), dist_sq(c0, q)),
        tight_intersects(c1, q),
        frac_lt(relative_res(c0), relative_res(c1)),
    ensures
        spec_select(seq![c0, c1], q) == 1,
{
    let cs = seq![c0, c1];
    let b1 = step_best(cs, q, 0, init_best());
    assert(accepts(cs[0], q, init_best()));
    assert(b1 == (SpecBest { idx: 0, dist: dist_sq(c0, q), rel: relative_res(c0) }));
    assert(accepts(cs[1], q, b1));
    let b2 = step_best(cs, q, 1, b1);
    assert(b2.idx == 1);
    assert(run_select(cs, q, 2, b2) == b2);
    assert(run_select(cs, q, 1, b1) == run_select(cs, q, 2, b2));
    assert(run_select(cs, q, 0, init_best()) == run_select(cs, q, 1, b1));
    assert(spec_select(cs, q) == 1);
}

/// The tie-break as it plays out on containment: when two cascades both
/// fully contain a real query box their fit scores are exactly equal,
/// and the one with the higher probe density wins — here the second.
pub proof fn lemma_contained_tiebreak(c0: CascadeUniform, c1: CascadeUniform, q: SpecAabb)
    requires
        c0.wf(),
        c1.wf(),
        q.valid(),
        q.diag_sq() > 0,
        cascade_box(c0).contains_box(q),
        cascade_box(c1).contains_box(q),
        frac_lt(relative_res(c0), relative_res(c1)),
    ensures
        spec_select(seq![c0, c1], q) == 1,
{
    let qd = q.diag_sq();
    lemma_contained_dist(c0, q);
    lemma_contained_dist(c1, q);
    assert(qd * qd > 0) by (nonlinear_arith)
        requires
            qd > 0,
    ;
    lemma_tiebreak_prefers_density(c0, c1, q);
}

/// A zero-diagonal query — the viewer-position form — that touches a
/// cascade's enlarged influence region at all scores it a perfect
/// (zero-distance) match, never an undefined ratio.
pub proof fn lemma_point_query_perfect_on_contact(c: CascadeUniform, q: SpecAabb)
    requires
        q.max == q.min,
        enlarged_box(c).intersection(q).valid(),
    ensures
        dist_sq(c, q) matches SpecDist::Fin { num, den } && num == 0 && den >= 1,
{
    let inter = enlarged_box(c).intersection(q);
    assert(q.diag_sq() == 0);
    if inter.diag_sq() > 0 {
        assert(dist_sq(c, q) == (SpecDist::Fin { num: 0, den: inter.diag_sq() }));
    }
}

/// A cascade whose tight grid fully contains a real query box scores
/// exactly the query diagonal over itself: a fixed, finite fit.
proof fn lemma_contained_dist(c: CascadeUniform, q: SpecAabb)
    requires
        c.wf(),
        q.valid(),
        q.diag_sq() > 0,
        cascade_box(c).contains_box(q),
    ensures
        dist_sq(c, q) == (SpecDist::Fin { num: q.diag_sq(), den: q.diag_sq() }),
        tight_intersects(c, q),
{
    assert(enlarged_box(c).intersection(q) == q);
    assert(cascade_box(c).intersection(q) == q);
}

} // verus!
