//! Declared probe volumes and their derived runtime form.
//!
//! A scene author declares a cascade as a world-space box plus a desired
//! probe spacing; deriving it fixes the probe-grid resolution (always
//! rounding up, so the declared volume is never under-sampled), the texel
//! sizes of the two baked textures, and the texture asset paths named by
//! convention from the cascade's name.

use vstd::arithmetic::div_mod::lemma_fundamental_div_mod;
use vstd::arithmetic::div_mod::lemma_mod_division_less_than_divisor;
use vstd::prelude::*;
use vstd::string::StringExecFns;

use crate::aabb::Aabb;
use crate::vec3::COORD_LIMIT;
use crate::vec3::SPACING_LIMIT;
use crate::vec3::SpecVec3;
use crate::vec3::Vec3;

verus! {

/// Physical footprint of one probe before atlas padding, in world units.
/// A fixed property of the bake, not derived from the declaration.
pub const PROBE_SIZE: i64 = 6;

/// Side length in texels of the fixed-size lighting atlas; the lighting
/// texel size is its reciprocal, independent of probe count.
pub const GI_ATLAS_SIZE: i64 = 2048;

/// Largest world-unit span `probe_resolution * spacing` a derived cascade
/// may have on one axis. Holds for every derived cascade because the
/// declared box fits the world cube and rounding up adds less than one
/// spacing step.
pub const SPAN_LIMIT: i64 = 16384;

/// An exact nonnegative rational, used for the texel sizes handed to the
/// renderer (which only ever divides by them).
#[derive(Clone, Copy, PartialEq, Eq, Structural, Debug)]
pub struct Frac {
    pub num: i64,
    pub den: i64,
}

/// The mathematical value of a [`Frac`]: an unbounded numerator over a
/// denominator meant to be positive.
pub struct SpecFrac {
    pub num: int,
    pub den: int,
}

impl View for Frac {
    type V = SpecFrac;

    open spec fn view(&self) -> SpecFrac {
        SpecFrac { num: self.num as int, den: self.den as int }
    }
}

impl Frac {
    /// The denominator is positive and the numerator nonnegative.
    pub open spec fn wf(self) -> bool {
        self.num >= 0 && self.den >= 1
    }
}

/// Texture sampling filter, for one of the mag/min/mip stages.
#[derive(Clone, Copy, PartialEq, Eq, Structural, Debug)]
pub enum FilterMode {
    Nearest,
    Linear,
}

/// Texture addressing outside the unit interval, for one axis.
#[derive(Clone, Copy, PartialEq, Eq, Structural, Debug)]
pub enum AddressMode {
    ClampToEdge,
    Repeat,
}

/// How a texture must be sampled: one filter per stage, one address mode
/// per axis.
#[derive(Clone, Copy, PartialEq, Eq, Structural, Debug)]
pub struct SamplerConfig {
    pub mag_filter: FilterMode,
    pub min_filter: FilterMode,
    pub mipmap_filter: FilterMode,
    pub address_mode_u: AddressMode,
    pub address_mode_v: AddressMode,
    pub address_mode_w: AddressMode,
}

/// Nearest filtering on every stage, clamp-to-edge on every axis.
pub open spec fn spec_sampler_nearest_clamp() -> SamplerConfig {
    SamplerConfig {
        mag_filter: FilterMode::Nearest,
        min_filter: FilterMode::Nearest,
        mipmap_filter: FilterMode::Nearest,
        address_mode_u: AddressMode::ClampToEdge,
        address_mode_v: AddressMode::ClampToEdge,
        address_mode_w: AddressMode::ClampToEdge,
    }
}

/// The sampler the index texture requires: it stores discrete lookup
/// indices, so any filtering or wrap-around sampling would corrupt the
/// decoded index.
pub fn sampler_nearest_clamp() -> (s: SamplerConfig)
    ensures
        s == spec_sampler_nearest_clamp(),
{
    SamplerConfig {
        mag_filter: FilterMode::Nearest,
        min_filter: FilterMode::Nearest,
        mipmap_filter: FilterMode::Nearest,
        address_mode_u: AddressMode::ClampToEdge,
        address_mode_v: AddressMode::ClampToEdge,
        address_mode_w: AddressMode::ClampToEdge,
    }
}

/// The author-declared placement of one probe volume: a unique name (it
/// addresses the baked texture assets), the world-space box the volume
/// spans, and the desired probe spacing per axis.
pub struct CascadeInput {
    pub name: String,
    pub ws_aabb: Aabb,
    pub spacing: Vec3,
}

impl Clone for CascadeInput {
    /// A clone is equal to the original, name included.
    fn clone(&self) -> (res: Self)
        ensures
            res == *self,
    {
        CascadeInput { name: self.name.clone(), ws_aabb: self.ws_aabb, spacing: self.spacing }
    }
}

impl CascadeInput {
    /// A declaration the deriver accepts: the box has positive extent on
    /// every axis, fits the world cube, and the spacing is a positive
    /// world-unit step within bounds.
    pub open spec fn wf(self) -> bool {
        &&& self.ws_aabb@.min.x < self.ws_aabb@.max.x
        &&& self.ws_aabb@.min.y < self.ws_aabb@.max.y
        &&& self.ws_aabb@.min.z < self.ws_aabb@.max.z
        &&& self.ws_aabb@.in_bounds(COORD_LIMIT as int)
        &&& 1 <= self.spacing@.x <= SPACING_LIMIT as int
        &&& 1 <= self.spacing@.y <= SPACING_LIMIT as int
        &&& 1 <= self.spacing@.z <= SPACING_LIMIT as int
    }
}

/// `d / s` rounded up: the number of spacing-sized steps needed to cover
/// a span of `d`.
pub open spec fn ceil_div(d: int, s: int) -> int {
    (d + s - 1) / s
}

/// The probe-grid resolution a declaration derives to: the ceiling of the
/// box diagonal over the spacing, per axis, so the grid always covers the
/// full declared volume.
pub open spec fn spec_resolution(input: CascadeInput) -> SpecVec3 {
    let d = input.ws_aabb@.diagonal();
    SpecVec3 {
        x: ceil_div(d.x, input.spacing@.x),
        y: ceil_div(d.y, input.spacing@.y),
        z: ceil_div(d.z, input.spacing@.z),
    }
}

/// What rounding a span up to whole spacing steps guarantees: at least
/// one step, never more steps than world units, and a covered span that
/// reaches `d` without overshooting by a full step.
pub proof fn lemma_ceil_div_props(d: int, s: int)
    requires
        1 <= d,
        1 <= s,
    ensures
        1 <= ceil_div(d, s),
        ceil_div(d, s) <= d,
        d <= s * ceil_div(d, s) <= d + s - 1,
        d <= ceil_div(d, s) * s <= d + s - 1,
{
    let n = ceil_div(d, s);
    let x = d + s - 1;
    lemma_fundamental_div_mod(x, s);
    lemma_mod_division_less_than_divisor(x, s);
    assert(s * n == x - (x % s));
    assert(s * n >= d);
    assert(s * n == n * s) by (nonlinear_arith);
    assert(n >= 1) by (nonlinear_arith)
        requires
            s >= 1,
            s * n >= d,
            d >= 1,
    ;
    assert(n <= d) by (nonlinear_arith)
        requires
            s >= 1,
            d >= 1,
            s * n <= d + s - 1,
    ;
}

/// The runtime form of one cascade, bound per draw by the renderer: the
/// volume's placement and probe grid, the texel sizes needed to address
/// the two baked textures, and the textures' asset paths.
pub struct CascadeUniform {
    /// Asset path of the baked lighting texture.
    pub probes_gi: String,
    /// Asset path of the baked index texture.
    pub probes_id: String,
    /// Sampler the index texture must be loaded with.
    pub id_sampler: SamplerConfig,
    /// World-space minimum corner of the volume.
    pub cascade_position: Vec3,
    /// Probes per axis.
    pub cascade_res: Vec3,
    /// World units between neighboring probes, per axis.
    pub cascade_spacing: Vec3,
    /// Physical probe footprint before padding, in world units.
    pub probe_size: i64,
    /// Texel size of the lighting atlas.
    pub gi_texel: Frac,
    /// Texel size of the index texture: the 3D grid is flattened to 2D,
    /// x direct, y and z tiled together.
    pub id_texel_x: Frac,
    pub id_texel_y: Frac,
}

impl Clone for CascadeUniform {
    /// A clone is equal to the original, paths included.
    fn clone(&self) -> (res: Self)
        ensures
            res == *self,
    {
        CascadeUniform {
            probes_gi: self.probes_gi.clone(),
            probes_id: self.probes_id.clone(),
            id_sampler: self.id_sampler,
            cascade_position: self.cascade_position,
            cascade_res: self.cascade_res,
            cascade_spacing: self.cascade_spacing,
            probe_size: self.probe_size,
            gi_texel: self.gi_texel,
            id_texel_x: self.id_texel_x,
            id_texel_y: self.id_texel_y,
        }
    }
}

impl CascadeUniform {
    /// What the selector needs of a cascade: placement inside the world
    /// cube, positive bounded spacing, at least one probe per axis, and a
    /// bounded world-unit span per axis.
    pub open spec fn wf(self) -> bool {
        &&& self.cascade_position@.in_bounds(COORD_LIMIT as int)
        &&& 1 <= self.cascade_spacing@.x <= SPACING_LIMIT as int
        &&& 1 <= self.cascade_spacing@.y <= SPACING_LIMIT as int
        &&& 1 <= self.cascade_spacing@.z <= SPACING_LIMIT as int
        &&& 1 <= self.cascade_res@.x
        &&& 1 <= self.cascade_res@.y
        &&& 1 <= self.cascade_res@.z
        &&& self.cascade_res@.x * self.cascade_spacing@.x <= SPAN_LIMIT as int
        &&& self.cascade_res@.y * self.cascade_spacing@.y <= SPAN_LIMIT as int
        &&& self.cascade_res@.z * self.cascade_spacing@.z <= SPAN_LIMIT as int
        &&& self.gi_texel.wf()
        &&& self.id_texel_x.wf()
        &&& self.id_texel_y.wf()
    }
}

/// The viewer's runtime cascade form. Structurally identical to
/// [`CascadeUniform`] but bound separately, because "which cascade lights
/// the eye point" and "which cascade lights this object" are selected
/// independently within the same frame.
pub struct CascadeViewUniform {
    pub probes_gi: String,
    pub probes_id: String,
    pub id_sampler: SamplerConfig,
    pub cascade_position: Vec3,
    pub cascade_res: Vec3,
    pub cascade_spacing: Vec3,
    pub probe_size: i64,
    pub gi_texel: Frac,
    pub id_texel_x: Frac,
    pub id_texel_y: Frac,
}

/// Asset path of the baked lighting texture for a cascade name.
pub open spec fn spec_gi_path(name: Seq<char>) -> Seq<char> {
    "bake/probes_gi_"@ + name + ".png"@
}

/// Asset path of the baked index texture for a cascade name.
pub open spec fn spec_id_path(name: Seq<char>) -> Seq<char> {
    "bake/probes_id_"@ + name + ".png"@
}

/// Builds the lighting-texture asset path for `name`.
pub fn gi_path(name: &String) -> (r: String)
    ensures
        r@ == spec_gi_path(name@),
{
    let mut s = String::from_str("bake/probes_gi_");
    s.append(name.as_str());
    s.append(".png");
    s
}

/// Builds the index-texture asset path for `name`.
pub fn id_path(name: &String) -> (r: String)
    ensures
        r@ == spec_id_path(name@),
{
    let mut s = String::from_str("bake/probes_id_");
    s.append(name.as_str());
    s.append(".png");
    s
}

/// Everything [`CascadeInput::into_uniform`] promises of its result, so
/// the viewer variant and the registry can state the same thing.
pub open spec fn derived_from(r: CascadeUniform, input: CascadeInput) -> bool {
    &&& r.probes_gi@ == spec_gi_path(input.name@)
    &&& r.probes_id@ == spec_id_path(input.name@)
    &&& r.id_sampler == spec_sampler_nearest_clamp()
    &&& r.cascade_position == input.ws_aabb.min
    &&& r.cascade_res@ == spec_resolution(input)
    &&& r.cascade_spacing == input.spacing
    &&& r.probe_size == PROBE_SIZE as int
    &&& r.gi_texel == (Frac { num: 1, den: GI_ATLAS_SIZE })
    &&& r.id_texel_x.num == 1 && r.id_texel_x.den == spec_resolution(input).x
    &&& r.id_texel_y.num == 1 && r.id_texel_y.den == spec_resolution(input).y * spec_resolution(
        input,
    ).z
}

/// The viewer variant carries the same derived data as the draw variant
/// would.
pub open spec fn view_derived_from(r: CascadeViewUniform, input: CascadeInput) -> bool {
    derived_from(
        CascadeUniform {
            probes_gi: r.probes_gi,
            probes_id: r.probes_id,
            id_sampler: r.id_sampler,
            cascade_position: r.cascade_position,
            cascade_res: r.cascade_res,
            cascade_spacing: r.cascade_spacing,
            probe_size: r.probe_size,
            gi_texel: r.gi_texel,
            id_texel_x: r.id_texel_x,
            id_texel_y: r.id_texel_y,
        },
        input,
    )
}

impl CascadeInput {
    /// Derives the runtime form of this declaration. Pure: the result is
    /// a function of the declaration alone, so deriving twice gives the
    /// same value. The probe grid covers the declared volume on every
    /// axis (`res * spacing` reaches the diagonal) without overshooting
    /// by a full spacing step.
    pub fn into_uniform(&self) -> (r: CascadeUniform)
        requires
            self.wf(),
        ensures
            derived_from(r, *self),
            r.wf(),
            self.ws_aabb@.diagonal().x <= r.cascade_res@.x * r.cascade_spacing@.x,
            self.ws_aabb@.diagonal().y <= r.cascade_res@.y * r.cascade_spacing@.y,
            self.ws_aabb@.diagonal().z <= r.cascade_res@.z * r.cascade_spacing@.z,
    {
        proof {
            lemma_ceil_div_props(self.ws_aabb@.diagonal().x, self.spacing@.x);
            lemma_ceil_div_props(self.ws_aabb@.diagonal().y, self.spacing@.y);
            lemma_ceil_div_props(self.ws_aabb@.diagonal().z, self.spacing@.z);
        }
        let dx: i64 = self.ws_aabb.max.x - self.ws_aabb.min.x;
        let dy: i64 = self.ws_aabb.max.y - self.ws_aabb.min.y;
        let dz: i64 = self.ws_aabb.max.z - self.ws_aabb.min.z;
        let rx: i64 = (dx + self.spacing.x - 1) / self.spacing.x;
        let ry: i64 = (dy + self.spacing.y - 1) / self.spacing.y;
        let rz: i64 = (dz + self.spacing.z - 1) / self.spacing.z;
        proof {
            crate::arith::lemma_mul_bound(ry as int, rz as int, 2 * COORD_LIMIT as int, 2
                * COORD_LIMIT as int);
            assert(ry as int * rz as int >= 1) by (nonlinear_arith)
                requires
                    ry >= 1,
                    rz >= 1,
            ;
        }
        CascadeUniform {
            probes_gi: gi_path(&self.name),
            probes_id: id_path(&self.name),
            id_sampler: sampler_nearest_clamp(),
            cascade_position: self.ws_aabb.min,
            cascade_res: Vec3 { x: rx, y: ry, z: rz },
            cascade_spacing: self.spacing,
            probe_size: PROBE_SIZE,
            gi_texel: Frac { num: 1, den: GI_ATLAS_SIZE },
            id_texel_x: Frac { num: 1, den: rx },
            id_texel_y: Frac { num: 1, den: ry * rz },
        }
    }

    /// Derives the viewer-query variant; same derivation, bound under its
    /// own slot.
    pub fn into_view_uniform(&self) -> (r: CascadeViewUniform)
        requires
            self.wf(),
        ensures
            view_derived_from(r, *self),
    {
        let u = self.into_uniform();
        CascadeViewUniform {
            probes_gi: u.probes_gi,
            probes_id: u.probes_id,
            id_sampler: u.id_sampler,
            cascade_position: u.cascade_position,
            cascade_res: u.cascade_res,
            cascade_spacing: u.cascade_spacing,
            probe_size: u.probe_size,
            gi_texel: u.gi_texel,
            id_texel_x: u.id_texel_x,
            id_texel_y: u.id_texel_y,
        }
    }
}

} // verus!
