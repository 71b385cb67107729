//! Reading a cascade declaration out of scene-node authoring data.
//!
//! A scene node declares a probe volume by carrying a desired probe
//! spacing in its metadata; the volume's world box is the node's
//! translation extended by its scale on every side. A node without the
//! metadata is simply not a cascade volume, and metadata that is present
//! but unusable (a nonpositive spacing or scale, or a volume outside the
//! world bounds) is skipped the same way — a recoverable condition,
//! never a failure.

use vstd::prelude::*;

use crate::aabb::Aabb;
use crate::cascade::CascadeInput;
use crate::vec3::COORD_LIMIT;
use crate::vec3::SPACING_LIMIT;
use crate::vec3::SpecVec3;
use crate::vec3::Vec3;

verus! {

/// The node data declares a usable cascade volume: spacing metadata is
/// present and positive within bounds, the scale is positive on every
/// axis, and the resulting box lies inside the world cube.
pub open spec fn node_declares_cascade(
    translation: SpecVec3,
    scale: SpecVec3,
    bake_spacing: Option<Vec3>,
) -> bool {
    &&& bake_spacing matches Some(sp)
    &&& 1 <= sp@.x <= SPACING_LIMIT as int
    &&& 1 <= sp@.y <= SPACING_LIMIT as int
    &&& 1 <= sp@.z <= SPACING_LIMIT as int
    &&& 1 <= scale.x
    &&& 1 <= scale.y
    &&& 1 <= scale.z
    &&& -(COORD_LIMIT as int) <= translation.x - scale.x
    &&& -(COORD_LIMIT as int) <= translation.y - scale.y
    &&& -(COORD_LIMIT as int) <= translation.z - scale.z
    &&& translation.x + scale.x <= COORD_LIMIT as int
    &&& translation.y + scale.y <= COORD_LIMIT as int
    &&& translation.z + scale.z <= COORD_LIMIT as int
}

/// Turns one scene node's data into a cascade declaration, or `None`
/// when the node does not declare a usable volume: missing metadata
/// means the node is not a cascade volume, and unusable values are
/// skipped just as silently.
pub fn cascade_input_from_node(
    name: String,
    translation: Vec3,
    scale: Vec3,
    bake_spacing: Option<Vec3>,
) -> (r: Option<CascadeInput>)
    ensures
        r is Some <==> node_declares_cascade(translation@, scale@, bake_spacing),
        r matches Some(ci) ==> {
            &&& ci.name == name
            &&& ci.ws_aabb@.min.x == translation@.x - scale@.x
            &&& ci.ws_aabb@.min.y == translation@.y - scale@.y
            &&& ci.ws_aabb@.min.z == translation@.z - scale@.z
            &&& ci.ws_aabb@.max.x == translation@.x + scale@.x
            &&& ci.ws_aabb@.max.y == translation@.y + scale@.y
            &&& ci.ws_aabb@.max.z == translation@.z + scale@.z
            &&& bake_spacing matches Some(sp) && ci.spacing == sp
            &&& ci.wf()
        },
{
    let sp = match bake_spacing {
        Some(sp) => sp,
        None => {
            return None;
        },
    };
    if !(1 <= sp.x && sp.x <= SPACING_LIMIT && 1 <= sp.y && sp.y <= SPACING_LIMIT && 1 <= sp.z
        && sp.z <= SPACING_LIMIT) {
        return None;
    }
    if !(1 <= scale.x && 1 <= scale.y && 1 <= scale.z) {
        return None;
    }
    let lo_x: i128 = translation.x as i128 - scale.x as i128;
    let lo_y: i128 = translation.y as i128 - scale.y as i128;
    let lo_z: i128 = translation.z as i128 - scale.z as i128;
    let hi_x: i128 = translation.x as i128 + scale.x as i128;
    let hi_y: i128 = translation.y as i128 + scale.y as i128;
    let hi_z: i128 = translation.z as i128 + scale.z as i128;
    let lim: i128 = COORD_LIMIT as i128;
    if !(-lim <= lo_x && -lim <= lo_y && -lim <= lo_z && hi_x <= lim && hi_y <= lim && hi_z
        <= lim) {
        return None;
    }
    Some(
        CascadeInput {
            name,
            ws_aabb: Aabb {
                min: Vec3 { x: lo_x as i64, y: lo_y as i64, z: lo_z as i64 },
                max: Vec3 { x: hi_x as i64, y: hi_y as i64, z: hi_z as i64 },
            },
            spacing: sp,
        },
    )
}

} // verus!
