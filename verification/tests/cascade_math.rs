use probe_cascades::aabb::Aabb;
use probe_cascades::cascade::CascadeInput;
use probe_cascades::cascade::sampler_nearest_clamp;
use probe_cascades::cascade::AddressMode;
use probe_cascades::cascade::FilterMode;
use probe_cascades::extract::cascade_input_from_node;
use probe_cascades::transform::transform_aabb;
use probe_cascades::transform::Affine;
use probe_cascades::vec3::Vec3;

fn v(x: i64, y: i64, z: i64) -> Vec3 {
    Vec3 { x, y, z }
}

fn bx(min: Vec3, max: Vec3) -> Aabb {
    Aabb { min, max }
}

#[test]
fn identity_transform_keeps_box() {
    let b = bx(v(-3, 1, -7), v(2, 4, 9));
    let r = transform_aabb(Affine::identity(), b);
    assert_eq!(r, b);
}

#[test]
fn identity_transform_keeps_degenerate_box() {
    let b = bx(v(5, 5, 5), v(5, 5, 5));
    let r = transform_aabb(Affine::identity(), b);
    assert_eq!(r, b);
}

#[test]
fn translation_moves_box_exactly() {
    let b = bx(v(-3, 1, -7), v(2, 4, 9));
    let r = transform_aabb(Affine::translation(v(10, -20, 30)), b);
    assert_eq!(r, bx(v(7, -19, 23), v(12, -16, 39)));
}

#[test]
fn scale_transform_scales_box() {
    let m = Affine {
        x_axis: v(2, 0, 0),
        y_axis: v(0, 3, 0),
        z_axis: v(0, 0, 1),
        translation: v(0, 0, 0),
    };
    let b = bx(v(1, 1, 1), v(2, 2, 2));
    let r = transform_aabb(m, b);
    assert_eq!(r, bx(v(2, 3, 1), v(4, 6, 2)));
}

#[test]
fn mirror_transform_reorders_bounds() {
    let m = Affine {
        x_axis: v(-1, 0, 0),
        y_axis: v(0, 1, 0),
        z_axis: v(0, 0, 1),
        translation: v(0, 0, 0),
    };
    let b = bx(v(1, 0, 0), v(2, 1, 1));
    let r = transform_aabb(m, b);
    assert_eq!(r, bx(v(-2, 0, 0), v(-1, 1, 1)));
}

#[test]
fn resolution_rounds_up() {
    let input = CascadeInput {
        name: String::from("vol"),
        ws_aabb: bx(v(0, 0, 0), v(10, 10, 10)),
        spacing: v(3, 3, 3),
    };
    let u = input.into_uniform();
    assert_eq!(u.cascade_res, v(4, 4, 4));
}

#[test]
fn resolution_exact_division() {
    let input = CascadeInput {
        name: String::from("vol"),
        ws_aabb: bx(v(0, 0, 0), v(10, 10, 10)),
        spacing: v(2, 2, 2),
    };
    let u = input.into_uniform();
    assert_eq!(u.cascade_res, v(5, 5, 5));
}

#[test]
fn derived_grid_covers_declared_volume() {
    let input = CascadeInput {
        name: String::from("vol"),
        ws_aabb: bx(v(-7, 0, 3), v(6, 11, 8)),
        spacing: v(4, 3, 2),
    };
    let u = input.into_uniform();
    assert!(u.cascade_res.x * u.cascade_spacing.x >= 13);
    assert!(u.cascade_res.y * u.cascade_spacing.y >= 11);
    assert!(u.cascade_res.z * u.cascade_spacing.z >= 5);
    assert!(u.cascade_res.x * u.cascade_spacing.x < 13 + 4);
    assert!(u.cascade_res.y * u.cascade_spacing.y < 11 + 3);
    assert!(u.cascade_res.z * u.cascade_spacing.z < 5 + 2);
}

#[test]
fn derived_texture_paths_follow_convention() {
    let input = CascadeInput {
        name: String::from("foo"),
        ws_aabb: bx(v(0, 0, 0), v(8, 8, 8)),
        spacing: v(2, 2, 2),
    };
    let u = input.into_uniform();
    assert_eq!(u.probes_gi, "bake/probes_gi_foo.png");
    assert_eq!(u.probes_id, "bake/probes_id_foo.png");
}

#[test]
fn derived_uniform_data() {
    let input = CascadeInput {
        name: String::from("vol"),
        ws_aabb: bx(v(-4, 0, 0), v(4, 8, 8)),
        spacing: v(2, 2, 2),
    };
    let u = input.into_uniform();
    assert_eq!(u.cascade_position, v(-4, 0, 0));
    assert_eq!(u.cascade_res, v(4, 4, 4));
    assert_eq!(u.cascade_spacing, v(2, 2, 2));
    assert_eq!(u.probe_size, 6);
    assert_eq!((u.gi_texel.num, u.gi_texel.den), (1, 2048));
    assert_eq!((u.id_texel_x.num, u.id_texel_x.den), (1, 4));
    assert_eq!((u.id_texel_y.num, u.id_texel_y.den), (1, 16));
}

#[test]
fn derivation_is_idempotent() {
    let input = CascadeInput {
        name: String::from("vol"),
        ws_aabb: bx(v(0, 0, 0), v(10, 10, 10)),
        spacing: v(3, 3, 3),
    };
    let a = input.into_uniform();
    let b = input.into_uniform();
    assert_eq!(a.probes_gi, b.probes_gi);
    assert_eq!(a.probes_id, b.probes_id);
    assert_eq!(a.cascade_position, b.cascade_position);
    assert_eq!(a.cascade_res, b.cascade_res);
    assert_eq!(a.cascade_spacing, b.cascade_spacing);
    assert_eq!(a.probe_size, b.probe_size);
}

#[test]
fn view_uniform_matches_uniform() {
    let input = CascadeInput {
        name: String::from("vol"),
        ws_aabb: bx(v(0, 0, 0), v(10, 10, 10)),
        spacing: v(3, 3, 3),
    };
    let u = input.into_uniform();
    let w = input.into_view_uniform();
    assert_eq!(u.probes_gi, w.probes_gi);
    assert_eq!(u.probes_id, w.probes_id);
    assert_eq!(u.cascade_position, w.cascade_position);
    assert_eq!(u.cascade_res, w.cascade_res);
    assert_eq!(u.cascade_spacing, w.cascade_spacing);
    assert_eq!(u.probe_size, w.probe_size);
    assert_eq!((w.gi_texel.num, w.gi_texel.den), (1, 2048));
}

#[test]
fn index_sampler_is_nearest_clamp() {
    let s = sampler_nearest_clamp();
    assert_eq!(s.mag_filter, FilterMode::Nearest);
    assert_eq!(s.min_filter, FilterMode::Nearest);
    assert_eq!(s.mipmap_filter, FilterMode::Nearest);
    assert_eq!(s.address_mode_u, AddressMode::ClampToEdge);
    assert_eq!(s.address_mode_v, AddressMode::ClampToEdge);
    assert_eq!(s.address_mode_w, AddressMode::ClampToEdge);
    let input = CascadeInput {
        name: String::from("vol"),
        ws_aabb: bx(v(0, 0, 0), v(8, 8, 8)),
        spacing: v(2, 2, 2),
    };
    assert_eq!(input.into_uniform().id_sampler, s);
}

#[test]
fn node_with_metadata_extracts() {
    let r = cascade_input_from_node(
        String::from("room"),
        v(0, 0, 0),
        v(5, 5, 5),
        Some(v(2, 2, 2)),
    );
    let ci = r.expect("node declares a cascade");
    assert_eq!(ci.name, "room");
    assert_eq!(ci.ws_aabb, bx(v(-5, -5, -5), v(5, 5, 5)));
    assert_eq!(ci.spacing, v(2, 2, 2));
}

#[test]
fn node_without_metadata_is_skipped() {
    let r = cascade_input_from_node(String::from("room"), v(0, 0, 0), v(5, 5, 5), None);
    assert!(r.is_none());
}

#[test]
fn node_with_malformed_spacing_is_skipped() {
    let r = cascade_input_from_node(
        String::from("room"),
        v(0, 0, 0),
        v(5, 5, 5),
        Some(v(0, 2, 2)),
    );
    assert!(r.is_none());
    let r = cascade_input_from_node(
        String::from("room"),
        v(0, 0, 0),
        v(5, 5, 5),
        Some(v(2, -1, 2)),
    );
    assert!(r.is_none());
}

#[test]
fn node_with_flat_scale_is_skipped() {
    let r = cascade_input_from_node(
        String::from("room"),
        v(0, 0, 0),
        v(5, 0, 5),
        Some(v(2, 2, 2)),
    );
    assert!(r.is_none());
}

#[test]
fn node_outside_world_bounds_is_skipped() {
    let r = cascade_input_from_node(
        String::from("room"),
        v(4000, 0, 0),
        v(200, 5, 5),
        Some(v(2, 2, 2)),
    );
    assert!(r.is_none());
}
